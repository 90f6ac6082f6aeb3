//! Runtime values.

use vstd::prelude::*;

use super::errors::Trap;
use crate::binary::instruction::Lane16;
use crate::binary::section::MaybeU32;
use crate::binary::types::ValType;

verus! {

/// A 128-bit vector, held as four 32-bit lanes in memory order.
#[allow(non_camel_case_types)]
#[derive(Debug, Clone, Copy, PartialEq, Eq, Structural)]
pub struct v128(pub i32, pub i32, pub i32, pub i32);

/// The 32-bit lane that four bytes stand for, least significant byte first.
pub open spec fn spec_lane_from_bytes(b: Seq<u8>) -> i32 {
    (b[0] as int + b[1] as int * 0x100 + b[2] as int * 0x1_0000 + b[3] as int * 0x100_0000) as i32
}

/// The vector that sixteen bytes in memory order stand for.
pub open spec fn spec_v128_from_bytes(b: Seq<u8>) -> v128 {
    v128(
        spec_lane_from_bytes(b.subrange(0, 4)),
        spec_lane_from_bytes(b.subrange(4, 8)),
        spec_lane_from_bytes(b.subrange(8, 12)),
        spec_lane_from_bytes(b.subrange(12, 16)),
    )
}

/// The four bytes of a 32-bit lane, least significant byte first.
pub open spec fn spec_lane_bytes(lane: i32) -> Seq<u8> {
    let x = lane as u32;
    seq![
        (x % 0x100) as u8,
        (x / 0x100 % 0x100) as u8,
        (x / 0x1_0000 % 0x100) as u8,
        (x / 0x100_0000) as u8,
    ]
}

/// The sixteen bytes of a vector in memory order.
pub open spec fn spec_v128_bytes(v: v128) -> Seq<u8> {
    spec_lane_bytes(v.0) + spec_lane_bytes(v.1) + spec_lane_bytes(v.2) + spec_lane_bytes(v.3)
}

fn push_lane_bytes(out: &mut Vec<u8>, lane: i32)
    ensures
        final(out)@ == old(out)@ + spec_lane_bytes(lane),
{
    let x: u32 = lane as u32;
    out.push((x % 0x100) as u8);
    out.push((x / 0x100 % 0x100) as u8);
    out.push((x / 0x1_0000 % 0x100) as u8);
    out.push((x / 0x100_0000) as u8);
    assert(out@ =~= old(out)@ + spec_lane_bytes(lane));
}

fn lane_from_bytes(bytes: &Lane16, at: usize) -> (r: i32)
    requires
        at + 4 <= 16,
    ensures
        r == spec_lane_from_bytes(bytes@.subrange(at as int, at + 4)),
{
    let word: u32 = bytes[at] as u32 + bytes[at + 1] as u32 * 0x100 + bytes[at + 2] as u32
        * 0x1_0000 + bytes[at + 3] as u32 * 0x100_0000;
    #[verifier::truncate]
    (word as i32)
}

impl v128 {
    /// The vector whose bytes in memory order are `bytes`.
    pub fn new(bytes: Lane16) -> (r: Self)
        ensures
            r == spec_v128_from_bytes(bytes@),
    {
        v128(
            lane_from_bytes(&bytes, 0),
            lane_from_bytes(&bytes, 4),
            lane_from_bytes(&bytes, 8),
            lane_from_bytes(&bytes, 12),
        )
    }

    /// The sixteen bytes of the vector in memory order.
    pub fn to_bytes(&self) -> (r: Vec<u8>)
        ensures
            r@ == spec_v128_bytes(*self),
    {
        let mut out: Vec<u8> = Vec::new();
        push_lane_bytes(&mut out, self.0);
        push_lane_bytes(&mut out, self.1);
        push_lane_bytes(&mut out, self.2);
        push_lane_bytes(&mut out, self.3);
        assert(out@ =~= spec_v128_bytes(*self));
        out
    }

    /// Whether all 128 bits are zero.
    pub fn all_zero(&self) -> (r: bool)
        ensures
            r == (*self == v128(0, 0, 0, 0)),
    {
        self.0 == 0 && self.1 == 0 && self.2 == 0 && self.3 == 0
    }
}

/// A value that can be made into a vector.
pub trait ToV128 {
    /// The vector that the value stands for.
    spec fn spec_v128(self) -> v128;

    fn v128(self) -> (r: v128)
        ensures
            r == self.spec_v128(),
    ;
}

impl ToV128 for Lane16 {
    open spec fn spec_v128(self) -> v128 {
        spec_v128_from_bytes(self@)
    }

    fn v128(self) -> (r: v128) {
        v128::new(self)
    }
}

/// The bytes of a lane are read back as the lane.
pub proof fn lemma_lane_bytes_round_trip(lane: i32)
    ensures
        spec_lane_bytes(lane).len() == 4,
        spec_lane_from_bytes(spec_lane_bytes(lane)) == lane,
{
    let x = lane as u32;
    assert(x % 0x100 + (x / 0x100 % 0x100) * 0x100 + (x / 0x1_0000 % 0x100) * 0x1_0000 + (x
        / 0x100_0000) * 0x100_0000 == x);
    assert(x as i32 == lane) by (bit_vector)
        requires
            x == lane as u32,
    ;
}

/// The bytes of a vector are read back as the vector.
pub proof fn lemma_v128_bytes_round_trip(v: v128)
    ensures
        spec_v128_bytes(v).len() == 16,
        spec_v128_from_bytes(spec_v128_bytes(v)) == v,
{
    let b = spec_v128_bytes(v);
    lemma_lane_bytes_round_trip(v.0);
    lemma_lane_bytes_round_trip(v.1);
    lemma_lane_bytes_round_trip(v.2);
    lemma_lane_bytes_round_trip(v.3);
    assert(b.subrange(0, 4) =~= spec_lane_bytes(v.0));
    assert(b.subrange(4, 8) =~= spec_lane_bytes(v.1));
    assert(b.subrange(8, 12) =~= spec_lane_bytes(v.2));
    assert(b.subrange(12, 16) =~= spec_lane_bytes(v.3));
}

/// A reference to a function: the address of its instance in the store.
pub type RefInst = usize;

/// A value of the machine. Floats are held as their bit patterns.
#[derive(Debug, Clone, Copy, PartialEq, Eq, Structural)]
pub enum ValInst {
    I32(i32),
    I64(i64),
    F32(u32),
    F64(u64),
    V128(v128),
    FuncRef(Option<RefInst>),
    ExternRef(MaybeU32),
    NullRef,
}

pub type ValInsts = Vec<ValInst>;

/// Whether the bits of a 32-bit float are those of a NaN.
pub open spec fn spec_is_nan32(bits: u32) -> bool {
    bits % 0x8000_0000 > 0x7f80_0000
}

/// Whether the bits of a 64-bit float are those of a NaN.
pub open spec fn spec_is_nan64(bits: u64) -> bool {
    bits % 0x8000_0000_0000_0000 > 0x7ff0_0000_0000_0000
}

/// Whether the bits of a 32-bit float are those of a zero of either sign.
pub open spec fn spec_is_zero32(bits: u32) -> bool {
    bits % 0x8000_0000 == 0
}

/// Whether the bits of a 64-bit float are those of a zero of either sign.
pub open spec fn spec_is_zero64(bits: u64) -> bool {
    bits % 0x8000_0000_0000_0000 == 0
}

pub fn is_nan32(bits: u32) -> (r: bool)
    ensures
        r == spec_is_nan32(bits),
{
    bits % 0x8000_0000 > 0x7f80_0000
}

pub fn is_nan64(bits: u64) -> (r: bool)
    ensures
        r == spec_is_nan64(bits),
{
    bits % 0x8000_0000_0000_0000 > 0x7ff0_0000_0000_0000
}

/// Whether the bits of a 32-bit float are those of the canonical NaN of
/// either sign.
pub fn is_canonical_nan32(bits: u32) -> (r: bool)
    ensures
        r == (bits % 0x8000_0000 == 0x7fc0_0000),
{
    bits % 0x8000_0000 == 0x7fc0_0000
}

/// Whether the bits of a 32-bit float are those of an arithmetic NaN: a
/// NaN whose top mantissa bit is set.
pub fn is_arithmetic_nan32(bits: u32) -> (r: bool)
    ensures
        r == (bits % 0x8000_0000 >= 0x7fc0_0000),
{
    bits % 0x8000_0000 >= 0x7fc0_0000
}

/// Whether the bits of a 64-bit float are those of the canonical NaN of
/// either sign.
pub fn is_canonical_nan64(bits: u64) -> (r: bool)
    ensures
        r == (bits % 0x8000_0000_0000_0000 == 0x7ff8_0000_0000_0000),
{
    bits % 0x8000_0000_0000_0000 == 0x7ff8_0000_0000_0000
}

/// Whether the bits of a 64-bit float are those of an arithmetic NaN.
pub fn is_arithmetic_nan64(bits: u64) -> (r: bool)
    ensures
        r == (bits % 0x8000_0000_0000_0000 >= 0x7ff8_0000_0000_0000),
{
    bits % 0x8000_0000_0000_0000 >= 0x7ff8_0000_0000_0000
}

impl ValInst {
    /// The type of the value.
    pub open spec fn spec_type(&self) -> ValType {
        match self {
            ValInst::I32(_) => ValType::I32,
            ValInst::I64(_) => ValType::I64,
            ValInst::F32(_) => ValType::F32,
            ValInst::F64(_) => ValType::F64,
            ValInst::V128(_) => ValType::V128,
            ValInst::FuncRef(_) => ValType::FuncRef,
            ValInst::ExternRef(_) => ValType::ExternRef,
            ValInst::NullRef => ValType::NullRef,
        }
    }

    /// The value read as a condition: zero is false, a vector is false when
    /// all its bits are zero, and a null reference is false. A float is
    /// false when it is a zero of either sign.
    pub open spec fn spec_bool(&self) -> bool {
        match self {
            ValInst::I32(v) => *v != 0,
            ValInst::I64(v) => *v != 0,
            ValInst::F32(v) => !spec_is_zero32(*v),
            ValInst::F64(v) => !spec_is_zero64(*v),
            ValInst::V128(v) => *v != v128(0, 0, 0, 0),
            ValInst::FuncRef(v) => v is Some,
            ValInst::ExternRef(v) => v is Some,
            ValInst::NullRef => false,
        }
    }

    /// The zero of a value type: the number zero, or the null reference.
    pub open spec fn spec_zero(t: ValType) -> ValInst {
        match t {
            ValType::I32 => ValInst::I32(0),
            ValType::I64 => ValInst::I64(0),
            ValType::F32 => ValInst::F32(0),
            ValType::F64 => ValInst::F64(0),
            ValType::V128 => ValInst::V128(v128(0, 0, 0, 0)),
            ValType::FuncRef => ValInst::FuncRef(None),
            ValType::ExternRef => ValInst::ExternRef(None),
            ValType::NullRef => ValInst::NullRef,
        }
    }

    /// Equality as the tests of the engine read it: two floats are the
    /// same when both are NaN, when both are zeros, or when their bits
    /// are the same; other values when they are equal.
    pub open spec fn spec_same(&self, rhs: &ValInst) -> bool {
        match (*self, *rhs) {
            (ValInst::F32(a), ValInst::F32(b)) => (spec_is_nan32(a) && spec_is_nan32(b)) || (
            !spec_is_nan32(a) && !spec_is_nan32(b) && ((spec_is_zero32(a) && spec_is_zero32(b))
                || a == b)),
            (ValInst::F64(a), ValInst::F64(b)) => (spec_is_nan64(a) && spec_is_nan64(b)) || (
            !spec_is_nan64(a) && !spec_is_nan64(b) && ((spec_is_zero64(a) && spec_is_zero64(b))
                || a == b)),
            (a, b) => a == b,
        }
    }

    /// The null reference of a reference type, given by its byte.
    pub fn new_ref_null(v: u8) -> (r: Self)
        requires
            v == 0x70 || v == 0x6f,
        ensures
            r == if v == 0x70 {
                ValInst::FuncRef(None)
            } else {
                ValInst::ExternRef(None)
            },
    {
        if v == 0x70 {
            ValInst::FuncRef(None)
        } else {
            ValInst::ExternRef(None)
        }
    }

    /// A reference of the given type: to a function, or to something of
    /// the host that an index names.
    pub fn new_ref(val_type: ValType, ref_inst: Option<RefInst>, idx: MaybeU32) -> (r: Self)
        requires
            val_type == ValType::FuncRef && ref_inst is Some || val_type == ValType::ExternRef
                && idx is Some,
        ensures
            r == if val_type == ValType::FuncRef {
                ValInst::FuncRef(ref_inst)
            } else {
                ValInst::ExternRef(idx)
            },
    {
        match val_type {
            ValType::FuncRef => ValInst::FuncRef(ref_inst),
            _ => ValInst::ExternRef(idx),
        }
    }

    pub fn new_func_ref(ref_inst: RefInst) -> (r: Self)
        ensures
            r == ValInst::FuncRef(Some(ref_inst)),
    {
        ValInst::FuncRef(Some(ref_inst))
    }

    pub fn new_extern_ref(ref_inst: u32) -> (r: Self)
        ensures
            r == ValInst::ExternRef(Some(ref_inst)),
    {
        ValInst::ExternRef(Some(ref_inst))
    }

    pub fn get_type(&self) -> (r: ValType)
        ensures
            r == self.spec_type(),
    {
        match self {
            ValInst::I32(_) => ValType::I32,
            ValInst::I64(_) => ValType::I64,
            ValInst::F32(_) => ValType::F32,
            ValInst::F64(_) => ValType::F64,
            ValInst::V128(_) => ValType::V128,
            ValInst::FuncRef(_) => ValType::FuncRef,
            ValInst::ExternRef(_) => ValType::ExternRef,
            ValInst::NullRef => ValType::NullRef,
        }
    }

    /// The zero of a value type.
    pub fn zero(type_: &ValType) -> (r: Self)
        ensures
            r == Self::spec_zero(*type_),
    {
        match type_ {
            ValType::I32 => ValInst::I32(0),
            ValType::I64 => ValInst::I64(0),
            ValType::F32 => ValInst::F32(0),
            ValType::F64 => ValInst::F64(0),
            ValType::V128 => ValInst::V128(v128(0, 0, 0, 0)),
            ValType::FuncRef => ValInst::FuncRef(None),
            ValType::ExternRef => ValInst::ExternRef(None),
            ValType::NullRef => ValInst::NullRef,
        }
    }

    pub fn as_u32(&self) -> (r: u32)
        requires
            self is I32,
        ensures
            r == self->I32_0 as u32,
    {
        match self {
            ValInst::I32(v) => *v as u32,
            _ => 0,
        }
    }

    pub fn as_u64(&self) -> (r: u64)
        requires
            self is I64,
        ensures
            r == self->I64_0 as u64,
    {
        match self {
            ValInst::I64(v) => *v as u64,
            _ => 0,
        }
    }

    pub fn as_i32(&self) -> (r: i32)
        requires
            self is I32,
        ensures
            r == self->I32_0,
    {
        match self {
            ValInst::I32(v) => *v,
            _ => 0,
        }
    }

    pub fn as_i64(&self) -> (r: i64)
        requires
            self is I64,
        ensures
            r == self->I64_0,
    {
        match self {
            ValInst::I64(v) => *v,
            _ => 0,
        }
    }

    /// The bits of a 32-bit float.
    pub fn as_f32(&self) -> (r: u32)
        requires
            self is F32,
        ensures
            r == self->F32_0,
    {
        match self {
            ValInst::F32(v) => *v,
            _ => 0,
        }
    }

    /// The bits of a 64-bit float.
    pub fn as_f64(&self) -> (r: u64)
        requires
            self is F64,
        ensures
            r == self->F64_0,
    {
        match self {
            ValInst::F64(v) => *v,
            _ => 0,
        }
    }

    pub fn as_v128(&self) -> (r: v128)
        requires
            self is V128,
        ensures
            r == self->V128_0,
    {
        match self {
            ValInst::V128(v) => *v,
            _ => v128(0, 0, 0, 0),
        }
    }

    pub fn as_bool(&self) -> (r: bool)
        ensures
            r == self.spec_bool(),
    {
        match self {
            ValInst::I32(v) => *v != 0,
            ValInst::I64(v) => *v != 0,
            ValInst::F32(v) => *v % 0x8000_0000 != 0,
            ValInst::F64(v) => *v % 0x8000_0000_0000_0000 != 0,
            ValInst::V128(v) => !v.all_zero(),
            ValInst::FuncRef(v) => v.is_some(),
            ValInst::ExternRef(v) => v.is_some(),
            ValInst::NullRef => false,
        }
    }

    /// The function that a reference names: a null function reference is
    /// `NullRef`, and any other value is `InvalidRef`.
    pub fn as_ref_inst(&self) -> (r: Result<RefInst, Trap>)
        ensures
            r == match *self {
                ValInst::FuncRef(Some(f)) => Ok::<RefInst, Trap>(f),
                ValInst::FuncRef(None) => Err(Trap::NullRef),
                _ => Err(Trap::InvalidRef),
            },
    {
        match self {
            ValInst::FuncRef(v) => match v {
                Some(ref_inst) => Ok(*ref_inst),
                None => Err(Trap::NullRef),
            },
            _ => Err(Trap::InvalidRef),
        }
    }

    pub fn as_func_inst(&self) -> (r: Result<RefInst, Trap>)
        ensures
            r == match *self {
                ValInst::FuncRef(Some(f)) => Ok::<RefInst, Trap>(f),
                ValInst::FuncRef(None) => Err(Trap::NullRef),
                _ => Err(Trap::InvalidRef),
            },
    {
        self.as_ref_inst()
    }

    /// The value as an address: a 32-bit number is sign-extended, so that
    /// a negative one lies beyond every memory.
    pub fn as_mem_addr(&self) -> (r: u64)
        requires
            self is I32 || self is I64,
        ensures
            r == match *self {
                ValInst::I32(v) => v as i64 as u64,
                ValInst::I64(v) => v as u64,
                _ => 0,
            },
    {
        match self {
            ValInst::I32(v) => *v as i64 as u64,
            ValInst::I64(v) => *v as u64,
            _ => 0,
        }
    }

    pub fn from_u32(v: u32) -> (r: Self)
        ensures
            r == ValInst::I32(v as i32),
    {
        ValInst::I32(v as i32)
    }

    pub fn from_u64(v: u64) -> (r: Self)
        ensures
            r == ValInst::I64(v as i64),
    {
        ValInst::I64(v as i64)
    }

    /// Whether two values are the same, floats being compared as numbers
    /// and a NaN being the same as any NaN.
    pub fn same(&self, rhs: &ValInst) -> (r: bool)
        ensures
            r == self.spec_same(rhs),
    {
        match (*self, *rhs) {
            (ValInst::F32(a), ValInst::F32(b)) => {
                let na = is_nan32(a);
                let nb = is_nan32(b);
                (na && nb) || (!na && !nb && ((a % 0x8000_0000 == 0 && b % 0x8000_0000 == 0) || a
                    == b))
            },
            (ValInst::F64(a), ValInst::F64(b)) => {
                let na = is_nan64(a);
                let nb = is_nan64(b);
                (na && nb) || (!na && !nb && ((a % 0x8000_0000_0000_0000 == 0 && b
                    % 0x8000_0000_0000_0000 == 0) || a == b))
            },
            (a, b) => a == b,
        }
    }
}

/// How a module is given to the engine: by the path of a file, by the
/// bytes of a binary, or already read.
pub enum LoadFrom<'a> {
    File(&'a str),
    Data(Vec<u8>),
    Module(crate::binary::module::Module),
}

impl From<u32> for ValInst {
    fn from(v: u32) -> (r: Self) {
        ValInst::I32(v as i32)
    }
}

impl vstd::std_specs::convert::FromSpecImpl<u32> for ValInst {
    open spec fn obeys_from_spec() -> bool {
        true
    }

    open spec fn from_spec(v: u32) -> Self {
        ValInst::I32(v as i32)
    }
}

impl From<u64> for ValInst {
    fn from(v: u64) -> (r: Self) {
        ValInst::I64(v as i64)
    }
}

impl vstd::std_specs::convert::FromSpecImpl<u64> for ValInst {
    open spec fn obeys_from_spec() -> bool {
        true
    }

    open spec fn from_spec(v: u64) -> Self {
        ValInst::I64(v as i64)
    }
}

impl From<i32> for ValInst {
    fn from(v: i32) -> (r: Self) {
        ValInst::I32(v)
    }
}

impl vstd::std_specs::convert::FromSpecImpl<i32> for ValInst {
    open spec fn obeys_from_spec() -> bool {
        true
    }

    open spec fn from_spec(v: i32) -> Self {
        ValInst::I32(v)
    }
}

impl From<i64> for ValInst {
    fn from(v: i64) -> (r: Self) {
        ValInst::I64(v)
    }
}

impl vstd::std_specs::convert::FromSpecImpl<i64> for ValInst {
    open spec fn obeys_from_spec() -> bool {
        true
    }

    open spec fn from_spec(v: i64) -> Self {
        ValInst::I64(v)
    }
}

impl From<v128> for ValInst {
    fn from(v: v128) -> (r: Self) {
        ValInst::V128(v)
    }
}

impl vstd::std_specs::convert::FromSpecImpl<v128> for ValInst {
    open spec fn obeys_from_spec() -> bool {
        true
    }

    open spec fn from_spec(v: v128) -> Self {
        ValInst::V128(v)
    }
}

} // verus!
