//! The instructions that only compute: they take their operands from the
//! stack and put one result back, and touch nothing else.

use vstd::prelude::*;

use super::alu::fits;
use super::alu::ibin;
use super::alu::irel;
use super::alu::iun;
use super::alu::spec_ibin;
use super::alu::spec_irel;
use super::alu::spec_iun;
use super::alu::to_u;
use super::alu::unsigned;
use super::alu::IBinOp;
use super::alu::IRelOp;
use super::alu::IUnOp;
use super::alu::Width;
use super::lanes::all_true;
use super::lanes::bitmask;
use super::lanes::from_lanes;
use super::lanes::ints;
use super::lanes::lanes;
use super::lanes::simd_bin;
use super::lanes::simd_mix;
use super::lanes::spec_all_true;
use super::lanes::spec_bitmask;
use super::lanes::spec_from_lanes;
use super::lanes::spec_lanes;
use super::lanes::spec_simd_mix;
use super::lanes::MixOp;
use super::lanes::simd_shift;
use super::lanes::simd_un;
use super::lanes::spec_simd_bin;
use super::lanes::spec_simd_shift;
use super::lanes::spec_simd_un;
use super::lanes::LaneBinOp;
use super::lanes::Shape;
use super::float::frel;
use super::float::simd_fbit;
use super::float::simd_frel;
use super::float::spec_simd_fbit;
use super::float::spec_frel;
use super::float::spec_simd_frel;
use super::float::FRelOp;
use super::trunc_sat::lemma_nan_is_read;
use super::trunc_sat::lemma_trunc_of_nan;
use super::trunc_sat::simd_trunc_sat;
use super::trunc_sat::spec_simd_trunc_sat;
use super::trunc_sat::spec_trunc;
use super::trunc_sat::spec_trunc_sat;
use super::trunc_sat::trunc;
use super::trunc_sat::trunc_sat;
use super::trunc_sat::TruncSize;
use super::alu::wrap;
use super::alu::wrap_s;
use crate::execution::errors::Trap;
use crate::execution::value::spec_is_nan32;
use crate::execution::value::spec_v128_bytes;
use crate::execution::value::spec_v128_from_bytes;
use crate::execution::value::v128;
use crate::execution::value::ValInst;

verus! {

/// An operation on the bits of a float that needs no float arithmetic.
#[derive(Debug, Clone, Copy, PartialEq, Eq, Structural)]
pub enum FBitOp {
    /// Clears the sign bit.
    Abs,
    /// Flips the sign bit.
    Neg,
    /// The first operand with the sign bit of the second.
    Copysign,
}

/// A combination of whole vectors bit by bit.
#[derive(Debug, Clone, Copy, PartialEq, Eq, Structural)]
pub enum VBitOp {
    And,
    /// The first operand and the complement of the second.
    Andnot,
    Or,
    Xor,
}

/// How a lane is read when it is taken out of a vector.
#[derive(Debug, Clone, Copy, PartialEq, Eq, Structural)]
pub enum LaneGet {
    Signed,
    Unsigned,
    /// As the bits of a float of the width of the lane.
    Float,
}

/// An instruction that only computes.
#[derive(Debug, Clone, Copy, PartialEq, Eq, Structural)]
pub enum PureOp {
    /// Gives a constant.
    Const(ValInst),
    IUn(Width, IUnOp),
    IBin(Width, IBinOp),
    /// Whether an integer is zero.
    IEqz(Width),
    IRel(Width, IRelOp),
    /// The low 32 bits of a 64-bit integer.
    Wrap,
    /// A 32-bit integer as a 64-bit one, read as signed or as unsigned.
    Extend(bool),
    /// The bits of a float as an integer of the same width.
    FloatBits(Width),
    /// The float that has the bits of an integer of the same width.
    BitsFloat(Width),
    /// An operation on the sign bit of a float of the given width.
    FBit(Width, FBitOp),
    /// A float of the given width rounded towards zero to an integer,
    /// signed or not; the last flag says whether it saturates where the
    /// integer cannot hold the result, or traps.
    Trunc(Width, TruncSize, bool, bool),
    /// A comparison of two floats of the given width.
    FRel(Width, FRelOp),
    /// Whether a reference is null.
    RefIsNull,
    /// A comparison of the floats of two vectors, of the given width, lane
    /// by lane.
    VFRel(Width, FRelOp),
    /// The sign bit of each float of a vector cleared (`Abs`) or flipped
    /// (`Neg`).
    VFBit(Width, FBitOp),
    /// Each float of a vector, of the given width, rounded towards zero to
    /// a 32-bit integer, signed or not, saturating.
    VTruncSat(Width, bool),
    VBin(Shape, LaneBinOp),
    VUn(Shape, IUnOp),
    VShift(Shape, IBinOp),
    VNot,
    VBit(VBitOp),
    /// Bit by bit, the first operand where the third has a one and the
    /// second where it has a zero.
    VBitselect,
    /// Whether any bit of a vector is set.
    VAnyTrue,
    VMix(MixOp),
    /// Whether every lane is not zero.
    VAllTrue(Shape),
    /// The number whose bit `i` is set where lane `i` is negative.
    VBitmask(Shape),
    /// A vector with the operand in every lane; the flag says whether the
    /// operand is a float.
    VSplat(Shape, bool),
    /// One lane of a vector.
    VExtract(Shape, LaneGet, u8),
    /// A vector with one lane replaced by the second operand; the flag
    /// says whether that operand is a float.
    VReplace(Shape, bool, u8),
    /// The bytes of two vectors that the sixteen bytes of the selector
    /// name: a byte below 16 names a byte of the first vector, a byte
    /// from 16 to 31 one of the second.
    VShuffle(v128),
}

/// The number of operands that an operation takes.
pub open spec fn spec_arity(op: PureOp) -> nat {
    match op {
        PureOp::Const(_) => 0,
        PureOp::IUn(_, _) => 1,
        PureOp::IBin(_, _) => 2,
        PureOp::IEqz(_) => 1,
        PureOp::IRel(_, _) => 2,
        PureOp::Wrap => 1,
        PureOp::Extend(_) => 1,
        PureOp::FloatBits(_) => 1,
        PureOp::BitsFloat(_) => 1,
        PureOp::FBit(_, FBitOp::Copysign) => 2,
        PureOp::FBit(_, _) => 1,
        PureOp::FRel(_, _) => 2,
        PureOp::VFRel(_, _) => 2,
        PureOp::VFBit(_, _) => 1,
        PureOp::Trunc(_, _, _, _) => 1,
        PureOp::VTruncSat(_, _) => 1,
        PureOp::RefIsNull => 1,
        PureOp::VBin(_, _) => 2,
        PureOp::VUn(_, _) => 1,
        PureOp::VShift(_, _) => 2,
        PureOp::VNot => 1,
        PureOp::VBit(_) => 2,
        PureOp::VBitselect => 3,
        PureOp::VAnyTrue => 1,
        PureOp::VMix(MixOp::Narrow(_, _)) => 2,
        PureOp::VMix(MixOp::ExtMul(_, _, _)) => 2,
        PureOp::VMix(MixOp::Dot) => 2,
        PureOp::VMix(MixOp::Swizzle) => 2,
        PureOp::VMix(_) => 1,
        PureOp::VAllTrue(_) => 1,
        PureOp::VBitmask(_) => 1,
        PureOp::VSplat(_, _) => 1,
        PureOp::VExtract(_, _, _) => 1,
        PureOp::VReplace(_, _, _) => 2,
        PureOp::VShuffle(_) => 2,
    }
}

/// The number that a scalar stands for when it is put into a lane of a
/// vector of shape `s`: an integer, or the bits of a float, of the type
/// that goes with the shape.
pub open spec fn spec_scalar_of(v: ValInst, s: Shape, float: bool) -> Option<int> {
    match (v, s, float) {
        (ValInst::I32(x), Shape::I8x16, false) => Some(x as int),
        (ValInst::I32(x), Shape::I16x8, false) => Some(x as int),
        (ValInst::I32(x), Shape::I32x4, false) => Some(x as int),
        (ValInst::I64(x), Shape::I64x2, false) => Some(x as int),
        (ValInst::F32(x), Shape::I32x4, true) => Some(x as int),
        (ValInst::F64(x), Shape::I64x2, true) => Some(x as int),
        _ => None,
    }
}

/// The value that a lane `x` of a vector of shape `s` is when it is taken
/// out of the vector.
pub open spec fn spec_lane_val(x: int, s: Shape, get: LaneGet) -> Option<ValInst> {
    match (s, get) {
        (Shape::I64x2, LaneGet::Float) => Some(ValInst::F64(to_u(x, Width::W64) as u64)),
        (Shape::I32x4, LaneGet::Float) => Some(ValInst::F32(to_u(x, Width::W32) as u32)),
        (_, LaneGet::Float) => None,
        (Shape::I64x2, _) => Some(ValInst::I64(x as i64)),
        (_, LaneGet::Signed) => Some(ValInst::I32(x as i32)),
        (_, LaneGet::Unsigned) => Some(ValInst::I32(to_u(x, s.spec_width()) as i32)),
    }
}

/// What a shuffle gives: byte `i` of the result is the byte of `a` or `b`
/// that byte `i` of the selector names. A selector byte of 32 or more is
/// `OutofRange`.
pub open spec fn spec_shuffle(sel: v128, a: v128, b: v128) -> Result<v128, Trap> {
    let picks = spec_v128_bytes(sel);
    if exists|i: int| 0 <= i < 16 && #[trigger] picks[i] >= 32 {
        Err(Trap::OutofRange)
    } else {
        Ok(
            spec_v128_from_bytes(
                Seq::new(
                    16,
                    |i: int|
                        if picks[i] < 16 {
                            spec_v128_bytes(a)[picks[i] as int]
                        } else {
                            spec_v128_bytes(b)[picks[i] - 16]
                        },
                ),
            ),
        )
    }
}

/// The number that an integer value of width `w` holds.
pub open spec fn spec_int_of(v: ValInst, w: Width) -> Option<int> {
    match (v, w) {
        (ValInst::I32(a), Width::W32) => Some(a as int),
        (ValInst::I64(a), Width::W64) => Some(a as int),
        _ => None,
    }
}

/// The integer value of width `w` that holds a number of that width.
pub open spec fn spec_val_of(x: int, w: Width) -> ValInst {
    if w == Width::W64 {
        ValInst::I64(x as i64)
    } else {
        ValInst::I32(x as i32)
    }
}

/// The bits of a float value of width `w`.
pub open spec fn spec_bits_of(v: ValInst, w: Width) -> Option<int> {
    match (v, w) {
        (ValInst::F32(a), Width::W32) => Some(a as int),
        (ValInst::F64(a), Width::W64) => Some(a as int),
        _ => None,
    }
}

/// The float value of width `w` that has the given bits.
pub open spec fn spec_float_of(bits: int, w: Width) -> ValInst {
    if w == Width::W64 {
        ValInst::F64(bits as u64)
    } else {
        ValInst::F32(bits as u32)
    }
}

/// A truth value as the machine writes it.
pub open spec fn spec_truth(b: bool) -> ValInst {
    ValInst::I32(
        if b {
            1
        } else {
            0
        },
    )
}

/// What an operation on the sign bit gives on the bits `a` (and `b`) of
/// floats of width `w`. The sign bit is the top bit.
pub open spec fn spec_fbit(op: FBitOp, a: int, b: int, w: Width) -> int {
    match op {
        FBitOp::Abs => a % w.half(),
        FBitOp::Neg => if a >= w.half() {
            a - w.half()
        } else {
            a + w.half()
        },
        FBitOp::Copysign => a % w.half() + (b / w.half()) * w.half(),
    }
}

/// What a bit by bit combination of two vectors gives.
pub open spec fn spec_vbit(op: VBitOp, a: v128, b: v128) -> v128 {
    match op {
        VBitOp::And => v128(a.0 & b.0, a.1 & b.1, a.2 & b.2, a.3 & b.3),
        VBitOp::Andnot => v128(a.0 & !b.0, a.1 & !b.1, a.2 & !b.2, a.3 & !b.3),
        VBitOp::Or => v128(a.0 | b.0, a.1 | b.1, a.2 | b.2, a.3 | b.3),
        VBitOp::Xor => v128(a.0 ^ b.0, a.1 ^ b.1, a.2 ^ b.2, a.3 ^ b.3),
    }
}

/// Bit by bit, `a` where `mask` has a one and `b` where it has a zero.
pub open spec fn spec_bitselect(a: v128, b: v128, mask: v128) -> v128 {
    v128(
        (a.0 & mask.0) | (b.0 & !mask.0),
        (a.1 & mask.1) | (b.1 & !mask.1),
        (a.2 & mask.2) | (b.2 & !mask.2),
        (a.3 & mask.3) | (b.3 & !mask.3),
    )
}

/// The integer value that a truncation of the float with the given bits
/// gives: the whole part, held in the bits of the integer's width.
pub open spec fn spec_trunc_val(w: Width, bits: int, n: TruncSize, signed: bool, saturating: bool)
    -> Result<ValInst, Trap> {
    if saturating {
        Ok(spec_val_of(wrap_s(spec_trunc_sat(w, bits, n, signed), n.spec_width()), n.spec_width()))
    } else {
        match spec_trunc(w, bits, n, signed) {
            Ok(v) => Ok(spec_val_of(wrap_s(v, n.spec_width()), n.spec_width())),
            Err(t) => Err(t),
        }
    }
}

/// What an operation gives on operands that are on the stack in the order
/// of `args`. Operands of another type than the operation takes are
/// `ValTypeNotEq`.
pub open spec fn spec_pure(op: PureOp, args: Seq<ValInst>) -> Result<ValInst, Trap> {
    let wrong = Err::<ValInst, Trap>(Trap::ValTypeNotEq);
    match op {
        PureOp::Const(v) => Ok(v),
        PureOp::IUn(w, o) => match spec_int_of(args[0], w) {
            Some(a) => if (o == IUnOp::Extend32S && w != Width::W64) || o == IUnOp::Abs || o
                == IUnOp::Neg {
                wrong
            } else {
                Ok(spec_val_of(spec_iun(o, a, w), w))
            },
            None => wrong,
        },
        PureOp::IBin(w, o) => match (spec_int_of(args[0], w), spec_int_of(args[1], w)) {
            (Some(a), Some(b)) => match spec_ibin(o, a, b, w) {
                Ok(v) => Ok(spec_val_of(v, w)),
                Err(t) => Err(t),
            },
            _ => wrong,
        },
        PureOp::IEqz(w) => match spec_int_of(args[0], w) {
            Some(a) => Ok(spec_truth(a == 0)),
            None => wrong,
        },
        PureOp::IRel(w, o) => match (spec_int_of(args[0], w), spec_int_of(args[1], w)) {
            (Some(a), Some(b)) => Ok(spec_truth(spec_irel(o, a, b, w))),
            _ => wrong,
        },
        PureOp::Wrap => match args[0] {
            ValInst::I64(a) => Ok(ValInst::I32(a as i32)),
            _ => wrong,
        },
        PureOp::Extend(signed) => match args[0] {
            ValInst::I32(a) => Ok(
                ValInst::I64(
                    if signed {
                        a as i64
                    } else {
                        a as u32 as i64
                    },
                ),
            ),
            _ => wrong,
        },
        PureOp::FloatBits(w) => match spec_bits_of(args[0], w) {
            Some(bits) => Ok(spec_val_of(bits, w)),
            None => wrong,
        },
        PureOp::BitsFloat(w) => match spec_int_of(args[0], w) {
            Some(a) => Ok(spec_float_of(a, w)),
            None => wrong,
        },
        PureOp::FBit(w, o) => if o == FBitOp::Copysign {
            match (spec_bits_of(args[0], w), spec_bits_of(args[1], w)) {
                (Some(a), Some(b)) => Ok(spec_float_of(spec_fbit(o, a, b, w), w)),
                _ => wrong,
            }
        } else {
            match spec_bits_of(args[0], w) {
                Some(a) => Ok(spec_float_of(spec_fbit(o, a, 0, w), w)),
                None => wrong,
            }
        },
        PureOp::RefIsNull => match args[0] {
            ValInst::FuncRef(r) => Ok(spec_truth(r is None)),
            ValInst::ExternRef(r) => Ok(spec_truth(r is None)),
            ValInst::NullRef => Ok(spec_truth(true)),
            _ => wrong,
        },
        PureOp::VBin(s, o) => match (args[0], args[1]) {
            (ValInst::V128(a), ValInst::V128(b)) => Ok(ValInst::V128(spec_simd_bin(o, a, b, s))),
            _ => wrong,
        },
        PureOp::Trunc(w, n, signed, saturating) => match spec_bits_of(args[0], w) {
            Some(bits) => spec_trunc_val(w, bits, n, signed, saturating),
            None => wrong,
        },
        PureOp::FRel(w, o) => match (spec_bits_of(args[0], w), spec_bits_of(args[1], w)) {
            (Some(a), Some(b)) => Ok(spec_truth(spec_frel(o, a, b, w))),
            _ => wrong,
        },
        PureOp::VFBit(w, o) => match args[0] {
            ValInst::V128(a) => if (w == Width::W32 || w == Width::W64) && (o == FBitOp::Abs || o
                == FBitOp::Neg) {
                Ok(ValInst::V128(spec_simd_fbit(o, a, w)))
            } else {
                wrong
            },
            _ => wrong,
        },
        PureOp::VFRel(w, o) => match (args[0], args[1]) {
            (ValInst::V128(a), ValInst::V128(b)) => if w == Width::W32 || w == Width::W64 {
                Ok(ValInst::V128(spec_simd_frel(o, a, b, w)))
            } else {
                wrong
            },
            _ => wrong,
        },
        PureOp::VTruncSat(w, signed) => match args[0] {
            ValInst::V128(a) => if w == Width::W32 || w == Width::W64 {
                Ok(ValInst::V128(spec_simd_trunc_sat(w, a, signed)))
            } else {
                wrong
            },
            _ => wrong,
        },
        PureOp::VUn(s, o) => match args[0] {
            ValInst::V128(a) => if o == IUnOp::Abs || o == IUnOp::Neg || o == IUnOp::Popcnt {
                Ok(ValInst::V128(spec_simd_un(o, a, s)))
            } else {
                wrong
            },
            _ => wrong,
        },
        PureOp::VShift(s, o) => match (args[0], args[1]) {
            (ValInst::V128(a), ValInst::I32(count)) => if o == IBinOp::Shl || o == IBinOp::ShrS
                || o == IBinOp::ShrU {
                Ok(ValInst::V128(spec_simd_shift(o, a, count, s)))
            } else {
                wrong
            },
            _ => wrong,
        },
        PureOp::VNot => match args[0] {
            ValInst::V128(a) => Ok(ValInst::V128(v128(!a.0, !a.1, !a.2, !a.3))),
            _ => wrong,
        },
        PureOp::VBit(o) => match (args[0], args[1]) {
            (ValInst::V128(a), ValInst::V128(b)) => Ok(ValInst::V128(spec_vbit(o, a, b))),
            _ => wrong,
        },
        PureOp::VBitselect => match (args[0], args[1], args[2]) {
            (ValInst::V128(a), ValInst::V128(b), ValInst::V128(mask)) => Ok(
                ValInst::V128(spec_bitselect(a, b, mask)),
            ),
            _ => wrong,
        },
        PureOp::VAnyTrue => match args[0] {
            ValInst::V128(a) => Ok(spec_truth(a != v128(0, 0, 0, 0))),
            _ => wrong,
        },
        PureOp::VMix(o) => if !o.spec_sound() {
            wrong
        } else if spec_arity(op) == 2 {
            match (args[0], args[1]) {
                (ValInst::V128(a), ValInst::V128(b)) => Ok(ValInst::V128(spec_simd_mix(o, a, b))),
                _ => wrong,
            }
        } else {
            match args[0] {
                ValInst::V128(a) => Ok(ValInst::V128(spec_simd_mix(o, a, a))),
                _ => wrong,
            }
        },
        PureOp::VAllTrue(s) => match args[0] {
            ValInst::V128(a) => Ok(spec_truth(spec_all_true(spec_lanes(a, s)))),
            _ => wrong,
        },
        PureOp::VBitmask(s) => match args[0] {
            ValInst::V128(a) => Ok(
                ValInst::I32(spec_bitmask(spec_lanes(a, s), s.spec_count()) as i32),
            ),
            _ => wrong,
        },
        PureOp::VSplat(s, float) => match spec_scalar_of(args[0], s, float) {
            Some(x) => Ok(
                ValInst::V128(spec_from_lanes(Seq::new(s.spec_count() as nat, |k: int| x), s)),
            ),
            None => wrong,
        },
        PureOp::VExtract(s, get, lane) => match args[0] {
            ValInst::V128(a) => if lane >= s.spec_count() {
                Err(Trap::OutofRange)
            } else {
                match spec_lane_val(spec_lanes(a, s)[lane as int], s, get) {
                    Some(v) => Ok(v),
                    None => wrong,
                }
            },
            _ => wrong,
        },
        PureOp::VReplace(s, float, lane) => match (args[0], spec_scalar_of(args[1], s, float)) {
            (ValInst::V128(a), Some(x)) => if lane >= s.spec_count() {
                Err(Trap::OutofRange)
            } else {
                Ok(ValInst::V128(spec_from_lanes(spec_lanes(a, s).update(lane as int, x), s)))
            },
            _ => wrong,
        },
        PureOp::VShuffle(sel) => match (args[0], args[1]) {
            (ValInst::V128(a), ValInst::V128(b)) => match spec_shuffle(sel, a, b) {
                Ok(v) => Ok(ValInst::V128(v)),
                Err(t) => Err(t),
            },
            _ => wrong,
        },
    }
}

impl PureOp {
    pub fn arity(&self) -> (r: usize)
        ensures
            r == spec_arity(*self),
    {
        match self {
            PureOp::Const(_) => 0,
            PureOp::IUn(_, _) => 1,
            PureOp::IBin(_, _) => 2,
            PureOp::IEqz(_) => 1,
            PureOp::IRel(_, _) => 2,
            PureOp::Wrap => 1,
            PureOp::Extend(_) => 1,
            PureOp::FloatBits(_) => 1,
            PureOp::BitsFloat(_) => 1,
            PureOp::FBit(_, FBitOp::Copysign) => 2,
            PureOp::FBit(_, _) => 1,
            PureOp::FRel(_, _) => 2,
            PureOp::VFRel(_, _) => 2,
            PureOp::VFBit(_, _) => 1,
            PureOp::Trunc(_, _, _, _) => 1,
            PureOp::VTruncSat(_, _) => 1,
            PureOp::RefIsNull => 1,
            PureOp::VBin(_, _) => 2,
            PureOp::VUn(_, _) => 1,
            PureOp::VShift(_, _) => 2,
            PureOp::VNot => 1,
            PureOp::VBit(_) => 2,
            PureOp::VBitselect => 3,
            PureOp::VAnyTrue => 1,
            PureOp::VMix(MixOp::Narrow(_, _)) => 2,
            PureOp::VMix(MixOp::ExtMul(_, _, _)) => 2,
            PureOp::VMix(MixOp::Dot) => 2,
            PureOp::VMix(MixOp::Swizzle) => 2,
            PureOp::VMix(_) => 1,
            PureOp::VAllTrue(_) => 1,
            PureOp::VBitmask(_) => 1,
            PureOp::VSplat(_, _) => 1,
            PureOp::VExtract(_, _, _) => 1,
            PureOp::VReplace(_, _, _) => 2,
            PureOp::VShuffle(_) => 2,
        }
    }
}

fn scalar_of(v: &ValInst, s: Shape, float: bool) -> (r: Option<i64>)
    ensures
        r is Some <==> spec_scalar_of(*v, s, float) is Some,
        r matches Some(x) ==> wrap_to(spec_scalar_of(*v, s, float)->0, x as int),
{
    match (v, s, float) {
        (ValInst::I32(x), Shape::I8x16, false) => Some(*x as i64),
        (ValInst::I32(x), Shape::I16x8, false) => Some(*x as i64),
        (ValInst::I32(x), Shape::I32x4, false) => Some(*x as i64),
        (ValInst::I64(x), Shape::I64x2, false) => Some(*x),
        (ValInst::F32(x), Shape::I32x4, true) => Some(*x as i64),
        (ValInst::F64(x), Shape::I64x2, true) => {
            let bits: u64 = *x;
            assert(bits as i64 == bits || bits as i64 == bits - 0x1_0000_0000_0000_0000)
                by (bit_vector);
            Some(bits as i64)
        },
        _ => None,
    }
}

/// Whether `y` is `x`, or `x` less 2^64.
pub open spec fn wrap_to(x: int, y: int) -> bool {
    y == x || y == x - 0x1_0000_0000_0000_0000
}

fn lane_val(x: i64, s: Shape, get: LaneGet) -> (r: Option<ValInst>)
    requires
        fits(x as int, s.spec_width()),
    ensures
        r == spec_lane_val(x as int, s, get),
{
    match (s, get) {
        (Shape::I64x2, LaneGet::Float) => Some(ValInst::F64(unsigned(x, Width::W64) as u64)),
        (Shape::I32x4, LaneGet::Float) => Some(ValInst::F32(unsigned(x, Width::W32) as u32)),
        (_, LaneGet::Float) => None,
        (Shape::I64x2, _) => Some(ValInst::I64(x)),
        (_, LaneGet::Signed) => Some(ValInst::I32(x as i32)),
        (_, LaneGet::Unsigned) => Some(ValInst::I32(unsigned(x, s.width()) as i32)),
    }
}

#[verifier::rlimit(80)]
#[verifier::spinoff_prover]
fn shuffle(sel: v128, a: v128, b: v128) -> (r: Result<v128, Trap>)
    ensures
        r == spec_shuffle(sel, a, b),
{
    let picks = sel.to_bytes();
    let ba = a.to_bytes();
    let bb = b.to_bytes();
    let mut out: [u8; 16] = [0u8;16];
    let mut i: usize = 0;
    while i < 16
        invariant
            i <= 16,
            picks@ == spec_v128_bytes(sel),
            ba@ == spec_v128_bytes(a),
            bb@ == spec_v128_bytes(b),
            picks@.len() == 16,
            ba@.len() == 16,
            bb@.len() == 16,
            forall|j: int| 0 <= j < i ==> #[trigger] picks@[j] < 32,
            forall|j: int|
                0 <= j < i ==> out@[j] == if picks@[j] < 16 {
                    ba@[picks@[j] as int]
                } else {
                    bb@[picks@[j] - 16]
                },
        decreases 16 - i,
    {
        let idx = picks[i] as usize;
        if idx >= 32 {
            return Err(Trap::OutofRange);
        }
        out[i] = if idx < 16 {
            ba[idx]
        } else {
            bb[idx - 16]
        };
        i += 1;
    }
    proof {
        assert(out@ =~= Seq::new(
            16,
            |i: int|
                if picks@[i] < 16 {
                    spec_v128_bytes(a)[picks@[i] as int]
                } else {
                    spec_v128_bytes(b)[picks@[i] - 16]
                },
        ));
    }
    Ok(v128::new(out))
}

fn splat(x: i64, s: Shape) -> (r: v128)
    ensures
        r == spec_from_lanes(Seq::new(s.spec_count() as nat, |k: int| x as int), s),
{
    let mut out: Vec<i64> = Vec::new();
    let mut k: usize = 0;
    while k < s.count()
        invariant
            k <= s.spec_count(),
            out@.len() == k,
            forall|i: int| 0 <= i < k ==> (#[trigger] out@[i]) == x,
        decreases s.spec_count() - k,
    {
        out.push(x);
        k += 1;
    }
    proof {
        assert(ints(out@) =~= Seq::new(s.spec_count() as nat, |k: int| x as int));
    }
    from_lanes(&out, s)
}

fn replace(a: v128, s: Shape, lane: usize, x: i64) -> (r: v128)
    requires
        lane < s.spec_count(),
    ensures
        r == spec_from_lanes(spec_lanes(a, s).update(lane as int, x as int), s),
{
    let mut la = lanes(a, s);
    la[lane] = x;
    proof {
        assert(ints(la@) =~= spec_lanes(a, s).update(lane as int, x as int));
    }
    from_lanes(&la, s)
}

fn int_of(v: &ValInst, w: Width) -> (r: Option<i64>)
    ensures
        r is Some <==> spec_int_of(*v, w) is Some,
        r matches Some(x) ==> spec_int_of(*v, w) == Some(x as int) && fits(x as int, w),
{
    match (v, w) {
        (ValInst::I32(a), Width::W32) => Some(*a as i64),
        (ValInst::I64(a), Width::W64) => Some(*a),
        _ => None,
    }
}

fn val_of(x: i64, w: Width) -> (r: ValInst)
    requires
        fits(x as int, w),
        w == Width::W32 || w == Width::W64,
    ensures
        r == spec_val_of(x as int, w),
{
    match w {
        Width::W64 => ValInst::I64(x),
        _ => ValInst::I32(x as i32),
    }
}

fn truth(b: bool) -> (r: ValInst)
    ensures
        r == spec_truth(b),
{
    if b {
        ValInst::I32(1)
    } else {
        ValInst::I32(0)
    }
}

fn bits_of(v: &ValInst, w: Width) -> (r: Option<u64>)
    ensures
        r is Some <==> spec_bits_of(*v, w) is Some,
        r matches Some(x) ==> spec_bits_of(*v, w) == Some(x as int) && 0 <= x < w.modulus(),
{
    match (v, w) {
        (ValInst::F32(a), Width::W32) => Some(*a as u64),
        (ValInst::F64(a), Width::W64) => Some(*a),
        _ => None,
    }
}

fn float_of(bits: u64, w: Width) -> (r: ValInst)
    requires
        0 <= bits < w.modulus(),
        w == Width::W32 || w == Width::W64,
    ensures
        r == spec_float_of(bits as int, w),
{
    match w {
        Width::W64 => ValInst::F64(bits),
        _ => ValInst::F32(bits as u32),
    }
}

pub fn fbit(op: FBitOp, a: u64, b: u64, w: Width) -> (r: u64)
    requires
        0 <= a < w.modulus(),
        0 <= b < w.modulus(),
        w == Width::W32 || w == Width::W64,
    ensures
        r == spec_fbit(op, a as int, b as int, w),
        0 <= r < w.modulus(),
{
    let half: u64 = match w {
        Width::W64 => 0x8000_0000_0000_0000,
        _ => 0x8000_0000,
    };
    match op {
        FBitOp::Abs => a % half,
        FBitOp::Neg => if a >= half {
            a - half
        } else {
            a + half
        },
        FBitOp::Copysign => {
            assert((b as int / half as int) * half as int == if b >= half {
                half as int
            } else {
                0
            }) by (nonlinear_arith)
                requires
                    0 <= b < 2 * half,
                    half > 0,
            ;
            a % half + (if b >= half {
                half
            } else {
                0
            })
        },
    }
}

fn trunc_val(w: Width, bits: u64, n: TruncSize, signed: bool, saturating: bool) -> (r: Result<
    ValInst,
    Trap,
>)
    ensures
        r == spec_trunc_val(w, bits as int, n, signed, saturating),
{
    let to = n.width();
    if saturating {
        Ok(val_of(wrap(trunc_sat(w, bits, n, signed), to), to))
    } else {
        match trunc(w, bits, n, signed) {
            Ok(v) => Ok(val_of(wrap(v, to), to)),
            Err(t) => Err(t),
        }
    }
}

/// Whether an operation works on vectors.
pub open spec fn spec_on_vectors(op: PureOp) -> bool {
    match op {
        PureOp::Const(_) => false,
        PureOp::IUn(_, _) => false,
        PureOp::IBin(_, _) => false,
        PureOp::IEqz(_) => false,
        PureOp::IRel(_, _) => false,
        PureOp::Wrap => false,
        PureOp::Extend(_) => false,
        PureOp::FloatBits(_) => false,
        PureOp::BitsFloat(_) => false,
        PureOp::FBit(_, _) => false,
        PureOp::FRel(_, _) => false,
        PureOp::Trunc(_, _, _, _) => false,
        PureOp::RefIsNull => false,
        _ => true,
    }
}

fn on_vectors(op: &PureOp) -> (r: bool)
    ensures
        r == spec_on_vectors(*op),
{
    match op {
        PureOp::Const(_) => false,
        PureOp::IUn(_, _) => false,
        PureOp::IBin(_, _) => false,
        PureOp::IEqz(_) => false,
        PureOp::IRel(_, _) => false,
        PureOp::Wrap => false,
        PureOp::Extend(_) => false,
        PureOp::FloatBits(_) => false,
        PureOp::BitsFloat(_) => false,
        PureOp::FBit(_, _) => false,
        PureOp::FRel(_, _) => false,
        PureOp::Trunc(_, _, _, _) => false,
        PureOp::RefIsNull => false,
        _ => true,
    }
}

/// Computes an operation on its operands, given in the order in which
/// they lie on the stack.
pub fn eval_pure(op: PureOp, args: &[ValInst]) -> (r: Result<ValInst, Trap>)
    requires
        args@.len() == spec_arity(op),
    ensures
        r == spec_pure(op, args@),
{
    if on_vectors(&op) {
        eval_vector(op, args)
    } else {
        eval_scalar(op, args)
    }
}

/// Computes an operation on numbers and references.
fn eval_scalar(op: PureOp, args: &[ValInst]) -> (r: Result<ValInst, Trap>)
    requires
        args@.len() == spec_arity(op),
        !spec_on_vectors(op),
    ensures
        r == spec_pure(op, args@),
{
    let wrong = Err(Trap::ValTypeNotEq);
    match op {
        PureOp::Const(v) => Ok(v),
        PureOp::IUn(w, o) => match int_of(&args[0], w) {
            Some(a) => {
                if (matches!(o, IUnOp::Extend32S) && !matches!(w, Width::W64)) || matches!(
                    o,
                    IUnOp::Abs | IUnOp::Neg
                ) {
                    wrong
                } else {
                    Ok(val_of(iun(o, a, w), w))
                }
            },
            None => wrong,
        },
        PureOp::IBin(w, o) => match (int_of(&args[0], w), int_of(&args[1], w)) {
            (Some(a), Some(b)) => match ibin(o, a, b, w) {
                Ok(v) => Ok(val_of(v, w)),
                Err(t) => Err(t),
            },
            _ => wrong,
        },
        PureOp::IEqz(w) => match int_of(&args[0], w) {
            Some(a) => Ok(truth(a == 0)),
            None => wrong,
        },
        PureOp::IRel(w, o) => match (int_of(&args[0], w), int_of(&args[1], w)) {
            (Some(a), Some(b)) => Ok(truth(irel(o, a, b, w))),
            _ => wrong,
        },
        PureOp::Wrap => match args[0] {
            ValInst::I64(a) => Ok(ValInst::I32(a as i32)),
            _ => wrong,
        },
        PureOp::Extend(signed) => match args[0] {
            ValInst::I32(a) => Ok(
                ValInst::I64(
                    if signed {
                        a as i64
                    } else {
                        a as u32 as i64
                    },
                ),
            ),
            _ => wrong,
        },
        PureOp::FRel(w, o) => match (bits_of(&args[0], w), bits_of(&args[1], w)) {
            (Some(a), Some(b)) => Ok(truth(frel(o, a, b, w))),
            _ => wrong,
        },
        PureOp::Trunc(w, n, signed, saturating) => match bits_of(&args[0], w) {
            Some(bits) => trunc_val(w, bits, n, signed, saturating),
            None => wrong,
        },
        PureOp::FloatBits(w) => match bits_of(&args[0], w) {
            Some(bits) => match w {
                Width::W64 => Ok(ValInst::I64(bits as i64)),
                _ => Ok(ValInst::I32(bits as i32)),
            },
            None => wrong,
        },
        PureOp::BitsFloat(w) => match int_of(&args[0], w) {
            Some(a) => match w {
                Width::W64 => Ok(ValInst::F64(a as u64)),
                _ => Ok(ValInst::F32(a as u32)),
            },
            None => wrong,
        },
        PureOp::FBit(w, o) => {
            if matches!(o, FBitOp::Copysign) {
                match (bits_of(&args[0], w), bits_of(&args[1], w)) {
                    (Some(a), Some(b)) => Ok(float_of(fbit(o, a, b, w), w)),
                    _ => wrong,
                }
            } else {
                match bits_of(&args[0], w) {
                    Some(a) => Ok(float_of(fbit(o, a, 0, w), w)),
                    None => wrong,
                }
            }
        },
        PureOp::RefIsNull => match args[0] {
            ValInst::FuncRef(r) => Ok(truth(r.is_none())),
            ValInst::ExternRef(r) => Ok(truth(r.is_none())),
            ValInst::NullRef => Ok(truth(true)),
            _ => wrong,
        },
        _ => wrong,
    }
}

/// Computes an operation on vectors.
fn eval_vector(op: PureOp, args: &[ValInst]) -> (r: Result<ValInst, Trap>)
    requires
        args@.len() == spec_arity(op),
        spec_on_vectors(op),
    ensures
        r == spec_pure(op, args@),
{
    let wrong = Err(Trap::ValTypeNotEq);
    match op {
        PureOp::VBin(s, o) => match (args[0], args[1]) {
            (ValInst::V128(a), ValInst::V128(b)) => Ok(ValInst::V128(simd_bin(o, a, b, s))),
            _ => wrong,
        },
        PureOp::VFBit(w, o) => match args[0] {
            ValInst::V128(a) => {
                if matches!(w, Width::W32 | Width::W64) && matches!(o, FBitOp::Abs | FBitOp::Neg) {
                    Ok(ValInst::V128(simd_fbit(o, a, w)))
                } else {
                    wrong
                }
            },
            _ => wrong,
        },
        PureOp::VFRel(w, o) => match (args[0], args[1]) {
            (ValInst::V128(a), ValInst::V128(b)) => {
                if matches!(w, Width::W32 | Width::W64) {
                    Ok(ValInst::V128(simd_frel(o, a, b, w)))
                } else {
                    wrong
                }
            },
            _ => wrong,
        },
        PureOp::VTruncSat(w, signed) => match args[0] {
            ValInst::V128(a) => {
                if matches!(w, Width::W32 | Width::W64) {
                    Ok(ValInst::V128(simd_trunc_sat(w, a, signed)))
                } else {
                    wrong
                }
            },
            _ => wrong,
        },
        PureOp::VUn(s, o) => match args[0] {
            ValInst::V128(a) => {
                if matches!(o, IUnOp::Abs | IUnOp::Neg | IUnOp::Popcnt) {
                    Ok(ValInst::V128(simd_un(o, a, s)))
                } else {
                    wrong
                }
            },
            _ => wrong,
        },
        PureOp::VShift(s, o) => match (args[0], args[1]) {
            (ValInst::V128(a), ValInst::I32(count)) => {
                if matches!(o, IBinOp::Shl | IBinOp::ShrS | IBinOp::ShrU) {
                    Ok(ValInst::V128(simd_shift(o, a, count, s)))
                } else {
                    wrong
                }
            },
            _ => wrong,
        },
        PureOp::VNot => match args[0] {
            ValInst::V128(a) => Ok(ValInst::V128(v128(!a.0, !a.1, !a.2, !a.3))),
            _ => wrong,
        },
        PureOp::VBit(o) => match (args[0], args[1]) {
            (ValInst::V128(a), ValInst::V128(b)) => Ok(
                ValInst::V128(
                    match o {
                        VBitOp::And => v128(a.0 & b.0, a.1 & b.1, a.2 & b.2, a.3 & b.3),
                        VBitOp::Andnot => v128(a.0 & !b.0, a.1 & !b.1, a.2 & !b.2, a.3 & !b.3),
                        VBitOp::Or => v128(a.0 | b.0, a.1 | b.1, a.2 | b.2, a.3 | b.3),
                        VBitOp::Xor => v128(a.0 ^ b.0, a.1 ^ b.1, a.2 ^ b.2, a.3 ^ b.3),
                    },
                ),
            ),
            _ => wrong,
        },
        PureOp::VBitselect => match (args[0], args[1], args[2]) {
            (ValInst::V128(a), ValInst::V128(b), ValInst::V128(mask)) => Ok(
                ValInst::V128(
                    v128(
                        (a.0 & mask.0) | (b.0 & !mask.0),
                        (a.1 & mask.1) | (b.1 & !mask.1),
                        (a.2 & mask.2) | (b.2 & !mask.2),
                        (a.3 & mask.3) | (b.3 & !mask.3),
                    ),
                ),
            ),
            _ => wrong,
        },
        PureOp::VAnyTrue => match args[0] {
            ValInst::V128(a) => Ok(truth(!a.all_zero())),
            _ => wrong,
        },
        PureOp::VMix(o) => {
            if !o.sound() {
                wrong
            } else if op.arity() == 2 {
                match (args[0], args[1]) {
                    (ValInst::V128(a), ValInst::V128(b)) => Ok(ValInst::V128(simd_mix(o, a, b))),
                    _ => wrong,
                }
            } else {
                match args[0] {
                    ValInst::V128(a) => Ok(ValInst::V128(simd_mix(o, a, a))),
                    _ => wrong,
                }
            }
        },
        PureOp::VAllTrue(s) => match args[0] {
            ValInst::V128(a) => Ok(truth(all_true(a, s))),
            _ => wrong,
        },
        PureOp::VBitmask(s) => match args[0] {
            ValInst::V128(a) => Ok(ValInst::I32(bitmask(a, s))),
            _ => wrong,
        },
        PureOp::VSplat(s, float) => match scalar_of(&args[0], s, float) {
            Some(x) => {
                proof {
                    let want = spec_scalar_of(args@[0], s, float)->0;
                    super::memory::lemma_lane_bytes_congruent(
                        Seq::new(s.spec_count() as nat, |k: int| x as int),
                        Seq::new(s.spec_count() as nat, |k: int| want),
                        s,
                        s.spec_count(),
                    );
                }
                Ok(ValInst::V128(splat(x, s)))
            },
            None => wrong,
        },
        PureOp::VExtract(s, get, lane) => match args[0] {
            ValInst::V128(a) => {
                if (lane as usize) >= s.count() {
                    Err(Trap::OutofRange)
                } else {
                    let la = lanes(a, s);
                    assert(ints(la@)[lane as int] == la@[lane as int]);
                    match lane_val(la[lane as usize], s, get) {
                        Some(v) => Ok(v),
                        None => wrong,
                    }
                }
            },
            _ => wrong,
        },
        PureOp::VReplace(s, float, lane) => match (args[0], scalar_of(&args[1], s, float)) {
            (ValInst::V128(a), Some(x)) => {
                if (lane as usize) >= s.count() {
                    Err(Trap::OutofRange)
                } else {
                    proof {
                        let want = spec_scalar_of(args@[1], s, float)->0;
                        super::memory::lemma_lane_bytes_congruent(
                            spec_lanes(a, s).update(lane as int, x as int),
                            spec_lanes(a, s).update(lane as int, want),
                            s,
                            s.spec_count(),
                        );
                    }
                    Ok(ValInst::V128(replace(a, s, lane as usize, x)))
                }
            },
            _ => wrong,
        },
        PureOp::VShuffle(sel) => match (args[0], args[1]) {
            (ValInst::V128(a), ValInst::V128(b)) => match shuffle(sel, a, b) {
                Ok(v) => Ok(ValInst::V128(v)),
                Err(t) => Err(t),
            },
            _ => wrong,
        },
        _ => wrong,
    }
}

/// Reading the bits of a float as an integer and those of the integer as
/// a float gives the float back, and the other way round, for both
/// widths.
pub proof fn lemma_reinterpret_round_trip(v: ValInst, w: Width)
    requires
        w == Width::W32 || w == Width::W64,
    ensures
        spec_bits_of(v, w) is Some ==> spec_pure(
            PureOp::BitsFloat(w),
            seq![spec_pure(PureOp::FloatBits(w), seq![v])->Ok_0],
        ) == Ok::<ValInst, Trap>(v),
        spec_int_of(v, w) is Some ==> spec_pure(
            PureOp::FloatBits(w),
            seq![spec_pure(PureOp::BitsFloat(w), seq![v])->Ok_0],
        ) == Ok::<ValInst, Trap>(v),
{
    match v {
        ValInst::F32(a) => {
            assert((a as i32) as u32 == a) by (bit_vector);
        },
        ValInst::F64(a) => {
            assert((a as i64) as u64 == a) by (bit_vector);
        },
        ValInst::I32(a) => {
            assert((a as u32) as i32 == a) by (bit_vector);
        },
        ValInst::I64(a) => {
            assert((a as u64) as i64 == a) by (bit_vector);
        },
        _ => {},
    }
}

/// A float with its own sign is itself.
pub proof fn lemma_copysign_self(x: int, w: Width)
    requires
        0 <= x < w.modulus(),
    ensures
        spec_fbit(FBitOp::Copysign, x, x, w) == x,
{
    let h = w.half();
    assert(x % h + (x / h) * h == x) by (nonlinear_arith)
        requires
            h > 0,
    ;
}

/// Truncating a single float that is a NaN to an integer traps with
/// `InvalidConversionToInteger`, and the saturating truncation gives zero,
/// whatever the width and the signedness of the integer.
pub proof fn lemma_trunc_nan_traps(bits: u32, n: TruncSize, signed: bool)
    requires
        spec_is_nan32(bits),
    ensures
        spec_pure(PureOp::Trunc(Width::W32, n, signed, false), seq![ValInst::F32(bits)]) == Err::<
            ValInst,
            Trap,
        >(Trap::InvalidConversionToInteger),
        spec_pure(PureOp::Trunc(Width::W32, n, signed, true), seq![ValInst::F32(bits)]) == Ok::<
            ValInst,
            Trap,
        >(spec_val_of(0, n.spec_width())),
{
    lemma_nan_is_read(bits, 0);
    lemma_trunc_of_nan(Width::W32, bits as int, n, signed);
}

/// Choosing bit by bit between a vector and itself gives the vector,
/// whatever the mask.
pub proof fn lemma_bitselect_same(a: v128, mask: v128)
    ensures
        spec_bitselect(a, a, mask) == a,
{
    let (a0, a1, a2, a3) = (a.0, a.1, a.2, a.3);
    let (m0, m1, m2, m3) = (mask.0, mask.1, mask.2, mask.3);
    assert((a0 & m0) | (a0 & !m0) == a0) by (bit_vector);
    assert((a1 & m1) | (a1 & !m1) == a1) by (bit_vector);
    assert((a2 & m2) | (a2 & !m2) == a2) by (bit_vector);
    assert((a3 & m3) | (a3 & !m3) == a3) by (bit_vector);
}

} // verus!
