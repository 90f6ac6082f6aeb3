//! Value types, function types, limits and the types of tables, memories
//! and globals.

use vstd::prelude::*;

use super::errors::DecodeErr;

verus! {

/// The type of a reference held in a table.
#[derive(Debug, Clone, Copy, PartialEq, Eq, Structural)]
pub enum RefType {
    FuncRef,
    ExternRef,
}

impl Default for RefType {
    fn default() -> (r: Self)
        ensures
            r == RefType::FuncRef,
    {
        RefType::FuncRef
    }
}

impl RefType {
    /// The byte that stands for this reference type in the binary format.
    pub open spec fn spec_byte(self) -> u8 {
        match self {
            RefType::FuncRef => 0x70,
            RefType::ExternRef => 0x6f,
        }
    }

    pub fn byte(self) -> (r: u8)
        ensures
            r == self.spec_byte(),
    {
        match self {
            RefType::FuncRef => 0x70,
            RefType::ExternRef => 0x6f,
        }
    }
}

/// The type of a value on the operand stack.
#[derive(Debug, Clone, Copy, PartialEq, Eq, Structural)]
pub enum ValType {
    I32,
    I64,
    F32,
    F64,
    V128,
    FuncRef,
    ExternRef,
    NullRef,
}

impl ValType {
    /// The value type a byte stands for, if any.
    pub open spec fn spec_from_u8(v: u8) -> Option<ValType> {
        if v == 0x7f {
            Some(ValType::I32)
        } else if v == 0x7e {
            Some(ValType::I64)
        } else if v == 0x7d {
            Some(ValType::F32)
        } else if v == 0x7c {
            Some(ValType::F64)
        } else if v == 0x7b {
            Some(ValType::V128)
        } else if v == 0x70 {
            Some(ValType::FuncRef)
        } else if v == 0x6f {
            Some(ValType::ExternRef)
        } else if v == 0x6b {
            Some(ValType::NullRef)
        } else {
            None
        }
    }

    /// The byte that stands for this value type in the binary format.
    pub open spec fn spec_byte(self) -> u8 {
        match self {
            ValType::I32 => 0x7f,
            ValType::I64 => 0x7e,
            ValType::F32 => 0x7d,
            ValType::F64 => 0x7c,
            ValType::V128 => 0x7b,
            ValType::FuncRef => 0x70,
            ValType::ExternRef => 0x6f,
            ValType::NullRef => 0x6b,
        }
    }

    /// Reads a value type from its byte; any other byte is `InvalidType`.
    pub fn from_u8(v: u8) -> (r: Result<ValType, DecodeErr>)
        ensures
            r == match Self::spec_from_u8(v) {
                Some(t) => Ok::<ValType, DecodeErr>(t),
                None => Err(DecodeErr::InvalidType(v)),
            },
    {
        match v {
            0x7f => Ok(ValType::I32),
            0x7e => Ok(ValType::I64),
            0x7d => Ok(ValType::F32),
            0x7c => Ok(ValType::F64),
            0x7b => Ok(ValType::V128),
            0x70 => Ok(ValType::FuncRef),
            0x6f => Ok(ValType::ExternRef),
            0x6b => Ok(ValType::NullRef),
            _ => Err(DecodeErr::InvalidType(v)),
        }
    }

    pub fn byte(self) -> (r: u8)
        ensures
            r == self.spec_byte(),
            Self::spec_from_u8(r) == Some(self),
    {
        match self {
            ValType::I32 => 0x7f,
            ValType::I64 => 0x7e,
            ValType::F32 => 0x7d,
            ValType::F64 => 0x7c,
            ValType::V128 => 0x7b,
            ValType::FuncRef => 0x70,
            ValType::ExternRef => 0x6f,
            ValType::NullRef => 0x6b,
        }
    }

    pub open spec fn spec_is_num_type(self) -> bool {
        self == ValType::I32 || self == ValType::I64 || self == ValType::F32 || self
            == ValType::F64
    }

    pub open spec fn spec_is_ref_type(self) -> bool {
        self == ValType::FuncRef || self == ValType::ExternRef || self == ValType::NullRef
    }

    pub fn is_num_type(&self) -> (r: bool)
        ensures
            r == self.spec_is_num_type(),
    {
        matches!(self, ValType::I32 | ValType::I64 | ValType::F32 | ValType::F64)
    }

    pub fn is_vec_type(&self) -> (r: bool)
        ensures
            r == (*self == ValType::V128),
    {
        matches!(self, ValType::V128)
    }

    pub fn is_ref_type(&self) -> (r: bool)
        ensures
            r == self.spec_is_ref_type(),
    {
        matches!(self, ValType::FuncRef | ValType::ExternRef | ValType::NullRef)
    }
}

/// Every value type is read back from its own byte.
pub proof fn lemma_val_type_byte_round_trip(t: ValType)
    ensures
        ValType::spec_from_u8(t.spec_byte()) == Some(t),
{
}

/// A byte that stands for a value type is the byte of that type.
pub proof fn lemma_val_type_from_byte_round_trip(v: u8)
    requires
        ValType::spec_from_u8(v).is_some(),
    ensures
        ValType::spec_from_u8(v).unwrap().spec_byte() == v,
{
}

pub type ResultType = Vec<ValType>;

/// Copies a list of value types.
pub fn clone_val_types(types: &Vec<ValType>) -> (r: Vec<ValType>)
    ensures
        r@ == types@,
{
    let mut out: Vec<ValType> = Vec::new();
    let mut i: usize = 0;
    while i < types.len()
        invariant
            i <= types.len(),
            out@ == types@.take(i as int),
        decreases types.len() - i,
    {
        out.push(types[i]);
        assert(types@.take(i as int + 1) == types@.take(i as int).push(types@[i as int]));
        i += 1;
    }
    assert(types@.take(types.len() as int) == types@);
    out
}

/// Whether two lists of value types hold the same types in the same order.
pub fn val_types_eq(a: &Vec<ValType>, b: &Vec<ValType>) -> (r: bool)
    ensures
        r == (a@ == b@),
{
    if a.len() != b.len() {
        return false;
    }
    let mut i: usize = 0;
    while i < a.len()
        invariant
            i <= a.len(),
            a.len() == b.len(),
            forall|j: int| 0 <= j < i ==> a@[j] == b@[j],
        decreases a.len() - i,
    {
        if a[i] != b[i] {
            return false;
        }
        i += 1;
    }
    assert(a@ =~= b@);
    true
}

/// The signature of a function: the types it takes and the types it gives.
#[derive(Debug)]
pub struct FuncType {
    pub params: ResultType,
    pub results: ResultType,
}

impl FuncType {
    /// Two signatures are the same when their parameter lists and their
    /// result lists are.
    pub open spec fn same(&self, rhs: &FuncType) -> bool {
        self.params@ == rhs.params@ && self.results@ == rhs.results@
    }

    /// A signature that takes `size` values of one type and gives nothing.
    pub fn new_param(param_type: ValType, size: usize) -> (r: Self)
        ensures
            r.params@ == Seq::new(size as nat, |i: int| param_type),
            r.results@ == Seq::<ValType>::empty(),
    {
        let mut params: Vec<ValType> = Vec::new();
        let mut i: usize = 0;
        while i < size
            invariant
                i <= size,
                params@ == Seq::new(i as nat, |j: int| param_type),
            decreases size - i,
        {
            params.push(param_type);
            i += 1;
            assert(params@ =~= Seq::new(i as nat, |j: int| param_type));
        }
        FuncType { params, results: Vec::new() }
    }

    /// A signature that takes the given values and gives nothing.
    pub fn new_params(params: Vec<ValType>) -> (r: Self)
        ensures
            r.params@ == params@,
            r.results@ == Seq::<ValType>::empty(),
    {
        FuncType { params, results: Vec::new() }
    }

    /// A signature that takes nothing and gives one value.
    pub fn new_result(ret_type: ValType) -> (r: Self)
        ensures
            r.params@ == Seq::<ValType>::empty(),
            r.results@ == seq![ret_type],
    {
        let mut results: Vec<ValType> = Vec::new();
        results.push(ret_type);
        FuncType { params: Vec::new(), results }
    }

    /// The signature that takes nothing and gives nothing.
    pub fn empty() -> (r: Self)
        ensures
            r.params@ == Seq::<ValType>::empty(),
            r.results@ == Seq::<ValType>::empty(),
    {
        FuncType { params: Vec::new(), results: Vec::new() }
    }

    pub fn eq_type(&self, rhs: &FuncType) -> (r: bool)
        ensures
            r == self.same(rhs),
    {
        val_types_eq(&self.params, &rhs.params) && val_types_eq(&self.results, &rhs.results)
    }

    pub fn duplicate(&self) -> (r: Self)
        ensures
            r.same(self),
    {
        FuncType { params: clone_val_types(&self.params), results: clone_val_types(&self.results) }
    }
}

/// A signature as a mathematical value.
pub struct FuncTypeView {
    pub params: Seq<ValType>,
    pub results: Seq<ValType>,
}

impl DeepView for FuncType {
    type V = FuncTypeView;

    open spec fn deep_view(&self) -> FuncTypeView {
        FuncTypeView { params: self.params@, results: self.results@ }
    }
}

impl DeepView for ValType {
    type V = ValType;

    open spec fn deep_view(&self) -> ValType {
        *self
    }
}

impl DeepView for Limits {
    type V = Limits;

    open spec fn deep_view(&self) -> Limits {
        *self
    }
}

impl DeepView for TableType {
    type V = TableType;

    open spec fn deep_view(&self) -> TableType {
        *self
    }
}

impl DeepView for GlobalType {
    type V = GlobalType;

    open spec fn deep_view(&self) -> GlobalType {
        *self
    }
}

/// The bounds of a table or a memory, in elements or pages.
#[derive(Debug, Clone, Copy, PartialEq, Eq, Structural)]
pub struct Limits {
    pub min: u32,
    pub max: Option<u32>,
}

pub type MemType = Limits;

impl Limits {
    /// Whether limits offered by an export (`self`) fail to meet the limits
    /// an import asks for (`rhs`): the offered minimum is too small, the
    /// offered maximum too large, or a maximum is asked for and none offered.
    pub open spec fn spec_incompatible(&self, rhs: &Limits) -> bool {
        self.min < rhs.min || match (self.max, rhs.max) {
            (None, Some(_)) => true,
            (Some(v1), Some(v2)) => v2 < v1,
            _ => false,
        }
    }

    pub fn incompatible(&self, rhs: &Self) -> (r: bool)
        ensures
            r == self.spec_incompatible(rhs),
    {
        if self.min < rhs.min {
            return true;
        }
        match (self.max, rhs.max) {
            (None, Some(_)) => true,
            (Some(v1), Some(v2)) => v2 < v1,
            _ => false,
        }
    }
}

/// The type of a table: what it holds and how large it may be.
#[derive(Debug, Clone, Copy, PartialEq, Eq, Structural)]
pub struct TableType {
    pub elem_type: RefType,
    pub limits: Limits,
}

impl TableType {
    pub open spec fn spec_incompatible(&self, rhs: &TableType) -> bool {
        self.elem_type != rhs.elem_type || self.limits.spec_incompatible(&rhs.limits)
    }

    pub fn incompatible(&self, rhs: &Self) -> (r: bool)
        ensures
            r == self.spec_incompatible(rhs),
    {
        if self.elem_type != rhs.elem_type {
            return true;
        }
        self.limits.incompatible(&rhs.limits)
    }
}

/// Whether a global may be written after it was initialised.
#[derive(Debug, Clone, Copy, PartialEq, Eq, Structural)]
pub enum Mut {
    Const,
    Var,
}

impl Mut {
    pub open spec fn spec_byte(self) -> u8 {
        match self {
            Mut::Const => 0x00,
            Mut::Var => 0x01,
        }
    }

    /// Reads a mutability from its byte; a byte other than 0 and 1 is
    /// `InvalidMut`.
    pub fn from_u8(v: u8) -> (r: Result<Self, DecodeErr>)
        ensures
            v == 0 ==> r == Ok::<Mut, DecodeErr>(Mut::Const),
            v == 1 ==> r == Ok::<Mut, DecodeErr>(Mut::Var),
            v > 1 ==> r == Err::<Mut, DecodeErr>(DecodeErr::InvalidMut(v)),
    {
        match v {
            0x00 => Ok(Mut::Const),
            0x01 => Ok(Mut::Var),
            _ => Err(DecodeErr::InvalidMut(v)),
        }
    }

    pub fn from_bool(v: bool) -> (r: Self)
        ensures
            r == if v {
                Mut::Var
            } else {
                Mut::Const
            },
    {
        if v {
            Mut::Var
        } else {
            Mut::Const
        }
    }

    pub fn byte(self) -> (r: u8)
        ensures
            r == self.spec_byte(),
    {
        match self {
            Mut::Const => 0x00,
            Mut::Var => 0x01,
        }
    }
}

/// The type of a global: the type of its value and whether it may change.
#[derive(Debug, Clone, Copy, PartialEq, Eq, Structural)]
pub struct GlobalType {
    pub val_type: ValType,
    pub mut_: Mut,
}

impl GlobalType {
    pub fn new(val_type: ValType, mut_: bool) -> (r: Self)
        ensures
            r.val_type == val_type,
            r.mut_ == if mut_ {
                Mut::Var
            } else {
                Mut::Const
            },
    {
        GlobalType { val_type, mut_: Mut::from_bool(mut_) }
    }

    pub fn is_const(&self) -> (r: bool)
        ensures
            r == (self.mut_ == Mut::Const),
    {
        self.mut_ == Mut::Const
    }
}

impl From<bool> for Mut {
    fn from(v: bool) -> (r: Self) {
        Mut::from_bool(v)
    }
}

impl vstd::std_specs::convert::FromSpecImpl<bool> for Mut {
    open spec fn obeys_from_spec() -> bool {
        true
    }

    open spec fn from_spec(v: bool) -> Self {
        if v {
            Mut::Var
        } else {
            Mut::Const
        }
    }
}

} // verus!
