//! Element instances: the references of an element segment.

use vstd::prelude::*;

use crate::binary::types::ValType;
use crate::execution::value::ValInst;
use crate::execution::value::ValInsts;

verus! {

/// The references of an element segment, until the segment is dropped.
#[derive(Debug)]
pub struct ElemInst {
    pub type_: ValType,
    pub refs: ValInsts,
}

impl ElemInst {
    pub fn new(type_: ValType, refs: ValInsts) -> (r: Self)
        ensures
            r.type_ == type_,
            r.refs == refs,
    {
        Self { type_, refs }
    }

    /// Clears the references; the instance stays in place.
    pub fn drop_(&mut self)
        ensures
            final(self).type_ == old(self).type_,
            final(self).refs@ == Seq::<ValInst>::empty(),
    {
        self.refs.clear();
    }
}

} // verus!
