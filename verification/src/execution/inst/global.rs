//! Global instances: a value and whether it may change.

use vstd::prelude::*;

use crate::binary::types::GlobalType;
use crate::binary::types::Mut;
use crate::execution::errors::Trap;
use crate::execution::errors::VMState;
use crate::execution::errors::VmError;
use crate::execution::value::ValInst;

verus! {

/// A global: its type and its value. The value is always of the declared
/// value type.
#[derive(Debug)]
pub struct GlobalInst(GlobalType, ValInst);

impl GlobalInst {
    #[verifier::type_invariant]
    spec fn typed(self) -> bool {
        self.0.val_type == self.1.spec_type()
    }

    pub closed spec fn spec_type(&self) -> GlobalType {
        self.0
    }

    pub closed spec fn spec_value(&self) -> ValInst {
        self.1
    }

    /// A global of the given type and value; a value of another type is
    /// `GlobalTypeNotEq`.
    pub fn new(type_: GlobalType, val: ValInst) -> (r: VMState<Self>)
        ensures
            type_.val_type != val.spec_type() ==> r == Err::<GlobalInst, VmError>(
                VmError::Trap(Trap::GlobalTypeNotEq),
            ),
            type_.val_type == val.spec_type() ==> r is Ok && r->Ok_0.spec_type() == type_
                && r->Ok_0.spec_value() == val,
    {
        if type_.val_type != val.get_type() {
            return Err(VmError::Trap(Trap::GlobalTypeNotEq));
        }
        Ok(GlobalInst(type_, val))
    }

    pub fn get_type(&self) -> (r: &GlobalType)
        ensures
            *r == self.spec_type(),
    {
        &self.0
    }

    pub fn value(&self) -> (r: ValInst)
        ensures
            r == self.spec_value(),
            r.spec_type() == self.spec_type().val_type,
    {
        proof {
            use_type_invariant(self);
        }
        self.1
    }

    /// Gives the global a new value. A global that may not change is
    /// `GlobalVarConst`, a value of another type is `GlobalTypeNotEq`; in
    /// both cases the global keeps its value.
    pub fn set(&mut self, value: ValInst) -> (r: VMState)
        ensures
            final(self).spec_type() == old(self).spec_type(),
            r == if old(self).spec_type().mut_ == Mut::Const {
                Err::<(), VmError>(VmError::Trap(Trap::GlobalVarConst))
            } else if old(self).spec_type().val_type != value.spec_type() {
                Err::<(), VmError>(VmError::Trap(Trap::GlobalTypeNotEq))
            } else {
                Ok::<(), VmError>(())
            },
            final(self).spec_value() == if r is Ok {
                value
            } else {
                old(self).spec_value()
            },
    {
        if self.0.is_const() {
            return Err(VmError::Trap(Trap::GlobalVarConst));
        }
        if self.0.val_type != value.get_type() {
            return Err(VmError::Trap(Trap::GlobalTypeNotEq));
        }
        self.1 = value;
        Ok(())
    }
}

} // verus!
