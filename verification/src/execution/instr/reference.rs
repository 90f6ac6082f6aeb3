//! The instructions on references.

use vstd::prelude::*;

use super::pure::PureOp;
use crate::execution::errors::Trap;
use crate::execution::errors::VMState;
use crate::execution::errors::VmError;
use crate::execution::inst::RFuncInst;
use crate::execution::value::ValInst;
use crate::execution::vm::spec_pure_op;
use crate::execution::vm::stacks_are;
use crate::execution::vm::with_operands;
use crate::execution::vm::Stacks;
use crate::execution::vm::VM;

verus! {

/// The stacks after `ref.null`: the null reference of a reference type is
/// put on the operands. The type is given by its code, of which the low
/// byte counts; a code that names no reference type is `InvalidRef`.
pub open spec fn spec_ref_null(s: Stacks, v: u64) -> Result<Stacks, Trap> {
    if v as u8 == 0x70 {
        Ok(with_operands(s, s.operands.push(ValInst::FuncRef(None))))
    } else if v as u8 == 0x6f {
        Ok(with_operands(s, s.operands.push(ValInst::ExternRef(None))))
    } else {
        Err(Trap::InvalidRef)
    }
}

/// The stacks after `ref.func`: a reference to the function with the
/// index `idx` among `funcs` is put on the operands. A function that is
/// not there is `FnNotFound`.
pub open spec fn spec_ref_func(s: Stacks, funcs: Seq<RFuncInst>, idx: u32) -> Result<Stacks, Trap> {
    if idx >= funcs.len() {
        Err(Trap::FnNotFound)
    } else {
        Ok(with_operands(s, s.operands.push(ValInst::FuncRef(Some(funcs[idx as int])))))
    }
}

impl VM {
    /// Puts the null reference of a reference type on the operands.
    pub fn ref_null(&mut self, v: u64) -> (r: VMState)
        ensures
            final(self).same_instance(old(self)),
            stacks_are(
                old(self).stacks(),
                spec_ref_null(old(self).stacks(), v),
                r,
                final(self).stacks(),
            ),
    {
        let code = v as u8;
        if code != 0x70 && code != 0x6f {
            return Err(VmError::Trap(Trap::InvalidRef));
        }
        self.push(ValInst::new_ref_null(code));
        Ok(())
    }

    /// Replaces the reference on top of the operands by whether it is
    /// null.
    pub fn ref_is_null(&mut self) -> (r: VMState)
        ensures
            final(self).same_instance(old(self)),
            stacks_are(
                old(self).stacks(),
                spec_pure_op(old(self).stacks(), PureOp::RefIsNull),
                r,
                final(self).stacks(),
            ),
    {
        self.pure_op(PureOp::RefIsNull)
    }

    /// Puts a reference to a function of the module on the operands.
    pub fn ref_func(&mut self, idx: u32) -> (r: VMState)
        ensures
            final(self).same_instance(old(self)),
            stacks_are(
                old(self).stacks(),
                spec_ref_func(old(self).stacks(), old(self).funcs@, idx),
                r,
                final(self).stacks(),
            ),
    {
        if (idx as usize) >= self.funcs.len() {
            return Err(VmError::Trap(Trap::FnNotFound));
        }
        let addr = self.funcs[idx as usize];
        self.push(ValInst::new_func_ref(addr));
        Ok(())
    }
}

} // verus!
