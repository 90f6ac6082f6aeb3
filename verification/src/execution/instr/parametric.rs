//! `drop` and `select`.

use vstd::prelude::*;

use crate::binary::types::ValType;
use crate::execution::errors::Trap;
use crate::execution::errors::VMState;
use crate::execution::errors::VmError;
use crate::execution::vm::stacks_are;
use crate::execution::vm::with_operands;
use crate::execution::vm::Stacks;
use crate::execution::vm::VM;

verus! {

/// The stacks after `drop`: the value on top of the operands is taken
/// off. Without one it is `ArgNotEq`.
pub open spec fn spec_drop(s: Stacks) -> Result<Stacks, Trap> {
    if s.operands.len() == 0 {
        Err(Trap::ArgNotEq)
    } else {
        Ok(with_operands(s, s.operands.drop_last()))
    }
}

/// The stacks after `select`: the condition and the two values below it
/// are taken off the operands, and the lower value is put back if the
/// condition is true, the upper one otherwise. With fewer than three
/// operands it is `ArgNotEq`.
pub open spec fn spec_select(s: Stacks) -> Result<Stacks, Trap> {
    let ops = s.operands;
    let n = ops.len() as int;
    if n < 3 {
        Err(Trap::ArgNotEq)
    } else {
        Ok(
            with_operands(
                s,
                ops.take(n - 3).push(
                    if ops[n - 1].spec_bool() {
                        ops[n - 3]
                    } else {
                        ops[n - 2]
                    },
                ),
            ),
        )
    }
}

impl VM {
    /// Takes the value on top of the operands off.
    pub fn drop_(&mut self) -> (r: VMState)
        ensures
            final(self).same_instance(old(self)),
            stacks_are(old(self).stacks(), spec_drop(old(self).stacks()), r, final(self).stacks()),
    {
        if self.operands.len() == 0 {
            return Err(VmError::Trap(Trap::ArgNotEq));
        }
        let _ = self.pop();
        Ok(())
    }

    /// Chooses between the two values below the condition.
    pub fn select(&mut self) -> (r: VMState)
        ensures
            final(self).same_instance(old(self)),
            stacks_are(
                old(self).stacks(),
                spec_select(old(self).stacks()),
                r,
                final(self).stacks(),
            ),
    {
        if self.operands.len() < 3 {
            return Err(VmError::Trap(Trap::ArgNotEq));
        }
        let v3 = self.pop_bool();
        let v2 = self.pop();
        let v1 = self.pop();
        if v3 {
            self.push(v1);
        } else {
            self.push(v2);
        }
        proof {
            assert(final(self).operands@ =~= spec_select(old(self).stacks())->Ok_0.operands);
        }
        Ok(())
    }

    /// Chooses between the two values below the condition; the type that
    /// the instruction names plays no part.
    pub fn select2(&mut self, x: u8, type_: &ValType) -> (r: VMState)
        ensures
            final(self).same_instance(old(self)),
            stacks_are(
                old(self).stacks(),
                spec_select(old(self).stacks()),
                r,
                final(self).stacks(),
            ),
    {
        self.select()
    }
}

} // verus!
