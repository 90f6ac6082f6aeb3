//! The instructions on locals and globals.

use vstd::prelude::*;

use crate::binary::types::Mut;
use crate::execution::errors::Trap;
use crate::execution::errors::VMState;
use crate::execution::errors::VmError;
use crate::execution::vm::stacks_are;
use crate::execution::vm::with_operands;
use crate::execution::vm::Stacks;
use crate::execution::vm::Store;
use crate::execution::vm::VM;

verus! {

/// The stacks after `local.get`: the value of the local is put on the
/// operands. A local beyond the operands is `OutofRange`.
pub open spec fn spec_local_get(s: Stacks, idx: u32) -> Result<Stacks, Trap> {
    if s.local_idx + idx >= s.operands.len() {
        Err(Trap::OutofRange)
    } else {
        Ok(with_operands(s, s.operands.push(s.operands[s.local_idx + idx])))
    }
}

/// The stacks after `local.set`: the value on top of the operands is
/// taken off and given to the local.
pub open spec fn spec_local_set(s: Stacks, idx: u32) -> Result<Stacks, Trap> {
    if s.operands.len() == 0 {
        Err(Trap::ArgNotEq)
    } else if s.local_idx + idx >= s.operands.len() - 1 {
        Err(Trap::OutofRange)
    } else {
        Ok(
            with_operands(
                s,
                s.operands.drop_last().update(s.local_idx + idx, s.operands.last()),
            ),
        )
    }
}

/// The stacks after `local.tee`: the value on top of the operands is
/// given to the local and stays where it is.
pub open spec fn spec_local_tee(s: Stacks, idx: u32) -> Result<Stacks, Trap> {
    if s.operands.len() == 0 {
        Err(Trap::ArgNotEq)
    } else if s.local_idx + idx >= s.operands.len() {
        Err(Trap::OutofRange)
    } else {
        Ok(with_operands(s, s.operands.update(s.local_idx + idx, s.operands.last())))
    }
}

/// The stacks after `global.get`: the value of the global is put on the
/// operands. A global that is not there is `OutofRange`.
pub open spec fn spec_global_get(vm: VM, store: &Store, idx: u32) -> Result<Stacks, Trap> {
    match vm.spec_global(store, idx as int) {
        Some(a) => Ok(
            with_operands(vm.stacks(), vm.operands@.push(store.globals@[a].spec_value())),
        ),
        None => Err(Trap::OutofRange),
    }
}

impl VM {
    /// The address in the store of the global with the index `idx` of the
    /// module, if there is one.
    pub open spec fn spec_global(&self, store: &Store, idx: int) -> Option<int> {
        if 0 <= idx < self.globals@.len() && self.globals@[idx] < store.globals@.len() {
            Some(self.globals@[idx] as int)
        } else {
            None
        }
    }

    pub fn global(&self, store: &Store, idx: usize) -> (r: Option<usize>)
        ensures
            match self.spec_global(store, idx as int) {
                Some(a) => r == Some(a as usize) && a < store.globals@.len(),
                None => r is None,
            },
    {
        if idx < self.globals.len() && self.globals[idx] < store.globals.len() {
            Some(self.globals[idx])
        } else {
            None
        }
    }

    /// Puts the value of a local on the operands.
    pub fn local_get(&mut self, idx: u32) -> (r: VMState)
        ensures
            final(self).same_instance(old(self)),
            stacks_are(
                old(self).stacks(),
                spec_local_get(old(self).stacks(), idx),
                r,
                final(self).stacks(),
            ),
    {
        let n = self.operands.len();
        if self.local_idx >= n || (idx as usize) >= n - self.local_idx {
            return Err(VmError::Trap(Trap::OutofRange));
        }
        let val = self.operands[self.local_idx + idx as usize];
        self.push(val);
        Ok(())
    }

    /// Takes the value on top of the operands off and gives it to a local.
    pub fn local_set(&mut self, idx: u32) -> (r: VMState)
        ensures
            final(self).same_instance(old(self)),
            stacks_are(
                old(self).stacks(),
                spec_local_set(old(self).stacks(), idx),
                r,
                final(self).stacks(),
            ),
    {
        let n = self.operands.len();
        if n == 0 {
            return Err(VmError::Trap(Trap::ArgNotEq));
        }
        if self.local_idx >= n - 1 || (idx as usize) >= n - 1 - self.local_idx {
            return Err(VmError::Trap(Trap::OutofRange));
        }
        let v1 = self.pop();
        let at = self.local_idx + idx as usize;
        self.set_value(at, v1);
        Ok(())
    }

    /// Gives the value on top of the operands to a local and leaves it on
    /// the operands.
    pub fn local_tee(&mut self, idx: u32) -> (r: VMState)
        ensures
            final(self).same_instance(old(self)),
            stacks_are(
                old(self).stacks(),
                spec_local_tee(old(self).stacks(), idx),
                r,
                final(self).stacks(),
            ),
    {
        let n = self.operands.len();
        if n == 0 {
            return Err(VmError::Trap(Trap::ArgNotEq));
        }
        if self.local_idx >= n || (idx as usize) >= n - self.local_idx {
            return Err(VmError::Trap(Trap::OutofRange));
        }
        let v1 = self.operands[n - 1];
        let at = self.local_idx + idx as usize;
        self.set_value(at, v1);
        Ok(())
    }

    /// Puts the value of a global on the operands.
    pub fn global_get(&mut self, store: &Store, idx: u32) -> (r: VMState)
        ensures
            final(self).same_instance(old(self)),
            stacks_are(
                old(self).stacks(),
                spec_global_get(*old(self), store, idx),
                r,
                final(self).stacks(),
            ),
    {
        let a = match self.global(store, idx as usize) {
            Some(a) => a,
            None => {
                return Err(VmError::Trap(Trap::OutofRange));
            },
        };
        let value = store.globals[a].value();
        self.push(value);
        Ok(())
    }

    /// What `global.set` does: the value on top of the operands is taken
    /// off and given to the global. A global that may not change is
    /// `GlobalVarConst`, and a value of another type `GlobalTypeNotEq`;
    /// the global then keeps its value.
    pub open spec fn global_set_post(
        pre: VM,
        pre_store: &Store,
        r: VMState,
        post: VM,
        post_store: &Store,
        idx: u32,
    ) -> bool {
        let ops = pre.operands@;
        &&& post.same_instance(&pre)
        &&& r is Err ==> post.stacks() == pre.stacks()
        &&& post_store.funcs == pre_store.funcs
        &&& post_store.tables == pre_store.tables
        &&& post_store.mems == pre_store.mems
        &&& if ops.len() == 0 {
            r == Err::<(), VmError>(VmError::Trap(Trap::ArgNotEq)) && post_store.globals
                == pre_store.globals
        } else {
            match pre.spec_global(pre_store, idx as int) {
                None => r == Err::<(), VmError>(VmError::Trap(Trap::OutofRange))
                    && post_store.globals == pre_store.globals,
                Some(a) => {
                    let g = pre_store.globals@[a];
                    &&& post_store.globals@.len() == pre_store.globals@.len()
                    &&& forall|i: int|
                        0 <= i < pre_store.globals@.len() && i != a ==> post_store.globals@[i]
                            == pre_store.globals@[i]
                    &&& post_store.globals@[a].spec_type() == g.spec_type()
                    &&& if g.spec_type().mut_ == Mut::Const {
                        r == Err::<(), VmError>(VmError::Trap(Trap::GlobalVarConst))
                            && post_store.globals@[a].spec_value() == g.spec_value()
                    } else if g.spec_type().val_type != ops.last().spec_type() {
                        r == Err::<(), VmError>(VmError::Trap(Trap::GlobalTypeNotEq))
                            && post_store.globals@[a].spec_value() == g.spec_value()
                    } else {
                        r is Ok && post_store.globals@[a].spec_value() == ops.last()
                            && post.operands@ == ops.drop_last() && post.same_but_operands(&pre)
                    }
                },
            }
        }
    }

    /// Runs `global.set`.
    pub fn global_set(&mut self, store: &mut Store, idx: u32) -> (r: VMState)
        ensures
            Self::global_set_post(*old(self), old(store), r, *final(self), final(store), idx),
    {
        if self.operands.len() == 0 {
            return Err(VmError::Trap(Trap::ArgNotEq));
        }
        let a = match self.global(store, idx as usize) {
            Some(a) => a,
            None => {
                return Err(VmError::Trap(Trap::OutofRange));
            },
        };
        let v1 = self.operands[self.operands.len() - 1];
        match store.globals[a].set(v1) {
            Ok(_) => {
                let _ = self.pop();
                Ok(())
            },
            Err(e) => Err(e),
        }
    }
}

} // verus!
