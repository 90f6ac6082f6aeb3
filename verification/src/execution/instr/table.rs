//! The instructions on tables.

use vstd::prelude::*;

use super::memory::spec_top3;
use crate::execution::errors::Trap;
use crate::execution::errors::VMState;
use crate::execution::errors::VmError;
use crate::execution::inst::table::spec_set_elems;
use crate::execution::inst::table::spec_table_grown;
use crate::execution::inst::table::TableInst;
use crate::execution::value::ValInst;
use crate::execution::vm::stacks_are;
use crate::execution::vm::with_operands;
use crate::execution::vm::Stacks;
use crate::execution::vm::Store;
use crate::execution::vm::VM;

verus! {

/// Whether the tables `post` are the tables `pre` but for the elements of
/// the table at the address `a`.
pub open spec fn tables_written(
    pre: Seq<TableInst>,
    post: Seq<TableInst>,
    a: int,
    elems: Seq<ValInst>,
) -> bool {
    &&& post.len() == pre.len()
    &&& forall|i: int| 0 <= i < pre.len() && i != a ==> post[i] == pre[i]
    &&& post[a].elems() == elems
    &&& post[a].spec_type() == pre[a].spec_type()
}

/// Whether the tables `post` hold the same elements and have the same
/// types as the tables `pre`.
pub open spec fn tables_alike(pre: Seq<TableInst>, post: Seq<TableInst>) -> bool {
    &&& post.len() == pre.len()
    &&& forall|i: int|
        0 <= i < pre.len() ==> (#[trigger] post[i]).elems() == pre[i].elems()
            && post[i].spec_type() == pre[i].spec_type()
}

/// Whether two stores hold the same instances but for their tables.
pub open spec fn same_but_tables(pre: &Store, post: &Store) -> bool {
    post.funcs == pre.funcs && post.mems == pre.mems && post.globals == pre.globals
}

/// What an instruction that writes elements of a table does: `taken`
/// operands are taken off, and the elements of one table change. With an
/// error, the tables hold what they held.
pub open spec fn table_post(
    pre: VM,
    pre_store: &Store,
    r: VMState,
    post: VM,
    post_store: &Store,
    taken: int,
    want: Result<(int, Seq<ValInst>), VmError>,
) -> bool {
    &&& post.same_instance(&pre)
    &&& r is Err ==> post.stacks() == pre.stacks()
    &&& same_but_tables(pre_store, post_store)
    &&& match want {
        Ok((a, elems)) => r is Ok && post.operands@ == pre.operands@.take(
            pre.operands@.len() - taken,
        ) && post.same_but_operands(&pre) && tables_written(
            pre_store.tables@,
            post_store.tables@,
            a,
            elems,
        ),
        Err(e) => r == Err::<(), VmError>(e) && tables_alike(pre_store.tables@, post_store.tables@),
    }
}

/// What `table.set` writes where: the operands are the index and the
/// reference.
pub open spec fn spec_table_set(vm: VM, store: &Store, idx: u32) -> Result<
    (int, Seq<ValInst>),
    VmError,
> {
    let ops = vm.operands@;
    let n = ops.len() as int;
    if n < 2 {
        Err(VmError::Trap(Trap::ArgNotEq))
    } else {
        match (ops[n - 2], vm.spec_table(store, idx as int)) {
            (ValInst::I32(i), Some(a)) => if (i as u32) < store.tables@[a].elems().len() {
                Ok((a, store.tables@[a].elems().update(i as u32 as int, ops[n - 1])))
            } else {
                Err(VmError::Trap(Trap::OutofRange))
            },
            (ValInst::I32(_), None) => Err(VmError::Trap(Trap::OutofRange)),
            _ => Err(VmError::Trap(Trap::ValTypeNotEq)),
        }
    }
}

/// What `table.fill` writes where: the operands are the index to start
/// at, the reference, and the number of elements.
pub open spec fn spec_table_fill(vm: VM, store: &Store, idx: u32) -> Result<
    (int, Seq<ValInst>),
    VmError,
> {
    let ops = vm.operands@;
    let n = ops.len() as int;
    if n < 3 {
        Err(VmError::Trap(Trap::ArgNotEq))
    } else {
        match (ops[n - 3], ops[n - 1], vm.spec_table(store, idx as int)) {
            (ValInst::I32(offset), ValInst::I32(size), Some(a)) => match spec_set_elems(
                store.tables@[a].elems(),
                offset as u32,
                Seq::new(size as u32 as nat, |i: int| ops[n - 2]),
            ) {
                Some(elems) => Ok((a, elems)),
                None => Err(VmError::Trap(Trap::OutofRange)),
            },
            (ValInst::I32(_), ValInst::I32(_), None) => Err(VmError::Trap(Trap::OutofRange)),
            _ => Err(VmError::Trap(Trap::ValTypeNotEq)),
        }
    }
}

/// What `table.init` writes where: the operands are the index in the
/// table, the index in the element segment, and the number of elements.
pub open spec fn spec_table_init(vm: VM, store: &Store, elem_idx: u32, table_idx: u32) -> Result<
    (int, Seq<ValInst>),
    VmError,
> {
    match spec_top3(vm.operands@) {
        Err(t) => Err(VmError::Trap(t)),
        Ok((offset, src, size)) => if elem_idx >= vm.elements@.len() || src + size
            > vm.elements@[elem_idx as int].refs@.len() {
            Err(VmError::Trap(Trap::OutofRange))
        } else {
            match vm.spec_table(store, table_idx as int) {
                None => Err(VmError::Trap(Trap::OutofRange)),
                Some(a) => match spec_set_elems(
                    store.tables@[a].elems(),
                    offset,
                    vm.elements@[elem_idx as int].refs@.subrange(src as int, src + size),
                ) {
                    Some(elems) => Ok((a, elems)),
                    None => Err(VmError::Trap(Trap::OutofRange)),
                },
            }
        },
    }
}

/// What `table.copy` writes where: the operands are the index to write
/// at, the index to read at, and the number of elements. The elements are
/// read before any is written.
pub open spec fn spec_table_copy(vm: VM, store: &Store, dst_idx: u32, src_idx: u32) -> Result<
    (int, Seq<ValInst>),
    VmError,
> {
    match spec_top3(vm.operands@) {
        Err(t) => Err(VmError::Trap(t)),
        Ok((offset, src, size)) => match (
            vm.spec_table(store, src_idx as int),
            vm.spec_table(store, dst_idx as int),
        ) {
            (Some(from), Some(to)) => if src + size > store.tables@[from].elems().len() {
                Err(VmError::Trap(Trap::OutofRange))
            } else {
                match spec_set_elems(
                    store.tables@[to].elems(),
                    offset,
                    store.tables@[from].elems().subrange(src as int, src + size),
                ) {
                    Some(elems) => Ok((to, elems)),
                    None => Err(VmError::Trap(Trap::OutofRange)),
                }
            },
            _ => Err(VmError::Trap(Trap::OutofRange)),
        },
    }
}

/// The stacks after `table.get`: the index on top of the operands is
/// replaced by the element of the table at it. An index beyond the table,
/// and a table that is not there, are `OutofRange`.
pub open spec fn spec_table_get(vm: VM, store: &Store, idx: u32) -> Result<Stacks, Trap> {
    let ops = vm.operands@;
    if ops.len() == 0 {
        Err(Trap::ArgNotEq)
    } else {
        match (ops.last(), vm.spec_table(store, idx as int)) {
            (ValInst::I32(i), Some(a)) => if (i as u32) < store.tables@[a].elems().len() {
                Ok(
                    with_operands(
                        vm.stacks(),
                        ops.drop_last().push(store.tables@[a].elems()[i as u32 as int]),
                    ),
                )
            } else {
                Err(Trap::OutofRange)
            },
            (ValInst::I32(_), None) => Err(Trap::OutofRange),
            _ => Err(Trap::ValTypeNotEq),
        }
    }
}

/// The stacks after `table.size`: the number of elements of the table is
/// put on the operands.
pub open spec fn spec_table_size(vm: VM, store: &Store, idx: u32) -> Result<Stacks, Trap> {
    match vm.spec_table(store, idx as int) {
        Some(a) => Ok(
            with_operands(
                vm.stacks(),
                vm.operands@.push(ValInst::I32(store.tables@[a].elems().len() as u32 as i32)),
            ),
        ),
        None => Err(Trap::OutofRange),
    }
}

impl VM {
    /// The address in the store of the table with the index `idx` of the
    /// module, if there is one.
    pub open spec fn spec_table(&self, store: &Store, idx: int) -> Option<int> {
        if 0 <= idx < self.tables@.len() && self.tables@[idx] < store.tables@.len() {
            Some(self.tables@[idx] as int)
        } else {
            None
        }
    }

    pub fn table(&self, store: &Store, idx: usize) -> (r: Option<usize>)
        ensures
            match self.spec_table(store, idx as int) {
                Some(a) => r == Some(a as usize) && a < store.tables@.len(),
                None => r is None,
            },
    {
        if idx < self.tables.len() && self.tables[idx] < store.tables.len() {
            Some(self.tables[idx])
        } else {
            None
        }
    }

    /// Replaces the index on top of the operands by the element of the
    /// table at it.
    pub fn table_get(&mut self, store: &Store, idx: u32) -> (r: VMState)
        ensures
            final(self).same_instance(old(self)),
            stacks_are(
                old(self).stacks(),
                spec_table_get(*old(self), store, idx),
                r,
                final(self).stacks(),
            ),
    {
        let n = self.operands.len();
        if n == 0 {
            return Err(VmError::Trap(Trap::ArgNotEq));
        }
        if !matches!(self.operands[n - 1], ValInst::I32(_)) {
            return Err(VmError::Trap(Trap::ValTypeNotEq));
        }
        let a = match self.table(store, idx as usize) {
            Some(a) => a,
            None => {
                return Err(VmError::Trap(Trap::OutofRange));
            },
        };
        let i = match self.operands[n - 1] {
            ValInst::I32(x) => x as u32,
            _ => {
                return Err(VmError::Trap(Trap::ValTypeNotEq));
            },
        };
        let ref_val = match store.tables[a].get_elem(i) {
            Ok(v) => *v,
            Err(e) => {
                return Err(e);
            },
        };
        let _ = self.pop();
        self.push(ref_val);
        Ok(())
    }

    /// Writes the reference on top of the operands at the index below it.
    pub fn table_set(&mut self, store: &mut Store, idx: u32) -> (r: VMState)
        ensures
            table_post(
                *old(self),
                old(store),
                r,
                *final(self),
                final(store),
                2,
                spec_table_set(*old(self), old(store), idx),
            ),
    {
        let n = self.operands.len();
        if n < 2 {
            return Err(VmError::Trap(Trap::ArgNotEq));
        }
        if !matches!(self.operands[n - 2], ValInst::I32(_)) {
            return Err(VmError::Trap(Trap::ValTypeNotEq));
        }
        let a = match self.table(store, idx as usize) {
            Some(a) => a,
            None => {
                return Err(VmError::Trap(Trap::OutofRange));
            },
        };
        let ref_val = self.operands[n - 1];
        let i = match self.operands[n - 2] {
            ValInst::I32(i) => i as u32,
            _ => {
                return Err(VmError::Trap(Trap::ValTypeNotEq));
            },
        };
        let ghost before = store.tables@;
        let r = store.tables[a].set_elem(i, ref_val);
        proof {
            assert(r is Err ==> tables_alike(before, store.tables@));
        }
        match r {
            Ok(_) => {
                self.drop_n(2);
                Ok(())
            },
            Err(e) => Err(e),
        }
    }

    /// Puts the number of elements of a table on the operands.
    pub fn table_size(&mut self, store: &Store, idx: u32) -> (r: VMState)
        ensures
            final(self).same_instance(old(self)),
            stacks_are(
                old(self).stacks(),
                spec_table_size(*old(self), store, idx),
                r,
                final(self).stacks(),
            ),
    {
        let a = match self.table(store, idx as usize) {
            Some(a) => a,
            None => {
                return Err(VmError::Trap(Trap::OutofRange));
            },
        };
        let size = store.tables[a].size();
        self.push_u32(size);
        Ok(())
    }

    /// What `table.grow` does: the number of elements to add and below it
    /// the reference to fill them with are taken off the operands, the
    /// table grows if it may, and the size before, or -1, is put on the
    /// operands.
    pub open spec fn table_grow_post(
        pre: VM,
        pre_store: &Store,
        r: VMState,
        post: VM,
        post_store: &Store,
        idx: u32,
    ) -> bool {
        let ops = pre.operands@;
        let n = ops.len() as int;
        &&& post.same_instance(&pre)
        &&& r is Err ==> post.stacks() == pre.stacks()
        &&& same_but_tables(pre_store, post_store)
        &&& if n < 2 {
            r == Err::<(), VmError>(VmError::Trap(Trap::ArgNotEq)) && post_store.tables
                == pre_store.tables
        } else {
            match (ops[n - 1], pre.spec_table(pre_store, idx as int)) {
                (ValInst::I32(size), Some(a)) => {
                    let t = pre_store.tables@[a];
                    let old_size = t.elems().len() as u32;
                    let grows = size as u32 != 0 && spec_table_grown(
                        old_size,
                        size as u32,
                        t.spec_type().limits.max,
                    ) is Some;
                    &&& r is Ok
                    &&& post.same_but_operands(&pre)
                    &&& post.operands@ == ops.take(n - 2).push(
                        ValInst::I32(
                            if grows || size as u32 == 0 {
                                old_size as i32
                            } else {
                                -1i32
                            },
                        ),
                    )
                    &&& tables_written(
                        pre_store.tables@,
                        post_store.tables@,
                        a,
                        if grows {
                            t.elems() + Seq::new(size as u32 as nat, |i: int| ops[n - 2])
                        } else {
                            t.elems()
                        },
                    )
                },
                (ValInst::I32(_), None) => r == Err::<(), VmError>(VmError::Trap(Trap::OutofRange))
                    && post_store.tables == pre_store.tables,
                _ => r == Err::<(), VmError>(VmError::Trap(Trap::ValTypeNotEq))
                    && post_store.tables == pre_store.tables,
            }
        }
    }

    /// Runs `table.grow`.
    pub fn table_grow(&mut self, store: &mut Store, idx: u32) -> (r: VMState)
        ensures
            Self::table_grow_post(*old(self), old(store), r, *final(self), final(store), idx),
    {
        let n = self.operands.len();
        if n < 2 {
            return Err(VmError::Trap(Trap::ArgNotEq));
        }
        if !matches!(self.operands[n - 1], ValInst::I32(_)) {
            return Err(VmError::Trap(Trap::ValTypeNotEq));
        }
        let a = match self.table(store, idx as usize) {
            Some(a) => a,
            None => {
                return Err(VmError::Trap(Trap::OutofRange));
            },
        };
        let size = self.pop_u32();
        let ref_val = self.pop();
        proof {
            assert(self.operands@ =~= old(self).operands@.take(n - 2));
        }
        let old_size = store.tables[a].grow(size, ref_val);
        proof {
            assert(Seq::new(size as nat, |i: int| ref_val) =~= Seq::new(
                size as nat,
                |i: int| old(self).operands@[n - 2],
            ));
        }
        self.push_i32(old_size);
        Ok(())
    }

    /// Writes copies of a reference into a run of elements of a table.
    pub fn table_fill(&mut self, store: &mut Store, idx: u32) -> (r: VMState)
        ensures
            table_post(
                *old(self),
                old(store),
                r,
                *final(self),
                final(store),
                3,
                spec_table_fill(*old(self), old(store), idx),
            ),
    {
        let n = self.operands.len();
        if n < 3 {
            return Err(VmError::Trap(Trap::ArgNotEq));
        }
        if !matches!(self.operands[n - 3], ValInst::I32(_)) || !matches!(
            self.operands[n - 1],
            ValInst::I32(_)
        ) {
            return Err(VmError::Trap(Trap::ValTypeNotEq));
        }
        let a = match self.table(store, idx as usize) {
            Some(a) => a,
            None => {
                return Err(VmError::Trap(Trap::OutofRange));
            },
        };
        let (offset, ref_val, size) = match (
            self.operands[n - 3],
            self.operands[n - 2],
            self.operands[n - 1],
        ) {
            (ValInst::I32(offset), ref_val, ValInst::I32(size)) => (
                offset as u32,
                ref_val,
                size as u32,
            ),
            _ => {
                return Err(VmError::Trap(Trap::ValTypeNotEq));
            },
        };
        let mut refs: Vec<ValInst> = Vec::new();
        refs.resize(size as usize, ref_val);
        proof {
            assert(refs@ =~= Seq::new(size as nat, |i: int| ref_val));
        }
        let ghost before = store.tables@;
        let r = store.tables[a].set_elems(offset, refs.as_slice());
        proof {
            assert(r is Err ==> tables_alike(before, store.tables@));
        }
        match r {
            Ok(_) => {
                self.drop_n(3);
                Ok(())
            },
            Err(e) => Err(e),
        }
    }

    /// Copies references of an element segment into a table.
    pub fn table_init(&mut self, store: &mut Store, elem_idx: u32, table_idx: u32) -> (r: VMState)
        ensures
            table_post(
                *old(self),
                old(store),
                r,
                *final(self),
                final(store),
                3,
                spec_table_init(*old(self), old(store), elem_idx, table_idx),
            ),
    {
        let (offset, src, size) = match self.top3() {
            Ok(t) => t,
            Err(t) => {
                return Err(VmError::Trap(t));
            },
        };
        if (elem_idx as usize) >= self.elements.len() {
            return Err(VmError::Trap(Trap::OutofRange));
        }
        let refs = &self.elements[elem_idx as usize].refs;
        if src as u64 + size as u64 > refs.len() as u64 {
            return Err(VmError::Trap(Trap::OutofRange));
        }
        let a = match self.table(store, table_idx as usize) {
            Some(a) => a,
            None => {
                return Err(VmError::Trap(Trap::OutofRange));
            },
        };
        let part = vstd::slice::slice_subrange(
            refs.as_slice(),
            src as usize,
            src as usize + size as usize,
        );
        let ghost before = store.tables@;
        let r = store.tables[a].set_elems(offset, part);
        proof {
            assert(r is Err ==> tables_alike(before, store.tables@));
        }
        match r {
            Ok(_) => {
                self.drop_n(3);
                Ok(())
            },
            Err(e) => Err(e),
        }
    }

    /// What `elem.drop` does: the references of the element segment are
    /// cleared; nothing else changes. A segment that is not there is
    /// `OutofRange`.
    pub open spec fn elem_drop_post(pre: VM, r: VMState, post: VM, idx: u32) -> bool {
        &&& post.operands == pre.operands
        &&& post.frames == pre.frames
        &&& post.local_idx == pre.local_idx
        &&& post.id == pre.id
        &&& post.name == pre.name
        &&& post.module == pre.module
        &&& post.funcs == pre.funcs
        &&& post.tables == pre.tables
        &&& post.mems == pre.mems
        &&& post.globals == pre.globals
        &&& post.exports == pre.exports
        &&& post.datas == pre.datas
        &&& post.mem_idx == pre.mem_idx
        &&& if idx >= pre.elements@.len() {
            r == Err::<(), VmError>(VmError::Trap(Trap::OutofRange)) && post.elements
                == pre.elements
        } else {
            &&& r is Ok
            &&& post.elements@.len() == pre.elements@.len()
            &&& post.elements@[idx as int].refs@ == Seq::<ValInst>::empty()
            &&& post.elements@[idx as int].type_ == pre.elements@[idx as int].type_
            &&& forall|i: int|
                0 <= i < pre.elements@.len() && i != idx ==> post.elements@[i] == pre.elements@[i]
        }
    }

    /// Clears an element segment.
    pub fn elem_drop(&mut self, idx: u32) -> (r: VMState)
        ensures
            Self::elem_drop_post(*old(self), r, *final(self), idx),
    {
        if (idx as usize) >= self.elements.len() {
            return Err(VmError::Trap(Trap::OutofRange));
        }
        self.elements[idx as usize].refs = Vec::new();
        Ok(())
    }

    /// Copies elements from one place of a table to another, or between
    /// tables.
    pub fn table_copy(&mut self, store: &mut Store, dst_idx: u32, src_idx: u32) -> (r: VMState)
        ensures
            table_post(
                *old(self),
                old(store),
                r,
                *final(self),
                final(store),
                3,
                spec_table_copy(*old(self), old(store), dst_idx, src_idx),
            ),
    {
        let (offset, src, size) = match self.top3() {
            Ok(t) => t,
            Err(t) => {
                return Err(VmError::Trap(t));
            },
        };
        let (from, to) = match (
            self.table(store, src_idx as usize),
            self.table(store, dst_idx as usize),
        ) {
            (Some(from), Some(to)) => (from, to),
            _ => {
                return Err(VmError::Trap(Trap::OutofRange));
            },
        };
        let src_elems = vstd::slice::slice_to_vec(store.tables[from].get_elems(src, size)?);
        let ghost before = store.tables@;
        let r = store.tables[to].set_elems(offset, src_elems.as_slice());
        proof {
            assert(r is Err ==> tables_alike(before, store.tables@));
        }
        match r {
            Ok(_) => {
                self.drop_n(3);
                Ok(())
            },
            Err(e) => Err(e),
        }
    }
}

/// A table that may not grow as far as asked stays as it is.
pub proof fn lemma_grow_past_max(old_size: u32, size: u32, max: u32)
    requires
        old_size + size > max,
    ensures
        spec_table_grown(old_size, size, Some(max)) is None,
{
}

} // verus!
