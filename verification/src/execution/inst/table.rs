//! Table instances: a growable vector of references.

use vstd::prelude::*;

use super::memory::MAX_PAGE_SIZE;
use crate::binary::section::MaybeU32;
use crate::binary::types::RefType;
use crate::binary::types::TableType;
use crate::execution::errors::Trap;
use crate::execution::errors::VMState;
use crate::execution::errors::VmError;
use crate::execution::value::RefInst;
use crate::execution::value::ValInst;

verus! {

/// The null reference that a table of the given type starts with.
pub open spec fn spec_null_of(t: RefType) -> ValInst {
    match t {
        RefType::FuncRef => ValInst::FuncRef(None),
        RefType::ExternRef => ValInst::ExternRef(None),
    }
}

/// What growing a table of `old_size` elements by `size` gives: the new
/// size, unless the sum does not fit in 32 bits, is above the declared
/// maximum, or, where no maximum is declared, is above 65536.
pub open spec fn spec_table_grown(old_size: u32, size: u32, max: MaybeU32) -> Option<u32> {
    let new_size = old_size + size;
    if new_size > u32::MAX {
        None
    } else {
        match max {
            Some(max) => if max < new_size {
                None
            } else {
                Some(new_size as u32)
            },
            None => if new_size > MAX_PAGE_SIZE {
                None
            } else {
                Some(new_size as u32)
            },
        }
    }
}

/// The elements after `refs` were written at `offset`, if they all lie in
/// the table.
pub open spec fn spec_set_elems(elems: Seq<ValInst>, offset: u32, refs: Seq<ValInst>) -> Option<
    Seq<ValInst>,
> {
    if offset + refs.len() <= elems.len() {
        Some(elems.subrange(0, offset as int) + refs + elems.subrange(
            offset + refs.len(),
            elems.len() as int,
        ))
    } else {
        None
    }
}

/// A table: its type and its elements, of which there are never more than
/// fit in 32 bits.
#[derive(Debug)]
pub struct TableInst {
    type_: TableType,
    elems: Vec<ValInst>,
}

impl TableInst {
    #[verifier::type_invariant]
    spec fn countable(self) -> bool {
        self.elems@.len() <= u32::MAX
    }

    /// The elements of the table.
    pub closed spec fn elems(&self) -> Seq<ValInst> {
        self.elems@
    }

    pub closed spec fn spec_type(&self) -> TableType {
        self.type_
    }

    /// A table of `min` null references of the declared kind.
    pub fn new(type_: TableType) -> (r: Self)
        ensures
            r.spec_type() == type_,
            r.elems() == Seq::new(type_.limits.min as nat, |i: int| spec_null_of(type_.elem_type)),
    {
        let init_val = match type_.elem_type {
            RefType::FuncRef => ValInst::FuncRef(None),
            RefType::ExternRef => ValInst::ExternRef(None),
        };
        let mut elems: Vec<ValInst> = Vec::new();
        elems.resize(type_.limits.min as usize, init_val);
        assert(elems@ =~= Seq::new(
            type_.limits.min as nat,
            |i: int| spec_null_of(type_.elem_type),
        ));
        TableInst { type_, elems }
    }

    pub fn get_type(&self) -> (r: &TableType)
        ensures
            *r == self.spec_type(),
    {
        &self.type_
    }

    pub fn size(&self) -> (r: u32)
        ensures
            r == self.elems().len(),
    {
        proof {
            use_type_invariant(self);
        }
        self.elems.len() as u32
    }

    pub fn usize(&self) -> (r: usize)
        ensures
            r == self.elems().len(),
    {
        self.elems.len()
    }

    /// Appends `size` copies of `ref_val` and gives the size before, as a
    /// signed number; or gives -1 and changes nothing when the table may
    /// not grow that far.
    pub fn grow(&mut self, size: u32, ref_val: ValInst) -> (r: i32)
        ensures
            final(self).spec_type() == old(self).spec_type(),
            size == 0 ==> r == old(self).elems().len() as u32 as i32 && final(self).elems() == old(self).elems(),
            size > 0 ==> match spec_table_grown(
                old(self).elems().len() as u32,
                size,
                old(self).spec_type().limits.max,
            ) {
                Some(_) => r == old(self).elems().len() as u32 as i32 && final(self).elems() == old(self).elems() + Seq::new(size as nat, |i: int| ref_val),
                None => r == -1 && final(self).elems() == old(self).elems(),
            },
    {
        proof {
            use_type_invariant(&*self);
        }
        let old_size = self.size();
        if size == 0 {
            return old_size as i32;
        }
        if size > u32::MAX - old_size {
            return -1;
        }
        let new_size: u32 = old_size + size;
        match self.type_.limits.max {
            Some(max) => {
                if max < new_size {
                    return -1;
                }
            },
            None => {
                if new_size > MAX_PAGE_SIZE {
                    return -1;
                }
            },
        }
        let ghost before = self.elems@;
        let mut elems: Vec<ValInst> = Vec::new();
        elems.extend_from_slice(self.elems.as_slice());
        assert(elems@ =~= before);
        elems.resize(new_size as usize, ref_val);
        assert(elems@ =~= before + Seq::new(size as nat, |i: int| ref_val));
        self.elems = elems;
        old_size as i32
    }

    /// The function that the element at `idx` refers to.
    pub fn get_func_inst(&self, idx: u32) -> (r: VMState<RefInst>)
        ensures
            r == if idx >= self.elems().len() {
                Err::<RefInst, VmError>(VmError::Trap(Trap::OutofRange))
            } else {
                match self.elems()[idx as int] {
                    ValInst::FuncRef(Some(f)) => Ok::<RefInst, VmError>(f),
                    ValInst::FuncRef(None) => Err(VmError::Trap(Trap::NullRef)),
                    _ => Err(VmError::Trap(Trap::InvalidRef)),
                }
            },
    {
        let ref_val = self.get_elem(idx)?;
        match ref_val.as_func_inst() {
            Ok(f) => Ok(f),
            Err(t) => Err(VmError::Trap(t)),
        }
    }

    pub fn get_elem(&self, idx: u32) -> (r: VMState<&ValInst>)
        ensures
            r == if idx >= self.elems().len() {
                Err::<&ValInst, VmError>(VmError::Trap(Trap::OutofRange))
            } else {
                Ok::<&ValInst, VmError>(&self.elems()[idx as int])
            },
    {
        if idx >= self.size() {
            return Err(VmError::Trap(Trap::OutofRange));
        }
        Ok(&self.elems[idx as usize])
    }

    pub fn set_elem(&mut self, idx: u32, ref_val: ValInst) -> (r: VMState)
        ensures
            final(self).spec_type() == old(self).spec_type(),
            idx >= old(self).elems().len() ==> r == Err::<(), VmError>(
                VmError::Trap(Trap::OutofRange),
            ) && final(self).elems() == old(self).elems(),
            idx < old(self).elems().len() ==> r is Ok && final(self).elems() == old(self).elems().update(idx as int, ref_val),
    {
        proof {
            use_type_invariant(&*self);
        }
        if idx >= self.size() {
            return Err(VmError::Trap(Trap::OutofRange));
        }
        self.elems[idx as usize] = ref_val;
        Ok(())
    }

    /// The `size` elements from `src` on.
    pub fn get_elems(&self, src: u32, size: u32) -> (r: VMState<&[ValInst]>)
        ensures
            src + size > self.elems().len() ==> r == Err::<&[ValInst], VmError>(
                VmError::Trap(Trap::OutofRange),
            ),
            src + size <= self.elems().len() ==> r is Ok && r->Ok_0@ == self.elems().subrange(
                src as int,
                src + size,
            ),
    {
        let len = self.elems.len();
        if src as usize > len || size as usize > len - src as usize {
            return Err(VmError::Trap(Trap::OutofRange));
        }
        Ok(
            vstd::slice::slice_subrange(
                self.elems.as_slice(),
                src as usize,
                src as usize + size as usize,
            ),
        )
    }

    /// Writes `refs` from `offset` on; if they do not all lie in the table,
    /// nothing is written.
    pub fn set_elems(&mut self, offset: u32, refs: &[ValInst]) -> (r: VMState)
        ensures
            final(self).spec_type() == old(self).spec_type(),
            match spec_set_elems(old(self).elems(), offset, refs@) {
                Some(elems) => r is Ok && final(self).elems() == elems,
                None => r == Err::<(), VmError>(VmError::Trap(Trap::OutofRange)) && final(self).elems() == old(self).elems(),
            },
    {
        proof {
            use_type_invariant(&*self);
        }
        let len: usize = self.elems.len();
        if offset as usize > len || refs.len() > len - offset as usize {
            return Err(VmError::Trap(Trap::OutofRange));
        }
        let start: usize = offset as usize;
        let ghost before = self.elems@;
        let mut i: usize = 0;
        while i < refs.len()
            invariant
                i <= refs.len(),
                start + refs.len() <= len,
                len == before.len(),
                len <= u32::MAX,
                self.elems@.len() == len,
                self.type_ == old(self).type_,
                self.elems@ == before.subrange(0, start as int) + refs@.subrange(0, i as int)
                    + before.subrange(start + i, len as int),
            decreases refs.len() - i,
        {
            self.elems[start + i] = refs[i];
            i += 1;
            proof {
                assert(self.elems@ =~= before.subrange(0, start as int) + refs@.subrange(
                    0,
                    i as int,
                ) + before.subrange(start + i, len as int));
            }
        }
        proof {
            assert(refs@.subrange(0, refs@.len() as int) =~= refs@);
        }
        Ok(())
    }

    /// Removes all elements.
    pub fn drop_(&mut self)
        ensures
            final(self).spec_type() == old(self).spec_type(),
            final(self).elems() == Seq::<ValInst>::empty(),
    {
        self.elems = Vec::new();
    }
}

} // verus!
