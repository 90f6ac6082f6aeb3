//! Memory instances: a byte buffer that grows by pages.

use vstd::prelude::*;

use crate::binary::instruction::Lane16;
use crate::binary::instruction::Lane8;
use crate::binary::reader::le_u32;
use crate::binary::reader::le_u64;
use crate::binary::section::MaybeU32;
use crate::binary::types::MemType;
use crate::execution::errors::InstError;
use crate::execution::errors::Trap;
use crate::execution::errors::VMState;
use crate::execution::errors::VmError;
use crate::execution::value::spec_v128_bytes;
use crate::execution::value::spec_v128_from_bytes;
use crate::execution::value::v128;

verus! {

/// The number of bytes of a page.
pub const PAGE_SIZE: u32 = 65536;

/// The most pages a memory may have.
pub const MAX_PAGE_SIZE: u32 = 65536;

/// What a read of `n` bytes at `addr` gives: the bytes, if they all lie in
/// the memory.
pub open spec fn spec_reads(data: Seq<u8>, addr: u64, n: u64) -> Option<Seq<u8>> {
    if addr + n <= data.len() {
        Some(data.subrange(addr as int, addr + n))
    } else {
        None
    }
}

/// The memory after `bytes` were written at `addr`, if they all lie in it.
pub open spec fn spec_writes(data: Seq<u8>, addr: u64, bytes: Seq<u8>) -> Option<Seq<u8>> {
    if addr + bytes.len() <= data.len() {
        Some(data.subrange(0, addr as int) + bytes + data.subrange(
            addr + bytes.len(),
            data.len() as int,
        ))
    } else {
        None
    }
}

/// What growing a memory of `old_pages` pages by `size` pages gives: the
/// new number of pages, unless that is above the declared maximum or
/// above the most pages a memory may have.
pub open spec fn spec_grown(old_pages: u32, size: u32, max: MaybeU32) -> Option<u32> {
    let new_pages = old_pages + size;
    if new_pages > MAX_PAGE_SIZE || (max is Some && max->0 < new_pages) {
        None
    } else {
        Some(new_pages as u32)
    }
}

/// A memory: its type and its bytes. The bytes are always a whole number
/// of pages, and at most 65536 pages.
#[derive(Debug)]
pub struct MemInst {
    type_: MemType,
    data: Vec<u8>,
}

impl MemInst {
    #[verifier::type_invariant]
    spec fn whole_pages(self) -> bool {
        self.data@.len() % 65536 == 0 && self.data@.len() <= 65536 * 65536
    }

    /// The bytes of the memory.
    pub closed spec fn bytes(&self) -> Seq<u8> {
        self.data@
    }

    /// The type of the memory; its minimum follows the size.
    pub closed spec fn spec_type(&self) -> MemType {
        self.type_
    }

    /// The number of pages.
    pub open spec fn spec_mem_size(&self) -> int {
        self.bytes().len() as int / 65536
    }

    /// A memory of `min` pages of zero bytes.
    pub fn new(type_: MemType) -> (r: Self)
        requires
            type_.min <= MAX_PAGE_SIZE,
            type_.min * 65536 <= usize::MAX,
        ensures
            r.spec_type() == type_,
            r.bytes() == Seq::new((type_.min * 65536) as nat, |i: int| 0u8),
            r.spec_mem_size() * 65536 == r.bytes().len(),
    {
        let init_size: usize = type_.min as usize * 65536;
        assert(init_size % 65536 == 0) by (nonlinear_arith)
            requires
                init_size == type_.min * 65536,
        ;
        let data = Self::zeroed(init_size);
        MemInst { type_, data }
    }

    /// `size` zero bytes.
    pub fn zeroed(size: usize) -> (r: Vec<u8>)
        ensures
            r@ == Seq::new(size as nat, |i: int| 0u8),
    {
        let mut data: Vec<u8> = Vec::new();
        data.resize(size, 0u8);
        assert(data@ =~= Seq::new(size as nat, |i: int| 0u8));
        data
    }

    pub fn get_type(&self) -> (r: &MemType)
        ensures
            *r == self.spec_type(),
    {
        &self.type_
    }

    pub fn max(&self) -> (r: MaybeU32)
        ensures
            r == self.spec_type().max,
    {
        self.type_.max
    }

    /// The number of bytes.
    pub fn byte_len(&self) -> (r: usize)
        ensures
            r == self.bytes().len(),
            r % 65536 == 0,
            r <= 65536 * 65536,
    {
        proof {
            use_type_invariant(self);
        }
        self.data.len()
    }

    /// The number of pages: the number of bytes is 65536 times as much.
    pub fn mem_size(&self) -> (r: u32)
        ensures
            r == self.spec_mem_size(),
            r * 65536 == self.bytes().len(),
            r <= MAX_PAGE_SIZE,
    {
        proof {
            use_type_invariant(self);
        }
        (self.data.len() / 65536) as u32
    }

    /// Grows the memory by `size` pages of zero bytes and gives the number
    /// of pages before, or -1 and no change when the new size would be
    /// above the declared maximum, above 65536 pages, or more than the
    /// machine can address. The minimum of the type becomes the new size.
    pub fn mem_grow(&mut self, size: u32) -> (r: i32)
        ensures
            final(self).spec_mem_size() * 65536 == final(self).bytes().len(),
            match spec_grown(old(self).spec_mem_size() as u32, size, old(self).spec_type().max) {
                Some(pages) if pages * 65536 <= usize::MAX => {
                    &&& r == old(self).spec_mem_size()
                    &&& final(self).bytes() == old(self).bytes() + Seq::new(
                        (size * 65536) as nat,
                        |i: int| 0u8,
                    )
                    &&& final(self).spec_type() == if size == 0 {
                        old(self).spec_type()
                    } else {
                        MemType { min: pages, max: old(self).spec_type().max }
                    }
                },
                _ => r == -1 && final(self).bytes() == old(self).bytes() && final(self).spec_type() == old(self).spec_type(),
            },
    {
        proof {
            use_type_invariant(&*self);
        }
        let old_size = self.mem_size();
        let old_len: usize = self.data.len();
        assert(old_size * 65536 == old_len);
        if size == 0 {
            assert(self.data@ + Seq::new(0nat, |i: int| 0u8) =~= self.data@);
            if let Some(max) = self.type_.max {
                if max < old_size {
                    return -1;
                }
            }
            return old_size as i32;
        }
        if size > MAX_PAGE_SIZE - old_size {
            return -1;
        }
        let new_size: u32 = old_size + size;
        if let Some(max) = self.type_.max {
            if max < new_size {
                return -1;
            }
        }
        let new_len: usize = match (new_size as usize).checked_mul(65536) {
            Some(n) => n,
            None => {
                return -1;
            },
        };
        let ghost before = self.data@;
        let mut data: Vec<u8> = Vec::new();
        data.extend_from_slice(self.data.as_slice());
        assert(data@ =~= before);
        data.resize(new_len, 0u8);
        self.data = data;
        self.type_.min = new_size;
        proof {
            assert(new_len % 65536 == 0) by (nonlinear_arith)
                requires
                    new_len == new_size * 65536,
            ;
            assert(self.data@ =~= before + Seq::new((size * 65536) as nat, |i: int| 0u8));
        }
        old_size as i32
    }

    /// Reads `n` bytes at `addr`; bytes beyond the memory are `OutofRange`.
    pub fn mem_reads(&self, addr: u64, n: u64) -> (r: VMState<Vec<u8>>)
        ensures
            match spec_reads(self.bytes(), addr, n) {
                Some(bytes) => r is Ok && r->Ok_0@ == bytes,
                None => r == Err::<Vec<u8>, VmError>(VmError::Trap(Trap::OutofRange)),
            },
    {
        proof {
            use_type_invariant(self);
        }
        let len: u64 = self.data.len() as u64;
        if addr > len || n > len - addr {
            return Err(VmError::Trap(Trap::OutofRange));
        }
        let from: usize = addr as usize;
        let to: usize = (addr + n) as usize;
        let out = vstd::slice::slice_to_vec(
            vstd::slice::slice_subrange(self.data.as_slice(), from, to),
        );
        Ok(out)
    }

    /// Reads the byte at `addr`.
    pub fn mem_read(&self, addr: u64) -> (r: VMState<u8>)
        ensures
            match spec_reads(self.bytes(), addr, 1) {
                Some(bytes) => r == Ok::<u8, VmError>(bytes[0]),
                None => r == Err::<u8, VmError>(VmError::Trap(Trap::OutofRange)),
            },
    {
        let data = self.mem_reads(addr, 1)?;
        Ok(data[0])
    }

    /// Writes `bytes` at `addr`; if they do not all lie in the memory,
    /// nothing is written and the error is `OutofBoundMem`.
    pub fn mem_writes(&mut self, addr: u64, bytes: &[u8]) -> (r: VMState)
        ensures
            final(self).spec_mem_size() * 65536 == final(self).bytes().len(),
            final(self).spec_type() == old(self).spec_type(),
            match spec_writes(old(self).bytes(), addr, bytes@) {
                Some(data) => r is Ok && final(self).bytes() == data,
                None => r == Err::<(), VmError>(VmError::Inst(InstError::OutofBoundMem))
                    && *final(self) == *old(self),
            },
    {
        proof {
            use_type_invariant(&*self);
        }
        let len: usize = self.data.len();
        if addr > len as u64 || bytes.len() > len - addr as usize {
            return Err(VmError::Inst(InstError::OutofBoundMem));
        }
        let start: usize = addr as usize;
        let ghost before = self.data@;
        let mut i: usize = 0;
        while i < bytes.len()
            invariant
                i <= bytes.len(),
                start + bytes.len() <= len,
                len == before.len(),
                len % 65536 == 0,
                len <= 65536 * 65536,
                self.data@.len() == len,
                self.type_ == old(self).type_,
                self.data@ == before.subrange(0, start as int) + bytes@.subrange(0, i as int)
                    + before.subrange(start + i, len as int),
            decreases bytes.len() - i,
        {
            self.data[start + i] = bytes[i];
            i += 1;
            proof {
                assert(self.data@ =~= before.subrange(0, start as int) + bytes@.subrange(
                    0,
                    i as int,
                ) + before.subrange(start + i, len as int));
            }
        }
        proof {
            assert(bytes@.subrange(0, bytes@.len() as int) =~= bytes@);
        }
        Ok(())
    }

    /// Writes one byte at `addr`.
    pub fn mem_write(&mut self, addr: u64, data: u8) -> (r: VMState)
        ensures
            final(self).spec_type() == old(self).spec_type(),
            match spec_writes(old(self).bytes(), addr, seq![data]) {
                Some(bytes) => r is Ok && final(self).bytes() == bytes,
                None => r == Err::<(), VmError>(VmError::Inst(InstError::OutofBoundMem)) && final(self).bytes() == old(self).bytes(),
            },
    {
        let bytes: [u8; 1] = [data];
        assert(bytes@ =~= seq![data]);
        self.mem_writes(addr, bytes.as_slice())
    }

    /// Copies `n` bytes from `addr` to `dest` as if through a buffer, so
    /// that ranges may overlap.
    pub fn copy(&mut self, addr: usize, n: usize, dest: usize)
        requires
            addr + n <= old(self).bytes().len(),
            dest + n <= old(self).bytes().len(),
        ensures
            final(self).spec_mem_size() * 65536 == final(self).bytes().len(),
            final(self).spec_type() == old(self).spec_type(),
            Some(final(self).bytes()) == spec_writes(
                old(self).bytes(),
                dest as u64,
                old(self).bytes().subrange(addr as int, addr + n),
            ),
    {
        proof {
            use_type_invariant(&*self);
        }
        let bytes = self.mem_reads(addr as u64, n as u64);
        match bytes {
            Ok(data) => {
                let _ = self.mem_writes(dest as u64, data.as_slice());
            },
            Err(_) => {},
        }
    }

    /// Reads eight bytes.
    pub fn mem_read_8(&self, addr: u64) -> (r: VMState<Lane8>)
        ensures
            match spec_reads(self.bytes(), addr, 8) {
                Some(bytes) => r is Ok && r->Ok_0@ == bytes,
                None => r == Err::<Lane8, VmError>(VmError::Trap(Trap::OutofRange)),
            },
    {
        let data = self.mem_reads(addr, 8)?;
        let out: Lane8 = [
            data[0],
            data[1],
            data[2],
            data[3],
            data[4],
            data[5],
            data[6],
            data[7],
        ];
        assert(out@ =~= data@);
        Ok(out)
    }

    /// Reads sixteen bytes.
    pub fn mem_read_16(&self, addr: u64) -> (r: VMState<Lane16>)
        ensures
            match spec_reads(self.bytes(), addr, 16) {
                Some(bytes) => r is Ok && r->Ok_0@ == bytes,
                None => r == Err::<Lane16, VmError>(VmError::Trap(Trap::OutofRange)),
            },
    {
        let data = self.mem_reads(addr, 16)?;
        let out: Lane16 = [
            data[0],
            data[1],
            data[2],
            data[3],
            data[4],
            data[5],
            data[6],
            data[7],
            data[8],
            data[9],
            data[10],
            data[11],
            data[12],
            data[13],
            data[14],
            data[15],
        ];
        assert(out@ =~= data@);
        Ok(out)
    }

    /// Reads two bytes as a signed number, least significant byte first.
    pub fn mem_read_i16(&self, addr: u64) -> (r: VMState<i16>)
        ensures
            match spec_reads(self.bytes(), addr, 2) {
                Some(bytes) => r == Ok::<i16, VmError>((bytes[0] + bytes[1] * 0x100) as i16),
                None => r == Err::<i16, VmError>(VmError::Trap(Trap::OutofRange)),
            },
    {
        let data = self.mem_reads(addr, 2)?;
        let word: u16 = data[0] as u16 + data[1] as u16 * 0x100;
        Ok(word as i16)
    }

    /// Reads four bytes as a signed number, least significant byte first.
    pub fn mem_read_i32(&self, addr: u64) -> (r: VMState<i32>)
        ensures
            match spec_reads(self.bytes(), addr, 4) {
                Some(bytes) => r == Ok::<i32, VmError>(le_u32(bytes) as i32),
                None => r == Err::<i32, VmError>(VmError::Trap(Trap::OutofRange)),
            },
    {
        let data = self.mem_reads(addr, 4)?;
        let word: u32 = data[0] as u32 + data[1] as u32 * 0x100 + data[2] as u32 * 0x1_0000
            + data[3] as u32 * 0x100_0000;
        Ok(word as i32)
    }

    /// Reads eight bytes as a signed number, least significant byte first.
    pub fn mem_read_i64(&self, addr: u64) -> (r: VMState<i64>)
        ensures
            match spec_reads(self.bytes(), addr, 8) {
                Some(bytes) => r == Ok::<i64, VmError>(le_u64(bytes) as i64),
                None => r == Err::<i64, VmError>(VmError::Trap(Trap::OutofRange)),
            },
    {
        let data = self.mem_reads(addr, 8)?;
        let lo: u32 = data[0] as u32 + data[1] as u32 * 0x100 + data[2] as u32 * 0x1_0000
            + data[3] as u32 * 0x100_0000;
        let hi: u32 = data[4] as u32 + data[5] as u32 * 0x100 + data[6] as u32 * 0x1_0000
            + data[7] as u32 * 0x100_0000;
        let word: u64 = lo as u64 + hi as u64 * 0x1_0000_0000;
        proof {
            assert(data@.take(4) =~= seq![data@[0], data@[1], data@[2], data@[3]]);
            assert(data@.skip(4) =~= seq![data@[4], data@[5], data@[6], data@[7]]);
        }
        Ok(word as i64)
    }

    /// Reads the bits of a 32-bit float.
    pub fn mem_read_f32(&self, addr: u64) -> (r: VMState<u32>)
        ensures
            match spec_reads(self.bytes(), addr, 4) {
                Some(bytes) => r == Ok::<u32, VmError>(le_u32(bytes)),
                None => r == Err::<u32, VmError>(VmError::Trap(Trap::OutofRange)),
            },
    {
        let data = self.mem_reads(addr, 4)?;
        Ok(
            data[0] as u32 + data[1] as u32 * 0x100 + data[2] as u32 * 0x1_0000 + data[3] as u32
                * 0x100_0000,
        )
    }

    /// Reads the bits of a 64-bit float.
    pub fn mem_read_f64(&self, addr: u64) -> (r: VMState<u64>)
        ensures
            match spec_reads(self.bytes(), addr, 8) {
                Some(bytes) => r == Ok::<u64, VmError>(le_u64(bytes)),
                None => r == Err::<u64, VmError>(VmError::Trap(Trap::OutofRange)),
            },
    {
        let data = self.mem_reads(addr, 8)?;
        let lo: u32 = data[0] as u32 + data[1] as u32 * 0x100 + data[2] as u32 * 0x1_0000
            + data[3] as u32 * 0x100_0000;
        let hi: u32 = data[4] as u32 + data[5] as u32 * 0x100 + data[6] as u32 * 0x1_0000
            + data[7] as u32 * 0x100_0000;
        proof {
            assert(data@.take(4) =~= seq![data@[0], data@[1], data@[2], data@[3]]);
            assert(data@.skip(4) =~= seq![data@[4], data@[5], data@[6], data@[7]]);
        }
        Ok(lo as u64 + hi as u64 * 0x1_0000_0000)
    }

    /// Reads sixteen bytes as a vector.
    pub fn mem_read_v128(&self, addr: u64) -> (r: VMState<v128>)
        ensures
            match spec_reads(self.bytes(), addr, 16) {
                Some(bytes) => r == Ok::<v128, VmError>(spec_v128_from_bytes(bytes)),
                None => r == Err::<v128, VmError>(VmError::Trap(Trap::OutofRange)),
            },
    {
        let bytes = self.mem_read_16(addr)?;
        Ok(v128::new(bytes))
    }

    /// Writes the sixteen bytes of a vector.
    pub fn mem_write_v128(&mut self, addr: u64, v: v128) -> (r: VMState)
        ensures
            final(self).spec_type() == old(self).spec_type(),
            match spec_writes(old(self).bytes(), addr, spec_v128_bytes(v)) {
                Some(bytes) => r is Ok && final(self).bytes() == bytes,
                None => r == Err::<(), VmError>(VmError::Inst(InstError::OutofBoundMem)) && final(self).bytes() == old(self).bytes(),
            },
    {
        let bytes = v.to_bytes();
        self.mem_writes(addr, bytes.as_slice())
    }
}

/// A read of `n` bytes succeeds at the last address that leaves room for
/// them, and at no address after it.
pub proof fn lemma_read_boundary(data: Seq<u8>, n: u64)
    requires
        n <= data.len(),
        data.len() <= u64::MAX - n,
    ensures
        spec_reads(data, (data.len() - n) as u64, n) is Some,
        forall|addr: u64| addr > data.len() - n ==> spec_reads(data, addr, n) is None,
{
}

} // verus!
