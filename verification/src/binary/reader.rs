//! A cursor over bytes with checked reads.

use vstd::prelude::*;
use vstd::slice::slice_subrange;
use vstd::slice::slice_to_vec;
use vstd::utf8::decode_utf8;
use vstd::utf8::valid_utf8;

use super::errors::DecodeErr;
use super::instruction::Lane16;
use super::leb128;
use super::leb128::spec_decode_signed;
use super::leb128::spec_decode_unsigned;
use super::leb128::spec_decode_unsigned_of;
use super::section::DataCountSeg;
use crate::execution::value::v128;
use crate::execution::value::spec_v128_from_bytes;

verus! {

pub type DecodeResult<T> = Result<T, DecodeErr>;

/// What a read gives in the model: the value and the bytes left, or why
/// there is no value.
pub type Parsed<T> = Result<(T, Seq<u8>), DecodeErr>;

/// Whether a read that returned `r` and left `rest` did what `parsed` says.
/// After an error nothing is said of the bytes left.
pub open spec fn reads<T>(parsed: Parsed<T>, r: Result<T, DecodeErr>, rest: Seq<u8>) -> bool {
    match parsed {
        Ok((v, s)) => r == Ok::<T, DecodeErr>(v) && rest == s,
        Err(e) => r == Err::<T, DecodeErr>(e),
    }
}

/// As `reads`, for a value that is compared by its view.
pub open spec fn reads_view<T: View>(
    parsed: Parsed<T::V>,
    r: Result<T, DecodeErr>,
    rest: Seq<u8>,
) -> bool {
    match parsed {
        Ok((v, s)) => r is Ok && r->Ok_0@ == v && rest == s,
        Err(e) => r == Err::<T, DecodeErr>(e),
    }
}

/// The first `n` bytes, if there are that many.
pub open spec fn spec_bytes(s: Seq<u8>, n: nat) -> Parsed<Seq<u8>> {
    if s.len() >= n {
        Ok((s.take(n as int), s.skip(n as int)))
    } else {
        Err(DecodeErr::UnexpectedEof)
    }
}

pub open spec fn spec_u8(s: Seq<u8>) -> Parsed<u8> {
    if s.len() >= 1 {
        Ok((s[0], s.skip(1)))
    } else {
        Err(DecodeErr::UnexpectedEof)
    }
}

/// The number that four bytes stand for, least significant byte first.
pub open spec fn le_u32(b: Seq<u8>) -> u32 {
    (b[0] as int + b[1] as int * 0x100 + b[2] as int * 0x1_0000 + b[3] as int * 0x100_0000) as u32
}

/// The number that eight bytes stand for, least significant byte first.
pub open spec fn le_u64(b: Seq<u8>) -> u64 {
    (le_u32(b.take(4)) as int + le_u32(b.skip(4)) as int * 0x1_0000_0000) as u64
}

pub open spec fn spec_u32(s: Seq<u8>) -> Parsed<u32> {
    if s.len() >= 4 {
        Ok((le_u32(s.take(4)), s.skip(4)))
    } else {
        Err(DecodeErr::UnexpectedEof)
    }
}

pub open spec fn spec_u64(s: Seq<u8>) -> Parsed<u64> {
    if s.len() >= 8 {
        Ok((le_u64(s.take(8)), s.skip(8)))
    } else {
        Err(DecodeErr::UnexpectedEof)
    }
}

pub open spec fn spec_v128(s: Seq<u8>) -> Parsed<v128> {
    if s.len() >= 16 {
        Ok((spec_v128_from_bytes(s.take(16)), s.skip(16)))
    } else {
        Err(DecodeErr::UnexpectedEof)
    }
}

pub open spec fn spec_leb_u64(s: Seq<u8>) -> Parsed<u64> {
    match spec_decode_unsigned_of(s, 64) {
        Ok((v, k)) => Ok((v, s.skip(k as int))),
        Err(e) => Err(e),
    }
}

pub open spec fn spec_leb_u32(s: Seq<u8>) -> Parsed<u32> {
    match spec_decode_unsigned(s) {
        Ok((v, k)) => Ok((v as u32, s.skip(k as int))),
        Err(e) => Err(e),
    }
}

pub open spec fn spec_leb_i32(s: Seq<u8>) -> Parsed<i32> {
    match spec_decode_signed(s, 32) {
        Ok((v, k)) => Ok((v as i32, s.skip(k as int))),
        Err(e) => Err(e),
    }
}

pub open spec fn spec_leb_i64(s: Seq<u8>) -> Parsed<i64> {
    match spec_decode_signed(s, 64) {
        Ok((v, k)) => Ok((v, s.skip(k as int))),
        Err(e) => Err(e),
    }
}

/// A length as unsigned LEB128, then that many bytes.
pub open spec fn spec_seqs(s: Seq<u8>) -> Parsed<Seq<u8>> {
    match spec_leb_u32(s) {
        Ok((n, rest)) => spec_bytes(rest, n as nat),
        Err(e) => Err(e),
    }
}

/// A length-prefixed byte sequence that is valid UTF-8, as characters.
pub open spec fn spec_name(s: Seq<u8>) -> Parsed<Seq<char>> {
    match spec_seqs(s) {
        Ok((bytes, rest)) => if valid_utf8(bytes) {
            Ok((decode_utf8(bytes), rest))
        } else {
            Err(DecodeErr::InvalidUtf8)
        },
        Err(e) => Err(e),
    }
}

/// `String::from_utf8` of std: it succeeds exactly on valid UTF-8, and the
/// string then holds the characters that the bytes stand for.
#[verifier::external_body]
fn string_from_utf8(bytes: Vec<u8>) -> (r: Option<String>)
    ensures
        r is Some <==> valid_utf8(bytes@),
        r matches Some(s) ==> s@ == decode_utf8(bytes@),
{
    String::from_utf8(bytes).ok()
}

/// A cursor over a byte slice. It also carries the data count of the module
/// being read, which the body decoder consults.
pub struct Reader<'a> {
    buf: &'a [u8],
    pos: usize,
    data_count: DataCountSeg,
}

impl<'a> Reader<'a> {
    #[verifier::type_invariant]
    spec fn in_bounds(self) -> bool {
        self.pos <= self.buf@.len()
    }

    /// The bytes not yet read.
    pub closed spec fn remaining(&self) -> Seq<u8> {
        self.buf@.skip(self.pos as int)
    }

    /// The data count the reader was made with.
    pub closed spec fn spec_data_count(&self) -> DataCountSeg {
        self.data_count
    }

    #[verifier::when_used_as_spec(spec_data_count)]
    pub fn data_count(&self) -> (r: DataCountSeg)
        ensures
            r == self.spec_data_count(),
    {
        self.data_count
    }

    pub fn new(data: &'a [u8], data_count: DataCountSeg) -> (r: Self)
        ensures
            r.remaining() == data@,
            r.data_count() == data_count,
    {
        Reader { buf: data, pos: 0, data_count }
    }

    /// How many bytes are left.
    pub fn len(&self) -> (r: usize)
        ensures
            r == self.remaining().len(),
    {
        proof {
            use_type_invariant(self);
        }
        self.buf.len() - self.pos
    }

    /// Reads `size` bytes.
    pub fn bytes(&mut self, size: usize) -> (r: DecodeResult<Vec<u8>>)
        ensures
            final(self).data_count() == old(self).data_count(),
            reads_view(spec_bytes(old(self).remaining(), size as nat), r, final(self).remaining()),
    {
        proof {
            use_type_invariant(&*self);
        }
        if size > self.buf.len() - self.pos {
            self.pos = self.buf.len();
            return Err(DecodeErr::UnexpectedEof);
        }
        let out = slice_to_vec(slice_subrange(self.buf, self.pos, self.pos + size));
        proof {
            assert(self.buf@.subrange(self.pos as int, self.pos + size) =~= self.remaining().take(
                size as int,
            ));
            assert(self.buf@.skip(self.pos + size) =~= self.remaining().skip(size as int));
        }
        self.pos = self.pos + size;
        Ok(out)
    }

    /// Reads a length as unsigned LEB128, then that many bytes.
    pub fn seqs(&mut self) -> (r: DecodeResult<Vec<u8>>)
        ensures
            final(self).data_count() == old(self).data_count(),
            reads_view(spec_seqs(old(self).remaining()), r, final(self).remaining()),
    {
        let size = self.get_leb_u32()?;
        self.bytes(size as usize)
    }

    /// Reads sixteen bytes.
    pub fn byte_16(&mut self) -> (r: DecodeResult<Lane16>)
        ensures
            final(self).data_count() == old(self).data_count(),
            reads_view(spec_bytes(old(self).remaining(), 16), r, final(self).remaining()),
    {
        proof {
            use_type_invariant(&*self);
        }
        if self.buf.len() - self.pos < 16 {
            self.pos = self.buf.len();
            return Err(DecodeErr::UnexpectedEof);
        }
        let mut out: Lane16 = [0u8;16];
        let buf = self.buf;
        let p: usize = self.pos;
        let mut i: usize = 0;
        while i < 16
            invariant
                i <= 16,
                p + 16 <= buf.len(),
                forall|j: int| 0 <= j < i ==> out@[j] == buf@[p + j],
            decreases 16 - i,
        {
            out[i] = buf[p + i];
            i += 1;
        }
        proof {
            assert(out@ =~= self.remaining().take(16));
            assert(self.buf@.skip(self.pos + 16) =~= self.remaining().skip(16));
        }
        self.pos = self.pos + 16;
        Ok(out)
    }

    /// Whether any byte is left. Never fails and reads nothing.
    pub fn not_end(&mut self) -> (r: DecodeResult<bool>)
        ensures
            final(self).data_count() == old(self).data_count(),
            final(self).remaining() == old(self).remaining(),
            r == Ok::<bool, DecodeErr>(old(self).remaining().len() > 0),
    {
        proof {
            use_type_invariant(&*self);
        }
        Ok(self.pos < self.buf.len())
    }

    pub fn get_u8(&mut self) -> (r: DecodeResult<u8>)
        ensures
            final(self).data_count() == old(self).data_count(),
            reads(spec_u8(old(self).remaining()), r, final(self).remaining()),
    {
        proof {
            use_type_invariant(&*self);
        }
        if self.pos >= self.buf.len() {
            return Err(DecodeErr::UnexpectedEof);
        }
        let b: u8 = self.buf[self.pos];
        proof {
            assert(self.buf@.skip(self.pos + 1) =~= self.remaining().skip(1));
        }
        self.pos = self.pos + 1;
        Ok(b)
    }

    /// Reads four bytes as a number, least significant byte first.
    pub fn get_u32(&mut self) -> (r: DecodeResult<u32>)
        ensures
            final(self).data_count() == old(self).data_count(),
            reads(spec_u32(old(self).remaining()), r, final(self).remaining()),
    {
        proof {
            use_type_invariant(&*self);
        }
        if self.buf.len() - self.pos < 4 {
            self.pos = self.buf.len();
            return Err(DecodeErr::UnexpectedEof);
        }
        let p: usize = self.pos;
        let v: u32 = self.buf[p] as u32 + self.buf[p + 1] as u32 * 0x100 + self.buf[p + 2] as u32
            * 0x1_0000 + self.buf[p + 3] as u32 * 0x100_0000;
        proof {
            assert(self.buf@.skip(self.pos + 4) =~= self.remaining().skip(4));
        }
        self.pos = self.pos + 4;
        Ok(v)
    }

    /// Reads the four bytes of a 32-bit float and gives its bit pattern.
    pub fn get_f32(&mut self) -> (r: DecodeResult<u32>)
        ensures
            final(self).data_count() == old(self).data_count(),
            reads(spec_u32(old(self).remaining()), r, final(self).remaining()),
    {
        self.get_u32()
    }

    /// Reads the eight bytes of a 64-bit float and gives its bit pattern.
    pub fn get_f64(&mut self) -> (r: DecodeResult<u64>)
        ensures
            final(self).data_count() == old(self).data_count(),
            reads(spec_u64(old(self).remaining()), r, final(self).remaining()),
    {
        proof {
            use_type_invariant(&*self);
        }
        if self.buf.len() - self.pos < 8 {
            self.pos = self.buf.len();
            return Err(DecodeErr::UnexpectedEof);
        }
        let ghost before = self.remaining();
        let lo = self.get_u32()?;
        let hi = self.get_u32()?;
        proof {
            assert(before.take(8).take(4) =~= before.take(4));
            assert(before.take(8).skip(4) =~= before.skip(4).take(4));
            assert(before.skip(4).skip(4) =~= before.skip(8));
        }
        Ok(lo as u64 + hi as u64 * 0x1_0000_0000)
    }

    /// Reads sixteen bytes as a vector.
    pub fn get_v128(&mut self) -> (r: DecodeResult<v128>)
        ensures
            final(self).data_count() == old(self).data_count(),
            reads(spec_v128(old(self).remaining()), r, final(self).remaining()),
    {
        let bytes = self.byte_16()?;
        Ok(v128::new(bytes))
    }

    pub fn get_leb_u32(&mut self) -> (r: DecodeResult<u32>)
        ensures
            final(self).data_count() == old(self).data_count(),
            reads(spec_leb_u32(old(self).remaining()), r, final(self).remaining()),
    {
        proof {
            use_type_invariant(&*self);
        }
        let data = slice_subrange(self.buf, self.pos, self.buf.len());
        proof {
            assert(data@ =~= self.remaining());
        }
        let (num, size) = leb128::decode_unsigned(data)?;
        proof {
            assert(self.buf@.skip(self.pos + size) =~= self.remaining().skip(size as int));
        }
        self.pos = self.pos + size;
        Ok(num as u32)
    }

    pub fn get_leb_u64(&mut self) -> (r: DecodeResult<u64>)
        ensures
            final(self).data_count() == old(self).data_count(),
            reads(spec_leb_u64(old(self).remaining()), r, final(self).remaining()),
    {
        proof {
            use_type_invariant(&*self);
        }
        let data = slice_subrange(self.buf, self.pos, self.buf.len());
        proof {
            assert(data@ =~= self.remaining());
        }
        let (num, size) = leb128::decode_unsigned_of(data, 64)?;
        proof {
            assert(self.buf@.skip(self.pos + size) =~= self.remaining().skip(size as int));
        }
        self.pos = self.pos + size;
        Ok(num)
    }

    pub fn get_leb_i32(&mut self) -> (r: DecodeResult<i32>)
        ensures
            final(self).data_count() == old(self).data_count(),
            reads(spec_leb_i32(old(self).remaining()), r, final(self).remaining()),
    {
        proof {
            use_type_invariant(&*self);
        }
        let data = slice_subrange(self.buf, self.pos, self.buf.len());
        proof {
            assert(data@ =~= self.remaining());
        }
        let (num, size) = leb128::decode_signed(data, 32)?;
        proof {
            assert(self.buf@.skip(self.pos + size) =~= self.remaining().skip(size as int));
        }
        self.pos = self.pos + size;
        Ok(num as i32)
    }

    pub fn get_leb_i64(&mut self) -> (r: DecodeResult<i64>)
        ensures
            final(self).data_count() == old(self).data_count(),
            reads(spec_leb_i64(old(self).remaining()), r, final(self).remaining()),
    {
        proof {
            use_type_invariant(&*self);
        }
        let data = slice_subrange(self.buf, self.pos, self.buf.len());
        proof {
            assert(data@ =~= self.remaining());
        }
        let (num, size) = leb128::decode_signed(data, 64)?;
        proof {
            assert(self.buf@.skip(self.pos + size) =~= self.remaining().skip(size as int));
        }
        self.pos = self.pos + size;
        Ok(num)
    }

    /// Reads a length-prefixed name, which must be valid UTF-8.
    pub fn get_name(&mut self) -> (r: DecodeResult<String>)
        ensures
            final(self).data_count() == old(self).data_count(),
            reads_view(spec_name(old(self).remaining()), r, final(self).remaining()),
    {
        let bytes = self.seqs()?;
        match string_from_utf8(bytes) {
            Some(name) => Ok(name),
            None => Err(DecodeErr::InvalidUtf8),
        }
    }

    /// Reads all the bytes that are left. Never fails.
    pub fn remain(&mut self) -> (r: DecodeResult<Vec<u8>>)
        ensures
            final(self).data_count() == old(self).data_count(),
            r is Ok,
            r->Ok_0@ == old(self).remaining(),
            final(self).remaining() == Seq::<u8>::empty(),
    {
        let n = self.len();
        let r = self.bytes(n);
        proof {
            assert(old(self).remaining().take(n as int) =~= old(self).remaining());
            assert(old(self).remaining().skip(n as int) =~= Seq::<u8>::empty());
        }
        r
    }
}

} // verus!
