//! LEB128: integers written as groups of seven bits, least significant
//! group first, each byte but the last carrying a continuation bit.

use vstd::prelude::*;

use super::errors::DecodeErr;

verus! {

/// The number that groups stand for when read as unsigned: the low seven
/// bits of each byte, least significant group first.
pub open spec fn unsigned_value(groups: Seq<u8>) -> nat
    decreases groups.len(),
{
    if groups.len() == 0 {
        0
    } else {
        (groups[0] % 128) as nat + 128 * unsigned_value(groups.drop_first())
    }
}

/// The number that groups stand for when read as signed: as unsigned, but
/// bit 6 of the last group is the sign and is extended upwards.
pub open spec fn signed_value(groups: Seq<u8>) -> int
    decreases groups.len(),
{
    if groups.len() == 0 {
        0
    } else if groups.len() == 1 {
        if groups[0] % 128 >= 64 {
            groups[0] % 128 - 128
        } else {
            (groups[0] % 128) as int
        }
    } else {
        (groups[0] % 128) as int + 128 * signed_value(groups.drop_first())
    }
}

/// The number of leading bytes that carry the continuation bit.
pub open spec fn continued(data: Seq<u8>) -> nat
    decreases data.len(),
{
    if data.len() == 0 || data[0] < 128 {
        0
    } else {
        1 + continued(data.drop_first())
    }
}

/// The bytes of the number at the front of `data`: the continuing bytes and
/// the one after them.
pub open spec fn first_number(data: Seq<u8>) -> Seq<u8> {
    data.take(continued(data) as int + 1)
}

/// The bound on the last admissible group of an unsigned number of `size`
/// bits: the group must lie below it, so that it holds no bit beyond the
/// width. A 32-bit number has four bits in its fifth group, a 64-bit
/// number one bit in its tenth.
pub open spec fn top_group_bound(size: usize) -> int {
    if size == 32 {
        16
    } else {
        2
    }
}

/// What reading an unsigned number of `size` bits (32 or 64) from the
/// front of `data` gives: the number and how many bytes it took. More
/// groups than the width has room for are too long, a last group with a
/// bit beyond the width is too large, and input that ends before a group
/// without continuation bit has ended unexpectedly.
pub open spec fn spec_decode_unsigned_of(data: Seq<u8>, size: usize) -> Result<
    (u64, usize),
    DecodeErr,
> {
    let n = continued(data) as int;
    let last = (size / 7) as int;
    if n > last {
        Err(DecodeErr::LEBDecodeTooLong)
    } else if n >= data.len() {
        Err(DecodeErr::LEBUnexpectedEnd)
    } else if n == last && data[n] >= top_group_bound(size) {
        Err(DecodeErr::IntTooLarge)
    } else {
        Ok((unsigned_value(first_number(data)) as u64, (n + 1) as usize))
    }
}

/// What reading an unsigned 32-bit number from the front of `data` gives:
/// at most five groups, the fifth below 16.
pub open spec fn spec_decode_unsigned(data: Seq<u8>) -> Result<(u64, usize), DecodeErr> {
    spec_decode_unsigned_of(data, 32)
}

/// The bound on the last admissible group of a signed number of `size`
/// bits: the group must lie below it or at most that far under 128, so
/// that the bits beyond the width are all equal to the sign.
pub open spec fn final_group_bound(size: usize) -> int {
    if size == 32 {
        8
    } else {
        1
    }
}

/// What reading a signed number of `size` bits (32 or 64) from the front of
/// `data` gives: the number and how many bytes it took.
pub open spec fn spec_decode_signed(data: Seq<u8>, size: usize) -> Result<(i64, usize), DecodeErr> {
    let n = continued(data) as int;
    let last = (size / 7) as int;
    if n > last {
        Err(DecodeErr::LEBDecodeTooLong)
    } else if n >= data.len() {
        Err(DecodeErr::LEBUnexpectedEnd)
    } else if n == last && !(data[n] < final_group_bound(size) || data[n] >= 128
        - final_group_bound(size)) {
        Err(DecodeErr::IntTooLarge)
    } else {
        Ok((signed_value(first_number(data)) as i64, (n + 1) as usize))
    }
}

/// The shortest groups that stand for `n` read as unsigned.
pub open spec fn spec_encode_unsigned(n: nat) -> Seq<u8>
    decreases n,
{
    if n < 128 {
        seq![n as u8]
    } else {
        seq![(n % 128 + 128) as u8] + spec_encode_unsigned(n / 128)
    }
}

/// The shortest groups that stand for `n` read as signed.
pub open spec fn spec_encode_signed(n: int) -> Seq<u8>
    decreases
            (if n >= 0 {
                n
            } else {
                -n
            }),
{
    if -64 <= n < 64 {
        seq![(n % 128) as u8]
    } else {
        seq![(n % 128 + 128) as u8] + spec_encode_signed(n / 128)
    }
}

/// 128 to the power of `k`.
pub open spec fn pow128(k: nat) -> nat
    decreases k,
{
    if k == 0 {
        1
    } else {
        128 * pow128((k - 1) as nat)
    }
}

pub proof fn lemma_pow128_values()
    ensures
        pow128(0) == 1,
        pow128(1) == 0x80,
        pow128(2) == 0x4000,
        pow128(3) == 0x20_0000,
        pow128(4) == 0x1000_0000,
        pow128(5) == 0x8_0000_0000,
        pow128(6) == 0x400_0000_0000,
        pow128(7) == 0x2_0000_0000_0000,
        pow128(8) == 0x100_0000_0000_0000,
        pow128(9) == 0x8000_0000_0000_0000,
        pow128(10) == 0x40_0000_0000_0000_0000,
{
    reveal_with_fuel(pow128, 11);
}

/// Groups stand for less than 128 to the power of their count.
pub proof fn lemma_unsigned_value_bound(groups: Seq<u8>)
    ensures
        unsigned_value(groups) < pow128(groups.len()),
    decreases groups.len(),
{
    if groups.len() > 0 {
        lemma_unsigned_value_bound(groups.drop_first());
    }
}

/// Read as signed, groups stand for a number between the signed value of
/// the last group times the weight of its place, and that plus the weight.
pub proof fn lemma_signed_value_bound(groups: Seq<u8>)
    requires
        groups.len() > 0,
    ensures
        signed_value(seq![groups.last()]) * pow128((groups.len() - 1) as nat) <= signed_value(
            groups,
        ) < (signed_value(seq![groups.last()]) + 1) * pow128((groups.len() - 1) as nat),
    decreases groups.len(),
{
    if groups.len() == 1 {
        assert(groups =~= seq![groups.last()]);
        let t = signed_value(groups);
        let w = pow128(0);
        assert(t * w == t && (t + 1) * w == t + 1) by (nonlinear_arith)
            requires
                w == 1,
        ;
    } else {
        let rest = groups.drop_first();
        lemma_signed_value_bound(rest);
        assert(rest.last() == groups.last());
        let top = signed_value(seq![groups.last()]);
        let w = pow128((rest.len() - 1) as nat);
        assert(pow128((groups.len() - 1) as nat) == 128 * w);
        assert(top * (128 * w) == 128 * (top * w)) by (nonlinear_arith);
        assert((top + 1) * (128 * w) == 128 * ((top + 1) * w)) by (nonlinear_arith);
    }
}

/// No more bytes continue than there are.
pub proof fn lemma_continued_bound(data: Seq<u8>)
    ensures
        continued(data) <= data.len(),
    decreases data.len(),
{
    if data.len() > 0 && data[0] >= 128 {
        lemma_continued_bound(data.drop_first());
    }
}

/// As long as the first `i` bytes all continue, at least `i` bytes do.
proof fn lemma_continued_at_least(data: Seq<u8>, i: nat)
    requires
        i <= data.len(),
        forall|j: int| 0 <= j < i ==> data[j] >= 128,
    ensures
        i <= continued(data) <= data.len(),
        i < data.len() && data[i as int] < 128 ==> continued(data) == i,
    decreases i,
{
    lemma_continued_bound(data);
    if i > 0 {
        let rest = data.drop_first();
        assert forall|j: int| 0 <= j < i - 1 implies rest[j] >= 128 by {
            assert(rest[j] == data[j + 1]);
        }
        lemma_continued_at_least(rest, (i - 1) as nat);
    }
}

/// Read as unsigned, groups stand for at least the last group times the
/// weight of its place.
pub proof fn lemma_unsigned_value_top(groups: Seq<u8>)
    requires
        groups.len() > 0,
    ensures
        (groups.last() % 128) * pow128((groups.len() - 1) as nat) <= unsigned_value(groups),
    decreases groups.len(),
{
    if groups.len() == 1 {
        let t = (groups[0] % 128) as int;
        let w = pow128(0);
        assert(t * w == t) by (nonlinear_arith)
            requires
                w == 1,
        ;
        assert(unsigned_value(groups.drop_first()) == 0);
    } else {
        let rest = groups.drop_first();
        lemma_unsigned_value_top(rest);
        assert(rest.last() == groups.last());
        let top = (groups.last() % 128) as int;
        let w = pow128((rest.len() - 1) as nat);
        assert(pow128((groups.len() - 1) as nat) == 128 * w);
        assert(top * (128 * w) == 128 * (top * w)) by (nonlinear_arith);
    }
}

/// A number that was read as unsigned with `size` bits is below two to
/// the power of `size`.
pub proof fn lemma_decode_unsigned_range(data: Seq<u8>, size: usize)
    requires
        size == 32 || size == 64,
        spec_decode_unsigned_of(data, size) is Ok,
    ensures
        size == 32 ==> unsigned_value(first_number(data)) < 0x1_0000_0000,
        unsigned_value(first_number(data)) < 0x1_0000_0000_0000_0000,
{
    let n = continued(data) as int;
    let last = (size / 7) as int;
    let groups = data.take(n + 1);
    lemma_pow128_values();
    lemma_unsigned_value_bound(groups);
    if n == last {
        // full groups below the last, which holds only bits of the width
        let low = groups.drop_last();
        lemma_unsigned_value_split(groups);
        lemma_unsigned_value_bound(low);
        assert(groups.last() == data[n]);
        let top = (groups.last() % 128) as int;
        let w = pow128(n as nat);
        if size == 32 {
            assert(top * w <= 15 * w) by (nonlinear_arith)
                requires
                    0 <= top <= 15,
                    w >= 0,
            ;
        } else {
            assert(top * w <= 1 * w) by (nonlinear_arith)
                requires
                    0 <= top <= 1,
                    w >= 0,
            ;
        }
    }
}

/// Groups stand for what all but the last stand for, plus the last group
/// at the weight of its place.
pub proof fn lemma_unsigned_value_split(groups: Seq<u8>)
    requires
        groups.len() > 0,
    ensures
        unsigned_value(groups) == unsigned_value(groups.drop_last()) + (groups.last() % 128)
            * pow128((groups.len() - 1) as nat),
    decreases groups.len(),
{
    if groups.len() == 1 {
        let t = (groups[0] % 128) as int;
        let w = pow128(0);
        assert(t * w == t) by (nonlinear_arith)
            requires
                w == 1,
        ;
        assert(groups.drop_last() =~= Seq::<u8>::empty());
        assert(unsigned_value(groups.drop_first()) == 0);
    } else {
        let rest = groups.drop_first();
        lemma_unsigned_value_split(rest);
        assert(rest.last() == groups.last());
        assert(rest.drop_last() =~= groups.drop_last().drop_first());
        assert(groups.drop_last()[0] == groups[0]);
        let top = (groups.last() % 128) as int;
        let w = pow128((rest.len() - 1) as nat);
        assert(pow128((groups.len() - 1) as nat) == 128 * w);
        assert(top * (128 * w) == 128 * (top * w)) by (nonlinear_arith);
    }
}

/// A number that was read as signed with `size` bits lies in the range of
/// a signed integer of that many bits.
pub proof fn lemma_decode_signed_range(data: Seq<u8>, size: usize)
    requires
        size == 32 || size == 64,
        spec_decode_signed(data, size) is Ok,
    ensures
        size == 32 ==> -0x8000_0000 <= signed_value(first_number(data)) < 0x8000_0000,
        -0x8000_0000_0000_0000 <= signed_value(first_number(data))
            < 0x8000_0000_0000_0000,
{
    let n = continued(data) as int;
    let last = (size / 7) as int;
    let groups = data.take(n + 1);
    lemma_signed_value_bound(groups);
    lemma_pow128_values();
    lemma_continued_terminator(data);
    assert(groups.last() == data[n]);
    let t = signed_value(seq![groups.last()]);
    let w = pow128(n as nat);
    if n == last {
        if size == 32 {
            assert(-8 * w <= t * w && (t + 1) * w <= 8 * w) by (nonlinear_arith)
                requires
                    -8 <= t < 8,
                    w >= 0,
            ;
        } else {
            assert(-1 * w <= t * w && (t + 1) * w <= 1 * w) by (nonlinear_arith)
                requires
                    -1 <= t < 1,
                    w >= 0,
            ;
        }
    } else {
        assert(-64 * w <= t * w && (t + 1) * w <= 64 * w) by (nonlinear_arith)
            requires
                -64 <= t < 64,
                w >= 0,
        ;
    }
}

/// The byte after the continuing ones, if there is one, does not continue.
pub proof fn lemma_continued_terminator(data: Seq<u8>)
    ensures
        continued(data) <= data.len(),
        continued(data) < data.len() ==> data[continued(data) as int] < 128,
        forall|j: int| 0 <= j < continued(data) ==> data[j] >= 128,
    decreases data.len(),
{
    if data.len() > 0 && data[0] >= 128 {
        let rest = data.drop_first();
        lemma_continued_terminator(rest);
        assert forall|j: int| 0 <= j < continued(data) implies data[j] >= 128 by {
            if j > 0 {
                assert(data[j] == rest[j - 1]);
            }
        }
    }
}

/// A number below 128^k takes at most `k` bytes in its shortest unsigned
/// form.
pub proof fn lemma_encode_unsigned_len(n: nat, k: nat)
    requires
        k >= 1,
        n < pow128(k),
    ensures
        1 <= spec_encode_unsigned(n).len() <= k,
    decreases n,
{
    reveal_with_fuel(pow128, 2);
    if n >= 128 {
        lemma_encode_unsigned_len(n / 128, (k - 1) as nat);
    }
}

/// The shortest unsigned form of `n`: every byte but the last continues,
/// and the bytes stand for `n`.
pub proof fn lemma_encode_unsigned_shape(n: nat, rest: Seq<u8>)
    ensures
        spec_encode_unsigned(n).len() >= 1,
        spec_encode_unsigned(n).last() < 128,
        continued(spec_encode_unsigned(n) + rest) == spec_encode_unsigned(n).len() - 1,
        unsigned_value(spec_encode_unsigned(n)) == n,
    decreases n,
{
    let e = spec_encode_unsigned(n);
    if n < 128 {
        assert((e + rest)[0] == n);
        assert(unsigned_value(e.drop_first()) == 0);
    } else {
        let tail = spec_encode_unsigned(n / 128);
        lemma_encode_unsigned_shape(n / 128, rest);
        assert((e + rest).drop_first() =~= tail + rest);
        assert((e + rest)[0] >= 128);
        assert(e.drop_first() =~= tail);
        assert(e.last() == tail.last());
    }
}

/// Reading back the shortest unsigned form of a number of `size` bits
/// gives the number and the length of the form, whatever follows it.
pub proof fn lemma_unsigned_round_trip(n: nat, size: usize, rest: Seq<u8>)
    requires
        size == 32 || size == 64,
        size == 32 ==> n < 0x1_0000_0000,
        n < 0x1_0000_0000_0000_0000,
    ensures
        spec_decode_unsigned_of(spec_encode_unsigned(n) + rest, size) == Ok::<
            (u64, usize),
            DecodeErr,
        >((n as u64, spec_encode_unsigned(n).len() as usize)),
{
    let e = spec_encode_unsigned(n);
    let data = e + rest;
    let last = (size / 7) as int;
    lemma_encode_unsigned_shape(n, rest);
    lemma_pow128_values();
    lemma_encode_unsigned_len(n, (last + 1) as nat);
    assert(first_number(data) =~= e);
    assert(data.len() == e.len() + rest.len());
    if e.len() == last + 1 {
        lemma_unsigned_value_top(e);
        assert(data[last] == e.last());
        let t = (e.last() % 128) as int;
        let w = pow128(last as nat);
        assert(t * w <= n);
        if size == 32 {
            assert(t < 16) by (nonlinear_arith)
                requires
                    t * w < 0x1_0000_0000,
                    w == 0x1000_0000,
            ;
        } else {
            assert(t < 2) by (nonlinear_arith)
                requires
                    t * w < 0x1_0000_0000_0000_0000,
                    w == 0x8000_0000_0000_0000,
            ;
        }
        assert(data[last] < top_group_bound(size));
    }
    assert(continued(data) == e.len() - 1);
    assert(spec_decode_unsigned_of(data, size) is Ok);
    assert(unsigned_value(first_number(data)) == n);
}

/// No form that reads as an unsigned number is shorter than the one the
/// encoder writes for it.
pub proof fn lemma_unsigned_minimal(data: Seq<u8>, size: usize)
    requires
        size == 32 || size == 64,
        spec_decode_unsigned_of(data, size) is Ok,
    ensures
        spec_encode_unsigned(spec_decode_unsigned_of(data, size).unwrap().0 as nat).len()
            <= spec_decode_unsigned_of(data, size).unwrap().1,
{
    let n = continued(data) as int;
    let groups = data.take(n + 1);
    lemma_unsigned_value_bound(groups);
    lemma_decode_unsigned_range(data, size);
    lemma_encode_unsigned_len(unsigned_value(groups), groups.len());
}

/// A number from -64 * 128^(k-1) up to but not including 64 * 128^(k-1)
/// takes at most `k` bytes in its shortest signed form.
pub proof fn lemma_encode_signed_len(n: int, k: nat)
    requires
        k >= 1,
        -64 * pow128((k - 1) as nat) <= n < 64 * pow128((k - 1) as nat),
    ensures
        1 <= spec_encode_signed(n).len() <= k,
    decreases
            (if n >= 0 {
                n
            } else {
                -n
            }),
{
    reveal_with_fuel(pow128, 2);
    if !(-64 <= n < 64) {
        assert(pow128((k - 1) as nat) == 128 * pow128((k - 2) as nat));
        let w = pow128((k - 2) as nat) as int;
        assert(-64 * w <= n / 128 < 64 * w);
        lemma_encode_signed_len(n / 128, (k - 1) as nat);
    }
}

/// The shortest signed form of `n`: every byte but the last continues, and
/// the bytes stand for `n`.
pub proof fn lemma_encode_signed_shape(n: int, rest: Seq<u8>)
    ensures
        spec_encode_signed(n).len() >= 1,
        spec_encode_signed(n).last() < 128,
        continued(spec_encode_signed(n) + rest) == spec_encode_signed(n).len() - 1,
        signed_value(spec_encode_signed(n)) == n,
    decreases
            (if n >= 0 {
                n
            } else {
                -n
            }),
{
    let e = spec_encode_signed(n);
    if -64 <= n < 64 {
        assert((e + rest)[0] == n % 128);
    } else {
        let tail = spec_encode_signed(n / 128);
        lemma_encode_signed_shape(n / 128, rest);
        assert((e + rest).drop_first() =~= tail + rest);
        assert((e + rest)[0] >= 128);
        assert(e.drop_first() =~= tail);
        assert(e.last() == tail.last());
        assert(e.len() >= 2);
    }
}

/// Reading back the shortest signed form of a number gives the number and
/// the length of the form, whatever follows it: with 64 bits for every
/// number, with 32 bits for every number of 32 bits.
pub proof fn lemma_signed_round_trip(n: i64, size: usize, rest: Seq<u8>)
    requires
        size == 32 || size == 64,
        size == 32 ==> -0x8000_0000 <= n < 0x8000_0000,
    ensures
        spec_decode_signed(spec_encode_signed(n as int) + rest, size) == Ok::<
            (i64, usize),
            DecodeErr,
        >((n, spec_encode_signed(n as int).len() as usize)),
{
    let e = spec_encode_signed(n as int);
    let data = e + rest;
    let last = (size / 7) as int;
    lemma_encode_signed_shape(n as int, rest);
    lemma_pow128_values();
    if size == 32 {
        lemma_encode_signed_len(n as int, 5);
    } else {
        lemma_encode_signed_len(n as int, 10);
    }
    assert(first_number(data) =~= e);
    if e.len() == last + 1 {
        lemma_signed_value_bound(e);
        assert(data[last] == e.last());
        let t = signed_value(seq![e.last()]);
        let w = pow128(last as nat) as int;
        if size == 32 {
            assert(-8 <= t < 8) by (nonlinear_arith)
                requires
                    t * w <= n < (t + 1) * w,
                    -8 * w <= n < 8 * w,
                    w > 0,
            ;
        } else {
            assert(-1 <= t < 1) by (nonlinear_arith)
                requires
                    t * w <= n < (t + 1) * w,
                    -1 * w <= n < 1 * w,
                    w > 0,
            ;
        }
    }
}

/// No form that reads as a signed number is shorter than the one the
/// encoder writes for it.
pub proof fn lemma_signed_minimal(data: Seq<u8>, size: usize)
    requires
        size == 32 || size == 64,
        spec_decode_signed(data, size) is Ok,
    ensures
        spec_encode_signed(spec_decode_signed(data, size).unwrap().0 as int).len()
            <= spec_decode_signed(data, size).unwrap().1,
{
    let n = continued(data) as int;
    let groups = data.take(n + 1);
    lemma_signed_value_bound(groups);
    lemma_decode_signed_range(data, size);
    lemma_continued_terminator(data);
    assert(groups.last() == data[n]);
    let t = signed_value(seq![groups.last()]);
    let w = pow128(n as nat) as int;
    assert(-64 * w <= t * w && (t + 1) * w <= 64 * w) by (nonlinear_arith)
        requires
            -64 <= t < 64,
            w >= 0,
    ;
    lemma_encode_signed_len(signed_value(groups), groups.len());
}

/// Reads an unsigned number of `size` bits from the front of `data`.
pub fn decode_unsigned_of(data: &[u8], size: usize) -> (r: Result<(u64, usize), DecodeErr>)
    requires
        size == 32 || size == 64,
    ensures
        r == spec_decode_unsigned_of(data@, size),
        r matches Ok((v, k)) ==> 1 <= k <= data@.len() && k <= 10 && (size == 32 ==> v
            < 0x1_0000_0000 && k <= 5),
{
    let last: usize = size / 7;
    let mut n: usize = 0;
    while n < data.len() && n <= last && data[n] >= 128
        invariant
            n <= data.len(),
            n <= last + 1,
            last <= 9,
            forall|j: int| 0 <= j < n ==> data@[j] >= 128,
        decreases last + 1 - n,
    {
        n += 1;
    }
    proof {
        lemma_continued_at_least(data@, n as nat);
    }
    if n > last {
        return Err(DecodeErr::LEBDecodeTooLong);
    }
    if n >= data.len() {
        return Err(DecodeErr::LEBUnexpectedEnd);
    }
    let bound: u8 = if size == 32 {
        16
    } else {
        2
    };
    if n == last && data[n] >= bound {
        return Err(DecodeErr::IntTooLarge);
    }
    let ghost groups = data@.take(n + 1);
    let mut acc: u128 = 0;
    let mut j: usize = n + 1;
    proof {
        lemma_pow128_values();
        assert(groups.subrange(j as int, n + 1) =~= Seq::<u8>::empty());
    }
    while j > 0
        invariant
            j <= n + 1,
            n <= 9,
            n < data.len(),
            groups == data@.take(n + 1),
            acc == unsigned_value(groups.subrange(j as int, n + 1)),
            acc < pow128((n + 1 - j) as nat),
        decreases j,
    {
        j -= 1;
        proof {
            lemma_pow128_values();
            let tail = groups.subrange(j as int, n + 1);
            assert(tail.drop_first() =~= groups.subrange(j + 1, n + 1));
            assert(tail[0] == data@[j as int]);
            assert(pow128((n + 1 - j) as nat) == 128 * pow128((n - j) as nat));
            assert(pow128((n - j) as nat) <= 0x8000_0000_0000_0000);
        }
        acc = acc * 128 + (data[j] % 128) as u128;
    }
    proof {
        assert(groups.subrange(0, n + 1) =~= groups);
        lemma_decode_unsigned_range(data@, size);
    }
    Ok((acc as u64, n + 1))
}

/// Reads an unsigned 32-bit number from the front of `data`.
pub fn decode_unsigned(data: &[u8]) -> (r: Result<(u64, usize), DecodeErr>)
    ensures
        r == spec_decode_unsigned(data@),
        r matches Ok((v, k)) ==> v < 0x1_0000_0000 && 1 <= k <= data@.len() && k <= 5,
{
    decode_unsigned_of(data, 32)
}

/// Reads a signed number of `size` bits from the front of `data`.
pub fn decode_signed(data: &[u8], size: usize) -> (r: Result<(i64, usize), DecodeErr>)
    requires
        size == 32 || size == 64,
    ensures
        r == spec_decode_signed(data@, size),
        r matches Ok((v, k)) ==> 1 <= k <= data@.len() && k <= 10 && (size == 32 ==> -0x8000_0000
            <= v < 0x8000_0000),
{
    let last: usize = size / 7;
    let bound: u8 = if size == 32 {
        8
    } else {
        1
    };
    let mut n: usize = 0;
    while n < data.len() && n <= last && data[n] >= 128
        invariant
            n <= data.len(),
            n <= last + 1,
            last == size / 7,
            last == 4 || last == 9,
            forall|j: int| 0 <= j < n ==> data@[j] >= 128,
        decreases last + 1 - n,
    {
        n += 1;
    }
    proof {
        lemma_continued_at_least(data@, n as nat);
    }
    if n > last {
        return Err(DecodeErr::LEBDecodeTooLong);
    }
    if n >= data.len() {
        return Err(DecodeErr::LEBUnexpectedEnd);
    }
    if n == last && !(data[n] < bound || data[n] >= 128 - bound) {
        return Err(DecodeErr::IntTooLarge);
    }
    let ghost groups = data@.take(n + 1);
    let top: u8 = data[n] % 128;
    let mut acc: i128 = if top >= 64 {
        top as i128 - 128
    } else {
        top as i128
    };
    let mut j: usize = n;
    proof {
        lemma_pow128_values();
        assert(groups.subrange(j as int, n + 1) =~= seq![data@[n as int]]);
        assert(groups.last() == data@[n as int]);
    }
    while j > 0
        invariant
            j <= n,
            n <= last,
            last == size / 7,
            size == 32 || size == 64,
            n < data.len(),
            data@[n as int] < 128,
            n == last ==> data@[n as int] < final_group_bound(size) || data@[n as int] >= 128
                - final_group_bound(size),
            groups == data@.take(n + 1),
            acc == signed_value(groups.subrange(j as int, n + 1)),
            -64 * pow128((n - j) as nat) <= acc < 64 * pow128((n - j) as nat),
        decreases j,
    {
        j -= 1;
        proof {
            lemma_pow128_values();
            let tail = groups.subrange(j as int, n + 1);
            assert(tail.drop_first() =~= groups.subrange(j + 1, n + 1));
            assert(tail[0] == data@[j as int]);
            assert(tail.len() >= 2);
            assert(pow128((n - j) as nat) == 128 * pow128((n - j - 1) as nat));
        }
        acc = acc * 128 + (data[j] % 128) as i128;
    }
    proof {
        assert(groups.subrange(0, n + 1) =~= groups);
        lemma_decode_signed_range(data@, size);
    }
    Ok((acc as i64, n + 1))
}

/// Writes `data` as the shortest unsigned LEB128.
pub fn encode_unsigned(data: u64) -> (r: Vec<u8>)
    ensures
        r@ == spec_encode_unsigned(data as nat),
{
    let mut result: Vec<u8> = Vec::new();
    let mut rest: u64 = data;
    while rest >= 128
        invariant
            result@ + spec_encode_unsigned(rest as nat) == spec_encode_unsigned(data as nat),
        decreases rest,
    {
        let byte: u8 = (rest % 128) as u8 + 128;
        proof {
            assert(spec_encode_unsigned(rest as nat) == seq![byte] + spec_encode_unsigned(
                (rest / 128) as nat,
            ));
            assert(result@.push(byte) + spec_encode_unsigned((rest / 128) as nat) =~= result@ + (
            seq![byte] + spec_encode_unsigned((rest / 128) as nat)));
        }
        result.push(byte);
        rest = rest / 128;
    }
    proof {
        assert(result@.push(rest as u8) =~= result@ + spec_encode_unsigned(rest as nat));
    }
    result.push(rest as u8);
    result
}

/// Writes `data` as the shortest signed LEB128.
pub fn encode_signed(data: i64) -> (r: Vec<u8>)
    ensures
        r@ == spec_encode_signed(data as int),
{
    let mut result: Vec<u8> = Vec::new();
    let mut rest: i64 = data;
    while rest < -64 || rest >= 64
        invariant
            result@ + spec_encode_signed(rest as int) == spec_encode_signed(data as int),
        decreases
                (if rest >= 0 {
                    rest as int
                } else {
                    -(rest as int)
                }),
    {
        let quot: i64 = if rest >= 0 {
            rest / 128
        } else {
            -1 - (-(rest + 1)) / 128
        };
        let low: i64 = rest - quot * 128;
        proof {
            let r = rest as int;
            assert(quot == r / 128 && low == r % 128) by (nonlinear_arith)
                requires
                    quot == if r >= 0 {
                        r / 128
                    } else {
                        -1 - (-(r + 1)) / 128
                    },
                    low == r - quot * 128,
            ;
        }
        let byte: u8 = low as u8 + 128;
        proof {
            assert(spec_encode_signed(rest as int) == seq![byte] + spec_encode_signed(quot as int));
            assert(result@.push(byte) + spec_encode_signed(quot as int) =~= result@ + (seq![byte]
                + spec_encode_signed(quot as int)));
        }
        result.push(byte);
        rest = quot;
    }
    let byte: u8 = if rest >= 0 {
        rest as u8
    } else {
        (rest + 128) as u8
    };
    proof {
        assert(byte == (rest as int) % 128);
        assert(result@.push(byte) =~= result@ + spec_encode_signed(rest as int));
    }
    result.push(byte);
    result
}

pub fn encode_u32(data: u32) -> (r: Vec<u8>)
    ensures
        r@ == spec_encode_unsigned(data as nat),
{
    encode_unsigned(data as u64)
}

pub fn encode_usize(data: usize) -> (r: Vec<u8>)
    ensures
        r@ == spec_encode_unsigned(data as nat),
{
    encode_unsigned(data as u64)
}

/// The bytes of a name: the length of its UTF-8 form, then that form.
pub open spec fn spec_encode_name(name: Seq<char>) -> Seq<u8> {
    spec_encode_unsigned(vstd::utf8::encode_utf8(name).len()) + vstd::utf8::encode_utf8(name)
}

/// Appends a copy of `src` to `dst`.
pub fn extend_bytes(dst: &mut Vec<u8>, src: &[u8])
    ensures
        final(dst)@ == old(dst)@ + src@,
{
    let mut i: usize = 0;
    while i < src.len()
        invariant
            i <= src.len(),
            dst@ == old(dst)@ + src@.take(i as int),
        decreases src.len() - i,
    {
        dst.push(src[i]);
        i += 1;
        assert(dst@ =~= old(dst)@ + src@.take(i as int));
    }
    assert(src@.take(src.len() as int) =~= src@);
}

/// Writes a name: its length in bytes as unsigned LEB128, then its bytes.
pub fn encode_name(name: &str) -> (r: Vec<u8>)
    ensures
        r@ == spec_encode_name(name@),
{
    let bytes = name.as_bytes();
    let mut result = encode_usize(bytes.len());
    extend_bytes(&mut result, bytes);
    result
}

} // verus!
