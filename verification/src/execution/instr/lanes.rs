//! The lanes of a vector, and integer operations lane by lane.

use vstd::prelude::*;

use super::alu::fits;
use super::alu::ibin;
use super::alu::irel;
use super::alu::iun;
use super::alu::lemma_wrap_fits;
use super::alu::spec_ibin;
use super::alu::spec_irel;
use super::alu::spec_iun;
use super::alu::to_u;
use super::alu::unsigned;
use super::alu::wrap;
use super::alu::wrap_s;
use super::alu::IBinOp;
use super::alu::IRelOp;
use super::alu::IUnOp;
use super::alu::Width;
use crate::binary::instruction::Lane16;
use crate::execution::value::spec_v128_bytes;
use crate::execution::value::spec_v128_from_bytes;
use crate::execution::value::v128;

verus! {

/// How a vector is cut into integer lanes.
#[derive(Debug, Clone, Copy, PartialEq, Eq, Structural)]
pub enum Shape {
    I8x16,
    I16x8,
    I32x4,
    I64x2,
}

impl Shape {
    /// The width of a lane.
    pub open spec fn spec_width(self) -> Width {
        match self {
            Shape::I8x16 => Width::W8,
            Shape::I16x8 => Width::W16,
            Shape::I32x4 => Width::W32,
            Shape::I64x2 => Width::W64,
        }
    }

    /// The number of lanes.
    pub open spec fn spec_count(self) -> int {
        match self {
            Shape::I8x16 => 16,
            Shape::I16x8 => 8,
            Shape::I32x4 => 4,
            Shape::I64x2 => 2,
        }
    }

    /// The number of bytes of a lane.
    pub open spec fn spec_bytes(self) -> int {
        match self {
            Shape::I8x16 => 1,
            Shape::I16x8 => 2,
            Shape::I32x4 => 4,
            Shape::I64x2 => 8,
        }
    }

    pub fn width(self) -> (r: Width)
        ensures
            r == self.spec_width(),
    {
        match self {
            Shape::I8x16 => Width::W8,
            Shape::I16x8 => Width::W16,
            Shape::I32x4 => Width::W32,
            Shape::I64x2 => Width::W64,
        }
    }

    pub fn count(self) -> (r: usize)
        ensures
            r == self.spec_count(),
    {
        match self {
            Shape::I8x16 => 16,
            Shape::I16x8 => 8,
            Shape::I32x4 => 4,
            Shape::I64x2 => 2,
        }
    }

    pub fn bytes(self) -> (r: usize)
        ensures
            r == self.spec_bytes(),
            r * self.spec_count() == 16,
    {
        match self {
            Shape::I8x16 => 1,
            Shape::I16x8 => 2,
            Shape::I32x4 => 4,
            Shape::I64x2 => 8,
        }
    }

    /// The shape with lanes of half the width, if there is one.
    pub open spec fn spec_half(self) -> Shape {
        match self {
            Shape::I8x16 => Shape::I8x16,
            Shape::I16x8 => Shape::I8x16,
            Shape::I32x4 => Shape::I16x8,
            Shape::I64x2 => Shape::I32x4,
        }
    }

    pub fn half(self) -> (r: Shape)
        ensures
            r == self.spec_half(),
    {
        match self {
            Shape::I8x16 => Shape::I8x16,
            Shape::I16x8 => Shape::I8x16,
            Shape::I32x4 => Shape::I16x8,
            Shape::I64x2 => Shape::I32x4,
        }
    }
}

/// The number that bytes stand for, least significant byte first.
pub open spec fn le_value(b: Seq<u8>) -> int
    decreases b.len(),
{
    if b.len() == 0 {
        0
    } else {
        b[0] as int + 0x100 * le_value(b.drop_first())
    }
}

/// The `n` low bytes of a number, least significant byte first.
pub open spec fn le_bytes(x: int, n: nat) -> Seq<u8>
    decreases n,
{
    if n == 0 {
        Seq::empty()
    } else {
        seq![(x % 0x100) as u8] + le_bytes(x / 0x100, (n - 1) as nat)
    }
}

/// The lane `k` of a vector, as the signed number that its bytes stand
/// for.
pub open spec fn spec_lane(v: v128, s: Shape, k: int) -> int {
    wrap_s(
        le_value(spec_v128_bytes(v).subrange(k * s.spec_bytes(), (k + 1) * s.spec_bytes())),
        s.spec_width(),
    )
}

/// The lanes of a vector in memory order.
pub open spec fn spec_lanes(v: v128, s: Shape) -> Seq<int> {
    Seq::new(s.spec_count() as nat, |k: int| spec_lane(v, s, k))
}

/// The bytes of the first `k` lanes, each lane wrapped to its width.
pub open spec fn spec_lane_bytes(lanes: Seq<int>, s: Shape, k: int) -> Seq<u8>
    decreases k,
{
    if k <= 0 {
        Seq::empty()
    } else {
        spec_lane_bytes(lanes, s, k - 1) + le_bytes(
            to_u(lanes[k - 1], s.spec_width()),
            s.spec_bytes() as nat,
        )
    }
}

/// The vector whose lanes are the given numbers, each wrapped to the
/// width of a lane.
pub open spec fn spec_from_lanes(lanes: Seq<int>, s: Shape) -> v128 {
    spec_v128_from_bytes(spec_lane_bytes(lanes, s, s.spec_count()))
}

/// The numbers of a vector of machine integers.
pub open spec fn ints(l: Seq<i64>) -> Seq<int> {
    Seq::new(l.len(), |k: int| l[k] as int)
}

/// Bytes stand for a number below 256 to the power of their count.
pub proof fn lemma_le_value_bound(b: Seq<u8>)
    ensures
        0 <= le_value(b),
        b.len() <= 8 ==> le_value(b) < 0x1_0000_0000_0000_0000,
        b.len() == 1 ==> le_value(b) < 0x100,
        b.len() == 2 ==> le_value(b) < 0x1_0000,
        b.len() == 4 ==> le_value(b) < 0x1_0000_0000,
    decreases b.len(),
{
    reveal_with_fuel(le_value, 9);
    if b.len() > 0 {
        lemma_le_value_bound(b.drop_first());
    }
}

/// The lanes of a vector, each as a signed number of the lane width.
pub fn lanes(v: v128, s: Shape) -> (r: Vec<i64>)
    ensures
        ints(r@) == spec_lanes(v, s),
        r@.len() == s.spec_count(),
        forall|k: int| 0 <= k < r@.len() ==> fits(#[trigger] r@[k] as int, s.spec_width()),
{
    let bytes = v.to_bytes();
    let n = s.bytes();
    let w = s.width();
    let mut out: Vec<i64> = Vec::new();
    let mut k: usize = 0;
    while k < s.count()
        invariant
            k <= s.spec_count(),
            n == s.spec_bytes(),
            w == s.spec_width(),
            n * s.spec_count() == 16,
            bytes@ == spec_v128_bytes(v),
            bytes@.len() == 16,
            out@.len() == k,
            forall|i: int| 0 <= i < k ==> (#[trigger] out@[i]) as int == spec_lane(v, s, i),
            forall|i: int| 0 <= i < k ==> fits(#[trigger] out@[i] as int, w),
        decreases s.spec_count() - k,
    {
        let base: usize = k * n;
        assert(base + n <= 16) by (nonlinear_arith)
            requires
                base == k * n,
                k < s.spec_count(),
                n * s.spec_count() == 16,
                n >= 1,
        ;
        let ghost lane_bytes = bytes@.subrange(base as int, base + n);
        let mut acc: i128 = 0;
        let mut j: usize = n;
        proof {
            assert(lane_bytes.subrange(j as int, n as int) =~= Seq::<u8>::empty());
        }
        while j > 0
            invariant
                j <= n,
                n <= 8,
                base + n <= 16,
                bytes@.len() == 16,
                lane_bytes == bytes@.subrange(base as int, base + n),
                acc == le_value(lane_bytes.subrange(j as int, n as int)),
                0 <= acc < 0x1_0000_0000_0000_0000,
            decreases j,
        {
            j -= 1;
            proof {
                let tail = lane_bytes.subrange(j as int, n as int);
                assert(tail.drop_first() =~= lane_bytes.subrange(j + 1, n as int));
                assert(tail[0] == bytes@[base + j]);
                lemma_le_value_bound(tail);
            }
            acc = acc * 0x100 + bytes[base + j] as i128;
        }
        proof {
            assert(lane_bytes.subrange(0, n as int) =~= lane_bytes);
            assert(base == k * s.spec_bytes() && base + n == (k + 1) * s.spec_bytes())
                by (nonlinear_arith)
                requires
                    base == k * n,
                    n == s.spec_bytes(),
            ;
        }
        out.push(wrap(acc, w));
        k += 1;
    }
    proof {
        assert(ints(out@) =~= spec_lanes(v, s));
    }
    out
}

/// The vector whose lanes are the given numbers, each wrapped to the
/// width of a lane.
pub fn from_lanes(l: &Vec<i64>, s: Shape) -> (r: v128)
    requires
        l@.len() == s.spec_count(),
    ensures
        r == spec_from_lanes(ints(l@), s),
{
    let n = s.bytes();
    let w = s.width();
    let mut out: Lane16 = [0u8;16];
    let mut k: usize = 0;
    proof {
        assert(out@.subrange(0, 0) =~= spec_lane_bytes(ints(l@), s, 0));
    }
    while k < s.count()
        invariant
            k <= s.spec_count(),
            l@.len() == s.spec_count(),
            n == s.spec_bytes(),
            w == s.spec_width(),
            n * s.spec_count() == 16,
            out@.len() == 16,
            out@.subrange(0, k * n) == spec_lane_bytes(ints(l@), s, k as int),
        decreases s.spec_count() - k,
    {
        let base: usize = k * n;
        assert(base + n <= 16 && base + n == (k + 1) * n) by (nonlinear_arith)
            requires
                base == k * n,
                k < s.spec_count(),
                n * s.spec_count() == 16,
                n >= 1,
        ;
        let ghost before = out@.subrange(0, base as int);
        let u0: i128 = unsigned(wrap(l[k] as i128, w), w);
        proof {
            lemma_wrap_fits(l@[k as int] as int, w);
            assert(u0 == to_u(l@[k as int] as int, w)) by {
                vstd::arithmetic::div_mod::lemma_mod_twice(l@[k as int] as int, w.modulus());
                let x = l@[k as int] as int;
                let m = w.modulus();
                if x % m >= w.half() {
                    vstd::arithmetic::div_mod::lemma_mod_add_multiples_vanish(x % m - m, m);
                }
            }
        }
        let mut rest: i128 = u0;
        let mut j: usize = 0;
        proof {
            assert(out@.subrange(base as int, base + j) =~= Seq::<u8>::empty());
            assert(le_bytes(u0 as int, n as nat) =~= Seq::<u8>::empty() + le_bytes(
                rest as int,
                (n - j) as nat,
            ));
        }
        while j < n
            invariant
                j <= n,
                n <= 8,
                base + n <= 16,
                out@.len() == 16,
                0 <= rest,
                out@.subrange(0, base as int) == before,
                le_bytes(u0 as int, n as nat) == out@.subrange(base as int, base + j) + le_bytes(
                    rest as int,
                    (n - j) as nat,
                ),
            decreases n - j,
        {
            let ghost prev = out@;
            let b: u8 = (rest % 0x100) as u8;
            out[base + j] = b;
            proof {
                assert(out@.subrange(0, base as int) =~= prev.subrange(0, base as int));
                assert(out@.subrange(base as int, base + j + 1) =~= prev.subrange(
                    base as int,
                    base + j,
                ).push(b));
                assert(le_bytes(rest as int, (n - j) as nat) == seq![b] + le_bytes(
                    rest as int / 0x100,
                    (n - j - 1) as nat,
                ));
                assert(prev.subrange(base as int, base + j).push(b) + le_bytes(
                    rest as int / 0x100,
                    (n - j - 1) as nat,
                ) =~= prev.subrange(base as int, base + j) + (seq![b] + le_bytes(
                    rest as int / 0x100,
                    (n - j - 1) as nat,
                )));
            }
            rest = rest / 0x100;
            j += 1;
        }
        proof {
            assert(le_bytes(rest as int, 0) =~= Seq::<u8>::empty());
            assert(out@.subrange(base as int, base + n) + Seq::<u8>::empty() =~= out@.subrange(
                base as int,
                base + n,
            ));
            assert(out@.subrange(0, base + n) =~= out@.subrange(0, base as int) + out@.subrange(
                base as int,
                base + n,
            ));
            assert(ints(l@)[k as int] == l@[k as int] as int);
        }
        k += 1;
    }
    proof {
        assert(out@.subrange(0, 16) =~= out@);
    }
    v128::new(out)
}

/// A binary operation on the lanes of two vectors.
#[derive(Debug, Clone, Copy, PartialEq, Eq, Structural)]
pub enum LaneBinOp {
    /// An integer operation that never traps, wrapped to the lane.
    Int(IBinOp),
    /// A comparison: all bits of the lane are set where it holds.
    Rel(IRelOp),
    MinS,
    MinU,
    MaxS,
    MaxU,
    /// The unsigned average, rounded up.
    AvgrU,
    AddSatS,
    AddSatU,
    SubSatS,
    SubSatU,
    /// The product of two fixed-point numbers with 15 fraction bits,
    /// rounded and saturated.
    Q15MulrSatS,
}

/// `x`, or the nearest bound if it lies outside `lo..=hi`.
pub open spec fn clamp(x: int, lo: int, hi: int) -> int {
    if x < lo {
        lo
    } else if x > hi {
        hi
    } else {
        x
    }
}

/// What a lane operation gives on two lanes of width `w`.
pub open spec fn spec_lane_bin(op: LaneBinOp, a: int, b: int, w: Width) -> int {
    let ua = to_u(a, w);
    let ub = to_u(b, w);
    match op {
        LaneBinOp::Int(o) => match spec_ibin(o, a, b, w) {
            Ok(v) => v,
            Err(_) => 0,
        },
        LaneBinOp::Rel(o) => if spec_irel(o, a, b, w) {
            -1
        } else {
            0
        },
        LaneBinOp::MinS => if a < b {
            a
        } else {
            b
        },
        LaneBinOp::MinU => if ua < ub {
            a
        } else {
            b
        },
        LaneBinOp::MaxS => if a > b {
            a
        } else {
            b
        },
        LaneBinOp::MaxU => if ua > ub {
            a
        } else {
            b
        },
        LaneBinOp::AvgrU => wrap_s((ua + ub + 1) / 2, w),
        LaneBinOp::AddSatS => clamp(a + b, -w.half(), w.half() - 1),
        LaneBinOp::AddSatU => wrap_s(clamp(ua + ub, 0, w.modulus() - 1), w),
        LaneBinOp::SubSatS => clamp(a - b, -w.half(), w.half() - 1),
        LaneBinOp::SubSatU => wrap_s(clamp(ua - ub, 0, w.modulus() - 1), w),
        LaneBinOp::Q15MulrSatS => clamp((a * b + 0x4000) / 0x8000, -w.half(), w.half() - 1),
    }
}

fn clamped(x: i128, lo: i128, hi: i128) -> (r: i128)
    ensures
        r == clamp(x as int, lo as int, hi as int),
{
    if x < lo {
        lo
    } else if x > hi {
        hi
    } else {
        x
    }
}

/// Applies a lane operation to two lanes of width `w`.
pub fn lane_bin(op: LaneBinOp, a: i64, b: i64, w: Width) -> (r: i64)
    requires
        fits(a as int, w),
        fits(b as int, w),
    ensures
        r == spec_lane_bin(op, a as int, b as int, w),
{
    let ua = unsigned(a, w);
    let ub = unsigned(b, w);
    let m = w.modulus_of();
    match op {
        LaneBinOp::Int(o) => match ibin(o, a, b, w) {
            Ok(v) => v,
            Err(_) => 0,
        },
        LaneBinOp::Rel(o) => if irel(o, a, b, w) {
            -1
        } else {
            0
        },
        LaneBinOp::MinS => if a < b {
            a
        } else {
            b
        },
        LaneBinOp::MinU => if ua < ub {
            a
        } else {
            b
        },
        LaneBinOp::MaxS => if a > b {
            a
        } else {
            b
        },
        LaneBinOp::MaxU => if ua > ub {
            a
        } else {
            b
        },
        LaneBinOp::AvgrU => wrap((ua + ub + 1) / 2, w),
        LaneBinOp::AddSatS => clamped(a as i128 + b as i128, -(m / 2), m / 2 - 1) as i64,
        LaneBinOp::AddSatU => wrap(clamped(ua + ub, 0, m - 1), w),
        LaneBinOp::SubSatS => clamped(a as i128 - b as i128, -(m / 2), m / 2 - 1) as i64,
        LaneBinOp::SubSatU => wrap(clamped(ua - ub, 0, m - 1), w),
        LaneBinOp::Q15MulrSatS => {
            assert(-0x4000_0000_0000_0000_0000_0000_0000_0000 <= (a as int) * (b as int)
                <= 0x4000_0000_0000_0000_0000_0000_0000_0000) by (nonlinear_arith)
                requires
                    -0x8000_0000_0000_0000 <= a <= 0x8000_0000_0000_0000,
                    -0x8000_0000_0000_0000 <= b <= 0x8000_0000_0000_0000,
            ;
            let rounded: i128 = a as i128 * b as i128 + 0x4000;
            let q: i128 = match rounded.checked_div_euclid(0x8000) {
                Some(q) => q,
                None => 0,
            };
            clamped(q, -(m / 2), m / 2 - 1) as i64
        },
    }
}

/// The lanes that a lane operation gives on the lanes of two vectors.
pub open spec fn spec_map2(op: LaneBinOp, a: Seq<int>, b: Seq<int>, w: Width) -> Seq<int> {
    Seq::new(a.len(), |k: int| spec_lane_bin(op, a[k], b[k], w))
}

/// What a lane operation gives on two vectors of shape `s`.
pub open spec fn spec_simd_bin(op: LaneBinOp, a: v128, b: v128, s: Shape) -> v128 {
    spec_from_lanes(spec_map2(op, spec_lanes(a, s), spec_lanes(b, s), s.spec_width()), s)
}

/// Applies a lane operation to two vectors of shape `s`.
pub fn simd_bin(op: LaneBinOp, a: v128, b: v128, s: Shape) -> (r: v128)
    ensures
        r == spec_simd_bin(op, a, b, s),
{
    let la = lanes(a, s);
    let lb = lanes(b, s);
    let w = s.width();
    let mut out: Vec<i64> = Vec::new();
    let mut k: usize = 0;
    while k < la.len()
        invariant
            k <= la@.len(),
            la@.len() == lb@.len(),
            la@.len() == s.spec_count(),
            w == s.spec_width(),
            ints(la@) == spec_lanes(a, s),
            ints(lb@) == spec_lanes(b, s),
            forall|i: int| 0 <= i < la@.len() ==> fits(#[trigger] la@[i] as int, w),
            forall|i: int| 0 <= i < lb@.len() ==> fits(#[trigger] lb@[i] as int, w),
            out@.len() == k,
            forall|i: int|
                0 <= i < k ==> (#[trigger] out@[i]) as int == spec_lane_bin(
                    op,
                    la@[i] as int,
                    lb@[i] as int,
                    w,
                ),
        decreases la@.len() - k,
    {
        out.push(lane_bin(op, la[k], lb[k], w));
        k += 1;
    }
    proof {
        assert forall|i: int| 0 <= i < la@.len() implies ints(la@)[i] == la@[i] as int by {}
        assert forall|i: int| 0 <= i < lb@.len() implies ints(lb@)[i] == lb@[i] as int by {}
        assert(ints(out@) =~= spec_map2(op, spec_lanes(a, s), spec_lanes(b, s), w));
    }
    from_lanes(&out, s)
}

/// What a unary operation gives on each lane of a vector of shape `s`.
pub open spec fn spec_simd_un(op: IUnOp, a: v128, s: Shape) -> v128 {
    spec_from_lanes(
        Seq::new(
            s.spec_count() as nat,
            |k: int| spec_iun(op, spec_lanes(a, s)[k], s.spec_width()),
        ),
        s,
    )
}

/// Applies a unary operation to each lane; the operation is `Abs`, `Neg`
/// or `Popcnt`.
pub fn simd_un(op: IUnOp, a: v128, s: Shape) -> (r: v128)
    requires
        op == IUnOp::Abs || op == IUnOp::Neg || op == IUnOp::Popcnt,
    ensures
        r == spec_simd_un(op, a, s),
{
    let la = lanes(a, s);
    let w = s.width();
    let mut out: Vec<i64> = Vec::new();
    let mut k: usize = 0;
    while k < la.len()
        invariant
            k <= la@.len(),
            la@.len() == s.spec_count(),
            w == s.spec_width(),
            op == IUnOp::Abs || op == IUnOp::Neg || op == IUnOp::Popcnt,
            ints(la@) == spec_lanes(a, s),
            forall|i: int| 0 <= i < la@.len() ==> fits(#[trigger] la@[i] as int, w),
            out@.len() == k,
            forall|i: int|
                0 <= i < k ==> (#[trigger] out@[i]) as int == spec_iun(op, la@[i] as int, w),
        decreases la@.len() - k,
    {
        out.push(iun(op, la[k], w));
        k += 1;
    }
    proof {
        assert forall|i: int| 0 <= i < la@.len() implies ints(la@)[i] == la@[i] as int by {}
        assert(ints(out@) =~= Seq::new(
            s.spec_count() as nat,
            |k: int| spec_iun(op, spec_lanes(a, s)[k], s.spec_width()),
        ));
    }
    from_lanes(&out, s)
}

/// What a shift by `count` gives on each lane of a vector of shape `s`;
/// the count is taken modulo the width of a lane.
pub open spec fn spec_simd_shift(op: IBinOp, a: v128, count: i32, s: Shape) -> v128 {
    let by = to_u(count as int, Width::W32) % s.spec_width().spec_bits();
    spec_from_lanes(
        Seq::new(
            s.spec_count() as nat,
            |k: int| spec_lane_bin(LaneBinOp::Int(op), spec_lanes(a, s)[k], by, s.spec_width()),
        ),
        s,
    )
}

/// Shifts each lane by `count`; the operation is `Shl`, `ShrS` or `ShrU`.
pub fn simd_shift(op: IBinOp, a: v128, count: i32, s: Shape) -> (r: v128)
    requires
        op == IBinOp::Shl || op == IBinOp::ShrS || op == IBinOp::ShrU,
    ensures
        r == spec_simd_shift(op, a, count, s),
{
    let la = lanes(a, s);
    let w = s.width();
    let by: i64 = (unsigned(count as i64, Width::W32) % (w.bits() as i128)) as i64;
    let mut out: Vec<i64> = Vec::new();
    let mut k: usize = 0;
    while k < la.len()
        invariant
            k <= la@.len(),
            la@.len() == s.spec_count(),
            w == s.spec_width(),
            0 <= by < w.spec_bits(),
            fits(by as int, w),
            ints(la@) == spec_lanes(a, s),
            forall|i: int| 0 <= i < la@.len() ==> fits(#[trigger] la@[i] as int, w),
            out@.len() == k,
            forall|i: int|
                0 <= i < k ==> (#[trigger] out@[i]) as int == spec_lane_bin(
                    LaneBinOp::Int(op),
                    la@[i] as int,
                    by as int,
                    w,
                ),
        decreases la@.len() - k,
    {
        out.push(lane_bin(LaneBinOp::Int(op), la[k], by, w));
        k += 1;
    }
    proof {
        assert forall|i: int| 0 <= i < la@.len() implies ints(la@)[i] == la@[i] as int by {}
        assert(ints(out@) =~= Seq::new(
            s.spec_count() as nat,
            |k: int|
                spec_lane_bin(LaneBinOp::Int(op), spec_lanes(a, s)[k], by as int, s.spec_width()),
        ));
    }
    from_lanes(&out, s)
}

/// An operation that makes the lanes of a vector out of lanes of another
/// width.
#[derive(Debug, Clone, Copy, PartialEq, Eq, Structural)]
pub enum MixOp {
    /// The lanes of two vectors, saturated to lanes of half their width;
    /// the shape is that of the result, the flag says whether the result
    /// is signed.
    Narrow(Shape, bool),
    /// The low or the high half of the lanes of a vector, each extended
    /// to twice its width as signed or as unsigned; the shape is that of
    /// the result.
    Extend(Shape, bool, bool),
    /// The products of the extended lanes of two vectors.
    ExtMul(Shape, bool, bool),
    /// The sums of neighbouring lanes, each extended first.
    ExtAdd(Shape, bool),
    /// The sums of the products of neighbouring signed 16-bit lanes.
    Dot,
    /// The bytes of the first vector that the bytes of the second select;
    /// a selector of 16 or more gives zero.
    Swizzle,
}

impl MixOp {
    /// The shape of the operands.
    pub open spec fn spec_from(self) -> Shape {
        match self {
            MixOp::Narrow(to, _) => if to == Shape::I8x16 {
                Shape::I16x8
            } else {
                Shape::I32x4
            },
            MixOp::Extend(to, _, _) => to.spec_half(),
            MixOp::ExtMul(to, _, _) => to.spec_half(),
            MixOp::ExtAdd(to, _) => to.spec_half(),
            MixOp::Dot => Shape::I16x8,
            MixOp::Swizzle => Shape::I8x16,
        }
    }

    /// The shape of the result.
    pub open spec fn spec_to(self) -> Shape {
        match self {
            MixOp::Narrow(to, _) => to,
            MixOp::Extend(to, _, _) => to,
            MixOp::ExtMul(to, _, _) => to,
            MixOp::ExtAdd(to, _) => to,
            MixOp::Dot => Shape::I32x4,
            MixOp::Swizzle => Shape::I8x16,
        }
    }

    /// Whether there is such an operation: lanes are narrowed to 8 or 16
    /// bits, and extended to 16 bits or more.
    pub open spec fn spec_sound(self) -> bool {
        match self {
            MixOp::Narrow(to, _) => to == Shape::I8x16 || to == Shape::I16x8,
            MixOp::Extend(to, _, _) => to != Shape::I8x16,
            MixOp::ExtMul(to, _, _) => to != Shape::I8x16,
            MixOp::ExtAdd(to, _) => to != Shape::I8x16,
            MixOp::Dot => true,
            MixOp::Swizzle => true,
        }
    }

    pub fn from(self) -> (r: Shape)
        ensures
            r == self.spec_from(),
    {
        match self {
            MixOp::Narrow(to, _) => if matches!(to, Shape::I8x16) {
                Shape::I16x8
            } else {
                Shape::I32x4
            },
            MixOp::Extend(to, _, _) => to.half(),
            MixOp::ExtMul(to, _, _) => to.half(),
            MixOp::ExtAdd(to, _) => to.half(),
            MixOp::Dot => Shape::I16x8,
            MixOp::Swizzle => Shape::I8x16,
        }
    }

    pub fn to(self) -> (r: Shape)
        ensures
            r == self.spec_to(),
    {
        match self {
            MixOp::Narrow(to, _) => to,
            MixOp::Extend(to, _, _) => to,
            MixOp::ExtMul(to, _, _) => to,
            MixOp::ExtAdd(to, _) => to,
            MixOp::Dot => Shape::I32x4,
            MixOp::Swizzle => Shape::I8x16,
        }
    }

    pub fn sound(self) -> (r: bool)
        ensures
            r == self.spec_sound(),
    {
        match self {
            MixOp::Narrow(to, _) => matches!(to, Shape::I8x16 | Shape::I16x8),
            MixOp::Extend(to, _, _) => !matches!(to, Shape::I8x16),
            MixOp::ExtMul(to, _, _) => !matches!(to, Shape::I8x16),
            MixOp::ExtAdd(to, _) => !matches!(to, Shape::I8x16),
            MixOp::Dot => true,
            MixOp::Swizzle => true,
        }
    }
}

/// A lane of width `w`, read as signed or as unsigned.
pub open spec fn spec_ext(x: int, w: Width, signed: bool) -> int {
    if signed {
        x
    } else {
        to_u(x, w)
    }
}

/// The lane `k` that an operation makes of the lanes `a` and `b` of its
/// operands.
pub open spec fn spec_mix_lane(op: MixOp, a: Seq<int>, b: Seq<int>, k: int) -> int {
    let w = op.spec_from().spec_width();
    match op {
        MixOp::Narrow(to, signed) => {
            let x = if k < a.len() {
                a[k]
            } else {
                b[k - a.len()]
            };
            if signed {
                clamp(x, -to.spec_width().half(), to.spec_width().half() - 1)
            } else {
                clamp(x, 0, to.spec_width().modulus() - 1)
            }
        },
        MixOp::Extend(to, high, signed) => spec_ext(
            a[k + if high {
                to.spec_count()
            } else {
                0
            }],
            w,
            signed,
        ),
        MixOp::ExtMul(to, high, signed) => {
            let i = k + if high {
                to.spec_count()
            } else {
                0
            };
            spec_ext(a[i], w, signed) * spec_ext(b[i], w, signed)
        },
        MixOp::ExtAdd(to, signed) => spec_ext(a[2 * k], w, signed) + spec_ext(
            a[2 * k + 1],
            w,
            signed,
        ),
        MixOp::Dot => a[2 * k] * b[2 * k] + a[2 * k + 1] * b[2 * k + 1],
        MixOp::Swizzle => if to_u(b[k], Width::W8) < 16 {
            a[to_u(b[k], Width::W8)]
        } else {
            0
        },
    }
}

/// What an operation gives on two vectors.
pub open spec fn spec_simd_mix(op: MixOp, a: v128, b: v128) -> v128 {
    spec_from_lanes(
        Seq::new(
            op.spec_to().spec_count() as nat,
            |k: int|
                spec_mix_lane(op, spec_lanes(a, op.spec_from()), spec_lanes(b, op.spec_from()), k),
        ),
        op.spec_to(),
    )
}

/// The numbers of a vector of wide machine integers.
pub open spec fn wide_ints(l: Seq<i128>) -> Seq<int> {
    Seq::new(l.len(), |k: int| l[k] as int)
}

/// The vector whose lanes are the given numbers, each wrapped to the
/// width of a lane.
pub fn from_wide(l: &Vec<i128>, s: Shape) -> (r: v128)
    requires
        l@.len() == s.spec_count(),
    ensures
        r == spec_from_lanes(wide_ints(l@), s),
{
    let w = s.width();
    let mut narrow: Vec<i64> = Vec::new();
    let mut k: usize = 0;
    while k < l.len()
        invariant
            k <= l@.len(),
            w == s.spec_width(),
            narrow@.len() == k,
            forall|i: int| 0 <= i < k ==> (#[trigger] narrow@[i]) as int == wrap_s(l@[i] as int, w),
        decreases l@.len() - k,
    {
        narrow.push(wrap(l[k], w));
        k += 1;
    }
    proof {
        lemma_lanes_wrapped(wide_ints(l@), ints(narrow@), s, s.spec_count());
    }
    from_lanes(&narrow, s)
}

/// Lanes give the same bytes as the lanes wrapped to the lane width.
pub proof fn lemma_lanes_wrapped(a: Seq<int>, b: Seq<int>, s: Shape, k: int)
    requires
        0 <= k <= a.len(),
        a.len() == b.len(),
        forall|i: int| 0 <= i < a.len() ==> #[trigger] b[i] == wrap_s(a[i], s.spec_width()),
    ensures
        spec_lane_bytes(a, s, k) == spec_lane_bytes(b, s, k),
    decreases k,
{
    if k > 0 {
        lemma_lanes_wrapped(a, b, s, k - 1);
        let w = s.spec_width();
        let m = w.modulus();
        let x = a[k - 1];
        assert(b[k - 1] == wrap_s(x, w));
        vstd::arithmetic::div_mod::lemma_mod_twice(x, m);
        if x % m >= w.half() {
            vstd::arithmetic::div_mod::lemma_mod_add_multiples_vanish(x % m - m, m);
        }
    }
}

fn ext(x: i64, w: Width, signed: bool) -> (r: i128)
    requires
        fits(x as int, w),
    ensures
        r == spec_ext(x as int, w, signed),
        -0x8000_0000_0000_0000 <= r < 0x1_0000_0000_0000_0000,
        w != Width::W64 ==> -0x8000_0000 <= r < 0x1_0000_0000,
{
    if signed {
        x as i128
    } else {
        unsigned(x, w)
    }
}

/// Makes one lane of the result of an operation.
fn mix_lane(op: MixOp, la: &Vec<i64>, lb: &Vec<i64>, k: usize) -> (r: i128)
    requires
        op.spec_sound(),
        la@.len() == op.spec_from().spec_count(),
        lb@.len() == op.spec_from().spec_count(),
        k < op.spec_to().spec_count(),
        forall|i: int| 0 <= i < la@.len() ==> fits(#[trigger] la@[i] as int, op.spec_from().spec_width()),
        forall|i: int| 0 <= i < lb@.len() ==> fits(#[trigger] lb@[i] as int, op.spec_from().spec_width()),
    ensures
        r == spec_mix_lane(op, ints(la@), ints(lb@), k as int),
{
    let w = op.from().width();
    match op {
        MixOp::Narrow(to, signed) => {
            let x: i128 = if k < la.len() {
                la[k] as i128
            } else {
                lb[k - la.len()] as i128
            };
            let m = to.width().modulus_of();
            if signed {
                clamped(x, -(m / 2), m / 2 - 1)
            } else {
                clamped(x, 0, m - 1)
            }
        },
        MixOp::Extend(to, high, signed) => {
            let i = k + if high {
                to.count()
            } else {
                0
            };
            ext(la[i], w, signed)
        },
        MixOp::ExtMul(to, high, signed) => {
            let i = k + if high {
                to.count()
            } else {
                0
            };
            let x = ext(la[i], w, signed);
            let y = ext(lb[i], w, signed);
            assert(-0x1_0000_0000_0000_0000 <= (x as int) * (y as int) <= 0x1_0000_0000_0000_0000)
                by (nonlinear_arith)
                requires
                    -0x8000_0000 <= x < 0x1_0000_0000,
                    -0x8000_0000 <= y < 0x1_0000_0000,
            ;
            x * y
        },
        MixOp::ExtAdd(to, signed) => ext(la[2 * k], w, signed) + ext(la[2 * k + 1], w, signed),
        MixOp::Dot => {
            let (a0, b0, a1, b1) = (
                la[2 * k] as i128,
                lb[2 * k] as i128,
                la[2 * k + 1] as i128,
                lb[2 * k + 1] as i128,
            );
            assert(-0x4000_0000 <= (a0 as int) * (b0 as int) <= 0x4000_0000 && -0x4000_0000 <= (
            a1 as int) * (b1 as int) <= 0x4000_0000) by (nonlinear_arith)
                requires
                    -0x8000 <= a0 <= 0x8000,
                    -0x8000 <= b0 <= 0x8000,
                    -0x8000 <= a1 <= 0x8000,
                    -0x8000 <= b1 <= 0x8000,
            ;
            a0 * b0 + a1 * b1
        },
        MixOp::Swizzle => {
            let i = unsigned(lb[k], Width::W8);
            if i < 16 {
                la[i as usize] as i128
            } else {
                0
            }
        },
    }
}

/// Applies a lane-mixing operation to two vectors.
pub fn simd_mix(op: MixOp, a: v128, b: v128) -> (r: v128)
    requires
        op.spec_sound(),
    ensures
        r == spec_simd_mix(op, a, b),
{
    let la = lanes(a, op.from());
    let lb = lanes(b, op.from());
    let to = op.to();
    let mut out: Vec<i128> = Vec::new();
    let mut k: usize = 0;
    while k < to.count()
        invariant
            k <= to.spec_count(),
            to == op.spec_to(),
            op.spec_sound(),
            la@.len() == op.spec_from().spec_count(),
            lb@.len() == op.spec_from().spec_count(),
            ints(la@) == spec_lanes(a, op.spec_from()),
            ints(lb@) == spec_lanes(b, op.spec_from()),
            forall|i: int|
                0 <= i < la@.len() ==> fits(#[trigger] la@[i] as int, op.spec_from().spec_width()),
            forall|i: int|
                0 <= i < lb@.len() ==> fits(#[trigger] lb@[i] as int, op.spec_from().spec_width()),
            out@.len() == k,
            forall|i: int|
                0 <= i < k ==> (#[trigger] out@[i]) as int == spec_mix_lane(
                    op,
                    ints(la@),
                    ints(lb@),
                    i,
                ),
        decreases to.spec_count() - k,
    {
        out.push(mix_lane(op, &la, &lb, k));
        k += 1;
    }
    proof {
        assert(wide_ints(out@) =~= Seq::new(
            op.spec_to().spec_count() as nat,
            |k: int|
                spec_mix_lane(op, spec_lanes(a, op.spec_from()), spec_lanes(b, op.spec_from()), k),
        ));
    }
    from_wide(&out, to)
}

/// The number whose bit `i` is set where lane `i` is negative, for the
/// first `k` lanes.
pub open spec fn spec_bitmask(l: Seq<int>, k: int) -> int
    decreases k,
{
    if k <= 0 {
        0
    } else {
        spec_bitmask(l, k - 1) + if l[k - 1] < 0 {
            super::alu::spec_pow2((k - 1) as nat)
        } else {
            0
        }
    }
}

/// Whether every lane is not zero.
pub open spec fn spec_all_true(l: Seq<int>) -> bool {
    forall|k: int| 0 <= k < l.len() ==> #[trigger] l[k] != 0
}

/// Whether every lane of a vector of shape `s` is not zero.
pub fn all_true(a: v128, s: Shape) -> (r: bool)
    ensures
        r == spec_all_true(spec_lanes(a, s)),
{
    let la = lanes(a, s);
    let mut k: usize = 0;
    while k < la.len()
        invariant
            k <= la@.len(),
            ints(la@) == spec_lanes(a, s),
            forall|i: int| 0 <= i < k ==> #[trigger] ints(la@)[i] != 0,
        decreases la@.len() - k,
    {
        if la[k] == 0 {
            assert(ints(la@)[k as int] == 0);
            return false;
        }
        assert(ints(la@)[k as int] == la@[k as int]);
        k += 1;
    }
    true
}

/// The number whose bit `i` is set where lane `i` of a vector of shape
/// `s` is negative.
pub fn bitmask(a: v128, s: Shape) -> (r: i32)
    ensures
        r == spec_bitmask(spec_lanes(a, s), s.spec_count()),
{
    let la = lanes(a, s);
    let mut acc: i32 = 0;
    let mut bit: i32 = 1;
    let mut k: usize = 0;
    while k < la.len()
        invariant
            k <= la@.len(),
            la@.len() == s.spec_count(),
            la@.len() <= 16,
            ints(la@) == spec_lanes(a, s),
            bit == super::alu::spec_pow2(k as nat),
            0 <= acc < bit,
            bit <= 0x1_0000,
            acc == spec_bitmask(ints(la@), k as int),
        decreases la@.len() - k,
    {
        proof {
            assert(ints(la@)[k as int] == la@[k as int]);
            reveal_with_fuel(super::alu::spec_pow2, 18);
        }
        if la[k] < 0 {
            acc = acc + bit;
        }
        bit = bit * 2;
        k += 1;
    }
    acc
}

} // verus!
