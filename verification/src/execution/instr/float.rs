//! The comparison of floats, computed on their bits.
//!
//! The floats that are no NaN are ordered as their bits are, once the
//! sign bit is read as a sign: the bits below the sign bit grow with the
//! magnitude, and the two zeros have the same magnitude.

use vstd::prelude::*;

use super::alu::fits;
use super::alu::to_u;
use super::alu::unsigned;
use super::alu::wrap;
use super::alu::wrap_s;
use super::alu::Width;
use super::lanes::from_lanes;
use super::lanes::ints;
use super::lanes::lanes;
use super::lanes::spec_from_lanes;
use super::lanes::spec_lanes;
use super::lanes::Shape;
use super::pure::fbit;
use super::pure::spec_fbit;
use super::pure::FBitOp;
use super::trunc_sat::spec_float_shape;
use crate::execution::value::v128;

verus! {

/// A comparison of two floats.
#[derive(Debug, Clone, Copy, PartialEq, Eq, Structural)]
pub enum FRelOp {
    Eq,
    Ne,
    Lt,
    Gt,
    Le,
    Ge,
}

/// The bits of the positive infinity of a width: every bit of the
/// exponent set, and no bit of the fraction.
pub open spec fn spec_infinity(w: Width) -> int {
    if w == Width::W32 {
        0x7f80_0000
    } else {
        0x7ff0_0000_0000_0000
    }
}

/// Whether the bits are those of a NaN: a magnitude above the infinity's.
pub open spec fn spec_is_nan(bits: int, w: Width) -> bool {
    bits % w.half() > spec_infinity(w)
}

/// The place of a float in the order of floats: the bits of its
/// magnitude, below zero where the sign bit is set.
pub open spec fn spec_place(bits: int, w: Width) -> int {
    if bits >= w.half() {
        -(bits % w.half())
    } else {
        bits % w.half()
    }
}

/// Whether a comparison holds of the floats with bits `a` and `b`. A NaN
/// is neither equal to, nor below, nor above anything.
pub open spec fn spec_frel(op: FRelOp, a: int, b: int, w: Width) -> bool {
    if spec_is_nan(a, w) || spec_is_nan(b, w) {
        op == FRelOp::Ne
    } else {
        let x = spec_place(a, w);
        let y = spec_place(b, w);
        match op {
            FRelOp::Eq => x == y,
            FRelOp::Ne => x != y,
            FRelOp::Lt => x < y,
            FRelOp::Gt => x > y,
            FRelOp::Le => x <= y,
            FRelOp::Ge => x >= y,
        }
    }
}

fn place(bits: u64, half: u64) -> (r: i128)
    requires
        half > 0,
    ensures
        r == if bits >= half {
            -(bits as int % half as int)
        } else {
            bits as int % half as int
        },
{
    if bits >= half {
        -((bits % half) as i128)
    } else {
        (bits % half) as i128
    }
}

/// Compares the floats of width `w` with the bits `a` and `b`.
pub fn frel(op: FRelOp, a: u64, b: u64, w: Width) -> (r: bool)
    requires
        w == Width::W32 || w == Width::W64,
    ensures
        r == spec_frel(op, a as int, b as int, w),
{
    let (half, infinity): (u64, u64) = match w {
        Width::W32 => (0x8000_0000, 0x7f80_0000),
        _ => (0x8000_0000_0000_0000, 0x7ff0_0000_0000_0000),
    };
    if a % half > infinity || b % half > infinity {
        matches!(op, FRelOp::Ne)
    } else {
        let x = place(a, half);
        let y = place(b, half);
        match op {
            FRelOp::Eq => x == y,
            FRelOp::Ne => x != y,
            FRelOp::Lt => x < y,
            FRelOp::Gt => x > y,
            FRelOp::Le => x <= y,
            FRelOp::Ge => x >= y,
        }
    }
}

/// What a comparison gives on each pair of floats of two vectors: a lane
/// with every bit set where it holds, and zero where it does not.
pub open spec fn spec_simd_frel(op: FRelOp, a: v128, b: v128, w: Width) -> v128 {
    let s = spec_float_shape(w);
    spec_from_lanes(
        Seq::new(
            s.spec_count() as nat,
            |k: int|
                if spec_frel(
                    op,
                    to_u(spec_lanes(a, s)[k], s.spec_width()),
                    to_u(spec_lanes(b, s)[k], s.spec_width()),
                    w,
                ) {
                    -1
                } else {
                    0
                },
        ),
        s,
    )
}

/// Compares the floats of two vectors lane by lane.
pub fn simd_frel(op: FRelOp, a: v128, b: v128, w: Width) -> (r: v128)
    requires
        w == Width::W32 || w == Width::W64,
    ensures
        r == spec_simd_frel(op, a, b, w),
{
    let s = if matches!(w, Width::W32) {
        Shape::I32x4
    } else {
        Shape::I64x2
    };
    let la = lanes(a, s);
    let lb = lanes(b, s);
    let mut out: Vec<i64> = Vec::new();
    let mut k: usize = 0;
    while k < la.len()
        invariant
            k <= la@.len(),
            w == Width::W32 || w == Width::W64,
            s == spec_float_shape(w),
            s.spec_width() == w,
            la@.len() == s.spec_count(),
            lb@.len() == s.spec_count(),
            ints(la@) == spec_lanes(a, s),
            ints(lb@) == spec_lanes(b, s),
            forall|i: int| 0 <= i < la@.len() ==> fits(#[trigger] la@[i] as int, w),
            forall|i: int| 0 <= i < lb@.len() ==> fits(#[trigger] lb@[i] as int, w),
            out@.len() == k,
            forall|i: int|
                0 <= i < k ==> (#[trigger] out@[i]) as int == if spec_frel(
                    op,
                    to_u(la@[i] as int, w),
                    to_u(lb@[i] as int, w),
                    w,
                ) {
                    -1int
                } else {
                    0
                },
        decreases la@.len() - k,
    {
        let x = unsigned(la[k], w) as u64;
        let y = unsigned(lb[k], w) as u64;
        if frel(op, x, y, w) {
            out.push(-1);
        } else {
            out.push(0);
        }
        k += 1;
    }
    proof {
        assert forall|i: int| 0 <= i < la@.len() implies ints(la@)[i] == la@[i] as int by {}
        assert forall|i: int| 0 <= i < lb@.len() implies ints(lb@)[i] == lb@[i] as int by {}
        assert(ints(out@) =~= Seq::new(
            s.spec_count() as nat,
            |k: int|
                if spec_frel(
                    op,
                    to_u(spec_lanes(a, s)[k], s.spec_width()),
                    to_u(spec_lanes(b, s)[k], s.spec_width()),
                    w,
                ) {
                    -1
                } else {
                    0
                },
        ));
    }
    from_lanes(&out, s)
}

/// What clearing or flipping the sign bit gives on each float of a vector.
pub open spec fn spec_simd_fbit(op: FBitOp, a: v128, w: Width) -> v128 {
    let s = spec_float_shape(w);
    spec_from_lanes(
        Seq::new(
            s.spec_count() as nat,
            |k: int| wrap_s(spec_fbit(op, to_u(spec_lanes(a, s)[k], s.spec_width()), 0, w), w),
        ),
        s,
    )
}

/// Clears or flips the sign bit of each float of a vector.
pub fn simd_fbit(op: FBitOp, a: v128, w: Width) -> (r: v128)
    requires
        w == Width::W32 || w == Width::W64,
        op == FBitOp::Abs || op == FBitOp::Neg,
    ensures
        r == spec_simd_fbit(op, a, w),
{
    let s = if matches!(w, Width::W32) {
        Shape::I32x4
    } else {
        Shape::I64x2
    };
    let la = lanes(a, s);
    let mut out: Vec<i64> = Vec::new();
    let mut k: usize = 0;
    while k < la.len()
        invariant
            k <= la@.len(),
            w == Width::W32 || w == Width::W64,
            op == FBitOp::Abs || op == FBitOp::Neg,
            s == spec_float_shape(w),
            s.spec_width() == w,
            la@.len() == s.spec_count(),
            ints(la@) == spec_lanes(a, s),
            forall|i: int| 0 <= i < la@.len() ==> fits(#[trigger] la@[i] as int, w),
            out@.len() == k,
            forall|i: int|
                0 <= i < k ==> (#[trigger] out@[i]) as int == wrap_s(
                    spec_fbit(op, to_u(la@[i] as int, w), 0, w),
                    w,
                ),
        decreases la@.len() - k,
    {
        let x = unsigned(la[k], w) as u64;
        out.push(wrap(fbit(op, x, 0, w) as i128, w));
        k += 1;
    }
    proof {
        assert forall|i: int| 0 <= i < la@.len() implies ints(la@)[i] == la@[i] as int by {}
        assert(ints(out@) =~= Seq::new(
            s.spec_count() as nat,
            |k: int| wrap_s(spec_fbit(op, to_u(spec_lanes(a, s)[k], s.spec_width()), 0, w), w),
        ));
    }
    from_lanes(&out, s)
}

/// A float that is no NaN is equal to itself, and the two zeros are
/// equal; a NaN is not equal to itself.
pub proof fn lemma_float_equality(a: int, w: Width)
    requires
        0 <= a < w.modulus(),
    ensures
        spec_frel(FRelOp::Eq, a, a, w) == !spec_is_nan(a, w),
        spec_frel(FRelOp::Eq, 0, w.half(), w),
        spec_frel(FRelOp::Ne, a, a, w) == spec_is_nan(a, w),
{
}

} // verus!
