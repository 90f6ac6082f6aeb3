//! Truncation of a float to an integer, computed on the float's bits.
//!
//! A float is held as the bits of its IEEE 754 encoding: a sign bit, a
//! biased exponent and a fraction. Its whole part is found from those three
//! by integer arithmetic alone.

use vstd::prelude::*;

use super::alu::fits;
use super::alu::lemma_pow2_64;
use super::alu::lemma_pow2_positive;
use super::alu::pow2;
use super::alu::spec_pow2;
use super::alu::to_u;
use super::alu::unsigned;
use super::alu::Width;
use super::lanes::from_lanes;
use super::lanes::ints;
use super::lanes::lanes;
use super::lanes::spec_from_lanes;
use super::lanes::spec_lanes;
use super::lanes::Shape;
use crate::execution::errors::Trap;
use crate::execution::value::spec_is_nan32;
use crate::execution::value::spec_is_nan64;
use crate::execution::value::v128;

verus! {

/// The width of the integer that a truncation gives.
#[derive(Debug, Clone, Copy, PartialEq, Eq, Structural)]
pub enum TruncSize {
    N32,
    N64,
}

impl TruncSize {
    pub open spec fn spec_u_max(self) -> int {
        match self {
            TruncSize::N32 => 0xffff_ffff,
            TruncSize::N64 => 0xffff_ffff_ffff_ffff,
        }
    }

    pub open spec fn spec_i_min(self) -> int {
        match self {
            TruncSize::N32 => -0x8000_0000,
            TruncSize::N64 => -0x8000_0000_0000_0000,
        }
    }

    pub open spec fn spec_i_max(self) -> int {
        match self {
            TruncSize::N32 => 0x7fff_ffff,
            TruncSize::N64 => 0x7fff_ffff_ffff_ffff,
        }
    }

    /// The least number of the width, read as signed or as unsigned.
    pub open spec fn spec_least(self, signed: bool) -> int {
        if signed {
            self.spec_i_min()
        } else {
            0
        }
    }

    /// The greatest number of the width, read as signed or as unsigned.
    pub open spec fn spec_greatest(self, signed: bool) -> int {
        if signed {
            self.spec_i_max()
        } else {
            self.spec_u_max()
        }
    }

    pub open spec fn spec_width(self) -> Width {
        match self {
            TruncSize::N32 => Width::W32,
            TruncSize::N64 => Width::W64,
        }
    }

    /// The greatest unsigned number of the width.
    pub fn get_u_max(&self) -> (r: u64)
        ensures
            r == self.spec_u_max(),
    {
        match self {
            TruncSize::N32 => 0xffff_ffff,
            TruncSize::N64 => 0xffff_ffff_ffff_ffff,
        }
    }

    /// The least signed number of the width.
    pub fn get_i_min(&self) -> (r: i64)
        ensures
            r == self.spec_i_min(),
    {
        match self {
            TruncSize::N32 => -0x8000_0000,
            TruncSize::N64 => -0x8000_0000_0000_0000,
        }
    }

    /// The greatest signed number of the width.
    pub fn get_i_max(&self) -> (r: i64)
        ensures
            r == self.spec_i_max(),
    {
        match self {
            TruncSize::N32 => 0x7fff_ffff,
            TruncSize::N64 => 0x7fff_ffff_ffff_ffff,
        }
    }

    pub fn width(&self) -> (r: Width)
        ensures
            r == self.spec_width(),
    {
        match self {
            TruncSize::N32 => Width::W32,
            TruncSize::N64 => Width::W64,
        }
    }
}

/// Two to the power of the number of fraction bits of a float: 23 bits in
/// single precision, 52 in double.
pub open spec fn spec_fraction_unit(w: Width) -> int {
    if w == Width::W32 {
        0x80_0000
    } else {
        0x10_0000_0000_0000
    }
}

/// The exponent field that marks an infinity or a NaN.
pub open spec fn spec_top_exponent(w: Width) -> int {
    if w == Width::W32 {
        255
    } else {
        2047
    }
}

/// The exponent field of a float whose fraction counts ones: the bias plus
/// the number of fraction bits.
pub open spec fn spec_unit_exponent(w: Width) -> int {
    if w == Width::W32 {
        150
    } else {
        1075
    }
}

/// The exponent field of the bits of a float.
pub open spec fn spec_exponent(w: Width, bits: int) -> int {
    (bits / spec_fraction_unit(w)) % (spec_top_exponent(w) + 1)
}

/// The fraction field of the bits of a float.
pub open spec fn spec_fraction(w: Width, bits: int) -> int {
    bits % spec_fraction_unit(w)
}

/// Whether the sign bit is set.
pub open spec fn spec_negative(w: Width, bits: int) -> bool {
    (bits / spec_fraction_unit(w) / (spec_top_exponent(w) + 1)) % 2 == 1
}

/// The whole part of `sig * 2^exp`, for `sig` that is not negative.
pub open spec fn spec_whole(sig: int, exp: int) -> int {
    if exp >= 0 {
        sig * spec_pow2(exp as nat)
    } else {
        sig / spec_pow2((-exp) as nat)
    }
}

/// What a truncation has to know of a float.
pub enum Real {
    Nan,
    /// An infinity, and whether it is the negative one.
    Infinite(bool),
    /// A number: whether its sign bit is set, and the whole part of its
    /// magnitude.
    Finite(bool, int),
}

/// The float that the bits stand for. A float with exponent field zero has
/// no hidden one before its fraction.
pub open spec fn spec_real(w: Width, bits: int) -> Real {
    let e = spec_exponent(w, bits);
    let m = spec_fraction(w, bits);
    let negative = spec_negative(w, bits);
    if e == spec_top_exponent(w) {
        if m != 0 {
            Real::Nan
        } else {
            Real::Infinite(negative)
        }
    } else if e == 0 {
        Real::Finite(negative, spec_whole(m, 1 - spec_unit_exponent(w)))
    } else {
        Real::Finite(negative, spec_whole(spec_fraction_unit(w) + m, e - spec_unit_exponent(w)))
    }
}

/// The float rounded towards zero, where it is a number.
pub open spec fn spec_rounded(r: Real) -> Option<int> {
    match r {
        Real::Finite(negative, whole) => Some(
            if negative {
                -whole
            } else {
                whole
            },
        ),
        _ => None,
    }
}

/// The trapping truncation: a NaN cannot be converted, and an infinity or
/// a number whose whole part is outside the integer's range overflows.
pub open spec fn spec_trunc(w: Width, bits: int, n: TruncSize, signed: bool) -> Result<int, Trap> {
    match spec_real(w, bits) {
        Real::Nan => Err(Trap::InvalidConversionToInteger),
        Real::Infinite(_) => Err(Trap::IntegerOverflow),
        Real::Finite(negative, whole) => {
            let v = if negative {
                -whole
            } else {
                whole
            };
            if n.spec_least(signed) <= v <= n.spec_greatest(signed) {
                Ok(v)
            } else {
                Err(Trap::IntegerOverflow)
            }
        },
    }
}

/// The saturating truncation: zero for a NaN, else the whole part, or the
/// end of the integer's range that is nearest to it.
pub open spec fn spec_trunc_sat(w: Width, bits: int, n: TruncSize, signed: bool) -> int {
    let lo = n.spec_least(signed);
    let hi = n.spec_greatest(signed);
    match spec_real(w, bits) {
        Real::Nan => 0,
        Real::Infinite(negative) => if negative {
            lo
        } else {
            hi
        },
        Real::Finite(negative, whole) => {
            let v = if negative {
                -whole
            } else {
                whole
            };
            if v < lo {
                lo
            } else if v > hi {
                hi
            } else {
                v
            }
        },
    }
}

pub proof fn lemma_pow2_monotonic(a: nat, b: nat)
    requires
        a <= b,
    ensures
        spec_pow2(a) <= spec_pow2(b),
    decreases b,
{
    lemma_pow2_positive(a);
    if a < b {
        lemma_pow2_monotonic(a, (b - 1) as nat);
    }
}

/// A float as the machine holds it during a truncation: the magnitude is
/// cut off at two to the power of 64.
enum Class {
    Nan,
    Infinite(bool),
    Finite(bool, u128),
}

spec fn agrees(c: Class, r: Real) -> bool {
    match (c, r) {
        (Class::Nan, Real::Nan) => true,
        (Class::Infinite(a), Real::Infinite(b)) => a == b,
        (Class::Finite(a, mag), Real::Finite(b, whole)) => a == b && 0 <= whole && mag == if whole
            >= 0x1_0000_0000_0000_0000 {
            0x1_0000_0000_0000_0000
        } else {
            whole
        },
        _ => false,
    }
}

/// The whole part of `sig * 2^k`, or of `sig / 2^k` where `up` is false,
/// cut off at two to the power of 64.
fn whole(sig: u64, up: bool, k: u64) -> (r: u128)
    requires
        sig < 0x20_0000_0000_0000,
    ensures
        0 <= spec_whole(
            sig as int,
            if up {
                k as int
            } else {
                -(k as int)
            },
        ),
        r == if spec_whole(
            sig as int,
            if up {
                k as int
            } else {
                -(k as int)
            },
        ) >= 0x1_0000_0000_0000_0000 {
            0x1_0000_0000_0000_0000
        } else {
            spec_whole(
                sig as int,
                if up {
                    k as int
                } else {
                    -(k as int)
                },
            )
        },
{
    proof {
        lemma_pow2_64();
        lemma_pow2_positive(k as nat);
    }
    if k >= 64 {
        proof {
            lemma_pow2_monotonic(64, k as nat);
        }
        if up && sig != 0 {
            assert(sig * spec_pow2(k as nat) >= 0x1_0000_0000_0000_0000) by (nonlinear_arith)
                requires
                    sig >= 1,
                    spec_pow2(k as nat) >= 0x1_0000_0000_0000_0000,
            ;
            0x1_0000_0000_0000_0000
        } else {
            proof {
                if up {
                    assert(sig * spec_pow2(k as nat) == 0) by (nonlinear_arith)
                        requires
                            sig == 0,
                    ;
                } else {
                    vstd::arithmetic::div_mod::lemma_basic_div(
                        sig as int,
                        spec_pow2(k as nat),
                    );
                }
            }
            0
        }
    } else {
        let p: i128 = pow2(k as u32);
        if up {
            assert(0 <= sig * p <= 0x20_0000_0000_0000 * 0x8000_0000_0000_0000)
                by (nonlinear_arith)
                requires
                    0 <= sig < 0x20_0000_0000_0000,
                    1 <= p <= 0x8000_0000_0000_0000,
            ;
            let prod: u128 = (sig as u128) * (p as u128);
            if prod >= 0x1_0000_0000_0000_0000 {
                0x1_0000_0000_0000_0000
            } else {
                prod
            }
        } else {
            assert(0 <= (sig as int) / (p as int) <= sig) by (nonlinear_arith)
                requires
                    sig >= 0,
                    p >= 1,
            ;
            (sig as u128) / (p as u128)
        }
    }
}

/// Reads a float from its bits.
fn classify(w: Width, bits: u64) -> (r: Class)
    ensures
        agrees(r, spec_real(w, bits as int)),
{
    let single = matches!(w, Width::W32);
    let unit: u64 = if single {
        0x80_0000
    } else {
        0x10_0000_0000_0000
    };
    let top: u64 = if single {
        255
    } else {
        2047
    };
    let one: u64 = if single {
        150
    } else {
        1075
    };
    let e: u64 = (bits / unit) % (top + 1);
    let m: u64 = bits % unit;
    let negative = (bits / unit / (top + 1)) % 2 == 1;
    if e == top {
        if m != 0 {
            Class::Nan
        } else {
            Class::Infinite(negative)
        }
    } else if e == 0 {
        Class::Finite(negative, whole(m, false, one - 1))
    } else if e >= one {
        Class::Finite(negative, whole(unit + m, true, e - one))
    } else {
        Class::Finite(negative, whole(unit + m, false, one - e))
    }
}

/// The trapping truncation of the float with the given bits.
pub fn trunc(w: Width, bits: u64, n: TruncSize, signed: bool) -> (r: Result<i128, Trap>)
    ensures
        r matches Ok(v) ==> spec_trunc(w, bits as int, n, signed) == Ok::<int, Trap>(v as int),
        r matches Err(t) ==> spec_trunc(w, bits as int, n, signed) == Err::<int, Trap>(t),
{
    let lo: i128 = if signed {
        n.get_i_min() as i128
    } else {
        0
    };
    let hi: i128 = if signed {
        n.get_i_max() as i128
    } else {
        n.get_u_max() as i128
    };
    match classify(w, bits) {
        Class::Nan => Err(Trap::InvalidConversionToInteger),
        Class::Infinite(_) => Err(Trap::IntegerOverflow),
        Class::Finite(negative, mag) => {
            let v: i128 = if negative {
                -(mag as i128)
            } else {
                mag as i128
            };
            if lo <= v && v <= hi {
                Ok(v)
            } else {
                Err(Trap::IntegerOverflow)
            }
        },
    }
}

/// The saturating truncation of the float with the given bits.
pub fn trunc_sat(w: Width, bits: u64, n: TruncSize, signed: bool) -> (r: i128)
    ensures
        r == spec_trunc_sat(w, bits as int, n, signed),
        n.spec_least(signed) <= r <= n.spec_greatest(signed),
{
    let lo: i128 = if signed {
        n.get_i_min() as i128
    } else {
        0
    };
    let hi: i128 = if signed {
        n.get_i_max() as i128
    } else {
        n.get_u_max() as i128
    };
    match classify(w, bits) {
        Class::Nan => 0,
        Class::Infinite(negative) => if negative {
            lo
        } else {
            hi
        },
        Class::Finite(negative, mag) => {
            let v: i128 = if negative {
                -(mag as i128)
            } else {
                mag as i128
            };
            if v < lo {
                lo
            } else if v > hi {
                hi
            } else {
                v
            }
        },
    }
}

/// The saturating truncation of a double, given by its bits, to an unsigned
/// integer.
pub fn trunc_sat_u(num: u64, n: TruncSize) -> (r: u64)
    ensures
        r == spec_trunc_sat(Width::W64, num as int, n, false),
{
    trunc_sat(Width::W64, num, n, false) as u64
}

/// The saturating truncation of a double, given by its bits, to a signed
/// integer.
pub fn trunc_sat_s(num: u64, n: TruncSize) -> (r: i64)
    ensures
        r == spec_trunc_sat(Width::W64, num as int, n, true),
{
    trunc_sat(Width::W64, num, n, true) as i64
}

/// The shape of a vector of floats of the given width.
pub open spec fn spec_float_shape(w: Width) -> Shape {
    if w == Width::W32 {
        Shape::I32x4
    } else {
        Shape::I64x2
    }
}

/// The saturating truncation of each float of a vector to a 32-bit
/// integer. Four single floats give four lanes; two doubles give the two
/// low lanes, and the two high lanes are zero.
pub open spec fn spec_simd_trunc_sat(w: Width, a: v128, signed: bool) -> v128 {
    let s = spec_float_shape(w);
    spec_from_lanes(
        Seq::new(
            4,
            |k: int|
                if k < s.spec_count() {
                    spec_trunc_sat(
                        w,
                        to_u(spec_lanes(a, s)[k], s.spec_width()),
                        TruncSize::N32,
                        signed,
                    )
                } else {
                    0
                },
        ),
        Shape::I32x4,
    )
}

/// Truncates each float of a vector to a 32-bit integer, saturating.
pub fn simd_trunc_sat(w: Width, a: v128, signed: bool) -> (r: v128)
    ensures
        r == spec_simd_trunc_sat(w, a, signed),
{
    let s = if matches!(w, Width::W32) {
        Shape::I32x4
    } else {
        Shape::I64x2
    };
    let la = lanes(a, s);
    let lw = s.width();
    let mut out: Vec<i64> = Vec::new();
    let mut k: usize = 0;
    while k < 4
        invariant
            k <= 4,
            s == spec_float_shape(w),
            lw == s.spec_width(),
            la@.len() == s.spec_count(),
            ints(la@) == spec_lanes(a, s),
            forall|i: int| 0 <= i < la@.len() ==> fits(#[trigger] la@[i] as int, lw),
            out@.len() == k,
            forall|i: int|
                0 <= i < k ==> (#[trigger] out@[i]) as int == if i < s.spec_count() {
                    spec_trunc_sat(w, to_u(la@[i] as int, lw), TruncSize::N32, signed)
                } else {
                    0
                },
        decreases 4 - k,
    {
        if k < la.len() {
            let bits = unsigned(la[k], lw) as u64;
            out.push(trunc_sat(w, bits, TruncSize::N32, signed) as i64);
        } else {
            out.push(0);
        }
        k += 1;
    }
    proof {
        assert forall|i: int| 0 <= i < la@.len() implies ints(la@)[i] == la@[i] as int by {}
        assert(ints(out@) =~= Seq::new(
            4,
            |k: int|
                if k < s.spec_count() {
                    spec_trunc_sat(
                        w,
                        to_u(spec_lanes(a, s)[k], s.spec_width()),
                        TruncSize::N32,
                        signed,
                    )
                } else {
                    0
                },
        ));
    }
    from_lanes(&out, Shape::I32x4)
}

/// The bits that are a NaN are read as one.
pub proof fn lemma_nan_is_read(single: u32, double: u64)
    ensures
        spec_is_nan32(single) <==> spec_real(Width::W32, single as int) is Nan,
        spec_is_nan64(double) <==> spec_real(Width::W64, double as int) is Nan,
{
    let d = double as int;
    let hi = d / 0x10_0000_0000_0000;
    let low = d % 0x10_0000_0000_0000;
    assert(d == hi * 0x10_0000_0000_0000 + low);
    assert(hi == (hi / 2048) * 2048 + hi % 2048);
    assert(0 <= hi / 2048 <= 1);
    assert(d % 0x8000_0000_0000_0000 == (hi % 2048) * 0x10_0000_0000_0000 + low);
}

/// A NaN cannot be truncated to an integer of any width, signed or not,
/// and saturates to zero.
pub proof fn lemma_trunc_of_nan(w: Width, bits: int, n: TruncSize, signed: bool)
    requires
        spec_real(w, bits) is Nan,
    ensures
        spec_trunc(w, bits, n, signed) == Err::<int, Trap>(Trap::InvalidConversionToInteger),
        spec_trunc_sat(w, bits, n, signed) == 0,
{
}

/// The result of a truncation is in the range of its integer, and is what
/// the saturating truncation gives.
pub proof fn lemma_trunc_in_range(w: Width, bits: int, n: TruncSize, signed: bool)
    ensures
        n.spec_least(signed) <= spec_trunc_sat(w, bits, n, signed) <= n.spec_greatest(signed),
        spec_trunc(w, bits, n, signed) matches Ok(v) ==> v == spec_trunc_sat(w, bits, n, signed),
{
}

} // verus!
