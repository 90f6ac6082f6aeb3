//! Integer arithmetic of the machine, for every width at once.
//!
//! A number of 8, 16, 32 or 64 bits is carried as the signed integer that
//! its bits stand for in two's complement. Every operation is stated over
//! the mathematical integers and its result wrapped back to the width.

use vstd::prelude::*;

use crate::execution::errors::Trap;

verus! {

/// The width of an integer in bits.
#[derive(Debug, Clone, Copy, PartialEq, Eq, Structural)]
pub enum Width {
    W8,
    W16,
    W32,
    W64,
}

impl Width {
    pub open spec fn spec_bits(self) -> int {
        match self {
            Width::W8 => 8,
            Width::W16 => 16,
            Width::W32 => 32,
            Width::W64 => 64,
        }
    }

    /// Two to the power of the width.
    pub open spec fn modulus(self) -> int {
        match self {
            Width::W8 => 0x100,
            Width::W16 => 0x1_0000,
            Width::W32 => 0x1_0000_0000,
            Width::W64 => 0x1_0000_0000_0000_0000,
        }
    }

    /// Half the modulus: the first number that no longer fits as signed.
    pub open spec fn half(self) -> int {
        match self {
            Width::W8 => 0x80,
            Width::W16 => 0x8000,
            Width::W32 => 0x8000_0000,
            Width::W64 => 0x8000_0000_0000_0000,
        }
    }

    pub fn bits(self) -> (r: u32)
        ensures
            r == self.spec_bits(),
    {
        match self {
            Width::W8 => 8,
            Width::W16 => 16,
            Width::W32 => 32,
            Width::W64 => 64,
        }
    }

    pub fn modulus_of(self) -> (r: i128)
        ensures
            r == self.modulus(),
    {
        match self {
            Width::W8 => 0x100,
            Width::W16 => 0x1_0000,
            Width::W32 => 0x1_0000_0000,
            Width::W64 => 0x1_0000_0000_0000_0000,
        }
    }
}

/// Whether `x` is a signed number of width `w`.
pub open spec fn fits(x: int, w: Width) -> bool {
    -w.half() <= x < w.half()
}

/// The unsigned number that has the bits of `x`.
pub open spec fn to_u(x: int, w: Width) -> int {
    x % w.modulus()
}

/// The signed number of width `w` that has the low bits of `x`.
pub open spec fn wrap_s(x: int, w: Width) -> int {
    if x % w.modulus() >= w.half() {
        x % w.modulus() - w.modulus()
    } else {
        x % w.modulus()
    }
}

/// Two to the power of `k`.
pub open spec fn spec_pow2(k: nat) -> int
    decreases k,
{
    if k == 0 {
        1
    } else {
        2 * spec_pow2((k - 1) as nat)
    }
}

/// The quotient rounded towards zero.
pub open spec fn trunc_div(a: int, b: int) -> int {
    if a >= 0 {
        if b > 0 {
            a / b
        } else {
            -(a / (-b))
        }
    } else {
        if b > 0 {
            -((-a) / b)
        } else {
            (-a) / (-b)
        }
    }
}

/// The remainder that goes with the quotient rounded towards zero; it has
/// the sign of the dividend.
pub open spec fn trunc_rem(a: int, b: int) -> int {
    a - b * trunc_div(a, b)
}

/// The number of one bits of a natural number.
pub open spec fn spec_popcount(x: int) -> int
    decreases x,
{
    if x <= 0 {
        0
    } else {
        x % 2 + spec_popcount(x / 2)
    }
}

/// The number of bits needed to write a natural number.
pub open spec fn spec_bit_length(x: int) -> int
    decreases x,
{
    if x <= 0 {
        0
    } else {
        1 + spec_bit_length(x / 2)
    }
}

/// The number of zero bits below the lowest one bit of a positive number.
pub open spec fn spec_low_zeros(x: int) -> int
    decreases x,
{
    if x <= 0 || x % 2 == 1 {
        0
    } else {
        1 + spec_low_zeros(x / 2)
    }
}

/// A binary operation on integers.
#[derive(Debug, Clone, Copy, PartialEq, Eq, Structural)]
pub enum IBinOp {
    Add,
    Sub,
    Mul,
    DivS,
    DivU,
    RemS,
    RemU,
    And,
    Or,
    Xor,
    Shl,
    ShrS,
    ShrU,
    Rotl,
    Rotr,
}

/// A comparison of integers.
#[derive(Debug, Clone, Copy, PartialEq, Eq, Structural)]
pub enum IRelOp {
    Eq,
    Ne,
    LtS,
    LtU,
    GtS,
    GtU,
    LeS,
    LeU,
    GeS,
    GeU,
}

/// A unary operation on integers.
#[derive(Debug, Clone, Copy, PartialEq, Eq, Structural)]
pub enum IUnOp {
    Clz,
    Ctz,
    Popcnt,
    Extend8S,
    Extend16S,
    Extend32S,
    Abs,
    Neg,
}

/// What a binary operation gives on two numbers of width `w`. Division
/// and remainder trap on a zero divisor, and signed division also where
/// the quotient does not fit. Shifts and rotations take their count
/// modulo the width.
pub open spec fn spec_ibin(op: IBinOp, a: int, b: int, w: Width) -> Result<int, Trap> {
    let count = (to_u(b, w) % w.spec_bits()) as nat;
    match op {
        IBinOp::Add => Ok(wrap_s(a + b, w)),
        IBinOp::Sub => Ok(wrap_s(a - b, w)),
        IBinOp::Mul => Ok(wrap_s(a * b, w)),
        IBinOp::DivS => if b == 0 {
            Err(Trap::DivZero)
        } else if a == -w.half() && b == -1 {
            Err(Trap::IntegerOverflow)
        } else {
            Ok(trunc_div(a, b))
        },
        IBinOp::DivU => if b == 0 {
            Err(Trap::DivZero)
        } else {
            Ok(wrap_s(to_u(a, w) / to_u(b, w), w))
        },
        IBinOp::RemS => if b == 0 {
            Err(Trap::DivZero)
        } else {
            Ok(trunc_rem(a, b))
        },
        IBinOp::RemU => if b == 0 {
            Err(Trap::DivZero)
        } else {
            Ok(wrap_s(to_u(a, w) % to_u(b, w), w))
        },
        IBinOp::And => Ok(((a as i64) & (b as i64)) as int),
        IBinOp::Or => Ok(((a as i64) | (b as i64)) as int),
        IBinOp::Xor => Ok(((a as i64) ^ (b as i64)) as int),
        IBinOp::Shl => Ok(wrap_s(a * spec_pow2(count), w)),
        IBinOp::ShrS => Ok(a / spec_pow2(count)),
        IBinOp::ShrU => Ok(wrap_s(to_u(a, w) / spec_pow2(count), w)),
        IBinOp::Rotl => Ok(
            wrap_s(
                to_u(a, w) * spec_pow2(count) + to_u(a, w) / spec_pow2(
                    (w.spec_bits() - count) as nat,
                ),
                w,
            ),
        ),
        IBinOp::Rotr => Ok(
            wrap_s(
                to_u(a, w) / spec_pow2(count) + to_u(a, w) * spec_pow2(
                    (w.spec_bits() - count) as nat,
                ),
                w,
            ),
        ),
    }
}

/// What a comparison gives on two numbers of width `w`.
pub open spec fn spec_irel(op: IRelOp, a: int, b: int, w: Width) -> bool {
    match op {
        IRelOp::Eq => a == b,
        IRelOp::Ne => a != b,
        IRelOp::LtS => a < b,
        IRelOp::LtU => to_u(a, w) < to_u(b, w),
        IRelOp::GtS => a > b,
        IRelOp::GtU => to_u(a, w) > to_u(b, w),
        IRelOp::LeS => a <= b,
        IRelOp::LeU => to_u(a, w) <= to_u(b, w),
        IRelOp::GeS => a >= b,
        IRelOp::GeU => to_u(a, w) >= to_u(b, w),
    }
}

/// What a unary operation gives on a number of width `w`.
pub open spec fn spec_iun(op: IUnOp, a: int, w: Width) -> int {
    match op {
        IUnOp::Clz => w.spec_bits() - spec_bit_length(to_u(a, w)),
        IUnOp::Ctz => if a == 0 {
            w.spec_bits()
        } else {
            spec_low_zeros(to_u(a, w))
        },
        IUnOp::Popcnt => spec_popcount(to_u(a, w)),
        IUnOp::Extend8S => wrap_s(a, Width::W8),
        IUnOp::Extend16S => wrap_s(a, Width::W16),
        IUnOp::Extend32S => wrap_s(a, Width::W32),
        IUnOp::Abs => wrap_s(
            if a < 0 {
                -a
            } else {
                a
            },
            w,
        ),
        IUnOp::Neg => wrap_s(-a, w),
    }
}

/// Wrapping gives a number of the width.
pub proof fn lemma_wrap_fits(x: int, w: Width)
    ensures
        fits(wrap_s(x, w), w),
        0 <= to_u(x, w) < w.modulus(),
        fits(x, w) ==> wrap_s(x, w) == x,
        0 <= x < w.modulus() ==> to_u(x, w) == x,
        fits(x, w) && x < 0 ==> to_u(x, w) == x + w.modulus(),
{
}

pub fn wrap(x: i128, w: Width) -> (r: i64)
    ensures
        r == wrap_s(x as int, w),
        fits(r as int, w),
{
    let m = w.modulus_of();
    let u: i128 = match x.checked_rem_euclid(m) {
        Some(u) => u,
        None => 0,
    };
    if u >= m / 2 {
        (u - m) as i64
    } else {
        u as i64
    }
}

/// The unsigned number that has the bits of `x`.
pub fn unsigned(x: i64, w: Width) -> (r: i128)
    requires
        fits(x as int, w),
    ensures
        r == to_u(x as int, w),
        0 <= r < w.modulus(),
{
    if x < 0 {
        x as i128 + w.modulus_of()
    } else {
        x as i128
    }
}

pub fn pow2(k: u32) -> (r: i128)
    requires
        k <= 64,
    ensures
        r == spec_pow2(k as nat),
        1 <= r <= 0x1_0000_0000_0000_0000,
        k < 64 ==> r <= 0x8000_0000_0000_0000,
{
    let mut p: i128 = 1;
    let mut i: u32 = 0;
    proof {
        lemma_pow2_64();
    }
    while i < k
        invariant
            i <= k,
            k <= 64,
            p == spec_pow2(i as nat),
            1 <= p,
            p * spec_pow2((64 - i) as nat) == 0x1_0000_0000_0000_0000,
        decreases k - i,
    {
        proof {
            assert(spec_pow2((64 - i) as nat) == 2 * spec_pow2((64 - i - 1) as nat));
            assert(p * (2 * spec_pow2((64 - i - 1) as nat)) == (2 * p) * spec_pow2(
                (64 - i - 1) as nat,
            )) by (nonlinear_arith);
            lemma_pow2_positive((64 - i - 1) as nat);
            assert(2 * p <= (2 * p) * spec_pow2((64 - i - 1) as nat)) by (nonlinear_arith)
                requires
                    p >= 1,
                    spec_pow2((64 - i - 1) as nat) >= 1,
            ;
        }
        p = p * 2;
        i += 1;
    }
    proof {
        lemma_pow2_positive((64 - k) as nat);
        assert(p <= p * spec_pow2((64 - k) as nat)) by (nonlinear_arith)
            requires
                p >= 1,
                spec_pow2((64 - k) as nat) >= 1,
        ;
        if k < 64 {
            lemma_pow2_positive((64 - k - 1) as nat);
            let q = spec_pow2((64 - k - 1) as nat);
            assert(spec_pow2((64 - k) as nat) == 2 * q);
            assert(2 * p <= p * (2 * q)) by (nonlinear_arith)
                requires
                    p >= 1,
                    q >= 1,
            ;
        }
    }
    p
}

pub proof fn lemma_pow2_positive(k: nat)
    ensures
        spec_pow2(k) >= 1,
    decreases k,
{
    if k > 0 {
        lemma_pow2_positive((k - 1) as nat);
    }
}

pub proof fn lemma_pow2_64()
    ensures
        spec_pow2(64) == 0x1_0000_0000_0000_0000,
        spec_pow2(0) == 1,
{
    reveal_with_fuel(spec_pow2, 65);
}

fn trunc_quot(a: i128, b: i128) -> (r: i128)
    requires
        b != 0,
        -0x1_0000_0000_0000_0000 <= a <= 0x1_0000_0000_0000_0000,
        -0x1_0000_0000_0000_0000 <= b <= 0x1_0000_0000_0000_0000,
    ensures
        r == trunc_div(a as int, b as int),
        -0x1_0000_0000_0000_0000 <= r <= 0x1_0000_0000_0000_0000,
{
    let r = if a >= 0 {
        if b > 0 {
            a / b
        } else {
            -(a / (-b))
        }
    } else {
        if b > 0 {
            -((-a) / b)
        } else {
            (-a) / (-b)
        }
    };
    proof {
        let x: int = if a >= 0 {
            a as int
        } else {
            -a
        };
        let y: int = if b > 0 {
            b as int
        } else {
            -b
        };
        assert(0 <= x / y <= x) by (nonlinear_arith)
            requires
                x >= 0,
                y >= 1,
        ;
    }
    r
}

/// The number `x * up + x / down`, wrapped to width `w`.
fn rotated(x: i128, up: i128, down: i128, w: Width) -> (r: i64)
    requires
        0 <= x < 0x1_0000_0000_0000_0000,
        1 <= up <= 0x1_0000_0000_0000_0000,
        1 <= down <= 0x1_0000_0000_0000_0000,
    ensures
        r == wrap_s(x * up + x / down, w),
        fits(r as int, w),
{
    let m = w.modulus_of();
    assert(0 <= (x as int) * (up as int) <= 0xffff_ffff_ffff_ffff * 0x1_0000_0000_0000_0000)
        by (nonlinear_arith)
        requires
            0 <= x <= 0xffff_ffff_ffff_ffff,
            1 <= up <= 0x1_0000_0000_0000_0000,
    ;
    let hi: u128 = (x as u128) * (up as u128);
    let lo: u128 = (x / down) as u128;
    let hi_low: u128 = hi % (m as u128);
    let sum: i128 = (hi_low + lo) as i128;
    proof {
        vstd::arithmetic::div_mod::lemma_add_mod_noop(hi as int, lo as int, m as int);
        vstd::arithmetic::div_mod::lemma_add_mod_noop(hi_low as int, lo as int, m as int);
        vstd::arithmetic::div_mod::lemma_mod_twice(hi as int, m as int);
    }
    wrap(sum, w)
}

/// Applies a binary operation to two numbers of width `w`.
pub fn ibin(op: IBinOp, a: i64, b: i64, w: Width) -> (r: Result<i64, Trap>)
    requires
        fits(a as int, w),
        fits(b as int, w),
    ensures
        r matches Ok(v) ==> spec_ibin(op, a as int, b as int, w) == Ok::<int, Trap>(v as int)
            && fits(v as int, w),
        r matches Err(t) ==> spec_ibin(op, a as int, b as int, w) == Err::<int, Trap>(t),
{
    let ua = unsigned(a, w);
    let ub = unsigned(b, w);
    let bits = w.bits();
    let count: u32 = (ub % (bits as i128)) as u32;
    proof {
        lemma_pow2_64();
    }
    match op {
        IBinOp::Add => Ok(wrap(a as i128 + b as i128, w)),
        IBinOp::Sub => Ok(wrap(a as i128 - b as i128, w)),
        IBinOp::Mul => {
            assert(-0x4000_0000_0000_0000_0000_0000_0000_0000 <= (a as int) * (b as int)
                <= 0x4000_0000_0000_0000_0000_0000_0000_0000) by (nonlinear_arith)
                requires
                    -0x8000_0000_0000_0000 <= a <= 0x8000_0000_0000_0000,
                    -0x8000_0000_0000_0000 <= b <= 0x8000_0000_0000_0000,
            ;
            Ok(wrap(a as i128 * b as i128, w))
        },
        IBinOp::DivS => {
            if b == 0 {
                Err(Trap::DivZero)
            } else if a as i128 == -(w.modulus_of() / 2) && b == -1 {
                Err(Trap::IntegerOverflow)
            } else {
                let q = trunc_quot(a as i128, b as i128);
                proof {
                    lemma_trunc_div_fits(a as int, b as int, w);
                }
                Ok(q as i64)
            }
        },
        IBinOp::DivU => {
            if b == 0 {
                Err(Trap::DivZero)
            } else {
                Ok(wrap(ua / ub, w))
            }
        },
        IBinOp::RemS => {
            if b == 0 {
                Err(Trap::DivZero)
            } else {
                let q = trunc_quot(a as i128, b as i128);
                proof {
                    lemma_trunc_rem_fits(a as int, b as int, w);
                    assert(-0x1_0000_0000_0000_0000_0000_0000_0000_0000 <= (b as int) * (q as int)
                        <= 0x1_0000_0000_0000_0000_0000_0000_0000_0000) by (nonlinear_arith)
                        requires
                            -0x8000_0000_0000_0000 <= b <= 0x8000_0000_0000_0000,
                            -0x1_0000_0000_0000_0000 <= q <= 0x1_0000_0000_0000_0000,
                    ;
                }
                Ok((a as i128 - b as i128 * q) as i64)
            }
        },
        IBinOp::RemU => {
            if b == 0 {
                Err(Trap::DivZero)
            } else {
                Ok(wrap(ua % ub, w))
            }
        },
        IBinOp::And => {
            let v: i64 = a & b;
            proof {
                lemma_bitwise_fits(a, b, w);
            }
            Ok(v)
        },
        IBinOp::Or => {
            let v: i64 = a | b;
            proof {
                lemma_bitwise_fits(a, b, w);
            }
            Ok(v)
        },
        IBinOp::Xor => {
            let v: i64 = a ^ b;
            proof {
                lemma_bitwise_fits(a, b, w);
            }
            Ok(v)
        },
        IBinOp::Shl => {
            let p = pow2(count);
            assert(-0x4000_0000_0000_0000_0000_0000_0000_0000 <= (a as int) * (p as int)
                <= 0x4000_0000_0000_0000_0000_0000_0000_0000) by (nonlinear_arith)
                requires
                    -0x8000_0000_0000_0000 <= a <= 0x8000_0000_0000_0000,
                    1 <= p <= 0x8000_0000_0000_0000,
            ;
            Ok(wrap(a as i128 * p, w))
        },
        IBinOp::ShrS => {
            let p = pow2(count);
            let q: i128 = match (a as i128).checked_div_euclid(p) {
                Some(q) => q,
                None => 0,
            };
            proof {
                let x = a as int;
                let d = p as int;
                assert(x / d <= x || x / d <= 0) by (nonlinear_arith)
                    requires
                        d >= 1,
                ;
                assert(x / d >= x || x / d >= -1) by (nonlinear_arith)
                    requires
                        d >= 1,
                ;
            }
            Ok(q as i64)
        },
        IBinOp::ShrU => {
            let p = pow2(count);
            Ok(wrap(ua / p, w))
        },
        IBinOp::Rotl => {
            let p = pow2(count);
            let q = pow2(bits - count);
            Ok(rotated(ua, p, q, w))
        },
        IBinOp::Rotr => {
            let p = pow2(count);
            let q = pow2(bits - count);
            proof {
                assert(ua / p + ua * q == ua * q + ua / p);
            }
            Ok(rotated(ua, q, p, w))
        },
    }
}

/// A truncated quotient of two numbers of a width is a number of the
/// width, but for the least number divided by -1.
pub proof fn lemma_trunc_div_fits(a: int, b: int, w: Width)
    requires
        fits(a, w),
        fits(b, w),
        b != 0,
        !(a == -w.half() && b == -1),
    ensures
        fits(trunc_div(a, b), w),
{
    let x: int = if a >= 0 {
        a
    } else {
        -a
    };
    let y: int = if b > 0 {
        b
    } else {
        -b
    };
    assert(0 <= x / y <= x) by (nonlinear_arith)
        requires
            x >= 0,
            y >= 1,
    ;
    if y >= 2 {
        assert(x / y < x || x == 0) by (nonlinear_arith)
            requires
                x >= 0,
                y >= 2,
        ;
    } else {
        assert(x / y == x) by (nonlinear_arith)
            requires
                y == 1,
        ;
    }
}

/// The remainder of a truncated division of two numbers of a width is a
/// number of the width.
pub proof fn lemma_trunc_rem_fits(a: int, b: int, w: Width)
    requires
        fits(a, w),
        fits(b, w),
        b != 0,
    ensures
        fits(trunc_rem(a, b), w),
{
    let x: int = if a >= 0 {
        a
    } else {
        -a
    };
    let y: int = if b > 0 {
        b
    } else {
        -b
    };
    assert(0 <= x - y * (x / y) < y) by (nonlinear_arith)
        requires
            x >= 0,
            y >= 1,
    ;
    assert(trunc_rem(a, b) == x - y * (x / y) || trunc_rem(a, b) == -(x - y * (x / y)))
        by (nonlinear_arith)
        requires
            x == if a >= 0 {
                a
            } else {
                -a
            },
            y == if b > 0 {
                b
            } else {
                -b
            },
            b != 0,
            trunc_rem(a, b) == a - b * trunc_div(a, b),
            trunc_div(a, b) == if a >= 0 {
                if b > 0 {
                    a / b
                } else {
                    -(a / (-b))
                }
            } else {
                if b > 0 {
                    -((-a) / b)
                } else {
                    (-a) / (-b)
                }
            },
    ;
}

/// The bits of two numbers of a width, combined bit by bit, are those of a
/// number of the width.
pub proof fn lemma_bitwise_fits(a: i64, b: i64, w: Width)
    requires
        fits(a as int, w),
        fits(b as int, w),
    ensures
        fits((a & b) as int, w),
        fits((a | b) as int, w),
        fits((a ^ b) as int, w),
{
    match w {
        Width::W8 => {
            assert(-0x80 <= (a & b) < 0x80 && -0x80 <= (a | b) < 0x80 && -0x80 <= (a ^ b) < 0x80)
                by (bit_vector)
                requires
                    -0x80 <= a < 0x80,
                    -0x80 <= b < 0x80,
            ;
        },
        Width::W16 => {
            assert(-0x8000 <= (a & b) < 0x8000 && -0x8000 <= (a | b) < 0x8000 && -0x8000 <= (a ^ b)
                < 0x8000) by (bit_vector)
                requires
                    -0x8000 <= a < 0x8000,
                    -0x8000 <= b < 0x8000,
            ;
        },
        Width::W32 => {
            assert(-0x8000_0000 <= (a & b) < 0x8000_0000 && -0x8000_0000 <= (a | b) < 0x8000_0000
                && -0x8000_0000 <= (a ^ b) < 0x8000_0000) by (bit_vector)
                requires
                    -0x8000_0000 <= a < 0x8000_0000,
                    -0x8000_0000 <= b < 0x8000_0000,
            ;
        },
        Width::W64 => {},
    }
}

/// Compares two numbers of width `w`.
pub fn irel(op: IRelOp, a: i64, b: i64, w: Width) -> (r: bool)
    requires
        fits(a as int, w),
        fits(b as int, w),
    ensures
        r == spec_irel(op, a as int, b as int, w),
{
    let ua = unsigned(a, w);
    let ub = unsigned(b, w);
    match op {
        IRelOp::Eq => a == b,
        IRelOp::Ne => a != b,
        IRelOp::LtS => a < b,
        IRelOp::LtU => ua < ub,
        IRelOp::GtS => a > b,
        IRelOp::GtU => ua > ub,
        IRelOp::LeS => a <= b,
        IRelOp::LeU => ua <= ub,
        IRelOp::GeS => a >= b,
        IRelOp::GeU => ua >= ub,
    }
}

fn popcount(x: i128) -> (r: i64)
    requires
        0 <= x < 0x1_0000_0000_0000_0000,
    ensures
        r == spec_popcount(x as int),
        0 <= r <= 64,
{
    let mut rest: i128 = x;
    let mut n: i64 = 0;
    let mut steps: u32 = 0;
    proof {
        lemma_pow2_64();
    }
    while rest > 0
        invariant
            0 <= rest,
            0 <= n <= steps <= 64,
            rest * spec_pow2(steps as nat) < 0x1_0000_0000_0000_0000 || rest == 0,
            n + spec_popcount(rest as int) == spec_popcount(x as int),
        decreases rest,
    {
        proof {
            lemma_shift_bound(rest as int, steps as nat);
        }
        n = n + (rest % 2) as i64;
        rest = rest / 2;
        steps = steps + 1;
    }
    n
}

/// A positive number times two to the power of `k` is below 2^64 only for
/// a `k` below 64, and half of it times the next power is no larger.
proof fn lemma_shift_bound(x: int, k: nat)
    requires
        x > 0,
        k <= 64,
        x * spec_pow2(k) < 0x1_0000_0000_0000_0000,
    ensures
        k < 64,
        (x / 2) * spec_pow2(k + 1) < 0x1_0000_0000_0000_0000,
{
    lemma_pow2_64();
    lemma_pow2_positive(k);
    let p = spec_pow2(k);
    assert(p <= x * p) by (nonlinear_arith)
        requires
            x >= 1,
            p >= 1,
    ;
    assert(spec_pow2(k + 1) == 2 * p);
    assert((x / 2) * (2 * p) <= x * p) by (nonlinear_arith)
        requires
            x >= 1,
            p >= 1,
    ;
}

fn bit_length(x: i128) -> (r: i64)
    requires
        0 <= x < 0x1_0000_0000_0000_0000,
    ensures
        r == spec_bit_length(x as int),
        0 <= r <= 64,
{
    let mut rest: i128 = x;
    let mut n: i64 = 0;
    proof {
        lemma_pow2_64();
    }
    while rest > 0
        invariant
            0 <= rest,
            0 <= n <= 64,
            rest * spec_pow2(n as nat) < 0x1_0000_0000_0000_0000 || rest == 0,
            n + spec_bit_length(rest as int) == spec_bit_length(x as int),
        decreases rest,
    {
        proof {
            lemma_shift_bound(rest as int, n as nat);
        }
        rest = rest / 2;
        n = n + 1;
    }
    n
}

fn low_zeros(x: i128) -> (r: i64)
    requires
        0 < x < 0x1_0000_0000_0000_0000,
    ensures
        r == spec_low_zeros(x as int),
        0 <= r < 64,
{
    let mut rest: i128 = x;
    let mut n: i64 = 0;
    proof {
        lemma_pow2_64();
    }
    while rest % 2 == 0
        invariant
            0 < rest,
            0 <= n <= 64,
            rest * spec_pow2(n as nat) < 0x1_0000_0000_0000_0000,
            n + spec_low_zeros(rest as int) == spec_low_zeros(x as int),
        decreases rest,
    {
        proof {
            lemma_shift_bound(rest as int, n as nat);
        }
        rest = rest / 2;
        n = n + 1;
    }
    proof {
        lemma_shift_bound(rest as int, n as nat);
    }
    n
}

/// Applies a unary operation to a number of width `w`.
pub fn iun(op: IUnOp, a: i64, w: Width) -> (r: i64)
    requires
        fits(a as int, w),
        op == IUnOp::Extend8S ==> w != Width::W8,
        op == IUnOp::Extend16S ==> w == Width::W32 || w == Width::W64,
        op == IUnOp::Extend32S ==> w == Width::W64,
    ensures
        r == spec_iun(op, a as int, w),
        fits(r as int, w),
{
    let ua = unsigned(a, w);
    match op {
        IUnOp::Clz => w.bits() as i64 - bit_length(ua),
        IUnOp::Ctz => if a == 0 {
            w.bits() as i64
        } else {
            low_zeros(ua)
        },
        IUnOp::Popcnt => popcount(ua),
        IUnOp::Extend8S => wrap(a as i128, Width::W8),
        IUnOp::Extend16S => wrap(a as i128, Width::W16),
        IUnOp::Extend32S => wrap(a as i128, Width::W32),
        IUnOp::Abs => wrap(
            if a < 0 {
                -(a as i128)
            } else {
                a as i128
            },
            w,
        ),
        IUnOp::Neg => wrap(-(a as i128), w),
    }
}

/// Signed division of the least number by -1 traps with an overflow, for
/// every width.
pub proof fn lemma_div_s_overflow(w: Width)
    ensures
        spec_ibin(IBinOp::DivS, -w.half(), -1, w) == Err::<int, Trap>(Trap::IntegerOverflow),
{
}

/// Division and remainder by zero trap, whatever is divided.
pub proof fn lemma_div_by_zero(x: int, w: Width)
    ensures
        spec_ibin(IBinOp::DivU, x, 0, w) == Err::<int, Trap>(Trap::DivZero),
        spec_ibin(IBinOp::DivS, x, 0, w) == Err::<int, Trap>(Trap::DivZero),
        spec_ibin(IBinOp::RemU, x, 0, w) == Err::<int, Trap>(Trap::DivZero),
        spec_ibin(IBinOp::RemS, x, 0, w) == Err::<int, Trap>(Trap::DivZero),
{
}

} // verus!
