use wasm::execution::errors::Trap;
use wasm::execution::instr::alu::Width;
use wasm::execution::instr::float::{frel, simd_fbit, simd_frel, FRelOp};
use wasm::execution::instr::pure::{eval_pure, FBitOp, PureOp};
use wasm::execution::value::{v128, ValInst};

const OPS: [FRelOp; 6] = [FRelOp::Eq, FRelOp::Ne, FRelOp::Lt, FRelOp::Gt, FRelOp::Le, FRelOp::Ge];

fn holds32(op: FRelOp, a: f32, b: f32) -> bool {
    match op {
        FRelOp::Eq => a == b,
        FRelOp::Ne => a != b,
        FRelOp::Lt => a < b,
        FRelOp::Gt => a > b,
        FRelOp::Le => a <= b,
        FRelOp::Ge => a >= b,
    }
}

fn holds64(op: FRelOp, a: f64, b: f64) -> bool {
    match op {
        FRelOp::Eq => a == b,
        FRelOp::Ne => a != b,
        FRelOp::Lt => a < b,
        FRelOp::Gt => a > b,
        FRelOp::Le => a <= b,
        FRelOp::Ge => a >= b,
    }
}

#[test]
fn singles_compare_as_floats_do() {
    let mut values = vec![
        0.0f32, -0.0, 1.0, -1.0, 1.5, -1.5, f32::MIN_POSITIVE, -f32::MIN_POSITIVE, 1e-45, -1e-45,
        f32::MAX, f32::MIN, f32::INFINITY, f32::NEG_INFINITY, f32::NAN, -f32::NAN,
        f32::from_bits(0x7f80_0001), f32::from_bits(0xffc0_0000),
    ];
    let mut seed: u32 = 99;
    for _ in 0..60 {
        seed = seed.wrapping_mul(1664525).wrapping_add(1013904223);
        values.push(f32::from_bits(seed));
    }
    for &a in &values {
        for &b in &values {
            for op in OPS {
                assert_eq!(
                    frel(op, a.to_bits() as u64, b.to_bits() as u64, Width::W32),
                    holds32(op, a, b),
                    "{a} {op:?} {b}"
                );
            }
        }
    }
}

#[test]
fn doubles_compare_as_floats_do() {
    let mut values = vec![
        0.0f64, -0.0, 1.0, -1.0, 0.1, -0.1, f64::MIN_POSITIVE, -f64::MIN_POSITIVE, 5e-324, -5e-324,
        f64::MAX, f64::MIN, f64::INFINITY, f64::NEG_INFINITY, f64::NAN, -f64::NAN,
        f64::from_bits(0x7ff0_0000_0000_0001), f64::from_bits(u64::MAX),
    ];
    let mut seed: u64 = 7;
    for _ in 0..60 {
        seed = seed.wrapping_mul(6364136223846793005).wrapping_add(1442695040888963407);
        values.push(f64::from_bits(seed));
    }
    for &a in &values {
        for &b in &values {
            for op in OPS {
                assert_eq!(
                    frel(op, a.to_bits(), b.to_bits(), Width::W64),
                    holds64(op, a, b),
                    "{a} {op:?} {b}"
                );
            }
        }
    }
}

fn singles(x: [f32; 4]) -> v128 {
    v128(x[0].to_bits() as i32, x[1].to_bits() as i32, x[2].to_bits() as i32, x[3].to_bits() as i32)
}

fn doubles(x: [f64; 2]) -> v128 {
    let (a, b) = (x[0].to_bits(), x[1].to_bits());
    v128(a as u32 as i32, (a >> 32) as u32 as i32, b as u32 as i32, (b >> 32) as u32 as i32)
}

#[test]
fn vectors_of_floats_compare_lane_by_lane() {
    let a = singles([1.0, -0.0, f32::NAN, 3.0]);
    let b = singles([2.0, 0.0, f32::NAN, -3.0]);
    assert_eq!(simd_frel(FRelOp::Lt, a, b, Width::W32), v128(-1, 0, 0, 0));
    assert_eq!(simd_frel(FRelOp::Eq, a, b, Width::W32), v128(0, -1, 0, 0));
    assert_eq!(simd_frel(FRelOp::Ne, a, b, Width::W32), v128(-1, 0, -1, -1));
    assert_eq!(simd_frel(FRelOp::Ge, a, b, Width::W32), v128(0, -1, 0, -1));
    let c = doubles([1.0, f64::NEG_INFINITY]);
    let d = doubles([1.0, f64::MIN]);
    assert_eq!(simd_frel(FRelOp::Le, c, d, Width::W64), v128(-1, -1, -1, -1));
    assert_eq!(simd_frel(FRelOp::Gt, c, d, Width::W64), v128(0, 0, 0, 0));
    assert_eq!(simd_frel(FRelOp::Lt, c, d, Width::W64), v128(0, 0, -1, -1));
    assert_eq!(
        eval_pure(PureOp::VFRel(Width::W32, FRelOp::Gt), &[ValInst::V128(a), ValInst::V128(b)]),
        Ok(ValInst::V128(v128(0, 0, 0, -1)))
    );
    assert_eq!(
        eval_pure(PureOp::VFRel(Width::W16, FRelOp::Gt), &[ValInst::V128(a), ValInst::V128(b)]),
        Err(Trap::ValTypeNotEq)
    );
}

#[test]
fn the_sign_of_each_lane() {
    let a = [1.5f32, -0.0, f32::NEG_INFINITY, -f32::NAN];
    assert_eq!(simd_fbit(FBitOp::Abs, singles(a), Width::W32), singles(a.map(|x| x.abs())));
    assert_eq!(simd_fbit(FBitOp::Neg, singles(a), Width::W32), singles(a.map(|x| -x)));
    let b = [-2.5f64, f64::NAN];
    assert_eq!(simd_fbit(FBitOp::Abs, doubles(b), Width::W64), doubles(b.map(|x| x.abs())));
    assert_eq!(simd_fbit(FBitOp::Neg, doubles(b), Width::W64), doubles(b.map(|x| -x)));
    assert_eq!(
        eval_pure(PureOp::VFBit(Width::W64, FBitOp::Copysign), &[ValInst::V128(doubles(b))]),
        Err(Trap::ValTypeNotEq)
    );
}

#[test]
fn comparisons_as_instructions() {
    let f = |x: f32| ValInst::F32(x.to_bits());
    let d = |x: f64| ValInst::F64(x.to_bits());
    assert_eq!(eval_pure(PureOp::FRel(Width::W32, FRelOp::Lt), &[f(1.0), f(2.0)]), Ok(ValInst::I32(1)));
    assert_eq!(eval_pure(PureOp::FRel(Width::W32, FRelOp::Lt), &[f(2.0), f(1.0)]), Ok(ValInst::I32(0)));
    assert_eq!(eval_pure(PureOp::FRel(Width::W64, FRelOp::Eq), &[d(f64::NAN), d(f64::NAN)]), Ok(ValInst::I32(0)));
    assert_eq!(eval_pure(PureOp::FRel(Width::W64, FRelOp::Ne), &[d(f64::NAN), d(1.0)]), Ok(ValInst::I32(1)));
    assert_eq!(eval_pure(PureOp::FRel(Width::W64, FRelOp::Eq), &[d(0.0), d(-0.0)]), Ok(ValInst::I32(1)));
    assert_eq!(eval_pure(PureOp::FRel(Width::W64, FRelOp::Eq), &[f(0.0), d(-0.0)]), Err(Trap::ValTypeNotEq));
}
