use wasm::binary::instruction::Instruction;
use wasm::binary::module::Module;
use wasm::execution::errors::{Trap, VmError};
use wasm::execution::instr::alu::Width;
use wasm::execution::instr::pure::{eval_pure, PureOp};
use wasm::execution::instr::trunc_sat::{
    simd_trunc_sat, trunc, trunc_sat, trunc_sat_s, trunc_sat_u, TruncSize,
};
use wasm::execution::value::{v128, ValInst};
use wasm::execution::vm::{Step, Store, VM};

fn singles() -> Vec<f32> {
    let mut out = vec![
        0.0, -0.0, 0.5, -0.5, 0.99999994, -0.99999994, 1.0, -1.0, 1.5, -1.5, 2.5, 1e-40, -1e-40,
        f32::MIN_POSITIVE, 123456.79, -123456.79, 16777216.0, 16777217.0, 2147483520.0,
        2147483648.0, -2147483648.0, -2147483904.0, 4294967040.0, 4294967296.0,
        9223371487098961920.0, 9223372036854775808.0, -9223372036854775808.0,
        -9223373136366403584.0, 18446742974197923840.0, 18446744073709551616.0, 3.0e38, -3.0e38,
        f32::MAX, f32::MIN, f32::INFINITY, f32::NEG_INFINITY, f32::NAN, -f32::NAN,
        f32::from_bits(0x7f80_0001), f32::from_bits(0xffff_ffff), f32::from_bits(1),
    ];
    let mut seed: u32 = 0x1234_5678;
    for _ in 0..2000 {
        seed = seed.wrapping_mul(1664525).wrapping_add(1013904223);
        out.push(f32::from_bits(seed));
    }
    out
}

fn doubles() -> Vec<f64> {
    let mut out = vec![
        0.0, -0.0, 0.5, -0.5, 0.9999999999999999, -0.9999999999999999, 1.0, -1.0, 1.5, 5e-324,
        -5e-324, f64::MIN_POSITIVE, 2147483647.0, 2147483647.5, 2147483648.0, -2147483648.0,
        -2147483648.9, -2147483649.0, 4294967295.0, 4294967295.9, 4294967296.0, -0.9, -1.0,
        9007199254740993.0, 9223372036854774784.0, 9223372036854775808.0, -9223372036854775808.0,
        -9223372036854777856.0, 18446744073709549568.0, 18446744073709551616.0, 1e300, -1e300,
        f64::MAX, f64::MIN, f64::INFINITY, f64::NEG_INFINITY, f64::NAN, -f64::NAN,
        f64::from_bits(0x7ff0_0000_0000_0001), f64::from_bits(u64::MAX), f64::from_bits(1),
    ];
    let mut seed: u64 = 0x1234_5678_9abc_def0;
    for _ in 0..2000 {
        seed = seed.wrapping_mul(6364136223846793005).wrapping_add(1442695040888963407);
        out.push(f64::from_bits(seed));
    }
    out
}

#[test]
fn saturating_truncation_of_singles() {
    for x in singles() {
        let bits = x.to_bits() as u64;
        assert_eq!(trunc_sat(Width::W32, bits, TruncSize::N32, true), (x as i32) as i128, "{x}");
        assert_eq!(trunc_sat(Width::W32, bits, TruncSize::N32, false), (x as u32) as i128, "{x}");
        assert_eq!(trunc_sat(Width::W32, bits, TruncSize::N64, true), (x as i64) as i128, "{x}");
        assert_eq!(trunc_sat(Width::W32, bits, TruncSize::N64, false), (x as u64) as i128, "{x}");
    }
}

#[test]
fn saturating_truncation_of_doubles() {
    for x in doubles() {
        let bits = x.to_bits();
        assert_eq!(trunc_sat(Width::W64, bits, TruncSize::N32, true), (x as i32) as i128, "{x}");
        assert_eq!(trunc_sat(Width::W64, bits, TruncSize::N32, false), (x as u32) as i128, "{x}");
        assert_eq!(trunc_sat(Width::W64, bits, TruncSize::N64, true), (x as i64) as i128, "{x}");
        assert_eq!(trunc_sat(Width::W64, bits, TruncSize::N64, false), (x as u64) as i128, "{x}");
        assert_eq!(trunc_sat_u(bits, TruncSize::N32), (x as u32) as u64);
        assert_eq!(trunc_sat_u(bits, TruncSize::N64), x as u64);
        assert_eq!(trunc_sat_s(bits, TruncSize::N32), (x as i32) as i64);
        assert_eq!(trunc_sat_s(bits, TruncSize::N64), x as i64);
    }
}

fn expected(x: f64, lo: f64, hi: f64) -> Result<i128, Trap> {
    if x.is_nan() {
        Err(Trap::InvalidConversionToInteger)
    } else if x.trunc() < lo || x.trunc() >= hi {
        Err(Trap::IntegerOverflow)
    } else {
        Ok(x.trunc() as i128)
    }
}

#[test]
fn trapping_truncation() {
    let two = 2.0f64;
    let ranges = [
        (TruncSize::N32, true, -two.powi(31), two.powi(31)),
        (TruncSize::N32, false, 0.0, two.powi(32)),
        (TruncSize::N64, true, -two.powi(63), two.powi(63)),
        (TruncSize::N64, false, 0.0, two.powi(64)),
    ];
    for (n, signed, lo, hi) in ranges {
        for x in singles() {
            assert_eq!(trunc(Width::W32, x.to_bits() as u64, n, signed), expected(x as f64, lo, hi), "{x}");
        }
        for x in doubles() {
            assert_eq!(trunc(Width::W64, x.to_bits(), n, signed), expected(x, lo, hi), "{x}");
        }
    }
    assert_eq!(trunc(Width::W64, (-0.9f64).to_bits(), TruncSize::N32, false), Ok(0));
    assert_eq!(trunc(Width::W64, (-1.0f64).to_bits(), TruncSize::N32, false), Err(Trap::IntegerOverflow));
    assert_eq!(trunc(Width::W64, (-2147483648.9f64).to_bits(), TruncSize::N32, true), Ok(-2147483648));
    assert_eq!(trunc(Width::W64, 2147483647.9f64.to_bits(), TruncSize::N32, true), Ok(2147483647));
    assert_eq!(trunc(Width::W32, f32::INFINITY.to_bits() as u64, TruncSize::N64, true), Err(Trap::IntegerOverflow));
}

#[test]
fn the_ends_of_the_integer_ranges() {
    assert_eq!(TruncSize::N32.get_u_max(), u32::MAX as u64);
    assert_eq!(TruncSize::N64.get_u_max(), u64::MAX);
    assert_eq!(TruncSize::N32.get_i_min(), i32::MIN as i64);
    assert_eq!(TruncSize::N64.get_i_min(), i64::MIN);
    assert_eq!(TruncSize::N32.get_i_max(), i32::MAX as i64);
    assert_eq!(TruncSize::N64.get_i_max(), i64::MAX);
}

#[test]
fn truncating_a_nan() {
    let mut store = Store::new();
    let mut vm = VM::empty("m", Module::new());
    vm.push(ValInst::F32(f32::NAN.to_bits()));
    assert_eq!(
        vm.exec_instr(&mut store, &Instruction::I32TruncF32S).map(|_| ()),
        Err(VmError::Trap(Trap::InvalidConversionToInteger))
    );
    assert_eq!(vm.operands, vec![ValInst::F32(f32::NAN.to_bits())]);
    assert!(matches!(vm.exec_instr(&mut store, &Instruction::I32TruncSatF32S), Ok(Step::Next)));
    assert_eq!(vm.operands, vec![ValInst::I32(0)]);
    vm.reset();
    assert_eq!(vm.i32_trunc_f32_s(), Err(VmError::Trap(Trap::ArgNotEq)));
    vm.push(ValInst::F64(1.0f64.to_bits()));
    assert_eq!(vm.i32_trunc_f32_s(), Err(VmError::Trap(Trap::ValTypeNotEq)));
    assert_eq!(vm.i32_trunc_f64_s(), Ok(()));
    assert_eq!(vm.operands, vec![ValInst::I32(1)]);
}

#[test]
fn truncations_as_instructions() {
    let run = |op: PureOp, v: ValInst| eval_pure(op, &[v]);
    let f = |x: f32| ValInst::F32(x.to_bits());
    let d = |x: f64| ValInst::F64(x.to_bits());
    assert_eq!(run(PureOp::Trunc(Width::W32, TruncSize::N32, true, false), f(-3.9)), Ok(ValInst::I32(-3)));
    assert_eq!(run(PureOp::Trunc(Width::W32, TruncSize::N32, false, false), f(3e9)), Ok(ValInst::I32(3_000_000_000u32 as i32)));
    assert_eq!(run(PureOp::Trunc(Width::W64, TruncSize::N64, false, false), d(1.8e19)), Ok(ValInst::I64(18_000_000_000_000_000_000u64 as i64)));
    assert_eq!(run(PureOp::Trunc(Width::W64, TruncSize::N64, true, false), d(-1e18)), Ok(ValInst::I64(-1_000_000_000_000_000_000)));
    assert_eq!(run(PureOp::Trunc(Width::W64, TruncSize::N32, true, false), d(3e9)), Err(Trap::IntegerOverflow));
    assert_eq!(run(PureOp::Trunc(Width::W64, TruncSize::N32, true, true), d(3e9)), Ok(ValInst::I32(i32::MAX)));
    assert_eq!(run(PureOp::Trunc(Width::W64, TruncSize::N32, false, true), d(-3e9)), Ok(ValInst::I32(0)));
    assert_eq!(run(PureOp::Trunc(Width::W32, TruncSize::N64, false, true), f(f32::INFINITY)), Ok(ValInst::I64(-1)));
    assert_eq!(run(PureOp::Trunc(Width::W32, TruncSize::N64, true, true), f(f32::NEG_INFINITY)), Ok(ValInst::I64(i64::MIN)));
    assert_eq!(run(PureOp::Trunc(Width::W32, TruncSize::N32, true, true), d(1.0)), Err(Trap::ValTypeNotEq));
    assert_eq!(run(PureOp::Trunc(Width::W16, TruncSize::N32, true, true), f(1.0)), Err(Trap::ValTypeNotEq));
}

#[test]
fn vectors_of_floats_are_truncated_lane_by_lane() {
    let singles = |a: f32, b: f32, c: f32, e: f32| {
        v128(a.to_bits() as i32, b.to_bits() as i32, c.to_bits() as i32, e.to_bits() as i32)
    };
    let doubles = |a: f64, b: f64| {
        let (a, b) = (a.to_bits(), b.to_bits());
        v128(a as u32 as i32, (a >> 32) as u32 as i32, b as u32 as i32, (b >> 32) as u32 as i32)
    };
    assert_eq!(
        simd_trunc_sat(Width::W32, singles(1.9, -1.9, f32::NAN, 3e9), true),
        v128(1, -1, 0, i32::MAX)
    );
    assert_eq!(
        simd_trunc_sat(Width::W32, singles(1.9, -1.9, f32::INFINITY, 3e9), false),
        v128(1, 0, -1, 3_000_000_000u32 as i32)
    );
    assert_eq!(simd_trunc_sat(Width::W64, doubles(-7.5, 1e10), true), v128(-7, i32::MAX, 0, 0));
    assert_eq!(simd_trunc_sat(Width::W64, doubles(-7.5, 1e10), false), v128(0, -1, 0, 0));
    assert_eq!(
        eval_pure(PureOp::VTruncSat(Width::W64, true), &[ValInst::V128(doubles(2.5, f64::NAN))]),
        Ok(ValInst::V128(v128(2, 0, 0, 0)))
    );
    assert_eq!(
        eval_pure(PureOp::VTruncSat(Width::W8, true), &[ValInst::V128(doubles(2.5, 1.0))]),
        Err(Trap::ValTypeNotEq)
    );
}
