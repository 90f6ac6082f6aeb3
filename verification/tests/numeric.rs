use wasm::execution::errors::Trap;
use wasm::execution::instr::alu::{ibin, irel, iun, IBinOp, IRelOp, IUnOp, Width};
use wasm::execution::instr::pure::{eval_pure, FBitOp, PureOp};
use wasm::execution::value::ValInst;

fn bin32(op: IBinOp, a: i32, b: i32) -> Result<ValInst, Trap> {
    eval_pure(PureOp::IBin(Width::W32, op), &[ValInst::I32(a), ValInst::I32(b)])
}

fn bin64(op: IBinOp, a: i64, b: i64) -> Result<ValInst, Trap> {
    eval_pure(PureOp::IBin(Width::W64, op), &[ValInst::I64(a), ValInst::I64(b)])
}

fn un32(op: IUnOp, a: i32) -> Result<ValInst, Trap> {
    eval_pure(PureOp::IUn(Width::W32, op), &[ValInst::I32(a)])
}

#[test]
fn signed_division_overflow_traps() {
    assert_eq!(bin32(IBinOp::DivS, i32::MIN, -1), Err(Trap::IntegerOverflow));
    assert_eq!(bin64(IBinOp::DivS, i64::MIN, -1), Err(Trap::IntegerOverflow));
    assert_eq!(bin32(IBinOp::DivS, i32::MIN, 1), Ok(ValInst::I32(i32::MIN)));
    assert_eq!(bin32(IBinOp::RemS, i32::MIN, -1), Ok(ValInst::I32(0)));
    assert_eq!(bin64(IBinOp::RemS, i64::MIN, -1), Ok(ValInst::I64(0)));
}

#[test]
fn division_by_zero_traps() {
    for x in [0, 1, -1, i32::MIN, i32::MAX] {
        assert_eq!(bin32(IBinOp::DivU, x, 0), Err(Trap::DivZero));
        assert_eq!(bin32(IBinOp::DivS, x, 0), Err(Trap::DivZero));
        assert_eq!(bin32(IBinOp::RemU, x, 0), Err(Trap::DivZero));
        assert_eq!(bin32(IBinOp::RemS, x, 0), Err(Trap::DivZero));
    }
    assert_eq!(bin64(IBinOp::DivU, 5, 0), Err(Trap::DivZero));
}

#[test]
fn division_rounds_towards_zero() {
    assert_eq!(bin32(IBinOp::DivS, 7, 2), Ok(ValInst::I32(3)));
    assert_eq!(bin32(IBinOp::DivS, -7, 2), Ok(ValInst::I32(-3)));
    assert_eq!(bin32(IBinOp::DivS, 7, -2), Ok(ValInst::I32(-3)));
    assert_eq!(bin32(IBinOp::DivS, -7, -2), Ok(ValInst::I32(3)));
    assert_eq!(bin32(IBinOp::RemS, -7, 2), Ok(ValInst::I32(-1)));
    assert_eq!(bin32(IBinOp::RemS, 7, -2), Ok(ValInst::I32(1)));
    assert_eq!(bin32(IBinOp::DivU, -1, 2), Ok(ValInst::I32(0x7fff_ffff)));
    assert_eq!(bin32(IBinOp::RemU, -1, 16), Ok(ValInst::I32(15)));
    assert_eq!(bin64(IBinOp::DivU, -1, 2), Ok(ValInst::I64(i64::MAX)));
}

#[test]
fn arithmetic_wraps() {
    assert_eq!(bin32(IBinOp::Add, i32::MAX, 1), Ok(ValInst::I32(i32::MIN)));
    assert_eq!(bin32(IBinOp::Sub, i32::MIN, 1), Ok(ValInst::I32(i32::MAX)));
    assert_eq!(bin32(IBinOp::Mul, 0x10000, 0x10000), Ok(ValInst::I32(0)));
    assert_eq!(bin32(IBinOp::Mul, -3, 7), Ok(ValInst::I32(-21)));
    assert_eq!(bin64(IBinOp::Add, i64::MAX, 1), Ok(ValInst::I64(i64::MIN)));
    assert_eq!(bin64(IBinOp::Mul, i64::MAX, 2), Ok(ValInst::I64(-2)));
    assert_eq!(bin64(IBinOp::Mul, i64::MIN, i64::MIN), Ok(ValInst::I64(0)));
}

#[test]
fn bitwise_operations() {
    assert_eq!(bin32(IBinOp::And, 0b1100, 0b1010), Ok(ValInst::I32(0b1000)));
    assert_eq!(bin32(IBinOp::Or, 0b1100, 0b1010), Ok(ValInst::I32(0b1110)));
    assert_eq!(bin32(IBinOp::Xor, -1, 0x0f0f), Ok(ValInst::I32(!0x0f0f)));
    assert_eq!(bin64(IBinOp::And, -1, i64::MIN), Ok(ValInst::I64(i64::MIN)));
}

#[test]
fn shifts_take_their_count_modulo_the_width() {
    assert_eq!(bin32(IBinOp::Shl, 1, 31), Ok(ValInst::I32(i32::MIN)));
    assert_eq!(bin32(IBinOp::Shl, 1, 32), Ok(ValInst::I32(1)));
    assert_eq!(bin32(IBinOp::Shl, 1, 33), Ok(ValInst::I32(2)));
    assert_eq!(bin32(IBinOp::Shl, 3, -1), Ok(ValInst::I32(i32::MIN)));
    assert_eq!(bin32(IBinOp::ShrS, -8, 1), Ok(ValInst::I32(-4)));
    assert_eq!(bin32(IBinOp::ShrS, -1, 31), Ok(ValInst::I32(-1)));
    assert_eq!(bin32(IBinOp::ShrU, -8, 1), Ok(ValInst::I32(0x7fff_fffc)));
    assert_eq!(bin32(IBinOp::ShrU, -1, 32), Ok(ValInst::I32(-1)));
    assert_eq!(bin64(IBinOp::Shl, 1, 64), Ok(ValInst::I64(1)));
    assert_eq!(bin64(IBinOp::Shl, 1, 63), Ok(ValInst::I64(i64::MIN)));
    assert_eq!(bin64(IBinOp::ShrS, i64::MIN, 63), Ok(ValInst::I64(-1)));
    assert_eq!(bin64(IBinOp::ShrU, i64::MIN, 63), Ok(ValInst::I64(1)));
}

#[test]
fn rotations() {
    assert_eq!(bin32(IBinOp::Rotl, 0x8000_0001u32 as i32, 1), Ok(ValInst::I32(3)));
    assert_eq!(bin32(IBinOp::Rotr, 3, 1), Ok(ValInst::I32(0x8000_0001u32 as i32)));
    assert_eq!(bin32(IBinOp::Rotl, 0x1234_5678, 0), Ok(ValInst::I32(0x1234_5678)));
    assert_eq!(bin32(IBinOp::Rotl, 0x1234_5678, 32), Ok(ValInst::I32(0x1234_5678)));
    assert_eq!(bin32(IBinOp::Rotl, 0x1234_5678, 8), Ok(ValInst::I32(0x3456_7812)));
    assert_eq!(bin32(IBinOp::Rotr, 0x1234_5678, 8), Ok(ValInst::I32(0x7812_3456)));
    assert_eq!(
        bin64(IBinOp::Rotl, 0x0123_4567_89ab_cdef, 16),
        Ok(ValInst::I64(0x4567_89ab_cdef_0123))
    );
    assert_eq!(bin64(IBinOp::Rotr, 1, 1), Ok(ValInst::I64(i64::MIN)));
    for (a, k) in [(0x8000_0001u32, 5u32), (0xdead_beef, 31), (1, 1), (0, 7)] {
        assert_eq!(
            bin32(IBinOp::Rotl, a as i32, k as i32),
            Ok(ValInst::I32(a.rotate_left(k) as i32))
        );
        assert_eq!(
            bin32(IBinOp::Rotr, a as i32, k as i32),
            Ok(ValInst::I32(a.rotate_right(k) as i32))
        );
    }
}

#[test]
fn counting_bits() {
    assert_eq!(un32(IUnOp::Clz, 0), Ok(ValInst::I32(32)));
    assert_eq!(un32(IUnOp::Clz, 1), Ok(ValInst::I32(31)));
    assert_eq!(un32(IUnOp::Clz, -1), Ok(ValInst::I32(0)));
    assert_eq!(un32(IUnOp::Ctz, 0), Ok(ValInst::I32(32)));
    assert_eq!(un32(IUnOp::Ctz, 8), Ok(ValInst::I32(3)));
    assert_eq!(un32(IUnOp::Ctz, i32::MIN), Ok(ValInst::I32(31)));
    assert_eq!(un32(IUnOp::Popcnt, -1), Ok(ValInst::I32(32)));
    assert_eq!(un32(IUnOp::Popcnt, 0x0f0f), Ok(ValInst::I32(8)));
    assert_eq!(
        eval_pure(PureOp::IUn(Width::W64, IUnOp::Clz), &[ValInst::I64(0)]),
        Ok(ValInst::I64(64))
    );
    assert_eq!(
        eval_pure(PureOp::IUn(Width::W64, IUnOp::Popcnt), &[ValInst::I64(-1)]),
        Ok(ValInst::I64(64))
    );
    for x in [0u32, 1, 2, 0x80, 0xffff, 0x8000_0000, 0x1234_5678, u32::MAX] {
        assert_eq!(un32(IUnOp::Clz, x as i32), Ok(ValInst::I32(x.leading_zeros() as i32)));
        assert_eq!(un32(IUnOp::Ctz, x as i32), Ok(ValInst::I32(x.trailing_zeros() as i32)));
        assert_eq!(un32(IUnOp::Popcnt, x as i32), Ok(ValInst::I32(x.count_ones() as i32)));
    }
}

#[test]
fn sign_extension() {
    assert_eq!(un32(IUnOp::Extend8S, 0x80), Ok(ValInst::I32(-128)));
    assert_eq!(un32(IUnOp::Extend8S, 0x17f), Ok(ValInst::I32(127)));
    assert_eq!(un32(IUnOp::Extend16S, 0x8000), Ok(ValInst::I32(-32768)));
    assert_eq!(
        eval_pure(PureOp::IUn(Width::W64, IUnOp::Extend32S), &[ValInst::I64(0x8000_0000)]),
        Ok(ValInst::I64(-2147483648))
    );
    assert_eq!(un32(IUnOp::Extend32S, 1), Err(Trap::ValTypeNotEq));
    assert_eq!(eval_pure(PureOp::Wrap, &[ValInst::I64(0x1_ffff_ffff)]), Ok(ValInst::I32(-1)));
    assert_eq!(eval_pure(PureOp::Extend(true), &[ValInst::I32(-1)]), Ok(ValInst::I64(-1)));
    assert_eq!(
        eval_pure(PureOp::Extend(false), &[ValInst::I32(-1)]),
        Ok(ValInst::I64(0xffff_ffff))
    );
}

#[test]
fn comparisons_give_one_or_zero() {
    let rel = |op: IRelOp, a: i32, b: i32| {
        eval_pure(PureOp::IRel(Width::W32, op), &[ValInst::I32(a), ValInst::I32(b)])
    };
    assert_eq!(rel(IRelOp::LtS, -1, 0), Ok(ValInst::I32(1)));
    assert_eq!(rel(IRelOp::LtU, -1, 0), Ok(ValInst::I32(0)));
    assert_eq!(rel(IRelOp::GtU, -1, 0), Ok(ValInst::I32(1)));
    assert_eq!(rel(IRelOp::GeS, 3, 3), Ok(ValInst::I32(1)));
    assert_eq!(rel(IRelOp::LeU, 4, 3), Ok(ValInst::I32(0)));
    assert_eq!(rel(IRelOp::Eq, 4, 4), Ok(ValInst::I32(1)));
    assert_eq!(rel(IRelOp::Ne, 4, 4), Ok(ValInst::I32(0)));
    assert_eq!(eval_pure(PureOp::IEqz(Width::W32), &[ValInst::I32(0)]), Ok(ValInst::I32(1)));
    assert_eq!(eval_pure(PureOp::IEqz(Width::W64), &[ValInst::I64(5)]), Ok(ValInst::I32(0)));
}

#[test]
fn operands_of_the_wrong_type_are_rejected() {
    assert_eq!(
        eval_pure(PureOp::IBin(Width::W32, IBinOp::Add), &[ValInst::I32(1), ValInst::I64(1)]),
        Err(Trap::ValTypeNotEq)
    );
    assert_eq!(eval_pure(PureOp::IEqz(Width::W64), &[ValInst::I32(0)]), Err(Trap::ValTypeNotEq));
    assert_eq!(
        eval_pure(PureOp::IBin(Width::W8, IBinOp::Add), &[ValInst::I32(1), ValInst::I32(1)]),
        Err(Trap::ValTypeNotEq)
    );
}

#[test]
fn reinterpretation_keeps_the_bits() {
    for bits in [0u32, 1, 0x3f80_0000, 0x7fc0_0000, 0xffff_ffff, 0x8000_0000] {
        let as_int = eval_pure(PureOp::FloatBits(Width::W32), &[ValInst::F32(bits)]).unwrap();
        assert_eq!(as_int, ValInst::I32(bits as i32));
        assert_eq!(eval_pure(PureOp::BitsFloat(Width::W32), &[as_int]), Ok(ValInst::F32(bits)));
    }
    for bits in [0u64, 0x3ff0_0000_0000_0000, u64::MAX, 0x8000_0000_0000_0000] {
        let as_int = eval_pure(PureOp::FloatBits(Width::W64), &[ValInst::F64(bits)]).unwrap();
        assert_eq!(as_int, ValInst::I64(bits as i64));
        assert_eq!(eval_pure(PureOp::BitsFloat(Width::W64), &[as_int]), Ok(ValInst::F64(bits)));
    }
}

#[test]
fn sign_bit_operations_agree_with_floats() {
    let values = [0.0f32, -0.0, 1.5, -2.25, f32::INFINITY, f32::NEG_INFINITY, f32::NAN, -f32::NAN];
    for x in values {
        let bits = ValInst::F32(x.to_bits());
        assert_eq!(
            eval_pure(PureOp::FBit(Width::W32, FBitOp::Abs), &[bits]),
            Ok(ValInst::F32(x.abs().to_bits()))
        );
        assert_eq!(
            eval_pure(PureOp::FBit(Width::W32, FBitOp::Neg), &[bits]),
            Ok(ValInst::F32((-x).to_bits()))
        );
        assert_eq!(eval_pure(PureOp::FBit(Width::W32, FBitOp::Copysign), &[bits, bits]), Ok(bits));
        for y in values {
            assert_eq!(
                eval_pure(PureOp::FBit(Width::W32, FBitOp::Copysign), &[bits, ValInst::F32(y.to_bits())]),
                Ok(ValInst::F32(x.copysign(y).to_bits()))
            );
        }
    }
    for (x, y) in [(1.0f64, -1.0f64), (-3.5, 2.0), (f64::NAN, -0.0), (0.0, f64::NEG_INFINITY)] {
        assert_eq!(
            eval_pure(
                PureOp::FBit(Width::W64, FBitOp::Copysign),
                &[ValInst::F64(x.to_bits()), ValInst::F64(y.to_bits())]
            ),
            Ok(ValInst::F64(x.copysign(y).to_bits()))
        );
        assert_eq!(
            eval_pure(PureOp::FBit(Width::W64, FBitOp::Abs), &[ValInst::F64(y.to_bits())]),
            Ok(ValInst::F64(y.abs().to_bits()))
        );
    }
}

#[test]
fn the_alu_works_at_every_width() {
    assert_eq!(ibin(IBinOp::Add, 127, 1, Width::W8), Ok(-128));
    assert_eq!(ibin(IBinOp::Mul, -128, -128, Width::W8), Ok(0));
    assert_eq!(ibin(IBinOp::DivS, -128, -1, Width::W8), Err(Trap::IntegerOverflow));
    assert_eq!(ibin(IBinOp::Shl, 1, 15, Width::W16), Ok(-32768));
    assert_eq!(ibin(IBinOp::ShrU, -1, 4, Width::W16), Ok(0x0fff));
    assert_eq!(ibin(IBinOp::Rotl, 0x81u8 as i8 as i64, 1, Width::W8), Ok(3));
    assert!(irel(IRelOp::LtU, 1, -1, Width::W16));
    assert!(!irel(IRelOp::LtS, 1, -1, Width::W16));
    assert_eq!(iun(IUnOp::Abs, -128, Width::W8), -128);
    assert_eq!(iun(IUnOp::Neg, 5, Width::W16), -5);
    assert_eq!(iun(IUnOp::Popcnt, -1, Width::W8), 8);
    assert_eq!(iun(IUnOp::Clz, 1, Width::W16), 15);
}

#[test]
fn reference_tests() {
    assert_eq!(eval_pure(PureOp::RefIsNull, &[ValInst::FuncRef(None)]), Ok(ValInst::I32(1)));
    assert_eq!(eval_pure(PureOp::RefIsNull, &[ValInst::FuncRef(Some(3))]), Ok(ValInst::I32(0)));
    assert_eq!(eval_pure(PureOp::RefIsNull, &[ValInst::ExternRef(Some(0))]), Ok(ValInst::I32(0)));
    assert_eq!(eval_pure(PureOp::RefIsNull, &[ValInst::NullRef]), Ok(ValInst::I32(1)));
    assert_eq!(eval_pure(PureOp::RefIsNull, &[ValInst::I32(0)]), Err(Trap::ValTypeNotEq));
    assert_eq!(eval_pure(PureOp::Const(ValInst::I64(9)), &[]), Ok(ValInst::I64(9)));
}
