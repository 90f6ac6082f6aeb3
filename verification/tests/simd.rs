use wasm::execution::errors::Trap;
use wasm::execution::instr::alu::{IBinOp, IRelOp, IUnOp};
use wasm::execution::instr::lanes::{from_lanes, lanes, LaneBinOp, MixOp, Shape};
use wasm::execution::instr::pure::{eval_pure, LaneGet, PureOp, VBitOp};
use wasm::execution::value::{v128, ToV128, ValInst};

fn vec8(lanes: [i8; 16]) -> v128 {
    v128::new(lanes.map(|x| x as u8))
}

fn vec16(lanes: [i16; 8]) -> v128 {
    from_lanes(&lanes.iter().map(|x| *x as i64).collect(), Shape::I16x8)
}

fn vec32(lanes: [i32; 4]) -> v128 {
    v128(lanes[0], lanes[1], lanes[2], lanes[3])
}

fn vec64(lanes: [i64; 2]) -> v128 {
    from_lanes(&lanes.to_vec(), Shape::I64x2)
}

fn bin(shape: Shape, op: LaneBinOp, a: v128, b: v128) -> v128 {
    match eval_pure(PureOp::VBin(shape, op), &[ValInst::V128(a), ValInst::V128(b)]) {
        Ok(ValInst::V128(v)) => v,
        other => panic!("not a vector: {:?}", other),
    }
}

fn mix(op: MixOp, args: &[v128]) -> v128 {
    let args: Vec<ValInst> = args.iter().map(|v| ValInst::V128(*v)).collect();
    match eval_pure(PureOp::VMix(op), &args) {
        Ok(ValInst::V128(v)) => v,
        other => panic!("not a vector: {:?}", other),
    }
}

#[test]
fn lanes_are_cut_in_memory_order() {
    let v = v128::new([1, 0, 2, 0, 3, 0, 4, 0, 0xff, 0xff, 0, 0x80, 7, 0, 0, 0]);
    assert_eq!(lanes(v, Shape::I16x8), vec![1, 2, 3, 4, -1, -32768, 7, 0]);
    assert_eq!(lanes(v, Shape::I32x4), vec![0x0002_0001, 0x0004_0003, -2147418113, 7]);
    assert_eq!(lanes(v, Shape::I8x16)[8], -1);
    assert_eq!(lanes(v, Shape::I64x2), vec![0x0004_0003_0002_0001, 0x0000_0007_8000_ffff]);
    for shape in [Shape::I8x16, Shape::I16x8, Shape::I32x4, Shape::I64x2] {
        assert_eq!(from_lanes(&lanes(v, shape), shape), v);
    }
    assert_eq!(from_lanes(&vec![0x1ff, -129, 0, 0, 0, 0, 0, 0, 0, 0, 0, 0, 0, 0, 0, 0], Shape::I8x16),
        vec8([-1, 127, 0, 0, 0, 0, 0, 0, 0, 0, 0, 0, 0, 0, 0, 0]));
    let bytes: [u8; 16] = [9; 16];
    assert_eq!(bytes.v128(), v128::new(bytes));
}

#[test]
fn lanewise_arithmetic() {
    let a = vec8([127, -128, 1, 2, 3, 4, 5, 6, 7, 8, 9, 10, 11, 12, 13, 14]);
    let b = vec8([1, -1, 1, 1, 1, 1, 1, 1, 1, 1, 1, 1, 1, 1, 1, 1]);
    assert_eq!(
        bin(Shape::I8x16, LaneBinOp::Int(IBinOp::Add), a, b),
        vec8([-128, 127, 2, 3, 4, 5, 6, 7, 8, 9, 10, 11, 12, 13, 14, 15])
    );
    assert_eq!(
        bin(Shape::I8x16, LaneBinOp::AddSatS, a, b),
        vec8([127, -128, 2, 3, 4, 5, 6, 7, 8, 9, 10, 11, 12, 13, 14, 15])
    );
    assert_eq!(
        bin(Shape::I8x16, LaneBinOp::AddSatU, a, b)
            .to_bytes()[..3],
        [128, 255, 2]
    );
    assert_eq!(
        bin(Shape::I8x16, LaneBinOp::SubSatU, b, a).to_bytes()[..3],
        [0, 127, 0]
    );
    assert_eq!(
        bin(Shape::I8x16, LaneBinOp::SubSatS, a, b).to_bytes()[..2],
        [126, 0x81]
    );
    assert_eq!(
        bin(Shape::I32x4, LaneBinOp::Int(IBinOp::Mul), vec32([2, -3, i32::MAX, 0]), vec32([3, 3, 2, 9])),
        vec32([6, -9, -2, 0])
    );
    assert_eq!(
        bin(Shape::I64x2, LaneBinOp::Int(IBinOp::Sub), vec64([0, i64::MIN]), vec64([1, 1])),
        vec64([-1, i64::MAX])
    );
    assert_eq!(
        bin(Shape::I16x8, LaneBinOp::AvgrU, vec16([1, 2, -1, 0, 0, 0, 0, 0]), vec16([2, 2, -1, 1, 0, 0, 0, 0])),
        vec16([2, 2, -1, 1, 0, 0, 0, 0])
    );
}

#[test]
fn lanewise_minimum_and_maximum() {
    let a = vec16([1, -1, 5, 0, 0, 0, 0, 0]);
    let b = vec16([2, 1, -5, 0, 0, 0, 0, 0]);
    assert_eq!(bin(Shape::I16x8, LaneBinOp::MinS, a, b), vec16([1, -1, -5, 0, 0, 0, 0, 0]));
    assert_eq!(bin(Shape::I16x8, LaneBinOp::MinU, a, b), vec16([1, 1, 5, 0, 0, 0, 0, 0]));
    assert_eq!(bin(Shape::I16x8, LaneBinOp::MaxS, a, b), vec16([2, 1, 5, 0, 0, 0, 0, 0]));
    assert_eq!(bin(Shape::I16x8, LaneBinOp::MaxU, a, b), vec16([2, -1, -5, 0, 0, 0, 0, 0]));
}

#[test]
fn lanewise_comparisons_give_masks() {
    let a = vec32([1, -1, 3, 4]);
    let b = vec32([1, 0, 4, 3]);
    assert_eq!(bin(Shape::I32x4, LaneBinOp::Rel(IRelOp::Eq), a, b), vec32([-1, 0, 0, 0]));
    assert_eq!(bin(Shape::I32x4, LaneBinOp::Rel(IRelOp::LtS), a, b), vec32([0, -1, -1, 0]));
    assert_eq!(bin(Shape::I32x4, LaneBinOp::Rel(IRelOp::LtU), a, b), vec32([0, 0, -1, 0]));
    assert_eq!(bin(Shape::I32x4, LaneBinOp::Rel(IRelOp::GeS), a, b), vec32([-1, 0, 0, -1]));
    assert_eq!(
        bin(Shape::I64x2, LaneBinOp::Rel(IRelOp::Ne), vec64([5, 6]), vec64([5, 7])),
        vec64([0, -1])
    );
}

#[test]
fn fixed_point_multiplication_rounds_and_saturates() {
    let a = vec16([0x4000, -32768, 0x7fff, 1, 0, 0, 0, 0]);
    let b = vec16([0x4000, -32768, 0x7fff, 1, 0, 0, 0, 0]);
    assert_eq!(
        bin(Shape::I16x8, LaneBinOp::Q15MulrSatS, a, b),
        vec16([0x2000, 0x7fff, 0x7ffe, 0, 0, 0, 0, 0])
    );
}

#[test]
fn unary_lane_operations() {
    let un = |shape: Shape, op: IUnOp, a: v128| match eval_pure(PureOp::VUn(shape, op), &[ValInst::V128(a)]) {
        Ok(ValInst::V128(v)) => v,
        other => panic!("not a vector: {:?}", other),
    };
    assert_eq!(un(Shape::I32x4, IUnOp::Abs, vec32([-1, 1, i32::MIN, 0])), vec32([1, 1, i32::MIN, 0]));
    assert_eq!(un(Shape::I32x4, IUnOp::Neg, vec32([-1, 1, i32::MIN, 0])), vec32([1, -1, i32::MIN, 0]));
    assert_eq!(
        un(Shape::I8x16, IUnOp::Popcnt, vec8([-1, 3, 0, 1, 0, 0, 0, 0, 0, 0, 0, 0, 0, 0, 0, 0x70])),
        vec8([8, 2, 0, 1, 0, 0, 0, 0, 0, 0, 0, 0, 0, 0, 0, 3])
    );
    assert_eq!(
        eval_pure(PureOp::VUn(Shape::I8x16, IUnOp::Clz), &[ValInst::V128(vec32([0; 4]))]),
        Err(Trap::ValTypeNotEq)
    );
}

#[test]
fn lane_shifts() {
    let shift = |shape: Shape, op: IBinOp, a: v128, by: i32| match eval_pure(
        PureOp::VShift(shape, op),
        &[ValInst::V128(a), ValInst::I32(by)],
    ) {
        Ok(ValInst::V128(v)) => v,
        other => panic!("not a vector: {:?}", other),
    };
    assert_eq!(shift(Shape::I16x8, IBinOp::Shl, vec16([1, -1, 0x4000, 0, 0, 0, 0, 0]), 1),
        vec16([2, -2, -32768, 0, 0, 0, 0, 0]));
    assert_eq!(shift(Shape::I16x8, IBinOp::Shl, vec16([1, 0, 0, 0, 0, 0, 0, 0]), 17),
        vec16([2, 0, 0, 0, 0, 0, 0, 0]));
    assert_eq!(shift(Shape::I32x4, IBinOp::ShrS, vec32([-8, 8, -1, 0]), 2), vec32([-2, 2, -1, 0]));
    assert_eq!(shift(Shape::I32x4, IBinOp::ShrU, vec32([-8, 8, -1, 0]), 2),
        vec32([0x3fff_fffe, 2, 0x3fff_ffff, 0]));
    assert_eq!(shift(Shape::I64x2, IBinOp::Shl, vec64([1, 3]), 63), vec64([i64::MIN, i64::MIN]));
}

#[test]
fn whole_vector_bit_operations() {
    let a = vec32([0b1100, -1, 0, 0x0f0f]);
    let b = vec32([0b1010, 0x00ff, -1, 0x00ff]);
    let op = |o: PureOp, args: &[v128]| {
        let args: Vec<ValInst> = args.iter().map(|v| ValInst::V128(*v)).collect();
        eval_pure(o, &args)
    };
    assert_eq!(op(PureOp::VBit(VBitOp::And), &[a, b]), Ok(ValInst::V128(vec32([0b1000, 0xff, 0, 0x0f]))));
    assert_eq!(op(PureOp::VBit(VBitOp::Or), &[a, b]), Ok(ValInst::V128(vec32([0b1110, -1, -1, 0x0fff]))));
    assert_eq!(op(PureOp::VBit(VBitOp::Xor), &[a, b]), Ok(ValInst::V128(vec32([0b0110, !0xff, -1, 0x0ff0]))));
    assert_eq!(op(PureOp::VBit(VBitOp::Andnot), &[a, b]), Ok(ValInst::V128(vec32([0b0100, !0xff, 0, 0x0f00]))));
    assert_eq!(op(PureOp::VNot, &[a]), Ok(ValInst::V128(vec32([!0b1100, 0, -1, !0x0f0f]))));
    assert_eq!(op(PureOp::VAnyTrue, &[a]), Ok(ValInst::I32(1)));
    assert_eq!(op(PureOp::VAnyTrue, &[vec32([0; 4])]), Ok(ValInst::I32(0)));
    let mask = vec32([0x0000_ffff, -1, 0, 0x5555_5555]);
    assert_eq!(
        op(PureOp::VBitselect, &[a, b, mask]),
        Ok(ValInst::V128(vec32([0b1100, -1, -1, 0x0505 | 0x00aa])))
    );
    for m in [mask, a, b, vec32([0; 4]), vec32([-1; 4])] {
        assert_eq!(op(PureOp::VBitselect, &[a, a, m]), Ok(ValInst::V128(a)));
    }
}

#[test]
fn shuffle_and_swizzle() {
    let a = v128::new([0, 1, 2, 3, 4, 5, 6, 7, 8, 9, 10, 11, 12, 13, 14, 15]);
    let b = v128::new([100, 101, 102, 103, 104, 105, 106, 107, 108, 109, 110, 111, 112, 113, 114, 115]);
    let sel = v128::new([0, 17, 2, 19, 4, 21, 6, 23, 8, 25, 10, 27, 12, 29, 14, 31]);
    assert_eq!(
        eval_pure(PureOp::VShuffle(sel), &[ValInst::V128(a), ValInst::V128(b)]),
        Ok(ValInst::V128(v128::new([0, 101, 2, 103, 4, 105, 6, 107, 8, 109, 10, 111, 12, 113, 14, 115])))
    );
    let bad = v128::new([32, 0, 0, 0, 0, 0, 0, 0, 0, 0, 0, 0, 0, 0, 0, 0]);
    assert_eq!(
        eval_pure(PureOp::VShuffle(bad), &[ValInst::V128(a), ValInst::V128(b)]),
        Err(Trap::OutofRange)
    );
    let picks = v128::new([15, 14, 16, 255, 0, 0, 1, 1, 2, 2, 3, 3, 4, 4, 5, 128]);
    assert_eq!(
        mix(MixOp::Swizzle, &[b, picks]),
        v128::new([115, 114, 0, 0, 100, 100, 101, 101, 102, 102, 103, 103, 104, 104, 105, 0])
    );
}

#[test]
fn narrowing_saturates() {
    let a = vec16([0, 127, 128, -128, -129, 255, 256, -1]);
    let b = vec16([1, 2, 3, 4, 5, 6, 7, 300]);
    assert_eq!(
        mix(MixOp::Narrow(Shape::I8x16, true), &[a, b]),
        vec8([0, 127, 127, -128, -128, 127, 127, -1, 1, 2, 3, 4, 5, 6, 7, 127])
    );
    assert_eq!(
        mix(MixOp::Narrow(Shape::I8x16, false), &[a, b]).to_bytes(),
        vec![0, 127, 128, 0, 0, 255, 255, 0, 1, 2, 3, 4, 5, 6, 7, 255]
    );
    assert_eq!(
        mix(MixOp::Narrow(Shape::I16x8, true), &[vec32([70000, -70000, 5, -5]), vec32([0, 1, 2, 3])]),
        vec16([32767, -32768, 5, -5, 0, 1, 2, 3])
    );
}

#[test]
fn extension_and_widening_arithmetic() {
    let a = vec8([-1, 2, -3, 4, -5, 6, -7, 8, 9, -10, 11, -12, 13, -14, 15, -16]);
    assert_eq!(mix(MixOp::Extend(Shape::I16x8, false, true), &[a]), vec16([-1, 2, -3, 4, -5, 6, -7, 8]));
    assert_eq!(mix(MixOp::Extend(Shape::I16x8, true, true), &[a]), vec16([9, -10, 11, -12, 13, -14, 15, -16]));
    assert_eq!(
        mix(MixOp::Extend(Shape::I16x8, false, false), &[a]),
        vec16([255, 2, 253, 4, 251, 6, 249, 8])
    );
    assert_eq!(
        mix(MixOp::Extend(Shape::I64x2, true, false), &[vec32([1, 2, -1, -2])]),
        vec64([0xffff_ffff, 0xffff_fffe])
    );
    assert_eq!(mix(MixOp::ExtAdd(Shape::I16x8, true), &[a]), vec16([1, 1, 1, 1, -1, -1, -1, -1]));
    assert_eq!(
        mix(MixOp::ExtAdd(Shape::I16x8, false), &[a]),
        vec16([257, 257, 257, 257, 255, 255, 255, 255])
    );
    assert_eq!(
        mix(MixOp::ExtMul(Shape::I16x8, false, true), &[a, a]),
        vec16([1, 4, 9, 16, 25, 36, 49, 64])
    );
    assert_eq!(
        mix(MixOp::ExtMul(Shape::I64x2, false, false), &[vec32([-1, 2, 0, 0]), vec32([-1, 3, 0, 0])]),
        vec64([-8589934591, 6])
    );
    assert_eq!(
        mix(MixOp::Dot, &[vec16([1, 2, 3, 4, -32768, -32768, 0, 1]), vec16([5, 6, 7, 8, -32768, -32768, 9, 9])]),
        vec32([17, 53, i32::MIN, 9])
    );
    assert_eq!(
        eval_pure(PureOp::VMix(MixOp::Extend(Shape::I8x16, false, true)), &[ValInst::V128(a)]),
        Err(Trap::ValTypeNotEq)
    );
}

#[test]
fn reductions() {
    let v = vec16([1, -1, 2, -2, 0, 5, -5, 8]);
    assert_eq!(eval_pure(PureOp::VAllTrue(Shape::I16x8), &[ValInst::V128(v)]), Ok(ValInst::I32(0)));
    assert_eq!(
        eval_pure(PureOp::VAllTrue(Shape::I16x8), &[ValInst::V128(vec16([1; 8]))]),
        Ok(ValInst::I32(1))
    );
    assert_eq!(
        eval_pure(PureOp::VAllTrue(Shape::I32x4), &[ValInst::V128(v)]),
        Ok(ValInst::I32(1))
    );
    assert_eq!(
        eval_pure(PureOp::VBitmask(Shape::I16x8), &[ValInst::V128(v)]),
        Ok(ValInst::I32(0b0100_1010))
    );
    assert_eq!(
        eval_pure(PureOp::VBitmask(Shape::I8x16), &[ValInst::V128(vec8([-1; 16]))]),
        Ok(ValInst::I32(0xffff))
    );
    assert_eq!(
        eval_pure(PureOp::VBitmask(Shape::I64x2), &[ValInst::V128(vec64([1, -1]))]),
        Ok(ValInst::I32(2))
    );
}

#[test]
fn splat_extract_and_replace() {
    assert_eq!(
        eval_pure(PureOp::VSplat(Shape::I8x16, false), &[ValInst::I32(0x1ff)]),
        Ok(ValInst::V128(vec8([-1; 16])))
    );
    assert_eq!(
        eval_pure(PureOp::VSplat(Shape::I64x2, false), &[ValInst::I64(-2)]),
        Ok(ValInst::V128(vec64([-2, -2])))
    );
    assert_eq!(
        eval_pure(PureOp::VSplat(Shape::I32x4, true), &[ValInst::F32(0xffc0_0000)]),
        Ok(ValInst::V128(vec32([0xffc0_0000u32 as i32; 4])))
    );
    assert_eq!(
        eval_pure(PureOp::VSplat(Shape::I64x2, true), &[ValInst::F64(u64::MAX)]),
        Ok(ValInst::V128(vec64([-1, -1])))
    );
    assert_eq!(
        eval_pure(PureOp::VSplat(Shape::I64x2, false), &[ValInst::I32(1)]),
        Err(Trap::ValTypeNotEq)
    );
    let v = vec8([-1, 2, 3, 4, 5, 6, 7, 8, 9, 10, 11, 12, 13, 14, 15, -128]);
    let get = |shape: Shape, how: LaneGet, lane: u8| eval_pure(PureOp::VExtract(shape, how, lane), &[ValInst::V128(v)]);
    assert_eq!(get(Shape::I8x16, LaneGet::Signed, 0), Ok(ValInst::I32(-1)));
    assert_eq!(get(Shape::I8x16, LaneGet::Unsigned, 0), Ok(ValInst::I32(255)));
    assert_eq!(get(Shape::I8x16, LaneGet::Unsigned, 15), Ok(ValInst::I32(128)));
    assert_eq!(get(Shape::I8x16, LaneGet::Signed, 16), Err(Trap::OutofRange));
    assert_eq!(get(Shape::I16x8, LaneGet::Signed, 0), Ok(ValInst::I32(0x02ff)));
    assert_eq!(get(Shape::I32x4, LaneGet::Float, 3), Ok(ValInst::F32(0x800f_0e0d)));
    assert_eq!(get(Shape::I64x2, LaneGet::Signed, 1), Ok(ValInst::I64(0x800f_0e0d_0c0b_0a09u64 as i64)));
    assert_eq!(get(Shape::I64x2, LaneGet::Float, 1), Ok(ValInst::F64(0x800f_0e0d_0c0b_0a09)));
    assert_eq!(get(Shape::I16x8, LaneGet::Float, 1), Err(Trap::ValTypeNotEq));
    assert_eq!(
        eval_pure(PureOp::VReplace(Shape::I32x4, false, 2), &[ValInst::V128(vec32([1, 2, 3, 4])), ValInst::I32(-9)]),
        Ok(ValInst::V128(vec32([1, 2, -9, 4])))
    );
    assert_eq!(
        eval_pure(PureOp::VReplace(Shape::I64x2, true, 0), &[ValInst::V128(vec64([1, 2])), ValInst::F64(u64::MAX)]),
        Ok(ValInst::V128(vec64([-1, 2])))
    );
    assert_eq!(
        eval_pure(PureOp::VReplace(Shape::I32x4, false, 4), &[ValInst::V128(vec32([1, 2, 3, 4])), ValInst::I32(0)]),
        Err(Trap::OutofRange)
    );
}
