//! The encoder: from the typed module back to bytes.

use vstd::prelude::*;

use super::instruction::instr_view;
use super::instruction::lemma_expr_view;
use super::instruction::expr_view;
use super::instruction::Block;
use super::instruction::BlockType;
use super::instruction::InstrView;
use super::instruction::Instruction;
use super::instruction::MemoryArg;
use super::leb128::encode_name;
use super::leb128::encode_signed;
use super::leb128::encode_u32;
use super::leb128::encode_unsigned;
use super::leb128::encode_usize;
use super::leb128::extend_bytes;
use super::leb128::spec_encode_name;
use super::leb128::spec_encode_signed;
use super::leb128::spec_encode_unsigned;
use super::section::exprs_view;
use super::section::CodeSeg;
use super::section::CodeSegView;
use super::section::CustomSeg;
use super::section::CustomSegView;
use super::section::DataMode;
use super::section::DataSeg;
use super::section::DataSegView;
use super::section::ElementMode;
use super::section::ElementModeView;
use super::section::ElementSeg;
use super::section::ElementSegView;
use super::section::ExportDesc;
use super::section::ExportSeg;
use super::section::ExportSegView;
use super::section::Expr;
use super::section::GlobalSeg;
use super::section::GlobalSegView;
use super::section::ImportDesc;
use super::section::ImportSeg;
use super::section::ImportSegView;
use super::section::Locals;
use super::section::MaybeU32;
use super::section::Section;
use super::types::FuncType;
use super::types::FuncTypeView;
use super::types::GlobalType;
use super::types::Limits;
use super::types::TableType;
use super::types::ValType;
use crate::execution::value::spec_v128_bytes;

verus! {

/// A type that can be written in the binary format.
pub trait Encode: DeepView {
    /// The bytes that stand for a value.
    spec fn spec_encode(v: Self::V) -> Seq<u8>;

    fn encode(&self) -> (r: Vec<u8>)
        ensures
            r@ == Self::spec_encode(self.deep_view()),
    ;
}

/// A vector of values that can be written in the binary format.
pub trait Encodes {
    /// The bytes that stand for the vector; with `count_byte`, their
    /// number is written in front of them.
    spec fn spec_encodes(&self, count_byte: bool) -> Seq<u8>;

    fn encodes(&self, count_byte: bool) -> (r: Vec<u8>)
        ensures
            r@ == self.spec_encodes(count_byte),
    ;
}

/// The bytes of the first `k` values, one after the other.
pub open spec fn spec_encode_items<T: Encode>(items: Seq<T::V>, k: int) -> Seq<u8>
    decreases k,
{
    if k <= 0 {
        Seq::empty()
    } else {
        spec_encode_items::<T>(items, k - 1) + T::spec_encode(items[k - 1])
    }
}

/// A vector: the count as unsigned LEB128, then the values; with
/// `count_byte`, in front of both the number of bytes they take.
pub open spec fn spec_encode_vec<T: Encode>(items: Seq<T::V>, count_byte: bool) -> Seq<u8> {
    let body = spec_encode_unsigned(items.len()) + spec_encode_items::<T>(
        items,
        items.len() as int,
    );
    if count_byte {
        spec_encode_unsigned(body.len()) + body
    } else {
        body
    }
}

impl<T: Encode> Encodes for Vec<T> {
    open spec fn spec_encodes(&self, count_byte: bool) -> Seq<u8> {
        spec_encode_vec::<T>(self.deep_view(), count_byte)
    }

    fn encodes(&self, count_byte: bool) -> (r: Vec<u8>) {
        let mut body = encode_usize(self.len());
        let ghost head = body@;
        let mut i: usize = 0;
        while i < self.len()
            invariant
                i <= self.len(),
                body@ == head + spec_encode_items::<T>(self.deep_view(), i as int),
            decreases self.len() - i,
        {
            let item = self[i].encode();
            extend_bytes(&mut body, item.as_slice());
            i += 1;
            proof {
                assert(body@ =~= head + spec_encode_items::<T>(self.deep_view(), i as int));
            }
        }
        if count_byte {
            let mut result = encode_usize(body.len());
            extend_bytes(&mut result, body.as_slice());
            result
        } else {
            body
        }
    }
}

/// The four bytes of a number, least significant byte first.
pub open spec fn le_bytes32(x: u32) -> Seq<u8> {
    seq![
        (x % 0x100) as u8,
        (x / 0x100 % 0x100) as u8,
        (x / 0x1_0000 % 0x100) as u8,
        (x / 0x100_0000) as u8,
    ]
}

/// The eight bytes of a number, least significant byte first.
pub open spec fn le_bytes64(x: u64) -> Seq<u8> {
    le_bytes32((x % 0x1_0000_0000) as u32) + le_bytes32((x / 0x1_0000_0000) as u32)
}

pub fn bytes32(x: u32) -> (r: Vec<u8>)
    ensures
        r@ == le_bytes32(x),
{
    let r = vec![
        (x % 0x100) as u8,
        (x / 0x100 % 0x100) as u8,
        (x / 0x1_0000 % 0x100) as u8,
        (x / 0x100_0000) as u8,
    ];
    assert(r@ =~= le_bytes32(x));
    r
}

pub fn bytes64(x: u64) -> (r: Vec<u8>)
    ensures
        r@ == le_bytes64(x),
{
    let mut r = bytes32((x % 0x1_0000_0000) as u32);
    let hi = bytes32((x / 0x1_0000_0000) as u32);
    extend_bytes(&mut r, hi.as_slice());
    r
}

pub open spec fn spec_encode_memarg(m: MemoryArg) -> Seq<u8> {
    spec_encode_unsigned(m.align as nat) + spec_encode_unsigned(m.offset as nat)
}

fn encode_pair(x: u32, y: u32) -> (r: Vec<u8>)
    ensures
        r@ == spec_encode_unsigned(x as nat) + spec_encode_unsigned(y as nat),
{
    let mut r = encode_u32(x);
    let second = encode_u32(y);
    extend_bytes(&mut r, second.as_slice());
    r
}

fn encode_memarg_lane(m: &MemoryArg, lane: u8) -> (r: Vec<u8>)
    ensures
        r@ == spec_encode_memarg(*m).push(lane),
{
    let mut r = m.encode();
    r.push(lane);
    r
}

impl DeepView for MemoryArg {
    type V = MemoryArg;

    open spec fn deep_view(&self) -> MemoryArg {
        *self
    }
}

impl Encode for MemoryArg {
    open spec fn spec_encode(v: MemoryArg) -> Seq<u8> {
        spec_encode_memarg(v)
    }

    fn encode(&self) -> (r: Vec<u8>) {
        encode_pair(self.align, self.offset)
    }
}

impl DeepView for BlockType {
    type V = BlockType;

    open spec fn deep_view(&self) -> BlockType {
        *self
    }
}

impl Encode for BlockType {
    open spec fn spec_encode(v: BlockType) -> Seq<u8> {
        spec_encode_signed(v.spec_code() as int)
    }

    fn encode(&self) -> (r: Vec<u8>) {
        encode_signed(self.code() as i64)
    }
}

/// The bytes of an opcode tag: one byte below 0xFC, else the prefix byte
/// and the byte after it.
pub open spec fn spec_opcode_bytes(tag: u16) -> Seq<u8> {
    if tag < 0xfc {
        seq![tag as u8]
    } else {
        seq![(tag / 0x100) as u8, (tag % 0x100) as u8]
    }
}

/// The immediates of an instruction that holds no sequence.
pub open spec fn spec_encode_immediates(i: Instruction) -> Seq<u8> {
    match i {
        Instruction::Br(x) => spec_encode_unsigned(x as nat),
        Instruction::BrIf(x) => spec_encode_unsigned(x as nat),
        Instruction::Call(x) => spec_encode_unsigned(x as nat),
        Instruction::CallIndirect(x, y) => spec_encode_unsigned(x as nat) + spec_encode_unsigned(y as nat),
        Instruction::Select2(x, t) => seq![x, t.spec_byte()],
        Instruction::LocalGet(x) => spec_encode_unsigned(x as nat),
        Instruction::LocalSet(x) => spec_encode_unsigned(x as nat),
        Instruction::LocalTee(x) => spec_encode_unsigned(x as nat),
        Instruction::GlobalGet(x) => spec_encode_unsigned(x as nat),
        Instruction::GlobalSet(x) => spec_encode_unsigned(x as nat),
        Instruction::TableGet(x) => spec_encode_unsigned(x as nat),
        Instruction::TableSet(x) => spec_encode_unsigned(x as nat),
        Instruction::I32Load(m) => spec_encode_memarg(m),
        Instruction::I64Load(m) => spec_encode_memarg(m),
        Instruction::F32Load(m) => spec_encode_memarg(m),
        Instruction::F64Load(m) => spec_encode_memarg(m),
        Instruction::I32Load8S(m) => spec_encode_memarg(m),
        Instruction::I32Load8U(m) => spec_encode_memarg(m),
        Instruction::I32Load16S(m) => spec_encode_memarg(m),
        Instruction::I32Load16U(m) => spec_encode_memarg(m),
        Instruction::I64Load8S(m) => spec_encode_memarg(m),
        Instruction::I64Load8U(m) => spec_encode_memarg(m),
        Instruction::I64Load16S(m) => spec_encode_memarg(m),
        Instruction::I64Load16U(m) => spec_encode_memarg(m),
        Instruction::I64Load32S(m) => spec_encode_memarg(m),
        Instruction::I64Load32U(m) => spec_encode_memarg(m),
        Instruction::I32Store(m) => spec_encode_memarg(m),
        Instruction::I64Store(m) => spec_encode_memarg(m),
        Instruction::F32Store(m) => spec_encode_memarg(m),
        Instruction::F64Store(m) => spec_encode_memarg(m),
        Instruction::I32Store8(m) => spec_encode_memarg(m),
        Instruction::I32Store16(m) => spec_encode_memarg(m),
        Instruction::I64Store8(m) => spec_encode_memarg(m),
        Instruction::I64Store16(m) => spec_encode_memarg(m),
        Instruction::I64Store32(m) => spec_encode_memarg(m),
        Instruction::MemorySize(x) => seq![x],
        Instruction::MemoryGrow(x) => seq![x],
        Instruction::I32Const(x) => spec_encode_signed(x as int),
        Instruction::I64Const(x) => spec_encode_signed(x as int),
        Instruction::F32Const(x) => le_bytes32(x),
        Instruction::F64Const(x) => le_bytes64(x),
        Instruction::RefNull(x) => spec_encode_unsigned(x as nat),
        Instruction::RefFunc(x) => spec_encode_unsigned(x as nat),
        Instruction::MemoryInit(x, y) => spec_encode_unsigned(x as nat) + spec_encode_unsigned(y as nat),
        Instruction::DataDrop(x) => spec_encode_unsigned(x as nat),
        Instruction::MemoryCopy(x, y) => spec_encode_unsigned(x as nat) + spec_encode_unsigned(y as nat),
        Instruction::MemoryFill(x) => spec_encode_unsigned(x as nat),
        Instruction::TableInit(x, y) => spec_encode_unsigned(x as nat) + spec_encode_unsigned(y as nat),
        Instruction::ElemDrop(x) => spec_encode_unsigned(x as nat),
        Instruction::TableCopy(x, y) => spec_encode_unsigned(x as nat) + spec_encode_unsigned(y as nat),
        Instruction::TableGrow(x) => spec_encode_unsigned(x as nat),
        Instruction::TableSize(x) => spec_encode_unsigned(x as nat),
        Instruction::TableFill(x) => spec_encode_unsigned(x as nat),
        Instruction::V128Load(m) => spec_encode_memarg(m),
        Instruction::V128Load8x8S(m) => spec_encode_memarg(m),
        Instruction::V128Load8x8U(m) => spec_encode_memarg(m),
        Instruction::V128Load16x4S(m) => spec_encode_memarg(m),
        Instruction::V128Load16x4U(m) => spec_encode_memarg(m),
        Instruction::V128Load32x2S(m) => spec_encode_memarg(m),
        Instruction::V128Load32x2U(m) => spec_encode_memarg(m),
        Instruction::V128Load8Splat(m) => spec_encode_memarg(m),
        Instruction::V128Load16Splat(m) => spec_encode_memarg(m),
        Instruction::V128Load32Splat(m) => spec_encode_memarg(m),
        Instruction::V128Load64Splat(m) => spec_encode_memarg(m),
        Instruction::V128Store(m) => spec_encode_memarg(m),
        Instruction::V128Const(x) => spec_v128_bytes(x),
        Instruction::I8x16ExtractLaneS(x) => seq![x],
        Instruction::I8x16ExtractLaneU(x) => seq![x],
        Instruction::I8x16ReplaceLane(x) => seq![x],
        Instruction::I16x8ExtractLaneS(x) => seq![x],
        Instruction::I16x8ExtractLaneU(x) => seq![x],
        Instruction::I16x8ReplaceLane(x) => seq![x],
        Instruction::I32x4ExtractLane(x) => seq![x],
        Instruction::I32x4ReplaceLane(x) => seq![x],
        Instruction::I64x2ExtractLane(x) => seq![x],
        Instruction::I64x2ReplaceLane(x) => seq![x],
        Instruction::F32x4ExtractLane(x) => seq![x],
        Instruction::F32x4ReplaceLane(x) => seq![x],
        Instruction::F64x2ExtractLane(x) => seq![x],
        Instruction::F64x2ReplaceLane(x) => seq![x],
        Instruction::V128Load8Lane(m, l) => spec_encode_memarg(m).push(l),
        Instruction::V128Load16Lane(m, l) => spec_encode_memarg(m).push(l),
        Instruction::V128Load32Lane(m, l) => spec_encode_memarg(m).push(l),
        Instruction::V128Load64Lane(m, l) => spec_encode_memarg(m).push(l),
        Instruction::V128Store8Lane(m, l) => spec_encode_memarg(m).push(l),
        Instruction::V128Store16Lane(m, l) => spec_encode_memarg(m).push(l),
        Instruction::V128Store32Lane(m, l) => spec_encode_memarg(m).push(l),
        Instruction::V128Store64Lane(m, l) => spec_encode_memarg(m).push(l),
        Instruction::V128Load32Zero(m) => spec_encode_memarg(m),
        Instruction::V128Load64Zero(m) => spec_encode_memarg(m),
        Instruction::I16x8Abs(x) => seq![x],
        Instruction::I16x8Neg(x) => seq![x],
        Instruction::I16x8Q15mulrSatS(x) => seq![x],
        Instruction::I16x8AllTrue(x) => seq![x],
        Instruction::I16x8Bitmask(x) => seq![x],
        Instruction::I16x8NarrowI32x4S(x) => seq![x],
        Instruction::I16x8NarrowI32x4U(x) => seq![x],
        Instruction::I16x8ExtendLowI8x16S(x) => seq![x],
        Instruction::I16x8ExtendHighI8x16S(x) => seq![x],
        Instruction::I16x8ExtendLowI8x16U(x) => seq![x],
        Instruction::I16x8ExtendHighI8x16U(x) => seq![x],
        Instruction::I16x8Shl(x) => seq![x],
        Instruction::I16x8ShrS(x) => seq![x],
        Instruction::I16x8ShrU(x) => seq![x],
        Instruction::I16x8Add(x) => seq![x],
        Instruction::I16x8AddSatS(x) => seq![x],
        Instruction::I16x8AddSatU(x) => seq![x],
        Instruction::I16x8Sub(x) => seq![x],
        Instruction::I16x8SubSatS(x) => seq![x],
        Instruction::I16x8SubSatU(x) => seq![x],
        Instruction::F64x2Nearest(x) => seq![x],
        Instruction::I16x8Mul(x) => seq![x],
        Instruction::I16x8MinS(x) => seq![x],
        Instruction::I16x8MinU(x) => seq![x],
        Instruction::I16x8MaxS(x) => seq![x],
        Instruction::I16x8MaxU(x) => seq![x],
        Instruction::I16x8AvgrU(x) => seq![x],
        Instruction::I16x8ExtmulLowI8x16S(x) => seq![x],
        Instruction::I16x8ExtmulHighI8x16S(x) => seq![x],
        Instruction::I16x8ExtmulLowI8x16U(x) => seq![x],
        Instruction::I16x8ExtmulHighI8x16U(x) => seq![x],
        Instruction::I32x4Abs(x) => seq![x],
        Instruction::I32x4Neg(x) => seq![x],
        Instruction::I32x4AllTrue(x) => seq![x],
        Instruction::I32x4Bitmask(x) => seq![x],
        Instruction::I32x4ExtendLowI16x8S(x) => seq![x],
        Instruction::I32x4ExtendHighI16x8S(x) => seq![x],
        Instruction::I32x4ExtendLowI16x8U(x) => seq![x],
        Instruction::I32x4ExtendHighI16x8U(x) => seq![x],
        Instruction::I32x4Shl(x) => seq![x],
        Instruction::I32x4ShrS(x) => seq![x],
        Instruction::I32x4ShrU(x) => seq![x],
        Instruction::I32x4Add(x) => seq![x],
        Instruction::I32x4Sub(x) => seq![x],
        Instruction::I32x4Mul(x) => seq![x],
        Instruction::I32x4MinS(x) => seq![x],
        Instruction::I32x4MinU(x) => seq![x],
        Instruction::I32x4MaxS(x) => seq![x],
        Instruction::I32x4MaxU(x) => seq![x],
        Instruction::I32x4DotI16x8S(x) => seq![x],
        Instruction::I32x4ExtmulLowI16x8S(x) => seq![x],
        Instruction::I32x4ExtmulHighI16x8S(x) => seq![x],
        Instruction::I32x4ExtmulLowI16x8U(x) => seq![x],
        Instruction::I32x4ExtmulHighI16x8U(x) => seq![x],
        Instruction::I64x2Abs(x) => seq![x],
        Instruction::I64x2Neg(x) => seq![x],
        Instruction::I64x2AllTrue(x) => seq![x],
        Instruction::I64x2Bitmask(x) => seq![x],
        Instruction::I64x2ExtendLowI32x4S(x) => seq![x],
        Instruction::I64x2ExtendHighI32x4S(x) => seq![x],
        Instruction::I64x2ExtendLowI32x4U(x) => seq![x],
        Instruction::I64x2ExtendHighI32x4U(x) => seq![x],
        Instruction::I64x2Shl(x) => seq![x],
        Instruction::I64x2ShrS(x) => seq![x],
        Instruction::I64x2ShrU(x) => seq![x],
        Instruction::I64x2Add(x) => seq![x],
        Instruction::I64x2Sub(x) => seq![x],
        Instruction::I64x2Mul(x) => seq![x],
        Instruction::I64x2Eq(x) => seq![x],
        Instruction::I64x2Ne(x) => seq![x],
        Instruction::I64x2LtS(x) => seq![x],
        Instruction::I64x2GtS(x) => seq![x],
        Instruction::I64x2LeS(x) => seq![x],
        Instruction::I64x2GeS(x) => seq![x],
        Instruction::I64x2ExtmulLowI32x4S(x) => seq![x],
        Instruction::I64x2ExtmulHighI32x4S(x) => seq![x],
        Instruction::I64x2ExtmulLowI32x4U(x) => seq![x],
        Instruction::I64x2ExtmulHighI32x4U(x) => seq![x],
        Instruction::F32x4Abs(x) => seq![x],
        Instruction::F32x4Neg(x) => seq![x],
        Instruction::F32x4Sqrt(x) => seq![x],
        Instruction::F32x4Add(x) => seq![x],
        Instruction::F32x4Sub(x) => seq![x],
        Instruction::F32x4Mul(x) => seq![x],
        Instruction::F32x4Div(x) => seq![x],
        Instruction::F32x4Min(x) => seq![x],
        Instruction::F32x4Max(x) => seq![x],
        Instruction::F32x4Pmin(x) => seq![x],
        Instruction::F32x4Pmax(x) => seq![x],
        Instruction::F64x2Abs(x) => seq![x],
        Instruction::F64x2Neg(x) => seq![x],
        Instruction::F64x2Sqrt(x) => seq![x],
        Instruction::F64x2Add(x) => seq![x],
        Instruction::F64x2Sub(x) => seq![x],
        Instruction::F64x2Mul(x) => seq![x],
        Instruction::F64x2Div(x) => seq![x],
        Instruction::F64x2Min(x) => seq![x],
        Instruction::F64x2Max(x) => seq![x],
        Instruction::F64x2Pmin(x) => seq![x],
        Instruction::F64x2Pmax(x) => seq![x],
        Instruction::I32x4TruncSatF32x4S(x) => seq![x],
        Instruction::I32x4TruncSatF32x4U(x) => seq![x],
        Instruction::F32x4ConvertI32x4S(x) => seq![x],
        Instruction::F32x4ConvertI32x4U(x) => seq![x],
        Instruction::I32x4TruncSatF64x2SZero(x) => seq![x],
        Instruction::I32x4TruncSatF64x2UZero(x) => seq![x],
        Instruction::F64x2ConvertLowI32x4S(x) => seq![x],
        Instruction::F64x2ConvertLowI32x4U(x) => seq![x],
        _ => Seq::empty(),
    }
}

/// The bytes of a label table: the count, the labels, the default.
pub open spec fn spec_encode_labels(labels: Seq<u32>, k: int) -> Seq<u8>
    decreases k,
{
    if k <= 0 {
        Seq::empty()
    } else {
        spec_encode_labels(labels, k - 1) + spec_encode_unsigned(labels[k - 1] as nat)
    }
}

/// The bytes of an instruction: its opcode, then its immediates.
pub open spec fn spec_encode_instr(i: InstrView) -> Seq<u8>
    decreases i,
{
    match i {
        InstrView::Block(t, body) => seq![0x02u8] + BlockType::spec_encode(t) + spec_encode_expr(
            body,
        ),
        InstrView::Loop(t, body) => seq![0x03u8] + BlockType::spec_encode(t) + spec_encode_expr(
            body,
        ),
        InstrView::If(t, first, second) => seq![0x04u8] + BlockType::spec_encode(t) + (if second.len()
            == 0 {
            spec_encode_expr(first)
        } else {
            spec_encode_body(first, first.len() as int) + seq![0x05u8] + spec_encode_expr(second)
        }),
        InstrView::BrTable(labels, default) => seq![0x0eu8] + spec_encode_unsigned(labels.len())
            + spec_encode_labels(labels, labels.len() as int) + spec_encode_unsigned(
            default as nat,
        ),
        InstrView::Shuffle(lanes) => seq![0xfdu8, 0x0du8] + lanes,
        InstrView::Plain(p) => spec_opcode_bytes(p.spec_discriminant()) + spec_encode_immediates(
            p,
        ),
    }
}

/// The bytes of the first `k` instructions, one after the other.
pub open spec fn spec_encode_body(e: Seq<InstrView>, k: int) -> Seq<u8>
    decreases e, k,
{
    if k <= 0 || k > e.len() {
        Seq::empty()
    } else {
        spec_encode_body(e, k - 1) + spec_encode_instr(e[k - 1])
    }
}

/// The bytes of an expression: its instructions, then `end`.
pub open spec fn spec_encode_expr(e: Seq<InstrView>) -> Seq<u8>
    decreases e, e.len() + 1,
{
    spec_encode_body(e, e.len() as int).push(0x0bu8)
}

fn opcode_bytes(tag: u16) -> (r: Vec<u8>)
    ensures
        r@ == spec_opcode_bytes(tag),
{
    let r = if tag < 0xfc {
        vec![tag as u8]
    } else {
        vec![(tag / 0x100) as u8, (tag % 0x100) as u8]
    };
    assert(r@ =~= spec_opcode_bytes(tag));
    r
}

/// Writes the immediates of an instruction that holds no sequence.
fn encode_immediates(i: &Instruction) -> (r: Vec<u8>)
    ensures
        r@ == spec_encode_immediates(*i),
{
    let r = match i {
            Instruction::Br(x) => encode_u32(*x),
            Instruction::BrIf(x) => encode_u32(*x),
            Instruction::Call(x) => encode_u32(*x),
            Instruction::CallIndirect(x, y) => encode_pair(*x, *y),
            Instruction::Select2(x, t) => vec![*x, t.byte()],
            Instruction::LocalGet(x) => encode_u32(*x),
            Instruction::LocalSet(x) => encode_u32(*x),
            Instruction::LocalTee(x) => encode_u32(*x),
            Instruction::GlobalGet(x) => encode_u32(*x),
            Instruction::GlobalSet(x) => encode_u32(*x),
            Instruction::TableGet(x) => encode_u32(*x),
            Instruction::TableSet(x) => encode_u32(*x),
            Instruction::I32Load(m) => m.encode(),
            Instruction::I64Load(m) => m.encode(),
            Instruction::F32Load(m) => m.encode(),
            Instruction::F64Load(m) => m.encode(),
            Instruction::I32Load8S(m) => m.encode(),
            Instruction::I32Load8U(m) => m.encode(),
            Instruction::I32Load16S(m) => m.encode(),
            Instruction::I32Load16U(m) => m.encode(),
            Instruction::I64Load8S(m) => m.encode(),
            Instruction::I64Load8U(m) => m.encode(),
            Instruction::I64Load16S(m) => m.encode(),
            Instruction::I64Load16U(m) => m.encode(),
            Instruction::I64Load32S(m) => m.encode(),
            Instruction::I64Load32U(m) => m.encode(),
            Instruction::I32Store(m) => m.encode(),
            Instruction::I64Store(m) => m.encode(),
            Instruction::F32Store(m) => m.encode(),
            Instruction::F64Store(m) => m.encode(),
            Instruction::I32Store8(m) => m.encode(),
            Instruction::I32Store16(m) => m.encode(),
            Instruction::I64Store8(m) => m.encode(),
            Instruction::I64Store16(m) => m.encode(),
            Instruction::I64Store32(m) => m.encode(),
            Instruction::MemorySize(x) => vec![*x],
            Instruction::MemoryGrow(x) => vec![*x],
            Instruction::I32Const(x) => encode_signed(*x as i64),
            Instruction::I64Const(x) => encode_signed(*x),
            Instruction::F32Const(x) => bytes32(*x),
            Instruction::F64Const(x) => bytes64(*x),
            Instruction::RefNull(x) => encode_unsigned(*x),
            Instruction::RefFunc(x) => encode_u32(*x),
            Instruction::MemoryInit(x, y) => encode_pair(*x, *y),
            Instruction::DataDrop(x) => encode_u32(*x),
            Instruction::MemoryCopy(x, y) => encode_pair(*x, *y),
            Instruction::MemoryFill(x) => encode_u32(*x),
            Instruction::TableInit(x, y) => encode_pair(*x, *y),
            Instruction::ElemDrop(x) => encode_u32(*x),
            Instruction::TableCopy(x, y) => encode_pair(*x, *y),
            Instruction::TableGrow(x) => encode_u32(*x),
            Instruction::TableSize(x) => encode_u32(*x),
            Instruction::TableFill(x) => encode_u32(*x),
            Instruction::V128Load(m) => m.encode(),
            Instruction::V128Load8x8S(m) => m.encode(),
            Instruction::V128Load8x8U(m) => m.encode(),
            Instruction::V128Load16x4S(m) => m.encode(),
            Instruction::V128Load16x4U(m) => m.encode(),
            Instruction::V128Load32x2S(m) => m.encode(),
            Instruction::V128Load32x2U(m) => m.encode(),
            Instruction::V128Load8Splat(m) => m.encode(),
            Instruction::V128Load16Splat(m) => m.encode(),
            Instruction::V128Load32Splat(m) => m.encode(),
            Instruction::V128Load64Splat(m) => m.encode(),
            Instruction::V128Store(m) => m.encode(),
            Instruction::V128Const(x) => x.to_bytes(),
            Instruction::I8x16ExtractLaneS(x) => vec![*x],
            Instruction::I8x16ExtractLaneU(x) => vec![*x],
            Instruction::I8x16ReplaceLane(x) => vec![*x],
            Instruction::I16x8ExtractLaneS(x) => vec![*x],
            Instruction::I16x8ExtractLaneU(x) => vec![*x],
            Instruction::I16x8ReplaceLane(x) => vec![*x],
            Instruction::I32x4ExtractLane(x) => vec![*x],
            Instruction::I32x4ReplaceLane(x) => vec![*x],
            Instruction::I64x2ExtractLane(x) => vec![*x],
            Instruction::I64x2ReplaceLane(x) => vec![*x],
            Instruction::F32x4ExtractLane(x) => vec![*x],
            Instruction::F32x4ReplaceLane(x) => vec![*x],
            Instruction::F64x2ExtractLane(x) => vec![*x],
            Instruction::F64x2ReplaceLane(x) => vec![*x],
            Instruction::V128Load8Lane(m, l) => encode_memarg_lane(m, *l),
            Instruction::V128Load16Lane(m, l) => encode_memarg_lane(m, *l),
            Instruction::V128Load32Lane(m, l) => encode_memarg_lane(m, *l),
            Instruction::V128Load64Lane(m, l) => encode_memarg_lane(m, *l),
            Instruction::V128Store8Lane(m, l) => encode_memarg_lane(m, *l),
            Instruction::V128Store16Lane(m, l) => encode_memarg_lane(m, *l),
            Instruction::V128Store32Lane(m, l) => encode_memarg_lane(m, *l),
            Instruction::V128Store64Lane(m, l) => encode_memarg_lane(m, *l),
            Instruction::V128Load32Zero(m) => m.encode(),
            Instruction::V128Load64Zero(m) => m.encode(),
            Instruction::I16x8Abs(x) => vec![*x],
            Instruction::I16x8Neg(x) => vec![*x],
            Instruction::I16x8Q15mulrSatS(x) => vec![*x],
            Instruction::I16x8AllTrue(x) => vec![*x],
            Instruction::I16x8Bitmask(x) => vec![*x],
            Instruction::I16x8NarrowI32x4S(x) => vec![*x],
            Instruction::I16x8NarrowI32x4U(x) => vec![*x],
            Instruction::I16x8ExtendLowI8x16S(x) => vec![*x],
            Instruction::I16x8ExtendHighI8x16S(x) => vec![*x],
            Instruction::I16x8ExtendLowI8x16U(x) => vec![*x],
            Instruction::I16x8ExtendHighI8x16U(x) => vec![*x],
            Instruction::I16x8Shl(x) => vec![*x],
            Instruction::I16x8ShrS(x) => vec![*x],
            Instruction::I16x8ShrU(x) => vec![*x],
            Instruction::I16x8Add(x) => vec![*x],
            Instruction::I16x8AddSatS(x) => vec![*x],
            Instruction::I16x8AddSatU(x) => vec![*x],
            Instruction::I16x8Sub(x) => vec![*x],
            Instruction::I16x8SubSatS(x) => vec![*x],
            Instruction::I16x8SubSatU(x) => vec![*x],
            Instruction::F64x2Nearest(x) => vec![*x],
            Instruction::I16x8Mul(x) => vec![*x],
            Instruction::I16x8MinS(x) => vec![*x],
            Instruction::I16x8MinU(x) => vec![*x],
            Instruction::I16x8MaxS(x) => vec![*x],
            Instruction::I16x8MaxU(x) => vec![*x],
            Instruction::I16x8AvgrU(x) => vec![*x],
            Instruction::I16x8ExtmulLowI8x16S(x) => vec![*x],
            Instruction::I16x8ExtmulHighI8x16S(x) => vec![*x],
            Instruction::I16x8ExtmulLowI8x16U(x) => vec![*x],
            Instruction::I16x8ExtmulHighI8x16U(x) => vec![*x],
            Instruction::I32x4Abs(x) => vec![*x],
            Instruction::I32x4Neg(x) => vec![*x],
            Instruction::I32x4AllTrue(x) => vec![*x],
            Instruction::I32x4Bitmask(x) => vec![*x],
            Instruction::I32x4ExtendLowI16x8S(x) => vec![*x],
            Instruction::I32x4ExtendHighI16x8S(x) => vec![*x],
            Instruction::I32x4ExtendLowI16x8U(x) => vec![*x],
            Instruction::I32x4ExtendHighI16x8U(x) => vec![*x],
            Instruction::I32x4Shl(x) => vec![*x],
            Instruction::I32x4ShrS(x) => vec![*x],
            Instruction::I32x4ShrU(x) => vec![*x],
            Instruction::I32x4Add(x) => vec![*x],
            Instruction::I32x4Sub(x) => vec![*x],
            Instruction::I32x4Mul(x) => vec![*x],
            Instruction::I32x4MinS(x) => vec![*x],
            Instruction::I32x4MinU(x) => vec![*x],
            Instruction::I32x4MaxS(x) => vec![*x],
            Instruction::I32x4MaxU(x) => vec![*x],
            Instruction::I32x4DotI16x8S(x) => vec![*x],
            Instruction::I32x4ExtmulLowI16x8S(x) => vec![*x],
            Instruction::I32x4ExtmulHighI16x8S(x) => vec![*x],
            Instruction::I32x4ExtmulLowI16x8U(x) => vec![*x],
            Instruction::I32x4ExtmulHighI16x8U(x) => vec![*x],
            Instruction::I64x2Abs(x) => vec![*x],
            Instruction::I64x2Neg(x) => vec![*x],
            Instruction::I64x2AllTrue(x) => vec![*x],
            Instruction::I64x2Bitmask(x) => vec![*x],
            Instruction::I64x2ExtendLowI32x4S(x) => vec![*x],
            Instruction::I64x2ExtendHighI32x4S(x) => vec![*x],
            Instruction::I64x2ExtendLowI32x4U(x) => vec![*x],
            Instruction::I64x2ExtendHighI32x4U(x) => vec![*x],
            Instruction::I64x2Shl(x) => vec![*x],
            Instruction::I64x2ShrS(x) => vec![*x],
            Instruction::I64x2ShrU(x) => vec![*x],
            Instruction::I64x2Add(x) => vec![*x],
            Instruction::I64x2Sub(x) => vec![*x],
            Instruction::I64x2Mul(x) => vec![*x],
            Instruction::I64x2Eq(x) => vec![*x],
            Instruction::I64x2Ne(x) => vec![*x],
            Instruction::I64x2LtS(x) => vec![*x],
            Instruction::I64x2GtS(x) => vec![*x],
            Instruction::I64x2LeS(x) => vec![*x],
            Instruction::I64x2GeS(x) => vec![*x],
            Instruction::I64x2ExtmulLowI32x4S(x) => vec![*x],
            Instruction::I64x2ExtmulHighI32x4S(x) => vec![*x],
            Instruction::I64x2ExtmulLowI32x4U(x) => vec![*x],
            Instruction::I64x2ExtmulHighI32x4U(x) => vec![*x],
            Instruction::F32x4Abs(x) => vec![*x],
            Instruction::F32x4Neg(x) => vec![*x],
            Instruction::F32x4Sqrt(x) => vec![*x],
            Instruction::F32x4Add(x) => vec![*x],
            Instruction::F32x4Sub(x) => vec![*x],
            Instruction::F32x4Mul(x) => vec![*x],
            Instruction::F32x4Div(x) => vec![*x],
            Instruction::F32x4Min(x) => vec![*x],
            Instruction::F32x4Max(x) => vec![*x],
            Instruction::F32x4Pmin(x) => vec![*x],
            Instruction::F32x4Pmax(x) => vec![*x],
            Instruction::F64x2Abs(x) => vec![*x],
            Instruction::F64x2Neg(x) => vec![*x],
            Instruction::F64x2Sqrt(x) => vec![*x],
            Instruction::F64x2Add(x) => vec![*x],
            Instruction::F64x2Sub(x) => vec![*x],
            Instruction::F64x2Mul(x) => vec![*x],
            Instruction::F64x2Div(x) => vec![*x],
            Instruction::F64x2Min(x) => vec![*x],
            Instruction::F64x2Max(x) => vec![*x],
            Instruction::F64x2Pmin(x) => vec![*x],
            Instruction::F64x2Pmax(x) => vec![*x],
            Instruction::I32x4TruncSatF32x4S(x) => vec![*x],
            Instruction::I32x4TruncSatF32x4U(x) => vec![*x],
            Instruction::F32x4ConvertI32x4S(x) => vec![*x],
            Instruction::F32x4ConvertI32x4U(x) => vec![*x],
            Instruction::I32x4TruncSatF64x2SZero(x) => vec![*x],
            Instruction::I32x4TruncSatF64x2UZero(x) => vec![*x],
            Instruction::F64x2ConvertLowI32x4S(x) => vec![*x],
            Instruction::F64x2ConvertLowI32x4U(x) => vec![*x],
        _ => Vec::new(),
    };
    assert(r@ =~= spec_encode_immediates(*i));
    r
}

/// Writes the instructions of a body one after the other.
pub fn encode_body(e: &Expr) -> (r: Vec<u8>)
    ensures
        r@ == spec_encode_body(expr_view(e@), e@.len() as int),
    decreases e, 0nat,
{
    let mut result: Vec<u8> = Vec::new();
    let mut i: usize = 0;
    proof {
        lemma_expr_view(e@);
    }
    while i < e.len()
        invariant
            i <= e.len(),
            expr_view(e@).len() == e@.len(),
            forall|k: int| 0 <= k < e@.len() ==> #[trigger] expr_view(e@)[k] == instr_view(e@[k]),
            result@ == spec_encode_body(expr_view(e@), i as int),
        decreases e.len() - i,
    {
        let item = encode_instr(&e[i]);
        extend_bytes(&mut result, item.as_slice());
        i += 1;
    }
    result
}

/// Writes an expression: its instructions, then `end`.
pub fn encode_expr(e: &Expr) -> (r: Vec<u8>)
    ensures
        r@ == spec_encode_expr(expr_view(e@)),
    decreases e, 1nat,
{
    proof {
        lemma_expr_view(e@);
    }
    let mut result = encode_body(e);
    result.push(0x0b);
    result
}

/// Writes an instruction: its opcode, then its immediates.
pub fn encode_instr(i: &Instruction) -> (r: Vec<u8>)
    ensures
        r@ == spec_encode_instr(instr_view(*i)),
    decreases i,
{
    match i {
        Instruction::Block(b) => {
            let mut result: Vec<u8> = vec![0x02];
            let t = b.type_.encode();
            extend_bytes(&mut result, t.as_slice());
            let body = encode_expr(&b.expr);
            extend_bytes(&mut result, body.as_slice());
            assert(result@ =~= spec_encode_instr(instr_view(*i)));
            result
        },
        Instruction::Loop(b) => {
            let mut result: Vec<u8> = vec![0x03];
            let t = b.type_.encode();
            extend_bytes(&mut result, t.as_slice());
            let body = encode_expr(&b.expr);
            extend_bytes(&mut result, body.as_slice());
            assert(result@ =~= spec_encode_instr(instr_view(*i)));
            result
        },
        Instruction::If(b) => {
            let mut result: Vec<u8> = vec![0x04];
            let t = b.type_.encode();
            extend_bytes(&mut result, t.as_slice());
            proof {
                lemma_expr_view(b.if_expr@);
                lemma_expr_view(b.else_expr@);
            }
            if b.else_expr.len() == 0 {
                let first = encode_expr(&b.if_expr);
                extend_bytes(&mut result, first.as_slice());
            } else {
                let first = encode_body(&b.if_expr);
                extend_bytes(&mut result, first.as_slice());
                result.push(0x05);
                let second = encode_expr(&b.else_expr);
                extend_bytes(&mut result, second.as_slice());
            }
            assert(result@ =~= spec_encode_instr(instr_view(*i)));
            result
        },
        Instruction::BrTable(arg) => {
            let mut result: Vec<u8> = vec![0x0e];
            let count = encode_usize(arg.labels.len());
            extend_bytes(&mut result, count.as_slice());
            let ghost head = result@;
            let mut k: usize = 0;
            while k < arg.labels.len()
                invariant
                    k <= arg.labels.len(),
                    result@ == head + spec_encode_labels(arg.labels@, k as int),
                decreases arg.labels.len() - k,
            {
                let l = encode_u32(arg.labels[k]);
                extend_bytes(&mut result, l.as_slice());
                k += 1;
                proof {
                    assert(result@ =~= head + spec_encode_labels(arg.labels@, k as int));
                }
            }
            let d = encode_u32(arg.default);
            extend_bytes(&mut result, d.as_slice());
            assert(result@ =~= spec_encode_instr(instr_view(*i)));
            result
        },
        Instruction::I8x16Shuffle(lanes) => {
            let mut result: Vec<u8> = vec![0xfd, 0x0d];
            extend_bytes(&mut result, lanes.as_slice());
            assert(result@ =~= spec_encode_instr(instr_view(*i)));
            result
        },
        _ => {
            let mut result = opcode_bytes(i.discriminant());
            let data = encode_immediates(i);
            extend_bytes(&mut result, data.as_slice());
            result
        },
    }
}

impl Encode for Instruction {
    open spec fn spec_encode(v: InstrView) -> Seq<u8> {
        spec_encode_instr(v)
    }

    fn encode(&self) -> (r: Vec<u8>) {
        encode_instr(self)
    }
}

impl Encode for Expr {
    open spec fn spec_encode(v: Seq<InstrView>) -> Seq<u8> {
        spec_encode_expr(v)
    }

    fn encode(&self) -> (r: Vec<u8>) {
        proof {
            super::instruction::lemma_expr_deep_view(*self);
        }
        encode_expr(self)
    }
}

impl Encode for u32 {
    open spec fn spec_encode(v: u32) -> Seq<u8> {
        spec_encode_unsigned(v as nat)
    }

    fn encode(&self) -> (r: Vec<u8>) {
        encode_u32(*self)
    }
}

impl Encode for ValType {
    open spec fn spec_encode(v: ValType) -> Seq<u8> {
        seq![v.spec_byte()]
    }

    fn encode(&self) -> (r: Vec<u8>) {
        vec![self.byte()]
    }
}

impl Encode for FuncType {
    open spec fn spec_encode(v: FuncTypeView) -> Seq<u8> {
        seq![0x60u8] + spec_encode_vec::<ValType>(v.params, false) + spec_encode_vec::<ValType>(
            v.results,
            false,
        )
    }

    fn encode(&self) -> (r: Vec<u8>) {
        let mut result: Vec<u8> = vec![0x60];
        let params = self.params.encodes(false);
        extend_bytes(&mut result, params.as_slice());
        let results = self.results.encodes(false);
        extend_bytes(&mut result, results.as_slice());
        proof {
            assert(self.params.deep_view() =~= self.params@);
            assert(self.results.deep_view() =~= self.results@);
        }
        result
    }
}

impl Encode for Limits {
    open spec fn spec_encode(v: Limits) -> Seq<u8> {
        match v.max {
            Some(max) => seq![1u8] + spec_encode_unsigned(v.min as nat) + spec_encode_unsigned(
                max as nat,
            ),
            None => seq![0u8] + spec_encode_unsigned(v.min as nat),
        }
    }

    fn encode(&self) -> (r: Vec<u8>) {
        let mut result: Vec<u8> = Vec::new();
        match self.max {
            Some(max) => {
                result.push(1);
                let min = encode_u32(self.min);
                extend_bytes(&mut result, min.as_slice());
                let max = encode_u32(max);
                extend_bytes(&mut result, max.as_slice());
            },
            None => {
                result.push(0);
                let min = encode_u32(self.min);
                extend_bytes(&mut result, min.as_slice());
            },
        }
        assert(result@ =~= Self::spec_encode(*self));
        result
    }
}

impl Encode for TableType {
    open spec fn spec_encode(v: TableType) -> Seq<u8> {
        seq![v.elem_type.spec_byte()] + Limits::spec_encode(v.limits)
    }

    fn encode(&self) -> (r: Vec<u8>) {
        let mut result: Vec<u8> = vec![self.elem_type.byte()];
        let limits = self.limits.encode();
        extend_bytes(&mut result, limits.as_slice());
        result
    }
}

impl Encode for GlobalType {
    open spec fn spec_encode(v: GlobalType) -> Seq<u8> {
        seq![v.val_type.spec_byte(), v.mut_.spec_byte()]
    }

    fn encode(&self) -> (r: Vec<u8>) {
        vec![self.val_type.byte(), self.mut_.byte()]
    }
}

impl Encode for GlobalSeg {
    open spec fn spec_encode(v: GlobalSegView) -> Seq<u8> {
        GlobalType::spec_encode(v.type_) + spec_encode_expr(v.init_expr)
    }

    fn encode(&self) -> (r: Vec<u8>) {
        let mut result = self.type_.encode();
        let init = encode_expr(&self.init_expr);
        extend_bytes(&mut result, init.as_slice());
        result
    }
}

/// The bytes of what an import asks for: the kind byte, then the type.
pub open spec fn spec_encode_import_desc(desc: ImportDesc) -> Seq<u8> {
    match desc {
        ImportDesc::Func(idx) => seq![0x00u8] + spec_encode_unsigned(idx as nat),
        ImportDesc::Table(t) => seq![0x01u8] + TableType::spec_encode(t),
        ImportDesc::Mem(t) => seq![0x02u8] + Limits::spec_encode(t),
        ImportDesc::Global(t) => seq![0x03u8] + GlobalType::spec_encode(t),
    }
}

impl Encode for ImportSeg {
    open spec fn spec_encode(v: ImportSegView) -> Seq<u8> {
        spec_encode_name(v.module) + spec_encode_name(v.name) + spec_encode_import_desc(v.desc)
    }

    fn encode(&self) -> (r: Vec<u8>) {
        let mut result = encode_name(self.module.as_str());
        let name = encode_name(self.name.as_str());
        extend_bytes(&mut result, name.as_slice());
        let (kind, desc) = match &self.desc {
            ImportDesc::Func(idx) => (0x00u8, encode_u32(*idx)),
            ImportDesc::Table(type_) => (0x01u8, type_.encode()),
            ImportDesc::Mem(type_) => (0x02u8, type_.encode()),
            ImportDesc::Global(type_) => (0x03u8, type_.encode()),
        };
        result.push(kind);
        extend_bytes(&mut result, desc.as_slice());
        assert(result@ =~= Self::spec_encode(self.deep_view()));
        result
    }
}

/// The bytes of what an export names: the kind byte, then the index.
pub open spec fn spec_encode_export_desc(desc: ExportDesc) -> Seq<u8> {
    match desc {
        ExportDesc::Func(idx) => seq![0x00u8] + spec_encode_unsigned(idx as nat),
        ExportDesc::Table(idx) => seq![0x01u8] + spec_encode_unsigned(idx as nat),
        ExportDesc::Mem(idx) => seq![0x02u8] + spec_encode_unsigned(idx as nat),
        ExportDesc::Global(idx) => seq![0x03u8] + spec_encode_unsigned(idx as nat),
    }
}

impl Encode for ExportSeg {
    open spec fn spec_encode(v: ExportSegView) -> Seq<u8> {
        spec_encode_name(v.name) + spec_encode_export_desc(v.desc)
    }

    fn encode(&self) -> (r: Vec<u8>) {
        let mut result = encode_name(self.name.as_str());
        let (kind, idx) = match &self.desc {
            ExportDesc::Func(idx) => (0x00u8, *idx),
            ExportDesc::Table(idx) => (0x01u8, *idx),
            ExportDesc::Mem(idx) => (0x02u8, *idx),
            ExportDesc::Global(idx) => (0x03u8, *idx),
        };
        result.push(kind);
        let desc = encode_u32(idx);
        extend_bytes(&mut result, desc.as_slice());
        assert(result@ =~= Self::spec_encode(self.deep_view()));
        result
    }
}

/// A section that holds one index, if there is one: the id, the number of
/// bytes of the index, the index.
pub open spec fn spec_encode_maybeu32_sec(sec_id: Section, v: MaybeU32) -> Seq<u8> {
    match v {
        Some(data) => seq![sec_id.spec_id()] + spec_encode_unsigned(
            spec_encode_unsigned(data as nat).len(),
        ) + spec_encode_unsigned(data as nat),
        None => Seq::empty(),
    }
}

pub fn encode_maybeu32_sec(sec_id: Section, v: MaybeU32) -> (r: Vec<u8>)
    ensures
        r@ == spec_encode_maybeu32_sec(sec_id, v),
{
    let mut result: Vec<u8> = Vec::new();
    if let Some(data) = v {
        let data = encode_u32(data);
        result.push(sec_id.id());
        let size = encode_usize(data.len());
        extend_bytes(&mut result, size.as_slice());
        extend_bytes(&mut result, data.as_slice());
        assert(result@ =~= spec_encode_maybeu32_sec(sec_id, v));
    }
    result
}

impl Encode for Locals {
    open spec fn spec_encode(v: Locals) -> Seq<u8> {
        spec_encode_unsigned(v.n as nat).push(v.value_type.spec_byte())
    }

    fn encode(&self) -> (r: Vec<u8>) {
        let mut result = encode_u32(self.n);
        result.push(self.value_type.byte());
        result
    }
}

impl Encode for CodeSeg {
    open spec fn spec_encode(v: CodeSegView) -> Seq<u8> {
        let inside = spec_encode_vec::<Locals>(v.locals, false) + spec_encode_expr(v.body);
        spec_encode_unsigned(inside.len()) + inside
    }

    fn encode(&self) -> (r: Vec<u8>) {
        let mut inside = self.locals.encodes(false);
        let body = encode_expr(&self.body);
        extend_bytes(&mut inside, body.as_slice());
        let mut result = encode_usize(inside.len());
        extend_bytes(&mut result, inside.as_slice());
        proof {
            assert(self.locals.deep_view() =~= self.locals@);
        }
        result
    }
}

/// The bytes of the mode of an element segment: for the flags 0 and 4 the
/// offset, for 2 and 6 the table index and the offset.
pub open spec fn spec_encode_element_mode(flag: u32, mode: ElementModeView) -> Seq<u8> {
    match mode {
        ElementModeView::Active { table_idx, offset_expr } => if flag == 0 || flag == 4 {
            spec_encode_expr(offset_expr)
        } else if flag == 2 || flag == 6 {
            spec_encode_unsigned(table_idx as nat) + spec_encode_expr(offset_expr)
        } else {
            Seq::empty()
        },
        _ => Seq::empty(),
    }
}

impl Encode for ElementSeg {
    open spec fn spec_encode(v: ElementSegView) -> Seq<u8> {
        spec_encode_unsigned(v.flag as nat) + spec_encode_element_mode(v.flag, v.mode) + (if v.flag
            <= 4 {
            Seq::empty()
        } else {
            seq![v.type_.spec_byte()]
        }) + (if 1 <= v.flag <= 3 {
            spec_encode_signed(v.elem_kind as int)
        } else {
            Seq::empty()
        }) + (if v.flag <= 3 {
            spec_encode_vec::<u32>(v.func_idxs, false)
        } else {
            spec_encode_vec::<Expr>(v.init_expr, false)
        })
    }

    fn encode(&self) -> (r: Vec<u8>) {
        let mut result = encode_u32(self.flag);
        match &self.mode {
            ElementMode::Active { table_idx, offset_expr } => {
                if self.flag == 0 || self.flag == 4 {
                    let offset = encode_expr(offset_expr);
                    extend_bytes(&mut result, offset.as_slice());
                } else if self.flag == 2 || self.flag == 6 {
                    let idx = encode_u32(*table_idx);
                    extend_bytes(&mut result, idx.as_slice());
                    let offset = encode_expr(offset_expr);
                    extend_bytes(&mut result, offset.as_slice());
                }
            },
            _ => {},
        }
        let ghost with_mode = result@;
        assert(with_mode =~= spec_encode_unsigned(self.flag as nat) + spec_encode_element_mode(
            self.flag,
            self.mode.deep_view(),
        ));
        if self.flag > 4 {
            result.push(self.type_.byte());
        }
        if 1 <= self.flag && self.flag <= 3 {
            let kind = encode_signed(self.elem_kind as i64);
            extend_bytes(&mut result, kind.as_slice());
        }
        let init = if self.flag <= 3 {
            self.func_idxs.encodes(false)
        } else {
            self.init_expr.encodes(false)
        };
        extend_bytes(&mut result, init.as_slice());
        proof {
            assert(self.func_idxs.deep_view() =~= self.func_idxs@);
            assert(self.init_expr.deep_view() =~= exprs_view(self.init_expr@)) by {
                assert forall|k: int| 0 <= k < self.init_expr@.len() implies self.init_expr@[k].deep_view()
                    == expr_view(self.init_expr@[k]@) by {
                    super::instruction::lemma_expr_deep_view(self.init_expr@[k]);
                }
            }
            assert(result@ =~= Self::spec_encode(self.deep_view()));
        }
        result
    }
}

impl Encode for DataSeg {
    open spec fn spec_encode(v: DataSegView) -> Seq<u8> {
        spec_encode_unsigned(v.flag as nat) + (if v.flag == 2 {
            spec_encode_unsigned(v.mem_idx as nat)
        } else {
            Seq::empty()
        }) + (if v.mode == DataMode::Active {
            spec_encode_expr(v.offset_expr)
        } else {
            Seq::empty()
        }) + spec_encode_unsigned(v.init.len()) + v.init
    }

    fn encode(&self) -> (r: Vec<u8>) {
        let mut result = encode_u32(self.flag);
        if self.flag == 2 {
            let idx = encode_u32(self.mem_idx);
            extend_bytes(&mut result, idx.as_slice());
        }
        if matches!(self.mode, DataMode::Active) {
            let offset = encode_expr(&self.offset_expr);
            extend_bytes(&mut result, offset.as_slice());
        }
        let size = encode_usize(self.init.len());
        extend_bytes(&mut result, size.as_slice());
        extend_bytes(&mut result, self.init.as_slice());
        assert(result@ =~= Self::spec_encode(self.deep_view()));
        result
    }
}

/// A custom section: the id 0, the number of bytes that follow, the name,
/// the data.
pub open spec fn spec_encode_custom(v: CustomSegView) -> Seq<u8> {
    let inside = spec_encode_name(v.name) + v.data;
    seq![0u8] + spec_encode_unsigned(inside.len()) + inside
}

impl CustomSeg {
    pub fn encode(&self) -> (r: Vec<u8>)
        ensures
            r@ == spec_encode_custom(self.deep_view()),
    {
        let mut inside = encode_name(self.name.as_str());
        extend_bytes(&mut inside, self.data.as_slice());
        let mut result: Vec<u8> = vec![Section::Custom.id()];
        let total = encode_usize(inside.len());
        extend_bytes(&mut result, total.as_slice());
        extend_bytes(&mut result, inside.as_slice());
        assert(result@ =~= spec_encode_custom(self.deep_view()));
        result
    }
}

/// A section that holds a vector, if the vector is not empty: the id, the
/// number of bytes that follow, the vector.
pub open spec fn spec_encode_sec<T: Encode>(sec_id: Section, items: Seq<T::V>) -> Seq<u8> {
    if items.len() == 0 {
        Seq::empty()
    } else {
        seq![sec_id.spec_id()] + spec_encode_vec::<T>(items, true)
    }
}

/// Writes a section that holds a vector; an empty vector gives no bytes.
pub fn encode_sec<T: Encode>(sec_id: Section, sec_data: &Vec<T>) -> (r: Vec<u8>)
    ensures
        r@ == spec_encode_sec::<T>(sec_id, sec_data.deep_view()),
{
    let mut result: Vec<u8> = Vec::new();
    if sec_data.len() > 0 {
        result.push(sec_id.id());
        let body = sec_data.encodes(true);
        extend_bytes(&mut result, body.as_slice());
        assert(result@ =~= spec_encode_sec::<T>(sec_id, sec_data.deep_view()));
    }
    result
}

} // verus!
