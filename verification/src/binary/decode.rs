//! The decoder: from bytes to the typed module.

use std::rc::Rc;

use vstd::prelude::*;

use super::errors::DataCountOp;
use super::errors::DecodeErr;
use super::errors::ReservedOp;
use super::instruction::expr_view;
use super::instruction::instr_view;
use super::instruction::lemma_expr_view_push;
use super::instruction::Block;
use super::instruction::BlockType;
use super::instruction::BrTableArg;
use super::instruction::IfBlock;
use super::instruction::InstrView;
use super::instruction::Instruction;
use super::instruction::MemoryArg;
use super::reader::spec_bytes;
use super::reader::spec_leb_i32;
use super::reader::spec_leb_i64;
use super::reader::spec_leb_u32;
use super::reader::spec_leb_u64;
use super::reader::spec_u32;
use super::reader::spec_u64;
use super::reader::spec_u8;
use super::reader::spec_v128;
use super::reader::DecodeResult;
use super::reader::Parsed;
use super::reader::Reader;
use super::reader::reads;
use super::reader::spec_name;
use super::reader::spec_seqs;
use super::section::exprs_view;
use super::section::locals_total;
use super::section::CodeSeg;
use super::section::CodeSegView;
use super::section::CustomSeg;
use super::section::CustomSegView;
use super::section::DataCountSeg;
use super::section::DataMode;
use super::section::DataSeg;
use super::section::DataSegView;
use super::section::ElementMode;
use super::section::ElementModeView;
use super::section::ElementSeg;
use super::section::ElementSegView;
use super::section::ExportDesc;
use super::section::ExportSeg;
use super::section::ExportSegView;
use super::section::Expr;
use super::section::GlobalSeg;
use super::section::GlobalSegView;
use super::section::ImportDesc;
use super::section::ImportSeg;
use super::section::ImportSegView;
use super::section::LabelIdx;
use super::section::Locals;
use super::types::FuncType;
use super::types::FuncTypeView;
use super::types::GlobalType;
use super::types::Limits;
use super::types::Mut;
use super::types::RefType;
use super::types::TableType;
use super::types::ValType;
use crate::execution::value::v128;

verus! {

/// Whether a read that returned `r` and left `rest` did what `parsed` says,
/// the value being compared by its deep view. After an error nothing is
/// said of the bytes left.
pub open spec fn reads_deep<T: DeepView>(
    parsed: Parsed<T::V>,
    r: DecodeResult<T>,
    rest: Seq<u8>,
) -> bool {
    match parsed {
        Ok((v, s)) => r is Ok && r->Ok_0.deep_view() == v && rest == s,
        Err(e) => r == Err::<T, DecodeErr>(e),
    }
}

/// An instruction without immediates.
pub open spec fn plain(i: Instruction, s: Seq<u8>) -> Parsed<InstrView> {
    Ok((InstrView::Plain(i), s))
}

/// An instruction whose immediate is one unsigned LEB128 number.
pub open spec fn with_u32(s: Seq<u8>, f: spec_fn(u32) -> Instruction) -> Parsed<InstrView> {
    match spec_leb_u32(s) {
        Ok((x, rest)) => Ok((InstrView::Plain(f(x)), rest)),
        Err(e) => Err(e),
    }
}

/// An instruction whose immediates are two unsigned LEB128 numbers.
pub open spec fn with_u32_u32(s: Seq<u8>, f: spec_fn(u32, u32) -> Instruction) -> Parsed<
    InstrView,
> {
    match spec_leb_u32(s) {
        Ok((x, r1)) => match spec_leb_u32(r1) {
            Ok((y, r2)) => Ok((InstrView::Plain(f(x, y)), r2)),
            Err(e) => Err(e),
        },
        Err(e) => Err(e),
    }
}

/// The immediate of a load or a store: alignment, then offset.
pub open spec fn spec_memarg(s: Seq<u8>) -> Parsed<MemoryArg> {
    match spec_leb_u32(s) {
        Ok((align, r1)) => match spec_leb_u32(r1) {
            Ok((offset, r2)) => Ok((MemoryArg { align, offset }, r2)),
            Err(e) => Err(e),
        },
        Err(e) => Err(e),
    }
}

pub open spec fn with_memarg(s: Seq<u8>, f: spec_fn(MemoryArg) -> Instruction) -> Parsed<
    InstrView,
> {
    match spec_memarg(s) {
        Ok((m, rest)) => Ok((InstrView::Plain(f(m)), rest)),
        Err(e) => Err(e),
    }
}

pub open spec fn with_memarg_lane(
    s: Seq<u8>,
    f: spec_fn(MemoryArg, u8) -> Instruction,
) -> Parsed<InstrView> {
    match spec_memarg(s) {
        Ok((m, r1)) => match spec_u8(r1) {
            Ok((lane, r2)) => Ok((InstrView::Plain(f(m, lane)), r2)),
            Err(e) => Err(e),
        },
        Err(e) => Err(e),
    }
}

/// An instruction whose immediate is one byte.
pub open spec fn with_u8(s: Seq<u8>, f: spec_fn(u8) -> Instruction) -> Parsed<InstrView> {
    match spec_u8(s) {
        Ok((x, rest)) => Ok((InstrView::Plain(f(x)), rest)),
        Err(e) => Err(e),
    }
}

pub open spec fn with_i32(s: Seq<u8>, f: spec_fn(i32) -> Instruction) -> Parsed<InstrView> {
    match spec_leb_i32(s) {
        Ok((x, rest)) => Ok((InstrView::Plain(f(x)), rest)),
        Err(e) => Err(e),
    }
}

pub open spec fn with_i64(s: Seq<u8>, f: spec_fn(i64) -> Instruction) -> Parsed<InstrView> {
    match spec_leb_i64(s) {
        Ok((x, rest)) => Ok((InstrView::Plain(f(x)), rest)),
        Err(e) => Err(e),
    }
}

pub open spec fn with_u64(s: Seq<u8>, f: spec_fn(u64) -> Instruction) -> Parsed<InstrView> {
    match spec_leb_u64(s) {
        Ok((x, rest)) => Ok((InstrView::Plain(f(x)), rest)),
        Err(e) => Err(e),
    }
}

/// An instruction whose immediate is the four bytes of a float.
pub open spec fn with_bits32(s: Seq<u8>, f: spec_fn(u32) -> Instruction) -> Parsed<InstrView> {
    match spec_u32(s) {
        Ok((x, rest)) => Ok((InstrView::Plain(f(x)), rest)),
        Err(e) => Err(e),
    }
}

/// An instruction whose immediate is the eight bytes of a float.
pub open spec fn with_bits64(s: Seq<u8>, f: spec_fn(u64) -> Instruction) -> Parsed<InstrView> {
    match spec_u64(s) {
        Ok((x, rest)) => Ok((InstrView::Plain(f(x)), rest)),
        Err(e) => Err(e),
    }
}

pub open spec fn with_v128(s: Seq<u8>, f: spec_fn(v128) -> Instruction) -> Parsed<InstrView> {
    match spec_v128(s) {
        Ok((x, rest)) => Ok((InstrView::Plain(f(x)), rest)),
        Err(e) => Err(e),
    }
}

/// A value type: one byte that names one.
pub open spec fn spec_val_type(s: Seq<u8>) -> Parsed<ValType> {
    match spec_u8(s) {
        Ok((b, rest)) => match ValType::spec_from_u8(b) {
            Some(t) => Ok((t, rest)),
            None => Err(DecodeErr::InvalidType(b)),
        },
        Err(e) => Err(e),
    }
}

/// The typed `select`: a count byte, then a value type.
pub open spec fn spec_select(s: Seq<u8>) -> Parsed<InstrView> {
    match spec_u8(s) {
        Ok((x, r1)) => match spec_val_type(r1) {
            Ok((t, r2)) => Ok((InstrView::Plain(Instruction::Select2(x, t)), r2)),
            Err(e) => Err(e),
        },
        Err(e) => Err(e),
    }
}

/// The shuffle: sixteen lane selectors.
pub open spec fn spec_shuffle(s: Seq<u8>) -> Parsed<InstrView> {
    match spec_bytes(s, 16) {
        Ok((lanes, rest)) => Ok((InstrView::Shuffle(lanes), rest)),
        Err(e) => Err(e),
    }
}

/// The instructions of one opcode byte, blocks and the label table aside:
/// what follows opcode `op` on bytes `s`.
#[verifier::opaque]
pub open spec fn spec_main(op: u8, s: Seq<u8>) -> Parsed<InstrView> {
    match op {
        0x00 => plain(Instruction::Unreachable, s),
        0x01 => plain(Instruction::Nop, s),
        0x05 => plain(Instruction::Else, s),
        0x0b => plain(Instruction::End, s),
        0x0c => with_u32(s, |x: u32| Instruction::Br(x)),
        0x0d => with_u32(s, |x: u32| Instruction::BrIf(x)),
        0x0f => plain(Instruction::Return, s),
        0x10 => with_u32(s, |x: u32| Instruction::Call(x)),
        0x11 => with_u32_u32(s, |x: u32, y: u32| Instruction::CallIndirect(x, y)),
        0x1a => plain(Instruction::Drop, s),
        0x1b => plain(Instruction::Select, s),
        0x1c => spec_select(s),
        0x20 => with_u32(s, |x: u32| Instruction::LocalGet(x)),
        0x21 => with_u32(s, |x: u32| Instruction::LocalSet(x)),
        0x22 => with_u32(s, |x: u32| Instruction::LocalTee(x)),
        0x23 => with_u32(s, |x: u32| Instruction::GlobalGet(x)),
        0x24 => with_u32(s, |x: u32| Instruction::GlobalSet(x)),
        0x25 => with_u32(s, |x: u32| Instruction::TableGet(x)),
        0x26 => with_u32(s, |x: u32| Instruction::TableSet(x)),
        0x28 => with_memarg(s, |m: MemoryArg| Instruction::I32Load(m)),
        0x29 => with_memarg(s, |m: MemoryArg| Instruction::I64Load(m)),
        0x2a => with_memarg(s, |m: MemoryArg| Instruction::F32Load(m)),
        0x2b => with_memarg(s, |m: MemoryArg| Instruction::F64Load(m)),
        0x2c => with_memarg(s, |m: MemoryArg| Instruction::I32Load8S(m)),
        0x2d => with_memarg(s, |m: MemoryArg| Instruction::I32Load8U(m)),
        0x2e => with_memarg(s, |m: MemoryArg| Instruction::I32Load16S(m)),
        0x2f => with_memarg(s, |m: MemoryArg| Instruction::I32Load16U(m)),
        0x30 => with_memarg(s, |m: MemoryArg| Instruction::I64Load8S(m)),
        0x31 => with_memarg(s, |m: MemoryArg| Instruction::I64Load8U(m)),
        0x32 => with_memarg(s, |m: MemoryArg| Instruction::I64Load16S(m)),
        0x33 => with_memarg(s, |m: MemoryArg| Instruction::I64Load16U(m)),
        0x34 => with_memarg(s, |m: MemoryArg| Instruction::I64Load32S(m)),
        0x35 => with_memarg(s, |m: MemoryArg| Instruction::I64Load32U(m)),
        0x36 => with_memarg(s, |m: MemoryArg| Instruction::I32Store(m)),
        0x37 => with_memarg(s, |m: MemoryArg| Instruction::I64Store(m)),
        0x38 => with_memarg(s, |m: MemoryArg| Instruction::F32Store(m)),
        0x39 => with_memarg(s, |m: MemoryArg| Instruction::F64Store(m)),
        0x3a => with_memarg(s, |m: MemoryArg| Instruction::I32Store8(m)),
        0x3b => with_memarg(s, |m: MemoryArg| Instruction::I32Store16(m)),
        0x3c => with_memarg(s, |m: MemoryArg| Instruction::I64Store8(m)),
        0x3d => with_memarg(s, |m: MemoryArg| Instruction::I64Store16(m)),
        0x3e => with_memarg(s, |m: MemoryArg| Instruction::I64Store32(m)),
        0x3f => with_u8(s, |x: u8| Instruction::MemorySize(x)),
        0x40 => with_u8(s, |x: u8| Instruction::MemoryGrow(x)),
        0x41 => with_i32(s, |x: i32| Instruction::I32Const(x)),
        0x42 => with_i64(s, |x: i64| Instruction::I64Const(x)),
        0x43 => with_bits32(s, |x: u32| Instruction::F32Const(x)),
        0x44 => with_bits64(s, |x: u64| Instruction::F64Const(x)),
        0x45 => plain(Instruction::I32Eqz, s),
        0x46 => plain(Instruction::I32Eq, s),
        0x47 => plain(Instruction::I32Ne, s),
        0x48 => plain(Instruction::I32LtS, s),
        0x49 => plain(Instruction::I32LtU, s),
        0x4a => plain(Instruction::I32GtS, s),
        0x4b => plain(Instruction::I32GtU, s),
        0x4c => plain(Instruction::I32LeS, s),
        0x4d => plain(Instruction::I32LeU, s),
        0x4e => plain(Instruction::I32GeS, s),
        0x4f => plain(Instruction::I32GeU, s),
        0x50 => plain(Instruction::I64Eqz, s),
        0x51 => plain(Instruction::I64Eq, s),
        0x52 => plain(Instruction::I64Ne, s),
        0x53 => plain(Instruction::I64LtS, s),
        0x54 => plain(Instruction::I64LtU, s),
        0x55 => plain(Instruction::I64GtS, s),
        0x56 => plain(Instruction::I64GtU, s),
        0x57 => plain(Instruction::I64LeS, s),
        0x58 => plain(Instruction::I64LeU, s),
        0x59 => plain(Instruction::I64GeS, s),
        0x5a => plain(Instruction::I64GeU, s),
        0x5b => plain(Instruction::F32Eq, s),
        0x5c => plain(Instruction::F32Ne, s),
        0x5d => plain(Instruction::F32Lt, s),
        0x5e => plain(Instruction::F32Gt, s),
        0x5f => plain(Instruction::F32Le, s),
        0x60 => plain(Instruction::F32Ge, s),
        0x61 => plain(Instruction::F64Eq, s),
        0x62 => plain(Instruction::F64Ne, s),
        0x63 => plain(Instruction::F64Lt, s),
        0x64 => plain(Instruction::F64Gt, s),
        0x65 => plain(Instruction::F64Le, s),
        0x66 => plain(Instruction::F64Ge, s),
        0x67 => plain(Instruction::I32Clz, s),
        0x68 => plain(Instruction::I32Ctz, s),
        0x69 => plain(Instruction::I32Popcnt, s),
        0x6a => plain(Instruction::I32Add, s),
        0x6b => plain(Instruction::I32Sub, s),
        0x6c => plain(Instruction::I32Mul, s),
        0x6d => plain(Instruction::I32DivS, s),
        0x6e => plain(Instruction::I32DivU, s),
        0x6f => plain(Instruction::I32RemS, s),
        0x70 => plain(Instruction::I32RemU, s),
        0x71 => plain(Instruction::I32And, s),
        0x72 => plain(Instruction::I32Or, s),
        0x73 => plain(Instruction::I32Xor, s),
        0x74 => plain(Instruction::I32Shl, s),
        0x75 => plain(Instruction::I32ShrS, s),
        0x76 => plain(Instruction::I32ShrU, s),
        0x77 => plain(Instruction::I32Rotl, s),
        0x78 => plain(Instruction::I32Rotr, s),
        0x79 => plain(Instruction::I64Clz, s),
        0x7a => plain(Instruction::I64Ctz, s),
        0x7b => plain(Instruction::I64Popcnt, s),
        0x7c => plain(Instruction::I64Add, s),
        0x7d => plain(Instruction::I64Sub, s),
        0x7e => plain(Instruction::I64Mul, s),
        0x7f => plain(Instruction::I64DivS, s),
        0x80 => plain(Instruction::I64DivU, s),
        0x81 => plain(Instruction::I64RemS, s),
        0x82 => plain(Instruction::I64RemU, s),
        0x83 => plain(Instruction::I64And, s),
        0x84 => plain(Instruction::I64Or, s),
        0x85 => plain(Instruction::I64Xor, s),
        0x86 => plain(Instruction::I64Shl, s),
        0x87 => plain(Instruction::I64ShrS, s),
        0x88 => plain(Instruction::I64ShrU, s),
        0x89 => plain(Instruction::I64Rotl, s),
        0x8a => plain(Instruction::I64Rotr, s),
        0x8b => plain(Instruction::F32Abs, s),
        0x8c => plain(Instruction::F32Neg, s),
        0x8d => plain(Instruction::F32Ceil, s),
        0x8e => plain(Instruction::F32Floor, s),
        0x8f => plain(Instruction::F32Trunc, s),
        0x90 => plain(Instruction::F32Nearest, s),
        0x91 => plain(Instruction::F32Sqrt, s),
        0x92 => plain(Instruction::F32Add, s),
        0x93 => plain(Instruction::F32Sub, s),
        0x94 => plain(Instruction::F32Mul, s),
        0x95 => plain(Instruction::F32Div, s),
        0x96 => plain(Instruction::F32Min, s),
        0x97 => plain(Instruction::F32Max, s),
        0x98 => plain(Instruction::F32Copysign, s),
        0x99 => plain(Instruction::F64Abs, s),
        0x9a => plain(Instruction::F64Neg, s),
        0x9b => plain(Instruction::F64Ceil, s),
        0x9c => plain(Instruction::F64Floor, s),
        0x9d => plain(Instruction::F64Trunc, s),
        0x9e => plain(Instruction::F64Nearest, s),
        0x9f => plain(Instruction::F64Sqrt, s),
        0xa0 => plain(Instruction::F64Add, s),
        0xa1 => plain(Instruction::F64Sub, s),
        0xa2 => plain(Instruction::F64Mul, s),
        0xa3 => plain(Instruction::F64Div, s),
        0xa4 => plain(Instruction::F64Min, s),
        0xa5 => plain(Instruction::F64Max, s),
        0xa6 => plain(Instruction::F64Copysign, s),
        0xa7 => plain(Instruction::I32WrapI64, s),
        0xa8 => plain(Instruction::I32TruncF32S, s),
        0xa9 => plain(Instruction::I32TruncF32U, s),
        0xaa => plain(Instruction::I32TruncF64S, s),
        0xab => plain(Instruction::I32TruncF64U, s),
        0xac => plain(Instruction::I64ExtendI32S, s),
        0xad => plain(Instruction::I64ExtendI32U, s),
        0xae => plain(Instruction::I64TruncF32S, s),
        0xaf => plain(Instruction::I64TruncF32U, s),
        0xb0 => plain(Instruction::I64TruncF64S, s),
        0xb1 => plain(Instruction::I64TruncF64U, s),
        0xb2 => plain(Instruction::F32ConvertI32S, s),
        0xb3 => plain(Instruction::F32ConvertI32U, s),
        0xb4 => plain(Instruction::F32ConvertI64S, s),
        0xb5 => plain(Instruction::F32ConvertI64U, s),
        0xb6 => plain(Instruction::F32DemoteF64, s),
        0xb7 => plain(Instruction::F64ConvertI32S, s),
        0xb8 => plain(Instruction::F64ConvertI32U, s),
        0xb9 => plain(Instruction::F64ConvertI64S, s),
        0xba => plain(Instruction::F64ConvertI64U, s),
        0xbb => plain(Instruction::F64PromoteF32, s),
        0xbc => plain(Instruction::I32ReinterpretF32, s),
        0xbd => plain(Instruction::I64ReinterpretF64, s),
        0xbe => plain(Instruction::F32ReinterpretI32, s),
        0xbf => plain(Instruction::F64ReinterpretI64, s),
        0xc0 => plain(Instruction::I32Extend8S, s),
        0xc1 => plain(Instruction::I32Extend16S, s),
        0xc2 => plain(Instruction::I64Extend8S, s),
        0xc3 => plain(Instruction::I64Extend16S, s),
        0xc4 => plain(Instruction::I64Extend32S, s),
        0xd0 => with_u64(s, |x: u64| Instruction::RefNull(x)),
        0xd1 => plain(Instruction::RefIsNull, s),
        0xd2 => with_u32(s, |x: u32| Instruction::RefFunc(x)),
        _ => Err(DecodeErr::UnknownOpcodePrefix(op)),
    }
}

/// The instructions behind the prefix 0xFC: what follows subcode `sub`.
#[verifier::opaque]
pub open spec fn spec_fc_table(sub: u32, s: Seq<u8>) -> Parsed<InstrView> {
    match sub {
        0x00 => plain(Instruction::I32TruncSatF32S, s),
        0x01 => plain(Instruction::I32TruncSatF32U, s),
        0x02 => plain(Instruction::I32TruncSatF64S, s),
        0x03 => plain(Instruction::I32TruncSatF64U, s),
        0x04 => plain(Instruction::I64TruncSatF32S, s),
        0x05 => plain(Instruction::I64TruncSatF32U, s),
        0x06 => plain(Instruction::I64TruncSatF64S, s),
        0x07 => plain(Instruction::I64TruncSatF64U, s),
        0x08 => with_u32_u32(s, |x: u32, y: u32| Instruction::MemoryInit(x, y)),
        0x09 => with_u32(s, |x: u32| Instruction::DataDrop(x)),
        0x0a => with_u32_u32(s, |x: u32, y: u32| Instruction::MemoryCopy(x, y)),
        0x0b => with_u32(s, |x: u32| Instruction::MemoryFill(x)),
        0x0c => with_u32_u32(s, |x: u32, y: u32| Instruction::TableInit(x, y)),
        0x0d => with_u32(s, |x: u32| Instruction::ElemDrop(x)),
        0x0e => with_u32_u32(s, |x: u32, y: u32| Instruction::TableCopy(x, y)),
        0x0f => with_u32(s, |x: u32| Instruction::TableGrow(x)),
        0x10 => with_u32(s, |x: u32| Instruction::TableSize(x)),
        0x11 => with_u32(s, |x: u32| Instruction::TableFill(x)),
        _ => Err(DecodeErr::UnknownOpcode(0xfc, sub as u8)),
    }
}

/// The instructions behind the prefix 0xFD: what follows the byte `sub`.
#[verifier::opaque]
pub open spec fn spec_fd_table(sub: u8, s: Seq<u8>) -> Parsed<InstrView> {
    match sub {
        0x00 => with_memarg(s, |m: MemoryArg| Instruction::V128Load(m)),
        0x01 => with_memarg(s, |m: MemoryArg| Instruction::V128Load8x8S(m)),
        0x02 => with_memarg(s, |m: MemoryArg| Instruction::V128Load8x8U(m)),
        0x03 => with_memarg(s, |m: MemoryArg| Instruction::V128Load16x4S(m)),
        0x04 => with_memarg(s, |m: MemoryArg| Instruction::V128Load16x4U(m)),
        0x05 => with_memarg(s, |m: MemoryArg| Instruction::V128Load32x2S(m)),
        0x06 => with_memarg(s, |m: MemoryArg| Instruction::V128Load32x2U(m)),
        0x07 => with_memarg(s, |m: MemoryArg| Instruction::V128Load8Splat(m)),
        0x08 => with_memarg(s, |m: MemoryArg| Instruction::V128Load16Splat(m)),
        0x09 => with_memarg(s, |m: MemoryArg| Instruction::V128Load32Splat(m)),
        0x0a => with_memarg(s, |m: MemoryArg| Instruction::V128Load64Splat(m)),
        0x0b => with_memarg(s, |m: MemoryArg| Instruction::V128Store(m)),
        0x0c => with_v128(s, |x: v128| Instruction::V128Const(x)),
        0x0d => spec_shuffle(s),
        0x0e => plain(Instruction::I8x16Swizzle, s),
        0x0f => plain(Instruction::I8x16Splat, s),
        0x10 => plain(Instruction::I16x8Splat, s),
        0x11 => plain(Instruction::I32x4Splat, s),
        0x12 => plain(Instruction::I64x2Splat, s),
        0x13 => plain(Instruction::F32x4Splat, s),
        0x14 => plain(Instruction::F64x2Splat, s),
        0x15 => with_u8(s, |x: u8| Instruction::I8x16ExtractLaneS(x)),
        0x16 => with_u8(s, |x: u8| Instruction::I8x16ExtractLaneU(x)),
        0x17 => with_u8(s, |x: u8| Instruction::I8x16ReplaceLane(x)),
        0x18 => with_u8(s, |x: u8| Instruction::I16x8ExtractLaneS(x)),
        0x19 => with_u8(s, |x: u8| Instruction::I16x8ExtractLaneU(x)),
        0x1a => with_u8(s, |x: u8| Instruction::I16x8ReplaceLane(x)),
        0x1b => with_u8(s, |x: u8| Instruction::I32x4ExtractLane(x)),
        0x1c => with_u8(s, |x: u8| Instruction::I32x4ReplaceLane(x)),
        0x1d => with_u8(s, |x: u8| Instruction::I64x2ExtractLane(x)),
        0x1e => with_u8(s, |x: u8| Instruction::I64x2ReplaceLane(x)),
        0x1f => with_u8(s, |x: u8| Instruction::F32x4ExtractLane(x)),
        0x20 => with_u8(s, |x: u8| Instruction::F32x4ReplaceLane(x)),
        0x21 => with_u8(s, |x: u8| Instruction::F64x2ExtractLane(x)),
        0x22 => with_u8(s, |x: u8| Instruction::F64x2ReplaceLane(x)),
        0x23 => plain(Instruction::I8x16Eq, s),
        0x24 => plain(Instruction::I8x16Ne, s),
        0x25 => plain(Instruction::I8x16LtS, s),
        0x26 => plain(Instruction::I8x16LtU, s),
        0x27 => plain(Instruction::I8x16GtS, s),
        0x28 => plain(Instruction::I8x16GtU, s),
        0x29 => plain(Instruction::I8x16LeS, s),
        0x2a => plain(Instruction::I8x16LeU, s),
        0x2b => plain(Instruction::I8x16GeS, s),
        0x2c => plain(Instruction::I8x16GeU, s),
        0x2d => plain(Instruction::I16x8Eq, s),
        0x2e => plain(Instruction::I16x8Ne, s),
        0x2f => plain(Instruction::I16x8LtS, s),
        0x30 => plain(Instruction::I16x8LtU, s),
        0x31 => plain(Instruction::I16x8GtS, s),
        0x32 => plain(Instruction::I16x8GtU, s),
        0x33 => plain(Instruction::I16x8LeS, s),
        0x34 => plain(Instruction::I16x8LeU, s),
        0x35 => plain(Instruction::I16x8GeS, s),
        0x36 => plain(Instruction::I16x8GeU, s),
        0x37 => plain(Instruction::I32x4Eq, s),
        0x38 => plain(Instruction::I32x4Ne, s),
        0x39 => plain(Instruction::I32x4LtS, s),
        0x3a => plain(Instruction::I32x4LtU, s),
        0x3b => plain(Instruction::I32x4GtS, s),
        0x3c => plain(Instruction::I32x4GtU, s),
        0x3d => plain(Instruction::I32x4LeS, s),
        0x3e => plain(Instruction::I32x4LeU, s),
        0x3f => plain(Instruction::I32x4GeS, s),
        0x40 => plain(Instruction::I32x4GeU, s),
        0x41 => plain(Instruction::F32x4Eq, s),
        0x42 => plain(Instruction::F32x4Ne, s),
        0x43 => plain(Instruction::F32x4Lt, s),
        0x44 => plain(Instruction::F32x4Gt, s),
        0x45 => plain(Instruction::F32x4Le, s),
        0x46 => plain(Instruction::F32x4Ge, s),
        0x47 => plain(Instruction::F64x2Eq, s),
        0x48 => plain(Instruction::F64x2Ne, s),
        0x49 => plain(Instruction::F64x2Lt, s),
        0x4a => plain(Instruction::F64x2Gt, s),
        0x4b => plain(Instruction::F64x2Le, s),
        0x4c => plain(Instruction::F64x2Ge, s),
        0x4d => plain(Instruction::V128Not, s),
        0x4e => plain(Instruction::V128And, s),
        0x4f => plain(Instruction::V128Andnot, s),
        0x50 => plain(Instruction::V128Or, s),
        0x51 => plain(Instruction::V128Xor, s),
        0x52 => plain(Instruction::V128Bitselect, s),
        0x53 => plain(Instruction::V128AnyTrue, s),
        0x54 => with_memarg_lane(s, |m: MemoryArg, l: u8| Instruction::V128Load8Lane(m, l)),
        0x55 => with_memarg_lane(s, |m: MemoryArg, l: u8| Instruction::V128Load16Lane(m, l)),
        0x56 => with_memarg_lane(s, |m: MemoryArg, l: u8| Instruction::V128Load32Lane(m, l)),
        0x57 => with_memarg_lane(s, |m: MemoryArg, l: u8| Instruction::V128Load64Lane(m, l)),
        0x58 => with_memarg_lane(s, |m: MemoryArg, l: u8| Instruction::V128Store8Lane(m, l)),
        0x59 => with_memarg_lane(s, |m: MemoryArg, l: u8| Instruction::V128Store16Lane(m, l)),
        0x5a => with_memarg_lane(s, |m: MemoryArg, l: u8| Instruction::V128Store32Lane(m, l)),
        0x5b => with_memarg_lane(s, |m: MemoryArg, l: u8| Instruction::V128Store64Lane(m, l)),
        0x5c => with_memarg(s, |m: MemoryArg| Instruction::V128Load32Zero(m)),
        0x5d => with_memarg(s, |m: MemoryArg| Instruction::V128Load64Zero(m)),
        0x5e => plain(Instruction::F32x4DemoteF64x2Zero, s),
        0x5f => plain(Instruction::F64x2PromoteLowF32x4, s),
        0x60 => plain(Instruction::I8x16Abs, s),
        0x61 => plain(Instruction::I8x16Neg, s),
        0x62 => plain(Instruction::I8x16Popcnt, s),
        0x63 => plain(Instruction::I8x16AllTrue, s),
        0x64 => plain(Instruction::I8x16Bitmask, s),
        0x65 => plain(Instruction::I8x16NarrowI16x8S, s),
        0x66 => plain(Instruction::I8x16NarrowI16x8U, s),
        0x67 => plain(Instruction::F32x4Ceil, s),
        0x68 => plain(Instruction::F32x4Floor, s),
        0x69 => plain(Instruction::F32x4Trunc, s),
        0x6a => plain(Instruction::F32x4Nearest, s),
        0x6b => plain(Instruction::I8x16Shl, s),
        0x6c => plain(Instruction::I8x16ShrS, s),
        0x6d => plain(Instruction::I8x16ShrU, s),
        0x6e => plain(Instruction::I8x16Add, s),
        0x6f => plain(Instruction::I8x16AddSatS, s),
        0x70 => plain(Instruction::I8x16AddSatU, s),
        0x71 => plain(Instruction::I8x16Sub, s),
        0x72 => plain(Instruction::I8x16SubSatS, s),
        0x73 => plain(Instruction::I8x16SubSatU, s),
        0x74 => plain(Instruction::F64x2Ceil, s),
        0x75 => plain(Instruction::F64x2Floor, s),
        0x76 => plain(Instruction::I8x16MinS, s),
        0x77 => plain(Instruction::I8x16MinU, s),
        0x78 => plain(Instruction::I8x16MaxS, s),
        0x79 => plain(Instruction::I8x16MaxU, s),
        0x7a => plain(Instruction::F64x2Trunc, s),
        0x7b => plain(Instruction::I8x16AvgrU, s),
        0x7c => plain(Instruction::I16x8ExtaddPairwiseI8x16S, s),
        0x7d => plain(Instruction::I16x8ExtaddPairwiseI8x16U, s),
        0x7e => plain(Instruction::I32x4ExtaddPairwiseI16x8S, s),
        0x7f => plain(Instruction::I32x4ExtaddPairwiseI16x8U, s),
        0x80 => with_u8(s, |x: u8| Instruction::I16x8Abs(x)),
        0x81 => with_u8(s, |x: u8| Instruction::I16x8Neg(x)),
        0x82 => with_u8(s, |x: u8| Instruction::I16x8Q15mulrSatS(x)),
        0x83 => with_u8(s, |x: u8| Instruction::I16x8AllTrue(x)),
        0x84 => with_u8(s, |x: u8| Instruction::I16x8Bitmask(x)),
        0x85 => with_u8(s, |x: u8| Instruction::I16x8NarrowI32x4S(x)),
        0x86 => with_u8(s, |x: u8| Instruction::I16x8NarrowI32x4U(x)),
        0x87 => with_u8(s, |x: u8| Instruction::I16x8ExtendLowI8x16S(x)),
        0x88 => with_u8(s, |x: u8| Instruction::I16x8ExtendHighI8x16S(x)),
        0x89 => with_u8(s, |x: u8| Instruction::I16x8ExtendLowI8x16U(x)),
        0x8a => with_u8(s, |x: u8| Instruction::I16x8ExtendHighI8x16U(x)),
        0x8b => with_u8(s, |x: u8| Instruction::I16x8Shl(x)),
        0x8c => with_u8(s, |x: u8| Instruction::I16x8ShrS(x)),
        0x8d => with_u8(s, |x: u8| Instruction::I16x8ShrU(x)),
        0x8e => with_u8(s, |x: u8| Instruction::I16x8Add(x)),
        0x8f => with_u8(s, |x: u8| Instruction::I16x8AddSatS(x)),
        0x90 => with_u8(s, |x: u8| Instruction::I16x8AddSatU(x)),
        0x91 => with_u8(s, |x: u8| Instruction::I16x8Sub(x)),
        0x92 => with_u8(s, |x: u8| Instruction::I16x8SubSatS(x)),
        0x93 => with_u8(s, |x: u8| Instruction::I16x8SubSatU(x)),
        0x94 => with_u8(s, |x: u8| Instruction::F64x2Nearest(x)),
        0x95 => with_u8(s, |x: u8| Instruction::I16x8Mul(x)),
        0x96 => with_u8(s, |x: u8| Instruction::I16x8MinS(x)),
        0x97 => with_u8(s, |x: u8| Instruction::I16x8MinU(x)),
        0x98 => with_u8(s, |x: u8| Instruction::I16x8MaxS(x)),
        0x99 => with_u8(s, |x: u8| Instruction::I16x8MaxU(x)),
        0x9b => with_u8(s, |x: u8| Instruction::I16x8AvgrU(x)),
        0x9c => with_u8(s, |x: u8| Instruction::I16x8ExtmulLowI8x16S(x)),
        0x9d => with_u8(s, |x: u8| Instruction::I16x8ExtmulHighI8x16S(x)),
        0x9e => with_u8(s, |x: u8| Instruction::I16x8ExtmulLowI8x16U(x)),
        0x9f => with_u8(s, |x: u8| Instruction::I16x8ExtmulHighI8x16U(x)),
        0xa0 => with_u8(s, |x: u8| Instruction::I32x4Abs(x)),
        0xa1 => with_u8(s, |x: u8| Instruction::I32x4Neg(x)),
        0xa3 => with_u8(s, |x: u8| Instruction::I32x4AllTrue(x)),
        0xa4 => with_u8(s, |x: u8| Instruction::I32x4Bitmask(x)),
        0xa7 => with_u8(s, |x: u8| Instruction::I32x4ExtendLowI16x8S(x)),
        0xa8 => with_u8(s, |x: u8| Instruction::I32x4ExtendHighI16x8S(x)),
        0xa9 => with_u8(s, |x: u8| Instruction::I32x4ExtendLowI16x8U(x)),
        0xaa => with_u8(s, |x: u8| Instruction::I32x4ExtendHighI16x8U(x)),
        0xab => with_u8(s, |x: u8| Instruction::I32x4Shl(x)),
        0xac => with_u8(s, |x: u8| Instruction::I32x4ShrS(x)),
        0xad => with_u8(s, |x: u8| Instruction::I32x4ShrU(x)),
        0xae => with_u8(s, |x: u8| Instruction::I32x4Add(x)),
        0xb1 => with_u8(s, |x: u8| Instruction::I32x4Sub(x)),
        0xb5 => with_u8(s, |x: u8| Instruction::I32x4Mul(x)),
        0xb6 => with_u8(s, |x: u8| Instruction::I32x4MinS(x)),
        0xb7 => with_u8(s, |x: u8| Instruction::I32x4MinU(x)),
        0xb8 => with_u8(s, |x: u8| Instruction::I32x4MaxS(x)),
        0xb9 => with_u8(s, |x: u8| Instruction::I32x4MaxU(x)),
        0xba => with_u8(s, |x: u8| Instruction::I32x4DotI16x8S(x)),
        0xbc => with_u8(s, |x: u8| Instruction::I32x4ExtmulLowI16x8S(x)),
        0xbd => with_u8(s, |x: u8| Instruction::I32x4ExtmulHighI16x8S(x)),
        0xbe => with_u8(s, |x: u8| Instruction::I32x4ExtmulLowI16x8U(x)),
        0xbf => with_u8(s, |x: u8| Instruction::I32x4ExtmulHighI16x8U(x)),
        0xc0 => with_u8(s, |x: u8| Instruction::I64x2Abs(x)),
        0xc1 => with_u8(s, |x: u8| Instruction::I64x2Neg(x)),
        0xc3 => with_u8(s, |x: u8| Instruction::I64x2AllTrue(x)),
        0xc4 => with_u8(s, |x: u8| Instruction::I64x2Bitmask(x)),
        0xc7 => with_u8(s, |x: u8| Instruction::I64x2ExtendLowI32x4S(x)),
        0xc8 => with_u8(s, |x: u8| Instruction::I64x2ExtendHighI32x4S(x)),
        0xc9 => with_u8(s, |x: u8| Instruction::I64x2ExtendLowI32x4U(x)),
        0xca => with_u8(s, |x: u8| Instruction::I64x2ExtendHighI32x4U(x)),
        0xcb => with_u8(s, |x: u8| Instruction::I64x2Shl(x)),
        0xcc => with_u8(s, |x: u8| Instruction::I64x2ShrS(x)),
        0xcd => with_u8(s, |x: u8| Instruction::I64x2ShrU(x)),
        0xce => with_u8(s, |x: u8| Instruction::I64x2Add(x)),
        0xd1 => with_u8(s, |x: u8| Instruction::I64x2Sub(x)),
        0xd5 => with_u8(s, |x: u8| Instruction::I64x2Mul(x)),
        0xd6 => with_u8(s, |x: u8| Instruction::I64x2Eq(x)),
        0xd7 => with_u8(s, |x: u8| Instruction::I64x2Ne(x)),
        0xd8 => with_u8(s, |x: u8| Instruction::I64x2LtS(x)),
        0xd9 => with_u8(s, |x: u8| Instruction::I64x2GtS(x)),
        0xda => with_u8(s, |x: u8| Instruction::I64x2LeS(x)),
        0xdb => with_u8(s, |x: u8| Instruction::I64x2GeS(x)),
        0xdc => with_u8(s, |x: u8| Instruction::I64x2ExtmulLowI32x4S(x)),
        0xdd => with_u8(s, |x: u8| Instruction::I64x2ExtmulHighI32x4S(x)),
        0xde => with_u8(s, |x: u8| Instruction::I64x2ExtmulLowI32x4U(x)),
        0xdf => with_u8(s, |x: u8| Instruction::I64x2ExtmulHighI32x4U(x)),
        0xe0 => with_u8(s, |x: u8| Instruction::F32x4Abs(x)),
        0xe1 => with_u8(s, |x: u8| Instruction::F32x4Neg(x)),
        0xe3 => with_u8(s, |x: u8| Instruction::F32x4Sqrt(x)),
        0xe4 => with_u8(s, |x: u8| Instruction::F32x4Add(x)),
        0xe5 => with_u8(s, |x: u8| Instruction::F32x4Sub(x)),
        0xe6 => with_u8(s, |x: u8| Instruction::F32x4Mul(x)),
        0xe7 => with_u8(s, |x: u8| Instruction::F32x4Div(x)),
        0xe8 => with_u8(s, |x: u8| Instruction::F32x4Min(x)),
        0xe9 => with_u8(s, |x: u8| Instruction::F32x4Max(x)),
        0xea => with_u8(s, |x: u8| Instruction::F32x4Pmin(x)),
        0xeb => with_u8(s, |x: u8| Instruction::F32x4Pmax(x)),
        0xec => with_u8(s, |x: u8| Instruction::F64x2Abs(x)),
        0xed => with_u8(s, |x: u8| Instruction::F64x2Neg(x)),
        0xef => with_u8(s, |x: u8| Instruction::F64x2Sqrt(x)),
        0xf0 => with_u8(s, |x: u8| Instruction::F64x2Add(x)),
        0xf1 => with_u8(s, |x: u8| Instruction::F64x2Sub(x)),
        0xf2 => with_u8(s, |x: u8| Instruction::F64x2Mul(x)),
        0xf3 => with_u8(s, |x: u8| Instruction::F64x2Div(x)),
        0xf4 => with_u8(s, |x: u8| Instruction::F64x2Min(x)),
        0xf5 => with_u8(s, |x: u8| Instruction::F64x2Max(x)),
        0xf6 => with_u8(s, |x: u8| Instruction::F64x2Pmin(x)),
        0xf7 => with_u8(s, |x: u8| Instruction::F64x2Pmax(x)),
        0xf8 => with_u8(s, |x: u8| Instruction::I32x4TruncSatF32x4S(x)),
        0xf9 => with_u8(s, |x: u8| Instruction::I32x4TruncSatF32x4U(x)),
        0xfa => with_u8(s, |x: u8| Instruction::F32x4ConvertI32x4S(x)),
        0xfb => with_u8(s, |x: u8| Instruction::F32x4ConvertI32x4U(x)),
        0xfc => with_u8(s, |x: u8| Instruction::I32x4TruncSatF64x2SZero(x)),
        0xfd => with_u8(s, |x: u8| Instruction::I32x4TruncSatF64x2UZero(x)),
        0xfe => with_u8(s, |x: u8| Instruction::F64x2ConvertLowI32x4S(x)),
        0xff => with_u8(s, |x: u8| Instruction::F64x2ConvertLowI32x4U(x)),
        _ => Err(DecodeErr::UnknownOpcode(0xfd, sub)),
    }
}

pub open spec fn spec_fc(s: Seq<u8>) -> Parsed<InstrView> {
    match spec_leb_u32(s) {
        Ok((sub, rest)) => spec_fc_table(sub, rest),
        Err(e) => Err(e),
    }
}

pub open spec fn spec_fd(s: Seq<u8>) -> Parsed<InstrView> {
    match spec_u8(s) {
        Ok((sub, rest)) => spec_fd_table(sub, rest),
        Err(e) => Err(e),
    }
}

/// A block type: a signed LEB128 number that names one.
pub open spec fn spec_block_type(s: Seq<u8>) -> Parsed<BlockType> {
    match spec_leb_i32(s) {
        Ok((v, rest)) => match BlockType::spec_from_i32(v) {
            Some(t) => Ok((t, rest)),
            None => Err(DecodeErr::InvalidBlockType(v)),
        },
        Err(e) => Err(e),
    }
}

/// `n` label indices.
pub open spec fn spec_labels(s: Seq<u8>, n: nat) -> Parsed<Seq<LabelIdx>>
    decreases n,
{
    if n == 0 {
        Ok((Seq::empty(), s))
    } else {
        match spec_leb_u32(s) {
            Ok((l, r1)) => match spec_labels(r1, (n - 1) as nat) {
                Ok((ls, r2)) => Ok((seq![l] + ls, r2)),
                Err(e) => Err(e),
            },
            Err(e) => Err(e),
        }
    }
}

/// The label table: a count, that many labels, and the default label.
pub open spec fn spec_br_table(s: Seq<u8>) -> Parsed<InstrView> {
    match spec_leb_u32(s) {
        Ok((n, r1)) => match spec_labels(r1, n as nat) {
            Ok((labels, r2)) => match spec_leb_u32(r2) {
                Ok((default, r3)) => Ok((InstrView::BrTable(labels, default), r3)),
                Err(e) => Err(e),
            },
            Err(e) => Err(e),
        },
        Err(e) => Err(e),
    }
}

/// What ends a run of instructions: `end`, `else`, or for the end of the
/// input `nop`.
pub open spec fn is_terminator(i: InstrView) -> bool {
    i == InstrView::Plain(Instruction::End) || i == InstrView::Plain(Instruction::Else)
}

/// The check that the body decoder makes on each instruction it keeps: the
/// memory index of `memory.size` and `memory.grow` is zero, and
/// `memory.init` and `data.drop` come with a data count.
pub open spec fn body_check(i: InstrView, dc: DataCountSeg) -> Option<DecodeErr> {
    match i {
        InstrView::Plain(Instruction::MemoryGrow(idx)) => if idx != 0 {
            Some(DecodeErr::NotZero(ReservedOp::MemoryGrow, idx))
        } else {
            None
        },
        InstrView::Plain(Instruction::MemorySize(idx)) => if idx != 0 {
            Some(DecodeErr::NotZero(ReservedOp::MemorySize, idx))
        } else {
            None
        },
        InstrView::Plain(Instruction::MemoryInit(_, _)) => if dc is None {
            Some(DecodeErr::LossDataCount(DataCountOp::MemoryInit))
        } else {
            None
        },
        InstrView::Plain(Instruction::DataDrop(_)) => if dc is None {
            Some(DecodeErr::LossDataCount(DataCountOp::DataDrop))
        } else {
            None
        },
        _ => None,
    }
}

/// One instruction from the front of `s`.
pub open spec fn spec_instr(s: Seq<u8>, dc: DataCountSeg) -> Parsed<InstrView>
    decreases s.len(), 0nat,
{
    match spec_u8(s) {
        Err(e) => Err(e),
        Ok((op, rest)) => if op == 0x02 {
            match spec_block(rest, dc) {
                Ok(((t, body), r)) => Ok((InstrView::Block(t, body), r)),
                Err(e) => Err(e),
            }
        } else if op == 0x03 {
            match spec_block(rest, dc) {
                Ok(((t, body), r)) => Ok((InstrView::Loop(t, body), r)),
                Err(e) => Err(e),
            }
        } else if op == 0x04 {
            spec_if(rest, dc)
        } else if op == 0x0e {
            spec_br_table(rest)
        } else if op == 0xfc {
            spec_fc(rest)
        } else if op == 0xfd {
            spec_fd(rest)
        } else {
            spec_main(op, rest)
        },
    }
}

/// Instructions up to and including the first `end` or `else`, or up to
/// the end of the input: the instructions before the terminator, and the
/// terminator (`nop` at the end of the input).
pub open spec fn spec_expr(s: Seq<u8>, dc: DataCountSeg) -> Parsed<(Seq<InstrView>, Instruction)>
    decreases s.len(), 1nat,
{
    if s.len() == 0 {
        Ok(((Seq::empty(), Instruction::Nop), s))
    } else {
        match spec_instr(s, dc) {
            Err(e) => Err(e),
            Ok((i, rest)) => if i == InstrView::Plain(Instruction::End) {
                Ok(((Seq::empty(), Instruction::End), rest))
            } else if i == InstrView::Plain(Instruction::Else) {
                Ok(((Seq::empty(), Instruction::Else), rest))
            } else if body_check(i, dc) is Some {
                Err(body_check(i, dc)->0)
            } else if rest.len() < s.len() {
                match spec_expr(rest, dc) {
                    Ok(((more, last), r)) => Ok(((seq![i] + more, last), r)),
                    Err(e) => Err(e),
                }
            } else {
                // an instruction takes at least its opcode byte
                Err(DecodeErr::UnexpectedEof)
            },
        }
    }
}

/// The type and the body of a `block` or a `loop`; the body ends in `end`.
pub open spec fn spec_block(s: Seq<u8>, dc: DataCountSeg) -> Parsed<(BlockType, Seq<InstrView>)>
    decreases s.len(), 2nat,
{
    match spec_block_type(s) {
        Err(e) => Err(e),
        Ok((t, rest)) => if rest.len() <= s.len() {
            match spec_expr(rest, dc) {
                Ok(((body, last), r)) => if last == Instruction::End {
                    Ok(((t, body), r))
                } else {
                    Err(DecodeErr::InvalidBlock)
                },
                Err(e) => Err(e),
            }
        } else {
            Err(DecodeErr::UnexpectedEof)
        },
    }
}

/// An `if`: its type, the first branch, and after an `else` the second
/// branch, which ends in `end`.
pub open spec fn spec_if(s: Seq<u8>, dc: DataCountSeg) -> Parsed<InstrView>
    decreases s.len(), 2nat,
{
    match spec_block_type(s) {
        Err(e) => Err(e),
        Ok((t, rest)) => if rest.len() <= s.len() {
            match spec_expr(rest, dc) {
                Ok(((if_body, last), r1)) => if last == Instruction::Else {
                    if r1.len() <= s.len() {
                        match spec_expr(r1, dc) {
                            Ok(((else_body, last2), r2)) => if last2 == Instruction::End {
                                Ok((InstrView::If(t, if_body, else_body), r2))
                            } else {
                                Err(DecodeErr::InvalidElseBlock)
                            },
                            Err(e) => Err(e),
                        }
                    } else {
                        Err(DecodeErr::UnexpectedEof)
                    }
                } else {
                    Ok((InstrView::If(t, if_body, Seq::empty()), r1))
                },
                Err(e) => Err(e),
            }
        } else {
            Err(DecodeErr::UnexpectedEof)
        },
    }
}

/// Whether a read, if it gave a value, left no more bytes than `s` has.
pub open spec fn within<T>(parsed: Parsed<T>, s: Seq<u8>) -> bool {
    match parsed {
        Ok((_, rest)) => rest.len() <= s.len(),
        Err(_) => true,
    }
}

/// What follows an opcode leaves no more bytes than it found.
pub proof fn lemma_tables_consume(s: Seq<u8>)
    ensures
        forall|op: u8| within(#[trigger] spec_main(op, s), s),
        forall|sub: u32| within(#[trigger] spec_fc_table(sub, s), s),
        forall|sub: u8| within(#[trigger] spec_fd_table(sub, s), s),
{
    reveal(spec_main);
    reveal(spec_fc_table);
    reveal(spec_fd_table);
    assert forall|op: u8| within(#[trigger] spec_main(op, s), s) by {}
    assert forall|sub: u32| within(#[trigger] spec_fc_table(sub, s), s) by {}
    assert forall|sub: u8| within(#[trigger] spec_fd_table(sub, s), s) by {}
}

/// Labels leave no more bytes than they found.
pub proof fn lemma_labels_consume(s: Seq<u8>, n: nat)
    ensures
        spec_labels(s, n) matches Ok((ls, rest)) ==> rest.len() <= s.len() && ls.len() == n,
    decreases n,
{
    if n > 0 {
        if let Ok((l, r1)) = spec_leb_u32(s) {
            lemma_labels_consume(r1, (n - 1) as nat);
        }
    }
}

/// An instruction takes at least one byte, and no read leaves more bytes
/// than it found.
pub proof fn lemma_instr_consumes(s: Seq<u8>, dc: DataCountSeg)
    ensures
        spec_instr(s, dc) matches Ok((_, rest)) ==> rest.len() < s.len(),
        spec_expr(s, dc) matches Ok((_, rest)) ==> rest.len() <= s.len(),
        spec_block(s, dc) matches Ok((_, rest)) ==> rest.len() <= s.len(),
        spec_if(s, dc) matches Ok((_, rest)) ==> rest.len() <= s.len(),
    decreases s.len(),
{
    if let Ok((t, rest)) = spec_block_type(s) {
        if rest.len() < s.len() {
            lemma_instr_consumes(rest, dc);
            if let Ok(((body, last), r1)) = spec_expr(rest, dc) {
                if r1.len() < s.len() {
                    lemma_instr_consumes(r1, dc);
                }
            }
        }
    }
    if let Ok((op, rest)) = spec_u8(s) {
        lemma_instr_consumes(rest, dc);
        lemma_tables_consume(rest);
        if op == 0x0e {
            if let Ok((n, r1)) = spec_leb_u32(rest) {
                lemma_labels_consume(r1, n as nat);
            }
        }
        if op == 0xfc {
            if let Ok((sub, r1)) = spec_leb_u32(rest) {
                lemma_tables_consume(r1);
            }
        }
        if op == 0xfd {
            if let Ok((sub, r1)) = spec_u8(rest) {
                lemma_tables_consume(r1);
            }
        }
    }
    if s.len() > 0 {
        if let Ok((i, rest)) = spec_instr(s, dc) {
            if rest.len() < s.len() {
                lemma_instr_consumes(rest, dc);
            }
        }
    }
}

/// Prepends instructions to the result of reading the rest of a run.
pub open spec fn prepend(
    front: Seq<InstrView>,
    parsed: Parsed<(Seq<InstrView>, Instruction)>,
) -> Parsed<(Seq<InstrView>, Instruction)> {
    match parsed {
        Ok(((more, last), r)) => Ok(((front + more, last), r)),
        Err(e) => Err(e),
    }
}

/// Reads instructions up to and including the first `end` or `else`, or up
/// to the end of the input. Gives the instructions before the terminator
/// and the terminator; at the end of the input the terminator is `nop`.
pub fn decode_expr(reader: &mut Reader) -> (r: DecodeResult<(Expr, Instruction)>)
    ensures
        final(reader).data_count() == old(reader).data_count(),
        match spec_expr(old(reader).remaining(), old(reader).data_count()) {
            Ok(((body, last), rest)) => r is Ok && expr_view(r->Ok_0.0@) == body && r->Ok_0.1
                == last && final(reader).remaining() == rest,
            Err(e) => r == Err::<(Expr, Instruction), DecodeErr>(e),
        },
    decreases old(reader).remaining().len(), 1nat,
{
    let mut exprs: Vec<Instruction> = Vec::new();
    let data_count = reader.data_count();
    let ghost start = reader.remaining();
    proof {
        assert(Seq::<InstrView>::empty() + Seq::<InstrView>::empty() =~= Seq::<InstrView>::empty());
        assert(forall|p: Parsed<(Seq<InstrView>, Instruction)>|
            p is Ok ==> (#[trigger] prepend(Seq::<InstrView>::empty(), p))->Ok_0.0.0 =~= p->Ok_0.0.0);
    }
    loop
        invariant
            reader.data_count() == data_count,
            data_count == old(reader).data_count(),
            start == old(reader).remaining(),
            reader.remaining().len() <= start.len(),
            spec_expr(start, data_count) == prepend(
                expr_view(exprs@),
                spec_expr(reader.remaining(), data_count),
            ),
        decreases reader.remaining().len(),
    {
        let ghost before = reader.remaining();
        let more = reader.not_end()?;
        if !more {
            proof {
                assert(expr_view(exprs@) + Seq::<InstrView>::empty() =~= expr_view(exprs@));
            }
            return Ok((exprs, Instruction::Nop));
        }
        proof {
            lemma_instr_consumes(before, data_count);
        }
        let instr = decode_instr(reader)?;
        match instr {
            Instruction::End => {
                proof {
                    assert(expr_view(exprs@) + Seq::<InstrView>::empty() =~= expr_view(exprs@));
                }
                return Ok((exprs, Instruction::End));
            },
            Instruction::Else => {
                proof {
                    assert(expr_view(exprs@) + Seq::<InstrView>::empty() =~= expr_view(exprs@));
                }
                return Ok((exprs, Instruction::Else));
            },
            Instruction::MemoryGrow(idx) => {
                if idx != 0 {
                    return Err(DecodeErr::NotZero(ReservedOp::MemoryGrow, idx));
                }
            },
            Instruction::MemorySize(idx) => {
                if idx != 0 {
                    return Err(DecodeErr::NotZero(ReservedOp::MemorySize, idx));
                }
            },
            Instruction::MemoryInit(_, _) => {
                if data_count.is_none() {
                    return Err(DecodeErr::LossDataCount(DataCountOp::MemoryInit));
                }
            },
            Instruction::DataDrop(_) => {
                if data_count.is_none() {
                    return Err(DecodeErr::LossDataCount(DataCountOp::DataDrop));
                }
            },
            _ => {},
        }
        proof {
            lemma_expr_view_push(exprs@, instr);
            let i = instr_view(instr);
            let tail = spec_expr(reader.remaining(), data_count);
            if let Ok(((more_instrs, last), r)) = tail {
                assert(expr_view(exprs@) + (seq![i] + more_instrs) =~= expr_view(exprs@).push(i)
                    + more_instrs);
            }
        }
        exprs.push(instr);
    }
}

/// Reads the type and the body of a `block` or a `loop`.
pub fn decode_block(reader: &mut Reader) -> (r: DecodeResult<Block>)
    ensures
        final(reader).data_count() == old(reader).data_count(),
        match spec_block(old(reader).remaining(), old(reader).data_count()) {
            Ok(((t, body), rest)) => r is Ok && r->Ok_0.type_ == t && expr_view(r->Ok_0.expr@)
                == body && final(reader).remaining() == rest,
            Err(e) => r == Err::<Block, DecodeErr>(e),
        },
    decreases old(reader).remaining().len(), 2nat,
{
    proof {
        lemma_block_type_consumes(reader.remaining());
    }
    let block_type = decode_block_type(reader)?;
    let (expr, last_instr) = decode_expr(reader)?;
    match last_instr {
        Instruction::End => Ok(Block::new(block_type, expr)),
        _ => Err(DecodeErr::InvalidBlock),
    }
}

/// Reads an `if`: its type and its branches.
pub fn decode_if(reader: &mut Reader) -> (r: DecodeResult<IfBlock>)
    ensures
        final(reader).data_count() == old(reader).data_count(),
        match spec_if(old(reader).remaining(), old(reader).data_count()) {
            Ok((v, rest)) => r is Ok && instr_view(Instruction::If(r->Ok_0)) == v
                && final(reader).remaining() == rest,
            Err(e) => r == Err::<IfBlock, DecodeErr>(e),
        },
    decreases old(reader).remaining().len(), 2nat,
{
    let ghost start = reader.remaining();
    proof {
        lemma_block_type_consumes(start);
    }
    let block_type = decode_block_type(reader)?;
    proof {
        lemma_instr_consumes(reader.remaining(), reader.data_count());
    }
    let (if_expr, last_instr) = decode_expr(reader)?;
    let mut second: Expr = Vec::new();
    if matches!(last_instr, Instruction::Else) {
        let (else_expr, last_instr) = decode_expr(reader)?;
        match last_instr {
            Instruction::End => {
                second = else_expr;
            },
            _ => {
                return Err(DecodeErr::InvalidElseBlock);
            },
        }
    }
    Ok(IfBlock { type_: block_type, if_expr: Rc::new(if_expr), else_expr: Rc::new(second) })
}

/// A block type takes at least one byte.
pub proof fn lemma_block_type_consumes(s: Seq<u8>)
    ensures
        spec_block_type(s) matches Ok((_, rest)) ==> rest.len() < s.len(),
{
}

/// Reads the label table of `br_table`.
pub fn decode_br_table(reader: &mut Reader) -> (r: DecodeResult<BrTableArg>)
    ensures
        final(reader).data_count() == old(reader).data_count(),
        match spec_br_table(old(reader).remaining()) {
            Ok((v, rest)) => r is Ok && InstrView::BrTable(r->Ok_0.labels@, r->Ok_0.default) == v
                && final(reader).remaining() == rest,
            Err(e) => r == Err::<BrTableArg, DecodeErr>(e),
        },
{
    let ghost start = reader.remaining();
    let total = reader.get_leb_u32()?;
    let ghost after_count = reader.remaining();
    let mut labels: Vec<LabelIdx> = Vec::new();
    let mut i: u32 = 0;
    proof {
        assert(forall|p: Parsed<Seq<LabelIdx>>|
            p is Ok ==> (#[trigger] prepend_labels(Seq::<LabelIdx>::empty(), p))->Ok_0.0
                =~= p->Ok_0.0);
    }
    while i < total
        invariant
            i <= total,
            reader.data_count() == old(reader).data_count(),
            start == old(reader).remaining(),
            spec_leb_u32(start) == Ok::<(u32, Seq<u8>), DecodeErr>((total, after_count)),
            spec_labels(after_count, total as nat) == prepend_labels(
                labels@,
                spec_labels(reader.remaining(), (total - i) as nat),
            ),
        decreases total - i,
    {
        let l = reader.get_leb_u32()?;
        proof {
            if let Ok((more, r)) = spec_labels(reader.remaining(), (total - i - 1) as nat) {
                assert(labels@ + (seq![l] + more) =~= labels@.push(l) + more);
            }
        }
        labels.push(l);
        i += 1;
    }
    proof {
        assert(labels@ + Seq::<LabelIdx>::empty() =~= labels@);
    }
    let default = reader.get_leb_u32()?;
    Ok(BrTableArg { labels, default })
}

/// Prepends labels to the result of reading the rest of a label table.
pub open spec fn prepend_labels(front: Seq<LabelIdx>, parsed: Parsed<Seq<LabelIdx>>) -> Parsed<
    Seq<LabelIdx>,
> {
    match parsed {
        Ok((more, r)) => Ok((front + more, r)),
        Err(e) => Err(e),
    }
}

/// Reads one instruction.
pub fn decode_instr(reader: &mut Reader) -> (r: DecodeResult<Instruction>)
    ensures
        final(reader).data_count() == old(reader).data_count(),
        reads_deep(
            spec_instr(old(reader).remaining(), old(reader).data_count()),
            r,
            final(reader).remaining(),
        ),
    decreases old(reader).remaining().len(), 0nat,
{
    let op = reader.get_u8()?;
    match op {
        0x02 => Ok(Instruction::Block(decode_block(reader)?)),
        0x03 => Ok(Instruction::Loop(decode_block(reader)?)),
        0x04 => Ok(Instruction::If(decode_if(reader)?)),
        0x0e => Ok(Instruction::BrTable(decode_br_table(reader)?)),
        0xfc => decode_fc(reader),
        0xfd => decode_fd(reader),
        _ => decode_main(op, reader),
    }
}

pub fn decode_memarg(reader: &mut Reader) -> (r: DecodeResult<MemoryArg>)
    ensures
        final(reader).data_count() == old(reader).data_count(),
        super::reader::reads(spec_memarg(old(reader).remaining()), r, final(reader).remaining()),
{
    let align = reader.get_leb_u32()?;
    let offset = reader.get_leb_u32()?;
    Ok(MemoryArg { align, offset })
}

pub fn decode_val_type(reader: &mut Reader) -> (r: DecodeResult<ValType>)
    ensures
        final(reader).data_count() == old(reader).data_count(),
        super::reader::reads(spec_val_type(old(reader).remaining()), r, final(reader).remaining()),
{
    let b = reader.get_u8()?;
    ValType::from_u8(b)
}

pub fn decode_block_type(reader: &mut Reader) -> (r: DecodeResult<BlockType>)
    ensures
        final(reader).data_count() == old(reader).data_count(),
        super::reader::reads(
            spec_block_type(old(reader).remaining()),
            r,
            final(reader).remaining(),
        ),
{
    let v = reader.get_leb_i32()?;
    BlockType::from_i32(v)
}

/// Reads what follows the opcode byte `op` of an instruction that is
/// neither a block, an `if`, a label table nor prefixed.
fn decode_main(op: u8, reader: &mut Reader) -> (r: DecodeResult<Instruction>)
    ensures
        final(reader).data_count() == old(reader).data_count(),
        reads_deep(spec_main(op, old(reader).remaining()), r, final(reader).remaining()),
{
    proof {
        reveal(spec_main);
    }
    let instruction = match op {
        0x00 => Instruction::Unreachable,
        0x01 => Instruction::Nop,
        0x05 => Instruction::Else,
        0x0b => Instruction::End,
        0x0c => Instruction::Br(reader.get_leb_u32()?),
        0x0d => Instruction::BrIf(reader.get_leb_u32()?),
        0x0f => Instruction::Return,
        0x10 => Instruction::Call(reader.get_leb_u32()?),
        0x11 => Instruction::CallIndirect(reader.get_leb_u32()?, reader.get_leb_u32()?),
        0x1a => Instruction::Drop,
        0x1b => Instruction::Select,
        0x1c => Instruction::Select2(reader.get_u8()?, decode_val_type(reader)?),
        0x20 => Instruction::LocalGet(reader.get_leb_u32()?),
        0x21 => Instruction::LocalSet(reader.get_leb_u32()?),
        0x22 => Instruction::LocalTee(reader.get_leb_u32()?),
        0x23 => Instruction::GlobalGet(reader.get_leb_u32()?),
        0x24 => Instruction::GlobalSet(reader.get_leb_u32()?),
        0x25 => Instruction::TableGet(reader.get_leb_u32()?),
        0x26 => Instruction::TableSet(reader.get_leb_u32()?),
        0x28 => Instruction::I32Load(decode_memarg(reader)?),
        0x29 => Instruction::I64Load(decode_memarg(reader)?),
        0x2a => Instruction::F32Load(decode_memarg(reader)?),
        0x2b => Instruction::F64Load(decode_memarg(reader)?),
        0x2c => Instruction::I32Load8S(decode_memarg(reader)?),
        0x2d => Instruction::I32Load8U(decode_memarg(reader)?),
        0x2e => Instruction::I32Load16S(decode_memarg(reader)?),
        0x2f => Instruction::I32Load16U(decode_memarg(reader)?),
        0x30 => Instruction::I64Load8S(decode_memarg(reader)?),
        0x31 => Instruction::I64Load8U(decode_memarg(reader)?),
        0x32 => Instruction::I64Load16S(decode_memarg(reader)?),
        0x33 => Instruction::I64Load16U(decode_memarg(reader)?),
        0x34 => Instruction::I64Load32S(decode_memarg(reader)?),
        0x35 => Instruction::I64Load32U(decode_memarg(reader)?),
        0x36 => Instruction::I32Store(decode_memarg(reader)?),
        0x37 => Instruction::I64Store(decode_memarg(reader)?),
        0x38 => Instruction::F32Store(decode_memarg(reader)?),
        0x39 => Instruction::F64Store(decode_memarg(reader)?),
        0x3a => Instruction::I32Store8(decode_memarg(reader)?),
        0x3b => Instruction::I32Store16(decode_memarg(reader)?),
        0x3c => Instruction::I64Store8(decode_memarg(reader)?),
        0x3d => Instruction::I64Store16(decode_memarg(reader)?),
        0x3e => Instruction::I64Store32(decode_memarg(reader)?),
        0x3f => Instruction::MemorySize(reader.get_u8()?),
        0x40 => Instruction::MemoryGrow(reader.get_u8()?),
        0x41 => Instruction::I32Const(reader.get_leb_i32()?),
        0x42 => Instruction::I64Const(reader.get_leb_i64()?),
        0x43 => Instruction::F32Const(reader.get_f32()?),
        0x44 => Instruction::F64Const(reader.get_f64()?),
        0x45 => Instruction::I32Eqz,
        0x46 => Instruction::I32Eq,
        0x47 => Instruction::I32Ne,
        0x48 => Instruction::I32LtS,
        0x49 => Instruction::I32LtU,
        0x4a => Instruction::I32GtS,
        0x4b => Instruction::I32GtU,
        0x4c => Instruction::I32LeS,
        0x4d => Instruction::I32LeU,
        0x4e => Instruction::I32GeS,
        0x4f => Instruction::I32GeU,
        0x50 => Instruction::I64Eqz,
        0x51 => Instruction::I64Eq,
        0x52 => Instruction::I64Ne,
        0x53 => Instruction::I64LtS,
        0x54 => Instruction::I64LtU,
        0x55 => Instruction::I64GtS,
        0x56 => Instruction::I64GtU,
        0x57 => Instruction::I64LeS,
        0x58 => Instruction::I64LeU,
        0x59 => Instruction::I64GeS,
        0x5a => Instruction::I64GeU,
        0x5b => Instruction::F32Eq,
        0x5c => Instruction::F32Ne,
        0x5d => Instruction::F32Lt,
        0x5e => Instruction::F32Gt,
        0x5f => Instruction::F32Le,
        0x60 => Instruction::F32Ge,
        0x61 => Instruction::F64Eq,
        0x62 => Instruction::F64Ne,
        0x63 => Instruction::F64Lt,
        0x64 => Instruction::F64Gt,
        0x65 => Instruction::F64Le,
        0x66 => Instruction::F64Ge,
        0x67 => Instruction::I32Clz,
        0x68 => Instruction::I32Ctz,
        0x69 => Instruction::I32Popcnt,
        0x6a => Instruction::I32Add,
        0x6b => Instruction::I32Sub,
        0x6c => Instruction::I32Mul,
        0x6d => Instruction::I32DivS,
        0x6e => Instruction::I32DivU,
        0x6f => Instruction::I32RemS,
        0x70 => Instruction::I32RemU,
        0x71 => Instruction::I32And,
        0x72 => Instruction::I32Or,
        0x73 => Instruction::I32Xor,
        0x74 => Instruction::I32Shl,
        0x75 => Instruction::I32ShrS,
        0x76 => Instruction::I32ShrU,
        0x77 => Instruction::I32Rotl,
        0x78 => Instruction::I32Rotr,
        0x79 => Instruction::I64Clz,
        0x7a => Instruction::I64Ctz,
        0x7b => Instruction::I64Popcnt,
        0x7c => Instruction::I64Add,
        0x7d => Instruction::I64Sub,
        0x7e => Instruction::I64Mul,
        0x7f => Instruction::I64DivS,
        0x80 => Instruction::I64DivU,
        0x81 => Instruction::I64RemS,
        0x82 => Instruction::I64RemU,
        0x83 => Instruction::I64And,
        0x84 => Instruction::I64Or,
        0x85 => Instruction::I64Xor,
        0x86 => Instruction::I64Shl,
        0x87 => Instruction::I64ShrS,
        0x88 => Instruction::I64ShrU,
        0x89 => Instruction::I64Rotl,
        0x8a => Instruction::I64Rotr,
        0x8b => Instruction::F32Abs,
        0x8c => Instruction::F32Neg,
        0x8d => Instruction::F32Ceil,
        0x8e => Instruction::F32Floor,
        0x8f => Instruction::F32Trunc,
        0x90 => Instruction::F32Nearest,
        0x91 => Instruction::F32Sqrt,
        0x92 => Instruction::F32Add,
        0x93 => Instruction::F32Sub,
        0x94 => Instruction::F32Mul,
        0x95 => Instruction::F32Div,
        0x96 => Instruction::F32Min,
        0x97 => Instruction::F32Max,
        0x98 => Instruction::F32Copysign,
        0x99 => Instruction::F64Abs,
        0x9a => Instruction::F64Neg,
        0x9b => Instruction::F64Ceil,
        0x9c => Instruction::F64Floor,
        0x9d => Instruction::F64Trunc,
        0x9e => Instruction::F64Nearest,
        0x9f => Instruction::F64Sqrt,
        0xa0 => Instruction::F64Add,
        0xa1 => Instruction::F64Sub,
        0xa2 => Instruction::F64Mul,
        0xa3 => Instruction::F64Div,
        0xa4 => Instruction::F64Min,
        0xa5 => Instruction::F64Max,
        0xa6 => Instruction::F64Copysign,
        0xa7 => Instruction::I32WrapI64,
        0xa8 => Instruction::I32TruncF32S,
        0xa9 => Instruction::I32TruncF32U,
        0xaa => Instruction::I32TruncF64S,
        0xab => Instruction::I32TruncF64U,
        0xac => Instruction::I64ExtendI32S,
        0xad => Instruction::I64ExtendI32U,
        0xae => Instruction::I64TruncF32S,
        0xaf => Instruction::I64TruncF32U,
        0xb0 => Instruction::I64TruncF64S,
        0xb1 => Instruction::I64TruncF64U,
        0xb2 => Instruction::F32ConvertI32S,
        0xb3 => Instruction::F32ConvertI32U,
        0xb4 => Instruction::F32ConvertI64S,
        0xb5 => Instruction::F32ConvertI64U,
        0xb6 => Instruction::F32DemoteF64,
        0xb7 => Instruction::F64ConvertI32S,
        0xb8 => Instruction::F64ConvertI32U,
        0xb9 => Instruction::F64ConvertI64S,
        0xba => Instruction::F64ConvertI64U,
        0xbb => Instruction::F64PromoteF32,
        0xbc => Instruction::I32ReinterpretF32,
        0xbd => Instruction::I64ReinterpretF64,
        0xbe => Instruction::F32ReinterpretI32,
        0xbf => Instruction::F64ReinterpretI64,
        0xc0 => Instruction::I32Extend8S,
        0xc1 => Instruction::I32Extend16S,
        0xc2 => Instruction::I64Extend8S,
        0xc3 => Instruction::I64Extend16S,
        0xc4 => Instruction::I64Extend32S,
        0xd0 => Instruction::RefNull(reader.get_leb_u64()?),
        0xd1 => Instruction::RefIsNull,
        0xd2 => Instruction::RefFunc(reader.get_leb_u32()?),
        _ => {
            return Err(DecodeErr::UnknownOpcodePrefix(op));
        },
    };
    Ok(instruction)
}

/// Reads what follows the prefix 0xFC.
fn decode_fc(reader: &mut Reader) -> (r: DecodeResult<Instruction>)
    ensures
        final(reader).data_count() == old(reader).data_count(),
        reads_deep(spec_fc(old(reader).remaining()), r, final(reader).remaining()),
{
    proof {
        reveal(spec_fc_table);
    }
    let sub: u32 = reader.get_leb_u32()?;
    let instruction = match sub {
        0x00 => Instruction::I32TruncSatF32S,
        0x01 => Instruction::I32TruncSatF32U,
        0x02 => Instruction::I32TruncSatF64S,
        0x03 => Instruction::I32TruncSatF64U,
        0x04 => Instruction::I64TruncSatF32S,
        0x05 => Instruction::I64TruncSatF32U,
        0x06 => Instruction::I64TruncSatF64S,
        0x07 => Instruction::I64TruncSatF64U,
        0x08 => Instruction::MemoryInit(reader.get_leb_u32()?, reader.get_leb_u32()?),
        0x09 => Instruction::DataDrop(reader.get_leb_u32()?),
        0x0a => Instruction::MemoryCopy(reader.get_leb_u32()?, reader.get_leb_u32()?),
        0x0b => Instruction::MemoryFill(reader.get_leb_u32()?),
        0x0c => Instruction::TableInit(reader.get_leb_u32()?, reader.get_leb_u32()?),
        0x0d => Instruction::ElemDrop(reader.get_leb_u32()?),
        0x0e => Instruction::TableCopy(reader.get_leb_u32()?, reader.get_leb_u32()?),
        0x0f => Instruction::TableGrow(reader.get_leb_u32()?),
        0x10 => Instruction::TableSize(reader.get_leb_u32()?),
        0x11 => Instruction::TableFill(reader.get_leb_u32()?),
        _ => {
            return Err(DecodeErr::UnknownOpcode(0xfc, sub as u8));
        },
    };
    Ok(instruction)
}

/// Reads what follows the prefix 0xFD.
fn decode_fd(reader: &mut Reader) -> (r: DecodeResult<Instruction>)
    ensures
        final(reader).data_count() == old(reader).data_count(),
        reads_deep(spec_fd(old(reader).remaining()), r, final(reader).remaining()),
{
    proof {
        reveal(spec_fd_table);
    }
    let sub: u8 = reader.get_u8()?;
    let instruction = match sub {
        0x00 => Instruction::V128Load(decode_memarg(reader)?),
        0x01 => Instruction::V128Load8x8S(decode_memarg(reader)?),
        0x02 => Instruction::V128Load8x8U(decode_memarg(reader)?),
        0x03 => Instruction::V128Load16x4S(decode_memarg(reader)?),
        0x04 => Instruction::V128Load16x4U(decode_memarg(reader)?),
        0x05 => Instruction::V128Load32x2S(decode_memarg(reader)?),
        0x06 => Instruction::V128Load32x2U(decode_memarg(reader)?),
        0x07 => Instruction::V128Load8Splat(decode_memarg(reader)?),
        0x08 => Instruction::V128Load16Splat(decode_memarg(reader)?),
        0x09 => Instruction::V128Load32Splat(decode_memarg(reader)?),
        0x0a => Instruction::V128Load64Splat(decode_memarg(reader)?),
        0x0b => Instruction::V128Store(decode_memarg(reader)?),
        0x0c => Instruction::V128Const(reader.get_v128()?),
        0x0d => Instruction::I8x16Shuffle(reader.byte_16()?),
        0x0e => Instruction::I8x16Swizzle,
        0x0f => Instruction::I8x16Splat,
        0x10 => Instruction::I16x8Splat,
        0x11 => Instruction::I32x4Splat,
        0x12 => Instruction::I64x2Splat,
        0x13 => Instruction::F32x4Splat,
        0x14 => Instruction::F64x2Splat,
        0x15 => Instruction::I8x16ExtractLaneS(reader.get_u8()?),
        0x16 => Instruction::I8x16ExtractLaneU(reader.get_u8()?),
        0x17 => Instruction::I8x16ReplaceLane(reader.get_u8()?),
        0x18 => Instruction::I16x8ExtractLaneS(reader.get_u8()?),
        0x19 => Instruction::I16x8ExtractLaneU(reader.get_u8()?),
        0x1a => Instruction::I16x8ReplaceLane(reader.get_u8()?),
        0x1b => Instruction::I32x4ExtractLane(reader.get_u8()?),
        0x1c => Instruction::I32x4ReplaceLane(reader.get_u8()?),
        0x1d => Instruction::I64x2ExtractLane(reader.get_u8()?),
        0x1e => Instruction::I64x2ReplaceLane(reader.get_u8()?),
        0x1f => Instruction::F32x4ExtractLane(reader.get_u8()?),
        0x20 => Instruction::F32x4ReplaceLane(reader.get_u8()?),
        0x21 => Instruction::F64x2ExtractLane(reader.get_u8()?),
        0x22 => Instruction::F64x2ReplaceLane(reader.get_u8()?),
        0x23 => Instruction::I8x16Eq,
        0x24 => Instruction::I8x16Ne,
        0x25 => Instruction::I8x16LtS,
        0x26 => Instruction::I8x16LtU,
        0x27 => Instruction::I8x16GtS,
        0x28 => Instruction::I8x16GtU,
        0x29 => Instruction::I8x16LeS,
        0x2a => Instruction::I8x16LeU,
        0x2b => Instruction::I8x16GeS,
        0x2c => Instruction::I8x16GeU,
        0x2d => Instruction::I16x8Eq,
        0x2e => Instruction::I16x8Ne,
        0x2f => Instruction::I16x8LtS,
        0x30 => Instruction::I16x8LtU,
        0x31 => Instruction::I16x8GtS,
        0x32 => Instruction::I16x8GtU,
        0x33 => Instruction::I16x8LeS,
        0x34 => Instruction::I16x8LeU,
        0x35 => Instruction::I16x8GeS,
        0x36 => Instruction::I16x8GeU,
        0x37 => Instruction::I32x4Eq,
        0x38 => Instruction::I32x4Ne,
        0x39 => Instruction::I32x4LtS,
        0x3a => Instruction::I32x4LtU,
        0x3b => Instruction::I32x4GtS,
        0x3c => Instruction::I32x4GtU,
        0x3d => Instruction::I32x4LeS,
        0x3e => Instruction::I32x4LeU,
        0x3f => Instruction::I32x4GeS,
        0x40 => Instruction::I32x4GeU,
        0x41 => Instruction::F32x4Eq,
        0x42 => Instruction::F32x4Ne,
        0x43 => Instruction::F32x4Lt,
        0x44 => Instruction::F32x4Gt,
        0x45 => Instruction::F32x4Le,
        0x46 => Instruction::F32x4Ge,
        0x47 => Instruction::F64x2Eq,
        0x48 => Instruction::F64x2Ne,
        0x49 => Instruction::F64x2Lt,
        0x4a => Instruction::F64x2Gt,
        0x4b => Instruction::F64x2Le,
        0x4c => Instruction::F64x2Ge,
        0x4d => Instruction::V128Not,
        0x4e => Instruction::V128And,
        0x4f => Instruction::V128Andnot,
        0x50 => Instruction::V128Or,
        0x51 => Instruction::V128Xor,
        0x52 => Instruction::V128Bitselect,
        0x53 => Instruction::V128AnyTrue,
        0x54 => Instruction::V128Load8Lane(decode_memarg(reader)?, reader.get_u8()?),
        0x55 => Instruction::V128Load16Lane(decode_memarg(reader)?, reader.get_u8()?),
        0x56 => Instruction::V128Load32Lane(decode_memarg(reader)?, reader.get_u8()?),
        0x57 => Instruction::V128Load64Lane(decode_memarg(reader)?, reader.get_u8()?),
        0x58 => Instruction::V128Store8Lane(decode_memarg(reader)?, reader.get_u8()?),
        0x59 => Instruction::V128Store16Lane(decode_memarg(reader)?, reader.get_u8()?),
        0x5a => Instruction::V128Store32Lane(decode_memarg(reader)?, reader.get_u8()?),
        0x5b => Instruction::V128Store64Lane(decode_memarg(reader)?, reader.get_u8()?),
        0x5c => Instruction::V128Load32Zero(decode_memarg(reader)?),
        0x5d => Instruction::V128Load64Zero(decode_memarg(reader)?),
        0x5e => Instruction::F32x4DemoteF64x2Zero,
        0x5f => Instruction::F64x2PromoteLowF32x4,
        0x60 => Instruction::I8x16Abs,
        0x61 => Instruction::I8x16Neg,
        0x62 => Instruction::I8x16Popcnt,
        0x63 => Instruction::I8x16AllTrue,
        0x64 => Instruction::I8x16Bitmask,
        0x65 => Instruction::I8x16NarrowI16x8S,
        0x66 => Instruction::I8x16NarrowI16x8U,
        0x67 => Instruction::F32x4Ceil,
        0x68 => Instruction::F32x4Floor,
        0x69 => Instruction::F32x4Trunc,
        0x6a => Instruction::F32x4Nearest,
        0x6b => Instruction::I8x16Shl,
        0x6c => Instruction::I8x16ShrS,
        0x6d => Instruction::I8x16ShrU,
        0x6e => Instruction::I8x16Add,
        0x6f => Instruction::I8x16AddSatS,
        0x70 => Instruction::I8x16AddSatU,
        0x71 => Instruction::I8x16Sub,
        0x72 => Instruction::I8x16SubSatS,
        0x73 => Instruction::I8x16SubSatU,
        0x74 => Instruction::F64x2Ceil,
        0x75 => Instruction::F64x2Floor,
        0x76 => Instruction::I8x16MinS,
        0x77 => Instruction::I8x16MinU,
        0x78 => Instruction::I8x16MaxS,
        0x79 => Instruction::I8x16MaxU,
        0x7a => Instruction::F64x2Trunc,
        0x7b => Instruction::I8x16AvgrU,
        0x7c => Instruction::I16x8ExtaddPairwiseI8x16S,
        0x7d => Instruction::I16x8ExtaddPairwiseI8x16U,
        0x7e => Instruction::I32x4ExtaddPairwiseI16x8S,
        0x7f => Instruction::I32x4ExtaddPairwiseI16x8U,
        0x80 => Instruction::I16x8Abs(reader.get_u8()?),
        0x81 => Instruction::I16x8Neg(reader.get_u8()?),
        0x82 => Instruction::I16x8Q15mulrSatS(reader.get_u8()?),
        0x83 => Instruction::I16x8AllTrue(reader.get_u8()?),
        0x84 => Instruction::I16x8Bitmask(reader.get_u8()?),
        0x85 => Instruction::I16x8NarrowI32x4S(reader.get_u8()?),
        0x86 => Instruction::I16x8NarrowI32x4U(reader.get_u8()?),
        0x87 => Instruction::I16x8ExtendLowI8x16S(reader.get_u8()?),
        0x88 => Instruction::I16x8ExtendHighI8x16S(reader.get_u8()?),
        0x89 => Instruction::I16x8ExtendLowI8x16U(reader.get_u8()?),
        0x8a => Instruction::I16x8ExtendHighI8x16U(reader.get_u8()?),
        0x8b => Instruction::I16x8Shl(reader.get_u8()?),
        0x8c => Instruction::I16x8ShrS(reader.get_u8()?),
        0x8d => Instruction::I16x8ShrU(reader.get_u8()?),
        0x8e => Instruction::I16x8Add(reader.get_u8()?),
        0x8f => Instruction::I16x8AddSatS(reader.get_u8()?),
        0x90 => Instruction::I16x8AddSatU(reader.get_u8()?),
        0x91 => Instruction::I16x8Sub(reader.get_u8()?),
        0x92 => Instruction::I16x8SubSatS(reader.get_u8()?),
        0x93 => Instruction::I16x8SubSatU(reader.get_u8()?),
        0x94 => Instruction::F64x2Nearest(reader.get_u8()?),
        0x95 => Instruction::I16x8Mul(reader.get_u8()?),
        0x96 => Instruction::I16x8MinS(reader.get_u8()?),
        0x97 => Instruction::I16x8MinU(reader.get_u8()?),
        0x98 => Instruction::I16x8MaxS(reader.get_u8()?),
        0x99 => Instruction::I16x8MaxU(reader.get_u8()?),
        0x9b => Instruction::I16x8AvgrU(reader.get_u8()?),
        0x9c => Instruction::I16x8ExtmulLowI8x16S(reader.get_u8()?),
        0x9d => Instruction::I16x8ExtmulHighI8x16S(reader.get_u8()?),
        0x9e => Instruction::I16x8ExtmulLowI8x16U(reader.get_u8()?),
        0x9f => Instruction::I16x8ExtmulHighI8x16U(reader.get_u8()?),
        0xa0 => Instruction::I32x4Abs(reader.get_u8()?),
        0xa1 => Instruction::I32x4Neg(reader.get_u8()?),
        0xa3 => Instruction::I32x4AllTrue(reader.get_u8()?),
        0xa4 => Instruction::I32x4Bitmask(reader.get_u8()?),
        0xa7 => Instruction::I32x4ExtendLowI16x8S(reader.get_u8()?),
        0xa8 => Instruction::I32x4ExtendHighI16x8S(reader.get_u8()?),
        0xa9 => Instruction::I32x4ExtendLowI16x8U(reader.get_u8()?),
        0xaa => Instruction::I32x4ExtendHighI16x8U(reader.get_u8()?),
        0xab => Instruction::I32x4Shl(reader.get_u8()?),
        0xac => Instruction::I32x4ShrS(reader.get_u8()?),
        0xad => Instruction::I32x4ShrU(reader.get_u8()?),
        0xae => Instruction::I32x4Add(reader.get_u8()?),
        0xb1 => Instruction::I32x4Sub(reader.get_u8()?),
        0xb5 => Instruction::I32x4Mul(reader.get_u8()?),
        0xb6 => Instruction::I32x4MinS(reader.get_u8()?),
        0xb7 => Instruction::I32x4MinU(reader.get_u8()?),
        0xb8 => Instruction::I32x4MaxS(reader.get_u8()?),
        0xb9 => Instruction::I32x4MaxU(reader.get_u8()?),
        0xba => Instruction::I32x4DotI16x8S(reader.get_u8()?),
        0xbc => Instruction::I32x4ExtmulLowI16x8S(reader.get_u8()?),
        0xbd => Instruction::I32x4ExtmulHighI16x8S(reader.get_u8()?),
        0xbe => Instruction::I32x4ExtmulLowI16x8U(reader.get_u8()?),
        0xbf => Instruction::I32x4ExtmulHighI16x8U(reader.get_u8()?),
        0xc0 => Instruction::I64x2Abs(reader.get_u8()?),
        0xc1 => Instruction::I64x2Neg(reader.get_u8()?),
        0xc3 => Instruction::I64x2AllTrue(reader.get_u8()?),
        0xc4 => Instruction::I64x2Bitmask(reader.get_u8()?),
        0xc7 => Instruction::I64x2ExtendLowI32x4S(reader.get_u8()?),
        0xc8 => Instruction::I64x2ExtendHighI32x4S(reader.get_u8()?),
        0xc9 => Instruction::I64x2ExtendLowI32x4U(reader.get_u8()?),
        0xca => Instruction::I64x2ExtendHighI32x4U(reader.get_u8()?),
        0xcb => Instruction::I64x2Shl(reader.get_u8()?),
        0xcc => Instruction::I64x2ShrS(reader.get_u8()?),
        0xcd => Instruction::I64x2ShrU(reader.get_u8()?),
        0xce => Instruction::I64x2Add(reader.get_u8()?),
        0xd1 => Instruction::I64x2Sub(reader.get_u8()?),
        0xd5 => Instruction::I64x2Mul(reader.get_u8()?),
        0xd6 => Instruction::I64x2Eq(reader.get_u8()?),
        0xd7 => Instruction::I64x2Ne(reader.get_u8()?),
        0xd8 => Instruction::I64x2LtS(reader.get_u8()?),
        0xd9 => Instruction::I64x2GtS(reader.get_u8()?),
        0xda => Instruction::I64x2LeS(reader.get_u8()?),
        0xdb => Instruction::I64x2GeS(reader.get_u8()?),
        0xdc => Instruction::I64x2ExtmulLowI32x4S(reader.get_u8()?),
        0xdd => Instruction::I64x2ExtmulHighI32x4S(reader.get_u8()?),
        0xde => Instruction::I64x2ExtmulLowI32x4U(reader.get_u8()?),
        0xdf => Instruction::I64x2ExtmulHighI32x4U(reader.get_u8()?),
        0xe0 => Instruction::F32x4Abs(reader.get_u8()?),
        0xe1 => Instruction::F32x4Neg(reader.get_u8()?),
        0xe3 => Instruction::F32x4Sqrt(reader.get_u8()?),
        0xe4 => Instruction::F32x4Add(reader.get_u8()?),
        0xe5 => Instruction::F32x4Sub(reader.get_u8()?),
        0xe6 => Instruction::F32x4Mul(reader.get_u8()?),
        0xe7 => Instruction::F32x4Div(reader.get_u8()?),
        0xe8 => Instruction::F32x4Min(reader.get_u8()?),
        0xe9 => Instruction::F32x4Max(reader.get_u8()?),
        0xea => Instruction::F32x4Pmin(reader.get_u8()?),
        0xeb => Instruction::F32x4Pmax(reader.get_u8()?),
        0xec => Instruction::F64x2Abs(reader.get_u8()?),
        0xed => Instruction::F64x2Neg(reader.get_u8()?),
        0xef => Instruction::F64x2Sqrt(reader.get_u8()?),
        0xf0 => Instruction::F64x2Add(reader.get_u8()?),
        0xf1 => Instruction::F64x2Sub(reader.get_u8()?),
        0xf2 => Instruction::F64x2Mul(reader.get_u8()?),
        0xf3 => Instruction::F64x2Div(reader.get_u8()?),
        0xf4 => Instruction::F64x2Min(reader.get_u8()?),
        0xf5 => Instruction::F64x2Max(reader.get_u8()?),
        0xf6 => Instruction::F64x2Pmin(reader.get_u8()?),
        0xf7 => Instruction::F64x2Pmax(reader.get_u8()?),
        0xf8 => Instruction::I32x4TruncSatF32x4S(reader.get_u8()?),
        0xf9 => Instruction::I32x4TruncSatF32x4U(reader.get_u8()?),
        0xfa => Instruction::F32x4ConvertI32x4S(reader.get_u8()?),
        0xfb => Instruction::F32x4ConvertI32x4U(reader.get_u8()?),
        0xfc => Instruction::I32x4TruncSatF64x2SZero(reader.get_u8()?),
        0xfd => Instruction::I32x4TruncSatF64x2UZero(reader.get_u8()?),
        0xfe => Instruction::F64x2ConvertLowI32x4S(reader.get_u8()?),
        0xff => Instruction::F64x2ConvertLowI32x4U(reader.get_u8()?),
        _ => {
            return Err(DecodeErr::UnknownOpcode(0xfd, sub));
        },
    };
    Ok(instruction)
}

/// A type that can be read from the binary format.
pub trait Decode: Sized + DeepView {
    /// What reading a value of this type from the front of `s` gives, in a
    /// module whose data count is `dc`.
    spec fn spec_decode(s: Seq<u8>, dc: DataCountSeg) -> Parsed<Self::V>;

    /// Reads one value.
    fn decode(reader: &mut Reader) -> (r: DecodeResult<Self>)
        ensures
            final(reader).data_count() == old(reader).data_count(),
            reads_deep(
                Self::spec_decode(old(reader).remaining(), old(reader).data_count()),
                r,
                final(reader).remaining(),
            ),
    ;
}

/// `n` values one after the other.
pub open spec fn spec_decode_n<T: Decode>(s: Seq<u8>, dc: DataCountSeg, n: nat) -> Parsed<
    Seq<T::V>,
>
    decreases n,
{
    if n == 0 {
        Ok((Seq::empty(), s))
    } else {
        match T::spec_decode(s, dc) {
            Ok((v, r1)) => match spec_decode_n::<T>(r1, dc, (n - 1) as nat) {
                Ok((vs, r2)) => Ok((seq![v] + vs, r2)),
                Err(e) => Err(e),
            },
            Err(e) => Err(e),
        }
    }
}

/// A vector: a count as unsigned LEB128, then that many values.
pub open spec fn spec_decodes<T: Decode>(s: Seq<u8>, dc: DataCountSeg) -> Parsed<Seq<T::V>> {
    match spec_leb_u32(s) {
        Ok((n, rest)) => spec_decode_n::<T>(rest, dc, n as nat),
        Err(e) => Err(e),
    }
}

/// Prepends values to the result of reading the rest of a vector.
pub open spec fn prepend_values<V>(front: Seq<V>, parsed: Parsed<Seq<V>>) -> Parsed<Seq<V>> {
    match parsed {
        Ok((more, r)) => Ok((front + more, r)),
        Err(e) => Err(e),
    }
}

/// Reads a vector: a count, then that many values. Stops at the first
/// value that cannot be read.
pub fn decodes<T: Decode>(reader: &mut Reader) -> (r: DecodeResult<Vec<T>>)
    ensures
        final(reader).data_count() == old(reader).data_count(),
        reads_deep(
            spec_decodes::<T>(old(reader).remaining(), old(reader).data_count()),
            r,
            final(reader).remaining(),
        ),
{
    let ghost start = reader.remaining();
    let ghost dc = reader.data_count();
    let total = reader.get_leb_u32()?;
    let ghost after_count = reader.remaining();
    let mut items: Vec<T> = Vec::new();
    let mut i: u32 = 0;
    proof {
        assert(items.deep_view() =~= Seq::<T::V>::empty());
        assert(forall|p: Parsed<Seq<T::V>>|
            p is Ok ==> (#[trigger] prepend_values(Seq::<T::V>::empty(), p))->Ok_0.0 =~= p->Ok_0.0);
    }
    while i < total
        invariant
            i <= total,
            reader.data_count() == dc,
            dc == old(reader).data_count(),
            start == old(reader).remaining(),
            spec_leb_u32(start) == Ok::<(u32, Seq<u8>), DecodeErr>((total, after_count)),
            spec_decode_n::<T>(after_count, dc, total as nat) == prepend_values(
                items.deep_view(),
                spec_decode_n::<T>(reader.remaining(), dc, (total - i) as nat),
            ),
        decreases total - i,
    {
        let ghost before = items.deep_view();
        let item = T::decode(reader)?;
        proof {
            if let Ok((more, r)) = spec_decode_n::<T>(reader.remaining(), dc, (total - i - 1) as nat) {
                assert(before + (seq![item.deep_view()] + more) =~= before.push(item.deep_view())
                    + more);
            }
        }
        items.push(item);
        proof {
            assert(items.deep_view() =~= before.push(item.deep_view()));
        }
        i += 1;
    }
    proof {
        assert(items.deep_view() + Seq::<T::V>::empty() =~= items.deep_view());
    }
    Ok(items)
}

impl Decode for u32 {
    open spec fn spec_decode(s: Seq<u8>, dc: DataCountSeg) -> Parsed<u32> {
        spec_leb_u32(s)
    }

    fn decode(reader: &mut Reader) -> (r: DecodeResult<u32>) {
        reader.get_leb_u32()
    }
}

impl Decode for ValType {
    open spec fn spec_decode(s: Seq<u8>, dc: DataCountSeg) -> Parsed<ValType> {
        spec_val_type(s)
    }

    fn decode(reader: &mut Reader) -> (r: DecodeResult<ValType>) {
        decode_val_type(reader)
    }
}

/// A function type: the byte 0x60, the parameters, the results.
pub open spec fn spec_func_type(s: Seq<u8>, dc: DataCountSeg) -> Parsed<FuncTypeView> {
    match spec_u8(s) {
        Ok((tag, r1)) => if tag != 0x60 {
            Err(DecodeErr::InvalidType(tag))
        } else {
            match spec_decodes::<ValType>(r1, dc) {
                Ok((params, r2)) => match spec_decodes::<ValType>(r2, dc) {
                    Ok((results, r3)) => Ok((FuncTypeView { params, results }, r3)),
                    Err(e) => Err(e),
                },
                Err(e) => Err(e),
            }
        },
        Err(e) => Err(e),
    }
}

impl Decode for FuncType {
    open spec fn spec_decode(s: Seq<u8>, dc: DataCountSeg) -> Parsed<FuncTypeView> {
        spec_func_type(s, dc)
    }

    fn decode(reader: &mut Reader) -> (r: DecodeResult<FuncType>) {
        let tag = reader.get_u8()?;
        if tag != 0x60 {
            return Err(DecodeErr::InvalidType(tag));
        }
        let params = decodes::<ValType>(reader)?;
        let results = decodes::<ValType>(reader)?;
        proof {
            assert(params.deep_view() =~= params@);
            assert(results.deep_view() =~= results@);
        }
        Ok(FuncType { params, results })
    }
}

/// Limits: a flag byte, the minimum, and with flag 1 the maximum.
pub open spec fn spec_limits(s: Seq<u8>) -> Parsed<Limits> {
    match spec_u8(s) {
        Ok((flag, r1)) => if flag > 1 {
            Err(DecodeErr::InvalidLimitMode(flag))
        } else {
            match spec_leb_u32(r1) {
                Ok((min, r2)) => if flag == 1 {
                    match spec_leb_u32(r2) {
                        Ok((max, r3)) => Ok((Limits { min, max: Some(max) }, r3)),
                        Err(e) => Err(e),
                    }
                } else {
                    Ok((Limits { min, max: None }, r2))
                },
                Err(e) => Err(e),
            }
        },
        Err(e) => Err(e),
    }
}

impl Decode for Limits {
    open spec fn spec_decode(s: Seq<u8>, dc: DataCountSeg) -> Parsed<Limits> {
        spec_limits(s)
    }

    fn decode(reader: &mut Reader) -> (r: DecodeResult<Limits>) {
        let flag = reader.get_u8()?;
        if flag > 1 {
            return Err(DecodeErr::InvalidLimitMode(flag));
        }
        let min = reader.get_leb_u32()?;
        let max = if flag == 1 {
            Some(reader.get_leb_u32()?)
        } else {
            None
        };
        Ok(Limits { min, max })
    }
}

/// A table type: the byte of a reference type, then limits.
pub open spec fn spec_table_type(s: Seq<u8>) -> Parsed<TableType> {
    match spec_u8(s) {
        Ok((b, r1)) => if b != 0x70 && b != 0x6f {
            Err(DecodeErr::InvalidTableElemType(b))
        } else {
            match spec_limits(r1) {
                Ok((limits, r2)) => Ok(
                    (
                        TableType {
                            elem_type: if b == 0x70 {
                                RefType::FuncRef
                            } else {
                                RefType::ExternRef
                            },
                            limits,
                        },
                        r2,
                    ),
                ),
                Err(e) => Err(e),
            }
        },
        Err(e) => Err(e),
    }
}

impl Decode for TableType {
    open spec fn spec_decode(s: Seq<u8>, dc: DataCountSeg) -> Parsed<TableType> {
        spec_table_type(s)
    }

    fn decode(reader: &mut Reader) -> (r: DecodeResult<TableType>) {
        let b = reader.get_u8()?;
        let elem_type = match b {
            0x70 => RefType::FuncRef,
            0x6f => RefType::ExternRef,
            _ => {
                return Err(DecodeErr::InvalidTableElemType(b));
            },
        };
        let limits = Limits::decode(reader)?;
        Ok(TableType { elem_type, limits })
    }
}

/// A mutability: the byte 0 or 1.
pub open spec fn spec_mut(s: Seq<u8>) -> Parsed<Mut> {
    match spec_u8(s) {
        Ok((b, rest)) => if b == 0 {
            Ok((Mut::Const, rest))
        } else if b == 1 {
            Ok((Mut::Var, rest))
        } else {
            Err(DecodeErr::InvalidMut(b))
        },
        Err(e) => Err(e),
    }
}

/// A global type: a value type, then a mutability.
pub open spec fn spec_global_type(s: Seq<u8>) -> Parsed<GlobalType> {
    match spec_val_type(s) {
        Ok((val_type, r1)) => match spec_mut(r1) {
            Ok((mut_, r2)) => Ok((GlobalType { val_type, mut_ }, r2)),
            Err(e) => Err(e),
        },
        Err(e) => Err(e),
    }
}

impl Decode for GlobalType {
    open spec fn spec_decode(s: Seq<u8>, dc: DataCountSeg) -> Parsed<GlobalType> {
        spec_global_type(s)
    }

    fn decode(reader: &mut Reader) -> (r: DecodeResult<GlobalType>) {
        let val_type = decode_val_type(reader)?;
        let b = reader.get_u8()?;
        let mut_ = Mut::from_u8(b)?;
        Ok(GlobalType { val_type, mut_ })
    }
}

/// An expression that must end in `end`.
pub open spec fn spec_const_expr(s: Seq<u8>, dc: DataCountSeg) -> Parsed<Seq<InstrView>> {
    match spec_expr(s, dc) {
        Ok(((body, last), rest)) => if last == Instruction::End {
            Ok((body, rest))
        } else {
            Err(DecodeErr::ExprUnexpectedEnd)
        },
        Err(e) => Err(e),
    }
}

impl Decode for Expr {
    open spec fn spec_decode(s: Seq<u8>, dc: DataCountSeg) -> Parsed<Seq<InstrView>> {
        spec_const_expr(s, dc)
    }

    /// Reads an expression, which must end in `end`.
    fn decode(reader: &mut Reader) -> (r: DecodeResult<Expr>) {
        let (exprs, last_instr) = decode_expr(reader)?;
        proof {
            super::instruction::lemma_expr_deep_view(exprs);
        }
        match last_instr {
            Instruction::End => Ok(exprs),
            _ => Err(DecodeErr::ExprUnexpectedEnd),
        }
    }
}

impl Decode for Instruction {
    open spec fn spec_decode(s: Seq<u8>, dc: DataCountSeg) -> Parsed<InstrView> {
        spec_instr(s, dc)
    }

    fn decode(reader: &mut Reader) -> (r: DecodeResult<Instruction>) {
        decode_instr(reader)
    }
}

/// A global: its type, then its initialiser.
pub open spec fn spec_global(s: Seq<u8>, dc: DataCountSeg) -> Parsed<GlobalSegView> {
    match spec_global_type(s) {
        Ok((type_, r1)) => match spec_const_expr(r1, dc) {
            Ok((init_expr, r2)) => Ok((GlobalSegView { type_, init_expr }, r2)),
            Err(e) => Err(e),
        },
        Err(e) => Err(e),
    }
}

impl Decode for GlobalSeg {
    open spec fn spec_decode(s: Seq<u8>, dc: DataCountSeg) -> Parsed<GlobalSegView> {
        spec_global(s, dc)
    }

    fn decode(reader: &mut Reader) -> (r: DecodeResult<GlobalSeg>) {
        let type_ = GlobalType::decode(reader)?;
        let init_expr = Expr::decode(reader)?;
        proof {
            super::instruction::lemma_expr_deep_view(init_expr);
        }
        Ok(GlobalSeg { type_, init_expr })
    }
}

/// An import: two names, a kind byte, and what the kind asks for.
pub open spec fn spec_import(s: Seq<u8>) -> Parsed<ImportSegView> {
    match spec_name(s) {
        Ok((module, r1)) => match spec_name(r1) {
            Ok((name, r2)) => match spec_u8(r2) {
                Ok((kind, r3)) => match spec_import_desc(kind, r3) {
                    Ok((desc, r4)) => Ok((ImportSegView { module, name, desc }, r4)),
                    Err(e) => Err(e),
                },
                Err(e) => Err(e),
            },
            Err(e) => Err(e),
        },
        Err(e) => Err(e),
    }
}

pub open spec fn spec_import_desc(kind: u8, s: Seq<u8>) -> Parsed<ImportDesc> {
    if kind == 0 {
        match spec_leb_u32(s) {
            Ok((idx, r)) => Ok((ImportDesc::Func(idx), r)),
            Err(e) => Err(e),
        }
    } else if kind == 1 {
        match spec_table_type(s) {
            Ok((t, r)) => Ok((ImportDesc::Table(t), r)),
            Err(e) => Err(e),
        }
    } else if kind == 2 {
        match spec_limits(s) {
            Ok((t, r)) => Ok((ImportDesc::Mem(t), r)),
            Err(e) => Err(e),
        }
    } else if kind == 3 {
        match spec_global_type(s) {
            Ok((t, r)) => Ok((ImportDesc::Global(t), r)),
            Err(e) => Err(e),
        }
    } else {
        Err(DecodeErr::InvalidImportKind(kind))
    }
}

impl Decode for ImportSeg {
    open spec fn spec_decode(s: Seq<u8>, dc: DataCountSeg) -> Parsed<ImportSegView> {
        spec_import(s)
    }

    fn decode(reader: &mut Reader) -> (r: DecodeResult<ImportSeg>) {
        let module = reader.get_name()?;
        let name = reader.get_name()?;
        let kind = reader.get_u8()?;
        let desc = match kind {
            0x00 => ImportDesc::Func(reader.get_leb_u32()?),
            0x01 => ImportDesc::Table(TableType::decode(reader)?),
            0x02 => ImportDesc::Mem(Limits::decode(reader)?),
            0x03 => ImportDesc::Global(GlobalType::decode(reader)?),
            _ => {
                return Err(DecodeErr::InvalidImportKind(kind));
            },
        };
        Ok(ImportSeg { module, name, desc })
    }
}

/// An export: a name, a kind byte, and an index.
pub open spec fn spec_export(s: Seq<u8>) -> Parsed<ExportSegView> {
    match spec_name(s) {
        Ok((name, r1)) => match spec_u8(r1) {
            Ok((kind, r2)) => if kind > 3 {
                Err(DecodeErr::InvalidExportKind(kind))
            } else {
                match spec_leb_u32(r2) {
                    Ok((idx, r3)) => Ok(
                        (
                            ExportSegView {
                                name,
                                desc: if kind == 0 {
                                    ExportDesc::Func(idx)
                                } else if kind == 1 {
                                    ExportDesc::Table(idx)
                                } else if kind == 2 {
                                    ExportDesc::Mem(idx)
                                } else {
                                    ExportDesc::Global(idx)
                                },
                            },
                            r3,
                        ),
                    ),
                    Err(e) => Err(e),
                }
            },
            Err(e) => Err(e),
        },
        Err(e) => Err(e),
    }
}

impl Decode for ExportSeg {
    open spec fn spec_decode(s: Seq<u8>, dc: DataCountSeg) -> Parsed<ExportSegView> {
        spec_export(s)
    }

    fn decode(reader: &mut Reader) -> (r: DecodeResult<ExportSeg>) {
        let name = reader.get_name()?;
        let kind = reader.get_u8()?;
        let desc = match kind {
            0x00 => ExportDesc::Func(reader.get_leb_u32()?),
            0x01 => ExportDesc::Table(reader.get_leb_u32()?),
            0x02 => ExportDesc::Mem(reader.get_leb_u32()?),
            0x03 => ExportDesc::Global(reader.get_leb_u32()?),
            _ => {
                return Err(DecodeErr::InvalidExportKind(kind));
            },
        };
        Ok(ExportSeg { name, desc })
    }
}

/// The start section and the data count section: one index.
pub open spec fn spec_maybe_u32(s: Seq<u8>) -> Parsed<Option<u32>> {
    match spec_leb_u32(s) {
        Ok((v, rest)) => Ok((Some(v), rest)),
        Err(e) => Err(e),
    }
}

/// Reads the index that a start section or a data count section holds.
pub fn decode_maybe_u32(reader: &mut Reader) -> (r: DecodeResult<Option<u32>>)
    ensures
        final(reader).data_count() == old(reader).data_count(),
        reads(spec_maybe_u32(old(reader).remaining()), r, final(reader).remaining()),
{
    Ok(Some(reader.get_leb_u32()?))
}

impl Decode for Locals {
    open spec fn spec_decode(s: Seq<u8>, dc: DataCountSeg) -> Parsed<Locals> {
        match spec_leb_u32(s) {
            Ok((n, r1)) => match spec_val_type(r1) {
                Ok((value_type, r2)) => Ok((Locals { n, value_type }, r2)),
                Err(e) => Err(e),
            },
            Err(e) => Err(e),
        }
    }

    fn decode(reader: &mut Reader) -> (r: DecodeResult<Locals>) {
        let n = reader.get_leb_u32()?;
        let value_type = decode_val_type(reader)?;
        Ok(Locals { n, value_type })
    }
}

/// A custom section: a name, then all the bytes that are left.
pub open spec fn spec_custom(s: Seq<u8>) -> Parsed<CustomSegView> {
    match spec_name(s) {
        Ok((name, rest)) => Ok((CustomSegView { name, data: rest }, Seq::empty())),
        Err(e) => Err(e),
    }
}

impl Decode for CustomSeg {
    open spec fn spec_decode(s: Seq<u8>, dc: DataCountSeg) -> Parsed<CustomSegView> {
        spec_custom(s)
    }

    fn decode(reader: &mut Reader) -> (r: DecodeResult<CustomSeg>) {
        let name = reader.get_name()?;
        let data = reader.remain()?;
        Ok(CustomSeg { name, data })
    }
}

/// The mode of an element segment, which the flag selects: for the flags
/// 0 and 4 an offset into table 0, for 2 and 6 a table index and an
/// offset.
pub open spec fn spec_element_mode(flag: u32, s: Seq<u8>, dc: DataCountSeg) -> Parsed<
    ElementModeView,
> {
    if flag == 0 || flag == 4 {
        match spec_const_expr(s, dc) {
            Ok((offset_expr, r)) => Ok((ElementModeView::Active { table_idx: 0, offset_expr }, r)),
            Err(e) => Err(e),
        }
    } else if flag == 2 || flag == 6 {
        match spec_leb_u32(s) {
            Ok((table_idx, r1)) => match spec_const_expr(r1, dc) {
                Ok((offset_expr, r2)) => Ok(
                    (ElementModeView::Active { table_idx, offset_expr }, r2),
                ),
                Err(e) => Err(e),
            },
            Err(e) => Err(e),
        }
    } else if flag == 1 || flag == 5 {
        Ok((ElementModeView::Passive, s))
    } else {
        Ok((ElementModeView::Declarative, s))
    }
}

/// The type of the references of an element segment: function references
/// for the flags up to 4, else the value type that is written.
pub open spec fn spec_element_type(flag: u32, s: Seq<u8>) -> Parsed<ValType> {
    if flag <= 4 {
        Ok((ValType::FuncRef, s))
    } else {
        spec_val_type(s)
    }
}

/// The element kind, written for the flags 1 to 3.
pub open spec fn spec_element_kind(flag: u32, s: Seq<u8>) -> Parsed<i32> {
    if 1 <= flag <= 3 {
        spec_leb_i32(s)
    } else {
        Ok((0i32, s))
    }
}

/// An element segment: the flag, and what the flag asks for, in the order
/// mode, type, element kind, function indices or expressions.
pub open spec fn spec_element(s: Seq<u8>, dc: DataCountSeg) -> Parsed<ElementSegView> {
    match spec_leb_u32(s) {
        Err(e) => Err(e),
        Ok((flag, r1)) => if flag > 7 {
            Err(DecodeErr::InvalidElemMode(flag))
        } else {
            match spec_element_mode(flag, r1, dc) {
                Err(e) => Err(e),
                Ok((mode, r2)) => match spec_element_type(flag, r2) {
                    Err(e) => Err(e),
                    Ok((type_, r3)) => if !type_.spec_is_ref_type() {
                        Err(DecodeErr::TableElemNotARef)
                    } else {
                        match spec_element_kind(flag, r3) {
                            Err(e) => Err(e),
                            Ok((elem_kind, r4)) => if flag <= 3 {
                                match spec_decodes::<u32>(r4, dc) {
                                    Ok((func_idxs, r5)) => Ok(
                                        (
                                            ElementSegView {
                                                flag,
                                                mode,
                                                type_,
                                                elem_kind,
                                                func_idxs,
                                                init_expr: Seq::empty(),
                                            },
                                            r5,
                                        ),
                                    ),
                                    Err(e) => Err(e),
                                }
                            } else {
                                match spec_decodes::<Expr>(r4, dc) {
                                    Ok((init_expr, r5)) => Ok(
                                        (
                                            ElementSegView {
                                                flag,
                                                mode,
                                                type_,
                                                elem_kind,
                                                func_idxs: Seq::empty(),
                                                init_expr,
                                            },
                                            r5,
                                        ),
                                    ),
                                    Err(e) => Err(e),
                                }
                            },
                        }
                    },
                },
            }
        },
    }
}

impl Decode for ElementSeg {
    open spec fn spec_decode(s: Seq<u8>, dc: DataCountSeg) -> Parsed<ElementSegView> {
        spec_element(s, dc)
    }

    fn decode(reader: &mut Reader) -> (r: DecodeResult<ElementSeg>) {
        let flag = reader.get_leb_u32()?;
        if flag > 7 {
            return Err(DecodeErr::InvalidElemMode(flag));
        }
        let mode = match flag {
            0 | 4 => {
                let offset_expr = Expr::decode(reader)?;
                proof {
                    super::instruction::lemma_expr_deep_view(offset_expr);
                }
                ElementMode::Active { table_idx: 0, offset_expr }
            },
            2 | 6 => {
                let table_idx = reader.get_leb_u32()?;
                let offset_expr = Expr::decode(reader)?;
                proof {
                    super::instruction::lemma_expr_deep_view(offset_expr);
                }
                ElementMode::Active { table_idx, offset_expr }
            },
            1 | 5 => ElementMode::Passive,
            _ => ElementMode::Declarative,
        };
        let type_ = if flag <= 4 {
            ValType::FuncRef
        } else {
            decode_val_type(reader)?
        };
        if !type_.is_ref_type() {
            return Err(DecodeErr::TableElemNotARef);
        }
        let elem_kind: i32 = if 1 <= flag && flag <= 3 {
            reader.get_leb_i32()?
        } else {
            0
        };
        let func_idxs: Vec<u32> = if flag <= 3 {
            decodes::<u32>(reader)?
        } else {
            Vec::new()
        };
        let init_expr: Vec<Expr> = if flag >= 4 {
            decodes::<Expr>(reader)?
        } else {
            Vec::new()
        };
        proof {
            assert(func_idxs.deep_view() =~= func_idxs@);
            if flag <= 3 {
                assert(exprs_view(init_expr@) =~= Seq::<Seq<InstrView>>::empty());
            }
            assert(init_expr.deep_view() =~= exprs_view(init_expr@)) by {
                assert forall|k: int| 0 <= k < init_expr@.len() implies init_expr@[k].deep_view()
                    == expr_view(init_expr@[k]@) by {
                    super::instruction::lemma_expr_deep_view(init_expr@[k]);
                }
            }
        }
        Ok(ElementSeg { flag, mode, type_, elem_kind, func_idxs, init_expr })
    }
}

/// The inside of a code entry: the locals, then the body. Bytes after the
/// body are left unread.
pub open spec fn spec_code_body(s: Seq<u8>, dc: DataCountSeg) -> Parsed<
    (Seq<Locals>, Seq<InstrView>),
> {
    match spec_decodes::<Locals>(s, dc) {
        Ok((locals, r1)) => match spec_const_expr(r1, dc) {
            Ok((body, r2)) => if locals_total(locals, locals.len() as int) >= 0x1000_0000 {
                Err(DecodeErr::LocalsTooLarge)
            } else {
                Ok(((locals, body), r2))
            },
            Err(e) => Err(e),
        },
        Err(e) => Err(e),
    }
}

/// A code entry: its size in bytes, then that many bytes, which hold the
/// locals and the body.
pub open spec fn spec_code(s: Seq<u8>, dc: DataCountSeg) -> Parsed<CodeSegView> {
    match spec_leb_u32(s) {
        Ok((size, r1)) => match spec_bytes(r1, size as nat) {
            Ok((inside, r2)) => match spec_code_body(inside, dc) {
                Ok(((locals, body), _)) => Ok((CodeSegView { size, locals, body }, r2)),
                Err(e) => Err(e),
            },
            Err(e) => Err(e),
        },
        Err(e) => Err(e),
    }
}

impl Decode for CodeSeg {
    open spec fn spec_decode(s: Seq<u8>, dc: DataCountSeg) -> Parsed<CodeSegView> {
        spec_code(s, dc)
    }

    fn decode(reader: &mut Reader) -> (r: DecodeResult<CodeSeg>) {
        let size = reader.get_leb_u32()?;
        let body_bytes = reader.bytes(size as usize)?;
        let mut body_reader = Reader::new(body_bytes.as_slice(), reader.data_count());
        let locals = decodes::<Locals>(&mut body_reader)?;
        let body = Expr::decode(&mut body_reader)?;
        proof {
            assert(locals.deep_view() =~= locals@);
            super::instruction::lemma_expr_deep_view(body);
        }
        let code = CodeSeg { size, locals, body: Rc::new(body) };
        match code.local_size() {
            Some(total) => {
                if total >= 0x1000_0000 {
                    return Err(DecodeErr::LocalsTooLarge);
                }
            },
            None => {
                return Err(DecodeErr::LocalsTooLarge);
            },
        }
        Ok(code)
    }
}

/// A data segment: the flag, for flag 2 a memory index, for the flags 0
/// and 2 an offset, and the bytes.
pub open spec fn spec_data(s: Seq<u8>, dc: DataCountSeg) -> Parsed<DataSegView> {
    match spec_leb_u32(s) {
        Err(e) => Err(e),
        Ok((flag, r1)) => if flag > 2 {
            Err(DecodeErr::InvalidDataMode(flag))
        } else {
            match spec_data_mem_idx(flag, r1) {
                Err(e) => Err(e),
                Ok((mem_idx, r2)) => match spec_data_offset(flag, r2, dc) {
                    Err(e) => Err(e),
                    Ok((offset_expr, r3)) => match spec_seqs(r3) {
                        Err(e) => Err(e),
                        Ok((init, r4)) => Ok(
                            (
                                DataSegView {
                                    flag,
                                    mode: if flag == 1 {
                                        DataMode::Passive
                                    } else {
                                        DataMode::Active
                                    },
                                    init,
                                    mem_idx,
                                    offset_expr,
                                },
                                r4,
                            ),
                        ),
                    },
                },
            }
        },
    }
}

pub open spec fn spec_data_mem_idx(flag: u32, s: Seq<u8>) -> Parsed<u32> {
    if flag == 2 {
        spec_leb_u32(s)
    } else {
        Ok((0u32, s))
    }
}

pub open spec fn spec_data_offset(flag: u32, s: Seq<u8>, dc: DataCountSeg) -> Parsed<
    Seq<InstrView>,
> {
    if flag == 1 {
        Ok((Seq::empty(), s))
    } else {
        spec_const_expr(s, dc)
    }
}

impl Decode for DataSeg {
    open spec fn spec_decode(s: Seq<u8>, dc: DataCountSeg) -> Parsed<DataSegView> {
        spec_data(s, dc)
    }

    fn decode(reader: &mut Reader) -> (r: DecodeResult<DataSeg>) {
        let flag = reader.get_leb_u32()?;
        if flag > 2 {
            return Err(DecodeErr::InvalidDataMode(flag));
        }
        let mode = if flag == 1 {
            DataMode::Passive
        } else {
            DataMode::Active
        };
        let mem_idx: u32 = if flag == 2 {
            reader.get_leb_u32()?
        } else {
            0
        };
        let offset_expr: Expr = if flag != 1 {
            Expr::decode(reader)?
        } else {
            Vec::new()
        };
        proof {
            super::instruction::lemma_expr_deep_view(offset_expr);
        }
        let init = reader.seqs()?;
        Ok(DataSeg { flag, mode, init, mem_idx, offset_expr })
    }
}

} // verus!
