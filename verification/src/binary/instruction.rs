//! Instructions and their immediate operands.

use std::rc::Rc;

use vstd::prelude::*;

use super::errors::DecodeErr;
use super::section::{Expr, LabelIdx};
use super::types::ValType;
use crate::execution::value::v128;

verus! {

/// The immediate of a load or a store: an alignment hint and a byte offset.
#[derive(Debug, Clone, Copy, PartialEq, Eq, Structural)]
pub struct MemoryArg {
    pub align: u32,
    pub offset: u32,
}

/// A `block` or a `loop`: its type and its body. The body is shared with
/// the frames that run it.
#[derive(Debug)]
pub struct Block {
    pub type_: BlockType,
    pub expr: Rc<Expr>,
}

impl Block {
    pub fn new(type_: BlockType, expr: Expr) -> (r: Self)
        ensures
            r.type_ == type_,
            r.expr == expr,
    {
        Self { type_, expr: Rc::new(expr) }
    }
}

/// What a block gives: one value, nothing, or the results of a function
/// type (which may also take parameters).
#[derive(Debug, Clone, Copy, PartialEq, Eq, Structural)]
pub enum BlockType {
    I32,
    I64,
    F32,
    F64,
    V128,
    ExternRef,
    Empty,
    TypeIdx(i32),
}

impl Default for BlockType {
    fn default() -> (r: Self)
        ensures
            r == BlockType::I32,
    {
        BlockType::I32
    }
}

impl BlockType {
    /// The block type a signed number stands for: the negative codes of the
    /// value types and of the empty type, or a type index.
    pub open spec fn spec_from_i32(v: i32) -> Option<BlockType> {
        if v == -1 {
            Some(BlockType::I32)
        } else if v == -2 {
            Some(BlockType::I64)
        } else if v == -3 {
            Some(BlockType::F32)
        } else if v == -4 {
            Some(BlockType::F64)
        } else if v == -5 {
            Some(BlockType::V128)
        } else if v == -17 {
            Some(BlockType::ExternRef)
        } else if v == -64 {
            Some(BlockType::Empty)
        } else if v >= 0 {
            Some(BlockType::TypeIdx(v))
        } else {
            None
        }
    }

    /// The signed number that stands for this block type.
    pub open spec fn spec_code(self) -> i32 {
        match self {
            BlockType::I32 => -1i32,
            BlockType::I64 => -2i32,
            BlockType::F32 => -3i32,
            BlockType::F64 => -4i32,
            BlockType::V128 => -5i32,
            BlockType::ExternRef => -17i32,
            BlockType::Empty => -64i32,
            BlockType::TypeIdx(idx) => idx,
        }
    }

    /// Reads a block type from its number; a negative number that names no
    /// type is `InvalidBlockType`.
    pub fn from_i32(v: i32) -> (r: Result<BlockType, DecodeErr>)
        ensures
            r == match Self::spec_from_i32(v) {
                Some(t) => Ok::<BlockType, DecodeErr>(t),
                None => Err(DecodeErr::InvalidBlockType(v)),
            },
    {
        match v {
            -1 => Ok(BlockType::I32),
            -2 => Ok(BlockType::I64),
            -3 => Ok(BlockType::F32),
            -4 => Ok(BlockType::F64),
            -5 => Ok(BlockType::V128),
            -17 => Ok(BlockType::ExternRef),
            -64 => Ok(BlockType::Empty),
            _ => if v >= 0 {
                Ok(BlockType::TypeIdx(v))
            } else {
                Err(DecodeErr::InvalidBlockType(v))
            },
        }
    }

    pub fn code(self) -> (r: i32)
        ensures
            r == self.spec_code(),
    {
        match self {
            BlockType::I32 => -1,
            BlockType::I64 => -2,
            BlockType::F32 => -3,
            BlockType::F64 => -4,
            BlockType::V128 => -5,
            BlockType::ExternRef => -17,
            BlockType::Empty => -64,
            BlockType::TypeIdx(idx) => idx,
        }
    }
}

/// An `if`: its type and its two branches. A missing `else` is an empty
/// branch.
#[derive(Debug)]
pub struct IfBlock {
    pub type_: BlockType,
    pub if_expr: Rc<Expr>,
    pub else_expr: Rc<Expr>,
}

/// The immediate of `br_table`: the labels to choose from and the default.
#[derive(Debug)]
pub struct BrTableArg {
    pub labels: Vec<LabelIdx>,
    pub default: LabelIdx,
}

pub type LaneIdx = u8;

pub type Lane2 = [u8; 2];

pub type Lane4 = [u8; 4];

pub type Lane8 = [u8; 8];

pub type Lane16 = [u8; 16];

/// An instruction. Float constants are held as their bit patterns.
#[derive(Debug)]
pub enum Instruction {
    Unreachable,
    Nop,
    Block(Block),
    Loop(Block),
    If(IfBlock),
    Else,
    End,
    Br(LabelIdx),
    BrIf(LabelIdx),
    BrTable(BrTableArg),
    Return,
    Call(u32),
    CallIndirect(u32, u32),
    Drop,
    Select,
    Select2(u8, ValType),
    LocalGet(u32),
    LocalSet(u32),
    LocalTee(u32),
    GlobalGet(u32),
    GlobalSet(u32),
    TableGet(u32),
    TableSet(u32),
    I32Load(MemoryArg),
    I64Load(MemoryArg),
    F32Load(MemoryArg),
    F64Load(MemoryArg),
    I32Load8S(MemoryArg),
    I32Load8U(MemoryArg),
    I32Load16S(MemoryArg),
    I32Load16U(MemoryArg),
    I64Load8S(MemoryArg),
    I64Load8U(MemoryArg),
    I64Load16S(MemoryArg),
    I64Load16U(MemoryArg),
    I64Load32S(MemoryArg),
    I64Load32U(MemoryArg),
    I32Store(MemoryArg),
    I64Store(MemoryArg),
    F32Store(MemoryArg),
    F64Store(MemoryArg),
    I32Store8(MemoryArg),
    I32Store16(MemoryArg),
    I64Store8(MemoryArg),
    I64Store16(MemoryArg),
    I64Store32(MemoryArg),
    MemorySize(u8),
    MemoryGrow(u8),
    I32Const(i32),
    I64Const(i64),
    F32Const(u32),
    F64Const(u64),
    I32Eqz,
    I32Eq,
    I32Ne,
    I32LtS,
    I32LtU,
    I32GtS,
    I32GtU,
    I32LeS,
    I32LeU,
    I32GeS,
    I32GeU,
    I64Eqz,
    I64Eq,
    I64Ne,
    I64LtS,
    I64LtU,
    I64GtS,
    I64GtU,
    I64LeS,
    I64LeU,
    I64GeS,
    I64GeU,
    F32Eq,
    F32Ne,
    F32Lt,
    F32Gt,
    F32Le,
    F32Ge,
    F64Eq,
    F64Ne,
    F64Lt,
    F64Gt,
    F64Le,
    F64Ge,
    I32Clz,
    I32Ctz,
    I32Popcnt,
    I32Add,
    I32Sub,
    I32Mul,
    I32DivS,
    I32DivU,
    I32RemS,
    I32RemU,
    I32And,
    I32Or,
    I32Xor,
    I32Shl,
    I32ShrS,
    I32ShrU,
    I32Rotl,
    I32Rotr,
    I64Clz,
    I64Ctz,
    I64Popcnt,
    I64Add,
    I64Sub,
    I64Mul,
    I64DivS,
    I64DivU,
    I64RemS,
    I64RemU,
    I64And,
    I64Or,
    I64Xor,
    I64Shl,
    I64ShrS,
    I64ShrU,
    I64Rotl,
    I64Rotr,
    F32Abs,
    F32Neg,
    F32Ceil,
    F32Floor,
    F32Trunc,
    F32Nearest,
    F32Sqrt,
    F32Add,
    F32Sub,
    F32Mul,
    F32Div,
    F32Min,
    F32Max,
    F32Copysign,
    F64Abs,
    F64Neg,
    F64Ceil,
    F64Floor,
    F64Trunc,
    F64Nearest,
    F64Sqrt,
    F64Add,
    F64Sub,
    F64Mul,
    F64Div,
    F64Min,
    F64Max,
    F64Copysign,
    I32WrapI64,
    I32TruncF32S,
    I32TruncF32U,
    I32TruncF64S,
    I32TruncF64U,
    I64ExtendI32S,
    I64ExtendI32U,
    I64TruncF32S,
    I64TruncF32U,
    I64TruncF64S,
    I64TruncF64U,
    F32ConvertI32S,
    F32ConvertI32U,
    F32ConvertI64S,
    F32ConvertI64U,
    F32DemoteF64,
    F64ConvertI32S,
    F64ConvertI32U,
    F64ConvertI64S,
    F64ConvertI64U,
    F64PromoteF32,
    I32ReinterpretF32,
    I64ReinterpretF64,
    F32ReinterpretI32,
    F64ReinterpretI64,
    I32Extend8S,
    I32Extend16S,
    I64Extend8S,
    I64Extend16S,
    I64Extend32S,
    RefNull(u64),
    RefIsNull,
    RefFunc(u32),
    I32TruncSatF32S,
    I32TruncSatF32U,
    I32TruncSatF64S,
    I32TruncSatF64U,
    I64TruncSatF32S,
    I64TruncSatF32U,
    I64TruncSatF64S,
    I64TruncSatF64U,
    MemoryInit(u32, u32),
    DataDrop(u32),
    MemoryCopy(u32, u32),
    MemoryFill(u32),
    TableInit(u32, u32),
    ElemDrop(u32),
    TableCopy(u32, u32),
    TableGrow(u32),
    TableSize(u32),
    TableFill(u32),
    V128Load(MemoryArg),
    V128Load8x8S(MemoryArg),
    V128Load8x8U(MemoryArg),
    V128Load16x4S(MemoryArg),
    V128Load16x4U(MemoryArg),
    V128Load32x2S(MemoryArg),
    V128Load32x2U(MemoryArg),
    V128Load8Splat(MemoryArg),
    V128Load16Splat(MemoryArg),
    V128Load32Splat(MemoryArg),
    V128Load64Splat(MemoryArg),
    V128Store(MemoryArg),
    V128Const(v128),
    I8x16Shuffle(Lane16),
    I8x16Swizzle,
    I8x16Splat,
    I16x8Splat,
    I32x4Splat,
    I64x2Splat,
    F32x4Splat,
    F64x2Splat,
    I8x16ExtractLaneS(LaneIdx),
    I8x16ExtractLaneU(LaneIdx),
    I8x16ReplaceLane(LaneIdx),
    I16x8ExtractLaneS(LaneIdx),
    I16x8ExtractLaneU(LaneIdx),
    I16x8ReplaceLane(LaneIdx),
    I32x4ExtractLane(LaneIdx),
    I32x4ReplaceLane(LaneIdx),
    I64x2ExtractLane(LaneIdx),
    I64x2ReplaceLane(LaneIdx),
    F32x4ExtractLane(LaneIdx),
    F32x4ReplaceLane(LaneIdx),
    F64x2ExtractLane(LaneIdx),
    F64x2ReplaceLane(LaneIdx),
    I8x16Eq,
    I8x16Ne,
    I8x16LtS,
    I8x16LtU,
    I8x16GtS,
    I8x16GtU,
    I8x16LeS,
    I8x16LeU,
    I8x16GeS,
    I8x16GeU,
    I16x8Eq,
    I16x8Ne,
    I16x8LtS,
    I16x8LtU,
    I16x8GtS,
    I16x8GtU,
    I16x8LeS,
    I16x8LeU,
    I16x8GeS,
    I16x8GeU,
    I32x4Eq,
    I32x4Ne,
    I32x4LtS,
    I32x4LtU,
    I32x4GtS,
    I32x4GtU,
    I32x4LeS,
    I32x4LeU,
    I32x4GeS,
    I32x4GeU,
    F32x4Eq,
    F32x4Ne,
    F32x4Lt,
    F32x4Gt,
    F32x4Le,
    F32x4Ge,
    F64x2Eq,
    F64x2Ne,
    F64x2Lt,
    F64x2Gt,
    F64x2Le,
    F64x2Ge,
    V128Not,
    V128And,
    V128Andnot,
    V128Or,
    V128Xor,
    V128Bitselect,
    V128AnyTrue,
    V128Load8Lane(MemoryArg, LaneIdx),
    V128Load16Lane(MemoryArg, LaneIdx),
    V128Load32Lane(MemoryArg, LaneIdx),
    V128Load64Lane(MemoryArg, LaneIdx),
    V128Store8Lane(MemoryArg, LaneIdx),
    V128Store16Lane(MemoryArg, LaneIdx),
    V128Store32Lane(MemoryArg, LaneIdx),
    V128Store64Lane(MemoryArg, LaneIdx),
    V128Load32Zero(MemoryArg),
    V128Load64Zero(MemoryArg),
    F32x4DemoteF64x2Zero,
    F64x2PromoteLowF32x4,
    I8x16Abs,
    I8x16Neg,
    I8x16Popcnt,
    I8x16AllTrue,
    I8x16Bitmask,
    I8x16NarrowI16x8S,
    I8x16NarrowI16x8U,
    F32x4Ceil,
    F32x4Floor,
    F32x4Trunc,
    F32x4Nearest,
    I8x16Shl,
    I8x16ShrS,
    I8x16ShrU,
    I8x16Add,
    I8x16AddSatS,
    I8x16AddSatU,
    I8x16Sub,
    I8x16SubSatS,
    I8x16SubSatU,
    F64x2Ceil,
    F64x2Floor,
    I8x16MinS,
    I8x16MinU,
    I8x16MaxS,
    I8x16MaxU,
    F64x2Trunc,
    I8x16AvgrU,
    I16x8ExtaddPairwiseI8x16S,
    I16x8ExtaddPairwiseI8x16U,
    I32x4ExtaddPairwiseI16x8S,
    I32x4ExtaddPairwiseI16x8U,
    I16x8Abs(u8),
    I16x8Neg(u8),
    I16x8Q15mulrSatS(u8),
    I16x8AllTrue(u8),
    I16x8Bitmask(u8),
    I16x8NarrowI32x4S(u8),
    I16x8NarrowI32x4U(u8),
    I16x8ExtendLowI8x16S(u8),
    I16x8ExtendHighI8x16S(u8),
    I16x8ExtendLowI8x16U(u8),
    I16x8ExtendHighI8x16U(u8),
    I16x8Shl(u8),
    I16x8ShrS(u8),
    I16x8ShrU(u8),
    I16x8Add(u8),
    I16x8AddSatS(u8),
    I16x8AddSatU(u8),
    I16x8Sub(u8),
    I16x8SubSatS(u8),
    I16x8SubSatU(u8),
    F64x2Nearest(u8),
    I16x8Mul(u8),
    I16x8MinS(u8),
    I16x8MinU(u8),
    I16x8MaxS(u8),
    I16x8MaxU(u8),
    I16x8AvgrU(u8),
    I16x8ExtmulLowI8x16S(u8),
    I16x8ExtmulHighI8x16S(u8),
    I16x8ExtmulLowI8x16U(u8),
    I16x8ExtmulHighI8x16U(u8),
    I32x4Abs(u8),
    I32x4Neg(u8),
    I32x4AllTrue(u8),
    I32x4Bitmask(u8),
    I32x4ExtendLowI16x8S(u8),
    I32x4ExtendHighI16x8S(u8),
    I32x4ExtendLowI16x8U(u8),
    I32x4ExtendHighI16x8U(u8),
    I32x4Shl(u8),
    I32x4ShrS(u8),
    I32x4ShrU(u8),
    I32x4Add(u8),
    I32x4Sub(u8),
    I32x4Mul(u8),
    I32x4MinS(u8),
    I32x4MinU(u8),
    I32x4MaxS(u8),
    I32x4MaxU(u8),
    I32x4DotI16x8S(u8),
    I32x4ExtmulLowI16x8S(u8),
    I32x4ExtmulHighI16x8S(u8),
    I32x4ExtmulLowI16x8U(u8),
    I32x4ExtmulHighI16x8U(u8),
    I64x2Abs(u8),
    I64x2Neg(u8),
    I64x2AllTrue(u8),
    I64x2Bitmask(u8),
    I64x2ExtendLowI32x4S(u8),
    I64x2ExtendHighI32x4S(u8),
    I64x2ExtendLowI32x4U(u8),
    I64x2ExtendHighI32x4U(u8),
    I64x2Shl(u8),
    I64x2ShrS(u8),
    I64x2ShrU(u8),
    I64x2Add(u8),
    I64x2Sub(u8),
    I64x2Mul(u8),
    I64x2Eq(u8),
    I64x2Ne(u8),
    I64x2LtS(u8),
    I64x2GtS(u8),
    I64x2LeS(u8),
    I64x2GeS(u8),
    I64x2ExtmulLowI32x4S(u8),
    I64x2ExtmulHighI32x4S(u8),
    I64x2ExtmulLowI32x4U(u8),
    I64x2ExtmulHighI32x4U(u8),
    F32x4Abs(u8),
    F32x4Neg(u8),
    F32x4Sqrt(u8),
    F32x4Add(u8),
    F32x4Sub(u8),
    F32x4Mul(u8),
    F32x4Div(u8),
    F32x4Min(u8),
    F32x4Max(u8),
    F32x4Pmin(u8),
    F32x4Pmax(u8),
    F64x2Abs(u8),
    F64x2Neg(u8),
    F64x2Sqrt(u8),
    F64x2Add(u8),
    F64x2Sub(u8),
    F64x2Mul(u8),
    F64x2Div(u8),
    F64x2Min(u8),
    F64x2Max(u8),
    F64x2Pmin(u8),
    F64x2Pmax(u8),
    I32x4TruncSatF32x4S(u8),
    I32x4TruncSatF32x4U(u8),
    F32x4ConvertI32x4S(u8),
    F32x4ConvertI32x4U(u8),
    I32x4TruncSatF64x2SZero(u8),
    I32x4TruncSatF64x2UZero(u8),
    F64x2ConvertLowI32x4S(u8),
    F64x2ConvertLowI32x4U(u8),
}

impl Instruction {
    /// The tag of an instruction: its opcode byte, or for the two prefixed
    /// families the prefix byte followed by the byte after it.
    pub open spec fn spec_discriminant(&self) -> u16 {
        match self {
            Instruction::Unreachable => 0x00,
            Instruction::Nop => 0x01,
            Instruction::Block(_) => 0x02,
            Instruction::Loop(_) => 0x03,
            Instruction::If(_) => 0x04,
            Instruction::Else => 0x05,
            Instruction::End => 0x0b,
            Instruction::Br(_) => 0x0c,
            Instruction::BrIf(_) => 0x0d,
            Instruction::BrTable(_) => 0x0e,
            Instruction::Return => 0x0f,
            Instruction::Call(_) => 0x10,
            Instruction::CallIndirect(_, _) => 0x11,
            Instruction::Drop => 0x1a,
            Instruction::Select => 0x1b,
            Instruction::Select2(_, _) => 0x1c,
            Instruction::LocalGet(_) => 0x20,
            Instruction::LocalSet(_) => 0x21,
            Instruction::LocalTee(_) => 0x22,
            Instruction::GlobalGet(_) => 0x23,
            Instruction::GlobalSet(_) => 0x24,
            Instruction::TableGet(_) => 0x25,
            Instruction::TableSet(_) => 0x26,
            Instruction::I32Load(_) => 0x28,
            Instruction::I64Load(_) => 0x29,
            Instruction::F32Load(_) => 0x2a,
            Instruction::F64Load(_) => 0x2b,
            Instruction::I32Load8S(_) => 0x2c,
            Instruction::I32Load8U(_) => 0x2d,
            Instruction::I32Load16S(_) => 0x2e,
            Instruction::I32Load16U(_) => 0x2f,
            Instruction::I64Load8S(_) => 0x30,
            Instruction::I64Load8U(_) => 0x31,
            Instruction::I64Load16S(_) => 0x32,
            Instruction::I64Load16U(_) => 0x33,
            Instruction::I64Load32S(_) => 0x34,
            Instruction::I64Load32U(_) => 0x35,
            Instruction::I32Store(_) => 0x36,
            Instruction::I64Store(_) => 0x37,
            Instruction::F32Store(_) => 0x38,
            Instruction::F64Store(_) => 0x39,
            Instruction::I32Store8(_) => 0x3a,
            Instruction::I32Store16(_) => 0x3b,
            Instruction::I64Store8(_) => 0x3c,
            Instruction::I64Store16(_) => 0x3d,
            Instruction::I64Store32(_) => 0x3e,
            Instruction::MemorySize(_) => 0x3f,
            Instruction::MemoryGrow(_) => 0x40,
            Instruction::I32Const(_) => 0x41,
            Instruction::I64Const(_) => 0x42,
            Instruction::F32Const(_) => 0x43,
            Instruction::F64Const(_) => 0x44,
            Instruction::I32Eqz => 0x45,
            Instruction::I32Eq => 0x46,
            Instruction::I32Ne => 0x47,
            Instruction::I32LtS => 0x48,
            Instruction::I32LtU => 0x49,
            Instruction::I32GtS => 0x4a,
            Instruction::I32GtU => 0x4b,
            Instruction::I32LeS => 0x4c,
            Instruction::I32LeU => 0x4d,
            Instruction::I32GeS => 0x4e,
            Instruction::I32GeU => 0x4f,
            Instruction::I64Eqz => 0x50,
            Instruction::I64Eq => 0x51,
            Instruction::I64Ne => 0x52,
            Instruction::I64LtS => 0x53,
            Instruction::I64LtU => 0x54,
            Instruction::I64GtS => 0x55,
            Instruction::I64GtU => 0x56,
            Instruction::I64LeS => 0x57,
            Instruction::I64LeU => 0x58,
            Instruction::I64GeS => 0x59,
            Instruction::I64GeU => 0x5a,
            Instruction::F32Eq => 0x5b,
            Instruction::F32Ne => 0x5c,
            Instruction::F32Lt => 0x5d,
            Instruction::F32Gt => 0x5e,
            Instruction::F32Le => 0x5f,
            Instruction::F32Ge => 0x60,
            Instruction::F64Eq => 0x61,
            Instruction::F64Ne => 0x62,
            Instruction::F64Lt => 0x63,
            Instruction::F64Gt => 0x64,
            Instruction::F64Le => 0x65,
            Instruction::F64Ge => 0x66,
            Instruction::I32Clz => 0x67,
            Instruction::I32Ctz => 0x68,
            Instruction::I32Popcnt => 0x69,
            Instruction::I32Add => 0x6a,
            Instruction::I32Sub => 0x6b,
            Instruction::I32Mul => 0x6c,
            Instruction::I32DivS => 0x6d,
            Instruction::I32DivU => 0x6e,
            Instruction::I32RemS => 0x6f,
            Instruction::I32RemU => 0x70,
            Instruction::I32And => 0x71,
            Instruction::I32Or => 0x72,
            Instruction::I32Xor => 0x73,
            Instruction::I32Shl => 0x74,
            Instruction::I32ShrS => 0x75,
            Instruction::I32ShrU => 0x76,
            Instruction::I32Rotl => 0x77,
            Instruction::I32Rotr => 0x78,
            Instruction::I64Clz => 0x79,
            Instruction::I64Ctz => 0x7a,
            Instruction::I64Popcnt => 0x7b,
            Instruction::I64Add => 0x7c,
            Instruction::I64Sub => 0x7d,
            Instruction::I64Mul => 0x7e,
            Instruction::I64DivS => 0x7f,
            Instruction::I64DivU => 0x80,
            Instruction::I64RemS => 0x81,
            Instruction::I64RemU => 0x82,
            Instruction::I64And => 0x83,
            Instruction::I64Or => 0x84,
            Instruction::I64Xor => 0x85,
            Instruction::I64Shl => 0x86,
            Instruction::I64ShrS => 0x87,
            Instruction::I64ShrU => 0x88,
            Instruction::I64Rotl => 0x89,
            Instruction::I64Rotr => 0x8a,
            Instruction::F32Abs => 0x8b,
            Instruction::F32Neg => 0x8c,
            Instruction::F32Ceil => 0x8d,
            Instruction::F32Floor => 0x8e,
            Instruction::F32Trunc => 0x8f,
            Instruction::F32Nearest => 0x90,
            Instruction::F32Sqrt => 0x91,
            Instruction::F32Add => 0x92,
            Instruction::F32Sub => 0x93,
            Instruction::F32Mul => 0x94,
            Instruction::F32Div => 0x95,
            Instruction::F32Min => 0x96,
            Instruction::F32Max => 0x97,
            Instruction::F32Copysign => 0x98,
            Instruction::F64Abs => 0x99,
            Instruction::F64Neg => 0x9a,
            Instruction::F64Ceil => 0x9b,
            Instruction::F64Floor => 0x9c,
            Instruction::F64Trunc => 0x9d,
            Instruction::F64Nearest => 0x9e,
            Instruction::F64Sqrt => 0x9f,
            Instruction::F64Add => 0xa0,
            Instruction::F64Sub => 0xa1,
            Instruction::F64Mul => 0xa2,
            Instruction::F64Div => 0xa3,
            Instruction::F64Min => 0xa4,
            Instruction::F64Max => 0xa5,
            Instruction::F64Copysign => 0xa6,
            Instruction::I32WrapI64 => 0xa7,
            Instruction::I32TruncF32S => 0xa8,
            Instruction::I32TruncF32U => 0xa9,
            Instruction::I32TruncF64S => 0xaa,
            Instruction::I32TruncF64U => 0xab,
            Instruction::I64ExtendI32S => 0xac,
            Instruction::I64ExtendI32U => 0xad,
            Instruction::I64TruncF32S => 0xae,
            Instruction::I64TruncF32U => 0xaf,
            Instruction::I64TruncF64S => 0xb0,
            Instruction::I64TruncF64U => 0xb1,
            Instruction::F32ConvertI32S => 0xb2,
            Instruction::F32ConvertI32U => 0xb3,
            Instruction::F32ConvertI64S => 0xb4,
            Instruction::F32ConvertI64U => 0xb5,
            Instruction::F32DemoteF64 => 0xb6,
            Instruction::F64ConvertI32S => 0xb7,
            Instruction::F64ConvertI32U => 0xb8,
            Instruction::F64ConvertI64S => 0xb9,
            Instruction::F64ConvertI64U => 0xba,
            Instruction::F64PromoteF32 => 0xbb,
            Instruction::I32ReinterpretF32 => 0xbc,
            Instruction::I64ReinterpretF64 => 0xbd,
            Instruction::F32ReinterpretI32 => 0xbe,
            Instruction::F64ReinterpretI64 => 0xbf,
            Instruction::I32Extend8S => 0xc0,
            Instruction::I32Extend16S => 0xc1,
            Instruction::I64Extend8S => 0xc2,
            Instruction::I64Extend16S => 0xc3,
            Instruction::I64Extend32S => 0xc4,
            Instruction::RefNull(_) => 0xd0,
            Instruction::RefIsNull => 0xd1,
            Instruction::RefFunc(_) => 0xd2,
            Instruction::I32TruncSatF32S => 0xfc00,
            Instruction::I32TruncSatF32U => 0xfc01,
            Instruction::I32TruncSatF64S => 0xfc02,
            Instruction::I32TruncSatF64U => 0xfc03,
            Instruction::I64TruncSatF32S => 0xfc04,
            Instruction::I64TruncSatF32U => 0xfc05,
            Instruction::I64TruncSatF64S => 0xfc06,
            Instruction::I64TruncSatF64U => 0xfc07,
            Instruction::MemoryInit(_, _) => 0xfc08,
            Instruction::DataDrop(_) => 0xfc09,
            Instruction::MemoryCopy(_, _) => 0xfc0a,
            Instruction::MemoryFill(_) => 0xfc0b,
            Instruction::TableInit(_, _) => 0xfc0c,
            Instruction::ElemDrop(_) => 0xfc0d,
            Instruction::TableCopy(_, _) => 0xfc0e,
            Instruction::TableGrow(_) => 0xfc0f,
            Instruction::TableSize(_) => 0xfc10,
            Instruction::TableFill(_) => 0xfc11,
            Instruction::V128Load(_) => 0xfd00,
            Instruction::V128Load8x8S(_) => 0xfd01,
            Instruction::V128Load8x8U(_) => 0xfd02,
            Instruction::V128Load16x4S(_) => 0xfd03,
            Instruction::V128Load16x4U(_) => 0xfd04,
            Instruction::V128Load32x2S(_) => 0xfd05,
            Instruction::V128Load32x2U(_) => 0xfd06,
            Instruction::V128Load8Splat(_) => 0xfd07,
            Instruction::V128Load16Splat(_) => 0xfd08,
            Instruction::V128Load32Splat(_) => 0xfd09,
            Instruction::V128Load64Splat(_) => 0xfd0a,
            Instruction::V128Store(_) => 0xfd0b,
            Instruction::V128Const(_) => 0xfd0c,
            Instruction::I8x16Shuffle(_) => 0xfd0d,
            Instruction::I8x16Swizzle => 0xfd0e,
            Instruction::I8x16Splat => 0xfd0f,
            Instruction::I16x8Splat => 0xfd10,
            Instruction::I32x4Splat => 0xfd11,
            Instruction::I64x2Splat => 0xfd12,
            Instruction::F32x4Splat => 0xfd13,
            Instruction::F64x2Splat => 0xfd14,
            Instruction::I8x16ExtractLaneS(_) => 0xfd15,
            Instruction::I8x16ExtractLaneU(_) => 0xfd16,
            Instruction::I8x16ReplaceLane(_) => 0xfd17,
            Instruction::I16x8ExtractLaneS(_) => 0xfd18,
            Instruction::I16x8ExtractLaneU(_) => 0xfd19,
            Instruction::I16x8ReplaceLane(_) => 0xfd1a,
            Instruction::I32x4ExtractLane(_) => 0xfd1b,
            Instruction::I32x4ReplaceLane(_) => 0xfd1c,
            Instruction::I64x2ExtractLane(_) => 0xfd1d,
            Instruction::I64x2ReplaceLane(_) => 0xfd1e,
            Instruction::F32x4ExtractLane(_) => 0xfd1f,
            Instruction::F32x4ReplaceLane(_) => 0xfd20,
            Instruction::F64x2ExtractLane(_) => 0xfd21,
            Instruction::F64x2ReplaceLane(_) => 0xfd22,
            Instruction::I8x16Eq => 0xfd23,
            Instruction::I8x16Ne => 0xfd24,
            Instruction::I8x16LtS => 0xfd25,
            Instruction::I8x16LtU => 0xfd26,
            Instruction::I8x16GtS => 0xfd27,
            Instruction::I8x16GtU => 0xfd28,
            Instruction::I8x16LeS => 0xfd29,
            Instruction::I8x16LeU => 0xfd2a,
            Instruction::I8x16GeS => 0xfd2b,
            Instruction::I8x16GeU => 0xfd2c,
            Instruction::I16x8Eq => 0xfd2d,
            Instruction::I16x8Ne => 0xfd2e,
            Instruction::I16x8LtS => 0xfd2f,
            Instruction::I16x8LtU => 0xfd30,
            Instruction::I16x8GtS => 0xfd31,
            Instruction::I16x8GtU => 0xfd32,
            Instruction::I16x8LeS => 0xfd33,
            Instruction::I16x8LeU => 0xfd34,
            Instruction::I16x8GeS => 0xfd35,
            Instruction::I16x8GeU => 0xfd36,
            Instruction::I32x4Eq => 0xfd37,
            Instruction::I32x4Ne => 0xfd38,
            Instruction::I32x4LtS => 0xfd39,
            Instruction::I32x4LtU => 0xfd3a,
            Instruction::I32x4GtS => 0xfd3b,
            Instruction::I32x4GtU => 0xfd3c,
            Instruction::I32x4LeS => 0xfd3d,
            Instruction::I32x4LeU => 0xfd3e,
            Instruction::I32x4GeS => 0xfd3f,
            Instruction::I32x4GeU => 0xfd40,
            Instruction::F32x4Eq => 0xfd41,
            Instruction::F32x4Ne => 0xfd42,
            Instruction::F32x4Lt => 0xfd43,
            Instruction::F32x4Gt => 0xfd44,
            Instruction::F32x4Le => 0xfd45,
            Instruction::F32x4Ge => 0xfd46,
            Instruction::F64x2Eq => 0xfd47,
            Instruction::F64x2Ne => 0xfd48,
            Instruction::F64x2Lt => 0xfd49,
            Instruction::F64x2Gt => 0xfd4a,
            Instruction::F64x2Le => 0xfd4b,
            Instruction::F64x2Ge => 0xfd4c,
            Instruction::V128Not => 0xfd4d,
            Instruction::V128And => 0xfd4e,
            Instruction::V128Andnot => 0xfd4f,
            Instruction::V128Or => 0xfd50,
            Instruction::V128Xor => 0xfd51,
            Instruction::V128Bitselect => 0xfd52,
            Instruction::V128AnyTrue => 0xfd53,
            Instruction::V128Load8Lane(_, _) => 0xfd54,
            Instruction::V128Load16Lane(_, _) => 0xfd55,
            Instruction::V128Load32Lane(_, _) => 0xfd56,
            Instruction::V128Load64Lane(_, _) => 0xfd57,
            Instruction::V128Store8Lane(_, _) => 0xfd58,
            Instruction::V128Store16Lane(_, _) => 0xfd59,
            Instruction::V128Store32Lane(_, _) => 0xfd5a,
            Instruction::V128Store64Lane(_, _) => 0xfd5b,
            Instruction::V128Load32Zero(_) => 0xfd5c,
            Instruction::V128Load64Zero(_) => 0xfd5d,
            Instruction::F32x4DemoteF64x2Zero => 0xfd5e,
            Instruction::F64x2PromoteLowF32x4 => 0xfd5f,
            Instruction::I8x16Abs => 0xfd60,
            Instruction::I8x16Neg => 0xfd61,
            Instruction::I8x16Popcnt => 0xfd62,
            Instruction::I8x16AllTrue => 0xfd63,
            Instruction::I8x16Bitmask => 0xfd64,
            Instruction::I8x16NarrowI16x8S => 0xfd65,
            Instruction::I8x16NarrowI16x8U => 0xfd66,
            Instruction::F32x4Ceil => 0xfd67,
            Instruction::F32x4Floor => 0xfd68,
            Instruction::F32x4Trunc => 0xfd69,
            Instruction::F32x4Nearest => 0xfd6a,
            Instruction::I8x16Shl => 0xfd6b,
            Instruction::I8x16ShrS => 0xfd6c,
            Instruction::I8x16ShrU => 0xfd6d,
            Instruction::I8x16Add => 0xfd6e,
            Instruction::I8x16AddSatS => 0xfd6f,
            Instruction::I8x16AddSatU => 0xfd70,
            Instruction::I8x16Sub => 0xfd71,
            Instruction::I8x16SubSatS => 0xfd72,
            Instruction::I8x16SubSatU => 0xfd73,
            Instruction::F64x2Ceil => 0xfd74,
            Instruction::F64x2Floor => 0xfd75,
            Instruction::I8x16MinS => 0xfd76,
            Instruction::I8x16MinU => 0xfd77,
            Instruction::I8x16MaxS => 0xfd78,
            Instruction::I8x16MaxU => 0xfd79,
            Instruction::F64x2Trunc => 0xfd7a,
            Instruction::I8x16AvgrU => 0xfd7b,
            Instruction::I16x8ExtaddPairwiseI8x16S => 0xfd7c,
            Instruction::I16x8ExtaddPairwiseI8x16U => 0xfd7d,
            Instruction::I32x4ExtaddPairwiseI16x8S => 0xfd7e,
            Instruction::I32x4ExtaddPairwiseI16x8U => 0xfd7f,
            Instruction::I16x8Abs(_) => 0xfd80,
            Instruction::I16x8Neg(_) => 0xfd81,
            Instruction::I16x8Q15mulrSatS(_) => 0xfd82,
            Instruction::I16x8AllTrue(_) => 0xfd83,
            Instruction::I16x8Bitmask(_) => 0xfd84,
            Instruction::I16x8NarrowI32x4S(_) => 0xfd85,
            Instruction::I16x8NarrowI32x4U(_) => 0xfd86,
            Instruction::I16x8ExtendLowI8x16S(_) => 0xfd87,
            Instruction::I16x8ExtendHighI8x16S(_) => 0xfd88,
            Instruction::I16x8ExtendLowI8x16U(_) => 0xfd89,
            Instruction::I16x8ExtendHighI8x16U(_) => 0xfd8a,
            Instruction::I16x8Shl(_) => 0xfd8b,
            Instruction::I16x8ShrS(_) => 0xfd8c,
            Instruction::I16x8ShrU(_) => 0xfd8d,
            Instruction::I16x8Add(_) => 0xfd8e,
            Instruction::I16x8AddSatS(_) => 0xfd8f,
            Instruction::I16x8AddSatU(_) => 0xfd90,
            Instruction::I16x8Sub(_) => 0xfd91,
            Instruction::I16x8SubSatS(_) => 0xfd92,
            Instruction::I16x8SubSatU(_) => 0xfd93,
            Instruction::F64x2Nearest(_) => 0xfd94,
            Instruction::I16x8Mul(_) => 0xfd95,
            Instruction::I16x8MinS(_) => 0xfd96,
            Instruction::I16x8MinU(_) => 0xfd97,
            Instruction::I16x8MaxS(_) => 0xfd98,
            Instruction::I16x8MaxU(_) => 0xfd99,
            Instruction::I16x8AvgrU(_) => 0xfd9b,
            Instruction::I16x8ExtmulLowI8x16S(_) => 0xfd9c,
            Instruction::I16x8ExtmulHighI8x16S(_) => 0xfd9d,
            Instruction::I16x8ExtmulLowI8x16U(_) => 0xfd9e,
            Instruction::I16x8ExtmulHighI8x16U(_) => 0xfd9f,
            Instruction::I32x4Abs(_) => 0xfda0,
            Instruction::I32x4Neg(_) => 0xfda1,
            Instruction::I32x4AllTrue(_) => 0xfda3,
            Instruction::I32x4Bitmask(_) => 0xfda4,
            Instruction::I32x4ExtendLowI16x8S(_) => 0xfda7,
            Instruction::I32x4ExtendHighI16x8S(_) => 0xfda8,
            Instruction::I32x4ExtendLowI16x8U(_) => 0xfda9,
            Instruction::I32x4ExtendHighI16x8U(_) => 0xfdaa,
            Instruction::I32x4Shl(_) => 0xfdab,
            Instruction::I32x4ShrS(_) => 0xfdac,
            Instruction::I32x4ShrU(_) => 0xfdad,
            Instruction::I32x4Add(_) => 0xfdae,
            Instruction::I32x4Sub(_) => 0xfdb1,
            Instruction::I32x4Mul(_) => 0xfdb5,
            Instruction::I32x4MinS(_) => 0xfdb6,
            Instruction::I32x4MinU(_) => 0xfdb7,
            Instruction::I32x4MaxS(_) => 0xfdb8,
            Instruction::I32x4MaxU(_) => 0xfdb9,
            Instruction::I32x4DotI16x8S(_) => 0xfdba,
            Instruction::I32x4ExtmulLowI16x8S(_) => 0xfdbc,
            Instruction::I32x4ExtmulHighI16x8S(_) => 0xfdbd,
            Instruction::I32x4ExtmulLowI16x8U(_) => 0xfdbe,
            Instruction::I32x4ExtmulHighI16x8U(_) => 0xfdbf,
            Instruction::I64x2Abs(_) => 0xfdc0,
            Instruction::I64x2Neg(_) => 0xfdc1,
            Instruction::I64x2AllTrue(_) => 0xfdc3,
            Instruction::I64x2Bitmask(_) => 0xfdc4,
            Instruction::I64x2ExtendLowI32x4S(_) => 0xfdc7,
            Instruction::I64x2ExtendHighI32x4S(_) => 0xfdc8,
            Instruction::I64x2ExtendLowI32x4U(_) => 0xfdc9,
            Instruction::I64x2ExtendHighI32x4U(_) => 0xfdca,
            Instruction::I64x2Shl(_) => 0xfdcb,
            Instruction::I64x2ShrS(_) => 0xfdcc,
            Instruction::I64x2ShrU(_) => 0xfdcd,
            Instruction::I64x2Add(_) => 0xfdce,
            Instruction::I64x2Sub(_) => 0xfdd1,
            Instruction::I64x2Mul(_) => 0xfdd5,
            Instruction::I64x2Eq(_) => 0xfdd6,
            Instruction::I64x2Ne(_) => 0xfdd7,
            Instruction::I64x2LtS(_) => 0xfdd8,
            Instruction::I64x2GtS(_) => 0xfdd9,
            Instruction::I64x2LeS(_) => 0xfdda,
            Instruction::I64x2GeS(_) => 0xfddb,
            Instruction::I64x2ExtmulLowI32x4S(_) => 0xfddc,
            Instruction::I64x2ExtmulHighI32x4S(_) => 0xfddd,
            Instruction::I64x2ExtmulLowI32x4U(_) => 0xfdde,
            Instruction::I64x2ExtmulHighI32x4U(_) => 0xfddf,
            Instruction::F32x4Abs(_) => 0xfde0,
            Instruction::F32x4Neg(_) => 0xfde1,
            Instruction::F32x4Sqrt(_) => 0xfde3,
            Instruction::F32x4Add(_) => 0xfde4,
            Instruction::F32x4Sub(_) => 0xfde5,
            Instruction::F32x4Mul(_) => 0xfde6,
            Instruction::F32x4Div(_) => 0xfde7,
            Instruction::F32x4Min(_) => 0xfde8,
            Instruction::F32x4Max(_) => 0xfde9,
            Instruction::F32x4Pmin(_) => 0xfdea,
            Instruction::F32x4Pmax(_) => 0xfdeb,
            Instruction::F64x2Abs(_) => 0xfdec,
            Instruction::F64x2Neg(_) => 0xfded,
            Instruction::F64x2Sqrt(_) => 0xfdef,
            Instruction::F64x2Add(_) => 0xfdf0,
            Instruction::F64x2Sub(_) => 0xfdf1,
            Instruction::F64x2Mul(_) => 0xfdf2,
            Instruction::F64x2Div(_) => 0xfdf3,
            Instruction::F64x2Min(_) => 0xfdf4,
            Instruction::F64x2Max(_) => 0xfdf5,
            Instruction::F64x2Pmin(_) => 0xfdf6,
            Instruction::F64x2Pmax(_) => 0xfdf7,
            Instruction::I32x4TruncSatF32x4S(_) => 0xfdf8,
            Instruction::I32x4TruncSatF32x4U(_) => 0xfdf9,
            Instruction::F32x4ConvertI32x4S(_) => 0xfdfa,
            Instruction::F32x4ConvertI32x4U(_) => 0xfdfb,
            Instruction::I32x4TruncSatF64x2SZero(_) => 0xfdfc,
            Instruction::I32x4TruncSatF64x2UZero(_) => 0xfdfd,
            Instruction::F64x2ConvertLowI32x4S(_) => 0xfdfe,
            Instruction::F64x2ConvertLowI32x4U(_) => 0xfdff,
        }
    }

    pub fn discriminant(&self) -> (r: u16)
        ensures
            r == self.spec_discriminant(),
    {
        match self {
            Instruction::Unreachable => 0x00,
            Instruction::Nop => 0x01,
            Instruction::Block(_) => 0x02,
            Instruction::Loop(_) => 0x03,
            Instruction::If(_) => 0x04,
            Instruction::Else => 0x05,
            Instruction::End => 0x0b,
            Instruction::Br(_) => 0x0c,
            Instruction::BrIf(_) => 0x0d,
            Instruction::BrTable(_) => 0x0e,
            Instruction::Return => 0x0f,
            Instruction::Call(_) => 0x10,
            Instruction::CallIndirect(_, _) => 0x11,
            Instruction::Drop => 0x1a,
            Instruction::Select => 0x1b,
            Instruction::Select2(_, _) => 0x1c,
            Instruction::LocalGet(_) => 0x20,
            Instruction::LocalSet(_) => 0x21,
            Instruction::LocalTee(_) => 0x22,
            Instruction::GlobalGet(_) => 0x23,
            Instruction::GlobalSet(_) => 0x24,
            Instruction::TableGet(_) => 0x25,
            Instruction::TableSet(_) => 0x26,
            Instruction::I32Load(_) => 0x28,
            Instruction::I64Load(_) => 0x29,
            Instruction::F32Load(_) => 0x2a,
            Instruction::F64Load(_) => 0x2b,
            Instruction::I32Load8S(_) => 0x2c,
            Instruction::I32Load8U(_) => 0x2d,
            Instruction::I32Load16S(_) => 0x2e,
            Instruction::I32Load16U(_) => 0x2f,
            Instruction::I64Load8S(_) => 0x30,
            Instruction::I64Load8U(_) => 0x31,
            Instruction::I64Load16S(_) => 0x32,
            Instruction::I64Load16U(_) => 0x33,
            Instruction::I64Load32S(_) => 0x34,
            Instruction::I64Load32U(_) => 0x35,
            Instruction::I32Store(_) => 0x36,
            Instruction::I64Store(_) => 0x37,
            Instruction::F32Store(_) => 0x38,
            Instruction::F64Store(_) => 0x39,
            Instruction::I32Store8(_) => 0x3a,
            Instruction::I32Store16(_) => 0x3b,
            Instruction::I64Store8(_) => 0x3c,
            Instruction::I64Store16(_) => 0x3d,
            Instruction::I64Store32(_) => 0x3e,
            Instruction::MemorySize(_) => 0x3f,
            Instruction::MemoryGrow(_) => 0x40,
            Instruction::I32Const(_) => 0x41,
            Instruction::I64Const(_) => 0x42,
            Instruction::F32Const(_) => 0x43,
            Instruction::F64Const(_) => 0x44,
            Instruction::I32Eqz => 0x45,
            Instruction::I32Eq => 0x46,
            Instruction::I32Ne => 0x47,
            Instruction::I32LtS => 0x48,
            Instruction::I32LtU => 0x49,
            Instruction::I32GtS => 0x4a,
            Instruction::I32GtU => 0x4b,
            Instruction::I32LeS => 0x4c,
            Instruction::I32LeU => 0x4d,
            Instruction::I32GeS => 0x4e,
            Instruction::I32GeU => 0x4f,
            Instruction::I64Eqz => 0x50,
            Instruction::I64Eq => 0x51,
            Instruction::I64Ne => 0x52,
            Instruction::I64LtS => 0x53,
            Instruction::I64LtU => 0x54,
            Instruction::I64GtS => 0x55,
            Instruction::I64GtU => 0x56,
            Instruction::I64LeS => 0x57,
            Instruction::I64LeU => 0x58,
            Instruction::I64GeS => 0x59,
            Instruction::I64GeU => 0x5a,
            Instruction::F32Eq => 0x5b,
            Instruction::F32Ne => 0x5c,
            Instruction::F32Lt => 0x5d,
            Instruction::F32Gt => 0x5e,
            Instruction::F32Le => 0x5f,
            Instruction::F32Ge => 0x60,
            Instruction::F64Eq => 0x61,
            Instruction::F64Ne => 0x62,
            Instruction::F64Lt => 0x63,
            Instruction::F64Gt => 0x64,
            Instruction::F64Le => 0x65,
            Instruction::F64Ge => 0x66,
            Instruction::I32Clz => 0x67,
            Instruction::I32Ctz => 0x68,
            Instruction::I32Popcnt => 0x69,
            Instruction::I32Add => 0x6a,
            Instruction::I32Sub => 0x6b,
            Instruction::I32Mul => 0x6c,
            Instruction::I32DivS => 0x6d,
            Instruction::I32DivU => 0x6e,
            Instruction::I32RemS => 0x6f,
            Instruction::I32RemU => 0x70,
            Instruction::I32And => 0x71,
            Instruction::I32Or => 0x72,
            Instruction::I32Xor => 0x73,
            Instruction::I32Shl => 0x74,
            Instruction::I32ShrS => 0x75,
            Instruction::I32ShrU => 0x76,
            Instruction::I32Rotl => 0x77,
            Instruction::I32Rotr => 0x78,
            Instruction::I64Clz => 0x79,
            Instruction::I64Ctz => 0x7a,
            Instruction::I64Popcnt => 0x7b,
            Instruction::I64Add => 0x7c,
            Instruction::I64Sub => 0x7d,
            Instruction::I64Mul => 0x7e,
            Instruction::I64DivS => 0x7f,
            Instruction::I64DivU => 0x80,
            Instruction::I64RemS => 0x81,
            Instruction::I64RemU => 0x82,
            Instruction::I64And => 0x83,
            Instruction::I64Or => 0x84,
            Instruction::I64Xor => 0x85,
            Instruction::I64Shl => 0x86,
            Instruction::I64ShrS => 0x87,
            Instruction::I64ShrU => 0x88,
            Instruction::I64Rotl => 0x89,
            Instruction::I64Rotr => 0x8a,
            Instruction::F32Abs => 0x8b,
            Instruction::F32Neg => 0x8c,
            Instruction::F32Ceil => 0x8d,
            Instruction::F32Floor => 0x8e,
            Instruction::F32Trunc => 0x8f,
            Instruction::F32Nearest => 0x90,
            Instruction::F32Sqrt => 0x91,
            Instruction::F32Add => 0x92,
            Instruction::F32Sub => 0x93,
            Instruction::F32Mul => 0x94,
            Instruction::F32Div => 0x95,
            Instruction::F32Min => 0x96,
            Instruction::F32Max => 0x97,
            Instruction::F32Copysign => 0x98,
            Instruction::F64Abs => 0x99,
            Instruction::F64Neg => 0x9a,
            Instruction::F64Ceil => 0x9b,
            Instruction::F64Floor => 0x9c,
            Instruction::F64Trunc => 0x9d,
            Instruction::F64Nearest => 0x9e,
            Instruction::F64Sqrt => 0x9f,
            Instruction::F64Add => 0xa0,
            Instruction::F64Sub => 0xa1,
            Instruction::F64Mul => 0xa2,
            Instruction::F64Div => 0xa3,
            Instruction::F64Min => 0xa4,
            Instruction::F64Max => 0xa5,
            Instruction::F64Copysign => 0xa6,
            Instruction::I32WrapI64 => 0xa7,
            Instruction::I32TruncF32S => 0xa8,
            Instruction::I32TruncF32U => 0xa9,
            Instruction::I32TruncF64S => 0xaa,
            Instruction::I32TruncF64U => 0xab,
            Instruction::I64ExtendI32S => 0xac,
            Instruction::I64ExtendI32U => 0xad,
            Instruction::I64TruncF32S => 0xae,
            Instruction::I64TruncF32U => 0xaf,
            Instruction::I64TruncF64S => 0xb0,
            Instruction::I64TruncF64U => 0xb1,
            Instruction::F32ConvertI32S => 0xb2,
            Instruction::F32ConvertI32U => 0xb3,
            Instruction::F32ConvertI64S => 0xb4,
            Instruction::F32ConvertI64U => 0xb5,
            Instruction::F32DemoteF64 => 0xb6,
            Instruction::F64ConvertI32S => 0xb7,
            Instruction::F64ConvertI32U => 0xb8,
            Instruction::F64ConvertI64S => 0xb9,
            Instruction::F64ConvertI64U => 0xba,
            Instruction::F64PromoteF32 => 0xbb,
            Instruction::I32ReinterpretF32 => 0xbc,
            Instruction::I64ReinterpretF64 => 0xbd,
            Instruction::F32ReinterpretI32 => 0xbe,
            Instruction::F64ReinterpretI64 => 0xbf,
            Instruction::I32Extend8S => 0xc0,
            Instruction::I32Extend16S => 0xc1,
            Instruction::I64Extend8S => 0xc2,
            Instruction::I64Extend16S => 0xc3,
            Instruction::I64Extend32S => 0xc4,
            Instruction::RefNull(_) => 0xd0,
            Instruction::RefIsNull => 0xd1,
            Instruction::RefFunc(_) => 0xd2,
            Instruction::I32TruncSatF32S => 0xfc00,
            Instruction::I32TruncSatF32U => 0xfc01,
            Instruction::I32TruncSatF64S => 0xfc02,
            Instruction::I32TruncSatF64U => 0xfc03,
            Instruction::I64TruncSatF32S => 0xfc04,
            Instruction::I64TruncSatF32U => 0xfc05,
            Instruction::I64TruncSatF64S => 0xfc06,
            Instruction::I64TruncSatF64U => 0xfc07,
            Instruction::MemoryInit(_, _) => 0xfc08,
            Instruction::DataDrop(_) => 0xfc09,
            Instruction::MemoryCopy(_, _) => 0xfc0a,
            Instruction::MemoryFill(_) => 0xfc0b,
            Instruction::TableInit(_, _) => 0xfc0c,
            Instruction::ElemDrop(_) => 0xfc0d,
            Instruction::TableCopy(_, _) => 0xfc0e,
            Instruction::TableGrow(_) => 0xfc0f,
            Instruction::TableSize(_) => 0xfc10,
            Instruction::TableFill(_) => 0xfc11,
            Instruction::V128Load(_) => 0xfd00,
            Instruction::V128Load8x8S(_) => 0xfd01,
            Instruction::V128Load8x8U(_) => 0xfd02,
            Instruction::V128Load16x4S(_) => 0xfd03,
            Instruction::V128Load16x4U(_) => 0xfd04,
            Instruction::V128Load32x2S(_) => 0xfd05,
            Instruction::V128Load32x2U(_) => 0xfd06,
            Instruction::V128Load8Splat(_) => 0xfd07,
            Instruction::V128Load16Splat(_) => 0xfd08,
            Instruction::V128Load32Splat(_) => 0xfd09,
            Instruction::V128Load64Splat(_) => 0xfd0a,
            Instruction::V128Store(_) => 0xfd0b,
            Instruction::V128Const(_) => 0xfd0c,
            Instruction::I8x16Shuffle(_) => 0xfd0d,
            Instruction::I8x16Swizzle => 0xfd0e,
            Instruction::I8x16Splat => 0xfd0f,
            Instruction::I16x8Splat => 0xfd10,
            Instruction::I32x4Splat => 0xfd11,
            Instruction::I64x2Splat => 0xfd12,
            Instruction::F32x4Splat => 0xfd13,
            Instruction::F64x2Splat => 0xfd14,
            Instruction::I8x16ExtractLaneS(_) => 0xfd15,
            Instruction::I8x16ExtractLaneU(_) => 0xfd16,
            Instruction::I8x16ReplaceLane(_) => 0xfd17,
            Instruction::I16x8ExtractLaneS(_) => 0xfd18,
            Instruction::I16x8ExtractLaneU(_) => 0xfd19,
            Instruction::I16x8ReplaceLane(_) => 0xfd1a,
            Instruction::I32x4ExtractLane(_) => 0xfd1b,
            Instruction::I32x4ReplaceLane(_) => 0xfd1c,
            Instruction::I64x2ExtractLane(_) => 0xfd1d,
            Instruction::I64x2ReplaceLane(_) => 0xfd1e,
            Instruction::F32x4ExtractLane(_) => 0xfd1f,
            Instruction::F32x4ReplaceLane(_) => 0xfd20,
            Instruction::F64x2ExtractLane(_) => 0xfd21,
            Instruction::F64x2ReplaceLane(_) => 0xfd22,
            Instruction::I8x16Eq => 0xfd23,
            Instruction::I8x16Ne => 0xfd24,
            Instruction::I8x16LtS => 0xfd25,
            Instruction::I8x16LtU => 0xfd26,
            Instruction::I8x16GtS => 0xfd27,
            Instruction::I8x16GtU => 0xfd28,
            Instruction::I8x16LeS => 0xfd29,
            Instruction::I8x16LeU => 0xfd2a,
            Instruction::I8x16GeS => 0xfd2b,
            Instruction::I8x16GeU => 0xfd2c,
            Instruction::I16x8Eq => 0xfd2d,
            Instruction::I16x8Ne => 0xfd2e,
            Instruction::I16x8LtS => 0xfd2f,
            Instruction::I16x8LtU => 0xfd30,
            Instruction::I16x8GtS => 0xfd31,
            Instruction::I16x8GtU => 0xfd32,
            Instruction::I16x8LeS => 0xfd33,
            Instruction::I16x8LeU => 0xfd34,
            Instruction::I16x8GeS => 0xfd35,
            Instruction::I16x8GeU => 0xfd36,
            Instruction::I32x4Eq => 0xfd37,
            Instruction::I32x4Ne => 0xfd38,
            Instruction::I32x4LtS => 0xfd39,
            Instruction::I32x4LtU => 0xfd3a,
            Instruction::I32x4GtS => 0xfd3b,
            Instruction::I32x4GtU => 0xfd3c,
            Instruction::I32x4LeS => 0xfd3d,
            Instruction::I32x4LeU => 0xfd3e,
            Instruction::I32x4GeS => 0xfd3f,
            Instruction::I32x4GeU => 0xfd40,
            Instruction::F32x4Eq => 0xfd41,
            Instruction::F32x4Ne => 0xfd42,
            Instruction::F32x4Lt => 0xfd43,
            Instruction::F32x4Gt => 0xfd44,
            Instruction::F32x4Le => 0xfd45,
            Instruction::F32x4Ge => 0xfd46,
            Instruction::F64x2Eq => 0xfd47,
            Instruction::F64x2Ne => 0xfd48,
            Instruction::F64x2Lt => 0xfd49,
            Instruction::F64x2Gt => 0xfd4a,
            Instruction::F64x2Le => 0xfd4b,
            Instruction::F64x2Ge => 0xfd4c,
            Instruction::V128Not => 0xfd4d,
            Instruction::V128And => 0xfd4e,
            Instruction::V128Andnot => 0xfd4f,
            Instruction::V128Or => 0xfd50,
            Instruction::V128Xor => 0xfd51,
            Instruction::V128Bitselect => 0xfd52,
            Instruction::V128AnyTrue => 0xfd53,
            Instruction::V128Load8Lane(_, _) => 0xfd54,
            Instruction::V128Load16Lane(_, _) => 0xfd55,
            Instruction::V128Load32Lane(_, _) => 0xfd56,
            Instruction::V128Load64Lane(_, _) => 0xfd57,
            Instruction::V128Store8Lane(_, _) => 0xfd58,
            Instruction::V128Store16Lane(_, _) => 0xfd59,
            Instruction::V128Store32Lane(_, _) => 0xfd5a,
            Instruction::V128Store64Lane(_, _) => 0xfd5b,
            Instruction::V128Load32Zero(_) => 0xfd5c,
            Instruction::V128Load64Zero(_) => 0xfd5d,
            Instruction::F32x4DemoteF64x2Zero => 0xfd5e,
            Instruction::F64x2PromoteLowF32x4 => 0xfd5f,
            Instruction::I8x16Abs => 0xfd60,
            Instruction::I8x16Neg => 0xfd61,
            Instruction::I8x16Popcnt => 0xfd62,
            Instruction::I8x16AllTrue => 0xfd63,
            Instruction::I8x16Bitmask => 0xfd64,
            Instruction::I8x16NarrowI16x8S => 0xfd65,
            Instruction::I8x16NarrowI16x8U => 0xfd66,
            Instruction::F32x4Ceil => 0xfd67,
            Instruction::F32x4Floor => 0xfd68,
            Instruction::F32x4Trunc => 0xfd69,
            Instruction::F32x4Nearest => 0xfd6a,
            Instruction::I8x16Shl => 0xfd6b,
            Instruction::I8x16ShrS => 0xfd6c,
            Instruction::I8x16ShrU => 0xfd6d,
            Instruction::I8x16Add => 0xfd6e,
            Instruction::I8x16AddSatS => 0xfd6f,
            Instruction::I8x16AddSatU => 0xfd70,
            Instruction::I8x16Sub => 0xfd71,
            Instruction::I8x16SubSatS => 0xfd72,
            Instruction::I8x16SubSatU => 0xfd73,
            Instruction::F64x2Ceil => 0xfd74,
            Instruction::F64x2Floor => 0xfd75,
            Instruction::I8x16MinS => 0xfd76,
            Instruction::I8x16MinU => 0xfd77,
            Instruction::I8x16MaxS => 0xfd78,
            Instruction::I8x16MaxU => 0xfd79,
            Instruction::F64x2Trunc => 0xfd7a,
            Instruction::I8x16AvgrU => 0xfd7b,
            Instruction::I16x8ExtaddPairwiseI8x16S => 0xfd7c,
            Instruction::I16x8ExtaddPairwiseI8x16U => 0xfd7d,
            Instruction::I32x4ExtaddPairwiseI16x8S => 0xfd7e,
            Instruction::I32x4ExtaddPairwiseI16x8U => 0xfd7f,
            Instruction::I16x8Abs(_) => 0xfd80,
            Instruction::I16x8Neg(_) => 0xfd81,
            Instruction::I16x8Q15mulrSatS(_) => 0xfd82,
            Instruction::I16x8AllTrue(_) => 0xfd83,
            Instruction::I16x8Bitmask(_) => 0xfd84,
            Instruction::I16x8NarrowI32x4S(_) => 0xfd85,
            Instruction::I16x8NarrowI32x4U(_) => 0xfd86,
            Instruction::I16x8ExtendLowI8x16S(_) => 0xfd87,
            Instruction::I16x8ExtendHighI8x16S(_) => 0xfd88,
            Instruction::I16x8ExtendLowI8x16U(_) => 0xfd89,
            Instruction::I16x8ExtendHighI8x16U(_) => 0xfd8a,
            Instruction::I16x8Shl(_) => 0xfd8b,
            Instruction::I16x8ShrS(_) => 0xfd8c,
            Instruction::I16x8ShrU(_) => 0xfd8d,
            Instruction::I16x8Add(_) => 0xfd8e,
            Instruction::I16x8AddSatS(_) => 0xfd8f,
            Instruction::I16x8AddSatU(_) => 0xfd90,
            Instruction::I16x8Sub(_) => 0xfd91,
            Instruction::I16x8SubSatS(_) => 0xfd92,
            Instruction::I16x8SubSatU(_) => 0xfd93,
            Instruction::F64x2Nearest(_) => 0xfd94,
            Instruction::I16x8Mul(_) => 0xfd95,
            Instruction::I16x8MinS(_) => 0xfd96,
            Instruction::I16x8MinU(_) => 0xfd97,
            Instruction::I16x8MaxS(_) => 0xfd98,
            Instruction::I16x8MaxU(_) => 0xfd99,
            Instruction::I16x8AvgrU(_) => 0xfd9b,
            Instruction::I16x8ExtmulLowI8x16S(_) => 0xfd9c,
            Instruction::I16x8ExtmulHighI8x16S(_) => 0xfd9d,
            Instruction::I16x8ExtmulLowI8x16U(_) => 0xfd9e,
            Instruction::I16x8ExtmulHighI8x16U(_) => 0xfd9f,
            Instruction::I32x4Abs(_) => 0xfda0,
            Instruction::I32x4Neg(_) => 0xfda1,
            Instruction::I32x4AllTrue(_) => 0xfda3,
            Instruction::I32x4Bitmask(_) => 0xfda4,
            Instruction::I32x4ExtendLowI16x8S(_) => 0xfda7,
            Instruction::I32x4ExtendHighI16x8S(_) => 0xfda8,
            Instruction::I32x4ExtendLowI16x8U(_) => 0xfda9,
            Instruction::I32x4ExtendHighI16x8U(_) => 0xfdaa,
            Instruction::I32x4Shl(_) => 0xfdab,
            Instruction::I32x4ShrS(_) => 0xfdac,
            Instruction::I32x4ShrU(_) => 0xfdad,
            Instruction::I32x4Add(_) => 0xfdae,
            Instruction::I32x4Sub(_) => 0xfdb1,
            Instruction::I32x4Mul(_) => 0xfdb5,
            Instruction::I32x4MinS(_) => 0xfdb6,
            Instruction::I32x4MinU(_) => 0xfdb7,
            Instruction::I32x4MaxS(_) => 0xfdb8,
            Instruction::I32x4MaxU(_) => 0xfdb9,
            Instruction::I32x4DotI16x8S(_) => 0xfdba,
            Instruction::I32x4ExtmulLowI16x8S(_) => 0xfdbc,
            Instruction::I32x4ExtmulHighI16x8S(_) => 0xfdbd,
            Instruction::I32x4ExtmulLowI16x8U(_) => 0xfdbe,
            Instruction::I32x4ExtmulHighI16x8U(_) => 0xfdbf,
            Instruction::I64x2Abs(_) => 0xfdc0,
            Instruction::I64x2Neg(_) => 0xfdc1,
            Instruction::I64x2AllTrue(_) => 0xfdc3,
            Instruction::I64x2Bitmask(_) => 0xfdc4,
            Instruction::I64x2ExtendLowI32x4S(_) => 0xfdc7,
            Instruction::I64x2ExtendHighI32x4S(_) => 0xfdc8,
            Instruction::I64x2ExtendLowI32x4U(_) => 0xfdc9,
            Instruction::I64x2ExtendHighI32x4U(_) => 0xfdca,
            Instruction::I64x2Shl(_) => 0xfdcb,
            Instruction::I64x2ShrS(_) => 0xfdcc,
            Instruction::I64x2ShrU(_) => 0xfdcd,
            Instruction::I64x2Add(_) => 0xfdce,
            Instruction::I64x2Sub(_) => 0xfdd1,
            Instruction::I64x2Mul(_) => 0xfdd5,
            Instruction::I64x2Eq(_) => 0xfdd6,
            Instruction::I64x2Ne(_) => 0xfdd7,
            Instruction::I64x2LtS(_) => 0xfdd8,
            Instruction::I64x2GtS(_) => 0xfdd9,
            Instruction::I64x2LeS(_) => 0xfdda,
            Instruction::I64x2GeS(_) => 0xfddb,
            Instruction::I64x2ExtmulLowI32x4S(_) => 0xfddc,
            Instruction::I64x2ExtmulHighI32x4S(_) => 0xfddd,
            Instruction::I64x2ExtmulLowI32x4U(_) => 0xfdde,
            Instruction::I64x2ExtmulHighI32x4U(_) => 0xfddf,
            Instruction::F32x4Abs(_) => 0xfde0,
            Instruction::F32x4Neg(_) => 0xfde1,
            Instruction::F32x4Sqrt(_) => 0xfde3,
            Instruction::F32x4Add(_) => 0xfde4,
            Instruction::F32x4Sub(_) => 0xfde5,
            Instruction::F32x4Mul(_) => 0xfde6,
            Instruction::F32x4Div(_) => 0xfde7,
            Instruction::F32x4Min(_) => 0xfde8,
            Instruction::F32x4Max(_) => 0xfde9,
            Instruction::F32x4Pmin(_) => 0xfdea,
            Instruction::F32x4Pmax(_) => 0xfdeb,
            Instruction::F64x2Abs(_) => 0xfdec,
            Instruction::F64x2Neg(_) => 0xfded,
            Instruction::F64x2Sqrt(_) => 0xfdef,
            Instruction::F64x2Add(_) => 0xfdf0,
            Instruction::F64x2Sub(_) => 0xfdf1,
            Instruction::F64x2Mul(_) => 0xfdf2,
            Instruction::F64x2Div(_) => 0xfdf3,
            Instruction::F64x2Min(_) => 0xfdf4,
            Instruction::F64x2Max(_) => 0xfdf5,
            Instruction::F64x2Pmin(_) => 0xfdf6,
            Instruction::F64x2Pmax(_) => 0xfdf7,
            Instruction::I32x4TruncSatF32x4S(_) => 0xfdf8,
            Instruction::I32x4TruncSatF32x4U(_) => 0xfdf9,
            Instruction::F32x4ConvertI32x4S(_) => 0xfdfa,
            Instruction::F32x4ConvertI32x4U(_) => 0xfdfb,
            Instruction::I32x4TruncSatF64x2SZero(_) => 0xfdfc,
            Instruction::I32x4TruncSatF64x2UZero(_) => 0xfdfd,
            Instruction::F64x2ConvertLowI32x4S(_) => 0xfdfe,
            Instruction::F64x2ConvertLowI32x4U(_) => 0xfdff,
        }
    }
}

/// An instruction as a mathematical value: the bodies of blocks and the
/// label table are sequences.
pub enum InstrView {
    Block(BlockType, Seq<InstrView>),
    Loop(BlockType, Seq<InstrView>),
    If(BlockType, Seq<InstrView>, Seq<InstrView>),
    BrTable(Seq<LabelIdx>, LabelIdx),
    Shuffle(Seq<u8>),
    /// Any other instruction: it holds no sequence and stands for itself.
    Plain(Instruction),
}

/// The mathematical value of an instruction.
pub open spec fn instr_view(i: Instruction) -> InstrView
    decreases i,
{
    match i {
        Instruction::Block(b) => InstrView::Block(b.type_, expr_view(b.expr@)),
        Instruction::Loop(b) => InstrView::Loop(b.type_, expr_view(b.expr@)),
        Instruction::If(b) => InstrView::If(
            b.type_,
            expr_view(b.if_expr@),
            expr_view(b.else_expr@),
        ),
        Instruction::BrTable(a) => InstrView::BrTable(a.labels@, a.default),
        Instruction::I8x16Shuffle(lanes) => InstrView::Shuffle(lanes@),
        _ => InstrView::Plain(i),
    }
}

/// The mathematical value of a sequence of instructions.
pub open spec fn expr_view(e: Seq<Instruction>) -> Seq<InstrView>
    decreases e,
{
    if e.len() == 0 {
        Seq::empty()
    } else {
        expr_view(e.drop_last()).push(instr_view(e.last()))
    }
}

/// The view of a sequence is the sequence of the views.
pub proof fn lemma_expr_view(e: Seq<Instruction>)
    ensures
        expr_view(e).len() == e.len(),
        forall|k: int| 0 <= k < e.len() ==> #[trigger] expr_view(e)[k] == instr_view(e[k]),
    decreases e.len(),
{
    if e.len() > 0 {
        lemma_expr_view(e.drop_last());
    }
}

/// Appending an instruction appends its view.
pub proof fn lemma_expr_view_push(e: Seq<Instruction>, i: Instruction)
    ensures
        expr_view(e.push(i)) == expr_view(e).push(instr_view(i)),
{
    assert(e.push(i).drop_last() =~= e);
}

impl DeepView for Instruction {
    type V = InstrView;

    open spec fn deep_view(&self) -> InstrView {
        instr_view(*self)
    }
}

/// The view that a vector of instructions has as a vector is the view it
/// has as an expression.
pub proof fn lemma_expr_deep_view(e: Expr)
    ensures
        e.deep_view() == expr_view(e@),
{
    lemma_expr_view(e@);
    assert(e.deep_view() =~= expr_view(e@));
}

} // verus!
