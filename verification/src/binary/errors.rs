//! Errors of the decoder and of the validator.

use vstd::prelude::*;

use super::section::Section;
use super::types::ValType;

verus! {

/// The instructions whose memory index byte is reserved and must be zero.
#[derive(Debug, Clone, Copy, PartialEq, Eq, Structural)]
pub enum ReservedOp {
    MemoryGrow,
    MemorySize,
}

/// The instructions that may only appear once a data count was declared.
#[derive(Debug, Clone, Copy, PartialEq, Eq, Structural)]
pub enum DataCountOp {
    MemoryInit,
    DataDrop,
}

/// Why a byte sequence is not a module.
#[derive(Debug, Clone, Copy, PartialEq, Eq, Structural)]
pub enum DecodeErr {
    /// The input ended inside a fixed-size read.
    UnexpectedEof,
    /// A name is not valid UTF-8.
    InvalidUtf8,
    LEBDecodeTooLong,
    IntTooLarge,
    LEBUnexpectedEnd,
    MagicUnMatch(u32),
    VersionUnMatch(u32),
    UnexpectedSection(u8),
    InvalidType(u8),
    InvalidMut(u8),
    /// A block type that is neither a value type nor a type index.
    InvalidBlockType(i32),
    ExprUnexpectedEnd,
    UnknownOpcodePrefix(u8),
    UnknownOpcode(u8, u8),
    InvalidBlock,
    InvalidElseBlock,
    InvalidTableElemType(u8),
    InvalidImportKind(u8),
    InvalidExportKind(u8),
    InvalidElemMode(u32),
    InvalidDataMode(u32),
    LocalsTooLarge,
    TableElemNotARef,
    SectionSizeMismatch,
    InvalidLimitMode(u8),
    MultipleSection(Section, usize),
    FuncAndCodeNotEq(usize, usize),
    DataAndDataCountNotEq(usize, usize),
    NotZero(ReservedOp, u8),
    LossDataCount(DataCountOp),
}

/// Why a decoded module is not valid.
#[derive(Debug)]
pub enum ValidateErr {
    FnTypeNotFound(u32),
    FnNotFound(u32),
    TableNotFound(u32),
    MemNotFound(u32),
    GlobalVarNotFound(u32),
    GlobalVarNotConst(u32),
    DuplicateExport(Vec<String>),
    ExitImportTable,
    ExitImportMem,
    MaxLtMin(u32, u32),
    MaxTooLarge(u32, u32),
    InitExprLen(usize),
    InitNotConst(u16),
    ExprRetNotEq(ValType, ValType),
    OffsetRetNotEqI32(ValType),
    StartFnNoParam(Vec<ValType>),
    StartFnNoResult(Vec<ValType>),
}

/// A validation error as a mathematical value.
pub enum ValidateErrView {
    FnTypeNotFound(u32),
    FnNotFound(u32),
    TableNotFound(u32),
    MemNotFound(u32),
    GlobalVarNotFound(u32),
    GlobalVarNotConst(u32),
    DuplicateExport(Seq<Seq<char>>),
    ExitImportTable,
    ExitImportMem,
    MaxLtMin(u32, u32),
    MaxTooLarge(u32, u32),
    InitExprLen(usize),
    InitNotConst(u16),
    ExprRetNotEq(ValType, ValType),
    OffsetRetNotEqI32(ValType),
    StartFnNoParam(Seq<ValType>),
    StartFnNoResult(Seq<ValType>),
}

impl DeepView for ValidateErr {
    type V = ValidateErrView;

    open spec fn deep_view(&self) -> ValidateErrView {
        match self {
            ValidateErr::FnTypeNotFound(i) => ValidateErrView::FnTypeNotFound(*i),
            ValidateErr::FnNotFound(i) => ValidateErrView::FnNotFound(*i),
            ValidateErr::TableNotFound(i) => ValidateErrView::TableNotFound(*i),
            ValidateErr::MemNotFound(i) => ValidateErrView::MemNotFound(*i),
            ValidateErr::GlobalVarNotFound(i) => ValidateErrView::GlobalVarNotFound(*i),
            ValidateErr::GlobalVarNotConst(i) => ValidateErrView::GlobalVarNotConst(*i),
            ValidateErr::DuplicateExport(names) => ValidateErrView::DuplicateExport(
                names.deep_view(),
            ),
            ValidateErr::ExitImportTable => ValidateErrView::ExitImportTable,
            ValidateErr::ExitImportMem => ValidateErrView::ExitImportMem,
            ValidateErr::MaxLtMin(max, min) => ValidateErrView::MaxLtMin(*max, *min),
            ValidateErr::MaxTooLarge(max, top) => ValidateErrView::MaxTooLarge(*max, *top),
            ValidateErr::InitExprLen(n) => ValidateErrView::InitExprLen(*n),
            ValidateErr::InitNotConst(tag) => ValidateErrView::InitNotConst(*tag),
            ValidateErr::ExprRetNotEq(got, want) => ValidateErrView::ExprRetNotEq(*got, *want),
            ValidateErr::OffsetRetNotEqI32(got) => ValidateErrView::OffsetRetNotEqI32(*got),
            ValidateErr::StartFnNoParam(types) => ValidateErrView::StartFnNoParam(types@),
            ValidateErr::StartFnNoResult(types) => ValidateErrView::StartFnNoResult(types@),
        }
    }
}

} // verus!
