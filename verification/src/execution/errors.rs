//! Errors of instantiation, of linking and of execution.

use vstd::prelude::*;

verus! {

/// A fault in an instance while a module is set up or a value is stored.
#[derive(Debug, Clone, Copy, PartialEq, Eq, Structural)]
pub enum InstError {
    OutofBoundMem,
    OutofBoundTable,
    Unreachable,
}

/// Why an import could not be linked.
#[derive(Debug)]
pub enum LinkError {
    ModuleNotFound(String),
    ItemNotFound(String, String),
    ExportNotFound(String, String),
    IncompatibleImportType,
}

/// A link error as a mathematical value.
pub enum LinkErrorView {
    ModuleNotFound(Seq<char>),
    ItemNotFound(Seq<char>, Seq<char>),
    ExportNotFound(Seq<char>, Seq<char>),
    IncompatibleImportType,
}

impl DeepView for LinkError {
    type V = LinkErrorView;

    open spec fn deep_view(&self) -> LinkErrorView {
        match self {
            LinkError::ModuleNotFound(m) => LinkErrorView::ModuleNotFound(m@),
            LinkError::ItemNotFound(m, n) => LinkErrorView::ItemNotFound(m@, n@),
            LinkError::ExportNotFound(m, n) => LinkErrorView::ExportNotFound(m@, n@),
            LinkError::IncompatibleImportType => LinkErrorView::IncompatibleImportType,
        }
    }
}

/// A fault that ends the running invocation.
#[derive(Debug, Clone, Copy, PartialEq, Eq, Structural)]
pub enum Trap {
    Unreachable,
    FnNotFound,
    NoOpcode,
    GlobalVarConst,
    FnNoBody,
    CallFrameNotFount,
    ArgNotEq,
    ValTypeNotEq,
    GlobalTypeNotEq,
    UnInitTableElem,
    InvalidRef,
    NullRef,
    OutofRange,
    IntegerOverflow,
    DivZero,
    InvalidConversionToInteger,
}

/// What can go wrong while instructions run.
#[derive(Debug, Clone, Copy, PartialEq, Eq, Structural)]
pub enum VmError {
    Inst(InstError),
    Trap(Trap),
}

pub type VMState<T = ()> = Result<T, VmError>;

/// The error of a trap.
pub open spec fn trap<T>(t: Trap) -> VMState<T> {
    Err(VmError::Trap(t))
}

/// What can go wrong while a module is instantiated.
#[derive(Debug)]
pub enum InstantiateError {
    Link(LinkError),
    Vm(VmError),
}

} // verus!
