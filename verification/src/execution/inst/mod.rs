//! The instances that a module has at run time.

use vstd::prelude::*;

use crate::binary::section::ExportSeg;

pub mod element;
pub mod function;
pub mod global;
pub mod memory;
pub mod table;

verus! {

/// The exports of a module, in the order in which it declares them.
pub type ExportMap = Vec<ExportSeg>;

/// The address of a function instance in the store.
pub type RFuncInst = usize;

/// The address of a table instance in the store.
pub type RTableInst = usize;

/// The address of a memory instance in the store.
pub type RMemInst = usize;

/// The address of a global instance in the store.
pub type RGlobalInst = usize;

/// What a module offers under a name: the address of an instance.
#[derive(Debug, Clone, Copy, PartialEq, Eq, Structural)]
pub enum ExportInst {
    Func(RFuncInst),
    Table(RTableInst),
    Mem(RMemInst),
    Global(RGlobalInst),
}

} // verus!
