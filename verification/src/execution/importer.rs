//! What a module that offers imports must be able to do.

use vstd::prelude::*;

use super::inst::RFuncInst;
use super::inst::RGlobalInst;
use super::inst::RMemInst;
use super::inst::RTableInst;

verus! {

/// A module that others can import from: it has a name and an id, and it
/// gives the address in the store of what it offers under a name. What it
/// gives is its own affair; the linker checks each address it is handed.
pub trait Importer {
    fn get_name(&self) -> String;

    fn get_id(&self) -> String;

    fn resolve_func(&self, name: &str) -> Option<RFuncInst>;

    fn resolve_table(&self, name: &str) -> Option<RTableInst>;

    fn resolve_mem(&self, name: &str) -> Option<RMemInst>;

    fn resolve_global(&self, name: &str) -> Option<RGlobalInst>;
}

} // verus!
