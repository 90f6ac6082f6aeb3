//! Function instances: a function of a module, or one of the host.

use std::rc::Rc;

use vstd::prelude::*;

use crate::binary::section::CodeSeg;
use crate::binary::types::FuncType;
use crate::binary::types::ValType;
use crate::execution::random_str;

verus! {

/// `Rc::clone` of std: another pointer to the same allocation, and so to
/// the same value.
#[verifier::external_body]
pub(crate) fn share<T>(rc: &Rc<T>) -> (r: Rc<T>)
    ensures
        r == *rc,
{
    Rc::clone(rc)
}

/// What a function instance runs: code of a module, or a function that a
/// host module offers under a name.
#[derive(Debug)]
pub enum FuncInstKind {
    /// The index of the function among the module's own, and its code.
    Inner(usize, Rc<CodeSeg>),
    /// The id of the host module, and the name of the function in it.
    Outer(String, String),
}

/// A function instance: an id, a signature, the name of the module it
/// comes from, and what it runs.
#[derive(Debug)]
pub struct FuncInst {
    pub id: String,
    pub type_: FuncType,
    pub from: String,
    pub kind: FuncInstKind,
}

impl FuncInst {
    pub open spec fn spec_id(&self) -> Seq<char> {
        self.id@
    }

    pub open spec fn spec_type(&self) -> FuncType {
        self.type_
    }

    /// The name of the module that the function comes from.
    pub open spec fn spec_from(&self) -> Seq<char> {
        self.from@
    }

    /// An instance of function `i` of a module, with a fresh id of seven
    /// letters and digits.
    pub fn from_wasm(ft: FuncType, i: usize, code: Rc<CodeSeg>, from: &str) -> (r: Self)
        ensures
            r.spec_type() == ft,
            r.spec_from() == from@,
            r.kind == FuncInstKind::Inner(i, code),
            r.spec_id().len() == 7,
    {
        Self { id: random_str(7), type_: ft, from: from.to_owned(), kind: FuncInstKind::Inner(i, code) }
    }

    /// An instance of the function `fn_name` of the host module `ctx`, with
    /// a fresh id of seven letters and digits.
    pub fn from_importer(ft: FuncType, ctx: &str, fn_name: &str) -> (r: Self)
        ensures
            r.spec_type() == ft,
            r.spec_from() == ctx@,
            r.kind matches FuncInstKind::Outer(host, name) && host@ == ctx@ && name@ == fn_name@,
            r.spec_id().len() == 7,
    {
        Self {
            id: random_str(7),
            type_: ft,
            from: ctx.to_owned(),
            kind: FuncInstKind::Outer(ctx.to_owned(), fn_name.to_owned()),
        }
    }

    pub fn get_id(&self) -> (r: &str)
        ensures
            r@ == self.spec_id(),
    {
        self.id.as_str()
    }

    pub fn get_type(&self) -> (r: &FuncType)
        ensures
            *r == self.spec_type(),
    {
        &self.type_
    }

    pub fn arg_types(&self) -> (r: &Vec<ValType>)
        ensures
            *r == self.spec_type().params,
    {
        &self.type_.params
    }

    pub fn ret_types(&self) -> (r: &Vec<ValType>)
        ensures
            *r == self.spec_type().results,
    {
        &self.type_.results
    }

    /// The instance as another module sees it once it has imported it from
    /// the host module `ctx` under the name `fn_name`: the same id and the
    /// same signature, run by calling the host.
    pub fn as_outer(&self, ctx: &str, fn_name: &str) -> (r: FuncInst)
        ensures
            r.spec_type().same(&self.spec_type()),
            r.spec_id() == self.spec_id(),
            r.spec_from() == ctx@,
            r.kind matches FuncInstKind::Outer(host, name) && host@ == ctx@ && name@ == fn_name@,
    {
        FuncInst {
            id: self.id.clone(),
            type_: self.type_.duplicate(),
            from: ctx.to_owned(),
            kind: FuncInstKind::Outer(ctx.to_owned(), fn_name.to_owned()),
        }
    }

    /// Whether two instances are the same function: they have the same
    /// id.
    pub fn same_func(&self, rhs: &FuncInst) -> (r: bool)
        ensures
            r == (self.spec_id() == rhs.spec_id()),
    {
        self.id == rhs.id
    }
}

} // verus!
