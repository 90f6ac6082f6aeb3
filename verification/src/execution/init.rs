//! Instantiation: linking the imports, allocating the instances of a
//! module, and the calls that a host makes.

use std::rc::Rc;

use vstd::prelude::*;

use super::errors::InstError;
use super::errors::InstantiateError;
use super::errors::LinkError;
use super::errors::LinkErrorView;
use super::errors::Trap;
use super::errors::VMState;
use super::errors::VmError;
use super::importer::Importer;
use super::inst::element::ElemInst;
use super::inst::function::share;
use super::inst::function::FuncInst;
use super::inst::function::FuncInstKind;
use super::inst::global::GlobalInst;
use super::inst::memory::spec_writes;
use super::inst::memory::MemInst;
use super::inst::memory::MAX_PAGE_SIZE;
use super::inst::table::spec_null_of;
use super::inst::table::spec_set_elems;
use super::inst::table::TableInst;
use super::inst::ExportInst;
use super::inst::RFuncInst;
use super::inst::RGlobalInst;
use super::inst::RMemInst;
use super::inst::RTableInst;
use super::instr::control::call_is;
use super::instr::control::spec_call_func;
use super::random_str;
use super::value::ValInst;
use super::value::ValInsts;
use super::vm::Step;
use super::vm::Store;
use super::vm::VM;
use crate::binary::instruction::Instruction;
use crate::binary::module::Module;
use crate::binary::section::CodeSeg;
use crate::binary::section::DataMode;
use crate::binary::section::ElementMode;
use crate::binary::section::ExportDesc;
use crate::binary::section::ExportSeg;
use crate::binary::section::Expr;
use crate::binary::section::ImportDesc;
use crate::binary::section::Locals;
use crate::binary::types::FuncType;
use crate::binary::types::ValType;

verus! {

/// Whether two strings hold the same characters.
pub fn str_eq(a: &str, b: &str) -> (r: bool)
    ensures
        r == (a@ == b@),
{
    a.to_owned() == b.to_owned()
}

/// What the linker makes of what an importer gave for an import: the
/// instance to adopt, or `IncompatibleImportType` if it does not fit what
/// the import asks for, or `ItemNotFound` if the importer gave nothing or
/// an address that is not in the store. A function fits if it has the type
/// that the import names, a table or a memory if its type is not
/// incompatible with the one asked for, and a global if its type is the
/// one asked for.
pub open spec fn spec_link(
    desc: ImportDesc,
    found: Option<ExportInst>,
    store: &Store,
    types: Seq<FuncType>,
) -> Result<ExportInst, bool> {
    match (desc, found) {
        (ImportDesc::Func(idx), Some(ExportInst::Func(a))) => if a >= store.funcs@.len() {
            Err(false)
        } else if idx >= types.len() || !store.funcs@[a as int].type_.same(&types[idx as int]) {
            Err(true)
        } else {
            Ok(ExportInst::Func(a))
        },
        (ImportDesc::Table(t), Some(ExportInst::Table(a))) => if a >= store.tables@.len() {
            Err(false)
        } else if store.tables@[a as int].spec_type().spec_incompatible(&t) {
            Err(true)
        } else {
            Ok(ExportInst::Table(a))
        },
        (ImportDesc::Mem(t), Some(ExportInst::Mem(a))) => if a >= store.mems@.len() {
            Err(false)
        } else if store.mems@[a as int].spec_type().spec_incompatible(&t) {
            Err(true)
        } else {
            Ok(ExportInst::Mem(a))
        },
        (ImportDesc::Global(t), Some(ExportInst::Global(a))) => if a >= store.globals@.len() {
            Err(false)
        } else if store.globals@[a as int].spec_type() != t {
            Err(true)
        } else {
            Ok(ExportInst::Global(a))
        },
        _ => Err(false),
    }
}

/// Checks what an importer gave for an import against what the import
/// asks for.
pub fn link(
    desc: &ImportDesc,
    found: Option<ExportInst>,
    store: &Store,
    types: &Vec<FuncType>,
    module_name: &str,
    item_name: &str,
) -> (r: Result<ExportInst, LinkError>)
    ensures
        match spec_link(*desc, found, store, types@) {
            Ok(e) => r is Ok && r->Ok_0 == e,
            Err(true) => r is Err && r->Err_0.deep_view() == LinkErrorView::IncompatibleImportType,
            Err(false) => r is Err && r->Err_0.deep_view() == LinkErrorView::ItemNotFound(
                module_name@,
                item_name@,
            ),
        },
{
    let fits = match (desc, found) {
        (ImportDesc::Func(idx), Some(ExportInst::Func(a))) => {
            if a >= store.funcs.len() {
                None
            } else {
                Some(
                    (*idx as usize) < types.len() && store.funcs[a].type_.eq_type(
                        &types[*idx as usize],
                    ),
                )
            }
        },
        (ImportDesc::Table(t), Some(ExportInst::Table(a))) => {
            if a >= store.tables.len() {
                None
            } else {
                Some(!store.tables[a].get_type().incompatible(t))
            }
        },
        (ImportDesc::Mem(t), Some(ExportInst::Mem(a))) => {
            if a >= store.mems.len() {
                None
            } else {
                Some(!store.mems[a].get_type().incompatible(t))
            }
        },
        (ImportDesc::Global(t), Some(ExportInst::Global(a))) => {
            if a >= store.globals.len() {
                None
            } else {
                Some(*store.globals[a].get_type() == *t)
            }
        },
        _ => None,
    };
    match (fits, found) {
        (Some(true), Some(e)) => Ok(e),
        (Some(_), _) => Err(LinkError::IncompatibleImportType),
        (None, _) => Err(LinkError::ItemNotFound(module_name.to_owned(), item_name.to_owned())),
    }
}

/// The value of a constant expression: of its first instruction, which
/// must be a constant, the reading of a global, or a reference. Any
/// other instruction, and an empty expression, is `Unreachable`. The
/// expression is read by a machine that knows the functions and the
/// globals at the given addresses, the globals of the store being `insts`.
pub open spec fn spec_const(
    expr: Seq<Instruction>,
    funcs: Seq<usize>,
    globals: Seq<usize>,
    insts: Seq<GlobalInst>,
) -> VMState<ValInst> {
    if expr.len() == 0 {
        Err(VmError::Inst(InstError::Unreachable))
    } else {
        match expr[0] {
            Instruction::I32Const(x) => Ok(ValInst::I32(x)),
            Instruction::I64Const(x) => Ok(ValInst::I64(x)),
            Instruction::F32Const(x) => Ok(ValInst::F32(x)),
            Instruction::F64Const(x) => Ok(ValInst::F64(x)),
            Instruction::V128Const(x) => Ok(ValInst::V128(x)),
            Instruction::GlobalGet(idx) => if idx < globals.len() && globals[idx as int]
                < insts.len() {
                Ok(insts[globals[idx as int] as int].spec_value())
            } else {
                Err(VmError::Trap(Trap::OutofRange))
            },
            Instruction::RefNull(v) => if v as u8 == 0x70 {
                Ok(ValInst::FuncRef(None))
            } else if v as u8 == 0x6f {
                Ok(ValInst::ExternRef(None))
            } else {
                Err(VmError::Trap(Trap::InvalidRef))
            },
            Instruction::RefFunc(idx) => if idx < funcs.len() {
                Ok(ValInst::FuncRef(Some(funcs[idx as int])))
            } else {
                Err(VmError::Trap(Trap::FnNotFound))
            },
            _ => Err(VmError::Inst(InstError::Unreachable)),
        }
    }
}

/// The value of a constant expression that a machine reads.
pub open spec fn spec_eval_const(vm: VM, store: &Store, expr: Seq<Instruction>) -> VMState<
    ValInst,
> {
    spec_const(expr, vm.funcs@, vm.globals@, store.globals@)
}

/// Whether the values are of the types, one for one.
pub open spec fn spec_typed(vals: Seq<ValInst>, types: Seq<ValType>) -> bool {
    vals.len() == types.len() && forall|i: int|
        0 <= i < vals.len() ==> (#[trigger] vals[i]).spec_type() == types[i]
}

/// Whether the values are of the types, one for one.
pub fn typed(vals: &[ValInst], types: &Vec<ValType>) -> (r: bool)
    requires
        vals@.len() == types@.len(),
    ensures
        r == spec_typed(vals@, types@),
{
    let mut i: usize = 0;
    while i < vals.len()
        invariant
            i <= vals@.len(),
            vals@.len() == types@.len(),
            forall|j: int| 0 <= j < i ==> (#[trigger] vals@[j]).spec_type() == types@[j],
        decreases vals@.len() - i,
    {
        if vals[i].get_type() != types[i] {
            return false;
        }
        i += 1;
    }
    true
}

impl VM {
    /// A machine for a module, without instances yet. Its id is its name,
    /// a hyphen and ten letters and digits chosen at random.
    pub fn empty(name: &str, module: Module) -> (r: Self)
        ensures
            r.name@ == name@,
            r.module == module,
            r.operands@.len() == 0,
            r.frames@.len() == 0,
            r.funcs@.len() == 0,
            r.tables@.len() == 0,
            r.mems@.len() == 0,
            r.globals@.len() == 0,
            r.exports@.len() == 0,
            r.datas@.len() == 0,
            r.elements@.len() == 0,
            r.local_idx == 0,
            r.mem_idx == 0,
            r.id@.len() == name@.len() + 11,
            r.id@.take(name@.len() as int) == name@,
            r.id@[name@.len() as int] == '-',
            forall|i: int|
                name@.len() < i < r.id@.len() ==> crate::execution::is_alphanumeric(
                    #[trigger] r.id@[i],
                ),
    {
        let mut id = name.to_owned();
        id.append("-");
        let tail = random_str(10);
        id.append(tail.as_str());
        proof {
            reveal_strlit("-");
            assert(id@ =~= name@ + seq!['-'] + tail@);
            assert(id@.take(name@.len() as int) =~= name@);
            assert forall|i: int| name@.len() < i < id@.len() implies crate::execution::is_alphanumeric(
                #[trigger] id@[i],
            ) by {
                assert(id@[i] == tail@[i - name@.len() - 1]);
            }
        }
        VM {
            id,
            name: name.to_owned(),
            module,
            operands: Vec::new(),
            frames: Vec::new(),
            funcs: Vec::new(),
            tables: Vec::new(),
            mems: Vec::new(),
            globals: Vec::new(),
            exports: Vec::new(),
            datas: Vec::new(),
            elements: Vec::new(),
            local_idx: 0,
            mem_idx: 0,
        }
    }

    /// Empties the two stacks.
    pub fn reset(&mut self)
        ensures
            final(self).operands@.len() == 0,
            final(self).frames@.len() == 0,
            final(self).local_idx == old(self).local_idx,
            final(self).same_instance(old(self)),
    {
        self.operands = Vec::new();
        self.frames = Vec::new();
    }

    /// What adopting an instance that an importer offers does: a table, a
    /// memory or a global becomes known to the machine by its address; of
    /// a function a copy is put into the store that names the host module
    /// and the name under which it offers the function.
    pub open spec fn adopted(
        before: VM,
        store: Store,
        inst: ExportInst,
        host: Seq<char>,
        name: Seq<char>,
        after: VM,
        stored: Store,
    ) -> bool {
        &&& after.operands == before.operands
        &&& after.frames == before.frames
        &&& after.module == before.module
        &&& after.id == before.id
        &&& after.name == before.name
        &&& after.datas == before.datas
        &&& after.elements == before.elements
        &&& after.exports == before.exports
        &&& stored.tables == store.tables
        &&& stored.mems == store.mems
        &&& stored.globals == store.globals
        &&& match inst {
            ExportInst::Func(a) => {
                &&& after.funcs@ == before.funcs@.push(store.funcs@.len() as usize)
                &&& stored.funcs@.len() == store.funcs@.len() + 1
                &&& stored.funcs@.take(store.funcs@.len() as int) == store.funcs@
                &&& stored.funcs@.last().type_.same(&store.funcs@[a as int].type_)
                &&& stored.funcs@.last().id@ == store.funcs@[a as int].id@
                &&& stored.funcs@.last().kind matches FuncInstKind::Outer(h, n) && h@
                    == host && n@ == name
                &&& after.tables == before.tables
                &&& after.mems == before.mems
                &&& after.globals == before.globals
            },
            ExportInst::Table(a) => after.tables@ == before.tables@.push(a) && after.funcs == before.funcs && after.mems == before.mems && after.globals == before.globals && stored.funcs == store.funcs,
            ExportInst::Mem(a) => after.mems@ == before.mems@.push(a) && after.funcs == before.funcs && after.tables == before.tables && after.globals == before.globals && stored.funcs == store.funcs,
            ExportInst::Global(a) => after.globals@ == before.globals@.push(a)
                && after.funcs == before.funcs && after.tables == before.tables && after.mems == before.mems && stored.funcs == store.funcs,
        }
    }

    /// Adopts an instance that the linker let pass: its address joins the
    /// functions, tables, memories or globals of the module. An imported
    /// function is entered into the store once more, as a function that is
    /// run by calling the importer `host` under the name `name`.
    pub fn adopt(&mut self, store: &mut Store, inst: ExportInst, host: &str, name: &str)
        requires
            inst matches ExportInst::Func(a) ==> a < old(store).funcs@.len(),
        ensures
            Self::adopted(
                *old(self),
                *old(store),
                inst,
                host@,
                name@,
                *final(self),
                *final(store),
            ),
    {
        match inst {
            ExportInst::Func(a) => {
                let outer = store.funcs[a].as_outer(host, name);
                let addr = store.alloc_func(outer);
                self.funcs.push(addr);
                proof {
                    assert(store.funcs@.take(old(store).funcs@.len() as int) =~= old(store).funcs@);
                }
            },
            ExportInst::Table(a) => {
                self.tables.push(a);
            },
            ExportInst::Mem(a) => {
                self.mems.push(a);
            },
            ExportInst::Global(a) => {
                self.globals.push(a);
            },
        }
    }

    /// Links one import against the importer that supplies it.
    pub fn resolve_import<I: Importer>(
        &mut self,
        store: &mut Store,
        desc: &ImportDesc,
        item_name: &str,
        importer: &I,
    ) -> (r: Result<(), LinkError>)
        ensures
            final(store).tables == old(store).tables,
            final(store).mems == old(store).mems,
            final(store).globals == old(store).globals,
            final(store).funcs@.len() >= old(store).funcs@.len(),
            final(store).funcs@.take(old(store).funcs@.len() as int) == old(store).funcs@,
            final(self).operands == old(self).operands,
            final(self).frames == old(self).frames,
            final(self).module == old(self).module,
            final(self).id == old(self).id,
            final(self).name == old(self).name,
            final(self).datas == old(self).datas,
            final(self).elements == old(self).elements,
            final(self).exports == old(self).exports,
            r is Err ==> final(self).funcs == old(self).funcs && final(self).tables == old(self).tables && final(self).mems == old(self).mems && final(self).globals == old(self).globals && *final(store) == *old(store),
            r is Ok ==> final(self).funcs@.len() + final(self).tables@.len() + final(self).mems@.len() + final(self).globals@.len() == old(self).funcs@.len() + old(self).tables@.len() + old(self).mems@.len() + old(self).globals@.len() + 1,
            r is Ok ==> exists|inst: ExportInst, host: Seq<char>|
                spec_link(*desc, Some(inst), old(store), old(self).module.type_sec@) == Ok::<
                    ExportInst,
                    bool,
                >(inst) && #[trigger] Self::adopted(
                    *old(self),
                    *old(store),
                    inst,
                    host,
                    item_name@,
                    *final(self),
                    *final(store),
                ),
            r is Err ==> exists|found: Option<ExportInst>| #[trigger]
                spec_link(*desc, found, old(store), old(self).module.type_sec@) is Err,
    {
        let module_name = importer.get_name();
        let host = importer.get_id();
        let found = match desc {
            ImportDesc::Func(_) => match importer.resolve_func(item_name) {
                Some(a) => Some(ExportInst::Func(a)),
                None => None,
            },
            ImportDesc::Table(_) => match importer.resolve_table(item_name) {
                Some(a) => Some(ExportInst::Table(a)),
                None => None,
            },
            ImportDesc::Mem(_) => match importer.resolve_mem(item_name) {
                Some(a) => Some(ExportInst::Mem(a)),
                None => None,
            },
            ImportDesc::Global(_) => match importer.resolve_global(item_name) {
                Some(a) => Some(ExportInst::Global(a)),
                None => None,
            },
        };
        let inst = link(
            desc,
            found,
            store,
            &self.module.type_sec,
            module_name.as_str(),
            item_name,
        )?;
        self.adopt(store, inst, host.as_str(), item_name);
        proof {
            assert(store.funcs@.take(old(store).funcs@.len() as int) =~= old(store).funcs@);
        }
        Ok(())
    }

    /// The value of a constant expression.
    pub fn eval_const(&self, store: &Store, expr: &Expr) -> (r: VMState<ValInst>)
        ensures
            r == spec_eval_const(*self, store, expr@),
    {
        if expr.len() == 0 {
            return Err(VmError::Inst(InstError::Unreachable));
        }
        match &expr[0] {
            Instruction::I32Const(x) => Ok(ValInst::I32(*x)),
            Instruction::I64Const(x) => Ok(ValInst::I64(*x)),
            Instruction::F32Const(x) => Ok(ValInst::F32(*x)),
            Instruction::F64Const(x) => Ok(ValInst::F64(*x)),
            Instruction::V128Const(x) => Ok(ValInst::V128(*x)),
            Instruction::GlobalGet(idx) => match self.global(store, *idx as usize) {
                Some(a) => Ok(store.globals[a].value()),
                None => Err(VmError::Trap(Trap::OutofRange)),
            },
            Instruction::RefNull(v) => {
                let code = *v as u8;
                if code == 0x70 {
                    Ok(ValInst::FuncRef(None))
                } else if code == 0x6f {
                    Ok(ValInst::ExternRef(None))
                } else {
                    Err(VmError::Trap(Trap::InvalidRef))
                }
            },
            Instruction::RefFunc(idx) => {
                if (*idx as usize) < self.funcs.len() {
                    Ok(ValInst::FuncRef(Some(self.funcs[*idx as usize])))
                } else {
                    Err(VmError::Trap(Trap::FnNotFound))
                }
            },
            _ => Err(VmError::Inst(InstError::Unreachable)),
        }
    }

    /// Pushes the arguments of a call after checking them against the
    /// types of the parameters: another number of values is `ArgNotEq`,
    /// and a value of another type `ValTypeNotEq`.
    pub fn push_n_and_check_type(&mut self, val_types: &Vec<ValType>, vals: ValInsts) -> (r:
        VMState)
        ensures
            final(self).same_but_operands(old(self)),
            vals@.len() != val_types@.len() ==> r == Err::<(), VmError>(
                VmError::Trap(Trap::ArgNotEq),
            ) && final(self).operands == old(self).operands,
            vals@.len() == val_types@.len() && !spec_typed(vals@, val_types@) ==> r == Err::<
                (),
                VmError,
            >(VmError::Trap(Trap::ValTypeNotEq)) && final(self).operands == old(self).operands,
            spec_typed(vals@, val_types@) ==> r is Ok && final(self).operands@ == old(self).operands@ + vals@,
    {
        if val_types.len() != vals.len() {
            return Err(VmError::Trap(Trap::ArgNotEq));
        }
        if !typed(vals.as_slice(), val_types) {
            return Err(VmError::Trap(Trap::ValTypeNotEq));
        }
        self.push_n(vals);
        Ok(())
    }

    /// What popping values of the given types gives: fewer operands are
    /// `ArgNotEq`, a value of another type is `ValTypeNotEq`, and else the
    /// top operands leave the stack in their order.
    pub open spec fn popped_is(
        before: VM,
        types: Seq<ValType>,
        r: VMState<ValInsts>,
        after: VM,
    ) -> bool {
        let n = before.operands@.len();
        if n < types.len() {
            r == Err::<ValInsts, VmError>(VmError::Trap(Trap::ArgNotEq)) && after.operands@
                == before.operands@
        } else {
            let top = before.operands@.skip(n - types.len());
            if spec_typed(top, types) {
                r is Ok && r->Ok_0@ == top && after.operands@ == before.operands@.take(
                    n - types.len(),
                )
            } else {
                r == Err::<ValInsts, VmError>(VmError::Trap(Trap::ValTypeNotEq))
                    && after.operands@ == before.operands@
            }
        }
    }

    /// The arguments of a call as mathematical values.
    pub open spec fn spec_args(args: Option<ValInsts>) -> Option<Seq<ValInst>> {
        match args {
            Some(vals) => Some(vals@),
            None => None,
        }
    }

    /// What beginning a call of the function at `addr` gives: an address
    /// beyond the store is `FnNotFound`; arguments that a call from outside
    /// brings are checked against the parameters and pushed; then the
    /// function is entered or handed to the driver.
    pub open spec fn invoked_is(
        before: VM,
        store: &Store,
        addr: RFuncInst,
        args: Option<Seq<ValInst>>,
        r: VMState<Step>,
        after: VM,
    ) -> bool {
        if addr >= store.funcs@.len() {
            r == Err::<Step, VmError>(VmError::Trap(Trap::FnNotFound)) && after.stacks()
                == before.stacks()
        } else {
            match args {
                None => call_is(
                    before.stacks(),
                    spec_call_func(before.stacks(), store.funcs@[addr as int], addr, before.id@),
                    addr,
                    r,
                    after.stacks(),
                ),
                Some(vals) => if vals.len() != store.funcs@[addr as int].type_.params@.len() {
                    r == Err::<Step, VmError>(VmError::Trap(Trap::ArgNotEq)) && after.stacks()
                        == before.stacks()
                } else if !spec_typed(vals, store.funcs@[addr as int].type_.params@) {
                    r == Err::<Step, VmError>(VmError::Trap(Trap::ValTypeNotEq))
                        && after.stacks() == before.stacks()
                } else {
                    call_is(
                        super::vm::with_operands(before.stacks(), before.operands@ + vals),
                        spec_call_func(
                            super::vm::with_operands(
                                before.stacks(),
                                before.operands@ + vals,
                            ),
                            store.funcs@[addr as int],
                            addr,
                            before.id@,
                        ),
                        addr,
                        r,
                        after.stacks(),
                    )
                },
            }
        }
    }

    /// What beginning a call gives to a caller that also learns the
    /// address of the function.
    pub open spec fn begun_is(
        before: VM,
        store: &Store,
        addr: RFuncInst,
        args: Option<Seq<ValInst>>,
        r: VMState<(Step, RFuncInst)>,
        after: VM,
    ) -> bool {
        match r {
            Ok((step, a)) => a == addr && Self::invoked_is(
                before,
                store,
                addr,
                args,
                Ok(step),
                after,
            ),
            Err(e) => Self::invoked_is(before, store, addr, args, Err(e), after),
        }
    }

    /// Pops the results of a call and checks them against the types of
    /// the results: fewer operands are `ArgNotEq`, and a value of another
    /// type is `ValTypeNotEq`.
    pub fn pop_n_and_check_type(&mut self, val_types: &Vec<ValType>) -> (r: VMState<ValInsts>)
        ensures
            final(self).same_but_operands(old(self)),
            Self::popped_is(*old(self), val_types@, r, *final(self)),
    {
        let n = val_types.len();
        if self.operands.len() < n {
            return Err(VmError::Trap(Trap::ArgNotEq));
        }
        let len = self.operands.len();
        let top = vstd::slice::slice_subrange(self.operands.as_slice(), len - n, len);
        proof {
            assert(top@ =~= self.operands@.skip(len - n));
        }
        if !typed(top, val_types) {
            return Err(VmError::Trap(Trap::ValTypeNotEq));
        }
        Ok(self.pop_n(n))
    }

    /// Begins a call of the function at an address of the store. With
    /// arguments, which a call from outside brings, they are checked
    /// against the parameters and pushed first. The call then goes on by
    /// steps, or is handed to the driver.
    pub fn invoke(&mut self, store: &Store, addr: RFuncInst, args: Option<ValInsts>) -> (r:
        VMState<Step>)
        ensures
            final(self).same_instance(old(self)),
            Self::invoked_is(*old(self), store, addr, Self::spec_args(args), r, *final(self)),
    {
        if addr >= store.funcs.len() {
            return Err(VmError::Trap(Trap::FnNotFound));
        }
        if let Some(vals) = args {
            match self.push_n_and_check_type(&store.funcs[addr].type_.params, vals) {
                Ok(_) => {},
                Err(e) => {
                    return Err(e);
                },
            }
        }
        self.call_func(store, addr)
    }

    /// Ends a call that was begun with arguments: takes its results off
    /// the operands.
    pub fn finish_invoke(&mut self, store: &Store, addr: RFuncInst) -> (r: VMState<ValInsts>)
        ensures
            final(self).same_but_operands(old(self)),
            addr >= store.funcs@.len() ==> r == Err::<ValInsts, VmError>(
                VmError::Trap(Trap::FnNotFound),
            ) && final(self).operands@ == old(self).operands@,
            addr < store.funcs@.len() ==> Self::popped_is(
                *old(self),
                store.funcs@[addr as int].type_.results@,
                r,
                *final(self),
            ),
    {
        if addr >= store.funcs.len() {
            return Err(VmError::Trap(Trap::FnNotFound));
        }
        self.pop_n_and_check_type(&store.funcs[addr].type_.results)
    }

    /// The export with the given name: the last one, if the name is used
    /// more than once.
    pub fn find_export(&self, name: &str) -> (r: Option<ExportDesc>)
        ensures
            r == self.spec_export(name@),
    {
        let mut i: usize = self.exports.len();
        while i > 0
            invariant
                i <= self.exports@.len(),
                forall|j: int| i <= j < self.exports@.len() ==> (#[trigger] self.exports@[j]).name@
                    != name@,
            decreases i,
        {
            i -= 1;
            if str_eq(self.exports[i].name.as_str(), name) {
                proof {
                    self.lemma_last_export_is_unique(name@);
                }
                return Some(self.exports[i].desc);
            }
        }
        None
    }

    /// Begins a call of the exported function with the given name. A name
    /// that is not exported, or that names no function of the module, is
    /// `FnNotFound`.
    pub fn call_by_name(&mut self, store: &Store, name: &str, args: ValInsts) -> (r: VMState<
        (Step, RFuncInst),
    >)
        ensures
            final(self).same_instance(old(self)),
            match old(self).spec_func_export(name@) {
                None => r == Err::<(Step, RFuncInst), VmError>(VmError::Trap(Trap::FnNotFound))
                    && final(self).stacks() == old(self).stacks(),
                Some(addr) => Self::begun_is(
                    *old(self),
                    store,
                    addr,
                    Some(args@),
                    r,
                    *final(self),
                ),
            },
    {
        let addr = match self.resolve_func(name) {
            Some(addr) => addr,
            None => {
                return Err(VmError::Trap(Trap::FnNotFound));
            },
        };
        match self.invoke(store, addr, Some(args)) {
            Ok(step) => Ok((step, addr)),
            Err(e) => Err(e),
        }
    }

    /// What is exported under a name: what the last export of that name
    /// names, if there is one.
    pub open spec fn spec_export(&self, name: Seq<char>) -> Option<ExportDesc> {
        if exists|i: int|
            0 <= i < self.exports@.len() && (#[trigger] self.exports@[i]).name@ == name {
            let i = choose|i: int|
                0 <= i < self.exports@.len() && (#[trigger] self.exports@[i]).name@ == name
                    && forall|j: int|
                    i < j < self.exports@.len() ==> (#[trigger] self.exports@[j]).name@ != name;
            Some(self.exports@[i].desc)
        } else {
            None
        }
    }

    /// The address of the function that is exported under a name, if the
    /// last export of that name is a function of the module.
    pub open spec fn spec_func_export(&self, name: Seq<char>) -> Option<RFuncInst> {
        match self.spec_export(name) {
            Some(ExportDesc::Func(idx)) => if idx < self.funcs@.len() {
                Some(self.funcs@[idx as int])
            } else {
                None
            },
            _ => None,
        }
    }

    /// The address of the table that is exported under a name.
    pub open spec fn spec_table_export(&self, name: Seq<char>) -> Option<RTableInst> {
        match self.spec_export(name) {
            Some(ExportDesc::Table(idx)) => if idx < self.tables@.len() {
                Some(self.tables@[idx as int])
            } else {
                None
            },
            _ => None,
        }
    }

    /// The address of the memory that is exported under a name.
    pub open spec fn spec_mem_export(&self, name: Seq<char>) -> Option<RMemInst> {
        match self.spec_export(name) {
            Some(ExportDesc::Mem(idx)) => if idx < self.mems@.len() {
                Some(self.mems@[idx as int])
            } else {
                None
            },
            _ => None,
        }
    }

    /// The address of the global that is exported under a name.
    pub open spec fn spec_global_export(&self, name: Seq<char>) -> Option<RGlobalInst> {
        match self.spec_export(name) {
            Some(ExportDesc::Global(idx)) => if idx < self.globals@.len() {
                Some(self.globals@[idx as int])
            } else {
                None
            },
            _ => None,
        }
    }

    /// Begins the call of the start function, if the module has one.
    pub fn call_start(&mut self, store: &Store) -> (r: VMState<Option<(Step, RFuncInst)>>)
        ensures
            final(self).same_instance(old(self)),
            match old(self).module.start_sec {
                None => r matches Ok(None) && final(self).stacks() == old(self).stacks(),
                Some(idx) => if idx >= old(self).funcs@.len() {
                    r == Err::<Option<(Step, RFuncInst)>, VmError>(VmError::Trap(Trap::FnNotFound))
                        && final(self).stacks() == old(self).stacks()
                } else {
                    match r {
                        Ok(Some(begun)) => Self::begun_is(
                            *old(self),
                            store,
                            old(self).funcs@[idx as int],
                            Some(Seq::empty()),
                            Ok(begun),
                            *final(self),
                        ),
                        Ok(None) => false,
                        Err(e) => Self::begun_is(
                            *old(self),
                            store,
                            old(self).funcs@[idx as int],
                            Some(Seq::empty()),
                            Err(e),
                            *final(self),
                        ),
                    }
                },
            },
    {
        match self.module.start_sec {
            None => Ok(None),
            Some(idx) => {
                if (idx as usize) >= self.funcs.len() {
                    return Err(VmError::Trap(Trap::FnNotFound));
                }
                let addr = self.funcs[idx as usize];
                match self.invoke(store, addr, Some(Vec::new())) {
                    Ok(step) => Ok(Some((step, addr))),
                    Err(e) => Err(e),
                }
            },
        }
    }
}

/// Copies the runs of locals.
fn copy_locals(locals: &Vec<Locals>) -> (r: Vec<Locals>)
    ensures
        r@ == locals@,
{
    let mut out: Vec<Locals> = Vec::new();
    let mut i: usize = 0;
    while i < locals.len()
        invariant
            i <= locals@.len(),
            out@ == locals@.take(i as int),
        decreases locals@.len() - i,
    {
        out.push(locals[i]);
        proof {
            assert(locals@.take(i + 1) =~= locals@.take(i as int).push(locals@[i as int]));
        }
        i += 1;
    }
    proof {
        assert(locals@.take(locals@.len() as int) =~= locals@);
    }
    out
}

/// The address that the offset of an active segment stands for: a 32-bit
/// number is read as unsigned. A value of another type is `ValTypeNotEq`.
pub open spec fn spec_offset(v: ValInst) -> Result<u32, VmError> {
    match v {
        ValInst::I32(x) => Ok(x as u32),
        _ => Err(VmError::Trap(Trap::ValTypeNotEq)),
    }
}

fn offset_of(v: ValInst) -> (r: Result<u32, VmError>)
    ensures
        r == spec_offset(v),
{
    match v {
        ValInst::I32(x) => Ok(x as u32),
        _ => Err(VmError::Trap(Trap::ValTypeNotEq)),
    }
}

impl VM {
    /// Links the imports of the module in their order, each against the
    /// first importer that has the name the import asks for. An import
    /// without such an importer is `ModuleNotFound`.
    pub fn resolve_imports<I: Importer>(&mut self, store: &mut Store, importers: &Vec<I>) -> (r:
        Result<(), LinkError>)
        ensures
            final(store).tables == old(store).tables,
            final(store).mems == old(store).mems,
            final(store).globals == old(store).globals,
            final(store).funcs@.len() >= old(store).funcs@.len(),
            final(store).funcs@.take(old(store).funcs@.len() as int) == old(store).funcs@,
            final(self).operands == old(self).operands,
            final(self).frames == old(self).frames,
            final(self).module == old(self).module,
            final(self).id == old(self).id,
            final(self).name == old(self).name,
            final(self).datas == old(self).datas,
            final(self).elements == old(self).elements,
            final(self).exports == old(self).exports,
            r is Ok ==> final(self).funcs@.len() + final(self).tables@.len() + final(self).mems@.len() + final(self).globals@.len() == old(self).funcs@.len() + old(self).tables@.len() + old(self).mems@.len() + old(self).globals@.len() + old(self).module.import_sec@.len(),
            old(self).module.import_sec@.len() == 0 ==> r is Ok && final(self).funcs == old(self).funcs && final(self).tables == old(self).tables && final(self).mems == old(self).mems && final(self).globals == old(self).globals && *final(store) == *old(store),
            old(self).module.import_sec@.len() > 0 && importers@.len() == 0 ==> (r matches Err(
                LinkError::ModuleNotFound(wanted),
            ) && wanted@ == old(self).module.import_sec@[0].module@),
    {
        let total = self.module.import_sec.len();
        let mut i: usize = 0;
        proof {
            assert(store.funcs@.take(store.funcs@.len() as int) =~= store.funcs@);
        }
        while i < total
            invariant
                i <= total,
                total == self.module.import_sec@.len(),
                self.operands == old(self).operands,
                self.frames == old(self).frames,
                self.module == old(self).module,
                self.id == old(self).id,
                self.name == old(self).name,
                self.datas == old(self).datas,
                self.elements == old(self).elements,
                self.exports == old(self).exports,
                self.funcs@.len() + self.tables@.len() + self.mems@.len() + self.globals@.len()
                    == old(self).funcs@.len() + old(self).tables@.len() + old(self).mems@.len()
                    + old(self).globals@.len() + i,
                i == 0 ==> self.funcs == old(self).funcs && self.tables == old(self).tables
                    && self.mems == old(self).mems && self.globals == old(self).globals && *store
                    == *old(store),
                i > 0 ==> importers@.len() > 0,
                store.tables == old(store).tables,
                store.mems == old(store).mems,
                store.globals == old(store).globals,
                store.funcs@.len() >= old(store).funcs@.len(),
                store.funcs@.take(old(store).funcs@.len() as int) == old(store).funcs@,
            decreases total - i,
        {
            let desc = self.module.import_sec[i].desc;
            let wanted = self.module.import_sec[i].module.clone();
            let item = self.module.import_sec[i].name.clone();
            let mut k: usize = 0;
            let mut found: Option<usize> = None;
            while k < importers.len() && found.is_none()
                invariant
                    k <= importers@.len(),
                    found matches Some(at) ==> at < importers@.len(),
                decreases importers@.len() - k + if found is None {
                    1nat
                } else {
                    0nat
                },
            {
                let name = importers[k].get_name();
                if name == wanted {
                    found = Some(k);
                } else {
                    k += 1;
                }
            }
            let ghost before = store.funcs@;
            match found {
                Some(at) => {
                    self.resolve_import(store, &desc, item.as_str(), &importers[at])?;
                    proof {
                        assert(store.funcs@.take(old(store).funcs@.len() as int) =~= before.take(
                            old(store).funcs@.len() as int,
                        ));
                    }
                },
                None => {
                    return Err(LinkError::ModuleNotFound(wanted));
                },
            }
            i += 1;
        }
        Ok(())
    }

    /// Why the function `i` that the module defines cannot be allocated,
    /// if it cannot: its type is not among the types of the module
    /// (`OutofRange`), or there is no code for it (`FnNoBody`).
    pub open spec fn spec_func_error(&self, i: int) -> Option<VmError> {
        if self.module.func_sec@[i] >= self.module.type_sec@.len() {
            Some(VmError::Trap(Trap::OutofRange))
        } else if i >= self.module.code_sec@.len() {
            Some(VmError::Trap(Trap::FnNoBody))
        } else {
            None
        }
    }

    /// What allocating the functions of a module does: `after` is `before`
    /// with the functions up to the first that cannot be allocated, whose
    /// error is the result; without such a function, with all of them.
    pub open spec fn funcs_done(before: VM, store: Store, r: VMState, after: VM, stored: Store) -> bool {
        &&& after.operands == before.operands
        &&& after.frames == before.frames
        &&& after.module == before.module
        &&& after.id == before.id
        &&& after.name == before.name
        &&& after.tables == before.tables
        &&& after.mems == before.mems
        &&& after.globals == before.globals
        &&& after.datas == before.datas
        &&& after.elements == before.elements
        &&& after.exports == before.exports
        &&& stored.tables == store.tables
        &&& stored.mems == store.mems
        &&& stored.globals == store.globals
        &&& stored.funcs@.len() >= store.funcs@.len()
        &&& stored.funcs@.take(store.funcs@.len() as int) == store.funcs@
        &&& after.funcs@.len() >= before.funcs@.len()
        &&& after.funcs@.take(before.funcs@.len() as int) == before.funcs@
        &&& stored.funcs@.len() - store.funcs@.len() == after.funcs@.len() - before.funcs@.len()
        &&& forall|i: int|
            0 <= i < after.funcs@.len() - before.funcs@.len() ==> {
                let f = stored.funcs@[(#[trigger] after.funcs@[before.funcs@.len() + i]) as int];
                &&& before.spec_func_error(i) is None
                &&& after.funcs@[before.funcs@.len() + i] == store.funcs@.len()
                    + i
                &&& f.from@ == before.id@
                &&& f.type_.same(
                    &before.module.type_sec@[before.module.func_sec@[i] as int],
                )
                &&& f.kind matches FuncInstKind::Inner(at, code) && at == i && code.body
                    == before.module.code_sec@[i].body && code.locals@ == before.module.code_sec@[i].locals@
            }
        &&& match r {
            Ok(_) => after.funcs@.len() == before.funcs@.len() + before.module.func_sec@.len(),
            Err(e) => after.funcs@.len() < before.funcs@.len() + before.module.func_sec@.len() && before.spec_func_error(
                after.funcs@.len() - before.funcs@.len(),
            ) == Some(e),
        }
    }

    /// Allocates the functions of the module's own: function `i` gets the
    /// type that the function section names for it and the code entry
    /// `i`. A type that is not there is `OutofRange`, a code entry that is
    /// not there `FnNoBody`.
    pub fn init_funcs(&mut self, store: &mut Store) -> (r: VMState)
        ensures
            Self::funcs_done(*old(self), *old(store), r, *final(self), *final(store)),
    {
        let total = self.module.func_sec.len();
        let ghost base = self.funcs@.len();
        let ghost store_base = store.funcs@.len();
        let mut i: usize = 0;
        proof {
            assert(store.funcs@.take(store_base as int) =~= old(store).funcs@);
            assert(self.funcs@.take(base as int) =~= old(self).funcs@);
        }
        while i < total
            invariant
                i <= total,
                total == self.module.func_sec@.len(),
                base == old(self).funcs@.len(),
                store_base == old(store).funcs@.len(),
                self.operands == old(self).operands,
                self.frames == old(self).frames,
                self.module == old(self).module,
                self.id == old(self).id,
                self.name == old(self).name,
                self.tables == old(self).tables,
                self.mems == old(self).mems,
                self.globals == old(self).globals,
                self.datas == old(self).datas,
                self.elements == old(self).elements,
                self.exports == old(self).exports,
                store.tables == old(store).tables,
                store.mems == old(store).mems,
                store.globals == old(store).globals,
                store.funcs@.len() == store_base + i,
                store.funcs@.take(store_base as int) == old(store).funcs@,
                self.funcs@.len() == base + i,
                self.funcs@.take(base as int) == old(self).funcs@,
                forall|k: int|
                    0 <= k < i ==> {
                        let f = store.funcs@[(#[trigger] self.funcs@[base + k]) as int];
                        &&& old(self).spec_func_error(k) is None
                        &&& self.funcs@[base + k] == store_base + k
                        &&& f.from@ == self.id@
                        &&& f.type_.same(&self.module.type_sec@[self.module.func_sec@[k] as int])
                        &&& f.kind matches FuncInstKind::Inner(at, code) && at == k && code.body
                            == self.module.code_sec@[k].body && code.locals@
                            == self.module.code_sec@[k].locals@
                    },
            decreases total - i,
        {
            let ft_idx = self.module.func_sec[i] as usize;
            if ft_idx >= self.module.type_sec.len() {
                return Err(VmError::Trap(Trap::OutofRange));
            }
            if i >= self.module.code_sec.len() {
                return Err(VmError::Trap(Trap::FnNoBody));
            }
            let ft = self.module.type_sec[ft_idx].duplicate();
            let code = &self.module.code_sec[i];
            let copy = CodeSeg {
                size: code.size,
                locals: copy_locals(&code.locals),
                body: share(&code.body),
            };
            let func_inst = FuncInst::from_wasm(ft, i, Rc::new(copy), self.id.as_str());
            let ghost before_store = store.funcs@;
            let ghost before_funcs = self.funcs@;
            let addr = store.alloc_func(func_inst);
            self.funcs.push(addr);
            proof {
                assert(store.funcs@.take(store_base as int) =~= before_store.take(
                    store_base as int,
                ));
                assert(self.funcs@.take(base as int) =~= before_funcs.take(base as int));
                assert forall|k: int| 0 <= k < i + 1 implies {
                    let f = store.funcs@[(#[trigger] self.funcs@[base + k]) as int];
                    &&& old(self).spec_func_error(k) is None
                    &&& self.funcs@[base + k] == store_base + k
                    &&& f.from@ == self.id@
                    &&& f.type_.same(&self.module.type_sec@[self.module.func_sec@[k] as int])
                    &&& f.kind matches FuncInstKind::Inner(at, code) && at == k && code.body
                        == self.module.code_sec@[k].body && code.locals@
                        == self.module.code_sec@[k].locals@
                } by {
                    if k < i {
                        assert(self.funcs@[base + k] == before_funcs[base + k]);
                        assert(store.funcs@[store_base + k] == before_store[store_base + k]);
                    }
                }
            }
            i += 1;
        }
        Ok(())
    }

    /// The number of references that the element segment `at` gives: one
    /// for each of its expressions, or for each function that it lists if
    /// it has no expressions.
    pub open spec fn spec_elem_count(&self, at: int) -> int {
        let elem = self.module.elem_sec@[at];
        if elem.init_expr@.len() > 0 {
            elem.init_expr@.len() as int
        } else {
            elem.func_idxs@.len() as int
        }
    }

    /// The reference `j` of the element segment `at`: the value of its
    /// expression, or a reference to the function that it lists. A function
    /// that the machine does not know is `FnNotFound`. In a segment of
    /// external references the index itself is the reference.
    pub open spec fn spec_elem_ref(&self, store: &Store, at: int, j: int) -> VMState<ValInst> {
        let elem = self.module.elem_sec@[at];
        if elem.init_expr@.len() > 0 {
            spec_eval_const(*self, store, elem.init_expr@[j]@)
        } else if elem.func_idxs@[j] >= self.funcs@.len() {
            Err(VmError::Trap(Trap::FnNotFound))
        } else if elem.type_ == ValType::ExternRef {
            Ok(ValInst::ExternRef(Some(elem.func_idxs@[j])))
        } else {
            Ok(ValInst::FuncRef(Some(self.funcs@[elem.func_idxs@[j] as int])))
        }
    }

    /// The first `k` references of the element segment `at`, or the error
    /// of the first of them that has none.
    pub open spec fn spec_elem_refs(&self, store: &Store, at: int, k: int) -> VMState<
        Seq<ValInst>,
    >
        decreases k,
    {
        if k <= 0 {
            Ok(Seq::empty())
        } else {
            match self.spec_elem_refs(store, at, k - 1) {
                Err(e) => Err(e),
                Ok(front) => match self.spec_elem_ref(store, at, k - 1) {
                    Err(e) => Err(e),
                    Ok(v) => Ok(front.push(v)),
                },
            }
        }
    }

    /// An error among the first references is the error of all of them.
    pub proof fn lemma_elem_refs_error_stays(&self, store: &Store, at: int, k: int, n: int)
        requires
            0 <= k <= n,
            self.spec_elem_refs(store, at, k) is Err,
        ensures
            self.spec_elem_refs(store, at, n) == self.spec_elem_refs(store, at, k),
        decreases n - k,
    {
        if k < n {
            self.lemma_elem_refs_error_stays(store, at, k + 1, n);
        }
    }

    /// The references of an element segment: the values of its
    /// expressions, or references to the functions it lists.
    pub fn init_elem_refs(&self, store: &Store, at: usize) -> (r: VMState<ValInsts>)
        requires
            at < self.module.elem_sec@.len(),
        ensures
            match self.spec_elem_refs(store, at as int, self.spec_elem_count(at as int)) {
                Ok(refs) => r is Ok && r->Ok_0@ == refs,
                Err(e) => r == Err::<ValInsts, VmError>(e),
            },
    {
        let elem = &self.module.elem_sec[at];
        let mut refs: Vec<ValInst> = Vec::new();
        let total = if elem.init_is_expr() {
            elem.init_expr.len()
        } else {
            elem.func_idxs.len()
        };
        let mut k: usize = 0;
        while k < total
            invariant
                k <= total,
                at < self.module.elem_sec@.len(),
                *elem == self.module.elem_sec@[at as int],
                total == self.spec_elem_count(at as int),
                self.spec_elem_refs(store, at as int, k as int) == Ok::<Seq<ValInst>, VmError>(
                    refs@,
                ),
            decreases total - k,
        {
            let v = if elem.init_is_expr() {
                match self.eval_const(store, &elem.init_expr[k]) {
                    Ok(v) => v,
                    Err(e) => {
                        proof {
                            assert(self.spec_elem_refs(store, at as int, k + 1) == Err::<
                                Seq<ValInst>,
                                VmError,
                            >(e));
                            self.lemma_elem_refs_error_stays(
                                store,
                                at as int,
                                k + 1,
                                total as int,
                            );
                        }
                        return Err(e);
                    },
                }
            } else {
                let idx = elem.func_idxs[k];
                if (idx as usize) >= self.funcs.len() {
                    proof {
                        assert(self.spec_elem_refs(store, at as int, k + 1) == Err::<
                            Seq<ValInst>,
                            VmError,
                        >(VmError::Trap(Trap::FnNotFound)));
                        self.lemma_elem_refs_error_stays(store, at as int, k + 1, total as int);
                    }
                    return Err(VmError::Trap(Trap::FnNotFound));
                }
                match elem.type_ {
                    ValType::ExternRef => ValInst::new_extern_ref(idx),
                    _ => ValInst::new_func_ref(self.funcs[idx as usize]),
                }
            };
            refs.push(v);
            k += 1;
        }
        Ok(refs)
    }

    /// Where the references of the element segment `at` go: nowhere if it
    /// is passive or declarative; else into the table that it names, at the
    /// offset that its expression gives. A table that is not there, and
    /// references that would lie beyond the table, are `OutofBoundTable`.
    pub open spec fn spec_elem_place(&self, store: &Store, at: int) -> Result<
        Option<(int, u32)>,
        VmError,
    > {
        match self.module.elem_sec@[at].mode {
            ElementMode::Passive => Ok(None),
            ElementMode::Declarative => Ok(None),
            ElementMode::Active { table_idx, offset_expr } => match spec_eval_const(
                *self,
                store,
                offset_expr@,
            ) {
                Err(e) => Err(e),
                Ok(v) => match spec_offset(v) {
                    Err(e) => Err(e),
                    Ok(o) => match self.spec_table(store, table_idx as int) {
                        None => Err(VmError::Inst(InstError::OutofBoundTable)),
                        Some(a) => if o + self.elements@[at].refs@.len()
                            <= store.tables@[a].elems().len() {
                            Ok(Some((a, o)))
                        } else {
                            Err(VmError::Inst(InstError::OutofBoundTable))
                        },
                    },
                },
            },
        }
    }

    /// Applies the element segment `at`, whose instance was made before:
    /// the references of an active segment are written into its table at
    /// its offset, after it was checked that they all lie in the table,
    /// and the segment is dropped; a declarative segment is dropped; a
    /// passive segment stays. References beyond the table, and a table
    /// that is not there, are `OutofBoundTable`.
    pub fn apply_element(&mut self, store: &mut Store, at: usize) -> (r: VMState)
        requires
            at < old(self).module.elem_sec@.len(),
            at < old(self).elements@.len(),
        ensures
            final(self).operands == old(self).operands,
            final(self).frames == old(self).frames,
            final(self).module == old(self).module,
            final(self).id == old(self).id,
            final(self).name == old(self).name,
            final(self).funcs == old(self).funcs,
            final(self).tables == old(self).tables,
            final(self).mems == old(self).mems,
            final(self).globals == old(self).globals,
            final(self).datas == old(self).datas,
            final(self).exports == old(self).exports,
            final(self).elements@.len() == old(self).elements@.len(),
            forall|i: int|
                0 <= i < old(self).elements@.len() && i != at ==> final(self).elements@[i] == old(self).elements@[i],
            final(self).elements@[at as int].type_ == old(self).elements@[at as int].type_,
            final(store).funcs == old(store).funcs,
            final(store).mems == old(store).mems,
            final(store).globals == old(store).globals,
            final(store).tables@.len() == old(store).tables@.len(),
            match old(self).spec_elem_place(old(store), at as int) {
                Err(e) => r == Err::<(), VmError>(e) && final(store).tables@ == old(store).tables@ && final(self).elements@[at as int] == old(self).elements@[at as int],
                Ok(None) => r is Ok && final(store).tables@ == old(store).tables@ && final(self).elements@[at as int].refs@ == if old(self).module.elem_sec@[at as int].mode
                    is Passive {
                    old(self).elements@[at as int].refs@
                } else {
                    Seq::<ValInst>::empty()
                },
                Ok(Some((a, o))) => {
                    let refs = old(self).elements@[at as int].refs@;
                    &&& r is Ok
                    &&& final(self).elements@[at as int].refs@ == Seq::<ValInst>::empty()
                    &&& final(store).tables@[a].spec_type() == old(store).tables@[a].spec_type()
                    &&& Some(final(store).tables@[a].elems()) == spec_set_elems(
                        old(store).tables@[a].elems(),
                        o,
                        refs,
                    )
                    &&& final(store).tables@[a].elems().subrange(o as int, o + refs.len())
                        == refs
                    &&& forall|i: int|
                        0 <= i < old(store).tables@.len() && i != a ==> final(store).tables@[i]
                            == old(store).tables@[i]
                },
            },
    {
        match &self.module.elem_sec[at].mode {
            ElementMode::Passive => Ok(()),
            ElementMode::Declarative => {
                self.elements[at].refs = Vec::new();
                Ok(())
            },
            ElementMode::Active { table_idx, offset_expr } => {
                let offset = offset_of(self.eval_const(store, offset_expr)?)?;
                let a = match self.table(store, *table_idx as usize) {
                    Some(a) => a,
                    None => {
                        return Err(VmError::Inst(InstError::OutofBoundTable));
                    },
                };
                let size = store.tables[a].usize();
                let count = self.elements[at].refs.len();
                if offset as usize > size || count > size - offset as usize {
                    return Err(VmError::Inst(InstError::OutofBoundTable));
                }
                match store.tables[a].set_elems(offset, self.elements[at].refs.as_slice()) {
                    Ok(_) => {},
                    Err(e) => {
                        return Err(e);
                    },
                }
                proof {
                    let refs = old(self).elements@[at as int].refs@;
                    assert(store.tables@[a as int].elems().subrange(
                        offset as int,
                        offset + refs.len(),
                    ) =~= refs);
                }
                self.elements[at].refs = Vec::new();
                Ok(())
            },
        }
    }

    /// Where the data segment `at` goes: nowhere if it is passive; else
    /// into the memory that it names, at the offset that its expression
    /// gives. A memory that is not there, and bytes that would lie beyond
    /// the memory, are `OutofBoundMem`.
    pub open spec fn spec_data_place(&self, store: &Store, at: int) -> Result<
        Option<(int, u32)>,
        VmError,
    > {
        let seg = self.module.data_sec@[at];
        match seg.mode {
            DataMode::Passive => Ok(None),
            DataMode::Active => match spec_eval_const(*self, store, seg.offset_expr@) {
                Err(e) => Err(e),
                Ok(v) => match spec_offset(v) {
                    Err(e) => Err(e),
                    Ok(o) => match self.spec_mem(store, seg.mem_idx as int) {
                        None => Err(VmError::Inst(InstError::OutofBoundMem)),
                        Some(a) => if o + self.datas@[at]@.len() <= store.mems@[a].bytes().len() {
                            Ok(Some((a, o)))
                        } else {
                            Err(VmError::Inst(InstError::OutofBoundMem))
                        },
                    },
                },
            },
        }
    }

    /// Applies the data segment `at`, whose bytes were copied before: the
    /// bytes of an active segment are written into its memory at its
    /// offset and the segment is dropped; a passive segment stays. Bytes
    /// beyond the memory, and a memory that is not there, are
    /// `OutofBoundMem`.
    pub fn apply_data(&mut self, store: &mut Store, at: usize) -> (r: VMState)
        requires
            at < old(self).module.data_sec@.len(),
            at < old(self).datas@.len(),
        ensures
            final(self).operands == old(self).operands,
            final(self).frames == old(self).frames,
            final(self).module == old(self).module,
            final(self).id == old(self).id,
            final(self).name == old(self).name,
            final(self).funcs == old(self).funcs,
            final(self).tables == old(self).tables,
            final(self).mems == old(self).mems,
            final(self).globals == old(self).globals,
            final(self).elements == old(self).elements,
            final(self).exports == old(self).exports,
            final(self).datas@.len() == old(self).datas@.len(),
            forall|i: int|
                0 <= i < old(self).datas@.len() && i != at ==> final(self).datas@[i] == old(self).datas@[i],
            final(store).funcs == old(store).funcs,
            final(store).tables == old(store).tables,
            final(store).globals == old(store).globals,
            final(store).mems@.len() == old(store).mems@.len(),
            match old(self).spec_data_place(old(store), at as int) {
                Err(e) => r == Err::<(), VmError>(e) && final(store).mems@ == old(store).mems@
                    && final(self).datas@[at as int] == old(self).datas@[at as int],
                Ok(None) => r is Ok && final(store).mems@ == old(store).mems@ && final(self).datas@[at as int] == old(self).datas@[at as int],
                Ok(Some((a, o))) => {
                    let bytes = old(self).datas@[at as int]@;
                    &&& r is Ok
                    &&& final(self).datas@[at as int]@ == Seq::<u8>::empty()
                    &&& final(store).mems@[a].spec_type() == old(store).mems@[a].spec_type()
                    &&& Some(final(store).mems@[a].bytes()) == spec_writes(
                        old(store).mems@[a].bytes(),
                        o as u64,
                        bytes,
                    )
                    &&& final(store).mems@[a].bytes().subrange(o as int, o + bytes.len())
                        == bytes
                    &&& forall|i: int|
                        0 <= i < old(store).mems@.len() && i != a ==> final(store).mems@[i]
                            == old(store).mems@[i]
                },
            },
    {
        match self.module.data_sec[at].mode {
            DataMode::Passive => Ok(()),
            DataMode::Active => {
                let offset = offset_of(
                    self.eval_const(store, &self.module.data_sec[at].offset_expr)?,
                )?;
                let idx = self.module.data_sec[at].mem_idx;
                let a = match self.mem(store, idx as usize) {
                    Some(a) => a,
                    None => {
                        return Err(VmError::Inst(InstError::OutofBoundMem));
                    },
                };
                match store.mems[a].mem_writes(offset as u64, self.datas[at].as_slice()) {
                    Ok(_) => {},
                    Err(e) => {
                        return Err(e);
                    },
                }
                proof {
                    let bytes = old(self).datas@[at as int]@;
                    assert(store.mems@[a as int].bytes().subrange(
                        offset as int,
                        offset + bytes.len(),
                    ) =~= bytes);
                }
                self.datas[at] = Vec::new();
                Ok(())
            },
        }
    }
}

impl VM {
    /// Whether `after` is `before` with the tables that the module defines
    /// allocated behind those of the store, each of its least size and of
    /// null references, and known to the machine behind those it had.
    pub open spec fn tables_allocated(before: VM, store: Store, after: VM, grown: Store) -> bool {
        let n = before.module.table_sec@.len();
        let own = before.tables@.len() as int;
        let base = store.tables@.len() as int;
        &&& after.tables@.len() == own + n
        &&& after.tables@.take(own) == before.tables@
        &&& grown.tables@.len() == base + n
        &&& grown.tables@.take(base) == store.tables@
        &&& forall|i: int| 0 <= i < n ==> (#[trigger] after.tables@[own + i]) == base + i
        &&& forall|i: int|
            0 <= i < n ==> (#[trigger] grown.tables@[base + i]).spec_type()
                == before.module.table_sec@[i] && grown.tables@[base + i].elems() == Seq::new(
                before.module.table_sec@[i].limits.min as nat,
                |k: int| spec_null_of(before.module.table_sec@[i].elem_type),
            )
    }

    /// Allocates the tables that the module defines.
    pub fn init_tables(&mut self, store: &mut Store)
        ensures
            final(self).operands == old(self).operands,
            final(self).frames == old(self).frames,
            final(self).module == old(self).module,
            final(self).id == old(self).id,
            final(self).name == old(self).name,
            final(self).funcs == old(self).funcs,
            final(self).mems == old(self).mems,
            final(self).globals == old(self).globals,
            final(self).datas == old(self).datas,
            final(self).exports == old(self).exports,
            final(self).elements == old(self).elements,
            final(store).funcs == old(store).funcs,
            final(store).mems == old(store).mems,
            final(store).globals == old(store).globals,
            Self::tables_allocated(*old(self), *old(store), *final(self), *final(store)),
    {
        let tables = self.module.table_sec.len();
        let ghost own = self.tables@.len() as int;
        let ghost base = store.tables@.len() as int;
        let mut i: usize = 0;
        proof {
            assert(self.tables@.take(own) =~= old(self).tables@);
            assert(store.tables@.take(base) =~= old(store).tables@);
        }
        while i < tables
            invariant
                i <= tables,
                tables == self.module.table_sec@.len(),
                own == old(self).tables@.len(),
                base == old(store).tables@.len(),
                self.operands == old(self).operands,
                self.frames == old(self).frames,
                self.module == old(self).module,
                self.id == old(self).id,
                self.name == old(self).name,
                self.funcs == old(self).funcs,
                self.mems == old(self).mems,
                self.globals == old(self).globals,
                self.datas == old(self).datas,
                self.exports == old(self).exports,
                self.elements == old(self).elements,
                store.funcs == old(store).funcs,
                store.mems == old(store).mems,
                store.globals == old(store).globals,
                self.tables@.len() == own + i,
                self.tables@.take(own) == old(self).tables@,
                store.tables@.len() == base + i,
                store.tables@.take(base) == old(store).tables@,
                forall|k: int| 0 <= k < i ==> (#[trigger] self.tables@[own + k]) == base + k,
                forall|k: int|
                    0 <= k < i ==> (#[trigger] store.tables@[base + k]).spec_type()
                        == self.module.table_sec@[k] && store.tables@[base + k].elems()
                        == Seq::new(
                        self.module.table_sec@[k].limits.min as nat,
                        |j: int| spec_null_of(self.module.table_sec@[k].elem_type),
                    ),
            decreases tables - i,
        {
            let table = TableInst::new(self.module.table_sec[i]);
            let ghost before_tables = self.tables@;
            let ghost before_store = store.tables@;
            let addr = store.alloc_table(table);
            self.tables.push(addr);
            proof {
                assert(self.tables@.take(own) =~= before_tables.take(own));
                assert(store.tables@.take(base) =~= before_store.take(base));
                assert forall|k: int| 0 <= k < i + 1 implies (#[trigger] self.tables@[own + k])
                    == base + k by {
                    if k < i {
                        assert(self.tables@[own + k] == before_tables[own + k]);
                    }
                }
                assert forall|k: int| 0 <= k < i + 1 implies (#[trigger] store.tables@[base
                    + k]).spec_type() == self.module.table_sec@[k] && store.tables@[base
                    + k].elems() == Seq::new(
                    self.module.table_sec@[k].limits.min as nat,
                    |j: int| spec_null_of(self.module.table_sec@[k].elem_type),
                ) by {
                    if k < i {
                        assert(store.tables@[base + k] == before_store[base + k]);
                    }
                }
            }
            i += 1;
        }
    }

    /// All the references of the element segment `at`, or the error of the
    /// first of them that has none.
    pub open spec fn spec_elem_all_refs(&self, store: &Store, at: int) -> VMState<Seq<ValInst>> {
        self.spec_elem_refs(store, at, self.spec_elem_count(at))
    }

    /// Whether `after` is `before` with the instances of the first `m`
    /// element segments made: each has the type of its segment and all its
    /// references.
    pub open spec fn elements_made(before: VM, store: Store, after: VM, m: int) -> bool {
        &&& after.elements@.len() == m
        &&& forall|k: int|
            0 <= k < m ==> (#[trigger] after.elements@[k]).type_
                == before.module.elem_sec@[k].type_ && before.spec_elem_all_refs(&store, k)
                == Ok::<Seq<ValInst>, VmError>(after.elements@[k].refs@)
    }

    /// Makes the instances of the element segments in their order. The
    /// first segment with a reference that has no value ends this with its
    /// error; the instances before it stay.
    pub fn make_elements(&mut self, store: &Store) -> (r: VMState)
        requires
            old(self).elements@.len() == 0,
        ensures
            final(self).operands == old(self).operands,
            final(self).frames == old(self).frames,
            final(self).module == old(self).module,
            final(self).id == old(self).id,
            final(self).name == old(self).name,
            final(self).funcs == old(self).funcs,
            final(self).tables == old(self).tables,
            final(self).mems == old(self).mems,
            final(self).globals == old(self).globals,
            final(self).datas == old(self).datas,
            final(self).exports == old(self).exports,
            Self::elements_made(
                *old(self),
                *store,
                *final(self),
                final(self).elements@.len() as int,
            ),
            match r {
                Ok(_) => final(self).elements@.len() == old(self).module.elem_sec@.len(),
                Err(e) => final(self).elements@.len() < old(self).module.elem_sec@.len() && old(self).spec_elem_all_refs(store, final(self).elements@.len() as int) == Err::<
                    Seq<ValInst>,
                    VmError,
                >(e),
            },
    {
        let elems = self.module.elem_sec.len();
        let mut i: usize = 0;
        while i < elems
            invariant
                i <= elems,
                elems == self.module.elem_sec@.len(),
                self.operands == old(self).operands,
                self.frames == old(self).frames,
                self.module == old(self).module,
                self.id == old(self).id,
                self.name == old(self).name,
                self.funcs == old(self).funcs,
                self.tables == old(self).tables,
                self.mems == old(self).mems,
                self.globals == old(self).globals,
                self.datas == old(self).datas,
                self.exports == old(self).exports,
                Self::elements_made(*old(self), *store, *self, i as int),
            decreases elems - i,
        {
            let ghost now = *self;
            proof {
                Self::lemma_refs_are_kept(*old(self), now, store, i as int);
            }
            let refs = match self.init_elem_refs(store, i) {
                Ok(refs) => refs,
                Err(e) => {
                    return Err(e);
                },
            };
            let elem_inst = ElemInst::new(self.module.elem_sec[i].type_, refs);
            let ghost before = self.elements@;
            self.elements.push(elem_inst);
            proof {
                assert forall|k: int| 0 <= k < i + 1 implies (#[trigger] self.elements@[k]).type_
                    == old(self).module.elem_sec@[k].type_ && old(self).spec_elem_all_refs(
                    store,
                    k,
                ) == Ok::<Seq<ValInst>, VmError>(self.elements@[k].refs@) by {
                    if k < i {
                        assert(self.elements@[k] == before[k]);
                    }
                }
            }
            i += 1;
        }
        Ok(())
    }

    /// The references of an element segment depend on the module and on
    /// the functions and the globals that the machine knows.
    pub proof fn lemma_refs_are_kept(v0: VM, v1: VM, store: &Store, at: int)
        requires
            v1.module == v0.module,
            v1.funcs == v0.funcs,
            v1.globals == v0.globals,
        ensures
            v1.spec_elem_all_refs(store, at) == v0.spec_elem_all_refs(store, at),
    {
        Self::lemma_refs_upto_are_kept(v0, v1, store, at, v0.spec_elem_count(at));
    }

    pub proof fn lemma_refs_upto_are_kept(v0: VM, v1: VM, store: &Store, at: int, k: int)
        requires
            v1.module == v0.module,
            v1.funcs == v0.funcs,
            v1.globals == v0.globals,
        ensures
            v1.spec_elem_refs(store, at, k) == v0.spec_elem_refs(store, at, k),
        decreases k,
    {
        if k > 0 {
            Self::lemma_refs_upto_are_kept(v0, v1, store, at, k - 1);
        }
    }

    /// The error of the first element segment from `k` on that cannot be
    /// applied, if there is one.
    pub open spec fn spec_elem_error(&self, store: &Store, k: int) -> Option<VmError>
        decreases self.module.elem_sec@.len() - k,
    {
        if k < 0 || k >= self.module.elem_sec@.len() {
            None
        } else {
            match self.spec_elem_place(store, k) {
                Err(e) => Some(e),
                Ok(_) => self.spec_elem_error(store, k + 1),
            }
        }
    }

    /// The table into which the element segment `k` goes, and the offset
    /// at which it goes, if it goes anywhere.
    pub open spec fn spec_elem_table(&self, store: &Store, k: int) -> int {
        match self.spec_elem_place(store, k) {
            Ok(Some((a, _))) => a,
            _ => 0,
        }
    }

    pub open spec fn spec_elem_offset(&self, store: &Store, k: int) -> int {
        match self.spec_elem_place(store, k) {
            Ok(Some((_, o))) => o as int,
            _ => 0,
        }
    }

    /// Whether the element segment `k` writes the element at place `p` of
    /// the table at address `a`.
    pub open spec fn spec_elem_covers(&self, store: &Store, k: int, a: int, p: int) -> bool {
        self.spec_elem_place(store, k) matches Ok(Some((b, o))) && b == a && o <= p < o
            + self.elements@[k].refs@.len()
    }

    /// The element at place `p` of the table at address `a` once the first
    /// `n` element segments were applied: the reference of the last of
    /// them that writes the place, or the element that the table held.
    pub open spec fn spec_ref_after(&self, store: &Store, a: int, p: int, n: int) -> ValInst
        decreases n,
    {
        if n <= 0 {
            store.tables@[a].elems()[p]
        } else if self.spec_elem_covers(store, n - 1, a, p) {
            self.elements@[n - 1].refs@[p - self.spec_elem_offset(store, n - 1)]
        } else {
            self.spec_ref_after(store, a, p, n - 1)
        }
    }

    /// Whether `after` is `before` with the element segments of the
    /// module applied in their order: each table has its type and its
    /// size, and each element is that of the last segment that writes it.
    /// The machine keeps the references of the passive segments.
    pub open spec fn elements_applied(before: VM, store: Store, after: VM, written: Store) -> bool {
        let n = before.module.elem_sec@.len();
        &&& after.elements@.len() == n
        &&& forall|i: int|
            0 <= i < n ==> (#[trigger] after.elements@[i]).type_ == before.elements@[i].type_
                && after.elements@[i].refs@ == if before.module.elem_sec@[i].mode is Passive {
                before.elements@[i].refs@
            } else {
                Seq::<ValInst>::empty()
            }
        &&& written.tables@.len() == store.tables@.len()
        &&& forall|a: int|
            0 <= a < store.tables@.len() ==> {
                &&& (#[trigger] written.tables@[a]).spec_type() == store.tables@[a].spec_type()
                &&& written.tables@[a].elems().len() == store.tables@[a].elems().len()
            }
        &&& forall|a: int, p: int|
            0 <= a < store.tables@.len() && 0 <= p < store.tables@[a].elems().len()
                ==> #[trigger] written.tables@[a].elems()[p] == before.spec_ref_after(
                &store,
                a,
                p,
                n as int,
            )
    }

    /// An element that an element segment writes, and that no later one of
    /// the first `n` segments writes, is the reference of that segment.
    pub proof fn lemma_ref_is_kept(&self, store: &Store, a: int, p: int, k: int, n: int)
        requires
            0 <= k < n <= self.module.elem_sec@.len(),
            self.spec_elem_covers(store, k, a, p),
            forall|j: int| k < j < n ==> !#[trigger] self.spec_elem_covers(store, j, a, p),
        ensures
            self.spec_ref_after(store, a, p, n) == self.elements@[k].refs@[p
                - self.spec_elem_offset(store, k)],
        decreases n,
    {
        if n > k + 1 {
            assert(!self.spec_elem_covers(store, n - 1, a, p));
            self.lemma_ref_is_kept(store, a, p, k, n - 1);
        }
    }

    /// Once the element segments of a module were applied, each reference
    /// of an active segment lies in the table of the segment, at its
    /// offset, unless a later segment wrote over it; and the machine holds
    /// no references for the segment any more.
    pub proof fn lemma_active_element_is_in_table(
        before: VM,
        store: Store,
        after: VM,
        written: Store,
        k: int,
        q: int,
    )
        requires
            Self::elements_applied(before, store, after, written),
            0 <= k < before.module.elem_sec@.len(),
            before.spec_elem_place(&store, k) matches Ok(Some(_)),
            0 <= q < before.elements@[k].refs@.len(),
            forall|j: int|
                k < j < before.module.elem_sec@.len() ==> !#[trigger] before.spec_elem_covers(
                    &store,
                    j,
                    before.spec_elem_table(&store, k),
                    before.spec_elem_offset(&store, k) + q,
                ),
        ensures
            after.elements@[k].refs@ == Seq::<ValInst>::empty(),
            written.tables@[before.spec_elem_table(&store, k)].elems()[before.spec_elem_offset(
                &store,
                k,
            ) + q] == before.elements@[k].refs@[q],
    {
        let a = before.spec_elem_table(&store, k);
        let p = before.spec_elem_offset(&store, k) + q;
        assert(before.spec_elem_covers(&store, k, a, p));
        before.lemma_ref_is_kept(&store, a, p, k, before.module.elem_sec@.len() as int);
    }

    /// Where an element segment goes depends on the module, on the
    /// globals, the functions and the tables that the machine knows, on
    /// the references of the segment, and on the sizes of the tables.
    pub proof fn lemma_elem_place_is_kept(v0: VM, s0: Store, v1: VM, s1: Store, at: int)
        requires
            0 <= at < v0.module.elem_sec@.len(),
            v1.module == v0.module,
            v1.funcs == v0.funcs,
            v1.globals == v0.globals,
            v1.tables == v0.tables,
            s1.globals == s0.globals,
            s1.tables@.len() == s0.tables@.len(),
            forall|a: int|
                0 <= a < s0.tables@.len() ==> (#[trigger] s1.tables@[a]).elems().len()
                    == s0.tables@[a].elems().len(),
            at < v1.elements@.len(),
            at < v0.elements@.len(),
            v1.elements@[at].refs@ == v0.elements@[at].refs@,
        ensures
            v1.spec_elem_place(&s1, at) == v0.spec_elem_place(&s0, at),
    {
    }

    /// Applies the element segments in their order. The first segment that
    /// cannot be applied ends this with its error.
    pub fn apply_elements(&mut self, store: &mut Store) -> (r: VMState)
        requires
            old(self).elements@.len() == old(self).module.elem_sec@.len(),
        ensures
            final(self).operands == old(self).operands,
            final(self).frames == old(self).frames,
            final(self).module == old(self).module,
            final(self).id == old(self).id,
            final(self).name == old(self).name,
            final(self).funcs == old(self).funcs,
            final(self).tables == old(self).tables,
            final(self).mems == old(self).mems,
            final(self).globals == old(self).globals,
            final(self).datas == old(self).datas,
            final(self).exports == old(self).exports,
            final(self).elements@.len() == old(self).elements@.len(),
            final(store).funcs == old(store).funcs,
            final(store).mems == old(store).mems,
            final(store).globals == old(store).globals,
            final(store).tables@.len() == old(store).tables@.len(),
            match old(self).spec_elem_error(old(store), 0) {
                Some(e) => r == Err::<(), VmError>(e),
                None => r is Ok && Self::elements_applied(
                    *old(self),
                    *old(store),
                    *final(self),
                    *final(store),
                ),
            },
    {
        let elems = self.module.elem_sec.len();
        let ghost v0 = *self;
        let ghost s0 = *store;
        let mut i: usize = 0;
        while i < elems
            invariant
                i <= elems,
                elems == self.module.elem_sec@.len(),
                v0 == *old(self),
                s0 == *old(store),
                self.operands == v0.operands,
                self.frames == v0.frames,
                self.module == v0.module,
                self.id == v0.id,
                self.name == v0.name,
                self.funcs == v0.funcs,
                self.tables == v0.tables,
                self.mems == v0.mems,
                self.globals == v0.globals,
                self.datas == v0.datas,
                self.exports == v0.exports,
                store.funcs == s0.funcs,
                store.mems == s0.mems,
                store.globals == s0.globals,
                store.tables@.len() == s0.tables@.len(),
                self.elements@.len() == elems,
                v0.elements@.len() == elems,
                forall|k: int| i <= k < elems ==> (#[trigger] self.elements@[k]) == v0.elements@[k],
                forall|k: int|
                    0 <= k < i ==> (#[trigger] self.elements@[k]).type_ == v0.elements@[k].type_
                        && self.elements@[k].refs@ == if self.module.elem_sec@[k].mode is Passive {
                        v0.elements@[k].refs@
                    } else {
                        Seq::<ValInst>::empty()
                    },
                forall|a: int|
                    0 <= a < s0.tables@.len() ==> {
                        &&& (#[trigger] store.tables@[a]).spec_type() == s0.tables@[a].spec_type()
                        &&& store.tables@[a].elems().len() == s0.tables@[a].elems().len()
                    },
                forall|a: int, p: int|
                    0 <= a < s0.tables@.len() && 0 <= p < s0.tables@[a].elems().len()
                        ==> #[trigger] store.tables@[a].elems()[p] == v0.spec_ref_after(
                        &s0,
                        a,
                        p,
                        i as int,
                    ),
                v0.spec_elem_error(&s0, 0) == v0.spec_elem_error(&s0, i as int),
            decreases elems - i,
        {
            let ghost before = self.elements@;
            let ghost v1 = *self;
            let ghost s1 = *store;
            proof {
                Self::lemma_elem_place_is_kept(v0, s0, v1, s1, i as int);
            }
            match self.apply_element(store, i) {
                Ok(_) => {},
                Err(e) => {
                    return Err(e);
                },
            }
            proof {
                assert forall|k: int| i + 1 <= k < elems implies (#[trigger] self.elements@[k])
                    == v0.elements@[k] by {
                    assert(self.elements@[k] == before[k]);
                }
                assert forall|k: int| 0 <= k < i + 1 implies (#[trigger] self.elements@[k]).type_
                    == v0.elements@[k].type_ && self.elements@[k].refs@
                    == if self.module.elem_sec@[k].mode is Passive {
                    v0.elements@[k].refs@
                } else {
                    Seq::<ValInst>::empty()
                } by {
                    if k < i {
                        assert(self.elements@[k] == before[k]);
                    }
                }
                assert forall|a: int, p: int|
                    0 <= a < s0.tables@.len() && 0 <= p < s0.tables@[a].elems().len()
                        implies #[trigger] store.tables@[a].elems()[p] == v0.spec_ref_after(
                    &s0,
                    a,
                    p,
                    i + 1,
                ) by {
                    assert(s1.tables@[a].elems()[p] == v0.spec_ref_after(&s0, a, p, i as int));
                }
            }
            i += 1;
        }
        Ok(())
    }

    /// What allocating the tables and applying the element segments of a
    /// module does.
    pub open spec fn tables_done(before: VM, store: Store, r: VMState, after: VM, stored: Store) -> bool {
        &&& after.operands == before.operands
        &&& after.frames == before.frames
        &&& after.module == before.module
        &&& after.id == before.id
        &&& after.name == before.name
        &&& after.funcs == before.funcs
        &&& after.mems == before.mems
        &&& after.globals == before.globals
        &&& after.datas == before.datas
        &&& after.exports == before.exports
        &&& stored.funcs == store.funcs
        &&& stored.mems == store.mems
        &&& stored.globals == store.globals
        &&& exists|with_tables: VM, grown: Store, made: VM|
            {
                &&& #[trigger] Self::tables_allocated(
                    before,
                    store,
                    with_tables,
                    grown,
                )
                &&& with_tables.module == before.module
                &&& with_tables.funcs == before.funcs
                &&& with_tables.globals == before.globals
                &&& with_tables.elements == before.elements
                &&& grown.globals == store.globals
                &&& after.tables == with_tables.tables
                &&& #[trigger] Self::elements_made(
                    with_tables,
                    grown,
                    made,
                    made.elements@.len() as int,
                )
                &&& made.module == before.module
                &&& made.funcs == before.funcs
                &&& made.globals == before.globals
                &&& made.tables == with_tables.tables
                &&& if made.elements@.len() < before.module.elem_sec@.len() {
                    r is Err && with_tables.spec_elem_all_refs(
                        &grown,
                        made.elements@.len() as int,
                    ) == Err::<Seq<ValInst>, VmError>(r->Err_0)
                } else {
                    match made.spec_elem_error(&grown, 0) {
                        Some(e) => r == Err::<(), VmError>(e),
                        None => r is Ok && Self::elements_applied(
                            made,
                            grown,
                            after,
                            stored,
                        ),
                    }
                }
            }
        &&& r is Ok ==> {
            &&& after.tables@.len() == before.tables@.len() + before.module.table_sec@.len()
            &&& stored.tables@.len() == store.tables@.len() + before.module.table_sec@.len()
            &&& after.elements@.len() == before.module.elem_sec@.len()
            &&& forall|i: int|
                0 <= i < before.module.elem_sec@.len() && !(before.module.elem_sec@[i].mode is Passive) ==> (#[trigger] after.elements@[i]).refs@ == Seq::<ValInst>::empty()
        }
    }

    /// Allocates the tables of the module's own, makes the instances of
    /// the element segments, and applies the element segments in their
    /// order.
    pub fn init_table_and_elem(&mut self, store: &mut Store) -> (r: VMState)
        requires
            old(self).elements@.len() == 0,
        ensures
            Self::tables_done(*old(self), *old(store), r, *final(self), *final(store)),
    {
        self.init_tables(store);
        let ghost with_tables = *self;
        let ghost grown = *store;
        let made = self.make_elements(store);
        let ghost made_vm = *self;
        proof {
            assert(Self::tables_allocated(*old(self), *old(store), with_tables, grown));
            assert(Self::elements_made(
                with_tables,
                grown,
                made_vm,
                made_vm.elements@.len() as int,
            ));
        }
        match made {
            Ok(_) => {},
            Err(e) => {
                return Err(e);
            },
        }
        let r = self.apply_elements(store);
        proof {
            if r is Ok {
                assert(Self::elements_applied(made_vm, grown, *self, *store));
            }
        }
        r
    }

    /// Whether the memories that the module defines can be allocated: none
    /// has more than 65536 pages, or more bytes than the machine can
    /// address.
    pub open spec fn spec_mems_fit(&self) -> bool {
        forall|i: int|
            0 <= i < self.module.mem_sec@.len() ==> (#[trigger] self.module.mem_sec@[i]).min
                <= MAX_PAGE_SIZE && self.module.mem_sec@[i].min * 65536 <= usize::MAX
    }

    /// Whether `after` is `before` with the memories that the module
    /// defines allocated behind those of the store, each of its least size
    /// and of zero bytes, and known to the machine behind those it had.
    pub open spec fn mems_allocated(before: VM, store: Store, after: VM, grown: Store) -> bool {
        let n = before.module.mem_sec@.len();
        let base = store.mems@.len();
        &&& after.mems@.len() == before.mems@.len() + n
        &&& after.mems@.take(before.mems@.len() as int) == before.mems@
        &&& grown.mems@.len() == base + n
        &&& grown.mems@.take(base as int) == store.mems@
        &&& forall|i: int|
            0 <= i < n ==> {
                &&& (#[trigger] after.mems@[before.mems@.len() + i]) == base + i
                &&& grown.mems@[base + i].spec_type() == before.module.mem_sec@[i]
                &&& grown.mems@[base + i].bytes() == Seq::new(
                    (before.module.mem_sec@[i].min * 65536) as nat,
                    |k: int| 0u8,
                )
            }
    }

    /// Allocates the memories that the module defines. A memory of more
    /// than 65536 pages, or of more bytes than the machine can address, is
    /// `OutofBoundMem`.
    pub fn init_mems(&mut self, store: &mut Store) -> (r: VMState)
        ensures
            final(self).operands == old(self).operands,
            final(self).frames == old(self).frames,
            final(self).module == old(self).module,
            final(self).id == old(self).id,
            final(self).name == old(self).name,
            final(self).funcs == old(self).funcs,
            final(self).tables == old(self).tables,
            final(self).globals == old(self).globals,
            final(self).elements == old(self).elements,
            final(self).exports == old(self).exports,
            final(self).datas == old(self).datas,
            final(store).funcs == old(store).funcs,
            final(store).tables == old(store).tables,
            final(store).globals == old(store).globals,
            if old(self).spec_mems_fit() {
                r is Ok && Self::mems_allocated(*old(self), *old(store), *final(self), *final(store))
            } else {
                r == Err::<(), VmError>(VmError::Inst(InstError::OutofBoundMem))
            },
    {
        let mems = self.module.mem_sec.len();
        let ghost own = self.mems@.len() as int;
        let ghost base = store.mems@.len() as int;
        let mut i: usize = 0;
        while i < mems
            invariant
                i <= mems,
                mems == self.module.mem_sec@.len(),
                own == old(self).mems@.len(),
                base == old(store).mems@.len(),
                self.operands == old(self).operands,
                self.frames == old(self).frames,
                self.module == old(self).module,
                self.id == old(self).id,
                self.name == old(self).name,
                self.funcs == old(self).funcs,
                self.tables == old(self).tables,
                self.globals == old(self).globals,
                self.elements == old(self).elements,
                self.exports == old(self).exports,
                self.datas == old(self).datas,
                store.funcs == old(store).funcs,
                store.tables == old(store).tables,
                store.globals == old(store).globals,
                self.mems@.len() == own + i,
                self.mems@.take(own) == old(self).mems@,
                store.mems@.len() == base + i,
                store.mems@.take(base) == old(store).mems@,
                forall|k: int|
                    0 <= k < i ==> (#[trigger] self.module.mem_sec@[k]).min <= MAX_PAGE_SIZE
                        && self.module.mem_sec@[k].min * 65536 <= usize::MAX,
                forall|k: int| 0 <= k < i ==> (#[trigger] self.mems@[own + k]) == base + k,
                forall|k: int|
                    0 <= k < i ==> (#[trigger] store.mems@[base + k]).spec_type()
                        == self.module.mem_sec@[k] && store.mems@[base + k].bytes() == Seq::new(
                        (self.module.mem_sec@[k].min * 65536) as nat,
                        |j: int| 0u8,
                    ),
            decreases mems - i,
        {
            let mem_type = self.module.mem_sec[i];
            if mem_type.min > MAX_PAGE_SIZE || (mem_type.min as usize).checked_mul(65536).is_none() {
                return Err(VmError::Inst(InstError::OutofBoundMem));
            }
            let mem_inst = MemInst::new(mem_type);
            let ghost before_mems = self.mems@;
            let ghost before_store = store.mems@;
            let addr = store.alloc_mem(mem_inst);
            self.mems.push(addr);
            proof {
                assert(self.mems@.take(own) =~= before_mems.take(own));
                assert(store.mems@.take(base) =~= before_store.take(base));
                assert forall|k: int| 0 <= k < i + 1 implies (#[trigger] self.mems@[own + k])
                    == base + k by {
                    if k < i {
                        assert(self.mems@[own + k] == before_mems[own + k]);
                    }
                }
                assert forall|k: int| 0 <= k < i + 1 implies (#[trigger] store.mems@[base
                    + k]).spec_type() == self.module.mem_sec@[k] && store.mems@[base + k].bytes()
                    == Seq::new((self.module.mem_sec@[k].min * 65536) as nat, |j: int| 0u8) by {
                    if k < i {
                        assert(store.mems@[base + k] == before_store[base + k]);
                    }
                }
            }
            i += 1;
        }
        Ok(())
    }

    /// Where the data segment `at` goes when the module is instantiated,
    /// its bytes being those that the module holds for it.
    pub open spec fn spec_init_place(&self, store: &Store, at: int) -> Result<
        Option<(int, u32)>,
        VmError,
    > {
        let seg = self.module.data_sec@[at];
        match seg.mode {
            DataMode::Passive => Ok(None),
            DataMode::Active => match spec_eval_const(*self, store, seg.offset_expr@) {
                Err(e) => Err(e),
                Ok(v) => match spec_offset(v) {
                    Err(e) => Err(e),
                    Ok(o) => match self.spec_mem(store, seg.mem_idx as int) {
                        None => Err(VmError::Inst(InstError::OutofBoundMem)),
                        Some(a) => if o + seg.init@.len() <= store.mems@[a].bytes().len() {
                            Ok(Some((a, o)))
                        } else {
                            Err(VmError::Inst(InstError::OutofBoundMem))
                        },
                    },
                },
            },
        }
    }

    /// The error of the first data segment from `k` on that cannot be
    /// applied, if there is one.
    pub open spec fn spec_data_error(&self, store: &Store, k: int) -> Option<VmError>
        decreases self.module.data_sec@.len() - k,
    {
        if k < 0 || k >= self.module.data_sec@.len() {
            None
        } else {
            match self.spec_init_place(store, k) {
                Err(e) => Some(e),
                Ok(_) => self.spec_data_error(store, k + 1),
            }
        }
    }

    /// The offset at which the data segment `k` goes, if it goes anywhere.
    pub open spec fn spec_init_offset(&self, store: &Store, k: int) -> int {
        match self.spec_init_place(store, k) {
            Ok(Some((_, o))) => o as int,
            _ => 0,
        }
    }

    /// The address of the memory into which the data segment `k` goes, if
    /// it goes anywhere.
    pub open spec fn spec_init_memory(&self, store: &Store, k: int) -> int {
        match self.spec_init_place(store, k) {
            Ok(Some((a, _))) => a,
            _ => 0,
        }
    }

    /// Whether the data segment `k` writes the byte at place `p` of the
    /// memory at address `a`.
    pub open spec fn spec_data_covers(&self, store: &Store, k: int, a: int, p: int) -> bool {
        self.spec_init_place(store, k) matches Ok(Some((b, o))) && b == a && o <= p < o
            + self.module.data_sec@[k].init@.len()
    }

    /// The byte at place `p` of the memory at address `a` once the first
    /// `n` data segments were applied: the byte of the last of them that
    /// writes the place, or the byte that the memory held.
    pub open spec fn spec_byte_after(&self, store: &Store, a: int, p: int, n: int) -> u8
        decreases n,
    {
        if n <= 0 {
            store.mems@[a].bytes()[p]
        } else if self.spec_data_covers(store, n - 1, a, p) {
            self.module.data_sec@[n - 1].init@[p - self.spec_init_offset(store, n - 1)]
        } else {
            self.spec_byte_after(store, a, p, n - 1)
        }
    }

    /// Whether `after` is `before` with the data segments of the module
    /// applied in their order: each memory has its type and its size, and
    /// each byte is that of the last segment that writes it. The machine
    /// keeps the bytes of the passive segments.
    pub open spec fn datas_applied(before: VM, store: Store, after: VM, written: Store) -> bool {
        let n = before.module.data_sec@.len();
        &&& after.datas@.len() == n
        &&& forall|i: int|
            0 <= i < n ==> (#[trigger] after.datas@[i])@ == if before.module.data_sec@[i].mode
                == DataMode::Active {
                Seq::<u8>::empty()
            } else {
                before.module.data_sec@[i].init@
            }
        &&& written.mems@.len() == store.mems@.len()
        &&& forall|a: int|
            0 <= a < store.mems@.len() ==> {
                &&& (#[trigger] written.mems@[a]).spec_type() == store.mems@[a].spec_type()
                &&& written.mems@[a].bytes().len() == store.mems@[a].bytes().len()
            }
        &&& forall|a: int, p: int|
            0 <= a < store.mems@.len() && 0 <= p < store.mems@[a].bytes().len()
                ==> #[trigger] written.mems@[a].bytes()[p] == before.spec_byte_after(
                &store,
                a,
                p,
                n as int,
            )
    }

    /// Copies the bytes of the data segments and applies the segments in
    /// their order. The first segment that cannot be applied ends this
    /// with its error.
    pub fn init_datas(&mut self, store: &mut Store) -> (r: VMState)
        requires
            old(self).datas@.len() == 0,
        ensures
            final(self).operands == old(self).operands,
            final(self).frames == old(self).frames,
            final(self).module == old(self).module,
            final(self).id == old(self).id,
            final(self).name == old(self).name,
            final(self).funcs == old(self).funcs,
            final(self).tables == old(self).tables,
            final(self).mems == old(self).mems,
            final(self).globals == old(self).globals,
            final(self).elements == old(self).elements,
            final(self).exports == old(self).exports,
            final(store).funcs == old(store).funcs,
            final(store).tables == old(store).tables,
            final(store).globals == old(store).globals,
            match old(self).spec_data_error(old(store), 0) {
                Some(e) => r == Err::<(), VmError>(e),
                None => r is Ok && Self::datas_applied(
                    *old(self),
                    *old(store),
                    *final(self),
                    *final(store),
                ),
            },
    {
        let total = self.module.data_sec.len();
        let ghost v0 = *self;
        let ghost s0 = *store;
        let mut i: usize = 0;
        while i < total
            invariant
                i <= total,
                total == self.module.data_sec@.len(),
                v0 == *old(self),
                s0 == *old(store),
                self.operands == v0.operands,
                self.frames == v0.frames,
                self.module == v0.module,
                self.id == v0.id,
                self.name == v0.name,
                self.funcs == v0.funcs,
                self.tables == v0.tables,
                self.mems == v0.mems,
                self.globals == v0.globals,
                self.elements == v0.elements,
                self.exports == v0.exports,
                store.funcs == s0.funcs,
                store.tables == s0.tables,
                store.globals == s0.globals,
                store.mems@.len() == s0.mems@.len(),
                self.datas@.len() == i,
                forall|k: int|
                    0 <= k < i ==> (#[trigger] self.datas@[k])@ == if self.module.data_sec@[k].mode
                        == DataMode::Active {
                        Seq::<u8>::empty()
                    } else {
                        self.module.data_sec@[k].init@
                    },
                forall|a: int|
                    0 <= a < s0.mems@.len() ==> {
                        &&& (#[trigger] store.mems@[a]).spec_type() == s0.mems@[a].spec_type()
                        &&& store.mems@[a].bytes().len() == s0.mems@[a].bytes().len()
                    },
                forall|a: int, p: int|
                    0 <= a < s0.mems@.len() && 0 <= p < s0.mems@[a].bytes().len()
                        ==> #[trigger] store.mems@[a].bytes()[p] == v0.spec_byte_after(
                        &s0,
                        a,
                        p,
                        i as int,
                    ),
                v0.spec_data_error(&s0, 0) == v0.spec_data_error(&s0, i as int),
            decreases total - i,
        {
            let bytes = vstd::slice::slice_to_vec(self.module.data_sec[i].init.as_slice());
            self.datas.push(bytes);
            let ghost before = self.datas@;
            let ghost v1 = *self;
            let ghost s1 = *store;
            proof {
                Self::lemma_place_is_kept(v0, s0, v1, s1, i as int);
            }
            match self.apply_data(store, i) {
                Ok(_) => {},
                Err(e) => {
                    return Err(e);
                },
            }
            proof {
                assert forall|k: int| 0 <= k < i + 1 implies (#[trigger] self.datas@[k])@
                    == if self.module.data_sec@[k].mode == DataMode::Active {
                    Seq::<u8>::empty()
                } else {
                    self.module.data_sec@[k].init@
                } by {
                    if k < i {
                        assert(self.datas@[k] == before[k]);
                    }
                }
                let payload = self.module.data_sec@[i as int].init@;
                assert forall|a: int, p: int|
                    0 <= a < s0.mems@.len() && 0 <= p < s0.mems@[a].bytes().len()
                        implies #[trigger] store.mems@[a].bytes()[p] == v0.spec_byte_after(
                    &s0,
                    a,
                    p,
                    i + 1,
                ) by {
                    assert(s1.mems@[a].bytes()[p] == v0.spec_byte_after(&s0, a, p, i as int));
                }
            }
            i += 1;
        }
        Ok(())
    }

    /// Where a data segment goes depends on the module, on the globals, the
    /// functions and the memories that the machine knows, and on the sizes
    /// of the memories.
    pub proof fn lemma_place_is_kept(v0: VM, s0: Store, v1: VM, s1: Store, at: int)
        requires
            0 <= at < v0.module.data_sec@.len(),
            v1.module == v0.module,
            v1.funcs == v0.funcs,
            v1.globals == v0.globals,
            v1.mems == v0.mems,
            s1.globals == s0.globals,
            s1.mems@.len() == s0.mems@.len(),
            forall|a: int|
                0 <= a < s0.mems@.len() ==> (#[trigger] s1.mems@[a]).bytes().len()
                    == s0.mems@[a].bytes().len(),
            at < v1.datas@.len(),
            v1.datas@[at]@ == v0.module.data_sec@[at].init@,
        ensures
            v1.spec_data_place(&s1, at) == v0.spec_init_place(&s0, at),
    {
    }

    /// What allocating the memories and applying the data segments of a
    /// module does.
    pub open spec fn mems_done(before: VM, store: Store, r: VMState, after: VM, stored: Store) -> bool {
        &&& after.operands == before.operands
        &&& after.frames == before.frames
        &&& after.module == before.module
        &&& after.id == before.id
        &&& after.name == before.name
        &&& after.funcs == before.funcs
        &&& after.tables == before.tables
        &&& after.globals == before.globals
        &&& after.elements == before.elements
        &&& after.exports == before.exports
        &&& stored.funcs == store.funcs
        &&& stored.tables == store.tables
        &&& stored.globals == store.globals
        &&& !before.spec_mems_fit() ==> r == Err::<(), VmError>(
            VmError::Inst(InstError::OutofBoundMem),
        )
        &&& before.spec_mems_fit() ==> exists|with_mems: VM, grown: Store|
            {
                &&& #[trigger] Self::mems_allocated(before, store, with_mems, grown)
                &&& with_mems.module == before.module
                &&& with_mems.funcs == before.funcs
                &&& with_mems.globals == before.globals
                &&& grown.globals == store.globals
                &&& match with_mems.spec_data_error(&grown, 0) {
                    Some(e) => r == Err::<(), VmError>(e),
                    None => r is Ok && after.mems == with_mems.mems
                        && Self::datas_applied(
                        with_mems,
                        grown,
                        after,
                        stored,
                    ),
                }
            }
        &&& r is Ok ==> {
            &&& after.mems@.len() == before.mems@.len() + before.module.mem_sec@.len()
            &&& stored.mems@.len() == store.mems@.len() + before.module.mem_sec@.len()
            &&& after.datas@.len() == before.module.data_sec@.len()
            &&& forall|i: int|
                0 <= i < before.module.data_sec@.len() ==> (#[trigger] after.datas@[i])@ == if before.module.data_sec@[i].mode == DataMode::Active {
                    Seq::<u8>::empty()
                } else {
                    before.module.data_sec@[i].init@
                }
        }
    }

    /// Allocates the memories of the module's own, copies the bytes of
    /// the data segments, and applies the data segments in their order. A
    /// memory of more than 65536 pages, or of more bytes than the machine
    /// can address, is `OutofBoundMem`.
    pub fn init_mem_and_data(&mut self, store: &mut Store) -> (r: VMState)
        requires
            old(self).datas@.len() == 0,
        ensures
            Self::mems_done(*old(self), *old(store), r, *final(self), *final(store)),
    {
        match self.init_mems(store) {
            Ok(_) => {},
            Err(e) => {
                return Err(e);
            },
        }
        let ghost with_mems = *self;
        let ghost grown = *store;
        let r = self.init_datas(store);
        proof {
            assert(Self::mems_allocated(*old(self), *old(store), with_mems, grown));
            if r is Ok {
                assert(Self::datas_applied(with_mems, grown, *self, *store));
            }
        }
        r
    }

    /// A byte that a data segment writes, and that no later one of the
    /// first `n` segments writes, is the byte of that segment.
    pub proof fn lemma_byte_is_kept(&self, store: &Store, a: int, p: int, k: int, n: int)
        requires
            0 <= k < n <= self.module.data_sec@.len(),
            self.spec_data_covers(store, k, a, p),
            forall|j: int| k < j < n ==> !#[trigger] self.spec_data_covers(store, j, a, p),
        ensures
            self.spec_byte_after(store, a, p, n) == self.module.data_sec@[k].init@[p
                - self.spec_init_offset(store, k)],
        decreases n,
    {
        if n > k + 1 {
            assert(!self.spec_data_covers(store, n - 1, a, p));
            self.lemma_byte_is_kept(store, a, p, k, n - 1);
        }
    }

    /// A byte that none of the first `n` data segments writes is the byte
    /// that the memory held: zero in a memory that the module defines.
    pub proof fn lemma_uncovered_byte_is_kept(&self, store: &Store, a: int, p: int, n: int)
        requires
            0 <= n <= self.module.data_sec@.len(),
            forall|j: int| 0 <= j < n ==> !#[trigger] self.spec_data_covers(store, j, a, p),
        ensures
            self.spec_byte_after(store, a, p, n) == store.mems@[a].bytes()[p],
        decreases n,
    {
        if n > 0 {
            assert(!self.spec_data_covers(store, n - 1, a, p));
            self.lemma_uncovered_byte_is_kept(store, a, p, n - 1);
        }
    }

    /// Once the data segments of a module were applied, each byte of an
    /// active segment lies in the memory of the segment, at its offset,
    /// unless a later segment wrote over that byte; and the machine holds
    /// no bytes for the segment any more.
    pub proof fn lemma_active_data_is_in_memory(
        before: VM,
        store: Store,
        after: VM,
        written: Store,
        k: int,
        q: int,
    )
        requires
            Self::datas_applied(before, store, after, written),
            0 <= k < before.module.data_sec@.len(),
            before.module.data_sec@[k].mode == DataMode::Active,
            before.spec_init_place(&store, k) is Ok,
            0 <= q < before.module.data_sec@[k].init@.len(),
            forall|j: int|
                k < j < before.module.data_sec@.len() ==> !#[trigger] before.spec_data_covers(
                    &store,
                    j,
                    before.spec_init_memory(&store, k),
                    before.spec_init_offset(&store, k) + q,
                ),
        ensures
            after.datas@[k]@ == Seq::<u8>::empty(),
            written.mems@[before.spec_init_memory(&store, k)].bytes()[before.spec_init_offset(
                &store,
                k,
            ) + q] == before.module.data_sec@[k].init@[q],
    {
        let a = before.spec_init_memory(&store, k);
        let p = before.spec_init_offset(&store, k) + q;
        assert(before.spec_data_covers(&store, k, a, p));
        before.lemma_byte_is_kept(&store, a, p, k, before.module.data_sec@.len() as int);
    }

    /// The value of the global `i` that the module defines, as a machine
    /// finds it that knows the globals `known`, the globals of the store
    /// being `insts`. A value of another type than the global has is
    /// `GlobalTypeNotEq`.
    pub open spec fn spec_global_entry(
        &self,
        known: Seq<usize>,
        insts: Seq<GlobalInst>,
        i: int,
    ) -> VMState<ValInst> {
        let seg = self.module.global_sec@[i];
        match spec_const(seg.init_expr@, self.funcs@, known, insts) {
            Err(e) => Err(e),
            Ok(v) => if seg.type_.val_type != v.spec_type() {
                Err(VmError::Trap(Trap::GlobalTypeNotEq))
            } else {
                Ok(v)
            },
        }
    }

    /// Whether `after` is `before` with the first `m` globals that the
    /// module defines allocated behind those of the store, and known to the
    /// machine behind those it had. Each has its type, and the value of
    /// its initialiser as a machine finds it that knows the globals before
    /// it.
    pub open spec fn globals_allocated(
        before: VM,
        store: Store,
        after: VM,
        grown: Store,
        m: int,
    ) -> bool {
        let own = before.globals@.len() as int;
        let base = store.globals@.len() as int;
        &&& after.globals@.len() == own + m
        &&& after.globals@.take(own) == before.globals@
        &&& grown.globals@.len() == base + m
        &&& grown.globals@.take(base) == store.globals@
        &&& forall|i: int|
            0 <= i < m ==> {
                &&& (#[trigger] after.globals@[own + i]) == base + i
                &&& grown.globals@[base + i].spec_type() == before.module.global_sec@[i].type_
                &&& before.spec_global_entry(
                    after.globals@.take(own + i),
                    grown.globals@.take(base + i),
                    i,
                ) == Ok::<ValInst, VmError>(grown.globals@[base + i].spec_value())
            }
    }

    /// What allocating the globals of a module does: `after` is `before`
    /// with the globals up to the first that cannot be allocated, whose
    /// error is the result; without such a global, with all of them.
    pub open spec fn globals_done(before: VM, store: Store, r: VMState, after: VM, stored: Store) -> bool {
        &&& after.operands == before.operands
        &&& after.frames == before.frames
        &&& after.module == before.module
        &&& after.id == before.id
        &&& after.name == before.name
        &&& after.funcs == before.funcs
        &&& after.tables == before.tables
        &&& after.mems == before.mems
        &&& after.datas == before.datas
        &&& after.elements == before.elements
        &&& after.exports == before.exports
        &&& stored.funcs == store.funcs
        &&& stored.tables == store.tables
        &&& stored.mems == store.mems
        &&& Self::globals_allocated(
            before,
            store,
            after,
            stored,
            after.globals@.len() - before.globals@.len(),
        )
        &&& match r {
            Ok(_) => after.globals@.len() == before.globals@.len() + before.module.global_sec@.len(),
            Err(e) => after.globals@.len() < before.globals@.len() + before.module.global_sec@.len() && before.spec_global_entry(
                after.globals@,
                stored.globals@,
                after.globals@.len() - before.globals@.len(),
            ) == Err::<ValInst, VmError>(e),
        }
    }

    /// Allocates the globals of the module's own, each with the value of
    /// its initialiser. The first global whose initialiser has no value, or
    /// a value of another type, ends this with its error; the globals
    /// before it stay allocated.
    pub fn init_global(&mut self, store: &mut Store) -> (r: VMState)
        ensures
            Self::globals_done(*old(self), *old(store), r, *final(self), *final(store)),
    {
        let total = self.module.global_sec.len();
        let ghost own = self.globals@.len() as int;
        let ghost base = store.globals@.len() as int;
        let mut i: usize = 0;
        proof {
            assert(store.globals@.take(base) =~= old(store).globals@);
            assert(self.globals@.take(own) =~= old(self).globals@);
        }
        while i < total
            invariant
                i <= total,
                total == self.module.global_sec@.len(),
                own == old(self).globals@.len(),
                base == old(store).globals@.len(),
                self.operands == old(self).operands,
                self.frames == old(self).frames,
                self.module == old(self).module,
                self.id == old(self).id,
                self.name == old(self).name,
                self.funcs == old(self).funcs,
                self.tables == old(self).tables,
                self.mems == old(self).mems,
                self.datas == old(self).datas,
                self.elements == old(self).elements,
                self.exports == old(self).exports,
                store.funcs == old(store).funcs,
                store.tables == old(store).tables,
                store.mems == old(store).mems,
                Self::globals_allocated(*old(self), *old(store), *self, *store, i as int),
            decreases total - i,
        {
            let value = match self.eval_const(store, &self.module.global_sec[i].init_expr) {
                Ok(v) => v,
                Err(e) => {
                    return Err(e);
                },
            };
            let global_inst = match GlobalInst::new(self.module.global_sec[i].type_, value) {
                Ok(g) => g,
                Err(e) => {
                    return Err(e);
                },
            };
            let ghost known = self.globals@;
            let ghost insts = store.globals@;
            let addr = store.alloc_global(global_inst);
            self.globals.push(addr);
            proof {
                assert(store.globals@.take(base) =~= insts.take(base));
                assert(self.globals@.take(own) =~= known.take(own));
                assert forall|k: int| 0 <= k < i + 1 implies {
                    &&& (#[trigger] self.globals@[own + k]) == base + k
                    &&& store.globals@[base + k].spec_type() == self.module.global_sec@[k].type_
                    &&& old(self).spec_global_entry(
                        self.globals@.take(own + k),
                        store.globals@.take(base + k),
                        k,
                    ) == Ok::<ValInst, VmError>(store.globals@[base + k].spec_value())
                } by {
                    assert(self.globals@.take(own + k) =~= known.take(own + k));
                    assert(store.globals@.take(base + k) =~= insts.take(base + k));
                    if k < i {
                        assert(self.globals@[own + k] == known[own + k]);
                        assert(store.globals@[base + k] == insts[base + k]);
                    } else {
                        assert(known.take(own + k) =~= known);
                        assert(insts.take(base + k) =~= insts);
                    }
                }
                assert(self.globals@.len() == own + i + 1);
                assert(store.globals@.len() == base + i + 1);
                assert(Self::globals_allocated(*old(self), *old(store), *self, *store, i + 1));
            }
            i += 1;
        }
        Ok(())
    }

    /// What entering the exports of a module does: `after` is `before`
    /// with the exports of the module behind those that it had.
    pub open spec fn exports_done(before: VM, after: VM) -> bool {
        &&& after.operands == before.operands
        &&& after.frames == before.frames
        &&& after.module == before.module
        &&& after.id == before.id
        &&& after.name == before.name
        &&& after.funcs == before.funcs
        &&& after.tables == before.tables
        &&& after.mems == before.mems
        &&& after.globals == before.globals
        &&& after.datas == before.datas
        &&& after.elements == before.elements
        &&& after.exports@.len() == before.exports@.len() + before.module.export_sec@.len()
        &&& after.exports@.take(before.exports@.len() as int) == before.exports@
        &&& forall|i: int|
            0 <= i < before.module.export_sec@.len() ==> (#[trigger] after.exports@[
                before.exports@.len() + i]).deep_view() == before.module.export_sec@[i].deep_view()
    }

    /// Enters the exports of the module into the machine.
    pub fn init_exports(&mut self)
        ensures
            Self::exports_done(*old(self), *final(self)),
    {
        let total = self.module.export_sec.len();
        let ghost base = self.exports@.len();
        let mut i: usize = 0;
        proof {
            assert(self.exports@.take(base as int) =~= old(self).exports@);
        }
        while i < total
            invariant
                i <= total,
                total == self.module.export_sec@.len(),
                base == old(self).exports@.len(),
                self.operands == old(self).operands,
                self.frames == old(self).frames,
                self.module == old(self).module,
                self.id == old(self).id,
                self.name == old(self).name,
                self.funcs == old(self).funcs,
                self.tables == old(self).tables,
                self.mems == old(self).mems,
                self.globals == old(self).globals,
                self.datas == old(self).datas,
                self.elements == old(self).elements,
                self.exports@.len() == base + i,
                self.exports@.take(base as int) == old(self).exports@,
                forall|k: int|
                    0 <= k < i ==> (#[trigger] self.exports@[base + k]).deep_view()
                        == self.module.export_sec@[k].deep_view(),
            decreases total - i,
        {
            let export = ExportSeg {
                name: self.module.export_sec[i].name.clone(),
                desc: self.module.export_sec[i].desc,
            };
            let ghost before = self.exports@;
            self.exports.push(export);
            proof {
                assert(self.exports@.take(base as int) =~= before.take(base as int));
                assert forall|k: int| 0 <= k < i + 1 implies (#[trigger] self.exports@[base
                    + k]).deep_view() == self.module.export_sec@[k].deep_view() by {
                    if k < i {
                        assert(self.exports@[base + k] == before[base + k]);
                    }
                }
            }
            i += 1;
        }
    }

    /// What is left of instantiating once the memories are there: the
    /// globals, then the exports. An error leaves the machine as the stage
    /// that failed left it.
    pub open spec fn init_from_globals(
        before: VM,
        store: Store,
        r: VMState,
        after: VM,
        stored: Store,
    ) -> bool {
        exists|a: VM, s: Store, x: VMState| #[trigger]
            Self::globals_done(before, store, x, a, s) && s == stored && match x {
                Err(e) => r == Err::<(), VmError>(e) && after == a,
                Ok(_) => r is Ok && Self::exports_done(a, after),
            }
    }

    /// What is left of instantiating once the tables are there: the
    /// memories and the data segments, then the rest.
    pub open spec fn init_from_mems(
        before: VM,
        store: Store,
        r: VMState,
        after: VM,
        stored: Store,
    ) -> bool {
        exists|a: VM, s: Store, x: VMState| #[trigger]
            Self::mems_done(before, store, x, a, s) && match x {
                Err(e) => r == Err::<(), VmError>(e) && after == a && s == stored,
                Ok(_) => Self::init_from_globals(a, s, r, after, stored),
            }
    }

    /// What is left of instantiating once the functions are there: the
    /// tables and the element segments, then the rest.
    pub open spec fn init_from_tables(
        before: VM,
        store: Store,
        r: VMState,
        after: VM,
        stored: Store,
    ) -> bool {
        exists|a: VM, s: Store, x: VMState| #[trigger]
            Self::tables_done(before, store, x, a, s) && match x {
                Err(e) => r == Err::<(), VmError>(e) && after == a && s == stored,
                Ok(_) => Self::init_from_mems(a, s, r, after, stored),
            }
    }

    /// What allocating all that a module defines does: the stages follow
    /// each other, each on what the one before it left, and the first
    /// error ends them.
    pub open spec fn initialized(
        before: VM,
        store: Store,
        r: VMState,
        after: VM,
        stored: Store,
    ) -> bool {
        exists|a: VM, s: Store, x: VMState| #[trigger]
            Self::funcs_done(before, store, x, a, s) && match x {
                Err(e) => r == Err::<(), VmError>(e) && after == a && s == stored,
                Ok(_) => Self::init_from_tables(a, s, r, after, stored),
            }
    }

    /// Where all that a module defines was allocated, its data segments
    /// were applied to the memories that the machine now knows, with the
    /// globals that it had before, and nothing has written to the memories
    /// since.
    pub proof fn lemma_initialized_applies_data(before: VM, store: Store, after: VM, stored: Store)
        requires
            Self::initialized(before, store, Ok(()), after, stored),
        ensures
            exists|with_mems: VM, grown: Store, applied: VM, written: Store|
                {
                    &&& #[trigger] Self::datas_applied(with_mems, grown, applied, written)
                    &&& with_mems.module == before.module
                    &&& with_mems.mems == after.mems
                    &&& with_mems.globals == before.globals
                    &&& grown.globals == store.globals
                    &&& written.mems == stored.mems
                    &&& applied.datas == after.datas
                    &&& with_mems.spec_data_error(&grown, 0) is None
                },
    {
        let (a1, s1, x1) = choose|a: VM, s: Store, x: VMState| #[trigger]
            Self::funcs_done(before, store, x, a, s) && match x {
                Err(e) => Ok::<(), VmError>(()) == Err::<(), VmError>(e) && after == a && s
                    == stored,
                Ok(_) => Self::init_from_tables(a, s, Ok(()), after, stored),
            };
        let (a2, s2, x2) = choose|a: VM, s: Store, x: VMState| #[trigger]
            Self::tables_done(a1, s1, x, a, s) && match x {
                Err(e) => Ok::<(), VmError>(()) == Err::<(), VmError>(e) && after == a && s
                    == stored,
                Ok(_) => Self::init_from_mems(a, s, Ok(()), after, stored),
            };
        let (a3, s3, x3) = choose|a: VM, s: Store, x: VMState| #[trigger]
            Self::mems_done(a2, s2, x, a, s) && match x {
                Err(e) => Ok::<(), VmError>(()) == Err::<(), VmError>(e) && after == a && s
                    == stored,
                Ok(_) => Self::init_from_globals(a, s, Ok(()), after, stored),
            };
        let (a4, s4, x4) = choose|a: VM, s: Store, x: VMState| #[trigger]
            Self::globals_done(a3, s3, x, a, s) && s == stored && match x {
                Err(e) => Ok::<(), VmError>(()) == Err::<(), VmError>(e) && after == a,
                Ok(_) => Self::exports_done(a, after),
            };
        assert(x3 is Ok);
        assert(a2.spec_mems_fit());
        let (w, g) = choose|with_mems: VM, grown: Store|
            {
                &&& #[trigger] Self::mems_allocated(a2, s2, with_mems, grown)
                &&& with_mems.module == a2.module
                &&& with_mems.funcs == a2.funcs
                &&& with_mems.globals == a2.globals
                &&& grown.globals == s2.globals
                &&& match with_mems.spec_data_error(&grown, 0) {
                    Some(e) => x3 == Err::<(), VmError>(e),
                    None => x3 is Ok && a3.mems == with_mems.mems && Self::datas_applied(
                        with_mems,
                        grown,
                        a3,
                        s3,
                    ),
                }
            };
        assert(Self::datas_applied(w, g, a3, s3));
    }

    /// Once all that a module defines was allocated, each byte of an
    /// active data segment lies in the memory of the segment, at its
    /// offset, unless a later segment wrote over that byte; and the machine
    /// holds no bytes for the segment any more. The memory and the offset
    /// are those that the segment names to a machine that knows the
    /// memories of the new machine and the globals that were linked.
    pub proof fn lemma_instantiated_data_is_in_memory(
        before: VM,
        store: Store,
        after: VM,
        stored: Store,
        k: int,
        q: int,
    )
        requires
            Self::initialized(before, store, Ok(()), after, stored),
            0 <= k < before.module.data_sec@.len(),
            before.module.data_sec@[k].mode == DataMode::Active,
            0 <= q < before.module.data_sec@[k].init@.len(),
        ensures
            after.datas@[k]@ == Seq::<u8>::empty(),
            exists|with_mems: VM, grown: Store|
                {
                    &&& with_mems.module == before.module
                    &&& with_mems.mems == after.mems
                    &&& with_mems.globals == before.globals
                    &&& grown.globals == store.globals
                    &&& #[trigger] with_mems.spec_init_place(&grown, k) is Ok
                    &&& (forall|j: int|
                        k < j < before.module.data_sec@.len() ==> !#[trigger] with_mems.spec_data_covers(
                            &grown,
                            j,
                            with_mems.spec_init_memory(&grown, k),
                            with_mems.spec_init_offset(&grown, k) + q,
                        )) ==> stored.mems@[with_mems.spec_init_memory(
                        &grown,
                        k,
                    )].bytes()[with_mems.spec_init_offset(&grown, k) + q]
                        == before.module.data_sec@[k].init@[q]
                },
    {
        Self::lemma_initialized_applies_data(before, store, after, stored);
        let (w, g, a3, s3) = choose|with_mems: VM, grown: Store, applied: VM, written: Store|
            {
                &&& #[trigger] Self::datas_applied(with_mems, grown, applied, written)
                &&& with_mems.module == before.module
                &&& with_mems.mems == after.mems
                &&& with_mems.globals == before.globals
                &&& grown.globals == store.globals
                &&& written.mems == stored.mems
                &&& applied.datas == after.datas
                &&& with_mems.spec_data_error(&grown, 0) is None
            };
        w.lemma_no_data_error(&g, 0, k);
        if forall|j: int|
            k < j < before.module.data_sec@.len() ==> !#[trigger] w.spec_data_covers(
                &g,
                j,
                w.spec_init_memory(&g, k),
                w.spec_init_offset(&g, k) + q,
            ) {
            Self::lemma_active_data_is_in_memory(w, g, a3, s3, k, q);
        }
        assert(w.spec_init_place(&g, k) is Ok);
    }

    /// Where no data segment from `from` on has an error, none of them
    /// has.
    pub proof fn lemma_no_data_error(&self, store: &Store, from: int, k: int)
        requires
            0 <= from <= k < self.module.data_sec@.len(),
            self.spec_data_error(store, from) is None,
        ensures
            self.spec_init_place(store, k) is Ok,
        decreases k - from,
    {
        if from < k {
            self.lemma_no_data_error(store, from + 1, k);
        }
    }

    /// Allocates what the module defines, in this order: functions, tables
    /// and element segments, memories and data segments, globals, and
    /// exports.
    pub fn init(&mut self, store: &mut Store) -> (r: VMState)
        requires
            old(self).elements@.len() == 0,
            old(self).datas@.len() == 0,
        ensures
            final(self).operands == old(self).operands,
            final(self).frames == old(self).frames,
            final(self).module == old(self).module,
            final(self).id == old(self).id,
            final(self).name == old(self).name,
            Self::initialized(*old(self), *old(store), r, *final(self), *final(store)),
            r is Ok ==> {
                &&& final(self).funcs@.len() == old(self).funcs@.len() + old(self).module.func_sec@.len()
                &&& final(self).tables@.len() == old(self).tables@.len() + old(self).module.table_sec@.len()
                &&& final(self).mems@.len() == old(self).mems@.len() + old(self).module.mem_sec@.len()
                &&& final(self).globals@.len() == old(self).globals@.len() + old(self).module.global_sec@.len()
                &&& final(self).elements@.len() == old(self).module.elem_sec@.len()
                &&& final(self).datas@.len() == old(self).module.data_sec@.len()
                &&& final(self).exports@.len() == old(self).exports@.len() + old(self).module.export_sec@.len()
                &&& forall|i: int|
                    0 <= i < old(self).module.data_sec@.len() && old(self).module.data_sec@[i].mode == DataMode::Active ==> (#[trigger] final(self).datas@[i])@ == Seq::<u8>::empty()
            },
    {
        let r1 = self.init_funcs(store);
        let ghost a1 = *self;
        let ghost s1 = *store;
        if let Err(e) = r1 {
            return Err(e);
        }
        let r2 = self.init_table_and_elem(store);
        let ghost a2 = *self;
        let ghost s2 = *store;
        if let Err(e) = r2 {
            proof {
                assert(Self::init_from_tables(a1, s1, Err(e), *self, *store));
            }
            return Err(e);
        }
        let r3 = self.init_mem_and_data(store);
        let ghost a3 = *self;
        let ghost s3 = *store;
        if let Err(e) = r3 {
            proof {
                assert(Self::init_from_mems(a2, s2, Err(e), *self, *store));
                assert(Self::init_from_tables(a1, s1, Err(e), *self, *store));
            }
            return Err(e);
        }
        let r4 = self.init_global(store);
        let ghost a4 = *self;
        let ghost s4 = *store;
        if let Err(e) = r4 {
            proof {
                assert(Self::init_from_globals(a3, s3, Err(e), *self, *store));
                assert(Self::init_from_mems(a2, s2, Err(e), *self, *store));
                assert(Self::init_from_tables(a1, s1, Err(e), *self, *store));
            }
            return Err(e);
        }
        self.init_exports();
        proof {
            assert(Self::init_from_globals(a3, s3, Ok(()), *self, *store));
            assert(Self::init_from_mems(a2, s2, Ok(()), *self, *store));
            assert(Self::init_from_tables(a1, s1, Ok(()), *self, *store));
        }
        Ok(())
    }

    /// Instantiates a module: links its imports against the importers and
    /// allocates what it defines. The start function is not run: the
    /// driver begins it with `call_start`.
    pub fn new<I: Importer>(name: &str, module: Module, store: &mut Store, importers: &Vec<I>) -> (r:
        Result<Self, InstantiateError>)
        ensures
            match r {
                Ok(vm) => exists|linked: VM, offered: Store| #[trigger]
                    Self::initialized(linked, offered, Ok(()), vm, *final(store))
                        && Self::linked_is(name@, module, linked),
                Err(InstantiateError::Vm(e)) => exists|linked: VM, offered: Store, left: VM|
                    #[trigger] Self::initialized(linked, offered, Err(e), left, *final(store))
                        && Self::linked_is(name@, module, linked),
                Err(InstantiateError::Link(_)) => {
                    &&& module.import_sec@.len() > 0
                    &&& final(store).tables == old(store).tables
                    &&& final(store).mems == old(store).mems
                    &&& final(store).globals == old(store).globals
                    &&& final(store).funcs@.len() >= old(store).funcs@.len()
                    &&& final(store).funcs@.take(old(store).funcs@.len() as int) == old(store).funcs@
                },
            },
            module.import_sec@.len() > 0 && importers@.len() == 0 ==> (r matches Err(
                InstantiateError::Link(LinkError::ModuleNotFound(wanted)),
            ) && wanted@ == module.import_sec@[0].module@),
            r matches Ok(vm) ==> {
                &&& vm.name@ == name@
                &&& vm.module == module
                &&& vm.operands@.len() == 0
                &&& vm.frames@.len() == 0
                &&& vm.funcs@.len() + vm.tables@.len() + vm.mems@.len() + vm.globals@.len()
                    == module.import_sec@.len() + module.func_sec@.len() + module.table_sec@.len()
                    + module.mem_sec@.len() + module.global_sec@.len()
                &&& vm.elements@.len() == module.elem_sec@.len()
                &&& vm.datas@.len() == module.data_sec@.len()
                &&& vm.exports@.len() == module.export_sec@.len()
                &&& forall|i: int|
                    0 <= i < module.data_sec@.len() && module.data_sec@[i].mode
                        == DataMode::Active ==> (#[trigger] vm.datas@[i])@ == Seq::<u8>::empty()
            },
    {
        let mut vm = VM::empty(name, module);
        match vm.resolve_imports(store, importers) {
            Ok(_) => {},
            Err(e) => {
                return Err(InstantiateError::Link(e));
            },
        }
        let ghost linked = vm;
        let ghost offered = *store;
        match vm.init(store) {
            Ok(_) => {},
            Err(e) => {
                proof {
                    assert(Self::initialized(linked, offered, Err(e), vm, *store));
                }
                return Err(InstantiateError::Vm(e));
            },
        }
        proof {
            assert(Self::initialized(linked, offered, Ok(()), vm, *store));
        }
        Ok(vm)
    }

    /// Whether a machine is that of a module by a name once its imports
    /// were linked: it has as many functions, tables, memories and globals
    /// together as the module has imports, and nothing else yet.
    pub open spec fn linked_is(name: Seq<char>, module: Module, linked: VM) -> bool {
        &&& linked.name@ == name
        &&& linked.module == module
        &&& linked.operands@.len() == 0
        &&& linked.frames@.len() == 0
        &&& linked.exports@.len() == 0
        &&& linked.datas@.len() == 0
        &&& linked.elements@.len() == 0
        &&& linked.funcs@.len() + linked.tables@.len() + linked.mems@.len()
            + linked.globals@.len() == module.import_sec@.len()
    }
}

impl Importer for VM {
    fn get_name(&self) -> (r: String)
        ensures
            r@ == self.name@,
    {
        self.name.clone()
    }

    fn get_id(&self) -> (r: String)
        ensures
            r@ == self.id@,
    {
        self.id.clone()
    }

    fn resolve_func(&self, name: &str) -> (r: Option<RFuncInst>)
        ensures
            r == self.spec_func_export(name@),
    {
        match self.find_export(name) {
            Some(ExportDesc::Func(idx)) => if (idx as usize) < self.funcs.len() {
                Some(self.funcs[idx as usize])
            } else {
                None
            },
            _ => None,
        }
    }

    fn resolve_table(&self, name: &str) -> (r: Option<RTableInst>)
        ensures
            r == self.spec_table_export(name@),
    {
        match self.find_export(name) {
            Some(ExportDesc::Table(idx)) => if (idx as usize) < self.tables.len() {
                Some(self.tables[idx as usize])
            } else {
                None
            },
            _ => None,
        }
    }

    fn resolve_mem(&self, name: &str) -> (r: Option<RMemInst>)
        ensures
            r == self.spec_mem_export(name@),
    {
        match self.find_export(name) {
            Some(ExportDesc::Mem(idx)) => if (idx as usize) < self.mems.len() {
                Some(self.mems[idx as usize])
            } else {
                None
            },
            _ => None,
        }
    }

    fn resolve_global(&self, name: &str) -> (r: Option<RGlobalInst>)
        ensures
            r == self.spec_global_export(name@),
    {
        match self.find_export(name) {
            Some(ExportDesc::Global(idx)) => if (idx as usize) < self.globals.len() {
                Some(self.globals[idx as usize])
            } else {
                None
            },
            _ => None,
        }
    }
}

impl VM {
    /// There is one last export of a name.
    pub proof fn lemma_last_export_is_unique(&self, name: Seq<char>)
        ensures
            forall|i: int, k: int|
                0 <= i < self.exports@.len() && 0 <= k < self.exports@.len() && (
                #[trigger] self.exports@[i]).name@ == name && (#[trigger] self.exports@[k]).name@
                    == name && (forall|j: int|
                    i < j < self.exports@.len() ==> (#[trigger] self.exports@[j]).name@ != name)
                    && (forall|j: int|
                    k < j < self.exports@.len() ==> (#[trigger] self.exports@[j]).name@ != name)
                    ==> i == k,
    {
    }
}

} // verus!
