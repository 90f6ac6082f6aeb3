//! The validator: checks on a module after it was read.

use vstd::prelude::*;

use super::errors::ValidateErr;
use super::errors::ValidateErrView;
use super::instruction::lemma_expr_view;
use super::instruction::InstrView;
use super::instruction::Instruction;
use super::module::Module;
use super::module::ModuleView;
use super::section::DataMode;
use super::section::DataSeg;
use super::section::DataSegView;
use super::section::ElementMode;
use super::section::ElementModeView;
use super::section::ElementSeg;
use super::section::ElementSegView;
use super::section::ExportDesc;
use super::section::ExportSeg;
use super::section::ExportSegView;
use super::section::Expr;
use super::section::GlobalSeg;
use super::section::GlobalSegView;
use super::section::ImportDesc;
use super::section::ImportSeg;
use super::section::ImportSegView;
use super::types::clone_val_types;
use super::types::GlobalType;
use super::types::Limits;
use super::types::Mut;
use super::types::TableType;
use super::types::ValType;

verus! {

pub type ValidateResult<T = ()> = Result<T, ValidateErr>;

/// The result of a check in the model.
pub type Checked<T> = Result<T, ValidateErrView>;

/// Whether `r` is what `checked` says, the error being compared by its
/// deep view.
pub open spec fn judged<T>(checked: Checked<T>, r: ValidateResult<T>) -> bool {
    match checked {
        Ok(v) => r == Ok::<T, ValidateErr>(v),
        Err(e) => r is Err && r->Err_0.deep_view() == e,
    }
}

/// The most pages a memory may have.
pub const MAX_PAGES: u32 = 65536;

/// The type indices of the functions among the first `k` imports.
pub open spec fn imported_funcs(imports: Seq<ImportSegView>, k: int) -> Seq<u32>
    decreases k,
{
    if k <= 0 {
        Seq::empty()
    } else {
        match imports[k - 1].desc {
            ImportDesc::Func(idx) => imported_funcs(imports, k - 1).push(idx),
            _ => imported_funcs(imports, k - 1),
        }
    }
}

/// The types of the globals among the first `k` imports.
pub open spec fn imported_globals(imports: Seq<ImportSegView>, k: int) -> Seq<GlobalType>
    decreases k,
{
    if k <= 0 {
        Seq::empty()
    } else {
        match imports[k - 1].desc {
            ImportDesc::Global(t) => imported_globals(imports, k - 1).push(t),
            _ => imported_globals(imports, k - 1),
        }
    }
}

/// The number of tables among the first `k` imports.
pub open spec fn imported_tables(imports: Seq<ImportSegView>, k: int) -> nat
    decreases k,
{
    if k <= 0 {
        0
    } else {
        match imports[k - 1].desc {
            ImportDesc::Table(_) => imported_tables(imports, k - 1) + 1,
            _ => imported_tables(imports, k - 1),
        }
    }
}

/// The number of memories among the first `k` imports.
pub open spec fn imported_mems(imports: Seq<ImportSegView>, k: int) -> nat
    decreases k,
{
    if k <= 0 {
        0
    } else {
        match imports[k - 1].desc {
            ImportDesc::Mem(_) => imported_mems(imports, k - 1) + 1,
            _ => imported_mems(imports, k - 1),
        }
    }
}

impl ModuleView {
    /// The type indices of the imported functions, in order.
    pub open spec fn func_imports(self) -> Seq<u32> {
        imported_funcs(self.import_sec, self.import_sec.len() as int)
    }

    /// The types of the imported globals, in order.
    pub open spec fn global_imports(self) -> Seq<GlobalType> {
        imported_globals(self.import_sec, self.import_sec.len() as int)
    }

    pub open spec fn table_imports(self) -> nat {
        imported_tables(self.import_sec, self.import_sec.len() as int)
    }

    pub open spec fn mem_imports(self) -> nat {
        imported_mems(self.import_sec, self.import_sec.len() as int)
    }

    /// The number of functions: the imported ones, then the module's own.
    pub open spec fn func_total(self) -> nat {
        self.func_imports().len() + self.func_sec.len()
    }

    pub open spec fn table_total(self) -> nat {
        self.table_imports() + self.table_sec.len()
    }

    pub open spec fn mem_total(self) -> nat {
        self.mem_imports() + self.mem_sec.len()
    }

    pub open spec fn global_total(self) -> nat {
        self.global_imports().len() + self.global_sec.len()
    }

    /// The index of the type of function `idx`, if there is such a
    /// function.
    pub open spec fn func_type_idx(self, idx: nat) -> Option<u32> {
        if idx < self.func_imports().len() {
            Some(self.func_imports()[idx as int])
        } else if idx < self.func_total() {
            Some(self.func_sec[idx - self.func_imports().len()])
        } else {
            None
        }
    }
}

/// The imports counted by kind: the type indices of the functions, the
/// types of the globals, and the numbers of tables and memories.
pub struct ImportSpace {
    pub funcs: Vec<u32>,
    pub globals: Vec<GlobalType>,
    pub tables: usize,
    pub mems: usize,
}

impl ImportSpace {
    /// Whether the counts are those of the imports of `m`.
    pub open spec fn of(&self, m: ModuleView) -> bool {
        self.funcs@ == m.func_imports() && self.globals@ == m.global_imports() && self.tables
            == m.table_imports() && self.mems == m.mem_imports()
    }

    /// Counts the imports of a module by kind.
    pub fn new(module: &Module) -> (r: Self)
        ensures
            r.of(module.deep_view()),
    {
        let mut space = ImportSpace { funcs: Vec::new(), globals: Vec::new(), tables: 0, mems: 0 };
        let ghost imports = module.import_sec.deep_view();
        let mut i: usize = 0;
        while i < module.import_sec.len()
            invariant
                i <= module.import_sec.len(),
                imports == module.import_sec.deep_view(),
                imports.len() == module.import_sec@.len(),
                space.funcs@ == imported_funcs(imports, i as int),
                space.globals@ == imported_globals(imports, i as int),
                space.tables == imported_tables(imports, i as int),
                space.mems == imported_mems(imports, i as int),
                space.tables <= i,
                space.mems <= i,
            decreases module.import_sec.len() - i,
        {
            assert(imports[i as int] == module.import_sec@[i as int].deep_view());
            match module.import_sec[i].desc {
                ImportDesc::Func(idx) => {
                    space.funcs.push(idx);
                },
                ImportDesc::Table(_) => {
                    space.tables = space.tables + 1;
                },
                ImportDesc::Mem(_) => {
                    space.mems = space.mems + 1;
                },
                ImportDesc::Global(t) => {
                    space.globals.push(t);
                },
            }
            i += 1;
        }
        space
    }
}

/// The check of limits: a maximum is not below the minimum, and not above
/// `top`.
pub open spec fn spec_validate_limits(limits: Limits, top: u32) -> Checked<()> {
    match limits.max {
        Some(max) => if max < limits.min {
            Err(ValidateErrView::MaxLtMin(max, limits.min))
        } else if max > top {
            Err(ValidateErrView::MaxTooLarge(max, top))
        } else {
            Ok(())
        },
        None => Ok(()),
    }
}

pub fn validate_limits(limits: &Limits, top: u32) -> (r: ValidateResult)
    ensures
        judged(spec_validate_limits(*limits, top), r),
{
    match limits.max {
        Some(max) => {
            if max < limits.min {
                Err(ValidateErr::MaxLtMin(max, limits.min))
            } else if max > top {
                Err(ValidateErr::MaxTooLarge(max, top))
            } else {
                Ok(())
            }
        },
        None => Ok(()),
    }
}

/// The check of a type index: it names one of the module's types.
pub open spec fn spec_validate_type_idx(idx: u32, m: ModuleView) -> Checked<()> {
    if idx >= m.type_sec.len() {
        Err(ValidateErrView::FnTypeNotFound(idx))
    } else {
        Ok(())
    }
}

pub fn validate_type_idx(idx: u32, module: &Module) -> (r: ValidateResult)
    ensures
        judged(spec_validate_type_idx(idx, module.deep_view()), r),
{
    if (idx as usize) >= module.type_sec.len() {
        Err(ValidateErr::FnTypeNotFound(idx))
    } else {
        Ok(())
    }
}

/// The check of an import: the type index of a function names a type, and
/// the limits of a table or a memory are in order.
pub open spec fn spec_validate_import(v: ImportSegView, m: ModuleView) -> Checked<()> {
    match v.desc {
        ImportDesc::Func(idx) => spec_validate_type_idx(idx, m),
        ImportDesc::Table(t) => spec_validate_limits(t.limits, u32::MAX),
        ImportDesc::Mem(t) => spec_validate_limits(t, MAX_PAGES),
        ImportDesc::Global(_) => Ok(()),
    }
}

/// The check of a table of the module's own: no table is imported, and
/// the limits are in order.
pub open spec fn spec_validate_table(t: TableType, m: ModuleView) -> Checked<()> {
    if m.table_imports() > 0 {
        Err(ValidateErrView::ExitImportTable)
    } else {
        spec_validate_limits(t.limits, u32::MAX)
    }
}

/// The check of a memory of the module's own: no memory is imported, and
/// the limits are in order and within the most pages a memory may have.
pub open spec fn spec_validate_mem(t: Limits, m: ModuleView) -> Checked<()> {
    if m.mem_imports() > 0 {
        Err(ValidateErrView::ExitImportMem)
    } else {
        spec_validate_limits(t, MAX_PAGES)
    }
}

/// The type of a constant expression: it is one instruction, a numeric
/// constant or the reading of an imported global that cannot change.
pub open spec fn spec_const_expr_type(expr: Seq<InstrView>, m: ModuleView) -> Checked<ValType> {
    if expr.len() != 1 {
        Err(ValidateErrView::InitExprLen(expr.len() as usize))
    } else {
        match expr[0] {
            InstrView::Plain(Instruction::I32Const(_)) => Ok(ValType::I32),
            InstrView::Plain(Instruction::I64Const(_)) => Ok(ValType::I64),
            InstrView::Plain(Instruction::F32Const(_)) => Ok(ValType::F32),
            InstrView::Plain(Instruction::F64Const(_)) => Ok(ValType::F64),
            InstrView::Plain(Instruction::GlobalGet(idx)) => if idx >= m.global_imports().len() {
                Err(ValidateErrView::GlobalVarNotFound(idx))
            } else if m.global_imports()[idx as int].mut_ != Mut::Const {
                Err(ValidateErrView::GlobalVarNotConst(idx))
            } else {
                Ok(m.global_imports()[idx as int].val_type)
            },
            InstrView::Plain(i) => Err(ValidateErrView::InitNotConst(i.spec_discriminant())),
            InstrView::Block(_, _) => Err(ValidateErrView::InitNotConst(0x02)),
            InstrView::Loop(_, _) => Err(ValidateErrView::InitNotConst(0x03)),
            InstrView::If(_, _, _) => Err(ValidateErrView::InitNotConst(0x04)),
            InstrView::BrTable(_, _) => Err(ValidateErrView::InitNotConst(0x0e)),
            InstrView::Shuffle(_) => Err(ValidateErrView::InitNotConst(0xfd0d)),
        }
    }
}

/// The type of the value of an initialiser, or why it is none.
pub fn validate_const_expr(expr: &Expr, module: &Module) -> (r: ValidateResult<ValType>)
    ensures
        judged(
            spec_const_expr_type(super::instruction::expr_view(expr@), module.deep_view()),
            r,
        ),
{
    let imports = ImportSpace::new(module);
    const_expr_type(expr, module, &imports)
}

fn const_expr_type(expr: &Expr, module: &Module, space: &ImportSpace) -> (r: ValidateResult<
    ValType,
>)
    requires
        space.of(module.deep_view()),
    ensures
        judged(
            spec_const_expr_type(super::instruction::expr_view(expr@), module.deep_view()),
            r,
        ),
{
    proof {
        lemma_expr_view(expr@);
    }
    if expr.len() != 1 {
        return Err(ValidateErr::InitExprLen(expr.len()));
    }
    match &expr[0] {
        Instruction::I32Const(_) => Ok(ValType::I32),
        Instruction::I64Const(_) => Ok(ValType::I64),
        Instruction::F32Const(_) => Ok(ValType::F32),
        Instruction::F64Const(_) => Ok(ValType::F64),
        Instruction::GlobalGet(idx) => {
            if (*idx as usize) >= space.globals.len() {
                Err(ValidateErr::GlobalVarNotFound(*idx))
            } else if !space.globals[*idx as usize].is_const() {
                Err(ValidateErr::GlobalVarNotConst(*idx))
            } else {
                Ok(space.globals[*idx as usize].val_type)
            }
        },
        instr => Err(ValidateErr::InitNotConst(instr.discriminant())),
    }
}

/// The check of a global: its initialiser is constant and of its type.
pub open spec fn spec_validate_global(v: GlobalSegView, m: ModuleView) -> Checked<()> {
    match spec_const_expr_type(v.init_expr, m) {
        Err(e) => Err(e),
        Ok(t) => if t != v.type_.val_type {
            Err(ValidateErrView::ExprRetNotEq(t, v.type_.val_type))
        } else {
            Ok(())
        },
    }
}

/// The check of what an export names: the index is within its index
/// space.
pub open spec fn spec_validate_export_desc(desc: ExportDesc, m: ModuleView) -> Checked<()> {
    match desc {
        ExportDesc::Func(i) => if i >= m.func_total() {
            Err(ValidateErrView::FnNotFound(i))
        } else {
            Ok(())
        },
        ExportDesc::Table(i) => if i >= m.table_total() {
            Err(ValidateErrView::TableNotFound(i))
        } else {
            Ok(())
        },
        ExportDesc::Mem(i) => if i >= m.mem_total() {
            Err(ValidateErrView::MemNotFound(i))
        } else {
            Ok(())
        },
        ExportDesc::Global(i) => if i >= m.global_total() {
            Err(ValidateErrView::GlobalVarNotFound(i))
        } else {
            Ok(())
        },
    }
}

/// The first error among the checks of what the first `k` exports name.
pub open spec fn spec_validate_export_descs(
    exports: Seq<ExportSegView>,
    m: ModuleView,
    k: int,
) -> Checked<()>
    decreases k,
{
    if k <= 0 {
        Ok(())
    } else {
        match spec_validate_export_descs(exports, m, k - 1) {
            Err(e) => Err(e),
            Ok(_) => spec_validate_export_desc(exports[k - 1].desc, m),
        }
    }
}

/// Whether an export before the one at `j` has the same name.
pub open spec fn used_before(exports: Seq<ExportSegView>, j: int) -> bool {
    exists|i: int| 0 <= i < j && (#[trigger] exports[i]).name == exports[j].name
}

/// The names among the first `k` exports that an earlier export has too,
/// in the order of the exports.
pub open spec fn duplicate_names(exports: Seq<ExportSegView>, k: int) -> Seq<Seq<char>>
    decreases k,
{
    if k <= 0 {
        Seq::empty()
    } else if used_before(exports, k - 1) {
        duplicate_names(exports, k - 1).push(exports[k - 1].name)
    } else {
        duplicate_names(exports, k - 1)
    }
}

/// The check of the exports: each names something that is there, and no
/// name is used twice.
pub open spec fn spec_validate_exports(m: ModuleView) -> Checked<()> {
    match spec_validate_export_descs(m.export_sec, m, m.export_sec.len() as int) {
        Err(e) => Err(e),
        Ok(_) => if duplicate_names(m.export_sec, m.export_sec.len() as int).len() > 0 {
            Err(
                ValidateErrView::DuplicateExport(
                    duplicate_names(m.export_sec, m.export_sec.len() as int),
                ),
            )
        } else {
            Ok(())
        },
    }
}

/// The check of the start function: it is there, its type is there, and
/// it takes nothing and gives nothing.
pub open spec fn spec_validate_start(m: ModuleView) -> Checked<()> {
    match m.start_sec {
        None => Ok(()),
        Some(idx) => match m.func_type_idx(idx as nat) {
            None => Err(ValidateErrView::FnTypeNotFound(idx)),
            Some(t) => if t >= m.type_sec.len() {
                Err(ValidateErrView::FnTypeNotFound(idx))
            } else if m.type_sec[t as int].params.len() > 0 {
                Err(ValidateErrView::StartFnNoParam(m.type_sec[t as int].params))
            } else if m.type_sec[t as int].results.len() > 0 {
                Err(ValidateErrView::StartFnNoResult(m.type_sec[t as int].results))
            } else {
                Ok(())
            },
        },
    }
}

/// The first function index among the first `k` that names no function.
pub open spec fn first_bad_func(idxs: Seq<u32>, total: nat, k: int) -> Option<u32>
    decreases k,
{
    if k <= 0 {
        None
    } else {
        match first_bad_func(idxs, total, k - 1) {
            Some(i) => Some(i),
            None => if idxs[k - 1] >= total {
                Some(idxs[k - 1])
            } else {
                None
            },
        }
    }
}

/// The check of an element segment. Only an active one is checked: its
/// table is there, its offset is a constant of type `i32`, and the
/// functions it lists are there.
pub open spec fn spec_validate_element(v: ElementSegView, m: ModuleView) -> Checked<()> {
    match v.mode {
        ElementModeView::Active { table_idx, offset_expr } => if table_idx >= m.table_total() {
            Err(ValidateErrView::TableNotFound(table_idx))
        } else {
            match spec_const_expr_type(offset_expr, m) {
                Err(e) => Err(e),
                Ok(t) => if t != ValType::I32 {
                    Err(ValidateErrView::OffsetRetNotEqI32(t))
                } else {
                    match first_bad_func(v.func_idxs, m.func_total(), v.func_idxs.len() as int) {
                        Some(i) => Err(ValidateErrView::FnTypeNotFound(i)),
                        None => Ok(()),
                    }
                },
            }
        },
        _ => Ok(()),
    }
}

/// The check of a data segment. Only an active one is checked: its memory
/// is there, and its offset is a constant of type `i32`.
pub open spec fn spec_validate_data(v: DataSegView, m: ModuleView) -> Checked<()> {
    match v.mode {
        DataMode::Passive => Ok(()),
        DataMode::Active => if v.mem_idx >= m.mem_total() {
            Err(ValidateErrView::MemNotFound(v.mem_idx))
        } else {
            match spec_const_expr_type(v.offset_expr, m) {
                Err(e) => Err(e),
                Ok(t) => if t != ValType::I32 {
                    Err(ValidateErrView::OffsetRetNotEqI32(t))
                } else {
                    Ok(())
                },
            }
        },
    }
}

/// The check of a module: the imports, the functions, the tables, the
/// memories, the globals, the exports, the start function, the element
/// segments and the data segments, in this order; the first error counts.
pub open spec fn spec_validate(m: ModuleView) -> Checked<()> {
    if all_checked::<ImportSeg>(m.import_sec, m) is Err {
        all_checked::<ImportSeg>(m.import_sec, m)
    } else if all_checked::<u32>(m.func_sec, m) is Err {
        all_checked::<u32>(m.func_sec, m)
    } else if all_checked::<TableType>(m.table_sec, m) is Err {
        all_checked::<TableType>(m.table_sec, m)
    } else if all_checked::<Limits>(m.mem_sec, m) is Err {
        all_checked::<Limits>(m.mem_sec, m)
    } else if all_checked::<GlobalSeg>(m.global_sec, m) is Err {
        all_checked::<GlobalSeg>(m.global_sec, m)
    } else if spec_validate_exports(m) is Err {
        spec_validate_exports(m)
    } else if spec_validate_start(m) is Err {
        spec_validate_start(m)
    } else if all_checked::<ElementSeg>(m.elem_sec, m) is Err {
        all_checked::<ElementSeg>(m.elem_sec, m)
    } else {
        all_checked::<DataSeg>(m.data_sec, m)
    }
}

/// A part of a module that is checked against the whole module.
pub trait Validate: DeepView {
    /// What the check of this part gives in the module `m`.
    spec fn spec_validate_use_module(v: Self::V, m: ModuleView) -> Checked<()>;

    fn validate_use_module(&self, module: &Module) -> (r: ValidateResult)
        ensures
            judged(Self::spec_validate_use_module(self.deep_view(), module.deep_view()), r),
    ;
}

/// The first error among the checks of the first `k` items in module `m`.
pub open spec fn first_error<T: Validate>(items: Seq<T::V>, m: ModuleView, k: int) -> Checked<()>
    decreases k,
{
    if k <= 0 {
        Ok(())
    } else {
        match first_error::<T>(items, m, k - 1) {
            Err(e) => Err(e),
            Ok(_) => T::spec_validate_use_module(items[k - 1], m),
        }
    }
}

/// The first error among the checks of all the items in module `m`.
pub open spec fn all_checked<T: Validate>(items: Seq<T::V>, m: ModuleView) -> Checked<()> {
    first_error::<T>(items, m, items.len() as int)
}

impl Validate for ImportSeg {
    open spec fn spec_validate_use_module(v: ImportSegView, m: ModuleView) -> Checked<()> {
        spec_validate_import(v, m)
    }

    fn validate_use_module(&self, module: &Module) -> (r: ValidateResult) {
        match &self.desc {
            ImportDesc::Func(idx) => validate_type_idx(*idx, module),
            ImportDesc::Table(type_) => validate_limits(&type_.limits, u32::MAX),
            ImportDesc::Mem(type_) => validate_limits(type_, MAX_PAGES),
            ImportDesc::Global(_) => Ok(()),
        }
    }
}

impl Validate for u32 {
    open spec fn spec_validate_use_module(v: u32, m: ModuleView) -> Checked<()> {
        spec_validate_type_idx(v, m)
    }

    fn validate_use_module(&self, module: &Module) -> (r: ValidateResult) {
        validate_type_idx(*self, module)
    }
}

impl Validate for TableType {
    open spec fn spec_validate_use_module(v: TableType, m: ModuleView) -> Checked<()> {
        spec_validate_table(v, m)
    }

    fn validate_use_module(&self, module: &Module) -> (r: ValidateResult) {
        let imports = ImportSpace::new(module);
        let space = &imports;
        if space.tables > 0 {
            return Err(ValidateErr::ExitImportTable);
        }
        validate_limits(&self.limits, u32::MAX)
    }
}

impl Validate for Limits {
    open spec fn spec_validate_use_module(v: Limits, m: ModuleView) -> Checked<()> {
        spec_validate_mem(v, m)
    }

    fn validate_use_module(&self, module: &Module) -> (r: ValidateResult) {
        let imports = ImportSpace::new(module);
        let space = &imports;
        if space.mems > 0 {
            return Err(ValidateErr::ExitImportMem);
        }
        validate_limits(self, MAX_PAGES)
    }
}

impl Validate for GlobalSeg {
    open spec fn spec_validate_use_module(v: GlobalSegView, m: ModuleView) -> Checked<()> {
        spec_validate_global(v, m)
    }

    fn validate_use_module(&self, module: &Module) -> (r: ValidateResult) {
        let imports = ImportSpace::new(module);
        let space = &imports;
        let val_type = const_expr_type(&self.init_expr, module, space)?;
        if val_type != self.type_.val_type {
            Err(ValidateErr::ExprRetNotEq(val_type, self.type_.val_type))
        } else {
            Ok(())
        }
    }
}

impl Validate for ElementSeg {
    open spec fn spec_validate_use_module(v: ElementSegView, m: ModuleView) -> Checked<()> {
        spec_validate_element(v, m)
    }

    #[verifier::loop_isolation(false)]
    fn validate_use_module(&self, module: &Module) -> (r: ValidateResult) {
        let imports = ImportSpace::new(module);
        let space = &imports;
        match &self.mode {
            ElementMode::Passive => Ok(()),
            ElementMode::Declarative => Ok(()),
            ElementMode::Active { table_idx, offset_expr } => {
                if (*table_idx as u128) >= table_total(module, space) {
                    return Err(ValidateErr::TableNotFound(*table_idx));
                }
                let val_type = const_expr_type(offset_expr, module, space)?;
                if val_type != ValType::I32 {
                    return Err(ValidateErr::OffsetRetNotEqI32(val_type));
                }
                let total = func_total(module, space);
                let mut i: usize = 0;
                while i < self.func_idxs.len()
                    invariant
                        i <= self.func_idxs.len(),
                        total == module.deep_view().func_total(),
                        first_bad_func(self.func_idxs@, total as nat, i as int) is None,
                    decreases self.func_idxs.len() - i,
                {
                    if (self.func_idxs[i] as u128) >= total {
                        proof {
                            lemma_first_bad_func_found(
                                self.func_idxs@,
                                total as nat,
                                i as int,
                                self.func_idxs@.len() as int,
                            );
                        }
                        return Err(ValidateErr::FnTypeNotFound(self.func_idxs[i]));
                    }
                    i += 1;
                }
                Ok(())
            },
        }
    }
}

/// Once one index names no function, it is the first such index however
/// many more are looked at.
pub proof fn lemma_first_bad_func_found(idxs: Seq<u32>, total: nat, i: int, k: int)
    requires
        0 <= i < k <= idxs.len(),
        first_bad_func(idxs, total, i) is None,
        idxs[i] >= total,
    ensures
        first_bad_func(idxs, total, k) == Some(idxs[i]),
    decreases k,
{
    if k > i + 1 {
        lemma_first_bad_func_found(idxs, total, i, k - 1);
    }
}

impl Validate for DataSeg {
    open spec fn spec_validate_use_module(v: DataSegView, m: ModuleView) -> Checked<()> {
        spec_validate_data(v, m)
    }

    fn validate_use_module(&self, module: &Module) -> (r: ValidateResult) {
        let imports = ImportSpace::new(module);
        let space = &imports;
        match &self.mode {
            DataMode::Passive => Ok(()),
            DataMode::Active => {
                if (self.mem_idx as u128) >= mem_total(module, space) {
                    return Err(ValidateErr::MemNotFound(self.mem_idx));
                }
                let val_type = const_expr_type(&self.offset_expr, module, space)?;
                if val_type != ValType::I32 {
                    Err(ValidateErr::OffsetRetNotEqI32(val_type))
                } else {
                    Ok(())
                }
            },
        }
    }
}

/// The number of functions: the imported ones and the module's own.
fn func_total(module: &Module, space: &ImportSpace) -> (r: u128)
    requires
        space.of(module.deep_view()),
    ensures
        r == module.deep_view().func_total(),
{
    assert(module.func_sec.deep_view().len() == module.func_sec@.len());
    space.funcs.len() as u128 + module.func_sec.len() as u128
}

/// The number of tables: the imported ones and the module's own.
fn table_total(module: &Module, space: &ImportSpace) -> (r: u128)
    requires
        space.of(module.deep_view()),
    ensures
        r == module.deep_view().table_total(),
{
    assert(module.table_sec.deep_view().len() == module.table_sec@.len());
    space.tables as u128 + module.table_sec.len() as u128
}

/// The number of memories: the imported ones and the module's own.
fn mem_total(module: &Module, space: &ImportSpace) -> (r: u128)
    requires
        space.of(module.deep_view()),
    ensures
        r == module.deep_view().mem_total(),
{
    assert(module.mem_sec.deep_view().len() == module.mem_sec@.len());
    space.mems as u128 + module.mem_sec.len() as u128
}

/// The number of globals: the imported ones and the module's own.
fn global_total(module: &Module, space: &ImportSpace) -> (r: u128)
    requires
        space.of(module.deep_view()),
    ensures
        r == module.deep_view().global_total(),
{
    assert(module.global_sec.deep_view().len() == module.global_sec@.len());
    space.globals.len() as u128 + module.global_sec.len() as u128
}

/// Once a check fails, it is the first error however many more items are
/// looked at.
pub proof fn lemma_first_error_found<T: Validate>(items: Seq<T::V>, m: ModuleView, i: int, k: int)
    requires
        0 <= i < k <= items.len(),
        first_error::<T>(items, m, i) is Ok,
        T::spec_validate_use_module(items[i], m) is Err,
    ensures
        first_error::<T>(items, m, k) == T::spec_validate_use_module(items[i], m),
    decreases k,
{
    if k > i + 1 {
        lemma_first_error_found::<T>(items, m, i, k - 1);
    }
}

/// Whether the name of the export at `j` is the name of one before it.
fn name_used_before(exports: &Vec<ExportSeg>, j: usize) -> (r: bool)
    requires
        j < exports@.len(),
    ensures
        r == used_before(exports.deep_view(), j as int),
{
    let mut i: usize = 0;
    while i < j
        invariant
            i <= j,
            j < exports@.len(),
            forall|k: int| 0 <= k < i ==> (#[trigger] exports.deep_view()[k]).name
                != exports.deep_view()[j as int].name,
        decreases j - i,
    {
        if exports[i].name == exports[j].name {
            assert(exports.deep_view()[i as int].name == exports.deep_view()[j as int].name);
            return true;
        }
        i += 1;
    }
    false
}

/// Checks the exports: each names something that is there, and no name is
/// used twice.
pub fn validate_exports(module: &Module, space: &ImportSpace) -> (r: ValidateResult)
    requires
        space.of(module.deep_view()),
    ensures
        judged(spec_validate_exports(module.deep_view()), r),
{
    let ghost m = module.deep_view();
    let ghost exports = module.export_sec.deep_view();
    let funcs = func_total(module, space);
    let tables = table_total(module, space);
    let mems = mem_total(module, space);
    let globals = global_total(module, space);
    let mut dups: Vec<String> = Vec::new();
    let mut j: usize = 0;
    proof {
        assert(dups.deep_view() =~= duplicate_names(exports, 0));
    }
    while j < module.export_sec.len()
        invariant
            j <= module.export_sec.len(),
            m == module.deep_view(),
            exports == module.export_sec.deep_view(),
            exports.len() == module.export_sec@.len(),
            funcs == m.func_total(),
            tables == m.table_total(),
            mems == m.mem_total(),
            globals == m.global_total(),
            spec_validate_export_descs(exports, m, j as int) is Ok,
            dups.deep_view() == duplicate_names(exports, j as int),
        decreases module.export_sec.len() - j,
    {
        let export = &module.export_sec[j];
        assert(exports[j as int] == export.deep_view());
        let found = match export.desc {
            ExportDesc::Func(i) => if (i as u128) >= funcs {
                Err(ValidateErr::FnNotFound(i))
            } else {
                Ok(())
            },
            ExportDesc::Table(i) => if (i as u128) >= tables {
                Err(ValidateErr::TableNotFound(i))
            } else {
                Ok(())
            },
            ExportDesc::Mem(i) => if (i as u128) >= mems {
                Err(ValidateErr::MemNotFound(i))
            } else {
                Ok(())
            },
            ExportDesc::Global(i) => if (i as u128) >= globals {
                Err(ValidateErr::GlobalVarNotFound(i))
            } else {
                Ok(())
            },
        };
        if found.is_err() {
            proof {
                lemma_export_desc_error_found(exports, m, j as int, exports.len() as int);
            }
            return found;
        }
        if name_used_before(&module.export_sec, j) {
            let ghost before = dups.deep_view();
            let name = export.name.clone();
            dups.push(name);
            proof {
                assert(dups.deep_view() =~= before.push(export.name@));
            }
        }
        j += 1;
    }
    if dups.len() > 0 {
        Err(ValidateErr::DuplicateExport(dups))
    } else {
        Ok(())
    }
}

/// Once what an export names is not there, that is the first error however
/// many more exports are looked at.
pub proof fn lemma_export_desc_error_found(
    exports: Seq<ExportSegView>,
    m: ModuleView,
    i: int,
    k: int,
)
    requires
        0 <= i < k <= exports.len(),
        spec_validate_export_descs(exports, m, i) is Ok,
        spec_validate_export_desc(exports[i].desc, m) is Err,
    ensures
        spec_validate_export_descs(exports, m, k) == spec_validate_export_desc(exports[i].desc, m),
    decreases k,
{
    if k > i + 1 {
        lemma_export_desc_error_found(exports, m, i, k - 1);
    }
}

/// Checks the start function: it is there, its type is there, and it
/// takes nothing and gives nothing.
pub fn validate_start(module: &Module, space: &ImportSpace) -> (r: ValidateResult)
    requires
        space.of(module.deep_view()),
    ensures
        judged(spec_validate_start(module.deep_view()), r),
{
    let idx = match module.start_sec {
        None => {
            return Ok(());
        },
        Some(idx) => idx,
    };
    let i: usize = idx as usize;
    assert(module.func_sec.deep_view() =~= module.func_sec@);
    let type_idx: u32 = if i < space.funcs.len() {
        space.funcs[i]
    } else if i - space.funcs.len() < module.func_sec.len() {
        module.func_sec[i - space.funcs.len()]
    } else {
        return Err(ValidateErr::FnTypeNotFound(idx));
    };
    if (type_idx as usize) >= module.type_sec.len() {
        return Err(ValidateErr::FnTypeNotFound(idx));
    }
    let func_type = &module.type_sec[type_idx as usize];
    assert(module.deep_view().type_sec[type_idx as int] == func_type.deep_view());
    if func_type.params.len() > 0 {
        return Err(ValidateErr::StartFnNoParam(clone_val_types(&func_type.params)));
    }
    if func_type.results.len() > 0 {
        return Err(ValidateErr::StartFnNoResult(clone_val_types(&func_type.results)));
    }
    Ok(())
}

impl Module {
    /// Checks each item of a section against the module; the first error
    /// counts.
    pub fn validates<T: Validate>(secs: &Vec<T>, module: &Module) -> (r: ValidateResult)
        ensures
            judged(all_checked::<T>(secs.deep_view(), module.deep_view()), r),
    {
        let ghost m = module.deep_view();
        let ghost items = secs.deep_view();
        let mut i: usize = 0;
        while i < secs.len()
            invariant
                i <= secs.len(),
                items == secs.deep_view(),
                items.len() == secs@.len(),
                m == module.deep_view(),
                first_error::<T>(items, m, i as int) is Ok,
            decreases secs.len() - i,
        {
            let r = secs[i].validate_use_module(module);
            assert(items[i as int] == secs@[i as int].deep_view());
            if r.is_err() {
                proof {
                    lemma_first_error_found::<T>(items, m, i as int, items.len() as int);
                }
                return r;
            }
            i += 1;
        }
        Ok(())
    }

    /// Checks the module: imports, functions, tables, memories, globals,
    /// exports, the start function, element segments and data segments, in
    /// this order. The first error counts.
    pub fn validate(&self) -> (r: ValidateResult)
        ensures
            judged(spec_validate(self.deep_view()), r),
    {
        let space = ImportSpace::new(self);
        Module::validates(&self.import_sec, self)?;
        Module::validates(&self.func_sec, self)?;
        Module::validates(&self.table_sec, self)?;
        Module::validates(&self.mem_sec, self)?;
        Module::validates(&self.global_sec, self)?;
        validate_exports(self, &space)?;
        validate_start(self, &space)?;
        Module::validates(&self.elem_sec, self)?;
        Module::validates(&self.data_sec, self)
    }
}

} // verus!
