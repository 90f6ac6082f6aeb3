//! Sections of a module and the segments they hold.

use std::rc::Rc;

use vstd::prelude::*;

use super::errors::DecodeErr;
use super::instruction::expr_view;
use super::instruction::InstrView;
use super::instruction::Instruction;
use super::types::{GlobalType, MemType, TableType, ValType};

verus! {

pub type TypeIdx = u32;

pub type FuncIdx = u32;

pub type TableIdx = u32;

pub type MemIdx = u32;

pub type GlobalIdx = u32;

pub type LocalIdx = u32;

pub type LabelIdx = u32;

pub type MaybeU32 = Option<u32>;

pub type StartSeg = MaybeU32;

pub type DataCountSeg = MaybeU32;

/// A sequence of instructions, without the `end` that closes it.
pub type Expr = Vec<Instruction>;

/// The kind of a section, in the order of the section ids 0 to 12.
#[derive(Debug, Clone, Copy, PartialEq, Eq, Structural)]
pub enum Section {
    Custom,
    Type,
    Import,
    Function,
    Table,
    Memory,
    Global,
    Export,
    Start,
    Element,
    Code,
    Data,
    DataCount,
}

impl Section {
    /// The id byte of a section.
    pub open spec fn spec_id(self) -> u8 {
        match self {
            Section::Custom => 0,
            Section::Type => 1,
            Section::Import => 2,
            Section::Function => 3,
            Section::Table => 4,
            Section::Memory => 5,
            Section::Global => 6,
            Section::Export => 7,
            Section::Start => 8,
            Section::Element => 9,
            Section::Code => 10,
            Section::Data => 11,
            Section::DataCount => 12,
        }
    }

    /// The section an id byte names, if it is at most 12.
    pub open spec fn spec_from_u8(v: u8) -> Option<Section> {
        if v == 0 {
            Some(Section::Custom)
        } else if v == 1 {
            Some(Section::Type)
        } else if v == 2 {
            Some(Section::Import)
        } else if v == 3 {
            Some(Section::Function)
        } else if v == 4 {
            Some(Section::Table)
        } else if v == 5 {
            Some(Section::Memory)
        } else if v == 6 {
            Some(Section::Global)
        } else if v == 7 {
            Some(Section::Export)
        } else if v == 8 {
            Some(Section::Start)
        } else if v == 9 {
            Some(Section::Element)
        } else if v == 10 {
            Some(Section::Code)
        } else if v == 11 {
            Some(Section::Data)
        } else if v == 12 {
            Some(Section::DataCount)
        } else {
            None
        }
    }

    /// Reads a section kind from its id; an id above 12 is
    /// `UnexpectedSection`.
    pub fn from_u8(v: u8) -> (r: Result<Self, DecodeErr>)
        ensures
            r == match Self::spec_from_u8(v) {
                Some(s) => Ok::<Section, DecodeErr>(s),
                None => Err(DecodeErr::UnexpectedSection(v)),
            },
            r matches Ok(s) ==> s.spec_id() == v,
    {
        match v {
            0x00 => Ok(Section::Custom),
            0x01 => Ok(Section::Type),
            0x02 => Ok(Section::Import),
            0x03 => Ok(Section::Function),
            0x04 => Ok(Section::Table),
            0x05 => Ok(Section::Memory),
            0x06 => Ok(Section::Global),
            0x07 => Ok(Section::Export),
            0x08 => Ok(Section::Start),
            0x09 => Ok(Section::Element),
            0x0a => Ok(Section::Code),
            0x0b => Ok(Section::Data),
            0x0c => Ok(Section::DataCount),
            _ => Err(DecodeErr::UnexpectedSection(v)),
        }
    }

    pub fn id(self) -> (r: u8)
        ensures
            r == self.spec_id(),
            r <= 12,
            Self::spec_from_u8(r) == Some(self),
    {
        match self {
            Section::Custom => 0,
            Section::Type => 1,
            Section::Import => 2,
            Section::Function => 3,
            Section::Table => 4,
            Section::Memory => 5,
            Section::Global => 6,
            Section::Export => 7,
            Section::Start => 8,
            Section::Element => 9,
            Section::Code => 10,
            Section::Data => 11,
            Section::DataCount => 12,
        }
    }
}

/// A custom section: a name and bytes that the engine does not interpret.
#[derive(Debug)]
pub struct CustomSeg {
    pub name: String,
    pub data: Vec<u8>,
}

/// An import: the module and the name to look up, and what is expected.
#[derive(Debug)]
pub struct ImportSeg {
    pub module: String,
    pub name: String,
    pub desc: ImportDesc,
}

#[derive(Debug, Clone, Copy, PartialEq, Eq, Structural)]
pub enum ImportDesc {
    Func(TypeIdx),
    Table(TableType),
    Mem(MemType),
    Global(GlobalType),
}

/// A global: its type and the constant expression that initialises it.
#[derive(Debug)]
pub struct GlobalSeg {
    pub type_: GlobalType,
    pub init_expr: Expr,
}

/// An export: a name and the index of what is exported.
#[derive(Debug)]
pub struct ExportSeg {
    pub name: String,
    pub desc: ExportDesc,
}

#[derive(Debug, Clone, Copy, PartialEq, Eq, Structural)]
pub enum ExportDesc {
    Func(FuncIdx),
    Table(TableIdx),
    Mem(MemIdx),
    Global(GlobalIdx),
}

#[derive(Debug, Clone, Copy, PartialEq, Eq, Structural)]
pub enum ExternalKind {
    Func,
    Table,
    Memory,
    Global,
    Tag,
}

/// An element segment: references that initialise a table.
#[derive(Debug)]
pub struct ElementSeg {
    pub flag: u32,
    pub mode: ElementMode,
    pub type_: ValType,
    pub elem_kind: i32,
    pub func_idxs: Vec<FuncIdx>,
    pub init_expr: Vec<Expr>,
}

#[derive(Debug)]
pub enum ElementMode {
    /// Kept for a later `table.init`.
    Passive,
    /// Copied into a table when the module is instantiated.
    Active { table_idx: TableIdx, offset_expr: Expr },
    /// Only declares functions that `ref.func` may name.
    Declarative,
}

/// The code of a function: its locals and its body. The body is shared
/// with the frames that run it.
#[derive(Debug)]
pub struct CodeSeg {
    pub size: u32,
    pub locals: Vec<Locals>,
    pub body: Rc<Expr>,
}

/// A run of `n` locals of one type.
#[derive(Debug, Clone, Copy, PartialEq, Eq, Structural)]
pub struct Locals {
    pub n: u32,
    pub value_type: ValType,
}

/// A data segment: bytes that initialise a memory.
#[derive(Debug)]
pub struct DataSeg {
    pub flag: u32,
    pub mode: DataMode,
    pub init: Vec<u8>,
    pub mem_idx: MemIdx,
    pub offset_expr: Expr,
}

#[derive(Debug, Clone, Copy, PartialEq, Eq, Structural)]
pub enum DataMode {
    /// Kept for a later `memory.init`.
    Passive,
    /// Copied into a memory when the module is instantiated.
    Active,
}

pub const ACTIVE_0: u32 = 0;

pub const ACTIVE_2: u32 = 2;

pub const ACTIVE_4: u32 = 4;

pub const ACTIVE_6: u32 = 6;

pub const PASSIVE_1: u32 = 1;

pub const PASSIVE_5: u32 = 5;

pub const DECLARATIVE_3: u32 = 3;

pub const DECLARATIVE_7: u32 = 7;

/// A custom section as a mathematical value.
pub struct CustomSegView {
    pub name: Seq<char>,
    pub data: Seq<u8>,
}

impl DeepView for CustomSeg {
    type V = CustomSegView;

    open spec fn deep_view(&self) -> CustomSegView {
        CustomSegView { name: self.name@, data: self.data@ }
    }
}

/// An import as a mathematical value.
pub struct ImportSegView {
    pub module: Seq<char>,
    pub name: Seq<char>,
    pub desc: ImportDesc,
}

impl DeepView for ImportSeg {
    type V = ImportSegView;

    open spec fn deep_view(&self) -> ImportSegView {
        ImportSegView { module: self.module@, name: self.name@, desc: self.desc }
    }
}

/// A global as a mathematical value.
pub struct GlobalSegView {
    pub type_: GlobalType,
    pub init_expr: Seq<InstrView>,
}

impl DeepView for GlobalSeg {
    type V = GlobalSegView;

    open spec fn deep_view(&self) -> GlobalSegView {
        GlobalSegView { type_: self.type_, init_expr: expr_view(self.init_expr@) }
    }
}

/// An export as a mathematical value.
pub struct ExportSegView {
    pub name: Seq<char>,
    pub desc: ExportDesc,
}

impl DeepView for ExportSeg {
    type V = ExportSegView;

    open spec fn deep_view(&self) -> ExportSegView {
        ExportSegView { name: self.name@, desc: self.desc }
    }
}

/// The mode of an element segment as a mathematical value.
pub enum ElementModeView {
    Passive,
    Active { table_idx: TableIdx, offset_expr: Seq<InstrView> },
    Declarative,
}

impl DeepView for ElementMode {
    type V = ElementModeView;

    open spec fn deep_view(&self) -> ElementModeView {
        match self {
            ElementMode::Passive => ElementModeView::Passive,
            ElementMode::Active { table_idx, offset_expr } => ElementModeView::Active {
                table_idx: *table_idx,
                offset_expr: expr_view(offset_expr@),
            },
            ElementMode::Declarative => ElementModeView::Declarative,
        }
    }
}

/// The views of a sequence of expressions.
pub open spec fn exprs_view(e: Seq<Expr>) -> Seq<Seq<InstrView>> {
    Seq::new(e.len(), |k: int| expr_view(e[k]@))
}

/// An element segment as a mathematical value.
pub struct ElementSegView {
    pub flag: u32,
    pub mode: ElementModeView,
    pub type_: ValType,
    pub elem_kind: i32,
    pub func_idxs: Seq<FuncIdx>,
    pub init_expr: Seq<Seq<InstrView>>,
}

impl DeepView for ElementSeg {
    type V = ElementSegView;

    open spec fn deep_view(&self) -> ElementSegView {
        ElementSegView {
            flag: self.flag,
            mode: self.mode.deep_view(),
            type_: self.type_,
            elem_kind: self.elem_kind,
            func_idxs: self.func_idxs@,
            init_expr: exprs_view(self.init_expr@),
        }
    }
}

impl DeepView for Locals {
    type V = Locals;

    open spec fn deep_view(&self) -> Locals {
        *self
    }
}

/// The code of a function as a mathematical value.
pub struct CodeSegView {
    pub size: u32,
    pub locals: Seq<Locals>,
    pub body: Seq<InstrView>,
}

impl DeepView for CodeSeg {
    type V = CodeSegView;

    open spec fn deep_view(&self) -> CodeSegView {
        CodeSegView { size: self.size, locals: self.locals@, body: expr_view(self.body@) }
    }
}

/// A data segment as a mathematical value.
pub struct DataSegView {
    pub flag: u32,
    pub mode: DataMode,
    pub init: Seq<u8>,
    pub mem_idx: MemIdx,
    pub offset_expr: Seq<InstrView>,
}

impl DeepView for DataSeg {
    type V = DataSegView;

    open spec fn deep_view(&self) -> DataSegView {
        DataSegView {
            flag: self.flag,
            mode: self.mode,
            init: self.init@,
            mem_idx: self.mem_idx,
            offset_expr: expr_view(self.offset_expr@),
        }
    }
}

impl ElementSeg {
    /// Whether the references are given by expressions.
    pub fn init_is_expr(&self) -> (r: bool)
        ensures
            r == (self.init_expr@.len() > 0),
    {
        self.init_expr.len() > 0
    }

    /// Clears the references; the segment stays in place.
    pub fn drop_(&mut self)
        ensures
            final(self).func_idxs@ == Seq::<FuncIdx>::empty(),
            final(self).init_expr@ == Seq::<Expr>::empty(),
            final(self).flag == old(self).flag,
            final(self).mode == old(self).mode,
            final(self).type_ == old(self).type_,
            final(self).elem_kind == old(self).elem_kind,
    {
        self.func_idxs.clear();
        self.init_expr.clear();
    }
}

impl DataSeg {
    /// Clears the bytes; the segment stays in place.
    pub fn drop_(&mut self)
        ensures
            final(self).init@ == Seq::<u8>::empty(),
            final(self).flag == old(self).flag,
            final(self).mode == old(self).mode,
            final(self).mem_idx == old(self).mem_idx,
            final(self).offset_expr == old(self).offset_expr,
    {
        self.init.clear();
    }
}

/// The number of locals that the first `k` runs declare together.
pub open spec fn locals_total(locals: Seq<Locals>, k: int) -> int
    decreases k,
{
    if k <= 0 {
        0
    } else {
        locals_total(locals, k - 1) + locals[k - 1].n as int
    }
}

impl CodeSeg {
    /// The number of locals the function declares, or `None` when it is
    /// 2^64 or more.
    pub fn local_size(&self) -> (r: Option<u64>)
        ensures
            r == if locals_total(self.locals@, self.locals@.len() as int) <= u64::MAX {
                Some(locals_total(self.locals@, self.locals@.len() as int) as u64)
            } else {
                None
            },
            r matches Some(total) ==> total == locals_total(
                self.locals@,
                self.locals@.len() as int,
            ),
    {
        let mut total: u64 = 0;
        let mut i: usize = 0;
        while i < self.locals.len()
            invariant
                i <= self.locals@.len(),
                total == locals_total(self.locals@, i as int),
            decreases self.locals@.len() - i,
        {
            let n: u64 = self.locals[i].n as u64;
            if total > u64::MAX - n {
                proof {
                    lemma_locals_total_monotonic(self.locals@, i + 1, self.locals@.len() as int);
                }
                return None;
            }
            total = total + n;
            i += 1;
        }
        Some(total)
    }
}

/// More runs do not declare fewer locals.
pub proof fn lemma_locals_total_monotonic(locals: Seq<Locals>, i: int, j: int)
    requires
        0 <= i <= j,
    ensures
        0 <= locals_total(locals, i) <= locals_total(locals, j),
    decreases j,
{
    if i < j {
        lemma_locals_total_monotonic(locals, i, j - 1);
    } else if i > 0 {
        lemma_locals_total_monotonic(locals, i - 1, i - 1);
    }
}

} // verus!
