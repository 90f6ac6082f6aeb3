use std::rc::Rc;

use wasm::binary::errors::ValidateErr;
use wasm::binary::instruction::{Block, BlockType, Instruction};
use wasm::binary::module::Module;
use wasm::binary::section::{
    CodeSeg, DataMode, DataSeg, ElementMode, ElementSeg, ExportDesc, ExportSeg, GlobalSeg,
    ImportDesc, ImportSeg,
};
use wasm::binary::types::{FuncType, GlobalType, Limits, Mut, RefType, TableType, ValType};
use wasm::binary::validate::{validate_limits, ImportSpace};

fn import(desc: ImportDesc) -> ImportSeg {
    ImportSeg { module: "env".to_string(), name: "x".to_string(), desc }
}

fn export(name: &str, desc: ExportDesc) -> ExportSeg {
    ExportSeg { name: name.to_string(), desc }
}

fn body() -> CodeSeg {
    CodeSeg { size: 2, locals: vec![], body: Rc::new(vec![]) }
}

fn check(module: &Module) -> Option<ValidateErr> {
    module.validate().err()
}

#[test]
fn an_empty_module_is_valid() {
    assert!(Module::new().validate().is_ok());
}

#[test]
fn type_indices_must_be_in_range() {
    let mut module = Module::new();
    module.func_sec = vec![0];
    module.code_sec = vec![body()];
    assert!(matches!(check(&module), Some(ValidateErr::FnTypeNotFound(0))));
    module.type_sec = vec![FuncType::empty()];
    assert!(check(&module).is_none());
    module.func_sec = vec![0, 1];
    assert!(matches!(check(&module), Some(ValidateErr::FnTypeNotFound(1))));
    let mut module = Module::new();
    module.import_sec = vec![import(ImportDesc::Func(3))];
    assert!(matches!(check(&module), Some(ValidateErr::FnTypeNotFound(3))));
}

#[test]
fn limits_must_be_in_order() {
    assert!(validate_limits(&Limits { min: 1, max: None }, 65536).is_ok());
    assert!(validate_limits(&Limits { min: 1, max: Some(1) }, 65536).is_ok());
    assert!(matches!(
        validate_limits(&Limits { min: 2, max: Some(1) }, 65536),
        Err(ValidateErr::MaxLtMin(1, 2))
    ));
    assert!(matches!(
        validate_limits(&Limits { min: 0, max: Some(65537) }, 65536),
        Err(ValidateErr::MaxTooLarge(65537, 65536))
    ));
    assert!(validate_limits(&Limits { min: 0, max: Some(65536) }, 65536).is_ok());
    let mut module = Module::new();
    module.mem_sec = vec![Limits { min: 0, max: Some(65537) }];
    assert!(matches!(check(&module), Some(ValidateErr::MaxTooLarge(65537, 65536))));
    module.mem_sec = vec![Limits { min: 3, max: Some(2) }];
    assert!(matches!(check(&module), Some(ValidateErr::MaxLtMin(2, 3))));
    let mut module = Module::new();
    module.table_sec = vec![TableType { elem_type: RefType::FuncRef, limits: Limits { min: 3, max: Some(2) } }];
    assert!(matches!(check(&module), Some(ValidateErr::MaxLtMin(2, 3))));
    module.table_sec[0].limits = Limits { min: 3, max: Some(u32::MAX) };
    assert!(check(&module).is_none());
}

#[test]
fn an_imported_table_or_memory_excludes_one_of_the_modules_own() {
    let table = TableType { elem_type: RefType::FuncRef, limits: Limits { min: 1, max: None } };
    let mut module = Module::new();
    module.import_sec = vec![import(ImportDesc::Table(table))];
    assert!(check(&module).is_none());
    module.table_sec = vec![table];
    assert!(matches!(check(&module), Some(ValidateErr::ExitImportTable)));
    let mut module = Module::new();
    module.import_sec = vec![import(ImportDesc::Mem(Limits { min: 1, max: None }))];
    assert!(check(&module).is_none());
    module.mem_sec = vec![Limits { min: 1, max: None }];
    assert!(matches!(check(&module), Some(ValidateErr::ExitImportMem)));
}

#[test]
fn initialisers_are_single_constants() {
    let global = |val_type: ValType, init_expr: Vec<Instruction>| GlobalSeg {
        type_: GlobalType { val_type, mut_: Mut::Const },
        init_expr,
    };
    let mut module = Module::new();
    module.global_sec = vec![global(ValType::I32, vec![Instruction::I32Const(1)])];
    assert!(check(&module).is_none());
    module.global_sec = vec![global(ValType::F64, vec![Instruction::F64Const(0)])];
    assert!(check(&module).is_none());
    module.global_sec = vec![global(ValType::I32, vec![])];
    assert!(matches!(check(&module), Some(ValidateErr::InitExprLen(0))));
    module.global_sec = vec![global(ValType::I32, vec![Instruction::I32Const(1), Instruction::Nop])];
    assert!(matches!(check(&module), Some(ValidateErr::InitExprLen(2))));
    module.global_sec = vec![global(ValType::I32, vec![Instruction::I64Const(1)])];
    assert!(matches!(
        check(&module),
        Some(ValidateErr::ExprRetNotEq(ValType::I64, ValType::I32))
    ));
    module.global_sec = vec![global(ValType::I32, vec![Instruction::I32Add])];
    assert!(matches!(check(&module), Some(ValidateErr::InitNotConst(0x6a))));
    module.global_sec = vec![global(
        ValType::I32,
        vec![Instruction::Block(Block::new(BlockType::Empty, vec![]))],
    )];
    assert!(matches!(check(&module), Some(ValidateErr::InitNotConst(0x02))));
    module.global_sec = vec![global(ValType::I32, vec![Instruction::MemoryFill(0)])];
    assert!(matches!(check(&module), Some(ValidateErr::InitNotConst(0xfc0b))));
}

#[test]
fn an_initialiser_may_read_an_imported_constant_global() {
    let global = |init_expr: Vec<Instruction>| GlobalSeg {
        type_: GlobalType { val_type: ValType::I64, mut_: Mut::Var },
        init_expr,
    };
    let mut module = Module::new();
    module.import_sec = vec![
        import(ImportDesc::Global(GlobalType { val_type: ValType::I64, mut_: Mut::Const })),
        import(ImportDesc::Func(0)),
        import(ImportDesc::Global(GlobalType { val_type: ValType::I64, mut_: Mut::Var })),
    ];
    module.type_sec = vec![FuncType::empty()];
    module.global_sec = vec![global(vec![Instruction::GlobalGet(0)])];
    assert!(check(&module).is_none());
    module.global_sec = vec![global(vec![Instruction::GlobalGet(1)])];
    assert!(matches!(check(&module), Some(ValidateErr::GlobalVarNotConst(1))));
    module.global_sec = vec![global(vec![Instruction::GlobalGet(2)])];
    assert!(matches!(check(&module), Some(ValidateErr::GlobalVarNotFound(2))));
    let space = ImportSpace::new(&module);
    assert_eq!(space.funcs, vec![0]);
    assert_eq!(space.globals.len(), 2);
    assert_eq!((space.tables, space.mems), (0, 0));
}

#[test]
fn exports_name_what_is_there_and_names_are_unique() {
    let mut module = Module::new();
    module.type_sec = vec![FuncType::empty()];
    module.func_sec = vec![0];
    module.code_sec = vec![body()];
    module.export_sec = vec![export("f", ExportDesc::Func(0))];
    assert!(check(&module).is_none());
    module.export_sec = vec![export("f", ExportDesc::Func(1))];
    assert!(matches!(check(&module), Some(ValidateErr::FnNotFound(1))));
    module.export_sec = vec![export("t", ExportDesc::Table(0))];
    assert!(matches!(check(&module), Some(ValidateErr::TableNotFound(0))));
    module.export_sec = vec![export("m", ExportDesc::Mem(0))];
    assert!(matches!(check(&module), Some(ValidateErr::MemNotFound(0))));
    module.export_sec = vec![export("g", ExportDesc::Global(0))];
    assert!(matches!(check(&module), Some(ValidateErr::GlobalVarNotFound(0))));
    module.export_sec = vec![
        export("a", ExportDesc::Func(0)),
        export("b", ExportDesc::Func(0)),
        export("a", ExportDesc::Func(0)),
        export("b", ExportDesc::Func(0)),
        export("a", ExportDesc::Func(0)),
    ];
    match check(&module) {
        Some(ValidateErr::DuplicateExport(names)) => assert_eq!(names, vec!["a", "b", "a"]),
        other => panic!("not a duplicate: {:?}", other),
    }
    module.import_sec = vec![import(ImportDesc::Func(0))];
    module.export_sec = vec![export("f", ExportDesc::Func(1))];
    assert!(check(&module).is_none());
}

#[test]
fn the_start_function_takes_and_gives_nothing() {
    let mut module = Module::new();
    module.type_sec = vec![
        FuncType::empty(),
        FuncType::new_params(vec![ValType::I32]),
        FuncType::new_result(ValType::I32),
    ];
    module.func_sec = vec![0, 1, 2];
    module.code_sec = vec![body(), body(), body()];
    module.start_sec = Some(0);
    assert!(check(&module).is_none());
    module.start_sec = Some(1);
    match check(&module) {
        Some(ValidateErr::StartFnNoParam(params)) => assert_eq!(params, vec![ValType::I32]),
        other => panic!("unexpected: {:?}", other),
    }
    module.start_sec = Some(2);
    match check(&module) {
        Some(ValidateErr::StartFnNoResult(results)) => assert_eq!(results, vec![ValType::I32]),
        other => panic!("unexpected: {:?}", other),
    }
    module.start_sec = Some(3);
    assert!(matches!(check(&module), Some(ValidateErr::FnTypeNotFound(3))));
    module.import_sec = vec![import(ImportDesc::Func(1))];
    module.start_sec = Some(0);
    assert!(matches!(check(&module), Some(ValidateErr::StartFnNoParam(_))));
    module.start_sec = Some(1);
    assert!(check(&module).is_none());
}

#[test]
fn active_segments_are_checked() {
    let element = |mode: ElementMode, func_idxs: Vec<u32>| ElementSeg {
        flag: 0,
        mode,
        type_: ValType::FuncRef,
        elem_kind: 0,
        func_idxs,
        init_expr: vec![],
    };
    let active = |table_idx: u32, offset: Instruction| ElementMode::Active {
        table_idx,
        offset_expr: vec![offset],
    };
    let mut module = Module::new();
    module.type_sec = vec![FuncType::empty()];
    module.func_sec = vec![0];
    module.code_sec = vec![body()];
    module.table_sec = vec![TableType { elem_type: RefType::FuncRef, limits: Limits { min: 1, max: None } }];
    module.elem_sec = vec![element(active(0, Instruction::I32Const(0)), vec![0])];
    assert!(check(&module).is_none());
    module.elem_sec = vec![element(active(1, Instruction::I32Const(0)), vec![0])];
    assert!(matches!(check(&module), Some(ValidateErr::TableNotFound(1))));
    module.elem_sec = vec![element(active(0, Instruction::I64Const(0)), vec![0])];
    assert!(matches!(check(&module), Some(ValidateErr::OffsetRetNotEqI32(ValType::I64))));
    module.elem_sec = vec![element(active(0, Instruction::I32Const(0)), vec![0, 1])];
    assert!(matches!(check(&module), Some(ValidateErr::FnTypeNotFound(1))));
    module.elem_sec = vec![element(ElementMode::Passive, vec![9])];
    assert!(check(&module).is_none());
    module.elem_sec = vec![element(ElementMode::Declarative, vec![9])];
    assert!(check(&module).is_none());

    let data = |mode: DataMode, mem_idx: u32, offset: Instruction| DataSeg {
        flag: 0,
        mode,
        init: vec![1],
        mem_idx,
        offset_expr: vec![offset],
    };
    module.elem_sec = vec![];
    module.mem_sec = vec![Limits { min: 1, max: None }];
    module.data_sec = vec![data(DataMode::Active, 0, Instruction::I32Const(0))];
    assert!(check(&module).is_none());
    module.data_sec = vec![data(DataMode::Active, 1, Instruction::I32Const(0))];
    assert!(matches!(check(&module), Some(ValidateErr::MemNotFound(1))));
    module.data_sec = vec![data(DataMode::Active, 0, Instruction::F32Const(0))];
    assert!(matches!(check(&module), Some(ValidateErr::OffsetRetNotEqI32(ValType::F32))));
    module.data_sec = vec![data(DataMode::Passive, 7, Instruction::Nop)];
    assert!(check(&module).is_none());
}

#[test]
fn the_first_error_counts() {
    let mut module = Module::new();
    module.import_sec = vec![import(ImportDesc::Func(0))];
    module.mem_sec = vec![Limits { min: 2, max: Some(1) }];
    assert!(matches!(check(&module), Some(ValidateErr::FnTypeNotFound(0))));
    module.import_sec = vec![];
    module.export_sec = vec![export("f", ExportDesc::Func(0))];
    assert!(matches!(check(&module), Some(ValidateErr::MaxLtMin(1, 2))));
}
