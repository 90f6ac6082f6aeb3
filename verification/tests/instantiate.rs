use std::rc::Rc;

use wasm::binary::instruction::Instruction;
use wasm::binary::module::Module;
use wasm::binary::section::{
    CodeSeg, DataMode, DataSeg, ElementMode, ElementSeg, ExportDesc, ExportSeg, GlobalSeg,
};
use wasm::binary::types::{FuncType, GlobalType, Limits, Mut, RefType, TableType, ValType};
use wasm::execution::errors::{InstError, InstantiateError, Trap, VmError};
use wasm::execution::importer::Importer;
use wasm::execution::value::ValInst;
use wasm::execution::vm::{Store, VM};

fn instantiate(module: Module, store: &mut Store) -> Result<VM, VmError> {
    let nobody: Vec<VM> = Vec::new();
    match VM::new("m", module, store, &nobody) {
        Ok(vm) => Ok(vm),
        Err(InstantiateError::Vm(e)) => Err(e),
        Err(InstantiateError::Link(e)) => panic!("nothing to link: {:?}", e),
    }
}

fn data(mode: DataMode, offset: i32, init: &[u8]) -> DataSeg {
    DataSeg {
        flag: if mode == DataMode::Active { 0 } else { 1 },
        mode,
        init: init.to_vec(),
        mem_idx: 0,
        offset_expr: vec![Instruction::I32Const(offset)],
    }
}

fn elements(mode: ElementMode, func_idxs: Vec<u32>) -> ElementSeg {
    ElementSeg { flag: 0, mode, type_: ValType::FuncRef, elem_kind: 0, func_idxs, init_expr: vec![] }
}

fn at(table_idx: u32, offset: i32) -> ElementMode {
    ElementMode::Active { table_idx, offset_expr: vec![Instruction::I32Const(offset)] }
}

fn with_functions(n: usize) -> Module {
    let mut module = Module::new();
    module.type_sec = vec![FuncType::empty()];
    for _ in 0..n {
        module.func_sec.push(0);
        module.code_sec.push(CodeSeg { size: 2, locals: vec![], body: Rc::new(vec![]) });
    }
    module
}

#[test]
fn the_last_data_segment_that_writes_a_byte_wins() {
    let mut module = Module::new();
    module.mem_sec = vec![Limits { min: 1, max: None }];
    module.data_sec = vec![
        data(DataMode::Active, 0, &[1, 1, 1, 1]),
        data(DataMode::Passive, 0, &[9, 9]),
        data(DataMode::Active, 2, &[2, 2, 2]),
        data(DataMode::Active, 65535, &[3]),
        data(DataMode::Active, 65536, &[]),
    ];
    let mut store = Store::new();
    let vm = instantiate(module, &mut store).unwrap();
    let mem = &store.mems[vm.mems[0]];
    assert_eq!(mem.mem_reads(0, 6), Ok(vec![1, 1, 2, 2, 2, 0]));
    assert_eq!(mem.mem_read(65535), Ok(3));
    assert_eq!(mem.mem_size(), 1);
    assert_eq!(vm.datas, vec![vec![], vec![9, 9], vec![], vec![], vec![]]);
}

#[test]
fn a_data_segment_must_lie_in_its_memory() {
    let mut module = Module::new();
    module.mem_sec = vec![Limits { min: 1, max: None }];
    module.data_sec = vec![data(DataMode::Active, 0, &[7]), data(DataMode::Active, 65535, &[1, 2])];
    let mut store = Store::new();
    assert_eq!(
        instantiate(module, &mut store).err(),
        Some(VmError::Inst(InstError::OutofBoundMem))
    );
    // the segment before it was written
    assert_eq!(store.mems[0].mem_read(0), Ok(7));
    assert_eq!(store.mems[0].mem_read(65535), Ok(0));

    let mut module = Module::new();
    module.data_sec = vec![data(DataMode::Active, 0, &[])];
    assert_eq!(
        instantiate(module, &mut Store::new()).err(),
        Some(VmError::Inst(InstError::OutofBoundMem))
    );
    let mut module = Module::new();
    module.mem_sec = vec![Limits { min: 1, max: None }];
    module.data_sec = vec![DataSeg {
        flag: 0,
        mode: DataMode::Active,
        init: vec![1],
        mem_idx: 0,
        offset_expr: vec![Instruction::I64Const(0)],
    }];
    assert_eq!(
        instantiate(module, &mut Store::new()).err(),
        Some(VmError::Trap(Trap::ValTypeNotEq))
    );
    let mut module = Module::new();
    module.mem_sec = vec![Limits { min: 65537, max: None }];
    assert_eq!(
        instantiate(module, &mut Store::new()).err(),
        Some(VmError::Inst(InstError::OutofBoundMem))
    );
}

#[test]
fn element_segments_fill_the_tables() {
    let mut module = with_functions(3);
    module.table_sec =
        vec![TableType { elem_type: RefType::FuncRef, limits: Limits { min: 4, max: None } }];
    module.elem_sec = vec![
        elements(at(0, 0), vec![0, 1]),
        elements(ElementMode::Passive, vec![2, 2]),
        elements(ElementMode::Declarative, vec![1]),
        elements(at(0, 1), vec![2, 2]),
    ];
    let mut store = Store::new();
    let vm = instantiate(module, &mut store).unwrap();
    let table = &store.tables[vm.tables[0]];
    assert_eq!(table.get_func_inst(0), Ok(vm.funcs[0]));
    assert_eq!(table.get_func_inst(1), Ok(vm.funcs[2]));
    assert_eq!(table.get_func_inst(2), Ok(vm.funcs[2]));
    assert_eq!(table.get_func_inst(3), Err(VmError::Trap(Trap::NullRef)));
    let kept: Vec<usize> = vm.elements.iter().map(|e| e.refs.len()).collect();
    assert_eq!(kept, vec![0, 2, 0, 0]);
    assert_eq!(vm.elements[1].refs, vec![ValInst::FuncRef(Some(vm.funcs[2])); 2]);
}

#[test]
fn an_element_segment_must_lie_in_its_table() {
    let table = TableType { elem_type: RefType::FuncRef, limits: Limits { min: 2, max: None } };
    let mut module = with_functions(1);
    module.table_sec = vec![table];
    module.elem_sec = vec![elements(at(0, 1), vec![0, 0])];
    let mut store = Store::new();
    assert_eq!(
        instantiate(module, &mut store).err(),
        Some(VmError::Inst(InstError::OutofBoundTable))
    );
    assert_eq!(store.tables[0].get_func_inst(1), Err(VmError::Trap(Trap::NullRef)));
    let mut module = with_functions(1);
    module.elem_sec = vec![elements(at(0, 0), vec![])];
    assert_eq!(
        instantiate(module, &mut Store::new()).err(),
        Some(VmError::Inst(InstError::OutofBoundTable))
    );
    let mut module = with_functions(1);
    module.table_sec = vec![table];
    module.elem_sec = vec![elements(ElementMode::Passive, vec![1])];
    assert_eq!(
        instantiate(module, &mut Store::new()).err(),
        Some(VmError::Trap(Trap::FnNotFound))
    );
    let mut module = with_functions(1);
    module.table_sec = vec![table];
    module.elem_sec = vec![ElementSeg {
        flag: 5,
        mode: ElementMode::Passive,
        type_: ValType::FuncRef,
        elem_kind: 0,
        func_idxs: vec![],
        init_expr: vec![vec![Instruction::RefFunc(0)], vec![Instruction::RefNull(0x70)]],
    }];
    let mut store = Store::new();
    let vm = instantiate(module, &mut store).unwrap();
    assert_eq!(
        vm.elements[0].refs,
        vec![ValInst::FuncRef(Some(vm.funcs[0])), ValInst::FuncRef(None)]
    );
}

#[test]
fn globals_get_the_values_of_their_initialisers() {
    let global = |val_type: ValType, init: Instruction| GlobalSeg {
        type_: GlobalType { val_type, mut_: Mut::Var },
        init_expr: vec![init],
    };
    let mut module = Module::new();
    module.global_sec = vec![
        global(ValType::I32, Instruction::I32Const(5)),
        global(ValType::I32, Instruction::GlobalGet(0)),
        global(ValType::F64, Instruction::F64Const(7)),
    ];
    let mut store = Store::new();
    let vm = instantiate(module, &mut store).unwrap();
    let values: Vec<ValInst> = vm.globals.iter().map(|a| store.globals[*a].value()).collect();
    assert_eq!(values, vec![ValInst::I32(5), ValInst::I32(5), ValInst::F64(7)]);

    let mut module = Module::new();
    module.global_sec = vec![
        global(ValType::I32, Instruction::I32Const(5)),
        global(ValType::I64, Instruction::I32Const(5)),
    ];
    let mut store = Store::new();
    assert_eq!(
        instantiate(module, &mut store).err(),
        Some(VmError::Trap(Trap::GlobalTypeNotEq))
    );
    assert_eq!(store.globals.len(), 1);
    let mut module = Module::new();
    module.global_sec = vec![global(ValType::I32, Instruction::GlobalGet(0))];
    assert_eq!(
        instantiate(module, &mut Store::new()).err(),
        Some(VmError::Trap(Trap::OutofRange))
    );
    let mut module = Module::new();
    module.global_sec = vec![global(ValType::I32, Instruction::I32Add)];
    assert_eq!(
        instantiate(module, &mut Store::new()).err(),
        Some(VmError::Inst(InstError::Unreachable))
    );
}

#[test]
fn functions_need_a_type_and_a_body() {
    let mut module = with_functions(2);
    module.func_sec[1] = 1;
    let mut store = Store::new();
    assert_eq!(instantiate(module, &mut store).err(), Some(VmError::Trap(Trap::OutofRange)));
    assert_eq!(store.funcs.len(), 1);
    let mut module = with_functions(2);
    module.code_sec.pop();
    assert_eq!(
        instantiate(module, &mut Store::new()).err(),
        Some(VmError::Trap(Trap::FnNoBody))
    );
}

#[test]
fn exports_are_found_by_their_last_name() {
    let mut module = with_functions(2);
    module.mem_sec = vec![Limits { min: 0, max: None }];
    module.export_sec = vec![
        ExportSeg { name: "f".to_string(), desc: ExportDesc::Func(0) },
        ExportSeg { name: "m".to_string(), desc: ExportDesc::Mem(0) },
        ExportSeg { name: "f".to_string(), desc: ExportDesc::Func(1) },
        ExportSeg { name: "g".to_string(), desc: ExportDesc::Global(0) },
    ];
    let mut store = Store::new();
    let mut vm = instantiate(module, &mut store).unwrap();
    assert_eq!(vm.resolve_func("f"), Some(vm.funcs[1]));
    assert_eq!(vm.resolve_mem("m"), Some(vm.mems[0]));
    assert_eq!(vm.resolve_mem("f"), None);
    assert_eq!(vm.resolve_global("g"), None);
    assert_eq!(vm.resolve_table("t"), None);
    assert_eq!(vm.get_name(), "m");
    assert_eq!(vm.get_id(), vm.id);
    assert!(vm.call_start(&store).unwrap().is_none());
}

#[test]
fn a_module_without_importers_cannot_link_its_imports() {
    let mut module = with_functions(1);
    module.import_sec = vec![wasm::binary::section::ImportSeg {
        module: "env".to_string(),
        name: "f".to_string(),
        desc: wasm::binary::section::ImportDesc::Func(0),
    }];
    let mut store = Store::new();
    store.alloc_mem(wasm::execution::inst::memory::MemInst::new(Limits { min: 1, max: None }));
    let nobody: Vec<VM> = Vec::new();
    match VM::new("m", module, &mut store, &nobody) {
        Err(InstantiateError::Link(wasm::execution::errors::LinkError::ModuleNotFound(name))) => {
            assert_eq!(name, "env")
        }
        other => panic!("unexpected: {:?}", other.map(|vm| vm.id)),
    }
    assert_eq!((store.funcs.len(), store.mems.len()), (0, 1));
    assert_eq!((store.tables.len(), store.globals.len()), (0, 0));
    // without imports nothing is asked of anybody
    assert!(VM::new("m", with_functions(1), &mut store, &nobody).is_ok());
}
