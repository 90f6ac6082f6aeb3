use std::rc::Rc;

use wasm::binary::instruction::{Block, BlockType, BrTableArg, IfBlock, Instruction, MemoryArg};
use wasm::binary::module::Module;
use wasm::binary::types::{FuncType, GlobalType, Limits, Mut, RefType, TableType, ValType};
use wasm::execution::errors::{InstError, InstantiateError, LinkError, Trap, VmError};
use wasm::execution::importer::Importer;
use wasm::execution::inst::function::FuncInst;
use wasm::execution::inst::global::GlobalInst;
use wasm::execution::inst::memory::MemInst;
use wasm::execution::inst::table::TableInst;
use wasm::execution::inst::ExportInst;
use wasm::execution::init::link;
use wasm::execution::stack::frame::{Frame, LabelKind};
use wasm::execution::value::{v128, ValInst};
use wasm::execution::vm::{Step, Store, VM};

fn machine(store: &mut Store) -> VM {
    let mut vm = VM::empty("m", Module::new());
    let mem = store.alloc_mem(MemInst::new(Limits { min: 1, max: Some(2) }));
    vm.mems.push(mem);
    let table = store.alloc_table(TableInst::new(TableType {
        elem_type: RefType::FuncRef,
        limits: Limits { min: 2, max: Some(3) },
    }));
    vm.tables.push(table);
    let global = store.alloc_global(
        GlobalInst::new(GlobalType { val_type: ValType::I32, mut_: Mut::Var }, ValInst::I32(7)).unwrap(),
    );
    vm.globals.push(global);
    let fixed = store.alloc_global(
        GlobalInst::new(GlobalType { val_type: ValType::I32, mut_: Mut::Const }, ValInst::I32(8)).unwrap(),
    );
    vm.globals.push(fixed);
    vm
}

fn exec(vm: &mut VM, store: &mut Store, instr: Instruction) -> Result<(), VmError> {
    match vm.exec_instr(store, &instr)? {
        Step::Next => Ok(()),
        other => panic!("the instruction should go on: {:?}", other),
    }
}

fn memarg(offset: u32) -> MemoryArg {
    MemoryArg { align: 0, offset }
}

#[test]
fn loads_and_stores_check_the_whole_access() {
    let mut store = Store::new();
    let mut vm = machine(&mut store);
    vm.push(ValInst::I32(65532));
    vm.push(ValInst::I32(0x1234_5678));
    assert_eq!(exec(&mut vm, &mut store, Instruction::I32Store(memarg(0))), Ok(()));
    assert!(vm.operands.is_empty());
    vm.push(ValInst::I32(65532));
    assert_eq!(exec(&mut vm, &mut store, Instruction::I32Load(memarg(0))), Ok(()));
    assert_eq!(vm.operands, vec![ValInst::I32(0x1234_5678)]);
    vm.reset();
    vm.push(ValInst::I32(65533));
    assert_eq!(
        exec(&mut vm, &mut store, Instruction::I32Load(memarg(0))),
        Err(VmError::Trap(Trap::OutofRange))
    );
    vm.reset();
    vm.push(ValInst::I32(65528));
    assert_eq!(exec(&mut vm, &mut store, Instruction::I64Load(memarg(0))), Ok(()));
    vm.reset();
    vm.push(ValInst::I32(65528));
    assert_eq!(
        exec(&mut vm, &mut store, Instruction::I64Load(memarg(1))),
        Err(VmError::Trap(Trap::OutofRange))
    );
    vm.reset();
    vm.push(ValInst::I32(-1));
    assert_eq!(
        exec(&mut vm, &mut store, Instruction::I32Load8U(memarg(u32::MAX))),
        Err(VmError::Trap(Trap::OutofRange))
    );
    vm.reset();
    vm.push(ValInst::I32(65535));
    vm.push(ValInst::I32(0x1ff));
    assert_eq!(exec(&mut vm, &mut store, Instruction::I32Store8(memarg(0))), Ok(()));
    vm.push(ValInst::I32(65535));
    vm.push(ValInst::I32(1));
    assert_eq!(
        exec(&mut vm, &mut store, Instruction::I32Store16(memarg(0))),
        Err(VmError::Inst(InstError::OutofBoundMem))
    );
    assert_eq!(store.mems[0].mem_read(65535), Ok(0xff));
}

#[test]
fn narrow_loads_extend() {
    let mut store = Store::new();
    let mut vm = machine(&mut store);
    store.mems[0].mem_writes(0, &[0x80, 0xff, 0xff, 0xff, 0x01, 0x02, 0x03, 0x04]).unwrap();
    let mut load = |instr: Instruction| {
        vm.reset();
        vm.push(ValInst::I32(0));
        exec(&mut vm, &mut store, instr).unwrap();
        vm.operands[0]
    };
    assert_eq!(load(Instruction::I32Load8S(memarg(0))), ValInst::I32(-128));
    assert_eq!(load(Instruction::I32Load8U(memarg(0))), ValInst::I32(128));
    assert_eq!(load(Instruction::I32Load16S(memarg(0))), ValInst::I32(-128));
    assert_eq!(load(Instruction::I32Load16U(memarg(0))), ValInst::I32(0xff80));
    assert_eq!(load(Instruction::I64Load8S(memarg(0))), ValInst::I64(-128));
    assert_eq!(load(Instruction::I64Load16U(memarg(0))), ValInst::I64(0xff80));
    assert_eq!(load(Instruction::I64Load32S(memarg(0))), ValInst::I64(-128));
    assert_eq!(load(Instruction::I64Load32U(memarg(0))), ValInst::I64(0xffff_ff80));
    assert_eq!(load(Instruction::I64Load(memarg(0))), ValInst::I64(0x0403_0201_ffff_ff80));
    assert_eq!(load(Instruction::F32Load(memarg(4))), ValInst::F32(0x0403_0201));
    assert_eq!(load(Instruction::F64Load(memarg(0))), ValInst::F64(0x0403_0201_ffff_ff80));
    assert_eq!(
        load(Instruction::V128Load8x8S(memarg(0))),
        ValInst::V128(v128(0xffff_ff80u32 as i32, -1, 0x0002_0001, 0x0004_0003))
    );
    assert_eq!(
        load(Instruction::V128Load8x8U(memarg(0))),
        ValInst::V128(v128(0x00ff_0080, 0x00ff_00ff, 0x0002_0001, 0x0004_0003))
    );
    assert_eq!(
        load(Instruction::V128Load32x2S(memarg(0))),
        ValInst::V128(v128(0xffff_ff80u32 as i32, -1, 0x0403_0201, 0))
    );
    assert_eq!(
        load(Instruction::V128Load16Splat(memarg(4))),
        ValInst::V128(v128(0x0201_0201, 0x0201_0201, 0x0201_0201, 0x0201_0201))
    );
    assert_eq!(
        load(Instruction::V128Load32Zero(memarg(4))),
        ValInst::V128(v128(0x0403_0201, 0, 0, 0))
    );
    assert_eq!(
        load(Instruction::V128Load64Zero(memarg(0))),
        ValInst::V128(v128(0xffff_ff80u32 as i32, 0x0403_0201, 0, 0))
    );
    assert_eq!(
        load(Instruction::V128Load(memarg(0))),
        ValInst::V128(v128(0xffff_ff80u32 as i32, 0x0403_0201, 0, 0))
    );
}

#[test]
fn lanes_are_loaded_and_stored() {
    let mut store = Store::new();
    let mut vm = machine(&mut store);
    store.mems[0].mem_writes(0, &[0xaa, 0xbb]).unwrap();
    vm.push(ValInst::I32(0));
    vm.push(ValInst::V128(v128(1, 2, 3, 4)));
    exec(&mut vm, &mut store, Instruction::V128Load16Lane(memarg(0), 3)).unwrap();
    assert_eq!(vm.operands, vec![ValInst::V128(v128(1, 0xbbaa_0002u32 as i32, 3, 4))]);
    vm.reset();
    vm.push(ValInst::I32(8));
    vm.push(ValInst::V128(v128(1, 2, 3, 4)));
    exec(&mut vm, &mut store, Instruction::V128Store32Lane(memarg(0), 2)).unwrap();
    assert_eq!(store.mems[0].mem_reads(8, 4), Ok(vec![3, 0, 0, 0]));
    vm.push(ValInst::I32(0));
    vm.push(ValInst::V128(v128(1, 2, 3, 4)));
    assert_eq!(
        exec(&mut vm, &mut store, Instruction::V128Load64Lane(memarg(0), 2)),
        Err(VmError::Trap(Trap::OutofRange))
    );
    vm.reset();
    vm.push(ValInst::I32(16));
    vm.push(ValInst::V128(v128(1, 2, 3, 4)));
    exec(&mut vm, &mut store, Instruction::V128Store(memarg(0))).unwrap();
    assert_eq!(store.mems[0].mem_read_v128(16), Ok(v128(1, 2, 3, 4)));
}

#[test]
fn memory_size_grow_and_fill() {
    let mut store = Store::new();
    let mut vm = machine(&mut store);
    exec(&mut vm, &mut store, Instruction::MemorySize(0)).unwrap();
    assert_eq!(vm.operands, vec![ValInst::I32(1)]);
    exec(&mut vm, &mut store, Instruction::MemoryGrow(0)).unwrap();
    assert_eq!(vm.operands, vec![ValInst::I32(1)]);
    assert_eq!(store.mems[0].mem_size(), 2);
    exec(&mut vm, &mut store, Instruction::MemoryGrow(0)).unwrap();
    assert_eq!(vm.operands, vec![ValInst::I32(-1)]);
    assert_eq!(store.mems[0].mem_size(), 2);
    assert_eq!(
        exec(&mut vm, &mut store, Instruction::MemorySize(1)),
        Err(VmError::Trap(Trap::OutofRange))
    );
    vm.reset();
    for v in [10, 0x1ab, 3] {
        vm.push(ValInst::I32(v));
    }
    exec(&mut vm, &mut store, Instruction::MemoryFill(0)).unwrap();
    assert_eq!(store.mems[0].mem_reads(9, 5), Ok(vec![0, 0xab, 0xab, 0xab, 0]));
    for v in [131071, 1, 2] {
        vm.push(ValInst::I32(v));
    }
    assert_eq!(
        exec(&mut vm, &mut store, Instruction::MemoryFill(0)),
        Err(VmError::Inst(InstError::OutofBoundMem))
    );
    assert_eq!(store.mems[0].mem_read(131071), Ok(0));
}

#[test]
fn data_segments_are_copied_on_demand() {
    let mut store = Store::new();
    let mut vm = machine(&mut store);
    vm.datas.push(vec![1, 2, 3, 4, 5]);
    for v in [100, 1, 3] {
        vm.push(ValInst::I32(v));
    }
    exec(&mut vm, &mut store, Instruction::MemoryInit(0, 0)).unwrap();
    assert_eq!(store.mems[0].mem_reads(99, 5), Ok(vec![0, 2, 3, 4, 0]));
    for v in [100, 3, 3] {
        vm.push(ValInst::I32(v));
    }
    assert_eq!(
        exec(&mut vm, &mut store, Instruction::MemoryInit(0, 0)),
        Err(VmError::Trap(Trap::OutofRange))
    );
    vm.reset();
    exec(&mut vm, &mut store, Instruction::DataDrop(0)).unwrap();
    assert!(vm.datas[0].is_empty());
    for v in [100, 0, 0] {
        vm.push(ValInst::I32(v));
    }
    assert_eq!(exec(&mut vm, &mut store, Instruction::MemoryInit(0, 0)), Ok(()));
    for v in [100, 0, 1] {
        vm.push(ValInst::I32(v));
    }
    assert_eq!(
        exec(&mut vm, &mut store, Instruction::MemoryInit(0, 0)),
        Err(VmError::Trap(Trap::OutofRange))
    );
    assert_eq!(
        exec(&mut vm, &mut store, Instruction::DataDrop(1)),
        Err(VmError::Trap(Trap::OutofRange))
    );
}

#[test]
fn table_instructions() {
    let mut store = Store::new();
    let mut vm = machine(&mut store);
    exec(&mut vm, &mut store, Instruction::TableSize(0)).unwrap();
    assert_eq!(vm.operands, vec![ValInst::I32(2)]);
    vm.reset();
    vm.push(ValInst::I32(1));
    vm.push(ValInst::FuncRef(Some(4)));
    exec(&mut vm, &mut store, Instruction::TableSet(0)).unwrap();
    vm.push(ValInst::I32(1));
    exec(&mut vm, &mut store, Instruction::TableGet(0)).unwrap();
    assert_eq!(vm.operands, vec![ValInst::FuncRef(Some(4))]);
    vm.reset();
    vm.push(ValInst::I32(2));
    assert_eq!(
        exec(&mut vm, &mut store, Instruction::TableGet(0)),
        Err(VmError::Trap(Trap::OutofRange))
    );
    vm.reset();
    vm.push(ValInst::FuncRef(Some(9)));
    vm.push(ValInst::I32(2));
    exec(&mut vm, &mut store, Instruction::TableGrow(0)).unwrap();
    assert_eq!(vm.operands, vec![ValInst::I32(-1)]);
    assert_eq!(store.tables[0].size(), 2);
    vm.reset();
    vm.push(ValInst::FuncRef(Some(9)));
    vm.push(ValInst::I32(1));
    exec(&mut vm, &mut store, Instruction::TableGrow(0)).unwrap();
    assert_eq!(vm.operands, vec![ValInst::I32(2)]);
    assert_eq!(store.tables[0].get_func_inst(2), Ok(9));
    vm.reset();
    vm.push(ValInst::I32(0));
    vm.push(ValInst::FuncRef(Some(6)));
    vm.push(ValInst::I32(2));
    exec(&mut vm, &mut store, Instruction::TableFill(0)).unwrap();
    assert_eq!(store.tables[0].get_func_inst(0), Ok(6));
    assert_eq!(store.tables[0].get_func_inst(1), Ok(6));
    assert_eq!(store.tables[0].get_func_inst(2), Ok(9));
    for v in [1, 1, 2] {
        vm.push(ValInst::I32(v));
    }
    exec(&mut vm, &mut store, Instruction::TableCopy(0, 0)).unwrap();
    assert_eq!(store.tables[0].get_func_inst(1), Ok(6));
    assert_eq!(store.tables[0].get_func_inst(2), Ok(9));
    vm.elements.push(wasm::execution::inst::element::ElemInst::new(
        ValType::FuncRef,
        vec![ValInst::FuncRef(Some(20)), ValInst::FuncRef(Some(21))],
    ));
    for v in [1, 0, 2] {
        vm.push(ValInst::I32(v));
    }
    exec(&mut vm, &mut store, Instruction::TableInit(0, 0)).unwrap();
    assert_eq!(store.tables[0].get_func_inst(1), Ok(20));
    assert_eq!(store.tables[0].get_func_inst(2), Ok(21));
    for v in [2, 0, 2] {
        vm.push(ValInst::I32(v));
    }
    assert_eq!(
        exec(&mut vm, &mut store, Instruction::TableInit(0, 0)),
        Err(VmError::Trap(Trap::OutofRange))
    );
    vm.reset();
    exec(&mut vm, &mut store, Instruction::ElemDrop(0)).unwrap();
    assert!(vm.elements[0].refs.is_empty());
}

#[test]
fn globals_and_locals() {
    let mut store = Store::new();
    let mut vm = machine(&mut store);
    exec(&mut vm, &mut store, Instruction::GlobalGet(0)).unwrap();
    assert_eq!(vm.operands, vec![ValInst::I32(7)]);
    vm.push(ValInst::I32(9));
    exec(&mut vm, &mut store, Instruction::GlobalSet(0)).unwrap();
    assert_eq!(store.globals[0].value(), ValInst::I32(9));
    vm.push(ValInst::I32(9));
    assert_eq!(
        exec(&mut vm, &mut store, Instruction::GlobalSet(1)),
        Err(VmError::Trap(Trap::GlobalVarConst))
    );
    vm.push(ValInst::I64(9));
    assert_eq!(
        exec(&mut vm, &mut store, Instruction::GlobalSet(0)),
        Err(VmError::Trap(Trap::GlobalTypeNotEq))
    );
    assert_eq!(
        exec(&mut vm, &mut store, Instruction::GlobalGet(2)),
        Err(VmError::Trap(Trap::OutofRange))
    );
    vm.reset();
    vm.push(ValInst::I32(1));
    vm.push(ValInst::I32(2));
    vm.local_idx = 0;
    exec(&mut vm, &mut store, Instruction::LocalGet(1)).unwrap();
    assert_eq!(vm.operands, vec![ValInst::I32(1), ValInst::I32(2), ValInst::I32(2)]);
    exec(&mut vm, &mut store, Instruction::LocalSet(0)).unwrap();
    assert_eq!(vm.operands, vec![ValInst::I32(2), ValInst::I32(2)]);
    vm.push(ValInst::I32(5));
    exec(&mut vm, &mut store, Instruction::LocalTee(1)).unwrap();
    assert_eq!(vm.operands, vec![ValInst::I32(2), ValInst::I32(5), ValInst::I32(5)]);
    assert_eq!(
        exec(&mut vm, &mut store, Instruction::LocalGet(3)),
        Err(VmError::Trap(Trap::OutofRange))
    );
    assert_eq!(
        exec(&mut vm, &mut store, Instruction::LocalSet(2)),
        Err(VmError::Trap(Trap::OutofRange))
    );
}

#[test]
fn parametric_and_reference_instructions() {
    let mut store = Store::new();
    let mut vm = machine(&mut store);
    assert_eq!(exec(&mut vm, &mut store, Instruction::Drop), Err(VmError::Trap(Trap::ArgNotEq)));
    for v in [1, 2, 1] {
        vm.push(ValInst::I32(v));
    }
    exec(&mut vm, &mut store, Instruction::Select).unwrap();
    assert_eq!(vm.operands, vec![ValInst::I32(1)]);
    vm.push(ValInst::I32(2));
    vm.push(ValInst::I32(0));
    exec(&mut vm, &mut store, Instruction::Select2(1, ValType::I32)).unwrap();
    assert_eq!(vm.operands, vec![ValInst::I32(2)]);
    exec(&mut vm, &mut store, Instruction::Drop).unwrap();
    exec(&mut vm, &mut store, Instruction::RefNull(0x70)).unwrap();
    exec(&mut vm, &mut store, Instruction::RefIsNull).unwrap();
    assert_eq!(vm.operands, vec![ValInst::I32(1)]);
    assert_eq!(
        exec(&mut vm, &mut store, Instruction::RefNull(0x7f)),
        Err(VmError::Trap(Trap::InvalidRef))
    );
    assert_eq!(
        exec(&mut vm, &mut store, Instruction::RefFunc(0)),
        Err(VmError::Trap(Trap::FnNotFound))
    );
    vm.funcs.push(17);
    vm.reset();
    exec(&mut vm, &mut store, Instruction::RefFunc(0)).unwrap();
    assert_eq!(vm.operands, vec![ValInst::FuncRef(Some(17))]);
    assert_eq!(exec(&mut vm, &mut store, Instruction::Unreachable), Err(VmError::Trap(Trap::Unreachable)));
    assert_eq!(exec(&mut vm, &mut store, Instruction::Nop), Ok(()));
}

#[test]
fn float_instructions_are_handed_to_the_driver() {
    let mut store = Store::new();
    let mut vm = machine(&mut store);
    vm.push(ValInst::F32(1.5f32.to_bits()));
    vm.push(ValInst::F32(2.25f32.to_bits()));
    match vm.exec_instr(&mut store, &Instruction::F32Add) {
        Ok(Step::Float(tag)) => {
            assert_eq!(tag, 0x92);
            let b = f32::from_bits(vm.pop_f32());
            let a = f32::from_bits(vm.pop_f32());
            vm.push_f32((a + b).to_bits());
        }
        other => panic!("not handed over: {:?}", other),
    }
    assert_eq!(vm.operands, vec![ValInst::F32(3.75f32.to_bits())]);
    assert!(matches!(
        vm.exec_instr(&mut store, &Instruction::F32Sqrt),
        Ok(Step::Float(0x91))
    ));
    assert!(matches!(
        vm.exec_instr(&mut store, &Instruction::F64x2Nearest(1)),
        Ok(Step::Float(0xfd94))
    ));
    assert_eq!(vm.operands.len(), 1);
}

#[test]
fn blocks_keep_their_results() {
    let mut store = Store::new();
    let mut vm = machine(&mut store);
    vm.push(ValInst::I32(10));
    let body = vec![Instruction::I32Const(1), Instruction::I32Const(2), Instruction::I32Const(3)];
    let block = Block::new(BlockType::I32, body);
    exec(&mut vm, &mut store, Instruction::Block(block)).unwrap();
    assert_eq!(vm.frames.len(), 1);
    assert_eq!(vm.frames[0].sp, 1);
    assert_eq!(vm.frames[0].arity, 1);
    assert_eq!(vm.frames[0].kind, LabelKind::Block);
    for _ in 0..3 {
        assert!(matches!(vm.step(&mut store), Ok(Step::Next)));
    }
    assert_eq!(vm.operands.len(), 4);
    assert!(matches!(vm.step(&mut store), Ok(Step::Next)));
    assert_eq!(vm.frames.len(), 0);
    assert_eq!(vm.operands, vec![ValInst::I32(10), ValInst::I32(3)]);
    assert_eq!(vm.step(&mut store).unwrap_err(), VmError::Trap(Trap::NoOpcode));
}

fn frame(kind: LabelKind, sp: usize, arg_num: usize, arity: usize) -> Frame {
    Frame { kind, pc: 1, sp, expr: Rc::new(vec![Instruction::Nop, Instruction::Nop]), arity, arg_num }
}

#[test]
fn a_branch_unwinds_to_its_label() {
    let mut store = Store::new();
    let mut vm = machine(&mut store);
    for v in 0..6 {
        vm.push(ValInst::I32(v));
    }
    vm.push_frame(frame(LabelKind::Call, 0, 0, 1));
    vm.push_frame(frame(LabelKind::Block, 1, 0, 1));
    vm.push_frame(frame(LabelKind::Loop, 2, 1, 0));
    vm.push_frame(frame(LabelKind::If, 4, 0, 0));
    assert_eq!(vm.depth(), 4);
    assert_eq!(vm.top_frame().kind, LabelKind::If);
    assert_eq!(vm.get_frame(1).sp, 1);
    let (call, distance) = vm.top_call();
    assert_eq!(call.map(|f| f.kind), Some(LabelKind::Call));
    assert_eq!(distance, 3);
    // to the loop: its frame stays and starts over, with its operand
    exec(&mut vm, &mut store, Instruction::Br(1)).unwrap();
    assert_eq!(vm.frames.len(), 3);
    assert_eq!(vm.frames[2].kind, LabelKind::Loop);
    assert_eq!(vm.frames[2].pc, 0);
    assert_eq!(vm.operands, vec![ValInst::I32(0), ValInst::I32(1), ValInst::I32(5)]);
    // out of the block: its frame goes, its result stays
    exec(&mut vm, &mut store, Instruction::Br(1)).unwrap();
    assert_eq!(vm.frames.len(), 1);
    assert_eq!(vm.operands, vec![ValInst::I32(0), ValInst::I32(5)]);
    assert_eq!(
        exec(&mut vm, &mut store, Instruction::Br(1)),
        Err(VmError::Trap(Trap::OutofRange))
    );
    exec(&mut vm, &mut store, Instruction::Return).unwrap();
    assert_eq!(vm.frames.len(), 0);
    assert_eq!(vm.operands, vec![ValInst::I32(5)]);
    assert_eq!(
        exec(&mut vm, &mut store, Instruction::Return),
        Err(VmError::Trap(Trap::CallFrameNotFount))
    );
}

#[test]
fn conditional_and_table_branches() {
    let mut store = Store::new();
    let mut vm = machine(&mut store);
    vm.push_frame(frame(LabelKind::Block, 0, 0, 0));
    vm.push_frame(frame(LabelKind::Block, 0, 0, 0));
    vm.push_frame(frame(LabelKind::Block, 0, 0, 0));
    vm.push(ValInst::I32(0));
    exec(&mut vm, &mut store, Instruction::BrIf(0)).unwrap();
    assert_eq!(vm.frames.len(), 3);
    vm.push(ValInst::I32(1));
    exec(&mut vm, &mut store, Instruction::BrIf(0)).unwrap();
    assert_eq!(vm.frames.len(), 2);
    let arg = || BrTableArg { labels: vec![1, 0], default: 0 };
    vm.push(ValInst::I32(1));
    exec(&mut vm, &mut store, Instruction::BrTable(arg())).unwrap();
    assert_eq!(vm.frames.len(), 1);
    vm.push(ValInst::I32(100));
    exec(&mut vm, &mut store, Instruction::BrTable(arg())).unwrap();
    assert_eq!(vm.frames.len(), 0);
    vm.push(ValInst::I64(0));
    assert_eq!(
        exec(&mut vm, &mut store, Instruction::BrTable(arg())),
        Err(VmError::Trap(Trap::ValTypeNotEq))
    );
    vm.reset();
    let branches = IfBlock {
        type_: BlockType::Empty,
        if_expr: Rc::new(vec![Instruction::Nop]),
        else_expr: Rc::new(vec![Instruction::Nop, Instruction::Nop]),
    };
    vm.push(ValInst::I32(0));
    exec(&mut vm, &mut store, Instruction::If(branches)).unwrap();
    assert_eq!(vm.frames[0].kind, LabelKind::If);
    assert_eq!(vm.frames[0].expr.len(), 2);
    assert_eq!(
        exec(&mut vm, &mut store, Instruction::Loop(Block::new(BlockType::TypeIdx(0), vec![]))),
        Err(VmError::Trap(Trap::OutofRange))
    );
}

struct Host {
    memory: usize,
    func: usize,
}

impl Importer for Host {
    fn get_name(&self) -> String {
        "env".to_string()
    }

    fn get_id(&self) -> String {
        "env-1".to_string()
    }

    fn resolve_func(&self, name: &str) -> Option<usize> {
        if name == "double" { Some(self.func) } else { None }
    }

    fn resolve_table(&self, _name: &str) -> Option<usize> {
        None
    }

    fn resolve_mem(&self, name: &str) -> Option<usize> {
        if name == "mem" { Some(self.memory) } else { None }
    }

    fn resolve_global(&self, _name: &str) -> Option<usize> {
        None
    }
}

fn importing_module() -> Vec<u8> {
    let mut bytes = vec![0x00, 0x61, 0x73, 0x6d, 0x01, 0x00, 0x00, 0x00];
    let sections: [&[u8]; 5] = [
        &[0x01, 0x06, 0x01, 0x60, 0x01, 0x7f, 0x01, 0x7f],
        &[
            0x02, 0x19, 0x02, 0x03, b'e', b'n', b'v', 0x06, b'd', b'o', b'u', b'b', b'l', b'e',
            0x00, 0x00, 0x03, b'e', b'n', b'v', 0x03, b'm', b'e', b'm', 0x02, 0x00, 0x01,
        ],
        &[0x03, 0x02, 0x01, 0x00],
        &[0x07, 0x07, 0x01, 0x03, b'r', b'u', b'n', 0x00, 0x01],
        // (func (param i32) (result i32)
        //   i32.const 0  local.get 0  call 0  i32.store  i32.const 0  i32.load)
        &[
            0x0a, 0x12, 0x01, 0x10, 0x00, 0x41, 0x00, 0x20, 0x00, 0x10, 0x00, 0x36, 0x02, 0x00,
            0x41, 0x00, 0x28, 0x02, 0x00, 0x0b,
        ],
    ];
    for section in sections {
        bytes.extend_from_slice(section);
    }
    bytes
}

#[test]
fn imports_are_shared_and_host_functions_are_called_by_the_driver() {
    let mut store = Store::new();
    let memory = store.alloc_mem(MemInst::new(Limits { min: 1, max: None }));
    let func = store.alloc_func(FuncInst::from_importer(
        FuncType { params: vec![ValType::I32], results: vec![ValType::I32] },
        "env-1",
        "double",
    ));
    let hosts = vec![Host { memory, func }];
    let module = Module::from_data(importing_module()).unwrap();
    assert!(module.validate().is_ok());
    let mut vm = match VM::new("guest", module, &mut store, &hosts) {
        Ok(vm) => vm,
        Err(e) => panic!("instantiation failed: {:?}", e),
    };
    assert_eq!(vm.mems, vec![memory]);
    assert_eq!(vm.funcs.len(), 2);
    assert!(vm.id.starts_with("guest-"));
    assert_eq!(vm.id.len(), "guest-".len() + 10);
    assert_eq!(vm.get_name(), "guest");
    assert_eq!(vm.resolve_func("run"), Some(vm.funcs[1]));
    assert_eq!(vm.resolve_func("walk"), None);
    assert_eq!(vm.resolve_mem("run"), None);
    let (step, addr) = vm.call_by_name(&store, "run", vec![ValInst::I32(21)]).unwrap();
    assert!(matches!(step, Step::Next));
    let asked = vm.start_loop(&mut store, 0, 100).unwrap();
    match asked {
        Step::Host(callee, args) => {
            assert_eq!(callee, vm.funcs[0]);
            assert_eq!(args, vec![ValInst::I32(21)]);
            assert_eq!(vm.operands.last(), Some(&ValInst::I32(0)));
            vm.push_n_and_check_type(&vec![ValType::I32], vec![ValInst::I32(42)]).unwrap();
        }
        other => panic!("no host call: {:?}", other),
    }
    assert!(matches!(vm.start_loop(&mut store, 0, 100), Ok(Step::Done)));
    assert_eq!(vm.finish_invoke(&store, addr), Ok(vec![ValInst::I32(42)]));
    // the write went to the memory that the host owns
    assert_eq!(store.mems[memory].mem_read_i32(0), Ok(42));
}

#[test]
fn linking_checks_what_the_importer_gives() {
    let mut store = Store::new();
    let memory = store.alloc_mem(MemInst::new(Limits { min: 1, max: Some(2) }));
    let func = store.alloc_func(FuncInst::from_importer(FuncType::empty(), "env-1", "double"));
    let hosts = vec![Host { memory, func }];
    let module = Module::from_data(importing_module()).unwrap();
    assert!(matches!(
        VM::new("guest", module, &mut store, &hosts),
        Err(InstantiateError::Link(LinkError::IncompatibleImportType))
    ));
    let module = Module::from_data(importing_module()).unwrap();
    let nobody: Vec<Host> = vec![];
    match VM::new("guest", module, &mut store, &nobody) {
        Err(InstantiateError::Link(LinkError::ModuleNotFound(name))) => assert_eq!(name, "env"),
        other => panic!("unexpected: {:?}", other.map(|_| ())),
    }
    let types = vec![FuncType::empty()];
    let want_mem = wasm::binary::section::ImportDesc::Mem(Limits { min: 1, max: Some(2) });
    assert!(matches!(
        link(&want_mem, Some(ExportInst::Mem(memory)), &store, &types, "env", "mem"),
        Ok(ExportInst::Mem(_))
    ));
    let larger = wasm::binary::section::ImportDesc::Mem(Limits { min: 2, max: Some(2) });
    assert!(matches!(
        link(&larger, Some(ExportInst::Mem(memory)), &store, &types, "env", "mem"),
        Err(LinkError::IncompatibleImportType)
    ));
    match link(&want_mem, None, &store, &types, "env", "mem") {
        Err(LinkError::ItemNotFound(module, item)) => {
            assert_eq!(module, "env");
            assert_eq!(item, "mem");
        }
        other => panic!("unexpected: {:?}", other),
    }
    assert!(matches!(
        link(&want_mem, Some(ExportInst::Func(func)), &store, &types, "env", "mem"),
        Err(LinkError::ItemNotFound(_, _))
    ));
    assert!(matches!(
        link(&want_mem, Some(ExportInst::Mem(99)), &store, &types, "env", "mem"),
        Err(LinkError::ItemNotFound(_, _))
    ));
    let want_func = wasm::binary::section::ImportDesc::Func(0);
    assert!(matches!(
        link(&want_func, Some(ExportInst::Func(func)), &store, &types, "env", "f"),
        Ok(ExportInst::Func(_))
    ));
    let wrong = wasm::binary::section::ImportDesc::Func(1);
    assert!(matches!(
        link(&wrong, Some(ExportInst::Func(func)), &store, &types, "env", "f"),
        Err(LinkError::IncompatibleImportType)
    ));
}

fn exporting_module() -> Vec<u8> {
    let mut bytes = vec![0x00, 0x61, 0x73, 0x6d, 0x01, 0x00, 0x00, 0x00];
    let sections: [&[u8]; 5] = [
        &[0x01, 0x06, 0x01, 0x60, 0x01, 0x7f, 0x01, 0x7f],
        &[0x03, 0x02, 0x01, 0x00],
        &[0x05, 0x03, 0x01, 0x00, 0x01],
        &[
            0x07, 0x10, 0x02, 0x06, b'd', b'o', b'u', b'b', b'l', b'e', 0x00, 0x00, 0x03, b'm',
            b'e', b'm', 0x02, 0x00,
        ],
        // (func (param i32) (result i32) local.get 0 local.get 0 i32.add)
        &[0x0a, 0x09, 0x01, 0x07, 0x00, 0x20, 0x00, 0x20, 0x00, 0x6a, 0x0b],
    ];
    for section in sections {
        bytes.extend_from_slice(section);
    }
    bytes
}

#[test]
fn one_machine_calls_a_function_of_another() {
    let mut store = Store::new();
    let nobody: Vec<VM> = vec![];
    let offered = Module::from_data(exporting_module()).unwrap();
    let mut machines = vec![VM::new("env", offered, &mut store, &nobody).ok().unwrap()];
    let asking = Module::from_data(importing_module()).unwrap();
    let mut guest = VM::new("guest", asking, &mut store, &machines).ok().unwrap();
    assert_eq!(guest.mems, machines[0].mems);
    let (step, addr) = guest.call_by_name(&store, "run", vec![ValInst::I32(21)]).unwrap();
    assert!(matches!(step, Step::Next));
    match guest.start_loop(&mut store, 0, 100).unwrap() {
        Step::Host(callee, args) => {
            let (host, name) = match &store.funcs[callee].kind {
                wasm::execution::inst::function::FuncInstKind::Outer(host, name) => {
                    (host.clone(), name.clone())
                }
                other => panic!("an import is called by name: {:?}", other),
            };
            assert_eq!(host, machines[0].id);
            assert_eq!(name, "double");
            let owner = &mut machines[0];
            let (step, inner) = owner.call_by_name(&store, &name, args).unwrap();
            assert!(matches!(step, Step::Next));
            assert!(matches!(owner.start_loop(&mut store, 0, 100), Ok(Step::Done)));
            let results = owner.finish_invoke(&store, inner).unwrap();
            assert_eq!(results, vec![ValInst::I32(42)]);
            let types = store.funcs[callee].type_.results.clone();
            guest.push_n_and_check_type(&types, results).unwrap();
        }
        other => panic!("no call of the other machine: {:?}", other),
    }
    assert!(matches!(guest.start_loop(&mut store, 0, 100), Ok(Step::Done)));
    assert_eq!(guest.finish_invoke(&store, addr), Ok(vec![ValInst::I32(42)]));
    // the guest wrote into the memory of the machine that offers it
    assert_eq!(store.mems[machines[0].mems[0]].mem_read_i32(0), Ok(42));
}

fn trapped(vm: &mut VM, store: &mut Store, instr: Instruction) -> VmError {
    let operands = vm.operands.clone();
    let frames = vm.frames.len();
    let locals = vm.local_idx;
    let e = match vm.exec_instr(store, &instr) {
        Err(e) => e,
        Ok(step) => panic!("{:?} should trap, gave {:?}", instr, step),
    };
    assert_eq!(vm.operands, operands, "{:?}", instr);
    assert_eq!(vm.frames.len(), frames, "{:?}", instr);
    assert_eq!(vm.local_idx, locals, "{:?}", instr);
    e
}

#[test]
fn a_trap_leaves_the_stacks_as_they_were() {
    let mut store = Store::new();
    let mut vm = machine(&mut store);
    let trap = |t: Trap| VmError::Trap(t);
    vm.push(ValInst::I32(i32::MIN));
    vm.push(ValInst::I32(-1));
    assert_eq!(trapped(&mut vm, &mut store, Instruction::I32DivS), trap(Trap::IntegerOverflow));
    vm.reset();
    vm.push(ValInst::I32(7));
    vm.push(ValInst::I32(0));
    assert_eq!(trapped(&mut vm, &mut store, Instruction::I32DivU), trap(Trap::DivZero));
    assert_eq!(trapped(&mut vm, &mut store, Instruction::I32RemS), trap(Trap::DivZero));
    vm.reset();
    vm.push(ValInst::F32(f32::NAN.to_bits()));
    assert_eq!(
        trapped(&mut vm, &mut store, Instruction::I32TruncF32S),
        trap(Trap::InvalidConversionToInteger)
    );
    vm.reset();
    vm.push(ValInst::I32(65533));
    assert_eq!(trapped(&mut vm, &mut store, Instruction::I32Load(memarg(0))), trap(Trap::OutofRange));
    vm.push(ValInst::V128(v128(0, 0, 0, 0)));
    assert_eq!(
        trapped(&mut vm, &mut store, Instruction::V128Load32Lane(memarg(0), 0)),
        trap(Trap::OutofRange)
    );
    assert_eq!(
        trapped(&mut vm, &mut store, Instruction::V128Store(memarg(0))),
        VmError::Inst(InstError::OutofBoundMem)
    );
    vm.reset();
    for v in [131071, 1, 2] {
        vm.push(ValInst::I32(v));
    }
    assert_eq!(
        trapped(&mut vm, &mut store, Instruction::MemoryFill(0)),
        VmError::Inst(InstError::OutofBoundMem)
    );
    assert_eq!(
        trapped(&mut vm, &mut store, Instruction::MemoryCopy(0, 0)),
        VmError::Inst(InstError::OutofBoundMem)
    );
    assert_eq!(trapped(&mut vm, &mut store, Instruction::TableCopy(0, 0)), trap(Trap::OutofRange));
    assert_eq!(trapped(&mut vm, &mut store, Instruction::TableGet(0)), trap(Trap::OutofRange));
    vm.reset();
    vm.push(ValInst::I32(5));
    vm.push(ValInst::FuncRef(None));
    assert_eq!(trapped(&mut vm, &mut store, Instruction::TableSet(0)), trap(Trap::OutofRange));
    vm.reset();
    vm.push(ValInst::I64(1));
    assert_eq!(trapped(&mut vm, &mut store, Instruction::GlobalSet(0)), trap(Trap::GlobalTypeNotEq));
    assert_eq!(trapped(&mut vm, &mut store, Instruction::GlobalSet(1)), trap(Trap::GlobalVarConst));
}

#[test]
fn a_branch_that_traps_takes_nothing_off() {
    let mut store = Store::new();
    let mut vm = machine(&mut store);
    let trap = |t: Trap| VmError::Trap(t);
    vm.push(ValInst::I32(1));
    vm.push_frame(frame(LabelKind::Block, 0, 0, 3));
    vm.push_frame(frame(LabelKind::Block, 0, 0, 0));
    // the condition is true, but the label has too few results to leave
    assert_eq!(trapped(&mut vm, &mut store, Instruction::BrIf(1)), trap(Trap::ArgNotEq));
    assert_eq!(trapped(&mut vm, &mut store, Instruction::BrIf(2)), trap(Trap::OutofRange));
    assert_eq!(trapped(&mut vm, &mut store, Instruction::Br(9)), trap(Trap::OutofRange));
    assert_eq!(
        trapped(&mut vm, &mut store, Instruction::BrTable(BrTableArg { labels: vec![0], default: 1 })),
        trap(Trap::ArgNotEq)
    );
    assert_eq!(trapped(&mut vm, &mut store, Instruction::Return), trap(Trap::CallFrameNotFount));
    let branches = IfBlock {
        type_: BlockType::TypeIdx(0),
        if_expr: Rc::new(vec![]),
        else_expr: Rc::new(vec![]),
    };
    assert_eq!(trapped(&mut vm, &mut store, Instruction::If(branches)), trap(Trap::OutofRange));
    vm.frames.clear();
    vm.push_frame(frame(LabelKind::Call, 5, 0, 0));
    assert_eq!(vm.exit_block(), Err(trap(Trap::ArgNotEq)));
    assert_eq!(vm.frames.len(), 1);
    assert_eq!(vm.operands, vec![ValInst::I32(1)]);
}

#[test]
fn an_indirect_call_that_traps_keeps_its_index() {
    let mut store = Store::new();
    let bytes = {
        let mut bytes = vec![0x00, 0x61, 0x73, 0x6d, 0x01, 0x00, 0x00, 0x00];
        let sections: [&[u8]; 5] = [
            &[0x01, 0x0a, 0x02, 0x60, 0x00, 0x01, 0x7f, 0x60, 0x01, 0x7f, 0x01, 0x7f],
            &[0x03, 0x03, 0x02, 0x00, 0x00],
            &[0x04, 0x04, 0x01, 0x70, 0x00, 0x02],
            &[0x09, 0x08, 0x01, 0x00, 0x41, 0x00, 0x0b, 0x02, 0x00, 0x01],
            &[0x0a, 0x0b, 0x02, 0x04, 0x00, 0x41, 0x0b, 0x0b, 0x04, 0x00, 0x41, 0x16, 0x0b],
        ];
        for section in sections {
            bytes.extend_from_slice(section);
        }
        bytes
    };
    let nobody: Vec<VM> = vec![];
    let mut vm = VM::new("m", Module::from_data(bytes).unwrap(), &mut store, &nobody).ok().unwrap();
    vm.push(ValInst::I32(9));
    vm.push(ValInst::I32(2));
    let e = trapped(&mut vm, &mut store, Instruction::CallIndirect(0, 0));
    assert_eq!(e, VmError::Trap(Trap::OutofRange));
    vm.reset();
    vm.push(ValInst::I32(0));
    // the function in the table takes nothing, the type asked for takes a number
    let e = trapped(&mut vm, &mut store, Instruction::CallIndirect(1, 0));
    assert_eq!(e, VmError::Trap(Trap::ArgNotEq));
    assert!(matches!(
        vm.exec_instr(&mut store, &Instruction::CallIndirect(0, 0)),
        Ok(Step::Next)
    ));
    assert_eq!(vm.frames.len(), 1);
    assert!(vm.operands.is_empty());
}
