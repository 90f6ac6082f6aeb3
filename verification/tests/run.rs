use wasm::binary::module::Module;
use wasm::execution::errors::{InstantiateError, Trap, VmError};
use wasm::execution::inst::memory::MemInst;
use wasm::execution::value::{v128, ValInst};
use wasm::execution::vm::{Step, Store, VM};

const HEADER: [u8; 8] = [0x00, 0x61, 0x73, 0x6d, 0x01, 0x00, 0x00, 0x00];

fn assemble(sections: &[&[u8]]) -> Vec<u8> {
    let mut bytes = HEADER.to_vec();
    for section in sections {
        bytes.extend_from_slice(section);
    }
    bytes
}

fn instantiate(bytes: Vec<u8>, store: &mut Store) -> VM {
    let module = Module::from_data(bytes).expect("the module decodes");
    assert!(module.validate().is_ok());
    let importers: Vec<VM> = Vec::new();
    match VM::new("test", module, store, &importers) {
        Ok(vm) => vm,
        Err(InstantiateError::Vm(e)) => panic!("instantiation failed: {:?}", e),
        Err(InstantiateError::Link(e)) => panic!("linking failed: {:?}", e),
    }
}

fn run(vm: &mut VM, store: &mut Store) -> Result<(), VmError> {
    loop {
        match vm.start_loop(store, 0, 100_000)? {
            Step::Done => return Ok(()),
            Step::Next => continue,
            Step::Float(tag) => panic!("no float instruction expected: {:#x}", tag),
            Step::Host(addr, _) => panic!("no host call expected: {}", addr),
        }
    }
}

fn call(vm: &mut VM, store: &mut Store, name: &str, args: Vec<ValInst>) -> Result<Vec<ValInst>, VmError> {
    vm.reset();
    let (step, addr) = vm.call_by_name(store, name, args)?;
    match step {
        Step::Next => run(vm, store)?,
        Step::Done => {}
        _ => panic!("the call should run in this machine"),
    }
    vm.finish_invoke(store, addr)
}

fn add_module() -> Vec<u8> {
    assemble(&[
        &[0x01, 0x07, 0x01, 0x60, 0x02, 0x7f, 0x7f, 0x01, 0x7f],
        &[0x03, 0x02, 0x01, 0x00],
        &[0x07, 0x07, 0x01, 0x03, b'a', b'd', b'd', 0x00, 0x00],
        &[0x0a, 0x09, 0x01, 0x07, 0x00, 0x20, 0x00, 0x20, 0x01, 0x6a, 0x0b],
    ])
}

fn fac_module() -> Vec<u8> {
    assemble(&[
        &[0x01, 0x06, 0x01, 0x60, 0x01, 0x7f, 0x01, 0x7f],
        &[0x03, 0x02, 0x01, 0x00],
        &[0x07, 0x07, 0x01, 0x03, b'f', b'a', b'c', 0x00, 0x00],
        &[
            0x0a, 0x17, 0x01, 0x15, 0x00, 0x20, 0x00, 0x45, 0x04, 0x7f, 0x41, 0x01, 0x05, 0x20,
            0x00, 0x20, 0x00, 0x41, 0x01, 0x6b, 0x10, 0x00, 0x6c, 0x0b, 0x0b,
        ],
    ])
}

fn data_module() -> Vec<u8> {
    assemble(&[
        &[0x01, 0x05, 0x01, 0x60, 0x00, 0x01, 0x7f],
        &[0x03, 0x02, 0x01, 0x00],
        &[0x05, 0x03, 0x01, 0x00, 0x01],
        &[0x07, 0x08, 0x01, 0x04, b'l', b'o', b'a', b'd', 0x00, 0x00],
        &[0x0a, 0x09, 0x01, 0x07, 0x00, 0x41, 0x00, 0x28, 0x02, 0x08, 0x0b],
        &[0x0b, 0x0a, 0x01, 0x00, 0x41, 0x08, 0x0b, 0x04, 0x01, 0x02, 0x03, 0x04],
    ])
}

fn table_module() -> Vec<u8> {
    assemble(&[
        &[
            0x01, 0x0e, 0x03, 0x60, 0x00, 0x01, 0x7f, 0x60, 0x01, 0x7f, 0x01, 0x7f, 0x60, 0x00,
            0x01, 0x7e,
        ],
        &[0x03, 0x05, 0x04, 0x00, 0x00, 0x01, 0x01],
        &[0x04, 0x04, 0x01, 0x70, 0x00, 0x02],
        &[
            0x07, 0x0e, 0x02, 0x04, b'c', b'a', b'l', b'l', 0x00, 0x02, 0x03, b'b', b'a', b'd',
            0x00, 0x03,
        ],
        &[0x09, 0x08, 0x01, 0x00, 0x41, 0x00, 0x0b, 0x02, 0x00, 0x01],
        &[
            0x0a, 0x1b, 0x04, 0x04, 0x00, 0x41, 0x0b, 0x0b, 0x04, 0x00, 0x41, 0x16, 0x0b, 0x07,
            0x00, 0x20, 0x00, 0x11, 0x00, 0x00, 0x0b, 0x07, 0x00, 0x20, 0x00, 0x11, 0x02, 0x00,
            0x0b,
        ],
    ])
}

#[test]
fn add_wraps_around() {
    let mut store = Store::new();
    let mut vm = instantiate(add_module(), &mut store);
    let sum = call(&mut vm, &mut store, "add", vec![ValInst::I32(2), ValInst::I32(3)]);
    assert_eq!(sum, Ok(vec![ValInst::I32(5)]));
    let wrapped = call(&mut vm, &mut store, "add", vec![ValInst::I32(0x7fff_ffff), ValInst::I32(1)]);
    assert_eq!(wrapped, Ok(vec![ValInst::I32(-2147483648)]));
}

#[test]
fn factorial_by_recursion() {
    let mut store = Store::new();
    let mut vm = instantiate(fac_module(), &mut store);
    assert_eq!(call(&mut vm, &mut store, "fac", vec![ValInst::I32(5)]), Ok(vec![ValInst::I32(120)]));
    assert_eq!(call(&mut vm, &mut store, "fac", vec![ValInst::I32(0)]), Ok(vec![ValInst::I32(1)]));
    assert_eq!(call(&mut vm, &mut store, "fac", vec![ValInst::I32(10)]), Ok(vec![ValInst::I32(3628800)]));
}

#[test]
fn active_data_segment_is_loaded() {
    let mut store = Store::new();
    let mut vm = instantiate(data_module(), &mut store);
    assert_eq!(call(&mut vm, &mut store, "load", vec![]), Ok(vec![ValInst::I32(0x04030201)]));
    assert_eq!(vm.datas.len(), 1);
    assert!(vm.datas[0].is_empty());
    let mem: &MemInst = &store.mems[vm.mems[0]];
    assert_eq!(mem.mem_reads(8, 4).unwrap(), vec![1, 2, 3, 4]);
    assert_eq!(mem.mem_reads(0, 8).unwrap(), vec![0; 8]);
    assert_eq!(mem.byte_len(), 65536);
}

#[test]
fn indirect_calls_go_through_the_table() {
    let mut store = Store::new();
    let mut vm = instantiate(table_module(), &mut store);
    assert_eq!(call(&mut vm, &mut store, "call", vec![ValInst::I32(0)]), Ok(vec![ValInst::I32(11)]));
    assert_eq!(call(&mut vm, &mut store, "call", vec![ValInst::I32(1)]), Ok(vec![ValInst::I32(22)]));
    assert_eq!(
        call(&mut vm, &mut store, "call", vec![ValInst::I32(2)]),
        Err(VmError::Trap(Trap::OutofRange))
    );
    assert_eq!(
        call(&mut vm, &mut store, "bad", vec![ValInst::I32(0)]),
        Err(VmError::Trap(Trap::ArgNotEq))
    );
}

#[test]
fn a_trap_leaves_the_machine_usable() {
    let mut store = Store::new();
    let mut vm = instantiate(table_module(), &mut store);
    assert!(call(&mut vm, &mut store, "call", vec![ValInst::I32(7)]).is_err());
    assert_eq!(call(&mut vm, &mut store, "call", vec![ValInst::I32(1)]), Ok(vec![ValInst::I32(22)]));
}

#[test]
fn arguments_are_checked() {
    let mut store = Store::new();
    let mut vm = instantiate(add_module(), &mut store);
    assert_eq!(
        call(&mut vm, &mut store, "add", vec![ValInst::I32(1)]),
        Err(VmError::Trap(Trap::ArgNotEq))
    );
    assert_eq!(
        call(&mut vm, &mut store, "add", vec![ValInst::I32(1), ValInst::I64(1)]),
        Err(VmError::Trap(Trap::ValTypeNotEq))
    );
    assert_eq!(
        call(&mut vm, &mut store, "sub", vec![ValInst::I32(1), ValInst::I32(1)]),
        Err(VmError::Trap(Trap::FnNotFound))
    );
}

#[test]
fn shuffle_interleaves_two_vectors() {
    let a: [u8; 16] = [0, 1, 2, 3, 4, 5, 6, 7, 8, 9, 10, 11, 12, 13, 14, 15];
    let b: [u8; 16] = [100, 101, 102, 103, 104, 105, 106, 107, 108, 109, 110, 111, 112, 113, 114, 115];
    let lanes: [u8; 16] = [0, 17, 2, 19, 4, 21, 6, 23, 8, 25, 10, 27, 12, 29, 14, 31];
    let mut body: Vec<u8> = vec![0x00, 0xfd, 0x0c];
    body.extend_from_slice(&a);
    body.extend_from_slice(&[0xfd, 0x0c]);
    body.extend_from_slice(&b);
    body.extend_from_slice(&[0xfd, 0x0d]);
    body.extend_from_slice(&lanes);
    body.push(0x0b);
    assert_eq!(body.len(), 56);
    let mut code: Vec<u8> = vec![0x0a, 0x3a, 0x01, 0x38];
    code.extend_from_slice(&body);
    let bytes = assemble(&[
        &[0x01, 0x05, 0x01, 0x60, 0x00, 0x01, 0x7b],
        &[0x03, 0x02, 0x01, 0x00],
        &[0x07, 0x08, 0x01, 0x04, b's', b'h', b'u', b'f', 0x00, 0x00],
        &code,
    ]);
    let mut store = Store::new();
    let mut vm = instantiate(bytes, &mut store);
    let expected: [u8; 16] = [0, 101, 2, 103, 4, 105, 6, 107, 8, 109, 10, 111, 12, 113, 14, 115];
    assert_eq!(
        call(&mut vm, &mut store, "shuf", vec![]),
        Ok(vec![ValInst::V128(v128::new(expected))])
    );
}

#[test]
fn memory_copy_reads_before_it_writes() {
    let bytes = assemble(&[
        &[0x01, 0x04, 0x01, 0x60, 0x00, 0x00],
        &[0x03, 0x02, 0x01, 0x00],
        &[0x05, 0x03, 0x01, 0x00, 0x01],
        &[0x07, 0x08, 0x01, 0x04, b'c', b'o', b'p', b'y', 0x00, 0x00],
        &[0x0c, 0x01, 0x01],
        &[
            0x0a, 0x0e, 0x01, 0x0c, 0x00, 0x41, 0x04, 0x41, 0x00, 0x41, 0x08, 0xfc, 0x0a, 0x00,
            0x00, 0x0b,
        ],
        &[0x0b, 0x0e, 0x01, 0x00, 0x41, 0x00, 0x0b, 0x08, 1, 2, 3, 4, 5, 6, 7, 8],
    ]);
    let mut store = Store::new();
    let mut vm = instantiate(bytes, &mut store);
    assert_eq!(call(&mut vm, &mut store, "copy", vec![]), Ok(vec![]));
    let mem = &store.mems[vm.mems[0]];
    assert_eq!(mem.mem_reads(0, 16).unwrap(), vec![1, 2, 3, 4, 1, 2, 3, 4, 5, 6, 7, 8, 0, 0, 0, 0]);
}

#[test]
fn a_run_stops_when_the_fuel_is_used_up() {
    // (func (loop (br 0)))
    let bytes = assemble(&[
        &[0x01, 0x04, 0x01, 0x60, 0x00, 0x00],
        &[0x03, 0x02, 0x01, 0x00],
        &[0x07, 0x08, 0x01, 0x04, b's', b'p', b'i', b'n', 0x00, 0x00],
        &[0x0a, 0x09, 0x01, 0x07, 0x00, 0x03, 0x40, 0x0c, 0x00, 0x0b, 0x0b],
    ]);
    let mut store = Store::new();
    let mut vm = instantiate(bytes, &mut store);
    let (step, _) = vm.call_by_name(&store, "spin", vec![]).unwrap();
    assert!(matches!(step, Step::Next));
    assert!(matches!(vm.start_loop(&mut store, 0, 1000), Ok(Step::Next)));
    assert!(vm.frames.len() >= 2);
    assert!(matches!(vm.start_loop(&mut store, 0, 0), Ok(Step::Next)));
}
