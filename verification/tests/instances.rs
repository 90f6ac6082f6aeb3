use wasm::binary::types::{GlobalType, Limits, Mut, RefType, TableType, ValType};
use wasm::execution::errors::{InstError, Trap, VmError};
use wasm::execution::inst::element::ElemInst;
use wasm::execution::inst::function::FuncInst;
use wasm::execution::inst::global::GlobalInst;
use wasm::execution::inst::memory::{MemInst, MAX_PAGE_SIZE, PAGE_SIZE};
use wasm::execution::inst::table::TableInst;
use wasm::execution::random_str;
use wasm::execution::value::{is_arithmetic_nan32, is_canonical_nan32, is_nan32, is_nan64, v128, ValInst};
use wasm::binary::types::FuncType;

fn memory(min: u32, max: Option<u32>) -> MemInst {
    MemInst::new(Limits { min, max })
}

fn table(min: u32, max: Option<u32>) -> TableInst {
    TableInst::new(TableType { elem_type: RefType::FuncRef, limits: Limits { min, max } })
}

#[test]
fn a_memory_is_a_whole_number_of_pages() {
    let mut mem = memory(1, Some(3));
    assert_eq!(mem.mem_size(), 1);
    assert_eq!(mem.byte_len(), 65536);
    assert_eq!(mem.mem_grow(0), 1);
    assert_eq!(mem.mem_grow(2), 1);
    assert_eq!(mem.mem_size(), 3);
    assert_eq!(mem.byte_len(), 3 * 65536);
    assert_eq!(mem.get_type().min, 3);
    assert_eq!(mem.max(), Some(3));
    assert_eq!(mem.mem_grow(1), -1);
    assert_eq!(mem.mem_size(), 3);
    assert_eq!(mem.byte_len() as u64, mem.mem_size() as u64 * PAGE_SIZE as u64);
    let mut open = memory(0, None);
    assert_eq!(open.byte_len(), 0);
    assert_eq!(open.mem_grow(MAX_PAGE_SIZE + 1), -1);
    assert_eq!(open.mem_grow(u32::MAX), -1);
    assert_eq!(open.mem_grow(2), 0);
    assert_eq!(open.mem_size(), 2);
    assert_eq!(open.mem_reads(65536 * 2 - 1, 1), Ok(vec![0]));
}

#[test]
fn reads_and_writes_are_bounds_checked() {
    let mut mem = memory(1, None);
    let size = 65536u64;
    assert_eq!(mem.mem_writes(size - 4, &[1, 2, 3, 4]), Ok(()));
    assert_eq!(mem.mem_read_i32(size - 4), Ok(0x04030201));
    assert_eq!(mem.mem_read_i32(size - 3), Err(VmError::Trap(Trap::OutofRange)));
    assert_eq!(mem.mem_read_i64(size - 8), Ok(0x0403020100000000));
    assert_eq!(mem.mem_read_i64(size - 7), Err(VmError::Trap(Trap::OutofRange)));
    assert_eq!(mem.mem_read(size - 1), Ok(4));
    assert_eq!(mem.mem_read(size), Err(VmError::Trap(Trap::OutofRange)));
    assert_eq!(mem.mem_read_i16(size - 2), Ok(0x0403));
    assert_eq!(mem.mem_read_16(size - 16).map(|b| b[15]), Ok(4));
    assert_eq!(mem.mem_read_16(size - 15), Err(VmError::Trap(Trap::OutofRange)));
    assert_eq!(mem.mem_reads(u64::MAX, 2), Err(VmError::Trap(Trap::OutofRange)));
    assert_eq!(mem.mem_reads(0, u64::MAX), Err(VmError::Trap(Trap::OutofRange)));
    assert_eq!(mem.mem_reads(size, 0), Ok(vec![]));
    assert_eq!(
        mem.mem_writes(size - 3, &[9, 9, 9, 9]),
        Err(VmError::Inst(InstError::OutofBoundMem))
    );
    assert_eq!(mem.mem_reads(size - 4, 4), Ok(vec![1, 2, 3, 4]));
    assert_eq!(mem.mem_write(size, 1), Err(VmError::Inst(InstError::OutofBoundMem)));
    assert_eq!(mem.mem_write(0, 0xab), Ok(()));
    assert_eq!(mem.mem_read(0), Ok(0xab));
}

#[test]
fn typed_reads_are_little_endian() {
    let mut mem = memory(1, None);
    mem.mem_writes(0, &[0xff, 0xff, 0x00, 0x80, 0xef, 0xcd, 0xab, 0x89, 0x67, 0x45, 0x23, 0x01]).unwrap();
    assert_eq!(mem.mem_read_i16(0), Ok(-1));
    assert_eq!(mem.mem_read_i32(0), Ok(0x8000_ffffu32 as i32));
    assert_eq!(mem.mem_read_f32(0), Ok(0x8000_ffff));
    assert_eq!(mem.mem_read_i64(4), Ok(0x0123_4567_89ab_cdef));
    assert_eq!(mem.mem_read_f64(4), Ok(0x0123_4567_89ab_cdef));
    assert_eq!(mem.mem_read_8(4).map(|b| b.to_vec()), Ok(vec![0xef, 0xcd, 0xab, 0x89, 0x67, 0x45, 0x23, 0x01]));
    let v = v128(1, -2, 3, i32::MIN);
    assert_eq!(mem.mem_write_v128(100, v), Ok(()));
    assert_eq!(mem.mem_read_v128(100), Ok(v));
    assert_eq!(mem.mem_reads(100, 8), Ok(vec![1, 0, 0, 0, 0xfe, 0xff, 0xff, 0xff]));
}

#[test]
fn copies_may_overlap() {
    let mut mem = memory(1, None);
    mem.mem_writes(0, &[1, 2, 3, 4, 5, 6, 7, 8]).unwrap();
    mem.copy(0, 8, 4);
    assert_eq!(mem.mem_reads(0, 16), Ok(vec![1, 2, 3, 4, 1, 2, 3, 4, 5, 6, 7, 8, 0, 0, 0, 0]));
    mem.copy(4, 8, 0);
    assert_eq!(mem.mem_reads(0, 12), Ok(vec![1, 2, 3, 4, 5, 6, 7, 8, 5, 6, 7, 8]));
    assert_eq!(MemInst::zeroed(3), vec![0, 0, 0]);
}

#[test]
fn a_table_grows_up_to_its_maximum() {
    let mut t = table(2, Some(4));
    assert_eq!(t.size(), 2);
    assert_eq!(t.usize(), 2);
    assert_eq!(t.get_elem(0), Ok(&ValInst::FuncRef(None)));
    assert_eq!(t.grow(0, ValInst::FuncRef(Some(1))), 2);
    assert_eq!(t.grow(2, ValInst::FuncRef(Some(7))), 2);
    assert_eq!(t.size(), 4);
    assert_eq!(t.get_elem(3), Ok(&ValInst::FuncRef(Some(7))));
    assert_eq!(t.grow(1, ValInst::FuncRef(Some(9))), -1);
    assert_eq!(t.size(), 4);
    assert_eq!(t.get_elems(0, 4).map(|e| e.to_vec()), Ok(vec![
        ValInst::FuncRef(None),
        ValInst::FuncRef(None),
        ValInst::FuncRef(Some(7)),
        ValInst::FuncRef(Some(7)),
    ]));
    assert_eq!(t.grow(u32::MAX, ValInst::FuncRef(None)), -1);
    let mut open = table(0, None);
    assert_eq!(open.grow(65537, ValInst::FuncRef(None)), -1);
    assert_eq!(open.grow(65536, ValInst::FuncRef(None)), 0);
    assert_eq!(open.grow(1, ValInst::FuncRef(None)), -1);
    assert_eq!(open.size(), 65536);
    let ext = TableInst::new(TableType { elem_type: RefType::ExternRef, limits: Limits { min: 1, max: None } });
    assert_eq!(ext.get_elem(0), Ok(&ValInst::ExternRef(None)));
    assert_eq!(ext.get_type().elem_type, RefType::ExternRef);
}

#[test]
fn table_accesses_are_bounds_checked() {
    let mut t = table(3, None);
    assert_eq!(t.set_elem(2, ValInst::FuncRef(Some(5))), Ok(()));
    assert_eq!(t.set_elem(3, ValInst::FuncRef(Some(5))), Err(VmError::Trap(Trap::OutofRange)));
    assert_eq!(t.get_elem(3), Err(VmError::Trap(Trap::OutofRange)));
    assert_eq!(t.get_func_inst(2), Ok(5));
    assert_eq!(t.get_func_inst(0), Err(VmError::Trap(Trap::NullRef)));
    assert_eq!(t.get_func_inst(9), Err(VmError::Trap(Trap::OutofRange)));
    assert_eq!(t.set_elem(1, ValInst::I32(1)), Ok(()));
    assert_eq!(t.get_func_inst(1), Err(VmError::Trap(Trap::InvalidRef)));
    assert_eq!(t.get_elems(2, 2).map(|e| e.len()), Err(VmError::Trap(Trap::OutofRange)));
    assert_eq!(t.get_elems(u32::MAX, 2).map(|e| e.len()), Err(VmError::Trap(Trap::OutofRange)));
    assert_eq!(t.get_elems(3, 0).map(|e| e.len()), Ok(0));
    assert_eq!(
        t.set_elems(2, &[ValInst::NullRef, ValInst::NullRef]),
        Err(VmError::Trap(Trap::OutofRange))
    );
    assert_eq!(t.get_func_inst(2), Ok(5));
    assert_eq!(t.set_elems(1, &[ValInst::FuncRef(Some(1)), ValInst::FuncRef(Some(2))]), Ok(()));
    assert_eq!(t.get_func_inst(1), Ok(1));
    assert_eq!(t.get_func_inst(2), Ok(2));
    t.drop_();
    assert_eq!(t.size(), 0);
}

#[test]
fn globals_keep_their_type() {
    let var = GlobalType { val_type: ValType::I32, mut_: Mut::Var };
    let fixed = GlobalType { val_type: ValType::I32, mut_: Mut::Const };
    assert!(matches!(
        GlobalInst::new(var, ValInst::I64(1)),
        Err(VmError::Trap(Trap::GlobalTypeNotEq))
    ));
    let mut g = GlobalInst::new(var, ValInst::I32(1)).unwrap();
    assert_eq!(g.value(), ValInst::I32(1));
    assert_eq!(g.set(ValInst::I32(2)), Ok(()));
    assert_eq!(g.value(), ValInst::I32(2));
    assert_eq!(g.set(ValInst::F32(0)), Err(VmError::Trap(Trap::GlobalTypeNotEq)));
    assert_eq!(g.value(), ValInst::I32(2));
    assert_eq!(*g.get_type(), var);
    let mut c = GlobalInst::new(fixed, ValInst::I32(1)).unwrap();
    assert_eq!(c.set(ValInst::I32(2)), Err(VmError::Trap(Trap::GlobalVarConst)));
    assert_eq!(c.value(), ValInst::I32(1));
}

#[test]
fn element_instances_can_be_dropped() {
    let mut e = ElemInst::new(ValType::FuncRef, vec![ValInst::FuncRef(Some(1))]);
    assert_eq!(e.refs.len(), 1);
    e.drop_();
    assert!(e.refs.is_empty());
    assert_eq!(e.type_, ValType::FuncRef);
}

#[test]
fn random_ids_are_letters_and_digits() {
    for n in [0usize, 1, 7, 10, 64] {
        let s = random_str(n);
        assert_eq!(s.len(), n);
        assert!(s.chars().all(|c| c.is_ascii_alphanumeric()));
    }
    assert_ne!(random_str(32), random_str(32));
}

#[test]
fn function_instances_have_an_id_and_a_type() {
    let f = FuncInst::from_importer(FuncType::new_result(ValType::I32), "host", "f");
    assert_eq!(f.get_id().len(), 7);
    assert!(f.get_id().chars().all(|c| c.is_ascii_alphanumeric()));
    assert_eq!(f.ret_types(), &vec![ValType::I32]);
    assert!(f.arg_types().is_empty());
    assert!(f.get_type().eq_type(&FuncType::new_result(ValType::I32)));
    let g = f.as_outer("other", "g");
    assert!(f.same_func(&g));
    assert_eq!(g.from, "other");
    let h = FuncInst::from_importer(FuncType::empty(), "host", "f");
    assert!(!f.same_func(&h));
}

#[test]
fn values_convert_and_compare() {
    assert_eq!(ValInst::new_ref_null(0x70), ValInst::FuncRef(None));
    assert_eq!(ValInst::new_ref_null(0x6f), ValInst::ExternRef(None));
    assert_eq!(ValInst::new_func_ref(3), ValInst::FuncRef(Some(3)));
    assert_eq!(ValInst::new_extern_ref(3), ValInst::ExternRef(Some(3)));
    assert_eq!(ValInst::new_ref(ValType::FuncRef, Some(1), None), ValInst::FuncRef(Some(1)));
    assert_eq!(ValInst::new_ref(ValType::ExternRef, None, Some(2)), ValInst::ExternRef(Some(2)));
    assert_eq!(ValInst::I32(-1).as_u32(), u32::MAX);
    assert_eq!(ValInst::I64(-1).as_u64(), u64::MAX);
    assert_eq!(ValInst::I32(-1).as_mem_addr(), u64::MAX);
    assert_eq!(ValInst::I64(5).as_mem_addr(), 5);
    assert_eq!(ValInst::from_u32(u32::MAX), ValInst::I32(-1));
    assert_eq!(ValInst::from_u64(u64::MAX), ValInst::I64(-1));
    assert_eq!(ValInst::F32(7).as_f32(), 7);
    assert_eq!(ValInst::V128(v128(1, 2, 3, 4)).as_v128(), v128(1, 2, 3, 4));
    assert_eq!(ValInst::I64(1).get_type(), ValType::I64);
    assert_eq!(ValInst::NullRef.get_type(), ValType::NullRef);
    assert_eq!(ValInst::zero(&ValType::F64), ValInst::F64(0));
    assert_eq!(ValInst::zero(&ValType::FuncRef), ValInst::FuncRef(None));
    assert_eq!(ValInst::FuncRef(Some(2)).as_ref_inst(), Ok(2));
    assert_eq!(ValInst::FuncRef(None).as_func_inst(), Err(Trap::NullRef));
    assert_eq!(ValInst::I32(0).as_ref_inst(), Err(Trap::InvalidRef));
}

#[test]
fn truth_of_values() {
    assert!(!ValInst::I32(0).as_bool());
    assert!(ValInst::I32(-1).as_bool());
    assert!(!ValInst::I64(0).as_bool());
    assert!(!ValInst::F32(0.0f32.to_bits()).as_bool());
    assert!(!ValInst::F32((-0.0f32).to_bits()).as_bool());
    assert!(ValInst::F32(f32::NAN.to_bits()).as_bool());
    assert!(!ValInst::F64((-0.0f64).to_bits()).as_bool());
    assert!(ValInst::F64(1.0f64.to_bits()).as_bool());
    assert!(!ValInst::V128(v128(0, 0, 0, 0)).as_bool());
    assert!(ValInst::V128(v128(0, 0, 1, 0)).as_bool());
    assert!(!ValInst::FuncRef(None).as_bool());
    assert!(ValInst::ExternRef(Some(0)).as_bool());
    assert!(!ValInst::NullRef.as_bool());
}

#[test]
fn float_equality_treats_every_nan_alike() {
    let f = |x: f32| ValInst::F32(x.to_bits());
    let d = |x: f64| ValInst::F64(x.to_bits());
    assert!(f(f32::NAN).same(&f(-f32::NAN)));
    assert!(f(f32::NAN).same(&ValInst::F32(0x7f80_0001)));
    assert!(!f(f32::NAN).same(&f(1.0)));
    assert!(f(0.0).same(&f(-0.0)));
    assert!(f(1.5).same(&f(1.5)));
    assert!(!f(1.5).same(&f(-1.5)));
    assert!(!f(f32::INFINITY).same(&f(f32::NAN)));
    assert!(d(f64::NAN).same(&d(f64::NAN)));
    assert!(d(0.0).same(&d(-0.0)));
    assert!(!d(2.0).same(&d(3.0)));
    assert!(!f(0.0).same(&d(0.0)));
    assert!(ValInst::I32(3).same(&ValInst::I32(3)));
    assert!(!ValInst::I32(3).same(&ValInst::I64(3)));
    for x in [0.0f32, 1.0, f32::INFINITY, f32::NAN, -f32::NAN, f32::MIN_POSITIVE] {
        assert_eq!(is_nan32(x.to_bits()), x.is_nan());
    }
    for x in [0.0f64, -1.0, f64::NEG_INFINITY, f64::NAN] {
        assert_eq!(is_nan64(x.to_bits()), x.is_nan());
    }
    assert!(is_canonical_nan32(0x7fc0_0000));
    assert!(is_canonical_nan32(0xffc0_0000));
    assert!(!is_canonical_nan32(0x7fc0_0001));
    assert!(is_arithmetic_nan32(0x7fc0_0001));
    assert!(!is_arithmetic_nan32(0x7f80_0001));
}

#[test]
fn values_come_from_numbers() {
    assert_eq!(ValInst::from(7u32), ValInst::I32(7));
    assert_eq!(ValInst::from(u32::MAX), ValInst::I32(-1));
    assert_eq!(ValInst::from(u64::MAX), ValInst::I64(-1));
    assert_eq!(ValInst::from(-3i32), ValInst::I32(-3));
    assert_eq!(ValInst::from(-3i64), ValInst::I64(-3));
    assert_eq!(ValInst::from(v128(1, 2, 3, 4)), ValInst::V128(v128(1, 2, 3, 4)));
    assert_eq!(Mut::from(true), Mut::Var);
    assert_eq!(Mut::from(false), Mut::Const);
}
