use wasm::binary::decode::{decode_instr, decodes, Decode};
use wasm::binary::encode::{encode_maybeu32_sec, Encode, Encodes};
use wasm::binary::errors::{DataCountOp, DecodeErr, ReservedOp};
use wasm::binary::instruction::{BlockType, Instruction, MemoryArg};
use wasm::binary::module::Module;
use wasm::binary::reader::Reader;
use wasm::binary::section::{
    CodeSeg, CustomSeg, DataMode, DataSeg, ElementMode, ElementSeg, ExportDesc, ExportSeg, Expr,
    GlobalSeg, ImportDesc, ImportSeg, Section,
};
use wasm::binary::types::{FuncType, GlobalType, Limits, Mut, RefType, TableType, ValType};
use wasm::execution::value::v128;

fn decode_one(bytes: &[u8], data_count: Option<u32>) -> Result<Instruction, DecodeErr> {
    let mut reader = Reader::new(bytes, data_count);
    decode_instr(&mut reader)
}

fn round_trip(bytes: &[u8]) {
    let instr = decode_one(bytes, Some(0)).expect("the instruction decodes");
    assert_eq!(instr.encode(), bytes.to_vec());
}

#[test]
fn section_ids_are_0_to_12() {
    assert_eq!(Section::from_u8(0), Ok(Section::Custom));
    assert_eq!(Section::from_u8(10), Ok(Section::Code));
    assert_eq!(Section::from_u8(12), Ok(Section::DataCount));
    assert_eq!(Section::from_u8(13), Err(DecodeErr::UnexpectedSection(13)));
    for id in 0..=12u8 {
        assert_eq!(Section::from_u8(id).unwrap().id(), id);
    }
}

#[test]
fn value_types_and_mutability_have_fixed_bytes() {
    assert_eq!(ValType::from_u8(0x7f), Ok(ValType::I32));
    assert_eq!(ValType::from_u8(0x7b), Ok(ValType::V128));
    assert_eq!(ValType::from_u8(0x6f), Ok(ValType::ExternRef));
    assert_eq!(ValType::from_u8(0x00), Err(DecodeErr::InvalidType(0)));
    assert_eq!(ValType::I64.byte(), 0x7e);
    assert!(ValType::FuncRef.is_ref_type());
    assert!(!ValType::I32.is_ref_type());
    assert!(ValType::F64.is_num_type());
    assert!(ValType::V128.is_vec_type());
    assert_eq!(Mut::from_u8(0), Ok(Mut::Const));
    assert_eq!(Mut::from_u8(1), Ok(Mut::Var));
    assert_eq!(Mut::from_u8(2), Err(DecodeErr::InvalidMut(2)));
    assert!(GlobalType::new(ValType::I32, false).is_const());
    assert!(!GlobalType::new(ValType::I32, true).is_const());
}

#[test]
fn block_types_are_negative_codes_or_indices() {
    assert_eq!(BlockType::from_i32(-1), Ok(BlockType::I32));
    assert_eq!(BlockType::from_i32(-64), Ok(BlockType::Empty));
    assert_eq!(BlockType::from_i32(-17), Ok(BlockType::ExternRef));
    assert_eq!(BlockType::from_i32(5), Ok(BlockType::TypeIdx(5)));
    assert_eq!(BlockType::from_i32(-6), Err(DecodeErr::InvalidBlockType(-6)));
    assert_eq!(BlockType::Empty.encode(), vec![0x40]);
    assert_eq!(BlockType::I32.encode(), vec![0x7f]);
    assert_eq!(BlockType::TypeIdx(3).encode(), vec![0x03]);
}

#[test]
fn function_type_constructors() {
    let f = FuncType::new_param(ValType::I32, 3);
    assert_eq!(f.params, vec![ValType::I32; 3]);
    assert!(f.results.is_empty());
    let g = FuncType::new_params(vec![ValType::I64, ValType::F32]);
    assert_eq!(g.params, vec![ValType::I64, ValType::F32]);
    let h = FuncType::new_result(ValType::F64);
    assert!(h.params.is_empty());
    assert_eq!(h.results, vec![ValType::F64]);
    assert!(h.eq_type(&h.duplicate()));
    assert!(!h.eq_type(&g));
    assert_eq!(g.encode(), vec![0x60, 0x02, 0x7e, 0x7d, 0x00]);
}

#[test]
fn limits_compatibility() {
    let l = |min: u32, max: Option<u32>| Limits { min, max };
    assert!(l(1, None).incompatible(&l(2, None)));
    assert!(!l(2, None).incompatible(&l(2, None)));
    assert!(l(2, None).incompatible(&l(1, Some(5))));
    assert!(!l(2, Some(4)).incompatible(&l(1, Some(5))));
    assert!(l(2, Some(6)).incompatible(&l(1, Some(5))));
    assert!(!l(2, Some(6)).incompatible(&l(1, None)));
    let t = |elem_type: RefType| TableType { elem_type, limits: l(1, None) };
    assert!(t(RefType::FuncRef).incompatible(&t(RefType::ExternRef)));
    assert!(!t(RefType::FuncRef).incompatible(&t(RefType::FuncRef)));
}

#[test]
fn plain_instructions_round_trip() {
    round_trip(&[0x00]);
    round_trip(&[0x6a]);
    round_trip(&[0x41, 0x7f]);
    round_trip(&[0x42, 0x80, 0x80, 0x80, 0x80, 0x80, 0x80, 0x80, 0x80, 0x80, 0x7f]);
    round_trip(&[0x43, 0x00, 0x00, 0x80, 0x3f]);
    round_trip(&[0x44, 0x18, 0x2d, 0x44, 0x54, 0xfb, 0x21, 0x09, 0x40]);
    round_trip(&[0x28, 0x02, 0x08]);
    round_trip(&[0x11, 0x03, 0x00]);
    round_trip(&[0x1c, 0x01, 0x7f]);
    round_trip(&[0x3f, 0x00]);
    round_trip(&[0xd0, 0x70]);
    round_trip(&[0xd2, 0x05]);
    round_trip(&[0xfc, 0x07]);
    round_trip(&[0xfc, 0x08, 0x01, 0x00]);
    round_trip(&[0xfc, 0x0a, 0x00, 0x00]);
    round_trip(&[0xfd, 0x15, 0x0f]);
    round_trip(&[0xfd, 0x54, 0x00, 0x04, 0x03]);
    round_trip(&[0xfd, 0x80, 0x01]);
    round_trip(&[0xfd, 0x0d, 0, 17, 2, 19, 4, 21, 6, 23, 8, 25, 10, 27, 12, 29, 14, 31]);
}

#[test]
fn instruction_tags_carry_the_prefix() {
    assert_eq!(Instruction::I32Add.discriminant(), 0x6a);
    assert_eq!(Instruction::MemoryFill(0).discriminant(), 0xfc0b);
    assert_eq!(Instruction::V128Const(v128(0, 0, 0, 0)).discriminant(), 0xfd0c);
    assert_eq!(Instruction::F64x2ConvertLowI32x4U(1).discriminant(), 0xfdff);
    assert_eq!(Instruction::End.encode(), vec![0x0b]);
    assert_eq!(Instruction::TableFill(2).encode(), vec![0xfc, 0x11, 0x02]);
    assert_eq!(
        Instruction::I32Load(MemoryArg { align: 2, offset: 300 }).encode(),
        vec![0x28, 0x02, 0xac, 0x02]
    );
}

#[test]
fn decoded_instructions_hold_their_immediates() {
    assert!(matches!(decode_one(&[0x41, 0x7f], None), Ok(Instruction::I32Const(-1))));
    assert!(matches!(decode_one(&[0x0c, 0x03], None), Ok(Instruction::Br(3))));
    assert!(matches!(
        decode_one(&[0x28, 0x02, 0x08], None),
        Ok(Instruction::I32Load(MemoryArg { align: 2, offset: 8 }))
    ));
    assert!(matches!(
        decode_one(&[0x43, 0x00, 0x00, 0x80, 0x3f], None),
        Ok(Instruction::F32Const(0x3f80_0000))
    ));
    match decode_one(&[0x0e, 0x02, 0x01, 0x02, 0x00], None) {
        Ok(Instruction::BrTable(arg)) => {
            assert_eq!(arg.labels, vec![1, 2]);
            assert_eq!(arg.default, 0);
        }
        other => panic!("not a label table: {:?}", other),
    }
}

#[test]
fn blocks_nest() {
    // block (result i32) i32.const 1 if nop else nop nop end end
    let bytes = [0x02, 0x7f, 0x41, 0x01, 0x04, 0x40, 0x01, 0x05, 0x01, 0x01, 0x0b, 0x0b];
    match decode_one(&bytes, None) {
        Ok(Instruction::Block(block)) => {
            assert_eq!(block.type_, BlockType::I32);
            assert_eq!(block.expr.len(), 2);
            match &block.expr[1] {
                Instruction::If(inner) => {
                    assert_eq!(inner.type_, BlockType::Empty);
                    assert_eq!(inner.if_expr.len(), 1);
                    assert_eq!(inner.else_expr.len(), 2);
                }
                other => panic!("not an if: {:?}", other),
            }
        }
        other => panic!("not a block: {:?}", other),
    }
    round_trip(&bytes);
    // an `if` without `else`
    round_trip(&[0x04, 0x40, 0x01, 0x0b]);
    // a loop in a block
    round_trip(&[0x02, 0x40, 0x03, 0x40, 0x0c, 0x01, 0x0b, 0x0b]);
}

#[test]
fn malformed_instructions_are_rejected() {
    assert_eq!(decode_one(&[], None).unwrap_err(), DecodeErr::UnexpectedEof);
    assert_eq!(decode_one(&[0x06], None).unwrap_err(), DecodeErr::UnknownOpcodePrefix(0x06));
    assert_eq!(decode_one(&[0xfc, 0x12], None).unwrap_err(), DecodeErr::UnknownOpcode(0xfc, 0x12));
    assert_eq!(decode_one(&[0xfd, 0x9a], None).unwrap_err(), DecodeErr::UnknownOpcode(0xfd, 0x9a));
    assert_eq!(decode_one(&[0x41], None).unwrap_err(), DecodeErr::LEBUnexpectedEnd);
    assert_eq!(decode_one(&[0x02, 0x40, 0x01], None).unwrap_err(), DecodeErr::InvalidBlock);
    assert_eq!(decode_one(&[0x02, 0x40, 0x05, 0x0b], None).unwrap_err(), DecodeErr::InvalidBlock);
    assert_eq!(
        decode_one(&[0x04, 0x40, 0x05, 0x01], None).unwrap_err(),
        DecodeErr::InvalidElseBlock
    );
    assert_eq!(decode_one(&[0x02, 0x7a, 0x0b], None).unwrap_err(), DecodeErr::InvalidBlockType(-6));
    assert_eq!(decode_one(&[0x1c, 0x01, 0x00], None).unwrap_err(), DecodeErr::InvalidType(0));
}

#[test]
fn bodies_are_checked_while_they_are_read() {
    let grow = [0x02, 0x40, 0x40, 0x01, 0x0b];
    assert_eq!(
        decode_one(&grow, None).unwrap_err(),
        DecodeErr::NotZero(ReservedOp::MemoryGrow, 1)
    );
    let size = [0x02, 0x40, 0x3f, 0x02, 0x0b];
    assert_eq!(
        decode_one(&size, None).unwrap_err(),
        DecodeErr::NotZero(ReservedOp::MemorySize, 2)
    );
    let init = [0x02, 0x40, 0xfc, 0x08, 0x00, 0x00, 0x0b];
    assert_eq!(
        decode_one(&init, None).unwrap_err(),
        DecodeErr::LossDataCount(DataCountOp::MemoryInit)
    );
    assert!(decode_one(&init, Some(1)).is_ok());
    let drop = [0x02, 0x40, 0xfc, 0x09, 0x00, 0x0b];
    assert_eq!(
        decode_one(&drop, None).unwrap_err(),
        DecodeErr::LossDataCount(DataCountOp::DataDrop)
    );
    assert!(decode_one(&drop, Some(1)).is_ok());
}

#[test]
fn vectors_are_count_prefixed() {
    let data = [0x03, 0x7f, 0x7e, 0x7d];
    let mut reader = Reader::new(&data, None);
    assert_eq!(decodes::<ValType>(&mut reader), Ok(vec![ValType::I32, ValType::I64, ValType::F32]));
    let short = [0x03, 0x7f];
    let mut reader = Reader::new(&short, None);
    assert_eq!(decodes::<ValType>(&mut reader), Err(DecodeErr::UnexpectedEof));
    assert_eq!(vec![1u32, 128].encodes(false), vec![0x02, 0x01, 0x80, 0x01]);
    assert_eq!(vec![1u32, 128].encodes(true), vec![0x04, 0x02, 0x01, 0x80, 0x01]);
    assert_eq!(Vec::<u32>::new().encodes(true), vec![0x01, 0x00]);
}

#[test]
fn limits_and_tables() {
    let mut reader = Reader::new(&[0x00, 0x01], None);
    assert_eq!(Limits::decode(&mut reader), Ok(Limits { min: 1, max: None }));
    let mut reader = Reader::new(&[0x01, 0x01, 0x02], None);
    assert_eq!(Limits::decode(&mut reader), Ok(Limits { min: 1, max: Some(2) }));
    let mut reader = Reader::new(&[0x02, 0x01], None);
    assert_eq!(Limits::decode(&mut reader), Err(DecodeErr::InvalidLimitMode(2)));
    let mut reader = Reader::new(&[0x6f, 0x00, 0x03], None);
    assert_eq!(
        TableType::decode(&mut reader),
        Ok(TableType { elem_type: RefType::ExternRef, limits: Limits { min: 3, max: None } })
    );
    let mut reader = Reader::new(&[0x7f, 0x00, 0x03], None);
    assert_eq!(TableType::decode(&mut reader), Err(DecodeErr::InvalidTableElemType(0x7f)));
    assert_eq!(Limits { min: 1, max: Some(2) }.encode(), vec![0x01, 0x01, 0x02]);
    assert_eq!(
        TableType { elem_type: RefType::FuncRef, limits: Limits { min: 0, max: None } }.encode(),
        vec![0x70, 0x00, 0x00]
    );
}

#[test]
fn imports_and_exports() {
    let bytes = [0x03, b'e', b'n', b'v', 0x01, b'f', 0x00, 0x02];
    let mut reader = Reader::new(&bytes, None);
    let import = ImportSeg::decode(&mut reader).unwrap();
    assert_eq!(import.module, "env");
    assert_eq!(import.name, "f");
    assert_eq!(import.desc, ImportDesc::Func(2));
    assert_eq!(import.encode(), bytes.to_vec());
    let bad = [0x01, b'm', 0x01, b'f', 0x04, 0x00];
    let mut reader = Reader::new(&bad, None);
    assert_eq!(ImportSeg::decode(&mut reader).unwrap_err(), DecodeErr::InvalidImportKind(4));
    let bytes = [0x03, b'm', b'e', b'm', 0x02, 0x00];
    let mut reader = Reader::new(&bytes, None);
    let export = ExportSeg::decode(&mut reader).unwrap();
    assert_eq!(export.name, "mem");
    assert_eq!(export.desc, ExportDesc::Mem(0));
    assert_eq!(export.encode(), bytes.to_vec());
    let bad = [0x01, b'x', 0x07, 0x00];
    let mut reader = Reader::new(&bad, None);
    assert_eq!(ExportSeg::decode(&mut reader).unwrap_err(), DecodeErr::InvalidExportKind(7));
}

#[test]
fn element_segments_follow_their_flag() {
    let decode = |bytes: &[u8]| {
        let mut reader = Reader::new(bytes, None);
        ElementSeg::decode(&mut reader)
    };
    let seg = decode(&[0x00, 0x41, 0x05, 0x0b, 0x02, 0x07, 0x08]).unwrap();
    assert_eq!(seg.flag, 0);
    assert_eq!(seg.type_, ValType::FuncRef);
    assert_eq!(seg.func_idxs, vec![7, 8]);
    assert!(!seg.init_is_expr());
    match &seg.mode {
        ElementMode::Active { table_idx, offset_expr } => {
            assert_eq!(*table_idx, 0);
            assert!(matches!(offset_expr[..], [Instruction::I32Const(5)]));
        }
        other => panic!("not active: {:?}", other),
    }
    assert_eq!(seg.encode(), vec![0x00, 0x41, 0x05, 0x0b, 0x02, 0x07, 0x08]);

    let seg = decode(&[0x01, 0x00, 0x01, 0x03]).unwrap();
    assert!(matches!(seg.mode, ElementMode::Passive));
    assert_eq!(seg.elem_kind, 0);
    assert_eq!(seg.func_idxs, vec![3]);

    let seg = decode(&[0x02, 0x01, 0x41, 0x00, 0x0b, 0x00, 0x00]).unwrap();
    assert!(matches!(seg.mode, ElementMode::Active { table_idx: 1, .. }));

    let seg = decode(&[0x03, 0x00, 0x00]).unwrap();
    assert!(matches!(seg.mode, ElementMode::Declarative));

    let seg = decode(&[0x04, 0x41, 0x00, 0x0b, 0x01, 0xd2, 0x02, 0x0b]).unwrap();
    assert!(matches!(seg.mode, ElementMode::Active { table_idx: 0, .. }));
    assert!(seg.init_is_expr());
    assert!(matches!(seg.init_expr[0][..], [Instruction::RefFunc(2)]));

    let seg = decode(&[0x05, 0x6f, 0x01, 0xd0, 0x6f, 0x0b]).unwrap();
    assert!(matches!(seg.mode, ElementMode::Passive));
    assert_eq!(seg.type_, ValType::ExternRef);

    let mut seg = decode(&[0x06, 0x02, 0x41, 0x01, 0x0b, 0x70, 0x00]).unwrap();
    assert!(matches!(seg.mode, ElementMode::Active { table_idx: 2, .. }));
    assert_eq!(seg.encode(), vec![0x06, 0x02, 0x41, 0x01, 0x0b, 0x70, 0x00]);
    seg.drop_();
    assert!(seg.func_idxs.is_empty() && seg.init_expr.is_empty());

    let seg = decode(&[0x07, 0x70, 0x00]).unwrap();
    assert!(matches!(seg.mode, ElementMode::Declarative));

    assert_eq!(decode(&[0x08]).unwrap_err(), DecodeErr::InvalidElemMode(8));
    assert_eq!(decode(&[0x05, 0x7f, 0x00]).unwrap_err(), DecodeErr::TableElemNotARef);
}

#[test]
fn data_segments_follow_their_flag() {
    let decode = |bytes: &[u8]| {
        let mut reader = Reader::new(bytes, None);
        DataSeg::decode(&mut reader)
    };
    let mut seg = decode(&[0x00, 0x41, 0x08, 0x0b, 0x02, 0xaa, 0xbb]).unwrap();
    assert_eq!(seg.mode, DataMode::Active);
    assert_eq!(seg.mem_idx, 0);
    assert_eq!(seg.init, vec![0xaa, 0xbb]);
    assert_eq!(seg.encode(), vec![0x00, 0x41, 0x08, 0x0b, 0x02, 0xaa, 0xbb]);
    seg.drop_();
    assert!(seg.init.is_empty());
    let seg = decode(&[0x01, 0x01, 0xcc]).unwrap();
    assert_eq!(seg.mode, DataMode::Passive);
    assert!(seg.offset_expr.is_empty());
    assert_eq!(seg.encode(), vec![0x01, 0x01, 0xcc]);
    let seg = decode(&[0x02, 0x03, 0x41, 0x00, 0x0b, 0x00]).unwrap();
    assert_eq!(seg.mem_idx, 3);
    assert_eq!(decode(&[0x03]).unwrap_err(), DecodeErr::InvalidDataMode(3));
    assert_eq!(decode(&[0x00, 0x41, 0x08, 0x05, 0x00]).unwrap_err(), DecodeErr::ExprUnexpectedEnd);
}

#[test]
fn code_entries_count_their_locals() {
    let bytes = [0x06, 0x02, 0x02, 0x7f, 0x01, 0x7e, 0x0b];
    let mut reader = Reader::new(&bytes, None);
    let code = CodeSeg::decode(&mut reader).unwrap();
    assert_eq!(code.size, 6);
    assert_eq!(code.locals.len(), 2);
    assert_eq!(code.local_size(), Some(3));
    assert_eq!(code.init_local().len(), 3);
    assert_eq!(code.encode(), bytes.to_vec());
    // 0x10000000 locals are too many
    let many = [0x08, 0x01, 0x80, 0x80, 0x80, 0x80, 0x01, 0x7f, 0x0b];
    let mut reader = Reader::new(&many, None);
    assert_eq!(CodeSeg::decode(&mut reader).unwrap_err(), DecodeErr::LocalsTooLarge);
    let fewer = [0x08, 0x01, 0xff, 0xff, 0xff, 0x7f, 0x7f, 0x0b, 0x00];
    let mut reader = Reader::new(&fewer[..8], None);
    assert_eq!(CodeSeg::decode(&mut reader).unwrap_err(), DecodeErr::UnexpectedEof);
}

#[test]
fn custom_sections_and_index_sections_encode() {
    let custom = CustomSeg { name: "n".to_string(), data: vec![1, 2] };
    assert_eq!(custom.encode(), vec![0x00, 0x04, 0x01, b'n', 0x01, 0x02]);
    assert_eq!(encode_maybeu32_sec(Section::Start, Some(3)), vec![0x08, 0x01, 0x03]);
    assert_eq!(encode_maybeu32_sec(Section::DataCount, Some(300)), vec![0x0c, 0x02, 0xac, 0x02]);
    assert_eq!(encode_maybeu32_sec(Section::Start, None), Vec::<u8>::new());
}

#[test]
fn globals_hold_a_constant_expression() {
    let bytes = [0x7f, 0x01, 0x41, 0x2a, 0x0b];
    let mut reader = Reader::new(&bytes, None);
    let global = GlobalSeg::decode(&mut reader).unwrap();
    assert_eq!(global.type_, GlobalType { val_type: ValType::I32, mut_: Mut::Var });
    assert!(matches!(global.init_expr[..], [Instruction::I32Const(42)]));
    assert_eq!(global.encode(), bytes.to_vec());
    let mut reader = Reader::new(&[0x41, 0x2a], None);
    assert_eq!(Expr::decode(&mut reader).unwrap_err(), DecodeErr::ExprUnexpectedEnd);
}

fn sample_module() -> Vec<u8> {
    let mut bytes = vec![0x00, 0x61, 0x73, 0x6d, 0x01, 0x00, 0x00, 0x00];
    let sections: [&[u8]; 9] = [
        &[0x01, 0x07, 0x01, 0x60, 0x02, 0x7f, 0x7f, 0x01, 0x7f],
        &[0x02, 0x0a, 0x01, 0x03, b'e', b'n', b'v', 0x01, b'g', 0x03, 0x7f, 0x00],
        &[0x03, 0x02, 0x01, 0x00],
        &[0x04, 0x04, 0x01, 0x70, 0x00, 0x01],
        &[0x05, 0x04, 0x01, 0x01, 0x01, 0x02],
        &[0x06, 0x06, 0x01, 0x7f, 0x00, 0x41, 0x07, 0x0b],
        &[0x07, 0x07, 0x01, 0x03, b'a', b'd', b'd', 0x00, 0x00],
        &[0x0a, 0x09, 0x01, 0x07, 0x00, 0x20, 0x00, 0x20, 0x01, 0x6a, 0x0b],
        &[0x00, 0x04, 0x01, b'n', 0x09, 0x09],
    ];
    for section in sections {
        bytes.extend_from_slice(section);
    }
    bytes
}

#[test]
fn a_module_decodes_section_by_section() {
    let module = Module::from_data(sample_module()).unwrap();
    assert_eq!(module.type_sec.len(), 1);
    assert_eq!(module.import_sec.len(), 1);
    assert_eq!(module.func_sec, vec![0]);
    assert_eq!(module.table_sec.len(), 1);
    assert_eq!(module.mem_sec, vec![Limits { min: 1, max: Some(2) }]);
    assert_eq!(module.global_sec.len(), 1);
    assert_eq!(module.export_sec[0].name, "add");
    assert_eq!(module.code_sec.len(), 1);
    assert_eq!(module.custom_sec.len(), 1);
    assert_eq!(module.custom_sec[0].data, vec![9, 9]);
    assert_eq!(module.start_sec, None);
    assert_eq!(module.data_counat_sec, None);
}

#[test]
fn re_encoding_is_byte_identical() {
    let bytes = sample_module();
    let module = Module::from_data(bytes.clone()).unwrap();
    let encoded = module.encode();
    assert_eq!(encoded, bytes);
    let again = Module::from_data(encoded.clone()).unwrap();
    assert_eq!(again.encode(), encoded);
    assert_eq!(Module::new().encode(), vec![0x00, 0x61, 0x73, 0x6d, 0x01, 0x00, 0x00, 0x00]);
}

#[test]
fn the_header_is_checked() {
    assert_eq!(Module::from_data(vec![]).unwrap_err(), DecodeErr::UnexpectedEof);
    assert_eq!(
        Module::from_data(vec![0x00, 0x61, 0x73, 0x6e, 0x01, 0x00, 0x00, 0x00]).unwrap_err(),
        DecodeErr::MagicUnMatch(0x6e736100)
    );
    assert_eq!(
        Module::from_data(vec![0x00, 0x61, 0x73, 0x6d, 0x02, 0x00, 0x00, 0x00]).unwrap_err(),
        DecodeErr::VersionUnMatch(2)
    );
    assert!(Module::from_data(vec![0x00, 0x61, 0x73, 0x6d, 0x01, 0x00, 0x00, 0x00]).is_ok());
}

#[test]
fn sections_are_framed() {
    let with = |section: &[u8]| {
        let mut bytes = vec![0x00, 0x61, 0x73, 0x6d, 0x01, 0x00, 0x00, 0x00];
        bytes.extend_from_slice(section);
        Module::from_data(bytes)
    };
    assert_eq!(with(&[0x0d, 0x00]).unwrap_err(), DecodeErr::UnexpectedSection(0x0d));
    assert_eq!(with(&[0x01, 0x02, 0x00, 0x00]).unwrap_err(), DecodeErr::SectionSizeMismatch);
    assert_eq!(with(&[0x01, 0x05, 0x00]).unwrap_err(), DecodeErr::UnexpectedEof);
    assert_eq!(
        with(&[0x01, 0x01, 0x00, 0x01, 0x01, 0x00]).unwrap_err(),
        DecodeErr::MultipleSection(Section::Type, 1)
    );
    assert!(with(&[0x00, 0x01, 0x00, 0x00, 0x01, 0x00]).is_ok());
    assert_eq!(with(&[0x01, 0x02, 0x01, 0x61]).unwrap_err(), DecodeErr::InvalidType(0x61));
    assert_eq!(with(&[0x03, 0x02, 0x01, 0x00]).unwrap_err(), DecodeErr::FuncAndCodeNotEq(0, 1));
    assert_eq!(with(&[0x0c, 0x01, 0x02]).unwrap_err(), DecodeErr::DataAndDataCountNotEq(0, 2));
    assert_eq!(with(&[0x00, 0x02, 0x01, 0xff]).unwrap_err(), DecodeErr::InvalidUtf8);
}

#[test]
fn a_decoded_module_has_the_magic_number_and_the_version() {
    let module = Module::from_data(sample_module()).unwrap();
    assert_eq!(module.magic, 0x6d73_6100);
    assert_eq!(module.version, 1);
}
