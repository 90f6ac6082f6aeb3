//! What the encoder writes of an instruction, the decoder reads back.

use vstd::prelude::*;

use super::decode::spec_fc_table;
use super::decode::spec_fd_table;
use super::decode::spec_instr;
use super::decode::spec_main;
use super::decode::spec_memarg;
use super::decode::spec_val_type;
use super::encode::spec_encode_immediates;
use super::encode::spec_encode_instr;
use super::encode::spec_encode_memarg;
use super::instruction::BlockType;
use super::instruction::InstrView;
use super::instruction::Instruction;
use super::instruction::MemoryArg;
use super::leb128::spec_encode_unsigned;
use super::reader::spec_leb_u32;
use super::reader::spec_u8;
use super::reader::Parsed;
use super::round_trip::gave;
use super::round_trip::lemma_byte_reads_back;
use super::round_trip::lemma_leb_i32_reads_back;
use super::round_trip::lemma_leb_i64_reads_back;
use super::round_trip::lemma_leb_u32_reads_back;
use super::round_trip::lemma_leb_u64_reads_back;
use super::round_trip::lemma_u32_reads_back;
use super::round_trip::lemma_u64_reads_back;
use super::round_trip::lemma_v128_reads_back;
use super::round_trip::lemma_val_type_reads_back;
use super::section::DataCountSeg;
use super::types::ValType;

verus! {

/// Whether an instruction that holds no sequence can stand in a body of a
/// module with the data count `dc`. The instructions that hold a sequence
/// have views of their own; `end` and `else` end a body; the index byte of
/// `memory.size` and `memory.grow` is zero; and `memory.init` and
/// `data.drop` need a data count.
pub open spec fn spec_plain_encodable(p: Instruction, dc: DataCountSeg) -> bool {
    match p {
        Instruction::Block(_) => false,
        Instruction::Loop(_) => false,
        Instruction::If(_) => false,
        Instruction::BrTable(_) => false,
        Instruction::I8x16Shuffle(_) => false,
        Instruction::End => false,
        Instruction::Else => false,
        Instruction::MemorySize(x) => x == 0,
        Instruction::MemoryGrow(x) => x == 0,
        Instruction::MemoryInit(_, _) => dc is Some,
        Instruction::DataDrop(_) => dc is Some,
        _ => true,
    }
}

/// Whether a block type can be written: a type index is not negative.
pub open spec fn spec_block_type_encodable(t: BlockType) -> bool {
    t matches BlockType::TypeIdx(idx) ==> idx >= 0
}

/// Whether an instruction can be written so that it is read back: its
/// parts can, a label table has fewer than two to the power of 32 labels,
/// and a shuffle has sixteen lanes.
pub open spec fn spec_instr_encodable(i: InstrView, dc: DataCountSeg) -> bool
    decreases i,
{
    match i {
        InstrView::Block(t, body) => spec_block_type_encodable(t) && forall|k: int|
            0 <= k < body.len() ==> spec_instr_encodable(#[trigger] body[k], dc),
        InstrView::Loop(t, body) => spec_block_type_encodable(t) && forall|k: int|
            0 <= k < body.len() ==> spec_instr_encodable(#[trigger] body[k], dc),
        InstrView::If(t, first, second) => spec_block_type_encodable(t) && (forall|k: int|
            0 <= k < first.len() ==> spec_instr_encodable(#[trigger] first[k], dc)) && (forall|
            k: int,
        | 0 <= k < second.len() ==> spec_instr_encodable(#[trigger] second[k], dc)),
        InstrView::BrTable(labels, _) => labels.len() < 0x1_0000_0000,
        InstrView::Shuffle(lanes) => lanes.len() == 16,
        InstrView::Plain(p) => spec_plain_encodable(p, dc),
    }
}

/// Whether every instruction of an expression can be written.
pub open spec fn spec_expr_encodable(e: Seq<InstrView>, dc: DataCountSeg) -> bool {
    forall|k: int| 0 <= k < e.len() ==> spec_instr_encodable(#[trigger] e[k], dc)
}

pub proof fn lemma_pair_reads_back(x: u32, y: u32, t: Seq<u8>)
    ensures
        spec_leb_u32(spec_encode_unsigned(x as nat) + spec_encode_unsigned(y as nat) + t) == gave(
            x,
            spec_encode_unsigned(y as nat) + t,
        ),
        spec_leb_u32(spec_encode_unsigned(y as nat) + t) == gave(y, t),
{
    let a = spec_encode_unsigned(x as nat);
    let b = spec_encode_unsigned(y as nat);
    assert(a + b + t =~= a + (b + t));
    lemma_leb_u32_reads_back(x, b + t);
    lemma_leb_u32_reads_back(y, t);
}

pub proof fn lemma_memarg_reads_back(m: MemoryArg, t: Seq<u8>)
    ensures
        spec_memarg(spec_encode_memarg(m) + t) == gave(m, t),
{
    lemma_pair_reads_back(m.align, m.offset, t);
}

pub proof fn lemma_memarg_lane_reads_back(m: MemoryArg, l: u8, t: Seq<u8>)
    ensures
        spec_memarg(spec_encode_memarg(m).push(l) + t) == gave(m, seq![l] + t),
        spec_u8(seq![l] + t) == gave(l, t),
{
    assert(spec_encode_memarg(m).push(l) + t =~= spec_encode_memarg(m) + (seq![l] + t));
    lemma_memarg_reads_back(m, seq![l] + t);
    lemma_byte_reads_back(l, t);
}

pub proof fn lemma_select_reads_back(x: u8, v: ValType, t: Seq<u8>)
    ensures
        spec_u8(seq![x, v.spec_byte()] + t) == gave(x, seq![v.spec_byte()] + t),
        spec_val_type(seq![v.spec_byte()] + t) == gave(v, t),
{
    assert(seq![x, v.spec_byte()] + t =~= seq![x] + (seq![v.spec_byte()] + t));
    lemma_byte_reads_back(x, seq![v.spec_byte()] + t);
    lemma_val_type_reads_back(v, t);
}

/// What the table of an opcode tag gives on the bytes behind the opcode.
pub open spec fn spec_table(tag: u16, s: Seq<u8>) -> Parsed<InstrView> {
    if tag < 0xfc {
        spec_main(tag as u8, s)
    } else if tag <= 0xfc7f {
        spec_fc_table((tag - 0xfc00) as u32, s)
    } else {
        spec_fd_table((tag - 0xfd00) as u8, s)
    }
}

/// Whether a tag is that of an instruction that holds no sequence: one
/// byte that opens no block and is no prefix, or a prefix and a second
/// byte.
pub open spec fn spec_plain_tag(tag: u16) -> bool {
    if tag < 0xfc {
        tag != 0x02 && tag != 0x03 && tag != 0x04 && tag != 0x0e
    } else {
        0xfc00 <= tag <= 0xfc7f || 0xfd00 <= tag <= 0xfdff
    }
}

/// Behind the opcode of an instruction that holds no sequence, reading
/// goes on with the table of that opcode.
pub proof fn lemma_opcode(p: Instruction, t: Seq<u8>, dc: DataCountSeg)
    requires
        spec_plain_tag(p.spec_discriminant()),
    ensures
        spec_instr(spec_encode_instr(InstrView::Plain(p)) + t, dc) == spec_table(
            p.spec_discriminant(),
            spec_encode_immediates(p) + t,
        ),
        spec_encode_instr(InstrView::Plain(p)).len() >= 1,
{
    let tag = p.spec_discriminant();
    let imm = spec_encode_immediates(p);
    let s = spec_encode_instr(InstrView::Plain(p)) + t;
    if tag < 0xfc {
        assert(s =~= seq![tag as u8] + (imm + t));
        lemma_byte_reads_back(tag as u8, imm + t);
    } else {
        let sub = (tag % 0x100) as u8;
        let prefix = (tag / 0x100) as u8;
        assert(s =~= seq![prefix] + (seq![sub] + (imm + t)));
        lemma_byte_reads_back(prefix, seq![sub] + (imm + t));
        if tag <= 0xfc7f {
            lemma_leb_u32_reads_back(sub as u32, imm + t);
            assert(spec_encode_unsigned(sub as nat) =~= seq![sub]);
        } else {
            lemma_byte_reads_back(sub, imm + t);
        }
    }
}

#[verifier::rlimit(60)]
#[verifier::spinoff_prover]
proof fn lemma_plain_0(p: Instruction, dc: DataCountSeg, t: Seq<u8>)
    requires
        spec_plain_encodable(p, dc),
        0x0 <= p.spec_discriminant() <= 0x2a,
    ensures
        spec_plain_tag(p.spec_discriminant()),
        spec_table(p.spec_discriminant(), spec_encode_immediates(p) + t) == gave(
            InstrView::Plain(p),
            t,
        ),
{
    reveal(spec_main);
    assert(Seq::<u8>::empty() + t =~= t);
    match p {
        Instruction::Unreachable => {
        },
        Instruction::Nop => {
        },
        Instruction::Br(x) => {
            lemma_leb_u32_reads_back(x, t);
        },
        Instruction::BrIf(x) => {
            lemma_leb_u32_reads_back(x, t);
        },
        Instruction::Return => {
        },
        Instruction::Call(x) => {
            lemma_leb_u32_reads_back(x, t);
        },
        Instruction::CallIndirect(x, y) => {
            lemma_pair_reads_back(x, y, t);
        },
        Instruction::Drop => {
        },
        Instruction::Select => {
        },
        Instruction::Select2(x, v) => {
            lemma_select_reads_back(x, v, t);
        },
        Instruction::LocalGet(x) => {
            lemma_leb_u32_reads_back(x, t);
        },
        Instruction::LocalSet(x) => {
            lemma_leb_u32_reads_back(x, t);
        },
        Instruction::LocalTee(x) => {
            lemma_leb_u32_reads_back(x, t);
        },
        Instruction::GlobalGet(x) => {
            lemma_leb_u32_reads_back(x, t);
        },
        Instruction::GlobalSet(x) => {
            lemma_leb_u32_reads_back(x, t);
        },
        Instruction::TableGet(x) => {
            lemma_leb_u32_reads_back(x, t);
        },
        Instruction::TableSet(x) => {
            lemma_leb_u32_reads_back(x, t);
        },
        Instruction::I32Load(m) => {
            lemma_memarg_reads_back(m, t);
        },
        Instruction::I64Load(m) => {
            lemma_memarg_reads_back(m, t);
        },
        Instruction::F32Load(m) => {
            lemma_memarg_reads_back(m, t);
        },
        _ => {},
    }
}

#[verifier::rlimit(60)]
#[verifier::spinoff_prover]
proof fn lemma_plain_1(p: Instruction, dc: DataCountSeg, t: Seq<u8>)
    requires
        spec_plain_encodable(p, dc),
        0x2b <= p.spec_discriminant() <= 0x42,
    ensures
        spec_plain_tag(p.spec_discriminant()),
        spec_table(p.spec_discriminant(), spec_encode_immediates(p) + t) == gave(
            InstrView::Plain(p),
            t,
        ),
{
    reveal(spec_main);
    assert(Seq::<u8>::empty() + t =~= t);
    match p {
        Instruction::F64Load(m) => {
            lemma_memarg_reads_back(m, t);
        },
        Instruction::I32Load8S(m) => {
            lemma_memarg_reads_back(m, t);
        },
        Instruction::I32Load8U(m) => {
            lemma_memarg_reads_back(m, t);
        },
        Instruction::I32Load16S(m) => {
            lemma_memarg_reads_back(m, t);
        },
        Instruction::I32Load16U(m) => {
            lemma_memarg_reads_back(m, t);
        },
        Instruction::I64Load8S(m) => {
            lemma_memarg_reads_back(m, t);
        },
        Instruction::I64Load8U(m) => {
            lemma_memarg_reads_back(m, t);
        },
        Instruction::I64Load16S(m) => {
            lemma_memarg_reads_back(m, t);
        },
        Instruction::I64Load16U(m) => {
            lemma_memarg_reads_back(m, t);
        },
        Instruction::I64Load32S(m) => {
            lemma_memarg_reads_back(m, t);
        },
        Instruction::I64Load32U(m) => {
            lemma_memarg_reads_back(m, t);
        },
        Instruction::I32Store(m) => {
            lemma_memarg_reads_back(m, t);
        },
        Instruction::I64Store(m) => {
            lemma_memarg_reads_back(m, t);
        },
        Instruction::F32Store(m) => {
            lemma_memarg_reads_back(m, t);
        },
        Instruction::F64Store(m) => {
            lemma_memarg_reads_back(m, t);
        },
        Instruction::I32Store8(m) => {
            lemma_memarg_reads_back(m, t);
        },
        Instruction::I32Store16(m) => {
            lemma_memarg_reads_back(m, t);
        },
        Instruction::I64Store8(m) => {
            lemma_memarg_reads_back(m, t);
        },
        Instruction::I64Store16(m) => {
            lemma_memarg_reads_back(m, t);
        },
        Instruction::I64Store32(m) => {
            lemma_memarg_reads_back(m, t);
        },
        Instruction::MemorySize(x) => {
            lemma_byte_reads_back(x, t);
        },
        Instruction::MemoryGrow(x) => {
            lemma_byte_reads_back(x, t);
        },
        Instruction::I32Const(x) => {
            lemma_leb_i32_reads_back(x, t);
        },
        Instruction::I64Const(x) => {
            lemma_leb_i64_reads_back(x, t);
        },
        _ => {},
    }
}

#[verifier::rlimit(60)]
#[verifier::spinoff_prover]
proof fn lemma_plain_2(p: Instruction, dc: DataCountSeg, t: Seq<u8>)
    requires
        spec_plain_encodable(p, dc),
        0x43 <= p.spec_discriminant() <= 0x70,
    ensures
        spec_plain_tag(p.spec_discriminant()),
        spec_table(p.spec_discriminant(), spec_encode_immediates(p) + t) == gave(
            InstrView::Plain(p),
            t,
        ),
{
    reveal(spec_main);
    assert(Seq::<u8>::empty() + t =~= t);
    match p {
        Instruction::F32Const(x) => {
            lemma_u32_reads_back(x, t);
        },
        Instruction::F64Const(x) => {
            lemma_u64_reads_back(x, t);
        },
        Instruction::I32Eqz => {
        },
        Instruction::I32Eq => {
        },
        Instruction::I32Ne => {
        },
        Instruction::I32LtS => {
        },
        Instruction::I32LtU => {
        },
        Instruction::I32GtS => {
        },
        Instruction::I32GtU => {
        },
        Instruction::I32LeS => {
        },
        Instruction::I32LeU => {
        },
        Instruction::I32GeS => {
        },
        Instruction::I32GeU => {
        },
        Instruction::I64Eqz => {
        },
        Instruction::I64Eq => {
        },
        Instruction::I64Ne => {
        },
        Instruction::I64LtS => {
        },
        Instruction::I64LtU => {
        },
        Instruction::I64GtS => {
        },
        Instruction::I64GtU => {
        },
        Instruction::I64LeS => {
        },
        Instruction::I64LeU => {
        },
        Instruction::I64GeS => {
        },
        Instruction::I64GeU => {
        },
        Instruction::F32Eq => {
        },
        Instruction::F32Ne => {
        },
        Instruction::F32Lt => {
        },
        Instruction::F32Gt => {
        },
        Instruction::F32Le => {
        },
        Instruction::F32Ge => {
        },
        Instruction::F64Eq => {
        },
        Instruction::F64Ne => {
        },
        Instruction::F64Lt => {
        },
        Instruction::F64Gt => {
        },
        Instruction::F64Le => {
        },
        Instruction::F64Ge => {
        },
        Instruction::I32Clz => {
        },
        Instruction::I32Ctz => {
        },
        Instruction::I32Popcnt => {
        },
        Instruction::I32Add => {
        },
        Instruction::I32Sub => {
        },
        Instruction::I32Mul => {
        },
        Instruction::I32DivS => {
        },
        Instruction::I32DivU => {
        },
        Instruction::I32RemS => {
        },
        Instruction::I32RemU => {
        },
        _ => {},
    }
}

#[verifier::rlimit(60)]
#[verifier::spinoff_prover]
proof fn lemma_plain_3(p: Instruction, dc: DataCountSeg, t: Seq<u8>)
    requires
        spec_plain_encodable(p, dc),
        0x71 <= p.spec_discriminant() <= 0xa0,
    ensures
        spec_plain_tag(p.spec_discriminant()),
        spec_table(p.spec_discriminant(), spec_encode_immediates(p) + t) == gave(
            InstrView::Plain(p),
            t,
        ),
{
    reveal(spec_main);
    assert(Seq::<u8>::empty() + t =~= t);
    match p {
        Instruction::I32And => {
        },
        Instruction::I32Or => {
        },
        Instruction::I32Xor => {
        },
        Instruction::I32Shl => {
        },
        Instruction::I32ShrS => {
        },
        Instruction::I32ShrU => {
        },
        Instruction::I32Rotl => {
        },
        Instruction::I32Rotr => {
        },
        Instruction::I64Clz => {
        },
        Instruction::I64Ctz => {
        },
        Instruction::I64Popcnt => {
        },
        Instruction::I64Add => {
        },
        Instruction::I64Sub => {
        },
        Instruction::I64Mul => {
        },
        Instruction::I64DivS => {
        },
        Instruction::I64DivU => {
        },
        Instruction::I64RemS => {
        },
        Instruction::I64RemU => {
        },
        Instruction::I64And => {
        },
        Instruction::I64Or => {
        },
        Instruction::I64Xor => {
        },
        Instruction::I64Shl => {
        },
        Instruction::I64ShrS => {
        },
        Instruction::I64ShrU => {
        },
        Instruction::I64Rotl => {
        },
        Instruction::I64Rotr => {
        },
        Instruction::F32Abs => {
        },
        Instruction::F32Neg => {
        },
        Instruction::F32Ceil => {
        },
        Instruction::F32Floor => {
        },
        Instruction::F32Trunc => {
        },
        Instruction::F32Nearest => {
        },
        Instruction::F32Sqrt => {
        },
        Instruction::F32Add => {
        },
        Instruction::F32Sub => {
        },
        Instruction::F32Mul => {
        },
        Instruction::F32Div => {
        },
        Instruction::F32Min => {
        },
        Instruction::F32Max => {
        },
        Instruction::F32Copysign => {
        },
        Instruction::F64Abs => {
        },
        Instruction::F64Neg => {
        },
        Instruction::F64Ceil => {
        },
        Instruction::F64Floor => {
        },
        Instruction::F64Trunc => {
        },
        Instruction::F64Nearest => {
        },
        Instruction::F64Sqrt => {
        },
        Instruction::F64Add => {
        },
        _ => {},
    }
}

#[verifier::rlimit(60)]
#[verifier::spinoff_prover]
proof fn lemma_plain_4(p: Instruction, dc: DataCountSeg, t: Seq<u8>)
    requires
        spec_plain_encodable(p, dc),
        0xa1 <= p.spec_discriminant() <= 0xfc06,
    ensures
        spec_plain_tag(p.spec_discriminant()),
        spec_table(p.spec_discriminant(), spec_encode_immediates(p) + t) == gave(
            InstrView::Plain(p),
            t,
        ),
{
    reveal(spec_main);
    reveal(spec_fc_table);
    assert(Seq::<u8>::empty() + t =~= t);
    match p {
        Instruction::F64Sub => {
        },
        Instruction::F64Mul => {
        },
        Instruction::F64Div => {
        },
        Instruction::F64Min => {
        },
        Instruction::F64Max => {
        },
        Instruction::F64Copysign => {
        },
        Instruction::I32WrapI64 => {
        },
        Instruction::I32TruncF32S => {
        },
        Instruction::I32TruncF32U => {
        },
        Instruction::I32TruncF64S => {
        },
        Instruction::I32TruncF64U => {
        },
        Instruction::I64ExtendI32S => {
        },
        Instruction::I64ExtendI32U => {
        },
        Instruction::I64TruncF32S => {
        },
        Instruction::I64TruncF32U => {
        },
        Instruction::I64TruncF64S => {
        },
        Instruction::I64TruncF64U => {
        },
        Instruction::F32ConvertI32S => {
        },
        Instruction::F32ConvertI32U => {
        },
        Instruction::F32ConvertI64S => {
        },
        Instruction::F32ConvertI64U => {
        },
        Instruction::F32DemoteF64 => {
        },
        Instruction::F64ConvertI32S => {
        },
        Instruction::F64ConvertI32U => {
        },
        Instruction::F64ConvertI64S => {
        },
        Instruction::F64ConvertI64U => {
        },
        Instruction::F64PromoteF32 => {
        },
        Instruction::I32ReinterpretF32 => {
        },
        Instruction::I64ReinterpretF64 => {
        },
        Instruction::F32ReinterpretI32 => {
        },
        Instruction::F64ReinterpretI64 => {
        },
        Instruction::I32Extend8S => {
        },
        Instruction::I32Extend16S => {
        },
        Instruction::I64Extend8S => {
        },
        Instruction::I64Extend16S => {
        },
        Instruction::I64Extend32S => {
        },
        Instruction::RefNull(x) => {
            lemma_leb_u64_reads_back(x, t);
        },
        Instruction::RefIsNull => {
        },
        Instruction::RefFunc(x) => {
            lemma_leb_u32_reads_back(x, t);
        },
        Instruction::I32TruncSatF32S => {
        },
        Instruction::I32TruncSatF32U => {
        },
        Instruction::I32TruncSatF64S => {
        },
        Instruction::I32TruncSatF64U => {
        },
        Instruction::I64TruncSatF32S => {
        },
        Instruction::I64TruncSatF32U => {
        },
        Instruction::I64TruncSatF64S => {
        },
        _ => {},
    }
}

#[verifier::rlimit(60)]
#[verifier::spinoff_prover]
proof fn lemma_plain_5(p: Instruction, dc: DataCountSeg, t: Seq<u8>)
    requires
        spec_plain_encodable(p, dc),
        0xfc07 <= p.spec_discriminant() <= 0xfd00,
    ensures
        spec_plain_tag(p.spec_discriminant()),
        spec_table(p.spec_discriminant(), spec_encode_immediates(p) + t) == gave(
            InstrView::Plain(p),
            t,
        ),
{
    reveal(spec_fc_table);
    reveal(spec_fd_table);
    assert(Seq::<u8>::empty() + t =~= t);
    match p {
        Instruction::I64TruncSatF64U => {
        },
        Instruction::MemoryInit(x, y) => {
            lemma_pair_reads_back(x, y, t);
        },
        Instruction::DataDrop(x) => {
            lemma_leb_u32_reads_back(x, t);
        },
        Instruction::MemoryCopy(x, y) => {
            lemma_pair_reads_back(x, y, t);
        },
        Instruction::MemoryFill(x) => {
            lemma_leb_u32_reads_back(x, t);
        },
        Instruction::TableInit(x, y) => {
            lemma_pair_reads_back(x, y, t);
        },
        Instruction::ElemDrop(x) => {
            lemma_leb_u32_reads_back(x, t);
        },
        Instruction::TableCopy(x, y) => {
            lemma_pair_reads_back(x, y, t);
        },
        Instruction::TableGrow(x) => {
            lemma_leb_u32_reads_back(x, t);
        },
        Instruction::TableSize(x) => {
            lemma_leb_u32_reads_back(x, t);
        },
        Instruction::TableFill(x) => {
            lemma_leb_u32_reads_back(x, t);
        },
        Instruction::V128Load(m) => {
            lemma_memarg_reads_back(m, t);
        },
        _ => {},
    }
}

#[verifier::rlimit(60)]
#[verifier::spinoff_prover]
proof fn lemma_plain_6(p: Instruction, dc: DataCountSeg, t: Seq<u8>)
    requires
        spec_plain_encodable(p, dc),
        0xfd01 <= p.spec_discriminant() <= 0xfd1c,
    ensures
        spec_plain_tag(p.spec_discriminant()),
        spec_table(p.spec_discriminant(), spec_encode_immediates(p) + t) == gave(
            InstrView::Plain(p),
            t,
        ),
{
    reveal(spec_fd_table);
    assert(Seq::<u8>::empty() + t =~= t);
    match p {
        Instruction::V128Load8x8S(m) => {
            lemma_memarg_reads_back(m, t);
        },
        Instruction::V128Load8x8U(m) => {
            lemma_memarg_reads_back(m, t);
        },
        Instruction::V128Load16x4S(m) => {
            lemma_memarg_reads_back(m, t);
        },
        Instruction::V128Load16x4U(m) => {
            lemma_memarg_reads_back(m, t);
        },
        Instruction::V128Load32x2S(m) => {
            lemma_memarg_reads_back(m, t);
        },
        Instruction::V128Load32x2U(m) => {
            lemma_memarg_reads_back(m, t);
        },
        Instruction::V128Load8Splat(m) => {
            lemma_memarg_reads_back(m, t);
        },
        Instruction::V128Load16Splat(m) => {
            lemma_memarg_reads_back(m, t);
        },
        Instruction::V128Load32Splat(m) => {
            lemma_memarg_reads_back(m, t);
        },
        Instruction::V128Load64Splat(m) => {
            lemma_memarg_reads_back(m, t);
        },
        Instruction::V128Store(m) => {
            lemma_memarg_reads_back(m, t);
        },
        Instruction::V128Const(x) => {
            lemma_v128_reads_back(x, t);
        },
        Instruction::I8x16Swizzle => {
        },
        Instruction::I8x16Splat => {
        },
        Instruction::I16x8Splat => {
        },
        Instruction::I32x4Splat => {
        },
        Instruction::I64x2Splat => {
        },
        Instruction::F32x4Splat => {
        },
        Instruction::F64x2Splat => {
        },
        Instruction::I8x16ExtractLaneS(x) => {
            lemma_byte_reads_back(x, t);
        },
        Instruction::I8x16ExtractLaneU(x) => {
            lemma_byte_reads_back(x, t);
        },
        Instruction::I8x16ReplaceLane(x) => {
            lemma_byte_reads_back(x, t);
        },
        Instruction::I16x8ExtractLaneS(x) => {
            lemma_byte_reads_back(x, t);
        },
        Instruction::I16x8ExtractLaneU(x) => {
            lemma_byte_reads_back(x, t);
        },
        Instruction::I16x8ReplaceLane(x) => {
            lemma_byte_reads_back(x, t);
        },
        Instruction::I32x4ExtractLane(x) => {
            lemma_byte_reads_back(x, t);
        },
        Instruction::I32x4ReplaceLane(x) => {
            lemma_byte_reads_back(x, t);
        },
        _ => {},
    }
}

#[verifier::rlimit(60)]
#[verifier::spinoff_prover]
proof fn lemma_plain_7(p: Instruction, dc: DataCountSeg, t: Seq<u8>)
    requires
        spec_plain_encodable(p, dc),
        0xfd1d <= p.spec_discriminant() <= 0xfd46,
    ensures
        spec_plain_tag(p.spec_discriminant()),
        spec_table(p.spec_discriminant(), spec_encode_immediates(p) + t) == gave(
            InstrView::Plain(p),
            t,
        ),
{
    reveal(spec_fd_table);
    assert(Seq::<u8>::empty() + t =~= t);
    match p {
        Instruction::I64x2ExtractLane(x) => {
            lemma_byte_reads_back(x, t);
        },
        Instruction::I64x2ReplaceLane(x) => {
            lemma_byte_reads_back(x, t);
        },
        Instruction::F32x4ExtractLane(x) => {
            lemma_byte_reads_back(x, t);
        },
        Instruction::F32x4ReplaceLane(x) => {
            lemma_byte_reads_back(x, t);
        },
        Instruction::F64x2ExtractLane(x) => {
            lemma_byte_reads_back(x, t);
        },
        Instruction::F64x2ReplaceLane(x) => {
            lemma_byte_reads_back(x, t);
        },
        Instruction::I8x16Eq => {
        },
        Instruction::I8x16Ne => {
        },
        Instruction::I8x16LtS => {
        },
        Instruction::I8x16LtU => {
        },
        Instruction::I8x16GtS => {
        },
        Instruction::I8x16GtU => {
        },
        Instruction::I8x16LeS => {
        },
        Instruction::I8x16LeU => {
        },
        Instruction::I8x16GeS => {
        },
        Instruction::I8x16GeU => {
        },
        Instruction::I16x8Eq => {
        },
        Instruction::I16x8Ne => {
        },
        Instruction::I16x8LtS => {
        },
        Instruction::I16x8LtU => {
        },
        Instruction::I16x8GtS => {
        },
        Instruction::I16x8GtU => {
        },
        Instruction::I16x8LeS => {
        },
        Instruction::I16x8LeU => {
        },
        Instruction::I16x8GeS => {
        },
        Instruction::I16x8GeU => {
        },
        Instruction::I32x4Eq => {
        },
        Instruction::I32x4Ne => {
        },
        Instruction::I32x4LtS => {
        },
        Instruction::I32x4LtU => {
        },
        Instruction::I32x4GtS => {
        },
        Instruction::I32x4GtU => {
        },
        Instruction::I32x4LeS => {
        },
        Instruction::I32x4LeU => {
        },
        Instruction::I32x4GeS => {
        },
        Instruction::I32x4GeU => {
        },
        Instruction::F32x4Eq => {
        },
        Instruction::F32x4Ne => {
        },
        Instruction::F32x4Lt => {
        },
        Instruction::F32x4Gt => {
        },
        Instruction::F32x4Le => {
        },
        Instruction::F32x4Ge => {
        },
        _ => {},
    }
}

#[verifier::rlimit(60)]
#[verifier::spinoff_prover]
proof fn lemma_plain_8(p: Instruction, dc: DataCountSeg, t: Seq<u8>)
    requires
        spec_plain_encodable(p, dc),
        0xfd47 <= p.spec_discriminant() <= 0xfd57,
    ensures
        spec_plain_tag(p.spec_discriminant()),
        spec_table(p.spec_discriminant(), spec_encode_immediates(p) + t) == gave(
            InstrView::Plain(p),
            t,
        ),
{
    reveal(spec_fd_table);
    assert(Seq::<u8>::empty() + t =~= t);
    match p {
        Instruction::F64x2Eq => {
        },
        Instruction::F64x2Ne => {
        },
        Instruction::F64x2Lt => {
        },
        Instruction::F64x2Gt => {
        },
        Instruction::F64x2Le => {
        },
        Instruction::F64x2Ge => {
        },
        Instruction::V128Not => {
        },
        Instruction::V128And => {
        },
        Instruction::V128Andnot => {
        },
        Instruction::V128Or => {
        },
        Instruction::V128Xor => {
        },
        Instruction::V128Bitselect => {
        },
        Instruction::V128AnyTrue => {
        },
        Instruction::V128Load8Lane(m, l) => {
            lemma_memarg_lane_reads_back(m, l, t);
        },
        Instruction::V128Load16Lane(m, l) => {
            lemma_memarg_lane_reads_back(m, l, t);
        },
        Instruction::V128Load32Lane(m, l) => {
            lemma_memarg_lane_reads_back(m, l, t);
        },
        Instruction::V128Load64Lane(m, l) => {
            lemma_memarg_lane_reads_back(m, l, t);
        },
        _ => {},
    }
}

#[verifier::rlimit(60)]
#[verifier::spinoff_prover]
proof fn lemma_plain_9(p: Instruction, dc: DataCountSeg, t: Seq<u8>)
    requires
        spec_plain_encodable(p, dc),
        0xfd58 <= p.spec_discriminant() <= 0xfd69,
    ensures
        spec_plain_tag(p.spec_discriminant()),
        spec_table(p.spec_discriminant(), spec_encode_immediates(p) + t) == gave(
            InstrView::Plain(p),
            t,
        ),
{
    reveal(spec_fd_table);
    assert(Seq::<u8>::empty() + t =~= t);
    match p {
        Instruction::V128Store8Lane(m, l) => {
            lemma_memarg_lane_reads_back(m, l, t);
        },
        Instruction::V128Store16Lane(m, l) => {
            lemma_memarg_lane_reads_back(m, l, t);
        },
        Instruction::V128Store32Lane(m, l) => {
            lemma_memarg_lane_reads_back(m, l, t);
        },
        Instruction::V128Store64Lane(m, l) => {
            lemma_memarg_lane_reads_back(m, l, t);
        },
        Instruction::V128Load32Zero(m) => {
            lemma_memarg_reads_back(m, t);
        },
        Instruction::V128Load64Zero(m) => {
            lemma_memarg_reads_back(m, t);
        },
        Instruction::F32x4DemoteF64x2Zero => {
        },
        Instruction::F64x2PromoteLowF32x4 => {
        },
        Instruction::I8x16Abs => {
        },
        Instruction::I8x16Neg => {
        },
        Instruction::I8x16Popcnt => {
        },
        Instruction::I8x16AllTrue => {
        },
        Instruction::I8x16Bitmask => {
        },
        Instruction::I8x16NarrowI16x8S => {
        },
        Instruction::I8x16NarrowI16x8U => {
        },
        Instruction::F32x4Ceil => {
        },
        Instruction::F32x4Floor => {
        },
        Instruction::F32x4Trunc => {
        },
        _ => {},
    }
}

#[verifier::rlimit(60)]
#[verifier::spinoff_prover]
proof fn lemma_plain_10(p: Instruction, dc: DataCountSeg, t: Seq<u8>)
    requires
        spec_plain_encodable(p, dc),
        0xfd6a <= p.spec_discriminant() <= 0xfd8c,
    ensures
        spec_plain_tag(p.spec_discriminant()),
        spec_table(p.spec_discriminant(), spec_encode_immediates(p) + t) == gave(
            InstrView::Plain(p),
            t,
        ),
{
    reveal(spec_fd_table);
    assert(Seq::<u8>::empty() + t =~= t);
    match p {
        Instruction::F32x4Nearest => {
        },
        Instruction::I8x16Shl => {
        },
        Instruction::I8x16ShrS => {
        },
        Instruction::I8x16ShrU => {
        },
        Instruction::I8x16Add => {
        },
        Instruction::I8x16AddSatS => {
        },
        Instruction::I8x16AddSatU => {
        },
        Instruction::I8x16Sub => {
        },
        Instruction::I8x16SubSatS => {
        },
        Instruction::I8x16SubSatU => {
        },
        Instruction::F64x2Ceil => {
        },
        Instruction::F64x2Floor => {
        },
        Instruction::I8x16MinS => {
        },
        Instruction::I8x16MinU => {
        },
        Instruction::I8x16MaxS => {
        },
        Instruction::I8x16MaxU => {
        },
        Instruction::F64x2Trunc => {
        },
        Instruction::I8x16AvgrU => {
        },
        Instruction::I16x8ExtaddPairwiseI8x16S => {
        },
        Instruction::I16x8ExtaddPairwiseI8x16U => {
        },
        Instruction::I32x4ExtaddPairwiseI16x8S => {
        },
        Instruction::I32x4ExtaddPairwiseI16x8U => {
        },
        Instruction::I16x8Abs(x) => {
            lemma_byte_reads_back(x, t);
        },
        Instruction::I16x8Neg(x) => {
            lemma_byte_reads_back(x, t);
        },
        Instruction::I16x8Q15mulrSatS(x) => {
            lemma_byte_reads_back(x, t);
        },
        Instruction::I16x8AllTrue(x) => {
            lemma_byte_reads_back(x, t);
        },
        Instruction::I16x8Bitmask(x) => {
            lemma_byte_reads_back(x, t);
        },
        Instruction::I16x8NarrowI32x4S(x) => {
            lemma_byte_reads_back(x, t);
        },
        Instruction::I16x8NarrowI32x4U(x) => {
            lemma_byte_reads_back(x, t);
        },
        Instruction::I16x8ExtendLowI8x16S(x) => {
            lemma_byte_reads_back(x, t);
        },
        Instruction::I16x8ExtendHighI8x16S(x) => {
            lemma_byte_reads_back(x, t);
        },
        Instruction::I16x8ExtendLowI8x16U(x) => {
            lemma_byte_reads_back(x, t);
        },
        Instruction::I16x8ExtendHighI8x16U(x) => {
            lemma_byte_reads_back(x, t);
        },
        Instruction::I16x8Shl(x) => {
            lemma_byte_reads_back(x, t);
        },
        Instruction::I16x8ShrS(x) => {
            lemma_byte_reads_back(x, t);
        },
        _ => {},
    }
}

#[verifier::rlimit(60)]
#[verifier::spinoff_prover]
proof fn lemma_plain_11(p: Instruction, dc: DataCountSeg, t: Seq<u8>)
    requires
        spec_plain_encodable(p, dc),
        0xfd8d <= p.spec_discriminant() <= 0xfda8,
    ensures
        spec_plain_tag(p.spec_discriminant()),
        spec_table(p.spec_discriminant(), spec_encode_immediates(p) + t) == gave(
            InstrView::Plain(p),
            t,
        ),
{
    reveal(spec_fd_table);
    assert(Seq::<u8>::empty() + t =~= t);
    match p {
        Instruction::I16x8ShrU(x) => {
            lemma_byte_reads_back(x, t);
        },
        Instruction::I16x8Add(x) => {
            lemma_byte_reads_back(x, t);
        },
        Instruction::I16x8AddSatS(x) => {
            lemma_byte_reads_back(x, t);
        },
        Instruction::I16x8AddSatU(x) => {
            lemma_byte_reads_back(x, t);
        },
        Instruction::I16x8Sub(x) => {
            lemma_byte_reads_back(x, t);
        },
        Instruction::I16x8SubSatS(x) => {
            lemma_byte_reads_back(x, t);
        },
        Instruction::I16x8SubSatU(x) => {
            lemma_byte_reads_back(x, t);
        },
        Instruction::F64x2Nearest(x) => {
            lemma_byte_reads_back(x, t);
        },
        Instruction::I16x8Mul(x) => {
            lemma_byte_reads_back(x, t);
        },
        Instruction::I16x8MinS(x) => {
            lemma_byte_reads_back(x, t);
        },
        Instruction::I16x8MinU(x) => {
            lemma_byte_reads_back(x, t);
        },
        Instruction::I16x8MaxS(x) => {
            lemma_byte_reads_back(x, t);
        },
        Instruction::I16x8MaxU(x) => {
            lemma_byte_reads_back(x, t);
        },
        Instruction::I16x8AvgrU(x) => {
            lemma_byte_reads_back(x, t);
        },
        Instruction::I16x8ExtmulLowI8x16S(x) => {
            lemma_byte_reads_back(x, t);
        },
        Instruction::I16x8ExtmulHighI8x16S(x) => {
            lemma_byte_reads_back(x, t);
        },
        Instruction::I16x8ExtmulLowI8x16U(x) => {
            lemma_byte_reads_back(x, t);
        },
        Instruction::I16x8ExtmulHighI8x16U(x) => {
            lemma_byte_reads_back(x, t);
        },
        Instruction::I32x4Abs(x) => {
            lemma_byte_reads_back(x, t);
        },
        Instruction::I32x4Neg(x) => {
            lemma_byte_reads_back(x, t);
        },
        Instruction::I32x4AllTrue(x) => {
            lemma_byte_reads_back(x, t);
        },
        Instruction::I32x4Bitmask(x) => {
            lemma_byte_reads_back(x, t);
        },
        Instruction::I32x4ExtendLowI16x8S(x) => {
            lemma_byte_reads_back(x, t);
        },
        Instruction::I32x4ExtendHighI16x8S(x) => {
            lemma_byte_reads_back(x, t);
        },
        _ => {},
    }
}

#[verifier::rlimit(60)]
#[verifier::spinoff_prover]
proof fn lemma_plain_12(p: Instruction, dc: DataCountSeg, t: Seq<u8>)
    requires
        spec_plain_encodable(p, dc),
        0xfda9 <= p.spec_discriminant() <= 0xfdc9,
    ensures
        spec_plain_tag(p.spec_discriminant()),
        spec_table(p.spec_discriminant(), spec_encode_immediates(p) + t) == gave(
            InstrView::Plain(p),
            t,
        ),
{
    reveal(spec_fd_table);
    assert(Seq::<u8>::empty() + t =~= t);
    match p {
        Instruction::I32x4ExtendLowI16x8U(x) => {
            lemma_byte_reads_back(x, t);
        },
        Instruction::I32x4ExtendHighI16x8U(x) => {
            lemma_byte_reads_back(x, t);
        },
        Instruction::I32x4Shl(x) => {
            lemma_byte_reads_back(x, t);
        },
        Instruction::I32x4ShrS(x) => {
            lemma_byte_reads_back(x, t);
        },
        Instruction::I32x4ShrU(x) => {
            lemma_byte_reads_back(x, t);
        },
        Instruction::I32x4Add(x) => {
            lemma_byte_reads_back(x, t);
        },
        Instruction::I32x4Sub(x) => {
            lemma_byte_reads_back(x, t);
        },
        Instruction::I32x4Mul(x) => {
            lemma_byte_reads_back(x, t);
        },
        Instruction::I32x4MinS(x) => {
            lemma_byte_reads_back(x, t);
        },
        Instruction::I32x4MinU(x) => {
            lemma_byte_reads_back(x, t);
        },
        Instruction::I32x4MaxS(x) => {
            lemma_byte_reads_back(x, t);
        },
        Instruction::I32x4MaxU(x) => {
            lemma_byte_reads_back(x, t);
        },
        Instruction::I32x4DotI16x8S(x) => {
            lemma_byte_reads_back(x, t);
        },
        Instruction::I32x4ExtmulLowI16x8S(x) => {
            lemma_byte_reads_back(x, t);
        },
        Instruction::I32x4ExtmulHighI16x8S(x) => {
            lemma_byte_reads_back(x, t);
        },
        Instruction::I32x4ExtmulLowI16x8U(x) => {
            lemma_byte_reads_back(x, t);
        },
        Instruction::I32x4ExtmulHighI16x8U(x) => {
            lemma_byte_reads_back(x, t);
        },
        Instruction::I64x2Abs(x) => {
            lemma_byte_reads_back(x, t);
        },
        Instruction::I64x2Neg(x) => {
            lemma_byte_reads_back(x, t);
        },
        Instruction::I64x2AllTrue(x) => {
            lemma_byte_reads_back(x, t);
        },
        Instruction::I64x2Bitmask(x) => {
            lemma_byte_reads_back(x, t);
        },
        Instruction::I64x2ExtendLowI32x4S(x) => {
            lemma_byte_reads_back(x, t);
        },
        Instruction::I64x2ExtendHighI32x4S(x) => {
            lemma_byte_reads_back(x, t);
        },
        Instruction::I64x2ExtendLowI32x4U(x) => {
            lemma_byte_reads_back(x, t);
        },
        _ => {},
    }
}

#[verifier::rlimit(60)]
#[verifier::spinoff_prover]
proof fn lemma_plain_13(p: Instruction, dc: DataCountSeg, t: Seq<u8>)
    requires
        spec_plain_encodable(p, dc),
        0xfdca <= p.spec_discriminant() <= 0xfde7,
    ensures
        spec_plain_tag(p.spec_discriminant()),
        spec_table(p.spec_discriminant(), spec_encode_immediates(p) + t) == gave(
            InstrView::Plain(p),
            t,
        ),
{
    reveal(spec_fd_table);
    assert(Seq::<u8>::empty() + t =~= t);
    match p {
        Instruction::I64x2ExtendHighI32x4U(x) => {
            lemma_byte_reads_back(x, t);
        },
        Instruction::I64x2Shl(x) => {
            lemma_byte_reads_back(x, t);
        },
        Instruction::I64x2ShrS(x) => {
            lemma_byte_reads_back(x, t);
        },
        Instruction::I64x2ShrU(x) => {
            lemma_byte_reads_back(x, t);
        },
        Instruction::I64x2Add(x) => {
            lemma_byte_reads_back(x, t);
        },
        Instruction::I64x2Sub(x) => {
            lemma_byte_reads_back(x, t);
        },
        Instruction::I64x2Mul(x) => {
            lemma_byte_reads_back(x, t);
        },
        Instruction::I64x2Eq(x) => {
            lemma_byte_reads_back(x, t);
        },
        Instruction::I64x2Ne(x) => {
            lemma_byte_reads_back(x, t);
        },
        Instruction::I64x2LtS(x) => {
            lemma_byte_reads_back(x, t);
        },
        Instruction::I64x2GtS(x) => {
            lemma_byte_reads_back(x, t);
        },
        Instruction::I64x2LeS(x) => {
            lemma_byte_reads_back(x, t);
        },
        Instruction::I64x2GeS(x) => {
            lemma_byte_reads_back(x, t);
        },
        Instruction::I64x2ExtmulLowI32x4S(x) => {
            lemma_byte_reads_back(x, t);
        },
        Instruction::I64x2ExtmulHighI32x4S(x) => {
            lemma_byte_reads_back(x, t);
        },
        Instruction::I64x2ExtmulLowI32x4U(x) => {
            lemma_byte_reads_back(x, t);
        },
        Instruction::I64x2ExtmulHighI32x4U(x) => {
            lemma_byte_reads_back(x, t);
        },
        Instruction::F32x4Abs(x) => {
            lemma_byte_reads_back(x, t);
        },
        Instruction::F32x4Neg(x) => {
            lemma_byte_reads_back(x, t);
        },
        Instruction::F32x4Sqrt(x) => {
            lemma_byte_reads_back(x, t);
        },
        Instruction::F32x4Add(x) => {
            lemma_byte_reads_back(x, t);
        },
        Instruction::F32x4Sub(x) => {
            lemma_byte_reads_back(x, t);
        },
        Instruction::F32x4Mul(x) => {
            lemma_byte_reads_back(x, t);
        },
        Instruction::F32x4Div(x) => {
            lemma_byte_reads_back(x, t);
        },
        _ => {},
    }
}

#[verifier::rlimit(60)]
#[verifier::spinoff_prover]
proof fn lemma_plain_14(p: Instruction, dc: DataCountSeg, t: Seq<u8>)
    requires
        spec_plain_encodable(p, dc),
        0xfde8 <= p.spec_discriminant() <= 0xfdff,
    ensures
        spec_plain_tag(p.spec_discriminant()),
        spec_table(p.spec_discriminant(), spec_encode_immediates(p) + t) == gave(
            InstrView::Plain(p),
            t,
        ),
{
    reveal(spec_fd_table);
    assert(Seq::<u8>::empty() + t =~= t);
    match p {
        Instruction::F32x4Min(x) => {
            lemma_byte_reads_back(x, t);
        },
        Instruction::F32x4Max(x) => {
            lemma_byte_reads_back(x, t);
        },
        Instruction::F32x4Pmin(x) => {
            lemma_byte_reads_back(x, t);
        },
        Instruction::F32x4Pmax(x) => {
            lemma_byte_reads_back(x, t);
        },
        Instruction::F64x2Abs(x) => {
            lemma_byte_reads_back(x, t);
        },
        Instruction::F64x2Neg(x) => {
            lemma_byte_reads_back(x, t);
        },
        Instruction::F64x2Sqrt(x) => {
            lemma_byte_reads_back(x, t);
        },
        Instruction::F64x2Add(x) => {
            lemma_byte_reads_back(x, t);
        },
        Instruction::F64x2Sub(x) => {
            lemma_byte_reads_back(x, t);
        },
        Instruction::F64x2Mul(x) => {
            lemma_byte_reads_back(x, t);
        },
        Instruction::F64x2Div(x) => {
            lemma_byte_reads_back(x, t);
        },
        Instruction::F64x2Min(x) => {
            lemma_byte_reads_back(x, t);
        },
        Instruction::F64x2Max(x) => {
            lemma_byte_reads_back(x, t);
        },
        Instruction::F64x2Pmin(x) => {
            lemma_byte_reads_back(x, t);
        },
        Instruction::F64x2Pmax(x) => {
            lemma_byte_reads_back(x, t);
        },
        Instruction::I32x4TruncSatF32x4S(x) => {
            lemma_byte_reads_back(x, t);
        },
        Instruction::I32x4TruncSatF32x4U(x) => {
            lemma_byte_reads_back(x, t);
        },
        Instruction::F32x4ConvertI32x4S(x) => {
            lemma_byte_reads_back(x, t);
        },
        Instruction::F32x4ConvertI32x4U(x) => {
            lemma_byte_reads_back(x, t);
        },
        Instruction::I32x4TruncSatF64x2SZero(x) => {
            lemma_byte_reads_back(x, t);
        },
        Instruction::I32x4TruncSatF64x2UZero(x) => {
            lemma_byte_reads_back(x, t);
        },
        Instruction::F64x2ConvertLowI32x4S(x) => {
            lemma_byte_reads_back(x, t);
        },
        Instruction::F64x2ConvertLowI32x4U(x) => {
            lemma_byte_reads_back(x, t);
        },
        _ => {},
    }
}

/// The table of the opcode of an instruction that holds no sequence reads
/// its immediates back.
pub proof fn lemma_table_reads_back(p: Instruction, dc: DataCountSeg, t: Seq<u8>)
    requires
        spec_plain_encodable(p, dc),
    ensures
        spec_plain_tag(p.spec_discriminant()),
        spec_table(p.spec_discriminant(), spec_encode_immediates(p) + t) == gave(
            InstrView::Plain(p),
            t,
        ),
{
    if p.spec_discriminant() <= 0x2a {
        lemma_plain_0(p, dc, t);
    } else if p.spec_discriminant() <= 0x42 {
        lemma_plain_1(p, dc, t);
    } else if p.spec_discriminant() <= 0x70 {
        lemma_plain_2(p, dc, t);
    } else if p.spec_discriminant() <= 0xa0 {
        lemma_plain_3(p, dc, t);
    } else if p.spec_discriminant() <= 0xfc06 {
        lemma_plain_4(p, dc, t);
    } else if p.spec_discriminant() <= 0xfd00 {
        lemma_plain_5(p, dc, t);
    } else if p.spec_discriminant() <= 0xfd1c {
        lemma_plain_6(p, dc, t);
    } else if p.spec_discriminant() <= 0xfd46 {
        lemma_plain_7(p, dc, t);
    } else if p.spec_discriminant() <= 0xfd57 {
        lemma_plain_8(p, dc, t);
    } else if p.spec_discriminant() <= 0xfd69 {
        lemma_plain_9(p, dc, t);
    } else if p.spec_discriminant() <= 0xfd8c {
        lemma_plain_10(p, dc, t);
    } else if p.spec_discriminant() <= 0xfda8 {
        lemma_plain_11(p, dc, t);
    } else if p.spec_discriminant() <= 0xfdc9 {
        lemma_plain_12(p, dc, t);
    } else if p.spec_discriminant() <= 0xfde7 {
        lemma_plain_13(p, dc, t);
    } else {
        lemma_plain_14(p, dc, t);
    }
}

/// An instruction that holds no sequence is read back.
pub proof fn lemma_plain_reads_back(p: Instruction, dc: DataCountSeg, t: Seq<u8>)
    requires
        spec_plain_encodable(p, dc),
    ensures
        spec_instr(spec_encode_instr(InstrView::Plain(p)) + t, dc) == gave(InstrView::Plain(p), t),
        spec_encode_instr(InstrView::Plain(p)).len() >= 1,
{
    lemma_table_reads_back(p, dc, t);
    lemma_opcode(p, t, dc);
}

} // verus!
