//! What the encoder writes of an expression, the decoder reads back.

use vstd::prelude::*;

use super::decode::body_check;
use super::decode::is_terminator;
use super::decode::spec_block;
use super::decode::spec_block_type;
use super::decode::spec_br_table;
use super::decode::spec_const_expr;
use super::decode::spec_expr;
use super::decode::spec_fd;
use super::decode::spec_fd_table;
use super::decode::spec_if;
use super::decode::spec_instr;
use super::decode::spec_labels;
use super::decode::spec_main;
use super::decode::spec_shuffle;
use super::encode::spec_encode_body;
use super::encode::spec_encode_expr;
use super::encode::spec_encode_instr;
use super::encode::spec_encode_labels;
use super::encode::Encode;
use super::instruction::BlockType;
use super::instruction::InstrView;
use super::instruction::Instruction;
use super::leb128::spec_encode_unsigned;
use super::round_trip::gave;
use super::round_trip::lemma_assoc;
use super::round_trip::lemma_byte_reads_back;
use super::round_trip::lemma_bytes_read_back;
use super::round_trip::lemma_leb_i32_reads_back;
use super::round_trip::lemma_leb_u32_reads_back;
use super::round_trip_code::lemma_plain_reads_back;
use super::round_trip_code::spec_block_type_encodable;
use super::round_trip_code::spec_expr_encodable;
use super::round_trip_code::spec_instr_encodable;
use super::section::DataCountSeg;

verus! {

pub proof fn lemma_block_type_reads_back(v: BlockType, t: Seq<u8>)
    requires
        spec_block_type_encodable(v),
    ensures
        spec_block_type(BlockType::spec_encode(v) + t) == gave(v, t),
{
    lemma_leb_i32_reads_back(v.spec_code(), t);
}

/// The bytes of the labels from place `j` on.
pub open spec fn spec_encode_labels_from(labels: Seq<u32>, j: int) -> Seq<u8>
    decreases labels.len() - j,
{
    if j < 0 || j >= labels.len() {
        Seq::empty()
    } else {
        spec_encode_unsigned(labels[j] as nat) + spec_encode_labels_from(labels, j + 1)
    }
}

/// The bytes of the first `k` labels and of those behind them are the
/// bytes of all of them.
pub proof fn lemma_labels_split(labels: Seq<u32>, k: int)
    requires
        0 <= k <= labels.len(),
    ensures
        spec_encode_labels(labels, k) + spec_encode_labels_from(labels, k) == spec_encode_labels(
            labels,
            labels.len() as int,
        ),
    decreases labels.len() - k,
{
    if k < labels.len() {
        lemma_labels_split(labels, k + 1);
        assert(spec_encode_labels(labels, k) + spec_encode_labels_from(labels, k)
            =~= spec_encode_labels(labels, k + 1) + spec_encode_labels_from(labels, k + 1));
    } else {
        assert(spec_encode_labels(labels, k) + spec_encode_labels_from(labels, k)
            =~= spec_encode_labels(labels, k));
    }
}

pub proof fn lemma_labels_read_back(labels: Seq<u32>, j: int, t: Seq<u8>)
    requires
        0 <= j <= labels.len(),
    ensures
        spec_labels(spec_encode_labels_from(labels, j) + t, (labels.len() - j) as nat) == gave(
            labels.skip(j),
            t,
        ),
    decreases labels.len() - j,
{
    if j < labels.len() {
        let head = spec_encode_unsigned(labels[j] as nat);
        let tail = spec_encode_labels_from(labels, j + 1);
        assert(spec_encode_labels_from(labels, j) + t =~= head + (tail + t));
        lemma_leb_u32_reads_back(labels[j], tail + t);
        lemma_labels_read_back(labels, j + 1, t);
        assert(seq![labels[j]] + labels.skip(j + 1) =~= labels.skip(j));
    } else {
        assert(spec_encode_labels_from(labels, j) + t =~= t);
        assert(labels.skip(j) =~= Seq::<u32>::empty());
    }
}

/// The bytes of the instructions from place `j` on.
pub open spec fn spec_encode_from(e: Seq<InstrView>, j: int) -> Seq<u8>
    decreases e.len() - j,
{
    if j < 0 || j >= e.len() {
        Seq::empty()
    } else {
        spec_encode_instr(e[j]) + spec_encode_from(e, j + 1)
    }
}

/// The bytes of the first `k` instructions and of those behind them are
/// the bytes of all of them.
pub proof fn lemma_body_split(e: Seq<InstrView>, k: int)
    requires
        0 <= k <= e.len(),
    ensures
        spec_encode_body(e, k) + spec_encode_from(e, k) == spec_encode_body(e, e.len() as int),
    decreases e.len() - k,
{
    if k < e.len() {
        lemma_body_split(e, k + 1);
        assert(spec_encode_body(e, k) + spec_encode_from(e, k) =~= spec_encode_body(e, k + 1)
            + spec_encode_from(e, k + 1));
    } else {
        assert(spec_encode_body(e, k) + spec_encode_from(e, k) =~= spec_encode_body(e, k));
    }
}

/// The bytes of an expression are those of its instructions from the
/// first on, then `end`.
pub proof fn lemma_expr_bytes(e: Seq<InstrView>)
    ensures
        spec_encode_expr(e) == spec_encode_from(e, 0) + seq![0x0bu8],
        spec_encode_body(e, e.len() as int) == spec_encode_from(e, 0),
{
    lemma_body_split(e, 0);
    assert(spec_encode_body(e, 0) + spec_encode_from(e, 0) =~= spec_encode_from(e, 0));
    assert(spec_encode_expr(e) =~= spec_encode_from(e, 0) + seq![0x0bu8]);
}

/// The byte that ends a run of instructions, and the instruction it is.
pub open spec fn spec_end_byte(end: bool) -> u8 {
    if end {
        0x0b
    } else {
        0x05
    }
}

pub open spec fn spec_end_instr(end: bool) -> Instruction {
    if end {
        Instruction::End
    } else {
        Instruction::Else
    }
}

/// The byte that ends a run of instructions is read as the instruction
/// that it is.
pub proof fn lemma_end_reads_back(end: bool, dc: DataCountSeg, t: Seq<u8>)
    ensures
        spec_instr(seq![spec_end_byte(end)] + t, dc) == gave(
            InstrView::Plain(spec_end_instr(end)),
            t,
        ),
{
    reveal(spec_main);
    lemma_byte_reads_back(spec_end_byte(end), t);
    if end {
        assert(spec_main(0x0bu8, t) == gave(InstrView::Plain(Instruction::End), t));
    } else {
        assert(spec_main(0x05u8, t) == gave(InstrView::Plain(Instruction::Else), t));
    }
}

/// Behind the opcode of `block` stands a block.
pub proof fn lemma_block_opcode(rest: Seq<u8>, dc: DataCountSeg)
    ensures
        spec_instr(seq![0x02u8] + rest, dc) == match spec_block(rest, dc) {
            Ok(((t, body), r)) => gave(InstrView::Block(t, body), r),
            Err(e) => Err(e),
        },
{
    lemma_byte_reads_back(0x02u8, rest);
}

/// Behind the opcode of `loop` stands a block.
pub proof fn lemma_loop_opcode(rest: Seq<u8>, dc: DataCountSeg)
    ensures
        spec_instr(seq![0x03u8] + rest, dc) == match spec_block(rest, dc) {
            Ok(((t, body), r)) => gave(InstrView::Loop(t, body), r),
            Err(e) => Err(e),
        },
{
    lemma_byte_reads_back(0x03u8, rest);
}

/// Behind the opcode of `if` stand its branches.
pub proof fn lemma_if_opcode(rest: Seq<u8>, dc: DataCountSeg)
    ensures
        spec_instr(seq![0x04u8] + rest, dc) == spec_if(rest, dc),
{
    lemma_byte_reads_back(0x04u8, rest);
}

/// Behind the opcode of `br_table` stands the label table.
pub proof fn lemma_br_table_opcode(rest: Seq<u8>, dc: DataCountSeg)
    ensures
        spec_instr(seq![0x0eu8] + rest, dc) == spec_br_table(rest),
{
    lemma_byte_reads_back(0x0eu8, rest);
}

/// A block type and a body that is read back are read back as a block.
pub proof fn lemma_block_inside(ty: BlockType, body: Seq<InstrView>, dc: DataCountSeg, t: Seq<u8>)
    requires
        spec_block_type_encodable(ty),
        spec_expr(spec_encode_from(body, 0) + seq![0x0bu8] + t, dc) == gave(
            (body, Instruction::End),
            t,
        ),
    ensures
        spec_block(
            BlockType::spec_encode(ty) + (spec_encode_from(body, 0) + seq![0x0bu8] + t),
            dc,
        ) == gave((ty, body), t),
{
    let inner = spec_encode_from(body, 0) + seq![0x0bu8] + t;
    lemma_block_type_reads_back(ty, inner);
}

/// A block whose body is read back is read back.
pub proof fn lemma_block_reads_back(ty: BlockType, body: Seq<InstrView>, dc: DataCountSeg, t: Seq<u8>)
    requires
        spec_block_type_encodable(ty),
        spec_expr(spec_encode_from(body, 0) + seq![0x0bu8] + t, dc) == gave(
            (body, Instruction::End),
            t,
        ),
    ensures
        spec_instr(spec_encode_instr(InstrView::Block(ty, body)) + t, dc) == gave(
            InstrView::Block(ty, body),
            t,
        ),
        spec_encode_instr(InstrView::Block(ty, body)).len() >= 1,
{
    let bt = BlockType::spec_encode(ty);
    let inner = spec_encode_from(body, 0) + seq![0x0bu8] + t;
    lemma_expr_bytes(body);
    assert(spec_encode_instr(InstrView::Block(ty, body)) + t =~= seq![0x02u8] + (bt + inner));
    lemma_block_inside(ty, body, dc, t);
    lemma_block_opcode(bt + inner, dc);
}

/// A loop whose body is read back is read back.
pub proof fn lemma_loop_reads_back(ty: BlockType, body: Seq<InstrView>, dc: DataCountSeg, t: Seq<u8>)
    requires
        spec_block_type_encodable(ty),
        spec_expr(spec_encode_from(body, 0) + seq![0x0bu8] + t, dc) == gave(
            (body, Instruction::End),
            t,
        ),
    ensures
        spec_instr(spec_encode_instr(InstrView::Loop(ty, body)) + t, dc) == gave(
            InstrView::Loop(ty, body),
            t,
        ),
        spec_encode_instr(InstrView::Loop(ty, body)).len() >= 1,
{
    let bt = BlockType::spec_encode(ty);
    let inner = spec_encode_from(body, 0) + seq![0x0bu8] + t;
    lemma_expr_bytes(body);
    assert(spec_encode_instr(InstrView::Loop(ty, body)) + t =~= seq![0x03u8] + (bt + inner));
    lemma_block_inside(ty, body, dc, t);
    lemma_loop_opcode(bt + inner, dc);
}

/// An `if` without a second branch, whose first branch is read back, is
/// read back.
pub proof fn lemma_if_reads_back(ty: BlockType, first: Seq<InstrView>, dc: DataCountSeg, t: Seq<u8>)
    requires
        spec_block_type_encodable(ty),
        spec_expr(spec_encode_from(first, 0) + seq![0x0bu8] + t, dc) == gave(
            (first, Instruction::End),
            t,
        ),
    ensures
        spec_instr(spec_encode_instr(InstrView::If(ty, first, Seq::empty())) + t, dc) == gave(
            InstrView::If(ty, first, Seq::empty()),
            t,
        ),
        spec_encode_instr(InstrView::If(ty, first, Seq::empty())).len() >= 1,
{
    let i = InstrView::If(ty, first, Seq::empty());
    let bt = BlockType::spec_encode(ty);
    let inner = spec_encode_from(first, 0) + seq![0x0bu8] + t;
    lemma_expr_bytes(first);
    assert(spec_encode_instr(i) + t =~= seq![0x04u8] + (bt + inner));
    lemma_if_opcode(bt + inner, dc);
    lemma_block_type_reads_back(ty, inner);
    assert(spec_if(bt + inner, dc) == gave(i, t));
}

/// The branches of an `if` that are read back are read back behind its
/// type.
pub proof fn lemma_if_else_inside(
    ty: BlockType,
    first: Seq<InstrView>,
    second: Seq<InstrView>,
    dc: DataCountSeg,
    rest: Seq<u8>,
    inner: Seq<u8>,
    t: Seq<u8>,
)
    requires
        spec_block_type_encodable(ty),
        spec_expr(inner, dc) == gave((first, Instruction::Else), rest),
        spec_expr(rest, dc) == gave((second, Instruction::End), t),
        rest.len() <= inner.len(),
    ensures
        spec_if(BlockType::spec_encode(ty) + inner, dc) == gave(
            InstrView::If(ty, first, second),
            t,
        ),
{
    lemma_block_type_reads_back(ty, inner);
}

/// The bytes of an `if` with a second branch: the opcode, the type, the
/// first branch, `else`, the second branch, `end`.
pub proof fn lemma_if_else_bytes(
    ty: BlockType,
    first: Seq<InstrView>,
    second: Seq<InstrView>,
    t: Seq<u8>,
)
    requires
        second.len() > 0,
    ensures
        spec_encode_instr(InstrView::If(ty, first, second)) + t == seq![0x04u8] + (
        BlockType::spec_encode(ty) + (spec_encode_from(first, 0) + seq![0x05u8] + (
        spec_encode_from(second, 0) + seq![0x0bu8] + t))),
{
    let bt = BlockType::spec_encode(ty);
    let f = spec_encode_from(first, 0) + seq![0x05u8];
    let s = spec_encode_from(second, 0) + seq![0x0bu8];
    lemma_expr_bytes(first);
    lemma_expr_bytes(second);
    assert(spec_encode_instr(InstrView::If(ty, first, second)) == (seq![0x04u8] + bt) + (f + s));
    lemma_assoc(seq![0x04u8] + bt, f + s, t);
    lemma_assoc(f, s, t);
    lemma_assoc(seq![0x04u8], bt, f + (s + t));
}

/// An `if` with a second branch, whose branches are read back, is read
/// back.
pub proof fn lemma_if_else_reads_back(
    ty: BlockType,
    first: Seq<InstrView>,
    second: Seq<InstrView>,
    dc: DataCountSeg,
    t: Seq<u8>,
)
    requires
        spec_block_type_encodable(ty),
        second.len() > 0,
        spec_expr(
            spec_encode_from(first, 0) + seq![0x05u8] + (spec_encode_from(second, 0)
                + seq![0x0bu8] + t),
            dc,
        ) == gave((first, Instruction::Else), spec_encode_from(second, 0) + seq![0x0bu8] + t),
        spec_expr(spec_encode_from(second, 0) + seq![0x0bu8] + t, dc) == gave(
            (second, Instruction::End),
            t,
        ),
    ensures
        spec_instr(spec_encode_instr(InstrView::If(ty, first, second)) + t, dc) == gave(
            InstrView::If(ty, first, second),
            t,
        ),
        spec_encode_instr(InstrView::If(ty, first, second)).len() >= 1,
{
    let i = InstrView::If(ty, first, second);
    let bt = BlockType::spec_encode(ty);
    let rest = spec_encode_from(second, 0) + seq![0x0bu8] + t;
    let inner = spec_encode_from(first, 0) + seq![0x05u8] + rest;
    lemma_if_else_bytes(ty, first, second, t);
    lemma_if_opcode(bt + inner, dc);
    lemma_if_else_inside(ty, first, second, dc, rest, inner, t);
}

/// A label table is read back.
pub proof fn lemma_labels_table_reads_back(labels: Seq<u32>, default: u32, t: Seq<u8>)
    requires
        labels.len() < 0x1_0000_0000,
    ensures
        spec_br_table(
            spec_encode_unsigned(labels.len()) + (spec_encode_labels_from(labels, 0) + (
            spec_encode_unsigned(default as nat) + t)),
        ) == gave(InstrView::BrTable(labels, default), t),
{
    let ls = spec_encode_labels_from(labels, 0);
    let d = spec_encode_unsigned(default as nat);
    lemma_leb_u32_reads_back(labels.len() as u32, ls + (d + t));
    lemma_labels_read_back(labels, 0, d + t);
    lemma_leb_u32_reads_back(default, t);
    assert(labels.skip(0) =~= labels);
}

pub proof fn lemma_br_table_reads_back(labels: Seq<u32>, default: u32, dc: DataCountSeg, t: Seq<u8>)
    requires
        labels.len() < 0x1_0000_0000,
    ensures
        spec_instr(spec_encode_instr(InstrView::BrTable(labels, default)) + t, dc) == gave(
            InstrView::BrTable(labels, default),
            t,
        ),
        spec_encode_instr(InstrView::BrTable(labels, default)).len() >= 1,
{
    let i = InstrView::BrTable(labels, default);
    let n = spec_encode_unsigned(labels.len());
    let ls = spec_encode_labels_from(labels, 0);
    let d = spec_encode_unsigned(default as nat);
    lemma_labels_split(labels, 0);
    assert(spec_encode_labels(labels, 0) + ls =~= ls);
    assert(spec_encode_instr(i) + t =~= seq![0x0eu8] + (n + (ls + (d + t))));
    lemma_br_table_opcode(n + (ls + (d + t)), dc);
    lemma_labels_table_reads_back(labels, default, t);
}

pub proof fn lemma_shuffle_reads_back(lanes: Seq<u8>, dc: DataCountSeg, t: Seq<u8>)
    requires
        lanes.len() == 16,
    ensures
        spec_instr(spec_encode_instr(InstrView::Shuffle(lanes)) + t, dc) == gave(
            InstrView::Shuffle(lanes),
            t,
        ),
        spec_encode_instr(InstrView::Shuffle(lanes)).len() >= 1,
{
    let i = InstrView::Shuffle(lanes);
    reveal(spec_fd_table);
    assert(spec_encode_instr(i) + t =~= seq![0xfdu8] + (seq![0x0du8] + (lanes + t)));
    lemma_byte_reads_back(0xfdu8, seq![0x0du8] + (lanes + t));
    lemma_byte_reads_back(0x0du8, lanes + t);
    lemma_bytes_read_back(lanes, t);
    assert(spec_shuffle(lanes + t) == gave(i, t));
    assert(spec_fd_table(0x0du8, lanes + t) == gave(i, t));
    assert(spec_fd(seq![0x0du8] + (lanes + t)) == gave(i, t));
}

/// An instruction that can be written is read back; it takes at least one
/// byte, ends no body, and passes the check on the instructions of a body.
pub proof fn lemma_instr_reads_back(i: InstrView, dc: DataCountSeg, t: Seq<u8>)
    requires
        spec_instr_encodable(i, dc),
    ensures
        spec_instr(spec_encode_instr(i) + t, dc) == gave(i, t),
        spec_encode_instr(i).len() >= 1,
        !is_terminator(i),
        body_check(i, dc) is None,
    decreases i, 0nat,
{
    match i {
        InstrView::Block(ty, body) => {
            lemma_expr_reads_back(body, 0, dc, true, t);
            assert(body.skip(0) =~= body);
            lemma_block_reads_back(ty, body, dc, t);
        },
        InstrView::Loop(ty, body) => {
            lemma_expr_reads_back(body, 0, dc, true, t);
            assert(body.skip(0) =~= body);
            lemma_loop_reads_back(ty, body, dc, t);
        },
        InstrView::If(ty, first, second) => {
            assert(first.skip(0) =~= first);
            assert(second.skip(0) =~= second);
            if second.len() == 0 {
                lemma_expr_reads_back(first, 0, dc, true, t);
                assert(second =~= Seq::<InstrView>::empty());
                lemma_if_reads_back(ty, first, dc, t);
            } else {
                let rest = spec_encode_from(second, 0) + seq![0x0bu8] + t;
                lemma_expr_reads_back(first, 0, dc, false, rest);
                lemma_expr_reads_back(second, 0, dc, true, t);
                lemma_if_else_reads_back(ty, first, second, dc, t);
            }
        },
        InstrView::BrTable(labels, default) => {
            lemma_br_table_reads_back(labels, default, dc, t);
        },
        InstrView::Shuffle(lanes) => {
            lemma_shuffle_reads_back(lanes, dc, t);
        },
        InstrView::Plain(p) => {
            lemma_plain_reads_back(p, dc, t);
        },
    }
}

/// The instructions of an expression from place `j` on, behind them the
/// byte that ends them, are read back as those instructions and that end.
pub proof fn lemma_expr_reads_back(
    e: Seq<InstrView>,
    j: int,
    dc: DataCountSeg,
    end: bool,
    t: Seq<u8>,
)
    requires
        spec_expr_encodable(e, dc),
        0 <= j <= e.len(),
    ensures
        spec_expr(spec_encode_from(e, j) + seq![spec_end_byte(end)] + t, dc) == gave(
            (e.skip(j), spec_end_instr(end)),
            t,
        ),
    decreases e, e.len() - j,
{
    let s = spec_encode_from(e, j) + seq![spec_end_byte(end)] + t;
    if j < e.len() {
        let i = e[j];
        let tail = spec_encode_from(e, j + 1) + seq![spec_end_byte(end)] + t;
        assert(s =~= spec_encode_instr(i) + tail);
        lemma_instr_reads_back(i, dc, tail);
        lemma_expr_reads_back(e, j + 1, dc, end, t);
        assert(seq![i] + e.skip(j + 1) =~= e.skip(j));
    } else {
        assert(s =~= seq![spec_end_byte(end)] + t);
        lemma_end_reads_back(end, dc, t);
        assert(e.skip(j) =~= Seq::<InstrView>::empty());
    }
}

/// An expression that can be written is read back.
pub proof fn lemma_const_expr_reads_back(e: Seq<InstrView>, dc: DataCountSeg, t: Seq<u8>)
    requires
        spec_expr_encodable(e, dc),
    ensures
        spec_const_expr(spec_encode_expr(e) + t, dc) == gave(e, t),
{
    lemma_expr_bytes(e);
    lemma_expr_reads_back(e, 0, dc, true, t);
    assert(e.skip(0) =~= e);
}

} // verus!
