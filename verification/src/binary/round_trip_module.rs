//! What the encoder writes of a module, the decoder reads back.
//!
//! A module can be written so that it is read back when its parts agree
//! with each other as the format has them: counts and sizes fit in 32
//! bits, the flag of a segment agrees with what the segment holds, and
//! each code entry has the size that its bytes take.

use vstd::prelude::*;

use super::decode::spec_code;
use super::decode::spec_code_body;
use super::decode::spec_data;
use super::decode::spec_data_mem_idx;
use super::decode::spec_data_offset;
use super::decode::spec_decodes;
use super::decode::spec_element;
use super::decode::spec_element_kind;
use super::decode::spec_element_mode;
use super::decode::spec_element_type;
use super::decode::spec_export;
use super::decode::spec_import;
use super::decode::spec_import_desc;
use super::decode::Decode;
use super::encode::spec_encode_element_mode;
use super::encode::spec_encode_export_desc;
use super::encode::spec_encode_expr;
use super::encode::spec_encode_import_desc;
use super::encode::spec_encode_vec;
use super::encode::Encode;
use super::instruction::InstrView;
use super::leb128::spec_encode_name;
use super::leb128::spec_encode_signed;
use super::leb128::spec_encode_unsigned;
use super::reader::spec_leb_u32;
use super::reader::spec_name;
use super::reader::spec_seqs;
use super::reader::spec_u8;
use super::decode::spec_maybe_u32;
use super::encode::spec_encode_maybeu32_sec;
use super::encode::spec_encode_sec;
use super::errors::DecodeErr;
use super::leb128::lemma_encode_unsigned_len;
use super::leb128::lemma_pow128_values;
use super::module::spec_section;
use super::module::spec_sections;
use super::module::whole;
use super::module::ModuleView;
use super::section::Section;
use super::types::FuncType;
use super::types::FuncTypeView;
use super::decode::spec_custom;
use super::encode::le_bytes32;
use super::encode::spec_encode_custom;
use super::module::empty_module;
use super::module::spec_encode_customs;
use super::module::spec_encode_module;
use super::module::spec_module;
use super::module::spec_validate_decode;
use super::module::MAGIC;
use super::module::VERSION;
use super::round_trip::lemma_func_type_reads_back;
use super::round_trip::lemma_limits_item_reads_back;
use super::round_trip::lemma_table_type_item_reads_back;
use super::round_trip::lemma_u32_reads_back;
use super::section::CustomSegView;
use super::round_trip::gave;
use super::round_trip::lemma_assoc;
use super::round_trip::lemma_byte_reads_back;
use super::round_trip::lemma_bytes_read_back;
use super::round_trip::lemma_global_type_reads_back;
use super::round_trip::lemma_leb_i32_reads_back;
use super::round_trip::lemma_leb_u32_reads_back;
use super::round_trip::lemma_limits_read_back;
use super::round_trip::lemma_name_reads_back;
use super::round_trip::lemma_seqs_read_back;
use super::round_trip::lemma_table_type_reads_back;
use super::round_trip::lemma_u32_item_reads_back;
use super::round_trip::lemma_val_type_reads_back;
use super::round_trip::lemma_vec_reads_back;
use super::round_trip::reads_back;
use super::round_trip_code::spec_expr_encodable;
use super::round_trip_expr::lemma_const_expr_reads_back;
use super::section::locals_total;
use super::section::CodeSeg;
use super::section::CodeSegView;
use super::section::DataCountSeg;
use super::section::DataMode;
use super::section::DataSeg;
use super::section::DataSegView;
use super::section::ElementModeView;
use super::section::ElementSeg;
use super::section::ElementSegView;
use super::section::ExportDesc;
use super::section::ExportSeg;
use super::section::ExportSegView;
use super::section::Expr;
use super::section::GlobalSeg;
use super::section::GlobalSegView;
use super::section::ImportDesc;
use super::section::ImportSeg;
use super::section::ImportSegView;
use super::section::Locals;
use super::types::GlobalType;
use super::types::Limits;
use super::types::TableType;
use super::types::ValType;

verus! {

/// Whether a name takes fewer than two to the power of 32 bytes.
pub open spec fn spec_name_encodable(name: Seq<char>) -> bool {
    vstd::utf8::encode_utf8(name).len() < 0x1_0000_0000
}

pub proof fn lemma_expr_item_reads_back(e: Seq<InstrView>, dc: DataCountSeg)
    requires
        spec_expr_encodable(e, dc),
    ensures
        reads_back::<Expr>(e, dc),
{
    assert forall|t: Seq<u8>| #[trigger]
        Expr::spec_decode(Expr::spec_encode(e) + t, dc) == gave::<Seq<InstrView>>(e, t) by {
        lemma_const_expr_reads_back(e, dc, t);
    }
}

pub proof fn lemma_global_reads_back(v: GlobalSegView, dc: DataCountSeg)
    requires
        spec_expr_encodable(v.init_expr, dc),
    ensures
        reads_back::<GlobalSeg>(v, dc),
{
    assert forall|t: Seq<u8>| #[trigger]
        GlobalSeg::spec_decode(GlobalSeg::spec_encode(v) + t, dc) == gave::<GlobalSegView>(
            v,
            t,
        ) by {
        let e = spec_encode_expr(v.init_expr);
        assert(GlobalSeg::spec_encode(v) + t =~= GlobalType::spec_encode(v.type_) + (e + t));
        lemma_global_type_reads_back(v.type_, e + t);
        lemma_const_expr_reads_back(v.init_expr, dc, t);
    }
}

pub proof fn lemma_import_desc_reads_back(desc: ImportDesc, t: Seq<u8>)
    ensures
        spec_encode_import_desc(desc).len() >= 1,
        spec_import_desc(
            spec_encode_import_desc(desc)[0],
            spec_encode_import_desc(desc).skip(1) + t,
        ) == gave(desc, t),
{
    let e = spec_encode_import_desc(desc);
    match desc {
        ImportDesc::Func(idx) => {
            assert(e.skip(1) =~= spec_encode_unsigned(idx as nat));
            lemma_leb_u32_reads_back(idx, t);
        },
        ImportDesc::Table(ty) => {
            assert(e.skip(1) =~= TableType::spec_encode(ty));
            lemma_table_type_reads_back(ty, t);
        },
        ImportDesc::Mem(ty) => {
            assert(e.skip(1) =~= Limits::spec_encode(ty));
            lemma_limits_read_back(ty, t);
        },
        ImportDesc::Global(ty) => {
            assert(e.skip(1) =~= GlobalType::spec_encode(ty));
            lemma_global_type_reads_back(ty, t);
        },
    }
}

/// An import is two names, a kind byte and what the kind asks for.
pub proof fn lemma_import_frame(
    s: Seq<u8>,
    v: ImportSegView,
    r1: Seq<u8>,
    r2: Seq<u8>,
    kind: u8,
    r3: Seq<u8>,
    t: Seq<u8>,
)
    requires
        spec_name(s) == gave(v.module, r1),
        spec_name(r1) == gave(v.name, r2),
        spec_u8(r2) == gave(kind, r3),
        spec_import_desc(kind, r3) == gave(v.desc, t),
    ensures
        spec_import(s) == gave(v, t),
{
}

pub proof fn lemma_import_read_back(v: ImportSegView, t: Seq<u8>)
    requires
        spec_name_encodable(v.module),
        spec_name_encodable(v.name),
    ensures
        spec_import(ImportSeg::spec_encode(v) + t) == gave(v, t),
{
    let a = spec_encode_name(v.module);
    let b = spec_encode_name(v.name);
    let d = spec_encode_import_desc(v.desc);
    lemma_import_desc_reads_back(v.desc, t);
    let r3 = d.skip(1) + t;
    let r2 = seq![d[0]] + r3;
    let r1 = b + r2;
    assert(d =~= seq![d[0]] + d.skip(1));
    assert(ImportSeg::spec_encode(v) + t =~= a + r1);
    lemma_name_reads_back(v.module, r1);
    lemma_name_reads_back(v.name, r2);
    lemma_byte_reads_back(d[0], r3);
    lemma_import_frame(a + r1, v, r1, r2, d[0], r3, t);
}

pub proof fn lemma_import_reads_back(v: ImportSegView, dc: DataCountSeg)
    requires
        spec_name_encodable(v.module),
        spec_name_encodable(v.name),
    ensures
        reads_back::<ImportSeg>(v, dc),
{
    assert forall|t: Seq<u8>| #[trigger]
        ImportSeg::spec_decode(ImportSeg::spec_encode(v) + t, dc) == gave::<ImportSegView>(
            v,
            t,
        ) by {
        lemma_import_read_back(v, t);
    }
}

pub proof fn lemma_export_reads_back(v: ExportSegView, dc: DataCountSeg)
    requires
        spec_name_encodable(v.name),
    ensures
        reads_back::<ExportSeg>(v, dc),
{
    assert forall|t: Seq<u8>| #[trigger]
        ExportSeg::spec_decode(ExportSeg::spec_encode(v) + t, dc) == gave::<ExportSegView>(
            v,
            t,
        ) by {
        let a = spec_encode_name(v.name);
        let (kind, idx) = match v.desc {
            ExportDesc::Func(idx) => (0x00u8, idx),
            ExportDesc::Table(idx) => (0x01u8, idx),
            ExportDesc::Mem(idx) => (0x02u8, idx),
            ExportDesc::Global(idx) => (0x03u8, idx),
        };
        let e = spec_encode_unsigned(idx as nat);
        assert(spec_encode_export_desc(v.desc) =~= seq![kind] + e);
        assert(ExportSeg::spec_encode(v) + t =~= a + (seq![kind] + (e + t)));
        lemma_name_reads_back(v.name, seq![kind] + (e + t));
        lemma_byte_reads_back(kind, e + t);
        lemma_leb_u32_reads_back(idx, t);
        assert(spec_export(a + (seq![kind] + (e + t))) == gave(v, t));
    }
}

pub proof fn lemma_locals_read_back(v: Locals, dc: DataCountSeg)
    ensures
        reads_back::<Locals>(v, dc),
{
    assert forall|t: Seq<u8>| #[trigger]
        Locals::spec_decode(Locals::spec_encode(v) + t, dc) == gave::<Locals>(v, t) by {
        let n = spec_encode_unsigned(v.n as nat);
        let b = seq![v.value_type.spec_byte()];
        assert(Locals::spec_encode(v) + t =~= n + (b + t));
        lemma_leb_u32_reads_back(v.n, b + t);
        lemma_val_type_reads_back(v.value_type, t);
    }
}

/// The bytes of a code entry behind its size: the locals, then the body.
pub open spec fn spec_code_inside(v: CodeSegView) -> Seq<u8> {
    spec_encode_vec::<Locals>(v.locals, false) + spec_encode_expr(v.body)
}

/// Whether a code entry can be written so that it is read back: its size
/// is the number of bytes that its locals and body take, it has fewer than
/// two to the power of 32 runs of locals and fewer than two to the power
/// of 28 locals, and its body can be written.
pub open spec fn spec_code_encodable(v: CodeSegView, dc: DataCountSeg) -> bool {
    &&& v.size == spec_code_inside(v).len()
    &&& v.locals.len() < 0x1_0000_0000
    &&& locals_total(v.locals, v.locals.len() as int) < 0x1000_0000
    &&& spec_expr_encodable(v.body, dc)
}

pub proof fn lemma_code_reads_back(v: CodeSegView, dc: DataCountSeg)
    requires
        spec_code_encodable(v, dc),
    ensures
        reads_back::<CodeSeg>(v, dc),
{
    let inside = spec_code_inside(v);
    let e = spec_encode_expr(v.body);
    assert forall|k: int| 0 <= k < v.locals.len() implies reads_back::<Locals>(
        #[trigger] v.locals[k],
        dc,
    ) by {
        lemma_locals_read_back(v.locals[k], dc);
    }
    lemma_vec_reads_back::<Locals>(v.locals, dc, e);
    lemma_const_expr_reads_back(v.body, dc, Seq::empty());
    assert(e + Seq::<u8>::empty() =~= e);
    assert(spec_code_body(inside, dc) == gave((v.locals, v.body), Seq::<u8>::empty()));
    assert forall|t: Seq<u8>| #[trigger]
        CodeSeg::spec_decode(CodeSeg::spec_encode(v) + t, dc) == gave::<CodeSegView>(v, t) by {
        let n = spec_encode_unsigned(inside.len());
        assert(CodeSeg::spec_encode(v) + t =~= n + (inside + t));
        lemma_leb_u32_reads_back(v.size, inside + t);
        lemma_bytes_read_back(inside, t);
        assert(spec_code(n + (inside + t), dc) == gave(v, t));
    }
}

/// Whether a data segment can be written so that it is read back: the
/// flag is 0, 1 or 2, and the segment holds what the flag says. With
/// flag 1 it is passive and has no offset; else it is active and its
/// offset can be written. Only with flag 2 is there a memory index.
pub open spec fn spec_data_encodable(v: DataSegView, dc: DataCountSeg) -> bool {
    &&& v.flag <= 2
    &&& v.init.len() < 0x1_0000_0000
    &&& v.flag != 2 ==> v.mem_idx == 0
    &&& if v.flag == 1 {
        v.mode == DataMode::Passive && v.offset_expr == Seq::<InstrView>::empty()
    } else {
        v.mode == DataMode::Active && spec_expr_encodable(v.offset_expr, dc)
    }
}

/// A data segment is a flag, a memory index, an offset and bytes.
pub proof fn lemma_data_frame(
    s: Seq<u8>,
    v: DataSegView,
    dc: DataCountSeg,
    r1: Seq<u8>,
    r2: Seq<u8>,
    r3: Seq<u8>,
    t: Seq<u8>,
)
    requires
        v.flag <= 2,
        v.mode == if v.flag == 1 {
            DataMode::Passive
        } else {
            DataMode::Active
        },
        spec_leb_u32(s) == gave(v.flag, r1),
        spec_data_mem_idx(v.flag, r1) == gave(v.mem_idx, r2),
        spec_data_offset(v.flag, r2, dc) == gave(v.offset_expr, r3),
        spec_seqs(r3) == gave(v.init, t),
    ensures
        spec_data(s, dc) == gave(v, t),
{
}

/// The bytes of the memory index of a data segment, written behind
/// flag 2.
pub open spec fn spec_data_mem_bytes(v: DataSegView) -> Seq<u8> {
    if v.flag == 2 {
        spec_encode_unsigned(v.mem_idx as nat)
    } else {
        Seq::empty()
    }
}

/// The bytes of the offset of a data segment, written for an active one.
pub open spec fn spec_data_offset_bytes(v: DataSegView) -> Seq<u8> {
    if v.mode == DataMode::Active {
        spec_encode_expr(v.offset_expr)
    } else {
        Seq::empty()
    }
}

pub proof fn lemma_data_bytes(v: DataSegView, t: Seq<u8>)
    ensures
        DataSeg::spec_encode(v) + t == spec_encode_unsigned(v.flag as nat) + (spec_data_mem_bytes(v)
            + (spec_data_offset_bytes(v) + (spec_encode_unsigned(v.init.len()) + v.init + t))),
{
    let f = spec_encode_unsigned(v.flag as nat);
    let m = spec_data_mem_bytes(v);
    let o = spec_data_offset_bytes(v);
    let n = spec_encode_unsigned(v.init.len());
    assert(DataSeg::spec_encode(v) == (((f + m) + o) + n) + v.init);
    lemma_assoc(((f + m) + o) + n, v.init, t);
    lemma_assoc((f + m) + o, n, v.init + t);
    lemma_assoc(f + m, o, n + (v.init + t));
    lemma_assoc(f, m, o + (n + (v.init + t)));
    lemma_assoc(n, v.init, t);
}

pub proof fn lemma_data_mem_reads_back(v: DataSegView, t: Seq<u8>)
    requires
        v.flag != 2 ==> v.mem_idx == 0,
    ensures
        spec_data_mem_idx(v.flag, spec_data_mem_bytes(v) + t) == gave(v.mem_idx, t),
{
    if v.flag == 2 {
        lemma_leb_u32_reads_back(v.mem_idx, t);
    } else {
        assert(spec_data_mem_bytes(v) + t =~= t);
    }
}

pub proof fn lemma_data_offset_reads_back(v: DataSegView, dc: DataCountSeg, t: Seq<u8>)
    requires
        spec_data_encodable(v, dc),
    ensures
        spec_data_offset(v.flag, spec_data_offset_bytes(v) + t, dc) == gave(v.offset_expr, t),
{
    if v.flag == 1 {
        assert(spec_data_offset_bytes(v) + t =~= t);
    } else {
        lemma_const_expr_reads_back(v.offset_expr, dc, t);
    }
}

pub proof fn lemma_data_read_back(v: DataSegView, dc: DataCountSeg, t: Seq<u8>)
    requires
        spec_data_encodable(v, dc),
    ensures
        spec_data(DataSeg::spec_encode(v) + t, dc) == gave(v, t),
{
    let f = spec_encode_unsigned(v.flag as nat);
    let r3 = spec_encode_unsigned(v.init.len()) + v.init + t;
    let r2 = spec_data_offset_bytes(v) + r3;
    let r1 = spec_data_mem_bytes(v) + r2;
    lemma_data_bytes(v, t);
    lemma_leb_u32_reads_back(v.flag, r1);
    lemma_data_mem_reads_back(v, r2);
    lemma_data_offset_reads_back(v, dc, r3);
    lemma_seqs_read_back(v.init, t);
    lemma_data_frame(f + r1, v, dc, r1, r2, r3, t);
}

pub proof fn lemma_data_reads_back(v: DataSegView, dc: DataCountSeg)
    requires
        spec_data_encodable(v, dc),
    ensures
        reads_back::<DataSeg>(v, dc),
{
    assert forall|t: Seq<u8>| #[trigger]
        DataSeg::spec_decode(DataSeg::spec_encode(v) + t, dc) == gave::<DataSegView>(v, t) by {
        lemma_data_read_back(v, dc, t);
    }
}

/// Whether an element segment can be written so that it is read back:
/// the flag is at most 7, and the segment holds what the flag says. Bit 0
/// of the flag tells a passive or declarative segment from an active one,
/// bit 1 whether a table index (active) is written or whether the segment
/// is declarative, and bit 2 whether the elements are expressions or
/// function indices.
pub open spec fn spec_element_encodable(v: ElementSegView, dc: DataCountSeg) -> bool {
    &&& v.flag <= 7
    &&& v.type_.spec_is_ref_type()
    &&& v.flag <= 4 ==> v.type_ == ValType::FuncRef
    &&& !(1 <= v.flag <= 3) ==> v.elem_kind == 0
    &&& if v.flag == 0 || v.flag == 4 || v.flag == 2 || v.flag == 6 {
        v.mode matches ElementModeView::Active { table_idx, offset_expr } && spec_expr_encodable(
            offset_expr,
            dc,
        ) && (v.flag == 0 || v.flag == 4 ==> table_idx == 0)
    } else if v.flag == 1 || v.flag == 5 {
        v.mode == ElementModeView::Passive
    } else {
        v.mode == ElementModeView::Declarative
    }
    &&& if v.flag <= 3 {
        v.init_expr == Seq::<Seq<InstrView>>::empty() && v.func_idxs.len() < 0x1_0000_0000
    } else {
        v.func_idxs == Seq::<u32>::empty() && v.init_expr.len() < 0x1_0000_0000 && forall|
            k: int,
        | 0 <= k < v.init_expr.len() ==> spec_expr_encodable(#[trigger] v.init_expr[k], dc)
    }
}

pub proof fn lemma_element_mode_reads_back(v: ElementSegView, dc: DataCountSeg, t: Seq<u8>)
    requires
        spec_element_encodable(v, dc),
    ensures
        spec_element_mode(v.flag, spec_encode_element_mode(v.flag, v.mode) + t, dc) == gave(
            v.mode,
            t,
        ),
{
    let e = spec_encode_element_mode(v.flag, v.mode);
    match v.mode {
        ElementModeView::Active { table_idx, offset_expr } => {
            if v.flag == 0 || v.flag == 4 {
                lemma_const_expr_reads_back(offset_expr, dc, t);
            } else {
                let o = spec_encode_expr(offset_expr);
                assert(e + t =~= spec_encode_unsigned(table_idx as nat) + (o + t));
                lemma_leb_u32_reads_back(table_idx, o + t);
                lemma_const_expr_reads_back(offset_expr, dc, t);
            }
        },
        _ => {
            assert(e + t =~= t);
        },
    }
}

/// An element segment is a flag, a mode, a type, a kind and elements.
pub proof fn lemma_element_frame(
    s: Seq<u8>,
    v: ElementSegView,
    dc: DataCountSeg,
    r1: Seq<u8>,
    r2: Seq<u8>,
    r3: Seq<u8>,
    r4: Seq<u8>,
    t: Seq<u8>,
)
    requires
        v.flag <= 7,
        v.type_.spec_is_ref_type(),
        spec_leb_u32(s) == gave(v.flag, r1),
        spec_element_mode(v.flag, r1, dc) == gave(v.mode, r2),
        spec_element_type(v.flag, r2) == gave(v.type_, r3),
        spec_element_kind(v.flag, r3) == gave(v.elem_kind, r4),
        v.flag <= 3 ==> spec_decodes::<u32>(r4, dc) == gave(v.func_idxs, t) && v.init_expr
            == Seq::<Seq<InstrView>>::empty(),
        v.flag > 3 ==> spec_decodes::<Expr>(r4, dc) == gave(v.init_expr, t) && v.func_idxs
            == Seq::<u32>::empty(),
    ensures
        spec_element(s, dc) == gave(v, t),
{
}

/// The elements of an element segment are read back.
pub proof fn lemma_element_items_read_back(v: ElementSegView, dc: DataCountSeg, t: Seq<u8>)
    requires
        spec_element_encodable(v, dc),
    ensures
        v.flag <= 3 ==> spec_decodes::<u32>(spec_encode_vec::<u32>(v.func_idxs, false) + t, dc)
            == gave(v.func_idxs, t),
        v.flag > 3 ==> spec_decodes::<Expr>(spec_encode_vec::<Expr>(v.init_expr, false) + t, dc)
            == gave(v.init_expr, t),
{
    if v.flag <= 3 {
        assert forall|k: int| 0 <= k < v.func_idxs.len() implies reads_back::<u32>(
            #[trigger] v.func_idxs[k],
            dc,
        ) by {
            lemma_u32_item_reads_back(v.func_idxs[k], dc);
        }
        lemma_vec_reads_back::<u32>(v.func_idxs, dc, t);
    } else {
        assert forall|k: int| 0 <= k < v.init_expr.len() implies reads_back::<Expr>(
            #[trigger] v.init_expr[k],
            dc,
        ) by {
            lemma_expr_item_reads_back(v.init_expr[k], dc);
        }
        lemma_vec_reads_back::<Expr>(v.init_expr, dc, t);
    }
}

/// The byte of the type of an element segment, written behind the flags
/// above 4.
pub open spec fn spec_element_type_bytes(v: ElementSegView) -> Seq<u8> {
    if v.flag <= 4 {
        Seq::empty()
    } else {
        seq![v.type_.spec_byte()]
    }
}

/// The bytes of the kind of an element segment, written behind the flags
/// 1 to 3.
pub open spec fn spec_element_kind_bytes(v: ElementSegView) -> Seq<u8> {
    if 1 <= v.flag <= 3 {
        spec_encode_signed(v.elem_kind as int)
    } else {
        Seq::empty()
    }
}

/// The bytes of the elements of an element segment.
pub open spec fn spec_element_items_bytes(v: ElementSegView) -> Seq<u8> {
    if v.flag <= 3 {
        spec_encode_vec::<u32>(v.func_idxs, false)
    } else {
        spec_encode_vec::<Expr>(v.init_expr, false)
    }
}

pub proof fn lemma_element_bytes(v: ElementSegView, t: Seq<u8>)
    ensures
        ElementSeg::spec_encode(v) + t == spec_encode_unsigned(v.flag as nat) + (
        spec_encode_element_mode(v.flag, v.mode) + (spec_element_type_bytes(v) + (
        spec_element_kind_bytes(v) + (spec_element_items_bytes(v) + t)))),
{
    let f = spec_encode_unsigned(v.flag as nat);
    let m = spec_encode_element_mode(v.flag, v.mode);
    let ty = spec_element_type_bytes(v);
    let kind = spec_element_kind_bytes(v);
    let items = spec_element_items_bytes(v);
    assert(ElementSeg::spec_encode(v) == (((f + m) + ty) + kind) + items);
    lemma_assoc(((f + m) + ty) + kind, items, t);
    lemma_assoc((f + m) + ty, kind, items + t);
    lemma_assoc(f + m, ty, kind + (items + t));
    lemma_assoc(f, m, ty + (kind + (items + t)));
}

pub proof fn lemma_element_type_reads_back(v: ElementSegView, t: Seq<u8>)
    requires
        v.flag <= 4 ==> v.type_ == ValType::FuncRef,
    ensures
        spec_element_type(v.flag, spec_element_type_bytes(v) + t) == gave(v.type_, t),
{
    if v.flag <= 4 {
        assert(spec_element_type_bytes(v) + t =~= t);
    } else {
        lemma_val_type_reads_back(v.type_, t);
    }
}

pub proof fn lemma_element_kind_reads_back(v: ElementSegView, t: Seq<u8>)
    requires
        !(1 <= v.flag <= 3) ==> v.elem_kind == 0,
    ensures
        spec_element_kind(v.flag, spec_element_kind_bytes(v) + t) == gave(v.elem_kind, t),
{
    if 1 <= v.flag <= 3 {
        lemma_leb_i32_reads_back(v.elem_kind, t);
    } else {
        assert(spec_element_kind_bytes(v) + t =~= t);
    }
}

pub proof fn lemma_element_read_back(v: ElementSegView, dc: DataCountSeg, t: Seq<u8>)
    requires
        spec_element_encodable(v, dc),
    ensures
        spec_element(ElementSeg::spec_encode(v) + t, dc) == gave(v, t),
{
    let f = spec_encode_unsigned(v.flag as nat);
    let r4 = spec_element_items_bytes(v) + t;
    let r3 = spec_element_kind_bytes(v) + r4;
    let r2 = spec_element_type_bytes(v) + r3;
    let r1 = spec_encode_element_mode(v.flag, v.mode) + r2;
    lemma_element_bytes(v, t);
    lemma_leb_u32_reads_back(v.flag, r1);
    lemma_element_mode_reads_back(v, dc, r2);
    lemma_element_type_reads_back(v, r3);
    lemma_element_kind_reads_back(v, r4);
    lemma_element_items_read_back(v, dc, t);
    lemma_element_frame(f + r1, v, dc, r1, r2, r3, r4, t);
}

pub proof fn lemma_element_reads_back(v: ElementSegView, dc: DataCountSeg)
    requires
        spec_element_encodable(v, dc),
    ensures
        reads_back::<ElementSeg>(v, dc),
{
    assert forall|t: Seq<u8>| #[trigger]
        ElementSeg::spec_decode(ElementSeg::spec_encode(v) + t, dc) == gave::<ElementSegView>(
            v,
            t,
        ) by {
        lemma_element_read_back(v, dc, t);
    }
}

/// The place of a section in the order in which the sections are written.
pub open spec fn spec_rank(id: Section) -> int {
    match id {
        Section::Type => 1,
        Section::Import => 2,
        Section::Function => 3,
        Section::Table => 4,
        Section::Memory => 5,
        Section::Global => 6,
        Section::Export => 7,
        Section::Start => 8,
        Section::Element => 9,
        Section::DataCount => 10,
        Section::Code => 11,
        Section::Data => 12,
        Section::Custom => 13,
    }
}

/// Whether every section that was read has a place up to `rank`.
pub open spec fn seen_up_to(seen: Set<Section>, rank: int) -> bool {
    forall|x: Section| seen.contains(x) ==> spec_rank(x) <= rank
}

/// Whether a vector can be written as a section so that it is read back:
/// it has fewer than two to the power of 32 values, each of which is read
/// back, and takes fewer than two to the power of 32 bytes.
pub open spec fn spec_vec_encodable<T: Decode + Encode>(items: Seq<T::V>, dc: DataCountSeg) -> bool {
    &&& items.len() < 0x1_0000_0000
    &&& spec_encode_vec::<T>(items, false).len() < 0x1_0000_0000
    &&& forall|k: int| 0 <= k < items.len() ==> reads_back::<T>(#[trigger] items[k], dc)
}

/// A section, written as its id, the length of its body and the body, is
/// read into the module.
pub proof fn lemma_section_read(
    id: Section,
    body: Seq<u8>,
    rest: Seq<u8>,
    cur: ModuleView,
    seen: Set<Section>,
)
    requires
        body.len() < 0x1_0000_0000,
        id != Section::Custom ==> !seen.contains(id),
    ensures
        spec_sections(
            seq![id.spec_id()] + (spec_encode_unsigned(body.len()) + (body + rest)),
            cur,
            seen,
        ) == match spec_section(id, body, cur) {
            Err(e) => Err(e),
            Ok(next) => spec_sections(rest, next, seen.insert(id)),
        },
{
    let n = spec_encode_unsigned(body.len());
    let s = seq![id.spec_id()] + (n + (body + rest));
    assert(s.skip(1) =~= n + body + rest);
    lemma_seqs_read_back(body, rest);
    assert(Section::spec_from_u8(id.spec_id()) == Some(id));
}

/// A section that holds a vector is read into the module.
pub proof fn lemma_vec_section<T: Decode + Encode>(
    id: Section,
    items: Seq<T::V>,
    rest: Seq<u8>,
    cur: ModuleView,
    seen: Set<Section>,
)
    requires
        id != Section::Custom,
        !seen.contains(id),
        items.len() > 0,
        spec_vec_encodable::<T>(items, cur.data_counat_sec),
    ensures
        spec_sections(spec_encode_sec::<T>(id, items) + rest, cur, seen) == match spec_section(
            id,
            spec_encode_vec::<T>(items, false),
            cur,
        ) {
            Err(e) => Err(e),
            Ok(next) => spec_sections(rest, next, seen.insert(id)),
        },
        whole(spec_decodes::<T>(spec_encode_vec::<T>(items, false), cur.data_counat_sec)) == Ok::<
            Seq<T::V>,
            DecodeErr,
        >(items),
{
    let body = spec_encode_vec::<T>(items, false);
    let n = spec_encode_unsigned(body.len());
    assert(spec_encode_sec::<T>(id, items) + rest =~= seq![id.spec_id()] + (n + (body + rest)));
    lemma_section_read(id, body, rest, cur, seen);
    lemma_vec_reads_back::<T>(items, cur.data_counat_sec, Seq::empty());
    assert(body + Seq::<u8>::empty() =~= body);
}

/// A section that holds one index is read into the module.
pub proof fn lemma_index_section(
    id: Section,
    x: u32,
    rest: Seq<u8>,
    cur: ModuleView,
    seen: Set<Section>,
)
    requires
        id == Section::Start || id == Section::DataCount,
        !seen.contains(id),
    ensures
        spec_sections(spec_encode_maybeu32_sec(id, Some(x)) + rest, cur, seen) == spec_sections(
            rest,
            if id == Section::Start {
                ModuleView { start_sec: Some(x), ..cur }
            } else {
                ModuleView { data_counat_sec: Some(x), ..cur }
            },
            seen.insert(id),
        ),
{
    let body = spec_encode_unsigned(x as nat);
    let n = spec_encode_unsigned(body.len());
    lemma_pow128_values();
    lemma_encode_unsigned_len(x as nat, 5);
    assert(spec_encode_maybeu32_sec(id, Some(x)) + rest =~= seq![id.spec_id()] + (n + (body
        + rest)));
    lemma_section_read(id, body, rest, cur, seen);
    lemma_leb_u32_reads_back(x, Seq::empty());
    assert(body + Seq::<u8>::empty() =~= body);
    assert(spec_maybe_u32(body) == gave(Some(x), Seq::<u8>::empty()));
}

/// The type section is read back into a module that has none yet.
pub proof fn lemma_type_section(
    items: Seq<FuncTypeView>,
    rest: Seq<u8>,
    cur: ModuleView,
    seen: Set<Section>,
) -> (after: Set<Section>)
    requires
        cur.type_sec == Seq::<FuncTypeView>::empty(),
        spec_vec_encodable::<FuncType>(items, cur.data_counat_sec),
        seen_up_to(seen, 0),
    ensures
        spec_sections(spec_encode_sec::<FuncType>(Section::Type, items) + rest, cur, seen)
            == spec_sections(rest, ModuleView { type_sec: items, ..cur }, after),
        seen_up_to(after, 1),
{
    if items.len() == 0 {
        assert(spec_encode_sec::<FuncType>(Section::Type, items) + rest =~= rest);
        assert(items =~= cur.type_sec);
        seen
    } else {
        lemma_vec_section::<FuncType>(Section::Type, items, rest, cur, seen);
        seen.insert(Section::Type)
    }
}

/// The import section is read back into a module that has none yet.
pub proof fn lemma_import_section(
    items: Seq<ImportSegView>,
    rest: Seq<u8>,
    cur: ModuleView,
    seen: Set<Section>,
) -> (after: Set<Section>)
    requires
        cur.import_sec == Seq::<ImportSegView>::empty(),
        spec_vec_encodable::<ImportSeg>(items, cur.data_counat_sec),
        seen_up_to(seen, 1),
    ensures
        spec_sections(spec_encode_sec::<ImportSeg>(Section::Import, items) + rest, cur, seen)
            == spec_sections(rest, ModuleView { import_sec: items, ..cur }, after),
        seen_up_to(after, 2),
{
    if items.len() == 0 {
        assert(spec_encode_sec::<ImportSeg>(Section::Import, items) + rest =~= rest);
        assert(items =~= cur.import_sec);
        seen
    } else {
        lemma_vec_section::<ImportSeg>(Section::Import, items, rest, cur, seen);
        seen.insert(Section::Import)
    }
}

/// The function section is read back into a module that has none yet.
pub proof fn lemma_function_section(
    items: Seq<u32>,
    rest: Seq<u8>,
    cur: ModuleView,
    seen: Set<Section>,
) -> (after: Set<Section>)
    requires
        cur.func_sec == Seq::<u32>::empty(),
        spec_vec_encodable::<u32>(items, cur.data_counat_sec),
        seen_up_to(seen, 2),
    ensures
        spec_sections(spec_encode_sec::<u32>(Section::Function, items) + rest, cur, seen)
            == spec_sections(rest, ModuleView { func_sec: items, ..cur }, after),
        seen_up_to(after, 3),
{
    if items.len() == 0 {
        assert(spec_encode_sec::<u32>(Section::Function, items) + rest =~= rest);
        assert(items =~= cur.func_sec);
        seen
    } else {
        lemma_vec_section::<u32>(Section::Function, items, rest, cur, seen);
        seen.insert(Section::Function)
    }
}

/// The table section is read back into a module that has none yet.
pub proof fn lemma_table_section(
    items: Seq<TableType>,
    rest: Seq<u8>,
    cur: ModuleView,
    seen: Set<Section>,
) -> (after: Set<Section>)
    requires
        cur.table_sec == Seq::<TableType>::empty(),
        spec_vec_encodable::<TableType>(items, cur.data_counat_sec),
        seen_up_to(seen, 3),
    ensures
        spec_sections(spec_encode_sec::<TableType>(Section::Table, items) + rest, cur, seen)
            == spec_sections(rest, ModuleView { table_sec: items, ..cur }, after),
        seen_up_to(after, 4),
{
    if items.len() == 0 {
        assert(spec_encode_sec::<TableType>(Section::Table, items) + rest =~= rest);
        assert(items =~= cur.table_sec);
        seen
    } else {
        lemma_vec_section::<TableType>(Section::Table, items, rest, cur, seen);
        seen.insert(Section::Table)
    }
}

/// The memory section is read back into a module that has none yet.
pub proof fn lemma_memory_section(
    items: Seq<Limits>,
    rest: Seq<u8>,
    cur: ModuleView,
    seen: Set<Section>,
) -> (after: Set<Section>)
    requires
        cur.mem_sec == Seq::<Limits>::empty(),
        spec_vec_encodable::<Limits>(items, cur.data_counat_sec),
        seen_up_to(seen, 4),
    ensures
        spec_sections(spec_encode_sec::<Limits>(Section::Memory, items) + rest, cur, seen)
            == spec_sections(rest, ModuleView { mem_sec: items, ..cur }, after),
        seen_up_to(after, 5),
{
    if items.len() == 0 {
        assert(spec_encode_sec::<Limits>(Section::Memory, items) + rest =~= rest);
        assert(items =~= cur.mem_sec);
        seen
    } else {
        lemma_vec_section::<Limits>(Section::Memory, items, rest, cur, seen);
        seen.insert(Section::Memory)
    }
}

/// The global section is read back into a module that has none yet.
pub proof fn lemma_global_section(
    items: Seq<GlobalSegView>,
    rest: Seq<u8>,
    cur: ModuleView,
    seen: Set<Section>,
) -> (after: Set<Section>)
    requires
        cur.global_sec == Seq::<GlobalSegView>::empty(),
        spec_vec_encodable::<GlobalSeg>(items, cur.data_counat_sec),
        seen_up_to(seen, 5),
    ensures
        spec_sections(spec_encode_sec::<GlobalSeg>(Section::Global, items) + rest, cur, seen)
            == spec_sections(rest, ModuleView { global_sec: items, ..cur }, after),
        seen_up_to(after, 6),
{
    if items.len() == 0 {
        assert(spec_encode_sec::<GlobalSeg>(Section::Global, items) + rest =~= rest);
        assert(items =~= cur.global_sec);
        seen
    } else {
        lemma_vec_section::<GlobalSeg>(Section::Global, items, rest, cur, seen);
        seen.insert(Section::Global)
    }
}

/// The export section is read back into a module that has none yet.
pub proof fn lemma_export_section(
    items: Seq<ExportSegView>,
    rest: Seq<u8>,
    cur: ModuleView,
    seen: Set<Section>,
) -> (after: Set<Section>)
    requires
        cur.export_sec == Seq::<ExportSegView>::empty(),
        spec_vec_encodable::<ExportSeg>(items, cur.data_counat_sec),
        seen_up_to(seen, 6),
    ensures
        spec_sections(spec_encode_sec::<ExportSeg>(Section::Export, items) + rest, cur, seen)
            == spec_sections(rest, ModuleView { export_sec: items, ..cur }, after),
        seen_up_to(after, 7),
{
    if items.len() == 0 {
        assert(spec_encode_sec::<ExportSeg>(Section::Export, items) + rest =~= rest);
        assert(items =~= cur.export_sec);
        seen
    } else {
        lemma_vec_section::<ExportSeg>(Section::Export, items, rest, cur, seen);
        seen.insert(Section::Export)
    }
}

/// The element section is read back into a module that has none yet.
pub proof fn lemma_element_section(
    items: Seq<ElementSegView>,
    rest: Seq<u8>,
    cur: ModuleView,
    seen: Set<Section>,
) -> (after: Set<Section>)
    requires
        cur.elem_sec == Seq::<ElementSegView>::empty(),
        spec_vec_encodable::<ElementSeg>(items, cur.data_counat_sec),
        seen_up_to(seen, 8),
    ensures
        spec_sections(spec_encode_sec::<ElementSeg>(Section::Element, items) + rest, cur, seen)
            == spec_sections(rest, ModuleView { elem_sec: items, ..cur }, after),
        seen_up_to(after, 9),
{
    if items.len() == 0 {
        assert(spec_encode_sec::<ElementSeg>(Section::Element, items) + rest =~= rest);
        assert(items =~= cur.elem_sec);
        seen
    } else {
        lemma_vec_section::<ElementSeg>(Section::Element, items, rest, cur, seen);
        seen.insert(Section::Element)
    }
}

/// The code section is read back into a module that has none yet.
pub proof fn lemma_code_section(
    items: Seq<CodeSegView>,
    rest: Seq<u8>,
    cur: ModuleView,
    seen: Set<Section>,
) -> (after: Set<Section>)
    requires
        cur.code_sec == Seq::<CodeSegView>::empty(),
        spec_vec_encodable::<CodeSeg>(items, cur.data_counat_sec),
        seen_up_to(seen, 10),
    ensures
        spec_sections(spec_encode_sec::<CodeSeg>(Section::Code, items) + rest, cur, seen)
            == spec_sections(rest, ModuleView { code_sec: items, ..cur }, after),
        seen_up_to(after, 11),
{
    if items.len() == 0 {
        assert(spec_encode_sec::<CodeSeg>(Section::Code, items) + rest =~= rest);
        assert(items =~= cur.code_sec);
        seen
    } else {
        lemma_vec_section::<CodeSeg>(Section::Code, items, rest, cur, seen);
        seen.insert(Section::Code)
    }
}

/// The data section is read back into a module that has none yet.
pub proof fn lemma_data_section(
    items: Seq<DataSegView>,
    rest: Seq<u8>,
    cur: ModuleView,
    seen: Set<Section>,
) -> (after: Set<Section>)
    requires
        cur.data_sec == Seq::<DataSegView>::empty(),
        spec_vec_encodable::<DataSeg>(items, cur.data_counat_sec),
        seen_up_to(seen, 11),
    ensures
        spec_sections(spec_encode_sec::<DataSeg>(Section::Data, items) + rest, cur, seen)
            == spec_sections(rest, ModuleView { data_sec: items, ..cur }, after),
        seen_up_to(after, 12),
{
    if items.len() == 0 {
        assert(spec_encode_sec::<DataSeg>(Section::Data, items) + rest =~= rest);
        assert(items =~= cur.data_sec);
        seen
    } else {
        lemma_vec_section::<DataSeg>(Section::Data, items, rest, cur, seen);
        seen.insert(Section::Data)
    }
}

/// The start section is read back into a module that has none yet.
pub proof fn lemma_start_section(
    v: Option<u32>,
    rest: Seq<u8>,
    cur: ModuleView,
    seen: Set<Section>,
) -> (after: Set<Section>)
    requires
        cur.start_sec is None,
        seen_up_to(seen, 7),
    ensures
        spec_sections(spec_encode_maybeu32_sec(Section::Start, v) + rest, cur, seen)
            == spec_sections(rest, ModuleView { start_sec: v, ..cur }, after),
        seen_up_to(after, 8),
{
    match v {
        None => {
            assert(spec_encode_maybeu32_sec(Section::Start, v) + rest =~= rest);
            seen
        },
        Some(x) => {
            lemma_index_section(Section::Start, x, rest, cur, seen);
            seen.insert(Section::Start)
        },
    }
}

/// The data count section is read back into a module that has none yet.
pub proof fn lemma_data_count_section(
    v: Option<u32>,
    rest: Seq<u8>,
    cur: ModuleView,
    seen: Set<Section>,
) -> (after: Set<Section>)
    requires
        cur.data_counat_sec is None,
        seen_up_to(seen, 9),
    ensures
        spec_sections(spec_encode_maybeu32_sec(Section::DataCount, v) + rest, cur, seen)
            == spec_sections(rest, ModuleView { data_counat_sec: v, ..cur }, after),
        seen_up_to(after, 10),
{
    match v {
        None => {
            assert(spec_encode_maybeu32_sec(Section::DataCount, v) + rest =~= rest);
            seen
        },
        Some(x) => {
            lemma_index_section(Section::DataCount, x, rest, cur, seen);
            seen.insert(Section::DataCount)
        },
    }
}

/// Whether a custom section can be written so that it is read back: its
/// name and its data take fewer than two to the power of 32 bytes.
pub open spec fn spec_custom_encodable(v: CustomSegView) -> bool {
    &&& spec_name_encodable(v.name)
    &&& (spec_encode_name(v.name) + v.data).len() < 0x1_0000_0000
}

/// The bytes of the custom sections from place `j` on.
pub open spec fn spec_encode_customs_from(customs: Seq<CustomSegView>, j: int) -> Seq<u8>
    decreases customs.len() - j,
{
    if j < 0 || j >= customs.len() {
        Seq::empty()
    } else {
        spec_encode_custom(customs[j]) + spec_encode_customs_from(customs, j + 1)
    }
}

/// The bytes of the first `k` custom sections and of those behind them
/// are the bytes of all of them.
pub proof fn lemma_customs_split(customs: Seq<CustomSegView>, k: int)
    requires
        0 <= k <= customs.len(),
    ensures
        spec_encode_customs(customs, k) + spec_encode_customs_from(customs, k)
            == spec_encode_customs(customs, customs.len() as int),
    decreases customs.len() - k,
{
    if k < customs.len() {
        lemma_customs_split(customs, k + 1);
        assert(spec_encode_customs(customs, k) + spec_encode_customs_from(customs, k)
            =~= spec_encode_customs(customs, k + 1) + spec_encode_customs_from(customs, k + 1));
    } else {
        assert(spec_encode_customs(customs, k) + spec_encode_customs_from(customs, k)
            =~= spec_encode_customs(customs, k));
    }
}

/// A custom section is read into the module behind those that it has.
pub proof fn lemma_custom_section(v: CustomSegView, rest: Seq<u8>, cur: ModuleView, seen: Set<Section>)
    requires
        spec_custom_encodable(v),
    ensures
        spec_sections(spec_encode_custom(v) + rest, cur, seen) == spec_sections(
            rest,
            ModuleView { custom_sec: cur.custom_sec.push(v), ..cur },
            seen.insert(Section::Custom),
        ),
{
    let inside = spec_encode_name(v.name) + v.data;
    let n = spec_encode_unsigned(inside.len());
    assert(spec_encode_custom(v) + rest =~= seq![Section::Custom.spec_id()] + (n + (inside
        + rest)));
    lemma_section_read(Section::Custom, inside, rest, cur, seen);
    lemma_name_reads_back(v.name, v.data);
    assert(spec_custom(inside) == gave(v, Seq::<u8>::empty()));
}

/// The custom sections from place `j` on, at the end of the input, are
/// read into the module behind those that it has.
pub proof fn lemma_customs_read(
    customs: Seq<CustomSegView>,
    j: int,
    cur: ModuleView,
    seen: Set<Section>,
)
    requires
        0 <= j <= customs.len(),
        forall|k: int| 0 <= k < customs.len() ==> spec_custom_encodable(#[trigger] customs[k]),
    ensures
        spec_sections(spec_encode_customs_from(customs, j), cur, seen) == Ok::<
            ModuleView,
            DecodeErr,
        >(ModuleView { custom_sec: cur.custom_sec + customs.skip(j), ..cur }),
    decreases customs.len() - j,
{
    if j < customs.len() {
        let v = customs[j];
        let next = ModuleView { custom_sec: cur.custom_sec.push(v), ..cur };
        lemma_custom_section(v, spec_encode_customs_from(customs, j + 1), cur, seen);
        lemma_customs_read(customs, j + 1, next, seen.insert(Section::Custom));
        assert(cur.custom_sec.push(v) + customs.skip(j + 1) =~= cur.custom_sec + customs.skip(j));
    } else {
        assert(cur.custom_sec + customs.skip(j) =~= cur.custom_sec);
    }
}

/// Whether a vector has fewer than two to the power of 32 values and
/// takes fewer than two to the power of 32 bytes.
pub open spec fn spec_fits<T: Encode>(items: Seq<T::V>) -> bool {
    &&& items.len() < 0x1_0000_0000
    &&& spec_encode_vec::<T>(items, false).len() < 0x1_0000_0000
}

/// Whether a module can be written so that it is read back. It has the
/// magic number and the version of the format; each section fits in 32
/// bits; names, segments and bodies can be written; there is
/// one code entry for each function; and the data count, if there is one,
/// is the number of data segments. Only the code and the data section are
/// read with the data count known: a global or an element segment has no
/// use for the instructions that need it.
pub open spec fn spec_encodable(m: ModuleView) -> bool {
    &&& m.magic == MAGIC
    &&& m.version == VERSION
    &&& spec_fits::<FuncType>(m.type_sec)
    &&& forall|k: int|
        0 <= k < m.type_sec.len() ==> (#[trigger] m.type_sec[k]).params.len() < 0x1_0000_0000
            && m.type_sec[k].results.len() < 0x1_0000_0000
    &&& spec_fits::<ImportSeg>(m.import_sec)
    &&& forall|k: int|
        0 <= k < m.import_sec.len() ==> spec_name_encodable((#[trigger] m.import_sec[k]).module)
            && spec_name_encodable(m.import_sec[k].name)
    &&& spec_fits::<u32>(m.func_sec)
    &&& spec_fits::<TableType>(m.table_sec)
    &&& spec_fits::<Limits>(m.mem_sec)
    &&& spec_fits::<GlobalSeg>(m.global_sec)
    &&& forall|k: int|
        0 <= k < m.global_sec.len() ==> spec_expr_encodable(
            (#[trigger] m.global_sec[k]).init_expr,
            None,
        )
    &&& spec_fits::<ExportSeg>(m.export_sec)
    &&& forall|k: int|
        0 <= k < m.export_sec.len() ==> spec_name_encodable((#[trigger] m.export_sec[k]).name)
    &&& spec_fits::<ElementSeg>(m.elem_sec)
    &&& forall|k: int|
        0 <= k < m.elem_sec.len() ==> spec_element_encodable(#[trigger] m.elem_sec[k], None)
    &&& spec_fits::<CodeSeg>(m.code_sec)
    &&& forall|k: int|
        0 <= k < m.code_sec.len() ==> spec_code_encodable(
            #[trigger] m.code_sec[k],
            m.data_counat_sec,
        )
    &&& spec_fits::<DataSeg>(m.data_sec)
    &&& forall|k: int|
        0 <= k < m.data_sec.len() ==> spec_data_encodable(
            #[trigger] m.data_sec[k],
            m.data_counat_sec,
        )
    &&& forall|k: int|
        0 <= k < m.custom_sec.len() ==> spec_custom_encodable(#[trigger] m.custom_sec[k])
    &&& m.code_sec.len() == m.func_sec.len()
    &&& m.data_counat_sec matches Some(n) ==> m.data_sec.len() == n
}

/// The sections of a module that can be written are read back one by one.
pub proof fn lemma_vectors_read_back(m: ModuleView)
    requires
        spec_encodable(m),
    ensures
        spec_vec_encodable::<FuncType>(m.type_sec, None),
        spec_vec_encodable::<ImportSeg>(m.import_sec, None),
        spec_vec_encodable::<u32>(m.func_sec, None),
        spec_vec_encodable::<TableType>(m.table_sec, None),
        spec_vec_encodable::<Limits>(m.mem_sec, None),
        spec_vec_encodable::<GlobalSeg>(m.global_sec, None),
        spec_vec_encodable::<ExportSeg>(m.export_sec, None),
        spec_vec_encodable::<ElementSeg>(m.elem_sec, None),
        spec_vec_encodable::<CodeSeg>(m.code_sec, m.data_counat_sec),
        spec_vec_encodable::<DataSeg>(m.data_sec, m.data_counat_sec),
{
    let none: DataCountSeg = None;
    assert forall|k: int| 0 <= k < m.type_sec.len() implies reads_back::<FuncType>(
        #[trigger] m.type_sec[k],
        none,
    ) by {
        lemma_func_type_reads_back(m.type_sec[k], none);
    }
    assert forall|k: int| 0 <= k < m.import_sec.len() implies reads_back::<ImportSeg>(
        #[trigger] m.import_sec[k],
        none,
    ) by {
        lemma_import_reads_back(m.import_sec[k], none);
    }
    assert forall|k: int| 0 <= k < m.func_sec.len() implies reads_back::<u32>(
        #[trigger] m.func_sec[k],
        none,
    ) by {
        lemma_u32_item_reads_back(m.func_sec[k], none);
    }
    assert forall|k: int| 0 <= k < m.table_sec.len() implies reads_back::<TableType>(
        #[trigger] m.table_sec[k],
        none,
    ) by {
        lemma_table_type_item_reads_back(m.table_sec[k], none);
    }
    assert forall|k: int| 0 <= k < m.mem_sec.len() implies reads_back::<Limits>(
        #[trigger] m.mem_sec[k],
        none,
    ) by {
        lemma_limits_item_reads_back(m.mem_sec[k], none);
    }
    assert forall|k: int| 0 <= k < m.global_sec.len() implies reads_back::<GlobalSeg>(
        #[trigger] m.global_sec[k],
        none,
    ) by {
        lemma_global_reads_back(m.global_sec[k], none);
    }
    assert forall|k: int| 0 <= k < m.export_sec.len() implies reads_back::<ExportSeg>(
        #[trigger] m.export_sec[k],
        none,
    ) by {
        lemma_export_reads_back(m.export_sec[k], none);
    }
    assert forall|k: int| 0 <= k < m.elem_sec.len() implies reads_back::<ElementSeg>(
        #[trigger] m.elem_sec[k],
        none,
    ) by {
        lemma_element_reads_back(m.elem_sec[k], none);
    }
    assert forall|k: int| 0 <= k < m.code_sec.len() implies reads_back::<CodeSeg>(
        #[trigger] m.code_sec[k],
        m.data_counat_sec,
    ) by {
        lemma_code_reads_back(m.code_sec[k], m.data_counat_sec);
    }
    assert forall|k: int| 0 <= k < m.data_sec.len() implies reads_back::<DataSeg>(
        #[trigger] m.data_sec[k],
        m.data_counat_sec,
    ) by {
        lemma_data_reads_back(m.data_sec[k], m.data_counat_sec);
    }
}

/// The bytes of a module behind its header: the sections in the order in
/// which they are written.
pub open spec fn spec_encode_sections(m: ModuleView) -> Seq<u8> {
    spec_encode_sec::<FuncType>(Section::Type, m.type_sec) + (spec_encode_sec::<ImportSeg>(
        Section::Import,
        m.import_sec,
    ) + (spec_encode_sec::<u32>(Section::Function, m.func_sec) + (spec_encode_sec::<TableType>(
        Section::Table,
        m.table_sec,
    ) + (spec_encode_sec::<Limits>(Section::Memory, m.mem_sec) + (spec_encode_sec::<GlobalSeg>(
        Section::Global,
        m.global_sec,
    ) + (spec_encode_sec::<ExportSeg>(Section::Export, m.export_sec) + (spec_encode_maybeu32_sec(
        Section::Start,
        m.start_sec,
    ) + (spec_encode_sec::<ElementSeg>(Section::Element, m.elem_sec) + (spec_encode_maybeu32_sec(
        Section::DataCount,
        m.data_counat_sec,
    ) + (spec_encode_sec::<CodeSeg>(Section::Code, m.code_sec) + (spec_encode_sec::<DataSeg>(
        Section::Data,
        m.data_sec,
    ) + spec_encode_customs_from(m.custom_sec, 0))))))))))))
}

/// The bytes of a module are its header and its sections.
pub proof fn lemma_module_bytes(m: ModuleView)
    ensures
        spec_encode_module(m) == le_bytes32(MAGIC) + (le_bytes32(VERSION) + spec_encode_sections(
            m,
        )),
{
    let c = spec_encode_customs(m.custom_sec, m.custom_sec.len() as int);
    lemma_customs_split(m.custom_sec, 0);
    assert(spec_encode_customs(m.custom_sec, 0) + spec_encode_customs_from(m.custom_sec, 0)
        =~= spec_encode_customs_from(m.custom_sec, 0));
    let s1 = spec_encode_sec::<FuncType>(Section::Type, m.type_sec);
    let s2 = spec_encode_sec::<ImportSeg>(Section::Import, m.import_sec);
    let s3 = spec_encode_sec::<u32>(Section::Function, m.func_sec);
    let s4 = spec_encode_sec::<TableType>(Section::Table, m.table_sec);
    let s5 = spec_encode_sec::<Limits>(Section::Memory, m.mem_sec);
    let s6 = spec_encode_sec::<GlobalSeg>(Section::Global, m.global_sec);
    let s7 = spec_encode_sec::<ExportSeg>(Section::Export, m.export_sec);
    let s8 = spec_encode_maybeu32_sec(Section::Start, m.start_sec);
    let s9 = spec_encode_sec::<ElementSeg>(Section::Element, m.elem_sec);
    let s10 = spec_encode_maybeu32_sec(Section::DataCount, m.data_counat_sec);
    let s11 = spec_encode_sec::<CodeSeg>(Section::Code, m.code_sec);
    let s12 = spec_encode_sec::<DataSeg>(Section::Data, m.data_sec);
    let x0 = le_bytes32(MAGIC) + le_bytes32(VERSION);
    let x1 = x0 + s1;
    let x2 = x1 + s2;
    let x3 = x2 + s3;
    let x4 = x3 + s4;
    let x5 = x4 + s5;
    let x6 = x5 + s6;
    let x7 = x6 + s7;
    let x8 = x7 + s8;
    let x9 = x8 + s9;
    let x10 = x9 + s10;
    let x11 = x10 + s11;
    let t12 = s12 + c;
    let t11 = s11 + t12;
    let t10 = s10 + t11;
    let t9 = s9 + t10;
    let t8 = s8 + t9;
    let t7 = s7 + t8;
    let t6 = s6 + t7;
    let t5 = s5 + t6;
    let t4 = s4 + t5;
    let t3 = s3 + t4;
    let t2 = s2 + t3;
    let t1 = s1 + t2;
    assert(spec_encode_module(m) == (x11 + s12) + c);
    lemma_assoc(x11, s12, c);
    lemma_assoc(x10, s11, t12);
    lemma_assoc(x9, s10, t11);
    lemma_assoc(x8, s9, t10);
    lemma_assoc(x7, s8, t9);
    lemma_assoc(x6, s7, t8);
    lemma_assoc(x5, s6, t7);
    lemma_assoc(x4, s5, t6);
    lemma_assoc(x3, s4, t5);
    lemma_assoc(x2, s3, t4);
    lemma_assoc(x1, s2, t3);
    lemma_assoc(x0, s1, t2);
    lemma_assoc(le_bytes32(MAGIC), le_bytes32(VERSION), t1);
    assert(t1 == spec_encode_sections(m));
}

/// Behind the header of a module stand its sections, and the module that
/// they give is checked.
pub proof fn lemma_header_reads_back(body: Seq<u8>)
    ensures
        spec_module(le_bytes32(MAGIC) + (le_bytes32(VERSION) + body)) == match spec_sections(
            body,
            empty_module(),
            Set::empty(),
        ) {
            Err(e) => Err(e),
            Ok(m) => match spec_validate_decode(m) {
                Err(e) => Err(e),
                Ok(_) => Ok(m),
            },
        },
{
    lemma_u32_reads_back(MAGIC, le_bytes32(VERSION) + body);
    lemma_u32_reads_back(VERSION, body);
}

/// The sections of a module that can be written are read back as the
/// module.
pub proof fn lemma_sections_read_back(m: ModuleView)
    requires
        spec_encodable(m),
    ensures
        spec_sections(spec_encode_sections(m), empty_module(), Set::empty()) == Ok::<
            ModuleView,
            DecodeErr,
        >(m),
{
    lemma_vectors_read_back(m);
    let t12 = spec_encode_customs_from(m.custom_sec, 0);
    let t11 = spec_encode_sec::<DataSeg>(Section::Data, m.data_sec) + t12;
    let t10 = spec_encode_sec::<CodeSeg>(Section::Code, m.code_sec) + t11;
    let t9 = spec_encode_maybeu32_sec(Section::DataCount, m.data_counat_sec) + t10;
    let t8 = spec_encode_sec::<ElementSeg>(Section::Element, m.elem_sec) + t9;
    let t7 = spec_encode_maybeu32_sec(Section::Start, m.start_sec) + t8;
    let t6 = spec_encode_sec::<ExportSeg>(Section::Export, m.export_sec) + t7;
    let t5 = spec_encode_sec::<GlobalSeg>(Section::Global, m.global_sec) + t6;
    let t4 = spec_encode_sec::<Limits>(Section::Memory, m.mem_sec) + t5;
    let t3 = spec_encode_sec::<TableType>(Section::Table, m.table_sec) + t4;
    let t2 = spec_encode_sec::<u32>(Section::Function, m.func_sec) + t3;
    let t1 = spec_encode_sec::<ImportSeg>(Section::Import, m.import_sec) + t2;
    let c0 = empty_module();
    let s0 = Set::<Section>::empty();
    let s1 = lemma_type_section(m.type_sec, t1, c0, s0);
    let c1 = ModuleView { type_sec: m.type_sec, ..c0 };
    let s2 = lemma_import_section(m.import_sec, t2, c1, s1);
    let c2 = ModuleView { import_sec: m.import_sec, ..c1 };
    let s3 = lemma_function_section(m.func_sec, t3, c2, s2);
    let c3 = ModuleView { func_sec: m.func_sec, ..c2 };
    let s4 = lemma_table_section(m.table_sec, t4, c3, s3);
    let c4 = ModuleView { table_sec: m.table_sec, ..c3 };
    let s5 = lemma_memory_section(m.mem_sec, t5, c4, s4);
    let c5 = ModuleView { mem_sec: m.mem_sec, ..c4 };
    let s6 = lemma_global_section(m.global_sec, t6, c5, s5);
    let c6 = ModuleView { global_sec: m.global_sec, ..c5 };
    let s7 = lemma_export_section(m.export_sec, t7, c6, s6);
    let c7 = ModuleView { export_sec: m.export_sec, ..c6 };
    let s8 = lemma_start_section(m.start_sec, t8, c7, s7);
    let c8 = ModuleView { start_sec: m.start_sec, ..c7 };
    let s9 = lemma_element_section(m.elem_sec, t9, c8, s8);
    let c9 = ModuleView { elem_sec: m.elem_sec, ..c8 };
    let s10 = lemma_data_count_section(m.data_counat_sec, t10, c9, s9);
    let c10 = ModuleView { data_counat_sec: m.data_counat_sec, ..c9 };
    let s11 = lemma_code_section(m.code_sec, t11, c10, s10);
    let c11 = ModuleView { code_sec: m.code_sec, ..c10 };
    let s12 = lemma_data_section(m.data_sec, t12, c11, s11);
    let c12 = ModuleView { data_sec: m.data_sec, ..c11 };
    lemma_customs_read(m.custom_sec, 0, c12, s12);
    assert(c12.custom_sec + m.custom_sec.skip(0) =~= m.custom_sec);
}

/// A module that can be written is read back from its bytes as it is.
pub proof fn lemma_module_round_trip(m: ModuleView)
    requires
        spec_encodable(m),
    ensures
        spec_module(spec_encode_module(m)) == Ok::<ModuleView, DecodeErr>(m),
{
    lemma_module_bytes(m);
    lemma_header_reads_back(spec_encode_sections(m));
    lemma_sections_read_back(m);
}

/// The bytes that the encoder writes for a module that can be written are
/// the bytes that it writes for the module read back from them.
pub proof fn lemma_bytes_round_trip(m: ModuleView)
    requires
        spec_encodable(m),
    ensures
        spec_module(spec_encode_module(m)) matches Ok(read) && spec_encode_module(read)
            == spec_encode_module(m),
{
    lemma_module_round_trip(m);
}

} // verus!
