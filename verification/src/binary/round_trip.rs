//! What the encoder writes, the decoder reads back.
//!
//! Each lemma says of one part of the format that the bytes of a value,
//! whatever follows them, are read as that value and leave what follows.

use vstd::prelude::*;

use super::decode::spec_decode_n;
use super::decode::spec_decodes;
use super::decode::spec_global_type;
use super::decode::spec_limits;
use super::decode::spec_table_type;
use super::decode::spec_val_type;
use super::decode::Decode;
use super::encode::le_bytes32;
use super::encode::le_bytes64;
use super::encode::spec_encode_items;
use super::encode::spec_encode_vec;
use super::encode::Encode;
use super::leb128::lemma_encode_signed_len;
use super::leb128::lemma_encode_unsigned_len;
use super::leb128::lemma_encode_unsigned_shape;
use super::leb128::lemma_pow128_values;
use super::leb128::lemma_signed_round_trip;
use super::leb128::lemma_unsigned_round_trip;
use super::leb128::spec_encode_name;
use super::leb128::spec_encode_signed;
use super::leb128::spec_encode_unsigned;
use super::reader::le_u32;
use super::reader::spec_bytes;
use super::reader::spec_leb_i32;
use super::reader::spec_leb_i64;
use super::reader::spec_leb_u32;
use super::reader::spec_leb_u64;
use super::reader::spec_name;
use super::reader::spec_seqs;
use super::reader::spec_u32;
use super::reader::spec_u64;
use super::reader::spec_u8;
use super::reader::spec_v128;
use super::reader::Parsed;
use super::section::DataCountSeg;
use super::types::lemma_val_type_byte_round_trip;
use super::types::FuncType;
use super::types::FuncTypeView;
use super::types::GlobalType;
use super::types::Limits;
use super::types::TableType;
use super::types::ValType;
use crate::execution::value::lemma_v128_bytes_round_trip;
use crate::execution::value::spec_v128_bytes;
use crate::execution::value::v128;

verus! {

/// The result of a read that gave `v` and left `t`.
pub open spec fn gave<T>(v: T, t: Seq<u8>) -> Parsed<T> {
    Ok((v, t))
}

/// Bytes that are put together in three parts are the same whichever two
/// are put together first.
pub proof fn lemma_assoc(a: Seq<u8>, b: Seq<u8>, c: Seq<u8>)
    ensures
        (a + b) + c == a + (b + c),
{
    assert((a + b) + c =~= a + (b + c));
}

pub proof fn lemma_byte_reads_back(b: u8, t: Seq<u8>)
    ensures
        spec_u8(seq![b] + t) == gave(b, t),
{
    assert((seq![b] + t).skip(1) =~= t);
}

pub proof fn lemma_bytes_read_back(b: Seq<u8>, t: Seq<u8>)
    ensures
        spec_bytes(b + t, b.len()) == gave(b, t),
{
    assert((b + t).take(b.len() as int) =~= b);
    assert((b + t).skip(b.len() as int) =~= t);
}

pub proof fn lemma_leb_u32_reads_back(x: u32, t: Seq<u8>)
    ensures
        spec_leb_u32(spec_encode_unsigned(x as nat) + t) == gave(x, t),
        spec_encode_unsigned(x as nat).len() >= 1,
{
    let e = spec_encode_unsigned(x as nat);
    lemma_unsigned_round_trip(x as nat, 32, t);
    lemma_encode_unsigned_shape(x as nat, t);
    assert((e + t).skip(e.len() as int) =~= t);
}

pub proof fn lemma_leb_u64_reads_back(x: u64, t: Seq<u8>)
    ensures
        spec_leb_u64(spec_encode_unsigned(x as nat) + t) == gave(x, t),
{
    let e = spec_encode_unsigned(x as nat);
    lemma_unsigned_round_trip(x as nat, 64, t);
    lemma_pow128_values();
    lemma_encode_unsigned_len(x as nat, 10);
    assert((e + t).skip(e.len() as int) =~= t);
}

pub proof fn lemma_leb_i32_reads_back(x: i32, t: Seq<u8>)
    ensures
        spec_leb_i32(spec_encode_signed(x as int) + t) == gave(x, t),
{
    let e = spec_encode_signed(x as int);
    lemma_signed_round_trip(x as i64, 32, t);
    lemma_pow128_values();
    lemma_encode_signed_len(x as int, 10);
    assert((e + t).skip(e.len() as int) =~= t);
}

pub proof fn lemma_leb_i64_reads_back(x: i64, t: Seq<u8>)
    ensures
        spec_leb_i64(spec_encode_signed(x as int) + t) == gave(x, t),
{
    let e = spec_encode_signed(x as int);
    lemma_signed_round_trip(x, 64, t);
    lemma_pow128_values();
    lemma_encode_signed_len(x as int, 10);
    assert((e + t).skip(e.len() as int) =~= t);
}

pub proof fn lemma_le_u32(x: u32)
    ensures
        le_u32(le_bytes32(x)) == x,
        le_bytes32(x).len() == 4,
{
}

pub proof fn lemma_u32_reads_back(x: u32, t: Seq<u8>)
    ensures
        spec_u32(le_bytes32(x) + t) == gave(x, t),
{
    let e = le_bytes32(x);
    lemma_le_u32(x);
    assert((e + t).take(4) =~= e);
    assert((e + t).skip(4) =~= t);
}

pub proof fn lemma_u64_reads_back(x: u64, t: Seq<u8>)
    ensures
        spec_u64(le_bytes64(x) + t) == gave(x, t),
{
    let low = (x % 0x1_0000_0000) as u32;
    let high = (x / 0x1_0000_0000) as u32;
    let e = le_bytes64(x);
    lemma_le_u32(low);
    lemma_le_u32(high);
    assert(e.take(4) =~= le_bytes32(low));
    assert(e.skip(4) =~= le_bytes32(high));
    assert((e + t).take(8) =~= e);
    assert((e + t).skip(8) =~= t);
}

pub proof fn lemma_v128_reads_back(x: v128, t: Seq<u8>)
    ensures
        spec_v128(spec_v128_bytes(x) + t) == gave(x, t),
{
    let e = spec_v128_bytes(x);
    lemma_v128_bytes_round_trip(x);
    assert((e + t).take(16) =~= e);
    assert((e + t).skip(16) =~= t);
}

/// A byte sequence shorter than two to the power of 32, behind its length.
pub proof fn lemma_seqs_read_back(b: Seq<u8>, t: Seq<u8>)
    requires
        b.len() < 0x1_0000_0000,
    ensures
        spec_seqs(spec_encode_unsigned(b.len()) + b + t) == gave(b, t),
{
    let e = spec_encode_unsigned(b.len());
    lemma_leb_u32_reads_back(b.len() as u32, b + t);
    assert(e + b + t =~= e + (b + t));
    lemma_bytes_read_back(b, t);
}

pub proof fn lemma_name_reads_back(name: Seq<char>, t: Seq<u8>)
    requires
        vstd::utf8::encode_utf8(name).len() < 0x1_0000_0000,
    ensures
        spec_name(spec_encode_name(name) + t) == gave(name, t),
{
    let b = vstd::utf8::encode_utf8(name);
    lemma_seqs_read_back(b, t);
    vstd::utf8::encode_utf8_valid_utf8(name);
    vstd::utf8::encode_utf8_decode_utf8(name);
}

pub proof fn lemma_val_type_reads_back(v: ValType, t: Seq<u8>)
    ensures
        spec_val_type(seq![v.spec_byte()] + t) == gave(v, t),
{
    lemma_byte_reads_back(v.spec_byte(), t);
    lemma_val_type_byte_round_trip(v);
}

pub proof fn lemma_limits_read_back(v: Limits, t: Seq<u8>)
    ensures
        spec_limits(Limits::spec_encode(v) + t) == gave(v, t),
{
    let min = spec_encode_unsigned(v.min as nat);
    match v.max {
        Some(max) => {
            let e = spec_encode_unsigned(max as nat);
            lemma_byte_reads_back(1u8, min + e + t);
            assert(seq![1u8] + min + e + t =~= seq![1u8] + (min + e + t));
            lemma_leb_u32_reads_back(v.min, e + t);
            assert(min + e + t =~= min + (e + t));
            lemma_leb_u32_reads_back(max, t);
        },
        None => {
            lemma_byte_reads_back(0u8, min + t);
            assert(seq![0u8] + min + t =~= seq![0u8] + (min + t));
            lemma_leb_u32_reads_back(v.min, t);
        },
    }
}

pub proof fn lemma_table_type_reads_back(v: TableType, t: Seq<u8>)
    ensures
        spec_table_type(TableType::spec_encode(v) + t) == gave(v, t),
{
    let e = Limits::spec_encode(v.limits);
    lemma_byte_reads_back(v.elem_type.spec_byte(), e + t);
    assert(seq![v.elem_type.spec_byte()] + e + t =~= seq![v.elem_type.spec_byte()] + (e + t));
    lemma_limits_read_back(v.limits, t);
}

pub proof fn lemma_global_type_reads_back(v: GlobalType, t: Seq<u8>)
    ensures
        spec_global_type(GlobalType::spec_encode(v) + t) == gave(v, t),
{
    let m = seq![v.mut_.spec_byte()];
    assert(GlobalType::spec_encode(v) + t =~= seq![v.val_type.spec_byte()] + (m + t));
    lemma_val_type_reads_back(v.val_type, m + t);
    lemma_byte_reads_back(v.mut_.spec_byte(), t);
}

/// Whether the bytes of `v`, whatever follows them, are read as `v`.
pub open spec fn reads_back<T: Decode + Encode>(v: T::V, dc: DataCountSeg) -> bool {
    forall|t: Seq<u8>| #[trigger]
        T::spec_decode(T::spec_encode(v) + t, dc) == gave::<T::V>(v, t)
}

/// The bytes of values one after the other begin with those of the first.
pub proof fn lemma_items_front<T: Encode>(items: Seq<T::V>, k: int)
    requires
        1 <= k <= items.len(),
    ensures
        spec_encode_items::<T>(items, k) == T::spec_encode(items[0]) + spec_encode_items::<T>(
            items.skip(1),
            k - 1,
        ),
    decreases k,
{
    let rest = items.skip(1);
    if k == 1 {
        assert(spec_encode_items::<T>(items, 0) =~= Seq::<u8>::empty());
        assert(spec_encode_items::<T>(rest, 0) =~= Seq::<u8>::empty());
        assert(spec_encode_items::<T>(items, 1) =~= T::spec_encode(items[0])
            + spec_encode_items::<T>(rest, 0));
    } else {
        lemma_items_front::<T>(items, k - 1);
        assert(rest[k - 2] == items[k - 1]);
        assert(spec_encode_items::<T>(items, k) =~= T::spec_encode(items[0])
            + spec_encode_items::<T>(rest, k - 1));
    }
}

/// Values that are each read back are read back one after the other.
pub proof fn lemma_items_read_back<T: Decode + Encode>(items: Seq<T::V>, dc: DataCountSeg, t: Seq<u8>)
    requires
        forall|k: int| 0 <= k < items.len() ==> reads_back::<T>(#[trigger] items[k], dc),
    ensures
        spec_decode_n::<T>(spec_encode_items::<T>(items, items.len() as int) + t, dc, items.len())
            == gave(items, t),
    decreases items.len(),
{
    let n = items.len() as int;
    if n == 0 {
        assert(spec_encode_items::<T>(items, 0) + t =~= t);
        assert(items =~= Seq::<T::V>::empty());
    } else {
        let rest = items.skip(1);
        let tail = spec_encode_items::<T>(rest, n - 1);
        lemma_items_front::<T>(items, n);
        assert(spec_encode_items::<T>(items, n) + t =~= T::spec_encode(items[0]) + (tail + t));
        assert(reads_back::<T>(items[0], dc));
        assert(T::spec_decode(T::spec_encode(items[0]) + (tail + t), dc) == gave::<T::V>(
            items[0],
            tail + t,
        ));
        assert forall|k: int| 0 <= k < rest.len() implies reads_back::<T>(#[trigger] rest[k], dc) by {
            assert(rest[k] == items[k + 1]);
        }
        lemma_items_read_back::<T>(rest, dc, t);
        assert(seq![items[0]] + rest =~= items);
    }
}

/// A vector of fewer than two to the power of 32 values that are each
/// read back is read back.
pub proof fn lemma_vec_reads_back<T: Decode + Encode>(items: Seq<T::V>, dc: DataCountSeg, t: Seq<u8>)
    requires
        items.len() < 0x1_0000_0000,
        forall|k: int| 0 <= k < items.len() ==> reads_back::<T>(#[trigger] items[k], dc),
    ensures
        spec_decodes::<T>(spec_encode_vec::<T>(items, false) + t, dc) == gave(items, t),
{
    let count = spec_encode_unsigned(items.len());
    let body = spec_encode_items::<T>(items, items.len() as int);
    lemma_leb_u32_reads_back(items.len() as u32, body + t);
    assert(spec_encode_vec::<T>(items, false) + t =~= count + (body + t));
    lemma_items_read_back::<T>(items, dc, t);
}

pub proof fn lemma_u32_item_reads_back(v: u32, dc: DataCountSeg)
    ensures
        reads_back::<u32>(v, dc),
{
    assert forall|t: Seq<u8>| #[trigger]
        u32::spec_decode(u32::spec_encode(v) + t, dc) == gave::<u32>(v, t) by {
        lemma_leb_u32_reads_back(v, t);
    }
}

pub proof fn lemma_val_type_item_reads_back(v: ValType, dc: DataCountSeg)
    ensures
        reads_back::<ValType>(v, dc),
{
    assert forall|t: Seq<u8>| #[trigger]
        ValType::spec_decode(ValType::spec_encode(v) + t, dc) == gave::<ValType>(v, t) by {
        lemma_val_type_reads_back(v, t);
    }
}

pub proof fn lemma_func_type_reads_back(v: FuncTypeView, dc: DataCountSeg)
    requires
        v.params.len() < 0x1_0000_0000,
        v.results.len() < 0x1_0000_0000,
    ensures
        reads_back::<FuncType>(v, dc),
{
    assert forall|t: Seq<u8>| #[trigger]
        FuncType::spec_decode(FuncType::spec_encode(v) + t, dc) == gave::<FuncTypeView>(v, t) by {
        let p = spec_encode_vec::<ValType>(v.params, false);
        let r = spec_encode_vec::<ValType>(v.results, false);
        assert(FuncType::spec_encode(v) + t =~= seq![0x60u8] + (p + (r + t)));
        lemma_byte_reads_back(0x60u8, p + (r + t));
        assert forall|k: int| 0 <= k < v.params.len() implies reads_back::<ValType>(
            #[trigger] v.params[k],
            dc,
        ) by {
            lemma_val_type_item_reads_back(v.params[k], dc);
        }
        assert forall|k: int| 0 <= k < v.results.len() implies reads_back::<ValType>(
            #[trigger] v.results[k],
            dc,
        ) by {
            lemma_val_type_item_reads_back(v.results[k], dc);
        }
        lemma_vec_reads_back::<ValType>(v.params, dc, r + t);
        lemma_vec_reads_back::<ValType>(v.results, dc, t);
    }
}

pub proof fn lemma_limits_item_reads_back(v: Limits, dc: DataCountSeg)
    ensures
        reads_back::<Limits>(v, dc),
{
    assert forall|t: Seq<u8>| #[trigger]
        Limits::spec_decode(Limits::spec_encode(v) + t, dc) == gave::<Limits>(v, t) by {
        lemma_limits_read_back(v, t);
    }
}

pub proof fn lemma_table_type_item_reads_back(v: TableType, dc: DataCountSeg)
    ensures
        reads_back::<TableType>(v, dc),
{
    assert forall|t: Seq<u8>| #[trigger]
        TableType::spec_decode(TableType::spec_encode(v) + t, dc) == gave::<TableType>(v, t) by {
        lemma_table_type_reads_back(v, t);
    }
}

} // verus!
