use wasm::binary::errors::DecodeErr;
use wasm::binary::reader::Reader;
use wasm::execution::value::v128;

#[test]
fn fixed_size_reads_advance_the_cursor() {
    let data = [0x2a, 0x78, 0x56, 0x34, 0x12, 0xff];
    let mut reader = Reader::new(&data, None);
    assert_eq!(reader.not_end(), Ok(true));
    assert_eq!(reader.get_u8(), Ok(0x2a));
    assert_eq!(reader.get_u32(), Ok(0x12345678));
    assert_eq!(reader.len(), 1);
    assert_eq!(reader.remain(), Ok(vec![0xff]));
    assert_eq!(reader.not_end(), Ok(false));
    assert_eq!(reader.get_u8(), Err(DecodeErr::UnexpectedEof));
}

#[test]
fn reads_past_the_end_are_errors() {
    let data = [1, 2, 3];
    assert_eq!(Reader::new(&data, None).get_u32(), Err(DecodeErr::UnexpectedEof));
    assert_eq!(Reader::new(&data, None).bytes(4), Err(DecodeErr::UnexpectedEof));
    assert_eq!(Reader::new(&data, None).byte_16(), Err(DecodeErr::UnexpectedEof));
    assert_eq!(Reader::new(&data, None).get_f64(), Err(DecodeErr::UnexpectedEof));
    assert_eq!(Reader::new(&data, None).get_v128(), Err(DecodeErr::UnexpectedEof));
    assert_eq!(Reader::new(&data, None).bytes(3), Ok(vec![1, 2, 3]));
    assert_eq!(Reader::new(&data, None).bytes(0), Ok(vec![]));
}

#[test]
fn floats_are_read_as_bits() {
    let one = 1.0f32.to_le_bytes();
    assert_eq!(Reader::new(&one, None).get_f32(), Ok(1.0f32.to_bits()));
    let pi = std::f64::consts::PI.to_le_bytes();
    assert_eq!(Reader::new(&pi, None).get_f64(), Ok(std::f64::consts::PI.to_bits()));
}

#[test]
fn leb_reads_consume_only_the_number() {
    let data = [0xe5, 0x8e, 0x26, 0x7f, 0xc0, 0xbb, 0x78, 0x01];
    let mut reader = Reader::new(&data, Some(3));
    assert_eq!(reader.data_count(), Some(3));
    assert_eq!(reader.get_leb_u32(), Ok(624485));
    assert_eq!(reader.get_leb_i32(), Ok(-1));
    assert_eq!(reader.get_leb_i64(), Ok(-123456));
    assert_eq!(reader.get_leb_u64(), Ok(1));
    assert_eq!(reader.get_leb_u32(), Err(DecodeErr::LEBUnexpectedEnd));
}

#[test]
fn sequences_are_length_prefixed() {
    let data = [0x03, 0x0a, 0x0b, 0x0c, 0x02, 0x01];
    let mut reader = Reader::new(&data, None);
    assert_eq!(reader.seqs(), Ok(vec![0x0a, 0x0b, 0x0c]));
    assert_eq!(reader.seqs(), Err(DecodeErr::UnexpectedEof));
}

#[test]
fn names_must_be_utf8() {
    let good = [0x05, b'h', b'e', b'l', b'l', b'o'];
    assert_eq!(Reader::new(&good, None).get_name(), Ok("hello".to_string()));
    let accented = [0x02, 0xc3, 0xa9];
    assert_eq!(Reader::new(&accented, None).get_name(), Ok("é".to_string()));
    let bad = [0x02, 0xc3, 0x28];
    assert_eq!(Reader::new(&bad, None).get_name(), Err(DecodeErr::InvalidUtf8));
    let empty = [0x00];
    assert_eq!(Reader::new(&empty, None).get_name(), Ok(String::new()));
}

#[test]
fn a_vector_is_four_lanes_in_memory_order() {
    let bytes: [u8; 16] = [1, 0, 0, 0, 0xff, 0xff, 0xff, 0xff, 0, 0, 0, 0x80, 0x78, 0x56, 0x34, 0x12];
    assert_eq!(Reader::new(&bytes, None).get_v128(), Ok(v128(1, -1, i32::MIN, 0x12345678)));
    assert_eq!(v128::new(bytes).to_bytes(), bytes.to_vec());
    assert!(v128::new([0; 16]).all_zero());
    assert!(!v128::new(bytes).all_zero());
}

#[test]
fn a_64_bit_number_is_read_back_whatever_its_size() {
    for n in [0u64, 1 << 31, 1 << 32, 0x1234_5678_9abc_def0, u64::MAX] {
        let bytes = wasm::binary::leb128::encode_unsigned(n);
        let mut reader = Reader::new(&bytes, None);
        assert_eq!(reader.get_leb_u64(), Ok(n));
        assert_eq!(reader.not_end(), Ok(false));
        let mut reader = Reader::new(&bytes, None);
        if n > u32::MAX as u64 {
            assert!(reader.get_leb_u32().is_err());
        } else {
            assert_eq!(reader.get_leb_u32(), Ok(n as u32));
        }
    }
}
