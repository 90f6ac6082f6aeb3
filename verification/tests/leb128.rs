use wasm::binary::errors::DecodeErr;
use wasm::binary::leb128::{
    decode_signed, decode_unsigned, decode_unsigned_of, encode_name, encode_signed, encode_u32,
    encode_unsigned, encode_usize,
};

#[test]
fn test_decode_uint() {
    let data: &[u8] = &[
        0b1_0111111,
        0b1_0011111,
        0b1_0001111,
        0b1_0000111,
        0b1_0000011,
        0b0_0000001,
    ];
    let (num, size) = decode_unsigned(&data[5..]).unwrap();
    assert_eq!(num, 0b0000001);
    assert_eq!(size, 1);

    let (num, size) = decode_unsigned(&data[4..]).unwrap();
    assert_eq!(num, 0b1_0000011);
    assert_eq!(size, 2);

    let (num, size) = decode_unsigned(&data[3..]).unwrap();
    assert_eq!(num, 0b1_0000011_0000111);
    assert_eq!(size, 3);

    let (num, size) = decode_unsigned(&data[2..]).unwrap();
    assert_eq!(num, 0b1_0000011_0000111_0001111);
    assert_eq!(size, 4);

    let (num, size) = decode_unsigned(&data[1..]).unwrap();
    assert_eq!(num, 0b1_0000011_0000111_0001111_0011111);
    assert_eq!(size, 5);
}

#[test]
fn test_decode_int() {
    let (num, size) = decode_signed(&[0xc0, 0xbb, 0x78], 32).unwrap();

    assert_eq!(num, -123456);
    assert_eq!(size, 3);
}

#[test]
fn test_encode_unsigned() {
    let data: u64 = 624485;
    let e = encode_unsigned(data);
    let d = decode_unsigned(&e).unwrap();

    assert_eq!(data as u64, d.0);
}

#[test]
fn test_encode_signed() {
    let datas: Vec<i64> = vec![624485, -123456, 1048576, 0];

    for data in datas {
        let e = encode_signed(data);
        let d = decode_signed(&e, 64).unwrap();

        assert_eq!(data, d.0);
    }
}

#[test]
fn unsigned_encoding_is_exact() {
    assert_eq!(encode_unsigned(0), vec![0x00]);
    assert_eq!(encode_unsigned(127), vec![0x7f]);
    assert_eq!(encode_unsigned(128), vec![0x80, 0x01]);
    assert_eq!(encode_unsigned(624485), vec![0xe5, 0x8e, 0x26]);
    assert_eq!(encode_u32(u32::MAX), vec![0xff, 0xff, 0xff, 0xff, 0x0f]);
    assert_eq!(encode_usize(300), vec![0xac, 0x02]);
}

#[test]
fn signed_encoding_is_exact() {
    assert_eq!(encode_signed(0), vec![0x00]);
    assert_eq!(encode_signed(-1), vec![0x7f]);
    assert_eq!(encode_signed(63), vec![0x3f]);
    assert_eq!(encode_signed(64), vec![0xc0, 0x00]);
    assert_eq!(encode_signed(-64), vec![0x40]);
    assert_eq!(encode_signed(-65), vec![0xbf, 0x7f]);
    assert_eq!(encode_signed(-123456), vec![0xc0, 0xbb, 0x78]);
}

#[test]
fn unsigned_round_trip_on_boundaries() {
    for n in [0u64, 1, 127, 128, 16383, 16384, 0x0fff_ffff, 0x1000_0000, 0xffff_ffff] {
        let e = encode_unsigned(n);
        assert_eq!(decode_unsigned(&e), Ok((n, e.len())));
    }
}

#[test]
fn signed_round_trip_on_boundaries() {
    for n in [0i64, -1, 63, 64, -64, -65, i32::MAX as i64, i32::MIN as i64] {
        let e = encode_signed(n);
        assert_eq!(decode_signed(&e, 32), Ok((n, e.len())));
        assert_eq!(decode_signed(&e, 64), Ok((n, e.len())));
    }
    for n in [i64::MAX, i64::MIN, 1 << 40, -(1 << 40)] {
        let e = encode_signed(n);
        assert_eq!(decode_signed(&e, 64), Ok((n, e.len())));
    }
}

#[test]
fn trailing_bytes_are_left_alone() {
    assert_eq!(decode_unsigned(&[0x05, 0xff, 0xff]), Ok((5, 1)));
    assert_eq!(decode_signed(&[0x7f, 0x80], 32), Ok((-1, 1)));
}

#[test]
fn unsigned_rejects_malformed_input() {
    assert_eq!(decode_unsigned(&[]), Err(DecodeErr::LEBUnexpectedEnd));
    assert_eq!(decode_unsigned(&[0x80, 0x80]), Err(DecodeErr::LEBUnexpectedEnd));
    assert_eq!(
        decode_unsigned(&[0x80, 0x80, 0x80, 0x80, 0x80, 0x00]),
        Err(DecodeErr::LEBDecodeTooLong)
    );
    assert_eq!(decode_unsigned(&[0xff, 0xff, 0xff, 0xff, 0x10]), Err(DecodeErr::IntTooLarge));
    assert_eq!(decode_unsigned(&[0xff, 0xff, 0xff, 0xff, 0x0f]), Ok((0xffff_ffff, 5)));
}

#[test]
fn signed_rejects_malformed_input() {
    assert_eq!(decode_signed(&[], 32), Err(DecodeErr::LEBUnexpectedEnd));
    assert_eq!(decode_signed(&[0xff], 64), Err(DecodeErr::LEBUnexpectedEnd));
    assert_eq!(
        decode_signed(&[0x80, 0x80, 0x80, 0x80, 0x80, 0x00], 32),
        Err(DecodeErr::LEBDecodeTooLong)
    );
    assert_eq!(decode_signed(&[0xff, 0xff, 0xff, 0xff, 0x0f], 32), Err(DecodeErr::IntTooLarge));
    assert_eq!(decode_signed(&[0xff, 0xff, 0xff, 0xff, 0x4f], 32), Err(DecodeErr::IntTooLarge));
    assert_eq!(decode_signed(&[0xff, 0xff, 0xff, 0xff, 0x07], 32), Ok((i32::MAX as i64, 5)));
    assert_eq!(decode_signed(&[0x80, 0x80, 0x80, 0x80, 0x78], 32), Ok((i32::MIN as i64, 5)));
    assert_eq!(
        decode_signed(&[0x80, 0x80, 0x80, 0x80, 0x80, 0x80, 0x80, 0x80, 0x80, 0x01], 64),
        Err(DecodeErr::IntTooLarge)
    );
    assert_eq!(
        decode_signed(&[0x80, 0x80, 0x80, 0x80, 0x80, 0x80, 0x80, 0x80, 0x80, 0x7f], 64),
        Ok((i64::MIN, 10))
    );
}

#[test]
fn five_byte_negative_is_sign_extended() {
    assert_eq!(decode_signed(&[0xff, 0xff, 0xff, 0xff, 0x7f], 32), Ok((-1, 5)));
}

#[test]
fn name_is_length_then_bytes() {
    assert_eq!(encode_name("add"), vec![3, b'a', b'd', b'd']);
    assert_eq!(encode_name(""), vec![0]);
    assert_eq!(encode_name("é"), vec![2, 0xc3, 0xa9]);
}

#[test]
fn unsigned_numbers_of_64_bits_take_up_to_ten_groups() {
    for n in [0u64, 127, 128, u32::MAX as u64, 1 << 32, (1 << 32) + 5, 1 << 56, 1 << 63, u64::MAX] {
        let e = encode_unsigned(n);
        assert_eq!(decode_unsigned_of(&e, 64), Ok((n, e.len())), "{n}");
        let mut followed = e.clone();
        followed.extend_from_slice(&[0xff, 0x00]);
        assert_eq!(decode_unsigned_of(&followed, 64), Ok((n, e.len())), "{n}");
    }
    assert_eq!(encode_unsigned(u64::MAX).len(), 10);
    assert_eq!(encode_unsigned(1 << 32), vec![0x80, 0x80, 0x80, 0x80, 0x10]);
    // the fifth group of a 32-bit number holds four bits, the tenth of a 64-bit number one
    assert_eq!(decode_unsigned_of(&[0x80, 0x80, 0x80, 0x80, 0x10], 32), Err(DecodeErr::IntTooLarge));
    assert_eq!(decode_unsigned_of(&[0x80, 0x80, 0x80, 0x80, 0x10], 64), Ok((1 << 32, 5)));
    let nine = [0x80u8; 9];
    let mut ten = nine.to_vec();
    ten.push(0x01);
    assert_eq!(decode_unsigned_of(&ten, 64), Ok((1 << 63, 10)));
    *ten.last_mut().unwrap() = 0x02;
    assert_eq!(decode_unsigned_of(&ten, 64), Err(DecodeErr::IntTooLarge));
    *ten.last_mut().unwrap() = 0x80;
    ten.push(0x00);
    assert_eq!(decode_unsigned_of(&ten, 64), Err(DecodeErr::LEBDecodeTooLong));
    assert_eq!(decode_unsigned_of(&nine, 64), Err(DecodeErr::LEBUnexpectedEnd));
    assert_eq!(decode_unsigned_of(&[0xff, 0xff, 0xff, 0xff, 0x0f], 32), Ok((0xffff_ffff, 5)));
}
