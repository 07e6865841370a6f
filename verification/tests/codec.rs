use parttab::codec::{
    get_hex, pack_int, pack_long_long, parse_guid, unpack_int, unpack_long_long,
};
use parttab::DecodeError;

#[test]
fn get_hex_two_digits_per_byte() {
    assert_eq!(get_hex(&[0x00, 0x0a, 0xff]).as_str(), "000aff");
    assert_eq!(get_hex(&[0x7b]).as_str(), "7b");
}

#[test]
fn get_hex_empty_input() {
    assert_eq!(get_hex(&[]).as_str(), "");
}

#[test]
fn parse_guid_raw_byte_order() {
    let bytes: Vec<u8> = (0x00..0x10).collect();
    let text = parse_guid(&bytes).unwrap();
    assert_eq!(text.as_str(), "00010203-0405-0607-0809-0a0b0c0d0e0f");
}

#[test]
fn parse_guid_shape() {
    let bytes: [u8; 16] = [
        0xde, 0xad, 0xbe, 0xef, 0x01, 0x23, 0x45, 0x67, 0x89, 0xab, 0xcd, 0xef, 0xf0, 0x0d,
        0xca, 0xfe,
    ];
    let text = parse_guid(&bytes).unwrap();
    assert_eq!(text.len(), 36);
    for (i, c) in text.chars().enumerate() {
        if i == 8 || i == 13 || i == 18 || i == 23 {
            assert_eq!(c, '-');
        } else {
            assert!(c.is_ascii_hexdigit() && !c.is_ascii_uppercase());
        }
    }
}

#[test]
fn parse_guid_wrong_length() {
    assert_eq!(parse_guid(&[0u8; 15]), Err(DecodeError::Length));
    assert_eq!(parse_guid(&[0u8; 17]), Err(DecodeError::Length));
    assert_eq!(parse_guid(&[]), Err(DecodeError::Length));
}

#[test]
fn unpack_int_big_endian() {
    assert_eq!(unpack_int(&[0x12, 0x34, 0x56, 0x78]), Ok(0x12345678));
    assert_eq!(unpack_int(&[0x00, 0x00, 0x00, 0x00]), Ok(0));
    assert_eq!(unpack_int(&[0xff, 0xff, 0xff, 0xff]), Ok(u32::MAX));
}

#[test]
fn unpack_int_uses_first_four_bytes() {
    assert_eq!(unpack_int(&[0x12, 0x34, 0x56, 0x78, 0xff, 0xff]), Ok(0x12345678));
}

#[test]
fn unpack_int_short_input() {
    assert_eq!(unpack_int(&[0x12, 0x34, 0x56]), Err(DecodeError::Length));
    assert_eq!(unpack_int(&[]), Err(DecodeError::Length));
}

#[test]
fn unpack_long_long_big_endian() {
    assert_eq!(
        unpack_long_long(&[0x01, 0x02, 0x03, 0x04, 0x05, 0x06, 0x07, 0x08]),
        Ok(0x0102030405060708)
    );
    assert_eq!(unpack_long_long(&[0xff; 8]), Ok(u64::MAX));
}

#[test]
fn unpack_long_long_short_input() {
    assert_eq!(unpack_long_long(&[0x01; 7]), Err(DecodeError::Length));
}

#[test]
fn pack_int_bytes() {
    assert_eq!(pack_int(0x12345678), vec![0x12, 0x34, 0x56, 0x78]);
    assert_eq!(pack_long_long(0x0102030405060708), vec![1, 2, 3, 4, 5, 6, 7, 8]);
}

#[test]
fn pack_then_unpack_round_trip_u32() {
    for v in [0u32, 1, 0x80, 0xDEADBEEF, u32::MAX] {
        assert_eq!(unpack_int(&pack_int(v)), Ok(v));
    }
}

#[test]
fn pack_then_unpack_round_trip_u64() {
    for v in [0u64, 1, 0x8000000000000000, 0x0123456789abcdef, u64::MAX] {
        assert_eq!(unpack_long_long(&pack_long_long(v)), Ok(v));
    }
}
