use class_parser::reader::ByteCursor;
use class_parser::DeserializationError;

#[test]
fn reads_one_byte_and_moves_on() {
    let data = [0x7f, 0x80];
    let mut cursor = ByteCursor::new(&data);
    assert_eq!(cursor.consumed(), 0);
    assert_eq!(cursor.read_u8(), Ok(0x7f));
    assert_eq!(cursor.consumed(), 1);
    assert_eq!(cursor.read_u8(), Ok(0x80));
    assert_eq!(cursor.consumed(), 2);
    assert_eq!(cursor.read_u8(), Err(DeserializationError::CannotRead));
}

#[test]
fn reads_u16_most_significant_byte_first() {
    let data = [0x12, 0x34, 0xff, 0xfe, 0x00];
    let mut cursor = ByteCursor::new(&data);
    assert_eq!(cursor.read_u16(), Ok(0x1234));
    assert_eq!(cursor.read_u16(), Ok(0xfffe));
    assert_eq!(cursor.consumed(), 4);
    assert_eq!(cursor.read_u16(), Err(DeserializationError::CannotRead));
}

#[test]
fn reads_u32_most_significant_byte_first() {
    let data = [0xCA, 0xFE, 0xBA, 0xBE, 0x00, 0x00, 0x01, 0x00, 0x01, 0x02, 0x03];
    let mut cursor = ByteCursor::new(&data);
    assert_eq!(cursor.read_u32(), Ok(0xCAFEBABE));
    assert_eq!(cursor.read_u32(), Ok(256));
    assert_eq!(cursor.read_u32(), Err(DeserializationError::CannotRead));
}

#[test]
fn reads_u64_most_significant_byte_first() {
    let data = [0x01, 0x02, 0x03, 0x04, 0x05, 0x06, 0x07, 0x08, 0xff];
    let mut cursor = ByteCursor::new(&data);
    assert_eq!(cursor.read_u64(), Ok(0x0102030405060708));
    assert_eq!(cursor.consumed(), 8);
    assert_eq!(cursor.read_u64(), Err(DeserializationError::CannotRead));
}

#[test]
fn reads_i32_in_twos_complement() {
    let data = [
        0xff, 0xff, 0xff, 0xff, 0x80, 0x00, 0x00, 0x00, 0x7f, 0xff, 0xff, 0xff, 0x00, 0x00, 0x00,
        0x2a,
    ];
    let mut cursor = ByteCursor::new(&data);
    assert_eq!(cursor.read_i32(), Ok(-1));
    assert_eq!(cursor.read_i32(), Ok(i32::MIN));
    assert_eq!(cursor.read_i32(), Ok(i32::MAX));
    assert_eq!(cursor.read_i32(), Ok(42));
    assert_eq!(cursor.read_i32(), Err(DeserializationError::CannotRead));
}

#[test]
fn reads_i64_in_twos_complement() {
    let data = [
        0xff, 0xff, 0xff, 0xff, 0xff, 0xff, 0xff, 0xfe, 0x80, 0, 0, 0, 0, 0, 0, 0, 0, 0, 0, 0x01, 0,
        0, 0, 0, 0x12,
    ];
    let mut cursor = ByteCursor::new(&data);
    assert_eq!(cursor.read_i64(), Ok(-2));
    assert_eq!(cursor.read_i64(), Ok(i64::MIN));
    assert_eq!(cursor.read_i64(), Ok(0x0000_0001_0000_0000));
    assert_eq!(cursor.read_i64(), Err(DeserializationError::CannotRead));
}

#[test]
fn reads_the_bits_of_floats() {
    let mut data = Vec::new();
    data.extend_from_slice(&1.5f32.to_be_bytes());
    data.extend_from_slice(&(-0.25f64).to_be_bytes());
    data.extend_from_slice(&[0x7f, 0xc0, 0x00]);
    let mut cursor = ByteCursor::new(&data);
    let single = cursor.read_f32().unwrap();
    assert_eq!(single, 0x3fc0_0000);
    assert_eq!(f32::from_bits(single), 1.5f32);
    let double = cursor.read_f64().unwrap();
    assert_eq!(double, 0xbfd0_0000_0000_0000);
    assert_eq!(f64::from_bits(double), -0.25f64);
    assert_eq!(cursor.read_f32(), Err(DeserializationError::CannotRead));
}

#[test]
fn reads_exactly_the_bytes_asked_for() {
    let data = [1, 2, 3, 4, 5];
    let mut cursor = ByteCursor::new(&data);
    assert_eq!(cursor.read_exact(0), Ok(vec![]));
    assert_eq!(cursor.read_exact(2), Ok(vec![1, 2]));
    assert_eq!(cursor.read_exact(4), Err(DeserializationError::CannotRead));
    assert_eq!(cursor.read_exact(3), Ok(vec![3, 4, 5]));
    assert_eq!(cursor.read_exact(0), Ok(vec![]));
    assert_eq!(cursor.read_exact(1), Err(DeserializationError::CannotRead));
    assert_eq!(cursor.read_exact(usize::MAX), Err(DeserializationError::CannotRead));
}

#[test]
fn skips_exactly_the_bytes_asked_for() {
    let data = [1, 2, 3, 4, 5];
    let mut cursor = ByteCursor::new(&data);
    assert_eq!(cursor.skip(3), Ok(()));
    assert_eq!(cursor.consumed(), 3);
    assert_eq!(cursor.read_u8(), Ok(4));
    assert_eq!(cursor.skip(2), Err(DeserializationError::CannotRead));
    assert_eq!(cursor.skip(1), Ok(()));
    assert_eq!(cursor.skip(0), Ok(()));
    assert_eq!(cursor.consumed(), 5);
}

#[test]
fn reads_a_length_prefixed_text() {
    let data = [0x00, 0x05, b'h', b'e', b'l', b'l', b'o', 0x00, 0x00, 0x00, 0x03, 0xe2, 0x82, 0xac];
    let mut cursor = ByteCursor::new(&data);
    assert_eq!(cursor.read_utf8().unwrap().as_str(), "hello");
    assert_eq!(cursor.consumed(), 7);
    assert_eq!(cursor.read_utf8().unwrap().as_str(), "");
    assert_eq!(cursor.read_utf8().unwrap().as_str(), "\u{20ac}");
    assert_eq!(cursor.consumed(), 14);
    assert_eq!(cursor.read_utf8(), Err(DeserializationError::CannotRead));
}

#[test]
fn short_text_cannot_be_read() {
    let data = [0x00, 0x05, b'h', b'e', b'l', b'l'];
    let mut cursor = ByteCursor::new(&data);
    assert_eq!(cursor.read_utf8(), Err(DeserializationError::CannotRead));
    let data = [0x00];
    let mut cursor = ByteCursor::new(&data);
    assert_eq!(cursor.read_utf8(), Err(DeserializationError::CannotRead));
}

#[test]
fn text_that_is_not_utf8_is_an_encoding_error() {
    let data = [0x00, 0x02, 0xff, 0xfe];
    let mut cursor = ByteCursor::new(&data);
    assert!(matches!(cursor.read_utf8(), Err(DeserializationError::Encoding(_))));
    let data = [0x00, 0x01, 0x80];
    let mut cursor = ByteCursor::new(&data);
    assert!(matches!(cursor.read_utf8(), Err(DeserializationError::Encoding(_))));
}

#[test]
fn an_encoding_error_tells_where_the_text_goes_wrong() {
    let data = [0x00, 0x04, b'a', b'b', 0xff, b'c'];
    let mut cursor = ByteCursor::new(&data);
    match cursor.read_utf8() {
        Err(DeserializationError::Encoding(e)) => {
            assert_eq!(e.utf8_error().valid_up_to(), 2);
            assert_eq!(e.as_bytes(), &[b'a', b'b', 0xff, b'c']);
        }
        other => panic!("unexpected outcome {:?}", other),
    }
}

#[test]
fn the_two_byte_null_of_the_variant_encoding_is_rejected() {
    let data = [0x00, 0x03, b'a', 0xc0, 0x80];
    let mut cursor = ByteCursor::new(&data);
    assert!(matches!(cursor.read_utf8(), Err(DeserializationError::Encoding(_))));
}

#[test]
fn a_surrogate_pair_of_the_variant_encoding_is_rejected() {
    let data = [0x00, 0x06, 0xed, 0xa0, 0xbd, 0xed, 0xb8, 0x80];
    let mut cursor = ByteCursor::new(&data);
    assert!(matches!(cursor.read_utf8(), Err(DeserializationError::Encoding(_))));
}
