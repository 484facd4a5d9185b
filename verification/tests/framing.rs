use inputshare::framing::{read_string, read_u16, write_string, write_u16, FramingError};

#[test]
fn u16_is_big_endian() {
    let mut out = vec![9];
    write_u16(&mut out, 0x1234);
    assert_eq!(out, vec![9, 0x12, 0x34]);
    assert_eq!(read_u16(&out, 1), Ok((0x1234, 3)));
    assert_eq!(read_u16(&out, 2), Err(FramingError::UnexpectedEof));
}

#[test]
fn string_round_trip() {
    let mut out = Vec::new();
    assert_eq!(write_string(&mut out, "Ok"), Ok(()));
    assert_eq!(out, vec![0, 2, b'O', b'k']);
    write_string(&mut out, "größe").unwrap();
    let (first, next) = read_string(&out, 0, 50).unwrap();
    assert_eq!(first, "Ok");
    let (second, end) = read_string(&out, next, 50).unwrap();
    assert_eq!(second, "größe");
    assert_eq!(end, out.len());
}

#[test]
fn too_long_string_writes_nothing() {
    let long = "x".repeat(70000);
    let mut out = vec![1, 2];
    assert_eq!(write_string(&mut out, &long), Err(FramingError::TooLong));
    assert_eq!(out, vec![1, 2]);
}

#[test]
fn short_input_ends_early() {
    assert_eq!(read_string(&[0], 0, 10), Err(FramingError::UnexpectedEof));
    assert_eq!(read_string(&[0, 3, b'a'], 0, 10), Err(FramingError::UnexpectedEof));
}

#[test]
fn invalid_utf8_is_replaced() {
    let (s, end) = read_string(&[0, 3, b'a', 0xff, b'b'], 0, 10).unwrap();
    assert_eq!(s, "a\u{fffd}b");
    assert_eq!(end, 5);
}
