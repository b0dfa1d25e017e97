use exif_reader::cursor::{Cursor, Endianness};
use exif_reader::error::ParseError;

const DATA: &[u8] = &[0xDE, 0xAD, 0xCA, 0xFE];

#[test]
fn test_len() {
    let stream = Cursor::new(DATA, Endianness::Big);
    assert_eq!(stream.len(), 4);
}

#[test]
fn test_read_u8() {
    let mut stream = Cursor::new(DATA, Endianness::Big);
    assert_eq!(stream.read_num_or_fail::<u8>(), Ok(0xDE));
    assert_eq!(stream.read_num_or_fail::<u8>(), Ok(0xAD));
    assert_eq!(stream.read_num_or_fail::<u8>(), Ok(0xCA));
    assert_eq!(stream.read_num_or_fail::<u8>(), Ok(0xFE));
    assert_eq!(stream.read_num_or_fail::<u8>(), Err(ParseError::UnexpectedEOF));
}

#[test]
fn test_read_u16_big_endian() {
    let data = &[0xFD, 0xE8];
    let mut stream = Cursor::new(data, Endianness::Big);
    assert_eq!(stream.read_num_or_fail::<u16>(), Ok(65000));
    assert_eq!(stream.read_num_or_fail::<u16>(), Err(ParseError::UnexpectedEOF));
}

#[test]
fn test_read_u16_little_endian() {
    let data = &[0xE8, 0xFD];
    let mut stream = Cursor::new(data, Endianness::Little);
    assert_eq!(stream.read_num_or_fail::<u16>(), Ok(65000));
    assert_eq!(stream.read_num_or_fail::<u16>(), Err(ParseError::UnexpectedEOF));
}

#[test]
fn test_read_u16_switch_endianness() {
    let mut stream = Cursor::new(DATA, Endianness::Big);
    assert_eq!(stream.read_num_or_fail::<u16>(), Ok(0xDEAD));
    let mut stream = stream.with_endianness(Endianness::Little);
    assert_eq!(stream.read_num_or_fail::<u16>(), Ok(0xFECA));
}

#[test]
fn test_read_u32_big_endian() {
    let mut stream = Cursor::new(DATA, Endianness::Big);
    assert_eq!(stream.read_num_or_fail::<u32>(), Ok(0xDEADCAFE));
    assert_eq!(stream.read_num_or_fail::<u32>(), Err(ParseError::UnexpectedEOF));
}

#[test]
fn test_read_u32_little_endian() {
    let mut stream = Cursor::new(DATA, Endianness::Little);
    assert_eq!(stream.read_num_or_fail::<u32>(), Ok(0xFECAADDE));
    assert_eq!(stream.read_num_or_fail::<u32>(), Err(ParseError::UnexpectedEOF));
}

#[test]
fn test_read_f32_little_endian() {
    let data = &[0xD8, 0xF, 0x49, 0x40];
    let mut stream = Cursor::new(data, Endianness::Little);
    let bits = stream.read_num_or_fail::<u32>().expect("four bytes should be readable");
    assert_eq!(f32::from_bits(bits), 3.141592);
    assert_eq!(stream.read_num_or_fail::<u32>(), Err(ParseError::UnexpectedEOF));
}

#[test]
fn test_read_f32_big_endian() {
    let data = &[0x40, 0x49, 0xF, 0xD8];
    let mut stream = Cursor::new(data, Endianness::Big);
    let bits = stream.read_num_or_fail::<u32>().expect("four bytes should be readable");
    assert_eq!(f32::from_bits(bits), 3.141592);
    assert_eq!(stream.read_num_or_fail::<u32>(), Err(ParseError::UnexpectedEOF));
}

#[test]
fn test_read_f64_little_endian() {
    let data = &[0xEA, 0x2E, 0x44, 0x54, 0xFB, 0x21, 0x9, 0x40];
    let mut stream = Cursor::new(data, Endianness::Little);
    let bits = stream.read_num_or_fail::<u64>().expect("eight bytes should be readable");
    assert_eq!(f64::from_bits(bits), 3.14159265359);
    assert_eq!(stream.read_num_or_fail::<u64>(), Err(ParseError::UnexpectedEOF));
}

#[test]
fn test_read_f64_big_endian() {
    let data = &[0x40, 0x9, 0x21, 0xFB, 0x54, 0x44, 0x2E, 0xEA];
    let mut stream = Cursor::new(data, Endianness::Big);
    let bits = stream.read_num_or_fail::<u64>().expect("eight bytes should be readable");
    assert_eq!(f64::from_bits(bits), 3.14159265359);
    assert_eq!(stream.read_num_or_fail::<u64>(), Err(ParseError::UnexpectedEOF));
}

#[test]
fn test_read_str() {
    let data = &[0x68, 0x65, 0x6C, 0x6C, 0x6F];
    let mut stream = Cursor::new(data, Endianness::Little);
    assert_eq!(stream.read_str(5), Some("hello"));
    assert_eq!(stream.read_str(1), None);
}

#[test]
fn test_with_max_len() {
    let mut stream = Cursor::new(DATA, Endianness::Big);
    let mut truncated_stream = stream.with_max_len(2);
    let result = Ok(0xDEAD);

    assert_eq!(stream.read_num_or_fail::<u16>(), result);
    assert_eq!(truncated_stream.read_num_or_fail::<u16>(), result);

    assert!(stream.read_num_or_fail::<u16>().is_ok());
    assert!(truncated_stream.read_num_or_fail::<u16>().is_err());
}

#[test]
fn test_with_max_len_check() {
    let stream = Cursor::new(DATA, Endianness::Big);
    assert_eq!(stream.with_max_len(5).len(), 4);
}

#[test]
fn test_skip() {
    let mut stream = Cursor::new(DATA, Endianness::Big);
    stream = stream.with_skip_or_fail(2).expect("EOF");
    assert_eq!(stream.read_num_or_fail::<u16>(), Ok(0xCAFE));
    assert_eq!(stream.read_num_or_fail::<u16>(), Err(ParseError::UnexpectedEOF));
}

#[test]
fn test_read_bytes() {
    let mut cursor = Cursor::new(b"\0\x10\x20\x30", Endianness::Big);
    assert_eq!(cursor.read_bytes(2), Some(&b"\0\x10"[0..2]));
    assert_eq!(cursor.read_bytes(2), Some(&b"\x20\x30"[0..2]));
    assert_eq!(cursor.read_bytes(1), None);
}

#[test]
fn test_read_str_rejects_malformed_text() {
    // A lone continuation byte is not valid UTF-8: the text is treated as
    // missing and the cursor does not move.
    let data = &[0xFF, 0xFE, 0x41];
    let mut stream = Cursor::new(data, Endianness::Big);
    assert_eq!(stream.read_str(2), None);
    assert_eq!(stream.read_str_or_fail(2), Err(ParseError::UnexpectedEOF));
    assert_eq!(stream.len(), 3);
}

#[test]
fn test_offset_tracks_reads() {
    let base = Cursor::new(DATA, Endianness::Big);
    let mut stream = base;
    stream.read_num_or_fail::<u16>().expect("two bytes should be readable");
    assert_eq!(stream.offset_from(&base), 2);
    stream.read_num_or_fail::<u8>().expect("one byte should be readable");
    assert_eq!(stream.offset_from(&base), 3);
    assert_eq!(stream.len(), 1);
}

#[test]
fn test_signed_reads() {
    let data = &[0xFF, 0xFE, 0xFF, 0xFF, 0xFF, 0xFD];
    let mut stream = Cursor::new(data, Endianness::Big);
    assert_eq!(stream.read_num_or_fail::<i16>(), Ok(-2));
    assert_eq!(stream.read_num_or_fail::<i32>(), Ok(-3));
}
