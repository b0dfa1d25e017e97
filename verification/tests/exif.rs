use exif_reader::cursor::{Cursor, Endianness};
use exif_reader::error::ParseError;
use exif_reader::exif::read_exif_header;
use exif_reader::tag::{read_exif_tag, ExifFormat, ExifVariant};

const JPEG_SAMPLE_EXIF_OFFSET: usize = 8;

/// A JPEG-like prefix followed by an APP1 payload with a minimal Exif
/// block: big-endian TIFF header and an empty IFD0.
fn jpeg_sample() -> Vec<u8> {
    let mut v: Vec<u8> = vec![0xFF, 0xD8, 0xFF, 0xE0, 0x00, 0x04, 0x00, 0x00];
    assert_eq!(v.len(), JPEG_SAMPLE_EXIF_OFFSET);
    v.extend_from_slice(b"Exif\0\0");
    v.extend_from_slice(&[0x4D, 0x4D, 0x00, 0x2A]);
    v.extend_from_slice(&[0x00, 0x00, 0x00, 0x08]);
    v.extend_from_slice(&[0x00, 0x00, 0x00, 0x00]);
    v
}

#[test]
fn exif_test_read_exif_header() {
    let sample = jpeg_sample();
    let mut cursor = Cursor::new(&sample, Endianness::Little);
    assert!(read_exif_header(&mut cursor).is_err());
    let mut cursor = Cursor::new(&sample, Endianness::Little);
    cursor = cursor.with_skip_or_fail(JPEG_SAMPLE_EXIF_OFFSET).expect("EOF");
    assert!(read_exif_header(&mut cursor).is_ok());
}

#[test]
fn test_simple_uint_exif_tag() {
    const EXIF_TAG: &[u8] = &[0u8, 200u8, 0u8, 4u8, 0u8, 0u8, 0u8, 1u8, 0u8, 0u8, 0u8, 240u8];
    const EXIF_POINTER_AREA: &[u8] = &[];

    let cursor = Cursor::new(EXIF_TAG, Endianness::Big);
    let tag = read_exif_tag(cursor, Cursor::new(EXIF_POINTER_AREA, Endianness::Big));
    let tag = tag.expect("tag should be ok");
    assert_eq!(tag.tag_type, 200);
    assert_eq!(tag.format, ExifFormat::UInt);
    match tag.value {
        ExifVariant::UInt(ref components) => {
            let mut it = components.iter();
            assert_eq!(it.next().expect("first value in iterator should be ok"), 240);
            assert!(it.next().is_none());
        },
        _ => panic!("tag value should be of type {}", EXIF_TAG[3]),
    };
}

#[test]
fn exif_test_extended_uint_exif_tag() {
    const EXIF_TAG: &[u8] = &[
        0u8, 210u8, // tag
        0u8, 4u8, // uint
        0u8, 0u8, 0u8, 2u8, // 2 values
        0u8, 0u8, 0u8, 6u8, // offset to data area
    ];
    const EXIF_POINTER_AREA: &[u8] = &[
        0u8, 0u8, 0u8, 0u8, 0u8, 0u8, 0u8, 0u8, 0u8, 120u8, 0u8, 0u8, 0u8, 160u8,
    ];

    let cursor = Cursor::new(EXIF_TAG, Endianness::Big);
    let tag = read_exif_tag(cursor, Cursor::new(EXIF_POINTER_AREA, Endianness::Big));
    let tag = tag.expect("tag should be ok");
    assert_eq!(tag.tag_type, 210);
    assert_eq!(tag.format, ExifFormat::UInt);
    match tag.value {
        ExifVariant::UInt(ref components) => {
            let mut it = components.iter();
            assert_eq!(it.next().expect("first value in iterator should be ok"), 120);
            assert_eq!(it.next().expect("second value in iterator should be ok"), 160);
            assert!(it.next().is_none(), "there should only be 2 values");
        },
        _ => panic!("tag value should be of type {}", EXIF_TAG[3]),
    };
}

#[test]
fn test_header_endianness_detection() {
    let little = b"Exif\0\0\x49\x49\x2A\x00";
    let mut cursor = Cursor::new(little, Endianness::Big);
    let tiff = read_exif_header(&mut cursor).expect("little-endian header should parse");
    assert_eq!(tiff.endianness(), Endianness::Little);

    let big = b"Exif\0\0\x4D\x4D\x00\x2A";
    let mut cursor = Cursor::new(big, Endianness::Little);
    let tiff = read_exif_header(&mut cursor).expect("big-endian header should parse");
    assert_eq!(tiff.endianness(), Endianness::Big);
}

#[test]
fn test_invalid_exif_magic() {
    let data = b"Axif\0\0\x4D\x4D\x00\x2A";
    let mut cursor = Cursor::new(data, Endianness::Big);
    assert_eq!(
        read_exif_header(&mut cursor).err(),
        Some(ParseError::InvalidExifHeader { header: [0x41, 0x78, 0x69, 0x66, 0, 0] })
    );
}

#[test]
fn test_invalid_tiff_header() {
    let data = b"Exif\0\0\x4D\x49\x00\x2A";
    let mut cursor = Cursor::new(data, Endianness::Big);
    assert_eq!(
        read_exif_header(&mut cursor).err(),
        Some(ParseError::InvalidTiffHeader { header: 0x4D49 })
    );
}

#[test]
fn test_invalid_tiff_data() {
    let data = b"Exif\0\0\x4D\x4D\x00\x2B";
    let mut cursor = Cursor::new(data, Endianness::Big);
    assert_eq!(read_exif_header(&mut cursor).err(), Some(ParseError::InvalidTiffData { data: 0x002B }));
}

#[test]
fn test_truncated_header_is_eof() {
    let data = b"Exif\0\0\x4D\x4D";
    let mut cursor = Cursor::new(data, Endianness::Big);
    assert_eq!(read_exif_header(&mut cursor).err(), Some(ParseError::UnexpectedEOF));
}
