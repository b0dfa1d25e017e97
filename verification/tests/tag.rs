use exif_reader::cursor::{Cursor, Endianness};
use exif_reader::error::ParseError;
use exif_reader::tag::{read_exif_tag, ExifFormat, ExifVariant};

#[test]
fn test_simple_uint_tag() {
    const EXIF_TAG: &[u8] = &[0u8, 200u8, 0u8, 4u8, 0u8, 0u8, 0u8, 1u8, 0u8, 0u8, 0u8, 240u8];
    const EXIF_POINTER_AREA: &[u8] = &[];

    let cursor = Cursor::new(EXIF_TAG, Endianness::Big);
    let tag = read_exif_tag(cursor, Cursor::new(EXIF_POINTER_AREA, Endianness::Big));
    let tag = tag.expect("tag should be ok");
    assert_eq!(tag.tag_type, 200);
    assert_eq!(tag.format, ExifFormat::UInt);
    match tag.value {
        ExifVariant::UInt(ref components) => {
            let mut it = components.iter();
            assert_eq!(it.next().expect("first value in iterator should be ok"), 240);
            assert!(it.next().is_none());
        },
        _ => panic!("tag value should be of type {}", EXIF_TAG[3]),
    };
}

#[test]
fn read_simple_text_tag() {
    const EXIF_TAG: &[u8] = &[
        0u8, 210u8, // tag
        0u8, 2u8, // string
        0u8, 0u8, 0u8, 3u8, // 3 values
        65u8, 66u8, 67u8, 0u8, // ABC
    ];
    const EXIF_POINTER_AREA: &[u8] = &[];
    let cursor = Cursor::new(EXIF_TAG, Endianness::Big);
    let data_cursor = Cursor::new(EXIF_POINTER_AREA, Endianness::Big);
    let tag = read_exif_tag(cursor, data_cursor).expect("read should not fail");
    assert_eq!(tag.tag_type, 210);
    assert_eq!(tag.format, ExifFormat::Text);
    match tag.value {
        ExifVariant::Text(text) => assert_eq!(text, "ABC"),
        _ => panic!("value should be text"),
    };
}

#[test]
fn tag_test_extended_uint_exif_tag() {
    const EXIF_TAG: &[u8] = &[
        0u8, 210u8, // tag
        0u8, 4u8, // uint
        0u8, 0u8, 0u8, 2u8, // 2 values
        0u8, 0u8, 0u8, 6u8, // offset to data area
    ];
    /* first 6 bytes are skipped by offset in exif tag value */
    const EXIF_POINTER_AREA: &[u8] = &[
        0u8, 0u8, 0u8, 0u8, 0u8, 0u8, 0u8, 0u8, 0u8, 120u8, 0u8, 0u8, 0u8, 160u8,
    ];

    let cursor = Cursor::new(EXIF_TAG, Endianness::Big);
    let tag = read_exif_tag(cursor, Cursor::new(EXIF_POINTER_AREA, Endianness::Big));
    let tag = tag.expect("tag should be ok");
    assert_eq!(tag.tag_type, 210);
    assert_eq!(tag.format, ExifFormat::UInt);
    match tag.value {
        ExifVariant::UInt(ref components) => {
            let mut it = components.iter();
            assert_eq!(it.next().expect("first value in iterator should be ok"), 120);
            assert_eq!(it.next().expect("second value in iterator should be ok"), 160);
            assert!(it.next().is_none(), "there should only be 2 values");
        },
        _ => panic!("tag value should be of type {}", EXIF_TAG[3]),
    };
}

#[test]
fn test_text_tag_trims_trailing_nul() {
    const EXIF_TAG: &[u8] = &[
        0u8, 1u8, // tag
        0u8, 2u8, // string
        0u8, 0u8, 0u8, 2u8, // 2 values, "N" plus its terminator
        78u8, 0u8, 0u8, 0u8,
    ];
    let cursor = Cursor::new(EXIF_TAG, Endianness::Big);
    let tag = read_exif_tag(cursor, Cursor::new(&[], Endianness::Big))
        .expect("read should not fail");
    match tag.value {
        ExifVariant::Text(text) => assert_eq!(text, "N"),
        _ => panic!("value should be text"),
    };
}

#[test]
fn test_fraction_tag() {
    const EXIF_TAG: &[u8] = &[
        0u8, 7u8, // tag
        0u8, 5u8, // unsigned fraction
        0u8, 0u8, 0u8, 1u8, // 1 value
        0u8, 0u8, 0u8, 4u8, // offset to data area
    ];
    const EXIF_POINTER_AREA: &[u8] = &[
        0u8, 0u8, 0u8, 0u8, // skipped
        0u8, 0u8, 0u8, 52u8, 0u8, 0u8, 0u8, 7u8,
    ];
    let cursor = Cursor::new(EXIF_TAG, Endianness::Big);
    let tag = read_exif_tag(cursor, Cursor::new(EXIF_POINTER_AREA, Endianness::Big))
        .expect("tag should be ok");
    assert_eq!(tag.format, ExifFormat::UIntFraction);
    match tag.value {
        ExifVariant::UIntFraction(ref components) => {
            let mut it = components.iter();
            assert_eq!(it.next().expect("one fraction expected"), (52, 7));
            assert!(it.next().is_none());
        },
        _ => panic!("value should be a fraction"),
    };
}

#[test]
fn test_short_value_area_is_eof() {
    // Two components of four bytes each, but the pointer area holds only
    // six bytes past the offset: the whole value area is checked up front.
    const EXIF_TAG: &[u8] = &[
        0u8, 210u8, 0u8, 4u8, 0u8, 0u8, 0u8, 2u8, 0u8, 0u8, 0u8, 2u8,
    ];
    const EXIF_POINTER_AREA: &[u8] = &[0u8; 8];
    let cursor = Cursor::new(EXIF_TAG, Endianness::Big);
    let tag = read_exif_tag(cursor, Cursor::new(EXIF_POINTER_AREA, Endianness::Big));
    assert_eq!(tag.err(), Some(ParseError::UnexpectedEOF));
}
