use exif_reader::cursor::{Cursor, Endianness};
use exif_reader::error::ParseError;
use exif_reader::tag::{read_exif_tag, RawExifTag};
use exif_reader::tags::{ExifTagIterator, Section};
use exif_reader::transform::gps::GpsDegreeCombiner;
use exif_reader::transform::primitive::{to_text, to_u16, to_u32};
use exif_reader::transform::tag::Tag;
use exif_reader::transform::thumbnail::{MimeType, ThumbnailCombiner};
use exif_reader::transform::transformer::TagTransformer;

/// Decode a single handcrafted big-endian entry against a pointer area.
fn decode<'a>(entry: &'a [u8], pointer_area: &'a [u8]) -> RawExifTag<'a> {
    let cursor = Cursor::new(entry, Endianness::Big);
    let tiff = Cursor::new(pointer_area, Endianness::Big);
    read_exif_tag(cursor, tiff).expect("entry should decode")
}

fn text_tag<'a>(entry: &'a [u8]) -> RawExifTag<'a> {
    decode(entry, &[])
}

fn fresh_transformer<'a>(tiff: Cursor<'a>) -> TagTransformer<'a> {
    TagTransformer::new(ExifTagIterator::new(tiff, 0))
}

#[test]
fn test_to_text_rejects_numeric_tag() {
    let tag = decode(&[0, 1, 0, 4, 0, 0, 0, 1, 0, 0, 0, 9], &[]);
    assert_eq!(to_text(&tag), Err(ParseError::MalformedTag));
    assert_eq!(to_u32(&tag), Ok(9));
    assert_eq!(to_u16(&tag), Err(ParseError::MalformedTag));
}

#[test]
fn test_to_u16_reads_first_component() {
    let tag = decode(&[0, 1, 0, 3, 0, 0, 0, 2, 0, 6, 0, 7], &[]);
    assert_eq!(to_u16(&tag), Ok(6));
    assert_eq!(to_u32(&tag), Err(ParseError::MalformedTag));
}

#[test]
fn test_gps_combiner_incomplete_is_silent() {
    let reference = text_tag(&[0, 1, 0, 2, 0, 0, 0, 2, 78, 0, 0, 0]);
    let mut combiner = GpsDegreeCombiner::new();
    combiner.reference = Some(reference);
    assert!(combiner.try_combine_tags().is_none());
}

#[test]
fn test_gps_combiner_rejects_numeric_reference() {
    let reference = decode(&[0, 1, 0, 4, 0, 0, 0, 1, 0, 0, 0, 1], &[]);
    let degrees_entry = [0u8, 2, 0, 5, 0, 0, 0, 3, 0, 0, 0, 0];
    let pointer_area = [
        0u8, 0, 0, 52, 0, 0, 0, 1, 0, 0, 0, 30, 0, 0, 0, 1, 0, 0, 0, 0, 0, 0, 0, 1,
    ];
    let degrees = decode(&degrees_entry, &pointer_area);
    let mut combiner = GpsDegreeCombiner::new();
    combiner.reference = Some(reference);
    combiner.degrees = Some(degrees);
    assert_eq!(combiner.try_combine_tags(), Some(Err(ParseError::MalformedTag)));
}

#[test]
fn test_gps_combiner_south_is_negative() {
    let reference = text_tag(&[0, 1, 0, 2, 0, 0, 0, 2, 83, 0, 0, 0]);
    let degrees_entry = [0u8, 2, 0, 5, 0, 0, 0, 3, 0, 0, 0, 0];
    let pointer_area = [
        0u8, 0, 0, 52, 0, 0, 0, 1, 0, 0, 0, 30, 0, 0, 0, 1, 0, 0, 0, 0, 0, 0, 0, 1,
    ];
    let degrees = decode(&degrees_entry, &pointer_area);
    let mut combiner = GpsDegreeCombiner::new();
    combiner.reference = Some(reference);
    combiner.degrees = Some(degrees);
    let coordinate = combiner
        .try_combine_tags()
        .expect("both tags are present")
        .expect("the pair is well formed");
    assert!(!coordinate.positive);
    assert_eq!(coordinate.degrees, (52, 1));
    assert_eq!(coordinate.minutes, (30, 1));
    assert_eq!(coordinate.seconds, (0, 1));
}

#[test]
fn test_gps_combiner_rejects_short_fraction_list() {
    let reference = text_tag(&[0, 1, 0, 2, 0, 0, 0, 2, 78, 0, 0, 0]);
    let degrees_entry = [0u8, 2, 0, 5, 0, 0, 0, 1, 0, 0, 0, 0];
    let pointer_area = [0u8, 0, 0, 52, 0, 0, 0, 1];
    let degrees = decode(&degrees_entry, &pointer_area);
    let mut combiner = GpsDegreeCombiner::new();
    combiner.reference = Some(reference);
    combiner.degrees = Some(degrees);
    assert_eq!(combiner.try_combine_tags(), Some(Err(ParseError::MalformedTag)));
}

#[test]
fn test_thumbnail_combiner_unknown_compression() {
    let offset = decode(&[0, 1, 0, 4, 0, 0, 0, 1, 0, 0, 0, 64], &[]);
    let length = decode(&[0, 2, 0, 4, 0, 0, 0, 1, 0, 0, 0, 32], &[]);
    let compression = decode(&[0, 3, 0, 3, 0, 0, 0, 1, 0, 5, 0, 0], &[]);
    let mut combiner = ThumbnailCombiner::new();
    combiner.offset = Some(offset);
    assert!(combiner.try_combine_tags().is_none());
    combiner.length = Some(length);
    assert!(combiner.try_combine_tags().is_none());
    combiner.compression = Some(compression);
    let info = combiner
        .try_combine_tags()
        .expect("all three tags are present")
        .expect("the triple is well formed");
    assert_eq!(info.mimetype, MimeType::Unknown);
    assert_eq!(info.offset, 64);
    assert_eq!(info.length, 32);
}

#[test]
fn test_transformer_maps_date_tag() {
    let tiff = Cursor::new(&[], Endianness::Big);
    let mut transformer = fresh_transformer(tiff);
    let entry = [
        1u8, 0x32, 0, 2, 0, 0, 0, 20, 0, 0, 0, 0,
    ];
    let pointer_area = *b"2013:05:10 15:21:35\0";
    let tag = decode(&entry, &pointer_area);
    match transformer.transform_raw_tag(tag, Section::SubIFD) {
        Some(Ok(Tag::ModifyDate(dt))) => {
            assert_eq!(dt.year, 2013);
            assert_eq!(dt.second, 35);
        },
        _ => panic!("a modify date is due"),
    }
}

#[test]
fn test_transformer_rejects_numeric_date_tag() {
    let tiff = Cursor::new(&[], Endianness::Big);
    let mut transformer = fresh_transformer(tiff);
    let tag = decode(&[0x90u8, 0x03, 0, 4, 0, 0, 0, 1, 0, 0, 0, 1], &[]);
    match transformer.transform_raw_tag(tag, Section::SubIFD) {
        Some(Err(ParseError::MalformedTag)) => {},
        _ => panic!("a malformed-tag defect is due"),
    }
}

#[test]
fn test_transformer_passes_unknown_tags_through() {
    let tiff = Cursor::new(&[], Endianness::Big);
    let mut transformer = fresh_transformer(tiff);
    let tag = decode(&[0x12u8, 0x34, 0, 4, 0, 0, 0, 1, 0, 0, 0, 7], &[]);
    match transformer.transform_raw_tag(tag, Section::IFD0) {
        Some(Ok(Tag::Other(raw))) => assert_eq!(raw.tag_type, 0x1234),
        _ => panic!("an unknown tag passes through"),
    }
}
