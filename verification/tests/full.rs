use exif_reader::cursor::{Cursor, Endianness};
use exif_reader::exif::read_exif_header;
use exif_reader::jpeg::{JPEGSegmentIterator, SegmentMarker};
use exif_reader::tags::{read_tags, Section};
use exif_reader::transform::gps::GpsCoordinate;
use exif_reader::transform::tag::Tag;
use exif_reader::transform::thumbnail::MimeType;
use exif_reader::transform::transformer::TagTransformer;

fn be16(v: u16) -> [u8; 2] {
    [(v >> 8) as u8, (v & 0xFF) as u8]
}

fn be32(v: u32) -> [u8; 4] {
    [(v >> 24) as u8, (v >> 16) as u8, (v >> 8) as u8, (v & 0xFF) as u8]
}

fn entry(t: &mut Vec<u8>, tag: u16, fmt: u16, count: u32, value: [u8; 4]) {
    t.extend_from_slice(&be16(tag));
    t.extend_from_slice(&be16(fmt));
    t.extend_from_slice(&be32(count));
    t.extend_from_slice(&value);
}

fn fraction(t: &mut Vec<u8>, num: u32, den: u32) {
    t.extend_from_slice(&be32(num));
    t.extend_from_slice(&be32(den));
}

const GPS_IFD: u32 = 88;
const LAT_DATA: u32 = 144;
const LON_DATA: u32 = 168;
const SUB_IFD: u32 = 192;
const DATE_1: u32 = 248;
const DATE_2: u32 = 268;
const DATE_3: u32 = 288;
const INTEROP_IFD: u32 = 308;
const IFD1: u32 = 312;

/// A complete big-endian TIFF block: IFD0 with description, make, model,
/// the SubIFD and GPS pointers and the thumbnail compression; a GPS IFD
/// with a full position; a SubIFD with three timestamps and the Interop
/// pointer; an empty Interop IFD; and a thumbnail IFD1 whose offset is
/// stored right after IFD0's entries.
fn tiff_block() -> Vec<u8> {
    let mut t: Vec<u8> = Vec::new();
    t.extend_from_slice(&[0x4D, 0x4D, 0x00, 0x2A]);
    t.extend_from_slice(&be32(8));
    // IFD0
    t.extend_from_slice(&be32(6));
    entry(&mut t, 0x010E, 2, 4, *b"pic\0");
    entry(&mut t, 0x010F, 2, 4, *b"Nik\0");
    entry(&mut t, 0x0110, 2, 4, *b"D80\0");
    entry(&mut t, 0x0103, 3, 1, [0x00, 0x06, 0x00, 0x00]);
    entry(&mut t, 0x8769, 4, 1, be32(SUB_IFD));
    entry(&mut t, 0x8825, 4, 1, be32(GPS_IFD));
    // The IFD1 offset, sitting right after IFD0's entries.
    t.extend_from_slice(&be32(IFD1));
    assert_eq!(t.len() as u32, GPS_IFD);
    // GPS IFD
    t.extend_from_slice(&be32(4));
    entry(&mut t, 0x0001, 2, 2, *b"N\0\0\0");
    entry(&mut t, 0x0002, 5, 3, be32(LAT_DATA));
    entry(&mut t, 0x0003, 2, 2, *b"E\0\0\0");
    entry(&mut t, 0x0004, 5, 3, be32(LON_DATA));
    t.extend_from_slice(&be32(0));
    assert_eq!(t.len() as u32, LAT_DATA);
    fraction(&mut t, 52, 1);
    fraction(&mut t, 30, 1);
    fraction(&mut t, 0, 1);
    assert_eq!(t.len() as u32, LON_DATA);
    fraction(&mut t, 13, 1);
    fraction(&mut t, 24, 1);
    fraction(&mut t, 0, 1);
    assert_eq!(t.len() as u32, SUB_IFD);
    // SubIFD
    t.extend_from_slice(&be32(4));
    entry(&mut t, 0x0132, 2, 20, be32(DATE_1));
    entry(&mut t, 0x9003, 2, 20, be32(DATE_2));
    entry(&mut t, 0x9004, 2, 20, be32(DATE_3));
    entry(&mut t, 0xA005, 4, 1, be32(INTEROP_IFD));
    t.extend_from_slice(&be32(0));
    assert_eq!(t.len() as u32, DATE_1);
    t.extend_from_slice(b"2013:05:10 15:21:35\0");
    assert_eq!(t.len() as u32, DATE_2);
    t.extend_from_slice(b"2013:06:11 16:22:36\0");
    assert_eq!(t.len() as u32, DATE_3);
    t.extend_from_slice(b"2013:07:12 17:23:37\0");
    assert_eq!(t.len() as u32, INTEROP_IFD);
    // Interop IFD, empty
    t.extend_from_slice(&be32(0));
    assert_eq!(t.len() as u32, IFD1);
    // IFD1
    t.extend_from_slice(&be32(2));
    entry(&mut t, 0x0201, 4, 1, be32(999));
    entry(&mut t, 0x0202, 4, 1, be32(1234));
    t
}

fn push_sized(v: &mut Vec<u8>, marker_byte: u8, payload: &[u8]) {
    v.push(0xFF);
    v.push(marker_byte);
    let len = (payload.len() + 2) as u16;
    v.push((len >> 8) as u8);
    v.push((len & 0xFF) as u8);
    v.extend_from_slice(payload);
}

/// A JFIF file with the Exif block embedded as its APP1 segment and
/// enough further segments to exercise the walker.
fn jfif_with_exif() -> Vec<u8> {
    let mut app1: Vec<u8> = Vec::new();
    app1.extend_from_slice(b"Exif\0\0");
    app1.extend_from_slice(&tiff_block());

    let mut v: Vec<u8> = vec![0xFF, 0xD8];
    push_sized(&mut v, 0xE0, b"JFIF\0\x01\x01\0\0\x01\0\x01\0\0");
    push_sized(&mut v, 0xE1, &app1);
    push_sized(&mut v, 0xDB, &[0u8; 5]);
    push_sized(&mut v, 0xDB, &[1u8; 5]);
    push_sized(&mut v, 0xFE, b"hi");
    push_sized(&mut v, 0xE2, &[2u8; 4]);
    push_sized(&mut v, 0xED, &[3u8; 4]);
    push_sized(&mut v, 0xC4, &[4u8; 4]);
    push_sized(&mut v, 0xC4, &[5u8; 4]);
    push_sized(
        &mut v,
        0xC0,
        &[0x08, 0x00, 0x01, 0x00, 0x02, 0x03, 0x01, 0x11, 0x00, 0x02, 0x11, 0x00, 0x03, 0x11, 0x00],
    );
    push_sized(&mut v, 0xDD, &[0x00, 0x04]);
    push_sized(&mut v, 0xFE, b"ok");
    v.extend_from_slice(&[0xFF, 0xDA]);
    v.extend_from_slice(&[0x12, 0x34, 0x56, 0xFF, 0xD9]);
    v
}

/// The APP1 payload of the sample file, located through the walker: the
/// header decoder accepts it and no other APP segment.
fn locate_exif(sample: &[u8]) -> Cursor<'_> {
    let cursor = Cursor::new(sample, Endianness::Big);
    let mut it = JPEGSegmentIterator::new(cursor);
    let mut found = None;
    let mut segments = 0;
    let mut last_marker = None;
    while let Some(res) = it.next() {
        let (marker, payload) = res.unwrap();
        segments += 1;
        last_marker = Some(marker);
        match marker {
            SegmentMarker::APP(n) => {
                let mut probe = payload;
                if read_exif_header(&mut probe).is_ok() {
                    assert_eq!(n, 1, "only the APP1 payload holds Exif");
                    found = Some(payload);
                }
            },
            _ => {},
        }
    }
    assert!(segments >= 13, "the sample holds at least thirteen segments");
    assert_eq!(last_marker, Some(SegmentMarker::SOS));
    found.expect("the sample holds an Exif segment")
}

#[test]
fn test_full_jpeg_sections_in_order() {
    let sample = jfif_with_exif();
    let app1 = locate_exif(&sample);
    let mut it = read_tags(app1).expect("the Exif block should open");
    let mut seen: Vec<(u16, Section)> = Vec::new();
    while let Some(res) = it.next() {
        let (tag, section) = res.expect("every tag of the sample is well formed");
        seen.push((tag.tag_type, section));
    }
    let expected: Vec<(u16, Section)> = vec![
        (0x010E, Section::IFD0),
        (0x010F, Section::IFD0),
        (0x0110, Section::IFD0),
        (0x0103, Section::IFD0),
        (0x8769, Section::IFD0),
        (0x8825, Section::IFD0),
        (0x0201, Section::IFD1),
        (0x0202, Section::IFD1),
        (0x0001, Section::GPS),
        (0x0002, Section::GPS),
        (0x0003, Section::GPS),
        (0x0004, Section::GPS),
        (0x0132, Section::SubIFD),
        (0x9003, Section::SubIFD),
        (0x9004, Section::SubIFD),
        (0xA005, Section::SubIFD),
    ];
    assert_eq!(seen, expected);
}

#[test]
fn test_full_jpeg_semantic_stream() {
    let sample = jfif_with_exif();
    let app1 = locate_exif(&sample);
    let raw = read_tags(app1).expect("the Exif block should open");
    let mut transformer = TagTransformer::new(raw);

    let mut make_seen = false;
    let mut model_seen = false;
    let mut description_seen = false;
    let mut dates = 0;
    let mut position = None;
    let mut thumbnail = None;
    let mut others = 0;
    while let Some(res) = transformer.next() {
        match res.expect("every fact of the sample is well formed") {
            Tag::ImageDescription(s) => {
                assert_eq!(s, "pic");
                description_seen = true;
            },
            Tag::Make(s) => {
                assert_eq!(s, "Nik");
                make_seen = true;
            },
            Tag::Model(s) => {
                assert_eq!(s, "D80");
                model_seen = true;
            },
            Tag::ModifyDate(dt) => {
                assert_eq!((dt.year, dt.month, dt.day), (2013, 5, 10));
                assert_eq!((dt.hour, dt.minute, dt.second), (15, 21, 35));
                dates += 1;
            },
            Tag::DateTimeOriginal(dt) => {
                assert_eq!((dt.year, dt.month, dt.day), (2013, 6, 11));
                dates += 1;
            },
            Tag::CreateDate(dt) => {
                assert_eq!((dt.year, dt.month, dt.day), (2013, 7, 12));
                dates += 1;
            },
            Tag::GpsPosition(pos) => {
                assert!(position.is_none());
                position = Some(pos);
            },
            Tag::Thumbnail(info) => {
                assert!(thumbnail.is_none());
                thumbnail = Some(info);
            },
            Tag::Other(raw_tag) => {
                assert!(
                    raw_tag.tag_type == 0x8769 || raw_tag.tag_type == 0x8825
                        || raw_tag.tag_type == 0xA005
                );
                others += 1;
            },
        }
    }
    assert!(description_seen && make_seen && model_seen);
    assert_eq!(dates, 3);
    assert_eq!(others, 3);

    let position = position.expect("the sample carries a GPS position");
    assert_eq!(
        position.latitude,
        GpsCoordinate { degrees: (52, 1), minutes: (30, 1), seconds: (0, 1), positive: true }
    );
    assert_eq!(
        position.longitude,
        GpsCoordinate { degrees: (13, 1), minutes: (24, 1), seconds: (0, 1), positive: true }
    );

    let thumbnail = thumbnail.expect("the sample carries a thumbnail descriptor");
    assert_eq!(thumbnail.mimetype, MimeType::Jpeg);
    assert_eq!(thumbnail.offset, 999);
    assert_eq!(thumbnail.length, 1234);
}
