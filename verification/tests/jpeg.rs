use exif_reader::cursor::{Cursor, Endianness};
use exif_reader::error::ParseError;
use exif_reader::jpeg::{read_image_size_from_sof, JPEGSegmentIterator, SegmentMarker};

/// Append a length-bearing segment and record `(marker, payload offset,
/// payload len)`.
fn push_sized(
    v: &mut Vec<u8>,
    marker_byte: u8,
    payload: &[u8],
    expected: &mut Vec<(SegmentMarker, usize, usize)>,
) {
    v.push(0xFF);
    v.push(marker_byte);
    let len = (payload.len() + 2) as u16;
    v.push((len >> 8) as u8);
    v.push((len & 0xFF) as u8);
    expected.push((SegmentMarker::from_byte(marker_byte), v.len(), payload.len()));
    v.extend_from_slice(payload);
}

/// Append a bare marker without a length field.
fn push_bare(v: &mut Vec<u8>, marker_byte: u8, expected: &mut Vec<(SegmentMarker, usize, usize)>) {
    v.push(0xFF);
    v.push(marker_byte);
    expected.push((SegmentMarker::from_byte(marker_byte), v.len(), 0));
}

/// A small JPEG: SOI, a run of tagged segments, SOF0 with a 2x1 frame,
/// and SOS, where the walker stops.
fn jpeg_sample() -> (Vec<u8>, Vec<(SegmentMarker, usize, usize)>) {
    let mut v: Vec<u8> = Vec::new();
    let mut expected: Vec<(SegmentMarker, usize, usize)> = Vec::new();
    push_bare(&mut v, 0xD8, &mut expected);
    push_sized(&mut v, 0xE0, b"JFIF\0\x01\x01\0\0\x01\0\x01\0\0", &mut expected);
    push_sized(&mut v, 0xE1, b"not exif here", &mut expected);
    push_sized(&mut v, 0xDB, &[0u8; 5], &mut expected);
    push_sized(&mut v, 0xDB, &[1u8; 5], &mut expected);
    push_sized(&mut v, 0xFE, b"hi", &mut expected);
    push_sized(&mut v, 0xE2, &[2u8; 4], &mut expected);
    push_sized(&mut v, 0xED, &[3u8; 4], &mut expected);
    push_sized(&mut v, 0xC4, &[4u8; 4], &mut expected);
    push_sized(&mut v, 0xC4, &[5u8; 4], &mut expected);
    push_sized(
        &mut v,
        0xC0,
        &[0x08, 0x00, 0x01, 0x00, 0x02, 0x03, 0x01, 0x11, 0x00, 0x02, 0x11, 0x00, 0x03, 0x11, 0x00],
        &mut expected,
    );
    push_sized(&mut v, 0xDD, &[0x00, 0x04], &mut expected);
    push_sized(&mut v, 0xFE, b"ok", &mut expected);
    push_bare(&mut v, 0xDA, &mut expected);
    // Entropy-coded data and EOI, beyond the walker's reach.
    v.extend_from_slice(&[0x12, 0x34, 0x56, 0xFF, 0xD9]);
    (v, expected)
}

#[test]
fn test_empty() {
    let data: [u8; 0] = [];
    let cursor = Cursor::new(&data, Endianness::Little);
    let mut it = JPEGSegmentIterator::new(cursor);
    assert!(it.next().unwrap().err().unwrap() == ParseError::UnexpectedEOF);
}

#[test]
fn test_app_segments_content() {
    let (sample, expected) = jpeg_sample();
    let base = Cursor::new(&sample, Endianness::Big);
    let mut it = JPEGSegmentIterator::new(base);

    let mut i = 0;
    while let Some(res) = it.next() {
        let (marker, cursor) = res.unwrap();
        let (expected_marker, expected_offset, expected_len) = expected[i];
        assert_eq!(marker, expected_marker);
        assert_eq!(cursor.offset_from(&base), expected_offset);
        assert_eq!(cursor.len(), expected_len);
        i += 1;
    }
    assert_eq!(i, expected.len());
}

#[test]
fn test_app_segments_len() {
    let (sample, expected) = jpeg_sample();
    let cursor = Cursor::new(&sample, Endianness::Big);
    let mut it = JPEGSegmentIterator::new(cursor);

    let mut count = 0;
    while let Some(res) = it.next() {
        if res.is_err() {
            break;
        }
        count += 1;
    }
    assert_eq!(count, expected.len());
}

#[test]
fn test_size() {
    let (sample, _) = jpeg_sample();
    let cursor = Cursor::new(&sample, Endianness::Big);
    let mut it = JPEGSegmentIterator::new(cursor);
    let mut sof0_cursor = None;
    while let Some(res) = it.next() {
        let (marker, cursor) = res.unwrap();
        if marker == SegmentMarker::SOF(0) {
            sof0_cursor = Some(cursor);
            break;
        }
    }
    let sof0_cursor = sof0_cursor.unwrap();
    let size = read_image_size_from_sof(&sof0_cursor).unwrap();
    assert_eq!(size.width, 2);
    assert_eq!(size.height, 1);
}

#[test]
fn test_segment_coverage_bounded_by_input() {
    let (sample, _) = jpeg_sample();
    let base = Cursor::new(&sample, Endianness::Big);
    let mut it = JPEGSegmentIterator::new(base);
    let mut covered = 0;
    while let Some(res) = it.next() {
        let (marker, cursor) = res.unwrap();
        let header_len = if marker.has_size() { 4 } else { 2 };
        covered += header_len + cursor.len();
        assert!(cursor.offset_from(&base) + cursor.len() <= sample.len());
    }
    assert!(covered <= sample.len());
}

#[test]
fn test_invalid_segment_header() {
    let data = &[0x12, 0x34];
    let cursor = Cursor::new(data, Endianness::Big);
    let mut it = JPEGSegmentIterator::new(cursor);
    assert_eq!(
        it.next().unwrap().err().unwrap(),
        ParseError::InvalidJPEGSegmentHeader { header: 0x12 }
    );
    assert!(it.next().is_none(), "the walker is terminal after an error");
}

#[test]
fn test_walker_stops_after_sos() {
    let (sample, expected) = jpeg_sample();
    let cursor = Cursor::new(&sample, Endianness::Big);
    let mut it = JPEGSegmentIterator::new(cursor);
    let mut last = None;
    while let Some(res) = it.next() {
        last = Some(res.unwrap().0);
    }
    assert_eq!(last, Some(SegmentMarker::SOS));
    assert!(expected.len() >= 13);
}

#[test]
fn test_short_length_field_is_eof() {
    // A declared segment length below two cannot even cover the length
    // field itself.
    let data = &[0xFF, 0xE0, 0x00, 0x01];
    let cursor = Cursor::new(data, Endianness::Big);
    let mut it = JPEGSegmentIterator::new(cursor);
    assert_eq!(it.next().unwrap().err().unwrap(), ParseError::UnexpectedEOF);
}
