use exif_reader::value_types::datetime::DateTime;

#[test]
fn test_datetime_parse_success() {
    let d = DateTime::parse("2013:05:10 15:21:35").unwrap();
    assert_eq!(d.year, 2013);
    assert_eq!(d.month, 5);
    assert_eq!(d.day, 10);
    assert_eq!(d.hour, 15);
    assert_eq!(d.minute, 21);
    assert_eq!(d.second, 35);
}

#[test]
fn test_datetime_parse_too_short() {
    let d = DateTime::parse("2013:05:10 15:21:3");
    assert!(d.is_none());
}

#[test]
fn test_datetime_parse_only_decimal() {
    let d = DateTime::parse("aaaaaaaaaaaaaaaaaaa");
    assert!(d.is_none());
}

#[test]
fn test_datetime_parse_multibyte_separator() {
    // Nineteen characters but twenty bytes: the two-byte separator shifts
    // every later field off its byte position, so the parse fails.
    let d = DateTime::parse("2013\u{F3}05:10 15:21:35");
    assert!(d.is_none());
}

#[test]
fn test_datetime_parse_no_panic_with_multibyte() {
    let d = DateTime::parse("\u{1F468}\u{200D}\u{1F468}\u{200D}\u{1F466}\u{200D}\u{1F466}\u{1F46E}\u{1F3FB}\u{1F469}\u{1F3FF}\u{1F468}\u{1F3FC}\u{1F6B6}\u{1F417}\u{1F3C0}\u{1F468}\u{200D}\u{1F468}\u{200D}\u{1F466}\u{200D}\u{1F466}\u{1F46E}\u{1F3FB}\u{1F469}\u{1F3FF}\u{1F468}\u{1F3FC}\u{1F6B6}\u{1F417}\u{1F3C0}");
    assert!(d.is_none());
}
