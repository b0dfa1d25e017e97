//! Exif timestamps: `YYYY:MM:DD HH:MM:SS`, nineteen ASCII bytes, fields in
//! base ten.

use crate::error::{ParseError, ParseResult};
use crate::tag::{ExifVariant, RawExifTag};
use vstd::prelude::*;
use vstd::slice::slice_index_get;
use vstd::string::StringSliceAdditionalSpecFns;

verus! {

/// A parsed Exif timestamp. The fields are taken verbatim from the text;
/// no calendar validation is applied.
#[derive(Debug, PartialEq, Eq, Structural, Clone, Copy)]
pub struct DateTime {
    pub year: u16,
    pub month: u8,
    pub day: u8,
    pub hour: u8,
    pub minute: u8,
    pub second: u8,
}

/// An ASCII decimal digit.
pub open spec fn is_digit(b: u8) -> bool {
    48 <= b <= 57
}

/// Value of an ASCII decimal digit.
pub open spec fn digit_val(b: u8) -> int {
    b - 48
}

/// The two-digit number at byte position `i`.
pub open spec fn digits2(s: Seq<u8>, i: int) -> int {
    digit_val(s[i]) * 10 + digit_val(s[i + 1])
}

/// The four-digit number at byte position `i`.
pub open spec fn digits4(s: Seq<u8>, i: int) -> int {
    digit_val(s[i]) * 1000 + digit_val(s[i + 1]) * 100 + digit_val(s[i + 2]) * 10 + digit_val(
        s[i + 3],
    )
}

/// The bytes parse as a timestamp: at least nineteen bytes, with ASCII
/// digits in the year, month, day, hour, minute and second byte positions.
/// The separator bytes are not inspected; a multi-byte character anywhere
/// in the first nineteen bytes leaves a non-digit byte in some field and
/// so fails.
pub open spec fn datetime_parse_ok(s: Seq<u8>) -> bool {
    &&& s.len() >= 19
    &&& is_digit(s[0])
    &&& is_digit(s[1])
    &&& is_digit(s[2])
    &&& is_digit(s[3])
    &&& is_digit(s[5])
    &&& is_digit(s[6])
    &&& is_digit(s[8])
    &&& is_digit(s[9])
    &&& is_digit(s[11])
    &&& is_digit(s[12])
    &&& is_digit(s[14])
    &&& is_digit(s[15])
    &&& is_digit(s[17])
    &&& is_digit(s[18])
}

/// The timestamp denoted by bytes that satisfy [`datetime_parse_ok`].
pub open spec fn spec_datetime(s: Seq<u8>) -> DateTime {
    DateTime {
        year: digits4(s, 0) as u16,
        month: digits2(s, 5) as u8,
        day: digits2(s, 8) as u8,
        hour: digits2(s, 11) as u8,
        minute: digits2(s, 14) as u8,
        second: digits2(s, 17) as u8,
    }
}

/// The digit a byte denotes, or `None` when it is no ASCII digit.
fn digit_of(b: u8) -> (r: Option<u8>)
    ensures
        r is Some <==> is_digit(b),
        r matches Some(v) ==> v == digit_val(b),
{
    if 48 <= b && b <= 57 {
        Some(b - 48)
    } else {
        None
    }
}

impl DateTime {
    /// Parse a timestamp in the format `2013:05:10 15:21:35`: `Some`
    /// exactly when the fourteen digit byte positions hold ASCII digits
    /// (the separator bytes are not inspected), with the fields read in
    /// base ten.
    pub fn parse(date_str: &str) -> (r: Option<DateTime>)
        ensures
            r is Some <==> datetime_parse_ok(date_str.spec_bytes()),
            r matches Some(dt) ==> dt == spec_datetime(date_str.spec_bytes()),
    {
        let bytes = date_str.as_bytes();
        if bytes.len() < 19 {
            return None;
        }
        let y0 = digit_of(*slice_index_get(bytes, 0));
        let y1 = digit_of(*slice_index_get(bytes, 1));
        let y2 = digit_of(*slice_index_get(bytes, 2));
        let y3 = digit_of(*slice_index_get(bytes, 3));
        let mo0 = digit_of(*slice_index_get(bytes, 5));
        let mo1 = digit_of(*slice_index_get(bytes, 6));
        let d0 = digit_of(*slice_index_get(bytes, 8));
        let d1 = digit_of(*slice_index_get(bytes, 9));
        let h0 = digit_of(*slice_index_get(bytes, 11));
        let h1 = digit_of(*slice_index_get(bytes, 12));
        let mi0 = digit_of(*slice_index_get(bytes, 14));
        let mi1 = digit_of(*slice_index_get(bytes, 15));
        let s0 = digit_of(*slice_index_get(bytes, 17));
        let s1 = digit_of(*slice_index_get(bytes, 18));
        match (y0, y1, y2, y3, mo0, mo1, d0, d1, h0, h1, mi0, mi1, s0, s1) {
            (
                Some(y0),
                Some(y1),
                Some(y2),
                Some(y3),
                Some(mo0),
                Some(mo1),
                Some(d0),
                Some(d1),
                Some(h0),
                Some(h1),
                Some(mi0),
                Some(mi1),
                Some(s0),
                Some(s1),
            ) => {
                let year: u16 = (y0 as u16) * 1000 + (y1 as u16) * 100 + (y2 as u16) * 10 + (
                y3 as u16);
                let month: u8 = mo0 * 10 + mo1;
                let day: u8 = d0 * 10 + d1;
                let hour: u8 = h0 * 10 + h1;
                let minute: u8 = mi0 * 10 + mi1;
                let second: u8 = s0 * 10 + s1;
                Some(DateTime { year, month, day, hour, minute, second })
            },
            _ => None,
        }
    }
}

/// The timestamp a tag denotes: its value must be text in the format
/// above, else the tag is malformed.
pub open spec fn datetime_of(tag: RawExifTag) -> ParseResult<DateTime> {
    match tag.value {
        ExifVariant::Text(s) => if datetime_parse_ok(s.spec_bytes()) {
            Ok(spec_datetime(s.spec_bytes()))
        } else {
            Err(ParseError::MalformedTag)
        },
        _ => Err(ParseError::MalformedTag),
    }
}

/// Parse the timestamp a text tag carries.
pub fn to_datetime<'a>(tag: &RawExifTag<'a>) -> (r: ParseResult<DateTime>)
    ensures
        r == datetime_of(*tag),
{
    match &tag.value {
        ExifVariant::Text(text) => {
            match DateTime::parse(text) {
                Some(dt) => Ok(dt),
                None => Err(ParseError::MalformedTag),
            }
        },
        _ => Err(ParseError::MalformedTag),
    }
}

} // verus!
