//! Casts from a raw tag to the primitive value it is expected to carry.

use crate::cursor::u16_of_bytes;
use crate::error::{ParseError, ParseResult};
use crate::tag::{tag_wf, ExifVariant, RawExifTag};
use crate::tags::first_uint;
use vstd::prelude::*;

verus! {

/// The first `UShort` component of a tag, if it has one.
pub open spec fn first_ushort(tag: RawExifTag) -> Option<u16> {
    match tag.value {
        ExifVariant::UShort(c) => if c.spec_len() > 0 {
            Some(u16_of_bytes(c.spec_cursor().spec_endianness(), c.spec_cursor()@.take(2)))
        } else {
            None
        },
        _ => None,
    }
}

/// The borrowed text of a text tag; any other variant is malformed.
pub fn to_text<'a>(raw_tag: &RawExifTag<'a>) -> (r: ParseResult<&'a str>)
    ensures
        match raw_tag.value {
            ExifVariant::Text(text) => r == Ok::<&str, ParseError>(text),
            _ => r == Err::<&str, ParseError>(ParseError::MalformedTag),
        },
{
    match &raw_tag.value {
        ExifVariant::Text(text) => Ok(*text),
        _ => Err(ParseError::MalformedTag),
    }
}

/// The first component of a `UInt` tag; an empty or differently typed tag
/// is malformed.
pub fn to_u32<'a>(raw_tag: &RawExifTag<'a>) -> (r: ParseResult<u32>)
    requires
        tag_wf(*raw_tag),
    ensures
        r == match first_uint(*raw_tag) {
            Some(v) => Ok::<u32, ParseError>(v),
            None => Err::<u32, ParseError>(ParseError::MalformedTag),
        },
{
    match &raw_tag.value {
        ExifVariant::UInt(components) => {
            let mut it = components.iter();
            match it.next() {
                Some(v) => Ok(v),
                None => Err(ParseError::MalformedTag),
            }
        },
        _ => Err(ParseError::MalformedTag),
    }
}

/// The first component of a `UShort` tag; an empty or differently typed
/// tag is malformed.
pub fn to_u16<'a>(raw_tag: &RawExifTag<'a>) -> (r: ParseResult<u16>)
    requires
        tag_wf(*raw_tag),
    ensures
        r == match first_ushort(*raw_tag) {
            Some(v) => Ok::<u16, ParseError>(v),
            None => Err::<u16, ParseError>(ParseError::MalformedTag),
        },
{
    match &raw_tag.value {
        ExifVariant::UShort(components) => {
            let mut it = components.iter();
            match it.next() {
                Some(v) => Ok(v),
                None => Err(ParseError::MalformedTag),
            }
        },
        _ => Err(ParseError::MalformedTag),
    }
}

} // verus!
