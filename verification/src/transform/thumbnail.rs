//! Assembly of the thumbnail descriptor out of the three tags that carry
//! it: offset and length from IFD1, compression from IFD0.

use crate::error::{ParseError, ParseResult};
use crate::tag::{tag_wf, RawExifTag};
use crate::tags::first_uint;
use crate::transform::primitive::{first_ushort, to_u16, to_u32};
use vstd::prelude::*;

verus! {

/// Media type of the embedded thumbnail, from its compression tag.
#[derive(Debug, PartialEq, Eq, Structural, Clone, Copy)]
pub enum MimeType {
    Jpeg,
    Tiff,
    Unknown,
}

/// Where the thumbnail lives: `offset` and `length` count bytes from the
/// TIFF base.
#[derive(Debug, PartialEq, Eq, Structural, Clone, Copy)]
pub struct ThumbnailInfo {
    pub mimetype: MimeType,
    pub offset: u32,
    pub length: u32,
}

/// The media type a compression tag denotes: `6` is JPEG, any other value
/// unknown; a tag that holds no `UShort` is malformed.
pub open spec fn mime_of(ctag: RawExifTag) -> ParseResult<MimeType> {
    match first_ushort(ctag) {
        Some(n) => if n == 6 {
            Ok(MimeType::Jpeg)
        } else {
            Ok(MimeType::Unknown)
        },
        None => Err(ParseError::MalformedTag),
    }
}

/// Read the media type off a compression tag.
fn parse_compression<'a>(raw_tag: &RawExifTag<'a>) -> (r: ParseResult<MimeType>)
    requires
        tag_wf(*raw_tag),
    ensures
        r == mime_of(*raw_tag),
{
    match to_u16(raw_tag) {
        Ok(n) => {
            if n == 6 {
                Ok(MimeType::Jpeg)
            } else {
                Ok(MimeType::Unknown)
            }
        },
        Err(e) => Err(e),
    }
}

/// The descriptor three tags denote together: the offset, then the
/// length, then the compression; the first tag of the three that cannot
/// be cast decides the error.
pub open spec fn thumbnail_of(
    otag: RawExifTag,
    ltag: RawExifTag,
    ctag: RawExifTag,
) -> ParseResult<ThumbnailInfo> {
    match first_uint(otag) {
        Some(offset) => match first_uint(ltag) {
            Some(length) => match mime_of(ctag) {
                Ok(mimetype) => Ok(ThumbnailInfo { mimetype, offset, length }),
                Err(e) => Err(e),
            },
            None => Err(ParseError::MalformedTag),
        },
        None => Err(ParseError::MalformedTag),
    }
}

/// What combining the stashed tags yields: nothing until all three have
/// been sighted, then exactly [`thumbnail_of`].
pub open spec fn thumbnail_result(c: ThumbnailCombiner) -> Option<ParseResult<ThumbnailInfo>> {
    match (c.offset, c.length, c.compression) {
        (Some(otag), Some(ltag), Some(ctag)) => Some(thumbnail_of(otag, ltag, ctag)),
        _ => None,
    }
}

/// Collects the three tags of the thumbnail descriptor.
pub struct ThumbnailCombiner<'a> {
    pub offset: Option<RawExifTag<'a>>,
    pub length: Option<RawExifTag<'a>>,
    pub compression: Option<RawExifTag<'a>>,
}

impl<'a> ThumbnailCombiner<'a> {
    /// Stashed tags, when present, are well formed.
    pub open spec fn wf(self) -> bool {
        &&& (self.offset matches Some(t) ==> tag_wf(t))
        &&& (self.length matches Some(t) ==> tag_wf(t))
        &&& (self.compression matches Some(t) ==> tag_wf(t))
    }

    pub fn new() -> (r: ThumbnailCombiner<'a>)
        ensures
            r.offset is None,
            r.length is None,
            r.compression is None,
            r.wf(),
    {
        ThumbnailCombiner { offset: None, length: None, compression: None }
    }

    /// Combine the stashed tags into a descriptor: nothing until all
    /// three have been sighted.
    pub fn try_combine_tags(&self) -> (r: Option<ParseResult<ThumbnailInfo>>)
        requires
            self.wf(),
        ensures
            r == thumbnail_result(*self),
    {
        let (offset_tag, length_tag, compression_tag) = match (
            &self.offset,
            &self.length,
            &self.compression,
        ) {
            (Some(o), Some(l), Some(c)) => (o, l, c),
            _ => {
                return None;
            },
        };
        let offset = match to_u32(offset_tag) {
            Ok(v) => v,
            Err(e) => {
                return Some(Err(e));
            },
        };
        let length = match to_u32(length_tag) {
            Ok(v) => v,
            Err(e) => {
                return Some(Err(e));
            },
        };
        let mimetype = match parse_compression(compression_tag) {
            Ok(v) => v,
            Err(e) => {
                return Some(Err(e));
            },
        };
        Some(Ok(ThumbnailInfo { mimetype, offset, length }))
    }
}

} // verus!
