//! The typed facts that the semantic transformer emits.

use crate::tag::RawExifTag;
use crate::transform::gps::GpsPosition;
use crate::transform::thumbnail::ThumbnailInfo;
use crate::value_types::datetime::DateTime;
use vstd::prelude::*;

verus! {

/// One semantic fact: a direct mapping of a single raw tag, an assembled
/// multi-tag group, or the raw tag itself when nothing applies.
pub enum Tag<'a> {
    ImageDescription(&'a str),
    Make(&'a str),
    Model(&'a str),
    ModifyDate(DateTime),
    DateTimeOriginal(DateTime),
    CreateDate(DateTime),
    GpsPosition(GpsPosition),
    Thumbnail(ThumbnailInfo),
    Other(RawExifTag<'a>),
}

} // verus!
