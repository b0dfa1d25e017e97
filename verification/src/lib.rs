//! Zero-copy reader for Exif metadata embedded in JPEG files.
//!
//! Given a byte buffer holding a JPEG image, the reader produces a lazy
//! stream of typed metadata tags without copying the underlying payload:
//! a bounded, endian-aware [`cursor::Cursor`] feeds a JPEG segment walker
//! ([`jpeg`]), an Exif/TIFF tag decoder ([`tag`]), a multi-section IFD
//! walker ([`tags`]) and a semantic transformer ([`transform`]).

use vstd::prelude::*;

pub mod component;
pub mod cursor;
pub mod error;
pub mod exif;
pub mod jpeg;
pub mod section;
pub mod tag;
pub mod tags;
pub mod transform;
pub mod value_types;

verus! {

/// Image dimensions in pixels, as read from a JPEG start-of-frame segment.
pub struct Size {
    pub height: u16,
    pub width: u16,
}

} // verus!
