//! The closed set of errors that the reader can surface.

use vstd::prelude::*;

verus! {

/// Every defect in the input surfaces as one of these values on the
/// output stream; no layer of the reader panics on malformed input.
#[derive(Debug, PartialEq)]
pub enum ParseError {
    /// A format code outside the twelve known Exif value formats.
    InvalidValueFormat { format: u16 },
    /// The APP1 payload does not begin with the six bytes `Exif\0\0`.
    InvalidExifHeader { header: [u8; 6] },
    /// The TIFF endianness marker is neither `0x4949` nor `0x4D4D`.
    InvalidTiffHeader { header: u16 },
    /// The TIFF magic number read under the detected endianness is not `0x002A`.
    InvalidTiffData { data: u16 },
    /// A bounded read fell short of its demand.
    UnexpectedEOF,
    /// A tag value offset resolves outside the buffer.
    ValueOutOfBounds { offset: usize },
    /// A JPEG segment did not begin with the `0xFF` framing byte.
    InvalidJPEGSegmentHeader { header: u8 },
    /// The semantic transformer received a raw tag whose variant is
    /// incompatible with the shape it expects.
    MalformedTag,
}

pub type ParseResult<T> = Result<T, ParseError>;

} // verus!
