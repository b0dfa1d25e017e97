//! Decoding of one 12-byte IFD entry into a raw Exif tag.
//!
//! An entry is `u16 tag | u16 format | u32 count | u32 inline-or-offset`.
//! When `count x bytes-per-component` is at most four, the value sits inline
//! in the entry's final four bytes; otherwise those bytes are an offset from
//! the TIFF base cursor. The decoder checks the whole value area up front,
//! so component iteration on the returned tag never fails.

use crate::component::{ExifValueReader, TagComponents};
use crate::cursor::{str_from_utf8, u16_of_bytes, u32_of_bytes, Cursor, Endianness};
use crate::error::{ParseError, ParseResult};
use vstd::prelude::*;
use vstd::slice::slice_subrange;
use vstd::string::StringSliceAdditionalSpecFns;
use vstd::utf8::valid_utf8;

verus! {

/// Size in bytes of one IFD entry.
pub const EXIF_TAG_SIZE: usize = 12;

/// The twelve Exif value formats, in the order of their wire codes 1 to 12.
#[derive(PartialEq, Eq, Structural, Copy, Clone, Debug)]
pub enum ExifFormat {
    UByte,
    Text,
    UShort,
    UInt,
    UIntFraction,
    SignedByte,
    Binary,
    Short,
    Int,
    IntFraction,
    Float,
    Double,
}

/// The format denoted by a wire code in `1 ..= 12`.
pub open spec fn format_of_code(code: u16) -> ExifFormat
    recommends
        1 <= code <= 12,
{
    if code == 1 {
        ExifFormat::UByte
    } else if code == 2 {
        ExifFormat::Text
    } else if code == 3 {
        ExifFormat::UShort
    } else if code == 4 {
        ExifFormat::UInt
    } else if code == 5 {
        ExifFormat::UIntFraction
    } else if code == 6 {
        ExifFormat::SignedByte
    } else if code == 7 {
        ExifFormat::Binary
    } else if code == 8 {
        ExifFormat::Short
    } else if code == 9 {
        ExifFormat::Int
    } else if code == 10 {
        ExifFormat::IntFraction
    } else if code == 11 {
        ExifFormat::Float
    } else {
        ExifFormat::Double
    }
}

impl ExifFormat {
    /// Bytes occupied by one component of this format.
    pub open spec fn spec_bytes_per_component(self) -> nat {
        match self {
            ExifFormat::UByte => 1,
            ExifFormat::Text => 1,
            ExifFormat::SignedByte => 1,
            ExifFormat::Binary => 1,
            ExifFormat::UShort => 2,
            ExifFormat::Short => 2,
            ExifFormat::UInt => 4,
            ExifFormat::Int => 4,
            ExifFormat::Float => 4,
            ExifFormat::UIntFraction => 8,
            ExifFormat::IntFraction => 8,
            ExifFormat::Double => 8,
        }
    }

    /// Map a wire format code to its format; codes outside `1 ..= 12` are
    /// `InvalidValueFormat`.
    pub fn from(format: u16) -> (r: ParseResult<ExifFormat>)
        ensures
            r == if 1 <= format <= 12 {
                Ok::<ExifFormat, ParseError>(format_of_code(format))
            } else {
                Err::<ExifFormat, ParseError>(ParseError::InvalidValueFormat { format })
            },
    {
        match format {
            1 => Ok(ExifFormat::UByte),
            2 => Ok(ExifFormat::Text),
            3 => Ok(ExifFormat::UShort),
            4 => Ok(ExifFormat::UInt),
            5 => Ok(ExifFormat::UIntFraction),
            6 => Ok(ExifFormat::SignedByte),
            7 => Ok(ExifFormat::Binary),
            8 => Ok(ExifFormat::Short),
            9 => Ok(ExifFormat::Int),
            10 => Ok(ExifFormat::IntFraction),
            11 => Ok(ExifFormat::Float),
            12 => Ok(ExifFormat::Double),
            _ => Err(ParseError::InvalidValueFormat { format }),
        }
    }

    /// Bytes occupied by one component of this format.
    pub fn bytes_per_component(self) -> (r: usize)
        ensures
            r == self.spec_bytes_per_component(),
    {
        match self {
            ExifFormat::UByte => 1,
            ExifFormat::Text => 1,
            ExifFormat::SignedByte => 1,
            ExifFormat::Binary => 1,
            ExifFormat::UShort => 2,
            ExifFormat::Short => 2,
            ExifFormat::UInt => 4,
            ExifFormat::Int => 4,
            ExifFormat::Float => 4,
            ExifFormat::UIntFraction => 8,
            ExifFormat::IntFraction => 8,
            ExifFormat::Double => 8,
        }
    }
}

/// The value of one raw tag: borrowed bytes, a borrowed UTF-8 view, or a
/// lazy component view for each numeric format. `Float` and `Double` carry
/// IEEE-754 bit patterns as `u32`/`u64` components; interpreting the bits
/// as floating point is left to the caller.
pub enum ExifVariant<'a> {
    Text(&'a str),
    Bytes(&'a [u8]),
    SignedByte(TagComponents<'a, i8>),
    UShort(TagComponents<'a, u16>),
    UInt(TagComponents<'a, u32>),
    UIntFraction(TagComponents<'a, (u32, u32)>),
    Short(TagComponents<'a, i16>),
    Int(TagComponents<'a, i32>),
    IntFraction(TagComponents<'a, (i32, i32)>),
    Float(TagComponents<'a, u32>),
    Double(TagComponents<'a, u64>),
}

/// One decoded IFD entry.
pub struct RawExifTag<'a> {
    pub tag_type: u16,
    pub format: ExifFormat,
    pub value: ExifVariant<'a>,
}

/// Length of `s` with every trailing NUL byte removed.
pub open spec fn trimmed_len(s: Seq<u8>) -> nat
    decreases s.len(),
{
    if s.len() > 0 && s[s.len() - 1] == 0 {
        trimmed_len(s.drop_last())
    } else {
        s.len()
    }
}

/// `s` with every trailing NUL byte removed.
pub open spec fn trim_nul(s: Seq<u8>) -> Seq<u8> {
    s.take(trimmed_len(s) as int)
}

/// A lazy component view sits at the value area described by `bytes`,
/// `pos` and `e`, with `count` components ahead of it and enough bytes for
/// all of them.
pub open spec fn components_at<T: ExifValueReader>(
    c: TagComponents<T>,
    bytes: Seq<u8>,
    pos: int,
    e: Endianness,
    count: u32,
) -> bool {
    &&& c.spec_cursor()@ == bytes
    &&& c.spec_cursor().spec_pos() == pos
    &&& c.spec_cursor().spec_endianness() == e
    &&& c.spec_len() == count
    &&& c.wf()
}

/// The variant a decoded tag must carry, given its format and the value
/// area (`bytes`/`pos`/`e`) with `count` components.
pub open spec fn variant_ok(
    value: ExifVariant,
    format: ExifFormat,
    bytes: Seq<u8>,
    pos: int,
    e: Endianness,
    count: u32,
) -> bool {
    match format {
        ExifFormat::UByte => value matches ExifVariant::Bytes(b) && b@ == bytes.take(count as int),
        ExifFormat::Binary => value matches ExifVariant::Bytes(b) && b@ == bytes.take(count as int),
        ExifFormat::Text => value matches ExifVariant::Text(s) && s.spec_bytes() == trim_nul(
            bytes.take(count as int),
        ),
        ExifFormat::UShort => value matches ExifVariant::UShort(c) && components_at(
            c,
            bytes,
            pos,
            e,
            count,
        ),
        ExifFormat::UInt => value matches ExifVariant::UInt(c) && components_at(
            c,
            bytes,
            pos,
            e,
            count,
        ),
        ExifFormat::UIntFraction => value matches ExifVariant::UIntFraction(c) && components_at(
            c,
            bytes,
            pos,
            e,
            count,
        ),
        ExifFormat::SignedByte => value matches ExifVariant::SignedByte(c) && components_at(
            c,
            bytes,
            pos,
            e,
            count,
        ),
        ExifFormat::Short => value matches ExifVariant::Short(c) && components_at(
            c,
            bytes,
            pos,
            e,
            count,
        ),
        ExifFormat::Int => value matches ExifVariant::Int(c) && components_at(
            c,
            bytes,
            pos,
            e,
            count,
        ),
        ExifFormat::IntFraction => value matches ExifVariant::IntFraction(c) && components_at(
            c,
            bytes,
            pos,
            e,
            count,
        ),
        ExifFormat::Float => value matches ExifVariant::Float(c) && components_at(
            c,
            bytes,
            pos,
            e,
            count,
        ),
        ExifFormat::Double => value matches ExifVariant::Double(c) && components_at(
            c,
            bytes,
            pos,
            e,
            count,
        ),
    }
}

/// The trimmed length never exceeds the length.
proof fn lemma_trimmed_len_le(s: Seq<u8>)
    ensures
        trimmed_len(s) <= s.len(),
    decreases s.len(),
{
    if s.len() > 0 && s[s.len() - 1] == 0 {
        lemma_trimmed_len_le(s.drop_last());
    }
}

/// Remove every trailing NUL byte from a borrowed slice.
fn trim_trailing_nul<'a>(b: &'a [u8]) -> (r: &'a [u8])
    ensures
        r@ == trim_nul(b@),
{
    let mut end = b.len();
    proof {
        assert(b@.take(b@.len() as int) =~= b@);
        lemma_trimmed_len_le(b@);
    }
    while end > 0 && *vstd::slice::slice_index_get(b, end - 1) == 0
        invariant
            end <= b@.len(),
            trimmed_len(b@) == trimmed_len(b@.take(end as int)),
            trimmed_len(b@.take(end as int)) <= end,
        decreases end,
    {
        proof {
            assert(b@.take(end as int).drop_last() =~= b@.take(end - 1));
            lemma_trimmed_len_le(b@.take(end - 1));
        }
        end = end - 1;
    }
    proof {
        assert(b@.take(b@.len() as int) =~= b@);
        if end > 0 {
            assert(trimmed_len(b@.take(end as int)) == end);
        }
    }
    slice_subrange(b, 0, end)
}

impl ExifFormat {
    /// Wrap the checked value area in the variant of this format. `Err`
    /// only for `Text` whose NUL-trimmed bytes are not valid UTF-8.
    fn variant_from_cursor<'a>(self, value_cursor: Cursor<'a>, len: u32) -> (r: ParseResult<
        ExifVariant<'a>,
    >)
        requires
            value_cursor.wf(),
            value_cursor@.len() >= self.spec_bytes_per_component() * len,
        ensures
            match r {
                Ok(v) => variant_ok(
                    v,
                    self,
                    value_cursor@,
                    value_cursor.spec_pos(),
                    value_cursor.spec_endianness(),
                    len,
                ),
                Err(e) => {
                    &&& self is Text
                    &&& e == ParseError::UnexpectedEOF
                    &&& !valid_utf8(trim_nul(value_cursor@.take(len as int)))
                },
            },
    {
        let mut cursor = value_cursor;
        match self {
            ExifFormat::UByte | ExifFormat::Binary => {
                match cursor.read_bytes(len as usize) {
                    Some(b) => Ok(ExifVariant::Bytes(b)),
                    None => Err(ParseError::UnexpectedEOF),
                }
            },
            ExifFormat::Text => {
                match cursor.read_bytes(len as usize) {
                    Some(b) => {
                        let trimmed = trim_trailing_nul(b);
                        match str_from_utf8(trimmed) {
                            Some(s) => Ok(ExifVariant::Text(s)),
                            None => Err(ParseError::UnexpectedEOF),
                        }
                    },
                    None => Err(ParseError::UnexpectedEOF),
                }
            },
            ExifFormat::UShort => Ok(ExifVariant::UShort(TagComponents::new(cursor, len))),
            ExifFormat::UInt => Ok(ExifVariant::UInt(TagComponents::new(cursor, len))),
            ExifFormat::UIntFraction => Ok(
                ExifVariant::UIntFraction(TagComponents::new(cursor, len)),
            ),
            ExifFormat::SignedByte => Ok(ExifVariant::SignedByte(TagComponents::new(cursor, len))),
            ExifFormat::Short => Ok(ExifVariant::Short(TagComponents::new(cursor, len))),
            ExifFormat::Int => Ok(ExifVariant::Int(TagComponents::new(cursor, len))),
            ExifFormat::IntFraction => Ok(
                ExifVariant::IntFraction(TagComponents::new(cursor, len)),
            ),
            ExifFormat::Float => Ok(ExifVariant::Float(TagComponents::new(cursor, len))),
            ExifFormat::Double => Ok(ExifVariant::Double(TagComponents::new(cursor, len))),
        }
    }
}

/// Everything [`read_exif_tag`] promises, as one predicate over the entry
/// cursor `c`, the TIFF base cursor `t` and the result.
///
/// Reading the entry header needs eight bytes; a format code outside
/// `1 ..= 12` is `InvalidValueFormat`. With `total = count x width`, a value
/// wider than four bytes is reached through the entry's offset field,
/// resolved from the TIFF base; at most four bytes sit inline right after
/// the header. In both cases the whole value area is checked up front and a
/// short area is `UnexpectedEOF`.
pub open spec fn read_tag_spec(c: Cursor, t: Cursor, r: ParseResult<RawExifTag>) -> bool {
    let e = c.spec_endianness();
    let tag_type = u16_of_bytes(e, c@.subrange(0, 2));
    let code = u16_of_bytes(e, c@.subrange(2, 4));
    let count = u32_of_bytes(e, c@.subrange(4, 8));
    let format = format_of_code(code);
    let total = format.spec_bytes_per_component() * count;
    let offset = u32_of_bytes(e, c@.subrange(8, 12));
    if c@.len() < 8 {
        r == Err::<RawExifTag, ParseError>(ParseError::UnexpectedEOF)
    } else if !(1 <= code <= 12) {
        r == Err::<RawExifTag, ParseError>(ParseError::InvalidValueFormat { format: code })
    } else if total > 4 {
        if c@.len() < 12 {
            r == Err::<RawExifTag, ParseError>(ParseError::UnexpectedEOF)
        } else if offset > t@.len() || t@.len() - offset < total {
            r == Err::<RawExifTag, ParseError>(ParseError::UnexpectedEOF)
        } else {
            tag_ok(r, tag_type, format, t@.subrange(offset as int, t@.len() as int), t.spec_pos() + offset, t.spec_endianness(), count)
        }
    } else {
        if c@.len() - 8 < total {
            r == Err::<RawExifTag, ParseError>(ParseError::UnexpectedEOF)
        } else {
            tag_ok(r, tag_type, format, c@.subrange(8, c@.len() as int), c.spec_pos() + 8, e, count)
        }
    }
}

/// A decoded tag whose lazy component views are all well formed, so that
/// iterating them never fails. Every tag that [`read_exif_tag`] returns is.
pub open spec fn tag_wf(tag: RawExifTag) -> bool {
    match tag.value {
        ExifVariant::Text(_) => true,
        ExifVariant::Bytes(_) => true,
        ExifVariant::SignedByte(c) => c.wf(),
        ExifVariant::UShort(c) => c.wf(),
        ExifVariant::UInt(c) => c.wf(),
        ExifVariant::UIntFraction(c) => c.wf(),
        ExifVariant::Short(c) => c.wf(),
        ExifVariant::Int(c) => c.wf(),
        ExifVariant::IntFraction(c) => c.wf(),
        ExifVariant::Float(c) => c.wf(),
        ExifVariant::Double(c) => c.wf(),
    }
}

/// The successful outcome of decoding one entry: the named tag number and
/// format, and the variant over the given value area — except that a `Text`
/// value whose bytes are not valid UTF-8 is `UnexpectedEOF`.
pub open spec fn tag_ok(
    r: ParseResult<RawExifTag>,
    tag_type: u16,
    format: ExifFormat,
    bytes: Seq<u8>,
    pos: int,
    e: Endianness,
    count: u32,
) -> bool {
    match r {
        Ok(tag) => {
            &&& tag.tag_type == tag_type
            &&& tag.format == format
            &&& tag_wf(tag)
            &&& variant_ok(tag.value, format, bytes, pos, e, count)
        },
        Err(err) => {
            &&& format is Text
            &&& err == ParseError::UnexpectedEOF
            &&& !valid_utf8(trim_nul(bytes.take(count as int)))
        },
    }
}

/// Decode the 12-byte IFD entry at `cursor`, resolving an indirect value
/// through `tiff_cursor`.
pub fn read_exif_tag<'a>(cursor: Cursor<'a>, tiff_cursor: Cursor<'a>) -> (r: ParseResult<
    RawExifTag<'a>,
>)
    requires
        cursor.wf(),
        tiff_cursor.wf(),
    ensures
        read_tag_spec(cursor, tiff_cursor, r),
{
    let mut c = cursor;
    let tag_type: u16 = match c.read_u16() {
        Some(v) => v,
        None => {
            return Err(ParseError::UnexpectedEOF);
        },
    };
    let format_num: u16 = match c.read_u16() {
        Some(v) => v,
        None => {
            return Err(ParseError::UnexpectedEOF);
        },
    };
    let components: u32 = match c.read_u32() {
        Some(v) => v,
        None => {
            return Err(ParseError::UnexpectedEOF);
        },
    };
    proof {
        if cursor@.len() >= 8 {
            assert(cursor@.take(2) =~= cursor@.subrange(0, 2));
            assert(cursor@.subrange(2, cursor@.len() as int).take(2) =~= cursor@.subrange(2, 4));
            assert(cursor@.subrange(4, cursor@.len() as int).take(4) =~= cursor@.subrange(4, 8));
            assert(cursor@.subrange(2, cursor@.len() as int).subrange(
                2,
                cursor@.len() - 2,
            ) =~= cursor@.subrange(4, cursor@.len() as int));
            assert(cursor@.subrange(4, cursor@.len() as int).subrange(
                4,
                cursor@.len() - 4,
            ) =~= cursor@.subrange(8, cursor@.len() as int));
        }
    }
    let format = match ExifFormat::from(format_num) {
        Ok(f) => f,
        Err(e) => {
            return Err(e);
        },
    };
    let bpc = format.bytes_per_component();
    proof {
        assert((bpc as u64) * (components as u64) == format.spec_bytes_per_component() * components
            && format.spec_bytes_per_component() * components <= 8 * 0xffff_ffff) by (
        nonlinear_arith)
            requires
                bpc == format.spec_bytes_per_component(),
                bpc <= 8,
                components <= 0xffff_ffff,
        ;
    }
    let total: u64 = (bpc as u64) * (components as u64);
    let value_cursor = if total > 4 {
        let tiff_offset: u32 = match c.read_u32() {
            Some(v) => v,
            None => {
                return Err(ParseError::UnexpectedEOF);
            },
        };
        proof {
            assert(cursor@.subrange(8, cursor@.len() as int).take(4) =~= cursor@.subrange(8, 12));
        }
        match tiff_cursor.with_skip_or_fail(tiff_offset as usize) {
            Ok(vc) => vc,
            Err(e) => {
                return Err(e);
            },
        }
    } else {
        c
    };
    if (value_cursor.len() as u64) < total {
        return Err(ParseError::UnexpectedEOF);
    }
    match format.variant_from_cursor(value_cursor, components) {
        Ok(variant) => Ok(RawExifTag { tag_type, format, value: variant }),
        Err(e) => Err(e),
    }
}

} // verus!
