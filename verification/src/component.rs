//! Lazy, typed iteration over the components of one Exif tag value.
//!
//! Each numeric Exif format decodes through [`ExifValueReader`]: a fixed
//! component width plus a decode function over that many bytes. Fractions
//! read two base values in sequence. A [`TagComponents`] value remembers a
//! cursor positioned at the first component and the declared component
//! count; [`ComponentIterator`] walks them one at a time.

use crate::cursor::{
    as_signed16, as_signed32, as_signed8, u16_of_bytes, u32_of_bytes, u64_of_bytes, Cursor,
    Endianness,
};
use crate::error::{ParseError, ParseResult};
use core::marker::PhantomData;
use vstd::prelude::*;

verus! {

/// A component type of an Exif tag value: a fixed byte width and the value
/// that a window of that many bytes denotes under a given byte order.
pub trait ExifValueReader: Sized {
    /// Bytes occupied by one component.
    spec fn unit_size() -> nat;

    /// Whether a short view leaves the cursor untouched on failure. True
    /// for the single-value types; a fraction's first half can be read
    /// before its second half runs out of bytes.
    spec fn eof_unchanged() -> bool;

    /// The value denoted by `unit_size` bytes under byte order `e`.
    spec fn decode_spec(e: Endianness, s: Seq<u8>) -> Self;

    /// Read one component at the cursor and advance past it.
    fn read_exif_value<'a>(cursor: &mut Cursor<'a>) -> (r: ParseResult<Self>)
        requires
            old(cursor).wf(),
            Self::unit_size() >= 1,
        ensures
            final(cursor).wf(),
            final(cursor).spec_endianness() == old(cursor).spec_endianness(),
            final(cursor).limit() == old(cursor).limit(),
            final(cursor).spec_pos() >= old(cursor).spec_pos(),
            old(cursor)@.len() >= Self::unit_size() ==> {
                &&& r == Ok::<Self, ParseError>(
                    Self::decode_spec(
                        old(cursor).spec_endianness(),
                        old(cursor)@.take(Self::unit_size() as int),
                    ),
                )
                &&& final(cursor)@ == old(cursor)@.subrange(
                    Self::unit_size() as int,
                    old(cursor)@.len() as int,
                )
                &&& final(cursor).spec_pos() == old(cursor).spec_pos() + Self::unit_size()
            },
            old(cursor)@.len() < Self::unit_size() ==> r == Err::<Self, ParseError>(
                ParseError::UnexpectedEOF,
            ),
            Self::eof_unchanged() && old(cursor)@.len() < Self::unit_size() ==> *final(cursor)
                == *old(cursor),
    ;
}

impl ExifValueReader for u8 {
    open spec fn unit_size() -> nat {
        1
    }

    open spec fn eof_unchanged() -> bool {
        true
    }

    open spec fn decode_spec(e: Endianness, s: Seq<u8>) -> u8 {
        s[0]
    }

    fn read_exif_value<'a>(cursor: &mut Cursor<'a>) -> (r: ParseResult<u8>) {
        match cursor.read_u8() {
            Some(v) => Ok(v),
            None => Err(ParseError::UnexpectedEOF),
        }
    }
}

impl ExifValueReader for i8 {
    open spec fn unit_size() -> nat {
        1
    }

    open spec fn eof_unchanged() -> bool {
        true
    }

    open spec fn decode_spec(e: Endianness, s: Seq<u8>) -> i8 {
        as_signed8(s[0]) as i8
    }

    fn read_exif_value<'a>(cursor: &mut Cursor<'a>) -> (r: ParseResult<i8>) {
        match cursor.read_u8() {
            Some(v) => {
                if v < 0x80 {
                    Ok(v as i8)
                } else {
                    Ok(-((0xff - v) as i8) - 1)
                }
            },
            None => Err(ParseError::UnexpectedEOF),
        }
    }
}

impl ExifValueReader for u16 {
    open spec fn unit_size() -> nat {
        2
    }

    open spec fn eof_unchanged() -> bool {
        true
    }

    open spec fn decode_spec(e: Endianness, s: Seq<u8>) -> u16 {
        u16_of_bytes(e, s)
    }

    fn read_exif_value<'a>(cursor: &mut Cursor<'a>) -> (r: ParseResult<u16>) {
        match cursor.read_u16() {
            Some(v) => Ok(v),
            None => Err(ParseError::UnexpectedEOF),
        }
    }
}

impl ExifValueReader for i16 {
    open spec fn unit_size() -> nat {
        2
    }

    open spec fn eof_unchanged() -> bool {
        true
    }

    open spec fn decode_spec(e: Endianness, s: Seq<u8>) -> i16 {
        as_signed16(u16_of_bytes(e, s)) as i16
    }

    fn read_exif_value<'a>(cursor: &mut Cursor<'a>) -> (r: ParseResult<i16>) {
        match cursor.read_u16() {
            Some(v) => {
                if v < 0x8000 {
                    Ok(v as i16)
                } else {
                    Ok(-((0xffff - v) as i16) - 1)
                }
            },
            None => Err(ParseError::UnexpectedEOF),
        }
    }
}

impl ExifValueReader for u32 {
    open spec fn unit_size() -> nat {
        4
    }

    open spec fn eof_unchanged() -> bool {
        true
    }

    open spec fn decode_spec(e: Endianness, s: Seq<u8>) -> u32 {
        u32_of_bytes(e, s)
    }

    fn read_exif_value<'a>(cursor: &mut Cursor<'a>) -> (r: ParseResult<u32>) {
        match cursor.read_u32() {
            Some(v) => Ok(v),
            None => Err(ParseError::UnexpectedEOF),
        }
    }
}

impl ExifValueReader for i32 {
    open spec fn unit_size() -> nat {
        4
    }

    open spec fn eof_unchanged() -> bool {
        true
    }

    open spec fn decode_spec(e: Endianness, s: Seq<u8>) -> i32 {
        as_signed32(u32_of_bytes(e, s)) as i32
    }

    fn read_exif_value<'a>(cursor: &mut Cursor<'a>) -> (r: ParseResult<i32>) {
        match cursor.read_u32() {
            Some(v) => {
                if v < 0x8000_0000 {
                    Ok(v as i32)
                } else {
                    Ok(-((0xffff_ffff - v) as i32) - 1)
                }
            },
            None => Err(ParseError::UnexpectedEOF),
        }
    }
}

impl ExifValueReader for u64 {
    open spec fn unit_size() -> nat {
        8
    }

    open spec fn eof_unchanged() -> bool {
        true
    }

    open spec fn decode_spec(e: Endianness, s: Seq<u8>) -> u64 {
        u64_of_bytes(e, s)
    }

    fn read_exif_value<'a>(cursor: &mut Cursor<'a>) -> (r: ParseResult<u64>) {
        match cursor.read_u64() {
            Some(v) => Ok(v),
            None => Err(ParseError::UnexpectedEOF),
        }
    }
}

impl ExifValueReader for (u32, u32) {
    open spec fn unit_size() -> nat {
        8
    }

    open spec fn eof_unchanged() -> bool {
        false
    }

    open spec fn decode_spec(e: Endianness, s: Seq<u8>) -> (u32, u32) {
        (u32_of_bytes(e, s.take(4)), u32_of_bytes(e, s.subrange(4, 8)))
    }

    fn read_exif_value<'a>(cursor: &mut Cursor<'a>) -> (r: ParseResult<(u32, u32)>) {
        let ghost start = *cursor;
        let a = match cursor.read_u32() {
            Some(v) => v,
            None => {
                return Err(ParseError::UnexpectedEOF);
            },
        };
        let b = match cursor.read_u32() {
            Some(v) => v,
            None => {
                return Err(ParseError::UnexpectedEOF);
            },
        };
        proof {
            if start@.len() >= 8 {
                assert(start@.subrange(4, start@.len() as int).take(4) =~= start@.take(8).subrange(
                    4,
                    8,
                ));
                assert(start@.take(4) =~= start@.take(8).take(4));
                assert(start@.subrange(4, start@.len() as int).subrange(
                    4,
                    start@.len() - 4,
                ) =~= start@.subrange(8, start@.len() as int));
            }
        }
        Ok((a, b))
    }
}

impl ExifValueReader for (i32, i32) {
    open spec fn unit_size() -> nat {
        8
    }

    open spec fn eof_unchanged() -> bool {
        false
    }

    open spec fn decode_spec(e: Endianness, s: Seq<u8>) -> (i32, i32) {
        (
            as_signed32(u32_of_bytes(e, s.take(4))) as i32,
            as_signed32(u32_of_bytes(e, s.subrange(4, 8))) as i32,
        )
    }

    fn read_exif_value<'a>(cursor: &mut Cursor<'a>) -> (r: ParseResult<(i32, i32)>) {
        let ghost start = *cursor;
        let a = match i32::read_exif_value(cursor) {
            Ok(v) => v,
            Err(e) => {
                return Err(e);
            },
        };
        let b = match i32::read_exif_value(cursor) {
            Ok(v) => v,
            Err(e) => {
                return Err(e);
            },
        };
        proof {
            if start@.len() >= 8 {
                assert(start@.subrange(4, start@.len() as int).take(4) =~= start@.take(8).subrange(
                    4,
                    8,
                ));
                assert(start@.take(4) =~= start@.take(8).take(4));
                assert(start@.subrange(4, start@.len() as int).subrange(
                    4,
                    start@.len() - 4,
                ) =~= start@.subrange(8, start@.len() as int));
            }
        }
        Ok((a, b))
    }
}

/// The lazy value of one numeric Exif tag: a cursor positioned at the first
/// component and the number of components that follow.
pub struct TagComponents<'a, T> {
    cursor: Cursor<'a>,
    len: u32,
    phantom_data: PhantomData<T>,
}

impl<'a, T: ExifValueReader> TagComponents<'a, T> {
    /// The cursor positioned at the first component.
    pub closed spec fn spec_cursor(self) -> Cursor<'a> {
        self.cursor
    }

    /// Declared component count.
    pub closed spec fn spec_len(self) -> u32 {
        self.len
    }

    /// The tag decoder checks the whole value area up front, so a
    /// well-formed value holds enough bytes for every component.
    pub open spec fn wf(self) -> bool {
        &&& self.spec_cursor().wf()
        &&& self.spec_cursor()@.len() >= self.spec_len() * T::unit_size()
    }

    pub fn new(cursor: Cursor<'a>, len: u32) -> (r: TagComponents<'a, T>)
        ensures
            r.spec_cursor() == cursor,
            r.spec_len() == len,
    {
        TagComponents { cursor, len, phantom_data: PhantomData }
    }

    /// Number of components.
    pub fn len(&self) -> (r: u32)
        ensures
            r == self.spec_len(),
    {
        self.len
    }

    /// A fresh iterator positioned at the first component.
    pub fn iter(&self) -> (r: ComponentIterator<'a, T>)
        ensures
            r.spec_cursor() == self.spec_cursor(),
            r.spec_len() == self.spec_len(),
            r.spec_index() == 0,
            self.wf() ==> r.wf(),
    {
        ComponentIterator { value_cursor: self.cursor, len: self.len, i: 0, phantom_data: PhantomData }
    }
}

/// Finite, non-restartable iterator over the components of one tag value.
/// When the underlying value area is well formed it yields exactly
/// `spec_len()` items and then `None`.
pub struct ComponentIterator<'a, T> {
    i: u32,
    value_cursor: Cursor<'a>,
    len: u32,
    phantom_data: PhantomData<T>,
}

impl<'a, T: ExifValueReader> ComponentIterator<'a, T> {
    /// The cursor positioned at the next component to yield.
    pub closed spec fn spec_cursor(self) -> Cursor<'a> {
        self.value_cursor
    }

    /// Declared component count.
    pub closed spec fn spec_len(self) -> u32 {
        self.len
    }

    /// Components yielded so far.
    pub closed spec fn spec_index(self) -> u32 {
        self.i
    }

    /// Enough bytes remain for every component not yet yielded.
    pub open spec fn wf(self) -> bool {
        &&& self.spec_cursor().wf()
        &&& self.spec_index() <= self.spec_len()
        &&& self.spec_cursor()@.len() >= (self.spec_len() - self.spec_index()) * T::unit_size()
    }

    /// Law: each call on a well-formed iterator yields a component exactly
    /// when fewer than `spec_len()` components have been yielded, so a full
    /// walk yields exactly the declared component count. The item yielded
    /// is the decode of the next `unit_size` bytes of the value area.
    pub fn next(&mut self) -> (r: Option<T>)
        requires
            old(self).wf(),
            T::unit_size() >= 1,
        ensures
            final(self).wf(),
            final(self).spec_len() == old(self).spec_len(),
            r is Some <==> old(self).spec_index() < old(self).spec_len(),
            old(self).spec_index() < old(self).spec_len() ==> {
                &&& r == Some(
                    T::decode_spec(
                        old(self).spec_cursor().spec_endianness(),
                        old(self).spec_cursor()@.take(T::unit_size() as int),
                    ),
                )
                &&& final(self).spec_index() == old(self).spec_index() + 1
                &&& final(self).spec_cursor()@ == old(self).spec_cursor()@.subrange(
                    T::unit_size() as int,
                    old(self).spec_cursor()@.len() as int,
                )
                &&& final(self).spec_cursor().spec_endianness() == old(
                    self,
                ).spec_cursor().spec_endianness()
            },
            old(self).spec_index() >= old(self).spec_len() ==> *final(self) == *old(self),
    {
        let remaining = self.len - self.i;
        if remaining == 0 {
            return None;
        }
        proof {
            assert((self.len - self.i) * T::unit_size() >= 1 * T::unit_size()) by (nonlinear_arith)
                requires
                    self.len - self.i >= 1,
                    T::unit_size() >= 1,
            ;
            assert(((self.len - self.i) - 1) * T::unit_size() == (self.len - self.i)
                * T::unit_size() - T::unit_size()) by (nonlinear_arith);
        }
        self.i = self.i + 1;
        match T::read_exif_value(&mut self.value_cursor) {
            Ok(value) => Some(value),
            Err(_) => None,
        }
    }
}

} // verus!
