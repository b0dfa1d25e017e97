//! Bounded, endian-aware view over a byte slice, with typed numeric reads.
//!
//! A [`Cursor`] is a lightweight value (slice view, absolute position,
//! declared byte order) over a shared immutable buffer. Every boundary
//! transformation (`with_skip_or_fail`, `with_max_len`, `with_endianness`)
//! produces a new value and never mutates the receiver, so child readers
//! can be handed independent views without heap allocation. No cursor ever
//! reads past its declared length.

use crate::error::{ParseError, ParseResult};
use vstd::prelude::*;
use vstd::slice::{slice_index_get, slice_subrange};
use vstd::string::StringSliceAdditionalSpecFns;
use vstd::utf8::valid_utf8;

verus! {

/// Declared byte order of a cursor's multi-byte numeric reads.
#[derive(Debug, Clone, Copy, PartialEq, Eq, Structural)]
pub enum Endianness {
    Little,
    Big,
}

/// The `u16` denoted by two bytes under byte order `e`.
pub open spec fn u16_of_bytes(e: Endianness, s: Seq<u8>) -> u16
    recommends
        s.len() == 2,
{
    match e {
        Endianness::Big => (s[0] * 0x100 + s[1]) as u16,
        Endianness::Little => (s[1] * 0x100 + s[0]) as u16,
    }
}

/// The `u32` denoted by four bytes under byte order `e`.
pub open spec fn u32_of_bytes(e: Endianness, s: Seq<u8>) -> u32
    recommends
        s.len() == 4,
{
    match e {
        Endianness::Big => (s[0] * 0x100_0000 + s[1] * 0x1_0000 + s[2] * 0x100 + s[3]) as u32,
        Endianness::Little => (s[3] * 0x100_0000 + s[2] * 0x1_0000 + s[1] * 0x100 + s[0]) as u32,
    }
}

/// The `u64` denoted by eight bytes under byte order `e`.
pub open spec fn u64_of_bytes(e: Endianness, s: Seq<u8>) -> u64
    recommends
        s.len() == 8,
{
    match e {
        Endianness::Big => (s[0] * 0x100_0000_0000_0000 + s[1] * 0x1_0000_0000_0000 + s[2]
            * 0x100_0000_0000 + s[3] * 0x1_0000_0000 + s[4] * 0x100_0000 + s[5] * 0x1_0000 + s[6]
            * 0x100 + s[7]) as u64,
        Endianness::Little => (s[7] * 0x100_0000_0000_0000 + s[6] * 0x1_0000_0000_0000 + s[5]
            * 0x100_0000_0000 + s[4] * 0x1_0000_0000 + s[3] * 0x100_0000 + s[2] * 0x1_0000 + s[1]
            * 0x100 + s[0]) as u64,
    }
}

/// Two's-complement reinterpretation of a `u8` as a signed value.
pub open spec fn as_signed8(v: u8) -> int {
    if v < 0x80 {
        v as int
    } else {
        v - 0x100
    }
}

/// Two's-complement reinterpretation of a `u16` as a signed value.
pub open spec fn as_signed16(v: u16) -> int {
    if v < 0x8000 {
        v as int
    } else {
        v - 0x1_0000
    }
}

/// Two's-complement reinterpretation of a `u32` as a signed value.
pub open spec fn as_signed32(v: u32) -> int {
    if v < 0x8000_0000 {
        v as int
    } else {
        v - 0x1_0000_0000
    }
}

/// The two bytes that denote `v` under byte order `e`; the inverse of
/// [`u16_of_bytes`].
pub open spec fn u16_to_bytes(e: Endianness, v: u16) -> Seq<u8> {
    match e {
        Endianness::Big => seq![(v / 0x100) as u8, (v % 0x100) as u8],
        Endianness::Little => seq![(v % 0x100) as u8, (v / 0x100) as u8],
    }
}

/// The four bytes that denote `v` under byte order `e`; the inverse of
/// [`u32_of_bytes`].
pub open spec fn u32_to_bytes(e: Endianness, v: u32) -> Seq<u8> {
    match e {
        Endianness::Big => seq![
            ((v / 0x100_0000) % 0x100) as u8,
            ((v / 0x1_0000) % 0x100) as u8,
            ((v / 0x100) % 0x100) as u8,
            (v % 0x100) as u8,
        ],
        Endianness::Little => seq![
            (v % 0x100) as u8,
            ((v / 0x100) % 0x100) as u8,
            ((v / 0x1_0000) % 0x100) as u8,
            ((v / 0x100_0000) % 0x100) as u8,
        ],
    }
}

/// The eight bytes that denote `v` under byte order `e`; the inverse of
/// [`u64_of_bytes`].
pub open spec fn u64_to_bytes(e: Endianness, v: u64) -> Seq<u8> {
    match e {
        Endianness::Big => seq![
            ((v / 0x100_0000_0000_0000) % 0x100) as u8,
            ((v / 0x1_0000_0000_0000) % 0x100) as u8,
            ((v / 0x100_0000_0000) % 0x100) as u8,
            ((v / 0x1_0000_0000) % 0x100) as u8,
            ((v / 0x100_0000) % 0x100) as u8,
            ((v / 0x1_0000) % 0x100) as u8,
            ((v / 0x100) % 0x100) as u8,
            (v % 0x100) as u8,
        ],
        Endianness::Little => seq![
            (v % 0x100) as u8,
            ((v / 0x100) % 0x100) as u8,
            ((v / 0x1_0000) % 0x100) as u8,
            ((v / 0x100_0000) % 0x100) as u8,
            ((v / 0x1_0000_0000) % 0x100) as u8,
            ((v / 0x100_0000_0000) % 0x100) as u8,
            ((v / 0x1_0000_0000_0000) % 0x100) as u8,
            ((v / 0x100_0000_0000_0000) % 0x100) as u8,
        ],
    }
}

/// Bounded view over a shared byte buffer. `pos` is the view's offset from
/// the buffer this cursor descends from, so that offsets between related
/// cursors are plain subtraction.
#[derive(Clone, Copy)]
pub struct Cursor<'a> {
    data: &'a [u8],
    pos: usize,
    endianness: Endianness,
}

impl<'a> View for Cursor<'a> {
    type V = Seq<u8>;

    closed spec fn view(&self) -> Seq<u8> {
        self.data@
    }
}

impl<'a> Cursor<'a> {
    /// Offset of this view from the root buffer it descends from.
    pub closed spec fn spec_pos(self) -> int {
        self.pos as int
    }

    /// Declared byte order.
    pub closed spec fn spec_endianness(self) -> Endianness {
        self.endianness
    }

    /// One-past-the-end offset of this view; reads and skips never move it.
    pub open spec fn limit(self) -> int {
        self.spec_pos() + self@.len()
    }

    /// The position bookkeeping cannot overflow `usize`.
    pub open spec fn wf(self) -> bool {
        self.limit() <= usize::MAX
    }

    pub fn new(data: &'a [u8], init_endian: Endianness) -> (r: Cursor<'a>)
        ensures
            r@ == data@,
            r.spec_pos() == 0,
            r.spec_endianness() == init_endian,
            r.wf(),
    {
        // Learn from `len` that the slice view fits in `usize`.
        let n = data.len();
        Cursor { data, pos: 0, endianness: init_endian }
    }

    /// Distance between this view and an earlier view of the same buffer.
    pub fn offset_from(&self, parent: &Cursor<'a>) -> (r: usize)
        requires
            parent.spec_pos() <= self.spec_pos(),
        ensures
            r == self.spec_pos() - parent.spec_pos(),
    {
        self.pos - parent.pos
    }

    /// Remaining bytes in this view.
    pub fn len(&self) -> (r: usize)
        ensures
            r == self@.len(),
    {
        self.data.len()
    }

    pub fn endianness(&self) -> (r: Endianness)
        ensures
            r == self.spec_endianness(),
    {
        self.endianness
    }

    /// A clone of this view whose declared byte order is `end`.
    pub fn with_endianness(&self, end: Endianness) -> (r: Cursor<'a>)
        ensures
            r@ == self@,
            r.spec_pos() == self.spec_pos(),
            r.spec_endianness() == end,
    {
        Cursor { data: self.data, pos: self.pos, endianness: end }
    }

    /// A clone of this view advanced by `offset` bytes, or `UnexpectedEOF`
    /// when fewer than `offset` bytes remain.
    pub fn with_skip_or_fail(&self, offset: usize) -> (r: ParseResult<Cursor<'a>>)
        requires
            self.wf(),
        ensures
            match r {
                Ok(c) => {
                    &&& offset <= self@.len()
                    &&& c@ == self@.subrange(offset as int, self@.len() as int)
                    &&& c.spec_pos() == self.spec_pos() + offset
                    &&& c.spec_endianness() == self.spec_endianness()
                    &&& c.wf()
                    &&& c.limit() == self.limit()
                },
                Err(e) => offset > self@.len() && e == ParseError::UnexpectedEOF,
            },
    {
        if self.data.len() >= offset {
            Ok(
                Cursor {
                    data: slice_subrange(self.data, offset, self.data.len()),
                    pos: self.pos + offset,
                    endianness: self.endianness,
                },
            )
        } else {
            Err(ParseError::UnexpectedEOF)
        }
    }

    /// A clone of this view truncated to at most `max_len` bytes; never fails.
    pub fn with_max_len(&self, max_len: usize) -> (r: Cursor<'a>)
        ensures
            r@.len() == if max_len <= self@.len() {
                max_len as int
            } else {
                self@.len() as int
            },
            r@ == self@.subrange(0, r@.len() as int),
            r.spec_pos() == self.spec_pos(),
            r.spec_endianness() == self.spec_endianness(),
            self.wf() ==> r.wf(),
    {
        let n = if max_len <= self.data.len() {
            max_len
        } else {
            self.data.len()
        };
        let truncated = slice_subrange(self.data, 0, n);
        proof {
            assert(self@.subrange(0, n as int) =~= self@.subrange(0, n as int));
        }
        Cursor { data: truncated, pos: self.pos, endianness: self.endianness }
    }

    fn byte_at(&self, i: usize) -> (r: u8)
        requires
            i < self@.len(),
        ensures
            r == self@[i as int],
    {
        *slice_index_get(self.data, i)
    }

    /// Advance this view by `n` bytes.
    fn advance(&mut self, n: usize)
        requires
            old(self).wf(),
            n <= old(self)@.len(),
        ensures
            final(self)@ == old(self)@.subrange(n as int, old(self)@.len() as int),
            final(self).spec_pos() == old(self).spec_pos() + n,
            final(self).spec_endianness() == old(self).spec_endianness(),
            final(self).limit() == old(self).limit(),
            final(self).wf(),
    {
        self.data = slice_subrange(self.data, n, self.data.len());
        self.pos = self.pos + n;
    }

    /// Read one byte and advance, or `None` when the view is empty.
    pub(crate) fn read_u8(&mut self) -> (r: Option<u8>)
        requires
            old(self).wf(),
        ensures
            final(self).wf(),
            final(self).spec_endianness() == old(self).spec_endianness(),
            final(self).limit() == old(self).limit(),
            old(self)@.len() >= 1 ==> {
                &&& r == Some(old(self)@[0])
                &&& final(self)@ == old(self)@.subrange(1, old(self)@.len() as int)
                &&& final(self).spec_pos() == old(self).spec_pos() + 1
            },
            old(self)@.len() < 1 ==> r is None && *final(self) == *old(self),
    {
        if self.data.len() >= 1 {
            let b = self.byte_at(0);
            self.advance(1);
            Some(b)
        } else {
            None
        }
    }

    /// Read a `u16` under the declared byte order and advance by two bytes.
    pub(crate) fn read_u16(&mut self) -> (r: Option<u16>)
        requires
            old(self).wf(),
        ensures
            final(self).wf(),
            final(self).spec_endianness() == old(self).spec_endianness(),
            final(self).limit() == old(self).limit(),
            old(self)@.len() >= 2 ==> {
                &&& r == Some(u16_of_bytes(old(self).spec_endianness(), old(self)@.take(2)))
                &&& final(self)@ == old(self)@.subrange(2, old(self)@.len() as int)
                &&& final(self).spec_pos() == old(self).spec_pos() + 2
            },
            old(self)@.len() < 2 ==> r is None && *final(self) == *old(self),
    {
        if self.data.len() >= 2 {
            let b0 = self.byte_at(0);
            let b1 = self.byte_at(1);
            self.advance(2);
            let v = match self.endianness {
                Endianness::Big => (b0 as u16) * 0x100 + (b1 as u16),
                Endianness::Little => (b1 as u16) * 0x100 + (b0 as u16),
            };
            Some(v)
        } else {
            None
        }
    }

    /// Read a `u32` under the declared byte order and advance by four bytes.
    pub(crate) fn read_u32(&mut self) -> (r: Option<u32>)
        requires
            old(self).wf(),
        ensures
            final(self).wf(),
            final(self).spec_endianness() == old(self).spec_endianness(),
            final(self).limit() == old(self).limit(),
            old(self)@.len() >= 4 ==> {
                &&& r == Some(u32_of_bytes(old(self).spec_endianness(), old(self)@.take(4)))
                &&& final(self)@ == old(self)@.subrange(4, old(self)@.len() as int)
                &&& final(self).spec_pos() == old(self).spec_pos() + 4
            },
            old(self)@.len() < 4 ==> r is None && *final(self) == *old(self),
    {
        if self.data.len() >= 4 {
            let b0 = self.byte_at(0);
            let b1 = self.byte_at(1);
            let b2 = self.byte_at(2);
            let b3 = self.byte_at(3);
            self.advance(4);
            let v = match self.endianness {
                Endianness::Big => (b0 as u32) * 0x100_0000 + (b1 as u32) * 0x1_0000 + (b2 as u32)
                    * 0x100 + (b3 as u32),
                Endianness::Little => (b3 as u32) * 0x100_0000 + (b2 as u32) * 0x1_0000 + (
                b1 as u32) * 0x100 + (b0 as u32),
            };
            Some(v)
        } else {
            None
        }
    }

    /// Read a `u64` under the declared byte order and advance by eight bytes.
    pub(crate) fn read_u64(&mut self) -> (r: Option<u64>)
        requires
            old(self).wf(),
        ensures
            final(self).wf(),
            final(self).spec_endianness() == old(self).spec_endianness(),
            final(self).limit() == old(self).limit(),
            old(self)@.len() >= 8 ==> {
                &&& r == Some(u64_of_bytes(old(self).spec_endianness(), old(self)@.take(8)))
                &&& final(self)@ == old(self)@.subrange(8, old(self)@.len() as int)
                &&& final(self).spec_pos() == old(self).spec_pos() + 8
            },
            old(self)@.len() < 8 ==> r is None && *final(self) == *old(self),
    {
        if self.data.len() >= 8 {
            let b0 = self.byte_at(0);
            let b1 = self.byte_at(1);
            let b2 = self.byte_at(2);
            let b3 = self.byte_at(3);
            let b4 = self.byte_at(4);
            let b5 = self.byte_at(5);
            let b6 = self.byte_at(6);
            let b7 = self.byte_at(7);
            self.advance(8);
            let v = match self.endianness {
                Endianness::Big => (b0 as u64) * 0x100_0000_0000_0000 + (b1 as u64)
                    * 0x1_0000_0000_0000 + (b2 as u64) * 0x100_0000_0000 + (b3 as u64)
                    * 0x1_0000_0000 + (b4 as u64) * 0x100_0000 + (b5 as u64) * 0x1_0000 + (
                b6 as u64) * 0x100 + (b7 as u64),
                Endianness::Little => (b7 as u64) * 0x100_0000_0000_0000 + (b6 as u64)
                    * 0x1_0000_0000_0000 + (b5 as u64) * 0x100_0000_0000 + (b4 as u64)
                    * 0x1_0000_0000 + (b3 as u64) * 0x100_0000 + (b2 as u64) * 0x1_0000 + (
                b1 as u64) * 0x100 + (b0 as u64),
            };
            Some(v)
        } else {
            None
        }
    }

    fn read_bytes_without_advancing(&self, length: usize) -> (r: Option<&'a [u8]>)
        ensures
            match r {
                Some(b) => length <= self@.len() && b@ == self@.subrange(0, length as int),
                None => length > self@.len(),
            },
    {
        if self.data.len() >= length {
            Some(slice_subrange(self.data, 0, length))
        } else {
            None
        }
    }

    /// Borrow the next `length` bytes and advance, or `None` when fewer remain.
    pub fn read_bytes(&mut self, length: usize) -> (r: Option<&'a [u8]>)
        requires
            old(self).wf(),
        ensures
            final(self).wf(),
            final(self).spec_endianness() == old(self).spec_endianness(),
            final(self).limit() == old(self).limit(),
            match r {
                Some(b) => {
                    &&& length <= old(self)@.len()
                    &&& b@ == old(self)@.subrange(0, length as int)
                    &&& final(self)@ == old(self)@.subrange(length as int, old(self)@.len() as int)
                    &&& final(self).spec_pos() == old(self).spec_pos() + length
                },
                None => length > old(self)@.len() && *final(self) == *old(self),
            },
    {
        let b = self.read_bytes_without_advancing(length);
        if b.is_some() {
            self.advance(length);
        }
        b
    }

    /// As [`Self::read_bytes`], but a short view is an `UnexpectedEOF` error.
    pub fn read_bytes_or_fail(&mut self, length: usize) -> (r: ParseResult<&'a [u8]>)
        requires
            old(self).wf(),
        ensures
            final(self).wf(),
            final(self).spec_endianness() == old(self).spec_endianness(),
            final(self).limit() == old(self).limit(),
            match r {
                Ok(b) => {
                    &&& length <= old(self)@.len()
                    &&& b@ == old(self)@.subrange(0, length as int)
                    &&& final(self)@ == old(self)@.subrange(length as int, old(self)@.len() as int)
                    &&& final(self).spec_pos() == old(self).spec_pos() + length
                },
                Err(e) => {
                    &&& length > old(self)@.len()
                    &&& e == ParseError::UnexpectedEOF
                    &&& *final(self) == *old(self)
                },
            },
    {
        match self.read_bytes(length) {
            Some(b) => Ok(b),
            None => Err(ParseError::UnexpectedEOF),
        }
    }

    /// Borrow the next `length` bytes as a UTF-8 string view and advance.
    /// `None` when fewer than `length` bytes remain, and also when the bytes
    /// are not valid UTF-8 (malformed text is treated as missing); in both
    /// cases the cursor does not move.
    pub fn read_str(&mut self, length: usize) -> (r: Option<&'a str>)
        requires
            old(self).wf(),
        ensures
            final(self).wf(),
            final(self).spec_endianness() == old(self).spec_endianness(),
            final(self).limit() == old(self).limit(),
            match r {
                Some(s) => {
                    &&& length <= old(self)@.len()
                    &&& valid_utf8(old(self)@.subrange(0, length as int))
                    &&& s.spec_bytes() == old(self)@.subrange(0, length as int)
                    &&& final(self)@ == old(self)@.subrange(length as int, old(self)@.len() as int)
                    &&& final(self).spec_pos() == old(self).spec_pos() + length
                },
                None => {
                    &&& (length > old(self)@.len() || !valid_utf8(
                        old(self)@.subrange(0, length as int),
                    ))
                    &&& *final(self) == *old(self)
                },
            },
    {
        match self.read_bytes_without_advancing(length) {
            Some(slice) => {
                match str_from_utf8(slice) {
                    Some(s) => {
                        self.advance(length);
                        Some(s)
                    },
                    None => None,
                }
            },
            None => None,
        }
    }

    /// Read one value of type `T` under the declared byte order, or
    /// `UnexpectedEOF` when fewer than `T::unit_size()` bytes remain.
    pub fn read_num_or_fail<T: crate::component::ExifValueReader>(&mut self) -> (r: ParseResult<
        T,
    >)
        requires
            old(self).wf(),
            T::unit_size() >= 1,
        ensures
            final(self).wf(),
            final(self).spec_endianness() == old(self).spec_endianness(),
            final(self).limit() == old(self).limit(),
            final(self).spec_pos() >= old(self).spec_pos(),
            old(self)@.len() >= T::unit_size() ==> {
                &&& r == Ok::<T, ParseError>(
                    T::decode_spec(
                        old(self).spec_endianness(),
                        old(self)@.take(T::unit_size() as int),
                    ),
                )
                &&& final(self)@ == old(self)@.subrange(
                    T::unit_size() as int,
                    old(self)@.len() as int,
                )
                &&& final(self).spec_pos() == old(self).spec_pos() + T::unit_size()
            },
            old(self)@.len() < T::unit_size() ==> r == Err::<T, ParseError>(
                ParseError::UnexpectedEOF,
            ),
            T::eof_unchanged() && old(self)@.len() < T::unit_size() ==> *final(self) == *old(
                self,
            ),
    {
        T::read_exif_value(self)
    }

    /// As [`Self::read_str`], but a short view or malformed text is an
    /// `UnexpectedEOF` error.
    pub fn read_str_or_fail(&mut self, length: usize) -> (r: ParseResult<&'a str>)
        requires
            old(self).wf(),
        ensures
            final(self).wf(),
            final(self).spec_endianness() == old(self).spec_endianness(),
            final(self).limit() == old(self).limit(),
            match r {
                Ok(s) => {
                    &&& length <= old(self)@.len()
                    &&& valid_utf8(old(self)@.subrange(0, length as int))
                    &&& s.spec_bytes() == old(self)@.subrange(0, length as int)
                    &&& final(self)@ == old(self)@.subrange(length as int, old(self)@.len() as int)
                    &&& final(self).spec_pos() == old(self).spec_pos() + length
                },
                Err(e) => {
                    &&& (length > old(self)@.len() || !valid_utf8(
                        old(self)@.subrange(0, length as int),
                    ))
                    &&& e == ParseError::UnexpectedEOF
                    &&& *final(self) == *old(self)
                },
            },
    {
        match self.read_str(length) {
            Some(s) => Ok(s),
            None => Err(ParseError::UnexpectedEOF),
        }
    }
}

/// Law: writing a `u16` in byte order `e` and reading it back under the same
/// order is the identity, regardless of host order.
pub proof fn lemma_u16_round_trip(e: Endianness, v: u16)
    ensures
        u16_to_bytes(e, v).len() == 2,
        u16_of_bytes(e, u16_to_bytes(e, v)) == v,
{
    vstd::arithmetic::div_mod::lemma_fundamental_div_mod(v as int, 0x100);
}

/// Law: writing a `u32` in byte order `e` and reading it back under the same
/// order is the identity, regardless of host order.
pub proof fn lemma_u32_round_trip(e: Endianness, v: u32)
    ensures
        u32_to_bytes(e, v).len() == 4,
        u32_of_bytes(e, u32_to_bytes(e, v)) == v,
{
    let q1 = v as int / 0x100;
    let q2 = q1 / 0x100;
    vstd::arithmetic::div_mod::lemma_fundamental_div_mod(v as int, 0x100);
    vstd::arithmetic::div_mod::lemma_fundamental_div_mod(q1, 0x100);
    vstd::arithmetic::div_mod::lemma_fundamental_div_mod(q2, 0x100);
    vstd::arithmetic::div_mod::lemma_div_denominator(v as int, 0x100, 0x100);
    vstd::arithmetic::div_mod::lemma_div_denominator(v as int, 0x1_0000, 0x100);
}

/// Law: writing a `u64` in byte order `e` and reading it back under the same
/// order is the identity, regardless of host order.
pub proof fn lemma_u64_round_trip(e: Endianness, v: u64)
    ensures
        u64_to_bytes(e, v).len() == 8,
        u64_of_bytes(e, u64_to_bytes(e, v)) == v,
{
    let q1 = v as int / 0x100;
    let q2 = q1 / 0x100;
    let q3 = q2 / 0x100;
    let q4 = q3 / 0x100;
    let q5 = q4 / 0x100;
    let q6 = q5 / 0x100;
    vstd::arithmetic::div_mod::lemma_fundamental_div_mod(v as int, 0x100);
    vstd::arithmetic::div_mod::lemma_fundamental_div_mod(q1, 0x100);
    vstd::arithmetic::div_mod::lemma_fundamental_div_mod(q2, 0x100);
    vstd::arithmetic::div_mod::lemma_fundamental_div_mod(q3, 0x100);
    vstd::arithmetic::div_mod::lemma_fundamental_div_mod(q4, 0x100);
    vstd::arithmetic::div_mod::lemma_fundamental_div_mod(q5, 0x100);
    vstd::arithmetic::div_mod::lemma_fundamental_div_mod(q6, 0x100);
    vstd::arithmetic::div_mod::lemma_div_denominator(v as int, 0x100, 0x100);
    vstd::arithmetic::div_mod::lemma_div_denominator(v as int, 0x1_0000, 0x100);
    vstd::arithmetic::div_mod::lemma_div_denominator(v as int, 0x100_0000, 0x100);
    vstd::arithmetic::div_mod::lemma_div_denominator(v as int, 0x1_0000_0000, 0x100);
    vstd::arithmetic::div_mod::lemma_div_denominator(v as int, 0x100_0000_0000, 0x100);
    vstd::arithmetic::div_mod::lemma_div_denominator(v as int, 0x1_0000_0000_0000, 0x100);
}

/// Law: the signed 16-bit value denoted by a bit pattern survives an
/// endian round trip, since the underlying `u16` does.
pub proof fn lemma_i16_round_trip(e: Endianness, v: u16)
    ensures
        as_signed16(u16_of_bytes(e, u16_to_bytes(e, v))) == as_signed16(v),
{
    lemma_u16_round_trip(e, v);
}

/// Law: the signed 32-bit value denoted by a bit pattern survives an
/// endian round trip, since the underlying `u32` does.
pub proof fn lemma_i32_round_trip(e: Endianness, v: u32)
    ensures
        as_signed32(u32_of_bytes(e, u32_to_bytes(e, v))) == as_signed32(v),
{
    lemma_u32_round_trip(e, v);
}

/// Relies on `core::str::from_utf8`: it returns `Ok` exactly when the bytes
/// are valid UTF-8, and the returned string view borrows those same bytes.
#[verifier::external_body]
pub(crate) fn str_from_utf8(bytes: &[u8]) -> (r: Option<&str>)
    ensures
        match r {
            Some(s) => valid_utf8(bytes@) && s.spec_bytes() == bytes@,
            None => !valid_utf8(bytes@),
        },
{
    core::str::from_utf8(bytes).ok()
}

} // verus!
