//! Iteration over the entries of one IFD section.
//!
//! A section is a count followed by `count x 12` bytes of entries. The
//! iterator hands each 12-byte window to the tag decoder, advancing the
//! section cursor as late as possible so that a truncated section fails as
//! late as possible. A malformed entry does not poison the section: the
//! iterator keeps counting, so it yields at most `count` items in all.

use crate::cursor::{u32_of_bytes, Cursor};
use crate::error::{ParseError, ParseResult};
use crate::tag::{read_exif_tag, read_tag_spec, RawExifTag, EXIF_TAG_SIZE};
use vstd::prelude::*;

verus! {

/// Yields up to `count` raw tags from one IFD section.
#[derive(Clone, Copy)]
pub struct SectionIterator<'a> {
    cursor: Cursor<'a>,
    tiff_marker: Cursor<'a>,
    len: u32,
    i: u32,
}

impl<'a> SectionIterator<'a> {
    /// Cursor at the entry to decode next (before its lazy 12-byte skip).
    pub closed spec fn spec_cursor(self) -> Cursor<'a> {
        self.cursor
    }

    /// The TIFF base cursor that indirect values resolve against.
    pub closed spec fn spec_tiff(self) -> Cursor<'a> {
        self.tiff_marker
    }

    /// Declared number of entries.
    pub closed spec fn spec_len(self) -> u32 {
        self.len
    }

    /// Entries already yielded.
    pub closed spec fn spec_index(self) -> u32 {
        self.i
    }

    pub open spec fn wf(self) -> bool {
        &&& self.spec_cursor().wf()
        &&& self.spec_tiff().wf()
    }

    /// Declared number of entries in this section.
    pub fn len(&self) -> (r: usize)
        ensures
            r == self.spec_len(),
    {
        self.len as usize
    }

    /// Bytes the section occupies: the four count bytes plus the entries.
    /// The IFD successor offset sits this far behind the section's start.
    pub fn byte_size(&self) -> (r: u64)
        ensures
            r == self.spec_len() * 12 + 4,
    {
        (self.len as u64) * 12 + 4
    }

    /// Yield the next entry: `None` once `count` items have been yielded.
    /// Each yielded item is the decode of the 12-byte window that follows
    /// the previous entry; a window that cannot be reached is one
    /// `UnexpectedEOF` item, and the count still advances.
    pub fn next(&mut self) -> (r: Option<ParseResult<RawExifTag<'a>>>)
        requires
            old(self).wf(),
        ensures
            final(self).wf(),
            r is Some <==> old(self).spec_index() < old(self).spec_len(),
            section_step_spec(*old(self), *final(self), r),
    {
        if self.i >= self.len {
            return None;
        }
        // Skip only when an entry was already yielded, so the section
        // fails as late as possible.
        if self.i != 0 {
            let skipped_cursor = self.cursor.with_skip_or_fail(EXIF_TAG_SIZE);
            match skipped_cursor {
                Ok(c) => {
                    self.cursor = c;
                },
                Err(err) => {
                    self.i = self.i + 1;
                    return Some(Err(err));
                },
            }
        }
        let tag = read_exif_tag(self.cursor, self.tiff_marker);
        self.i = self.i + 1;
        Some(tag)
    }
}

/// One step of a section iterator, from state `pre` to state `post`.
///
/// Nothing is yielded once `count` entries have been yielded. Otherwise the
/// iterator first advances past the previous 12-byte entry (except before
/// the first one, so the section fails as late as possible), then yields
/// the decode of the entry window at its cursor; a window that cannot be
/// reached is one `UnexpectedEOF` item, and the count still advances.
pub open spec fn section_step_spec(
    pre: SectionIterator,
    post: SectionIterator,
    r: Option<ParseResult<RawExifTag>>,
) -> bool {
    &&& post.spec_len() == pre.spec_len()
    &&& post.spec_tiff() == pre.spec_tiff()
    &&& if pre.spec_index() >= pre.spec_len() {
        r is None && post == pre
    } else {
        &&& post.spec_index() == pre.spec_index() + 1
        &&& if pre.spec_index() == 0 {
            &&& post.spec_cursor() == pre.spec_cursor()
            &&& (r matches Some(item) && read_tag_spec(
                pre.spec_cursor(),
                pre.spec_tiff(),
                item,
            ))
        } else if pre.spec_cursor()@.len() >= 12 {
            &&& post.spec_cursor()@ == pre.spec_cursor()@.subrange(
                12,
                pre.spec_cursor()@.len() as int,
            )
            &&& post.spec_cursor().spec_pos() == pre.spec_cursor().spec_pos() + 12
            &&& post.spec_cursor().spec_endianness() == pre.spec_cursor().spec_endianness()
            &&& (r matches Some(item) && read_tag_spec(
                post.spec_cursor(),
                pre.spec_tiff(),
                item,
            ))
        } else {
            &&& post.spec_cursor() == pre.spec_cursor()
            &&& r == Some(Err::<RawExifTag, ParseError>(ParseError::UnexpectedEOF))
        }
    }
}

/// Open the IFD section at `cursor`: read its entry count and return an
/// iterator over that many entries.
pub fn read_section<'a>(cursor: Cursor<'a>, tiff_marker: Cursor<'a>) -> (r: ParseResult<
    SectionIterator<'a>,
>)
    requires
        cursor.wf(),
        tiff_marker.wf(),
    ensures
        match r {
            Ok(it) => {
                &&& cursor@.len() >= 4
                &&& it.spec_len() == u32_of_bytes(cursor.spec_endianness(), cursor@.take(4))
                &&& it.spec_index() == 0
                &&& it.spec_cursor()@ == cursor@.subrange(4, cursor@.len() as int)
                &&& it.spec_cursor().spec_pos() == cursor.spec_pos() + 4
                &&& it.spec_cursor().spec_endianness() == cursor.spec_endianness()
                &&& it.spec_tiff() == tiff_marker
                &&& it.wf()
            },
            Err(e) => cursor@.len() < 4 && e == ParseError::UnexpectedEOF,
        },
{
    let mut c = cursor;
    let len: u32 = match c.read_u32() {
        Some(v) => v,
        None => {
            return Err(ParseError::UnexpectedEOF);
        },
    };
    Ok(SectionIterator { cursor: c, tiff_marker, len, i: 0 })
}

} // verus!
