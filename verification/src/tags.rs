//! Multi-section IFD walker: one flat stream over IFD0, IFD1, the GPS IFD,
//! the SubIFD and the Interop IFD.
//!
//! Section enumeration is driven by discovered pointers: offsets to the
//! auxiliary sections surface as tag values of IFD0 and the SubIFD, and the
//! IFD1 offset sits right after IFD0's entries. A small offset table holds
//! one slot per section; the walker drains it in the fixed order IFD0,
//! IFD1, GPS, SubIFD, Interop, so each slot is opened at most once and the
//! emitted section ids never go back.

use crate::cursor::{u32_of_bytes, Cursor};
use crate::error::{ParseError, ParseResult};
use crate::exif::{header_accepts, header_spec, read_exif_header};
use crate::section::{read_section, section_step_spec, SectionIterator};
use crate::tag::{read_tag_spec, tag_wf, ExifVariant, RawExifTag};
use vstd::prelude::*;

verus! {

/// The five IFD sections a stream can emit from, in consume order.
#[derive(PartialEq, Eq, Structural, Clone, Copy, Debug)]
pub enum Section {
    IFD0,
    IFD1,
    GPS,
    SubIFD,
    InteropIFD,
}

/// Position of a section in the fixed consume order.
pub open spec fn section_rank(s: Section) -> int {
    match s {
        Section::IFD0 => 0,
        Section::IFD1 => 1,
        Section::GPS => 2,
        Section::SubIFD => 3,
        Section::InteropIFD => 4,
    }
}

/// Offset slots for the five sections, drained in consume order.
pub struct SectionOffsetIterator {
    pub ifd0_offset: Option<u32>,
    pub ifd1_offset: Option<u32>,
    pub gps_offset: Option<u32>,
    pub sub_ifd_offset: Option<u32>,
    pub interop_offset: Option<u32>,
}

impl SectionOffsetIterator {
    /// The offset recorded for section `s`, if any.
    pub open spec fn slot(self, s: Section) -> Option<u32> {
        match s {
            Section::IFD0 => self.ifd0_offset,
            Section::IFD1 => self.ifd1_offset,
            Section::GPS => self.gps_offset,
            Section::SubIFD => self.sub_ifd_offset,
            Section::InteropIFD => self.interop_offset,
        }
    }

    /// No slot holds an offset.
    pub open spec fn all_empty(self) -> bool {
        forall|s: Section| #[trigger] self.slot(s) is None
    }

    /// Slots filled before any emission: IFD0 alone, pre-seeded.
    pub fn new(ifd0_offset: u32) -> (r: SectionOffsetIterator)
        ensures
            r.slot(Section::IFD0) == Some(ifd0_offset),
            forall|s: Section| s != Section::IFD0 ==> #[trigger] r.slot(s) is None,
    {
        SectionOffsetIterator {
            ifd0_offset: Some(ifd0_offset),
            ifd1_offset: None,
            gps_offset: None,
            sub_ifd_offset: None,
            interop_offset: None,
        }
    }

    pub fn set_ifd1_offset(&mut self, offset: u32)
        ensures
            final(self).slot(Section::IFD1) == Some(offset),
            forall|s: Section|
                s != Section::IFD1 ==> #[trigger] final(self).slot(s) == old(self).slot(s),
    {
        self.ifd1_offset = Some(offset);
    }

    pub fn set_gps_offset(&mut self, offset: u32)
        ensures
            final(self).slot(Section::GPS) == Some(offset),
            forall|s: Section|
                s != Section::GPS ==> #[trigger] final(self).slot(s) == old(self).slot(s),
    {
        self.gps_offset = Some(offset);
    }

    pub fn set_sub_ifd_offset(&mut self, offset: u32)
        ensures
            final(self).slot(Section::SubIFD) == Some(offset),
            forall|s: Section|
                s != Section::SubIFD ==> #[trigger] final(self).slot(s) == old(self).slot(s),
    {
        self.sub_ifd_offset = Some(offset);
    }

    pub fn set_interop_offset(&mut self, offset: u32)
        ensures
            final(self).slot(Section::InteropIFD) == Some(offset),
            forall|s: Section|
                s != Section::InteropIFD ==> #[trigger] final(self).slot(s) == old(self).slot(s),
    {
        self.interop_offset = Some(offset);
    }

    /// Pop the first filled slot in consume order: no earlier-ranked slot
    /// is filled, the popped slot is cleared, and the rest keep their value.
    pub fn next(&mut self) -> (r: Option<(u32, Section)>)
        ensures
            match r {
                Some((offset, sec)) => {
                    &&& old(self).slot(sec) == Some(offset)
                    &&& final(self).slot(sec) is None
                    &&& forall|s: Section|
                        s != sec ==> #[trigger] final(self).slot(s) == old(self).slot(s)
                    &&& forall|s: Section|
                        section_rank(s) < section_rank(sec) ==> #[trigger] old(self).slot(s)
                            is None
                },
                None => old(self).all_empty() && *final(self) == *old(self),
            },
    {
        if let Some(offset) = self.ifd0_offset {
            self.ifd0_offset = None;
            return Some((offset, Section::IFD0));
        }
        if let Some(offset) = self.ifd1_offset {
            self.ifd1_offset = None;
            return Some((offset, Section::IFD1));
        }
        if let Some(offset) = self.gps_offset {
            self.gps_offset = None;
            return Some((offset, Section::GPS));
        }
        if let Some(offset) = self.sub_ifd_offset {
            self.sub_ifd_offset = None;
            return Some((offset, Section::SubIFD));
        }
        if let Some(offset) = self.interop_offset {
            self.interop_offset = None;
            return Some((offset, Section::InteropIFD));
        }
        None
    }
}

/// Number of filled slots, plus a bonus while the IFD0 slot is filled:
/// draining IFD0 is the one step that can refill another slot (IFD1), so
/// the bonus keeps this measure strictly decreasing.
pub open spec fn slots_measure(so: SectionOffsetIterator) -> int {
    (if so.slot(Section::IFD0) is Some {
        3int
    } else {
        0int
    }) + (if so.slot(Section::IFD1) is Some {
        1int
    } else {
        0int
    }) + (if so.slot(Section::GPS) is Some {
        1int
    } else {
        0int
    }) + (if so.slot(Section::SubIFD) is Some {
        1int
    } else {
        0int
    }) + (if so.slot(Section::InteropIFD) is Some {
        1int
    } else {
        0int
    })
}

/// Every filled slot ranks at least `bound` in consume order.
pub open spec fn slots_ge(so: SectionOffsetIterator, bound: int) -> bool {
    forall|s: Section| #[trigger] so.slot(s) is Some ==> section_rank(s) >= bound
}

/// The first filled slot in consume order.
pub open spec fn first_filled(so: SectionOffsetIterator) -> Section
    recommends
        !so.all_empty(),
{
    if so.ifd0_offset is Some {
        Section::IFD0
    } else if so.ifd1_offset is Some {
        Section::IFD1
    } else if so.gps_offset is Some {
        Section::GPS
    } else if so.sub_ifd_offset is Some {
        Section::SubIFD
    } else {
        Section::InteropIFD
    }
}

/// The offset held by the first filled slot in consume order.
pub open spec fn first_offset(so: SectionOffsetIterator) -> u32
    recommends
        !so.all_empty(),
{
    match so.slot(first_filled(so)) {
        Some(v) => v,
        None => 0,
    }
}

/// The table with the slot of section `s` holding `v`.
pub open spec fn with_slot(so: SectionOffsetIterator, s: Section, v: Option<u32>) -> SectionOffsetIterator {
    match s {
        Section::IFD0 => SectionOffsetIterator {
            ifd0_offset: v,
            ifd1_offset: so.ifd1_offset,
            gps_offset: so.gps_offset,
            sub_ifd_offset: so.sub_ifd_offset,
            interop_offset: so.interop_offset,
        },
        Section::IFD1 => SectionOffsetIterator {
            ifd0_offset: so.ifd0_offset,
            ifd1_offset: v,
            gps_offset: so.gps_offset,
            sub_ifd_offset: so.sub_ifd_offset,
            interop_offset: so.interop_offset,
        },
        Section::GPS => SectionOffsetIterator {
            ifd0_offset: so.ifd0_offset,
            ifd1_offset: so.ifd1_offset,
            gps_offset: v,
            sub_ifd_offset: so.sub_ifd_offset,
            interop_offset: so.interop_offset,
        },
        Section::SubIFD => SectionOffsetIterator {
            ifd0_offset: so.ifd0_offset,
            ifd1_offset: so.ifd1_offset,
            gps_offset: so.gps_offset,
            sub_ifd_offset: v,
            interop_offset: so.interop_offset,
        },
        Section::InteropIFD => SectionOffsetIterator {
            ifd0_offset: so.ifd0_offset,
            ifd1_offset: so.ifd1_offset,
            gps_offset: so.gps_offset,
            sub_ifd_offset: so.sub_ifd_offset,
            interop_offset: v,
        },
    }
}

/// The table after one emitted tag: a pointer tag records its target's
/// offset (the tag's first `UInt` component); any other tag, and a
/// pointer tag without such a component, leaves the table alone.
pub open spec fn recorded_pointer(
    so: SectionOffsetIterator,
    sec: Section,
    tag: RawExifTag,
) -> SectionOffsetIterator {
    match pointer_target(sec, tag.tag_type) {
        Some(target) => match first_uint(tag) {
            Some(offset) => with_slot(so, target, Some(offset)),
            None => so,
        },
        None => so,
    }
}

/// The table after IFD0's exhaustion step: the `u32` sitting `size` bytes
/// behind the IFD0 offset is recorded as the IFD1 offset when it is
/// readable and nonzero; otherwise the table is unchanged.
pub open spec fn ifd1_recorded(
    so: SectionOffsetIterator,
    ifd0_offset: u32,
    size: int,
    tiff: Cursor,
) -> SectionOffsetIterator {
    let target = ifd0_offset + size;
    let v = u32_of_bytes(tiff.spec_endianness(), tiff@.subrange(target, target + 4));
    if target + 4 <= tiff@.len() && v != 0 {
        with_slot(so, Section::IFD1, Some(v))
    } else {
        so
    }
}

/// What resuming the walker with no active section does, as a function of
/// the offset table `so` and the TIFF base `tiff`.
///
/// Slots are drained in consume order. A slot whose offset cannot even
/// cover a section count is one `UnexpectedEOF` item, and the walker
/// resumes from the remaining slots on the next call. A section with a
/// zero count emits nothing — though an empty IFD0 still reveals where
/// IFD1 would be — and the drain moves on within the same call. The first
/// section with entries becomes the active one, opened at `tiff + offset`,
/// and its first entry is emitted: the decode of the 12-byte window right
/// after the count (see [`read_tag_spec`]), paired with the section id,
/// with any pointer tag recorded in the table. Only an empty table ends
/// the stream.
pub open spec fn drain_spec(
    so: SectionOffsetIterator,
    tiff: Cursor,
    post: ExifTagIterator,
    r: Option<ParseResult<(RawExifTag, Section)>>,
) -> bool
    decreases slots_measure(so),
{
    if so.all_empty() {
        &&& r is None
        &&& post.spec_offsets() == so
        &&& post.spec_current() is None
    } else {
        let sec = first_filled(so);
        let off = first_offset(so);
        let so1 = with_slot(so, sec, None);
        if off > tiff@.len() || tiff@.len() - off < 4 {
            &&& r == Some(Err::<(RawExifTag, Section), ParseError>(ParseError::UnexpectedEOF))
            &&& post.spec_offsets() == so1
            &&& post.spec_current() is None
        } else {
            let sbytes = tiff@.subrange(off as int, tiff@.len() as int);
            let count = u32_of_bytes(tiff.spec_endianness(), sbytes.take(4));
            if count == 0 {
                let so2 = if sec == Section::IFD0 {
                    ifd1_recorded(so1, off, 4, tiff)
                } else {
                    so1
                };
                drain_spec(so2, tiff, post, r)
            } else {
                match post.spec_current() {
                    Some((it2, pair)) => {
                        &&& pair == (off, sec)
                        &&& it2.spec_len() == count
                        &&& it2.spec_index() == 1
                        &&& it2.spec_cursor()@ == sbytes.subrange(4, sbytes.len() as int)
                        &&& it2.spec_cursor().spec_pos() == tiff.spec_pos() + off + 4
                        &&& it2.spec_cursor().spec_endianness() == tiff.spec_endianness()
                        &&& it2.spec_tiff() == tiff
                        &&& match r {
                            Some(Ok((tag, s2))) => {
                                &&& s2 == sec
                                &&& read_tag_spec(it2.spec_cursor(), tiff, Ok(tag))
                                &&& post.spec_offsets() == recorded_pointer(so1, sec, tag)
                            },
                            Some(Err(e)) => {
                                &&& read_tag_spec(
                                    it2.spec_cursor(),
                                    tiff,
                                    Err::<RawExifTag, ParseError>(e),
                                )
                                &&& post.spec_offsets() == so1
                            },
                            None => false,
                        }
                    },
                    None => false,
                }
            }
        }
    }
}

/// The first `UInt` component of a tag, if it has one: offsets to the
/// auxiliary sections are stored this way.
pub open spec fn first_uint(tag: RawExifTag) -> Option<u32> {
    match tag.value {
        ExifVariant::UInt(c) => if c.spec_len() > 0 {
            Some(u32_of_bytes(c.spec_cursor().spec_endianness(), c.spec_cursor()@.take(4)))
        } else {
            None
        },
        _ => None,
    }
}

/// The slot a pointer tag fills: the GPS IFD and SubIFD offsets hide in
/// IFD0 tags `0x8825` and `0x8769`, the Interop IFD offset in SubIFD tag
/// `0xA005`. A pointer's target always ranks after its carrier.
pub open spec fn pointer_target(section_id: Section, tag_type: u16) -> Option<Section> {
    if section_id == Section::IFD0 && tag_type == 0x8825 {
        Some(Section::GPS)
    } else if section_id == Section::IFD0 && tag_type == 0x8769 {
        Some(Section::SubIFD)
    } else if section_id == Section::SubIFD && tag_type == 0xa005 {
        Some(Section::InteropIFD)
    } else {
        None
    }
}

/// What `SectionOffsetIterator::next` pops is exactly the first filled
/// slot in consume order, and the table it leaves is that slot cleared.
proof fn lemma_popped_is_first(
    pre: SectionOffsetIterator,
    post: SectionOffsetIterator,
    off: u32,
    sec: Section,
)
    requires
        pre.slot(sec) == Some(off),
        post.slot(sec) is None,
        forall|s: Section| s != sec ==> #[trigger] post.slot(s) == pre.slot(s),
        forall|s: Section| section_rank(s) < section_rank(sec) ==> #[trigger] pre.slot(s) is None,
    ensures
        sec == first_filled(pre),
        off == first_offset(pre),
        post == with_slot(pre, sec, None),
{
    assert(section_rank(Section::IFD0) < section_rank(sec) ==> pre.slot(Section::IFD0) is None);
    assert(section_rank(Section::IFD1) < section_rank(sec) ==> pre.slot(Section::IFD1) is None);
    assert(section_rank(Section::GPS) < section_rank(sec) ==> pre.slot(Section::GPS) is None);
    assert(section_rank(Section::SubIFD) < section_rank(sec) ==> pre.slot(Section::SubIFD)
        is None);
    assert(post.slot(Section::IFD0) == with_slot(pre, sec, None).slot(Section::IFD0));
    assert(post.slot(Section::IFD1) == with_slot(pre, sec, None).slot(Section::IFD1));
    assert(post.slot(Section::GPS) == with_slot(pre, sec, None).slot(Section::GPS));
    assert(post.slot(Section::SubIFD) == with_slot(pre, sec, None).slot(Section::SubIFD));
    assert(post.slot(Section::InteropIFD) == with_slot(pre, sec, None).slot(Section::InteropIFD));
}

/// The relational effect of recording a pointer tag is exactly
/// [`recorded_pointer`].
proof fn lemma_recorded_pointer(
    pre: SectionOffsetIterator,
    post: SectionOffsetIterator,
    sec: Section,
    tag: RawExifTag,
)
    requires
        match pointer_target(sec, tag.tag_type) {
            Some(target) => match first_uint(tag) {
                Some(offset) => post.slot(target) == Some(offset) && forall|s: Section|
                    s != target ==> #[trigger] post.slot(s) == pre.slot(s),
                None => post == pre,
            },
            None => post == pre,
        },
    ensures
        post == recorded_pointer(pre, sec, tag),
{
    match pointer_target(sec, tag.tag_type) {
        Some(target) => {
            match first_uint(tag) {
                Some(offset) => {
                    let expected = with_slot(pre, target, Some(offset));
                    assert(post.slot(Section::IFD0) == expected.slot(Section::IFD0));
                    assert(post.slot(Section::IFD1) == expected.slot(Section::IFD1));
                    assert(post.slot(Section::GPS) == expected.slot(Section::GPS));
                    assert(post.slot(Section::SubIFD) == expected.slot(Section::SubIFD));
                    assert(post.slot(Section::InteropIFD) == expected.slot(Section::InteropIFD));
                },
                None => {},
            }
        },
        None => {},
    }
}

/// The relational effect of the IFD1 discovery step is exactly
/// [`ifd1_recorded`].
proof fn lemma_ifd1_step(
    pre: SectionOffsetIterator,
    post: SectionOffsetIterator,
    ifd0_offset: u32,
    size: int,
    tiff: Cursor,
)
    requires
        ({
            let target = ifd0_offset + size;
            let v = u32_of_bytes(tiff.spec_endianness(), tiff@.subrange(target, target + 4));
            if target + 4 <= tiff@.len() && v != 0 {
                post.slot(Section::IFD1) == Some(v) && forall|s: Section|
                    s != Section::IFD1 ==> #[trigger] post.slot(s) == pre.slot(s)
            } else {
                post == pre
            }
        }),
    ensures
        post == ifd1_recorded(pre, ifd0_offset, size, tiff),
{
    let target = ifd0_offset + size;
    let v = u32_of_bytes(tiff.spec_endianness(), tiff@.subrange(target, target + 4));
    if target + 4 <= tiff@.len() && v != 0 {
        let expected = with_slot(pre, Section::IFD1, Some(v));
        assert(post.slot(Section::IFD0) == expected.slot(Section::IFD0));
        assert(post.slot(Section::IFD1) == expected.slot(Section::IFD1));
        assert(post.slot(Section::GPS) == expected.slot(Section::GPS));
        assert(post.slot(Section::SubIFD) == expected.slot(Section::SubIFD));
        assert(post.slot(Section::InteropIFD) == expected.slot(Section::InteropIFD));
    }
}

/// Get the offset from a tag meant to hold the offset of another IFD.
fn offset_from_tag<'a>(tag: &RawExifTag<'a>) -> (r: Option<u32>)
    requires
        tag_wf(*tag),
    ensures
        r == first_uint(*tag),
{
    match &tag.value {
        ExifVariant::UInt(components) => {
            let mut it = components.iter();
            it.next()
        },
        _ => None,
    }
}

/// Record in the offset table any auxiliary-section offset that this tag
/// carries; tags that are no pointer leave the table unchanged.
fn update_offset_iter<'a>(
    offset_iter: &mut SectionOffsetIterator,
    section_id: Section,
    tag: &RawExifTag<'a>,
)
    requires
        tag_wf(*tag),
    ensures
        match pointer_target(section_id, tag.tag_type) {
            Some(target) => match first_uint(*tag) {
                Some(offset) => {
                    &&& final(offset_iter).slot(target) == Some(offset)
                    &&& forall|s: Section|
                        s != target ==> #[trigger] final(offset_iter).slot(s) == old(
                            offset_iter,
                        ).slot(s)
                },
                None => *final(offset_iter) == *old(offset_iter),
            },
            None => *final(offset_iter) == *old(offset_iter),
        },
{
    if section_id == Section::IFD0 && tag.tag_type == 0x8825 {
        if let Some(offset) = offset_from_tag(tag) {
            offset_iter.set_gps_offset(offset);
        }
    } else if section_id == Section::IFD0 && tag.tag_type == 0x8769 {
        if let Some(offset) = offset_from_tag(tag) {
            offset_iter.set_sub_ifd_offset(offset);
        }
    } else if section_id == Section::SubIFD && tag.tag_type == 0xa005 {
        if let Some(offset) = offset_from_tag(tag) {
            offset_iter.set_interop_offset(offset);
        }
    }
}

/// The IFD1 offset does not come in a tag: it is the `u32` sitting right
/// behind IFD0's entries, `ifd0_size` bytes after the IFD0 offset. Zero
/// means there is no thumbnail IFD; so does an offset outside the buffer.
pub fn update_offset_iter_with_idf1(
    offset_iter: &mut SectionOffsetIterator,
    ifd0_offset: u32,
    ifd0_size: u64,
    tiff_cursor: Cursor<'_>,
)
    requires
        tiff_cursor.wf(),
        ifd0_size <= 0xc_0000_0004,
    ensures
        ({
            let target = ifd0_offset + ifd0_size;
            let v = u32_of_bytes(
                tiff_cursor.spec_endianness(),
                tiff_cursor@.subrange(target, target + 4),
            );
            if target + 4 <= tiff_cursor@.len() && v != 0 {
                &&& final(offset_iter).slot(Section::IFD1) == Some(v)
                &&& forall|s: Section|
                    s != Section::IFD1 ==> #[trigger] final(offset_iter).slot(s) == old(
                        offset_iter,
                    ).slot(s)
            } else {
                *final(offset_iter) == *old(offset_iter)
            }
        }),
{
    let target: u64 = (ifd0_offset as u64) + ifd0_size;
    let remaining = tiff_cursor.len();
    if target <= remaining as u64 {
        let mut ifd1_offset_cursor = match tiff_cursor.with_skip_or_fail(target as usize) {
            Ok(c) => c,
            Err(_) => {
                return ;
            },
        };
        proof {
            if tiff_cursor@.len() - target >= 4 {
                assert(tiff_cursor@.subrange(target as int, tiff_cursor@.len() as int).take(
                    4,
                ) =~= tiff_cursor@.subrange(target as int, target + 4));
            }
        }
        if let Some(ifd1_offset) = ifd1_offset_cursor.read_u32() {
            if ifd1_offset != 0 {
                offset_iter.set_ifd1_offset(ifd1_offset);
            }
        }
    }
}

/// Entries the active section has left to yield.
pub open spec fn cur_rem(it: ExifTagIterator) -> int {
    match it.spec_current() {
        Some((s, _)) => if s.spec_index() < s.spec_len() {
            s.spec_len() - s.spec_index()
        } else {
            0
        },
        None => 0,
    }
}

/// The section under the given id is the active one.
pub open spec fn current_is(it: ExifTagIterator, id: Section) -> bool {
    match it.spec_current() {
        Some((s, (o, i))) => i == id,
        None => false,
    }
}

/// The section under the given id is active with entries left.
pub open spec fn current_pending(it: ExifTagIterator, id: Section) -> bool {
    match it.spec_current() {
        Some((s, (o, i))) => i == id && s.spec_index() < s.spec_len(),
        None => false,
    }
}

/// IFD0 may still act: its exhaustion step is what records the IFD1 offset.
pub open spec fn ifd0_alive(it: ExifTagIterator) -> bool {
    current_is(it, Section::IFD0) || it.spec_offsets().slot(Section::IFD0) is Some
}

/// IFD0 may still emit: emissions are what record the GPS and SubIFD
/// offsets.
pub open spec fn ifd0_pending(it: ExifTagIterator) -> bool {
    current_pending(it, Section::IFD0) || it.spec_offsets().slot(Section::IFD0) is Some
}

/// The SubIFD may still emit: emissions are what record the Interop
/// offset.
pub open spec fn sub_pending(it: ExifTagIterator) -> bool {
    current_pending(it, Section::SubIFD) || it.spec_offsets().slot(Section::SubIFD) is Some
        || ifd0_pending(it)
}

/// The IFD1 section may still open.
pub open spec fn open_ifd1(it: ExifTagIterator) -> bool {
    it.spec_offsets().slot(Section::IFD1) is Some || ifd0_alive(it)
}

/// The GPS section may still open.
pub open spec fn open_gps(it: ExifTagIterator) -> bool {
    it.spec_offsets().slot(Section::GPS) is Some || ifd0_pending(it)
}

/// The SubIFD section may still open.
pub open spec fn open_sub(it: ExifTagIterator) -> bool {
    it.spec_offsets().slot(Section::SubIFD) is Some || ifd0_pending(it)
}

/// The Interop section may still open.
pub open spec fn open_interop(it: ExifTagIterator) -> bool {
    it.spec_offsets().slot(Section::InteropIFD) is Some || sub_pending(it)
}

/// An upper bound on the items the walker can still emit: the entries the
/// active section has left, plus one block of `0x1_0000_0000` — more
/// entries than any section can declare — for each section that may still
/// open. Every emission shrinks it, so the stream is finite.
pub open spec fn work_left(it: ExifTagIterator) -> int {
    cur_rem(it) + (if it.spec_offsets().slot(Section::IFD0) is Some {
        0x1_0000_0000int
    } else {
        0int
    }) + (if open_ifd1(it) {
        0x1_0000_0000int
    } else {
        0int
    }) + (if open_gps(it) {
        0x1_0000_0000int
    } else {
        0int
    }) + (if open_sub(it) {
        0x1_0000_0000int
    } else {
        0int
    }) + (if open_interop(it) {
        0x1_0000_0000int
    } else {
        0int
    })
}

/// While the active section of the walker still has entries, one call
/// steps exactly that section: the walker keeps the section open under the
/// same id and offset, and the emitted item is the section's own next item
/// (see [`section_step_spec`]) paired with the section's id.
pub open spec fn emitted_from_current(
    it: SectionIterator,
    off: u32,
    id: Section,
    post: ExifTagIterator,
    r: Option<ParseResult<(RawExifTag, Section)>>,
) -> bool {
    match post.spec_current() {
        Some((it2, pair2)) => pair2 == (off, id) && match r {
            Some(Ok((tag, sec))) => sec == id && section_step_spec(it, it2, Some(Ok(tag))),
            Some(Err(e)) => section_step_spec(it, it2, Some(Err(e))),
            None => false,
        },
        None => false,
    }
}

/// One flat stream of `(raw tag, section id)` pairs over every section the
/// file points at.
pub struct ExifTagIterator<'a> {
    section_offsets: SectionOffsetIterator,
    current_section: Option<(SectionIterator<'a>, (u32, Section))>,
    tiff_marker: Cursor<'a>,
    min_rank: Ghost<int>,
}

impl<'a> ExifTagIterator<'a> {
    pub closed spec fn spec_offsets(self) -> SectionOffsetIterator {
        self.section_offsets
    }

    pub closed spec fn spec_current(self) -> Option<(SectionIterator<'a>, (u32, Section))> {
        self.current_section
    }

    pub closed spec fn spec_tiff(self) -> Cursor<'a> {
        self.tiff_marker
    }

    /// Rank of the last emitted section id; no later emission ranks below
    /// it.
    pub closed spec fn spec_min_rank(self) -> int {
        self.min_rank@
    }

    pub open spec fn wf(self) -> bool {
        &&& self.spec_tiff().wf()
        &&& 0 <= self.spec_min_rank()
        &&& match self.spec_current() {
            Some((it, (off, id))) => {
                &&& it.wf()
                &&& it.spec_tiff() == self.spec_tiff()
                &&& section_rank(id) >= self.spec_min_rank()
                &&& slots_ge(self.spec_offsets(), section_rank(id))
            },
            None => slots_ge(self.spec_offsets(), self.spec_min_rank()),
        }
    }

    pub fn new(tiff_marker: Cursor<'a>, ifd0_offset: u32) -> (r: ExifTagIterator<'a>)
        requires
            tiff_marker.wf(),
        ensures
            r.wf(),
            r.spec_tiff() == tiff_marker,
            r.spec_current() is None,
            r.spec_offsets().slot(Section::IFD0) == Some(ifd0_offset),
            forall|s: Section| s != Section::IFD0 ==> #[trigger] r.spec_offsets().slot(s) is None,
            r.spec_min_rank() == 0,
    {
        ExifTagIterator {
            section_offsets: SectionOffsetIterator::new(ifd0_offset),
            current_section: None,
            tiff_marker,
            min_rank: Ghost(0),
        }
    }

    fn open_section(&self, offset: u32) -> (r: ParseResult<SectionIterator<'a>>)
        requires
            self.spec_tiff().wf(),
        ensures
            ({
                let tiff = self.spec_tiff();
                let sbytes = tiff@.subrange(offset as int, tiff@.len() as int);
                match r {
                    Ok(it) => {
                        &&& offset + 4 <= tiff@.len()
                        &&& it.wf()
                        &&& it.spec_tiff() == tiff
                        &&& it.spec_index() == 0
                        &&& it.spec_len() == u32_of_bytes(tiff.spec_endianness(), sbytes.take(4))
                        &&& it.spec_cursor()@ == sbytes.subrange(4, sbytes.len() as int)
                        &&& it.spec_cursor().spec_pos() == tiff.spec_pos() + offset + 4
                        &&& it.spec_cursor().spec_endianness() == tiff.spec_endianness()
                    },
                    Err(e) => {
                        &&& (offset > tiff@.len() || tiff@.len() - offset < 4)
                        &&& e == ParseError::UnexpectedEOF
                    },
                }
            }),
    {
        let cursor = match self.tiff_marker.with_skip_or_fail(offset as usize) {
            Ok(c) => c,
            Err(e) => {
                return Err(e);
            },
        };
        proof {
            let tiff = self.spec_tiff();
            let sbytes = tiff@.subrange(offset as int, tiff@.len() as int);
            assert(sbytes.take(4) =~= cursor@.take(4));
            assert(sbytes.subrange(4, sbytes.len() as int) =~= cursor@.subrange(
                4,
                cursor@.len() as int,
            ));
        }
        read_section(cursor, self.tiff_marker)
    }

    /// Emit the next `(raw tag, section id)` pair.
    ///
    /// Law (section order): the ranks of the section ids carried by emitted
    /// tags never decrease, so the stream is grouped `IFD0*, IFD1*, GPS*,
    /// SubIFD*, Interop*`.
    ///
    /// While the active section has entries left, the emitted item is that
    /// section's next entry (see [`section_step_spec`]) paired with its id.
    /// When a section is exhausted the walker pops the next recorded offset
    /// in consume order and opens it; a failed open surfaces as one `Err`
    /// item and the walker moves on. `None` only once no offsets remain.
    pub fn next(&mut self) -> (r: Option<ParseResult<(RawExifTag<'a>, Section)>>)
        requires
            old(self).wf(),
        ensures
            final(self).wf(),
            final(self).spec_tiff() == old(self).spec_tiff(),
            final(self).spec_min_rank() >= old(self).spec_min_rank(),
            (r matches Some(Ok((tag, sec))) ==> section_rank(sec) >= old(self).spec_min_rank()
                && final(self).spec_min_rank() == section_rank(sec) && tag_wf(tag)),
            r is None ==> final(self).spec_offsets().all_empty(),
            old(self).spec_current() is None && old(self).spec_offsets().all_empty() ==> r is None
                && *final(self) == *old(self),
            // The stream is finite: every emission shrinks the work bound.
            r is Some ==> work_left(*final(self)) < work_left(*old(self)),
            match old(self).spec_current() {
                Some((it, (off, id))) => if it.spec_index() < it.spec_len() {
                    &&& emitted_from_current(it, off, id, *final(self), r)
                    &&& match r {
                        Some(Ok((tag, sec))) => final(self).spec_offsets() == recorded_pointer(
                            old(self).spec_offsets(),
                            id,
                            tag,
                        ),
                        Some(Err(e)) => final(self).spec_offsets() == old(self).spec_offsets(),
                        None => false,
                    }
                } else {
                    drain_spec(
                        if id == Section::IFD0 {
                            ifd1_recorded(
                                old(self).spec_offsets(),
                                off,
                                it.spec_len() * 12 + 4,
                                old(self).spec_tiff(),
                            )
                        } else {
                            old(self).spec_offsets()
                        },
                        old(self).spec_tiff(),
                        *final(self),
                        r,
                    )
                },
                None => drain_spec(
                    old(self).spec_offsets(),
                    old(self).spec_tiff(),
                    *final(self),
                    r,
                ),
            },
    {
        // Step the active section first, if one is open.
        match self.current_section {
            Some((mut section_it, (offset, id))) => {
                match section_it.next() {
                    Some(tag) => {
                        self.current_section = Some((section_it, (offset, id)));
                        let ghost pre_offsets = self.section_offsets;
                        if let Ok(t) = &tag {
                            // A tag may carry the offset of a later section.
                            update_offset_iter(&mut self.section_offsets, id, t);
                            proof {
                                lemma_recorded_pointer(
                                    pre_offsets,
                                    self.section_offsets,
                                    id,
                                    *t,
                                );
                            }
                        }
                        proof {
                            self.min_rank@ = section_rank(id);
                        }
                        // Pair the section id with the tag: tag numbers are
                        // only unique inside their section.
                        return match tag {
                            Ok(t) => Some(Ok((t, id))),
                            Err(e) => Some(Err(e)),
                        };
                    },
                    None => {
                        if id == Section::IFD0 {
                            // The pointer to IFD1 sits right after IFD0.
                            let ghost pre_offsets = self.section_offsets;
                            let size = section_it.byte_size();
                            update_offset_iter_with_idf1(
                                &mut self.section_offsets,
                                offset,
                                size,
                                self.tiff_marker,
                            );
                            proof {
                                lemma_ifd1_step(
                                    pre_offsets,
                                    self.section_offsets,
                                    offset,
                                    size as int,
                                    self.tiff_marker,
                                );
                            }
                        }
                        self.current_section = None;
                    },
                }
            },
            None => {},
        }
        // The drain start: the table as it stands after the exhaustion
        // step, which the function's contract names explicitly.
        let ghost so0 = self.section_offsets;
        let ghost tiff0 = self.spec_tiff();
        proof {
            match old(self).spec_current() {
                Some((it, (off, id))) => {
                    if it.spec_index() >= it.spec_len() {
                        if id == Section::IFD0 {
                            assert(so0 == ifd1_recorded(
                                old(self).spec_offsets(),
                                off,
                                it.spec_len() * 12 + 4,
                                old(self).spec_tiff(),
                            ));
                        } else {
                            assert(so0 == old(self).spec_offsets());
                        }
                    }
                },
                None => {
                    assert(so0 == old(self).spec_offsets());
                },
            }
        }
        // The active section is exhausted: open recorded sections in
        // consume order until one yields.
        loop
            invariant
                self.wf(),
                self.spec_current() is None,
                old(self).spec_current() is None && old(self).spec_offsets().all_empty()
                    ==> *self == *old(self),
                self.spec_offsets().slot(Section::IFD0) is Some ==> old(self).spec_offsets().slot(
                    Section::IFD0,
                ) is Some,
                open_ifd1(*self) ==> open_ifd1(*old(self)),
                open_gps(*self) ==> open_gps(*old(self)),
                open_sub(*self) ==> open_sub(*old(self)),
                open_interop(*self) ==> open_interop(*old(self)),
                self.spec_tiff() == old(self).spec_tiff(),
                self.spec_min_rank() >= old(self).spec_min_rank(),
                !(old(self).spec_current() matches Some((it, _)) && it.spec_index()
                    < it.spec_len()),
                tiff0 == old(self).spec_tiff(),
                match old(self).spec_current() {
                    Some((it, (off, id))) => it.spec_index() >= it.spec_len() ==> so0 == (
                    if id == Section::IFD0 {
                        ifd1_recorded(
                            old(self).spec_offsets(),
                            off,
                            it.spec_len() * 12 + 4,
                            old(self).spec_tiff(),
                        )
                    } else {
                        old(self).spec_offsets()
                    }),
                    None => so0 == old(self).spec_offsets(),
                },
                forall|
                    post: ExifTagIterator<'a>,
                    rr: Option<ParseResult<(RawExifTag<'a>, Section)>>,
                |
                    #[trigger] drain_spec(self.spec_offsets(), tiff0, post, rr) ==> drain_spec(
                        so0,
                        tiff0,
                        post,
                        rr,
                    ),
            decreases slots_measure(self.spec_offsets()),
        {
            let ghost so_k = self.section_offsets;
            let popped = self.section_offsets.next();
            match popped {
                None => {
                    proof {
                        assert(drain_spec(so_k, tiff0, *self, None));
                    }
                    return None;
                },
                Some((offset, id)) => {
                    proof {
                        lemma_popped_is_first(so_k, self.section_offsets, offset, id);
                        assert(!so_k.all_empty());
                    }
                    match self.open_section(offset) {
                        Err(e) => {
                            proof {
                                assert(drain_spec(so_k, tiff0, *self, Some(Err(e))));
                            }
                            return Some(Err(e));
                        },
                        Ok(mut section_it) => {
                            match section_it.next() {
                                Some(tag) => {
                                    self.current_section = Some((section_it, (offset, id)));
                                    let ghost pre_offsets = self.section_offsets;
                                    if let Ok(t) = &tag {
                                        update_offset_iter(&mut self.section_offsets, id, t);
                                        proof {
                                            lemma_recorded_pointer(
                                                pre_offsets,
                                                self.section_offsets,
                                                id,
                                                *t,
                                            );
                                        }
                                    }
                                    proof {
                                        self.min_rank@ = section_rank(id);
                                    }
                                    let r = match tag {
                                        Ok(t) => Some(Ok((t, id))),
                                        Err(e) => Some(Err(e)),
                                    };
                                    proof {
                                        assert(drain_spec(so_k, tiff0, *self, r));
                                    }
                                    return r;
                                },
                                None => {
                                    // An empty section; IFD0 still reveals
                                    // where IFD1 would be.
                                    let ghost pre_offsets = self.section_offsets;
                                    let ghost size_g = section_it.spec_len() * 12 + 4;
                                    if id == Section::IFD0 {
                                        let size = section_it.byte_size();
                                        update_offset_iter_with_idf1(
                                            &mut self.section_offsets,
                                            offset,
                                            size,
                                            self.tiff_marker,
                                        );
                                        proof {
                                            lemma_ifd1_step(
                                                pre_offsets,
                                                self.section_offsets,
                                                offset,
                                                size as int,
                                                self.tiff_marker,
                                            );
                                        }
                                    }
                                    proof {
                                        // One unfolding: draining from the
                                        // table at the top of this pass is
                                        // draining from the reduced table.
                                        assert(section_it.spec_len() == 0);
                                        assert forall|
                                            post: ExifTagIterator<'a>,
                                            rr: Option<
                                                ParseResult<(RawExifTag<'a>, Section)>,
                                            >,
                                        |
                                            #[trigger] drain_spec(
                                                self.spec_offsets(),
                                                tiff0,
                                                post,
                                                rr,
                                            ) implies drain_spec(so0, tiff0, post, rr) by {
                                            assert(drain_spec(so_k, tiff0, post, rr)
                                                == drain_spec(
                                                self.spec_offsets(),
                                                tiff0,
                                                post,
                                                rr,
                                            ));
                                        }
                                    }
                                },
                            }
                        },
                    }
                },
            }
        }
    }
}

/// Open the Exif block of an APP1 payload and return the flat tag stream:
/// the TIFF base comes from the validated header, and IFD0 sits at the
/// offset stored in the four bytes after the TIFF preamble.
pub fn read_tags<'a>(app1_cursor: Cursor<'a>) -> (r: ParseResult<ExifTagIterator<'a>>)
    requires
        app1_cursor.wf(),
    ensures
        match r {
            Ok(it) => {
                &&& it.wf()
                &&& header_accepts(app1_cursor@, app1_cursor.spec_endianness())
                &&& app1_cursor@.len() >= 14
                &&& header_spec(
                    app1_cursor@,
                    app1_cursor.spec_pos(),
                    app1_cursor.spec_endianness(),
                    Ok(it.spec_tiff()),
                )
                &&& it.spec_tiff()@.len() >= 8
                &&& it.spec_current() is None
                &&& it.spec_min_rank() == 0
                &&& it.spec_offsets().slot(Section::IFD0) == Some(
                    u32_of_bytes(it.spec_tiff().spec_endianness(), it.spec_tiff()@.subrange(4, 8)),
                )
                &&& forall|s: Section|
                    s != Section::IFD0 ==> #[trigger] it.spec_offsets().slot(s) is None
            },
            Err(e) => if header_accepts(app1_cursor@, app1_cursor.spec_endianness()) {
                // The header is sound but the TIFF block ends before the
                // IFD0 offset can be read.
                e == ParseError::UnexpectedEOF && app1_cursor@.len() < 14
            } else {
                header_spec(
                    app1_cursor@,
                    app1_cursor.spec_pos(),
                    app1_cursor.spec_endianness(),
                    Err::<Cursor, ParseError>(e),
                )
            },
        },
{
    let mut c = app1_cursor;
    let tiff_marker = match read_exif_header(&mut c) {
        Ok(t) => t,
        Err(e) => {
            return Err(e);
        },
    };
    // Skip the TIFF endianness marker and magic to reach the IFD0 offset.
    let mut offset_cursor = match tiff_marker.with_skip_or_fail(4) {
        Ok(c2) => c2,
        Err(e) => {
            return Err(e);
        },
    };
    let ifd0_offset: u32 = match offset_cursor.read_u32() {
        Some(v) => v,
        None => {
            return Err(ParseError::UnexpectedEOF);
        },
    };
    proof {
        if tiff_marker@.len() >= 8 {
            assert(tiff_marker@.subrange(4, tiff_marker@.len() as int).take(
                4,
            ) =~= tiff_marker@.subrange(4, 8));
        }
    }
    Ok(ExifTagIterator::new(tiff_marker, ifd0_offset))
}

} // verus!
