//! The semantic transformer: wraps the multi-section walker and emits
//! typed facts.
//!
//! Single raw tags map directly (description, make, model, the three
//! timestamps); the thumbnail descriptor and the GPS position are
//! assembled from their tag groups, which emit nothing until the sighting
//! that completes them; every other raw tag passes through unchanged.

use crate::error::{ParseError, ParseResult};
use crate::tag::{tag_wf, ExifVariant, RawExifTag};
use crate::cursor::Cursor;
use crate::tags::{
    drain_spec, emitted_from_current, ifd1_recorded, ExifTagIterator, Section,
    SectionOffsetIterator,
};
use crate::transform::gps::{
    gps_coordinate_of, gps_position_result, GpsDegreeCombiner, GpsPositionCombiner,
};
use crate::transform::tag::Tag;
use crate::transform::thumbnail::{thumbnail_result, ThumbnailCombiner};
use crate::value_types::datetime::{datetime_of, to_datetime};
use vstd::prelude::*;

verus! {

/// A tag claimed by one transformation stage, or handed on to the next.
enum Matched<'a, T> {
    Claimed(T),
    Unmatched(RawExifTag<'a>),
}

/// What the thumbnail group emits after a sighting: nothing while the
/// group is incomplete, else the assembled descriptor or its defect.
pub open spec fn thumb_emission(c: ThumbnailCombiner) -> Option<ParseResult<Tag>> {
    match thumbnail_result(c) {
        Some(Ok(info)) => Some(Ok(Tag::Thumbnail(info))),
        Some(Err(e)) => Some(Err(e)),
        None => None,
    }
}

/// What the GPS group emits after a sighting that touched the latitude
/// pair (`touched_lat`) or the longitude pair: the position once all four
/// tags are present, a defect of the touched pair as soon as that pair is
/// complete, and nothing otherwise.
pub open spec fn gps_emission(
    gps: GpsPositionCombiner,
    touched_lat: bool,
) -> Option<ParseResult<Tag>> {
    match gps_position_result(gps.latitude, gps.longitude) {
        Some(Ok(pos)) => Some(Ok(Tag::GpsPosition(pos))),
        Some(Err(e)) => Some(Err(e)),
        None => {
            let touched = if touched_lat {
                gps.latitude
            } else {
                gps.longitude
            };
            match (touched.degrees, touched.reference) {
                (Some(dtag), Some(rtag)) => match gps_coordinate_of(dtag, rtag) {
                    Ok(_) => None,
                    Err(e) => Some(Err(e)),
                },
                _ => None,
            }
        },
    }
}

/// What a text mapping emits: the borrowed text under `make`, or a
/// malformed-tag defect when the value is no text.
pub open spec fn text_emission(tag: RawExifTag, which: int) -> ParseResult<Tag> {
    match tag.value {
        ExifVariant::Text(s) => if which == 0 {
            Ok(Tag::ImageDescription(s))
        } else if which == 1 {
            Ok(Tag::Make(s))
        } else {
            Ok(Tag::Model(s))
        },
        _ => Err(ParseError::MalformedTag),
    }
}

/// What a timestamp mapping emits: the parsed timestamp under the variant
/// `which` selects, or the tag's defect.
pub open spec fn date_emission(tag: RawExifTag, which: int) -> ParseResult<Tag> {
    match datetime_of(tag) {
        Ok(dt) => if which == 0 {
            Ok(Tag::ModifyDate(dt))
        } else if which == 1 {
            Ok(Tag::DateTimeOriginal(dt))
        } else {
            Ok(Tag::CreateDate(dt))
        },
        Err(e) => Err(e),
    }
}

/// The call digested the next raw item of a walker whose active section
/// still had entries: that item is exactly the section's next entry (see
/// [`emitted_from_current`]); a raw error passes through unchanged; a raw
/// tag whose [`transform_emission`] is an emission is returned with the
/// groups updated. Only a tag that joins a group without completing it
/// (emission `None`) lets the call move past it to later items.
pub open spec fn handles_first_item<'a>(
    it: crate::section::SectionIterator<'a>,
    off: u32,
    id: Section,
    pre: TagTransformer<'a>,
    post: TagTransformer<'a>,
    r: Option<ParseResult<Tag<'a>>>,
) -> bool {
    exists|mid: ExifTagIterator<'a>, item: ParseResult<(RawExifTag<'a>, Section)>|
        {
            &&& #[trigger] emitted_from_current(it, off, id, mid, Some(item))
            &&& match item {
                Err(e) => {
                    &&& r == Some(Err::<Tag, ParseError>(e))
                    &&& post.spec_raw() == mid
                    &&& post.spec_thumbnail() == pre.spec_thumbnail()
                    &&& post.spec_gps() == pre.spec_gps()
                },
                Ok((tag, sec)) => match transform_emission(
                    pre.spec_thumbnail(),
                    pre.spec_gps(),
                    tag,
                    sec,
                ) {
                    Some(res) => {
                        &&& r == Some(res)
                        &&& post.spec_raw() == mid
                        &&& post.spec_thumbnail() == updated_thumbnail(
                            pre.spec_thumbnail(),
                            tag,
                            sec,
                        )
                        &&& post.spec_gps() == updated_gps(pre.spec_gps(), tag, sec)
                    },
                    None => true,
                },
            }
        }
}

/// The call digested what resuming the walker over its offset table gives
/// (see [`drain_spec`]): the stream's end passes through as `None`, a raw
/// error as that error, and a raw tag whose [`transform_emission`] is an
/// emission is returned with the groups updated. Only a tag that joins a
/// group without completing it lets the call move on to later items.
pub open spec fn handles_first_drained_item<'a>(
    so: SectionOffsetIterator,
    tiff: Cursor<'a>,
    pre: TagTransformer<'a>,
    post: TagTransformer<'a>,
    r: Option<ParseResult<Tag<'a>>>,
) -> bool {
    exists|mid: ExifTagIterator<'a>, rr: Option<ParseResult<(RawExifTag<'a>, Section)>>|
        {
            &&& #[trigger] drain_spec(so, tiff, mid, rr)
            &&& match rr {
                None => {
                    &&& r is None
                    &&& post.spec_raw() == mid
                    &&& post.spec_thumbnail() == pre.spec_thumbnail()
                    &&& post.spec_gps() == pre.spec_gps()
                },
                Some(Err(e)) => {
                    &&& r == Some(Err::<Tag, ParseError>(e))
                    &&& post.spec_raw() == mid
                    &&& post.spec_thumbnail() == pre.spec_thumbnail()
                    &&& post.spec_gps() == pre.spec_gps()
                },
                Some(Ok((tag, sec))) => match transform_emission(
                    pre.spec_thumbnail(),
                    pre.spec_gps(),
                    tag,
                    sec,
                ) {
                    Some(res) => {
                        &&& r == Some(res)
                        &&& post.spec_raw() == mid
                        &&& post.spec_thumbnail() == updated_thumbnail(
                            pre.spec_thumbnail(),
                            tag,
                            sec,
                        )
                        &&& post.spec_gps() == updated_gps(pre.spec_gps(), tag, sec)
                    },
                    None => true,
                },
            }
        }
}

/// Resuming the walker yielded a raw tag that joined a group without
/// completing it, so the call moved past it.
pub open spec fn first_drained_stashed<'a>(
    so: SectionOffsetIterator,
    tiff: Cursor<'a>,
    pre: TagTransformer<'a>,
) -> bool {
    exists|mid: ExifTagIterator<'a>, rr: Option<ParseResult<(RawExifTag<'a>, Section)>>|
        {
            &&& #[trigger] drain_spec(so, tiff, mid, rr)
            &&& match rr {
                Some(Ok((tag, sec))) => transform_emission(
                    pre.spec_thumbnail(),
                    pre.spec_gps(),
                    tag,
                    sec,
                ) is None,
                _ => false,
            }
        }
}

/// A stashed first drained item lets the call hand on any outcome.
proof fn lemma_drained_stashed_handles<'a>(
    so: SectionOffsetIterator,
    tiff: Cursor<'a>,
    pre: TagTransformer<'a>,
    post: TagTransformer<'a>,
    r: Option<ParseResult<Tag<'a>>>,
)
    requires
        first_drained_stashed(so, tiff, pre),
    ensures
        handles_first_drained_item(so, tiff, pre, post, r),
{
}

/// The walker's active section still has entries to yield.
pub open spec fn raw_pending(raw: ExifTagIterator) -> bool {
    match raw.spec_current() {
        Some((it, _)) => it.spec_index() < it.spec_len(),
        None => false,
    }
}

/// The offset table the walker resumes from once its active section is
/// done: IFD0's exhaustion first records the IFD1 offset found behind its
/// entries.
pub open spec fn resume_table(raw: ExifTagIterator) -> SectionOffsetIterator {
    match raw.spec_current() {
        Some((it, (off, id))) => if id == Section::IFD0 {
            ifd1_recorded(raw.spec_offsets(), off, it.spec_len() * 12 + 4, raw.spec_tiff())
        } else {
            raw.spec_offsets()
        },
        None => raw.spec_offsets(),
    }
}

/// The walker's first item was a raw tag that joined a group without
/// completing it, so the call moved past it.
pub open spec fn first_item_stashed<'a>(
    it: crate::section::SectionIterator<'a>,
    off: u32,
    id: Section,
    pre: TagTransformer<'a>,
) -> bool {
    exists|mid: ExifTagIterator<'a>, item: ParseResult<(RawExifTag<'a>, Section)>|
        {
            &&& #[trigger] emitted_from_current(it, off, id, mid, Some(item))
            &&& match item {
                Ok((tag, sec)) => transform_emission(
                    pre.spec_thumbnail(),
                    pre.spec_gps(),
                    tag,
                    sec,
                ) is None,
                Err(_) => false,
            }
        }
}

/// A stashed first item lets the call hand on any outcome: the stash
/// clause of [`handles_first_item`] constrains nothing further.
proof fn lemma_stashed_handles<'a>(
    it: crate::section::SectionIterator<'a>,
    off: u32,
    id: Section,
    pre: TagTransformer<'a>,
    post: TagTransformer<'a>,
    r: Option<ParseResult<Tag<'a>>>,
)
    requires
        first_item_stashed(it, off, id, pre),
    ensures
        handles_first_item(it, off, id, pre, post, r),
{
}

/// Emits typed facts pulled from a raw tag stream.
pub struct TagTransformer<'a> {
    raw_tag_it: ExifTagIterator<'a>,
    thumbnail: ThumbnailCombiner<'a>,
    gps: GpsPositionCombiner<'a>,
}

/// The thumbnail group after sighting one raw tag: the offset and length
/// slots fill from IFD1 tags `0x0201`/`0x0202`, the compression slot from
/// IFD0 tag `0x0103`; any other tag leaves the group alone.
pub open spec fn updated_thumbnail<'a>(
    c: ThumbnailCombiner<'a>,
    raw_tag: RawExifTag<'a>,
    section: Section,
) -> ThumbnailCombiner<'a> {
    let t = raw_tag.tag_type;
    if section == Section::IFD1 && t == 0x0201 {
        ThumbnailCombiner { offset: Some(raw_tag), length: c.length, compression: c.compression }
    } else if section == Section::IFD1 && t == 0x0202 {
        ThumbnailCombiner { offset: c.offset, length: Some(raw_tag), compression: c.compression }
    } else if section == Section::IFD0 && t == 0x0103 {
        ThumbnailCombiner { offset: c.offset, length: c.length, compression: Some(raw_tag) }
    } else {
        c
    }
}

/// The GPS group after sighting one raw tag: GPS tags `0x0001`..`0x0004`
/// fill the latitude reference and degrees and the longitude reference
/// and degrees; any other tag leaves the group alone.
pub open spec fn updated_gps<'a>(
    g: GpsPositionCombiner<'a>,
    raw_tag: RawExifTag<'a>,
    section: Section,
) -> GpsPositionCombiner<'a> {
    let t = raw_tag.tag_type;
    if section == Section::GPS && t == 0x0001 {
        GpsPositionCombiner {
            latitude: GpsDegreeCombiner {
                degrees: g.latitude.degrees,
                reference: Some(raw_tag),
            },
            longitude: g.longitude,
        }
    } else if section == Section::GPS && t == 0x0002 {
        GpsPositionCombiner {
            latitude: GpsDegreeCombiner {
                degrees: Some(raw_tag),
                reference: g.latitude.reference,
            },
            longitude: g.longitude,
        }
    } else if section == Section::GPS && t == 0x0003 {
        GpsPositionCombiner {
            latitude: g.latitude,
            longitude: GpsDegreeCombiner {
                degrees: g.longitude.degrees,
                reference: Some(raw_tag),
            },
        }
    } else if section == Section::GPS && t == 0x0004 {
        GpsPositionCombiner {
            latitude: g.latitude,
            longitude: GpsDegreeCombiner {
                degrees: Some(raw_tag),
                reference: g.longitude.reference,
            },
        }
    } else {
        g
    }
}

/// What digesting one raw tag emits, given the groups as they stood
/// before the sighting: group members emit what their updated group
/// gives, direct mappings emit at once, and everything else passes
/// through as `Other`.
pub open spec fn transform_emission<'a>(
    thumb: ThumbnailCombiner<'a>,
    gps: GpsPositionCombiner<'a>,
    raw_tag: RawExifTag<'a>,
    section: Section,
) -> Option<ParseResult<Tag<'a>>> {
    let t = raw_tag.tag_type;
    if section == Section::GPS && (t == 0x0001 || t == 0x0002 || t == 0x0003 || t == 0x0004) {
        gps_emission(updated_gps(gps, raw_tag, section), t == 0x0001 || t == 0x0002)
    } else if (section == Section::IFD1 && (t == 0x0201 || t == 0x0202)) || (section
        == Section::IFD0 && t == 0x0103) {
        thumb_emission(updated_thumbnail(thumb, raw_tag, section))
    } else if section == Section::SubIFD && t == 0x0132 {
        Some(date_emission(raw_tag, 0))
    } else if section == Section::SubIFD && t == 0x9003 {
        Some(date_emission(raw_tag, 1))
    } else if section == Section::SubIFD && t == 0x9004 {
        Some(date_emission(raw_tag, 2))
    } else if section == Section::IFD0 && t == 0x010e {
        Some(text_emission(raw_tag, 0))
    } else if section == Section::IFD0 && t == 0x010f {
        Some(text_emission(raw_tag, 1))
    } else if section == Section::IFD0 && t == 0x0110 {
        Some(text_emission(raw_tag, 2))
    } else {
        Some(Ok(Tag::Other(raw_tag)))
    }
}

/// Everything [`TagTransformer::transform_raw_tag`] promises: the groups
/// are updated exactly as [`updated_thumbnail`] and [`updated_gps`] say,
/// and the result is exactly [`transform_emission`] over the groups as
/// they stood before the sighting.
pub open spec fn transform_spec<'a>(
    pre: TagTransformer<'a>,
    raw_tag: RawExifTag<'a>,
    section: Section,
    post: TagTransformer<'a>,
    r: Option<ParseResult<Tag<'a>>>,
) -> bool {
    &&& post.spec_thumbnail() == updated_thumbnail(pre.spec_thumbnail(), raw_tag, section)
    &&& post.spec_gps() == updated_gps(pre.spec_gps(), raw_tag, section)
    &&& r == transform_emission(pre.spec_thumbnail(), pre.spec_gps(), raw_tag, section)
}

impl<'a> TagTransformer<'a> {
    pub closed spec fn spec_raw(self) -> ExifTagIterator<'a> {
        self.raw_tag_it
    }

    pub closed spec fn spec_thumbnail(self) -> ThumbnailCombiner<'a> {
        self.thumbnail
    }

    pub closed spec fn spec_gps(self) -> GpsPositionCombiner<'a> {
        self.gps
    }

    pub open spec fn wf(self) -> bool {
        &&& self.spec_raw().wf()
        &&& self.spec_thumbnail().wf()
        &&& self.spec_gps().wf()
    }

    /// A transformer over a raw tag stream, with empty group slots.
    pub fn new(raw_tag_it: ExifTagIterator<'a>) -> (r: TagTransformer<'a>)
        requires
            raw_tag_it.wf(),
        ensures
            r.wf(),
            r.spec_raw() == raw_tag_it,
            thumbnail_result(r.spec_thumbnail()) is None,
            gps_position_result(r.spec_gps().latitude, r.spec_gps().longitude) is None,
    {
        TagTransformer {
            raw_tag_it,
            thumbnail: ThumbnailCombiner::new(),
            gps: GpsPositionCombiner::new(),
        }
    }

    fn transform_gps_tags(&mut self, raw_tag: RawExifTag<'a>, section: Section) -> (r: Matched<
        'a,
        Option<ParseResult<Tag<'a>>>,
    >)
        requires
            old(self).wf(),
            tag_wf(raw_tag),
        ensures
            final(self).wf(),
            final(self).spec_raw() == old(self).spec_raw(),
            final(self).spec_thumbnail() == old(self).spec_thumbnail(),
            ({
                let t = raw_tag.tag_type;
                if section == Section::GPS && (t == 0x0001 || t == 0x0002 || t == 0x0003 || t
                    == 0x0004) {
                    r matches Matched::Claimed(res) && transform_spec(
                        *old(self),
                        raw_tag,
                        section,
                        *final(self),
                        res,
                    )
                } else {
                    r == Matched::<Option<ParseResult<Tag>>>::Unmatched(raw_tag) && *final(self)
                        == *old(self)
                }
            }),
    {
        let touched_lat = match (section, raw_tag.tag_type) {
            (Section::GPS, 0x0001) => {
                self.gps.latitude.reference = Some(raw_tag);
                true
            },
            (Section::GPS, 0x0002) => {
                self.gps.latitude.degrees = Some(raw_tag);
                true
            },
            (Section::GPS, 0x0003) => {
                self.gps.longitude.reference = Some(raw_tag);
                false
            },
            (Section::GPS, 0x0004) => {
                self.gps.longitude.degrees = Some(raw_tag);
                false
            },
            _ => {
                return Matched::Unmatched(raw_tag);
            },
        };
        let emission = match self.gps.try_combine_tags() {
            Some(Ok(pos)) => Some(Ok(Tag::GpsPosition(pos))),
            Some(Err(e)) => Some(Err(e)),
            None => {
                // The other coordinate is still incomplete; a defect of
                // the pair just completed is still reported at once.
                let own = if touched_lat {
                    self.gps.latitude.try_combine_tags()
                } else {
                    self.gps.longitude.try_combine_tags()
                };
                match own {
                    Some(Err(e)) => Some(Err(e)),
                    _ => None,
                }
            },
        };
        Matched::Claimed(emission)
    }

    fn transform_thumbnail_tags(&mut self, raw_tag: RawExifTag<'a>, section: Section) -> (r:
        Matched<'a, Option<ParseResult<Tag<'a>>>>)
        requires
            old(self).wf(),
            tag_wf(raw_tag),
        ensures
            final(self).wf(),
            final(self).spec_raw() == old(self).spec_raw(),
            final(self).spec_gps() == old(self).spec_gps(),
            ({
                let t = raw_tag.tag_type;
                if (section == Section::IFD1 && (t == 0x0201 || t == 0x0202)) || (section
                    == Section::IFD0 && t == 0x0103) {
                    r matches Matched::Claimed(res) && transform_spec(
                        *old(self),
                        raw_tag,
                        section,
                        *final(self),
                        res,
                    )
                } else {
                    r == Matched::<Option<ParseResult<Tag>>>::Unmatched(raw_tag) && *final(self)
                        == *old(self)
                }
            }),
    {
        match (section, raw_tag.tag_type) {
            (Section::IFD1, 0x0201) => {
                self.thumbnail.offset = Some(raw_tag);
            },
            (Section::IFD1, 0x0202) => {
                self.thumbnail.length = Some(raw_tag);
            },
            (Section::IFD0, 0x0103) => {
                self.thumbnail.compression = Some(raw_tag);
            },
            _ => {
                return Matched::Unmatched(raw_tag);
            },
        }
        let emission = match self.thumbnail.try_combine_tags() {
            Some(Ok(info)) => Some(Ok(Tag::Thumbnail(info))),
            Some(Err(e)) => Some(Err(e)),
            None => None,
        };
        Matched::Claimed(emission)
    }

    fn transform_date_tags(&mut self, raw_tag: RawExifTag<'a>, section: Section) -> (r: Matched<
        'a,
        Option<ParseResult<Tag<'a>>>,
    >)
        requires
            old(self).wf(),
            tag_wf(raw_tag),
        ensures
            final(self).wf(),
            *final(self) == *old(self),
            ({
                let t = raw_tag.tag_type;
                if section == Section::SubIFD && (t == 0x0132 || t == 0x9003 || t == 0x9004) {
                    r == Matched::<Option<ParseResult<Tag>>>::Claimed(
                        Some(
                            date_emission(
                                raw_tag,
                                if t == 0x0132 {
                                    0int
                                } else if t == 0x9003 {
                                    1int
                                } else {
                                    2int
                                },
                            ),
                        ),
                    )
                } else {
                    r == Matched::<Option<ParseResult<Tag>>>::Unmatched(raw_tag)
                }
            }),
    {
        match (section, raw_tag.tag_type) {
            (Section::SubIFD, 0x0132) => {
                match to_datetime(&raw_tag) {
                    Ok(dt) => Matched::Claimed(Some(Ok(Tag::ModifyDate(dt)))),
                    Err(e) => Matched::Claimed(Some(Err(e))),
                }
            },
            (Section::SubIFD, 0x9003) => {
                match to_datetime(&raw_tag) {
                    Ok(dt) => Matched::Claimed(Some(Ok(Tag::DateTimeOriginal(dt)))),
                    Err(e) => Matched::Claimed(Some(Err(e))),
                }
            },
            (Section::SubIFD, 0x9004) => {
                match to_datetime(&raw_tag) {
                    Ok(dt) => Matched::Claimed(Some(Ok(Tag::CreateDate(dt)))),
                    Err(e) => Matched::Claimed(Some(Err(e))),
                }
            },
            _ => Matched::Unmatched(raw_tag),
        }
    }

    fn transform_text_tags(&mut self, raw_tag: RawExifTag<'a>, section: Section) -> (r: Matched<
        'a,
        Option<ParseResult<Tag<'a>>>,
    >)
        requires
            old(self).wf(),
        ensures
            final(self).wf(),
            *final(self) == *old(self),
            ({
                let t = raw_tag.tag_type;
                if section == Section::IFD0 && (t == 0x010e || t == 0x010f || t == 0x0110) {
                    r == Matched::<Option<ParseResult<Tag>>>::Claimed(
                        Some(
                            text_emission(
                                raw_tag,
                                if t == 0x010e {
                                    0int
                                } else if t == 0x010f {
                                    1int
                                } else {
                                    2int
                                },
                            ),
                        ),
                    )
                } else {
                    r == Matched::<Option<ParseResult<Tag>>>::Unmatched(raw_tag)
                }
            }),
    {
        match (section, raw_tag.tag_type) {
            (Section::IFD0, 0x010e) => {
                match &raw_tag.value {
                    ExifVariant::Text(text) => Matched::Claimed(
                        Some(Ok(Tag::ImageDescription(*text))),
                    ),
                    _ => Matched::Claimed(Some(Err(ParseError::MalformedTag))),
                }
            },
            (Section::IFD0, 0x010f) => {
                match &raw_tag.value {
                    ExifVariant::Text(text) => Matched::Claimed(Some(Ok(Tag::Make(*text)))),
                    _ => Matched::Claimed(Some(Err(ParseError::MalformedTag))),
                }
            },
            (Section::IFD0, 0x0110) => {
                match &raw_tag.value {
                    ExifVariant::Text(text) => Matched::Claimed(Some(Ok(Tag::Model(*text)))),
                    _ => Matched::Claimed(Some(Err(ParseError::MalformedTag))),
                }
            },
            _ => Matched::Unmatched(raw_tag),
        }
    }

    /// Digest one raw tag: stash or emit exactly as [`transform_spec`]
    /// says. `None` means the tag joined an incomplete group and there is
    /// nothing to emit yet.
    pub fn transform_raw_tag(&mut self, raw_tag: RawExifTag<'a>, section: Section) -> (r: Option<
        ParseResult<Tag<'a>>,
    >)
        requires
            old(self).wf(),
            tag_wf(raw_tag),
        ensures
            final(self).wf(),
            final(self).spec_raw() == old(self).spec_raw(),
            transform_spec(*old(self), raw_tag, section, *final(self), r),
    {
        let raw_tag = match self.transform_gps_tags(raw_tag, section) {
            Matched::Claimed(tag_option) => {
                return tag_option;
            },
            Matched::Unmatched(t) => t,
        };
        let raw_tag = match self.transform_thumbnail_tags(raw_tag, section) {
            Matched::Claimed(tag_option) => {
                return tag_option;
            },
            Matched::Unmatched(t) => t,
        };
        let raw_tag = match self.transform_date_tags(raw_tag, section) {
            Matched::Claimed(tag_option) => {
                return tag_option;
            },
            Matched::Unmatched(t) => t,
        };
        let raw_tag = match self.transform_text_tags(raw_tag, section) {
            Matched::Claimed(tag_option) => {
                return tag_option;
            },
            Matched::Unmatched(t) => t,
        };
        Some(Ok(Tag::Other(raw_tag)))
    }

    /// Emit the next typed fact: raw tags are digested one by one, group
    /// members that complete nothing are skipped, and errors of the raw
    /// stream pass through. `None` once the raw stream is exhausted.
    /// The call digests exactly the walker's next item: the active
    /// section's next entry while one has entries (see
    /// [`handles_first_item`]), else what resuming the walker over its
    /// offset table gives (see [`handles_first_drained_item`]).
    pub fn next(&mut self) -> (r: Option<ParseResult<Tag<'a>>>)
        requires
            old(self).wf(),
        ensures
            final(self).wf(),
            r is None ==> final(self).spec_raw().spec_offsets().all_empty(),
            old(self).spec_raw().spec_current() is None && old(
                self,
            ).spec_raw().spec_offsets().all_empty() ==> r is None,
            match old(self).spec_raw().spec_current() {
                Some((it, (off, id))) => it.spec_index() < it.spec_len() ==> handles_first_item(
                    it,
                    off,
                    id,
                    *old(self),
                    *final(self),
                    r,
                ),
                None => true,
            },
            !raw_pending(old(self).spec_raw()) ==> handles_first_drained_item(
                resume_table(old(self).spec_raw()),
                old(self).spec_raw().spec_tiff(),
                *old(self),
                *final(self),
                r,
            ),
    {
        let ghost so_start = resume_table(old(self).spec_raw());
        let ghost tiff_start = old(self).spec_raw().spec_tiff();
        loop
            invariant
                self.wf(),
                old(self).spec_raw().spec_current() is None && old(
                    self,
                ).spec_raw().spec_offsets().all_empty() ==> self.spec_raw() == old(
                    self,
                ).spec_raw(),
                so_start == resume_table(old(self).spec_raw()),
                tiff_start == old(self).spec_raw().spec_tiff(),
                match old(self).spec_raw().spec_current() {
                    Some((it, (off, id))) => it.spec_index() < it.spec_len() ==> *self == *old(
                        self,
                    ) || first_item_stashed(it, off, id, *old(self)),
                    None => true,
                },
                !raw_pending(old(self).spec_raw()) ==> *self == *old(self)
                    || first_drained_stashed(so_start, tiff_start, *old(self)),
            decreases crate::tags::work_left(self.spec_raw()),
        {
            let ghost at_top = *self;
            match self.raw_tag_it.next() {
                None => {
                    proof {
                        match old(self).spec_raw().spec_current() {
                            Some((it, (off, id))) => {
                                if it.spec_index() < it.spec_len() && at_top != *old(self) {
                                    lemma_stashed_handles(it, off, id, *old(self), *self, None);
                                }
                            },
                            None => {},
                        }
                        if !raw_pending(old(self).spec_raw()) {
                            if at_top == *old(self) {
                                assert(drain_spec(
                                    so_start,
                                    tiff_start,
                                    self.spec_raw(),
                                    None::<ParseResult<(RawExifTag, Section)>>,
                                ));
                                assert(handles_first_drained_item(
                                    so_start,
                                    tiff_start,
                                    *old(self),
                                    *self,
                                    None::<ParseResult<Tag>>,
                                ));
                            } else {
                                lemma_drained_stashed_handles(
                                    so_start,
                                    tiff_start,
                                    *old(self),
                                    *self,
                                    None,
                                );
                            }
                        }
                    }
                    return None;
                },
                Some(Err(e)) => {
                    proof {
                        match old(self).spec_raw().spec_current() {
                            Some((it, (off, id))) => {
                                if it.spec_index() < it.spec_len() {
                                    if at_top == *old(self) {
                                        assert(emitted_from_current(
                                            it,
                                            off,
                                            id,
                                            self.spec_raw(),
                                            Some(
                                                Err::<(RawExifTag, Section), ParseError>(e),
                                            ),
                                        ));
                                        assert(handles_first_item(
                                            it,
                                            off,
                                            id,
                                            *old(self),
                                            *self,
                                            Some(Err::<Tag, ParseError>(e)),
                                        ));
                                    } else {
                                        lemma_stashed_handles(
                                            it,
                                            off,
                                            id,
                                            *old(self),
                                            *self,
                                            Some(Err::<Tag, ParseError>(e)),
                                        );
                                    }
                                }
                            },
                            None => {},
                        }
                        if !raw_pending(old(self).spec_raw()) {
                            if at_top == *old(self) {
                                assert(drain_spec(
                                    so_start,
                                    tiff_start,
                                    self.spec_raw(),
                                    Some(Err::<(RawExifTag, Section), ParseError>(e)),
                                ));
                                assert(handles_first_drained_item(
                                    so_start,
                                    tiff_start,
                                    *old(self),
                                    *self,
                                    Some(Err::<Tag, ParseError>(e)),
                                ));
                            } else {
                                lemma_drained_stashed_handles(
                                    so_start,
                                    tiff_start,
                                    *old(self),
                                    *self,
                                    Some(Err(e)),
                                );
                            }
                        }
                    }
                    return Some(Err(e));
                },
                Some(Ok((tag, section))) => {
                    let ghost mid = self.raw_tag_it;
                    let ghost item = Ok::<(RawExifTag<'a>, Section), ParseError>((tag, section));
                    match self.transform_raw_tag(tag, section) {
                        Some(res) => {
                            proof {
                                match old(self).spec_raw().spec_current() {
                                    Some((it, (off, id))) => {
                                        if it.spec_index() < it.spec_len() {
                                            if at_top == *old(self) {
                                                assert(emitted_from_current(
                                                    it,
                                                    off,
                                                    id,
                                                    mid,
                                                    Some(item),
                                                ));
                                                assert(handles_first_item(
                                                    it,
                                                    off,
                                                    id,
                                                    *old(self),
                                                    *self,
                                                    Some(res),
                                                ));
                                            } else {
                                                lemma_stashed_handles(
                                                    it,
                                                    off,
                                                    id,
                                                    *old(self),
                                                    *self,
                                                    Some(res),
                                                );
                                            }
                                        }
                                    },
                                    None => {},
                                }
                                if !raw_pending(old(self).spec_raw()) {
                                    if at_top == *old(self) {
                                        assert(drain_spec(
                                            so_start,
                                            tiff_start,
                                            mid,
                                            Some(item),
                                        ));
                                        assert(handles_first_drained_item(
                                            so_start,
                                            tiff_start,
                                            *old(self),
                                            *self,
                                            Some(res),
                                        ));
                                    } else {
                                        lemma_drained_stashed_handles(
                                            so_start,
                                            tiff_start,
                                            *old(self),
                                            *self,
                                            Some(res),
                                        );
                                    }
                                }
                            }
                            return Some(res);
                        },
                        None => {
                            proof {
                                match old(self).spec_raw().spec_current() {
                                    Some((it, (off, id))) => {
                                        if it.spec_index() < it.spec_len() && at_top == *old(
                                            self,
                                        ) {
                                            assert(emitted_from_current(
                                                it,
                                                off,
                                                id,
                                                mid,
                                                Some(item),
                                            ));
                                            assert(first_item_stashed(
                                                it,
                                                off,
                                                id,
                                                *old(self),
                                            ));
                                        }
                                    },
                                    None => {},
                                }
                                if !raw_pending(old(self).spec_raw()) && at_top == *old(self) {
                                    assert(drain_spec(so_start, tiff_start, mid, Some(item)));
                                    assert(first_drained_stashed(
                                        so_start,
                                        tiff_start,
                                        *old(self),
                                    ));
                                }
                            }
                        },
                    }
                },
            }
        }
    }
}

} // verus!
