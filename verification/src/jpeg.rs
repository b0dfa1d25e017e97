//! JPEG segment walker: streams `(marker, payload view)` pairs.
//!
//! Each segment begins with `0xFF` followed by the marker byte. Markers
//! that carry data store a big-endian `u16` length that includes its own
//! two bytes, so the payload view holds `length - 2` bytes. `SOI`, `EOI`,
//! `SOS` and `RST(_)` have no length field. The walker stops after `SOS`,
//! where entropy-coded scan data without length framing begins, and after
//! any error.

use crate::cursor::{u16_of_bytes, Cursor};
use crate::error::{ParseError, ParseResult};
use crate::Size;
use vstd::prelude::*;

verus! {

/// JPEG segment marker byte, decoded.
#[derive(Debug, Clone, Copy, PartialEq, Eq, Structural)]
pub enum SegmentMarker {
    SOI,
    DHT,
    DQT,
    DRI,
    SOS,
    COM,
    EOI,
    APP(u8),
    SOF(u8),
    RST(u8),
    Other(u8),
}

/// The marker denoted by the byte following `0xFF`.
pub open spec fn marker_of_byte(value: u8) -> SegmentMarker {
    if value == 0xd8 {
        SegmentMarker::SOI
    } else if value == 0xc4 {
        SegmentMarker::DHT
    } else if value == 0xdb {
        SegmentMarker::DQT
    } else if value == 0xdd {
        SegmentMarker::DRI
    } else if value == 0xda {
        SegmentMarker::SOS
    } else if value == 0xfe {
        SegmentMarker::COM
    } else if value == 0xd9 {
        SegmentMarker::EOI
    } else if 0xe0 <= value <= 0xef {
        SegmentMarker::APP((value - 0xe0) as u8)
    } else if 0xd0 <= value <= 0xd7 {
        SegmentMarker::RST((value - 0xd0) as u8)
    } else if 0xc0 <= value <= 0xcf && value != 0xc8 {
        SegmentMarker::SOF((value - 0xc0) as u8)
    } else {
        SegmentMarker::Other(value)
    }
}

impl SegmentMarker {
    /// Markers other than `SOI`, `EOI`, `SOS` and `RST(_)` carry a 2-byte
    /// payload length.
    pub open spec fn spec_has_size(self) -> bool {
        match self {
            SegmentMarker::RST(_) => false,
            SegmentMarker::EOI => false,
            SegmentMarker::SOI => false,
            SegmentMarker::SOS => false,
            _ => true,
        }
    }

    pub fn has_size(self) -> (r: bool)
        ensures
            r == self.spec_has_size(),
    {
        match self {
            SegmentMarker::RST(_) | SegmentMarker::EOI | SegmentMarker::SOI
                | SegmentMarker::SOS => false,
            _ => true,
        }
    }

    /// Decode the byte following `0xFF`.
    pub fn from_byte(value: u8) -> (r: SegmentMarker)
        ensures
            r == marker_of_byte(value),
    {
        if value == 0xd8 {
            SegmentMarker::SOI
        } else if value == 0xc4 {
            SegmentMarker::DHT
        } else if value == 0xdb {
            SegmentMarker::DQT
        } else if value == 0xdd {
            SegmentMarker::DRI
        } else if value == 0xda {
            SegmentMarker::SOS
        } else if value == 0xfe {
            SegmentMarker::COM
        } else if value == 0xd9 {
            SegmentMarker::EOI
        } else if 0xe0 <= value && value <= 0xef {
            SegmentMarker::APP(value - 0xe0)
        } else if 0xd0 <= value && value <= 0xd7 {
            SegmentMarker::RST(value - 0xd0)
        } else if 0xc0 <= value && value <= 0xcf && value != 0xc8 {
            SegmentMarker::SOF(value - 0xc0)
        } else {
            SegmentMarker::Other(value)
        }
    }

    /// Bytes a segment with this marker spends on framing: the two marker
    /// bytes, plus the two length bytes when the marker carries a length.
    pub open spec fn spec_header_len(self) -> int {
        if self.spec_has_size() {
            4
        } else {
            2
        }
    }
}

/// Streams the marker-delimited segments of a JPEG buffer.
pub struct JPEGSegmentIterator<'a> {
    cursor: Cursor<'a>,
    at_end: bool,
    next_skip: u16,
    consumed: Ghost<int>,
    base_pos: Ghost<int>,
}

impl<'a> JPEGSegmentIterator<'a> {
    pub closed spec fn spec_cursor(self) -> Cursor<'a> {
        self.cursor
    }

    pub closed spec fn spec_at_end(self) -> bool {
        self.at_end
    }

    /// Payload bytes of the last emitted segment, skipped on the next call.
    pub closed spec fn spec_next_skip(self) -> u16 {
        self.next_skip
    }

    /// Sum of `payload_len + header_len` over the segments emitted so far.
    pub closed spec fn spec_consumed(self) -> int {
        self.consumed@
    }

    /// Offset of the input cursor the walker was built on.
    pub closed spec fn spec_base_pos(self) -> int {
        self.base_pos@
    }

    /// Length of the input the walker was built on.
    pub open spec fn input_len(self) -> int {
        self.spec_cursor().limit() - self.spec_base_pos()
    }

    /// The pending skip, capped at the bytes that remain.
    pub open spec fn pending(self) -> int {
        if self.spec_next_skip() <= self.spec_cursor()@.len() {
            self.spec_next_skip() as int
        } else {
            self.spec_cursor()@.len() as int
        }
    }

    pub open spec fn wf(self) -> bool {
        &&& self.spec_cursor().wf()
        &&& self.spec_base_pos() <= self.spec_cursor().spec_pos()
        &&& 0 <= self.spec_consumed()
        &&& self.spec_consumed() + self.spec_base_pos() <= self.spec_cursor().spec_pos()
            + self.pending()
    }

    /// Law: the segments emitted so far cover at most the input: the sum of
    /// `payload_len + header_len` over them never exceeds the input length.
    pub proof fn lemma_segment_coverage(self)
        requires
            self.wf(),
        ensures
            self.spec_consumed() <= self.input_len(),
    {
    }

    pub fn new(cursor: Cursor<'a>) -> (r: JPEGSegmentIterator<'a>)
        requires
            cursor.wf(),
        ensures
            r.wf(),
            r.spec_cursor() == cursor,
            r.spec_at_end() == false,
            r.spec_next_skip() == 0,
            r.spec_consumed() == 0,
            r.spec_base_pos() == cursor.spec_pos(),
            r.input_len() == cursor@.len(),
    {
        JPEGSegmentIterator {
            cursor,
            at_end: false,
            next_skip: 0,
            consumed: Ghost(0),
            base_pos: Ghost(cursor.spec_pos()),
        }
    }

    fn try_next(&mut self) -> (r: ParseResult<(SegmentMarker, Cursor<'a>)>)
        requires
            old(self).wf(),
            !old(self).spec_at_end(),
        ensures
            final(self).wf(),
            final(self).spec_base_pos() == old(self).spec_base_pos(),
            final(self).input_len() == old(self).input_len(),
            seg_step_spec(*old(self), *final(self), r),
    {
        let ghost c0 = self.cursor;
        let ghost rest = c0@.subrange(self.next_skip as int, c0@.len() as int);
        let c1 = match self.cursor.with_skip_or_fail(self.next_skip as usize) {
            Ok(c) => c,
            Err(e) => {
                self.at_end = true;
                return Err(e);
            },
        };
        self.cursor = c1;
        self.next_skip = 0;
        let header_byte: u8 = match self.cursor.read_u8() {
            Some(b) => b,
            None => {
                self.at_end = true;
                return Err(ParseError::UnexpectedEOF);
            },
        };
        if header_byte != 0xff {
            self.at_end = true;
            return Err(ParseError::InvalidJPEGSegmentHeader { header: header_byte });
        }
        let marker_byte: u8 = match self.cursor.read_u8() {
            Some(b) => b,
            None => {
                self.at_end = true;
                return Err(ParseError::UnexpectedEOF);
            },
        };
        let marker = SegmentMarker::from_byte(marker_byte);
        proof {
            assert(rest.subrange(1, rest.len() as int)[0] == rest[1]);
            assert(rest.subrange(1, rest.len() as int).subrange(
                1,
                rest.len() - 1,
            ) =~= rest.subrange(2, rest.len() as int));
        }
        // Stop at the SOS (Start of Scan) marker: the entropy-coded data
        // that follows has no length framing, so there is nowhere to jump.
        if matches!(marker, SegmentMarker::SOS) {
            self.at_end = true;
        }
        let len: u16 = if marker.has_size() {
            let ghost rest2 = rest.subrange(2, rest.len() as int);
            let raw = match self.cursor.read_u16() {
                Some(v) => v,
                None => {
                    self.at_end = true;
                    return Err(ParseError::UnexpectedEOF);
                },
            };
            proof {
                assert(rest2.take(2) =~= rest.subrange(2, 4));
                assert(rest2.subrange(2, rest2.len() as int) =~= rest.subrange(
                    4,
                    rest.len() as int,
                ));
            }
            if raw < 2 {
                self.at_end = true;
                return Err(ParseError::UnexpectedEOF);
            }
            raw - 2
        } else {
            0
        };
        let segment_cursor = self.cursor.with_max_len(len as usize);
        self.next_skip = len;
        proof {
            let hdr = marker.spec_header_len();
            assert(self.cursor@ =~= rest.subrange(hdr, rest.len() as int));
            let avail = rest.len() - hdr;
            let plen = if len <= avail {
                len as int
            } else {
                avail
            };
            assert(segment_cursor@ =~= rest.subrange(hdr, hdr + plen));
            self.consumed@ = self.consumed@ + hdr + plen;
        }
        Ok((marker, segment_cursor))
    }

    /// Emit the next segment: `None` once the walker is terminal, an `Err`
    /// item on a framing defect (which also makes the walker terminal).
    pub fn next(&mut self) -> (r: Option<ParseResult<(SegmentMarker, Cursor<'a>)>>)
        requires
            old(self).wf(),
        ensures
            final(self).wf(),
            final(self).spec_base_pos() == old(self).spec_base_pos(),
            final(self).input_len() == old(self).input_len(),
            old(self).spec_at_end() ==> r is None && *final(self) == *old(self),
            !old(self).spec_at_end() ==> match r {
                Some(step) => seg_step_spec(*old(self), *final(self), step),
                None => false,
            },
    {
        if self.at_end {
            None
        } else {
            Some(self.try_next())
        }
    }
}

/// One step of the segment walker, from state `pre` to state `post`.
///
/// The walker first skips the previous payload, then demands `0xFF` and a
/// marker byte; for a length-bearing marker it reads the 2-byte length
/// `raw` (which includes itself, so `raw < 2` is a defect) and emits a
/// payload view of `raw - 2` bytes, truncated at the end of the input.
/// Every defect makes the walker terminal; emitting `SOS` does too.
pub open spec fn seg_step_spec(
    pre: JPEGSegmentIterator,
    post: JPEGSegmentIterator,
    r: ParseResult<(SegmentMarker, Cursor)>,
) -> bool {
    let c = pre.spec_cursor();
    let k = pre.spec_next_skip();
    let rest = c@.subrange(k as int, c@.len() as int);
    let e = c.spec_endianness();
    if k > c@.len() {
        r == Err::<(SegmentMarker, Cursor), ParseError>(ParseError::UnexpectedEOF)
            && post.spec_at_end() && post.spec_consumed() == pre.spec_consumed()
    } else if rest.len() < 1 {
        r == Err::<(SegmentMarker, Cursor), ParseError>(ParseError::UnexpectedEOF)
            && post.spec_at_end() && post.spec_consumed() == pre.spec_consumed()
    } else if rest[0] != 0xff {
        r == Err::<(SegmentMarker, Cursor), ParseError>(
            ParseError::InvalidJPEGSegmentHeader { header: rest[0] },
        ) && post.spec_at_end() && post.spec_consumed() == pre.spec_consumed()
    } else if rest.len() < 2 {
        r == Err::<(SegmentMarker, Cursor), ParseError>(ParseError::UnexpectedEOF)
            && post.spec_at_end() && post.spec_consumed() == pre.spec_consumed()
    } else {
        let m = marker_of_byte(rest[1]);
        if m.spec_has_size() {
            if rest.len() < 4 {
                r == Err::<(SegmentMarker, Cursor), ParseError>(ParseError::UnexpectedEOF)
                    && post.spec_at_end() && post.spec_consumed() == pre.spec_consumed()
            } else {
                let raw = u16_of_bytes(e, rest.subrange(2, 4));
                if raw < 2 {
                    r == Err::<(SegmentMarker, Cursor), ParseError>(ParseError::UnexpectedEOF)
                        && post.spec_at_end() && post.spec_consumed() == pre.spec_consumed()
                } else {
                    seg_emit_spec(pre, post, r, m, 4, (raw - 2) as u16)
                }
            }
        } else {
            seg_emit_spec(pre, post, r, m, 2, 0)
        }
    }
}

/// A successful step that emits marker `m` after `hdr` framing bytes, with
/// a declared payload of `declared` bytes. The payload view starts right
/// after the framing bytes and is truncated at the end of the input; it
/// never extends past the buffer. The walker becomes terminal exactly when
/// the marker is `SOS`, and the coverage sum grows by the framing plus the
/// emitted payload view.
pub open spec fn seg_emit_spec(
    pre: JPEGSegmentIterator,
    post: JPEGSegmentIterator,
    r: ParseResult<(SegmentMarker, Cursor)>,
    m: SegmentMarker,
    hdr: int,
    declared: u16,
) -> bool {
    let c = pre.spec_cursor();
    let k = pre.spec_next_skip();
    let rest = c@.subrange(k as int, c@.len() as int);
    let avail = rest.len() - hdr;
    let plen = if declared <= avail {
        declared as int
    } else {
        avail
    };
    match r {
        Ok((marker, payload)) => {
            &&& marker == m
            &&& payload@ == rest.subrange(hdr, hdr + plen)
            &&& payload.spec_pos() == c.spec_pos() + k + hdr
            &&& payload.spec_endianness() == c.spec_endianness()
            &&& payload.wf()
            &&& payload.spec_pos() + payload@.len() <= c.limit()
            &&& post.spec_at_end() == (m is SOS)
            &&& post.spec_next_skip() == declared
            &&& post.spec_consumed() == pre.spec_consumed() + hdr + plen
        },
        Err(_) => false,
    }
}

/// Read the image dimensions from a start-of-frame payload: one precision
/// byte, then the height and width as `u16` under the cursor's byte order.
pub fn read_image_size_from_sof<'a>(sof_cursor: &Cursor<'a>) -> (r: ParseResult<Size>)
    requires
        sof_cursor.wf(),
    ensures
        match r {
            Ok(size) => {
                &&& sof_cursor@.len() >= 5
                &&& size.height == u16_of_bytes(
                    sof_cursor.spec_endianness(),
                    sof_cursor@.subrange(1, 3),
                )
                &&& size.width == u16_of_bytes(
                    sof_cursor.spec_endianness(),
                    sof_cursor@.subrange(3, 5),
                )
            },
            Err(e) => sof_cursor@.len() < 5 && e == ParseError::UnexpectedEOF,
        },
{
    let mut c = match sof_cursor.with_skip_or_fail(1) {
        Ok(c) => c,
        Err(e) => {
            return Err(e);
        },
    };
    let height: u16 = match c.read_u16() {
        Some(v) => v,
        None => {
            return Err(ParseError::UnexpectedEOF);
        },
    };
    let width: u16 = match c.read_u16() {
        Some(v) => v,
        None => {
            return Err(ParseError::UnexpectedEOF);
        },
    };
    proof {
        if sof_cursor@.len() >= 5 {
            let tail = sof_cursor@.subrange(1, sof_cursor@.len() as int);
            assert(tail.take(2) =~= sof_cursor@.subrange(1, 3));
            assert(tail.subrange(2, tail.len() as int).take(2) =~= sof_cursor@.subrange(3, 5));
        }
    }
    Ok(Size { height, width })
}

} // verus!
