//! Assembly of one GPS position out of the four tags that carry it.
//!
//! A coordinate needs its reference tag (`N`/`S` for latitude, `E`/`W` for
//! longitude) and its degrees tag: three unsigned fractions for degrees,
//! minutes and seconds. The reader keeps the fractions as plain numerator
//! and denominator pairs; turning `(d + m/60 + s/3600) x sign` into a
//! floating-point number is left to the caller.

use crate::component::{ExifValueReader, TagComponents};
use crate::error::{ParseError, ParseResult};
use crate::tag::{tag_wf, ExifVariant, RawExifTag};
use vstd::prelude::*;

verus! {

/// One coordinate, as stored: degrees, minutes and seconds, each a
/// `(numerator, denominator)` fraction, and the sign that the reference
/// letter gives (`true` for north and east).
#[derive(Debug, PartialEq, Clone, Copy)]
pub struct GpsCoordinate {
    pub degrees: (u32, u32),
    pub minutes: (u32, u32),
    pub seconds: (u32, u32),
    pub positive: bool,
}

/// A complete GPS position: latitude and longitude coordinates.
#[derive(Debug, PartialEq, Clone, Copy)]
pub struct GpsPosition {
    pub latitude: GpsCoordinate,
    pub longitude: GpsCoordinate,
}

/// The `j`-th fraction component of a fraction tag value.
pub open spec fn nth_fraction(c: TagComponents<(u32, u32)>, j: int) -> (u32, u32) {
    <(u32, u32) as ExifValueReader>::decode_spec(
        c.spec_cursor().spec_endianness(),
        c.spec_cursor()@.subrange(8 * j, 8 * j + 8),
    )
}

/// The sign a GPS reference tag denotes: `N` and `E` are positive, `S` and
/// `W` negative; anything else (or a non-text tag) is no sign at all.
pub open spec fn gps_sign_of(rtag: RawExifTag) -> Option<bool> {
    match rtag.value {
        ExifVariant::Text(s) => if s@ == seq!['N'] || s@ == seq!['E'] {
            Some(true)
        } else if s@ == seq!['S'] || s@ == seq!['W'] {
            Some(false)
        } else {
            None
        },
        _ => None,
    }
}

/// The coordinate a degrees tag and a reference tag denote together: the
/// degrees tag must hold at least three unsigned fractions and the
/// reference must be one of the four letters, else the pair is malformed.
pub open spec fn gps_coordinate_of(dtag: RawExifTag, rtag: RawExifTag) -> ParseResult<
    GpsCoordinate,
> {
    match dtag.value {
        ExifVariant::UIntFraction(c) => if c.spec_len() >= 3 {
            match gps_sign_of(rtag) {
                Some(positive) => Ok(
                    GpsCoordinate {
                        degrees: nth_fraction(c, 0),
                        minutes: nth_fraction(c, 1),
                        seconds: nth_fraction(c, 2),
                        positive,
                    },
                ),
                None => Err(ParseError::MalformedTag),
            }
        } else {
            Err(ParseError::MalformedTag)
        },
        _ => Err(ParseError::MalformedTag),
    }
}

/// Collects the reference and degrees tags of one coordinate.
pub struct GpsDegreeCombiner<'a> {
    pub degrees: Option<RawExifTag<'a>>,
    pub reference: Option<RawExifTag<'a>>,
}

impl<'a> GpsDegreeCombiner<'a> {
    /// Stashed tags, when present, are well formed.
    pub open spec fn wf(self) -> bool {
        &&& (self.degrees matches Some(t) ==> tag_wf(t))
        &&& (self.reference matches Some(t) ==> tag_wf(t))
    }

    pub fn new() -> (r: GpsDegreeCombiner<'a>)
        ensures
            r.degrees is None,
            r.reference is None,
            r.wf(),
    {
        GpsDegreeCombiner { degrees: None, reference: None }
    }

    /// Combine the stashed tags into a coordinate: nothing until both have
    /// been sighted, then exactly what [`gps_coordinate_of`] gives.
    pub fn try_combine_tags(&self) -> (r: Option<ParseResult<GpsCoordinate>>)
        requires
            self.wf(),
        ensures
            match (self.degrees, self.reference) {
                (Some(dtag), Some(rtag)) => r == Some(gps_coordinate_of(dtag, rtag)),
                _ => r is None,
            },
    {
        let (degrees, reference) = match (&self.degrees, &self.reference) {
            (Some(d), Some(rf)) => (d, rf),
            _ => {
                return None;
            },
        };
        let components = match &degrees.value {
            ExifVariant::UIntFraction(c) => c,
            _ => {
                return Some(Err(ParseError::MalformedTag));
            },
        };
        let ghost base = components.spec_cursor();
        let mut it = components.iter();
        let d = match it.next() {
            Some(v) => v,
            None => {
                return Some(Err(ParseError::MalformedTag));
            },
        };
        let m = match it.next() {
            Some(v) => v,
            None => {
                return Some(Err(ParseError::MalformedTag));
            },
        };
        let s = match it.next() {
            Some(v) => v,
            None => {
                return Some(Err(ParseError::MalformedTag));
            },
        };
        proof {
            assert(base@.take(8) =~= base@.subrange(0, 8));
            assert(base@.subrange(8, base@.len() as int).take(8) =~= base@.subrange(8, 16));
            assert(base@.subrange(8, base@.len() as int).subrange(
                8,
                base@.len() - 8,
            ) =~= base@.subrange(16, base@.len() as int));
            assert(base@.subrange(16, base@.len() as int).take(8) =~= base@.subrange(16, 24));
        }
        let positive = match gps_sign(reference) {
            Some(p) => p,
            None => {
                return Some(Err(ParseError::MalformedTag));
            },
        };
        Some(Ok(GpsCoordinate { degrees: d, minutes: m, seconds: s, positive }))
    }
}

/// Read the sign off a GPS reference tag.
fn gps_sign<'a>(rtag: &RawExifTag<'a>) -> (r: Option<bool>)
    ensures
        r == gps_sign_of(*rtag),
{
    match &rtag.value {
        ExifVariant::Text(text) => {
            if text.unicode_len() != 1 {
                proof {
                    assert(text@ != seq!['N'] && text@ != seq!['E'] && text@ != seq!['S'] && text@
                        != seq!['W']);
                }
                None
            } else {
                let c = text.get_char(0);
                proof {
                    assert(seq!['N'].len() == 1 && seq!['E'].len() == 1 && seq!['S'].len() == 1
                        && seq!['W'].len() == 1);
                    if c == 'N' {
                        assert(text@ =~= seq!['N']);
                    }
                    if c == 'E' {
                        assert(text@ =~= seq!['E']);
                    }
                    if c == 'S' {
                        assert(text@ =~= seq!['S']);
                    }
                    if c == 'W' {
                        assert(text@ =~= seq!['W']);
                    }
                }
                if c == 'N' || c == 'E' {
                    Some(true)
                } else if c == 'S' || c == 'W' {
                    Some(false)
                } else {
                    proof {
                        assert(seq!['N'][0] == 'N' && seq!['E'][0] == 'E' && seq!['S'][0] == 'S'
                            && seq!['W'][0] == 'W');
                    }
                    None
                }
            }
        },
        _ => None,
    }
}

/// Collects the four tags of a GPS position, one pair per coordinate.
pub struct GpsPositionCombiner<'a> {
    pub latitude: GpsDegreeCombiner<'a>,
    pub longitude: GpsDegreeCombiner<'a>,
}

impl<'a> GpsPositionCombiner<'a> {
    pub open spec fn wf(self) -> bool {
        self.latitude.wf() && self.longitude.wf()
    }

    pub fn new() -> (r: GpsPositionCombiner<'a>)
        ensures
            r.latitude.degrees is None,
            r.latitude.reference is None,
            r.longitude.degrees is None,
            r.longitude.reference is None,
            r.wf(),
    {
        GpsPositionCombiner { latitude: GpsDegreeCombiner::new(), longitude: GpsDegreeCombiner::new() }
    }

    /// Combine both coordinates into a position: nothing until all four
    /// tags have been sighted, then the position, or the first coordinate
    /// error (latitude first).
    pub fn try_combine_tags(&self) -> (r: Option<ParseResult<GpsPosition>>)
        requires
            self.wf(),
        ensures
            r == gps_position_result(self.latitude, self.longitude),
    {
        let lat = match self.latitude.try_combine_tags() {
            Some(v) => v,
            None => {
                return None;
            },
        };
        let lon = match self.longitude.try_combine_tags() {
            Some(v) => v,
            None => {
                return None;
            },
        };
        match (lat, lon) {
            (Ok(latitude), Ok(longitude)) => Some(Ok(GpsPosition { latitude, longitude })),
            (Err(err), _) => Some(Err(err)),
            (_, Err(err)) => Some(Err(err)),
        }
    }
}

/// What combining a pair of coordinate combiners yields: nothing until
/// both coordinates are complete, then the position or the first error.
pub open spec fn gps_position_result(
    lat: GpsDegreeCombiner,
    lon: GpsDegreeCombiner,
) -> Option<ParseResult<GpsPosition>> {
    match (lat.degrees, lat.reference, lon.degrees, lon.reference) {
        (Some(latd), Some(latr), Some(lond), Some(lonr)) => {
            match gps_coordinate_of(latd, latr) {
                Ok(latitude) => match gps_coordinate_of(lond, lonr) {
                    Ok(longitude) => Some(Ok(GpsPosition { latitude, longitude })),
                    Err(e) => Some(Err(e)),
                },
                Err(e) => Some(Err(e)),
            }
        },
        _ => None,
    }
}

} // verus!
