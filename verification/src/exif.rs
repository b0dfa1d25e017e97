//! Validation of the Exif header and TIFF preamble of an APP1 payload.

use crate::cursor::{u16_of_bytes, Cursor, Endianness};
use crate::error::{ParseError, ParseResult};
use vstd::prelude::*;
use vstd::slice::slice_index_get;

verus! {

/// The six bytes `Exif\0\0` that open every APP1 Exif payload.
pub open spec fn exif_magic() -> Seq<u8> {
    seq![0x45u8, 0x78u8, 0x69u8, 0x66u8, 0u8, 0u8]
}

/// The byte order an accepted TIFF header declares.
pub open spec fn detected_endianness(s: Seq<u8>, e: Endianness) -> Endianness {
    if u16_of_bytes(e, s.subrange(6, 8)) == 0x4949 {
        Endianness::Little
    } else {
        Endianness::Big
    }
}

/// The header decoder accepts this APP1 payload: `Exif\0\0`, a TIFF
/// endianness marker, and the magic `0x002A` under the detected order.
pub open spec fn header_accepts(s: Seq<u8>, e: Endianness) -> bool {
    let tiff_header = u16_of_bytes(e, s.subrange(6, 8));
    &&& s.len() >= 10
    &&& s.take(6) == exif_magic()
    &&& (tiff_header == 0x4949 || tiff_header == 0x4d4d)
    &&& u16_of_bytes(detected_endianness(s, e), s.subrange(8, 10)) == 0x002a
}

/// Everything [`read_exif_header`] promises, over the bytes `s` and byte
/// order `e` of the APP1 cursor it was given.
///
/// The payload must open with `Exif\0\0`, then a TIFF endianness marker
/// (`0x4949` little, `0x4D4D` big — both palindromes, so the declared
/// order of the reading cursor does not matter), then the magic `0x002A`
/// read under the detected order. On success the result is the TIFF base
/// cursor: the view starting right after `Exif\0\0`, carrying the detected
/// order; every offset inside the Exif block resolves against it.
pub open spec fn header_spec(
    s: Seq<u8>,
    pos: int,
    e: Endianness,
    r: ParseResult<Cursor>,
) -> bool {
    let tiff_header = u16_of_bytes(e, s.subrange(6, 8));
    let detected = if tiff_header == 0x4949 {
        Endianness::Little
    } else {
        Endianness::Big
    };
    let tiff_data = u16_of_bytes(detected, s.subrange(8, 10));
    if s.len() < 6 {
        r == Err::<Cursor, ParseError>(ParseError::UnexpectedEOF)
    } else if s.take(6) != exif_magic() {
        r matches Err(err) && err matches ParseError::InvalidExifHeader { header } && header@
            == s.take(6)
    } else if s.len() < 8 {
        r == Err::<Cursor, ParseError>(ParseError::UnexpectedEOF)
    } else if tiff_header != 0x4949 && tiff_header != 0x4d4d {
        r == Err::<Cursor, ParseError>(ParseError::InvalidTiffHeader { header: tiff_header })
    } else if s.len() < 10 {
        r == Err::<Cursor, ParseError>(ParseError::UnexpectedEOF)
    } else if tiff_data != 0x002a {
        r == Err::<Cursor, ParseError>(ParseError::InvalidTiffData { data: tiff_data })
    } else {
        match r {
            Ok(t) => {
                &&& t@ == s.subrange(6, s.len() as int)
                &&& t.spec_pos() == pos + 6
                &&& t.spec_endianness() == detected
                &&& t.wf()
            },
            Err(_) => false,
        }
    }
}

/// Validate `Exif\0\0` plus the TIFF header at `app1_cursor` and return
/// the TIFF base cursor, carrying the detected byte order.
pub fn read_exif_header<'a>(app1_cursor: &mut Cursor<'a>) -> (r: ParseResult<Cursor<'a>>)
    requires
        old(app1_cursor).wf(),
    ensures
        final(app1_cursor).wf(),
        final(app1_cursor).limit() == old(app1_cursor).limit(),
        header_spec(
            old(app1_cursor)@,
            old(app1_cursor).spec_pos(),
            old(app1_cursor).spec_endianness(),
            r,
        ),
{
    let ghost s = app1_cursor@;
    let header = match app1_cursor.read_bytes(6) {
        Some(b) => b,
        None => {
            return Err(ParseError::UnexpectedEOF);
        },
    };
    let h0 = *slice_index_get(header, 0);
    let h1 = *slice_index_get(header, 1);
    let h2 = *slice_index_get(header, 2);
    let h3 = *slice_index_get(header, 3);
    let h4 = *slice_index_get(header, 4);
    let h5 = *slice_index_get(header, 5);
    let header_array = [h0, h1, h2, h3, h4, h5];
    proof {
        assert(header_array@ =~= s.take(6));
    }
    if !(h0 == 0x45 && h1 == 0x78 && h2 == 0x69 && h3 == 0x66 && h4 == 0 && h5 == 0) {
        proof {
            if s.take(6) == exif_magic() {
                assert(s.take(6)[0] == 0x45);
                assert(s.take(6)[1] == 0x78);
                assert(s.take(6)[2] == 0x69);
                assert(s.take(6)[3] == 0x66);
                assert(s.take(6)[4] == 0);
                assert(s.take(6)[5] == 0);
            }
        }
        return Err(ParseError::InvalidExifHeader { header: header_array });
    }
    proof {
        assert(s.take(6) =~= exif_magic());
    }
    let tiff_marker = *app1_cursor;
    let tiff_header: u16 = match app1_cursor.read_u16() {
        Some(v) => v,
        None => {
            return Err(ParseError::UnexpectedEOF);
        },
    };
    proof {
        assert(s.subrange(6, s.len() as int).take(2) =~= s.subrange(6, 8));
        assert(s.subrange(6, s.len() as int).subrange(2, s.len() - 6) =~= s.subrange(
            8,
            s.len() as int,
        ));
    }
    let endianness = if tiff_header == 0x4949 {
        Endianness::Little
    } else if tiff_header == 0x4d4d {
        Endianness::Big
    } else {
        return Err(ParseError::InvalidTiffHeader { header: tiff_header });
    };
    let mut checked = app1_cursor.with_endianness(endianness);
    let tiff_data: u16 = match checked.read_u16() {
        Some(v) => v,
        None => {
            return Err(ParseError::UnexpectedEOF);
        },
    };
    proof {
        assert(s.subrange(8, s.len() as int).take(2) =~= s.subrange(8, 10));
    }
    if tiff_data != 0x002a {
        return Err(ParseError::InvalidTiffData { data: tiff_data });
    }
    Ok(tiff_marker.with_endianness(endianness))
}

} // verus!
