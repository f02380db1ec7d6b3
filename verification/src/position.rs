//! The position decoder: a payload whose sigil is `@`, `/`, `!` or `=`,
//! in either the human-readable degree-minute encoding or the compressed
//! base-91 encoding.

use vstd::prelude::*;

use crate::error::APRSError;
use crate::error::ErrorView;
use crate::lonlat::Angle;
use crate::lonlat::b91_quad_val;
use crate::lonlat::b91_quad_valid;
use crate::lonlat::compressed_lat_units;
use crate::lonlat::compressed_lon_units;
use crate::lonlat::lat_field_valid;
use crate::lonlat::lat_units;
use crate::lonlat::lon_field_valid;
use crate::lonlat::lon_units;
use crate::lonlat::parse_base91_quad;
use crate::lonlat::parse_latitude;
use crate::lonlat::parse_longitude;
use crate::lonlat::LAT_B91_UNIT;
use crate::lonlat::LON_B91_UNIT;
use crate::lonlat::UNITS_PER_DEGREE;
use crate::text::digit_check;
use crate::text::is_ascii_digit;
use crate::timestamp::spec_timestamp;
use crate::timestamp::timestamp_valid;
use crate::timestamp::Timestamp;

verus! {

/// A decoded position report.
#[derive(PartialEq, Debug, Clone)]
pub struct APRSPosition {
    pub timestamp: Option<Timestamp>,
    pub latitude: Angle,
    pub longitude: Angle,
    pub comment: String,
    pub symbol_table: char,
    pub symbol: char,
}

/// The mathematical image of an [`APRSPosition`].
#[verifier::ext_equal]
pub struct PositionView {
    pub timestamp: Option<Timestamp>,
    pub latitude: int,
    pub longitude: int,
    pub comment: Seq<char>,
    pub symbol_table: char,
    pub symbol: char,
}

impl View for APRSPosition {
    type V = PositionView;

    open spec fn view(&self) -> PositionView {
        PositionView {
            timestamp: self.timestamp,
            latitude: self.latitude@,
            longitude: self.longitude@,
            comment: self.comment@,
            symbol_table: self.symbol_table,
            symbol: self.symbol,
        }
    }
}

/// What the uncompressed branch makes of the payload after the sigil and
/// any timestamp: an 8-character latitude, the symbol-table character, a
/// 9-character longitude, the symbol character, then the comment.
pub open spec fn spec_position_uncompressed(ts: Option<Timestamp>, rest: Seq<char>) -> Result<
    PositionView,
    ErrorView,
> {
    if rest.len() < 19 {
        Err(ErrorView::InvalidPosition(rest))
    } else if !lat_field_valid(rest.subrange(0, 8)) {
        Err(ErrorView::InvalidCoordinate(rest.subrange(0, 8)))
    } else if !lon_field_valid(rest.subrange(9, 18)) {
        Err(ErrorView::InvalidCoordinate(rest.subrange(9, 18)))
    } else {
        Ok(
            PositionView {
                timestamp: ts,
                latitude: lat_units(rest.subrange(0, 8)),
                longitude: lon_units(rest.subrange(9, 18)),
                comment: rest.skip(19),
                symbol_table: rest[8],
                symbol: rest[18],
            },
        )
    }
}

/// What the compressed branch makes of the payload after the sigil and
/// any timestamp: the symbol-table character, four base-91 digits of
/// latitude, four of longitude, the symbol character, a three-character
/// extension that is skipped, then the comment.
pub open spec fn spec_position_compressed(ts: Option<Timestamp>, rest: Seq<char>) -> Result<
    PositionView,
    ErrorView,
> {
    if rest.len() < 13 {
        Err(ErrorView::InvalidPosition(rest))
    } else if !b91_quad_valid(rest.subrange(1, 5)) {
        Err(ErrorView::InvalidCoordinate(rest.subrange(1, 5)))
    } else if !b91_quad_valid(rest.subrange(5, 9)) {
        Err(ErrorView::InvalidCoordinate(rest.subrange(5, 9)))
    } else {
        Ok(
            PositionView {
                timestamp: ts,
                latitude: compressed_lat_units(b91_quad_val(rest.subrange(1, 5))),
                longitude: compressed_lon_units(b91_quad_val(rest.subrange(5, 9))),
                comment: rest.skip(13),
                symbol_table: rest[0],
                symbol: rest[9],
            },
        )
    }
}

/// What a position payload decodes to. Sigils `@` and `/` carry a
/// 7-character timestamp right after the sigil; `!` and `=` do not.
/// After the optional timestamp, a leading ASCII digit selects the
/// uncompressed encoding, anything else the compressed one.
pub open spec fn spec_position(s: Seq<char>) -> Result<PositionView, ErrorView> {
    if s.len() < 1 {
        Err(ErrorView::InvalidPosition(s))
    } else {
        let has_ts = s[0] == '@' || s[0] == '/';
        if has_ts && s.len() < 8 {
            Err(ErrorView::InvalidPosition(s))
        } else if has_ts && !timestamp_valid(s.subrange(1, 8)) {
            Err(ErrorView::InvalidTimestamp(s.subrange(1, 8)))
        } else {
            let ts = if has_ts {
                Some(spec_timestamp(s.subrange(1, 8)))
            } else {
                None
            };
            let rest = if has_ts {
                s.skip(8)
            } else {
                s.skip(1)
            };
            if rest.len() >= 1 && is_ascii_digit(rest[0]) {
                spec_position_uncompressed(ts, rest)
            } else {
                spec_position_compressed(ts, rest)
            }
        }
    }
}

impl APRSPosition {
    /// Decodes a position payload, including its sigil. The timestamp
    /// parsed after an `@` or `/` sigil is carried into the result on
    /// both branches.
    pub fn from_str(s: &str) -> (r: Result<APRSPosition, APRSError>)
        ensures
            r is Ok <==> spec_position(s@) is Ok,
            r matches Ok(p) ==> p@ == spec_position(s@)->Ok_0,
            r matches Err(e) ==> e@ == spec_position(s@)->Err_0,
    {
        let n = s.unicode_len();
        if n < 1 {
            return Err(APRSError::InvalidPosition(s.to_owned()));
        }
        let sigil = s.get_char(0);
        let has_ts = sigil == '@' || sigil == '/';
        if has_ts && n < 8 {
            return Err(APRSError::InvalidPosition(s.to_owned()));
        }
        let timestamp = if has_ts {
            match Timestamp::from_str(s.substring_char(1, 8)) {
                Ok(t) => Some(t),
                Err(e) => {
                    return Err(e);
                },
            }
        } else {
            None
        };
        let rest = if has_ts {
            s.substring_char(8, n)
        } else {
            s.substring_char(1, n)
        };
        let m = rest.unicode_len();
        if m >= 1 && digit_check(rest.get_char(0)) {
            if m < 19 {
                return Err(APRSError::InvalidPosition(rest.to_owned()));
            }
            let latitude = match parse_latitude(rest.substring_char(0, 8)) {
                Ok(a) => a,
                Err(e) => {
                    return Err(e);
                },
            };
            let longitude = match parse_longitude(rest.substring_char(9, 18)) {
                Ok(a) => a,
                Err(e) => {
                    return Err(e);
                },
            };
            let p = APRSPosition {
                timestamp,
                latitude,
                longitude,
                comment: rest.substring_char(19, m).to_owned(),
                symbol_table: rest.get_char(8),
                symbol: rest.get_char(18),
            };
            proof {
                assert(p@ =~= spec_position(s@)->Ok_0);
            }
            Ok(p)
        } else {
            if m < 13 {
                return Err(APRSError::InvalidPosition(rest.to_owned()));
            }
            let lat_enc = match parse_base91_quad(rest.substring_char(1, 5)) {
                Ok(v) => v,
                Err(e) => {
                    return Err(e);
                },
            };
            let lon_enc = match parse_base91_quad(rest.substring_char(5, 9)) {
                Ok(v) => v,
                Err(e) => {
                    return Err(e);
                },
            };
            let latitude = Angle { units: 90 * UNITS_PER_DEGREE - lat_enc * LAT_B91_UNIT };
            let longitude = Angle { units: -180 * UNITS_PER_DEGREE + lon_enc * LON_B91_UNIT };
            let p = APRSPosition {
                timestamp,
                latitude,
                longitude,
                comment: rest.substring_char(13, m).to_owned(),
                symbol_table: rest.get_char(0),
                symbol: rest.get_char(9),
            };
            proof {
                assert(p@ =~= spec_position(s@)->Ok_0);
            }
            Ok(p)
        }
    }
}

} // verus!
