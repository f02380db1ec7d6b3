//! The object decoder: a payload whose sigil is `;`, carrying a named
//! object with a required timestamp and a position.

use vstd::prelude::*;

use crate::error::APRSError;
use crate::error::ErrorView;
use crate::lonlat::Angle;
use crate::lonlat::lat_field_valid;
use crate::lonlat::lat_units;
use crate::lonlat::lon_field_valid;
use crate::lonlat::lon_units;
use crate::lonlat::parse_latitude;
use crate::lonlat::parse_longitude;
use crate::timestamp::spec_timestamp;
use crate::timestamp::timestamp_valid;
use crate::timestamp::Timestamp;

verus! {

/// A decoded object report.
#[derive(PartialEq, Debug, Clone)]
pub struct APRSObject {
    /// The object name, verbatim as transmitted: always 9 characters,
    /// padding included.
    pub name: String,
    pub status: ObjectStatus,
    pub timestamp: Timestamp,
    pub latitude: Angle,
    pub longitude: Angle,
    pub comment: String,
    pub symbol_table: char,
    pub symbol: char,
}

/// The liveness mark of an object: `*` is live, `_` is killed, and any
/// other character is carried as-is rather than failing the decode.
#[derive(PartialEq, Eq, Structural, Debug, Clone, Copy)]
pub enum ObjectStatus {
    Live,
    Killed,
    Invalid(char),
}

/// The mathematical image of an [`APRSObject`].
#[verifier::ext_equal]
pub struct ObjectView {
    pub name: Seq<char>,
    pub status: ObjectStatus,
    pub timestamp: Timestamp,
    pub latitude: int,
    pub longitude: int,
    pub comment: Seq<char>,
    pub symbol_table: char,
    pub symbol: char,
}

impl View for APRSObject {
    type V = ObjectView;

    open spec fn view(&self) -> ObjectView {
        ObjectView {
            name: self.name@,
            status: self.status,
            timestamp: self.timestamp,
            latitude: self.latitude@,
            longitude: self.longitude@,
            comment: self.comment@,
            symbol_table: self.symbol_table,
            symbol: self.symbol,
        }
    }
}

/// What the status character stands for.
pub open spec fn spec_object_status(c: char) -> ObjectStatus {
    if c == '*' {
        ObjectStatus::Live
    } else if c == '_' {
        ObjectStatus::Killed
    } else {
        ObjectStatus::Invalid(c)
    }
}

/// What an object payload decodes to. After the sigil: 9 characters of
/// name, the status character, a 7-character timestamp, an 8-character
/// latitude, the symbol-table character, a 9-character longitude, the
/// symbol character, then the comment from offset 42 on. Fewer than 42
/// characters after the sigil fail with `InvalidObject`.
pub open spec fn spec_object(s: Seq<char>) -> Result<ObjectView, ErrorView> {
    if s.len() < 43 {
        Err(ErrorView::InvalidObject(s))
    } else {
        let rest = s.skip(1);
        if !timestamp_valid(rest.subrange(10, 17)) {
            Err(ErrorView::InvalidTimestamp(rest.subrange(10, 17)))
        } else if !lat_field_valid(rest.subrange(17, 25)) {
            Err(ErrorView::InvalidCoordinate(rest.subrange(17, 25)))
        } else if !lon_field_valid(rest.subrange(26, 35)) {
            Err(ErrorView::InvalidCoordinate(rest.subrange(26, 35)))
        } else {
            Ok(
                ObjectView {
                    name: rest.subrange(0, 9),
                    status: spec_object_status(rest[9]),
                    timestamp: spec_timestamp(rest.subrange(10, 17)),
                    latitude: lat_units(rest.subrange(17, 25)),
                    longitude: lon_units(rest.subrange(26, 35)),
                    comment: rest.skip(42),
                    symbol_table: rest[25],
                    symbol: rest[35],
                },
            )
        }
    }
}

impl APRSObject {
    /// Decodes an object payload, including its `;` sigil. A timestamp
    /// or coordinate failure propagates; an unknown status character
    /// does not.
    pub fn from_str(s: &str) -> (r: Result<APRSObject, APRSError>)
        ensures
            r is Ok <==> spec_object(s@) is Ok,
            r matches Ok(o) ==> o@ == spec_object(s@)->Ok_0,
            r matches Err(e) ==> e@ == spec_object(s@)->Err_0,
    {
        let n = s.unicode_len();
        if n < 43 {
            return Err(APRSError::InvalidObject(s.to_owned()));
        }
        let rest = s.substring_char(1, n);
        let timestamp = match Timestamp::from_str(rest.substring_char(10, 17)) {
            Ok(t) => t,
            Err(e) => {
                return Err(e);
            },
        };
        let latitude = match parse_latitude(rest.substring_char(17, 25)) {
            Ok(a) => a,
            Err(e) => {
                return Err(e);
            },
        };
        let longitude = match parse_longitude(rest.substring_char(26, 35)) {
            Ok(a) => a,
            Err(e) => {
                return Err(e);
            },
        };
        let status_char = rest.get_char(9);
        let status = if status_char == '*' {
            ObjectStatus::Live
        } else if status_char == '_' {
            ObjectStatus::Killed
        } else {
            ObjectStatus::Invalid(status_char)
        };
        let m = rest.unicode_len();
        let o = APRSObject {
            name: rest.substring_char(0, 9).to_owned(),
            status,
            timestamp,
            latitude,
            longitude,
            comment: rest.substring_char(42, m).to_owned(),
            symbol_table: rest.get_char(25),
            symbol: rest.get_char(35),
        };
        proof {
            assert(o@ =~= spec_object(s@)->Ok_0);
        }
        Ok(o)
    }
}

} // verus!
