//! The telemetry decoder: a payload whose sigil is `` ` `` or `'`,
//! carrying Mic-E encoded data.
//!
//! This decoder is a placeholder: it always fails with
//! `UnsupportedPositionFormat`. A complete decoder would implement the
//! Mic-E grammar from the protocol specification.

use vstd::prelude::*;

use crate::error::APRSError;
use crate::error::ErrorView;
use crate::lonlat::Angle;

verus! {

/// A decoded telemetry report. No decoder produces one yet; the type
/// fixes the shape a Mic-E decoder would fill in.
#[derive(PartialEq, Debug, Clone)]
pub struct APRSTelemetry {
    pub latitude: Angle,
    pub longitude: Angle,
    pub comment: String,
    pub symbol_table: char,
    pub symbol: char,
}

/// The mathematical image of an [`APRSTelemetry`].
#[verifier::ext_equal]
pub struct TelemetryView {
    pub latitude: int,
    pub longitude: int,
    pub comment: Seq<char>,
    pub symbol_table: char,
    pub symbol: char,
}

impl View for APRSTelemetry {
    type V = TelemetryView;

    open spec fn view(&self) -> TelemetryView {
        TelemetryView {
            latitude: self.latitude@,
            longitude: self.longitude@,
            comment: self.comment@,
            symbol_table: self.symbol_table,
            symbol: self.symbol,
        }
    }
}

impl APRSTelemetry {
    /// Always fails: Mic-E decoding is not implemented. The error
    /// carries the payload after the sigil.
    pub fn from_str(s: &str) -> (r: Result<APRSTelemetry, APRSError>)
        requires
            s@.len() >= 1,
        ensures
            r matches Err(e) && e@ == ErrorView::UnsupportedPositionFormat(s@.skip(1)),
    {
        let n = s.unicode_len();
        Err(APRSError::UnsupportedPositionFormat(s.substring_char(1, n).to_owned()))
    }
}

} // verus!
