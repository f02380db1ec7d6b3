//! Decoder for textual APRS (Automatic Packet Reporting System) packets.
//!
//! A packet is a single line of text: a header naming the transmitting
//! station, the addressee and the digipeater path, then a payload whose
//! first character (its sigil) selects a format: a position report, a
//! named object, a status report, or Mic-E telemetry.
//!
//! Coordinates are held as exact scaled integers rather than floating
//! point: see [`lonlat::Angle`].

use vstd::prelude::*;

pub mod callsign;
pub mod error;
pub mod lonlat;
pub mod message;
pub mod object;
pub mod position;
pub mod status_report;
pub mod telemetry;
pub mod text;
pub mod timestamp;

verus! {

pub use crate::callsign::Callsign;
pub use crate::callsign::CallsignView;
pub use crate::error::APRSError;
pub use crate::error::ErrorView;
pub use crate::lonlat::Angle;
pub use crate::message::spec_message;
pub use crate::message::APRSData;
pub use crate::message::APRSMessage;
pub use crate::message::DataView;
pub use crate::message::MessageView;
pub use crate::object::APRSObject;
pub use crate::object::ObjectStatus;
pub use crate::object::ObjectView;
pub use crate::position::APRSPosition;
pub use crate::position::PositionView;
pub use crate::status_report::APRSStatusReport;
pub use crate::status_report::StatusReportView;
pub use crate::telemetry::APRSTelemetry;
pub use crate::telemetry::TelemetryView;
pub use crate::timestamp::Timestamp;

/// Decodes one packet of APRS text. Fails only on a malformed header or
/// an unparsable header callsign; any payload-level failure degrades the
/// payload to `APRSData::Unknown` instead.
pub fn parse(s: &str) -> (r: Result<APRSMessage, APRSError>)
    ensures
        r is Ok <==> spec_message(s@) is Ok,
        r matches Ok(m) ==> m@ == spec_message(s@)->Ok_0,
        r matches Err(e) ==> e@ == spec_message(s@)->Err_0,
{
    APRSMessage::from_str(s)
}

} // verus!
