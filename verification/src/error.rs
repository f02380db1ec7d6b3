//! The error taxonomy of the decoder.
//!
//! Each variant carries the offending piece of text, never a partially
//! built result. Header-level failures (`InvalidMessage`) abort a whole
//! decode; the payload dispatcher downgrades every payload-level failure
//! to `APRSData::Unknown` instead of surfacing it.

use vstd::prelude::*;

verus! {

/// A typed decoding failure, carrying the offending substring.
#[derive(PartialEq, Debug, Clone)]
pub enum APRSError {
    /// The header is malformed, or a callsign in it does not parse.
    InvalidMessage(String),
    /// A position payload is too short for its declared layout.
    InvalidPosition(String),
    /// An object payload is shorter than its fixed layout requires.
    InvalidObject(String),
    /// A timestamp field is not six digits plus a known indicator.
    InvalidTimestamp(String),
    /// A coordinate field is malformed.
    InvalidCoordinate(String),
    /// The payload uses a recognized but unimplemented encoding.
    UnsupportedPositionFormat(String),
}

/// The mathematical image of an [`APRSError`]: the same tags over
/// character sequences.
pub enum ErrorView {
    InvalidMessage(Seq<char>),
    InvalidPosition(Seq<char>),
    InvalidObject(Seq<char>),
    InvalidTimestamp(Seq<char>),
    InvalidCoordinate(Seq<char>),
    UnsupportedPositionFormat(Seq<char>),
}

impl View for APRSError {
    type V = ErrorView;

    open spec fn view(&self) -> ErrorView {
        match self {
            APRSError::InvalidMessage(s) => ErrorView::InvalidMessage(s@),
            APRSError::InvalidPosition(s) => ErrorView::InvalidPosition(s@),
            APRSError::InvalidObject(s) => ErrorView::InvalidObject(s@),
            APRSError::InvalidTimestamp(s) => ErrorView::InvalidTimestamp(s@),
            APRSError::InvalidCoordinate(s) => ErrorView::InvalidCoordinate(s@),
            APRSError::UnsupportedPositionFormat(s) => ErrorView::UnsupportedPositionFormat(s@),
        }
    }
}

} // verus!
