//! The status-report decoder: a payload whose sigil is `>`.
//!
//! This decoder is a placeholder: it extracts no timestamp and carries
//! the text after the sigil verbatim. A complete decoder would consult
//! the protocol's status-report grammar.

use vstd::prelude::*;

use crate::error::APRSError;
use crate::timestamp::Timestamp;

verus! {

/// A decoded status report.
#[derive(PartialEq, Debug, Clone)]
pub struct APRSStatusReport {
    /// Always `None` at present: no timestamp extraction is attempted.
    pub timestamp: Option<Timestamp>,
    /// The payload after the sigil, verbatim.
    pub report: String,
}

/// The mathematical image of an [`APRSStatusReport`].
#[verifier::ext_equal]
pub struct StatusReportView {
    pub timestamp: Option<Timestamp>,
    pub report: Seq<char>,
}

impl View for APRSStatusReport {
    type V = StatusReportView;

    open spec fn view(&self) -> StatusReportView {
        StatusReportView { timestamp: self.timestamp, report: self.report@ }
    }
}

impl APRSStatusReport {
    /// Strips the sigil and keeps the rest as the report text, with no
    /// timestamp. Never fails.
    pub fn from_str(s: &str) -> (r: Result<APRSStatusReport, APRSError>)
        requires
            s@.len() >= 1,
        ensures
            r matches Ok(sr) && sr@ == (StatusReportView {
                timestamp: None,
                report: s@.skip(1),
            }),
    {
        let n = s.unicode_len();
        let sr = APRSStatusReport { timestamp: None, report: s.substring_char(1, n).to_owned() };
        proof {
            assert(sr@ =~= StatusReportView { timestamp: None, report: s@.skip(1) });
        }
        Ok(sr)
    }
}

} // verus!
