//! The message decoder and the payload dispatcher.
//!
//! A packet is `SOURCE>DEST[,PATH...]:PAYLOAD`. Header failures are
//! fatal; payload failures are downgraded to `APRSData::Unknown` by the
//! dispatcher, so a malformed payload degrades the classification of a
//! packet but never rejects it.

use vstd::prelude::*;

use crate::callsign::callsign_valid;
use crate::callsign::spec_callsign;
use crate::callsign::Callsign;
use crate::callsign::CallsignView;
use crate::error::APRSError;
use crate::error::ErrorView;
use crate::object::spec_object;
use crate::object::APRSObject;
use crate::object::ObjectView;
use crate::position::spec_position;
use crate::position::APRSPosition;
use crate::position::PositionView;
use crate::status_report::APRSStatusReport;
use crate::status_report::StatusReportView;
use crate::telemetry::APRSTelemetry;
use crate::telemetry::TelemetryView;
use crate::text::find_char;

verus! {

/// A decoded packet: the source station, the addressee, the digipeater
/// path in transmission order, and the classified payload.
#[derive(PartialEq, Debug, Clone)]
pub struct APRSMessage {
    pub from: Callsign,
    pub to: Callsign,
    pub via: Vec<Callsign>,
    pub data: APRSData,
}

/// The classified payload of a packet. `Unknown` is a valid terminal
/// classification, not an error: it covers unrecognized sigils and
/// payloads whose decoder failed.
#[derive(PartialEq, Debug, Clone)]
pub enum APRSData {
    Position(APRSPosition),
    Telemetry(APRSTelemetry),
    Object(APRSObject),
    StatusReport(APRSStatusReport),
    Unknown,
}

/// The mathematical image of an [`APRSData`].
#[verifier::ext_equal]
pub enum DataView {
    Position(PositionView),
    Telemetry(TelemetryView),
    Object(ObjectView),
    StatusReport(StatusReportView),
    Unknown,
}

impl View for APRSData {
    type V = DataView;

    open spec fn view(&self) -> DataView {
        match self {
            APRSData::Position(p) => DataView::Position(p@),
            APRSData::Telemetry(t) => DataView::Telemetry(t@),
            APRSData::Object(o) => DataView::Object(o@),
            APRSData::StatusReport(sr) => DataView::StatusReport(sr@),
            APRSData::Unknown => DataView::Unknown,
        }
    }
}

/// The mathematical image of an [`APRSMessage`].
#[verifier::ext_equal]
pub struct MessageView {
    pub from: CallsignView,
    pub to: CallsignView,
    pub via: Seq<CallsignView>,
    pub data: DataView,
}

/// The images of a sequence of callsigns, in order.
pub open spec fn callsign_views(v: Seq<Callsign>) -> Seq<CallsignView> {
    Seq::new(v.len(), |i: int| v[i]@)
}

impl View for APRSMessage {
    type V = MessageView;

    open spec fn view(&self) -> MessageView {
        MessageView {
            from: self.from@,
            to: self.to@,
            via: callsign_views(self.via@),
            data: self.data@,
        }
    }
}

/// What a payload decodes to, keyed by its sigil. Every failure of a
/// specific decoder collapses to `Unknown`; the Mic-E decoder always
/// fails, so its sigils always classify as `Unknown`.
pub open spec fn spec_data(s: Seq<char>) -> DataView {
    if s.len() == 0 {
        DataView::Unknown
    } else if s[0] == '@' || s[0] == '/' || s[0] == '!' || s[0] == '=' {
        match spec_position(s) {
            Ok(p) => DataView::Position(p),
            Err(_) => DataView::Unknown,
        }
    } else if s[0] == '`' || s[0] == '\'' {
        DataView::Unknown
    } else if s[0] == ';' {
        match spec_object(s) {
            Ok(o) => DataView::Object(o),
            Err(_) => DataView::Unknown,
        }
    } else if s[0] == '>' {
        DataView::StatusReport(StatusReportView { timestamp: None, report: s.skip(1) })
    } else {
        DataView::Unknown
    }
}

/// What a comma-separated list of callsign tokens decodes to: the
/// callsigns in order, or the failure of the first bad token.
pub open spec fn spec_callsign_list(s: Seq<char>) -> Result<Seq<CallsignView>, ErrorView>
    decreases s.len(),
{
    match s.index_of_first(',') {
        None => if callsign_valid(s) {
            Ok(seq![spec_callsign(s)])
        } else {
            Err(ErrorView::InvalidMessage(s))
        },
        Some(i) => {
            proof {
                s.index_of_first_ensures(',');
            }
            let tok = s.take(i);
            if !callsign_valid(tok) {
                Err(ErrorView::InvalidMessage(tok))
            } else {
                match spec_callsign_list(s.skip(i + 1)) {
                    Ok(rest) => Ok(seq![spec_callsign(tok)] + rest),
                    Err(e) => Err(e),
                }
            }
        },
    }
}

/// What a whole packet decodes to. The text before the first `:` is the
/// header and the text after it the payload; within the header, the
/// text before the first `>` is the source and the rest a
/// comma-separated list whose first token is the destination and whose
/// remaining tokens are the path. Header failures are fatal; the
/// payload's classification can never fail.
pub open spec fn spec_message(s: Seq<char>) -> Result<MessageView, ErrorView> {
    match s.index_of_first(':') {
        None => Err(ErrorView::InvalidMessage(s)),
        Some(ci) => {
            let header = s.take(ci);
            let body = s.skip(ci + 1);
            match header.index_of_first('>') {
                None => Err(ErrorView::InvalidMessage(s)),
                Some(gi) => {
                    let from_txt = header.take(gi);
                    let list = header.skip(gi + 1);
                    if !callsign_valid(from_txt) {
                        Err(ErrorView::InvalidMessage(from_txt))
                    } else {
                        match spec_callsign_list(list) {
                            Err(e) => Err(e),
                            Ok(cs) => Ok(
                                MessageView {
                                    from: spec_callsign(from_txt),
                                    to: cs[0],
                                    via: cs.skip(1),
                                    data: spec_data(body),
                                },
                            ),
                        }
                    }
                },
            }
        },
    }
}

/// Law: decoding is deterministic. Any two outcomes that meet the
/// decoder's contract for the same packet text are structurally equal:
/// the outcome is a function of the text alone.
pub proof fn lemma_decode_deterministic(
    s: Seq<char>,
    r1: Result<MessageView, ErrorView>,
    r2: Result<MessageView, ErrorView>,
)
    requires
        r1 is Ok <==> spec_message(s) is Ok,
        r1 matches Ok(m) ==> m == spec_message(s)->Ok_0,
        r1 matches Err(e) ==> e == spec_message(s)->Err_0,
        r2 is Ok <==> spec_message(s) is Ok,
        r2 matches Ok(m) ==> m == spec_message(s)->Ok_0,
        r2 matches Err(e) ==> e == spec_message(s)->Err_0,
    ensures
        r1 == r2,
{
}

/// Decodes one comma-separated callsign token, appends it to `out`, and
/// recurses on the rest of the list.
fn parse_callsign_list(s: &str, out: &mut Vec<Callsign>) -> (r: Result<(), APRSError>)
    ensures
        r is Ok <==> spec_callsign_list(s@) is Ok,
        r is Ok ==> callsign_views(final(out)@) == callsign_views(old(out)@)
            + spec_callsign_list(s@)->Ok_0,
        r matches Err(e) ==> e@ == spec_callsign_list(s@)->Err_0,
    decreases s@.len(),
{
    match find_char(s, ',') {
        None => match Callsign::from_str(s) {
            Ok(c) => {
                out.push(c);
                proof {
                    assert(callsign_views(out@) =~= callsign_views(old(out)@) + seq![c@]);
                }
                Ok(())
            },
            Err(e) => Err(e),
        },
        Some(k) => {
            proof {
                s@.index_of_first_ensures(',');
            }
            let tok = s.substring_char(0, k);
            match Callsign::from_str(tok) {
                Err(e) => Err(e),
                Ok(c) => {
                    out.push(c);
                    let ghost mid = out@;
                    let n = s.unicode_len();
                    let rest = s.substring_char(k + 1, n);
                    let r = parse_callsign_list(rest, out);
                    proof {
                        assert(callsign_views(mid) =~= callsign_views(old(out)@) + seq![c@]);
                        if r is Ok {
                            assert(callsign_views(out@) =~= callsign_views(old(out)@) + (seq![
                                c@,
                            ] + spec_callsign_list(rest@)->Ok_0));
                        }
                    }
                    r
                },
            }
        },
    }
}

impl APRSMessage {
    /// Decodes a whole packet. Fails with `InvalidMessage` when the
    /// header has no `:` or no `>`, or when the source, destination or
    /// any path callsign does not parse; payload failures only degrade
    /// the payload to `APRSData::Unknown`.
    pub fn from_str(s: &str) -> (r: Result<APRSMessage, APRSError>)
        ensures
            r is Ok <==> spec_message(s@) is Ok,
            r matches Ok(m) ==> m@ == spec_message(s@)->Ok_0,
            r matches Err(e) ==> e@ == spec_message(s@)->Err_0,
    {
        let n = s.unicode_len();
        let ci = match find_char(s, ':') {
            Some(i) => i,
            None => {
                return Err(APRSError::InvalidMessage(s.to_owned()));
            },
        };
        proof {
            s@.index_of_first_ensures(':');
        }
        let header = s.substring_char(0, ci);
        let body = s.substring_char(ci + 1, n);
        let hm = header.unicode_len();
        let gi = match find_char(header, '>') {
            Some(i) => i,
            None => {
                return Err(APRSError::InvalidMessage(s.to_owned()));
            },
        };
        proof {
            header@.index_of_first_ensures('>');
        }
        let from_txt = header.substring_char(0, gi);
        let list = header.substring_char(gi + 1, hm);
        let from = match Callsign::from_str(from_txt) {
            Ok(c) => c,
            Err(e) => {
                return Err(e);
            },
        };
        let mut tokens: Vec<Callsign> = Vec::new();
        match parse_callsign_list(list, &mut tokens) {
            Err(e) => {
                return Err(e);
            },
            Ok(_) => {},
        }
        let ghost cs = spec_callsign_list(list@)->Ok_0;
        proof {
            assert(callsign_views(tokens@) =~= cs);
            assert(cs.len() >= 1);
        }
        let to = tokens.remove(0);
        let via = tokens;
        let data = APRSData::decode(body);
        let m = APRSMessage { from, to, via, data };
        proof {
            assert(callsign_views(via@) =~= cs.skip(1));
            assert(m@ =~= spec_message(s@)->Ok_0);
        }
        Ok(m)
    }
}

impl APRSData {
    /// Classifies a payload by its sigil and runs the matching decoder,
    /// downgrading any failure of that decoder to `Unknown`.
    pub fn decode(data: &str) -> (r: APRSData)
        ensures
            r@ == spec_data(data@),
    {
        let n = data.unicode_len();
        if n == 0 {
            return APRSData::Unknown;
        }
        let c = data.get_char(0);
        if c == '@' || c == '/' || c == '!' || c == '=' {
            match APRSPosition::from_str(data) {
                Ok(p) => APRSData::Position(p),
                Err(_) => APRSData::Unknown,
            }
        } else if c == '`' || c == '\'' {
            match APRSTelemetry::from_str(data) {
                Ok(t) => APRSData::Telemetry(t),
                Err(_) => APRSData::Unknown,
            }
        } else if c == ';' {
            match APRSObject::from_str(data) {
                Ok(o) => APRSData::Object(o),
                Err(_) => APRSData::Unknown,
            }
        } else if c == '>' {
            match APRSStatusReport::from_str(data) {
                Ok(sr) => APRSData::StatusReport(sr),
                Err(_) => APRSData::Unknown,
            }
        } else {
            APRSData::Unknown
        }
    }
}

} // verus!
