//! The timestamp codec: a fixed field of six ASCII digits followed by
//! one format-indicator character.
//!
//! The indicator selects how the three 2-digit groups are read and is
//! kept as the tag of the result; no timezone conversion is performed.

use vstd::prelude::*;

use crate::error::APRSError;
use crate::error::ErrorView;
use crate::text::all_digits;
use crate::text::digit_check;
use crate::text::digit_val;
use crate::text::digit_value;
use crate::text::is_ascii_digit;

verus! {

/// A packet timestamp, tagged by the encoding it was transmitted in.
#[derive(PartialEq, Eq, Structural, Debug, Clone, Copy)]
pub enum Timestamp {
    /// Day of month, hour and minute, zulu time (indicator `z`).
    DDHHMM(u8, u8, u8),
    /// Hour, minute and second (indicator `h`).
    HHMMSS(u8, u8, u8),
    /// Day of month, hour and minute, station-local time (indicator `/`).
    DDHHMMLocal(u8, u8, u8),
}

/// A timestamp field decodes iff it is exactly six ASCII digits
/// followed by a recognized indicator.
pub open spec fn timestamp_valid(s: Seq<char>) -> bool {
    &&& s.len() == 7
    &&& all_digits(s.take(6))
    &&& (s[6] == 'z' || s[6] == 'h' || s[6] == '/')
}

/// The value of the 2-digit group of `s` starting at `i`.
pub open spec fn two_digit_group(s: Seq<char>, i: int) -> int {
    digit_val(s[i]) * 10 + digit_val(s[i + 1])
}

/// What a valid timestamp field decodes to: the three 2-digit groups
/// under the tag its indicator selects.
pub open spec fn spec_timestamp(s: Seq<char>) -> Timestamp {
    let a = two_digit_group(s, 0) as u8;
    let b = two_digit_group(s, 2) as u8;
    let c = two_digit_group(s, 4) as u8;
    if s[6] == 'z' {
        Timestamp::DDHHMM(a, b, c)
    } else if s[6] == 'h' {
        Timestamp::HHMMSS(a, b, c)
    } else {
        Timestamp::DDHHMMLocal(a, b, c)
    }
}

impl Timestamp {
    /// Decodes a 7-character timestamp field. Never fails on six digits
    /// with a recognized indicator; always fails with `InvalidTimestamp`
    /// on anything else.
    pub fn from_str(s: &str) -> (r: Result<Timestamp, APRSError>)
        ensures
            r is Ok <==> timestamp_valid(s@),
            r matches Ok(t) ==> t == spec_timestamp(s@),
            r matches Err(e) ==> e@ == ErrorView::InvalidTimestamp(s@),
    {
        let n = s.unicode_len();
        if n != 7 {
            return Err(APRSError::InvalidTimestamp(s.to_owned()));
        }
        let mut i: usize = 0;
        while i < 6
            invariant
            n == s@.len(),
            n == 7,
            i <= 6,
            forall|j: int| 0 <= j < i ==> is_ascii_digit(#[trigger] s@.take(6)[j]),
            decreases 6 - i,
        {
            if !digit_check(s.get_char(i)) {
                assert(!all_digits(s@.take(6))) by {
                    assert(s@.take(6)[i as int] == s@[i as int]);
                }
                return Err(APRSError::InvalidTimestamp(s.to_owned()));
            }
            i += 1;
        }
        let ind = s.get_char(6);
        if ind != 'z' && ind != 'h' && ind != '/' {
            return Err(APRSError::InvalidTimestamp(s.to_owned()));
        }
        assert(all_digits(s@.take(6)));
        assert(forall|j: int| 0 <= j < 6 ==> is_ascii_digit(#[trigger] s@[j])) by {
            assert(forall|j: int| 0 <= j < 6 ==> s@.take(6)[j] == #[trigger] s@[j]);
        }
        let a = digit_value(s.get_char(0)) * 10 + digit_value(s.get_char(1));
        let b = digit_value(s.get_char(2)) * 10 + digit_value(s.get_char(3));
        let c = digit_value(s.get_char(4)) * 10 + digit_value(s.get_char(5));
        if ind == 'z' {
            Ok(Timestamp::DDHHMM(a, b, c))
        } else if ind == 'h' {
            Ok(Timestamp::HHMMSS(a, b, c))
        } else {
            Ok(Timestamp::DDHHMMLocal(a, b, c))
        }
    }
}

} // verus!
