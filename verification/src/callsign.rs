//! The callsign codec: splits `CALL[-SSID]` into the base call and the
//! optional numeric secondary-station identifier.

use vstd::prelude::*;

use crate::error::APRSError;
use crate::error::ErrorView;
use crate::text::all_digits;
use crate::text::digit_check;
use crate::text::digit_val;
use crate::text::digit_value;
use crate::text::digits_val;
use crate::text::find_char;
use crate::text::is_ascii_digit;
use crate::text::lemma_digits_val_nonneg;
use crate::text::lemma_digits_val_prefix;

verus! {

/// A station identifier: the base call and, if the token carried a `-`,
/// the numeric SSID that followed it.
///
/// Invariant of every decoded value: `call` is the text before the first
/// `-` of the token, so it never contains the separator of a parsed SSID.
#[derive(PartialEq, Debug, Clone)]
pub struct Callsign {
    pub call: String,
    pub ssid: Option<u16>,
}

/// The mathematical image of a [`Callsign`].
pub struct CallsignView {
    pub call: Seq<char>,
    pub ssid: Option<int>,
}

impl View for Callsign {
    type V = CallsignView;

    open spec fn view(&self) -> CallsignView {
        CallsignView {
            call: self.call@,
            ssid: match self.ssid {
                Some(n) => Some(n as int),
                None => None,
            },
        }
    }
}

/// A token decodes iff it has no `-`, or everything after its first `-`
/// is a non-empty numeral no larger than a 16-bit SSID can hold.
pub open spec fn callsign_valid(s: Seq<char>) -> bool {
    match s.index_of_first('-') {
        None => true,
        Some(i) => {
            let d = s.skip(i + 1);
            d.len() >= 1 && all_digits(d) && digits_val(d) <= 65535
        },
    }
}

/// What a valid token decodes to: the text before the first `-` and the
/// value of the numeral after it, or the whole token with no SSID.
pub open spec fn spec_callsign(s: Seq<char>) -> CallsignView {
    match s.index_of_first('-') {
        None => CallsignView { call: s, ssid: None },
        Some(i) => CallsignView { call: s.take(i), ssid: Some(digits_val(s.skip(i + 1))) },
    }
}

/// The ASCII digit with value `n`.
pub open spec fn digit_char(n: int) -> char {
    ((n + 48) as u8) as char
}

/// The canonical decimal numeral of `n` (no leading zero).
pub open spec fn render_digits(n: int) -> Seq<char>
    decreases n,
{
    if n < 10 {
        seq![digit_char(n)]
    } else {
        proof {
            assert(n >= 10 ==> 0 <= n / 10 < n) by (nonlinear_arith);
        }
        render_digits(n / 10).push(digit_char(n % 10))
    }
}

/// What a callsign looks like as a token again: the call, then `-` and
/// the SSID digits when an SSID is present.
pub open spec fn spec_render(c: CallsignView) -> Seq<char> {
    match c.ssid {
        None => c.call,
        Some(n) => c.call + seq!['-'] + render_digits(n),
    }
}

/// A numeral whose first digit is not `0` has value at least 1.
proof fn lemma_digits_val_first_nonzero(s: Seq<char>)
    requires
        all_digits(s),
        s.len() >= 1,
        s[0] != '0',
    ensures
        digits_val(s) >= 1,
    decreases s.len(),
{
    assert(is_ascii_digit(s[0]));
    assert(is_ascii_digit(s.last()));
    if s.len() == 1 {
    } else {
        assert(all_digits(s.drop_last()));
        assert(s.drop_last()[0] == s[0]);
        lemma_digits_val_first_nonzero(s.drop_last());
    }
}

/// Rendering the value of a canonical numeral gives the numeral back.
proof fn lemma_render_digits_inverse(s: Seq<char>)
    requires
        all_digits(s),
        s.len() >= 1,
        s.len() > 1 ==> s[0] != '0',
    ensures
        render_digits(digits_val(s)) == s,
    decreases s.len(),
{
    lemma_digits_val_nonneg(s);
    assert(is_ascii_digit(s[0]));
    assert(is_ascii_digit(s.last()));
    if s.len() == 1 {
        assert(digits_val(s.drop_last()) == 0);
        assert(digits_val(s) == digit_val(s[0]));
        assert(digit_char(digit_val(s[0])) == s[0]);
        assert(render_digits(digits_val(s)) =~= s);
    } else {
        let p = s.drop_last();
        let v = digits_val(s);
        let dl = digit_val(s.last());
        assert(all_digits(p));
        assert(p[0] == s[0]);
        lemma_digits_val_first_nonzero(p);
        lemma_render_digits_inverse(p);
        assert(v == digits_val(p) * 10 + dl);
        assert(v / 10 == digits_val(p) && v % 10 == dl) by (nonlinear_arith)
            requires
                v == digits_val(p) * 10 + dl,
                digits_val(p) >= 1,
                0 <= dl < 10,
        ;
        assert(v >= 10) by (nonlinear_arith)
            requires
                v == digits_val(p) * 10 + dl,
                digits_val(p) >= 1,
                0 <= dl,
        ;
        assert(digit_char(dl) == s.last());
        assert(render_digits(v) == render_digits(digits_val(p)).push(digit_char(dl)));
        assert(render_digits(v) =~= s);
    }
}

/// Law: decoding a valid `CALL[-SSID]` token and rendering the result
/// back to text reproduces the token, whenever the SSID numeral is
/// canonical (it has no leading zero).
pub proof fn lemma_callsign_round_trip(s: Seq<char>)
    requires
        callsign_valid(s),
        match s.index_of_first('-') {
            Some(i) => s.len() == i + 2 || s[i + 1] != '0',
            None => true,
        },
    ensures
        spec_render(spec_callsign(s)) == s,
{
    s.index_of_first_ensures('-');
    match s.index_of_first('-') {
        None => {},
        Some(i) => {
            let d = s.skip(i + 1);
            lemma_render_digits_inverse(d);
            assert(s.take(i) + seq![s[i]] + d =~= s);
        },
    }
}

impl Callsign {
    /// Builds a callsign directly from its two fields.
    pub fn new(call: &str, ssid: Option<u16>) -> (r: Callsign)
        ensures
            r@.call == call@,
            r.ssid == ssid,
    {
        Callsign { call: call.to_owned(), ssid }
    }

    /// Decodes a `CALL[-SSID]` token. Fails with `InvalidMessage` when
    /// the part after the first `-` is not a numeral an SSID can hold;
    /// an empty call is accepted as-is.
    pub fn from_str(s: &str) -> (r: Result<Callsign, APRSError>)
        ensures
            r is Ok <==> callsign_valid(s@),
            r matches Ok(c) ==> c@ == spec_callsign(s@),
            r matches Err(e) ==> e@ == ErrorView::InvalidMessage(s@),
    {
        proof {
            s@.index_of_first_ensures('-');
        }
        match find_char(s, '-') {
            None => Ok(Callsign { call: s.to_owned(), ssid: None }),
            Some(i) => {
                let n = s.unicode_len();
                let ghost d = s@.skip(i + 1);
                if i + 1 == n {
                    return Err(APRSError::InvalidMessage(s.to_owned()));
                }
                let mut acc: u32 = 0;
                let mut j: usize = i + 1;
                while j < n
                    invariant
                        n == s@.len(),
                        s@.index_of_first('-') == Some(i as int),
                        i + 1 < n,
                        i + 1 <= j <= n,
                        d == s@.skip(i + 1),
                        all_digits(d.take(j - i - 1)),
                        acc == digits_val(d.take(j - i - 1)),
                        acc <= 65535,
                    decreases n - j,
                {
                    let c = s.get_char(j);
                    if !digit_check(c) {
                        assert(!all_digits(d)) by {
                            assert(d[j - i - 1] == s@[j as int]);
                        }
                        return Err(APRSError::InvalidMessage(s.to_owned()));
                    }
                    let v = digit_value(c);
                    acc = acc * 10 + v as u32;
                    proof {
                        let k = j - i - 1;
                        assert(d.take(k + 1).drop_last() =~= d.take(k));
                        assert(d.take(k + 1).last() == s@[j as int]);
                    }
                    if acc > 65535 {
                        proof {
                            if all_digits(d) && digits_val(d) <= 65535 {
                                lemma_digits_val_prefix(d, j - i);
                            }
                        }
                        return Err(APRSError::InvalidMessage(s.to_owned()));
                    }
                    j += 1;
                }
                proof {
                    assert(d.take(n - i - 1) =~= d);
                }
                let c = Callsign { call: s.substring_char(0, i).to_owned(), ssid: Some(acc as u16) };
                proof {
                    assert(c@.call =~= spec_callsign(s@).call);
                }
                Ok(c)
            },
        }
    }
}

} // verus!
