//! The coordinate codec: fixed-width degree-minute-hemisphere text and
//! the compressed base-91 scheme, both decoded to exact scaled integers.
//!
//! An [`Angle`] counts units of 1/1,142,778,000 degree. That scale is
//! the common refinement of every grid the two encodings use:
//! a hundredth of a minute (1/6,000 degree) is 190,463 units, one
//! compressed latitude step (1/380,926 degree) is 3,000 units, and one
//! compressed longitude step (1/190,463 degree) is 6,000 units. Decoding
//! is therefore exact, where single-precision floating point would round.

use vstd::prelude::*;

use vstd::arithmetic::div_mod::lemma_fundamental_div_mod;
use vstd::arithmetic::div_mod::lemma_mod_bound;
use vstd::math::abs;

use crate::error::APRSError;
use crate::error::ErrorView;
use crate::text::digit_check;
use crate::text::digit_val;
use crate::text::digit_value;
use crate::text::is_ascii_digit;

verus! {

/// Angle units per degree.
pub const UNITS_PER_DEGREE: i64 = 1_142_778_000;

/// Angle units per hundredth of a minute of arc (1/6,000 degree).
pub const UNITS_PER_CENTIMINUTE: i64 = 190_463;

/// Angle units per compressed latitude step (1/380,926 degree).
pub const LAT_B91_UNIT: i64 = 3_000;

/// Angle units per compressed longitude step (1/190,463 degree).
pub const LON_B91_UNIT: i64 = 6_000;

/// A signed geographic angle in units of 1/1,142,778,000 degree.
#[derive(PartialEq, Eq, Structural, Debug, Clone, Copy)]
pub struct Angle {
    pub units: i64,
}

impl View for Angle {
    type V = int;

    open spec fn view(&self) -> int {
        self.units as int
    }
}

/// A latitude field is `DDMM.mmH`: four digits, a point, two digits and
/// an `N`/`S` hemisphere letter.
pub open spec fn lat_field_valid(s: Seq<char>) -> bool {
    &&& s.len() == 8
    &&& is_ascii_digit(s[0])
    &&& is_ascii_digit(s[1])
    &&& is_ascii_digit(s[2])
    &&& is_ascii_digit(s[3])
    &&& s[4] == '.'
    &&& is_ascii_digit(s[5])
    &&& is_ascii_digit(s[6])
    &&& (s[7] == 'N' || s[7] == 'S')
}

/// The whole degrees of a latitude field.
pub open spec fn lat_degrees(s: Seq<char>) -> int {
    digit_val(s[0]) * 10 + digit_val(s[1])
}

/// The minutes of a latitude field, in hundredths of a minute.
pub open spec fn lat_centiminutes(s: Seq<char>) -> int {
    digit_val(s[2]) * 1000 + digit_val(s[3]) * 100 + digit_val(s[5]) * 10 + digit_val(s[6])
}

/// The angle of `deg` degrees and `cmin` hundredths of a minute, negated
/// for the southern or western hemisphere.
pub open spec fn dm_units(deg: int, cmin: int, negative: bool) -> int {
    let mag = deg * (UNITS_PER_DEGREE as int) + cmin * (UNITS_PER_CENTIMINUTE as int);
    if negative {
        -mag
    } else {
        mag
    }
}

/// What a valid latitude field decodes to.
pub open spec fn lat_units(s: Seq<char>) -> int {
    dm_units(lat_degrees(s), lat_centiminutes(s), s[7] == 'S')
}

/// A longitude field is `DDDMM.mmH`: five digits, a point, two digits
/// and an `E`/`W` hemisphere letter.
pub open spec fn lon_field_valid(s: Seq<char>) -> bool {
    &&& s.len() == 9
    &&& is_ascii_digit(s[0])
    &&& is_ascii_digit(s[1])
    &&& is_ascii_digit(s[2])
    &&& is_ascii_digit(s[3])
    &&& is_ascii_digit(s[4])
    &&& s[5] == '.'
    &&& is_ascii_digit(s[6])
    &&& is_ascii_digit(s[7])
    &&& (s[8] == 'E' || s[8] == 'W')
}

/// The whole degrees of a longitude field.
pub open spec fn lon_degrees(s: Seq<char>) -> int {
    digit_val(s[0]) * 100 + digit_val(s[1]) * 10 + digit_val(s[2])
}

/// The minutes of a longitude field, in hundredths of a minute.
pub open spec fn lon_centiminutes(s: Seq<char>) -> int {
    digit_val(s[3]) * 1000 + digit_val(s[4]) * 100 + digit_val(s[6]) * 10 + digit_val(s[7])
}

/// What a valid longitude field decodes to.
pub open spec fn lon_units(s: Seq<char>) -> int {
    dm_units(lon_degrees(s), lon_centiminutes(s), s[8] == 'W')
}

/// `c` is a base-91 digit: `!` (value 0) through `{` (value 90).
pub open spec fn is_b91_digit(c: char) -> bool {
    33 <= c as int && c as int <= 123
}

/// The value of a base-91 digit.
pub open spec fn b91_val(c: char) -> int {
    c as int - 33
}

/// A compressed coordinate field is four base-91 digits.
pub open spec fn b91_quad_valid(s: Seq<char>) -> bool {
    &&& s.len() == 4
    &&& is_b91_digit(s[0])
    &&& is_b91_digit(s[1])
    &&& is_b91_digit(s[2])
    &&& is_b91_digit(s[3])
}

/// The value of four base-91 digits, most significant first
/// (weights 91^3, 91^2, 91, 1).
pub open spec fn b91_quad_val(s: Seq<char>) -> int {
    b91_val(s[0]) * 753_571 + b91_val(s[1]) * 8_281 + b91_val(s[2]) * 91 + b91_val(s[3])
}

/// The latitude a compressed encoding stands for: 90 degrees minus one
/// step of 1/380,926 degree per unit of the encoded value.
pub open spec fn compressed_lat_units(enc: int) -> int {
    90 * (UNITS_PER_DEGREE as int) - enc * (LAT_B91_UNIT as int)
}

/// The longitude a compressed encoding stands for: -180 degrees plus one
/// step of 1/190,463 degree per unit of the encoded value.
pub open spec fn compressed_lon_units(enc: int) -> int {
    -180 * (UNITS_PER_DEGREE as int) + enc * (LON_B91_UNIT as int)
}

/// Decodes a `DDMM.mmH` latitude field. Fails with `InvalidCoordinate`
/// on any non-digit in the numeric positions, a missing point, or a
/// hemisphere letter other than `N` or `S`.
pub fn parse_latitude(s: &str) -> (r: Result<Angle, APRSError>)
    ensures
        r is Ok <==> lat_field_valid(s@),
        r matches Ok(a) ==> a@ == lat_units(s@),
        r matches Err(e) ==> e@ == ErrorView::InvalidCoordinate(s@),
{
    let n = s.unicode_len();
    if n != 8 {
        return Err(APRSError::InvalidCoordinate(s.to_owned()));
    }
    let c0 = s.get_char(0);
    let c1 = s.get_char(1);
    let c2 = s.get_char(2);
    let c3 = s.get_char(3);
    let c5 = s.get_char(5);
    let c6 = s.get_char(6);
    let hemi = s.get_char(7);
    if !(digit_check(c0) && digit_check(c1) && digit_check(c2) && digit_check(c3)
        && s.get_char(4) == '.' && digit_check(c5) && digit_check(c6)
        && (hemi == 'N' || hemi == 'S')) {
        return Err(APRSError::InvalidCoordinate(s.to_owned()));
    }
    let deg = digit_value(c0) as i64 * 10 + digit_value(c1) as i64;
    let cmin = digit_value(c2) as i64 * 1000 + digit_value(c3) as i64 * 100
        + digit_value(c5) as i64 * 10 + digit_value(c6) as i64;
    let mag = deg * UNITS_PER_DEGREE + cmin * UNITS_PER_CENTIMINUTE;
    Ok(Angle { units: if hemi == 'S' { -mag } else { mag } })
}

/// Decodes a `DDDMM.mmH` longitude field. Fails with `InvalidCoordinate`
/// on any non-digit in the numeric positions, a missing point, or a
/// hemisphere letter other than `E` or `W`.
pub fn parse_longitude(s: &str) -> (r: Result<Angle, APRSError>)
    ensures
        r is Ok <==> lon_field_valid(s@),
        r matches Ok(a) ==> a@ == lon_units(s@),
        r matches Err(e) ==> e@ == ErrorView::InvalidCoordinate(s@),
{
    let n = s.unicode_len();
    if n != 9 {
        return Err(APRSError::InvalidCoordinate(s.to_owned()));
    }
    let c0 = s.get_char(0);
    let c1 = s.get_char(1);
    let c2 = s.get_char(2);
    let c3 = s.get_char(3);
    let c4 = s.get_char(4);
    let c6 = s.get_char(6);
    let c7 = s.get_char(7);
    let hemi = s.get_char(8);
    if !(digit_check(c0) && digit_check(c1) && digit_check(c2) && digit_check(c3)
        && digit_check(c4) && s.get_char(5) == '.' && digit_check(c6) && digit_check(c7)
        && (hemi == 'E' || hemi == 'W')) {
        return Err(APRSError::InvalidCoordinate(s.to_owned()));
    }
    let deg = digit_value(c0) as i64 * 100 + digit_value(c1) as i64 * 10 + digit_value(c2) as i64;
    let cmin = digit_value(c3) as i64 * 1000 + digit_value(c4) as i64 * 100
        + digit_value(c6) as i64 * 10 + digit_value(c7) as i64;
    let mag = deg * UNITS_PER_DEGREE + cmin * UNITS_PER_CENTIMINUTE;
    Ok(Angle { units: if hemi == 'W' { -mag } else { mag } })
}

/// Decodes four base-91 digits to their positional value. Fails with
/// `InvalidCoordinate` on any character outside `!`..=`{`.
pub fn parse_base91_quad(s: &str) -> (r: Result<i64, APRSError>)
    ensures
        r is Ok <==> b91_quad_valid(s@),
        r matches Ok(v) ==> v == b91_quad_val(s@) && 0 <= v <= 68_574_960,
        r matches Err(e) ==> e@ == ErrorView::InvalidCoordinate(s@),
{
    let n = s.unicode_len();
    if n != 4 {
        return Err(APRSError::InvalidCoordinate(s.to_owned()));
    }
    let u0 = s.get_char(0) as u32;
    let u1 = s.get_char(1) as u32;
    let u2 = s.get_char(2) as u32;
    let u3 = s.get_char(3) as u32;
    if !(33 <= u0 && u0 <= 123 && 33 <= u1 && u1 <= 123 && 33 <= u2 && u2 <= 123 && 33 <= u3
        && u3 <= 123) {
        return Err(APRSError::InvalidCoordinate(s.to_owned()));
    }
    let v = (u0 - 33) as i64 * 753_571 + (u1 - 33) as i64 * 8_281 + (u2 - 33) as i64 * 91 + (u3
        - 33) as i64;
    Ok(v)
}

/// Law: coordinate decoding is monotonic in the minutes field. Two
/// latitude fields with the same degree digits and hemisphere order by
/// their minutes: increasing minutes move the angle north of `N`
/// readings and south of `S` readings.
pub proof fn lemma_latitude_monotonic(s1: Seq<char>, s2: Seq<char>)
    requires
        lat_field_valid(s1),
        lat_field_valid(s2),
        s1[0] == s2[0],
        s1[1] == s2[1],
        s1[7] == s2[7],
        lat_centiminutes(s1) < lat_centiminutes(s2),
    ensures
        s1[7] == 'N' ==> lat_units(s1) < lat_units(s2),
        s1[7] == 'S' ==> lat_units(s1) > lat_units(s2),
{
}

/// Law: the same, for longitude fields: increasing minutes move the
/// angle east of `E` readings and west of `W` readings.
pub proof fn lemma_longitude_monotonic(s1: Seq<char>, s2: Seq<char>)
    requires
        lon_field_valid(s1),
        lon_field_valid(s2),
        s1[0] == s2[0],
        s1[1] == s2[1],
        s1[2] == s2[2],
        s1[8] == s2[8],
        lon_centiminutes(s1) < lon_centiminutes(s2),
    ensures
        s1[8] == 'E' ==> lon_units(s1) < lon_units(s2),
        s1[8] == 'W' ==> lon_units(s1) > lon_units(s2),
{
}

/// Law: the two latitude encodings agree wherever both exist. For any
/// latitude `v` (in angle units) there are a degree-minute reading and a
/// compressed encoding, each within one grid step of `v`, and the two
/// decode within 1e-3 degree (1,142,778 units) of one another.
///
/// Returns the witnesses: degrees, hundredths of minutes, the southern
/// flag, and the compressed encoded value.
pub proof fn lemma_lat_encodings_agree(v: int) -> (w: (int, int, bool, int))
    requires
        -90 * (UNITS_PER_DEGREE as int) <= v <= 90 * (UNITS_PER_DEGREE as int),
    ensures
        0 <= w.0 <= 90,
        0 <= w.1 < 6000,
        0 <= w.3 < 91 * 91 * 91 * 91,
        abs(dm_units(w.0, w.1, w.2) - v) < UNITS_PER_CENTIMINUTE as int,
        abs(compressed_lat_units(w.3) - v) < LAT_B91_UNIT as int,
        abs(dm_units(w.0, w.1, w.2) - compressed_lat_units(w.3)) <= 1_142_778,
{
    let scale = UNITS_PER_DEGREE as int;
    let av = if v >= 0 { v } else { -v };
    let deg = av / scale;
    let rem = av % scale;
    let cmin = rem / (UNITS_PER_CENTIMINUTE as int);
    let err = rem % (UNITS_PER_CENTIMINUTE as int);
    lemma_fundamental_div_mod(av, scale);
    lemma_mod_bound(av, scale);
    lemma_fundamental_div_mod(rem, UNITS_PER_CENTIMINUTE as int);
    lemma_mod_bound(rem, UNITS_PER_CENTIMINUTE as int);
    assert(deg * scale == av - rem);
    assert(cmin * (UNITS_PER_CENTIMINUTE as int) == rem - err);
    assert(0 <= deg <= 90 && 0 <= cmin < 6000) by (nonlinear_arith)
        requires
            0 <= av <= 90 * scale,
            scale == 1_142_778_000,
            av == scale * deg + rem,
            0 <= rem < scale,
            rem == 190_463 * cmin + err,
            0 <= err < 190_463,
    ;
    let south = v < 0;
    let x = 90 * scale - v;
    let enc = x / (LAT_B91_UNIT as int);
    let r = x % (LAT_B91_UNIT as int);
    lemma_fundamental_div_mod(x, LAT_B91_UNIT as int);
    lemma_mod_bound(x, LAT_B91_UNIT as int);
    assert(enc * 3000 == x - r);
    assert(0 <= enc < 91 * 91 * 91 * 91);
    assert(compressed_lat_units(enc) == v + r);
    assert(dm_units(deg, cmin, south) == if south {
        -(av - err)
    } else {
        av - err
    });
    (deg, cmin, south, enc)
}

/// Law: the two longitude encodings agree wherever both exist, in the
/// same sense as for latitude.
pub proof fn lemma_lon_encodings_agree(v: int) -> (w: (int, int, bool, int))
    requires
        -180 * (UNITS_PER_DEGREE as int) <= v <= 180 * (UNITS_PER_DEGREE as int),
    ensures
        0 <= w.0 <= 180,
        0 <= w.1 < 6000,
        0 <= w.3 < 91 * 91 * 91 * 91,
        abs(dm_units(w.0, w.1, w.2) - v) < UNITS_PER_CENTIMINUTE as int,
        abs(compressed_lon_units(w.3) - v) < LON_B91_UNIT as int,
        abs(dm_units(w.0, w.1, w.2) - compressed_lon_units(w.3)) <= 1_142_778,
{
    let scale = UNITS_PER_DEGREE as int;
    let av = if v >= 0 { v } else { -v };
    let deg = av / scale;
    let rem = av % scale;
    let cmin = rem / (UNITS_PER_CENTIMINUTE as int);
    let err = rem % (UNITS_PER_CENTIMINUTE as int);
    lemma_fundamental_div_mod(av, scale);
    lemma_mod_bound(av, scale);
    lemma_fundamental_div_mod(rem, UNITS_PER_CENTIMINUTE as int);
    lemma_mod_bound(rem, UNITS_PER_CENTIMINUTE as int);
    assert(deg * scale == av - rem);
    assert(cmin * (UNITS_PER_CENTIMINUTE as int) == rem - err);
    assert(0 <= deg <= 180 && 0 <= cmin < 6000) by (nonlinear_arith)
        requires
            0 <= av <= 180 * scale,
            scale == 1_142_778_000,
            av == scale * deg + rem,
            0 <= rem < scale,
            rem == 190_463 * cmin + err,
            0 <= err < 190_463,
    ;
    let west = v < 0;
    let x = v + 180 * scale;
    let enc = x / (LON_B91_UNIT as int);
    let r = x % (LON_B91_UNIT as int);
    lemma_fundamental_div_mod(x, LON_B91_UNIT as int);
    lemma_mod_bound(x, LON_B91_UNIT as int);
    assert(enc * 6000 == x - r);
    assert(0 <= enc < 91 * 91 * 91 * 91);
    assert(compressed_lon_units(enc) == v - r);
    assert(dm_units(deg, cmin, west) == if west {
        -(av - err)
    } else {
        av - err
    });
    (deg, cmin, west, enc)
}

} // verus!
