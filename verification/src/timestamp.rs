//! RFC 3339 timestamps, modeled as milliseconds since the Unix epoch.
//!
//! The wire format carries timestamps as RFC 3339 strings
//! (`2024-01-01T00:00:00Z`, optionally with a fractional part and a numeric
//! offset).  The conversion to an epoch instant is pure Gregorian-calendar
//! arithmetic, defined here as specification functions and implemented by a
//! verified parser.  Fractional seconds are kept to millisecond precision.

use vstd::prelude::*;

use crate::json::{is_digit, spec_skip_digits, lemma_skip_digits};

verus! {

/// Milliseconds in one day.
pub const MILLIS_PER_DAY: i64 = 86400000;

/// A Gregorian leap year.
pub open spec fn is_leap_year(y: int) -> bool {
    y % 4 == 0 && (y % 100 != 0 || y % 400 == 0)
}

/// The number of days in the given month of the given year.
pub open spec fn days_in_month(y: int, m: int) -> int {
    if m == 2 {
        if is_leap_year(y) {
            29
        } else {
            28
        }
    } else if m == 4 || m == 6 || m == 9 || m == 11 {
        30
    } else {
        31
    }
}

/// Days from the first of January to the first of month `m`, same year.
pub open spec fn days_before_month(y: int, m: int) -> int {
    let base: int = if m == 1 {
        0
    } else if m == 2 {
        31
    } else if m == 3 {
        59
    } else if m == 4 {
        90
    } else if m == 5 {
        120
    } else if m == 6 {
        151
    } else if m == 7 {
        181
    } else if m == 8 {
        212
    } else if m == 9 {
        243
    } else if m == 10 {
        273
    } else if m == 11 {
        304
    } else {
        334
    };
    if m > 2 && is_leap_year(y) {
        base + 1
    } else {
        base
    }
}

/// The number of leap years in `[0, y)`.
pub open spec fn leap_count(y: int) -> int {
    (y + 3) / 4 - (y + 99) / 100 + (y + 399) / 400
}

/// Days from the first of January of year 0 to the first of January of `y`.
pub open spec fn days_before_year(y: int) -> int {
    365 * y + leap_count(y)
}

/// Days from the Unix epoch to the given calendar date (negative before it).
pub open spec fn epoch_days(y: int, m: int, d: int) -> int {
    days_before_year(y) + days_before_month(y, m) + (d - 1) - 719528
}

/// The position is a decimal digit of `s`.
pub open spec fn digit_at(s: Seq<char>, i: int) -> bool {
    0 <= i < s.len() && is_digit(s[i])
}

/// The value of the digit at `i`.
pub open spec fn dval(s: Seq<char>, i: int) -> int {
    s[i] as int - 48
}

/// The value of the two digits starting at `i`.
pub open spec fn d2v(s: Seq<char>, i: int) -> int {
    dval(s, i) * 10 + dval(s, i + 1)
}

/// The value of the four digits starting at `i`.
pub open spec fn d4v(s: Seq<char>, i: int) -> int {
    dval(s, i) * 1000 + dval(s, i + 1) * 100 + dval(s, i + 2) * 10 + dval(s, i + 3)
}

/// The fixed `yyyy-mm-ddThh:mm:ss` layout, with `T` or `t` as the separator.
pub open spec fn date_time_shape(s: Seq<char>) -> bool {
    &&& s.len() >= 20
    &&& digit_at(s, 0)
    &&& digit_at(s, 1)
    &&& digit_at(s, 2)
    &&& digit_at(s, 3)
    &&& s[4] == '-'
    &&& digit_at(s, 5)
    &&& digit_at(s, 6)
    &&& s[7] == '-'
    &&& digit_at(s, 8)
    &&& digit_at(s, 9)
    &&& (s[10] == 'T' || s[10] == 't')
    &&& digit_at(s, 11)
    &&& digit_at(s, 12)
    &&& s[13] == ':'
    &&& digit_at(s, 14)
    &&& digit_at(s, 15)
    &&& s[16] == ':'
    &&& digit_at(s, 17)
    &&& digit_at(s, 18)
}

/// The calendar and clock fields are in range.
pub open spec fn fields_valid(s: Seq<char>) -> bool {
    let y = d4v(s, 0);
    let mo = d2v(s, 5);
    let d = d2v(s, 8);
    let h = d2v(s, 11);
    let mi = d2v(s, 14);
    let sec = d2v(s, 17);
    &&& 1 <= mo <= 12
    &&& 1 <= d <= days_in_month(y, mo)
    &&& h <= 23
    &&& mi <= 59
    &&& sec <= 59
}

/// The index just past the optional fractional part.
pub open spec fn frac_end(s: Seq<char>) -> int {
    if s.len() > 19 && s[19] == '.' {
        spec_skip_digits(s, 20)
    } else {
        19
    }
}

/// The fractional part, if present, has one to nine digits.
pub open spec fn frac_ok(s: Seq<char>) -> bool {
    if s.len() > 19 && s[19] == '.' {
        20 < frac_end(s) <= 29
    } else {
        true
    }
}

/// The fractional part truncated to whole milliseconds.
pub open spec fn frac_millis(s: Seq<char>) -> int {
    if s.len() > 19 && s[19] == '.' {
        let e = frac_end(s);
        (if e > 20 {
            dval(s, 20) * 100
        } else {
            0
        }) + (if e > 21 {
            dval(s, 21) * 10
        } else {
            0
        }) + (if e > 22 {
            dval(s, 22)
        } else {
            0
        })
    } else {
        0
    }
}

/// A well-formed offset at position `p`: `Z`, `z`, or `±hh:mm` ending the
/// string, with the hours below 24 and the minutes below 60.
pub open spec fn offset_ok(s: Seq<char>, p: int) -> bool {
    if p >= s.len() {
        false
    } else if s[p] == 'Z' || s[p] == 'z' {
        p + 1 == s.len()
    } else if s[p] == '+' || s[p] == '-' {
        &&& p + 6 == s.len()
        &&& digit_at(s, p + 1)
        &&& digit_at(s, p + 2)
        &&& s[p + 3] == ':'
        &&& digit_at(s, p + 4)
        &&& digit_at(s, p + 5)
        &&& d2v(s, p + 1) <= 23
        &&& d2v(s, p + 4) <= 59
    } else {
        false
    }
}

/// The offset at position `p` in seconds east of UTC.
pub open spec fn offset_secs(s: Seq<char>, p: int) -> int {
    if p < s.len() && (s[p] == 'Z' || s[p] == 'z') {
        0
    } else if p < s.len() && s[p] == '+' {
        d2v(s, p + 1) * 3600 + d2v(s, p + 4) * 60
    } else {
        -(d2v(s, p + 1) * 3600 + d2v(s, p + 4) * 60)
    }
}

/// Whether `s` is a well-formed RFC 3339 timestamp as accepted here.
pub open spec fn rfc3339_valid(s: Seq<char>) -> bool {
    &&& date_time_shape(s)
    &&& fields_valid(s)
    &&& frac_ok(s)
    &&& offset_ok(s, frac_end(s))
}

/// The instant named by a well-formed timestamp, in milliseconds since the
/// Unix epoch.
pub open spec fn rfc3339_millis_value(s: Seq<char>) -> int {
    let days = epoch_days(d4v(s, 0), d2v(s, 5), d2v(s, 8));
    let secs = days * 86400 + d2v(s, 11) * 3600 + d2v(s, 14) * 60 + d2v(s, 17) - offset_secs(
        s,
        frac_end(s),
    );
    secs * 1000 + frac_millis(s)
}

/// The result of parsing `s` as an RFC 3339 timestamp.
pub open spec fn spec_parse_rfc3339(s: Seq<char>) -> Option<i64> {
    if rfc3339_valid(s) {
        Some(rfc3339_millis_value(s) as i64)
    } else {
        None
    }
}

/// Whether the character is a decimal digit.
fn dig(c: char) -> (r: bool)
    ensures
        r == is_digit(c),
{
    '0' <= c && c <= '9'
}

/// Check the fixed `yyyy-mm-ddThh:mm:ss` layout.
fn check_shape(v: &Vec<char>) -> (r: bool)
    requires
        v@.len() >= 20,
    ensures
        r == date_time_shape(v@),
{
    dig(v[0]) && dig(v[1]) && dig(v[2]) && dig(v[3]) && v[4] == '-' && dig(v[5]) && dig(v[6])
        && v[7] == '-' && dig(v[8]) && dig(v[9]) && (v[10] == 'T' || v[10] == 't') && dig(v[11])
        && dig(v[12]) && v[13] == ':' && dig(v[14]) && dig(v[15]) && v[16] == ':' && dig(v[17])
        && dig(v[18])
}

/// Parse the offset that starts at `p` and must end the string.
fn parse_offset(v: &Vec<char>, p: usize) -> (r: Option<i64>)
    requires
        p < v@.len(),
    ensures
        r is Some <==> offset_ok(v@, p as int),
        r matches Some(o) ==> o == offset_secs(v@, p as int) && -86340 <= o <= 86340,
{
    let n = v.len();
    let oc = v[p];
    if oc == 'Z' || oc == 'z' {
        if p + 1 == n {
            Some(0)
        } else {
            None
        }
    } else if oc == '+' || oc == '-' {
        if n - p != 6 {
            return None;
        }
        if !(dig(v[p + 1]) && dig(v[p + 2]) && v[p + 3] == ':' && dig(v[p + 4]) && dig(
            v[p + 5],
        )) {
            return None;
        }
        let oh = read_d2(v, p + 1);
        let om = read_d2(v, p + 4);
        if !(oh <= 23 && om <= 59) {
            return None;
        }
        let magnitude = (oh as i64) * 3600 + (om as i64) * 60;
        if oc == '+' {
            Some(magnitude)
        } else {
            Some(-magnitude)
        }
    } else {
        None
    }
}

/// Read the two digits at `i` as a number.
fn read_d2(v: &Vec<char>, i: usize) -> (r: u32)
    requires
        i + 2 <= v@.len(),
        digit_at(v@, i as int),
        digit_at(v@, i as int + 1),
    ensures
        r == d2v(v@, i as int),
        r <= 99,
{
    let n: usize = v.len();
    proof {
        assert(i + 2 <= n);
    }
    let a = (v[i] as u32) - 48;
    let b = (v[i + 1] as u32) - 48;
    a * 10 + b
}

/// Parse an RFC 3339 timestamp into milliseconds since the Unix epoch.
#[verifier::rlimit(100)]
pub fn parse_rfc3339_millis(v: &Vec<char>) -> (r: Option<i64>)
    ensures
        r == spec_parse_rfc3339(v@),
{
    let n = v.len();
    if n < 20 {
        return None;
    }
    // fixed layout
    if !check_shape(v) {
        return None;
    }
    // field values
    let y: u32 = {
        let a = (v[0] as u32) - 48;
        let b = (v[1] as u32) - 48;
        let c = (v[2] as u32) - 48;
        let d = (v[3] as u32) - 48;
        a * 1000 + b * 100 + c * 10 + d
    };
    let mo = read_d2(v, 5);
    let d = read_d2(v, 8);
    let h = read_d2(v, 11);
    let mi = read_d2(v, 14);
    let sec = read_d2(v, 17);
    proof {
        assert(y == d4v(v@, 0));
    }
    // range checks
    if !(1 <= mo && mo <= 12) {
        return None;
    }
    let month_days: u32 = if mo == 2 {
        if y % 4 == 0 && (y % 100 != 0 || y % 400 == 0) {
            29
        } else {
            28
        }
    } else if mo == 4 || mo == 6 || mo == 9 || mo == 11 {
        30
    } else {
        31
    };
    proof {
        assert(month_days == days_in_month(y as int, mo as int));
    }
    if !(1 <= d && d <= month_days) {
        return None;
    }
    if !(h <= 23 && mi <= 59 && sec <= 59) {
        return None;
    }
    proof {
        assert(fields_valid(v@));
    }
    // fractional part
    let fe: usize = if v[19] == '.' {
        let e = crate::json::skip_digits(v, 20);
        if e == 20 || e > 29 {
            proof {
                assert(!frac_ok(v@));
            }
            return None;
        }
        e
    } else {
        19
    };
    proof {
        assert(fe as int == frac_end(v@));
        assert(frac_ok(v@));
    }
    proof {
        lemma_skip_digits_all(v@, 20);
    }
    let mut fm: u32 = 0;
    if v[19] == '.' {
        proof {
            assert(digit_at(v@, 20));
        }
        fm = ((v[20] as u32) - 48) * 100;
        if fe > 21 {
            proof {
                assert(digit_at(v@, 21));
            }
            fm = fm + ((v[21] as u32) - 48) * 10;
        }
        if fe > 22 {
            proof {
                assert(digit_at(v@, 22));
            }
            fm = fm + ((v[22] as u32) - 48);
        }
    }
    proof {
        assert(fm == frac_millis(v@));
        assert(fm <= 999);
    }
    // offset
    if fe >= n {
        return None;
    }
    let off_secs: i64 = match parse_offset(v, fe) {
        None => {
            return None;
        },
        Some(o) => o,
    };
    proof {
        assert(rfc3339_valid(v@));
    }
    // calendar arithmetic, all in range
    let yi = y as i64;
    let leaps: i64 = (yi + 3) / 4 - (yi + 99) / 100 + (yi + 399) / 400;
    proof {
        assert(leaps == leap_count(y as int));
    }
    let before_month: i64 = {
        let base: i64 = if mo == 1 {
            0
        } else if mo == 2 {
            31
        } else if mo == 3 {
            59
        } else if mo == 4 {
            90
        } else if mo == 5 {
            120
        } else if mo == 6 {
            151
        } else if mo == 7 {
            181
        } else if mo == 8 {
            212
        } else if mo == 9 {
            243
        } else if mo == 10 {
            273
        } else if mo == 11 {
            304
        } else {
            334
        };
        if mo > 2 && (y % 4 == 0 && (y % 100 != 0 || y % 400 == 0)) {
            base + 1
        } else {
            base
        }
    };
    proof {
        assert(before_month == days_before_month(y as int, mo as int));
    }
    let days: i64 = 365 * yi + leaps + before_month + (d as i64) - 1 - 719528;
    let secs: i64 = days * 86400 + (h as i64) * 3600 + (mi as i64) * 60 + (sec as i64)
        - off_secs;
    let millis: i64 = secs * 1000 + (fm as i64);
    proof {
        assert(days == epoch_days(y as int, mo as int, d as int));
        assert(millis == rfc3339_millis_value(v@));
    }
    Some(millis)
}

/// Every position below the first non-digit is a digit.
pub proof fn lemma_skip_digits_all(s: Seq<char>, i: int)
    requires
        0 <= i,
    ensures
        forall|k: int| i <= k < spec_skip_digits(s, i) ==> digit_at(s, k),
    decreases s.len() - i,
{
    lemma_skip_digits(s, i);
    if i < s.len() && is_digit(s[i]) {
        lemma_skip_digits_all(s, i + 1);
    }
}

} // verus!
