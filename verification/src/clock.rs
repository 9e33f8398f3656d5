//! Calendar dates of Unix time, and the timestamps that the agent writes.
//!
//! A count of days since 1970-01-01 is turned into its proleptic Gregorian
//! date; the date is proved to be the one whose own day count is that
//! count.

use vstd::prelude::*;
use crate::text::{concat_str, decimal, decimal_exec, string_of, zero_padded, zero_padded_exec};

verus! {

/// `y` is a leap year of the Gregorian calendar.
pub open spec fn is_leap(y: int) -> bool {
    y % 4 == 0 && (y % 100 != 0 || y % 400 == 0)
}

/// The number of days of month `m` of year `y`.
pub open spec fn month_length(y: int, m: int) -> int {
    if m == 2 {
        if is_leap(y) {
            29
        } else {
            28
        }
    } else if m == 4 || m == 6 || m == 9 || m == 11 {
        30
    } else {
        31
    }
}

/// The number of days of year `y` before the first of month `m`.
pub open spec fn days_before_month(y: int, m: int) -> int {
    let base = if m == 1 {
        0int
    } else if m == 2 {
        31
    } else if m == 3 {
        59
    } else if m == 4 {
        90
    } else if m == 5 {
        120
    } else if m == 6 {
        151
    } else if m == 7 {
        181
    } else if m == 8 {
        212
    } else if m == 9 {
        243
    } else if m == 10 {
        273
    } else if m == 11 {
        304
    } else {
        334
    };
    base + if m > 2 && is_leap(y) {
        1int
    } else {
        0int
    }
}

/// The number of leap years from year 1 up to `y - 1` (negative for years
/// before 1).
pub open spec fn leap_years_before(y: int) -> int {
    (y - 1) / 4 - (y - 1) / 100 + (y - 1) / 400
}

/// The number of days from 1970-01-01 to the date `y-m-d`.
pub open spec fn days_from_civil(y: int, m: int, d: int) -> int {
    365 * (y - 1970) + leap_years_before(y) - leap_years_before(1970) + days_before_month(y, m)
        + d - 1
}

/// `y-m-d` is a date of the calendar.
pub open spec fn valid_date(y: int, m: int, d: int) -> bool {
    1 <= m <= 12 && 1 <= d <= month_length(y, m)
}

/// The date `days` days after 1970-01-01, computed by eras of 400 years
/// counted from 0000-03-01.
pub open spec fn civil_date(days: int) -> (int, int, int) {
    let z = days + 719468;
    let era = z / 146097;
    let doe = z - era * 146097;
    let yoe = (doe - doe / 1460 + doe / 36524 - doe / 146096) / 365;
    let y = yoe + era * 400;
    let doy = doe - (365 * yoe + yoe / 4 - yoe / 100);
    let mp = (5 * doy + 2) / 153;
    let d = doy - (153 * mp + 2) / 5 + 1;
    let m = if mp < 10 {
        mp + 3
    } else {
        mp - 9
    };
    (if m <= 2 {
        y + 1
    } else {
        y
    }, m, d)
}

proof fn lemma_year_of_era(doe: int)
    requires 0 <= doe <= 146096,
    ensures ({
        let yoe = (doe - doe / 1460 + doe / 36524 - doe / 146096) / 365;
        let start = 365 * yoe + yoe / 4 - yoe / 100;
        &&& 0 <= yoe < 400
        &&& start <= doe
        &&& doe - start < 365 + if (yoe + 1) % 4 == 0 && ((yoe + 1) % 100 != 0 || (yoe + 1) % 400 == 0) { 1int } else { 0int }
    }),
{
}

proof fn lemma_day_of_year(doy: int, leap: bool)
    requires 0 <= doy < 365 + if leap { 1int } else { 0int },
    ensures ({
        let mp = (5 * doy + 2) / 153;
        let d = doy - (153 * mp + 2) / 5 + 1;
        let m = if mp < 10 { mp + 3 } else { mp - 9 };
        &&& 0 <= mp <= 11
        &&& 1 <= d
        &&& d <= if m == 2 { if leap { 29int } else { 28 } } else if m == 4 || m == 6 || m == 9 || m == 11 { 30 } else { 31 }
    }),
{
}

proof fn lemma_floor_step(y: int, k: int)
    requires k == 4 || k == 100 || k == 400,
    ensures y / k == (y - 1) / k + if y % k == 0 { 1int } else { 0int },
{
    if k == 4 {
        assert(y / 4 == (y - 1) / 4 + if y % 4 == 0 { 1int } else { 0int });
    } else if k == 100 {
        assert(y / 100 == (y - 1) / 100 + if y % 100 == 0 { 1int } else { 0int });
    } else {
        assert(y / 400 == (y - 1) / 400 + if y % 400 == 0 { 1int } else { 0int });
    }
}

proof fn lemma_era_split(e: int, r: int)
    requires 0 <= r <= 400,
    ensures
        (400 * e + r) / 4 == 100 * e + r / 4,
        (400 * e + r) / 100 == 4 * e + r / 100,
        (400 * e + r) / 400 == e + r / 400,
        (400 * e + r) % 4 == r % 4,
        (400 * e + r) % 100 == r % 100,
        (400 * e + r) % 400 == r % 400,
{
}

pub open spec fn march_days(y: int) -> int { 365 * y + y / 4 - y / 100 + y / 400 }

proof fn lemma_gregorian_start(y: int)
    ensures
        leap_years_before(y) + (if is_leap(y) { 1int } else { 0int }) == y / 4 - y / 100 + y / 400,
{
    lemma_floor_step(y, 4);
    lemma_floor_step(y, 100);
    lemma_floor_step(y, 400);
    if y % 400 == 0 {
        assert(y % 100 == 0) by {
            vstd::arithmetic::div_mod::lemma_fundamental_div_mod(y, 400);
            vstd::arithmetic::div_mod::lemma_fundamental_div_mod(y, 100);
        }
        assert(y % 4 == 0) by {
            vstd::arithmetic::div_mod::lemma_fundamental_div_mod(y, 400);
            vstd::arithmetic::div_mod::lemma_fundamental_div_mod(y, 4);
        }
    } else if y % 100 == 0 {
        assert(y % 4 == 0) by {
            vstd::arithmetic::div_mod::lemma_fundamental_div_mod(y, 100);
            vstd::arithmetic::div_mod::lemma_fundamental_div_mod(y, 4);
        }
    }
}

/// The computed date is a date of the calendar, and it lies exactly `days`
/// days after 1970-01-01.
pub proof fn law_civil_date_round_trip(days: int)
    ensures
        valid_date(civil_date(days).0, civil_date(days).1, civil_date(days).2),
        days_from_civil(civil_date(days).0, civil_date(days).1, civil_date(days).2) == days,
{
    let z = days + 719468;
    let era = z / 146097;
    let doe = z - era * 146097;
    vstd::arithmetic::div_mod::lemma_fundamental_div_mod(z, 146097);
    assert(0 <= doe < 146097);
    lemma_year_of_era(doe);
    let yoe = (doe - doe / 1460 + doe / 36524 - doe / 146096) / 365;
    let y = yoe + era * 400;
    lemma_era_split(era, yoe);
    lemma_era_split(era, yoe + 1);
    let doy = doe - (365 * yoe + yoe / 4 - yoe / 100);
    assert(is_leap(y + 1) == ((yoe + 1) % 4 == 0 && ((yoe + 1) % 100 != 0 || (yoe + 1) % 400
        == 0)));
    lemma_day_of_year(doy, is_leap(y + 1));
    let mp = (5 * doy + 2) / 153;
    let d = doy - (153 * mp + 2) / 5 + 1;
    let m = if mp < 10 {
        mp + 3
    } else {
        mp - 9
    };
    let year = if m <= 2 {
        y + 1
    } else {
        y
    };
    assert(z == march_days(y) + doy);
    assert(valid_date(year, m, d));
    lemma_gregorian_start(y);
    lemma_gregorian_start(y + 1);
    assert(leap_years_before(1970) == 477);
    if mp < 10 {
        assert(days_before_month(y, m) == 59 + (if is_leap(y) {
            1int
        } else {
            0int
        }) + (153 * mp + 2) / 5);
    } else {
        assert(days_before_month(y + 1, m) + 306 == (153 * mp + 2) / 5);
    }
    assert(days_from_civil(year, m, d) == days);
}

/// The day counts that dates are computed for: every `i64` whose shift to
/// the 0000-03-01 epoch (`days + 719468`) still fits in an `i64`.
pub open spec fn day_range(days: int) -> bool {
    i64::MIN <= days && days + 719468 <= i64::MAX
}

/// The date `days` days after 1970-01-01: year, month (1-12) and day of
/// the month.
pub fn civil_from_days(days: i64) -> (res: (i64, u32, u32))
    requires
        day_range(days as int),
    ensures
        (res.0 as int, res.1 as int, res.2 as int) == civil_date(days as int),
        valid_date(res.0 as int, res.1 as int, res.2 as int),
        days_from_civil(res.0 as int, res.1 as int, res.2 as int) == days,
{
    proof {
        law_civil_date_round_trip(days as int);
        vstd::arithmetic::div_mod::lemma_fundamental_div_mod(days + 719468, 146097);
    }
    let z: i64 = days + 719_468;
    let era: i64 = if z >= 0 {
        (z as u64 / 146_097) as i64
    } else {
        let e = ((146_096 - z) as u64 / 146_097) as i64;
        assert(-e == z / 146097) by {
            vstd::arithmetic::div_mod::lemma_fundamental_div_mod(z as int, 146097);
            vstd::arithmetic::div_mod::lemma_fundamental_div_mod(146096 - z, 146097);
        }
        -e
    };
    assert(era == z / 146097);
    let doe: u64 = (z - era * 146_097) as u64;
    proof {
        lemma_year_of_era(doe as int);
    }
    let yoe: u64 = (doe - doe / 1_460 + doe / 36_524 - doe / 146_096) / 365;
    let y: i64 = yoe as i64 + era * 400;
    let doy: u64 = doe - (365 * yoe + yoe / 4 - yoe / 100);
    let mp: u64 = (5 * doy + 2) / 153;
    let day: u32 = (doy - (153 * mp + 2) / 5 + 1) as u32;
    let month: u32 = if mp < 10 {
        (mp + 3) as u32
    } else {
        (mp - 9) as u32
    };
    let year: i64 = if month <= 2 {
        y + 1
    } else {
        y
    };
    (year, month, day)
}

/// `{n:0width$}` for an `i64`: a negative number keeps its sign in front
/// of the padding.
pub open spec fn signed_padded(n: int, width: nat) -> Seq<char> {
    if n < 0 {
        seq!['-'] + zero_padded((-n) as nat, (width - 1) as nat)
    } else {
        zero_padded(n as nat, width)
    }
}

/// The UTC timestamp `YYYY-MM-DDTHH:MM:SSZ` of `secs` seconds after the
/// Unix epoch.
pub open spec fn timestamp_text(secs: nat) -> Seq<char> {
    let days = secs / 86400;
    let sod = secs % 86400;
    let (y, m, d) = civil_date(days as int);
    signed_padded(y, 4) + seq!['-'] + zero_padded(m as nat, 2) + seq!['-'] + zero_padded(
        d as nat,
        2,
    ) + seq!['T'] + zero_padded(sod / 3600, 2) + seq![':'] + zero_padded((sod % 3600) / 60, 2)
        + seq![':'] + zero_padded(sod % 60, 2) + seq!['Z']
}

fn push_all(s: String, cs: Vec<char>) -> (res: String)
    ensures
        res@ == s@ + cs@,
{
    concat_str(s, string_of(cs.as_slice()).as_str())
}

/// The UTC timestamp `YYYY-MM-DDTHH:MM:SSZ` of `secs` seconds after the
/// Unix epoch.
pub fn iso8601_from_unix_secs(secs: u64) -> (res: String)
    ensures
        res@ == timestamp_text(secs as nat),
{
    let days = (secs / 86_400) as i64;
    let sod = secs % 86_400;
    let (y, m, d) = civil_from_days(days);
    let mut t = String::new();
    if y < 0 {
        crate::text::push_char(&mut t, '-');
        let magnitude = (0i128 - y as i128) as u64;
        t = push_all(t, zero_padded_exec(magnitude, 3));
    } else {
        t = push_all(t, zero_padded_exec(y as u64, 4));
    }
    crate::text::push_char(&mut t, '-');
    t = push_all(t, zero_padded_exec(m as u64, 2));
    crate::text::push_char(&mut t, '-');
    t = push_all(t, zero_padded_exec(d as u64, 2));
    crate::text::push_char(&mut t, 'T');
    t = push_all(t, zero_padded_exec(sod / 3_600, 2));
    crate::text::push_char(&mut t, ':');
    t = push_all(t, zero_padded_exec((sod % 3_600) / 60, 2));
    crate::text::push_char(&mut t, ':');
    t = push_all(t, zero_padded_exec(sod % 60, 2));
    crate::text::push_char(&mut t, 'Z');
    assert(t@ =~= timestamp_text(secs as nat));
    t
}

/// The decimal Unix time in seconds.
pub fn unix_timestamp(secs: u64) -> (res: String)
    ensures
        res@ == decimal(secs as nat),
{
    string_of(decimal_exec(secs).as_slice())
}

} // verus!
