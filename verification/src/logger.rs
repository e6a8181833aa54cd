use vstd::prelude::*;
use crate::num::{decimal, lemma_decimal_len, lemma_pad_len, pad_zero, padded_exec, pow10};
use crate::text::{extend_chars, extend_str, from_chars, to_chars};

verus! {

/// The number of days in each month of a common year (`i` from 0 for January).
pub open spec fn month_days(i: nat) -> nat {
    if i == 1 {
        28
    } else if i == 3 || i == 5 || i == 8 || i == 10 {
        30
    } else {
        31
    }
}

/// The month and day (both from 1) of the day `left` days into the month `i` (from 0), walking
/// forward through a common year; December 31 past its end.
pub open spec fn month_and_day(left: nat, i: nat) -> (nat, nat)
    decreases 12 - i,
{
    if i >= 12 {
        (12, 31)
    } else if left < month_days(i) {
        (i + 1, left + 1)
    } else {
        month_and_day((left - month_days(i)) as nat, i + 1)
    }
}

fn month_days_exec(i: u64) -> (res: u64)
    ensures
        res == month_days(i as nat),
{
    if i == 1 {
        28
    } else if i == 3 || i == 5 || i == 8 || i == 10 {
        30
    } else {
        31
    }
}

/// The month lies in 1..=12 and the day in 1..=31, whatever the day of the year.
pub proof fn lemma_month_and_day_range(left: nat, i: nat)
    requires
        i <= 12,
    ensures
        1 <= month_and_day(left, i).0 <= 12,
        1 <= month_and_day(left, i).1 <= 31,
    decreases 12 - i,
{
    if i < 12 && left >= month_days(i) {
        lemma_month_and_day_range((left - month_days(i)) as nat, i + 1);
    }
}

/// The length of the month `m` (from 1 for January) in a common year, as the calendar has it.
pub open spec fn calendar_month_len(m: nat) -> nat {
    if m == 2 {
        28
    } else if m == 4 || m == 6 || m == 9 || m == 11 {
        30
    } else {
        31
    }
}

/// The number of days of a common year before the first of the month `m` (from 1).
pub open spec fn days_before_month(m: nat) -> nat {
    if m <= 1 {
        0
    } else if m == 2 {
        31
    } else if m == 3 {
        59
    } else if m == 4 {
        90
    } else if m == 5 {
        120
    } else if m == 6 {
        151
    } else if m == 7 {
        181
    } else if m == 8 {
        212
    } else if m == 9 {
        243
    } else if m == 10 {
        273
    } else if m == 11 {
        304
    } else {
        334
    }
}

/// Every day of a common year gets a real calendar date: the day lies within the length of its
/// month, and counting the days of the months before it gives the day of the year back. So
/// day 0 is January 1, day 58 is February 28, day 59 is March 1, day 273 is October 1 and day
/// 364 is December 31.
pub proof fn lemma_calendar_dates(doy: nat)
    requires
        doy < 365,
    ensures
        1 <= month_and_day(doy, 0).0 <= 12,
        1 <= month_and_day(doy, 0).1 <= calendar_month_len(month_and_day(doy, 0).0),
        doy == days_before_month(month_and_day(doy, 0).0) + month_and_day(doy, 0).1 - 1,
{
    reveal_with_fuel(month_and_day, 13);
}

/// The month and day of the `doy`-th day (from 0) of a common year; December 31 past its end.
pub fn ymd_from_doy(doy: u64) -> (res: (u64, u64))
    ensures
        (res.0 as nat, res.1 as nat) == month_and_day(doy as nat, 0),
        1 <= res.0 <= 12,
        1 <= res.1 <= 31,
{
    let mut left = doy;
    let mut i: u64 = 0;
    while i < 12
        invariant
            i <= 12,
            month_and_day(left as nat, i as nat) == month_and_day(doy as nat, 0),
        decreases 12 - i,
    {
        let d = month_days_exec(i);
        if left < d {
            proof {
                lemma_month_and_day_range(doy as nat, 0);
            }
            return (i + 1, left + 1);
        }
        left = left - d;
        i = i + 1;
    }
    proof {
        lemma_month_and_day_range(doy as nat, 0);
    }
    (12, 31)
}

/// The calendar year that the timestamp is taken to fall in: 365-day years from 1970.
pub open spec fn year_of(secs: nat) -> nat {
    1970 + (secs / 86400) / 365
}

/// The leap-day correction for the year `y`.
pub open spec fn leap_days(y: nat) -> int {
    (y - 1969) / 4 - (y - 1901) / 100 + (y - 1601) / 400
}

/// The day of the year (from 0) that the timestamp is taken to fall on.
pub open spec fn day_of_year(secs: nat) -> nat {
    let rem = (secs / 86400) % 365;
    let leap = leap_days(year_of(secs));
    if rem >= leap {
        (rem - leap) as nat
    } else {
        0
    }
}

/// `YYYY-MM-DD HH:MM:SS` for a time `secs` seconds after the Unix epoch.
pub open spec fn timestamp_text(secs: nat) -> Seq<char> {
    let time = secs % 86400;
    let md = month_and_day(day_of_year(secs), 0);
    pad_zero(decimal(year_of(secs)), 4) + "-"@ + pad_zero(decimal(md.0), 2) + "-"@ + pad_zero(
        decimal(md.1),
        2,
    ) + " "@ + pad_zero(decimal(time / 3600), 2) + ":"@ + pad_zero(decimal((time % 3600) / 60), 2)
        + ":"@ + pad_zero(decimal(time % 60), 2)
}

proof fn lemma_leap_nonneg(y: u64)
    requires
        1970 <= y,
    ensures
        (y - 1969) / 4 >= (y - 1901) / 100,
{
    let x = y - 1901;
    if x < 100 {
        assert((y - 1901) / 100 == 0);
    } else {
        assert((x - 68) / 4 >= x / 100) by (nonlinear_arith)
            requires
                x >= 100,
        ;
    }
}

/// The time `secs` seconds after the Unix epoch as `YYYY-MM-DD HH:MM:SS`, counting 365-day
/// years from 1970 and correcting the day of the year by the leap days.
pub fn timestamp(secs: u64) -> (res: String)
    ensures
        res@ == timestamp_text(secs as nat),
{
    let days = secs / 86400;
    let time = secs % 86400;
    let hours = time / 3600;
    let mins = (time % 3600) / 60;
    let sec = time % 60;
    let y = 1970 + days / 365;
    let rem = days % 365;
    proof {
        lemma_leap_nonneg(y);
    }
    let leap = (y - 1969) / 4 - (y - 1901) / 100 + (y - 1601) / 400;
    let doy = if rem >= leap {
        rem - leap
    } else {
        0
    };
    assert(doy as nat == day_of_year(secs as nat));
    let (mon, day) = ymd_from_doy(doy);
    let mut v = padded_exec(y, 4);
    extend_str(&mut v, "-");
    extend_chars(&mut v, &padded_exec(mon, 2));
    extend_str(&mut v, "-");
    extend_chars(&mut v, &padded_exec(day, 2));
    extend_str(&mut v, " ");
    extend_chars(&mut v, &padded_exec(hours, 2));
    extend_str(&mut v, ":");
    extend_chars(&mut v, &padded_exec(mins, 2));
    extend_str(&mut v, ":");
    extend_chars(&mut v, &padded_exec(sec, 2));
    from_chars(&v)
}

/// A log timestamp always has the shape `YYYY-MM-DD HH:MM:SS`, 19 characters, while the year
/// has at most four digits.
pub proof fn lemma_timestamp_len(secs: nat)
    requires
        year_of(secs) < 10000,
    ensures
        timestamp_text(secs).len() == 19,
{
    let time = secs % 86400;
    let md = month_and_day(day_of_year(secs), 0);
    lemma_month_and_day_range(day_of_year(secs), 0);
    assert(pow10(4) == 10000) by {
        assert(pow10(0) == 1);
        assert(pow10(1) == 10);
        assert(pow10(2) == 100);
        assert(pow10(3) == 1000);
    }
    assert(pow10(2) == 100) by {
        assert(pow10(0) == 1);
        assert(pow10(1) == 10);
    }
    lemma_decimal_len(year_of(secs), 4);
    lemma_decimal_len(md.0, 2);
    lemma_decimal_len(md.1, 2);
    lemma_decimal_len(time / 3600, 2);
    lemma_decimal_len((time % 3600) / 60, 2);
    lemma_decimal_len(time % 60, 2);
    lemma_pad_len(year_of(secs), 4);
    lemma_pad_len(md.0, 2);
    lemma_pad_len(md.1, 2);
    lemma_pad_len(time / 3600, 2);
    lemma_pad_len((time % 3600) / 60, 2);
    lemma_pad_len(time % 60, 2);
    reveal_strlit("-");
    reveal_strlit(" ");
    reveal_strlit(":");
}

/// The line that the log gets for a message of the given level at the given time.
pub open spec fn log_entry(secs: nat, level: Seq<char>, msg: Seq<char>) -> Seq<char> {
    "["@ + timestamp_text(secs) + "] ["@ + level + "] "@ + msg
}

fn entry(secs: u64, level: &str, msg: &str) -> (res: String)
    ensures
        res@ == log_entry(secs as nat, level@, msg@),
{
    let mut v = to_chars("[");
    extend_str(&mut v, timestamp(secs).as_str());
    extend_str(&mut v, "] [");
    extend_str(&mut v, level);
    extend_str(&mut v, "] ");
    extend_str(&mut v, msg);
    from_chars(&v)
}

/// The log line for an error message at `secs` seconds after the Unix epoch.
pub fn error(secs: u64, msg: &str) -> (res: String)
    ensures
        res@ == log_entry(secs as nat, "ERROR"@, msg@),
{
    entry(secs, "ERROR", msg)
}

/// The log line for a warning at `secs` seconds after the Unix epoch.
pub fn warn(secs: u64, msg: &str) -> (res: String)
    ensures
        res@ == log_entry(secs as nat, "WARN"@, msg@),
{
    entry(secs, "WARN", msg)
}

/// The log line for an informational message at `secs` seconds after the Unix epoch.
pub fn info(secs: u64, msg: &str) -> (res: String)
    ensures
        res@ == log_entry(secs as nat, "INFO"@, msg@),
{
    entry(secs, "INFO", msg)
}

} // verus!
