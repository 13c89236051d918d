use chrono::{Datelike, TimeZone, Timelike};
use vstd::prelude::*;

verus! {

/// A local wall-clock reading, held as plain calendar values.
#[derive(Clone, Copy, Debug, PartialEq, Eq, Structural)]
pub struct Stamp {
    pub year: i32,
    pub month: u32,
    pub day: u32,
    pub hour: u32,
    pub minute: u32,
    pub second: u32,
}

pub open spec fn is_leap_year(y: int) -> bool {
    (y % 4 == 0 && y % 100 != 0) || y % 400 == 0
}

pub open spec fn days_in_month(y: int, m: int) -> int {
    if m == 2 {
        if is_leap_year(y) { 29 } else { 28 }
    } else if m == 4 || m == 6 || m == 9 || m == 11 {
        30
    } else {
        31
    }
}

pub open spec fn valid_date(y: int, m: int, d: int) -> bool {
    &&& -262143 <= y <= 262142
    &&& 1 <= m <= 12
    &&& 1 <= d <= days_in_month(y, m)
}

pub open spec fn valid_time(h: int, mi: int, s: int) -> bool {
    h < 24 && mi < 60 && s < 60
}

impl Stamp {
    /// A real calendar date and time of day.
    pub open spec fn wf(&self) -> bool {
        valid_date(self.year as int, self.month as int, self.day as int)
            && valid_time(self.hour as int, self.minute as int, self.second as int)
    }

    pub open spec fn same_day(&self, other: Stamp) -> bool {
        self.year == other.year && self.month == other.month && self.day == other.day
    }
}

pub open spec fn digit(d: int) -> char {
    seq!['0', '1', '2', '3', '4', '5', '6', '7', '8', '9'][d]
}

/// Two decimal digits, zero-padded.
pub open spec fn two_digits(n: int) -> Seq<char> {
    seq![digit(n / 10), digit(n % 10)]
}

/// Four decimal digits, zero-padded.
pub open spec fn four_digits(n: int) -> Seq<char> {
    seq![digit(n / 1000), digit((n / 100) % 10), digit((n / 10) % 10), digit(n % 10)]
}

/// The decimal digits of `n`, without leading zeros.
pub open spec fn decimal(n: nat) -> Seq<char>
    decreases n,
{
    if n < 10 {
        seq![digit(n as int)]
    } else {
        decimal(n / 10) + seq![digit((n % 10) as int)]
    }
}

/// A year as `%Y` writes it: four zero-padded digits for 0 to 9999; outside
/// that a sign and at least four digits.
pub open spec fn year_text(y: int) -> Seq<char> {
    if 0 <= y <= 9999 {
        four_digits(y)
    } else if y > 9999 {
        seq!['+'] + decimal(y as nat)
    } else if y >= -9999 {
        seq!['-'] + four_digits(-y)
    } else {
        seq!['-'] + decimal((-y) as nat)
    }
}

/// `YYYY-MM-DD`.
pub open spec fn date_text(y: int, m: int, d: int) -> Seq<char> {
    year_text(y) + seq!['-'] + two_digits(m) + seq!['-'] + two_digits(d)
}

/// `HHMMSS`.
pub open spec fn time_text(h: int, mi: int, s: int) -> Seq<char> {
    two_digits(h) + two_digits(mi) + two_digits(s)
}

/// Reads the local clock: the system time since the Unix epoch, turned into
/// a UTC date by chrono's `DateTime::from_timestamp` and moved into the local
/// time zone by `Local`'s `offset_from_utc_datetime` and
/// `NaiveDateTime::checked_add_offset`. `None` where the clock reads before
/// the epoch or out of chrono's range. A reading is a real date and time of
/// day (chrono keeps a leap second in the nanoseconds, so the second stays
/// below 60).
#[verifier::external_body]
pub(crate) fn now_local() -> (r: Option<Stamp>)
    ensures
        r matches Some(s) ==> s.wf(),
{
    let since = std::time::SystemTime::now().duration_since(std::time::UNIX_EPOCH).ok()?;
    let secs = i64::try_from(since.as_secs()).ok()?;
    let utc = chrono::DateTime::from_timestamp(secs, since.subsec_nanos())?.naive_utc();
    let t = utc.checked_add_offset(chrono::Local.offset_from_utc_datetime(&utc))?;
    Some(Stamp {
        year: t.year(),
        month: t.month(),
        day: t.day(),
        hour: t.hour(),
        minute: t.minute(),
        second: t.second(),
    })
}

/// Relies on chrono's `NaiveDate::from_ymd_opt` (which accepts every real
/// date) and its `format("%Y-%m-%d")`: the year as `year_text` gives it
/// (chrono's `write_year`), month and day two zero-padded digits each.
#[verifier::external_body]
pub(crate) fn format_date(year: i32, month: u32, day: u32) -> (r: String)
    requires
        valid_date(year as int, month as int, day as int),
    ensures
        r@ == date_text(year as int, month as int, day as int),
{
    chrono::NaiveDate::from_ymd_opt(year, month, day).unwrap().format("%Y-%m-%d").to_string()
}

/// Relies on chrono's `NaiveTime::from_hms_opt` (which accepts every time
/// below 24:00:00) and its `format("%H%M%S")`: two zero-padded digits each.
#[verifier::external_body]
pub(crate) fn format_time(hour: u32, minute: u32, second: u32) -> (r: String)
    requires
        valid_time(hour as int, minute as int, second as int),
    ensures
        r@ == time_text(hour as int, minute as int, second as int),
{
    chrono::NaiveTime::from_hms_opt(hour, minute, second).unwrap().format("%H%M%S").to_string()
}

/// Whether the calendar date of `now` differs from that of `last`.
pub fn date_changed(last: &Stamp, now: &Stamp) -> (r: bool)
    ensures
        r == !last.same_day(*now),
{
    last.year != now.year || last.month != now.month || last.day != now.day
}

} // verus!
