use vstd::prelude::*;

use chrono::{DateTime, Datelike, Utc};


verus! {

/// Seconds in a calendar day.
pub const SECS_PER_DAY: i64 = 86400;

/// The earliest year a UTC date-time can fall in.
pub const MIN_YEAR: i32 = -262143;

/// The latest year a UTC date-time can fall in.
pub const MAX_YEAR: i32 = 262142;

/// The first second a UTC date-time can name: the start of `MIN_YEAR`.
pub const MIN_TIMESTAMP: i64 = -8334601228800;

/// The last second a UTC date-time can name: the end of `MAX_YEAR`.
pub const MAX_TIMESTAMP: i64 = 8210266876799;

/// A moment in UTC: whole seconds since 1970-01-01T00:00:00Z and the nanoseconds past them.
#[derive(Debug, Clone, Copy, PartialEq, Eq)]
pub struct UtcInstant {
    pub secs: i64,
    pub nanos: u32,
}

impl UtcInstant {
    /// Inside the calendar's range, and not a leap second.
    pub open spec fn valid(self) -> bool {
        &&& MIN_TIMESTAMP <= self.secs <= MAX_TIMESTAMP
        &&& self.nanos < 1_000_000_000
    }
}

/// The day a second falls in, counted from 1970-01-01 (earlier days negative).
pub open spec fn day_number(secs: int) -> int {
    secs / 86400
}

/// How far into its day a second is.
pub open spec fn second_of_day(secs: int) -> int {
    secs % 86400
}

/// The day of the week of a second, 0 for Sunday through 6 for Saturday (1970-01-01 was a
/// Thursday).
pub open spec fn weekday_of(secs: int) -> int {
    (day_number(secs) + 4) % 7
}

/// Leap years of the proleptic Gregorian calendar.
pub open spec fn is_leap_year(y: int) -> bool {
    (y % 4 == 0 && y % 100 != 0) || y % 400 == 0
}

/// The number of days in month `m` (1 to 12) of year `y`.
pub open spec fn month_length(y: int, m: int) -> int {
    if m == 2 {
        if is_leap_year(y) { 29 } else { 28 }
    } else if m == 4 || m == 6 || m == 9 || m == 11 {
        30
    } else {
        31
    }
}

/// The days of year `y` before the first of month `m`.
pub open spec fn days_before_month(y: int, m: int) -> int
    decreases m,
{
    if m <= 1 {
        0
    } else {
        days_before_month(y, m - 1) + month_length(y, m - 1)
    }
}

/// Leap years before year `y`, counted from a fixed origin (only differences matter).
pub open spec fn leap_years_before(y: int) -> int {
    (y - 1) / 4 - (y - 1) / 100 + (y - 1) / 400
}

/// The days from 1970-01-01 to the first of year `y` (negative for earlier years).
pub open spec fn days_before_year(y: int) -> int {
    365 * (y - 1970) + leap_years_before(y) - leap_years_before(1970)
}

/// How many days date `(y, m, d)` of the proleptic Gregorian calendar lies after 1970-01-01
/// (negative before it).
pub open spec fn days_from_epoch(y: int, m: int, d: int) -> int {
    days_before_year(y) + days_before_month(y, m) + d - 1
}

/// A real calendar date inside the calendar's range.
pub open spec fn valid_date(y: int, m: int, d: int) -> bool {
    &&& MIN_YEAR <= y <= MAX_YEAR
    &&& 1 <= m <= 12
    &&& 1 <= d <= month_length(y, m)
}

/// The UTC calendar date (year, month, day) that a second falls on, as `chrono` computes it.
pub uninterp spec fn utc_date(secs: i64) -> (int, int, int);

/// The UTC calendar date of `t`, from `chrono`'s `DateTime::<Utc>::date_naive`. Trusted: the
/// result is `utc_date` of the seconds, is a real date in range, and is the date as many days
/// after 1970-01-01 as the seconds count whole days.
#[verifier::external_body]
pub(crate) fn civil_date(t: UtcInstant) -> (r: (i32, u32, u32))
    requires
        t.valid(),
    ensures
        utc_date(t.secs) == (r.0 as int, r.1 as int, r.2 as int),
        valid_date(r.0 as int, r.1 as int, r.2 as int),
        days_from_epoch(r.0 as int, r.1 as int, r.2 as int) == day_number(t.secs as int),
{
    let d = DateTime::<Utc>::from_timestamp(t.secs, t.nanos).expect("in range").date_naive();
    (d.year(), d.month(), d.day())
}

/// `t` moved to another date of the same time of day, when that date is real: the date as many
/// days after 1970-01-01 as the new seconds count whole days.
pub open spec fn moved_to(t: UtcInstant, r: Option<UtcInstant>, y: int, m: int, d: int) -> bool {
    &&& r is Some <==> valid_date(y, m, d)
    &&& r matches Some(x) ==> {
        &&& x.valid()
        &&& utc_date(x.secs) == (y, m, d)
        &&& days_from_epoch(y, m, d) == day_number(x.secs as int)
        &&& second_of_day(x.secs as int) == second_of_day(t.secs as int)
        &&& x.nanos == t.nanos
    }
}

/// `Datelike::with_day` on `chrono`'s `DateTime<Utc>`. Trusted: the same time of day on day
/// `day` of the same month, or `None` when that day does not exist.
#[verifier::external_body]
pub(crate) fn with_day(t: UtcInstant, day: u32) -> (r: Option<UtcInstant>)
    requires
        t.valid(),
    ensures
        moved_to(t, r, utc_date(t.secs).0, utc_date(t.secs).1, day as int),
{
    let dt = DateTime::<Utc>::from_timestamp(t.secs, t.nanos).expect("in range").with_day(day)?;
    Some(UtcInstant { secs: dt.timestamp(), nanos: dt.timestamp_subsec_nanos() })
}

/// `Datelike::with_month` on `chrono`'s `DateTime<Utc>`. Trusted: the same day and time of
/// day in month `month` of the same year, or `None` when that date does not exist.
#[verifier::external_body]
pub(crate) fn with_month(t: UtcInstant, month: u32) -> (r: Option<UtcInstant>)
    requires
        t.valid(),
    ensures
        moved_to(t, r, utc_date(t.secs).0, month as int, utc_date(t.secs).2),
{
    let dt = DateTime::<Utc>::from_timestamp(t.secs, t.nanos).expect("in range").with_month(month)?;
    Some(UtcInstant { secs: dt.timestamp(), nanos: dt.timestamp_subsec_nanos() })
}

/// `Datelike::with_year` on `chrono`'s `DateTime<Utc>`. Trusted: the same month, day and time
/// of day in year `year`, or `None` when that date does not exist or is out of range.
#[verifier::external_body]
pub(crate) fn with_year(t: UtcInstant, year: i32) -> (r: Option<UtcInstant>)
    requires
        t.valid(),
    ensures
        moved_to(t, r, year as int, utc_date(t.secs).1, utc_date(t.secs).2),
{
    let dt = DateTime::<Utc>::from_timestamp(t.secs, t.nanos).expect("in range").with_year(year)?;
    Some(UtcInstant { secs: dt.timestamp(), nanos: dt.timestamp_subsec_nanos() })
}

/// The number of days in a month, as counting back one day from the first of the next month
/// finds it.
pub fn days_in_month(year: i32, month: u32) -> (r: u32)
    requires
        1 <= month <= 12,
    ensures
        r == month_length(year as int, month as int),
{
    if month == 2 {
        if (year % 4 == 0 && year % 100 != 0) || year % 400 == 0 {
            29
        } else {
            28
        }
    } else if month == 4 || month == 6 || month == 9 || month == 11 {
        30
    } else {
        31
    }
}

/// Moving a second by whole days moves its day by as many and keeps its time of day.
pub proof fn lemma_day_shift(s: int, k: int)
    ensures
        day_number(s + 86400 * k) == day_number(s) + k,
        second_of_day(s + 86400 * k) == second_of_day(s),
{
    vstd::arithmetic::div_mod::lemma_fundamental_div_mod(s, 86400);
    vstd::arithmetic::div_mod::lemma_mod_bound(s, 86400);
    vstd::arithmetic::div_mod::lemma_fundamental_div_mod_converse(
        s + 86400 * k,
        86400,
        s / 86400 + k,
        s % 86400,
    );
}

/// The day of the week of `t`, 0 for Sunday through 6 for Saturday.
pub fn weekday_from_sunday(t: UtcInstant) -> (r: u32)
    requires
        t.valid(),
    ensures
        r == weekday_of(t.secs as int),
{
    let off: u64 = (t.secs - MIN_TIMESTAMP) as u64;
    let days: u64 = off / 86400;
    let w: u64 = (days + 4) % 7;
    proof {
        assert(t.secs == off + 86400 * (-96465292int));
        lemma_day_shift(off as int, -96465292);
        vstd::arithmetic::div_mod::lemma_mod_multiples_vanish(-13780756, days + 4, 7);
        assert(day_number(t.secs as int) + 4 == 7 * (-13780756int) + (days + 4));
    }
    w as u32
}

/// `t` one day (86400 seconds) later.
pub fn day_after(t: UtcInstant) -> (r: UtcInstant)
    requires
        t.secs + SECS_PER_DAY <= MAX_TIMESTAMP,
    ensures
        r.secs == t.secs + SECS_PER_DAY,
        r.nanos == t.nanos,
{
    UtcInstant { secs: t.secs + SECS_PER_DAY, nanos: t.nanos }
}

} // verus!

verus! {

impl UtcInstant {
    /// Whether the instant is inside the calendar's range and not a leap second.
    pub fn is_valid(&self) -> (r: bool)
        ensures
            r == self.valid(),
    {
        MIN_TIMESTAMP <= self.secs && self.secs <= MAX_TIMESTAMP && self.nanos < 1_000_000_000
    }
}

} // verus!

verus! {

proof fn lemma_div_step(y: int, k: int)
    requires
        k > 0,
    ensures
        y / k - (y - 1) / k == if y % k == 0 { 1int } else { 0int },
{
    vstd::arithmetic::div_mod::lemma_fundamental_div_mod(y, k);
    vstd::arithmetic::div_mod::lemma_mod_bound(y, k);
    let q = y / k;
    let r = y % k;
    assert(y == k * q + r);
    if r == 0 {
        assert(y - 1 == (q - 1) * k + (k - 1)) by (nonlinear_arith)
            requires
                y == k * q + r,
                r == 0,
        ;
        vstd::arithmetic::div_mod::lemma_fundamental_div_mod_converse(y - 1, k, q - 1, k - 1);
    } else {
        assert(y - 1 == q * k + (r - 1)) by (nonlinear_arith)
            requires
                y == k * q + r,
        ;
        vstd::arithmetic::div_mod::lemma_fundamental_div_mod_converse(y - 1, k, q, r - 1);
    }
}

/// A year has 366 days when it is a leap year and 365 otherwise.
proof fn lemma_year_length(y: int)
    ensures
        days_before_year(y + 1) == days_before_year(y) + if is_leap_year(y) { 366int } else { 365int },
        days_before_month(y, 12) + 31 == if is_leap_year(y) { 366int } else { 365int },
{
    lemma_div_step(y, 4);
    lemma_div_step(y, 100);
    lemma_div_step(y, 400);
    assert(y % 400 == 0 ==> y % 100 == 0);
    assert(y % 100 == 0 ==> y % 4 == 0);
    reveal_with_fuel(days_before_month, 12);
}

/// Any day of the month after `(y, m)` comes after every day of month `(y, m)`.
pub proof fn lemma_next_month_later(y: int, m: int, d: int, y2: int, m2: int, d2: int)
    requires
        1 <= m <= 12,
        1 <= d <= month_length(y, m),
        1 <= d2,
        (y2, m2) == (if m == 12 { (y + 1, 1int) } else { (y, m + 1) }),
    ensures
        days_from_epoch(y2, m2, d2) > days_from_epoch(y, m, d),
{
    if m == 12 {
        lemma_year_length(y);
    }
}

/// A later day starts a later second: of two seconds at the same time of day, the one on the
/// later day is later.
pub proof fn lemma_later_day(a: int, b: int)
    requires
        day_number(a) < day_number(b),
        second_of_day(a) == second_of_day(b),
    ensures
        a < b,
{
    vstd::arithmetic::div_mod::lemma_fundamental_div_mod(a, 86400);
    vstd::arithmetic::div_mod::lemma_fundamental_div_mod(b, 86400);
}

} // verus!

verus! {

/// The range of instants is exactly the calendar's: the first second falls at the start of
/// 1 January of `MIN_YEAR`, the last at the end of 31 December of `MAX_YEAR`.
pub proof fn lemma_timestamp_range_is_the_calendars()
    ensures
        days_from_epoch(MIN_YEAR as int, 1, 1) == day_number(MIN_TIMESTAMP as int),
        second_of_day(MIN_TIMESTAMP as int) == 0,
        days_from_epoch(MAX_YEAR as int, 12, 31) == day_number(MAX_TIMESTAMP as int),
        second_of_day(MAX_TIMESTAMP as int) == 86399,
{
    reveal_with_fuel(days_before_month, 12);
    assert(days_from_epoch(MIN_YEAR as int, 1, 1) == -96465292int);
    assert(days_from_epoch(MAX_YEAR as int, 12, 31) == 95026236int);
}

} // verus!
