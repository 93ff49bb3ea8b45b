use vstd::prelude::*;

use crate::text::str_eq;
use crate::time::{
    civil_date, day_after, day_number, days_in_month, lemma_day_shift, month_length, second_of_day, utc_date,
    weekday_from_sunday, weekday_of, with_day, with_month, with_year, UtcInstant, MAX_TIMESTAMP, MAX_YEAR,
    lemma_later_day, lemma_next_month_later,
};

verus! {

/// The weekday a weekly recurrence fires on: the stored one, Sunday when none is stored.
pub open spec fn target_weekday(weekday: Option<i16>) -> int {
    match weekday {
        Some(w) => w as int,
        None => 0,
    }
}

/// How many days after a day with weekday `from` the next day with weekday `target` comes:
/// from one to seven, a full week when the two agree.
pub open spec fn weekly_gap(from: int, target: int) -> int {
    (target - from - 1) % 7 + 1
}

/// The month after month `m` of year `y`.
pub open spec fn following_month(y: int, m: int) -> (int, int) {
    if m == 12 {
        (y + 1, 1)
    } else {
        (y, m + 1)
    }
}

/// The day a monthly recurrence lands on in a month of `last` days: the stored day (the first
/// when none is stored), or the month's last day when the stored one runs past it.
pub open spec fn clamp_day(day_of_month: Option<i16>, last: int) -> int {
    match day_of_month {
        None => 1,
        Some(d) => if d < 0 || d > last { last } else { d as int },
    }
}

/// Inputs on which the next occurrence exists: the weekday is a real one, the day of month is
/// not zero, and the result stays inside the calendar.
pub open spec fn occurrence_defined(
    from: UtcInstant,
    recurrence: Seq<char>,
    weekday: Option<i16>,
    day_of_month: Option<i16>,
) -> bool {
    if recurrence == "daily"@ {
        from.secs + 86400 <= MAX_TIMESTAMP
    } else if recurrence == "weekly"@ {
        let t = target_weekday(weekday);
        &&& 0 <= t <= 6
        &&& from.secs + 86400 * weekly_gap(weekday_of(from.secs as int), t) <= MAX_TIMESTAMP
    } else if recurrence == "monthly"@ {
        let (y, m, d) = utc_date(from.secs);
        let (y2, m2) = following_month(y, m);
        &&& day_of_month != Some(0i16)
        &&& y2 < MAX_YEAR || (y2 == MAX_YEAR && m2 < 12)
    } else {
        true
    }
}

/// The recurrences a job can have; any other leaves its time as it is.
pub open spec fn is_known_recurrence(recurrence: Seq<char>) -> bool {
    recurrence == "daily"@ || recurrence == "weekly"@ || recurrence == "monthly"@
}

/// `r` is when a job that ran at `from` recurs: a day later, on the next matching weekday
/// (one to seven days on), or in the following month on the stored day at the same time of
/// day; an unknown recurrence leaves the time as it is.
pub open spec fn is_next_occurrence(
    from: UtcInstant,
    recurrence: Seq<char>,
    weekday: Option<i16>,
    day_of_month: Option<i16>,
    r: UtcInstant,
) -> bool {
    if recurrence == "daily"@ {
        r.secs == from.secs + 86400 && r.nanos == from.nanos
    } else if recurrence == "weekly"@ {
        &&& r.secs == from.secs + 86400 * weekly_gap(weekday_of(from.secs as int), target_weekday(weekday))
        &&& r.nanos == from.nanos
    } else if recurrence == "monthly"@ {
        let (y, m, d) = utc_date(from.secs);
        let (y2, m2) = following_month(y, m);
        &&& r.valid()
        &&& utc_date(r.secs) == (y2, m2, clamp_day(day_of_month, month_length(y2, m2)))
        &&& second_of_day(r.secs as int) == second_of_day(from.secs as int)
        &&& r.nanos == from.nanos
    } else {
        r == from
    }
}

proof fn lemma_weekly_gap(w: int, t: int, k: int)
    requires
        0 <= w < 7,
        0 <= t < 7,
        1 <= k <= weekly_gap(w, t),
    ensures
        1 <= weekly_gap(w, t) <= 7,
        ((w + k) % 7 == t) == (k == weekly_gap(w, t)),
{
}

proof fn lemma_weekday_after_days(s: int, k: int)
    ensures
        weekday_of(s + 86400 * k) == (weekday_of(s) + k) % 7,
{
    lemma_day_shift(s, k);
    vstd::arithmetic::div_mod::lemma_add_mod_noop(day_number(s) + 4, k, 7);
    vstd::arithmetic::div_mod::lemma_mod_bound(day_number(s) + 4, 7);
    vstd::arithmetic::div_mod::lemma_mod_bound(k, 7);
    vstd::arithmetic::div_mod::lemma_add_mod_noop(weekday_of(s), k, 7);
}

/// When a recurring job next runs after running at `from`: for a known recurrence, always
/// later than `from`.
pub fn next_occurrence(
    from: UtcInstant,
    recurrence: &str,
    weekday: Option<i16>,
    day_of_month: Option<i16>,
) -> (r: UtcInstant)
    requires
        from.valid(),
        occurrence_defined(from, recurrence@, weekday, day_of_month),
    ensures
        r.valid(),
        is_next_occurrence(from, recurrence@, weekday, day_of_month, r),
        is_known_recurrence(recurrence@) ==> r.secs > from.secs,
{
    proof {
        reveal_strlit("daily");
        reveal_strlit("weekly");
        reveal_strlit("monthly");
    }
    if str_eq(recurrence, "daily") {
        day_after(from)
    } else if str_eq(recurrence, "weekly") {
        let target: u32 = match weekday {
            Some(w) => w as u32,
            None => 0,
        };
        let ghost w0 = weekday_of(from.secs as int);
        let ghost gap = weekly_gap(w0, target as int);
        proof {
            vstd::arithmetic::div_mod::lemma_mod_bound(day_number(from.secs as int) + 4, 7);
            lemma_weekly_gap(w0, target as int, 1);
        }
        let mut candidate = day_after(from);
        let ghost mut k: int = 1;
        proof {
            lemma_weekday_after_days(from.secs as int, 1);
        }
        while weekday_from_sunday(candidate) != target
            invariant
                from.valid(),
                0 <= w0 < 7,
                0 <= target < 7,
                w0 == weekday_of(from.secs as int),
                gap == weekly_gap(w0, target as int),
                1 <= gap <= 7,
                from.secs + 86400 * gap <= MAX_TIMESTAMP,
                1 <= k <= gap,
                candidate.secs == from.secs + 86400 * k,
                candidate.nanos == from.nanos,
                weekday_of(candidate.secs as int) == (w0 + k) % 7,
            decreases gap - k,
        {
            proof {
                lemma_weekly_gap(w0, target as int, k);
                lemma_weekday_after_days(from.secs as int, k + 1);
            }
            candidate = day_after(candidate);
            proof {
                k = k + 1;
            }
        }
        proof {
            lemma_weekly_gap(w0, target as int, k);
        }
        candidate
    } else if str_eq(recurrence, "monthly") {
        let (year, month, _day) = civil_date(from);
        let (y2, m2): (i32, u32) = if month == 12 {
            (year + 1, 1)
        } else {
            (year, month + 1)
        };
        let last = days_in_month(y2, m2);
        let day: u32 = match day_of_month {
            Some(d) => {
                let v: u32 = #[verifier::truncate] (d as u32);
                assert(d < 0 ==> (#[verifier::truncate] (d as u32)) >= 0x8000u32) by (bit_vector);
                v
            },
            None => 1,
        };
        let clamped = if day < last { day } else { last };
        let first = with_day(from, 1).unwrap();
        let moved_year = with_year(first, y2).unwrap();
        let moved_month = with_month(moved_year, m2).unwrap();
        let r = with_day(moved_month, clamped).unwrap();
        proof {
            lemma_next_month_later(year as int, month as int, _day as int, y2 as int, m2 as int, clamped as int);
            lemma_later_day(from.secs as int, r.secs as int);
        }
        r
    } else {
        from
    }
}

} // verus!

verus! {

/// A weekly job lands on its weekday, one to seven days after it last ran, and a full week
/// later when it last ran on that same weekday.
pub proof fn lemma_weekly_lands_on_its_weekday(from: int, target: int)
    requires
        0 <= target <= 6,
    ensures
        1 <= weekly_gap(weekday_of(from), target) <= 7,
        weekday_of(from + 86400 * weekly_gap(weekday_of(from), target)) == target,
        weekday_of(from) == target ==> weekly_gap(weekday_of(from), target) == 7,
{
    let w = weekday_of(from);
    vstd::arithmetic::div_mod::lemma_mod_bound(day_number(from) + 4, 7);
    let g = weekly_gap(w, target);
    lemma_weekly_gap(w, target, 1);
    lemma_weekly_gap(w, target, g);
    lemma_weekday_after_days(from, g);
}

/// A monthly job's day always exists in the month it lands in: it is never zero and never past
/// the month's last day.
pub proof fn lemma_monthly_day_exists(day_of_month: Option<i16>, y: int, m: int)
    requires
        day_of_month != Some(0i16),
        1 <= m <= 12,
    ensures
        1 <= clamp_day(day_of_month, month_length(y, m)) <= month_length(y, m),
{
}

/// Daily and weekly jobs always move forward in time.
pub proof fn lemma_recurrence_moves_forward(
    from: UtcInstant,
    recurrence: Seq<char>,
    weekday: Option<i16>,
    day_of_month: Option<i16>,
    r: UtcInstant,
)
    requires
        recurrence == "daily"@ || recurrence == "weekly"@,
        0 <= target_weekday(weekday) <= 6,
        is_next_occurrence(from, recurrence, weekday, day_of_month, r),
    ensures
        r.secs > from.secs,
        r.secs <= from.secs + 7 * 86400,
{
    reveal_strlit("daily");
    reveal_strlit("weekly");
    reveal_strlit("monthly");
    if recurrence == "weekly"@ {
        lemma_weekly_lands_on_its_weekday(from.secs as int, target_weekday(weekday));
    }
}

} // verus!

verus! {

/// Whether `next_occurrence` is defined for these inputs, tested as a caller can test it: the
/// weekday and day asked for, and the room left in the calendar after `from`.
pub fn occurrence_exists(from: UtcInstant, recurrence: &str, weekday: Option<i16>, day_of_month: Option<i16>) -> (r: bool)
    requires
        from.valid(),
    ensures
        r == occurrence_defined(from, recurrence@, weekday, day_of_month),
{
    proof {
        reveal_strlit("daily");
        reveal_strlit("weekly");
        reveal_strlit("monthly");
    }
    if str_eq(recurrence, "daily") {
        from.secs <= MAX_TIMESTAMP - 86400
    } else if str_eq(recurrence, "weekly") {
        let target: i16 = match weekday {
            Some(w) => w,
            None => 0,
        };
        if target < 0 || target > 6 {
            return false;
        }
        let w = weekday_from_sunday(from);
        let gap: i64 = ((target as i64 + 6 - w as i64) % 7) + 1;
        proof {
            vstd::arithmetic::div_mod::lemma_mod_bound(day_number(from.secs as int) + 4, 7);
            assert(gap == weekly_gap(w as int, target as int));
        }
        from.secs <= MAX_TIMESTAMP - 86400 * gap
    } else if str_eq(recurrence, "monthly") {
        if day_of_month == Some(0i16) {
            return false;
        }
        let (year, month, _day) = civil_date(from);
        if month == 12 {
            year < MAX_YEAR
        } else {
            year < MAX_YEAR || (year == MAX_YEAR && month + 1 < 12)
        }
    } else {
        true
    }
}

/// When a recurring job next runs after running at `from`, or nothing when that time does not
/// exist (an impossible weekday or day, or no room left in the calendar).
pub fn try_next_occurrence(
    from: UtcInstant,
    recurrence: &str,
    weekday: Option<i16>,
    day_of_month: Option<i16>,
) -> (r: Option<UtcInstant>)
    requires
        from.valid(),
    ensures
        match r {
            Some(x) => occurrence_defined(from, recurrence@, weekday, day_of_month) && x.valid()
                && is_next_occurrence(from, recurrence@, weekday, day_of_month, x)
                && (is_known_recurrence(recurrence@) ==> x.secs > from.secs),
            None => !occurrence_defined(from, recurrence@, weekday, day_of_month),
        },
{
    if occurrence_exists(from, recurrence, weekday, day_of_month) {
        Some(next_occurrence(from, recurrence, weekday, day_of_month))
    } else {
        None
    }
}

} // verus!
