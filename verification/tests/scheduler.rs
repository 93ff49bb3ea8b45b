use chrono::{TimeZone, Utc};

use nomi::schedule::{next_occurrence, occurrence_exists, try_next_occurrence};
use nomi::time::{days_in_month, weekday_from_sunday, UtcInstant};
use nomi::workers::{reminder_follow_up, reminder_posting, reminder_update, update_after_firing, ClaimedJob, JobUpdate, TaskOutcome, APPROVAL_NOTICE};

fn at(y: i32, m: u32, d: u32, h: u32, mi: u32, s: u32) -> UtcInstant {
    let dt = Utc.with_ymd_and_hms(y, m, d, h, mi, s).unwrap();
    UtcInstant { secs: dt.timestamp(), nanos: 0 }
}

#[test]
fn daily_advances_by_exactly_24_hours() {
    let from = at(2026, 9, 20, 11, 0, 0);
    let next = next_occurrence(from, "daily", None, None);
    assert_eq!(next, at(2026, 9, 21, 11, 0, 0));
}

#[test]
fn weekly_advances_to_the_next_matching_weekday() {
    // 2026-09-20 is a Sunday (weekday 0). Target weekday 3 = Wednesday.
    let from = at(2026, 9, 20, 11, 0, 0);
    let next = next_occurrence(from, "weekly", Some(3), None);
    assert_eq!(next, at(2026, 9, 23, 11, 0, 0));
}

#[test]
fn weekly_rolls_a_full_week_when_today_already_matches() {
    let from = at(2026, 9, 20, 11, 0, 0);
    let next = next_occurrence(from, "weekly", Some(0), None);
    assert_eq!(next, at(2026, 9, 27, 11, 0, 0));
}

#[test]
fn monthly_advances_to_the_next_month_same_day() {
    let from = at(2026, 9, 15, 11, 0, 0);
    let next = next_occurrence(from, "monthly", None, Some(15));
    assert_eq!(next, at(2026, 10, 15, 11, 0, 0));
}

#[test]
fn monthly_clamps_to_the_target_months_last_day() {
    // day_of_month = 31 scheduled from January lands on February's last valid day.
    let from = at(2026, 1, 31, 11, 0, 0);
    let next = next_occurrence(from, "monthly", None, Some(31));
    assert_eq!(next, at(2026, 2, 28, 11, 0, 0));
}

#[test]
fn monthly_wraps_from_december_into_january_of_the_next_year() {
    let from = at(2026, 12, 10, 11, 0, 0);
    let next = next_occurrence(from, "monthly", None, Some(10));
    assert_eq!(next, at(2027, 1, 10, 11, 0, 0));
}

#[test]
fn weekly_without_a_weekday_targets_sunday() {
    // 2026-09-23 is a Wednesday.
    let from = at(2026, 9, 23, 8, 30, 0);
    assert_eq!(next_occurrence(from, "weekly", None, None), at(2026, 9, 27, 8, 30, 0));
}

#[test]
fn monthly_without_a_day_targets_the_first() {
    let from = at(2026, 3, 17, 6, 0, 0);
    assert_eq!(next_occurrence(from, "monthly", None, None), at(2026, 4, 1, 6, 0, 0));
}

#[test]
fn monthly_lands_on_february_29_in_a_leap_year() {
    let from = at(2028, 1, 31, 9, 0, 0);
    assert_eq!(next_occurrence(from, "monthly", None, Some(31)), at(2028, 2, 29, 9, 0, 0));
}

#[test]
fn monthly_with_a_negative_day_lands_on_the_last_day() {
    let from = at(2026, 3, 5, 9, 0, 0);
    assert_eq!(next_occurrence(from, "monthly", None, Some(-1)), at(2026, 4, 30, 9, 0, 0));
}

#[test]
fn an_unknown_recurrence_keeps_the_time() {
    let from = at(2026, 3, 5, 9, 0, 0);
    assert_eq!(next_occurrence(from, "hourly", None, None), from);
}

#[test]
fn the_time_of_day_and_nanoseconds_survive_a_monthly_step() {
    let mut from = at(2026, 5, 31, 23, 59, 58);
    from.nanos = 123_456_789;
    let mut expected = at(2026, 6, 30, 23, 59, 58);
    expected.nanos = 123_456_789;
    assert_eq!(next_occurrence(from, "monthly", None, Some(31)), expected);
}

#[test]
fn weekdays_count_from_sunday() {
    assert_eq!(weekday_from_sunday(at(2026, 9, 20, 0, 0, 0)), 0);
    assert_eq!(weekday_from_sunday(at(1970, 1, 1, 12, 0, 0)), 4);
    assert_eq!(weekday_from_sunday(at(1969, 12, 31, 23, 59, 59)), 3);
}

#[test]
fn month_lengths_follow_the_gregorian_calendar() {
    assert_eq!(days_in_month(2026, 2), 28);
    assert_eq!(days_in_month(2024, 2), 29);
    assert_eq!(days_in_month(1900, 2), 28);
    assert_eq!(days_in_month(2000, 2), 29);
    assert_eq!(days_in_month(2026, 4), 30);
    assert_eq!(days_in_month(2026, 12), 31);
}

fn job(recurrence: Option<&str>) -> ClaimedJob {
    ClaimedJob {
        id: 1,
        session_id: 2,
        user_id: 3,
        target_agent_type: "money".to_string(),
        prompt: "pay rent".to_string(),
        recurrence: recurrence.map(|s| s.to_string()),
        recurrence_weekday: None,
        recurrence_day_of_month: None,
        run_at: at(2026, 9, 20, 11, 0, 0),
    }
}

#[test]
fn a_one_time_job_completes_and_a_recurring_one_moves_on() {
    assert_eq!(update_after_firing(&job(None)), JobUpdate::Complete);
    assert_eq!(update_after_firing(&job(Some("daily"))), JobUpdate::Reschedule { next_run_at: at(2026, 9, 21, 11, 0, 0) });
}

#[test]
fn a_reply_is_posted_announced_and_delivered() {
    let f = reminder_follow_up(&job(Some("daily")), TaskOutcome::Replied("Rent is due".to_string()));
    assert_eq!(f.message.as_deref(), Some("Rent is due"));
    assert!(f.announce_message);
    assert_eq!(f.notification.as_deref(), Some("Rent is due"));
    assert_eq!(f.update, JobUpdate::Reschedule { next_run_at: at(2026, 9, 21, 11, 0, 0) });
}

#[test]
fn an_unknown_agent_cancels_the_job() {
    let f = reminder_follow_up(&job(Some("daily")), TaskOutcome::UnknownAgent);
    assert_eq!(f.message, None);
    assert_eq!(f.update, JobUpdate::Cancel);
}

#[test]
fn a_failed_reminder_apologises_and_still_finishes() {
    let f = reminder_follow_up(&job(None), TaskOutcome::Failed("provider down".to_string()));
    assert_eq!(f.message.as_deref(), Some("I wasn't able to complete your reminder \u{2014} provider down."));
    assert!(!f.announce_message);
    assert_eq!(f.notification, None);
    assert_eq!(f.update, JobUpdate::Complete);
}

#[test]
fn a_reminder_awaiting_approval_leaves_a_notice() {
    let f = reminder_follow_up(&job(None), TaskOutcome::AwaitingApproval);
    assert_eq!(f.message.as_deref(), Some(APPROVAL_NOTICE));
    assert_eq!(f.update, JobUpdate::Complete);
}

#[test]
fn impossible_recurrences_have_no_next_occurrence() {
    let from = at(2026, 9, 20, 11, 0, 0);
    assert!(!occurrence_exists(from, "weekly", Some(7), None));
    assert!(!occurrence_exists(from, "weekly", Some(-1), None));
    assert!(!occurrence_exists(from, "monthly", None, Some(0)));
    assert!(occurrence_exists(from, "weekly", Some(6), None));
    assert!(occurrence_exists(from, "yearly", None, None));
    assert_eq!(try_next_occurrence(from, "weekly", Some(9), None), None);
    assert_eq!(try_next_occurrence(from, "daily", None, None), Some(at(2026, 9, 21, 11, 0, 0)));
    let last = UtcInstant { secs: nomi::time::MAX_TIMESTAMP, nanos: 0 };
    assert!(!occurrence_exists(last, "daily", None, None));
    assert!(!occurrence_exists(last, "monthly", None, Some(1)));
    let mut bad = job(Some("weekly"));
    bad.recurrence_weekday = Some(12);
    assert!(!bad.is_schedulable());
    assert!(job(Some("daily")).is_schedulable());
}

#[test]
fn what_a_reminder_posts_follows_how_its_turn_ended() {
    let p = reminder_posting(TaskOutcome::Replied("Rent is due".to_string()));
    assert_eq!(p.message.as_deref(), Some("Rent is due"));
    assert!(p.announce_message);
    assert_eq!(p.notification.as_deref(), Some("Rent is due"));
    let p = reminder_posting(TaskOutcome::UnknownAgent);
    assert_eq!(p.message, None);
    assert_eq!(p.notification, None);
    let p = reminder_posting(TaskOutcome::Failed("timeout".to_string()));
    assert_eq!(p.message.as_deref(), Some("I wasn't able to complete your reminder \u{2014} timeout."));
    assert!(!p.announce_message);
    let p = reminder_posting(TaskOutcome::AwaitingApproval);
    assert_eq!(p.message.as_deref(), Some(APPROVAL_NOTICE));
}

#[test]
fn a_job_is_cancelled_rescheduled_completed_or_found_to_have_no_next_run() {
    let mut bad = job(Some("weekly"));
    bad.recurrence_weekday = Some(7);
    assert_eq!(reminder_update(&bad, false), Some(JobUpdate::Cancel));
    assert_eq!(reminder_update(&bad, true), None);
    assert_eq!(reminder_update(&job(None), true), Some(JobUpdate::Complete));
    assert_eq!(
        reminder_update(&job(Some("daily")), true),
        Some(JobUpdate::Reschedule { next_run_at: at(2026, 9, 21, 11, 0, 0) })
    );
}

#[test]
fn a_monthly_step_to_an_earlier_day_of_the_month_is_still_later() {
    let from = at(2026, 12, 31, 23, 59, 59);
    let next = next_occurrence(from, "monthly", None, Some(1));
    assert_eq!(next, at(2027, 1, 1, 23, 59, 59));
    assert!(next.secs > from.secs);
    let from = at(2024, 1, 31, 0, 0, 0);
    let next = next_occurrence(from, "monthly", None, Some(31));
    assert_eq!(next, at(2024, 2, 29, 0, 0, 0));
    assert!(next.secs > from.secs);
}
