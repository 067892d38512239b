use tmux_time_tracker::model::DailyRecord;
use tmux_time_tracker::session_tracker::TrackerError;
use tmux_time_tracker::SessionTracker;

// Day numbers count days since 1970-01-01 (a Thursday), so day 20000 is a
// Friday and the trailing week window anchored there starts on day 19995,
// the most recent Sunday.
const FRIDAY: u64 = 20000;
const SUNDAY: u64 = 19995;

fn record(name: &str, day: u64, seconds: u64) -> DailyRecord {
    DailyRecord { session_name: String::from(name), day, time_attached: seconds }
}

#[test]
fn week_total_sums_the_window_and_truncates_to_hours() {
    let mut t = SessionTracker::new();
    t.ensure_schema();
    // 1800 s on each day of the window so far: Sunday through Friday.
    let mut day = SUNDAY;
    while day <= FRIDAY {
        t.records.push(record("work", day, 1800));
        day += 1;
    }
    // 6 * 1800 = 10800 s = 3 h.
    assert_eq!(t.get_weekly_session_time_in_hours("work", FRIDAY), Ok(3));
}

#[test]
fn week_total_ignores_days_before_the_window() {
    let mut t = SessionTracker::new();
    t.ensure_schema();
    t.records.push(record("work", SUNDAY, 3600));
    t.records.push(record("work", FRIDAY, 7200));
    assert_eq!(t.get_weekly_session_time_in_hours("work", FRIDAY), Ok(3));
    // An eighth day in the past falls before the window and changes nothing.
    t.records.push(record("work", SUNDAY - 1, 360000));
    assert_eq!(t.get_weekly_session_time_in_hours("work", FRIDAY), Ok(3));
}

#[test]
fn week_total_ignores_days_after_the_anchor() {
    let mut t = SessionTracker::new();
    t.ensure_schema();
    t.records.push(record("work", FRIDAY, 7200));
    t.records.push(record("work", FRIDAY + 1, 36000));
    assert_eq!(t.get_weekly_session_time_in_hours("work", FRIDAY), Ok(2));
}

#[test]
fn week_total_ignores_other_sessions() {
    let mut t = SessionTracker::new();
    t.ensure_schema();
    t.records.push(record("work", FRIDAY, 7200));
    t.records.push(record("play", FRIDAY, 36000));
    assert_eq!(t.get_weekly_session_time_in_hours("work", FRIDAY), Ok(2));
}

#[test]
fn week_anchored_on_sunday_sees_only_that_sunday() {
    let mut t = SessionTracker::new();
    t.ensure_schema();
    t.records.push(record("work", SUNDAY, 7200));
    t.records.push(record("work", SUNDAY - 1, 36000));
    t.records.push(record("work", SUNDAY - 7, 36000));
    assert_eq!(t.get_weekly_session_time_in_hours("work", SUNDAY), Ok(2));
}

#[test]
fn week_total_overflow_is_reported() {
    let mut t = SessionTracker::new();
    t.ensure_schema();
    t.records.push(record("work", FRIDAY, u64::MAX));
    t.records.push(record("work", FRIDAY - 1, 1));
    assert_eq!(t.get_weekly_session_time_in_hours("work", FRIDAY), Err(TrackerError::Overflow));
}

#[test]
fn week_window_rolls_forward_with_the_anchor_day() {
    let mut t = SessionTracker::new();
    t.ensure_schema();
    t.records.push(record("work", SUNDAY - 2, 3600));
    t.records.push(record("work", SUNDAY + 2, 3600));
    // Anchored on the Friday, only the day inside the current week counts.
    assert_eq!(t.get_weekly_session_time_in_hours("work", FRIDAY), Ok(1));
    // Anchored on the earlier Friday, only the earlier day counts.
    assert_eq!(t.get_weekly_session_time_in_hours("work", FRIDAY - 7), Ok(1));
}
