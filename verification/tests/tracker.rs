use tmux_time_tracker::model::{DailyRecord, Session};
use tmux_time_tracker::session_tracker::TrackerError;
use tmux_time_tracker::SessionTracker;

fn ready_tracker() -> SessionTracker {
    let mut t = SessionTracker::new();
    t.ensure_schema();
    t
}

#[test]
fn query_never_attached_session_is_zero() {
    let t = ready_tracker();
    assert_eq!(t.get_today_session_time_in_seconds("ghost-session", 20000), 0);
    assert_eq!(t.get_daily_session_time_in_hours("ghost-session", 20000), 0);
    assert_eq!(t.get_weekly_session_time_in_hours("ghost-session", 20000), Ok(0));
}

#[test]
fn attach_then_detach_credits_elapsed_time() {
    let mut t = ready_tracker();
    t.attach_to_session("work", 0);
    assert_eq!(t.detach_from_all_sessions(3600, 20000), Ok(()));
    assert_eq!(t.get_today_session_time_in_seconds("work", 20000), 3600);
    assert_eq!(t.get_daily_session_time_in_hours("work", 20000), 1);

    t.attach_to_session("work", 3600);
    assert_eq!(t.detach_from_all_sessions(5400, 20000), Ok(()));
    assert_eq!(t.get_today_session_time_in_seconds("work", 20000), 5400);
}

#[test]
fn live_time_is_not_visible_before_rollup() {
    let mut t = ready_tracker();
    t.attach_to_session("work", 0);
    assert_eq!(t.get_today_session_time_in_seconds("work", 20000), 0);
    assert_eq!(t.get_daily_session_time_in_hours("work", 20000), 0);
}

#[test]
fn detach_with_no_live_sessions_is_a_noop() {
    let mut t = ready_tracker();
    t.records.push(DailyRecord {
        session_name: String::from("work"),
        day: 20000,
        time_attached: 1234,
    });
    t.sessions.push(Session { name: String::from("work"), last_attached_time: None });
    assert_eq!(t.detach_from_all_sessions(99999, 20000), Ok(()));
    assert_eq!(t.records.len(), 1);
    assert_eq!(t.records[0].time_attached, 1234);
    assert_eq!(t.get_today_session_time_in_seconds("work", 20000), 1234);
}

#[test]
fn two_sessions_are_credited_independently() {
    let mut t = ready_tracker();
    t.attach_to_session("alpha", 0);
    t.attach_to_session("beta", 100);
    assert_eq!(t.detach_from_all_sessions(1000, 20000), Ok(()));
    assert_eq!(t.get_today_session_time_in_seconds("alpha", 20000), 1000);
    assert_eq!(t.get_today_session_time_in_seconds("beta", 20000), 900);
    for s in &t.sessions {
        assert!(s.last_attached_time.is_none());
    }
}

#[test]
fn reattach_discards_the_open_interval() {
    let mut t = ready_tracker();
    t.attach_to_session("work", 0);
    t.attach_to_session("work", 500);
    assert_eq!(t.sessions.len(), 1);
    assert_eq!(t.sessions[0].last_attached_time, Some(500));
    assert_eq!(t.detach_from_all_sessions(800, 20000), Ok(()));
    assert_eq!(t.get_today_session_time_in_seconds("work", 20000), 300);
}

#[test]
fn rollup_accumulates_across_days_separately() {
    let mut t = ready_tracker();
    t.attach_to_session("work", 0);
    assert_eq!(t.detach_from_all_sessions(100, 20000), Ok(()));
    t.attach_to_session("work", 200);
    assert_eq!(t.detach_from_all_sessions(250, 20001), Ok(()));
    assert_eq!(t.get_today_session_time_in_seconds("work", 20000), 100);
    assert_eq!(t.get_today_session_time_in_seconds("work", 20001), 50);
}

#[test]
fn hours_are_truncated_not_rounded() {
    let mut t = ready_tracker();
    t.attach_to_session("work", 0);
    assert_eq!(t.detach_from_all_sessions(3599, 20000), Ok(()));
    assert_eq!(t.get_daily_session_time_in_hours("work", 20000), 0);
    t.attach_to_session("work", 3599);
    assert_eq!(t.detach_from_all_sessions(3600, 20000), Ok(()));
    assert_eq!(t.get_daily_session_time_in_hours("work", 20000), 1);
}

#[test]
fn clock_skew_is_rejected_and_nothing_changes() {
    let mut t = ready_tracker();
    t.attach_to_session("work", 100);
    assert_eq!(t.detach_from_all_sessions(50, 20000), Err(TrackerError::ClockSkew));
    // The open attachment survived the refused rollup ...
    assert_eq!(t.sessions[0].last_attached_time, Some(100));
    assert_eq!(t.get_today_session_time_in_seconds("work", 20000), 0);
    // ... and a later, sane rollup credits it in full.
    assert_eq!(t.detach_from_all_sessions(200, 20000), Ok(()));
    assert_eq!(t.get_today_session_time_in_seconds("work", 20000), 100);
}

#[test]
fn day_total_overflow_is_rejected_and_nothing_changes() {
    let mut t = ready_tracker();
    t.records.push(DailyRecord {
        session_name: String::from("work"),
        day: 20000,
        time_attached: u64::MAX,
    });
    t.attach_to_session("work", 0);
    assert_eq!(t.detach_from_all_sessions(1, 20000), Err(TrackerError::Overflow));
    assert_eq!(t.sessions[0].last_attached_time, Some(0));
    assert_eq!(t.records[0].time_attached, u64::MAX);
}

#[test]
fn clock_skew_is_reported_ahead_of_overflow() {
    let mut t = ready_tracker();
    t.records.push(DailyRecord {
        session_name: String::from("work"),
        day: 20000,
        time_attached: u64::MAX,
    });
    t.attach_to_session("work", 0);
    t.attach_to_session("late", 500);
    assert_eq!(t.detach_from_all_sessions(100, 20000), Err(TrackerError::ClockSkew));
}

#[test]
fn schema_creation_is_idempotent() {
    let mut t = SessionTracker::new();
    t.ensure_schema();
    t.attach_to_session("work", 0);
    assert_eq!(t.detach_from_all_sessions(60, 20000), Ok(()));
    t.ensure_schema();
    t.ensure_schema();
    assert!(t.schema_ready);
    assert_eq!(t.sessions.len(), 1);
    assert_eq!(t.records.len(), 1);
    assert_eq!(t.get_today_session_time_in_seconds("work", 20000), 60);
}
