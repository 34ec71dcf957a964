use gambatee::voice_stats::VoiceStats;

#[test]
fn join_then_leave_measures_the_interval() {
    let mut stats = VoiceStats::new();
    stats.user_joined_at(7, 1_000);
    assert!(stats.has_session(7));
    let duration = stats.user_left_at(7, 1_090);
    assert_eq!(duration, Some(90));
    assert!(!stats.has_session(7));
}

#[test]
fn leave_without_join_reports_no_session() {
    // A leave with no prior join: no duration comes back, so nothing is
    // ever handed to the store.
    let mut stats = VoiceStats::new();
    let duration = stats.user_left_at(7, 1_000);
    assert_eq!(duration, None);
    let record = stats.user_left(7, "alice");
    assert!(record.is_none());
}

#[test]
fn double_leave_reports_no_session_the_second_time() {
    let mut stats = VoiceStats::new();
    stats.user_joined_at(7, 1_000);
    assert_eq!(stats.user_left_at(7, 1_010), Some(10));
    assert_eq!(stats.user_left_at(7, 1_020), None);
}

#[test]
fn second_join_overwrites_the_first() {
    // Two consecutive joins without a leave: only the second start time
    // survives, and a later leave measures from it alone.
    let mut stats = VoiceStats::new();
    stats.user_joined_at(7, 100);
    stats.user_joined_at(7, 200);
    assert!(stats.has_session(7));
    let duration = stats.user_left_at(7, 260);
    assert_eq!(duration, Some(60));
    assert!(!stats.has_session(7));
    assert_eq!(stats.user_left_at(7, 300), None);
}

#[test]
fn users_are_tracked_independently() {
    let mut stats = VoiceStats::new();
    stats.user_joined_at(1, 10);
    stats.user_joined_at(2, 20);
    assert_eq!(stats.user_left_at(1, 30), Some(20));
    assert!(stats.has_session(2));
    assert_eq!(stats.user_left_at(2, 30), Some(10));
}

#[test]
fn backwards_clock_yields_zero_duration() {
    let mut stats = VoiceStats::new();
    stats.user_joined_at(7, 1_000);
    assert_eq!(stats.user_left_at(7, 900), Some(0));
}

#[test]
fn user_left_builds_the_record_from_the_snapshot() {
    let mut stats = VoiceStats::new();
    stats.user_joined_at(7, 0);
    let record = stats.user_left(7, "alice").expect("a session was open");
    assert_eq!(record.user_id, 7);
    assert_eq!(record.username, "alice");
    // The session started at the epoch, so the elapsed time is the close
    // time itself.
    assert_eq!(record.duration_seconds, record.occurred_at);
}
