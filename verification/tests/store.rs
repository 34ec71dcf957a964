use gambatee::error::Error;
use gambatee::voice_stats::SessionStore;

#[test]
fn successful_record_commits_both_steps() {
    let mut store = SessionStore::new();
    let result = store.record_session(7, "alice".to_string(), 90, 1_000, true);
    assert_eq!(result, Ok(()));
    assert_eq!(store.session_count(), 1);
    assert_eq!(store.username_of(7).map(String::as_str), Some("alice"));
}

#[test]
fn failed_record_leaves_no_trace() {
    // A forced failure on the second write step: the user-table update of
    // the first step must not be visible either.
    let mut store = SessionStore::new();
    let result = store.record_session(7, "alice".to_string(), 90, 1_000, false);
    assert_eq!(result, Err(Error::Sqlx));
    assert_eq!(store.session_count(), 0);
    assert!(store.username_of(7).is_none());
}

#[test]
fn failed_record_keeps_earlier_commits() {
    let mut store = SessionStore::new();
    assert!(store.record_session(7, "alice".to_string(), 90, 1_000, true).is_ok());
    let result = store.record_session(7, "renamed".to_string(), 30, 2_000, false);
    assert_eq!(result, Err(Error::Sqlx));
    assert_eq!(store.session_count(), 1);
    assert_eq!(store.username_of(7).map(String::as_str), Some("alice"));
}

#[test]
fn second_record_updates_the_username() {
    let mut store = SessionStore::new();
    assert!(store.record_session(7, "alice".to_string(), 90, 1_000, true).is_ok());
    assert!(store.record_session(7, "renamed".to_string(), 30, 2_000, true).is_ok());
    assert_eq!(store.session_count(), 2);
    assert_eq!(store.username_of(7).map(String::as_str), Some("renamed"));
}

#[test]
fn records_for_different_users_live_side_by_side() {
    let mut store = SessionStore::new();
    assert!(store.record_session(1, "alice".to_string(), 10, 1_000, true).is_ok());
    assert!(store.record_session(2, "bob".to_string(), 20, 1_000, true).is_ok());
    assert_eq!(store.session_count(), 2);
    assert_eq!(store.username_of(1).map(String::as_str), Some("alice"));
    assert_eq!(store.username_of(2).map(String::as_str), Some("bob"));
    assert!(store.username_of(3).is_none());
}

#[test]
fn error_descriptions_name_their_source() {
    assert_eq!(Error::EnvVar.describe(), "missing environment variable");
    assert_eq!(Error::Config.describe(), "failed to load the config");
    assert_eq!(Error::Serenity.describe(), "remote platform call failed");
    assert_eq!(Error::Sqlx.describe(), "database error");
    assert_eq!(Error::Migration.describe(), "migration failed");
    assert_eq!(Error::Scheduler.describe(), "scheduler error");
    assert_eq!(
        Error::SetGlobalDefault.describe(),
        "failed to set global default tracing subscriber"
    );
}
