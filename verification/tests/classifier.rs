use gambatee::config::{Channels, Config, DropRates, Generator, Stats};
use gambatee::handlers::voice_state_update::{Transition, VoiceStateTransition};

const GENERATOR: u64 = 100;
const AFK: u64 = 200;
const CATEGORY: u64 = 300;
const ROOM_A: u64 = 401;
const ROOM_B: u64 = 402;

fn test_config() -> Config {
    Config {
        generator: Generator { channel_id: GENERATOR, afk_channel_id: AFK, parent_id: CATEGORY },
        drop_rates: DropRates { common: 80, rare: 0, epic: 0, legendary: 20 },
        channels: Channels {
            common: vec!["cave".to_string(), "den".to_string()],
            rare: vec!["grotto".to_string()],
            epic: vec!["vault".to_string()],
            legendary: vec!["throne".to_string()],
        },
        stats: Stats {
            weekly_schedule: "0 0 18 * * Fri".to_string(),
            monthly_schedule: "0 0 18 1 * *".to_string(),
            channel_id: 500,
        },
    }
}

fn classify(old_channel: Option<u64>, new_channel: Option<u64>) -> Transition {
    let config = test_config();
    let t = VoiceStateTransition::new(&config, 1, "alice".to_string(), old_channel, new_channel);
    t.classify()
}

#[test]
fn classify_joined() {
    assert_eq!(classify(None, Some(ROOM_A)), Transition::Joined);
    assert_eq!(classify(None, Some(GENERATOR)), Transition::Joined);
}

#[test]
fn classify_left() {
    assert_eq!(classify(Some(ROOM_A), None), Transition::Left);
    assert_eq!(classify(Some(AFK), None), Transition::Left);
}

#[test]
fn classify_moved() {
    assert_eq!(classify(Some(ROOM_A), Some(ROOM_B)), Transition::Moved);
    assert_eq!(classify(Some(ROOM_A), Some(GENERATOR)), Transition::Moved);
}

#[test]
fn classify_no_change() {
    assert_eq!(classify(None, None), Transition::NoChange);
    assert_eq!(classify(Some(ROOM_A), Some(ROOM_A)), Transition::NoChange);
    assert_eq!(classify(Some(AFK), Some(AFK)), Transition::NoChange);
}

#[test]
fn classify_afk_precedence_from_nowhere() {
    // Entering AFK from a disconnected state is JoinedAfk, not Joined.
    assert_eq!(classify(None, Some(AFK)), Transition::JoinedAfk);
}

#[test]
fn classify_afk_precedence_from_every_other_channel() {
    // Entering AFK takes precedence over Moved for every other origin.
    assert_eq!(classify(Some(ROOM_A), Some(AFK)), Transition::JoinedAfk);
    assert_eq!(classify(Some(ROOM_B), Some(AFK)), Transition::JoinedAfk);
    assert_eq!(classify(Some(GENERATOR), Some(AFK)), Transition::JoinedAfk);
}

#[test]
fn classify_left_afk() {
    assert_eq!(classify(Some(AFK), Some(ROOM_A)), Transition::LeftAfk);
    assert_eq!(classify(Some(AFK), Some(GENERATOR)), Transition::LeftAfk);
}

#[test]
fn transition_predicates() {
    let config = test_config();
    let joining =
        VoiceStateTransition::new(&config, 1, "alice".to_string(), None, Some(GENERATOR));
    assert!(joining.is_joining());
    assert!(!joining.is_leaving());
    assert!(!joining.is_moving());
    assert!(joining.is_joining_generator());
    assert!(!joining.is_joining_afk());
    assert!(!joining.is_leaving_afk());

    let moving =
        VoiceStateTransition::new(&config, 1, "alice".to_string(), Some(AFK), Some(ROOM_A));
    assert!(!moving.is_joining());
    assert!(!moving.is_leaving());
    assert!(moving.is_moving());
    assert!(moving.is_leaving_afk());
}
