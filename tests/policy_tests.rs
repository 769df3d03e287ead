use micept::phase::{none_phase_text, phase_cadence, phase_is_in_game, phase_is_ready_check};
use micept::policy::{backoff_interval, poll_interval, Cadence, BASE_INTERVAL_MS};
use micept::text::{contains_text, same_text, starts_with_text, strip_prefix_text};

#[test]
fn backoff_grows_linearly_and_saturates() {
    assert_eq!(backoff_interval(3000, 0), 3000);
    assert_eq!(backoff_interval(3000, 1), 6000);
    assert_eq!(backoff_interval(3000, 2), 9000);
    assert_eq!(backoff_interval(3000, 5), 18000);
    assert_eq!(backoff_interval(3000, 6), 18000);
    assert_eq!(backoff_interval(3000, u64::MAX), 18000);
}

#[test]
fn backoff_is_non_decreasing_up_to_six_times_base() {
    let mut prev = 0u64;
    for f in 0..20u64 {
        let cur = backoff_interval(BASE_INTERVAL_MS, f);
        assert!(cur >= prev);
        assert!(cur <= 6 * BASE_INTERVAL_MS);
        prev = cur;
    }
}

#[test]
fn poll_interval_by_cadence() {
    assert_eq!(poll_interval(3000, Cadence::Idle, 0), 3000);
    assert_eq!(poll_interval(3000, Cadence::ReadyCheck, 4), 500);
    assert_eq!(poll_interval(3000, Cadence::InGame, 4), 10000);
    assert_eq!(poll_interval(3000, Cadence::Disconnected, 3), 12000);
}

#[test]
fn phase_classification() {
    assert!(phase_is_ready_check("ReadyCheck"));
    assert!(!phase_is_ready_check("readycheck"));
    assert!(phase_is_in_game("InGame"));
    assert!(phase_is_in_game("InProgress"));
    assert!(!phase_is_in_game("EndOfGame"));
    assert_eq!(phase_cadence("ReadyCheck"), Cadence::ReadyCheck);
    assert_eq!(phase_cadence("InProgress"), Cadence::InGame);
    assert_eq!(phase_cadence("Lobby"), Cadence::Idle);
    assert_eq!(phase_cadence("SomeFuturePhase"), Cadence::Idle);
    assert_eq!(none_phase_text(), "None");
}

#[test]
fn text_helpers() {
    assert!(same_text("abc", "abc"));
    assert!(!same_text("abc", "abd"));
    assert!(!same_text("abc", "ab"));
    assert!(same_text("", ""));
    assert!(starts_with_text("--app-port=123", "--app-port="));
    assert!(!starts_with_text("--app", "--app-port="));
    assert!(contains_text("LeagueClientUx.exe", "LeagueClientUx"));
    assert!(contains_text("/opt/LeagueClientUx", "LeagueClientUx"));
    assert!(!contains_text("LeagueClient", "LeagueClientUx"));
    assert!(contains_text("x", ""));
    assert_eq!(strip_prefix_text("--app-port=123", "--app-port="), Some("123".to_string()));
    assert_eq!(strip_prefix_text("--app-port=", "--app-port="), Some(String::new()));
    assert_eq!(strip_prefix_text("port=1", "--app-port="), None);
    assert_eq!(strip_prefix_text("--appé-port", "--app"), Some("é-port".to_string()));
}
