use micept::client::{LcuAuthInfo, SummonerInfo};
use micept::config::AppConfig;
use micept::state::{AppState, Notice, Request};

fn creds() -> LcuAuthInfo {
    LcuAuthInfo { port: "54321".to_string(), token: "tok".to_string(), is_connected: true }
}

fn player(name: &str, level: u32, icon: u32) -> SummonerInfo {
    SummonerInfo {
        display_name: name.to_string(),
        summoner_level: level,
        profile_icon_id: icon,
        xp_since_last_level: 1,
        xp_until_next_level: 2,
    }
}

fn state(auto_accept: bool, auto_hide: bool) -> AppState {
    let mut cfg = AppConfig::default();
    cfg.auto_accept = auto_accept;
    cfg.auto_hide = auto_hide;
    AppState::new(cfg)
}

/// What the outside world answers during one cycle.
struct World {
    client_running: bool,
    summoner: Option<SummonerInfo>,
    phase: Option<String>,
    accept_ok: bool,
}

#[derive(Default)]
struct Trace {
    notices: Vec<Notice>,
    accepts: usize,
    validations: usize,
    discoveries: usize,
    summoner_fetches: usize,
    slept: Option<u64>,
    stopped: bool,
}

/// Runs one full cycle: wake, then answer requests until the next sleep.
fn cycle(st: &mut AppState, w: &World) -> Trace {
    let mut t = Trace::default();
    let mut step = st.wake();
    loop {
        t.notices.extend(step.notices);
        step = match step.next {
            Request::Sleep(ms) => {
                t.slept = Some(ms);
                return t;
            }
            Request::Stop => {
                t.stopped = true;
                return t;
            }
            Request::Validate(_) => {
                t.validations += 1;
                st.on_validated(w.client_running)
            }
            Request::Discover => {
                t.discoveries += 1;
                st.on_discovered(if w.client_running { Some(creds()) } else { None })
            }
            Request::FetchSummoner(_) => {
                t.summoner_fetches += 1;
                st.on_summoner(w.summoner.clone())
            }
            Request::FetchPhase(_) => st.on_phase(w.phase.clone()),
            Request::AcceptMatch(_) => {
                t.accepts += 1;
                st.on_accepted(w.accept_ok)
            }
        };
    }
}

fn in_phase(p: &str) -> World {
    World {
        client_running: true,
        summoner: Some(player("A#1", 30, 1)),
        phase: Some(p.to_string()),
        accept_ok: true,
    }
}

fn offline() -> World {
    World { client_running: false, summoner: None, phase: None, accept_ok: false }
}

fn gameflow_events(ns: &[Notice]) -> Vec<String> {
    ns.iter()
        .filter_map(|n| match n {
            Notice::GameflowChanged(p) => Some(p.clone()),
            _ => None,
        })
        .collect()
}

fn count(ns: &[Notice], f: fn(&Notice) -> bool) -> usize {
    ns.iter().filter(|n| f(n)).count()
}

#[test]
fn new_state_starts_disconnected() {
    let st = state(true, false);
    assert!(st.lcu_auth.is_none());
    assert_eq!(st.gameflow_phase, "None");
    assert!(st.summoner_info.is_none());
    assert!(st.is_running);
    assert_eq!(st.polling.current_interval_ms, 3000);
    assert!(!st.is_connected());
}

#[test]
fn backoff_then_reset_on_discovery() {
    let mut st = state(true, false);
    let expected = [6000u64, 9000, 12000, 15000, 18000, 18000, 18000];
    let mut prev = 0u64;
    for e in expected {
        let t = cycle(&mut st, &offline());
        assert_eq!(t.slept, Some(e));
        assert!(e >= prev);
        prev = e;
    }
    assert_eq!(st.polling.consecutive_failures, 7);
    let t = cycle(&mut st, &in_phase("Lobby"));
    assert_eq!(st.polling.consecutive_failures, 0);
    assert_eq!(t.slept, Some(3000));
}

#[test]
fn repeated_phase_announced_once() {
    let mut st = state(false, false);
    let mut all = Vec::new();
    for p in ["Lobby", "Lobby", "ReadyCheck"] {
        let t = cycle(&mut st, &in_phase(p));
        all.extend(t.notices);
    }
    let events = gameflow_events(&all);
    assert_eq!(events, vec!["Lobby".to_string(), "ReadyCheck".to_string()]);
    assert_eq!(events.iter().filter(|p| p.as_str() == "ReadyCheck").count(), 1);
}

#[test]
fn in_game_hides_once_and_shows_once() {
    let mut st = state(false, true);
    cycle(&mut st, &in_phase("ChampSelect"));
    let hide = |n: &Notice| matches!(n, Notice::HideWindow);
    let show = |n: &Notice| matches!(n, Notice::ShowWindow);
    let t = cycle(&mut st, &in_phase("InGame"));
    assert_eq!(count(&t.notices, hide), 1);
    assert_eq!(count(&t.notices, show), 0);
    assert!(!st.config.window_visible);
    assert_eq!(t.slept, Some(10000));
    for _ in 0..3 {
        let t = cycle(&mut st, &in_phase("InGame"));
        assert_eq!(count(&t.notices, hide), 0);
        assert_eq!(count(&t.notices, show), 0);
    }
    let t = cycle(&mut st, &in_phase("EndOfGame"));
    assert_eq!(count(&t.notices, hide), 0);
    assert_eq!(count(&t.notices, show), 1);
    assert!(st.config.window_visible);
}

#[test]
fn in_game_without_auto_hide_leaves_window() {
    let mut st = state(false, false);
    cycle(&mut st, &in_phase("Lobby"));
    let t = cycle(&mut st, &in_phase("InProgress"));
    assert!(t.notices.iter().all(|n| !matches!(n, Notice::HideWindow | Notice::ShowWindow)));
    assert!(st.config.window_visible);
}

#[test]
fn ready_check_accepted_every_cycle() {
    let mut st = state(true, false);
    let mut accepts = 0;
    let mut accepted_notices = 0;
    for _ in 0..3 {
        let t = cycle(&mut st, &in_phase("ReadyCheck"));
        accepts += t.accepts;
        accepted_notices += count(&t.notices, |n| matches!(n, Notice::MatchAccepted(m) if m == "匹配已自动接受"));
        assert_eq!(t.slept, Some(500));
    }
    assert_eq!(accepts, 3);
    assert_eq!(accepted_notices, 3);
}

#[test]
fn ready_check_not_accepted_when_disabled() {
    let mut st = state(false, false);
    for _ in 0..3 {
        let t = cycle(&mut st, &in_phase("ReadyCheck"));
        assert_eq!(t.accepts, 0);
    }
}

#[test]
fn failed_accept_is_not_announced() {
    let mut st = state(true, false);
    let mut w = in_phase("ReadyCheck");
    w.accept_ok = false;
    let t = cycle(&mut st, &w);
    assert_eq!(t.accepts, 1);
    assert_eq!(count(&t.notices, |n| matches!(n, Notice::MatchAccepted(_))), 0);
}

#[test]
fn icon_change_alone_is_not_announced() {
    let mut st = state(false, false);
    let updated = |n: &Notice| matches!(n, Notice::SummonerUpdated(_));
    let mut w = in_phase("Lobby");
    w.summoner = Some(player("A#1", 30, 1));
    let t = cycle(&mut st, &w);
    assert_eq!(count(&t.notices, updated), 1);
    cycle(&mut st, &offline());
    assert!(st.summoner_info.is_none());
    w.summoner = Some(player("A#1", 30, 99));
    let t = cycle(&mut st, &w);
    assert_eq!(t.summoner_fetches, 1);
    assert_eq!(count(&t.notices, updated), 0);
    assert_eq!(st.summoner_info.as_ref().unwrap().profile_icon_id, 99);
    cycle(&mut st, &offline());
    w.summoner = Some(player("A#1", 31, 99));
    let t = cycle(&mut st, &w);
    assert_eq!(count(&t.notices, updated), 1);
}

#[test]
fn failed_summoner_fetch_leaves_player_unknown() {
    let mut st = state(false, false);
    let mut w = in_phase("Lobby");
    w.summoner = None;
    let t = cycle(&mut st, &w);
    assert_eq!(t.summoner_fetches, 1);
    assert!(st.summoner_info.is_none());
    assert!(t.notices.iter().all(|n| !matches!(n, Notice::SummonerUpdated(_))));
    let t = cycle(&mut st, &in_phase("Lobby"));
    assert_eq!(t.summoner_fetches, 1);
    assert!(st.summoner_info.is_some());
}

#[test]
fn summoner_fetched_only_when_unknown() {
    let mut st = state(false, false);
    let t = cycle(&mut st, &in_phase("Lobby"));
    assert_eq!(t.summoner_fetches, 1);
    let t = cycle(&mut st, &in_phase("Lobby"));
    assert_eq!(t.summoner_fetches, 0);
    assert_eq!(t.validations, 1);
}

#[test]
fn connectivity_announced_on_change_only() {
    let mut st = state(false, false);
    let conn = |n: &Notice| matches!(n, Notice::ConnectionChanged(true));
    let lost = |n: &Notice| matches!(n, Notice::ConnectionChanged(false));
    let t = cycle(&mut st, &offline());
    assert_eq!(count(&t.notices, lost), 0);
    let t = cycle(&mut st, &in_phase("Lobby"));
    assert_eq!(count(&t.notices, conn), 1);
    assert!(st.is_connected());
    let t = cycle(&mut st, &in_phase("Lobby"));
    assert_eq!(count(&t.notices, conn), 0);
    let t = cycle(&mut st, &offline());
    assert_eq!(count(&t.notices, lost), 1);
    assert_eq!(t.validations, 1);
    assert_eq!(t.discoveries, 1);
    assert!(st.lcu_auth.is_none());
    assert!(st.summoner_info.is_none());
    assert_eq!(st.gameflow_phase, "None");
    let t = cycle(&mut st, &offline());
    assert_eq!(count(&t.notices, lost), 0);
}

#[test]
fn phase_fetch_failure_resets_phase_but_keeps_credentials() {
    let mut st = state(false, true);
    cycle(&mut st, &in_phase("InGame"));
    assert!(!st.config.window_visible);
    let mut w = in_phase("InGame");
    w.phase = None;
    let t = cycle(&mut st, &w);
    assert_eq!(st.gameflow_phase, "None");
    assert!(st.is_connected());
    assert_eq!(count(&t.notices, |n| matches!(n, Notice::ShowWindow)), 1);
    assert_eq!(t.slept, Some(3000));
}

#[test]
fn stop_ends_the_loop() {
    let mut st = state(false, false);
    st.request_stop();
    let t = cycle(&mut st, &in_phase("Lobby"));
    assert!(t.stopped);
    assert_eq!(t.discoveries, 0);
}
