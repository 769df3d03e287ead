//! The shared state and the reconciliation engine that keeps it in step
//! with the client's session.
//!
//! One cycle of the loop is a chain of steps. Each step takes the outcome of
//! the previous request, updates the state, and returns the notices to hand
//! to the user interface together with the next request to perform. The
//! driver performs requests (sleeping, discovery, network calls) outside the
//! state and never holds it across one.
use vstd::prelude::*;
use vstd::string::*;
use crate::client::{LcuAuthInfo, SummonerInfo};
use crate::config::AppConfig;
use crate::phase::{
    cadence_of, is_in_game, is_ready_check, none_phase, none_phase_text, phase_cadence,
    phase_is_in_game, phase_is_ready_check,
};
use crate::policy::{
    backoff_interval, backoff_spec, interval_spec, poll_interval, BASE_INTERVAL_MS,
    MAX_BASE_INTERVAL_MS,
};
use crate::text::same_text;

verus! {

/// The loop's cadence: the base interval, the interval before the next
/// cycle, and the number of consecutive failed discoveries.
#[derive(Clone, Copy, Debug, PartialEq, Eq, Structural)]
pub struct PollingPolicy {
    pub base_interval_ms: u64,
    pub current_interval_ms: u64,
    pub consecutive_failures: u64,
}

/// What the driver is to do next.
#[derive(Debug)]
pub enum Request {
    /// Sleep this many milliseconds, then call `wake`.
    Sleep(u64),
    /// Leave the loop.
    Stop,
    /// Probe the cached credentials, then call `on_validated`.
    Validate(LcuAuthInfo),
    /// Look for the client's process, then call `on_discovered`.
    Discover,
    /// Fetch the player, then call `on_summoner`.
    FetchSummoner(LcuAuthInfo),
    /// Fetch the gameflow phase, then call `on_phase`.
    FetchPhase(LcuAuthInfo),
    /// Accept the ready check, then call `on_accepted`.
    AcceptMatch(LcuAuthInfo),
}

/// A notification for the user interface.
#[derive(Debug)]
pub enum Notice {
    ConnectionChanged(bool),
    SummonerUpdated(SummonerInfo),
    GameflowChanged(String),
    MatchAccepted(String),
    HideWindow,
    ShowWindow,
}

/// The outcome of one step.
pub struct Step {
    pub notices: Vec<Notice>,
    pub next: Request,
}

/// Everything the user interface reads and the loop maintains.
pub struct AppState {
    pub mouse_through: bool,
    pub auto_accept: bool,
    pub auto_hide: bool,
    pub lcu_auth: Option<LcuAuthInfo>,
    pub gameflow_phase: String,
    pub summoner_info: Option<SummonerInfo>,
    pub is_running: bool,
    pub config: AppConfig,
    pub polling: PollingPolicy,
    /// The last player snapshot fetched, kept across failed fetches so that
    /// only real changes are announced.
    pub previous_summoner: Option<SummonerInfo>,
    /// Whether credentials were held when the current cycle began.
    pub connected_at_wake: bool,
}

pub open spec fn saturating_inc(n: u64) -> u64 {
    if n < u64::MAX { (n + 1) as u64 } else { n }
}

/// The cadence after credentials were found valid.
pub open spec fn reset_polling(p: PollingPolicy) -> PollingPolicy {
    PollingPolicy {
        base_interval_ms: p.base_interval_ms,
        current_interval_ms: p.base_interval_ms,
        consecutive_failures: 0,
    }
}

/// The cadence after one more failed discovery.
pub open spec fn failed_polling(p: PollingPolicy) -> PollingPolicy {
    PollingPolicy {
        base_interval_ms: p.base_interval_ms,
        current_interval_ms: backoff_spec(
            p.base_interval_ms as nat,
            saturating_inc(p.consecutive_failures) as nat,
        ) as u64,
        consecutive_failures: saturating_inc(p.consecutive_failures),
    }
}

/// The cadence for a connected session in phase `phase`.
pub open spec fn connected_polling(p: PollingPolicy, phase: Seq<char>) -> PollingPolicy {
    PollingPolicy {
        current_interval_ms: interval_spec(
            p.base_interval_ms as nat,
            cadence_of(phase),
            p.consecutive_failures as nat,
        ) as u64,
        ..p
    }
}

/// Window notices for a move from phase `old` to phase `new`: hide when a
/// game begins, show when it ends, and only with automatic hiding on.
pub open spec fn window_notices(old: Seq<char>, new: Seq<char>, auto_hide: bool) -> Seq<Notice> {
    if auto_hide && !is_in_game(old) && is_in_game(new) {
        seq![Notice::HideWindow]
    } else if auto_hide && is_in_game(old) && !is_in_game(new) {
        seq![Notice::ShowWindow]
    } else {
        seq![]
    }
}

/// Window visibility after a move from phase `old` to phase `new`.
pub open spec fn visible_after(visible: bool, old: Seq<char>, new: Seq<char>, auto_hide: bool) -> bool {
    if auto_hide && !is_in_game(old) && is_in_game(new) {
        false
    } else if auto_hide && is_in_game(old) && !is_in_game(new) {
        true
    } else {
        visible
    }
}

/// Whether a fetched player is worth announcing: the first one, or one
/// whose name or level differs from the previous one.
pub open spec fn summoner_differs(prev: Option<SummonerInfo>, s: SummonerInfo) -> bool {
    match prev {
        Some(p) => p.display_name@ != s.display_name@ || p.summoner_level != s.summoner_level,
        None => true,
    }
}

/// The request that follows valid credentials: the player when it is not
/// known, else the phase.
pub open spec fn fetch_after_credentials(s: AppState, c: LcuAuthInfo) -> Request {
    if s.summoner_info is None {
        Request::FetchSummoner(c)
    } else {
        Request::FetchPhase(c)
    }
}

pub open spec fn accepted_message() -> Seq<char> {
    "匹配已自动接受"@
}

impl AppState {
    pub open spec fn wf(&self) -> bool {
        &&& self.polling.base_interval_ms <= MAX_BASE_INTERVAL_MS
        &&& self.mouse_through == self.config.mouse_through
        &&& self.auto_accept == self.config.auto_accept
        &&& self.auto_hide == self.config.auto_hide
    }

    /// The state at start-up: the toggles from the loaded settings, no
    /// session known, the loop running at the base cadence.
    pub fn new(config: AppConfig) -> (r: AppState)
        ensures
            r.wf(),
            r.mouse_through == config.mouse_through,
            r.auto_accept == config.auto_accept,
            r.auto_hide == config.auto_hide,
            r.config == config,
            r.lcu_auth is None,
            r.gameflow_phase@ == none_phase(),
            r.summoner_info is None,
            r.is_running,
            r.polling == (PollingPolicy {
                base_interval_ms: BASE_INTERVAL_MS,
                current_interval_ms: BASE_INTERVAL_MS,
                consecutive_failures: 0,
            }),
            r.previous_summoner is None,
            !r.connected_at_wake,
    {
        AppState {
            mouse_through: config.mouse_through,
            auto_accept: config.auto_accept,
            auto_hide: config.auto_hide,
            lcu_auth: None,
            gameflow_phase: none_phase_text(),
            summoner_info: None,
            is_running: true,
            config,
            polling: PollingPolicy {
                base_interval_ms: BASE_INTERVAL_MS,
                current_interval_ms: BASE_INTERVAL_MS,
                consecutive_failures: 0,
            },
            previous_summoner: None,
            connected_at_wake: false,
        }
    }

    /// Whether credentials are held.
    pub fn is_connected(&self) -> (r: bool)
        ensures
            r == self.lcu_auth is Some,
    {
        self.lcu_auth.is_some()
    }

    fn held_credentials(&self) -> (r: LcuAuthInfo)
        requires
            self.lcu_auth is Some,
        ensures
            r == self.lcu_auth->0,
    {
        match &self.lcu_auth {
            Some(c) => c.duplicate(),
            None => {
                proof {
                    assert(false);
                }
                LcuAuthInfo { port: String::new(), token: String::new(), is_connected: false }
            },
        }
    }

    fn request_after_credentials(&self, c: LcuAuthInfo) -> (r: Request)
        ensures
            r == fetch_after_credentials(*self, c),
    {
        if self.summoner_info.is_none() {
            Request::FetchSummoner(c)
        } else {
            Request::FetchPhase(c)
        }
    }

    /// Begins a cycle after the sleep: stops when shutdown was requested,
    /// else probes the cached credentials or looks for new ones.
    pub fn wake(&mut self) -> (r: Step)
        requires
            old(self).wf(),
        ensures
            final(self).wf(),
            r.notices@.len() == 0,
            !old(self).is_running ==> r.next == Request::Stop && *final(self) == *old(self),
            old(self).is_running ==> *final(self) == (AppState {
                connected_at_wake: old(self).lcu_auth is Some,
                ..*old(self)
            }),
            old(self).is_running ==> r.next == match old(self).lcu_auth {
                Some(c) => Request::Validate(c),
                None => Request::Discover,
            },
    {
        let notices: Vec<Notice> = Vec::new();
        if !self.is_running {
            return Step { notices, next: Request::Stop };
        }
        self.connected_at_wake = self.lcu_auth.is_some();
        if self.lcu_auth.is_some() {
            let c = self.held_credentials();
            Step { notices, next: Request::Validate(c) }
        } else {
            Step { notices, next: Request::Discover }
        }
    }

    /// Takes the outcome of probing the cached credentials. Valid ones reset
    /// the cadence; rejected ones are dropped and discovery follows.
    pub fn on_validated(&mut self, valid: bool) -> (r: Step)
        requires
            old(self).wf(),
            old(self).lcu_auth is Some,
        ensures
            final(self).wf(),
            r.notices@.len() == 0,
            valid ==> *final(self) == (AppState { polling: reset_polling(old(self).polling), ..*old(self) }),
            valid ==> r.next == fetch_after_credentials(*old(self), old(self).lcu_auth->0),
            !valid ==> *final(self) == (AppState { lcu_auth: None, ..*old(self) }),
            !valid ==> r.next == Request::Discover,
    {
        let notices: Vec<Notice> = Vec::new();
        if valid {
            let c = self.held_credentials();
            self.polling.consecutive_failures = 0;
            self.polling.current_interval_ms = self.polling.base_interval_ms;
            let next = self.request_after_credentials(c);
            Step { notices, next }
        } else {
            self.lcu_auth = None;
            Step { notices, next: Request::Discover }
        }
    }

    /// Moves to phase `new`, hiding or showing the window as automatic
    /// hiding asks.
    fn move_to_phase(&mut self, new: String, notices: &mut Vec<Notice>)
        requires
            old(self).wf(),
        ensures
            final(self).wf(),
            phase_moved(*old(self), *final(self), new@),
            final(self).lcu_auth == old(self).lcu_auth,
            final(self).summoner_info == old(self).summoner_info,
            final(self).polling == old(self).polling,
            final(notices)@ == old(notices)@ + window_notices(
                old(self).gameflow_phase@,
                new@,
                old(self).auto_hide,
            ),
    {
        let was_in_game = phase_is_in_game(self.gameflow_phase.as_str());
        let now_in_game = phase_is_in_game(new.as_str());
        if self.auto_hide && !was_in_game && now_in_game {
            notices.push(Notice::HideWindow);
            self.config.window_visible = false;
        } else if self.auto_hide && was_in_game && !now_in_game {
            notices.push(Notice::ShowWindow);
            self.config.window_visible = true;
        }
        self.gameflow_phase = new;
    }

    /// Takes the outcome of discovery. Found credentials are cached and
    /// reset the cadence; when none are found the session is cleared and
    /// the loop backs off.
    pub fn on_discovered(&mut self, found: Option<LcuAuthInfo>) -> (r: Step)
        requires
            old(self).wf(),
        ensures
            final(self).wf(),
            match found {
                Some(c) => {
                    &&& *final(self) == (AppState {
                        lcu_auth: Some(c),
                        polling: reset_polling(old(self).polling),
                        ..*old(self)
                    })
                    &&& r.notices@ == if old(self).connected_at_wake {
                        Seq::<Notice>::empty()
                    } else {
                        seq![Notice::ConnectionChanged(true)]
                    }
                    &&& r.next == fetch_after_credentials(*old(self), c)
                },
                None => {
                    &&& phase_moved(*old(self), *final(self), none_phase())
                    &&& final(self).lcu_auth is None
                    &&& final(self).summoner_info is None
                    &&& final(self).polling == failed_polling(old(self).polling)
                    &&& r.notices@ == (if old(self).connected_at_wake {
                        seq![Notice::ConnectionChanged(false)]
                    } else {
                        Seq::<Notice>::empty()
                    }) + window_notices(old(self).gameflow_phase@, none_phase(), old(self).auto_hide)
                    &&& r.next == Request::Sleep(final(self).polling.current_interval_ms)
                },
            },
    {
        let mut notices: Vec<Notice> = Vec::new();
        match found {
            Some(c) => {
                if !self.connected_at_wake {
                    notices.push(Notice::ConnectionChanged(true));
                }
                let next = self.request_after_credentials(c.duplicate());
                self.lcu_auth = Some(c);
                self.polling.consecutive_failures = 0;
                self.polling.current_interval_ms = self.polling.base_interval_ms;
                Step { notices, next }
            },
            None => {
                if self.connected_at_wake {
                    notices.push(Notice::ConnectionChanged(false));
                }
                let failures: u64 = if self.polling.consecutive_failures < u64::MAX {
                    self.polling.consecutive_failures + 1
                } else {
                    self.polling.consecutive_failures
                };
                let interval = backoff_interval(self.polling.base_interval_ms, failures);
                self.polling.consecutive_failures = failures;
                self.polling.current_interval_ms = interval;
                self.lcu_auth = None;
                self.summoner_info = None;
                self.move_to_phase(none_phase_text(), &mut notices);
                Step { notices, next: Request::Sleep(interval) }
            },
        }
    }

    /// Takes the outcome of fetching the player. A fetched player is stored
    /// and announced when its name or level changed; a failed fetch leaves
    /// the player unknown.
    pub fn on_summoner(&mut self, fetched: Option<SummonerInfo>) -> (r: Step)
        requires
            old(self).wf(),
            old(self).lcu_auth is Some,
        ensures
            final(self).wf(),
            r.next == Request::FetchPhase(old(self).lcu_auth->0),
            match fetched {
                Some(s) => {
                    &&& *final(self) == (AppState {
                        summoner_info: Some(s),
                        previous_summoner: Some(s),
                        ..*old(self)
                    })
                    &&& r.notices@ == if summoner_differs(old(self).previous_summoner, s) {
                        seq![Notice::SummonerUpdated(s)]
                    } else {
                        Seq::<Notice>::empty()
                    }
                },
                None => {
                    &&& *final(self) == (AppState { summoner_info: None, ..*old(self) })
                    &&& r.notices@.len() == 0
                },
            },
    {
        let mut notices: Vec<Notice> = Vec::new();
        let c = self.held_credentials();
        match fetched {
            Some(s) => {
                let differs = match &self.previous_summoner {
                    Some(p) => !same_text(p.display_name.as_str(), s.display_name.as_str())
                        || p.summoner_level != s.summoner_level,
                    None => true,
                };
                if differs {
                    notices.push(Notice::SummonerUpdated(s.duplicate()));
                }
                self.previous_summoner = Some(s.duplicate());
                self.summoner_info = Some(s);
            },
            None => {
                self.summoner_info = None;
            },
        }
        Step { notices, next: Request::FetchPhase(c) }
    }

    /// Takes the outcome of fetching the phase. A new phase is stored and
    /// announced, with the window hidden or shown on entering or leaving a
    /// game; a failed fetch resets the phase. The cadence follows the phase,
    /// and a ready check is accepted when automatic acceptance is on, on
    /// every cycle that finds it.
    pub fn on_phase(&mut self, fetched: Option<String>) -> (r: Step)
        requires
            old(self).wf(),
            old(self).lcu_auth is Some,
        ensures
            final(self).wf(),
            final(self).lcu_auth == old(self).lcu_auth,
            final(self).summoner_info == old(self).summoner_info,
            match fetched {
                Some(p) => {
                    &&& phase_moved(*old(self), *final(self), p@)
                    &&& final(self).polling == connected_polling(old(self).polling, p@)
                    &&& r.notices@ == phase_notices(old(self).gameflow_phase@, p, old(self).auto_hide)
                    &&& r.next == if is_ready_check(p@) && old(self).auto_accept {
                        Request::AcceptMatch(old(self).lcu_auth->0)
                    } else {
                        Request::Sleep(final(self).polling.current_interval_ms)
                    }
                },
                None => {
                    &&& phase_moved(*old(self), *final(self), none_phase())
                    &&& final(self).polling == connected_polling(old(self).polling, none_phase())
                    &&& r.notices@ == window_notices(
                        old(self).gameflow_phase@,
                        none_phase(),
                        old(self).auto_hide,
                    )
                    &&& r.next == Request::Sleep(final(self).polling.current_interval_ms)
                },
            },
    {
        let mut notices: Vec<Notice> = Vec::new();
        let c = self.held_credentials();
        let mut ready = false;
        match fetched {
            Some(p) => {
                ready = phase_is_ready_check(p.as_str());
                if !same_text(p.as_str(), self.gameflow_phase.as_str()) {
                    notices.push(Notice::GameflowChanged(p.clone()));
                    self.move_to_phase(p, &mut notices);
                }
            },
            None => {
                self.move_to_phase(none_phase_text(), &mut notices);
            },
        }
        let cadence = phase_cadence(self.gameflow_phase.as_str());
        let interval = poll_interval(
            self.polling.base_interval_ms,
            cadence,
            self.polling.consecutive_failures,
        );
        self.polling.current_interval_ms = interval;
        if ready && self.auto_accept {
            Step { notices, next: Request::AcceptMatch(c) }
        } else {
            Step { notices, next: Request::Sleep(interval) }
        }
    }

    /// Takes the outcome of accepting a ready check. Success is announced;
    /// failure is not escalated.
    pub fn on_accepted(&mut self, accepted: bool) -> (r: Step)
        requires
            old(self).wf(),
        ensures
            *final(self) == *old(self),
            r.next == Request::Sleep(old(self).polling.current_interval_ms),
            accepted ==> r.notices@.len() == 1 && r.notices@[0] is MatchAccepted
                && r.notices@[0]->MatchAccepted_0@ == accepted_message(),
            !accepted ==> r.notices@.len() == 0,
    {
        let mut notices: Vec<Notice> = Vec::new();
        if accepted {
            notices.push(Notice::MatchAccepted(String::from_str("匹配已自动接受")));
        }
        Step { notices, next: Request::Sleep(self.polling.current_interval_ms) }
    }
}

/// `b` is `a` moved to phase `new`: the window follows automatic hiding and
/// the settings and session bookkeeping are kept.
pub open spec fn phase_moved(a: AppState, b: AppState, new: Seq<char>) -> bool {
    &&& b.gameflow_phase@ == new
    &&& b.config == (AppConfig {
        window_visible: visible_after(a.config.window_visible, a.gameflow_phase@, new, a.auto_hide),
        ..a.config
    })
    &&& b.mouse_through == a.mouse_through
    &&& b.auto_accept == a.auto_accept
    &&& b.auto_hide == a.auto_hide
    &&& b.is_running == a.is_running
    &&& b.previous_summoner == a.previous_summoner
    &&& b.connected_at_wake == a.connected_at_wake
}

/// Notices for a fetched phase `p` while `old` is held: the change and its
/// window notices when the phase differs, nothing when it is the same.
pub open spec fn phase_notices(old: Seq<char>, p: String, auto_hide: bool) -> Seq<Notice> {
    if p@ != old {
        seq![Notice::GameflowChanged(p)] + window_notices(old, p@, auto_hide)
    } else {
        Seq::<Notice>::empty()
    }
}

/// The number of phase-change notices in `ns`.
pub open spec fn gameflow_count(ns: Seq<Notice>) -> nat
    decreases ns.len(),
{
    if ns.len() == 0 {
        0
    } else {
        gameflow_count(ns.drop_last()) + if ns.last() is GameflowChanged {
            1nat
        } else {
            0nat
        }
    }
}

/// Feeding the same phase on two consecutive cycles announces it at most
/// once: the first cycle may announce it, the second announces nothing.
pub proof fn lemma_repeated_phase_announced_once(old: Seq<char>, p: String, auto_hide: bool)
    ensures
        phase_notices(p@, p, auto_hide) == Seq::<Notice>::empty(),
        gameflow_count(phase_notices(old, p, auto_hide)) + gameflow_count(
            phase_notices(p@, p, auto_hide),
        ) <= 1,
{
    let ns = phase_notices(old, p, auto_hide);
    assert(gameflow_count(Seq::<Notice>::empty()) == 0);
    if p@ != old {
        let w = window_notices(old, p@, auto_hide);
        let head = seq![Notice::GameflowChanged(p)];
        assert(head.drop_last() =~= Seq::<Notice>::empty());
        assert(gameflow_count(head) == 1);
        if w.len() == 1 {
            assert((head + w).drop_last() =~= head);
            assert(!((head + w).last() is GameflowChanged));
        } else {
            assert(head + w =~= head);
        }
    }
}

/// Entering a game hides the window at most once, leaving it shows the
/// window at most once, and staying in a game, or out of one, does neither.
pub proof fn lemma_window_follows_game(old: Seq<char>, new: Seq<char>, auto_hide: bool)
    ensures
        window_notices(old, new, auto_hide).len() <= 1,
        is_in_game(old) == is_in_game(new) ==> window_notices(old, new, auto_hide).len() == 0,
        !is_in_game(old) && is_in_game(new) ==> window_notices(old, new, auto_hide) == if auto_hide {
            seq![Notice::HideWindow]
        } else {
            Seq::<Notice>::empty()
        },
        is_in_game(old) && !is_in_game(new) ==> window_notices(old, new, auto_hide) == if auto_hide {
            seq![Notice::ShowWindow]
        } else {
            Seq::<Notice>::empty()
        },
{
}

/// A fetched player whose name and level match the previous one is not
/// announced, whatever its icon or experience.
pub proof fn lemma_same_name_and_level_is_silent(prev: SummonerInfo, s: SummonerInfo)
    requires
        prev.display_name@ == s.display_name@,
        prev.summoner_level == s.summoner_level,
    ensures
        !summoner_differs(Some(prev), s),
{
}

/// The cadence after `n` more failed discoveries.
pub open spec fn after_failures(p: PollingPolicy, n: nat) -> PollingPolicy
    decreases n,
{
    if n == 0 {
        p
    } else {
        failed_polling(after_failures(p, (n - 1) as nat))
    }
}

proof fn lemma_failure_count_grows(p: PollingPolicy, m: nat, n: nat)
    requires
        m <= n,
    ensures
        after_failures(p, m).consecutive_failures <= after_failures(p, n).consecutive_failures,
        after_failures(p, n).base_interval_ms == p.base_interval_ms,
    decreases n,
{
    if n > 0 {
        if m < n {
            lemma_failure_count_grows(p, m, (n - 1) as nat);
        }
        lemma_failure_count_grows(p, (n - 1) as nat, (n - 1) as nat);
    }
}

/// Over any run of failed discoveries the interval never shrinks and never
/// exceeds six times the base; the next valid credentials bring it back to
/// the base.
pub proof fn lemma_backoff_over_failures(p: PollingPolicy, m: nat, n: nat)
    requires
        p.base_interval_ms <= MAX_BASE_INTERVAL_MS,
        1 <= m <= n,
    ensures
        p.base_interval_ms <= after_failures(p, m).current_interval_ms,
        after_failures(p, m).current_interval_ms <= after_failures(p, n).current_interval_ms,
        after_failures(p, n).current_interval_ms <= 6 * p.base_interval_ms,
        reset_polling(after_failures(p, n)).current_interval_ms == p.base_interval_ms,
        reset_polling(after_failures(p, n)).consecutive_failures == 0,
{
    let base = p.base_interval_ms as nat;
    let pm = after_failures(p, (m - 1) as nat);
    let pn = after_failures(p, (n - 1) as nat);
    lemma_failure_count_grows(p, (m - 1) as nat, (n - 1) as nat);
    lemma_failure_count_grows(p, (n - 1) as nat, (n - 1) as nat);
    lemma_failure_count_grows(p, m, m);
    lemma_failure_count_grows(p, n, n);
    let fm = saturating_inc(pm.consecutive_failures) as nat;
    let fn_ = saturating_inc(pn.consecutive_failures) as nat;
    assert(fm <= fn_);
    crate::policy::lemma_backoff_monotonic(base, fm, fn_);
    assert(6 * base <= 6 * MAX_BASE_INTERVAL_MS);
}

} // verus!
