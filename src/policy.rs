//! Polling cadence of the reconciliation loop: a pure function of the
//! session's phase and of the number of consecutive discovery failures.
use vstd::prelude::*;

verus! {

/// Interval between two cycles while connected and idle, in milliseconds.
pub const BASE_INTERVAL_MS: u64 = 3000;

/// Short interval used while a ready check is pending.
pub const READY_CHECK_INTERVAL_MS: u64 = 500;

/// Long interval used while a game is being played.
pub const IN_GAME_INTERVAL_MS: u64 = 10000;

/// Failures beyond this count no longer lengthen the backoff.
pub const MAX_BACKOFF_STEPS: u64 = 5;

/// Largest base interval for which the longest backoff fits in a `u64`.
pub const MAX_BASE_INTERVAL_MS: u64 = 0x1000_0000_0000;

/// What the cadence depends on: whether credentials are held, and if so
/// which kind of phase the session is in.
#[derive(Clone, Copy, Debug, PartialEq, Eq, Structural)]
pub enum Cadence {
    Disconnected,
    ReadyCheck,
    InGame,
    Idle,
}

pub open spec fn min_nat(a: nat, b: nat) -> nat {
    if a <= b { a } else { b }
}

/// The disconnected interval: the base, multiplied by one plus the number
/// of failures, the multiplier saturating at six.
pub open spec fn backoff_spec(base: nat, failures: nat) -> nat {
    base * (1 + min_nat(failures, MAX_BACKOFF_STEPS as nat))
}

pub open spec fn interval_spec(base: nat, cadence: Cadence, failures: nat) -> nat {
    match cadence {
        Cadence::Disconnected => backoff_spec(base, failures),
        Cadence::ReadyCheck => READY_CHECK_INTERVAL_MS as nat,
        Cadence::InGame => IN_GAME_INTERVAL_MS as nat,
        Cadence::Idle => base,
    }
}

/// Backoff interval after `failures` consecutive discovery failures.
pub fn backoff_interval(base_ms: u64, failures: u64) -> (r: u64)
    requires
        base_ms <= MAX_BASE_INTERVAL_MS,
    ensures
        r == backoff_spec(base_ms as nat, failures as nat),
{
    let steps: u64 = if failures <= MAX_BACKOFF_STEPS { failures } else { MAX_BACKOFF_STEPS };
    assert(base_ms * (1 + steps) <= MAX_BASE_INTERVAL_MS * 6) by (nonlinear_arith)
        requires
            base_ms <= MAX_BASE_INTERVAL_MS,
            steps <= 5,
    ;
    base_ms * (1 + steps)
}

/// The interval to sleep before the next cycle.
pub fn poll_interval(base_ms: u64, cadence: Cadence, failures: u64) -> (r: u64)
    requires
        base_ms <= MAX_BASE_INTERVAL_MS,
    ensures
        r == interval_spec(base_ms as nat, cadence, failures as nat),
{
    match cadence {
        Cadence::Disconnected => backoff_interval(base_ms, failures),
        Cadence::ReadyCheck => READY_CHECK_INTERVAL_MS,
        Cadence::InGame => IN_GAME_INTERVAL_MS,
        Cadence::Idle => base_ms,
    }
}

/// The disconnected interval never shrinks as failures accumulate, and it
/// never exceeds six times the base.
pub proof fn lemma_backoff_monotonic(base: nat, f1: nat, f2: nat)
    requires
        f1 <= f2,
    ensures
        base <= backoff_spec(base, f1),
        backoff_spec(base, f1) <= backoff_spec(base, f2),
        backoff_spec(base, f2) <= 6 * base,
        f2 >= MAX_BACKOFF_STEPS ==> backoff_spec(base, f2) == 6 * base,
{
    let m1 = min_nat(f1, MAX_BACKOFF_STEPS as nat);
    let m2 = min_nat(f2, MAX_BACKOFF_STEPS as nat);
    assert(base * (1 + m1) <= base * (1 + m2)) by (nonlinear_arith)
        requires
            m1 <= m2,
    ;
    assert(base <= base * (1 + m1)) by (nonlinear_arith);
    assert(base * (1 + m2) <= 6 * base) by (nonlinear_arith)
        requires
            m2 <= 5,
    ;
    if f2 >= MAX_BACKOFF_STEPS {
        assert(m2 == 5);
        assert(base * (1 + m2) == 6 * base) by (nonlinear_arith)
            requires
                m2 == 5,
        ;
    }
}

} // verus!
