//! Gameflow phases as reported by the client. Any value is accepted as an
//! opaque phase; only the ready check and the in-game phases are special.
use vstd::prelude::*;
use crate::policy::Cadence;
use crate::text::same_text;

verus! {

/// The phase held while no session is known.
pub open spec fn none_phase() -> Seq<char> {
    "None"@
}

pub open spec fn is_ready_check(p: Seq<char>) -> bool {
    p == "ReadyCheck"@
}

pub open spec fn is_in_game(p: Seq<char>) -> bool {
    p == "InGame"@ || p == "InProgress"@
}

/// The cadence that a connected session in phase `p` polls at.
pub open spec fn cadence_of(p: Seq<char>) -> Cadence {
    if is_ready_check(p) {
        Cadence::ReadyCheck
    } else if is_in_game(p) {
        Cadence::InGame
    } else {
        Cadence::Idle
    }
}

/// The text of the default, disconnected phase.
pub fn none_phase_text() -> (r: String)
    ensures
        r@ == none_phase(),
{
    "None".to_string()
}

pub fn phase_is_ready_check(phase: &str) -> (r: bool)
    ensures
        r == is_ready_check(phase@),
{
    same_text(phase, "ReadyCheck")
}

pub fn phase_is_in_game(phase: &str) -> (r: bool)
    ensures
        r == is_in_game(phase@),
{
    same_text(phase, "InGame") || same_text(phase, "InProgress")
}

/// Classifies a phase for the polling policy.
pub fn phase_cadence(phase: &str) -> (r: Cadence)
    ensures
        r == cadence_of(phase@),
{
    if phase_is_ready_check(phase) {
        Cadence::ReadyCheck
    } else if phase_is_in_game(phase) {
        Cadence::InGame
    } else {
        Cadence::Idle
    }
}

} // verus!
