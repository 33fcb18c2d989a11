//! Five-phase finite state machine of the learning process.
//!
//! ```text
//! Discover -> Extract -> Practice -> Assess -> Master
//!    ^           |           |           |        |
//!    +-----------+-----------+-----------+--------+  (backward to Discover)
//! ```
//! - Forward: any phase to its immediate next.
//! - Backward: any phase can return to Discover.
//! - Skipping forward and staying in place are not transitions.

use vstd::prelude::*;

use crate::error::EduError;
use crate::types::{master_ordinal, LearningPhase};

verus! {

/// Record of a phase transition; `T` is the type of its timestamp
/// (epoch seconds in the caller's representation).
#[derive(Debug, Clone, PartialEq)]
pub struct PhaseTransition<T> {
    /// Source phase.
    pub from: LearningPhase,
    /// Target phase.
    pub to: LearningPhase,
    /// Human-readable reason for the transition.
    pub reason: String,
    /// When the transition occurred.
    pub timestamp: T,
}

/// The transition rule: forward to the immediate next phase, or back to
/// `Discover` from any other phase.
pub open spec fn transition_allowed(from: LearningPhase, to: LearningPhase) -> bool {
    ||| from.spec_next() == Some(to)
    ||| (to == LearningPhase::Discover && from != LearningPhase::Discover)
}

/// Check if a transition from `from` to `to` is valid.
pub fn can_transition(from: LearningPhase, to: LearningPhase) -> (r: bool)
    ensures
        r == transition_allowed(from, to),
{
    if from == to {
        return false;
    }
    if let Some(next) = from.next() {
        if next == to {
            return true;
        }
    }
    if to == LearningPhase::Discover && from != LearningPhase::Discover {
        return true;
    }
    false
}

/// Execute a phase transition, returning its record.
///
/// Fails with `EduError::InvalidPhaseTransition`, naming both phases, when
/// the transition is not allowed.
pub fn execute_transition<T>(
    from: LearningPhase,
    to: LearningPhase,
    reason: &str,
    timestamp: T,
) -> (r: Result<PhaseTransition<T>, EduError>)
    ensures
        r is Ok <==> transition_allowed(from, to),
        r matches Ok(pt) ==> {
            &&& pt.from == from
            &&& pt.to == to
            &&& pt.reason@ == reason@
            &&& pt.timestamp == timestamp
        },
        r matches Err(e) ==> e matches EduError::InvalidPhaseTransition { from: f, to: t } && f@
            == from.label_text() && t@ == to.label_text(),
{
    if !can_transition(from, to) {
        return Err(EduError::InvalidPhaseTransition { from: from.to_string(), to: to.to_string() });
    }
    Ok(PhaseTransition { from, to, reason: reason.to_owned(), timestamp })
}

/// Determine the next phase to move to; `None` at `Master`.
pub fn suggest_next_phase(current: LearningPhase) -> (r: Option<LearningPhase>)
    ensures
        r == current.spec_next(),
{
    current.next()
}

/// Number of phases that remain until `Master`.
pub open spec fn spec_phases_remaining(current: LearningPhase) -> nat {
    (master_ordinal() - current.spec_ordinal()) as nat
}

/// Count how many phases remain until `Master`.
pub fn phases_remaining(current: LearningPhase) -> (r: usize)
    ensures
        r == spec_phases_remaining(current),
{
    LearningPhase::Master.ordinal() - current.ordinal()
}

/// The phase reached from `p` by following the suggested next phase `n`
/// times (staying at `Master` once there).
pub open spec fn advance(p: LearningPhase, n: nat) -> LearningPhase
    decreases n,
{
    if n == 0 {
        p
    } else {
        match p.spec_next() {
            Some(q) => advance(q, (n - 1) as nat),
            None => p,
        }
    }
}

/// Phases are numbered `0..=4` without gaps or repeats: the ordinal
/// determines the phase, and each position holds exactly one phase.
pub proof fn lemma_ordinal_identifies_phase(p: LearningPhase, q: LearningPhase)
    ensures
        p.spec_ordinal() <= master_ordinal(),
        LearningPhase::at_ordinal(p.spec_ordinal()) == p,
        p.spec_ordinal() == q.spec_ordinal() ==> p == q,
{
}

/// `next` moves exactly one position forward, and only `Master` has no next
/// phase.
pub proof fn lemma_next_steps_one(p: LearningPhase)
    ensures
        p.spec_next() is None <==> p == LearningPhase::Master,
        p.spec_next() matches Some(q) ==> q.spec_ordinal() == p.spec_ordinal() + 1,
{
}

/// Staying in the same phase is never a transition.
pub proof fn lemma_no_self_loop(p: LearningPhase)
    ensures
        !transition_allowed(p, p),
{
}

/// Moving forward by exactly one phase is always allowed; moving forward by
/// more than one is never allowed.
pub proof fn lemma_forward_moves(from: LearningPhase, to: LearningPhase)
    ensures
        to.spec_ordinal() == from.spec_ordinal() + 1 ==> transition_allowed(from, to),
        to.spec_ordinal() > from.spec_ordinal() + 1 ==> !transition_allowed(from, to),
{
}

/// Moving backward is allowed exactly when the target is `Discover`.
pub proof fn lemma_backward_only_to_discover(from: LearningPhase, to: LearningPhase)
    requires
        to.spec_ordinal() < from.spec_ordinal(),
    ensures
        transition_allowed(from, to) <==> to == LearningPhase::Discover,
{
}

/// Every allowed transition either moves one phase forward or returns to
/// `Discover`.
pub proof fn lemma_allowed_transitions(from: LearningPhase, to: LearningPhase)
    requires
        transition_allowed(from, to),
    ensures
        to.spec_ordinal() == from.spec_ordinal() + 1 || (to == LearningPhase::Discover
            && from != LearningPhase::Discover),
{
}

/// The suggested next phase is always a valid transition.
pub proof fn lemma_suggestion_is_allowed(p: LearningPhase)
    ensures
        p.spec_next() matches Some(q) ==> transition_allowed(p, q),
{
}

/// Following the suggested phases for `phases_remaining` steps reaches
/// `Master` from any phase, and the count plus the ordinal is the number of
/// the last phase.
pub proof fn lemma_suggestions_reach_master(p: LearningPhase)
    ensures
        spec_phases_remaining(p) + p.spec_ordinal() == master_ordinal(),
        advance(p, spec_phases_remaining(p)) == LearningPhase::Master,
    decreases spec_phases_remaining(p),
{
    match p.spec_next() {
        Some(q) => {
            lemma_suggestions_reach_master(q);
        },
        None => {},
    }
}

/// Every phase but `Discover` may return to `Discover`.
pub proof fn lemma_discover_reachable(p: LearningPhase)
    requires
        p != LearningPhase::Discover,
    ensures
        transition_allowed(p, LearningPhase::Discover),
{
}

} // verus!
