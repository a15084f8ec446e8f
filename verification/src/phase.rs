//! The phase gate: which of the three periods of a game a moment falls in.

use vstd::prelude::*;

verus! {

/// Length of the commit window, in blocks.
pub const COMMIT_PROPOSAL_DURATION_BLOCKS: u64 = 5;

/// Length of the reveal window, in blocks.
pub const REVEAL_PROPOSAL_DURATION_BLOCKS: u64 = 1;

/// The three periods of a game, told apart by its two deadlines.
#[derive(Clone, Copy, Debug, PartialEq, Eq, Structural)]
pub enum Phase {
    /// Before the guess deadline: commitments are accepted.
    Commit,
    /// From the guess deadline up to the reveal deadline: answers are revealed.
    Reveal,
    /// From the reveal deadline on: winners claim their share.
    Closed,
}

/// The period that holds at time `now` of a game with the given deadlines.
pub open spec fn phase_at(now: u64, guess_deadline: u64, reveal_deadline: u64) -> Phase {
    if now < guess_deadline {
        Phase::Commit
    } else if now < reveal_deadline {
        Phase::Reveal
    } else {
        Phase::Closed
    }
}

/// Classifies `now` against the two deadlines. It reads nothing else and
/// changes nothing.
pub fn phase_of(now: u64, guess_deadline: u64, reveal_deadline: u64) -> (phase: Phase)
    ensures
        phase == phase_at(now, guess_deadline, reveal_deadline),
{
    if now < guess_deadline {
        Phase::Commit
    } else if now < reveal_deadline {
        Phase::Reveal
    } else {
        Phase::Closed
    }
}

} // verus!
