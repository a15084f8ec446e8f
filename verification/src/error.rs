//! The ways in which an operation of the game is rejected.

use vstd::prelude::*;

verus! {

/// Why an operation was rejected. A rejected operation leaves the game as it
/// was.
#[derive(Clone, Copy, Debug, PartialEq, Eq, Structural)]
pub enum GameError {
    /// The operation was invoked outside the period it belongs to.
    Phase,
    /// The caller is not an identity that may make this call: somebody else
    /// offers the creator's commitment, or the creator reveals a winning
    /// answer.
    Authorization,
    /// A reveal by an identity that never committed a guess.
    NoCommitment,
    /// The revealed answer does not carry the caller's own commitment.
    AnswerMismatch,
    /// The caller's commitment differs from the creator's: a wrong guess.
    NotAMatch,
    /// A claim by an identity that is not among the winners.
    NotWinner,
    /// A claim by a winner whose share was already paid out.
    AlreadyClaimed,
}

} // verus!
