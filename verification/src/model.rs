//! The game as a mathematical value, and what each operation makes of it.
//!
//! Every operation of [`crate::contract::Contract`] is stated against the
//! functions of this module: an outcome, which says whether and how the
//! operation is rejected, and the game that the operation leaves.

use crate::error::GameError;
use crate::phase::{
    phase_at, Phase, COMMIT_PROPOSAL_DURATION_BLOCKS, REVEAL_PROPOSAL_DURATION_BLOCKS,
};
use vstd::prelude::*;

verus! {

/// A game: its fixed terms and its three stores.
pub struct GameState {
    /// The identity that set the secret answer.
    pub creator: Seq<char>,
    /// The first moment at which no guess is accepted any more.
    pub guess_deadline: u64,
    /// The first moment at which no reveal is accepted any more.
    pub reveal_deadline: u64,
    /// The amount that the winners share.
    pub total_prize: u64,
    /// The digest that each identity committed last.
    pub commitments: Map<Seq<char>, Seq<char>>,
    /// The identities that passed reveal verification, in that order.
    pub winners: Seq<Seq<char>>,
    /// The identities whose share was paid out.
    pub claimed: Set<Seq<char>>,
}

impl GameState {
    /// A game created at time `now` with nothing in its stores.
    pub open spec fn fresh(creator: Seq<char>, now: u64, total_prize: u64) -> GameState {
        GameState {
            creator,
            guess_deadline: (now + COMMIT_PROPOSAL_DURATION_BLOCKS) as u64,
            reveal_deadline: (now + COMMIT_PROPOSAL_DURATION_BLOCKS
                + REVEAL_PROPOSAL_DURATION_BLOCKS) as u64,
            total_prize,
            commitments: Map::empty(),
            winners: Seq::empty(),
            claimed: Set::empty(),
        }
    }

    /// What holds of every game, whatever was done to it: the deadlines are
    /// in order, no winner is listed twice, the creator is no winner, and only
    /// winners have been paid.
    pub open spec fn inv(self) -> bool {
        &&& self.guess_deadline < self.reveal_deadline
        &&& self.winners.no_duplicates()
        &&& !self.winners.contains(self.creator)
        &&& self.claimed.finite()
        &&& forall|identity: Seq<char>| #[trigger]
            self.claimed.contains(identity) ==> self.winners.contains(identity)
    }

    /// The period that holds at time `now`.
    pub open spec fn phase(self, now: u64) -> Phase {
        phase_at(now, self.guess_deadline, self.reveal_deadline)
    }

    /// The game with `digest` stored under `identity`.
    pub open spec fn with_commitment(self, identity: Seq<char>, digest: Seq<char>) -> GameState {
        GameState { commitments: self.commitments.insert(identity, digest), ..self }
    }

    /// Whether the creator's own commitment is accepted from `caller` at `now`.
    pub open spec fn set_commit_outcome(self, now: u64, caller: Seq<char>) -> Result<
        (),
        GameError,
    > {
        if self.phase(now) != Phase::Commit {
            Err(GameError::Phase)
        } else if caller != self.creator {
            Err(GameError::Authorization)
        } else {
            Ok(())
        }
    }

    /// The game after the creator's commitment was offered.
    pub open spec fn after_set_commit(
        self,
        now: u64,
        caller: Seq<char>,
        digest: Seq<char>,
    ) -> GameState {
        if self.set_commit_outcome(now, caller) is Ok {
            self.with_commitment(caller, digest)
        } else {
            self
        }
    }

    /// Whether a guess of `user` is accepted at `now`: in the commit period,
    /// from anyone but the creator.
    pub open spec fn guess_accepted(self, now: u64, user: Seq<char>) -> bool {
        self.phase(now) == Phase::Commit && user != self.creator
    }

    /// The game after a guess was offered.
    pub open spec fn after_guess(self, now: u64, user: Seq<char>, digest: Seq<char>) -> GameState {
        if self.guess_accepted(now, user) {
            self.with_commitment(user, digest)
        } else {
            self
        }
    }

    /// Reveal verification. It passes where `digest` is what `identity`
    /// committed and is also what the creator committed.
    pub open spec fn verify_outcome(self, identity: Seq<char>, digest: Seq<char>) -> Result<
        (),
        GameError,
    > {
        if !self.commitments.contains_key(identity) {
            Err(GameError::NoCommitment)
        } else if self.commitments[identity] != digest {
            Err(GameError::AnswerMismatch)
        } else if !self.commitments.contains_key(self.creator)
            || self.commitments[self.creator] != self.commitments[identity] {
            Err(GameError::NotAMatch)
        } else {
            Ok(())
        }
    }

    /// Whether a reveal of `caller` is accepted at `now`: in the reveal
    /// period, where verification passes, from anyone but the creator. The
    /// caller is looked at last: a reveal that fails verification is rejected
    /// for that, whoever makes it, and only the creator's passing reveal is
    /// rejected for its caller.
    pub open spec fn reveal_outcome(self, now: u64, caller: Seq<char>, digest: Seq<char>) -> Result<
        (),
        GameError,
    > {
        if self.phase(now) != Phase::Reveal {
            Err(GameError::Phase)
        } else if self.verify_outcome(caller, digest) is Err {
            self.verify_outcome(caller, digest)
        } else if caller == self.creator {
            Err(GameError::Authorization)
        } else {
            Ok(())
        }
    }

    /// The game after a reveal was offered: an accepted caller is a winner,
    /// listed once.
    pub open spec fn after_reveal(self, now: u64, caller: Seq<char>, digest: Seq<char>) -> GameState {
        if self.reveal_outcome(now, caller, digest) is Ok && !self.winners.contains(caller) {
            GameState { winners: self.winners.push(caller), ..self }
        } else {
            self
        }
    }

    /// One winner's share: the prize divided by the number of winners, rounded
    /// down. What the division leaves over is paid to nobody.
    pub open spec fn share(self) -> int {
        self.total_prize as int / self.winners.len() as int
    }

    /// Whether a claim of `identity` is accepted at `now`, and the amount that
    /// is then due.
    pub open spec fn claim_outcome(self, now: u64, identity: Seq<char>) -> Result<u64, GameError> {
        if self.phase(now) != Phase::Closed {
            Err(GameError::Phase)
        } else if !self.winners.contains(identity) {
            Err(GameError::NotWinner)
        } else if self.claimed.contains(identity) {
            Err(GameError::AlreadyClaimed)
        } else {
            Ok(self.share() as u64)
        }
    }

    /// The game after a claim was offered.
    pub open spec fn after_claim(self, now: u64, identity: Seq<char>) -> GameState {
        if self.claim_outcome(now, identity) is Ok {
            GameState { claimed: self.claimed.insert(identity), ..self }
        } else {
            self
        }
    }
}

} // verus!
