//! The game contract: the stores behind the public operations.

use crate::claims::ClaimLedger;
use crate::commitments::CommitmentStore;
use crate::digest::{commitment_digest, commitment_of};
use crate::error::GameError;
use crate::identity::{all_within, position, texts};
use crate::model::GameState;
use crate::phase::{
    phase_of, Phase, COMMIT_PROPOSAL_DURATION_BLOCKS, REVEAL_PROPOSAL_DURATION_BLOCKS,
};
use crate::snapshot::Snapshot;
use crate::winners::WinnerRegistry;
use vstd::prelude::*;

verus! {

/// The prize of a game that is created without naming one.
pub const DEFAULT_TOTAL_PRIZE: u64 = 100;

/// One game. Every operation takes the current time and, where it matters,
/// the caller's identity as arguments, and either applies in full or leaves
/// the game as it was.
#[derive(Clone, Debug)]
pub struct Contract {
    creator: String,
    guess_deadline: u64,
    reveal_deadline: u64,
    total_prize: u64,
    commitments: CommitmentStore,
    winners: WinnerRegistry,
    claimed: ClaimLedger,
}

impl View for Contract {
    type V = GameState;

    closed spec fn view(&self) -> GameState {
        GameState {
            creator: self.creator@,
            guess_deadline: self.guess_deadline,
            reveal_deadline: self.reveal_deadline,
            total_prize: self.total_prize,
            commitments: self.commitments@,
            winners: self.winners@,
            claimed: self.claimed@,
        }
    }
}

impl Contract {
    /// Well-formedness: the game meets [`GameState::inv`]. Every constructor
    /// establishes it and every operation keeps it.
    pub open spec fn wf(&self) -> bool {
        self@.inv()
    }

    /// Creates a game at time `now` whose creator has committed `commitment_digest`
    /// and whose winners will share `total_prize`. The guess deadline lies one
    /// commit window after `now`, the reveal deadline one reveal window after
    /// that. Nobody has guessed, won or claimed yet.
    pub fn create(creator: String, now: u64, commitment_digest: String, total_prize: u64) -> (game:
        Contract)
        requires
            now + COMMIT_PROPOSAL_DURATION_BLOCKS + REVEAL_PROPOSAL_DURATION_BLOCKS <= u64::MAX,
        ensures
            game.wf(),
            game@ == GameState::fresh(creator@, now, total_prize).with_commitment(
                creator@,
                commitment_digest@,
            ),
    {
        let mut commitments = CommitmentStore::new();
        commitments.set(creator.clone(), commitment_digest);
        Contract {
            creator,
            guess_deadline: now + COMMIT_PROPOSAL_DURATION_BLOCKS,
            reveal_deadline: now + COMMIT_PROPOSAL_DURATION_BLOCKS
                + REVEAL_PROPOSAL_DURATION_BLOCKS,
            total_prize,
            commitments,
            winners: WinnerRegistry::new(),
            claimed: ClaimLedger::new(),
        }
    }

    /// Creates a game at time `now` with the default prize and with nothing in
    /// its stores: the creator commits afterwards, by
    /// [`Contract::set_commit_creator`].
    pub fn new(creator: String, now: u64) -> (game: Contract)
        requires
            now + COMMIT_PROPOSAL_DURATION_BLOCKS + REVEAL_PROPOSAL_DURATION_BLOCKS <= u64::MAX,
        ensures
            game.wf(),
            game@ == GameState::fresh(creator@, now, DEFAULT_TOTAL_PRIZE),
    {
        Contract {
            creator,
            guess_deadline: now + COMMIT_PROPOSAL_DURATION_BLOCKS,
            reveal_deadline: now + COMMIT_PROPOSAL_DURATION_BLOCKS
                + REVEAL_PROPOSAL_DURATION_BLOCKS,
            total_prize: DEFAULT_TOTAL_PRIZE,
            commitments: CommitmentStore::new(),
            winners: WinnerRegistry::new(),
            claimed: ClaimLedger::new(),
        }
    }

    /// The game that `snapshot` stands for, or `None` where that game does not
    /// meet the invariant: its deadlines are out of order, a winner is listed
    /// twice, the creator is listed as a winner, or somebody was paid who did
    /// not win.
    pub fn restore(snapshot: Snapshot) -> (restored: Option<Contract>)
        ensures
            restored is Some <==> snapshot@.inv(),
            restored matches Some(game) ==> game.wf() && game@ == snapshot@,
    {
        proof {
            vstd::seq_lib::seq_to_set_is_finite(texts(snapshot.claimed@));
        }
        if snapshot.guess_deadline >= snapshot.reveal_deadline {
            return None;
        }
        if let Some(at) = position(&snapshot.winners, &snapshot.creator) {
            assert(texts(snapshot.winners@)[at as int] == snapshot.creator@);
            return None;
        }
        if !all_within(&snapshot.claimed, &snapshot.winners) {
            return None;
        }
        let winners = match WinnerRegistry::from_members(snapshot.winners) {
            Some(winners) => winners,
            None => {
                return None;
            },
        };
        Some(
            Contract {
                creator: snapshot.creator,
                guess_deadline: snapshot.guess_deadline,
                reveal_deadline: snapshot.reveal_deadline,
                total_prize: snapshot.total_prize,
                commitments: CommitmentStore::from_pairs(snapshot.commitments),
                winners,
                claimed: ClaimLedger::from_claimants(snapshot.claimed),
            },
        )
    }

    /// The game as plain values, for keeping.
    pub fn into_snapshot(self) -> (snapshot: Snapshot)
        ensures
            snapshot@ == self@,
    {
        Snapshot {
            creator: self.creator,
            guess_deadline: self.guess_deadline,
            reveal_deadline: self.reveal_deadline,
            total_prize: self.total_prize,
            commitments: self.commitments.into_pairs(),
            winners: self.winners.into_members(),
            claimed: self.claimed.into_claimants(),
        }
    }

    /// The identity that set the secret answer.
    pub fn creator(&self) -> (creator: &String)
        ensures
            creator@ == self@.creator,
    {
        &self.creator
    }

    /// The first moment at which no guess is accepted any more.
    pub fn guess_deadline(&self) -> (deadline: u64)
        ensures
            deadline == self@.guess_deadline,
    {
        self.guess_deadline
    }

    /// The first moment at which no reveal is accepted any more.
    pub fn reveal_deadline(&self) -> (deadline: u64)
        ensures
            deadline == self@.reveal_deadline,
    {
        self.reveal_deadline
    }

    /// The amount that the winners share.
    pub fn total_prize(&self) -> (amount: u64)
        ensures
            amount == self@.total_prize,
    {
        self.total_prize
    }

    /// The commitment store.
    pub fn commitments(&self) -> (store: &CommitmentStore)
        ensures
            store@ == self@.commitments,
    {
        &self.commitments
    }

    /// The winner registry.
    pub fn winners(&self) -> (registry: &WinnerRegistry)
        ensures
            registry@ == self@.winners,
    {
        &self.winners
    }

    /// The claim ledger.
    pub fn claimed(&self) -> (ledger: &ClaimLedger)
        ensures
            ledger@ == self@.claimed,
    {
        &self.claimed
    }

    /// The period that holds at time `now`.
    pub fn phase(&self, now: u64) -> (phase: Phase)
        ensures
            phase == self@.phase(now),
    {
        phase_of(now, self.guess_deadline, self.reveal_deadline)
    }

    /// The commitment digest of `answer`.
    ///
    /// The hash is computed by an outside call. It is rejected for no answer;
    /// where the host meters computation the call, like any other, does not
    /// return once the allowance is spent, and the execution ends there, as it
    /// would where memory runs out.
    pub fn new_commitment(answer: String) -> (digest: String)
        ensures
            digest@ == commitment_of(answer@),
    {
        commitment_digest(&answer)
    }

    /// Stores `digest` as the creator's commitment. Accepted in the commit
    /// period, from the creator only.
    pub fn commit_creator_digest(&mut self, now: u64, caller: String, digest: String) -> (result:
        Result<(), GameError>)
        requires
            old(self).wf(),
        ensures
            final(self).wf(),
            result == old(self)@.set_commit_outcome(now, caller@),
            final(self)@ == old(self)@.after_set_commit(now, caller@, digest@),
    {
        match self.phase(now) {
            Phase::Commit => {},
            _ => {
                return Err(GameError::Phase);
            },
        }
        if caller != self.creator {
            return Err(GameError::Authorization);
        }
        self.commitments.set(caller, digest);
        Ok(())
    }

    /// Stores the digest of `correct_answer` as the creator's commitment.
    /// Accepted in the commit period, from the creator only.
    ///
    /// The answer is hashed by an outside call, which on a metering host does
    /// not return once the allowance is spent: see
    /// [`Contract::new_commitment`].
    pub fn set_commit_creator(&mut self, now: u64, caller: String, correct_answer: String) -> (result:
        Result<(), GameError>)
        requires
            old(self).wf(),
        ensures
            final(self).wf(),
            result == old(self)@.set_commit_outcome(now, caller@),
            final(self)@ == old(self)@.after_set_commit(
                now,
                caller@,
                commitment_of(correct_answer@),
            ),
    {
        let digest = Contract::new_commitment(correct_answer);
        self.commit_creator_digest(now, caller, digest)
    }

    /// Stores `digest` as the guess of `user`, in place of an earlier guess.
    /// Returns whether the guess was accepted: it is in the commit period,
    /// from anyone but the creator.
    pub fn commit_guess(&mut self, now: u64, user: String, digest: String) -> (accepted: bool)
        requires
            old(self).wf(),
        ensures
            final(self).wf(),
            accepted == old(self)@.guess_accepted(now, user@),
            final(self)@ == old(self)@.after_guess(now, user@, digest@),
    {
        match self.phase(now) {
            Phase::Commit => {},
            _ => {
                return false;
            },
        }
        if user == self.creator {
            return false;
        }
        self.commitments.set(user, digest);
        true
    }

    /// Stores the digest of `answer` as the guess of `user`, in place of an
    /// earlier guess. Returns whether the guess was accepted: it is in the
    /// commit period, from anyone but the creator.
    ///
    /// The answer is hashed by an outside call, which on a metering host does
    /// not return once the allowance is spent: see
    /// [`Contract::new_commitment`].
    pub fn guess(&mut self, now: u64, user: String, answer: String) -> (accepted: bool)
        requires
            old(self).wf(),
        ensures
            final(self).wf(),
            accepted == old(self)@.guess_accepted(now, user@),
            final(self)@ == old(self)@.after_guess(now, user@, commitment_of(answer@)),
    {
        let digest = Contract::new_commitment(answer);
        self.commit_guess(now, user, digest)
    }

    /// Reveal verification of `digest` for `identity`: the digest is what the
    /// identity committed, and the creator committed the same.
    pub fn verify_digest(&self, identity: &String, digest: &String) -> (result: Result<
        (),
        GameError,
    >)
        ensures
            result == self@.verify_outcome(identity@, digest@),
    {
        let stored = match self.commitments.get(identity) {
            Some(stored) => stored,
            None => {
                return Err(GameError::NoCommitment);
            },
        };
        if *stored != *digest {
            return Err(GameError::AnswerMismatch);
        }
        match self.commitments.get(&self.creator) {
            Some(secret) => {
                if *secret != *stored {
                    return Err(GameError::NotAMatch);
                }
            },
            None => {
                return Err(GameError::NotAMatch);
            },
        }
        Ok(())
    }

    /// Reveal verification of `claimed_answer` for `identity`: the answer's
    /// digest is what the identity committed, and the creator committed the
    /// same.
    ///
    /// The answer is hashed by an outside call, which on a metering host does
    /// not return once the allowance is spent: see
    /// [`Contract::new_commitment`].
    pub fn verify(&self, identity: &String, claimed_answer: String) -> (result: Result<
        (),
        GameError,
    >)
        ensures
            result == self@.verify_outcome(identity@, commitment_of(claimed_answer@)),
    {
        let digest = Contract::new_commitment(claimed_answer);
        self.verify_digest(identity, &digest)
    }

    /// Registers `caller` as a winner where `digest` passes reveal
    /// verification. Accepted in the reveal period. A reveal that fails
    /// verification is rejected for that, whoever makes it; the creator's
    /// reveal is rejected as unauthorized where it passes. A winner who
    /// reveals again is accepted again and stays listed once.
    pub fn reveal_digest(&mut self, now: u64, caller: String, digest: String) -> (result: Result<
        (),
        GameError,
    >)
        requires
            old(self).wf(),
        ensures
            final(self).wf(),
            result == old(self)@.reveal_outcome(now, caller@, digest@),
            final(self)@ == old(self)@.after_reveal(now, caller@, digest@),
    {
        match self.phase(now) {
            Phase::Reveal => {},
            _ => {
                return Err(GameError::Phase);
            },
        }
        match self.verify_digest(&caller, &digest) {
            Ok(()) => {},
            Err(error) => {
                return Err(error);
            },
        }
        if caller == self.creator {
            return Err(GameError::Authorization);
        }
        self.winners.register(caller);
        proof {
            let before = old(self)@.winners;
            assert forall|identity: Seq<char>|
                before.push(caller@).contains(identity) == (identity == caller@
                    || before.contains(identity)) by {
                vstd::seq_lib::lemma_seq_contains_after_push(before, caller@, identity);
            }
        }
        Ok(())
    }

    /// Registers the caller as a winner where `answer` passes reveal
    /// verification. Accepted in the reveal period. A reveal that fails
    /// verification is rejected for that, whoever makes it; the creator's
    /// reveal is rejected as unauthorized where it passes. A winner who
    /// reveals again is accepted again and stays listed once.
    ///
    /// The answer is hashed by an outside call, which on a metering host does
    /// not return once the allowance is spent: see
    /// [`Contract::new_commitment`].
    pub fn reveal_proposal(&mut self, now: u64, caller: String, answer: String) -> (result: Result<
        (),
        GameError,
    >)
        requires
            old(self).wf(),
        ensures
            final(self).wf(),
            result == old(self)@.reveal_outcome(now, caller@, commitment_of(answer@)),
            final(self)@ == old(self)@.after_reveal(now, caller@, commitment_of(answer@)),
    {
        let digest = Contract::new_commitment(answer);
        self.reveal_digest(now, caller, digest)
    }

    /// Pays out the share of `identity`: marks it as paid and returns the
    /// amount that the host is to transfer. Accepted once the game is closed,
    /// from a winner, once.
    pub fn claim(&mut self, now: u64, identity: String) -> (result: Result<u64, GameError>)
        requires
            old(self).wf(),
        ensures
            final(self).wf(),
            result == old(self)@.claim_outcome(now, identity@),
            final(self)@ == old(self)@.after_claim(now, identity@),
    {
        match self.phase(now) {
            Phase::Closed => {},
            _ => {
                return Err(GameError::Phase);
            },
        }
        if !self.winners.contains(&identity) {
            return Err(GameError::NotWinner);
        }
        if self.claimed.has_claimed(&identity) {
            return Err(GameError::AlreadyClaimed);
        }
        let count: u64 = self.winners.len() as u64;
        let share: u64 = self.total_prize / count;
        self.claimed.mark(identity);
        Ok(share)
    }

    /// Whether `user` is a winner.
    pub fn is_winner(&self, user: String) -> (found: bool)
        ensures
            found == self@.winners.contains(user@),
    {
        self.winners.contains(&user)
    }
}

} // verus!
