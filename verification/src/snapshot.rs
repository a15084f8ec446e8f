//! The stored form of a game.

use crate::commitments::commitments_of;
use crate::identity::texts;
use crate::model::GameState;
use vstd::prelude::*;

verus! {

/// A game as plain values, as a host keeps it between calls. Anything can be
/// written into a snapshot: [`crate::contract::Contract::restore`] takes only
/// one that stands for a game that meets its invariant.
#[derive(Clone, Debug)]
pub struct Snapshot {
    /// The identity that set the secret answer.
    pub creator: String,
    /// The first moment at which no guess is accepted any more.
    pub guess_deadline: u64,
    /// The first moment at which no reveal is accepted any more.
    pub reveal_deadline: u64,
    /// The amount that the winners share.
    pub total_prize: u64,
    /// Pairs of an identity and the digest it committed. Of two pairs under
    /// one identity the first counts.
    pub commitments: Vec<(String, String)>,
    /// The winners, in the order in which they were registered.
    pub winners: Vec<String>,
    /// The identities whose share was paid out.
    pub claimed: Vec<String>,
}

impl View for Snapshot {
    type V = GameState;

    open spec fn view(&self) -> GameState {
        GameState {
            creator: self.creator@,
            guess_deadline: self.guess_deadline,
            reveal_deadline: self.reveal_deadline,
            total_prize: self.total_prize,
            commitments: commitments_of(self.commitments@),
            winners: texts(self.winners@),
            claimed: texts(self.claimed@).to_set(),
        }
    }
}

} // verus!
