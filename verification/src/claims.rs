//! The claim ledger: whose share of the prize was paid out.

use crate::identity::{position, texts};
use vstd::prelude::*;

verus! {

/// Holds a flag per identity, set once that identity has withdrawn its share.
/// An identity that the ledger does not know counts as not flagged, and a flag
/// is never cleared.
#[derive(Clone, Debug)]
pub struct ClaimLedger {
    claimants: Vec<String>,
}

impl View for ClaimLedger {
    /// The identities whose flag is set.
    type V = Set<Seq<char>>;

    closed spec fn view(&self) -> Set<Seq<char>> {
        texts(self.claimants@).to_set()
    }
}

impl ClaimLedger {
    /// A ledger in which no flag is set.
    pub fn new() -> (ledger: ClaimLedger)
        ensures
            ledger@ == Set::<Seq<char>>::empty(),
    {
        let ledger = ClaimLedger { claimants: Vec::new() };
        assert(ledger@ =~= Set::<Seq<char>>::empty());
        ledger
    }

    /// The ledger in which the flags of the listed identities are set.
    pub fn from_claimants(claimants: Vec<String>) -> (ledger: ClaimLedger)
        ensures
            ledger@ == texts(claimants@).to_set(),
    {
        ClaimLedger { claimants }
    }

    /// The identities whose flag is set, as a list, for keeping.
    pub fn into_claimants(self) -> (claimants: Vec<String>)
        ensures
            texts(claimants@).to_set() == self@,
    {
        self.claimants
    }

    /// Whether the flag of `identity` is set.
    pub fn has_claimed(&self, identity: &String) -> (flagged: bool)
        ensures
            flagged == self@.contains(identity@),
    {
        let at = position(&self.claimants, identity);
        proof {
            if let Some(i) = at {
                assert(texts(self.claimants@)[i as int] == identity@);
            }
        }
        at.is_some()
    }

    /// Sets the flag of `identity`.
    pub fn mark(&mut self, identity: String)
        ensures
            final(self)@ == old(self)@.insert(identity@),
            final(self)@.finite(),
    {
        let ghost before = texts(self.claimants@);
        if !self.has_claimed(&identity) {
            self.claimants.push(identity);
            proof {
                assert(texts(self.claimants@) =~= before.push(identity@));
                before.lemma_push_to_set_commute(identity@);
            }
        }
        assert(self@ =~= old(self)@.insert(identity@));
        proof {
            vstd::seq_lib::seq_to_set_is_finite(texts(self.claimants@));
        }
    }
}

} // verus!
