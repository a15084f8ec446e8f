//! The commitment store: one digest per identity.

use vstd::prelude::*;

verus! {

/// The place of the first pair under `identity` at or after `from`, or the
/// number of pairs where there is none.
pub open spec fn first_under(pairs: Seq<(String, String)>, identity: Seq<char>, from: int) -> int
    decreases pairs.len() - from,
{
    if from < 0 || from >= pairs.len() {
        pairs.len() as int
    } else if pairs[from].0@ == identity {
        from
    } else {
        first_under(pairs, identity, from + 1)
    }
}

/// The map that a list of pairs of an identity and a digest stands for: each
/// identity of the list with the digest of the first pair under it.
pub open spec fn commitments_of(pairs: Seq<(String, String)>) -> Map<Seq<char>, Seq<char>> {
    Map::new(
        |identity: Seq<char>| first_under(pairs, identity, 0) < pairs.len(),
        |identity: Seq<char>| pairs[first_under(pairs, identity, 0)].1@,
    )
}

proof fn lemma_first_under_range(pairs: Seq<(String, String)>, identity: Seq<char>, from: int)
    requires
        0 <= from <= pairs.len(),
    ensures
        from <= first_under(pairs, identity, from) <= pairs.len(),
        first_under(pairs, identity, from) < pairs.len() ==> pairs[first_under(
            pairs,
            identity,
            from,
        )].0@ == identity,
    decreases pairs.len() - from,
{
    if from < pairs.len() && pairs[from].0@ != identity {
        lemma_first_under_range(pairs, identity, from + 1);
    }
}

/// Replacing the digest of a pair moves no identity.
proof fn lemma_first_under_update(
    pairs: Seq<(String, String)>,
    at: int,
    pair: (String, String),
    identity: Seq<char>,
    from: int,
)
    requires
        0 <= at < pairs.len(),
        0 <= from <= pairs.len(),
        pair.0@ == pairs[at].0@,
    ensures
        first_under(pairs.update(at, pair), identity, from) == first_under(pairs, identity, from),
    decreases pairs.len() - from,
{
    if from < pairs.len() && pairs[from].0@ != identity {
        lemma_first_under_update(pairs, at, pair, identity, from + 1);
    }
}

/// A pair added at the end is found only where no earlier one is.
proof fn lemma_first_under_push(
    pairs: Seq<(String, String)>,
    pair: (String, String),
    identity: Seq<char>,
    from: int,
)
    requires
        0 <= from <= pairs.len(),
    ensures
        first_under(pairs, identity, from) < pairs.len() || pair.0@ == identity ==> first_under(
            pairs.push(pair),
            identity,
            from,
        ) == first_under(pairs, identity, from),
        first_under(pairs, identity, from) >= pairs.len() && pair.0@ != identity ==> first_under(
            pairs.push(pair),
            identity,
            from,
        ) == pairs.len() + 1,
    decreases pairs.len() - from,
{
    let longer = pairs.push(pair);
    if from < pairs.len() {
        assert(longer[from] == pairs[from]);
        if pairs[from].0@ != identity {
            lemma_first_under_push(pairs, pair, identity, from + 1);
        }
    } else {
        assert(longer[from] == pair);
        if pair.0@ != identity {
            assert(first_under(longer, identity, from + 1) == longer.len());
        }
    }
}

/// Maps an identity to the digest it committed last. The store applies no
/// rule on who may set which entry.
#[derive(Clone, Debug)]
pub struct CommitmentStore {
    entries: Vec<(String, String)>,
}

impl View for CommitmentStore {
    type V = Map<Seq<char>, Seq<char>>;

    closed spec fn view(&self) -> Map<Seq<char>, Seq<char>> {
        commitments_of(self.entries@)
    }
}

impl CommitmentStore {
    /// A store without entries.
    pub fn new() -> (store: CommitmentStore)
        ensures
            store@ == Map::<Seq<char>, Seq<char>>::empty(),
    {
        let store = CommitmentStore { entries: Vec::new() };
        assert(store@ =~= Map::<Seq<char>, Seq<char>>::empty());
        store
    }

    /// The store that a list of pairs stands for.
    pub fn from_pairs(pairs: Vec<(String, String)>) -> (store: CommitmentStore)
        ensures
            store@ == commitments_of(pairs@),
    {
        CommitmentStore { entries: pairs }
    }

    /// The store as a list of pairs, for keeping.
    pub fn into_pairs(self) -> (pairs: Vec<(String, String)>)
        ensures
            commitments_of(pairs@) == self@,
    {
        self.entries
    }

    /// The place of the entry under `identity`, if there is one.
    fn find(&self, identity: &String) -> (found: Option<usize>)
        ensures
            found matches Some(at) ==> at == first_under(self.entries@, identity@, 0) && at
                < self.entries@.len() && self.entries@[at as int].0@ == identity@,
            found is None ==> first_under(self.entries@, identity@, 0) == self.entries@.len(),
    {
        let mut at: usize = 0;
        while at < self.entries.len()
            invariant
                at <= self.entries.len(),
                first_under(self.entries@, identity@, 0) == first_under(
                    self.entries@,
                    identity@,
                    at as int,
                ),
            decreases self.entries.len() - at,
        {
            if self.entries[at].0 == *identity {
                return Some(at);
            }
            at += 1;
        }
        None
    }

    /// The digest stored under `identity`, or `None` where it never committed.
    pub fn get(&self, identity: &String) -> (stored: Option<&String>)
        ensures
            stored is Some <==> self@.contains_key(identity@),
            stored matches Some(digest) ==> digest@ == self@[identity@],
    {
        match self.find(identity) {
            Some(at) => Some(&self.entries[at].1),
            None => None,
        }
    }

    /// Stores `digest` under `identity`, in place of what was stored there.
    pub fn set(&mut self, identity: String, digest: String)
        ensures
            final(self)@ == old(self)@.insert(identity@, digest@),
    {
        let ghost before = self.entries@;
        let ghost target = old(self)@.insert(identity@, digest@);
        let pair = (identity, digest);
        match self.find(&pair.0) {
            Some(at) => {
                self.entries.set(at, pair);
                assert forall|other: Seq<char>|
                    #![trigger self@.dom().contains(other)]
                    #![trigger target.dom().contains(other)]
                    self@.dom().contains(other) == target.dom().contains(other) && (
                    self@.dom().contains(other) ==> self@[other] == target[other]) by {
                    lemma_first_under_update(before, at as int, pair, other, 0);
                    lemma_first_under_range(before, other, 0);
                }
            },
            None => {
                self.entries.push(pair);
                assert forall|other: Seq<char>|
                    #![trigger self@.dom().contains(other)]
                    #![trigger target.dom().contains(other)]
                    self@.dom().contains(other) == target.dom().contains(other) && (
                    self@.dom().contains(other) ==> self@[other] == target[other]) by {
                    lemma_first_under_push(before, pair, other, 0);
                    lemma_first_under_range(before, other, 0);
                }
            },
        }
        assert(self@ =~= target);
    }
}

} // verus!
