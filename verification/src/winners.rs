//! The winner registry: who passed reveal verification, in the order in which
//! they did.

use crate::identity::{all_distinct, position, texts};
use vstd::prelude::*;

verus! {

/// An ordered collection of identities in which none stands twice. It grows
/// only at its end, and only by identities that it does not hold yet.
#[derive(Clone, Debug)]
pub struct WinnerRegistry {
    members: Vec<String>,
}

impl View for WinnerRegistry {
    type V = Seq<Seq<char>>;

    closed spec fn view(&self) -> Seq<Seq<char>> {
        texts(self.members@)
    }
}

impl WinnerRegistry {
    /// Well-formedness: no member stands twice. Every constructor establishes
    /// it and [`WinnerRegistry::register`] keeps it.
    pub open spec fn wf(&self) -> bool {
        self@.no_duplicates()
    }

    /// A registry without members.
    pub fn new() -> (registry: WinnerRegistry)
        ensures
            registry.wf(),
            registry@ == Seq::<Seq<char>>::empty(),
    {
        let registry = WinnerRegistry { members: Vec::new() };
        assert(registry@ =~= Seq::<Seq<char>>::empty());
        registry
    }

    /// The registry of a list of identities, or `None` where one of them
    /// stands twice in the list.
    pub fn from_members(members: Vec<String>) -> (registry: Option<WinnerRegistry>)
        ensures
            registry is Some <==> texts(members@).no_duplicates(),
            registry matches Some(registry) ==> registry.wf() && registry@ == texts(members@),
    {
        if all_distinct(&members) {
            Some(WinnerRegistry { members })
        } else {
            None
        }
    }

    /// The members as a list, in their order, for keeping.
    pub fn into_members(self) -> (members: Vec<String>)
        ensures
            texts(members@) == self@,
    {
        self.members
    }

    /// The number of members.
    pub fn len(&self) -> (count: usize)
        ensures
            count == self@.len(),
    {
        self.members.len()
    }

    /// Whether `identity` is a member: whether some member equals it.
    pub fn contains(&self, identity: &String) -> (found: bool)
        ensures
            found == self@.contains(identity@),
    {
        let at = position(&self.members, identity);
        proof {
            if let Some(i) = at {
                assert(self@[i as int] == identity@);
            }
        }
        at.is_some()
    }

    /// Makes `identity` a member. Where it is one already, nothing changes;
    /// otherwise it becomes the last member.
    pub fn register(&mut self, identity: String)
        ensures
            old(self)@.contains(identity@) ==> final(self)@ == old(self)@,
            !old(self)@.contains(identity@) ==> final(self)@ == old(self)@.push(identity@),
            old(self).wf() ==> final(self).wf(),
    {
        if !self.contains(&identity) {
            self.members.push(identity);
            assert(self@ =~= old(self)@.push(identity@));
        }
    }
}

} // verus!
