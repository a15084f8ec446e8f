//! Identities are account names, held as text and compared as text.

use vstd::prelude::*;

verus! {

/// The texts of a list of identities, in the list's order.
pub open spec fn texts(names: Seq<String>) -> Seq<Seq<char>> {
    names.map_values(|name: String| name@)
}

/// Finds the first place at which `name` stands in `names`.
pub fn position(names: &Vec<String>, name: &String) -> (found: Option<usize>)
    ensures
        found matches Some(at) ==> at < names.len() && names[at as int]@ == name@,
        found matches Some(at) ==> forall|j: int| 0 <= j < at ==> names[j]@ != name@,
        found is None ==> !texts(names@).contains(name@),
{
    let mut at: usize = 0;
    while at < names.len()
        invariant
            at <= names.len(),
            forall|j: int| 0 <= j < at ==> names[j]@ != name@,
        decreases names.len() - at,
    {
        if names[at] == *name {
            return Some(at);
        }
        at += 1;
    }
    assert forall|j: int| 0 <= j < texts(names@).len() implies texts(names@)[j] != name@ by {
        assert(texts(names@)[j] == names[j]@);
    }
    None
}

/// Whether no identity stands twice in `names`.
pub fn all_distinct(names: &Vec<String>) -> (distinct: bool)
    ensures
        distinct == texts(names@).no_duplicates(),
{
    let mut at: usize = 0;
    while at < names.len()
        invariant
            at <= names.len(),
            forall|i: int, j: int| 0 <= i < j < at ==> names[i]@ != names[j]@,
        decreases names.len() - at,
    {
        match position(names, &names[at]) {
            Some(first) => {
                if first != at {
                    assert(texts(names@)[first as int] == texts(names@)[at as int]);
                    return false;
                }
            },
            None => {
                assert(texts(names@)[at as int] == names[at as int]@);
                return false;
            },
        }
        at += 1;
    }
    assert forall|i: int, j: int|
        0 <= i < texts(names@).len() && 0 <= j < texts(names@).len() && i != j implies texts(
        names@,
    )[i] != texts(names@)[j] by {
        if i < j {
            assert(names[i]@ != names[j]@);
        } else {
            assert(names[j]@ != names[i]@);
        }
    }
    true
}

/// Whether every identity of `names` stands in `among`.
pub fn all_within(names: &Vec<String>, among: &Vec<String>) -> (within: bool)
    ensures
        within == texts(names@).to_set().subset_of(texts(among@).to_set()),
{
    let mut at: usize = 0;
    while at < names.len()
        invariant
            at <= names.len(),
            forall|i: int| 0 <= i < at ==> texts(among@).contains(names[i]@),
        decreases names.len() - at,
    {
        match position(among, &names[at]) {
            Some(found) => {
                assert(texts(among@)[found as int] == names[at as int]@);
            },
            None => {
                assert(texts(names@)[at as int] == names[at as int]@);
                assert(texts(names@).to_set().contains(names[at as int]@));
                return false;
            },
        }
        at += 1;
    }
    assert forall|name: Seq<char>| texts(names@).to_set().contains(name) implies texts(
        among@,
    ).to_set().contains(name) by {
        let i = choose|i: int| 0 <= i < texts(names@).len() && texts(names@)[i] == name;
        assert(texts(names@)[i] == names[i]@);
    }
    true
}

} // verus!
