use guessing_game::claims::ClaimLedger;
use guessing_game::commitments::CommitmentStore;
use guessing_game::identity::{all_distinct, all_within, position};
use guessing_game::winners::WinnerRegistry;

fn name(text: &str) -> String {
    text.to_string()
}

#[test]
fn store_get_of_an_unknown_identity_is_none() {
    let store = CommitmentStore::new();
    assert_eq!(store.get(&name("alice")), None);
}

#[test]
fn store_set_then_get() {
    let mut store = CommitmentStore::new();
    store.set(name("alice"), name("d1"));
    store.set(name("bob"), name("d2"));
    assert_eq!(store.get(&name("alice")), Some(&name("d1")));
    assert_eq!(store.get(&name("bob")), Some(&name("d2")));
    assert_eq!(store.get(&name("carol")), None);
}

#[test]
fn store_set_overwrites() {
    let mut store = CommitmentStore::new();
    store.set(name("alice"), name("d1"));
    store.set(name("bob"), name("d2"));
    store.set(name("alice"), name("d3"));
    assert_eq!(store.get(&name("alice")), Some(&name("d3")));
    assert_eq!(store.get(&name("bob")), Some(&name("d2")));
    assert_eq!(store.into_pairs(), vec![(name("alice"), name("d3")), (name("bob"), name("d2"))]);
}

#[test]
fn store_from_pairs_takes_the_first_of_two() {
    let store = CommitmentStore::from_pairs(vec![
        (name("alice"), name("d1")),
        (name("bob"), name("d2")),
        (name("alice"), name("d3")),
    ]);
    assert_eq!(store.get(&name("alice")), Some(&name("d1")));
    assert_eq!(store.get(&name("bob")), Some(&name("d2")));
}

#[test]
fn registry_registers_in_order() {
    let mut registry = WinnerRegistry::new();
    assert_eq!(registry.len(), 0);
    registry.register(name("bob"));
    registry.register(name("alice"));
    assert_eq!(registry.len(), 2);
    assert!(registry.contains(&name("alice")));
    assert!(registry.contains(&name("bob")));
    assert!(!registry.contains(&name("carol")));
    assert_eq!(registry.into_members(), vec![name("bob"), name("alice")]);
}

#[test]
fn registry_registers_once() {
    let mut registry = WinnerRegistry::new();
    registry.register(name("alice"));
    registry.register(name("bob"));
    registry.register(name("alice"));
    assert_eq!(registry.len(), 2);
    assert_eq!(registry.into_members(), vec![name("alice"), name("bob")]);
}

#[test]
fn registry_membership_looks_past_the_first_member() {
    let registry =
        WinnerRegistry::from_members(vec![name("alice"), name("bob"), name("carol")]).unwrap();
    assert!(registry.contains(&name("carol")));
    assert!(!registry.contains(&name("dave")));
    assert!(!WinnerRegistry::new().contains(&name("alice")));
}

#[test]
fn ledger_marks_stay() {
    let mut ledger = ClaimLedger::new();
    assert!(!ledger.has_claimed(&name("alice")));
    ledger.mark(name("alice"));
    assert!(ledger.has_claimed(&name("alice")));
    assert!(!ledger.has_claimed(&name("bob")));
    ledger.mark(name("alice"));
    ledger.mark(name("bob"));
    assert!(ledger.has_claimed(&name("alice")));
    assert!(ledger.has_claimed(&name("bob")));
    assert_eq!(ledger.into_claimants(), vec![name("alice"), name("bob")]);
}

#[test]
fn ledger_from_claimants() {
    let ledger = ClaimLedger::from_claimants(vec![name("alice"), name("alice")]);
    assert!(ledger.has_claimed(&name("alice")));
    assert!(!ledger.has_claimed(&name("bob")));
}

#[test]
fn position_is_the_first_place() {
    let names = vec![name("a"), name("b"), name("a"), name("c")];
    assert_eq!(position(&names, &name("a")), Some(0));
    assert_eq!(position(&names, &name("b")), Some(1));
    assert_eq!(position(&names, &name("c")), Some(3));
    assert_eq!(position(&names, &name("d")), None);
    assert_eq!(position(&Vec::new(), &name("a")), None);
}

#[test]
fn distinct_lists() {
    assert!(all_distinct(&Vec::new()));
    assert!(all_distinct(&vec![name("a")]));
    assert!(all_distinct(&vec![name("a"), name("b"), name("c")]));
    assert!(!all_distinct(&vec![name("a"), name("b"), name("a")]));
    assert!(!all_distinct(&vec![name("a"), name("b"), name("b")]));
}

#[test]
fn lists_within_lists() {
    let among = vec![name("a"), name("b"), name("c")];
    assert!(all_within(&Vec::new(), &among));
    assert!(all_within(&vec![name("c"), name("a"), name("c")], &among));
    assert!(!all_within(&vec![name("a"), name("d")], &among));
    assert!(!all_within(&vec![name("a")], &Vec::new()));
}

#[test]
fn registry_refuses_a_list_with_a_member_twice() {
    assert!(WinnerRegistry::from_members(vec![name("alice"), name("bob"), name("alice")]).is_none());
    assert!(WinnerRegistry::from_members(Vec::new()).is_some());
}
