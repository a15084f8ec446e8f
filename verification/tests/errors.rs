use guessing_game::{Contract, GameError};

fn name(text: &str) -> String {
    text.to_string()
}

fn digest(text: &str) -> String {
    Contract::new_commitment(text.to_string())
}

#[test]
fn set_commit_creator_by_another_is_not_authorized() {
    let mut game = Contract::new(name("creator"), 0);
    assert_eq!(
        game.set_commit_creator(1, name("alice"), name("blue")),
        Err(GameError::Authorization)
    );
    assert_eq!(game.commitments().get(&name("alice")), None);
    assert_eq!(game.commitments().get(&name("creator")), None);
}

#[test]
fn set_commit_creator_after_the_commit_period_is_out_of_phase() {
    let mut game = Contract::new(name("creator"), 0);
    assert_eq!(game.set_commit_creator(5, name("creator"), name("blue")), Err(GameError::Phase));
    assert_eq!(game.set_commit_creator(5, name("alice"), name("blue")), Err(GameError::Phase));
    assert_eq!(game.commitments().get(&name("creator")), None);
}

#[test]
fn set_commit_creator_overwrites() {
    let mut game = Contract::new(name("creator"), 0);
    assert_eq!(game.set_commit_creator(0, name("creator"), name("blue")), Ok(()));
    assert_eq!(game.commitments().get(&name("creator")), Some(&digest("blue")));
    assert_eq!(game.set_commit_creator(4, name("creator"), name("red")), Ok(()));
    assert_eq!(game.commitments().get(&name("creator")), Some(&digest("red")));
}

#[test]
fn verify_names_each_failure() {
    let mut game = Contract::new(name("creator"), 0);
    assert!(game.guess(0, name("alice"), name("blue")));
    assert_eq!(game.verify(&name("bob"), name("blue")), Err(GameError::NoCommitment));
    assert_eq!(game.verify(&name("alice"), name("red")), Err(GameError::AnswerMismatch));
    assert_eq!(game.verify(&name("alice"), name("blue")), Err(GameError::NotAMatch));
    assert_eq!(game.set_commit_creator(0, name("creator"), name("red")), Ok(()));
    assert_eq!(game.verify(&name("alice"), name("blue")), Err(GameError::NotAMatch));
    assert_eq!(game.set_commit_creator(0, name("creator"), name("blue")), Ok(()));
    assert_eq!(game.verify(&name("alice"), name("blue")), Ok(()));
    assert_eq!(game.verify_digest(&name("alice"), &digest("blue")), Ok(()));
    assert_eq!(game.verify_digest(&name("alice"), &name("blue")), Err(GameError::AnswerMismatch));
}

#[test]
fn digests_are_taken_as_they_are() {
    let mut game = Contract::new(name("creator"), 0);
    assert_eq!(game.commit_creator_digest(0, name("creator"), name("d1")), Ok(()));
    assert!(game.commit_guess(0, name("alice"), name("d1")));
    assert!(game.commit_guess(0, name("bob"), name("d2")));
    assert!(!game.commit_guess(0, name("creator"), name("d2")));
    assert_eq!(game.commitments().get(&name("alice")), Some(&name("d1")));
    assert_eq!(game.reveal_digest(5, name("alice"), name("d1")), Ok(()));
    assert_eq!(game.reveal_digest(5, name("bob"), name("d2")), Err(GameError::NotAMatch));
    assert_eq!(game.reveal_digest(5, name("bob"), name("d1")), Err(GameError::AnswerMismatch));
    assert_eq!(game.reveal_digest(5, name("carol"), name("d1")), Err(GameError::NoCommitment));
    assert_eq!(game.reveal_digest(6, name("alice"), name("d1")), Err(GameError::Phase));
    assert_eq!(game.reveal_digest(5, name("creator"), name("d1")), Err(GameError::Authorization));
}

#[test]
fn claim_names_each_failure() {
    let mut game = Contract::create(name("creator"), 0, digest("blue"), 100);
    assert!(game.guess(0, name("alice"), name("blue")));
    assert_eq!(game.reveal_proposal(5, name("alice"), name("blue")), Ok(()));
    assert_eq!(game.claim(5, name("alice")), Err(GameError::Phase));
    assert_eq!(game.claim(5, name("bob")), Err(GameError::Phase));
    assert_eq!(game.claim(6, name("bob")), Err(GameError::NotWinner));
    assert_eq!(game.claim(6, name("creator")), Err(GameError::NotWinner));
    assert_eq!(game.claim(6, name("alice")), Ok(100));
    assert_eq!(game.claim(6, name("alice")), Err(GameError::AlreadyClaimed));
}

#[test]
fn a_rejected_call_changes_nothing() {
    let mut game = Contract::create(name("creator"), 0, digest("blue"), 100);
    assert!(game.guess(0, name("alice"), name("blue")));
    let before = game.clone().into_snapshot();

    assert!(!game.guess(5, name("bob"), name("blue")));
    assert!(!game.guess(0, name("creator"), name("red")));
    assert_eq!(game.set_commit_creator(0, name("alice"), name("red")), Err(GameError::Authorization));
    assert_eq!(game.reveal_proposal(4, name("alice"), name("blue")), Err(GameError::Phase));
    assert_eq!(game.reveal_proposal(5, name("alice"), name("red")), Err(GameError::AnswerMismatch));
    assert_eq!(game.reveal_proposal(5, name("bob"), name("blue")), Err(GameError::NoCommitment));
    assert_eq!(game.claim(6, name("alice")), Err(GameError::NotWinner));

    let after = game.into_snapshot();
    assert_eq!(after.creator, before.creator);
    assert_eq!(after.guess_deadline, before.guess_deadline);
    assert_eq!(after.reveal_deadline, before.reveal_deadline);
    assert_eq!(after.total_prize, before.total_prize);
    assert_eq!(after.commitments, before.commitments);
    assert_eq!(after.winners, before.winners);
    assert_eq!(after.claimed, before.claimed);
}
