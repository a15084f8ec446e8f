use guessing_game::{Contract, GameError, Phase};

fn name(text: &str) -> String {
    text.to_string()
}

fn answer(text: &str) -> String {
    text.to_string()
}

/// A game with deadlines 5 and 6 and a prize of 100, whose creator has
/// committed "blue".
fn blue_game() -> Contract {
    let mut game = Contract::new(name("creator"), 0);
    assert_eq!(game.guess_deadline(), 5);
    assert_eq!(game.reveal_deadline(), 6);
    assert_eq!(game.total_prize(), 100);
    assert_eq!(game.set_commit_creator(1, name("creator"), answer("blue")), Ok(()));
    game
}

#[test]
fn one_winner_takes_the_whole_prize() {
    let mut game = blue_game();

    assert!(game.guess(2, name("alice"), answer("blue")));

    assert_eq!(game.phase(5), Phase::Reveal);
    assert_eq!(game.reveal_proposal(5, name("alice"), answer("blue")), Ok(()));
    assert!(game.is_winner(name("alice")));
    assert_eq!(game.winners().len(), 1);

    assert_eq!(game.phase(7), Phase::Closed);
    assert_eq!(game.claim(7, name("alice")), Ok(100));
    assert!(game.claimed().has_claimed(&name("alice")));

    assert_eq!(game.claim(8, name("alice")), Err(GameError::AlreadyClaimed));
}

#[test]
fn reveal_without_a_guess_fails() {
    let mut game = blue_game();
    assert!(game.guess(2, name("alice"), answer("blue")));
    assert_eq!(
        game.reveal_proposal(5, name("bob"), answer("blue")),
        Err(GameError::NoCommitment)
    );
    assert!(!game.is_winner(name("bob")));
    assert_eq!(game.winners().len(), 0);
}

#[test]
fn three_winners_share_and_the_rest_stays() {
    let mut game = blue_game();
    for player in ["alice", "bob", "carol"] {
        assert!(game.guess(3, name(player), answer("blue")));
    }
    assert!(game.guess(3, name("dave"), answer("green")));
    for player in ["carol", "alice", "bob"] {
        assert_eq!(game.reveal_proposal(5, name(player), answer("blue")), Ok(()));
    }
    assert_eq!(
        game.reveal_proposal(5, name("dave"), answer("green")),
        Err(GameError::NotAMatch)
    );
    assert_eq!(game.winners().len(), 3);

    let mut paid = 0;
    for player in ["alice", "bob", "carol"] {
        let share = game.claim(6, name(player)).unwrap();
        assert_eq!(share, 33);
        paid += share;
    }
    assert_eq!(paid, 99);
    assert!(paid <= game.total_prize());
    assert_eq!(game.claim(6, name("dave")), Err(GameError::NotWinner));
    for player in ["alice", "bob", "carol"] {
        assert_eq!(game.claim(9, name(player)), Err(GameError::AlreadyClaimed));
    }
}

#[test]
fn shares_round_down() {
    let mut game = Contract::create(name("creator"), 0, Contract::new_commitment(answer("x")), 7);
    assert!(game.guess(0, name("alice"), answer("x")));
    assert!(game.guess(0, name("bob"), answer("x")));
    assert_eq!(game.reveal_proposal(5, name("alice"), answer("x")), Ok(()));
    assert_eq!(game.reveal_proposal(5, name("bob"), answer("x")), Ok(()));
    assert_eq!(game.claim(6, name("bob")), Ok(3));
    assert_eq!(game.claim(6, name("alice")), Ok(3));
}

#[test]
fn a_prize_smaller_than_the_number_of_winners_pays_nothing() {
    let mut game = Contract::create(name("creator"), 0, Contract::new_commitment(answer("x")), 1);
    assert!(game.guess(0, name("alice"), answer("x")));
    assert!(game.guess(0, name("bob"), answer("x")));
    assert_eq!(game.reveal_proposal(5, name("alice"), answer("x")), Ok(()));
    assert_eq!(game.reveal_proposal(5, name("bob"), answer("x")), Ok(()));
    assert_eq!(game.claim(6, name("alice")), Ok(0));
    assert_eq!(game.claim(6, name("bob")), Ok(0));
    assert_eq!(game.claim(6, name("alice")), Err(GameError::AlreadyClaimed));
}

#[test]
fn create_stores_the_creator_commitment() {
    let digest = Contract::new_commitment(answer("blue"));
    let game = Contract::create(name("creator"), 10, digest.clone(), 250);
    assert_eq!(*game.creator(), name("creator"));
    assert_eq!(game.guess_deadline(), 15);
    assert_eq!(game.reveal_deadline(), 16);
    assert_eq!(game.total_prize(), 250);
    assert_eq!(game.commitments().get(&name("creator")), Some(&digest));
    assert_eq!(game.commitments().get(&name("alice")), None);
    assert_eq!(game.winners().len(), 0);
    assert!(!game.claimed().has_claimed(&name("creator")));
}

#[test]
fn new_leaves_the_stores_empty() {
    let game = Contract::new(name("creator"), 0);
    let snapshot = game.into_snapshot();
    assert!(snapshot.commitments.is_empty());
    assert!(snapshot.winners.is_empty());
    assert!(snapshot.claimed.is_empty());
}
