//! What holds of every game: the laws of the contract, proved from the
//! functions of [`crate::model`] that the operations are stated against.

use crate::digest::commitment_of;
use crate::error::GameError;
use crate::history::{in_time_order, not_before, Event};
use crate::model::GameState;
use crate::phase::Phase;
use vstd::prelude::*;

verus! {

/// A guess before the guess deadline by anyone but the creator is accepted and
/// stores the answer's digest under the guesser; a second such guess by the
/// same identity puts its own digest in place of the first.
pub proof fn law_guess_stores_and_overwrites(
    game: GameState,
    user: Seq<char>,
    first: u64,
    answer: Seq<char>,
    second: u64,
    later_answer: Seq<char>,
)
    requires
        user != game.creator,
        first < game.guess_deadline,
        second < game.guess_deadline,
    ensures
        game.guess_accepted(first, user),
        game.after_guess(first, user, commitment_of(answer)).commitments.contains_key(user),
        game.after_guess(first, user, commitment_of(answer)).commitments[user] == commitment_of(
            answer,
        ),
        game.after_guess(first, user, commitment_of(answer)).guess_accepted(second, user),
        game.after_guess(first, user, commitment_of(answer)).after_guess(
            second,
            user,
            commitment_of(later_answer),
        ).commitments[user] == commitment_of(later_answer),
        game.after_guess(first, user, commitment_of(answer)).after_guess(
            second,
            user,
            commitment_of(later_answer),
        ) == game.after_guess(second, user, commitment_of(later_answer)),
{
    let once = game.after_guess(first, user, commitment_of(answer));
    let twice = once.after_guess(second, user, commitment_of(later_answer));
    let direct = game.after_guess(second, user, commitment_of(later_answer));
    assert(twice.commitments =~= direct.commitments);
}

/// A guess of the creator is never accepted, at whatever time, and leaves the
/// game as it was.
pub proof fn law_creator_cannot_guess(game: GameState, now: u64, digest: Seq<char>)
    ensures
        !game.guess_accepted(now, game.creator),
        game.after_guess(now, game.creator, digest) == game,
{
}

/// In the reveal period a reveal is accepted if and only if the answer's
/// digest is both what the caller committed and what the creator committed,
/// and the caller is not the creator. Whoever the caller is, a reveal without
/// a commitment of the caller is rejected for that, one whose digest is not
/// what the caller committed is rejected as a mismatch, and one whose digest
/// the creator did not commit is rejected as no match; the creator's reveal
/// is rejected for its caller only where all of these pass. An accepted
/// caller is a winner afterwards; a rejected reveal leaves the game as it
/// was.
pub proof fn law_reveal_accepted_iff_match(
    game: GameState,
    now: u64,
    caller: Seq<char>,
    answer: Seq<char>,
)
    requires
        game.phase(now) == Phase::Reveal,
    ensures
        game.reveal_outcome(now, caller, commitment_of(answer)) is Ok <==> (
        game.commitments.contains_key(caller) && game.commitments[caller] == commitment_of(answer)
            && game.commitments.contains_key(game.creator) && game.commitments[game.creator]
            == commitment_of(answer) && caller != game.creator),
        !game.commitments.contains_key(caller) ==> game.reveal_outcome(
            now,
            caller,
            commitment_of(answer),
        ) == Err::<(), GameError>(GameError::NoCommitment),
        game.commitments.contains_key(caller) && game.commitments[caller] != commitment_of(answer)
            ==> game.reveal_outcome(now, caller, commitment_of(answer)) == Err::<(), GameError>(
            GameError::AnswerMismatch,
        ),
        game.commitments.contains_key(caller) && game.commitments[caller] == commitment_of(answer)
            && !(game.commitments.contains_key(game.creator) && game.commitments[game.creator]
            == commitment_of(answer)) ==> game.reveal_outcome(now, caller, commitment_of(answer))
            == Err::<(), GameError>(GameError::NotAMatch),
        game.reveal_outcome(now, caller, commitment_of(answer)) == Err::<(), GameError>(
            GameError::Authorization,
        ) <==> (caller == game.creator && game.commitments.contains_key(caller)
            && game.commitments[caller] == commitment_of(answer)),
        game.reveal_outcome(now, caller, commitment_of(answer)) is Ok ==> game.after_reveal(
            now,
            caller,
            commitment_of(answer),
        ).winners.contains(caller),
        game.reveal_outcome(now, caller, commitment_of(answer)) is Err ==> game.after_reveal(
            now,
            caller,
            commitment_of(answer),
        ) == game,
{
    let digest = commitment_of(answer);
    if game.reveal_outcome(now, caller, digest) is Ok && !game.winners.contains(caller) {
        vstd::seq_lib::lemma_seq_contains_after_push(game.winners, caller, caller);
    }
}

/// Revealing twice is revealing once: where a reveal is accepted, the same
/// reveal made again in the reveal period is accepted again and changes
/// nothing, and the caller stands in the winners exactly once.
pub proof fn law_reveal_is_idempotent(
    game: GameState,
    first: u64,
    second: u64,
    caller: Seq<char>,
    digest: Seq<char>,
)
    requires
        game.inv(),
        game.reveal_outcome(first, caller, digest) is Ok,
        game.phase(second) == Phase::Reveal,
    ensures
        game.after_reveal(first, caller, digest).reveal_outcome(second, caller, digest) is Ok,
        game.after_reveal(first, caller, digest).after_reveal(second, caller, digest)
            == game.after_reveal(first, caller, digest),
        game.after_reveal(first, caller, digest).winners.contains(caller),
        forall|i: int, j: int|
            #![trigger
                game.after_reveal(first, caller, digest).winners[i],
                game.after_reveal(first, caller, digest).winners[j],
            ]
            0 <= i < game.after_reveal(first, caller, digest).winners.len() && 0 <= j
                < game.after_reveal(first, caller, digest).winners.len() && game.after_reveal(
                first,
                caller,
                digest,
            ).winners[i] == caller && game.after_reveal(first, caller, digest).winners[j]
                == caller ==> i == j,
{
    lemma_step_keeps_invariant(game, Event::Reveal { now: first, caller, digest });
    if !game.winners.contains(caller) {
        vstd::seq_lib::lemma_seq_contains_after_push(game.winners, caller, caller);
    }
}

/// A winner whose claim was accepted cannot claim again: the next claim made
/// once the game is closed is rejected as already claimed.
pub proof fn law_second_claim_rejected(
    game: GameState,
    first: u64,
    second: u64,
    identity: Seq<char>,
)
    requires
        game.inv(),
        game.claim_outcome(first, identity) is Ok,
        second >= game.reveal_deadline,
    ensures
        game.after_claim(first, identity).claim_outcome(second, identity) == Err::<
            u64,
            GameError,
        >(GameError::AlreadyClaimed),
{
}

/// Whatever calls are made on a game, in whatever order and at whatever
/// times, at most one claim of any one identity is accepted, and none where
/// its share was paid before.
pub proof fn law_claim_at_most_once(game: GameState, events: Seq<Event>, identity: Seq<char>)
    ensures
        game.times_paid(events, identity) <= 1,
        game.claimed.contains(identity) ==> game.times_paid(events, identity) == 0,
    decreases events.len(),
{
    if events.len() > 0 {
        let next = game.after(events.first());
        law_claim_at_most_once(next, events.drop_first(), identity);
        if game.claimed.contains(identity) {
            assert(next.claimed.contains(identity));
        }
    }
}

/// Every call keeps the invariant of the game and its fixed terms.
pub proof fn lemma_step_keeps_invariant(game: GameState, event: Event)
    requires
        game.inv(),
    ensures
        game.after(event).inv(),
        game.after(event).creator == game.creator,
        game.after(event).guess_deadline == game.guess_deadline,
        game.after(event).reveal_deadline == game.reveal_deadline,
        game.after(event).total_prize == game.total_prize,
{
    match event {
        Event::Reveal { now, caller, digest } => {
            assert forall|identity: Seq<char>|
                game.winners.push(caller).contains(identity) == (caller == identity
                    || game.winners.contains(identity)) by {
                vstd::seq_lib::lemma_seq_contains_after_push(game.winners, caller, identity);
            }
        },
        _ => {},
    }
}

/// Every run keeps the invariant of the game and its fixed terms.
pub proof fn law_invariant_kept(game: GameState, events: Seq<Event>)
    requires
        game.inv(),
    ensures
        game.after_all(events).inv(),
        game.after_all(events).creator == game.creator,
        game.after_all(events).guess_deadline == game.guess_deadline,
        game.after_all(events).reveal_deadline == game.reveal_deadline,
        game.after_all(events).total_prize == game.total_prize,
    decreases events.len(),
{
    if events.len() > 0 {
        lemma_step_keeps_invariant(game, events.first());
        law_invariant_kept(game.after(events.first()), events.drop_first());
    }
}

/// A call either applies in full or not at all: one that is rejected leaves
/// the game as it was and pays nothing.
pub proof fn law_rejected_call_changes_nothing(game: GameState, event: Event)
    requires
        !game.accepts(event),
    ensures
        game.after(event) == game,
        game.paid(event) == 0,
{
}

/// The stores of winners and of claims only grow: whatever calls are made, the
/// winners of before stay first among the winners, in their order, and whoever
/// was paid stays marked as paid.
pub proof fn law_stores_only_grow(game: GameState, events: Seq<Event>)
    ensures
        game.winners.is_prefix_of(game.after_all(events).winners),
        game.claimed.subset_of(game.after_all(events).claimed),
    decreases events.len(),
{
    if events.len() > 0 {
        let next = game.after(events.first());
        assert(game.winners.is_prefix_of(next.winners));
        law_stores_only_grow(next, events.drop_first());
    }
}

/// Once the game is closed the winners are settled: no call adds one.
proof fn lemma_closed_run_keeps_winners(game: GameState, events: Seq<Event>)
    requires
        not_before(events, game.reveal_deadline),
    ensures
        game.after_all(events).winners == game.winners,
        game.after_all(events).total_prize == game.total_prize,
    decreases events.len(),
{
    if events.len() > 0 {
        let next = game.after(events.first());
        let rest = events.drop_first();
        assert(events.first() == events[0]);
        assert forall|i: int| 0 <= i < rest.len() implies rest[i].time()
            >= next.reveal_deadline by {
            assert(rest[i] == events[i + 1]);
        }
        lemma_closed_run_keeps_winners(next, rest);
    }
}

/// Equal shares: whatever is called in between once the game is closed, two
/// claims that are accepted pay the same amount, in whatever order the two
/// winners revealed and in whatever order they claim.
pub proof fn law_equal_shares(
    game: GameState,
    first: Event,
    between: Seq<Event>,
    second: Event,
)
    requires
        first is Claim,
        second is Claim,
        game.accepts(first),
        not_before(between, game.reveal_deadline),
        game.after(first).after_all(between).accepts(second),
    ensures
        game.paid(first) == game.after(first).after_all(between).paid(second),
{
    lemma_closed_run_keeps_winners(game.after(first), between);
}

/// The number of winners that were not paid yet.
spec fn unpaid_winners(game: GameState) -> int {
    game.winners.len() - game.claimed.len()
}

/// In a game that meets its invariant no more identities are paid than won.
proof fn lemma_claimed_within_winners(game: GameState)
    requires
        game.inv(),
    ensures
        game.claimed.len() <= game.winners.len(),
{
    game.winners.unique_seq_to_set();
    vstd::seq_lib::seq_to_set_is_finite(game.winners);
    assert(game.claimed.subset_of(game.winners.to_set()));
    vstd::set_lib::lemma_len_subset(game.claimed, game.winners.to_set());
}

/// Once the game is closed, what a run pays out is at most one share for each
/// winner that was not paid yet.
proof fn lemma_closed_run_pays_unpaid_shares(game: GameState, events: Seq<Event>)
    requires
        game.inv(),
        not_before(events, game.reveal_deadline),
    ensures
        game.winners.len() > 0 ==> game.paid_in_all(events) <= unpaid_winners(game)
            * game.share(),
        game.winners.len() == 0 ==> game.paid_in_all(events) == 0,
    decreases events.len(),
{
    lemma_claimed_within_winners(game);
    if game.winners.len() > 0 {
        let count = game.winners.len() as int;
        let total = game.total_prize as int;
        assert(0 <= total / count <= total) by (nonlinear_arith)
            requires
                count > 0,
                total >= 0,
        ;
        assert(0 <= unpaid_winners(game) * game.share()) by (nonlinear_arith)
            requires
                unpaid_winners(game) >= 0,
                game.share() >= 0,
        ;
    }
    if events.len() > 0 {
        let event = events.first();
        let next = game.after(event);
        let rest = events.drop_first();
        assert(event == events[0]);
        assert forall|i: int| 0 <= i < rest.len() implies rest[i].time()
            >= next.reveal_deadline by {
            assert(rest[i] == events[i + 1]);
        }
        lemma_step_keeps_invariant(game, event);
        lemma_closed_run_pays_unpaid_shares(next, rest);
        lemma_claimed_within_winners(next);
        assert(next.winners == game.winners);
        if game.paid(event) != 0 {
            assert(game.paid(event) == game.share());
            assert(unpaid_winners(next) == unpaid_winners(game) - 1);
            assert((unpaid_winners(game) - 1) * game.share() + game.share() == unpaid_winners(
                game,
            ) * game.share()) by (nonlinear_arith);
        } else {
            assert(next.claimed.len() >= game.claimed.len()) by {
                if next.claimed != game.claimed {
                    assert(event is Claim);
                }
            }
            if game.winners.len() > 0 {
                assert(unpaid_winners(next) * game.share() <= unpaid_winners(game)
                    * game.share()) by (nonlinear_arith)
                    requires
                        unpaid_winners(next) <= unpaid_winners(game),
                        game.share() >= 0,
                ;
            }
        }
    }
}

/// Payout bound: whatever calls are made on a game at times that never
/// decrease, the shares that they pay out sum to at most the prize. Of a run
/// that starts at the game's creation these are all the shares ever paid.
pub proof fn law_payout_bound(game: GameState, events: Seq<Event>)
    requires
        game.inv(),
        in_time_order(events),
    ensures
        0 <= game.paid_in_all(events) <= game.total_prize,
    decreases events.len(),
{
    if events.len() > 0 {
        let event = events.first();
        let next = game.after(event);
        let rest = events.drop_first();
        assert(event == events[0]);
        if event.time() >= game.reveal_deadline {
            assert forall|i: int| 0 <= i < events.len() implies events[i].time()
                >= game.reveal_deadline by {
                assert(events[0].time() <= events[i].time());
            }
            lemma_closed_run_pays_unpaid_shares(game, events);
            lemma_paid_is_not_negative(game, events);
            lemma_claimed_within_winners(game);
            if game.winners.len() > 0 {
                let count = game.winners.len() as int;
                let total = game.total_prize as int;
                assert(unpaid_winners(game) * (total / count) <= total) by (nonlinear_arith)
                    requires
                        0 <= unpaid_winners(game) <= count,
                        count > 0,
                        total >= 0,
                ;
            }
        } else {
            assert(in_time_order(rest)) by {
                assert forall|i: int, j: int| 0 <= i <= j < rest.len() implies rest[i].time()
                    <= rest[j].time() by {
                    assert(rest[i] == events[i + 1]);
                    assert(rest[j] == events[j + 1]);
                }
            }
            lemma_step_keeps_invariant(game, event);
            assert(game.paid(event) == 0);
            law_payout_bound(next, rest);
        }
    }
}

/// No run pays out a negative amount.
proof fn lemma_paid_is_not_negative(game: GameState, events: Seq<Event>)
    ensures
        game.paid_in_all(events) >= 0,
    decreases events.len(),
{
    if events.len() > 0 {
        lemma_paid_is_not_negative(game.after(events.first()), events.drop_first());
    }
}

/// Phase monotonicity: from the reveal deadline on the game is closed and
/// stays closed. No guess, no commitment of the creator and no reveal is
/// accepted any more, and no claim is rejected for its time.
pub proof fn law_closed_for_good(
    game: GameState,
    now: u64,
    later: u64,
    identity: Seq<char>,
    digest: Seq<char>,
)
    requires
        game.inv(),
        game.reveal_deadline <= now <= later,
    ensures
        game.phase(later) == Phase::Closed,
        !game.guess_accepted(later, identity),
        game.after_guess(later, identity, digest) == game,
        game.set_commit_outcome(later, identity) == Err::<(), GameError>(GameError::Phase),
        game.reveal_outcome(later, identity, digest) == Err::<(), GameError>(GameError::Phase),
        game.after_reveal(later, identity, digest) == game,
        game.claim_outcome(later, identity) != Err::<u64, GameError>(GameError::Phase),
{
}

/// The windows of the operations: a guess or a commitment of the creator is
/// accepted only before the guess deadline, a reveal only from the guess
/// deadline up to the reveal deadline, a claim only from the reveal deadline
/// on.
pub proof fn law_windows(game: GameState, now: u64, identity: Seq<char>, digest: Seq<char>)
    ensures
        game.guess_accepted(now, identity) ==> now < game.guess_deadline,
        game.set_commit_outcome(now, identity) is Ok ==> now < game.guess_deadline,
        game.reveal_outcome(now, identity, digest) is Ok ==> game.guess_deadline <= now
            < game.reveal_deadline,
        game.claim_outcome(now, identity) is Ok ==> game.reveal_deadline <= now,
{
}

/// The winners grow by an accepted reveal only: an identity that a call makes
/// a winner is the caller of a reveal whose digest is both what the caller
/// committed and what the creator committed.
pub proof fn law_winner_only_by_matching_reveal(
    game: GameState,
    event: Event,
    identity: Seq<char>,
)
    requires
        !game.winners.contains(identity),
        game.after(event).winners.contains(identity),
    ensures
        event is Reveal,
        event->Reveal_caller == identity,
        game.phase(event->Reveal_now) == Phase::Reveal,
        game.commitments.contains_key(identity),
        game.commitments[identity] == event->Reveal_digest,
        game.commitments.contains_key(game.creator),
        game.commitments[game.creator] == event->Reveal_digest,
{
    match event {
        Event::Reveal { now, caller, digest } => {
            vstd::seq_lib::lemma_seq_contains_after_push(game.winners, caller, identity);
        },
        _ => {},
    }
}

} // verus!
