//! Runs of a game: the calls made on it, one after the other.

use crate::model::GameState;
use vstd::prelude::*;

verus! {

/// One call of an operation, with the time at which it is made.
pub enum Event {
    /// The creator's commitment is offered by `caller`.
    SetCommit { now: u64, caller: Seq<char>, digest: Seq<char> },
    /// A guess is offered by `user`.
    Guess { now: u64, user: Seq<char>, digest: Seq<char> },
    /// An answer with this digest is revealed by `caller`.
    Reveal { now: u64, caller: Seq<char>, digest: Seq<char> },
    /// The share of `identity` is claimed.
    Claim { now: u64, identity: Seq<char> },
}

impl Event {
    /// The time at which the call is made.
    pub open spec fn time(self) -> u64 {
        match self {
            Event::SetCommit { now, .. } => now,
            Event::Guess { now, .. } => now,
            Event::Reveal { now, .. } => now,
            Event::Claim { now, .. } => now,
        }
    }
}

/// The calls are made at times that never decrease.
pub open spec fn in_time_order(events: Seq<Event>) -> bool {
    forall|i: int, j: int| 0 <= i <= j < events.len() ==> events[i].time() <= events[j].time()
}

/// None of the calls is made before `time`.
pub open spec fn not_before(events: Seq<Event>, time: u64) -> bool {
    forall|i: int| 0 <= i < events.len() ==> events[i].time() >= time
}

impl GameState {
    /// The game that one call leaves.
    pub open spec fn after(self, event: Event) -> GameState {
        match event {
            Event::SetCommit { now, caller, digest } => self.after_set_commit(now, caller, digest),
            Event::Guess { now, user, digest } => self.after_guess(now, user, digest),
            Event::Reveal { now, caller, digest } => self.after_reveal(now, caller, digest),
            Event::Claim { now, identity } => self.after_claim(now, identity),
        }
    }

    /// Whether one call is accepted.
    pub open spec fn accepts(self, event: Event) -> bool {
        match event {
            Event::SetCommit { now, caller, .. } => self.set_commit_outcome(now, caller) is Ok,
            Event::Guess { now, user, .. } => self.guess_accepted(now, user),
            Event::Reveal { now, caller, digest } => self.reveal_outcome(now, caller, digest) is Ok,
            Event::Claim { now, identity } => self.claim_outcome(now, identity) is Ok,
        }
    }

    /// The amount that one call pays out, to whomever.
    pub open spec fn paid(self, event: Event) -> int {
        match event {
            Event::Claim { now, identity } => match self.claim_outcome(now, identity) {
                Ok(amount) => amount as int,
                Err(_) => 0,
            },
            _ => 0,
        }
    }

    /// Whether one call is a claim of `identity` that is accepted.
    pub open spec fn pays(self, event: Event, identity: Seq<char>) -> bool {
        match event {
            Event::Claim { now, identity: claimant } => claimant == identity && self.claim_outcome(
                now,
                claimant,
            ) is Ok,
            _ => false,
        }
    }

    /// The game that the calls leave, made in their order.
    pub open spec fn after_all(self, events: Seq<Event>) -> GameState
        decreases events.len(),
    {
        if events.len() == 0 {
            self
        } else {
            self.after(events.first()).after_all(events.drop_first())
        }
    }

    /// The amount that the calls pay out in all.
    pub open spec fn paid_in_all(self, events: Seq<Event>) -> int
        decreases events.len(),
    {
        if events.len() == 0 {
            0
        } else {
            self.paid(events.first()) + self.after(events.first()).paid_in_all(
                events.drop_first(),
            )
        }
    }

    /// How many of the calls are accepted claims of `identity`.
    pub open spec fn times_paid(self, events: Seq<Event>, identity: Seq<char>) -> nat
        decreases events.len(),
    {
        if events.len() == 0 {
            0
        } else {
            let rest = self.after(events.first()).times_paid(events.drop_first(), identity);
            if self.pays(events.first(), identity) {
                rest + 1
            } else {
                rest
            }
        }
    }
}

} // verus!
