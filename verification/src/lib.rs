//! Settlement of a commit-reveal guessing game.
//!
//! A creator commits to a secret answer, participants commit guesses while the
//! commit window is open, and answers are revealed in a second window. A
//! participant whose revealed answer carries the creator's commitment becomes a
//! winner and may, once the game is closed, claim an equal share of the prize.
//!
//! The game is an explicit state value. The clock and the caller's identity are
//! arguments of every operation, and a payout is returned as an amount for the
//! host to transfer.

pub mod claims;
pub mod commitments;
pub mod contract;
pub mod digest;
pub mod error;
pub mod history;
pub mod identity;
pub mod laws;
pub mod model;
pub mod phase;
pub mod snapshot;
pub mod winners;

pub use contract::Contract;
pub use digest::commitment_digest;
pub use error::GameError;
pub use history::Event;
pub use model::GameState;
pub use phase::{phase_of, Phase};
pub use snapshot::Snapshot;
