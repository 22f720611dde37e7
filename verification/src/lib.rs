//! Pairwise ranking core: a bounded buffer of precomputed duels, the
//! single-flight refill policy that keeps it filled, and the matchmaking
//! rules that produce the duels.

pub mod duel;
pub mod error;
pub mod queue;
pub mod buffer;
pub mod coordinator;
mod random;
pub mod matchmaker;
pub mod simulation;
pub mod rating;
pub mod collection;

pub use crate::duel::{Duel, ImageCollectionOptions, Match, Outcome, Player};
pub use crate::buffer::CandidateBuffer;
pub use crate::collection::{ImageCollection, NextDuel};
pub use crate::coordinator::RefreshCoordinator;
pub use crate::error::CollectionError;
pub use crate::matchmaker::HomeCandidates;
