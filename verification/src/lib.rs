//! Elimination tournaments for holders of collectibles.
//!
//! A battleground admits entrants whose collectible belongs to its
//! collection, takes an entry fee from each, and, once full, lets them spend
//! action points that accrue with time to attack or heal one another. The
//! last entrant alive is paid the pot and the battleground opens again.
//!
//! The library decides and computes. Each operation takes the records it
//! concerns as plain values, checks the rules, updates the records and says
//! what is owed to whom and what is to be announced. Finding and keeping the
//! records, moving the funds and telling the world are its caller's part.

pub mod accounts;
pub mod collection;
pub mod combat;
pub mod errors;
pub mod events;
pub mod instructions;
pub mod keccak;
pub mod merkle;
pub mod points;
pub mod pubkey;
pub mod settlement;
pub mod state;

pub use crate::errors::BattleRoyaleError;
pub use crate::pubkey::Pubkey;
