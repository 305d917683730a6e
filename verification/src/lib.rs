//! Two-party, wager-based rock-paper-scissors with hash commitments.
//!
//! Both players commit to their moves with a salted Keccak-256 hash before
//! either can see the other's, reveal them within a fixed window, and settle a
//! pooled stake. This crate holds the rules of the match: the lifecycle of a
//! [`state::Game`] record, the check of a commitment, the resolution of the
//! rounds and the distribution of the pot. Moving funds is left to the
//! caller: every operation returns the transfers it asks for.
pub mod bytes;
pub mod commitment;
pub mod errors;
pub mod identity;
pub mod instructions;
pub mod laws;
pub mod lifecycle;
pub mod payout;
pub mod resolver;
pub mod state;
