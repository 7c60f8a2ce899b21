//! A wagering engine for a rock-paper-scissors-style game.
//!
//! Two parties stake identified assets on a multi-round hand competition
//! (the offer lifecycle), and a single party can wager fungible tokens
//! against a house balance resolved by a deterministic pseudo-random draw.
//! The engine is a state-transition handler: each command is applied to an
//! in-memory ledger value, and every handler carries a contract describing
//! exactly how the ledger and the emitted instructions change.

pub mod contract;
pub mod error;
pub mod hand;
pub mod msg;
pub mod state;
pub mod utils;
pub mod validation;
pub mod viewing_key;
