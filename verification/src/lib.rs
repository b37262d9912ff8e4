//! Tiered, time-limited subscriptions and a write-once argument registry,
//! written as an explicit state machine: every operation takes the contract
//! state, the caller and the ledger time, and either changes the state and
//! names the notification to emit, or fails and leaves the state untouched.

pub mod address;
pub mod amount;
pub mod error;
pub mod events;
pub mod access;
pub mod subscription;
pub mod argument;
pub mod subscribers;
pub mod state;
pub mod contract;
pub mod laws;
