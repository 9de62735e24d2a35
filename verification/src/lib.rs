//! Capped, numbered tickets that are claimed against a signed authorization,
//! and the collection state machine that governs them.
//!
//! - [`keys`]: 32-byte identities.
//! - [`codec`]: the canonical message of a claim, its digest, and the layout
//!   of a verification record.
//! - [`instructions`]: reading the verification record out of the running
//!   transaction.
//! - [`authorization`]: binding a proof to a request.
//! - [`state`], [`events`], [`error`]: the records, what is reported, and
//!   why an operation is refused.
//! - [`ops`]: the lifecycle operations on the records.
//! - [`ledger`]: a collection with its live tickets.
//! - [`laws`]: what holds of the ledger whatever is asked of it.

pub mod authorization;
pub mod codec;
pub mod error;
pub mod events;
pub mod instructions;
pub mod keys;
pub mod laws;
pub mod ledger;
pub mod ops;
pub mod state;
