//! Address-derivation and instruction-encoding layer for a decentralized
//! compute-job marketplace.
//!
//! Callers request computation jobs, providers submit sealed price bids in an
//! auction, and winning providers are paid to execute and submit results.
//! This crate builds the exact binary requests ("instructions") that the
//! external execution engine consumes; it executes no business logic itself
//! and holds no state: every value is recomputed per call from its inputs.

pub mod addr;
pub mod chain;
pub mod commit;
pub mod ids;
pub mod payload;
pub mod sdk;
pub mod tier;
