//! A timed token-sale escrow engine.
//!
//! One campaign collects a payment asset from participants in exchange for a
//! future allocation of a sale asset, enforces caps and an allow-list, and
//! later releases the sale asset under a vesting schedule — or refunds the
//! payments if the soft cap was missed. The engine itself never moves
//! balances: every operation is a function from the campaign state, the
//! caller-supplied time and the relevant vault balance to either an updated
//! state plus an event describing the transfer owed, or a typed error that
//! leaves every record unchanged.

pub mod allowlist;
pub mod bytes32;
pub mod config;
pub mod dollar_token;
pub mod engine;
pub mod errors;
pub mod events;
pub mod laws;
pub mod pricing;
pub mod state;
pub mod vesting;
