//! A rate-limited asset distribution engine.
//!
//! An administrator funds a shared escrow wallet for one asset and fixes the
//! terms (amount per claim, cooldown between claims). Any requester may then
//! draw the fixed amount, with their very first claim unconditional and every
//! later claim gated by the cooldown. The escrow wallet is controlled by a
//! program-derived authority for which no private key exists, so only the
//! engine's own logic can authorize a debit.

pub mod authority;
pub mod errors;
pub mod laws;
pub mod protocol;
pub mod state;
