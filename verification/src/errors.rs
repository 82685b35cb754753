use vstd::prelude::*;

verus! {

/// The error kinds an operation of the engine can report.
///
/// `WaitFor` is the cooldown rejection: the requester's previous claim is too
/// recent. The remaining kinds cover a pool created twice, an account the
/// caller does not control (or a vault not bound to the derived authority),
/// a first claim repeated, an escrow balance below the pool's amount, and an
/// exhausted derivation space (practically unreachable).
#[derive(Clone, Copy, Debug, PartialEq, Eq, Structural)]
pub enum FaucetErrors {
    WaitFor,
    AlreadyInitialized,
    Unauthorized,
    AlreadyClaimed,
    InsufficientFunds,
    DerivationExhausted,
}

} // verus!
