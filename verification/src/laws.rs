use vstd::prelude::*;

use crate::authority::{derivation_view, pda_of, vault_bound};
use crate::errors::FaucetErrors;
use crate::protocol::{initialize_check, spec_airdrop, spec_first_airdrop};
use crate::state::{Airdrop, FirstAirdrop, Initialize};

verus! {

broadcast use vstd::array::group_array_axioms;

/// Idempotent derivation: any two results that meet the contract of `derive`
/// for the same asset and program identity are the same pair, so every call
/// returns the same address and discriminant.
pub proof fn lemma_derive_deterministic(
    r1: Option<([u8; 32], u8)>,
    r2: Option<([u8; 32], u8)>,
    asset_id: [u8; 32],
    program_identity: [u8; 32],
)
    requires
        derivation_view(r1) == pda_of(asset_id@, program_identity@),
        derivation_view(r2) == pda_of(asset_id@, program_identity@),
    ensures
        r1 == r2,
{
    match (r1, r2) {
        (Some(p1), Some(p2)) => {
            assert(p1.0@ == p2.0@);
            assert(p1.0 =~= p2.0);
        },
        _ => {},
    }
}

/// One pool per asset: while a pool record exists, creating it again fails
/// with `AlreadyInitialized` — and a failed creation changes nothing, by the
/// contract of `initialize`, so the pool's terms survive the attempt.
pub proof fn lemma_one_pool_per_asset(pre: Initialize, mint: [u8; 32], program_id: Seq<u8>)
    requires
        pre.faucet is Some,
    ensures
        initialize_check(pre, mint, program_id) == Some(FaucetErrors::AlreadyInitialized),
{
}

/// First claim unconditional: a requester with no cooldown record, drawing to
/// their own account from a vault that is bound to the derived authority and
/// holds at least the pool's amount, succeeds at every ledger time.
pub proof fn lemma_first_claim_unconditional(pre: FirstAirdrop, program_id: Seq<u8>)
    requires
        pre.last_drop is None,
        pre.to.owner == pre.payer,
        vault_bound(pre.escrow_wallet, pre.mint, program_id),
        pre.escrow_wallet.amount >= pre.faucet.amount,
    ensures
        forall|now: i64| (#[trigger] spec_first_airdrop(pre, now, program_id)) is Ok,
{
}

/// Cooldown enforcement: with every other check in order, a repeat claim
/// before the recorded time plus the cooldown fails with `WaitFor` (and so,
/// by the contract of `airdrop`, leaves the old timestamp standing), while a
/// claim at or past that time succeeds, debits the pool's amount and moves
/// the record to the claim's own time.
pub proof fn lemma_cooldown_enforcement(pre: Airdrop, now: i64, program_id: Seq<u8>)
    requires
        pre.to.owner == pre.payer,
        vault_bound(pre.escrow_wallet, pre.mint, program_id),
        pre.escrow_wallet.amount >= pre.faucet.amount,
    ensures
        now < pre.last_drop.timestamp + pre.faucet.timeout ==> spec_airdrop(pre, now, program_id)
            == Err::<Airdrop, FaucetErrors>(FaucetErrors::WaitFor),
        now >= pre.last_drop.timestamp + pre.faucet.timeout ==> {
            &&& spec_airdrop(pre, now, program_id) is Ok
            &&& spec_airdrop(pre, now, program_id)->Ok_0.last_drop.timestamp == now
            &&& spec_airdrop(pre, now, program_id)->Ok_0.last_drop.to == pre.payer
            &&& spec_airdrop(pre, now, program_id)->Ok_0.escrow_wallet.amount
                == pre.escrow_wallet.amount - pre.faucet.amount
        },
{
}

/// No double spend: once a claim has succeeded at time `now`, every further
/// claim against the record it wrote is rejected with `WaitFor` until a whole
/// new cooldown has passed — two claims can never both draw on one elapsed
/// interval, however the ledger orders them.
pub proof fn lemma_no_double_spend(pre: Airdrop, now: i64, program_id: Seq<u8>)
    requires
        spec_airdrop(pre, now, program_id) is Ok,
    ensures
        forall|again: i64|
            again < now + pre.faucet.timeout ==> #[trigger] spec_airdrop(
                spec_airdrop(pre, now, program_id)->Ok_0,
                again,
                program_id,
            ) == Err::<Airdrop, FaucetErrors>(FaucetErrors::WaitFor),
{
}

/// A short escrow wallet pays nobody: with the cooldown elapsed and every
/// ownership check in order, a claim against a balance below the pool's
/// amount fails with `InsufficientFunds` — and, by the contract of `airdrop`,
/// moves nothing.
pub proof fn lemma_insufficient_funds(pre: Airdrop, now: i64, program_id: Seq<u8>)
    requires
        pre.to.owner == pre.payer,
        now >= pre.last_drop.timestamp + pre.faucet.timeout,
        vault_bound(pre.escrow_wallet, pre.mint, program_id),
        pre.escrow_wallet.amount < pre.faucet.amount,
    ensures
        spec_airdrop(pre, now, program_id) == Err::<Airdrop, FaucetErrors>(
            FaucetErrors::InsufficientFunds,
        ),
{
}

/// A successful claim keeps the standing invariants: the pool's terms and
/// asset are untouched, and the escrow wallet stays bound to the derived
/// authority, so later claims find the same pool.
pub proof fn lemma_claim_preserves_invariants(pre: Airdrop, now: i64, program_id: Seq<u8>)
    requires
        spec_airdrop(pre, now, program_id) is Ok,
    ensures
        spec_airdrop(pre, now, program_id)->Ok_0.faucet == pre.faucet,
        spec_airdrop(pre, now, program_id)->Ok_0.mint == pre.mint,
        spec_airdrop(pre, now, program_id)->Ok_0.payer == pre.payer,
        vault_bound(
            spec_airdrop(pre, now, program_id)->Ok_0.escrow_wallet,
            pre.mint,
            program_id,
        ),
{
}

/// The run of claims that `lemma_balance_conservation` counts: each entry of
/// `times` is one claim's ledger time, applied in order to the records a
/// repeat claim touches.
pub open spec fn apply_claims(pre: Airdrop, times: Seq<i64>, program_id: Seq<u8>) -> Airdrop
    decreases times.len(),
{
    if times.len() == 0 {
        pre
    } else if spec_airdrop(pre, times[0], program_id) is Ok {
        apply_claims(spec_airdrop(pre, times[0], program_id)->Ok_0, times.drop_first(), program_id)
    } else {
        apply_claims(pre, times.drop_first(), program_id)
    }
}

/// Holds when every claim of the run succeeds in turn.
pub open spec fn claims_all_succeed(pre: Airdrop, times: Seq<i64>, program_id: Seq<u8>) -> bool
    decreases times.len(),
{
    times.len() == 0 || {
        &&& spec_airdrop(pre, times[0], program_id) is Ok
        &&& claims_all_succeed(
            spec_airdrop(pre, times[0], program_id)->Ok_0,
            times.drop_first(),
            program_id,
        )
    }
}

/// Balance conservation: after a run of successful claims the escrow wallet
/// holds exactly its initial balance less the pool's amount once per claim —
/// no claim can create or lose funds.
pub proof fn lemma_balance_conservation(pre: Airdrop, times: Seq<i64>, program_id: Seq<u8>)
    requires
        claims_all_succeed(pre, times, program_id),
    ensures
        apply_claims(pre, times, program_id).escrow_wallet.amount == pre.escrow_wallet.amount
            - times.len() * pre.faucet.amount,
        apply_claims(pre, times, program_id).faucet == pre.faucet,
    decreases times.len(),
{
    if times.len() == 0 {
    } else {
        let post = spec_airdrop(pre, times[0], program_id)->Ok_0;
        assert(post.escrow_wallet.amount == pre.escrow_wallet.amount - pre.faucet.amount);
        lemma_balance_conservation(post, times.drop_first(), program_id);
        assert((times.len() - 1) * pre.faucet.amount + pre.faucet.amount == times.len()
            * pre.faucet.amount) by (nonlinear_arith);
    }
}

} // verus!
