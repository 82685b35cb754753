use vstd::prelude::*;

use crate::authority::{pda_of, vault_bound};
use crate::errors::FaucetErrors;
use crate::state::{keys_equal, Airdrop, Faucet, FirstAirdrop, Initialize, LastDrop, TokenAccountState};

verus! {

broadcast use vstd::array::group_array_axioms;

/// What a debit from the escrow wallet does, as a function of the accounts it
/// touches. The escrow wallet must be controlled by the authority derived for
/// `mint` under `program_id` — the proof a delegated signature presents — and
/// must hold at least `amount`; then `amount` moves from the escrow wallet to
/// the destination and nothing else changes.
pub open spec fn spec_inner_withdraw(
    escrow: TokenAccountState,
    to: TokenAccountState,
    mint: [u8; 32],
    program_id: Seq<u8>,
    amount: u64,
) -> Result<(TokenAccountState, TokenAccountState), FaucetErrors>
    recommends
        to.amount + amount <= u64::MAX,
{
    if pda_of(mint@, program_id) is None {
        Err(FaucetErrors::DerivationExhausted)
    } else if escrow.owner@ != pda_of(mint@, program_id)->Some_0.0 {
        Err(FaucetErrors::Unauthorized)
    } else if escrow.amount < amount {
        Err(FaucetErrors::InsufficientFunds)
    } else {
        Ok((
            TokenAccountState {
                mint: escrow.mint,
                owner: escrow.owner,
                amount: (escrow.amount - amount) as u64,
            },
            TokenAccountState { mint: to.mint, owner: to.owner, amount: (to.amount + amount) as u64 },
        ))
    }
}

/// Which check a pool creation fails on, if any: the pool slot must still be
/// empty, the caller must control the pre-funded escrow wallet, the wallet
/// must hold the pool's asset, and the authority derivation must succeed.
pub open spec fn initialize_check(pre: Initialize, mint: [u8; 32], program_id: Seq<u8>) -> Option<
    FaucetErrors,
> {
    if pre.faucet is Some {
        Some(FaucetErrors::AlreadyInitialized)
    } else if pre.escrow_wallet.owner != pre.payer {
        Some(FaucetErrors::Unauthorized)
    } else if pre.escrow_wallet.mint != mint {
        Some(FaucetErrors::Unauthorized)
    } else if pda_of(mint@, program_id) is None {
        Some(FaucetErrors::DerivationExhausted)
    } else {
        None
    }
}

/// The state a successful pool creation leaves behind: a pool record with the
/// given terms owned by the caller, and the escrow wallet handed over to the
/// derived authority — its asset and balance untouched, the caller's own
/// withdrawal right gone for good.
pub open spec fn initialize_post(
    pre: Initialize,
    post: Initialize,
    mint: [u8; 32],
    amount: u64,
    timeout: i64,
    program_id: Seq<u8>,
) -> bool {
    &&& post.faucet == Some(Faucet { owner: pre.payer, mint: mint, amount: amount, timeout: timeout })
    &&& post.escrow_wallet.mint == pre.escrow_wallet.mint
    &&& post.escrow_wallet.amount == pre.escrow_wallet.amount
    &&& vault_bound(post.escrow_wallet, mint, program_id)
    &&& post.payer == pre.payer
}

/// What a first claim does. The requester must have no cooldown record yet
/// and must own the destination account; the transfer itself is governed by
/// `spec_inner_withdraw`. On success a cooldown record is created for the
/// requester at ledger time `now` — no cooldown check applies to a first
/// claim, whatever `now` is.
pub open spec fn spec_first_airdrop(pre: FirstAirdrop, now: i64, program_id: Seq<u8>) -> Result<
    FirstAirdrop,
    FaucetErrors,
>
    recommends
        pre.to.amount + pre.faucet.amount <= u64::MAX,
{
    if pre.last_drop is Some {
        Err(FaucetErrors::AlreadyClaimed)
    } else if pre.to.owner != pre.payer {
        Err(FaucetErrors::Unauthorized)
    } else {
        match spec_inner_withdraw(pre.escrow_wallet, pre.to, pre.mint, program_id, pre.faucet.amount) {
            Err(e) => Err(e),
            Ok(accounts) => Ok(
                FirstAirdrop {
                    last_drop: Some(LastDrop { to: pre.payer, timestamp: now }),
                    escrow_wallet: accounts.0,
                    to: accounts.1,
                    faucet: pre.faucet,
                    mint: pre.mint,
                    payer: pre.payer,
                },
            ),
        }
    }
}

/// What a repeat claim does. The requester must own the destination account
/// and the cooldown must have elapsed: `now` at or past the recorded time
/// plus the pool's cooldown (compared without overflow). Then the transfer
/// runs as for a first claim and the cooldown record is moved to `now`; on
/// any failure nothing changes.
pub open spec fn spec_airdrop(pre: Airdrop, now: i64, program_id: Seq<u8>) -> Result<
    Airdrop,
    FaucetErrors,
>
    recommends
        pre.to.amount + pre.faucet.amount <= u64::MAX,
{
    if pre.to.owner != pre.payer {
        Err(FaucetErrors::Unauthorized)
    } else if now < pre.last_drop.timestamp + pre.faucet.timeout {
        Err(FaucetErrors::WaitFor)
    } else {
        match spec_inner_withdraw(pre.escrow_wallet, pre.to, pre.mint, program_id, pre.faucet.amount) {
            Err(e) => Err(e),
            Ok(accounts) => Ok(
                Airdrop {
                    last_drop: LastDrop { to: pre.payer, timestamp: now },
                    escrow_wallet: accounts.0,
                    to: accounts.1,
                    faucet: pre.faucet,
                    mint: pre.mint,
                    payer: pre.payer,
                },
            ),
        }
    }
}

/// Moves `amount` of the asset from the pool's escrow wallet to `to`, with
/// the derived authority standing in for a private key: the derivation for
/// `mint` is recomputed and must reproduce the escrow wallet's stored
/// controlling authority, else no debit is authorized.
pub fn inner_withdraw(
    program_id: &[u8; 32],
    mint: &[u8; 32],
    escrow_wallet: &mut TokenAccountState,
    to: &mut TokenAccountState,
    amount: u64,
) -> (r: Result<(), FaucetErrors>)
    requires
        old(to).amount + amount <= u64::MAX,
    ensures
        (match r {
            Ok(()) => spec_inner_withdraw(*old(escrow_wallet), *old(to), *mint, program_id@, amount)
                == Ok::<(TokenAccountState, TokenAccountState), FaucetErrors>(
                (*final(escrow_wallet), *final(to)),
            ),
            Err(e) => {
                &&& spec_inner_withdraw(*old(escrow_wallet), *old(to), *mint, program_id@, amount)
                    == Err::<(TokenAccountState, TokenAccountState), FaucetErrors>(e)
                &&& *final(escrow_wallet) == *old(escrow_wallet)
                &&& *final(to) == *old(to)
            },
        }),
{
    match crate::authority::derive(mint, program_id) {
        None => Err(FaucetErrors::DerivationExhausted),
        Some((authority, _bump)) => {
            if !keys_equal(&escrow_wallet.owner, &authority) {
                proof {
                    if escrow_wallet.owner@ == pda_of(mint@, program_id@)->Some_0.0 {
                        assert(escrow_wallet.owner =~= authority);
                    }
                }
                Err(FaucetErrors::Unauthorized)
            } else if escrow_wallet.amount < amount {
                Err(FaucetErrors::InsufficientFunds)
            } else {
                escrow_wallet.amount = escrow_wallet.amount - amount;
                to.amount = to.amount + amount;
                Ok(())
            }
        },
    }
}

/// Creates the pool for `mint` with the given terms and hands control of the
/// pre-funded escrow wallet to the derived authority. One-shot: a second call
/// for a pool that exists fails with `AlreadyInitialized` and changes
/// nothing, as does any other failed check.
pub fn initialize(
    ctx: &mut Initialize,
    mint: [u8; 32],
    amount: u64,
    timeout: i64,
    program_id: &[u8; 32],
) -> (r: Result<(), FaucetErrors>)
    ensures
        (match r {
            Ok(()) => {
                &&& initialize_check(*old(ctx), mint, program_id@) is None
                &&& initialize_post(*old(ctx), *final(ctx), mint, amount, timeout, program_id@)
            },
            Err(e) => {
                &&& initialize_check(*old(ctx), mint, program_id@) == Some(e)
                &&& *final(ctx) == *old(ctx)
            },
        }),
{
    if ctx.faucet.is_some() {
        return Err(FaucetErrors::AlreadyInitialized);
    }
    if !keys_equal(&ctx.escrow_wallet.owner, &ctx.payer) {
        return Err(FaucetErrors::Unauthorized);
    }
    if !keys_equal(&ctx.escrow_wallet.mint, &mint) {
        return Err(FaucetErrors::Unauthorized);
    }
    match crate::authority::derive(&mint, program_id) {
        None => Err(FaucetErrors::DerivationExhausted),
        Some((authority, _bump)) => {
            ctx.escrow_wallet.owner = authority;
            ctx.faucet = Some(Faucet { owner: ctx.payer, mint: mint, amount: amount, timeout: timeout });
            Ok(())
        },
    }
}

/// A requester's first claim: creates their cooldown record at ledger time
/// `now` and pays out the pool's amount, unconditionally on time. Fails with
/// `AlreadyClaimed` if the requester has a record (a repeat claim must use
/// `airdrop`), with `Unauthorized` if the destination is not theirs or the
/// escrow wallet is not bound to the derived authority, and with
/// `InsufficientFunds` if the escrow balance is short; every failure leaves
/// all records unchanged.
pub fn first_airdrop(ctx: &mut FirstAirdrop, now: i64, program_id: &[u8; 32]) -> (r: Result<
    (),
    FaucetErrors,
>)
    requires
        old(ctx).to.amount + old(ctx).faucet.amount <= u64::MAX,
    ensures
        (match r {
            Ok(()) => spec_first_airdrop(*old(ctx), now, program_id@) == Ok::<
                FirstAirdrop,
                FaucetErrors,
            >(*final(ctx)),
            Err(e) => {
                &&& spec_first_airdrop(*old(ctx), now, program_id@) == Err::<
                    FirstAirdrop,
                    FaucetErrors,
                >(e)
                &&& *final(ctx) == *old(ctx)
            },
        }),
{
    if ctx.last_drop.is_some() {
        return Err(FaucetErrors::AlreadyClaimed);
    }
    if !keys_equal(&ctx.to.owner, &ctx.payer) {
        return Err(FaucetErrors::Unauthorized);
    }
    let amount = ctx.faucet.amount;
    match inner_withdraw(program_id, &ctx.mint, &mut ctx.escrow_wallet, &mut ctx.to, amount) {
        Err(e) => Err(e),
        Ok(()) => {
            ctx.last_drop = Some(LastDrop { to: ctx.payer, timestamp: now });
            Ok(())
        },
    }
}

/// A repeat claim: pays out the pool's amount and moves the requester's
/// cooldown record to ledger time `now`, provided the recorded time plus the
/// pool's cooldown has passed. Fails with `WaitFor` while the cooldown is
/// unexpired, and otherwise as a first claim does; every failure leaves all
/// records unchanged — in particular a rejected claim keeps the old
/// timestamp, so the check and the update act as one atomic step.
pub fn airdrop(ctx: &mut Airdrop, now: i64, program_id: &[u8; 32]) -> (r: Result<(), FaucetErrors>)
    requires
        old(ctx).to.amount + old(ctx).faucet.amount <= u64::MAX,
    ensures
        (match r {
            Ok(()) => spec_airdrop(*old(ctx), now, program_id@) == Ok::<Airdrop, FaucetErrors>(
                *final(ctx),
            ),
            Err(e) => {
                &&& spec_airdrop(*old(ctx), now, program_id@) == Err::<Airdrop, FaucetErrors>(e)
                &&& *final(ctx) == *old(ctx)
            },
        }),
{
    if !keys_equal(&ctx.to.owner, &ctx.payer) {
        return Err(FaucetErrors::Unauthorized);
    }
    let deadline: i128 = (ctx.last_drop.timestamp as i128) + (ctx.faucet.timeout as i128);
    if (now as i128) < deadline {
        return Err(FaucetErrors::WaitFor);
    }
    let amount = ctx.faucet.amount;
    match inner_withdraw(program_id, &ctx.mint, &mut ctx.escrow_wallet, &mut ctx.to, amount) {
        Err(e) => Err(e),
        Ok(()) => {
            ctx.last_drop = LastDrop { to: ctx.payer, timestamp: now };
            Ok(())
        },
    }
}

} // verus!
