use faucet::errors::FaucetErrors;
use faucet::protocol::{airdrop, first_airdrop, initialize, inner_withdraw};
use faucet::state::{Airdrop, FirstAirdrop, Initialize, LastDrop, TokenAccountState};

const PROGRAM_ID: [u8; 32] = [7u8; 32];
const MINT: [u8; 32] = [2u8; 32];
const PAYER: [u8; 32] = [3u8; 32];

fn vault_authority() -> [u8; 32] {
    faucet::authority::derive(&MINT, &PROGRAM_ID).expect("derivation must succeed for these keys").0
}

fn funded_vault(balance: u64) -> TokenAccountState {
    TokenAccountState { mint: MINT, owner: vault_authority(), amount: balance }
}

fn destination(balance: u64) -> TokenAccountState {
    TokenAccountState { mint: MINT, owner: PAYER, amount: balance }
}

fn ready_airdrop_ctx(vault_balance: u64, amount: u64, timeout: i64, last: i64) -> Airdrop {
    Airdrop {
        last_drop: LastDrop { to: PAYER, timestamp: last },
        escrow_wallet: funded_vault(vault_balance),
        to: destination(0),
        faucet: faucet::state::Faucet { owner: PAYER, mint: MINT, amount, timeout },
        mint: MINT,
        payer: PAYER,
    }
}

#[test]
fn derive_is_deterministic() {
    let first = faucet::authority::derive(&MINT, &PROGRAM_ID);
    let second = faucet::authority::derive(&MINT, &PROGRAM_ID);
    assert!(first.is_some());
    assert_eq!(first, second);
}

#[test]
fn derive_matches_host_derivation() {
    let program_id = anchor_lang::prelude::Pubkey::new_from_array(PROGRAM_ID);
    let (expected, expected_bump) = anchor_lang::prelude::Pubkey::find_program_address(
        &[b"wallet", MINT.as_ref()],
        &program_id,
    );
    let (address, bump) = faucet::authority::derive(&MINT, &PROGRAM_ID).unwrap();
    assert_eq!(address, expected.to_bytes());
    assert_eq!(bump, expected_bump);
    assert_ne!(address, MINT);
    assert_ne!(address, PROGRAM_ID);
}

#[test]
fn initialize_creates_pool_and_hands_over_vault() {
    let mut ctx = Initialize {
        faucet: None,
        escrow_wallet: TokenAccountState { mint: MINT, owner: PAYER, amount: 1000 },
        payer: PAYER,
    };
    let r = initialize(&mut ctx, MINT, 100, 3600, &PROGRAM_ID);
    assert_eq!(r, Ok(()));
    let pool = ctx.faucet.expect("pool record must exist");
    assert_eq!(pool.owner, PAYER);
    assert_eq!(pool.mint, MINT);
    assert_eq!(pool.amount, 100);
    assert_eq!(pool.timeout, 3600);
    assert_eq!(ctx.escrow_wallet.owner, vault_authority());
    assert_eq!(ctx.escrow_wallet.amount, 1000);
    assert_eq!(ctx.escrow_wallet.mint, MINT);
}

#[test]
fn initialize_twice_fails_and_changes_nothing() {
    let mut ctx = Initialize {
        faucet: None,
        escrow_wallet: TokenAccountState { mint: MINT, owner: PAYER, amount: 1000 },
        payer: PAYER,
    };
    assert_eq!(initialize(&mut ctx, MINT, 100, 3600, &PROGRAM_ID), Ok(()));
    let snapshot = ctx;
    let r = initialize(&mut ctx, MINT, 55, 60, &PROGRAM_ID);
    assert_eq!(r, Err(FaucetErrors::AlreadyInitialized));
    assert_eq!(ctx, snapshot);
}

#[test]
fn initialize_requires_control_of_the_vault() {
    let stranger: [u8; 32] = [9u8; 32];
    let mut ctx = Initialize {
        faucet: None,
        escrow_wallet: TokenAccountState { mint: MINT, owner: stranger, amount: 1000 },
        payer: PAYER,
    };
    let snapshot = ctx;
    assert_eq!(initialize(&mut ctx, MINT, 100, 3600, &PROGRAM_ID), Err(FaucetErrors::Unauthorized));
    assert_eq!(ctx, snapshot);
}

#[test]
fn initialize_requires_matching_asset() {
    let other_mint: [u8; 32] = [4u8; 32];
    let mut ctx = Initialize {
        faucet: None,
        escrow_wallet: TokenAccountState { mint: other_mint, owner: PAYER, amount: 1000 },
        payer: PAYER,
    };
    assert_eq!(initialize(&mut ctx, MINT, 100, 3600, &PROGRAM_ID), Err(FaucetErrors::Unauthorized));
    assert_eq!(ctx.faucet, None);
}

#[test]
fn first_claim_succeeds_at_any_time() {
    for now in [0i64, 1, 1800, i64::MAX, i64::MIN] {
        let mut ctx = FirstAirdrop {
            last_drop: None,
            escrow_wallet: funded_vault(1000),
            to: destination(5),
            faucet: faucet::state::Faucet { owner: PAYER, mint: MINT, amount: 100, timeout: 3600 },
            mint: MINT,
            payer: PAYER,
        };
        assert_eq!(first_airdrop(&mut ctx, now, &PROGRAM_ID), Ok(()));
        assert_eq!(ctx.escrow_wallet.amount, 900);
        assert_eq!(ctx.to.amount, 105);
        assert_eq!(ctx.last_drop, Some(LastDrop { to: PAYER, timestamp: now }));
    }
}

#[test]
fn first_claim_fails_when_a_record_exists() {
    let mut ctx = FirstAirdrop {
        last_drop: Some(LastDrop { to: PAYER, timestamp: 10 }),
        escrow_wallet: funded_vault(1000),
        to: destination(0),
        faucet: faucet::state::Faucet { owner: PAYER, mint: MINT, amount: 100, timeout: 3600 },
        mint: MINT,
        payer: PAYER,
    };
    let snapshot = ctx;
    assert_eq!(first_airdrop(&mut ctx, 99, &PROGRAM_ID), Err(FaucetErrors::AlreadyClaimed));
    assert_eq!(ctx, snapshot);
}

#[test]
fn first_claim_fails_on_foreign_destination() {
    let stranger: [u8; 32] = [9u8; 32];
    let mut ctx = FirstAirdrop {
        last_drop: None,
        escrow_wallet: funded_vault(1000),
        to: TokenAccountState { mint: MINT, owner: stranger, amount: 0 },
        faucet: faucet::state::Faucet { owner: PAYER, mint: MINT, amount: 100, timeout: 3600 },
        mint: MINT,
        payer: PAYER,
    };
    let snapshot = ctx;
    assert_eq!(first_airdrop(&mut ctx, 0, &PROGRAM_ID), Err(FaucetErrors::Unauthorized));
    assert_eq!(ctx, snapshot);
}

#[test]
fn claim_scenario_cooldown_of_an_hour() {
    let mut first_ctx = FirstAirdrop {
        last_drop: None,
        escrow_wallet: funded_vault(1000),
        to: destination(0),
        faucet: faucet::state::Faucet { owner: PAYER, mint: MINT, amount: 100, timeout: 3600 },
        mint: MINT,
        payer: PAYER,
    };
    assert_eq!(first_airdrop(&mut first_ctx, 0, &PROGRAM_ID), Ok(()));
    assert_eq!(first_ctx.escrow_wallet.amount, 900);
    assert_eq!(first_ctx.last_drop, Some(LastDrop { to: PAYER, timestamp: 0 }));

    let mut ctx = Airdrop {
        last_drop: first_ctx.last_drop.unwrap(),
        escrow_wallet: first_ctx.escrow_wallet,
        to: first_ctx.to,
        faucet: first_ctx.faucet,
        mint: first_ctx.mint,
        payer: first_ctx.payer,
    };
    let snapshot = ctx;
    assert_eq!(airdrop(&mut ctx, 1800, &PROGRAM_ID), Err(FaucetErrors::WaitFor));
    assert_eq!(ctx, snapshot);

    assert_eq!(airdrop(&mut ctx, 3600, &PROGRAM_ID), Ok(()));
    assert_eq!(ctx.escrow_wallet.amount, 800);
    assert_eq!(ctx.to.amount, 200);
    assert_eq!(ctx.last_drop, LastDrop { to: PAYER, timestamp: 3600 });
}

#[test]
fn repeated_claims_conserve_the_balance() {
    let mut ctx = ready_airdrop_ctx(1000, 100, 3600, 0);
    let mut claims: u64 = 0;
    for step in 1..=3i64 {
        assert_eq!(airdrop(&mut ctx, step * 3600, &PROGRAM_ID), Ok(()));
        claims += 1;
        assert_eq!(ctx.escrow_wallet.amount, 1000 - claims * 100);
        assert_eq!(ctx.last_drop.timestamp, step * 3600);
    }
    assert_eq!(ctx.escrow_wallet.amount, 700);
    assert_eq!(ctx.to.amount, 300);
}

#[test]
fn claim_fails_without_funds_and_moves_nothing() {
    let mut ctx = ready_airdrop_ctx(99, 100, 3600, 0);
    let snapshot = ctx;
    assert_eq!(airdrop(&mut ctx, 7200, &PROGRAM_ID), Err(FaucetErrors::InsufficientFunds));
    assert_eq!(ctx, snapshot);
}

#[test]
fn claim_fails_on_foreign_destination() {
    let stranger: [u8; 32] = [9u8; 32];
    let mut ctx = ready_airdrop_ctx(1000, 100, 3600, 0);
    ctx.to.owner = stranger;
    let snapshot = ctx;
    assert_eq!(airdrop(&mut ctx, 7200, &PROGRAM_ID), Err(FaucetErrors::Unauthorized));
    assert_eq!(ctx, snapshot);
}

#[test]
fn claim_fails_when_the_vault_is_not_bound() {
    let mut ctx = ready_airdrop_ctx(1000, 100, 3600, 0);
    ctx.escrow_wallet.owner = PAYER;
    let snapshot = ctx;
    assert_eq!(airdrop(&mut ctx, 7200, &PROGRAM_ID), Err(FaucetErrors::Unauthorized));
    assert_eq!(ctx, snapshot);
}

#[test]
fn cooldown_near_the_clock_bounds() {
    let mut ctx = ready_airdrop_ctx(1000, 100, i64::MAX, 1);
    let snapshot = ctx;
    assert_eq!(airdrop(&mut ctx, i64::MAX, &PROGRAM_ID), Err(FaucetErrors::WaitFor));
    assert_eq!(ctx, snapshot);

    let mut ctx = ready_airdrop_ctx(1000, 100, i64::MAX, 0);
    assert_eq!(airdrop(&mut ctx, i64::MAX, &PROGRAM_ID), Ok(()));
    assert_eq!(ctx.escrow_wallet.amount, 900);
}

#[test]
fn zero_cooldown_allows_back_to_back_claims() {
    let mut ctx = ready_airdrop_ctx(200, 100, 0, 50);
    assert_eq!(airdrop(&mut ctx, 50, &PROGRAM_ID), Ok(()));
    assert_eq!(airdrop(&mut ctx, 50, &PROGRAM_ID), Ok(()));
    assert_eq!(ctx.escrow_wallet.amount, 0);
}

#[test]
fn withdraw_moves_exactly_the_amount() {
    let mut escrow = funded_vault(500);
    let mut to = destination(1);
    assert_eq!(inner_withdraw(&PROGRAM_ID, &MINT, &mut escrow, &mut to, 200), Ok(()));
    assert_eq!(escrow.amount, 300);
    assert_eq!(to.amount, 201);
    assert_eq!(escrow.owner, vault_authority());
}

#[test]
fn two_claims_on_one_elapsed_interval_pay_once() {
    // Both claims observe the cooldown as elapsed at t = 3600; the ledger
    // serializes them, and only the first may pay.
    let mut ctx = ready_airdrop_ctx(1000, 100, 3600, 0);
    assert_eq!(airdrop(&mut ctx, 3600, &PROGRAM_ID), Ok(()));
    assert_eq!(ctx.escrow_wallet.amount, 900);
    let snapshot = ctx;
    assert_eq!(airdrop(&mut ctx, 3600, &PROGRAM_ID), Err(FaucetErrors::WaitFor));
    assert_eq!(ctx, snapshot);
    assert_eq!(ctx.escrow_wallet.amount, 900);
}
