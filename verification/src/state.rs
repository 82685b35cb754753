use vstd::prelude::*;

verus! {

broadcast use vstd::array::group_array_axioms;

/// Distribution terms for one asset: who created the pool, which asset it
/// distributes, the fixed quantity per claim, and the cooldown (in seconds)
/// between two claims by the same requester.
#[derive(Clone, Copy, Debug, PartialEq, Eq)]
pub struct Faucet {
    pub owner: [u8; 32],
    pub mint: [u8; 32],
    pub amount: u64,
    pub timeout: i64,
}

/// Per-requester record of the most recent successful claim: who received it
/// and at what ledger time. A requester has one record, keyed by their
/// identity alone — not per pool — so claims against different pools read
/// and move the same cooldown.
#[derive(Clone, Copy, Debug, PartialEq, Eq)]
pub struct LastDrop {
    pub to: [u8; 32],
    pub timestamp: i64,
}

/// The fields of an asset-holding account that the engine reads and writes:
/// the asset it holds, the authority that controls debits, and its balance.
#[derive(Clone, Copy, Debug, PartialEq, Eq)]
pub struct TokenAccountState {
    pub mint: [u8; 32],
    pub owner: [u8; 32],
    pub amount: u64,
}

/// The records a pool-creation operation touches: the (possibly still empty)
/// pool slot for the asset, the administrator's pre-funded escrow wallet, and
/// the administrator's identity.
#[derive(Clone, Copy, Debug, PartialEq, Eq)]
pub struct Initialize {
    pub faucet: Option<Faucet>,
    pub escrow_wallet: TokenAccountState,
    pub payer: [u8; 32],
}

/// The records a first claim touches: the requester's (possibly still empty)
/// cooldown slot, the pool's escrow wallet, the requester's destination
/// account, the pool record, the asset's identity, and the requester.
#[derive(Clone, Copy, Debug, PartialEq, Eq)]
pub struct FirstAirdrop {
    pub last_drop: Option<LastDrop>,
    pub escrow_wallet: TokenAccountState,
    pub to: TokenAccountState,
    pub faucet: Faucet,
    pub mint: [u8; 32],
    pub payer: [u8; 32],
}

/// The records a repeat claim touches: as for a first claim, but the
/// requester's cooldown record must already exist.
#[derive(Clone, Copy, Debug, PartialEq, Eq)]
pub struct Airdrop {
    pub last_drop: LastDrop,
    pub escrow_wallet: TokenAccountState,
    pub to: TokenAccountState,
    pub faucet: Faucet,
    pub mint: [u8; 32],
    pub payer: [u8; 32],
}

/// Compares two 32-byte identities.
pub fn keys_equal(a: &[u8; 32], b: &[u8; 32]) -> (r: bool)
    ensures
        r == (*a == *b),
{
    let mut i: usize = 0;
    while i < 32
        invariant
            0 <= i <= 32,
            forall|j: int| 0 <= j < i ==> a@[j] == b@[j],
        decreases 32 - i,
    {
        if a[i] != b[i] {
            proof {
                assert(a@[i as int] != b@[i as int]);
            }
            return false;
        }
        i = i + 1;
    }
    proof {
        assert(*a =~= *b);
    }
    true
}

} // verus!
