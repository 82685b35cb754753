use vstd::prelude::*;

use crate::state::TokenAccountState;

verus! {

/// The address-and-discriminant pair that program-derived-address search
/// yields for the escrow wallet of one asset under one program identity, or
/// `None` if the derivation space is exhausted. The derivation is a chain of
/// hashes with a search over a one-byte discriminant; its value is pinned
/// only by the trusted wrapper below, as a function of the two identities
/// alone.
pub uninterp spec fn pda_of(mint: Seq<u8>, program_id: Seq<u8>) -> Option<(Seq<u8>, u8)>;

/// The view of a concrete derivation result, for comparing it with `pda_of`.
pub open spec fn derivation_view(r: Option<([u8; 32], u8)>) -> Option<(Seq<u8>, u8)> {
    match r {
        Some(p) => Some((p.0@, p.1)),
        None => None,
    }
}

/// A vault is bound to its pool's asset when the derivation for that asset is
/// defined and the vault's controlling authority is exactly the derived
/// address: then no privately held key can authorize a debit.
pub open spec fn vault_bound(escrow: TokenAccountState, mint: [u8; 32], program_id: Seq<u8>) -> bool {
    &&& pda_of(mint@, program_id) is Some
    &&& escrow.owner@ == pda_of(mint@, program_id).unwrap().0
}

/// Relies on `Pubkey::try_find_program_address` (reached through
/// `anchor_lang`): the returned address and discriminant are a pure function
/// of the seeds — here the fixed wallet label and the asset's identity — and
/// the program identity, and `None` comes only from an exhausted search.
#[verifier::external_body]
fn find_vault_authority(mint: &[u8; 32], program_id: &[u8; 32]) -> (r: Option<([u8; 32], u8)>)
    ensures
        derivation_view(r) == pda_of(mint@, program_id@),
{
    let pid = anchor_lang::prelude::Pubkey::new_from_array(*program_id);
    let found = anchor_lang::prelude::Pubkey::try_find_program_address(&[b"wallet", mint.as_ref()], &pid);
    match found {
        Some((address, bump)) => Some((address.to_bytes(), bump)),
        None => None,
    }
}

/// Derives the controlling authority for the escrow wallet of `asset_id`
/// under `program_identity`, together with the discriminant a delegated
/// signature needs. Pure and deterministic: every call returns exactly the
/// derivation's value for these two inputs.
pub fn derive(asset_id: &[u8; 32], program_identity: &[u8; 32]) -> (r: Option<([u8; 32], u8)>)
    ensures
        derivation_view(r) == pda_of(asset_id@, program_identity@),
{
    find_vault_authority(asset_id, program_identity)
}

} // verus!
