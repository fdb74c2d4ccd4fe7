//! Derivation of the vault's signing authority.
//!
//! A vault is not a human principal and holds no secret key. Its power to
//! move funds out of its own holdings is a deterministic, secret-free
//! capability derived from the owner's identity under a fixed domain tag:
//! it is re-derived at every use from `(owner, program)` and independently
//! reproducible by the token ledger, so it is never stored and never
//! transmitted.

use vstd::prelude::*;
use vstd::string::StringSliceAdditionalSpecFns;

use crate::state::AccountId;

verus! {

/// The domain-separation tag that scopes every vault authority derivation.
pub open spec fn vault_seed() -> Seq<u8> {
    "vault".spec_bytes()
}

/// The domain-separation tag, as bytes for a derivation call.
pub fn vault_seed_bytes() -> (r: &'static [u8])
    ensures
        r@ == vault_seed(),
{
    "vault".as_bytes()
}

/// The address-and-bump pair that the program-derived-address search yields
/// for these seeds under this program, or `None` in the statistically
/// improbable event that no bump yields a valid address. The search is a
/// pure function of its arguments: the same seeds and program id derive the
/// same authority on every machine.
pub uninterp spec fn derived_authority(seed: Seq<u8>, owner: Seq<u8>, program_id: Seq<u8>) -> Option<
    (Seq<u8>, u8),
>;

/// Relies on anchor_lang's re-export of `Pubkey::try_find_program_address`:
/// the returned address and bump seed are a deterministic function of the
/// seed slices and the program id alone, and the call returns `None` rather
/// than failing when no bump seed is viable.
#[verifier::external_body]
fn find_program_authority(seed: &[u8], owner: &AccountId, program_id: &AccountId) -> (r: Option<
    (AccountId, u8),
>)
    ensures
        match r {
            Some(p) => derived_authority(seed@, owner.bytes@, program_id.bytes@) == Some(
                (p.0.bytes@, p.1),
            ),
            None => derived_authority(seed@, owner.bytes@, program_id.bytes@) is None,
        },
{
    let program = anchor_lang::prelude::Pubkey::new_from_array(program_id.bytes);
    match anchor_lang::prelude::Pubkey::try_find_program_address(
        &[seed, &owner.bytes],
        &program,
    ) {
        Some((address, bump)) => Some((AccountId { bytes: address.to_bytes() }, bump)),
        None => None,
    }
}

/// Derives the signing authority of `owner`'s vault under `program_id`:
/// the vault's own address and the bump seed that reproduces it.
pub fn derive_vault_authority(owner: &AccountId, program_id: &AccountId) -> (r: Option<
    (AccountId, u8),
>)
    ensures
        match r {
            Some(p) => derived_authority(vault_seed(), owner.bytes@, program_id.bytes@) == Some(
                (p.0.bytes@, p.1),
            ),
            None => derived_authority(vault_seed(), owner.bytes@, program_id.bytes@) is None,
        },
{
    find_program_authority(vault_seed_bytes(), owner, program_id)
}

/// Decides whether `(authority, bump)` is exactly the signing capability
/// that `owner`'s vault derives under `program_id` — the check the token
/// ledger's side of the protocol performs before honoring an outbound
/// transfer.
pub fn verify_vault_authority(
    owner: &AccountId,
    program_id: &AccountId,
    authority: &AccountId,
    bump: u8,
) -> (r: bool)
    ensures
        r == (derived_authority(vault_seed(), owner.bytes@, program_id.bytes@) == Some(
            (authority.bytes@, bump),
        )),
{
    match derive_vault_authority(owner, program_id) {
        Some(p) => {
            let same_address = crate::state::account_id_eq(&p.0, authority);
            same_address && p.1 == bump
        },
        None => false,
    }
}

} // verus!
