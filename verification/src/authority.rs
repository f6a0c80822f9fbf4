//! The derived addresses of an order, computed from the order code and the
//! program's own identity: the authority, a keyless identity which alone may
//! move funds out of the vault, and the address of the vault itself.

use vstd::prelude::*;
use anchor_lang::prelude::Pubkey;
use crate::identity::Identity;
use crate::seed::{escrow_seed, escrow_seed_spec, vault_seed, vault_seed_spec};

verus! {

/// The program address and bump seed that the single seed `seed` yields under
/// the program `program_id`, or `None` where no bump seed gives an address.
pub uninterp spec fn program_address(seed: Seq<u8>, program_id: Seq<u8>) -> Option<(Seq<u8>, u8)>;

/// Calls `Pubkey::try_find_program_address` with the one seed `seed`. The
/// contract claims only that the outcome is the one named by
/// `program_address` for these bytes: the search hashes the seed, a bump seed
/// and the program's key, and depends on nothing else.
#[verifier::external_body]
fn find_program_address(seed: &Vec<u8>, program_id: &Identity) -> (r: Option<(Identity, u8)>)
    ensures
        address_matches(r, program_address(seed@, program_id@)),
{
    let program = Pubkey::new_from_array(program_id.bytes);
    match Pubkey::try_find_program_address(&[seed.as_slice()], &program) {
        Some((key, bump)) => Some((Identity { bytes: key.to_bytes() }, bump)),
        None => None,
    }
}

/// `found` holds the bytes and bump seed of `named`.
pub open spec fn address_matches(
    found: Option<(Identity, u8)>,
    named: Option<(Seq<u8>, u8)>,
) -> bool {
    match found {
        Some((key, bump)) => named == Some((key@, bump)),
        None => named is None,
    }
}

/// The identity that controls the vault of one order, with the bump seed that
/// proves the derivation.
#[derive(Clone, Copy, Debug)]
pub struct Authority {
    pub key: Identity,
    pub bump: u8,
}

/// The address and bump seed derived for order `order_code` under
/// `program_id`: the program address of the seed `escrow-<order_code>`.
pub open spec fn derived(order_code: u64, program_id: Identity) -> Option<(Seq<u8>, u8)> {
    program_address(escrow_seed_spec(order_code), program_id@)
}

/// `found` is the authority of order `order_code` under `program_id`.
pub open spec fn is_authority_of(
    found: Option<Authority>,
    order_code: u64,
    program_id: Identity,
) -> bool {
    match found {
        Some(a) => derived(order_code, program_id) == Some((a.key@, a.bump)),
        None => derived(order_code, program_id) is None,
    }
}

/// Derives the authority of order `order_code`: the program address of the
/// seed `escrow-<order_code>` under `program_id`, with its bump seed. `None`
/// where the seed has no program address.
pub fn derive_authority(order_code: u64, program_id: &Identity) -> (r: Option<Authority>)
    ensures
        is_authority_of(r, order_code, *program_id),
{
    let seed = escrow_seed(order_code);
    match find_program_address(&seed, program_id) {
        Some((key, bump)) => Some(Authority { key, bump }),
        None => None,
    }
}

/// The bump seed with which `vault_authority` signs for order `order_code`:
/// `Some` exactly where `vault_authority` is the derived authority.
pub open spec fn vault_signer(
    order_code: u64,
    program_id: Identity,
    vault_authority: Identity,
) -> Option<u8> {
    match derived(order_code, program_id) {
        Some((key, bump)) => if key == vault_authority@ {
            Some(bump)
        } else {
            None
        },
        None => None,
    }
}

/// The bump seed with which `vault_authority` signs, given the authority
/// `found` for the order: `Some` exactly where `vault_authority` is that
/// authority.
pub fn signer_bump(found: Option<Authority>, vault_authority: &Identity) -> (r: Option<u8>)
    ensures
        r == match found {
            Some(a) => if a.key == *vault_authority {
                Some(a.bump)
            } else {
                None
            },
            None => None,
        },
{
    match found {
        Some(a) => {
            if a.key == *vault_authority {
                Some(a.bump)
            } else {
                None
            }
        },
        None => None,
    }
}

/// Checks that `vault_authority` is the authority derived for the order, and
/// returns its bump seed.
pub fn check_vault_authority(
    order_code: u64,
    program_id: &Identity,
    vault_authority: &Identity,
) -> (r: Option<u8>)
    ensures
        r == vault_signer(order_code, *program_id, *vault_authority),
{
    let found = derive_authority(order_code, program_id);
    proof {
        if found is Some && found.unwrap().key@ == vault_authority@ {
            Identity::lemma_view_injective(found.unwrap().key, *vault_authority);
        }
    }
    signer_bump(found, vault_authority)
}

/// The address derived for the vault of order `order_code` under
/// `program_id`: the program address of the seed `token-seed-<order_code>`.
pub open spec fn derived_vault(order_code: u64, program_id: Identity) -> Option<(Seq<u8>, u8)> {
    program_address(vault_seed_spec(order_code), program_id@)
}

/// `vault` is the address derived for the vault of order `order_code`.
pub open spec fn is_vault_of(vault: Identity, order_code: u64, program_id: Identity) -> bool {
    match derived_vault(order_code, program_id) {
        Some((key, bump)) => key == vault@,
        None => false,
    }
}

/// `vault` is the address derived for the vault of order `order_code`, and
/// `bump` is its bump seed.
pub open spec fn is_vault_at(
    vault: Identity,
    bump: u8,
    order_code: u64,
    program_id: Identity,
) -> bool {
    derived_vault(order_code, program_id) == Some((vault@, bump))
}

/// `found` is the address derived for the vault of order `order_code`, with
/// its bump seed.
pub open spec fn is_vault_address_of(
    found: Option<(Identity, u8)>,
    order_code: u64,
    program_id: Identity,
) -> bool {
    address_matches(found, derived_vault(order_code, program_id))
}

/// Derives the address of the vault of order `order_code`: the program
/// address of the seed `token-seed-<order_code>` under `program_id`, with its
/// bump seed. `None` where the seed has no program address.
pub fn derive_vault(order_code: u64, program_id: &Identity) -> (r: Option<(Identity, u8)>)
    ensures
        is_vault_address_of(r, order_code, *program_id),
{
    let seed = vault_seed(order_code);
    find_program_address(&seed, program_id)
}

/// Whether `vault` is the address `found` for the order.
pub fn is_address(found: Option<(Identity, u8)>, vault: &Identity) -> (r: bool)
    ensures
        r == match found {
            Some((address, bump)) => address == *vault,
            None => false,
        },
{
    match found {
        Some((address, bump)) => address == *vault,
        None => false,
    }
}

/// Whether `vault` is the address `found` for the order and `bump` the bump
/// seed found with it.
pub fn is_address_at(found: Option<(Identity, u8)>, vault: &Identity, bump: u8) -> (r: bool)
    ensures
        r == match found {
            Some((address, found_bump)) => address == *vault && found_bump == bump,
            None => false,
        },
{
    match found {
        Some((address, found_bump)) => address == *vault && found_bump == bump,
        None => false,
    }
}

/// Tests whether `vault` is the address derived for the vault of the order.
pub fn check_vault(order_code: u64, program_id: &Identity, vault: &Identity) -> (r: bool)
    ensures
        r == is_vault_of(*vault, order_code, *program_id),
{
    let found = derive_vault(order_code, program_id);
    proof {
        if found is Some && found.unwrap().0@ == vault@ {
            Identity::lemma_view_injective(found.unwrap().0, *vault);
        }
    }
    is_address(found, vault)
}

/// Tests whether `vault` is the address derived for the vault of the order
/// and `bump` its bump seed.
pub fn check_vault_at(
    order_code: u64,
    program_id: &Identity,
    vault: &Identity,
    bump: u8,
) -> (r: bool)
    ensures
        r == is_vault_at(*vault, bump, order_code, *program_id),
{
    let found = derive_vault(order_code, program_id);
    proof {
        if found is Some && found.unwrap().0@ == vault@ {
            Identity::lemma_view_injective(found.unwrap().0, *vault);
        }
    }
    is_address_at(found, vault, bump)
}

} // verus!
