use vstd::prelude::*;

use crate::key::Key;
use crate::vault::VaultError;

verus! {

/// The address derived from `seeds` for the program `program_id`, or `None`
/// where the seeds are refused or the hash falls on the curve.
pub uninterp spec fn program_address(seeds: Seq<Seq<u8>>, program_id: Seq<u8>) -> Option<Seq<u8>>;

/// The bytes of each seed.
pub open spec fn seed_bytes(seeds: Seq<Vec<u8>>) -> Seq<Seq<u8>> {
    seeds.map_values(|s: Vec<u8>| s@)
}

/// The bytes of `vault_pool`, the first seed of every pool authority address.
pub open spec fn pool_seed_prefix() -> Seq<u8> {
    seq![118u8, 97, 117, 108, 116, 95, 112, 111, 111, 108]
}

/// The seeds of a pool: the prefix, the vault's address and the bump.
pub open spec fn pool_seeds(vault: Seq<u8>, bump: u8) -> Seq<Seq<u8>> {
    seq![pool_seed_prefix(), vault, seq![bump]]
}

/// The view of an optional key.
pub open spec fn key_view(k: Option<Key>) -> Option<Seq<u8>> {
    match k {
        Some(k) => Some(k@),
        None => None,
    }
}

/// Relies on solana_program's `Pubkey::create_program_address`: the address
/// depends on the seeds and the program id alone, and more than 16 seeds or a
/// seed longer than 32 bytes is refused.
#[verifier::external_body]
fn create_program_address(seeds: &Vec<Vec<u8>>, program_id: &Key) -> (r: Option<Key>)
    ensures
        key_view(r) == program_address(seed_bytes(seeds@), program_id@),
        seeds@.len() > 16 || (exists|i: int| 0 <= i < seeds@.len() && seeds@[i]@.len() > 32)
            ==> r is None,
{
    let slices: Vec<&[u8]> = seeds.iter().map(|s| s.as_slice()).collect();
    let program = anchor_lang::prelude::Pubkey::new_from_array(program_id.bytes);
    anchor_lang::prelude::Pubkey::create_program_address(&slices, &program)
        .ok()
        .map(|p| Key { bytes: p.to_bytes() })
}

/// The seeds of the pool of `vault` with `bump`.
fn build_pool_seeds(vault: &Key, bump: u8) -> (r: Vec<Vec<u8>>)
    ensures
        seed_bytes(r@) == pool_seeds(vault@, bump),
{
    let prefix: Vec<u8> = vec![118u8, 97, 117, 108, 116, 95, 112, 111, 111, 108];
    let mut address: Vec<u8> = Vec::new();
    let mut i: usize = 0;
    while i < 32
        invariant
            i <= 32,
            vault@.len() == 32,
            address@ == vault@.subrange(0, i as int),
        decreases 32 - i,
    {
        address.push(vault.bytes[i]);
        proof {
            assert(address@ =~= vault@.subrange(0, i + 1));
        }
        i = i + 1;
    }
    proof {
        assert(address@ =~= vault@);
    }
    let bump_seed: Vec<u8> = vec![bump];
    let seeds: Vec<Vec<u8>> = vec![prefix, address, bump_seed];
    proof {
        assert(prefix@ =~= pool_seed_prefix());
        assert(bump_seed@ =~= seq![bump]);
        assert(seed_bytes(seeds@) =~= pool_seeds(vault@, bump));
    }
    seeds
}

/// The pool authority address of `vault` with `bump`, where it exists.
pub fn derive_pool_address(vault: &Key, bump: u8, program_id: &Key) -> (r: Option<Key>)
    ensures
        key_view(r) == program_address(pool_seeds(vault@, bump), program_id@),
{
    let seeds = build_pool_seeds(vault, bump);
    create_program_address(&seeds, program_id)
}

/// Accepts `pool` exactly where it is the derived address.
pub fn check_pool_address(derived: Option<Key>, pool: &Key) -> (r: Result<(), VaultError>)
    ensures
        r is Ok <==> key_view(derived) == Some(pool@),
        r matches Err(e) ==> e == VaultError::SeedsMismatch,
{
    match derived {
        Some(k) => {
            if k.same_as(pool) {
                Ok(())
            } else {
                Err(VaultError::SeedsMismatch)
            }
        },
        None => Err(VaultError::SeedsMismatch),
    }
}

} // verus!
