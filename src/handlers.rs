use vstd::prelude::*;

use crate::fee::{fee_of, update_fee};
use crate::key::{default_key, Key};
use crate::laws::{lemma_registered_wf, lemma_removed_wf};
use crate::metadata::{is_rewrite_of, rewrite_uri, DataV2, Metadata};
use crate::pda::{check_pool_address, derive_pool_address, program_address, pool_seeds};
use crate::vault::{has_mint, lemma_first_index, Vault, VaultError, VaultModel};

verus! {

/// What setting up a vault reads: the addresses of the vault and of its pool
/// authority, the owner of the pool authority's account, and this program.
pub struct InitializeVault {
    pub vault: Key,
    pub vault_pool: Key,
    pub vault_pool_owner: Key,
    pub program_id: Key,
}

/// What setting up a vault does: whether the pool's token account is to be
/// created first, and the vault's new contents.
pub struct Initialized {
    pub create_pool_token_account: bool,
    pub vault: Vault,
}

/// What an update reads: the mint, its current metadata, the addresses of the
/// vault and of its pool authority, this program, and the vault itself.
pub struct Update {
    pub nft_mint: Key,
    pub metadata: Metadata,
    pub vault_key: Key,
    pub vault_pool: Key,
    pub program_id: Key,
    pub vault: Vault,
}

/// What an update does, in order: the fee moved from the claimer to the pool
/// (if any), the replacement metadata, and the vault's new contents.
pub struct Updated {
    pub fee: Option<u64>,
    pub data: DataV2,
    pub vault: Vault,
}

/// The pool address derives from the vault's address and `bump`.
pub open spec fn pool_derives(vault: Seq<u8>, bump: u8, pool: Seq<u8>, program_id: Seq<u8>) -> bool {
    program_address(pool_seeds(vault, bump), program_id) == Some(pool)
}

/// Sets up a vault: checks that the pool address derives from `vault_bump`,
/// asks for the pool's token account where the pool account is still
/// unclaimed, and starts the vault empty with that bump.
pub fn initialize_vault(ctx: &InitializeVault, vault_bump: u8) -> (r: Result<Initialized, VaultError>)
    ensures
        r is Ok <==> pool_derives(ctx.vault@, vault_bump, ctx.vault_pool@, ctx.program_id@),
        r matches Err(e) ==> e == VaultError::SeedsMismatch,
        r matches Ok(o) ==> {
            &&& o.create_pool_token_account == (ctx.vault_pool_owner@ == default_key())
            &&& o.vault@ == (VaultModel { bump: vault_bump, mints: seq![], times: seq![] })
            &&& o.vault@.wf()
        },
{
    let derived = derive_pool_address(&ctx.vault, vault_bump, &ctx.program_id);
    match check_pool_address(derived, &ctx.vault_pool) {
        Ok(()) => {},
        Err(e) => {
            return Err(e);
        },
    }
    let create_pool_token_account = ctx.vault_pool_owner.is_default();
    let vault = Vault::new(vault_bump);
    proof {
        assert(vault@.mints =~= seq![]);
        assert(vault@.times =~= seq![]);
    }
    Ok(Initialized { create_pool_token_account, vault })
}

/// Handles an update of `ctx.nft_mint` at time `now`: charges the fee of the
/// chosen tier when registering, rewrites the metadata URI to `new_uri`
/// either way, then registers the mint (`is_update`) or removes it.
pub fn update(ctx: Update, is_update: bool, spec: bool, new_uri: String, now: u64) -> (r: Result<Updated, VaultError>)
    ensures
        ({
            let v = ctx.vault@;
            let derives = pool_derives(ctx.vault_key@, v.bump, ctx.vault_pool@, ctx.program_id@);
            let aligned = v.mints.len() == v.times.len();
            let overflows = is_update && v.register_overflows(ctx.nft_mint@);
            &&& !derives ==> r == Err::<Updated, VaultError>(VaultError::SeedsMismatch)
            &&& derives && !aligned ==> r == Err::<Updated, VaultError>(VaultError::LengthMismatch)
            &&& derives && aligned && overflows ==> r == Err::<Updated, VaultError>(VaultError::CapacityExceeded)
            &&& r is Ok <==> derives && aligned && !overflows
            &&& r matches Ok(o) ==> {
                &&& o.fee == fee_of(is_update, spec)
                &&& is_rewrite_of(o.data, ctx.metadata, new_uri@)
                &&& o.vault@ == if is_update {
                    v.registered(ctx.nft_mint@, now)
                } else {
                    v.removed(ctx.nft_mint@)
                }
                &&& o.vault@.mints.len() == o.vault@.times.len()
                &&& v.wf() ==> o.vault@.wf()
            }
        }),
{
    let Update { nft_mint, metadata, vault_key, vault_pool, program_id, vault } = ctx;
    let mut vault = vault;
    let ghost old_view = vault@;
    let derived = derive_pool_address(&vault_key, vault.bump, &program_id);
    match check_pool_address(derived, &vault_pool) {
        Ok(()) => {},
        Err(e) => {
            return Err(e);
        },
    }
    if vault.mint_accounts.len() != vault.updated_times.len() {
        return Err(VaultError::LengthMismatch);
    }
    let fee = update_fee(is_update, spec);
    let data = rewrite_uri(metadata, new_uri);
    if is_update {
        match vault.register(nft_mint, now) {
            Ok(()) => {},
            Err(e) => {
                return Err(e);
            },
        }
    } else {
        vault.remove(&nft_mint);
    }
    proof {
        if has_mint(old_view.mints, nft_mint@) {
            lemma_first_index(old_view.mints, nft_mint@);
        }
        if old_view.wf() {
            if is_update {
                lemma_registered_wf(old_view, nft_mint@, now);
            } else {
                lemma_removed_wf(old_view, nft_mint@);
            }
        }
    }
    Ok(Updated { fee, data, vault })
}

} // verus!
