use anchor_lang::prelude::Pubkey;
use update_metadata::{
    check_pool_address, derive_pool_address, initialize_vault, rewrite_uri, update, update_fee,
    Collection, Creator, Data, InitializeVault, Key, Metadata, Update, UseMethod, Uses, Vault,
    VaultError, SPEC_FEE, STANDARD_FEE, VAULT_CAPACITY,
};

fn key(n: u8) -> Key {
    Key::new([n; 32])
}

fn program() -> Key {
    key(200)
}

fn pool_of(vault: &Key) -> (Key, u8) {
    let (pda, bump) = Pubkey::find_program_address(
        &[b"vault_pool".as_ref(), vault.bytes.as_ref()],
        &Pubkey::new_from_array(program().bytes),
    );
    (Key::new(pda.to_bytes()), bump)
}

fn metadata(uri: &str) -> Metadata {
    Metadata {
        data: Data {
            name: "Flower".to_string(),
            symbol: "FLWR".to_string(),
            uri: uri.to_string(),
            seller_fee_basis_points: 500,
            creators: Some(vec![Creator { address: key(9), verified: true, share: 100 }]),
        },
        collection: Some(Collection { verified: false, key: key(8) }),
        uses: Some(Uses { use_method: UseMethod::Multiple, remaining: 3, total: 5 }),
    }
}

fn ctx_for(vault: Vault, mint: Key, uri: &str) -> Update {
    let vault_key = key(1);
    let (vault_pool, _) = pool_of(&vault_key);
    Update { nft_mint: mint, metadata: metadata(uri), vault_key, vault_pool, program_id: program(), vault }
}

fn fresh_vault() -> Vault {
    let (_, bump) = pool_of(&key(1));
    Vault::new(bump)
}

fn mints(v: &Vault) -> Vec<[u8; 32]> {
    v.mint_accounts.iter().map(|k| k.bytes).collect()
}

#[test]
fn register_refresh_remove_scenario() {
    let m = key(7);
    let r = update(ctx_for(fresh_vault(), m, "ipfs://old"), true, true, "ipfs://a".to_string(), 100);
    let o = r.ok().unwrap();
    assert_eq!(o.fee, Some(33_333_000_000_000));
    assert_eq!(o.data.uri, "ipfs://a");
    assert_eq!(mints(&o.vault), vec![[7u8; 32]]);
    assert_eq!(o.vault.updated_times, vec![100]);

    let r = update(ctx_for(o.vault, m, "ipfs://a"), true, false, "ipfs://b".to_string(), 160);
    let o = r.ok().unwrap();
    assert_eq!(o.fee, Some(38_333_000_000_000));
    assert_eq!(o.data.uri, "ipfs://b");
    assert_eq!(mints(&o.vault), vec![[7u8; 32]]);
    assert_eq!(o.vault.updated_times, vec![160]);

    let r = update(ctx_for(o.vault, m, "ipfs://b"), false, true, "ipfs://b".to_string(), 200);
    let o = r.ok().unwrap();
    assert_eq!(o.fee, None);
    assert_eq!(o.data.uri, "ipfs://b");
    assert!(o.vault.mint_accounts.is_empty());
    assert!(o.vault.updated_times.is_empty());
}

#[test]
fn fee_tiers() {
    assert_eq!(update_fee(true, true), Some(SPEC_FEE));
    assert_eq!(update_fee(true, false), Some(STANDARD_FEE));
    assert_eq!(update_fee(false, true), None);
    assert_eq!(update_fee(false, false), None);
    assert_eq!(SPEC_FEE, 33_333_000_000_000);
    assert_eq!(STANDARD_FEE, 38_333_000_000_000);
}

#[test]
fn rewrite_keeps_all_but_uri() {
    let d = rewrite_uri(metadata("ipfs://old"), "ipfs://new".to_string());
    assert_eq!(d.uri, "ipfs://new");
    assert_eq!(d.name, "Flower");
    assert_eq!(d.symbol, "FLWR");
    assert_eq!(d.seller_fee_basis_points, 500);
    let creators = d.creators.unwrap();
    assert_eq!(creators.len(), 1);
    assert_eq!(creators[0].address.bytes, [9u8; 32]);
    assert!(creators[0].verified);
    assert_eq!(creators[0].share, 100);
    let c = d.collection.unwrap();
    assert_eq!(c.key.bytes, [8u8; 32]);
    assert!(!c.verified);
    let u = d.uses.unwrap();
    assert_eq!(u.use_method, UseMethod::Multiple);
    assert_eq!((u.remaining, u.total), (3, 5));
}

#[test]
fn repeated_registration_keeps_one_entry() {
    let m = key(7);
    let mut v = fresh_vault();
    for t in [5u64, 9, 4, 30] {
        v = update(ctx_for(v, m, "u"), true, true, "u".to_string(), t).ok().unwrap().vault;
    }
    assert_eq!(mints(&v), vec![[7u8; 32]]);
    assert_eq!(v.updated_times, vec![30]);
}

#[test]
fn removing_absent_mint_changes_nothing_but_rewrites() {
    let mut v = fresh_vault();
    v.mint_accounts.push(key(3));
    v.updated_times.push(11);
    let o = update(ctx_for(v, key(4), "ipfs://x"), false, false, "ipfs://y".to_string(), 50).ok().unwrap();
    assert_eq!(o.fee, None);
    assert_eq!(o.data.uri, "ipfs://y");
    assert_eq!(mints(&o.vault), vec![[3u8; 32]]);
    assert_eq!(o.vault.updated_times, vec![11]);
}

#[test]
fn register_then_remove_restores_order() {
    let mut v = fresh_vault();
    for (n, t) in [(1u8, 10u64), (2, 20), (3, 30)] {
        v = update(ctx_for(v, key(n), "u"), true, true, "u".to_string(), t).ok().unwrap().vault;
    }
    v = update(ctx_for(v, key(4), "u"), true, false, "u".to_string(), 40).ok().unwrap().vault;
    assert_eq!(v.mint_accounts.len(), 4);
    v = update(ctx_for(v, key(4), "u"), false, false, "u".to_string(), 50).ok().unwrap().vault;
    assert_eq!(mints(&v), vec![[1u8; 32], [2u8; 32], [3u8; 32]]);
    assert_eq!(v.updated_times, vec![10, 20, 30]);
}

#[test]
fn removal_in_the_middle_shifts_later_entries() {
    let mut v = fresh_vault();
    for (n, t) in [(1u8, 10u64), (2, 20), (3, 30)] {
        v = update(ctx_for(v, key(n), "u"), true, true, "u".to_string(), t).ok().unwrap().vault;
    }
    v = update(ctx_for(v, key(2), "u"), false, true, "u".to_string(), 99).ok().unwrap().vault;
    assert_eq!(mints(&v), vec![[1u8; 32], [3u8; 32]]);
    assert_eq!(v.updated_times, vec![10, 30]);
}

#[test]
fn full_vault_refuses_new_mint_but_refreshes_known() {
    let mut v = fresh_vault();
    for i in 0..VAULT_CAPACITY {
        let mut b = [0u8; 32];
        b[0] = (i % 256) as u8;
        b[1] = (i / 256) as u8;
        v.mint_accounts.push(Key::new(b));
        v.updated_times.push(i as u64);
    }
    let mut known = [0u8; 32];
    known[0] = 5;
    let o = update(ctx_for(v, Key::new(known), "u"), true, true, "u".to_string(), 1000).ok().unwrap();
    assert_eq!(o.vault.mint_accounts.len(), VAULT_CAPACITY);
    assert_eq!(o.vault.updated_times[5], 1000);
    let r = update(ctx_for(o.vault, key(255), "u"), true, true, "u".to_string(), 1001);
    assert!(matches!(r, Err(VaultError::CapacityExceeded)));
}

#[test]
fn misaligned_vault_is_refused() {
    let mut v = fresh_vault();
    v.mint_accounts.push(key(3));
    let r = update(ctx_for(v, key(3), "u"), false, true, "u".to_string(), 1);
    assert!(matches!(r, Err(VaultError::LengthMismatch)));
}

#[test]
fn update_with_wrong_pool_is_refused() {
    let mut ctx = ctx_for(fresh_vault(), key(3), "u");
    ctx.vault_pool = key(77);
    let r = update(ctx, true, true, "u".to_string(), 1);
    assert!(matches!(r, Err(VaultError::SeedsMismatch)));
}

#[test]
fn derived_pool_address_matches_runtime() {
    let vault = key(1);
    let (pool, bump) = pool_of(&vault);
    let derived = derive_pool_address(&vault, bump, &program()).unwrap();
    assert_eq!(derived.bytes, pool.bytes);
    assert_ne!(derived.bytes, vault.bytes);
    assert_ne!(derived.bytes, program().bytes);
    assert!(check_pool_address(Some(derived), &pool).is_ok());
    assert!(matches!(check_pool_address(Some(key(5)), &pool), Err(VaultError::SeedsMismatch)));
    assert!(matches!(check_pool_address(None, &pool), Err(VaultError::SeedsMismatch)));
}

#[test]
fn initialize_creates_token_account_only_when_unclaimed() {
    let vault = key(1);
    let (pool, bump) = pool_of(&vault);
    let ctx = InitializeVault { vault, vault_pool: pool, vault_pool_owner: key(0), program_id: program() };
    let o = initialize_vault(&ctx, bump).ok().unwrap();
    assert!(o.create_pool_token_account);
    assert_eq!(o.vault.bump, bump);
    assert!(o.vault.mint_accounts.is_empty());
    assert!(o.vault.updated_times.is_empty());

    let ctx = InitializeVault { vault, vault_pool: pool, vault_pool_owner: key(6), program_id: program() };
    let o = initialize_vault(&ctx, bump).ok().unwrap();
    assert!(!o.create_pool_token_account);
}

#[test]
fn initialize_with_wrong_bump_is_refused() {
    let vault = key(1);
    let (pool, bump) = pool_of(&vault);
    let ctx = InitializeVault { vault, vault_pool: pool, vault_pool_owner: key(0), program_id: program() };
    let r = initialize_vault(&ctx, bump.wrapping_sub(1));
    assert!(matches!(r, Err(VaultError::SeedsMismatch)));
}

#[test]
fn keys_compare_by_bytes() {
    let mut b = [4u8; 32];
    assert!(Key::new(b).same_as(&Key::new([4u8; 32])));
    b[31] = 5;
    assert!(!Key::new(b).same_as(&Key::new([4u8; 32])));
    assert!(key(0).is_default());
    assert!(!Key::new(b).is_default());
}
