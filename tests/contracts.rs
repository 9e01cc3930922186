use nft_pool::account::{first_label, pool_name, subaccount};
use nft_pool::decimal::decimal_string;
use nft_pool::nft::{
    Contract, ContractParts, NftError, PromiseResult, FT_CONTRACT, NFT_METADATA_SPEC,
};
use nft_pool::pool::{Pool, PoolError, BOOTSTRAP_BALANCE, INIT_GAS, NFT_CALLER};

fn s(x: &str) -> String {
    x.to_string()
}

fn fresh() -> Contract {
    Contract::new(s("nft.testnet"), s("alice"), s("n"), s("S"), s("https://x/")).unwrap()
}

fn balance(text: &str) -> PromiseResult {
    PromiseResult::Successful(text.as_bytes().to_vec())
}

fn mint_bob(c: &mut Contract) {
    let t = c
        .nft_mint_callback(s("bob"), s("QmHashabc"), balance("\"1\""), 7, vec![1, 2, 3])
        .unwrap();
    assert_eq!(t.token_id, "1");
}

#[test]
fn init_sets_metadata() {
    let c = fresh();
    let m = c.nft_metadata();
    assert_eq!(m.name, "n");
    assert_eq!(m.symbol, "S");
    assert_eq!(m.spec, NFT_METADATA_SPEC);
    assert_eq!(m.base_uri, Some(s("https://x/")));
    assert!(m.icon.unwrap().starts_with("data:image/svg+xml"));
    assert_eq!(c.contract_owner(), "alice");
    assert_eq!(c.token_id_counter(), 0);
}

#[test]
fn init_rejects_malformed_owner() {
    let r = Contract::new(s("nft.testnet"), s("Alice"), s("n"), s("S"), s("b"));
    assert_eq!(r.err(), Some(NftError::InvalidAccountId));
    let r = Contract::new(s("nft.testnet"), s("a..b"), s("n"), s("S"), s("b"));
    assert_eq!(r.err(), Some(NftError::InvalidAccountId));
}

#[test]
fn metadata_is_stable() {
    let c = fresh();
    let a = c.nft_metadata();
    let b = c.nft_metadata();
    assert_eq!(a.name, b.name);
    assert_eq!(a.symbol, b.symbol);
    assert_eq!(a.spec, b.spec);
    assert_eq!(a.icon, b.icon);
    assert_eq!(a.base_uri, b.base_uri);
    assert_eq!(a.reference, b.reference);
}

#[test]
fn mint_plans_balance_query() {
    let c = fresh();
    let q = c.nft_mint(&s("bob"), s("QmHashabc")).unwrap();
    assert_eq!(q.ft_contract, FT_CONTRACT);
    assert_eq!(q.account_id, "bob");
    assert_eq!(q.ipfs_hash, "QmHashabc");
    assert_eq!(q.query_gas, 5_000_000_000_000);
    assert_eq!(q.callback_gas, 9_000_000_000_000);
    assert_eq!(q.callback_deposit, 7_620_000_000_000_000_000_000);
    assert_eq!(c.nft_mint(&s("B!"), s("x")).err(), Some(NftError::InvalidAccountId));
}

#[test]
fn mint_gives_owner_nft() {
    let mut c = fresh();
    let t = c
        .nft_mint_callback(s("bob"), s("QmHashabc"), balance("\"1\""), 1234, vec![9, 8])
        .unwrap();
    assert_eq!(t.token_id, "1");
    assert_eq!(t.owner_id, "bob");
    assert_eq!(t.metadata.title, Some(s("ownerNft")));
    assert_eq!(t.metadata.description, Some(s("owner nft for bob")));
    assert_eq!(t.metadata.copies, Some(1));
    assert_eq!(t.metadata.starts_at, Some(s("1234")));
    assert_eq!(t.metadata.updated_at, Some(s("1234")));
    assert_eq!(t.metadata.media, Some(s("QmHashabc")));
    assert_eq!(t.metadata.media_hash, Some(vec![9, 8]));
    assert_eq!(c.owner_nft(&s("bob")), Some(s("1")));
    assert_eq!(c.invite_count(&s("bob")), Some(2));
    assert_eq!(c.token_owner(1), Some(s("bob")));
    assert_eq!(c.token_id_counter(), 1);
}

#[test]
fn mint_twice_fails() {
    let mut c = fresh();
    mint_bob(&mut c);
    let r = c.nft_mint_callback(s("bob"), s("QmHashabc"), balance("\"1\""), 8, vec![]);
    assert_eq!(r.err(), Some(NftError::AlreadyMinted));
    assert_eq!(c.token_id_counter(), 1);
}

#[test]
fn mint_rejects_bad_callback_results() {
    let mut c = fresh();
    let r = c.nft_mint_callback(s("bob"), s("h"), PromiseResult::Failed, 1, vec![]);
    assert_eq!(r.err(), Some(NftError::MalformedCallbackResult));
    let r = c.nft_mint_callback(s("bob"), s("h"), PromiseResult::NotReady, 1, vec![]);
    assert_eq!(r.err(), Some(NftError::MalformedCallbackResult));
    let r = c.nft_mint_callback(s("bob"), s("h"), balance("not json"), 1, vec![]);
    assert_eq!(r.err(), Some(NftError::MalformedCallbackResult));
    let r = c.nft_mint_callback(s("bob"), s("h"), balance("1"), 1, vec![]);
    assert_eq!(r.err(), Some(NftError::MalformedCallbackResult));
    assert_eq!(c.token_id_counter(), 0);
    assert_eq!(c.owner_nft(&s("bob")), None);
}

#[test]
fn mint_accepts_zero_balance() {
    let mut c = fresh();
    let r = c.mint_owner_nft(s("dan"), s("h"), Some(0), 5, vec![]);
    assert_eq!(r.unwrap().token_id, "1");
    let r = c.mint_owner_nft(s("eve"), s("h"), None, 5, vec![]);
    assert_eq!(r.err(), Some(NftError::MalformedCallbackResult));
}

#[test]
fn invite_mints_until_quota_spent() {
    let mut c = fresh();
    mint_bob(&mut c);
    let q = c.invite_other(&s("bob"), s("carol")).unwrap();
    assert_eq!(q.ft_contract, FT_CONTRACT);
    assert_eq!(q.invitee, "carol");
    assert_eq!(q.amount, 1);
    assert_eq!(q.caller, "bob");
    assert_eq!(q.callback_deposit, 7_630_000_000_000_000_000_000);
    let t = c.invite_other_callback(s("bob"), s("carol"), 99).unwrap();
    assert_eq!(t.token_id, "2");
    assert_eq!(t.owner_id, "carol");
    assert_eq!(t.metadata.title, Some(s("inviteNft")));
    assert_eq!(t.metadata.description, Some(s("invited by bob")));
    assert_eq!(t.metadata.starts_at, Some(s("99")));
    assert_eq!(t.metadata.media, None);
    assert_eq!(c.token_owner(2), Some(s("carol")));
    assert_eq!(c.invite_count(&s("bob")), Some(1));

    assert!(c.invite_other(&s("bob"), s("dave")).is_ok());
    let t = c.invite_other_callback(s("bob"), s("dave"), 100).unwrap();
    assert_eq!(t.token_id, "3");
    assert_eq!(c.invite_count(&s("bob")), Some(0));

    assert_eq!(c.invite_other(&s("bob"), s("erin")).err(), Some(NftError::NoInvitesRemaining));
    let r = c.invite_other_callback(s("bob"), s("erin"), 101);
    assert_eq!(r.err(), Some(NftError::NoInvitesRemaining));
    assert_eq!(c.token_id_counter(), 3);
}

#[test]
fn invite_needs_owner_nft_and_valid_invitee() {
    let mut c = fresh();
    assert_eq!(c.invite_other(&s("zed"), s("carol")).err(), Some(NftError::NoInvitesRemaining));
    let r = c.invite_other_callback(s("zed"), s("carol"), 1);
    assert_eq!(r.err(), Some(NftError::NoInvitesRemaining));
    mint_bob(&mut c);
    assert_eq!(c.invite_other(&s("bob"), s("-carol")).err(), Some(NftError::InvalidAccountId));
}

#[test]
fn token_ids_follow_counter() {
    let mut c = fresh();
    mint_bob(&mut c);
    let t = c.invite_other_callback(s("bob"), s("carol"), 1).unwrap();
    assert_eq!(t.token_id, "2");
    let t = c.nft_mint_callback(s("carol"), s("h"), balance("\"5\""), 2, vec![]).unwrap();
    assert_eq!(t.token_id, "3");
    assert_eq!(c.token_id_counter(), 3);
    assert_eq!(c.token_owner(0), None);
    assert_eq!(c.token_owner(4), None);
}

#[test]
fn create_pool_moves_owner_nft_into_custody() {
    let mut c = fresh();
    mint_bob(&mut c);
    let p = c.create_pool(&s("bob"), s("pool.testnet"), 100, 300).unwrap();
    assert_eq!(p.pool_id, "pool.testnet");
    assert_eq!(p.pool_name, "bob102202");
    assert_eq!(p.owner_id, "bob");
    assert_eq!(p.roomsize, 100);
    assert_eq!(p.gas, 150);
    assert_eq!(p.subaccount, "bob102202.pool.testnet");
    assert_eq!(c.token_owner(1), Some(s("nft.testnet")));
    assert_eq!(c.owner_nft(&s("bob")), None);
    assert_eq!(c.invite_count(&s("bob")), Some(2));
}

#[test]
fn create_pool_twice_fails_with_no_owner_nft() {
    let mut c = fresh();
    mint_bob(&mut c);
    assert!(c.create_pool(&s("bob"), s("pool.testnet"), 100, 300).is_ok());
    let r = c.create_pool(&s("bob"), s("pool.testnet"), 100, 300);
    assert_eq!(r.err(), Some(NftError::NoOwnerNft));
}

#[test]
fn create_pool_without_owner_nft_fails() {
    let mut c = fresh();
    let r = c.create_pool(&s("bob"), s("pool.testnet"), 1, 2);
    assert_eq!(r.err(), Some(NftError::NoOwnerNft));
}

#[test]
fn pool_names_use_first_label() {
    assert_eq!(first_label(&s("bob.testnet")), "bob");
    assert_eq!(first_label(&s("bob")), "bob");
    assert_eq!(first_label(&s(".x")), "");
    assert_eq!(pool_name(&s("carol.near.testnet")), "carol102202");
    assert_eq!(subaccount(&s("a"), &s("b.c")), "a.b.c");
}

#[test]
fn decimal_rendering() {
    assert_eq!(decimal_string(0), "0");
    assert_eq!(decimal_string(7), "7");
    assert_eq!(decimal_string(10), "10");
    assert_eq!(decimal_string(1234567890), "1234567890");
    assert_eq!(decimal_string(u64::MAX), "18446744073709551615");
}

#[test]
fn new_pool_plans_token_deployment() {
    let p = Pool::new(s("nft.testnet"), s("bob"));
    let d = p.new_pool(&s("pool.testnet"), s("bob102202"), s("bob"), 100);
    assert_eq!(d.subaccount, "bob102202.pool.testnet");
    assert_eq!(d.total_supply, 100);
    assert_eq!(d.init_owner, "bob");
    assert_eq!(d.init_method, "new_default_meta");
    assert_eq!(d.nft_caller, NFT_CALLER);
    assert_eq!(d.bootstrap_balance, BOOTSTRAP_BALANCE);
    assert_eq!(d.init_deposit, 0);
    assert_eq!(d.init_gas, INIT_GAS);
}

#[test]
fn change_owner_only_by_owner() {
    let mut p = Pool::new(s("nft.testnet"), s("bob"));
    assert_eq!(p.change_owner(&s("mallory"), s("mallory")), Err(PoolError::UnauthorizedOwner));
    assert_eq!(p.change_owner(&s("nft.testnet"), s("carol")), Ok(true));
}

#[test]
fn state_survives_export_and_import() {
    let mut c = fresh();
    mint_bob(&mut c);
    c.invite_other_callback(s("bob"), s("carol"), 3).unwrap();
    let parts = c.into_parts();
    assert_eq!(parts.token_id_counter, 2);
    assert_eq!(parts.token_owners, vec![s("bob"), s("carol")]);
    let c = Contract::from_parts(parts).unwrap();
    assert_eq!(c.owner_nft(&s("bob")), Some(s("1")));
    assert_eq!(c.invite_count(&s("bob")), Some(1));
    assert_eq!(c.token_owner(2), Some(s("carol")));
    assert_eq!(c.nft_metadata().name, "n");
}

fn parts_with(owner_nfts: Vec<(String, u64)>, invite_counts: Vec<(String, u64)>) -> ContractParts {
    let mut parts = fresh().into_parts();
    parts.token_id_counter = 1;
    parts.token_owners = vec![s("bob")];
    parts.owner_nfts = owner_nfts;
    parts.invite_counts = invite_counts;
    parts
}

#[test]
fn import_checks_the_invariant() {
    assert!(Contract::from_parts(parts_with(vec![(s("bob"), 1)], vec![(s("bob"), 2)])).is_some());
    assert!(Contract::from_parts(parts_with(vec![(s("bob"), 2)], vec![])).is_none());
    assert!(Contract::from_parts(parts_with(vec![(s("carol"), 1)], vec![])).is_none());
    assert!(Contract::from_parts(parts_with(vec![], vec![(s("bob"), 3)])).is_none());
    // a later entry overrides an earlier one
    let c = Contract::from_parts(parts_with(vec![(s("bob"), 9), (s("bob"), 1)], vec![])).unwrap();
    assert_eq!(c.owner_nft(&s("bob")), Some(s("1")));
    let mut bad = parts_with(vec![], vec![]);
    bad.token_id_counter = 2;
    assert!(Contract::from_parts(bad).is_none());
}

#[test]
fn pool_keeps_owner_and_sub_owner() {
    let mut p = Pool::new(s("nft.testnet"), s("bob"));
    assert_eq!(p.owner_id(), "nft.testnet");
    assert_eq!(p.sub_owner_id(), "bob");
    assert!(p.change_owner(&s("bob"), s("x")).is_err());
    assert_eq!(p.sub_owner_id(), "bob");
    p.change_owner(&s("nft.testnet"), s("carol")).unwrap();
    assert_eq!(p.sub_owner_id(), "carol");
    assert_eq!(p.owner_id(), "nft.testnet");
}
