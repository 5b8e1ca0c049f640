use mint_market::error::MintError;
use mint_market::fee::FeeFraction;
use mint_market::market::{
    Contract, MintOutcome, MintRequest, StoragePackage, TokenData, FREE_STORAGE_SIZE,
    TIMESTAMP_MAX_INTERVAL,
};
use mint_market::signature::{decode_public_key, decode_signature};

const NOW: u64 = 1_000_000_000_000;

fn frac(n: u32, d: u32) -> FeeFraction {
    FeeFraction::new(n, d)
}

fn key_hex() -> String {
    "ab".repeat(32)
}

fn market_with(seller: FeeFraction, r1: FeeFraction, r2: FeeFraction) -> Contract {
    Contract::new(
        "owner".to_string(),
        key_hex(),
        100,
        frac(1, 10),
        seller,
        r1,
        r2,
        10,
        vec![StoragePackage { price: 50, storage_size: 5 }, StoragePackage { price: 10, storage_size: 20 }],
    )
    .unwrap()
}

fn market() -> Contract {
    market_with(frac(1, 2), frac(1, 5), frac(1, 10))
}

fn request(token: &str, account: &str, r1: Option<&str>, r2: Option<&str>, ts: u64) -> MintRequest {
    MintRequest {
        token_id: token.to_string(),
        account_id: account.to_string(),
        referral_id_1: r1.map(|s| s.to_string()),
        referral_id_2: r2.map(|s| s.to_string()),
        timestamp: ts,
    }
}

fn s(v: &str) -> String {
    v.to_string()
}

#[test]
fn fee_fraction_multiply_values() {
    assert_eq!(frac(1, 10).multiply(100), 10);
    assert_eq!(frac(1, 2).multiply(10), 5);
    assert_eq!(frac(1, 5).multiply(10), 2);
    assert_eq!(frac(1, 3).multiply(10), 3);
    assert_eq!(frac(0, 7).multiply(1000), 0);
    assert_eq!(frac(7, 7).multiply(1000), 1000);
    assert_eq!(frac(1, 2).multiply(u128::MAX), u128::MAX / 2);
    assert_eq!(frac(u32::MAX, u32::MAX).multiply(u128::MAX), u128::MAX);
}

#[test]
fn fee_fraction_validity() {
    assert!(frac(1, 2).is_valid());
    assert!(!frac(3, 2).is_valid());
    assert!(!frac(0, 0).is_valid());
}

#[test]
fn new_rejects_invalid_fraction() {
    let r = Contract::new(s("owner"), key_hex(), 100, frac(1, 10), frac(2, 1), frac(1, 5), frac(1, 10), 10, vec![]);
    assert!(matches!(r, Err(MintError::InvalidFeeFraction)));
}

#[test]
fn first_mint_then_resale_example() {
    let mut c = market();
    let a = s("alice");
    let b = s("bob");
    let t1 = s("T1");
    assert_eq!(c.get_token_data(&t1), TokenData { generation: 0, price: 100 });
    let out = c.nft_mint(&request("T1", "alice", None, None, NOW), true, &a, 100, NOW).unwrap();
    assert!(matches!(out, MintOutcome::Minted));
    assert_eq!(c.get_token_data(&t1), TokenData { generation: 0, price: 100 });
    assert_eq!(c.get_token_owner(&t1), Some(a.clone()));
    assert_eq!(c.get_balance(&s("owner")), 100);
    assert_eq!(c.internal_total_supply_by_user(&a), 1);

    let out = c.nft_mint(&request("T1", "bob", Some("carol"), None, NOW + 1), true, &b, 110, NOW + 1).unwrap();
    match out {
        MintOutcome::Resold { seller_id, seller_payout } => {
            assert_eq!(seller_id, a);
            assert_eq!(seller_payout, 105);
        }
        MintOutcome::Minted => panic!("expected a resale"),
    }
    assert_eq!(c.get_balance(&s("carol")), 2);
    assert_eq!(c.get_balance(&s("owner")), 103);
    assert_eq!(c.get_token_owner(&t1), Some(b.clone()));
    assert_eq!(c.get_token_data(&t1), TokenData { generation: 1, price: 110 });
    assert_eq!(c.get_token_price(&t1), 110);
    assert_eq!(c.get_token_generation(&t1), 1);
    assert_eq!(c.internal_total_supply_by_user(&a), 0);
    assert_eq!(c.internal_total_supply_by_user(&b), 1);
    assert_eq!(c.get_referrer(&b), Some(s("carol")));
}

#[test]
fn resale_price_keeps_rising() {
    let mut c = market();
    let names = ["u0", "u1", "u2", "u3"];
    c.nft_mint(&request("T", names[0], None, None, NOW), true, &s(names[0]), 100, NOW).unwrap();
    let mut price: u128 = 100;
    for (i, n) in names.iter().enumerate().skip(1) {
        let next = price + price / 10;
        let ts = NOW + i as u64;
        c.nft_mint(&request("T", n, None, None, ts), true, &s(n), next, ts).unwrap();
        assert!(next > price);
        price = next;
        assert_eq!(c.get_token_data(&s("T")), TokenData { generation: i as u32, price });
    }
    assert_eq!(price, 133);
}

#[test]
fn first_mint_with_two_referrers() {
    let mut c = market();
    c.nft_mint(&request("T", "alice", Some("r1"), Some("r2"), NOW), true, &s("alice"), 150, NOW).unwrap();
    assert_eq!(c.get_balance(&s("r1")), 20);
    assert_eq!(c.get_balance(&s("r2")), 10);
    assert_eq!(c.get_balance(&s("owner")), 70);
}

#[test]
fn fee_split_conserves_increase() {
    let c = market();
    let sh = c.split_fees(false, 1000, true, true);
    assert_eq!(sh.seller_fee, 500);
    assert_eq!(sh.referral_1_fee, 200);
    assert_eq!(sh.referral_2_fee, 100);
    assert_eq!(sh.system_fee, Some(200));
    let sh = c.split_fees(true, 1000, false, false);
    assert_eq!(sh.seller_fee, 0);
    assert_eq!(sh.system_fee, Some(1000));
}

#[test]
fn fee_split_skips_system_fee_when_overcommitted() {
    let c = market_with(frac(3, 5), frac(3, 5), frac(0, 1));
    let sh = c.split_fees(false, 10, true, false);
    assert_eq!(sh.seller_fee, 6);
    assert_eq!(sh.referral_1_fee, 6);
    assert_eq!(sh.system_fee, None);
}

#[test]
fn system_fee_skipped_in_mint_when_overcommitted() {
    let mut c = market_with(frac(3, 5), frac(3, 5), frac(0, 1));
    c.nft_mint(&request("T", "alice", None, None, NOW), true, &s("alice"), 100, NOW).unwrap();
    assert_eq!(c.get_balance(&s("owner")), 100);
    c.nft_mint(&request("T", "bob", Some("ref"), None, NOW + 1), true, &s("bob"), 110, NOW + 1).unwrap();
    assert_eq!(c.get_balance(&s("ref")), 6);
    assert_eq!(c.get_balance(&s("owner")), 100);
}

#[test]
fn referral_first_write_wins() {
    let mut c = market();
    let a = s("alice");
    c.register_first_referrer(&a, &s("r1"));
    c.register_first_referrer(&a, &s("r2"));
    assert_eq!(c.get_referrer(&a), Some(s("r1")));
    c.register_first_referrer(&s("r1"), &s("r0"));
    c.register_first_referrer(&s("r0"), &s("root"));
    assert_eq!(c.resolve_chain(&a), (Some(s("r1")), Some(s("r0"))));
    assert_eq!(c.resolve_chain(&s("nobody")), (None, None));
    assert_eq!(c.resolve_chain(&s("r0")), (Some(s("root")), None));
}

#[test]
fn replayed_request_is_rejected() {
    let mut c = market();
    let req = request("T", "alice", None, None, NOW);
    c.nft_mint(&req, true, &s("alice"), 100, NOW).unwrap();
    let r = c.nft_mint(&req, true, &s("alice"), 1000, NOW + 5);
    assert!(matches!(r, Err(MintError::TimestampNotAfterLastAction)));
    let r = c.nft_mint(&request("U", "alice", None, None, NOW - 1), true, &s("alice"), 1000, NOW + 5);
    assert!(matches!(r, Err(MintError::TimestampNotAfterLastAction)));
    let r = c.nft_mint(&request("U", "alice", None, None, NOW + 1), true, &s("alice"), 100, NOW + 5);
    assert!(r.is_ok());
}

#[test]
fn stale_request_is_rejected() {
    let mut c = market();
    let now = NOW + TIMESTAMP_MAX_INTERVAL + 1;
    let r = c.nft_mint(&request("T", "alice", None, None, NOW), true, &s("alice"), 100, now);
    assert!(matches!(r, Err(MintError::TimestampTooOld)));
    let r = c.nft_mint(&request("T", "alice", None, None, NOW), true, &s("alice"), 100, now - 1);
    assert!(r.is_ok());
}

#[test]
fn mint_refusals() {
    let mut c = market();
    let a = s("alice");
    let r = c.nft_mint(&request("T", "alice", None, None, NOW), false, &a, 100, NOW);
    assert!(matches!(r, Err(MintError::SignatureCheckFailed)));
    let r = c.nft_mint(&request("T", "alice", None, None, NOW), true, &s("bob"), 100, NOW);
    assert!(matches!(r, Err(MintError::MintForYourselfOnly)));
    let r = c.nft_mint(&request("T", "alice", Some("alice"), None, NOW), true, &a, 100, NOW);
    assert!(matches!(r, Err(MintError::SelfReferral)));
    let r = c.nft_mint(&request("T", "alice", None, Some("alice"), NOW), true, &a, 100, NOW);
    assert!(matches!(r, Err(MintError::SelfReferral)));
    let r = c.nft_mint(&request("T", "alice", None, None, NOW), true, &a, 99, NOW);
    assert!(matches!(r, Err(MintError::IllegalDeposit)));
    assert_eq!(c.get_token_owner(&s("T")), None);
    assert_eq!(c.get_balance(&s("owner")), 0);

    c.nft_mint(&request("T", "alice", None, None, NOW), true, &a, 100, NOW).unwrap();
    let r = c.nft_mint(&request("T", "alice", None, None, NOW + 1), true, &a, 1000, NOW + 1);
    assert!(matches!(r, Err(MintError::SameOwner)));
    let r = c.nft_mint(&request("T", "bob", None, None, NOW + 1), true, &s("bob"), 109, NOW + 1);
    assert!(matches!(r, Err(MintError::IllegalDeposit)));
    assert_eq!(c.get_token_data(&s("T")), TokenData { generation: 0, price: 100 });
}

#[test]
fn mint_needs_free_slot() {
    let mut c = market();
    let a = s("alice");
    for i in 0..FREE_STORAGE_SIZE as u64 {
        let t = format!("T{}", i);
        c.nft_mint(&request(&t, "alice", None, None, NOW + i), true, &a, 100, NOW + i).unwrap();
    }
    let r = c.nft_mint(&request("X", "alice", None, None, NOW + 10), true, &a, 100, NOW + 10);
    assert!(matches!(r, Err(MintError::InsufficientStorage)));
}

#[test]
fn resale_price_overflow_is_refused() {
    let mut c = Contract::new(s("owner"), key_hex(), u128::MAX, frac(1, 10), frac(1, 2), frac(1, 5), frac(1, 10), 10, vec![])
        .unwrap();
    c.nft_mint(&request("T", "alice", None, None, NOW), true, &s("alice"), u128::MAX, NOW).unwrap();
    let r = c.nft_mint(&request("T", "bob", None, None, NOW + 1), true, &s("bob"), u128::MAX, NOW + 1);
    assert!(matches!(r, Err(MintError::PriceOverflow)));
}

#[test]
fn storage_purchase_insufficient_deposit() {
    let mut c = market();
    let a = s("alice");
    let r = c.buy_storage(a.clone(), 40, 0);
    assert!(matches!(r, Err(MintError::IllegalDeposit)));
    assert_eq!(c.internal_get_user_storage(&a), FREE_STORAGE_SIZE);
}

#[test]
fn storage_purchase_rules() {
    let mut c = market();
    let a = s("alice");
    assert!(c.buy_storage(a.clone(), 50, 0).is_ok());
    assert_eq!(c.internal_get_user_storage(&a), 8);
    assert!(matches!(c.buy_storage(a.clone(), 50, 2), Err(MintError::MissingStoragePackage)));
    assert!(matches!(c.buy_storage(a.clone(), 50, 0), Err(MintError::IllegalStorageToBuy)));
    assert!(matches!(c.buy_storage(a.clone(), 10, 1), Err(MintError::IllegalStorageToBuy)));
    assert_eq!(c.internal_get_user_storage(&a), 8);
}

#[test]
fn archiving_twice_keeps_one_entry() {
    let mut c = market();
    let a = s("alice");
    c.store_nft(&s("T1"), 0, &a);
    c.store_nft(&s("T1"), 0, &a);
    assert_eq!(c.get_user_collection_items(&a), 1);
    assert_eq!(c.internal_total_supply_by_user(&a), 1);
    c.store_nft(&s("T1"), 1, &a);
    assert_eq!(c.get_user_collection_items(&a), 2);
    assert_eq!(c.get_user_collection_items(&s("bob")), 0);
}

#[test]
fn remove_archived_item() {
    let mut c = market();
    let a = s("alice");
    c.store_nft(&s("T1"), 0, &a);
    assert!(c.internal_remove_user_collection_item(a.clone(), 0, s("T1"), true).is_ok());
    assert_eq!(c.get_user_collection_items(&a), 0);
    assert_eq!(c.internal_total_supply_by_user(&a), 0);
    let r = c.internal_remove_user_collection_item(a.clone(), 0, s("T1"), true);
    assert!(matches!(r, Err(MintError::CollectionItemNotFound)));
    assert!(c.internal_remove_user_collection_item(a.clone(), 0, s("T1"), false).is_ok());
}

#[test]
fn resale_archives_for_opted_in_seller() {
    let mut c = market();
    let a = s("alice");
    c.set_store_user_tokens(a.clone(), true);
    assert!(c.get_store_user_tokens(&a));
    c.nft_mint(&request("T", "alice", None, None, NOW), true, &a, 100, NOW).unwrap();
    c.nft_mint(&request("T", "bob", None, None, NOW + 1), true, &s("bob"), 110, NOW + 1).unwrap();
    assert_eq!(c.get_user_collection_items(&a), 1);
    assert_eq!(c.internal_total_supply_by_user(&a), 1);
    assert!(c.internal_remove_user_collection_item(a.clone(), 0, s("T"), true).is_ok());
}

#[test]
fn resale_does_not_archive_without_opt_in() {
    let mut c = market();
    let a = s("alice");
    c.nft_mint(&request("T", "alice", None, None, NOW), true, &a, 100, NOW).unwrap();
    c.nft_mint(&request("T", "bob", None, None, NOW + 1), true, &s("bob"), 110, NOW + 1).unwrap();
    assert_eq!(c.get_user_collection_items(&a), 0);
}

#[test]
fn failed_payout_is_credited_back() {
    let mut c = market();
    let a = s("alice");
    c.resolve_payout(&a, 105, true);
    assert_eq!(c.get_balance(&a), 0);
    c.resolve_payout(&a, 105, false);
    assert_eq!(c.get_balance(&a), 105);
}

#[test]
fn hex_keys_decode() {
    let pk = decode_public_key(&format!("{}{}", "00".repeat(31), "fF")).unwrap();
    assert_eq!(pk.len(), 32);
    assert_eq!(pk[31], 255);
    assert!(matches!(decode_public_key(&s("zz")), Err(MintError::PublicKeyNotHex)));
    assert!(matches!(decode_public_key(&s("abc")), Err(MintError::PublicKeyNotHex)));
    assert!(matches!(decode_public_key(&s("abcd")), Err(MintError::PublicKeyLength)));
    let sig = decode_signature(&"1a".repeat(64)).unwrap();
    assert_eq!(sig, vec![0x1a; 64]);
    assert!(matches!(decode_signature(&"1a".repeat(32)), Err(MintError::SignatureLength)));
    assert!(matches!(decode_signature(&s("g0")), Err(MintError::SignatureNotHex)));
}

#[test]
fn verification_inputs_decode_both() {
    let c = market();
    let (pk, sig) = c.verification_inputs(&"0f".repeat(64)).unwrap();
    assert_eq!(pk, vec![0xab; 32]);
    assert_eq!(sig, vec![0x0f; 64]);
    assert!(matches!(c.verification_inputs(&s("x")), Err(MintError::SignatureNotHex)));
    let bad = Contract::new(s("owner"), s("1234"), 1, frac(0, 1), frac(0, 1), frac(0, 1), frac(0, 1), 1, vec![]).unwrap();
    assert!(matches!(bad.verification_inputs(&"0f".repeat(64)), Err(MintError::PublicKeyLength)));
    assert_eq!(bad.get_public_key(), &s("1234"));
}

#[test]
fn deposit_check() {
    assert!(mint_market::market::assert_deposit(100, 100).is_ok());
    assert!(mint_market::market::assert_deposit(101, 100).is_ok());
    assert!(matches!(mint_market::market::assert_deposit(99, 100), Err(MintError::IllegalDeposit)));
}

const SIGNER_KEY: &str = "79b5562e8fe654f94078b112e8a98ba7901f853ae695bed7e0e3910bad049664";
const SIGNED_MESSAGE: &str =
    r#"{"token_id":"T1","account_id":"alice","referral_id_1":null,"referral_id_2":null,"timestamp":1000000000000}"#;
const MESSAGE_SIGNATURE: &str = "0156d9a72fa5b51477e0346f49ae601a68c1b904cf565aeb1fe6890cdefedf9910474ab9cfc27afa265f803c96a8710eba6b65670e76fbeac42ceeba0629ac0e";

fn signed_market() -> Contract {
    Contract::new(s("owner"), s(SIGNER_KEY), 100, frac(1, 10), frac(1, 2), frac(1, 5), frac(1, 10), 10, vec![]).unwrap()
}

#[test]
fn signature_verification_accepts_and_rejects() {
    let c = signed_market();
    assert!(c.check_signature(&s(SIGNED_MESSAGE), &s(MESSAGE_SIGNATURE)).is_ok());
    let tampered = SIGNED_MESSAGE.replace("alice", "mallory");
    assert!(matches!(c.check_signature(&tampered, &s(MESSAGE_SIGNATURE)), Err(MintError::SignatureCheckFailed)));
    let mut other = MESSAGE_SIGNATURE.to_string();
    other.replace_range(0..2, "02");
    assert!(matches!(c.check_signature(&s(SIGNED_MESSAGE), &other), Err(MintError::SignatureCheckFailed)));
}

#[test]
fn verification_on_decoded_bytes() {
    let pk = decode_public_key(&s(SIGNER_KEY)).unwrap();
    let sig = decode_signature(&s(MESSAGE_SIGNATURE)).unwrap();
    assert!(mint_market::signature::verification(&pk, &s(SIGNED_MESSAGE), &sig));
    assert!(!mint_market::signature::verification(&pk, &s("other"), &sig));
}

#[test]
fn signed_mint_runs_only_with_valid_signature() {
    let mut c = signed_market();
    let req = request("T1", "alice", None, None, NOW);
    let r = c.nft_mint_signed(&s("forged"), &s(MESSAGE_SIGNATURE), &req, &s("alice"), 100, NOW);
    assert!(matches!(r, Err(MintError::SignatureCheckFailed)));
    assert_eq!(c.get_token_owner(&s("T1")), None);
    let r = c.nft_mint_signed(&s(SIGNED_MESSAGE), &s(MESSAGE_SIGNATURE), &req, &s("alice"), 100, NOW);
    assert!(matches!(r, Ok(MintOutcome::Minted)));
    assert_eq!(c.get_token_owner(&s("T1")), Some(s("alice")));
    let r = c.nft_mint_signed(&s(SIGNED_MESSAGE), &s(MESSAGE_SIGNATURE), &req, &s("alice"), 100, NOW + 1);
    assert!(matches!(r, Err(MintError::TimestampNotAfterLastAction)));
}

#[test]
fn collection_lists_archived_generations() {
    let mut c = market();
    let a = s("alice");
    c.store_nft(&s("T1"), 0, &a);
    c.store_nft(&s("T2"), 3, &s("bob"));
    c.store_nft(&s("T1"), 1, &a);
    let items = c.get_user_collection(&a);
    assert_eq!(items.len(), 2);
    assert_eq!(items[0].token_id, "T1");
    assert_eq!(items[0].generation, 0);
    assert_eq!(items[1].generation, 1);
    assert!(c.get_user_collection(&s("carol")).is_empty());
}

#[test]
fn resent_request_is_rejected_after_resale() {
    let mut c = market();
    let req = request("T", "alice", None, None, NOW + 100);
    c.nft_mint(&req, true, &s("alice"), 100, NOW).unwrap();
    c.nft_mint(&request("T", "bob", None, None, NOW + 1), true, &s("bob"), 110, NOW + 1).unwrap();
    let r = c.nft_mint(&req, true, &s("alice"), 1000, NOW + 2);
    assert!(matches!(r, Err(MintError::RequestAlreadyUsed)));
    assert_eq!(c.get_token_owner(&s("T")), Some(s("bob")));
    let r = c.nft_mint(&request("T", "alice", None, None, NOW + 101), true, &s("alice"), 1000, NOW + 2);
    assert!(r.is_ok());
}

#[test]
fn storage_purchase_up_to_maximum() {
    let mut c = Contract::new(s("owner"), key_hex(), 100, frac(1, 10), frac(1, 2), frac(1, 5), frac(1, 10), 8,
        vec![StoragePackage { price: 50, storage_size: 5 }]).unwrap();
    let a = s("alice");
    assert!(c.buy_storage(a.clone(), 60, 0).is_ok());
    assert_eq!(c.internal_get_user_storage(&a), 8);
    assert_eq!(c.internal_get_user_storage(&s("bob")), FREE_STORAGE_SIZE);
    assert!(matches!(c.buy_storage(a.clone(), 60, 0), Err(MintError::IllegalStorageToBuy)));
}
