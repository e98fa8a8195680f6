use launchpad::contract::instantiate;
use launchpad::error::ContractError;
use launchpad::fees::split_fee;
use launchpad::msg::{ExecuteMsg, InstantiateMsg, QueryAnswer, QueryMsg};
use launchpad::phase::Phase;
use launchpad::registry::{LaunchParams, LaunchUpdate};
use launchpad::state::{Coin, Launchpad};
use launchpad::text::u64_to_string;
use sha2::Digest;

fn admin() -> String {
    "creator".to_string()
}

fn init() -> Launchpad {
    let msg = InstantiateMsg {
        taker_fee: 10,
        native_denom: "aconst".to_string(),
        taker_address: "admin".to_string(),
    };
    instantiate(&admin(), msg)
}

fn coin(amount: u128, denom: &str) -> Coin {
    Coin { denom: denom.to_string(), amount }
}

fn base_params(contract: &str, owner: &str) -> LaunchParams {
    LaunchParams {
        owner_address: owner.to_string(),
        contract_address: contract.to_string(),
        max_supply: 5,
        base_uri: "ipfs://base".to_string(),
        is_base_uri_static: false,
        media_extension: None,
        whitelist_price: coin(5, "aconst"),
        whitelist_max_buy: Some(1),
        whitelist_started_at: 100,
        whitelist_ended_at: 200,
        public_price: coin(10, "aconst"),
        public_max_buy: Some(2),
        public_started_at: 150,
        public_ended_at: 300,
        royalty_percentage: Some(5),
        royalty_payment_address: Some("royalties".to_string()),
        whitelist_merkle_root: None,
    }
}

fn leaf_hash(s: &str) -> [u8; 32] {
    let mut out = [0u8; 32];
    out.copy_from_slice(sha2::Sha256::digest(s.as_bytes()).as_slice());
    out
}

#[test]
fn proper_initialization() {
    let pad = init();
    assert_eq!(pad.config.taker_fee, 10);
    assert_eq!(pad.config.native_denom, "aconst");
    assert_eq!(pad.config.taker_address, "admin");
    assert_eq!(pad.config.registry_owner, "creator");
    assert_eq!(pad.launches.len(), 0);
}

#[test]
fn add_launch_and_read_back() {
    let mut pad = init();
    assert!(pad.add_launch(&admin(), base_params("nft1", "owner1")).is_ok());
    let l = pad.get_launch(&"nft1".to_string()).unwrap();
    assert_eq!(l.owner_address, "owner1");
    assert_eq!(l.max_supply, 5);
    assert_eq!(l.last_token_id, 0);
    assert_eq!(l.whitelist_price.amount, 5);
    assert_eq!(l.public_price.amount, 10);
}

#[test]
fn add_launch_conflicts_and_denoms() {
    let mut pad = init();
    assert!(pad.add_launch(&admin(), base_params("nft1", "owner1")).is_ok());
    assert_eq!(
        pad.add_launch(&admin(), base_params("nft1", "owner1")),
        Err(ContractError::LaunchAlreadyExist)
    );
    let mut bad = base_params("nft2", "owner1");
    bad.whitelist_price = coin(5, "earth");
    assert_eq!(pad.add_launch(&admin(), bad), Err(ContractError::DenomNotSupported));
    let mut bad2 = base_params("nft2", "owner1");
    bad2.public_price = coin(10, "earth");
    assert_eq!(pad.add_launch(&admin(), bad2), Err(ContractError::DenomNotSupported));
    assert_eq!(
        pad.add_launch(&"stranger".to_string(), base_params("nft3", "owner1")),
        Err(ContractError::Unauthorized)
    );
}

#[test]
fn mint_unknown_launch_is_not_found() {
    let mut pad = init();
    let r = pad.mint(175, &"alice".to_string(), &coin(10, "aconst"), &"nope".to_string(), None, None);
    assert_eq!(r.unwrap_err(), ContractError::NotFound);
}

#[test]
fn sold_out_after_max_supply() {
    let mut pad = init();
    let mut p = base_params("nft1", "owner1");
    p.max_supply = 1;
    assert!(pad.add_launch(&admin(), p).is_ok());
    // public-only moment: 250 is outside the whitelist window
    let first = pad.mint(250, &"alice".to_string(), &coin(10, "aconst"), &"nft1".to_string(), None, None);
    assert!(first.is_ok());
    assert_eq!(first.unwrap().token_id, "1");
    let second = pad.mint(250, &"bob".to_string(), &coin(10, "aconst"), &"nft1".to_string(), None, None);
    assert_eq!(second.unwrap_err(), ContractError::SoldOut);
}

#[test]
fn whitelist_priority_over_public_window() {
    // whitelist 100..200, public 150..300; at 175 both windows are open
    let mut pad = init();
    let mut p = base_params("nft1", "owner1");
    p.whitelist_merkle_root = Some(hex::encode(leaf_hash("alice")));
    assert!(pad.add_launch(&admin(), p).is_ok());
    // a non-whitelisted address with a bogus proof is rejected as
    // NotWhitelisted, not silently served from the public phase
    let bogus = vec![hex::encode([7u8; 32])];
    let r = pad.mint(
        175,
        &"mallory".to_string(),
        &coin(10, "aconst"),
        &"nft1".to_string(),
        None,
        Some(bogus),
    );
    assert_eq!(r.unwrap_err(), ContractError::NotWhitelisted);
    // a missing proof is no better
    let r2 = pad.mint(175, &"mallory".to_string(), &coin(10, "aconst"), &"nft1".to_string(), None, None);
    assert_eq!(r2.unwrap_err(), ContractError::NotWhitelisted);
    // the committed member with the (empty) genuine path passes
    let r3 = pad.mint(
        175,
        &"alice".to_string(),
        &coin(5, "aconst"),
        &"nft1".to_string(),
        None,
        Some(Vec::new()),
    );
    assert!(r3.is_ok());
}

#[test]
fn fee_split_exact_values() {
    assert_eq!(split_fee(1000, 10), (100, 900));
    assert_eq!(split_fee(0, 10), (0, 0));
    assert_eq!(split_fee(99, 10), (9, 90));
    assert_eq!(split_fee(1000, 0), (0, 1000));
    assert_eq!(split_fee(1000, 100), (1000, 0));
}

#[test]
fn mint_transfers_split_payment() {
    let mut pad = init();
    let mut p = base_params("nft1", "owner1");
    p.public_price = coin(1000, "aconst");
    assert!(pad.add_launch(&admin(), p).is_ok());
    let out = pad
        .mint(250, &"alice".to_string(), &coin(1000, "aconst"), &"nft1".to_string(), None, None)
        .unwrap();
    assert_eq!(out.transfers.len(), 2);
    assert_eq!(out.transfers[0].to_address, "admin");
    assert_eq!(out.transfers[0].amount, 100);
    assert_eq!(out.transfers[0].denom, "aconst");
    assert_eq!(out.transfers[1].to_address, "owner1");
    assert_eq!(out.transfers[1].amount, 900);
    assert_eq!(out.transfers[1].denom, "aconst");
}

#[test]
fn zero_fee_suppresses_taker_transfer() {
    let mut pad = init();
    assert!(pad.change_taker_fee(&admin(), 0).is_ok());
    assert!(pad.add_launch(&admin(), base_params("nft1", "owner1")).is_ok());
    let out = pad
        .mint(250, &"alice".to_string(), &coin(10, "aconst"), &"nft1".to_string(), None, None)
        .unwrap();
    assert_eq!(out.transfers.len(), 1);
    assert_eq!(out.transfers[0].to_address, "owner1");
    assert_eq!(out.transfers[0].amount, 10);
}

#[test]
fn change_taker_fee_is_owner_only() {
    let mut pad = init();
    assert_eq!(
        pad.change_taker_fee(&"stranger".to_string(), 5),
        Err(ContractError::Unauthorized)
    );
    assert!(pad.change_taker_fee(&admin(), 5).is_ok());
    assert_eq!(pad.config.taker_fee, 5);
}

#[test]
fn whitelist_quota_capped_at_one() {
    let mut pad = init();
    assert!(pad.add_launch(&admin(), base_params("nft1", "owner1")).is_ok());
    let addrs = vec!["alice".to_string()];
    assert!(pad.add_whitelist_entries(&admin(), &"nft1".to_string(), &addrs).is_ok());
    let first = pad.mint(175, &"alice".to_string(), &coin(5, "aconst"), &"nft1".to_string(), None, None);
    assert!(first.is_ok());
    let second = pad.mint(175, &"alice".to_string(), &coin(5, "aconst"), &"nft1".to_string(), None, None);
    assert_eq!(second.unwrap_err(), ContractError::MintQuotaExhausted);
}

#[test]
fn public_quota_capped_at_two() {
    let mut pad = init();
    assert!(pad.add_launch(&admin(), base_params("nft1", "owner1")).is_ok());
    let alice = "alice".to_string();
    let pay = coin(10, "aconst");
    let id = "nft1".to_string();
    assert!(pad.mint(250, &alice, &pay, &id, None, None).is_ok());
    assert!(pad.mint(250, &alice, &pay, &id, None, None).is_ok());
    assert_eq!(
        pad.mint(250, &alice, &pay, &id, None, None).unwrap_err(),
        ContractError::MintQuotaExhausted
    );
    // a different receiver has its own counter
    assert!(pad.mint(250, &alice, &pay, &id, Some("bob".to_string()), None).is_ok());
}

#[test]
fn uncapped_phase_is_unlimited() {
    let mut pad = init();
    let mut p = base_params("nft1", "owner1");
    p.public_max_buy = None;
    assert!(pad.add_launch(&admin(), p).is_ok());
    let alice = "alice".to_string();
    let pay = coin(10, "aconst");
    let id = "nft1".to_string();
    for _ in 0..4 {
        assert!(pad.mint(250, &alice, &pay, &id, None, None).is_ok());
    }
}

#[test]
fn closed_outside_both_windows() {
    let mut pad = init();
    assert!(pad.add_launch(&admin(), base_params("nft1", "owner1")).is_ok());
    let pay = coin(10, "aconst");
    let id = "nft1".to_string();
    let alice = "alice".to_string();
    assert_eq!(pad.mint(50, &alice, &pay, &id, None, None).unwrap_err(), ContractError::Closed);
    assert_eq!(pad.mint(350, &alice, &pay, &id, None, None).unwrap_err(), ContractError::Closed);
    // window boundaries are exclusive
    assert_eq!(pad.mint(100, &alice, &pay, &id, None, None).unwrap_err(), ContractError::Closed);
    assert_eq!(pad.mint(300, &alice, &pay, &id, None, None).unwrap_err(), ContractError::Closed);
}

#[test]
fn insufficient_funds_and_wrong_denom() {
    let mut pad = init();
    assert!(pad.add_launch(&admin(), base_params("nft1", "owner1")).is_ok());
    let id = "nft1".to_string();
    let alice = "alice".to_string();
    assert_eq!(
        pad.mint(250, &alice, &coin(9, "aconst"), &id, None, None).unwrap_err(),
        ContractError::InsufficientFunds
    );
    // a payment in another denomination counts as nothing
    assert_eq!(
        pad.mint(250, &alice, &coin(100, "earth"), &id, None, None).unwrap_err(),
        ContractError::InsufficientFunds
    );
    // overpayment is accepted, and the split applies to the paid amount
    let out = pad.mint(250, &alice, &coin(20, "aconst"), &id, None, None).unwrap();
    assert_eq!(out.transfers[0].amount, 2);
    assert_eq!(out.transfers[1].amount, 18);
}

#[test]
fn token_uri_templating() {
    let mut pad = init();
    assert!(pad.add_launch(&admin(), base_params("nft1", "owner1")).is_ok());
    let out = pad
        .mint(250, &"alice".to_string(), &coin(10, "aconst"), &"nft1".to_string(), None, None)
        .unwrap();
    assert_eq!(out.token_id, "1");
    assert_eq!(out.token_uri, "ipfs://base/1.png");
    assert_eq!(out.receiver, "alice");
    assert_eq!(out.royalty_percentage, Some(5));
    assert_eq!(out.royalty_payment_address.as_deref(), Some("royalties"));
}

#[test]
fn token_uri_custom_extension_and_static() {
    let mut pad = init();
    let mut p = base_params("nft1", "owner1");
    p.media_extension = Some("jpg".to_string());
    assert!(pad.add_launch(&admin(), p).is_ok());
    let out = pad
        .mint(250, &"alice".to_string(), &coin(10, "aconst"), &"nft1".to_string(), None, None)
        .unwrap();
    assert_eq!(out.token_uri, "ipfs://base/1.jpg");

    let mut q = base_params("nft2", "owner1");
    q.is_base_uri_static = true;
    assert!(pad.add_launch(&admin(), q).is_ok());
    let out2 = pad
        .mint(250, &"alice".to_string(), &coin(10, "aconst"), &"nft2".to_string(), None, None)
        .unwrap();
    assert_eq!(out2.token_uri, "ipfs://base");
}

#[test]
fn token_ids_count_up() {
    let mut pad = init();
    let mut p = base_params("nft1", "owner1");
    p.public_max_buy = None;
    assert!(pad.add_launch(&admin(), p).is_ok());
    let alice = "alice".to_string();
    let pay = coin(10, "aconst");
    let id = "nft1".to_string();
    for expected in 1..4u64 {
        let out = pad.mint(250, &alice, &pay, &id, None, None).unwrap();
        assert_eq!(out.token_id, expected.to_string());
    }
    let l = pad.get_launch(&id).unwrap();
    assert_eq!(l.last_token_id, 3);
}

#[test]
fn decimal_rendering() {
    assert_eq!(u64_to_string(0), "0");
    assert_eq!(u64_to_string(7), "7");
    assert_eq!(u64_to_string(10), "10");
    assert_eq!(u64_to_string(12345), "12345");
    assert_eq!(u64_to_string(u64::MAX), "18446744073709551615");
}

#[test]
fn modify_launch_merges_fields() {
    let mut pad = init();
    assert!(pad.add_launch(&admin(), base_params("nft1", "owner1")).is_ok());
    let update = LaunchUpdate {
        contract_address: "nft1".to_string(),
        max_supply: Some(50),
        base_uri: None,
        is_base_uri_static: None,
        media_extension: None,
        whitelist_price: None,
        whitelist_max_buy: None,
        whitelist_started_at: None,
        whitelist_ended_at: None,
        public_price: Some(coin(99, "aconst")),
        public_max_buy: None,
        public_started_at: None,
        public_ended_at: None,
        whitelist_merkle_root: None,
    };
    // the launch's own owner may modify it
    assert!(pad.modify_launch(&"owner1".to_string(), update).is_ok());
    let l = pad.get_launch(&"nft1".to_string()).unwrap();
    assert_eq!(l.max_supply, 50);
    assert_eq!(l.public_price.amount, 99);
    assert_eq!(l.base_uri, "ipfs://base");
    assert_eq!(l.whitelist_price.amount, 5);
    assert_eq!(l.owner_address, "owner1");
}

#[test]
fn modify_launch_refusals() {
    let mut pad = init();
    assert!(pad.add_launch(&admin(), base_params("nft1", "owner1")).is_ok());
    let blank = LaunchUpdate {
        contract_address: "nft1".to_string(),
        max_supply: None,
        base_uri: None,
        is_base_uri_static: None,
        media_extension: None,
        whitelist_price: None,
        whitelist_max_buy: None,
        whitelist_started_at: None,
        whitelist_ended_at: None,
        public_price: None,
        public_max_buy: None,
        public_started_at: None,
        public_ended_at: None,
        whitelist_merkle_root: None,
    };
    let mut missing = blank_clone(&blank);
    missing.contract_address = "nope".to_string();
    assert_eq!(pad.modify_launch(&admin(), missing), Err(ContractError::NotFound));
    assert_eq!(
        pad.modify_launch(&"stranger".to_string(), blank_clone(&blank)),
        Err(ContractError::Unauthorized)
    );
    let mut bad_denom = blank_clone(&blank);
    bad_denom.whitelist_price = Some(coin(5, "earth"));
    assert_eq!(pad.modify_launch(&admin(), bad_denom), Err(ContractError::DenomNotSupported));
}

fn blank_clone(u: &LaunchUpdate) -> LaunchUpdate {
    LaunchUpdate {
        contract_address: u.contract_address.clone(),
        max_supply: u.max_supply,
        base_uri: u.base_uri.clone(),
        is_base_uri_static: u.is_base_uri_static,
        media_extension: u.media_extension.clone(),
        whitelist_price: u.whitelist_price.as_ref().map(|c| Coin {
            denom: c.denom.clone(),
            amount: c.amount,
        }),
        whitelist_max_buy: u.whitelist_max_buy,
        whitelist_started_at: u.whitelist_started_at,
        whitelist_ended_at: u.whitelist_ended_at,
        public_price: u.public_price.as_ref().map(|c| Coin {
            denom: c.denom.clone(),
            amount: c.amount,
        }),
        public_max_buy: u.public_max_buy,
        public_started_at: u.public_started_at,
        public_ended_at: u.public_ended_at,
        whitelist_merkle_root: u.whitelist_merkle_root.clone(),
    }
}

#[test]
fn remove_launch_then_not_found() {
    let mut pad = init();
    assert!(pad.add_launch(&admin(), base_params("nft1", "owner1")).is_ok());
    assert_eq!(
        pad.remove_launch(&"owner1".to_string(), &"nft1".to_string()),
        Err(ContractError::Unauthorized)
    );
    assert!(pad.remove_launch(&admin(), &"nft1".to_string()).is_ok());
    assert!(pad.get_launch(&"nft1".to_string()).is_err());
    // removing an absent launch is not an error
    assert!(pad.remove_launch(&admin(), &"nft1".to_string()).is_ok());
}

#[test]
fn launch_status_strings() {
    let mut pad = init();
    assert!(pad.add_launch(&admin(), base_params("nft1", "owner1")).is_ok());
    let id = "nft1".to_string();
    assert_eq!(pad.get_launch_status(175, &id).unwrap().status, "whitelist");
    assert_eq!(pad.get_launch_status(250, &id).unwrap().status, "public");
    assert_eq!(pad.get_launch_status(50, &id).unwrap().status, "closed");
    assert_eq!(pad.get_launch_status(100, &id).unwrap().status, "closed");
    assert_eq!(pad.get_launch_status(200, &id).unwrap().status, "public");
    assert!(pad.get_launch_status(175, &"nope".to_string()).is_err());
}

#[test]
fn whitelist_entries_add_and_remove() {
    let mut pad = init();
    assert!(pad.add_launch(&admin(), base_params("nft1", "owner1")).is_ok());
    let id = "nft1".to_string();
    let empty_proof: Vec<String> = Vec::new();
    let alice = "alice".to_string();
    assert!(!pad.get_whitelist_status(&id, &alice, &empty_proof).unwrap().is_whitelist);
    let addrs = vec!["alice".to_string(), "bob".to_string(), "alice".to_string()];
    assert!(pad.add_whitelist_entries(&admin(), &id, &addrs).is_ok());
    assert!(pad.get_whitelist_status(&id, &alice, &empty_proof).unwrap().is_whitelist);
    assert!(pad.get_whitelist_status(&id, &"bob".to_string(), &empty_proof).unwrap().is_whitelist);
    assert!(!pad.get_whitelist_status(&id, &"carol".to_string(), &empty_proof).unwrap().is_whitelist);
    let gone = vec!["alice".to_string()];
    assert!(pad.remove_whitelist_entries(&"owner1".to_string(), &id, &gone).is_ok());
    assert!(!pad.get_whitelist_status(&id, &alice, &empty_proof).unwrap().is_whitelist);
    assert!(pad.get_whitelist_status(&id, &"bob".to_string(), &empty_proof).unwrap().is_whitelist);
    assert_eq!(
        pad.add_whitelist_entries(&"stranger".to_string(), &id, &gone),
        Err(ContractError::Unauthorized)
    );
}

#[test]
fn execute_and_query_dispatch() {
    let mut pad = init();
    let no_pay = coin(0, "aconst");
    let r = pad.execute(
        0,
        &admin(),
        &no_pay,
        ExecuteMsg::AddLaunch(base_params("nft1", "owner1")),
    );
    assert!(matches!(r, Ok(None)));
    let minted = pad.execute(
        250,
        &"alice".to_string(),
        &coin(10, "aconst"),
        ExecuteMsg::Mint {
            contract_address: "nft1".to_string(),
            receiver_address: None,
            proof: None,
        },
    );
    let out = minted.unwrap().unwrap();
    assert_eq!(out.token_id, "1");
    match pad.query(250, QueryMsg::GetLaunchStatus { contract_address: "nft1".to_string() }) {
        Ok(QueryAnswer::LaunchStatus(st)) => assert_eq!(st.status, "public"),
        other => panic!("unexpected answer: {:?}", other.is_ok()),
    }
    match pad.query(0, QueryMsg::GetLaunch { contract_address: "nft1".to_string() }) {
        Ok(QueryAnswer::Launch(l)) => assert_eq!(l.last_token_id, 1),
        other => panic!("unexpected answer: {:?}", other.is_ok()),
    }
}

#[test]
fn mint_requires_membership_before_funds() {
    // in the whitelist phase, membership is checked before the payment:
    // a non-member with no funds still sees NotWhitelisted
    let mut pad = init();
    assert!(pad.add_launch(&admin(), base_params("nft1", "owner1")).is_ok());
    let r = pad.mint(
        175,
        &"mallory".to_string(),
        &coin(0, "aconst"),
        &"nft1".to_string(),
        None,
        None,
    );
    assert_eq!(r.unwrap_err(), ContractError::NotWhitelisted);
}

#[test]
fn quota_counters_record_receivers() {
    let mut pad = init();
    assert!(pad.add_launch(&admin(), base_params("nft1", "owner1")).is_ok());
    let alice = "alice".to_string();
    let id = "nft1".to_string();
    assert_eq!(pad.quotas.count_of(&id, Phase::Public, &alice), 0);
    assert!(pad.mint(250, &alice, &coin(10, "aconst"), &id, None, None).is_ok());
    assert_eq!(pad.quotas.count_of(&id, Phase::Public, &alice), 1);
    assert_eq!(pad.quotas.count_of(&id, Phase::Whitelist, &alice), 0);
}

#[test]
fn shrinking_max_supply_below_issued_stops_minting() {
    let mut pad = init();
    let mut p = base_params("nft1", "owner1");
    p.public_max_buy = None;
    assert!(pad.add_launch(&admin(), p).is_ok());
    let alice = "alice".to_string();
    let pay = coin(10, "aconst");
    let id = "nft1".to_string();
    assert!(pad.mint(250, &alice, &pay, &id, None, None).is_ok());
    assert!(pad.mint(250, &alice, &pay, &id, None, None).is_ok());
    let update = LaunchUpdate {
        contract_address: id.clone(),
        max_supply: Some(1),
        base_uri: None,
        is_base_uri_static: None,
        media_extension: None,
        whitelist_price: None,
        whitelist_max_buy: None,
        whitelist_started_at: None,
        whitelist_ended_at: None,
        public_price: None,
        public_max_buy: None,
        public_started_at: None,
        public_ended_at: None,
        whitelist_merkle_root: None,
    };
    assert!(pad.modify_launch(&admin(), update).is_ok());
    // the issued count stays at 2; with the cap now below it, minting is over
    assert_eq!(pad.get_launch(&id).unwrap().last_token_id, 2);
    assert_eq!(pad.mint(250, &alice, &pay, &id, None, None).unwrap_err(), ContractError::SoldOut);
}

#[test]
fn mint_after_remove_is_not_found() {
    let mut pad = init();
    assert!(pad.add_launch(&admin(), base_params("nft1", "owner1")).is_ok());
    assert!(pad.remove_launch(&admin(), &"nft1".to_string()).is_ok());
    let r = pad.mint(250, &"alice".to_string(), &coin(10, "aconst"), &"nft1".to_string(), None, None);
    assert_eq!(r.unwrap_err(), ContractError::NotFound);
}
