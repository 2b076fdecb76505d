//! Owner administration, schedule reconfiguration, and the read-only views.

use session_vault::account::{Account, VAccount};
use session_vault::errors::VaultError;
use session_vault::utils::{check_account_id, str_eq_ignore_case, to_nano};
use session_vault::Contract;

const OWNER: &str = "owner.near";
const TOKEN: &str = "token.near";
const VAULT: &str = "vault.near";

fn new_vault() -> Contract {
    Contract::new(OWNER.to_string(), TOKEN.to_string()).unwrap()
}

#[test]
fn new_rejects_ill_formed_identifiers() {
    assert_eq!(
        Contract::new("Bad.Owner".to_string(), TOKEN.to_string()).err(),
        Some(VaultError::InvalidAccountId)
    );
    assert_eq!(
        Contract::new(OWNER.to_string(), "x".to_string()).err(),
        Some(VaultError::InvalidAccountId)
    );
    assert!(Contract::new(OWNER.to_string(), TOKEN.to_string()).is_ok());
}

#[test]
fn account_id_grammar() {
    assert!(check_account_id("ab"));
    assert!(check_account_id("a1-b_c.d2"));
    assert!(check_account_id(&"a".repeat(64)));
    assert!(!check_account_id("a"));
    assert!(!check_account_id(&"a".repeat(65)));
    assert!(!check_account_id("A.near"));
    assert!(!check_account_id(".near"));
    assert!(!check_account_id("near."));
    assert!(!check_account_id("ne..ar"));
    assert!(!check_account_id("ne_-ar"));
    assert!(!check_account_id("né.ar"));
}

#[test]
fn case_insensitive_comparison() {
    assert!(str_eq_ignore_case("Vault.NEAR", "vault.near"));
    assert!(str_eq_ignore_case("", ""));
    assert!(!str_eq_ignore_case("vault.near", "vault.nea"));
    assert!(!str_eq_ignore_case("vault1near", "vault.near"));
}

#[test]
fn to_nano_scales_seconds() {
    assert_eq!(to_nano(0), 0);
    assert_eq!(to_nano(5), 5_000_000_000);
}

#[test]
fn set_owner_is_owner_gated() {
    let mut c = new_vault();
    assert_eq!(
        c.set_owner("mallory.near".to_string(), "mallory.near".to_string()),
        Err(VaultError::NotAuthorized)
    );
    assert_eq!(
        c.set_owner("Bad Id".to_string(), OWNER.to_string()),
        Err(VaultError::InvalidAccountId)
    );
    assert_eq!(c.get_owner(), OWNER.to_string());
    assert_eq!(c.set_owner("new-owner.near".to_string(), OWNER.to_string()), Ok(()));
    assert_eq!(c.get_owner(), "new-owner.near".to_string());
    // the old owner has lost its rights
    assert_eq!(
        c.add_account("x.near".to_string(), 0, 1, 1, 1, OWNER.to_string(), 0),
        Err(VaultError::NotAuthorized)
    );
}

#[test]
fn add_account_validation() {
    let mut c = new_vault();
    assert_eq!(
        c.add_account("Bad".to_string(), 0, 10, 4, 100, OWNER.to_string(), 0),
        Err(VaultError::InvalidAccountId)
    );
    assert_eq!(
        c.add_account("alice.near".to_string(), 0, 10, 4, 100, "alice.near".to_string(), 0),
        Err(VaultError::NotAuthorized)
    );
    assert_eq!(
        c.add_account("alice.near".to_string(), 0, 10, 4, 100, OWNER.to_string(), 0),
        Ok(true)
    );
    let info = c.get_account("alice.near".to_string(), 0).unwrap();
    assert_eq!(info.session_num, 4);
    assert_eq!(info.release_per_session, 100);
    assert_eq!(info.last_claim_session, 0);
    assert_eq!(info.deposited_amount, 0);
}

#[test]
fn reconfiguration_needs_elapsed_and_claimed_schedule() {
    let mut c = new_vault();
    c.add_account("alice.near".to_string(), 0, 10, 4, 100, OWNER.to_string(), 0)
        .unwrap();
    c.ft_on_transfer(
        OWNER.to_string(),
        400,
        "alice.near".to_string(),
        TOKEN.to_string(),
        VAULT.to_string(),
    )
    .unwrap();
    // still in session: the schedule runs until 40 s
    assert_eq!(
        c.add_account("alice.near".to_string(), 50, 10, 2, 5, OWNER.to_string(), to_nano(39)),
        Err(VaultError::AccountInSession)
    );
    assert_eq!(
        c.add_account("alice.near".to_string(), 50, 10, 2, 5, OWNER.to_string(), to_nano(40)),
        Err(VaultError::AccountInSession)
    );
    // elapsed, but the vested value was never claimed out
    assert_eq!(
        c.add_account("alice.near".to_string(), 50, 10, 2, 5, OWNER.to_string(), to_nano(41)),
        Err(VaultError::AccountNeedsClaim)
    );
    let r = c.claim(Some("alice.near".to_string()), OWNER.to_string(), to_nano(41));
    assert!(r.is_ok());
    assert_eq!(c.after_ft_transfer("alice.near".to_string(), 400, true), Ok(true));
    assert_eq!(
        c.add_account("alice.near".to_string(), 50, 10, 2, 5, OWNER.to_string(), to_nano(41)),
        Ok(true)
    );
}

#[test]
fn metadata_reports_the_state() {
    let c = new_vault();
    let meta = c.contract_metadata();
    assert_eq!(meta.version, "1.0.0".to_string());
    assert_eq!(meta.owner_id, OWNER.to_string());
    assert_eq!(meta.token_account_id, TOKEN.to_string());
    assert_eq!(meta.total_balance, 0);
    assert_eq!(meta.claimed_balance, 0);
}

#[test]
fn storage_report_prices_usage() {
    let c = new_vault();
    let report = c.get_contract_storage_report(10, 3);
    assert_eq!(report.storage, 10);
    assert_eq!(report.locking_near, 30);
}

#[test]
fn storage_check_refunds_the_surplus() {
    let c = new_vault();
    // 10 new bytes at 100 a byte, 1500 attached: 500 owed back
    assert_eq!(c.internal_check_storage(90, 100, 100, 1500), Ok(500));
    // shortfall aborts
    assert_eq!(
        c.internal_check_storage(90, 100, 100, 999),
        Err(VaultError::StorageShortfall)
    );
    // released storage costs nothing
    assert_eq!(c.internal_check_storage(100, 90, 100, 7), Ok(7));
}

#[test]
fn listing_pages_through_accounts() {
    let mut c = new_vault();
    for name in ["alice.near", "bob.near", "carol.near"] {
        c.add_account(name.to_string(), 0, 10, 4, 100, OWNER.to_string(), 0)
            .unwrap();
    }
    let all = c.list_accounts(None, None, 0);
    assert_eq!(all.len(), 3);
    assert_eq!(all[0].account_id, "alice.near".to_string());
    assert_eq!(all[2].account_id, "carol.near".to_string());

    let page = c.list_accounts(Some(1), Some(1), 0);
    assert_eq!(page.len(), 1);
    assert_eq!(page[0].account_id, "bob.near".to_string());

    let tail = c.list_accounts(Some(1), Some(10), 0);
    assert_eq!(tail.len(), 2);

    let beyond = c.list_accounts(Some(7), Some(2), 0);
    assert_eq!(beyond.len(), 0);
}

#[test]
fn get_account_distinguishes_missing() {
    let c = new_vault();
    assert!(c.get_account("alice.near".to_string(), 0).is_none());
}

#[test]
fn versioned_account_round_trip() {
    let account = Account {
        account_id: "alice.near".to_string(),
        start_timestamp: 7,
        session_interval: 10,
        session_num: 4,
        last_claim_session: 1,
        release_per_session: 100,
        claimed_amount: 100,
        deposited_amount: 400,
    };
    let wrapped = VAccount::from(account);
    let back = wrapped.into_current();
    assert_eq!(back.account_id, "alice.near".to_string());
    assert_eq!(back.last_claim_session, 1);
}

#[test]
fn unclaimed_amount_floors_and_caps() {
    let account = Account {
        account_id: "alice.near".to_string(),
        start_timestamp: 100,
        session_interval: 10,
        session_num: 4,
        last_claim_session: 0,
        release_per_session: 25,
        claimed_amount: 0,
        deposited_amount: 100,
    };
    // before and at the start nothing has unlocked
    assert_eq!(account.unclaimed_amount(to_nano(50)), 0);
    assert_eq!(account.unclaimed_amount(to_nano(100)), 0);
    // within a session the credit stays at the last whole boundary
    assert_eq!(account.unclaimed_amount(to_nano(119)), 25);
    assert_eq!(account.unclaimed_amount(to_nano(120)), 50);
    // past the end the credit caps at the schedule total
    assert_eq!(account.unclaimed_amount(to_nano(1000)), 100);
    // locking follows deposits minus claims
    assert_eq!(account.locking_amount(), 100);
}
