//! Funding-path validation and exactness.

use session_vault::errors::VaultError;
use session_vault::account::ClaimOutcome;
use session_vault::utils::to_nano;
use session_vault::Contract;

const OWNER: &str = "owner.near";
const TOKEN: &str = "token.near";
const VAULT: &str = "vault.near";

fn vault_with_account() -> Contract {
    let mut c = Contract::new(OWNER.to_string(), TOKEN.to_string()).unwrap();
    c.add_account("alice.near".to_string(), 0, 10, 4, 100, OWNER.to_string(), 0)
        .unwrap();
    c
}

fn deposit(c: &mut Contract, amount: u128, msg: &str) -> Result<u128, VaultError> {
    c.ft_on_transfer(
        OWNER.to_string(),
        amount,
        msg.to_string(),
        TOKEN.to_string(),
        VAULT.to_string(),
    )
}

#[test]
fn deposit_from_wrong_token_is_rejected() {
    let mut c = vault_with_account();
    let r = c.ft_on_transfer(
        OWNER.to_string(),
        400,
        "alice.near".to_string(),
        "other-token.near".to_string(),
        VAULT.to_string(),
    );
    assert_eq!(r, Err(VaultError::WrongToken));
}

#[test]
fn deposit_without_target_is_rejected() {
    let mut c = vault_with_account();
    assert_eq!(deposit(&mut c, 400, ""), Err(VaultError::MissingTargetAccount));
}

#[test]
fn deposit_to_the_vault_itself_is_rejected() {
    let mut c = vault_with_account();
    assert_eq!(deposit(&mut c, 400, "vault.near"), Err(VaultError::InvalidTargetAccount));
    // the self check is ASCII-case-insensitive
    assert_eq!(deposit(&mut c, 400, "VAULT.Near"), Err(VaultError::InvalidTargetAccount));
}

#[test]
fn deposit_to_ill_formed_target_is_rejected() {
    let mut c = vault_with_account();
    for bad in ["Alice.near", "a", "-alice", "alice-", "al..ice", "al ice", "al@ice"] {
        assert_eq!(deposit(&mut c, 400, bad), Err(VaultError::InvalidTargetAccount), "{bad}");
    }
    let too_long = "a".repeat(65);
    assert_eq!(deposit(&mut c, 400, &too_long), Err(VaultError::InvalidTargetAccount));
}

#[test]
fn deposit_to_unknown_account_is_rejected() {
    let mut c = vault_with_account();
    assert_eq!(deposit(&mut c, 400, "bob.near"), Err(VaultError::AccountNotFound));
}

#[test]
fn deposit_must_match_entitlement_exactly() {
    let mut c = vault_with_account();
    assert_eq!(deposit(&mut c, 110, "alice.near"), Err(VaultError::AmountMismatch));
    assert_eq!(deposit(&mut c, 399, "alice.near"), Err(VaultError::AmountMismatch));
    assert_eq!(deposit(&mut c, 401, "alice.near"), Err(VaultError::AmountMismatch));
    assert_eq!(deposit(&mut c, 400, "alice.near"), Ok(0));
    assert_eq!(c.contract_metadata().total_balance, 400);
}

#[test]
fn deposit_succeeds_once_per_schedule() {
    let mut c = vault_with_account();
    assert_eq!(deposit(&mut c, 400, "alice.near"), Ok(0));
    // the exact amount again: still rejected while value is locked
    assert_eq!(deposit(&mut c, 400, "alice.near"), Err(VaultError::AlreadyFunded));
    // even after a full claim-out the finished schedule takes no new deposit
    let done = to_nano(40);
    assert_eq!(
        c.claim(Some("alice.near".to_string()), OWNER.to_string(), done),
        Ok(ClaimOutcome::Transfer(400))
    );
    assert_eq!(c.after_ft_transfer("alice.near".to_string(), 400, true), Ok(true));
    assert_eq!(deposit(&mut c, 400, "alice.near"), Err(VaultError::AlreadyFunded));
    // a new schedule on the claimed-out account accepts funding again
    assert_eq!(
        c.add_account("alice.near".to_string(), 100, 10, 2, 5, OWNER.to_string(), to_nano(41)),
        Ok(true)
    );
    assert_eq!(deposit(&mut c, 10, "alice.near"), Ok(0));
    let info = c.get_account("alice.near".to_string(), to_nano(41)).unwrap();
    // cumulative counters survive the reset by design
    assert_eq!(info.deposited_amount, 410);
    assert_eq!(info.claimed_amount, 400);
    assert_eq!(info.last_claim_session, 0);
}

#[test]
fn direct_deposit_bookkeeping() {
    let mut c = vault_with_account();
    let id = "alice.near".to_string();
    assert_eq!(c.internal_deposit_to_account(&id, 100), Err(VaultError::AmountMismatch));
    assert_eq!(c.internal_deposit_to_account(&id, 400), Ok(()));
    assert_eq!(c.internal_deposit_to_account(&id, 400), Err(VaultError::AlreadyFunded));
}
