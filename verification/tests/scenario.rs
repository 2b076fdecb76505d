//! End-to-end claim scenarios against the vault.

use session_vault::account::ClaimOutcome;
use session_vault::errors::VaultError;
use session_vault::utils::to_nano;
use session_vault::Contract;

const OWNER: &str = "owner.near";
const TOKEN: &str = "token.near";
const VAULT: &str = "vault.near";

fn new_vault() -> Contract {
    Contract::new(OWNER.to_string(), TOKEN.to_string()).unwrap()
}

fn fund(c: &mut Contract, target: &str, amount: u128) -> Result<u128, VaultError> {
    c.ft_on_transfer(
        OWNER.to_string(),
        amount,
        target.to_string(),
        TOKEN.to_string(),
        VAULT.to_string(),
    )
}

#[test]
fn four_session_schedule_lifecycle() {
    let mut c = new_vault();
    // schedule: start = T + 10 s, interval = 10 s, 4 rounds of 100
    let t: u64 = 100;
    let r = c.add_account(
        "alice.near".to_string(),
        t + 10,
        10,
        4,
        100,
        OWNER.to_string(),
        to_nano(t),
    );
    assert_eq!(r, Ok(true));
    assert_eq!(fund(&mut c, "alice.near", 400), Ok(0));

    // at T + 10 s the schedule has only just started: nothing unlocked
    let info = c.get_account("alice.near".to_string(), to_nano(t + 10)).unwrap();
    assert_eq!(info.unclaimed_amount, 0);
    let r = c.claim(Some("alice.near".to_string()), OWNER.to_string(), to_nano(t + 10));
    assert_eq!(r, Ok(ClaimOutcome::NothingDue));

    // at T + 20 s one session has completed
    let info = c.get_account("alice.near".to_string(), to_nano(t + 20)).unwrap();
    assert_eq!(info.unclaimed_amount, 100);
    let r = c.claim(Some("alice.near".to_string()), OWNER.to_string(), to_nano(t + 20));
    assert_eq!(r, Ok(ClaimOutcome::Transfer(100)));
    assert_eq!(
        c.after_ft_transfer("alice.near".to_string(), 100, true),
        Ok(true)
    );
    let info = c.get_account("alice.near".to_string(), to_nano(t + 20)).unwrap();
    assert_eq!(info.claimed_amount, 100);
    assert_eq!(info.last_claim_session, 1);

    // at T + 35 s only session 2 has completed: no partial-session credit
    let info = c.get_account("alice.near".to_string(), to_nano(t + 35)).unwrap();
    assert_eq!(info.unclaimed_amount, 100);

    // at T + 50 s the whole schedule has elapsed; claim the three sessions
    let info = c.get_account("alice.near".to_string(), to_nano(t + 50)).unwrap();
    assert_eq!(info.unclaimed_amount, 300);
    let r = c.claim(Some("alice.near".to_string()), OWNER.to_string(), to_nano(t + 50));
    assert_eq!(r, Ok(ClaimOutcome::Transfer(300)));
    assert_eq!(
        c.after_ft_transfer("alice.near".to_string(), 300, true),
        Ok(true)
    );
    let info = c.get_account("alice.near".to_string(), to_nano(t + 50)).unwrap();
    assert_eq!(info.claimed_amount, 400);
    assert_eq!(info.last_claim_session, 4);

    // a further claim is a terminal no-op, reported as "already complete"
    let r = c.claim(Some("alice.near".to_string()), OWNER.to_string(), to_nano(t + 60));
    assert_eq!(r, Ok(ClaimOutcome::AlreadyComplete));

    // conservation of the global counters
    let meta = c.contract_metadata();
    assert_eq!(meta.total_balance, 400);
    assert_eq!(meta.claimed_balance, 400);
}

#[test]
fn claimed_balance_mirrors_account_claims() {
    let mut c = new_vault();
    c.add_account("alice.near".to_string(), 0, 10, 4, 100, OWNER.to_string(), 0)
        .unwrap();
    c.add_account("bob.near".to_string(), 0, 5, 2, 30, OWNER.to_string(), 0)
        .unwrap();
    assert_eq!(fund(&mut c, "alice.near", 400), Ok(0));
    assert_eq!(fund(&mut c, "bob.near", 60), Ok(0));
    let now = to_nano(10);
    assert_eq!(
        c.claim(Some("alice.near".to_string()), OWNER.to_string(), now),
        Ok(ClaimOutcome::Transfer(100))
    );
    assert_eq!(
        c.claim(Some("bob.near".to_string()), OWNER.to_string(), now),
        Ok(ClaimOutcome::Transfer(60))
    );
    assert_eq!(c.after_ft_transfer("alice.near".to_string(), 100, true), Ok(true));
    assert_eq!(c.after_ft_transfer("bob.near".to_string(), 60, true), Ok(true));
    let sum: u128 = c
        .list_accounts(None, None, now)
        .iter()
        .map(|info| info.claimed_amount)
        .sum();
    let meta = c.contract_metadata();
    assert_eq!(meta.claimed_balance, sum);
    assert_eq!(meta.claimed_balance, 160);
    assert!(meta.claimed_balance <= meta.total_balance);
    // no account ever claims beyond its deposits
    for info in c.list_accounts(None, None, now) {
        assert!(info.claimed_amount <= info.deposited_amount);
    }
}

#[test]
fn claim_defaults_to_caller() {
    let mut c = new_vault();
    c.add_account("bob.near".to_string(), 0, 10, 2, 50, OWNER.to_string(), 0)
        .unwrap();
    assert_eq!(fund(&mut c, "bob.near", 100), Ok(0));
    // no account id given: the caller's own record is claimed
    let r = c.claim(None, "bob.near".to_string(), to_nano(10));
    assert_eq!(r, Ok(ClaimOutcome::Transfer(50)));
}

#[test]
fn claim_unknown_account_fails() {
    let mut c = new_vault();
    let r = c.claim(Some("ghost.near".to_string()), OWNER.to_string(), 0);
    assert_eq!(r, Err(VaultError::AccountNotFound));
}

#[test]
fn claim_without_funding_is_rejected() {
    let mut c = new_vault();
    c.add_account("carol.near".to_string(), 0, 10, 2, 50, OWNER.to_string(), 0)
        .unwrap();
    // one session has vested but nothing was ever deposited
    let r = c.claim(Some("carol.near".to_string()), OWNER.to_string(), to_nano(10));
    assert_eq!(r, Err(VaultError::InsufficientLiquidity));
}

#[test]
fn claim_twice_without_time_is_a_noop() {
    let mut c = new_vault();
    c.add_account("dave.near".to_string(), 0, 10, 4, 25, OWNER.to_string(), 0)
        .unwrap();
    assert_eq!(fund(&mut c, "dave.near", 100), Ok(0));
    let now = to_nano(25);
    let r = c.claim(Some("dave.near".to_string()), OWNER.to_string(), now);
    assert_eq!(r, Ok(ClaimOutcome::Transfer(50)));
    let snapshot = c.get_account("dave.near".to_string(), now).unwrap();
    // the second claim at the same instant changes nothing
    let r = c.claim(Some("dave.near".to_string()), OWNER.to_string(), now);
    assert_eq!(r, Ok(ClaimOutcome::NothingDue));
    let again = c.get_account("dave.near".to_string(), now).unwrap();
    assert_eq!(again.claimed_amount, snapshot.claimed_amount);
    assert_eq!(again.last_claim_session, snapshot.last_claim_session);
    assert_eq!(again.unclaimed_amount, 0);
}

#[test]
fn failed_transfer_rolls_back_exactly() {
    let mut c = new_vault();
    c.add_account("erin.near".to_string(), 0, 10, 4, 100, OWNER.to_string(), 0)
        .unwrap();
    assert_eq!(fund(&mut c, "erin.near", 400), Ok(0));
    let now = to_nano(20);
    let before = c.get_account("erin.near".to_string(), now).unwrap();
    let before_meta = c.contract_metadata();

    let r = c.claim(Some("erin.near".to_string()), OWNER.to_string(), now);
    assert_eq!(r, Ok(ClaimOutcome::Transfer(200)));
    // the optimistic commit is visible while the transfer is in flight
    let mid = c.get_account("erin.near".to_string(), now).unwrap();
    assert_eq!(mid.claimed_amount, 200);
    assert_eq!(mid.last_claim_session, 2);

    // the transfer fails: the callback reverses exactly what was committed
    assert_eq!(
        c.after_ft_transfer("erin.near".to_string(), 200, false),
        Ok(false)
    );
    let after = c.get_account("erin.near".to_string(), now).unwrap();
    assert_eq!(after.claimed_amount, before.claimed_amount);
    assert_eq!(after.last_claim_session, before.last_claim_session);
    assert_eq!(after.deposited_amount, before.deposited_amount);
    assert_eq!(after.unclaimed_amount, before.unclaimed_amount);
    let after_meta = c.contract_metadata();
    assert_eq!(after_meta.claimed_balance, before_meta.claimed_balance);
    assert_eq!(after_meta.total_balance, before_meta.total_balance);

    // the beneficiary can simply claim again later
    let r = c.claim(Some("erin.near".to_string()), OWNER.to_string(), now);
    assert_eq!(r, Ok(ClaimOutcome::Transfer(200)));
}

#[test]
fn callback_on_success_leaves_commit_standing() {
    let mut c = new_vault();
    c.add_account("frank.near".to_string(), 0, 5, 2, 10, OWNER.to_string(), 0)
        .unwrap();
    assert_eq!(fund(&mut c, "frank.near", 20), Ok(0));
    let now = to_nano(5);
    assert_eq!(
        c.claim(Some("frank.near".to_string()), OWNER.to_string(), now),
        Ok(ClaimOutcome::Transfer(10))
    );
    assert_eq!(
        c.after_ft_transfer("frank.near".to_string(), 10, true),
        Ok(true)
    );
    let info = c.get_account("frank.near".to_string(), now).unwrap();
    assert_eq!(info.claimed_amount, 10);
    assert_eq!(info.last_claim_session, 1);
    assert_eq!(c.contract_metadata().claimed_balance, 10);
}
