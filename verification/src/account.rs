//! Per-beneficiary vesting records and the schedule arithmetic.

use vstd::prelude::*;
use vstd::arithmetic::div_mod::{lemma_div_by_multiple, lemma_div_is_ordered};
use vstd::arithmetic::mul::{
    lemma_mul_basics, lemma_mul_inequality, lemma_mul_is_commutative,
    lemma_mul_is_distributive_add_other_way, lemma_mul_nonnegative, lemma_mul_strictly_positive,
};
use crate::errors::VaultError;
use crate::utils::{
    check_account_id, eq_ignore_case, spec_to_nano, str_eq_ignore_case, to_nano, valid_account_id,
};
use crate::{
    find_account, find_index, lemma_account_le_sum, lemma_find_account_props, lemma_sum_push,
    lemma_sums_bound, lemma_wf_after_update, Contract, StateV, NANO,
};

verus! {

/// What a `claim` call decided.
#[derive(Clone, Copy, Debug, PartialEq, Eq, Structural)]
pub enum ClaimOutcome {
    /// Every session of the schedule was already claimed; a terminal,
    /// idempotent state, reported as `false` by the original entry point.
    AlreadyComplete,
    /// Nothing has vested beyond what was claimed; valid and harmless,
    /// reported as `true`.
    NothingDue,
    /// Bookkeeping was advanced by this amount and a transfer of it to the
    /// beneficiary is now owed.
    Transfer(u128),
}

/// One beneficiary's vesting record.
pub struct Account {
    pub account_id: String,
    /// Schedule start time, in seconds.
    pub start_timestamp: u64,
    /// How long one release session lasts, in seconds; always positive.
    pub session_interval: u64,
    /// Total number of release sessions in the schedule.
    pub session_num: u32,
    /// How many sessions have been credited as claimed, from 0 up to `session_num`.
    pub last_claim_session: u32,
    /// Amount unlocked by each completed session.
    pub release_per_session: u128,
    /// Cumulative amount paid out since the record was created.
    pub claimed_amount: u128,
    /// Cumulative amount funded into the record since it was created.
    pub deposited_amount: u128,
}

/// Versioned wrapper around [`Account`]: the seam for future layout upgrades.
pub enum VAccount {
    Current(Account),
}

/// The mathematical shadow of an [`Account`].
#[verifier::ext_equal]
pub struct AccountV {
    pub account_id: Seq<char>,
    pub start_timestamp: int,
    pub session_interval: int,
    pub session_num: int,
    pub last_claim_session: int,
    pub release_per_session: int,
    pub claimed_amount: int,
    pub deposited_amount: int,
}

impl View for Account {
    type V = AccountV;

    open spec fn view(&self) -> AccountV {
        AccountV {
            account_id: self.account_id@,
            start_timestamp: self.start_timestamp as int,
            session_interval: self.session_interval as int,
            session_num: self.session_num as int,
            last_claim_session: self.last_claim_session as int,
            release_per_session: self.release_per_session as int,
            claimed_amount: self.claimed_amount as int,
            deposited_amount: self.deposited_amount as int,
        }
    }
}

impl View for VAccount {
    type V = AccountV;

    open spec fn view(&self) -> AccountV {
        match self {
            VAccount::Current(account) => account@,
        }
    }
}

impl AccountV {
    /// The record's invariant: schedule fields small enough for the host's
    /// clock and balance arithmetic, claims within the schedule, and never
    /// more claimed than was deposited.
    pub open spec fn wf(self) -> bool {
        &&& 1 <= self.session_interval
        &&& 0 <= self.start_timestamp
        &&& 0 <= self.session_num <= u32::MAX
        &&& 0 <= self.last_claim_session <= self.session_num
        &&& 0 <= self.release_per_session <= u128::MAX
        &&& 0 <= self.claimed_amount <= self.deposited_amount <= u128::MAX
        &&& self.session_num * self.release_per_session <= u128::MAX
        &&& spec_to_nano(self.schedule_end()) <= u64::MAX
    }

    /// When the last session of the schedule completes, in seconds.
    pub open spec fn schedule_end(self) -> int {
        self.start_timestamp + self.session_num * self.session_interval
    }

    /// Whole sessions elapsed since the schedule start, at time `now`
    /// (nanoseconds); sessions complete only at whole-interval boundaries.
    pub open spec fn elapsed_sessions(self, now: int) -> int {
        if now > spec_to_nano(self.start_timestamp) {
            (now - spec_to_nano(self.start_timestamp)) / spec_to_nano(self.session_interval)
        } else {
            0
        }
    }

    /// Sessions whose value has unlocked at time `now`: elapsed sessions,
    /// capped at the schedule's total.
    pub open spec fn effective_sessions(self, now: int) -> int {
        if self.elapsed_sessions(now) >= self.session_num {
            self.session_num
        } else {
            self.elapsed_sessions(now)
        }
    }

    /// Value unlocked but not yet credited as claimed, at time `now`.
    pub open spec fn unclaimed(self, now: int) -> int {
        if self.last_claim_session >= self.session_num {
            0
        } else {
            (self.effective_sessions(now) - self.last_claim_session) * self.release_per_session
        }
    }

    /// Claims never ran ahead of the clock: what a monotonic host clock
    /// guarantees of every stored record at the current time `now`.
    pub open spec fn time_ok(self, now: int) -> bool {
        self.last_claim_session >= self.session_num
            || self.last_claim_session <= self.effective_sessions(now)
    }

    /// Amount still subject to vesting or not yet claimed.
    pub open spec fn locking(self) -> int {
        self.deposited_amount - self.claimed_amount
    }
}

impl VAccount {
    /// Upgrades from other versions to the currently used version.
    pub fn into_current(self) -> (account: Account)
        ensures
            self == VAccount::Current(account),
    {
        match self {
            VAccount::Current(account) => account,
        }
    }
}

impl From<Account> for VAccount {
    fn from(account: Account) -> (v: VAccount) {
        VAccount::Current(account)
    }
}

impl vstd::std_specs::convert::FromSpecImpl<Account> for VAccount {
    open spec fn obeys_from_spec() -> bool {
        true
    }

    open spec fn from_spec(account: Account) -> VAccount {
        VAccount::Current(account)
    }
}

impl Account {
    /// Value unlocked but not yet credited as claimed, at time `cur_ts`
    /// (nanoseconds since the epoch, the host clock's unit).
    pub fn unclaimed_amount(&self, cur_ts: u64) -> (r: u128)
        requires
            self@.wf(),
            self@.time_ok(cur_ts as int),
        ensures
            r == self@.unclaimed(cur_ts as int),
    {
        if self.last_claim_session >= self.session_num {
            return 0;
        }
        proof {
            // The schedule has at least one session here, so both the start
            // and one interval fit the host clock when scaled to nanoseconds.
            lemma_mul_nonnegative(self@.session_num, self@.session_interval);
            lemma_mul_inequality(1, self@.session_num, self@.session_interval);
            lemma_mul_inequality(
                self@.start_timestamp,
                self@.schedule_end(),
                NANO as int,
            );
            lemma_mul_inequality(
                self@.session_interval,
                self@.schedule_end(),
                NANO as int,
            );
            lemma_mul_strictly_positive(self@.session_interval, NANO as int);
        }
        let start_nano: u64 = self.start_timestamp * NANO;
        let interval_nano: u64 = self.session_interval * NANO;
        let cur_session: u64 = if cur_ts > start_nano {
            (cur_ts - start_nano) / interval_nano
        } else {
            0
        };
        let times: u64 = if cur_session >= self.session_num as u64 {
            (self.session_num - self.last_claim_session) as u64
        } else {
            cur_session - self.last_claim_session as u64
        };
        proof {
            assert(cur_session == self@.elapsed_sessions(cur_ts as int));
            assert(times == self@.effective_sessions(cur_ts as int) - self@.last_claim_session);
            lemma_mul_inequality(times as int, self@.session_num, self@.release_per_session);
            lemma_mul_is_commutative(times as int, self@.release_per_session);
        }
        self.release_per_session * (times as u128)
    }

    /// Amount still subject to vesting or not yet claimed.
    pub fn locking_amount(&self) -> (r: u128)
        requires
            self@.claimed_amount <= self@.deposited_amount,
        ensures
            r == self@.locking(),
    {
        self.deposited_amount - self.claimed_amount
    }
}

/// The account a claim is for: the one named, or else the caller itself.
pub open spec fn claim_target(account_id: Option<String>, predecessor_id: String) -> Seq<char> {
    match account_id {
        Some(id) => id@,
        None => predecessor_id@,
    }
}

impl StateV {
    /// The one-time deposit establishing an account's entitlement.
    pub open spec fn fund(self, id: Seq<char>, amount: int) -> Result<StateV, VaultError> {
        let i = find_account(self.accounts, id);
        if i == -1 {
            Err(VaultError::AccountNotFound)
        } else {
            let a = self.accounts[i];
            if !(a.locking() == 0 && a.last_claim_session != a.session_num) {
                Err(VaultError::AlreadyFunded)
            } else if a.session_num * a.release_per_session != amount {
                Err(VaultError::AmountMismatch)
            } else {
                Ok(StateV {
                    total_balance: self.total_balance + amount,
                    accounts: self.accounts.update(i, AccountV {
                        deposited_amount: a.deposited_amount + amount,
                        ..a
                    }),
                    ..self
                })
            }
        }
    }

    /// Owner-driven schedule definition: a fresh record, or a reset of one
    /// whose previous schedule has fully elapsed and been claimed out.
    pub open spec fn configure(
        self,
        id: Seq<char>,
        start_timestamp: int,
        session_interval: int,
        session_num: int,
        release_per_session: int,
        now: int,
    ) -> Result<StateV, VaultError> {
        let i = find_account(self.accounts, id);
        if i == -1 {
            Ok(StateV {
                accounts: self.accounts.push(AccountV {
                    account_id: id,
                    start_timestamp,
                    session_interval,
                    session_num,
                    last_claim_session: 0,
                    release_per_session,
                    claimed_amount: 0,
                    deposited_amount: 0,
                }),
                ..self
            })
        } else {
            let a = self.accounts[i];
            if !(spec_to_nano(a.schedule_end()) < now) {
                Err(VaultError::AccountInSession)
            } else if a.unclaimed(now) != 0 {
                Err(VaultError::AccountNeedsClaim)
            } else {
                Ok(StateV {
                    accounts: self.accounts.update(i, AccountV {
                        start_timestamp,
                        session_interval,
                        session_num,
                        last_claim_session: 0,
                        release_per_session,
                        ..a
                    }),
                    ..self
                })
            }
        }
    }

    /// The claim state machine up to its optimistic commit: what is owed at
    /// time `now`, and the bookkeeping advanced by exactly that amount.
    pub open spec fn claim(self, id: Seq<char>, now: int) -> Result<
        (StateV, ClaimOutcome),
        VaultError,
    > {
        let i = find_account(self.accounts, id);
        if i == -1 {
            Err(VaultError::AccountNotFound)
        } else {
            let a = self.accounts[i];
            if a.last_claim_session > 0 && a.last_claim_session >= a.session_num {
                Ok((self, ClaimOutcome::AlreadyComplete))
            } else {
                let amount = a.unclaimed(now);
                if amount == 0 {
                    Ok((self, ClaimOutcome::NothingDue))
                } else if amount > a.locking() {
                    Err(VaultError::InsufficientLiquidity)
                } else {
                    let sessions = amount / a.release_per_session;
                    Ok((
                        StateV {
                            claimed_balance: self.claimed_balance + amount,
                            accounts: self.accounts.update(i, AccountV {
                                last_claim_session: a.last_claim_session + sessions,
                                claimed_amount: a.claimed_amount + amount,
                                ..a
                            }),
                            ..self
                        },
                        ClaimOutcome::Transfer(amount as u128),
                    ))
                }
            }
        }
    }

    /// Reconciling the external transfer's outcome: success leaves the
    /// optimistic commit standing; failure reverses exactly the sessions and
    /// amount that were advanced.
    pub open spec fn settle_transfer(self, id: Seq<char>, amount: int, success: bool) -> Result<
        (StateV, bool),
        VaultError,
    > {
        if success {
            Ok((self, true))
        } else {
            let i = find_account(self.accounts, id);
            if i == -1 {
                Err(VaultError::AccountNotFound)
            } else {
                let a = self.accounts[i];
                let sessions = amount / a.release_per_session;
                Ok((
                    StateV {
                        claimed_balance: self.claimed_balance - amount,
                        accounts: self.accounts.update(i, AccountV {
                            last_claim_session: a.last_claim_session - sessions,
                            claimed_amount: a.claimed_amount - amount,
                            ..a
                        }),
                        ..self
                    },
                    false,
                ))
            }
        }
    }

    /// An incoming token transfer with its out-of-band target: validation of
    /// the source and target, then the one-time deposit.
    pub open spec fn deposit_call(
        self,
        amount: int,
        msg: Seq<char>,
        predecessor: Seq<char>,
        current: Seq<char>,
    ) -> Result<StateV, VaultError> {
        if predecessor != self.token_account_id {
            Err(VaultError::WrongToken)
        } else if msg.len() == 0 {
            Err(VaultError::MissingTargetAccount)
        } else if eq_ignore_case(msg, current) {
            Err(VaultError::InvalidTargetAccount)
        } else if !valid_account_id(msg) {
            Err(VaultError::InvalidTargetAccount)
        } else {
            self.fund(msg, amount)
        }
    }
}

/// What the claim callback may assume of a failed transfer's `(id, amount)`
/// pair: it matches bookkeeping that an earlier claim advanced, as the
/// self-only callback entry point guarantees.
pub open spec fn rollback_ok(s: StateV, id: Seq<char>, amount: int) -> bool {
    find_account(s.accounts, id) >= 0 ==> {
        let a = s.accounts[find_account(s.accounts, id)];
        &&& a.release_per_session > 0
        &&& amount == (amount / a.release_per_session) * a.release_per_session
        &&& amount / a.release_per_session <= a.last_claim_session
        &&& amount <= a.claimed_amount
    }
}

impl Contract {
    /// Applies the one-time funding deposit to `account_id`'s record and to
    /// the vault's total balance; rejected unless the record has no locked
    /// value left, an unfinished schedule, and the amount matches the
    /// schedule's exact entitlement.
    pub fn internal_deposit_to_account(&mut self, account_id: &String, amount: u128) -> (r:
        Result<(), VaultError>)
        requires
            old(self)@.wf(),
            old(self)@.total_balance + amount <= u128::MAX,
        ensures
            final(self)@.wf(),
            match r {
                Ok(()) => old(self)@.fund(account_id@, amount as int) == Ok::<
                    StateV,
                    VaultError,
                >(final(self)@),
                Err(e) => old(self)@.fund(account_id@, amount as int) == Err::<
                    StateV,
                    VaultError,
                >(e) && final(self)@ == old(self)@,
            },
    {
        let ghost s = old(self)@;
        let j = match find_index(&self.data().accounts, account_id) {
            Some(j) => j,
            None => {
                return Err(VaultError::AccountNotFound);
            },
        };
        let d = self.data();
        let acc = match &d.accounts[j] {
            VAccount::Current(a) => a,
        };
        proof {
            assert(s.accounts[j as int] == d.accounts@[j as int]@);
            assert(s.accounts[j as int].wf());
        }
        let locking = acc.locking_amount();
        if !(locking == 0 && acc.last_claim_session != acc.session_num) {
            return Err(VaultError::AlreadyFunded);
        }
        let expected: u128 = (acc.session_num as u128) * acc.release_per_session;
        if expected != amount {
            return Err(VaultError::AmountMismatch);
        }
        proof {
            lemma_account_le_sum(s.accounts, j as int);
        }
        let new_acc = Account {
            account_id: acc.account_id.clone(),
            start_timestamp: acc.start_timestamp,
            session_interval: acc.session_interval,
            session_num: acc.session_num,
            last_claim_session: acc.last_claim_session,
            release_per_session: acc.release_per_session,
            claimed_amount: acc.claimed_amount,
            deposited_amount: acc.deposited_amount + amount,
        };
        let ghost a2 = AccountV {
            deposited_amount: s.accounts[j as int].deposited_amount + amount,
            ..s.accounts[j as int]
        };
        let ghost s2 = StateV {
            total_balance: s.total_balance + amount,
            accounts: s.accounts.update(j as int, a2),
            ..s
        };
        proof {
            assert(new_acc@ =~= a2);
            lemma_wf_after_update(s, s2, j as int, a2);
        }
        let d = self.data_mut();
        d.accounts[j] = VAccount::Current(new_acc);
        d.total_balance = d.total_balance + amount;
        proof {
            assert(self@.accounts =~= s2.accounts);
            assert(self@ =~= s2);
        }
        Ok(())
    }
}

impl Contract {
    /// The claim entry point, up to its asynchronous suspension: looks the
    /// account up, computes what is owed at time `now`, and optimistically
    /// commits the bookkeeping. A `Transfer` outcome obliges the caller to
    /// send that amount to the beneficiary and to settle the result through
    /// [`Contract::after_ft_transfer`].
    pub fn claim(&mut self, account_id: Option<String>, predecessor_id: String, now: u64) -> (r:
        Result<ClaimOutcome, VaultError>)
        requires
            old(self)@.wf(),
            old(self)@.has_account(claim_target(account_id, predecessor_id)) ==> old(self)@.account(
                claim_target(account_id, predecessor_id),
            ).time_ok(now as int),
        ensures
            final(self)@.wf(),
            match r {
                Ok(outcome) => old(self)@.claim(claim_target(account_id, predecessor_id), now as int)
                    == Ok::<(StateV, ClaimOutcome), VaultError>((final(self)@, outcome)),
                Err(e) => old(self)@.claim(claim_target(account_id, predecessor_id), now as int)
                    == Err::<(StateV, ClaimOutcome), VaultError>(e) && final(self)@ == old(self)@,
            },
    {
        let ghost s = old(self)@;
        let ghost target = claim_target(account_id, predecessor_id);
        let id: String = match account_id {
            Some(id) => id,
            None => predecessor_id,
        };
        let j = match find_index(&self.data().accounts, &id) {
            Some(j) => j,
            None => {
                return Err(VaultError::AccountNotFound);
            },
        };
        let d = self.data();
        let acc = match &d.accounts[j] {
            VAccount::Current(a) => a,
        };
        let ghost a = s.accounts[j as int];
        proof {
            assert(a == d.accounts@[j as int]@);
            assert(a.wf());
            assert(s.has_account(target) && s.account(target) == a);
        }
        if acc.last_claim_session > 0 && acc.last_claim_session >= acc.session_num {
            return Ok(ClaimOutcome::AlreadyComplete);
        }
        let amount = acc.unclaimed_amount(now);
        if amount == 0 {
            return Ok(ClaimOutcome::NothingDue);
        }
        if amount > acc.locking_amount() {
            return Err(VaultError::InsufficientLiquidity);
        }
        let ghost eff = a.effective_sessions(now as int);
        proof {
            // A zero per-session release would have made the amount zero.
            if a.release_per_session == 0 {
                lemma_mul_basics(eff - a.last_claim_session);
            }
            // The owed amount is a whole number of sessions, by construction.
            lemma_mul_is_commutative(eff - a.last_claim_session, a.release_per_session);
            lemma_div_by_multiple(eff - a.last_claim_session, a.release_per_session);
            lemma_account_le_sum(s.accounts, j as int);
        }
        let sessions_wide: u128 = amount / acc.release_per_session;
        let sessions: u32 = sessions_wide as u32;
        let new_acc = Account {
            account_id: acc.account_id.clone(),
            start_timestamp: acc.start_timestamp,
            session_interval: acc.session_interval,
            session_num: acc.session_num,
            last_claim_session: acc.last_claim_session + sessions,
            release_per_session: acc.release_per_session,
            claimed_amount: acc.claimed_amount + amount,
            deposited_amount: acc.deposited_amount,
        };
        let ghost a2 = AccountV {
            last_claim_session: a.last_claim_session + sessions as int,
            claimed_amount: a.claimed_amount + amount,
            ..a
        };
        let ghost s2 = StateV {
            claimed_balance: s.claimed_balance + amount,
            accounts: s.accounts.update(j as int, a2),
            ..s
        };
        proof {
            assert(new_acc@ =~= a2);
            lemma_wf_after_update(s, s2, j as int, a2);
            lemma_sums_bound(s2.accounts);
        }
        let d = self.data_mut();
        d.accounts[j] = VAccount::Current(new_acc);
        d.claimed_balance = d.claimed_balance + amount;
        proof {
            assert(self@.accounts =~= s2.accounts);
            assert(self@ =~= s2);
        }
        Ok(ClaimOutcome::Transfer(amount))
    }

    /// Settles the asynchronous transfer that a `Transfer` outcome demanded:
    /// success leaves the optimistic commit standing; failure reverses
    /// exactly the sessions and amount committed. In deployment this is a
    /// self-only callback, so `(account_id, amount)` always matches an
    /// in-flight claim, which is what [`rollback_ok`] states.
    pub fn after_ft_transfer(
        &mut self,
        account_id: String,
        amount: u128,
        promise_success: bool,
    ) -> (r: Result<bool, VaultError>)
        requires
            old(self)@.wf(),
            !promise_success ==> rollback_ok(old(self)@, account_id@, amount as int),
        ensures
            final(self)@.wf(),
            match r {
                Ok(flag) => flag == promise_success && old(self)@.settle_transfer(
                    account_id@,
                    amount as int,
                    promise_success,
                ) == Ok::<(StateV, bool), VaultError>((final(self)@, flag)),
                Err(e) => old(self)@.settle_transfer(account_id@, amount as int, promise_success)
                    == Err::<(StateV, bool), VaultError>(e) && final(self)@ == old(self)@,
            },
    {
        if promise_success {
            return Ok(true);
        }
        let ghost s = old(self)@;
        let j = match find_index(&self.data().accounts, &account_id) {
            Some(j) => j,
            None => {
                return Err(VaultError::AccountNotFound);
            },
        };
        let d = self.data();
        let acc = match &d.accounts[j] {
            VAccount::Current(a) => a,
        };
        let ghost a = s.accounts[j as int];
        proof {
            assert(a == d.accounts@[j as int]@);
            assert(a.wf());
            lemma_account_le_sum(s.accounts, j as int);
        }
        let sessions_wide: u128 = amount / acc.release_per_session;
        let sessions: u32 = sessions_wide as u32;
        let new_acc = Account {
            account_id: acc.account_id.clone(),
            start_timestamp: acc.start_timestamp,
            session_interval: acc.session_interval,
            session_num: acc.session_num,
            last_claim_session: acc.last_claim_session - sessions,
            release_per_session: acc.release_per_session,
            claimed_amount: acc.claimed_amount - amount,
            deposited_amount: acc.deposited_amount,
        };
        let ghost a2 = AccountV {
            last_claim_session: a.last_claim_session - sessions as int,
            claimed_amount: a.claimed_amount - amount,
            ..a
        };
        let ghost s2 = StateV {
            claimed_balance: s.claimed_balance - amount,
            accounts: s.accounts.update(j as int, a2),
            ..s
        };
        proof {
            assert(new_acc@ =~= a2);
            lemma_wf_after_update(s, s2, j as int, a2);
        }
        let d = self.data_mut();
        d.accounts[j] = VAccount::Current(new_acc);
        d.claimed_balance = d.claimed_balance - amount;
        proof {
            assert(self@.accounts =~= s2.accounts);
            assert(self@ =~= s2);
        }
        Ok(false)
    }

    /// Reaction to an incoming token transfer whose message names the
    /// beneficiary to fund: validates the source and the target, then applies
    /// the whole deposit or rejects the call. `Ok(0)` tells the token ledger
    /// that no part of the amount is returned.
    pub fn ft_on_transfer(
        &mut self,
        _sender_id: String,
        amount: u128,
        msg: String,
        predecessor_id: String,
        current_id: String,
    ) -> (r: Result<u128, VaultError>)
        requires
            old(self)@.wf(),
            old(self)@.total_balance + amount <= u128::MAX,
        ensures
            final(self)@.wf(),
            match r {
                Ok(kept) => kept == 0 && old(self)@.deposit_call(
                    amount as int,
                    msg@,
                    predecessor_id@,
                    current_id@,
                ) == Ok::<StateV, VaultError>(final(self)@),
                Err(e) => old(self)@.deposit_call(amount as int, msg@, predecessor_id@, current_id@)
                    == Err::<StateV, VaultError>(e) && final(self)@ == old(self)@,
            },
    {
        if !(predecessor_id == self.data().token_account_id) {
            return Err(VaultError::WrongToken);
        }
        if msg.as_str().is_empty() {
            return Err(VaultError::MissingTargetAccount);
        }
        if str_eq_ignore_case(msg.as_str(), current_id.as_str()) {
            return Err(VaultError::InvalidTargetAccount);
        }
        if !check_account_id(msg.as_str()) {
            return Err(VaultError::InvalidTargetAccount);
        }
        match self.internal_deposit_to_account(&msg, amount) {
            Ok(()) => Ok(0),
            Err(e) => Err(e),
        }
    }

    /// Creates or resets `account_id`'s schedule. An existing record is reset
    /// only once its previous schedule has fully elapsed and been claimed
    /// out; its cumulative claimed and deposited counters are deliberately
    /// preserved.
    pub fn internal_add_account(
        &mut self,
        account_id: String,
        start_timestamp: u64,
        session_interval: u64,
        session_num: u32,
        release_per_session: u128,
        now: u64,
    ) -> (r: Result<bool, VaultError>)
        requires
            old(self)@.wf(),
            1 <= session_interval,
            spec_to_nano(start_timestamp + session_num * session_interval) <= u64::MAX,
            session_num * release_per_session <= u128::MAX,
        ensures
            final(self)@.wf(),
            match r {
                Ok(flag) => flag && old(self)@.configure(
                    account_id@,
                    start_timestamp as int,
                    session_interval as int,
                    session_num as int,
                    release_per_session as int,
                    now as int,
                ) == Ok::<StateV, VaultError>(final(self)@),
                Err(e) => old(self)@.configure(
                    account_id@,
                    start_timestamp as int,
                    session_interval as int,
                    session_num as int,
                    release_per_session as int,
                    now as int,
                ) == Err::<StateV, VaultError>(e) && final(self)@ == old(self)@,
            },
    {
        let ghost s = old(self)@;
        match find_index(&self.data().accounts, &account_id) {
            Some(j) => {
                let d = self.data();
                let acc = match &d.accounts[j] {
                    VAccount::Current(a) => a,
                };
                let ghost a = s.accounts[j as int];
                proof {
                    assert(a == d.accounts@[j as int]@);
                    assert(a.wf());
                    lemma_mul_nonnegative(a.session_num, a.session_interval);
                    lemma_mul_inequality(1, NANO as int, a.schedule_end());
                    lemma_mul_is_commutative(NANO as int, a.schedule_end());
                }
                let end_sec: u64 = acc.start_timestamp + (acc.session_num as u64)
                    * acc.session_interval;
                if !(to_nano(end_sec) < now) {
                    return Err(VaultError::AccountInSession);
                }
                proof {
                    lemma_elapsed_after_end(a, now as int);
                }
                let unclaimed = acc.unclaimed_amount(now);
                if unclaimed != 0 {
                    return Err(VaultError::AccountNeedsClaim);
                }
                let new_acc = Account {
                    account_id: acc.account_id.clone(),
                    start_timestamp,
                    session_interval,
                    session_num,
                    last_claim_session: 0,
                    release_per_session,
                    claimed_amount: acc.claimed_amount,
                    deposited_amount: acc.deposited_amount,
                };
                let ghost a2 = AccountV {
                    start_timestamp: start_timestamp as int,
                    session_interval: session_interval as int,
                    session_num: session_num as int,
                    last_claim_session: 0,
                    release_per_session: release_per_session as int,
                    ..a
                };
                let ghost s2 = StateV { accounts: s.accounts.update(j as int, a2), ..s };
                proof {
                    assert(new_acc@ =~= a2);
                    lemma_wf_after_update(s, s2, j as int, a2);
                }
                let d = self.data_mut();
                d.accounts[j] = VAccount::Current(new_acc);
                proof {
                    assert(self@.accounts =~= s2.accounts);
                    assert(self@ =~= s2);
                }
                Ok(true)
            },
            None => {
                proof {
                    lemma_find_account_props(s.accounts, account_id@);
                }
                let ghost a2 = AccountV {
                    account_id: account_id@,
                    start_timestamp: start_timestamp as int,
                    session_interval: session_interval as int,
                    session_num: session_num as int,
                    last_claim_session: 0,
                    release_per_session: release_per_session as int,
                    claimed_amount: 0,
                    deposited_amount: 0,
                };
                let new_acc = Account {
                    account_id,
                    start_timestamp,
                    session_interval,
                    session_num,
                    last_claim_session: 0,
                    release_per_session,
                    claimed_amount: 0,
                    deposited_amount: 0,
                };
                let ghost s2 = StateV { accounts: s.accounts.push(a2), ..s };
                proof {
                    assert(new_acc@ =~= a2);
                    lemma_sum_push(s.accounts, a2);
                    assert forall|p: int, q: int|
                        0 <= p < q < s2.accounts.len() implies s2.accounts[p].account_id
                        != s2.accounts[q].account_id by {
                        if q < s.accounts.len() {
                        } else {
                            assert(s.accounts[p].account_id != account_id@);
                        }
                    }
                    assert forall|k: int|
                        0 <= k < s2.accounts.len() implies (#[trigger] s2.accounts[k]).wf() by {
                        if k < s.accounts.len() {
                            assert(s.accounts[k].wf());
                        }
                    }
                    assert(s2.wf());
                }
                let d = self.data_mut();
                d.accounts.push(VAccount::Current(new_acc));
                proof {
                    assert(self@.accounts =~= s2.accounts);
                    assert(self@ =~= s2);
                }
                Ok(true)
            },
        }
    }
}

/// Once a schedule's full duration has elapsed, every session has unlocked.
pub proof fn lemma_elapsed_after_end(a: AccountV, now: int)
    requires
        a.wf(),
        spec_to_nano(a.schedule_end()) < now,
    ensures
        a.effective_sessions(now) == a.session_num,
        a.time_ok(now),
{
    let start_n = spec_to_nano(a.start_timestamp);
    let interval_n = spec_to_nano(a.session_interval);
    lemma_mul_nonnegative(a.session_num, a.session_interval);
    lemma_mul_is_distributive_add_other_way(
        NANO as int,
        a.start_timestamp,
        a.session_num * a.session_interval,
    );
    lemma_mul_is_commutative(NANO as int, a.start_timestamp);
    lemma_mul_is_commutative(NANO as int, a.session_num * a.session_interval);
    lemma_mul_is_commutative(NANO as int, a.session_interval);
    assert((a.session_num * a.session_interval) * (NANO as int) == a.session_num * interval_n) by {
        lemma_mul_is_commutative(a.session_num, a.session_interval);
        vstd::arithmetic::mul::lemma_mul_is_associative(
            a.session_num,
            a.session_interval,
            NANO as int,
        );
    }
    assert(now - start_n > a.session_num * interval_n);
    lemma_mul_strictly_positive(a.session_interval, NANO as int);
    lemma_div_is_ordered(a.session_num * interval_n, now - start_n, interval_n);
    lemma_mul_is_commutative(a.session_num, interval_n);
    lemma_div_by_multiple(a.session_num, interval_n);
    assert(a.elapsed_sessions(now) >= a.session_num);
}

} // verus!
