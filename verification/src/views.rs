//! Read-only reports over the vault state.

use vstd::prelude::*;
use crate::account::{Account, AccountV, VAccount};
use crate::{find_index, Contract};

verus! {

/// Contract-level metadata for external readers.
pub struct ContractInfo {
    pub version: String,
    pub owner_id: String,
    pub token_account_id: String,
    pub total_balance: u128,
    pub claimed_balance: u128,
}

/// The host storage the contract occupies and the native tokens that locks.
pub struct StorageReport {
    pub storage: u64,
    pub locking_near: u128,
}

/// One vesting record as reported to callers, with its unclaimed amount at
/// the queried time.
pub struct AccountInfo {
    pub account_id: String,
    pub start_timestamp: u64,
    pub session_interval: u64,
    pub session_num: u32,
    pub last_claim_session: u32,
    pub release_per_session: u128,
    pub claimed_amount: u128,
    pub deposited_amount: u128,
    pub unclaimed_amount: u128,
}

/// What a correct report for record `a` at time `now` holds.
pub open spec fn info_matches(info: AccountInfo, a: AccountV, now: int) -> bool {
    &&& info.account_id@ == a.account_id
    &&& info.start_timestamp == a.start_timestamp
    &&& info.session_interval == a.session_interval
    &&& info.session_num == a.session_num
    &&& info.last_claim_session == a.last_claim_session
    &&& info.release_per_session == a.release_per_session
    &&& info.claimed_amount == a.claimed_amount
    &&& info.deposited_amount == a.deposited_amount
    &&& info.unclaimed_amount == a.unclaimed(now)
}

/// Builds the report for one record.
fn account_info_of(acc: &Account, now: u64) -> (info: AccountInfo)
    requires
        acc@.wf(),
        acc@.time_ok(now as int),
    ensures
        info_matches(info, acc@, now as int),
{
    AccountInfo {
        account_id: acc.account_id.clone(),
        start_timestamp: acc.start_timestamp,
        session_interval: acc.session_interval,
        session_num: acc.session_num,
        last_claim_session: acc.last_claim_session,
        release_per_session: acc.release_per_session,
        claimed_amount: acc.claimed_amount,
        deposited_amount: acc.deposited_amount,
        unclaimed_amount: acc.unclaimed_amount(now),
    }
}

impl Contract {
    /// The contract's metadata; the version tag names the persisted layout
    /// that [`crate::VContractData`] currently carries.
    pub fn contract_metadata(&self) -> (info: ContractInfo)
        ensures
            info.version@ == "1.0.0"@,
            info.owner_id@ == self@.owner_id,
            info.token_account_id@ == self@.token_account_id,
            info.total_balance == self@.total_balance,
            info.claimed_balance == self@.claimed_balance,
    {
        let d = self.data();
        ContractInfo {
            version: "1.0.0".to_owned(),
            owner_id: d.owner_id.clone(),
            token_account_id: d.token_account_id.clone(),
            total_balance: d.total_balance,
            claimed_balance: d.claimed_balance,
        }
    }

    /// The native-token cost of the storage the contract occupies, from the
    /// host's usage and price figures.
    pub fn get_contract_storage_report(&self, storage_usage: u64, storage_byte_cost: u128) -> (r:
        StorageReport)
        requires
            storage_byte_cost * storage_usage <= u128::MAX,
        ensures
            r.storage == storage_usage,
            r.locking_near == storage_byte_cost * storage_usage,
    {
        StorageReport {
            storage: storage_usage,
            locking_near: storage_byte_cost * (storage_usage as u128),
        }
    }

    /// The record for `account_id`, reported as of time `now`.
    pub fn get_account(&self, account_id: String, now: u64) -> (r: Option<AccountInfo>)
        requires
            self@.wf(),
            self@.has_account(account_id@) ==> self@.account(account_id@).time_ok(now as int),
        ensures
            match r {
                Some(info) => self@.has_account(account_id@) && info_matches(
                    info,
                    self@.account(account_id@),
                    now as int,
                ),
                None => !self@.has_account(account_id@),
            },
    {
        let j = match find_index(&self.data().accounts, &account_id) {
            Some(j) => j,
            None => {
                return None;
            },
        };
        let d = self.data();
        let acc = match &d.accounts[j] {
            VAccount::Current(a) => a,
        };
        proof {
            assert(self@.accounts[j as int] == d.accounts@[j as int]@);
            assert(self@.accounts[j as int].wf());
        }
        Some(account_info_of(acc, now))
    }

    /// A page of account reports: up to `limit` records starting at position
    /// `from_index`, in storage order; `limit` defaults to everything.
    pub fn list_accounts(&self, from_index: Option<u64>, limit: Option<u64>, now: u64) -> (r: Vec<
        AccountInfo,
    >)
        requires
            self@.wf(),
            forall|k: int|
                0 <= k < self@.accounts.len() ==> (#[trigger] self@.accounts[k]).time_ok(
                    now as int,
                ),
            (match limit {
                Some(l) => l > 0,
                None => true,
            }) || (match from_index {
                Some(f) => f >= self@.accounts.len(),
                None => false,
            }),
        ensures
            ({
                let from = match from_index {
                    Some(f) => f as int,
                    None => 0,
                };
                let lim = match limit {
                    Some(l) => l as int,
                    None => self@.accounts.len() as int,
                };
                let count = if from >= self@.accounts.len() {
                    0
                } else if lim <= self@.accounts.len() - from {
                    lim
                } else {
                    self@.accounts.len() - from
                };
                &&& r@.len() == count
                &&& forall|k: int|
                    0 <= k < count ==> info_matches(
                        #[trigger] r@[k],
                        self@.accounts[from + k],
                        now as int,
                    )
            }),
    {
        let d = self.data();
        let n: usize = d.accounts.len();
        let from64: u64 = match from_index {
            Some(f) => f,
            None => 0,
        };
        let mut out: Vec<AccountInfo> = Vec::new();
        if from64 >= n as u64 {
            return out;
        }
        let from: usize = from64 as usize;
        let lim64: u64 = match limit {
            Some(l) => l,
            None => n as u64,
        };
        let remaining: u64 = (n - from) as u64;
        let count64: u64 = if lim64 <= remaining {
            lim64
        } else {
            remaining
        };
        let count: usize = count64 as usize;
        let mut k: usize = 0;
        while k < count
            invariant
                d@ == self@,
                self@.wf(),
                forall|i: int|
                    0 <= i < self@.accounts.len() ==> (#[trigger] self@.accounts[i]).time_ok(
                        now as int,
                    ),
                n == self@.accounts.len(),
                0 <= from < n,
                count <= n - from,
                0 <= k <= count,
                out@.len() == k,
                forall|i: int|
                    0 <= i < k ==> info_matches(
                        #[trigger] out@[i],
                        self@.accounts[from + i],
                        now as int,
                    ),
            decreases count - k,
        {
            let acc = match &d.accounts[from + k] {
                VAccount::Current(a) => a,
            };
            proof {
                assert(self@.accounts[(from + k) as int] == d.accounts@[(from + k) as int]@);
                assert(self@.accounts[(from + k) as int].wf());
                assert(self@.accounts[(from + k) as int].time_ok(now as int));
            }
            out.push(account_info_of(acc, now));
            k = k + 1;
        }
        out
    }
}

} // verus!
