//! A token vesting vault: an owner schedules per-beneficiary release sessions,
//! deposits of the fungible token unlock linearly over those sessions, and the
//! beneficiary claims unlocked amounts through an asynchronous token transfer
//! whose failure is rolled back exactly.

use vstd::prelude::*;

pub mod account;
pub mod errors;
pub mod laws;
pub mod owner;
pub mod utils;
pub mod views;

use crate::account::{Account, AccountV, VAccount};
use crate::errors::VaultError;
use crate::utils::{check_account_id, valid_account_id};

verus! {

pub const NANO: u64 = 1_000_000_000;

/// Storage namespace tags for the host's persistent collections.
pub enum StorageKeys {
    Accounts,
}

/// The contract's state: global balances and one vesting record per
/// beneficiary.
pub struct ContractData {
    /// Sole principal allowed to add or reconfigure accounts.
    pub owner_id: String,
    /// The single external token contract this vault accepts deposits from
    /// and pays out through.
    pub token_account_id: String,
    /// Cumulative amount ever deposited into the vault.
    pub total_balance: u128,
    /// Cumulative amount ever paid out of the vault.
    pub claimed_balance: u128,
    /// Vesting records, one per beneficiary, unique by account identifier.
    pub accounts: Vec<VAccount>,
}

/// Versioned wrapper around [`ContractData`]: the seam for layout upgrades.
pub enum VContractData {
    Current(ContractData),
}

/// The contract, holding its versioned state.
pub struct Contract {
    pub data: VContractData,
}

/// The mathematical shadow of the whole contract state.
#[verifier::ext_equal]
pub struct StateV {
    pub owner_id: Seq<char>,
    pub token_account_id: Seq<char>,
    pub total_balance: int,
    pub claimed_balance: int,
    pub accounts: Seq<AccountV>,
}

/// The records' shadows, in storage order.
pub open spec fn views_of(s: Seq<VAccount>) -> Seq<AccountV> {
    Seq::new(s.len(), |i: int| s[i]@)
}

impl View for ContractData {
    type V = StateV;

    open spec fn view(&self) -> StateV {
        StateV {
            owner_id: self.owner_id@,
            token_account_id: self.token_account_id@,
            total_balance: self.total_balance as int,
            claimed_balance: self.claimed_balance as int,
            accounts: views_of(self.accounts@),
        }
    }
}

impl View for VContractData {
    type V = StateV;

    open spec fn view(&self) -> StateV {
        match self {
            VContractData::Current(data) => data@,
        }
    }
}

impl View for Contract {
    type V = StateV;

    open spec fn view(&self) -> StateV {
        self.data@
    }
}

/// Sum of all records' claimed amounts.
pub open spec fn sum_claimed(s: Seq<AccountV>) -> int
    decreases s.len(),
{
    if s.len() == 0 {
        0
    } else {
        sum_claimed(s.drop_last()) + s.last().claimed_amount
    }
}

/// Sum of all records' deposited amounts.
pub open spec fn sum_deposited(s: Seq<AccountV>) -> int
    decreases s.len(),
{
    if s.len() == 0 {
        0
    } else {
        sum_deposited(s.drop_last()) + s.last().deposited_amount
    }
}

/// Index of the first record with the given identifier, or -1.
pub open spec fn find_account(s: Seq<AccountV>, id: Seq<char>) -> int
    decreases s.len(),
{
    if s.len() == 0 {
        -1
    } else if s[0].account_id == id {
        0
    } else {
        let r = find_account(s.subrange(1, s.len() as int), id);
        if r == -1 {
            -1
        } else {
            r + 1
        }
    }
}

/// No two records share an identifier.
pub open spec fn ids_unique(s: Seq<AccountV>) -> bool {
    forall|i: int, j: int|
        0 <= i < j < s.len() ==> s[i].account_id != s[j].account_id
}

impl StateV {
    /// The contract-wide invariant: well-formed records with unique
    /// identifiers, and global balances that mirror the per-record sums.
    pub open spec fn wf(self) -> bool {
        &&& ids_unique(self.accounts)
        &&& forall|i: int| 0 <= i < self.accounts.len() ==> (#[trigger] self.accounts[i]).wf()
        &&& sum_claimed(self.accounts) == self.claimed_balance
        &&& sum_deposited(self.accounts) == self.total_balance
        &&& 0 <= self.claimed_balance
        &&& 0 <= self.total_balance <= u128::MAX
    }

    pub open spec fn has_account(self, id: Seq<char>) -> bool {
        find_account(self.accounts, id) >= 0
    }

    /// The record with the given identifier; meaningful when it exists.
    pub open spec fn account(self, id: Seq<char>) -> AccountV {
        self.accounts[find_account(self.accounts, id)]
    }
}

/// `find_account` returns a position in range, pointing at the first record
/// carrying the identifier; -1 means no record carries it.
pub proof fn lemma_find_account_props(s: Seq<AccountV>, id: Seq<char>)
    ensures
        -1 <= find_account(s, id) < s.len(),
        find_account(s, id) >= 0 ==> s[find_account(s, id)].account_id == id,
        find_account(s, id) >= 0 ==> forall|k: int|
            0 <= k < find_account(s, id) ==> s[k].account_id != id,
        find_account(s, id) == -1 ==> forall|k: int|
            0 <= k < s.len() ==> s[k].account_id != id,
    decreases s.len(),
{
    if s.len() == 0 {
    } else if s[0].account_id == id {
    } else {
        let tail = s.subrange(1, s.len() as int);
        lemma_find_account_props(tail, id);
        assert forall|k: int| 1 <= k < s.len() implies s[k] == tail[k - 1] by {}
    }
}

/// Replacing a record with one that carries the same identifier does not move
/// where any identifier is found.
pub proof fn lemma_find_account_update(s: Seq<AccountV>, id: Seq<char>, i: int, a: AccountV)
    requires
        0 <= i < s.len(),
        a.account_id == s[i].account_id,
    ensures
        find_account(s.update(i, a), id) == find_account(s, id),
    decreases s.len(),
{
    let s2 = s.update(i, a);
    if i == 0 {
        if s[0].account_id != id {
            assert(s2.subrange(1, s2.len() as int) =~= s.subrange(1, s.len() as int));
        }
    } else {
        assert(s2[0] == s[0]);
        if s[0].account_id != id {
            assert(s2.subrange(1, s2.len() as int) =~= s.subrange(1, s.len() as int).update(
                i - 1,
                a,
            ));
            lemma_find_account_update(s.subrange(1, s.len() as int), id, i - 1, a);
        }
    }
}

/// How the balance sums move when one record is replaced.
pub proof fn lemma_sum_update(s: Seq<AccountV>, i: int, a: AccountV)
    requires
        0 <= i < s.len(),
    ensures
        sum_claimed(s.update(i, a)) == sum_claimed(s) + a.claimed_amount - s[i].claimed_amount,
        sum_deposited(s.update(i, a)) == sum_deposited(s) + a.deposited_amount
            - s[i].deposited_amount,
    decreases s.len(),
{
    let s2 = s.update(i, a);
    if i == s.len() - 1 {
        assert(s2.drop_last() =~= s.drop_last());
    } else {
        assert(s2.drop_last() =~= s.drop_last().update(i, a));
        lemma_sum_update(s.drop_last(), i, a);
    }
}

/// How the balance sums move when a record is appended.
pub proof fn lemma_sum_push(s: Seq<AccountV>, a: AccountV)
    ensures
        sum_claimed(s.push(a)) == sum_claimed(s) + a.claimed_amount,
        sum_deposited(s.push(a)) == sum_deposited(s) + a.deposited_amount,
{
    assert(s.push(a).drop_last() =~= s);
}

/// Over well-formed records the claimed sum sits between zero and the
/// deposited sum.
pub proof fn lemma_sums_bound(s: Seq<AccountV>)
    requires
        forall|i: int| 0 <= i < s.len() ==> (#[trigger] s[i]).wf(),
    ensures
        0 <= sum_claimed(s) <= sum_deposited(s),
    decreases s.len(),
{
    if s.len() > 0 {
        assert(forall|i: int|
            0 <= i < s.drop_last().len() ==> (#[trigger] s.drop_last()[i]).wf());
        lemma_sums_bound(s.drop_last());
    }
}

/// Each record's balances are bounded by the global sums.
pub proof fn lemma_account_le_sum(s: Seq<AccountV>, i: int)
    requires
        forall|k: int| 0 <= k < s.len() ==> (#[trigger] s[k]).wf(),
        0 <= i < s.len(),
    ensures
        s[i].claimed_amount <= sum_claimed(s),
        s[i].deposited_amount <= sum_deposited(s),
    decreases s.len(),
{
    assert(forall|k: int|
        0 <= k < s.drop_last().len() ==> (#[trigger] s.drop_last()[k]).wf());
    lemma_sums_bound(s.drop_last());
    if i < s.len() - 1 {
        lemma_account_le_sum(s.drop_last(), i);
        assert(s.last().wf());
    }
}

/// The contract invariant survives replacing one record by a well-formed one
/// with the same identifier, as long as the global balances move by the same
/// deltas as the record's.
pub proof fn lemma_wf_after_update(s: StateV, s2: StateV, i: int, a2: AccountV)
    requires
        s.wf(),
        0 <= i < s.accounts.len(),
        a2.wf(),
        a2.account_id == s.accounts[i].account_id,
        s2.accounts =~= s.accounts.update(i, a2),
        s2.claimed_balance == s.claimed_balance - s.accounts[i].claimed_amount
            + a2.claimed_amount,
        s2.total_balance == s.total_balance - s.accounts[i].deposited_amount
            + a2.deposited_amount,
        0 <= s2.claimed_balance,
        s2.total_balance <= u128::MAX,
    ensures
        s2.wf(),
{
    lemma_sum_update(s.accounts, i, a2);
    assert forall|p: int, q: int|
        0 <= p < q < s2.accounts.len() implies s2.accounts[p].account_id
        != s2.accounts[q].account_id by {
        assert(s.accounts[p].account_id == s2.accounts[p].account_id);
        assert(s.accounts[q].account_id == s2.accounts[q].account_id);
    }
    assert forall|k: int| 0 <= k < s2.accounts.len() implies (#[trigger] s2.accounts[k]).wf() by {
        if k != i {
            assert(s.accounts[k].wf());
        }
    }
    lemma_sums_bound(s2.accounts);
}

/// Position of the record carrying `id`, by linear scan.
pub(crate) fn find_index(accounts: &Vec<VAccount>, id: &String) -> (r: Option<usize>)
    ensures
        match r {
            Some(j) => 0 <= j < accounts@.len() && find_account(views_of(accounts@), id@)
                == j as int,
            None => find_account(views_of(accounts@), id@) == -1,
        },
{
    let ghost s = views_of(accounts@);
    proof {
        lemma_find_account_props(s, id@);
    }
    let mut j: usize = 0;
    while j < accounts.len()
        invariant
            0 <= j <= accounts@.len(),
            s == views_of(accounts@),
            forall|k: int| 0 <= k < j ==> s[k].account_id != id@,
            -1 <= find_account(s, id@) < s.len(),
            find_account(s, id@) >= 0 ==> s[find_account(s, id@)].account_id == id@,
            find_account(s, id@) >= 0 ==> forall|k: int|
                0 <= k < find_account(s, id@) ==> s[k].account_id != id@,
            find_account(s, id@) == -1 ==> forall|k: int|
                0 <= k < s.len() ==> s[k].account_id != id@,
        decreases accounts@.len() - j,
    {
        match &accounts[j] {
            VAccount::Current(a) => {
                proof {
                    assert(s[j as int] == accounts@[j as int]@);
                }
                if a.account_id == *id {
                    return Some(j);
                }
            }
        }
        j = j + 1;
    }
    None
}

impl Contract {
    /// Read access to the current-version state.
    pub fn data(&self) -> (d: &ContractData)
        ensures
            d@ == self@,
    {
        match &self.data {
            VContractData::Current(data) => data,
        }
    }

    /// Write access to the current-version state.
    pub fn data_mut(&mut self) -> (d: &mut ContractData)
        ensures
            old(self).data == VContractData::Current(*d),
            final(self).data == VContractData::Current(*final(d)),
    {
        match &mut self.data {
            VContractData::Current(data) => data,
        }
    }

    /// Sets up an empty vault owned by `owner_id`, trusting the token ledger
    /// at `token_id`; both identifiers must satisfy the host's grammar.
    pub fn new(owner_id: String, token_id: String) -> (r: Result<Contract, VaultError>)
        ensures
            match r {
                Ok(c) => {
                    &&& valid_account_id(owner_id@)
                    &&& valid_account_id(token_id@)
                    &&& c@ == (StateV {
                        owner_id: owner_id@,
                        token_account_id: token_id@,
                        total_balance: 0,
                        claimed_balance: 0,
                        accounts: Seq::<AccountV>::empty(),
                    })
                    &&& c@.wf()
                },
                Err(e) => {
                    &&& e == VaultError::InvalidAccountId
                    &&& (!valid_account_id(owner_id@) || !valid_account_id(token_id@))
                },
            },
    {
        if !check_account_id(owner_id.as_str()) {
            return Err(VaultError::InvalidAccountId);
        }
        if !check_account_id(token_id.as_str()) {
            return Err(VaultError::InvalidAccountId);
        }
        let c = Contract {
            data: VContractData::Current(ContractData {
                owner_id,
                token_account_id: token_id,
                total_balance: 0,
                claimed_balance: 0,
                accounts: Vec::new(),
            }),
        };
        proof {
            assert(c@.accounts =~= Seq::<AccountV>::empty());
        }
        Ok(c)
    }
}

} // verus!
