//! Owner-gated administration of the vault.

use vstd::prelude::*;
use crate::errors::VaultError;
use crate::utils::{check_account_id, spec_to_nano, valid_account_id};
use crate::{Contract, StateV};

verus! {

/// Storage newly taken by a call, in bytes; releases count as zero.
pub open spec fn storage_growth(prev: int, current: int) -> int {
    if current >= prev {
        current - prev
    } else {
        0
    }
}

impl Contract {
    /// The owner gate: `Ok` exactly when the caller is the owner.
    pub(crate) fn assert_owner(&self, predecessor_id: &String) -> (r: Result<(), VaultError>)
        ensures
            match r {
                Ok(()) => predecessor_id@ == self@.owner_id,
                Err(e) => e == VaultError::NotAuthorized && predecessor_id@ != self@.owner_id,
            },
    {
        if *predecessor_id == self.data().owner_id {
            Ok(())
        } else {
            Err(VaultError::NotAuthorized)
        }
    }

    /// Hands the vault to a new owner; only the current owner may call it.
    /// The host binding confirms the call with a one-yocto deposit before
    /// forwarding it here.
    pub fn set_owner(&mut self, owner_id: String, predecessor_id: String) -> (r: Result<
        (),
        VaultError,
    >)
        requires
            old(self)@.wf(),
        ensures
            final(self)@.wf(),
            match r {
                Ok(()) => valid_account_id(owner_id@) && predecessor_id@ == old(self)@.owner_id
                    && final(self)@ == (StateV { owner_id: owner_id@, ..old(self)@ }),
                Err(e) => final(self)@ == old(self)@ && (if !valid_account_id(owner_id@) {
                    e == VaultError::InvalidAccountId
                } else {
                    e == VaultError::NotAuthorized && predecessor_id@ != old(self)@.owner_id
                }),
            },
    {
        let ghost s = old(self)@;
        if !check_account_id(owner_id.as_str()) {
            return Err(VaultError::InvalidAccountId);
        }
        if let Err(e) = self.assert_owner(&predecessor_id) {
            return Err(e);
        }
        let d = self.data_mut();
        d.owner_id = owner_id;
        proof {
            assert(self@ =~= (StateV { owner_id: owner_id@, ..s }));
        }
        Ok(())
    }

    /// The owner of this vault.
    pub fn get_owner(&self) -> (r: String)
        ensures
            r@ == self@.owner_id,
    {
        self.data().owner_id.clone()
    }

    /// Owner-only schedule (re)definition for a beneficiary. Storage costs of
    /// the new record are settled by the host binding around this call, with
    /// [`Contract::internal_check_storage`].
    pub fn add_account(
        &mut self,
        account_id: String,
        start_timestamp: u64,
        session_interval: u64,
        session_num: u32,
        release_per_session: u128,
        predecessor_id: String,
        now: u64,
    ) -> (r: Result<bool, VaultError>)
        requires
            old(self)@.wf(),
            1 <= session_interval,
            spec_to_nano(start_timestamp + session_num * session_interval) <= u64::MAX,
            session_num * release_per_session <= u128::MAX,
        ensures
            final(self)@.wf(),
            match r {
                Ok(flag) => flag && valid_account_id(account_id@) && predecessor_id@ == old(
                    self,
                )@.owner_id && old(self)@.configure(
                    account_id@,
                    start_timestamp as int,
                    session_interval as int,
                    session_num as int,
                    release_per_session as int,
                    now as int,
                ) == Ok::<StateV, VaultError>(final(self)@),
                Err(e) => final(self)@ == old(self)@ && (if !valid_account_id(account_id@) {
                    e == VaultError::InvalidAccountId
                } else if predecessor_id@ != old(self)@.owner_id {
                    e == VaultError::NotAuthorized
                } else {
                    old(self)@.configure(
                        account_id@,
                        start_timestamp as int,
                        session_interval as int,
                        session_num as int,
                        release_per_session as int,
                        now as int,
                    ) == Err::<StateV, VaultError>(e)
                }),
            },
    {
        if !check_account_id(account_id.as_str()) {
            return Err(VaultError::InvalidAccountId);
        }
        if let Err(e) = self.assert_owner(&predecessor_id) {
            return Err(e);
        }
        self.internal_add_account(
            account_id,
            start_timestamp,
            session_interval,
            session_num,
            release_per_session,
            now,
        )
    }

    /// Storage accounting for an owner call: how much of the attached deposit
    /// is owed back after paying for the storage the call newly took; an
    /// insufficient deposit is a shortfall that aborts the call.
    pub fn internal_check_storage(
        &self,
        prev_storage: u64,
        current_storage: u64,
        storage_byte_cost: u128,
        attached_deposit: u128,
    ) -> (r: Result<u128, VaultError>)
        requires
            storage_byte_cost * storage_growth(prev_storage as int, current_storage as int)
                <= u128::MAX,
        ensures
            ({
                let cost = storage_byte_cost * storage_growth(
                    prev_storage as int,
                    current_storage as int,
                );
                match r {
                    Ok(refund) => attached_deposit >= cost && refund == attached_deposit - cost,
                    Err(e) => e == VaultError::StorageShortfall && attached_deposit < cost,
                }
            }),
    {
        let used: u64 = if current_storage >= prev_storage {
            current_storage - prev_storage
        } else {
            0
        };
        let cost: u128 = storage_byte_cost * (used as u128);
        if attached_deposit < cost {
            return Err(VaultError::StorageShortfall);
        }
        Ok(attached_deposit - cost)
    }
}

} // verus!
