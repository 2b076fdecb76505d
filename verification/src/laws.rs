//! The vault's global laws, proved from the same transitions that the
//! executable operations are verified against.

use vstd::prelude::*;
use vstd::arithmetic::div_mod::lemma_div_by_multiple;
use vstd::arithmetic::mul::{
    lemma_mul_basics, lemma_mul_inequality, lemma_mul_is_commutative,
    lemma_mul_is_distributive_add_other_way, lemma_mul_nonnegative, lemma_mul_strictly_positive,
};
use crate::account::{rollback_ok, AccountV, ClaimOutcome};
use crate::errors::VaultError;
use crate::utils::spec_to_nano;
use crate::{
    find_account, lemma_find_account_props, lemma_find_account_update, lemma_sums_bound,
    sum_claimed, StateV, NANO,
};

verus! {

/// Conservation: the per-account claimed amounts sum to the global claimed
/// balance, which never exceeds the total ever deposited.
pub proof fn lemma_conservation(s: StateV)
    requires
        s.wf(),
    ensures
        sum_claimed(s.accounts) == s.claimed_balance,
        s.claimed_balance <= s.total_balance,
{
    lemma_sums_bound(s.accounts);
}

/// Monotonic non-overclaim: no account's claimed amount exceeds its deposited
/// amount, in any well-formed state and hence at all times.
pub proof fn lemma_monotonic_non_overclaim(s: StateV, i: int)
    requires
        s.wf(),
        0 <= i < s.accounts.len(),
    ensures
        s.accounts[i].claimed_amount <= s.accounts[i].deposited_amount,
{
    assert(s.accounts[i].wf());
}

/// Idempotent no-op claim: whatever one claim did, a second claim at the same
/// time leaves the state unchanged.
pub proof fn lemma_claim_idempotent(s: StateV, id: Seq<char>, now: int)
    requires
        s.wf(),
        s.has_account(id) ==> s.account(id).time_ok(now),
        s.claim(id, now) is Ok,
    ensures
        s.claim(id, now)->Ok_0.0.claim(id, now) is Ok,
        s.claim(id, now)->Ok_0.0.claim(id, now)->Ok_0.0 == s.claim(id, now)->Ok_0.0,
{
    let i = find_account(s.accounts, id);
    lemma_find_account_props(s.accounts, id);
    let a = s.accounts[i];
    assert(a.wf());
    if a.last_claim_session > 0 && a.last_claim_session >= a.session_num {
    } else {
        let amount = a.unclaimed(now);
        if amount == 0 {
        } else {
            let eff = a.effective_sessions(now);
            if a.release_per_session == 0 {
                lemma_mul_basics(eff - a.last_claim_session);
            }
            lemma_mul_is_commutative(eff - a.last_claim_session, a.release_per_session);
            lemma_div_by_multiple(eff - a.last_claim_session, a.release_per_session);
            let s1 = s.claim(id, now)->Ok_0.0;
            let a2 = s1.accounts[i];
            lemma_find_account_update(s.accounts, id, i, a2);
            assert(a2.last_claim_session == eff);
            assert(a2.effective_sessions(now) == eff);
            if eff < a.session_num {
                assert(a2.unclaimed(now) == (eff - eff) * a2.release_per_session);
                lemma_mul_basics(a2.release_per_session);
            }
        }
    }
}

/// Exact session crediting: a fresh, exactly funded schedule shows `k *
/// release_per_session` unclaimed at time `start + k * interval`, and a claim
/// then credits exactly `k` sessions and `k * release_per_session`.
pub proof fn lemma_exact_session_crediting(s: StateV, id: Seq<char>, k: int)
    requires
        s.wf(),
        s.has_account(id),
        s.account(id).last_claim_session == 0,
        s.account(id).claimed_amount == 0,
        s.account(id).deposited_amount == s.account(id).session_num
            * s.account(id).release_per_session,
        s.account(id).release_per_session > 0,
        0 <= k <= s.account(id).session_num,
    ensures
        ({
            let a = s.account(id);
            let now = spec_to_nano(a.start_timestamp + k * a.session_interval);
            &&& a.unclaimed(now) == k * a.release_per_session
            &&& k == 0 ==> s.claim(id, now) == Ok::<(StateV, ClaimOutcome), VaultError>((
                s,
                ClaimOutcome::NothingDue,
            ))
            &&& k > 0 ==> {
                let r = s.claim(id, now);
                &&& r is Ok
                &&& r->Ok_0.1 == ClaimOutcome::Transfer((k * a.release_per_session) as u128)
                &&& r->Ok_0.0.account(id).last_claim_session == k
                &&& r->Ok_0.0.account(id).claimed_amount == k * a.release_per_session
            }
        }),
{
    let i = find_account(s.accounts, id);
    lemma_find_account_props(s.accounts, id);
    let a = s.accounts[i];
    assert(a.wf());
    let now = spec_to_nano(a.start_timestamp + k * a.session_interval);
    let start_n = spec_to_nano(a.start_timestamp);
    let interval_n = spec_to_nano(a.session_interval);

    // now == start_n + k * interval_n
    lemma_mul_nonnegative(k, a.session_interval);
    lemma_mul_is_distributive_add_other_way(NANO as int, a.start_timestamp, k * a.session_interval);
    lemma_mul_is_commutative(NANO as int, a.start_timestamp);
    lemma_mul_is_commutative(NANO as int, k * a.session_interval);
    lemma_mul_is_commutative(NANO as int, a.session_interval);
    assert((k * a.session_interval) * (NANO as int) == k * interval_n) by {
        lemma_mul_is_commutative(k, a.session_interval);
        vstd::arithmetic::mul::lemma_mul_is_associative(k, a.session_interval, NANO as int);
    }
    assert(now == start_n + k * interval_n);

    if k == 0 {
        lemma_mul_basics(interval_n);
        assert(now == start_n);
        assert(a.elapsed_sessions(now) == 0);
        if a.session_num > 0 {
            lemma_mul_basics(a.release_per_session);
            assert(a.unclaimed(now) == 0 * a.release_per_session);
        } else {
            lemma_mul_basics(a.release_per_session);
            assert(k * a.release_per_session == 0);
        }
        lemma_mul_basics(k);
    } else {
        lemma_mul_strictly_positive(k, interval_n);
        assert(now > start_n);
        lemma_mul_is_commutative(k, interval_n);
        lemma_div_by_multiple(k, interval_n);
        assert(a.elapsed_sessions(now) == k);
        assert(a.effective_sessions(now) == k);
        assert(a.unclaimed(now) == k * a.release_per_session);

        // the claim path: the owed amount is positive and within the locked balance
        let amount = a.unclaimed(now);
        lemma_mul_strictly_positive(k, a.release_per_session);
        assert(amount > 0);
        lemma_mul_inequality(k, a.session_num, a.release_per_session);
        assert(amount <= a.locking());
        lemma_mul_is_commutative(k, a.release_per_session);
        lemma_div_by_multiple(k, a.release_per_session);
        assert(amount / a.release_per_session == k);
        let s1 = s.claim(id, now)->Ok_0.0;
        let a2 = s1.accounts[i];
        lemma_find_account_update(s.accounts, id, i, a2);
        assert(s1.account(id) == a2);
        assert(a2.last_claim_session == k);
        assert(a2.claimed_amount == k * a.release_per_session);
    }
}

/// A record whose claim counter has not run ahead of one clock reading has
/// not run ahead of any later one: with a monotonic host clock, the claim
/// entry's timing precondition is an invariant.
pub proof fn lemma_time_ok_monotone(a: AccountV, t1: int, t2: int)
    requires
        a.wf(),
        t1 <= t2,
        a.time_ok(t1),
    ensures
        a.time_ok(t2),
{
    let start_n = spec_to_nano(a.start_timestamp);
    let interval_n = spec_to_nano(a.session_interval);
    lemma_mul_strictly_positive(a.session_interval, NANO as int);
    if t2 > start_n {
        vstd::arithmetic::div_mod::lemma_div_pos_is_pos(t2 - start_n, interval_n);
        if t1 > start_n {
            vstd::arithmetic::div_mod::lemma_div_is_ordered(t1 - start_n, t2 - start_n, interval_n);
        }
    }
}

/// A claim leaves its account's claim counter no further than the clock that
/// drove it: together with [`lemma_time_ok_monotone`], every state this
/// library produces satisfies the claim entry's timing precondition at all
/// later times.
pub proof fn lemma_claim_keeps_time_ok(s: StateV, id: Seq<char>, now: int)
    requires
        s.wf(),
        s.has_account(id) ==> s.account(id).time_ok(now),
        s.claim(id, now) is Ok,
    ensures
        s.claim(id, now)->Ok_0.0.account(id).time_ok(now),
{
    let i = find_account(s.accounts, id);
    lemma_find_account_props(s.accounts, id);
    let a = s.accounts[i];
    assert(a.wf());
    let s1 = s.claim(id, now)->Ok_0.0;
    if a.last_claim_session > 0 && a.last_claim_session >= a.session_num {
    } else if a.unclaimed(now) == 0 {
    } else {
        let eff = a.effective_sessions(now);
        if a.release_per_session == 0 {
            lemma_mul_basics(eff - a.last_claim_session);
        }
        lemma_mul_is_commutative(eff - a.last_claim_session, a.release_per_session);
        lemma_div_by_multiple(eff - a.last_claim_session, a.release_per_session);
        let a2 = s1.accounts[i];
        lemma_find_account_update(s.accounts, id, i, a2);
        assert(a2.last_claim_session == eff);
        assert(a2.effective_sessions(now) == eff);
    }
}

/// A claim that demands a transfer leaves the state ready for the failure
/// callback: what [`crate::account::rollback_ok`] asks of the callback's
/// arguments holds of exactly the pair the claim handed it.
pub proof fn lemma_claim_enables_rollback(s: StateV, id: Seq<char>, now: int)
    requires
        s.wf(),
        s.has_account(id) ==> s.account(id).time_ok(now),
        s.claim(id, now) is Ok,
        s.claim(id, now)->Ok_0.1 is Transfer,
    ensures
        rollback_ok(
            s.claim(id, now)->Ok_0.0,
            id,
            s.claim(id, now)->Ok_0.1->Transfer_0 as int,
        ),
{
    let i = find_account(s.accounts, id);
    lemma_find_account_props(s.accounts, id);
    let a = s.accounts[i];
    assert(a.wf());
    let amount = a.unclaimed(now);
    let eff = a.effective_sessions(now);
    if a.release_per_session == 0 {
        lemma_mul_basics(eff - a.last_claim_session);
    }
    lemma_mul_is_commutative(eff - a.last_claim_session, a.release_per_session);
    lemma_div_by_multiple(eff - a.last_claim_session, a.release_per_session);
    lemma_mul_inequality(eff - a.last_claim_session, a.session_num, a.release_per_session);
    assert(0 <= amount <= u128::MAX);
    let s1 = s.claim(id, now)->Ok_0.0;
    let a2 = s1.accounts[i];
    lemma_find_account_update(s.accounts, id, i, a2);
    assert(amount / a2.release_per_session == eff - a.last_claim_session);
}

/// Rollback exactness: when the transfer a claim demanded fails, settling the
/// failure restores the exact pre-claim state.
pub proof fn lemma_rollback_exact(s: StateV, id: Seq<char>, now: int)
    requires
        s.wf(),
        s.has_account(id) ==> s.account(id).time_ok(now),
        s.claim(id, now) is Ok,
        s.claim(id, now)->Ok_0.1 is Transfer,
    ensures
        ({
            let s1 = s.claim(id, now)->Ok_0.0;
            let amount = s.claim(id, now)->Ok_0.1->Transfer_0;
            s1.settle_transfer(id, amount as int, false) == Ok::<(StateV, bool), VaultError>((
                s,
                false,
            ))
        }),
{
    let i = find_account(s.accounts, id);
    lemma_find_account_props(s.accounts, id);
    let a = s.accounts[i];
    assert(a.wf());
    let amount = a.unclaimed(now);
    let eff = a.effective_sessions(now);
    if a.release_per_session == 0 {
        lemma_mul_basics(eff - a.last_claim_session);
    }
    lemma_mul_is_commutative(eff - a.last_claim_session, a.release_per_session);
    lemma_div_by_multiple(eff - a.last_claim_session, a.release_per_session);
    lemma_mul_inequality(eff - a.last_claim_session, a.session_num, a.release_per_session);
    assert(0 <= amount <= u128::MAX);

    let s1 = s.claim(id, now)->Ok_0.0;
    let a2 = s1.accounts[i];
    lemma_find_account_update(s.accounts, id, i, a2);
    assert(s1.settle_transfer(id, amount, false) is Ok);
    let back = s1.settle_transfer(id, amount, false)->Ok_0.0;
    assert(back.accounts[i] =~= a);
    assert(back.accounts =~= s.accounts);
    assert(back =~= s);
}

/// Funding exactness, rejection half: an account never accepts a funding
/// amount other than its schedule's exact total entitlement.
pub proof fn lemma_funding_rejects_mismatch(s: StateV, id: Seq<char>, amount: int)
    requires
        s.wf(),
        s.has_account(id),
        amount != s.account(id).session_num * s.account(id).release_per_session,
    ensures
        s.fund(id, amount) is Err,
{
}

/// Funding exactness, acceptance half: an account with no locked value and an
/// unfinished schedule accepts exactly its entitlement.
pub proof fn lemma_funding_accepts_entitlement(s: StateV, id: Seq<char>)
    requires
        s.wf(),
        s.has_account(id),
        s.account(id).locking() == 0,
        s.account(id).last_claim_session != s.account(id).session_num,
    ensures
        s.fund(id, s.account(id).session_num * s.account(id).release_per_session) is Ok,
{
}

/// Funding exactness, once-only half: after a successful funding, every
/// further funding attempt on that account is rejected, whatever its amount,
/// until the schedule is claimed out and replaced.
pub proof fn lemma_funding_once(s: StateV, id: Seq<char>, amount: int, amount2: int)
    requires
        s.wf(),
        s.account(id).release_per_session > 0,
        s.fund(id, amount) is Ok,
    ensures
        s.fund(id, amount)->Ok_0.fund(id, amount2) == Err::<StateV, VaultError>(
            VaultError::AlreadyFunded,
        ),
{
    let i = find_account(s.accounts, id);
    lemma_find_account_props(s.accounts, id);
    let a = s.accounts[i];
    assert(a.wf());
    assert(amount == a.session_num * a.release_per_session);
    assert(a.session_num >= 1);
    lemma_mul_strictly_positive(a.session_num, a.release_per_session);
    assert(amount > 0);
    let s1 = s.fund(id, amount)->Ok_0;
    let a2 = s1.accounts[i];
    lemma_find_account_update(s.accounts, id, i, a2);
    assert(a2.locking() == amount);
}


} // verus!
