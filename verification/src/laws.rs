//! Laws of the agreement state machine, stated over the transition functions
//! that the operations' contracts are pinned to, and proved once for all
//! inputs.

use crate::machine::{execute_step, finalize_step, initialize_step, payment_of, raw_payment,
    refund_of};
use crate::types::{AdvertisementContract, Address, ContractState, Error, valid_agreement};
use vstd::arithmetic::mul::{lemma_mul_basics, lemma_mul_nonnegative};
use vstd::prelude::*;

verus! {

/// A valid initialization whose period ends in the future succeeds, and
/// afterwards exactly one agreement exists: active, unattested
/// (`final_views == 0`), unsettled (`payment_done == false`), and
/// well-formed.
pub proof fn lemma_initialize_creates(
    now: u64,
    advertiser: Address,
    escrow: Address,
    publisher: Address,
    end_timestamp: u64,
    pay_per_view: i128,
    initial_views: u64,
    token_id: Address,
)
    requires
        end_timestamp > now,
        pay_per_view >= 0,
    ensures
        ({
            let (st, r) = initialize_step(
                None,
                now,
                advertiser,
                escrow,
                publisher,
                end_timestamp,
                pay_per_view,
                initial_views,
                token_id,
            );
            &&& r == Ok::<(), Error>(())
            &&& st matches Some(a) && a.state == ContractState::Active && a.final_views == 0
                && a.payment_done == false && valid_agreement(a)
        }),
{
}

/// Initialization is a one-time event: on an already-initialized machine a
/// second `initialize` always fails with `AlreadyInitialized` and leaves the
/// stored record unchanged, whatever its arguments.
pub proof fn lemma_initialize_is_one_time(
    stored: AdvertisementContract,
    now: u64,
    advertiser: Address,
    escrow: Address,
    publisher: Address,
    end_timestamp: u64,
    pay_per_view: i128,
    initial_views: u64,
    token_id: Address,
)
    ensures
        initialize_step(
            Some(stored),
            now,
            advertiser,
            escrow,
            publisher,
            end_timestamp,
            pay_per_view,
            initial_views,
            token_id,
        ) == (Some(stored), Err::<(), Error>(Error::AlreadyInitialized)),
{
}

/// An attestation below the baseline never succeeds and never mutates the
/// record; when it is the only failing check, the error is precisely
/// `FinalViewsLessThanInitial`.
pub proof fn lemma_finalize_rejects_lower(
    a: AdvertisementContract,
    now: u64,
    caller: Address,
    final_views: u64,
)
    requires
        final_views < a.initial_views,
    ensures
        finalize_step(Some(a), now, caller, final_views).0 == Some(a),
        finalize_step(Some(a), now, caller, final_views).1 is Err,
        caller == a.escrow && a.state == ContractState::Active && now >= a.end_timestamp
            ==> finalize_step(Some(a), now, caller, final_views).1 == Err::<(), Error>(
            Error::FinalViewsLessThanInitial,
        ),
{
}

/// Settlement runs at most once: after a successful `execute_payments`,
/// every further attempt — at any time, by any caller — fails and leaves the
/// record unchanged, so no funds can move twice. The escrow itself then
/// sees `ContractNotActive`, the agreement having left the `Active` state.
pub proof fn lemma_settlement_runs_once(
    st: Option<AdvertisementContract>,
    now: u64,
    caller: Address,
    now2: u64,
    caller2: Address,
)
    requires
        execute_step(st, now, caller).1 is Ok,
    ensures
        ({
            let st1 = execute_step(st, now, caller).0;
            &&& execute_step(st1, now2, caller2).0 == st1
            &&& execute_step(st1, now2, caller2).1 is Err
            &&& st1 is Some
            &&& caller2 == st1->Some_0.escrow ==> execute_step(st1, now2, caller2).1 == Err::<
                (i128, i128),
                Error,
            >(Error::ContractNotActive)
        }),
{
}

/// The settlement split of a valid record is a zero-sum division of the
/// deposit: payment plus refund is exactly the deposit, both are
/// non-negative, and once attestation has happened the payment is the
/// smaller of the raw per-view amount and the deposit.
pub proof fn lemma_settlement_splits_deposit(a: AdvertisementContract)
    requires
        valid_agreement(a),
    ensures
        payment_of(a) + refund_of(a) == a.initial_deposit,
        payment_of(a) >= 0,
        refund_of(a) >= 0,
        a.final_views >= a.initial_views ==> payment_of(a) == vstd::math::min(
            raw_payment(a),
            a.initial_deposit as int,
        ),
{
    if a.final_views >= a.initial_views {
        lemma_mul_nonnegative(a.final_views - a.initial_views, a.pay_per_view as int);
        lemma_mul_basics(a.pay_per_view as int);
    }
}

/// Before the agreement period has ended, settlement always fails with
/// `ContractPeriodNotEnded` and leaves the record unchanged, regardless of
/// the attestation state.
pub proof fn lemma_no_settlement_before_period_end(
    a: AdvertisementContract,
    now: u64,
    caller: Address,
)
    requires
        now < a.end_timestamp,
        caller == a.escrow,
        a.state == ContractState::Active,
    ensures
        execute_step(Some(a), now, caller) == (
            Some(a),
            Err::<(i128, i128), Error>(Error::ContractPeriodNotEnded),
        ),
{
}

/// Authorization: a caller other than the stored escrow is turned away with
/// `Unauthorized` by every operation that checks the caller — attestation
/// and settlement — and the record stays unchanged.
pub proof fn lemma_only_escrow_mutates(
    a: AdvertisementContract,
    now: u64,
    caller: Address,
    final_views: u64,
)
    requires
        caller != a.escrow,
    ensures
        finalize_step(Some(a), now, caller, final_views) == (
            Some(a),
            Err::<(), Error>(Error::Unauthorized),
        ),
        execute_step(Some(a), now, caller) == (
            Some(a),
            Err::<(i128, i128), Error>(Error::Unauthorized),
        ),
{
}

/// `Completed` is terminal: no operation mutates a completed record or
/// succeeds on it.
pub proof fn lemma_completed_is_terminal(
    a: AdvertisementContract,
    now: u64,
    caller: Address,
    final_views: u64,
)
    requires
        a.state == ContractState::Completed,
    ensures
        finalize_step(Some(a), now, caller, final_views).0 == Some(a),
        finalize_step(Some(a), now, caller, final_views).1 is Err,
        execute_step(Some(a), now, caller).0 == Some(a),
        execute_step(Some(a), now, caller).1 is Err,
{
}

} // verus!
