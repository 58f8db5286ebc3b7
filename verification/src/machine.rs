//! The agreement state machine: transition functions as specifications, the
//! settlement arithmetic, and the executable operations on the single stored
//! record.
//!
//! Each operation is a pure function of (stored record, current time, caller
//! identity, arguments). The host adapter reads the clock, authenticates the
//! caller, persists the record between invocations, and performs the token
//! transfers that a successful settlement reports.

use crate::types::{AdvertisementContract, Address, ContractState, Error, valid_agreement,
    INITIAL_DEPOSIT};
use vstd::arithmetic::mul::lemma_mul_nonnegative;
use vstd::prelude::*;

verus! {

/// The uncapped settlement amount: incremental views times the per-view
/// price, as a mathematical integer.
pub open spec fn raw_payment(a: AdvertisementContract) -> int {
    (a.final_views - a.initial_views) * a.pay_per_view
}

/// What the publisher is owed: zero when there are no incremental views,
/// otherwise the raw amount capped at the deposit, so that the advertiser
/// never loses more than was escrowed.
pub open spec fn payment_of(a: AdvertisementContract) -> int {
    if a.final_views <= a.initial_views {
        0
    } else if raw_payment(a) > a.initial_deposit {
        a.initial_deposit as int
    } else {
        raw_payment(a)
    }
}

/// What the advertiser is refunded: the rest of the deposit.
pub open spec fn refund_of(a: AdvertisementContract) -> int {
    a.initial_deposit - payment_of(a)
}

/// The `initialize` transition: from the stored record (`None` when no
/// agreement exists yet), the current time and the arguments, to the new
/// stored record and the result. On success the new record escrows the
/// constant deposit and starts `Active`, unattested and unsettled; the host
/// then transfers the deposit from the advertiser into custody.
pub open spec fn initialize_step(
    st: Option<AdvertisementContract>,
    now: u64,
    advertiser: Address,
    escrow: Address,
    publisher: Address,
    end_timestamp: u64,
    pay_per_view: i128,
    initial_views: u64,
    token_id: Address,
) -> (Option<AdvertisementContract>, Result<(), Error>) {
    if st is Some {
        (st, Err(Error::AlreadyInitialized))
    } else if end_timestamp <= now {
        (st, Err(Error::ContractPeriodNotEnded))
    } else {
        (
            Some(
                AdvertisementContract {
                    advertiser,
                    escrow,
                    publisher,
                    end_timestamp,
                    initial_deposit: INITIAL_DEPOSIT,
                    pay_per_view,
                    initial_views,
                    final_views: 0,
                    payment_done: false,
                    state: ContractState::Active,
                    token_id,
                },
            ),
            Ok(()),
        )
    }
}

/// The `finalize_views` transition: the escrow attests the final view count
/// once the period has ended, while the agreement is still active. A second
/// attestation before settlement overwrites the first, subject to the same
/// checks. Every failure leaves the record unchanged.
pub open spec fn finalize_step(
    st: Option<AdvertisementContract>,
    now: u64,
    caller: Address,
    final_views: u64,
) -> (Option<AdvertisementContract>, Result<(), Error>) {
    match st {
        None => (st, Err(Error::NotInitialized)),
        Some(a) => {
            if caller != a.escrow {
                (st, Err(Error::Unauthorized))
            } else if a.state != ContractState::Active {
                (st, Err(Error::ContractNotActive))
            } else if now < a.end_timestamp {
                (st, Err(Error::ContractPeriodNotEnded))
            } else if final_views < a.initial_views {
                (st, Err(Error::FinalViewsLessThanInitial))
            } else {
                (Some(AdvertisementContract { final_views, ..a }), Ok(()))
            }
        },
    }
}

/// The `execute_payments` transition: the escrow triggers settlement once
/// the period has ended, the agreement is active, attestation has happened
/// (`final_views != 0`) and no settlement has run yet. On success the record
/// becomes `Completed` with `payment_done` set — the sole terminal
/// transition — and the result carries `(payment, refund)` for the host to
/// transfer to the publisher and the advertiser. Every failure leaves the
/// record unchanged and moves no funds.
pub open spec fn execute_step(st: Option<AdvertisementContract>, now: u64, caller: Address) -> (
    Option<AdvertisementContract>,
    Result<(i128, i128), Error>,
) {
    match st {
        None => (st, Err(Error::NotInitialized)),
        Some(a) => {
            if caller != a.escrow {
                (st, Err(Error::Unauthorized))
            } else if a.state != ContractState::Active {
                (st, Err(Error::ContractNotActive))
            } else if now < a.end_timestamp {
                (st, Err(Error::ContractPeriodNotEnded))
            } else if a.final_views == 0 {
                (st, Err(Error::ContractNotActive))
            } else if a.payment_done {
                (st, Err(Error::ContractEnded))
            } else {
                (
                    Some(
                        AdvertisementContract {
                            payment_done: true,
                            state: ContractState::Completed,
                            ..a
                        },
                    ),
                    Ok((payment_of(a) as i128, refund_of(a) as i128)),
                )
            }
        },
    }
}

/// The agreement state machine over its single stored record: absent until
/// `initialize`, present and well-formed ever after.
pub struct AdContract {
    stored: Option<AdvertisementContract>,
}

impl AdContract {
    /// The stored record: `None` while no agreement exists.
    pub closed spec fn agreement(self) -> Option<AdvertisementContract> {
        self.stored
    }

    /// Well-formedness: whatever is stored is a valid agreement record.
    pub open spec fn wf(self) -> bool {
        match self.agreement() {
            None => true,
            Some(a) => valid_agreement(a),
        }
    }

    /// A machine with no agreement yet, as deployed before `initialize`.
    pub fn new() -> (c: AdContract)
        ensures
            c.agreement() is None,
            c.wf(),
    {
        AdContract { stored: None }
    }

    /// A machine holding a previously persisted record, as the host rebuilds
    /// it at the start of each invocation.
    pub fn restore(record: AdvertisementContract) -> (c: AdContract)
        requires
            valid_agreement(record),
        ensures
            c.agreement() == Some(record),
            c.wf(),
    {
        AdContract { stored: Some(record) }
    }

    /// Creates the one agreement: fails with `AlreadyInitialized` if a record
    /// exists, with `ContractPeriodNotEnded` if the period would not lie in
    /// the future; otherwise stores the new record, escrowing the constant
    /// deposit. On success the host owes a transfer of `INITIAL_DEPOSIT`
    /// from the advertiser into the contract's custody.
    pub fn initialize(
        &mut self,
        now: u64,
        advertiser: Address,
        escrow: Address,
        publisher: Address,
        end_timestamp: u64,
        pay_per_view: i128,
        initial_views: u64,
        token_id: Address,
    ) -> (r: Result<(), Error>)
        requires
            old(self).wf(),
            pay_per_view >= 0,
        ensures
            final(self).wf(),
            (final(self).agreement(), r) == initialize_step(
                old(self).agreement(),
                now,
                advertiser,
                escrow,
                publisher,
                end_timestamp,
                pay_per_view,
                initial_views,
                token_id,
            ),
    {
        if self.stored.is_some() {
            return Err(Error::AlreadyInitialized);
        }
        if end_timestamp <= now {
            return Err(Error::ContractPeriodNotEnded);
        }
        self.stored = Some(
            AdvertisementContract {
                advertiser,
                escrow,
                publisher,
                end_timestamp,
                initial_deposit: INITIAL_DEPOSIT,
                pay_per_view,
                initial_views,
                final_views: 0,
                payment_done: false,
                state: ContractState::Active,
                token_id,
            },
        );
        Ok(())
    }

    /// Attests the final view count, exactly as `finalize_step` says: only
    /// the escrow, only while active, only once the period has ended, and
    /// never below the baseline.
    pub fn finalize_views(&mut self, now: u64, caller: Address, final_views: u64) -> (r: Result<
        (),
        Error,
    >)
        requires
            old(self).wf(),
        ensures
            final(self).wf(),
            (final(self).agreement(), r) == finalize_step(
                old(self).agreement(),
                now,
                caller,
                final_views,
            ),
    {
        let a = match &self.stored {
            None => {
                return Err(Error::NotInitialized);
            },
            Some(a) => *a,
        };
        if caller != a.escrow {
            return Err(Error::Unauthorized);
        }
        if a.state != ContractState::Active {
            return Err(Error::ContractNotActive);
        }
        if now < a.end_timestamp {
            return Err(Error::ContractPeriodNotEnded);
        }
        if final_views < a.initial_views {
            return Err(Error::FinalViewsLessThanInitial);
        }
        self.stored = Some(AdvertisementContract { final_views, ..a });
        Ok(())
    }

    /// Executes settlement, exactly as `execute_step` says. On success the
    /// host owes the returned `(payment, refund)` transfers out of custody,
    /// to the publisher and — when the refund is positive — the advertiser;
    /// payment plus refund is exactly the deposit.
    pub fn execute_payments(&mut self, now: u64, caller: Address) -> (r: Result<
        (i128, i128),
        Error,
    >)
        requires
            old(self).wf(),
        ensures
            final(self).wf(),
            (final(self).agreement(), r) == execute_step(old(self).agreement(), now, caller),
    {
        let a = match &self.stored {
            None => {
                return Err(Error::NotInitialized);
            },
            Some(a) => *a,
        };
        if caller != a.escrow {
            return Err(Error::Unauthorized);
        }
        if a.state != ContractState::Active {
            return Err(Error::ContractNotActive);
        }
        if now < a.end_timestamp {
            return Err(Error::ContractPeriodNotEnded);
        }
        if a.final_views == 0 {
            return Err(Error::ContractNotActive);
        }
        if a.payment_done {
            return Err(Error::ContractEnded);
        }
        let (payment, refund) = settlement_amounts(&a);
        self.stored = Some(
            AdvertisementContract {
                payment_done: true,
                state: ContractState::Completed,
                ..a
            },
        );
        Ok((payment, refund))
    }

    /// Returns the full stored record, or `NotInitialized` if none exists.
    /// Read-only and publicly readable.
    pub fn get_contract_details(&self) -> (r: Result<AdvertisementContract, Error>)
        ensures
            r == match self.agreement() {
                None => Err::<AdvertisementContract, Error>(Error::NotInitialized),
                Some(a) => Ok::<AdvertisementContract, Error>(a),
            },
    {
        match &self.stored {
            None => Err(Error::NotInitialized),
            Some(a) => Ok(*a),
        }
    }

    /// Projects the settlement split from the currently stored record
    /// without transferring anything or mutating state: `(0, deposit)` while
    /// unattested or without incremental views, otherwise the capped payment
    /// and the matching refund.
    pub fn calculate_payment(&self) -> (r: Result<(i128, i128), Error>)
        requires
            self.wf(),
        ensures
            r == match self.agreement() {
                None => Err::<(i128, i128), Error>(Error::NotInitialized),
                Some(a) => Ok::<(i128, i128), Error>(
                    (payment_of(a) as i128, refund_of(a) as i128),
                ),
            },
    {
        match &self.stored {
            None => Err(Error::NotInitialized),
            Some(a) => Ok(settlement_amounts(a)),
        }
    }
}

/// The settlement arithmetic on a valid record. Multiplication is checked:
/// a product that does not fit in the type already exceeds the deposit, so
/// the cap applies and the exact mathematical result is still returned.
fn settlement_amounts(a: &AdvertisementContract) -> (pr: (i128, i128))
    requires
        valid_agreement(*a),
    ensures
        pr.0 == payment_of(*a),
        pr.1 == refund_of(*a),
{
    if a.final_views <= a.initial_views {
        return (0, a.initial_deposit);
    }
    let incremental = (a.final_views - a.initial_views) as i128;
    proof {
        lemma_mul_nonnegative(incremental as int, a.pay_per_view as int);
    }
    let payment = match incremental.checked_mul(a.pay_per_view) {
        Some(p) => if p > a.initial_deposit {
            a.initial_deposit
        } else {
            p
        },
        None => a.initial_deposit,
    };
    (payment, a.initial_deposit - payment)
}

} // verus!
