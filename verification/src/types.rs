//! Value types of the agreement: party identities, errors, lifecycle states,
//! and the persisted agreement record with its well-formedness condition.

use vstd::prelude::*;

verus! {

/// The amount escrowed at initialization, a system-wide constant of the
/// agreement: the advertiser deposits exactly this much, and settlement
/// splits exactly this much between publisher payment and advertiser refund.
pub const INITIAL_DEPOSIT: i128 = 100000000;

/// A party identity as the host's authentication layer reports it.
///
/// The state machine never inspects an identity beyond comparing it for
/// equality against the stored roles, so an identity is modelled as a plain
/// number; the host adapter maps its own identity values to these.
#[derive(Clone, Copy, Debug, PartialEq, Eq, Structural)]
pub struct Address {
    pub id: u64,
}

/// Every way an operation can fail. All failures are typed and returned to
/// the caller; a failed operation never mutates the stored record.
#[derive(Clone, Copy, Debug, PartialEq, Eq, Structural)]
pub enum Error {
    /// `initialize` was called while an agreement is already stored.
    AlreadyInitialized,
    /// An operation other than `initialize` was called before any agreement
    /// exists.
    NotInitialized,
    /// A mutating operation was called by an identity other than the stored
    /// escrow.
    Unauthorized,
    /// The agreement is not in the `Active` state, or attestation has not
    /// happened yet.
    ContractNotActive,
    /// Settlement has already executed.
    ContractEnded,
    /// The operation is only allowed once the agreement period has ended,
    /// or — for `initialize` — the period would not lie in the future.
    ContractPeriodNotEnded,
    /// The attested view count is below the baseline.
    FinalViewsLessThanInitial,
}

/// Lifecycle phase of the agreement: `Active` from initialization until
/// settlement, `Completed` afterwards and forever.
#[derive(Clone, Copy, Debug, PartialEq, Eq, Structural)]
pub enum ContractState {
    Active,
    Completed,
}

/// The persisted agreement record: created once by `initialize`, mutated by
/// `finalize_views` and `execute_payments`, never deleted.
#[derive(Clone, Copy, Debug, PartialEq, Eq, Structural)]
pub struct AdvertisementContract {
    /// Funder of the deposit; receives any refund.
    pub advertiser: Address,
    /// Sole party authorized to attest views and trigger payout.
    pub escrow: Address,
    /// Recipient of the per-view payment.
    pub publisher: Address,
    /// End of the agreement period, in seconds; no attestation or payout
    /// before this time.
    pub end_timestamp: u64,
    /// Total funds escrowed at initialization.
    pub initial_deposit: i128,
    /// Price paid per incremental view above the baseline.
    pub pay_per_view: i128,
    /// Baseline view count at the start of the period.
    pub initial_views: u64,
    /// Attested view count at the end of the period; 0 until attested.
    pub final_views: u64,
    /// True once settlement has executed; guards against a second payout.
    pub payment_done: bool,
    /// Lifecycle phase.
    pub state: ContractState,
    /// Which token ledger asset the agreement is denominated in.
    pub token_id: Address,
}

/// Well-formedness of a stored record. Initialization establishes it and
/// every operation preserves it: amounts are non-negative, an attested view
/// count never lies below the baseline, and the settlement flag and the
/// lifecycle state move together.
pub open spec fn valid_agreement(a: AdvertisementContract) -> bool {
    &&& a.initial_deposit >= 0
    &&& a.pay_per_view >= 0
    &&& a.final_views == 0 || a.final_views >= a.initial_views
    &&& (a.payment_done <==> a.state == ContractState::Completed)
}

} // verus!
