use ad_escrow::machine::AdContract;
use ad_escrow::types::{Address, AdvertisementContract, ContractState, Error, INITIAL_DEPOSIT};

const ADV: Address = Address { id: 1 };
const ESC: Address = Address { id: 2 };
const PUB: Address = Address { id: 3 };
const TOK: Address = Address { id: 4 };

/// A machine initialized at time 0 with the documented example setup:
/// deposit 100000000, baseline 1000 views, 50000 per incremental view,
/// period ending at 100.
fn example_machine() -> AdContract {
    let mut c = AdContract::new();
    let r = c.initialize(0, ADV, ESC, PUB, 100, 50000, 1000, TOK);
    assert_eq!(r, Ok(()));
    c
}

#[test]
fn initialize_creates_active_agreement() {
    let c = example_machine();
    let a = c.get_contract_details().unwrap();
    assert_eq!(a.advertiser, ADV);
    assert_eq!(a.escrow, ESC);
    assert_eq!(a.publisher, PUB);
    assert_eq!(a.end_timestamp, 100);
    assert_eq!(a.initial_deposit, INITIAL_DEPOSIT);
    assert_eq!(a.pay_per_view, 50000);
    assert_eq!(a.initial_views, 1000);
    assert_eq!(a.final_views, 0);
    assert!(!a.payment_done);
    assert_eq!(a.state, ContractState::Active);
    assert_eq!(a.token_id, TOK);
}

#[test]
fn initialize_rejects_period_not_in_future() {
    let mut c = AdContract::new();
    let r = c.initialize(100, ADV, ESC, PUB, 100, 50000, 1000, TOK);
    assert_eq!(r, Err(Error::ContractPeriodNotEnded));
    assert_eq!(c.get_contract_details(), Err(Error::NotInitialized));
}

#[test]
fn second_initialize_fails_and_preserves_record() {
    let mut c = example_machine();
    let before = c.get_contract_details().unwrap();
    let r = c.initialize(0, PUB, ADV, ESC, 999, 7, 5, TOK);
    assert_eq!(r, Err(Error::AlreadyInitialized));
    assert_eq!(c.get_contract_details().unwrap(), before);
}

#[test]
fn operations_before_initialize_report_not_initialized() {
    let mut c = AdContract::new();
    assert_eq!(c.finalize_views(100, ESC, 2000), Err(Error::NotInitialized));
    assert_eq!(c.execute_payments(100, ESC), Err(Error::NotInitialized));
    assert_eq!(c.get_contract_details(), Err(Error::NotInitialized));
    assert_eq!(c.calculate_payment(), Err(Error::NotInitialized));
}

#[test]
fn finalize_views_stores_attested_count() {
    let mut c = example_machine();
    assert_eq!(c.finalize_views(100, ESC, 3000), Ok(()));
    assert_eq!(c.get_contract_details().unwrap().final_views, 3000);
}

#[test]
fn finalize_views_rejects_count_below_baseline() {
    let mut c = example_machine();
    let r = c.finalize_views(100, ESC, 999);
    assert_eq!(r, Err(Error::FinalViewsLessThanInitial));
    assert_eq!(c.get_contract_details().unwrap().final_views, 0);
}

#[test]
fn finalize_views_rejects_before_period_end() {
    let mut c = example_machine();
    assert_eq!(c.finalize_views(99, ESC, 3000), Err(Error::ContractPeriodNotEnded));
    assert_eq!(c.get_contract_details().unwrap().final_views, 0);
}

#[test]
fn finalize_views_rejects_foreign_caller() {
    let mut c = example_machine();
    assert_eq!(c.finalize_views(100, ADV, 3000), Err(Error::Unauthorized));
    assert_eq!(c.finalize_views(100, Address { id: 77 }, 3000), Err(Error::Unauthorized));
    assert_eq!(c.get_contract_details().unwrap().final_views, 0);
}

#[test]
fn finalize_views_overwrites_before_settlement() {
    let mut c = example_machine();
    assert_eq!(c.finalize_views(100, ESC, 3000), Ok(()));
    assert_eq!(c.finalize_views(120, ESC, 1500), Ok(()));
    assert_eq!(c.get_contract_details().unwrap().final_views, 1500);
}

#[test]
fn full_payout_when_raw_payment_reaches_deposit() {
    let mut c = example_machine();
    assert_eq!(c.finalize_views(100, ESC, 3000), Ok(()));
    // 2000 incremental views at 50000 each: exactly the deposit, no refund.
    assert_eq!(c.calculate_payment(), Ok((100000000, 0)));
    assert_eq!(c.execute_payments(100, ESC), Ok((100000000, 0)));
}

#[test]
fn partial_payout_splits_deposit() {
    let mut c = example_machine();
    assert_eq!(c.finalize_views(100, ESC, 1500), Ok(()));
    // 500 incremental views at 50000 each.
    assert_eq!(c.calculate_payment(), Ok((25000000, 75000000)));
    let (payment, refund) = c.execute_payments(100, ESC).unwrap();
    assert_eq!((payment, refund), (25000000, 75000000));
    assert_eq!(payment + refund, INITIAL_DEPOSIT);
}

#[test]
fn no_incremental_views_refunds_everything() {
    let mut c = example_machine();
    assert_eq!(c.finalize_views(100, ESC, 1000), Ok(()));
    // Equal to the baseline: full refund, computed without settlement.
    assert_eq!(c.calculate_payment(), Ok((0, 100000000)));
}

#[test]
fn calculate_payment_before_attestation_projects_full_refund() {
    let c = example_machine();
    assert_eq!(c.calculate_payment(), Ok((0, 100000000)));
}

#[test]
fn raw_payment_above_deposit_is_capped() {
    let mut c = AdContract::new();
    assert_eq!(c.initialize(0, ADV, ESC, PUB, 100, 60000, 1000, TOK), Ok(()));
    assert_eq!(c.finalize_views(100, ESC, 3000), Ok(()));
    // 2000 views at 60000 would be 120000000; capped at the deposit.
    assert_eq!(c.execute_payments(100, ESC), Ok((100000000, 0)));
}

#[test]
fn huge_price_overflows_into_the_cap() {
    let mut c = AdContract::new();
    assert_eq!(c.initialize(0, ADV, ESC, PUB, 100, i128::MAX, 1000, TOK), Ok(()));
    assert_eq!(c.finalize_views(100, ESC, 1002), Ok(()));
    // 2 views at i128::MAX each does not fit the type; the cap still holds.
    assert_eq!(c.calculate_payment(), Ok((100000000, 0)));
    assert_eq!(c.execute_payments(100, ESC), Ok((100000000, 0)));
}

#[test]
fn settlement_completes_the_agreement() {
    let mut c = example_machine();
    assert_eq!(c.finalize_views(100, ESC, 1500), Ok(()));
    assert_eq!(c.execute_payments(100, ESC), Ok((25000000, 75000000)));
    let a = c.get_contract_details().unwrap();
    assert!(a.payment_done);
    assert_eq!(a.state, ContractState::Completed);
}

#[test]
fn settlement_runs_only_once() {
    let mut c = example_machine();
    assert_eq!(c.finalize_views(100, ESC, 1500), Ok(()));
    assert_eq!(c.execute_payments(100, ESC), Ok((25000000, 75000000)));
    let before = c.get_contract_details().unwrap();
    // The agreement has left the Active state, which is checked before the
    // settlement flag, so a repeat reports ContractNotActive.
    assert_eq!(c.execute_payments(100, ESC), Err(Error::ContractNotActive));
    assert_eq!(c.execute_payments(500, ESC), Err(Error::ContractNotActive));
    assert_eq!(c.get_contract_details().unwrap(), before);
}

#[test]
fn no_attestation_after_settlement() {
    let mut c = example_machine();
    assert_eq!(c.finalize_views(100, ESC, 1500), Ok(()));
    assert_eq!(c.execute_payments(100, ESC), Ok((25000000, 75000000)));
    assert_eq!(c.finalize_views(100, ESC, 4000), Err(Error::ContractNotActive));
    assert_eq!(c.get_contract_details().unwrap().final_views, 1500);
}

#[test]
fn execute_payments_rejects_before_period_end() {
    let mut c = example_machine();
    // Unattested and attested alike: the period end is checked first.
    assert_eq!(c.execute_payments(99, ESC), Err(Error::ContractPeriodNotEnded));
    assert_eq!(c.finalize_views(100, ESC, 1500), Ok(()));
    assert_eq!(c.execute_payments(42, ESC), Err(Error::ContractPeriodNotEnded));
}

#[test]
fn execute_payments_rejects_without_attestation() {
    let mut c = example_machine();
    assert_eq!(c.execute_payments(100, ESC), Err(Error::ContractNotActive));
}

#[test]
fn execute_payments_rejects_foreign_caller() {
    let mut c = example_machine();
    assert_eq!(c.finalize_views(100, ESC, 1500), Ok(()));
    assert_eq!(c.execute_payments(100, PUB), Err(Error::Unauthorized));
    assert_eq!(c.execute_payments(100, Address { id: 77 }), Err(Error::Unauthorized));
    let a = c.get_contract_details().unwrap();
    assert!(!a.payment_done);
    assert_eq!(a.state, ContractState::Active);
}

#[test]
fn restore_rebuilds_the_machine_from_its_record() {
    let mut c = example_machine();
    assert_eq!(c.finalize_views(100, ESC, 1500), Ok(()));
    let record = c.get_contract_details().unwrap();
    let mut rebuilt = AdContract::restore(record);
    assert_eq!(rebuilt.get_contract_details(), Ok(record));
    assert_eq!(rebuilt.execute_payments(100, ESC), Ok((25000000, 75000000)));
}

#[test]
fn restore_accepts_a_hand_written_record() {
    let record = AdvertisementContract {
        advertiser: ADV,
        escrow: ESC,
        publisher: PUB,
        end_timestamp: 10,
        initial_deposit: INITIAL_DEPOSIT,
        pay_per_view: 250,
        initial_views: 0,
        final_views: 400000,
        payment_done: false,
        state: ContractState::Active,
        token_id: TOK,
    };
    let mut c = AdContract::restore(record);
    assert_eq!(c.execute_payments(10, ESC), Ok((100000000, 0)));
}
