use patrie_network::amount::Amount;
use patrie_network::billing::{AddonState, BillingError, PriceTable, TenantId, TenantSubscription};
use patrie_network::ident::{AccountId, AssetId};
use patrie_network::instruction::{AssetKind, AtomicBatch, Instruction};
use patrie_network::ledger::Ledger;
use patrie_network::runner::{
    AttemptStep, BillingAccounts, BillingBook, BillingFailure, BillingPeriod, BillingStep,
    ConcludeError, RunKey, RunState,
};
use patrie_network::settlement::{FailureKind, RetryPolicy, SettlementError};
use patrie_network::tiers::ServiceTier;

fn tenant(value: u128) -> TenantId {
    TenantId { value }
}

fn subscription(value: u128) -> TenantSubscription {
    TenantSubscription {
        tenant: tenant(value),
        tier: ServiceTier::Professional,
        base_fee: Some(250_000),
        health: AddonState { active: true, wholesale_cost: Some(40_000) },
        retirement: AddonState { active: false, wholesale_cost: None },
        crime: AddonState { active: false, wholesale_cost: None },
    }
}

fn january() -> BillingPeriod {
    BillingPeriod { year: 2026, month: 1 }
}

fn february() -> BillingPeriod {
    BillingPeriod { year: 2026, month: 2 }
}

fn policy() -> RetryPolicy {
    RetryPolicy { max_attempts: 3, base_delay_ms: 1_000, max_delay_ms: 60_000 }
}

fn accounts() -> BillingAccounts {
    BillingAccounts {
        funding: AccountId::parse("tenant@bank").unwrap(),
        revenue: AccountId::parse("platform@bank").unwrap(),
        currency: AssetId::parse("usd#bank").unwrap(),
    }
}

fn bank(funds: u64) -> Ledger {
    let accounts = accounts();
    let mut ledger = Ledger::new();
    let setup = AtomicBatch::from_instructions(vec![
        Instruction::RegisterAccount { account: accounts.funding.clone() },
        Instruction::RegisterAccount { account: accounts.revenue.clone() },
        Instruction::RegisterAsset { asset: accounts.currency.clone(), kind: AssetKind::Numeric },
        Instruction::Mint { to: accounts.funding.clone(), amount: Amount::new(funds, accounts.currency.clone()) },
    ])
    .unwrap();
    ledger.submit(&setup).unwrap();
    ledger
}

fn held(ledger: &Ledger) -> (u64, u64) {
    let accounts = accounts();
    (
        ledger.balance_of(&accounts.funding, &accounts.currency),
        ledger.balance_of(&accounts.revenue, &accounts.currency),
    )
}

#[test]
fn the_first_invocation_records_a_pending_run_with_its_invoice() {
    let mut book = BillingBook::new();
    let key = RunKey { tenant: tenant(1), period: january() };
    assert!(book.lookup(key).is_none());
    let step = book.begin(january(), &subscription(1), &PriceTable::standard()).unwrap();
    assert!(matches!(step, BillingStep::Collect { total: 295_000 }));
    let run = book.lookup(key).unwrap();
    assert_eq!(run.key, key);
    assert!(matches!(run.state, RunState::Pending));
    assert_eq!(run.invoice.total, 295_000);
    assert_eq!(run.invoice.lines.len(), 3);
    assert!(book.lookup(RunKey { tenant: tenant(1), period: february() }).is_none());
    assert!(book.lookup(RunKey { tenant: tenant(2), period: january() }).is_none());
}

#[test]
fn a_second_invocation_does_not_pass_the_check() {
    let mut book = BillingBook::new();
    let prices = PriceTable::standard();
    assert!(matches!(book.begin(january(), &subscription(1), &prices), Ok(BillingStep::Collect { .. })));
    assert!(matches!(book.begin(january(), &subscription(1), &prices), Ok(BillingStep::InProgress)));
    // Other tenants and other periods are billed independently.
    assert!(matches!(book.begin(january(), &subscription(2), &prices), Ok(BillingStep::Collect { .. })));
    assert!(matches!(book.begin(february(), &subscription(1), &prices), Ok(BillingStep::Collect { .. })));
}

#[test]
fn a_settled_period_returns_its_reference_and_keeps_its_invoice() {
    let mut book = BillingBook::new();
    let key = RunKey { tenant: tenant(1), period: january() };
    book.begin(january(), &subscription(1), &PriceTable::standard()).unwrap();
    assert_eq!(book.conclude(key, Ok("pay_123".to_string()), 0, &policy()), Ok(AttemptStep::Settled));
    let mut changed = subscription(1);
    changed.base_fee = Some(1);
    let again = book.begin(january(), &changed, &PriceTable::standard()).unwrap();
    assert!(matches!(again, BillingStep::AlreadySettled { reference } if reference == "pay_123"));
    let run = book.lookup(key).unwrap();
    assert!(matches!(run.state, RunState::Succeeded { reference } if reference == "pay_123"));
    assert_eq!(run.invoice.total, 295_000);
}

#[test]
fn a_run_is_concluded_once() {
    let mut book = BillingBook::new();
    let key = RunKey { tenant: tenant(1), period: january() };
    assert_eq!(book.conclude(key, Ok("x".to_string()), 0, &policy()), Err(ConcludeError::NoSuchRun));
    book.begin(january(), &subscription(1), &PriceTable::standard()).unwrap();
    assert_eq!(book.conclude(key, Ok("first".to_string()), 0, &policy()), Ok(AttemptStep::Settled));
    assert_eq!(book.conclude(key, Ok("second".to_string()), 0, &policy()), Err(ConcludeError::NotPending));
    assert_eq!(
        book.conclude(key, Err(SettlementError::InsufficientFunds), 1, &policy()),
        Err(ConcludeError::NotPending)
    );
    assert!(matches!(book.lookup(key).unwrap().state, RunState::Succeeded { reference } if reference == "first"));
}

#[test]
fn a_permanent_failure_fails_the_run_for_good() {
    let mut book = BillingBook::new();
    let key = RunKey { tenant: tenant(1), period: january() };
    let prices = PriceTable::standard();
    book.begin(january(), &subscription(1), &prices).unwrap();
    assert_eq!(
        book.conclude(key, Err(SettlementError::InsufficientFunds), 1, &policy()),
        Ok(AttemptStep::Failed { error: SettlementError::InsufficientFunds })
    );
    assert!(matches!(
        book.begin(january(), &subscription(1), &prices),
        Ok(BillingStep::FailedBefore { error: SettlementError::InsufficientFunds })
    ));
    assert_eq!(book.conclude(key, Ok("late".to_string()), 1, &policy()), Err(ConcludeError::NotPending));
    assert!(matches!(
        book.lookup(key).unwrap().state,
        RunState::Failed { error: SettlementError::InsufficientFunds }
    ));
}

#[test]
fn a_transient_failure_is_retried_with_backoff_until_exhausted() {
    let mut book = BillingBook::new();
    let key = RunKey { tenant: tenant(1), period: january() };
    book.begin(january(), &subscription(1), &PriceTable::standard()).unwrap();
    let down = SettlementError::LedgerUnavailable;
    assert_eq!(book.conclude(key, Err(down), 1, &policy()), Ok(AttemptStep::RetryAfter { delay_ms: 1_000 }));
    assert!(matches!(book.lookup(key).unwrap().state, RunState::Pending));
    assert_eq!(book.conclude(key, Err(down), 2, &policy()), Ok(AttemptStep::RetryAfter { delay_ms: 2_000 }));
    assert_eq!(book.conclude(key, Err(down), 3, &policy()), Ok(AttemptStep::Failed { error: down }));
    assert!(matches!(book.lookup(key).unwrap().state, RunState::Failed { error } if error == down));
    assert_eq!(book.conclude(key, Err(down), 4, &policy()), Err(ConcludeError::NotPending));
}

#[test]
fn an_invoice_that_overflows_records_nothing() {
    let mut book = BillingBook::new();
    let mut sub = subscription(1);
    sub.base_fee = Some(u64::MAX);
    assert!(matches!(book.begin(january(), &sub, &PriceTable::standard()), Err(BillingError::TotalOverflow)));
    assert!(book.lookup(RunKey { tenant: tenant(1), period: january() }).is_none());
    let mut ledger = bank(1_000_000);
    assert_eq!(
        book.run_billing(&mut ledger, &accounts(), january(), &sub, &PriceTable::standard()),
        Err(BillingFailure::Invoice { cause: BillingError::TotalOverflow })
    );
    assert_eq!(held(&ledger), (1_000_000, 0));
}

#[test]
fn billing_twice_collects_once() {
    let mut book = BillingBook::new();
    let mut ledger = bank(1_000_000);
    let prices = PriceTable::standard();
    let first = book.run_billing(&mut ledger, &accounts(), january(), &subscription(1), &prices).unwrap();
    assert_eq!(first, "2");
    assert_eq!(held(&ledger), (705_000, 295_000));
    assert_eq!(ledger.committed(), 2);
    let second = book.run_billing(&mut ledger, &accounts(), january(), &subscription(1), &prices).unwrap();
    assert_eq!(second, first);
    assert_eq!(held(&ledger), (705_000, 295_000));
    assert_eq!(ledger.committed(), 2);
    let next = book.run_billing(&mut ledger, &accounts(), february(), &subscription(1), &prices).unwrap();
    assert_eq!(next, "3");
    assert_eq!(held(&ledger), (410_000, 590_000));
}

#[test]
fn a_refused_collection_is_not_tried_again() {
    let mut book = BillingBook::new();
    let mut ledger = bank(294_999);
    let prices = PriceTable::standard();
    assert_eq!(
        book.run_billing(&mut ledger, &accounts(), january(), &subscription(1), &prices),
        Err(BillingFailure::Failed { error: SettlementError::InsufficientFunds })
    );
    assert_eq!(held(&ledger), (294_999, 0));
    // Even once the account is funded, the failed run stays failed.
    let accounts = accounts();
    ledger
        .submit(&AtomicBatch::new(Instruction::Mint {
            to: accounts.funding.clone(),
            amount: Amount::new(1_000_000, accounts.currency.clone()),
        }))
        .unwrap();
    assert_eq!(
        book.run_billing(&mut ledger, &accounts, january(), &subscription(1), &prices),
        Err(BillingFailure::FailedBefore { error: SettlementError::InsufficientFunds })
    );
    assert_eq!(held(&ledger), (1_294_999, 0));
}

#[test]
fn a_run_in_other_hands_is_a_conflict() {
    let mut book = BillingBook::new();
    let mut ledger = bank(1_000_000);
    let prices = PriceTable::standard();
    book.begin(january(), &subscription(1), &prices).unwrap();
    let outcome = book.run_billing(&mut ledger, &accounts(), january(), &subscription(1), &prices);
    assert_eq!(outcome, Err(BillingFailure::InProgress));
    assert_eq!(held(&ledger), (1_000_000, 0));
}

#[test]
fn billing_failures_are_reported_by_kind() {
    assert_eq!(BillingFailure::InProgress.kind(), FailureKind::ConcurrencyConflict);
    assert_eq!(
        BillingFailure::Invoice { cause: BillingError::TotalOverflow }.kind(),
        FailureKind::DataAnomaly
    );
    assert_eq!(
        BillingFailure::Failed { error: SettlementError::InsufficientFunds }.kind(),
        FailureKind::InsufficientFunds
    );
    assert_eq!(
        BillingFailure::FailedBefore { error: SettlementError::RejectedByLedger }.kind(),
        FailureKind::RailRejected
    );
}

#[test]
fn a_book_is_restored_with_one_run_per_key() {
    let mut source = BillingBook::new();
    source.begin(january(), &subscription(1), &PriceTable::standard()).unwrap();
    source.begin(february(), &subscription(1), &PriceTable::standard()).unwrap();
    let january_key = RunKey { tenant: tenant(1), period: january() };
    let february_key = RunKey { tenant: tenant(1), period: february() };
    source.conclude(january_key, Ok("pay_1".to_string()), 0, &policy()).unwrap();
    let pending = source.lookup(february_key).unwrap();
    let settled = source.lookup(january_key).unwrap();
    let mut later = pending.clone();
    later.state = RunState::Failed { error: SettlementError::RejectedByLedger };
    let mut book = BillingBook::restore(vec![pending, settled, later]);
    assert!(matches!(book.lookup(january_key).unwrap().state, RunState::Succeeded { reference } if reference == "pay_1"));
    assert!(matches!(
        book.lookup(february_key).unwrap().state,
        RunState::Failed { error: SettlementError::RejectedByLedger }
    ));
    assert!(matches!(
        book.begin(january(), &subscription(1), &PriceTable::standard()),
        Ok(BillingStep::AlreadySettled { reference }) if reference == "pay_1"
    ));
    assert!(BillingBook::restore(vec![]).lookup(january_key).is_none());
}

#[test]
fn a_run_state_says_what_comes_next() {
    assert!(matches!(RunState::Pending.step(), BillingStep::InProgress));
    assert!(matches!(
        RunState::Succeeded { reference: "r".to_string() }.step(),
        BillingStep::AlreadySettled { reference } if reference == "r"
    ));
    assert!(matches!(
        RunState::Failed { error: SettlementError::UnknownAccount }.step(),
        BillingStep::FailedBefore { error: SettlementError::UnknownAccount }
    ));
    assert!(matches!(
        RunState::Pending.conclude(Ok("r".to_string()), 0, &policy()),
        Ok((RunState::Succeeded { reference }, AttemptStep::Settled)) if reference == "r"
    ));
    assert!(matches!(
        RunState::Pending.conclude(Err(SettlementError::LedgerUnavailable), 2, &policy()),
        Ok((RunState::Pending, AttemptStep::RetryAfter { delay_ms: 2_000 }))
    ));
    assert!(matches!(
        RunState::Pending.conclude(Err(SettlementError::UnknownAsset), 1, &policy()),
        Ok((
            RunState::Failed { error: SettlementError::UnknownAsset },
            AttemptStep::Failed { error: SettlementError::UnknownAsset }
        ))
    ));
    assert!(matches!(
        RunState::Failed { error: SettlementError::UnknownAsset }.conclude(Ok("r".to_string()), 0, &policy()),
        Err(ConcludeError::NotPending)
    ));
    assert!(matches!(
        RunState::Succeeded { reference: "r".to_string() }.conclude(Err(SettlementError::UnknownAsset), 1, &policy()),
        Err(ConcludeError::NotPending)
    ));
}
