//! The billing runner: at most one collection per tenant and period.
//!
//! A run is recorded as pending, together with its invoice, before any money
//! moves, and it leaves the pending state exactly once. A period that was
//! settled is never collected again.

use vstd::prelude::*;
use crate::amount::Amount;
use crate::billing::{
    compute_invoice, BillingError, Invoice, InvoiceView, PriceTable, TenantId, TenantSubscription,
};
use crate::ident::{AccountId, AssetId};
use crate::instruction::InstructionView;
use crate::ledger::{Ledger, LedgerView};
use crate::settlement::{FailureKind, RetryDecision, RetryPolicy, SettlementError};
use crate::table::{Keyed, Modeled, Table};
use crate::text::{decimal, decimal_string};

verus! {

/// A calendar month for which a tenant is billed.
#[derive(Clone, Copy, Debug, PartialEq, Eq, Structural)]
pub struct BillingPeriod {
    pub year: u16,
    pub month: u8,
}

/// The unique key of a billing run.
#[derive(Clone, Copy, Debug, PartialEq, Eq, Structural)]
pub struct RunKey {
    pub tenant: TenantId,
    pub period: BillingPeriod,
}

impl Modeled for RunKey {
    type Model = RunKey;

    open spec fn model(&self) -> RunKey {
        *self
    }

    fn duplicate(&self) -> (r: Self) {
        *self
    }
}

impl Keyed for RunKey {
    fn same(&self, other: &Self) -> (r: bool) {
        self.tenant.value == other.tenant.value && self.period.year == other.period.year
            && self.period.month == other.period.month
    }
}

/// Where a billing run stands.
#[derive(Debug)]
pub enum RunState {
    /// Recorded; the collection has not been concluded.
    Pending,
    /// Collected; `reference` is the rail's transaction reference.
    Succeeded { reference: String },
    /// Not collected, for good.
    Failed { error: SettlementError },
}

/// Mathematical value of a [`RunState`].
pub enum RunStateView {
    Pending,
    Succeeded { reference: Seq<char> },
    Failed { error: SettlementError },
}

impl View for RunState {
    type V = RunStateView;

    open spec fn view(&self) -> RunStateView {
        match self {
            RunState::Pending => RunStateView::Pending,
            RunState::Succeeded { reference } => RunStateView::Succeeded { reference: reference@ },
            RunState::Failed { error } => RunStateView::Failed { error: *error },
        }
    }
}

impl Clone for RunState {
    fn clone(&self) -> (r: Self)
        ensures
            r@ == self@,
    {
        match self {
            RunState::Pending => RunState::Pending,
            RunState::Succeeded { reference } => RunState::Succeeded {
                reference: reference.clone(),
            },
            RunState::Failed { error } => RunState::Failed { error: *error },
        }
    }
}

/// One billing run: the invoice of a tenant for a period, and its state.
#[derive(Debug)]
pub struct BillingRun {
    pub key: RunKey,
    pub invoice: Invoice,
    pub state: RunState,
}

/// Mathematical value of a [`BillingRun`].
pub struct BillingRunView {
    pub key: RunKey,
    pub invoice: InvoiceView,
    pub state: RunStateView,
}

impl View for BillingRun {
    type V = BillingRunView;

    open spec fn view(&self) -> BillingRunView {
        BillingRunView { key: self.key, invoice: self.invoice@, state: self.state@ }
    }
}

impl Clone for BillingRun {
    fn clone(&self) -> (r: Self)
        ensures
            r@ == self@,
    {
        BillingRun { key: self.key, invoice: self.invoice.clone(), state: self.state.clone() }
    }
}

impl Modeled for BillingRun {
    type Model = BillingRunView;

    open spec fn model(&self) -> BillingRunView {
        self@
    }

    fn duplicate(&self) -> (r: Self) {
        self.clone()
    }
}

/// What the caller of [`BillingBook::begin`] has to do.
#[derive(Debug)]
pub enum BillingStep {
    /// A pending run was recorded: collect `total` minor units.
    Collect { total: u64 },
    /// The period was settled before; nothing is to be collected.
    AlreadySettled { reference: String },
    /// Another invocation recorded the run and has not concluded it.
    InProgress,
    /// The run failed before; it is not retried without an operator.
    FailedBefore { error: SettlementError },
}

/// Mathematical value of a [`BillingStep`].
pub enum BillingStepView {
    Collect { total: u64 },
    AlreadySettled { reference: Seq<char> },
    InProgress,
    FailedBefore { error: SettlementError },
}

impl View for BillingStep {
    type V = BillingStepView;

    open spec fn view(&self) -> BillingStepView {
        match self {
            BillingStep::Collect { total } => BillingStepView::Collect { total: *total },
            BillingStep::AlreadySettled { reference } => BillingStepView::AlreadySettled {
                reference: reference@,
            },
            BillingStep::InProgress => BillingStepView::InProgress,
            BillingStep::FailedBefore { error } => BillingStepView::FailedBefore { error: *error },
        }
    }
}

/// How an attempt to collect was recorded.
#[derive(Clone, Copy, Debug, PartialEq, Eq, Structural)]
pub enum AttemptStep {
    /// The run succeeded.
    Settled,
    /// The run stays pending; collect again after the delay.
    RetryAfter { delay_ms: u64 },
    /// The run failed for good.
    Failed { error: SettlementError },
}

/// Why an attempt could not be recorded.
#[derive(Clone, Copy, Debug, PartialEq, Eq, Structural)]
pub enum ConcludeError {
    /// No run is recorded for the tenant and period.
    NoSuchRun,
    /// The run has left the pending state already.
    NotPending,
}

/// The step that an existing run in `state` asks of a new invocation.
pub open spec fn step_for(state: RunStateView) -> BillingStepView {
    match state {
        RunStateView::Pending => BillingStepView::InProgress,
        RunStateView::Succeeded { reference } => BillingStepView::AlreadySettled { reference },
        RunStateView::Failed { error } => BillingStepView::FailedBefore { error },
    }
}

/// Check and insert in one step: an existing run decides the step and
/// nothing is recorded; where there is none, a pending run with the invoice
/// is recorded and its total is to be collected.
pub open spec fn begin_run(
    runs: Map<RunKey, BillingRunView>,
    period: BillingPeriod,
    subscription: TenantSubscription,
    prices: PriceTable,
) -> (Map<RunKey, BillingRunView>, Result<BillingStepView, BillingError>) {
    let key = RunKey { tenant: subscription.tenant, period };
    if runs.dom().contains(key) {
        (runs, Ok(step_for(runs[key].state)))
    } else if subscription.invoice_total(prices) > u64::MAX {
        (runs, Err(BillingError::TotalOverflow))
    } else {
        (
            runs.insert(
                key,
                BillingRunView {
                    key,
                    invoice: subscription.invoice(prices),
                    state: RunStateView::Pending,
                },
            ),
            Ok(BillingStepView::Collect { total: subscription.invoice_total(prices) as u64 }),
        )
    }
}

/// The runs with the run of `key` moved to `state`.
pub open spec fn with_state(
    runs: Map<RunKey, BillingRunView>,
    key: RunKey,
    state: RunStateView,
) -> Map<RunKey, BillingRunView> {
    runs.insert(key, BillingRunView { state, ..runs[key] })
}

/// What an attempt to collect makes of a pending run: success settles it;
/// a failure that the policy retries leaves it pending; any other failure
/// fails it for good.
pub open spec fn attempt(
    outcome: Result<Seq<char>, SettlementError>,
    failures: u32,
    policy: RetryPolicy,
) -> (RunStateView, AttemptStep) {
    match outcome {
        Ok(reference) => (RunStateView::Succeeded { reference }, AttemptStep::Settled),
        Err(error) => match policy.decision(error, failures) {
            RetryDecision::RetryAfter { delay_ms } => (
                RunStateView::Pending,
                AttemptStep::RetryAfter { delay_ms },
            ),
            RetryDecision::GiveUp => (
                RunStateView::Failed { error },
                AttemptStep::Failed { error },
            ),
        },
    }
}

/// The outcome of a collection, with its reference as text.
pub open spec fn outcome_view(outcome: Result<String, SettlementError>) -> Result<
    Seq<char>,
    SettlementError,
> {
    match outcome {
        Ok(reference) => Ok(reference@),
        Err(error) => Err(error),
    }
}

/// Records the outcome of an attempt to collect for the run of `key`. Only
/// a pending run takes an attempt; for any other, nothing changes.
pub open spec fn conclude_run(
    runs: Map<RunKey, BillingRunView>,
    key: RunKey,
    outcome: Result<Seq<char>, SettlementError>,
    failures: u32,
    policy: RetryPolicy,
) -> (Map<RunKey, BillingRunView>, Result<AttemptStep, ConcludeError>) {
    if !runs.dom().contains(key) {
        (runs, Err(ConcludeError::NoSuchRun))
    } else if runs[key].state != RunStateView::Pending {
        (runs, Err(ConcludeError::NotPending))
    } else {
        (
            with_state(runs, key, attempt(outcome, failures, policy).0),
            Ok(attempt(outcome, failures, policy).1),
        )
    }
}

impl RunState {
    /// What a run in this state asks of a new invocation.
    pub fn step(&self) -> (r: BillingStep)
        ensures
            r@ == step_for(self@),
    {
        match self {
            RunState::Pending => BillingStep::InProgress,
            RunState::Succeeded { reference } => BillingStep::AlreadySettled {
                reference: reference.clone(),
            },
            RunState::Failed { error } => BillingStep::FailedBefore { error: *error },
        }
    }

    /// The state after an attempt to collect, and what the caller is to do
    /// next. Only a pending run takes an attempt, so that a run leaves the
    /// pending state at most once.
    pub fn conclude(
        &self,
        outcome: Result<String, SettlementError>,
        failures: u32,
        policy: &RetryPolicy,
    ) -> (r: Result<(RunState, AttemptStep), ConcludeError>)
        ensures
            !(self@ is Pending) ==> r is Err && r->Err_0 == ConcludeError::NotPending,
            self@ is Pending ==> r is Ok && (r->Ok_0.0@, r->Ok_0.1) == attempt(
                outcome_view(outcome),
                failures,
                *policy,
            ),
    {
        match self {
            RunState::Pending => {},
            _ => {
                return Err(ConcludeError::NotPending);
            },
        }
        match outcome {
            Ok(reference) => Ok((RunState::Succeeded { reference }, AttemptStep::Settled)),
            Err(error) => match policy.decide(error, failures) {
                RetryDecision::RetryAfter { delay_ms } => Ok(
                    (RunState::Pending, AttemptStep::RetryAfter { delay_ms }),
                ),
                RetryDecision::GiveUp => Ok(
                    (RunState::Failed { error }, AttemptStep::Failed { error }),
                ),
            },
        }
    }
}

/// The runs that a list of runs stands for, each under its key: a later run
/// for a key replaces an earlier one.
pub open spec fn runs_map(runs: Seq<BillingRun>) -> Map<RunKey, BillingRunView>
    decreases runs.len(),
{
    if runs.len() == 0 {
        Map::empty()
    } else {
        runs_map(runs.drop_last()).insert(runs.last().key, runs.last()@)
    }
}

/// The billing runs on record, at most one per tenant and period.
pub struct BillingBook {
    runs: Table<RunKey, BillingRun>,
}

impl View for BillingBook {
    type V = Map<RunKey, BillingRunView>;

    closed spec fn view(&self) -> Map<RunKey, BillingRunView> {
        self.runs.map()
    }
}

impl BillingBook {
    /// A book without runs.
    pub fn new() -> (r: BillingBook)
        ensures
            r@ == Map::<RunKey, BillingRunView>::empty(),
    {
        BillingBook { runs: Table::new() }
    }

    /// The book of `runs`, as read back from a store.
    pub fn restore(runs: Vec<BillingRun>) -> (r: BillingBook)
        ensures
            r@ == runs_map(runs@),
    {
        let mut book = BillingBook::new();
        let mut i: usize = 0;
        while i < runs.len()
            invariant
                i <= runs.len(),
                book@ == runs_map(runs@.take(i as int)),
            decreases runs.len() - i,
        {
            proof {
                assert(runs@.take(i + 1).drop_last() == runs@.take(i as int));
            }
            book.runs.insert(runs[i].key, runs[i].clone());
            i += 1;
        }
        assert(runs@.take(runs.len() as int) == runs@);
        book
    }

    /// The run on record for `key`, if there is one.
    pub fn lookup(&self, key: RunKey) -> (r: Option<BillingRun>)
        ensures
            r is Some <==> self@.dom().contains(key),
            r matches Some(run) ==> run@ == self@[key],
    {
        match self.runs.get(&key) {
            Some(run) => Some(run.clone()),
            None => None,
        }
    }

    /// Starts billing `subscription` for `period`: checks for a run on
    /// record and, where there is none, records a pending run with the
    /// computed invoice, as one step.
    pub fn begin(
        &mut self,
        period: BillingPeriod,
        subscription: &TenantSubscription,
        prices: &PriceTable,
    ) -> (r: Result<BillingStep, BillingError>)
        ensures
            final(self)@ == begin_run(old(self)@, period, *subscription, *prices).0,
            match begin_run(old(self)@, period, *subscription, *prices).1 {
                Ok(step) => r is Ok && r->Ok_0@ == step,
                Err(error) => r == Err::<BillingStep, BillingError>(error),
            },
    {
        let key = RunKey { tenant: subscription.tenant, period };
        match self.runs.get(&key) {
            Some(run) => Ok(run.state.step()),
            None => {
                match compute_invoice(subscription, prices) {
                    Ok(invoice) => {
                        let total = invoice.total;
                        let state = RunState::Pending;
                        self.runs.insert(key, BillingRun { key, invoice, state });
                        Ok(BillingStep::Collect { total })
                    },
                    Err(_) => Err(BillingError::TotalOverflow),
                }
            },
        }
    }

    /// Records the outcome of an attempt to collect for the pending run of
    /// `key`, after `failures` failed attempts in all. The run leaves the
    /// pending state at most once: an attempt for a run that is not pending
    /// is refused and changes nothing.
    pub fn conclude(
        &mut self,
        key: RunKey,
        outcome: Result<String, SettlementError>,
        failures: u32,
        policy: &RetryPolicy,
    ) -> (r: Result<AttemptStep, ConcludeError>)
        ensures
            (final(self)@, r) == conclude_run(
                old(self)@,
                key,
                outcome_view(outcome),
                failures,
                *policy,
            ),
    {
        let run = match self.runs.get(&key) {
            Some(run) => run.clone(),
            None => {
                return Err(ConcludeError::NoSuchRun);
            },
        };
        match run.state.conclude(outcome, failures, policy) {
            Ok((state, step)) => {
                self.runs.insert(key, BillingRun { key: run.key, invoice: run.invoice, state });
                Ok(step)
            },
            Err(error) => Err(error),
        }
    }
}

/// The accounts between which a tenant's invoice is collected.
#[derive(Debug)]
pub struct BillingAccounts {
    /// The tenant's funding account.
    pub funding: AccountId,
    /// The platform's revenue account.
    pub revenue: AccountId,
    /// The asset in which invoices are collected.
    pub currency: AssetId,
}

/// Why an invocation of billing collected nothing.
#[derive(Clone, Copy, Debug, PartialEq, Eq, Structural)]
pub enum BillingFailure {
    /// No invoice could be computed.
    Invoice { cause: BillingError },
    /// Another invocation has the run in hand.
    InProgress,
    /// The run failed in an earlier invocation.
    FailedBefore { error: SettlementError },
    /// The collection was refused; the run is now failed.
    Failed { error: SettlementError },
}

impl BillingFailure {
    /// The failure kind under which the failure is reported.
    pub open spec fn failure_kind(self) -> FailureKind {
        match self {
            BillingFailure::Invoice { .. } => FailureKind::DataAnomaly,
            BillingFailure::InProgress => FailureKind::ConcurrencyConflict,
            BillingFailure::FailedBefore { error } => error.failure_kind(),
            BillingFailure::Failed { error } => error.failure_kind(),
        }
    }

    pub fn kind(&self) -> (r: FailureKind)
        ensures
            r == self.failure_kind(),
    {
        match self {
            BillingFailure::Invoice { .. } => FailureKind::DataAnomaly,
            BillingFailure::InProgress => FailureKind::ConcurrencyConflict,
            BillingFailure::FailedBefore { error } => error.kind(),
            BillingFailure::Failed { error } => error.kind(),
        }
    }
}

/// The batch that collects `total` minor units of an invoice.
pub open spec fn collection(
    funding: Seq<char>,
    revenue: Seq<char>,
    currency: Seq<char>,
    total: u64,
) -> Seq<InstructionView> {
    seq![
        InstructionView::Transfer {
            from: funding,
            to: revenue,
            asset: currency,
            units: total as nat,
        },
    ]
}

/// One invocation of billing against a ledger: the runs and the ledger
/// after it, and the reference of the collection or why there is none.
pub open spec fn run_billing_on(
    runs: Map<RunKey, BillingRunView>,
    ledger: LedgerView,
    funding: Seq<char>,
    revenue: Seq<char>,
    currency: Seq<char>,
    period: BillingPeriod,
    subscription: TenantSubscription,
    prices: PriceTable,
) -> (Map<RunKey, BillingRunView>, LedgerView, Result<Seq<char>, BillingFailure>) {
    let key = RunKey { tenant: subscription.tenant, period };
    let begun = begin_run(runs, period, subscription, prices);
    match begun.1 {
        Err(error) => (runs, ledger, Err(BillingFailure::Invoice { cause: error })),
        Ok(BillingStepView::AlreadySettled { reference }) => (runs, ledger, Ok(reference)),
        Ok(BillingStepView::InProgress) => (runs, ledger, Err(BillingFailure::InProgress)),
        Ok(BillingStepView::FailedBefore { error }) => (
            runs,
            ledger,
            Err(BillingFailure::FailedBefore { error }),
        ),
        Ok(BillingStepView::Collect { total }) => match ledger.commit(
            collection(funding, revenue, currency, total),
        ) {
            Ok(next) => (
                with_state(
                    begun.0,
                    key,
                    RunStateView::Succeeded { reference: decimal(next.committed as nat) },
                ),
                next,
                Ok(decimal(next.committed as nat)),
            ),
            Err(error) => (
                with_state(begun.0, key, RunStateView::Failed { error }),
                ledger,
                Err(BillingFailure::Failed { error }),
            ),
        },
    }
}

impl BillingBook {
    /// Bills `subscription` for `period` and collects the invoice on
    /// `ledger`, from the funding account to the revenue account. A period
    /// settled before is not collected again: the reference of its
    /// collection is returned and neither the book nor the ledger changes.
    /// A refused collection fails the run for good and moves nothing.
    pub fn run_billing(
        &mut self,
        ledger: &mut Ledger,
        accounts: &BillingAccounts,
        period: BillingPeriod,
        subscription: &TenantSubscription,
        prices: &PriceTable,
    ) -> (r: Result<String, BillingFailure>)
        ensures
            ({
                let expected = run_billing_on(
                    old(self)@,
                    old(ledger)@,
                    accounts.funding@,
                    accounts.revenue@,
                    accounts.currency@,
                    period,
                    *subscription,
                    *prices,
                );
                &&& final(self)@ == expected.0
                &&& final(ledger)@ == expected.1
                &&& match expected.2 {
                    Ok(reference) => r is Ok && r->Ok_0@ == reference,
                    Err(failure) => r == Err::<String, BillingFailure>(failure),
                }
            }),
    {
        let key = RunKey { tenant: subscription.tenant, period };
        let total = match self.begin(period, subscription, prices) {
            Err(error) => {
                return Err(BillingFailure::Invoice { cause: error });
            },
            Ok(BillingStep::AlreadySettled { reference }) => {
                return Ok(reference);
            },
            Ok(BillingStep::InProgress) => {
                return Err(BillingFailure::InProgress);
            },
            Ok(BillingStep::FailedBefore { error }) => {
                return Err(BillingFailure::FailedBefore { error });
            },
            Ok(BillingStep::Collect { total }) => total,
        };
        let amount = Amount::new(total, accounts.currency.clone());
        let never_retry = RetryPolicy { max_attempts: 0, base_delay_ms: 0, max_delay_ms: 0 };
        match ledger.execute_transfer(&accounts.funding, &accounts.revenue, &amount) {
            Ok(receipt) => {
                let reference = decimal_string(receipt.sequence);
                let copy = reference.clone();
                let _ = self.conclude(key, Ok(reference), 0, &never_retry);
                Ok(copy)
            },
            Err(error) => {
                let _ = self.conclude(key, Err(error), 1, &never_retry);
                Err(BillingFailure::Failed { error })
            },
        }
    }
}

/// Billing is idempotent: when an invocation returned a reference, another
/// invocation for the same tenant and period returns the same reference and
/// changes neither the runs nor the ledger, so that funds are collected once.
pub proof fn lemma_billing_is_idempotent(
    runs: Map<RunKey, BillingRunView>,
    ledger: LedgerView,
    funding: Seq<char>,
    revenue: Seq<char>,
    currency: Seq<char>,
    period: BillingPeriod,
    subscription: TenantSubscription,
    prices: PriceTable,
    later_subscription: TenantSubscription,
    later_prices: PriceTable,
)
    requires
        run_billing_on(runs, ledger, funding, revenue, currency, period, subscription, prices).2
            is Ok,
        later_subscription.tenant == subscription.tenant,
    ensures
        ({
            let first = run_billing_on(
                runs,
                ledger,
                funding,
                revenue,
                currency,
                period,
                subscription,
                prices,
            );
            run_billing_on(
                first.0,
                first.1,
                funding,
                revenue,
                currency,
                period,
                later_subscription,
                later_prices,
            ) == first
        }),
{
}

/// A failed run is never retried by a later invocation: the invocation
/// reports the earlier failure and changes neither the runs nor the ledger.
pub proof fn lemma_failed_run_is_not_retried(
    runs: Map<RunKey, BillingRunView>,
    ledger: LedgerView,
    funding: Seq<char>,
    revenue: Seq<char>,
    currency: Seq<char>,
    period: BillingPeriod,
    subscription: TenantSubscription,
    prices: PriceTable,
    error: SettlementError,
)
    requires
        run_billing_on(runs, ledger, funding, revenue, currency, period, subscription, prices).2
            == Err::<Seq<char>, BillingFailure>(BillingFailure::Failed { error }),
    ensures
        ({
            let first = run_billing_on(
                runs,
                ledger,
                funding,
                revenue,
                currency,
                period,
                subscription,
                prices,
            );
            &&& first.1 == ledger
            &&& run_billing_on(
                first.0,
                first.1,
                funding,
                revenue,
                currency,
                period,
                subscription,
                prices,
            ) == (first.0, first.1, Err::<Seq<char>, BillingFailure>(
                BillingFailure::FailedBefore { error },
            ))
        }),
{
}

/// Once a run was settled with `reference`, every later invocation for the
/// same tenant and period finds it settled with that reference, records
/// nothing and asks for no collection, whatever the subscription and the
/// prices have become.
pub proof fn lemma_settled_period_is_never_collected_again(
    runs: Map<RunKey, BillingRunView>,
    period: BillingPeriod,
    subscription: TenantSubscription,
    prices: PriceTable,
    reference: Seq<char>,
    failures: u32,
    policy: RetryPolicy,
    later_subscription: TenantSubscription,
    later_prices: PriceTable,
)
    requires
        begin_run(runs, period, subscription, prices).1 is Ok,
        begin_run(runs, period, subscription, prices).1->Ok_0 is Collect,
        later_subscription.tenant == subscription.tenant,
    ensures
        ({
            let key = RunKey { tenant: subscription.tenant, period };
            let recorded = begin_run(runs, period, subscription, prices).0;
            let settled = conclude_run(recorded, key, Ok(reference), failures, policy);
            let again = begin_run(settled.0, period, later_subscription, later_prices);
            &&& settled.1 == Ok::<AttemptStep, ConcludeError>(AttemptStep::Settled)
            &&& again.0 == settled.0
            &&& again.1 == Ok::<BillingStepView, BillingError>(
                BillingStepView::AlreadySettled { reference },
            )
        }),
{
}

/// A run leaves the pending state at most once: after an attempt was
/// recorded as settled or failed, recording another changes nothing.
pub proof fn lemma_run_is_concluded_once(
    runs: Map<RunKey, BillingRunView>,
    key: RunKey,
    outcome: Result<Seq<char>, SettlementError>,
    failures: u32,
    policy: RetryPolicy,
    later_outcome: Result<Seq<char>, SettlementError>,
    later_failures: u32,
)
    requires
        conclude_run(runs, key, outcome, failures, policy).1 is Ok,
        !(conclude_run(runs, key, outcome, failures, policy).1->Ok_0 is RetryAfter),
    ensures
        ({
            let first = conclude_run(runs, key, outcome, failures, policy);
            let second = conclude_run(first.0, key, later_outcome, later_failures, policy);
            &&& second.0 == first.0
            &&& second.1 == Err::<AttemptStep, ConcludeError>(ConcludeError::NotPending)
        }),
{
}

} // verus!
