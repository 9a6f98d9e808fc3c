//! Outcomes of a settlement and how failures are classified.

use vstd::prelude::*;

verus! {

/// Why a batch was not settled.
#[derive(Clone, Copy, Debug, PartialEq, Eq, Structural)]
pub enum SettlementError {
    /// A source balance is smaller than the amount to move.
    InsufficientFunds,
    /// An instruction names an account the ledger does not know.
    UnknownAccount,
    /// An instruction names an asset the ledger does not know.
    UnknownAsset,
    /// The ledger could not be reached; the batch was not applied.
    LedgerUnavailable,
    /// The ledger refused the batch for good.
    RejectedByLedger,
}

/// The kinds of failure that callers of the engine tell apart.
#[derive(Clone, Copy, Debug, PartialEq, Eq, Structural)]
pub enum FailureKind {
    InsufficientFunds,
    UnknownAccountOrAsset,
    /// The rail could not be reached; a later attempt may succeed.
    RailUnavailable,
    /// The rail refused for good.
    RailRejected,
    /// A claim or a check-and-insert lost the race.
    ConcurrencyConflict,
    /// Stored data was incomplete; a default was used.
    DataAnomaly,
}

impl SettlementError {
    /// A transient failure may be retried by the caller; any other is final.
    pub open spec fn transient(self) -> bool {
        self == SettlementError::LedgerUnavailable
    }

    /// The failure kind under which the error is reported.
    pub open spec fn failure_kind(self) -> FailureKind {
        match self {
            SettlementError::InsufficientFunds => FailureKind::InsufficientFunds,
            SettlementError::UnknownAccount => FailureKind::UnknownAccountOrAsset,
            SettlementError::UnknownAsset => FailureKind::UnknownAccountOrAsset,
            SettlementError::LedgerUnavailable => FailureKind::RailUnavailable,
            SettlementError::RejectedByLedger => FailureKind::RailRejected,
        }
    }

    pub fn is_transient(&self) -> (r: bool)
        ensures
            r == self.transient(),
    {
        match self {
            SettlementError::LedgerUnavailable => true,
            _ => false,
        }
    }

    pub fn kind(&self) -> (r: FailureKind)
        ensures
            r == self.failure_kind(),
    {
        match self {
            SettlementError::InsufficientFunds => FailureKind::InsufficientFunds,
            SettlementError::UnknownAccount => FailureKind::UnknownAccountOrAsset,
            SettlementError::UnknownAsset => FailureKind::UnknownAccountOrAsset,
            SettlementError::LedgerUnavailable => FailureKind::RailUnavailable,
            SettlementError::RejectedByLedger => FailureKind::RailRejected,
        }
    }
}

impl FailureKind {
    /// Failures that end a run or a request for good and need an operator.
    pub open spec fn terminal(self) -> bool {
        self == FailureKind::InsufficientFunds || self == FailureKind::UnknownAccountOrAsset
            || self == FailureKind::RailRejected
    }

    /// Failures that are handled where they arise and never shown to a user.
    pub open spec fn handled_locally(self) -> bool {
        self == FailureKind::ConcurrencyConflict
    }

    pub fn is_terminal(&self) -> (r: bool)
        ensures
            r == self.terminal(),
    {
        match self {
            FailureKind::InsufficientFunds => true,
            FailureKind::UnknownAccountOrAsset => true,
            FailureKind::RailRejected => true,
            _ => false,
        }
    }

    pub fn is_handled_locally(&self) -> (r: bool)
        ensures
            r == self.handled_locally(),
    {
        match self {
            FailureKind::ConcurrencyConflict => true,
            _ => false,
        }
    }
}

/// `base` doubled `times` times.
pub open spec fn doubled(base: nat, times: nat) -> nat
    decreases times,
{
    if times == 0 {
        base
    } else {
        2 * doubled(base, (times - 1) as nat)
    }
}

/// Delay before the attempt that follows the `failures`-th failure: the base
/// delay doubled once per earlier failure, and never more than `cap`. Before
/// any failure there is nothing to wait for.
pub open spec fn backoff_delay(base: nat, cap: nat, failures: nat) -> nat {
    if failures == 0 {
        0
    } else if doubled(base, (failures - 1) as nat) < cap {
        doubled(base, (failures - 1) as nat)
    } else {
        cap
    }
}

/// What to do after a failed attempt.
#[derive(Clone, Copy, Debug, PartialEq, Eq, Structural)]
pub enum RetryDecision {
    /// Try again after waiting this many milliseconds.
    RetryAfter { delay_ms: u64 },
    /// Do not try again.
    GiveUp,
}

/// Bounded exponential backoff.
#[derive(Clone, Copy, Debug, PartialEq, Eq, Structural)]
pub struct RetryPolicy {
    /// Attempts allowed in all, the first one included.
    pub max_attempts: u32,
    /// Delay after the first failure, in milliseconds.
    pub base_delay_ms: u64,
    /// Longest delay, in milliseconds.
    pub max_delay_ms: u64,
}

proof fn lemma_doubled_monotonic(base: nat, i: nat, j: nat)
    requires
        i <= j,
    ensures
        doubled(base, i) <= doubled(base, j),
    decreases j,
{
    if i < j {
        lemma_doubled_monotonic(base, i, (j - 1) as nat);
    }
}

impl RetryPolicy {
    /// The decision after `failures` failed attempts, the last with `error`.
    pub open spec fn decision(self, error: SettlementError, failures: u32) -> RetryDecision {
        if error.transient() && 1 <= failures < self.max_attempts {
            RetryDecision::RetryAfter {
                delay_ms: backoff_delay(
                    self.base_delay_ms as nat,
                    self.max_delay_ms as nat,
                    failures as nat,
                ) as u64,
            }
        } else {
            RetryDecision::GiveUp
        }
    }

    /// The delay after `failures` failures.
    pub fn delay_after(&self, failures: u32) -> (delay_ms: u64)
        ensures
            delay_ms == backoff_delay(
                self.base_delay_ms as nat,
                self.max_delay_ms as nat,
                failures as nat,
            ),
    {
        let cap = self.max_delay_ms;
        let base = self.base_delay_ms;
        if failures == 0 {
            return 0;
        }
        if base >= cap {
            proof {
                lemma_doubled_monotonic(base as nat, 0, (failures - 1) as nat);
            }
            return cap;
        }
        if base == 0 {
            proof {
                lemma_doubled_zero((failures - 1) as nat);
            }
            return 0;
        }
        let mut delay: u64 = base;
        let mut i: u32 = 1;
        while i < failures
            invariant
                1 <= i <= failures,
                cap == self.max_delay_ms,
                base == self.base_delay_ms,
                0 < delay < cap,
                delay == doubled(base as nat, (i - 1) as nat),
            decreases failures - i,
        {
            if delay >= cap - delay {
                proof {
                    assert(doubled(base as nat, i as nat) == 2 * delay);
                    lemma_doubled_monotonic(base as nat, i as nat, (failures - 1) as nat);
                }
                return cap;
            }
            delay = delay + delay;
            i += 1;
        }
        delay
    }

    /// Decides whether to retry after `failures` failed attempts, the last
    /// with `error`. Only a transient error is retried, and only while fewer
    /// than `max_attempts` attempts were made.
    pub fn decide(&self, error: SettlementError, failures: u32) -> (r: RetryDecision)
        ensures
            r == self.decision(error, failures),
    {
        if error.is_transient() && failures >= 1 && failures < self.max_attempts {
            RetryDecision::RetryAfter { delay_ms: self.delay_after(failures) }
        } else {
            RetryDecision::GiveUp
        }
    }
}

proof fn lemma_doubled_zero(times: nat)
    ensures
        doubled(0, times) == 0,
    decreases times,
{
    if times > 0 {
        lemma_doubled_zero((times - 1) as nat);
    }
}

/// Whatever the policy and the history, an attempt is retried only on a
/// transient error, and never once `max_attempts` attempts have failed.
pub proof fn lemma_retries_are_bounded(policy: RetryPolicy, error: SettlementError, failures: u32)
    ensures
        !error.transient() ==> policy.decision(error, failures) == RetryDecision::GiveUp,
        failures >= policy.max_attempts ==> policy.decision(error, failures)
            == RetryDecision::GiveUp,
        policy.decision(error, failures) matches RetryDecision::RetryAfter { delay_ms }
            ==> delay_ms <= policy.max_delay_ms,
{
}

} // verus!
