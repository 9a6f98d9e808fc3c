//! The bridge relay: each request to move value to the other ledger is
//! released there at most once.
//!
//! A request goes from pending to processing by a claim, which only one
//! worker can win, and from processing to completed or failed. A request
//! found processing for too long is taken over, but whoever takes it over
//! must first learn from the destination ledger whether the release landed.

use vstd::prelude::*;
use crate::amount::{Amount, AmountView};
use crate::ident::AccountId;
use crate::instruction::InstructionView;
use crate::ledger::{Ledger, LedgerView};
use crate::settlement::{FailureKind, RetryDecision, RetryPolicy, SettlementError};
use crate::text::{decimal, decimal_string};

verus! {

/// Where a bridge request stands.
#[derive(Debug)]
pub enum BridgeState {
    Pending,
    /// Claimed by `worker` at `claimed_at`. `failures` releases have failed.
    /// With `verify_first`, the request was taken over from a worker that
    /// stopped, and nothing may be released before the destination ledger
    /// was asked whether the release landed.
    Processing { worker: u64, claimed_at: u64, failures: u32, verify_first: bool },
    /// Released; `reference` is the release transaction.
    Completed { reference: String },
    /// Not released, for good.
    Failed { error: SettlementError },
}

/// Mathematical value of a [`BridgeState`].
pub enum BridgeStateView {
    Pending,
    Processing { worker: u64, claimed_at: u64, failures: u32, verify_first: bool },
    Completed { reference: Seq<char> },
    Failed { error: SettlementError },
}

impl View for BridgeState {
    type V = BridgeStateView;

    open spec fn view(&self) -> BridgeStateView {
        match self {
            BridgeState::Pending => BridgeStateView::Pending,
            BridgeState::Processing { worker, claimed_at, failures, verify_first } => {
                BridgeStateView::Processing {
                    worker: *worker,
                    claimed_at: *claimed_at,
                    failures: *failures,
                    verify_first: *verify_first,
                }
            },
            BridgeState::Completed { reference } => BridgeStateView::Completed {
                reference: reference@,
            },
            BridgeState::Failed { error } => BridgeStateView::Failed { error: *error },
        }
    }
}

impl Clone for BridgeState {
    fn clone(&self) -> (r: Self)
        ensures
            r@ == self@,
    {
        match self {
            BridgeState::Pending => BridgeState::Pending,
            BridgeState::Processing { worker, claimed_at, failures, verify_first } => {
                BridgeState::Processing {
                    worker: *worker,
                    claimed_at: *claimed_at,
                    failures: *failures,
                    verify_first: *verify_first,
                }
            },
            BridgeState::Completed { reference } => BridgeState::Completed {
                reference: reference.clone(),
            },
            BridgeState::Failed { error } => BridgeState::Failed { error: *error },
        }
    }
}

/// What a worker may do with a request.
#[derive(Clone, Copy, Debug, PartialEq, Eq, Structural)]
pub enum BridgeAction {
    /// Submit the release on the destination ledger.
    Release,
    /// Ask the destination ledger whether the release landed.
    Verify,
    /// Leave the request alone.
    Skip,
}

/// The number of failures after one more, which stops at the largest count.
pub open spec fn one_more(failures: u32) -> u32 {
    if failures < u32::MAX {
        (failures + 1) as u32
    } else {
        failures
    }
}

impl BridgeStateView {
    /// Processing in the hands of `worker`.
    pub open spec fn owned_by(self, worker: u64) -> bool {
        self matches BridgeStateView::Processing { worker: owner, .. } && owner == worker
    }

    /// Processing since more than `stale_after` before `now`.
    pub open spec fn stale(self, now: u64, stale_after: u64) -> bool {
        self matches BridgeStateView::Processing { claimed_at, .. } && claimed_at + stale_after
            < now
    }

    /// In the hands of `worker`, with nothing left to verify.
    pub open spec fn may_release(self, worker: u64) -> bool {
        self matches BridgeStateView::Processing { worker: owner, verify_first, .. } && owner
            == worker && !verify_first
    }

    /// What `worker` may do with a request in this state.
    pub open spec fn action_for(self, worker: u64) -> BridgeAction {
        match self {
            BridgeStateView::Processing { worker: owner, verify_first, .. } => if owner != worker {
                BridgeAction::Skip
            } else if verify_first {
                BridgeAction::Verify
            } else {
                BridgeAction::Release
            },
            _ => BridgeAction::Skip,
        }
    }

    /// A claim takes a pending request and leaves any other as it is.
    pub open spec fn after_claim(self, worker: u64, now: u64) -> BridgeStateView {
        if self is Pending {
            BridgeStateView::Processing {
                worker,
                claimed_at: now,
                failures: 0,
                verify_first: false,
            }
        } else {
            self
        }
    }

    /// Taking over moves a stale request into the hands of `worker`, who
    /// has to verify first, and leaves any other as it is.
    pub open spec fn after_reclaim(
        self,
        worker: u64,
        now: u64,
        stale_after: u64,
    ) -> BridgeStateView {
        match self {
            BridgeStateView::Processing { claimed_at, failures, .. } => if claimed_at + stale_after
                < now {
                BridgeStateView::Processing {
                    worker,
                    claimed_at: now,
                    failures,
                    verify_first: true,
                }
            } else {
                self
            },
            _ => self,
        }
    }

    /// What the destination ledger said: a release that landed completes the
    /// request with its reference; if none landed, release is allowed.
    pub open spec fn after_verification(
        self,
        worker: u64,
        landed: Option<Seq<char>>,
    ) -> BridgeStateView {
        match self {
            BridgeStateView::Processing { worker: owner, claimed_at, failures, verify_first } => {
                if owner == worker && verify_first {
                    match landed {
                        Some(reference) => BridgeStateView::Completed { reference },
                        None => BridgeStateView::Processing {
                            worker,
                            claimed_at,
                            failures,
                            verify_first: false,
                        },
                    }
                } else {
                    self
                }
            },
            _ => self,
        }
    }

    /// A release that succeeded completes the request.
    pub open spec fn after_resolve(self, worker: u64, reference: Seq<char>) -> BridgeStateView {
        if self.may_release(worker) {
            BridgeStateView::Completed { reference }
        } else {
            self
        }
    }

    /// A release that failed is counted. While the policy retries, the
    /// request stays with the worker and counts as claimed at `now`, so that
    /// it does not go stale while the worker waits; when the policy gives
    /// up, the request fails for good.
    pub open spec fn after_failure(
        self,
        worker: u64,
        error: SettlementError,
        now: u64,
        policy: RetryPolicy,
    ) -> BridgeStateView {
        match self {
            BridgeStateView::Processing { worker: owner, failures, verify_first, .. } => {
                if owner == worker && !verify_first {
                    match policy.decision(error, one_more(failures)) {
                        RetryDecision::RetryAfter { .. } => BridgeStateView::Processing {
                            worker,
                            claimed_at: now,
                            failures: one_more(failures),
                            verify_first: false,
                        },
                        RetryDecision::GiveUp => BridgeStateView::Failed { error },
                    }
                } else {
                    self
                }
            },
            _ => self,
        }
    }
}

impl BridgeState {
    /// What `worker` may do with a request in this state.
    pub fn action_for(&self, worker: u64) -> (r: BridgeAction)
        ensures
            r == self@.action_for(worker),
    {
        match self {
            BridgeState::Processing { worker: owner, verify_first, .. } => {
                if *owner != worker {
                    BridgeAction::Skip
                } else if *verify_first {
                    BridgeAction::Verify
                } else {
                    BridgeAction::Release
                }
            },
            _ => BridgeAction::Skip,
        }
    }

    /// Whether the request has been processing for more than `stale_after`
    /// at `now`.
    pub fn is_stale(&self, now: u64, stale_after: u64) -> (r: bool)
        ensures
            r == self@.stale(now, stale_after),
    {
        match self {
            BridgeState::Processing { claimed_at, .. } => *claimed_at < now && now - *claimed_at
                > stale_after,
            _ => false,
        }
    }

    /// The state after a claim by `worker`, if the claim wins: it does on a
    /// pending request and on no other.
    pub fn claim(&self, worker: u64, now: u64) -> (r: Option<BridgeState>)
        ensures
            r is Some <==> self@ is Pending,
            r matches Some(next) ==> next@ == self@.after_claim(worker, now),
            r is None ==> self@.after_claim(worker, now) == self@,
    {
        match self {
            BridgeState::Pending => Some(
                BridgeState::Processing {
                    worker,
                    claimed_at: now,
                    failures: 0,
                    verify_first: false,
                },
            ),
            _ => None,
        }
    }

    /// The state after `worker` took the request over, if it is stale.
    pub fn reclaim(&self, worker: u64, now: u64, stale_after: u64) -> (r: Option<BridgeState>)
        ensures
            r is Some <==> self@.stale(now, stale_after),
            r matches Some(next) ==> next@ == self@.after_reclaim(worker, now, stale_after),
            r is None ==> self@.after_reclaim(worker, now, stale_after) == self@,
    {
        match self {
            BridgeState::Processing { failures, .. } => {
                if self.is_stale(now, stale_after) {
                    Some(
                        BridgeState::Processing {
                            worker,
                            claimed_at: now,
                            failures: *failures,
                            verify_first: true,
                        },
                    )
                } else {
                    None
                }
            },
            _ => None,
        }
    }

    /// The state after the destination ledger answered `worker`, if the
    /// worker had to verify.
    pub fn verified(&self, worker: u64, landed: Option<String>) -> (r: Option<BridgeState>)
        ensures
            r is Some <==> self@.action_for(worker) == BridgeAction::Verify,
            r matches Some(next) ==> next@ == self@.after_verification(
                worker,
                reference_view(landed),
            ),
            r is None ==> self@.after_verification(worker, reference_view(landed)) == self@,
    {
        match self {
            BridgeState::Processing { worker: owner, claimed_at, failures, verify_first } => {
                if *owner == worker && *verify_first {
                    match landed {
                        Some(reference) => Some(BridgeState::Completed { reference }),
                        None => Some(
                            BridgeState::Processing {
                                worker,
                                claimed_at: *claimed_at,
                                failures: *failures,
                                verify_first: false,
                            },
                        ),
                    }
                } else {
                    None
                }
            },
            _ => None,
        }
    }

    /// The state after `worker` released the request, if it may release.
    pub fn resolved(&self, worker: u64, reference: String) -> (r: Option<BridgeState>)
        ensures
            r is Some <==> self@.may_release(worker),
            r matches Some(next) ==> next@ == self@.after_resolve(worker, reference@),
            r is None ==> self@.after_resolve(worker, reference@) == self@,
    {
        match self {
            BridgeState::Processing { worker: owner, verify_first, .. } => {
                if *owner == worker && !*verify_first {
                    Some(BridgeState::Completed { reference })
                } else {
                    None
                }
            },
            _ => None,
        }
    }

    /// The state after a release by `worker` failed, and what the policy
    /// decided, if the worker may release.
    pub fn failed(&self, worker: u64, error: SettlementError, now: u64, policy: &RetryPolicy) -> (r:
        Option<(BridgeState, RetryDecision)>)
        ensures
            r is Some <==> self@.may_release(worker),
            r matches Some((next, decision)) ==> next@ == self@.after_failure(
                worker,
                error,
                now,
                *policy,
            ) && decision == policy.decision(error, one_more(self@->failures)),
            r is None ==> self@.after_failure(worker, error, now, *policy) == self@,
    {
        match self {
            BridgeState::Processing { worker: owner, failures, verify_first, .. } => {
                if *owner == worker && !*verify_first {
                    let counted: u32 = if *failures < u32::MAX {
                        *failures + 1
                    } else {
                        *failures
                    };
                    let decision = policy.decide(error, counted);
                    let next = match decision {
                        RetryDecision::RetryAfter { .. } => BridgeState::Processing {
                            worker,
                            claimed_at: now,
                            failures: counted,
                            verify_first: false,
                        },
                        RetryDecision::GiveUp => BridgeState::Failed { error },
                    };
                    Some((next, decision))
                } else {
                    None
                }
            },
            _ => None,
        }
    }
}

/// A request to release `amount` to `destination` on the other ledger, for
/// funds that `source` locked on this one.
#[derive(Debug)]
pub struct BridgeRequest {
    pub id: u64,
    pub source: AccountId,
    pub destination: AccountId,
    pub amount: Amount,
    pub state: BridgeState,
}

/// Mathematical value of a [`BridgeRequest`].
pub struct BridgeRequestView {
    pub id: u64,
    pub source: Seq<char>,
    pub destination: Seq<char>,
    pub amount: AmountView,
    pub state: BridgeStateView,
}

impl View for BridgeRequest {
    type V = BridgeRequestView;

    open spec fn view(&self) -> BridgeRequestView {
        BridgeRequestView {
            id: self.id,
            source: self.source@,
            destination: self.destination@,
            amount: self.amount@,
            state: self.state@,
        }
    }
}

impl Clone for BridgeRequest {
    fn clone(&self) -> (r: Self)
        ensures
            r@ == self@,
    {
        BridgeRequest {
            id: self.id,
            source: self.source.clone(),
            destination: self.destination.clone(),
            amount: self.amount.clone(),
            state: self.state.clone(),
        }
    }
}

/// Why the book refused an operation.
#[derive(Clone, Copy, Debug, PartialEq, Eq, Structural)]
pub enum BridgeError {
    /// A request with this id is on record already.
    DuplicateRequest,
    /// No request with this id is on record.
    UnknownRequest,
    /// The request is not in a state in which the worker may do this.
    NotPermitted,
}

/// Some request of `book` has `id`.
pub open spec fn has_request(book: Seq<BridgeRequestView>, id: u64) -> bool {
    exists|i: int| 0 <= i < book.len() && (#[trigger] book[i]).id == id
}

/// The request of `book` with `id`, where there is one.
pub open spec fn request_of(book: Seq<BridgeRequestView>, id: u64) -> BridgeRequestView {
    book[choose|i: int| 0 <= i < book.len() && (#[trigger] book[i]).id == id]
}

/// No two requests of `book` have the same id.
pub open spec fn distinct_ids(book: Seq<BridgeRequestView>) -> bool {
    forall|i: int, j: int|
        0 <= i < j < book.len() ==> (#[trigger] book[i]).id != (#[trigger] book[j]).id
}

/// `book` with the request of `id` moved to `state`.
pub open spec fn with_state(book: Seq<BridgeRequestView>, id: u64, state: BridgeStateView) -> Seq<
    BridgeRequestView,
> {
    Seq::new(
        book.len(),
        |i: int|
            if book[i].id == id {
                BridgeRequestView { state, ..book[i] }
            } else {
                book[i]
            },
    )
}

/// The ids of the pending requests of `book`, oldest first.
pub open spec fn pending_ids(book: Seq<BridgeRequestView>) -> Seq<u64>
    decreases book.len(),
{
    if book.len() == 0 {
        Seq::empty()
    } else if book.last().state is Pending {
        pending_ids(book.drop_last()).push(book.last().id)
    } else {
        pending_ids(book.drop_last())
    }
}

/// The ids of the requests of `book` that are stale at `now`, oldest first.
pub open spec fn stale_ids(book: Seq<BridgeRequestView>, now: u64, stale_after: u64) -> Seq<u64>
    decreases book.len(),
{
    if book.len() == 0 {
        Seq::empty()
    } else if book.last().state.stale(now, stale_after) {
        stale_ids(book.drop_last(), now, stale_after).push(book.last().id)
    } else {
        stale_ids(book.drop_last(), now, stale_after)
    }
}

/// The first `limit` of `ids`, or all of them where there are fewer.
pub open spec fn at_most(ids: Seq<u64>, limit: nat) -> Seq<u64> {
    if ids.len() <= limit {
        ids
    } else {
        ids.take(limit as int)
    }
}

/// The state of the request of `id` in `book`.
pub open spec fn state_of(book: Seq<BridgeRequestView>, id: u64) -> BridgeStateView {
    request_of(book, id).state
}

/// `book` after `worker` tried to claim the request of `id`.
pub open spec fn claim_in(book: Seq<BridgeRequestView>, id: u64, worker: u64, now: u64) -> Seq<
    BridgeRequestView,
> {
    with_state(book, id, state_of(book, id).after_claim(worker, now))
}

/// Whether a claim of the request of `id` succeeds on `book`: it does on a
/// pending request and on no other.
pub open spec fn claim_wins(book: Seq<BridgeRequestView>, id: u64) -> bool {
    has_request(book, id) && state_of(book, id) is Pending
}

/// `book` after `worker` tried to take over the request of `id`.
pub open spec fn reclaim_in(
    book: Seq<BridgeRequestView>,
    id: u64,
    worker: u64,
    now: u64,
    stale_after: u64,
) -> Seq<BridgeRequestView> {
    with_state(book, id, state_of(book, id).after_reclaim(worker, now, stale_after))
}

/// `book` after `worker` claimed each of `ids` in turn.
pub open spec fn claim_each(
    book: Seq<BridgeRequestView>,
    ids: Seq<u64>,
    worker: u64,
    now: u64,
) -> Seq<BridgeRequestView>
    decreases ids.len(),
{
    if ids.len() == 0 {
        book
    } else {
        claim_in(claim_each(book, ids.drop_last(), worker, now), ids.last(), worker, now)
    }
}

/// `book` after `worker` took over each of `ids` in turn.
pub open spec fn reclaim_each(
    book: Seq<BridgeRequestView>,
    ids: Seq<u64>,
    worker: u64,
    now: u64,
    stale_after: u64,
) -> Seq<BridgeRequestView>
    decreases ids.len(),
{
    if ids.len() == 0 {
        book
    } else {
        reclaim_in(
            reclaim_each(book, ids.drop_last(), worker, now, stale_after),
            ids.last(),
            worker,
            now,
            stale_after,
        )
    }
}

/// The requests of `list`, each by its value.
pub open spec fn requests_view(list: Seq<BridgeRequest>) -> Seq<BridgeRequestView> {
    list.map_values(|r: BridgeRequest| r@)
}

/// `book` after the destination ledger answered `worker` about the request
/// of `id`.
pub open spec fn verification_in(
    book: Seq<BridgeRequestView>,
    id: u64,
    worker: u64,
    landed: Option<Seq<char>>,
) -> Seq<BridgeRequestView> {
    with_state(book, id, state_of(book, id).after_verification(worker, landed))
}

/// `book` after `worker` reported the release of the request of `id`.
pub open spec fn resolve_in(
    book: Seq<BridgeRequestView>,
    id: u64,
    worker: u64,
    reference: Seq<char>,
) -> Seq<BridgeRequestView> {
    with_state(book, id, state_of(book, id).after_resolve(worker, reference))
}

/// `book` after `worker` reported a failed release of the request of `id`.
pub open spec fn failure_in(
    book: Seq<BridgeRequestView>,
    id: u64,
    worker: u64,
    error: SettlementError,
    now: u64,
    policy: RetryPolicy,
) -> Seq<BridgeRequestView> {
    with_state(book, id, state_of(book, id).after_failure(worker, error, now, policy))
}

/// What `worker` may do with the request of `id` in `book`.
pub open spec fn action_in(book: Seq<BridgeRequestView>, id: u64, worker: u64) -> BridgeAction {
    if has_request(book, id) {
        state_of(book, id).action_for(worker)
    } else {
        BridgeAction::Skip
    }
}

/// Why `worker` may not act on the request of `id`, if it may not.
pub open spec fn refusal_in(book: Seq<BridgeRequestView>, id: u64, permitted: bool) -> Option<
    BridgeError,
> {
    if !has_request(book, id) {
        Some(BridgeError::UnknownRequest)
    } else if !permitted {
        Some(BridgeError::NotPermitted)
    } else {
        None
    }
}

/// The reference that the destination ledger reported, as text.
pub open spec fn reference_view(landed: Option<String>) -> Option<Seq<char>> {
    match landed {
        Some(reference) => Some(reference@),
        None => None,
    }
}

/// One thing for a worker to do after a tick.
#[derive(Clone, Copy, Debug, PartialEq, Eq, Structural)]
pub struct BridgeTask {
    pub id: u64,
    pub action: BridgeAction,
}

/// One task with `action` for each of `ids`.
pub open spec fn tasks_for(ids: Seq<u64>, action: BridgeAction) -> Seq<BridgeTask> {
    ids.map_values(|id: u64| BridgeTask { id, action })
}

/// The bridge requests on record, oldest first, at most one per id.
pub struct BridgeBook {
    requests: Vec<BridgeRequest>,
}

impl View for BridgeBook {
    type V = Seq<BridgeRequestView>;

    closed spec fn view(&self) -> Seq<BridgeRequestView> {
        requests_view(self.requests@)
    }
}

proof fn lemma_request_at(book: Seq<BridgeRequestView>, index: int)
    requires
        distinct_ids(book),
        0 <= index < book.len(),
    ensures
        has_request(book, book[index].id),
        request_of(book, book[index].id) == book[index],
{
    let id = book[index].id;
    let chosen = choose|i: int| 0 <= i < book.len() && (#[trigger] book[i]).id == id;
    if chosen < index {
        assert(book[chosen].id != book[index].id);
    } else if index < chosen {
        assert(book[index].id != book[chosen].id);
    }
}

proof fn lemma_with_state_absent(book: Seq<BridgeRequestView>, id: u64, state: BridgeStateView)
    requires
        !has_request(book, id),
    ensures
        with_state(book, id, state) == book,
{
    assert forall|i: int| 0 <= i < book.len() implies with_state(book, id, state)[i] == book[i] by {
        if book[i].id == id {
            assert(has_request(book, id));
        }
    }
}

/// Moving a request to a state keeps every id, and the request is then in
/// that state.
pub proof fn lemma_with_state(book: Seq<BridgeRequestView>, id: u64, state: BridgeStateView)
    ensures
        with_state(book, id, state).len() == book.len(),
        forall|i: int|
            0 <= i < book.len() ==> (#[trigger] with_state(book, id, state)[i]).id == book[i].id,
        distinct_ids(book) ==> distinct_ids(with_state(book, id, state)),
        has_request(with_state(book, id, state), id) == has_request(book, id),
        has_request(book, id) ==> state_of(with_state(book, id, state), id) == state,
        forall|other: u64|
            other != id ==> #[trigger] has_request(with_state(book, id, state), other)
                == has_request(book, other),
        forall|other: u64|
            other != id && distinct_ids(book) && has_request(book, other) ==> #[trigger] state_of(
                with_state(book, id, state),
                other,
            ) == state_of(book, other),
{
    let after = with_state(book, id, state);
    assert forall|i: int| 0 <= i < book.len() implies (#[trigger] after[i]).id == book[i].id by {}
    if distinct_ids(book) {
        assert forall|i: int, j: int| 0 <= i < j < after.len() implies (#[trigger] after[i]).id != (
        #[trigger] after[j]).id by {
            assert(after[i].id == book[i].id);
            assert(after[j].id == book[j].id);
        }
    }
    if has_request(book, id) {
        let witness = choose|i: int| 0 <= i < book.len() && (#[trigger] book[i]).id == id;
        assert(after[witness].id == id);
        assert(has_request(after, id));
        let chosen = choose|i: int| 0 <= i < after.len() && (#[trigger] after[i]).id == id;
        assert(book[chosen].id == id);
    } else {
        if has_request(after, id) {
            let chosen = choose|i: int| 0 <= i < after.len() && (#[trigger] after[i]).id == id;
            assert(book[chosen].id == id);
        }
    }
    assert forall|other: u64| other != id implies #[trigger] has_request(after, other)
        == has_request(book, other) by {
        if has_request(book, other) {
            let witness = choose|i: int| 0 <= i < book.len() && (#[trigger] book[i]).id == other;
            assert(after[witness].id == other);
        }
        if has_request(after, other) {
            let chosen = choose|i: int| 0 <= i < after.len() && (#[trigger] after[i]).id == other;
            assert(book[chosen].id == other);
        }
    }
    assert forall|other: u64|
        other != id && distinct_ids(book) && has_request(book, other) implies #[trigger] state_of(
        after,
        other,
    ) == state_of(book, other) by {
        assert(has_request(after, other));
        let chosen = choose|i: int| 0 <= i < after.len() && (#[trigger] after[i]).id == other;
        assert(book[chosen].id == other);
        lemma_request_at(book, chosen);
        assert(after[chosen] == book[chosen]);
    }
}

impl BridgeBook {
    #[verifier::type_invariant]
    spec fn ids_are_distinct(self) -> bool {
        distinct_ids(requests_view(self.requests@))
    }

    /// A book without requests.
    pub fn new() -> (r: BridgeBook)
        ensures
            r@ == Seq::<BridgeRequestView>::empty(),
    {
        let requests: Vec<BridgeRequest> = Vec::new();
        assert(requests_view(requests@) == Seq::<BridgeRequestView>::empty());
        BridgeBook { requests }
    }

    /// The book of `requests`, oldest first, as read back from a store.
    /// There is no book in which two requests share an id.
    pub fn restore(requests: Vec<BridgeRequest>) -> (r: Option<BridgeBook>)
        ensures
            r is Some <==> distinct_ids(requests_view(requests@)),
            r matches Some(book) ==> book@ == requests_view(requests@),
    {
        let ghost book = requests_view(requests@);
        let mut j: usize = 0;
        while j < requests.len()
            invariant
                j <= requests.len(),
                book == requests_view(requests@),
                forall|a: int, b: int| 0 <= a < b < j ==> (#[trigger] book[a]).id != (
                #[trigger] book[b]).id,
            decreases requests.len() - j,
        {
            let mut i: usize = 0;
            while i < j
                invariant
                    i <= j < requests.len(),
                    book == requests_view(requests@),
                    forall|a: int| 0 <= a < i ==> (#[trigger] book[a]).id != book[j as int].id,
                decreases j - i,
            {
                if requests[i].id == requests[j].id {
                    assert(book[i as int].id == book[j as int].id);
                    return None;
                }
                i += 1;
            }
            j += 1;
        }
        Some(BridgeBook { requests })
    }

    /// Number of requests on record.
    pub fn len(&self) -> (n: usize)
        ensures
            n == self@.len(),
            distinct_ids(self@),
    {
        proof {
            use_type_invariant(self);
        }
        self.requests.len()
    }

    fn locate(&self, id: u64) -> (r: Option<usize>)
        ensures
            distinct_ids(self@),
            r matches Some(index) ==> index < self@.len() && self@[index as int].id == id
                && has_request(self@, id) && request_of(self@, id) == self@[index as int]
                && self.requests@[index as int]@ == self@[index as int],
            r is None ==> !has_request(self@, id),
    {
        proof {
            use_type_invariant(self);
        }
        let mut i: usize = 0;
        while i < self.requests.len()
            invariant
                i <= self.requests@.len(),
                self@ == requests_view(self.requests@),
                distinct_ids(self@),
                forall|j: int| 0 <= j < i ==> (#[trigger] self@[j]).id != id,
            decreases self.requests.len() - i,
        {
            if self.requests[i].id == id {
                proof {
                    lemma_request_at(self@, i as int);
                }
                return Some(i);
            }
            i += 1;
        }
        None
    }

    fn set_state(&mut self, index: usize, state: BridgeState)
        requires
            index < old(self)@.len(),
        ensures
            final(self)@ == with_state(old(self)@, old(self)@[index as int].id, state@),
    {
        proof {
            use_type_invariant(&*self);
        }
        let mut taken = BridgeBook::new();
        core::mem::swap(self, &mut taken);
        let mut requests = taken.requests;
        let ghost before = requests@;
        let current = &requests[index];
        let moved = BridgeRequest {
            id: current.id,
            source: current.source.clone(),
            destination: current.destination.clone(),
            amount: current.amount.clone(),
            state,
        };
        requests.set(index, moved);
        proof {
            let book = requests_view(before);
            let id = book[index as int].id;
            let after = requests_view(requests@);
            assert forall|i: int| 0 <= i < book.len() implies after[i] == with_state(
                book,
                id,
                state@,
            )[i] by {
                if i != index {
                    assert(requests@[i] == before[i]);
                    if i < index {
                        assert(book[i].id != book[index as int].id);
                    } else {
                        assert(book[index as int].id != book[i].id);
                    }
                }
            }
            assert(after == with_state(book, id, state@));
            lemma_with_state(book, id, state@);
        }
        *self = BridgeBook { requests };
    }

    /// Records a new, pending request. Ids are unique: a second request
    /// with an id on record is refused.
    pub fn enqueue(
        &mut self,
        id: u64,
        source: AccountId,
        destination: AccountId,
        amount: Amount,
    ) -> (r: Result<(), BridgeError>)
        ensures
            has_request(old(self)@, id) ==> r == Err::<(), BridgeError>(
                BridgeError::DuplicateRequest,
            ) && final(self)@ == old(self)@,
            !has_request(old(self)@, id) ==> r is Ok && final(self)@ == old(self)@.push(
                BridgeRequestView {
                    id,
                    source: source@,
                    destination: destination@,
                    amount: amount@,
                    state: BridgeStateView::Pending,
                },
            ),
    {
        if self.locate(id).is_some() {
            return Err(BridgeError::DuplicateRequest);
        }
        let mut taken = BridgeBook::new();
        core::mem::swap(self, &mut taken);
        let mut requests = taken.requests;
        let ghost before = requests@;
        let state = BridgeState::Pending;
        let request = BridgeRequest { id, source, destination, amount, state };
        requests.push(request);
        proof {
            let book = requests_view(before);
            let after = requests_view(requests@);
            assert(after == book.push(request@));
            assert forall|i: int, j: int| 0 <= i < j < after.len() implies (#[trigger] after[i]).id
                != (#[trigger] after[j]).id by {
                if j < book.len() {
                    assert(book[i].id != book[j].id);
                } else {
                    assert(book[i].id != id);
                }
            }
        }
        *self = BridgeBook { requests };
        Ok(())
    }

    /// The request with `id`, if it is on record.
    pub fn lookup(&self, id: u64) -> (r: Option<BridgeRequest>)
        ensures
            r is Some <==> has_request(self@, id),
            r matches Some(request) ==> request@ == request_of(self@, id),
    {
        match self.locate(id) {
            Some(index) => Some(self.requests[index].clone()),
            None => None,
        }
    }

    /// What `worker` may do with the request of `id`.
    pub fn next_action(&self, id: u64, worker: u64) -> (r: BridgeAction)
        ensures
            r == action_in(self@, id, worker),
    {
        match self.locate(id) {
            Some(index) => self.requests[index].state.action_for(worker),
            None => BridgeAction::Skip,
        }
    }

    /// The ids of the pending requests, oldest first, at most `limit`.
    pub fn discover(&self, limit: usize) -> (r: Vec<u64>)
        ensures
            r@ == at_most(pending_ids(self@), limit as nat),
    {
        let mut found: Vec<u64> = Vec::new();
        let mut i: usize = 0;
        while i < self.requests.len() && found.len() < limit
            invariant
                i <= self.requests@.len(),
                self@ == requests_view(self.requests@),
                found@ == pending_ids(self@.take(i as int)),
                found@.len() <= limit,
            decreases self.requests.len() - i,
        {
            proof {
                assert(self@.take(i + 1).drop_last() == self@.take(i as int));
            }
            match &self.requests[i].state {
                BridgeState::Pending => {
                    found.push(self.requests[i].id);
                },
                _ => {},
            }
            i += 1;
        }
        proof {
            lemma_pending_prefix(self@, i as int);
            if i == self@.len() {
                assert(self@.take(i as int) == self@);
            }
        }
        found
    }

    /// The ids of the requests that are stale at `now`, oldest first, at
    /// most `limit`.
    pub fn discover_stale(&self, now: u64, stale_after: u64, limit: usize) -> (r: Vec<u64>)
        ensures
            r@ == at_most(stale_ids(self@, now, stale_after), limit as nat),
    {
        let mut found: Vec<u64> = Vec::new();
        let mut i: usize = 0;
        while i < self.requests.len() && found.len() < limit
            invariant
                i <= self.requests@.len(),
                self@ == requests_view(self.requests@),
                found@ == stale_ids(self@.take(i as int), now, stale_after),
                found@.len() <= limit,
            decreases self.requests.len() - i,
        {
            proof {
                assert(self@.take(i + 1).drop_last() == self@.take(i as int));
            }
            if self.requests[i].state.is_stale(now, stale_after) {
                found.push(self.requests[i].id);
            }
            i += 1;
        }
        proof {
            lemma_stale_prefix(self@, now, stale_after, i as int);
            if i == self@.len() {
                assert(self@.take(i as int) == self@);
            }
        }
        found
    }

    /// Moves the request at `index` to `next`, or leaves the book as it is.
    fn move_to(&mut self, index: usize, next: Option<BridgeState>, Ghost(after): Ghost<
        BridgeStateView,
    >) -> (moved: bool)
        requires
            index < old(self)@.len(),
            next is None ==> after == old(self)@[index as int].state,
            next matches Some(state) ==> after == state@,
        ensures
            moved == next is Some,
            final(self)@ == with_state(old(self)@, old(self)@[index as int].id, after),
    {
        proof {
            use_type_invariant(&*self);
            lemma_request_at(self@, index as int);
        }
        match next {
            Some(state) => {
                self.set_state(index, state);
                true
            },
            None => {
                proof {
                    lemma_unchanged(self@, self@[index as int].id);
                }
                false
            },
        }
    }

    /// Claims the request of `id` for `worker`, if it is still pending. Only
    /// a pending request changes, so that of several claims on one request
    /// the first wins and the others lose.
    pub fn claim(&mut self, id: u64, worker: u64, now: u64) -> (won: bool)
        ensures
            won == claim_wins(old(self)@, id),
            final(self)@ == claim_in(old(self)@, id, worker, now),
    {
        match self.locate(id) {
            Some(index) => {
                let next = self.requests[index].state.claim(worker, now);
                self.move_to(index, next, Ghost(state_of(self@, id).after_claim(worker, now)))
            },
            None => {
                proof {
                    lemma_with_state_absent(
                        self@,
                        id,
                        state_of(self@, id).after_claim(worker, now),
                    );
                }
                false
            },
        }
    }

    /// Takes over the request of `id` for `worker`, if it has been
    /// processing for more than `stale_after`. The worker then has to
    /// verify before anything is released.
    pub fn reclaim(&mut self, id: u64, worker: u64, now: u64, stale_after: u64) -> (won: bool)
        ensures
            won == (has_request(old(self)@, id) && state_of(old(self)@, id).stale(
                now,
                stale_after,
            )),
            final(self)@ == reclaim_in(old(self)@, id, worker, now, stale_after),
    {
        match self.locate(id) {
            Some(index) => {
                let next = self.requests[index].state.reclaim(worker, now, stale_after);
                self.move_to(
                    index,
                    next,
                    Ghost(state_of(self@, id).after_reclaim(worker, now, stale_after)),
                )
            },
            None => {
                proof {
                    lemma_with_state_absent(
                        self@,
                        id,
                        state_of(self@, id).after_reclaim(worker, now, stale_after),
                    );
                }
                false
            },
        }
    }

    /// Records what the destination ledger answered to `worker`, who took
    /// the request of `id` over: the reference of the release that landed,
    /// or that none did. A release that landed completes the request and
    /// nothing more is to be done; otherwise the worker may release.
    pub fn record_verification(&mut self, id: u64, worker: u64, landed: Option<String>) -> (r:
        Result<BridgeAction, BridgeError>)
        ensures
            ({
                let permitted = state_of(old(self)@, id).action_for(worker) == BridgeAction::Verify;
                &&& final(self)@ == verification_in(old(self)@, id, worker, reference_view(landed))
                &&& match refusal_in(old(self)@, id, permitted) {
                    Some(error) => r == Err::<BridgeAction, BridgeError>(error) && final(self)@
                        == old(self)@,
                    None => r == Ok::<BridgeAction, BridgeError>(
                        if landed is Some {
                            BridgeAction::Skip
                        } else {
                            BridgeAction::Release
                        },
                    ),
                }
            }),
    {
        let ghost after = state_of(self@, id).after_verification(worker, reference_view(landed));
        let index = match self.locate(id) {
            Some(index) => index,
            None => {
                proof {
                    lemma_with_state_absent(self@, id, after);
                }
                return Err(BridgeError::UnknownRequest);
            },
        };
        let then = if landed.is_some() {
            BridgeAction::Skip
        } else {
            BridgeAction::Release
        };
        let next = self.requests[index].state.verified(worker, landed);
        if self.move_to(index, next, Ghost(after)) {
            Ok(then)
        } else {
            Err(BridgeError::NotPermitted)
        }
    }

    /// Completes the request of `id` with the reference of its release.
    /// Only the worker that holds the request, with nothing left to verify,
    /// can complete it; so a request is completed at most once.
    pub fn resolve(&mut self, id: u64, worker: u64, reference: String) -> (r: Result<
        (),
        BridgeError,
    >)
        ensures
            final(self)@ == resolve_in(old(self)@, id, worker, reference@),
            match refusal_in(old(self)@, id, state_of(old(self)@, id).may_release(worker)) {
                Some(error) => r == Err::<(), BridgeError>(error) && final(self)@ == old(self)@,
                None => r is Ok,
            },
    {
        let ghost after = state_of(self@, id).after_resolve(worker, reference@);
        let index = match self.locate(id) {
            Some(index) => index,
            None => {
                proof {
                    lemma_with_state_absent(self@, id, after);
                }
                return Err(BridgeError::UnknownRequest);
            },
        };
        let next = self.requests[index].state.resolved(worker, reference);
        if self.move_to(index, next, Ghost(after)) {
            Ok(())
        } else {
            Err(BridgeError::NotPermitted)
        }
    }

    /// Records that the release of the request of `id` failed with `error`.
    /// The policy decides on the count of failures: while it retries, the
    /// request stays with the worker; when it gives up, the request fails
    /// for good.
    pub fn record_failure(
        &mut self,
        id: u64,
        worker: u64,
        error: SettlementError,
        now: u64,
        policy: &RetryPolicy,
    ) -> (r: Result<RetryDecision, BridgeError>)
        ensures
            final(self)@ == failure_in(old(self)@, id, worker, error, now, *policy),
            match refusal_in(old(self)@, id, state_of(old(self)@, id).may_release(worker)) {
                Some(refused) => r == Err::<RetryDecision, BridgeError>(refused) && final(self)@
                    == old(self)@,
                None => r == Ok::<RetryDecision, BridgeError>(
                    policy.decision(error, one_more(state_of(old(self)@, id)->failures)),
                ),
            },
    {
        let ghost after = state_of(self@, id).after_failure(worker, error, now, *policy);
        let index = match self.locate(id) {
            Some(index) => index,
            None => {
                proof {
                    lemma_with_state_absent(self@, id, after);
                }
                return Err(BridgeError::UnknownRequest);
            },
        };
        match self.requests[index].state.failed(worker, error, now, policy) {
            Some((next, decision)) => {
                self.set_state(index, next);
                Ok(decision)
            },
            None => {
                proof {
                    lemma_unchanged(self@, id);
                }
                Err(BridgeError::NotPermitted)
            },
        }
    }
}

proof fn lemma_unchanged(book: Seq<BridgeRequestView>, id: u64)
    requires
        distinct_ids(book),
        has_request(book, id),
    ensures
        with_state(book, id, state_of(book, id)) == book,
{
    let chosen = choose|i: int| 0 <= i < book.len() && (#[trigger] book[i]).id == id;
    assert forall|i: int| 0 <= i < book.len() implies with_state(book, id, state_of(book, id))[i]
        == book[i] by {
        if book[i].id == id {
            lemma_request_at(book, i);
        }
    }
}

proof fn lemma_pending_prefix(book: Seq<BridgeRequestView>, upto: int)
    requires
        0 <= upto <= book.len(),
    ensures
        pending_ids(book.take(upto)).len() <= pending_ids(book).len(),
        pending_ids(book.take(upto)) == pending_ids(book).take(
            pending_ids(book.take(upto)).len() as int,
        ),
    decreases book.len() - upto,
{
    if upto == book.len() {
        assert(book.take(upto) == book);
    } else {
        lemma_pending_prefix(book, upto + 1);
        assert(book.take(upto + 1).drop_last() == book.take(upto));
    }
}

proof fn lemma_stale_prefix(book: Seq<BridgeRequestView>, now: u64, stale_after: u64, upto: int)
    requires
        0 <= upto <= book.len(),
    ensures
        stale_ids(book.take(upto), now, stale_after).len() <= stale_ids(
            book,
            now,
            stale_after,
        ).len(),
        stale_ids(book.take(upto), now, stale_after) == stale_ids(book, now, stale_after).take(
            stale_ids(book.take(upto), now, stale_after).len() as int,
        ),
    decreases book.len() - upto,
{
    if upto == book.len() {
        assert(book.take(upto) == book);
    } else {
        lemma_stale_prefix(book, now, stale_after, upto + 1);
        assert(book.take(upto + 1).drop_last() == book.take(upto));
    }
}

/// How a relay worker is set up.
#[derive(Clone, Copy, Debug, PartialEq, Eq, Structural)]
pub struct RelayConfig {
    /// Most requests of each kind that one tick takes on.
    pub batch_limit: usize,
    /// Time after which a processing request counts as abandoned.
    pub stale_after: u64,
    /// When a failed release is tried again.
    pub retry: RetryPolicy,
}

/// `book` after one tick of `worker`: the oldest stale requests taken over,
/// then the oldest pending requests claimed, at most `limit` of each.
pub open spec fn tick_in(
    book: Seq<BridgeRequestView>,
    worker: u64,
    now: u64,
    limit: usize,
    stale_after: u64,
) -> Seq<BridgeRequestView> {
    claim_each(
        reclaim_each(
            book,
            at_most(stale_ids(book, now, stale_after), limit as nat),
            worker,
            now,
            stale_after,
        ),
        at_most(pending_ids(book), limit as nat),
        worker,
        now,
    )
}

/// The tasks of one tick: to verify each request taken over, then to
/// release each request claimed.
pub open spec fn tick_tasks(
    book: Seq<BridgeRequestView>,
    now: u64,
    limit: usize,
    stale_after: u64,
) -> Seq<BridgeTask> {
    tasks_for(at_most(stale_ids(book, now, stale_after), limit as nat), BridgeAction::Verify)
        + tasks_for(at_most(pending_ids(book), limit as nat), BridgeAction::Release)
}

/// Why a withdrawal released nothing.
#[derive(Clone, Copy, Debug, PartialEq, Eq, Structural)]
pub enum BridgeFailure {
    /// The request was not pending: it is in other hands, or done.
    NotClaimed,
    /// The release was refused.
    Release { error: SettlementError },
}

impl BridgeFailure {
    /// The failure kind under which the failure is reported.
    pub open spec fn failure_kind(self) -> FailureKind {
        match self {
            BridgeFailure::NotClaimed => FailureKind::ConcurrencyConflict,
            BridgeFailure::Release { error } => error.failure_kind(),
        }
    }

    pub fn kind(&self) -> (r: FailureKind)
        ensures
            r == self.failure_kind(),
    {
        match self {
            BridgeFailure::NotClaimed => FailureKind::ConcurrencyConflict,
            BridgeFailure::Release { error } => error.kind(),
        }
    }
}

/// The batch that releases what `request` asks for from `hot_wallet`.
pub open spec fn release_batch(hot_wallet: Seq<char>, request: BridgeRequestView) -> Seq<
    InstructionView,
> {
    seq![
        InstructionView::Transfer {
            from: hot_wallet,
            to: request.destination,
            asset: request.amount.asset,
            units: request.amount.minor_units,
        },
    ]
}

/// One withdrawal against a destination ledger: the book and the ledger
/// after it, and the reference of the release or why there is none.
pub open spec fn withdrawal_on(
    book: Seq<BridgeRequestView>,
    ledger: LedgerView,
    hot_wallet: Seq<char>,
    id: u64,
    worker: u64,
    now: u64,
    policy: RetryPolicy,
) -> (Seq<BridgeRequestView>, LedgerView, Result<Seq<char>, BridgeFailure>) {
    if !claim_wins(book, id) {
        (book, ledger, Err(BridgeFailure::NotClaimed))
    } else {
        let claimed = claim_in(book, id, worker, now);
        match ledger.commit(release_batch(hot_wallet, request_of(book, id))) {
            Ok(next) => (
                resolve_in(claimed, id, worker, decimal(next.committed as nat)),
                next,
                Ok(decimal(next.committed as nat)),
            ),
            Err(error) => (
                failure_in(claimed, id, worker, error, now, policy),
                ledger,
                Err(BridgeFailure::Release { error }),
            ),
        }
    }
}

impl BridgeBook {
    /// One tick of `worker`: takes over the oldest stale requests and claims
    /// the oldest pending requests, at most `config.batch_limit` of each,
    /// and returns what to do for each of them.
    pub fn process_bridge_tick(&mut self, worker: u64, now: u64, config: &RelayConfig) -> (tasks:
        Vec<BridgeTask>)
        ensures
            final(self)@ == tick_in(
                old(self)@,
                worker,
                now,
                config.batch_limit,
                config.stale_after,
            ),
            tasks@ == tick_tasks(old(self)@, now, config.batch_limit, config.stale_after),
    {
        let stale = self.discover_stale(now, config.stale_after, config.batch_limit);
        let pending = self.discover(config.batch_limit);
        let mut tasks: Vec<BridgeTask> = Vec::new();
        let mut i: usize = 0;
        while i < stale.len()
            invariant
                i <= stale.len(),
                self@ == reclaim_each(
                    old(self)@,
                    stale@.take(i as int),
                    worker,
                    now,
                    config.stale_after,
                ),
                tasks@ == tasks_for(stale@.take(i as int), BridgeAction::Verify),
            decreases stale.len() - i,
        {
            proof {
                assert(stale@.take(i + 1).drop_last() == stale@.take(i as int));
            }
            self.reclaim(stale[i], worker, now, config.stale_after);
            tasks.push(BridgeTask { id: stale[i], action: BridgeAction::Verify });
            i += 1;
        }
        assert(stale@.take(stale.len() as int) == stale@);
        let ghost taken_over = self@;
        let mut j: usize = 0;
        while j < pending.len()
            invariant
                j <= pending.len(),
                self@ == claim_each(taken_over, pending@.take(j as int), worker, now),
                tasks@ == tasks_for(stale@, BridgeAction::Verify) + tasks_for(
                    pending@.take(j as int),
                    BridgeAction::Release,
                ),
            decreases pending.len() - j,
        {
            proof {
                assert(pending@.take(j + 1).drop_last() == pending@.take(j as int));
            }
            self.claim(pending[j], worker, now);
            tasks.push(BridgeTask { id: pending[j], action: BridgeAction::Release });
            j += 1;
        }
        assert(pending@.take(pending.len() as int) == pending@);
        tasks
    }

    /// Claims the request of `id`, releases its amount from `hot_wallet` to
    /// its destination on `ledger`, and records how that went. A request
    /// that is not pending is left alone, and nothing is released for it.
    pub fn process_withdrawal(
        &mut self,
        ledger: &mut Ledger,
        hot_wallet: &AccountId,
        id: u64,
        worker: u64,
        now: u64,
        policy: &RetryPolicy,
    ) -> (r: Result<String, BridgeFailure>)
        ensures
            ({
                let expected = withdrawal_on(
                    old(self)@,
                    old(ledger)@,
                    hot_wallet@,
                    id,
                    worker,
                    now,
                    *policy,
                );
                &&& final(self)@ == expected.0
                &&& final(ledger)@ == expected.1
                &&& match expected.2 {
                    Ok(reference) => r is Ok && r->Ok_0@ == reference,
                    Err(failure) => r == Err::<String, BridgeFailure>(failure),
                }
            }),
    {
        let request = match self.lookup(id) {
            Some(request) => request,
            None => {
                return Err(BridgeFailure::NotClaimed);
            },
        };
        match request.state {
            BridgeState::Pending => {},
            _ => {
                return Err(BridgeFailure::NotClaimed);
            },
        }
        let won = self.claim(id, worker, now);
        assert(won);
        proof {
            lemma_with_state(
                old(self)@,
                id,
                state_of(old(self)@, id).after_claim(worker, now),
            );
        }
        match ledger.execute_transfer(hot_wallet, &request.destination, &request.amount) {
            Ok(receipt) => {
                let reference = decimal_string(receipt.sequence);
                let copy = reference.clone();
                let _ = self.resolve(id, worker, reference);
                Ok(copy)
            },
            Err(error) => {
                let _ = self.record_failure(id, worker, error, now, policy);
                Err(BridgeFailure::Release { error })
            },
        }
    }
}

/// The outcomes of successive claims of one request, in the order in which
/// the store serves them.
pub open spec fn claim_outcomes(
    book: Seq<BridgeRequestView>,
    id: u64,
    attempts: Seq<(u64, u64)>,
) -> Seq<bool>
    decreases attempts.len(),
{
    if attempts.len() == 0 {
        Seq::empty()
    } else {
        seq![claim_wins(book, id)] + claim_outcomes(
            claim_in(book, id, attempts.first().0, attempts.first().1),
            id,
            attempts.drop_first(),
        )
    }
}

/// `book` after successive claims of one request.
pub open spec fn after_claims(
    book: Seq<BridgeRequestView>,
    id: u64,
    attempts: Seq<(u64, u64)>,
) -> Seq<BridgeRequestView>
    decreases attempts.len(),
{
    if attempts.len() == 0 {
        book
    } else {
        after_claims(
            claim_in(book, id, attempts.first().0, attempts.first().1),
            id,
            attempts.drop_first(),
        )
    }
}

proof fn lemma_claims_on_taken_request(
    book: Seq<BridgeRequestView>,
    id: u64,
    attempts: Seq<(u64, u64)>,
)
    requires
        distinct_ids(book),
        has_request(book, id),
        !(state_of(book, id) is Pending),
    ensures
        claim_outcomes(book, id, attempts).len() == attempts.len(),
        forall|k: int| 0 <= k < attempts.len() ==> !claim_outcomes(book, id, attempts)[k],
        after_claims(book, id, attempts) == book,
    decreases attempts.len(),
{
    if attempts.len() > 0 {
        lemma_unchanged(book, id);
        lemma_claims_on_taken_request(book, id, attempts.drop_first());
    }
}

/// Mutual exclusion: of any number of claims of one pending request, served
/// in any order, the first served wins and every other loses. The request
/// ends in the hands of the winner, and every other worker is told to skip.
pub proof fn lemma_exactly_one_claim_wins(
    book: Seq<BridgeRequestView>,
    id: u64,
    attempts: Seq<(u64, u64)>,
)
    requires
        distinct_ids(book),
        claim_wins(book, id),
        attempts.len() >= 1,
    ensures
        claim_outcomes(book, id, attempts).len() == attempts.len(),
        claim_outcomes(book, id, attempts)[0],
        forall|k: int| 1 <= k < attempts.len() ==> !claim_outcomes(book, id, attempts)[k],
        after_claims(book, id, attempts) == claim_in(
            book,
            id,
            attempts.first().0,
            attempts.first().1,
        ),
        action_in(after_claims(book, id, attempts), id, attempts.first().0)
            == BridgeAction::Release,
        forall|worker: u64|
            worker != attempts.first().0 ==> #[trigger] action_in(
                after_claims(book, id, attempts),
                id,
                worker,
            ) == BridgeAction::Skip,
{
    let winner = attempts.first();
    let claimed = claim_in(book, id, winner.0, winner.1);
    lemma_with_state(book, id, state_of(book, id).after_claim(winner.0, winner.1));
    lemma_claims_on_taken_request(claimed, id, attempts.drop_first());
    let rest = claim_outcomes(claimed, id, attempts.drop_first());
    let outcomes = claim_outcomes(book, id, attempts);
    assert forall|k: int| 1 <= k < attempts.len() implies !outcomes[k] by {
        assert(claim_outcomes(book, id, attempts)[k] == rest[k - 1]);
    }
}

/// A completed request is final: no claim, takeover, verification, report
/// of a release or of a failure changes it, and no worker is told to
/// release or to verify. Its release is never executed again.
pub proof fn lemma_completed_is_final(
    state: BridgeStateView,
    worker: u64,
    now: u64,
    stale_after: u64,
    landed: Option<Seq<char>>,
    reference: Seq<char>,
    error: SettlementError,
    policy: RetryPolicy,
)
    requires
        state is Completed || state is Failed,
    ensures
        state.after_claim(worker, now) == state,
        state.after_reclaim(worker, now, stale_after) == state,
        state.after_verification(worker, landed) == state,
        state.after_resolve(worker, reference) == state,
        state.after_failure(worker, error, now, policy) == state,
        state.action_for(worker) == BridgeAction::Skip,
{
}

/// Recovery verifies before it releases. A request taken over from a worker
/// that stopped cannot be released, nor reported as released, before the
/// destination ledger has answered. If the release landed, the request is
/// completed with its reference and no one is told to release; only if
/// none landed is the new worker told to release.
pub proof fn lemma_takeover_verifies_before_release(
    state: BridgeStateView,
    worker: u64,
    now: u64,
    stale_after: u64,
    landed: Seq<char>,
    reference: Seq<char>,
    other: u64,
)
    requires
        state.stale(now, stale_after),
    ensures
        ({
            let taken = state.after_reclaim(worker, now, stale_after);
            &&& taken.action_for(worker) == BridgeAction::Verify
            &&& !taken.may_release(worker)
            &&& taken.after_resolve(worker, reference) == taken
            &&& taken.after_verification(worker, Some(landed)) == (BridgeStateView::Completed {
                reference: landed,
            })
            &&& taken.after_verification(worker, Some(landed)).action_for(other)
                == BridgeAction::Skip
            &&& taken.after_verification(worker, None).action_for(worker) == BridgeAction::Release
        }),
{
}

/// Retries are bounded: a request whose release has failed as often as the
/// policy allows attempts fails for good at the next failure, whatever the
/// error, and is then left alone.
pub proof fn lemma_exhausted_request_fails(
    state: BridgeStateView,
    worker: u64,
    error: SettlementError,
    now: u64,
    policy: RetryPolicy,
)
    requires
        state.may_release(worker),
        !error.transient() || one_more(state->failures) >= policy.max_attempts,
    ensures
        state.after_failure(worker, error, now, policy) == (BridgeStateView::Failed { error }),
        state.after_failure(worker, error, now, policy).action_for(worker) == BridgeAction::Skip,
{
}

/// A request is released once: after a withdrawal released it, another
/// withdrawal of the same request, by any worker at any time, is not
/// claimed and changes neither the book nor the ledger.
pub proof fn lemma_request_is_released_once(
    book: Seq<BridgeRequestView>,
    ledger: LedgerView,
    hot_wallet: Seq<char>,
    id: u64,
    worker: u64,
    now: u64,
    policy: RetryPolicy,
    later_worker: u64,
    later: u64,
)
    requires
        distinct_ids(book),
        withdrawal_on(book, ledger, hot_wallet, id, worker, now, policy).2 is Ok,
    ensures
        ({
            let first = withdrawal_on(book, ledger, hot_wallet, id, worker, now, policy);
            withdrawal_on(first.0, first.1, hot_wallet, id, later_worker, later, policy) == (
                first.0,
                first.1,
                Err::<Seq<char>, BridgeFailure>(BridgeFailure::NotClaimed),
            )
        }),
{
    let claimed = claim_in(book, id, worker, now);
    lemma_with_state(book, id, state_of(book, id).after_claim(worker, now));
    let next = ledger.commit(release_batch(hot_wallet, request_of(book, id)))->Ok_0;
    lemma_with_state(
        claimed,
        id,
        state_of(claimed, id).after_resolve(worker, decimal(next.committed as nat)),
    );
}

proof fn lemma_drop_last_distinct(book: Seq<BridgeRequestView>)
    requires
        distinct_ids(book),
        book.len() > 0,
    ensures
        distinct_ids(book.drop_last()),
{
    let rest = book.drop_last();
    assert forall|i: int, j: int| 0 <= i < j < rest.len() implies (#[trigger] rest[i]).id != (
    #[trigger] rest[j]).id by {
        assert(rest[i] == book[i]);
        assert(rest[j] == book[j]);
    }
}

proof fn lemma_state_in_longer_book(book: Seq<BridgeRequestView>, id: u64)
    requires
        distinct_ids(book),
        book.len() > 0,
        has_request(book.drop_last(), id),
    ensures
        has_request(book, id),
        state_of(book, id) == state_of(book.drop_last(), id),
{
    let rest = book.drop_last();
    lemma_drop_last_distinct(book);
    let index = choose|i: int| 0 <= i < rest.len() && (#[trigger] rest[i]).id == id;
    lemma_request_at(rest, index);
    assert(book[index] == rest[index]);
    lemma_request_at(book, index);
}

proof fn lemma_listed_pending(book: Seq<BridgeRequestView>, id: u64)
    requires
        distinct_ids(book),
        pending_ids(book).contains(id),
    ensures
        has_request(book, id),
        state_of(book, id) is Pending,
    decreases book.len(),
{
    let rest = book.drop_last();
    let listed = pending_ids(book);
    let at = choose|i: int| 0 <= i < listed.len() && listed[i] == id;
    lemma_drop_last_distinct(book);
    if book.last().state is Pending && at == listed.len() - 1 {
        lemma_request_at(book, book.len() - 1);
    } else {
        assert(pending_ids(rest)[at] == id);
        lemma_listed_pending(rest, id);
        lemma_state_in_longer_book(book, id);
    }
}

proof fn lemma_listed_stale(book: Seq<BridgeRequestView>, now: u64, stale_after: u64, id: u64)
    requires
        distinct_ids(book),
        stale_ids(book, now, stale_after).contains(id),
    ensures
        has_request(book, id),
        state_of(book, id).stale(now, stale_after),
    decreases book.len(),
{
    let rest = book.drop_last();
    let listed = stale_ids(book, now, stale_after);
    let at = choose|i: int| 0 <= i < listed.len() && listed[i] == id;
    lemma_drop_last_distinct(book);
    if book.last().state.stale(now, stale_after) && at == listed.len() - 1 {
        lemma_request_at(book, book.len() - 1);
    } else {
        assert(stale_ids(rest, now, stale_after)[at] == id);
        lemma_listed_stale(rest, now, stale_after, id);
        lemma_state_in_longer_book(book, id);
    }
}

proof fn lemma_reclaim_each(
    book: Seq<BridgeRequestView>,
    ids: Seq<u64>,
    worker: u64,
    now: u64,
    stale_after: u64,
    id: u64,
)
    requires
        distinct_ids(book),
        has_request(book, id),
    ensures
        distinct_ids(reclaim_each(book, ids, worker, now, stale_after)),
        has_request(reclaim_each(book, ids, worker, now, stale_after), id),
        state_of(reclaim_each(book, ids, worker, now, stale_after), id) == if ids.contains(id) {
            state_of(book, id).after_reclaim(worker, now, stale_after)
        } else {
            state_of(book, id)
        },
    decreases ids.len(),
{
    if ids.len() > 0 {
        let earlier = ids.drop_last();
        let last = ids.last();
        let before = reclaim_each(book, earlier, worker, now, stale_after);
        lemma_reclaim_each(book, earlier, worker, now, stale_after, id);
        lemma_with_state(
            before,
            last,
            state_of(before, last).after_reclaim(worker, now, stale_after),
        );
        if id == last {
            assert(ids[ids.len() - 1] == id);
        } else {
            if ids.contains(id) {
                let at = choose|i: int| 0 <= i < ids.len() && ids[i] == id;
                assert(earlier[at] == id);
            }
            if earlier.contains(id) {
                let at = choose|i: int| 0 <= i < earlier.len() && earlier[i] == id;
                assert(ids[at] == id);
            }
        }
    }
}

proof fn lemma_claim_each(
    book: Seq<BridgeRequestView>,
    ids: Seq<u64>,
    worker: u64,
    now: u64,
    id: u64,
)
    requires
        distinct_ids(book),
        has_request(book, id),
    ensures
        distinct_ids(claim_each(book, ids, worker, now)),
        has_request(claim_each(book, ids, worker, now), id),
        state_of(claim_each(book, ids, worker, now), id) == if ids.contains(id) {
            state_of(book, id).after_claim(worker, now)
        } else {
            state_of(book, id)
        },
    decreases ids.len(),
{
    if ids.len() > 0 {
        let earlier = ids.drop_last();
        let last = ids.last();
        let before = claim_each(book, earlier, worker, now);
        lemma_claim_each(book, earlier, worker, now, id);
        lemma_with_state(before, last, state_of(before, last).after_claim(worker, now));
        if id == last {
            assert(ids[ids.len() - 1] == id);
        } else {
            if ids.contains(id) {
                let at = choose|i: int| 0 <= i < ids.len() && ids[i] == id;
                assert(earlier[at] == id);
            }
            if earlier.contains(id) {
                let at = choose|i: int| 0 <= i < earlier.len() && earlier[i] == id;
                assert(ids[at] == id);
            }
        }
    }
}

proof fn lemma_at_most_is_listed(ids: Seq<u64>, limit: nat, index: int)
    requires
        0 <= index < at_most(ids, limit).len(),
    ensures
        ids.contains(at_most(ids, limit)[index]),
        at_most(ids, limit).contains(at_most(ids, limit)[index]),
{
    assert(ids[index] == at_most(ids, limit)[index]);
}

/// Every task of a tick is what the worker may do when the tick is over:
/// each request taken over is the worker's to verify, and each request
/// claimed is the worker's to release.
pub proof fn lemma_tick_tasks_are_permitted(
    book: Seq<BridgeRequestView>,
    worker: u64,
    now: u64,
    limit: usize,
    stale_after: u64,
    index: int,
)
    requires
        distinct_ids(book),
        0 <= index < tick_tasks(book, now, limit, stale_after).len(),
    ensures
        action_in(
            tick_in(book, worker, now, limit, stale_after),
            tick_tasks(book, now, limit, stale_after)[index].id,
            worker,
        ) == tick_tasks(book, now, limit, stale_after)[index].action,
{
    let stale = at_most(stale_ids(book, now, stale_after), limit as nat);
    let pending = at_most(pending_ids(book), limit as nat);
    let taken = reclaim_each(book, stale, worker, now, stale_after);
    let task = tick_tasks(book, now, limit, stale_after)[index];
    if index < stale.len() {
        assert(task == BridgeTask { id: stale[index], action: BridgeAction::Verify });
        lemma_at_most_is_listed(stale_ids(book, now, stale_after), limit as nat, index);
        lemma_listed_stale(book, now, stale_after, task.id);
    } else {
        let at = index - stale.len();
        assert(task == BridgeTask { id: pending[at], action: BridgeAction::Release });
        lemma_at_most_is_listed(pending_ids(book), limit as nat, at);
        lemma_listed_pending(book, task.id);
    }
    lemma_reclaim_each(book, stale, worker, now, stale_after, task.id);
    lemma_claim_each(taken, pending, worker, now, task.id);
}

} // verus!
