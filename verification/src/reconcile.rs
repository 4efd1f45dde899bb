//! The reconciliation step: a plan of actions and what running it does.
//!
//! Both paths decide on a plan, a short list of steps, from what they know of
//! the token and from the provider's detail. The steps are carried out in
//! order, and the first one that fails ends the run: the provider is
//! acknowledged before access is granted, and access is granted before the
//! local record is written. `spec_run` says what a plan does to the store and
//! which outside calls it makes; `run_plan` carries a plan out on the
//! in-memory store, with the outside services' answers given in advance.

use vstd::prelude::*;
use vstd::string::*;
use crate::error::{result_view, AppError, AppResult, ErrorKind, ErrorView};
use crate::model::{PurchaseToken, TokenRecord};
use crate::store::{
    holds_id, keys_unique, lemma_change_keeps_keys, lemma_change_lookup,
    lemma_ids_tell_tokens_apart, lemma_insert_lookup, lookup, with_expired, with_refresh, Change,
    TokenStore,
};
use crate::text::same_text;
use crate::time::Timestamp;
use crate::types::{GooglePlaySubscriptionResponse, PurchaseTokenStatus};

verus! {

/// A call to a service outside this process.
#[derive(Debug, Clone, PartialEq, Eq)]
pub enum ExternalCall {
    /// The provider is asked for the subscription's detail.
    FetchDetail,
    /// The provider is told that the purchase was processed.
    Acknowledge,
    /// The entitlement ledger is told to put `account` on the paid plan.
    Grant { account: String },
    /// The entitlement ledger is told to put `account` back on the free plan.
    Revoke { account: String },
}

/// An outside call, as plain values.
pub enum CallView {
    FetchDetail,
    Acknowledge,
    Grant { account: Seq<char> },
    Revoke { account: Seq<char> },
}

impl View for ExternalCall {
    type V = CallView;

    open spec fn view(&self) -> CallView {
        match self {
            ExternalCall::FetchDetail => CallView::FetchDetail,
            ExternalCall::Acknowledge => CallView::Acknowledge,
            ExternalCall::Grant { account } => CallView::Grant { account: account@ },
            ExternalCall::Revoke { account } => CallView::Revoke { account: account@ },
        }
    }
}

/// A list of outside calls, each taken by its view.
pub open spec fn calls_view(calls: Seq<ExternalCall>) -> Seq<CallView> {
    Seq::new(calls.len(), |i: int| calls[i]@)
}

/// One step of a plan.
#[derive(Debug, Clone, PartialEq, Eq)]
pub enum Step {
    /// Acknowledge the purchase with the provider.
    Acknowledge,
    /// Grant the paid plan to `account`.
    Grant { account: String },
    /// Take the paid plan from `account`.
    Revoke { account: String },
    /// Write a new record, with access granted, for a token first seen. Where
    /// the token is on record by then, the record is refreshed if it belongs
    /// to `user_id`, and the step fails if it belongs to another.
    Insert { user_id: String, purchase_token: String, expiry_at: Timestamp },
    /// Mark the record `id` as granting access until `expiry_at`, or until
    /// its own expiry where that lies later.
    Refresh { id: String, expiry_at: Timestamp },
    /// Mark the record `id` as expired.
    Expire { id: String },
    /// Stop with this error.
    Fail(AppError),
}

/// A step, as plain values.
pub enum StepView {
    Acknowledge,
    Grant { account: Seq<char> },
    Revoke { account: Seq<char> },
    Insert { user_id: Seq<char>, purchase_token: Seq<char>, expiry_at: Timestamp },
    Refresh { id: Seq<char>, expiry_at: Timestamp },
    Expire { id: Seq<char> },
    Fail(ErrorView),
}

impl View for Step {
    type V = StepView;

    open spec fn view(&self) -> StepView {
        match self {
            Step::Acknowledge => StepView::Acknowledge,
            Step::Grant { account } => StepView::Grant { account: account@ },
            Step::Revoke { account } => StepView::Revoke { account: account@ },
            Step::Insert { user_id, purchase_token, expiry_at } => StepView::Insert {
                user_id: user_id@,
                purchase_token: purchase_token@,
                expiry_at: *expiry_at,
            },
            Step::Refresh { id, expiry_at } => StepView::Refresh { id: id@, expiry_at: *expiry_at },
            Step::Expire { id } => StepView::Expire { id: id@ },
            Step::Fail(e) => StepView::Fail(e@),
        }
    }
}

/// A plan, each step taken by its view.
pub open spec fn plan_view(steps: Seq<Step>) -> Seq<StepView> {
    Seq::new(steps.len(), |i: int| steps[i]@)
}

/// What the outside services answer: the provider to a request for the
/// subscription's detail and to an acknowledgment, the entitlement ledger to a
/// grant and to a revocation.
#[derive(Debug, PartialEq, Eq)]
pub struct Services {
    pub detail: AppResult<GooglePlaySubscriptionResponse>,
    pub acknowledge: AppResult<()>,
    pub grant: AppResult<()>,
    pub revoke: AppResult<()>,
}

/// The answers to the calls that a plan can make, as plain values.
pub struct Answers {
    pub acknowledge: Result<(), ErrorView>,
    pub grant: Result<(), ErrorView>,
    pub revoke: Result<(), ErrorView>,
}

impl Services {
    /// The answers to the calls that a plan can make.
    pub open spec fn answers(self) -> Answers {
        Answers {
            acknowledge: result_view(self.acknowledge),
            grant: result_view(self.grant),
            revoke: result_view(self.revoke),
        }
    }
}

/// How far a run has come: the store, the outside calls made so far in their
/// order, and whether a step has failed.
pub struct Run {
    pub store: Seq<TokenRecord>,
    pub calls: Seq<CallView>,
    pub result: Result<(), ErrorView>,
}

/// The error of an insertion whose freshly drawn identifier is already taken.
pub open spec fn conflict_error() -> ErrorView {
    ErrorView::with_detail(ErrorKind::DatabaseOperation, "Record identifier is already taken"@)
}

/// The run before its first step.
pub open spec fn start_of(store: Seq<TokenRecord>) -> Run {
    Run { store, calls: Seq::<CallView>::empty(), result: Ok(()) }
}

/// The record that an insertion writes. Its identifier and its creation time
/// are drawn when the step is carried out.
pub open spec fn inserted_record(
    fresh_id: Seq<char>,
    created_at: Timestamp,
    user_id: Seq<char>,
    purchase_token: Seq<char>,
    expiry_at: Timestamp,
) -> TokenRecord {
    TokenRecord {
        id: fresh_id,
        user_id,
        purchase_token,
        status: PurchaseTokenStatus::AccessGranted,
        created_at,
        expiry_at,
    }
}

/// A run after one more step. Once a step has failed, nothing more happens.
///
/// An insertion that finds the token on record after all, written by a
/// request that ran at the same time, goes the way of a token that is on
/// record: the record of the same owner is refreshed, and the token of
/// another owner is refused.
pub open spec fn spec_step(
    before: Run,
    step: StepView,
    fresh_id: Seq<char>,
    created_at: Timestamp,
    answers: Answers,
) -> Run {
    if before.result is Err {
        before
    } else {
        match step {
            StepView::Acknowledge => Run {
                calls: before.calls.push(CallView::Acknowledge),
                result: answers.acknowledge,
                ..before
            },
            StepView::Grant { account } => Run {
                calls: before.calls.push(CallView::Grant { account }),
                result: answers.grant,
                ..before
            },
            StepView::Revoke { account } => Run {
                calls: before.calls.push(CallView::Revoke { account }),
                result: answers.revoke,
                ..before
            },
            StepView::Insert { user_id, purchase_token, expiry_at } => match lookup(
                before.store,
                purchase_token,
            ) {
                Some(record) => if record.user_id == user_id {
                    Run { store: with_refresh(before.store, record.id, expiry_at), ..before }
                } else {
                    Run { result: Err(ErrorView::plain(ErrorKind::TokenAlreadyUsed)), ..before }
                },
                None => if holds_id(before.store, fresh_id) {
                    Run { result: Err(conflict_error()), ..before }
                } else {
                    Run {
                        store: before.store.push(
                            inserted_record(fresh_id, created_at, user_id, purchase_token, expiry_at),
                        ),
                        ..before
                    }
                },
            },
            StepView::Refresh { id, expiry_at } => Run {
                store: with_refresh(before.store, id, expiry_at),
                ..before
            },
            StepView::Expire { id } => Run { store: with_expired(before.store, id), ..before },
            StepView::Fail(e) => Run { result: Err(e), ..before },
        }
    }
}

/// A run after the steps of a plan, taken in order from `init`.
pub open spec fn spec_run_from(
    steps: Seq<StepView>,
    init: Run,
    fresh_id: Seq<char>,
    created_at: Timestamp,
    answers: Answers,
) -> Run
    decreases steps.len(),
{
    if steps.len() == 0 {
        init
    } else {
        spec_step(
            spec_run_from(steps.drop_last(), init, fresh_id, created_at, answers),
            steps.last(),
            fresh_id,
            created_at,
            answers,
        )
    }
}

/// What a plan does to a store: the store afterwards, the outside calls in
/// their order, and the result.
pub open spec fn spec_run(
    steps: Seq<StepView>,
    store: Seq<TokenRecord>,
    fresh_id: Seq<char>,
    created_at: Timestamp,
    answers: Answers,
) -> Run {
    spec_run_from(steps, start_of(store), fresh_id, created_at, answers)
}

/// What a run did: its result and the outside calls it made, in their order.
#[derive(Debug, PartialEq, Eq)]
pub struct Execution {
    pub result: AppResult<()>,
    pub calls: Vec<ExternalCall>,
}

/// A copy of a service's answer.
pub fn copy_answer(answer: &AppResult<()>) -> (copy: AppResult<()>)
    ensures
        result_view(copy) == result_view(*answer),
{
    match answer {
        Ok(()) => Ok(()),
        Err(e) => Err(e.duplicate()),
    }
}

/// Carries a plan out on the store. The outside services are not called:
/// what they answer is given in `services`. A record that the plan inserts
/// gets the identifier `fresh_id` and the creation time `created_at`.
pub fn run_plan(
    store: &mut TokenStore,
    steps: &Vec<Step>,
    services: &Services,
    fresh_id: &str,
    created_at: Timestamp,
) -> (done: Execution)
    requires
        old(store).wf(),
    ensures
        final(store).wf(),
        ({
            let run = spec_run(
                plan_view(steps@),
                old(store)@,
                fresh_id@,
                created_at,
                services.answers(),
            );
            &&& final(store)@ == run.store
            &&& calls_view(done.calls@) == run.calls
            &&& result_view(done.result) == run.result
        }),
{
    let ghost plan = plan_view(steps@);
    let ghost init = start_of(store@);
    let ghost answers = services.answers();
    let mut result: AppResult<()> = Ok(());
    let mut calls: Vec<ExternalCall> = Vec::new();
    assert(calls_view(calls@) =~= Seq::<CallView>::empty());
    let mut i: usize = 0;
    while i < steps.len()
        invariant
            i <= steps.len(),
            store.wf(),
            plan == plan_view(steps@),
            answers == services.answers(),
            (Run { store: store@, calls: calls_view(calls@), result: result_view(result) })
                == spec_run_from(plan.take(i as int), init, fresh_id@, created_at, answers),
        decreases steps.len() - i,
    {
        let ghost before = Run {
            store: store@,
            calls: calls_view(calls@),
            result: result_view(result),
        };
        let ghost logged = calls@;
        proof {
            assert(plan.take(i + 1).drop_last() =~= plan.take(i as int));
            assert(plan.take(i + 1).last() == steps@[i as int]@);
        }
        if result.is_ok() {
            match &steps[i] {
                Step::Acknowledge => {
                    calls.push(ExternalCall::Acknowledge);
                    result = copy_answer(&services.acknowledge);
                    assert(calls_view(calls@) =~= calls_view(logged).push(CallView::Acknowledge));
                },
                Step::Grant { account } => {
                    calls.push(ExternalCall::Grant { account: account.clone() });
                    result = copy_answer(&services.grant);
                    assert(calls_view(calls@) =~= calls_view(logged).push(
                        CallView::Grant { account: account@ },
                    ));
                },
                Step::Revoke { account } => {
                    calls.push(ExternalCall::Revoke { account: account.clone() });
                    result = copy_answer(&services.revoke);
                    assert(calls_view(calls@) =~= calls_view(logged).push(
                        CallView::Revoke { account: account@ },
                    ));
                },
                Step::Insert { user_id, purchase_token, expiry_at } => {
                    match store.find_by_token(purchase_token.as_str()) {
                        Some(record) => {
                            if same_text(record.user_id.as_str(), user_id.as_str()) {
                                store.refresh(record.id.as_str(), *expiry_at);
                            } else {
                                result = Err(AppError::TokenAlreadyUsed);
                            }
                        },
                        None => {
                            let record = PurchaseToken::with_identity(
                                String::from_str(fresh_id),
                                created_at,
                                user_id.clone(),
                                purchase_token.clone(),
                                *expiry_at,
                                PurchaseTokenStatus::AccessGranted,
                            );
                            assert(record@ == inserted_record(
                                fresh_id@,
                                created_at,
                                user_id@,
                                purchase_token@,
                                *expiry_at,
                            ));
                            match store.insert(record) {
                                Ok(()) => {},
                                Err(_) => {
                                    result = Err(
                                        AppError::DatabaseOperation(
                                            String::from_str("Record identifier is already taken"),
                                        ),
                                    );
                                },
                            }
                        },
                    }
                },
                Step::Refresh { id, expiry_at } => {
                    store.refresh(id.as_str(), *expiry_at);
                },
                Step::Expire { id } => {
                    store.update_status_and_expiry(
                        id.as_str(),
                        Some(PurchaseTokenStatus::Expired),
                        None,
                    );
                },
                Step::Fail(e) => {
                    result = Err(e.duplicate());
                },
            }
        }
        assert((Run { store: store@, calls: calls_view(calls@), result: result_view(result) })
            == spec_step(before, steps@[i as int]@, fresh_id@, created_at, answers));
        i += 1;
    }
    assert(plan.take(steps.len() as int) =~= plan);
    Execution { result, calls }
}


/// The record that a step grants access to again, if it is such a step.
pub open spec fn refresh_target(step: StepView) -> Option<Seq<char>> {
    match step {
        StepView::Refresh { id, .. } => Some(id),
        _ => None,
    }
}

/// The token for which a step writes a new record, if it is such a step.
pub open spec fn insert_target(step: StepView) -> Option<Seq<char>> {
    match step {
        StepView::Insert { purchase_token, .. } => Some(purchase_token),
        _ => None,
    }
}

/// Whether some step of the plan grants access again to the record `id`.
pub open spec fn refreshes(steps: Seq<StepView>, id: Seq<char>) -> bool {
    exists|i: int| 0 <= i < steps.len() && #[trigger] refresh_target(steps[i]) == Some(id)
}

/// Whether some step of the plan writes a new record for `token`.
pub open spec fn inserts(steps: Seq<StepView>, token: Seq<char>) -> bool {
    exists|i: int| 0 <= i < steps.len() && #[trigger] insert_target(steps[i]) == Some(token)
}

/// Whether some step of the plan can make the record say again that access is
/// granted: a refresh of the record, or an insertion for its token.
pub open spec fn grants_again(steps: Seq<StepView>, record: TokenRecord) -> bool {
    refreshes(steps, record.id) || inserts(steps, record.purchase_token)
}

/// What may become of a record in a run: it keeps its identifier, its owner,
/// its token and its creation time; its expiry does not move backward; and
/// its status stays, or becomes expired, or, where a step grants access to it
/// again, says that access is granted.
pub open spec fn fate_allowed(before: TokenRecord, after: TokenRecord, refreshed: bool) -> bool {
    &&& after.id == before.id
    &&& after.user_id == before.user_id
    &&& after.purchase_token == before.purchase_token
    &&& after.created_at == before.created_at
    &&& after.expiry_at.is_at_or_after(before.expiry_at)
    &&& (after.status == before.status || after.status == PurchaseTokenStatus::Expired || (refreshed
        && after.status == PurchaseTokenStatus::AccessGranted))
}

/// The steps of two plans carried out one after the other are the steps of
/// the joined plan.
pub proof fn lemma_run_concat(
    first: Seq<StepView>,
    second: Seq<StepView>,
    init: Run,
    fresh_id: Seq<char>,
    created_at: Timestamp,
    answers: Answers,
)
    ensures
        spec_run_from(first + second, init, fresh_id, created_at, answers) == spec_run_from(
            second,
            spec_run_from(first, init, fresh_id, created_at, answers),
            fresh_id,
            created_at,
            answers,
        ),
    decreases second.len(),
{
    if second.len() == 0 {
        assert(first + second =~= first);
    } else {
        assert((first + second).drop_last() =~= first + second.drop_last());
        assert((first + second).last() == second.last());
        lemma_run_concat(first, second.drop_last(), init, fresh_id, created_at, answers);
    }
}

/// A plan of one step does what the step does.
pub proof fn lemma_run_single(
    step: StepView,
    init: Run,
    fresh_id: Seq<char>,
    created_at: Timestamp,
    answers: Answers,
)
    ensures
        spec_run_from(seq![step], init, fresh_id, created_at, answers) == spec_step(
            init,
            step,
            fresh_id,
            created_at,
            answers,
        ),
{
    assert(seq![step].drop_last() =~= Seq::<StepView>::empty());
    assert(seq![step].last() == step);
    reveal_with_fuel(spec_run_from, 2);
}

/// Once a step has failed, the rest of the plan changes nothing.
pub proof fn law_failure_ends_the_run(
    steps: Seq<StepView>,
    init: Run,
    fresh_id: Seq<char>,
    created_at: Timestamp,
    answers: Answers,
)
    requires
        init.result is Err,
    ensures
        spec_run_from(steps, init, fresh_id, created_at, answers) == init,
    decreases steps.len(),
{
    if steps.len() > 0 {
        law_failure_ends_the_run(steps.drop_last(), init, fresh_id, created_at, answers);
    }
}

/// Whatever the plan and whatever the services answer, a run keeps the keys
/// of the store unique, keeps every record that was there, within the bounds
/// of `fate_allowed`, and adds a record only for a token that a step inserts.
pub proof fn lemma_run_keeps_records(
    steps: Seq<StepView>,
    init: Run,
    fresh_id: Seq<char>,
    created_at: Timestamp,
    answers: Answers,
)
    requires
        keys_unique(init.store),
    ensures
        keys_unique(spec_run_from(steps, init, fresh_id, created_at, answers).store),
        forall|token: Seq<char>| #[trigger]
            lookup(init.store, token) is Some ==> {
                let after = lookup(
                    spec_run_from(steps, init, fresh_id, created_at, answers).store,
                    token,
                );
                let before = lookup(init.store, token)->Some_0;
                after is Some && fate_allowed(before, after->Some_0, grants_again(steps, before))
            },
        forall|token: Seq<char>| #[trigger]
            lookup(init.store, token) is None && lookup(
                spec_run_from(steps, init, fresh_id, created_at, answers).store,
                token,
            ) is Some ==> inserts(steps, token),
    decreases steps.len(),
{
    let fin = spec_run_from(steps, init, fresh_id, created_at, answers);
    if steps.len() == 0 {
    } else {
        let prefix = steps.drop_last();
        let last = steps.last();
        let mid = spec_run_from(prefix, init, fresh_id, created_at, answers);
        lemma_run_keeps_records(prefix, init, fresh_id, created_at, answers);
        assert forall|id: Seq<char>| refreshes(prefix, id) implies refreshes(steps, id) by {
            let i = choose|i: int|
                0 <= i < prefix.len() && #[trigger] refresh_target(prefix[i]) == Some(id);
            assert(steps[i] == prefix[i]);
            assert(refresh_target(steps[i]) == Some(id));
        }
        assert forall|token: Seq<char>| inserts(prefix, token) implies inserts(steps, token) by {
            let i = choose|i: int|
                0 <= i < prefix.len() && #[trigger] insert_target(prefix[i]) == Some(token);
            assert(steps[i] == prefix[i]);
            assert(insert_target(steps[i]) == Some(token));
        }
        let n = steps.len() - 1;
        assert(steps[n] == last);
        if mid.result is Err {
            assert(fin == mid);
        } else {
            match last {
                StepView::Refresh { id, expiry_at } => {
                    let change = Change::Refresh { until: expiry_at };
                    lemma_change_keeps_keys(mid.store, id, change);
                    assert(refresh_target(steps[n]) == Some(id));
                    assert(refreshes(steps, id));
                    assert forall|token: Seq<char>|
                        lookup(fin.store, token) == match lookup(mid.store, token) {
                            Some(r) => Some(
                                if r.id == id {
                                    crate::store::changed(r, change)
                                } else {
                                    r
                                },
                            ),
                            None => None,
                        } by {
                        lemma_change_lookup(mid.store, id, change, token);
                    }
                },
                StepView::Expire { id } => {
                    let change = Change::Amend {
                        status: Some(PurchaseTokenStatus::Expired),
                        expiry_at: None,
                    };
                    lemma_change_keeps_keys(mid.store, id, change);
                    assert forall|token: Seq<char>|
                        lookup(fin.store, token) == match lookup(mid.store, token) {
                            Some(r) => Some(
                                if r.id == id {
                                    crate::store::changed(r, change)
                                } else {
                                    r
                                },
                            ),
                            None => None,
                        } by {
                        lemma_change_lookup(mid.store, id, change, token);
                    }
                },
                StepView::Insert { user_id, purchase_token, expiry_at } => {
                    assert(insert_target(steps[n]) == Some(purchase_token));
                    assert(inserts(steps, purchase_token));
                    match lookup(mid.store, purchase_token) {
                        Some(record) => {
                            if record.user_id == user_id {
                                let change = Change::Refresh { until: expiry_at };
                                lemma_change_keeps_keys(mid.store, record.id, change);
                                assert forall|token: Seq<char>|
                                    lookup(fin.store, token) == match lookup(mid.store, token) {
                                        Some(r) => Some(
                                            if r.id == record.id {
                                                crate::store::changed(r, change)
                                            } else {
                                                r
                                            },
                                        ),
                                        None => None,
                                    } by {
                                    lemma_change_lookup(mid.store, record.id, change, token);
                                }
                                assert forall|token: Seq<char>|
                                    lookup(mid.store, token) is Some && lookup(
                                        mid.store,
                                        token,
                                    )->Some_0.id == record.id implies token == purchase_token by {
                                    lemma_ids_tell_tokens_apart(mid.store, token, purchase_token);
                                }
                            } else {
                                assert(fin.store == mid.store);
                            }
                        },
                        None => {
                            if holds_id(mid.store, fresh_id) {
                                assert(fin.store == mid.store);
                            } else {
                                let record = inserted_record(
                                    fresh_id,
                                    created_at,
                                    user_id,
                                    purchase_token,
                                    expiry_at,
                                );
                                lemma_insert_lookup(mid.store, record, purchase_token);
                                assert forall|token: Seq<char>|
                                    lookup(fin.store, token) == if token == purchase_token {
                                        Some(record)
                                    } else {
                                        lookup(mid.store, token)
                                    } by {
                                    lemma_insert_lookup(mid.store, record, token);
                                }
                            }
                        },
                    }
                },
                _ => {
                    assert(fin.store == mid.store);
                },
            }
        }
        assert forall|token: Seq<char>| #[trigger] lookup(init.store, token) is Some implies {
            let after = lookup(fin.store, token);
            let before = lookup(init.store, token)->Some_0;
            after is Some && fate_allowed(before, after->Some_0, grants_again(steps, before))
        } by {
            let before = lookup(init.store, token)->Some_0;
            let between = lookup(mid.store, token);
            assert(between is Some && fate_allowed(
                before,
                between->Some_0,
                grants_again(prefix, before),
            ));
        }
        assert forall|token: Seq<char>| #[trigger]
            lookup(init.store, token) is None && lookup(fin.store, token) is Some implies inserts(
            steps,
            token,
        ) by {
            if lookup(mid.store, token) is Some {
                assert(inserts(prefix, token));
            }
        }
    }
}

/// Whether a step asks the ledger to grant access.
pub open spec fn is_grant(step: StepView) -> bool {
    step is Grant
}

/// Whether a step writes that access is granted: an insertion or a refresh.
pub open spec fn writes_access(step: StepView) -> bool {
    step is Insert || step is Refresh
}

/// Whether the plan asks the ledger to grant access.
pub open spec fn has_grant(steps: Seq<StepView>) -> bool {
    exists|i: int| 0 <= i < steps.len() && #[trigger] is_grant(steps[i])
}

/// Whether among the calls there is one that asked the ledger to grant
/// access.
pub open spec fn grant_was_called(calls: Seq<CallView>) -> bool {
    exists|i: int| 0 <= i < calls.len() && (#[trigger] calls[i]) is Grant
}

/// A plan is guarded where every step that writes that access is granted
/// comes after a step that asks the ledger to grant it.
pub open spec fn guarded(steps: Seq<StepView>) -> bool {
    forall|j: int|
        0 <= j < steps.len() && #[trigger] writes_access(steps[j]) ==> has_grant(steps.take(j))
}

/// Whether `token` has access on record.
pub open spec fn has_access(store: Seq<TokenRecord>, token: Seq<char>) -> bool {
    lookup(store, token) is Some && lookup(store, token)->Some_0.status
        == PurchaseTokenStatus::AccessGranted
}

/// A run that ends well after a plan that asks the ledger to grant access
/// has called the ledger, and the ledger has granted. Calls that were made
/// stay made.
pub proof fn lemma_run_grants(
    steps: Seq<StepView>,
    init: Run,
    fresh_id: Seq<char>,
    created_at: Timestamp,
    answers: Answers,
)
    ensures
        ({
            let run = spec_run_from(steps, init, fresh_id, created_at, answers);
            &&& grant_was_called(init.calls) ==> grant_was_called(run.calls)
            &&& run.result is Ok && init.result is Ok && has_grant(steps) ==> answers.grant is Ok
                && grant_was_called(run.calls)
            &&& run.result is Ok ==> init.result is Ok
        }),
    decreases steps.len(),
{
    let run = spec_run_from(steps, init, fresh_id, created_at, answers);
    if steps.len() > 0 {
        let prefix = steps.drop_last();
        let last = steps.last();
        let mid = spec_run_from(prefix, init, fresh_id, created_at, answers);
        lemma_run_grants(prefix, init, fresh_id, created_at, answers);
        if grant_was_called(mid.calls) {
            let i = choose|i: int| 0 <= i < mid.calls.len() && (#[trigger] mid.calls[i]) is Grant;
            if run.calls != mid.calls {
                assert(run.calls[i] == mid.calls[i]);
            }
        }
        if run.result is Ok && init.result is Ok && has_grant(steps) {
            let g = choose|i: int| 0 <= i < steps.len() && #[trigger] is_grant(steps[i]);
            if g < prefix.len() {
                assert(prefix[g] == steps[g]);
                assert(is_grant(prefix[g]));
                assert(has_grant(prefix));
            } else {
                assert(is_grant(last));
                assert(run.calls[mid.calls.len() as int] is Grant);
            }
        }
    }
}

/// In a run of a guarded plan, a token gets access on record only after the
/// ledger was called and has granted.
pub proof fn lemma_access_follows_grant(
    steps: Seq<StepView>,
    init: Run,
    fresh_id: Seq<char>,
    created_at: Timestamp,
    answers: Answers,
    token: Seq<char>,
)
    requires
        keys_unique(init.store),
        init.result is Ok,
        guarded(steps),
        !has_access(init.store, token),
        has_access(spec_run_from(steps, init, fresh_id, created_at, answers).store, token),
    ensures
        answers.grant is Ok,
        grant_was_called(spec_run_from(steps, init, fresh_id, created_at, answers).calls),
    decreases steps.len(),
{
    let run = spec_run_from(steps, init, fresh_id, created_at, answers);
    if steps.len() > 0 {
        let prefix = steps.drop_last();
        let last = steps.last();
        let mid = spec_run_from(prefix, init, fresh_id, created_at, answers);
        assert forall|j: int| 0 <= j < prefix.len() && #[trigger] writes_access(
            prefix[j],
        ) implies has_grant(prefix.take(j)) by {
            assert(steps[j] == prefix[j]);
            assert(writes_access(steps[j]));
            assert(steps.take(j) =~= prefix.take(j));
        }
        lemma_run_grants(seq![last], mid, fresh_id, created_at, answers);
        lemma_run_single(last, mid, fresh_id, created_at, answers);
        if has_access(mid.store, token) {
            lemma_access_follows_grant(prefix, init, fresh_id, created_at, answers, token);
        } else {
            lemma_run_keeps_records(prefix, init, fresh_id, created_at, answers);
            assert(mid.store != run.store);
            assert(mid.result is Ok);
            match last {
                StepView::Expire { id } => {
                    let change = Change::Amend {
                        status: Some(PurchaseTokenStatus::Expired),
                        expiry_at: None,
                    };
                    lemma_change_lookup(mid.store, id, change, token);
                },
                _ => {},
            }
            assert(writes_access(last));
            let n = steps.len() - 1;
            assert(steps[n] == last);
            assert(steps.take(n) =~= prefix);
            assert(has_grant(prefix));
            lemma_run_grants(prefix, init, fresh_id, created_at, answers);
        }
    }
}

/// Steps that write no access, put before a guarded plan, leave it guarded.
pub proof fn lemma_guarded_concat(first: Seq<StepView>, second: Seq<StepView>)
    requires
        forall|i: int| 0 <= i < first.len() ==> !#[trigger] writes_access(first[i]),
        guarded(second),
    ensures
        guarded(first + second),
{
    let joined = first + second;
    assert forall|j: int| 0 <= j < joined.len() && #[trigger] writes_access(
        joined[j],
    ) implies has_grant(joined.take(j)) by {
        if j < first.len() {
            assert(joined[j] == first[j]);
        } else {
            let k = j - first.len();
            assert(joined[j] == second[k]);
            assert(writes_access(second[k]));
            let g = choose|g: int|
                0 <= g < second.take(k).len() && #[trigger] is_grant(second.take(k)[g]);
            assert(joined.take(j)[first.len() + g] == second[g]);
            assert(is_grant(joined.take(j)[first.len() + g]));
        }
    }
}

/// A call that was made is still there after a call is put before the
/// others.
pub proof fn lemma_grant_call_stays(first: CallView, calls: Seq<CallView>)
    requires
        grant_was_called(calls),
    ensures
        grant_was_called(seq![first] + calls),
{
    let i = choose|i: int| 0 <= i < calls.len() && (#[trigger] calls[i]) is Grant;
    assert((seq![first] + calls)[i + 1] == calls[i]);
}

} // verus!
