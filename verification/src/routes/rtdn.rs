//! The notification path: the provider reports a lifecycle event of a
//! subscription.
//!
//! An event is only a trigger. What is done follows from the provider's
//! detail, fetched anew, and from the kind of the event.

use vstd::prelude::*;
use vstd::string::*;
use vstd::utf8::{decode_utf8, valid_utf8};
use crate::error::{result_view, AppError, AppResult, ErrorKind, ErrorView};
use crate::model::{PurchaseToken, TokenRecord};
use crate::outside::{
    base64_decode, base64_standard_decoding, bytes_view, fresh_id, now_utc, string_from_utf8,
};
use crate::reconcile::{
    calls_view, fate_allowed, grant_was_called, grants_again, guarded, has_access, insert_target,
    inserts,
    lemma_access_follows_grant, lemma_grant_call_stays, lemma_guarded_concat, lemma_run_concat,
    lemma_run_keeps_records, lemma_run_single, plan_view, refresh_target, refreshes, run_plan,
    spec_run, spec_run_from, start_of, writes_access, CallView, ExternalCall, Services, Step,
    StepView,
};
use crate::routes::purchase::{
    access_steps, entitlement_account, lemma_access_steps_guarded, lemma_access_steps_targets,
    record_view, spec_access_steps, spec_entitlement_account, spec_validity,
};
use crate::routes::purchase_token_helpers::{SubscriptionState, TransitionDecision};
use crate::store::{
    keys_unique, lemma_change_keeps_keys, lemma_change_lookup, lemma_ids_tell_tokens_apart,
    lemma_lookup_at, lookup, position_of, Change, TokenStore,
};
use crate::time::Timestamp;
use crate::types::one_time_product_notification_type::{
    ONE_TIME_PRODUCT_CANCELED, ONE_TIME_PRODUCT_PURCHASED,
};
use crate::types::subscription_notification_type::{
    SUBSCRIPTION_CANCELED, SUBSCRIPTION_DEFERRED, SUBSCRIPTION_EXPIRED,
    SUBSCRIPTION_IN_GRACE_PERIOD, SUBSCRIPTION_ON_HOLD, SUBSCRIPTION_PAUSED,
    SUBSCRIPTION_PAUSE_SCHEDULE_CHANGED, SUBSCRIPTION_PRICE_CHANGE_CONFIRMED,
    SUBSCRIPTION_PURCHASED, SUBSCRIPTION_RECOVERED, SUBSCRIPTION_RENEWED, SUBSCRIPTION_RESTARTED,
    SUBSCRIPTION_REVOKED,
};
use crate::types::{
    DeveloperNotification, GooglePlaySubscriptionResponse, OneTimeProductNotification,
    PubSubMessage, PurchaseTokenStatus, SubscriptionNotification,
};

verus! {

/// The kinds of subscription events.
#[derive(Debug, Clone, Copy, PartialEq, Eq, Structural)]
pub enum NotificationKind {
    Recovered,
    Renewed,
    Canceled,
    Purchased,
    OnHold,
    InGracePeriod,
    Restarted,
    PriceChangeConfirmed,
    Deferred,
    Paused,
    PauseScheduleChanged,
    Revoked,
    Expired,
    /// A code that names no kind of event.
    Unrecognized,
}

/// What an event asks for.
#[derive(Debug, Clone, Copy, PartialEq, Eq, Structural)]
pub enum NotificationAction {
    /// A purchase: a token first seen gets access and a record, one that is
    /// on record is renewed.
    NewPurchase,
    /// A renewal or a recovery: access is granted again and the record
    /// refreshed.
    Renewal,
    /// Access is taken away and the record marked expired.
    Revoke,
    /// Nothing: the event is only taken note of.
    Observe,
    /// Nothing: the event's code is unknown, which is taken note of.
    Anomaly,
}

impl NotificationKind {
    /// The kind that a code names.
    pub open spec fn spec_from_code(code: i32) -> NotificationKind {
        if code == SUBSCRIPTION_RECOVERED {
            NotificationKind::Recovered
        } else if code == SUBSCRIPTION_RENEWED {
            NotificationKind::Renewed
        } else if code == SUBSCRIPTION_CANCELED {
            NotificationKind::Canceled
        } else if code == SUBSCRIPTION_PURCHASED {
            NotificationKind::Purchased
        } else if code == SUBSCRIPTION_ON_HOLD {
            NotificationKind::OnHold
        } else if code == SUBSCRIPTION_IN_GRACE_PERIOD {
            NotificationKind::InGracePeriod
        } else if code == SUBSCRIPTION_RESTARTED {
            NotificationKind::Restarted
        } else if code == SUBSCRIPTION_PRICE_CHANGE_CONFIRMED {
            NotificationKind::PriceChangeConfirmed
        } else if code == SUBSCRIPTION_DEFERRED {
            NotificationKind::Deferred
        } else if code == SUBSCRIPTION_PAUSED {
            NotificationKind::Paused
        } else if code == SUBSCRIPTION_PAUSE_SCHEDULE_CHANGED {
            NotificationKind::PauseScheduleChanged
        } else if code == SUBSCRIPTION_REVOKED {
            NotificationKind::Revoked
        } else if code == SUBSCRIPTION_EXPIRED {
            NotificationKind::Expired
        } else {
            NotificationKind::Unrecognized
        }
    }

    /// What an event of this kind asks for.
    pub open spec fn spec_action(self) -> NotificationAction {
        match self {
            NotificationKind::Purchased => NotificationAction::NewPurchase,
            NotificationKind::Renewed | NotificationKind::Recovered => NotificationAction::Renewal,
            NotificationKind::Revoked | NotificationKind::Expired | NotificationKind::OnHold => {
                NotificationAction::Revoke
            },
            NotificationKind::Canceled
            | NotificationKind::InGracePeriod
            | NotificationKind::Restarted
            | NotificationKind::PriceChangeConfirmed
            | NotificationKind::Deferred
            | NotificationKind::Paused
            | NotificationKind::PauseScheduleChanged => NotificationAction::Observe,
            NotificationKind::Unrecognized => NotificationAction::Anomaly,
        }
    }

    /// Reads the code of an event.
    pub fn from_code(code: i32) -> (kind: NotificationKind)
        ensures
            kind == Self::spec_from_code(code),
    {
        if code == SUBSCRIPTION_RECOVERED {
            NotificationKind::Recovered
        } else if code == SUBSCRIPTION_RENEWED {
            NotificationKind::Renewed
        } else if code == SUBSCRIPTION_CANCELED {
            NotificationKind::Canceled
        } else if code == SUBSCRIPTION_PURCHASED {
            NotificationKind::Purchased
        } else if code == SUBSCRIPTION_ON_HOLD {
            NotificationKind::OnHold
        } else if code == SUBSCRIPTION_IN_GRACE_PERIOD {
            NotificationKind::InGracePeriod
        } else if code == SUBSCRIPTION_RESTARTED {
            NotificationKind::Restarted
        } else if code == SUBSCRIPTION_PRICE_CHANGE_CONFIRMED {
            NotificationKind::PriceChangeConfirmed
        } else if code == SUBSCRIPTION_DEFERRED {
            NotificationKind::Deferred
        } else if code == SUBSCRIPTION_PAUSED {
            NotificationKind::Paused
        } else if code == SUBSCRIPTION_PAUSE_SCHEDULE_CHANGED {
            NotificationKind::PauseScheduleChanged
        } else if code == SUBSCRIPTION_REVOKED {
            NotificationKind::Revoked
        } else if code == SUBSCRIPTION_EXPIRED {
            NotificationKind::Expired
        } else {
            NotificationKind::Unrecognized
        }
    }

    /// What an event of this kind asks for.
    pub fn action(&self) -> (action: NotificationAction)
        ensures
            action == self.spec_action(),
    {
        match self {
            NotificationKind::Purchased => NotificationAction::NewPurchase,
            NotificationKind::Renewed | NotificationKind::Recovered => NotificationAction::Renewal,
            NotificationKind::Revoked | NotificationKind::Expired | NotificationKind::OnHold => {
                NotificationAction::Revoke
            },
            NotificationKind::Unrecognized => NotificationAction::Anomaly,
            _ => NotificationAction::Observe,
        }
    }
}

/// What an event asks for, going by its code.
pub open spec fn spec_action_of(notification: SubscriptionNotification) -> NotificationAction {
    NotificationKind::spec_from_code(notification.notification_type).spec_action()
}

/// The error of an event that needs a record where the token has none.
pub open spec fn unknown_token_error() -> ErrorView {
    ErrorView::with_detail(ErrorKind::BadRequest, "No record of this purchase token"@)
}

/// The steps that retire the token which the detail names as superseded: its
/// record, if it has one, is marked expired.
pub open spec fn spec_supersede_steps(
    detail: GooglePlaySubscriptionResponse,
    linked: Option<TokenRecord>,
) -> Seq<StepView> {
    match (detail.linked_purchase_token, linked) {
        (Some(_), Some(record)) => seq![StepView::Expire { id: record.id }],
        _ => Seq::<StepView>::empty(),
    }
}

/// The owner that the record of a purchase reported by the provider gets:
/// the account that the detail names.
pub open spec fn spec_owner(detail: GooglePlaySubscriptionResponse) -> Seq<char> {
    match spec_entitlement_account(detail) {
        Some(account) => account,
        None => Seq::<char>::empty(),
    }
}

/// The steps that take access away: the token must be on record and the
/// detail must name the account; then access is revoked and the record marked
/// expired.
pub open spec fn spec_revoke_steps(
    existing: Option<TokenRecord>,
    detail: GooglePlaySubscriptionResponse,
) -> Seq<StepView> {
    match existing {
        None => seq![StepView::Fail(unknown_token_error())],
        Some(record) => match spec_entitlement_account(detail) {
            None => seq![
                StepView::Fail(ErrorView::plain(ErrorKind::ExternalAccountIdentifiersMissing)),
            ],
            Some(account) => seq![StepView::Revoke { account }, StepView::Expire { id: record.id }],
        },
    }
}

/// The steps that renew a token on record: where the detail lets it proceed,
/// access is granted again and the record refreshed.
pub open spec fn spec_renewal_steps(
    record: TokenRecord,
    notification: SubscriptionNotification,
    detail: GooglePlaySubscriptionResponse,
) -> Seq<StepView> {
    spec_access_steps(
        Some(record),
        record.user_id,
        notification.purchase_token@,
        notification.subscription_id@,
        detail,
        false,
    )
}

/// The steps that the kind of the event asks for.
pub open spec fn spec_flow_steps(
    notification: SubscriptionNotification,
    detail: GooglePlaySubscriptionResponse,
    existing: Option<TokenRecord>,
) -> Seq<StepView> {
    match spec_action_of(notification) {
        NotificationAction::NewPurchase => match existing {
            Some(record) => spec_renewal_steps(record, notification, detail),
            None => spec_access_steps(
                None,
                spec_owner(detail),
                notification.purchase_token@,
                notification.subscription_id@,
                detail,
                true,
            ),
        },
        NotificationAction::Renewal => match existing {
            Some(record) => spec_renewal_steps(record, notification, detail),
            None => seq![StepView::Fail(unknown_token_error())],
        },
        NotificationAction::Revoke => spec_revoke_steps(existing, detail),
        NotificationAction::Observe | NotificationAction::Anomaly => Seq::<StepView>::empty(),
    }
}

/// The plan of an event: the superseded token is retired first, whatever
/// follows; then come the steps that the kind of the event asks for.
pub open spec fn spec_plan_notification(
    notification: SubscriptionNotification,
    detail: GooglePlaySubscriptionResponse,
    existing: Option<TokenRecord>,
    linked: Option<TokenRecord>,
) -> Seq<StepView> {
    spec_supersede_steps(detail, linked) + spec_flow_steps(notification, detail, existing)
}

/// Plans an event from the provider's detail, from the record of the event's
/// token and from the record of the token that the detail names as
/// superseded.
pub fn plan_notification(
    notification: &SubscriptionNotification,
    detail: &GooglePlaySubscriptionResponse,
    existing: Option<&PurchaseToken>,
    linked: Option<&PurchaseToken>,
) -> (plan: Vec<Step>)
    ensures
        plan_view(plan@) == spec_plan_notification(
            *notification,
            *detail,
            record_view(existing),
            record_view(linked),
        ),
{
    let ghost target = spec_plan_notification(
        *notification,
        *detail,
        record_view(existing),
        record_view(linked),
    );
    let ghost flow = spec_flow_steps(*notification, *detail, record_view(existing));
    let mut plan: Vec<Step> = Vec::new();
    match (&detail.linked_purchase_token, linked) {
        (Some(_), Some(record)) => {
            plan.push(Step::Expire { id: record.id.clone() });
        },
        _ => {},
    }
    let ghost superseded = plan_view(plan@);
    assert(superseded =~= spec_supersede_steps(*detail, record_view(linked)));
    let token = notification.purchase_token.as_str();
    let product = notification.subscription_id.as_str();
    match NotificationKind::from_code(notification.notification_type).action() {
        NotificationAction::NewPurchase => match existing {
            Some(record) => {
                access_steps(
                    &mut plan,
                    existing,
                    record.user_id.as_str(),
                    token,
                    product,
                    detail,
                    false,
                );
            },
            None => {
                let owner = match entitlement_account(detail) {
                    Some(account) => account,
                    None => String::new(),
                };
                access_steps(&mut plan, None, owner.as_str(), token, product, detail, true);
            },
        },
        NotificationAction::Renewal => match existing {
            Some(record) => {
                access_steps(
                    &mut plan,
                    existing,
                    record.user_id.as_str(),
                    token,
                    product,
                    detail,
                    false,
                );
            },
            None => {
                plan.push(
                    Step::Fail(
                        AppError::BadRequest(String::from_str("No record of this purchase token")),
                    ),
                );
                assert(plan_view(plan@) =~= superseded + flow);
            },
        },
        NotificationAction::Revoke => match existing {
            None => {
                plan.push(
                    Step::Fail(
                        AppError::BadRequest(String::from_str("No record of this purchase token")),
                    ),
                );
                assert(plan_view(plan@) =~= superseded + flow);
            },
            Some(record) => match entitlement_account(detail) {
                None => {
                    plan.push(Step::Fail(AppError::ExternalAccountIdentifiersMissing));
                    assert(plan_view(plan@) =~= superseded + flow);
                },
                Some(account) => {
                    plan.push(Step::Revoke { account });
                    plan.push(Step::Expire { id: record.id.clone() });
                    assert(plan_view(plan@) =~= superseded + flow);
                },
            },
        },
        NotificationAction::Observe | NotificationAction::Anomaly => {
            assert(plan_view(plan@) =~= superseded + flow);
        },
    }
    plan
}

/// How an event ended well.
#[derive(Debug, Clone, Copy, PartialEq, Eq, Structural)]
pub enum NotificationOutcome {
    /// A token first seen got access and a record.
    Granted,
    /// A token on record got access again and its record was refreshed.
    Renewed,
    /// Access was taken away and the record marked expired.
    Revoked,
    /// The event was taken note of.
    Observed,
    /// The event's code is unknown, which was taken note of.
    Unrecognized,
}

/// How an event ends where no step fails.
pub open spec fn spec_outcome(
    action: NotificationAction,
    existing: Option<TokenRecord>,
) -> NotificationOutcome {
    match action {
        NotificationAction::NewPurchase => if existing is Some {
            NotificationOutcome::Renewed
        } else {
            NotificationOutcome::Granted
        },
        NotificationAction::Renewal => NotificationOutcome::Renewed,
        NotificationAction::Revoke => NotificationOutcome::Revoked,
        NotificationAction::Observe => NotificationOutcome::Observed,
        NotificationAction::Anomaly => NotificationOutcome::Unrecognized,
    }
}

/// What handling an event did: its result and the outside calls it made, in
/// their order.
#[derive(Debug, PartialEq, Eq)]
pub struct Notified {
    pub result: AppResult<NotificationOutcome>,
    pub calls: Vec<ExternalCall>,
}

/// What handling an event does: the store afterwards, the outside calls in
/// their order, and the result.
pub struct NotifyRun {
    pub store: Seq<TokenRecord>,
    pub calls: Seq<CallView>,
    pub result: Result<NotificationOutcome, ErrorView>,
}

/// The record of the token that the detail names as superseded, if the detail
/// names one and it is on record.
pub open spec fn spec_linked_record(
    store: Seq<TokenRecord>,
    detail: GooglePlaySubscriptionResponse,
) -> Option<TokenRecord> {
    match detail.linked_purchase_token {
        Some(token) => lookup(store, token@),
        None => None,
    }
}

/// The plan of an event against a store.
pub open spec fn spec_plan_against(
    store: Seq<TokenRecord>,
    notification: SubscriptionNotification,
    detail: GooglePlaySubscriptionResponse,
) -> Seq<StepView> {
    spec_plan_notification(
        notification,
        detail,
        lookup(store, notification.purchase_token@),
        spec_linked_record(store, detail),
    )
}

/// What handling a subscription event does to `store`, where the outside
/// services answer as `services` says. The provider is asked for the detail
/// first; where that fails, nothing else happens. Otherwise the plan of the
/// event is carried out.
pub open spec fn spec_handle_subscription_notification(
    store: Seq<TokenRecord>,
    notification: SubscriptionNotification,
    services: Services,
    fresh_id: Seq<char>,
    created_at: Timestamp,
) -> NotifyRun {
    match services.detail {
        Err(e) => NotifyRun { store, calls: seq![CallView::FetchDetail], result: Err(e@) },
        Ok(detail) => {
            let run = spec_run(
                spec_plan_against(store, notification, detail),
                store,
                fresh_id,
                created_at,
                services.answers(),
            );
            NotifyRun {
                store: run.store,
                calls: seq![CallView::FetchDetail] + run.calls,
                result: match run.result {
                    Ok(()) => Ok(
                        spec_outcome(
                            spec_action_of(notification),
                            lookup(store, notification.purchase_token@),
                        ),
                    ),
                    Err(e) => Err(e),
                },
            }
        },
    }
}

/// Handles a subscription event against the store. The outside services are
/// not called: what they answer is given in `services`. A record that is
/// written anew gets the identifier `fresh_id` and the creation time
/// `created_at`.
pub fn handle_subscription_notification_at(
    store: &mut TokenStore,
    services: &Services,
    notification: &SubscriptionNotification,
    fresh_id: &str,
    created_at: Timestamp,
) -> (done: Notified)
    requires
        old(store).wf(),
    ensures
        final(store).wf(),
        ({
            let run = spec_handle_subscription_notification(
                old(store)@,
                *notification,
                *services,
                fresh_id@,
                created_at,
            );
            &&& final(store)@ == run.store
            &&& calls_view(done.calls@) == run.calls
            &&& result_view(done.result) == run.result
        }),
{
    match &services.detail {
        Err(e) => {
            let mut calls: Vec<ExternalCall> = Vec::new();
            calls.push(ExternalCall::FetchDetail);
            assert(calls_view(calls@) =~= seq![CallView::FetchDetail]);
            Notified { result: Err(e.duplicate()), calls }
        },
        Ok(detail) => {
            let existing = store.find_by_token(notification.purchase_token.as_str());
            let linked = match &detail.linked_purchase_token {
                Some(token) => store.find_by_token(token.as_str()),
                None => None,
            };
            let plan = plan_notification(notification, detail, existing.as_ref(), linked.as_ref());
            let done = run_plan(store, &plan, services, fresh_id, created_at);
            let ghost made = calls_view(done.calls@);
            let mut calls = done.calls;
            calls.insert(0, ExternalCall::FetchDetail);
            assert(calls_view(calls@) =~= seq![CallView::FetchDetail] + made);
            let result = match done.result {
                Ok(()) => Ok(
                    match NotificationKind::from_code(notification.notification_type).action() {
                        NotificationAction::NewPurchase => if existing.is_some() {
                            NotificationOutcome::Renewed
                        } else {
                            NotificationOutcome::Granted
                        },
                        NotificationAction::Renewal => NotificationOutcome::Renewed,
                        NotificationAction::Revoke => NotificationOutcome::Revoked,
                        NotificationAction::Observe => NotificationOutcome::Observed,
                        NotificationAction::Anomaly => NotificationOutcome::Unrecognized,
                    },
                ),
                Err(e) => Err(e),
            };
            Notified { result, calls }
        },
    }
}

/// Whether `done` and `after` are what handling the event leaves of `before`,
/// where a record written anew gets some creation time and some identifier
/// of 36 characters.
pub open spec fn is_handling_of(
    before: Seq<TokenRecord>,
    after: Seq<TokenRecord>,
    notification: SubscriptionNotification,
    services: Services,
    done: Notified,
) -> bool {
    exists|fresh_id: Seq<char>, created_at: Timestamp|
        {
            let run = #[trigger] spec_handle_subscription_notification(
                before,
                notification,
                services,
                fresh_id,
                created_at,
            );
            &&& created_at.nanos < 1_000_000_000
            &&& fresh_id.len() == 36
            &&& after == run.store
            &&& calls_view(done.calls@) == run.calls
            &&& result_view(done.result) == run.result
        }
}

/// Handles a subscription event against the store. The outside services are
/// not called: what they answer is given in `services`. The creation time of
/// a record written anew is read from the clock, and its identifier is drawn
/// at random.
pub fn handle_subscription_notification(
    store: &mut TokenStore,
    services: &Services,
    notification: &SubscriptionNotification,
) -> (done: Notified)
    requires
        old(store).wf(),
    ensures
        final(store).wf(),
        is_handling_of(old(store)@, final(store)@, *notification, *services, done),
{
    let now = now_utc();
    let id = fresh_id();
    let ghost before = store@;
    let done = handle_subscription_notification_at(store, services, notification, id.as_str(), now);
    proof {
        let run = spec_handle_subscription_notification(
            before,
            *notification,
            *services,
            id@,
            now,
        );
        assert(store@ == run.store);
    }
    done
}

/// What the steps of an event's kind can touch: they grant access again only
/// to the record of the event's token, only for a purchase, a renewal or a
/// recovery, and only where the detail lets access proceed; they write a new
/// record only for the event's token.
pub proof fn lemma_flow_steps_targets(
    notification: SubscriptionNotification,
    detail: GooglePlaySubscriptionResponse,
    existing: Option<TokenRecord>,
)
    ensures
        forall|id: Seq<char>| #[trigger]
            refreshes(spec_flow_steps(notification, detail, existing), id) ==> {
                &&& existing is Some
                &&& existing->Some_0.id == id
                &&& (spec_action_of(notification) == NotificationAction::NewPurchase
                    || spec_action_of(notification) == NotificationAction::Renewal)
                &&& spec_validity(detail, notification.subscription_id@) is None
            },
        forall|token: Seq<char>| #[trigger]
            inserts(spec_flow_steps(notification, detail, existing), token) ==> token
                == notification.purchase_token@ && existing is None,
{
    let flow = spec_flow_steps(notification, detail, existing);
    let action = spec_action_of(notification);
    let token = notification.purchase_token@;
    let product = notification.subscription_id@;
    if existing is Some {
        lemma_access_steps_targets(
            existing,
            existing->Some_0.user_id,
            token,
            product,
            detail,
            false,
        );
    }
    lemma_access_steps_targets(None, spec_owner(detail), token, product, detail, true);
    assert forall|id: Seq<char>| #[trigger] refreshes(flow, id) implies {
        &&& existing is Some
        &&& existing->Some_0.id == id
        &&& (action == NotificationAction::NewPurchase || action == NotificationAction::Renewal)
        &&& spec_validity(detail, product) is None
    } by {
        let i = choose|i: int| 0 <= i < flow.len() && #[trigger] refresh_target(flow[i]) == Some(id);
        assert(refresh_target(flow[i]) == Some(id));
    }
    assert forall|t: Seq<char>| #[trigger] inserts(flow, t) implies t == token && existing
        is None by {
        let i = choose|i: int| 0 <= i < flow.len() && #[trigger] insert_target(flow[i]) == Some(t);
        assert(insert_target(flow[i]) == Some(t));
    }
}

/// What the plan of an event can touch is what the steps of its kind can
/// touch: retiring the superseded token grants nothing and writes no new
/// record.
pub proof fn lemma_plan_targets(
    notification: SubscriptionNotification,
    detail: GooglePlaySubscriptionResponse,
    existing: Option<TokenRecord>,
    linked: Option<TokenRecord>,
)
    ensures
        forall|id: Seq<char>| #[trigger]
            refreshes(spec_plan_notification(notification, detail, existing, linked), id)
                ==> refreshes(spec_flow_steps(notification, detail, existing), id),
        forall|token: Seq<char>| #[trigger]
            inserts(spec_plan_notification(notification, detail, existing, linked), token)
                ==> inserts(spec_flow_steps(notification, detail, existing), token),
{
    let head = spec_supersede_steps(detail, linked);
    let flow = spec_flow_steps(notification, detail, existing);
    let plan = spec_plan_notification(notification, detail, existing, linked);
    assert forall|id: Seq<char>| #[trigger] refreshes(plan, id) implies refreshes(flow, id) by {
        let i = choose|i: int| 0 <= i < plan.len() && #[trigger] refresh_target(plan[i]) == Some(id);
        if i < head.len() {
            assert(plan[i] == head[i]);
        } else {
            assert(plan[i] == flow[i - head.len()]);
            assert(refresh_target(flow[i - head.len()]) == Some(id));
        }
    }
    assert forall|token: Seq<char>| #[trigger] inserts(plan, token) implies inserts(flow, token) by {
        let i = choose|i: int|
            0 <= i < plan.len() && #[trigger] insert_target(plan[i]) == Some(token);
        if i < head.len() {
            assert(plan[i] == head[i]);
        } else {
            assert(plan[i] == flow[i - head.len()]);
            assert(insert_target(flow[i - head.len()]) == Some(token));
        }
    }
}

/// No event moves the expiry of a record backward, whatever its kind and
/// whatever the services answer: after a renewal or a recovery, as after any
/// other event, every record is still there, with its owner, and expires no
/// earlier than before.
pub proof fn law_expiry_never_moves_backward(
    store: Seq<TokenRecord>,
    notification: SubscriptionNotification,
    services: Services,
    fresh_id: Seq<char>,
    created_at: Timestamp,
    token: Seq<char>,
)
    requires
        keys_unique(store),
        lookup(store, token) is Some,
    ensures
        ({
            let run = spec_handle_subscription_notification(
                store,
                notification,
                services,
                fresh_id,
                created_at,
            );
            let before = lookup(store, token)->Some_0;
            let after = lookup(run.store, token);
            &&& keys_unique(run.store)
            &&& after is Some
            &&& after->Some_0.expiry_at.is_at_or_after(before.expiry_at)
            &&& after->Some_0.user_id == before.user_id
            &&& after->Some_0.id == before.id
            &&& after->Some_0.created_at == before.created_at
        }),
{
    match services.detail {
        Err(_) => {},
        Ok(detail) => {
            lemma_run_keeps_records(
                spec_plan_against(store, notification, detail),
                start_of(store),
                fresh_id,
                created_at,
                services.answers(),
            );
        },
    }
}

/// A record that is expired stays expired through every event but one: an
/// event for the record's own token that reports a purchase, a renewal or a
/// recovery, for which the provider's detail was fetched and shows a
/// subscription that is active or in its grace period.
pub proof fn law_expired_is_terminal(
    store: Seq<TokenRecord>,
    notification: SubscriptionNotification,
    services: Services,
    fresh_id: Seq<char>,
    created_at: Timestamp,
    token: Seq<char>,
)
    requires
        keys_unique(store),
        lookup(store, token) is Some,
        lookup(store, token)->Some_0.status == PurchaseTokenStatus::Expired,
    ensures
        ({
            let run = spec_handle_subscription_notification(
                store,
                notification,
                services,
                fresh_id,
                created_at,
            );
            let after = lookup(run.store, token);
            let kind = NotificationKind::spec_from_code(notification.notification_type);
            &&& after is Some
            &&& after->Some_0.status == PurchaseTokenStatus::Expired || {
                &&& after->Some_0.status == PurchaseTokenStatus::AccessGranted
                &&& token == notification.purchase_token@
                &&& (kind == NotificationKind::Purchased || kind == NotificationKind::Renewed || kind
                    == NotificationKind::Recovered)
                &&& services.detail is Ok
                &&& SubscriptionState::spec_parse(
                    services.detail->Ok_0.subscription_state@,
                ).spec_decision() == TransitionDecision::Proceed
            }
        }),
{
    match services.detail {
        Err(_) => {},
        Ok(detail) => {
            let existing = lookup(store, notification.purchase_token@);
            let linked = spec_linked_record(store, detail);
            let plan = spec_plan_against(store, notification, detail);
            let before = lookup(store, token)->Some_0;
            lemma_run_keeps_records(
                plan,
                start_of(store),
                fresh_id,
                created_at,
                services.answers(),
            );
            let run = spec_run(plan, store, fresh_id, created_at, services.answers());
            let after = lookup(run.store, token)->Some_0;
            assert(fate_allowed(before, after, grants_again(plan, before)));
            assert(before.purchase_token == token) by {
                lemma_lookup_at(store, position_of(store, token));
            }
            if after.status != PurchaseTokenStatus::Expired {
                lemma_plan_targets(notification, detail, existing, linked);
                lemma_flow_steps_targets(notification, detail, existing);
                let flow = spec_flow_steps(notification, detail, existing);
                if inserts(plan, token) {
                    assert(inserts(flow, token));
                    assert(existing is None && token == notification.purchase_token@);
                } else {
                    assert(refreshes(flow, before.id));
                    lemma_ids_tell_tokens_apart(store, token, notification.purchase_token@);
                    SubscriptionState::spec_parse(
                        detail.subscription_state@,
                    ).lemma_refusal_follows_decision();
                }
            }
        },
    }
}

/// An event whose detail names another token as superseded leaves that token
/// expired, however the event itself ends: if the superseded token was on
/// record, its record is marked expired, and if it was not, it still is not.
pub proof fn law_linked_token_is_superseded(
    store: Seq<TokenRecord>,
    notification: SubscriptionNotification,
    services: Services,
    fresh_id: Seq<char>,
    created_at: Timestamp,
)
    requires
        keys_unique(store),
        services.detail is Ok,
        services.detail->Ok_0.linked_purchase_token is Some,
        services.detail->Ok_0.linked_purchase_token->Some_0@ != notification.purchase_token@,
    ensures
        ({
            let run = spec_handle_subscription_notification(
                store,
                notification,
                services,
                fresh_id,
                created_at,
            );
            let superseded = services.detail->Ok_0.linked_purchase_token->Some_0@;
            match lookup(run.store, superseded) {
                Some(record) => lookup(store, superseded) is Some && record.status
                    == PurchaseTokenStatus::Expired,
                None => lookup(store, superseded) is None,
            }
        }),
{
    let detail = services.detail->Ok_0;
    let superseded = detail.linked_purchase_token->Some_0@;
    let existing = lookup(store, notification.purchase_token@);
    let linked = lookup(store, superseded);
    let head = spec_supersede_steps(detail, linked);
    let flow = spec_flow_steps(notification, detail, existing);
    let answers = services.answers();
    let init = start_of(store);
    lemma_run_concat(head, flow, init, fresh_id, created_at, answers);
    let mid = spec_run_from(head, init, fresh_id, created_at, answers);
    lemma_flow_steps_targets(notification, detail, existing);
    match linked {
        Some(record) => {
            lemma_run_single(StepView::Expire { id: record.id }, init, fresh_id, created_at, answers);
            let change = Change::Amend {
                status: Some(PurchaseTokenStatus::Expired),
                expiry_at: None,
            };
            lemma_change_keeps_keys(store, record.id, change);
            lemma_change_lookup(store, record.id, change, superseded);
            lemma_run_keeps_records(flow, mid, fresh_id, created_at, answers);
            let between = lookup(mid.store, superseded)->Some_0;
            assert(between.status == PurchaseTokenStatus::Expired);
            assert(between.id == record.id);
            assert(between.purchase_token == superseded) by {
                lemma_lookup_at(store, position_of(store, superseded));
            }
            if refreshes(flow, between.id) {
                lemma_ids_tell_tokens_apart(store, superseded, notification.purchase_token@);
            }
            assert(!grants_again(flow, between));
        },
        None => {
            assert(mid == init);
            lemma_run_keeps_records(flow, mid, fresh_id, created_at, answers);
        },
    }
}

/// What a one-time product event reports.
#[derive(Debug, Clone, Copy, PartialEq, Eq, Structural)]
pub enum ProductEvent {
    Purchased,
    Canceled,
    /// A code that names no kind of event.
    Unrecognized,
}

/// What a one-time product event reports, going by its code.
pub open spec fn spec_product_event(code: i32) -> ProductEvent {
    if code == ONE_TIME_PRODUCT_PURCHASED {
        ProductEvent::Purchased
    } else if code == ONE_TIME_PRODUCT_CANCELED {
        ProductEvent::Canceled
    } else {
        ProductEvent::Unrecognized
    }
}

/// Takes note of a one-time product event. Such events change nothing: no
/// record is read or written and nothing outside is called.
pub fn handle_one_time_product_notification(notification: &OneTimeProductNotification) -> (event:
    ProductEvent)
    ensures
        event == spec_product_event(notification.notification_type),
{
    let code = notification.notification_type;
    if code == ONE_TIME_PRODUCT_PURCHASED {
        ProductEvent::Purchased
    } else if code == ONE_TIME_PRODUCT_CANCELED {
        ProductEvent::Canceled
    } else {
        ProductEvent::Unrecognized
    }
}

/// What was made of the parts of a notification.
#[derive(Debug, Clone, Copy, PartialEq, Eq, Structural)]
pub struct NotificationReport {
    /// How the subscription event ended, where there was one.
    pub subscription: Option<NotificationOutcome>,
    /// What the one-time product event reported, where there was one.
    pub one_time_product: Option<ProductEvent>,
    /// Whether the notification was a test sent from the provider's console.
    pub test: bool,
}

/// What processing a notification did: its result and the outside calls it
/// made, in their order.
#[derive(Debug, PartialEq, Eq)]
pub struct ProcessedNotification {
    pub result: AppResult<NotificationReport>,
    pub calls: Vec<ExternalCall>,
}

/// What processing a notification does: the store afterwards, the outside
/// calls in their order, and the result.
pub struct ReportRun {
    pub store: Seq<TokenRecord>,
    pub calls: Seq<CallView>,
    pub result: Result<NotificationReport, ErrorView>,
}

/// What the parts of a notification other than the subscription event report.
pub open spec fn spec_report(
    notification: DeveloperNotification,
    subscription: Option<NotificationOutcome>,
) -> NotificationReport {
    NotificationReport {
        subscription,
        one_time_product: match notification.one_time_product_notification {
            Some(product) => Some(spec_product_event(product.notification_type)),
            None => None,
        },
        test: notification.test_notification is Some,
    }
}

/// What processing a notification does to `store`. Only a subscription event
/// can change anything or fail; where it fails, the notification fails with
/// its error.
pub open spec fn spec_process_notification(
    store: Seq<TokenRecord>,
    notification: DeveloperNotification,
    services: Services,
    fresh_id: Seq<char>,
    created_at: Timestamp,
) -> ReportRun {
    match notification.subscription_notification {
        Some(event) => {
            let run = spec_handle_subscription_notification(
                store,
                event,
                services,
                fresh_id,
                created_at,
            );
            ReportRun {
                store: run.store,
                calls: run.calls,
                result: match run.result {
                    Ok(outcome) => Ok(spec_report(notification, Some(outcome))),
                    Err(e) => Err(e),
                },
            }
        },
        None => ReportRun {
            store,
            calls: Seq::<CallView>::empty(),
            result: Ok(spec_report(notification, None)),
        },
    }
}

/// Processes a notification against the store: its subscription event first,
/// then its one-time product event, then the test marker. The outside
/// services are not called: what they answer is given in `services`.
pub fn process_notification_at(
    store: &mut TokenStore,
    services: &Services,
    notification: &DeveloperNotification,
    fresh_id: &str,
    created_at: Timestamp,
) -> (done: ProcessedNotification)
    requires
        old(store).wf(),
    ensures
        final(store).wf(),
        ({
            let run = spec_process_notification(
                old(store)@,
                *notification,
                *services,
                fresh_id@,
                created_at,
            );
            &&& final(store)@ == run.store
            &&& calls_view(done.calls@) == run.calls
            &&& result_view(done.result) == run.result
        }),
{
    let mut calls: Vec<ExternalCall> = Vec::new();
    assert(calls_view(calls@) =~= Seq::<CallView>::empty());
    let subscription = match &notification.subscription_notification {
        Some(event) => {
            let handled = handle_subscription_notification_at(
                store,
                services,
                event,
                fresh_id,
                created_at,
            );
            calls = handled.calls;
            match handled.result {
                Ok(outcome) => Some(outcome),
                Err(e) => {
                    return ProcessedNotification { result: Err(e), calls };
                },
            }
        },
        None => None,
    };
    let one_time_product = match &notification.one_time_product_notification {
        Some(product) => Some(handle_one_time_product_notification(product)),
        None => None,
    };
    let test = notification.test_notification.is_some();
    ProcessedNotification {
        result: Ok(NotificationReport { subscription, one_time_product, test }),
        calls,
    }
}

/// Whether `done` and `after` are what processing the notification leaves of
/// `before`, where a record written anew gets some creation time and some
/// identifier of 36 characters.
pub open spec fn is_processing_of(
    before: Seq<TokenRecord>,
    after: Seq<TokenRecord>,
    notification: DeveloperNotification,
    services: Services,
    done: ProcessedNotification,
) -> bool {
    exists|fresh_id: Seq<char>, created_at: Timestamp|
        {
            let run = #[trigger] spec_process_notification(
                before,
                notification,
                services,
                fresh_id,
                created_at,
            );
            &&& created_at.nanos < 1_000_000_000
            &&& fresh_id.len() == 36
            &&& after == run.store
            &&& calls_view(done.calls@) == run.calls
            &&& result_view(done.result) == run.result
        }
}

/// Processes a notification against the store. The creation time of a record
/// written anew is read from the clock, and its identifier is drawn at
/// random.
pub fn process_notification(
    store: &mut TokenStore,
    services: &Services,
    notification: &DeveloperNotification,
) -> (done: ProcessedNotification)
    requires
        old(store).wf(),
    ensures
        final(store).wf(),
        is_processing_of(old(store)@, final(store)@, *notification, *services, done),
{
    let now = now_utc();
    let id = fresh_id();
    let ghost before = store@;
    let done = process_notification_at(store, services, notification, id.as_str(), now);
    proof {
        let run = spec_process_notification(before, *notification, *services, id@, now);
        assert(store@ == run.store);
    }
    done
}

/// How the notification endpoint answers.
#[derive(Debug, Clone, Copy, PartialEq, Eq, Structural)]
pub enum WebhookVerdict {
    /// The envelope's data is no base64 text.
    InvalidBase64,
    /// The decoded data is no UTF-8 text.
    InvalidUtf8,
    /// The decoded text is no notification.
    InvalidFormat,
    /// The notification was processed: the transport need not deliver it
    /// again.
    Processed,
    /// Processing failed: the transport is asked to deliver again.
    ProcessingFailed,
}

impl WebhookVerdict {
    /// The HTTP status of the answer. A malformed notification is turned down
    /// for good; a failure in processing asks for another delivery.
    pub open spec fn spec_status(self) -> u16 {
        match self {
            WebhookVerdict::InvalidBase64
            | WebhookVerdict::InvalidUtf8
            | WebhookVerdict::InvalidFormat => crate::error::STATUS_BAD_REQUEST,
            WebhookVerdict::Processed => crate::error::STATUS_OK,
            WebhookVerdict::ProcessingFailed => crate::error::STATUS_INTERNAL_SERVER_ERROR,
        }
    }

    /// The text of the answer.
    pub open spec fn spec_body(self) -> Seq<char> {
        match self {
            WebhookVerdict::InvalidBase64 => "Invalid base64 data"@,
            WebhookVerdict::InvalidUtf8 => "Invalid UTF-8 data"@,
            WebhookVerdict::InvalidFormat => "Invalid notification format"@,
            WebhookVerdict::Processed => "OK"@,
            WebhookVerdict::ProcessingFailed => "Processing failed"@,
        }
    }

    /// The HTTP status of the answer.
    pub fn status(&self) -> (code: u16)
        ensures
            code == self.spec_status(),
    {
        match self {
            WebhookVerdict::Processed => crate::error::STATUS_OK,
            WebhookVerdict::ProcessingFailed => crate::error::STATUS_INTERNAL_SERVER_ERROR,
            _ => crate::error::STATUS_BAD_REQUEST,
        }
    }

    /// The text of the answer.
    pub fn body(&self) -> (text: &'static str)
        ensures
            text@ == self.spec_body(),
    {
        match self {
            WebhookVerdict::InvalidBase64 => "Invalid base64 data",
            WebhookVerdict::InvalidUtf8 => "Invalid UTF-8 data",
            WebhookVerdict::InvalidFormat => "Invalid notification format",
            WebhookVerdict::Processed => "OK",
            WebhookVerdict::ProcessingFailed => "Processing failed",
        }
    }
}

/// The text that the data of an envelope carries, or the verdict with which
/// the envelope is turned down.
pub open spec fn spec_envelope_text(bytes: Option<Seq<u8>>) -> Result<Seq<char>, WebhookVerdict> {
    match bytes {
        None => Err(WebhookVerdict::InvalidBase64),
        Some(b) => if valid_utf8(b) {
            Ok(decode_utf8(b))
        } else {
            Err(WebhookVerdict::InvalidUtf8)
        },
    }
}

/// Reads the text out of what the base64 decoding of an envelope's data gave.
pub fn envelope_text(decoded: Option<Vec<u8>>) -> (r: Result<String, WebhookVerdict>)
    ensures
        match spec_envelope_text(bytes_view(decoded)) {
            Ok(text) => r is Ok && r->Ok_0@ == text,
            Err(verdict) => r == Err::<String, WebhookVerdict>(verdict),
        },
{
    match decoded {
        None => Err(WebhookVerdict::InvalidBase64),
        Some(bytes) => match string_from_utf8(bytes) {
            Some(text) => Ok(text),
            None => Err(WebhookVerdict::InvalidUtf8),
        },
    }
}

/// Opens the envelope of a notification: its data is decoded from base64 and
/// read as UTF-8, which gives the notification as JSON text. A malformed
/// envelope is turned down without anything else being done.
pub fn open_envelope(payload: &PubSubMessage) -> (r: Result<String, WebhookVerdict>)
    ensures
        match spec_envelope_text(base64_standard_decoding(payload.message.data@)) {
            Ok(text) => r is Ok && r->Ok_0@ == text,
            Err(verdict) => r == Err::<String, WebhookVerdict>(verdict),
        },
{
    envelope_text(base64_decode(payload.message.data.as_str()))
}

/// The verdict on a notification that was read from its envelope: one that
/// could not be parsed is turned down, one that was processed is answered by
/// how processing went.
pub open spec fn spec_verdict(parsed: Option<Result<NotificationReport, ErrorView>>) -> WebhookVerdict {
    match parsed {
        None => WebhookVerdict::InvalidFormat,
        Some(Ok(_)) => WebhookVerdict::Processed,
        Some(Err(_)) => WebhookVerdict::ProcessingFailed,
    }
}

/// What answering a notification did: the verdict and the outside calls
/// made, in their order.
#[derive(Debug, PartialEq, Eq)]
pub struct WebhookDone {
    pub verdict: WebhookVerdict,
    pub calls: Vec<ExternalCall>,
}

/// Answers a notification that was read from its envelope; `None` stands for
/// text that is no notification. The provider learns only whether to deliver
/// again, never why.
pub fn handle_rtdn_webhook(
    store: &mut TokenStore,
    services: &Services,
    parsed: Option<&DeveloperNotification>,
) -> (done: WebhookDone)
    requires
        old(store).wf(),
    ensures
        final(store).wf(),
        match parsed {
            None => final(store)@ == old(store)@ && done.calls@.len() == 0 && done.verdict
                == WebhookVerdict::InvalidFormat,
            Some(notification) => exists|processed: ProcessedNotification|
                {
                    &&& #[trigger] is_processing_of(
                        old(store)@,
                        final(store)@,
                        *notification,
                        *services,
                        processed,
                    )
                    &&& done.calls == processed.calls
                    &&& done.verdict == spec_verdict(Some(result_view(processed.result)))
                },
        },
{
    match parsed {
        None => WebhookDone { verdict: WebhookVerdict::InvalidFormat, calls: Vec::new() },
        Some(notification) => {
            let ghost before = store@;
            let processed = process_notification(store, services, notification);
            let verdict = match &processed.result {
                Ok(_) => WebhookVerdict::Processed,
                Err(_) => WebhookVerdict::ProcessingFailed,
            };
            assert(is_processing_of(before, store@, *notification, *services, processed));
            WebhookDone { verdict, calls: processed.calls }
        },
    }
}

/// An event that takes access away from a token that is not on record fails:
/// there is no record to revoke. The provider was asked for the detail, and
/// nothing else was called: the ledger is not touched. The endpoint then asks
/// for the event to be delivered again.
pub proof fn law_unknown_token_is_not_revoked(
    store: Seq<TokenRecord>,
    notification: SubscriptionNotification,
    services: Services,
    fresh_id: Seq<char>,
    created_at: Timestamp,
)
    requires
        keys_unique(store),
        spec_action_of(notification) == NotificationAction::Revoke,
        lookup(store, notification.purchase_token@) is None,
        services.detail is Ok,
    ensures
        ({
            let run = spec_handle_subscription_notification(
                store,
                notification,
                services,
                fresh_id,
                created_at,
            );
            &&& run.result == Err::<NotificationOutcome, ErrorView>(unknown_token_error())
            &&& run.calls == seq![CallView::FetchDetail]
            &&& lookup(run.store, notification.purchase_token@) is None
            &&& spec_verdict(Some(Err(unknown_token_error()))).spec_status()
                == crate::error::STATUS_INTERNAL_SERVER_ERROR
        }),
{
    let detail = services.detail->Ok_0;
    let linked = spec_linked_record(store, detail);
    let head = spec_supersede_steps(detail, linked);
    let refusal = StepView::Fail(unknown_token_error());
    let answers = services.answers();
    let init = start_of(store);
    lemma_run_concat(head, seq![refusal], init, fresh_id, created_at, answers);
    let mid = spec_run_from(head, init, fresh_id, created_at, answers);
    lemma_run_single(refusal, mid, fresh_id, created_at, answers);
    lemma_run_keeps_records(head, init, fresh_id, created_at, answers);
    match linked {
        Some(record) => {
            lemma_run_single(StepView::Expire { id: record.id }, init, fresh_id, created_at, answers);
            if lookup(mid.store, notification.purchase_token@) is Some {
                let i = choose|i: int|
                    0 <= i < head.len() && #[trigger] insert_target(head[i]) == Some(
                        notification.purchase_token@,
                    );
            }
        },
        None => {
            assert(mid == init);
        },
    }
    let run = spec_handle_subscription_notification(
        store,
        notification,
        services,
        fresh_id,
        created_at,
    );
    assert(run.calls =~= seq![CallView::FetchDetail]);
}

/// The plan of an event is guarded: it writes that access is granted only
/// after it has asked the ledger to grant it.
pub proof fn lemma_plan_guarded(
    notification: SubscriptionNotification,
    detail: GooglePlaySubscriptionResponse,
    existing: Option<TokenRecord>,
    linked: Option<TokenRecord>,
)
    ensures
        guarded(spec_plan_notification(notification, detail, existing, linked)),
{
    let head = spec_supersede_steps(detail, linked);
    let flow = spec_flow_steps(notification, detail, existing);
    let token = notification.purchase_token@;
    let product = notification.subscription_id@;
    if existing is Some {
        lemma_access_steps_guarded(
            existing,
            existing->Some_0.user_id,
            token,
            product,
            detail,
            false,
        );
    }
    lemma_access_steps_guarded(None, spec_owner(detail), token, product, detail, true);
    assert(guarded(flow)) by {
        assert forall|j: int| 0 <= j < flow.len() && #[trigger] writes_access(
            flow[j],
        ) implies crate::reconcile::has_grant(flow.take(j)) by {
            assert(writes_access(flow[j]));
        }
    }
    lemma_guarded_concat(head, flow);
}

/// An event writes that a token has access only after the ledger was called
/// and has granted: where a token has access on record afterwards and had
/// none before, the provider's detail was fetched, the ledger was asked to
/// grant, and it did.
pub proof fn law_notified_access_follows_grant(
    store: Seq<TokenRecord>,
    notification: SubscriptionNotification,
    services: Services,
    fresh_id: Seq<char>,
    created_at: Timestamp,
    token: Seq<char>,
)
    requires
        keys_unique(store),
        !has_access(store, token),
        has_access(
            spec_handle_subscription_notification(
                store,
                notification,
                services,
                fresh_id,
                created_at,
            ).store,
            token,
        ),
    ensures
        services.detail is Ok,
        services.grant is Ok,
        grant_was_called(
            spec_handle_subscription_notification(
                store,
                notification,
                services,
                fresh_id,
                created_at,
            ).calls,
        ),
{
    let detail = services.detail->Ok_0;
    let plan = spec_plan_against(store, notification, detail);
    lemma_plan_guarded(
        notification,
        detail,
        lookup(store, notification.purchase_token@),
        spec_linked_record(store, detail),
    );
    lemma_access_follows_grant(
        plan,
        start_of(store),
        fresh_id,
        created_at,
        services.answers(),
        token,
    );
    lemma_grant_call_stays(
        CallView::FetchDetail,
        spec_run(plan, store, fresh_id, created_at, services.answers()).calls,
    );
}

} // verus!
