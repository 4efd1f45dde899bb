//! The verification path: a user presents a purchase token and asks for
//! access.

use vstd::prelude::*;
use vstd::string::*;
use crate::error::{
    result_view, AppError, AppResult, ErrorKind, ErrorView, HttpReply, ReplyView, STATUS_OK,
};
use crate::routes::utils::{
    grant_yral_pro_plan_access, plan_change_view, spec_plan_change, spec_pro_plan, PlanChange,
};
use crate::model::{PurchaseToken, TokenRecord};
use crate::outside::{fresh_id, now_utc, principal_of_text};
use crate::reconcile::{
    calls_view, grant_was_called, guarded, has_access, has_grant, insert_target,
    inserts, is_grant, lemma_access_follows_grant, lemma_grant_call_stays,
    lemma_run_keeps_records, lemma_run_single, plan_view, refresh_target, refreshes, run_plan,
    spec_run, start_of, writes_access, CallView, ExternalCall, Services, Step, StepView,
};
use crate::routes::purchase_token_helpers::{
    verify_subcription_response_for_active_status, SubscriptionState,
};
use crate::store::{keys_unique, lookup, TokenStore};
use crate::text::same_text;
use crate::time::{parse_expiry, spec_expiry, Timestamp};
use crate::types::google_play_acknowledgement_state::ACKNOWLEDGEMENT_STATE_PENDING;
use crate::types::{
    ApiResponse, GooglePlaySubscriptionResponse, PurchaseTokenStatus, VerifyRequest,
};

verus! {

/// Whether the detail lists `product` among its line items.
pub open spec fn has_line_item(detail: GooglePlaySubscriptionResponse, product: Seq<char>) -> bool {
    exists|i: int|
        0 <= i < detail.line_items@.len() && (#[trigger] detail.line_items@[i]).product_id@
            == product
}

/// Whether `i` is the place of the first line item for `product`.
pub open spec fn is_first_line_item(
    detail: GooglePlaySubscriptionResponse,
    product: Seq<char>,
    i: int,
) -> bool {
    &&& 0 <= i < detail.line_items@.len()
    &&& detail.line_items@[i].product_id@ == product
    &&& forall|j: int| 0 <= j < i ==> (#[trigger] detail.line_items@[j]).product_id@ != product
}

/// The place of the first line item for `product`, where there is one.
pub open spec fn first_line_item(detail: GooglePlaySubscriptionResponse, product: Seq<char>) -> int {
    choose|i: int| is_first_line_item(detail, product, i)
}

/// The expiry of the first line item for `product`: `None` where there is no
/// such item, where it carries no expiry, or where its expiry is no RFC 3339
/// date and time.
pub open spec fn spec_line_item_expiry(
    detail: GooglePlaySubscriptionResponse,
    product: Seq<char>,
) -> Option<Timestamp> {
    if has_line_item(detail, product) {
        match detail.line_items@[first_line_item(detail, product)].expiry_time {
            Some(text) => spec_expiry(text@),
            None => None,
        }
    } else {
        None
    }
}

/// The identity on the entitlement ledger that the purchase belongs to.
pub open spec fn spec_entitlement_account(detail: GooglePlaySubscriptionResponse) -> Option<
    Seq<char>,
> {
    match detail.external_account_identifiers {
        Some(ids) => match ids.obfuscated_external_account_id {
            Some(account) => Some(account@),
            None => None,
        },
        None => None,
    }
}

/// Whether the provider still waits for the purchase to be acknowledged.
pub open spec fn spec_acknowledgement_pending(detail: GooglePlaySubscriptionResponse) -> bool {
    detail.acknowledgement_state@ == ACKNOWLEDGEMENT_STATE_PENDING@
}

/// A record that was looked up, taken by its view.
pub open spec fn record_view(existing: Option<&PurchaseToken>) -> Option<TokenRecord> {
    match existing {
        Some(record) => Some(record@),
        None => None,
    }
}

/// There is one first line item at most.
pub proof fn lemma_first_line_item(detail: GooglePlaySubscriptionResponse, product: Seq<char>, i: int)
    requires
        is_first_line_item(detail, product, i),
    ensures
        has_line_item(detail, product),
        first_line_item(detail, product) == i,
{
    let j = first_line_item(detail, product);
    assert(is_first_line_item(detail, product, j));
    if j < i {
        assert(detail.line_items@[j].product_id@ != product);
    }
    if i < j {
        assert(detail.line_items@[i].product_id@ != product);
    }
}

/// The place of the first line item for `product`, if the detail has one.
pub fn find_line_item(detail: &GooglePlaySubscriptionResponse, product: &str) -> (found: Option<
    usize,
>)
    ensures
        match found {
            Some(i) => is_first_line_item(*detail, product@, i as int),
            None => !has_line_item(*detail, product@),
        },
{
    let mut i: usize = 0;
    while i < detail.line_items.len()
        invariant
            i <= detail.line_items.len(),
            forall|j: int| 0 <= j < i ==> (#[trigger] detail.line_items@[j]).product_id@ != product@,
        decreases detail.line_items.len() - i,
    {
        if same_text(detail.line_items[i].product_id.as_str(), product) {
            return Some(i);
        }
        i += 1;
    }
    None
}

/// The expiry of the first line item for `product`.
pub fn line_item_expiry(detail: &GooglePlaySubscriptionResponse, product: &str) -> (at: Option<
    Timestamp,
>)
    ensures
        at == spec_line_item_expiry(*detail, product@),
{
    match find_line_item(detail, product) {
        Some(i) => {
            proof {
                lemma_first_line_item(*detail, product@, i as int);
            }
            match &detail.line_items[i].expiry_time {
                Some(text) => parse_expiry(text.as_str()),
                None => None,
            }
        },
        None => None,
    }
}

/// The identity on the entitlement ledger that the purchase belongs to, if the
/// detail names one.
pub fn entitlement_account(detail: &GooglePlaySubscriptionResponse) -> (account: Option<String>)
    ensures
        match account {
            Some(a) => spec_entitlement_account(*detail) == Some(a@),
            None => spec_entitlement_account(*detail) is None,
        },
{
    match &detail.external_account_identifiers {
        Some(ids) => match &ids.obfuscated_external_account_id {
            Some(account) => Some(account.clone()),
            None => None,
        },
        None => None,
    }
}

/// Whether the provider still waits for the purchase to be acknowledged. Any
/// other state, the acknowledged one included, needs no call.
pub fn acknowledgement_pending(detail: &GooglePlaySubscriptionResponse) -> (pending: bool)
    ensures
        pending == spec_acknowledgement_pending(*detail),
{
    same_text(detail.acknowledgement_state.as_str(), ACKNOWLEDGEMENT_STATE_PENDING)
}

/// What the detail says to a request for access to `product`, before anything
/// is done: the product must be among the line items, and the subscription
/// state must let the request proceed.
pub open spec fn spec_validity(detail: GooglePlaySubscriptionResponse, product: Seq<char>) -> Option<
    ErrorView,
> {
    if !has_line_item(detail, product) {
        Some(ErrorView::plain(ErrorKind::SubscriptionInvalidLineItems))
    } else {
        match SubscriptionState::spec_parse(detail.subscription_state@).spec_refusal() {
            Some(e) => Some(e@),
            None => None,
        }
    }
}

/// Checks that the requested product is among the detail's line items and
/// that the subscription state lets a request for access proceed.
pub fn verify_purchase_token_validity_for_subscription_active(
    payload: &VerifyRequest,
    subscription_response: &GooglePlaySubscriptionResponse,
) -> (r: AppResult<()>)
    ensures
        match spec_validity(*subscription_response, payload.product_id@) {
            Some(e) => r is Err && r->Err_0@ == e,
            None => r is Ok,
        },
{
    check_validity(subscription_response, payload.product_id.as_str())
}

/// Checks that `product` is among the detail's line items and that the
/// subscription state lets a request for access proceed.
pub fn check_validity(detail: &GooglePlaySubscriptionResponse, product: &str) -> (r: AppResult<()>)
    ensures
        match spec_validity(*detail, product@) {
            Some(e) => r is Err && r->Err_0@ == e,
            None => r is Ok,
        },
{
    match find_line_item(detail, product) {
        Some(_) => verify_subcription_response_for_active_status(detail),
        None => Err(AppError::SubscriptionInvalidLineItems),
    }
}

/// The step that writes the record: a token that is on record is refreshed,
/// one that is not gets a new record.
pub open spec fn spec_commit_step(
    existing: Option<TokenRecord>,
    user_id: Seq<char>,
    purchase_token: Seq<char>,
    expiry_at: Timestamp,
) -> StepView {
    match existing {
        Some(record) => StepView::Refresh { id: record.id, expiry_at },
        None => StepView::Insert { user_id, purchase_token, expiry_at },
    }
}

/// The steps that acknowledge the purchase: one where the flow acknowledges
/// and the provider still waits for it, none otherwise.
pub open spec fn spec_acknowledge_steps(
    detail: GooglePlaySubscriptionResponse,
    acknowledge: bool,
) -> Seq<StepView> {
    if acknowledge && spec_acknowledgement_pending(detail) {
        seq![StepView::Acknowledge]
    } else {
        Seq::<StepView>::empty()
    }
}

/// The steps that grant access and write the record.
pub open spec fn spec_grant_steps(
    existing: Option<TokenRecord>,
    user_id: Seq<char>,
    purchase_token: Seq<char>,
    product: Seq<char>,
    detail: GooglePlaySubscriptionResponse,
) -> Seq<StepView> {
    match spec_entitlement_account(detail) {
        None => seq![StepView::Fail(ErrorView::plain(ErrorKind::ExternalAccountIdentifiersMissing))],
        Some(account) => match spec_line_item_expiry(detail, product) {
            None => seq![
                StepView::Grant { account },
                StepView::Fail(ErrorView::plain(ErrorKind::SubscriptionInvalidLineItems)),
            ],
            Some(expiry_at) => seq![
                StepView::Grant { account },
                spec_commit_step(existing, user_id, purchase_token, expiry_at),
            ],
        },
    }
}

/// The plan that gives access to `product` under `purchase_token`. It fails
/// at once where the detail does not let the request proceed. Otherwise the
/// purchase is acknowledged where that is due, access is granted to the
/// account that the detail names, and the record is written with the line
/// item's expiry, in this order.
pub open spec fn spec_access_steps(
    existing: Option<TokenRecord>,
    user_id: Seq<char>,
    purchase_token: Seq<char>,
    product: Seq<char>,
    detail: GooglePlaySubscriptionResponse,
    acknowledge: bool,
) -> Seq<StepView> {
    match spec_validity(detail, product) {
        Some(e) => seq![StepView::Fail(e)],
        None => spec_acknowledge_steps(detail, acknowledge) + spec_grant_steps(
            existing,
            user_id,
            purchase_token,
            product,
            detail,
        ),
    }
}

/// Adds to `plan` the steps that give access to `product` under
/// `purchase_token`.
pub fn access_steps(
    plan: &mut Vec<Step>,
    existing: Option<&PurchaseToken>,
    user_id: &str,
    purchase_token: &str,
    product: &str,
    detail: &GooglePlaySubscriptionResponse,
    acknowledge: bool,
)
    ensures
        plan_view(final(plan)@) == plan_view(old(plan)@) + spec_access_steps(
            record_view(existing),
            user_id@,
            purchase_token@,
            product@,
            *detail,
            acknowledge,
        ),
{
    let ghost before = plan_view(plan@);
    let ghost target = spec_access_steps(
        record_view(existing),
        user_id@,
        purchase_token@,
        product@,
        *detail,
        acknowledge,
    );
    match check_validity(detail, product) {
        Err(e) => {
            plan.push(Step::Fail(e));
            assert(plan_view(plan@) =~= before + target);
            return ;
        },
        Ok(()) => {},
    }
    let ghost acknowledged = spec_acknowledge_steps(*detail, acknowledge);
    if acknowledge && acknowledgement_pending(detail) {
        plan.push(Step::Acknowledge);
    }
    assert(plan_view(plan@) =~= before + acknowledged);
    let account = match entitlement_account(detail) {
        Some(account) => account,
        None => {
            plan.push(Step::Fail(AppError::ExternalAccountIdentifiersMissing));
            assert(plan_view(plan@) =~= before + target);
            return ;
        },
    };
    plan.push(Step::Grant { account });
    match line_item_expiry(detail, product) {
        None => {
            plan.push(Step::Fail(AppError::SubscriptionInvalidLineItems));
        },
        Some(expiry_at) => match existing {
            Some(record) => {
                plan.push(Step::Refresh { id: record.id.clone(), expiry_at });
            },
            None => {
                plan.push(
                    Step::Insert {
                        user_id: String::from_str(user_id),
                        purchase_token: String::from_str(purchase_token),
                        expiry_at,
                    },
                );
            },
        },
    }
    assert(plan_view(plan@) =~= before + target);
}

/// What the plan for access can touch: it grants access again only to the
/// record that was found, and only where the detail lets the request proceed;
/// it writes a new record only for the token at hand, and only where none was
/// found.
pub proof fn lemma_access_steps_targets(
    existing: Option<TokenRecord>,
    user_id: Seq<char>,
    purchase_token: Seq<char>,
    product: Seq<char>,
    detail: GooglePlaySubscriptionResponse,
    acknowledge: bool,
)
    ensures
        forall|id: Seq<char>| #[trigger]
            refreshes(
                spec_access_steps(existing, user_id, purchase_token, product, detail, acknowledge),
                id,
            ) ==> existing is Some && existing->Some_0.id == id && spec_validity(detail, product)
                is None,
        forall|token: Seq<char>| #[trigger]
            inserts(
                spec_access_steps(existing, user_id, purchase_token, product, detail, acknowledge),
                token,
            ) ==> existing is None && token == purchase_token,
{
    let steps = spec_access_steps(existing, user_id, purchase_token, product, detail, acknowledge);
    let head = spec_acknowledge_steps(detail, acknowledge);
    let tail = spec_grant_steps(existing, user_id, purchase_token, product, detail);
    assert forall|id: Seq<char>| #[trigger] refreshes(steps, id) implies existing is Some
        && existing->Some_0.id == id && spec_validity(detail, product) is None by {
        let i = choose|i: int|
            0 <= i < steps.len() && #[trigger] refresh_target(steps[i]) == Some(id);
        if spec_validity(detail, product) is None {
            if i >= head.len() {
                assert(steps[i] == tail[i - head.len()]);
            } else {
                assert(steps[i] == head[i]);
            }
        }
    }
    assert forall|token: Seq<char>| #[trigger] inserts(steps, token) implies existing is None
        && token == purchase_token by {
        let i = choose|i: int|
            0 <= i < steps.len() && #[trigger] insert_target(steps[i]) == Some(token);
        if spec_validity(detail, product) is None {
            if i >= head.len() {
                assert(steps[i] == tail[i - head.len()]);
            } else {
                assert(steps[i] == head[i]);
            }
        }
    }
}

/// What the record of a token says to a request for access by a user.
#[derive(Debug, Clone, Copy, PartialEq, Eq, Structural)]
pub enum TokenCheck {
    /// The token belongs to another user.
    UsedByOther,
    /// The user's record grants access now: nothing is left to do.
    AlreadyGranted,
    /// There is no record, or the user's record grants no access now: the
    /// provider has to be asked.
    NeedsProvider,
}

/// What the record of a token says to a request for access by `user_id` at
/// the time `now`.
pub open spec fn spec_check_existing_token(
    existing: Option<TokenRecord>,
    user_id: Seq<char>,
    now: Timestamp,
) -> TokenCheck {
    match existing {
        Some(record) => if record.user_id != user_id {
            TokenCheck::UsedByOther
        } else if record.grants_access_at(now) {
            TokenCheck::AlreadyGranted
        } else {
            TokenCheck::NeedsProvider
        },
        None => TokenCheck::NeedsProvider,
    }
}

/// Decides from the token's record alone how a request for access goes on.
pub fn check_existing_token(existing: Option<&PurchaseToken>, user_id: &str, now: Timestamp) -> (check:
    TokenCheck)
    ensures
        check == spec_check_existing_token(record_view(existing), user_id@, now),
{
    match existing {
        Some(record) => {
            if !same_text(record.user_id.as_str(), user_id) {
                TokenCheck::UsedByOther
            } else if record.status == PurchaseTokenStatus::AccessGranted && record.expiry_at.after(
                &now,
            ) {
                TokenCheck::AlreadyGranted
            } else {
                TokenCheck::NeedsProvider
            }
        },
        None => TokenCheck::NeedsProvider,
    }
}

/// The plan of a verification for which the provider had to be asked.
pub open spec fn spec_plan_verification(
    existing: Option<TokenRecord>,
    payload: VerifyRequest,
    detail: GooglePlaySubscriptionResponse,
) -> Seq<StepView> {
    spec_access_steps(
        existing,
        payload.user_id@,
        payload.purchase_token@,
        payload.product_id@,
        detail,
        true,
    )
}

/// Plans a verification from the provider's detail: the steps to carry out,
/// in their order.
pub fn plan_verification(
    existing: Option<&PurchaseToken>,
    payload: &VerifyRequest,
    detail: &GooglePlaySubscriptionResponse,
) -> (plan: Vec<Step>)
    ensures
        plan_view(plan@) == spec_plan_verification(record_view(existing), *payload, *detail),
{
    let mut plan: Vec<Step> = Vec::new();
    assert(plan_view(plan@) =~= Seq::<StepView>::empty());
    access_steps(
        &mut plan,
        existing,
        payload.user_id.as_str(),
        payload.purchase_token.as_str(),
        payload.product_id.as_str(),
        detail,
        true,
    );
    assert(Seq::<StepView>::empty() + spec_plan_verification(
        record_view(existing),
        *payload,
        *detail,
    ) =~= spec_plan_verification(record_view(existing), *payload, *detail));
    plan
}

/// How a verification ended well.
#[derive(Debug, Clone, Copy, PartialEq, Eq, Structural)]
pub enum VerifyOutcome {
    /// The user's record already granted access; nothing was done.
    AlreadyGranted,
    /// Access was granted and the record written.
    Granted,
}

/// What a verification did: its result and the outside calls it made, in
/// their order.
#[derive(Debug, PartialEq, Eq)]
pub struct Processed {
    pub result: AppResult<VerifyOutcome>,
    pub calls: Vec<ExternalCall>,
}

/// What a verification does: the store afterwards, the outside calls in their
/// order, and the result.
pub struct VerifyRun {
    pub store: Seq<TokenRecord>,
    pub calls: Seq<CallView>,
    pub result: Result<VerifyOutcome, ErrorView>,
}

/// What verifying `payload` at the time `now` does to `store`, where the
/// outside services answer as `services` says. The token's record decides
/// first: a token of another user is refused, and a record of the same user
/// that grants access now ends the verification well; in both cases nothing
/// is called and nothing is written. Otherwise the provider is asked for the
/// detail, and the plan that follows from it is carried out.
pub open spec fn spec_process_purchase_token(
    store: Seq<TokenRecord>,
    payload: VerifyRequest,
    services: Services,
    now: Timestamp,
    fresh_id: Seq<char>,
    created_at: Timestamp,
) -> VerifyRun {
    let existing = lookup(store, payload.purchase_token@);
    match spec_check_existing_token(existing, payload.user_id@, now) {
        TokenCheck::UsedByOther => VerifyRun {
            store,
            calls: Seq::<CallView>::empty(),
            result: Err(ErrorView::plain(ErrorKind::TokenAlreadyUsed)),
        },
        TokenCheck::AlreadyGranted => VerifyRun {
            store,
            calls: Seq::<CallView>::empty(),
            result: Ok(VerifyOutcome::AlreadyGranted),
        },
        TokenCheck::NeedsProvider => match services.detail {
            Err(e) => VerifyRun { store, calls: seq![CallView::FetchDetail], result: Err(e@) },
            Ok(detail) => {
                let run = spec_run(
                    spec_plan_verification(existing, payload, detail),
                    store,
                    fresh_id,
                    created_at,
                    services.answers(),
                );
                VerifyRun {
                    store: run.store,
                    calls: seq![CallView::FetchDetail] + run.calls,
                    result: match run.result {
                        Ok(()) => Ok(VerifyOutcome::Granted),
                        Err(e) => Err(e),
                    },
                }
            },
        },
    }
}

/// A verification's result with its error taken by its view.
pub open spec fn outcome_view(result: AppResult<VerifyOutcome>) -> Result<VerifyOutcome, ErrorView> {
    result_view(result)
}

/// Verifies `payload` against the store at the time `now`. The outside
/// services are not called: what they answer is given in `services`. A record
/// that is written anew gets the identifier `fresh_id` and the creation time
/// `created_at`.
pub fn process_purchase_token_at(
    store: &mut TokenStore,
    services: &Services,
    payload: &VerifyRequest,
    now: Timestamp,
    fresh_id: &str,
    created_at: Timestamp,
) -> (done: Processed)
    requires
        old(store).wf(),
        payload.spec_is_complete(),
    ensures
        final(store).wf(),
        ({
            let run = spec_process_purchase_token(
                old(store)@,
                *payload,
                *services,
                now,
                fresh_id@,
                created_at,
            );
            &&& final(store)@ == run.store
            &&& calls_view(done.calls@) == run.calls
            &&& outcome_view(done.result) == run.result
        }),
{
    let existing = store.find_by_token(payload.purchase_token.as_str());
    let no_calls: Vec<ExternalCall> = Vec::new();
    assert(calls_view(no_calls@) =~= Seq::<CallView>::empty());
    match check_existing_token(existing.as_ref(), payload.user_id.as_str(), now) {
        TokenCheck::UsedByOther => Processed {
            result: Err(AppError::TokenAlreadyUsed),
            calls: no_calls,
        },
        TokenCheck::AlreadyGranted => Processed {
            result: Ok(VerifyOutcome::AlreadyGranted),
            calls: no_calls,
        },
        TokenCheck::NeedsProvider => match &services.detail {
            Err(e) => {
                let mut calls = no_calls;
                calls.push(ExternalCall::FetchDetail);
                assert(calls_view(calls@) =~= seq![CallView::FetchDetail]);
                Processed { result: Err(e.duplicate()), calls }
            },
            Ok(detail) => {
                let plan = plan_verification(existing.as_ref(), payload, detail);
                let done = run_plan(store, &plan, services, fresh_id, created_at);
                let ghost made = calls_view(done.calls@);
                let mut calls = done.calls;
                calls.insert(0, ExternalCall::FetchDetail);
                assert(calls_view(calls@) =~= seq![CallView::FetchDetail] + made);
                let result = match done.result {
                    Ok(()) => Ok(VerifyOutcome::Granted),
                    Err(e) => Err(e),
                };
                Processed { result, calls }
            },
        },
    }
}

/// Whether `done` and `after` are what verifying `payload` leaves of
/// `before` at some time `now`, where a record written anew is created at
/// that time and gets some identifier of 36 characters.
pub open spec fn is_verification_of(
    before: Seq<TokenRecord>,
    after: Seq<TokenRecord>,
    payload: VerifyRequest,
    services: Services,
    done: Processed,
) -> bool {
    exists|now: Timestamp, fresh_id: Seq<char>|
        {
            let run = #[trigger] spec_process_purchase_token(
                before,
                payload,
                services,
                now,
                fresh_id,
                now,
            );
            &&& now.nanos < 1_000_000_000
            &&& fresh_id.len() == 36
            &&& after == run.store
            &&& calls_view(done.calls@) == run.calls
            &&& outcome_view(done.result) == run.result
        }
}

/// Verifies `payload` against the store now. The outside services are not
/// called: what they answer is given in `services`. The time is read from the
/// clock, and the identifier of a record written anew is drawn at random.
pub fn process_purchase_token(
    store: &mut TokenStore,
    services: &Services,
    payload: &VerifyRequest,
) -> (done: Processed)
    requires
        old(store).wf(),
        payload.spec_is_complete(),
    ensures
        final(store).wf(),
        is_verification_of(old(store)@, final(store)@, *payload, *services, done),
{
    let now = now_utc();
    let id = fresh_id();
    let ghost before = store@;
    let done = process_purchase_token_at(store, services, payload, now, id.as_str(), now);
    proof {
        let run = spec_process_purchase_token(before, *payload, *services, now, id@, now);
        assert(store@ == run.store);
    }
    done
}

/// A user who presents a token whose record is theirs and grants access is
/// let through at once, the first time and every time after that while the
/// record grants access: nothing outside is called, and the store stays as
/// it is.
pub proof fn law_reverification_is_idempotent(
    store: Seq<TokenRecord>,
    payload: VerifyRequest,
    first_services: Services,
    second_services: Services,
    first_now: Timestamp,
    second_now: Timestamp,
    first_id: Seq<char>,
    second_id: Seq<char>,
    first_created: Timestamp,
    second_created: Timestamp,
)
    requires
        keys_unique(store),
        lookup(store, payload.purchase_token@) is Some,
        lookup(store, payload.purchase_token@)->Some_0.user_id == payload.user_id@,
        lookup(store, payload.purchase_token@)->Some_0.grants_access_at(first_now),
        lookup(store, payload.purchase_token@)->Some_0.grants_access_at(second_now),
    ensures
        ({
            let first = spec_process_purchase_token(
                store,
                payload,
                first_services,
                first_now,
                first_id,
                first_created,
            );
            let second = spec_process_purchase_token(
                first.store,
                payload,
                second_services,
                second_now,
                second_id,
                second_created,
            );
            &&& first.result == Ok::<VerifyOutcome, ErrorView>(VerifyOutcome::AlreadyGranted)
            &&& second.result == Ok::<VerifyOutcome, ErrorView>(VerifyOutcome::AlreadyGranted)
            &&& first.calls.len() == 0
            &&& second.calls.len() == 0
            &&& first.store == store
            &&& second.store == store
        }),
{
}

/// A token that is on record for one user is refused to every other user,
/// whatever the provider and the ledger would answer: the request fails with
/// the conflict error, nothing outside is called, and the store stays as it
/// is.
pub proof fn law_token_is_exclusive(
    store: Seq<TokenRecord>,
    payload: VerifyRequest,
    services: Services,
    now: Timestamp,
    fresh_id: Seq<char>,
    created_at: Timestamp,
)
    requires
        keys_unique(store),
        lookup(store, payload.purchase_token@) is Some,
        lookup(store, payload.purchase_token@)->Some_0.user_id != payload.user_id@,
    ensures
        ({
            let run = spec_process_purchase_token(
                store,
                payload,
                services,
                now,
                fresh_id,
                created_at,
            );
            &&& run.result == Err::<VerifyOutcome, ErrorView>(
                ErrorView::plain(ErrorKind::TokenAlreadyUsed),
            )
            &&& run.calls.len() == 0
            &&& run.store == store
        }),
{
}

/// The request that grants the paid plan to `user_id`. It needs the agent
/// through which the ledger is reached; without it nothing can be granted.
pub fn grant_user_access(agent_available: bool, user_id: &str) -> (r: AppResult<PlanChange>)
    ensures
        agent_available ==> plan_change_view(r) == spec_plan_change(
            principal_of_text(user_id@),
            spec_pro_plan(),
        ),
        !agent_available ==> r is Err && r->Err_0@ == ErrorView::with_detail(
            ErrorKind::InternalError,
            "Admin IC agent not available"@,
        ),
{
    if !agent_available {
        return Err(AppError::internal("Admin IC agent not available"));
    }
    grant_yral_pro_plan_access(user_id)
}

/// The error of a request for verification in which a field is missing.
pub open spec fn incomplete_request_error() -> ErrorView {
    ErrorView::with_detail(ErrorKind::BadRequest, "All fields of the request must be given"@)
}

/// The answer to a verification. Success is answered with the status for
/// success; where the record already granted access, the message says so. A
/// failure is answered with the status of its class and its message.
pub open spec fn spec_verify_reply(result: Result<VerifyOutcome, ErrorView>) -> ReplyView {
    match result {
        Ok(VerifyOutcome::AlreadyGranted) => ReplyView {
            status: STATUS_OK,
            success: true,
            msg: Some("Purchase already verified and access granted"@),
            error: None,
            has_data: true,
        },
        Ok(VerifyOutcome::Granted) => ReplyView {
            status: STATUS_OK,
            success: true,
            msg: None,
            error: None,
            has_data: true,
        },
        Err(e) => e.reply(),
    }
}

/// Answers a verification.
pub fn verify_reply(result: AppResult<VerifyOutcome>) -> (reply: HttpReply)
    ensures
        reply@ == spec_verify_reply(outcome_view(result)),
{
    match result {
        Ok(VerifyOutcome::AlreadyGranted) => HttpReply {
            status: STATUS_OK,
            body: ApiResponse::ok_with_msg(
                String::from_str("Purchase already verified and access granted"),
            ),
        },
        Ok(VerifyOutcome::Granted) => HttpReply { status: STATUS_OK, body: ApiResponse::ok() },
        Err(e) => e.into_response(),
    }
}

/// What the verification endpoint did: its answer and the outside calls it
/// made, in their order.
#[derive(Debug, PartialEq, Eq)]
pub struct VerifyDone {
    pub reply: HttpReply,
    pub calls: Vec<ExternalCall>,
}

/// The verification endpoint: verifies `payload` against the store and
/// answers. A request with a missing field is turned down before anything is
/// looked up.
pub fn verify_purchase(store: &mut TokenStore, services: &Services, payload: &VerifyRequest) -> (done:
    VerifyDone)
    requires
        old(store).wf(),
    ensures
        final(store).wf(),
        !payload.spec_is_complete() ==> final(store)@ == old(store)@ && done.calls@.len() == 0
            && done.reply@ == incomplete_request_error().reply(),
        payload.spec_is_complete() ==> exists|processed: Processed|
            {
                &&& #[trigger] is_verification_of(
                    old(store)@,
                    final(store)@,
                    *payload,
                    *services,
                    processed,
                )
                &&& done.calls == processed.calls
                &&& done.reply@ == spec_verify_reply(outcome_view(processed.result))
            },
{
    if !payload.is_complete() {
        let refusal = AppError::BadRequest(
            String::from_str("All fields of the request must be given"),
        );
        return VerifyDone { reply: refusal.into_response(), calls: Vec::new() };
    }
    let ghost before = store@;
    let processed = process_purchase_token(store, services, payload);
    let ghost witness = processed;
    let Processed { result, calls } = processed;
    let reply = verify_reply(result);
    proof {
        assert(is_verification_of(before, store@, *payload, *services, witness));
        assert(calls == witness.calls);
    }
    VerifyDone { reply, calls }
}

/// A verification for a product that is not among the line items of the
/// provider's detail fails for that reason. The provider was asked, and that
/// is all: nothing is acknowledged or granted, and no record is written or
/// changed.
pub proof fn law_missing_line_item_is_refused(
    store: Seq<TokenRecord>,
    payload: VerifyRequest,
    services: Services,
    now: Timestamp,
    fresh_id: Seq<char>,
    created_at: Timestamp,
)
    requires
        keys_unique(store),
        spec_check_existing_token(
            lookup(store, payload.purchase_token@),
            payload.user_id@,
            now,
        ) == TokenCheck::NeedsProvider,
        services.detail is Ok,
        !has_line_item(services.detail->Ok_0, payload.product_id@),
    ensures
        ({
            let run = spec_process_purchase_token(
                store,
                payload,
                services,
                now,
                fresh_id,
                created_at,
            );
            &&& run.result == Err::<VerifyOutcome, ErrorView>(
                ErrorView::plain(ErrorKind::SubscriptionInvalidLineItems),
            )
            &&& run.calls == seq![CallView::FetchDetail]
            &&& run.store == store
        }),
{
    let refusal = StepView::Fail(ErrorView::plain(ErrorKind::SubscriptionInvalidLineItems));
    lemma_run_single(refusal, start_of(store), fresh_id, created_at, services.answers());
    let run = spec_process_purchase_token(store, payload, services, now, fresh_id, created_at);
    assert(run.calls =~= seq![CallView::FetchDetail]);
}

/// The plan for access is guarded: it writes that access is granted only
/// after it has asked the ledger to grant it.
pub proof fn lemma_access_steps_guarded(
    existing: Option<TokenRecord>,
    user_id: Seq<char>,
    purchase_token: Seq<char>,
    product: Seq<char>,
    detail: GooglePlaySubscriptionResponse,
    acknowledge: bool,
)
    ensures
        guarded(spec_access_steps(existing, user_id, purchase_token, product, detail, acknowledge)),
{
    let steps = spec_access_steps(existing, user_id, purchase_token, product, detail, acknowledge);
    let head = spec_acknowledge_steps(detail, acknowledge);
    let tail = spec_grant_steps(existing, user_id, purchase_token, product, detail);
    assert forall|j: int| 0 <= j < steps.len() && #[trigger] writes_access(
        steps[j],
    ) implies has_grant(steps.take(j)) by {
        if spec_validity(detail, product) is None {
            if j >= head.len() {
                assert(steps[j] == tail[j - head.len()]);
                assert(j == head.len() + 1);
                assert(steps.take(j)[head.len() as int] == tail[0]);
                assert(is_grant(steps.take(j)[head.len() as int]));
            } else {
                assert(steps[j] == head[j]);
            }
        }
    }
}

/// A verification writes that a token has access only after the ledger was
/// called and has granted: where a token has access on record afterwards and
/// had none before, the provider's detail was fetched, the ledger was asked
/// to grant, and it did.
pub proof fn law_access_on_record_follows_grant(
    store: Seq<TokenRecord>,
    payload: VerifyRequest,
    services: Services,
    now: Timestamp,
    fresh_id: Seq<char>,
    created_at: Timestamp,
    token: Seq<char>,
)
    requires
        keys_unique(store),
        !has_access(store, token),
        has_access(
            spec_process_purchase_token(store, payload, services, now, fresh_id, created_at).store,
            token,
        ),
    ensures
        services.detail is Ok,
        services.grant is Ok,
        grant_was_called(
            spec_process_purchase_token(store, payload, services, now, fresh_id, created_at).calls,
        ),
{
    let existing = lookup(store, payload.purchase_token@);
    let detail = services.detail->Ok_0;
    let plan = spec_plan_verification(existing, payload, detail);
    lemma_access_steps_guarded(
        existing,
        payload.user_id@,
        payload.purchase_token@,
        payload.product_id@,
        detail,
        true,
    );
    lemma_access_follows_grant(
        plan,
        start_of(store),
        fresh_id,
        created_at,
        services.answers(),
        token,
    );
    lemma_grant_call_stays(
        CallView::FetchDetail,
        spec_run(plan, store, fresh_id, created_at, services.answers()).calls,
    );
}

/// A verification never takes a record away, never gives one to another
/// user, and never moves an expiry backward: every record is still there
/// afterwards, with its identifier, its owner and its creation time, and
/// expires no earlier than before.
pub proof fn law_verification_keeps_records(
    store: Seq<TokenRecord>,
    payload: VerifyRequest,
    services: Services,
    now: Timestamp,
    fresh_id: Seq<char>,
    created_at: Timestamp,
    token: Seq<char>,
)
    requires
        keys_unique(store),
        lookup(store, token) is Some,
    ensures
        ({
            let run = spec_process_purchase_token(
                store,
                payload,
                services,
                now,
                fresh_id,
                created_at,
            );
            let before = lookup(store, token)->Some_0;
            let after = lookup(run.store, token);
            &&& keys_unique(run.store)
            &&& after is Some
            &&& after->Some_0.user_id == before.user_id
            &&& after->Some_0.id == before.id
            &&& after->Some_0.created_at == before.created_at
            &&& after->Some_0.expiry_at.is_at_or_after(before.expiry_at)
        }),
{
    let existing = lookup(store, payload.purchase_token@);
    if services.detail is Ok {
        lemma_run_keeps_records(
            spec_plan_verification(existing, payload, services.detail->Ok_0),
            start_of(store),
            fresh_id,
            created_at,
            services.answers(),
        );
    }
}

} // verus!
