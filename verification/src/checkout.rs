//! Paying for an owner order and preparing its provider checkout: which
//! order and payment statuses allow it, the identities a new payment
//! receives, and the expiry handed to the provider.

use vstd::prelude::*;
use vstd::string::*;
use crate::clock::{
    format_utc_seconds, instant_le, parse_rfc3339_instant, plausible_instant, rfc3339_instant, utc_now_instant,
    utc_seconds_text,
};
use crate::error::{ErrorKind, ServiceError};
use crate::ids::{byte_prefix, stable_storage_id, storage_id, utf8_len, OwnerOrderPaymentEnrichmentContext};
use crate::json::JsonValue;
use crate::provider::CheckoutContext;
use crate::money::{money_text_ok, Money};
use crate::owner_payment::{PayOwnerOrderCommand, PayOwnerOrderOutcome};
use crate::params::{lookup, PaymentParams};
use crate::status::{outcome_is, payment_status_of, PaymentStatus};
use crate::text::{norm, normalized, opt_str_view, opt_text, opt_view, optional_text, owned, str_eq, trim, trimmed};

verus! {

/// A payment record status from which a checkout may still be prepared.
pub open spec fn checkout_eligible(status: Seq<char>) -> bool {
    let n = norm(status);
    n == "created"@ || n == "pending"@ || n == "processing"@
}

/// Whether a payment record may still be taken to the provider's checkout.
pub fn payment_record_is_checkout_eligible(status: &str) -> (r: bool)
    ensures
        r == checkout_eligible(status@),
{
    let n = normalized(status);
    str_eq(n.as_str(), "created") || str_eq(n.as_str(), "pending") || str_eq(n.as_str(), "processing")
}

/// An order status that still awaits payment.
pub open spec fn order_payable(status: Seq<char>) -> bool {
    let n = norm(status);
    ||| n == "draft"@
    ||| n == "pending"@
    ||| n == "pending_payment"@
    ||| n == "unpaid"@
    ||| n == "wait_pay"@
    ||| n == "created"@
}

/// Whether an order in `status` can be paid.
pub fn order_status_is_payable(status: &str) -> (r: bool)
    ensures
        r == order_payable(status@),
{
    let n = normalized(status);
    let s = n.as_str();
    str_eq(s, "draft") || str_eq(s, "pending") || str_eq(s, "pending_payment") || str_eq(s, "unpaid") || str_eq(
        s,
        "wait_pay",
    ) || str_eq(s, "created")
}

/// An order status that records a completed payment.
pub open spec fn order_paid(status: Seq<char>) -> bool {
    let n = norm(status);
    ||| n == "paid"@
    ||| n == "succeeded"@
    ||| n == "success"@
    ||| n == "completed"@
    ||| n == "finished"@
}

/// A paid order with a recorded, non-blank payment time.
pub open spec fn order_refundable(status: Seq<char>, pay_time: Option<Seq<char>>) -> bool {
    order_paid(status) && (pay_time matches Some(t) && trimmed(t).len() > 0)
}

/// Whether an order can be refunded: it is paid and its payment time is recorded.
pub fn order_status_is_refundable(status: &str, pay_time: Option<&str>) -> (r: bool)
    ensures
        r == order_refundable(status@, opt_str_view(pay_time)),
{
    let n = normalized(status);
    let s = n.as_str();
    let paid = str_eq(s, "paid") || str_eq(s, "succeeded") || str_eq(s, "success") || str_eq(s, "completed")
        || str_eq(s, "finished");
    let timed = match pay_time {
        Some(t) => trim(t).unicode_len() > 0,
        None => false,
    };
    paid && timed
}

/// The provider-facing facts of a stored payment attempt.
#[derive(Clone, Debug, PartialEq, Eq)]
pub struct PaymentAttemptProviderContext {
    pub attempt_id: String,
    pub provider_code: String,
    pub out_trade_no: String,
    pub amount: String,
    pub tenant_id: String,
    pub idempotency_key: String,
    pub provider_transaction_id: Option<String>,
}

/// Checks that the stored attempt still is the one a pay outcome speaks of,
/// before a provider checkout is prepared for it.
pub fn ensure_provider_attempt_snapshot(attempt: &PaymentAttemptProviderContext, outcome: &PayOwnerOrderOutcome) -> (r:
    Result<(), ServiceError>)
    ensures
        trimmed(attempt.idempotency_key@).len() == 0 ==> outcome_is(
            r,
            Some((ErrorKind::Storage, "payment attempt is missing its persisted idempotency key"@)),
        ),
        trimmed(attempt.idempotency_key@).len() > 0 && attempt.out_trade_no@ != outcome.out_trade_no@ ==> outcome_is(
            r,
            Some((ErrorKind::Conflict, "payment attempt changed while checkout was being prepared"@)),
        ),
        trimmed(attempt.idempotency_key@).len() > 0 && attempt.out_trade_no@ == outcome.out_trade_no@ ==> r is Ok,
{
    if trim(attempt.idempotency_key.as_str()).unicode_len() == 0 {
        return Err(ServiceError::storage("payment attempt is missing its persisted idempotency key"));
    }
    if !str_eq(attempt.out_trade_no.as_str(), outcome.out_trade_no.as_str()) {
        return Err(ServiceError::conflict("payment attempt changed while checkout was being prepared"));
    }
    Ok(())
}

/// Checks that storing the checkout expiry changed exactly one attempt.
pub fn ensure_attempt_expiry_persisted(rows_affected: u64) -> (r: Result<(), ServiceError>)
    ensures
        rows_affected == 1 ==> r is Ok,
        rows_affected != 1 ==> outcome_is(
            r,
            Some((ErrorKind::Conflict, "payment attempt changed while checkout expiry was being persisted"@)),
        ),
{
    if rows_affected == 1 {
        Ok(())
    } else {
        Err(ServiceError::conflict("payment attempt changed while checkout expiry was being persisted"))
    }
}

/// How long a provider checkout stays open at most, in seconds.
pub const PROVIDER_CHECKOUT_TTL_SECONDS: i64 = 900;

/// The latest expiry a provider checkout opened at `now` may have.
pub open spec fn provider_limit(now: (i64, u32)) -> (i64, u32) {
    ((now.0 + PROVIDER_CHECKOUT_TTL_SECONDS) as i64, now.1)
}

/// The expiry of a checkout opened at `now` for an order that expires at
/// `order` (if it does): the earlier of the two, which must lie after
/// `now`; else the error's message.
pub open spec fn checkout_expiry(order: Option<(i64, u32)>, now: (i64, u32)) -> Result<(i64, u32), Seq<char>> {
    let limit = provider_limit(now);
    let e = match order {
        Some(i) => if instant_le(i, limit) {
            i
        } else {
            limit
        },
        None => limit,
    };
    if instant_le(e, now) {
        Err("payment attempt has expired"@)
    } else {
        Ok(e)
    }
}

/// The checkout expiry for an order's stored expiry text (blank: none).
pub open spec fn checkout_expiry_for_text(order_expires_at: Option<Seq<char>>, now: (i64, u32)) -> Result<
    (i64, u32),
    Seq<char>,
> {
    match opt_text(order_expires_at) {
        None => checkout_expiry(None, now),
        Some(t) => match rfc3339_instant(t) {
            None => Err("payment attempt expiry is invalid"@),
            Some(i) => checkout_expiry(Some(i), now),
        },
    }
}

/// Whether a result is the conflict with the given message, or the value.
pub open spec fn conflict_or<T>(r: Result<T, ServiceError>, expected: Result<T, Seq<char>>) -> bool {
    match expected {
        Ok(v) => r == Ok::<T, ServiceError>(v),
        Err(m) => r matches Err(e) && e.kind == ErrorKind::Conflict && e.message@ == m,
    }
}

/// A checkout expiry that is granted lies after `now`, at most fifteen
/// minutes after it, and never after the order's own expiry; it is refused
/// only for an order that has already expired.
pub proof fn lemma_checkout_expiry_bounds(order: Option<(i64, u32)>, now: (i64, u32))
    requires
        plausible_instant(now),
    ensures
        checkout_expiry(order, now) matches Ok(e) ==> (!instant_le(e, now) && instant_le(e, provider_limit(now)) && (
        order matches Some(i) ==> instant_le(e, i))),
        checkout_expiry(order, now) is Err ==> (order matches Some(i) && instant_le(i, now)),
        order is None ==> checkout_expiry(order, now) == Ok::<(i64, u32), Seq<char>>(provider_limit(now)),
{
}

/// The expiry of a checkout opened at `now`, given the instant the order
/// expires at (if it does).
pub fn choose_checkout_expiry(order_instant: Option<(i64, u32)>, now: (i64, u32)) -> (r: Result<
    (i64, u32),
    ServiceError,
>)
    requires
        plausible_instant(now),
    ensures
        conflict_or(r, checkout_expiry(order_instant, now)),
{
    let limit = (now.0 + PROVIDER_CHECKOUT_TTL_SECONDS, now.1);
    let e = match order_instant {
        Some(i) => if i.0 < limit.0 || (i.0 == limit.0 && i.1 <= limit.1) {
            i
        } else {
            limit
        },
        None => limit,
    };
    if e.0 < now.0 || (e.0 == now.0 && e.1 <= now.1) {
        Err(ServiceError::conflict("payment attempt has expired"))
    } else {
        Ok(e)
    }
}

/// The expiry of a checkout opened at `now` for an order whose stored
/// expiry text is `order_expires_at`.
pub fn checkout_expiry_at(order_expires_at: Option<&str>, now: (i64, u32)) -> (r: Result<(i64, u32), ServiceError>)
    requires
        plausible_instant(now),
    ensures
        conflict_or(r, checkout_expiry_for_text(opt_str_view(order_expires_at), now)),
{
    match optional_text(order_expires_at) {
        None => choose_checkout_expiry(None, now),
        Some(t) => match parse_rfc3339_instant(t.as_str()) {
            None => Err(ServiceError::conflict("payment attempt expiry is invalid")),
            Some(i) => choose_checkout_expiry(Some(i), now),
        },
    }
}

/// The expiry, as RFC 3339 text in whole seconds, of a provider checkout
/// opened now for an order that expires at `order_expires_at`: at most
/// fifteen minutes ahead, never after the order expires, and refused once
/// it has passed. An instant that cannot be written is reported as an
/// invalid expiry. For an order without an expiry the expiry is fifteen
/// minutes from the clock's reading, so it fails only where that instant
/// cannot be written.
pub fn provider_checkout_expiration(order_expires_at: Option<&str>) -> (r: Result<String, ServiceError>)
    ensures
        r matches Ok(s) ==> exists|now: (i64, u32)|
            plausible_instant(now) && (#[trigger] checkout_expiry_for_text(opt_str_view(order_expires_at), now) matches Ok(
                e,
            ) && utc_seconds_text(e.0, e.1) == Some(s@)),
        r matches Err(e) ==> e.kind == ErrorKind::Conflict && exists|now: (i64, u32)|
            plausible_instant(now) && match #[trigger] checkout_expiry_for_text(opt_str_view(order_expires_at), now) {
                Err(m) => e.message@ == m,
                Ok(x) => utc_seconds_text(x.0, x.1) is None && e.message@ == "payment attempt expiry is invalid"@,
            },
        opt_text(opt_str_view(order_expires_at)) is None ==> (r is Ok || exists|now: (i64, u32)|
            plausible_instant(now) && #[trigger] utc_seconds_text(provider_limit(now).0, provider_limit(now).1) is None),
        opt_text(opt_str_view(order_expires_at)) matches Some(t) && rfc3339_instant(t) is None ==> outcome_is(
            r,
            Some((ErrorKind::Conflict, "payment attempt expiry is invalid"@)),
        ),
{
    let now = utc_now_instant();
    proof {
        lemma_checkout_expiry_bounds(None, now);
    }
    let e = checkout_expiry_at(order_expires_at, now)?;
    match format_utc_seconds(e.0, e.1) {
        Some(s) => Ok(s),
        None => Err(ServiceError::conflict("payment attempt expiry is invalid")),
    }
}

/// The identities and stored texts of a new owner-order payment.
#[derive(Clone, Debug, PartialEq, Eq)]
pub struct OwnerOrderPaymentPlan {
    pub amount: Money,
    pub payment_intent_id: String,
    pub payment_attempt_id: String,
    pub payment_intent_no: String,
    pub out_trade_no: String,
    pub callback_payload: String,
}

/// `p` is the first `max` bytes of `s` (all of `s` when shorter).
pub open spec fn is_byte_prefix(p: Seq<char>, s: Seq<char>, max: nat) -> bool {
    &&& p.len() <= s.len()
    &&& s.take(p.len() as int) == p
    &&& utf8_len(p) == if utf8_len(s) < max {
        utf8_len(s)
    } else {
        max
    }
}

/// A text whose first `max` bytes end on a character boundary.
pub open spec fn cuts_at_char(s: Seq<char>, max: nat) -> bool {
    exists|k: int| 0 <= k <= s.len() && utf8_len(#[trigger] s.take(k)) == if utf8_len(s) < max {
        utf8_len(s)
    } else {
        max
    }
}

/// The merchant trade number of an owner-order payment: `OT-`, the order
/// number, `-` and the first 24 bytes of the idempotency key.
pub open spec fn owner_out_trade_no_ok(t: Seq<char>, order_sn: Seq<char>, idempotency_key: Seq<char>) -> bool {
    let head = "OT-"@ + order_sn + "-"@;
    &&& t.len() >= head.len()
    &&& t.take(head.len() as int) == head
    &&& is_byte_prefix(t.skip(head.len() as int), idempotency_key, 24)
}

/// Plans a new payment of an owner order: the order's total must be a
/// well-formed amount (else a storage error) and its status must await
/// payment (else a conflict); the intent and attempt identities follow
/// from the tenant, order and idempotency key.
pub fn plan_owner_order_payment(
    command: &PayOwnerOrderCommand,
    order_sn: &str,
    order_status: &str,
    total_amount: &str,
) -> (r: Result<OwnerOrderPaymentPlan, ServiceError>)
    requires
        cuts_at_char(command.idempotency_key@, 24),
    ensures
        !money_text_ok(trimmed(total_amount@)) ==> outcome_is(
            r,
            Some((ErrorKind::Storage, "invalid commerce money amount"@)),
        ),
        money_text_ok(trimmed(total_amount@)) && !order_payable(order_status@) ==> outcome_is(
            r,
            Some((ErrorKind::Conflict, "order is not pending payment"@)),
        ),
        money_text_ok(trimmed(total_amount@)) && order_payable(order_status@) ==> (r matches Ok(p) && {
            &&& p.amount@ == trimmed(total_amount@)
            &&& p.payment_intent_id@ == storage_id(
                seq!["pi"@, command.tenant_id@, command.order_id@, command.idempotency_key@],
            )
            &&& p.payment_attempt_id@ == storage_id(
                seq!["pa"@, command.tenant_id@, command.order_id@, command.idempotency_key@],
            )
            &&& p.payment_intent_no@ == "PAY-"@ + order_sn@
            &&& owner_out_trade_no_ok(p.out_trade_no@, order_sn@, command.idempotency_key@)
            &&& p.callback_payload@ == match command.payment_attempt_callback_payload {
                Some(c) => c@,
                None => "{}"@,
            }
        }),
{
    let amount = match Money::new(total_amount) {
        Ok(m) => m,
        Err(e) => return Err(ServiceError { kind: ErrorKind::Storage, message: e }),
    };
    if !order_status_is_payable(order_status) {
        return Err(ServiceError::conflict("order is not pending payment"));
    }
    let intent_parts = [
        "pi",
        command.tenant_id.as_str(),
        command.order_id.as_str(),
        command.idempotency_key.as_str(),
    ];
    let attempt_parts = [
        "pa",
        command.tenant_id.as_str(),
        command.order_id.as_str(),
        command.idempotency_key.as_str(),
    ];
    let payment_intent_id = stable_storage_id(&intent_parts);
    let payment_attempt_id = stable_storage_id(&attempt_parts);
    assert(intent_parts@.map_values(|p: &str| p@) =~= seq![
        "pi"@,
        command.tenant_id@,
        command.order_id@,
        command.idempotency_key@,
    ]);
    assert(attempt_parts@.map_values(|p: &str| p@) =~= seq![
        "pa"@,
        command.tenant_id@,
        command.order_id@,
        command.idempotency_key@,
    ]);
    let mut payment_intent_no = owned("PAY-");
    payment_intent_no.append(order_sn);
    let mut out_trade_no = owned("OT-");
    out_trade_no.append(order_sn);
    out_trade_no.append("-");
    let key_part = byte_prefix(command.idempotency_key.as_str(), 24);
    let ghost head = out_trade_no@;
    out_trade_no.append(key_part.as_str());
    proof {
        reveal_strlit("OT-");
        reveal_strlit("-");
        assert(head == "OT-"@ + order_sn@ + "-"@);
        assert(out_trade_no@.take(head.len() as int) =~= head);
        assert(out_trade_no@.skip(head.len() as int) =~= key_part@);
    }
    let callback_payload = match &command.payment_attempt_callback_payload {
        Some(c) => owned(c.as_str()),
        None => owned("{}"),
    };
    Ok(
        OwnerOrderPaymentPlan {
            amount,
            payment_intent_id,
            payment_attempt_id,
            payment_intent_no,
            out_trade_no,
            callback_payload,
        },
    )
}

/// Whether pay parameters carry provider facts worth keeping on the
/// stored attempt (its provider transaction or provider status).
pub fn attempt_enrichment_needed(payment_params: &PaymentParams) -> (r: bool)
    ensures
        r == (lookup(payment_params@, "providerTransactionId"@) is Some || lookup(
            payment_params@,
            "providerStatus"@,
        ) is Some),
{
    payment_params.get("providerTransactionId").is_some() || payment_params.get("providerStatus").is_some()
}

/// The provider checkout context of an attempt: the order and scene of the
/// enrichment context, the attempt's provider, idempotency key and payer
/// metadata as persisted, in CNY, with the provider's notification URL.
pub fn provider_checkout_context(
    context: &OwnerOrderPaymentEnrichmentContext,
    provider_code: &str,
    idempotency_key: &str,
    payment_metadata: Option<JsonValue>,
    notify_url: Option<String>,
) -> (r: CheckoutContext)
    ensures
        r.provider_code@ == provider_code@,
        r.currency_code@ == "CNY"@,
        r.tenant_id@ == context.tenant_id@,
        r.order_id@ == context.order_id@,
        r.idempotency_key@ == idempotency_key@,
        r.notify_url == notify_url,
        opt_view(r.payment_scene) == opt_str_view(context.payment_scene),
        r.payment_metadata == payment_metadata,
{
    CheckoutContext {
        provider_code: owned(provider_code),
        currency_code: owned("CNY"),
        tenant_id: owned(context.tenant_id),
        order_id: owned(context.order_id),
        idempotency_key: owned(idempotency_key),
        notify_url,
        payment_scene: match context.payment_scene {
            Some(s) => Some(owned(s)),
            None => None,
        },
        payment_metadata,
    }
}

/// A payment record may still be taken to the provider's checkout exactly
/// when the payment lifecycle reads its status as created or pending (the
/// latter also written `processing`), whatever its padding and case.
pub proof fn lemma_checkout_eligible_records(s: Seq<char>)
    ensures
        checkout_eligible(s) <==> (payment_status_of(s) == Some(PaymentStatus::Created) || payment_status_of(s)
            == Some(PaymentStatus::Pending)),
        norm(s) == "created"@ ==> checkout_eligible(s),
        norm(s) == "pending"@ ==> checkout_eligible(s),
        norm(s) == "processing"@ ==> checkout_eligible(s),
{
}

/// The order statuses that await payment are exactly `draft`, `pending`,
/// `pending_payment`, `unpaid`, `wait_pay` and `created`, in any ASCII case
/// and padding; no such order counts as paid.
pub proof fn lemma_payable_orders(s: Seq<char>)
    ensures
        (norm(s) == "draft"@ || norm(s) == "pending"@ || norm(s) == "pending_payment"@ || norm(s) == "unpaid"@
            || norm(s) == "wait_pay"@ || norm(s) == "created"@) <==> order_payable(s),
        order_payable(s) ==> !order_paid(s),
{
    lemma_order_words_distinct();
}

/// The paid order statuses are exactly `paid`, `succeeded`, `success`,
/// `completed` and `finished`, in any ASCII case and padding; every status
/// that the payment lifecycle reads as succeeded is among them. A paid order
/// is refundable exactly when its payment time is recorded and not blank,
/// and a refundable order never awaits payment.
pub proof fn lemma_refundable_orders(s: Seq<char>, pay_time: Option<Seq<char>>)
    ensures
        (norm(s) == "paid"@ || norm(s) == "succeeded"@ || norm(s) == "success"@ || norm(s) == "completed"@
            || norm(s) == "finished"@) <==> order_paid(s),
        payment_status_of(s) == Some(PaymentStatus::Succeeded) ==> order_paid(s),
        order_refundable(s, pay_time) <==> (order_paid(s) && (pay_time matches Some(t) && trimmed(t).len()
            > 0)),
        !order_refundable(s, None),
        order_refundable(s, pay_time) ==> !order_payable(s),
{
    lemma_order_words_distinct();
}

proof fn lemma_order_words_distinct()
    ensures
        "draft"@.len() == 5,
        "pending"@.len() == 7,
        "pending_payment"@.len() == 15,
        "unpaid"@.len() == 6,
        "wait_pay"@.len() == 8,
        "created"@.len() == 7,
        "paid"@.len() == 4,
        "succeeded"@.len() == 9,
        "success"@.len() == 7,
        "completed"@.len() == 9,
        "finished"@.len() == 8,
        "pending"@ != "success"@,
        "created"@ != "success"@,
        "wait_pay"@ != "finished"@,
{
    reveal_strlit("draft");
    reveal_strlit("pending");
    reveal_strlit("pending_payment");
    reveal_strlit("unpaid");
    reveal_strlit("wait_pay");
    reveal_strlit("created");
    reveal_strlit("paid");
    reveal_strlit("succeeded");
    reveal_strlit("success");
    reveal_strlit("completed");
    reveal_strlit("finished");
    assert("pending"@[0] != "success"@[0]);
    assert("created"@[0] != "success"@[0]);
    assert("wait_pay"@[0] != "finished"@[0]);
}

} // verus!
