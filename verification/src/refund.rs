//! Refunds of owner orders: how much a refund may take, the running total
//! of what an order has already refunded, the identities a refund and its
//! events receive, and the provider-submission steps of its lifecycle.

use vstd::prelude::*;
use vstd::string::*;
use crate::checkout::{order_refundable, order_status_is_refundable};
use crate::error::{ErrorKind, ServiceError};
use crate::ids::{refund_id, stable_storage_id, storage_id};
use crate::money::{minor_units_strict, money_text_ok, money_to_minor_units, Money};
use crate::owner_payment::{CreateOwnerRefundCommand, RefundView};
use crate::status::{outcome_is, refund_wire_check, validate_refund_wire_transition};
use crate::text::{all_digits, norm, normalized, opt_str_view, opt_view, owned, str_eq, trimmed};

verus! {

/// The amount a refund asks for: the command's amount, else the order total.
pub fn resolve_refund_amount(command: &CreateOwnerRefundCommand, total_amount: &Money) -> (r: Result<
    String,
    ServiceError,
>)
    ensures
        r matches Ok(a) && a@ == match command.amount {
            Some(v) => v@,
            None => total_amount@,
        },
{
    match &command.amount {
        Some(v) => Ok(owned(v.as_str())),
        None => Ok(owned(total_amount.as_str())),
    }
}

/// Checks that a refund is positive and within the original payment.
pub fn validate_refund_bounds(refund_minor: i64, total_minor: i64) -> (r: Result<(), ServiceError>)
    ensures
        refund_minor <= 0 ==> outcome_is(r, Some((ErrorKind::Validation, "refund amount must be greater than zero"@))),
        0 < refund_minor && refund_minor > total_minor ==> outcome_is(
            r,
            Some((ErrorKind::Conflict, "refund amount exceeds original payment amount"@)),
        ),
        0 < refund_minor <= total_minor ==> r is Ok,
{
    if refund_minor <= 0 {
        return Err(ServiceError::validation("refund amount must be greater than zero"));
    }
    if refund_minor > total_minor {
        return Err(ServiceError::conflict("refund amount exceeds original payment amount"));
    }
    Ok(())
}

/// The total of stored refund amounts, added in order: the first amount
/// that is not a smallest-unit integer, or a total beyond `i64`, is the error.
pub open spec fn refunded_total(amounts: Seq<Seq<char>>) -> Result<int, (ErrorKind, Seq<char>)>
    decreases amounts.len(),
{
    if amounts.len() == 0 {
        Ok(0)
    } else {
        match refunded_total(amounts.drop_last()) {
            Err(e) => Err(e),
            Ok(acc) => match minor_units_strict(amounts.last()) {
                Err(m) => Err((ErrorKind::Validation, m)),
                Ok(v) => if acc + v > i64::MAX {
                    Err((ErrorKind::Validation, "refunded amount sum overflows i64"@))
                } else {
                    Ok(acc + v)
                },
            },
        }
    }
}

/// Adds up the amounts of an order's live refunds in smallest units.
pub fn sum_refunded_minor(amounts: &[String]) -> (r: Result<i64, ServiceError>)
    ensures
        match refunded_total(amounts@.map_values(|a: String| a@)) {
            Ok(v) => r == Ok::<i64, ServiceError>(v as i64),
            Err((kind, message)) => r matches Err(e) && e.kind == kind && e.message@ == message,
        },
{
    let ghost av = amounts@.map_values(|a: String| a@);
    let mut acc: i64 = 0;
    let mut i: usize = 0;
    while i < amounts.len()
        invariant
            0 <= i <= amounts.len(),
            av == amounts@.map_values(|a: String| a@),
            refunded_total(av.subrange(0, i as int)) == Ok::<int, (ErrorKind, Seq<char>)>(acc as int),
            acc >= 0,
        decreases amounts.len() - i,
    {
        proof {
            let next = av.subrange(0, i + 1);
            assert(next.drop_last() =~= av.subrange(0, i as int));
            assert(next.last() == amounts@[i as int]@);
        }
        let minor = match money_to_minor_units(amounts[i].as_str()) {
            Ok(v) => v,
            Err(e) => {
                proof {
                    assert(refunded_total(av.subrange(0, i + 1)) is Err);
                    lemma_refunded_total_keeps_error(av, i + 1);
                }
                assert(av.subrange(0, amounts.len() as int) =~= av);
                return Err(e);
            },
        };
        proof {
            crate::num::lemma_decimal_value_nonneg(trimmed(amounts@[i as int]@));
        }
        let next = acc.checked_add(minor);
        match next {
            Some(v) => {
                acc = v;
            },
            None => {
                proof {
                    lemma_refunded_total_keeps_error(av, i + 1);
                }
                assert(av.subrange(0, amounts.len() as int) =~= av);
                return Err(ServiceError::validation("refunded amount sum overflows i64"));
            },
        }
        i = i + 1;
    }
    assert(av.subrange(0, amounts.len() as int) =~= av);
    Ok(acc)
}

/// Once adding up stops with an error, later amounts keep that error.
pub proof fn lemma_refunded_total_keeps_error(amounts: Seq<Seq<char>>, i: int)
    requires
        0 <= i <= amounts.len(),
        refunded_total(amounts.subrange(0, i)) is Err,
    ensures
        refunded_total(amounts) == refunded_total(amounts.subrange(0, i)),
    decreases amounts.len() - i,
{
    if i < amounts.len() {
        let next = amounts.subrange(0, i + 1);
        assert(next.drop_last() =~= amounts.subrange(0, i));
        lemma_refunded_total_keeps_error(amounts, i + 1);
    } else {
        assert(amounts.subrange(0, i) =~= amounts);
    }
}

/// What remains refundable of a payment of `total` after `already`,
/// saturating at the `i64` bounds.
pub open spec fn remaining_refundable(total: i64, already: i64) -> int {
    let d = total - already;
    if d < i64::MIN {
        i64::MIN as int
    } else if d > i64::MAX {
        i64::MAX as int
    } else {
        d
    }
}

/// The payment attempt a refund is taken from: the one the command names,
/// else the latest succeeded attempt of the order.
pub fn refund_payment_attempt_id(command: &CreateOwnerRefundCommand, latest_succeeded_attempt: Option<String>) -> (r:
    Result<String, ServiceError>)
    ensures
        match command.payment_attempt_id {
            Some(a) => r matches Ok(v) && v@ == a@,
            None => match latest_succeeded_attempt {
                Some(a) => r matches Ok(v) && v@ == a@,
                None => outcome_is(r, Some((ErrorKind::NotFound, "payment attempt was not found"@))),
            },
        },
{
    match &command.payment_attempt_id {
        Some(a) => Ok(owned(a.as_str())),
        None => match latest_succeeded_attempt {
            Some(a) => Ok(a),
            None => Err(ServiceError::not_found("payment attempt was not found")),
        },
    }
}

/// A refund accepted for creation.
#[derive(Clone, Debug, PartialEq, Eq)]
pub struct RefundPlan {
    pub refund_id: String,
    pub refund_no: String,
    pub payment_attempt_id: String,
    pub amount: Money,
    pub amount_minor: i64,
}

/// The verdict on a refund request before any amount is read: the order
/// must be paid with a recorded payment time.
pub open spec fn refund_amounts_outcome(requested: Seq<char>, total: Seq<char>, already: i64) -> Result<
    (int, int),
    (ErrorKind, Seq<char>),
> {
    match minor_units_strict(total) {
        Err(m) => Err((ErrorKind::Validation, m)),
        Ok(t) => match minor_units_strict(requested) {
            Err(m) => Err((ErrorKind::Validation, m)),
            Ok(v) => if v <= 0 {
                Err((ErrorKind::Validation, "refund amount must be greater than zero"@))
            } else if v > t {
                Err((ErrorKind::Conflict, "refund amount exceeds original payment amount"@))
            } else if v > remaining_refundable(t as i64, already) {
                Err((ErrorKind::Conflict, "refund amount exceeds remaining refundable amount"@))
            } else {
                Ok((v, t))
            },
        },
    }
}

/// Decides a refund of an owner order, given the order's status, payment
/// time and total, the attempt the refund is taken from and what the
/// order has already refunded: the order must be refundable, the amount
/// positive, within the total and within what remains refundable.
pub fn plan_owner_refund(
    command: &CreateOwnerRefundCommand,
    order_status: &str,
    pay_time: Option<&str>,
    total_amount: &Money,
    payment_attempt_id: String,
    already_refunded_minor: i64,
) -> (r: Result<RefundPlan, ServiceError>)
    ensures
        !order_refundable(order_status@, opt_str_view(pay_time)) ==> outcome_is(
            r,
            Some((ErrorKind::Conflict, "order is not eligible for refund"@)),
        ),
        order_refundable(order_status@, opt_str_view(pay_time)) ==> {
            let requested = match command.amount {
                Some(v) => v@,
                None => total_amount@,
            };
            match refund_amounts_outcome(requested, total_amount@, already_refunded_minor) {
                Err((kind, message)) => outcome_is(r, Some((kind, message))),
                Ok((v, t)) => r matches Ok(p) && {
                    &&& p.amount_minor == v
                    &&& p.amount@ == trimmed(requested)
                    &&& p.payment_attempt_id@ == payment_attempt_id@
                    &&& p.refund_id@ == storage_id(
                        seq!["refund"@, command.tenant_id@, command.order_id@, command.idempotency_key@],
                    )
                    &&& p.refund_no@ == "RF-"@ + command.request_no@
                },
            }
        },
{
    if !order_status_is_refundable(order_status, pay_time) {
        return Err(ServiceError::conflict("order is not eligible for refund"));
    }
    let requested = resolve_refund_amount(command, total_amount)?;
    proof {
        if all_digits(trimmed(requested@)) {
            crate::num::lemma_decimal_value_nonneg(trimmed(requested@));
        }
        if all_digits(trimmed(total_amount@)) {
            crate::num::lemma_decimal_value_nonneg(trimmed(total_amount@));
        }
        crate::status::lemma_refund_wire_round_trip(crate::status::RefundStatus::Requested);
        reveal_strlit("submitted");
    }
    let total_minor = money_to_minor_units(total_amount.as_str())?;
    let refund_minor = money_to_minor_units(requested.as_str())?;
    validate_refund_bounds(refund_minor, total_minor)?;
    let d: i128 = total_minor as i128 - already_refunded_minor as i128;
    let remaining: i64 = if d < i64::MIN as i128 {
        i64::MIN
    } else if d > i64::MAX as i128 {
        i64::MAX
    } else {
        d as i64
    };
    if refund_minor > remaining {
        return Err(ServiceError::conflict("refund amount exceeds remaining refundable amount"));
    }
    validate_refund_wire_transition(None, "submitted")?;
    let amount = match Money::new(requested.as_str()) {
        Ok(m) => m,
        Err(e) => {
            proof {
                assert(money_text_ok(trimmed(requested@))) by {
                    lemma_smallest_units_are_money(requested@);
                }
            }
            return Err(ServiceError { kind: ErrorKind::Storage, message: e });
        },
    };
    proof {
        lemma_smallest_units_are_money(requested@);
    }
    let mut refund_no = owned("RF-");
    refund_no.append(command.request_no.as_str());
    Ok(
        RefundPlan {
            refund_id: refund_id(command),
            refund_no,
            payment_attempt_id,
            amount,
            amount_minor: refund_minor,
        },
    )
}

/// A text of smallest units is a well-formed money amount.
pub proof fn lemma_smallest_units_are_money(s: Seq<char>)
    requires
        minor_units_strict(s) is Ok,
    ensures
        money_text_ok(trimmed(s)),
{
    let t = trimmed(s);
    assert forall|j: int| 0 <= j < t.len() implies t[j] != '.' by {
        assert(crate::text::is_digit(t[j]));
    }
    crate::text::lemma_find_char_unique(t, '.', t.len() as int);
}

/// A refund that is accepted never takes more than what remains of the
/// payment: with `already` refunded before, `already + amount <= total`.
pub proof fn lemma_accepted_refund_within_total(requested: Seq<char>, total: Seq<char>, already: i64)
    requires
        already >= 0,
    ensures
        refund_amounts_outcome(requested, total, already) matches Ok((v, t)) ==> (0 < v && already + v <= t),
{
}

/// The sum of a sequence of amounts.
pub open spec fn amount_sum(amounts: Seq<int>) -> int
    decreases amounts.len(),
{
    if amounts.len() == 0 {
        0
    } else {
        amount_sum(amounts.drop_last()) + amounts.last()
    }
}

/// Refunds accepted one after another, each positive and within what the
/// ones before it left of the payment, never add up to more than the payment.
pub proof fn lemma_accepted_refunds_stay_within_total(total: int, amounts: Seq<int>)
    requires
        total >= 0,
        forall|i: int|
            0 <= i < amounts.len() ==> 0 < #[trigger] amounts[i] && amounts[i] <= total - amount_sum(amounts.take(i)),
    ensures
        amount_sum(amounts) <= total,
    decreases amounts.len(),
{
    if amounts.len() > 0 {
        let n = amounts.len() - 1;
        let front = amounts.drop_last();
        assert forall|i: int| 0 <= i < front.len() implies 0 < #[trigger] front[i] && front[i] <= total - amount_sum(
            front.take(i),
        ) by {
            assert(front.take(i) =~= amounts.take(i));
            assert(front[i] == amounts[i]);
        }
        lemma_accepted_refunds_stay_within_total(total, front);
        assert(amounts.take(n) =~= front);
        assert(amounts[n] <= total - amount_sum(amounts.take(n)));
    }
}

/// The identity and number of a refund event: one event per tenant,
/// refund, event type and idempotency key, numbered `RFE-<type>-<request>`.
pub fn refund_event_identity(
    tenant_id: &str,
    refund_id: &str,
    event_type: &str,
    request_no: &str,
    idempotency_key: &str,
) -> (r: (String, String))
    ensures
        r.0@ == storage_id(seq!["refund-event"@, tenant_id@, refund_id@, event_type@, idempotency_key@]),
        r.1@ == "RFE-"@ + event_type@ + "-"@ + request_no@,
{
    let parts = ["refund-event", tenant_id, refund_id, event_type, idempotency_key];
    let id = stable_storage_id(&parts);
    assert(parts@.map_values(|p: &str| p@) =~= seq![
        "refund-event"@,
        tenant_id@,
        refund_id@,
        event_type@,
        idempotency_key@,
    ]);
    let mut no = owned("RFE-");
    no.append(event_type);
    no.append("-");
    no.append(request_no);
    (id, no)
}

/// Checks that a stored refund may move to `failed` after its provider
/// submission failed.
pub fn ensure_refund_can_fail(current_status: &str) -> (r: Result<(), ServiceError>)
    ensures
        outcome_is(r, refund_wire_check(Some(current_status@), "failed"@)),
{
    validate_refund_wire_transition(Some(current_status), "failed")
}

/// Checks that a stored refund may be claimed for a provider submission:
/// a submitted refund moves to `processing` along the lifecycle, and a
/// refund whose earlier submission failed may be claimed again for a retry.
pub fn ensure_refund_can_process(current_status: &str) -> (r: Result<(), ServiceError>)
    ensures
        norm(current_status@) == "failed"@ ==> r is Ok,
        norm(current_status@) != "failed"@ ==> outcome_is(r, refund_wire_check(Some(current_status@), "processing"@)),
{
    let n = normalized(current_status);
    if str_eq(n.as_str(), "failed") {
        return Ok(());
    }
    validate_refund_wire_transition(Some(current_status), "processing")
}

/// Checks that the claim of a refund for provider submission changed
/// exactly one row; otherwise another submission holds it.
pub fn ensure_refund_submission_claimed(rows_affected: u64) -> (r: Result<(), ServiceError>)
    ensures
        rows_affected == 1 ==> r is Ok,
        rows_affected != 1 ==> outcome_is(
            r,
            Some((ErrorKind::Conflict, "refund is already processing or is not retryable"@)),
        ),
{
    if rows_affected != 1 {
        return Err(ServiceError::conflict("refund is already processing or is not retryable"));
    }
    Ok(())
}

/// A refund as read back from storage; its amount text must be a
/// well-formed amount.
pub fn refund_view_from_stored(
    refund_id: String,
    refund_no: String,
    order_id: String,
    payment_attempt_id: String,
    amount: &str,
    currency_code: String,
    status: String,
    reason_code: Option<String>,
) -> (r: Result<RefundView, ServiceError>)
    ensures
        !money_text_ok(trimmed(amount@)) ==> outcome_is(
            r,
            Some((ErrorKind::Storage, "invalid commerce money amount"@)),
        ),
        money_text_ok(trimmed(amount@)) ==> (r matches Ok(v) && v.amount@ == trimmed(amount@) && v.refund_id
            == refund_id && v.refund_no == refund_no && v.order_id == order_id && v.payment_attempt_id
            == payment_attempt_id && v.currency_code == currency_code && v.status == status && v.reason_code
            == reason_code),
{
    let amount = match Money::new(amount) {
        Ok(m) => m,
        Err(e) => return Err(ServiceError { kind: ErrorKind::Storage, message: e }),
    };
    Ok(RefundView { amount, currency_code, order_id, payment_attempt_id, reason_code, refund_id, refund_no, status })
}

} // verus!
