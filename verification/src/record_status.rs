//! The status and amount of a payment record as the read model derives them
//! from the stored order, payment and payment attempt.
use vstd::prelude::*;

use crate::error::{message_with, ErrorKind, ServiceError};
use crate::money::{format_money_minor, minor_decimal_text, money_cents, money_cents_spec, money_text_ok, Money};
use crate::money::two_digits;
use crate::num::{decimal, lemma_decimal_round_trip};
use crate::text::{is_digit, lemma_trimmed_idempotent, lemma_trimmed_plain, norm, normalized, str_eq, trim, trimmed};

verus! {

/// The record label of a stored order status, or `None` when the status is
/// not one the read model knows.
pub open spec fn order_label_of(s: Seq<char>) -> Option<Seq<char>> {
    if s == "pending"@ || s == "pending_payment"@ || s == "unpaid"@ || s == "wait_pay"@ || s == "draft"@ {
        Some("pending"@)
    } else if s == "paid"@ || s == "fulfilled"@ || s == "success"@ || s == "completed"@ {
        Some("success"@)
    } else if s == "closed"@ || s == "cancelled"@ || s == "canceled"@ || s == "failed"@ {
        Some("failed"@)
    } else {
        None
    }
}

/// The record label of a stored payment status, or `None` when it is not a
/// payment status.
pub open spec fn payment_label_of(s: Seq<char>) -> Option<Seq<char>> {
    if s == "pending"@ {
        Some("pending"@)
    } else if s == "succeeded"@ {
        Some("success"@)
    } else if s == "failed"@ || s == "canceled"@ {
        Some("failed"@)
    } else {
        None
    }
}

fn label_result(label: Option<&'static str>, prefix: &str, status: String) -> (r: Result<&'static str, ServiceError>)
    ensures
        match label {
            Some(l) => r == Ok::<&'static str, ServiceError>(l),
            None => r matches Err(e) && e.kind == ErrorKind::Storage && e.message@ == prefix@ + status@,
        },
{
    match label {
        Some(l) => Ok(l),
        None => Err(ServiceError { kind: ErrorKind::Storage, message: message_with(prefix, status.as_str()) }),
    }
}

/// The record label of a stored order status (compared trimmed and in
/// ASCII lowercase).
pub fn order_recharge_status_label(value: &str) -> (r: Result<&'static str, ServiceError>)
    ensures
        match order_label_of(norm(value@)) {
            Some(l) => r matches Ok(x) && x@ == l,
            None => r matches Err(e) && e.kind == ErrorKind::Storage && e.message@
                == "unsupported payment record order status: "@ + norm(value@),
        },
{
    let s = normalized(value);
    let t = s.as_str();
    let label = if str_eq(t, "pending") || str_eq(t, "pending_payment") || str_eq(t, "unpaid") || str_eq(t, "wait_pay")
        || str_eq(t, "draft") {
        Some("pending")
    } else if str_eq(t, "paid") || str_eq(t, "fulfilled") || str_eq(t, "success") || str_eq(t, "completed") {
        Some("success")
    } else if str_eq(t, "closed") || str_eq(t, "cancelled") || str_eq(t, "canceled") || str_eq(t, "failed") {
        Some("failed")
    } else {
        None
    };
    label_result(label, "unsupported payment record order status: ", s)
}

/// The record label of a stored payment status (compared trimmed and in
/// ASCII lowercase).
pub fn payment_status_label(value: &str) -> (r: Result<&'static str, ServiceError>)
    ensures
        match payment_label_of(norm(value@)) {
            Some(l) => r matches Ok(x) && x@ == l,
            None => r matches Err(e) && e.kind == ErrorKind::Storage && e.message@
                == "unsupported payment record payment status: "@ + norm(value@),
        },
{
    let s = normalized(value);
    let t = s.as_str();
    let label = if str_eq(t, "pending") {
        Some("pending")
    } else if str_eq(t, "succeeded") {
        Some("success")
    } else if str_eq(t, "failed") || str_eq(t, "canceled") {
        Some("failed")
    } else {
        None
    };
    label_result(label, "unsupported payment record payment status: ", s)
}

/// The label of a payment record from the labels of its order, payment and
/// payment attempt: a failed order fails the record; any success otherwise
/// makes it a success; a failed payment or attempt fails it; else it is
/// pending.
pub open spec fn record_label(order: Seq<char>, payment: Seq<char>, attempt: Seq<char>) -> Seq<char> {
    if order == "failed"@ {
        "failed"@
    } else if attempt == "success"@ || payment == "success"@ || order == "success"@ {
        "success"@
    } else if attempt == "failed"@ || payment == "failed"@ {
        "failed"@
    } else {
        "pending"@
    }
}

/// The label of a payment record from the labels of its parts.
pub fn payment_record_status_label(order_status: &str, payment_status: &str, payment_attempt_status: &str) -> (r:
    &'static str)
    ensures
        r@ == record_label(order_status@, payment_status@, payment_attempt_status@),
{
    if str_eq(order_status, "failed") {
        "failed"
    } else if str_eq(payment_attempt_status, "success") || str_eq(payment_status, "success") || str_eq(
        order_status,
        "success",
    ) {
        "success"
    } else if str_eq(payment_attempt_status, "failed") || str_eq(payment_status, "failed") {
        "failed"
    } else {
        "pending"
    }
}

/// The error of a record whose stored status is missing.
pub open spec fn missing_status_message(source: Seq<char>) -> Seq<char> {
    "missing payment record "@ + source + " status from database row"@
}

/// A stored status that must be present: its trimmed text, or a storage
/// error when it is absent or blank.
pub fn required_status_cell(value: Option<&str>, source: &str) -> (r: Result<String, ServiceError>)
    ensures
        match value {
            Some(v) if trimmed(v@).len() > 0 => r matches Ok(s) && s@ == trimmed(v@),
            _ => r matches Err(e) && e.kind == ErrorKind::Storage && e.message@ == missing_status_message(source@),
        },
{
    match value {
        Some(v) => {
            let t = trim(v);
            if t.unicode_len() > 0 {
                return Ok(t.to_owned());
            }
        },
        None => {},
    }
    let head = message_with("missing payment record ", source);
    Err(ServiceError { kind: ErrorKind::Storage, message: message_with(head.as_str(), " status from database row") })
}

/// The status of a related row, which is required only when the relation
/// is present (its key is not blank).
pub fn related_status_cell(relation: Option<&str>, status: Option<&str>, source: &str) -> (r: Result<
    Option<String>,
    ServiceError,
>)
    ensures
        match relation {
            Some(k) if trimmed(k@).len() > 0 => match status {
                Some(v) if trimmed(v@).len() > 0 => r matches Ok(Some(s)) && s@ == trimmed(v@),
                _ => r matches Err(e) && e.kind == ErrorKind::Storage && e.message@ == missing_status_message(
                    source@,
                ),
            },
            _ => r matches Ok(None),
        },
{
    let present = match relation {
        Some(k) => trim(k).unicode_len() > 0,
        None => false,
    };
    if !present {
        return Ok(None);
    }
    match required_status_cell(status, source) {
        Ok(s) => Ok(Some(s)),
        Err(e) => Err(e),
    }
}

/// The label of a related status, pending when the relation is absent.
fn related_label(status: Option<String>) -> (r: Result<&'static str, ServiceError>)
    ensures
        match status {
            None => r matches Ok(x) && x@ == "pending"@,
            Some(s) => match payment_label_of(norm(s@)) {
                Some(l) => r matches Ok(x) && x@ == l,
                None => r matches Err(e) && e.kind == ErrorKind::Storage,
            },
        },
{
    match status {
        None => Ok("pending"),
        Some(s) => payment_status_label(s.as_str()),
    }
}

/// The stored parts of a payment record row that decide its status.
pub struct PaymentRecordStatusCells<'a> {
    pub order_status: Option<&'a str>,
    pub payment_id: Option<&'a str>,
    pub payment_status: Option<&'a str>,
    pub payment_attempt_id: Option<&'a str>,
    pub payment_attempt_status: Option<&'a str>,
}

/// The label of a related part of a record row: pending when the relation
/// is absent, its payment label when present.
pub open spec fn related_part(relation: Option<&str>, status: Option<&str>) -> Option<Seq<char>> {
    match relation {
        Some(k) if trimmed(k@).len() > 0 => match status {
            Some(v) if trimmed(v@).len() > 0 => payment_label_of(norm(v@)),
            _ => None,
        },
        _ => Some("pending"@),
    }
}

/// The status of a payment record row, when every present part of it is
/// known.
pub open spec fn record_status_of(cells: PaymentRecordStatusCells) -> Option<Seq<char>> {
    match cells.order_status {
        Some(o) if trimmed(o@).len() > 0 => match (
            order_label_of(norm(o@)),
            related_part(cells.payment_id, cells.payment_status),
            related_part(cells.payment_attempt_id, cells.payment_attempt_status),
        ) {
            (Some(ol), Some(pl), Some(al)) => Some(record_label(ol, pl, al)),
            _ => None,
        },
        _ => None,
    }
}

/// The status of a payment record row from its order, payment and payment
/// attempt statuses; a missing or unknown status is a storage error.
pub fn payment_record_status(cells: &PaymentRecordStatusCells) -> (r: Result<&'static str, ServiceError>)
    ensures
        match record_status_of(*cells) {
            Some(l) => r matches Ok(x) && x@ == l,
            None => r matches Err(e) && e.kind == ErrorKind::Storage,
        },
{
    proof {
        match cells.order_status {
            Some(v) => lemma_trimmed_idempotent(v@),
            None => {},
        }
        match cells.payment_status {
            Some(v) => lemma_trimmed_idempotent(v@),
            None => {},
        }
        match cells.payment_attempt_status {
            Some(v) => lemma_trimmed_idempotent(v@),
            None => {},
        }
    }
    let order = match required_status_cell(cells.order_status, "order") {
        Ok(o) => o,
        Err(e) => return Err(e),
    };
    let order_label = match order_recharge_status_label(order.as_str()) {
        Ok(l) => l,
        Err(e) => return Err(e),
    };
    let payment = match related_status_cell(cells.payment_id, cells.payment_status, "payment") {
        Ok(p) => p,
        Err(e) => return Err(e),
    };
    let payment_label = match related_label(payment) {
        Ok(l) => l,
        Err(e) => return Err(e),
    };
    let attempt = match related_status_cell(cells.payment_attempt_id, cells.payment_attempt_status, "payment attempt") {
        Ok(p) => p,
        Err(e) => return Err(e),
    };
    let attempt_label = match related_label(attempt) {
        Ok(l) => l,
        Err(e) => return Err(e),
    };
    Ok(payment_record_status_label(order_label, payment_label, attempt_label))
}

proof fn lemma_minor_text_plain(c: int)
    ensures
        trimmed(minor_decimal_text(c)) == minor_decimal_text(c),
{
    let abs = if c < 0 { -c } else { c };
    lemma_decimal_round_trip((abs / 100) as nat);
    lemma_decimal_round_trip((abs % 100) as nat);
    let whole = decimal((abs / 100) as nat);
    let d2 = two_digits(abs % 100);
    let t = minor_decimal_text(c);
    assert(is_digit(d2[d2.len() - 1]));
    assert(t.last() == d2.last());
    assert(is_digit(whole[0]));
    assert(t[0] == '-' || t[0] == whole[0]);
    lemma_trimmed_plain(t);
}

/// The amount of a stored amount cell: read as cents and rendered with two
/// fraction digits; an unreadable or negative amount is a storage error
/// naming the field.
pub fn commerce_money_cell(value: &str, field_name: &str) -> (r: Result<Money, ServiceError>)
    requires
        money_cents_spec(value@) != Some(i64::MIN as int),
    ensures
        match money_cents_spec(value@) {
            Some(c) => if money_text_ok(minor_decimal_text(c)) {
                r matches Ok(m) && m@ == minor_decimal_text(c)
            } else {
                r matches Err(e) && e.kind == ErrorKind::Storage && e.message@ == "invalid commerce money amount"@
                    + ": "@ + value@
            },
            None => r matches Err(e) && e.kind == ErrorKind::Storage && e.message@ == "invalid "@ + field_name@
                + ": "@ + value@,
        },
{
    let cents = match money_cents(value) {
        Ok(c) => c,
        Err(_) => {
            let head = message_with("invalid ", field_name);
            let head = message_with(head.as_str(), ": ");
            return Err(ServiceError { kind: ErrorKind::Storage, message: message_with(head.as_str(), value) });
        },
    };
    let text = format_money_minor(cents);
    proof {
        lemma_minor_text_plain(cents as int);
    }
    match Money::new(text.as_str()) {
        Ok(m) => Ok(m),
        Err(message) => {
            let head = message_with(message.as_str(), ": ");
            Err(ServiceError { kind: ErrorKind::Storage, message: message_with(head.as_str(), value) })
        },
    }
}

} // verus!
