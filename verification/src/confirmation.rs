//! Settlement of owner-order payments: which stored statuses count as paid,
//! what a confirmation must find and what the storage layer must report
//! back for a confirmation to be accepted, and the cancellation verdict.

use vstd::prelude::*;
use vstd::string::*;
use crate::clock::{parse_rfc3339_instant, rfc3339_instant};
use crate::error::{ErrorKind, ServiceError};
use crate::num::{decimal, push_decimal};
use crate::status::{outcome_is, payment_status_of, payment_wire_check, validate_payment_wire_transition, PaymentStatus};
use crate::text::{opt_view, owned, trim, trimmed};

verus! {

/// The query that locks, for a confirmation, the exact payment attempt of an
/// owner's order (its `paid_at` as UTC RFC 3339 text with milliseconds).
pub const LOAD_OWNER_PAYMENT_ATTEMPT_FOR_CONFIRMATION: &'static str = r#"
SELECT id, payment_intent_id, status, paid_at, out_trade_no
FROM (
    SELECT id, payment_intent_id, status,
           to_char(paid_at AT TIME ZONE 'UTC', 'YYYY-MM-DD"T"HH24:MI:SS.MS"Z"') AS paid_at,
           out_trade_no, created_at
    FROM commerce_payment_attempt
    WHERE tenant_id = CAST($1 AS TEXT)
      AND ((organization_id = CAST($2 AS TEXT)) OR (organization_id IS NULL AND $3::text IS NULL))
      AND owner_user_id = CAST($4 AS TEXT)
      AND order_id = CAST($5 AS TEXT)
      AND id = CAST($6 AS TEXT)
      AND payment_intent_id = CAST($7 AS TEXT)
      AND ($8::text IS NULL OR out_trade_no = CAST($8 AS TEXT))
      AND deleted_at IS NULL
) AS attempt
ORDER BY created_at DESC, id DESC
LIMIT 1 FOR UPDATE
"#;

/// A stored payment status that already records a successful payment
/// (`succeeded`, `success` or `paid`, in any case and padding).
pub open spec fn terminal_success(status: Seq<char>) -> bool {
    payment_status_of(status) == Some(PaymentStatus::Succeeded)
}

/// Whether a stored status already records a successful payment.
pub fn payment_attempt_is_terminal_success(status: &str) -> (r: bool)
    ensures
        r == terminal_success(status@),
{
    match PaymentStatus::from_wire(status) {
        Ok(PaymentStatus::Succeeded) => true,
        _ => false,
    }
}

/// What a stored `paid_at` of a succeeded attempt yields: the trimmed
/// text when it is RFC 3339, else the storage error's message.
pub open spec fn persisted_paid_at(paid_at: Seq<char>) -> Result<Seq<char>, Seq<char>> {
    let t = trimmed(paid_at);
    if t.len() == 0 {
        Err("succeeded payment attempt is missing persisted paid_at"@)
    } else if rfc3339_instant(t) is Some {
        Ok(t)
    } else {
        Err("succeeded payment attempt has a non-RFC3339 persisted paid_at"@)
    }
}

/// The `paid_at` of a succeeded attempt, which must be stored and be
/// RFC 3339 text; it is handed back trimmed and otherwise as stored.
pub fn required_persisted_paid_at(paid_at: &str) -> (r: Result<String, ServiceError>)
    ensures
        match persisted_paid_at(paid_at@) {
            Ok(t) => r matches Ok(s) && s@ == t,
            Err(m) => r matches Err(e) && e.kind == ErrorKind::Storage && e.message@ == m,
        },
{
    let t = trim(paid_at);
    if t.unicode_len() == 0 {
        return Err(ServiceError::storage("succeeded payment attempt is missing persisted paid_at"));
    }
    match parse_rfc3339_instant(t) {
        Some(_) => Ok(owned(t)),
        None => Err(ServiceError::storage("succeeded payment attempt has a non-RFC3339 persisted paid_at")),
    }
}

/// `prefix`, the numeral of `count`, then `suffix`.
fn count_message(prefix: &str, count: u64, suffix: &str) -> (r: String)
    ensures
        r@ == prefix@ + decimal(count as nat) + suffix@,
{
    let mut out = owned(prefix);
    push_decimal(&mut out, count);
    out.append(suffix);
    out
}

/// The verdict on the payment-intent update of a confirmation, given how
/// many rows the update changed and the intent's status as then stored
/// (`None`: the intent is gone); `None` accepts.
pub open spec fn intent_update_check(rows: u64, status: Option<Seq<char>>) -> Option<(ErrorKind, Seq<char>)> {
    if rows == 1 {
        None
    } else if rows == 0 {
        match status {
            None => Some((ErrorKind::Storage, "owner payment intent disappeared during confirmation"@)),
            Some(s) => if terminal_success(s) {
                None
            } else {
                match payment_wire_check(s, "succeeded"@) {
                    Some(e) => Some(e),
                    None => Some(
                        (
                            ErrorKind::Storage,
                            "owner payment intent was not updated despite a transitionable status"@,
                        ),
                    ),
                }
            },
        }
    } else {
        Some(
            (
                ErrorKind::Storage,
                "owner payment intent confirmation updated "@ + decimal(rows as nat)
                    + " rows; expected at most one"@,
            ),
        )
    }
}

/// Checks what the payment-intent update of a confirmation reported: one
/// changed row, or none because the intent had already succeeded.
pub fn ensure_confirmation_intent_update(rows_affected: u64, persisted_status: Option<&str>) -> (r: Result<
    (),
    ServiceError,
>)
    ensures
        outcome_is(
            r,
            intent_update_check(
                rows_affected,
                match persisted_status {
                    Some(s) => Some(s@),
                    None => None,
                },
            ),
        ),
{
    if rows_affected == 1 {
        return Ok(());
    }
    if rows_affected == 0 {
        let status = match persisted_status {
            Some(s) => s,
            None => return Err(ServiceError::storage("owner payment intent disappeared during confirmation")),
        };
        if payment_attempt_is_terminal_success(status) {
            return Ok(());
        }
        validate_payment_wire_transition(status, "succeeded")?;
        return Err(ServiceError::storage("owner payment intent was not updated despite a transitionable status"));
    }
    Err(
        ServiceError {
            kind: ErrorKind::Storage,
            message: count_message(
                "owner payment intent confirmation updated ",
                rows_affected,
                " rows; expected at most one",
            ),
        },
    )
}

/// What the payment-attempt update of a confirmation means, given how many
/// rows it changed and the attempt's status as then stored: `Ok(false)`
/// for a first confirmation, `Ok(true)` for a replay, else the error.
pub open spec fn attempt_replay_outcome(rows: u64, status: Option<Seq<char>>) -> Result<bool, (ErrorKind, Seq<char>)> {
    match status {
        None => Err((ErrorKind::Storage, "owner payment attempt disappeared during confirmation"@)),
        Some(s) => if rows == 1 && terminal_success(s) {
            Ok(false)
        } else if rows == 0 && terminal_success(s) {
            Ok(true)
        } else if rows == 0 {
            match payment_wire_check(s, "succeeded"@) {
                Some(e) => Err(e),
                None => Err(
                    (ErrorKind::Storage, "owner payment attempt was not updated despite a transitionable status"@),
                ),
            }
        } else if rows == 1 {
            Err((ErrorKind::Storage, "owner payment attempt update did not persist succeeded status"@))
        } else {
            Err(
                (
                    ErrorKind::Storage,
                    "owner payment attempt confirmation updated "@ + decimal(rows as nat)
                        + " rows; expected at most one"@,
                ),
            )
        },
    }
}

/// Tells a first confirmation of a payment attempt from a replay, from the
/// rows its update changed and the status stored afterwards.
pub fn resolve_confirmation_attempt_replayed(rows_affected: u64, persisted_status: Option<&str>) -> (r: Result<
    bool,
    ServiceError,
>)
    ensures
        match attempt_replay_outcome(
            rows_affected,
            match persisted_status {
                Some(s) => Some(s@),
                None => None,
            },
        ) {
            Ok(b) => r == Ok::<bool, ServiceError>(b),
            Err((kind, message)) => r matches Err(e) && e.kind == kind && e.message@ == message,
        },
{
    let status = match persisted_status {
        Some(s) => s,
        None => return Err(ServiceError::storage("owner payment attempt disappeared during confirmation")),
    };
    let succeeded = payment_attempt_is_terminal_success(status);
    if rows_affected == 1 && succeeded {
        return Ok(false);
    }
    if rows_affected == 0 && succeeded {
        return Ok(true);
    }
    if rows_affected == 0 {
        validate_payment_wire_transition(status, "succeeded")?;
        return Err(ServiceError::storage("owner payment attempt was not updated despite a transitionable status"));
    }
    if rows_affected == 1 {
        return Err(ServiceError::storage("owner payment attempt update did not persist succeeded status"));
    }
    Err(
        ServiceError {
            kind: ErrorKind::Storage,
            message: count_message(
                "owner payment attempt confirmation updated ",
                rows_affected,
                " rows; expected at most one",
            ),
        },
    )
}

/// A confirmation is reported as a replay exactly when its attempt update
/// changed no row, and it is accepted only once the stored attempt records
/// a successful payment.
pub proof fn lemma_confirmation_replay_iff_no_row_changed(rows: u64, status: Option<Seq<char>>)
    ensures
        attempt_replay_outcome(rows, status) matches Ok(replayed) ==> ((replayed <==> rows == 0) && (status matches Some(
            s,
        ) && terminal_success(s))),
        status matches Some(s) && terminal_success(s) && rows <= 1 ==> attempt_replay_outcome(rows, status)
            == Ok::<bool, (ErrorKind, Seq<char>)>(rows == 0),
{
}

/// Whether a confirmation must move a stored payment status to
/// `succeeded`: `Ok(false)` when it is already there, `Ok(true)` when the
/// lifecycle allows the move, else the lifecycle's error.
pub fn confirmation_update_required(status: &str) -> (r: Result<bool, ServiceError>)
    ensures
        terminal_success(status@) ==> r == Ok::<bool, ServiceError>(false),
        !terminal_success(status@) ==> match payment_wire_check(status@, "succeeded"@) {
            None => r == Ok::<bool, ServiceError>(true),
            Some((kind, message)) => r matches Err(e) && e.kind == kind && e.message@ == message,
        },
{
    if payment_attempt_is_terminal_success(status) {
        return Ok(false);
    }
    validate_payment_wire_transition(status, "succeeded")?;
    Ok(true)
}

/// The result of confirming an owner order's payment.
#[derive(Clone, Debug, PartialEq, Eq)]
pub struct ConfirmOwnerOrderPaymentOutcome {
    pub tenant_id: String,
    pub organization_id: Option<String>,
    pub owner_user_id: String,
    pub order_id: String,
    pub paid_at: String,
    pub replayed: bool,
}

/// The payment attempt that a settlement (a webhook or a manual
/// confirmation) is about; a manual confirmation may name no attempt, and
/// then exactly one attempt of the order must match.
#[derive(Clone, Debug, PartialEq, Eq)]
pub struct OrderPaymentSettlementAttempt {
    pub tenant_id: String,
    pub organization_id: Option<String>,
    pub owner_user_id: String,
    pub order_id: String,
    pub payment_attempt_id: Option<String>,
    pub out_trade_no: Option<String>,
}

/// An optional text, absent when it is blank (kept as given otherwise).
pub open spec fn non_blank(v: Option<Seq<char>>) -> Option<Seq<char>> {
    match v {
        Some(t) => if trimmed(t).len() == 0 {
            None
        } else {
            Some(t)
        },
        None => None,
    }
}

fn non_blank_text(v: &Option<String>) -> (r: Option<String>)
    ensures
        opt_view(r) == non_blank(opt_view(*v)),
{
    match v {
        Some(t) => if trim(t.as_str()).unicode_len() == 0 {
            None
        } else {
            Some(owned(t.as_str()))
        },
        None => None,
    }
}

impl OrderPaymentSettlementAttempt {
    /// The attempt identity and merchant trade number that select the
    /// confirmed attempt; a blank value selects nothing.
    pub fn lookup_keys(&self) -> (r: (Option<String>, Option<String>))
        ensures
            opt_view(r.0) == non_blank(opt_view(self.payment_attempt_id)),
            opt_view(r.1) == non_blank(opt_view(self.out_trade_no)),
    {
        (non_blank_text(&self.payment_attempt_id), non_blank_text(&self.out_trade_no))
    }
}

/// The verdict on the attempts that match a confirmation: exactly one must.
pub fn select_confirmation_candidate(matching_attempts: usize) -> (r: Result<(), ServiceError>)
    ensures
        matching_attempts == 0 ==> outcome_is(
            r,
            Some((ErrorKind::NotFound, "owner order payment attempt was not found"@)),
        ),
        matching_attempts >= 2 ==> outcome_is(
            r,
            Some((ErrorKind::Conflict, "multiple payment attempts match manual confirmation"@)),
        ),
        matching_attempts == 1 ==> r is Ok,
{
    if matching_attempts == 0 {
        Err(ServiceError::not_found("owner order payment attempt was not found"))
    } else if matching_attempts >= 2 {
        Err(ServiceError::conflict("multiple payment attempts match manual confirmation"))
    } else {
        Ok(())
    }
}

/// The verdict of cancelling an order's payments, given whether the order
/// exists, how many open payment intents were closed, and whether a
/// payment of the order is in a terminal state other than canceled.
pub fn cancel_order_payments_outcome(order_found: bool, closed_intents: u64, terminal_payment_exists: bool) -> (r: Result<
    (),
    ServiceError,
>)
    ensures
        !order_found ==> outcome_is(
            r,
            Some((ErrorKind::NotFound, "owner order was not found for payment cancellation"@)),
        ),
        order_found && closed_intents == 0 && terminal_payment_exists ==> outcome_is(
            r,
            Some((ErrorKind::Conflict, "order payment is in a terminal state and cannot be canceled"@)),
        ),
        order_found && (closed_intents > 0 || !terminal_payment_exists) ==> r is Ok,
{
    if !order_found {
        return Err(ServiceError::not_found("owner order was not found for payment cancellation"));
    }
    if closed_intents == 0 && terminal_payment_exists {
        return Err(ServiceError::conflict("order payment is in a terminal state and cannot be canceled"));
    }
    Ok(())
}

} // verus!
