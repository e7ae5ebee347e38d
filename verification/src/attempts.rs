//! Payment intents and attempts as stored: which statuses still accept
//! work, the identities and trade numbers attempts receive, how stored
//! rows are read back, how closing an attempt is confirmed, and the
//! provider facts kept in an attempt's callback payload.

use vstd::prelude::*;
use vstd::string::*;
use crate::error::{ErrorKind, ServiceError};
use crate::json::{json_document, json_member, json_str, json_text, member_lookup, member_models, parse_json, set_member, write_json, Json, JsonValue};
use crate::money::{money_text_ok, Money};
use crate::num::decimal;
use crate::owner_payment::PayOwnerOrderOutcome;
use crate::params::{lookup, PaymentParams};
use crate::status::outcome_is;
use crate::text::{ascii_lower, lower, norm, normalized, opt_str_view, opt_view, owned, push_char, str_eq, trim, trimmed};

verus! {

/// An order status under which a payment intent may be opened.
pub open spec fn intent_order_payable(status: Seq<char>) -> bool {
    let n = norm(status);
    n == "pending_payment"@ || n == "pending"@ || n == "created"@ || n == "unpaid"@
}

/// Whether a payment intent may be opened for an order in `status`.
pub fn intent_order_status_is_payable(status: &str) -> (r: bool)
    ensures
        r == intent_order_payable(status@),
{
    let n = normalized(status);
    let s = n.as_str();
    str_eq(s, "pending_payment") || str_eq(s, "pending") || str_eq(s, "created") || str_eq(s, "unpaid")
}

/// A payment intent status after which it takes no more work (compared
/// lowercased, as stored).
pub open spec fn intent_finished(status: Seq<char>) -> bool {
    let l = lower(status);
    l == "succeeded"@ || l == "closed"@ || l == "canceled"@ || l == "cancelled"@
}

fn is_intent_finished(status: &str) -> (r: bool)
    ensures
        r == intent_finished(status@),
{
    let l = ascii_lower(status);
    let s = l.as_str();
    str_eq(s, "succeeded") || str_eq(s, "closed") || str_eq(s, "canceled") || str_eq(s, "cancelled")
}

/// Checks that a payment intent may still be canceled.
pub fn ensure_intent_cancelable(status: &str) -> (r: Result<(), ServiceError>)
    ensures
        intent_finished(status@) ==> outcome_is(r, Some((ErrorKind::Conflict, "payment intent is not cancelable"@))),
        !intent_finished(status@) ==> r is Ok,
{
    if is_intent_finished(status) {
        return Err(ServiceError::conflict("payment intent is not cancelable"));
    }
    Ok(())
}

/// Checks that a payment intent may still receive a payment attempt.
pub fn ensure_intent_attemptable(status: &str) -> (r: Result<(), ServiceError>)
    ensures
        intent_finished(status@) ==> outcome_is(r, Some((ErrorKind::Conflict, "payment intent is not attemptable"@))),
        !intent_finished(status@) ==> r is Ok,
{
    if is_intent_finished(status) {
        return Err(ServiceError::conflict("payment intent is not attemptable"));
    }
    Ok(())
}

/// `s` without its `-` characters.
pub open spec fn without_dashes(s: Seq<char>) -> Seq<char>
    decreases s.len(),
{
    if s.len() == 0 {
        Seq::empty()
    } else {
        let rest = without_dashes(s.drop_last());
        if s.last() == '-' {
            rest
        } else {
            rest.push(s.last())
        }
    }
}

/// The merchant trade number of an attempt of an intent: `OT-`, the order
/// number, `-` and the idempotency key without its dashes.
pub fn attempt_out_trade_no(order_sn: &str, idempotency_key: &str) -> (r: String)
    ensures
        r@ == "OT-"@ + order_sn@ + "-"@ + without_dashes(idempotency_key@),
{
    let mut out = owned("OT-");
    out.append(order_sn);
    out.append("-");
    let ghost head = out@;
    let n = idempotency_key.unicode_len();
    let mut i: usize = 0;
    while i < n
        invariant
            n == idempotency_key@.len(),
            0 <= i <= n,
            out@ == head + without_dashes(idempotency_key@.take(i as int)),
        decreases n - i,
    {
        let c = idempotency_key.get_char(i);
        proof {
            assert(idempotency_key@.take(i + 1).drop_last() =~= idempotency_key@.take(i as int));
            assert(idempotency_key@.take(i + 1).last() == c);
        }
        if c != '-' {
            push_char(&mut out, c);
        }
        assert(out@ =~= head + without_dashes(idempotency_key@.take(i + 1)));
        i = i + 1;
    }
    assert(idempotency_key@.take(n as int) =~= idempotency_key@);
    out
}

/// A payment intent as stored.
#[derive(Clone, Debug, PartialEq, Eq)]
pub struct PaymentIntentView {
    pub payment_intent_id: String,
    pub order_id: String,
    pub payment_intent_no: String,
    pub payment_method: String,
    pub provider_code: String,
    pub amount: Money,
    pub currency_code: String,
    pub status: String,
}

/// A payment intent read back from storage; its amount must be well formed.
pub fn payment_intent_view_from_stored(
    payment_intent_id: String,
    order_id: String,
    payment_intent_no: String,
    payment_method: String,
    provider_code: String,
    amount: &str,
    currency_code: String,
    status: String,
) -> (r: Result<PaymentIntentView, ServiceError>)
    ensures
        !money_text_ok(trimmed(amount@)) ==> outcome_is(
            r,
            Some((ErrorKind::Storage, "invalid commerce money amount"@)),
        ),
        money_text_ok(trimmed(amount@)) ==> (r matches Ok(v) && v.amount@ == trimmed(amount@) && v.payment_intent_id
            == payment_intent_id && v.order_id == order_id && v.payment_intent_no == payment_intent_no
            && v.payment_method == payment_method && v.provider_code == provider_code && v.currency_code
            == currency_code && v.status == status),
{
    let amount = match Money::new(amount) {
        Ok(m) => m,
        Err(e) => return Err(ServiceError { kind: ErrorKind::Storage, message: e }),
    };
    Ok(
        PaymentIntentView {
            payment_intent_id,
            order_id,
            payment_intent_no,
            payment_method,
            provider_code,
            amount,
            currency_code,
            status,
        },
    )
}

/// A payment attempt as created or reused for an intent.
#[derive(Clone, Debug, PartialEq, Eq)]
pub struct CreateOwnerPaymentAttemptOutcome {
    pub attempt_id: String,
    pub payment_intent_id: String,
    pub order_id: String,
    pub out_trade_no: String,
    pub amount: Money,
    pub payment_method: String,
    pub provider_code: String,
    pub status: String,
    pub payment_params: PaymentParams,
}

/// The pay outcome of an attempt: its pay parameters, with the provider
/// added when they do not name one.
pub fn attempt_outcome_to_pay_outcome(outcome: CreateOwnerPaymentAttemptOutcome) -> (r: PayOwnerOrderOutcome)
    ensures
        r.amount@ == outcome.amount@,
        r.order_id == outcome.order_id,
        r.out_trade_no == outcome.out_trade_no,
        r.payment_id == outcome.attempt_id,
        r.payment_method == outcome.payment_method,
        r.status == outcome.status,
        forall|k: Seq<char>| #[trigger] lookup(r.payment_params@, k) == if k == "providerCode"@ && lookup(
            outcome.payment_params@,
            k,
        ) is None {
            Some(outcome.provider_code@)
        } else {
            lookup(outcome.payment_params@, k)
        },
{
    let mut params = outcome.payment_params;
    let ghost before = params@;
    if params.get("providerCode").is_none() {
        params.insert(owned("providerCode"), owned(outcome.provider_code.as_str()));
    }
    PayOwnerOrderOutcome {
        amount: outcome.amount,
        order_id: outcome.order_id,
        out_trade_no: outcome.out_trade_no,
        payment_id: outcome.attempt_id,
        payment_method: outcome.payment_method,
        status: outcome.status,
        payment_params: params,
    }
}

/// The verdict on closing a payment attempt, from the rows the close
/// changed and the status stored afterwards.
pub open spec fn attempt_close_check(rows: u64, status: Option<Seq<char>>) -> Option<(ErrorKind, Seq<char>)> {
    if rows == 1 {
        None
    } else if rows == 0 {
        match status {
            None => Some((ErrorKind::Storage, "payment attempt disappeared while it was being closed"@)),
            Some(s) => {
                let n = norm(s);
                if n == "canceled"@ || n == "cancelled"@ || n == "closed"@ {
                    None
                } else if n == "succeeded"@ || n == "success"@ || n == "paid"@ {
                    Some((ErrorKind::Conflict, "payment attempt completed while it was being closed"@))
                } else {
                    Some((ErrorKind::Storage, "payment attempt close was not persisted from status "@ + n))
                }
            },
        }
    } else {
        Some(
            (
                ErrorKind::Storage,
                "payment attempt close updated "@ + decimal(rows as nat) + " rows; expected at most one"@,
            ),
        )
    }
}

/// Checks that closing a payment attempt took effect: one row changed, or
/// none because the attempt was already closed.
pub fn ensure_attempt_close_persisted(rows_affected: u64, persisted_status: Option<&str>) -> (r: Result<(), ServiceError>)
    ensures
        outcome_is(r, attempt_close_check(rows_affected, opt_str_view(persisted_status))),
{
    if rows_affected == 1 {
        return Ok(());
    }
    if rows_affected == 0 {
        let status = match persisted_status {
            Some(s) => normalized(s),
            None => return Err(ServiceError::storage("payment attempt disappeared while it was being closed")),
        };
        let s = status.as_str();
        if str_eq(s, "canceled") || str_eq(s, "cancelled") || str_eq(s, "closed") {
            return Ok(());
        }
        if str_eq(s, "succeeded") || str_eq(s, "success") || str_eq(s, "paid") {
            return Err(ServiceError::conflict("payment attempt completed while it was being closed"));
        }
        let mut m = owned("payment attempt close was not persisted from status ");
        m.append(s);
        return Err(ServiceError { kind: ErrorKind::Storage, message: m });
    }
    let mut m = owned("payment attempt close updated ");
    crate::num::push_decimal(&mut m, rows_affected);
    m.append(" rows; expected at most one");
    Err(ServiceError { kind: ErrorKind::Storage, message: m })
}

/// Where the provider credentials for closing an existing attempt come from.
#[derive(Clone, Debug, PartialEq, Eq)]
pub enum AttemptAccountSource {
    /// The deployment's own providers (the sandbox, or an attempt made
    /// through a payment channel without an account).
    Deployment,
    /// The provider account the attempt was made with.
    ExistingAccount(String),
    /// The tenant's active account for the attempt's provider.
    ActiveAccount(String),
}

/// Decides where the credentials for closing an attempt come from: the
/// sandbox needs none, an attempt remembers its account, a channel without
/// an account uses the deployment's, else the tenant's active account.
pub fn attempt_account_source(provider_code: &str, provider_account_id: Option<&str>, has_channel: bool) -> (r:
    AttemptAccountSource)
    ensures
        lower(trimmed(provider_code@)) == lower("sandbox"@) ==> r == AttemptAccountSource::Deployment,
        lower(trimmed(provider_code@)) != lower("sandbox"@) ==> match provider_account_id {
            Some(a) => r matches AttemptAccountSource::ExistingAccount(id) && id@ == a@,
            None => if has_channel {
                r == AttemptAccountSource::Deployment
            } else {
                r matches AttemptAccountSource::ActiveAccount(code) && code@ == provider_code@
            },
        },
{
    if crate::text::eq_ignore_case(trim(provider_code), "sandbox") {
        return AttemptAccountSource::Deployment;
    }
    match provider_account_id {
        Some(a) => AttemptAccountSource::ExistingAccount(owned(a)),
        None => if has_channel {
            AttemptAccountSource::Deployment
        } else {
            AttemptAccountSource::ActiveAccount(owned(provider_code))
        },
    }
}

/// The verdict on the accounts that match a merchant identity: none, the
/// one, or a conflict when several do.
pub fn merchant_account_match(matching_accounts: usize) -> (r: Result<bool, ServiceError>)
    ensures
        matching_accounts == 0 ==> r == Ok::<bool, ServiceError>(false),
        matching_accounts == 1 ==> r == Ok::<bool, ServiceError>(true),
        matching_accounts >= 2 ==> outcome_is(
            r,
            Some((ErrorKind::Conflict, "multiple active payment provider accounts match merchant identity"@)),
        ),
{
    if matching_accounts == 0 {
        Ok(false)
    } else if matching_accounts == 1 {
        Ok(true)
    } else {
        Err(ServiceError::conflict("multiple active payment provider accounts match merchant identity"))
    }
}

/// The metadata of a provider account from its stored text: the JSON it
/// holds, or an empty object when it holds none.
pub fn metadata_from_text(text: &str) -> (r: JsonValue)
    ensures
        match json_document(text@) {
            Ok(doc) => r.model() == doc,
            Err(_) => r.model() == Json::Object(Seq::empty()),
        },
{
    match parse_json(text) {
        Ok(doc) => doc,
        Err(_) => {
            let members: Vec<(String, JsonValue)> = Vec::new();
            let doc = JsonValue::Object(members);
            assert(member_models(members@) =~= Seq::<(Seq<char>, Json)>::empty());
            doc
        },
    }
}

/// The provider transaction a callback payload records, under either
/// spelling of its name: trimmed, and absent when blank.
pub open spec fn callback_transaction_id(doc: Result<Json, Seq<char>>) -> Option<Seq<char>> {
    match doc {
        Err(_) => None,
        Ok(d) => {
            let raw = match json_member(d, "providerTransactionId"@) {
                Some(v) => Some(v),
                None => json_member(d, "provider_transaction_id"@),
            };
            match json_str(raw) {
                Some(t) => if trimmed(t).len() == 0 {
                    None
                } else {
                    Some(trimmed(t))
                },
                None => None,
            }
        },
    }
}

/// The provider transaction a stored callback payload records.
pub fn provider_transaction_id_from_callback_payload(payload: &str) -> (r: Option<String>)
    ensures
        opt_view(r) == callback_transaction_id(json_document(payload@)),
{
    let doc = match parse_json(payload) {
        Ok(d) => d,
        Err(_) => return None,
    };
    let raw = match doc.get("providerTransactionId") {
        Some(v) => Some(v),
        None => doc.get("provider_transaction_id"),
    };
    match raw {
        Some(v) => match v.as_text() {
            Some(t) => {
                let t = trim(t);
                if t.unicode_len() == 0 {
                    None
                } else {
                    Some(owned(t))
                }
            },
            None => None,
        },
        None => None,
    }
}

/// The members of a callback payload after provider facts are merged in:
/// the pay parameters' provider transaction and status replace the
/// payload's.
pub open spec fn merged_member(before: Seq<(Seq<char>, Json)>, params: Seq<(Seq<char>, Seq<char>)>, k: Seq<char>) -> Option<
    Json,
> {
    if k == "providerTransactionId"@ && lookup(params, k) is Some {
        Some(Json::Str(lookup(params, k)->0))
    } else if k == "providerStatus"@ && lookup(params, k) is Some {
        Some(Json::Str(lookup(params, k)->0))
    } else {
        member_lookup(before, k)
    }
}

/// Whether `text` is the writing of a JSON object whose members are those
/// of `base` with the provider facts of `params` merged in.
pub open spec fn writes_merged_object(
    text: Seq<char>,
    base: Seq<(Seq<char>, Json)>,
    params: Seq<(Seq<char>, Seq<char>)>,
) -> bool {
    exists|d: Json|
        #![trigger json_text(d)]
        text == json_text(d) && (d matches Json::Object(ms) && forall|k: Seq<char>|
            #[trigger] member_lookup(ms, k) == merged_member(base, params, k))
}

/// What merging the provider facts of pay parameters into a stored callback
/// payload gives.
pub open spec fn merged_callback_payload(
    existing: Seq<char>,
    params: Seq<(Seq<char>, Seq<char>)>,
    r: Seq<char>,
) -> bool {
    match json_document(existing) {
        Ok(doc) => match doc {
            Json::Object(ms) => writes_merged_object(r, ms, params),
            _ => r == existing,
        },
        Err(_) => writes_merged_object(r, Seq::empty(), params),
    }
}

/// Merges the provider facts of pay parameters into a stored callback
/// payload: a payload that is not JSON starts from an empty object, and
/// one that is JSON but not an object is kept as it is.
pub fn merge_callback_payload_patch(existing: &str, payment_params: &PaymentParams) -> (r: String)
    ensures
        merged_callback_payload(existing@, payment_params@, r@),
{
    proof {
        reveal_strlit("providerTransactionId");
        reveal_strlit("providerStatus");
        assert("providerTransactionId"@.len() == 21);
        assert("providerStatus"@.len() == 14);
    }
    let mut members: Vec<(String, JsonValue)> = match parse_json(existing) {
        Ok(JsonValue::Object(ms)) => ms,
        Ok(_) => return owned(existing),
        Err(_) => Vec::new(),
    };
    proof {
        crate::json::lemma_member_models(members@);
    }
    let ghost start = member_models(members@);
    match payment_params.get("providerTransactionId") {
        Some(t) => set_member(&mut members, "providerTransactionId", JsonValue::Str(t)),
        None => {},
    }
    match payment_params.get("providerStatus") {
        Some(s) => set_member(&mut members, "providerStatus", JsonValue::Str(s)),
        None => {},
    }
    let doc = JsonValue::Object(members);
    assert(doc.model() == Json::Object(member_models(members@)));
    let out = write_json(&doc);
    assert(forall|k: Seq<char>| #[trigger] member_lookup(member_models(members@), k) == merged_member(start, payment_params@, k));
    out
}

} // verus!
