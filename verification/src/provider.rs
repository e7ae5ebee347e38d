//! The provider side of payments: adapter operations and their errors, the
//! request a checkout sends to a provider and the pay parameters read back
//! from the provider's answer.

use vstd::prelude::*;
use vstd::string::*;
use crate::error::{ErrorKind, ServiceError};
use crate::json::{json_member, json_str, lemma_member_models, member_lookup, member_models, set_member, Json, JsonValue};
use crate::owner_payment::PayOwnerOrderOutcome;
use crate::params::{lookup, PaymentParams};
use crate::status::outcome_is;
use crate::text::{norm, normalized, opt_str_view, opt_text, opt_view, optional_text, owned, str_eq, trim, trimmed};

verus! {

/// An operation of a provider adapter.
#[derive(Clone, Copy, Debug, PartialEq, Eq, Structural)]
pub enum PaymentAdapterOperation {
    CreatePaymentIntent,
    QueryPaymentIntent,
    CancelPaymentIntent,
    CreateRefund,
    QueryRefund,
    VerifyWebhook,
    NormalizeWebhook,
}

/// The name an operation is reported under.
pub open spec fn operation_name(op: PaymentAdapterOperation) -> Seq<char> {
    match op {
        PaymentAdapterOperation::CreatePaymentIntent => "CreatePaymentIntent"@,
        PaymentAdapterOperation::QueryPaymentIntent => "QueryPaymentIntent"@,
        PaymentAdapterOperation::CancelPaymentIntent => "CancelPaymentIntent"@,
        PaymentAdapterOperation::CreateRefund => "CreateRefund"@,
        PaymentAdapterOperation::QueryRefund => "QueryRefund"@,
        PaymentAdapterOperation::VerifyWebhook => "VerifyWebhook"@,
        PaymentAdapterOperation::NormalizeWebhook => "NormalizeWebhook"@,
    }
}

impl PaymentAdapterOperation {
    /// The name this operation is reported under.
    pub fn name(self) -> (r: &'static str)
        ensures
            r@ == operation_name(self),
    {
        match self {
            PaymentAdapterOperation::CreatePaymentIntent => "CreatePaymentIntent",
            PaymentAdapterOperation::QueryPaymentIntent => "QueryPaymentIntent",
            PaymentAdapterOperation::CancelPaymentIntent => "CancelPaymentIntent",
            PaymentAdapterOperation::CreateRefund => "CreateRefund",
            PaymentAdapterOperation::QueryRefund => "QueryRefund",
            PaymentAdapterOperation::VerifyWebhook => "VerifyWebhook",
            PaymentAdapterOperation::NormalizeWebhook => "NormalizeWebhook",
        }
    }
}

/// An error of a provider adapter.
#[derive(Clone, Debug, PartialEq, Eq)]
pub enum ProviderError {
    InvalidRequest { operation: PaymentAdapterOperation, message: String },
    InvalidResponse { operation: PaymentAdapterOperation, message: String },
    UnsupportedCapability { provider_code: String, operation: PaymentAdapterOperation },
    ProviderUnavailable { provider_code: String, message: String },
    Transport { provider_code: String, message: String },
}

/// The service error a provider error is reported as: request and response
/// problems are validation errors, everything else leaves the provider
/// unavailable.
pub open spec fn provider_error_outcome(e: ProviderError) -> (ErrorKind, Seq<char>) {
    match e {
        ProviderError::InvalidRequest { message, .. } => (ErrorKind::Validation, message@),
        ProviderError::InvalidResponse { message, .. } => (ErrorKind::Validation, message@),
        ProviderError::UnsupportedCapability { provider_code, operation } => (
            ErrorKind::ProviderUnavailable,
            "provider "@ + provider_code@ + " does not support "@ + operation_name(operation),
        ),
        ProviderError::ProviderUnavailable { message, .. } => (ErrorKind::ProviderUnavailable, message@),
        ProviderError::Transport { message, .. } => (ErrorKind::ProviderUnavailable, message@),
    }
}

/// Whether a result is the invalid-response error of `op` with message `m`.
pub open spec fn is_invalid_response<T>(r: Result<T, ProviderError>, op: PaymentAdapterOperation, m: Seq<char>) -> bool {
    r matches Err(ProviderError::InvalidResponse { operation, message }) && operation == op && message@ == m
}

/// Whether a result is the invalid-request error of `op` with message `m`.
pub open spec fn is_invalid_request<T>(r: Result<T, ProviderError>, op: PaymentAdapterOperation, m: Seq<char>) -> bool {
    r matches Err(ProviderError::InvalidRequest { operation, message }) && operation == op && message@ == m
}

impl ProviderError {
    /// A request the provider cannot be sent.
    pub fn invalid_request(operation: PaymentAdapterOperation, message: &str) -> (r: Self)
        ensures
            r matches ProviderError::InvalidRequest { operation: o, message: m } && o == operation && m@ == message@,
    {
        ProviderError::InvalidRequest { operation, message: owned(message) }
    }

    /// An answer of the provider that cannot be read.
    pub fn invalid_response(operation: PaymentAdapterOperation, message: &str) -> (r: Self)
        ensures
            r matches ProviderError::InvalidResponse { operation: o, message: m } && o == operation && m@ == message@,
    {
        ProviderError::InvalidResponse { operation, message: owned(message) }
    }

    /// A failed exchange with the provider.
    pub fn transport(provider_code: &str, message: &str) -> (r: Self)
        ensures
            r matches ProviderError::Transport { provider_code: c, message: m } && c@ == provider_code@ && m@
                == message@,
    {
        ProviderError::Transport { provider_code: owned(provider_code), message: owned(message) }
    }

    /// The service error this provider error is reported as.
    pub fn into_service_error(self) -> (r: ServiceError)
        ensures
            (r.kind, r.message@) == provider_error_outcome(self),
    {
        match self {
            ProviderError::InvalidRequest { message, .. } => ServiceError { kind: ErrorKind::Validation, message },
            ProviderError::InvalidResponse { message, .. } => ServiceError { kind: ErrorKind::Validation, message },
            ProviderError::UnsupportedCapability { provider_code, operation } => {
                let mut m = owned("provider ");
                m.append(provider_code.as_str());
                m.append(" does not support ");
                m.append(operation.name());
                ServiceError { kind: ErrorKind::ProviderUnavailable, message: m }
            },
            ProviderError::ProviderUnavailable { message, .. } => ServiceError {
                kind: ErrorKind::ProviderUnavailable,
                message,
            },
            ProviderError::Transport { message, .. } => ServiceError { kind: ErrorKind::ProviderUnavailable, message },
        }
    }
}

/// A provider code in the form providers are registered under: trimmed
/// and lowercased.
pub fn normalize_provider_code(provider_code: &str) -> (r: String)
    ensures
        r@ == norm(provider_code@),
{
    normalized(provider_code)
}

/// Whether a provider needs no call at all: the sandbox, or no provider.
pub open spec fn provider_call_skipped(provider_code: Seq<char>) -> bool {
    provider_code == "sandbox"@ || provider_code.len() == 0
}

/// A required text of a provider request: its trimmed value, or an invalid
/// request naming the field when it is absent or blank.
pub fn require_non_empty(value: Option<&str>, operation: PaymentAdapterOperation, field: &str) -> (r: Result<
    String,
    ProviderError,
>)
    ensures
        match opt_text(opt_str_view(value)) {
            Some(t) => r matches Ok(s) && s@ == t,
            None => is_invalid_request(r, operation, field@ + " is required"@),
        },
{
    match optional_text(value) {
        Some(t) => Ok(t),
        None => {
            let mut m = owned(field);
            m.append(" is required");
            Err(ProviderError::InvalidRequest { operation, message: m })
        },
    }
}

/// A required positive amount of a provider request, or an invalid request
/// naming the field.
pub fn require_positive_amount(amount: Option<i64>, operation: PaymentAdapterOperation, field: &str) -> (r: Result<
    i64,
    ProviderError,
>)
    ensures
        match amount {
            Some(a) => if a > 0 {
                r == Ok::<i64, ProviderError>(a)
            } else {
                is_invalid_request(r, operation, field@ + " must be greater than zero"@)
            },
            None => is_invalid_request(r, operation, field@ + " must be greater than zero"@),
        },
{
    match amount {
        Some(a) => if a > 0 {
            return Ok(a);
        },
        None => {},
    }
    let mut m = owned(field);
    m.append(" must be greater than zero");
    Err(ProviderError::InvalidRequest { operation, message: m })
}

/// An optional text, trimmed, absent when blank.
pub fn normalized_optional(value: Option<String>) -> (r: Option<String>)
    ensures
        opt_view(r) == opt_text(opt_view(value)),
{
    match value {
        Some(v) => optional_text(Some(v.as_str())),
        None => None,
    }
}

/// Whether calls to the provider (by its normalised code) are skipped.
pub fn provider_call_is_skipped(provider_code: &str) -> (r: bool)
    ensures
        r == provider_call_skipped(provider_code@),
{
    str_eq(provider_code, "sandbox") || provider_code.unicode_len() == 0
}

/// The error of a provider that is not configured.
pub fn provider_not_configured(provider_code: &str) -> (r: ServiceError)
    ensures
        r.kind == ErrorKind::ProviderUnavailable,
        r.message@ == "payment provider "@ + provider_code@ + " is not configured"@,
{
    let mut m = owned("payment provider ");
    m.append(provider_code);
    m.append(" is not configured");
    ServiceError { kind: ErrorKind::ProviderUnavailable, message: m }
}

/// Whether `s` begins with `p`.
pub open spec fn starts_with(s: Seq<char>, p: Seq<char>) -> bool {
    s.len() >= p.len() && s.take(p.len() as int) == p
}

/// Whether a text begins with a prefix.
pub fn text_starts_with(s: &str, p: &str) -> (r: bool)
    ensures
        r == starts_with(s@, p@),
{
    let n = s.unicode_len();
    let m = p.unicode_len();
    if m > n {
        return false;
    }
    let mut i: usize = 0;
    while i < m
        invariant
            m <= n,
            n == s@.len(),
            m == p@.len(),
            0 <= i <= m,
            forall|j: int| 0 <= j < i ==> s@[j] == p@[j],
        decreases m - i,
    {
        if s.get_char(i) != p.get_char(i) {
            assert(s@.take(m as int)[i as int] != p@[i as int]);
            return false;
        }
        i = i + 1;
    }
    assert(s@.take(m as int) =~= p@);
    true
}

/// The reference a provider cancels a payment by: a Stripe payment intent
/// (`pi_...`) when one is known, else the merchant trade number.
pub open spec fn cancel_reference_spec(provider_code: Seq<char>, out_trade_no: Seq<char>, provider_transaction_id: Option<
    Seq<char>,
>) -> Seq<char> {
    if provider_code == "stripe"@ && (provider_transaction_id matches Some(t) && starts_with(t, "pi_"@)) {
        provider_transaction_id->0
    } else {
        out_trade_no
    }
}

/// The reference a provider cancels a payment by.
pub fn cancel_reference<'a>(provider_code: &str, out_trade_no: &'a str, provider_transaction_id: Option<&'a str>) -> (r:
    &'a str)
    ensures
        r@ == cancel_reference_spec(provider_code@, out_trade_no@, opt_str_view(provider_transaction_id)),
{
    if str_eq(provider_code, "stripe") {
        match provider_transaction_id {
            Some(t) => if text_starts_with(t, "pi_") {
                return t;
            },
            None => {},
        }
    }
    out_trade_no
}

/// What a provider answered to an operation.
#[derive(Debug)]
pub struct PaymentProviderOperationOutcome {
    pub provider_code: String,
    pub native_id: Option<String>,
    pub raw_status: Option<String>,
    pub payload: JsonValue,
}

/// The text of a string member of a provider's answer.
pub open spec fn payload_text(payload: Json, key: Seq<char>) -> Option<Seq<char>> {
    json_str(json_member(payload, key))
}

fn payload_text_of(payload: &JsonValue, key: &str) -> (r: Option<String>)
    ensures
        opt_view(r) == payload_text(payload.model(), key@),
{
    match payload.get(key) {
        Some(v) => match v.as_text() {
            Some(t) => Some(owned(t)),
            None => None,
        },
        None => None,
    }
}

/// The next action and QR code a provider's answer asks of the payer.
pub open spec fn provider_action(provider_code: Seq<char>, payload: Json) -> (Option<Seq<char>>, Option<Seq<char>>, Option<
    Seq<char>,
>) {
    if provider_code == "stripe"@ {
        (Some("stripe_confirm"@), None, payload_text(payload, "client_secret"@))
    } else if provider_code == "alipay"@ {
        match payload_text(payload, "qr_code"@) {
            Some(q) => (Some("qr_code"@), Some(q), None),
            None => (None, None, None),
        }
    } else if provider_code == "wechat_pay"@ {
        match payload_text(payload, "code_url"@) {
            Some(q) => (Some("qr_code"@), Some(q), None),
            None => (None, None, None),
        }
    } else {
        (Some("cashier"@), None, None)
    }
}

proof fn lemma_param_keys_distinct()
    ensures
        "providerCode"@ != "providerTransactionId"@,
        "providerCode"@ != "providerStatus"@,
        "providerCode"@ != "nextAction"@,
        "providerCode"@ != "qrCodeUrl"@,
        "providerCode"@ != "clientSecret"@,
        "providerTransactionId"@ != "providerStatus"@,
        "providerTransactionId"@ != "nextAction"@,
        "providerTransactionId"@ != "qrCodeUrl"@,
        "providerTransactionId"@ != "clientSecret"@,
        "providerStatus"@ != "nextAction"@,
        "providerStatus"@ != "qrCodeUrl"@,
        "providerStatus"@ != "clientSecret"@,
        "nextAction"@ != "qrCodeUrl"@,
        "nextAction"@ != "clientSecret"@,
        "qrCodeUrl"@ != "clientSecret"@,
{
    reveal_strlit("providerCode");
    reveal_strlit("providerTransactionId");
    reveal_strlit("providerStatus");
    reveal_strlit("nextAction");
    reveal_strlit("qrCodeUrl");
    reveal_strlit("clientSecret");
    assert("providerCode"@.len() == 12);
    assert("providerTransactionId"@.len() == 21);
    assert("providerStatus"@.len() == 14);
    assert("nextAction"@.len() == 10);
    assert("qrCodeUrl"@.len() == 9);
    assert("clientSecret"@.len() == 12);
    assert("providerCode"@[0] != "clientSecret"@[0]);
}

proof fn lemma_metadata_keys_distinct()
    ensures
        "order_id"@ != "idempotency_key"@,
        "order_id"@ != "subject"@,
        "order_id"@ != "payment_scene"@,
        "idempotency_key"@ != "subject"@,
        "idempotency_key"@ != "payment_scene"@,
        "subject"@ != "payment_scene"@,
{
    reveal_strlit("order_id");
    reveal_strlit("idempotency_key");
    reveal_strlit("subject");
    reveal_strlit("payment_scene");
    assert("order_id"@.len() == 8);
    assert("idempotency_key"@.len() == 15);
    assert("subject"@.len() == 7);
    assert("payment_scene"@.len() == 13);
}

/// The pay parameters a provider's answer gives: the provider, its
/// transaction and status, and what the payer must do next.
pub fn payment_params_from_provider(provider_code: &str, outcome: &PaymentProviderOperationOutcome) -> (r: PaymentParams)
    ensures
        forall|k: Seq<char>| #[trigger] lookup(r@, k) == {
            let (action, qr, secret) = provider_action(provider_code@, outcome.payload.model());
            if k == "providerCode"@ {
                Some(provider_code@)
            } else if k == "providerTransactionId"@ {
                opt_view(outcome.native_id)
            } else if k == "providerStatus"@ {
                opt_view(outcome.raw_status)
            } else if k == "nextAction"@ {
                action
            } else if k == "qrCodeUrl"@ {
                qr
            } else if k == "clientSecret"@ {
                secret
            } else {
                None
            }
        },
{
    proof {
        lemma_param_keys_distinct();
    }
    let mut params = PaymentParams::new();
    assert forall|k: Seq<char>| #[trigger] lookup(params@, k) is None by {
        assert(!crate::params::has_key(params@, k));
    }
    params.insert(owned("providerCode"), owned(provider_code));
    match &outcome.native_id {
        Some(id) => params.insert(owned("providerTransactionId"), owned(id.as_str())),
        None => {},
    }
    match &outcome.raw_status {
        Some(st) => params.insert(owned("providerStatus"), owned(st.as_str())),
        None => {},
    }
    if str_eq(provider_code, "stripe") {
        match payload_text_of(&outcome.payload, "client_secret") {
            Some(secret) => params.insert(owned("clientSecret"), secret),
            None => {},
        }
        params.insert(owned("nextAction"), owned("stripe_confirm"));
    } else if str_eq(provider_code, "alipay") {
        match payload_text_of(&outcome.payload, "qr_code") {
            Some(qr) => {
                params.insert(owned("qrCodeUrl"), qr);
                params.insert(owned("nextAction"), owned("qr_code"));
            },
            None => {},
        }
    } else if str_eq(provider_code, "wechat_pay") {
        match payload_text_of(&outcome.payload, "code_url") {
            Some(qr) => {
                params.insert(owned("qrCodeUrl"), qr);
                params.insert(owned("nextAction"), owned("qr_code"));
            },
            None => {},
        }
    } else {
        params.insert(owned("nextAction"), owned("cashier"));
    }
    params
}

/// The cashier link a provider's answer offers, if any.
pub open spec fn cashier_url_spec(provider_code: Seq<char>, native_id: Option<Seq<char>>, payload: Json) -> Option<
    Seq<char>,
> {
    if provider_code == "alipay"@ {
        payload_text(payload, "qr_code"@)
    } else if provider_code == "wechat_pay"@ {
        payload_text(payload, "code_url"@)
    } else if provider_code == "stripe"@ {
        match native_id {
            Some(id) => Some("stripe://payment_intent/"@ + id),
            None => None,
        }
    } else {
        None
    }
}

/// The cashier link of a provider's answer.
pub fn cashier_url_from_provider(provider_code: &str, outcome: &PaymentProviderOperationOutcome) -> (r: Option<String>)
    ensures
        opt_view(r) == cashier_url_spec(provider_code@, opt_view(outcome.native_id), outcome.payload.model()),
{
    if str_eq(provider_code, "alipay") {
        payload_text_of(&outcome.payload, "qr_code")
    } else if str_eq(provider_code, "wechat_pay") {
        payload_text_of(&outcome.payload, "code_url")
    } else if str_eq(provider_code, "stripe") {
        match &outcome.native_id {
            Some(id) => {
                let mut url = owned("stripe://payment_intent/");
                url.append(id.as_str());
                Some(url)
            },
            None => None,
        }
    } else {
        None
    }
}

/// The context of a provider checkout.
#[derive(Debug)]
pub struct CheckoutContext {
    pub provider_code: String,
    pub currency_code: String,
    pub tenant_id: String,
    pub order_id: String,
    pub idempotency_key: String,
    pub notify_url: Option<String>,
    pub payment_scene: Option<String>,
    pub payment_metadata: Option<JsonValue>,
}

/// The metadata a provider checkout request carries: the payer's metadata
/// (when it is an object), with the order, idempotency key, subject and
/// payment scene set.
pub open spec fn request_metadata_has(
    metadata: Json,
    payer: Option<Json>,
    order_id: Seq<char>,
    idempotency_key: Seq<char>,
    order_sn: Option<Seq<char>>,
    scene: Seq<char>,
) -> bool {
    metadata matches Json::Object(ms) && forall|k: Seq<char>| #[trigger] member_lookup(ms, k) == if k == "order_id"@ {
        Some(Json::Str(order_id))
    } else if k == "idempotency_key"@ {
        Some(Json::Str(idempotency_key))
    } else if k == "subject"@ {
        Some(
            Json::Str(
                "Order "@ + match order_sn {
                    Some(s) => s,
                    None => Seq::empty(),
                },
            ),
        )
    } else if k == "payment_scene"@ {
        Some(Json::Str(scene))
    } else {
        match payer {
            Some(Json::Object(pm)) => member_lookup(pm, k),
            _ => None,
        }
    }
}

/// The method key and metadata of the provider request of a checkout: the
/// payment method of the outcome is the method key; the scene is the
/// checkout's, else the payment method.
pub fn provider_request_context(context: CheckoutContext, outcome: &PayOwnerOrderOutcome) -> (r: (String, JsonValue))
    ensures
        r.0@ == outcome.payment_method@,
        request_metadata_has(
            r.1.model(),
            match context.payment_metadata {
                Some(m) => Some(m.model()),
                None => None,
            },
            context.order_id@,
            context.idempotency_key@,
            lookup(outcome.payment_params@, "orderSn"@),
            match context.payment_scene {
                Some(s) => s@,
                None => outcome.payment_method@,
            },
        ),
{
    let ghost payer = match &context.payment_metadata {
        Some(m) => Some(m.model()),
        None => None,
    };
    let mut members: Vec<(String, JsonValue)> = match context.payment_metadata {
        Some(JsonValue::Object(ms)) => ms,
        _ => Vec::new(),
    };
    proof {
        lemma_member_models(members@);
    }
    let ghost start = member_models(members@);
    proof {
        if !(payer matches Some(Json::Object(_))) {
            assert(members@.len() == 0);
            assert(start.len() == 0);
        }
        assert forall|k: Seq<char>| #[trigger] member_lookup(start, k) == match payer {
            Some(Json::Object(pm)) => member_lookup(pm, k),
            _ => None,
        } by {
            if !(payer matches Some(Json::Object(_))) {
                assert(start.len() == 0);
            }
        }
    }
    set_member(&mut members, "order_id", JsonValue::Str(owned(context.order_id.as_str())));
    set_member(&mut members, "idempotency_key", JsonValue::Str(owned(context.idempotency_key.as_str())));
    let mut subject = owned("Order ");
    match outcome.payment_params.get("orderSn") {
        Some(sn) => subject.append(sn.as_str()),
        None => {
            assert(subject@ =~= "Order "@ + Seq::<char>::empty());
        },
    }
    set_member(&mut members, "subject", JsonValue::Str(subject));
    let scene = match &context.payment_scene {
        Some(s) => owned(s.as_str()),
        None => owned(outcome.payment_method.as_str()),
    };
    set_member(&mut members, "payment_scene", JsonValue::Str(scene));
    let ghost order_sn = lookup(outcome.payment_params@, "orderSn"@);
    let result = JsonValue::Object(members);
    proof {
        lemma_metadata_keys_distinct();
        assert(result.model() == Json::Object(member_models(members@)));
        assert(forall|k: Seq<char>| #[trigger] member_lookup(start, k) == match payer {
            Some(Json::Object(pm)) => member_lookup(pm, k),
            _ => None,
        });
    }
    (owned(outcome.payment_method.as_str()), result)
}

} // verus!
