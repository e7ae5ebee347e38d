//! Provider webhooks: the identities under which an event is stored, the
//! stored JSON payload that records what the event said and which payment
//! attempt it matched, and the decisions of ingesting and applying it.

use vstd::prelude::*;
use vstd::string::*;
use vstd::utf8::*;
use crate::digest::{sha256_hex, sha256_hex_of};
use crate::error::{ErrorKind, ServiceError};
use crate::ids::{lemma_frame_unique, lock_component};
use crate::json::{json_document, json_member, json_str, json_text, parse_json, write_json, Json, JsonValue};
use crate::num::push_decimal;
use crate::status::outcome_is;
use crate::text::{eq_ignore_case, lower, norm, normalized, opt_str_view, opt_text, opt_view, optional_text, owned, push_char, str_eq, trim, trimmed};
use crate::status::{payment_wire_check, validate_payment_wire_transition};

verus! {

/// The stored status of a webhook event that could not be processed, among
/// them those that matched no payment attempt.
pub const WEBHOOK_EVENT_STATUS_FAILED: &'static str = "failed";

/// The canonical text of a list of parts: each part framed by its UTF-8
/// byte length and a colon, and followed by a bar.
pub open spec fn scoped_canonical(parts: Seq<Seq<char>>) -> Seq<char>
    decreases parts.len(),
{
    if parts.len() == 0 {
        Seq::empty()
    } else {
        lock_component(parts[0]) + seq!['|'] + scoped_canonical(parts.drop_first())
    }
}

/// A prefix followed by the SHA-256 digest of the canonical text of parts.
pub open spec fn scoped_hash(prefix: Seq<char>, parts: Seq<Seq<char>>) -> Seq<char> {
    prefix + sha256_hex(encode_utf8(scoped_canonical(parts)))
}

proof fn lemma_scoped_canonical_push(parts: Seq<Seq<char>>, x: Seq<char>)
    ensures
        scoped_canonical(parts.push(x)) == scoped_canonical(parts) + lock_component(x) + seq!['|'],
    decreases parts.len(),
{
    if parts.len() == 0 {
        assert(parts.push(x).drop_first() =~= Seq::<Seq<char>>::empty());
        assert(parts.push(x)[0] == x);
        assert(scoped_canonical(Seq::<Seq<char>>::empty()) == Seq::<char>::empty());
        assert(scoped_canonical(parts.push(x).drop_first()) == Seq::<char>::empty());
        assert(scoped_canonical(parts.push(x)) =~= lock_component(x) + seq!['|'] + Seq::<char>::empty());
        assert(scoped_canonical(parts) + lock_component(x) + seq!['|'] =~= lock_component(x) + seq!['|']);
    } else {
        assert(parts.push(x).drop_first() =~= parts.drop_first().push(x));
        lemma_scoped_canonical_push(parts.drop_first(), x);
        assert(parts.push(x)[0] == parts[0]);
        assert(scoped_canonical(parts.push(x)) =~= scoped_canonical(parts) + lock_component(x) + seq!['|']);
    }
}

/// Distinct lists of parts have distinct canonical texts.
pub proof fn lemma_scoped_canonical_injective(p1: Seq<Seq<char>>, p2: Seq<Seq<char>>)
    requires
        scoped_canonical(p1) == scoped_canonical(p2),
    ensures
        p1 == p2,
    decreases p1.len(),
{
    if p1.len() == 0 && p2.len() == 0 {
        assert(p1 =~= p2);
    } else if p1.len() == 0 {
        assert(scoped_canonical(p2).len() > 0);
    } else if p2.len() == 0 {
        assert(scoped_canonical(p1).len() > 0);
    } else {
        let r1 = seq!['|'] + scoped_canonical(p1.drop_first());
        let r2 = seq!['|'] + scoped_canonical(p2.drop_first());
        assert(scoped_canonical(p1) =~= lock_component(p1[0]) + r1);
        assert(scoped_canonical(p2) =~= lock_component(p2[0]) + r2);
        lemma_frame_unique(p1[0], r1, p2[0], r2);
        assert(scoped_canonical(p1.drop_first()) =~= r1.drop_first());
        assert(scoped_canonical(p2.drop_first()) =~= r2.drop_first());
        lemma_scoped_canonical_injective(p1.drop_first(), p2.drop_first());
        assert(p1 =~= seq![p1[0]] + p1.drop_first());
        assert(p2 =~= seq![p2[0]] + p2.drop_first());
    }
}

/// The prefix followed by the SHA-256 digest of the canonical text of the parts.
pub fn stable_scoped_hash(prefix: &str, parts: &[&str]) -> (r: String)
    ensures
        r@ == scoped_hash(prefix@, parts@.map_values(|p: &str| p@)),
{
    let ghost pv = parts@.map_values(|p: &str| p@);
    let mut canonical = String::new();
    let mut i: usize = 0;
    assert(pv.take(0) =~= Seq::<Seq<char>>::empty());
    while i < parts.len()
        invariant
            0 <= i <= parts.len(),
            pv == parts@.map_values(|p: &str| p@),
            canonical@ == scoped_canonical(pv.take(i as int)),
        decreases parts.len() - i,
    {
        let part = parts[i];
        push_decimal(&mut canonical, part.as_bytes().len() as u64);
        push_char(&mut canonical, ':');
        canonical.append(part);
        push_char(&mut canonical, '|');
        proof {
            assert(pv.take(i + 1) =~= pv.take(i as int).push(part@));
            lemma_scoped_canonical_push(pv.take(i as int), part@);
            assert(canonical@ =~= scoped_canonical(pv.take(i + 1)));
        }
        i = i + 1;
    }
    assert(pv.take(parts.len() as int) =~= pv);
    let digest = sha256_hex_of(canonical.as_str().as_bytes());
    let mut out = owned(prefix);
    out.append(digest.as_str());
    out
}

/// The provider-scoped identity of a provider's event: the provider code
/// (trimmed, lowercased) and the event id (trimmed), hashed.
pub open spec fn provider_scoped_event_id_spec(provider_code: Seq<char>, provider_event_id: Seq<char>) -> Seq<char> {
    scoped_hash("webhook-event-"@, seq![norm(provider_code), trimmed(provider_event_id)])
}

/// The identity of a provider's event, independent of the provider code's
/// case and of padding.
pub fn provider_scoped_webhook_event_id(provider_code: &str, provider_event_id: &str) -> (r: String)
    ensures
        r@ == provider_scoped_event_id_spec(provider_code@, provider_event_id@),
{
    let code = normalized(provider_code);
    let event = trim(provider_event_id);
    let parts = [code.as_str(), event];
    let r = stable_scoped_hash("webhook-event-", &parts);
    assert(parts@.map_values(|p: &str| p@) =~= seq![norm(provider_code@), trimmed(provider_event_id@)]);
    r
}

/// The stored identity of an event within a tenant.
pub open spec fn webhook_event_storage_id_spec(tenant_id: Seq<char>, provider_scoped_event_id: Seq<char>) -> Seq<char> {
    scoped_hash("webhook-record-"@, seq![trimmed(tenant_id), provider_scoped_event_id])
}

/// The row identity of an event stored for a tenant.
pub fn webhook_event_storage_id(tenant_id: &str, provider_scoped_event_id: &str) -> (r: String)
    ensures
        r@ == webhook_event_storage_id_spec(tenant_id@, provider_scoped_event_id@),
{
    let parts = [trim(tenant_id), provider_scoped_event_id];
    let r = stable_scoped_hash("webhook-record-", &parts);
    assert(parts@.map_values(|p: &str| p@) =~= seq![trimmed(tenant_id@), provider_scoped_event_id@]);
    r
}

/// An event's identity hashes the provider and the event together: two
/// events hash the same text only when their normalised provider codes and
/// event ids agree, and a row's identity hashes the same text only for the
/// same tenant and event.
pub proof fn lemma_webhook_identity_scopes(
    provider1: Seq<char>,
    event1: Seq<char>,
    provider2: Seq<char>,
    event2: Seq<char>,
    tenant1: Seq<char>,
    tenant2: Seq<char>,
    scoped: Seq<char>,
)
    ensures
        scoped_canonical(seq![norm(provider1), trimmed(event1)]) == scoped_canonical(
            seq![norm(provider2), trimmed(event2)],
        ) ==> norm(provider1) == norm(provider2) && trimmed(event1) == trimmed(event2),
        norm(provider1) == norm(provider2) && trimmed(event1) == trimmed(event2) ==> provider_scoped_event_id_spec(
            provider1,
            event1,
        ) == provider_scoped_event_id_spec(provider2, event2),
        scoped_canonical(seq![trimmed(tenant1), scoped]) == scoped_canonical(seq![trimmed(tenant2), scoped])
            ==> trimmed(tenant1) == trimmed(tenant2),
{
    let a = seq![norm(provider1), trimmed(event1)];
    let b = seq![norm(provider2), trimmed(event2)];
    if scoped_canonical(a) == scoped_canonical(b) {
        lemma_scoped_canonical_injective(a, b);
        assert(a[0] == b[0] && a[1] == b[1]);
    }
    let c = seq![trimmed(tenant1), scoped];
    let d = seq![trimmed(tenant2), scoped];
    if scoped_canonical(c) == scoped_canonical(d) {
        lemma_scoped_canonical_injective(c, d);
        assert(c[0] == d[0]);
    }
}

/// The exact payment attempt a webhook event was matched to.
#[derive(Clone, Debug, PartialEq, Eq)]
pub struct PaymentWebhookAttemptIdentity {
    pub payment_attempt_id: String,
    pub payment_intent_id: String,
    pub provider_code: String,
    pub out_trade_no: String,
    pub attempt_status: String,
    pub tenant_id: String,
    pub organization_id: Option<String>,
    pub owner_user_id: String,
    pub order_id: String,
}

/// What a stored webhook payload records of its event.
#[derive(Clone, Debug, PartialEq, Eq)]
pub struct StoredWebhookPayload {
    pub provider_code: String,
    pub provider_event_id: String,
    pub provider_scoped_event_id: String,
    pub out_trade_no: Option<String>,
    pub payment_status: Option<String>,
    pub match_state: String,
    pub attempt_identity: Option<PaymentWebhookAttemptIdentity>,
}

/// A text member, or `null` when absent.
pub open spec fn text_or_null(v: Option<Seq<char>>) -> Json {
    match v {
        Some(s) => Json::Str(s),
        None => Json::Null,
    }
}

/// The JSON record of an attempt identity.
pub open spec fn identity_doc(i: PaymentWebhookAttemptIdentity) -> Json {
    Json::Object(
        seq![
            ("paymentAttemptId"@, Json::Str(i.payment_attempt_id@)),
            ("paymentIntentId"@, Json::Str(i.payment_intent_id@)),
            ("providerCode"@, Json::Str(i.provider_code@)),
            ("outTradeNo"@, Json::Str(i.out_trade_no@)),
            ("attemptStatus"@, Json::Str(i.attempt_status@)),
            ("tenantId"@, Json::Str(i.tenant_id@)),
            ("organizationId"@, text_or_null(opt_view(i.organization_id))),
            ("ownerUserId"@, Json::Str(i.owner_user_id@)),
            ("orderId"@, Json::Str(i.order_id@)),
        ],
    )
}

/// The normalised part of a stored webhook payload.
pub open spec fn normalized_doc(
    provider_code: Seq<char>,
    provider_event_id: Seq<char>,
    provider_scoped_event_id: Seq<char>,
    event_type: Option<Seq<char>>,
    out_trade_no: Option<Seq<char>>,
    payment_status: Option<Seq<char>>,
    attempt_identity: Option<PaymentWebhookAttemptIdentity>,
    unmatched_reason: Option<Seq<char>>,
) -> Json {
    Json::Object(
        seq![
            ("providerCode"@, Json::Str(provider_code)),
            ("providerEventId"@, Json::Str(provider_event_id)),
            ("providerScopedEventId"@, Json::Str(provider_scoped_event_id)),
            ("eventType"@, text_or_null(event_type)),
            ("outTradeNo"@, text_or_null(out_trade_no)),
            ("paymentStatus"@, text_or_null(payment_status)),
            ("matchState"@, Json::Str(if attempt_identity is Some { "matched"@ } else { "unmatched"@ })),
            ("unmatchedReason"@, text_or_null(unmatched_reason)),
            (
                "attempt"@,
                match attempt_identity {
                    Some(i) => identity_doc(i),
                    None => Json::Null,
                },
            ),
        ],
    )
}

fn text_value(s: &str) -> (r: JsonValue)
    ensures
        r.model() == Json::Str(s@),
{
    JsonValue::Str(owned(s))
}

fn text_or_null_value(v: Option<&str>) -> (r: JsonValue)
    ensures
        r.model() == text_or_null(
            match v {
                Some(s) => Some(s@),
                None => None,
            },
        ),
{
    match v {
        Some(s) => JsonValue::Str(owned(s)),
        None => JsonValue::Null,
    }
}

fn identity_value(i: &PaymentWebhookAttemptIdentity) -> (r: JsonValue)
    ensures
        r.model() == identity_doc(*i),
{
    let org = match &i.organization_id {
        Some(o) => JsonValue::Str(owned(o.as_str())),
        None => JsonValue::Null,
    };
    let members = vec![
        (owned("paymentAttemptId"), text_value(i.payment_attempt_id.as_str())),
        (owned("paymentIntentId"), text_value(i.payment_intent_id.as_str())),
        (owned("providerCode"), text_value(i.provider_code.as_str())),
        (owned("outTradeNo"), text_value(i.out_trade_no.as_str())),
        (owned("attemptStatus"), text_value(i.attempt_status.as_str())),
        (owned("tenantId"), text_value(i.tenant_id.as_str())),
        (owned("organizationId"), org),
        (owned("ownerUserId"), text_value(i.owner_user_id.as_str())),
        (owned("orderId"), text_value(i.order_id.as_str())),
    ];
    proof {
        crate::json::lemma_member_models(members@);
        assert(crate::json::member_models(members@) =~= match identity_doc(*i) {
            Json::Object(ms) => ms,
            _ => Seq::empty(),
        });
    }
    JsonValue::Object(members)
}

/// The whole stored payload document of a webhook event.
pub open spec fn stored_payload_doc(normalized: Json, provider_payload: Json) -> Json {
    Json::Object(
        seq![
            ("schemaVersion"@, Json::Number("1"@)),
            ("normalized"@, normalized),
            ("providerPayload"@, provider_payload),
        ],
    )
}

/// The stored payload of a webhook event: schema version 1, the
/// normalised identity and status, the matched attempt (if any) and the
/// provider's own payload.
pub fn build_stored_webhook_payload(
    provider_code: &str,
    provider_event_id: &str,
    provider_scoped_event_id: &str,
    event_type: Option<&str>,
    out_trade_no: Option<&str>,
    payment_status: Option<&str>,
    provider_payload: JsonValue,
    attempt_identity: Option<&PaymentWebhookAttemptIdentity>,
    unmatched_reason: Option<&str>,
) -> (r: String)
    ensures
        r@ == json_text(
            stored_payload_doc(
                normalized_doc(
                    provider_code@,
                    provider_event_id@,
                    provider_scoped_event_id@,
                    opt_str_view(event_type),
                    opt_str_view(out_trade_no),
                    opt_str_view(payment_status),
                    match attempt_identity {
                        Some(i) => Some(*i),
                        None => None,
                    },
                    opt_str_view(unmatched_reason),
                ),
                provider_payload.model(),
            ),
        ),
{
    let ghost payload_model = provider_payload.model();
    let match_state = match attempt_identity {
        Some(_) => text_value("matched"),
        None => text_value("unmatched"),
    };
    let attempt = match attempt_identity {
        Some(i) => identity_value(i),
        None => JsonValue::Null,
    };
    let normalized_members = vec![
        (owned("providerCode"), text_value(provider_code)),
        (owned("providerEventId"), text_value(provider_event_id)),
        (owned("providerScopedEventId"), text_value(provider_scoped_event_id)),
        (owned("eventType"), text_or_null_value(event_type)),
        (owned("outTradeNo"), text_or_null_value(out_trade_no)),
        (owned("paymentStatus"), text_or_null_value(payment_status)),
        (owned("matchState"), match_state),
        (owned("unmatchedReason"), text_or_null_value(unmatched_reason)),
        (owned("attempt"), attempt),
    ];
    let ghost expected_normalized = normalized_doc(
        provider_code@,
        provider_event_id@,
        provider_scoped_event_id@,
        opt_str_view(event_type),
        opt_str_view(out_trade_no),
        opt_str_view(payment_status),
        match attempt_identity {
            Some(i) => Some(*i),
            None => None,
        },
        opt_str_view(unmatched_reason),
    );
    proof {
        crate::json::lemma_member_models(normalized_members@);
        assert(crate::json::member_models(normalized_members@) =~= match expected_normalized {
            Json::Object(ms) => ms,
            _ => Seq::empty(),
        });
    }
    let normalized = JsonValue::Object(normalized_members);
    let members = vec![
        (owned("schemaVersion"), JsonValue::Number(owned("1"))),
        (owned("normalized"), normalized),
        (owned("providerPayload"), provider_payload),
    ];
    proof {
        crate::json::lemma_member_models(members@);
        assert(crate::json::member_models(members@) =~= seq![
            ("schemaVersion"@, Json::Number("1"@)),
            ("normalized"@, expected_normalized),
            ("providerPayload"@, payload_model),
        ]);
    }
    let doc = JsonValue::Object(members);
    assert(doc.model() == Json::Object(
        seq![
            ("schemaVersion"@, Json::Number("1"@)),
            ("normalized"@, expected_normalized),
            ("providerPayload"@, payload_model),
        ],
    ));
    let r = write_json(&doc);
    assert(doc.model() == stored_payload_doc(expected_normalized, payload_model));
    r
}

/// The trimmed text of a string member, absent when missing, not a
/// string, or blank.
pub open spec fn text_field(doc: Json, key: Seq<char>) -> Option<Seq<char>> {
    match json_str(json_member(doc, key)) {
        Some(t) => if trimmed(t).len() == 0 {
            None
        } else {
            Some(trimmed(t))
        },
        None => None,
    }
}

/// The trimmed text of a string member of `doc`.
pub fn text_field_of(doc: &JsonValue, key: &str) -> (r: Option<String>)
    ensures
        opt_view(r) == text_field(doc.model(), key@),
{
    match doc.get(key) {
        Some(v) => match v.as_text() {
            Some(t) => {
                let t = trim(t);
                if t.unicode_len() == 0 {
                    None
                } else {
                    Some(owned(t))
                }
            },
            None => None,
        },
        None => None,
    }
}

/// The first required member of an attempt record that is missing.
pub open spec fn identity_missing(att: Json) -> Option<Seq<char>> {
    if text_field(att, "paymentAttemptId"@) is None {
        Some("paymentAttemptId"@)
    } else if text_field(att, "paymentIntentId"@) is None {
        Some("paymentIntentId"@)
    } else if text_field(att, "providerCode"@) is None {
        Some("providerCode"@)
    } else if text_field(att, "outTradeNo"@) is None {
        Some("outTradeNo"@)
    } else if text_field(att, "attemptStatus"@) is None {
        Some("attemptStatus"@)
    } else if text_field(att, "tenantId"@) is None {
        Some("tenantId"@)
    } else if text_field(att, "ownerUserId"@) is None {
        Some("ownerUserId"@)
    } else if text_field(att, "orderId"@) is None {
        Some("orderId"@)
    } else {
        None
    }
}

/// `i` is the identity an attempt record holds.
pub open spec fn identity_read(att: Json, i: PaymentWebhookAttemptIdentity) -> bool {
    &&& text_field(att, "paymentAttemptId"@) == Some(i.payment_attempt_id@)
    &&& text_field(att, "paymentIntentId"@) == Some(i.payment_intent_id@)
    &&& text_field(att, "providerCode"@) == Some(i.provider_code@)
    &&& text_field(att, "outTradeNo"@) == Some(i.out_trade_no@)
    &&& text_field(att, "attemptStatus"@) == Some(i.attempt_status@)
    &&& text_field(att, "tenantId"@) == Some(i.tenant_id@)
    &&& text_field(att, "organizationId"@) == opt_view(i.organization_id)
    &&& text_field(att, "ownerUserId"@) == Some(i.owner_user_id@)
    &&& text_field(att, "orderId"@) == Some(i.order_id@)
}

/// The error, if any, of reading a stored payload document.
pub open spec fn stored_payload_check(doc: Json) -> Option<(ErrorKind, Seq<char>)> {
    match json_member(doc, "normalized"@) {
        None => Some((ErrorKind::Conflict, "stored webhook payload has no normalized identity"@)),
        Some(n) => if text_field(n, "providerCode"@) is None {
            Some((ErrorKind::Conflict, "stored webhook payload is missing normalized."@ + "providerCode"@))
        } else if text_field(n, "providerEventId"@) is None {
            Some((ErrorKind::Conflict, "stored webhook payload is missing normalized."@ + "providerEventId"@))
        } else if text_field(n, "providerScopedEventId"@) is None {
            Some((ErrorKind::Conflict, "stored webhook payload is missing normalized."@ + "providerScopedEventId"@))
        } else if text_field(n, "matchState"@) is None {
            Some((ErrorKind::Conflict, "stored webhook payload is missing normalized."@ + "matchState"@))
        } else {
            let state = text_field(n, "matchState"@)->0;
            if state != "matched"@ && state != "unmatched"@ {
                Some((ErrorKind::Conflict, "stored webhook payload has an invalid match state"@))
            } else {
                match json_member(n, "attempt"@) {
                    Some(Json::Object(_)) => match identity_missing(json_member(n, "attempt"@)->0) {
                        Some(f) => Some((ErrorKind::Conflict, "stored webhook attempt identity is missing "@ + f)),
                        None => if state == "unmatched"@ {
                            Some(
                                (
                                    ErrorKind::Conflict,
                                    "stored unmatched webhook unexpectedly contains an attempt identity"@,
                                ),
                            )
                        } else {
                            None
                        },
                    },
                    Some(Json::Null) | None => if state == "matched"@ {
                        Some((ErrorKind::Conflict, "stored matched webhook has no exact payment attempt identity"@))
                    } else {
                        None
                    },
                    Some(_) => Some((ErrorKind::Conflict, "stored webhook attempt identity is malformed"@)),
                }
            }
        },
    }
}

/// `p` is what an accepted stored payload document records.
pub open spec fn stored_payload_read(doc: Json, p: StoredWebhookPayload) -> bool {
    let n = json_member(doc, "normalized"@)->0;
    &&& text_field(n, "providerCode"@) == Some(p.provider_code@)
    &&& text_field(n, "providerEventId"@) == Some(p.provider_event_id@)
    &&& text_field(n, "providerScopedEventId"@) == Some(p.provider_scoped_event_id@)
    &&& text_field(n, "matchState"@) == Some(p.match_state@)
    &&& opt_view(p.out_trade_no) == text_field(n, "outTradeNo"@)
    &&& opt_view(p.payment_status) == text_field(n, "paymentStatus"@)
    &&& match p.attempt_identity {
        Some(i) => json_member(n, "attempt"@) matches Some(Json::Object(_)) && identity_read(
            json_member(n, "attempt"@)->0,
            i,
        ),
        None => !(json_member(n, "attempt"@) matches Some(Json::Object(_))),
    }
}

fn required_text(doc: &JsonValue, key: &str, prefix: &str) -> (r: Result<String, ServiceError>)
    ensures
        match text_field(doc.model(), key@) {
            Some(t) => r matches Ok(s) && s@ == t,
            None => outcome_is(r, Some((ErrorKind::Conflict, prefix@ + key@))),
        },
{
    match text_field_of(doc, key) {
        Some(t) => Ok(t),
        None => {
            let mut m = owned(prefix);
            m.append(key);
            Err(ServiceError { kind: ErrorKind::Conflict, message: m })
        },
    }
}

fn identity_from_record(att: &JsonValue) -> (r: Result<PaymentWebhookAttemptIdentity, ServiceError>)
    ensures
        match identity_missing(att.model()) {
            Some(f) => outcome_is(r, Some((ErrorKind::Conflict, "stored webhook attempt identity is missing "@ + f))),
            None => r matches Ok(i) && identity_read(att.model(), i),
        },
{
    let p = "stored webhook attempt identity is missing ";
    let payment_attempt_id = required_text(att, "paymentAttemptId", p)?;
    let payment_intent_id = required_text(att, "paymentIntentId", p)?;
    let provider_code = required_text(att, "providerCode", p)?;
    let out_trade_no = required_text(att, "outTradeNo", p)?;
    let attempt_status = required_text(att, "attemptStatus", p)?;
    let tenant_id = required_text(att, "tenantId", p)?;
    let organization_id = text_field_of(att, "organizationId");
    let owner_user_id = required_text(att, "ownerUserId", p)?;
    let order_id = required_text(att, "orderId", p)?;
    Ok(
        PaymentWebhookAttemptIdentity {
            payment_attempt_id,
            payment_intent_id,
            provider_code,
            out_trade_no,
            attempt_status,
            tenant_id,
            organization_id,
            owner_user_id,
            order_id,
        },
    )
}

/// Reads what a stored payload document records: its normalised identity
/// must be complete, its match state `matched` or `unmatched`, and an
/// attempt identity present exactly for a matched event.
pub fn stored_webhook_payload_from_document(doc: &JsonValue) -> (r: Result<StoredWebhookPayload, ServiceError>)
    ensures
        match stored_payload_check(doc.model()) {
            Some(e) => outcome_is(r, Some(e)),
            None => r matches Ok(p) && stored_payload_read(doc.model(), p),
        },
{
    let normalized = match doc.get("normalized") {
        Some(n) => n,
        None => return Err(ServiceError::conflict("stored webhook payload has no normalized identity")),
    };
    let p = "stored webhook payload is missing normalized.";
    let provider_code = required_text(normalized, "providerCode", p)?;
    let provider_event_id = required_text(normalized, "providerEventId", p)?;
    let provider_scoped_event_id = required_text(normalized, "providerScopedEventId", p)?;
    let match_state = required_text(normalized, "matchState", p)?;
    let matched = str_eq(match_state.as_str(), "matched");
    let unmatched = str_eq(match_state.as_str(), "unmatched");
    if !matched && !unmatched {
        return Err(ServiceError::conflict("stored webhook payload has an invalid match state"));
    }
    let attempt_identity = match normalized.get("attempt") {
        Some(JsonValue::Object(members)) => {
            let att = normalized.get("attempt");
            match att {
                Some(a) => Some(identity_from_record(a)?),
                None => None,
            }
        },
        Some(JsonValue::Null) | None => None,
        Some(_) => return Err(ServiceError::conflict("stored webhook attempt identity is malformed")),
    };
    if matched && attempt_identity.is_none() {
        return Err(ServiceError::conflict("stored matched webhook has no exact payment attempt identity"));
    }
    if unmatched && attempt_identity.is_some() {
        return Err(ServiceError::conflict("stored unmatched webhook unexpectedly contains an attempt identity"));
    }
    Ok(
        StoredWebhookPayload {
            provider_code,
            provider_event_id,
            provider_scoped_event_id,
            out_trade_no: text_field_of(normalized, "outTradeNo"),
            payment_status: text_field_of(normalized, "paymentStatus"),
            match_state,
            attempt_identity,
        },
    )
}

/// Reads a stored webhook payload text; text that is not JSON is a storage error.
pub fn parse_stored_webhook_payload(payload: &str) -> (r: Result<StoredWebhookPayload, ServiceError>)
    ensures
        match json_document(payload@) {
            Err(m) => outcome_is(r, Some((ErrorKind::Storage, "webhook payload json invalid: "@ + m))),
            Ok(doc) => match stored_payload_check(doc) {
                Some(e) => outcome_is(r, Some(e)),
                None => r matches Ok(p) && stored_payload_read(doc, p),
            },
        },
{
    match parse_json(payload) {
        Ok(doc) => stored_webhook_payload_from_document(&doc),
        Err(e) => {
            let mut m = owned("webhook payload json invalid: ");
            m.append(e.as_str());
            Err(ServiceError { kind: ErrorKind::Storage, message: m })
        },
    }
}

/// A text kept as it is by reading: not blank and without surrounding
/// white space.
pub open spec fn plain_text(t: Seq<char>) -> bool {
    t.len() > 0 && trimmed(t) == t
}

/// An attempt identity whose texts are all kept as they are by reading.
pub open spec fn plain_identity(i: PaymentWebhookAttemptIdentity) -> bool {
    &&& plain_text(i.payment_attempt_id@)
    &&& plain_text(i.payment_intent_id@)
    &&& plain_text(i.provider_code@)
    &&& plain_text(i.out_trade_no@)
    &&& plain_text(i.attempt_status@)
    &&& plain_text(i.tenant_id@)
    &&& (i.organization_id matches Some(o) ==> plain_text(o@))
    &&& plain_text(i.owner_user_id@)
    &&& plain_text(i.order_id@)
}

/// Two attempt identities hold the same texts.
pub open spec fn same_identity(a: PaymentWebhookAttemptIdentity, b: PaymentWebhookAttemptIdentity) -> bool {
    &&& a.payment_attempt_id@ == b.payment_attempt_id@
    &&& a.payment_intent_id@ == b.payment_intent_id@
    &&& a.provider_code@ == b.provider_code@
    &&& a.out_trade_no@ == b.out_trade_no@
    &&& a.attempt_status@ == b.attempt_status@
    &&& a.tenant_id@ == b.tenant_id@
    &&& opt_view(a.organization_id) == opt_view(b.organization_id)
    &&& a.owner_user_id@ == b.owner_user_id@
    &&& a.order_id@ == b.order_id@
}

proof fn lemma_payload_keys_distinct()
    ensures
        "schemaVersion"@ != "normalized"@,
        "schemaVersion"@ != "providerPayload"@,
        "normalized"@ != "providerPayload"@,
        "providerCode"@ != "providerEventId"@,
        "providerCode"@ != "providerScopedEventId"@,
        "providerCode"@ != "eventType"@,
        "providerCode"@ != "outTradeNo"@,
        "providerCode"@ != "paymentStatus"@,
        "providerCode"@ != "matchState"@,
        "providerCode"@ != "unmatchedReason"@,
        "providerCode"@ != "attempt"@,
        "providerEventId"@ != "providerScopedEventId"@,
        "providerEventId"@ != "eventType"@,
        "providerEventId"@ != "outTradeNo"@,
        "providerEventId"@ != "paymentStatus"@,
        "providerEventId"@ != "matchState"@,
        "providerEventId"@ != "unmatchedReason"@,
        "providerEventId"@ != "attempt"@,
        "providerScopedEventId"@ != "eventType"@,
        "providerScopedEventId"@ != "outTradeNo"@,
        "providerScopedEventId"@ != "paymentStatus"@,
        "providerScopedEventId"@ != "matchState"@,
        "providerScopedEventId"@ != "unmatchedReason"@,
        "providerScopedEventId"@ != "attempt"@,
        "eventType"@ != "outTradeNo"@,
        "eventType"@ != "paymentStatus"@,
        "eventType"@ != "matchState"@,
        "eventType"@ != "unmatchedReason"@,
        "eventType"@ != "attempt"@,
        "outTradeNo"@ != "paymentStatus"@,
        "outTradeNo"@ != "matchState"@,
        "outTradeNo"@ != "unmatchedReason"@,
        "outTradeNo"@ != "attempt"@,
        "paymentStatus"@ != "matchState"@,
        "paymentStatus"@ != "unmatchedReason"@,
        "paymentStatus"@ != "attempt"@,
        "matchState"@ != "unmatchedReason"@,
        "matchState"@ != "attempt"@,
        "unmatchedReason"@ != "attempt"@,
        "matched"@ != "unmatched"@,
        "paymentAttemptId"@.len() == 16,
        "paymentIntentId"@.len() == 15,
        "providerCode"@.len() == 12,
        "outTradeNo"@.len() == 10,
        "attemptStatus"@.len() == 13,
        "tenantId"@.len() == 8,
        "organizationId"@.len() == 14,
        "ownerUserId"@.len() == 11,
        "orderId"@.len() == 7,
{
    reveal_strlit("schemaVersion");
    reveal_strlit("normalized");
    reveal_strlit("providerPayload");
    reveal_strlit("providerCode");
    reveal_strlit("providerEventId");
    reveal_strlit("providerScopedEventId");
    reveal_strlit("eventType");
    reveal_strlit("outTradeNo");
    reveal_strlit("paymentStatus");
    reveal_strlit("matchState");
    reveal_strlit("unmatchedReason");
    reveal_strlit("attempt");
    reveal_strlit("matched");
    reveal_strlit("unmatched");
    reveal_strlit("paymentAttemptId");
    reveal_strlit("paymentIntentId");
    reveal_strlit("attemptStatus");
    reveal_strlit("tenantId");
    reveal_strlit("organizationId");
    reveal_strlit("ownerUserId");
    reveal_strlit("orderId");
    assert("schemaVersion"@.len() == 13);
    assert("normalized"@.len() == 10);
    assert("providerPayload"@.len() == 15);
    assert("providerCode"@.len() == 12);
    assert("providerEventId"@.len() == 15);
    assert("providerScopedEventId"@.len() == 21);
    assert("eventType"@.len() == 9);
    assert("outTradeNo"@.len() == 10);
    assert("paymentStatus"@.len() == 13);
    assert("matchState"@.len() == 10);
    assert("unmatchedReason"@.len() == 15);
    assert("attempt"@.len() == 7);
    assert("matched"@.len() == 7);
    assert("unmatched"@.len() == 9);
    assert("paymentAttemptId"@.len() == 16);
    assert("paymentIntentId"@.len() == 15);
    assert("attemptStatus"@.len() == 13);
    assert("tenantId"@.len() == 8);
    assert("organizationId"@.len() == 14);
    assert("ownerUserId"@.len() == 11);
    assert("orderId"@.len() == 7);
    assert("outTradeNo"@[0] != "matchState"@[0]);
    assert("providerEventId"@[0] != "unmatchedReason"@[0]);
    assert("schemaVersion"@[0] != "paymentStatus"@[0]);
    assert("providerEventId"@[8] != "providerPayload"@[8]);
}

/// The members of the record of an attempt identity are found under their
/// names.
proof fn lemma_identity_doc_members(i: PaymentWebhookAttemptIdentity)
    ensures
        json_member(identity_doc(i), "paymentAttemptId"@) == Some(Json::Str(i.payment_attempt_id@)),
        json_member(identity_doc(i), "paymentIntentId"@) == Some(Json::Str(i.payment_intent_id@)),
        json_member(identity_doc(i), "providerCode"@) == Some(Json::Str(i.provider_code@)),
        json_member(identity_doc(i), "outTradeNo"@) == Some(Json::Str(i.out_trade_no@)),
        json_member(identity_doc(i), "attemptStatus"@) == Some(Json::Str(i.attempt_status@)),
        json_member(identity_doc(i), "tenantId"@) == Some(Json::Str(i.tenant_id@)),
        json_member(identity_doc(i), "organizationId"@) == Some(text_or_null(opt_view(i.organization_id))),
        json_member(identity_doc(i), "ownerUserId"@) == Some(Json::Str(i.owner_user_id@)),
        json_member(identity_doc(i), "orderId"@) == Some(Json::Str(i.order_id@)),
{
    lemma_payload_keys_distinct();
    reveal_with_fuel(crate::json::member_lookup, 10);
}

/// The members of the normalised record are found under their names.
proof fn lemma_normalized_doc_members(
    provider_code: Seq<char>,
    provider_event_id: Seq<char>,
    provider_scoped_event_id: Seq<char>,
    event_type: Option<Seq<char>>,
    out_trade_no: Option<Seq<char>>,
    payment_status: Option<Seq<char>>,
    attempt_identity: Option<PaymentWebhookAttemptIdentity>,
    unmatched_reason: Option<Seq<char>>,
)
    ensures
        ({
            let n = normalized_doc(
                provider_code,
                provider_event_id,
                provider_scoped_event_id,
                event_type,
                out_trade_no,
                payment_status,
                attempt_identity,
                unmatched_reason,
            );
            &&& json_member(n, "providerCode"@) == Some(Json::Str(provider_code))
            &&& json_member(n, "providerEventId"@) == Some(Json::Str(provider_event_id))
            &&& json_member(n, "providerScopedEventId"@) == Some(Json::Str(provider_scoped_event_id))
            &&& json_member(n, "outTradeNo"@) == Some(text_or_null(out_trade_no))
            &&& json_member(n, "paymentStatus"@) == Some(text_or_null(payment_status))
            &&& json_member(n, "matchState"@) == Some(
                Json::Str(if attempt_identity is Some { "matched"@ } else { "unmatched"@ }),
            )
            &&& json_member(n, "attempt"@) == Some(
                match attempt_identity {
                    Some(i) => identity_doc(i),
                    None => Json::Null,
                },
            )
        }),
{
    lemma_payload_keys_distinct();
    reveal_with_fuel(crate::json::member_lookup, 10);
}

/// The document a webhook event is stored as reads back to what was
/// written: reading it succeeds, and it records the event's provider, event
/// and provider-scoped identities, its merchant trade number and provider
/// status, and exactly the matched attempt, for texts that reading keeps as
/// they are.
pub proof fn lemma_stored_payload_document_round_trip(
    provider_code: Seq<char>,
    provider_event_id: Seq<char>,
    provider_scoped_event_id: Seq<char>,
    event_type: Option<Seq<char>>,
    out_trade_no: Option<Seq<char>>,
    payment_status: Option<Seq<char>>,
    attempt_identity: Option<PaymentWebhookAttemptIdentity>,
    unmatched_reason: Option<Seq<char>>,
    provider_payload: Json,
    p: StoredWebhookPayload,
)
    requires
        plain_text(provider_code),
        plain_text(provider_event_id),
        plain_text(provider_scoped_event_id),
        out_trade_no matches Some(t) ==> plain_text(t),
        payment_status matches Some(t) ==> plain_text(t),
        attempt_identity matches Some(i) ==> plain_identity(i),
    ensures
        ({
            let doc = stored_payload_doc(
                normalized_doc(
                    provider_code,
                    provider_event_id,
                    provider_scoped_event_id,
                    event_type,
                    out_trade_no,
                    payment_status,
                    attempt_identity,
                    unmatched_reason,
                ),
                provider_payload,
            );
            &&& stored_payload_check(doc) is None
            &&& stored_payload_read(doc, p) ==> {
                &&& p.provider_code@ == provider_code
                &&& p.provider_event_id@ == provider_event_id
                &&& p.provider_scoped_event_id@ == provider_scoped_event_id
                &&& opt_view(p.out_trade_no) == out_trade_no
                &&& opt_view(p.payment_status) == payment_status
                &&& match (p.attempt_identity, attempt_identity) {
                    (Some(a), Some(i)) => same_identity(a, i),
                    (None, None) => true,
                    _ => false,
                }
            }
        }),
{
    let n = normalized_doc(
        provider_code,
        provider_event_id,
        provider_scoped_event_id,
        event_type,
        out_trade_no,
        payment_status,
        attempt_identity,
        unmatched_reason,
    );
    let doc = stored_payload_doc(n, provider_payload);
    lemma_payload_keys_distinct();
    reveal_with_fuel(crate::json::member_lookup, 4);
    assert(json_member(doc, "normalized"@) == Some(n));
    lemma_normalized_doc_members(
        provider_code,
        provider_event_id,
        provider_scoped_event_id,
        event_type,
        out_trade_no,
        payment_status,
        attempt_identity,
        unmatched_reason,
    );
    reveal_strlit("matched");
    reveal_strlit("unmatched");
    assert(plain_text("matched"@) && plain_text("unmatched"@)) by {
        crate::text::lemma_trimmed_plain("matched"@);
        crate::text::lemma_trimmed_plain("unmatched"@);
    }
    match attempt_identity {
        Some(i) => {
            lemma_identity_doc_members(i);
        },
        None => {},
    }
}

/// The verdict on a stored payload read back for an event row of a tenant
/// and organization: the row's provider, the provider-scoped identity and
/// the matched attempt's scope must all agree with the payload.
pub open spec fn stored_scope_check(
    payload: StoredWebhookPayload,
    stored_event_id: Seq<char>,
    stored_provider_code: Seq<char>,
    tenant_id: Seq<char>,
    organization_id: Option<Seq<char>>,
) -> Option<Seq<char>> {
    let code = norm(stored_provider_code);
    let expected = provider_scoped_event_id_spec(code, payload.provider_event_id@);
    if code != norm(payload.provider_code@) {
        Some("stored webhook provider identity does not match its row"@)
    } else if expected != stored_event_id || expected != payload.provider_scoped_event_id@ {
        Some("stored webhook provider-scoped event identity is invalid"@)
    } else {
        match payload.attempt_identity {
            Some(i) => if norm(i.provider_code@) != code || opt_view(payload.out_trade_no) != Some(i.out_trade_no@)
                || i.tenant_id@ != tenant_id || opt_view(i.organization_id) != organization_id {
                Some("stored webhook attempt scope does not match its event row"@)
            } else {
                None
            },
            None => None,
        }
    }
}

fn same_optional(a: &Option<String>, b: Option<&str>) -> (r: bool)
    ensures
        r == (opt_view(*a) == opt_str_view(b)),
{
    match (a, b) {
        (Some(x), Some(y)) => str_eq(x.as_str(), y),
        (None, None) => true,
        _ => false,
    }
}

/// Checks a stored payload against the event row it was read from.
pub fn validate_stored_webhook_scope(
    payload: &StoredWebhookPayload,
    stored_event_id: &str,
    stored_provider_code: &str,
    tenant_id: &str,
    organization_id: Option<&str>,
) -> (r: Result<(), ServiceError>)
    ensures
        match stored_scope_check(*payload, stored_event_id@, stored_provider_code@, tenant_id@, opt_str_view(organization_id)) {
            Some(m) => outcome_is(r, Some((ErrorKind::Conflict, m))),
            None => r is Ok,
        },
{
    let code = normalized(stored_provider_code);
    let payload_code = normalized(payload.provider_code.as_str());
    if !str_eq(code.as_str(), payload_code.as_str()) {
        return Err(ServiceError::conflict("stored webhook provider identity does not match its row"));
    }
    let expected = provider_scoped_webhook_event_id(code.as_str(), payload.provider_event_id.as_str());
    if !str_eq(expected.as_str(), stored_event_id) || !str_eq(expected.as_str(), payload.provider_scoped_event_id.as_str()) {
        return Err(ServiceError::conflict("stored webhook provider-scoped event identity is invalid"));
    }
    match &payload.attempt_identity {
        Some(i) => {
            let identity_code = normalized(i.provider_code.as_str());
            let trade_matches = match &payload.out_trade_no {
                Some(t) => str_eq(t.as_str(), i.out_trade_no.as_str()),
                None => false,
            };
            if !str_eq(identity_code.as_str(), code.as_str()) || !trade_matches || !str_eq(
                i.tenant_id.as_str(),
                tenant_id,
            ) || !same_optional(&i.organization_id, organization_id) {
                return Err(ServiceError::conflict("stored webhook attempt scope does not match its event row"));
            }
            Ok(())
        },
        None => Ok(()),
    }
}

/// A provider webhook as the provider adapter normalised it.
#[derive(Debug)]
pub struct IngestProviderWebhookCommand {
    pub provider_code: String,
    pub provider_event_id: String,
    pub event_type: Option<String>,
    pub out_trade_no: Option<String>,
    pub payment_status: Option<String>,
    pub payload: JsonValue,
    /// The scope under which an event is kept when no payment attempt matches it.
    pub tenant_id: Option<String>,
    pub organization_id: Option<String>,
}

/// The settlement context of an attempt a webhook settled.
#[derive(Clone, Debug, PartialEq, Eq)]
pub struct PaymentWebhookAttemptContext {
    pub tenant_id: String,
    pub organization_id: Option<String>,
    pub owner_user_id: String,
    pub order_id: String,
}

/// The scope and provider of the latest attempt with a merchant trade number.
#[derive(Clone, Debug, PartialEq, Eq)]
pub struct WebhookAttemptContext {
    pub tenant_id: String,
    pub organization_id: Option<String>,
    pub provider_code: String,
}

/// The result of ingesting a provider webhook.
#[derive(Clone, Debug, PartialEq, Eq)]
pub struct IngestProviderWebhookOutcome {
    pub webhook_event_id: String,
    pub replayed: bool,
    pub payment_attempt_id: Option<String>,
    pub applied_status: Option<String>,
    pub payment_attempt_context: Option<PaymentWebhookAttemptContext>,
}

/// The outcome of an event that settles nothing.
pub fn empty_ingest_outcome(webhook_event_id: String, replayed: bool) -> (r: IngestProviderWebhookOutcome)
    ensures
        r.webhook_event_id == webhook_event_id,
        r.replayed == replayed,
        r.payment_attempt_id is None,
        r.applied_status is None,
        r.payment_attempt_context is None,
{
    IngestProviderWebhookOutcome {
        webhook_event_id,
        replayed,
        payment_attempt_id: None,
        applied_status: None,
        payment_attempt_context: None,
    }
}

/// The normalised scope of an incoming webhook.
#[derive(Clone, Debug, PartialEq, Eq)]
pub struct WebhookIngestScope {
    pub provider_code: String,
    pub provider_event_id: String,
    pub out_trade_no: Option<String>,
    pub tenant_id: Option<String>,
    pub organization_id: Option<String>,
}

/// Normalises an incoming webhook's identity and scope: the provider code
/// (trimmed, lowercased) and event id (trimmed) are required, blank
/// optional values count as absent, and an organization needs a tenant.
pub fn webhook_ingest_scope(command: &IngestProviderWebhookCommand) -> (r: Result<WebhookIngestScope, ServiceError>)
    ensures
        norm(command.provider_code@).len() == 0 ==> outcome_is(
            r,
            Some((ErrorKind::Validation, "payment webhook provider code is required"@)),
        ),
        norm(command.provider_code@).len() > 0 && trimmed(command.provider_event_id@).len() == 0 ==> outcome_is(
            r,
            Some((ErrorKind::Validation, "payment webhook provider event id is required"@)),
        ),
        norm(command.provider_code@).len() > 0 && trimmed(command.provider_event_id@).len() > 0 && opt_text(
            opt_view(command.tenant_id),
        ) is None && opt_text(opt_view(command.organization_id)) is Some ==> outcome_is(
            r,
            Some((ErrorKind::Validation, "payment webhook organization scope requires tenant scope"@)),
        ),
        r matches Ok(sc) ==> {
            &&& sc.provider_code@ == norm(command.provider_code@)
            &&& sc.provider_code@.len() > 0
            &&& sc.provider_event_id@ == trimmed(command.provider_event_id@)
            &&& sc.provider_event_id@.len() > 0
            &&& opt_view(sc.out_trade_no) == opt_text(opt_view(command.out_trade_no))
            &&& opt_view(sc.tenant_id) == opt_text(opt_view(command.tenant_id))
            &&& opt_view(sc.organization_id) == opt_text(opt_view(command.organization_id))
            &&& (sc.tenant_id is Some || sc.organization_id is None)
        },
        (norm(command.provider_code@).len() > 0 && trimmed(command.provider_event_id@).len() > 0 && (opt_text(
            opt_view(command.tenant_id),
        ) is Some || opt_text(opt_view(command.organization_id)) is None)) ==> r is Ok,
{
    let provider_code = normalized(command.provider_code.as_str());
    if provider_code.unicode_len() == 0 {
        return Err(ServiceError::validation("payment webhook provider code is required"));
    }
    let event = trim(command.provider_event_id.as_str());
    if event.unicode_len() == 0 {
        return Err(ServiceError::validation("payment webhook provider event id is required"));
    }
    let out_trade_no = optional_text(option_str(&command.out_trade_no));
    let tenant_id = optional_text(option_str(&command.tenant_id));
    let organization_id = optional_text(option_str(&command.organization_id));
    if tenant_id.is_none() && organization_id.is_some() {
        return Err(ServiceError::validation("payment webhook organization scope requires tenant scope"));
    }
    Ok(WebhookIngestScope { provider_code, provider_event_id: owned(event), out_trade_no, tenant_id, organization_id })
}

fn option_str(v: &Option<String>) -> (r: Option<&str>)
    ensures
        opt_str_view(r) == opt_view(*v),
{
    match v {
        Some(s) => Some(s.as_str()),
        None => None,
    }
}

/// The row a webhook event is stored as.
#[derive(Clone, Debug, PartialEq, Eq)]
pub struct WebhookEventRecord {
    pub internal_id: String,
    pub tenant_id: String,
    pub organization_id: Option<String>,
    pub provider_scoped_event_id: String,
    pub event_type: String,
    pub status: String,
    pub unmatched_reason: Option<String>,
    pub payload_json: String,
}

/// Why an event matched no payment attempt.
pub open spec fn unmatched_reason_of(matched: bool, out_trade_no: Option<Seq<char>>) -> Option<Seq<char>> {
    if matched {
        None
    } else if out_trade_no is Some {
        Some("payment_attempt_not_found"@)
    } else {
        Some("out_trade_no_missing"@)
    }
}

/// Decides the stored row of an event, given its scope and the attempt it
/// matched (if any): the attempt's tenant wins over the webhook's scope and
/// a tenant is required; a matched event is queued for settlement and an
/// unmatched one is kept as failed with the reason.
pub fn plan_webhook_event(
    scope: &WebhookIngestScope,
    event_type: Option<&str>,
    payment_status: Option<&str>,
    provider_payload: JsonValue,
    attempt_identity: Option<&PaymentWebhookAttemptIdentity>,
) -> (r: Result<WebhookEventRecord, ServiceError>)
    ensures
        attempt_identity is None && scope.tenant_id is None ==> outcome_is(
            r,
            Some((ErrorKind::Conflict, "payment webhook tenant scope could not be resolved safely"@)),
        ),
        (attempt_identity is Some || scope.tenant_id is Some) ==> (r matches Ok(rec) && {
            let scoped = provider_scoped_event_id_spec(scope.provider_code@, scope.provider_event_id@);
            let tenant = match attempt_identity {
                Some(i) => i.tenant_id@,
                None => scope.tenant_id->0@,
            };
            let reason = unmatched_reason_of(attempt_identity is Some, opt_view(scope.out_trade_no));
            &&& rec.tenant_id@ == tenant
            &&& opt_view(rec.organization_id) == match attempt_identity {
                Some(i) => if i.organization_id is Some {
                    opt_view(i.organization_id)
                } else {
                    opt_view(scope.organization_id)
                },
                None => opt_view(scope.organization_id),
            }
            &&& rec.provider_scoped_event_id@ == scoped
            &&& rec.internal_id@ == webhook_event_storage_id_spec(tenant, scoped)
            &&& opt_view(rec.unmatched_reason) == reason
            &&& rec.status@ == if attempt_identity is Some { "queued"@ } else { "failed"@ }
            &&& rec.event_type@ == match event_type {
                Some(t) => t@,
                None => "payment"@,
            }
            &&& rec.payload_json@ == json_text(
                stored_payload_doc(
                    normalized_doc(
                        scope.provider_code@,
                        scope.provider_event_id@,
                        scoped,
                        opt_str_view(event_type),
                        opt_view(scope.out_trade_no),
                        opt_str_view(payment_status),
                        match attempt_identity {
                            Some(i) => Some(*i),
                            None => None,
                        },
                        reason,
                    ),
                    provider_payload.model(),
                ),
            )
        }),
{
    let tenant_id = match attempt_identity {
        Some(i) => owned(i.tenant_id.as_str()),
        None => match &scope.tenant_id {
            Some(t) => owned(t.as_str()),
            None => return Err(ServiceError::conflict("payment webhook tenant scope could not be resolved safely")),
        },
    };
    let organization_id = match attempt_identity {
        Some(i) => match &i.organization_id {
            Some(o) => Some(owned(o.as_str())),
            None => match &scope.organization_id {
                Some(o) => Some(owned(o.as_str())),
                None => None,
            },
        },
        None => match &scope.organization_id {
            Some(o) => Some(owned(o.as_str())),
            None => None,
        },
    };
    let scoped = provider_scoped_webhook_event_id(scope.provider_code.as_str(), scope.provider_event_id.as_str());
    let internal_id = webhook_event_storage_id(tenant_id.as_str(), scoped.as_str());
    let unmatched_reason: Option<&str> = match attempt_identity {
        Some(_) => None,
        None => match &scope.out_trade_no {
            Some(_) => Some("payment_attempt_not_found"),
            None => Some("out_trade_no_missing"),
        },
    };
    let payload_json = build_stored_webhook_payload(
        scope.provider_code.as_str(),
        scope.provider_event_id.as_str(),
        scoped.as_str(),
        event_type,
        option_str(&scope.out_trade_no),
        payment_status,
        provider_payload,
        attempt_identity,
        unmatched_reason,
    );
    let status = match attempt_identity {
        Some(_) => owned("queued"),
        None => owned(WEBHOOK_EVENT_STATUS_FAILED),
    };
    let event_type = match event_type {
        Some(t) => owned(t),
        None => owned("payment"),
    };
    Ok(
        WebhookEventRecord {
            internal_id,
            tenant_id,
            organization_id,
            provider_scoped_event_id: scoped,
            event_type,
            status,
            unmatched_reason: match unmatched_reason {
                Some(u) => Some(owned(u)),
                None => None,
            },
            payload_json,
        },
    )
}

/// The outcome of an ingested event: an event that matched no attempt
/// settles nothing; a matched one reports its attempt, the status applied
/// and the settlement context.
pub fn ingest_outcome(
    webhook_event_id: String,
    inserted: bool,
    attempt_identity: Option<&PaymentWebhookAttemptIdentity>,
    applied_status: Option<String>,
    payment_attempt_context: Option<PaymentWebhookAttemptContext>,
) -> (r: IngestProviderWebhookOutcome)
    ensures
        r.webhook_event_id == webhook_event_id,
        r.replayed == !inserted,
        match attempt_identity {
            None => r.payment_attempt_id is None && r.applied_status is None && r.payment_attempt_context is None,
            Some(i) => opt_view(r.payment_attempt_id) == Some(i.payment_attempt_id@) && r.applied_status
                == applied_status && r.payment_attempt_context == payment_attempt_context,
        },
{
    match attempt_identity {
        None => empty_ingest_outcome(webhook_event_id, !inserted),
        Some(i) => IngestProviderWebhookOutcome {
            webhook_event_id,
            replayed: !inserted,
            payment_attempt_id: Some(owned(i.payment_attempt_id.as_str())),
            applied_status,
            payment_attempt_context,
        },
    }
}

/// Whether a settled status asks for the order's settlement context: only
/// a payment that succeeded does.
pub fn settlement_context_wanted(applied_status: &Option<String>) -> (r: bool)
    ensures
        r == (opt_view(*applied_status) == Some("succeeded"@)),
{
    match applied_status {
        Some(s) => str_eq(s.as_str(), "succeeded"),
        None => false,
    }
}

/// The provider status a webhook carries, when it is not blank.
pub fn webhook_raw_status(payment_status: Option<&str>) -> (r: Option<&str>)
    ensures
        opt_str_view(r) == match opt_str_view(payment_status) {
            Some(s) => if trimmed(s).len() == 0 {
                None
            } else {
                Some(s)
            },
            None => None,
        },
{
    match payment_status {
        Some(s) => if trim(s).unicode_len() == 0 {
            None
        } else {
            Some(s)
        },
        None => None,
    }
}

/// Re-checks, just before settlement, that exactly the matched attempt
/// (by attempt and intent identity) carries the event's merchant trade number.
pub fn revalidate_webhook_identity(candidates: &Vec<(String, String)>, attempt_id: &str, payment_intent_id: &str) -> (r:
    Result<(), ServiceError>)
    ensures
        candidates.len() == 0 ==> outcome_is(
            r,
            Some((ErrorKind::Storage, "payment webhook attempt disappeared during settlement"@)),
        ),
        candidates.len() == 1 && candidates@[0].0@ == attempt_id@ && candidates@[0].1@ == payment_intent_id@ ==> r is Ok,
        candidates.len() >= 2 || (candidates.len() == 1 && (candidates@[0].0@ != attempt_id@ || candidates@[0].1@
            != payment_intent_id@)) ==> outcome_is(
            r,
            Some((ErrorKind::Conflict, "multiple payment attempts match webhook identity"@)),
        ),
{
    if candidates.len() == 0 {
        return Err(ServiceError::storage("payment webhook attempt disappeared during settlement"));
    }
    if candidates.len() == 1 && str_eq(candidates[0].0.as_str(), attempt_id) && str_eq(
        candidates[0].1.as_str(),
        payment_intent_id,
    ) {
        return Ok(());
    }
    Err(ServiceError::conflict("multiple payment attempts match webhook identity"))
}

/// Whether settling a webhook must move a stored status to the target:
/// not when they agree up to ASCII case; otherwise only along the payment
/// lifecycle.
pub fn webhook_status_update_needed(current_status: &str, target_status: &str) -> (r: Result<bool, ServiceError>)
    ensures
        lower(current_status@) == lower(target_status@) ==> r == Ok::<bool, ServiceError>(false),
        lower(current_status@) != lower(target_status@) ==> match payment_wire_check(current_status@, target_status@) {
            None => r == Ok::<bool, ServiceError>(true),
            Some((kind, message)) => outcome_is(r, Some((kind, message))),
        },
{
    if eq_ignore_case(current_status, target_status) {
        return Ok(false);
    }
    validate_payment_wire_transition(current_status, target_status)?;
    Ok(true)
}

/// Checks that a settlement update changed exactly one row.
pub fn ensure_single_row_updated(rows_affected: u64, message: &str) -> (r: Result<(), ServiceError>)
    ensures
        rows_affected == 1 ==> r is Ok,
        rows_affected != 1 ==> outcome_is(r, Some((ErrorKind::Storage, message@))),
{
    if rows_affected != 1 {
        return Err(ServiceError::storage(message));
    }
    Ok(())
}

/// The merchant trade number and provider status a queued event carries:
/// its normalised values, else the provider payload's own fields.
pub open spec fn queued_fields(doc: Json) -> (Option<Seq<char>>, Option<Seq<char>>) {
    let n = json_member(doc, "normalized"@);
    let from_normalized = |key: Seq<char>|
        match n {
            Some(nd) => json_str(json_member(nd, key)),
            None => None,
        };
    let out = match from_normalized("outTradeNo"@) {
        Some(t) => Some(t),
        None => json_str(json_member(doc, "out_trade_no"@)),
    };
    let status = match from_normalized("paymentStatus"@) {
        Some(t) => Some(t),
        None => match json_member(doc, "payment_status"@) {
            Some(v) => json_str(Some(v)),
            None => json_str(json_member(doc, "trade_status"@)),
        },
    };
    (out, status)
}

fn member_text(doc: Option<&JsonValue>, key: &str) -> (r: Option<String>)
    ensures
        opt_view(r) == match doc {
            Some(d) => json_str(json_member(d.model(), key@)),
            None => None,
        },
{
    match doc {
        Some(d) => match d.get(key) {
            Some(v) => match v.as_text() {
                Some(t) => Some(owned(t)),
                None => None,
            },
            None => None,
        },
        None => None,
    }
}

/// The merchant trade number and provider status of a queued event's document.
pub fn queued_webhook_fields_from_document(doc: &JsonValue) -> (r: (Option<String>, Option<String>))
    ensures
        (opt_view(r.0), opt_view(r.1)) == queued_fields(doc.model()),
{
    let normalized = doc.get("normalized");
    let out = match member_text(normalized, "outTradeNo") {
        Some(t) => Some(t),
        None => member_text(Some(doc), "out_trade_no"),
    };
    let status = match member_text(normalized, "paymentStatus") {
        Some(t) => Some(t),
        None => match doc.get("payment_status") {
            Some(v) => match v.as_text() {
                Some(t) => Some(owned(t)),
                None => None,
            },
            None => member_text(Some(doc), "trade_status"),
        },
    };
    (out, status)
}

/// The merchant trade number and provider status of a queued event's
/// stored payload; text that is not JSON is a storage error.
pub fn queued_webhook_fields(payload: &str) -> (r: Result<(Option<String>, Option<String>), ServiceError>)
    ensures
        match json_document(payload@) {
            Err(m) => outcome_is(r, Some((ErrorKind::Storage, "webhook payload json invalid: "@ + m))),
            Ok(doc) => r matches Ok(f) && (opt_view(f.0), opt_view(f.1)) == queued_fields(doc),
        },
{
    match parse_json(payload) {
        Ok(doc) => Ok(queued_webhook_fields_from_document(&doc)),
        Err(e) => {
            let mut m = owned("webhook payload json invalid: ");
            m.append(e.as_str());
            Err(ServiceError { kind: ErrorKind::Storage, message: m })
        },
    }
}

/// Maximum webhook events claimed per worker pass.
pub const WEBHOOK_BATCH_SIZE: i64 = 32;

/// The outcome of one pass over queued webhook events.
#[derive(Clone, Debug, PartialEq, Eq)]
pub struct WebhookProcessSummary {
    pub claimed: usize,
    pub processed: usize,
    pub failed: usize,
    pub payment_attempt_contexts: Vec<PaymentWebhookAttemptContext>,
}

/// The number of successes among the first `n` results.
pub open spec fn ok_count(results: Seq<Result<Option<PaymentWebhookAttemptContext>, ServiceError>>) -> nat
    decreases results.len(),
{
    if results.len() == 0 {
        0
    } else {
        ok_count(results.drop_last()) + if results.last() is Ok {
            1nat
        } else {
            0nat
        }
    }
}

/// The settlement contexts the successful results carry, in order.
pub open spec fn settled_contexts(results: Seq<Result<Option<PaymentWebhookAttemptContext>, ServiceError>>) -> Seq<
    PaymentWebhookAttemptContext,
>
    decreases results.len(),
{
    if results.len() == 0 {
        Seq::empty()
    } else {
        settled_contexts(results.drop_last()) + match results.last() {
            Ok(Some(c)) => seq![c],
            _ => Seq::empty(),
        }
    }
}

/// Summarises the per-event results of a pass: every claimed event is
/// either processed or failed, and the contexts of settled payments are
/// kept in order.
pub fn summarize_webhook_pass(results: Vec<Result<Option<PaymentWebhookAttemptContext>, ServiceError>>) -> (r:
    WebhookProcessSummary)
    ensures
        r.claimed == results.len(),
        r.processed == ok_count(results@),
        r.processed + r.failed == r.claimed,
        r.payment_attempt_contexts@ == settled_contexts(results@),
{
    let claimed = results.len();
    let ghost all = results@;
    let mut rest = results;
    let mut processed: usize = 0;
    let mut failed: usize = 0;
    let mut contexts: Vec<PaymentWebhookAttemptContext> = Vec::new();
    let mut i: usize = 0;
    while i < claimed
        invariant
            0 <= i <= claimed,
            claimed == all.len(),
            rest@ == all.skip(i as int),
            processed == ok_count(all.take(i as int)),
            processed + failed == i,
            contexts@ == settled_contexts(all.take(i as int)),
        decreases claimed - i,
    {
        proof {
            assert(all.take(i + 1).drop_last() =~= all.take(i as int));
            assert(all.take(i + 1).last() == all[i as int]);
        }
        let item = rest.remove(0);
        match item {
            Ok(context) => {
                processed = processed + 1;
                match context {
                    Some(c) => contexts.push(c),
                    None => {},
                }
            },
            Err(_) => {
                failed = failed + 1;
            },
        }
        proof {
            assert(rest@ =~= all.skip(i + 1));
            assert(contexts@ =~= settled_contexts(all.take(i + 1)));
        }
        i = i + 1;
    }
    assert(all.take(claimed as int) =~= all);
    WebhookProcessSummary { claimed, processed, failed, payment_attempt_contexts: contexts }
}

} // verus!
