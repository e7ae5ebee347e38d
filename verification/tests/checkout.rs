use chrono::{DateTime, Duration, Utc};
use sdkwork_payment::checkout::{
    attempt_enrichment_needed, checkout_expiry_at, choose_checkout_expiry, ensure_attempt_expiry_persisted,
    ensure_provider_attempt_snapshot, order_status_is_payable, order_status_is_refundable,
    payment_record_is_checkout_eligible, plan_owner_order_payment, provider_checkout_context,
    provider_checkout_expiration, PaymentAttemptProviderContext, PROVIDER_CHECKOUT_TTL_SECONDS,
};
use sdkwork_payment::confirmation::{
    cancel_order_payments_outcome, confirmation_update_required, ensure_confirmation_intent_update,
    payment_attempt_is_terminal_success, required_persisted_paid_at, resolve_confirmation_attempt_replayed,
    select_confirmation_candidate, LOAD_OWNER_PAYMENT_ATTEMPT_FOR_CONFIRMATION,
};
use sdkwork_payment::error::ServiceError;
use sdkwork_payment::ids::{checkout_lock_key_from_parts, stable_storage_id, OwnerOrderPaymentEnrichmentContext};
use sdkwork_payment::json::JsonValue;
use sdkwork_payment::money::Money;
use sdkwork_payment::owner_payment::{PayOwnerOrderCommand, PayOwnerOrderOutcome};
use sdkwork_payment::params::PaymentParams;
use sdkwork_payment::provider::{provider_request_context, CheckoutContext};

fn pay_command(idempotency_key: &str) -> PayOwnerOrderCommand {
    PayOwnerOrderCommand::new(
        "tenant-1",
        Some("org-1"),
        "user-1",
        "order-1",
        "wechat_pay",
        None,
        "req-1",
        idempotency_key,
    )
    .unwrap()
}

fn outcome() -> PayOwnerOrderOutcome {
    PayOwnerOrderOutcome {
        amount: Money::new("100").expect("amount"),
        order_id: "order-1".to_owned(),
        out_trade_no: "trade-1".to_owned(),
        payment_id: "payment-1".to_owned(),
        payment_method: "wechat_jsapi".to_owned(),
        status: "pending".to_owned(),
        payment_params: PaymentParams::new(),
    }
}

fn member<'a>(value: &'a JsonValue, key: &str) -> Option<&'a JsonValue> {
    match value {
        JsonValue::Object(members) => members.iter().rev().find(|(k, _)| k == key).map(|(_, v)| v),
        _ => None,
    }
}

#[test]
fn checkout_lock_key_is_unambiguous_and_preserves_missing_organization() {
    assert_ne!(
        checkout_lock_key_from_parts("tenant:a", Some("org"), "order"),
        checkout_lock_key_from_parts("tenant", Some("a:org"), "order")
    );
    assert_ne!(
        checkout_lock_key_from_parts("tenant", None, "order"),
        checkout_lock_key_from_parts("tenant", Some("0"), "order")
    );
}

#[test]
fn checkout_lock_key_frames_each_part_by_its_byte_length() {
    assert_eq!(
        checkout_lock_key_from_parts("t1", None, "ordé"),
        "payment-checkout:v1|2:t1|none|5:ordé"
    );
    let context = OwnerOrderPaymentEnrichmentContext {
        tenant_id: "t1",
        organization_id: Some("o"),
        order_id: "x",
        payment_scene: None,
    };
    assert_eq!(context.checkout_lock_key(), "payment-checkout:v1|2:t1|1:o|1:x");
}

#[test]
fn provider_checkout_expiration_rejects_invalid_and_expired_boundaries() {
    assert!(provider_checkout_expiration(Some("not-a-timestamp")).is_err());
    assert!(provider_checkout_expiration(Some("2000-01-01T00:00:00Z")).is_err());
}

#[test]
fn provider_checkout_expiration_is_capped_at_fifteen_minutes() {
    let before = Utc::now();
    let expiration =
        provider_checkout_expiration(Some("2099-01-01T00:00:00Z")).expect("far-future order should remain payable");
    let expiration = DateTime::parse_from_rfc3339(&expiration)
        .expect("provider expiration should be RFC3339")
        .with_timezone(&Utc);
    let after = Utc::now();

    assert!(expiration >= before + Duration::seconds(PROVIDER_CHECKOUT_TTL_SECONDS - 1));
    assert!(expiration <= after + Duration::seconds(PROVIDER_CHECKOUT_TTL_SECONDS));
}

#[test]
fn provider_checkout_expiration_preserves_an_earlier_order_boundary() {
    let order_expiration = Utc::now() + Duration::minutes(5);
    let value = order_expiration.to_rfc3339_opts(chrono::SecondsFormat::Secs, true);
    let expiration = provider_checkout_expiration(Some(&value)).expect("unexpired order boundary should be accepted");

    assert_eq!(expiration, value);
}

#[test]
fn checkout_expiry_is_the_earlier_of_order_and_provider_limit() {
    let now = (1_700_000_000_i64, 500_u32);
    assert_eq!(choose_checkout_expiry(None, now), Ok((1_700_000_900, 500)));
    assert_eq!(choose_checkout_expiry(Some((1_700_000_300, 0)), now), Ok((1_700_000_300, 0)));
    assert_eq!(choose_checkout_expiry(Some((1_700_009_999, 0)), now), Ok((1_700_000_900, 500)));
    assert_eq!(
        choose_checkout_expiry(Some((1_700_000_000, 500)), now),
        Err(ServiceError::conflict("payment attempt has expired"))
    );
    assert_eq!(
        checkout_expiry_at(Some("yesterday"), now),
        Err(ServiceError::conflict("payment attempt expiry is invalid"))
    );
    assert_eq!(checkout_expiry_at(Some("  "), now), Ok((1_700_000_900, 500)));
}

#[test]
fn provider_checkout_uses_the_persisted_attempt_snapshot() {
    let metadata = JsonValue::Object(vec![("openid".to_owned(), JsonValue::Str("persisted-payer".to_owned()))]);
    let context = OwnerOrderPaymentEnrichmentContext {
        tenant_id: "tenant-1",
        organization_id: Some("org-1"),
        order_id: "order-1",
        payment_scene: Some("mini_program"),
    };

    let checkout = provider_checkout_context(
        &context,
        "wechat_pay",
        "persisted-attempt-idempotency",
        Some(JsonValue::Object(vec![(
            "openid".to_owned(),
            JsonValue::Str("persisted-payer".to_owned()),
        )])),
        None,
    );

    assert_eq!(checkout.idempotency_key, "persisted-attempt-idempotency");
    assert_eq!(format!("{:?}", checkout.payment_metadata), format!("{:?}", Some(metadata)));
    assert_eq!(checkout.payment_scene.as_deref(), Some("mini_program"));
    assert_eq!(checkout.currency_code, "CNY");
    assert_eq!(checkout.tenant_id, "tenant-1");
}

#[test]
fn provider_request_uses_method_key_and_preserves_payer_metadata() {
    let context = CheckoutContext {
        provider_code: "wechat_pay".to_owned(),
        currency_code: "CNY".to_owned(),
        tenant_id: "tenant-1".to_owned(),
        order_id: "order-1".to_owned(),
        idempotency_key: "idem-1".to_owned(),
        notify_url: Some("https://pay.example.test/webhook".to_owned()),
        payment_scene: Some("mini_program".to_owned()),
        payment_metadata: Some(JsonValue::Object(vec![(
            "openid".to_owned(),
            JsonValue::Str("payer-openid".to_owned()),
        )])),
    };

    let (method_key, metadata) = provider_request_context(context, &outcome());
    assert_eq!(method_key, "wechat_jsapi");
    assert!(matches!(member(&metadata, "openid"), Some(JsonValue::Str(s)) if s == "payer-openid"));
    assert!(matches!(member(&metadata, "payment_scene"), Some(JsonValue::Str(s)) if s == "mini_program"));
    assert!(matches!(member(&metadata, "order_id"), Some(JsonValue::Str(s)) if s == "order-1"));
    assert!(matches!(member(&metadata, "subject"), Some(JsonValue::Str(s)) if s == "Order "));
}

#[test]
fn provider_request_scene_defaults_to_the_payment_method() {
    let context = CheckoutContext {
        provider_code: "alipay".to_owned(),
        currency_code: "CNY".to_owned(),
        tenant_id: "tenant-1".to_owned(),
        order_id: "order-1".to_owned(),
        idempotency_key: "idem-1".to_owned(),
        notify_url: None,
        payment_scene: None,
        payment_metadata: Some(JsonValue::Str("not an object".to_owned())),
    };
    let mut outcome = outcome();
    outcome.payment_params.insert("orderSn".to_owned(), "SN-7".to_owned());
    let (_, metadata) = provider_request_context(context, &outcome);
    assert!(matches!(member(&metadata, "payment_scene"), Some(JsonValue::Str(s)) if s == "wechat_jsapi"));
    assert!(matches!(member(&metadata, "subject"), Some(JsonValue::Str(s)) if s == "Order SN-7"));
    assert!(member(&metadata, "openid").is_none());
}

#[test]
fn order_and_record_statuses_gate_checkout_and_refund() {
    assert!(order_status_is_payable(" Pending_Payment "));
    assert!(!order_status_is_payable("paid"));
    assert!(payment_record_is_checkout_eligible("PROCESSING"));
    assert!(!payment_record_is_checkout_eligible("succeeded"));
    assert!(order_status_is_refundable("paid", Some("2026-01-01T00:00:00Z")));
    assert!(!order_status_is_refundable("paid", Some(" ")));
    assert!(!order_status_is_refundable("pending", Some("2026-01-01T00:00:00Z")));
}

#[test]
fn owner_order_payment_plan_derives_identities() {
    let command = pay_command("idempotency-key-that-is-longer-than-24");
    let plan = plan_owner_order_payment(&command, "SN1", "pending_payment", " 19.90 ").unwrap();
    assert_eq!(plan.amount.as_str(), "19.90");
    assert_eq!(plan.payment_intent_no, "PAY-SN1");
    assert_eq!(plan.out_trade_no, "OT-SN1-idempotency-key-that-is-");
    assert_eq!(plan.callback_payload, "{}");
    assert_eq!(
        plan.payment_intent_id,
        stable_storage_id(&["pi", "tenant-1", "order-1", "idempotency-key-that-is-longer-than-24"])
    );
    assert_ne!(plan.payment_intent_id, plan.payment_attempt_id);

    assert_eq!(
        plan_owner_order_payment(&command, "SN1", "paid", "19.90").unwrap_err(),
        ServiceError::conflict("order is not pending payment")
    );
    assert_eq!(
        plan_owner_order_payment(&command, "SN1", "pending", "19.999").unwrap_err(),
        ServiceError::storage("invalid commerce money amount")
    );
}

#[test]
fn provider_attempt_snapshot_must_match_the_outcome() {
    let mut attempt = PaymentAttemptProviderContext {
        attempt_id: "attempt-1".to_owned(),
        provider_code: "wechat_pay".to_owned(),
        out_trade_no: "trade-1".to_owned(),
        amount: "100".to_owned(),
        tenant_id: "tenant-1".to_owned(),
        idempotency_key: "idem-1".to_owned(),
        provider_transaction_id: None,
    };
    assert!(ensure_provider_attempt_snapshot(&attempt, &outcome()).is_ok());
    attempt.out_trade_no = "trade-2".to_owned();
    assert_eq!(
        ensure_provider_attempt_snapshot(&attempt, &outcome()).unwrap_err(),
        ServiceError::conflict("payment attempt changed while checkout was being prepared")
    );
    attempt.idempotency_key = " ".to_owned();
    assert_eq!(
        ensure_provider_attempt_snapshot(&attempt, &outcome()).unwrap_err(),
        ServiceError::storage("payment attempt is missing its persisted idempotency key")
    );
    assert!(ensure_attempt_expiry_persisted(1).is_ok());
    assert!(ensure_attempt_expiry_persisted(0).is_err());
}

#[test]
fn attempt_enrichment_is_needed_only_for_provider_facts() {
    let mut params = PaymentParams::new();
    params.insert("cashierUrl".to_owned(), "https://pay".to_owned());
    assert!(!attempt_enrichment_needed(&params));
    params.insert("providerStatus".to_owned(), "WAIT".to_owned());
    assert!(attempt_enrichment_needed(&params));
}

#[test]
fn confirmation_attempt_lock_query_locks_the_latest_attempt() {
    let query = LOAD_OWNER_PAYMENT_ATTEMPT_FOR_CONFIRMATION.split_whitespace().collect::<Vec<_>>().join(" ");
    assert!(query.contains("SELECT id, payment_intent_id, status, paid_at"));
    assert!(query.ends_with("LIMIT 1 FOR UPDATE"));
}

#[test]
fn confirmation_replay_requires_and_preserves_persisted_paid_at() {
    assert_eq!(
        required_persisted_paid_at("2026-07-12T01:02:03Z").expect("persisted paid_at"),
        "2026-07-12T01:02:03Z"
    );
    assert!(required_persisted_paid_at(" ").is_err());
    assert_eq!(
        required_persisted_paid_at("yesterday").unwrap_err(),
        ServiceError::storage("succeeded payment attempt has a non-RFC3339 persisted paid_at")
    );
}

#[test]
fn confirmation_update_counts_distinguish_first_write_from_replay() {
    assert!(!resolve_confirmation_attempt_replayed(1, Some("succeeded")).expect("first confirmation"));
    assert!(resolve_confirmation_attempt_replayed(0, Some("succeeded")).expect("concurrent replay"));
    assert!(resolve_confirmation_attempt_replayed(0, Some("pending")).is_err());
    assert!(resolve_confirmation_attempt_replayed(2, Some("succeeded")).is_err());

    ensure_confirmation_intent_update(1, None).expect("updated intent");
    ensure_confirmation_intent_update(0, Some("succeeded")).expect("intent replay");
    assert!(ensure_confirmation_intent_update(0, Some("pending")).is_err());
    assert!(ensure_confirmation_intent_update(0, None).is_err());
}

#[test]
fn confirmation_errors_name_what_went_wrong() {
    assert_eq!(
        resolve_confirmation_attempt_replayed(2, Some("succeeded")).unwrap_err(),
        ServiceError::storage("owner payment attempt confirmation updated 2 rows; expected at most one")
    );
    assert_eq!(
        resolve_confirmation_attempt_replayed(0, None).unwrap_err(),
        ServiceError::storage("owner payment attempt disappeared during confirmation")
    );
    assert_eq!(
        ensure_confirmation_intent_update(0, None).unwrap_err(),
        ServiceError::storage("owner payment intent disappeared during confirmation")
    );
    assert_eq!(
        ensure_confirmation_intent_update(3, None).unwrap_err(),
        ServiceError::storage("owner payment intent confirmation updated 3 rows; expected at most one")
    );
    assert!(payment_attempt_is_terminal_success(" SUCCESS "));
    assert_eq!(confirmation_update_required("succeeded"), Ok(false));
    assert_eq!(confirmation_update_required("pending"), Ok(true));
    assert!(confirmation_update_required("failed").is_err());
}

#[test]
fn manual_owner_order_confirmation_rejects_ambiguous_attempts() {
    assert_eq!(
        select_confirmation_candidate(2).unwrap_err(),
        ServiceError::conflict("multiple payment attempts match manual confirmation")
    );
    assert_eq!(select_confirmation_candidate(0).unwrap_err().code(), "not-found");
    assert!(select_confirmation_candidate(1).is_ok());
}

#[test]
fn cancel_order_payments_reports_missing_and_terminal_orders() {
    assert_eq!(cancel_order_payments_outcome(false, 0, false).unwrap_err().code(), "not-found");
    assert_eq!(
        cancel_order_payments_outcome(true, 0, true).unwrap_err(),
        ServiceError::conflict("order payment is in a terminal state and cannot be canceled")
    );
    assert!(cancel_order_payments_outcome(true, 1, true).is_ok());
    assert!(cancel_order_payments_outcome(true, 0, false).is_ok());
}
