use sdkwork_payment::error::ServiceError;
use sdkwork_payment::json::JsonValue;
use sdkwork_payment::peek::peek_webhook_routing_fields;
use sdkwork_payment::webhook::{
    build_stored_webhook_payload, ingest_outcome, parse_stored_webhook_payload, plan_webhook_event,
    provider_scoped_webhook_event_id, queued_webhook_fields, revalidate_webhook_identity,
    settlement_context_wanted, summarize_webhook_pass, validate_stored_webhook_scope, webhook_event_storage_id,
    webhook_ingest_scope, webhook_raw_status, webhook_status_update_needed, IngestProviderWebhookCommand,
    PaymentWebhookAttemptContext, PaymentWebhookAttemptIdentity, WEBHOOK_EVENT_STATUS_FAILED,
};

fn identity() -> PaymentWebhookAttemptIdentity {
    PaymentWebhookAttemptIdentity {
        payment_attempt_id: "attempt-1".to_owned(),
        payment_intent_id: "intent-1".to_owned(),
        provider_code: "stripe".to_owned(),
        out_trade_no: "trade-1".to_owned(),
        attempt_status: "pending".to_owned(),
        tenant_id: "tenant-1".to_owned(),
        organization_id: Some("org-1".to_owned()),
        owner_user_id: "user-1".to_owned(),
        order_id: "order-1".to_owned(),
    }
}

fn event_payload() -> JsonValue {
    JsonValue::Object(vec![("id".to_owned(), JsonValue::Str("evt-1".to_owned()))])
}

fn command(tenant_id: Option<&str>, out_trade_no: Option<&str>) -> IngestProviderWebhookCommand {
    IngestProviderWebhookCommand {
        provider_code: " Stripe ".to_owned(),
        provider_event_id: " evt-1 ".to_owned(),
        event_type: Some("payment.succeeded".to_owned()),
        out_trade_no: out_trade_no.map(str::to_owned),
        payment_status: Some("succeeded".to_owned()),
        payload: event_payload(),
        tenant_id: tenant_id.map(str::to_owned),
        organization_id: None,
    }
}

#[test]
fn peek_alipay_form_extracts_routing_fields() {
    let body = b"out_trade_no=OT-123&app_id=20210001&trade_status=TRADE_SUCCESS";
    let peek = peek_webhook_routing_fields("alipay", body);
    assert_eq!(peek.out_trade_no.as_deref(), Some("OT-123"));
    assert_eq!(peek.merchant_id.as_deref(), Some("20210001"));
}

#[test]
fn peek_stripe_json_extracts_merchant_order_no() {
    let body = br#"{"data":{"object":{"metadata":{"merchant_order_no":"OT-456"},"status":"succeeded"}}}"#;
    let peek = peek_webhook_routing_fields("stripe", body);
    assert_eq!(peek.out_trade_no.as_deref(), Some("OT-456"));
}

#[test]
fn peek_decodes_percent_escapes_and_ignores_other_providers() {
    let body = b"out_trade_no=OT%2D9&app_id=2021";
    let peek = peek_webhook_routing_fields("ALIPAY", body);
    assert_eq!(peek.out_trade_no.as_deref(), Some("OT-9"));
    let other = peek_webhook_routing_fields("wechat_pay", body);
    assert_eq!(other.out_trade_no, None);
    assert_eq!(other.merchant_id, None);
    let broken = peek_webhook_routing_fields("stripe", b"not json");
    assert_eq!(broken.out_trade_no, None);
}

#[test]
fn provider_and_tenant_scope_are_part_of_webhook_identity() {
    let stripe = provider_scoped_webhook_event_id("stripe", "evt-1");
    let wechat = provider_scoped_webhook_event_id("wechat_pay", "evt-1");
    assert_ne!(stripe, wechat);
    assert_eq!(stripe, provider_scoped_webhook_event_id("STRIPE", "evt-1"));
    assert_ne!(
        webhook_event_storage_id("tenant-1", &stripe),
        webhook_event_storage_id("tenant-2", &stripe)
    );
}

#[test]
fn scoped_identities_do_not_collide_across_separators() {
    assert_ne!(
        provider_scoped_webhook_event_id("a:b", "c"),
        provider_scoped_webhook_event_id("a", "b:c")
    );
    assert_ne!(webhook_event_storage_id("t|1", "e"), webhook_event_storage_id("t", "1|e"));
}

#[test]
fn matched_payload_round_trips_exact_attempt_identity() {
    let identity = identity();
    let scoped_event_id = provider_scoped_webhook_event_id("stripe", "evt-1");
    let payload = build_stored_webhook_payload(
        "stripe",
        "evt-1",
        &scoped_event_id,
        Some("payment.succeeded"),
        Some("trade-1"),
        Some("succeeded"),
        event_payload(),
        Some(&identity),
        None,
    );

    let parsed = parse_stored_webhook_payload(&payload).expect("parse stored payload");
    assert_eq!(parsed.attempt_identity, Some(identity));
    assert_eq!(parsed.provider_scoped_event_id, scoped_event_id);
    assert_eq!(parsed.match_state, "matched");
    assert_eq!(parsed.out_trade_no.as_deref(), Some("trade-1"));
}

#[test]
fn unmatched_payload_round_trips_without_identity() {
    let scoped_event_id = provider_scoped_webhook_event_id("stripe", "evt-2");
    let payload = build_stored_webhook_payload(
        "stripe",
        "evt-2",
        &scoped_event_id,
        None,
        None,
        None,
        JsonValue::Null,
        None,
        Some("out_trade_no_missing"),
    );
    let parsed = parse_stored_webhook_payload(&payload).expect("parse stored payload");
    assert_eq!(parsed.attempt_identity, None);
    assert_eq!(parsed.match_state, "unmatched");
    assert_eq!(parsed.provider_event_id, "evt-2");
}

#[test]
fn stored_payload_that_is_not_json_is_a_storage_error() {
    let error = parse_stored_webhook_payload("{not json").unwrap_err();
    assert_eq!(error.code(), "storage");
    assert!(error.message().starts_with("webhook payload json invalid: "));
}

#[test]
fn stored_scope_must_match_its_row() {
    let scoped_event_id = provider_scoped_webhook_event_id("stripe", "evt-1");
    let payload = build_stored_webhook_payload(
        "stripe",
        "evt-1",
        &scoped_event_id,
        None,
        Some("trade-1"),
        Some("succeeded"),
        event_payload(),
        Some(&identity()),
        None,
    );
    let parsed = parse_stored_webhook_payload(&payload).unwrap();
    assert!(validate_stored_webhook_scope(&parsed, &scoped_event_id, "stripe", "tenant-1", Some("org-1")).is_ok());
    let wrong_provider =
        validate_stored_webhook_scope(&parsed, &scoped_event_id, "alipay", "tenant-1", Some("org-1")).unwrap_err();
    assert_eq!(wrong_provider, ServiceError::conflict("stored webhook provider identity does not match its row"));
    assert!(validate_stored_webhook_scope(&parsed, &scoped_event_id, "stripe", "tenant-2", Some("org-1")).is_err());
}

#[test]
fn unmatched_status_is_legal_in_postgres_and_sqlite_baselines() {
    assert_eq!(WEBHOOK_EVENT_STATUS_FAILED, "failed");
    assert_ne!(WEBHOOK_EVENT_STATUS_FAILED, "unmatched");
    let legal = ["queued", "processing", "processed", "failed", "dead"];
    assert!(legal.contains(&WEBHOOK_EVENT_STATUS_FAILED));
}

#[test]
fn ingest_scope_normalises_and_requires_identity() {
    let scope = webhook_ingest_scope(&command(Some(" tenant-1 "), Some(" "))).unwrap();
    assert_eq!(scope.provider_code, "stripe");
    assert_eq!(scope.provider_event_id, "evt-1");
    assert_eq!(scope.out_trade_no, None);
    assert_eq!(scope.tenant_id.as_deref(), Some("tenant-1"));

    let mut missing_provider = command(None, None);
    missing_provider.provider_code = "  ".to_owned();
    assert_eq!(
        webhook_ingest_scope(&missing_provider).unwrap_err(),
        ServiceError::validation("payment webhook provider code is required")
    );
    let mut missing_event = command(None, None);
    missing_event.provider_event_id = "".to_owned();
    assert_eq!(
        webhook_ingest_scope(&missing_event).unwrap_err(),
        ServiceError::validation("payment webhook provider event id is required")
    );
}

#[test]
fn unmatched_webhook_without_tenant_scope_fails_without_persistence() {
    let scope = webhook_ingest_scope(&command(None, Some("missing-trade"))).unwrap();
    let error = plan_webhook_event(&scope, Some("payment.unknown"), Some("pending"), event_payload(), None).unwrap_err();
    assert_eq!(error.code(), "conflict");
    assert_eq!(error.message(), "payment webhook tenant scope could not be resolved safely");
}

#[test]
fn unmatched_webhooks_are_provider_tenant_and_organization_scoped() {
    let scope = webhook_ingest_scope(&command(Some("tenant-a"), Some("missing-trade"))).unwrap();
    let record = plan_webhook_event(&scope, Some("payment.unknown"), Some("pending"), event_payload(), None).unwrap();
    assert_eq!(record.status, "failed");
    assert_eq!(record.unmatched_reason.as_deref(), Some("payment_attempt_not_found"));
    assert_eq!(record.tenant_id, "tenant-a");
    assert_eq!(record.provider_scoped_event_id, provider_scoped_webhook_event_id("stripe", "evt-1"));
    assert_eq!(record.internal_id, webhook_event_storage_id("tenant-a", &record.provider_scoped_event_id));

    let without_trade = webhook_ingest_scope(&command(Some("tenant-a"), None)).unwrap();
    let record = plan_webhook_event(&without_trade, None, None, event_payload(), None).unwrap();
    assert_eq!(record.unmatched_reason.as_deref(), Some("out_trade_no_missing"));
    assert_eq!(record.event_type, "payment");
}

#[test]
fn matched_webhook_is_queued_under_the_attempt_tenant() {
    let scope = webhook_ingest_scope(&command(Some("tenant-other"), Some("trade-1"))).unwrap();
    let identity = identity();
    let record =
        plan_webhook_event(&scope, Some("payment.succeeded"), Some("succeeded"), event_payload(), Some(&identity))
            .unwrap();
    assert_eq!(record.status, "queued");
    assert_eq!(record.tenant_id, "tenant-1");
    assert_eq!(record.organization_id.as_deref(), Some("org-1"));
    assert_eq!(record.unmatched_reason, None);
    let parsed = parse_stored_webhook_payload(&record.payload_json).unwrap();
    assert_eq!(parsed.attempt_identity, Some(identity));
}

#[test]
fn ingest_outcome_reports_replays_and_settlement() {
    let identity = identity();
    let context = PaymentWebhookAttemptContext {
        tenant_id: "tenant-1".to_owned(),
        organization_id: None,
        owner_user_id: "user-1".to_owned(),
        order_id: "order-1".to_owned(),
    };
    let outcome = ingest_outcome(
        "evt-row".to_owned(),
        false,
        Some(&identity),
        Some("succeeded".to_owned()),
        Some(context.clone()),
    );
    assert!(outcome.replayed);
    assert_eq!(outcome.payment_attempt_id.as_deref(), Some("attempt-1"));
    assert_eq!(outcome.payment_attempt_context, Some(context));
    let unmatched = ingest_outcome("evt-row".to_owned(), true, None, Some("succeeded".to_owned()), None);
    assert!(!unmatched.replayed);
    assert_eq!(unmatched.applied_status, None);

    assert!(settlement_context_wanted(&Some("succeeded".to_owned())));
    assert!(!settlement_context_wanted(&Some("failed".to_owned())));
    assert!(!settlement_context_wanted(&None));
}

#[test]
fn settlement_revalidates_the_exact_attempt() {
    assert_eq!(webhook_raw_status(Some("  ")), None);
    assert_eq!(webhook_raw_status(Some("SUCCESS")), Some("SUCCESS"));
    let exact = vec![("attempt-1".to_owned(), "intent-1".to_owned())];
    assert!(revalidate_webhook_identity(&exact, "attempt-1", "intent-1").is_ok());
    assert_eq!(
        revalidate_webhook_identity(&Vec::new(), "attempt-1", "intent-1").unwrap_err(),
        ServiceError::storage("payment webhook attempt disappeared during settlement")
    );
    let two = vec![
        ("attempt-1".to_owned(), "intent-1".to_owned()),
        ("attempt-2".to_owned(), "intent-2".to_owned()),
    ];
    assert_eq!(
        revalidate_webhook_identity(&two, "attempt-1", "intent-1").unwrap_err(),
        ServiceError::conflict("multiple payment attempts match webhook identity")
    );
}

#[test]
fn settlement_moves_statuses_only_forward() {
    assert_eq!(webhook_status_update_needed("SUCCEEDED", "succeeded"), Ok(false));
    assert_eq!(webhook_status_update_needed("pending", "succeeded"), Ok(true));
    assert!(webhook_status_update_needed("succeeded", "pending").is_err());
}

#[test]
fn queued_fields_prefer_the_normalised_record() {
    let fields = queued_webhook_fields(r#"{"normalized":{"outTradeNo":"T-1","paymentStatus":"succeeded"},"out_trade_no":"T-2"}"#)
        .unwrap();
    assert_eq!(fields, (Some("T-1".to_owned()), Some("succeeded".to_owned())));
    let legacy = queued_webhook_fields(r#"{"out_trade_no":"T-3","trade_status":"TRADE_SUCCESS"}"#).unwrap();
    assert_eq!(legacy, (Some("T-3".to_owned()), Some("TRADE_SUCCESS".to_owned())));
    assert_eq!(queued_webhook_fields("[").unwrap_err().code(), "storage");
}

#[test]
fn webhook_pass_counts_every_claimed_event_once() {
    let context = PaymentWebhookAttemptContext {
        tenant_id: "tenant-1".to_owned(),
        organization_id: None,
        owner_user_id: "user-1".to_owned(),
        order_id: "order-1".to_owned(),
    };
    let summary = summarize_webhook_pass(vec![
        Ok(Some(context.clone())),
        Err(ServiceError::storage("boom")),
        Ok(None),
    ]);
    assert_eq!(summary.claimed, 3);
    assert_eq!(summary.processed, 2);
    assert_eq!(summary.failed, 1);
    assert_eq!(summary.processed + summary.failed, summary.claimed);
    assert_eq!(summary.payment_attempt_contexts, vec![context]);
}
