use sdkwork_payment::attempts::{
    attempt_account_source, attempt_out_trade_no, attempt_outcome_to_pay_outcome, ensure_attempt_close_persisted,
    ensure_intent_attemptable, ensure_intent_cancelable, intent_order_status_is_payable, merchant_account_match,
    merge_callback_payload_patch, metadata_from_text, payment_intent_view_from_stored,
    provider_transaction_id_from_callback_payload, AttemptAccountSource, CreateOwnerPaymentAttemptOutcome,
};
use sdkwork_payment::cipher::{
    derivation_info, encrypted_credential, ensure_decryptable, CredentialCipherScope,
    LocalFilePaymentCredentialCipher, PAYMENT_CREDENTIAL_ALGORITHM,
};
use sdkwork_payment::error::ServiceError;
use sdkwork_payment::ids::{byte_prefix, payment_attempt_id, payment_intent_id, stable_storage_id};
use sdkwork_payment::json::JsonValue;
use sdkwork_payment::money::Money;
use sdkwork_payment::params::PaymentParams;
use sdkwork_payment::provider::{
    cancel_reference, cashier_url_from_provider, normalize_provider_code, payment_params_from_provider,
    provider_call_is_skipped, provider_not_configured, PaymentAdapterOperation, PaymentProviderOperationOutcome,
    ProviderError,
};
use sdkwork_payment::owner_payment::order_payment_reference_from_stored;
use sdkwork_payment::queries::{
    parse_scene_codes_csv, payment_method_item_from_stored, scene_code_filter_from_client_type, wire_product_type_display_name, PaymentMethodListQuery,
};
use sdkwork_payment::status::{PaymentStatus, RefundStatus};
use sdkwork_payment::text::{optional_text, split_by, split_once, str_lt};
use sdkwork_payment::webhook::stable_scoped_hash;

fn params(entries: &[(&str, &str)]) -> PaymentParams {
    let mut p = PaymentParams::new();
    for (k, v) in entries {
        p.insert((*k).to_owned(), (*v).to_owned());
    }
    p
}

#[test]
fn every_status_is_read_back_from_its_wire_value() {
    for status in [
        PaymentStatus::Created,
        PaymentStatus::Pending,
        PaymentStatus::Succeeded,
        PaymentStatus::Failed,
        PaymentStatus::Closed,
        PaymentStatus::Refunding,
        PaymentStatus::Refunded,
    ] {
        assert_eq!(PaymentStatus::from_wire(status.as_wire()), Ok(status));
    }
    for status in [
        RefundStatus::Requested,
        RefundStatus::Processing,
        RefundStatus::Succeeded,
        RefundStatus::Failed,
        RefundStatus::Closed,
    ] {
        assert_eq!(RefundStatus::from_wire(status.as_wire()), Ok(status));
    }
    assert_eq!(PaymentStatus::from_wire(" PAID "), Ok(PaymentStatus::Succeeded));
    assert_eq!(
        PaymentStatus::from_wire(" Odd ").unwrap_err(),
        ServiceError::validation("unknown payment status: odd")
    );
}

#[test]
fn storage_identities_are_safe_and_deterministic() {
    let id = stable_storage_id(&["pi", "tenant 1", "order/1", "键"]);
    assert_eq!(id, "pi-tenant-1-order-1--");
    assert!(id.chars().all(|c| c.is_ascii_alphanumeric() || c == '-' || c == '_' || c == '.'));
    assert_eq!(payment_intent_id("t", "o", "k"), "payment-intent-t-o-k");
    assert_eq!(payment_attempt_id("t", "pi", "k"), "payment-attempt-t-pi-k");
    assert_eq!(byte_prefix("ab键cd", 2), "ab");
    assert_eq!(byte_prefix("ab键cd", 5), "ab键");
    assert_eq!(byte_prefix("abc", 24), "abc");
}

#[test]
fn scoped_hashes_frame_each_part() {
    assert_eq!(
        stable_scoped_hash("x-", &["ab", "c"]),
        "x-b5d7228819ade6cbad5b913f334f383c90e29a160b0871ea1b257a8600588f74"
    );
    assert_ne!(stable_scoped_hash("x-", &["ab", "c"]), stable_scoped_hash("x-", &["a", "bc"]));
}

#[test]
fn intent_statuses_gate_cancel_and_attempts() {
    assert!(intent_order_status_is_payable(" UNPAID "));
    assert!(!intent_order_status_is_payable("draft"));
    assert_eq!(
        ensure_intent_cancelable("Succeeded").unwrap_err(),
        ServiceError::conflict("payment intent is not cancelable")
    );
    assert!(ensure_intent_cancelable("pending").is_ok());
    assert_eq!(
        ensure_intent_attemptable("canceled").unwrap_err(),
        ServiceError::conflict("payment intent is not attemptable")
    );
    assert_eq!(attempt_out_trade_no("SN1", "a-b-c"), "OT-SN1-abc");
}

#[test]
fn attempts_close_and_account_sources() {
    assert!(ensure_attempt_close_persisted(1, None).is_ok());
    assert!(ensure_attempt_close_persisted(0, Some("Canceled")).is_ok());
    assert_eq!(
        ensure_attempt_close_persisted(0, Some("paid")).unwrap_err(),
        ServiceError::conflict("payment attempt completed while it was being closed")
    );
    assert_eq!(
        ensure_attempt_close_persisted(0, Some(" Pending ")).unwrap_err(),
        ServiceError::storage("payment attempt close was not persisted from status pending")
    );
    assert_eq!(
        ensure_attempt_close_persisted(2, None).unwrap_err(),
        ServiceError::storage("payment attempt close updated 2 rows; expected at most one")
    );
    assert_eq!(attempt_account_source(" SANDBOX ", Some("acc"), true), AttemptAccountSource::Deployment);
    assert_eq!(
        attempt_account_source("alipay", Some("acc"), true),
        AttemptAccountSource::ExistingAccount("acc".to_owned())
    );
    assert_eq!(attempt_account_source("alipay", None, true), AttemptAccountSource::Deployment);
    assert_eq!(
        attempt_account_source("alipay", None, false),
        AttemptAccountSource::ActiveAccount("alipay".to_owned())
    );
    assert_eq!(merchant_account_match(0), Ok(false));
    assert_eq!(merchant_account_match(1), Ok(true));
    assert_eq!(
        merchant_account_match(2).unwrap_err(),
        ServiceError::conflict("multiple active payment provider accounts match merchant identity")
    );
}

#[test]
fn attempt_outcomes_and_stored_intents() {
    let outcome = CreateOwnerPaymentAttemptOutcome {
        attempt_id: "pa-1".to_owned(),
        payment_intent_id: "pi-1".to_owned(),
        order_id: "order-1".to_owned(),
        out_trade_no: "OT-1".to_owned(),
        amount: Money::new("10").unwrap(),
        payment_method: "wechat_pay".to_owned(),
        provider_code: "sandbox".to_owned(),
        status: "pending".to_owned(),
        payment_params: params(&[("cashierUrl", "https://pay")]),
    };
    let pay = attempt_outcome_to_pay_outcome(outcome);
    assert_eq!(pay.payment_id, "pa-1");
    assert_eq!(pay.payment_params.get("providerCode").as_deref(), Some("sandbox"));
    assert_eq!(pay.payment_params.get("cashierUrl").as_deref(), Some("https://pay"));

    let view = payment_intent_view_from_stored(
        "pi-1".to_owned(),
        "order-1".to_owned(),
        "PAY-1".to_owned(),
        "wechat_pay".to_owned(),
        "sandbox".to_owned(),
        " 10.5 ",
        "CNY".to_owned(),
        "pending".to_owned(),
    )
    .unwrap();
    assert_eq!(view.amount.as_str(), "10.5");
}

#[test]
fn callback_payloads_keep_provider_facts() {
    assert_eq!(
        provider_transaction_id_from_callback_payload(r#"{"provider_transaction_id":" tx-1 "}"#).as_deref(),
        Some("tx-1")
    );
    assert_eq!(provider_transaction_id_from_callback_payload(r#"{"providerTransactionId":" "}"#), None);
    assert_eq!(provider_transaction_id_from_callback_payload("nope"), None);

    let facts = params(&[("providerTransactionId", "tx-9"), ("providerStatus", "WAIT")]);
    let merged = merge_callback_payload_patch(r#"{"a":1,"providerStatus":"OLD"}"#, &facts);
    assert_eq!(merged, r#"{"a":1,"providerStatus":"WAIT","providerTransactionId":"tx-9"}"#);
    assert_eq!(merge_callback_payload_patch("[1]", &facts), "[1]");
    assert_eq!(
        merge_callback_payload_patch("not json", &params(&[("providerStatus", "WAIT")])),
        r#"{"providerStatus":"WAIT"}"#
    );
    assert!(matches!(metadata_from_text("broken"), JsonValue::Object(ms) if ms.is_empty()));
    assert!(matches!(metadata_from_text(r#"{"k":"v"}"#), JsonValue::Object(ms) if ms.len() == 1));
}

#[test]
fn credential_cipher_identity_and_scope() {
    assert_eq!(
        LocalFilePaymentCredentialCipher::from_key_material(vec![1u8; 31]).err().as_deref(),
        Some("payment credential master key is invalid")
    );
    let cipher = LocalFilePaymentCredentialCipher::from_key_material(vec![b'a'; 32]).unwrap();
    assert_eq!(cipher.key_id(), "local-3ba3f5f43b926026");
    assert_eq!(cipher.master_key(), &[b'a'; 32][..]);
    let scope = CredentialCipherScope {
        tenant_id: "tenant-a",
        provider_account_id: "account-a",
        credential_kind: "merchant_private_key",
    };
    assert_eq!(derivation_info(&scope), "tenant=tenant-a;account=account-a;kind=merchant_private_key");
    let record = encrypted_credential(&cipher, "ct".to_owned(), "real-secret");
    assert_eq!(record.encryption_key_id, "local-3ba3f5f43b926026");
    assert_eq!(record.encryption_algorithm, PAYMENT_CREDENTIAL_ALGORITHM);
    assert_eq!(record.fingerprint_sha256, "d2fb68516a97ee22fa0b77033159b3c13d8a851c92049eb81a2e0d95289fecee");
    assert!(ensure_decryptable(&cipher, "local-3ba3f5f43b926026", PAYMENT_CREDENTIAL_ALGORITHM).is_ok());
    assert_eq!(
        ensure_decryptable(&cipher, "local-other", PAYMENT_CREDENTIAL_ALGORITHM).err().as_deref(),
        Some("payment credential encryption key is unavailable")
    );
}

#[test]
fn provider_helpers_normalise_and_report() {
    assert_eq!(normalize_provider_code(" WeChat_Pay "), "wechat_pay");
    assert!(provider_call_is_skipped("sandbox"));
    assert!(!provider_call_is_skipped(" Sandbox "));
    assert!(provider_call_is_skipped(""));
    assert!(!provider_call_is_skipped("alipay"));
    assert_eq!(provider_not_configured("stripe").code(), "provider-unavailable");
    assert_eq!(cancel_reference("stripe", "OT-1", Some("pi_1")), "pi_1");
    assert_eq!(cancel_reference("alipay", "OT-1", Some("2026T")), "OT-1");
    let error = ProviderError::UnsupportedCapability {
        provider_code: "wechat_pay".to_owned(),
        operation: PaymentAdapterOperation::CreateRefund,
    };
    assert_eq!(error.into_service_error().code(), "provider-unavailable");
}

#[test]
fn provider_outcomes_become_pay_parameters() {
    let outcome = PaymentProviderOperationOutcome {
        provider_code: "stripe".to_owned(),
        native_id: Some("pi_1".to_owned()),
        raw_status: Some("requires_payment_method".to_owned()),
        payload: JsonValue::Object(vec![("client_secret".to_owned(), JsonValue::Str("secret".to_owned()))]),
    };
    let params = payment_params_from_provider("stripe", &outcome);
    assert_eq!(params.get("providerTransactionId").as_deref(), Some("pi_1"));
    assert_eq!(params.get("providerStatus").as_deref(), Some("requires_payment_method"));
    assert_eq!(cashier_url_from_provider("stripe", &outcome).as_deref(), Some("stripe://payment_intent/pi_1"));
}

#[test]
fn scene_codes_and_queries() {
    assert_eq!(parse_scene_codes_csv(" web, app ,,h5 "), vec!["web".to_owned(), "app".to_owned(), "h5".to_owned()]);
    assert_eq!(wire_product_type_display_name("pc"), "PC");
    assert_eq!(scene_code_filter_from_client_type(Some("  ")), None);
    let query = PaymentMethodListQuery::new(" tenant-1 ", Some(" ")).unwrap();
    assert_eq!(query.tenant_id, "tenant-1");
    assert_eq!(query.organization_id, None);
    let paged = query.with_paging(-5, 1000);
    assert_eq!((paged.offset, paged.limit), (0, 200));
    assert_eq!(PaymentMethodListQuery::new(" ", None).unwrap_err(), ServiceError::validation("tenant_id is required"));
}

#[test]
fn text_helpers_follow_std() {
    assert_eq!(optional_text(Some("  x ")).as_deref(), Some("x"));
    assert_eq!(optional_text(Some("   ")), None);
    assert_eq!(split_once("a=b=c", '='), Some(("a", "b=c")));
    assert_eq!(split_by("a&&b", '&'), vec!["a".to_owned(), String::new(), "b".to_owned()]);
    assert!(str_lt("ab", "b"));
    assert!(str_lt("a", "ab"));
    assert!(!str_lt("b", "b"));
}

#[test]
fn stored_rows_become_catalogue_items_and_order_views() {
    let item = payment_method_item_from_stored(
        "m-1".to_owned(),
        "wechat_pay".to_owned(),
        "WeChat Pay".to_owned(),
        "wechat_pay".to_owned(),
        "web, app,",
        3,
    );
    assert_eq!(item.scene_codes, vec!["web".to_owned(), "app".to_owned()]);
    assert_eq!(item.sort_order, 3);
    let order = order_payment_reference_from_stored(
        "order-1".to_owned(),
        "SN1".to_owned(),
        None,
        "paid".to_owned(),
        " 12.30 ",
        Some("2026-01-01T00:00:00Z".to_owned()),
    );
    assert_eq!(order.total_amount.as_str(), "12.30");
    let broken = order_payment_reference_from_stored(
        "order-1".to_owned(),
        "SN1".to_owned(),
        None,
        "paid".to_owned(),
        "abc",
        None,
    );
    assert_eq!(broken.total_amount.as_str(), "0");
}

#[test]
fn status_reading_ignores_padding_and_case() {
    for w in ["pending", "Succeeded", "cancelled", "refunding", "odd"] {
        let padded = format!(" {}\t", w.to_ascii_uppercase());
        assert_eq!(PaymentStatus::from_wire(&padded), PaymentStatus::from_wire(w));
    }
    assert_eq!(RefundStatus::from_wire(" SUBMITTED "), Ok(RefundStatus::Requested));
}
