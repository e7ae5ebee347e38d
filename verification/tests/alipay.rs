use sdkwork_payment::alipay::{
    plan_alipay_refund_query, plan_alipay_trade_lookup, PaymentQueryRefundRequest, PaymentTradeRequest,
    alipay_gateway_params, alipay_gateway_url, alipay_method_for_key, alipay_operation_outcome,
    alipay_response_payload, build_alipay_biz_content, form_fields_to_json, normalize_alipay_webhook,
    plan_alipay_payment, plan_alipay_refund, require_cny, verify_alipay_webhook, with_redirect_url,
    AlipayPaymentProviderConfig, PaymentCreateIntentRequest, PaymentCreateRefundRequest, RsaAlipaySigner,
    ALIPAY_GATEWAY_URL, ALIPAY_SANDBOX_GATEWAY_URL,
};
use rsa::pkcs8::{EncodePrivateKey, EncodePublicKey, LineEnding};
use sdkwork_payment::form::{canonical_payload, form_value, parse_form_body};
use sdkwork_payment::json::JsonValue;
use sdkwork_payment::provider::{PaymentAdapterOperation, ProviderError};

/// A deterministic generator for test keys, so that no key text is kept in
/// the sources.
struct TestRng(u64);

impl rsa::rand_core::RngCore for TestRng {
    fn next_u32(&mut self) -> u32 {
        self.next_u64() as u32
    }

    fn next_u64(&mut self) -> u64 {
        self.0 ^= self.0 << 13;
        self.0 ^= self.0 >> 7;
        self.0 ^= self.0 << 17;
        self.0
    }

    fn fill_bytes(&mut self, dest: &mut [u8]) {
        for chunk in dest.chunks_mut(8) {
            let bytes = self.next_u64().to_le_bytes();
            chunk.copy_from_slice(&bytes[..chunk.len()]);
        }
    }

    fn try_fill_bytes(&mut self, dest: &mut [u8]) -> Result<(), rsa::rand_core::Error> {
        self.fill_bytes(dest);
        Ok(())
    }
}

impl rsa::rand_core::CryptoRng for TestRng {}

/// A 1024-bit key pair made from `seed`: the PKCS#8 PEM private key and the
/// PEM public key.
fn key_pair(seed: u64) -> (String, String) {
    let mut rng = TestRng(seed);
    let private_key = rsa::RsaPrivateKey::new(&mut rng, 1024).expect("test key");
    let private_pem = private_key.to_pkcs8_pem(LineEnding::LF).expect("private pem").to_string();
    let public_pem = private_key.to_public_key().to_public_key_pem(LineEnding::LF).expect("public pem");
    (private_pem, public_pem)
}

fn text(v: &str) -> JsonValue {
    JsonValue::Str(v.to_owned())
}

fn object(members: &[(&str, JsonValue)]) -> JsonValue {
    JsonValue::Object(members.iter().map(|(k, v)| ((*k).to_owned(), clone_json(v))).collect())
}

fn clone_json(v: &JsonValue) -> JsonValue {
    match v {
        JsonValue::Null => JsonValue::Null,
        JsonValue::Bool(b) => JsonValue::Bool(*b),
        JsonValue::Number(n) => JsonValue::Number(n.clone()),
        JsonValue::Str(s) => JsonValue::Str(s.clone()),
        JsonValue::Array(items) => JsonValue::Array(items.iter().map(clone_json).collect()),
        JsonValue::Object(ms) => JsonValue::Object(ms.iter().map(|(k, v)| (k.clone(), clone_json(v))).collect()),
    }
}

fn member<'a>(value: &'a JsonValue, key: &str) -> Option<&'a str> {
    match value {
        JsonValue::Object(members) => members.iter().rev().find(|(k, _)| k == key).and_then(|(_, v)| match v {
            JsonValue::Str(s) => Some(s.as_str()),
            _ => None,
        }),
        _ => None,
    }
}

fn config() -> AlipayPaymentProviderConfig {
    AlipayPaymentProviderConfig {
        app_id: "2021000000000001".to_owned(),
        notify_url: Some(" https://pay.example.test/alipay ".to_owned()),
        return_url: None,
        sandbox: true,
    }
}

fn request(scene: Option<&str>, metadata: JsonValue) -> PaymentCreateIntentRequest {
    PaymentCreateIntentRequest {
        tenant_id: Some("tenant-1".to_owned()),
        merchant_order_no: Some("OT-1".to_owned()),
        amount_minor: Some(1990),
        currency: Some("cny".to_owned()),
        payment_scene: scene.map(str::to_owned),
        metadata,
    }
}

fn signer() -> RsaAlipaySigner {
    let (private_pem, public_pem) = key_pair(0x9e37_79b9_7f4a_7c15);
    RsaAlipaySigner::from_pkcs8_pem(&private_pem, &public_pem).expect("signer")
}

fn invalid_request_message<T>(r: Result<T, ProviderError>) -> String {
    match r {
        Err(ProviderError::InvalidRequest { message, .. }) => message,
        _ => panic!("expected an invalid request"),
    }
}

#[test]
fn gateway_and_methods_follow_the_configuration() {
    assert_eq!(alipay_gateway_url(&config()).unwrap(), ALIPAY_SANDBOX_GATEWAY_URL);
    let mut live = config();
    live.sandbox = false;
    assert_eq!(alipay_gateway_url(&live).unwrap(), ALIPAY_GATEWAY_URL);
    live.app_id = " ".to_owned();
    assert_eq!(invalid_request_message(alipay_gateway_url(&live)), "Alipay app_id is required");
    assert_eq!(alipay_method_for_key("alipay_pc"), ("alipay.trade.page.pay", None));
    assert_eq!(alipay_method_for_key("whatever"), ("alipay.trade.precreate", Some("qr_code")));
    assert!(require_cny(Some(" Cny "), PaymentAdapterOperation::CreatePaymentIntent).is_ok());
    assert_eq!(
        invalid_request_message(require_cny(Some("USD"), PaymentAdapterOperation::CreatePaymentIntent)),
        "Alipay domestic baseline currently supports CNY only"
    );
}

#[test]
fn payment_plan_builds_the_biz_content() {
    let plan = plan_alipay_payment(
        &config(),
        &request(Some("alipay_pc"), object(&[("subject", text("Gold")), ("return_url", text("https://back"))])),
    )
    .unwrap();
    assert_eq!(plan.api_method, "alipay.trade.page.pay");
    assert_eq!(plan.return_field, None);
    assert_eq!(member(&plan.biz_content, "out_trade_no"), Some("OT-1"));
    assert_eq!(member(&plan.biz_content, "total_amount"), Some("19.90"));
    assert_eq!(member(&plan.biz_content, "subject"), Some("Gold"));
    assert_eq!(member(&plan.biz_content, "passback_params"), Some("tenant_id=tenant-1"));
    assert_eq!(member(&plan.biz_content, "notify_url"), Some("https://pay.example.test/alipay"));
    assert_eq!(member(&plan.biz_content, "return_url"), Some("https://back"));

    let qr = plan_alipay_payment(&config(), &request(None, JsonValue::Null)).unwrap();
    assert_eq!(qr.api_method, "alipay.trade.precreate");
    assert_eq!(qr.return_field, Some("qr_code"));
    assert_eq!(member(&qr.biz_content, "subject"), Some("OT-1"));
}

#[test]
fn payment_plan_refuses_incomplete_requests() {
    let mut no_order = request(None, JsonValue::Null);
    no_order.merchant_order_no = Some(" ".to_owned());
    assert_eq!(invalid_request_message(plan_alipay_payment(&config(), &no_order)), "merchant_order_no is required");
    let mut no_amount = request(None, JsonValue::Null);
    no_amount.amount_minor = Some(0);
    assert_eq!(
        invalid_request_message(plan_alipay_payment(&config(), &no_amount)),
        "amount_minor must be greater than zero"
    );
    let mut no_currency = request(None, JsonValue::Null);
    no_currency.currency = None;
    assert_eq!(invalid_request_message(plan_alipay_payment(&config(), &no_currency)), "currency is required");
    assert_eq!(
        invalid_request_message(plan_alipay_payment(&config(), &request(Some("alipay_face"), JsonValue::Null))),
        "unsupported alipay method_key: alipay_face"
    );
    assert_eq!(
        invalid_request_message(plan_alipay_payment(&config(), &request(Some("alipay_jsapi"), JsonValue::Null))),
        "alipay_jsapi requires metadata.buyer_id (buyer's openid)"
    );
    let jsapi =
        plan_alipay_payment(&config(), &request(Some("alipay_jsapi"), object(&[("buyer_open_id", text("buyer-1"))])))
            .unwrap();
    assert_eq!(member(&jsapi.biz_content, "buyer_id"), Some("buyer-1"));
    assert!(build_alipay_biz_content("OT", 1, "s", None, None, "alipay_app", &JsonValue::Null).is_ok());
}

#[test]
fn refund_plan_builds_the_biz_content() {
    let refund = plan_alipay_refund(&PaymentCreateRefundRequest {
        payment_intent_id: Some(" OT-1 ".to_owned()),
        refund_no: Some("RF-1".to_owned()),
        amount_minor: Some(5),
        reason: Some(" ".to_owned()),
        metadata: JsonValue::Null,
    })
    .unwrap();
    assert_eq!(member(&refund, "out_trade_no"), Some("OT-1"));
    assert_eq!(member(&refund, "refund_amount"), Some("0.05"));
    assert_eq!(member(&refund, "out_request_no"), Some("RF-1"));
    assert_eq!(member(&refund, "refund_reason"), None);
    let missing = plan_alipay_refund(&PaymentCreateRefundRequest {
        payment_intent_id: Some("OT-1".to_owned()),
        refund_no: None,
        amount_minor: Some(5),
        reason: None,
        metadata: JsonValue::Null,
    });
    assert_eq!(invalid_request_message(missing), "refund_no is required");
}

#[test]
fn gateway_answers_are_unwrapped_and_checked() {
    let answer = object(&[(
        "alipay_trade_query_response",
        object(&[("code", text("10000")), ("trade_no", text("2026T1")), ("trade_status", text("TRADE_SUCCESS"))]),
    )]);
    let response = alipay_response_payload("alipay.trade.query", answer).unwrap();
    let outcome = alipay_operation_outcome(PaymentAdapterOperation::QueryPaymentIntent, response).unwrap();
    assert_eq!(outcome.provider_code, "alipay");
    assert_eq!(outcome.native_id.as_deref(), Some("2026T1"));
    assert_eq!(outcome.raw_status.as_deref(), Some("TRADE_SUCCESS"));

    let failed = object(&[(
        "alipay_trade_query_response",
        object(&[("code", text("40004")), ("msg", text("Business Failed")), ("sub_msg", text("trade not exist"))]),
    )]);
    match alipay_response_payload("alipay.trade.query", failed) {
        Err(ProviderError::Transport { provider_code, message }) => {
            assert_eq!(provider_code, "alipay");
            assert_eq!(message, "Alipay alipay.trade.query failed (40004): trade not exist");
        }
        _ => panic!("expected a transport error"),
    }
    match alipay_operation_outcome(PaymentAdapterOperation::QueryPaymentIntent, object(&[])) {
        Err(ProviderError::InvalidResponse { message, .. }) => {
            assert_eq!(message, "Alipay response is missing trade id")
        }
        _ => panic!("expected an invalid response"),
    }
    let linked = with_redirect_url(object(&[("qr_code", text("https://qr"))]), Some("qr_code"));
    assert_eq!(member(&linked, "redirect_url"), Some("https://qr"));
    assert_eq!(member(&linked, "qr_code"), Some("https://qr"));
}

#[test]
fn form_bodies_are_decoded_and_canonicalised() {
    let fields = parse_form_body(b"b=2&a=x+y&sign_type=RSA2&sign=abc&c=%E4%B8%AD", PaymentAdapterOperation::VerifyWebhook)
        .unwrap();
    assert_eq!(form_value(&fields, "a").as_deref(), Some("x y"));
    assert_eq!(form_value(&fields, "c").as_deref(), Some("中"));
    assert_eq!(canonical_payload(&fields, true), "a=x y&b=2&c=中");
    assert_eq!(canonical_payload(&fields, false), "a=x y&b=2&c=中&sign_type=RSA2");
    let json = form_fields_to_json(&fields);
    assert_eq!(member(&json, "b"), Some("2"));
    assert!(parse_form_body(&[0xff, 0xfe], PaymentAdapterOperation::VerifyWebhook).is_err());
    assert!(parse_form_body(b"a=%ff", PaymentAdapterOperation::VerifyWebhook).is_err());
}

#[test]
fn signed_notifications_verify_and_tampered_ones_do_not() {
    let signer = signer();
    let unsigned = "notify_id=N-1&out_trade_no=OT-1&trade_status=TRADE_SUCCESS";
    let fields = parse_form_body(unsigned.as_bytes(), PaymentAdapterOperation::VerifyWebhook).unwrap();
    let signature = signer.sign(&canonical_payload(&fields, true)).unwrap();
    let body = format!("{unsigned}&sign_type=RSA2&sign={}", urlencoding::encode(&signature));
    let outcome = verify_alipay_webhook(&signer, body.as_bytes()).unwrap();
    assert!(outcome.verified);
    assert_eq!(outcome.provider_event_id.as_deref(), Some("N-1"));

    let tampered = body.replace("OT-1", "OT-2");
    let outcome = verify_alipay_webhook(&signer, tampered.as_bytes()).unwrap();
    assert!(!outcome.verified);
    assert_eq!(outcome.provider_event_id, None);

    let (merchant_private, _) = key_pair(0x9e37_79b9_7f4a_7c15);
    let (_, other_public) = key_pair(0x2545_f491_4f6c_dd1d);
    let other = RsaAlipaySigner::from_pkcs8_pem(&merchant_private, &other_public).unwrap();
    assert!(!verify_alipay_webhook(&other, body.as_bytes()).unwrap().verified);
    assert_eq!(
        invalid_request_message(verify_alipay_webhook(&signer, unsigned.as_bytes())),
        "Alipay webhook sign is required"
    );
    let bad_encoding = format!("{unsigned}&sign=%25%25%25");
    assert!(invalid_request_message(verify_alipay_webhook(&signer, bad_encoding.as_bytes()))
        .starts_with("invalid Alipay signature encoding: "));

    let event = normalize_alipay_webhook(body.as_bytes()).unwrap();
    assert_eq!(event.provider_code, "alipay");
    assert_eq!(event.provider_event_id.as_deref(), Some("N-1"));
    assert_eq!(event.payment_status.as_deref(), Some("TRADE_SUCCESS"));
    assert_eq!(event.out_trade_no.as_deref(), Some("OT-1"));
}

#[test]
fn signer_rejects_unreadable_keys() {
    let (merchant_private, merchant_public) = key_pair(0x9e37_79b9_7f4a_7c15);
    assert!(invalid_request_message(RsaAlipaySigner::from_pkcs8_pem("not a key", &merchant_public))
        .starts_with("invalid Alipay merchant private key: "));
    assert!(invalid_request_message(RsaAlipaySigner::from_pkcs8_pem(&merchant_private, "not a key"))
        .starts_with("invalid Alipay platform public key: "));
}

#[test]
fn gateway_parameters_are_signed_over_their_canonical_text() {
    let signer = signer();
    let biz = object(&[("out_trade_no", text("OT-1"))]);
    let params = alipay_gateway_params("2021", "alipay.trade.query", "2026-01-01 00:00:00", &biz, &signer).unwrap();
    assert_eq!(params.len(), 9);
    assert_eq!(params[0], ("app_id".to_owned(), "2021".to_owned()));
    assert_eq!(params[7], ("biz_content".to_owned(), r#"{"out_trade_no":"OT-1"}"#.to_owned()));
    let (name, signature) = &params[8];
    assert_eq!(name, "sign");
    assert!(signer.verify(&canonical_payload(&params, false), signature).unwrap());
    assert!(!signer.verify("something else", signature).unwrap());
}

#[test]
fn trade_and_refund_lookups_name_the_trade() {
    let request = PaymentTradeRequest { payment_intent_id: Some(" OT-1 ".to_owned()), metadata: JsonValue::Null };
    let (method, biz) = plan_alipay_trade_lookup(&request, PaymentAdapterOperation::QueryPaymentIntent).unwrap();
    assert_eq!(method, "alipay.trade.query");
    assert_eq!(member(&biz, "out_trade_no"), Some("OT-1"));
    let (method, _) = plan_alipay_trade_lookup(&request, PaymentAdapterOperation::CancelPaymentIntent).unwrap();
    assert_eq!(method, "alipay.trade.close");
    let missing = PaymentTradeRequest { payment_intent_id: None, metadata: JsonValue::Null };
    assert_eq!(
        invalid_request_message(plan_alipay_trade_lookup(&missing, PaymentAdapterOperation::CancelPaymentIntent)),
        "payment_intent_id is required"
    );

    let refund = PaymentQueryRefundRequest {
        refund_no: Some("RF-1".to_owned()),
        metadata: object(&[("out_trade_no", text("OT-1"))]),
    };
    let biz = plan_alipay_refund_query(&refund).unwrap();
    assert_eq!(member(&biz, "out_trade_no"), Some("OT-1"));
    assert_eq!(member(&biz, "out_request_no"), Some("RF-1"));
    let no_trade = PaymentQueryRefundRequest { refund_no: Some("RF-1".to_owned()), metadata: JsonValue::Null };
    assert_eq!(invalid_request_message(plan_alipay_refund_query(&no_trade)), "metadata.out_trade_no is required");
}


