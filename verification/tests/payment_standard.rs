use sdkwork_payment::error::ServiceError;
use sdkwork_payment::intent::{
    CreatePaymentIntentCommand, PaymentIntentDraft, PaymentProviderCommand, PaymentProviderPort,
    PaymentProviderPortRequirement, SandboxPaymentProvider,
};
use sdkwork_payment::money::Money;
use sdkwork_payment::queries::wire_product_types_from_scene_codes;
use sdkwork_payment::status::{
    validate_payment_wire_transition, validate_refund_wire_transition, PaymentStatus, PaymentTransition,
    RefundStatus, RefundTransition,
};

#[test]
fn payment_standard_creates_payment_intent_with_method_provider_and_order_reference() {
    let intent = PaymentIntentDraft::new(
        "100001",
        "order-1",
        "wechat_pay",
        "wechat_pay",
        Money::new("19.90").unwrap(),
        "idem-1",
    )
    .unwrap();

    assert_eq!(intent.order_id, "order-1");
    assert_eq!(intent.payment_method, "wechat_pay");
    assert_eq!(intent.provider_code, "wechat_pay");
    assert_eq!(intent.amount.as_str(), "19.90");
}

#[test]
fn creates_payment_intent_with_method_provider_and_order_reference() {
    let intent = PaymentIntentDraft::new(
        "tenant-1",
        "order-1",
        "wechat_pay",
        "wechat_pay",
        Money::new("19.90").unwrap(),
        "idem-1",
    )
    .unwrap();

    assert_eq!(intent.tenant_id, "tenant-1");
    assert_eq!(intent.order_id, "order-1");
    assert_eq!(intent.payment_method, "wechat_pay");
    assert_eq!(intent.provider_code, "wechat_pay");
    assert_eq!(intent.amount.as_str(), "19.90");
    assert_eq!(intent.idempotency_key, "idem-1");
}

// The draft and the command keep the payment method and the provider code
// as two separate fields.
#[test]
fn payment_standard_payment_domain_contract_uses_explicit_method_and_provider_code_fields() {
    let draft = PaymentIntentDraft::new(
        "100001",
        "order-1",
        "wechat_pay",
        "sandbox",
        Money::new("1.00").unwrap(),
        "idem-1",
    )
    .unwrap();
    assert_eq!(draft.payment_method, "wechat_pay");
    assert_eq!(draft.provider_code, "sandbox");

    let command = CreatePaymentIntentCommand {
        tenant_id: "100001".to_string(),
        order_id: "order-1".to_string(),
        payment_method: "alipay_pc".to_string(),
        provider_code: "alipay".to_string(),
        amount: Money::new("1.00").unwrap(),
        idempotency_key: "idem-1".to_string(),
    };
    assert_eq!(command.payment_method, "alipay_pc");
    assert_eq!(command.provider_code, "alipay");
    assert_ne!(command.payment_method, command.provider_code);
}

#[test]
fn payment_domain_contract_uses_explicit_method_and_provider_code_fields() {
    let draft = PaymentIntentDraft::new(
        "tenant-1",
        "order-1",
        "Alipay_PC",
        " ALIPAY ",
        Money::new("1.00").unwrap(),
        "idem-1",
    )
    .unwrap();
    assert_eq!(draft.payment_method, "alipay_pc");
    assert_eq!(draft.provider_code, "alipay");
}

#[test]
fn payment_standard_validates_payment_status_lifecycle() {
    assert_eq!(
        PaymentTransition::new(PaymentStatus::Created, PaymentStatus::Pending).validate(),
        Ok(())
    );
    assert_eq!(
        PaymentTransition::new(PaymentStatus::Succeeded, PaymentStatus::Pending).validate(),
        Err(ServiceError::invalid_state("invalid payment status transition"))
    );
}

#[test]
fn validates_payment_status_lifecycle() {
    assert_eq!(
        PaymentTransition::new(PaymentStatus::Created, PaymentStatus::Pending).validate(),
        Ok(())
    );
    assert_eq!(
        PaymentTransition::new(PaymentStatus::Succeeded, PaymentStatus::Pending).validate(),
        Err(ServiceError::invalid_state("invalid payment status transition"))
    );
}

#[test]
fn payment_standard_validates_refund_status_lifecycle() {
    assert_eq!(
        RefundTransition::new(RefundStatus::Requested, RefundStatus::Processing).validate(),
        Ok(())
    );
    assert!(RefundTransition::new(RefundStatus::Succeeded, RefundStatus::Processing)
        .validate()
        .is_err());
}

#[test]
fn validates_refund_status_lifecycle() {
    assert_eq!(
        RefundTransition::new(RefundStatus::Requested, RefundStatus::Processing).validate(),
        Ok(())
    );
    assert!(RefundTransition::new(RefundStatus::Succeeded, RefundStatus::Processing)
        .validate()
        .is_err());
}

#[test]
fn payment_standard_payment_provider_contract_exposes_required_commands() {
    assert_eq!(
        PaymentProviderPortRequirement::standard_commands(),
        vec![
            PaymentProviderCommand::CreatePaymentIntent,
            PaymentProviderCommand::QueryPaymentStatus,
            PaymentProviderCommand::ClosePayment,
            PaymentProviderCommand::Refund,
            PaymentProviderCommand::VerifyWebhook,
        ],
    );
}

#[test]
fn payment_provider_contract_exposes_required_commands() {
    assert_eq!(
        PaymentProviderPortRequirement::standard_commands(),
        vec![
            PaymentProviderCommand::CreatePaymentIntent,
            PaymentProviderCommand::QueryPaymentStatus,
            PaymentProviderCommand::ClosePayment,
            PaymentProviderCommand::Refund,
            PaymentProviderCommand::VerifyWebhook,
        ],
    );
}

#[test]
fn validates_payment_wire_transitions() {
    assert!(validate_payment_wire_transition("pending", "canceled").is_ok());
    assert!(validate_payment_wire_transition("succeeded", "pending").is_err());
}

#[test]
fn validates_refund_wire_transitions() {
    assert!(validate_refund_wire_transition(None, "submitted").is_ok());
    assert!(validate_refund_wire_transition(Some("succeeded"), "submitted").is_err());
}

#[test]
fn maps_scene_codes_to_product_types() {
    let types = wire_product_types_from_scene_codes(&["web".to_string(), "app".to_string()]);
    let codes: Vec<_> = types.iter().map(|(code, _)| code.as_str()).collect();
    assert!(codes.contains(&"pc"));
    assert!(codes.contains(&"app"));
}

#[test]
fn sandbox_provider_creates_payment_intent_draft() {
    let provider = SandboxPaymentProvider;
    let command = CreatePaymentIntentCommand {
        tenant_id: "100001".to_string(),
        order_id: "order-1".to_string(),
        payment_method: "wechat_pay".to_string(),
        provider_code: "wechat_pay".to_string(),
        amount: Money::new("9.90").unwrap(),
        idempotency_key: "idem-1".to_string(),
    };
    let draft = PaymentProviderPort::create_payment_intent(&provider, &command).unwrap();
    assert_eq!(draft.order_id, "order-1");
    assert_eq!(draft.provider_code, "wechat_pay");
}

#[test]
fn sandbox_provider_reports_the_first_missing_field() {
    let provider = SandboxPaymentProvider;
    let command = CreatePaymentIntentCommand {
        tenant_id: "100001".to_string(),
        order_id: " ".to_string(),
        payment_method: "wechat_pay".to_string(),
        provider_code: "".to_string(),
        amount: Money::new("9.90").unwrap(),
        idempotency_key: "idem-1".to_string(),
    };
    let error = PaymentProviderPort::create_payment_intent(&provider, &command).unwrap_err();
    assert_eq!(error.code(), "validation");
    assert_eq!(error.message(), "order_id is required");
}

#[test]
fn lifecycle_changes_only_move_forward() {
    assert_eq!(
        PaymentTransition::new(PaymentStatus::Failed, PaymentStatus::Pending).validate(),
        Err(ServiceError::invalid_state("invalid payment status transition"))
    );
    assert!(PaymentTransition::new(PaymentStatus::Succeeded, PaymentStatus::Refunding).validate().is_ok());
    assert!(PaymentTransition::new(PaymentStatus::Refunded, PaymentStatus::Refunding).validate().is_err());
    assert!(RefundTransition::new(RefundStatus::Processing, RefundStatus::Succeeded).validate().is_ok());
    assert!(RefundTransition::new(RefundStatus::Closed, RefundStatus::Requested).validate().is_err());
    assert!(validate_payment_wire_transition("pending", "PENDING").is_ok());
    assert_eq!(
        validate_refund_wire_transition(Some("odd"), "submitted").unwrap_err(),
        ServiceError::validation("unknown refund status: odd")
    );
}
