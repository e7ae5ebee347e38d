use sdkwork_payment::backend::{
    backend_payment_intent_error_answer, backend_payment_intent_not_found, backend_payment_intent_page,
    map_payment_intent, BackendPaymentIntentListQuery, BackendPaymentIntentView,
};
use sdkwork_payment::error::ServiceError;
use sdkwork_payment::ids::{refund_id, stable_storage_id};
use sdkwork_payment::intent::PaymentRecordItem;
use sdkwork_payment::money::{format_money_minor, money_cents, money_to_minor_units, Money};
use sdkwork_payment::owner_payment::CreateOwnerRefundCommand;
use sdkwork_payment::record_status::{
    commerce_money_cell, order_recharge_status_label, payment_record_status, payment_record_status_label,
    payment_status_label, related_status_cell, required_status_cell, PaymentRecordStatusCells,
};
use sdkwork_payment::records::{
    create_payment_method, find_payment_record, format_payment_status_name, map_payment_record,
    map_payment_statistics, map_payment_status_code, paginate_items, payment_error_answer, reconcile_lookup,
    ReconcileLookup,
};
use sdkwork_payment::refund::{
    ensure_refund_can_fail, ensure_refund_can_process, ensure_refund_submission_claimed, plan_owner_refund,
    refund_event_identity, refund_payment_attempt_id, refund_view_from_stored, sum_refunded_minor,
    validate_refund_bounds,
};

fn refund_command(amount: Option<&str>) -> CreateOwnerRefundCommand {
    CreateOwnerRefundCommand::new(
        "100001",
        None,
        "user-1",
        "order-1",
        Some("pa-1"),
        amount,
        Some("buyer_request"),
        "req-refund-1",
        "idem-refund-1",
    )
    .unwrap()
}

fn record(order_id: &str, order_no: &str, status: &str) -> PaymentRecordItem {
    PaymentRecordItem::new("pay-1", order_id, order_no, "wechat_pay", Money::new("19.90").unwrap(), "2026-01-01", status)
        .unwrap()
}

fn view(id: &str) -> BackendPaymentIntentView {
    BackendPaymentIntentView {
        payment_intent_id: id.to_owned(),
        tenant_id: "tenant-1".to_owned(),
        organization_id: None,
        owner_user_id: "user-1".to_owned(),
        order_id: "order-1".to_owned(),
        payment_intent_no: "PAY-1".to_owned(),
        payment_method: "wechat_pay".to_owned(),
        provider_code: "wechat_pay".to_owned(),
        amount: "100".to_owned(),
        currency_code: "CNY".to_owned(),
        status: "pending".to_owned(),
        created_at: "2026-01-01".to_owned(),
        updated_at: "2026-01-01".to_owned(),
    }
}

#[test]
fn refund_plan_accepts_a_refund_within_what_remains() {
    let command = refund_command(Some("500"));
    let total = Money::new("1000").unwrap();
    let plan = plan_owner_refund(&command, "paid", Some("2026-01-01T00:00:00Z"), &total, "pa-1".to_owned(), 400).unwrap();
    assert_eq!(plan.amount_minor, 500);
    assert_eq!(plan.amount.as_str(), "500");
    assert_eq!(plan.refund_no, "RF-req-refund-1");
    assert_eq!(plan.refund_id, refund_id(&command));
    assert_eq!(plan.refund_id, stable_storage_id(&["refund", "100001", "order-1", "idem-refund-1"]));
    assert_eq!(plan.payment_attempt_id, "pa-1");
}

#[test]
fn refund_plan_rejects_what_exceeds_the_payment() {
    let total = Money::new("1000").unwrap();
    let paid = Some("2026-01-01T00:00:00Z");
    assert_eq!(
        plan_owner_refund(&refund_command(Some("500")), "paid", paid, &total, "pa-1".to_owned(), 600).unwrap_err(),
        ServiceError::conflict("refund amount exceeds remaining refundable amount")
    );
    assert_eq!(
        plan_owner_refund(&refund_command(Some("1001")), "paid", paid, &total, "pa-1".to_owned(), 0).unwrap_err(),
        ServiceError::conflict("refund amount exceeds original payment amount")
    );
    assert_eq!(
        plan_owner_refund(&refund_command(Some("0")), "paid", paid, &total, "pa-1".to_owned(), 0).unwrap_err(),
        ServiceError::validation("refund amount must be greater than zero")
    );
    assert_eq!(
        plan_owner_refund(&refund_command(Some("5.5")), "paid", paid, &total, "pa-1".to_owned(), 0).unwrap_err(),
        ServiceError::validation("money amount must be a non-negative integer smallest-unit amount")
    );
    assert_eq!(
        plan_owner_refund(&refund_command(None), "pending", paid, &total, "pa-1".to_owned(), 0).unwrap_err(),
        ServiceError::conflict("order is not eligible for refund")
    );
    let whole = plan_owner_refund(&refund_command(None), "paid", paid, &total, "pa-1".to_owned(), 0).unwrap();
    assert_eq!(whole.amount_minor, 1000);
}

#[test]
fn accepted_refunds_never_exceed_the_payment_in_total() {
    let total = Money::new("1000").unwrap();
    let paid = Some("2026-01-01T00:00:00Z");
    let mut already: i64 = 0;
    for amount in ["300", "300", "300", "300", "100"] {
        match plan_owner_refund(&refund_command(Some(amount)), "paid", paid, &total, "pa-1".to_owned(), already) {
            Ok(plan) => already += plan.amount_minor,
            Err(error) => assert_eq!(error.code(), "conflict"),
        }
        assert!(already <= 1000);
    }
    assert_eq!(already, 1000);
}

#[test]
fn refund_amounts_add_up_in_smallest_units() {
    assert_eq!(sum_refunded_minor(&["100".to_owned(), " 250 ".to_owned()]), Ok(350));
    assert_eq!(sum_refunded_minor(&[]), Ok(0));
    assert_eq!(
        sum_refunded_minor(&["100".to_owned(), "x".to_owned(), "".to_owned()]).unwrap_err(),
        ServiceError::validation("money amount must be a non-negative integer smallest-unit amount")
    );
    assert_eq!(
        sum_refunded_minor(&[i64::MAX.to_string(), "1".to_owned()]).unwrap_err(),
        ServiceError::validation("refunded amount sum overflows i64")
    );
    assert_eq!(money_to_minor_units(" ").unwrap_err(), ServiceError::validation("money amount must not be empty"));
    assert!(validate_refund_bounds(1, 1).is_ok());
}

#[test]
fn refund_attempt_and_event_identities() {
    let mut command = refund_command(None);
    assert_eq!(refund_payment_attempt_id(&command, Some("pa-latest".to_owned())), Ok("pa-1".to_owned()));
    command.payment_attempt_id = None;
    assert_eq!(refund_payment_attempt_id(&command, Some("pa-latest".to_owned())), Ok("pa-latest".to_owned()));
    assert_eq!(
        refund_payment_attempt_id(&command, None).unwrap_err(),
        ServiceError::not_found("payment attempt was not found")
    );
    let (id, no) = refund_event_identity("100001", "rf-1", "submitted", "req-1", "idem-1");
    assert_eq!(no, "RFE-submitted-req-1");
    assert_eq!(id, stable_storage_id(&["refund-event", "100001", "rf-1", "submitted", "idem-1"]));
}

#[test]
fn concurrent_failed_refund_retry_is_claimed_exactly_once() {
    assert!(ensure_refund_submission_claimed(1).is_ok());
    assert_eq!(
        ensure_refund_submission_claimed(0).unwrap_err(),
        ServiceError::conflict("refund is already processing or is not retryable")
    );
    assert!(ensure_refund_can_process("failed").is_ok());
    assert!(ensure_refund_can_process("submitted").is_ok());
    assert!(ensure_refund_can_fail("processing").is_ok());
    assert!(ensure_refund_can_fail("succeeded").is_err());
}

#[test]
fn stored_refund_amounts_must_be_well_formed() {
    let view = refund_view_from_stored(
        "rf-1".to_owned(),
        "RF-1".to_owned(),
        "order-1".to_owned(),
        "pa-1".to_owned(),
        " 12.5 ",
        "CNY".to_owned(),
        "submitted".to_owned(),
        None,
    )
    .unwrap();
    assert_eq!(view.amount.as_str(), "12.5");
    let error = refund_view_from_stored(
        "rf-1".to_owned(),
        "RF-1".to_owned(),
        "order-1".to_owned(),
        "pa-1".to_owned(),
        "-1",
        "CNY".to_owned(),
        "submitted".to_owned(),
        None,
    )
    .unwrap_err();
    assert_eq!(error, ServiceError::storage("invalid commerce money amount"));
}

#[test]
fn payment_records_show_status_codes_and_names() {
    assert_eq!(map_payment_status_code(" Success "), "SUCCESS");
    assert_eq!(map_payment_status_code("unknown"), "PENDING");
    assert_eq!(format_payment_status_name("TIMEOUT"), "Timeout");
    let response = map_payment_record(record("order-1", "OT-1", "failed"));
    assert_eq!(response.status, "FAILED");
    assert_eq!(response.status_name, "Failed");
    assert_eq!(response.out_trade_no, "OT-1");
    assert_eq!(response.amount, "19.90");
    assert_eq!(create_payment_method(None), "wechat_pay");
    assert_eq!(create_payment_method(Some("alipay")), "alipay");
}

#[test]
fn payment_statistics_count_every_record_once() {
    let items = vec![
        record("o1", "T1", "success"),
        record("o2", "T2", "failed"),
        record("o3", "T3", "timeout"),
        record("o4", "T4", "closed"),
        record("o5", "T5", "whatever"),
        record("o6", "T6", "SUCCESS"),
    ];
    let stats = map_payment_statistics(&items);
    assert_eq!(stats.total_payments, 6);
    assert_eq!(stats.success_payments, 2);
    assert_eq!(stats.pending_payments, 1);
    assert_eq!(
        stats.pending_payments
            + stats.success_payments
            + stats.failed_payments
            + stats.timeout_payments
            + stats.closed_payments,
        stats.total_payments
    );
}

#[test]
fn payment_record_pages_are_clamped() {
    let items: Vec<i32> = (0..250).collect();
    assert_eq!(paginate_items(items.clone(), None, None), (0..20).collect::<Vec<_>>());
    assert_eq!(paginate_items(items.clone(), Some(2), Some(500)).len(), 100);
    assert_eq!(paginate_items(items.clone(), Some(3), Some(100)), (200..250).collect::<Vec<_>>());
    assert_eq!(paginate_items(items.clone(), Some(0), Some(0)), vec![0]);
    assert!(paginate_items(items, Some(99), Some(10)).is_empty());
}

#[test]
fn reconciliation_looks_records_up_by_order_or_trade_number() {
    assert_eq!(
        reconcile_lookup(Some(" order-1 "), None, None),
        Ok(ReconcileLookup::ByOrderId("order-1".to_owned()))
    );
    assert_eq!(
        reconcile_lookup(None, Some("OT-1"), Some("out_trade_no")),
        Ok(ReconcileLookup::ByOutTradeNo("OT-1".to_owned()))
    );
    assert_eq!(
        reconcile_lookup(None, Some("OT-1"), Some("ORDER_ID")).unwrap_err(),
        ServiceError::validation("orderId is required for ORDER_ID reconciliation")
    );
    assert_eq!(
        reconcile_lookup(None, None, Some("OTHER")).unwrap_err(),
        ServiceError::validation("reconcileType must be ORDER_ID or OUT_TRADE_NO")
    );
    let items = vec![record("o1", "T1", "success"), record("o2", "T2", "failed")];
    let found = find_payment_record(items.clone(), &ReconcileLookup::ByOutTradeNo("T2".to_owned())).unwrap();
    assert_eq!(found.order_id, "o2");
    assert!(find_payment_record(items, &ReconcileLookup::ByOrderId("o9".to_owned())).is_none());
}

#[test]
fn service_errors_map_to_api_answers() {
    assert_eq!(payment_error_answer(&ServiceError::validation("x")), (400, "4001"));
    assert_eq!(payment_error_answer(&ServiceError::not_found("x")), (404, "4040"));
    assert_eq!(payment_error_answer(&ServiceError::conflict("x")), (409, "4090"));
    assert_eq!(payment_error_answer(&ServiceError::storage("x")), (500, "5000"));
}

#[test]
fn record_status_labels_follow_the_stored_rows() {
    assert_eq!(order_recharge_status_label(" Fulfilled "), Ok("success"));
    assert_eq!(order_recharge_status_label("wait_pay"), Ok("pending"));
    assert_eq!(
        order_recharge_status_label(" Odd ").unwrap_err(),
        ServiceError::storage("unsupported payment record order status: odd")
    );
    assert_eq!(payment_status_label("CANCELED"), Ok("failed"));
    assert_eq!(
        payment_status_label("processing").unwrap_err(),
        ServiceError::storage("unsupported payment record payment status: processing")
    );
    assert_eq!(payment_record_status_label("failed", "success", "success"), "failed");
    assert_eq!(payment_record_status_label("pending", "failed", "success"), "success");
    assert_eq!(payment_record_status_label("pending", "failed", "pending"), "failed");
    assert_eq!(payment_record_status_label("pending", "pending", "pending"), "pending");
}

#[test]
fn record_status_cells_require_present_statuses() {
    assert_eq!(required_status_cell(Some(" paid "), "order"), Ok("paid".to_owned()));
    assert_eq!(
        required_status_cell(Some(" "), "order").unwrap_err(),
        ServiceError::storage("missing payment record order status from database row")
    );
    assert_eq!(related_status_cell(None, None, "payment"), Ok(None));
    assert_eq!(related_status_cell(Some(" "), Some("x"), "payment"), Ok(None));
    assert_eq!(
        related_status_cell(Some("pay-1"), None, "payment").unwrap_err(),
        ServiceError::storage("missing payment record payment status from database row")
    );
    let cells = PaymentRecordStatusCells {
        order_status: Some("pending_payment"),
        payment_id: Some("pay-1"),
        payment_status: Some("succeeded"),
        payment_attempt_id: None,
        payment_attempt_status: None,
    };
    assert_eq!(payment_record_status(&cells), Ok("success"));
    let missing_order = PaymentRecordStatusCells { order_status: None, ..cells };
    assert_eq!(payment_record_status(&missing_order).unwrap_err().code(), "storage");
}

#[test]
fn stored_amount_cells_are_read_as_cents() {
    assert_eq!(money_cents("19.9"), Ok(1990));
    assert_eq!(money_cents(" 7 "), Ok(700));
    assert!(money_cents("1.234").is_err());
    assert_eq!(format_money_minor(-5), "-0.05");
    assert_eq!(commerce_money_cell("19.9", "payment record amount").unwrap().as_str(), "19.90");
    assert_eq!(
        commerce_money_cell("abc", "payment record amount").unwrap_err(),
        ServiceError::storage("invalid payment record amount: abc")
    );
    assert_eq!(
        commerce_money_cell("-1", "payment record amount").unwrap_err(),
        ServiceError::storage("invalid commerce money amount: -1")
    );
}

#[test]
fn backend_payment_intent_pages_hold_at_most_two_hundred() {
    let items: Vec<BackendPaymentIntentView> = (0..450).map(|i| view(&format!("pi-{i}"))).collect();
    let query = BackendPaymentIntentListQuery { status: None, page: Some(2), page_size: Some(1000) };
    let page = backend_payment_intent_page(items.clone(), &query);
    assert_eq!(page.len(), 200);
    assert_eq!(page[0].payment_intent_id, "pi-200");
    let query = BackendPaymentIntentListQuery { status: None, page: None, page_size: None };
    let page = backend_payment_intent_page(items, &query);
    assert_eq!(page.len(), 20);
    assert_eq!(page[19].payment_intent_id, "pi-19");

    let response = map_payment_intent(view("pi-1"));
    assert_eq!(response.payment_intent_id, "pi-1");
    assert_eq!(response.currency_code, "CNY");
    assert_eq!(backend_payment_intent_not_found(), (404, "4040", "payment intent was not found"));
    let (status, code, message) =
        backend_payment_intent_error_answer("payment intent management list is unavailable", &ServiceError::storage("db down"));
    assert_eq!((status, code.as_str()), (500, "5000"));
    assert_eq!(message, "payment intent management list is unavailable: db down");
}
