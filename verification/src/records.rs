//! The payment records the app API shows its users: status codes and
//! names, pages, statistics, payment-method filtering, reconciliation
//! lookups and how service errors are answered.

use vstd::prelude::*;
use vstd::string::*;
use crate::error::{kind_code, ErrorKind, ServiceError};
use crate::intent::PaymentRecordItem;
use crate::money::Money;
use crate::owner_payment::PayOwnerOrderOutcome;
use crate::params::{lookup, PaymentParams};
use crate::queries::PaymentMethodItem;
use crate::text::{eq_ignore_case, lower, norm, normalized, opt_str_view, opt_text, opt_view, owned, str_eq, trim, trimmed};

verus! {

/// The status code a stored payment status is shown as.
pub open spec fn status_code_of(status: Seq<char>) -> Seq<char> {
    let n = norm(status);
    if n == "success"@ {
        "SUCCESS"@
    } else if n == "failed"@ {
        "FAILED"@
    } else if n == "timeout"@ {
        "TIMEOUT"@
    } else if n == "closed"@ {
        "CLOSED"@
    } else {
        "PENDING"@
    }
}

/// The status code a stored payment status is shown as.
pub fn map_payment_status_code(status: &str) -> (r: &'static str)
    ensures
        r@ == status_code_of(status@),
{
    let n = normalized(status);
    let s = n.as_str();
    if str_eq(s, "success") {
        "SUCCESS"
    } else if str_eq(s, "failed") {
        "FAILED"
    } else if str_eq(s, "timeout") {
        "TIMEOUT"
    } else if str_eq(s, "closed") {
        "CLOSED"
    } else {
        "PENDING"
    }
}

/// The display name of a status code.
pub open spec fn status_name_of(code: Seq<char>) -> Seq<char> {
    if code == "SUCCESS"@ {
        "Success"@
    } else if code == "FAILED"@ {
        "Failed"@
    } else if code == "TIMEOUT"@ {
        "Timeout"@
    } else if code == "CLOSED"@ {
        "Closed"@
    } else {
        "Pending"@
    }
}

/// The display name of a status code.
pub fn format_payment_status_name(status: &str) -> (r: String)
    ensures
        r@ == status_name_of(status@),
{
    if str_eq(status, "SUCCESS") {
        owned("Success")
    } else if str_eq(status, "FAILED") {
        owned("Failed")
    } else if str_eq(status, "TIMEOUT") {
        owned("Timeout")
    } else if str_eq(status, "CLOSED") {
        owned("Closed")
    } else {
        owned("Pending")
    }
}

/// A payment record as the app API shows it.
#[derive(Clone, Debug, PartialEq, Eq)]
pub struct PaymentRecordResponse {
    pub payment_id: String,
    pub order_id: String,
    pub out_trade_no: String,
    pub payment_method: String,
    pub amount: String,
    pub created_at: String,
    pub status: String,
    pub status_name: String,
}

/// Shows a payment record: its status as a code and that code's name.
pub fn map_payment_record(value: PaymentRecordItem) -> (r: PaymentRecordResponse)
    ensures
        r.payment_id == value.id,
        r.order_id == value.order_id,
        r.out_trade_no == value.order_no,
        r.payment_method == value.method,
        r.amount@ == value.amount@,
        r.created_at == value.date,
        r.status@ == status_code_of(value.status@),
        r.status_name@ == status_name_of(status_code_of(value.status@)),
{
    let status = map_payment_status_code(value.status.as_str());
    PaymentRecordResponse {
        payment_id: value.id,
        order_id: value.order_id,
        out_trade_no: value.order_no,
        payment_method: value.method,
        amount: owned(value.amount.as_str()),
        created_at: value.date,
        status: owned(status),
        status_name: format_payment_status_name(status),
    }
}

/// A payment attempt as the commerce contract shows it.
#[derive(Clone, Debug, PartialEq, Eq)]
pub struct AppCommercePaymentAttemptRecordResponse {
    pub id: String,
    pub order_no: String,
    pub method: String,
    pub amount: String,
    pub date: String,
    pub status: String,
}

/// Shows a payment record as a payment attempt, its status as stored.
pub fn map_payment_attempt_record(value: PaymentRecordItem) -> (r: AppCommercePaymentAttemptRecordResponse)
    ensures
        r.id == value.id,
        r.order_no == value.order_no,
        r.method == value.method,
        r.amount@ == value.amount@,
        r.date == value.date,
        r.status == value.status,
{
    AppCommercePaymentAttemptRecordResponse {
        id: value.id,
        order_no: value.order_no,
        method: value.method,
        amount: owned(value.amount.as_str()),
        date: value.date,
        status: value.status,
    }
}

/// A product type a payment method is offered for.
#[derive(Clone, Debug, PartialEq, Eq)]
pub struct PaymentMethodProductTypeResponse {
    pub code: String,
    pub name: String,
    pub available: bool,
}

/// A payment method as the app API shows it.
#[derive(Clone, Debug, PartialEq, Eq)]
pub struct PaymentMethodResponse {
    pub method_id: String,
    pub code: String,
    pub method_name: String,
    pub available: bool,
    pub sort: i64,
    pub product_types: Vec<PaymentMethodProductTypeResponse>,
}

/// Shows a payment method: available, for the PC product type.
pub fn map_payment_method(value: PaymentMethodItem) -> (r: PaymentMethodResponse)
    ensures
        r.method_id == value.id,
        r.code == value.method_key,
        r.method_name == value.display_name,
        r.available,
        r.sort == value.sort_order,
        r.product_types.len() == 1,
        r.product_types@[0].code@ == "pc"@,
        r.product_types@[0].name@ == "PC"@,
        r.product_types@[0].available,
{
    let pc = PaymentMethodProductTypeResponse { code: owned("pc"), name: owned("PC"), available: true };
    let product_types = vec![pc];
    PaymentMethodResponse {
        method_id: value.id,
        code: value.method_key,
        method_name: value.display_name,
        available: true,
        sort: value.sort_order,
        product_types,
    }
}

/// Whether a method suits a client type: any method suits no (or a blank)
/// client type; otherwise one of its available product types must carry
/// that code, ignoring ASCII case.
pub open spec fn suits_client(types: Seq<PaymentMethodProductTypeResponse>, client_type: Option<Seq<char>>) -> bool {
    match opt_text(client_type) {
        None => true,
        Some(c) => exists|i: int| 0 <= i < types.len() && #[trigger] types[i].available && lower(types[i].code@) == lower(c),
    }
}

/// Whether a payment method suits the client type a request names.
pub fn matches_client_type(method: &PaymentMethodResponse, client_type: Option<&str>) -> (r: bool)
    ensures
        r == suits_client(method.product_types@, opt_str_view(client_type)),
{
    let client = match client_type {
        Some(c) => trim(c),
        None => return true,
    };
    if client.unicode_len() == 0 {
        return true;
    }
    let mut i: usize = 0;
    while i < method.product_types.len()
        invariant
            0 <= i <= method.product_types.len(),
            client@ == trimmed(opt_str_view(client_type)->0),
            client@.len() > 0,
            forall|j: int|
                0 <= j < i ==> !(#[trigger] method.product_types@[j].available && lower(method.product_types@[j].code@)
                    == lower(client@)),
        decreases method.product_types.len() - i,
    {
        let t = &method.product_types[i];
        if t.available && eq_ignore_case(t.code.as_str(), client) {
            return true;
        }
        i = i + 1;
    }
    false
}

/// The first index and the size of a page: the page number is at least
/// one, and the page size defaults to twenty and is kept within one and
/// `max_size`.
pub open spec fn page_bounds(page: Option<i64>, page_size: Option<i64>, max_size: int) -> (int, int) {
    let p = match page {
        Some(v) => if v < 1 {
            1
        } else {
            v as int
        },
        None => 1,
    };
    let size = match page_size {
        Some(v) => if v < 1 {
            1
        } else if v > max_size {
            max_size
        } else {
            v as int
        },
        None => 20,
    };
    ((p - 1) * size, size)
}

/// The items of one page.
pub open spec fn page_of<T>(items: Seq<T>, page: Option<i64>, page_size: Option<i64>, max_size: int) -> Seq<T> {
    let (start, size) = page_bounds(page, page_size, max_size);
    if start >= items.len() {
        Seq::empty()
    } else if start + size >= items.len() {
        items.skip(start)
    } else {
        items.subrange(start, start + size)
    }
}

/// The items of one page, for a page size kept within one and `max_size`;
/// the index of the page's first item must be an `i64`.
pub fn paginate_window<T>(items: Vec<T>, page: Option<i64>, page_size: Option<i64>, max_size: i64) -> (r: Vec<T>)
    requires
        20 <= max_size,
        page_bounds(page, page_size, max_size as int).0 <= i64::MAX,
    ensures
        r@ == page_of(items@, page, page_size, max_size as int),
{
    let p: i64 = match page {
        Some(v) => if v < 1 {
            1
        } else {
            v
        },
        None => 1,
    };
    let size: i64 = match page_size {
        Some(v) => if v < 1 {
            1
        } else if v > max_size {
            max_size
        } else {
            v
        },
        None => 20,
    };
    assert(0 <= (p - 1) * size) by (nonlinear_arith)
        requires
            1 <= p,
            1 <= size,
    ;
    let start: i64 = (p - 1) * size;
    let ghost all = items@;
    let mut items = items;
    if start as u64 >= items.len() as u64 {
        return Vec::new();
    }
    let start_index = start as usize;
    let mut tail = items.split_off(start_index);
    if (size as u64) < (tail.len() as u64) {
        tail.truncate(size as usize);
        assert(tail@ =~= all.subrange(start as int, start + size));
    } else {
        assert(tail@ =~= all.skip(start as int));
    }
    tail
}

/// The items of one page of a user's records, pages holding at most a
/// hundred items; the index of the page's first item must be an `i64`.
pub fn paginate_items<T>(items: Vec<T>, page: Option<i64>, page_size: Option<i64>) -> (r: Vec<T>)
    requires
        page_bounds(page, page_size, 100).0 <= i64::MAX,
    ensures
        r@ == page_of(items@, page, page_size, 100),
{
    paginate_window(items, page, page_size, 100)
}

/// The statistics of a user's payments.
#[derive(Clone, Debug, PartialEq, Eq)]
pub struct PaymentStatisticsResponse {
    pub total_payments: i64,
    pub pending_payments: i64,
    pub success_payments: i64,
    pub failed_payments: i64,
    pub timeout_payments: i64,
    pub closed_payments: i64,
}

/// How many records show a status code.
pub open spec fn count_code(items: Seq<PaymentRecordItem>, code: Seq<char>) -> int
    decreases items.len(),
{
    if items.len() == 0 {
        0
    } else {
        count_code(items.drop_last(), code) + if status_code_of(items.last().status@) == code {
            1int
        } else {
            0int
        }
    }
}

proof fn lemma_codes_distinct()
    ensures
        "PENDING"@ != "SUCCESS"@,
        "PENDING"@ != "FAILED"@,
        "PENDING"@ != "TIMEOUT"@,
        "PENDING"@ != "CLOSED"@,
        "SUCCESS"@ != "FAILED"@,
        "SUCCESS"@ != "TIMEOUT"@,
        "SUCCESS"@ != "CLOSED"@,
        "FAILED"@ != "TIMEOUT"@,
        "FAILED"@ != "CLOSED"@,
        "TIMEOUT"@ != "CLOSED"@,
{
    reveal_strlit("PENDING");
    reveal_strlit("SUCCESS");
    reveal_strlit("FAILED");
    reveal_strlit("TIMEOUT");
    reveal_strlit("CLOSED");
    assert("PENDING"@.len() == 7);
    assert("SUCCESS"@.len() == 7);
    assert("FAILED"@.len() == 6);
    assert("TIMEOUT"@.len() == 7);
    assert("CLOSED"@.len() == 6);
    assert("PENDING"@[0] != "SUCCESS"@[0]);
    assert("PENDING"@[0] != "TIMEOUT"@[0]);
    assert("SUCCESS"@[0] != "TIMEOUT"@[0]);
    assert("FAILED"@[0] != "CLOSED"@[0]);
}

/// Counts a user's payments by the status code they are shown with.
pub fn map_payment_statistics(items: &Vec<PaymentRecordItem>) -> (r: PaymentStatisticsResponse)
    requires
        items.len() <= i64::MAX,
    ensures
        r.total_payments == items.len(),
        r.pending_payments == count_code(items@, "PENDING"@),
        r.success_payments == count_code(items@, "SUCCESS"@),
        r.failed_payments == count_code(items@, "FAILED"@),
        r.timeout_payments == count_code(items@, "TIMEOUT"@),
        r.closed_payments == count_code(items@, "CLOSED"@),
{
    proof {
        lemma_codes_distinct();
    }
    let mut stats = PaymentStatisticsResponse {
        total_payments: items.len() as i64,
        pending_payments: 0,
        success_payments: 0,
        failed_payments: 0,
        timeout_payments: 0,
        closed_payments: 0,
    };
    let mut i: usize = 0;
    assert(items@.take(0) =~= Seq::<PaymentRecordItem>::empty());
    while i < items.len()
        invariant
            0 <= i <= items.len(),
            items.len() <= i64::MAX,
            stats.total_payments == items.len(),
            stats.pending_payments == count_code(items@.take(i as int), "PENDING"@),
            stats.success_payments == count_code(items@.take(i as int), "SUCCESS"@),
            stats.failed_payments == count_code(items@.take(i as int), "FAILED"@),
            stats.timeout_payments == count_code(items@.take(i as int), "TIMEOUT"@),
            stats.closed_payments == count_code(items@.take(i as int), "CLOSED"@),
            stats.pending_payments + stats.success_payments + stats.failed_payments + stats.timeout_payments
                + stats.closed_payments == i,
            stats.pending_payments >= 0,
            stats.success_payments >= 0,
            stats.failed_payments >= 0,
            stats.timeout_payments >= 0,
            stats.closed_payments >= 0,
        decreases items.len() - i,
    {
        proof {
            lemma_codes_distinct();
            assert(items@.take(i + 1).drop_last() =~= items@.take(i as int));
            assert(items@.take(i + 1).last() == items@[i as int]);
        }
        let code = map_payment_status_code(items[i].status.as_str());
        if str_eq(code, "SUCCESS") {
            stats.success_payments = stats.success_payments + 1;
        } else if str_eq(code, "FAILED") {
            stats.failed_payments = stats.failed_payments + 1;
        } else if str_eq(code, "TIMEOUT") {
            stats.timeout_payments = stats.timeout_payments + 1;
        } else if str_eq(code, "CLOSED") {
            stats.closed_payments = stats.closed_payments + 1;
        } else {
            stats.pending_payments = stats.pending_payments + 1;
        }
        i = i + 1;
    }
    assert(items@.take(items.len() as int) =~= items@);
    stats
}

/// Every record is counted under exactly one status: the counts add up to
/// the total.
pub proof fn lemma_statistics_partition(items: Seq<PaymentRecordItem>)
    ensures
        count_code(items, "PENDING"@) + count_code(items, "SUCCESS"@) + count_code(items, "FAILED"@) + count_code(
            items,
            "TIMEOUT"@,
        ) + count_code(items, "CLOSED"@) == items.len(),
    decreases items.len(),
{
    lemma_codes_distinct();
    if items.len() > 0 {
        lemma_statistics_partition(items.drop_last());
    }
}

/// The answer to a payment creation.
#[derive(Clone, Debug, PartialEq, Eq)]
pub struct CreatePaymentResponse {
    pub payment_id: String,
    pub order_id: String,
    pub out_trade_no: String,
    pub amount: String,
    pub payment_method: String,
    pub status: String,
    pub status_name: String,
    pub payment_params: Option<PaymentParams>,
    pub payment_url: Option<String>,
}

/// Shows a new payment: pending, with its pay parameters and the cashier
/// (else payment) link among them.
pub fn map_create_payment(value: PayOwnerOrderOutcome) -> (r: CreatePaymentResponse)
    ensures
        r.payment_id == value.payment_id,
        r.order_id == value.order_id,
        r.out_trade_no == value.out_trade_no,
        r.amount@ == value.amount@,
        r.payment_method == value.payment_method,
        r.status@ == "PENDING"@,
        r.status_name@ == "Pending"@,
        r.payment_params matches Some(p) && p@ == value.payment_params@,
        opt_view(r.payment_url) == match lookup(value.payment_params@, "cashierUrl"@) {
            Some(u) => Some(u),
            None => lookup(value.payment_params@, "paymentUrl"@),
        },
{
    let payment_url = match value.payment_params.get("cashierUrl") {
        Some(u) => Some(u),
        None => value.payment_params.get("paymentUrl"),
    };
    proof {
        reveal_strlit("PENDING");
        reveal_strlit("SUCCESS");
        reveal_strlit("FAILED");
        reveal_strlit("TIMEOUT");
        reveal_strlit("CLOSED");
        assert("PENDING"@.len() != "FAILED"@.len());
        assert("PENDING"@[0] != "SUCCESS"@[0]);
        assert("PENDING"@[0] != "TIMEOUT"@[0]);
    }
    CreatePaymentResponse {
        payment_id: value.payment_id,
        order_id: value.order_id,
        out_trade_no: value.out_trade_no,
        amount: owned(value.amount.as_str()),
        payment_method: value.payment_method,
        status: owned("PENDING"),
        status_name: format_payment_status_name("PENDING"),
        payment_params: Some(value.payment_params),
        payment_url,
    }
}

/// The payment method a creation request uses: the one it names, else WeChat Pay.
pub fn create_payment_method(payment_method: Option<&str>) -> (r: String)
    ensures
        r@ == match payment_method {
            Some(m) => m@,
            None => "wechat_pay"@,
        },
{
    match payment_method {
        Some(m) => owned(m),
        None => owned("wechat_pay"),
    }
}

/// How a service error is answered: the HTTP status and the API code.
pub open spec fn api_error_answer(code: Seq<char>) -> (u16, Seq<char>) {
    if code == "validation"@ {
        (400, "4001"@)
    } else if code == "unauthenticated"@ || code == "unauthorized"@ {
        (401, "4010"@)
    } else if code == "not-found"@ {
        (404, "4040"@)
    } else if code == "conflict"@ {
        (409, "4090"@)
    } else {
        (500, "5000"@)
    }
}

/// The HTTP status and API code a service error is answered with.
pub fn payment_error_answer(error: &ServiceError) -> (r: (u16, &'static str))
    ensures
        (r.0, r.1@) == api_error_answer(kind_code(error.kind)),
{
    let code = error.code();
    if str_eq(code, "validation") {
        (400, "4001")
    } else if str_eq(code, "unauthenticated") || str_eq(code, "unauthorized") {
        (401, "4010")
    } else if str_eq(code, "not-found") {
        (404, "4040")
    } else if str_eq(code, "conflict") {
        (409, "4090")
    } else {
        (500, "5000")
    }
}

/// Which record a reconciliation looks up.
#[derive(Clone, Debug, PartialEq, Eq)]
pub enum ReconcileLookup {
    ByOrderId(String),
    ByOutTradeNo(String),
}

/// The lookup a reconciliation request asks for: by order id for
/// `ORDER_ID` (the default when an order id is given), by merchant trade
/// number otherwise; the key it needs must be given.
pub open spec fn reconcile_lookup_spec(
    order_id: Option<Seq<char>>,
    out_trade_no: Option<Seq<char>>,
    reconcile_type: Option<Seq<char>>,
) -> Result<(bool, Seq<char>), Seq<char>> {
    let o = opt_text(order_id);
    let t = opt_text(out_trade_no);
    let kind = match opt_text(reconcile_type) {
        Some(k) => k,
        None => if o is Some {
            "ORDER_ID"@
        } else {
            "OUT_TRADE_NO"@
        },
    };
    if lower(kind) == lower("ORDER_ID"@) {
        match o {
            Some(v) => Ok((true, v)),
            None => Err("orderId is required for ORDER_ID reconciliation"@),
        }
    } else if t is Some || lower(kind) == lower("OUT_TRADE_NO"@) {
        match t {
            Some(v) => Ok((false, v)),
            None => Err("outTradeNo is required for OUT_TRADE_NO reconciliation"@),
        }
    } else {
        Err("reconcileType must be ORDER_ID or OUT_TRADE_NO"@)
    }
}

/// Decides a reconciliation's lookup; a request that cannot be served is a
/// validation error.
pub fn reconcile_lookup(order_id: Option<&str>, out_trade_no: Option<&str>, reconcile_type: Option<&str>) -> (r: Result<
    ReconcileLookup,
    ServiceError,
>)
    ensures
        match reconcile_lookup_spec(opt_str_view(order_id), opt_str_view(out_trade_no), opt_str_view(reconcile_type)) {
            Ok((true, v)) => r matches Ok(ReconcileLookup::ByOrderId(s)) && s@ == v,
            Ok((false, v)) => r matches Ok(ReconcileLookup::ByOutTradeNo(s)) && s@ == v,
            Err(m) => r matches Err(e) && e.kind == ErrorKind::Validation && e.message@ == m,
        },
{
    let o = crate::text::optional_text(order_id);
    let t = crate::text::optional_text(out_trade_no);
    let kind = match crate::text::optional_text(reconcile_type) {
        Some(k) => k,
        None => if o.is_some() {
            owned("ORDER_ID")
        } else {
            owned("OUT_TRADE_NO")
        },
    };
    if eq_ignore_case(kind.as_str(), "ORDER_ID") {
        match o {
            Some(v) => Ok(ReconcileLookup::ByOrderId(v)),
            None => Err(ServiceError::validation("orderId is required for ORDER_ID reconciliation")),
        }
    } else if t.is_some() || eq_ignore_case(kind.as_str(), "OUT_TRADE_NO") {
        match t {
            Some(v) => Ok(ReconcileLookup::ByOutTradeNo(v)),
            None => Err(ServiceError::validation("outTradeNo is required for OUT_TRADE_NO reconciliation")),
        }
    } else {
        Err(ServiceError::validation("reconcileType must be ORDER_ID or OUT_TRADE_NO"))
    }
}

/// The index of the first record a lookup finds, or the length when none does.
pub open spec fn first_match(items: Seq<PaymentRecordItem>, by_order: bool, key: Seq<char>) -> int
    decreases items.len(),
{
    if items.len() == 0 {
        0
    } else if (if by_order {
        items[0].order_id@ == key
    } else {
        items[0].order_no@ == key
    }) {
        0
    } else {
        1 + first_match(items.drop_first(), by_order, key)
    }
}

proof fn lemma_first_match_at(items: Seq<PaymentRecordItem>, by_order: bool, key: Seq<char>, i: int)
    requires
        0 <= i <= items.len(),
        forall|j: int|
            0 <= j < i ==> !(if by_order {
                (#[trigger] items[j]).order_id@ == key
            } else {
                items[j].order_no@ == key
            }),
        i < items.len() ==> (if by_order {
            items[i].order_id@ == key
        } else {
            items[i].order_no@ == key
        }),
    ensures
        first_match(items, by_order, key) == i,
    decreases i,
{
    if items.len() > 0 && i > 0 {
        let rest = items.drop_first();
        assert forall|j: int|
            0 <= j < i - 1 implies !(if by_order {
                (#[trigger] rest[j]).order_id@ == key
            } else {
                rest[j].order_no@ == key
            }) by {
            assert(rest[j] == items[j + 1]);
        }
        assert(!(if by_order {
            items[0].order_id@ == key
        } else {
            items[0].order_no@ == key
        }));
        lemma_first_match_at(rest, by_order, key, i - 1);
    }
}

/// What a lookup searches by, and for which value.
pub open spec fn lookup_key(l: ReconcileLookup) -> (bool, Seq<char>) {
    match l {
        ReconcileLookup::ByOrderId(v) => (true, v@),
        ReconcileLookup::ByOutTradeNo(v) => (false, v@),
    }
}

/// The record a lookup finds in a list, if any.
pub open spec fn found_record(items: Seq<PaymentRecordItem>, l: ReconcileLookup) -> Option<PaymentRecordItem> {
    let k = first_match(items, lookup_key(l).0, lookup_key(l).1);
    if k < items.len() {
        Some(items[k])
    } else {
        None
    }
}

/// The first record a lookup finds: by order id or by merchant trade number.
pub fn find_payment_record(items: Vec<PaymentRecordItem>, lookup: &ReconcileLookup) -> (r: Option<PaymentRecordItem>)
    ensures
        r == found_record(items@, *lookup),
{
    let ghost all = items@;
    let (by_order, key) = match lookup {
        ReconcileLookup::ByOrderId(v) => (true, v.as_str()),
        ReconcileLookup::ByOutTradeNo(v) => (false, v.as_str()),
    };
    let mut list = items;
    let mut i: usize = 0;
    while i < list.len()
        invariant
            0 <= i <= list.len(),
            list@ == all,
            all == items@,
            lookup_key(*lookup) == (by_order, key@),
            forall|j: int|
                0 <= j < i ==> !(if by_order {
                    (#[trigger] all[j]).order_id@ == key@
                } else {
                    all[j].order_no@ == key@
                }),
        decreases list.len() - i,
    {
        let hit = if by_order {
            str_eq(list[i].order_id.as_str(), key)
        } else {
            str_eq(list[i].order_no.as_str(), key)
        };
        if hit {
            proof {
                lemma_first_match_at(all, by_order, key@, i as int);
            }
            let found = list.remove(i);
            return Some(found);
        }
        i = i + 1;
    }
    proof {
        lemma_first_match_at(all, by_order, key@, i as int);
    }
    None
}

} // verus!
