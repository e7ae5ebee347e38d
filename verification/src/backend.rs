//! The back-office read model of payment intents: list queries, pages and
//! the answers of the management API.
use vstd::prelude::*;

use crate::error::{message_with, ServiceError};
use crate::records::{page_bounds, page_of, paginate_window};
use crate::text::owned;

verus! {

/// The largest page the management list hands out.
pub const BACKEND_MAX_PAGE_SIZE: i64 = 200;

/// A management list query: an optional status filter and the page asked
/// for.
#[derive(Clone, Debug, PartialEq, Eq)]
pub struct BackendPaymentIntentListQuery {
    pub status: Option<String>,
    pub page: Option<i64>,
    pub page_size: Option<i64>,
}

/// A payment intent as the management read model holds it.
#[derive(Clone, Debug, PartialEq, Eq)]
pub struct BackendPaymentIntentView {
    pub payment_intent_id: String,
    pub tenant_id: String,
    pub organization_id: Option<String>,
    pub owner_user_id: String,
    pub order_id: String,
    pub payment_intent_no: String,
    pub payment_method: String,
    pub provider_code: String,
    pub amount: String,
    pub currency_code: String,
    pub status: String,
    pub created_at: String,
    pub updated_at: String,
}

/// A payment intent as the management API answers it.
#[derive(Clone, Debug, PartialEq, Eq)]
pub struct BackendPaymentIntentResponse {
    pub payment_intent_id: String,
    pub tenant_id: String,
    pub organization_id: Option<String>,
    pub owner_user_id: String,
    pub order_id: String,
    pub payment_intent_no: String,
    pub payment_method: String,
    pub provider_code: String,
    pub amount: String,
    pub currency_code: String,
    pub status: String,
    pub created_at: String,
    pub updated_at: String,
}

/// Whether an answer carries the same intent as a read-model row.
pub open spec fn answers_view(r: BackendPaymentIntentResponse, v: BackendPaymentIntentView) -> bool {
    &&& r.payment_intent_id == v.payment_intent_id
    &&& r.tenant_id == v.tenant_id
    &&& r.organization_id == v.organization_id
    &&& r.owner_user_id == v.owner_user_id
    &&& r.order_id == v.order_id
    &&& r.payment_intent_no == v.payment_intent_no
    &&& r.payment_method == v.payment_method
    &&& r.provider_code == v.provider_code
    &&& r.amount == v.amount
    &&& r.currency_code == v.currency_code
    &&& r.status == v.status
    &&& r.created_at == v.created_at
    &&& r.updated_at == v.updated_at
}

/// The answer for one read-model row: every field is carried over.
pub fn map_payment_intent(value: BackendPaymentIntentView) -> (r: BackendPaymentIntentResponse)
    ensures
        answers_view(r, value),
{
    BackendPaymentIntentResponse {
        payment_intent_id: value.payment_intent_id,
        tenant_id: value.tenant_id,
        organization_id: value.organization_id,
        owner_user_id: value.owner_user_id,
        order_id: value.order_id,
        payment_intent_no: value.payment_intent_no,
        payment_method: value.payment_method,
        provider_code: value.provider_code,
        amount: value.amount,
        currency_code: value.currency_code,
        status: value.status,
        created_at: value.created_at,
        updated_at: value.updated_at,
    }
}

/// Whether a list query's page starts at an index that is an `i64`.
pub open spec fn list_query_in_range(query: BackendPaymentIntentListQuery) -> bool {
    page_bounds(query.page, query.page_size, BACKEND_MAX_PAGE_SIZE as int).0 <= i64::MAX
}

/// The answer of a management list: the asked page of the listed rows,
/// each carried over, pages holding at most two hundred rows.
pub fn backend_payment_intent_page(items: Vec<BackendPaymentIntentView>, query: &BackendPaymentIntentListQuery) -> (r: Vec<
    BackendPaymentIntentResponse,
>)
    requires
        list_query_in_range(*query),
    ensures
        r.len() == page_of(items@, query.page, query.page_size, BACKEND_MAX_PAGE_SIZE as int).len(),
        forall|i: int|
            0 <= i < r.len() ==> answers_view(
                #[trigger] r@[i],
                page_of(items@, query.page, query.page_size, BACKEND_MAX_PAGE_SIZE as int)[i],
            ),
{
    let page = paginate_window(items, query.page, query.page_size, BACKEND_MAX_PAGE_SIZE);
    let ghost rows = page@;
    let mut page = page;
    let mut out: Vec<BackendPaymentIntentResponse> = Vec::new();
    let mut i: usize = 0;
    let n = page.len();
    while i < n
        invariant
            n == rows.len(),
            page@ == rows.skip(i as int),
            i <= n,
            out.len() == i,
            forall|j: int| 0 <= j < i ==> answers_view(#[trigger] out@[j], rows[j]),
        decreases n - i,
    {
        let row = page.remove(0);
        assert(row == rows[i as int]);
        out.push(map_payment_intent(row));
        assert(page@ =~= rows.skip(i + 1));
        i = i + 1;
    }
    out
}

/// The code, message and HTTP status of a management answer that found no
/// payment intent.
pub fn backend_payment_intent_not_found() -> (r: (u16, &'static str, &'static str))
    ensures
        r.0 == 404,
        r.1@ == "4040"@,
        r.2@ == "payment intent was not found"@,
{
    (404, "4040", "payment intent was not found")
}

/// The code, message and HTTP status of a management answer whose store
/// failed: the message is the context, a colon, and the error's message.
pub fn backend_payment_intent_error_answer(context: &str, error: &ServiceError) -> (r: (u16, String, String))
    ensures
        r.0 == 500,
        r.1@ == "5000"@,
        r.2@ == context@ + ": "@ + error.message@,
{
    let head = message_with(context, ": ");
    let msg = message_with(head.as_str(), error.message());
    (500, owned("5000"), msg)
}

} // verus!
