//! Owner-order payment and refund commands and queries.

use vstd::prelude::*;
use vstd::string::*;
use crate::error::ServiceError;
use crate::money::{money_text_ok, Money};
use crate::params::PaymentParams;
use crate::queries::{missing, reports_missing, require_non_empty};
use crate::text::{
    all_digits, split_once_seq, ascii_lower, norm, normalized, opt_str_view, opt_text, opt_view, optional_text, owned, trim, trimmed,
};

verus! {

/// Scoped lookup of the order that a payment is made for.
#[derive(Clone, Debug, PartialEq, Eq)]
pub struct OrderPaymentReferenceQuery {
    pub tenant_id: String,
    pub organization_id: Option<String>,
    pub owner_user_id: String,
    pub order_id: String,
}

/// What payment reads of an order.
#[derive(Clone, Debug, PartialEq, Eq)]
pub struct OrderPaymentReferenceSnapshot {
    pub order_id: String,
    pub order_sn: String,
    pub order_subject: Option<String>,
    pub status: String,
    pub total_amount: Money,
    pub pay_time: Option<String>,
}

#[derive(Clone, Debug, PartialEq, Eq)]
pub struct PayOwnerOrderCommand {
    pub order_id: String,
    pub organization_id: Option<String>,
    pub owner_user_id: String,
    pub payment_method: String,
    pub payment_scene: Option<String>,
    pub payment_attempt_callback_payload: Option<String>,
    pub tenant_id: String,
    pub idempotency_key: String,
    pub request_no: String,
}

#[derive(Clone, Debug, PartialEq, Eq)]
pub struct PayOwnerOrderOutcome {
    pub amount: Money,
    pub order_id: String,
    pub out_trade_no: String,
    pub payment_id: String,
    pub payment_method: String,
    pub status: String,
    pub payment_params: PaymentParams,
}

#[derive(Clone, Debug, PartialEq, Eq)]
pub struct CancelOrderPaymentsCommand {
    pub tenant_id: String,
    pub organization_id: Option<String>,
    pub owner_user_id: String,
    pub order_id: String,
}

#[derive(Clone, Debug, PartialEq, Eq)]
pub struct RefundDetailQuery {
    pub organization_id: Option<String>,
    pub owner_user_id: String,
    pub refund_id: String,
    pub tenant_id: String,
}

#[derive(Clone, Debug, PartialEq, Eq)]
pub struct RefundListQuery {
    pub organization_id: Option<String>,
    pub owner_user_id: String,
    pub status: Option<String>,
    pub tenant_id: String,
}

#[derive(Clone, Debug, PartialEq, Eq)]
pub struct CreateOwnerRefundCommand {
    pub amount: Option<String>,
    pub idempotency_key: String,
    pub order_id: String,
    pub organization_id: Option<String>,
    pub owner_user_id: String,
    pub payment_attempt_id: Option<String>,
    pub reason_code: Option<String>,
    pub request_no: String,
    pub tenant_id: String,
}

#[derive(Clone, Debug, PartialEq, Eq)]
pub struct RefundView {
    pub amount: Money,
    pub currency_code: String,
    pub order_id: String,
    pub payment_attempt_id: String,
    pub reason_code: Option<String>,
    pub refund_id: String,
    pub refund_no: String,
    pub status: String,
}

/// The normalised payment scene: trimmed, lowercased, absent when blank.
pub open spec fn scene_of(scene: Option<String>) -> Option<Seq<char>> {
    match scene {
        Some(v) => if trimmed(v@).len() == 0 {
            None
        } else {
            Some(norm(v@))
        },
        None => None,
    }
}

impl OrderPaymentReferenceQuery {
    pub fn new(tenant_id: &str, organization_id: Option<&str>, owner_user_id: &str, order_id: &str) -> (r:
        Result<Self, ServiceError>)
        ensures
            reports_missing(
                r,
                missing(
                    "tenant_id"@,
                    tenant_id@,
                    missing("owner_user_id"@, owner_user_id@, missing("order_id"@, order_id@, None)),
                ),
            ),
            r matches Ok(q) ==> q.tenant_id@ == trimmed(tenant_id@) && opt_view(q.organization_id)
                == opt_text(opt_str_view(organization_id)) && q.owner_user_id@ == trimmed(owner_user_id@)
                && q.order_id@ == trimmed(order_id@),
    {
        require_non_empty("tenant_id", tenant_id)?;
        require_non_empty("owner_user_id", owner_user_id)?;
        require_non_empty("order_id", order_id)?;
        Ok(OrderPaymentReferenceQuery {
            tenant_id: owned(trim(tenant_id)),
            organization_id: optional_text(organization_id),
            owner_user_id: owned(trim(owner_user_id)),
            order_id: owned(trim(order_id)),
        })
    }
}

impl PayOwnerOrderCommand {
    /// A pay command without a callback payload.
    pub fn new(
        tenant_id: &str,
        organization_id: Option<&str>,
        owner_user_id: &str,
        order_id: &str,
        payment_method: &str,
        payment_scene: Option<String>,
        request_no: &str,
        idempotency_key: &str,
    ) -> (r: Result<Self, ServiceError>)
        ensures
            reports_missing(
                r,
                missing(
                    "tenant_id"@,
                    tenant_id@,
                    missing(
                        "owner_user_id"@,
                        owner_user_id@,
                        missing(
                            "order_id"@,
                            order_id@,
                            missing(
                                "payment_method"@,
                                payment_method@,
                                missing("request_no"@, request_no@, missing("idempotency_key"@, idempotency_key@, None)),
                            ),
                        ),
                    ),
                ),
            ),
            r matches Ok(c) ==> c.tenant_id@ == trimmed(tenant_id@) && opt_view(c.organization_id)
                == opt_text(opt_str_view(organization_id)) && c.owner_user_id@ == trimmed(owner_user_id@)
                && c.order_id@ == trimmed(order_id@) && c.payment_method@ == norm(payment_method@)
                && opt_view(c.payment_scene) == scene_of(payment_scene) && c.payment_attempt_callback_payload
                is None && c.request_no@ == trimmed(request_no@) && c.idempotency_key@ == trimmed(
                idempotency_key@,
            ),
    {
        Self::with_payment_attempt_callback_payload(
            tenant_id,
            organization_id,
            owner_user_id,
            order_id,
            payment_method,
            payment_scene,
            None,
            request_no,
            idempotency_key,
        )
    }

    /// A pay command carrying the callback payload to store on the payment attempt.
    pub fn with_payment_attempt_callback_payload(
        tenant_id: &str,
        organization_id: Option<&str>,
        owner_user_id: &str,
        order_id: &str,
        payment_method: &str,
        payment_scene: Option<String>,
        payment_attempt_callback_payload: Option<String>,
        request_no: &str,
        idempotency_key: &str,
    ) -> (r: Result<Self, ServiceError>)
        ensures
            reports_missing(
                r,
                missing(
                    "tenant_id"@,
                    tenant_id@,
                    missing(
                        "owner_user_id"@,
                        owner_user_id@,
                        missing(
                            "order_id"@,
                            order_id@,
                            missing(
                                "payment_method"@,
                                payment_method@,
                                missing("request_no"@, request_no@, missing("idempotency_key"@, idempotency_key@, None)),
                            ),
                        ),
                    ),
                ),
            ),
            r matches Ok(c) ==> c.tenant_id@ == trimmed(tenant_id@) && opt_view(c.organization_id)
                == opt_text(opt_str_view(organization_id)) && c.owner_user_id@ == trimmed(owner_user_id@)
                && c.order_id@ == trimmed(order_id@) && c.payment_method@ == norm(payment_method@)
                && opt_view(c.payment_scene) == scene_of(payment_scene) && c.payment_attempt_callback_payload
                == payment_attempt_callback_payload && c.request_no@ == trimmed(request_no@)
                && c.idempotency_key@ == trimmed(idempotency_key@),
    {
        require_non_empty("tenant_id", tenant_id)?;
        require_non_empty("owner_user_id", owner_user_id)?;
        require_non_empty("order_id", order_id)?;
        require_non_empty("payment_method", payment_method)?;
        require_non_empty("request_no", request_no)?;
        require_non_empty("idempotency_key", idempotency_key)?;
        let scene = match payment_scene {
            Some(v) => {
                let t = trim(v.as_str());
                if t.unicode_len() == 0 {
                    None
                } else {
                    Some(ascii_lower(t))
                }
            },
            None => None,
        };
        Ok(PayOwnerOrderCommand {
            order_id: owned(trim(order_id)),
            organization_id: optional_text(organization_id),
            owner_user_id: owned(trim(owner_user_id)),
            payment_method: normalized(payment_method),
            payment_scene: scene,
            payment_attempt_callback_payload,
            tenant_id: owned(trim(tenant_id)),
            idempotency_key: owned(trim(idempotency_key)),
            request_no: owned(trim(request_no)),
        })
    }
}

impl CancelOrderPaymentsCommand {
    pub fn new(tenant_id: &str, organization_id: Option<&str>, owner_user_id: &str, order_id: &str) -> (r:
        Result<Self, ServiceError>)
        ensures
            reports_missing(
                r,
                missing(
                    "tenant_id"@,
                    tenant_id@,
                    missing("owner_user_id"@, owner_user_id@, missing("order_id"@, order_id@, None)),
                ),
            ),
            r matches Ok(q) ==> q.tenant_id@ == trimmed(tenant_id@) && opt_view(q.organization_id)
                == opt_text(opt_str_view(organization_id)) && q.owner_user_id@ == trimmed(owner_user_id@)
                && q.order_id@ == trimmed(order_id@),
    {
        require_non_empty("tenant_id", tenant_id)?;
        require_non_empty("owner_user_id", owner_user_id)?;
        require_non_empty("order_id", order_id)?;
        Ok(CancelOrderPaymentsCommand {
            tenant_id: owned(trim(tenant_id)),
            organization_id: optional_text(organization_id),
            owner_user_id: owned(trim(owner_user_id)),
            order_id: owned(trim(order_id)),
        })
    }
}

impl RefundDetailQuery {
    pub fn new(tenant_id: &str, organization_id: Option<&str>, owner_user_id: &str, refund_id: &str) -> (r:
        Result<Self, ServiceError>)
        ensures
            reports_missing(
                r,
                missing(
                    "tenant_id"@,
                    tenant_id@,
                    missing("owner_user_id"@, owner_user_id@, missing("refund_id"@, refund_id@, None)),
                ),
            ),
            r matches Ok(q) ==> q.tenant_id@ == trimmed(tenant_id@) && opt_view(q.organization_id)
                == opt_text(opt_str_view(organization_id)) && q.owner_user_id@ == trimmed(owner_user_id@)
                && q.refund_id@ == trimmed(refund_id@),
    {
        require_non_empty("tenant_id", tenant_id)?;
        require_non_empty("owner_user_id", owner_user_id)?;
        require_non_empty("refund_id", refund_id)?;
        Ok(RefundDetailQuery {
            organization_id: optional_text(organization_id),
            owner_user_id: owned(trim(owner_user_id)),
            refund_id: owned(trim(refund_id)),
            tenant_id: owned(trim(tenant_id)),
        })
    }
}

impl RefundListQuery {
    pub fn new(tenant_id: &str, organization_id: Option<&str>, owner_user_id: &str, status: Option<&str>) -> (r:
        Result<Self, ServiceError>)
        ensures
            reports_missing(r, missing("tenant_id"@, tenant_id@, missing("owner_user_id"@, owner_user_id@, None))),
            r matches Ok(q) ==> q.tenant_id@ == trimmed(tenant_id@) && opt_view(q.organization_id)
                == opt_text(opt_str_view(organization_id)) && q.owner_user_id@ == trimmed(owner_user_id@)
                && opt_view(q.status) == opt_text(opt_str_view(status)),
    {
        require_non_empty("tenant_id", tenant_id)?;
        require_non_empty("owner_user_id", owner_user_id)?;
        Ok(RefundListQuery {
            organization_id: optional_text(organization_id),
            owner_user_id: owned(trim(owner_user_id)),
            status: optional_text(status),
            tenant_id: owned(trim(tenant_id)),
        })
    }
}

impl CreateOwnerRefundCommand {
    pub fn new(
        tenant_id: &str,
        organization_id: Option<&str>,
        owner_user_id: &str,
        order_id: &str,
        payment_attempt_id: Option<&str>,
        amount: Option<&str>,
        reason_code: Option<&str>,
        request_no: &str,
        idempotency_key: &str,
    ) -> (r: Result<Self, ServiceError>)
        ensures
            reports_missing(
                r,
                missing(
                    "tenant_id"@,
                    tenant_id@,
                    missing(
                        "owner_user_id"@,
                        owner_user_id@,
                        missing(
                            "order_id"@,
                            order_id@,
                            missing("request_no"@, request_no@, missing("idempotency_key"@, idempotency_key@, None)),
                        ),
                    ),
                ),
            ),
            r matches Ok(c) ==> c.tenant_id@ == trimmed(tenant_id@) && opt_view(c.organization_id)
                == opt_text(opt_str_view(organization_id)) && c.owner_user_id@ == trimmed(owner_user_id@)
                && c.order_id@ == trimmed(order_id@) && opt_view(c.payment_attempt_id) == opt_text(
                opt_str_view(payment_attempt_id),
            ) && opt_view(c.amount) == opt_text(opt_str_view(amount)) && opt_view(c.reason_code)
                == opt_text(opt_str_view(reason_code)) && c.request_no@ == trimmed(request_no@)
                && c.idempotency_key@ == trimmed(idempotency_key@),
    {
        require_non_empty("tenant_id", tenant_id)?;
        require_non_empty("owner_user_id", owner_user_id)?;
        require_non_empty("order_id", order_id)?;
        require_non_empty("request_no", request_no)?;
        require_non_empty("idempotency_key", idempotency_key)?;
        Ok(CreateOwnerRefundCommand {
            amount: optional_text(amount),
            idempotency_key: owned(trim(idempotency_key)),
            order_id: owned(trim(order_id)),
            organization_id: optional_text(organization_id),
            owner_user_id: owned(trim(owner_user_id)),
            payment_attempt_id: optional_text(payment_attempt_id),
            reason_code: optional_text(reason_code),
            request_no: owned(trim(request_no)),
            tenant_id: owned(trim(tenant_id)),
        })
    }
}

/// The amount zero.
fn zero_money() -> (r: Money)
    ensures
        r@ == "0"@,
{
    proof {
        reveal_strlit("0");
        assert("0"@.len() == 1);
        crate::text::lemma_trimmed_plain("0"@);
        crate::text::lemma_find_char_bounds("0"@, '.');
        assert(split_once_seq("0"@, '.') is None);
        assert(all_digits("0"@));
        assert(money_text_ok("0"@));
    }
    Money::new("0").unwrap()
}

/// The payment view of an order as stored: its total must be a
/// well-formed amount, else it counts as zero.
pub fn order_payment_reference_from_stored(
    order_id: String,
    order_sn: String,
    order_subject: Option<String>,
    status: String,
    total_amount: &str,
    pay_time: Option<String>,
) -> (r: OrderPaymentReferenceSnapshot)
    ensures
        r.order_id == order_id,
        r.order_sn == order_sn,
        r.order_subject == order_subject,
        r.status == status,
        r.pay_time == pay_time,
        r.total_amount@ == if money_text_ok(trimmed(total_amount@)) {
            trimmed(total_amount@)
        } else {
            "0"@
        },
{
    let total = match Money::new(total_amount) {
        Ok(m) => m,
        Err(_) => zero_money(),
    };
    OrderPaymentReferenceSnapshot { order_id, order_sn, order_subject, status, total_amount: total, pay_time }
}

} // verus!
