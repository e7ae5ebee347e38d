//! Payment records, payment-intent drafts and the provider port.

use vstd::prelude::*;
use vstd::string::*;
use crate::error::ServiceError;
use crate::money::Money;
use crate::queries::{missing, reports_missing, require_non_empty};
use crate::text::{normalized, norm, owned, trim, trimmed};

verus! {

#[derive(Clone, Debug, PartialEq, Eq)]
pub struct PaymentRecordItem {
    pub id: String,
    pub order_id: String,
    pub order_no: String,
    pub method: String,
    pub amount: Money,
    pub date: String,
    pub status: String,
}

#[derive(Clone, Debug, PartialEq, Eq)]
pub struct PaymentIntentDraft {
    pub amount: Money,
    pub idempotency_key: String,
    pub order_id: String,
    pub payment_method: String,
    pub provider_code: String,
    pub tenant_id: String,
}

#[derive(Clone, Debug, PartialEq, Eq)]
pub struct CreatePaymentIntentCommand {
    pub amount: Money,
    pub idempotency_key: String,
    pub order_id: String,
    pub payment_method: String,
    pub provider_code: String,
    pub tenant_id: String,
}

#[derive(Clone, Debug, PartialEq, Eq)]
pub struct CreateRefundCommand {
    pub amount: Money,
    pub idempotency_key: String,
    pub payment_id: String,
    pub request_no: String,
    pub tenant_id: String,
}

impl PaymentRecordItem {
    /// A payment record; every text field is required and stored trimmed.
    pub fn new(
        id: &str,
        order_id: &str,
        order_no: &str,
        method: &str,
        amount: Money,
        date: &str,
        status: &str,
    ) -> (r: Result<Self, ServiceError>)
        ensures
            reports_missing(
                r,
                missing(
                    "id"@,
                    id@,
                    missing(
                        "order_id"@,
                        order_id@,
                        missing(
                            "order_no"@,
                            order_no@,
                            missing("method"@, method@, missing("date"@, date@, missing("status"@, status@, None))),
                        ),
                    ),
                ),
            ),
            r matches Ok(item) ==> item.id@ == trimmed(id@) && item.order_id@ == trimmed(order_id@)
                && item.order_no@ == trimmed(order_no@) && item.method@ == trimmed(method@)
                && item.amount@ == amount@ && item.date@ == trimmed(date@) && item.status@ == trimmed(status@),
    {
        require_non_empty("id", id)?;
        require_non_empty("order_id", order_id)?;
        require_non_empty("order_no", order_no)?;
        require_non_empty("method", method)?;
        require_non_empty("date", date)?;
        require_non_empty("status", status)?;
        Ok(PaymentRecordItem {
            id: owned(trim(id)),
            order_id: owned(trim(order_id)),
            order_no: owned(trim(order_no)),
            method: owned(trim(method)),
            amount,
            date: owned(trim(date)),
            status: owned(trim(status)),
        })
    }
}

impl PaymentIntentDraft {
    /// A draft payment intent; method and provider codes are stored
    /// trimmed and ASCII-lowercased, the other texts trimmed.
    pub fn new(
        tenant_id: &str,
        order_id: &str,
        payment_method: &str,
        provider_code: &str,
        amount: Money,
        idempotency_key: &str,
    ) -> (r: Result<Self, ServiceError>)
        ensures
            reports_missing(
                r,
                missing(
                    "tenant_id"@,
                    tenant_id@,
                    missing(
                        "order_id"@,
                        order_id@,
                        missing(
                            "payment_method"@,
                            payment_method@,
                            missing("provider_code"@, provider_code@, missing("idempotency_key"@, idempotency_key@, None)),
                        ),
                    ),
                ),
            ),
            r matches Ok(d) ==> d.tenant_id@ == trimmed(tenant_id@) && d.order_id@ == trimmed(order_id@)
                && d.payment_method@ == norm(payment_method@) && d.provider_code@ == norm(provider_code@)
                && d.amount@ == amount@ && d.idempotency_key@ == trimmed(idempotency_key@),
    {
        require_non_empty("tenant_id", tenant_id)?;
        require_non_empty("order_id", order_id)?;
        require_non_empty("payment_method", payment_method)?;
        require_non_empty("provider_code", provider_code)?;
        require_non_empty("idempotency_key", idempotency_key)?;
        Ok(PaymentIntentDraft {
            amount,
            idempotency_key: owned(trim(idempotency_key)),
            order_id: owned(trim(order_id)),
            payment_method: normalized(payment_method),
            provider_code: normalized(provider_code),
            tenant_id: owned(trim(tenant_id)),
        })
    }
}

/// The commands that every payment provider must support.
#[derive(Clone, Copy, Debug, PartialEq, Eq, Structural)]
pub enum PaymentProviderCommand {
    CreatePaymentIntent,
    QueryPaymentStatus,
    ClosePayment,
    Refund,
    VerifyWebhook,
}

pub struct PaymentProviderPortRequirement;

impl PaymentProviderPortRequirement {
    /// The standard provider commands, in their canonical order.
    pub fn standard_commands() -> (r: Vec<PaymentProviderCommand>)
        ensures
            r@ == seq![
                PaymentProviderCommand::CreatePaymentIntent,
                PaymentProviderCommand::QueryPaymentStatus,
                PaymentProviderCommand::ClosePayment,
                PaymentProviderCommand::Refund,
                PaymentProviderCommand::VerifyWebhook,
            ],
    {
        let mut v = Vec::new();
        v.push(PaymentProviderCommand::CreatePaymentIntent);
        v.push(PaymentProviderCommand::QueryPaymentStatus);
        v.push(PaymentProviderCommand::ClosePayment);
        v.push(PaymentProviderCommand::Refund);
        v.push(PaymentProviderCommand::VerifyWebhook);
        assert(v@ =~= seq![
            PaymentProviderCommand::CreatePaymentIntent,
            PaymentProviderCommand::QueryPaymentStatus,
            PaymentProviderCommand::ClosePayment,
            PaymentProviderCommand::Refund,
            PaymentProviderCommand::VerifyWebhook,
        ]);
        v
    }
}

/// A payment provider as the payment service drives it.
pub trait PaymentProviderPort {
    fn create_payment_intent(&self, command: &CreatePaymentIntentCommand) -> Result<
        PaymentIntentDraft,
        ServiceError,
    >;

    fn refund(&self, command: &CreateRefundCommand) -> Result<(), ServiceError>;
}

/// The local sandbox provider for development and contract tests: it returns
/// deterministic drafts without calling a provider.
#[derive(Clone, Copy, Debug, Default)]
pub struct SandboxPaymentProvider;

impl PaymentProviderPort for SandboxPaymentProvider {
    fn create_payment_intent(&self, command: &CreatePaymentIntentCommand) -> (r: Result<
        PaymentIntentDraft,
        ServiceError,
    >)
        ensures
            reports_missing(
                r,
                missing(
                    "tenant_id"@,
                    command.tenant_id@,
                    missing(
                        "order_id"@,
                        command.order_id@,
                        missing(
                            "payment_method"@,
                            command.payment_method@,
                            missing(
                                "provider_code"@,
                                command.provider_code@,
                                missing("idempotency_key"@, command.idempotency_key@, None),
                            ),
                        ),
                    ),
                ),
            ),
            r matches Ok(d) ==> d.tenant_id@ == trimmed(command.tenant_id@) && d.order_id@ == trimmed(
                command.order_id@,
            ) && d.payment_method@ == norm(command.payment_method@) && d.provider_code@ == norm(
                command.provider_code@,
            ) && d.amount@ == command.amount@ && d.idempotency_key@ == trimmed(command.idempotency_key@),
    {
        PaymentIntentDraft::new(
            command.tenant_id.as_str(),
            command.order_id.as_str(),
            command.payment_method.as_str(),
            command.provider_code.as_str(),
            command.amount.clone(),
            command.idempotency_key.as_str(),
        )
    }

    fn refund(&self, command: &CreateRefundCommand) -> (r: Result<(), ServiceError>)
        ensures
            r is Ok,
    {
        Ok(())
    }
}

} // verus!
