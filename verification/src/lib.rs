//! Verified core of the payment capability: payment and refund lifecycles,
//! query normalisation, money amounts, storage identities, provider checkout
//! and webhook decisions.

pub mod alipay;
pub mod attempts;
pub mod backend;
pub mod checkout;
pub mod cipher;
pub mod clock;
pub mod confirmation;
pub mod digest;
pub mod error;
pub mod form;
pub mod ids;
pub mod json;
pub mod intent;
pub mod money;
pub mod num;
pub mod owner_payment;
pub mod params;
pub mod peek;
pub mod provider;
pub mod queries;
pub mod record_status;
pub mod records;
pub mod refund;
pub mod status;
pub mod text;
pub mod webhook;
