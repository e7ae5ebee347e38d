//! Alipay: the configuration, the requests the OpenAPI gateway receives,
//! how its answers and notifications are read, and the RSA2 signatures
//! that cover both directions.

use base64::{engine::general_purpose::STANDARD as BASE64, Engine as _};
use rsa::pkcs1v15::{Signature, SigningKey, VerifyingKey};
use rsa::pkcs8::{DecodePrivateKey, DecodePublicKey};
use rsa::signature::{SignatureEncoding, Signer, Verifier};
use rsa::{RsaPrivateKey, RsaPublicKey};
use sha2::Sha256;
use vstd::prelude::*;
use vstd::string::*;
use vstd::utf8::*;
use crate::form::{canonical_payload, canonical_payload_of, fields_view, form_fields, form_lookup, form_value, parse_form_body, utf8_error_text};
use crate::json::{json_member, json_str, member_lookup, member_models, set_member, take_member, write_json, json_text, Json, JsonValue};
use crate::money::{minor_decimal_text, minor_to_decimal_string};
use crate::provider::{
    is_invalid_request, is_invalid_response, normalized_optional, require_non_empty, require_positive_amount,
    PaymentAdapterOperation, PaymentProviderOperationOutcome, ProviderError,
};
use crate::text::{eq_ignore_case, lower, opt_str_view, opt_text, opt_view, owned, push_char, split_seq, str_eq, trim, trimmed};
use crate::webhook::{text_field, text_field_of};

verus! {

#[verifier::external_type_specification]
#[verifier::external_body]
pub struct ExRsaPrivateKey(rsa::RsaPrivateKey);

#[verifier::external_type_specification]
#[verifier::external_body]
pub struct ExRsaPublicKey(rsa::RsaPublicKey);

/// What `rsa` reports of a PKCS#8 PEM private key: `None` when it reads
/// the key, else the `Display` text of its error.
pub uninterp spec fn private_key_pem_error(pem: Seq<char>) -> Option<Seq<char>>;

/// What `rsa` reports of a PEM public key: `None` when it reads the key,
/// else the `Display` text of its error.
pub uninterp spec fn public_key_pem_error(pem: Seq<char>) -> Option<Seq<char>>;

/// The base64 (standard alphabet) RSA PKCS#1 v1.5 SHA-256 signature of a
/// text's bytes under the private key of a PEM text, or the `Display` text
/// of the error `rsa` reports when it cannot sign with that key.
pub uninterp spec fn rsa2_signature(private_key_pem: Seq<char>, payload: Seq<char>) -> Result<Seq<char>, Seq<char>>;

/// The check of a base64 signature of a text under the public key of a PEM
/// text: whether it verifies; or the error of decoding the base64
/// (`(true, text)`) or of reading the decoded bytes as a signature
/// (`(false, text)`).
pub uninterp spec fn rsa2_signature_check(public_key_pem: Seq<char>, payload: Seq<char>, signature: Seq<char>) -> Result<
    bool,
    (bool, Seq<char>),
>;

/// Reads a PKCS#8 PEM private key with `RsaPrivateKey::from_pkcs8_pem`.
/// The claim: it succeeds exactly when `rsa` reads the key, else the
/// error's `Display` text is given.
#[verifier::external_body]
fn read_private_key(pem: &str) -> (r: Result<RsaPrivateKey, String>)
    ensures
        match r {
            Ok(_) => private_key_pem_error(pem@) is None,
            Err(e) => private_key_pem_error(pem@) == Some(e@),
        },
{
    RsaPrivateKey::from_pkcs8_pem(pem).map_err(|e| e.to_string())
}

/// Reads a PEM public key with `RsaPublicKey::from_public_key_pem`. The
/// claim: it succeeds exactly when `rsa` reads the key, else the error's
/// `Display` text is given.
#[verifier::external_body]
fn read_public_key(pem: &str) -> (r: Result<RsaPublicKey, String>)
    ensures
        match r {
            Ok(_) => public_key_pem_error(pem@) is None,
            Err(e) => public_key_pem_error(pem@) == Some(e@),
        },
{
    RsaPublicKey::from_public_key_pem(pem).map_err(|e| e.to_string())
}

/// The merchant's RSA2 signer and Alipay's verifier.
pub struct RsaAlipaySigner {
    private_key: RsaPrivateKey,
    public_key: RsaPublicKey,
    private_key_pem: Ghost<Seq<char>>,
    public_key_pem: Ghost<Seq<char>>,
}

impl RsaAlipaySigner {
    /// The PEM text of the merchant's private key.
    pub closed spec fn private_pem(&self) -> Seq<char> {
        self.private_key_pem@
    }

    /// The PEM text of Alipay's public key.
    pub closed spec fn public_pem(&self) -> Seq<char> {
        self.public_key_pem@
    }

    /// A signer from the merchant's PKCS#8 private key and Alipay's public
    /// key, both in PEM form.
    pub fn from_pkcs8_pem(private_key_pem: &str, alipay_public_key_pem: &str) -> (r: Result<Self, crate::provider::ProviderError>)
        ensures
            match private_key_pem_error(private_key_pem@) {
                Some(e) => crate::provider::is_invalid_request(
                    r,
                    crate::provider::PaymentAdapterOperation::CreatePaymentIntent,
                    "invalid Alipay merchant private key: "@ + e,
                ),
                None => match public_key_pem_error(alipay_public_key_pem@) {
                    Some(e) => crate::provider::is_invalid_request(
                        r,
                        crate::provider::PaymentAdapterOperation::VerifyWebhook,
                        "invalid Alipay platform public key: "@ + e,
                    ),
                    None => r matches Ok(s) && s.private_pem() == private_key_pem@ && s.public_pem()
                        == alipay_public_key_pem@,
                },
            },
    {
        let private_key = match read_private_key(private_key_pem) {
            Ok(k) => k,
            Err(e) => {
                let mut m = crate::text::owned("invalid Alipay merchant private key: ");
                m.append(e.as_str());
                return Err(
                    crate::provider::ProviderError::InvalidRequest {
                        operation: crate::provider::PaymentAdapterOperation::CreatePaymentIntent,
                        message: m,
                    },
                );
            },
        };
        let public_key = match read_public_key(alipay_public_key_pem) {
            Ok(k) => k,
            Err(e) => {
                let mut m = crate::text::owned("invalid Alipay platform public key: ");
                m.append(e.as_str());
                return Err(
                    crate::provider::ProviderError::InvalidRequest {
                        operation: crate::provider::PaymentAdapterOperation::VerifyWebhook,
                        message: m,
                    },
                );
            },
        };
        Ok(
            RsaAlipaySigner {
                private_key,
                public_key,
                private_key_pem: Ghost(private_key_pem@),
                public_key_pem: Ghost(alipay_public_key_pem@),
            },
        )
    }

    /// Signs a text with `rsa`'s PKCS#1 v1.5 SHA-256 `SigningKey::try_sign`
    /// and encodes the signature with `base64`'s standard engine. The claim:
    /// the result is that signature of the text under the private key this
    /// signer was made from, or the `Display` text of the error `rsa`
    /// reports.
    #[verifier::external_body]
    fn try_sign_text(&self, payload: &str) -> (r: Result<String, String>)
        ensures
            match r {
                Ok(s) => rsa2_signature(self.private_pem(), payload@) == Ok::<Seq<char>, Seq<char>>(s@),
                Err(e) => rsa2_signature(self.private_pem(), payload@) == Err::<Seq<char>, Seq<char>>(e@),
            },
    {
        match SigningKey::<Sha256>::new(self.private_key.clone()).try_sign(payload.as_bytes()) {
            Ok(signature) => Ok(BASE64.encode(signature.to_bytes())),
            Err(e) => Err(e.to_string()),
        }
    }

    /// The RSA2 signature of a text under the merchant's key; a key that
    /// cannot sign is an invalid request.
    pub fn sign(&self, payload: &str) -> (r: Result<String, crate::provider::ProviderError>)
        ensures
            match rsa2_signature(self.private_pem(), payload@) {
                Ok(s) => r matches Ok(t) && t@ == s,
                Err(e) => crate::provider::is_invalid_request(
                    r,
                    crate::provider::PaymentAdapterOperation::CreatePaymentIntent,
                    "Alipay signing failed: "@ + e,
                ),
            },
    {
        match self.try_sign_text(payload) {
            Ok(s) => Ok(s),
            Err(e) => {
                let mut m = crate::text::owned("Alipay signing failed: ");
                m.append(e.as_str());
                Err(
                    crate::provider::ProviderError::InvalidRequest {
                        operation: crate::provider::PaymentAdapterOperation::CreatePaymentIntent,
                        message: m,
                    },
                )
            },
        }
    }

    /// Checks a base64 signature of a text with `base64`'s standard engine,
    /// `rsa`'s `Signature::try_from` and PKCS#1 v1.5 SHA-256
    /// `VerifyingKey::verify`. The claim: the result is that check under the
    /// public key this signer was made from, with the `Display` text of a
    /// decoding error.
    #[verifier::external_body]
    fn check_signature(&self, payload: &str, signature: &str) -> (r: Result<bool, (bool, String)>)
        ensures
            match r {
                Ok(b) => rsa2_signature_check(self.public_pem(), payload@, signature@) == Ok::<
                    bool,
                    (bool, Seq<char>),
                >(b),
                Err((decoding, e)) => rsa2_signature_check(self.public_pem(), payload@, signature@) == Err::<
                    bool,
                    (bool, Seq<char>),
                >((decoding, e@)),
            },
    {
        let decoded = match BASE64.decode(signature) {
            Ok(d) => d,
            Err(e) => return Err((true, e.to_string())),
        };
        let parsed = match Signature::try_from(decoded.as_slice()) {
            Ok(s) => s,
            Err(e) => return Err((false, e.to_string())),
        };
        Ok(VerifyingKey::<Sha256>::new(self.public_key.clone()).verify(payload.as_bytes(), &parsed).is_ok())
    }

    /// Whether a base64 signature of a text verifies under Alipay's key;
    /// a signature that cannot be decoded is an invalid request.
    pub fn verify(&self, payload: &str, signature: &str) -> (r: Result<bool, crate::provider::ProviderError>)
        ensures
            match rsa2_signature_check(self.public_pem(), payload@, signature@) {
                Ok(b) => r == Ok::<bool, crate::provider::ProviderError>(b),
                Err((true, e)) => crate::provider::is_invalid_request(
                    r,
                    crate::provider::PaymentAdapterOperation::VerifyWebhook,
                    "invalid Alipay signature encoding: "@ + e,
                ),
                Err((false, e)) => crate::provider::is_invalid_request(
                    r,
                    crate::provider::PaymentAdapterOperation::VerifyWebhook,
                    "invalid Alipay signature: "@ + e,
                ),
            },
    {
        match self.check_signature(payload, signature) {
            Ok(b) => Ok(b),
            Err((decoding, e)) => {
                let mut m = if decoding {
                    crate::text::owned("invalid Alipay signature encoding: ")
                } else {
                    crate::text::owned("invalid Alipay signature: ")
                };
                m.append(e.as_str());
                Err(
                    crate::provider::ProviderError::InvalidRequest {
                        operation: crate::provider::PaymentAdapterOperation::VerifyWebhook,
                        message: m,
                    },
                )
            },
        }
    }
}

/// The provider code of Alipay.
pub const ALIPAY_PROVIDER_CODE: &'static str = "alipay";

/// The production OpenAPI gateway.
pub const ALIPAY_GATEWAY_URL: &'static str = "https://openapi.alipay.com/gateway.do";

/// The sandbox OpenAPI gateway.
pub const ALIPAY_SANDBOX_GATEWAY_URL: &'static str = "https://openapi-sandbox.dl.alipaydev.com/gateway.do";

/// The merchant application's Alipay settings.
#[derive(Clone, Debug, PartialEq, Eq)]
pub struct AlipayPaymentProviderConfig {
    pub app_id: String,
    pub notify_url: Option<String>,
    pub return_url: Option<String>,
    pub sandbox: bool,
}

/// Checks that a setting of the configuration is given.
pub fn validate_config_secret(field: &str, value: &str) -> (r: Result<(), ProviderError>)
    ensures
        trimmed(value@).len() == 0 ==> is_invalid_request(
            r,
            PaymentAdapterOperation::CreatePaymentIntent,
            "Alipay "@ + field@ + " is required"@,
        ),
        trimmed(value@).len() > 0 ==> r is Ok,
{
    if trim(value).unicode_len() == 0 {
        let mut m = owned("Alipay ");
        m.append(field);
        m.append(" is required");
        return Err(ProviderError::InvalidRequest { operation: PaymentAdapterOperation::CreatePaymentIntent, message: m });
    }
    Ok(())
}

/// The gateway a configuration talks to, once its application id is checked.
pub fn alipay_gateway_url(config: &AlipayPaymentProviderConfig) -> (r: Result<&'static str, ProviderError>)
    ensures
        trimmed(config.app_id@).len() == 0 ==> is_invalid_request(
            r,
            PaymentAdapterOperation::CreatePaymentIntent,
            "Alipay "@ + "app_id"@ + " is required"@,
        ),
        trimmed(config.app_id@).len() > 0 ==> r == Ok::<&'static str, ProviderError>(
            if config.sandbox {
                ALIPAY_SANDBOX_GATEWAY_URL
            } else {
                ALIPAY_GATEWAY_URL
            },
        ),
{
    validate_config_secret("app_id", config.app_id.as_str())?;
    if config.sandbox {
        Ok(ALIPAY_SANDBOX_GATEWAY_URL)
    } else {
        Ok(ALIPAY_GATEWAY_URL)
    }
}

/// Checks that a request is in CNY, the only currency of Alipay's domestic baseline.
pub fn require_cny(currency: Option<&str>, operation: PaymentAdapterOperation) -> (r: Result<(), ProviderError>)
    ensures
        match opt_text(opt_str_view(currency)) {
            None => is_invalid_request(r, operation, "currency"@ + " is required"@),
            Some(c) => if lower(c) == lower("CNY"@) {
                r is Ok
            } else {
                is_invalid_request(r, operation, "Alipay domestic baseline currently supports CNY only"@)
            },
        },
{
    let currency = require_non_empty(currency, operation, "currency")?;
    if !eq_ignore_case(currency.as_str(), "CNY") {
        return Err(ProviderError::invalid_request(operation, "Alipay domestic baseline currently supports CNY only"));
    }
    Ok(())
}

/// The OpenAPI method of a payment method key and the answer field that
/// holds the payer's link, if any; an unknown key is taken as a QR payment.
pub open spec fn alipay_method(method_key: Seq<char>) -> (Seq<char>, Option<Seq<char>>) {
    if method_key == "alipay_pc"@ {
        ("alipay.trade.page.pay"@, None)
    } else if method_key == "alipay_wap"@ {
        ("alipay.trade.wap.pay"@, None)
    } else if method_key == "alipay_app"@ {
        ("alipay.trade.app.pay"@, None)
    } else if method_key == "alipay_jsapi"@ {
        ("alipay.trade.create"@, None)
    } else {
        ("alipay.trade.precreate"@, Some("qr_code"@))
    }
}

/// The OpenAPI method and link field of a payment method key.
pub fn alipay_method_for_key(method_key: &str) -> (r: (&'static str, Option<&'static str>))
    ensures
        (r.0@, opt_str_view(r.1)) == alipay_method(method_key@),
{
    if str_eq(method_key, "alipay_pc") {
        ("alipay.trade.page.pay", None)
    } else if str_eq(method_key, "alipay_wap") {
        ("alipay.trade.wap.pay", None)
    } else if str_eq(method_key, "alipay_app") {
        ("alipay.trade.app.pay", None)
    } else if str_eq(method_key, "alipay_jsapi") {
        ("alipay.trade.create", None)
    } else {
        ("alipay.trade.precreate", Some("qr_code"))
    }
}

/// A text member, as JSON.
pub open spec fn text_json(v: Option<Seq<char>>) -> Option<Json> {
    match v {
        Some(t) => Some(Json::Str(t)),
        None => None,
    }
}

/// The payer of a JSAPI payment: the buyer id of the metadata, else its buyer open id.
pub open spec fn alipay_buyer(metadata: Json) -> Option<Seq<char>> {
    match text_field(metadata, "buyer_id"@) {
        Some(b) => Some(b),
        None => text_field(metadata, "buyer_open_id"@),
    }
}

/// Whether a payment method key is one Alipay serves.
pub open spec fn alipay_method_known(method_key: Seq<char>) -> bool {
    method_key == "alipay_qr"@ || method_key == "alipay_pc"@ || method_key == "alipay_wap"@ || method_key
        == "alipay_app"@ || method_key == "alipay_jsapi"@
}

/// The members of the `biz_content` of a payment.
pub open spec fn biz_content_member(
    k: Seq<char>,
    out_trade_no: Seq<char>,
    amount_minor: i64,
    subject: Seq<char>,
    tenant_id: Option<Seq<char>>,
    notify_url: Option<Seq<char>>,
    method_key: Seq<char>,
    metadata: Json,
) -> Option<Json> {
    if k == "out_trade_no"@ {
        Some(Json::Str(out_trade_no))
    } else if k == "total_amount"@ {
        Some(Json::Str(minor_decimal_text(amount_minor as int)))
    } else if k == "subject"@ {
        Some(Json::Str(subject))
    } else if k == "passback_params"@ {
        match tenant_id {
            Some(t) => Some(Json::Str("tenant_id="@ + t)),
            None => None,
        }
    } else if k == "notify_url"@ {
        text_json(notify_url)
    } else if k == "return_url"@ {
        if method_key == "alipay_pc"@ || method_key == "alipay_wap"@ {
            text_json(text_field(metadata, "return_url"@))
        } else {
            None
        }
    } else if k == "buyer_id"@ {
        if method_key == "alipay_jsapi"@ {
            text_json(alipay_buyer(metadata))
        } else {
            None
        }
    } else {
        None
    }
}

proof fn lemma_method_keys_distinct()
    ensures
        "alipay_qr"@ != "alipay_pc"@,
        "alipay_qr"@ != "alipay_wap"@,
        "alipay_qr"@ != "alipay_app"@,
        "alipay_qr"@ != "alipay_jsapi"@,
        "alipay_pc"@ != "alipay_wap"@,
        "alipay_pc"@ != "alipay_app"@,
        "alipay_pc"@ != "alipay_jsapi"@,
        "alipay_wap"@ != "alipay_app"@,
        "alipay_wap"@ != "alipay_jsapi"@,
        "alipay_app"@ != "alipay_jsapi"@,
{
    reveal_strlit("alipay_qr");
    reveal_strlit("alipay_pc");
    reveal_strlit("alipay_wap");
    reveal_strlit("alipay_app");
    reveal_strlit("alipay_jsapi");
    assert("alipay_qr"@.len() == 9);
    assert("alipay_pc"@.len() == 9);
    assert("alipay_wap"@.len() == 10);
    assert("alipay_app"@.len() == 10);
    assert("alipay_jsapi"@.len() == 12);
    assert("alipay_qr"@[7] != "alipay_pc"@[7]);
    assert("alipay_wap"@[7] != "alipay_app"@[7]);
}

/// Each payment method key that Alipay serves is sent as its own OpenAPI
/// method: `alipay_qr` as a precreate whose answer holds the `qr_code` link,
/// `alipay_pc` as a page payment, `alipay_wap` as a mobile-site payment,
/// `alipay_app` as an app payment and `alipay_jsapi` as a created trade;
/// only the QR payment reads a link from the answer, and two different known
/// keys never share a method.
pub proof fn lemma_alipay_methods(k1: Seq<char>, k2: Seq<char>)
    ensures
        alipay_method("alipay_qr"@) == ("alipay.trade.precreate"@, Some("qr_code"@)),
        alipay_method("alipay_pc"@) == ("alipay.trade.page.pay"@, None::<Seq<char>>),
        alipay_method("alipay_wap"@) == ("alipay.trade.wap.pay"@, None::<Seq<char>>),
        alipay_method("alipay_app"@) == ("alipay.trade.app.pay"@, None::<Seq<char>>),
        alipay_method("alipay_jsapi"@) == ("alipay.trade.create"@, None::<Seq<char>>),
        alipay_method_known(k1) ==> (alipay_method(k1).1 is Some <==> k1 == "alipay_qr"@),
        alipay_method_known(k1) && alipay_method_known(k2) && k1 != k2 ==> alipay_method(k1).0 != alipay_method(
            k2,
        ).0,
{
    lemma_method_keys_distinct();
    reveal_strlit("alipay.trade.precreate");
    reveal_strlit("alipay.trade.page.pay");
    reveal_strlit("alipay.trade.wap.pay");
    reveal_strlit("alipay.trade.app.pay");
    reveal_strlit("alipay.trade.create");
    assert("alipay.trade.precreate"@.len() == 22);
    assert("alipay.trade.page.pay"@.len() == 21);
    assert("alipay.trade.wap.pay"@.len() == 20);
    assert("alipay.trade.app.pay"@.len() == 20);
    assert("alipay.trade.create"@.len() == 19);
    assert("alipay.trade.wap.pay"@[13] != "alipay.trade.app.pay"@[13]);
}

proof fn lemma_biz_keys_distinct()
    ensures
        "out_trade_no"@ != "total_amount"@,
        "out_trade_no"@ != "subject"@,
        "out_trade_no"@ != "passback_params"@,
        "out_trade_no"@ != "notify_url"@,
        "out_trade_no"@ != "return_url"@,
        "out_trade_no"@ != "buyer_id"@,
        "total_amount"@ != "subject"@,
        "total_amount"@ != "passback_params"@,
        "total_amount"@ != "notify_url"@,
        "total_amount"@ != "return_url"@,
        "total_amount"@ != "buyer_id"@,
        "subject"@ != "passback_params"@,
        "subject"@ != "notify_url"@,
        "subject"@ != "return_url"@,
        "subject"@ != "buyer_id"@,
        "passback_params"@ != "notify_url"@,
        "passback_params"@ != "return_url"@,
        "passback_params"@ != "buyer_id"@,
        "notify_url"@ != "return_url"@,
        "notify_url"@ != "buyer_id"@,
        "return_url"@ != "buyer_id"@,
{
    reveal_strlit("out_trade_no");
    reveal_strlit("total_amount");
    reveal_strlit("subject");
    reveal_strlit("passback_params");
    reveal_strlit("notify_url");
    reveal_strlit("return_url");
    reveal_strlit("buyer_id");
    assert("out_trade_no"@.len() == 12);
    assert("total_amount"@.len() == 12);
    assert("subject"@.len() == 7);
    assert("passback_params"@.len() == 15);
    assert("notify_url"@.len() == 10);
    assert("return_url"@.len() == 10);
    assert("buyer_id"@.len() == 8);
    assert("out_trade_no"@[0] != "total_amount"@[0]);
    assert("notify_url"@[0] != "return_url"@[0]);
}

/// The `biz_content` of a payment: the trade, amount and subject, the
/// tenant as passback, the notification link, and what the method needs
/// (the return link of page and WAP payments, the buyer of JSAPI payments).
/// An unknown method, or a JSAPI payment without a buyer, is refused.
pub fn build_alipay_biz_content(
    out_trade_no: &str,
    amount_minor: i64,
    subject: &str,
    tenant_id: Option<&str>,
    notify_url: Option<&str>,
    method_key: &str,
    metadata: &JsonValue,
) -> (r: Result<JsonValue, ProviderError>)
    requires
        amount_minor != i64::MIN,
    ensures
        !alipay_method_known(method_key@) ==> is_invalid_request(
            r,
            PaymentAdapterOperation::CreatePaymentIntent,
            "unsupported alipay method_key: "@ + method_key@,
        ),
        method_key@ == "alipay_jsapi"@ && alipay_buyer(metadata.model()) is None ==> is_invalid_request(
            r,
            PaymentAdapterOperation::CreatePaymentIntent,
            "alipay_jsapi requires metadata.buyer_id (buyer's openid)"@,
        ),
        alipay_method_known(method_key@) && !(method_key@ == "alipay_jsapi"@ && alipay_buyer(metadata.model()) is None)
            ==> (r matches Ok(doc) && doc.model() matches Json::Object(ms) && forall|k: Seq<char>|
            #[trigger] member_lookup(ms, k) == biz_content_member(
                k,
                out_trade_no@,
                amount_minor,
                subject@,
                opt_str_view(tenant_id),
                opt_str_view(notify_url),
                method_key@,
                metadata.model(),
            )),
{
    proof {
        lemma_biz_keys_distinct();
        lemma_method_keys_distinct();
    }
    let mut members: Vec<(String, JsonValue)> = Vec::new();
    assert(member_models(members@) =~= Seq::<(Seq<char>, Json)>::empty());
    set_member(&mut members, "out_trade_no", JsonValue::Str(owned(out_trade_no)));
    set_member(&mut members, "total_amount", JsonValue::Str(minor_to_decimal_string(amount_minor)));
    set_member(&mut members, "subject", JsonValue::Str(owned(subject)));
    match tenant_id {
        Some(t) => {
            let mut p = owned("tenant_id=");
            p.append(t);
            set_member(&mut members, "passback_params", JsonValue::Str(p));
        },
        None => {},
    }
    match notify_url {
        Some(u) => set_member(&mut members, "notify_url", JsonValue::Str(owned(u))),
        None => {},
    }
    if str_eq(method_key, "alipay_qr") || str_eq(method_key, "alipay_app") {
    } else if str_eq(method_key, "alipay_pc") || str_eq(method_key, "alipay_wap") {
        match text_field_of(metadata, "return_url") {
            Some(u) => set_member(&mut members, "return_url", JsonValue::Str(u)),
            None => {},
        }
    } else if str_eq(method_key, "alipay_jsapi") {
        let buyer = match text_field_of(metadata, "buyer_id") {
            Some(b) => Some(b),
            None => text_field_of(metadata, "buyer_open_id"),
        };
        match buyer {
            Some(b) => set_member(&mut members, "buyer_id", JsonValue::Str(b)),
            None => return Err(
                ProviderError::invalid_request(
                    PaymentAdapterOperation::CreatePaymentIntent,
                    "alipay_jsapi requires metadata.buyer_id (buyer's openid)",
                ),
            ),
        }
    } else {
        let mut m = owned("unsupported alipay method_key: ");
        m.append(method_key);
        return Err(ProviderError::InvalidRequest { operation: PaymentAdapterOperation::CreatePaymentIntent, message: m });
    }
    let doc = JsonValue::Object(members);
    assert(doc.model() == Json::Object(member_models(members@)));
    Ok(doc)
}

/// A method name with its dots as underscores.
pub open spec fn underscored(method: Seq<char>) -> Seq<char> {
    method.map_values(|c: char| if c == '.' { '_' } else { c })
}

/// The answer of a method inside the gateway's reply: the reply's
/// `<method>_response` member, else the whole reply.
pub open spec fn method_response(method: Seq<char>, payload: Json) -> Json {
    match json_member(payload, underscored(method) + "_response"@) {
        Some(r) => r,
        None => payload,
    }
}

/// The result code of an answer (`10000` when it states none).
pub open spec fn response_code(response: Json) -> Seq<char> {
    match json_str(json_member(response, "code"@)) {
        Some(c) => c,
        None => "10000"@,
    }
}

/// The message of a failed answer: its `sub_msg` when present, else its
/// `msg`, when that is text; else a generic message.
pub open spec fn response_message(response: Json) -> Seq<char> {
    let m = match json_member(response, "sub_msg"@) {
        Some(v) => json_str(Some(v)),
        None => json_str(json_member(response, "msg"@)),
    };
    match m {
        Some(t) => t,
        None => "Alipay request failed"@,
    }
}

fn underscore_dots(method: &str) -> (r: String)
    ensures
        r@ == underscored(method@),
{
    let n = method.unicode_len();
    let mut out = String::new();
    let mut i: usize = 0;
    while i < n
        invariant
            n == method@.len(),
            0 <= i <= n,
            out@ == underscored(method@.take(i as int)),
        decreases n - i,
    {
        let c = method.get_char(i);
        if c == '.' {
            push_char(&mut out, '_');
        } else {
            push_char(&mut out, c);
        }
        assert(underscored(method@.take(i + 1)) =~= underscored(method@.take(i as int)).push(if c == '.' { '_' } else { c }));
        i = i + 1;
    }
    assert(method@.take(n as int) =~= method@);
    out
}

fn member_text(doc: &JsonValue, key: &str) -> (r: Option<String>)
    ensures
        opt_view(r) == json_str(json_member(doc.model(), key@)),
{
    match doc.get(key) {
        Some(v) => match v.as_text() {
            Some(t) => Some(owned(t)),
            None => None,
        },
        None => None,
    }
}

/// Reads the gateway's reply to a method: the method's answer must carry
/// the success code, else the call failed with the answer's message.
pub fn alipay_response_payload(method: &str, payload: JsonValue) -> (r: Result<JsonValue, ProviderError>)
    ensures
        ({
            let response = method_response(method@, payload.model());
            let code = response_code(response);
            if code == "10000"@ {
                r matches Ok(v) && v.model() == response
            } else {
                r matches Err(ProviderError::Transport { provider_code, message }) && provider_code@ == "alipay"@
                    && message@ == "Alipay "@ + method@ + " failed ("@ + code + "): "@ + response_message(response)
            }
        }),
{
    let mut key = underscore_dots(method);
    key.append("_response");
    let ghost whole = payload.model();
    let has_member = payload.get(key.as_str()).is_some();
    let response = if has_member {
        match take_member(payload, key.as_str()) {
            Some(v) => v,
            None => JsonValue::Null,
        }
    } else {
        payload
    };
    assert(response.model() == method_response(method@, whole));
    let code = match member_text(&response, "code") {
        Some(c) => c,
        None => owned("10000"),
    };
    if !str_eq(code.as_str(), "10000") {
        let message = match response.get("sub_msg") {
            Some(v) => match v.as_text() {
                Some(t) => owned(t),
                None => owned("Alipay request failed"),
            },
            None => match member_text(&response, "msg") {
                Some(t) => t,
                None => owned("Alipay request failed"),
            },
        };
        let mut m = owned("Alipay ");
        m.append(method);
        m.append(" failed (");
        m.append(code.as_str());
        m.append("): ");
        m.append(message.as_str());
        return Err(ProviderError::Transport { provider_code: owned(ALIPAY_PROVIDER_CODE), message: m });
    }
    Ok(response)
}

/// The provider's identity of what an answer is about: its trade number,
/// else the merchant trade number, else the notification id.
pub open spec fn alipay_native_id(response: Json) -> Option<Seq<char>> {
    match json_str(json_member(response, "trade_no"@)) {
        Some(t) => Some(t),
        None => match json_str(json_member(response, "out_trade_no"@)) {
            Some(t) => Some(t),
            None => json_str(json_member(response, "notify_id"@)),
        },
    }
}

/// The raw status of an answer: its trade status, else its message.
pub open spec fn alipay_raw_status(response: Json) -> Option<Seq<char>> {
    match json_str(json_member(response, "trade_status"@)) {
        Some(t) => Some(t),
        None => json_str(json_member(response, "msg"@)),
    }
}

/// The outcome of an operation from the method's answer, which must name
/// the trade.
pub fn alipay_operation_outcome(operation: PaymentAdapterOperation, response: JsonValue) -> (r: Result<
    PaymentProviderOperationOutcome,
    ProviderError,
>)
    ensures
        match alipay_native_id(response.model()) {
            None => is_invalid_response(r, operation, "Alipay response is missing trade id"@),
            Some(id) => r matches Ok(o) && o.provider_code@ == "alipay"@ && opt_view(o.native_id) == Some(id)
                && opt_view(o.raw_status) == alipay_raw_status(response.model()) && o.payload.model()
                == response.model(),
        },
{
    let native_id = match member_text(&response, "trade_no") {
        Some(t) => Some(t),
        None => match member_text(&response, "out_trade_no") {
            Some(t) => Some(t),
            None => member_text(&response, "notify_id"),
        },
    };
    let native_id = match native_id {
        Some(id) => id,
        None => return Err(ProviderError::invalid_response(operation, "Alipay response is missing trade id")),
    };
    let raw_status = match member_text(&response, "trade_status") {
        Some(t) => Some(t),
        None => member_text(&response, "msg"),
    };
    Ok(
        PaymentProviderOperationOutcome {
            provider_code: owned(ALIPAY_PROVIDER_CODE),
            native_id: Some(native_id),
            raw_status,
            payload: response,
        },
    )
}

/// The value of the last field named `key`, as a JSON object of the
/// fields keeps it.
pub open spec fn form_last(fields: Seq<(Seq<char>, Seq<char>)>, key: Seq<char>) -> Option<Seq<char>>
    decreases fields.len(),
{
    if fields.len() == 0 {
        None
    } else if fields.last().0 == key {
        Some(fields.last().1)
    } else {
        form_last(fields.drop_last(), key)
    }
}

/// The fields of a form as a JSON object of texts; a later field replaces
/// an earlier one of the same name.
pub fn form_fields_to_json(fields: &Vec<(String, String)>) -> (r: JsonValue)
    ensures
        r.model() matches Json::Object(ms) && forall|k: Seq<char>| #[trigger] member_lookup(ms, k) == text_json(
            form_last(fields_view(fields@), k),
        ),
{
    let ghost fv = fields_view(fields@);
    let mut members: Vec<(String, JsonValue)> = Vec::new();
    let mut i: usize = 0;
    assert(member_models(members@) =~= Seq::<(Seq<char>, Json)>::empty());
    assert(fv.take(0) =~= Seq::<(Seq<char>, Seq<char>)>::empty());
    while i < fields.len()
        invariant
            0 <= i <= fields.len(),
            fv == fields_view(fields@),
            fv.len() == fields.len(),
            forall|k: Seq<char>| #[trigger] member_lookup(member_models(members@), k) == text_json(
                form_last(fv.take(i as int), k),
            ),
        decreases fields.len() - i,
    {
        proof {
            assert(fv.take(i + 1).drop_last() =~= fv.take(i as int));
            assert(fv.take(i + 1).last() == fv[i as int]);
        }
        set_member(&mut members, fields[i].0.as_str(), JsonValue::Str(owned(fields[i].1.as_str())));
        i = i + 1;
    }
    assert(fv.take(fields.len() as int) =~= fv);
    let doc = JsonValue::Object(members);
    assert(doc.model() == Json::Object(member_models(members@)));
    doc
}

/// A provider notification in normalised form.
#[derive(Debug)]
pub struct PaymentNormalizedWebhookEvent {
    pub provider_code: String,
    pub event_type: Option<String>,
    pub provider_event_id: Option<String>,
    pub out_trade_no: Option<String>,
    pub payment_status: Option<String>,
    pub payload: JsonValue,
}

/// Normalises an Alipay notification: the trade status is both the event
/// type and the payment status; the notification id identifies the event.
pub fn normalize_alipay_webhook(body: &[u8]) -> (r: Result<PaymentNormalizedWebhookEvent, ProviderError>)
    ensures
        !valid_utf8(body@) ==> is_invalid_response(
            r,
            PaymentAdapterOperation::NormalizeWebhook,
            "Alipay form body must be UTF-8: "@ + utf8_error_text(body@),
        ),
        valid_utf8(body@) ==> match form_fields(split_seq(decode_utf8(body@), '&')) {
            Err(m) => is_invalid_response(r, PaymentAdapterOperation::NormalizeWebhook, m),
            Ok(fs) => r matches Ok(e) && e.provider_code@ == "alipay"@ && opt_view(e.event_type) == form_last(
                fs,
                "trade_status"@,
            ) && opt_view(e.payment_status) == form_last(fs, "trade_status"@) && opt_view(e.provider_event_id)
                == form_last(fs, "notify_id"@) && opt_view(e.out_trade_no) == form_last(fs, "out_trade_no"@),
        },
{
    let fields = parse_form_body(body, PaymentAdapterOperation::NormalizeWebhook)?;
    let payload = form_fields_to_json(&fields);
    let status = member_text(&payload, "trade_status");
    let status_again = member_text(&payload, "trade_status");
    let event_id = member_text(&payload, "notify_id");
    let out_trade_no = member_text(&payload, "out_trade_no");
    Ok(
        PaymentNormalizedWebhookEvent {
            provider_code: owned(ALIPAY_PROVIDER_CODE),
            event_type: status,
            provider_event_id: event_id,
            out_trade_no,
            payment_status: status_again,
            payload,
        },
    )
}

/// The verdict of checking a notification's signature.
#[derive(Clone, Debug, PartialEq, Eq)]
pub struct PaymentWebhookVerificationOutcome {
    pub verified: bool,
    pub provider_event_id: Option<String>,
}

/// Checks an Alipay notification's signature over the canonical text of
/// its fields (without `sign` and `sign_type`); a verified notification
/// is identified by its notification id.
pub fn verify_alipay_webhook(signer: &RsaAlipaySigner, body: &[u8]) -> (r: Result<
    PaymentWebhookVerificationOutcome,
    ProviderError,
>)
    ensures
        !valid_utf8(body@) ==> is_invalid_response(
            r,
            PaymentAdapterOperation::VerifyWebhook,
            "Alipay form body must be UTF-8: "@ + utf8_error_text(body@),
        ),
        valid_utf8(body@) ==> match form_fields(split_seq(decode_utf8(body@), '&')) {
            Err(m) => is_invalid_response(r, PaymentAdapterOperation::VerifyWebhook, m),
            Ok(fs) => match form_lookup(fs, "sign"@) {
                None => is_invalid_request(r, PaymentAdapterOperation::VerifyWebhook, "Alipay webhook sign is required"@),
                Some(signature) => exists|c: Seq<char>|
                    #![trigger canonical_payload_of(fs, true, c)]
                    canonical_payload_of(fs, true, c) && match rsa2_signature_check(signer.public_pem(), c, signature) {
                        Ok(v) => r matches Ok(o) && o.verified == v && opt_view(o.provider_event_id) == if v {
                            form_lookup(fs, "notify_id"@)
                        } else {
                            None
                        },
                        Err((true, e)) => is_invalid_request(
                            r,
                            PaymentAdapterOperation::VerifyWebhook,
                            "invalid Alipay signature encoding: "@ + e,
                        ),
                        Err((false, e)) => is_invalid_request(
                            r,
                            PaymentAdapterOperation::VerifyWebhook,
                            "invalid Alipay signature: "@ + e,
                        ),
                    },
            },
        },
{
    let fields = parse_form_body(body, PaymentAdapterOperation::VerifyWebhook)?;
    let signature = match form_value(&fields, "sign") {
        Some(s) => s,
        None => return Err(
            ProviderError::invalid_request(PaymentAdapterOperation::VerifyWebhook, "Alipay webhook sign is required"),
        ),
    };
    let canonical = canonical_payload(&fields, true);
    let verified = signer.verify(canonical.as_str(), signature.as_str())?;
    let provider_event_id = if verified {
        form_value(&fields, "notify_id")
    } else {
        None
    };
    Ok(PaymentWebhookVerificationOutcome { verified, provider_event_id })
}

/// A request to create a payment with a provider.
#[derive(Debug)]
pub struct PaymentCreateIntentRequest {
    pub tenant_id: Option<String>,
    pub merchant_order_no: Option<String>,
    pub amount_minor: Option<i64>,
    pub currency: Option<String>,
    pub payment_scene: Option<String>,
    pub metadata: JsonValue,
}

/// The OpenAPI call that creates an Alipay payment.
#[derive(Debug)]
pub struct AlipayPaymentPlan {
    pub api_method: &'static str,
    pub return_field: Option<&'static str>,
    pub biz_content: JsonValue,
}

fn option_text(v: &Option<String>) -> (r: Option<&str>)
    ensures
        opt_str_view(r) == opt_view(*v),
{
    match v {
        Some(s) => Some(s.as_str()),
        None => None,
    }
}

/// The payment method key of a request: its trimmed scene, else a QR payment.
pub open spec fn alipay_method_key(scene: Option<Seq<char>>) -> Seq<char> {
    match opt_text(scene) {
        Some(k) => k,
        None => "alipay_qr"@,
    }
}

/// The first reason an Alipay payment request cannot be sent, if any: the
/// merchant order number, a positive amount and CNY are required, and the
/// method must be one Alipay serves (with a buyer for JSAPI).
pub open spec fn alipay_payment_refusal(request: PaymentCreateIntentRequest) -> Option<Seq<char>> {
    let key = alipay_method_key(opt_view(request.payment_scene));
    if opt_text(opt_view(request.merchant_order_no)) is None {
        Some("merchant_order_no"@ + " is required"@)
    } else if !(request.amount_minor matches Some(a) && a > 0) {
        Some("amount_minor"@ + " must be greater than zero"@)
    } else if opt_text(opt_view(request.currency)) is None {
        Some("currency"@ + " is required"@)
    } else if lower(opt_text(opt_view(request.currency))->0) != lower("CNY"@) {
        Some("Alipay domestic baseline currently supports CNY only"@)
    } else if !alipay_method_known(key) {
        Some("unsupported alipay method_key: "@ + key)
    } else if key == "alipay_jsapi"@ && alipay_buyer(request.metadata.model()) is None {
        Some("alipay_jsapi requires metadata.buyer_id (buyer's openid)"@)
    } else {
        None
    }
}

/// Plans the creation of an Alipay payment: the merchant order number,
/// a positive amount and CNY are required; the subject is the metadata's
/// subject, else the order number.
pub fn plan_alipay_payment(config: &AlipayPaymentProviderConfig, request: &PaymentCreateIntentRequest) -> (r: Result<
    AlipayPaymentPlan,
    ProviderError,
>)
    ensures
        match alipay_payment_refusal(*request) {
            Some(m) => is_invalid_request(r, PaymentAdapterOperation::CreatePaymentIntent, m),
            None => r matches Ok(p) && {
                let key = alipay_method_key(opt_view(request.payment_scene));
                let out = opt_text(opt_view(request.merchant_order_no))->0;
                &&& (p.api_method@, opt_str_view(p.return_field)) == alipay_method(key)
                &&& p.biz_content.model() matches Json::Object(ms) && forall|k: Seq<char>|
                    #[trigger] member_lookup(ms, k) == biz_content_member(
                        k,
                        out,
                        request.amount_minor->0,
                        match text_field(request.metadata.model(), "subject"@) {
                            Some(t) => t,
                            None => out,
                        },
                        opt_view(request.tenant_id),
                        opt_text(opt_view(config.notify_url)),
                        key,
                        request.metadata.model(),
                    )
            },
        },
{
    let out_trade_no = require_non_empty(
        option_text(&request.merchant_order_no),
        PaymentAdapterOperation::CreatePaymentIntent,
        "merchant_order_no",
    )?;
    let amount_minor = require_positive_amount(
        request.amount_minor,
        PaymentAdapterOperation::CreatePaymentIntent,
        "amount_minor",
    )?;
    require_cny(option_text(&request.currency), PaymentAdapterOperation::CreatePaymentIntent)?;
    let subject = match text_field_of(&request.metadata, "subject") {
        Some(t) => t,
        None => owned(out_trade_no.as_str()),
    };
    let scene = match &request.payment_scene {
        Some(v) => {
            let t = trim(v.as_str());
            if t.unicode_len() == 0 {
                owned("alipay_qr")
            } else {
                owned(t)
            }
        },
        None => owned("alipay_qr"),
    };
    let notify_url = normalized_optional(match &config.notify_url {
        Some(u) => Some(owned(u.as_str())),
        None => None,
    });
    let biz_content = build_alipay_biz_content(
        out_trade_no.as_str(),
        amount_minor,
        subject.as_str(),
        option_text(&request.tenant_id),
        option_text(&notify_url),
        scene.as_str(),
        &request.metadata,
    )?;
    let (api_method, return_field) = alipay_method_for_key(scene.as_str());
    Ok(AlipayPaymentPlan { api_method, return_field, biz_content })
}

/// The answer of a payment creation with the payer's link (if the method
/// has one and the answer gives it) also under `redirect_url`.
pub fn with_redirect_url(response: JsonValue, return_field: Option<&str>) -> (r: JsonValue)
    ensures
        match return_field {
            Some(f) => match json_str(json_member(response.model(), f@)) {
                Some(link) => r.model() matches Json::Object(ms) && response.model() matches Json::Object(before)
                    && forall|k: Seq<char>| #[trigger] member_lookup(ms, k) == if k == "redirect_url"@ {
                    Some(Json::Str(link))
                } else {
                    member_lookup(before, k)
                },
                None => r.model() == response.model(),
            },
            None => r.model() == response.model(),
        },
{
    let field = match return_field {
        Some(f) => f,
        None => return response,
    };
    let link = match member_text(&response, field) {
        Some(l) => l,
        None => return response,
    };
    match response {
        JsonValue::Object(members) => {
            let mut members = members;
            set_member(&mut members, "redirect_url", JsonValue::Str(link));
            let doc = JsonValue::Object(members);
            assert(doc.model() == Json::Object(member_models(members@)));
            doc
        },
        other => other,
    }
}

/// A request to refund a payment with a provider.
#[derive(Debug)]
pub struct PaymentCreateRefundRequest {
    pub payment_intent_id: Option<String>,
    pub refund_no: Option<String>,
    pub amount_minor: Option<i64>,
    pub reason: Option<String>,
    pub metadata: JsonValue,
}

/// The first reason an Alipay refund request cannot be sent, if any: the
/// trade, a positive amount and the refund request number are required.
pub open spec fn alipay_refund_refusal(request: PaymentCreateRefundRequest) -> Option<Seq<char>> {
    if opt_text(opt_view(request.payment_intent_id)) is None {
        Some("payment_intent_id"@ + " is required"@)
    } else if !(request.amount_minor matches Some(a) && a > 0) {
        Some("amount_minor"@ + " must be greater than zero"@)
    } else if opt_text(opt_view(request.refund_no)) is None {
        Some("refund_no"@ + " is required"@)
    } else {
        None
    }
}

/// The `biz_content` of a refund: the trade, the refund amount as a
/// decimal, the refund request number and the reason when one is given.
pub fn plan_alipay_refund(request: &PaymentCreateRefundRequest) -> (r: Result<JsonValue, ProviderError>)
    ensures
        match alipay_refund_refusal(*request) {
            Some(m) => is_invalid_request(r, PaymentAdapterOperation::CreateRefund, m),
            None => r matches Ok(doc) && doc.model() matches Json::Object(ms) && forall|k: Seq<char>|
                #[trigger] member_lookup(ms, k) == if k == "out_trade_no"@ {
                    text_json(opt_text(opt_view(request.payment_intent_id)))
                } else if k == "refund_amount"@ {
                    Some(Json::Str(minor_decimal_text(request.amount_minor->0 as int)))
                } else if k == "out_request_no"@ {
                    text_json(opt_text(opt_view(request.refund_no)))
                } else if k == "refund_reason"@ {
                    text_json(opt_text(opt_view(request.reason)))
                } else {
                    None
                },
        },
{
    let out_trade_no = require_non_empty(
        option_text(&request.payment_intent_id),
        PaymentAdapterOperation::CreateRefund,
        "payment_intent_id",
    )?;
    let amount_minor = require_positive_amount(request.amount_minor, PaymentAdapterOperation::CreateRefund, "amount_minor")?;
    let out_request_no = require_non_empty(option_text(&request.refund_no), PaymentAdapterOperation::CreateRefund, "refund_no")?;
    proof {
        reveal_strlit("out_trade_no");
        reveal_strlit("refund_amount");
        reveal_strlit("out_request_no");
        reveal_strlit("refund_reason");
        assert("out_trade_no"@.len() == 12);
        assert("refund_amount"@.len() == 13);
        assert("out_request_no"@.len() == 14);
        assert("refund_reason"@.len() == 13);
        assert("refund_amount"@[7] != "refund_reason"@[7]);
    }
    let mut members: Vec<(String, JsonValue)> = Vec::new();
    assert(member_models(members@) =~= Seq::<(Seq<char>, Json)>::empty());
    set_member(&mut members, "out_trade_no", JsonValue::Str(out_trade_no));
    set_member(&mut members, "refund_amount", JsonValue::Str(minor_to_decimal_string(amount_minor)));
    set_member(&mut members, "out_request_no", JsonValue::Str(out_request_no));
    let reason = normalized_optional(match &request.reason {
        Some(v) => Some(owned(v.as_str())),
        None => None,
    });
    match reason {
        Some(v) => set_member(&mut members, "refund_reason", JsonValue::Str(v)),
        None => {},
    }
    let doc = JsonValue::Object(members);
    assert(doc.model() == Json::Object(member_models(members@)));
    Ok(doc)
}

/// A request to look up or close a payment with a provider.
#[derive(Debug)]
pub struct PaymentTradeRequest {
    pub payment_intent_id: Option<String>,
    pub metadata: JsonValue,
}

/// A request to look up a refund with a provider.
#[derive(Debug)]
pub struct PaymentQueryRefundRequest {
    pub refund_no: Option<String>,
    pub metadata: JsonValue,
}

/// The OpenAPI method of a trade lookup: `alipay.trade.close` to cancel a
/// payment, `alipay.trade.query` otherwise.
pub open spec fn trade_lookup_method(operation: PaymentAdapterOperation) -> Seq<char> {
    if operation == PaymentAdapterOperation::CancelPaymentIntent {
        "alipay.trade.close"@
    } else {
        "alipay.trade.query"@
    }
}

/// The call that queries (or, for a cancellation, closes) an Alipay
/// payment: the method and a `biz_content` naming the trade; the payment's
/// merchant trade number is required.
pub fn plan_alipay_trade_lookup(request: &PaymentTradeRequest, operation: PaymentAdapterOperation) -> (r: Result<
    (&'static str, JsonValue),
    ProviderError,
>)
    ensures
        match opt_text(opt_view(request.payment_intent_id)) {
            None => is_invalid_request(r, operation, "payment_intent_id"@ + " is required"@),
            Some(t) => r matches Ok((m, doc)) && (m@ == trade_lookup_method(operation) && (doc.model() matches Json::Object(
                ms,
            ) && forall|k: Seq<char>| #[trigger] member_lookup(ms, k) == if k == "out_trade_no"@ {
                Some(Json::Str(t))
            } else {
                None
            })),
        },
{
    let out_trade_no = require_non_empty(option_text(&request.payment_intent_id), operation, "payment_intent_id")?;
    let mut members: Vec<(String, JsonValue)> = Vec::new();
    assert(member_models(members@) =~= Seq::<(Seq<char>, Json)>::empty());
    set_member(&mut members, "out_trade_no", JsonValue::Str(out_trade_no));
    let doc = JsonValue::Object(members);
    assert(doc.model() == Json::Object(member_models(members@)));
    let method = if operation == PaymentAdapterOperation::CancelPaymentIntent {
        "alipay.trade.close"
    } else {
        "alipay.trade.query"
    };
    Ok((method, doc))
}

/// The `biz_content` of a refund lookup (`alipay.trade.fastpay.refund.query`):
/// the trade from the request's metadata and the refund request number,
/// both required.
pub fn plan_alipay_refund_query(request: &PaymentQueryRefundRequest) -> (r: Result<JsonValue, ProviderError>)
    ensures
        match json_str(json_member(request.metadata.model(), "out_trade_no"@)) {
            None => is_invalid_request(r, PaymentAdapterOperation::QueryRefund, "metadata.out_trade_no"@ + " is required"@),
            Some(o) => match (opt_text(Some(o)), opt_text(opt_view(request.refund_no))) {
                (None, _) => is_invalid_request(
                    r,
                    PaymentAdapterOperation::QueryRefund,
                    "metadata.out_trade_no"@ + " is required"@,
                ),
                (Some(_), None) => is_invalid_request(r, PaymentAdapterOperation::QueryRefund, "refund_no"@ + " is required"@),
                (Some(t), Some(n)) => r matches Ok(doc) && (doc.model() matches Json::Object(ms) && forall|k: Seq<char>|
                    #[trigger] member_lookup(ms, k) == if k == "out_trade_no"@ {
                        Some(Json::Str(t))
                    } else if k == "out_request_no"@ {
                        Some(Json::Str(n))
                    } else {
                        None
                    }),
            },
        },
{
    proof {
        reveal_strlit("out_trade_no");
        reveal_strlit("out_request_no");
        assert("out_trade_no"@.len() == 12);
        assert("out_request_no"@.len() == 14);
    }
    let raw = match request.metadata.get("out_trade_no") {
        Some(v) => v.as_text(),
        None => None,
    };
    let out_trade_no = require_non_empty(raw, PaymentAdapterOperation::QueryRefund, "metadata.out_trade_no")?;
    let out_request_no = require_non_empty(option_text(&request.refund_no), PaymentAdapterOperation::QueryRefund, "refund_no")?;
    let mut members: Vec<(String, JsonValue)> = Vec::new();
    assert(member_models(members@) =~= Seq::<(Seq<char>, Json)>::empty());
    set_member(&mut members, "out_trade_no", JsonValue::Str(out_trade_no));
    set_member(&mut members, "out_request_no", JsonValue::Str(out_request_no));
    let doc = JsonValue::Object(members);
    assert(doc.model() == Json::Object(member_models(members@)));
    Ok(doc)
}

/// The parameters of a gateway call before signing: the application, the
/// method, the JSON format, UTF-8, RSA2, the time, version 1.0 and the
/// `biz_content` text.
pub open spec fn unsigned_gateway_params(app_id: Seq<char>, method: Seq<char>, timestamp: Seq<char>, biz_content: Json) -> Seq<
    (Seq<char>, Seq<char>),
> {
    seq![
        ("app_id"@, app_id),
        ("method"@, method),
        ("format"@, "JSON"@),
        ("charset"@, "utf-8"@),
        ("sign_type"@, "RSA2"@),
        ("timestamp"@, timestamp),
        ("version"@, "1.0"@),
        ("biz_content"@, json_text(biz_content)),
    ]
}

fn pair(k: &str, v: &str) -> (r: (String, String))
    ensures
        r.0@ == k@,
        r.1@ == v@,
{
    (owned(k), owned(v))
}

/// The signed parameters of a gateway call: the unsigned parameters and
/// their RSA2 signature over the canonical text (without `sign`).
pub fn alipay_gateway_params(
    app_id: &str,
    method: &str,
    timestamp: &str,
    biz_content: &JsonValue,
    signer: &RsaAlipaySigner,
) -> (r: Result<Vec<(String, String)>, ProviderError>)
    ensures
        exists|c: Seq<char>|
            #![trigger canonical_payload_of(unsigned_gateway_params(app_id@, method@, timestamp@, biz_content.model()), false, c)]
            canonical_payload_of(unsigned_gateway_params(app_id@, method@, timestamp@, biz_content.model()), false, c)
                && match rsa2_signature(signer.private_pem(), c) {
                Ok(sig) => r matches Ok(v) && fields_view(v@) == unsigned_gateway_params(
                    app_id@,
                    method@,
                    timestamp@,
                    biz_content.model(),
                ).push(("sign"@, sig)),
                Err(e) => is_invalid_request(r, PaymentAdapterOperation::CreatePaymentIntent, "Alipay signing failed: "@ + e),
            },
{
    let biz = write_json(biz_content);
    let mut params: Vec<(String, String)> = Vec::new();
    params.push(pair("app_id", app_id));
    params.push(pair("method", method));
    params.push(pair("format", "JSON"));
    params.push(pair("charset", "utf-8"));
    params.push(pair("sign_type", "RSA2"));
    params.push(pair("timestamp", timestamp));
    params.push(pair("version", "1.0"));
    params.push(pair("biz_content", biz.as_str()));
    assert(fields_view(params@) =~= unsigned_gateway_params(app_id@, method@, timestamp@, biz_content.model()));
    let canonical = canonical_payload(&params, false);
    let signature = signer.sign(canonical.as_str())?;
    let ghost unsigned = fields_view(params@);
    params.push(pair("sign", signature.as_str()));
    assert(fields_view(params@) =~= unsigned.push(("sign"@, signature@)));
    Ok(params)
}

} // verus!
