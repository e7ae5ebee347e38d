//! Routing fields read from a webhook body before its signature is
//! checked, to find the tenant's provider credentials.

use vstd::prelude::*;
use vstd::string::*;
use vstd::utf8::*;
use crate::form::{percent_decode_text, percent_decoding, utf8_text};
use crate::json::{json_bytes_document, json_member, parse_json_bytes, Json};
use crate::text::{ascii_lower, lower, opt_view, owned, split_by, split_once, split_once_seq, split_seq, str_eq, trim, trimmed};
use crate::webhook::{text_field, text_field_of};

verus! {

/// The merchant trade number and merchant account a webhook body names.
#[derive(Clone, Debug, PartialEq, Eq)]
pub struct WebhookPeekOutcome {
    pub out_trade_no: Option<String>,
    pub merchant_id: Option<String>,
}

/// A text with its percent escapes decoded, or as it is when it has none or
/// they cannot be decoded.
pub open spec fn decoded_or_raw(t: Seq<char>) -> Seq<char> {
    if !t.contains('%') {
        t
    } else {
        match percent_decoding(t) {
            Ok(d) => d,
            Err(_) => t,
        }
    }
}

/// The merchant trade number and application id of the `key=value` pieces
/// of an Alipay notification; a later non-blank value replaces an earlier one.
pub open spec fn alipay_peek(parts: Seq<Seq<char>>) -> (Option<Seq<char>>, Option<Seq<char>>)
    decreases parts.len(),
{
    if parts.len() == 0 {
        (None, None)
    } else {
        let before = alipay_peek(parts.drop_last());
        match split_once_seq(parts.last(), '=') {
            None => before,
            Some((k, v)) => {
                let key = decoded_or_raw(k);
                let value = decoded_or_raw(v);
                if key == "out_trade_no"@ && trimmed(value).len() > 0 {
                    (Some(value), before.1)
                } else if key == "app_id"@ && trimmed(value).len() > 0 {
                    (before.0, Some(value))
                } else {
                    before
                }
            },
        }
    }
}

/// The merchant order number a Stripe event's object carries in its metadata.
pub open spec fn stripe_peek(doc: Result<Json, Seq<char>>) -> Option<Seq<char>> {
    match doc {
        Err(_) => None,
        Ok(d) => match json_member(d, "data"@) {
            None => None,
            Some(data) => match json_member(data, "object"@) {
                None => None,
                Some(object) => match json_member(object, "metadata"@) {
                    None => None,
                    Some(metadata) => text_field(metadata, "merchant_order_no"@),
                },
            },
        },
    }
}

/// What a webhook body names for routing, by provider.
pub open spec fn routing_fields(provider_code: Seq<char>, body: Seq<u8>) -> (Option<Seq<char>>, Option<Seq<char>>) {
    let code = lower(provider_code);
    if code == "stripe"@ {
        (stripe_peek(json_bytes_document(body)), None)
    } else if code == "alipay"@ {
        if valid_utf8(body) {
            alipay_peek(split_seq(decode_utf8(body), '&'))
        } else {
            (None, None)
        }
    } else {
        (None, None)
    }
}

fn decode_or_keep(t: &str) -> (r: String)
    ensures
        r@ == decoded_or_raw(t@),
{
    match percent_decode_text(t) {
        Ok(d) => d,
        Err(_) => owned(t),
    }
}

fn peek_alipay(body: &[u8]) -> (r: WebhookPeekOutcome)
    ensures
        (opt_view(r.out_trade_no), opt_view(r.merchant_id)) == if valid_utf8(body@) {
            alipay_peek(split_seq(decode_utf8(body@), '&'))
        } else {
            (None, None)
        },
{
    let text = match utf8_text(body) {
        Ok(t) => t,
        Err(_) => return WebhookPeekOutcome { out_trade_no: None, merchant_id: None },
    };
    proof {
        encode_utf8_decode_utf8(text@);
    }
    let parts = split_by(text, '&');
    let ghost pv = parts@.map_values(|p: String| p@);
    let mut out_trade_no: Option<String> = None;
    let mut merchant_id: Option<String> = None;
    let mut i: usize = 0;
    assert(pv.take(0) =~= Seq::<Seq<char>>::empty());
    while i < parts.len()
        invariant
            0 <= i <= parts.len(),
            pv == parts@.map_values(|p: String| p@),
            (opt_view(out_trade_no), opt_view(merchant_id)) == alipay_peek(pv.take(i as int)),
        decreases parts.len() - i,
    {
        proof {
            assert(pv.take(i + 1).drop_last() =~= pv.take(i as int));
            assert(pv.take(i + 1).last() == parts@[i as int]@);
        }
        match split_once(parts[i].as_str(), '=') {
            Some((k, v)) => {
                let key = decode_or_keep(k);
                let value = decode_or_keep(v);
                let filled = trim(value.as_str()).unicode_len() > 0;
                if str_eq(key.as_str(), "out_trade_no") && filled {
                    out_trade_no = Some(value);
                } else if str_eq(key.as_str(), "app_id") && filled {
                    merchant_id = Some(value);
                }
            },
            None => {},
        }
        i = i + 1;
    }
    assert(pv.take(parts.len() as int) =~= pv);
    WebhookPeekOutcome { out_trade_no, merchant_id }
}

fn peek_stripe(body: &[u8]) -> (r: WebhookPeekOutcome)
    ensures
        opt_view(r.out_trade_no) == stripe_peek(json_bytes_document(body@)),
        r.merchant_id is None,
{
    let doc = match parse_json_bytes(body) {
        Ok(d) => d,
        Err(_) => return WebhookPeekOutcome { out_trade_no: None, merchant_id: None },
    };
    let out_trade_no = match doc.get("data") {
        Some(data) => match data.get("object") {
            Some(object) => match object.get("metadata") {
                Some(metadata) => text_field_of(metadata, "merchant_order_no"),
                None => None,
            },
            None => None,
        },
        None => None,
    };
    WebhookPeekOutcome { out_trade_no, merchant_id: None }
}

/// Reads the routing fields of an unsigned webhook body: Stripe's JSON
/// event names the merchant order in its object's metadata, Alipay's form
/// names the trade and application; other providers name nothing.
pub fn peek_webhook_routing_fields(provider_code: &str, body: &[u8]) -> (r: WebhookPeekOutcome)
    ensures
        (opt_view(r.out_trade_no), opt_view(r.merchant_id)) == routing_fields(provider_code@, body@),
{
    let code = ascii_lower(provider_code);
    if str_eq(code.as_str(), "stripe") {
        peek_stripe(body)
    } else if str_eq(code.as_str(), "alipay") {
        peek_alipay(body)
    } else {
        WebhookPeekOutcome { out_trade_no: None, merchant_id: None }
    }
}

} // verus!
