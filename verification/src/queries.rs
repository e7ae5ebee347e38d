//! Normalised queries and commands of the payment capability: scoped lookups,
//! paging windows and payment-method scene codes.

use vstd::prelude::*;
use vstd::string::*;
use crate::error::{message_with, ErrorKind, ServiceError};
use crate::intent::PaymentRecordItem;
use crate::params::{entry_view, keys_ascending, lookup, pairs_view, PaymentParams};
use crate::text::{
    ascii_lower, is_blank, lower, norm, normalized, opt_str_view, opt_text, opt_view, optional_text, owned,
    split_by, split_seq, str_eq, trim, trimmed,
};

verus! {

/// Whether a text is blank once trimmed.
pub open spec fn blank(s: Seq<char>) -> bool {
    trimmed(s).len() == 0
}

/// The first blank required field of a chain of checks: `name` when `value`
/// is blank, else the outcome of the remaining checks.
pub open spec fn missing(name: Seq<char>, value: Seq<char>, rest: Option<Seq<char>>) -> Option<Seq<char>> {
    if blank(value) {
        Some(name)
    } else {
        rest
    }
}

/// Whether a constructor result reports the missing field `field` (if any)
/// as a validation error.
pub open spec fn reports_missing<T>(r: Result<T, ServiceError>, missing: Option<Seq<char>>) -> bool {
    match missing {
        Some(f) => r matches Err(e) && e.kind == ErrorKind::Validation && e.message@ == f
            + " is required"@,
        None => r is Ok,
    }
}

/// Fails with a validation error naming `field` when `value` is blank.
pub fn require_non_empty(field: &str, value: &str) -> (r: Result<(), ServiceError>)
    ensures
        r is Ok <==> !blank(value@),
        r matches Err(e) ==> e.kind == ErrorKind::Validation && e.message@ == field@ + " is required"@,
{
    if is_blank(value) {
        Err(ServiceError { kind: ErrorKind::Validation, message: message_with(field, " is required") })
    } else {
        Ok(())
    }
}

/// The paging offset after clamping (`max(offset, 0)`).
pub open spec fn clamp_offset(offset: i64) -> i64 {
    if offset < 0 { 0 } else { offset }
}

/// The paging limit after clamping into `1..=200`.
pub open spec fn clamp_limit(limit: i64) -> i64 {
    if limit < 1 { 1 } else if limit > 200 { 200 } else { limit }
}

pub fn clamped_offset(offset: i64) -> (r: i64)
    ensures
        r == clamp_offset(offset),
{
    if offset < 0 { 0 } else { offset }
}

pub fn clamped_limit(limit: i64) -> (r: i64)
    ensures
        r == clamp_limit(limit),
{
    if limit < 1 { 1 } else if limit > 200 { 200 } else { limit }
}

#[derive(Clone, Debug, PartialEq, Eq)]
pub struct PaymentMethodListQuery {
    pub organization_id: Option<String>,
    pub tenant_id: String,
    pub offset: i64,
    pub limit: i64,
    /// Filters methods that expose the given channel scene code (`web`, `app`, ...).
    pub scene_code_filter: Option<String>,
}

#[derive(Clone, Debug, PartialEq, Eq)]
pub struct PaymentMethodItem {
    pub display_name: String,
    pub id: String,
    pub method_key: String,
    pub provider_code: String,
    pub scene_codes: Vec<String>,
    pub sort_order: i64,
}

#[derive(Clone, Debug, PartialEq, Eq)]
pub struct PaymentMethodListPage {
    pub items: Vec<PaymentMethodItem>,
    pub total_items: i64,
}

impl PaymentMethodListQuery {
    /// The first page (20 methods) of a tenant's methods.
    pub fn new(tenant_id: &str, organization_id: Option<&str>) -> (r: Result<Self, ServiceError>)
        ensures
            reports_missing(r, missing("tenant_id"@, tenant_id@, None)),
            r matches Ok(q) ==> q.tenant_id@ == trimmed(tenant_id@) && opt_view(q.organization_id)
                == opt_text(opt_str_view(organization_id)) && q.offset == 0 && q.limit == 20
                && q.scene_code_filter is None,
    {
        require_non_empty("tenant_id", tenant_id)?;
        Ok(PaymentMethodListQuery {
            organization_id: optional_text(organization_id),
            tenant_id: owned(trim(tenant_id)),
            offset: 0,
            limit: 20,
            scene_code_filter: None,
        })
    }

    /// The same query over the window at `offset` of `limit` methods, both clamped.
    pub fn with_paging(self, offset: i64, limit: i64) -> (r: Self)
        ensures
            r.offset == clamp_offset(offset),
            r.limit == clamp_limit(limit),
            r.tenant_id == self.tenant_id,
            r.organization_id == self.organization_id,
            r.scene_code_filter == self.scene_code_filter,
    {
        PaymentMethodListQuery {
            organization_id: self.organization_id,
            tenant_id: self.tenant_id,
            offset: clamped_offset(offset),
            limit: clamped_limit(limit),
            scene_code_filter: self.scene_code_filter,
        }
    }

    /// The same query restricted to one scene code.
    pub fn with_scene_code_filter(self, scene_code: Option<String>) -> (r: Self)
        ensures
            r.scene_code_filter == scene_code,
            r.tenant_id == self.tenant_id,
            r.organization_id == self.organization_id,
            r.offset == self.offset,
            r.limit == self.limit,
    {
        PaymentMethodListQuery {
            organization_id: self.organization_id,
            tenant_id: self.tenant_id,
            offset: self.offset,
            limit: self.limit,
            scene_code_filter: scene_code,
        }
    }
}

/// Exact equality of a text with a literal.
fn is(s: &String, lit: &str) -> (r: bool)
    ensures
        r == (s@ == lit@),
{
    str_eq(s.as_str(), lit)
}

/// The persisted scene code that an API `clientType` selects.
pub open spec fn scene_filter_of(client_type: Seq<char>) -> Option<Seq<char>> {
    let n = norm(client_type);
    if trimmed(client_type).len() == 0 {
        None
    } else if n == "pc"@ || n == "web"@ {
        Some("web"@)
    } else if n == "miniprogram"@ {
        Some("mini_program"@)
    } else {
        Some(n)
    }
}

/// Maps an API `clientType` wire value to the persisted `scene_code` filter.
pub fn scene_code_filter_from_client_type(client_type: Option<&str>) -> (r: Option<String>)
    ensures
        opt_view(r) == match client_type {
            Some(c) => scene_filter_of(c@),
            None => None,
        },
{
    let value = match client_type {
        Some(v) => trim(v),
        None => return None,
    };
    if value.unicode_len() == 0 {
        return None;
    }
    let n = ascii_lower(value);
    if is(&n, "pc") || is(&n, "web") {
        Some(owned("web"))
    } else if is(&n, "miniprogram") {
        Some(owned("mini_program"))
    } else {
        Some(n)
    }
}

/// The API product-type code of a persisted scene code (none for a blank one).
pub open spec fn product_code(scene: Seq<char>) -> Option<Seq<char>> {
    let n = norm(scene);
    if n.len() == 0 {
        None
    } else if n == "web"@ {
        Some("pc"@)
    } else {
        Some(n)
    }
}

/// The display name of an API product-type code.
pub open spec fn product_display_name(code: Seq<char>) -> Seq<char> {
    if code == "pc"@ {
        "PC"@
    } else if code == "app"@ {
        "App"@
    } else if code == "mini_program"@ {
        "Mini Program"@
    } else if code == "api"@ {
        "API"@
    } else {
        code
    }
}

/// Whether some scene of `scenes` maps to product code `c`.
pub open spec fn scenes_offer(scenes: Seq<Seq<char>>, c: Seq<char>) -> bool {
    exists|i: int| 0 <= i < scenes.len() && product_code(#[trigger] scenes[i]) == Some(c)
}

/// Whether some scene of `scenes` maps to a product code.
pub open spec fn scenes_offer_any(scenes: Seq<Seq<char>>) -> bool {
    exists|i: int| 0 <= i < scenes.len() && (#[trigger] product_code(scenes[i])) is Some
}

/// The product codes that a list of scenes exposes: those the scenes map to,
/// or `pc` alone when none maps to any.
pub open spec fn exposed_product(scenes: Seq<Seq<char>>, c: Seq<char>) -> bool {
    if scenes_offer_any(scenes) {
        scenes_offer(scenes, c)
    } else {
        c == "pc"@
    }
}

fn product_code_of(scene: &str) -> (r: Option<String>)
    ensures
        opt_view(r) == product_code(scene@),
{
    let n = normalized(scene);
    if n.as_str().unicode_len() == 0 {
        None
    } else if is(&n, "web") {
        Some(owned("pc"))
    } else {
        Some(n)
    }
}

/// The display name of an API product-type code.
pub fn wire_product_type_display_name(code: &str) -> (r: String)
    ensures
        r@ == product_display_name(code@),
{
    if str_eq(code, "pc") {
        owned("PC")
    } else if str_eq(code, "app") {
        owned("App")
    } else if str_eq(code, "mini_program") {
        owned("Mini Program")
    } else if str_eq(code, "api") {
        owned("API")
    } else {
        owned(code)
    }
}

/// Maps persisted scene codes to the API `productTypes` (code, display name)
/// pairs: each exposed code once, in ascending code order.
pub fn wire_product_types_from_scene_codes(scenes: &[String]) -> (r: Vec<(String, String)>)
    ensures
        keys_ascending(pairs_view(r@)),
        forall|c: Seq<char>| #[trigger] lookup(pairs_view(r@), c)
            == if exposed_product(scenes@.map_values(|t: String| t@), c) {
            Some(product_display_name(c))
        } else {
            None
        },
{
    let ghost sv = scenes@.map_values(|t: String| t@);
    let mut codes = PaymentParams::new();
    let mut any = false;
    let mut i: usize = 0;
    while i < scenes.len()
        invariant
            0 <= i <= scenes.len(),
            sv == scenes@.map_values(|t: String| t@),
            any == scenes_offer_any(sv.subrange(0, i as int)),
            forall|c: Seq<char>| #[trigger] lookup(codes@, c) == if scenes_offer(sv.subrange(0, i as int), c) {
                Some(product_display_name(c))
            } else {
                None
            },
        decreases scenes.len() - i,
    {
        let code = product_code_of(scenes[i].as_str());
        let ghost prev = sv.subrange(0, i as int);
        let ghost next = sv.subrange(0, i + 1);
        proof {
            assert(sv[i as int] == scenes@[i as int]@);
            assert(next =~= prev.push(sv[i as int]));
            assert forall|c: Seq<char>| scenes_offer(next, c) == (scenes_offer(prev, c) || product_code(
                sv[i as int],
            ) == Some(c)) by {
                if scenes_offer(next, c) {
                    let j = choose|j: int| 0 <= j < next.len() && product_code(#[trigger] next[j]) == Some(c);
                    if j < i {
                        assert(prev[j] == next[j]);
                    }
                }
                if scenes_offer(prev, c) {
                    let j = choose|j: int| 0 <= j < prev.len() && product_code(#[trigger] prev[j]) == Some(c);
                    assert(next[j] == prev[j]);
                }
                if product_code(sv[i as int]) == Some(c) {
                    assert(next[i as int] == sv[i as int]);
                }
            }
            assert(scenes_offer_any(next) == (scenes_offer_any(prev) || product_code(sv[i as int]) is Some)) by {
                if scenes_offer_any(next) {
                    let j = choose|j: int| 0 <= j < next.len() && (#[trigger] product_code(next[j])) is Some;
                    if j < i {
                        assert(prev[j] == next[j]);
                    }
                }
                if scenes_offer_any(prev) {
                    let j = choose|j: int| 0 <= j < prev.len() && (#[trigger] product_code(prev[j])) is Some;
                    assert(next[j] == prev[j]);
                }
                if product_code(sv[i as int]) is Some {
                    assert(next[i as int] == sv[i as int]);
                }
            }
        }
        match code {
            Some(c) => {
                let name = wire_product_type_display_name(c.as_str());
                codes.insert(c, name);
                any = true;
            },
            None => {},
        }
        i = i + 1;
    }
    proof {
        assert(sv.subrange(0, scenes.len() as int) =~= sv);
    }
    if !any {
        proof {
            assert forall|c: Seq<char>| !scenes_offer(sv, c) by {
                if scenes_offer(sv, c) {
                    let j = choose|j: int| 0 <= j < sv.len() && product_code(#[trigger] sv[j]) == Some(c);
                    assert(product_code(sv[j]) is Some);
                }
            }
        }
        codes.insert(owned("pc"), owned("PC"));
        proof {
            reveal_strlit("pc");
            reveal_strlit("PC");
        }
    }
    let entries = codes.entries();
    let mut out: Vec<(String, String)> = Vec::new();
    let mut k: usize = 0;
    while k < entries.len()
        invariant
            0 <= k <= entries.len(),
            entries@.map_values(|e: (String, String)| entry_view(e)) == codes@,
            out@.map_values(|e: (String, String)| entry_view(e)) =~= codes@.subrange(0, k as int),
        decreases entries.len() - k,
    {
        let a = entries[k].0.clone();
        let b = entries[k].1.clone();
        proof {
            assert(codes@[k as int] == entry_view(entries@[k as int]));
        }
        out.push((a, b));
        proof {
            assert(codes@.subrange(0, k + 1) =~= codes@.subrange(0, k as int).push(codes@[k as int]));
        }
        k = k + 1;
    }
    proof {
        assert(codes@.subrange(0, k as int) =~= codes@);
    }
    out
}

/// The non-blank, trimmed scene codes of a comma-separated list.
pub open spec fn scene_codes_of(value: Seq<char>) -> Seq<Seq<char>> {
    split_seq(value, ',').map_values(|p: Seq<char>| trimmed(p)).filter(|p: Seq<char>| p.len() > 0)
}

/// Parses a comma-separated scene-code list, dropping blank entries.
pub fn parse_scene_codes_csv(value: &str) -> (r: Vec<String>)
    ensures
        r@.map_values(|t: String| t@) == scene_codes_of(value@),
{
    let pieces = split_by(value, ',');
    let ghost pv = pieces@.map_values(|p: String| p@);
    let ghost tv = pv.map_values(|p: Seq<char>| trimmed(p));
    let mut out: Vec<String> = Vec::new();
    let mut i: usize = 0;
    while i < pieces.len()
        invariant
            0 <= i <= pieces.len(),
            pv == pieces@.map_values(|p: String| p@),
            tv == pv.map_values(|p: Seq<char>| trimmed(p)),
            out@.map_values(|t: String| t@) == tv.take(i as int).filter(|p: Seq<char>| p.len() > 0),
        decreases pieces.len() - i,
    {
        let t = trim(pieces[i].as_str());
        proof {
            assert(tv.take(i + 1).drop_last() =~= tv.take(i as int));
            assert(tv[i as int] == t@);
            reveal_with_fuel(Seq::<_>::filter, 1);
        }
        if t.unicode_len() > 0 {
            let ghost before = out@.map_values(|t: String| t@);
            out.push(owned(t));
            proof {
                assert(out@.map_values(|t: String| t@) =~= before.push(t@));
            }
        }
        i = i + 1;
    }
    proof {
        assert(tv.take(pieces.len() as int) =~= tv);
    }
    out
}

/// A payment method as the catalogue stores it, its scene codes read from
/// their comma-separated list.
pub fn payment_method_item_from_stored(
    id: String,
    method_key: String,
    display_name: String,
    provider_code: String,
    scene_codes: &str,
    sort_order: i64,
) -> (r: PaymentMethodItem)
    ensures
        r.id == id,
        r.method_key == method_key,
        r.display_name == display_name,
        r.provider_code == provider_code,
        r.scene_codes@.map_values(|t: String| t@) == scene_codes_of(scene_codes@),
        r.sort_order == sort_order,
{
    PaymentMethodItem {
        display_name,
        id,
        method_key,
        provider_code,
        scene_codes: parse_scene_codes_csv(scene_codes),
        sort_order,
    }
}

#[derive(Clone, Debug, PartialEq, Eq)]
pub struct PaymentRecordListQuery {
    pub organization_id: Option<String>,
    pub owner_user_id: String,
    pub tenant_id: String,
    pub offset: i64,
    pub limit: i64,
}

#[derive(Clone, Debug, PartialEq, Eq)]
pub struct PaymentRecordListPage {
    pub items: Vec<PaymentRecordItem>,
    pub total_items: i64,
}

#[derive(Clone, Debug, PartialEq, Eq)]
pub struct PaymentRecordDetailQuery {
    pub organization_id: Option<String>,
    pub owner_user_id: String,
    pub payment_id: String,
    pub tenant_id: String,
}

#[derive(Clone, Debug, PartialEq, Eq)]
pub struct PaymentRecordOrderListQuery {
    pub order_id: String,
    pub organization_id: Option<String>,
    pub owner_user_id: String,
    pub tenant_id: String,
    pub offset: i64,
    pub limit: i64,
}

#[derive(Clone, Debug, PartialEq, Eq)]
pub struct PaymentRecordOrderListPage {
    pub items: Vec<PaymentRecordItem>,
    pub total_items: i64,
}

#[derive(Clone, Debug, PartialEq, Eq)]
pub struct PaymentRecordOutTradeNoQuery {
    pub organization_id: Option<String>,
    pub out_trade_no: String,
    pub owner_user_id: String,
    pub tenant_id: String,
}

#[derive(Clone, Debug, PartialEq, Eq)]
pub struct PaymentRecordStatisticsQuery {
    pub organization_id: Option<String>,
    pub owner_user_id: String,
    pub tenant_id: String,
}

#[derive(Clone, Debug, PartialEq, Eq)]
pub struct PaymentRecordStatistics {
    pub total_payments: i64,
    pub pending_payments: i64,
    pub success_payments: i64,
    pub failed_payments: i64,
    pub timeout_payments: i64,
    pub closed_payments: i64,
}

#[derive(Clone, Debug, PartialEq, Eq)]
pub struct ClosePaymentRecordCommand {
    pub organization_id: Option<String>,
    pub owner_user_id: String,
    pub payment_id: String,
    pub tenant_id: String,
}

impl PaymentRecordListQuery {
    /// The first page (20 records) of an owner's payment records.
    pub fn new(tenant_id: &str, organization_id: Option<&str>, owner_user_id: &str) -> (r: Result<
        Self,
        ServiceError,
    >)
        ensures
            reports_missing(r, missing("tenant_id"@, tenant_id@, missing("owner_user_id"@, owner_user_id@, None))),
            r matches Ok(q) ==> q.tenant_id@ == trimmed(tenant_id@) && opt_view(q.organization_id)
                == opt_text(opt_str_view(organization_id)) && q.owner_user_id@ == trimmed(owner_user_id@)
                && q.offset == 0 && q.limit == 20,
    {
        require_non_empty("tenant_id", tenant_id)?;
        require_non_empty("owner_user_id", owner_user_id)?;
        Ok(PaymentRecordListQuery {
            organization_id: optional_text(organization_id),
            owner_user_id: owned(trim(owner_user_id)),
            tenant_id: owned(trim(tenant_id)),
            offset: 0,
            limit: 20,
        })
    }

    /// The same query over the window at `offset` of `limit` records, both clamped.
    pub fn with_paging(self, offset: i64, limit: i64) -> (r: Self)
        ensures
            r.offset == clamp_offset(offset),
            r.limit == clamp_limit(limit),
            r.tenant_id == self.tenant_id,
            r.organization_id == self.organization_id,
            r.owner_user_id == self.owner_user_id,
    {
        PaymentRecordListQuery {
            organization_id: self.organization_id,
            owner_user_id: self.owner_user_id,
            tenant_id: self.tenant_id,
            offset: clamped_offset(offset),
            limit: clamped_limit(limit),
        }
    }
}

impl PaymentRecordDetailQuery {
    pub fn new(tenant_id: &str, organization_id: Option<&str>, owner_user_id: &str, payment_id: &str) -> (r:
        Result<Self, ServiceError>)
        ensures
            reports_missing(
                r,
                missing(
                    "tenant_id"@,
                    tenant_id@,
                    missing("owner_user_id"@, owner_user_id@, missing("payment_id"@, payment_id@, None)),
                ),
            ),
            r matches Ok(q) ==> q.tenant_id@ == trimmed(tenant_id@) && opt_view(q.organization_id)
                == opt_text(opt_str_view(organization_id)) && q.owner_user_id@ == trimmed(owner_user_id@)
                && q.payment_id@ == trimmed(payment_id@),
    {
        require_non_empty("tenant_id", tenant_id)?;
        require_non_empty("owner_user_id", owner_user_id)?;
        require_non_empty("payment_id", payment_id)?;
        Ok(PaymentRecordDetailQuery {
            organization_id: optional_text(organization_id),
            owner_user_id: owned(trim(owner_user_id)),
            payment_id: owned(trim(payment_id)),
            tenant_id: owned(trim(tenant_id)),
        })
    }
}

impl ClosePaymentRecordCommand {
    pub fn new(tenant_id: &str, organization_id: Option<&str>, owner_user_id: &str, payment_id: &str) -> (r:
        Result<Self, ServiceError>)
        ensures
            reports_missing(
                r,
                missing(
                    "tenant_id"@,
                    tenant_id@,
                    missing("owner_user_id"@, owner_user_id@, missing("payment_id"@, payment_id@, None)),
                ),
            ),
            r matches Ok(q) ==> q.tenant_id@ == trimmed(tenant_id@) && opt_view(q.organization_id)
                == opt_text(opt_str_view(organization_id)) && q.owner_user_id@ == trimmed(owner_user_id@)
                && q.payment_id@ == trimmed(payment_id@),
    {
        require_non_empty("tenant_id", tenant_id)?;
        require_non_empty("owner_user_id", owner_user_id)?;
        require_non_empty("payment_id", payment_id)?;
        Ok(ClosePaymentRecordCommand {
            organization_id: optional_text(organization_id),
            owner_user_id: owned(trim(owner_user_id)),
            payment_id: owned(trim(payment_id)),
            tenant_id: owned(trim(tenant_id)),
        })
    }
}

impl PaymentRecordOrderListQuery {
    pub fn new(tenant_id: &str, organization_id: Option<&str>, owner_user_id: &str, order_id: &str) -> (r:
        Result<Self, ServiceError>)
        ensures
            reports_missing(
                r,
                missing(
                    "tenant_id"@,
                    tenant_id@,
                    missing("owner_user_id"@, owner_user_id@, missing("order_id"@, order_id@, None)),
                ),
            ),
            r matches Ok(q) ==> q.tenant_id@ == trimmed(tenant_id@) && opt_view(q.organization_id)
                == opt_text(opt_str_view(organization_id)) && q.owner_user_id@ == trimmed(owner_user_id@)
                && q.order_id@ == trimmed(order_id@) && q.offset == 0 && q.limit == 20,
    {
        require_non_empty("tenant_id", tenant_id)?;
        require_non_empty("owner_user_id", owner_user_id)?;
        require_non_empty("order_id", order_id)?;
        Ok(PaymentRecordOrderListQuery {
            order_id: owned(trim(order_id)),
            organization_id: optional_text(organization_id),
            owner_user_id: owned(trim(owner_user_id)),
            tenant_id: owned(trim(tenant_id)),
            offset: 0,
            limit: 20,
        })
    }

    pub fn with_paging(self, offset: i64, limit: i64) -> (r: Self)
        ensures
            r.offset == clamp_offset(offset),
            r.limit == clamp_limit(limit),
            r.tenant_id == self.tenant_id,
            r.organization_id == self.organization_id,
            r.owner_user_id == self.owner_user_id,
            r.order_id == self.order_id,
    {
        PaymentRecordOrderListQuery {
            order_id: self.order_id,
            organization_id: self.organization_id,
            owner_user_id: self.owner_user_id,
            tenant_id: self.tenant_id,
            offset: clamped_offset(offset),
            limit: clamped_limit(limit),
        }
    }
}

impl PaymentRecordOutTradeNoQuery {
    pub fn new(tenant_id: &str, organization_id: Option<&str>, owner_user_id: &str, out_trade_no: &str) -> (r:
        Result<Self, ServiceError>)
        ensures
            reports_missing(
                r,
                missing(
                    "tenant_id"@,
                    tenant_id@,
                    missing("owner_user_id"@, owner_user_id@, missing("out_trade_no"@, out_trade_no@, None)),
                ),
            ),
            r matches Ok(q) ==> q.tenant_id@ == trimmed(tenant_id@) && opt_view(q.organization_id)
                == opt_text(opt_str_view(organization_id)) && q.owner_user_id@ == trimmed(owner_user_id@)
                && q.out_trade_no@ == trimmed(out_trade_no@),
    {
        require_non_empty("tenant_id", tenant_id)?;
        require_non_empty("owner_user_id", owner_user_id)?;
        require_non_empty("out_trade_no", out_trade_no)?;
        Ok(PaymentRecordOutTradeNoQuery {
            organization_id: optional_text(organization_id),
            out_trade_no: owned(trim(out_trade_no)),
            owner_user_id: owned(trim(owner_user_id)),
            tenant_id: owned(trim(tenant_id)),
        })
    }
}

impl PaymentRecordStatisticsQuery {
    pub fn new(tenant_id: &str, organization_id: Option<&str>, owner_user_id: &str) -> (r: Result<
        Self,
        ServiceError,
    >)
        ensures
            reports_missing(r, missing("tenant_id"@, tenant_id@, missing("owner_user_id"@, owner_user_id@, None))),
            r matches Ok(q) ==> q.tenant_id@ == trimmed(tenant_id@) && opt_view(q.organization_id)
                == opt_text(opt_str_view(organization_id)) && q.owner_user_id@ == trimmed(owner_user_id@),
    {
        require_non_empty("tenant_id", tenant_id)?;
        require_non_empty("owner_user_id", owner_user_id)?;
        Ok(PaymentRecordStatisticsQuery {
            organization_id: optional_text(organization_id),
            owner_user_id: owned(trim(owner_user_id)),
            tenant_id: owned(trim(tenant_id)),
        })
    }
}

} // verus!
