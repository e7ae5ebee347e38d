//! Deterministic storage identities and lock keys.

use vstd::prelude::*;
use vstd::string::*;
use vstd::utf8::*;
use crate::num::{decimal, decimal_value, lemma_decimal_round_trip, push_decimal};
use crate::owner_payment::CreateOwnerRefundCommand;
use crate::text::{all_digits, char_is_alnum, is_alnum, is_digit, push_char};

verus! {

/// The number of bytes of the UTF-8 encoding of a text (`str::len`).
pub open spec fn utf8_len(s: Seq<char>) -> nat {
    encode_utf8(s).len()
}

pub proof fn lemma_encode_utf8_concat(a: Seq<char>, b: Seq<char>)
    ensures
        encode_utf8(a + b) == encode_utf8(a) + encode_utf8(b),
    decreases a.len(),
{
    if a.len() == 0 {
        assert(a + b =~= b);
        assert(encode_utf8(a) =~= Seq::<u8>::empty());
        assert(encode_utf8(a) + encode_utf8(b) =~= encode_utf8(b));
    } else {
        assert((a + b).drop_first() =~= a.drop_first() + b);
        lemma_encode_utf8_concat(a.drop_first(), b);
        assert((a + b)[0] == a[0]);
        assert(encode_utf8(a + b) =~= encode_scalar(a[0] as u32) + (encode_utf8(a.drop_first()) + encode_utf8(b)));
    }
}

/// Every character takes at least one byte.
pub proof fn lemma_utf8_len_at_least(s: Seq<char>)
    ensures
        utf8_len(s) >= s.len(),
    decreases s.len(),
{
    if s.len() > 0 {
        lemma_utf8_len_at_least(s.drop_first());
    }
}

/// The number of bytes of the UTF-8 encoding of one character.
pub open spec fn char_width(c: char) -> nat {
    encode_scalar(c as u32).len()
}

/// The byte length of one character, as `char::len_utf8` gives it.
pub fn char_utf8_width(c: char) -> (r: usize)
    ensures
        r == char_width(c),
        1 <= r <= 4,
{
    let v = c as u32;
    proof {
        char_is_scalar(c);
    }
    if v <= 0x7F {
        1
    } else if v <= 0x7FF {
        2
    } else if v <= 0xFFFF {
        3
    } else {
        4
    }
}

/// Adding a character adds its width to the byte length.
pub proof fn lemma_utf8_len_push(s: Seq<char>, c: char)
    ensures
        utf8_len(s.push(c)) == utf8_len(s) + char_width(c),
{
    lemma_encode_utf8_concat(s, seq![c]);
    assert(s.push(c) =~= s + seq![c]);
    assert(seq![c].drop_first() =~= Seq::<char>::empty());
    assert(encode_utf8(seq![c]) =~= encode_scalar(c as u32) + encode_utf8(Seq::<char>::empty()));
    assert(encode_utf8(Seq::<char>::empty()) =~= Seq::<u8>::empty());
    assert(encode_utf8(seq![c]) =~= encode_scalar(c as u32));
}

/// A longer prefix of a text has more bytes.
pub proof fn lemma_utf8_len_prefix_grows(s: Seq<char>, j: int, k: int)
    requires
        0 <= j < k <= s.len(),
    ensures
        utf8_len(s.take(j)) < utf8_len(s.take(k)),
    decreases k - j,
{
    proof_char_width_positive(s[k - 1]);
    assert(s.take(k) =~= s.take(k - 1).push(s[k - 1]));
    lemma_utf8_len_push(s.take(k - 1), s[k - 1]);
    if j < k - 1 {
        lemma_utf8_len_prefix_grows(s, j, k - 1);
    }
}

proof fn proof_char_width_positive(c: char)
    ensures
        char_width(c) >= 1,
{
    char_is_scalar(c);
}

/// The first `max` bytes of a text (all of it when it is shorter), as the
/// byte slice `&s[..s.len().min(max)]` takes them; the cut must fall on a
/// character boundary.
pub fn byte_prefix(s: &str, max: usize) -> (r: String)
    requires
        exists|k: int| 0 <= k <= s@.len() && utf8_len(#[trigger] s@.take(k)) == if utf8_len(s@) < max {
            utf8_len(s@)
        } else {
            max as nat
        },
    ensures
        s@.take(r@.len() as int) == r@,
        r@.len() <= s@.len(),
        utf8_len(r@) == if utf8_len(s@) < max {
            utf8_len(s@)
        } else {
            max as nat
        },
{
    let n = s.unicode_len();
    let mut i: usize = 0;
    let mut bytes: usize = 0;
    let mut out = String::new();
    let mut done = false;
    assert(s@.take(0) =~= Seq::<char>::empty());
    assert(encode_utf8(Seq::<char>::empty()) =~= Seq::<u8>::empty());
    while i < n && !done
        invariant
            n == s@.len(),
            0 <= i <= n,
            bytes == utf8_len(s@.take(i as int)),
            bytes <= max,
            out@ == s@.take(i as int),
            done ==> i < n && utf8_len(s@.take(i + 1)) > max,
        decreases (n - i) * 2 + if done { 0int } else { 1int },
    {
        let c = s.get_char(i);
        let w = char_utf8_width(c);
        proof {
            assert(s@.take(i + 1) =~= s@.take(i as int).push(c));
            lemma_utf8_len_push(s@.take(i as int), c);
        }
        if w <= max - bytes {
            bytes = bytes + w;
            push_char(&mut out, c);
            i = i + 1;
        } else {
            done = true;
        }
    }
    proof {
        let total = utf8_len(s@);
        let goal = if total < max { total } else { max as nat };
        let k = choose|k: int| 0 <= k <= s@.len() && utf8_len(#[trigger] s@.take(k)) == goal;
        assert(s@.take(n as int) =~= s@);
        if i < n {
            if i + 1 < n {
                lemma_utf8_len_prefix_grows(s@, i + 1, n as int);
            }
            if k < i {
                lemma_utf8_len_prefix_grows(s@, k, i as int);
            } else if k > i {
                if k == i + 1 {
                } else {
                    lemma_utf8_len_prefix_grows(s@, i + 1, k);
                }
            }
        }
    }
    out
}

/// A text is a frame of its byte length in decimal, a colon and the text.
pub open spec fn lock_component(v: Seq<char>) -> Seq<char> {
    decimal(utf8_len(v)) + seq![':'] + v
}

/// The advisory lock key that serialises checkout work on one order.
pub open spec fn checkout_lock_key_spec(tenant_id: Seq<char>, organization_id: Option<Seq<char>>, order_id: Seq<char>) -> Seq<char> {
    "payment-checkout:v1|"@ + lock_component(tenant_id) + seq!['|'] + match organization_id {
        Some(o) => lock_component(o),
        None => "none"@,
    } + seq!['|'] + lock_component(order_id)
}

/// Appends the frame of `v` to `out`.
fn push_component(out: &mut String, v: &str)
    ensures
        final(out)@ == old(out)@ + lock_component(v@),
{
    let n = v.as_bytes().len();
    push_decimal(out, n as u64);
    push_char(out, ':');
    out.append(v);
    assert(final(out)@ =~= old(out)@ + lock_component(v@));
}

/// The lock key of the checkout of `order_id` in its tenant and organization.
pub fn checkout_lock_key_from_parts(tenant_id: &str, organization_id: Option<&str>, order_id: &str) -> (r: String)
    ensures
        r@ == checkout_lock_key_spec(
            tenant_id@,
            match organization_id {
                Some(o) => Some(o@),
                None => None,
            },
            order_id@,
        ),
{
    let mut out = "payment-checkout:v1|".to_owned();
    push_component(&mut out, tenant_id);
    push_char(&mut out, '|');
    match organization_id {
        Some(o) => push_component(&mut out, o),
        None => out.append("none"),
    }
    push_char(&mut out, '|');
    push_component(&mut out, order_id);
    assert(out@ =~= checkout_lock_key_spec(
        tenant_id@,
        match organization_id {
            Some(o) => Some(o@),
            None => None,
        },
        order_id@,
    ));
    out
}

/// The order a checkout enriches, in its tenant and organization, with the
/// payment scene that was asked for.
#[derive(Clone, Copy, Debug, PartialEq, Eq)]
pub struct OwnerOrderPaymentEnrichmentContext<'a> {
    pub tenant_id: &'a str,
    pub organization_id: Option<&'a str>,
    pub order_id: &'a str,
    pub payment_scene: Option<&'a str>,
}

impl<'a> OwnerOrderPaymentEnrichmentContext<'a> {
    /// The lock key that serialises checkout work on this context's order.
    pub fn checkout_lock_key(&self) -> (r: String)
        ensures
            r@ == checkout_lock_key_spec(
                self.tenant_id@,
                match self.organization_id {
                    Some(o) => Some(o@),
                    None => None,
                },
                self.order_id@,
            ),
    {
        checkout_lock_key_from_parts(self.tenant_id, self.organization_id, self.order_id)
    }
}

/// Two framed texts followed by anything are equal only when the framed
/// texts and what follows are equal.
pub proof fn lemma_frame_unique(x1: Seq<char>, r1: Seq<char>, x2: Seq<char>, r2: Seq<char>)
    requires
        lock_component(x1) + r1 == lock_component(x2) + r2,
    ensures
        x1 == x2,
        r1 == r2,
{
    let a = decimal(utf8_len(x1));
    let b = decimal(utf8_len(x2));
    let s = lock_component(x1) + r1;
    lemma_decimal_round_trip(utf8_len(x1));
    lemma_decimal_round_trip(utf8_len(x2));
    if a.len() < b.len() {
        assert(s[a.len() as int] == ':');
        assert(s[a.len() as int] == b[a.len() as int]);
        assert(is_digit(b[a.len() as int]));
    } else if b.len() < a.len() {
        assert(s[b.len() as int] == ':');
        assert(s[b.len() as int] == a[b.len() as int]);
        assert(is_digit(a[b.len() as int]));
    }
    assert(a.len() == b.len());
    assert(a =~= s.subrange(0, a.len() as int));
    assert(b =~= s.subrange(0, a.len() as int));
    assert(utf8_len(x1) == utf8_len(x2));
    let t = s.subrange(a.len() as int + 1, s.len() as int);
    assert(t =~= x1 + r1);
    assert(t =~= x2 + r2);
    if x1.len() <= x2.len() {
        let y = x2.subrange(x1.len() as int, x2.len() as int);
        assert(x2 =~= x1 + y) by {
            assert forall|i: int| 0 <= i < x1.len() implies x2[i] == x1[i] by {
                assert(t[i] == x1[i]);
                assert(t[i] == x2[i]);
            }
        }
        lemma_encode_utf8_concat(x1, y);
        lemma_utf8_len_at_least(y);
        assert(y.len() == 0);
        assert(x2 =~= x1);
        assert(r1 =~= t.subrange(x1.len() as int, t.len() as int));
        assert(r2 =~= t.subrange(x2.len() as int, t.len() as int));
    } else {
        let y = x1.subrange(x2.len() as int, x1.len() as int);
        assert(x1 =~= x2 + y) by {
            assert forall|i: int| 0 <= i < x2.len() implies x1[i] == x2[i] by {
                assert(t[i] == x1[i]);
                assert(t[i] == x2[i]);
            }
        }
        lemma_encode_utf8_concat(x2, y);
        lemma_utf8_len_at_least(y);
        assert(y.len() == 0);
        assert(false);
    }
}

/// Checkout lock keys are unambiguous: different (tenant, organization,
/// order) scopes never share a key, and a missing organization never
/// collides with any present one.
pub proof fn lemma_checkout_lock_key_injective(
    t1: Seq<char>,
    o1: Option<Seq<char>>,
    d1: Seq<char>,
    t2: Seq<char>,
    o2: Option<Seq<char>>,
    d2: Seq<char>,
)
    requires
        checkout_lock_key_spec(t1, o1, d1) == checkout_lock_key_spec(t2, o2, d2),
    ensures
        t1 == t2,
        o1 == o2,
        d1 == d2,
{
    let p = "payment-checkout:v1|"@;
    let org1 = match o1 {
        Some(o) => lock_component(o),
        None => "none"@,
    };
    let org2 = match o2 {
        Some(o) => lock_component(o),
        None => "none"@,
    };
    let rest1 = seq!['|'] + org1 + seq!['|'] + lock_component(d1);
    let rest2 = seq!['|'] + org2 + seq!['|'] + lock_component(d2);
    let k1 = checkout_lock_key_spec(t1, o1, d1);
    assert(k1 =~= p + (lock_component(t1) + rest1));
    assert(checkout_lock_key_spec(t2, o2, d2) =~= p + (lock_component(t2) + rest2));
    assert(lock_component(t1) + rest1 =~= k1.subrange(p.len() as int, k1.len() as int));
    assert(lock_component(t2) + rest2 =~= k1.subrange(p.len() as int, k1.len() as int));
    lemma_frame_unique(t1, rest1, t2, rest2);
    let u1 = org1 + (seq!['|'] + lock_component(d1));
    let u2 = org2 + (seq!['|'] + lock_component(d2));
    assert(rest1 =~= seq!['|'] + u1);
    assert(rest2 =~= seq!['|'] + u2);
    assert(u1 =~= rest1.drop_first());
    assert(u2 =~= rest2.drop_first());
    reveal_strlit("none");
    match (o1, o2) {
        (Some(a), Some(b)) => {
            assert(lock_component(a) + (seq!['|'] + lock_component(d1)) =~= u1);
            assert(lock_component(b) + (seq!['|'] + lock_component(d2)) =~= u2);
            lemma_frame_unique(a, seq!['|'] + lock_component(d1), b, seq!['|'] + lock_component(d2));
            let w1 = seq!['|'] + lock_component(d1);
            let w2 = seq!['|'] + lock_component(d2);
            assert(w1 == w2);
            assert(lock_component(d1) =~= w1.drop_first());
            assert(lock_component(d2) =~= w2.drop_first());
            assert(lock_component(d1) + Seq::<char>::empty() =~= lock_component(d1));
            assert(lock_component(d2) + Seq::<char>::empty() =~= lock_component(d2));
            lemma_frame_unique(d1, Seq::<char>::empty(), d2, Seq::<char>::empty());
        },
        (None, None) => {
            assert(u1 == u2);
            assert(u1.subrange(5, u1.len() as int) =~= lock_component(d1));
            assert(u2.subrange(5, u2.len() as int) =~= lock_component(d2));
            assert(lock_component(d1) + Seq::<char>::empty() =~= lock_component(d1));
            assert(lock_component(d2) + Seq::<char>::empty() =~= lock_component(d2));
            lemma_frame_unique(d1, Seq::<char>::empty(), d2, Seq::<char>::empty());
        },
        (Some(a), None) => {
            lemma_decimal_round_trip(utf8_len(a));
            assert(u1[0] == decimal(utf8_len(a))[0]);
            assert(is_digit(u1[0]));
            assert(u2[0] == 'n');
        },
        (None, Some(b)) => {
            lemma_decimal_round_trip(utf8_len(b));
            assert(u2[0] == decimal(utf8_len(b))[0]);
            assert(is_digit(u2[0]));
            assert(u1[0] == 'n');
        },
    }
}

/// The character that a storage identity keeps for `c`: ASCII letters,
/// digits, `-`, `_` and `.` stay, anything else becomes `-`.
pub open spec fn safe_char(c: char) -> char {
    if is_alnum(c) || c == '-' || c == '_' || c == '.' {
        c
    } else {
        '-'
    }
}

pub open spec fn sanitize(p: Seq<char>) -> Seq<char> {
    p.map_values(|c: char| safe_char(c))
}

/// The texts of `parts` joined by `-`.
pub open spec fn join_dash(parts: Seq<Seq<char>>) -> Seq<char>
    decreases parts.len(),
{
    if parts.len() == 0 {
        Seq::<char>::empty()
    } else if parts.len() == 1 {
        parts[0]
    } else {
        join_dash(parts.drop_last()) + seq!['-'] + parts.last()
    }
}

/// A deterministic, filesystem-safe storage identity made of its parts.
pub open spec fn storage_id(parts: Seq<Seq<char>>) -> Seq<char> {
    join_dash(parts.map_values(|p: Seq<char>| sanitize(p)))
}

/// Whether a text holds only the characters that storage identities use.
pub open spec fn storage_safe(s: Seq<char>) -> bool {
    forall|i: int| 0 <= i < s.len() ==> is_alnum(#[trigger] s[i]) || s[i] == '-' || s[i] == '_' || s[i]
        == '.'
}

fn push_sanitized(out: &mut String, part: &str)
    ensures
        final(out)@ == old(out)@ + sanitize(part@),
{
    let n = part.unicode_len();
    let mut i: usize = 0;
    let ghost start = out@;
    while i < n
        invariant
            n == part@.len(),
            0 <= i <= n,
            out@ == start + sanitize(part@.subrange(0, i as int)),
        decreases n - i,
    {
        let c = part.get_char(i);
        let keep = char_is_alnum(c) || c == '-' || c == '_' || c == '.';
        if keep {
            push_char(out, c);
        } else {
            push_char(out, '-');
        }
        proof {
            assert(sanitize(part@.subrange(0, i + 1)) =~= sanitize(part@.subrange(0, i as int)).push(safe_char(c)));
        }
        i = i + 1;
    }
    assert(part@.subrange(0, n as int) =~= part@);
}

/// Joins the sanitised parts with `-`.
pub fn stable_storage_id(parts: &[&str]) -> (r: String)
    ensures
        r@ == storage_id(parts@.map_values(|p: &str| p@)),
{
    let ghost pv = parts@.map_values(|p: &str| p@);
    let ghost sv = pv.map_values(|p: Seq<char>| sanitize(p));
    let mut out = String::new();
    let mut i: usize = 0;
    while i < parts.len()
        invariant
            0 <= i <= parts.len(),
            pv == parts@.map_values(|p: &str| p@),
            sv == pv.map_values(|p: Seq<char>| sanitize(p)),
            out@ == join_dash(sv.subrange(0, i as int)),
        decreases parts.len() - i,
    {
        if i > 0 {
            push_char(&mut out, '-');
        }
        push_sanitized(&mut out, parts[i]);
        proof {
            let next = sv.subrange(0, i + 1);
            assert(next.drop_last() =~= sv.subrange(0, i as int));
            assert(next.last() == sanitize(parts@[i as int]@));
            if i == 0 {
                assert(out@ =~= next[0]);
            }
        }
        i = i + 1;
    }
    assert(sv.subrange(0, parts.len() as int) =~= sv);
    out
}

pub proof fn lemma_join_dash_safe(parts: Seq<Seq<char>>)
    requires
        forall|i: int| 0 <= i < parts.len() ==> storage_safe(#[trigger] parts[i]),
    ensures
        storage_safe(join_dash(parts)),
    decreases parts.len(),
{
    if parts.len() > 1 {
        lemma_join_dash_safe(parts.drop_last());
        let a = join_dash(parts.drop_last());
        let s = a + seq!['-'] + parts.last();
        assert forall|i: int| 0 <= i < s.len() implies is_alnum(#[trigger] s[i]) || s[i] == '-' || s[i] == '_'
            || s[i] == '.' by {
            if i < a.len() {
                assert(s[i] == a[i]);
            } else if i > a.len() {
                assert(s[i] == parts.last()[i - a.len() - 1]);
            }
        }
    }
}

/// Storage identities only ever hold ASCII letters, digits, `-`, `_` and `.`.
pub proof fn lemma_storage_id_is_safe(parts: Seq<Seq<char>>)
    ensures
        storage_safe(storage_id(parts)),
{
    let sv = parts.map_values(|p: Seq<char>| sanitize(p));
    assert forall|i: int| 0 <= i < sv.len() implies storage_safe(#[trigger] sv[i]) by {
        let p = parts[i];
        assert forall|j: int| 0 <= j < sv[i].len() implies is_alnum(#[trigger] sv[i][j]) || sv[i][j] == '-'
            || sv[i][j] == '_' || sv[i][j] == '.' by {
            assert(sv[i][j] == safe_char(p[j]));
        }
    }
    lemma_join_dash_safe(sv);
}

/// The storage identity of the refund that a command creates: one per
/// tenant, order and idempotency key.
pub fn refund_id(command: &CreateOwnerRefundCommand) -> (r: String)
    ensures
        r@ == storage_id(seq!["refund"@, command.tenant_id@, command.order_id@, command.idempotency_key@]),
{
    let parts = [
        "refund",
        command.tenant_id.as_str(),
        command.order_id.as_str(),
        command.idempotency_key.as_str(),
    ];
    let r = stable_storage_id(&parts);
    assert(parts@.map_values(|p: &str| p@) =~= seq![
        "refund"@,
        command.tenant_id@,
        command.order_id@,
        command.idempotency_key@,
    ]);
    r
}

/// The storage identity of the payment intent of an order for one
/// idempotency key.
pub fn payment_intent_id(tenant_id: &str, order_id: &str, idempotency_key: &str) -> (r: String)
    ensures
        r@ == storage_id(seq!["payment-intent"@, tenant_id@, order_id@, idempotency_key@]),
{
    let parts = ["payment-intent", tenant_id, order_id, idempotency_key];
    let r = stable_storage_id(&parts);
    assert(parts@.map_values(|p: &str| p@) =~= seq!["payment-intent"@, tenant_id@, order_id@, idempotency_key@]);
    r
}

/// The storage identity of a payment attempt of an intent for one
/// idempotency key.
pub fn payment_attempt_id(tenant_id: &str, payment_intent_id: &str, idempotency_key: &str) -> (r: String)
    ensures
        r@ == storage_id(seq!["payment-attempt"@, tenant_id@, payment_intent_id@, idempotency_key@]),
{
    let parts = ["payment-attempt", tenant_id, payment_intent_id, idempotency_key];
    let r = stable_storage_id(&parts);
    assert(parts@.map_values(|p: &str| p@) =~= seq![
        "payment-attempt"@,
        tenant_id@,
        payment_intent_id@,
        idempotency_key@,
    ]);
    r
}

} // verus!
