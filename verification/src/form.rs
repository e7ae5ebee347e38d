//! Form-encoded bodies (`key=value&key=value`, percent-escaped) as
//! providers post them, and the canonical text that provider signatures
//! cover.

use vstd::prelude::*;
use vstd::string::*;
use vstd::utf8::*;
use crate::provider::{is_invalid_response, PaymentAdapterOperation, ProviderError};
use crate::text::{lemma_seq_lt_asym, lemma_seq_lt_total, lemma_seq_lt_trans, owned, push_char, seq_lt, split_by, split_once, split_once_seq, split_seq, str_eq, str_lt};

verus! {

/// The text `std::str::from_utf8` reports for bytes that are not UTF-8.
pub uninterp spec fn utf8_error_text(data: Seq<u8>) -> Seq<char>;

/// Reads bytes as UTF-8 text with `std::str::from_utf8`. The claim: the
/// text is accepted exactly when the bytes are valid UTF-8, and then it
/// has exactly those bytes; otherwise the error's `Display` text is given.
#[verifier::external_body]
pub(crate) fn utf8_text(data: &[u8]) -> (r: Result<&str, String>)
    ensures
        r is Ok <==> valid_utf8(data@),
        match r {
            Ok(s) => encode_utf8(s@) == data@,
            Err(e) => e@ == utf8_error_text(data@),
        },
{
    match std::str::from_utf8(data) {
        Ok(s) => Ok(s),
        Err(e) => Err(e.to_string()),
    }
}

/// What `urlencoding::decode` makes of a text: the text with its percent
/// escapes decoded, or the `Display` text of the error when the decoded
/// bytes are not UTF-8.
pub uninterp spec fn percent_decoding(text: Seq<char>) -> Result<Seq<char>, Seq<char>>;

/// Decodes percent escapes with `urlencoding::decode`. The claim: the
/// result is what the crate makes of the text; a text without `%` comes
/// back unchanged, as the crate's source returns such input as it is.
#[verifier::external_body]
pub(crate) fn percent_decode_text(text: &str) -> (r: Result<String, String>)
    ensures
        match r {
            Ok(d) => percent_decoding(text@) == Ok::<Seq<char>, Seq<char>>(d@) && (!text@.contains('%') ==> d@
                == text@),
            Err(e) => percent_decoding(text@) == Err::<Seq<char>, Seq<char>>(e@) && text@.contains('%'),
        },
{
    match urlencoding::decode(text) {
        Ok(d) => Ok(d.into_owned()),
        Err(e) => Err(e.to_string()),
    }
}

/// `t` with every `+` read as a space.
pub open spec fn plus_as_space(t: Seq<char>) -> Seq<char> {
    t.map_values(|c: char| if c == '+' { ' ' } else { c })
}

fn plus_to_space(t: &str) -> (r: String)
    ensures
        r@ == plus_as_space(t@),
{
    let n = t.unicode_len();
    let mut out = String::new();
    let mut i: usize = 0;
    while i < n
        invariant
            n == t@.len(),
            0 <= i <= n,
            out@ == plus_as_space(t@.take(i as int)),
        decreases n - i,
    {
        let c = t.get_char(i);
        if c == '+' {
            push_char(&mut out, ' ');
        } else {
            push_char(&mut out, c);
        }
        assert(plus_as_space(t@.take(i + 1)) =~= plus_as_space(t@.take(i as int)).push(if c == '+' { ' ' } else { c }));
        i = i + 1;
    }
    assert(t@.take(n as int) =~= t@);
    out
}

/// A form value decoded: `+` as space, then percent escapes; else the
/// error's message.
pub open spec fn form_decoded(t: Seq<char>) -> Result<Seq<char>, Seq<char>> {
    match percent_decoding(plus_as_space(t)) {
        Ok(d) => Ok(d),
        Err(e) => Err("Alipay percent escape is invalid: "@ + e),
    }
}

/// One `key=value` piece of a form, decoded (a piece without `=` is a key
/// with an empty value).
pub open spec fn form_piece(part: Seq<char>) -> Result<(Seq<char>, Seq<char>), Seq<char>> {
    let kv = match split_once_seq(part, '=') {
        Some((k, v)) => (k, v),
        None => (part, Seq::<char>::empty()),
    };
    match form_decoded(kv.0) {
        Err(e) => Err(e),
        Ok(k) => match form_decoded(kv.1) {
            Err(e) => Err(e),
            Ok(v) => Ok((k, v)),
        },
    }
}

/// The decoded fields of the pieces of a form, in order and skipping empty
/// pieces; the first piece that cannot be decoded gives the error.
pub open spec fn form_fields(parts: Seq<Seq<char>>) -> Result<Seq<(Seq<char>, Seq<char>)>, Seq<char>>
    decreases parts.len(),
{
    if parts.len() == 0 {
        Ok(Seq::empty())
    } else {
        match form_fields(parts.drop_last()) {
            Err(e) => Err(e),
            Ok(fs) => if parts.last().len() == 0 {
                Ok(fs)
            } else {
                match form_piece(parts.last()) {
                    Err(e) => Err(e),
                    Ok(f) => Ok(fs.push(f)),
                }
            },
        }
    }
}

/// The fields as names and values.
pub open spec fn fields_view(fields: Seq<(String, String)>) -> Seq<(Seq<char>, Seq<char>)> {
    fields.map_values(|f: (String, String)| (f.0@, f.1@))
}

fn form_decode(t: &str, operation: PaymentAdapterOperation) -> (r: Result<String, ProviderError>)
    ensures
        match form_decoded(t@) {
            Ok(d) => r matches Ok(s) && s@ == d,
            Err(m) => is_invalid_response(r, operation, m),
        },
{
    let spaced = plus_to_space(t);
    match percent_decode_text(spaced.as_str()) {
        Ok(d) => Ok(d),
        Err(e) => {
            let mut m = owned("Alipay percent escape is invalid: ");
            m.append(e.as_str());
            Err(ProviderError::InvalidResponse { operation, message: m })
        },
    }
}

/// Reads a form-encoded body into its fields, in order: the body must be
/// UTF-8 and every escape valid.
pub fn parse_form_body(body: &[u8], operation: PaymentAdapterOperation) -> (r: Result<
    Vec<(String, String)>,
    ProviderError,
>)
    ensures
        !valid_utf8(body@) ==> is_invalid_response(
            r,
            operation,
            "Alipay form body must be UTF-8: "@ + utf8_error_text(body@),
        ),
        valid_utf8(body@) ==> match form_fields(split_seq(decode_utf8(body@), '&')) {
            Ok(fs) => r matches Ok(v) && fields_view(v@) == fs,
            Err(m) => is_invalid_response(r, operation, m),
        },
{
    let text = match utf8_text(body) {
        Ok(t) => t,
        Err(e) => {
            let mut m = owned("Alipay form body must be UTF-8: ");
            m.append(e.as_str());
            return Err(ProviderError::InvalidResponse { operation, message: m });
        },
    };
    proof {
        encode_utf8_decode_utf8(text@);
    }
    let parts = split_by(text, '&');
    let ghost pv = parts@.map_values(|p: String| p@);
    let mut fields: Vec<(String, String)> = Vec::new();
    let mut i: usize = 0;
    assert(pv.take(0) =~= Seq::<Seq<char>>::empty());
    assert(fields_view(fields@) =~= Seq::<(Seq<char>, Seq<char>)>::empty());
    while i < parts.len()
        invariant
            0 <= i <= parts.len(),
            valid_utf8(body@),
            pv == split_seq(decode_utf8(body@), '&'),
            pv == parts@.map_values(|p: String| p@),
            form_fields(pv.take(i as int)) == Ok::<Seq<(Seq<char>, Seq<char>)>, Seq<char>>(fields_view(fields@)),
        decreases parts.len() - i,
    {
        let part = parts[i].as_str();
        proof {
            assert(pv.take(i + 1).drop_last() =~= pv.take(i as int));
            assert(pv.take(i + 1).last() == part@);
        }
        if part.unicode_len() > 0 {
            let (key, value) = match split_once(part, '=') {
                Some((k, v)) => (k, v),
                None => (part, ""),
            };
            proof {
                reveal_strlit("");
                assert(""@ =~= Seq::<char>::empty());
                let kv = match split_once_seq(part@, '=') {
                    Some((k, v)) => (k, v),
                    None => (part@, Seq::<char>::empty()),
                };
                assert(kv == (key@, value@));
            }
            let k = match form_decode(key, operation) {
                Ok(k) => k,
                Err(e) => {
                    proof {
                        lemma_form_fields_error_stays(pv, i as int + 1);
                    }
                    assert(pv.take(parts.len() as int) =~= pv);
                    return Err(e);
                },
            };
            let v = match form_decode(value, operation) {
                Ok(v) => v,
                Err(e) => {
                    proof {
                        lemma_form_fields_error_stays(pv, i as int + 1);
                    }
                    assert(pv.take(parts.len() as int) =~= pv);
                    return Err(e);
                },
            };
            let ghost prev = fields@;
            let ghost kv = (k@, v@);
            fields.push((k, v));
            assert(fields_view(fields@) =~= fields_view(prev).push(kv));
        }
        i = i + 1;
    }
    assert(pv.take(parts.len() as int) =~= pv);
    Ok(fields)
}

/// Once reading a form stops with an error, later pieces keep that error.
pub proof fn lemma_form_fields_error_stays(parts: Seq<Seq<char>>, i: int)
    requires
        0 <= i <= parts.len(),
        form_fields(parts.take(i)) is Err,
    ensures
        form_fields(parts) == form_fields(parts.take(i)),
    decreases parts.len() - i,
{
    if i < parts.len() {
        assert(parts.take(i + 1).drop_last() =~= parts.take(i));
        lemma_form_fields_error_stays(parts, i + 1);
    } else {
        assert(parts.take(i) =~= parts);
    }
}

/// The value of the first field named `key`.
pub open spec fn form_lookup(fields: Seq<(Seq<char>, Seq<char>)>, key: Seq<char>) -> Option<Seq<char>>
    decreases fields.len(),
{
    if fields.len() == 0 {
        None
    } else if fields[0].0 == key {
        Some(fields[0].1)
    } else {
        form_lookup(fields.drop_first(), key)
    }
}

proof fn lemma_form_lookup_at(fields: Seq<(Seq<char>, Seq<char>)>, key: Seq<char>, i: int)
    requires
        0 <= i <= fields.len(),
        forall|j: int| 0 <= j < i ==> #[trigger] fields[j].0 != key,
    ensures
        i < fields.len() && fields[i].0 == key ==> form_lookup(fields, key) == Some(fields[i].1),
        i == fields.len() ==> form_lookup(fields, key) is None,
    decreases i,
{
    if fields.len() > 0 && i > 0 {
        assert(fields[0].0 != key);
        let rest = fields.drop_first();
        assert forall|j: int| 0 <= j < i - 1 implies #[trigger] rest[j].0 != key by {
            assert(rest[j] == fields[j + 1]);
        }
        lemma_form_lookup_at(rest, key, i - 1);
    }
}

/// The value of the first field named `key`.
pub fn form_value(fields: &Vec<(String, String)>, key: &str) -> (r: Option<String>)
    ensures
        match r {
            Some(v) => form_lookup(fields_view(fields@), key@) == Some(v@),
            None => form_lookup(fields_view(fields@), key@) is None,
        },
{
    let ghost fv = fields_view(fields@);
    let mut i: usize = 0;
    while i < fields.len()
        invariant
            0 <= i <= fields.len(),
            fv == fields_view(fields@),
            fv.len() == fields.len(),
            forall|j: int| 0 <= j < i ==> #[trigger] fv[j].0 != key@,
        decreases fields.len() - i,
    {
        if str_eq(fields[i].0.as_str(), key) {
            proof {
                lemma_form_lookup_at(fv, key@, i as int);
            }
            return Some(owned(fields[i].1.as_str()));
        }
        i = i + 1;
    }
    proof {
        lemma_form_lookup_at(fv, key@, i as int);
    }
    None
}

/// Whether a field takes part in a signature: not the signature itself
/// (nor, for a notification, its type) and not empty.
pub open spec fn signed_field(f: (Seq<char>, Seq<char>), drop_sign_type: bool) -> bool {
    f.0 != "sign"@ && !(drop_sign_type && f.0 == "sign_type"@) && f.1.len() > 0
}

/// The fields that take part in a signature, in order.
pub open spec fn signed_fields(fields: Seq<(Seq<char>, Seq<char>)>, drop_sign_type: bool) -> Seq<(Seq<char>, Seq<char>)>
    decreases fields.len(),
{
    if fields.len() == 0 {
        Seq::empty()
    } else {
        let rest = signed_fields(fields.drop_last(), drop_sign_type);
        if signed_field(fields.last(), drop_sign_type) {
            rest.push(fields.last())
        } else {
            rest
        }
    }
}

/// Fields whose names never decrease.
pub open spec fn names_ascending(fields: Seq<(Seq<char>, Seq<char>)>) -> bool {
    forall|i: int, j: int| 0 <= i < j < fields.len() ==> !seq_lt(#[trigger] fields[j].0, #[trigger] fields[i].0)
}

/// `key=value` pairs joined by `&`.
pub open spec fn joined_pairs(fields: Seq<(Seq<char>, Seq<char>)>) -> Seq<char>
    decreases fields.len(),
{
    if fields.len() == 0 {
        Seq::empty()
    } else {
        let rest = joined_pairs(fields.drop_last());
        let pair = fields.last().0 + seq!['='] + fields.last().1;
        if fields.len() == 1 {
            pair
        } else {
            rest + seq!['&'] + pair
        }
    }
}

/// The canonical text a signature covers: the signed fields ordered by
/// name (fields of one name in some order) as `key=value` joined by `&`.
pub open spec fn canonical_payload_of(fields: Seq<(Seq<char>, Seq<char>)>, drop_sign_type: bool, text: Seq<char>) -> bool {
    exists|p: Seq<(Seq<char>, Seq<char>)>|
        #![trigger joined_pairs(p)]
        p.to_multiset() == signed_fields(fields, drop_sign_type).to_multiset() && names_ascending(p) && text
            == joined_pairs(p)
}

fn insert_by_name(sorted: &mut Vec<(String, String)>, entry: (String, String))
    requires
        names_ascending(fields_view(old(sorted)@)),
    ensures
        names_ascending(fields_view(final(sorted)@)),
        fields_view(final(sorted)@).to_multiset() == fields_view(old(sorted)@).to_multiset().insert(
            (entry.0@, entry.1@),
        ),
{
    broadcast use vstd::seq_lib::group_to_multiset_ensures;

    let ghost s = fields_view(sorted@);
    let ghost e = (entry.0@, entry.1@);
    let n = sorted.len();
    let mut p: usize = 0;
    while p < n && !str_lt(entry.0.as_str(), sorted[p].0.as_str())
        invariant
            0 <= p <= n,
            n == sorted.len(),
            s == fields_view(sorted@),
            e == (entry.0@, entry.1@),
            names_ascending(s),
            forall|j: int| 0 <= j < p ==> !seq_lt(e.0, #[trigger] s[j].0),
        decreases n - p,
    {
        p = p + 1;
    }
    sorted.insert(p, entry);
    proof {
        let t = fields_view(sorted@);
        assert(t =~= s.insert(p as int, e));
        assert forall|i: int, j: int| 0 <= i < j < t.len() implies !seq_lt(#[trigger] t[j].0, #[trigger] t[i].0) by {
            if j < p {
                assert(t[i] == s[i] && t[j] == s[j]);
            } else if j == p {
                assert(t[i] == s[i]);
            } else if i == p {
                assert(t[j] == s[j - 1]);
                assert(seq_lt(e.0, s[p as int].0));
                if p < j - 1 {
                    assert(!seq_lt(s[j - 1].0, s[p as int].0));
                }
                lemma_seq_lt_total(s[j - 1].0, s[p as int].0);
                if seq_lt(s[p as int].0, s[j - 1].0) {
                    lemma_seq_lt_trans(e.0, s[p as int].0, s[j - 1].0);
                }
                lemma_seq_lt_asym(e.0, s[j - 1].0);
            } else if i < p {
                assert(t[i] == s[i] && t[j] == s[j - 1]);
            } else {
                assert(t[i] == s[i - 1] && t[j] == s[j - 1]);
            }
        }
        vstd::seq_lib::to_multiset_insert(s, p as int, e);
    }
}

fn push_pair(out: &mut String, key: &str, value: &str, first: bool)
    ensures
        final(out)@ == old(out)@ + if first {
            Seq::<char>::empty()
        } else {
            seq!['&']
        } + key@ + seq!['='] + value@,
{
    if !first {
        push_char(out, '&');
    }
    out.append(key);
    push_char(out, '=');
    out.append(value);
    assert(final(out)@ =~= old(out)@ + if first {
        Seq::<char>::empty()
    } else {
        seq!['&']
    } + key@ + seq!['='] + value@);
}

/// The canonical text a provider signature covers.
pub fn canonical_payload(fields: &Vec<(String, String)>, drop_sign_type: bool) -> (r: String)
    ensures
        canonical_payload_of(fields_view(fields@), drop_sign_type, r@),
{
    broadcast use vstd::seq_lib::group_to_multiset_ensures;

    let ghost fv = fields_view(fields@);
    let mut sorted: Vec<(String, String)> = Vec::new();
    let mut i: usize = 0;
    assert(fv.take(0) =~= Seq::<(Seq<char>, Seq<char>)>::empty());
    while i < fields.len()
        invariant
            0 <= i <= fields.len(),
            fv == fields_view(fields@),
            fv.len() == fields.len(),
            names_ascending(fields_view(sorted@)),
            fields_view(sorted@).to_multiset() == signed_fields(fv.take(i as int), drop_sign_type).to_multiset(),
        decreases fields.len() - i,
    {
        proof {
            assert(fv.take(i + 1).drop_last() =~= fv.take(i as int));
            assert(fv.take(i + 1).last() == fv[i as int]);
        }
        let name = fields[i].0.as_str();
        let value = fields[i].1.as_str();
        let keep = !str_eq(name, "sign") && !(drop_sign_type && str_eq(name, "sign_type")) && value.unicode_len() > 0;
        if keep {
            let ghost before = signed_fields(fv.take(i as int), drop_sign_type);
            insert_by_name(&mut sorted, (owned(name), owned(value)));
            proof {
                vstd::seq_lib::to_multiset_build(before, fv[i as int]);
            }
        }
        i = i + 1;
    }
    assert(fv.take(fields.len() as int) =~= fv);
    let ghost sv = fields_view(sorted@);
    let mut out = String::new();
    let mut j: usize = 0;
    while j < sorted.len()
        invariant
            0 <= j <= sorted.len(),
            sv == fields_view(sorted@),
            out@ == joined_pairs(sv.take(j as int)),
        decreases sorted.len() - j,
    {
        push_pair(&mut out, sorted[j].0.as_str(), sorted[j].1.as_str(), j == 0);
        proof {
            let next = sv.take(j + 1);
            assert(next.drop_last() =~= sv.take(j as int));
            assert(next.last() == sv[j as int]);
            if j == 0 {
                assert(sv.take(0) =~= Seq::<(Seq<char>, Seq<char>)>::empty());
            }
            assert(out@ =~= joined_pairs(next));
        }
        j = j + 1;
    }
    assert(sv.take(sorted.len() as int) =~= sv);
    assert(joined_pairs(sv) == out@);
    out
}

} // verus!
