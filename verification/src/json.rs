//! JSON documents as the library reads and writes them through
//! `serde_json`: a value tree whose model is the mathematical document,
//! with member lookup and text access proved against that model.

use serde_json::Value;
use vstd::prelude::*;
use vstd::string::*;
use crate::text::str_eq;

verus! {

#[verifier::external_type_specification]
#[verifier::external_body]
pub struct ExJsonValue(serde_json::Value);

/// A JSON value. Numbers keep the text `serde_json` writes for them;
/// object members keep the order in which they were read or built.
#[derive(Debug)]
pub enum JsonValue {
    Null,
    Bool(bool),
    Number(String),
    Str(String),
    Array(Vec<JsonValue>),
    Object(Vec<(String, JsonValue)>),
}

/// The mathematical JSON document.
pub enum Json {
    Null,
    Bool(bool),
    Number(Seq<char>),
    Str(Seq<char>),
    Array(Seq<Json>),
    Object(Seq<(Seq<char>, Json)>),
}

impl JsonValue {
    /// The document this value stands for.
    pub open spec fn model(&self) -> Json
        decreases self,
    {
        match self {
            JsonValue::Null => Json::Null,
            JsonValue::Bool(b) => Json::Bool(*b),
            JsonValue::Number(n) => Json::Number(n@),
            JsonValue::Str(s) => Json::Str(s@),
            JsonValue::Array(items) => {
                proof {
                    assert(decreases_to!(self => items@));
                }
                Json::Array(item_models(items@))
            },
            JsonValue::Object(members) => {
                proof {
                    assert(decreases_to!(self => members@));
                }
                Json::Object(member_models(members@))
            },
        }
    }
}

/// The documents of a sequence of values.
pub open spec fn item_models(items: Seq<JsonValue>) -> Seq<Json>
    decreases items,
{
    if items.len() == 0 {
        Seq::empty()
    } else {
        seq![items[0].model()] + item_models(items.drop_first())
    }
}

/// The members of an object as names and documents.
pub open spec fn member_models(members: Seq<(String, JsonValue)>) -> Seq<(Seq<char>, Json)>
    decreases members,
{
    if members.len() == 0 {
        Seq::empty()
    } else {
        proof {
            assert(decreases_to!(members => members[0]));
        }
        seq![(members[0].0@, members[0].1.model())] + member_models(members.drop_first())
    }
}

/// The document of each value of a sequence, in order.
pub proof fn lemma_item_models(items: Seq<JsonValue>)
    ensures
        item_models(items).len() == items.len(),
        forall|i: int| 0 <= i < items.len() ==> #[trigger] item_models(items)[i] == items[i].model(),
    decreases items.len(),
{
    if items.len() > 0 {
        lemma_item_models(items.drop_first());
        assert forall|i: int| 0 <= i < items.len() implies #[trigger] item_models(items)[i] == items[i].model() by {
            if i > 0 {
                assert(item_models(items)[i] == item_models(items.drop_first())[i - 1]);
            }
        }
    }
}

/// The name and document of each member, in order.
pub proof fn lemma_member_models(members: Seq<(String, JsonValue)>)
    ensures
        member_models(members).len() == members.len(),
        forall|i: int|
            0 <= i < members.len() ==> #[trigger] member_models(members)[i] == (members[i].0@, members[i].1.model()),
    decreases members.len(),
{
    if members.len() > 0 {
        lemma_member_models(members.drop_first());
        assert forall|i: int| 0 <= i < members.len() implies #[trigger] member_models(members)[i] == (
            members[i].0@,
            members[i].1.model(),
        ) by {
            if i > 0 {
                assert(member_models(members)[i] == member_models(members.drop_first())[i - 1]);
            }
        }
    }
}

/// The value of the first member named `key`.
pub open spec fn member_lookup(members: Seq<(Seq<char>, Json)>, key: Seq<char>) -> Option<Json>
    decreases members.len(),
{
    if members.len() == 0 {
        None
    } else if members[0].0 == key {
        Some(members[0].1)
    } else {
        member_lookup(members.drop_first(), key)
    }
}

/// The member `key` of an object document; `None` for a missing member or
/// a document that is not an object.
pub open spec fn json_member(doc: Json, key: Seq<char>) -> Option<Json> {
    match doc {
        Json::Object(members) => member_lookup(members, key),
        _ => None,
    }
}

/// The text of a document that is a string.
pub open spec fn json_str(doc: Option<Json>) -> Option<Seq<char>> {
    match doc {
        Some(Json::Str(s)) => Some(s),
        _ => None,
    }
}

pub proof fn lemma_member_lookup_at(members: Seq<(Seq<char>, Json)>, key: Seq<char>, i: int)
    requires
        0 <= i <= members.len(),
        forall|j: int| 0 <= j < i ==> #[trigger] members[j].0 != key,
    ensures
        i < members.len() && members[i].0 == key ==> member_lookup(members, key) == Some(members[i].1),
        i == members.len() ==> member_lookup(members, key) is None,
    decreases i,
{
    if members.len() > 0 && i > 0 {
        assert(members[0].0 != key);
        let rest = members.drop_first();
        assert forall|j: int| 0 <= j < i - 1 implies #[trigger] rest[j].0 != key by {
            assert(rest[j] == members[j + 1]);
        }
        lemma_member_lookup_at(rest, key, i - 1);
    }
}

impl JsonValue {
    /// The member `key` of an object; `None` for a missing member or a
    /// value that is not an object.
    pub fn get(&self, key: &str) -> (r: Option<&JsonValue>)
        ensures
            match r {
                Some(v) => json_member(self.model(), key@) == Some(v.model()),
                None => json_member(self.model(), key@) is None,
            },
    {
        match self {
            JsonValue::Object(members) => {
                proof {
                    lemma_member_models(members@);
                }
                let ghost ms = member_models(members@);
                assert(self.model() == Json::Object(ms));
                let mut i: usize = 0;
                while i < members.len()
                    invariant
                        0 <= i <= members.len(),
                        ms == member_models(members@),
                        self.model() == Json::Object(ms),
                        ms.len() == members.len(),
                        forall|k: int| 0 <= k < members.len() ==> #[trigger] ms[k] == (members@[k].0@, members@[k].1.model()),
                        forall|j: int| 0 <= j < i ==> #[trigger] ms[j].0 != key@,
                    decreases members.len() - i,
                {
                    if str_eq(members[i].0.as_str(), key) {
                        proof {
                            assert(ms[i as int].0 == key@);
                            lemma_member_lookup_at(ms, key@, i as int);
                            assert(self.model() == Json::Object(ms));
                            assert(ms[i as int].1 == members@[i as int].1.model());
                        }
                        return Some(&members[i].1);
                    }
                    proof {
                        assert(ms[i as int].0 != key@);
                    }
                    i = i + 1;
                }
                proof {
                    lemma_member_lookup_at(ms, key@, i as int);
                    assert(self.model() == Json::Object(ms));
                }
                None
            },
            _ => None,
        }
    }

    /// The text of a string value.
    pub fn as_text(&self) -> (r: Option<&str>)
        ensures
            match r {
                Some(s) => self.model() == Json::Str(s@),
                None => !(self.model() is Str),
            },
    {
        match self {
            JsonValue::Str(s) => Some(s.as_str()),
            _ => None,
        }
    }

    /// Whether the value is `null`.
    pub fn is_null(&self) -> (r: bool)
        ensures
            r == (self.model() is Null),
    {
        match self {
            JsonValue::Null => true,
            _ => false,
        }
    }
}

/// Objects whose members agree on every name and on the values under `k`
/// have the same value under `k`.
pub proof fn lemma_member_lookup_congruent(a: Seq<(Seq<char>, Json)>, b: Seq<(Seq<char>, Json)>, k: Seq<char>)
    requires
        a.len() == b.len(),
        forall|j: int| 0 <= j < a.len() ==> (#[trigger] a[j]).0 == b[j].0 && (a[j].0 == k ==> a[j].1 == b[j].1),
    ensures
        member_lookup(a, k) == member_lookup(b, k),
    decreases a.len(),
{
    if a.len() > 0 {
        assert(a[0].0 == b[0].0);
        let ra = a.drop_first();
        let rb = b.drop_first();
        assert forall|j: int| 0 <= j < ra.len() implies (#[trigger] ra[j]).0 == rb[j].0 && (ra[j].0 == k ==> ra[j].1
            == rb[j].1) by {
            assert(ra[j] == a[j + 1]);
            assert(rb[j] == b[j + 1]);
        }
        lemma_member_lookup_congruent(ra, rb, k);
    }
}

/// Appending a member named `key` that the object lacks adds exactly it.
pub proof fn lemma_member_lookup_push(a: Seq<(Seq<char>, Json)>, key: Seq<char>, v: Json, k: Seq<char>)
    requires
        member_lookup(a, key) is None,
    ensures
        member_lookup(a.push((key, v)), k) == if k == key {
            Some(v)
        } else {
            member_lookup(a, k)
        },
    decreases a.len(),
{
    if a.len() == 0 {
        assert(a.push((key, v)).drop_first() =~= a);
    } else {
        assert(a.push((key, v)).drop_first() =~= a.drop_first().push((key, v)));
        assert(a.push((key, v))[0] == a[0]);
        if a[0].0 != key {
            lemma_member_lookup_push(a.drop_first(), key, v, k);
        }
    }
}

/// Sets member `key` of an object to `value`, replacing the value of a
/// member of that name or appending a member, as `value[key] = ..` does on
/// an object.
pub fn set_member(members: &mut Vec<(String, JsonValue)>, key: &str, value: JsonValue)
    ensures
        forall|k: Seq<char>| #[trigger] member_lookup(member_models(final(members)@), k) == if k == key@ {
            Some(value.model())
        } else {
            member_lookup(member_models(old(members)@), k)
        },
{
    let ghost vm = value.model();
    proof {
        lemma_member_models(members@);
    }
    let ghost before = member_models(members@);
    let mut i: usize = 0;
    while i < members.len()
        invariant
            0 <= i <= members.len(),
            vm == value.model(),
            members@ == old(members)@,
            before == member_models(members@),
            before.len() == members.len(),
            forall|j: int| 0 <= j < members.len() ==> #[trigger] before[j] == (members@[j].0@, members@[j].1.model()),
            forall|j: int| 0 <= j < i ==> #[trigger] before[j].0 != key@,
        decreases members.len() - i,
    {
        if str_eq(members[i].0.as_str(), key) {
            let ghost old_members = members@;
            let name = owned_text(key);
            let entry = (name, value);
            assert(entry.0@ == key@ && entry.1.model() == vm);
            members.set(i, entry);
            proof {
                lemma_member_models(members@);
                let after = member_models(members@);
                assert(members@ == old_members.update(i as int, entry));
                assert(after[i as int] == (members@[i as int].0@, members@[i as int].1.model()));
                lemma_member_lookup_at(before, key@, i as int);
                assert(after.len() == before.len());
                assert forall|j: int| 0 <= j < i implies #[trigger] after[j].0 != key@ by {
                    assert(members@[j] == old_members[j]);
                    assert(after[j] == (members@[j].0@, members@[j].1.model()));
                    assert(before[j] == (old_members[j].0@, old_members[j].1.model()));
                }
                assert(after[i as int] == (key@, vm));
                lemma_member_lookup_at(after, key@, i as int);
                assert forall|k: Seq<char>| #[trigger] member_lookup(after, k) == if k == key@ {
                    Some(vm)
                } else {
                    member_lookup(before, k)
                } by {
                    if k != key@ {
                        assert forall|j: int| 0 <= j < after.len() implies (#[trigger] after[j]).0 == before[j].0 && (
                        after[j].0 == k ==> after[j].1 == before[j].1) by {
                            assert(after[j] == (members@[j].0@, members@[j].1.model()));
                            assert(before[j] == (old_members[j].0@, old_members[j].1.model()));
                            if j != i {
                                assert(members@[j] == old_members[j]);
                            }
                        }
                        lemma_member_lookup_congruent(after, before, k);
                    }
                }
            }
            return;
        }
        i = i + 1;
    }
    proof {
        lemma_member_lookup_at(before, key@, i as int);
    }
    let ghost old_members = members@;
    members.push((owned_text(key), value));
    proof {
        lemma_member_models(members@);
        let after = member_models(members@);
        assert(after =~= before.push((key@, vm)));
        assert forall|k: Seq<char>| #[trigger] member_lookup(after, k) == if k == key@ {
            Some(vm)
        } else {
            member_lookup(before, k)
        } by {
            lemma_member_lookup_push(before, key@, vm, k);
        }
    }
}

fn owned_text(s: &str) -> (r: String)
    ensures
        r@ == s@,
{
    s.to_owned()
}

/// The member `key` of an object, taken out of it by value.
pub fn take_member(value: JsonValue, key: &str) -> (r: Option<JsonValue>)
    ensures
        match r {
            Some(v) => json_member(value.model(), key@) == Some(v.model()),
            None => json_member(value.model(), key@) is None,
        },
{
    let ghost doc = value.model();
    match value {
        JsonValue::Object(members) => {
            proof {
                lemma_member_models(members@);
            }
            let ghost ms = member_models(members@);
            let mut members = members;
            let mut i: usize = 0;
            while i < members.len()
                invariant
                    0 <= i <= members.len(),
                    doc == value.model(),
                    doc == Json::Object(ms),
                    ms == member_models(members@),
                    ms.len() == members.len(),
                    forall|k: int| 0 <= k < members.len() ==> #[trigger] ms[k] == (members@[k].0@, members@[k].1.model()),
                    forall|j: int| 0 <= j < i ==> #[trigger] ms[j].0 != key@,
                decreases members.len() - i,
            {
                if str_eq(members[i].0.as_str(), key) {
                    proof {
                        lemma_member_lookup_at(ms, key@, i as int);
                    }
                    let ghost wanted = members@[i as int].1.model();
                    assert(ms[i as int] == (members@[i as int].0@, wanted));
                    assert(member_lookup(ms, key@) == Some(wanted));
                    assert(json_member(doc, key@) == Some(wanted));
                    let (_, v) = members.remove(i);
                    assert(v.model() == wanted);
                    return Some(v);
                }
                i = i + 1;
            }
            proof {
                lemma_member_lookup_at(ms, key@, i as int);
            }
            None
        },
        _ => None,
    }
}

/// The document `serde_json` reads from a text, or the text of the error
/// it reports for a text it refuses.
pub uninterp spec fn json_document(text: Seq<char>) -> Result<Json, Seq<char>>;

/// The compact text `serde_json` writes for a document.
pub uninterp spec fn json_text(doc: Json) -> Seq<char>;

/// Reads a JSON text with `serde_json::from_str::<serde_json::Value>`.
/// The claim: the result is the document `serde_json` reads, converted
/// value for value (numbers by the text `serde_json` writes for them), or
/// the `Display` text of its error.
#[verifier::external_body]
pub(crate) fn parse_json(text: &str) -> (r: Result<JsonValue, String>)
    ensures
        match r {
            Ok(v) => json_document(text@) == Ok::<Json, Seq<char>>(v.model()),
            Err(e) => json_document(text@) == Err::<Json, Seq<char>>(e@),
        },
{
    match serde_json::from_str::<Value>(text) {
        Ok(v) => Ok(from_serde(v)),
        Err(e) => Err(e.to_string()),
    }
}

/// The document `serde_json` reads from bytes, or the text of the error
/// it reports for bytes it refuses.
pub uninterp spec fn json_bytes_document(data: Seq<u8>) -> Result<Json, Seq<char>>;

/// Reads JSON bytes with `serde_json::from_slice::<serde_json::Value>`.
/// The claim: the result is the document `serde_json` reads, converted
/// value for value, or the `Display` text of its error.
#[verifier::external_body]
pub(crate) fn parse_json_bytes(data: &[u8]) -> (r: Result<JsonValue, String>)
    ensures
        match r {
            Ok(v) => json_bytes_document(data@) == Ok::<Json, Seq<char>>(v.model()),
            Err(e) => json_bytes_document(data@) == Err::<Json, Seq<char>>(e@),
        },
{
    match serde_json::from_slice::<Value>(data) {
        Ok(v) => Ok(from_serde(v)),
        Err(e) => Err(e.to_string()),
    }
}

/// Converts a `serde_json::Value` into the library's value, variant for
/// variant; the conversion behind `parse_json`.
#[verifier::external_body]
fn from_serde(v: Value) -> JsonValue {
    match v {
        Value::Null => JsonValue::Null,
        Value::Bool(b) => JsonValue::Bool(b),
        Value::Number(n) => JsonValue::Number(n.to_string()),
        Value::String(s) => JsonValue::Str(s),
        Value::Array(items) => JsonValue::Array(items.into_iter().map(from_serde).collect()),
        Value::Object(members) => JsonValue::Object(members.into_iter().map(|(k, v)| (k, from_serde(v))).collect()),
    }
}

/// Writes a value as compact JSON text with `serde_json`'s `Display` of
/// `serde_json::Value`. The claim: the result is the text `serde_json`
/// writes for the document. What is not stated: object members are
/// written in `serde_json`'s key order, a later member replacing an earlier
/// one of the same name, and a number whose text is not a JSON number is
/// written as `null`.
#[verifier::external_body]
pub(crate) fn write_json(doc: &JsonValue) -> (r: String)
    ensures
        r@ == json_text(doc.model()),
{
    to_serde(doc).to_string()
}

/// Converts the library's value into a `serde_json::Value`; the
/// conversion behind `write_json`.
#[verifier::external_body]
fn to_serde(v: &JsonValue) -> Value {
    match v {
        JsonValue::Null => Value::Null,
        JsonValue::Bool(b) => Value::Bool(*b),
        JsonValue::Number(n) => n.parse::<serde_json::Number>().map(Value::Number).unwrap_or(Value::Null),
        JsonValue::Str(s) => Value::String(s.clone()),
        JsonValue::Array(items) => Value::Array(items.iter().map(to_serde).collect()),
        JsonValue::Object(members) => Value::Object(members.iter().map(|(k, v)| (k.clone(), to_serde(v))).collect()),
    }
}

} // verus!
