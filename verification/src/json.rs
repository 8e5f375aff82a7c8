//! JSON documents as the bindings read them.
//!
//! The text is parsed by `serde_json`; the document is then held in
//! [`JsonValue`], a plain tree of the library's own that verified code can
//! inspect. Objects keep their members in the order in which `serde_json`
//! hands them out (its map type is ordered by key and holds each key once).
use vstd::prelude::*;
use vstd::string::*;
use vstd::utf8::*;

verus! {

/// A JSON number as `serde_json` stores it: a non-negative integer, a
/// negative integer, or a finite float, of which the library keeps the text
/// that `serde_json` renders for it.
#[derive(Debug)]
pub enum JsonNumber {
    PosInt(u64),
    NegInt(i64),
    Float(String),
}

/// A JSON document.
#[derive(Debug)]
pub enum JsonValue {
    Null,
    Bool(bool),
    Number(JsonNumber),
    String(String),
    Array(Vec<JsonValue>),
    Object(Vec<(String, JsonValue)>),
}

#[verifier::external_type_specification]
#[verifier::external_body]
pub struct ExSerdeValue(serde_json::Value);

/// The document that `serde_json` parses out of a text, or `None` when the
/// text is not a JSON document.
pub uninterp spec fn parsed_json(text: Seq<char>) -> Option<JsonValue>;

/// Parses a JSON text.
///
/// Trusted wrapper around `serde_json::from_str::<serde_json::Value>`; the
/// value that comes back is carried over, member for member, into a
/// [`JsonValue`]. The result is a function of the text alone, named
/// [`parsed_json`]; nothing more is stated of it.
#[verifier::external_body]
pub fn parse_json(text: &str) -> (r: Option<JsonValue>)
    ensures
        r == parsed_json(text@),
{
    serde_json::from_str::<serde_json::Value>(text).ok().map(json_from_serde)
}

/// Carries a `serde_json::Value` over into a [`JsonValue`], one variant for
/// one variant; a number keeps its integer when `serde_json` holds one and
/// otherwise the text that `serde_json` renders for it.
#[verifier::external_body]
fn json_from_serde(v: serde_json::Value) -> JsonValue {
    match v {
        serde_json::Value::Null => JsonValue::Null,
        serde_json::Value::Bool(b) => JsonValue::Bool(b),
        serde_json::Value::Number(n) => JsonValue::Number(match (n.as_u64(), n.as_i64()) {
            (Some(u), _) => JsonNumber::PosInt(u),
            (None, Some(i)) => JsonNumber::NegInt(i),
            (None, None) => JsonNumber::Float(n.to_string()),
        }),
        serde_json::Value::String(s) => JsonValue::String(s),
        serde_json::Value::Array(a) => JsonValue::Array(a.into_iter().map(json_from_serde).collect()),
        serde_json::Value::Object(m) => JsonValue::Object(
            m.into_iter().map(|(k, v)| (k, json_from_serde(v))).collect(),
        ),
    }
}

/// The value of the first member named `key` in a list of object members.
pub open spec fn lookup(members: Seq<(String, JsonValue)>, key: Seq<char>) -> Option<JsonValue>
    decreases members.len(),
{
    if members.len() == 0 {
        None
    } else if members[0].0@ == key {
        Some(members[0].1)
    } else {
        lookup(members.drop_first(), key)
    }
}

/// What `serde_json::Value::get` gives for a string key: the member's value
/// when the document is an object that has the key, else nothing.
pub open spec fn field(v: JsonValue, key: Seq<char>) -> Option<JsonValue> {
    match v {
        JsonValue::Object(members) => lookup(members@, key),
        _ => None,
    }
}

/// What `serde_json::Value::as_str` gives.
pub open spec fn as_text(v: JsonValue) -> Option<Seq<char>> {
    match v {
        JsonValue::String(s) => Some(s@),
        _ => None,
    }
}

/// What `serde_json::Value::as_u64` gives.
pub open spec fn as_unsigned(v: JsonValue) -> Option<u64> {
    match v {
        JsonValue::Number(JsonNumber::PosInt(n)) => Some(n),
        _ => None,
    }
}

/// What `serde_json::Value::as_bool` gives.
pub open spec fn as_flag(v: JsonValue) -> Option<bool> {
    match v {
        JsonValue::Bool(b) => Some(b),
        _ => None,
    }
}

/// Compares two strings by their bytes.
pub fn text_eq(a: &str, b: &str) -> (r: bool)
    ensures
        r == (a@ == b@),
{
    let x = a.as_bytes();
    let y = b.as_bytes();
    proof {
        encode_utf8_decode_utf8(a@);
        encode_utf8_decode_utf8(b@);
    }
    if x.len() != y.len() {
        return false;
    }
    let mut i: usize = 0;
    while i < x.len()
        invariant
            x@ == a.spec_bytes(),
            y@ == b.spec_bytes(),
            x@.len() == y@.len(),
            i <= x@.len(),
            forall|j: int| 0 <= j < i ==> x@[j] == y@[j],
        decreases x@.len() - i,
    {
        if x[i] != y[i] {
            return false;
        }
        i = i + 1;
    }
    assert(x@ =~= y@);
    true
}

impl JsonValue {
    /// The value under `key` when `self` is an object (`serde_json::Value::get`).
    pub fn get(&self, key: &str) -> (r: Option<&JsonValue>)
        ensures
            r matches Some(v) ==> field(*self, key@) == Some(*v),
            r is None ==> field(*self, key@) is None,
    {
        match self {
            JsonValue::Object(members) => {
                let mut i: usize = 0;
                assert(members@.skip(0) =~= members@);
                while i < members.len()
                    invariant
                        i <= members@.len(),
                        field(*self, key@) == lookup(members@, key@),
                        lookup(members@, key@) == lookup(members@.skip(i as int), key@),
                    decreases members@.len() - i,
                {
                    assert(members@.skip(i as int).drop_first() =~= members@.skip(i + 1));
                    assert(members@.skip(i as int)[0] == members@[i as int]);
                    if text_eq(members[i].0.as_str(), key) {
                        assert(lookup(members@.skip(i as int), key@) == Some(members@[i as int].1));
                        return Some(&members[i].1);
                    }
                    i = i + 1;
                }
                None
            },
            _ => None,
        }
    }

    /// The text of a JSON string (`serde_json::Value::as_str`).
    pub fn as_str(&self) -> (r: Option<&str>)
        ensures
            r matches Some(s) ==> as_text(*self) == Some(s@),
            r is None ==> as_text(*self) is None,
    {
        match self {
            JsonValue::String(s) => Some(s.as_str()),
            _ => None,
        }
    }

    /// A non-negative integer (`serde_json::Value::as_u64`).
    pub fn as_u64(&self) -> (r: Option<u64>)
        ensures
            r == as_unsigned(*self),
    {
        match self {
            JsonValue::Number(JsonNumber::PosInt(n)) => Some(*n),
            _ => None,
        }
    }

    /// A boolean (`serde_json::Value::as_bool`).
    pub fn as_bool(&self) -> (r: Option<bool>)
        ensures
            r == as_flag(*self),
    {
        match self {
            JsonValue::Bool(b) => Some(*b),
            _ => None,
        }
    }
}

/// A key is looked up among the members in order: it is found exactly when
/// some member has it, and then the value is that of the first member with
/// the key.
pub proof fn law_lookup_finds_first_member(members: Seq<(String, JsonValue)>, key: Seq<char>)
    ensures
        lookup(members, key) is None <==> forall|i: int| 0 <= i < members.len() ==> (#[trigger] members[i]).0@ != key,
        lookup(members, key) matches Some(v) ==> exists|i: int|
            0 <= i < members.len() && (#[trigger] members[i]).0@ == key && members[i].1 == v
                && forall|j: int| 0 <= j < i ==> (#[trigger] members[j]).0@ != key,
    decreases members.len(),
{
    if members.len() > 0 {
        let rest = members.drop_first();
        law_lookup_finds_first_member(rest, key);
        assert(forall|i: int| 0 <= i < rest.len() ==> rest[i] == members[i + 1]);
        if members[0].0@ == key {
            assert(members[0].0@ == key);
        } else if lookup(rest, key) is None {
            assert forall|i: int| 0 <= i < members.len() implies (#[trigger] members[i]).0@ != key by {
                if i > 0 {
                    assert(members[i] == rest[i - 1]);
                }
            }
        } else {
            let v = lookup(rest, key)->0;
            let i = choose|i: int|
                0 <= i < rest.len() && (#[trigger] rest[i]).0@ == key && rest[i].1 == v
                    && forall|j: int| 0 <= j < i ==> (#[trigger] rest[j]).0@ != key;
            assert(members[i + 1] == rest[i]);
            assert forall|j: int| 0 <= j < i + 1 implies (#[trigger] members[j]).0@ != key by {
                if j > 0 {
                    assert(members[j] == rest[j - 1]);
                }
            }
        }
    }
}

} // verus!
