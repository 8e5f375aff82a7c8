//! The headers that the `*_set_headers` bindings hand to a stream.
//!
//! The C side sends a JSON array; each element that is an object contributes
//! one header per member whose value is a string, a number or a boolean, in
//! member order. Other elements and other members are skipped.
use vstd::prelude::*;
use vstd::string::*;
use crate::decimal::{
    all_digits, decimal_text, digits_value, i64_to_decimal, lemma_decimal_text_denotes,
    signed_decimal_text, u64_to_decimal,
};
use crate::json::{JsonNumber, JsonValue};

verus! {

/// The text of a JSON number, as `serde_json` displays it.
pub open spec fn number_text(n: JsonNumber) -> Seq<char> {
    match n {
        JsonNumber::PosInt(u) => decimal_text(u as nat),
        JsonNumber::NegInt(i) => signed_decimal_text(i as int),
        JsonNumber::Float(t) => t@,
    }
}

/// The header value that a member value gives, if it gives one.
pub open spec fn header_value(v: JsonValue) -> Option<Seq<char>> {
    match v {
        JsonValue::String(s) => Some(s@),
        JsonValue::Number(n) => Some(number_text(n)),
        JsonValue::Bool(b) => Some(if b { "true"@ } else { "false"@ }),
        _ => None,
    }
}

/// The headers that the members of one object give, in member order.
pub open spec fn member_headers(members: Seq<(String, JsonValue)>) -> Seq<(Seq<char>, Seq<char>)>
    decreases members.len(),
{
    if members.len() == 0 {
        seq![]
    } else {
        let rest = member_headers(members.drop_last());
        match header_value(members.last().1) {
            Some(t) => rest.push((members.last().0@, t)),
            None => rest,
        }
    }
}

/// The headers of an element of the array: those of its members when it is
/// an object, none otherwise.
pub open spec fn element_headers(v: JsonValue) -> Seq<(Seq<char>, Seq<char>)> {
    match v {
        JsonValue::Object(members) => member_headers(members@),
        _ => seq![],
    }
}

/// The headers that a JSON array gives, element after element.
pub open spec fn headers_of(items: Seq<JsonValue>) -> Seq<(Seq<char>, Seq<char>)>
    decreases items.len(),
{
    if items.len() == 0 {
        seq![]
    } else {
        headers_of(items.drop_last()) + element_headers(items.last())
    }
}

/// The text view of a list of headers.
pub open spec fn header_texts(h: Seq<(String, String)>) -> Seq<(Seq<char>, Seq<char>)> {
    h.map_values(|p: (String, String)| (p.0@, p.1@))
}

/// The text of a JSON number.
pub fn number_to_text(n: &JsonNumber) -> (r: String)
    ensures
        r@ == number_text(*n),
{
    match n {
        JsonNumber::PosInt(u) => u64_to_decimal(*u),
        JsonNumber::NegInt(i) => i64_to_decimal(*i),
        JsonNumber::Float(t) => t.clone(),
    }
}

/// The header value of a member value, if it gives one.
pub fn header_value_of(v: &JsonValue) -> (r: Option<String>)
    ensures
        r matches Some(s) ==> header_value(*v) == Some(s@),
        r is None ==> header_value(*v) is None,
{
    match v {
        JsonValue::String(s) => Some(s.clone()),
        JsonValue::Number(n) => Some(number_to_text(n)),
        JsonValue::Bool(b) => {
            if *b {
                Some(String::from_str("true"))
            } else {
                Some(String::from_str("false"))
            }
        },
        _ => None,
    }
}

/// Appends the headers that the members of one object give.
fn push_member_headers(out: &mut Vec<(String, String)>, members: &Vec<(String, JsonValue)>)
    ensures
        header_texts(final(out)@) == header_texts(old(out)@) + member_headers(members@),
{
    let mut i: usize = 0;
    while i < members.len()
        invariant
            i <= members@.len(),
            header_texts(out@) == header_texts(old(out)@) + member_headers(members@.take(i as int)),
        decreases members@.len() - i,
    {
        let ghost before = out@;
        assert(members@.take(i + 1).drop_last() =~= members@.take(i as int));
        match header_value_of(&members[i].1) {
            Some(t) => {
                out.push((members[i].0.clone(), t));
                assert(header_texts(out@) =~= header_texts(before).push((members@[i as int].0@, t@)));
            },
            None => {},
        }
        i = i + 1;
    }
    assert(members@.take(members@.len() as int) =~= members@);
}

/// The headers that a JSON array gives (what `*_set_headers` sends).
pub fn headers_from_json(items: &Vec<JsonValue>) -> (r: Vec<(String, String)>)
    ensures
        header_texts(r@) == headers_of(items@),
{
    let mut out: Vec<(String, String)> = Vec::new();
    let mut i: usize = 0;
    assert(header_texts(out@) =~= seq![]);
    while i < items.len()
        invariant
            i <= items@.len(),
            header_texts(out@) == headers_of(items@.take(i as int)),
        decreases items@.len() - i,
    {
        assert(items@.take(i + 1).drop_last() =~= items@.take(i as int));
        match &items[i] {
            JsonValue::Object(members) => {
                push_member_headers(&mut out, members);
            },
            _ => {
                assert(element_headers(items@[i as int]) =~= seq![]);
            },
        }
        i = i + 1;
    }
    assert(items@.take(items@.len() as int) =~= items@);
    out
}

/// The header value of a JSON integer reads back as that integer. For a
/// non-negative one it is decimal digits only, not empty, with no leading
/// zero unless the integer is `0`, and of value the integer; for a
/// negative one it is a minus sign followed by such digits of its magnitude.
pub proof fn law_integer_header_reads_back(u: u64, i: i64)
    ensures
        all_digits(number_text(JsonNumber::PosInt(u))),
        number_text(JsonNumber::PosInt(u)).len() >= 1,
        number_text(JsonNumber::PosInt(u))[0] == '0' ==> u == 0,
        digits_value(number_text(JsonNumber::PosInt(u))) == u,
        i < 0 ==> number_text(JsonNumber::NegInt(i))[0] == '-',
        i < 0 ==> all_digits(number_text(JsonNumber::NegInt(i)).drop_first()),
        i < 0 ==> number_text(JsonNumber::NegInt(i)).len() >= 2,
        i < 0 ==> digits_value(number_text(JsonNumber::NegInt(i)).drop_first()) == -i,
        i < 0 ==> number_text(JsonNumber::NegInt(i))[1] != '0',
{
    lemma_decimal_text_denotes(u as nat);
    if i < 0 {
        let m = (-i) as nat;
        lemma_decimal_text_denotes(m);
        assert((seq!['-'] + decimal_text(m)).drop_first() =~= decimal_text(m));
    }
}

/// An object whose members all give a header gives one header per member,
/// in member order: the member's key with its header value.
pub proof fn law_member_headers_in_order(members: Seq<(String, JsonValue)>)
    requires
        forall|i: int| 0 <= i < members.len() ==> header_value((#[trigger] members[i]).1) is Some,
    ensures
        member_headers(members).len() == members.len(),
        forall|i: int| 0 <= i < members.len() ==> #[trigger] member_headers(members)[i] == (
            members[i].0@,
            header_value(members[i].1)->0,
        ),
    decreases members.len(),
{
    if members.len() > 0 {
        let rest = members.drop_last();
        assert forall|i: int| 0 <= i < rest.len() implies header_value((#[trigger] rest[i]).1) is Some by {
            assert(rest[i] == members[i]);
        }
        law_member_headers_in_order(rest);
        let n = members.len() - 1;
        assert(header_value(members[n].1) is Some);
        assert forall|i: int| 0 <= i < members.len() implies #[trigger] member_headers(members)[i] == (
            members[i].0@,
            header_value(members[i].1)->0,
        ) by {
            if i < n {
                assert(rest[i] == members[i]);
                assert(member_headers(members)[i] == member_headers(rest)[i]);
            }
        }
    }
}

} // verus!
