//! JSON documents as plain values.
use vstd::prelude::*;
use vstd::string::*;

use crate::text::same_text;

verus! {

/// A JSON number, as far as it is an integer.
#[derive(Clone, Copy, Debug, PartialEq, Eq, Structural)]
pub struct JsonNumber {
    pub signed: Option<i64>,
    pub unsigned: Option<u64>,
}

/// A JSON value. The members of an object are in the order of the parsed map.
#[derive(Debug, PartialEq, Eq)]
pub enum JsonValue {
    Null,
    Bool(bool),
    Number(JsonNumber),
    Text(String),
    Array(Vec<JsonValue>),
    Object(Vec<JsonMember>),
}

#[derive(Debug, PartialEq, Eq)]
pub struct JsonMember {
    pub key: String,
    pub value: JsonValue,
}

/// A JSON value as a mathematical value.
pub enum JsonFacts {
    Null,
    Bool(bool),
    Number(JsonNumber),
    Text(Seq<char>),
    Array(Seq<JsonFacts>),
    Object(Seq<MemberFacts>),
}

pub struct MemberFacts {
    pub key: Seq<char>,
    pub value: JsonFacts,
}

impl JsonValue {
    pub open spec fn facts(self) -> JsonFacts
        decreases self, 0nat,
    {
        match self {
            JsonValue::Null => JsonFacts::Null,
            JsonValue::Bool(b) => JsonFacts::Bool(b),
            JsonValue::Number(n) => JsonFacts::Number(n),
            JsonValue::Text(text) => JsonFacts::Text(text@),
            JsonValue::Array(items) => JsonFacts::Array(
                Seq::new(
                    items@.len(),
                    |i: int|
                        if 0 <= i < items@.len() {
                            items@[i].facts()
                        } else {
                            JsonFacts::Null
                        },
                ),
            ),
            JsonValue::Object(members) => JsonFacts::Object(object_facts(members@)),
        }
    }
}

pub open spec fn object_facts(members: Seq<JsonMember>) -> Seq<MemberFacts>
    decreases members, 0nat,
{
    Seq::new(
        members.len(),
        |i: int|
            MemberFacts {
                key: members[i].key@,
                value: if 0 <= i < members.len() {
                    members[i].value.facts()
                } else {
                    JsonFacts::Null
                },
            },
    )
}

/// The facts of a document that may be missing.
pub open spec fn document_facts(document: Option<JsonValue>) -> Option<JsonFacts> {
    match document {
        Some(value) => Some(value.facts()),
        None => None,
    }
}

#[verifier::external_type_specification]
#[verifier::external_body]
pub struct ExJsonDocument(serde_json::Value);

/// The document that a byte string spells, if it spells one.
pub uninterp spec fn json_document(bytes: Seq<u8>) -> Option<JsonFacts>;

/// `serde_json::from_slice` into `serde_json::Value`: whether the bytes are a JSON document,
/// and which, is a function of the bytes alone. The document is handed on member by member.
#[verifier::external_body]
pub(crate) fn parse_json(bytes: &[u8]) -> (r: Option<JsonValue>)
    ensures
        document_facts(r) == json_document(bytes@),
{
    match serde_json::from_slice::<serde_json::Value>(bytes) {
        Ok(value) => Some(plain_value(value)),
        Err(_) => None,
    }
}

/// A `serde_json::Value` as a plain value, variant by variant. Used by [`parse_json`] alone;
/// nothing is claimed of it beyond what that states.
#[verifier::external_body]
fn plain_value(value: serde_json::Value) -> JsonValue {
    match value {
        serde_json::Value::Null => JsonValue::Null,
        serde_json::Value::Bool(b) => JsonValue::Bool(b),
        serde_json::Value::Number(n) => JsonValue::Number(
            JsonNumber { signed: n.as_i64(), unsigned: n.as_u64() },
        ),
        serde_json::Value::String(s) => JsonValue::Text(s),
        serde_json::Value::Array(items) => JsonValue::Array(
            items.into_iter().map(plain_value).collect(),
        ),
        serde_json::Value::Object(map) => JsonValue::Object(
            map.into_iter().map(|(key, v)| JsonMember { key, value: plain_value(v) }).collect(),
        ),
    }
}

/// The value of the first member named `key`.
pub open spec fn member(members: Seq<MemberFacts>, key: Seq<char>) -> Option<JsonFacts>
    decreases members.len(),
{
    if members.len() == 0 {
        None
    } else if members[0].key == key {
        Some(members[0].value)
    } else {
        member(members.drop_first(), key)
    }
}

/// The member that is an object, as its members.
pub open spec fn object_member(members: Seq<MemberFacts>, key: Seq<char>) -> Option<Seq<MemberFacts>> {
    match member(members, key) {
        Some(JsonFacts::Object(inner)) => Some(inner),
        _ => None,
    }
}

/// The member that is a text.
pub open spec fn text_member(members: Seq<MemberFacts>, key: Seq<char>) -> Option<Seq<char>> {
    match member(members, key) {
        Some(JsonFacts::Text(text)) => Some(text),
        _ => None,
    }
}

/// The `i`th member is the first one named `key`.
pub open spec fn first_named(members: Seq<MemberFacts>, key: Seq<char>, i: int) -> bool {
    &&& 0 <= i < members.len()
    &&& members[i].key == key
    &&& forall|j: int| 0 <= j < i ==> (#[trigger] members[j]).key != key
}

/// The object has the member: of those of that name the first, where there are several.
pub open spec fn has_member(members: Seq<MemberFacts>, key: Seq<char>, value: JsonFacts) -> bool {
    exists|i: int| #[trigger] first_named(members, key, i) && members[i].value == value
}

/// The object has no member of that name.
pub open spec fn lacks_name(members: Seq<MemberFacts>, key: Seq<char>) -> bool {
    forall|i: int| 0 <= i < members.len() ==> (#[trigger] members[i]).key != key
}

/// Of the members of one name the first counts, wherever it stands.
pub proof fn law_first_member_counts(members: Seq<MemberFacts>, key: Seq<char>, value: JsonFacts)
    ensures
        has_member(members, key, value) ==> member(members, key) == Some(value),
        lacks_name(members, key) ==> member(members, key) is None,
    decreases members.len(),
{
    if members.len() > 0 {
        let rest = members.drop_first();
        law_first_member_counts(rest, key, value);
        if has_member(members, key, value) && members[0].key != key {
            let i = choose|i: int| #[trigger]
                first_named(members, key, i) && members[i].value == value;
            assert forall|j: int| 0 <= j < i - 1 implies (#[trigger] rest[j]).key != key by {
                assert(members[j + 1].key != key);
            }
            assert(first_named(rest, key, i - 1));
        }
        if lacks_name(members, key) {
            assert forall|j: int| 0 <= j < rest.len() implies (#[trigger] rest[j]).key != key by {
                assert(members[j + 1].key != key);
            }
        }
    }
}

pub fn get_member<'a>(members: &'a Vec<JsonMember>, key: &str) -> (r: Option<&'a JsonValue>)
    ensures
        match r {
            Some(value) => member(object_facts(members@), key@) == Some(value.facts()),
            None => member(object_facts(members@), key@) is None,
        },
{
    let ghost facts = object_facts(members@);
    let mut i: usize = 0;
    assert(facts.skip(0) =~= facts);
    while i < members.len()
        invariant
            i <= members.len(),
            facts == object_facts(members@),
            member(facts, key@) == member(facts.skip(i as int), key@),
        decreases members.len() - i,
    {
        assert(facts.skip(i as int)[0] == facts[i as int]);
        assert(facts.skip(i as int).drop_first() =~= facts.skip(i + 1));
        if same_text(members[i].key.as_str(), key) {
            return Some(&members[i].value);
        }
        i = i + 1;
    }
    None
}

pub fn get_object<'a>(members: &'a Vec<JsonMember>, key: &str) -> (r: Option<&'a Vec<JsonMember>>)
    ensures
        match r {
            Some(inner) => object_member(object_facts(members@), key@) == Some(object_facts(inner@)),
            None => object_member(object_facts(members@), key@) is None,
        },
{
    match get_member(members, key) {
        Some(JsonValue::Object(inner)) => Some(inner),
        _ => None,
    }
}

pub fn get_text<'a>(members: &'a Vec<JsonMember>, key: &str) -> (r: Option<&'a str>)
    ensures
        match r {
            Some(text) => text_member(object_facts(members@), key@) == Some(text@),
            None => text_member(object_facts(members@), key@) is None,
        },
{
    match get_member(members, key) {
        Some(JsonValue::Text(text)) => Some(text.as_str()),
        _ => None,
    }
}

} // verus!
