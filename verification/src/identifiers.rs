//! Thread identifiers and timestamps.
use vstd::prelude::*;
use vstd::string::*;

use crate::json::{get_member, JsonMember, JsonValue};
#[allow(unused_imports)]
use crate::json::{member, object_facts, JsonFacts, MemberFacts};
#[allow(unused_imports)]
use crate::encoding::hex_lower;

verus! {

/// The 16 bytes of the UUID that a text spells, if it spells one.
pub uninterp spec fn uuid_bytes(text: Seq<char>) -> Option<Seq<u8>>;

/// `uuid::Uuid::parse_str`: whether a text is a UUID, and which, is a function of the text
/// alone.
#[verifier::external_body]
pub(crate) fn parse_uuid(text: &str) -> (r: Option<[u8; 16]>)
    ensures
        match r {
            Some(bytes) => uuid_bytes(text@) == Some(bytes@),
            None => uuid_bytes(text@) is None,
        },
{
    uuid::Uuid::parse_str(text).ok().map(|uuid| *uuid.as_bytes())
}

/// The hyphenated lower-case form: groups of 8, 4, 4, 4 and 12 digits.
pub open spec fn hyphenated(bytes: Seq<u8>) -> Seq<char> {
    let hex = hex_lower(bytes);
    hex.subrange(0, 8) + seq!['-'] + hex.subrange(8, 12) + seq!['-'] + hex.subrange(12, 16)
        + seq!['-'] + hex.subrange(16, 20) + seq!['-'] + hex.subrange(20, 32)
}

/// `uuid::Uuid`'s `to_string`: the hyphenated lower-case form, which parses back to the same
/// bytes.
#[verifier::external_body]
pub(crate) fn uuid_text(bytes: [u8; 16]) -> (r: String)
    ensures
        r@ == hyphenated(bytes@),
        uuid_bytes(r@) == Some(bytes@),
{
    uuid::Uuid::from_bytes(bytes).to_string()
}

/// The instant that an RFC 3339 text names, in milliseconds since the Unix epoch.
pub uninterp spec fn rfc3339_ms(text: Seq<char>) -> Option<i64>;

/// `chrono::DateTime::parse_from_rfc3339` and `timestamp_millis`: whether a text names an
/// instant, and which, is a function of the text alone.
#[verifier::external_body]
pub(crate) fn parse_rfc3339_ms(text: &str) -> (r: Option<i64>)
    ensures
        r == rfc3339_ms(text@),
{
    chrono::DateTime::parse_from_rfc3339(text).ok().map(|at| at.timestamp_millis())
}

/// A UUID in its canonical spelling.
pub open spec fn canonical_uuid(text: Seq<char>) -> Option<Seq<char>> {
    match uuid_bytes(text) {
        Some(bytes) => Some(hyphenated(bytes)),
        None => None,
    }
}

pub fn valid_uuid_string(text: &str) -> (r: Option<String>)
    ensures
        r.deep_view() == canonical_uuid(text@),
        r is Some ==> canonical_uuid(r->0@) == Some(r->0@),
{
    match parse_uuid(text) {
        Some(bytes) => Some(uuid_text(bytes)),
        None => None,
    }
}

pub fn optional_uuid_string(text: Option<&str>) -> (r: Option<String>)
    ensures
        r.deep_view() == match text {
            Some(text) => canonical_uuid(text@),
            None => None,
        },
{
    match text {
        Some(text) => valid_uuid_string(text),
        None => None,
    }
}

/// The version digit of a UUID.
pub open spec fn version_digit(bytes: Seq<u8>) -> u8 {
    bytes[6] >> 4u8
}

/// The millisecond timestamp in the first 48 bits.
pub open spec fn leading_48_bits(bytes: Seq<u8>) -> int {
    bytes[0] * 0x100_0000_0000 + bytes[1] * 0x1_0000_0000 + bytes[2] * 0x100_0000 + bytes[3]
        * 0x1_0000 + bytes[4] * 0x100 + bytes[5]
}

/// The timestamp of a UUID of version 7; a UUID of another version has none.
pub open spec fn version_7_ms(bytes: Seq<u8>) -> Option<int> {
    if version_digit(bytes) == 7 {
        Some(leading_48_bits(bytes))
    } else {
        None
    }
}

/// The timestamp of a version 7 UUID, if the text spells one.
pub open spec fn uuid7_ms(text: Seq<char>) -> Option<int> {
    match uuid_bytes(text) {
        Some(bytes) => version_7_ms(bytes),
        None => None,
    }
}

/// The timestamp in the bytes of a UUID.
pub fn uuid7_timestamp_ms(bytes: &[u8; 16]) -> (r: Option<u64>)
    ensures
        match r {
            Some(ms) => version_7_ms(bytes@) == Some(ms as int) && ms < 0x1_0000_0000_0000,
            None => version_7_ms(bytes@) is None,
        },
{
    if bytes[6] >> 4u8 != 7 {
        return None;
    }
    Some(
        bytes[0] as u64 * 0x100_0000_0000 + bytes[1] as u64 * 0x1_0000_0000 + bytes[2] as u64
            * 0x100_0000 + bytes[3] as u64 * 0x1_0000 + bytes[4] as u64 * 0x100 + bytes[5] as u64,
    )
}

/// The timestamp of a version 7 UUID.
pub fn uuid7_timestamp(text: &str) -> (r: Option<u64>)
    ensures
        match r {
            Some(ms) => uuid7_ms(text@) == Some(ms as int) && ms < 0x1_0000_0000_0000,
            None => uuid7_ms(text@) is None,
        },
{
    match parse_uuid(text) {
        Some(bytes) => uuid7_timestamp_ms(&bytes),
        None => None,
    }
}

/// Both are version 7 and the turn's timestamp is not before the thread's.
pub open spec fn not_earlier(turn_id: Seq<char>, owning_thread_id: Seq<char>) -> bool {
    uuid7_ms(turn_id) is Some && uuid7_ms(owning_thread_id) is Some && uuid7_ms(turn_id)->0
        >= uuid7_ms(owning_thread_id)->0
}

pub fn uuid7_is_not_earlier(turn_id: &str, owning_thread_id: &str) -> (r: bool)
    ensures
        r == not_earlier(turn_id@, owning_thread_id@),
{
    match (uuid7_timestamp(turn_id), uuid7_timestamp(owning_thread_id)) {
        (Some(turn), Some(thread)) => turn >= thread,
        _ => false,
    }
}

/// The time by which model observations are ordered: the timestamp in a version 7 turn id,
/// else the time of the envelope.
pub open spec fn context_order(turn_id: Option<Seq<char>>, envelope_ms: Option<i64>) -> Option<i64> {
    if turn_id is Some && uuid7_ms(turn_id->0) is Some {
        Some(uuid7_ms(turn_id->0)->0 as i64)
    } else {
        envelope_ms
    }
}

pub fn latest_context_order_ms(turn_id: &Option<String>, envelope_timestamp_ms: Option<i64>) -> (r:
    Option<i64>)
    ensures
        r == context_order(turn_id.deep_view(), envelope_timestamp_ms),
{
    match turn_id {
        Some(turn_id) => match uuid7_timestamp(turn_id.as_str()) {
            Some(ms) => Some(ms as i64),
            None => envelope_timestamp_ms,
        },
        None => envelope_timestamp_ms,
    }
}

/// A timestamp field: an RFC 3339 text, or a whole number of milliseconds.
pub open spec fn timestamp_of(value: JsonFacts) -> Option<i64> {
    match value {
        JsonFacts::Text(text) => rfc3339_ms(text),
        JsonFacts::Number(number) => if number.signed is Some && number.signed->0 >= 0 {
            number.signed
        } else {
            None
        },
        _ => None,
    }
}

pub open spec fn timestamp_member(members: Seq<MemberFacts>, key: Seq<char>) -> Option<i64> {
    match member(members, key) {
        Some(value) => timestamp_of(value),
        None => None,
    }
}

pub fn parse_timestamp_ms(value: &JsonValue) -> (r: Option<i64>)
    ensures
        r == timestamp_of(value.facts()),
{
    match value {
        JsonValue::Text(text) => parse_rfc3339_ms(text.as_str()),
        JsonValue::Number(number) => match number.signed {
            Some(ms) => if ms >= 0 {
                Some(ms)
            } else {
                None
            },
            None => None,
        },
        _ => None,
    }
}

pub fn get_timestamp(members: &Vec<JsonMember>, key: &str) -> (r: Option<i64>)
    ensures
        r == timestamp_member(object_facts(members@), key@),
{
    match get_member(members, key) {
        Some(value) => parse_timestamp_ms(value),
        None => None,
    }
}

} // verus!
