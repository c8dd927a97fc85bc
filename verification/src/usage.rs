//! The usage records of a rollout: token counts, turn contexts and turn lifecycles.
use vstd::prelude::*;
use vstd::string::*;

use crate::identifiers::get_timestamp;
#[allow(unused_imports)]
use crate::identifiers::timestamp_member;
use crate::json::{get_member, get_object, get_text, parse_json, JsonMember, JsonValue};
#[allow(unused_imports)]
use crate::json::{
    document_facts, json_document, member, object_facts, object_member, text_member, JsonFacts,
    MemberFacts,
};
use crate::normalization::{CodexRawTokenUsage, CodexRolloutAdapter};
use crate::rollout::EnvelopeKind;
use crate::rollout_parser::{classify_envelope, CompleteRolloutLine};
#[allow(unused_imports)]
use crate::rollout_parser::{envelope_kind, word_field};
use crate::text::{non_empty, same_text};
use crate::token_usage::NormalizedTokenUsage;
#[allow(unused_imports)]
use crate::token_usage::{opt_int, usage_fault};

verus! {

/// A record of a rollout that is proven complete.
pub type CompleteUsageLine = CompleteRolloutLine;

/// Why a vector of counts is of no use.
#[derive(Clone, Copy, Debug, PartialEq, Eq, Structural)]
pub enum TokenValueError {
    /// It is not an object.
    NotAnObject,
    /// A count is missing or is no integer.
    NotAnInteger,
    /// The counts contradict each other.
    Inconsistent,
}

/// A vector of counts that has to be there.
#[derive(Clone, Copy, Debug, PartialEq, Eq, Structural)]
pub enum NormalizedTokenValue {
    Valid(NormalizedTokenUsage),
    Invalid(TokenValueError),
}

/// A vector of counts that may be absent.
#[derive(Clone, Copy, Debug, PartialEq, Eq, Structural)]
pub enum OptionalTokenValue {
    Missing,
    Valid(NormalizedTokenUsage),
    Invalid(TokenValueError),
}

#[derive(Clone, Copy, Debug, PartialEq, Eq, Structural)]
pub struct TokenCountInfo {
    pub current_total: NormalizedTokenValue,
    pub last_usage: OptionalTokenValue,
}

#[derive(Clone, Copy, Debug, PartialEq, Eq, Structural)]
pub struct TokenCountRecord {
    pub occurred_at_ms: Option<i64>,
    pub info: Option<TokenCountInfo>,
}

#[derive(Clone, Debug, PartialEq, Eq)]
pub struct TurnContextRecord {
    pub model: Option<String>,
    pub reasoning_effort: Option<String>,
}

#[derive(Clone, Copy, Debug, PartialEq, Eq, Structural)]
pub enum LifecycleKind {
    Started,
    Completed,
    Aborted,
    Failed,
}

#[derive(Clone, Debug, PartialEq, Eq)]
pub struct LifecycleRecord {
    pub kind: LifecycleKind,
    pub turn_id: Option<String>,
    pub occurred_at_ms: Option<i64>,
}

/// What one line says about usage.
#[derive(Clone, Debug, PartialEq, Eq)]
pub enum UsageRawRecord {
    TokenCount(TokenCountRecord),
    TurnContext(TurnContextRecord),
    Lifecycle(LifecycleRecord),
    Malformed,
    OversizedComplete { start_offset: u64, end_offset: u64 },
    Ignored,
    Unknown,
}

pub enum RawFacts {
    TokenCount(TokenCountRecord),
    TurnContext { model: Option<Seq<char>>, reasoning_effort: Option<Seq<char>> },
    Lifecycle { kind: LifecycleKind, turn_id: Option<Seq<char>>, occurred_at_ms: Option<i64> },
    Malformed,
    OversizedComplete,
    Ignored,
    Unknown,
}

impl DeepView for UsageRawRecord {
    type V = RawFacts;

    open spec fn deep_view(&self) -> RawFacts {
        match self {
            UsageRawRecord::TokenCount(record) => RawFacts::TokenCount(*record),
            UsageRawRecord::TurnContext(record) => RawFacts::TurnContext {
                model: record.model.deep_view(),
                reasoning_effort: record.reasoning_effort.deep_view(),
            },
            UsageRawRecord::Lifecycle(record) => RawFacts::Lifecycle {
                kind: record.kind,
                turn_id: record.turn_id.deep_view(),
                occurred_at_ms: record.occurred_at_ms,
            },
            UsageRawRecord::Malformed => RawFacts::Malformed,
            UsageRawRecord::OversizedComplete { .. } => RawFacts::OversizedComplete,
            UsageRawRecord::Ignored => RawFacts::Ignored,
            UsageRawRecord::Unknown => RawFacts::Unknown,
        }
    }
}

/// The member that is an integer.
pub open spec fn integer_member(members: Seq<MemberFacts>, key: Seq<char>) -> Option<i64> {
    match member(members, key) {
        Some(JsonFacts::Number(number)) => number.signed,
        _ => None,
    }
}

/// The member is absent or null.
pub open spec fn no_member(members: Seq<MemberFacts>, key: Seq<char>) -> bool {
    member(members, key) is None || member(members, key) == Some(JsonFacts::Null)
}

/// A vector of counts in the wire format.
pub open spec fn token_value(members: Seq<MemberFacts>) -> Result<
    NormalizedTokenUsage,
    TokenValueError,
> {
    let input = integer_member(members, "input_tokens"@);
    let cached = integer_member(members, "cached_input_tokens"@);
    let cache_write = integer_member(members, "cache_write_input_tokens"@);
    let output = integer_member(members, "output_tokens"@);
    let reasoning = integer_member(members, "reasoning_output_tokens"@);
    let total = integer_member(members, "total_tokens"@);
    if input is None || cached is None || output is None || reasoning is None || total is None || (
    cache_write is None && !no_member(members, "cache_write_input_tokens"@)) {
        Err(TokenValueError::NotAnInteger)
    } else if usage_fault(
        input->0 as int,
        cached->0 as int,
        opt_int(cache_write),
        output->0 as int,
        reasoning->0 as int,
        total->0 as int,
    ) is Some {
        Err(TokenValueError::Inconsistent)
    } else {
        Ok(
            NormalizedTokenUsage {
                input_tokens: input->0,
                cached_tokens: cached->0,
                cache_write_tokens: cache_write,
                output_tokens: output->0,
                reasoning_tokens: reasoning->0,
                total_tokens: total->0,
            },
        )
    }
}

pub open spec fn total_of(info: Seq<MemberFacts>) -> NormalizedTokenValue {
    match object_member(info, "total_token_usage"@) {
        None => NormalizedTokenValue::Invalid(TokenValueError::NotAnObject),
        Some(members) => match token_value(members) {
            Ok(value) => NormalizedTokenValue::Valid(value),
            Err(error) => NormalizedTokenValue::Invalid(error),
        },
    }
}

pub open spec fn last_of(info: Seq<MemberFacts>) -> OptionalTokenValue {
    if no_member(info, "last_token_usage"@) {
        OptionalTokenValue::Missing
    } else {
        match object_member(info, "last_token_usage"@) {
            None => OptionalTokenValue::Invalid(TokenValueError::NotAnObject),
            Some(members) => match token_value(members) {
                Ok(value) => OptionalTokenValue::Valid(value),
                Err(error) => OptionalTokenValue::Invalid(error),
            },
        }
    }
}

/// A token count. Without `info` it says nothing.
pub open spec fn token_count(object: Seq<MemberFacts>) -> RawFacts {
    let at = timestamp_member(object, "timestamp"@);
    match object_member(object, "payload"@) {
        None => RawFacts::Malformed,
        Some(payload) => if no_member(payload, "info"@) {
            RawFacts::TokenCount(TokenCountRecord { occurred_at_ms: at, info: None })
        } else {
            match object_member(payload, "info"@) {
                None => RawFacts::Malformed,
                Some(info) => RawFacts::TokenCount(
                    TokenCountRecord {
                        occurred_at_ms: at,
                        info: Some(
                            TokenCountInfo {
                                current_total: total_of(info),
                                last_usage: last_of(info),
                            },
                        ),
                    },
                ),
            }
        },
    }
}

pub open spec fn context_record(object: Seq<MemberFacts>) -> RawFacts {
    match object_member(object, "payload"@) {
        None => RawFacts::Malformed,
        Some(payload) => RawFacts::TurnContext {
            model: word_field(payload, "model"@),
            reasoning_effort: word_field(payload, "effort"@),
        },
    }
}

/// The word that says what happened to a turn: the type of the event, or of the record.
pub open spec fn lifecycle_word(object: Seq<MemberFacts>) -> Option<Seq<char>> {
    if text_member(object, "type"@) == Some("event_msg"@) {
        match object_member(object, "payload"@) {
            Some(payload) => text_member(payload, "type"@),
            None => None,
        }
    } else {
        text_member(object, "type"@)
    }
}

pub open spec fn lifecycle_kind(word: Seq<char>) -> Option<LifecycleKind> {
    if word == "task_started"@ || word == "turn_started"@ {
        Some(LifecycleKind::Started)
    } else if word == "task_complete"@ || word == "turn_complete"@ || word == "turn_completed"@ {
        Some(LifecycleKind::Completed)
    } else if word == "turn_aborted"@ {
        Some(LifecycleKind::Aborted)
    } else {
        None
    }
}

/// What happened to a turn. Other lifecycle records say nothing about usage.
pub open spec fn lifecycle(object: Seq<MemberFacts>) -> RawFacts {
    match lifecycle_word(object) {
        None => RawFacts::Ignored,
        Some(word) => match lifecycle_kind(word) {
            None => RawFacts::Ignored,
            Some(kind) => RawFacts::Lifecycle {
                kind,
                turn_id: match object_member(object, "payload"@) {
                    Some(payload) => word_field(payload, "turn_id"@),
                    None => None,
                },
                occurred_at_ms: timestamp_member(object, "timestamp"@),
            },
        },
    }
}

/// What a document says about usage.
pub open spec fn raw_record(document: Option<JsonFacts>) -> RawFacts {
    match document {
        Some(JsonFacts::Object(members)) => match envelope_kind(members) {
            EnvelopeKind::TokenCount => token_count(members),
            EnvelopeKind::TurnContext => context_record(members),
            EnvelopeKind::Lifecycle => lifecycle(members),
            EnvelopeKind::SessionMeta | EnvelopeKind::Ignored => RawFacts::Ignored,
            EnvelopeKind::Malformed => RawFacts::Malformed,
            EnvelopeKind::Unknown => RawFacts::Unknown,
        },
        _ => RawFacts::Malformed,
    }
}

fn get_integer(members: &Vec<JsonMember>, key: &str) -> (r: Option<i64>)
    ensures
        r == integer_member(object_facts(members@), key@),
{
    match get_member(members, key) {
        Some(JsonValue::Number(number)) => number.signed,
        _ => None,
    }
}

fn lacks_member(members: &Vec<JsonMember>, key: &str) -> (r: bool)
    ensures
        r == no_member(object_facts(members@), key@),
{
    match get_member(members, key) {
        None => true,
        Some(JsonValue::Null) => true,
        Some(_) => false,
    }
}

fn get_word(members: &Vec<JsonMember>, key: &str) -> (r: Option<String>)
    ensures
        r.deep_view() == word_field(object_facts(members@), key@),
{
    match get_text(members, key) {
        Some(text) => non_empty(text),
        None => None,
    }
}

fn read_vector(members: &Vec<JsonMember>) -> (r: Result<NormalizedTokenUsage, TokenValueError>)
    ensures
        r == token_value(object_facts(members@)),
{
    let cache_write: Option<i64> = get_integer(members, "cache_write_input_tokens");
    if cache_write.is_none() && !lacks_member(members, "cache_write_input_tokens") {
        return Err(TokenValueError::NotAnInteger);
    }
    match (
        get_integer(members, "input_tokens"),
        get_integer(members, "cached_input_tokens"),
        get_integer(members, "output_tokens"),
        get_integer(members, "reasoning_output_tokens"),
        get_integer(members, "total_tokens"),
    ) {
        (Some(input), Some(cached), Some(output), Some(reasoning), Some(total)) => {
            let raw: CodexRawTokenUsage = CodexRawTokenUsage {
                input_tokens: input,
                cached_input_tokens: cached,
                cache_write_input_tokens: cache_write,
                output_tokens: output,
                reasoning_output_tokens: reasoning,
                total_tokens: total,
            };
            match CodexRolloutAdapter::normalize(raw) {
                Ok(value) => Ok(value),
                Err(_) => Err(TokenValueError::Inconsistent),
            }
        },
        _ => Err(TokenValueError::NotAnInteger),
    }
}

fn read_info(info: &Vec<JsonMember>) -> (r: TokenCountInfo)
    ensures
        r == (TokenCountInfo {
            current_total: total_of(object_facts(info@)),
            last_usage: last_of(object_facts(info@)),
        }),
{
    let current_total: NormalizedTokenValue = match get_object(info, "total_token_usage") {
        None => NormalizedTokenValue::Invalid(TokenValueError::NotAnObject),
        Some(members) => match read_vector(members) {
            Ok(value) => NormalizedTokenValue::Valid(value),
            Err(error) => NormalizedTokenValue::Invalid(error),
        },
    };
    let last_usage: OptionalTokenValue = if lacks_member(info, "last_token_usage") {
        OptionalTokenValue::Missing
    } else {
        match get_object(info, "last_token_usage") {
            None => OptionalTokenValue::Invalid(TokenValueError::NotAnObject),
            Some(members) => match read_vector(members) {
                Ok(value) => OptionalTokenValue::Valid(value),
                Err(error) => OptionalTokenValue::Invalid(error),
            },
        }
    };
    TokenCountInfo { current_total, last_usage }
}

fn read_token_count(object: &Vec<JsonMember>) -> (r: UsageRawRecord)
    ensures
        r.deep_view() == token_count(object_facts(object@)),
{
    let occurred_at_ms: Option<i64> = get_timestamp(object, "timestamp");
    match get_object(object, "payload") {
        None => UsageRawRecord::Malformed,
        Some(payload) => {
            if lacks_member(payload, "info") {
                return UsageRawRecord::TokenCount(
                    TokenCountRecord { occurred_at_ms, info: None },
                );
            }
            match get_object(payload, "info") {
                None => UsageRawRecord::Malformed,
                Some(info) => UsageRawRecord::TokenCount(
                    TokenCountRecord { occurred_at_ms, info: Some(read_info(info)) },
                ),
            }
        },
    }
}

fn read_lifecycle(object: &Vec<JsonMember>) -> (r: UsageRawRecord)
    ensures
        r.deep_view() == lifecycle(object_facts(object@)),
{
    let payload: Option<&Vec<JsonMember>> = get_object(object, "payload");
    let record_type: Option<&str> = get_text(object, "type");
    let event: bool = match record_type {
        Some(t) => same_text(t, "event_msg"),
        None => false,
    };
    let word: Option<&str> = if event {
        match payload {
            Some(payload) => get_text(payload, "type"),
            None => None,
        }
    } else {
        record_type
    };
    let word: &str = match word {
        Some(word) => word,
        None => {
            return UsageRawRecord::Ignored;
        },
    };
    let kind: LifecycleKind = if same_text(word, "task_started") || same_text(
        word,
        "turn_started",
    ) {
        LifecycleKind::Started
    } else if same_text(word, "task_complete") || same_text(word, "turn_complete") || same_text(
        word,
        "turn_completed",
    ) {
        LifecycleKind::Completed
    } else if same_text(word, "turn_aborted") {
        LifecycleKind::Aborted
    } else {
        return UsageRawRecord::Ignored;
    };
    UsageRawRecord::Lifecycle(
        LifecycleRecord {
            kind,
            turn_id: match payload {
                Some(payload) => get_word(payload, "turn_id"),
                None => None,
            },
            occurred_at_ms: get_timestamp(object, "timestamp"),
        },
    )
}

/// Reads the usage records of a rollout.
pub struct CodexRolloutParser;

impl CodexRolloutParser {
    /// What a line says about usage.
    pub fn parse_line(&self, line: &CompleteUsageLine) -> (r: UsageRawRecord)
        ensures
            r.deep_view() == raw_record(json_document(line@.json)),
    {
        let document: Option<JsonValue> = parse_json(line.json_bytes());
        self.read_document(&document)
    }

    /// What a document says about usage.
    pub fn read_document(&self, document: &Option<JsonValue>) -> (r: UsageRawRecord)
        ensures
            r.deep_view() == raw_record(document_facts(*document)),
    {
        let members: &Vec<JsonMember> = match document {
            Some(JsonValue::Object(members)) => members,
            _ => {
                return UsageRawRecord::Malformed;
            },
        };
        match classify_envelope(members) {
            EnvelopeKind::TokenCount => read_token_count(members),
            EnvelopeKind::TurnContext => match get_object(members, "payload") {
                None => UsageRawRecord::Malformed,
                Some(payload) => UsageRawRecord::TurnContext(
                    TurnContextRecord {
                        model: get_word(payload, "model"),
                        reasoning_effort: get_word(payload, "effort"),
                    },
                ),
            },
            EnvelopeKind::Lifecycle => read_lifecycle(members),
            EnvelopeKind::SessionMeta | EnvelopeKind::Ignored => UsageRawRecord::Ignored,
            EnvelopeKind::Malformed => UsageRawRecord::Malformed,
            EnvelopeKind::Unknown => UsageRawRecord::Unknown,
        }
    }
}

/// The skills that a record shows in use.
#[derive(Clone, Debug, PartialEq, Eq)]
pub struct SkillUsageEvidence {
    pub occurred_at_ms: i64,
    pub skill_names: Vec<String>,
}

pub struct EvidenceFacts {
    pub occurred_at_ms: i64,
    pub skill_names: Seq<Seq<char>>,
}

impl DeepView for SkillUsageEvidence {
    type V = EvidenceFacts;

    open spec fn deep_view(&self) -> EvidenceFacts {
        EvidenceFacts {
            occurred_at_ms: self.occurred_at_ms,
            skill_names: self.skill_names.deep_view(),
        }
    }
}

} // verus!
