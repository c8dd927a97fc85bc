//! What the fields of a record are read as.
use vstd::prelude::*;

use crate::identifiers::{canonical_uuid, rfc3339_ms, timestamp_member};
use crate::json::{
    has_member, lacks_name, law_first_member_counts, member, object_member, text_member, JsonFacts,
    JsonNumber, MemberFacts,
};
use crate::paths::{absolute_path, agent_path};
use crate::platform::Platform;
use crate::rollout::EnvelopeKind;
use crate::rollout_parser::{
    content_of, envelope_kind, session_meta, turn_context, uuid_field, word_field, RecordContent,
    SessionMetaAllowed, TurnContextAllowed,
};
use crate::text::trim;
use crate::token_usage::NormalizedTokenUsage;
use crate::usage::{
    integer_member, last_of, no_member, raw_record, token_value, total_of, LifecycleKind,
    NormalizedTokenValue, OptionalTokenValue, TokenCountInfo, TokenValueError, UsageRawRecord,
};

verus! {

/// The object has the integer under that name.
pub open spec fn has_count(counts: Seq<MemberFacts>, key: Seq<char>, count: i64) -> bool {
    exists|number: JsonNumber| #[trigger]
        has_member(counts, key, JsonFacts::Number(number)) && number.signed == Some(count)
}

/// The object has nothing under that name, or a null.
pub open spec fn has_nothing(members: Seq<MemberFacts>, key: Seq<char>) -> bool {
    lacks_name(members, key) || has_member(members, key, JsonFacts::Null)
}

/// The object has no integer under that name.
pub open spec fn has_no_count(counts: Seq<MemberFacts>, key: Seq<char>) -> bool {
    ||| lacks_name(counts, key)
    ||| exists|value: JsonFacts| #[trigger]
        has_member(counts, key, value) && !(value is Number && value->Number_0.signed is Some)
}

/// The object spells this vector: every count under the name that it has in a rollout. What was
/// written to the cache may be left out.
pub open spec fn spells(counts: Seq<MemberFacts>, v: NormalizedTokenUsage) -> bool {
    &&& has_count(counts, "input_tokens"@, v.input_tokens)
    &&& has_count(counts, "cached_input_tokens"@, v.cached_tokens)
    &&& has_count(counts, "output_tokens"@, v.output_tokens)
    &&& has_count(counts, "reasoning_output_tokens"@, v.reasoning_tokens)
    &&& has_count(counts, "total_tokens"@, v.total_tokens)
    &&& match v.cache_write_tokens {
        Some(write) => has_count(counts, "cache_write_input_tokens"@, write),
        None => has_nothing(counts, "cache_write_input_tokens"@),
    }
}

/// Some count of the object is no integer or, but for what was written to the cache, is not
/// there.
pub open spec fn misspells(counts: Seq<MemberFacts>) -> bool {
    ||| has_no_count(counts, "input_tokens"@)
    ||| has_no_count(counts, "cached_input_tokens"@)
    ||| has_no_count(counts, "output_tokens"@)
    ||| has_no_count(counts, "reasoning_output_tokens"@)
    ||| has_no_count(counts, "total_tokens"@)
    ||| has_no_count(counts, "cache_write_input_tokens"@) && !has_nothing(
        counts,
        "cache_write_input_tokens"@,
    )
}

/// The counts of a vector fit together: what is cached and what was written to the cache are
/// parts of the input, what was reasoned is part of the output, and these make up the total.
pub open spec fn fits_together(v: NormalizedTokenUsage) -> bool {
    &&& 0 <= v.cached_tokens
    &&& 0 <= v.reasoning_tokens <= v.output_tokens
    &&& v.total_tokens == v.input_tokens + v.output_tokens
    &&& match v.cache_write_tokens {
        Some(write) => 0 <= write && v.cached_tokens + write <= v.input_tokens,
        None => v.cached_tokens <= v.input_tokens,
    }
}

proof fn lemma_count(counts: Seq<MemberFacts>, key: Seq<char>, count: i64)
    ensures
        has_count(counts, key, count) ==> integer_member(counts, key) == Some(count),
        has_no_count(counts, key) ==> integer_member(counts, key) is None,
        has_nothing(counts, key) ==> no_member(counts, key) && integer_member(counts, key) is None,
        has_no_count(counts, key) && !has_nothing(counts, key) ==> !no_member(counts, key),
{
    if has_count(counts, key, count) {
        let number = choose|number: JsonNumber| #[trigger]
            has_member(counts, key, JsonFacts::Number(number)) && number.signed == Some(count);
        law_first_member_counts(counts, key, JsonFacts::Number(number));
    }
    law_first_member_counts(counts, key, JsonFacts::Null);
    if has_no_count(counts, key) && !lacks_name(counts, key) {
        let value = choose|value: JsonFacts| #[trigger]
            has_member(counts, key, value) && !(value is Number && value->Number_0.signed is Some);
        law_first_member_counts(counts, key, value);
        if value is Null {
            assert(has_member(counts, key, JsonFacts::Null));
        }
    }
}

proof fn lemma_vector(counts: Seq<MemberFacts>, v: NormalizedTokenUsage)
    ensures
        spells(counts, v) && fits_together(v) ==> token_value(counts) == Ok::<_, TokenValueError>(
            v,
        ),
        spells(counts, v) && !fits_together(v) ==> token_value(counts) == Err::<
            NormalizedTokenUsage,
            _,
        >(TokenValueError::Inconsistent),
        misspells(counts) ==> token_value(counts) == Err::<NormalizedTokenUsage, _>(
            TokenValueError::NotAnInteger,
        ),
{
    lemma_count(counts, "input_tokens"@, v.input_tokens);
    lemma_count(counts, "cached_input_tokens"@, v.cached_tokens);
    lemma_count(counts, "output_tokens"@, v.output_tokens);
    lemma_count(counts, "reasoning_output_tokens"@, v.reasoning_tokens);
    lemma_count(counts, "total_tokens"@, v.total_tokens);
    lemma_count(
        counts,
        "cache_write_input_tokens"@,
        match v.cache_write_tokens {
            Some(write) => write,
            None => 0,
        },
    );
}

proof fn lemma_words()
    ensures
        "event_msg"@ != "session_meta"@,
        "event_msg"@ != "turn_context"@,
        "event_msg"@ != "token_count"@,
        "event_msg"@ != "lifecycle"@,
        "event_msg"@ != "turn_started"@,
        "event_msg"@ != "turn_completed"@,
        "event_msg"@ != "turn_aborted"@,
        "event_msg"@ != "response_item"@,
        "event_msg"@ != "compacted"@,
        "event_msg"@ != "ghost_snapshot"@,
        "turn_context"@ != "session_meta"@,
        "token_count"@ != "session_meta"@,
        "token_count"@ != "turn_context"@,
        "turn_started"@ != "turn_completed"@,
        "turn_started"@ != "turn_complete"@,
        "turn_started"@ != "turn_aborted"@,
        "turn_started"@ != "task_complete"@,
        "task_started"@ != "turn_completed"@,
        "task_started"@ != "turn_complete"@,
        "task_started"@ != "turn_aborted"@,
        "task_started"@ != "task_complete"@,
        "turn_aborted"@ != "turn_completed"@,
        "turn_aborted"@ != "turn_complete"@,
        "turn_aborted"@ != "task_complete"@,
{
    reveal_strlit("event_msg");
    reveal_strlit("session_meta");
    reveal_strlit("turn_context");
    reveal_strlit("token_count");
    reveal_strlit("lifecycle");
    reveal_strlit("turn_started");
    reveal_strlit("turn_completed");
    reveal_strlit("turn_complete");
    reveal_strlit("turn_aborted");
    reveal_strlit("task_started");
    reveal_strlit("task_complete");
    reveal_strlit("response_item");
    reveal_strlit("compacted");
    reveal_strlit("ghost_snapshot");
    assert("event_msg"@[0] == 'e');
    assert("session_meta"@[0] == 's');
    assert("turn_context"@[0] == 't');
    assert("token_count"@[1] == 'o');
    assert("turn_context"@[1] == 'u');
    assert("lifecycle"@[0] == 'l');
    assert("turn_started"@[5] == 's');
    assert("turn_aborted"@[5] == 'a');
    assert("turn_completed"@[5] == 'c');
    assert("turn_complete"@[5] == 'c');
    assert("task_complete"@[5] == 'c');
    assert("task_started"@[5] == 's');
    assert("task_started"@[1] == 'a');
    assert("response_item"@[0] == 'r');
    assert("compacted"@[0] == 'c');
    assert("ghost_snapshot"@[0] == 'g');
}

/// The record is a token count: an event message whose payload says so, or a record of that
/// type itself.
pub open spec fn is_token_count(object: Seq<MemberFacts>, payload: Seq<MemberFacts>) -> bool {
    &&& has_member(object, "payload"@, JsonFacts::Object(payload))
    &&& (has_member(object, "type"@, JsonFacts::Text("event_msg"@)) && has_member(
        payload,
        "type"@,
        JsonFacts::Text("token_count"@),
    )) || has_member(object, "type"@, JsonFacts::Text("token_count"@))
}

proof fn lemma_token_count(object: Seq<MemberFacts>, payload: Seq<MemberFacts>)
    requires
        is_token_count(object, payload),
    ensures
        envelope_kind(object) is TokenCount,
        object_member(object, "payload"@) == Some(payload),
{
    lemma_words();
    law_first_member_counts(object, "payload"@, JsonFacts::Object(payload));
    law_first_member_counts(object, "type"@, JsonFacts::Text("event_msg"@));
    law_first_member_counts(object, "type"@, JsonFacts::Text("token_count"@));
    law_first_member_counts(payload, "type"@, JsonFacts::Text("token_count"@));
}

/// The record tells the time: whole milliseconds, or a date and time in text; or it tells none.
pub open spec fn tells_time(object: Seq<MemberFacts>, at: Option<i64>) -> bool {
    ||| at is Some && at->0 >= 0 && has_count(object, "timestamp"@, at->0)
    ||| exists|text: Seq<char>| #[trigger]
        has_member(object, "timestamp"@, JsonFacts::Text(text)) && at == rfc3339_ms(text)
    ||| at is None && has_nothing(object, "timestamp"@)
    ||| at is None && exists|count: i64| #[trigger]
        has_count(object, "timestamp"@, count) && count < 0
}

proof fn lemma_time(object: Seq<MemberFacts>, at: Option<i64>)
    requires
        tells_time(object, at),
    ensures
        timestamp_member(object, "timestamp"@) == at,
{
    let key = "timestamp"@;
    law_first_member_counts(object, key, JsonFacts::Null);
    if at is Some && at->0 >= 0 && has_count(object, key, at->0) {
        lemma_count(object, key, at->0);
    } else if exists|text: Seq<char>| #[trigger]
        has_member(object, key, JsonFacts::Text(text)) && at == rfc3339_ms(text) {
        let text = choose|text: Seq<char>| #[trigger]
            has_member(object, key, JsonFacts::Text(text)) && at == rfc3339_ms(text);
        law_first_member_counts(object, key, JsonFacts::Text(text));
    } else if exists|count: i64| #[trigger] has_count(object, key, count) && count < 0 {
        let count = choose|count: i64| #[trigger] has_count(object, key, count) && count < 0;
        lemma_count(object, key, count);
    }
}

/// The totals of a token count are those under `total_token_usage`, each count under its own
/// name; where the counts do not fit together, or one is no integer, there is no total.
pub proof fn law_totals_are_read_by_name(
    object: Seq<MemberFacts>,
    payload: Seq<MemberFacts>,
    info: Seq<MemberFacts>,
    counts: Seq<MemberFacts>,
    at: Option<i64>,
    v: NormalizedTokenUsage,
    r: UsageRawRecord,
)
    requires
        r.deep_view() == raw_record(Some(JsonFacts::Object(object))),
        is_token_count(object, payload),
        tells_time(object, at),
        has_member(payload, "info"@, JsonFacts::Object(info)),
        has_member(info, "total_token_usage"@, JsonFacts::Object(counts)),
    ensures
        r is TokenCount,
        r->TokenCount_0.occurred_at_ms == at,
        r->TokenCount_0.info is Some,
        spells(counts, v) && fits_together(v) ==> r->TokenCount_0.info->0.current_total
            == NormalizedTokenValue::Valid(v),
        spells(counts, v) && !fits_together(v) ==> r->TokenCount_0.info->0.current_total
            == NormalizedTokenValue::Invalid(TokenValueError::Inconsistent),
        misspells(counts) ==> r->TokenCount_0.info->0.current_total
            == NormalizedTokenValue::Invalid(TokenValueError::NotAnInteger),
{
    lemma_token_count(object, payload);
    lemma_time(object, at);
    law_first_member_counts(payload, "info"@, JsonFacts::Object(info));
    law_first_member_counts(info, "total_token_usage"@, JsonFacts::Object(counts));
    lemma_vector(counts, v);
}

/// The counts of the last request are those under `last_token_usage`, each under its own name.
pub proof fn law_requests_are_read_by_name(
    object: Seq<MemberFacts>,
    payload: Seq<MemberFacts>,
    info: Seq<MemberFacts>,
    counts: Seq<MemberFacts>,
    v: NormalizedTokenUsage,
    r: UsageRawRecord,
)
    requires
        r.deep_view() == raw_record(Some(JsonFacts::Object(object))),
        is_token_count(object, payload),
        has_member(payload, "info"@, JsonFacts::Object(info)),
        has_member(info, "last_token_usage"@, JsonFacts::Object(counts)),
    ensures
        r is TokenCount,
        r->TokenCount_0.info is Some,
        spells(counts, v) && fits_together(v) ==> r->TokenCount_0.info->0.last_usage
            == OptionalTokenValue::Valid(v),
        spells(counts, v) && !fits_together(v) ==> r->TokenCount_0.info->0.last_usage
            == OptionalTokenValue::Invalid(TokenValueError::Inconsistent),
        misspells(counts) ==> r->TokenCount_0.info->0.last_usage == OptionalTokenValue::Invalid(
            TokenValueError::NotAnInteger,
        ),
{
    lemma_token_count(object, payload);
    law_first_member_counts(payload, "info"@, JsonFacts::Object(info));
    law_first_member_counts(info, "last_token_usage"@, JsonFacts::Object(counts));
    lemma_vector(counts, v);
}

/// What a token count leaves out: without `info` it says nothing; without the total there is
/// no total, and it is no error to leave the last request out.
pub proof fn law_token_counts_may_leave_things_out(
    object: Seq<MemberFacts>,
    payload: Seq<MemberFacts>,
    info: Seq<MemberFacts>,
    value: JsonFacts,
    r: UsageRawRecord,
)
    requires
        r.deep_view() == raw_record(Some(JsonFacts::Object(object))),
        is_token_count(object, payload),
    ensures
        has_nothing(payload, "info"@) ==> r is TokenCount && r->TokenCount_0.info is None,
        has_member(payload, "info"@, value) && !(value is Object) && !(value is Null)
            ==> r is Malformed,
        has_member(payload, "info"@, JsonFacts::Object(info)) && has_nothing(
            info,
            "total_token_usage"@,
        ) ==> r is TokenCount && r->TokenCount_0.info is Some
            && r->TokenCount_0.info->0.current_total == NormalizedTokenValue::Invalid(
            TokenValueError::NotAnObject,
        ),
        has_member(payload, "info"@, JsonFacts::Object(info)) && has_nothing(
            info,
            "last_token_usage"@,
        ) ==> r is TokenCount && r->TokenCount_0.info is Some
            && r->TokenCount_0.info->0.last_usage is Missing,
        has_member(payload, "info"@, JsonFacts::Object(info)) && has_member(
            info,
            "last_token_usage"@,
            value,
        ) && !(value is Object) && !(value is Null) ==> r is TokenCount
            && r->TokenCount_0.info is Some && r->TokenCount_0.info->0.last_usage
            == OptionalTokenValue::Invalid(TokenValueError::NotAnObject),
{
    lemma_token_count(object, payload);
    law_first_member_counts(payload, "info"@, JsonFacts::Object(info));
    law_first_member_counts(payload, "info"@, JsonFacts::Null);
    law_first_member_counts(payload, "info"@, value);
    law_first_member_counts(info, "total_token_usage"@, JsonFacts::Null);
    law_first_member_counts(info, "last_token_usage"@, JsonFacts::Null);
    law_first_member_counts(info, "last_token_usage"@, value);
}

/// The object has this word under that name, white space around it left off; or it has none.
pub open spec fn has_word(
    members: Seq<MemberFacts>,
    key: Seq<char>,
    word: Option<Seq<char>>,
) -> bool {
    ||| exists|text: Seq<char>| #[trigger]
        has_member(members, key, JsonFacts::Text(text)) && trim(text).len() > 0 && word == Some(
            trim(text),
        )
    ||| word is None && has_nothing(members, key)
    ||| word is None && exists|text: Seq<char>| #[trigger]
        has_member(members, key, JsonFacts::Text(text)) && trim(text).len() == 0
}

proof fn lemma_word(members: Seq<MemberFacts>, key: Seq<char>, word: Option<Seq<char>>)
    requires
        has_word(members, key, word),
    ensures
        word_field(members, key) == word,
{
    law_first_member_counts(members, key, JsonFacts::Null);
    assert forall|text: Seq<char>| #[trigger]
        has_member(members, key, JsonFacts::Text(text)) implies member(members, key) == Some(
        JsonFacts::Text(text),
    ) by {
        law_first_member_counts(members, key, JsonFacts::Text(text));
    }
}

/// A turn context says which model and which reasoning effort are in use from here on.
pub proof fn law_contexts_are_read_by_name(
    object: Seq<MemberFacts>,
    payload: Seq<MemberFacts>,
    model: Option<Seq<char>>,
    effort: Option<Seq<char>>,
    r: UsageRawRecord,
)
    requires
        r.deep_view() == raw_record(Some(JsonFacts::Object(object))),
        has_member(object, "type"@, JsonFacts::Text("turn_context"@)),
        has_member(object, "payload"@, JsonFacts::Object(payload)),
        has_word(payload, "model"@, model),
        has_word(payload, "effort"@, effort),
    ensures
        r is TurnContext,
        r->TurnContext_0.model.deep_view() == model,
        r->TurnContext_0.reasoning_effort.deep_view() == effort,
{
    lemma_words();
    law_first_member_counts(object, "type"@, JsonFacts::Text("turn_context"@));
    law_first_member_counts(object, "payload"@, JsonFacts::Object(payload));
    lemma_word(payload, "model"@, model);
    lemma_word(payload, "effort"@, effort);
}

/// A record of this type says what happened to a turn.
pub open spec fn says_of_turn(
    object: Seq<MemberFacts>,
    payload: Seq<MemberFacts>,
    word: Seq<char>,
) -> bool {
    &&& has_member(object, "payload"@, JsonFacts::Object(payload))
    &&& has_member(object, "type"@, JsonFacts::Text("event_msg"@))
    &&& has_member(payload, "type"@, JsonFacts::Text(word))
}

/// The events of a turn: it starts, is completed or is aborted, at the time that the record
/// tells.
pub proof fn law_turn_events_are_read_by_type(
    object: Seq<MemberFacts>,
    payload: Seq<MemberFacts>,
    word: Seq<char>,
    turn_id: Option<Seq<char>>,
    at: Option<i64>,
    r: UsageRawRecord,
)
    requires
        r.deep_view() == raw_record(Some(JsonFacts::Object(object))),
        says_of_turn(object, payload, word),
        has_word(payload, "turn_id"@, turn_id),
        tells_time(object, at),
        word == "task_started"@ || word == "turn_started"@ || word == "task_complete"@ || word
            == "turn_complete"@ || word == "turn_aborted"@,
    ensures
        r is Lifecycle,
        r->Lifecycle_0.turn_id.deep_view() == turn_id,
        r->Lifecycle_0.occurred_at_ms == at,
        word == "task_started"@ || word == "turn_started"@ <==> r->Lifecycle_0.kind
            == LifecycleKind::Started,
        word == "task_complete"@ || word == "turn_complete"@ <==> r->Lifecycle_0.kind
            == LifecycleKind::Completed,
        word == "turn_aborted"@ <==> r->Lifecycle_0.kind == LifecycleKind::Aborted,
{
    lemma_words();
    reveal_strlit("token_count");
    reveal_strlit("task_started");
    reveal_strlit("turn_started");
    reveal_strlit("task_complete");
    reveal_strlit("turn_complete");
    reveal_strlit("turn_aborted");
    assert("token_count"@[1] == 'o');
    assert(word[1] == 'u' || word[1] == 'a');
    law_first_member_counts(object, "type"@, JsonFacts::Text("event_msg"@));
    law_first_member_counts(object, "payload"@, JsonFacts::Object(payload));
    law_first_member_counts(payload, "type"@, JsonFacts::Text(word));
    lemma_word(payload, "turn_id"@, turn_id);
    lemma_time(object, at);
}

/// A line that is no object, or an object without a type, is malformed; one of a type that is
/// not known says nothing.
pub proof fn law_other_lines_say_nothing(
    document: Option<JsonFacts>,
    object: Seq<MemberFacts>,
    r: UsageRawRecord,
)
    requires
        r.deep_view() == raw_record(document),
    ensures
        !(document is Some && document->0 is Object) ==> r is Malformed,
        document == Some(JsonFacts::Object(object)) && has_nothing(object, "type"@)
            ==> r is Malformed,
        document == Some(JsonFacts::Object(object)) && has_member(
            object,
            "type"@,
            JsonFacts::Text("session_meta"@),
        ) ==> r is Ignored,
        document == Some(JsonFacts::Object(object)) && has_member(
            object,
            "type"@,
            JsonFacts::Text("response_item"@),
        ) ==> r is Ignored,
{
    reveal_strlit("session_meta");
    reveal_strlit("response_item");
    reveal_strlit("turn_context");
    reveal_strlit("token_count");
    reveal_strlit("lifecycle");
    reveal_strlit("turn_started");
    reveal_strlit("turn_completed");
    reveal_strlit("turn_aborted");
    assert("response_item"@[0] == 'r' && "session_meta"@[0] == 's');
    assert("turn_context"@[0] == 't' && "token_count"@[0] == 't' && "lifecycle"@[0] == 'l'
        && "turn_started"@[0] == 't' && "turn_completed"@[0] == 't' && "turn_aborted"@[0] == 't');
    law_first_member_counts(object, "type"@, JsonFacts::Null);
    law_first_member_counts(object, "type"@, JsonFacts::Text("session_meta"@));
    law_first_member_counts(object, "type"@, JsonFacts::Text("response_item"@));
}

/// The texts that a session meta record is told by are each read under their own name, wherever
/// they stand: the id, the directory, the role, the parent and what it was forked from.
pub proof fn law_session_meta_is_read_by_name(
    platform: Platform,
    object: Seq<MemberFacts>,
    payload: Seq<MemberFacts>,
    text: Seq<char>,
    r: SessionMetaAllowed,
)
    requires
        r.deep_view() == session_meta(platform, object),
        has_member(object, "payload"@, JsonFacts::Object(payload)),
    ensures
        has_member(payload, "id"@, JsonFacts::Text(text)) ==> r.thread_id.deep_view()
            == canonical_uuid(text),
        has_member(payload, "cwd"@, JsonFacts::Text(text)) ==> r.cwd.deep_view() == absolute_path(
            platform,
            text,
        ),
        has_member(payload, "agent_role"@, JsonFacts::Text(text)) ==> r.agent_role.deep_view()
            == if trim(text).len() == 0 {
            None
        } else {
            Some(trim(text))
        },
        has_member(payload, "parent_thread_id"@, JsonFacts::Text(text))
            ==> r.parent_thread_id.deep_view() == canonical_uuid(text),
        has_member(payload, "forked_from_id"@, JsonFacts::Text(text))
            ==> r.forked_from_id.deep_view() == canonical_uuid(text),
        has_member(payload, "agent_path"@, JsonFacts::Text(text)) ==> r.agent_path.deep_view()
            == agent_path(platform, text),
        has_nothing(payload, "id"@) ==> r.thread_id is None,
        has_nothing(payload, "cwd"@) ==> r.cwd is None,
        has_nothing(payload, "agent_role"@) ==> r.agent_role is None,
        has_nothing(payload, "parent_thread_id"@) ==> r.parent_thread_id is None,
        has_nothing(payload, "forked_from_id"@) ==> r.forked_from_id is None,
        has_nothing(payload, "agent_path"@) ==> r.agent_path is None,
        has_nothing(payload, "source"@) ==> !r.has_subagent_source
            && r.subagent_parent_thread_id is None && r.thread_spawn_agent_path is None,
{
    law_first_member_counts(object, "payload"@, JsonFacts::Object(payload));
    law_first_member_counts(payload, "id"@, JsonFacts::Text(text));
    law_first_member_counts(payload, "cwd"@, JsonFacts::Text(text));
    law_first_member_counts(payload, "agent_role"@, JsonFacts::Text(text));
    law_first_member_counts(payload, "parent_thread_id"@, JsonFacts::Text(text));
    law_first_member_counts(payload, "forked_from_id"@, JsonFacts::Text(text));
    law_first_member_counts(payload, "agent_path"@, JsonFacts::Text(text));
    law_first_member_counts(payload, "id"@, JsonFacts::Null);
    law_first_member_counts(payload, "cwd"@, JsonFacts::Null);
    law_first_member_counts(payload, "agent_role"@, JsonFacts::Null);
    law_first_member_counts(payload, "parent_thread_id"@, JsonFacts::Null);
    law_first_member_counts(payload, "forked_from_id"@, JsonFacts::Null);
    law_first_member_counts(payload, "agent_path"@, JsonFacts::Null);
    law_first_member_counts(payload, "source"@, JsonFacts::Null);
}

/// A thread was created at the time that the payload of its session meta record tells; where
/// that tells none, at the time that the record tells.
pub proof fn law_creation_is_told_by_the_payload_first(
    platform: Platform,
    object: Seq<MemberFacts>,
    payload: Seq<MemberFacts>,
    inner: Option<i64>,
    outer: Option<i64>,
    r: SessionMetaAllowed,
)
    requires
        r.deep_view() == session_meta(platform, object),
        has_member(object, "payload"@, JsonFacts::Object(payload)),
        tells_time(payload, inner),
        tells_time(object, outer),
    ensures
        inner is Some ==> r.created_at_ms == inner,
        inner is None ==> r.created_at_ms == outer,
{
    law_first_member_counts(object, "payload"@, JsonFacts::Object(payload));
    lemma_time(payload, inner);
    lemma_time(object, outer);
}

/// A thread comes from a subagent where its source says so; the parent and the path that the
/// spawn names are read from there and from nowhere else.
pub proof fn law_subagents_are_told_by_their_source(
    platform: Platform,
    object: Seq<MemberFacts>,
    payload: Seq<MemberFacts>,
    source: Seq<MemberFacts>,
    subagent: Seq<MemberFacts>,
    spawn: Seq<MemberFacts>,
    text: Seq<char>,
    r: SessionMetaAllowed,
)
    requires
        r.deep_view() == session_meta(platform, object),
        has_member(object, "payload"@, JsonFacts::Object(payload)),
        has_member(payload, "source"@, JsonFacts::Object(source)),
    ensures
        has_nothing(source, "subagent"@) ==> !r.has_subagent_source,
        has_member(source, "subagent"@, JsonFacts::Object(subagent)) ==> r.has_subagent_source,
        has_member(source, "subagent"@, JsonFacts::Object(subagent)) && has_nothing(
            subagent,
            "thread_spawn"@,
        ) ==> r.subagent_parent_thread_id is None && r.thread_spawn_agent_path is None,
        has_member(source, "subagent"@, JsonFacts::Object(subagent)) && has_member(
            subagent,
            "thread_spawn"@,
            JsonFacts::Object(spawn),
        ) ==> {
            &&& has_member(spawn, "parent_thread_id"@, JsonFacts::Text(text))
                ==> r.subagent_parent_thread_id.deep_view() == canonical_uuid(text)
            &&& has_member(spawn, "agent_path"@, JsonFacts::Text(text))
                ==> r.thread_spawn_agent_path.deep_view() == agent_path(platform, text)
        },
{
    law_first_member_counts(object, "payload"@, JsonFacts::Object(payload));
    law_first_member_counts(payload, "source"@, JsonFacts::Object(source));
    law_first_member_counts(source, "subagent"@, JsonFacts::Object(subagent));
    law_first_member_counts(source, "subagent"@, JsonFacts::Null);
    law_first_member_counts(subagent, "thread_spawn"@, JsonFacts::Object(spawn));
    law_first_member_counts(subagent, "thread_spawn"@, JsonFacts::Null);
    law_first_member_counts(spawn, "parent_thread_id"@, JsonFacts::Text(text));
    law_first_member_counts(spawn, "agent_path"@, JsonFacts::Text(text));
}

/// The fields of a turn context: the turn and the directory under their names in the payload,
/// the model as a word, and the time of the record.
pub proof fn law_turn_context_is_read_by_name(
    platform: Platform,
    object: Seq<MemberFacts>,
    payload: Seq<MemberFacts>,
    text: Seq<char>,
    model: Option<Seq<char>>,
    at: Option<i64>,
    r: TurnContextAllowed,
)
    requires
        r.deep_view() == turn_context(platform, object),
        has_member(object, "payload"@, JsonFacts::Object(payload)),
        has_word(payload, "model"@, model),
        tells_time(object, at),
    ensures
        r.model.deep_view() == model,
        r.timestamp_ms == at,
        has_member(payload, "turn_id"@, JsonFacts::Text(text)) ==> r.turn_id.deep_view()
            == canonical_uuid(text),
        has_member(payload, "cwd"@, JsonFacts::Text(text)) ==> r.cwd.deep_view() == absolute_path(
            platform,
            text,
        ),
        has_nothing(payload, "turn_id"@) ==> r.turn_id is None,
        has_nothing(payload, "cwd"@) ==> r.cwd is None,
{
    law_first_member_counts(object, "payload"@, JsonFacts::Object(payload));
    law_first_member_counts(payload, "turn_id"@, JsonFacts::Text(text));
    law_first_member_counts(payload, "cwd"@, JsonFacts::Text(text));
    law_first_member_counts(payload, "turn_id"@, JsonFacts::Null);
    law_first_member_counts(payload, "cwd"@, JsonFacts::Null);
    lemma_word(payload, "model"@, model);
    lemma_time(object, at);
}

/// The kinds of records are told apart by their type; the type of an event message is that of
/// its payload.
pub proof fn law_records_are_told_by_type(
    object: Seq<MemberFacts>,
    payload: Seq<MemberFacts>,
    word: Seq<char>,
    inner: Seq<char>,
    r: EnvelopeKind,
)
    requires
        r == envelope_kind(object),
        has_member(object, "type"@, JsonFacts::Text(word)),
        has_member(object, "payload"@, JsonFacts::Object(payload)),
        has_member(payload, "type"@, JsonFacts::Text(inner)),
    ensures
        !(r is Malformed),
        r is SessionMeta <==> word == "session_meta"@,
        r is TurnContext <==> word == "turn_context"@,
        r is TokenCount <==> word == "token_count"@ || word == "event_msg"@ && inner
            == "token_count"@,
        word == "lifecycle"@ || word == "turn_started"@ || word == "turn_completed"@ || word
            == "turn_aborted"@ ==> r is Lifecycle,
        word == "event_msg"@ && (inner == "task_started"@ || inner == "task_complete"@ || inner
            == "turn_started"@ || inner == "turn_complete"@ || inner == "turn_aborted"@ || inner
            == "session_configured"@) ==> r is Lifecycle,
        word == "response_item"@ || word == "compacted"@ || word == "ghost_snapshot"@
            ==> r is Ignored,
        word == "event_msg"@ && (inner == "user_message"@ || inner == "agent_message"@ || inner
            == "agent_reasoning"@ || inner == "raw_response_item"@ || inner
            == "context_compacted"@) ==> r is Ignored,
{
    lemma_words();
    reveal_strlit("token_count");
    reveal_strlit("task_started");
    reveal_strlit("turn_started");
    reveal_strlit("task_complete");
    reveal_strlit("turn_complete");
    reveal_strlit("turn_completed");
    reveal_strlit("turn_aborted");
    reveal_strlit("turn_context");
    reveal_strlit("session_meta");
    reveal_strlit("session_configured");
    reveal_strlit("lifecycle");
    reveal_strlit("response_item");
    reveal_strlit("compacted");
    reveal_strlit("ghost_snapshot");
    reveal_strlit("user_message");
    reveal_strlit("agent_message");
    reveal_strlit("agent_reasoning");
    reveal_strlit("raw_response_item");
    reveal_strlit("context_compacted");
    assert("token_count"@[1] == 'o' && "task_started"@[1] == 'a' && "turn_started"@[1] == 'u'
        && "task_complete"@[1] == 'a' && "turn_complete"@[1] == 'u' && "turn_completed"@[1] == 'u'
        && "turn_aborted"@[1] == 'u' && "turn_context"@[1] == 'u' && "turn_context"@[6] == 'o'
        && "turn_completed"@[7] == 'm' && "turn_context"@[7] == 'n' && "turn_started"@[5] == 's'
        && "turn_aborted"@[5] == 'a' && "turn_context"@[5] == 'c');
    assert("session_meta"@[0] == 's' && "session_configured"@[0] == 's' && "lifecycle"@[0] == 'l'
        && "response_item"@[0] == 'r' && "compacted"@[0] == 'c' && "ghost_snapshot"@[0] == 'g');
    assert("user_message"@[0] == 'u' && "agent_message"@[0] == 'a' && "agent_reasoning"@[0] == 'a'
        && "raw_response_item"@[0] == 'r' && "context_compacted"@[0] == 'c' && "token_count"@[0]
        == 't' && "task_started"@[0] == 't' && "turn_started"@[0] == 't' && "task_complete"@[0]
        == 't' && "turn_complete"@[0] == 't' && "turn_aborted"@[0] == 't' && "turn_context"@[0]
        == 't' && "turn_completed"@[0] == 't');
    law_first_member_counts(object, "type"@, JsonFacts::Text(word));
    law_first_member_counts(object, "payload"@, JsonFacts::Object(payload));
    law_first_member_counts(payload, "type"@, JsonFacts::Text(inner));
}

} // verus!
