//! The ownership state machine of rollout parsing.
//!
//! Metadata extraction and usage ingestion drive the same machine, so that the boundary
//! between replayed and owned records cannot differ between them.
use vstd::prelude::*;
use vstd::slice::slice_subrange;
use vstd::string::*;

use crate::diagnostics::DiagnosticSeverity;
use crate::identifiers::{
    get_timestamp, latest_context_order_ms, optional_uuid_string, uuid7_is_not_earlier,
    valid_uuid_string,
};
#[allow(unused_imports)]
use crate::identifiers::{canonical_uuid, context_order, not_earlier, timestamp_member};
use crate::json::{get_object, get_text, parse_json, JsonMember, JsonValue};
#[allow(unused_imports)]
use crate::json::{
    document_facts, json_document, object_facts, object_member, text_member, JsonFacts, MemberFacts,
};
use crate::paths::{normalize_absolute_path, normalize_agent_path};
#[allow(unused_imports)]
use crate::paths::{absolute_path, agent_path};
use crate::platform::Platform;
use crate::rollout::{
    AgentPathProvenance, AgentRoleProvenance, Candidate, CwdProvenance, EnvelopeKind,
    FinalContinuation, OwnershipConfidence, OwningCandidateConfidence, ParentHintProvenance,
    RecordOwnership, ResumeState, RolloutThreadFact,
};
#[allow(unused_imports)]
use crate::rollout::{blank_thread, ContinuationFacts, Hint, OwnershipBoundary, ThreadFacts};
use crate::text::{non_empty, same_optional_text, same_text};
#[allow(unused_imports)]
use crate::text::non_empty_text;

verus! {

/// A thread that may own the rollout.
#[derive(Clone, Debug, PartialEq, Eq)]
pub struct OwningThreadCandidate {
    pub thread_id: String,
    pub confidence: OwningCandidateConfidence,
}

/// What is known from outside of who owns the rollout.
#[derive(Clone, Debug, PartialEq, Eq)]
pub struct OwningThreadCandidates {
    /// From the state index; it has the highest priority.
    pub state_rollout: Option<OwningThreadCandidate>,
    /// From a verified rollout file name.
    pub filename: Option<OwningThreadCandidate>,
}

impl Default for OwningThreadCandidates {
    fn default() -> (r: Self)
        ensures
            r.state_rollout is None && r.filename is None,
    {
        OwningThreadCandidates { state_rollout: None, filename: None }
    }
}

/// Where a chunk begins and what is known there.
#[derive(Clone, Debug, PartialEq, Eq)]
pub struct RolloutParseContext {
    /// Whose paths the records hold.
    pub platform: Platform,
    pub source_file_id: i64,
    pub chunk_start_offset: u64,
    pub candidates: OwningThreadCandidates,
    pub resume_state: ResumeState,
    /// Needed to resume after the start, so that fields can be merged.
    pub existing_fact: Option<RolloutThreadFact>,
}

/// A record already proven complete. Its bytes are private, and the type has no debug form,
/// so that bodies cannot reach a log by accident.
pub struct CompleteRolloutLine {
    start_offset: u64,
    end_offset: u64,
    bytes: Vec<u8>,
}

/// The bytes of a line without its line ending.
pub open spec fn without_line_ending(bytes: Seq<u8>) -> Seq<u8> {
    if bytes.len() >= 2 && bytes[bytes.len() - 2] == 0x0d {
        bytes.take(bytes.len() - 2)
    } else {
        bytes.take(bytes.len() - 1)
    }
}

/// The bytes are one line: they end in a line feed.
pub open spec fn ends_line(bytes: Seq<u8>) -> bool {
    bytes.len() > 0 && bytes.last() == 0x0a
}

/// The place of a record in its file.
#[derive(Clone, Copy, Debug, PartialEq, Eq, Structural)]
pub struct Span {
    pub start: u64,
    pub end: u64,
}

pub struct LineFacts {
    pub at: Span,
    pub json: Seq<u8>,
}

impl View for CompleteRolloutLine {
    type V = LineFacts;

    closed spec fn view(&self) -> LineFacts {
        LineFacts {
            at: Span { start: self.start_offset, end: self.end_offset },
            json: without_line_ending(self.bytes@),
        }
    }
}

impl CompleteRolloutLine {
    #[verifier::type_invariant]
    spec fn complete(self) -> bool {
        ends_line(self.bytes@) && self.end_offset == self.start_offset + self.bytes@.len()
    }

    pub fn new(start_offset: u64, bytes_with_newline: Vec<u8>) -> (r: Option<Self>)
        ensures
            r is Some <==> ends_line(bytes_with_newline@) && start_offset
                + bytes_with_newline@.len() <= u64::MAX,
            r matches Some(line) ==> line@ == (LineFacts {
                at: Span {
                    start: start_offset,
                    end: (start_offset + bytes_with_newline@.len()) as u64,
                },
                json: without_line_ending(bytes_with_newline@),
            }),
    {
        let len: usize = bytes_with_newline.len();
        if len == 0 || bytes_with_newline[len - 1] != 0x0a {
            return None;
        }
        match start_offset.checked_add(len as u64) {
            Some(end_offset) => Some(
                CompleteRolloutLine { start_offset, end_offset, bytes: bytes_with_newline },
            ),
            None => None,
        }
    }

    pub fn start_offset(&self) -> (r: u64)
        ensures
            r == self@.at.start,
    {
        self.start_offset
    }

    pub fn end_offset(&self) -> (r: u64)
        ensures
            r == self@.at.end,
            self@.at.start < r,
    {
        proof {
            use_type_invariant(&*self);
        }
        self.end_offset
    }

    pub fn span(&self) -> (r: Span)
        ensures
            r == self@.at,
    {
        Span { start: self.start_offset, end: self.end_offset }
    }

    pub(crate) fn json_bytes(&self) -> (r: &[u8])
        ensures
            r@ == self@.json,
    {
        proof {
            use_type_invariant(&*self);
        }
        let len: usize = self.bytes.len();
        let end: usize = if len >= 2 && self.bytes[len - 2] == 0x0d {
            len - 2
        } else {
            len - 1
        };
        assert(self.bytes@.subrange(0, end as int) =~= without_line_ending(self.bytes@));
        slice_subrange(self.bytes.as_slice(), 0, end)
    }
}

/// How one record was classified.
#[derive(Clone, Copy, Debug, PartialEq, Eq, Structural)]
pub struct RecordClassification {
    pub start_offset: u64,
    pub end_offset: u64,
    pub envelope: EnvelopeKind,
    pub ownership: RecordOwnership,
}

/// A run of adjacent records of the same ownership.
#[derive(Clone, Copy, Debug, PartialEq, Eq, Structural)]
pub struct OwnershipRange {
    pub start_offset: u64,
    pub end_offset: u64,
    pub ownership: RecordOwnership,
}

#[derive(Clone, Copy, Debug, PartialEq, Eq, Structural)]
pub enum DiagnosticCode {
    MalformedJson,
    MalformedEnvelope,
    UnknownEnvelope,
    InvalidAllowedField,
    OwningCandidateConflict,
    ForeignSessionMeta,
    UnresolvedReplayBoundary,
    InvalidResumeState,
    NonContiguousOffsets,
    CandidateConflict,
}

/// A remark on a record. It never holds record content.
#[derive(Clone, Debug, PartialEq, Eq)]
pub struct RolloutDiagnostic {
    pub code: DiagnosticCode,
    pub severity: DiagnosticSeverity,
    pub source_file_id: i64,
    pub source_start_offset: Option<u64>,
    pub thread_id: Option<String>,
    pub field: Option<&'static str>,
}

pub struct DiagnosticFacts {
    pub code: DiagnosticCode,
    pub severity: DiagnosticSeverity,
    pub source_file_id: i64,
    pub source_start_offset: Option<u64>,
    pub thread_id: Option<Seq<char>>,
    pub field: Option<Seq<char>>,
}

pub open spec fn field_name(field: Option<&'static str>) -> Option<Seq<char>> {
    match field {
        Some(field) => Some(field@),
        None => None,
    }
}

impl DeepView for RolloutDiagnostic {
    type V = DiagnosticFacts;

    open spec fn deep_view(&self) -> DiagnosticFacts {
        DiagnosticFacts {
            code: self.code,
            severity: self.severity,
            source_file_id: self.source_file_id,
            source_start_offset: self.source_start_offset,
            thread_id: self.thread_id.deep_view(),
            field: field_name(self.field),
        }
    }
}

/// What parsing a chunk came to.
#[derive(Clone, Debug, PartialEq, Eq)]
pub struct RolloutParseResult {
    pub fact: Option<RolloutThreadFact>,
    pub records: Vec<RecordClassification>,
    pub ownership_ranges: Vec<OwnershipRange>,
    pub diagnostics: Vec<RolloutDiagnostic>,
    pub diagnostic_count: u64,
    pub malformed_record_count: u64,
    pub final_continuation: FinalContinuation,
    pub needs_rebuild: bool,
    pub last_processed_offset: u64,
}

#[verifier::ext_equal]
pub struct ParseFacts {
    pub fact: Option<ThreadFacts>,
    pub records: Seq<RecordClassification>,
    pub ownership_ranges: Seq<OwnershipRange>,
    pub diagnostics: Seq<DiagnosticFacts>,
    pub diagnostic_count: u64,
    pub malformed_record_count: u64,
    pub final_continuation: ContinuationFacts,
    pub needs_rebuild: bool,
    pub last_processed_offset: u64,
}

impl DeepView for RolloutParseResult {
    type V = ParseFacts;

    open spec fn deep_view(&self) -> ParseFacts {
        ParseFacts {
            fact: self.fact.deep_view(),
            records: self.records@,
            ownership_ranges: self.ownership_ranges@,
            diagnostics: self.diagnostics.deep_view(),
            diagnostic_count: self.diagnostic_count,
            malformed_record_count: self.malformed_record_count,
            final_continuation: self.final_continuation.deep_view(),
            needs_rebuild: self.needs_rebuild,
            last_processed_offset: self.last_processed_offset,
        }
    }
}

/// Where the machine stands.
#[derive(Clone, Copy, Debug, PartialEq, Eq, Structural)]
pub enum MachineState {
    AwaitOwningMeta,
    OwningBootstrap,
    ReplayedAncestor,
    OwningLive,
}

/// Whose a record is when it does not say otherwise itself.
pub open spec fn default_owner(machine: MachineState) -> RecordOwnership {
    match machine {
        MachineState::AwaitOwningMeta => RecordOwnership::UnknownOwnership,
        MachineState::ReplayedAncestor => RecordOwnership::ReplayedAncestor,
        MachineState::OwningBootstrap | MachineState::OwningLive => RecordOwnership::Owning,
    }
}

/// The whitelisted fields of a session meta record.
pub struct SessionMetaAllowed {
    pub thread_id: Option<String>,
    pub created_at_ms: Option<i64>,
    pub cwd: Option<String>,
    pub agent_role: Option<String>,
    pub parent_thread_id: Option<String>,
    pub forked_from_id: Option<String>,
    pub subagent_parent_thread_id: Option<String>,
    pub agent_path: Option<String>,
    pub thread_spawn_agent_path: Option<String>,
    pub has_subagent_source: bool,
}

pub struct SessionMetaFacts {
    pub thread_id: Option<Seq<char>>,
    pub created_at_ms: Option<i64>,
    pub cwd: Option<Seq<char>>,
    pub agent_role: Option<Seq<char>>,
    pub parent_thread_id: Option<Seq<char>>,
    pub forked_from_id: Option<Seq<char>>,
    pub subagent_parent_thread_id: Option<Seq<char>>,
    pub agent_path: Option<Seq<char>>,
    pub thread_spawn_agent_path: Option<Seq<char>>,
    pub has_subagent_source: bool,
}

impl DeepView for SessionMetaAllowed {
    type V = SessionMetaFacts;

    open spec fn deep_view(&self) -> SessionMetaFacts {
        SessionMetaFacts {
            thread_id: self.thread_id.deep_view(),
            created_at_ms: self.created_at_ms,
            cwd: self.cwd.deep_view(),
            agent_role: self.agent_role.deep_view(),
            parent_thread_id: self.parent_thread_id.deep_view(),
            forked_from_id: self.forked_from_id.deep_view(),
            subagent_parent_thread_id: self.subagent_parent_thread_id.deep_view(),
            agent_path: self.agent_path.deep_view(),
            thread_spawn_agent_path: self.thread_spawn_agent_path.deep_view(),
            has_subagent_source: self.has_subagent_source,
        }
    }
}

pub open spec fn no_session_meta() -> SessionMetaFacts {
    SessionMetaFacts {
        thread_id: None,
        created_at_ms: None,
        cwd: None,
        agent_role: None,
        parent_thread_id: None,
        forked_from_id: None,
        subagent_parent_thread_id: None,
        agent_path: None,
        thread_spawn_agent_path: None,
        has_subagent_source: false,
    }
}

pub open spec fn uuid_field(members: Option<Seq<MemberFacts>>, key: Seq<char>) -> Option<Seq<char>> {
    match members {
        Some(members) => match text_member(members, key) {
            Some(text) => canonical_uuid(text),
            None => None,
        },
        None => None,
    }
}

pub open spec fn path_field(
    platform: Platform,
    members: Seq<MemberFacts>,
    key: Seq<char>,
) -> Option<Seq<char>> {
    match text_member(members, key) {
        Some(text) => absolute_path(platform, text),
        None => None,
    }
}

pub open spec fn agent_path_field(
    platform: Platform,
    members: Option<Seq<MemberFacts>>,
    key: Seq<char>,
) -> Option<Seq<char>> {
    match members {
        Some(members) => match text_member(members, key) {
            Some(text) => agent_path(platform, text),
            None => None,
        },
        None => None,
    }
}

pub open spec fn word_field(members: Seq<MemberFacts>, key: Seq<char>) -> Option<Seq<char>> {
    match text_member(members, key) {
        Some(text) => non_empty_text(text),
        None => None,
    }
}

pub open spec fn object_in(members: Option<Seq<MemberFacts>>, key: Seq<char>) -> Option<
    Seq<MemberFacts>,
> {
    match members {
        Some(members) => object_member(members, key),
        None => None,
    }
}

/// The fields that a session meta record gives.
pub open spec fn session_meta(platform: Platform, object: Seq<MemberFacts>) -> SessionMetaFacts {
    match object_member(object, "payload"@) {
        None => no_session_meta(),
        Some(payload) => {
            let subagent = object_in(object_member(payload, "source"@), "subagent"@);
            let spawn = object_in(subagent, "thread_spawn"@);
            SessionMetaFacts {
                thread_id: uuid_field(Some(payload), "id"@),
                created_at_ms: if timestamp_member(payload, "timestamp"@) is Some {
                    timestamp_member(payload, "timestamp"@)
                } else {
                    timestamp_member(object, "timestamp"@)
                },
                cwd: path_field(platform, payload, "cwd"@),
                agent_role: word_field(payload, "agent_role"@),
                parent_thread_id: uuid_field(Some(payload), "parent_thread_id"@),
                forked_from_id: uuid_field(Some(payload), "forked_from_id"@),
                subagent_parent_thread_id: uuid_field(spawn, "parent_thread_id"@),
                agent_path: agent_path_field(platform, Some(payload), "agent_path"@),
                thread_spawn_agent_path: agent_path_field(platform, spawn, "agent_path"@),
                has_subagent_source: subagent is Some,
            }
        },
    }
}

pub open spec fn members_of(members: Option<&Vec<JsonMember>>) -> Option<Seq<MemberFacts>> {
    match members {
        Some(members) => Some(object_facts(members@)),
        None => None,
    }
}

fn get_uuid(members: Option<&Vec<JsonMember>>, key: &str) -> (r: Option<String>)
    ensures
        r.deep_view() == uuid_field(members_of(members), key@),
{
    match members {
        Some(members) => optional_uuid_string(get_text(members, key)),
        None => None,
    }
}

fn get_path(platform: Platform, members: &Vec<JsonMember>, key: &str) -> (r: Option<String>)
    ensures
        r.deep_view() == path_field(platform, object_facts(members@), key@),
{
    match get_text(members, key) {
        Some(text) => normalize_absolute_path(platform, text),
        None => None,
    }
}

fn get_agent_path(platform: Platform, members: Option<&Vec<JsonMember>>, key: &str) -> (r: Option<String>)
    ensures
        r.deep_view() == agent_path_field(platform, members_of(members), key@),
{
    match members {
        Some(members) => match get_text(members, key) {
            Some(text) => normalize_agent_path(platform, text),
            None => None,
        },
        None => None,
    }
}

fn get_word(members: &Vec<JsonMember>, key: &str) -> (r: Option<String>)
    ensures
        r.deep_view() == word_field(object_facts(members@), key@),
{
    match get_text(members, key) {
        Some(text) => non_empty(text),
        None => None,
    }
}

impl SessionMetaAllowed {
    pub fn parse(platform: Platform, object: &Vec<JsonMember>) -> (r: Self)
        ensures
            r.deep_view() == session_meta(platform, object_facts(object@)),
    {
        let payload: &Vec<JsonMember> = match get_object(object, "payload") {
            Some(payload) => payload,
            None => {
                return SessionMetaAllowed {
                    thread_id: None,
                    created_at_ms: None,
                    cwd: None,
                    agent_role: None,
                    parent_thread_id: None,
                    forked_from_id: None,
                    subagent_parent_thread_id: None,
                    agent_path: None,
                    thread_spawn_agent_path: None,
                    has_subagent_source: false,
                };
            },
        };
        let created_at_ms: Option<i64> = match get_timestamp(payload, "timestamp") {
            Some(at) => Some(at),
            None => get_timestamp(object, "timestamp"),
        };
        let subagent: Option<&Vec<JsonMember>> = match get_object(payload, "source") {
            Some(source) => get_object(source, "subagent"),
            None => None,
        };
        let spawn: Option<&Vec<JsonMember>> = match subagent {
            Some(subagent) => get_object(subagent, "thread_spawn"),
            None => None,
        };
        SessionMetaAllowed {
            thread_id: get_uuid(Some(payload), "id"),
            created_at_ms,
            cwd: get_path(platform, payload, "cwd"),
            agent_role: get_word(payload, "agent_role"),
            parent_thread_id: get_uuid(Some(payload), "parent_thread_id"),
            forked_from_id: get_uuid(Some(payload), "forked_from_id"),
            subagent_parent_thread_id: get_uuid(spawn, "parent_thread_id"),
            agent_path: get_agent_path(platform, Some(payload), "agent_path"),
            thread_spawn_agent_path: get_agent_path(platform, spawn, "agent_path"),
            has_subagent_source: subagent.is_some(),
        }
    }
}

/// The whitelisted fields of a turn context record.
pub struct TurnContextAllowed {
    pub turn_id: Option<String>,
    pub cwd: Option<String>,
    pub model: Option<String>,
    pub timestamp_ms: Option<i64>,
}

pub struct TurnContextFacts {
    pub turn_id: Option<Seq<char>>,
    pub cwd: Option<Seq<char>>,
    pub model: Option<Seq<char>>,
    pub timestamp_ms: Option<i64>,
}

impl DeepView for TurnContextAllowed {
    type V = TurnContextFacts;

    open spec fn deep_view(&self) -> TurnContextFacts {
        TurnContextFacts {
            turn_id: self.turn_id.deep_view(),
            cwd: self.cwd.deep_view(),
            model: self.model.deep_view(),
            timestamp_ms: self.timestamp_ms,
        }
    }
}

/// The fields that a turn context record gives. It is structurally valid when it has a turn
/// id.
pub open spec fn turn_context(platform: Platform, object: Seq<MemberFacts>) -> TurnContextFacts {
    match object_member(object, "payload"@) {
        None => TurnContextFacts { turn_id: None, cwd: None, model: None, timestamp_ms: None },
        Some(payload) => TurnContextFacts {
            turn_id: uuid_field(Some(payload), "turn_id"@),
            cwd: path_field(platform, payload, "cwd"@),
            model: word_field(payload, "model"@),
            timestamp_ms: timestamp_member(object, "timestamp"@),
        },
    }
}

impl TurnContextAllowed {
    pub fn parse(platform: Platform, object: &Vec<JsonMember>) -> (r: Self)
        ensures
            r.deep_view() == turn_context(platform, object_facts(object@)),
    {
        match get_object(object, "payload") {
            None => TurnContextAllowed { turn_id: None, cwd: None, model: None, timestamp_ms: None },
            Some(payload) => TurnContextAllowed {
                turn_id: get_uuid(Some(payload), "turn_id"),
                cwd: get_path(platform, payload, "cwd"),
                model: get_word(payload, "model"),
                timestamp_ms: get_timestamp(object, "timestamp"),
            },
        }
    }
}

/// What kind of record an event message holds.
pub open spec fn event_kind(payload_type: Option<Seq<char>>) -> EnvelopeKind {
    match payload_type {
        None => EnvelopeKind::Unknown,
        Some(t) => if t == "token_count"@ {
            EnvelopeKind::TokenCount
        } else if t == "task_started"@ || t == "task_complete"@ || t == "turn_started"@ || t
            == "turn_complete"@ || t == "turn_aborted"@ || t == "session_configured"@ {
            EnvelopeKind::Lifecycle
        } else if t == "user_message"@ || t == "agent_message"@ || t == "agent_reasoning"@ || t
            == "raw_response_item"@ || t == "context_compacted"@ {
            EnvelopeKind::Ignored
        } else {
            EnvelopeKind::Unknown
        },
    }
}

/// What kind of record an object holds.
pub open spec fn envelope_kind(object: Seq<MemberFacts>) -> EnvelopeKind {
    match text_member(object, "type"@) {
        None => EnvelopeKind::Malformed,
        Some(t) => if t == "session_meta"@ {
            EnvelopeKind::SessionMeta
        } else if t == "turn_context"@ {
            EnvelopeKind::TurnContext
        } else if t == "token_count"@ {
            EnvelopeKind::TokenCount
        } else if t == "lifecycle"@ || t == "turn_started"@ || t == "turn_completed"@ || t
            == "turn_aborted"@ {
            EnvelopeKind::Lifecycle
        } else if t == "response_item"@ || t == "compacted"@ || t == "ghost_snapshot"@ {
            EnvelopeKind::Ignored
        } else if t == "event_msg"@ {
            event_kind(
                match object_member(object, "payload"@) {
                    Some(payload) => text_member(payload, "type"@),
                    None => None,
                },
            )
        } else {
            EnvelopeKind::Unknown
        },
    }
}

fn classify_event(t: &str) -> (r: EnvelopeKind)
    ensures
        r == event_kind(Some(t@)),
{
    if same_text(t, "token_count") {
        EnvelopeKind::TokenCount
    } else if same_text(t, "task_started") || same_text(t, "task_complete") || same_text(
        t,
        "turn_started",
    ) || same_text(t, "turn_complete") || same_text(t, "turn_aborted") || same_text(
        t,
        "session_configured",
    ) {
        EnvelopeKind::Lifecycle
    } else if same_text(t, "user_message") || same_text(t, "agent_message") || same_text(
        t,
        "agent_reasoning",
    ) || same_text(t, "raw_response_item") || same_text(t, "context_compacted") {
        EnvelopeKind::Ignored
    } else {
        EnvelopeKind::Unknown
    }
}

/// Classifies an envelope.
pub fn classify_envelope(object: &Vec<JsonMember>) -> (r: EnvelopeKind)
    ensures
        r == envelope_kind(object_facts(object@)),
{
    let t: &str = match get_text(object, "type") {
        Some(t) => t,
        None => {
            return EnvelopeKind::Malformed;
        },
    };
    if same_text(t, "session_meta") {
        EnvelopeKind::SessionMeta
    } else if same_text(t, "turn_context") {
        EnvelopeKind::TurnContext
    } else if same_text(t, "token_count") {
        EnvelopeKind::TokenCount
    } else if same_text(t, "lifecycle") || same_text(t, "turn_started") || same_text(
        t,
        "turn_completed",
    ) || same_text(t, "turn_aborted") {
        EnvelopeKind::Lifecycle
    } else if same_text(t, "response_item") || same_text(t, "compacted") || same_text(
        t,
        "ghost_snapshot",
    ) {
        EnvelopeKind::Ignored
    } else if same_text(t, "event_msg") {
        match get_object(object, "payload") {
            Some(payload) => match get_text(payload, "type") {
                Some(t) => classify_event(t),
                None => EnvelopeKind::Unknown,
            },
            None => EnvelopeKind::Unknown,
        }
    } else {
        EnvelopeKind::Unknown
    }
}

/// What a record holds, as far as the machine looks at it.
pub enum RecordContent {
    NotJson,
    NotAnObject,
    SessionMeta(SessionMetaAllowed),
    TurnContext(TurnContextAllowed),
    Other(EnvelopeKind),
}

pub enum ContentFacts {
    NotJson,
    NotAnObject,
    SessionMeta(SessionMetaFacts),
    TurnContext(TurnContextFacts),
    Other(EnvelopeKind),
}

impl DeepView for RecordContent {
    type V = ContentFacts;

    open spec fn deep_view(&self) -> ContentFacts {
        match self {
            RecordContent::NotJson => ContentFacts::NotJson,
            RecordContent::NotAnObject => ContentFacts::NotAnObject,
            RecordContent::SessionMeta(meta) => ContentFacts::SessionMeta(meta.deep_view()),
            RecordContent::TurnContext(context) => ContentFacts::TurnContext(context.deep_view()),
            RecordContent::Other(envelope) => ContentFacts::Other(*envelope),
        }
    }
}

/// What the document of a record holds.
pub open spec fn content_of(platform: Platform, document: Option<JsonFacts>) -> ContentFacts {
    match document {
        None => ContentFacts::NotJson,
        Some(JsonFacts::Object(members)) => {
            let envelope = envelope_kind(members);
            if envelope is SessionMeta {
                ContentFacts::SessionMeta(session_meta(platform, members))
            } else if envelope is TurnContext {
                ContentFacts::TurnContext(turn_context(platform, members))
            } else {
                ContentFacts::Other(envelope)
            }
        },
        Some(_) => ContentFacts::NotAnObject,
    }
}

impl RecordContent {
    pub fn of_document(platform: Platform, document: &Option<JsonValue>) -> (r: Self)
        ensures
            r.deep_view() == content_of(platform, document_facts(*document)),
    {
        match document {
            None => RecordContent::NotJson,
            Some(JsonValue::Object(members)) => match classify_envelope(members) {
                EnvelopeKind::SessionMeta => RecordContent::SessionMeta(
                    SessionMetaAllowed::parse(platform, members),
                ),
                EnvelopeKind::TurnContext => RecordContent::TurnContext(
                    TurnContextAllowed::parse(platform, members),
                ),
                envelope => RecordContent::Other(envelope),
            },
            Some(_) => RecordContent::NotAnObject,
        }
    }
}

pub open spec fn cwd_rank(p: CwdProvenance) -> int {
    match p {
        CwdProvenance::SessionMeta => 2,
        CwdProvenance::TurnContext => 1,
    }
}

pub open spec fn parent_rank(p: ParentHintProvenance) -> int {
    match p {
        ParentHintProvenance::SessionMetaParent => 3,
        ParentHintProvenance::SubagentSource => 2,
        ParentHintProvenance::ForkedFromId => 1,
    }
}

pub open spec fn role_rank(p: AgentRoleProvenance) -> int {
    match p {
        AgentRoleProvenance::SubagentSource => 2,
        AgentRoleProvenance::SessionMetaRole => 1,
    }
}

pub open spec fn path_rank(p: AgentPathProvenance) -> int {
    match p {
        AgentPathProvenance::SessionMeta => 2,
        AgentPathProvenance::ThreadSpawn => 1,
    }
}

/// The hint that stays: the first one, unless a later one outranks it.
pub open spec fn kept<P>(current: Option<Hint<P>>, incoming: Hint<P>, outranks: bool) -> Option<
    Hint<P>,
> {
    if current is None || outranks {
        Some(incoming)
    } else {
        current
    }
}

/// A fact under way, with the remarks made on it.
#[verifier::ext_equal]
pub struct Noted {
    pub fact: ThreadFacts,
    pub diagnostics: Seq<DiagnosticFacts>,
    pub source_file_id: i64,
}

impl Noted {
    pub open spec fn conflict(self, offset: u64, field: Seq<char>) -> Self {
        Noted {
            fact: ThreadFacts { has_conflict: true, ..self.fact },
            diagnostics: self.diagnostics.push(
                DiagnosticFacts {
                    code: DiagnosticCode::CandidateConflict,
                    severity: DiagnosticSeverity::Conflict,
                    source_file_id: self.source_file_id,
                    source_start_offset: Some(offset),
                    thread_id: Some(self.fact.owning_thread_id),
                    field: Some(field),
                },
            ),
            ..self
        }
    }

    pub open spec fn relationship_conflict(self, offset: u64, field: Seq<char>) -> Self {
        let marked = self.conflict(offset, field);
        Noted { fact: ThreadFacts { relationship_conflict: true, ..marked.fact }, ..marked }
    }

    pub open spec fn with_created(self, created_at_ms: Option<i64>) -> Self {
        match created_at_ms {
            Some(at) => Noted {
                fact: ThreadFacts {
                    created_at_ms: match self.fact.created_at_ms {
                        Some(existing) => Some(
                            if existing <= at {
                                existing
                            } else {
                                at
                            },
                        ),
                        None => Some(at),
                    },
                    ..self.fact
                },
                ..self
            },
            None => self,
        }
    }

    /// A working directory. Two of the same rank that differ are a conflict.
    pub open spec fn with_cwd(self, value: Option<Seq<char>>, p: CwdProvenance, offset: u64) -> Self {
        match value {
            Some(value) => {
                let incoming = Hint { value, provenance: p, record_offset: offset };
                let current = self.fact.cwd;
                let merged = Noted {
                    fact: ThreadFacts {
                        cwd: kept(
                            current,
                            incoming,
                            current is Some && cwd_rank(p) > cwd_rank(current->0.provenance),
                        ),
                        ..self.fact
                    },
                    ..self
                };
                if current is Some && cwd_rank(p) == cwd_rank(current->0.provenance)
                    && current->0.value != value {
                    merged.conflict(offset, "cwd"@)
                } else {
                    merged
                }
            },
            None => self,
        }
    }

    /// A parent hint. Any two that differ are a conflict, whatever their rank.
    pub open spec fn with_parent(
        self,
        value: Option<Seq<char>>,
        p: ParentHintProvenance,
        offset: u64,
    ) -> Self {
        match value {
            Some(value) => {
                let incoming = Hint { value, provenance: p, record_offset: offset };
                let current = self.fact.parent;
                let merged = Noted {
                    fact: ThreadFacts {
                        parent: kept(
                            current,
                            incoming,
                            current is Some && parent_rank(p) > parent_rank(current->0.provenance),
                        ),
                        ..self.fact
                    },
                    ..self
                };
                if current is Some && current->0.value != value {
                    merged.relationship_conflict(offset, "parent_thread_id_hint"@)
                } else {
                    merged
                }
            },
            None => self,
        }
    }

    /// An agent role. Two of the same rank that differ are a conflict.
    pub open spec fn with_role(
        self,
        value: Option<Seq<char>>,
        p: AgentRoleProvenance,
        offset: u64,
    ) -> Self {
        match value {
            Some(value) => {
                let incoming = Hint { value, provenance: p, record_offset: offset };
                let current = self.fact.role;
                let merged = Noted {
                    fact: ThreadFacts {
                        role: kept(
                            current,
                            incoming,
                            current is Some && role_rank(p) > role_rank(current->0.provenance),
                        ),
                        ..self.fact
                    },
                    ..self
                };
                if current is Some && role_rank(p) == role_rank(current->0.provenance)
                    && current->0.value != value {
                    merged.relationship_conflict(offset, "agent_role_hint"@)
                } else {
                    merged
                }
            },
            None => self,
        }
    }

    /// An agent path. Any two that differ are a conflict, whatever their rank.
    pub open spec fn with_agent_path(
        self,
        value: Option<Seq<char>>,
        p: AgentPathProvenance,
        offset: u64,
    ) -> Self {
        match value {
            Some(value) => {
                let incoming = Hint { value, provenance: p, record_offset: offset };
                let current = self.fact.agent_path;
                let merged = Noted {
                    fact: ThreadFacts {
                        agent_path: kept(
                            current,
                            incoming,
                            current is Some && path_rank(p) > path_rank(current->0.provenance),
                        ),
                        ..self.fact
                    },
                    ..self
                };
                if current is Some && current->0.value != value {
                    merged.conflict(offset, "agent_path"@)
                } else {
                    merged
                }
            },
            None => self,
        }
    }

    /// The fact with what an owned session meta record says.
    #[verifier::opaque]
    pub open spec fn with_session_meta(self, meta: SessionMetaFacts, offset: u64) -> Self {
        let parents = self.with_created(meta.created_at_ms).with_cwd(
            meta.cwd,
            CwdProvenance::SessionMeta,
            offset,
        ).with_parent(
            meta.parent_thread_id,
            ParentHintProvenance::SessionMetaParent,
            offset,
        ).with_parent(
            meta.subagent_parent_thread_id,
            ParentHintProvenance::SubagentSource,
            offset,
        );
        let forked = if meta.has_subagent_source || meta.agent_role == Some("subagent"@) {
            parents.with_parent(meta.forked_from_id, ParentHintProvenance::ForkedFromId, offset)
        } else {
            parents
        };
        let roles = if meta.has_subagent_source {
            forked.with_role(Some("subagent"@), AgentRoleProvenance::SubagentSource, offset)
        } else {
            forked.with_role(meta.agent_role, AgentRoleProvenance::SessionMetaRole, offset)
        };
        roles.with_agent_path(
            meta.agent_path,
            AgentPathProvenance::SessionMeta,
            offset,
        ).with_agent_path(
            meta.thread_spawn_agent_path,
            AgentPathProvenance::ThreadSpawn,
            offset,
        )
    }

    /// Whether a model observation replaces the latest one: the later time wins; without a
    /// decision by time, the later record.
    pub open spec fn model_replaces(self, context: TurnContextFacts, offset: u64) -> bool {
        let incoming = context_order(context.turn_id, context.timestamp_ms);
        let existing = context_order(
            self.fact.latest_context_turn_id,
            self.fact.latest_context_at_ms,
        );
        if incoming is Some && existing is Some && incoming->0 != existing->0 {
            incoming->0 > existing->0
        } else if incoming is Some && existing is None {
            true
        } else if incoming is None && existing is Some {
            false
        } else {
            self.fact.latest_context_record_offset is None || offset
                > self.fact.latest_context_record_offset->0
        }
    }

    pub open spec fn with_model(self, context: TurnContextFacts, offset: u64) -> Self {
        match context.model {
            None => self,
            Some(model) => {
                let noted = if context.turn_id is Some && self.fact.latest_context_turn_id
                    == context.turn_id && self.fact.latest_context_model != Some(model) {
                    self.conflict(offset, "model"@)
                } else {
                    self
                };
                if self.model_replaces(context, offset) {
                    Noted {
                        fact: ThreadFacts {
                            latest_context_model: Some(model),
                            latest_context_turn_id: context.turn_id,
                            latest_context_at_ms: context.timestamp_ms,
                            latest_context_record_offset: Some(offset),
                            ..noted.fact
                        },
                        ..noted
                    }
                } else {
                    noted
                }
            },
        }
    }

    /// The fact with what an owned turn context says.
    #[verifier::opaque]
    pub open spec fn with_turn_context(self, context: TurnContextFacts, offset: u64) -> Self {
        self.with_cwd(context.cwd, CwdProvenance::TurnContext, offset).with_model(context, offset)
    }
}

pub open spec fn noted(
    fact: RolloutThreadFact,
    diagnostics: Seq<DiagnosticFacts>,
    source_file_id: i64,
) -> Noted {
    Noted { fact: fact.deep_view(), diagnostics, source_file_id }
}

fn mark_conflict(
    fact: &mut RolloutThreadFact,
    diagnostics: &mut Vec<RolloutDiagnostic>,
    source_file_id: i64,
    offset: u64,
    field: &'static str,
)
    ensures
        noted(*final(fact), final(diagnostics).deep_view(), source_file_id) == noted(
            *old(fact),
            old(diagnostics).deep_view(),
            source_file_id,
        ).conflict(offset, field@),
{
    fact.has_conflict = true;
    diagnostics.push(
        RolloutDiagnostic {
            code: DiagnosticCode::CandidateConflict,
            severity: DiagnosticSeverity::Conflict,
            source_file_id,
            source_start_offset: Some(offset),
            thread_id: Some(fact.owning_thread_id.clone()),
            field: Some(field),
        },
    );
    assert(noted(*fact, diagnostics.deep_view(), source_file_id) =~= noted(
        *old(fact),
        old(diagnostics).deep_view(),
        source_file_id,
    ).conflict(offset, field@));
}

fn mark_relationship_conflict(
    fact: &mut RolloutThreadFact,
    diagnostics: &mut Vec<RolloutDiagnostic>,
    source_file_id: i64,
    offset: u64,
    field: &'static str,
)
    ensures
        noted(*final(fact), final(diagnostics).deep_view(), source_file_id) == noted(
            *old(fact),
            old(diagnostics).deep_view(),
            source_file_id,
        ).relationship_conflict(offset, field@),
{
    mark_conflict(fact, diagnostics, source_file_id, offset, field);
    fact.relationship_conflict = true;
}

fn merge_cwd(
    fact: &mut RolloutThreadFact,
    diagnostics: &mut Vec<RolloutDiagnostic>,
    source_file_id: i64,
    offset: u64,
    value: Option<String>,
    provenance: CwdProvenance,
)
    ensures
        noted(*final(fact), final(diagnostics).deep_view(), source_file_id) == noted(
            *old(fact),
            old(diagnostics).deep_view(),
            source_file_id,
        ).with_cwd(value.deep_view(), provenance, offset),
{
    let value: String = match value {
        Some(value) => value,
        None => {
            return ;
        },
    };
    let (replaces, conflicts): (bool, bool) = match &fact.cwd {
        None => (true, false),
        Some(existing) => {
            let incoming_meta: bool = match provenance {
                CwdProvenance::SessionMeta => true,
                CwdProvenance::TurnContext => false,
            };
            let existing_meta: bool = match existing.provenance {
                CwdProvenance::SessionMeta => true,
                CwdProvenance::TurnContext => false,
            };
            (
                incoming_meta && !existing_meta,
                incoming_meta == existing_meta && existing.value != value,
            )
        },
    };
    if replaces {
        fact.cwd = Some(Candidate { value, provenance, record_offset: offset });
    }
    if conflicts {
        mark_conflict(fact, diagnostics, source_file_id, offset, "cwd");
    }
}

fn merge_parent(
    fact: &mut RolloutThreadFact,
    diagnostics: &mut Vec<RolloutDiagnostic>,
    source_file_id: i64,
    offset: u64,
    value: Option<String>,
    provenance: ParentHintProvenance,
)
    ensures
        noted(*final(fact), final(diagnostics).deep_view(), source_file_id) == noted(
            *old(fact),
            old(diagnostics).deep_view(),
            source_file_id,
        ).with_parent(value.deep_view(), provenance, offset),
{
    let value: String = match value {
        Some(value) => value,
        None => {
            return ;
        },
    };
    let (replaces, conflicts): (bool, bool) = match &fact.parent_thread_id_hint {
        None => (true, false),
        Some(existing) => (
            parent_priority(provenance) > parent_priority(existing.provenance),
            existing.value != value,
        ),
    };
    if replaces {
        fact.parent_thread_id_hint =
        Some(Candidate { value, provenance, record_offset: offset });
    }
    if conflicts {
        mark_relationship_conflict(
            fact,
            diagnostics,
            source_file_id,
            offset,
            "parent_thread_id_hint",
        );
    }
}

fn parent_priority(provenance: ParentHintProvenance) -> (r: u8)
    ensures
        r == parent_rank(provenance),
{
    match provenance {
        ParentHintProvenance::SessionMetaParent => 3,
        ParentHintProvenance::SubagentSource => 2,
        ParentHintProvenance::ForkedFromId => 1,
    }
}

fn merge_role(
    fact: &mut RolloutThreadFact,
    diagnostics: &mut Vec<RolloutDiagnostic>,
    source_file_id: i64,
    offset: u64,
    value: Option<String>,
    provenance: AgentRoleProvenance,
)
    ensures
        noted(*final(fact), final(diagnostics).deep_view(), source_file_id) == noted(
            *old(fact),
            old(diagnostics).deep_view(),
            source_file_id,
        ).with_role(value.deep_view(), provenance, offset),
{
    let value: String = match value {
        Some(value) => value,
        None => {
            return ;
        },
    };
    let (replaces, conflicts): (bool, bool) = match &fact.agent_role_hint {
        None => (true, false),
        Some(existing) => {
            let incoming_source: bool = match provenance {
                AgentRoleProvenance::SubagentSource => true,
                AgentRoleProvenance::SessionMetaRole => false,
            };
            let existing_source: bool = match existing.provenance {
                AgentRoleProvenance::SubagentSource => true,
                AgentRoleProvenance::SessionMetaRole => false,
            };
            (
                incoming_source && !existing_source,
                incoming_source == existing_source && existing.value != value,
            )
        },
    };
    if replaces {
        fact.agent_role_hint = Some(Candidate { value, provenance, record_offset: offset });
    }
    if conflicts {
        mark_relationship_conflict(fact, diagnostics, source_file_id, offset, "agent_role_hint");
    }
}

fn merge_agent_path(
    fact: &mut RolloutThreadFact,
    diagnostics: &mut Vec<RolloutDiagnostic>,
    source_file_id: i64,
    offset: u64,
    value: Option<String>,
    provenance: AgentPathProvenance,
)
    ensures
        noted(*final(fact), final(diagnostics).deep_view(), source_file_id) == noted(
            *old(fact),
            old(diagnostics).deep_view(),
            source_file_id,
        ).with_agent_path(value.deep_view(), provenance, offset),
{
    let value: String = match value {
        Some(value) => value,
        None => {
            return ;
        },
    };
    let (replaces, conflicts): (bool, bool) = match &fact.agent_path {
        None => (true, false),
        Some(existing) => {
            let incoming_meta: bool = match provenance {
                AgentPathProvenance::SessionMeta => true,
                AgentPathProvenance::ThreadSpawn => false,
            };
            let existing_meta: bool = match existing.provenance {
                AgentPathProvenance::SessionMeta => true,
                AgentPathProvenance::ThreadSpawn => false,
            };
            (incoming_meta && !existing_meta, existing.value != value)
        },
    };
    if replaces {
        fact.agent_path = Some(Candidate { value, provenance, record_offset: offset });
    }
    if conflicts {
        mark_conflict(fact, diagnostics, source_file_id, offset, "agent_path");
    }
}

/// Notes what an owned session meta record says.
pub fn apply_session_meta(
    fact: &mut RolloutThreadFact,
    allowed: SessionMetaAllowed,
    offset: u64,
    diagnostics: &mut Vec<RolloutDiagnostic>,
    source_file_id: i64,
)
    ensures
        noted(*final(fact), final(diagnostics).deep_view(), source_file_id) == noted(
            *old(fact),
            old(diagnostics).deep_view(),
            source_file_id,
        ).with_session_meta(allowed.deep_view(), offset),
{
    proof {
        reveal(Noted::with_session_meta);
    }
    if let Some(at) = allowed.created_at_ms {
        let created: i64 = match fact.created_at_ms {
            Some(existing) => if existing <= at {
                existing
            } else {
                at
            },
            None => at,
        };
        fact.created_at_ms = Some(created);
    }
    let subagent_role: bool = match &allowed.agent_role {
        Some(role) => same_text(role.as_str(), "subagent"),
        None => false,
    };
    assert(subagent_role == (allowed.agent_role.deep_view() == Some("subagent"@)));
    merge_cwd(
        fact,
        diagnostics,
        source_file_id,
        offset,
        allowed.cwd,
        CwdProvenance::SessionMeta,
    );
    merge_parent(
        fact,
        diagnostics,
        source_file_id,
        offset,
        allowed.parent_thread_id,
        ParentHintProvenance::SessionMetaParent,
    );
    merge_parent(
        fact,
        diagnostics,
        source_file_id,
        offset,
        allowed.subagent_parent_thread_id,
        ParentHintProvenance::SubagentSource,
    );
    if allowed.has_subagent_source || subagent_role {
        merge_parent(
            fact,
            diagnostics,
            source_file_id,
            offset,
            allowed.forked_from_id,
            ParentHintProvenance::ForkedFromId,
        );
    }
    if allowed.has_subagent_source {
        merge_role(
            fact,
            diagnostics,
            source_file_id,
            offset,
            Some("subagent".to_owned()),
            AgentRoleProvenance::SubagentSource,
        );
    } else {
        merge_role(
            fact,
            diagnostics,
            source_file_id,
            offset,
            allowed.agent_role,
            AgentRoleProvenance::SessionMetaRole,
        );
    }
    merge_agent_path(
        fact,
        diagnostics,
        source_file_id,
        offset,
        allowed.agent_path,
        AgentPathProvenance::SessionMeta,
    );
    merge_agent_path(
        fact,
        diagnostics,
        source_file_id,
        offset,
        allowed.thread_spawn_agent_path,
        AgentPathProvenance::ThreadSpawn,
    );
}

/// Notes what an owned turn context says.
pub fn apply_turn_context(
    fact: &mut RolloutThreadFact,
    allowed: TurnContextAllowed,
    offset: u64,
    diagnostics: &mut Vec<RolloutDiagnostic>,
    source_file_id: i64,
)
    ensures
        noted(*final(fact), final(diagnostics).deep_view(), source_file_id) == noted(
            *old(fact),
            old(diagnostics).deep_view(),
            source_file_id,
        ).with_turn_context(allowed.deep_view(), offset),
{
    proof {
        reveal(Noted::with_turn_context);
    }
    merge_cwd(
        fact,
        diagnostics,
        source_file_id,
        offset,
        allowed.cwd,
        CwdProvenance::TurnContext,
    );
    let model: String = match allowed.model {
        Some(model) => model,
        None => {
            return ;
        },
    };
    let incoming: Option<i64> = latest_context_order_ms(&allowed.turn_id, allowed.timestamp_ms);
    let existing: Option<i64> = latest_context_order_ms(
        &fact.latest_context_turn_id,
        fact.latest_context_at_ms,
    );
    let same_turn: bool = allowed.turn_id.is_some() && same_optional_text(
        &fact.latest_context_turn_id,
        &allowed.turn_id,
    );
    let same_model: bool = match &fact.latest_context_model {
        Some(existing_model) => *existing_model == model,
        None => false,
    };
    let later_record: bool = match fact.latest_context_record_offset {
        Some(existing_offset) => offset > existing_offset,
        None => true,
    };
    let replaces: bool = match (incoming, existing) {
        (Some(incoming), Some(existing)) => if incoming != existing {
            incoming > existing
        } else {
            later_record
        },
        (Some(_), None) => true,
        (None, Some(_)) => false,
        (None, None) => later_record,
    };
    if same_turn && !same_model {
        mark_conflict(fact, diagnostics, source_file_id, offset, "model");
    }
    if replaces {
        fact.latest_context_model = Some(model);
        fact.latest_context_turn_id = allowed.turn_id;
        fact.latest_context_at_ms = allowed.timestamp_ms;
        fact.latest_context_record_offset = Some(offset);
    }
}

/// The parser between two lines.
#[verifier::ext_equal]
pub struct Scan {
    pub platform: Platform,
    pub source_file_id: i64,
    pub owner: Option<Seq<char>>,
    pub confirmed: bool,
    pub machine: MachineState,
    pub resumed_nonzero: bool,
    pub fact: Option<ThreadFacts>,
    pub records: Seq<RecordClassification>,
    pub ranges: Seq<OwnershipRange>,
    pub diagnostics: Seq<DiagnosticFacts>,
    pub diagnostic_count: u64,
    pub malformed_record_count: u64,
    pub retain_details: bool,
    pub last_classification: Option<RecordClassification>,
    pub needs_rebuild: bool,
    pub last_processed_offset: u64,
}

pub open spec fn counted(n: u64) -> u64 {
    if n < u64::MAX {
        (n + 1) as u64
    } else {
        n
    }
}

/// The ranges with one more record: a record that continues the last range extends it.
pub open spec fn extended(ranges: Seq<OwnershipRange>, c: RecordClassification) -> Seq<
    OwnershipRange,
> {
    if ranges.len() > 0 && ranges.last().ownership == c.ownership && ranges.last().end_offset
        == c.start_offset {
        ranges.update(
            ranges.len() - 1,
            OwnershipRange { end_offset: c.end_offset, ..ranges.last() },
        )
    } else {
        ranges.push(
            OwnershipRange {
                start_offset: c.start_offset,
                end_offset: c.end_offset,
                ownership: c.ownership,
            },
        )
    }
}

/// The fact of a thread whose own records begin at the offset.
pub open spec fn owned_from(fact: ThreadFacts, offset: u64) -> ThreadFacts {
    ThreadFacts {
        boundary: OwnershipBoundary {
            owning_records_start_offset: Some(offset),
            ..fact.boundary
        },
        ..fact
    }
}

/// A candidate owner that is a thread id.
pub open spec fn candidate_owner(candidate: Option<OwningThreadCandidate>) -> Option<
    (Seq<char>, OwningCandidateConfidence),
> {
    match candidate {
        Some(candidate) => match canonical_uuid(candidate.thread_id@) {
            Some(id) => Some((id, candidate.confidence)),
            None => None,
        },
        None => None,
    }
}

pub open spec fn owner_of(
    candidate: Option<(Seq<char>, OwningCandidateConfidence)>,
) -> Option<Seq<char>> {
    match candidate {
        Some((id, _)) => Some(id),
        None => None,
    }
}

impl Scan {
    pub open spec fn diagnosed(
        self,
        code: DiagnosticCode,
        severity: DiagnosticSeverity,
        offset: Option<u64>,
        thread_id: Option<Seq<char>>,
        field: Option<Seq<char>>,
    ) -> Self {
        Scan {
            diagnostic_count: counted(self.diagnostic_count),
            malformed_record_count: if code is MalformedJson || code is MalformedEnvelope {
                counted(self.malformed_record_count)
            } else {
                self.malformed_record_count
            },
            diagnostics: if self.retain_details {
                self.diagnostics.push(
                    DiagnosticFacts {
                        code,
                        severity,
                        source_file_id: self.source_file_id,
                        source_start_offset: offset,
                        thread_id,
                        field,
                    },
                )
            } else {
                self.diagnostics
            },
            ..self
        }
    }

    pub open spec fn conflicted(
        self,
        code: DiagnosticCode,
        thread_id: Option<Seq<char>>,
        field: Seq<char>,
    ) -> Self {
        Scan { needs_rebuild: true, ..self }.diagnosed(
            code,
            DiagnosticSeverity::Conflict,
            None,
            thread_id,
            Some(field),
        )
    }

    pub open spec fn recorded(
        self,
        at: Span,
        envelope: EnvelopeKind,
        ownership: RecordOwnership,
    ) -> Self {
        let c = RecordClassification {
            start_offset: at.start,
            end_offset: at.end,
            envelope,
            ownership,
        };
        Scan {
            last_classification: Some(c),
            records: if self.retain_details {
                self.records.push(c)
            } else {
                self.records
            },
            ranges: if self.retain_details {
                extended(self.ranges, c)
            } else {
                self.ranges
            },
            ..self
        }
    }

    pub open spec fn fresh(
        platform: Platform,
        source_file_id: i64,
        offset: u64,
        retain_details: bool,
    ) -> Self {
        Scan {
            platform,
            source_file_id,
            owner: None,
            confirmed: false,
            machine: MachineState::AwaitOwningMeta,
            resumed_nonzero: false,
            fact: None,
            records: Seq::empty(),
            ranges: Seq::empty(),
            diagnostics: Seq::empty(),
            diagnostic_count: 0,
            malformed_record_count: 0,
            retain_details,
            last_classification: None,
            needs_rebuild: false,
            last_processed_offset: offset,
        }
    }

    /// Resuming after the start, in a state that names the owner.
    pub open spec fn resumed(
        self,
        owning_thread_id: Seq<char>,
        machine: MachineState,
        external: Option<(Seq<char>, OwningCandidateConfidence)>,
        existing: Option<ThreadFacts>,
    ) -> Self {
        match canonical_uuid(owning_thread_id) {
            None => self.conflicted(
                DiagnosticCode::InvalidResumeState,
                None,
                "owning_thread_id"@,
            ),
            Some(id) => {
                let a = if owner_of(external) is Some && owner_of(external) != Some(id) {
                    self.conflicted(
                        DiagnosticCode::OwningCandidateConflict,
                        Some(id),
                        "owning_thread_id"@,
                    )
                } else {
                    self
                };
                let b = if existing is Some && existing->0.owning_thread_id == id {
                    Scan { fact: existing, ..a }
                } else {
                    a.conflicted(DiagnosticCode::InvalidResumeState, Some(id), "existing_fact"@)
                };
                Scan { owner: Some(id), confirmed: true, machine, ..b }
            },
        }
    }

    /// The parser before its first line.
    pub open spec fn start(context: RolloutParseContext, retain_details: bool) -> Self {
        let state = candidate_owner(context.candidates.state_rollout);
        let filename = candidate_owner(context.candidates.filename);
        let external = if state is Some {
            state
        } else {
            filename
        };
        let fresh = Scan::fresh(
            context.platform,
            context.source_file_id,
            context.chunk_start_offset,
            retain_details,
        );
        let a = if state is Some && filename is Some && owner_of(state) != owner_of(filename) {
            fresh.conflicted(
                DiagnosticCode::OwningCandidateConflict,
                owner_of(state),
                "owning_thread_id"@,
            )
        } else {
            fresh
        };
        if context.chunk_start_offset > 0 {
            let b = Scan { resumed_nonzero: true, ..a };
            match context.resume_state {
                ResumeState::ReplayedAncestor { owning_thread_id } => b.resumed(
                    owning_thread_id@,
                    MachineState::ReplayedAncestor,
                    external,
                    context.existing_fact.deep_view(),
                ),
                ResumeState::OwningLive { owning_thread_id } => b.resumed(
                    owning_thread_id@,
                    MachineState::OwningLive,
                    external,
                    context.existing_fact.deep_view(),
                ),
                ResumeState::AwaitOwningMeta => b.conflicted(
                    DiagnosticCode::InvalidResumeState,
                    owner_of(external),
                    "resume_state"@,
                ),
            }
        } else {
            match external {
                Some((id, confidence)) => Scan {
                    fact: Some(blank_thread(context.source_file_id, id)),
                    owner: Some(id),
                    confirmed: confidence is Confirmed,
                    machine: MachineState::OwningBootstrap,
                    ..a
                },
                None => a,
            }
        }
    }

    /// The fact with what an owned record says, and the remarks on it.
    pub open spec fn with_noted(self, n: Noted) -> Self {
        Scan { fact: Some(n.fact), diagnostics: n.diagnostics, ..self }
    }

    pub open spec fn noted(self) -> Noted {
        Noted {
            fact: self.fact->0,
            diagnostics: self.diagnostics,
            source_file_id: self.source_file_id,
        }
    }

    /// The parser at an owned session meta record, before it notes what the record says.
    pub open spec fn at_owned_meta(self, at: Span) -> Self {
        let from_replay = self.machine is ReplayedAncestor;
        let a = self.recorded(at, EnvelopeKind::SessionMeta, RecordOwnership::Owning);
        Scan {
            machine: if from_replay {
                MachineState::OwningLive
            } else {
                self.machine
            },
            fact: match self.fact {
                None => None,
                Some(fact) => Some(
                    if from_replay || (fact.boundary.owning_records_start_offset is None
                        && fact.boundary.replay_start_offset is None) {
                        owned_from(fact, at.start)
                    } else {
                        fact
                    },
                ),
            },
            ..a
        }
    }

    pub open spec fn with_owned_meta(self, at: Span, meta: SessionMetaFacts) -> Self {
        let placed = self.at_owned_meta(at);
        if placed.fact is Some {
            placed.with_noted(placed.noted().with_session_meta(meta, at.start))
        } else {
            placed
        }
    }

    pub open spec fn with_foreign_meta(self, at: Span) -> Self {
        let a = self.recorded(at, EnvelopeKind::SessionMeta, RecordOwnership::ReplayedAncestor);
        let b = Scan {
            fact: match a.fact {
                None => None,
                Some(fact) => Some(
                    ThreadFacts {
                        boundary: OwnershipBoundary {
                            replay_start_offset: if fact.boundary.replay_start_offset is None {
                                Some(at.start)
                            } else {
                                fact.boundary.replay_start_offset
                            },
                            ..fact.boundary
                        },
                        ..fact
                    },
                ),
            },
            machine: MachineState::ReplayedAncestor,
            ..a
        };
        let c = b.diagnosed(
            DiagnosticCode::ForeignSessionMeta,
            DiagnosticSeverity::Warning,
            Some(at.start),
            self.owner,
            Some("id"@),
        );
        Scan {
            needs_rebuild: c.needs_rebuild || (self.resumed_nonzero && !(self.machine
                is ReplayedAncestor)),
            ..c
        }
    }

    /// A rollout that nobody owns yet is owned by the thread that its first session meta
    /// record names.
    pub open spec fn claimed_by(self, id: Seq<char>) -> Self {
        if self.owner is None {
            Scan {
                owner: Some(id),
                fact: Some(blank_thread(self.source_file_id, id)),
                confirmed: true,
                machine: MachineState::OwningBootstrap,
                ..self
            }
        } else {
            self
        }
    }

    /// The effect of a session meta record: the first one settles the owner, one of the
    /// owner begins or ends a replay, one of another thread begins a replay.
    pub open spec fn with_session_meta(self, at: Span, meta: SessionMetaFacts) -> Self {
        match meta.thread_id {
            None => self.recorded(
                at,
                EnvelopeKind::SessionMeta,
                RecordOwnership::UnknownOwnership,
            ).diagnosed(
                DiagnosticCode::InvalidAllowedField,
                DiagnosticSeverity::Warning,
                Some(at.start),
                self.owner,
                Some("id"@),
            ),
            Some(id) => {
                let owned = self.claimed_by(id);
                if owned.owner == Some(id) {
                    owned.with_owned_meta(at, meta)
                } else {
                    owned.with_foreign_meta(at)
                }
            },
        }
    }

    /// A turn that began no earlier than the owning thread ends a replay.
    pub open spec fn context_ends_replay(self, context: TurnContextFacts) -> bool {
        self.machine is ReplayedAncestor && context.turn_id is Some && self.owner is Some
            && not_earlier(context.turn_id->0, self.owner->0)
    }

    /// The parser at a turn context, before it notes what the record says.
    pub open spec fn at_turn_context(self, at: Span, context: TurnContextFacts) -> Self {
        let a = if self.context_ends_replay(context) {
            Scan {
                machine: MachineState::OwningLive,
                fact: match self.fact {
                    None => None,
                    Some(fact) => Some(owned_from(fact, at.start)),
                },
                ..self
            }
        } else {
            self
        };
        a.recorded(at, EnvelopeKind::TurnContext, default_owner(a.machine))
    }

    pub open spec fn with_turn_context(self, at: Span, context: TurnContextFacts) -> Self {
        let placed = self.at_turn_context(at, context);
        if default_owner(placed.machine) is Owning && context.turn_id is Some && placed.fact
            is Some {
            placed.with_noted(placed.noted().with_turn_context(context, at.start))
        } else {
            placed
        }
    }

    pub open spec fn with_malformed(self, at: Span, code: DiagnosticCode) -> Self {
        self.recorded(at, EnvelopeKind::Malformed, default_owner(self.machine)).diagnosed(
            code,
            DiagnosticSeverity::Warning,
            Some(at.start),
            self.owner,
            None,
        )
    }

    pub open spec fn with_other(self, at: Span, envelope: EnvelopeKind) -> Self {
        let a = self.recorded(at, envelope, default_owner(self.machine));
        if envelope is Unknown {
            a.diagnosed(
                DiagnosticCode::UnknownEnvelope,
                DiagnosticSeverity::Warning,
                Some(at.start),
                self.owner,
                None,
            )
        } else {
            a
        }
    }

    /// The effect of a record, by what it holds.
    pub open spec fn with_content(self, at: Span, content: ContentFacts) -> Self {
        match content {
            ContentFacts::NotJson => self.with_malformed(at, DiagnosticCode::MalformedJson),
            ContentFacts::NotAnObject => self.with_malformed(
                at,
                DiagnosticCode::MalformedEnvelope,
            ),
            ContentFacts::SessionMeta(meta) => self.with_session_meta(at, meta),
            ContentFacts::TurnContext(context) => self.with_turn_context(at, context),
            ContentFacts::Other(envelope) => self.with_other(at, envelope),
        }
    }

    pub open spec fn with_gap(self, start: u64) -> Self {
        Scan { needs_rebuild: true, ..self }.diagnosed(
            DiagnosticCode::NonContiguousOffsets,
            DiagnosticSeverity::Conflict,
            Some(start),
            self.owner,
            None,
        )
    }

    /// The effect of a record at its place: one that does not begin where the last one ended
    /// calls for a rebuild.
    pub open spec fn with_record(self, at: Span, content: ContentFacts) -> Self {
        let a = if at.start != self.last_processed_offset {
            self.with_gap(at.start)
        } else {
            self
        };
        Scan { last_processed_offset: at.end, ..a.with_content(at, content) }
    }

    /// The effect of a complete line.
    pub open spec fn with_line(self, line: LineFacts) -> Self {
        self.with_record(line.at, content_of(self.platform, json_document(line.json)))
    }

    pub open spec fn with_lines(self, lines: Seq<LineFacts>) -> Self
        decreases lines.len(),
    {
        if lines.len() == 0 {
            self
        } else {
            self.with_lines(lines.drop_last()).with_line(lines.last())
        }
    }

    /// How a line whose body was not read is classified.
    pub open spec fn opaque_class(self, start: u64, end: u64) -> RecordClassification {
        RecordClassification {
            start_offset: start,
            end_offset: end,
            envelope: EnvelopeKind::Unknown,
            ownership: default_owner(self.machine),
        }
    }

    /// The effect of a line whose body was not read.
    pub open spec fn with_opaque(self, start: u64, end: u64) -> Self {
        let a = if start != self.last_processed_offset || end <= start {
            self.with_gap(start)
        } else {
            self
        };
        Scan {
            last_classification: Some(self.opaque_class(start, end)),
            last_processed_offset: end,
            ..a
        }
    }

    pub open spec fn continuation(self) -> ContinuationFacts {
        if self.needs_rebuild || !self.confirmed || self.owner is None || self.machine
            is AwaitOwningMeta {
            ContinuationFacts::Unstable
        } else if self.machine is ReplayedAncestor {
            ContinuationFacts::ReplayedAncestor { owning_thread_id: self.owner->0 }
        } else {
            ContinuationFacts::OwningLive { owning_thread_id: self.owner->0 }
        }
    }

    /// What the lines came to. A chunk that needs a rebuild gives no fact.
    pub open spec fn finished(self) -> ParseFacts {
        ParseFacts {
            fact: if self.needs_rebuild || self.fact is None {
                None
            } else {
                Some(
                    ThreadFacts {
                        boundary: OwnershipBoundary {
                            confidence: if self.continuation() is Unstable {
                                OwnershipConfidence::Unresolved
                            } else {
                                OwnershipConfidence::Confirmed
                            },
                            ..self.fact->0.boundary
                        },
                        ..self.fact->0
                    },
                )
            },
            records: if self.retain_details {
                self.records
            } else {
                Seq::empty()
            },
            ownership_ranges: if self.retain_details {
                self.ranges
            } else {
                Seq::empty()
            },
            diagnostics: if self.retain_details {
                self.diagnostics
            } else {
                Seq::empty()
            },
            diagnostic_count: self.diagnostic_count,
            malformed_record_count: self.malformed_record_count,
            final_continuation: self.continuation(),
            needs_rebuild: self.needs_rebuild,
            last_processed_offset: self.last_processed_offset,
        }
    }
}

struct Parser {
    platform: Platform,
    source_file_id: i64,
    owning_thread_id: Option<String>,
    owning_confirmed: bool,
    machine: MachineState,
    resumed_nonzero: bool,
    fact: Option<RolloutThreadFact>,
    records: Vec<RecordClassification>,
    ranges: Vec<OwnershipRange>,
    diagnostics: Vec<RolloutDiagnostic>,
    diagnostic_count: u64,
    malformed_record_count: u64,
    retain_details: bool,
    last_classification: Option<RecordClassification>,
    needs_rebuild: bool,
    last_processed_offset: u64,
}

impl View for Parser {
    type V = Scan;

    closed spec fn view(&self) -> Scan {
        Scan {
            platform: self.platform,
            source_file_id: self.source_file_id,
            owner: self.owning_thread_id.deep_view(),
            confirmed: self.owning_confirmed,
            machine: self.machine,
            resumed_nonzero: self.resumed_nonzero,
            fact: self.fact.deep_view(),
            records: self.records@,
            ranges: self.ranges@,
            diagnostics: self.diagnostics.deep_view(),
            diagnostic_count: self.diagnostic_count,
            malformed_record_count: self.malformed_record_count,
            retain_details: self.retain_details,
            last_classification: self.last_classification,
            needs_rebuild: self.needs_rebuild,
            last_processed_offset: self.last_processed_offset,
        }
    }
}

fn valid_external_candidate(candidate: &Option<OwningThreadCandidate>) -> (r: Option<
    (String, OwningCandidateConfidence),
>)
    ensures
        match r {
            Some((id, confidence)) => candidate_owner(*candidate) == Some((id@, confidence)),
            None => candidate_owner(*candidate) is None,
        },
{
    match candidate {
        Some(candidate) => match valid_uuid_string(candidate.thread_id.as_str()) {
            Some(id) => Some((id, candidate.confidence)),
            None => None,
        },
        None => None,
    }
}

impl Parser {
    fn with_detail_retention(context: RolloutParseContext, retain_details: bool) -> (r: Self)
        ensures
            r@ == Scan::start(context, retain_details),
    {
        let mut parser: Parser = Parser {
            platform: context.platform,
            source_file_id: context.source_file_id,
            owning_thread_id: None,
            owning_confirmed: false,
            machine: MachineState::AwaitOwningMeta,
            resumed_nonzero: false,
            fact: None,
            records: Vec::new(),
            ranges: Vec::new(),
            diagnostics: Vec::new(),
            diagnostic_count: 0,
            malformed_record_count: 0,
            retain_details,
            last_classification: None,
            needs_rebuild: false,
            last_processed_offset: context.chunk_start_offset,
        };
        assert(parser@ =~= Scan::fresh(
            context.platform,
            context.source_file_id,
            context.chunk_start_offset,
            retain_details,
        ));
        parser.initialize(context);
        parser
    }

    fn initialize(&mut self, context: RolloutParseContext)
        requires
            old(self)@ == Scan::fresh(
                context.platform,
                context.source_file_id,
                context.chunk_start_offset,
                old(self)@.retain_details,
            ),
        ensures
            final(self)@ == Scan::start(context, old(self)@.retain_details),
    {
        let state: Option<(String, OwningCandidateConfidence)> = valid_external_candidate(
            &context.candidates.state_rollout,
        );
        let filename: Option<(String, OwningCandidateConfidence)> = valid_external_candidate(
            &context.candidates.filename,
        );
        if let Some((state_id, _)) = &state {
            if let Some((filename_id, _)) = &filename {
                if *state_id != *filename_id {
                    self.conflict(
                        DiagnosticCode::OwningCandidateConflict,
                        Some(state_id.clone()),
                        "owning_thread_id",
                    );
                }
            }
        }
        let external: Option<(String, OwningCandidateConfidence)> = match state {
            Some(candidate) => Some(candidate),
            None => filename,
        };
        if context.chunk_start_offset > 0 {
            self.resumed_nonzero = true;
            match context.resume_state {
                ResumeState::ReplayedAncestor { owning_thread_id } => {
                    self.resume(
                        owning_thread_id,
                        MachineState::ReplayedAncestor,
                        external,
                        context.existing_fact,
                    );
                },
                ResumeState::OwningLive { owning_thread_id } => {
                    self.resume(
                        owning_thread_id,
                        MachineState::OwningLive,
                        external,
                        context.existing_fact,
                    );
                },
                ResumeState::AwaitOwningMeta => {
                    let id: Option<String> = match external {
                        Some((id, _)) => Some(id),
                        None => None,
                    };
                    self.conflict(DiagnosticCode::InvalidResumeState, id, "resume_state");
                },
            }
            return ;
        }
        if let Some((id, confidence)) = external {
            self.fact = Some(RolloutThreadFact::empty(context.source_file_id, id.clone()));
            self.owning_thread_id = Some(id);
            self.owning_confirmed = confidence == OwningCandidateConfidence::Confirmed;
            self.machine = MachineState::OwningBootstrap;
        }
    }

    fn resume(
        &mut self,
        owning_thread_id: String,
        machine: MachineState,
        external: Option<(String, OwningCandidateConfidence)>,
        existing: Option<RolloutThreadFact>,
    )
        requires
            old(self)@.fact is None,
        ensures
            final(self)@ == old(self)@.resumed(
                owning_thread_id@,
                machine,
                match external {
                    Some((id, confidence)) => Some((id@, confidence)),
                    None => None,
                },
                existing.deep_view(),
            ),
    {
        let id: String = match valid_uuid_string(owning_thread_id.as_str()) {
            Some(id) => id,
            None => {
                self.conflict(DiagnosticCode::InvalidResumeState, None, "owning_thread_id");
                return ;
            },
        };
        if let Some((external_id, _)) = &external {
            if *external_id != id {
                self.conflict(
                    DiagnosticCode::OwningCandidateConflict,
                    Some(id.clone()),
                    "owning_thread_id",
                );
            }
        }
        let matching: bool = match &existing {
            Some(fact) => fact.owning_thread_id == id,
            None => false,
        };
        if matching {
            self.fact = existing;
        } else {
            self.conflict(
                DiagnosticCode::InvalidResumeState,
                Some(id.clone()),
                "existing_fact",
            );
        }
        self.owning_thread_id = Some(id);
        self.owning_confirmed = true;
        self.machine = machine;
    }

    fn conflict(
        &mut self,
        code: DiagnosticCode,
        thread_id: Option<String>,
        field: &'static str,
    )
        ensures
            final(self)@ == old(self)@.conflicted(code, thread_id.deep_view(), field@),
    {
        self.needs_rebuild = true;
        self.diagnostic(code, DiagnosticSeverity::Conflict, None, thread_id, Some(field));
    }

    fn push_line(&mut self, line: &CompleteRolloutLine)
        ensures
            final(self)@ == old(self)@.with_line(line@),
    {
        let document: Option<JsonValue> = parse_json(line.json_bytes());
        self.push_record(line.span(), RecordContent::of_document(self.platform, &document));
    }

    fn push_record(&mut self, at: Span, content: RecordContent)
        ensures
            final(self)@ == old(self)@.with_record(at, content.deep_view()),
    {
        if at.start != self.last_processed_offset {
            self.gap(at.start);
        }
        self.take_content(at, content);
        self.last_processed_offset = at.end;
    }

    fn gap(&mut self, start: u64)
        ensures
            final(self)@ == old(self)@.with_gap(start),
    {
        self.needs_rebuild = true;
        let owner: Option<String> = self.owning_thread_id.clone();
        self.diagnostic(
            DiagnosticCode::NonContiguousOffsets,
            DiagnosticSeverity::Conflict,
            Some(start),
            owner,
            None,
        );
    }

    fn push_opaque(&mut self, start_offset: u64, end_offset: u64) -> (r: RecordClassification)
        ensures
            final(self)@ == old(self)@.with_opaque(start_offset, end_offset),
            r == old(self)@.opaque_class(start_offset, end_offset),
    {
        if start_offset != self.last_processed_offset || end_offset <= start_offset {
            self.gap(start_offset);
        }
        let classification: RecordClassification = RecordClassification {
            start_offset,
            end_offset,
            envelope: EnvelopeKind::Unknown,
            ownership: self.default_ownership(),
        };
        self.last_classification = Some(classification);
        self.last_processed_offset = end_offset;
        classification
    }

    fn finish(self) -> (r: RolloutParseResult)
        ensures
            r.deep_view() == self@.finished(),
    {
        let unstable: bool = self.needs_rebuild || !self.owning_confirmed;
        let final_continuation: FinalContinuation = if unstable {
            FinalContinuation::Unstable
        } else {
            match (&self.owning_thread_id, self.machine) {
                (Some(id), MachineState::ReplayedAncestor) => FinalContinuation::ReplayedAncestor {
                    owning_thread_id: id.clone(),
                },
                (Some(id), MachineState::OwningBootstrap) => FinalContinuation::OwningLive {
                    owning_thread_id: id.clone(),
                },
                (Some(id), MachineState::OwningLive) => FinalContinuation::OwningLive {
                    owning_thread_id: id.clone(),
                },
                _ => FinalContinuation::Unstable,
            }
        };
        let stable: bool = match &final_continuation {
            FinalContinuation::Unstable => false,
            _ => true,
        };
        let fact: Option<RolloutThreadFact> = if self.needs_rebuild {
            None
        } else {
            match self.fact {
                Some(fact) => {
                    let mut fact: RolloutThreadFact = fact;
                    fact.ownership_boundary.confidence =
                    if stable {
                        OwnershipConfidence::Confirmed
                    } else {
                        OwnershipConfidence::Unresolved
                    };
                    Some(fact)
                },
                None => None,
            }
        };
        let result: RolloutParseResult = RolloutParseResult {
            fact,
            records: if self.retain_details {
                self.records
            } else {
                Vec::new()
            },
            ownership_ranges: if self.retain_details {
                self.ranges
            } else {
                Vec::new()
            },
            diagnostics: if self.retain_details {
                self.diagnostics
            } else {
                Vec::new()
            },
            diagnostic_count: self.diagnostic_count,
            malformed_record_count: self.malformed_record_count,
            final_continuation,
            needs_rebuild: self.needs_rebuild,
            last_processed_offset: self.last_processed_offset,
        };
        assert(result.deep_view() =~= self@.finished());
        result
    }

    fn take_content(&mut self, at: Span, content: RecordContent)
        ensures
            final(self)@ == old(self)@.with_content(at, content.deep_view()),
    {
        match content {
            RecordContent::NotJson => {
                self.malformed(at, DiagnosticCode::MalformedJson);
            },
            RecordContent::NotAnObject => {
                self.malformed(at, DiagnosticCode::MalformedEnvelope);
            },
            RecordContent::SessionMeta(meta) => {
                self.take_session_meta(at, meta);
            },
            RecordContent::TurnContext(context) => {
                self.take_turn_context(at, context);
            },
            RecordContent::Other(envelope) => {
                self.other(at, envelope);
            },
        }
    }

    fn malformed(&mut self, at: Span, code: DiagnosticCode)
        ensures
            final(self)@ == old(self)@.with_malformed(at, code),
    {
        let ownership: RecordOwnership = self.default_ownership();
        let owner: Option<String> = self.owning_thread_id.clone();
        self.record(at, EnvelopeKind::Malformed, ownership);
        self.diagnostic(
            code,
            DiagnosticSeverity::Warning,
            Some(at.start),
            owner,
            None,
        );
    }

    fn other(&mut self, at: Span, envelope: EnvelopeKind)
        ensures
            final(self)@ == old(self)@.with_other(at, envelope),
    {
        let ownership: RecordOwnership = self.default_ownership();
        let owner: Option<String> = self.owning_thread_id.clone();
        self.record(at, envelope, ownership);
        if envelope == EnvelopeKind::Unknown {
            self.diagnostic(
                DiagnosticCode::UnknownEnvelope,
                DiagnosticSeverity::Warning,
                Some(at.start),
                owner,
                None,
            );
        }
    }

    fn take_session_meta(&mut self, at: Span, allowed: SessionMetaAllowed)
        ensures
            final(self)@ == old(self)@.with_session_meta(at, allowed.deep_view()),
    {
        let id: String = match &allowed.thread_id {
            Some(id) => id.clone(),
            None => {
                let owner: Option<String> = self.owning_thread_id.clone();
                self.record(at, EnvelopeKind::SessionMeta, RecordOwnership::UnknownOwnership);
                self.diagnostic(
                    DiagnosticCode::InvalidAllowedField,
                    DiagnosticSeverity::Warning,
                    Some(at.start),
                    owner,
                    Some("id"),
                );
                return ;
            },
        };
        if self.owning_thread_id.is_none() {
            self.owning_thread_id = Some(id.clone());
            self.fact = Some(RolloutThreadFact::empty(self.source_file_id, id.clone()));
            self.owning_confirmed = true;
            self.machine = MachineState::OwningBootstrap;
        }
        let owned: bool = match &self.owning_thread_id {
            Some(owner) => *owner == id,
            None => false,
        };
        if owned {
            self.owned_meta(at, allowed);
        } else {
            self.foreign_meta(at);
        }
    }

    fn owned_meta(&mut self, at: Span, allowed: SessionMetaAllowed)
        ensures
            final(self)@ == old(self)@.with_owned_meta(at, allowed.deep_view()),
    {
        let from_replay: bool = self.machine == MachineState::ReplayedAncestor;
        self.record(at, EnvelopeKind::SessionMeta, RecordOwnership::Owning);
        if from_replay {
            self.machine = MachineState::OwningLive;
        }
        let start: u64 = at.start;
        match self.fact.take() {
            Some(fact) => {
                let mut fact: RolloutThreadFact = fact;
                if from_replay || (fact.ownership_boundary.owning_records_start_offset.is_none()
                    && fact.ownership_boundary.replay_start_offset.is_none()) {
                    fact.ownership_boundary.owning_records_start_offset = Some(start);
                }
                apply_session_meta(
                    &mut fact,
                    allowed,
                    start,
                    &mut self.diagnostics,
                    self.source_file_id,
                );
                self.fact = Some(fact);
            },
            None => {},
        }
    }

    fn foreign_meta(&mut self, at: Span)
        ensures
            final(self)@ == old(self)@.with_foreign_meta(at),
    {
        let was_replayed: bool = self.machine == MachineState::ReplayedAncestor;
        self.record(at, EnvelopeKind::SessionMeta, RecordOwnership::ReplayedAncestor);
        let start: u64 = at.start;
        if let Some(fact) = &mut self.fact {
            if fact.ownership_boundary.replay_start_offset.is_none() {
                fact.ownership_boundary.replay_start_offset = Some(start);
            }
        }
        self.machine = MachineState::ReplayedAncestor;
        let owner: Option<String> = self.owning_thread_id.clone();
        self.diagnostic(
            DiagnosticCode::ForeignSessionMeta,
            DiagnosticSeverity::Warning,
            Some(start),
            owner,
            Some("id"),
        );
        if self.resumed_nonzero && !was_replayed {
            self.needs_rebuild = true;
        }
    }

    fn take_turn_context(&mut self, at: Span, allowed: TurnContextAllowed)
        ensures
            final(self)@ == old(self)@.with_turn_context(at, allowed.deep_view()),
    {
        let start: u64 = at.start;
        let ends_replay: bool = match (&allowed.turn_id, &self.owning_thread_id) {
            (Some(turn_id), Some(owner)) => self.machine == MachineState::ReplayedAncestor
                && uuid7_is_not_earlier(turn_id.as_str(), owner.as_str()),
            _ => false,
        };
        if ends_replay {
            self.machine = MachineState::OwningLive;
            if let Some(fact) = &mut self.fact {
                fact.ownership_boundary.owning_records_start_offset = Some(start);
            }
        }
        let ownership: RecordOwnership = self.default_ownership();
        self.record(at, EnvelopeKind::TurnContext, ownership);
        if ownership == RecordOwnership::Owning && allowed.turn_id.is_some() {
            match self.fact.take() {
                Some(fact) => {
                    let mut fact: RolloutThreadFact = fact;
                    apply_turn_context(
                        &mut fact,
                        allowed,
                        start,
                        &mut self.diagnostics,
                        self.source_file_id,
                    );
                    self.fact = Some(fact);
                },
                None => {},
            }
        }
    }

    fn default_ownership(&self) -> (r: RecordOwnership)
        ensures
            r == default_owner(self@.machine),
    {
        match self.machine {
            MachineState::AwaitOwningMeta => RecordOwnership::UnknownOwnership,
            MachineState::ReplayedAncestor => RecordOwnership::ReplayedAncestor,
            MachineState::OwningBootstrap | MachineState::OwningLive => RecordOwnership::Owning,
        }
    }

    fn record(
        &mut self,
        at: Span,
        envelope: EnvelopeKind,
        ownership: RecordOwnership,
    )
        ensures
            final(self)@ == old(self)@.recorded(at, envelope, ownership),
    {
        let classification: RecordClassification = RecordClassification {
            start_offset: at.start,
            end_offset: at.end,
            envelope,
            ownership,
        };
        self.last_classification = Some(classification);
        if !self.retain_details {
            return ;
        }
        self.records.push(classification);
        let n: usize = self.ranges.len();
        let continues: bool = if n > 0 {
            let range: OwnershipRange = self.ranges[n - 1];
            range.ownership == ownership && range.end_offset == classification.start_offset
        } else {
            false
        };
        if continues {
            let range: OwnershipRange = self.ranges[n - 1];
            self.ranges.set(
                n - 1,
                OwnershipRange {
                    start_offset: range.start_offset,
                    end_offset: classification.end_offset,
                    ownership: range.ownership,
                },
            );
        } else {
            self.ranges.push(
                OwnershipRange {
                    start_offset: classification.start_offset,
                    end_offset: classification.end_offset,
                    ownership,
                },
            );
        }
        assert(self@ =~= old(self)@.recorded(at, envelope, ownership));
    }

    fn diagnostic(
        &mut self,
        code: DiagnosticCode,
        severity: DiagnosticSeverity,
        offset: Option<u64>,
        thread_id: Option<String>,
        field: Option<&'static str>,
    )
        ensures
            final(self)@ == old(self)@.diagnosed(
                code,
                severity,
                offset,
                thread_id.deep_view(),
                field_name(field),
            ),
    {
        let ghost thread = thread_id.deep_view();
        if self.diagnostic_count < u64::MAX {
            self.diagnostic_count = self.diagnostic_count + 1;
        }
        let malformed: bool = match code {
            DiagnosticCode::MalformedJson | DiagnosticCode::MalformedEnvelope => true,
            _ => false,
        };
        if malformed && self.malformed_record_count < u64::MAX {
            self.malformed_record_count = self.malformed_record_count + 1;
        }
        if self.retain_details {
            self.diagnostics.push(
                RolloutDiagnostic {
                    code,
                    severity,
                    source_file_id: self.source_file_id,
                    source_start_offset: offset,
                    thread_id,
                    field,
                },
            );
        }
        assert(self@ =~= old(self)@.diagnosed(code, severity, offset, thread, field_name(field)));
    }
}

/// Classifies the records of a rollout one by one.
pub struct RolloutOwnershipClassifier {
    parser: Parser,
}

/// The classifier as metadata extraction uses it.
pub type RolloutChunkParser = RolloutOwnershipClassifier;

impl View for RolloutOwnershipClassifier {
    type V = Scan;

    closed spec fn view(&self) -> Scan {
        self.parser@
    }
}

pub struct RolloutMetadataParser;

pub open spec fn line_views(lines: Seq<CompleteRolloutLine>) -> Seq<LineFacts> {
    Seq::new(lines.len(), |i: int| lines[i]@)
}

impl RolloutMetadataParser {
    /// A parser that keeps no records, ranges or remarks.
    pub fn start_chunk(context: RolloutParseContext) -> (r: RolloutOwnershipClassifier)
        ensures
            r@ == Scan::start(context, false),
    {
        RolloutOwnershipClassifier { parser: Parser::with_detail_retention(context, false) }
    }

    /// Parses the lines of a chunk, keeping the details.
    pub fn parse_chunk(context: RolloutParseContext, lines: Vec<CompleteRolloutLine>) -> (r:
        RolloutParseResult)
        ensures
            r.deep_view() == Scan::start(context, true).with_lines(line_views(lines@)).finished(),
    {
        let ghost start = Scan::start(context, true);
        let ghost all = line_views(lines@);
        let mut parser: Parser = Parser::with_detail_retention(context, true);
        let mut i: usize = 0;
        proof {
            assert(all.take(0) =~= Seq::<LineFacts>::empty());
        }
        while i < lines.len()
            invariant
                i <= lines.len(),
                all == line_views(lines@),
                parser@ == start.with_lines(all.take(i as int)),
            decreases lines.len() - i,
        {
            parser.push_line(&lines[i]);
            proof {
                assert(all.take(i + 1).drop_last() =~= all.take(i as int));
                assert(all.take(i + 1).last() == lines@[i as int]@);
            }
            i = i + 1;
        }
        proof {
            assert(all.take(all.len() as int) =~= all);
        }
        parser.finish()
    }
}

impl RolloutOwnershipClassifier {
    pub fn push(&mut self, line: &CompleteRolloutLine)
        ensures
            final(self)@ == old(self)@.with_line(line@),
    {
        self.parser.push_line(line);
    }

    /// Pushes a record whose content was read elsewhere.
    pub fn push_record(&mut self, at: Span, content: RecordContent)
        ensures
            final(self)@ == old(self)@.with_record(at, content.deep_view()),
    {
        self.parser.push_record(at, content);
    }

    /// Pushes one line and gives its classification alone, so that a long replay costs no
    /// memory.
    pub fn push_classified(&mut self, line: &CompleteRolloutLine) -> (r: Option<
        RecordClassification,
    >)
        ensures
            ({
                let cleared = Scan { last_classification: None, ..old(self)@ };
                let after = cleared.with_line(line@);
                &&& r == after.last_classification
                &&& final(self)@ == (Scan { last_classification: None, ..after })
            }),
    {
        self.parser.last_classification = None;
        self.parser.push_line(line);
        let r: Option<RecordClassification> = self.parser.last_classification;
        self.parser.last_classification = None;
        r
    }

    /// Moves over a complete line whose body was not read. Its envelope is unknown, but its
    /// owner follows from where the machine stands.
    pub fn push_opaque_classified(&mut self, start_offset: u64, end_offset: u64) -> (r:
        RecordClassification)
        ensures
            final(self)@ == old(self)@.with_opaque(start_offset, end_offset),
            r == old(self)@.opaque_class(start_offset, end_offset),
    {
        self.parser.push_opaque(start_offset, end_offset)
    }

    pub fn finish(self) -> (r: RolloutParseResult)
        ensures
            r.deep_view() == self@.finished(),
    {
        self.parser.finish()
    }
}

} // verus!
