//! Pure usage ingestion state machine.
//!
//! The input is the normalized, ownership-classified record stream of one rollout. The
//! output is a set of deterministic event and occurrence proposals together with the
//! restartable source and turn state.
use vstd::prelude::*;
use vstd::string::*;
use vstd::std_specs::convert::FromSpecImpl;

use crate::encoding::{blake3_hex, push_byte, push_bytes, push_i64, push_optional_text, push_text, push_u64};
#[allow(unused_imports)]
use crate::encoding::{
    be64, be_i64, blake3_digest, hex_lower, optional_i64_bytes, optional_text_bytes, text_bytes,
};
use crate::normalization::usage_fingerprint;
#[allow(unused_imports)]
use crate::normalization::fingerprint;
use crate::shared::DomainError;
#[allow(unused_imports)]
use crate::shared::Fault;
use crate::text::{contains_text, is_blank, same_optional_text, same_text};
#[allow(unused_imports)]
use crate::text::{blank, occurs};
use crate::token_usage::{EventKind, NormalizedTokenUsage};
#[allow(unused_imports)]
use crate::token_usage::{difference_fault, difference_of, sum_fault, sum_of, zero_usage};

verus! {

/// A token vector of a record: absent, unusable or good.
#[derive(Clone, Copy, Debug, PartialEq, Eq, Structural)]
pub enum UsageValue {
    Missing,
    Invalid,
    Valid(NormalizedTokenUsage),
}

/// Whose record it is.
#[derive(Debug, PartialEq, Eq)]
pub enum Ownership {
    Owning { thread_id: String },
    ReplayedAncestor,
    UnknownOwnership,
}

pub enum OwnershipFacts {
    Owning { thread_id: Seq<char> },
    ReplayedAncestor,
    UnknownOwnership,
}

impl DeepView for Ownership {
    type V = OwnershipFacts;

    open spec fn deep_view(&self) -> OwnershipFacts {
        match self {
            Ownership::Owning { thread_id } => OwnershipFacts::Owning { thread_id: thread_id@ },
            Ownership::ReplayedAncestor => OwnershipFacts::ReplayedAncestor,
            Ownership::UnknownOwnership => OwnershipFacts::UnknownOwnership,
        }
    }
}

impl Clone for Ownership {
    fn clone(&self) -> (r: Self)
        ensures
            r == *self,
    {
        match self {
            Ownership::Owning { thread_id } => Ownership::Owning { thread_id: thread_id.clone() },
            Ownership::ReplayedAncestor => Ownership::ReplayedAncestor,
            Ownership::UnknownOwnership => Ownership::UnknownOwnership,
        }
    }
}

#[derive(Clone, Copy, Debug, PartialEq, Eq, Structural)]
pub enum TurnEndStatus {
    Completed,
    Aborted,
    Failed,
}

#[derive(Clone, Copy, Debug, PartialEq, Eq, Structural)]
pub enum GapKind {
    Malformed,
    Oversized,
    Ownership,
    Parser,
    RequiredInvalid,
}

/// One record of the usage stream.
#[derive(Clone, Debug, PartialEq, Eq)]
pub enum UsageRecord {
    TurnContext { ownership: Ownership, model: Option<String>, reasoning_effort: Option<String> },
    TurnStarted {
        ownership: Ownership,
        turn_id: Option<String>,
        timestamp_ms: Option<i64>,
        start_offset: u64,
    },
    TokenCount {
        ownership: Ownership,
        timestamp_ms: Option<i64>,
        start_offset: u64,
        end_offset: u64,
        total: UsageValue,
        last: UsageValue,
    },
    TurnEnded {
        ownership: Ownership,
        turn_id: Option<String>,
        timestamp_ms: Option<i64>,
        start_offset: u64,
        end_offset: u64,
        status: TurnEndStatus,
    },
    Gap { ownership: Ownership, kind: GapKind },
}

/// What a record says besides whose it is.
pub enum RecordBody {
    TurnContext { model: Option<Seq<char>>, reasoning_effort: Option<Seq<char>> },
    TurnStarted { turn_id: Option<Seq<char>>, timestamp_ms: Option<i64>, start_offset: u64 },
    TokenCount {
        timestamp_ms: Option<i64>,
        start_offset: u64,
        end_offset: u64,
        total: UsageValue,
        last: UsageValue,
    },
    TurnEnded {
        turn_id: Option<Seq<char>>,
        timestamp_ms: Option<i64>,
        start_offset: u64,
        end_offset: u64,
        status: TurnEndStatus,
    },
    Gap { kind: GapKind },
}

pub struct RecordFacts {
    pub ownership: OwnershipFacts,
    pub body: RecordBody,
}

impl DeepView for UsageRecord {
    type V = RecordFacts;

    open spec fn deep_view(&self) -> RecordFacts {
        match self {
            UsageRecord::TurnContext { ownership, model, reasoning_effort } => RecordFacts {
                ownership: ownership.deep_view(),
                body: RecordBody::TurnContext {
                    model: model.deep_view(),
                    reasoning_effort: reasoning_effort.deep_view(),
                },
            },
            UsageRecord::TurnStarted { ownership, turn_id, timestamp_ms, start_offset } =>
            RecordFacts {
                ownership: ownership.deep_view(),
                body: RecordBody::TurnStarted {
                    turn_id: turn_id.deep_view(),
                    timestamp_ms: *timestamp_ms,
                    start_offset: *start_offset,
                },
            },
            UsageRecord::TokenCount {
                ownership,
                timestamp_ms,
                start_offset,
                end_offset,
                total,
                last,
            } => RecordFacts {
                ownership: ownership.deep_view(),
                body: RecordBody::TokenCount {
                    timestamp_ms: *timestamp_ms,
                    start_offset: *start_offset,
                    end_offset: *end_offset,
                    total: *total,
                    last: *last,
                },
            },
            UsageRecord::TurnEnded {
                ownership,
                turn_id,
                timestamp_ms,
                start_offset,
                end_offset,
                status,
            } => RecordFacts {
                ownership: ownership.deep_view(),
                body: RecordBody::TurnEnded {
                    turn_id: turn_id.deep_view(),
                    timestamp_ms: *timestamp_ms,
                    start_offset: *start_offset,
                    end_offset: *end_offset,
                    status: *status,
                },
            },
            UsageRecord::Gap { ownership, kind } => RecordFacts {
                ownership: ownership.deep_view(),
                body: RecordBody::Gap { kind: *kind },
            },
        }
    }
}

impl UsageRecord {
    pub fn ownership(&self) -> (r: &Ownership)
        ensures
            r.deep_view() == self.deep_view().ownership,
    {
        match self {
            UsageRecord::TurnContext { ownership, .. } => ownership,
            UsageRecord::TurnStarted { ownership, .. } => ownership,
            UsageRecord::TokenCount { ownership, .. } => ownership,
            UsageRecord::TurnEnded { ownership, .. } => ownership,
            UsageRecord::Gap { ownership, .. } => ownership,
        }
    }
}

/// Whether the chain of cumulative totals is unbroken.
#[derive(Clone, Copy, Debug, PartialEq, Eq, Structural)]
pub enum ChainState {
    Continuous,
    Interrupted(GapKind),
}

/// A usage event proposal.
#[derive(Debug, PartialEq, Eq)]
pub struct UsageEvent {
    pub event_id: String,
    pub kind: EventKind,
    pub occurred_at_ms: i64,
    pub thread_id: String,
    pub root_session_id: String,
    pub turn_key: Option<String>,
    pub model: String,
    pub reasoning_effort: Option<String>,
    pub usage: NormalizedTokenUsage,
    pub previous_total: Option<NormalizedTokenUsage>,
    pub current_total: NormalizedTokenUsage,
}

impl Clone for UsageEvent {
    fn clone(&self) -> (r: Self)
        ensures
            r == *self,
    {
        UsageEvent {
            event_id: self.event_id.clone(),
            kind: self.kind,
            occurred_at_ms: self.occurred_at_ms,
            thread_id: self.thread_id.clone(),
            root_session_id: self.root_session_id.clone(),
            turn_key: self.turn_key.clone(),
            model: self.model.clone(),
            reasoning_effort: self.reasoning_effort.clone(),
            usage: self.usage,
            previous_total: self.previous_total,
            current_total: self.current_total,
        }
    }
}

pub struct EventFacts {
    pub event_id: Seq<char>,
    pub kind: EventKind,
    pub occurred_at_ms: i64,
    pub thread_id: Seq<char>,
    pub root_session_id: Seq<char>,
    pub turn_key: Option<Seq<char>>,
    pub model: Seq<char>,
    pub reasoning_effort: Option<Seq<char>>,
    pub usage: NormalizedTokenUsage,
    pub previous_total: Option<NormalizedTokenUsage>,
    pub current_total: NormalizedTokenUsage,
}

impl DeepView for UsageEvent {
    type V = EventFacts;

    open spec fn deep_view(&self) -> EventFacts {
        EventFacts {
            event_id: self.event_id@,
            kind: self.kind,
            occurred_at_ms: self.occurred_at_ms,
            thread_id: self.thread_id@,
            root_session_id: self.root_session_id@,
            turn_key: self.turn_key.deep_view(),
            model: self.model@,
            reasoning_effort: self.reasoning_effort.deep_view(),
            usage: self.usage,
            previous_total: self.previous_total,
            current_total: self.current_total,
        }
    }
}

/// Where in a source an event was seen.
#[derive(Clone, Debug, PartialEq, Eq)]
pub struct Occurrence {
    pub source_file_id: i64,
    pub file_generation: i64,
    pub source_start_offset: u64,
    pub source_end_offset: u64,
    pub event_id: String,
}

pub struct OccurrenceFacts {
    pub source_file_id: i64,
    pub file_generation: i64,
    pub source_start_offset: u64,
    pub source_end_offset: u64,
    pub event_id: Seq<char>,
}

impl DeepView for Occurrence {
    type V = OccurrenceFacts;

    open spec fn deep_view(&self) -> OccurrenceFacts {
        OccurrenceFacts {
            source_file_id: self.source_file_id,
            file_generation: self.file_generation,
            source_start_offset: self.source_start_offset,
            source_end_offset: self.source_end_offset,
            event_id: self.event_id@,
        }
    }
}

#[derive(Clone, Copy, Debug, PartialEq, Eq, Structural)]
pub enum AnomalyCode {
    UsageTimeMissing,
    RequiredTotalInvalid,
    LastUsageInvalid,
    TotalChainReset,
    CacheWriteChainDecrease,
    TurnAccountedExceedsTotal,
    TurnCacheWriteDeltaNegative,
    TurnIdMismatch,
    TurnReplaced,
    ArithmeticOverflow,
}

#[derive(Clone, Debug, PartialEq, Eq)]
pub struct Anomaly {
    pub code: AnomalyCode,
    pub source_start_offset: Option<u64>,
    pub turn_key: Option<String>,
}

pub struct AnomalyFacts {
    pub code: AnomalyCode,
    pub source_start_offset: Option<u64>,
    pub turn_key: Option<Seq<char>>,
}

impl DeepView for Anomaly {
    type V = AnomalyFacts;

    open spec fn deep_view(&self) -> AnomalyFacts {
        AnomalyFacts {
            code: self.code,
            source_start_offset: self.source_start_offset,
            turn_key: self.turn_key.deep_view(),
        }
    }
}

/// Reasons for which the missing part of a turn may not be made up.
#[derive(Clone, Copy, Debug, PartialEq, Eq, Structural)]
pub struct CompensationBlocks {
    pub start_missing: bool,
    pub time_missing: bool,
    pub reset: bool,
    pub ownership_gap: bool,
    pub parser_gap: bool,
    pub required_invalid: bool,
    pub model_unresolved: bool,
}

pub open spec fn no_blocks() -> CompensationBlocks {
    CompensationBlocks {
        start_missing: false,
        time_missing: false,
        reset: false,
        ownership_gap: false,
        parser_gap: false,
        required_invalid: false,
        model_unresolved: false,
    }
}

impl Default for CompensationBlocks {
    fn default() -> (r: Self)
        ensures
            r == no_blocks(),
    {
        CompensationBlocks {
            start_missing: false,
            time_missing: false,
            reset: false,
            ownership_gap: false,
            parser_gap: false,
            required_invalid: false,
            model_unresolved: false,
        }
    }
}

impl CompensationBlocks {
    pub open spec fn with_gap(self, kind: GapKind) -> Self {
        match kind {
            GapKind::Ownership => CompensationBlocks { ownership_gap: true, ..self },
            GapKind::RequiredInvalid => CompensationBlocks { required_invalid: true, ..self },
            GapKind::Parser | GapKind::Malformed | GapKind::Oversized => CompensationBlocks {
                parser_gap: true,
                ..self
            },
        }
    }

    /// Nothing stands against compensation.
    pub fn allowed(self) -> (r: bool)
        ensures
            r == (self == no_blocks()),
    {
        !self.start_missing && !self.time_missing && !self.reset && !self.ownership_gap
            && !self.parser_gap && !self.required_invalid && !self.model_unresolved
    }

    pub fn observe_gap(&mut self, kind: GapKind)
        ensures
            *final(self) == old(self).with_gap(kind),
    {
        match kind {
            GapKind::Ownership => {
                self.ownership_gap = true;
            },
            GapKind::Parser | GapKind::Malformed | GapKind::Oversized => {
                self.parser_gap = true;
            },
            GapKind::RequiredInvalid => {
                self.required_invalid = true;
            },
        }
    }
}

#[derive(Debug, PartialEq, Eq)]
pub enum TurnModelState {
    Unseen,
    Single(String),
    Mixed,
}

#[derive(Debug, PartialEq, Eq)]
pub enum TurnReasoningEffortState {
    Unseen,
    Single(String),
    Mixed,
}

/// What a turn has been seen to use: nothing yet, one value, or several.
pub enum Attribution {
    Unseen,
    Single(Seq<char>),
    Mixed,
}

impl Attribution {
    pub open spec fn with(self, value: Seq<char>) -> Self {
        match self {
            Attribution::Unseen => Attribution::Single(value),
            Attribution::Single(existing) => if existing == value {
                self
            } else {
                Attribution::Mixed
            },
            Attribution::Mixed => Attribution::Mixed,
        }
    }
}

impl DeepView for TurnModelState {
    type V = Attribution;

    open spec fn deep_view(&self) -> Attribution {
        match self {
            TurnModelState::Unseen => Attribution::Unseen,
            TurnModelState::Single(s) => Attribution::Single(s@),
            TurnModelState::Mixed => Attribution::Mixed,
        }
    }
}

impl DeepView for TurnReasoningEffortState {
    type V = Attribution;

    open spec fn deep_view(&self) -> Attribution {
        match self {
            TurnReasoningEffortState::Unseen => Attribution::Unseen,
            TurnReasoningEffortState::Single(s) => Attribution::Single(s@),
            TurnReasoningEffortState::Mixed => Attribution::Mixed,
        }
    }
}

impl Clone for TurnModelState {
    fn clone(&self) -> (r: Self)
        ensures
            r == *self,
    {
        match self {
            TurnModelState::Unseen => TurnModelState::Unseen,
            TurnModelState::Single(s) => TurnModelState::Single(s.clone()),
            TurnModelState::Mixed => TurnModelState::Mixed,
        }
    }
}

impl Clone for TurnReasoningEffortState {
    fn clone(&self) -> (r: Self)
        ensures
            r == *self,
    {
        match self {
            TurnReasoningEffortState::Unseen => TurnReasoningEffortState::Unseen,
            TurnReasoningEffortState::Single(s) => TurnReasoningEffortState::Single(s.clone()),
            TurnReasoningEffortState::Mixed => TurnReasoningEffortState::Mixed,
        }
    }
}

/// The state of one turn.
#[derive(Debug, PartialEq, Eq)]
pub struct TurnState {
    pub turn_key: String,
    pub raw_turn_id: Option<String>,
    pub started_at_ms: Option<i64>,
    pub start_offset: u64,
    pub start_total: Option<NormalizedTokenUsage>,
    pub last_total: Option<NormalizedTokenUsage>,
    pub accounted: NormalizedTokenUsage,
    pub accounted_candidate_count: u64,
    pub model_state: TurnModelState,
    pub unresolved_model_seen: bool,
    pub reasoning_effort_state: TurnReasoningEffortState,
    pub unresolved_reasoning_effort_seen: bool,
    pub blocks: CompensationBlocks,
}

impl Clone for TurnState {
    fn clone(&self) -> (r: Self)
        ensures
            r == *self,
    {
        TurnState {
            turn_key: self.turn_key.clone(),
            raw_turn_id: self.raw_turn_id.clone(),
            started_at_ms: self.started_at_ms,
            start_offset: self.start_offset,
            start_total: self.start_total,
            last_total: self.last_total,
            accounted: self.accounted,
            accounted_candidate_count: self.accounted_candidate_count,
            model_state: self.model_state.clone(),
            unresolved_model_seen: self.unresolved_model_seen,
            reasoning_effort_state: self.reasoning_effort_state.clone(),
            unresolved_reasoning_effort_seen: self.unresolved_reasoning_effort_seen,
            blocks: self.blocks,
        }
    }
}

pub struct TurnFacts {
    pub turn_key: Seq<char>,
    pub raw_turn_id: Option<Seq<char>>,
    pub started_at_ms: Option<i64>,
    pub start_offset: u64,
    pub start_total: Option<NormalizedTokenUsage>,
    pub last_total: Option<NormalizedTokenUsage>,
    pub accounted: NormalizedTokenUsage,
    pub accounted_candidate_count: u64,
    pub models: Attribution,
    pub unresolved_model_seen: bool,
    pub efforts: Attribution,
    pub unresolved_reasoning_effort_seen: bool,
    pub blocks: CompensationBlocks,
}

impl DeepView for TurnState {
    type V = TurnFacts;

    open spec fn deep_view(&self) -> TurnFacts {
        TurnFacts {
            turn_key: self.turn_key@,
            raw_turn_id: self.raw_turn_id.deep_view(),
            started_at_ms: self.started_at_ms,
            start_offset: self.start_offset,
            start_total: self.start_total,
            last_total: self.last_total,
            accounted: self.accounted,
            accounted_candidate_count: self.accounted_candidate_count,
            models: self.model_state.deep_view(),
            unresolved_model_seen: self.unresolved_model_seen,
            efforts: self.reasoning_effort_state.deep_view(),
            unresolved_reasoning_effort_seen: self.unresolved_reasoning_effort_seen,
            blocks: self.blocks,
        }
    }
}

/// A turn that has ended.
#[derive(Clone, Debug, PartialEq, Eq)]
pub struct ClosedTurn {
    pub turn: TurnState,
    pub ended_at_ms: Option<i64>,
    pub end_offset: u64,
    pub status: TurnEndStatus,
}

pub struct ClosedTurnFacts {
    pub turn: TurnFacts,
    pub ended_at_ms: Option<i64>,
    pub end_offset: u64,
    pub status: TurnEndStatus,
}

impl DeepView for ClosedTurn {
    type V = ClosedTurnFacts;

    open spec fn deep_view(&self) -> ClosedTurnFacts {
        ClosedTurnFacts {
            turn: self.turn.deep_view(),
            ended_at_ms: self.ended_at_ms,
            end_offset: self.end_offset,
            status: self.status,
        }
    }
}

/// The restartable state of one source.
#[derive(Debug, PartialEq, Eq)]
pub struct UsageSourceState {
    pub chain_state: ChainState,
    pub previous_total: Option<NormalizedTokenUsage>,
    pub previous_total_offset: Option<u64>,
    pub active_model: Option<String>,
    pub active_reasoning_effort: Option<String>,
    pub open_turn: Option<TurnState>,
}

pub struct StateFacts {
    pub chain_state: ChainState,
    pub previous_total: Option<NormalizedTokenUsage>,
    pub previous_total_offset: Option<u64>,
    pub active_model: Option<Seq<char>>,
    pub active_reasoning_effort: Option<Seq<char>>,
    pub open_turn: Option<TurnFacts>,
}

impl DeepView for UsageSourceState {
    type V = StateFacts;

    open spec fn deep_view(&self) -> StateFacts {
        StateFacts {
            chain_state: self.chain_state,
            previous_total: self.previous_total,
            previous_total_offset: self.previous_total_offset,
            active_model: self.active_model.deep_view(),
            active_reasoning_effort: self.active_reasoning_effort.deep_view(),
            open_turn: self.open_turn.deep_view(),
        }
    }
}

pub open spec fn initial_state() -> StateFacts {
    StateFacts {
        chain_state: ChainState::Continuous,
        previous_total: None,
        previous_total_offset: None,
        active_model: None,
        active_reasoning_effort: None,
        open_turn: None,
    }
}

impl Default for UsageSourceState {
    fn default() -> (r: Self)
        ensures
            r.deep_view() == initial_state(),
    {
        UsageSourceState {
            chain_state: ChainState::Continuous,
            previous_total: None,
            previous_total_offset: None,
            active_model: None,
            active_reasoning_effort: None,
            open_turn: None,
        }
    }
}

impl Clone for UsageSourceState {
    fn clone(&self) -> (r: Self)
        ensures
            r == *self,
    {
        UsageSourceState {
            chain_state: self.chain_state,
            previous_total: self.previous_total,
            previous_total_offset: self.previous_total_offset,
            active_model: self.active_model.clone(),
            active_reasoning_effort: self.active_reasoning_effort.clone(),
            open_turn: match &self.open_turn {
                Some(turn) => Some(turn.clone()),
                None => None,
            },
        }
    }
}

/// Which source and thread the records belong to.
#[derive(Debug, PartialEq, Eq)]
pub struct UsageContext {
    pub source_file_id: i64,
    pub file_generation: i64,
    pub owning_thread_id: String,
    pub root_session_id: String,
}

pub struct ContextFacts {
    pub source_file_id: i64,
    pub file_generation: i64,
    pub owning_thread_id: Seq<char>,
    pub root_session_id: Seq<char>,
}

impl DeepView for UsageContext {
    type V = ContextFacts;

    open spec fn deep_view(&self) -> ContextFacts {
        ContextFacts {
            source_file_id: self.source_file_id,
            file_generation: self.file_generation,
            owning_thread_id: self.owning_thread_id@,
            root_session_id: self.root_session_id@,
        }
    }
}

impl Clone for UsageContext {
    fn clone(&self) -> (r: Self)
        ensures
            r == *self,
    {
        UsageContext {
            source_file_id: self.source_file_id,
            file_generation: self.file_generation,
            owning_thread_id: self.owning_thread_id.clone(),
            root_session_id: self.root_session_id.clone(),
        }
    }
}

/// What processing a run of records came to.
#[derive(Clone, Debug, PartialEq, Eq)]
pub struct ProcessResult {
    pub events: Vec<UsageEvent>,
    pub occurrences: Vec<Occurrence>,
    pub anomalies: Vec<Anomaly>,
    pub closed_turns: Vec<ClosedTurn>,
    pub updated_state: UsageSourceState,
    pub needs_rebuild: bool,
}

#[verifier::ext_equal]
pub struct ResultFacts {
    pub events: Seq<EventFacts>,
    pub occurrences: Seq<OccurrenceFacts>,
    pub anomalies: Seq<AnomalyFacts>,
    pub closed_turns: Seq<ClosedTurnFacts>,
    pub updated_state: StateFacts,
    pub needs_rebuild: bool,
}

impl DeepView for ProcessResult {
    type V = ResultFacts;

    open spec fn deep_view(&self) -> ResultFacts {
        ResultFacts {
            events: self.events.deep_view(),
            occurrences: self.occurrences.deep_view(),
            anomalies: self.anomalies.deep_view(),
            closed_turns: self.closed_turns.deep_view(),
            updated_state: self.updated_state.deep_view(),
            needs_rebuild: self.needs_rebuild,
        }
    }
}

/// Processes the usage records of one source.
pub struct UsageProcessor {
    context: UsageContext,
    state: UsageSourceState,
    events: Vec<UsageEvent>,
    occurrences: Vec<Occurrence>,
    anomalies: Vec<Anomaly>,
    closed_turns: Vec<ClosedTurn>,
}

/// What a processor holds between two records.
#[verifier::ext_equal]
pub struct Progress {
    pub context: ContextFacts,
    pub state: StateFacts,
    pub events: Seq<EventFacts>,
    pub occurrences: Seq<OccurrenceFacts>,
    pub anomalies: Seq<AnomalyFacts>,
    pub closed_turns: Seq<ClosedTurnFacts>,
}

impl View for UsageProcessor {
    type V = Progress;

    closed spec fn view(&self) -> Progress {
        Progress {
            context: self.context.deep_view(),
            state: self.state.deep_view(),
            events: self.events.deep_view(),
            occurrences: self.occurrences.deep_view(),
            anomalies: self.anomalies.deep_view(),
            closed_turns: self.closed_turns.deep_view(),
        }
    }
}

/// Why a difference or sum of totals could not be taken.
#[derive(Clone, Copy, Debug, PartialEq, Eq, Structural)]
pub enum ProcessorError {
    InvalidNormalizedTokenUsage,
    ArithmeticOverflow,
    NegativeDifference,
    CacheWriteNegativeDifference,
}

/// How a fault of the token arithmetic is classified.
pub open spec fn processor_error(fault: Fault) -> ProcessorError {
    match fault {
        Fault::InvalidValue { reason, .. } => if occurs(reason, "cache-write delta"@) {
            ProcessorError::CacheWriteNegativeDifference
        } else if occurs(reason, "negative delta"@) || occurs(
            reason,
            "delta must not be negative"@,
        ) {
            ProcessorError::NegativeDifference
        } else if occurs(reason, "overflow"@) {
            ProcessorError::ArithmeticOverflow
        } else {
            ProcessorError::InvalidNormalizedTokenUsage
        },
        _ => ProcessorError::InvalidNormalizedTokenUsage,
    }
}

impl From<DomainError> for ProcessorError {
    fn from(error: DomainError) -> (r: Self) {
        match error {
            DomainError::InvalidValue { reason, .. } => {
                if contains_text(reason.as_str(), "cache-write delta") {
                    ProcessorError::CacheWriteNegativeDifference
                } else if contains_text(reason.as_str(), "negative delta") || contains_text(
                    reason.as_str(),
                    "delta must not be negative",
                ) {
                    ProcessorError::NegativeDifference
                } else if contains_text(reason.as_str(), "overflow") {
                    ProcessorError::ArithmeticOverflow
                } else {
                    ProcessorError::InvalidNormalizedTokenUsage
                }
            },
            _ => ProcessorError::InvalidNormalizedTokenUsage,
        }
    }
}

impl FromSpecImpl<DomainError> for ProcessorError {
    open spec fn obeys_from_spec() -> bool {
        true
    }

    open spec fn from_spec(error: DomainError) -> ProcessorError {
        processor_error(error@)
    }
}

impl ProcessorError {
    pub open spec fn name(self) -> Seq<char> {
        match self {
            ProcessorError::InvalidNormalizedTokenUsage => "InvalidNormalizedTokenUsage"@,
            ProcessorError::ArithmeticOverflow => "ArithmeticOverflow"@,
            ProcessorError::NegativeDifference => "NegativeDifference"@,
            ProcessorError::CacheWriteNegativeDifference => "CacheWriteNegativeDifference"@,
        }
    }

    /// The error as text.
    pub fn to_text(&self) -> (r: String)
        ensures
            r@ == self.name(),
    {
        match self {
            ProcessorError::InvalidNormalizedTokenUsage => "InvalidNormalizedTokenUsage".to_owned(),
            ProcessorError::ArithmeticOverflow => "ArithmeticOverflow".to_owned(),
            ProcessorError::NegativeDifference => "NegativeDifference".to_owned(),
            ProcessorError::CacheWriteNegativeDifference =>
            "CacheWriteNegativeDifference".to_owned(),
        }
    }
}

/// Why `current - previous` cannot be taken, if it cannot.
#[verifier::opaque]
pub open spec fn difference_error(
    current: NormalizedTokenUsage,
    previous: NormalizedTokenUsage,
) -> Option<ProcessorError> {
    match difference_fault(current, previous) {
        Some(fault) => Some(processor_error(fault)),
        None => None,
    }
}

#[verifier::opaque]
pub open spec fn sum_error(left: NormalizedTokenUsage, right: NormalizedTokenUsage) -> Option<
    ProcessorError,
> {
    match sum_fault(left, right) {
        Some(fault) => Some(processor_error(fault)),
        None => None,
    }
}

fn processor_checked_add(left: &NormalizedTokenUsage, right: &NormalizedTokenUsage) -> (r: Result<
    NormalizedTokenUsage,
    ProcessorError,
>)
    ensures
        match sum_error(*left, *right) {
            Some(error) => r == Err::<NormalizedTokenUsage, ProcessorError>(error),
            None => r == Ok::<NormalizedTokenUsage, ProcessorError>(sum_of(*left, *right)),
        },
{
    reveal(sum_error);
    match left.checked_add(right) {
        Ok(value) => Ok(value),
        Err(error) => Err(ProcessorError::from(error)),
    }
}

fn processor_checked_sub(
    current: &NormalizedTokenUsage,
    previous: &NormalizedTokenUsage,
) -> (r: Result<NormalizedTokenUsage, ProcessorError>)
    ensures
        match difference_error(*current, *previous) {
            Some(error) => r == Err::<NormalizedTokenUsage, ProcessorError>(error),
            None => r == Ok::<NormalizedTokenUsage, ProcessorError>(
                difference_of(*current, *previous),
            ),
        },
{
    reveal(difference_error);
    match current.checked_sub(previous) {
        Ok(value) => Ok(value),
        Err(error) => Err(ProcessorError::from(error)),
    }
}

/// A required component went down.
pub open spec fn required_decreased(
    current: NormalizedTokenUsage,
    previous: NormalizedTokenUsage,
) -> bool {
    ||| current.input_tokens < previous.input_tokens
    ||| current.cached_tokens < previous.cached_tokens
    ||| current.output_tokens < previous.output_tokens
    ||| current.reasoning_tokens < previous.reasoning_tokens
}

/// The cache-write component is known on both sides and went down.
pub open spec fn cache_decreased(
    current: NormalizedTokenUsage,
    previous: NormalizedTokenUsage,
) -> bool {
    current.cache_write_tokens is Some && previous.cache_write_tokens is Some
        && current.cache_write_tokens->0 < previous.cache_write_tokens->0
}

pub open spec fn required_zero(value: NormalizedTokenUsage) -> bool {
    value.input_tokens == 0 && value.cached_tokens == 0 && value.output_tokens == 0
        && value.reasoning_tokens == 0
}

fn required_decreased_from(
    current: &NormalizedTokenUsage,
    previous: &NormalizedTokenUsage,
) -> (r: bool)
    ensures
        r == required_decreased(*current, *previous),
{
    current.input_tokens < previous.input_tokens || current.cached_tokens < previous.cached_tokens
        || current.output_tokens < previous.output_tokens || current.reasoning_tokens
        < previous.reasoning_tokens
}

fn required_is_zero(value: &NormalizedTokenUsage) -> (r: bool)
    ensures
        r == required_zero(*value),
{
    value.input_tokens == 0 && value.cached_tokens == 0 && value.output_tokens == 0
        && value.reasoning_tokens == 0
}

fn cache_decreased_from(current: &NormalizedTokenUsage, previous: &NormalizedTokenUsage) -> (r:
    bool)
    ensures
        r == cache_decreased(*current, *previous),
{
    match (current.cache_write_tokens, previous.cache_write_tokens) {
        (Some(current), Some(previous)) => current < previous,
        _ => false,
    }
}

/// The bytes that name a turn without an id of its own.
pub open spec fn synthetic_turn_bytes(
    thread_id: Seq<char>,
    start_offset: u64,
    timestamp_ms: Option<i64>,
) -> Seq<u8> {
    text_bytes("synthetic-turn-v1"@) + text_bytes(thread_id) + be64(start_offset)
        + optional_i64_bytes(timestamp_ms)
}

pub open spec fn synthetic_key(
    thread_id: Seq<char>,
    start_offset: u64,
    timestamp_ms: Option<i64>,
) -> Seq<char> {
    hex_lower(blake3_digest(synthetic_turn_bytes(thread_id, start_offset, timestamp_ms)))
}

/// The key of a turn that came without an id. It depends on the thread, the offset and the
/// time alone, so a copy of the rollout gives the same key.
pub fn synthetic_turn_key(thread_id: &str, start_offset: u64, timestamp_ms: Option<i64>) -> (r:
    String)
    ensures
        r@ == synthetic_key(thread_id@, start_offset, timestamp_ms),
{
    let mut bytes: Vec<u8> = Vec::new();
    push_text(&mut bytes, "synthetic-turn-v1");
    push_text(&mut bytes, thread_id);
    push_u64(&mut bytes, start_offset);
    crate::encoding::push_optional_i64(&mut bytes, timestamp_ms);
    assert(bytes@ =~= synthetic_turn_bytes(thread_id@, start_offset, timestamp_ms));
    blake3_hex(bytes.as_slice())
}

pub open spec fn kind_byte(kind: EventKind) -> u8 {
    match kind {
        EventKind::Normal => 0,
        EventKind::Recovered => 1,
        EventKind::TurnCompensation => 2,
    }
}

pub open spec fn vector_bytes(value: NormalizedTokenUsage) -> Seq<u8> {
    be_i64(value.input_tokens) + be_i64(value.cached_tokens) + optional_i64_bytes(
        value.cache_write_tokens,
    ) + be_i64(value.output_tokens) + be_i64(value.reasoning_tokens) + be_i64(value.total_tokens)
}

pub open spec fn optional_fingerprint_bytes(value: Option<NormalizedTokenUsage>) -> Seq<u8> {
    match value {
        Some(value) => seq![1u8] + fingerprint(value),
        None => seq![0u8],
    }
}

/// The canonical facts of an event, as bytes. Neither the source file nor the root session
/// is among them.
pub open spec fn event_bytes(event: EventFacts) -> Seq<u8> {
    text_bytes("usage-event-v2"@) + text_bytes(event.thread_id) + optional_text_bytes(
        event.turn_key,
    ) + seq![kind_byte(event.kind)] + be_i64(event.occurred_at_ms) + optional_fingerprint_bytes(
        event.previous_total,
    ) + fingerprint(event.current_total) + vector_bytes(event.usage) + text_bytes(event.model)
        + optional_text_bytes(event.reasoning_effort)
}

pub open spec fn canonical_id(event: EventFacts) -> Seq<char> {
    hex_lower(blake3_digest(event_bytes(event)))
}

fn push_vector(out: &mut Vec<u8>, value: &NormalizedTokenUsage)
    ensures
        final(out)@ == old(out)@ + vector_bytes(*value),
{
    push_i64(out, value.input_tokens);
    push_i64(out, value.cached_tokens);
    crate::encoding::push_optional_i64(out, value.cache_write_tokens);
    push_i64(out, value.output_tokens);
    push_i64(out, value.reasoning_tokens);
    push_i64(out, value.total_tokens);
    assert(out@ =~= old(out)@ + vector_bytes(*value));
}

fn push_fingerprint(out: &mut Vec<u8>, value: &NormalizedTokenUsage)
    ensures
        final(out)@ == old(out)@ + fingerprint(*value),
{
    let digest: [u8; 32] = usage_fingerprint(value);
    push_bytes(out, digest.as_slice());
}

fn push_optional_fingerprint(out: &mut Vec<u8>, value: &Option<NormalizedTokenUsage>)
    ensures
        final(out)@ == old(out)@ + optional_fingerprint_bytes(*value),
{
    match value {
        Some(value) => {
            push_byte(out, 1);
            push_fingerprint(out, value);
            assert(out@ =~= old(out)@ + optional_fingerprint_bytes(Some(*value)));
        },
        None => {
            push_byte(out, 0);
        },
    }
}

/// The identity of an event: a digest of its canonical facts.
pub fn event_id(event: &UsageEvent) -> (r: String)
    ensures
        r@ == canonical_id(event.deep_view()),
{
    let mut bytes: Vec<u8> = Vec::new();
    push_text(&mut bytes, "usage-event-v2");
    push_text(&mut bytes, event.thread_id.as_str());
    push_optional_text(&mut bytes, &event.turn_key);
    let kind: u8 = match event.kind {
        EventKind::Normal => 0,
        EventKind::Recovered => 1,
        EventKind::TurnCompensation => 2,
    };
    push_byte(&mut bytes, kind);
    push_i64(&mut bytes, event.occurred_at_ms);
    push_optional_fingerprint(&mut bytes, &event.previous_total);
    push_fingerprint(&mut bytes, &event.current_total);
    push_vector(&mut bytes, &event.usage);
    push_text(&mut bytes, event.model.as_str());
    push_optional_text(&mut bytes, &event.reasoning_effort);
    assert(bytes@ =~= event_bytes(event.deep_view()));
    blake3_hex(bytes.as_slice())
}

impl TurnFacts {
    pub open spec fn with_model(self, model: Seq<char>) -> Self {
        if model == "unknown"@ {
            TurnFacts {
                unresolved_model_seen: true,
                blocks: CompensationBlocks { model_unresolved: true, ..self.blocks },
                ..self
            }
        } else {
            TurnFacts { models: self.models.with(model), ..self }
        }
    }

    pub open spec fn with_effort(self, effort: Option<Seq<char>>) -> Self {
        match effort {
            Some(effort) => TurnFacts { efforts: self.efforts.with(effort), ..self },
            None => TurnFacts { unresolved_reasoning_effort_seen: true, ..self },
        }
    }

    /// The accounted vector once `usage` is added, or why it cannot be added.
    pub open spec fn accounting_error(self, usage: NormalizedTokenUsage) -> Option<ProcessorError> {
        if self.accounted_candidate_count > 0 && sum_error(self.accounted, usage) is Some {
            sum_error(self.accounted, usage)
        } else if self.accounted_candidate_count == u64::MAX {
            Some(ProcessorError::ArithmeticOverflow)
        } else {
            None
        }
    }

    pub open spec fn with_accounted(self, usage: NormalizedTokenUsage) -> Self {
        TurnFacts {
            accounted: if self.accounted_candidate_count == 0 {
                usage
            } else {
                sum_of(self.accounted, usage)
            },
            accounted_candidate_count: (self.accounted_candidate_count + 1) as u64,
            ..self
        }
    }

    pub open spec fn with_required_invalid(self) -> Self {
        TurnFacts {
            blocks: CompensationBlocks { required_invalid: true, ..self.blocks },
            ..self
        }
    }
}

fn observe_turn_model(turn: &mut TurnState, model: &str)
    ensures
        final(turn).deep_view() == old(turn).deep_view().with_model(model@),
{
    if same_text(model, "unknown") {
        turn.unresolved_model_seen = true;
        turn.blocks.model_unresolved = true;
        return ;
    }
    let next: TurnModelState = match &turn.model_state {
        TurnModelState::Unseen => TurnModelState::Single(model.to_owned()),
        TurnModelState::Single(existing) => {
            if same_text(existing.as_str(), model) {
                TurnModelState::Single(existing.clone())
            } else {
                TurnModelState::Mixed
            }
        },
        TurnModelState::Mixed => TurnModelState::Mixed,
    };
    turn.model_state = next;
}

fn observe_turn_reasoning_effort(turn: &mut TurnState, effort: &Option<String>)
    ensures
        final(turn).deep_view() == old(turn).deep_view().with_effort(effort.deep_view()),
{
    match effort {
        None => {
            turn.unresolved_reasoning_effort_seen = true;
        },
        Some(effort) => {
            let next: TurnReasoningEffortState = match &turn.reasoning_effort_state {
                TurnReasoningEffortState::Unseen => TurnReasoningEffortState::Single(effort.clone()),
                TurnReasoningEffortState::Single(existing) => {
                    if same_text(existing.as_str(), effort.as_str()) {
                        TurnReasoningEffortState::Single(existing.clone())
                    } else {
                        TurnReasoningEffortState::Mixed
                    }
                },
                TurnReasoningEffortState::Mixed => TurnReasoningEffortState::Mixed,
            };
            turn.reasoning_effort_state = next;
        },
    }
}

pub fn add_accounted(turn: &mut TurnState, usage: &NormalizedTokenUsage) -> (r: Result<
    (),
    ProcessorError,
>)
    ensures
        match old(turn).deep_view().accounting_error(*usage) {
            Some(error) => r == Err::<(), ProcessorError>(error) && *final(turn) == *old(turn),
            None => r is Ok && final(turn).deep_view() == old(turn).deep_view().with_accounted(
                *usage,
            ),
        },
{
    let next: NormalizedTokenUsage = if turn.accounted_candidate_count == 0 {
        *usage
    } else {
        match processor_checked_add(&turn.accounted, usage) {
            Ok(next) => next,
            Err(error) => {
                return Err(error);
            },
        }
    };
    if turn.accounted_candidate_count == u64::MAX {
        return Err(ProcessorError::ArithmeticOverflow);
    }
    turn.accounted = next;
    turn.accounted_candidate_count = turn.accounted_candidate_count + 1;
    Ok(())
}

/// The event proposed for a counted record.
pub struct Candidate {
    pub kind: EventKind,
    pub occurred_at_ms: i64,
    pub start_offset: u64,
    pub end_offset: u64,
    pub usage: NormalizedTokenUsage,
    pub previous_total: Option<NormalizedTokenUsage>,
    pub current_total: NormalizedTokenUsage,
}

pub open spec fn with_id(event: EventFacts) -> EventFacts {
    EventFacts { event_id: canonical_id(event), ..event }
}

impl Progress {
    pub open spec fn start(context: ContextFacts, state: StateFacts) -> Self {
        Progress {
            context,
            state,
            events: Seq::empty(),
            occurrences: Seq::empty(),
            anomalies: Seq::empty(),
            closed_turns: Seq::empty(),
        }
    }

    pub open spec fn turn_key(self) -> Option<Seq<char>> {
        match self.state.open_turn {
            Some(turn) => Some(turn.turn_key),
            None => None,
        }
    }

    pub open spec fn with_anomaly(self, code: AnomalyCode, offset: Option<u64>) -> Self {
        Progress {
            anomalies: self.anomalies.push(
                AnomalyFacts { code, source_start_offset: offset, turn_key: self.turn_key() },
            ),
            ..self
        }
    }

    pub open spec fn with_open_turn(self, turn: Option<TurnFacts>) -> Self {
        Progress { state: StateFacts { open_turn: turn, ..self.state }, ..self }
    }

    pub open spec fn with_blocked_turn(self) -> Self {
        match self.state.open_turn {
            Some(turn) => self.with_open_turn(Some(turn.with_required_invalid())),
            None => self,
        }
    }

    /// The total becomes the baseline of the chain and the latest total of the open turn.
    pub open spec fn with_baseline(self, total: NormalizedTokenUsage, offset: u64) -> Self {
        Progress {
            state: StateFacts {
                chain_state: ChainState::Continuous,
                previous_total: Some(total),
                previous_total_offset: Some(offset),
                open_turn: match self.state.open_turn {
                    Some(turn) => Some(TurnFacts { last_total: Some(total), ..turn }),
                    None => None,
                },
                ..self.state
            },
            ..self
        }
    }

    pub open spec fn with_gap(self, kind: GapKind) -> Self {
        Progress {
            state: StateFacts {
                chain_state: ChainState::Interrupted(kind),
                open_turn: match self.state.open_turn {
                    Some(turn) => Some(
                        TurnFacts { blocks: turn.blocks.with_gap(kind), ..turn },
                    ),
                    None => None,
                },
                ..self.state
            },
            ..self
        }
    }

    /// The model that usage is attributed to.
    pub open spec fn model(self) -> Seq<char> {
        match self.state.active_model {
            Some(model) => model,
            None => "unknown"@,
        }
    }

    /// The event of a candidate.
    pub open spec fn candidate_event(self, c: Candidate) -> EventFacts {
        with_id(
            EventFacts {
                event_id: Seq::empty(),
                kind: c.kind,
                occurred_at_ms: c.occurred_at_ms,
                thread_id: self.context.owning_thread_id,
                root_session_id: self.context.root_session_id,
                turn_key: self.turn_key(),
                model: self.model(),
                reasoning_effort: self.state.active_reasoning_effort,
                usage: c.usage,
                previous_total: c.previous_total,
                current_total: c.current_total,
            },
        )
    }

    /// An event is proposed together with the place where it was seen.
    pub open spec fn with_event(self, event: EventFacts, start_offset: u64, end_offset: u64) -> Self {
        Progress {
            events: self.events.push(event),
            occurrences: self.occurrences.push(
                OccurrenceFacts {
                    source_file_id: self.context.source_file_id,
                    file_generation: self.context.file_generation,
                    source_start_offset: start_offset,
                    source_end_offset: end_offset,
                    event_id: event.event_id,
                },
            ),
            ..self
        }
    }

    #[verifier::opaque]
    pub open spec fn with_candidate(self, c: Candidate) -> Self {
        let counted = match self.state.open_turn {
            Some(turn) => {
                let seen = turn.with_model(self.model()).with_effort(
                    self.state.active_reasoning_effort,
                );
                if seen.accounting_error(c.usage) is Some {
                    self.with_open_turn(
                        Some(
                            TurnFacts {
                                last_total: Some(c.current_total),
                                ..seen.with_required_invalid()
                            },
                        ),
                    ).with_anomaly(AnomalyCode::ArithmeticOverflow, Some(c.start_offset))
                } else {
                    self.with_open_turn(
                        Some(
                            TurnFacts {
                                last_total: Some(c.current_total),
                                ..seen.with_accounted(c.usage)
                            },
                        ),
                    )
                }
            },
            None => self,
        };
        counted.with_event(self.candidate_event(c), c.start_offset, c.end_offset)
    }

    pub open spec fn with_context(self, model: Option<Seq<char>>, effort: Option<Seq<char>>) -> Self {
        Progress {
            state: StateFacts {
                active_model: if model is Some && !blank(model->0) {
                    model
                } else {
                    self.state.active_model
                },
                active_reasoning_effort: effort,
                ..self.state
            },
            ..self
        }
    }

    /// The turn that opens here.
    pub open spec fn opened_turn(
        self,
        turn_id: Option<Seq<char>>,
        timestamp_ms: Option<i64>,
        offset: u64,
    ) -> TurnFacts {
        let start_total = if self.state.chain_state is Continuous {
            self.state.previous_total
        } else {
            None
        };
        let gap_blocks = match self.state.chain_state {
            ChainState::Continuous => no_blocks(),
            ChainState::Interrupted(kind) => no_blocks().with_gap(kind),
        };
        TurnFacts {
            turn_key: match turn_id {
                Some(id) => id,
                None => synthetic_key(self.context.owning_thread_id, offset, timestamp_ms),
            },
            raw_turn_id: turn_id,
            started_at_ms: timestamp_ms,
            start_offset: offset,
            start_total,
            last_total: None,
            accounted: zero_usage(),
            accounted_candidate_count: 0,
            models: Attribution::Unseen,
            unresolved_model_seen: false,
            efforts: Attribution::Unseen,
            unresolved_reasoning_effort_seen: false,
            blocks: CompensationBlocks {
                time_missing: timestamp_ms is None,
                start_missing: start_total is None,
                ..gap_blocks
            },
        }
    }

    #[verifier::opaque]
    pub open spec fn with_started_turn(
        self,
        turn_id: Option<Seq<char>>,
        timestamp_ms: Option<i64>,
        offset: u64,
    ) -> Self {
        let cleared = match self.state.open_turn {
            Some(old_turn) => {
                let noted = self.with_open_turn(None).with_anomaly(
                    AnomalyCode::TurnReplaced,
                    Some(offset),
                );
                Progress {
                    closed_turns: noted.closed_turns.push(
                        ClosedTurnFacts {
                            turn: old_turn.with_required_invalid(),
                            ended_at_ms: timestamp_ms,
                            end_offset: offset,
                            status: TurnEndStatus::Aborted,
                        },
                    ),
                    ..noted
                }
            },
            None => self,
        };
        cleared.with_open_turn(Some(self.opened_turn(turn_id, timestamp_ms, offset)))
    }

    /// A subagent that has not reached its first context reports totals it inherited.
    pub open spec fn before_own_context(self) -> bool {
        self.context.owning_thread_id != self.context.root_session_id
            && self.state.active_model is None
    }

    pub open spec fn with_invalid_last(self, last: UsageValue, offset: u64) -> Self {
        if last is Invalid {
            self.with_anomaly(AnomalyCode::LastUsageInvalid, Some(offset)).with_blocked_turn()
        } else {
            self
        }
    }

    /// One or more components of the total went down.
    pub open spec fn with_reset(
        self,
        required_reset: bool,
        cache_reset: bool,
        occurred_at_ms: i64,
        start_offset: u64,
        end_offset: u64,
        current: NormalizedTokenUsage,
        last: UsageValue,
    ) -> Self {
        let a = if required_reset {
            self.with_anomaly(AnomalyCode::TotalChainReset, Some(start_offset))
        } else {
            self
        };
        let b = if cache_reset {
            a.with_anomaly(AnomalyCode::CacheWriteChainDecrease, Some(start_offset))
        } else {
            a
        };
        let c = match b.state.open_turn {
            Some(turn) => b.with_open_turn(
                Some(
                    TurnFacts {
                        blocks: CompensationBlocks { reset: true, ..turn.blocks },
                        ..turn
                    },
                ),
            ),
            None => b,
        };
        let d = match last {
            UsageValue::Valid(usage) => c.with_candidate(
                Candidate {
                    kind: EventKind::Normal,
                    occurred_at_ms,
                    start_offset,
                    end_offset,
                    usage,
                    previous_total: self.state.previous_total,
                    current_total: current,
                },
            ),
            _ => c.with_invalid_last(last, start_offset),
        };
        d.with_baseline(current, end_offset)
    }

    /// A total that moved on from the previous one.
    pub open spec fn with_advance(
        self,
        occurred_at_ms: i64,
        start_offset: u64,
        end_offset: u64,
        current: NormalizedTokenUsage,
        last: UsageValue,
    ) -> (Self, Option<ProcessorError>) {
        let previous = self.state.previous_total;
        match last {
            UsageValue::Valid(usage) => (
                self.with_candidate(
                    Candidate {
                        kind: EventKind::Normal,
                        occurred_at_ms,
                        start_offset,
                        end_offset,
                        usage,
                        previous_total: previous,
                        current_total: current,
                    },
                ).with_baseline(current, end_offset),
                None,
            ),
            UsageValue::Missing => match previous {
                Some(before) => match difference_error(current, before) {
                    Some(error) => (self, Some(error)),
                    None => (
                        self.with_candidate(
                            Candidate {
                                kind: EventKind::Recovered,
                                occurred_at_ms,
                                start_offset,
                                end_offset,
                                usage: difference_of(current, before),
                                previous_total: previous,
                                current_total: current,
                            },
                        ).with_baseline(current, end_offset),
                        None,
                    ),
                },
                None => (self.with_baseline(current, end_offset), None),
            },
            UsageValue::Invalid => (
                self.with_invalid_last(last, start_offset).with_baseline(current, end_offset),
                None,
            ),
        }
    }

    /// The effect of a cumulative total, and the error it fails with if it does.
    #[verifier::opaque]
    pub open spec fn with_token_count(
        self,
        timestamp_ms: Option<i64>,
        start_offset: u64,
        end_offset: u64,
        total: UsageValue,
        last: UsageValue,
    ) -> (Self, Option<ProcessorError>) {
        if self.before_own_context() {
            match total {
                UsageValue::Valid(current) => (self.with_baseline(current, end_offset), None),
                _ => (self, None),
            }
        } else {
            match total {
                UsageValue::Missing | UsageValue::Invalid => (
                    self.with_anomaly(
                        AnomalyCode::RequiredTotalInvalid,
                        Some(start_offset),
                    ).with_gap(GapKind::RequiredInvalid),
                    None,
                ),
                UsageValue::Valid(current) => match timestamp_ms {
                    None => {
                        let noted = self.with_anomaly(
                            AnomalyCode::UsageTimeMissing,
                            Some(start_offset),
                        ).with_invalid_last(last, start_offset);
                        let timeless = match noted.state.open_turn {
                            Some(turn) => noted.with_open_turn(
                                Some(
                                    TurnFacts {
                                        blocks: CompensationBlocks {
                                            time_missing: true,
                                            ..turn.blocks
                                        },
                                        ..turn
                                    },
                                ),
                            ),
                            None => noted,
                        };
                        (timeless.with_baseline(current, end_offset), None)
                    },
                    Some(at) => if self.state.chain_state is Interrupted {
                        (self.with_baseline(current, end_offset), None)
                    } else {
                        let previous = self.state.previous_total;
                        let required_reset = previous is Some && required_decreased(
                            current,
                            previous->0,
                        );
                        let cache_reset = previous is Some && cache_decreased(current, previous->0);
                        if required_reset || cache_reset {
                            (
                                self.with_reset(
                                    required_reset,
                                    cache_reset,
                                    at,
                                    start_offset,
                                    end_offset,
                                    current,
                                    last,
                                ),
                                None,
                            )
                        } else if previous == Some(current) {
                            (self.with_baseline(current, end_offset), None)
                        } else {
                            self.with_advance(at, start_offset, end_offset, current, last)
                        }
                    },
                },
            }
        }
    }

    /// The model of a turn's compensation event, where the turn has one.
    pub open spec fn compensation_model(turn: TurnFacts) -> Option<Seq<char>> {
        match turn.models {
            Attribution::Single(model) => Some(model),
            Attribution::Mixed => Some("unknown"@),
            Attribution::Unseen => None,
        }
    }

    pub open spec fn compensation_effort(turn: TurnFacts) -> Option<Seq<char>> {
        if turn.unresolved_reasoning_effort_seen {
            None
        } else {
            match turn.efforts {
                Attribution::Single(effort) => Some(effort),
                _ => None,
            }
        }
    }

    /// The part of the turn's growth that its events do not account for, or why it is not
    /// known.
    pub open spec fn compensation_event(
        self,
        turn: TurnFacts,
        missing: NormalizedTokenUsage,
        model: Seq<char>,
        occurred_at_ms: i64,
    ) -> EventFacts {
        with_id(
            EventFacts {
                event_id: Seq::empty(),
                kind: EventKind::TurnCompensation,
                occurred_at_ms,
                thread_id: self.context.owning_thread_id,
                root_session_id: self.context.root_session_id,
                turn_key: Some(turn.turn_key),
                model,
                reasoning_effort: Self::compensation_effort(turn),
                usage: missing,
                previous_total: turn.start_total,
                current_total: turn.last_total->0,
            },
        )
    }

    /// The effect of compensating a turn: the progress, the turn, and the error if it fails.
    #[verifier::opaque]
    pub open spec fn with_compensation(
        self,
        turn: TurnFacts,
        occurred_at_ms: i64,
        start_offset: u64,
        end_offset: u64,
    ) -> (Self, TurnFacts, Option<ProcessorError>) {
        let start = turn.start_total->0;
        let end = turn.last_total->0;
        match difference_error(end, start) {
            Some(ProcessorError::NegativeDifference) => (
                self.with_anomaly(AnomalyCode::TotalChainReset, Some(start_offset)),
                turn,
                None,
            ),
            Some(ProcessorError::CacheWriteNegativeDifference) => (
                self.with_anomaly(AnomalyCode::TurnCacheWriteDeltaNegative, Some(start_offset)),
                turn,
                None,
            ),
            Some(error) => (self, turn, Some(error)),
            None => {
                let delta = difference_of(end, start);
                match difference_error(delta, turn.accounted) {
                    Some(ProcessorError::NegativeDifference) => (
                        self.with_anomaly(AnomalyCode::TurnAccountedExceedsTotal, Some(start_offset)),
                        turn,
                        None,
                    ),
                    Some(ProcessorError::CacheWriteNegativeDifference) => (
                        self.with_anomaly(AnomalyCode::TurnAccountedExceedsTotal, Some(start_offset)),
                        turn,
                        None,
                    ),
                    Some(error) => (self, turn, Some(error)),
                    None => {
                        let missing = difference_of(delta, turn.accounted);
                        let model = Self::compensation_model(turn);
                        if required_zero(missing) || model is None {
                            (self, turn, None)
                        } else if turn.accounting_error(missing) is Some {
                            (
                                Progress {
                                    anomalies: self.anomalies.push(
                                        AnomalyFacts {
                                            code: AnomalyCode::ArithmeticOverflow,
                                            source_start_offset: Some(start_offset),
                                            turn_key: Some(turn.turn_key),
                                        },
                                    ),
                                    ..self
                                },
                                turn.with_required_invalid(),
                                None,
                            )
                        } else {
                            (
                                self.with_event(
                                    self.compensation_event(
                                        turn,
                                        missing,
                                        model->0,
                                        occurred_at_ms,
                                    ),
                                    start_offset,
                                    end_offset,
                                ),
                                turn.with_accounted(missing),
                                None,
                            )
                        }
                    },
                }
            },
        }
    }

    /// The turn as it is when its end is reached.
    pub open spec fn ending_turn(turn: TurnFacts, timestamp_ms: Option<i64>) -> TurnFacts {
        TurnFacts {
            blocks: CompensationBlocks {
                time_missing: turn.blocks.time_missing || timestamp_ms is None,
                model_unresolved: turn.blocks.model_unresolved || turn.unresolved_model_seen,
                ..turn.blocks
            },
            ..turn
        }
    }

    pub open spec fn with_closed_turn(self, closed: ClosedTurnFacts) -> Self {
        Progress { closed_turns: self.closed_turns.push(closed), ..self }
    }

    #[verifier::opaque]
    pub open spec fn with_ended_turn(
        self,
        turn_id: Option<Seq<char>>,
        timestamp_ms: Option<i64>,
        start_offset: u64,
        end_offset: u64,
        status: TurnEndStatus,
    ) -> (Self, Option<ProcessorError>) {
        match self.state.open_turn {
            None => (self, None),
            Some(open) => {
                let taken = self.with_open_turn(None);
                if turn_id is Some && open.raw_turn_id != turn_id {
                    (
                        taken.with_anomaly(
                            AnomalyCode::TurnIdMismatch,
                            Some(start_offset),
                        ).with_open_turn(Some(open)),
                        None,
                    )
                } else {
                    let turn = Self::ending_turn(open, timestamp_ms);
                    if turn.blocks == no_blocks() && turn.start_total is Some
                        && turn.last_total is Some && timestamp_ms is Some {
                        let (after, ended, error) = taken.with_compensation(
                            turn,
                            timestamp_ms->0,
                            start_offset,
                            end_offset,
                        );
                        if error is Some {
                            (after, error)
                        } else {
                            (
                                after.with_closed_turn(
                                    ClosedTurnFacts {
                                        turn: ended,
                                        ended_at_ms: timestamp_ms,
                                        end_offset,
                                        status,
                                    },
                                ),
                                None,
                            )
                        }
                    } else {
                        (
                            taken.with_closed_turn(
                                ClosedTurnFacts {
                                    turn,
                                    ended_at_ms: timestamp_ms,
                                    end_offset,
                                    status,
                                },
                            ),
                            None,
                        )
                    }
                }
            },
        }
    }

    /// The effect of an owned record, and the error it fails with if it does.
    pub open spec fn with_body(self, body: RecordBody) -> (Self, Option<ProcessorError>) {
        match body {
            RecordBody::TurnContext { model, reasoning_effort } => (
                self.with_context(model, reasoning_effort),
                None,
            ),
            RecordBody::TurnStarted { turn_id, timestamp_ms, start_offset } => (
                self.with_started_turn(turn_id, timestamp_ms, start_offset),
                None,
            ),
            RecordBody::TokenCount { timestamp_ms, start_offset, end_offset, total, last } =>
            self.with_token_count(timestamp_ms, start_offset, end_offset, total, last),
            RecordBody::TurnEnded { turn_id, timestamp_ms, start_offset, end_offset, status } =>
            self.with_ended_turn(turn_id, timestamp_ms, start_offset, end_offset, status),
            RecordBody::Gap { kind } => (self.with_gap(kind), None),
        }
    }

    /// The effect of an owned record. An arithmetic failure is noted and blocks the turn.
    pub open spec fn with_owned(self, body: RecordBody) -> Self {
        let (after, error) = self.with_body(body);
        if error is Some {
            after.with_anomaly(AnomalyCode::ArithmeticOverflow, None).with_blocked_turn()
        } else {
            after
        }
    }

    /// The effect of any record. `None` when the source has to be rebuilt.
    pub open spec fn step(self, record: RecordFacts) -> Option<Self> {
        match record.ownership {
            OwnershipFacts::ReplayedAncestor => Some(self),
            OwnershipFacts::UnknownOwnership => None,
            OwnershipFacts::Owning { thread_id } => if thread_id
                != self.context.owning_thread_id {
                None
            } else {
                Some(self.with_owned(record.body))
            },
        }
    }

    /// The effect of a run of records, one after another.
    pub open spec fn run(self, records: Seq<RecordFacts>) -> Option<Self>
        decreases records.len(),
    {
        if records.len() == 0 {
            Some(self)
        } else {
            match self.run(records.drop_last()) {
                None => None,
                Some(before) => before.step(records.last()),
            }
        }
    }

    pub open spec fn result(self) -> ResultFacts {
        ResultFacts {
            events: self.events,
            occurrences: self.occurrences,
            anomalies: self.anomalies,
            closed_turns: self.closed_turns,
            updated_state: self.state,
            needs_rebuild: false,
        }
    }
}

/// The answer when a record cannot be attributed: nothing but the state as it was.
pub open spec fn rebuild_result(state: StateFacts) -> ResultFacts {
    ResultFacts {
        events: Seq::empty(),
        occurrences: Seq::empty(),
        anomalies: Seq::empty(),
        closed_turns: Seq::empty(),
        updated_state: state,
        needs_rebuild: true,
    }
}

/// What processing `records` from `from` comes to.
pub open spec fn processed(from: Progress, records: Seq<RecordFacts>) -> ResultFacts {
    match from.run(records) {
        Some(after) => after.result(),
        None => rebuild_result(from.state),
    }
}

fn rebuild(state: UsageSourceState) -> (r: ProcessResult)
    ensures
        r.deep_view() == rebuild_result(state.deep_view()),
{
    ProcessResult {
        events: Vec::new(),
        occurrences: Vec::new(),
        anomalies: Vec::new(),
        closed_turns: Vec::new(),
        updated_state: state,
        needs_rebuild: true,
    }
}

proof fn lemma_run_stays_refused(from: Progress, records: Seq<RecordFacts>, n: int)
    requires
        0 <= n <= records.len(),
        from.run(records.take(n)) is None,
    ensures
        from.run(records) is None,
    decreases records.len() - n,
{
    if n < records.len() {
        assert(records.take(n + 1).drop_last() =~= records.take(n));
        lemma_run_stays_refused(from, records, n + 1);
    } else {
        assert(records.take(n) =~= records);
    }
}

proof fn lemma_token_count_keeps_context(
    before: Progress,
    timestamp_ms: Option<i64>,
    start_offset: u64,
    end_offset: u64,
    total: UsageValue,
    last: UsageValue,
)
    ensures
        before.with_token_count(timestamp_ms, start_offset, end_offset, total, last).0.context
            == before.context,
{
    reveal(Progress::with_token_count);
    reveal(Progress::with_candidate);
}

proof fn lemma_ended_turn_keeps_context(
    before: Progress,
    turn_id: Option<Seq<char>>,
    timestamp_ms: Option<i64>,
    start_offset: u64,
    end_offset: u64,
    status: TurnEndStatus,
)
    ensures
        before.with_ended_turn(turn_id, timestamp_ms, start_offset, end_offset, status).0.context
            == before.context,
{
    reveal(Progress::with_ended_turn);
    reveal(Progress::with_compensation);
}

/// No record changes whose source is being processed.
proof fn lemma_owned_keeps_context(before: Progress, body: RecordBody)
    ensures
        before.with_owned(body).context == before.context,
{
    match body {
        RecordBody::TokenCount { timestamp_ms, start_offset, end_offset, total, last } => {
            lemma_token_count_keeps_context(
                before,
                timestamp_ms,
                start_offset,
                end_offset,
                total,
                last,
            );
        },
        RecordBody::TurnEnded { turn_id, timestamp_ms, start_offset, end_offset, status } => {
            lemma_ended_turn_keeps_context(
                before,
                turn_id,
                timestamp_ms,
                start_offset,
                end_offset,
                status,
            );
        },
        RecordBody::TurnStarted { turn_id, timestamp_ms, start_offset } => {
            reveal(Progress::with_started_turn);
        },
        _ => {},
    }
}

impl UsageProcessor {
    pub fn new(context: UsageContext, existing_state: Option<UsageSourceState>) -> (r: Self)
        ensures
            r@ == Progress::start(
                context.deep_view(),
                match existing_state {
                    Some(state) => state.deep_view(),
                    None => initial_state(),
                },
            ),
    {
        let state: UsageSourceState = match existing_state {
            Some(state) => state,
            None => UsageSourceState::default(),
        };
        UsageProcessor {
            context,
            state,
            events: Vec::new(),
            occurrences: Vec::new(),
            anomalies: Vec::new(),
            closed_turns: Vec::new(),
        }
    }

    /// Processes the records in order. A record of unknown or foreign ownership stops the run
    /// and asks for a rebuild from the state as it was.
    pub fn process(self, records: Vec<UsageRecord>) -> (r: ProcessResult)
        ensures
            r.deep_view() == processed(self@, records.deep_view()),
    {
        let ghost from: Progress = self@;
        let ghost all: Seq<RecordFacts> = records.deep_view();
        let original: UsageSourceState = self.state.clone();
        let mut current: UsageProcessor = self;
        let mut i: usize = 0;
        proof {
            assert(all.take(0) =~= Seq::<RecordFacts>::empty());
        }
        while i < records.len()
            invariant
                i <= records.len(),
                all == records.deep_view(),
                from == self@,
                from.run(all.take(i as int)) == Some(current@),
                current@.context == from.context,
                original.deep_view() == from.state,
            decreases records.len() - i,
        {
            let record: &UsageRecord = &records[i];
            proof {
                assert(all.take(i + 1).drop_last() =~= all.take(i as int));
                assert(all.take(i + 1).last() == record.deep_view());
            }
            let owned: bool = match record.ownership() {
                Ownership::ReplayedAncestor => false,
                Ownership::UnknownOwnership => {
                    proof {
                        lemma_run_stays_refused(from, all, i + 1);
                    }
                    return rebuild(original);
                },
                Ownership::Owning { thread_id } => {
                    if *thread_id != current.context.owning_thread_id {
                        proof {
                            lemma_run_stays_refused(from, all, i + 1);
                        }
                        return rebuild(original);
                    }
                    true
                },
            };
            if owned {
                proof {
                    lemma_owned_keeps_context(current@, record.deep_view().body);
                }
                if current.apply(record).is_err() {
                    current.anomaly(AnomalyCode::ArithmeticOverflow, None);
                    current.block_required();
                }
            }
            i = i + 1;
        }
        proof {
            assert(all.take(all.len() as int) =~= all);
        }
        ProcessResult {
            events: current.events,
            occurrences: current.occurrences,
            anomalies: current.anomalies,
            closed_turns: current.closed_turns,
            updated_state: current.state,
            needs_rebuild: false,
        }
    }

    fn apply(&mut self, record: &UsageRecord) -> (r: Result<(), ProcessorError>)
        ensures
            ({
                let (after, error) = old(self)@.with_body(record.deep_view().body);
                &&& final(self)@ == after
                &&& match error {
                    Some(error) => r == Err::<(), ProcessorError>(error),
                    None => r is Ok,
                }
            }),
    {
        match record {
            UsageRecord::TurnContext { model, reasoning_effort, .. } => {
                if let Some(model) = model {
                    if !is_blank(model.as_str()) {
                        self.state.active_model = Some(model.clone());
                    }
                }
                self.state.active_reasoning_effort = reasoning_effort.clone();
                Ok(())
            },
            UsageRecord::TurnStarted { turn_id, timestamp_ms, start_offset, .. } => {
                self.start_turn(turn_id, *timestamp_ms, *start_offset);
                Ok(())
            },
            UsageRecord::TokenCount {
                timestamp_ms,
                start_offset,
                end_offset,
                total,
                last,
                ..
            } => self.token_count(*timestamp_ms, *start_offset, *end_offset, *total, *last),
            UsageRecord::TurnEnded {
                turn_id,
                timestamp_ms,
                start_offset,
                end_offset,
                status,
                ..
            } => self.end_turn(turn_id, *timestamp_ms, *start_offset, *end_offset, *status),
            UsageRecord::Gap { kind, .. } => {
                self.gap(*kind);
                Ok(())
            },
        }
    }

    fn start_turn(&mut self, turn_id: &Option<String>, timestamp_ms: Option<i64>, offset: u64)
        ensures
            final(self)@ == old(self)@.with_started_turn(turn_id.deep_view(), timestamp_ms, offset),
    {
        reveal(Progress::with_started_turn);
        match self.state.open_turn.take() {
            Some(replaced) => {
                let mut turn: TurnState = replaced;
                turn.blocks.required_invalid = true;
                self.anomaly(AnomalyCode::TurnReplaced, Some(offset));
                self.close(
                    ClosedTurn {
                        turn,
                        ended_at_ms: timestamp_ms,
                        end_offset: offset,
                        status: TurnEndStatus::Aborted,
                    },
                );
            },
            None => {},
        }
        let key: String = match turn_id {
            Some(id) => id.clone(),
            None => synthetic_turn_key(
                self.context.owning_thread_id.as_str(),
                offset,
                timestamp_ms,
            ),
        };
        let mut blocks: CompensationBlocks = CompensationBlocks::default();
        if timestamp_ms.is_none() {
            blocks.time_missing = true;
        }
        let start_total: Option<NormalizedTokenUsage> = match self.state.chain_state {
            ChainState::Continuous => self.state.previous_total,
            ChainState::Interrupted(kind) => {
                blocks.observe_gap(kind);
                None
            },
        };
        if start_total.is_none() {
            blocks.start_missing = true;
        }
        self.state.open_turn =
        Some(
            TurnState {
                turn_key: key,
                raw_turn_id: turn_id.clone(),
                started_at_ms: timestamp_ms,
                start_offset: offset,
                start_total,
                last_total: None,
                accounted: NormalizedTokenUsage::zero(),
                accounted_candidate_count: 0,
                model_state: TurnModelState::Unseen,
                unresolved_model_seen: false,
                reasoning_effort_state: TurnReasoningEffortState::Unseen,
                unresolved_reasoning_effort_seen: false,
                blocks,
            },
        );
    }

    fn gap(&mut self, kind: GapKind)
        ensures
            final(self)@ == old(self)@.with_gap(kind),
    {
        self.state.chain_state = ChainState::Interrupted(kind);
        if let Some(turn) = &mut self.state.open_turn {
            turn.blocks.observe_gap(kind);
        }
    }

    fn token_count(
        &mut self,
        timestamp_ms: Option<i64>,
        start_offset: u64,
        end_offset: u64,
        total: UsageValue,
        last: UsageValue,
    ) -> (r: Result<(), ProcessorError>)
        ensures
            ({
                let (after, error) = old(self)@.with_token_count(
                    timestamp_ms,
                    start_offset,
                    end_offset,
                    total,
                    last,
                );
                &&& final(self)@ == after
                &&& match error {
                    Some(error) => r == Err::<(), ProcessorError>(error),
                    None => r is Ok,
                }
            }),
    {
        reveal(Progress::with_token_count);
        if self.context.owning_thread_id != self.context.root_session_id
            && self.state.active_model.is_none() {
            if let UsageValue::Valid(current) = total {
                self.set_baseline(current, end_offset);
            }
            return Ok(());
        }
        let current: NormalizedTokenUsage = match total {
            UsageValue::Valid(value) => value,
            UsageValue::Missing | UsageValue::Invalid => {
                self.anomaly(AnomalyCode::RequiredTotalInvalid, Some(start_offset));
                self.gap(GapKind::RequiredInvalid);
                return Ok(());
            },
        };
        let occurred_at_ms: i64 = match timestamp_ms {
            Some(at) => at,
            None => {
                self.anomaly(AnomalyCode::UsageTimeMissing, Some(start_offset));
                self.invalid_last(last, start_offset);
                if let Some(turn) = &mut self.state.open_turn {
                    turn.blocks.time_missing = true;
                }
                self.set_baseline(current, end_offset);
                return Ok(());
            },
        };
        if let ChainState::Interrupted(_) = self.state.chain_state {
            self.set_baseline(current, end_offset);
            return Ok(());
        }
        let previous: Option<NormalizedTokenUsage> = self.state.previous_total;
        let (required_reset, cache_reset): (bool, bool) = match &previous {
            Some(before) => (
                required_decreased_from(&current, before),
                cache_decreased_from(&current, before),
            ),
            None => (false, false),
        };
        if required_reset || cache_reset {
            self.reset(
                required_reset,
                cache_reset,
                occurred_at_ms,
                start_offset,
                end_offset,
                current,
                last,
            );
            return Ok(());
        }
        if let Some(before) = previous {
            if before == current {
                self.set_baseline(current, end_offset);
                return Ok(());
            }
        }
        self.advance(occurred_at_ms, start_offset, end_offset, current, last)
    }

    fn reset(
        &mut self,
        required_reset: bool,
        cache_reset: bool,
        occurred_at_ms: i64,
        start_offset: u64,
        end_offset: u64,
        current: NormalizedTokenUsage,
        last: UsageValue,
    )
        ensures
            final(self)@ == old(self)@.with_reset(
                required_reset,
                cache_reset,
                occurred_at_ms,
                start_offset,
                end_offset,
                current,
                last,
            ),
    {
        let previous: Option<NormalizedTokenUsage> = self.state.previous_total;
        if required_reset {
            self.anomaly(AnomalyCode::TotalChainReset, Some(start_offset));
        }
        if cache_reset {
            self.anomaly(AnomalyCode::CacheWriteChainDecrease, Some(start_offset));
        }
        if let Some(turn) = &mut self.state.open_turn {
            turn.blocks.reset = true;
        }
        match last {
            UsageValue::Valid(usage) => {
                self.emit_candidate(
                    Candidate {
                        kind: EventKind::Normal,
                        occurred_at_ms,
                        start_offset,
                        end_offset,
                        usage,
                        previous_total: previous,
                        current_total: current,
                    },
                );
            },
            _ => {
                self.invalid_last(last, start_offset);
            },
        }
        self.set_baseline(current, end_offset);
    }

    fn advance(
        &mut self,
        occurred_at_ms: i64,
        start_offset: u64,
        end_offset: u64,
        current: NormalizedTokenUsage,
        last: UsageValue,
    ) -> (r: Result<(), ProcessorError>)
        ensures
            ({
                let (after, error) = old(self)@.with_advance(
                    occurred_at_ms,
                    start_offset,
                    end_offset,
                    current,
                    last,
                );
                &&& final(self)@ == after
                &&& match error {
                    Some(error) => r == Err::<(), ProcessorError>(error),
                    None => r is Ok,
                }
            }),
    {
        let previous: Option<NormalizedTokenUsage> = self.state.previous_total;
        match last {
            UsageValue::Valid(usage) => {
                self.emit_candidate(
                    Candidate {
                        kind: EventKind::Normal,
                        occurred_at_ms,
                        start_offset,
                        end_offset,
                        usage,
                        previous_total: previous,
                        current_total: current,
                    },
                );
            },
            UsageValue::Missing => {
                if let Some(before) = previous {
                    let usage: NormalizedTokenUsage = match processor_checked_sub(
                        &current,
                        &before,
                    ) {
                        Ok(usage) => usage,
                        Err(error) => {
                            return Err(error);
                        },
                    };
                    self.emit_candidate(
                        Candidate {
                            kind: EventKind::Recovered,
                            occurred_at_ms,
                            start_offset,
                            end_offset,
                            usage,
                            previous_total: previous,
                            current_total: current,
                        },
                    );
                }
            },
            UsageValue::Invalid => {
                self.invalid_last(last, start_offset);
            },
        }
        self.set_baseline(current, end_offset);
        Ok(())
    }

    fn invalid_last(&mut self, last: UsageValue, start_offset: u64)
        ensures
            final(self)@ == old(self)@.with_invalid_last(last, start_offset),
    {
        if let UsageValue::Invalid = last {
            self.anomaly(AnomalyCode::LastUsageInvalid, Some(start_offset));
            self.block_required();
        }
    }

    fn emit_candidate(&mut self, input: Candidate)
        ensures
            final(self)@ == old(self)@.with_candidate(input),
    {
        reveal(Progress::with_candidate);
        let model: String = match &self.state.active_model {
            Some(model) => model.clone(),
            None => "unknown".to_owned(),
        };
        let reasoning_effort: Option<String> = self.state.active_reasoning_effort.clone();
        let turn_key: Option<String> = self.open_turn_key();
        let mut event: UsageEvent = UsageEvent {
            event_id: String::new(),
            kind: input.kind,
            occurred_at_ms: input.occurred_at_ms,
            thread_id: self.context.owning_thread_id.clone(),
            root_session_id: self.context.root_session_id.clone(),
            turn_key,
            model: model.clone(),
            reasoning_effort: reasoning_effort.clone(),
            usage: input.usage,
            previous_total: input.previous_total,
            current_total: input.current_total,
        };
        event.event_id = event_id(&event);
        let mut overflow: bool = false;
        if let Some(turn) = &mut self.state.open_turn {
            observe_turn_model(turn, model.as_str());
            observe_turn_reasoning_effort(turn, &reasoning_effort);
            if add_accounted(turn, &input.usage).is_err() {
                turn.blocks.required_invalid = true;
                overflow = true;
            }
            turn.last_total = Some(input.current_total);
        }
        if overflow {
            self.anomaly(AnomalyCode::ArithmeticOverflow, Some(input.start_offset));
        }
        self.propose(event, input.start_offset, input.end_offset);
    }

    fn propose(&mut self, event: UsageEvent, start_offset: u64, end_offset: u64)
        ensures
            final(self)@ == old(self)@.with_event(event.deep_view(), start_offset, end_offset),
    {
        self.occurrences.push(
            Occurrence {
                source_file_id: self.context.source_file_id,
                file_generation: self.context.file_generation,
                source_start_offset: start_offset,
                source_end_offset: end_offset,
                event_id: event.event_id.clone(),
            },
        );
        self.events.push(event);
        assert(self@ =~= old(self)@.with_event(event.deep_view(), start_offset, end_offset));
    }

    fn close(&mut self, closed: ClosedTurn)
        ensures
            final(self)@ == old(self)@.with_closed_turn(closed.deep_view()),
    {
        self.closed_turns.push(closed);
        assert(self@ =~= old(self)@.with_closed_turn(closed.deep_view()));
    }

    fn end_turn(
        &mut self,
        turn_id: &Option<String>,
        timestamp_ms: Option<i64>,
        start_offset: u64,
        end_offset: u64,
        status: TurnEndStatus,
    ) -> (r: Result<(), ProcessorError>)
        ensures
            ({
                let (after, error) = old(self)@.with_ended_turn(
                    turn_id.deep_view(),
                    timestamp_ms,
                    start_offset,
                    end_offset,
                    status,
                );
                &&& final(self)@ == after
                &&& match error {
                    Some(error) => r == Err::<(), ProcessorError>(error),
                    None => r is Ok,
                }
            }),
    {
        reveal(Progress::with_ended_turn);
        let mut turn: TurnState = match self.state.open_turn.take() {
            Some(turn) => turn,
            None => {
                return Ok(());
            },
        };
        if turn_id.is_some() && !same_optional_text(&turn.raw_turn_id, turn_id) {
            self.anomaly(AnomalyCode::TurnIdMismatch, Some(start_offset));
            self.state.open_turn = Some(turn);
            return Ok(());
        }
        if timestamp_ms.is_none() {
            turn.blocks.time_missing = true;
        }
        if turn.unresolved_model_seen {
            turn.blocks.model_unresolved = true;
        }
        if turn.blocks.allowed() {
            if let (Some(start), Some(end), Some(ended_at)) = (
                turn.start_total,
                turn.last_total,
                timestamp_ms,
            ) {
                match self.compensate(&mut turn, &start, &end, ended_at, start_offset, end_offset) {
                    Ok(()) => {},
                    Err(error) => {
                        return Err(error);
                    },
                }
            }
        }
        self.close(ClosedTurn { turn, ended_at_ms: timestamp_ms, end_offset, status });
        Ok(())
    }

    fn compensate(
        &mut self,
        turn: &mut TurnState,
        start: &NormalizedTokenUsage,
        end: &NormalizedTokenUsage,
        occurred_at_ms: i64,
        start_offset: u64,
        end_offset: u64,
    ) -> (r: Result<(), ProcessorError>)
        requires
            old(turn).start_total == Some(*start),
            old(turn).last_total == Some(*end),
        ensures
            ({
                let (after, ended, error) = old(self)@.with_compensation(
                    old(turn).deep_view(),
                    occurred_at_ms,
                    start_offset,
                    end_offset,
                );
                &&& final(self)@ == after
                &&& final(turn).deep_view() == ended
                &&& match error {
                    Some(error) => r == Err::<(), ProcessorError>(error),
                    None => r is Ok,
                }
            }),
    {
        reveal(Progress::with_compensation);
        let delta: NormalizedTokenUsage = match processor_checked_sub(end, start) {
            Ok(delta) => delta,
            Err(ProcessorError::NegativeDifference) => {
                self.anomaly(AnomalyCode::TotalChainReset, Some(start_offset));
                return Ok(());
            },
            Err(ProcessorError::CacheWriteNegativeDifference) => {
                self.anomaly(AnomalyCode::TurnCacheWriteDeltaNegative, Some(start_offset));
                return Ok(());
            },
            Err(error) => {
                return Err(error);
            },
        };
        let missing: NormalizedTokenUsage = match processor_checked_sub(&delta, &turn.accounted) {
            Ok(missing) => missing,
            Err(ProcessorError::NegativeDifference) => {
                self.anomaly(AnomalyCode::TurnAccountedExceedsTotal, Some(start_offset));
                return Ok(());
            },
            Err(ProcessorError::CacheWriteNegativeDifference) => {
                self.anomaly(AnomalyCode::TurnAccountedExceedsTotal, Some(start_offset));
                return Ok(());
            },
            Err(error) => {
                return Err(error);
            },
        };
        if required_is_zero(&missing) {
            return Ok(());
        }
        let model: String = match &turn.model_state {
            TurnModelState::Single(model) => model.clone(),
            TurnModelState::Mixed => "unknown".to_owned(),
            TurnModelState::Unseen => {
                return Ok(());
            },
        };
        let reasoning_effort: Option<String> = if turn.unresolved_reasoning_effort_seen {
            None
        } else {
            match &turn.reasoning_effort_state {
                TurnReasoningEffortState::Single(effort) => Some(effort.clone()),
                TurnReasoningEffortState::Unseen | TurnReasoningEffortState::Mixed => None,
            }
        };
        let mut event: UsageEvent = UsageEvent {
            event_id: String::new(),
            kind: EventKind::TurnCompensation,
            occurred_at_ms,
            thread_id: self.context.owning_thread_id.clone(),
            root_session_id: self.context.root_session_id.clone(),
            turn_key: Some(turn.turn_key.clone()),
            model,
            reasoning_effort,
            usage: missing,
            previous_total: Some(*start),
            current_total: *end,
        };
        event.event_id = event_id(&event);
        if add_accounted(turn, &missing).is_err() {
            turn.blocks.required_invalid = true;
            let ghost before = self.anomalies.deep_view();
            self.anomalies.push(
                Anomaly {
                    code: AnomalyCode::ArithmeticOverflow,
                    source_start_offset: Some(start_offset),
                    turn_key: Some(turn.turn_key.clone()),
                },
            );
            assert(self.anomalies.deep_view() =~= before.push(
                AnomalyFacts {
                    code: AnomalyCode::ArithmeticOverflow,
                    source_start_offset: Some(start_offset),
                    turn_key: Some(turn.turn_key@),
                },
            ));
            return Ok(());
        }
        self.propose(event, start_offset, end_offset);
        Ok(())
    }

    fn set_baseline(&mut self, total: NormalizedTokenUsage, offset: u64)
        ensures
            final(self)@ == old(self)@.with_baseline(total, offset),
    {
        if let Some(turn) = &mut self.state.open_turn {
            turn.last_total = Some(total);
        }
        self.state.previous_total = Some(total);
        self.state.previous_total_offset = Some(offset);
        self.state.chain_state = ChainState::Continuous;
    }

    fn block_required(&mut self)
        ensures
            final(self)@ == old(self)@.with_blocked_turn(),
    {
        if let Some(turn) = &mut self.state.open_turn {
            turn.blocks.required_invalid = true;
        }
    }

    fn open_turn_key(&self) -> (r: Option<String>)
        ensures
            r.deep_view() == self@.turn_key(),
    {
        match &self.state.open_turn {
            Some(turn) => Some(turn.turn_key.clone()),
            None => None,
        }
    }

    fn anomaly(&mut self, code: AnomalyCode, offset: Option<u64>)
        ensures
            final(self)@ == old(self)@.with_anomaly(code, offset),
    {
        let turn_key: Option<String> = self.open_turn_key();
        self.anomalies.push(Anomaly { code, source_start_offset: offset, turn_key });
        assert(self@ =~= old(self)@.with_anomaly(code, offset));
    }
}

/// What to do with a fact that may already be stored.
#[derive(Clone, Copy, Debug, PartialEq, Eq, Structural)]
pub enum CanonicalDecision {
    Insert,
    Duplicate,
    Conflict,
}

fn same_event(a: &UsageEvent, b: &UsageEvent) -> (r: bool)
    ensures
        r == (a.deep_view() == b.deep_view()),
{
    a.event_id == b.event_id && a.kind == b.kind && a.occurred_at_ms == b.occurred_at_ms
        && a.thread_id == b.thread_id && a.root_session_id == b.root_session_id
        && same_optional_text(&a.turn_key, &b.turn_key) && a.model == b.model
        && same_optional_text(&a.reasoning_effort, &b.reasoning_effort) && a.usage == b.usage
        && same_optional_usage(&a.previous_total, &b.previous_total) && a.current_total
        == b.current_total
}

pub fn same_optional_usage(
    a: &Option<NormalizedTokenUsage>,
    b: &Option<NormalizedTokenUsage>,
) -> (r: bool)
    ensures
        r == (*a == *b),
{
    match (a, b) {
        (Some(a), Some(b)) => *a == *b,
        (None, None) => true,
        _ => false,
    }
}

/// An event is new, the same as the stored one, or in conflict with it.
pub fn compare_canonical(existing: Option<&UsageEvent>, incoming: &UsageEvent) -> (r:
    CanonicalDecision)
    ensures
        r == match existing {
            None => CanonicalDecision::Insert,
            Some(existing) => if existing.deep_view() == incoming.deep_view() {
                CanonicalDecision::Duplicate
            } else {
                CanonicalDecision::Conflict
            },
        },
{
    match existing {
        None => CanonicalDecision::Insert,
        Some(existing) => if same_event(existing, incoming) {
            CanonicalDecision::Duplicate
        } else {
            CanonicalDecision::Conflict
        },
    }
}

/// An occurrence is new, the same as the stored one, or in conflict with it.
pub fn compare_occurrence(existing: Option<&Occurrence>, incoming: &Occurrence) -> (r:
    CanonicalDecision)
    ensures
        r == match existing {
            None => CanonicalDecision::Insert,
            Some(existing) => if existing.event_id@ == incoming.event_id@
                && existing.source_end_offset == incoming.source_end_offset {
                CanonicalDecision::Duplicate
            } else {
                CanonicalDecision::Conflict
            },
        },
{
    match existing {
        None => CanonicalDecision::Insert,
        Some(existing) => if existing.event_id == incoming.event_id
            && existing.source_end_offset == incoming.source_end_offset {
            CanonicalDecision::Duplicate
        } else {
            CanonicalDecision::Conflict
        },
    }
}

} // verus!
