//! What storage takes for one commit of usage.
use vstd::prelude::*;

use crate::domain::CheckpointProcessingStatus;
use crate::token_usage::{EventKind, NormalizedTokenUsage};
#[allow(unused_imports)]
use super::usage_processor::Attribution;
use super::usage_processor::{TurnModelState, TurnReasoningEffortState};

verus! {

/// How the bytes after the last complete line look.
#[derive(Clone, Copy, Debug, PartialEq, Eq, Structural)]
pub enum UsageTailStatus {
    Unverified,
    NoTail,
    HalfLine,
}

/// Whose records come next.
#[derive(Clone, Copy, Debug, PartialEq, Eq, Structural)]
pub enum UsageContinuationState {
    ReplayedAncestor,
    OwningLive,
}

/// Why a chain of totals is interrupted.
#[derive(Clone, Copy, Debug, PartialEq, Eq, Structural)]
pub enum UsageGapReason {
    Malformed,
    Oversized,
    TotalInvalid,
    OwnershipGap,
    ParserGap,
}

/// Whether the chain of totals is unbroken.
#[derive(Clone, Copy, Debug, PartialEq, Eq, Structural)]
pub enum UsageChainState {
    Continuous,
    Interrupted(UsageGapReason),
}

/// Where a turn stands.
#[derive(Clone, Copy, Debug, PartialEq, Eq, Structural)]
pub enum UsageTurnStatus {
    Open,
    Completed,
    Aborted,
    Failed,
}

/// What is out of order.
#[derive(Clone, Copy, Debug, PartialEq, Eq, Structural)]
pub enum UsageAnomalyKind {
    UsageTimeMissing,
    RequiredTotalInvalid,
    LastUsageInvalid,
    TotalChainReset,
    CacheWriteChainDecrease,
    TurnAccountedExceedsTotal,
    TurnCacheWriteDeltaNegative,
    TurnIdMismatch,
    TurnReplaced,
    ArithmeticOverflow,
}

/// Reasons for which the missing part of a turn may not be made up.
#[derive(Clone, Copy, Debug, PartialEq, Eq, Structural)]
pub struct UsageCompensationBlocks {
    pub start_missing: bool,
    pub time_missing: bool,
    pub reset: bool,
    pub ownership_gap: bool,
    pub parser_gap: bool,
    pub required_invalid: bool,
    pub model_unresolved: bool,
}

/// What a price list makes of an event.
#[derive(Clone, Copy, Debug, PartialEq, Eq, Structural)]
pub enum CostEstimate {
    /// Billionths of a dollar.
    Known(i64),
    Unknown,
    Failed,
}

/// A vector of counts with its fingerprint.
#[derive(Clone, Debug, PartialEq, Eq)]
pub struct UsageSnapshot {
    pub vector: NormalizedTokenUsage,
    pub fingerprint: Vec<u8>,
}

#[verifier::ext_equal]
pub struct SnapshotFacts {
    pub vector: NormalizedTokenUsage,
    pub fingerprint: Seq<u8>,
}

impl DeepView for UsageSnapshot {
    type V = SnapshotFacts;

    open spec fn deep_view(&self) -> SnapshotFacts {
        SnapshotFacts {
            vector: self.vector,
            fingerprint: self.fingerprint@,
        }
    }
}

/// The state of a source.
#[derive(Clone, Debug, PartialEq, Eq)]
pub struct UsageSourceStateWrite {
    pub file_generation: i64,
    pub device_id: i64,
    pub inode: i64,
    pub usage_parser_version: i64,
    pub canonical_algorithm_version: i64,
    pub resolved_through_offset: i64,
    pub observed_raw_size: i64,
    pub raw_tail_status: UsageTailStatus,
    pub raw_tail_start_offset: Option<i64>,
    pub owning_thread_id: String,
    pub root_session_id: String,
    pub continuation_state: UsageContinuationState,
    pub previous_total: Option<UsageSnapshot>,
    pub previous_total_offset: Option<i64>,
    pub chain_state: UsageChainState,
    pub active_turn_key: Option<String>,
    pub active_model: Option<String>,
    pub active_model_offset: Option<i64>,
    pub active_reasoning_effort: Option<String>,
    pub active_reasoning_effort_offset: Option<i64>,
    pub updated_at_ms: i64,
}

#[verifier::ext_equal]
pub struct StateWriteFacts {
    pub file_generation: i64,
    pub device_id: i64,
    pub inode: i64,
    pub usage_parser_version: i64,
    pub canonical_algorithm_version: i64,
    pub resolved_through_offset: i64,
    pub observed_raw_size: i64,
    pub raw_tail_status: UsageTailStatus,
    pub raw_tail_start_offset: Option<i64>,
    pub owning_thread_id: Seq<char>,
    pub root_session_id: Seq<char>,
    pub continuation_state: UsageContinuationState,
    pub previous_total: Option<SnapshotFacts>,
    pub previous_total_offset: Option<i64>,
    pub chain_state: UsageChainState,
    pub active_turn_key: Option<Seq<char>>,
    pub active_model: Option<Seq<char>>,
    pub active_model_offset: Option<i64>,
    pub active_reasoning_effort: Option<Seq<char>>,
    pub active_reasoning_effort_offset: Option<i64>,
    pub updated_at_ms: i64,
}

impl DeepView for UsageSourceStateWrite {
    type V = StateWriteFacts;

    open spec fn deep_view(&self) -> StateWriteFacts {
        StateWriteFacts {
            file_generation: self.file_generation,
            device_id: self.device_id,
            inode: self.inode,
            usage_parser_version: self.usage_parser_version,
            canonical_algorithm_version: self.canonical_algorithm_version,
            resolved_through_offset: self.resolved_through_offset,
            observed_raw_size: self.observed_raw_size,
            raw_tail_status: self.raw_tail_status,
            raw_tail_start_offset: self.raw_tail_start_offset,
            owning_thread_id: self.owning_thread_id@,
            root_session_id: self.root_session_id@,
            continuation_state: self.continuation_state,
            previous_total: self.previous_total.deep_view(),
            previous_total_offset: self.previous_total_offset,
            chain_state: self.chain_state,
            active_turn_key: self.active_turn_key.deep_view(),
            active_model: self.active_model.deep_view(),
            active_model_offset: self.active_model_offset,
            active_reasoning_effort: self.active_reasoning_effort.deep_view(),
            active_reasoning_effort_offset: self.active_reasoning_effort_offset,
            updated_at_ms: self.updated_at_ms,
        }
    }
}

/// A turn.
#[derive(Clone, Debug, PartialEq, Eq)]
pub struct UsageTurnWrite {
    pub turn_key: String,
    pub raw_turn_id: Option<String>,
    pub started_at_ms: Option<i64>,
    pub ended_at_ms: Option<i64>,
    pub start_offset: i64,
    pub end_offset: Option<i64>,
    pub status: UsageTurnStatus,
    pub start_total: Option<UsageSnapshot>,
    pub last_total: Option<UsageSnapshot>,
    pub accounted: UsageSnapshot,
    pub accounted_candidate_count: i64,
    pub model_state: TurnModelState,
    pub reasoning_effort_state: TurnReasoningEffortState,
    pub unresolved_reasoning_effort_seen: bool,
    pub unresolved_model_seen: bool,
    pub blocks: UsageCompensationBlocks,
    pub quality_status: &'static str,
    pub state_through_offset: i64,
    pub updated_at_ms: i64,
}

#[verifier::ext_equal]
pub struct TurnWriteFacts {
    pub turn_key: Seq<char>,
    pub raw_turn_id: Option<Seq<char>>,
    pub started_at_ms: Option<i64>,
    pub ended_at_ms: Option<i64>,
    pub start_offset: i64,
    pub end_offset: Option<i64>,
    pub status: UsageTurnStatus,
    pub start_total: Option<SnapshotFacts>,
    pub last_total: Option<SnapshotFacts>,
    pub accounted: SnapshotFacts,
    pub accounted_candidate_count: i64,
    pub model_state: Attribution,
    pub reasoning_effort_state: Attribution,
    pub unresolved_reasoning_effort_seen: bool,
    pub unresolved_model_seen: bool,
    pub blocks: UsageCompensationBlocks,
    pub quality_status: Seq<char>,
    pub state_through_offset: i64,
    pub updated_at_ms: i64,
}

impl DeepView for UsageTurnWrite {
    type V = TurnWriteFacts;

    open spec fn deep_view(&self) -> TurnWriteFacts {
        TurnWriteFacts {
            turn_key: self.turn_key@,
            raw_turn_id: self.raw_turn_id.deep_view(),
            started_at_ms: self.started_at_ms,
            ended_at_ms: self.ended_at_ms,
            start_offset: self.start_offset,
            end_offset: self.end_offset,
            status: self.status,
            start_total: self.start_total.deep_view(),
            last_total: self.last_total.deep_view(),
            accounted: self.accounted.deep_view(),
            accounted_candidate_count: self.accounted_candidate_count,
            model_state: self.model_state.deep_view(),
            reasoning_effort_state: self.reasoning_effort_state.deep_view(),
            unresolved_reasoning_effort_seen: self.unresolved_reasoning_effort_seen,
            unresolved_model_seen: self.unresolved_model_seen,
            blocks: self.blocks,
            quality_status: self.quality_status@,
            state_through_offset: self.state_through_offset,
            updated_at_ms: self.updated_at_ms,
        }
    }
}

/// A usage event.
#[derive(Clone, Debug, PartialEq, Eq)]
pub struct UsageEventWrite {
    pub event_id: String,
    pub kind: EventKind,
    pub occurred_at_ms: i64,
    pub thread_id: String,
    pub root_session_id: String,
    pub turn_key: Option<String>,
    pub model: String,
    pub reasoning_effort: Option<String>,
    pub estimated_cost_nanos_usd: Option<i64>,
    pub usage: NormalizedTokenUsage,
    pub created_at_ms: i64,
}

#[verifier::ext_equal]
pub struct EventWriteFacts {
    pub event_id: Seq<char>,
    pub kind: EventKind,
    pub occurred_at_ms: i64,
    pub thread_id: Seq<char>,
    pub root_session_id: Seq<char>,
    pub turn_key: Option<Seq<char>>,
    pub model: Seq<char>,
    pub reasoning_effort: Option<Seq<char>>,
    pub estimated_cost_nanos_usd: Option<i64>,
    pub usage: NormalizedTokenUsage,
    pub created_at_ms: i64,
}

impl DeepView for UsageEventWrite {
    type V = EventWriteFacts;

    open spec fn deep_view(&self) -> EventWriteFacts {
        EventWriteFacts {
            event_id: self.event_id@,
            kind: self.kind,
            occurred_at_ms: self.occurred_at_ms,
            thread_id: self.thread_id@,
            root_session_id: self.root_session_id@,
            turn_key: self.turn_key.deep_view(),
            model: self.model@,
            reasoning_effort: self.reasoning_effort.deep_view(),
            estimated_cost_nanos_usd: self.estimated_cost_nanos_usd,
            usage: self.usage,
            created_at_ms: self.created_at_ms,
        }
    }
}

/// Where an event was seen.
#[derive(Clone, Debug, PartialEq, Eq)]
pub struct UsageOccurrenceWrite {
    pub source_file_id: i64,
    pub file_generation: i64,
    pub source_start_offset: i64,
    pub source_end_offset: i64,
    pub event_id: String,
}

#[verifier::ext_equal]
pub struct OccurrenceWriteFacts {
    pub source_file_id: i64,
    pub file_generation: i64,
    pub source_start_offset: i64,
    pub source_end_offset: i64,
    pub event_id: Seq<char>,
}

impl DeepView for UsageOccurrenceWrite {
    type V = OccurrenceWriteFacts;

    open spec fn deep_view(&self) -> OccurrenceWriteFacts {
        OccurrenceWriteFacts {
            source_file_id: self.source_file_id,
            file_generation: self.file_generation,
            source_start_offset: self.source_start_offset,
            source_end_offset: self.source_end_offset,
            event_id: self.event_id@,
        }
    }
}

/// A skill in use.
#[derive(Clone, Debug, PartialEq, Eq)]
pub struct SkillUsageEventWrite {
    pub occurred_at_ms: i64,
    pub thread_id: String,
    pub root_session_id: String,
    pub model: Option<String>,
    pub skill_name: String,
    pub source_file_id: i64,
    pub file_generation: i64,
    pub source_start_offset: i64,
    pub source_end_offset: i64,
}

#[verifier::ext_equal]
pub struct SkillWriteFacts {
    pub occurred_at_ms: i64,
    pub thread_id: Seq<char>,
    pub root_session_id: Seq<char>,
    pub model: Option<Seq<char>>,
    pub skill_name: Seq<char>,
    pub source_file_id: i64,
    pub file_generation: i64,
    pub source_start_offset: i64,
    pub source_end_offset: i64,
}

impl DeepView for SkillUsageEventWrite {
    type V = SkillWriteFacts;

    open spec fn deep_view(&self) -> SkillWriteFacts {
        SkillWriteFacts {
            occurred_at_ms: self.occurred_at_ms,
            thread_id: self.thread_id@,
            root_session_id: self.root_session_id@,
            model: self.model.deep_view(),
            skill_name: self.skill_name@,
            source_file_id: self.source_file_id,
            file_generation: self.file_generation,
            source_start_offset: self.source_start_offset,
            source_end_offset: self.source_end_offset,
        }
    }
}

/// Something out of order.
#[derive(Clone, Debug, PartialEq, Eq)]
pub struct UsageAnomalyWrite {
    pub anomaly_id: String,
    pub detected_at_ms: i64,
    pub occurred_at_ms: Option<i64>,
    pub kind: UsageAnomalyKind,
    pub severity_error: bool,
    pub source_start_offset: Option<i64>,
}

#[verifier::ext_equal]
pub struct AnomalyWriteFacts {
    pub anomaly_id: Seq<char>,
    pub detected_at_ms: i64,
    pub occurred_at_ms: Option<i64>,
    pub kind: UsageAnomalyKind,
    pub severity_error: bool,
    pub source_start_offset: Option<i64>,
}

impl DeepView for UsageAnomalyWrite {
    type V = AnomalyWriteFacts;

    open spec fn deep_view(&self) -> AnomalyWriteFacts {
        AnomalyWriteFacts {
            anomaly_id: self.anomaly_id@,
            detected_at_ms: self.detected_at_ms,
            occurred_at_ms: self.occurred_at_ms,
            kind: self.kind,
            severity_error: self.severity_error,
            source_start_offset: self.source_start_offset,
        }
    }
}

/// The checkpoint that storage is expected to hold.
#[derive(Clone, Debug, PartialEq, Eq)]
pub struct UsageCheckpointExpectation {
    pub parser_version: i64,
    pub committed_offset: i64,
    pub guard_hash: Option<Vec<u8>>,
    pub processing_status: CheckpointProcessingStatus,
}

#[verifier::ext_equal]
pub struct ExpectationFacts {
    pub parser_version: i64,
    pub committed_offset: i64,
    pub guard_hash: Option<Seq<u8>>,
    pub processing_status: CheckpointProcessingStatus,
}

impl DeepView for UsageCheckpointExpectation {
    type V = ExpectationFacts;

    open spec fn deep_view(&self) -> ExpectationFacts {
        ExpectationFacts {
            parser_version: self.parser_version,
            committed_offset: self.committed_offset,
            guard_hash: self.guard_hash.deep_view(),
            processing_status: self.processing_status,
        }
    }
}

/// The commit of one source.
#[derive(Clone, Debug, PartialEq, Eq)]
pub struct UsageSourceCommit {
    pub source_file_id: i64,
    pub expected_file_generation: i64,
    pub expected_previous_thread_id: Option<String>,
    pub expected_checkpoint: UsageCheckpointExpectation,
    pub expected_checkpoint_missing: bool,
    pub expected_state: Option<UsageSourceStateWrite>,
    pub local_replay: bool,
    pub batch_start_offset: i64,
    pub fixed_observed_raw_size: i64,
    pub last_complete_offset: i64,
    pub source_bytes_consumed: i64,
    pub complete_line_count: i64,
    pub candidate_count: i64,
    pub replayed_prefix_bytes: i64,
    pub replayed_prefix_lines: i64,
    pub fixed_view_exhausted: bool,
    pub tail_status: UsageTailStatus,
    pub tail_start_offset: Option<i64>,
    pub events: Vec<UsageEventWrite>,
    pub occurrences: Vec<UsageOccurrenceWrite>,
    pub skill_events: Vec<SkillUsageEventWrite>,
    pub turns: Vec<UsageTurnWrite>,
    pub anomalies: Vec<UsageAnomalyWrite>,
    pub updated_state: UsageSourceStateWrite,
    pub next_guard_hash: Option<Vec<u8>>,
    pub committed_at_ms: i64,
}

#[verifier::ext_equal]
pub struct SourceCommitFacts {
    pub source_file_id: i64,
    pub expected_file_generation: i64,
    pub expected_previous_thread_id: Option<Seq<char>>,
    pub expected_checkpoint: ExpectationFacts,
    pub expected_checkpoint_missing: bool,
    pub expected_state: Option<StateWriteFacts>,
    pub local_replay: bool,
    pub batch_start_offset: i64,
    pub fixed_observed_raw_size: i64,
    pub last_complete_offset: i64,
    pub source_bytes_consumed: i64,
    pub complete_line_count: i64,
    pub candidate_count: i64,
    pub replayed_prefix_bytes: i64,
    pub replayed_prefix_lines: i64,
    pub fixed_view_exhausted: bool,
    pub tail_status: UsageTailStatus,
    pub tail_start_offset: Option<i64>,
    pub events: Seq<EventWriteFacts>,
    pub occurrences: Seq<OccurrenceWriteFacts>,
    pub skill_events: Seq<SkillWriteFacts>,
    pub turns: Seq<TurnWriteFacts>,
    pub anomalies: Seq<AnomalyWriteFacts>,
    pub updated_state: StateWriteFacts,
    pub next_guard_hash: Option<Seq<u8>>,
    pub committed_at_ms: i64,
}

impl DeepView for UsageSourceCommit {
    type V = SourceCommitFacts;

    open spec fn deep_view(&self) -> SourceCommitFacts {
        SourceCommitFacts {
            source_file_id: self.source_file_id,
            expected_file_generation: self.expected_file_generation,
            expected_previous_thread_id: self.expected_previous_thread_id.deep_view(),
            expected_checkpoint: self.expected_checkpoint.deep_view(),
            expected_checkpoint_missing: self.expected_checkpoint_missing,
            expected_state: self.expected_state.deep_view(),
            local_replay: self.local_replay,
            batch_start_offset: self.batch_start_offset,
            fixed_observed_raw_size: self.fixed_observed_raw_size,
            last_complete_offset: self.last_complete_offset,
            source_bytes_consumed: self.source_bytes_consumed,
            complete_line_count: self.complete_line_count,
            candidate_count: self.candidate_count,
            replayed_prefix_bytes: self.replayed_prefix_bytes,
            replayed_prefix_lines: self.replayed_prefix_lines,
            fixed_view_exhausted: self.fixed_view_exhausted,
            tail_status: self.tail_status,
            tail_start_offset: self.tail_start_offset,
            events: self.events.deep_view(),
            occurrences: self.occurrences.deep_view(),
            skill_events: self.skill_events.deep_view(),
            turns: self.turns.deep_view(),
            anomalies: self.anomalies.deep_view(),
            updated_state: self.updated_state.deep_view(),
            next_guard_hash: self.next_guard_hash.deep_view(),
            committed_at_ms: self.committed_at_ms,
        }
    }
}

/// The commits of the sources of one thread.
#[derive(Clone, Debug, PartialEq, Eq)]
pub struct UsageCommitBatch {
    pub ledger_epoch: i64,
    pub usage_parser_version: i64,
    pub thread_id: String,
    pub root_session_id: String,
    pub sources: Vec<UsageSourceCommit>,
}

#[verifier::ext_equal]
pub struct BatchFacts {
    pub ledger_epoch: i64,
    pub usage_parser_version: i64,
    pub thread_id: Seq<char>,
    pub root_session_id: Seq<char>,
    pub sources: Seq<SourceCommitFacts>,
}

impl DeepView for UsageCommitBatch {
    type V = BatchFacts;

    open spec fn deep_view(&self) -> BatchFacts {
        BatchFacts {
            ledger_epoch: self.ledger_epoch,
            usage_parser_version: self.usage_parser_version,
            thread_id: self.thread_id@,
            root_session_id: self.root_session_id@,
            sources: self.sources.deep_view(),
        }
    }
}

} // verus!
