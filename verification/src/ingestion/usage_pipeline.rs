//! Usage processing of one fixed view of a rollout file.
//!
//! The scanner supplies complete lines together with who owns them. This module turns such
//! a chunk into what storage commits for the one source.
use vstd::prelude::*;
use vstd::std_specs::convert::FromSpecImpl;
use vstd::string::*;

use crate::normalization::canonical_algorithm_for;
#[allow(unused_imports)]
use crate::normalization::canonical_algorithm;
use crate::rollout::{EnvelopeKind, RecordOwnership};
use crate::rollout_parser::{RecordClassification, Span};
#[allow(unused_imports)]
use crate::json::json_document;
#[allow(unused_imports)]
use crate::usage::{raw_record, EvidenceFacts, RawFacts};
use crate::usage::{
    CodexRolloutParser, CompleteUsageLine, LifecycleKind, NormalizedTokenValue, OptionalTokenValue,
    SkillUsageEvidence, UsageRawRecord,
};
use super::usage_processor::{
    Anomaly, ClosedTurn, GapKind, Occurrence, Ownership, ProcessResult, TurnEndStatus, TurnState,
    UsageContext, UsageEvent, UsageProcessor, UsageRecord, UsageSourceState, UsageValue,
};
#[allow(unused_imports)]
use super::usage_processor::{
    initial_state, processed, AnomalyFacts, ClosedTurnFacts, ContextFacts, EventFacts,
    OccurrenceFacts, OwnershipFacts, Progress, RecordBody, RecordFacts, ResultFacts, StateFacts,
    TurnFacts,
};

verus! {

/// A skill in use, with where it was seen.
#[derive(Clone, Debug, PartialEq, Eq)]
pub struct SkillUsageEvent {
    pub occurred_at_ms: i64,
    pub thread_id: String,
    pub root_session_id: String,
    pub model: Option<String>,
    pub skill_name: String,
    pub source_file_id: i64,
    pub file_generation: i64,
    pub source_start_offset: u64,
    pub source_end_offset: u64,
}

pub struct SkillFacts {
    pub occurred_at_ms: i64,
    pub thread_id: Seq<char>,
    pub root_session_id: Seq<char>,
    pub model: Option<Seq<char>>,
    pub skill_name: Seq<char>,
    pub source_file_id: i64,
    pub file_generation: i64,
    pub at: Span,
}

impl DeepView for SkillUsageEvent {
    type V = SkillFacts;

    open spec fn deep_view(&self) -> SkillFacts {
        SkillFacts {
            occurred_at_ms: self.occurred_at_ms,
            thread_id: self.thread_id@,
            root_session_id: self.root_session_id@,
            model: self.model.deep_view(),
            skill_name: self.skill_name@,
            source_file_id: self.source_file_id,
            file_generation: self.file_generation,
            at: Span { start: self.source_start_offset, end: self.source_end_offset },
        }
    }
}

pub const MAX_BATCH_BYTES: u64 = 4194304;

pub const MAX_BATCH_LINES: u64 = 4096;

pub const MAX_BATCH_CANDIDATES: u64 = 2048;

pub const MAX_LEGAL_LINE_BYTES: u64 = 8388608;

#[derive(Clone, Copy, Debug, PartialEq, Eq, Structural)]
pub enum PlanAction {
    ReadFrom,
    BuildFrom,
    LocalReplay,
    AwaitOwningMeta,
    ResumeOwningLive,
    VerifyRawTail,
    CompleteOnly,
    BeginCarry,
    ResumeCarry,
    Skip,
    BlockedRelationship,
    RebuildRequired,
}

#[derive(Clone, Copy, Debug, PartialEq, Eq, Structural)]
pub enum CheckpointStatus {
    Pending,
    Ready,
    Error,
    RebuildRequired,
}

#[derive(Clone, Copy, Debug, PartialEq, Eq, Structural)]
pub enum SourceContinuationState {
    ReplayedAncestor,
    OwningLive,
}

/// The checkpoint that storage is expected to hold.
#[derive(Clone, Debug, PartialEq, Eq)]
pub struct CheckpointExpectation {
    pub parser_version: i64,
    pub committed_offset: u64,
    pub guard_hash: Option<Vec<u8>>,
    pub status: CheckpointStatus,
}

pub struct CheckpointFacts {
    pub parser_version: i64,
    pub committed_offset: u64,
    pub guard_hash: Option<Seq<u8>>,
    pub status: CheckpointStatus,
}

impl DeepView for CheckpointExpectation {
    type V = CheckpointFacts;

    open spec fn deep_view(&self) -> CheckpointFacts {
        CheckpointFacts {
            parser_version: self.parser_version,
            committed_offset: self.committed_offset,
            guard_hash: self.guard_hash.deep_view(),
            status: self.status,
        }
    }
}

/// How the bytes after the last complete line look.
#[derive(Clone, Copy, Debug, PartialEq, Eq, Structural)]
pub enum TailStatus {
    Unverified,
    NoTail,
    HalfLine,
}

/// The state of a source with what proves that it still fits the file.
#[derive(Debug, PartialEq, Eq)]
pub struct SourceStateProof {
    pub file_generation: i64,
    pub device_id: i64,
    pub inode: i64,
    pub parser_version: i64,
    pub canonical_algorithm_version: i64,
    pub resolved_through_offset: u64,
    pub observed_raw_size: u64,
    pub raw_tail_status: TailStatus,
    pub raw_tail_start_offset: Option<u64>,
    pub owning_thread_id: String,
    pub root_session_id: String,
    pub continuation_state: SourceContinuationState,
    pub processor_state: UsageSourceState,
    pub active_model_offset: Option<u64>,
    pub active_reasoning_effort_offset: Option<u64>,
    pub updated_at_ms: i64,
}

pub struct ProofFacts {
    pub file_generation: i64,
    pub device_id: i64,
    pub inode: i64,
    pub parser_version: i64,
    pub canonical_algorithm_version: i64,
    pub resolved_through_offset: u64,
    pub observed_raw_size: u64,
    pub raw_tail_status: TailStatus,
    pub raw_tail_start_offset: Option<u64>,
    pub owning_thread_id: Seq<char>,
    pub root_session_id: Seq<char>,
    pub continuation_state: SourceContinuationState,
    pub processor_state: StateFacts,
    pub active_model_offset: Option<u64>,
    pub active_reasoning_effort_offset: Option<u64>,
    pub updated_at_ms: i64,
}

impl DeepView for SourceStateProof {
    type V = ProofFacts;

    open spec fn deep_view(&self) -> ProofFacts {
        ProofFacts {
            file_generation: self.file_generation,
            device_id: self.device_id,
            inode: self.inode,
            parser_version: self.parser_version,
            canonical_algorithm_version: self.canonical_algorithm_version,
            resolved_through_offset: self.resolved_through_offset,
            observed_raw_size: self.observed_raw_size,
            raw_tail_status: self.raw_tail_status,
            raw_tail_start_offset: self.raw_tail_start_offset,
            owning_thread_id: self.owning_thread_id@,
            root_session_id: self.root_session_id@,
            continuation_state: self.continuation_state,
            processor_state: self.processor_state.deep_view(),
            active_model_offset: self.active_model_offset,
            active_reasoning_effort_offset: self.active_reasoning_effort_offset,
            updated_at_ms: self.updated_at_ms,
        }
    }
}

impl Clone for SourceStateProof {
    fn clone(&self) -> (r: Self)
        ensures
            r == *self,
    {
        SourceStateProof {
            file_generation: self.file_generation,
            device_id: self.device_id,
            inode: self.inode,
            parser_version: self.parser_version,
            canonical_algorithm_version: self.canonical_algorithm_version,
            resolved_through_offset: self.resolved_through_offset,
            observed_raw_size: self.observed_raw_size,
            raw_tail_status: self.raw_tail_status,
            raw_tail_start_offset: self.raw_tail_start_offset,
            owning_thread_id: self.owning_thread_id.clone(),
            root_session_id: self.root_session_id.clone(),
            continuation_state: self.continuation_state,
            processor_state: self.processor_state.clone(),
            active_model_offset: self.active_model_offset,
            active_reasoning_effort_offset: self.active_reasoning_effort_offset,
            updated_at_ms: self.updated_at_ms,
        }
    }
}

/// What is to be done with the chunk.
#[derive(Clone, Debug, PartialEq, Eq)]
pub struct UsagePipelinePlan {
    pub ledger_epoch: i64,
    pub parser_version: i64,
    pub source_file_id: i64,
    pub file_generation: i64,
    pub device_id: i64,
    pub inode: i64,
    pub action: PlanAction,
    pub start_offset: u64,
    pub read_start_offset: u64,
    pub fixed_observed_size: u64,
    pub owning_thread_id: Option<String>,
    pub root_session_id: Option<String>,
    pub checkpoint: CheckpointExpectation,
    pub state: Option<SourceStateProof>,
    /// The metadata of this very view proves that a newly found owner ends while replaying
    /// an ancestor.
    pub allow_replay_tail: bool,
    pub replayed_prefix_bytes_before_chunk: u64,
    pub replayed_prefix_lines_before_chunk: u64,
}

pub struct PlanFacts {
    pub ledger_epoch: i64,
    pub parser_version: i64,
    pub source_file_id: i64,
    pub file_generation: i64,
    pub device_id: i64,
    pub inode: i64,
    pub action: PlanAction,
    pub start_offset: u64,
    pub read_start_offset: u64,
    pub fixed_observed_size: u64,
    pub owning_thread_id: Option<Seq<char>>,
    pub root_session_id: Option<Seq<char>>,
    pub checkpoint: CheckpointFacts,
    pub state: Option<ProofFacts>,
    pub allow_replay_tail: bool,
    pub replayed_bytes: u64,
    pub replayed_lines: u64,
}

impl DeepView for UsagePipelinePlan {
    type V = PlanFacts;

    open spec fn deep_view(&self) -> PlanFacts {
        PlanFacts {
            ledger_epoch: self.ledger_epoch,
            parser_version: self.parser_version,
            source_file_id: self.source_file_id,
            file_generation: self.file_generation,
            device_id: self.device_id,
            inode: self.inode,
            action: self.action,
            start_offset: self.start_offset,
            read_start_offset: self.read_start_offset,
            fixed_observed_size: self.fixed_observed_size,
            owning_thread_id: self.owning_thread_id.deep_view(),
            root_session_id: self.root_session_id.deep_view(),
            checkpoint: self.checkpoint.deep_view(),
            state: self.state.deep_view(),
            allow_replay_tail: self.allow_replay_tail,
            replayed_bytes: self.replayed_prefix_bytes_before_chunk,
            replayed_lines: self.replayed_prefix_lines_before_chunk,
        }
    }
}

#[derive(Clone, Copy, Debug, PartialEq, Eq, Structural)]
pub struct FixedViewTail {
    pub exhausted: bool,
    pub status: TailStatus,
    pub half_line_start: Option<u64>,
}

/// A line, who owns it, and the skills that it shows in use.
pub struct ClassifiedUsageLine {
    pub line: CompleteUsageLine,
    pub classification: RecordClassification,
    pub skill_usage: Option<SkillUsageEvidence>,
}

/// A line too long to be read, and who owns it.
pub struct ClassifiedOversizedUsageLine {
    pub start_offset: u64,
    pub end_offset: u64,
    pub classification: RecordClassification,
}

pub enum ClassifiedUsageItem {
    Line(ClassifiedUsageLine),
    Oversized(ClassifiedOversizedUsageLine),
}

impl From<ClassifiedUsageLine> for ClassifiedUsageItem {
    fn from(value: ClassifiedUsageLine) -> (r: Self) {
        ClassifiedUsageItem::Line(value)
    }
}

impl FromSpecImpl<ClassifiedUsageLine> for ClassifiedUsageItem {
    open spec fn obeys_from_spec() -> bool {
        true
    }

    open spec fn from_spec(value: ClassifiedUsageLine) -> Self {
        ClassifiedUsageItem::Line(value)
    }
}

impl From<ClassifiedOversizedUsageLine> for ClassifiedUsageItem {
    fn from(value: ClassifiedOversizedUsageLine) -> (r: Self) {
        ClassifiedUsageItem::Oversized(value)
    }
}

impl FromSpecImpl<ClassifiedOversizedUsageLine> for ClassifiedUsageItem {
    open spec fn obeys_from_spec() -> bool {
        true
    }

    open spec fn from_spec(value: ClassifiedOversizedUsageLine) -> Self {
        ClassifiedUsageItem::Oversized(value)
    }
}

impl ClassifiedUsageItem {
    pub open spec fn span(self) -> Span {
        match self {
            ClassifiedUsageItem::Line(value) => value.line@.at,
            ClassifiedUsageItem::Oversized(value) => Span {
                start: value.start_offset,
                end: value.end_offset,
            },
        }
    }

    pub open spec fn class(self) -> RecordClassification {
        match self {
            ClassifiedUsageItem::Line(value) => value.classification,
            ClassifiedUsageItem::Oversized(value) => value.classification,
        }
    }

    /// The item as the pipeline looks at it. Only what the owner owns is read.
    pub open spec fn read_facts(self) -> ItemFacts {
        match self {
            ClassifiedUsageItem::Line(value) => ItemFacts {
                at: value.line@.at,
                class: value.classification,
                oversized: false,
                raw: if value.classification.ownership is Owning {
                    raw_record(json_document(value.line@.json))
                } else {
                    RawFacts::Ignored
                },
                skills: value.skill_usage.deep_view(),
            },
            ClassifiedUsageItem::Oversized(value) => ItemFacts {
                at: Span { start: value.start_offset, end: value.end_offset },
                class: value.classification,
                oversized: true,
                raw: RawFacts::OversizedComplete,
                skills: None,
            },
        }
    }

    pub(crate) fn start_offset(&self) -> (r: u64)
        ensures
            r == self.span().start,
    {
        match self {
            ClassifiedUsageItem::Line(value) => value.line.start_offset(),
            ClassifiedUsageItem::Oversized(value) => value.start_offset,
        }
    }

    pub(crate) fn end_offset(&self) -> (r: u64)
        ensures
            r == self.span().end,
    {
        match self {
            ClassifiedUsageItem::Line(value) => value.line.end_offset(),
            ClassifiedUsageItem::Oversized(value) => value.end_offset,
        }
    }

    pub(crate) fn classification(&self) -> (r: &RecordClassification)
        ensures
            *r == self.class(),
    {
        match self {
            ClassifiedUsageItem::Line(value) => &value.classification,
            ClassifiedUsageItem::Oversized(value) => &value.classification,
        }
    }

    /// Reads the item.
    pub fn read(self) -> (r: ReadUsageItem)
        ensures
            r.deep_view() == self.read_facts(),
    {
        let at: Span = Span { start: self.start_offset(), end: self.end_offset() };
        let classification: RecordClassification = *self.classification();
        match self {
            ClassifiedUsageItem::Line(value) => {
                let raw: UsageRawRecord = match classification.ownership {
                    RecordOwnership::Owning => CodexRolloutParser.parse_line(&value.line),
                    _ => UsageRawRecord::Ignored,
                };
                ReadUsageItem {
                    at,
                    classification,
                    oversized: false,
                    raw,
                    skill_usage: value.skill_usage,
                }
            },
            ClassifiedUsageItem::Oversized(_) => ReadUsageItem {
                at,
                classification,
                oversized: true,
                raw: UsageRawRecord::OversizedComplete { start_offset: at.start, end_offset: at.end },
                skill_usage: None,
            },
        }
    }
}

/// An item whose line has been read.
#[derive(Clone, Debug, PartialEq, Eq)]
pub struct ReadUsageItem {
    pub at: Span,
    pub classification: RecordClassification,
    pub oversized: bool,
    pub raw: UsageRawRecord,
    pub skill_usage: Option<SkillUsageEvidence>,
}

pub struct ItemFacts {
    pub at: Span,
    pub class: RecordClassification,
    pub oversized: bool,
    pub raw: RawFacts,
    pub skills: Option<EvidenceFacts>,
}

impl DeepView for ReadUsageItem {
    type V = ItemFacts;

    open spec fn deep_view(&self) -> ItemFacts {
        ItemFacts {
            at: self.at,
            class: self.classification,
            oversized: self.oversized,
            raw: self.raw.deep_view(),
            skills: self.skill_usage.deep_view(),
        }
    }
}

/// What storage commits for one source.
#[derive(Clone, Debug, PartialEq, Eq)]
pub struct UsageSourceCommitDto {
    pub ledger_epoch: i64,
    pub parser_version: i64,
    pub source_file_id: i64,
    pub expected_file_generation: i64,
    pub expected_previous_thread_id: Option<String>,
    pub expected_checkpoint: CheckpointExpectation,
    pub expected_checkpoint_missing: bool,
    pub expected_state: Option<SourceStateProof>,
    pub local_replay: bool,
    pub batch_start_offset: u64,
    pub fixed_observed_raw_size: u64,
    pub last_complete_offset: u64,
    pub source_bytes_consumed: u64,
    pub complete_line_count: u64,
    pub candidate_count: u64,
    pub replayed_prefix_bytes: u64,
    pub replayed_prefix_lines: u64,
    pub fixed_view_exhausted: bool,
    pub tail_status: TailStatus,
    pub tail_start_offset: Option<u64>,
    pub owning_thread_id: String,
    pub root_session_id: String,
    pub events: Vec<UsageEvent>,
    pub occurrences: Vec<Occurrence>,
    pub skill_events: Vec<SkillUsageEvent>,
    pub closed_turns: Vec<ClosedTurn>,
    pub open_turn: Option<TurnState>,
    pub anomalies: Vec<Anomaly>,
    pub updated_state: SourceStateProof,
    pub next_guard_hash: Option<Vec<u8>>,
    pub committed_at_ms: i64,
}

#[verifier::ext_equal]
pub struct CommitFacts {
    pub ledger_epoch: i64,
    pub parser_version: i64,
    pub source_file_id: i64,
    pub expected_file_generation: i64,
    pub expected_previous_thread_id: Option<Seq<char>>,
    pub expected_checkpoint: CheckpointFacts,
    pub expected_checkpoint_missing: bool,
    pub expected_state: Option<ProofFacts>,
    pub local_replay: bool,
    pub batch_start_offset: u64,
    pub fixed_observed_raw_size: u64,
    pub last_complete_offset: u64,
    pub source_bytes_consumed: u64,
    pub complete_line_count: u64,
    pub candidate_count: u64,
    pub replayed_prefix_bytes: u64,
    pub replayed_prefix_lines: u64,
    pub fixed_view_exhausted: bool,
    pub tail_status: TailStatus,
    pub tail_start_offset: Option<u64>,
    pub owning_thread_id: Seq<char>,
    pub root_session_id: Seq<char>,
    pub events: Seq<EventFacts>,
    pub occurrences: Seq<OccurrenceFacts>,
    pub skill_events: Seq<SkillFacts>,
    pub closed_turns: Seq<ClosedTurnFacts>,
    pub open_turn: Option<TurnFacts>,
    pub anomalies: Seq<AnomalyFacts>,
    pub updated_state: ProofFacts,
    pub next_guard_hash: Option<Seq<u8>>,
    pub committed_at_ms: i64,
}

impl DeepView for UsageSourceCommitDto {
    type V = CommitFacts;

    open spec fn deep_view(&self) -> CommitFacts {
        CommitFacts {
            ledger_epoch: self.ledger_epoch,
            parser_version: self.parser_version,
            source_file_id: self.source_file_id,
            expected_file_generation: self.expected_file_generation,
            expected_previous_thread_id: self.expected_previous_thread_id.deep_view(),
            expected_checkpoint: self.expected_checkpoint.deep_view(),
            expected_checkpoint_missing: self.expected_checkpoint_missing,
            expected_state: self.expected_state.deep_view(),
            local_replay: self.local_replay,
            batch_start_offset: self.batch_start_offset,
            fixed_observed_raw_size: self.fixed_observed_raw_size,
            last_complete_offset: self.last_complete_offset,
            source_bytes_consumed: self.source_bytes_consumed,
            complete_line_count: self.complete_line_count,
            candidate_count: self.candidate_count,
            replayed_prefix_bytes: self.replayed_prefix_bytes,
            replayed_prefix_lines: self.replayed_prefix_lines,
            fixed_view_exhausted: self.fixed_view_exhausted,
            tail_status: self.tail_status,
            tail_start_offset: self.tail_start_offset,
            owning_thread_id: self.owning_thread_id@,
            root_session_id: self.root_session_id@,
            events: self.events.deep_view(),
            occurrences: self.occurrences.deep_view(),
            skill_events: self.skill_events.deep_view(),
            closed_turns: self.closed_turns.deep_view(),
            open_turn: self.open_turn.deep_view(),
            anomalies: self.anomalies.deep_view(),
            updated_state: self.updated_state.deep_view(),
            next_guard_hash: self.next_guard_hash.deep_view(),
            committed_at_ms: self.committed_at_ms,
        }
    }
}

/// What comes of a chunk.
#[derive(Clone, Debug, PartialEq, Eq)]
pub enum PipelineDisposition {
    Commit(UsageSourceCommitDto),
    AwaitingOwningMeta,
    Skip,
    BlockedRelationship,
    NeedsRebuild,
}

pub enum DispositionFacts {
    Commit(CommitFacts),
    AwaitingOwningMeta,
    Skip,
    BlockedRelationship,
    NeedsRebuild,
}

impl DeepView for PipelineDisposition {
    type V = DispositionFacts;

    open spec fn deep_view(&self) -> DispositionFacts {
        match self {
            PipelineDisposition::Commit(commit) => DispositionFacts::Commit(commit.deep_view()),
            PipelineDisposition::AwaitingOwningMeta => DispositionFacts::AwaitingOwningMeta,
            PipelineDisposition::Skip => DispositionFacts::Skip,
            PipelineDisposition::BlockedRelationship => DispositionFacts::BlockedRelationship,
            PipelineDisposition::NeedsRebuild => DispositionFacts::NeedsRebuild,
        }
    }
}

#[derive(Clone, Copy, Debug, PartialEq, Eq, Structural)]
pub enum PipelineError {
    InvalidPlan,
    InvalidTail,
}

/// The state fits the plan: same file, same parser, same owner.
pub open spec fn state_fits(plan: PlanFacts, state: ProofFacts) -> bool {
    &&& state.file_generation == plan.file_generation
    &&& state.device_id == plan.device_id
    &&& state.inode == plan.inode
    &&& state.parser_version == plan.parser_version
    &&& canonical_algorithm(plan.parser_version) == Some(state.canonical_algorithm_version)
    &&& plan.owning_thread_id == Some(state.owning_thread_id)
    &&& plan.root_session_id == Some(state.root_session_id)
}

/// Reading begins after the replayed prefix and nowhere else.
pub open spec fn prefix_accounted(plan: PlanFacts) -> bool {
    plan.read_start_offset >= plan.start_offset && plan.replayed_bytes == plan.read_start_offset
        - plan.start_offset
}

pub open spec fn no_prefix(plan: PlanFacts) -> bool {
    plan.read_start_offset == plan.start_offset && plan.replayed_bytes == 0 && plan.replayed_lines
        == 0
}

/// The plan is one that the pipeline can carry out.
pub open spec fn plan_valid(plan: PlanFacts) -> bool {
    let replay = plan.action is LocalReplay;
    &&& plan.ledger_epoch > 0
    &&& canonical_algorithm(plan.parser_version) is Some
    &&& plan.source_file_id > 0
    &&& plan.file_generation > 0
    &&& plan.start_offset <= plan.fixed_observed_size
    &&& plan.read_start_offset <= plan.fixed_observed_size
    &&& plan.checkpoint.parser_version == plan.parser_version
    &&& (plan.checkpoint.committed_offset == 0) == (plan.checkpoint.guard_hash is None)
    &&& plan.checkpoint.guard_hash is Some ==> plan.checkpoint.guard_hash->0.len() == 32
    &&& if replay {
        plan.start_offset == 0
    } else {
        plan.checkpoint.committed_offset == plan.start_offset
    }
    &&& match plan.action {
        PlanAction::AwaitOwningMeta => plan.start_offset == 0 && prefix_accounted(plan),
        PlanAction::LocalReplay => prefix_accounted(plan) || no_prefix(plan),
        PlanAction::ReadFrom | PlanAction::BuildFrom => (plan.start_offset == 0 && plan.state is None
            && prefix_accounted(plan)) || no_prefix(plan),
        _ => no_prefix(plan),
    }
    &&& match plan.state {
        None => if replay {
            plan.checkpoint.committed_offset == 0
        } else {
            plan.start_offset == 0
        },
        Some(state) => state_fits(plan, state) && (replay || (plan.start_offset > 0
            && state.resolved_through_offset == plan.start_offset)),
    }
}

/// The tail is stated consistently.
pub open spec fn tail_valid(plan: PlanFacts, tail: FixedViewTail) -> bool {
    match tail.status {
        TailStatus::Unverified => !tail.exhausted && tail.half_line_start is None,
        TailStatus::NoTail => tail.exhausted && tail.half_line_start is None,
        TailStatus::HalfLine => tail.exhausted && tail.half_line_start is Some
            && tail.half_line_start->0 < plan.fixed_observed_size,
    }
}

/// The tail fits a chunk that was read up to `last`.
pub open spec fn tail_fits(last: u64, observed_size: u64, tail: FixedViewTail) -> bool {
    match tail.status {
        TailStatus::Unverified => !tail.exhausted && tail.half_line_start is None,
        TailStatus::NoTail => tail.exhausted && tail.half_line_start is None && last
            == observed_size,
        TailStatus::HalfLine => tail.exhausted && tail.half_line_start == Some(last) && last
            < observed_size,
    }
}

fn state_matches(plan: &UsagePipelinePlan, state: &SourceStateProof) -> (r: bool)
    ensures
        r == state_fits(plan.deep_view(), state.deep_view()),
{
    let algorithm: bool = match canonical_algorithm_for(plan.parser_version) {
        Some(version) => version == state.canonical_algorithm_version,
        None => false,
    };
    let owner: bool = match &plan.owning_thread_id {
        Some(owner) => *owner == state.owning_thread_id,
        None => false,
    };
    let root: bool = match &plan.root_session_id {
        Some(root) => *root == state.root_session_id,
        None => false,
    };
    state.file_generation == plan.file_generation && state.device_id == plan.device_id
        && state.inode == plan.inode && state.parser_version == plan.parser_version && algorithm
        && owner && root
}

fn validate_plan(plan: &UsagePipelinePlan) -> (r: Result<(), PipelineError>)
    ensures
        r is Ok <==> plan_valid(plan.deep_view()),
        r matches Err(e) ==> e is InvalidPlan,
{
    let local_replay: bool = plan.action == PlanAction::LocalReplay;
    let guard_len_wrong: bool = match &plan.checkpoint.guard_hash {
        Some(guard) => guard.len() != 32,
        None => false,
    };
    if plan.ledger_epoch <= 0 || plan.parser_version < 0 || canonical_algorithm_for(
        plan.parser_version,
    ).is_none() || plan.source_file_id <= 0 || plan.file_generation <= 0 || plan.start_offset
        > plan.fixed_observed_size || plan.read_start_offset > plan.fixed_observed_size
        || plan.checkpoint.parser_version != plan.parser_version || (!local_replay
        && plan.checkpoint.committed_offset != plan.start_offset) || (local_replay
        && plan.start_offset != 0) || (plan.checkpoint.committed_offset == 0)
        != plan.checkpoint.guard_hash.is_none() || guard_len_wrong {
        return Err(PipelineError::InvalidPlan);
    }
    let accounted: bool = plan.start_offset == 0 && plan.read_start_offset >= plan.start_offset
        && plan.replayed_prefix_bytes_before_chunk == plan.read_start_offset - plan.start_offset;
    let none: bool = plan.read_start_offset == plan.start_offset
        && plan.replayed_prefix_bytes_before_chunk == 0 && plan.replayed_prefix_lines_before_chunk
        == 0;
    let prefix: bool = match plan.action {
        PlanAction::AwaitOwningMeta => accounted,
        PlanAction::LocalReplay => accounted || none,
        PlanAction::ReadFrom | PlanAction::BuildFrom => (accounted && plan.state.is_none())
            || none,
        _ => none,
    };
    if !prefix {
        return Err(PipelineError::InvalidPlan);
    }
    let state: bool = match &plan.state {
        None => if local_replay {
            plan.checkpoint.committed_offset == 0
        } else {
            plan.start_offset == 0
        },
        Some(state) => state_matches(plan, state) && (local_replay || (plan.start_offset > 0
            && state.resolved_through_offset == plan.start_offset)),
    };
    if state {
        Ok(())
    } else {
        Err(PipelineError::InvalidPlan)
    }
}

fn validate_tail(plan: &UsagePipelinePlan, tail: FixedViewTail) -> (r: Result<(), PipelineError>)
    ensures
        r is Ok <==> tail_valid(plan.deep_view(), tail),
        r matches Err(e) ==> e is InvalidTail,
{
    match (tail.exhausted, tail.status, tail.half_line_start) {
        (false, TailStatus::Unverified, None) => Ok(()),
        (true, TailStatus::NoTail, None) => Ok(()),
        (true, TailStatus::HalfLine, Some(offset)) if offset < plan.fixed_observed_size => Ok(()),
        _ => Err(PipelineError::InvalidTail),
    }
}

fn validate_completed_tail(last_complete_offset: u64, observed_size: u64, tail: FixedViewTail) -> (r:
    Result<(), PipelineError>)
    ensures
        r is Ok <==> tail_fits(last_complete_offset, observed_size, tail),
        r matches Err(e) ==> e is InvalidTail,
{
    match (tail.exhausted, tail.status, tail.half_line_start) {
        (false, TailStatus::Unverified, None) => Ok(()),
        (true, TailStatus::NoTail, None) if last_complete_offset == observed_size => Ok(()),
        (true, TailStatus::HalfLine, Some(start)) if start == last_complete_offset && start
            < observed_size => Ok(()),
        _ => Err(PipelineError::InvalidTail),
    }
}

/// The item follows on from `expected`, is where its classification says, and lies inside
/// the observed file.
pub open spec fn item_fits(item: ItemFacts, expected: u64, observed_size: u64) -> bool {
    &&& item.at.start == expected
    &&& item.at.start == item.class.start_offset
    &&& item.at.end == item.class.end_offset
    &&& item.at.end <= observed_size
}

fn matching_item(item: &ReadUsageItem, expected: u64, observed_size: u64) -> (r: bool)
    ensures
        r == item_fits(item.deep_view(), expected, observed_size),
{
    item.at.start == expected && item.at.start == item.classification.start_offset && item.at.end
        == item.classification.end_offset && item.at.end <= observed_size
}

/// Whether a line still fits into the batch. The first line of a batch may be as long as a
/// legal line; an oversized line has a batch for itself.
pub open spec fn within_budget(
    consumed: int,
    lines: int,
    next_line_bytes: int,
    oversized: bool,
) -> bool {
    if oversized {
        lines == 0
    } else if lines == 0 {
        next_line_bytes <= MAX_LEGAL_LINE_BYTES
    } else {
        lines < MAX_BATCH_LINES && consumed + next_line_bytes <= MAX_BATCH_BYTES
    }
}

fn fits_line_budget(consumed: u64, lines: u64, next_line_bytes: u64, oversized: bool) -> (r: bool)
    requires
        consumed + next_line_bytes <= u64::MAX,
    ensures
        r == within_budget(consumed as int, lines as int, next_line_bytes as int, oversized),
{
    if oversized {
        return lines == 0;
    }
    if lines == 0 {
        return next_line_bytes <= MAX_LEGAL_LINE_BYTES;
    }
    lines < MAX_BATCH_LINES && consumed + next_line_bytes <= MAX_BATCH_BYTES
}

pub open spec fn required_usage(value: NormalizedTokenValue) -> UsageValue {
    match value {
        NormalizedTokenValue::Valid(value) => UsageValue::Valid(value),
        NormalizedTokenValue::Invalid(_) => UsageValue::Invalid,
    }
}

pub open spec fn optional_usage(value: OptionalTokenValue) -> UsageValue {
    match value {
        OptionalTokenValue::Missing => UsageValue::Missing,
        OptionalTokenValue::Valid(value) => UsageValue::Valid(value),
        OptionalTokenValue::Invalid(_) => UsageValue::Invalid,
    }
}

pub open spec fn end_status(kind: LifecycleKind) -> TurnEndStatus {
    match kind {
        LifecycleKind::Aborted => TurnEndStatus::Aborted,
        LifecycleKind::Failed => TurnEndStatus::Failed,
        _ => TurnEndStatus::Completed,
    }
}

/// What a raw record means for usage, if it means anything.
pub open spec fn record_body(raw: RawFacts, at: Span) -> Option<RecordBody> {
    match raw {
        RawFacts::TokenCount(record) => match record.info {
            Some(info) => Some(
                RecordBody::TokenCount {
                    timestamp_ms: record.occurred_at_ms,
                    start_offset: at.start,
                    end_offset: at.end,
                    total: required_usage(info.current_total),
                    last: optional_usage(info.last_usage),
                },
            ),
            None => None,
        },
        RawFacts::TurnContext { model, reasoning_effort } => Some(
            RecordBody::TurnContext { model, reasoning_effort },
        ),
        RawFacts::Lifecycle { kind, turn_id, occurred_at_ms } => if kind is Started {
            Some(
                RecordBody::TurnStarted {
                    turn_id,
                    timestamp_ms: occurred_at_ms,
                    start_offset: at.start,
                },
            )
        } else {
            Some(
                RecordBody::TurnEnded {
                    turn_id,
                    timestamp_ms: occurred_at_ms,
                    start_offset: at.start,
                    end_offset: at.end,
                    status: end_status(kind),
                },
            )
        },
        RawFacts::Malformed => Some(RecordBody::Gap { kind: GapKind::Malformed }),
        RawFacts::OversizedComplete => Some(RecordBody::Gap { kind: GapKind::Oversized }),
        RawFacts::Ignored | RawFacts::Unknown => None,
    }
}

/// The record of the owner that a raw record stands for.
pub open spec fn owned_record(owner: Seq<char>, body: RecordBody) -> RecordFacts {
    RecordFacts { ownership: OwnershipFacts::Owning { thread_id: owner }, body }
}

/// The usage record that a raw record of the owner stands for.
pub fn normalized_record(raw: &UsageRawRecord, owning_thread_id: &str, at: Span) -> (r: Option<
    UsageRecord,
>)
    ensures
        r.deep_view() == match record_body(raw.deep_view(), at) {
            Some(body) => Some(owned_record(owning_thread_id@, body)),
            None => None,
        },
{
    match raw {
        UsageRawRecord::TokenCount(record) => match record.info {
            Some(info) => Some(
                UsageRecord::TokenCount {
                    ownership: Ownership::Owning { thread_id: owning_thread_id.to_owned() },
                    timestamp_ms: record.occurred_at_ms,
                    start_offset: at.start,
                    end_offset: at.end,
                    total: required_value(info.current_total),
                    last: optional_value(info.last_usage),
                },
            ),
            None => None,
        },
        UsageRawRecord::TurnContext(record) => Some(
            UsageRecord::TurnContext {
                ownership: Ownership::Owning { thread_id: owning_thread_id.to_owned() },
                model: record.model.clone(),
                reasoning_effort: record.reasoning_effort.clone(),
            },
        ),
        UsageRawRecord::Lifecycle(record) => {
            let status: TurnEndStatus = match record.kind {
                LifecycleKind::Started => {
                    return Some(
                        UsageRecord::TurnStarted {
                            ownership: Ownership::Owning { thread_id: owning_thread_id.to_owned() },
                            turn_id: record.turn_id.clone(),
                            timestamp_ms: record.occurred_at_ms,
                            start_offset: at.start,
                        },
                    );
                },
                LifecycleKind::Completed => TurnEndStatus::Completed,
                LifecycleKind::Aborted => TurnEndStatus::Aborted,
                LifecycleKind::Failed => TurnEndStatus::Failed,
            };
            Some(
                UsageRecord::TurnEnded {
                    ownership: Ownership::Owning { thread_id: owning_thread_id.to_owned() },
                    turn_id: record.turn_id.clone(),
                    timestamp_ms: record.occurred_at_ms,
                    start_offset: at.start,
                    end_offset: at.end,
                    status,
                },
            )
        },
        UsageRawRecord::Malformed => Some(
            UsageRecord::Gap {
                ownership: Ownership::Owning { thread_id: owning_thread_id.to_owned() },
                kind: GapKind::Malformed,
            },
        ),
        UsageRawRecord::OversizedComplete { .. } => Some(
            UsageRecord::Gap {
                ownership: Ownership::Owning { thread_id: owning_thread_id.to_owned() },
                kind: GapKind::Oversized,
            },
        ),
        UsageRawRecord::Ignored | UsageRawRecord::Unknown => None,
    }
}

fn required_value(value: NormalizedTokenValue) -> (r: UsageValue)
    ensures
        r == required_usage(value),
{
    match value {
        NormalizedTokenValue::Valid(value) => UsageValue::Valid(value),
        NormalizedTokenValue::Invalid(_) => UsageValue::Invalid,
    }
}

fn optional_value(value: OptionalTokenValue) -> (r: UsageValue)
    ensures
        r == optional_usage(value),
{
    match value {
        OptionalTokenValue::Missing => UsageValue::Missing,
        OptionalTokenValue::Valid(value) => UsageValue::Valid(value),
        OptionalTokenValue::Invalid(_) => UsageValue::Invalid,
    }
}

/// What the lines of a batch have come to so far.
#[verifier::ext_equal]
pub struct Gathered {
    pub state: StateFacts,
    pub events: Seq<EventFacts>,
    pub occurrences: Seq<OccurrenceFacts>,
    pub anomalies: Seq<AnomalyFacts>,
    pub closed_turns: Seq<ClosedTurnFacts>,
    pub skills: Seq<SkillFacts>,
    pub model_offset: Option<u64>,
    pub effort_offset: Option<u64>,
}

/// How one line of the owner went.
pub enum Taking {
    /// It calls for a rebuild.
    Rebuild,
    /// Its proposals do not fit into the batch any more.
    Full,
    Taken,
}

/// The skill events that an owned line gives.
pub open spec fn skill_events_of(
    context: ContextFacts,
    model: Option<Seq<char>>,
    item: ItemFacts,
) -> Seq<SkillFacts> {
    if item.class.ownership is Owning && item.skills is Some {
        Seq::new(
            item.skills->0.skill_names.len(),
            |i: int|
                SkillFacts {
                    occurred_at_ms: item.skills->0.occurred_at_ms,
                    thread_id: context.owning_thread_id,
                    root_session_id: context.root_session_id,
                    model,
                    skill_name: item.skills->0.skill_names[i],
                    source_file_id: context.source_file_id,
                    file_generation: context.file_generation,
                    at: item.at,
                },
        )
    } else {
        Seq::empty()
    }
}

impl Gathered {
    pub open spec fn start(
        state: StateFacts,
        model_offset: Option<u64>,
        effort_offset: Option<u64>,
    ) -> Self {
        Gathered {
            state,
            events: Seq::empty(),
            occurrences: Seq::empty(),
            anomalies: Seq::empty(),
            closed_turns: Seq::empty(),
            skills: Seq::empty(),
            model_offset,
            effort_offset,
        }
    }

    /// With the skills of a line. The model is the one active before the line.
    pub open spec fn with_skills(self, context: ContextFacts, item: ItemFacts) -> Self {
        Gathered {
            skills: self.skills + skill_events_of(context, self.state.active_model, item),
            ..self
        }
    }

    /// What processing one more record comes to.
    pub open spec fn result_of(self, context: ContextFacts, body: RecordBody) -> ResultFacts {
        processed(
            Progress::start(context, self.state),
            seq![owned_record(context.owning_thread_id, body)],
        )
    }

    pub open spec fn taking(self, context: ContextFacts, item: ItemFacts) -> Taking {
        match record_body(item.raw, item.at) {
            None => Taking::Taken,
            Some(body) => {
                let result = self.result_of(context, body);
                if result.needs_rebuild {
                    Taking::Rebuild
                } else if self.occurrences.len() + result.occurrences.len()
                    > MAX_BATCH_CANDIDATES {
                    Taking::Full
                } else {
                    Taking::Taken
                }
            },
        }
    }

    /// With the record of a line, where it is taken. A turn context sets where the model
    /// and the effort come from; one without effort clears the latter.
    pub open spec fn with_record(self, context: ContextFacts, item: ItemFacts) -> Self {
        match record_body(item.raw, item.at) {
            None => self,
            Some(body) => {
                let result = self.result_of(context, body);
                Gathered {
                    state: result.updated_state,
                    events: self.events + result.events,
                    occurrences: self.occurrences + result.occurrences,
                    anomalies: self.anomalies + result.anomalies,
                    closed_turns: self.closed_turns + result.closed_turns,
                    skills: self.skills,
                    model_offset: match body {
                        RecordBody::TurnContext { model: Some(_), .. } => Some(item.at.start),
                        _ => self.model_offset,
                    },
                    effort_offset: match body {
                        RecordBody::TurnContext { reasoning_effort, .. } => if reasoning_effort
                            is Some {
                            Some(item.at.start)
                        } else {
                            None
                        },
                        _ => self.effort_offset,
                    },
                }
            },
        }
    }
}

struct Gathering {
    state: UsageSourceState,
    events: Vec<UsageEvent>,
    occurrences: Vec<Occurrence>,
    anomalies: Vec<Anomaly>,
    closed_turns: Vec<ClosedTurn>,
    skill_events: Vec<SkillUsageEvent>,
    active_model_offset: Option<u64>,
    active_reasoning_effort_offset: Option<u64>,
}

impl View for Gathering {
    type V = Gathered;

    closed spec fn view(&self) -> Gathered {
        Gathered {
            state: self.state.deep_view(),
            events: self.events.deep_view(),
            occurrences: self.occurrences.deep_view(),
            anomalies: self.anomalies.deep_view(),
            closed_turns: self.closed_turns.deep_view(),
            skills: self.skill_events.deep_view(),
            model_offset: self.active_model_offset,
            effort_offset: self.active_reasoning_effort_offset,
        }
    }
}

impl Gathering {
    fn start(
        state: UsageSourceState,
        active_model_offset: Option<u64>,
        active_reasoning_effort_offset: Option<u64>,
    ) -> (r: Self)
        ensures
            r@ == Gathered::start(
                state.deep_view(),
                active_model_offset,
                active_reasoning_effort_offset,
            ),
    {
        let r: Gathering = Gathering {
            state,
            events: Vec::new(),
            occurrences: Vec::new(),
            anomalies: Vec::new(),
            closed_turns: Vec::new(),
            skill_events: Vec::new(),
            active_model_offset,
            active_reasoning_effort_offset,
        };
        assert(r@ =~= Gathered::start(
            state.deep_view(),
            active_model_offset,
            active_reasoning_effort_offset,
        ));
        r
    }

    fn collect_skill_events(&mut self, item: &ReadUsageItem, context: &UsageContext)
        ensures
            final(self)@ == old(self)@.with_skills(context.deep_view(), item.deep_view()),
    {
        let ghost before = self@;
        let ghost added = skill_events_of(
            context.deep_view(),
            self@.state.active_model,
            item.deep_view(),
        );
        if item.classification.ownership != RecordOwnership::Owning {
            assert(self@ =~= before.with_skills(context.deep_view(), item.deep_view()));
            return ;
        }
        let evidence: &SkillUsageEvidence = match &item.skill_usage {
            Some(evidence) => evidence,
            None => {
                assert(self@ =~= before.with_skills(context.deep_view(), item.deep_view()));
                return ;
            },
        };
        let mut i: usize = 0;
        assert(before.skills + added.take(0) =~= before.skills);
        while i < evidence.skill_names.len()
            invariant
                i <= evidence.skill_names.len(),
                item.classification.ownership is Owning,
                item.skill_usage == Some(*evidence),
                added == skill_events_of(
                    context.deep_view(),
                    before.state.active_model,
                    item.deep_view(),
                ),
                added.len() == evidence.skill_names@.len(),
                self@ == (Gathered { skills: before.skills + added.take(i as int), ..before }),
            decreases evidence.skill_names.len() - i,
        {
            let ghost earlier = self.skill_events.deep_view();
            self.skill_events.push(
                SkillUsageEvent {
                    occurred_at_ms: evidence.occurred_at_ms,
                    thread_id: context.owning_thread_id.clone(),
                    root_session_id: context.root_session_id.clone(),
                    model: self.state.active_model.clone(),
                    skill_name: evidence.skill_names[i].clone(),
                    source_file_id: context.source_file_id,
                    file_generation: context.file_generation,
                    source_start_offset: item.at.start,
                    source_end_offset: item.at.end,
                },
            );
            proof {
                assert(self.skill_events.deep_view() =~= earlier.push(added[i as int]));
                assert(added.take(i + 1) =~= added.take(i as int).push(added[i as int]));
                assert(before.skills + added.take(i + 1) =~= (before.skills + added.take(
                    i as int,
                )).push(added[i as int]));
            }
            i = i + 1;
        }
        assert(added.take(added.len() as int) =~= added);
    }

    /// Takes the record of an owned line.
    fn take(&mut self, item: &ReadUsageItem, context: &UsageContext) -> (r: Taking)
        requires
            old(self)@.occurrences.len() <= MAX_BATCH_CANDIDATES,
        ensures
            r == old(self)@.taking(context.deep_view(), item.deep_view()),
            final(self)@ == if r is Taken {
                old(self)@.with_record(context.deep_view(), item.deep_view())
            } else {
                old(self)@
            },
            final(self)@.occurrences.len() <= MAX_BATCH_CANDIDATES,
    {
        let ghost before = self@;
        let record: UsageRecord = match normalized_record(
            &item.raw,
            context.owning_thread_id.as_str(),
            item.at,
        ) {
            Some(record) => record,
            None => {
                return Taking::Taken;
            },
        };
        let ghost body = record_body(item.raw.deep_view(), item.at)->0;
        let context_record: Option<(bool, bool)> = match &record {
            UsageRecord::TurnContext { model, reasoning_effort, .. } => Some(
                (model.is_some(), reasoning_effort.is_some()),
            ),
            _ => None,
        };
        let mut records: Vec<UsageRecord> = Vec::new();
        records.push(record);
        assert(records.deep_view() =~= seq![
            owned_record(context.deep_view().owning_thread_id, body),
        ]);
        let result: ProcessResult = UsageProcessor::new(
            context.clone(),
            Some(self.state.clone()),
        ).process(records);
        assert(result.deep_view() == before.result_of(context.deep_view(), body));
        if result.needs_rebuild {
            return Taking::Rebuild;
        }
        if result.occurrences.len() as u64 > MAX_BATCH_CANDIDATES - self.occurrences.len() as u64 {
            return Taking::Full;
        }
        self.absorb(result);
        if let Some((has_model, has_effort)) = context_record {
            if has_model {
                self.active_model_offset = Some(item.at.start);
            }
            self.active_reasoning_effort_offset =
            if has_effort {
                Some(item.at.start)
            } else {
                None
            };
        }
        Taking::Taken
    }

    fn absorb(&mut self, result: ProcessResult)
        ensures
            final(self)@ == (Gathered {
                state: result.deep_view().updated_state,
                events: old(self)@.events + result.deep_view().events,
                occurrences: old(self)@.occurrences + result.deep_view().occurrences,
                anomalies: old(self)@.anomalies + result.deep_view().anomalies,
                closed_turns: old(self)@.closed_turns + result.deep_view().closed_turns,
                ..old(self)@
            }),
    {
        let ghost before = self@;
        let ghost added = result.deep_view();
        let mut result: ProcessResult = result;
        self.state = result.updated_state;
        self.events.append(&mut result.events);
        self.occurrences.append(&mut result.occurrences);
        self.anomalies.append(&mut result.anomalies);
        self.closed_turns.append(&mut result.closed_turns);
        assert(self.events.deep_view() =~= before.events + added.events);
        assert(self.occurrences.deep_view() =~= before.occurrences + added.occurrences);
        assert(self.anomalies.deep_view() =~= before.anomalies + added.anomalies);
        assert(self.closed_turns.deep_view() =~= before.closed_turns + added.closed_turns);
    }
}

pub open spec fn saturated(value: int) -> u64 {
    if value < 0 {
        0
    } else if value > u64::MAX {
        u64::MAX
    } else {
        value as u64
    }
}

/// A batch under way.
pub struct Run {
    pub gathered: Gathered,
    pub lines: u64,
    pub last: u64,
    pub continuation: SourceContinuationState,
}

/// How a run goes on after an item.
pub enum RunStep {
    Rebuild,
    Last(Run),
    More(Run),
}

impl Run {
    pub open spec fn start(plan: PlanFacts, state: ProofFacts) -> Self {
        Run {
            gathered: Gathered::start(
                state.processor_state,
                state.active_model_offset,
                state.active_reasoning_effort_offset,
            ),
            lines: 0,
            last: plan.start_offset,
            continuation: state.continuation_state,
        }
    }

    pub open spec fn past(self, item: ItemFacts) -> Self {
        Run { lines: (self.lines + 1) as u64, last: item.at.end, ..self }
    }

    /// The run after an item, and whether it goes on. An oversized line ends the batch.
    pub open spec fn after(self, item: ItemFacts) -> RunStep {
        if item.oversized {
            RunStep::Last(self.past(item))
        } else {
            RunStep::More(self.past(item))
        }
    }

    pub open spec fn step(self, plan: PlanFacts, context: ContextFacts, item: ItemFacts) -> RunStep {
        if !item_fits(item, self.last, plan.fixed_observed_size) {
            RunStep::Rebuild
        } else if !within_budget(
            self.last - plan.start_offset,
            self.lines as int,
            item.at.end - item.at.start,
            item.oversized,
        ) {
            RunStep::Last(self)
        } else {
            match item.class.ownership {
                RecordOwnership::UnknownOwnership => RunStep::Rebuild,
                RecordOwnership::ReplayedAncestor => if self.continuation is ReplayedAncestor {
                    self.after(item)
                } else {
                    RunStep::Rebuild
                },
                RecordOwnership::Owning => {
                    let noted = Run {
                        gathered: self.gathered.with_skills(context, item),
                        continuation: SourceContinuationState::OwningLive,
                        ..self
                    };
                    match noted.gathered.taking(context, item) {
                        Taking::Rebuild => RunStep::Rebuild,
                        Taking::Full => RunStep::Last(noted),
                        Taking::Taken => {
                            let taken = Run {
                                gathered: noted.gathered.with_record(context, item),
                                ..noted
                            };
                            if record_body(item.raw, item.at) is None {
                                RunStep::More(taken.past(item))
                            } else {
                                taken.after(item)
                            }
                        },
                    }
                },
            }
        }
    }

    /// The run after as many of the items as belong to the batch. `None` when the source has
    /// to be rebuilt.
    pub open spec fn over(
        self,
        plan: PlanFacts,
        context: ContextFacts,
        items: Seq<ItemFacts>,
    ) -> Option<Self>
        decreases items.len(),
    {
        if items.len() == 0 {
            Some(self)
        } else {
            match self.step(plan, context, items.first()) {
                RunStep::Rebuild => None,
                RunStep::Last(run) => Some(run),
                RunStep::More(run) => run.over(plan, context, items.drop_first()),
            }
        }
    }

    /// Every span that is measured on the way ends no earlier than it begins. A span is
    /// measured once its item is known to stand where the last one ended.
    pub open spec fn forward(
        self,
        plan: PlanFacts,
        context: ContextFacts,
        items: Seq<ItemFacts>,
    ) -> bool
        decreases items.len(),
    {
        items.len() > 0 && item_fits(items.first(), self.last, plan.fixed_observed_size) ==> {
            &&& items.first().at.start <= items.first().at.end
            &&& match self.step(plan, context, items.first()) {
                RunStep::More(next) => next.forward(plan, context, items.drop_first()),
                _ => true,
            }
        }
    }
}

/// A batch that looks for the owner. Lines count those replayed before.
pub struct Founding {
    pub gathered: Gathered,
    pub lines: u64,
    pub last: u64,
    pub replayed_bytes: u64,
    pub replayed_lines: u64,
    pub established: bool,
    pub continuation: SourceContinuationState,
}

pub enum FoundingStep {
    Rebuild,
    Awaiting,
    Commit(Founding),
    Last(Founding),
    More(Founding),
}

/// How looking for the owner ended.
pub enum FoundingEnd {
    Rebuild,
    Awaiting,
    /// At the owner's first record.
    Boundary(Founding),
    /// At the end of the items, or of the batch.
    Items(Founding),
}

impl Founding {
    pub open spec fn start(plan: PlanFacts) -> Self {
        Founding {
            gathered: Gathered::start(initial_state(), None, None),
            lines: plan.replayed_lines,
            last: plan.read_start_offset,
            replayed_bytes: plan.replayed_bytes,
            replayed_lines: plan.replayed_lines,
            established: false,
            continuation: SourceContinuationState::OwningLive,
        }
    }

    pub open spec fn replayed(self, item: ItemFacts) -> Self {
        Founding {
            replayed_bytes: saturated(self.replayed_bytes + (item.at.end - item.at.start)),
            replayed_lines: saturated(self.replayed_lines + 1),
            lines: saturated(self.lines + 1),
            last: item.at.end,
            ..self
        }
    }

    /// The record that tells the owner: a session meta record or a turn context, read.
    pub open spec fn tells_owner(item: ItemFacts) -> bool {
        !item.oversized && (item.class.envelope is SessionMeta || item.class.envelope
            is TurnContext)
    }

    pub open spec fn owned(self, plan: PlanFacts, context: ContextFacts, item: ItemFacts) -> FoundingStep {
        let own = Founding {
            established: true,
            continuation: SourceContinuationState::OwningLive,
            ..self
        };
        if !within_budget(
            saturated(saturated(self.last - plan.start_offset) - self.replayed_bytes) as int,
            saturated(self.lines - self.replayed_lines) as int,
            item.at.end - item.at.start,
            item.oversized,
        ) {
            FoundingStep::Last(own)
        } else {
            let noted = own.gathered.with_skills(context, item);
            if noted.taking(context, item) is Taken {
                let taken = Founding {
                    gathered: noted.with_record(context, item),
                    lines: saturated(self.lines + 1),
                    last: item.at.end,
                    ..own
                };
                if plan.allow_replay_tail {
                    FoundingStep::More(taken)
                } else {
                    FoundingStep::Commit(taken)
                }
            } else {
                FoundingStep::Rebuild
            }
        }
    }

    pub open spec fn step(self, plan: PlanFacts, context: ContextFacts, item: ItemFacts) -> FoundingStep {
        if !item_fits(item, self.last, plan.fixed_observed_size) {
            FoundingStep::Rebuild
        } else if !self.established {
            match item.class.ownership {
                RecordOwnership::ReplayedAncestor => FoundingStep::More(self.replayed(item)),
                RecordOwnership::UnknownOwnership => FoundingStep::Awaiting,
                RecordOwnership::Owning => if Founding::tells_owner(item) {
                    self.owned(plan, context, item)
                } else {
                    FoundingStep::Awaiting
                },
            }
        } else {
            match item.class.ownership {
                RecordOwnership::UnknownOwnership => FoundingStep::Rebuild,
                RecordOwnership::ReplayedAncestor => if !plan.allow_replay_tail {
                    FoundingStep::Rebuild
                } else {
                    let after = Founding {
                        continuation: SourceContinuationState::ReplayedAncestor,
                        ..self.replayed(item)
                    };
                    if item.oversized {
                        FoundingStep::Last(after)
                    } else {
                        FoundingStep::More(after)
                    }
                },
                RecordOwnership::Owning => self.owned(plan, context, item),
            }
        }
    }

    pub open spec fn over(
        self,
        plan: PlanFacts,
        context: ContextFacts,
        items: Seq<ItemFacts>,
    ) -> FoundingEnd
        decreases items.len(),
    {
        if items.len() == 0 {
            FoundingEnd::Items(self)
        } else {
            match self.step(plan, context, items.first()) {
                FoundingStep::Rebuild => FoundingEnd::Rebuild,
                FoundingStep::Awaiting => FoundingEnd::Awaiting,
                FoundingStep::Commit(at) => FoundingEnd::Boundary(at),
                FoundingStep::Last(at) => FoundingEnd::Items(at),
                FoundingStep::More(at) => at.over(plan, context, items.drop_first()),
            }
        }
    }

    /// Every span that is measured on the way ends no earlier than it begins. A span is
    /// measured once its item is known to stand where the last one ended.
    pub open spec fn forward(
        self,
        plan: PlanFacts,
        context: ContextFacts,
        items: Seq<ItemFacts>,
    ) -> bool
        decreases items.len(),
    {
        items.len() > 0 && item_fits(items.first(), self.last, plan.fixed_observed_size) ==> {
            &&& items.first().at.start <= items.first().at.end
            &&& match self.step(plan, context, items.first()) {
                FoundingStep::More(next) => next.forward(plan, context, items.drop_first()),
                _ => true,
            }
        }
    }
}

/// A whole file replayed in one batch. Lines and bytes count what the owner owns.
pub struct Replay {
    pub gathered: Gathered,
    pub lines: u64,
    pub bytes: u64,
    pub last: u64,
    pub replayed_bytes: u64,
    pub replayed_lines: u64,
    pub established: bool,
    pub continuation: SourceContinuationState,
}

impl Replay {
    pub open spec fn start(plan: PlanFacts) -> Self {
        Replay {
            gathered: Gathered::start(initial_state(), None, None),
            lines: 0,
            bytes: 0,
            last: plan.read_start_offset,
            replayed_bytes: plan.replayed_bytes,
            replayed_lines: plan.replayed_lines,
            established: false,
            continuation: SourceContinuationState::OwningLive,
        }
    }

    pub open spec fn replayed(self, item: ItemFacts) -> Self {
        Replay {
            replayed_bytes: saturated(self.replayed_bytes + (item.at.end - item.at.start)),
            replayed_lines: saturated(self.replayed_lines + 1),
            last: item.at.end,
            ..self
        }
    }

    /// The replay after an item. `None` when it has to be rebuilt.
    pub open spec fn step(self, plan: PlanFacts, context: ContextFacts, item: ItemFacts) -> Option<
        Self,
    > {
        if !item_fits(item, self.last, plan.fixed_observed_size) {
            None
        } else {
            match item.class.ownership {
                RecordOwnership::UnknownOwnership => None,
                RecordOwnership::ReplayedAncestor => if !self.established {
                    Some(self.replayed(item))
                } else if plan.allow_replay_tail {
                    Some(
                        Replay {
                            continuation: SourceContinuationState::ReplayedAncestor,
                            ..self.replayed(item)
                        },
                    )
                } else {
                    None
                },
                RecordOwnership::Owning => if !self.established && !(item.class.envelope
                    is SessionMeta) {
                    None
                } else if !within_budget(
                    self.bytes as int,
                    self.lines as int,
                    item.at.end - item.at.start,
                    item.oversized,
                ) {
                    None
                } else {
                    let noted = self.gathered.with_skills(context, item);
                    if noted.taking(context, item) is Taken {
                        Some(
                            Replay {
                                gathered: noted.with_record(context, item),
                                lines: (self.lines + 1) as u64,
                                bytes: (self.bytes + (item.at.end - item.at.start)) as u64,
                                last: item.at.end,
                                established: true,
                                continuation: SourceContinuationState::OwningLive,
                                ..self
                            },
                        )
                    } else {
                        None
                    }
                },
            }
        }
    }

    /// The replay after all items. An oversized line of the owner may only come last.
    pub open spec fn over(
        self,
        plan: PlanFacts,
        context: ContextFacts,
        items: Seq<ItemFacts>,
    ) -> Option<Self>
        decreases items.len(),
    {
        if items.len() == 0 {
            Some(self)
        } else {
            match self.step(plan, context, items.first()) {
                None => None,
                Some(after) => if Replay::ends_early(items) {
                    None
                } else {
                    after.over(plan, context, items.drop_first())
                },
            }
        }
    }

    /// An oversized line of the owner that more follows ends the replay.
    pub open spec fn ends_early(items: Seq<ItemFacts>) -> bool {
        items.first().oversized && items.first().class.ownership is Owning && items.len() > 1
    }

    /// Every span that is measured on the way ends no earlier than it begins. A span is
    /// measured once its item is known to stand where the last one ended.
    pub open spec fn forward(
        self,
        plan: PlanFacts,
        context: ContextFacts,
        items: Seq<ItemFacts>,
    ) -> bool
        decreases items.len(),
    {
        items.len() > 0 && item_fits(items.first(), self.last, plan.fixed_observed_size) ==> {
            &&& items.first().at.start <= items.first().at.end
            &&& match self.step(plan, context, items.first()) {
                Some(next) => Replay::ends_early(items) || next.forward(
                    plan,
                    context,
                    items.drop_first(),
                ),
                None => true,
            }
        }
    }
}

/// Where a batch ended.
pub struct Counts {
    pub last: u64,
    pub lines: u64,
    pub replayed_bytes: u64,
    pub replayed_lines: u64,
}

/// What is committed for a batch.
pub open spec fn commit_facts(
    plan: PlanFacts,
    gathered: Gathered,
    counts: Counts,
    tail: FixedViewTail,
    next_guard_hash: Option<Seq<u8>>,
    committed_at_ms: i64,
    continuation: SourceContinuationState,
) -> CommitFacts {
    let owner = plan.owning_thread_id->0;
    let root = plan.root_session_id->0;
    CommitFacts {
        ledger_epoch: plan.ledger_epoch,
        parser_version: plan.parser_version,
        source_file_id: plan.source_file_id,
        expected_file_generation: plan.file_generation,
        expected_previous_thread_id: Some(owner),
        expected_checkpoint: plan.checkpoint,
        expected_checkpoint_missing: plan.checkpoint.committed_offset == 0
            && plan.checkpoint.guard_hash is None && plan.state is None && plan.action is ReadFrom,
        expected_state: plan.state,
        local_replay: plan.action is LocalReplay,
        batch_start_offset: plan.start_offset,
        fixed_observed_raw_size: plan.fixed_observed_size,
        last_complete_offset: counts.last,
        source_bytes_consumed: (counts.last - plan.start_offset) as u64,
        complete_line_count: counts.lines,
        candidate_count: gathered.occurrences.len() as u64,
        replayed_prefix_bytes: counts.replayed_bytes,
        replayed_prefix_lines: counts.replayed_lines,
        fixed_view_exhausted: tail.exhausted,
        tail_status: tail.status,
        tail_start_offset: tail.half_line_start,
        owning_thread_id: owner,
        root_session_id: root,
        events: gathered.events,
        occurrences: gathered.occurrences,
        skill_events: gathered.skills,
        closed_turns: gathered.closed_turns,
        open_turn: gathered.state.open_turn,
        anomalies: gathered.anomalies,
        updated_state: ProofFacts {
            file_generation: plan.file_generation,
            device_id: plan.device_id,
            inode: plan.inode,
            parser_version: plan.parser_version,
            canonical_algorithm_version: match canonical_algorithm(plan.parser_version) {
                Some(version) => version,
                None => -1i64,
            },
            resolved_through_offset: counts.last,
            observed_raw_size: plan.fixed_observed_size,
            raw_tail_status: tail.status,
            raw_tail_start_offset: tail.half_line_start,
            owning_thread_id: owner,
            root_session_id: root,
            continuation_state: continuation,
            processor_state: gathered.state,
            active_model_offset: gathered.model_offset,
            active_reasoning_effort_offset: gathered.effort_offset,
            updated_at_ms: committed_at_ms,
        },
        next_guard_hash,
        committed_at_ms,
    }
}

pub open spec fn unverified_tail() -> FixedViewTail {
    FixedViewTail { exhausted: false, status: TailStatus::Unverified, half_line_start: None }
}

/// The tail of a batch that stopped early is not verified.
pub open spec fn effective_tail(last: u64, observed_size: u64, tail: FixedViewTail) -> FixedViewTail {
    if last < observed_size && tail.exhausted && tail.status is NoTail {
        unverified_tail()
    } else {
        tail
    }
}

pub open spec fn plan_context(plan: PlanFacts) -> ContextFacts {
    ContextFacts {
        source_file_id: plan.source_file_id,
        file_generation: plan.file_generation,
        owning_thread_id: plan.owning_thread_id->0,
        root_session_id: plan.root_session_id->0,
    }
}

/// What comes of a batch that resumes from a state.
pub open spec fn resumed_outcome(
    plan: PlanFacts,
    items: Seq<ItemFacts>,
    tail: FixedViewTail,
    next_guard_hash: Option<Seq<u8>>,
    committed_at_ms: i64,
) -> Result<DispositionFacts, PipelineError> {
    match plan.state {
        None => Err(PipelineError::InvalidPlan),
        Some(state) => match Run::start(plan, state).over(plan, plan_context(plan), items) {
            None => Ok(DispositionFacts::NeedsRebuild),
            Some(run) => {
                let effective = effective_tail(run.last, plan.fixed_observed_size, tail);
                if tail_fits(run.last, plan.fixed_observed_size, effective) {
                    Ok(
                        DispositionFacts::Commit(
                            commit_facts(
                                plan,
                                run.gathered,
                                Counts {
                                    last: run.last,
                                    lines: run.lines,
                                    replayed_bytes: 0,
                                    replayed_lines: 0,
                                },
                                effective,
                                next_guard_hash,
                                committed_at_ms,
                                run.continuation,
                            ),
                        ),
                    )
                } else {
                    Err(PipelineError::InvalidTail)
                }
            },
        },
    }
}

pub open spec fn founding_counts(at: Founding) -> Counts {
    Counts {
        last: at.last,
        lines: at.lines,
        replayed_bytes: at.replayed_bytes,
        replayed_lines: at.replayed_lines,
    }
}

/// What comes of a batch that looks for the owner.
pub open spec fn founding_outcome(
    plan: PlanFacts,
    items: Seq<ItemFacts>,
    next_guard_hash: Option<Seq<u8>>,
    committed_at_ms: i64,
) -> DispositionFacts {
    match Founding::start(plan).over(plan, plan_context(plan), items) {
        FoundingEnd::Rebuild => DispositionFacts::NeedsRebuild,
        FoundingEnd::Awaiting => DispositionFacts::AwaitingOwningMeta,
        FoundingEnd::Boundary(at) => DispositionFacts::Commit(
            commit_facts(
                plan,
                at.gathered,
                founding_counts(at),
                unverified_tail(),
                next_guard_hash,
                committed_at_ms,
                SourceContinuationState::OwningLive,
            ),
        ),
        FoundingEnd::Items(at) => if !at.established {
            DispositionFacts::AwaitingOwningMeta
        } else {
            DispositionFacts::Commit(
                commit_facts(
                    plan,
                    at.gathered,
                    founding_counts(at),
                    if at.last == plan.fixed_observed_size {
                        FixedViewTail {
                            exhausted: true,
                            status: TailStatus::NoTail,
                            half_line_start: None,
                        }
                    } else {
                        unverified_tail()
                    },
                    next_guard_hash,
                    committed_at_ms,
                    at.continuation,
                ),
            )
        },
    }
}

/// What comes of replaying the whole file.
pub open spec fn replay_outcome(
    plan: PlanFacts,
    items: Seq<ItemFacts>,
    tail: FixedViewTail,
    next_guard_hash: Option<Seq<u8>>,
    committed_at_ms: i64,
) -> Result<DispositionFacts, PipelineError> {
    match Replay::start(plan).over(plan, plan_context(plan), items) {
        None => Ok(DispositionFacts::NeedsRebuild),
        Some(at) => if !at.established || !tail.exhausted {
            Ok(DispositionFacts::NeedsRebuild)
        } else if !tail_fits(at.last, plan.fixed_observed_size, tail) {
            Err(PipelineError::InvalidTail)
        } else {
            Ok(
                DispositionFacts::Commit(
                    commit_facts(
                        plan,
                        at.gathered,
                        Counts {
                            last: at.last,
                            lines: (at.replayed_lines + at.lines) as u64,
                            replayed_bytes: at.replayed_bytes,
                            replayed_lines: at.replayed_lines,
                        },
                        tail,
                        next_guard_hash,
                        committed_at_ms,
                        at.continuation,
                    ),
                ),
            )
        },
    }
}

/// The plan is for a source whose owner is not known yet.
pub open spec fn looks_for_owner(plan: PlanFacts) -> bool {
    plan.action is AwaitOwningMeta || ((plan.action is ReadFrom || plan.action is BuildFrom)
        && plan.start_offset == 0 && plan.state is None)
}

/// What comes of a chunk.
pub open spec fn chunk_outcome(
    plan: PlanFacts,
    items: Seq<ItemFacts>,
    tail: FixedViewTail,
    next_guard_hash: Option<Seq<u8>>,
    metadata_needs_rebuild: bool,
    committed_at_ms: i64,
) -> Result<DispositionFacts, PipelineError> {
    if !plan_valid(plan) {
        Err(PipelineError::InvalidPlan)
    } else if !tail_valid(plan, tail) {
        Err(PipelineError::InvalidTail)
    } else if metadata_needs_rebuild {
        Ok(DispositionFacts::NeedsRebuild)
    } else {
        match plan.action {
            PlanAction::Skip => Ok(DispositionFacts::Skip),
            PlanAction::BlockedRelationship => Ok(DispositionFacts::BlockedRelationship),
            PlanAction::RebuildRequired => Ok(DispositionFacts::NeedsRebuild),
            PlanAction::CompleteOnly | PlanAction::BeginCarry | PlanAction::ResumeCarry => Err(
                PipelineError::InvalidPlan,
            ),
            _ => if plan.owning_thread_id is None || plan.root_session_id is None {
                Ok(DispositionFacts::BlockedRelationship)
            } else if plan.action is LocalReplay {
                replay_outcome(plan, items, tail, next_guard_hash, committed_at_ms)
            } else if looks_for_owner(plan) {
                Ok(founding_outcome(plan, items, next_guard_hash, committed_at_ms))
            } else {
                resumed_outcome(plan, items, tail, next_guard_hash, committed_at_ms)
            },
        }
    }
}

/// The plan has the pipeline read items.
pub open spec fn reads_items(plan: PlanFacts, tail: FixedViewTail, metadata_needs_rebuild: bool) -> bool {
    &&& plan_valid(plan)
    &&& tail_valid(plan, tail)
    &&& !metadata_needs_rebuild
    &&& plan.owning_thread_id is Some
    &&& plan.root_session_id is Some
    &&& plan.action is ReadFrom || plan.action is BuildFrom || plan.action is LocalReplay
        || plan.action is AwaitOwningMeta || plan.action is ResumeOwningLive || plan.action
        is VerifyRawTail
}

/// Every span that the pipeline measures in a chunk ends no earlier than it begins. What it
/// does not come to, or refuses before, may be anything.
pub open spec fn chunk_forward(
    plan: PlanFacts,
    items: Seq<ItemFacts>,
    tail: FixedViewTail,
    metadata_needs_rebuild: bool,
) -> bool {
    reads_items(plan, tail, metadata_needs_rebuild) ==> if plan.action is LocalReplay {
        Replay::start(plan).forward(plan, plan_context(plan), items)
    } else if looks_for_owner(plan) {
        Founding::start(plan).forward(plan, plan_context(plan), items)
    } else {
        plan.state is Some ==> Run::start(plan, plan.state->0).forward(
            plan,
            plan_context(plan),
            items,
        )
    }
}

/// Every item ends no earlier than it begins.
pub open spec fn items_forward(items: Seq<ItemFacts>) -> bool {
    forall|i: int| 0 <= i < items.len() ==> (#[trigger] items[i]).at.start <= items[i].at.end
}

proof fn lemma_rest_is_forward(items: Seq<ItemFacts>)
    requires
        items_forward(items),
        items.len() > 0,
    ensures
        items.first().at.start <= items.first().at.end,
        items_forward(items.drop_first()),
{
    assert(items.first() == items[0]);
    assert forall|i: int| 0 <= i < items.drop_first().len() implies (
    #[trigger] items.drop_first()[i]).at.start <= items.drop_first()[i].at.end by {
        assert(items[i + 1].at.start <= items[i + 1].at.end);
    }
}

proof fn lemma_run_forward(run: Run, plan: PlanFacts, context: ContextFacts, items: Seq<ItemFacts>)
    requires
        items_forward(items),
    ensures
        run.forward(plan, context, items),
    decreases items.len(),
{
    if items.len() > 0 {
        lemma_rest_is_forward(items);
        if let RunStep::More(next) = run.step(plan, context, items.first()) {
            lemma_run_forward(next, plan, context, items.drop_first());
        }
    }
}

proof fn lemma_founding_forward(
    at: Founding,
    plan: PlanFacts,
    context: ContextFacts,
    items: Seq<ItemFacts>,
)
    requires
        items_forward(items),
    ensures
        at.forward(plan, context, items),
    decreases items.len(),
{
    if items.len() > 0 {
        lemma_rest_is_forward(items);
        if let FoundingStep::More(next) = at.step(plan, context, items.first()) {
            lemma_founding_forward(next, plan, context, items.drop_first());
        }
    }
}

proof fn lemma_replay_forward(
    at: Replay,
    plan: PlanFacts,
    context: ContextFacts,
    items: Seq<ItemFacts>,
)
    requires
        items_forward(items),
    ensures
        at.forward(plan, context, items),
    decreases items.len(),
{
    if items.len() > 0 {
        lemma_rest_is_forward(items);
        if let Some(next) = at.step(plan, context, items.first()) {
            lemma_replay_forward(next, plan, context, items.drop_first());
        }
    }
}

/// Items that all end no earlier than they begin can be processed under any plan.
pub proof fn lemma_chunk_forward(
    plan: PlanFacts,
    items: Seq<ItemFacts>,
    tail: FixedViewTail,
    metadata_needs_rebuild: bool,
)
    requires
        items_forward(items),
    ensures
        chunk_forward(plan, items, tail, metadata_needs_rebuild),
{
    let context = plan_context(plan);
    lemma_replay_forward(Replay::start(plan), plan, context, items);
    lemma_founding_forward(Founding::start(plan), plan, context, items);
    if plan.state is Some {
        lemma_run_forward(Run::start(plan, plan.state->0), plan, context, items);
    }
}

struct ResumedRun {
    gathering: Gathering,
    lines: u64,
    last: u64,
    continuation: SourceContinuationState,
}

impl View for ResumedRun {
    type V = Run;

    closed spec fn view(&self) -> Run {
        Run {
            gathered: self.gathering@,
            lines: self.lines,
            last: self.last,
            continuation: self.continuation,
        }
    }
}

enum Going {
    Rebuild,
    Awaiting,
    Commit,
    Last,
    More,
}

/// What the counters of a run keep to.
pub open spec fn run_sound(run: Run, plan: PlanFacts) -> bool {
    &&& run.lines <= MAX_BATCH_LINES
    &&& plan.start_offset <= run.last
    &&& run.gathered.occurrences.len() <= MAX_BATCH_CANDIDATES
}

impl ResumedRun {
    fn step(&mut self, plan: &UsagePipelinePlan, context: &UsageContext, item: &ReadUsageItem) -> (r:
        Going)
        requires
            run_sound(old(self)@, plan.deep_view()),
            item_fits(item.deep_view(), old(self)@.last, plan.fixed_observed_size)
                ==> item.at.start <= item.at.end,
        ensures
            match old(self)@.step(plan.deep_view(), context.deep_view(), item.deep_view()) {
                RunStep::Rebuild => r is Rebuild,
                RunStep::Last(run) => r is Last && final(self)@ == run,
                RunStep::More(run) => r is More && final(self)@ == run,
            },
            run_sound(final(self)@, plan.deep_view()),
    {
        if !matching_item(item, self.last, plan.fixed_observed_size) {
            return Going::Rebuild;
        }
        if !fits_line_budget(
            self.last - plan.start_offset,
            self.lines,
            item.at.end - item.at.start,
            item.oversized,
        ) {
            return Going::Last;
        }
        match item.classification.ownership {
            RecordOwnership::UnknownOwnership => Going::Rebuild,
            RecordOwnership::ReplayedAncestor => {
                if self.continuation != SourceContinuationState::ReplayedAncestor {
                    return Going::Rebuild;
                }
                self.lines = self.lines + 1;
                self.last = item.at.end;
                if item.oversized {
                    Going::Last
                } else {
                    Going::More
                }
            },
            RecordOwnership::Owning => {
                self.continuation = SourceContinuationState::OwningLive;
                self.gathering.collect_skill_events(item, context);
                match self.gathering.take(item, context) {
                    Taking::Rebuild => Going::Rebuild,
                    Taking::Full => Going::Last,
                    Taking::Taken => {
                        self.lines = self.lines + 1;
                        self.last = item.at.end;
                        let silent: bool = match &item.raw {
                            UsageRawRecord::Ignored | UsageRawRecord::Unknown => true,
                            UsageRawRecord::TokenCount(record) => record.info.is_none(),
                            _ => false,
                        };
                        if item.oversized && !silent {
                            Going::Last
                        } else {
                            Going::More
                        }
                    },
                }
            },
        }
    }
}

struct FoundingRun {
    gathering: Gathering,
    lines: u64,
    last: u64,
    replayed_bytes: u64,
    replayed_lines: u64,
    established: bool,
    continuation: SourceContinuationState,
}

impl View for FoundingRun {
    type V = Founding;

    closed spec fn view(&self) -> Founding {
        Founding {
            gathered: self.gathering@,
            lines: self.lines,
            last: self.last,
            replayed_bytes: self.replayed_bytes,
            replayed_lines: self.replayed_lines,
            established: self.established,
            continuation: self.continuation,
        }
    }
}

impl FoundingRun {
    fn replay(&mut self, item: &ReadUsageItem)
        requires
            item.at.start <= item.at.end,
        ensures
            final(self)@ == old(self)@.replayed(item.deep_view()),
    {
        self.replayed_bytes = self.replayed_bytes.saturating_add(item.at.end - item.at.start);
        self.replayed_lines = self.replayed_lines.saturating_add(1);
        self.lines = self.lines.saturating_add(1);
        self.last = item.at.end;
    }

    fn own(&mut self, plan: &UsagePipelinePlan, context: &UsageContext, item: &ReadUsageItem) -> (r:
        Going)
        requires
            old(self)@.gathered.occurrences.len() <= MAX_BATCH_CANDIDATES,
            item.at.start <= item.at.end,
            old(self)@.last == item.at.start,
        ensures
            match old(self)@.owned(plan.deep_view(), context.deep_view(), item.deep_view()) {
                FoundingStep::Rebuild => r is Rebuild,
                FoundingStep::Awaiting => r is Awaiting,
                FoundingStep::Commit(at) => r is Commit && final(self)@ == at,
                FoundingStep::Last(at) => r is Last && final(self)@ == at,
                FoundingStep::More(at) => r is More && final(self)@ == at,
            },
            final(self)@.gathered.occurrences.len() <= MAX_BATCH_CANDIDATES,
            final(self)@.last == old(self)@.last || final(self)@.last == item.at.end,
    {
        self.established = true;
        self.continuation = SourceContinuationState::OwningLive;
        if !fits_line_budget(
            self.last.saturating_sub(plan.start_offset).saturating_sub(self.replayed_bytes),
            self.lines.saturating_sub(self.replayed_lines),
            item.at.end - item.at.start,
            item.oversized,
        ) {
            return Going::Last;
        }
        self.gathering.collect_skill_events(item, context);
        match self.gathering.take(item, context) {
            Taking::Rebuild => Going::Rebuild,
            Taking::Full => Going::Rebuild,
            Taking::Taken => {
                self.lines = self.lines.saturating_add(1);
                self.last = item.at.end;
                if plan.allow_replay_tail {
                    Going::More
                } else {
                    Going::Commit
                }
            },
        }
    }

    fn step(&mut self, plan: &UsagePipelinePlan, context: &UsageContext, item: &ReadUsageItem) -> (r:
        Going)
        requires
            old(self)@.gathered.occurrences.len() <= MAX_BATCH_CANDIDATES,
            item_fits(item.deep_view(), old(self)@.last, plan.fixed_observed_size)
                ==> item.at.start <= item.at.end,
            plan.start_offset <= old(self)@.last,
        ensures
            match old(self)@.step(plan.deep_view(), context.deep_view(), item.deep_view()) {
                FoundingStep::Rebuild => r is Rebuild,
                FoundingStep::Awaiting => r is Awaiting,
                FoundingStep::Commit(at) => r is Commit && final(self)@ == at,
                FoundingStep::Last(at) => r is Last && final(self)@ == at,
                FoundingStep::More(at) => r is More && final(self)@ == at,
            },
            final(self)@.gathered.occurrences.len() <= MAX_BATCH_CANDIDATES,
            plan.start_offset <= final(self)@.last,
    {
        if !matching_item(item, self.last, plan.fixed_observed_size) {
            return Going::Rebuild;
        }
        match item.classification.ownership {
            RecordOwnership::UnknownOwnership => if self.established {
                Going::Rebuild
            } else {
                Going::Awaiting
            },
            RecordOwnership::ReplayedAncestor => {
                if !self.established {
                    self.replay(item);
                    return Going::More;
                }
                if !plan.allow_replay_tail {
                    return Going::Rebuild;
                }
                self.continuation = SourceContinuationState::ReplayedAncestor;
                self.replay(item);
                if item.oversized {
                    Going::Last
                } else {
                    Going::More
                }
            },
            RecordOwnership::Owning => {
                if !self.established {
                    let told: bool = match item.classification.envelope {
                        EnvelopeKind::SessionMeta | EnvelopeKind::TurnContext => !item.oversized,
                        _ => false,
                    };
                    if !told {
                        return Going::Awaiting;
                    }
                }
                self.own(plan, context, item)
            },
        }
    }
}

struct ReplayRun {
    gathering: Gathering,
    lines: u64,
    bytes: u64,
    last: u64,
    replayed_bytes: u64,
    replayed_lines: u64,
    established: bool,
    continuation: SourceContinuationState,
}

impl View for ReplayRun {
    type V = Replay;

    closed spec fn view(&self) -> Replay {
        Replay {
            gathered: self.gathering@,
            lines: self.lines,
            bytes: self.bytes,
            last: self.last,
            replayed_bytes: self.replayed_bytes,
            replayed_lines: self.replayed_lines,
            established: self.established,
            continuation: self.continuation,
        }
    }
}

/// What the counters of a replay keep to, after `n` items.
pub open spec fn replay_sound(at: Replay, plan: PlanFacts, n: int) -> bool {
    &&& at.lines <= MAX_BATCH_LINES
    &&& at.bytes <= at.last
    &&& at.gathered.occurrences.len() <= MAX_BATCH_CANDIDATES
    &&& at.replayed_lines + at.lines <= plan.replayed_lines + n
}

impl ReplayRun {
    fn step(
        &mut self,
        plan: &UsagePipelinePlan,
        context: &UsageContext,
        item: &ReadUsageItem,
        n: Ghost<int>,
    ) -> (r: bool)
        requires
            replay_sound(old(self)@, plan.deep_view(), n@),
            item_fits(item.deep_view(), old(self)@.last, plan.fixed_observed_size)
                ==> item.at.start <= item.at.end,
        ensures
            match old(self)@.step(plan.deep_view(), context.deep_view(), item.deep_view()) {
                None => !r,
                Some(at) => r && final(self)@ == at && replay_sound(at, plan.deep_view(), n@ + 1),
            },
    {
        if !matching_item(item, self.last, plan.fixed_observed_size) {
            return false;
        }
        let bytes: u64 = item.at.end - item.at.start;
        match item.classification.ownership {
            RecordOwnership::UnknownOwnership => false,
            RecordOwnership::ReplayedAncestor => {
                if self.established {
                    if !plan.allow_replay_tail {
                        return false;
                    }
                    self.continuation = SourceContinuationState::ReplayedAncestor;
                }
                self.replayed_bytes = self.replayed_bytes.saturating_add(bytes);
                self.replayed_lines = self.replayed_lines.saturating_add(1);
                self.last = item.at.end;
                true
            },
            RecordOwnership::Owning => {
                if !self.established && item.classification.envelope != EnvelopeKind::SessionMeta {
                    return false;
                }
                if !fits_line_budget(self.bytes, self.lines, bytes, item.oversized) {
                    return false;
                }
                self.gathering.collect_skill_events(item, context);
                match self.gathering.take(item, context) {
                    Taking::Taken => {},
                    _ => {
                        return false;
                    },
                }
                self.established = true;
                self.continuation = SourceContinuationState::OwningLive;
                self.lines = self.lines + 1;
                self.bytes = self.bytes + bytes;
                self.last = item.at.end;
                true
            },
        }
    }
}

fn commit_dto(
    plan: UsagePipelinePlan,
    owning_thread_id: String,
    root_session_id: String,
    gathering: Gathering,
    counts: Counts,
    tail: FixedViewTail,
    next_guard_hash: Option<Vec<u8>>,
    committed_at_ms: i64,
    continuation_state: SourceContinuationState,
) -> (r: UsageSourceCommitDto)
    requires
        plan.deep_view().owning_thread_id == Some(owning_thread_id@),
        plan.deep_view().root_session_id == Some(root_session_id@),
        plan.start_offset <= counts.last,
    ensures
        r.deep_view() == commit_facts(
            plan.deep_view(),
            gathering@,
            counts,
            tail,
            next_guard_hash.deep_view(),
            committed_at_ms,
            continuation_state,
        ),
{
    let algorithm: i64 = match canonical_algorithm_for(plan.parser_version) {
        Some(version) => version,
        None => -1,
    };
    let candidate_count: u64 = gathering.occurrences.len() as u64;
    let open_turn: Option<TurnState> = match &gathering.state.open_turn {
        Some(turn) => Some(turn.clone()),
        None => None,
    };
    let updated_state: SourceStateProof = SourceStateProof {
        file_generation: plan.file_generation,
        device_id: plan.device_id,
        inode: plan.inode,
        parser_version: plan.parser_version,
        canonical_algorithm_version: algorithm,
        resolved_through_offset: counts.last,
        observed_raw_size: plan.fixed_observed_size,
        raw_tail_status: tail.status,
        raw_tail_start_offset: tail.half_line_start,
        owning_thread_id: owning_thread_id.clone(),
        root_session_id: root_session_id.clone(),
        continuation_state,
        processor_state: gathering.state,
        active_model_offset: gathering.active_model_offset,
        active_reasoning_effort_offset: gathering.active_reasoning_effort_offset,
        updated_at_ms: committed_at_ms,
    };
    UsageSourceCommitDto {
        ledger_epoch: plan.ledger_epoch,
        parser_version: plan.parser_version,
        source_file_id: plan.source_file_id,
        expected_file_generation: plan.file_generation,
        expected_previous_thread_id: Some(owning_thread_id.clone()),
        expected_checkpoint_missing: plan.checkpoint.committed_offset == 0
            && plan.checkpoint.guard_hash.is_none() && plan.state.is_none() && plan.action
            == PlanAction::ReadFrom,
        expected_checkpoint: plan.checkpoint,
        expected_state: plan.state,
        local_replay: plan.action == PlanAction::LocalReplay,
        batch_start_offset: plan.start_offset,
        fixed_observed_raw_size: plan.fixed_observed_size,
        last_complete_offset: counts.last,
        source_bytes_consumed: counts.last - plan.start_offset,
        complete_line_count: counts.lines,
        candidate_count,
        replayed_prefix_bytes: counts.replayed_bytes,
        replayed_prefix_lines: counts.replayed_lines,
        fixed_view_exhausted: tail.exhausted,
        tail_status: tail.status,
        tail_start_offset: tail.half_line_start,
        owning_thread_id,
        root_session_id,
        events: gathering.events,
        occurrences: gathering.occurrences,
        skill_events: gathering.skill_events,
        closed_turns: gathering.closed_turns,
        open_turn,
        anomalies: gathering.anomalies,
        updated_state,
        next_guard_hash,
        committed_at_ms,
    }
}

fn context_of(plan: &UsagePipelinePlan, owner: &String, root: &String) -> (r: UsageContext)
    requires
        plan.deep_view().owning_thread_id == Some(owner@),
        plan.deep_view().root_session_id == Some(root@),
    ensures
        r.deep_view() == plan_context(plan.deep_view()),
{
    UsageContext {
        source_file_id: plan.source_file_id,
        file_generation: plan.file_generation,
        owning_thread_id: owner.clone(),
        root_session_id: root.clone(),
    }
}

fn establish_ownership(
    plan: UsagePipelinePlan,
    owning_thread_id: String,
    root_session_id: String,
    items: &Vec<ReadUsageItem>,
    next_guard_hash: Option<Vec<u8>>,
    committed_at_ms: i64,
) -> (r: PipelineDisposition)
    requires
        plan.deep_view().owning_thread_id == Some(owning_thread_id@),
        plan.deep_view().root_session_id == Some(root_session_id@),
        plan.start_offset <= plan.read_start_offset,
        Founding::start(plan.deep_view()).forward(
            plan.deep_view(),
            plan_context(plan.deep_view()),
            items.deep_view(),
        ),
    ensures
        r.deep_view() == founding_outcome(
            plan.deep_view(),
            items.deep_view(),
            next_guard_hash.deep_view(),
            committed_at_ms,
        ),
{
    let ghost facts = plan.deep_view();
    let ghost all = items.deep_view();
    let context: UsageContext = context_of(&plan, &owning_thread_id, &root_session_id);
    let mut at: FoundingRun = FoundingRun {
        gathering: Gathering::start(UsageSourceState::default(), None, None),
        lines: plan.replayed_prefix_lines_before_chunk,
        last: plan.read_start_offset,
        replayed_bytes: plan.replayed_prefix_bytes_before_chunk,
        replayed_lines: plan.replayed_prefix_lines_before_chunk,
        established: false,
        continuation: SourceContinuationState::OwningLive,
    };
    let ghost end = Founding::start(facts).over(facts, context.deep_view(), all);
    assert(all.skip(0) =~= all);
    let mut i: usize = 0;
    let mut boundary: bool = false;
    let mut last: bool = false;
    while i < items.len() && !boundary && !last
        invariant
            i <= items.len(),
            all == items.deep_view(),
            facts == plan.deep_view(),
            !boundary && !last ==> at@.forward(facts, plan_context(facts), all.skip(i as int)),
            plan.start_offset <= at@.last,
            at@.gathered.occurrences.len() <= MAX_BATCH_CANDIDATES,
            context.deep_view() == plan_context(facts),
            end == Founding::start(facts).over(facts, plan_context(facts), all),
            boundary ==> end == FoundingEnd::Boundary(at@),
            !boundary && last ==> end == FoundingEnd::Items(at@),
            !boundary && !last ==> end == at@.over(facts, plan_context(facts), all.skip(i as int)),
        decreases items.len() - i,
    {
        proof {
            assert(all.skip(i as int).first() == all[i as int]);
            assert(all.skip(i as int).drop_first() =~= all.skip(i + 1));
        }
        match at.step(&plan, &context, &items[i]) {
            Going::Rebuild => {
                return PipelineDisposition::NeedsRebuild;
            },
            Going::Awaiting => {
                return PipelineDisposition::AwaitingOwningMeta;
            },
            Going::Commit => {
                boundary = true;
            },
            Going::Last => {
                last = true;
            },
            Going::More => {},
        }
        i = i + 1;
    }
    proof {
        if !boundary && !last {
            assert(all.skip(i as int).len() == 0);
        }
    }
    if !boundary && !at.established {
        return PipelineDisposition::AwaitingOwningMeta;
    }
    let (tail, continuation): (FixedViewTail, SourceContinuationState) = if !boundary && at.last
        == plan.fixed_observed_size {
        (
            FixedViewTail { exhausted: true, status: TailStatus::NoTail, half_line_start: None },
            at.continuation,
        )
    } else {
        (
            FixedViewTail { exhausted: false, status: TailStatus::Unverified, half_line_start: None },
            if boundary {
                SourceContinuationState::OwningLive
            } else {
                at.continuation
            },
        )
    };
    let counts: Counts = Counts {
        last: at.last,
        lines: at.lines,
        replayed_bytes: at.replayed_bytes,
        replayed_lines: at.replayed_lines,
    };
    PipelineDisposition::Commit(
        commit_dto(
            plan,
            owning_thread_id,
            root_session_id,
            at.gathering,
            counts,
            tail,
            next_guard_hash,
            committed_at_ms,
            continuation,
        ),
    )
}

fn process_local_replay(
    plan: UsagePipelinePlan,
    owning_thread_id: String,
    root_session_id: String,
    items: &Vec<ReadUsageItem>,
    tail: FixedViewTail,
    next_guard_hash: Option<Vec<u8>>,
    committed_at_ms: i64,
) -> (r: Result<PipelineDisposition, PipelineError>)
    requires
        plan.deep_view().owning_thread_id == Some(owning_thread_id@),
        plan.deep_view().root_session_id == Some(root_session_id@),
        plan.start_offset == 0,
        Replay::start(plan.deep_view()).forward(
            plan.deep_view(),
            plan_context(plan.deep_view()),
            items.deep_view(),
        ),
        plan.replayed_prefix_lines_before_chunk + items@.len() <= u64::MAX,
    ensures
        outcome_view(r) == replay_outcome(
            plan.deep_view(),
            items.deep_view(),
            tail,
            next_guard_hash.deep_view(),
            committed_at_ms,
        ),
{
    let ghost facts = plan.deep_view();
    let ghost all = items.deep_view();
    let context: UsageContext = context_of(&plan, &owning_thread_id, &root_session_id);
    let mut at: ReplayRun = ReplayRun {
        gathering: Gathering::start(UsageSourceState::default(), None, None),
        lines: 0,
        bytes: 0,
        last: plan.read_start_offset,
        replayed_bytes: plan.replayed_prefix_bytes_before_chunk,
        replayed_lines: plan.replayed_prefix_lines_before_chunk,
        established: false,
        continuation: SourceContinuationState::OwningLive,
    };
    let ghost end = Replay::start(facts).over(facts, context.deep_view(), all);
    assert(all.skip(0) =~= all);
    let mut i: usize = 0;
    while i < items.len()
        invariant
            i <= items.len(),
            all == items.deep_view(),
            facts == plan.deep_view(),
            at@.forward(facts, plan_context(facts), all.skip(i as int)),
            replay_sound(at@, facts, i as int),
            context.deep_view() == plan_context(facts),
            end == Replay::start(facts).over(facts, plan_context(facts), all),
            end == at@.over(facts, plan_context(facts), all.skip(i as int)),
        decreases items.len() - i,
    {
        proof {
            assert(all.skip(i as int).first() == all[i as int]);
            assert(all.skip(i as int).drop_first() =~= all.skip(i + 1));
        }
        let item: &ReadUsageItem = &items[i];
        if !at.step(&plan, &context, item, Ghost(i as int)) {
            return Ok(PipelineDisposition::NeedsRebuild);
        }
        if item.oversized && item.classification.ownership == RecordOwnership::Owning && i + 1
            < items.len() {
            return Ok(PipelineDisposition::NeedsRebuild);
        }
        i = i + 1;
    }
    assert(all.skip(i as int).len() == 0);
    if !at.established || !tail.exhausted {
        return Ok(PipelineDisposition::NeedsRebuild);
    }
    match validate_completed_tail(at.last, plan.fixed_observed_size, tail) {
        Ok(()) => {},
        Err(error) => {
            return Err(error);
        },
    }
    let counts: Counts = Counts {
        last: at.last,
        lines: at.replayed_lines + at.lines,
        replayed_bytes: at.replayed_bytes,
        replayed_lines: at.replayed_lines,
    };
    Ok(
        PipelineDisposition::Commit(
            commit_dto(
                plan,
                owning_thread_id,
                root_session_id,
                at.gathering,
                counts,
                tail,
                next_guard_hash,
                committed_at_ms,
                at.continuation,
            ),
        ),
    )
}

fn process_resumed(
    plan: UsagePipelinePlan,
    owning_thread_id: String,
    root_session_id: String,
    items: &Vec<ReadUsageItem>,
    tail: FixedViewTail,
    next_guard_hash: Option<Vec<u8>>,
    committed_at_ms: i64,
) -> (r: Result<PipelineDisposition, PipelineError>)
    requires
        plan.deep_view().owning_thread_id == Some(owning_thread_id@),
        plan.deep_view().root_session_id == Some(root_session_id@),
        plan.state is Some ==> Run::start(plan.deep_view(), plan.deep_view().state->0).forward(
            plan.deep_view(),
            plan_context(plan.deep_view()),
            items.deep_view(),
        ),
    ensures
        outcome_view(r) == resumed_outcome(
            plan.deep_view(),
            items.deep_view(),
            tail,
            next_guard_hash.deep_view(),
            committed_at_ms,
        ),
{
    let ghost facts = plan.deep_view();
    let ghost all = items.deep_view();
    let context: UsageContext = context_of(&plan, &owning_thread_id, &root_session_id);
    let mut at: ResumedRun = match &plan.state {
        None => {
            return Err(PipelineError::InvalidPlan);
        },
        Some(state) => ResumedRun {
            gathering: Gathering::start(
                state.processor_state.clone(),
                state.active_model_offset,
                state.active_reasoning_effort_offset,
            ),
            lines: 0,
            last: plan.start_offset,
            continuation: state.continuation_state,
        },
    };
    let ghost end = Run::start(facts, facts.state->0).over(facts, context.deep_view(), all);
    assert(all.skip(0) =~= all);
    let mut i: usize = 0;
    let mut last: bool = false;
    while i < items.len() && !last
        invariant
            i <= items.len(),
            all == items.deep_view(),
            facts == plan.deep_view(),
            !last ==> at@.forward(facts, plan_context(facts), all.skip(i as int)),
            run_sound(at@, facts),
            context.deep_view() == plan_context(facts),
            facts.state is Some,
            end == Run::start(facts, facts.state->0).over(facts, plan_context(facts), all),
            last ==> end == Some(at@),
            !last ==> end == at@.over(facts, plan_context(facts), all.skip(i as int)),
        decreases items.len() - i,
    {
        proof {
            assert(all.skip(i as int).first() == all[i as int]);
            assert(all.skip(i as int).drop_first() =~= all.skip(i + 1));
        }
        match at.step(&plan, &context, &items[i]) {
            Going::Last => {
                last = true;
            },
            Going::More => {},
            _ => {
                return Ok(PipelineDisposition::NeedsRebuild);
            },
        }
        i = i + 1;
    }
    proof {
        if !last {
            assert(all.skip(i as int).len() == 0);
        }
    }
    let effective: FixedViewTail = if at.last < plan.fixed_observed_size && tail.exhausted
        && tail.status == TailStatus::NoTail {
        FixedViewTail { exhausted: false, status: TailStatus::Unverified, half_line_start: None }
    } else {
        tail
    };
    match validate_completed_tail(at.last, plan.fixed_observed_size, effective) {
        Ok(()) => {},
        Err(error) => {
            return Err(error);
        },
    }
    let counts: Counts = Counts {
        last: at.last,
        lines: at.lines,
        replayed_bytes: 0,
        replayed_lines: 0,
    };
    Ok(
        PipelineDisposition::Commit(
            commit_dto(
                plan,
                owning_thread_id,
                root_session_id,
                at.gathering,
                counts,
                effective,
                next_guard_hash,
                committed_at_ms,
                at.continuation,
            ),
        ),
    )
}

pub open spec fn outcome_view(r: Result<PipelineDisposition, PipelineError>) -> Result<
    DispositionFacts,
    PipelineError,
> {
    match r {
        Ok(disposition) => Ok(disposition.deep_view()),
        Err(error) => Err(error),
    }
}

pub open spec fn read_views(items: Seq<ClassifiedUsageItem>) -> Seq<ItemFacts> {
    Seq::new(items.len(), |i: int| items[i].read_facts())
}

pub struct UsagePipeline;

impl UsagePipeline {
    /// Processes a chunk: reads its lines and turns them into what is to be committed.
    pub fn process_chunk(
        plan: UsagePipelinePlan,
        lines: Vec<ClassifiedUsageItem>,
        tail: FixedViewTail,
        next_guard_hash: Option<Vec<u8>>,
        metadata_needs_rebuild: bool,
        committed_at_ms: i64,
    ) -> (r: Result<PipelineDisposition, PipelineError>)
        requires
            chunk_forward(plan.deep_view(), read_views(lines@), tail, metadata_needs_rebuild),
            plan.action is LocalReplay ==> plan.replayed_prefix_lines_before_chunk + lines@.len()
                <= u64::MAX,
        ensures
            outcome_view(r) == chunk_outcome(
                plan.deep_view(),
                read_views(lines@),
                tail,
                next_guard_hash.deep_view(),
                metadata_needs_rebuild,
                committed_at_ms,
            ),
    {
        let ghost views = read_views(lines@);
        let ghost n = lines@.len();
        let mut remaining: Vec<ClassifiedUsageItem> = lines;
        let mut items: Vec<ReadUsageItem> = Vec::new();
        while remaining.len() > 0
            invariant
                remaining@.len() + items@.len() == n,
                views.len() == n,
                forall|i: int|
                    0 <= i < remaining@.len() ==> views[i] == (
                    #[trigger] remaining@[i]).read_facts(),
                forall|i: int|
                    0 <= i < items@.len() ==> (#[trigger] items@[i]).deep_view() == views[n - 1 - i],
            decreases remaining.len(),
        {
            if let Some(item) = remaining.pop() {
                items.push(item.read());
            }
        }
        let items: Vec<ReadUsageItem> = reversed(items);
        assert(items.deep_view() =~= views);
        UsagePipeline::process_read_items(
            plan,
            items,
            tail,
            next_guard_hash,
            metadata_needs_rebuild,
            committed_at_ms,
        )
    }

    /// Processes a chunk whose lines have been read.
    pub fn process_read_items(
        plan: UsagePipelinePlan,
        items: Vec<ReadUsageItem>,
        tail: FixedViewTail,
        next_guard_hash: Option<Vec<u8>>,
        metadata_needs_rebuild: bool,
        committed_at_ms: i64,
    ) -> (r: Result<PipelineDisposition, PipelineError>)
        requires
            chunk_forward(plan.deep_view(), items.deep_view(), tail, metadata_needs_rebuild),
            plan.action is LocalReplay ==> plan.replayed_prefix_lines_before_chunk + items@.len()
                <= u64::MAX,
        ensures
            outcome_view(r) == chunk_outcome(
                plan.deep_view(),
                items.deep_view(),
                tail,
                next_guard_hash.deep_view(),
                metadata_needs_rebuild,
                committed_at_ms,
            ),
    {
        match validate_plan(&plan) {
            Ok(()) => {},
            Err(error) => {
                return Err(error);
            },
        }
        match validate_tail(&plan, tail) {
            Ok(()) => {},
            Err(error) => {
                return Err(error);
            },
        }
        if metadata_needs_rebuild {
            return Ok(PipelineDisposition::NeedsRebuild);
        }
        match plan.action {
            PlanAction::Skip => {
                return Ok(PipelineDisposition::Skip);
            },
            PlanAction::BlockedRelationship => {
                return Ok(PipelineDisposition::BlockedRelationship);
            },
            PlanAction::RebuildRequired => {
                return Ok(PipelineDisposition::NeedsRebuild);
            },
            PlanAction::CompleteOnly | PlanAction::BeginCarry | PlanAction::ResumeCarry => {
                return Err(PipelineError::InvalidPlan);
            },
            PlanAction::ReadFrom
            | PlanAction::BuildFrom
            | PlanAction::LocalReplay
            | PlanAction::AwaitOwningMeta
            | PlanAction::ResumeOwningLive
            | PlanAction::VerifyRawTail => {},
        }
        let owning_thread_id: String = match &plan.owning_thread_id {
            Some(id) => id.clone(),
            None => {
                return Ok(PipelineDisposition::BlockedRelationship);
            },
        };
        let root_session_id: String = match &plan.root_session_id {
            Some(id) => id.clone(),
            None => {
                return Ok(PipelineDisposition::BlockedRelationship);
            },
        };
        if plan.action == PlanAction::LocalReplay {
            return process_local_replay(
                plan,
                owning_thread_id,
                root_session_id,
                &items,
                tail,
                next_guard_hash,
                committed_at_ms,
            );
        }
        if plan.action == PlanAction::AwaitOwningMeta || ((plan.action == PlanAction::ReadFrom
            || plan.action == PlanAction::BuildFrom) && plan.start_offset == 0
            && plan.state.is_none()) {
            return Ok(
                establish_ownership(
                    plan,
                    owning_thread_id,
                    root_session_id,
                    &items,
                    next_guard_hash,
                    committed_at_ms,
                ),
            );
        }
        process_resumed(
            plan,
            owning_thread_id,
            root_session_id,
            &items,
            tail,
            next_guard_hash,
            committed_at_ms,
        )
    }
}

fn reversed(items: Vec<ReadUsageItem>) -> (r: Vec<ReadUsageItem>)
    ensures
        r@ == items@.reverse(),
{
    let ghost all = items@;
    let mut items: Vec<ReadUsageItem> = items;
    let mut r: Vec<ReadUsageItem> = Vec::new();
    while items.len() > 0
        invariant
            items@.len() + r@.len() == all.len(),
            items@ == all.take(items@.len() as int),
            forall|i: int| 0 <= i < r@.len() ==> #[trigger] r@[i] == all[all.len() - 1 - i],
        decreases items.len(),
    {
        let ghost n = items@.len();
        if let Some(item) = items.pop() {
            assert(item == all[n - 1]);
            r.push(item);
            assert(items@ =~= all.take(n - 1));
        }
    }
    assert(r@ =~= all.reverse());
    r
}

} // verus!
