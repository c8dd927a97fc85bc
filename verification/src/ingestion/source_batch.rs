//! Reading one source until a batch of it can be committed.
//!
//! The reader asks for a stretch of the file, offers each line, and is told what reading
//! came to. Then the batch is prepared, or more has to be read, or the source is left.
use vstd::prelude::*;

use crate::domain::{ContinuationState, MetadataScanStateEntry, SafeFactState};
#[allow(unused_imports)]
use crate::platform::Platform;
use crate::rollout::{ResumeState, RolloutThreadFact};
use crate::rollout_parser::{
    CompleteRolloutLine, OwningThreadCandidates, RecordClassification, RolloutMetadataParser,
    RolloutOwnershipClassifier, RolloutParseContext,
};
#[allow(unused_imports)]
use crate::rollout_parser::{ends_line, without_line_ending, LineFacts, Scan, Span};
#[allow(unused_imports)]
use crate::json::json_document;
#[allow(unused_imports)]
use crate::usage::{raw_record, RawFacts};
use super::chunks::{
    read_error_code, tail_from_read, ChunkReadError, ChunkReadPlan, ChunkReadResult, FramedItem,
    FramedLine, GuardHash, PhysicalIdentity, ReadControl,
};
#[allow(unused_imports)]
use super::chunks::{error_code, guard_view, tail_of};
use super::commit_types::UsageContinuationState;
use super::report::UsageCommitMetrics;
#[allow(unused_imports)]
use super::report::metrics_of;
use super::usage_pipeline::{
    ClassifiedOversizedUsageLine, ClassifiedUsageItem, ClassifiedUsageLine, PipelineDisposition,
    PipelineError, UsagePipeline, UsagePipelinePlan, UsageSourceCommitDto,
};
#[allow(unused_imports)]
use super::usage_pipeline::{
    chunk_forward, chunk_outcome, items_forward, lemma_chunk_forward, outcome_view, CommitFacts,
    DispositionFacts, ItemFacts,
};
use super::usage_plan::{
    checkpoint_guard, pipeline_plan, PlannedRead, SourceUsageEpochState, UsageSourceScanPlan,
};
#[allow(unused_imports)]
use super::usage_plan::{
    checkpoint_guard_error, expected_guard_of, plan_error, planned, stored_identity, ScanPlanFacts,
};
use super::usage_window::{Window, WindowRules};
#[allow(unused_imports)]
use super::usage_window::{law_window_stays_within_a_batch, Offer, WindowFacts};

verus! {

/// A rollout file as discovery saw it.
#[derive(Clone, Debug, PartialEq, Eq)]
pub struct DiscoveredFile {
    pub path: String,
    pub device_id: i64,
    pub inode: i64,
    pub size: i64,
    pub filename_thread_id_candidate: Option<String>,
}

/// What became of a source.
#[derive(Clone, Debug, PartialEq, Eq)]
pub enum UsageReadStep {
    Prepared { dto: UsageSourceCommitDto, metrics: UsageCommitMetrics },
    AwaitingOwnership,
    InvalidSessionData,
    NeedsRebuild,
    NeedsRebuildStop,
}

pub enum StepFacts {
    Prepared(CommitFacts),
    AwaitingOwnership,
    InvalidSessionData,
    NeedsRebuild,
    NeedsRebuildStop,
}

impl UsageReadStep {
    pub open spec fn facts(self) -> StepFacts {
        match self {
            UsageReadStep::Prepared { dto, .. } => StepFacts::Prepared(dto.deep_view()),
            UsageReadStep::AwaitingOwnership => StepFacts::AwaitingOwnership,
            UsageReadStep::InvalidSessionData => StepFacts::InvalidSessionData,
            UsageReadStep::NeedsRebuild => StepFacts::NeedsRebuild,
            UsageReadStep::NeedsRebuildStop => StepFacts::NeedsRebuildStop,
        }
    }

    /// The counts of a prepared batch are those of its commit.
    pub open spec fn counted(self) -> bool {
        self matches UsageReadStep::Prepared { dto, metrics } ==> metrics == metrics_of(
            dto.deep_view(),
        )
    }
}

/// The reading of one source.
pub struct SourceReading {
    pub epoch: SourceUsageEpochState,
    pub source: UsageSourceScanPlan,
    pub file_generation: i64,
    pub device_id: i64,
    pub inode: i64,
    pub identity: PhysicalIdentity,
    pub fixed_observed_size: u64,
    pub initial_start: u64,
    pub parser: RolloutOwnershipClassifier,
    pub window: Window,
    pub cursor: u64,
    pub expected_guard: Option<GuardHash>,
}

pub struct ReadingFacts {
    pub epoch: SourceUsageEpochState,
    pub source: ScanPlanFacts,
    pub file_generation: i64,
    pub device_id: i64,
    pub inode: i64,
    pub identity: PhysicalIdentity,
    pub fixed_observed_size: u64,
    pub initial_start: u64,
    pub scan: Scan,
    pub window: WindowFacts,
    pub cursor: u64,
    pub expected_guard: Option<Seq<u8>>,
}

impl DeepView for SourceReading {
    type V = ReadingFacts;

    open spec fn deep_view(&self) -> ReadingFacts {
        ReadingFacts {
            epoch: self.epoch,
            source: self.source.deep_view(),
            file_generation: self.file_generation,
            device_id: self.device_id,
            inode: self.inode,
            identity: self.identity,
            fixed_observed_size: self.fixed_observed_size,
            initial_start: self.initial_start,
            scan: self.parser@,
            window: self.window.deep_view(),
            cursor: self.cursor,
            expected_guard: guard_view(self.expected_guard),
        }
    }
}

/// What a source is started with.
pub enum StartFacts {
    Failed(Seq<char>),
    NeedsRebuild,
    Reading(ReadingFacts),
}

pub enum BatchStart {
    NeedsRebuild,
    Reading(SourceReading),
}

pub open spec fn start_view(r: Result<BatchStart, &'static str>) -> StartFacts {
    match r {
        Err(error) => StartFacts::Failed(error@),
        Ok(BatchStart::NeedsRebuild) => StartFacts::NeedsRebuild,
        Ok(BatchStart::Reading(reading)) => StartFacts::Reading(reading.deep_view()),
    }
}

/// The continuation that a source resumes with.
pub open spec fn resumption(state: UsageContinuationState, owner: String) -> ResumeState {
    match state {
        UsageContinuationState::ReplayedAncestor => ResumeState::ReplayedAncestor {
            owning_thread_id: owner,
        },
        UsageContinuationState::OwningLive => ResumeState::OwningLive { owning_thread_id: owner },
    }
}

/// What the classifier is started with: from nothing at the start of the file, and after it
/// from what storage knows.
pub open spec fn parse_context(
    platform: Platform,
    source: UsageSourceScanPlan,
    safe_fact: SafeFactState,
    candidates: OwningThreadCandidates,
) -> RolloutParseContext {
    RolloutParseContext {
        platform,
        source_file_id: source.source_file_id,
        chunk_start_offset: source.start_offset as u64,
        candidates,
        resume_state: if source.start_offset == 0 {
            ResumeState::AwaitOwningMeta
        } else {
            resumption(source.state->0.continuation_state, source.owning_thread_id->0)
        },
        existing_fact: if source.start_offset == 0 {
            None
        } else {
            Some(RolloutThreadFact::restored(safe_fact->Matching_0))
        },
    }
}

pub open spec fn replays_at_end(source: UsageSourceScanPlan, safe_fact: SafeFactState) -> bool {
    ||| safe_fact matches SafeFactState::Matching(fact) && fact.continuation_state
        is ReplayedAncestor
    ||| source.state matches Some(state) && state.continuation_state is ReplayedAncestor
}

pub open spec fn establishes(source: UsageSourceScanPlan) -> bool {
    source.start_offset == 0 && source.state is None
}

/// Where the metadata found the first record of the owner.
pub open spec fn boundary_of(source: UsageSourceScanPlan, safe_fact: SafeFactState) -> Option<i64> {
    match safe_fact {
        SafeFactState::Matching(fact) => if establishes(source) {
            fact.owning_records_start_offset
        } else {
            None
        },
        _ => None,
    }
}

pub open spec fn rules_of(source: UsageSourceScanPlan, safe_fact: SafeFactState) -> WindowRules {
    WindowRules {
        establishing: establishes(source),
        allow_replay_tail: replays_at_end(source, safe_fact),
        owning_boundary_offset: match boundary_of(source, safe_fact) {
            Some(offset) => Some(offset as u64),
            None => None,
        },
    }
}

/// What starting to read a source comes to.
pub open spec fn started(
    epoch: SourceUsageEpochState,
    source: UsageSourceScanPlan,
    file: DiscoveredFile,
    file_generation: i64,
    platform: Platform,
    safe_fact: SafeFactState,
    candidates: OwningThreadCandidates,
) -> StartFacts {
    let facts = source.deep_view();
    if file.size < 0 {
        StartFacts::Failed("USAGE_SOURCE_SIZE_INVALID"@)
    } else if file.device_id < 0 || file.inode < 0 {
        StartFacts::Failed("USAGE_SOURCE_IDENTITY_INVALID"@)
    } else if source.start_offset < 0 {
        StartFacts::Failed("USAGE_SOURCE_OFFSET_INVALID"@)
    } else if let Some(error) = checkpoint_guard_error(facts.checkpoint) {
        StartFacts::Failed(error)
    } else if source.start_offset != 0 && (source.owning_thread_id is None || source.state is None
        || !(safe_fact is Matching)) {
        StartFacts::NeedsRebuild
    } else if source.start_offset != 0 && safe_fact->Matching_0.fault() is Some {
        StartFacts::Failed("USAGE_SAFE_FACT_INVALID"@)
    } else if boundary_of(source, safe_fact) is Some && boundary_of(source, safe_fact)->0 < 0 {
        StartFacts::Failed("USAGE_OWNERSHIP_BOUNDARY_INVALID"@)
    } else {
        StartFacts::Reading(
            ReadingFacts {
                epoch,
                source: facts,
                file_generation,
                device_id: file.device_id,
                inode: file.inode,
                identity: stored_identity(file.device_id, file.inode),
                fixed_observed_size: file.size as u64,
                initial_start: source.start_offset as u64,
                scan: Scan::start(parse_context(platform, source, safe_fact, candidates), false),
                window: WindowFacts::opened(
                    rules_of(source, safe_fact),
                    0,
                    0,
                    source.start_offset > 0,
                ),
                cursor: source.start_offset as u64,
                expected_guard: expected_guard_of(facts.checkpoint),
            },
        )
    }
}

/// What one reading of a stretch came to.
pub enum Verdict {
    Failed(Seq<char>),
    ReadOn,
    Done(StepFacts),
}

pub open spec fn verdict_view(r: Result<Option<UsageReadStep>, &'static str>) -> Verdict {
    match r {
        Err(error) => Verdict::Failed(error@),
        Ok(None) => Verdict::ReadOn,
        Ok(Some(step)) => Verdict::Done(step.facts()),
    }
}

/// What a chunk that the pipeline has judged means to the source.
pub open spec fn judged(
    outcome: Result<DispositionFacts, PipelineError>,
    exhausted: bool,
    from_start: bool,
) -> Verdict {
    match outcome {
        Err(_) => Verdict::Failed("USAGE_PIPELINE_FAILED"@),
        Ok(DispositionFacts::Commit(commit)) => Verdict::Done(StepFacts::Prepared(commit)),
        Ok(DispositionFacts::AwaitingOwningMeta) => if exhausted {
            Verdict::Done(StepFacts::AwaitingOwnership)
        } else if from_start {
            Verdict::ReadOn
        } else {
            Verdict::Done(StepFacts::NeedsRebuild)
        },
        Ok(DispositionFacts::NeedsRebuild) => Verdict::Done(StepFacts::NeedsRebuild),
        Ok(DispositionFacts::Skip) => Verdict::Done(StepFacts::AwaitingOwnership),
        Ok(DispositionFacts::BlockedRelationship) => Verdict::Done(StepFacts::AwaitingOwnership),
    }
}

/// What a source comes to by what the pipeline made of its chunk: nothing while reading goes
/// on.
pub fn judge(
    outcome: Result<PipelineDisposition, PipelineError>,
    exhausted: bool,
    from_start: bool,
) -> (r: Result<Option<UsageReadStep>, &'static str>)
    ensures
        verdict_view(r) == judged(outcome_view(outcome), exhausted, from_start),
        r matches Ok(Some(step)) ==> step.counted(),
{
    match outcome {
        Err(_) => Err("USAGE_PIPELINE_FAILED"),
        Ok(PipelineDisposition::Commit(dto)) => {
            let metrics: UsageCommitMetrics = UsageCommitMetrics::from_dto(&dto);
            Ok(Some(UsageReadStep::Prepared { dto, metrics }))
        },
        Ok(PipelineDisposition::AwaitingOwningMeta) => if exhausted {
            Ok(Some(UsageReadStep::AwaitingOwnership))
        } else if from_start {
            Ok(None)
        } else {
            Ok(Some(UsageReadStep::NeedsRebuild))
        },
        Ok(PipelineDisposition::NeedsRebuild) => Ok(Some(UsageReadStep::NeedsRebuild)),
        Ok(PipelineDisposition::Skip) => Ok(Some(UsageReadStep::AwaitingOwnership)),
        Ok(PipelineDisposition::BlockedRelationship) => Ok(Some(UsageReadStep::AwaitingOwnership)),
    }
}

impl ReadingFacts {
    /// The stretch to be read next.
    pub open spec fn next_plan(self, plan: ChunkReadPlan) -> bool {
        &&& plan.identity == self.identity
        &&& plan.start_offset == self.cursor
        &&& plan.observed_size == self.fixed_observed_size
        &&& guard_view(plan.expected_guard) == self.expected_guard
    }

    pub open spec fn planned_read(self) -> PlannedRead {
        PlannedRead {
            file_generation: self.file_generation,
            device_id: self.device_id,
            inode: self.inode,
            fixed_observed_size: self.fixed_observed_size,
            read_start_offset: if self.initial_start == 0 {
                self.window.replayed_prefix_bytes
            } else {
                self.initial_start
            },
            replayed_prefix_bytes: self.window.replayed_prefix_bytes,
            replayed_prefix_lines: self.window.replayed_prefix_lines,
            allow_replay_tail: self.window.rules.allow_replay_tail,
        }
    }

    /// The reading goes on where the stretch ended.
    pub open spec fn moved_on(self, read: ChunkReadResult) -> ReadingFacts {
        ReadingFacts {
            window: self.window.reopened(),
            cursor: read.last_complete_offset,
            expected_guard: guard_view(read.guard),
            ..self
        }
    }

    /// The stretch, as far as it comes before the pipeline, holds no span that ends before it
    /// begins.
    pub open spec fn settles_forward(self, read: Result<ChunkReadResult, ChunkReadError>) -> bool {
        match read {
            Err(_) => true,
            Ok(chunk) => self.window.unknown_ownership || (self.window.retained.len() == 0
                && !self.window.ownership_established) || plan_error(self.source) is Some
                || chunk_forward(
                planned(self.epoch, self.source, self.planned_read()),
                self.window.retained,
                tail_of(chunk),
                false,
            ),
        }
    }

    /// What the stretch means to the source.
    pub open spec fn verdict(self, read: Result<ChunkReadResult, ChunkReadError>, now_ms: i64) -> Verdict {
        match read {
            Err(error) => if error.stale() {
                Verdict::Done(StepFacts::NeedsRebuildStop)
            } else {
                Verdict::Failed(error_code(error))
            },
            Ok(chunk) => if self.window.unknown_ownership {
                Verdict::Done(
                    if self.window.invalid_session_data {
                        StepFacts::InvalidSessionData
                    } else if self.window.rules.establishing {
                        StepFacts::AwaitingOwnership
                    } else {
                        StepFacts::NeedsRebuild
                    },
                )
            } else if self.window.retained.len() == 0 && !self.window.ownership_established {
                if chunk.fixed_view_exhausted {
                    Verdict::Done(StepFacts::AwaitingOwnership)
                } else {
                    Verdict::ReadOn
                }
            } else if plan_error(self.source) is Some {
                Verdict::Failed("USAGE_PIPELINE_PLAN_FAILED"@)
            } else {
                judged(
                    chunk_outcome(
                        planned(self.epoch, self.source, self.planned_read()),
                        self.window.retained,
                        tail_of(chunk),
                        guard_view(chunk.guard),
                        false,
                        now_ms,
                    ),
                    chunk.fixed_view_exhausted,
                    self.initial_start == 0,
                )
            },
        }
    }
}

/// What a line is known by.
pub open spec fn line_facts(line: FramedLine) -> LineFacts {
    LineFacts {
        at: Span {
            start: line.start_offset,
            end: (line.start_offset + line.bytes_with_newline@.len()) as u64,
        },
        json: without_line_ending(line.bytes_with_newline@),
    }
}

pub open spec fn is_line(line: FramedLine) -> bool {
    ends_line(line.bytes_with_newline@) && line.start_offset + line.bytes_with_newline@.len()
        <= u64::MAX
}

/// The classifier right after a line.
pub open spec fn scanned(scan: Scan, line: LineFacts) -> Scan {
    (Scan { last_classification: None, ..scan }).with_line(line)
}

/// The classifier after what was read.
pub open spec fn framed_scan(scan: Scan, framed: FramedItem) -> Scan {
    match framed {
        FramedItem::Line(line) => if is_line(line) {
            Scan { last_classification: None, ..scanned(scan, line_facts(line)) }
        } else {
            scan
        },
        FramedItem::OversizedCompleteLine(line) => scan.with_opaque(
            line.start_offset,
            line.end_offset,
        ),
    }
}

/// What was read, with who owns it: nothing when it is no line, or the classifier has nothing
/// to say of it.
pub open spec fn framed_item(scan: Scan, framed: FramedItem) -> Option<ItemFacts> {
    match framed {
        FramedItem::Line(line) => if is_line(line) {
            match scanned(scan, line_facts(line)).last_classification {
                Some(class) => Some(
                    ItemFacts {
                        at: line_facts(line).at,
                        class,
                        oversized: false,
                        raw: if class.ownership is Owning {
                            raw_record(json_document(line_facts(line).json))
                        } else {
                            RawFacts::Ignored
                        },
                        skills: line.skill_usage.deep_view(),
                    },
                ),
                None => None,
            }
        } else {
            None
        },
        FramedItem::OversizedCompleteLine(line) => Some(
            ItemFacts {
                at: Span { start: line.start_offset, end: line.end_offset },
                class: scan.opaque_class(line.start_offset, line.end_offset),
                oversized: true,
                raw: RawFacts::OversizedComplete,
                skills: None,
            },
        ),
    }
}

pub open spec fn item_view(item: Option<ClassifiedUsageItem>) -> Option<ItemFacts> {
    match item {
        Some(item) => Some(item.read_facts()),
        None => None,
    }
}

/// Classifies what was read.
pub fn classify_framed(parser: &mut RolloutOwnershipClassifier, framed: FramedItem) -> (r: Option<
    ClassifiedUsageItem,
>)
    ensures
        item_view(r) == framed_item(old(parser)@, framed),
        final(parser)@ == framed_scan(old(parser)@, framed),
{
    match framed {
        FramedItem::Line(line) => {
            match CompleteRolloutLine::new(line.start_offset, line.bytes_with_newline) {
                None => None,
                Some(complete) => match parser.push_classified(&complete) {
                    None => None,
                    Some(classification) => Some(
                        ClassifiedUsageItem::Line(
                            ClassifiedUsageLine {
                                line: complete,
                                classification,
                                skill_usage: line.skill_usage,
                            },
                        ),
                    ),
                },
            }
        },
        FramedItem::OversizedCompleteLine(line) => {
            let classification: RecordClassification = parser.push_opaque_classified(
                line.start_offset,
                line.end_offset,
            );
            Some(
                ClassifiedUsageItem::Oversized(
                    ClassifiedOversizedUsageLine {
                        start_offset: line.start_offset,
                        end_offset: line.end_offset,
                        classification,
                    },
                ),
            )
        },
    }
}

/// What is offered for a line that was read.
pub open spec fn offered(window: WindowFacts, item: Option<ItemFacts>) -> Offer {
    match item {
        Some(item) => window.offered(item),
        None => window.lost().stop(),
    }
}

impl SourceReading {
    /// What was kept of the stretch fits into one batch.
    pub open spec fn wf(self) -> bool {
        self.window.deep_view().within_batch()
    }

    /// Starts to read a source.
    pub fn start(
        epoch: SourceUsageEpochState,
        source: UsageSourceScanPlan,
        file: &DiscoveredFile,
        file_generation: i64,
        metadata_entry: &MetadataScanStateEntry,
        candidates: OwningThreadCandidates,
    ) -> (r: Result<BatchStart, &'static str>)
        ensures
            start_view(r) == started(
                epoch,
                source,
                *file,
                file_generation,
                metadata_entry.source.platform,
                metadata_entry.safe_fact,
                candidates,
            ),
            r matches Ok(BatchStart::Reading(reading)) ==> reading.wf(),
    {
        if file.size < 0 {
            return Err("USAGE_SOURCE_SIZE_INVALID");
        }
        let fixed_observed_size: u64 = file.size as u64;
        let identity: PhysicalIdentity = match PhysicalIdentity::from_stored(
            file.device_id,
            file.inode,
        ) {
            Some(identity) => identity,
            None => {
                return Err("USAGE_SOURCE_IDENTITY_INVALID");
            },
        };
        if source.start_offset < 0 {
            return Err("USAGE_SOURCE_OFFSET_INVALID");
        }
        let initial_start: u64 = source.start_offset as u64;
        let initial_guard: Option<GuardHash> = checkpoint_guard(&source)?;
        let (resume_state, existing_fact): (ResumeState, Option<RolloutThreadFact>) =
            if initial_start == 0 {
            (ResumeState::AwaitOwningMeta, None)
        } else {
            match (&source.owning_thread_id, &source.state, &metadata_entry.safe_fact) {
                (Some(owner), Some(state), SafeFactState::Matching(fact)) => {
                    let fact: RolloutThreadFact = match RolloutThreadFact::from_safe_fact(fact) {
                        Ok(fact) => fact,
                        Err(_) => {
                            return Err("USAGE_SAFE_FACT_INVALID");
                        },
                    };
                    let resume: ResumeState = match state.continuation_state {
                        UsageContinuationState::ReplayedAncestor => ResumeState::ReplayedAncestor {
                            owning_thread_id: owner.clone(),
                        },
                        UsageContinuationState::OwningLive => ResumeState::OwningLive {
                            owning_thread_id: owner.clone(),
                        },
                    };
                    (resume, Some(fact))
                },
                _ => {
                    return Ok(BatchStart::NeedsRebuild);
                },
            }
        };
        let stateless: bool = match &source.state {
            Some(_) => false,
            None => true,
        };
        let establishing: bool = initial_start == 0 && stateless;
        let metadata_replay_tail: bool = match &metadata_entry.safe_fact {
            SafeFactState::Matching(fact) => match fact.continuation_state {
                ContinuationState::ReplayedAncestor => true,
                _ => false,
            },
            _ => false,
        };
        let state_replay_tail: bool = match &source.state {
            Some(state) => match state.continuation_state {
                UsageContinuationState::ReplayedAncestor => true,
                UsageContinuationState::OwningLive => false,
            },
            None => false,
        };
        let owning_boundary_offset: Option<u64> = if establishing {
            match &metadata_entry.safe_fact {
                SafeFactState::Matching(fact) => match fact.owning_records_start_offset {
                    Some(offset) => if offset < 0 {
                        return Err("USAGE_OWNERSHIP_BOUNDARY_INVALID");
                    } else {
                        Some(offset as u64)
                    },
                    None => None,
                },
                _ => None,
            }
        } else {
            None
        };
        let context: RolloutParseContext = RolloutParseContext {
            platform: metadata_entry.source.platform,
            source_file_id: source.source_file_id,
            chunk_start_offset: initial_start,
            candidates,
            resume_state,
            existing_fact,
        };
        assert(context == parse_context(
            metadata_entry.source.platform,
            source,
            metadata_entry.safe_fact,
            candidates,
        ));
        let parser: RolloutOwnershipClassifier = RolloutMetadataParser::start_chunk(context);
        let window: Window = Window::open(
            WindowRules {
                establishing,
                allow_replay_tail: metadata_replay_tail || state_replay_tail,
                owning_boundary_offset,
            },
            0,
            0,
            initial_start > 0,
        );
        Ok(
            BatchStart::Reading(
                SourceReading {
                    epoch,
                    source,
                    file_generation,
                    device_id: file.device_id,
                    inode: file.inode,
                    identity,
                    fixed_observed_size,
                    initial_start,
                    parser,
                    window,
                    cursor: initial_start,
                    expected_guard: initial_guard,
                },
            ),
        )
    }

    /// The stretch to read next.
    pub fn next_read(&self) -> (r: ChunkReadPlan)
        ensures
            self.deep_view().next_plan(r),
    {
        ChunkReadPlan {
            identity: self.identity,
            start_offset: self.cursor,
            observed_size: self.fixed_observed_size,
            expected_guard: self.expected_guard,
        }
    }

    /// Offers what was classified, and says whether to read on.
    pub fn offer_classified(&mut self, item: Option<ClassifiedUsageItem>) -> (r: ReadControl)
        requires
            old(self).wf(),
        ensures
            final(self).wf(),
            ({
                let offer = offered(old(self).deep_view().window, item_view(item));
                &&& r == offer.control
                &&& final(self).deep_view() == (ReadingFacts {
                    window: offer.window,
                    ..old(self).deep_view()
                })
            }),
    {
        match item {
            Some(item) => {
                proof {
                    law_window_stays_within_a_batch(self.window.deep_view(), item.read_facts());
                }
                self.window.offer(item)
            },
            None => self.window.reject(),
        }
    }

    /// Offers what was read, and says whether to read on.
    pub fn offer(&mut self, framed: FramedItem) -> (r: ReadControl)
        requires
            old(self).wf(),
        ensures
            final(self).wf(),
            ({
                let before = old(self).deep_view();
                let offer = offered(before.window, framed_item(before.scan, framed));
                &&& r == offer.control
                &&& final(self).deep_view() == (ReadingFacts {
                    scan: framed_scan(before.scan, framed),
                    window: offer.window,
                    ..before
                })
            }),
    {
        let item: Option<ClassifiedUsageItem> = classify_framed(&mut self.parser, framed);
        self.offer_classified(item)
    }

    /// Settles the stretch that was read: the source is done with, or reading goes on where the
    /// stretch ended.
    pub fn after_read(self, read: Result<ChunkReadResult, ChunkReadError>, now_ms: i64) -> (r:
        Result<BatchTurn, &'static str>)
        requires
            self.wf(),
            self.deep_view().settles_forward(read),
            self.window.replayed_prefix_lines + self.window.retained@.len() <= u64::MAX,
        ensures
            turn_view(r) == match self.deep_view().verdict(read, now_ms) {
                Verdict::Failed(error) => TurnFacts::Failed(error),
                Verdict::Done(step) => TurnFacts::Done(step),
                Verdict::ReadOn => TurnFacts::ReadOn(
                    self.deep_view().moved_on(read->Ok_0),
                ),
            },
            r matches Ok(BatchTurn::ReadOn(reading)) ==> reading.wf(),
            r matches Ok(BatchTurn::Done(step)) ==> step.counted(),
    {
        let ghost before = self.deep_view();
        let chunk: ChunkReadResult = match read {
            Ok(chunk) => chunk,
            Err(error) => {
                if error.is_stale() {
                    return Ok(BatchTurn::Done(UsageReadStep::NeedsRebuildStop));
                }
                return Err(read_error_code(error));
            },
        };
        if self.window.unknown_ownership {
            let step: UsageReadStep = if self.window.invalid_session_data {
                UsageReadStep::InvalidSessionData
            } else if self.window.rules.establishing {
                UsageReadStep::AwaitingOwnership
            } else {
                UsageReadStep::NeedsRebuild
            };
            return Ok(BatchTurn::Done(step));
        }
        let read_on: bool = if self.window.retained.len() == 0
            && !self.window.ownership_established {
            if chunk.fixed_view_exhausted {
                return Ok(BatchTurn::Done(UsageReadStep::AwaitingOwnership));
            }
            true
        } else {
            false
        };
        let rules: WindowRules = self.window.rules;
        let replayed_prefix_bytes: u64 = self.window.replayed_prefix_bytes;
        let replayed_prefix_lines: u64 = self.window.replayed_prefix_lines;
        let ownership_established: bool = self.window.ownership_established;
        if !read_on {
            let planned_read: PlannedRead = PlannedRead {
                file_generation: self.file_generation,
                device_id: self.device_id,
                inode: self.inode,
                fixed_observed_size: self.fixed_observed_size,
                read_start_offset: if self.initial_start == 0 {
                    replayed_prefix_bytes
                } else {
                    self.initial_start
                },
                replayed_prefix_bytes,
                replayed_prefix_lines,
                allow_replay_tail: rules.allow_replay_tail,
            };
            let plan: UsagePipelinePlan = match pipeline_plan(
                &self.epoch,
                &self.source,
                &planned_read,
            ) {
                Ok(plan) => plan,
                Err(_) => {
                    return Err("USAGE_PIPELINE_PLAN_FAILED");
                },
            };
            let guard: Option<Vec<u8>> = match chunk.guard {
                Some(hash) => Some(hash.to_vec()),
                None => None,
            };
            assert(guard.deep_view() == guard_view(chunk.guard)) by {
                if let Some(bytes) = guard {
                    assert(bytes.deep_view() =~= bytes@);
                }
            }
            let retained: Vec<ClassifiedUsageItem> = self.window.retained;
            let outcome: Result<PipelineDisposition, PipelineError> = UsagePipeline::process_chunk(
                plan,
                retained,
                tail_from_read(&chunk),
                guard,
                false,
                now_ms,
            );
            match judge(outcome, chunk.fixed_view_exhausted, self.initial_start == 0)? {
                Some(step) => {
                    return Ok(BatchTurn::Done(step));
                },
                None => {},
            }
        }
        let reading: SourceReading = SourceReading {
            epoch: self.epoch,
            source: self.source,
            file_generation: self.file_generation,
            device_id: self.device_id,
            inode: self.inode,
            identity: self.identity,
            fixed_observed_size: self.fixed_observed_size,
            initial_start: self.initial_start,
            parser: self.parser,
            window: Window::open(
                rules,
                replayed_prefix_bytes,
                replayed_prefix_lines,
                ownership_established,
            ),
            cursor: chunk.last_complete_offset,
            expected_guard: chunk.guard,
        };
        assert(reading.deep_view() == before.moved_on(chunk));
        Ok(BatchTurn::ReadOn(reading))
    }
}

/// How the reading of a source goes on.
pub enum BatchTurn {
    ReadOn(SourceReading),
    Done(UsageReadStep),
}

pub enum TurnFacts {
    Failed(Seq<char>),
    ReadOn(ReadingFacts),
    Done(StepFacts),
}

pub open spec fn turn_view(r: Result<BatchTurn, &'static str>) -> TurnFacts {
    match r {
        Err(error) => TurnFacts::Failed(error@),
        Ok(BatchTurn::ReadOn(reading)) => TurnFacts::ReadOn(reading.deep_view()),
        Ok(BatchTurn::Done(step)) => TurnFacts::Done(step.facts()),
    }
}

/// A stretch whose lines all end no earlier than they begin can be settled, whatever came of
/// reading it.
pub proof fn law_forward_stretches_can_be_settled(
    reading: ReadingFacts,
    read: Result<ChunkReadResult, ChunkReadError>,
)
    requires
        items_forward(reading.window.retained),
    ensures
        reading.settles_forward(read),
{
    if let Ok(chunk) = read {
        lemma_chunk_forward(
            planned(reading.epoch, reading.source, reading.planned_read()),
            reading.window.retained,
            tail_of(chunk),
            false,
        );
    }
}

/// Of a file that changed under the reader nothing is committed: it is to be built anew, and
/// not in this round.
pub proof fn law_changed_files_are_not_committed(reading: ReadingFacts, error: ChunkReadError, now_ms: i64)
    requires
        error is SourceChangedBeforeRead || error is SourceChangedDuringRead || error
            is CheckpointGuardMismatch,
    ensures
        reading.verdict(Err(error), now_ms) == Verdict::Done(StepFacts::NeedsRebuildStop),
{
}

/// Nothing is committed of a stretch that contradicts the metadata, or whose owner is not
/// known.
pub proof fn law_unowned_stretches_are_not_committed(reading: ReadingFacts, chunk: ChunkReadResult, now_ms: i64)
    requires
        reading.window.unknown_ownership || (reading.window.retained.len() == 0
            && !reading.window.ownership_established),
    ensures
        !(reading.verdict(Ok(chunk), now_ms) matches Verdict::Done(StepFacts::Prepared(_))),
        !(reading.verdict(Ok(chunk), now_ms) is Failed),
{
}

/// Reading goes on exactly where the last complete line ended, under the guard of what was
/// read.
pub proof fn law_reading_goes_on_where_it_stopped(reading: ReadingFacts, chunk: ChunkReadResult, plan: ChunkReadPlan)
    requires
        reading.moved_on(chunk).next_plan(plan),
    ensures
        plan.start_offset == chunk.last_complete_offset,
        guard_view(plan.expected_guard) == guard_view(chunk.guard),
        plan.observed_size == reading.fixed_observed_size,
        reading.moved_on(chunk).window.ownership_established
            == reading.window.ownership_established,
        reading.moved_on(chunk).scan == reading.scan,
{
}

} // verus!
