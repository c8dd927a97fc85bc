//! Reading rollout files for metadata, and what a whole scan round comes to.
use vstd::prelude::*;

use crate::diagnostics::SourceAvailability;
use crate::domain::{
    CheckpointRebuildCommand, ConsumerKind, MetadataScanStateEntry, SafeFactState,
    SourceObservationResult,
};
#[allow(unused_imports)]
use crate::domain::rebuild_ids_fault;
use crate::order::sort_ids;
#[allow(unused_imports)]
use crate::order::{code_views, sorted_ids};
use crate::rollout::{OwningCandidateConfidence, ResumeState, RolloutThreadFact};
use crate::rollout_parser::{
    CompleteRolloutLine, OwningThreadCandidate, OwningThreadCandidates, RolloutMetadataParser,
    RolloutOwnershipClassifier, RolloutParseContext, RolloutParseResult,
};
#[allow(unused_imports)]
use crate::rollout_parser::Scan;
use crate::session_index::SessionNameSnapshot;
use crate::state_index::{StateSnapshot, StateThreadFact};
use crate::text::same_text;
use super::chunks::{
    read_error_code, ChunkReadError, ChunkReadPlan, ChunkReadResult, FramedItem, GuardHash,
    PhysicalIdentity,
};
#[allow(unused_imports)]
use super::chunks::{error_code, guard_view};
use super::report::{FilePlan, ParsedSource, PipelinePlan, ScanReport};
#[allow(unused_imports)]
use super::report::ReportFacts;
use super::source_batch::DiscoveredFile;
#[allow(unused_imports)]
use super::source_batch::{is_line, line_facts};
#[allow(unused_imports)]
use super::usage_commit::error_of;
#[allow(unused_imports)]
use super::usage_pipeline::saturated;
#[allow(unused_imports)]
use super::usage_plan::stored_identity;

verus! {

/// The view of a session index that does not exist: no names, and nothing missing.
pub fn empty_session_snapshot() -> (r: SessionNameSnapshot)
    ensures
        r.names@.len() == 0 && r.facts@.len() == 0 && r.diagnostics@.len() == 0,
        r.status is Complete,
{
    SessionNameSnapshot {
        names: Vec::new(),
        facts: Vec::new(),
        diagnostics: Vec::new(),
        status: SourceAvailability::Complete,
    }
}

/// The view of a session index that could not be read.
pub fn unavailable_session_snapshot() -> (r: SessionNameSnapshot)
    ensures
        r.names@.len() == 0 && r.facts@.len() == 0 && r.diagnostics@.len() == 0,
        r.status is Unavailable,
{
    SessionNameSnapshot {
        names: Vec::new(),
        facts: Vec::new(),
        diagnostics: Vec::new(),
        status: SourceAvailability::Unavailable,
    }
}

pub open spec fn stored_guard(entry: MetadataScanStateEntry) -> Option<Seq<u8>> {
    match entry.metadata_checkpoint {
        Some(checkpoint) => match checkpoint.guard_hash {
            Some(bytes) => Some(bytes@),
            None => None,
        },
        None => None,
    }
}

pub open spec fn guard_error(entry: MetadataScanStateEntry, start_offset: u64) -> Option<Seq<char>> {
    if start_offset == 0 {
        None
    } else {
        match stored_guard(entry) {
            None => Some("CHECKPOINT_GUARD_MISSING"@),
            Some(bytes) => if bytes.len() == 32 {
                None
            } else {
                Some("CHECKPOINT_GUARD_INVALID"@)
            },
        }
    }
}

/// The hash that the bytes before the start have to have: none at the start of the file.
pub fn expected_guard(entry: &MetadataScanStateEntry, start_offset: u64) -> (r: Result<
    Option<GuardHash>,
    &'static str,
>)
    ensures
        error_of(r) == guard_error(*entry, start_offset),
        r matches Ok(guard) ==> guard_view(guard) == if start_offset == 0 {
            None
        } else {
            stored_guard(*entry)
        },
{
    if start_offset == 0 {
        return Ok(None);
    }
    match &entry.metadata_checkpoint {
        None => Err("CHECKPOINT_GUARD_MISSING"),
        Some(checkpoint) => match &checkpoint.guard_hash {
            None => Err("CHECKPOINT_GUARD_MISSING"),
            Some(bytes) => match GuardHash::from_slice(bytes.as_slice()) {
                Some(guard) => Ok(Some(guard)),
                None => Err("CHECKPOINT_GUARD_INVALID"),
            },
        },
    }
}

/// The first thread whose rollout is the file.
pub open spec fn rollout_thread(threads: Seq<StateThreadFact>, same_path: Seq<bool>) -> Option<int>
    decreases threads.len(),
{
    if threads.len() == 0 {
        None
    } else {
        match rollout_thread(threads.drop_last(), same_path) {
            Some(i) => Some(i),
            None => if threads.last().rollout_path is Some && same_path[threads.len() - 1] {
                Some(threads.len() - 1)
            } else {
                None
            },
        }
    }
}

pub open spec fn confirmed(thread_id: String) -> OwningThreadCandidate {
    OwningThreadCandidate { thread_id, confidence: OwningCandidateConfidence::Confirmed }
}

/// Who may own a file: the thread whose rollout the state index says it is, and the thread
/// that its name tells. `same_path` says of each thread of the index whether its rollout path
/// is that of the file.
pub fn owning_candidates(file: &DiscoveredFile, state: &StateSnapshot, same_path: &Vec<bool>) -> (r:
    OwningThreadCandidates)
    requires
        same_path@.len() == state.threads@.len(),
    ensures
        r.state_rollout == match rollout_thread(state.threads@, same_path@) {
            Some(i) => Some(confirmed(state.threads@[i].thread_id)),
            None => None,
        },
        r.filename == match file.filename_thread_id_candidate {
            Some(thread_id) => Some(confirmed(thread_id)),
            None => None,
        },
{
    let ghost threads = state.threads@;
    let mut state_rollout: Option<OwningThreadCandidate> = None;
    let mut i: usize = 0;
    assert(threads.take(0) =~= Seq::<StateThreadFact>::empty());
    while i < state.threads.len()
        invariant
            i <= state.threads.len(),
            threads == state.threads@,
            same_path@.len() == threads.len(),
            state_rollout == match rollout_thread(threads.take(i as int), same_path@) {
                Some(k) => Some(confirmed(threads[k].thread_id)),
                None => None,
            },
            rollout_thread(threads.take(i as int), same_path@) matches Some(k) ==> 0 <= k < i,
        decreases state.threads.len() - i,
    {
        proof {
            assert(threads.take(i + 1).drop_last() =~= threads.take(i as int));
            assert(threads.take(i + 1).last() == threads[i as int]);
        }
        if state_rollout.is_none() && state.threads[i].rollout_path.is_some() && same_path[i] {
            state_rollout = Some(
                OwningThreadCandidate {
                    thread_id: state.threads[i].thread_id.clone(),
                    confidence: OwningCandidateConfidence::Confirmed,
                },
            );
        }
        i = i + 1;
    }
    assert(threads.take(i as int) =~= threads);
    let filename: Option<OwningThreadCandidate> = match &file.filename_thread_id_candidate {
        Some(thread_id) => Some(
            OwningThreadCandidate {
                thread_id: thread_id.clone(),
                confidence: OwningCandidateConfidence::Confirmed,
            },
        ),
        None => None,
    };
    OwningThreadCandidates { state_rollout, filename }
}

pub open spec fn rebuilt_ids(parsed: Seq<ParsedSource>) -> Seq<i64>
    decreases parsed.len(),
{
    if parsed.len() == 0 {
        Seq::empty()
    } else if parsed.last().needs_rebuild {
        rebuilt_ids(parsed.drop_last()).push(parsed.last().source_file_id)
    } else {
        rebuilt_ids(parsed.drop_last())
    }
}

pub open spec fn some_not_positive(ids: Seq<i64>) -> bool {
    exists|i: int| 0 <= i < ids.len() && #[trigger] ids[i] <= 0
}

proof fn lemma_sorted_ids_fault(ids: Seq<i64>, sorted: Seq<i64>, n: nat)
    requires
        sorted_ids(ids, sorted),
        n <= sorted.len(),
    ensures
        rebuild_ids_fault(sorted, n) is Some <==> exists|i: int|
            0 <= i < n && #[trigger] sorted[i] <= 0,
    decreases n,
{
    if n > 0 {
        lemma_sorted_ids_fault(ids, sorted, (n - 1) as nat);
        assert forall|j: int| 0 <= j < n - 1 implies #[trigger] sorted[j] != sorted[n - 1] by {}
        if exists|i: int| 0 <= i < n && #[trigger] sorted[i] <= 0 {
            let i = choose|i: int| 0 <= i < n && #[trigger] sorted[i] <= 0;
            if i < n - 1 {
                assert(exists|k: int| 0 <= k < n - 1 && #[trigger] sorted[k] <= 0);
            }
        }
    }
}

proof fn lemma_not_positive(ids: Seq<i64>, sorted: Seq<i64>)
    requires
        sorted_ids(ids, sorted),
    ensures
        some_not_positive(ids) <==> some_not_positive(sorted),
{
    if some_not_positive(ids) {
        let i = choose|i: int| 0 <= i < ids.len() && #[trigger] ids[i] <= 0;
        assert(ids.contains(ids[i]));
        assert(sorted.contains(ids[i]));
        let k = choose|k: int| 0 <= k < sorted.len() && sorted[k] == ids[i];
        assert(sorted[k] <= 0);
    }
    if some_not_positive(sorted) {
        let i = choose|i: int| 0 <= i < sorted.len() && #[trigger] sorted[i] <= 0;
        assert(sorted.contains(sorted[i]));
        assert(ids.contains(sorted[i]));
        let k = choose|k: int| 0 <= k < ids.len() && ids[k] == sorted[i];
        assert(ids[k] <= 0);
    }
}

/// The request to rebuild the metadata of the sources that need it, if any does: each once and
/// in order.
pub fn metadata_rebuilds(parsed: &Vec<ParsedSource>) -> (r: Result<
    Option<CheckpointRebuildCommand>,
    &'static str,
>)
    ensures
        error_of(r) == if some_not_positive(rebuilt_ids(parsed@)) {
            Some("STORAGE_COMMIT_FAILED"@)
        } else {
            None
        },
        r matches Ok(command) ==> (command is Some <==> rebuilt_ids(parsed@).len() > 0),
        r matches Ok(Some(command)) ==> command.consumer_kind is Metadata && sorted_ids(
            rebuilt_ids(parsed@),
            command.source_file_ids@,
        ),
{
    let mut ids: Vec<i64> = Vec::new();
    let mut i: usize = 0;
    assert(parsed@.take(0) =~= Seq::<ParsedSource>::empty());
    while i < parsed.len()
        invariant
            i <= parsed.len(),
            ids@ == rebuilt_ids(parsed@.take(i as int)),
        decreases parsed.len() - i,
    {
        assert(parsed@.take(i + 1).drop_last() =~= parsed@.take(i as int));
        assert(parsed@.take(i + 1).last() == parsed@[i as int]);
        if parsed[i].needs_rebuild {
            ids.push(parsed[i].source_file_id);
        }
        i = i + 1;
    }
    assert(parsed@.take(i as int) =~= parsed@);
    if ids.len() == 0 {
        return Ok(None);
    }
    let sorted: Vec<i64> = sort_ids(&ids);
    proof {
        lemma_sorted_ids_fault(ids@, sorted@, sorted@.len());
        lemma_not_positive(ids@, sorted@);
        assert(ids@.contains(ids@[0]));
        assert(sorted@.contains(ids@[0]));
    }
    match CheckpointRebuildCommand::new(ConsumerKind::Metadata, sorted) {
        Ok(command) => Ok(Some(command)),
        Err(_) => Err("STORAGE_COMMIT_FAILED"),
    }
}

/// The reading of one file for metadata.
pub struct MetadataReading {
    pub source_file_id: i64,
    pub plan: ChunkReadPlan,
    pub parser: RolloutOwnershipClassifier,
}

/// From where a file is read, up to where, and in which state.
pub struct ReadFrom {
    pub source_file_id: i64,
    pub start_offset: u64,
    pub observed_size: i64,
    pub resume_state: ResumeState,
}

pub open spec fn read_from(plan: FilePlan) -> Option<ReadFrom> {
    match plan {
        FilePlan::ReadFrom { source_file_id, start_offset, observed_size, resume_state } => Some(
            ReadFrom { source_file_id, start_offset, observed_size, resume_state },
        ),
        FilePlan::Rebuild { source_file_id, observed_size } => Some(
            ReadFrom {
                source_file_id,
                start_offset: 0,
                observed_size,
                resume_state: ResumeState::AwaitOwningMeta,
            },
        ),
        FilePlan::Skip { .. } => None,
        FilePlan::Reject { .. } => None,
    }
}

/// The fact that reading goes on from: only where it resumes, and only if it is sound.
pub open spec fn resumed_fact(resume_state: ResumeState, safe_fact: SafeFactState) -> Option<
    RolloutThreadFact,
> {
    match safe_fact {
        SafeFactState::Matching(fact) => if resume_state is AwaitOwningMeta || fact.fault()
            is Some {
            None
        } else {
            Some(RolloutThreadFact::restored(fact))
        },
        _ => None,
    }
}

pub open spec fn metadata_context(
    from: ReadFrom,
    entry: MetadataScanStateEntry,
    candidates: OwningThreadCandidates,
) -> RolloutParseContext {
    RolloutParseContext {
        platform: entry.source.platform,
        source_file_id: from.source_file_id,
        chunk_start_offset: from.start_offset,
        candidates,
        resume_state: from.resume_state,
        existing_fact: resumed_fact(from.resume_state, entry.safe_fact),
    }
}

/// The first reason for which a file is not read.
pub open spec fn reading_error(
    file: DiscoveredFile,
    entry: MetadataScanStateEntry,
    plan: FilePlan,
) -> Option<Seq<char>> {
    match read_from(plan) {
        None => Some("METADATA_PLAN_NOT_READ"@),
        Some(from) => if from.observed_size < 0 {
            Some("SOURCE_SIZE_INVALID"@)
        } else if file.device_id < 0 || file.inode < 0 {
            Some("SOURCE_IDENTITY_INVALID"@)
        } else {
            guard_error(entry, from.start_offset)
        },
    }
}

fn clone_resume(state: &ResumeState) -> (r: ResumeState)
    ensures
        r == *state,
{
    match state {
        ResumeState::AwaitOwningMeta => ResumeState::AwaitOwningMeta,
        ResumeState::ReplayedAncestor { owning_thread_id } => ResumeState::ReplayedAncestor {
            owning_thread_id: owning_thread_id.clone(),
        },
        ResumeState::OwningLive { owning_thread_id } => ResumeState::OwningLive {
            owning_thread_id: owning_thread_id.clone(),
        },
    }
}

/// The parser after what was read. What is no line is passed over.
pub open spec fn metadata_scan(scan: Scan, framed: FramedItem) -> Scan {
    match framed {
        FramedItem::Line(line) => if is_line(line) {
            scan.with_line(line_facts(line))
        } else {
            scan
        },
        FramedItem::OversizedCompleteLine(line) => scan.with_opaque(
            line.start_offset,
            line.end_offset,
        ),
    }
}

impl MetadataReading {
    /// Starts to read a file.
    pub fn start(
        file: &DiscoveredFile,
        entry: &MetadataScanStateEntry,
        plan: &FilePlan,
        candidates: OwningThreadCandidates,
    ) -> (r: Result<Self, &'static str>)
        ensures
            error_of(r) == reading_error(*file, *entry, *plan),
            r matches Ok(reading) ==> {
                let from = read_from(*plan)->0;
                &&& reading.source_file_id == from.source_file_id
                &&& reading.plan.identity == stored_identity(file.device_id, file.inode)
                &&& reading.plan.start_offset == from.start_offset
                &&& reading.plan.observed_size == from.observed_size
                &&& guard_view(reading.plan.expected_guard) == if from.start_offset == 0 {
                    None
                } else {
                    stored_guard(*entry)
                }
                &&& reading.parser@ == Scan::start(
                    metadata_context(from, *entry, candidates),
                    false,
                )
            },
    {
        let (source_file_id, start_offset, observed_size, resume_state): (
            i64,
            u64,
            i64,
            ResumeState,
        ) = match plan {
            FilePlan::ReadFrom { source_file_id, start_offset, observed_size, resume_state } => (
                *source_file_id,
                *start_offset,
                *observed_size,
                clone_resume(resume_state),
            ),
            FilePlan::Rebuild { source_file_id, observed_size } => (
                *source_file_id,
                0,
                *observed_size,
                ResumeState::AwaitOwningMeta,
            ),
            _ => {
                return Err("METADATA_PLAN_NOT_READ");
            },
        };
        if observed_size < 0 {
            return Err("SOURCE_SIZE_INVALID");
        }
        let identity: PhysicalIdentity = match PhysicalIdentity::from_stored(
            file.device_id,
            file.inode,
        ) {
            Some(identity) => identity,
            None => {
                return Err("SOURCE_IDENTITY_INVALID");
            },
        };
        let expected_guard: Option<GuardHash> = expected_guard(entry, start_offset)?;
        let resumes: bool = match &resume_state {
            ResumeState::AwaitOwningMeta => false,
            _ => true,
        };
        let existing_fact: Option<RolloutThreadFact> = match &entry.safe_fact {
            SafeFactState::Matching(fact) => if resumes {
                match RolloutThreadFact::from_safe_fact(fact) {
                    Ok(fact) => Some(fact),
                    Err(_) => None,
                }
            } else {
                None
            },
            _ => None,
        };
        let parser: RolloutOwnershipClassifier = RolloutMetadataParser::start_chunk(
            RolloutParseContext {
                platform: entry.source.platform,
                source_file_id,
                chunk_start_offset: start_offset,
                candidates,
                resume_state,
                existing_fact,
            },
        );
        Ok(
            MetadataReading {
                source_file_id,
                plan: ChunkReadPlan {
                    identity,
                    start_offset,
                    observed_size: observed_size as u64,
                    expected_guard,
                },
                parser,
            },
        )
    }

    /// Takes what was read.
    pub fn offer(&mut self, framed: FramedItem)
        ensures
            final(self).parser@ == metadata_scan(old(self).parser@, framed),
            final(self).source_file_id == old(self).source_file_id,
            final(self).plan == old(self).plan,
    {
        match framed {
            FramedItem::Line(line) => {
                if let Some(complete) = CompleteRolloutLine::new(
                    line.start_offset,
                    line.bytes_with_newline,
                ) {
                    self.parser.push(&complete);
                }
            },
            FramedItem::OversizedCompleteLine(line) => {
                let _ = self.parser.push_opaque_classified(line.start_offset, line.end_offset);
            },
        }
    }

    /// What the file came to, by what reading it came to.
    pub fn finish(self, read: Result<ChunkReadResult, ChunkReadError>, cancelled: bool) -> (r:
        Result<ParsedSource, &'static str>)
        ensures
            match (read, r) {
                (Err(error), Err(code)) => code@ == error_code(error),
                (Err(_), Ok(_)) => false,
                (Ok(_), Err(code)) => cancelled && code@ == "SCAN_CANCELLED"@,
                (Ok(chunk), Ok(parsed)) => {
                    let finished = self.parser@.finished();
                    &&& !cancelled
                    &&& parsed.source_file_id == self.source_file_id
                    &&& parsed.fact.deep_view() == finished.fact
                    &&& parsed.final_continuation.deep_view() == finished.final_continuation
                    &&& parsed.needs_rebuild == finished.needs_rebuild
                    &&& parsed.diagnostic_count == finished.diagnostic_count
                    &&& parsed.malformed_record_count == finished.malformed_record_count
                    &&& parsed.last_processed_offset == chunk.last_complete_offset
                    &&& parsed.guard_hash.deep_view() == guard_view(chunk.guard)
                    &&& parsed.bytes_read == chunk.bytes_read
                    &&& parsed.guard_bytes_read == chunk.guard_bytes_read
                    &&& parsed.peak_buffered_body_bytes == chunk.peak_buffered_body_bytes
                    &&& parsed.complete_line_count == chunk.complete_line_count
                    &&& parsed.oversized_complete_line_count == chunk.oversized_complete_line_count
                    &&& parsed.has_half_line == chunk.has_half_line
                },
            },
    {
        let chunk: ChunkReadResult = match read {
            Ok(chunk) => chunk,
            Err(error) => {
                return Err(read_error_code(error));
            },
        };
        if cancelled {
            return Err("SCAN_CANCELLED");
        }
        let result: RolloutParseResult = self.parser.finish();
        let guard_hash: Option<Vec<u8>> = match chunk.guard {
            Some(hash) => Some(hash.to_vec()),
            None => None,
        };
        assert(guard_hash.deep_view() == guard_view(chunk.guard)) by {
            if let Some(bytes) = guard_hash {
                assert(bytes.deep_view() =~= bytes@);
            }
        }
        Ok(
            ParsedSource {
                source_file_id: self.source_file_id,
                fact: result.fact,
                final_continuation: result.final_continuation,
                last_processed_offset: chunk.last_complete_offset,
                guard_hash,
                needs_rebuild: result.needs_rebuild,
                bytes_read: chunk.bytes_read,
                guard_bytes_read: chunk.guard_bytes_read,
                peak_buffered_body_bytes: chunk.peak_buffered_body_bytes,
                complete_line_count: chunk.complete_line_count,
                oversized_complete_line_count: chunk.oversized_complete_line_count,
                has_half_line: chunk.has_half_line,
                diagnostic_count: result.diagnostic_count,
                malformed_record_count: result.malformed_record_count,
            },
        )
    }
}

/// A scan round: its report, and the first error that makes it fail.
pub struct ScanRound {
    pub report: ScanReport,
    pub hard_error: Option<&'static str>,
}

#[verifier::ext_equal]
pub struct ScanFacts {
    pub report: ReportFacts,
    pub hard_error: Option<Seq<char>>,
}

impl DeepView for ScanRound {
    type V = ScanFacts;

    open spec fn deep_view(&self) -> ScanFacts {
        ScanFacts {
            report: self.report.deep_view(),
            hard_error: match self.hard_error {
                Some(code) => Some(code@),
                None => None,
            },
        }
    }
}

impl ScanFacts {
    /// Every hard error is reported; the first makes the round fail.
    pub open spec fn with_hard_error(self, code: Seq<char>) -> ScanFacts {
        ScanFacts {
            report: self.report.with_error(code),
            hard_error: if self.hard_error is Some {
                self.hard_error
            } else {
                Some(code)
            },
        }
    }

    pub open spec fn with_hard_error_if(self, condition: bool, code: Seq<char>) -> ScanFacts {
        if condition {
            self.with_hard_error(code)
        } else {
            self
        }
    }

    pub open spec fn with_state(self, threads: SourceAvailability, spawn_edges: SourceAvailability) -> ScanFacts {
        self.with_hard_error_if(
            !(threads is Complete) || !(spawn_edges is Complete),
            "STATE_SOURCE_UNAVAILABLE"@,
        )
    }

    pub open spec fn with_names(self, status: SourceAvailability) -> ScanFacts {
        self.with_hard_error_if(status is Unavailable, "SESSION_INDEX_UNAVAILABLE"@)
    }

    /// Another name of a file that was seen is no error.
    pub open spec fn with_discovery_codes(self, codes: Seq<Seq<char>>) -> ScanFacts
        decreases codes.len(),
    {
        if codes.len() == 0 {
            self
        } else {
            self.with_discovery_codes(codes.drop_last()).with_hard_error_if(
                codes.last() != "DUPLICATE_PHYSICAL_ALIAS"@,
                codes.last(),
            )
        }
    }

    pub open spec fn with_discovery(self, files: usize, codes: Seq<Seq<char>>, complete: bool) -> ScanFacts {
        ScanFacts {
            report: ReportFacts {
                discovered_files: saturated(self.report.discovered_files + files),
                ..self.report
            },
            ..self
        }.with_discovery_codes(codes).with_hard_error_if(!complete, "SOURCE_AREA_UNAVAILABLE"@)
    }

    pub open spec fn with_sources(self, results: Seq<SourceObservationResult>) -> ScanFacts
        decreases results.len(),
    {
        if results.len() == 0 {
            self
        } else {
            let before = self.with_sources(results.drop_last());
            ScanFacts { report: before.report.with_source(results.last()), ..before }
        }
    }

    pub open spec fn with_rejects(self, plans: Seq<FilePlan>) -> ScanFacts
        decreases plans.len(),
    {
        if plans.len() == 0 {
            self
        } else {
            let before = self.with_rejects(plans.drop_last());
            match plans.last() {
                FilePlan::Reject { error_code, .. } => before.with_hard_error(error_code@),
                _ => before,
            }
        }
    }

    pub open spec fn with_plans(self, plans: Seq<FilePlan>) -> ScanFacts {
        ScanFacts { report: self.report.with_plans(plans), ..self }.with_rejects(plans)
    }

    pub open spec fn with_parsed(self, parsed: ParsedSource) -> ScanFacts {
        ScanFacts { report: self.report.with_parsed(parsed), ..self }.with_hard_error_if(
            parsed.needs_rebuild || !parsed.is_stable(),
            "METADATA_CONTINUATION_UNSTABLE"@,
        )
    }

    pub open spec fn with_unparsed(self, code: Seq<char>) -> ScanFacts {
        ScanFacts { report: self.report.with_failed_source(), ..self }.with_hard_error(code)
    }
}

impl ScanRound {
    pub fn new(started_at_ms: i64) -> (r: Self)
        ensures
            r.hard_error is None,
            r.report.deep_view() == (ReportFacts {
                started_at_ms: super::report::not_negative(started_at_ms),
                ..super::report::blank_report()
            }),
    {
        ScanRound { report: ScanReport::new(started_at_ms), hard_error: None }
    }

    pub fn record_hard_error(&mut self, code: &'static str)
        ensures
            final(self).deep_view() == old(self).deep_view().with_hard_error(code@),
    {
        self.report.error(code);
        if self.hard_error.is_none() {
            self.hard_error = Some(code);
        }
    }

    /// Takes note of how complete the threads and the spawn edges of the state index are.
    pub fn note_state(&mut self, threads: SourceAvailability, spawn_edges: SourceAvailability)
        ensures
            final(self).deep_view() == old(self).deep_view().with_state(threads, spawn_edges),
    {
        if !threads.is_complete() || !spawn_edges.is_complete() {
            self.record_hard_error("STATE_SOURCE_UNAVAILABLE");
        }
    }

    pub fn note_session_names(&mut self, status: SourceAvailability)
        ensures
            final(self).deep_view() == old(self).deep_view().with_names(status),
    {
        if status == SourceAvailability::Unavailable {
            self.record_hard_error("SESSION_INDEX_UNAVAILABLE");
        }
    }

    pub fn note_discovery(&mut self, files: usize, codes: &Vec<&'static str>, complete: bool)
        ensures
            final(self).deep_view() == old(self).deep_view().with_discovery(
                files,
                code_views(codes@),
                complete,
            ),
    {
        self.report.observe_discovery(files);
        let ghost start = self.deep_view();
        let ghost all = code_views(codes@);
        let mut i: usize = 0;
        assert(all.take(0) =~= Seq::<Seq<char>>::empty());
        while i < codes.len()
            invariant
                i <= codes.len(),
                all == code_views(codes@),
                self.deep_view() == start.with_discovery_codes(all.take(i as int)),
            decreases codes.len() - i,
        {
            assert(all.take(i + 1).drop_last() =~= all.take(i as int));
            assert(all.take(i + 1).last() == codes@[i as int]@);
            if !same_text(codes[i], "DUPLICATE_PHYSICAL_ALIAS") {
                self.record_hard_error(codes[i]);
            }
            i = i + 1;
        }
        assert(all.take(i as int) =~= all);
        if !complete {
            self.record_hard_error("SOURCE_AREA_UNAVAILABLE");
        }
    }

    pub fn note_sources(&mut self, results: &Vec<SourceObservationResult>)
        ensures
            final(self).deep_view() == old(self).deep_view().with_sources(results@),
    {
        let mut i: usize = 0;
        assert(results@.take(0) =~= Seq::<SourceObservationResult>::empty());
        while i < results.len()
            invariant
                i <= results.len(),
                self.deep_view() == old(self).deep_view().with_sources(results@.take(i as int)),
            decreases results.len() - i,
        {
            assert(results@.take(i + 1).drop_last() =~= results@.take(i as int));
            assert(results@.take(i + 1).last() == results@[i as int]);
            self.report.observe_source(&results[i]);
            i = i + 1;
        }
        assert(results@.take(i as int) =~= results@);
    }

    pub fn note_plan(&mut self, plan: &PipelinePlan)
        ensures
            final(self).deep_view() == old(self).deep_view().with_plans(plan.plans@),
    {
        self.report.observe_plan(plan);
        let ghost start = self.deep_view();
        let mut i: usize = 0;
        assert(plan.plans@.take(0) =~= Seq::<FilePlan>::empty());
        while i < plan.plans.len()
            invariant
                i <= plan.plans.len(),
                self.deep_view() == start.with_rejects(plan.plans@.take(i as int)),
            decreases plan.plans.len() - i,
        {
            assert(plan.plans@.take(i + 1).drop_last() =~= plan.plans@.take(i as int));
            assert(plan.plans@.take(i + 1).last() == plan.plans@[i as int]);
            if let FilePlan::Reject { error_code, .. } = &plan.plans[i] {
                self.record_hard_error(*error_code);
            }
            i = i + 1;
        }
        assert(plan.plans@.take(i as int) =~= plan.plans@);
    }

    pub fn note_parsed(&mut self, parsed: &ParsedSource)
        ensures
            final(self).deep_view() == old(self).deep_view().with_parsed(*parsed),
    {
        self.report.observe_parse(parsed);
        if parsed.needs_rebuild || !parsed.stable() {
            self.record_hard_error("METADATA_CONTINUATION_UNSTABLE");
        }
    }

    pub fn note_unparsed(&mut self, code: &'static str)
        ensures
            final(self).deep_view() == old(self).deep_view().with_unparsed(code@),
    {
        self.report.failed_source();
        self.record_hard_error(code);
    }

    /// Ends the round: it fails with its first hard error.
    pub fn conclude(&mut self, finished_at_ms: i64) -> (r: Result<(), &'static str>)
        ensures
            old(self).deep_view().report.finished(
                finished_at_ms,
                final(self).deep_view().report,
            ),
            final(self).hard_error == old(self).hard_error,
            error_of(r) == old(self).deep_view().hard_error,
    {
        self.report.finish(finished_at_ms);
        match self.hard_error {
            Some(code) => Err(code),
            None => Ok(()),
        }
    }
}

/// What one file is to be done with: nothing, unless it is planned to be read.
pub fn is_read(plan: &FilePlan) -> (r: bool)
    ensures
        r == (read_from(*plan) is Some),
{
    match plan {
        FilePlan::Skip { .. } | FilePlan::Reject { .. } => false,
        _ => true,
    }
}

/// The first hard error stays the first, and each is reported.
pub proof fn law_first_hard_error_decides(scan: ScanFacts, code: Seq<char>, next: Seq<char>)
    ensures
        scan.hard_error is None ==> scan.with_hard_error(code).with_hard_error(next).hard_error
            == Some(code),
        scan.with_hard_error(code).with_hard_error(next).report.error_codes.contains(code),
        scan.with_hard_error(code).with_hard_error(next).report.error_codes.contains(next),
{
    super::report::law_noted_codes_stay(scan.report, code, code);
    super::report::law_noted_codes_stay(scan.with_hard_error(code).report, next, code);
}

/// Discovery that is complete and tells nothing but other names of files makes no round fail.
pub proof fn law_aliases_are_no_errors(scan: ScanFacts, files: usize, codes: Seq<Seq<char>>)
    requires
        forall|i: int| 0 <= i < codes.len() ==> #[trigger] codes[i] == "DUPLICATE_PHYSICAL_ALIAS"@,
    ensures
        scan.with_discovery(files, codes, true).hard_error == scan.hard_error,
{
    lemma_aliases(
        ScanFacts {
            report: ReportFacts {
                discovered_files: saturated(scan.report.discovered_files + files),
                ..scan.report
            },
            ..scan
        },
        codes,
    );
}

proof fn lemma_aliases(scan: ScanFacts, codes: Seq<Seq<char>>)
    requires
        forall|i: int| 0 <= i < codes.len() ==> #[trigger] codes[i] == "DUPLICATE_PHYSICAL_ALIAS"@,
    ensures
        scan.with_discovery_codes(codes) == scan,
    decreases codes.len(),
{
    if codes.len() > 0 {
        assert forall|i: int| 0 <= i < codes.drop_last().len() implies #[trigger] codes.drop_last()[i]
            == "DUPLICATE_PHYSICAL_ALIAS"@ by {
            assert(codes[i] == codes.drop_last()[i]);
        }
        lemma_aliases(scan, codes.drop_last());
        assert(codes.last() == codes[codes.len() - 1]);
    }
}

} // verus!
