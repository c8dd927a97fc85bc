//! How the reading of one source starts, what it is told by, and what it comes to.
use vstd::prelude::*;

use crate::domain::SafeFactState;
use crate::platform::Platform;
use crate::rollout::ResumeState;
use crate::rollout_parser::{ends_line, without_line_ending, OwningThreadCandidates};
use crate::json::json_document;
use crate::usage::raw_record;
use super::chunks::{error_code, guard_view, tail_of, ChunkReadError, ChunkReadResult, FramedItem};
use super::commit_types::UsageContinuationState;
use super::source_batch::{
    framed_item, item_view, judged, parse_context, rules_of, start_view, started, turn_view,
    verdict_view, BatchStart, BatchTurn, DiscoveredFile, SourceReading, TurnFacts, UsageReadStep,
    Verdict,
};
use super::usage_pipeline::{
    chunk_outcome, outcome_view, ClassifiedUsageItem, PipelineDisposition, PipelineError,
};
use super::usage_plan::{
    checkpoint_guard_error, expected_guard_of, plan_error, planned, PlannedRead,
    SourceUsageEpochState, UsageSourceScanPlan,
};

verus! {

/// Reading fails to start with this code.
pub open spec fn start_fails_with(r: Result<BatchStart, &'static str>, code: Seq<char>) -> bool {
    r matches Err(error) && error@ == code
}

/// A file whose size, identity or place to start at is negative cannot be read, and says so in
/// this order. One that is read from the middle needs its owner, its state and a matching fact,
/// and is built anew without one of them.
pub proof fn law_sources_need_what_they_start_from(
    epoch: SourceUsageEpochState,
    source: UsageSourceScanPlan,
    file: DiscoveredFile,
    file_generation: i64,
    platform: Platform,
    safe_fact: SafeFactState,
    candidates: OwningThreadCandidates,
    r: Result<BatchStart, &'static str>,
)
    requires
        start_view(r) == started(
            epoch,
            source,
            file,
            file_generation,
            platform,
            safe_fact,
            candidates,
        ),
    ensures
        file.size < 0 ==> start_fails_with(r, "USAGE_SOURCE_SIZE_INVALID"@),
        file.size >= 0 && (file.device_id < 0 || file.inode < 0) ==> start_fails_with(
            r,
            "USAGE_SOURCE_IDENTITY_INVALID"@,
        ),
        file.size >= 0 && file.device_id >= 0 && file.inode >= 0 && source.start_offset < 0
            ==> start_fails_with(r, "USAGE_SOURCE_OFFSET_INVALID"@),
        file.size >= 0 && file.device_id >= 0 && file.inode >= 0 && source.start_offset > 0
            && checkpoint_guard_error(source.deep_view().checkpoint) is None && (
        source.owning_thread_id is None || source.state is None || !(safe_fact is Matching)) ==> (r
            matches Ok(start) && start is NeedsRebuild),
        r is Ok && r->Ok_0 is Reading && source.start_offset != 0 ==> source.start_offset > 0
            && source.owning_thread_id is Some && source.state is Some && safe_fact is Matching,
{
}

/// A source that is read knows the file it was discovered as, and begins where its plan says,
/// under the guard of its checkpoint.
pub proof fn law_readings_begin_where_planned(
    epoch: SourceUsageEpochState,
    source: UsageSourceScanPlan,
    file: DiscoveredFile,
    file_generation: i64,
    platform: Platform,
    safe_fact: SafeFactState,
    candidates: OwningThreadCandidates,
    r: Result<BatchStart, &'static str>,
)
    requires
        start_view(r) == started(
            epoch,
            source,
            file,
            file_generation,
            platform,
            safe_fact,
            candidates,
        ),
    ensures
        r matches Ok(BatchStart::Reading(reading)) ==> {
            &&& reading.epoch == epoch
            &&& reading.source.deep_view() == source.deep_view()
            &&& reading.file_generation == file_generation
            &&& reading.device_id == file.device_id
            &&& reading.inode == file.inode
            &&& reading.identity.device_id == file.device_id
            &&& reading.identity.inode == file.inode
            &&& reading.fixed_observed_size == file.size
            &&& reading.initial_start == source.start_offset
            &&& reading.cursor == source.start_offset
            &&& guard_view(reading.expected_guard) == expected_guard_of(
                source.deep_view().checkpoint,
            )
            &&& reading.window.retained@.len() == 0
            &&& reading.window.replayed_prefix_bytes == 0
            &&& reading.window.replayed_prefix_lines == 0
            &&& reading.window.ownership_established <==> source.start_offset > 0
            &&& reading.window.rules == rules_of(source, safe_fact)
        },
{
    if let Ok(BatchStart::Reading(reading)) = r {
        assert(reading.window.deep_view().retained.len() == 0);
    }
}

/// The classifier begins with nothing at the start of a file. After it, it goes on as the state of
/// the source says, for the owner that is known, from the fact that is stored.
pub proof fn law_classifiers_resume_from_what_is_known(
    platform: Platform,
    source: UsageSourceScanPlan,
    safe_fact: SafeFactState,
    candidates: OwningThreadCandidates,
)
    ensures
        ({
            let context = parse_context(platform, source, safe_fact, candidates);
            &&& context.platform == platform
            &&& context.source_file_id == source.source_file_id
            &&& source.start_offset >= 0 ==> context.chunk_start_offset == source.start_offset
            &&& context.candidates == candidates
            &&& source.start_offset == 0 ==> context.resume_state is AwaitOwningMeta
                && context.existing_fact is None
            &&& source.start_offset != 0 && source.state is Some && source.owning_thread_id is Some
                ==> {
                &&& context.existing_fact is Some
                &&& source.state->0.continuation_state is OwningLive ==> context.resume_state == (
                ResumeState::OwningLive { owning_thread_id: source.owning_thread_id->0 })
                &&& source.state->0.continuation_state is ReplayedAncestor ==> context.resume_state
                    == (ResumeState::ReplayedAncestor {
                    owning_thread_id: source.owning_thread_id->0,
                })
            }
        }),
{
    if let Some(state) = source.state {
        assert(state.continuation_state is OwningLive || state.continuation_state
            == UsageContinuationState::ReplayedAncestor);
    }
}

/// An owner is still to be found only at the start of a file without state. A file may end within
/// replayed records if its metadata or its state ended there. Where the owner's own records
/// begin counts only while the owner is still to be found.
pub proof fn law_rules_of_a_window(source: UsageSourceScanPlan, safe_fact: SafeFactState)
    ensures
        ({
            let rules = rules_of(source, safe_fact);
            &&& rules.establishing <==> source.start_offset == 0 && source.state is None
            &&& rules.allow_replay_tail <==> (safe_fact is Matching
                && safe_fact->Matching_0.continuation_state is ReplayedAncestor) || (source.state
                is Some && source.state->0.continuation_state is ReplayedAncestor)
            &&& !rules.establishing || !(safe_fact is Matching) ==> rules.owning_boundary_offset
                is None
            &&& rules.establishing && safe_fact is Matching ==> {
                &&& rules.owning_boundary_offset is Some
                    <==> safe_fact->Matching_0.owning_records_start_offset is Some
                &&& safe_fact->Matching_0.owning_records_start_offset is Some
                    && safe_fact->Matching_0.owning_records_start_offset->0 >= 0
                    ==> rules.owning_boundary_offset->0
                    == safe_fact->Matching_0.owning_records_start_offset->0
            }
        }),
{
}

/// What the pipeline made of a chunk: a commit is prepared, with its counts; what needs a rebuild
/// is rebuilt; what is skipped or blocked waits. A chunk without an owner waits at the end of
/// the file; before it, reading goes on if it began at the start, and else the source is rebuilt.
pub proof fn law_chunks_are_judged(
    outcome: Result<PipelineDisposition, PipelineError>,
    exhausted: bool,
    from_start: bool,
    r: Result<Option<UsageReadStep>, &'static str>,
)
    requires
        verdict_view(r) == judged(outcome_view(outcome), exhausted, from_start),
    ensures
        outcome is Err <==> r is Err,
        r matches Err(error) ==> error@ == "USAGE_PIPELINE_FAILED"@,
        outcome matches Ok(disposition) ==> ({
            let step = r->Ok_0;
            &&& disposition is Commit ==> (step matches Some(UsageReadStep::Prepared { dto, .. })
                && dto.deep_view() == disposition->Commit_0.deep_view())
            &&& disposition is NeedsRebuild ==> (step matches Some(told) && told is NeedsRebuild)
            &&& disposition is Skip || disposition is BlockedRelationship ==> (step matches Some(
                told,
            ) && told is AwaitingOwnership)
            &&& disposition is AwaitingOwningMeta && exhausted ==> (step matches Some(told) && told
                is AwaitingOwnership)
            &&& disposition is AwaitingOwningMeta && !exhausted && from_start ==> step is None
            &&& disposition is AwaitingOwningMeta && !exhausted && !from_start ==> (step matches
                Some(told) && told is NeedsRebuild)
        }),
{
}

/// What a stretch that was read comes to before it is offered to the pipeline: one that changed
/// under the reader stops the source for this round; one without a known owner is the session's
/// fault, waits, or is built anew; one without anything to commit is read on from, or waits at
/// the end of the file.
pub proof fn law_stretches_are_settled(
    reading: SourceReading,
    read: Result<ChunkReadResult, ChunkReadError>,
    now_ms: i64,
    r: Result<BatchTurn, &'static str>,
)
    requires
        turn_view(r) == (match reading.deep_view().verdict(read, now_ms) {
            Verdict::Failed(error) => TurnFacts::Failed(error),
            Verdict::Done(step) => TurnFacts::Done(step),
            Verdict::ReadOn => TurnFacts::ReadOn(reading.deep_view().moved_on(read->Ok_0)),
        }),
    ensures
        read matches Err(error) ==> ({
            let changed = error is CheckpointGuardMismatch || error is SourceChangedBeforeRead
                || error is SourceChangedDuringRead;
            &&& changed ==> (r matches Ok(BatchTurn::Done(step)) && step is NeedsRebuildStop)
            &&& !changed ==> (r matches Err(code) && code@ == error_code(error))
        }),
        read is Ok && reading.window.unknown_ownership ==> (r matches Ok(BatchTurn::Done(step)) && {
            &&& reading.window.invalid_session_data ==> step is InvalidSessionData
            &&& !reading.window.invalid_session_data && reading.window.rules.establishing ==> step
                is AwaitingOwnership
            &&& !reading.window.invalid_session_data && !reading.window.rules.establishing ==> step
                is NeedsRebuild
        }),
        read is Ok && !reading.window.unknown_ownership && reading.window.retained@.len() == 0
            && !reading.window.ownership_established ==> {
            &&& read->Ok_0.fixed_view_exhausted ==> (r matches Ok(BatchTurn::Done(step)) && step
                is AwaitingOwnership)
            &&& !read->Ok_0.fixed_view_exhausted ==> r matches Ok(BatchTurn::ReadOn(_))
        },
        r matches Ok(BatchTurn::ReadOn(next)) ==> {
            &&& read is Ok
            &&& next.cursor == read->Ok_0.last_complete_offset
            &&& guard_view(next.expected_guard) == guard_view(read->Ok_0.guard)
            &&& next.fixed_observed_size == reading.fixed_observed_size
            &&& next.initial_start == reading.initial_start
            &&& next.window.rules == reading.window.rules
            &&& next.window.replayed_prefix_bytes == reading.window.replayed_prefix_bytes
            &&& next.window.replayed_prefix_lines == reading.window.replayed_prefix_lines
            &&& next.window.ownership_established == reading.window.ownership_established
            &&& next.window.retained@.len() == 0
            &&& next.source.deep_view() == reading.source.deep_view()
            &&& next.epoch == reading.epoch
            &&& next.file_generation == reading.file_generation
        },
{
    let facts = reading.deep_view();
    assert(facts.window.retained.len() == reading.window.retained@.len());
    if let Ok(BatchTurn::ReadOn(next)) = r {
        assert(next.deep_view() == facts.moved_on(read->Ok_0));
        assert(next.deep_view().window.retained.len() == next.window.retained@.len());
    }
}

/// A stretch whose owner is known goes to the pipeline with the lines that were kept of it: from
/// where the source was begun, or behind what was replayed if that was the start of the file.
pub proof fn law_kept_lines_go_to_the_pipeline(
    reading: SourceReading,
    chunk: ChunkReadResult,
    now_ms: i64,
    read: PlannedRead,
    outcome: Result<PipelineDisposition, PipelineError>,
    r: Result<BatchTurn, &'static str>,
)
    requires
        turn_view(r) == (match reading.deep_view().verdict(Ok(chunk), now_ms) {
            Verdict::Failed(error) => TurnFacts::Failed(error),
            Verdict::Done(step) => TurnFacts::Done(step),
            Verdict::ReadOn => TurnFacts::ReadOn(reading.deep_view().moved_on(chunk)),
        }),
        !reading.window.unknown_ownership,
        reading.window.retained@.len() > 0 || reading.window.ownership_established,
        plan_error(reading.source.deep_view()) is None,
        read.file_generation == reading.file_generation,
        read.device_id == reading.device_id,
        read.inode == reading.inode,
        read.fixed_observed_size == reading.fixed_observed_size,
        reading.initial_start == 0 ==> read.read_start_offset
            == reading.window.replayed_prefix_bytes,
        reading.initial_start != 0 ==> read.read_start_offset == reading.initial_start,
        read.replayed_prefix_bytes == reading.window.replayed_prefix_bytes,
        read.replayed_prefix_lines == reading.window.replayed_prefix_lines,
        read.allow_replay_tail == reading.window.rules.allow_replay_tail,
        outcome_view(outcome) == chunk_outcome(
            planned(reading.epoch, reading.source.deep_view(), read),
            reading.deep_view().window.retained,
            tail_of(chunk),
            guard_view(chunk.guard),
            false,
            now_ms,
        ),
    ensures
        outcome is Err ==> r is Err,
        outcome matches Ok(PipelineDisposition::Commit(dto)) ==> (r matches Ok(BatchTurn::Done(step))
            && step matches UsageReadStep::Prepared { dto: told, .. } && told.deep_view()
            == dto.deep_view()),
        outcome matches Ok(PipelineDisposition::NeedsRebuild) ==> (r matches Ok(
            BatchTurn::Done(step),
        ) && step is NeedsRebuild),
        outcome is Ok && outcome->Ok_0 is AwaitingOwningMeta && !chunk.fixed_view_exhausted
            && reading.initial_start == 0 ==> r matches Ok(BatchTurn::ReadOn(_)),
{
    assert(reading.deep_view().planned_read() == read);
    assert(reading.deep_view().window.retained.len() == reading.window.retained@.len());
}

/// A line is read for what it says only where it is the owner's own; it keeps its place and its
/// skills. A line that is too long keeps its place, and says only that.
pub proof fn law_own_lines_are_read(
    scan: crate::rollout_parser::Scan,
    framed: FramedItem,
    item: Option<ClassifiedUsageItem>,
)
    requires
        item_view(item) == framed_item(scan, framed),
    ensures
        framed matches FramedItem::Line(line) ==> (item_view(item) matches Some(told) ==> {
            &&& ends_line(line.bytes_with_newline@)
            &&& told.at.start == line.start_offset
            &&& told.at.end == line.start_offset + line.bytes_with_newline@.len()
            &&& !told.oversized
            &&& told.skills == line.skill_usage.deep_view()
            &&& told.class.ownership is Owning ==> told.raw == raw_record(
                json_document(without_line_ending(line.bytes_with_newline@)),
            )
            &&& !(told.class.ownership is Owning) ==> told.raw is Ignored
        }),
        framed matches FramedItem::OversizedCompleteLine(line) ==> (item_view(item) matches Some(
            told,
        ) && told.at.start == line.start_offset && told.at.end == line.end_offset && told.oversized
            && told.raw is OversizedComplete && told.skills is None),
{
}

} // verus!
