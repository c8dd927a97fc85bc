//! What a commit holds of what was processed.
use vstd::prelude::*;

use super::commit_types::{
    BatchFacts, CostEstimate, UsageChainState, UsageCommitBatch, UsageGapReason, UsageSnapshot,
    UsageSourceCommit, UsageSourceStateWrite, UsageTurnWrite,
};
use super::usage_commit::{
    anomaly_writes, batch_of, closed_error, ending_of, event_writes, law_batches_are_of_one_thread,
    occurrence_error, occurrence_writes, skill_error, skill_writes, source_error, source_write,
    state_error, state_write, turn_error, turn_write, turn_writes, PricedCommit,
};
use super::usage_pipeline::{SourceStateProof, UsageSourceCommitDto};
use super::usage_processor::{
    no_blocks, AnomalyCode, ChainState, ClosedTurnFacts, GapKind, TurnState,
};
use crate::normalization::fingerprint;
use crate::token_usage::NormalizedTokenUsage;

verus! {

/// `w` is the commit that is written for `dto`, whose events cost what `costs` says.
pub open spec fn is_written(
    dto: UsageSourceCommitDto,
    costs: Vec<CostEstimate>,
    w: UsageSourceCommit,
) -> bool {
    &&& costs@.len() == dto.events@.len()
    &&& source_error(dto.deep_view(), costs@) is None
    &&& w.deep_view() == source_write(dto.deep_view(), costs@)
}

/// Each event is written as it was proposed: its identity, kind, time, thread, root, turn,
/// model, effort and counts. The time of the commit is when it was written, and has no part in
/// when it took place.
pub proof fn law_events_are_written_as_proposed(
    dto: UsageSourceCommitDto,
    costs: Vec<CostEstimate>,
    w: UsageSourceCommit,
    i: int,
)
    requires
        is_written(dto, costs, w),
        0 <= i < dto.events@.len(),
    ensures
        w.events@.len() == dto.events@.len(),
        w.events@[i].event_id@ == dto.events@[i].event_id@,
        w.events@[i].kind == dto.events@[i].kind,
        w.events@[i].occurred_at_ms == dto.events@[i].occurred_at_ms,
        w.events@[i].thread_id@ == dto.events@[i].thread_id@,
        w.events@[i].root_session_id@ == dto.events@[i].root_session_id@,
        w.events@[i].turn_key.deep_view() == dto.events@[i].turn_key.deep_view(),
        w.events@[i].model@ == dto.events@[i].model@,
        w.events@[i].reasoning_effort.deep_view() == dto.events@[i].reasoning_effort.deep_view(),
        w.events@[i].usage == dto.events@[i].usage,
        w.events@[i].created_at_ms == dto.committed_at_ms,
        w.events@[i].estimated_cost_nanos_usd is Some <==> costs@[i] is Known,
        costs@[i] is Known ==> w.events@[i].estimated_cost_nanos_usd == Some(costs@[i]->Known_0),
{
    reveal(source_write);
    assert(w.events.deep_view() == event_writes(
        dto.events.deep_view(),
        costs@,
        dto.committed_at_ms,
    ));
    assert(w.events.deep_view().len() == w.events@.len());
    assert(w.events.deep_view()[i] == w.events@[i].deep_view());
    assert(dto.events.deep_view()[i] == dto.events@[i].deep_view());
}

/// Where each event was seen is written as it was noted.
pub proof fn law_occurrences_are_written_as_noted(
    dto: UsageSourceCommitDto,
    costs: Vec<CostEstimate>,
    w: UsageSourceCommit,
    i: int,
)
    requires
        is_written(dto, costs, w),
        0 <= i < dto.occurrences@.len(),
    ensures
        w.occurrences@.len() == dto.occurrences@.len(),
        w.occurrences@[i].source_file_id == dto.occurrences@[i].source_file_id,
        w.occurrences@[i].file_generation == dto.occurrences@[i].file_generation,
        w.occurrences@[i].source_start_offset == dto.occurrences@[i].source_start_offset,
        w.occurrences@[i].source_end_offset == dto.occurrences@[i].source_end_offset,
        w.occurrences@[i].event_id@ == dto.occurrences@[i].event_id@,
{
    reveal(source_write);
    reveal(source_error);
    assert(w.occurrences.deep_view() == occurrence_writes(dto.occurrences.deep_view()));
    assert(w.occurrences.deep_view().len() == w.occurrences@.len());
    assert(w.occurrences.deep_view()[i] == w.occurrences@[i].deep_view());
    assert(dto.occurrences.deep_view()[i] == dto.occurrences@[i].deep_view());
    assert(occurrence_error(dto.occurrences.deep_view()[i]) is None);
}

/// Each skill that was seen in use is written as it was seen.
pub proof fn law_skills_are_written_as_seen(
    dto: UsageSourceCommitDto,
    costs: Vec<CostEstimate>,
    w: UsageSourceCommit,
    i: int,
)
    requires
        is_written(dto, costs, w),
        0 <= i < dto.skill_events@.len(),
    ensures
        w.skill_events@.len() == dto.skill_events@.len(),
        w.skill_events@[i].occurred_at_ms == dto.skill_events@[i].occurred_at_ms,
        w.skill_events@[i].thread_id@ == dto.skill_events@[i].thread_id@,
        w.skill_events@[i].root_session_id@ == dto.skill_events@[i].root_session_id@,
        w.skill_events@[i].model.deep_view() == dto.skill_events@[i].model.deep_view(),
        w.skill_events@[i].skill_name@ == dto.skill_events@[i].skill_name@,
        w.skill_events@[i].source_file_id == dto.skill_events@[i].source_file_id,
        w.skill_events@[i].file_generation == dto.skill_events@[i].file_generation,
        w.skill_events@[i].source_start_offset == dto.skill_events@[i].source_start_offset,
        w.skill_events@[i].source_end_offset == dto.skill_events@[i].source_end_offset,
{
    reveal(source_write);
    reveal(source_error);
    assert(w.skill_events.deep_view() == skill_writes(dto.skill_events.deep_view()));
    assert(w.skill_events.deep_view().len() == w.skill_events@.len());
    assert(w.skill_events.deep_view()[i] == w.skill_events@[i].deep_view());
    assert(dto.skill_events.deep_view()[i] == dto.skill_events@[i].deep_view());
    assert(skill_error(dto.skill_events.deep_view()[i]) is None);
}

/// A remark is of the same kind as what was found, stands where that was found, and is dated by
/// the commit. A total that cannot be used and a sum that cannot be taken are errors; the others
/// are not.
pub proof fn law_anomalies_are_written_as_found(
    dto: UsageSourceCommitDto,
    costs: Vec<CostEstimate>,
    w: UsageSourceCommit,
    i: int,
)
    requires
        is_written(dto, costs, w),
        0 <= i < dto.anomalies@.len(),
    ensures
        w.anomalies@.len() == dto.anomalies@.len(),
        w.anomalies@[i].detected_at_ms == dto.committed_at_ms,
        w.anomalies@[i].occurred_at_ms is None,
        w.anomalies@[i].source_start_offset is Some
            <==> dto.anomalies@[i].source_start_offset is Some,
        dto.anomalies@[i].source_start_offset is Some ==> w.anomalies@[i].source_start_offset->0
            == dto.anomalies@[i].source_start_offset->0,
        w.anomalies@[i].severity_error <==> dto.anomalies@[i].code
            == AnomalyCode::RequiredTotalInvalid || dto.anomalies@[i].code
            == AnomalyCode::ArithmeticOverflow,
        w.anomalies@[i].kind is UsageTimeMissing <==> dto.anomalies@[i].code is UsageTimeMissing,
        w.anomalies@[i].kind is RequiredTotalInvalid
            <==> dto.anomalies@[i].code is RequiredTotalInvalid,
        w.anomalies@[i].kind is LastUsageInvalid <==> dto.anomalies@[i].code is LastUsageInvalid,
        w.anomalies@[i].kind is TotalChainReset <==> dto.anomalies@[i].code is TotalChainReset,
        w.anomalies@[i].kind is CacheWriteChainDecrease
            <==> dto.anomalies@[i].code is CacheWriteChainDecrease,
        w.anomalies@[i].kind is TurnAccountedExceedsTotal
            <==> dto.anomalies@[i].code is TurnAccountedExceedsTotal,
        w.anomalies@[i].kind is TurnCacheWriteDeltaNegative
            <==> dto.anomalies@[i].code is TurnCacheWriteDeltaNegative,
        w.anomalies@[i].kind is TurnIdMismatch <==> dto.anomalies@[i].code is TurnIdMismatch,
        w.anomalies@[i].kind is TurnReplaced <==> dto.anomalies@[i].code is TurnReplaced,
        w.anomalies@[i].kind is ArithmeticOverflow
            <==> dto.anomalies@[i].code is ArithmeticOverflow,
{
    reveal(source_write);
    reveal(source_error);
    assert(w.anomalies.deep_view() == anomaly_writes(dto.deep_view()));
    assert(w.anomalies.deep_view().len() == w.anomalies@.len());
    assert(w.anomalies.deep_view()[i] == w.anomalies@[i].deep_view());
    assert(dto.anomalies.deep_view()[i] == dto.anomalies@[i].deep_view());
    assert(dto.anomalies.deep_view()[i].source_start_offset == dto.anomalies@[i].source_start_offset);
}

/// The snapshot is of the vector, where there is one.
pub open spec fn is_snapshot(v: Option<NormalizedTokenUsage>, w: Option<UsageSnapshot>) -> bool {
    &&& v is Some <==> w is Some
    &&& v is Some ==> w->0.vector == v->0 && w->0.fingerprint@ == fingerprint(v->0)
}

/// The offset is written, where there is one.
pub open spec fn is_offset(offset: Option<u64>, w: Option<i64>) -> bool {
    &&& offset is Some <==> w is Some
    &&& offset is Some ==> w->0 == offset->0
}

/// The turn is written with all that is known of it.
pub open spec fn is_turn(turn: TurnState, w: UsageTurnWrite) -> bool {
    &&& w.turn_key@ == turn.turn_key@
    &&& w.raw_turn_id.deep_view() == turn.raw_turn_id.deep_view()
    &&& w.started_at_ms == turn.started_at_ms
    &&& w.start_offset == turn.start_offset
    &&& is_snapshot(turn.start_total, w.start_total)
    &&& is_snapshot(turn.last_total, w.last_total)
    &&& is_snapshot(Some(turn.accounted), Some(w.accounted))
    &&& w.accounted_candidate_count == turn.accounted_candidate_count
    &&& w.model_state.deep_view() == turn.model_state.deep_view()
    &&& w.reasoning_effort_state.deep_view() == turn.reasoning_effort_state.deep_view()
    &&& w.unresolved_model_seen == turn.unresolved_model_seen
    &&& w.unresolved_reasoning_effort_seen == turn.unresolved_reasoning_effort_seen
    &&& w.blocks.start_missing == turn.blocks.start_missing
    &&& w.blocks.time_missing == turn.blocks.time_missing
    &&& w.blocks.reset == turn.blocks.reset
    &&& w.blocks.ownership_gap == turn.blocks.ownership_gap
    &&& w.blocks.parser_gap == turn.blocks.parser_gap
    &&& w.blocks.required_invalid == turn.blocks.required_invalid
    &&& w.blocks.model_unresolved == turn.blocks.model_unresolved
    &&& w.quality_status@ == if turn.unresolved_model_seen || turn.blocks.start_missing
        || turn.blocks.time_missing || turn.blocks.reset || turn.blocks.ownership_gap
        || turn.blocks.parser_gap || turn.blocks.required_invalid
        || turn.blocks.model_unresolved {
        "partial"@
    } else {
        "complete"@
    }
}

proof fn lemma_closed_errors(turns: Seq<ClosedTurnFacts>, through: u64, n: nat, i: int)
    requires
        n <= turns.len(),
        closed_error(turns, through, n) is None,
        0 <= i < n,
    ensures
        turn_error(turns[i].turn, ending_of(turns[i]), through) is None,
    decreases n,
{
    if i < n - 1 {
        lemma_closed_errors(turns, through, (n - 1) as nat, i);
    }
}

/// Each turn that ended is written with all that is known of it, and with when, where and how it
/// ended.
pub proof fn law_closed_turns_are_written_as_they_ended(
    dto: UsageSourceCommitDto,
    costs: Vec<CostEstimate>,
    w: UsageSourceCommit,
    i: int,
)
    requires
        is_written(dto, costs, w),
        0 <= i < dto.closed_turns@.len(),
    ensures
        i < w.turns@.len(),
        is_turn(dto.closed_turns@[i].turn, w.turns@[i]),
        w.turns@[i].ended_at_ms == dto.closed_turns@[i].ended_at_ms,
        w.turns@[i].end_offset is Some,
        w.turns@[i].end_offset->0 == dto.closed_turns@[i].end_offset,
        w.turns@[i].status is Completed <==> dto.closed_turns@[i].status is Completed,
        w.turns@[i].status is Aborted <==> dto.closed_turns@[i].status is Aborted,
        w.turns@[i].status is Failed <==> dto.closed_turns@[i].status is Failed,
        !(w.turns@[i].status is Open),
        w.turns@[i].state_through_offset == dto.last_complete_offset,
        w.turns@[i].updated_at_ms == dto.committed_at_ms,
{
    reveal(source_write);
    reveal(source_error);
    let turns = dto.closed_turns.deep_view();
    lemma_closed_errors(turns, dto.last_complete_offset, turns.len(), i);
    assert(w.turns.deep_view() == turn_writes(dto.deep_view()));
    assert(w.turns.deep_view().len() == w.turns@.len());
    assert(w.turns.deep_view()[i] == w.turns@[i].deep_view());
    assert(turns[i] == dto.closed_turns@[i].deep_view());
    assert(turn_writes(dto.deep_view())[i] == turn_write(
        turns[i].turn,
        ending_of(turns[i]),
        dto.last_complete_offset,
        dto.committed_at_ms,
    ));
    let turn = dto.closed_turns@[i].turn;
    let blocks = turn.blocks;
    assert(blocks == no_blocks() <==> !blocks.start_missing && !blocks.time_missing
        && !blocks.reset && !blocks.ownership_gap && !blocks.parser_gap && !blocks.required_invalid
        && !blocks.model_unresolved);
}

/// The turn that is open is written after those that ended, as open, with no end.
pub proof fn law_the_open_turn_is_written_last(
    dto: UsageSourceCommitDto,
    costs: Vec<CostEstimate>,
    w: UsageSourceCommit,
)
    requires
        is_written(dto, costs, w),
    ensures
        dto.open_turn is None ==> w.turns@.len() == dto.closed_turns@.len(),
        dto.open_turn is Some ==> {
            let last = w.turns@[dto.closed_turns@.len() as int];
            &&& w.turns@.len() == dto.closed_turns@.len() + 1
            &&& is_turn(dto.open_turn->0, last)
            &&& last.ended_at_ms is None
            &&& last.end_offset is None
            &&& last.status is Open
            &&& last.state_through_offset == dto.last_complete_offset
            &&& last.updated_at_ms == dto.committed_at_ms
        },
{
    reveal(source_write);
    reveal(source_error);
    assert(w.turns.deep_view() == turn_writes(dto.deep_view()));
    assert(w.turns.deep_view().len() == w.turns@.len());
    assert(dto.closed_turns.deep_view().len() == dto.closed_turns@.len());
    if dto.open_turn is Some {
        let n = dto.closed_turns@.len() as int;
        let turn = dto.open_turn->0;
        assert(w.turns.deep_view()[n] == w.turns@[n].deep_view());
        assert(dto.deep_view().open_turn == Some(turn.deep_view()));
        let blocks = turn.blocks;
        assert(blocks == no_blocks() <==> !blocks.start_missing && !blocks.time_missing
            && !blocks.reset && !blocks.ownership_gap && !blocks.parser_gap
            && !blocks.required_invalid && !blocks.model_unresolved);
    }
}

/// The state of a source is written with all that is known of it.
pub open spec fn is_state(state: SourceStateProof, w: UsageSourceStateWrite) -> bool {
    &&& w.file_generation == state.file_generation
    &&& w.device_id == state.device_id
    &&& w.inode == state.inode
    &&& w.usage_parser_version == state.parser_version
    &&& w.canonical_algorithm_version == state.canonical_algorithm_version
    &&& w.resolved_through_offset == state.resolved_through_offset
    &&& w.observed_raw_size == state.observed_raw_size
    &&& w.raw_tail_status is Unverified <==> state.raw_tail_status is Unverified
    &&& w.raw_tail_status is NoTail <==> state.raw_tail_status is NoTail
    &&& w.raw_tail_status is HalfLine <==> state.raw_tail_status is HalfLine
    &&& is_offset(state.raw_tail_start_offset, w.raw_tail_start_offset)
    &&& w.owning_thread_id@ == state.owning_thread_id@
    &&& w.root_session_id@ == state.root_session_id@
    &&& w.continuation_state is OwningLive <==> state.continuation_state is OwningLive
    &&& is_snapshot(state.processor_state.previous_total, w.previous_total)
    &&& is_offset(state.processor_state.previous_total_offset, w.previous_total_offset)
    &&& is_chain(state.processor_state.chain_state, w.chain_state)
    &&& w.active_turn_key is Some <==> state.processor_state.open_turn is Some
    &&& w.active_turn_key is Some ==> w.active_turn_key->0@
        == state.processor_state.open_turn->0.turn_key@
    &&& w.active_model.deep_view() == state.processor_state.active_model.deep_view()
    &&& is_offset(state.active_model_offset, w.active_model_offset)
    &&& w.active_reasoning_effort.deep_view()
        == state.processor_state.active_reasoning_effort.deep_view()
    &&& is_offset(state.active_reasoning_effort_offset, w.active_reasoning_effort_offset)
    &&& w.updated_at_ms == state.updated_at_ms
}

/// The chain is written as unbroken, or as interrupted for the reason it is.
pub open spec fn is_chain(chain: ChainState, w: UsageChainState) -> bool {
    &&& w is Continuous <==> chain is Continuous
    &&& w == UsageChainState::Interrupted(UsageGapReason::Malformed) <==> chain
        == ChainState::Interrupted(GapKind::Malformed)
    &&& w == UsageChainState::Interrupted(UsageGapReason::Oversized) <==> chain
        == ChainState::Interrupted(GapKind::Oversized)
    &&& w == UsageChainState::Interrupted(UsageGapReason::TotalInvalid) <==> chain
        == ChainState::Interrupted(GapKind::RequiredInvalid)
    &&& w == UsageChainState::Interrupted(UsageGapReason::OwnershipGap) <==> chain
        == ChainState::Interrupted(GapKind::Ownership)
    &&& w == UsageChainState::Interrupted(UsageGapReason::ParserGap) <==> chain
        == ChainState::Interrupted(GapKind::Parser)
}

proof fn lemma_state(state: SourceStateProof, w: UsageSourceStateWrite)
    requires
        state_error(state.deep_view()) is None,
        w.deep_view() == state_write(state.deep_view()),
    ensures
        is_state(state, w),
{
    assert(is_snapshot(state.processor_state.previous_total, w.previous_total)) by {
        assert(w.deep_view().previous_total == w.previous_total.deep_view());
    }
    let proof_facts = state.deep_view();
    assert(proof_facts.processor_state.open_turn is Some
        <==> state.processor_state.open_turn is Some);
}

/// The state that a source is left in, and the one that storage is expected to hold, are
/// written with all that is known of them.
pub proof fn law_states_are_written_as_they_are(
    dto: UsageSourceCommitDto,
    costs: Vec<CostEstimate>,
    w: UsageSourceCommit,
)
    requires
        is_written(dto, costs, w),
    ensures
        is_state(dto.updated_state, w.updated_state),
        w.expected_state is Some <==> dto.expected_state is Some,
        dto.expected_state is Some ==> is_state(dto.expected_state->0, w.expected_state->0),
{
    reveal(source_write);
    reveal(source_error);
    lemma_state(dto.updated_state, w.updated_state);
    if dto.expected_state is Some {
        assert(dto.deep_view().expected_state == Some(dto.expected_state->0.deep_view()));
        assert(w.deep_view().expected_state == Some(w.expected_state->0.deep_view()));
        lemma_state(dto.expected_state->0, w.expected_state->0);
    }
}

/// The numbers of a commit are written as they are; so is what storage is expected to hold.
pub proof fn law_numbers_are_written_as_they_are(
    dto: UsageSourceCommitDto,
    costs: Vec<CostEstimate>,
    w: UsageSourceCommit,
)
    requires
        is_written(dto, costs, w),
    ensures
        w.source_file_id == dto.source_file_id,
        w.expected_file_generation == dto.expected_file_generation,
        w.expected_previous_thread_id.deep_view() == dto.expected_previous_thread_id.deep_view(),
        w.expected_checkpoint.parser_version == dto.expected_checkpoint.parser_version,
        w.expected_checkpoint.committed_offset == dto.expected_checkpoint.committed_offset,
        w.expected_checkpoint.guard_hash.deep_view()
            == dto.expected_checkpoint.guard_hash.deep_view(),
        w.expected_checkpoint.processing_status is Pending
            <==> dto.expected_checkpoint.status is Pending,
        w.expected_checkpoint.processing_status is Ready
            <==> dto.expected_checkpoint.status is Ready,
        w.expected_checkpoint.processing_status is Error
            <==> dto.expected_checkpoint.status is Error,
        w.expected_checkpoint.processing_status is RebuildRequired
            <==> dto.expected_checkpoint.status is RebuildRequired,
        w.expected_checkpoint_missing == dto.expected_checkpoint_missing,
        w.local_replay == dto.local_replay,
        w.batch_start_offset == dto.batch_start_offset,
        w.fixed_observed_raw_size == dto.fixed_observed_raw_size,
        w.last_complete_offset == dto.last_complete_offset,
        w.source_bytes_consumed == dto.source_bytes_consumed,
        w.complete_line_count == dto.complete_line_count,
        w.candidate_count == dto.candidate_count,
        w.replayed_prefix_bytes == dto.replayed_prefix_bytes,
        w.replayed_prefix_lines == dto.replayed_prefix_lines,
        w.fixed_view_exhausted == dto.fixed_view_exhausted,
        w.tail_status is Unverified <==> dto.tail_status is Unverified,
        w.tail_status is NoTail <==> dto.tail_status is NoTail,
        w.tail_status is HalfLine <==> dto.tail_status is HalfLine,
        is_offset(dto.tail_start_offset, w.tail_start_offset),
        w.next_guard_hash.deep_view() == dto.next_guard_hash.deep_view(),
        w.committed_at_ms == dto.committed_at_ms,
{
    reveal(source_write);
    reveal(source_error);
}

/// A batch holds the commit of every source, in order, and all of them are of the thread, the
/// root, the ledger and the parser that the batch names.
pub proof fn law_batches_hold_every_commit(
    commits: Vec<PricedCommit>,
    batch: UsageCommitBatch,
    i: int,
)
    requires
        batch_of(commits.deep_view()) == Ok::<BatchFacts, Seq<char>>(batch.deep_view()),
        0 <= i < commits@.len(),
        commits@[i].costs@.len() == commits@[i].dto.events@.len(),
    ensures
        batch.sources@.len() == commits@.len(),
        is_written(commits@[i].dto, commits@[i].costs, batch.sources@[i]),
        batch.thread_id@ == commits@[i].dto.owning_thread_id@,
        batch.root_session_id@ == commits@[i].dto.root_session_id@,
        batch.ledger_epoch == commits@[i].dto.ledger_epoch,
        batch.usage_parser_version == commits@[i].dto.parser_version,
        batch.usage_parser_version == 11,
{
    let all = commits.deep_view();
    assert(all[i] == commits@[i].deep_view());
    law_batches_are_of_one_thread(all, all.len(), i);
    assert(batch.sources.deep_view().len() == batch.sources@.len());
    assert(batch.sources.deep_view()[i] == batch.sources@[i].deep_view());
}

/// Whether storage can hold the number.
pub open spec fn storable(value: u64) -> bool {
    value <= 0x7fff_ffff_ffff_ffff
}

/// A commit that is written has nothing that storage cannot hold, and no event whose cost could
/// not be estimated; it comes from the current parser.
pub proof fn law_commits_hold_what_storage_can(
    dto: UsageSourceCommitDto,
    costs: Vec<CostEstimate>,
    i: int,
)
    ensures
        source_error(dto.deep_view(), costs@) is None ==> {
            &&& dto.parser_version == 11
            &&& 0 <= i < costs@.len() ==> !(costs@[i] is Failed)
            &&& storable(dto.batch_start_offset)
            &&& storable(dto.fixed_observed_raw_size)
            &&& storable(dto.last_complete_offset)
            &&& storable(dto.source_bytes_consumed)
            &&& storable(dto.complete_line_count)
            &&& storable(dto.candidate_count)
            &&& storable(dto.replayed_prefix_bytes)
            &&& storable(dto.replayed_prefix_lines)
            &&& dto.tail_start_offset is Some ==> storable(dto.tail_start_offset->0)
            &&& storable(dto.expected_checkpoint.committed_offset)
            &&& storable(dto.updated_state.resolved_through_offset)
            &&& storable(dto.updated_state.observed_raw_size)
        },
        dto.parser_version == 11 && 0 <= i < costs@.len() && costs@[i] is Failed && source_error(
            dto.deep_view(),
            Seq::empty(),
        ) is None ==> source_error(dto.deep_view(), costs@) == Some(
            "usage cost estimation failed"@,
        ),
        dto.parser_version != 11 ==> source_error(dto.deep_view(), costs@) == Some(
            "unexpected usage parser version"@,
        ),
{
    reveal(source_error);
}

} // verus!
