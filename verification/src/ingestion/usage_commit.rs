//! Turning processed usage into what storage commits.
//!
//! Costs are estimated before storage is asked: a commit holds complete values and storage
//! never looks up prices.
use vstd::prelude::*;

use crate::domain::CheckpointProcessingStatus;
use crate::encoding::{
    blake3_hex, push_byte, push_bytes, push_i64, push_optional_text, push_optional_u64, push_text,
};
#[allow(unused_imports)]
use crate::encoding::{
    be_i64, blake3_digest, hex_lower, optional_text_bytes, optional_u64_bytes, text_bytes,
};
use crate::normalization::{usage_fingerprint, USAGE_PARSER_VERSION};
#[allow(unused_imports)]
use crate::normalization::fingerprint;
use crate::token_usage::NormalizedTokenUsage;
use super::commit_types::{
    CostEstimate, SkillUsageEventWrite, UsageAnomalyKind, UsageAnomalyWrite, UsageChainState,
    UsageCheckpointExpectation, UsageCommitBatch, UsageCompensationBlocks, UsageContinuationState,
    UsageEventWrite, UsageGapReason, UsageOccurrenceWrite, UsageSnapshot, UsageSourceCommit,
    UsageSourceStateWrite, UsageTailStatus, UsageTurnStatus, UsageTurnWrite,
};
#[allow(unused_imports)]
use super::commit_types::{
    AnomalyWriteFacts, BatchFacts, EventWriteFacts, ExpectationFacts, OccurrenceWriteFacts,
    SkillWriteFacts, SnapshotFacts, SourceCommitFacts, StateWriteFacts, TurnWriteFacts,
};
use super::usage_pipeline::{
    CheckpointStatus, SkillUsageEvent, SourceContinuationState, SourceStateProof, TailStatus,
    UsageSourceCommitDto,
};
#[allow(unused_imports)]
use super::usage_pipeline::{CommitFacts, ProofFacts, SkillFacts};
use super::usage_processor::{
    Anomaly, AnomalyCode, ChainState, ClosedTurn, CompensationBlocks, GapKind, Occurrence,
    TurnEndStatus, TurnState, UsageEvent,
};
#[allow(unused_imports)]
use super::usage_processor::{
    no_blocks, AnomalyFacts, ClosedTurnFacts, EventFacts, OccurrenceFacts, TurnFacts,
};

verus! {

pub open spec fn offset_error(value: u64) -> Option<Seq<char>> {
    if value > i64::MAX {
        Some("usage offset exceeds SQLite INTEGER"@)
    } else {
        None
    }
}

pub open spec fn optional_offset_error(value: Option<u64>) -> Option<Seq<char>> {
    match value {
        Some(value) => offset_error(value),
        None => None,
    }
}

pub open spec fn count_error(value: u64) -> Option<Seq<char>> {
    if value > i64::MAX {
        Some("usage count exceeds SQLite INTEGER"@)
    } else {
        None
    }
}

/// The first of two errors.
pub open spec fn earlier(a: Option<Seq<char>>, b: Option<Seq<char>>) -> Option<Seq<char>> {
    if a is Some {
        a
    } else {
        b
    }
}

pub open spec fn signed(value: Option<u64>) -> Option<i64> {
    match value {
        Some(value) => Some(value as i64),
        None => None,
    }
}

pub open spec fn error_of<T>(r: Result<T, &'static str>) -> Option<Seq<char>> {
    match r {
        Ok(_) => None,
        Err(error) => Some(error@),
    }
}

fn to_offset(value: u64) -> (r: Result<i64, &'static str>)
    ensures
        error_of(r) == offset_error(value),
        r matches Ok(offset) ==> offset == value as i64,
{
    if value <= i64::MAX as u64 {
        Ok(value as i64)
    } else {
        Err("usage offset exceeds SQLite INTEGER")
    }
}

fn to_optional_offset(value: Option<u64>) -> (r: Result<Option<i64>, &'static str>)
    ensures
        error_of(r) == optional_offset_error(value),
        r matches Ok(offset) ==> offset == signed(value),
{
    match value {
        Some(value) => match to_offset(value) {
            Ok(offset) => Ok(Some(offset)),
            Err(error) => Err(error),
        },
        None => Ok(None),
    }
}

fn to_count(value: u64) -> (r: Result<i64, &'static str>)
    ensures
        error_of(r) == count_error(value),
        r matches Ok(count) ==> count == value as i64,
{
    if value <= i64::MAX as u64 {
        Ok(value as i64)
    } else {
        Err("usage count exceeds SQLite INTEGER")
    }
}

pub open spec fn stored_checkpoint_status(status: CheckpointStatus) -> CheckpointProcessingStatus {
    match status {
        CheckpointStatus::Pending => CheckpointProcessingStatus::Pending,
        CheckpointStatus::Ready => CheckpointProcessingStatus::Ready,
        CheckpointStatus::Error => CheckpointProcessingStatus::Error,
        CheckpointStatus::RebuildRequired => CheckpointProcessingStatus::RebuildRequired,
    }
}

fn checkpoint_status(status: CheckpointStatus) -> (r: CheckpointProcessingStatus)
    ensures
        r == stored_checkpoint_status(status),
{
    match status {
        CheckpointStatus::Pending => CheckpointProcessingStatus::Pending,
        CheckpointStatus::Ready => CheckpointProcessingStatus::Ready,
        CheckpointStatus::Error => CheckpointProcessingStatus::Error,
        CheckpointStatus::RebuildRequired => CheckpointProcessingStatus::RebuildRequired,
    }
}

pub open spec fn stored_tail(status: TailStatus) -> UsageTailStatus {
    match status {
        TailStatus::Unverified => UsageTailStatus::Unverified,
        TailStatus::NoTail => UsageTailStatus::NoTail,
        TailStatus::HalfLine => UsageTailStatus::HalfLine,
    }
}

fn tail_status(status: TailStatus) -> (r: UsageTailStatus)
    ensures
        r == stored_tail(status),
{
    match status {
        TailStatus::Unverified => UsageTailStatus::Unverified,
        TailStatus::NoTail => UsageTailStatus::NoTail,
        TailStatus::HalfLine => UsageTailStatus::HalfLine,
    }
}

pub open spec fn stored_continuation(state: SourceContinuationState) -> UsageContinuationState {
    match state {
        SourceContinuationState::ReplayedAncestor => UsageContinuationState::ReplayedAncestor,
        SourceContinuationState::OwningLive => UsageContinuationState::OwningLive,
    }
}

pub open spec fn gap_reason(kind: GapKind) -> UsageGapReason {
    match kind {
        GapKind::Malformed => UsageGapReason::Malformed,
        GapKind::Oversized => UsageGapReason::Oversized,
        GapKind::RequiredInvalid => UsageGapReason::TotalInvalid,
        GapKind::Ownership => UsageGapReason::OwnershipGap,
        GapKind::Parser => UsageGapReason::ParserGap,
    }
}

pub open spec fn stored_chain(state: ChainState) -> UsageChainState {
    match state {
        ChainState::Continuous => UsageChainState::Continuous,
        ChainState::Interrupted(reason) => UsageChainState::Interrupted(gap_reason(reason)),
    }
}

fn chain_state(state: ChainState) -> (r: UsageChainState)
    ensures
        r == stored_chain(state),
{
    match state {
        ChainState::Continuous => UsageChainState::Continuous,
        ChainState::Interrupted(reason) => UsageChainState::Interrupted(
            match reason {
                GapKind::Malformed => UsageGapReason::Malformed,
                GapKind::Oversized => UsageGapReason::Oversized,
                GapKind::RequiredInvalid => UsageGapReason::TotalInvalid,
                GapKind::Ownership => UsageGapReason::OwnershipGap,
                GapKind::Parser => UsageGapReason::ParserGap,
            },
        ),
    }
}

pub open spec fn snapshot_of(value: NormalizedTokenUsage) -> SnapshotFacts {
    SnapshotFacts { vector: value, fingerprint: fingerprint(value) }
}

pub open spec fn optional_snapshot(value: Option<NormalizedTokenUsage>) -> Option<SnapshotFacts> {
    match value {
        Some(value) => Some(snapshot_of(value)),
        None => None,
    }
}

fn snapshot(value: &NormalizedTokenUsage) -> (r: UsageSnapshot)
    ensures
        r.deep_view() == snapshot_of(*value),
{
    let digest: [u8; 32] = usage_fingerprint(value);
    let mut bytes: Vec<u8> = Vec::new();
    push_bytes(&mut bytes, digest.as_slice());
    assert(bytes@ =~= fingerprint(*value));
    UsageSnapshot { vector: *value, fingerprint: bytes }
}

fn snapshot_if(value: &Option<NormalizedTokenUsage>) -> (r: Option<UsageSnapshot>)
    ensures
        r.deep_view() == optional_snapshot(*value),
{
    match value {
        Some(value) => Some(snapshot(value)),
        None => None,
    }
}

pub open spec fn state_error(state: ProofFacts) -> Option<Seq<char>> {
    earlier(
        offset_error(state.resolved_through_offset),
        earlier(
            offset_error(state.observed_raw_size),
            earlier(
                optional_offset_error(state.raw_tail_start_offset),
                earlier(
                    optional_offset_error(state.processor_state.previous_total_offset),
                    earlier(
                        optional_offset_error(state.active_model_offset),
                        optional_offset_error(state.active_reasoning_effort_offset),
                    ),
                ),
            ),
        ),
    )
}

pub open spec fn state_write(state: ProofFacts) -> StateWriteFacts {
    StateWriteFacts {
        file_generation: state.file_generation,
        device_id: state.device_id,
        inode: state.inode,
        usage_parser_version: state.parser_version,
        canonical_algorithm_version: state.canonical_algorithm_version,
        resolved_through_offset: state.resolved_through_offset as i64,
        observed_raw_size: state.observed_raw_size as i64,
        raw_tail_status: stored_tail(state.raw_tail_status),
        raw_tail_start_offset: signed(state.raw_tail_start_offset),
        owning_thread_id: state.owning_thread_id,
        root_session_id: state.root_session_id,
        continuation_state: stored_continuation(state.continuation_state),
        previous_total: optional_snapshot(state.processor_state.previous_total),
        previous_total_offset: signed(state.processor_state.previous_total_offset),
        chain_state: stored_chain(state.processor_state.chain_state),
        active_turn_key: match state.processor_state.open_turn {
            Some(turn) => Some(turn.turn_key),
            None => None,
        },
        active_model: state.processor_state.active_model,
        active_model_offset: signed(state.active_model_offset),
        active_reasoning_effort: state.processor_state.active_reasoning_effort,
        active_reasoning_effort_offset: signed(state.active_reasoning_effort_offset),
        updated_at_ms: state.updated_at_ms,
    }
}

fn source_state(value: &SourceStateProof) -> (r: Result<UsageSourceStateWrite, &'static str>)
    ensures
        error_of(r) == state_error(value.deep_view()),
        r matches Ok(state) ==> state.deep_view() == state_write(value.deep_view()),
{
    let resolved_through_offset: i64 = to_offset(value.resolved_through_offset)?;
    let observed_raw_size: i64 = to_offset(value.observed_raw_size)?;
    let raw_tail_start_offset: Option<i64> = to_optional_offset(value.raw_tail_start_offset)?;
    let previous_total_offset: Option<i64> = to_optional_offset(
        value.processor_state.previous_total_offset,
    )?;
    let active_model_offset: Option<i64> = to_optional_offset(value.active_model_offset)?;
    let active_reasoning_effort_offset: Option<i64> = to_optional_offset(
        value.active_reasoning_effort_offset,
    )?;
    let active_turn_key: Option<String> = match &value.processor_state.open_turn {
        Some(turn) => Some(turn.turn_key.clone()),
        None => None,
    };
    let continuation_state: UsageContinuationState = match value.continuation_state {
        SourceContinuationState::ReplayedAncestor => UsageContinuationState::ReplayedAncestor,
        SourceContinuationState::OwningLive => UsageContinuationState::OwningLive,
    };
    Ok(
        UsageSourceStateWrite {
            file_generation: value.file_generation,
            device_id: value.device_id,
            inode: value.inode,
            usage_parser_version: value.parser_version,
            canonical_algorithm_version: value.canonical_algorithm_version,
            resolved_through_offset,
            observed_raw_size,
            raw_tail_status: tail_status(value.raw_tail_status),
            raw_tail_start_offset,
            owning_thread_id: value.owning_thread_id.clone(),
            root_session_id: value.root_session_id.clone(),
            continuation_state,
            previous_total: snapshot_if(&value.processor_state.previous_total),
            previous_total_offset,
            chain_state: chain_state(value.processor_state.chain_state),
            active_turn_key,
            active_model: value.processor_state.active_model.clone(),
            active_model_offset,
            active_reasoning_effort: value.processor_state.active_reasoning_effort.clone(),
            active_reasoning_effort_offset,
            updated_at_ms: value.updated_at_ms,
        },
    )
}

pub open spec fn stored_blocks(blocks: CompensationBlocks) -> UsageCompensationBlocks {
    UsageCompensationBlocks {
        start_missing: blocks.start_missing,
        time_missing: blocks.time_missing,
        reset: blocks.reset,
        ownership_gap: blocks.ownership_gap,
        parser_gap: blocks.parser_gap,
        required_invalid: blocks.required_invalid,
        model_unresolved: blocks.model_unresolved,
    }
}

fn blocks(value: CompensationBlocks) -> (r: UsageCompensationBlocks)
    ensures
        r == stored_blocks(value),
{
    UsageCompensationBlocks {
        start_missing: value.start_missing,
        time_missing: value.time_missing,
        reset: value.reset,
        ownership_gap: value.ownership_gap,
        parser_gap: value.parser_gap,
        required_invalid: value.required_invalid,
        model_unresolved: value.model_unresolved,
    }
}

/// A turn is complete when nothing stood against compensation and its model was known.
pub open spec fn turn_quality(turn: TurnFacts) -> Seq<char> {
    if turn.blocks == no_blocks() && !turn.unresolved_model_seen {
        "complete"@
    } else {
        "partial"@
    }
}

/// How a turn ended, if it did.
pub struct Ending {
    pub at_ms: Option<i64>,
    pub offset: u64,
    pub status: TurnEndStatus,
}

pub open spec fn turn_error(turn: TurnFacts, ending: Option<Ending>, through: u64) -> Option<Seq<char>> {
    earlier(
        offset_error(turn.start_offset),
        earlier(
            match ending {
                Some(ending) => offset_error(ending.offset),
                None => None,
            },
            earlier(count_error(turn.accounted_candidate_count), offset_error(through)),
        ),
    )
}

pub open spec fn turn_write(
    turn: TurnFacts,
    ending: Option<Ending>,
    through: u64,
    updated_at: i64,
) -> TurnWriteFacts {
    TurnWriteFacts {
        turn_key: turn.turn_key,
        raw_turn_id: turn.raw_turn_id,
        started_at_ms: turn.started_at_ms,
        ended_at_ms: match ending {
            Some(ending) => ending.at_ms,
            None => None,
        },
        start_offset: turn.start_offset as i64,
        end_offset: match ending {
            Some(ending) => Some(ending.offset as i64),
            None => None,
        },
        status: match ending {
            None => UsageTurnStatus::Open,
            Some(ending) => match ending.status {
                TurnEndStatus::Completed => UsageTurnStatus::Completed,
                TurnEndStatus::Aborted => UsageTurnStatus::Aborted,
                TurnEndStatus::Failed => UsageTurnStatus::Failed,
            },
        },
        start_total: optional_snapshot(turn.start_total),
        last_total: optional_snapshot(turn.last_total),
        accounted: snapshot_of(turn.accounted),
        accounted_candidate_count: turn.accounted_candidate_count as i64,
        model_state: turn.models,
        reasoning_effort_state: turn.efforts,
        unresolved_reasoning_effort_seen: turn.unresolved_reasoning_effort_seen,
        unresolved_model_seen: turn.unresolved_model_seen,
        blocks: stored_blocks(turn.blocks),
        quality_status: turn_quality(turn),
        state_through_offset: through as i64,
        updated_at_ms: updated_at,
    }
}

fn write_turn(turn: &TurnState, ending: Option<Ending>, through: u64, updated_at: i64) -> (r: Result<
    UsageTurnWrite,
    &'static str,
>)
    ensures
        error_of(r) == turn_error(turn.deep_view(), ending, through),
        r matches Ok(write) ==> write.deep_view() == turn_write(
            turn.deep_view(),
            ending,
            through,
            updated_at,
        ),
{
    let quality_status: &'static str = if turn.blocks.allowed() && !turn.unresolved_model_seen {
        "complete"
    } else {
        "partial"
    };
    let start_offset: i64 = to_offset(turn.start_offset)?;
    let (ended_at_ms, end_offset, status): (Option<i64>, Option<i64>, UsageTurnStatus) =
        match ending {
        None => (None, None, UsageTurnStatus::Open),
        Some(ending) => (
            ending.at_ms,
            Some(to_offset(ending.offset)?),
            match ending.status {
                TurnEndStatus::Completed => UsageTurnStatus::Completed,
                TurnEndStatus::Aborted => UsageTurnStatus::Aborted,
                TurnEndStatus::Failed => UsageTurnStatus::Failed,
            },
        ),
    };
    let accounted_candidate_count: i64 = to_count(turn.accounted_candidate_count)?;
    let state_through_offset: i64 = to_offset(through)?;
    Ok(
        UsageTurnWrite {
            turn_key: turn.turn_key.clone(),
            raw_turn_id: turn.raw_turn_id.clone(),
            started_at_ms: turn.started_at_ms,
            ended_at_ms,
            start_offset,
            end_offset,
            status,
            start_total: snapshot_if(&turn.start_total),
            last_total: snapshot_if(&turn.last_total),
            accounted: snapshot(&turn.accounted),
            accounted_candidate_count,
            model_state: turn.model_state.clone(),
            reasoning_effort_state: turn.reasoning_effort_state.clone(),
            unresolved_reasoning_effort_seen: turn.unresolved_reasoning_effort_seen,
            unresolved_model_seen: turn.unresolved_model_seen,
            blocks: blocks(turn.blocks),
            quality_status,
            state_through_offset,
            updated_at_ms: updated_at,
        },
    )
}

pub open spec fn ending_of(turn: ClosedTurnFacts) -> Option<Ending> {
    Some(Ending { at_ms: turn.ended_at_ms, offset: turn.end_offset, status: turn.status })
}

/// The first error among the first `n` closed turns.
pub open spec fn closed_error(turns: Seq<ClosedTurnFacts>, through: u64, n: nat) -> Option<Seq<char>>
    decreases n,
{
    if n == 0 {
        None
    } else {
        earlier(
            closed_error(turns, through, (n - 1) as nat),
            turn_error(turns[n - 1].turn, ending_of(turns[n - 1]), through),
        )
    }
}

pub open spec fn closed_writes(turns: Seq<ClosedTurnFacts>, through: u64, updated_at: i64) -> Seq<
    TurnWriteFacts,
> {
    Seq::new(
        turns.len(),
        |i: int| turn_write(turns[i].turn, ending_of(turns[i]), through, updated_at),
    )
}

proof fn lemma_closed_error_stays(turns: Seq<ClosedTurnFacts>, through: u64, k: nat, n: nat)
    requires
        k <= n,
        closed_error(turns, through, k) is Some,
    ensures
        closed_error(turns, through, n) == closed_error(turns, through, k),
    decreases n,
{
    if k < n {
        lemma_closed_error_stays(turns, through, k, (n - 1) as nat);
    }
}

fn closed_turns(turns: &Vec<ClosedTurn>, through: u64, updated_at: i64) -> (r: Result<
    Vec<UsageTurnWrite>,
    &'static str,
>)
    ensures
        error_of(r) == closed_error(turns.deep_view(), through, turns@.len()),
        r matches Ok(writes) ==> writes.deep_view() == closed_writes(
            turns.deep_view(),
            through,
            updated_at,
        ),
{
    let ghost all = turns.deep_view();
    let mut writes: Vec<UsageTurnWrite> = Vec::new();
    let mut i: usize = 0;
    while i < turns.len()
        invariant
            i <= turns.len(),
            all == turns.deep_view(),
            closed_error(all, through, i as nat) is None,
            writes@.len() == i,
            forall|j: int|
                0 <= j < i ==> (#[trigger] writes@[j]).deep_view() == closed_writes(
                    all,
                    through,
                    updated_at,
                )[j],
        decreases turns.len() - i,
    {
        let turn: &ClosedTurn = &turns[i];
        let ending: Option<Ending> = Some(
            Ending { at_ms: turn.ended_at_ms, offset: turn.end_offset, status: turn.status },
        );
        assert(ending == ending_of(all[i as int]));
        match write_turn(&turn.turn, ending, through, updated_at) {
            Ok(write) => {
                writes.push(write);
            },
            Err(error) => {
                proof {
                    lemma_closed_error_stays(all, through, (i + 1) as nat, all.len());
                }
                return Err(error);
            },
        }
        i = i + 1;
    }
    assert(writes.deep_view() =~= closed_writes(all, through, updated_at));
    Ok(writes)
}

pub open spec fn cost_of(estimate: CostEstimate) -> Option<i64> {
    match estimate {
        CostEstimate::Known(nanos) => Some(nanos),
        _ => None,
    }
}

pub open spec fn some_cost_failed(costs: Seq<CostEstimate>) -> bool {
    exists|i: int| 0 <= i < costs.len() && (#[trigger] costs[i]) is Failed
}

pub open spec fn cost_error(costs: Seq<CostEstimate>) -> Option<Seq<char>> {
    if some_cost_failed(costs) {
        Some("usage cost estimation failed"@)
    } else {
        None
    }
}

pub open spec fn event_write(event: EventFacts, cost: CostEstimate, created_at_ms: i64) -> EventWriteFacts {
    EventWriteFacts {
        event_id: event.event_id,
        kind: event.kind,
        occurred_at_ms: event.occurred_at_ms,
        thread_id: event.thread_id,
        root_session_id: event.root_session_id,
        turn_key: event.turn_key,
        model: event.model,
        reasoning_effort: event.reasoning_effort,
        estimated_cost_nanos_usd: cost_of(cost),
        usage: event.usage,
        created_at_ms,
    }
}

pub open spec fn event_writes(events: Seq<EventFacts>, costs: Seq<CostEstimate>, created_at_ms: i64) -> Seq<
    EventWriteFacts,
> {
    Seq::new(events.len(), |i: int| event_write(events[i], costs[i], created_at_ms))
}

fn write_events(events: &Vec<UsageEvent>, costs: &Vec<CostEstimate>, created_at_ms: i64) -> (r: Result<
    Vec<UsageEventWrite>,
    &'static str,
>)
    requires
        costs@.len() == events@.len(),
    ensures
        error_of(r) == cost_error(costs@),
        r matches Ok(writes) ==> writes.deep_view() == event_writes(
            events.deep_view(),
            costs@,
            created_at_ms,
        ),
{
    let ghost all = events.deep_view();
    let mut writes: Vec<UsageEventWrite> = Vec::new();
    let mut i: usize = 0;
    while i < events.len()
        invariant
            i <= events.len(),
            costs@.len() == events@.len(),
            all == events.deep_view(),
            writes@.len() == i,
            forall|j: int| 0 <= j < i ==> !((#[trigger] costs@[j]) is Failed),
            forall|j: int|
                0 <= j < i ==> (#[trigger] writes@[j]).deep_view() == event_writes(
                    all,
                    costs@,
                    created_at_ms,
                )[j],
        decreases events.len() - i,
    {
        let event: &UsageEvent = &events[i];
        let estimated_cost_nanos_usd: Option<i64> = match costs[i] {
            CostEstimate::Known(nanos) => Some(nanos),
            CostEstimate::Unknown => None,
            CostEstimate::Failed => {
                assert(costs@[i as int] is Failed);
                return Err("usage cost estimation failed");
            },
        };
        writes.push(
            UsageEventWrite {
                event_id: event.event_id.clone(),
                kind: event.kind,
                occurred_at_ms: event.occurred_at_ms,
                thread_id: event.thread_id.clone(),
                root_session_id: event.root_session_id.clone(),
                turn_key: event.turn_key.clone(),
                model: event.model.clone(),
                reasoning_effort: event.reasoning_effort.clone(),
                estimated_cost_nanos_usd,
                usage: event.usage,
                created_at_ms,
            },
        );
        i = i + 1;
    }
    assert(writes.deep_view() =~= event_writes(all, costs@, created_at_ms));
    Ok(writes)
}

pub open spec fn occurrence_error(occurrence: OccurrenceFacts) -> Option<Seq<char>> {
    earlier(
        offset_error(occurrence.source_start_offset),
        offset_error(occurrence.source_end_offset),
    )
}

pub open spec fn some_occurrence_error(occurrences: Seq<OccurrenceFacts>) -> bool {
    exists|i: int| 0 <= i < occurrences.len() && occurrence_error(#[trigger] occurrences[i]) is Some
}

pub open spec fn offsets_error(broken: bool) -> Option<Seq<char>> {
    if broken {
        Some("usage offset exceeds SQLite INTEGER"@)
    } else {
        None
    }
}

pub open spec fn occurrence_writes(occurrences: Seq<OccurrenceFacts>) -> Seq<OccurrenceWriteFacts> {
    Seq::new(
        occurrences.len(),
        |i: int|
            OccurrenceWriteFacts {
                source_file_id: occurrences[i].source_file_id,
                file_generation: occurrences[i].file_generation,
                source_start_offset: occurrences[i].source_start_offset as i64,
                source_end_offset: occurrences[i].source_end_offset as i64,
                event_id: occurrences[i].event_id,
            },
    )
}

fn write_occurrences(occurrences: &Vec<Occurrence>) -> (r: Result<
    Vec<UsageOccurrenceWrite>,
    &'static str,
>)
    ensures
        error_of(r) == offsets_error(some_occurrence_error(occurrences.deep_view())),
        r matches Ok(writes) ==> writes.deep_view() == occurrence_writes(occurrences.deep_view()),
{
    let ghost all = occurrences.deep_view();
    let mut writes: Vec<UsageOccurrenceWrite> = Vec::new();
    let mut i: usize = 0;
    while i < occurrences.len()
        invariant
            i <= occurrences.len(),
            all == occurrences.deep_view(),
            writes@.len() == i,
            forall|j: int| 0 <= j < i ==> occurrence_error(#[trigger] all[j]) is None,
            forall|j: int|
                0 <= j < i ==> (#[trigger] writes@[j]).deep_view() == occurrence_writes(all)[j],
        decreases occurrences.len() - i,
    {
        let occurrence: &Occurrence = &occurrences[i];
        proof {
            if occurrence_error(all[i as int]) is Some {
                assert(some_occurrence_error(all));
            }
        }
        let source_start_offset: i64 = to_offset(occurrence.source_start_offset)?;
        let source_end_offset: i64 = to_offset(occurrence.source_end_offset)?;
        writes.push(
            UsageOccurrenceWrite {
                source_file_id: occurrence.source_file_id,
                file_generation: occurrence.file_generation,
                source_start_offset,
                source_end_offset,
                event_id: occurrence.event_id.clone(),
            },
        );
        i = i + 1;
    }
    assert(writes.deep_view() =~= occurrence_writes(all));
    Ok(writes)
}

pub open spec fn skill_error(event: SkillFacts) -> Option<Seq<char>> {
    earlier(offset_error(event.at.start), offset_error(event.at.end))
}

pub open spec fn some_skill_error(events: Seq<SkillFacts>) -> bool {
    exists|i: int| 0 <= i < events.len() && skill_error(#[trigger] events[i]) is Some
}

pub open spec fn skill_writes(events: Seq<SkillFacts>) -> Seq<SkillWriteFacts> {
    Seq::new(
        events.len(),
        |i: int|
            SkillWriteFacts {
                occurred_at_ms: events[i].occurred_at_ms,
                thread_id: events[i].thread_id,
                root_session_id: events[i].root_session_id,
                model: events[i].model,
                skill_name: events[i].skill_name,
                source_file_id: events[i].source_file_id,
                file_generation: events[i].file_generation,
                source_start_offset: events[i].at.start as i64,
                source_end_offset: events[i].at.end as i64,
            },
    )
}

fn write_skills(events: &Vec<SkillUsageEvent>) -> (r: Result<
    Vec<SkillUsageEventWrite>,
    &'static str,
>)
    ensures
        error_of(r) == offsets_error(some_skill_error(events.deep_view())),
        r matches Ok(writes) ==> writes.deep_view() == skill_writes(events.deep_view()),
{
    let ghost all = events.deep_view();
    let mut writes: Vec<SkillUsageEventWrite> = Vec::new();
    let mut i: usize = 0;
    while i < events.len()
        invariant
            i <= events.len(),
            all == events.deep_view(),
            writes@.len() == i,
            forall|j: int| 0 <= j < i ==> skill_error(#[trigger] all[j]) is None,
            forall|j: int|
                0 <= j < i ==> (#[trigger] writes@[j]).deep_view() == skill_writes(all)[j],
        decreases events.len() - i,
    {
        let event: &SkillUsageEvent = &events[i];
        proof {
            if skill_error(all[i as int]) is Some {
                assert(some_skill_error(all));
            }
        }
        let source_start_offset: i64 = to_offset(event.source_start_offset)?;
        let source_end_offset: i64 = to_offset(event.source_end_offset)?;
        writes.push(
            SkillUsageEventWrite {
                occurred_at_ms: event.occurred_at_ms,
                thread_id: event.thread_id.clone(),
                root_session_id: event.root_session_id.clone(),
                model: event.model.clone(),
                skill_name: event.skill_name.clone(),
                source_file_id: event.source_file_id,
                file_generation: event.file_generation,
                source_start_offset,
                source_end_offset,
            },
        );
        i = i + 1;
    }
    assert(writes.deep_view() =~= skill_writes(all));
    Ok(writes)
}

pub open spec fn anomaly_byte(code: AnomalyCode) -> u8 {
    match code {
        AnomalyCode::UsageTimeMissing => 0,
        AnomalyCode::RequiredTotalInvalid => 1,
        AnomalyCode::LastUsageInvalid => 2,
        AnomalyCode::TotalChainReset => 3,
        AnomalyCode::CacheWriteChainDecrease => 4,
        AnomalyCode::TurnAccountedExceedsTotal => 6,
        AnomalyCode::TurnCacheWriteDeltaNegative => 7,
        AnomalyCode::TurnIdMismatch => 8,
        AnomalyCode::TurnReplaced => 9,
        AnomalyCode::ArithmeticOverflow => 10,
    }
}

fn anomaly_code(code: AnomalyCode) -> (r: u8)
    ensures
        r == anomaly_byte(code),
{
    match code {
        AnomalyCode::UsageTimeMissing => 0,
        AnomalyCode::RequiredTotalInvalid => 1,
        AnomalyCode::LastUsageInvalid => 2,
        AnomalyCode::TotalChainReset => 3,
        AnomalyCode::CacheWriteChainDecrease => 4,
        AnomalyCode::TurnAccountedExceedsTotal => 6,
        AnomalyCode::TurnCacheWriteDeltaNegative => 7,
        AnomalyCode::TurnIdMismatch => 8,
        AnomalyCode::TurnReplaced => 9,
        AnomalyCode::ArithmeticOverflow => 10,
    }
}

pub open spec fn stored_anomaly(code: AnomalyCode) -> UsageAnomalyKind {
    match code {
        AnomalyCode::UsageTimeMissing => UsageAnomalyKind::UsageTimeMissing,
        AnomalyCode::RequiredTotalInvalid => UsageAnomalyKind::RequiredTotalInvalid,
        AnomalyCode::LastUsageInvalid => UsageAnomalyKind::LastUsageInvalid,
        AnomalyCode::TotalChainReset => UsageAnomalyKind::TotalChainReset,
        AnomalyCode::CacheWriteChainDecrease => UsageAnomalyKind::CacheWriteChainDecrease,
        AnomalyCode::TurnAccountedExceedsTotal => UsageAnomalyKind::TurnAccountedExceedsTotal,
        AnomalyCode::TurnCacheWriteDeltaNegative => UsageAnomalyKind::TurnCacheWriteDeltaNegative,
        AnomalyCode::TurnIdMismatch => UsageAnomalyKind::TurnIdMismatch,
        AnomalyCode::TurnReplaced => UsageAnomalyKind::TurnReplaced,
        AnomalyCode::ArithmeticOverflow => UsageAnomalyKind::ArithmeticOverflow,
    }
}

/// The facts that identify an anomaly, as bytes.
pub open spec fn anomaly_bytes(
    anomaly: AnomalyFacts,
    source_file_id: i64,
    file_generation: i64,
    owner: Seq<char>,
) -> Seq<u8> {
    text_bytes("usage-anomaly-v1"@) + seq![anomaly_byte(anomaly.code)] + be_i64(source_file_id)
        + be_i64(file_generation) + optional_u64_bytes(anomaly.source_start_offset) + text_bytes(
        owner,
    ) + optional_text_bytes(anomaly.turn_key)
}

pub open spec fn anomaly_write_of(anomaly: AnomalyFacts, dto: CommitFacts) -> AnomalyWriteFacts {
    AnomalyWriteFacts {
        anomaly_id: hex_lower(
            blake3_digest(
                anomaly_bytes(
                    anomaly,
                    dto.source_file_id,
                    dto.expected_file_generation,
                    dto.owning_thread_id,
                ),
            ),
        ),
        detected_at_ms: dto.committed_at_ms,
        occurred_at_ms: None,
        kind: stored_anomaly(anomaly.code),
        severity_error: anomaly.code is RequiredTotalInvalid || anomaly.code is ArithmeticOverflow,
        source_start_offset: signed(anomaly.source_start_offset),
    }
}

fn anomaly_write(anomaly: &Anomaly, dto: &UsageSourceCommitDto) -> (r: Result<
    UsageAnomalyWrite,
    &'static str,
>)
    ensures
        error_of(r) == optional_offset_error(anomaly.source_start_offset),
        r matches Ok(write) ==> write.deep_view() == anomaly_write_of(
            anomaly.deep_view(),
            dto.deep_view(),
        ),
{
    let kind: UsageAnomalyKind = match anomaly.code {
        AnomalyCode::UsageTimeMissing => UsageAnomalyKind::UsageTimeMissing,
        AnomalyCode::RequiredTotalInvalid => UsageAnomalyKind::RequiredTotalInvalid,
        AnomalyCode::LastUsageInvalid => UsageAnomalyKind::LastUsageInvalid,
        AnomalyCode::TotalChainReset => UsageAnomalyKind::TotalChainReset,
        AnomalyCode::CacheWriteChainDecrease => UsageAnomalyKind::CacheWriteChainDecrease,
        AnomalyCode::TurnAccountedExceedsTotal => UsageAnomalyKind::TurnAccountedExceedsTotal,
        AnomalyCode::TurnCacheWriteDeltaNegative => UsageAnomalyKind::TurnCacheWriteDeltaNegative,
        AnomalyCode::TurnIdMismatch => UsageAnomalyKind::TurnIdMismatch,
        AnomalyCode::TurnReplaced => UsageAnomalyKind::TurnReplaced,
        AnomalyCode::ArithmeticOverflow => UsageAnomalyKind::ArithmeticOverflow,
    };
    let severity_error: bool = match anomaly.code {
        AnomalyCode::RequiredTotalInvalid | AnomalyCode::ArithmeticOverflow => true,
        _ => false,
    };
    let mut bytes: Vec<u8> = Vec::new();
    push_text(&mut bytes, "usage-anomaly-v1");
    push_byte(&mut bytes, anomaly_code(anomaly.code));
    push_i64(&mut bytes, dto.source_file_id);
    push_i64(&mut bytes, dto.expected_file_generation);
    push_optional_u64(&mut bytes, anomaly.source_start_offset);
    push_text(&mut bytes, dto.owning_thread_id.as_str());
    push_optional_text(&mut bytes, &anomaly.turn_key);
    assert(bytes@ =~= anomaly_bytes(
        anomaly.deep_view(),
        dto.source_file_id,
        dto.expected_file_generation,
        dto.owning_thread_id@,
    ));
    let source_start_offset: Option<i64> = to_optional_offset(anomaly.source_start_offset)?;
    Ok(
        UsageAnomalyWrite {
            anomaly_id: blake3_hex(bytes.as_slice()),
            detected_at_ms: dto.committed_at_ms,
            occurred_at_ms: None,
            kind,
            severity_error,
            source_start_offset,
        },
    )
}

pub open spec fn some_anomaly_error(anomalies: Seq<AnomalyFacts>) -> bool {
    exists|i: int|
        0 <= i < anomalies.len() && optional_offset_error(
            (#[trigger] anomalies[i]).source_start_offset,
        ) is Some
}

pub open spec fn anomaly_writes(dto: CommitFacts) -> Seq<AnomalyWriteFacts> {
    Seq::new(dto.anomalies.len(), |i: int| anomaly_write_of(dto.anomalies[i], dto))
}

fn write_anomalies(dto: &UsageSourceCommitDto) -> (r: Result<Vec<UsageAnomalyWrite>, &'static str>)
    ensures
        error_of(r) == offsets_error(some_anomaly_error(dto.deep_view().anomalies)),
        r matches Ok(writes) ==> writes.deep_view() == anomaly_writes(dto.deep_view()),
{
    let ghost facts = dto.deep_view();
    let mut writes: Vec<UsageAnomalyWrite> = Vec::new();
    let mut i: usize = 0;
    while i < dto.anomalies.len()
        invariant
            i <= dto.anomalies.len(),
            facts == dto.deep_view(),
            writes@.len() == i,
            forall|j: int|
                0 <= j < i ==> optional_offset_error(
                    (#[trigger] facts.anomalies[j]).source_start_offset,
                ) is None,
            forall|j: int|
                0 <= j < i ==> (#[trigger] writes@[j]).deep_view() == anomaly_writes(facts)[j],
        decreases dto.anomalies.len() - i,
    {
        proof {
            if optional_offset_error(facts.anomalies[i as int].source_start_offset) is Some {
                assert(some_anomaly_error(facts.anomalies));
            }
        }
        let write: UsageAnomalyWrite = anomaly_write(&dto.anomalies[i], dto)?;
        writes.push(write);
        i = i + 1;
    }
    assert(writes.deep_view() =~= anomaly_writes(facts));
    Ok(writes)
}

/// The turns that a commit writes: the closed ones, and the open one.
pub open spec fn turn_writes(dto: CommitFacts) -> Seq<TurnWriteFacts> {
    let closed = closed_writes(dto.closed_turns, dto.last_complete_offset, dto.committed_at_ms);
    match dto.open_turn {
        Some(turn) => closed.push(
            turn_write(turn, None, dto.last_complete_offset, dto.committed_at_ms),
        ),
        None => closed,
    }
}

pub open spec fn turns_error(dto: CommitFacts) -> Option<Seq<char>> {
    earlier(
        closed_error(dto.closed_turns, dto.last_complete_offset, dto.closed_turns.len()),
        match dto.open_turn {
            Some(turn) => turn_error(turn, None, dto.last_complete_offset),
            None => None,
        },
    )
}

fn write_turns(dto: &UsageSourceCommitDto) -> (r: Result<Vec<UsageTurnWrite>, &'static str>)
    ensures
        error_of(r) == turns_error(dto.deep_view()),
        r matches Ok(writes) ==> writes.deep_view() == turn_writes(dto.deep_view()),
{
    let ghost facts = dto.deep_view();
    let mut turns: Vec<UsageTurnWrite> = closed_turns(
        &dto.closed_turns,
        dto.last_complete_offset,
        dto.committed_at_ms,
    )?;
    let ghost closed = turns.deep_view();
    if let Some(turn) = &dto.open_turn {
        let write: UsageTurnWrite = write_turn(
            turn,
            None,
            dto.last_complete_offset,
            dto.committed_at_ms,
        )?;
        let ghost made = write.deep_view();
        turns.push(write);
        assert(turns.deep_view() =~= closed.push(made));
    }
    Ok(turns)
}

/// The error of the numbers of a commit itself.
pub open spec fn numbers_error(dto: CommitFacts) -> Option<Seq<char>> {
    earlier(
        offset_error(dto.expected_checkpoint.committed_offset),
        earlier(
            offset_error(dto.batch_start_offset),
            earlier(
                offset_error(dto.fixed_observed_raw_size),
                earlier(
                    offset_error(dto.last_complete_offset),
                    earlier(
                        offset_error(dto.source_bytes_consumed),
                        earlier(
                            count_error(dto.complete_line_count),
                            earlier(
                                count_error(dto.candidate_count),
                                earlier(
                                    offset_error(dto.replayed_prefix_bytes),
                                    earlier(
                                        count_error(dto.replayed_prefix_lines),
                                        optional_offset_error(dto.tail_start_offset),
                                    ),
                                ),
                            ),
                        ),
                    ),
                ),
            ),
        ),
    )
}

/// The first reason for which a commit cannot be written.
#[verifier::opaque]
pub open spec fn source_error(dto: CommitFacts, costs: Seq<CostEstimate>) -> Option<Seq<char>> {
    if dto.parser_version != USAGE_PARSER_VERSION {
        Some("unexpected usage parser version"@)
    } else {
        earlier(
            match dto.expected_state {
                Some(state) => state_error(state),
                None => None,
            },
            earlier(
                state_error(dto.updated_state),
                earlier(
                    turns_error(dto),
                    earlier(
                        cost_error(costs),
                        earlier(
                            offsets_error(some_occurrence_error(dto.occurrences)),
                            earlier(
                                offsets_error(some_skill_error(dto.skill_events)),
                                earlier(
                                    offsets_error(some_anomaly_error(dto.anomalies)),
                                    numbers_error(dto),
                                ),
                            ),
                        ),
                    ),
                ),
            ),
        )
    }
}

/// The commit of one source.
#[verifier::opaque]
pub open spec fn source_write(dto: CommitFacts, costs: Seq<CostEstimate>) -> SourceCommitFacts {
    SourceCommitFacts {
        source_file_id: dto.source_file_id,
        expected_file_generation: dto.expected_file_generation,
        expected_previous_thread_id: dto.expected_previous_thread_id,
        expected_checkpoint: ExpectationFacts {
            parser_version: dto.expected_checkpoint.parser_version,
            committed_offset: dto.expected_checkpoint.committed_offset as i64,
            guard_hash: dto.expected_checkpoint.guard_hash,
            processing_status: stored_checkpoint_status(dto.expected_checkpoint.status),
        },
        expected_checkpoint_missing: dto.expected_checkpoint_missing,
        expected_state: match dto.expected_state {
            Some(state) => Some(state_write(state)),
            None => None,
        },
        local_replay: dto.local_replay,
        batch_start_offset: dto.batch_start_offset as i64,
        fixed_observed_raw_size: dto.fixed_observed_raw_size as i64,
        last_complete_offset: dto.last_complete_offset as i64,
        source_bytes_consumed: dto.source_bytes_consumed as i64,
        complete_line_count: dto.complete_line_count as i64,
        candidate_count: dto.candidate_count as i64,
        replayed_prefix_bytes: dto.replayed_prefix_bytes as i64,
        replayed_prefix_lines: dto.replayed_prefix_lines as i64,
        fixed_view_exhausted: dto.fixed_view_exhausted,
        tail_status: stored_tail(dto.tail_status),
        tail_start_offset: signed(dto.tail_start_offset),
        events: event_writes(dto.events, costs, dto.committed_at_ms),
        occurrences: occurrence_writes(dto.occurrences),
        skill_events: skill_writes(dto.skill_events),
        turns: turn_writes(dto),
        anomalies: anomaly_writes(dto),
        updated_state: state_write(dto.updated_state),
        next_guard_hash: dto.next_guard_hash,
        committed_at_ms: dto.committed_at_ms,
    }
}

/// The commit of one source, given what each of its events costs.
pub fn source_commit(dto: UsageSourceCommitDto, costs: &Vec<CostEstimate>) -> (r: Result<
    UsageSourceCommit,
    &'static str,
>)
    requires
        costs@.len() == dto.events@.len(),
    ensures
        error_of(r) == source_error(dto.deep_view(), costs@),
        r matches Ok(commit) ==> commit.deep_view() == source_write(dto.deep_view(), costs@),
{
    let ghost facts = dto.deep_view();
    proof {
        reveal(source_error);
        reveal(source_write);
    }
    if dto.parser_version != USAGE_PARSER_VERSION {
        return Err("unexpected usage parser version");
    }
    let expected_state: Option<UsageSourceStateWrite> = match &dto.expected_state {
        Some(state) => Some(source_state(state)?),
        None => None,
    };
    let updated_state: UsageSourceStateWrite = source_state(&dto.updated_state)?;
    let turns: Vec<UsageTurnWrite> = write_turns(&dto)?;
    let events: Vec<UsageEventWrite> = write_events(&dto.events, costs, dto.committed_at_ms)?;
    let occurrences: Vec<UsageOccurrenceWrite> = write_occurrences(&dto.occurrences)?;
    let skill_events: Vec<SkillUsageEventWrite> = write_skills(&dto.skill_events)?;
    let anomalies: Vec<UsageAnomalyWrite> = write_anomalies(&dto)?;
    let committed_offset: i64 = to_offset(dto.expected_checkpoint.committed_offset)?;
    let batch_start_offset: i64 = to_offset(dto.batch_start_offset)?;
    let fixed_observed_raw_size: i64 = to_offset(dto.fixed_observed_raw_size)?;
    let last_complete_offset: i64 = to_offset(dto.last_complete_offset)?;
    let source_bytes_consumed: i64 = to_offset(dto.source_bytes_consumed)?;
    let complete_line_count: i64 = to_count(dto.complete_line_count)?;
    let candidate_count: i64 = to_count(dto.candidate_count)?;
    let replayed_prefix_bytes: i64 = to_offset(dto.replayed_prefix_bytes)?;
    let replayed_prefix_lines: i64 = to_count(dto.replayed_prefix_lines)?;
    let tail_start_offset: Option<i64> = to_optional_offset(dto.tail_start_offset)?;
    let commit: UsageSourceCommit = UsageSourceCommit {
        source_file_id: dto.source_file_id,
        expected_file_generation: dto.expected_file_generation,
        expected_previous_thread_id: dto.expected_previous_thread_id,
        expected_checkpoint: UsageCheckpointExpectation {
            parser_version: dto.expected_checkpoint.parser_version,
            committed_offset,
            guard_hash: dto.expected_checkpoint.guard_hash,
            processing_status: checkpoint_status(dto.expected_checkpoint.status),
        },
        expected_checkpoint_missing: dto.expected_checkpoint_missing,
        expected_state,
        local_replay: dto.local_replay,
        batch_start_offset,
        fixed_observed_raw_size,
        last_complete_offset,
        source_bytes_consumed,
        complete_line_count,
        candidate_count,
        replayed_prefix_bytes,
        replayed_prefix_lines,
        fixed_view_exhausted: dto.fixed_view_exhausted,
        tail_status: tail_status(dto.tail_status),
        tail_start_offset,
        events,
        occurrences,
        skill_events,
        turns,
        anomalies,
        updated_state,
        next_guard_hash: dto.next_guard_hash,
        committed_at_ms: dto.committed_at_ms,
    };
    assert(commit.deep_view() =~= source_write(facts, costs@));
    Ok(commit)
}

/// A commit with what its events cost.
pub struct PricedCommit {
    pub dto: UsageSourceCommitDto,
    pub costs: Vec<CostEstimate>,
}

pub struct PricedFacts {
    pub dto: CommitFacts,
    pub costs: Seq<CostEstimate>,
}

impl DeepView for PricedCommit {
    type V = PricedFacts;

    open spec fn deep_view(&self) -> PricedFacts {
        PricedFacts { dto: self.dto.deep_view(), costs: self.costs@ }
    }
}

/// Both commits are of the same thread, parser and ledger.
pub open spec fn same_group(a: CommitFacts, b: CommitFacts) -> bool {
    a.ledger_epoch == b.ledger_epoch && a.parser_version == b.parser_version && a.owning_thread_id
        == b.owning_thread_id && a.root_session_id == b.root_session_id
}

/// The first reason for which the first `n` commits are no batch.
pub open spec fn batch_error(commits: Seq<PricedFacts>, n: nat) -> Option<Seq<char>>
    decreases n,
{
    if n == 0 {
        None
    } else {
        let last = commits[n - 1];
        earlier(
            batch_error(commits, (n - 1) as nat),
            earlier(
                source_error(last.dto, last.costs),
                if same_group(last.dto, commits[0].dto) {
                    None
                } else {
                    Some("usage Thread group facts do not match"@)
                },
            ),
        )
    }
}

/// What a group of commits comes to.
pub open spec fn batch_of(commits: Seq<PricedFacts>) -> Result<BatchFacts, Seq<char>> {
    if commits.len() == 0 {
        Err("empty usage Thread group"@)
    } else {
        match batch_error(commits, commits.len()) {
            Some(error) => Err(error),
            None => Ok(
                BatchFacts {
                    ledger_epoch: commits[0].dto.ledger_epoch,
                    usage_parser_version: commits[0].dto.parser_version,
                    thread_id: commits[0].dto.owning_thread_id,
                    root_session_id: commits[0].dto.root_session_id,
                    sources: Seq::new(
                        commits.len(),
                        |i: int| source_write(commits[i].dto, commits[i].costs),
                    ),
                },
            ),
        }
    }
}

pub open spec fn batch_view(r: Result<UsageCommitBatch, &'static str>) -> Result<
    BatchFacts,
    Seq<char>,
> {
    match r {
        Ok(batch) => Ok(batch.deep_view()),
        Err(error) => Err(error@),
    }
}

proof fn lemma_batch_error_stays(commits: Seq<PricedFacts>, k: nat, n: nat)
    requires
        k <= n,
        batch_error(commits, k) is Some,
    ensures
        batch_error(commits, n) == batch_error(commits, k),
    decreases n,
{
    if k < n {
        lemma_batch_error_stays(commits, k, (n - 1) as nat);
    }
}

/// The batch of a group of commits, which have to be of the same thread.
pub fn build_batch(commits: Vec<PricedCommit>) -> (r: Result<UsageCommitBatch, &'static str>)
    requires
        forall|i: int|
            0 <= i < commits@.len() ==> (#[trigger] commits@[i]).costs@.len()
                == commits@[i].dto.events@.len(),
    ensures
        batch_view(r) == batch_of(commits.deep_view()),
{
    if commits.len() == 0 {
        return Err("empty usage Thread group");
    }
    let ghost all = commits.deep_view();
    let ledger_epoch: i64 = commits[0].dto.ledger_epoch;
    let usage_parser_version: i64 = commits[0].dto.parser_version;
    let thread_id: String = commits[0].dto.owning_thread_id.clone();
    let root_session_id: String = commits[0].dto.root_session_id.clone();
    let ghost n = commits@.len();
    let mut rest: Vec<PricedCommit> = reversed(commits);
    let mut sources: Vec<UsageSourceCommit> = Vec::new();
    while rest.len() > 0
        invariant
            all == commits.deep_view(),
            n == all.len(),
            n > 0,
            rest@.len() + sources@.len() == n,
            forall|k: int|
                0 <= k < rest@.len() ==> (#[trigger] rest@[k]).deep_view() == all[n - 1 - k],
            forall|k: int|
                0 <= k < rest@.len() ==> (#[trigger] rest@[k]).costs@.len()
                    == rest@[k].dto.events@.len(),
            ledger_epoch == all[0].dto.ledger_epoch,
            usage_parser_version == all[0].dto.parser_version,
            thread_id@ == all[0].dto.owning_thread_id,
            root_session_id@ == all[0].dto.root_session_id,
            batch_error(all, sources@.len()) is None,
            forall|j: int|
                0 <= j < sources@.len() ==> (#[trigger] sources@[j]).deep_view() == source_write(
                    all[j].dto,
                    all[j].costs,
                ),
        decreases rest.len(),
    {
        let ghost i = sources@.len();
        if let Some(commit) = rest.pop() {
            assert(commit.deep_view() == all[i as int]);
            let same: bool = commit.dto.ledger_epoch == ledger_epoch && commit.dto.parser_version
                == usage_parser_version && commit.dto.owning_thread_id == thread_id
                && commit.dto.root_session_id == root_session_id;
            match source_commit(commit.dto, &commit.costs) {
                Ok(source) => {
                    if !same {
                        proof {
                            lemma_batch_error_stays(all, (i + 1) as nat, n);
                        }
                        return Err("usage Thread group facts do not match");
                    }
                    sources.push(source);
                },
                Err(error) => {
                    proof {
                        lemma_batch_error_stays(all, (i + 1) as nat, n);
                    }
                    return Err(error);
                },
            }
        }
    }
    assert(sources.deep_view() =~= Seq::new(
        all.len(),
        |i: int| source_write(all[i].dto, all[i].costs),
    ));
    Ok(
        UsageCommitBatch { ledger_epoch, usage_parser_version, thread_id, root_session_id, sources },
    )
}

fn reversed(items: Vec<PricedCommit>) -> (r: Vec<PricedCommit>)
    ensures
        r@ == items@.reverse(),
{
    let ghost all = items@;
    let mut items: Vec<PricedCommit> = items;
    let mut r: Vec<PricedCommit> = Vec::new();
    while items.len() > 0
        invariant
            items@.len() + r@.len() == all.len(),
            items@ == all.take(items@.len() as int),
            forall|i: int| 0 <= i < r@.len() ==> #[trigger] r@[i] == all[all.len() - 1 - i],
        decreases items.len(),
    {
        let ghost n = items@.len();
        if let Some(item) = items.pop() {
            assert(item == all[n - 1]);
            r.push(item);
            assert(items@ =~= all.take(n - 1));
        }
    }
    assert(r@ =~= all.reverse());
    r
}

/// A batch holds commits of one thread, one ledger and the current parser alone.
pub proof fn law_batches_are_of_one_thread(commits: Seq<PricedFacts>, n: nat, i: int)
    requires
        n <= commits.len(),
        batch_error(commits, n) is None,
        0 <= i < n,
    ensures
        same_group(commits[i].dto, commits[0].dto),
        commits[i].dto.parser_version == USAGE_PARSER_VERSION,
        source_error(commits[i].dto, commits[i].costs) is None,
    decreases n,
{
    reveal(source_error);
    if i < n - 1 {
        law_batches_are_of_one_thread(commits, (n - 1) as nat, i);
    }
}

/// The turns of a commit that is written are at most one open turn after closed ones.
pub proof fn law_only_the_last_turn_is_open(dto: CommitFacts, i: int)
    requires
        0 <= i < turn_writes(dto).len(),
        turn_writes(dto)[i].status is Open,
    ensures
        i == turn_writes(dto).len() - 1,
        dto.open_turn is Some,
{
}

} // verus!
