//! What a chunk is read as, and what its commit says of where it comes from.
use vstd::prelude::*;

use super::usage_pipeline::{
    chunk_outcome, owned_record, record_body, DispositionFacts, FixedViewTail, Gathered, ItemFacts,
    PipelineError, PlanAction, ReadUsageItem, Run, SourceContinuationState, TailStatus,
    UsagePipelinePlan, UsageSourceCommitDto,
};
use super::usage_processor::{
    ContextFacts, GapKind, Ownership, TurnEndStatus, UsageRecord, UsageValue,
};
use crate::rollout_parser::Span;
use crate::usage::{LifecycleKind, UsageRawRecord};

verus! {

/// `r` is the usage record that a raw record of the owner stands for.
pub open spec fn stands_for(
    raw: UsageRawRecord,
    owner: Seq<char>,
    at: Span,
    r: Option<UsageRecord>,
) -> bool {
    r.deep_view() == match record_body(raw.deep_view(), at) {
        Some(body) => Some(owned_record(owner, body)),
        None => None,
    }
}

/// The record is the owner's.
pub open spec fn is_owned(ownership: Ownership, owner: Seq<char>) -> bool {
    ownership matches Ownership::Owning { thread_id } && thread_id@ == owner
}

/// A token count stands for its total and its last request, at its time and place; one without
/// counts stands for nothing. A total that is not valid stays invalid; so does a request, and
/// one that is left out stays missing.
pub proof fn law_token_counts_stand_for_their_counts(
    raw: UsageRawRecord,
    owner: Seq<char>,
    at: Span,
    r: Option<UsageRecord>,
)
    requires
        stands_for(raw, owner, at, r),
        raw is TokenCount,
    ensures
        raw->TokenCount_0.info is None ==> r is None,
        raw->TokenCount_0.info is Some ==> {
            let info = raw->TokenCount_0.info->0;
            &&& r is Some
            &&& r->0 is TokenCount
            &&& is_owned(r->0->TokenCount_ownership, owner)
            &&& r->0->TokenCount_timestamp_ms == raw->TokenCount_0.occurred_at_ms
            &&& r->0->TokenCount_start_offset == at.start
            &&& r->0->TokenCount_end_offset == at.end
            &&& info.current_total is Valid ==> r->0->TokenCount_total == UsageValue::Valid(
                info.current_total->Valid_0,
            )
            &&& info.current_total is Invalid ==> r->0->TokenCount_total == UsageValue::Invalid
            &&& info.last_usage is Valid ==> r->0->TokenCount_last == UsageValue::Valid(
                info.last_usage->Valid_0,
            )
            &&& info.last_usage is Invalid ==> r->0->TokenCount_last == UsageValue::Invalid
            &&& info.last_usage is Missing ==> r->0->TokenCount_last == UsageValue::Missing
        },
{
    if r is Some {
        assert(r.deep_view() == Some(r->0.deep_view()));
    }
}

/// A turn context stands for its model and its effort; what happened to a turn stands for the
/// start of the turn or for its end, and for how it ended.
pub proof fn law_turn_records_stand_for_their_turns(
    raw: UsageRawRecord,
    owner: Seq<char>,
    at: Span,
    r: Option<UsageRecord>,
)
    requires
        stands_for(raw, owner, at, r),
        raw is TurnContext || raw is Lifecycle,
    ensures
        r is Some,
        raw is TurnContext ==> {
            &&& r->0 is TurnContext
            &&& is_owned(r->0->TurnContext_ownership, owner)
            &&& r->0->TurnContext_model.deep_view() == raw->TurnContext_0.model.deep_view()
            &&& r->0->TurnContext_reasoning_effort.deep_view()
                == raw->TurnContext_0.reasoning_effort.deep_view()
        },
        raw is Lifecycle && raw->Lifecycle_0.kind == LifecycleKind::Started ==> {
            &&& r->0 is TurnStarted
            &&& is_owned(r->0->TurnStarted_ownership, owner)
            &&& r->0->TurnStarted_turn_id.deep_view() == raw->Lifecycle_0.turn_id.deep_view()
            &&& r->0->TurnStarted_timestamp_ms == raw->Lifecycle_0.occurred_at_ms
            &&& r->0->TurnStarted_start_offset == at.start
        },
        raw is Lifecycle && raw->Lifecycle_0.kind != LifecycleKind::Started ==> {
            &&& r->0 is TurnEnded
            &&& is_owned(r->0->TurnEnded_ownership, owner)
            &&& r->0->TurnEnded_turn_id.deep_view() == raw->Lifecycle_0.turn_id.deep_view()
            &&& r->0->TurnEnded_timestamp_ms == raw->Lifecycle_0.occurred_at_ms
            &&& r->0->TurnEnded_start_offset == at.start
            &&& r->0->TurnEnded_end_offset == at.end
            &&& r->0->TurnEnded_status == TurnEndStatus::Completed <==> raw->Lifecycle_0.kind
                == LifecycleKind::Completed
            &&& r->0->TurnEnded_status == TurnEndStatus::Aborted <==> raw->Lifecycle_0.kind
                == LifecycleKind::Aborted
            &&& r->0->TurnEnded_status == TurnEndStatus::Failed <==> raw->Lifecycle_0.kind
                == LifecycleKind::Failed
        },
{
    if r is Some {
        assert(r.deep_view() == Some(r->0.deep_view()));
    }
}

/// A line that cannot be read interrupts the chain, and so does one that is too long; a line that
/// says nothing about usage stands for nothing.
pub proof fn law_unreadable_lines_are_gaps(
    raw: UsageRawRecord,
    owner: Seq<char>,
    at: Span,
    r: Option<UsageRecord>,
)
    requires
        stands_for(raw, owner, at, r),
    ensures
        raw is Malformed ==> r is Some && r->0 is Gap && r->0->Gap_kind == GapKind::Malformed
            && is_owned(r->0->Gap_ownership, owner),
        raw is OversizedComplete ==> r is Some && r->0 is Gap && r->0->Gap_kind
            == GapKind::Oversized && is_owned(r->0->Gap_ownership, owner),
        raw is Ignored || raw is Unknown ==> r is None,
{
    if r is Some {
        assert(r.deep_view() == Some(r->0.deep_view()));
    }
}

/// A commit is of the ledger, the parser, the file and the owner of its plan; it expects what
/// its plan was made from; and the state that it leaves is of the same file and the same owner,
/// as large as the file was seen to be, and of the time of the commit.
pub proof fn law_commits_carry_their_plan(
    plan: UsagePipelinePlan,
    items: Seq<ItemFacts>,
    tail: FixedViewTail,
    guard: Option<Vec<u8>>,
    metadata_needs_rebuild: bool,
    at_ms: i64,
    commit: UsageSourceCommitDto,
)
    requires
        chunk_outcome(
            plan.deep_view(),
            items,
            tail,
            guard.deep_view(),
            metadata_needs_rebuild,
            at_ms,
        ) == Ok::<DispositionFacts, PipelineError>(DispositionFacts::Commit(commit.deep_view())),
    ensures
        commit.ledger_epoch == plan.ledger_epoch,
        commit.parser_version == plan.parser_version,
        commit.source_file_id == plan.source_file_id,
        commit.expected_file_generation == plan.file_generation,
        commit.expected_previous_thread_id.deep_view() == plan.owning_thread_id.deep_view(),
        plan.owning_thread_id is Some,
        commit.owning_thread_id@ == plan.owning_thread_id->0@,
        plan.root_session_id is Some,
        commit.root_session_id@ == plan.root_session_id->0@,
        commit.expected_checkpoint.parser_version == plan.checkpoint.parser_version,
        commit.expected_checkpoint.committed_offset == plan.checkpoint.committed_offset,
        commit.expected_checkpoint.guard_hash.deep_view()
            == plan.checkpoint.guard_hash.deep_view(),
        commit.expected_checkpoint.status == plan.checkpoint.status,
        commit.expected_checkpoint_missing <==> plan.checkpoint.committed_offset == 0
            && plan.checkpoint.guard_hash is None && plan.state is None && plan.action
            == PlanAction::ReadFrom,
        commit.expected_state is Some <==> plan.state is Some,
        commit.local_replay <==> plan.action == PlanAction::LocalReplay,
        commit.batch_start_offset == plan.start_offset,
        commit.fixed_observed_raw_size == plan.fixed_observed_size,
        commit.next_guard_hash.deep_view() == guard.deep_view(),
        commit.committed_at_ms == at_ms,
        commit.open_turn is Some <==> commit.updated_state.processor_state.open_turn is Some,
        commit.open_turn is Some ==> commit.open_turn->0.deep_view()
            == commit.updated_state.processor_state.open_turn->0.deep_view(),
        commit.updated_state.file_generation == plan.file_generation,
        commit.updated_state.device_id == plan.device_id,
        commit.updated_state.inode == plan.inode,
        commit.updated_state.parser_version == plan.parser_version,
        4 <= plan.parser_version <= 11,
        commit.updated_state.canonical_algorithm_version == if plan.parser_version <= 5 {
            4int
        } else {
            5int
        },
        commit.updated_state.resolved_through_offset == commit.last_complete_offset,
        commit.updated_state.observed_raw_size == plan.fixed_observed_size,
        commit.updated_state.raw_tail_status == commit.tail_status,
        commit.updated_state.raw_tail_start_offset == commit.tail_start_offset,
        commit.updated_state.owning_thread_id@ == commit.owning_thread_id@,
        commit.updated_state.root_session_id@ == commit.root_session_id@,
        commit.updated_state.updated_at_ms == at_ms,
        commit.fixed_view_exhausted <==> commit.tail_status != TailStatus::Unverified,
{
    let facts = commit.deep_view();
    assert(facts.expected_checkpoint == plan.deep_view().checkpoint);
}

/// A line of the owner notes each skill that it shows in use once, in order, with when that was,
/// whose it was, where the line stands and the model in use before it; a line of another owner
/// notes none.
pub proof fn law_skills_are_noted_where_they_show(
    gathered: Gathered,
    context: ContextFacts,
    item: ReadUsageItem,
    i: int,
)
    ensures
        ({
            let before = gathered.skills;
            let after = gathered.with_skills(context, item.deep_view()).skills;
            &&& !(item.classification.ownership is Owning) || item.skill_usage is None ==> after
                == before
            &&& item.classification.ownership is Owning && item.skill_usage is Some ==> {
                let shown = item.skill_usage->0;
                &&& after.len() == before.len() + shown.skill_names@.len()
                &&& 0 <= i < before.len() ==> after[i] == before[i]
                &&& 0 <= i < shown.skill_names@.len() ==> {
                    let noted = after[before.len() + i];
                    &&& noted.skill_name == shown.skill_names@[i]@
                    &&& noted.occurred_at_ms == shown.occurred_at_ms
                    &&& noted.thread_id == context.owning_thread_id
                    &&& noted.root_session_id == context.root_session_id
                    &&& noted.model == gathered.state.active_model
                    &&& noted.source_file_id == context.source_file_id
                    &&& noted.file_generation == context.file_generation
                    &&& noted.at.start == item.at.start
                    &&& noted.at.end == item.at.end
                }
            }
        }),
{
    let before = gathered.skills;
    let after = gathered.with_skills(context, item.deep_view()).skills;
    if item.classification.ownership is Owning && item.skill_usage is Some {
        let shown = item.skill_usage->0;
        assert(item.deep_view().skills == Some(shown.deep_view()));
        assert(shown.deep_view().skill_names.len() == shown.skill_names@.len());
        if 0 <= i < shown.skill_names@.len() {
            assert(shown.deep_view().skill_names[i] == shown.skill_names@[i]@);
        }
    } else {
        assert(after =~= before);
    }
}

/// A turn context sets where the model comes from, if it names one, and where the effort does;
/// one without effort clears that. No other record does either.
pub proof fn law_contexts_are_where_model_and_effort_come_from(
    gathered: Gathered,
    context: ContextFacts,
    item: ReadUsageItem,
)
    ensures
        ({
            let after = gathered.with_record(context, item.deep_view());
            &&& item.raw is TurnContext && item.raw->TurnContext_0.model is Some
                ==> after.model_offset == Some(item.at.start)
            &&& item.raw is TurnContext && item.raw->TurnContext_0.model is None
                ==> after.model_offset == gathered.model_offset
            &&& item.raw is TurnContext && item.raw->TurnContext_0.reasoning_effort is Some
                ==> after.effort_offset == Some(item.at.start)
            &&& item.raw is TurnContext && item.raw->TurnContext_0.reasoning_effort is None
                ==> after.effort_offset is None
            &&& !(item.raw is TurnContext) ==> after.model_offset == gathered.model_offset
                && after.effort_offset == gathered.effort_offset
            &&& after.skills == gathered.skills
        }),
{
}

/// What a resumed batch takes: where an item of the owner or, while an ancestor is replayed, of
/// the ancestor follows on and fits, the batch ends where the item ends and has one line more.
/// A line of unknown owner, or one that does not follow on, calls for a rebuild.
pub proof fn law_batches_move_on_line_by_line(
    run: Run,
    plan: UsagePipelinePlan,
    context: ContextFacts,
    item: ReadUsageItem,
)
    ensures
        ({
            let step = run.step(plan.deep_view(), context, item.deep_view());
            &&& item.at.start != run.last ==> step is Rebuild
            &&& item.at.end > plan.fixed_observed_size ==> step is Rebuild
            &&& item.at.start != item.classification.start_offset || item.at.end
                != item.classification.end_offset ==> step is Rebuild
            &&& step is More ==> {
                &&& step->More_0.last == item.at.end
                &&& run.lines < 0xffff_ffff_ffff_ffff ==> step->More_0.lines == run.lines + 1
                &&& item.classification.ownership is Owning ==> step->More_0.continuation
                    == SourceContinuationState::OwningLive
                &&& item.classification.ownership is ReplayedAncestor ==> step->More_0.continuation
                    == SourceContinuationState::ReplayedAncestor && step->More_0.gathered
                    == run.gathered
                &&& !(item.classification.ownership is UnknownOwnership)
                &&& !item.oversized && run.lines > 0 ==> run.lines < 4096 && item.at.end
                    - plan.start_offset <= 4 * 1024 * 1024
                &&& !item.oversized && run.lines == 0 ==> item.at.end - item.at.start <= 8 * 1024
                    * 1024
                &&& item.oversized ==> run.lines == 0
            }
        }),
{
}

} // verus!
