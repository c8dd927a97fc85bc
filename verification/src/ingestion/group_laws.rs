//! What a group of sources does next, event by event.
use vstd::prelude::*;

use super::source_batch::UsageReadStep;
use super::thread_group::{
    all_idle, control, control_from, counts_of, exclusive, readable, readable_from, some_blocked,
    GroupAction, GroupEvent, GroupPlan, GroupStage, StorageReply, ThreadGroup, UsageThreadOutcome,
};
use super::usage_pipeline::UsageSourceCommitDto;
use super::usage_plan::UsagePlanAction;

verus! {

/// An event takes the group on to `after`, and this is what to do next.
pub open spec fn moves(
    group: ThreadGroup,
    event: GroupEvent,
    after: ThreadGroup,
    action: GroupAction,
) -> bool {
    &&& group.deep_view().awaits(event.facts())
    &&& after.deep_view() == group.deep_view().after(event.facts()).group
    &&& action.facts() == group.deep_view().after(event.facts()).action
}

/// The group is done, and all is well.
pub open spec fn completes(action: GroupAction) -> bool {
    action matches GroupAction::Finish(outcome) && outcome is Completed
}

/// The group is done with this failure.
pub open spec fn fails_with(action: GroupAction, code: Seq<char>) -> bool {
    action matches GroupAction::Finish(outcome) && outcome matches
        UsageThreadOutcome::OrdinaryError(told) && told@ == code
}

/// The sources are built anew: within the build that is open, or in one that is opened.
pub open spec fn rebuilds(
    group: ThreadGroup,
    after: ThreadGroup,
    action: GroupAction,
    ids: Seq<i64>,
    retry_thread: bool,
) -> bool {
    &&& group.building ==> (action matches GroupAction::Replace(told) && told@ == ids)
    &&& !group.building ==> action is Begin
    &&& after.stage == (GroupStage::Rebuild { retry_thread, replacing: group.building })
}

/// A commit that storage took lets the group load again, unless it is cancelled. One that
/// contradicts what storage holds has its sources built anew, as far as discovery is complete;
/// any other is a failure.
pub proof fn law_commits_lead_on(
    group: ThreadGroup,
    event: GroupEvent,
    after: ThreadGroup,
    action: GroupAction,
)
    requires
        moves(group, event, after, action),
        event is Replied,
        group.stage is Commit,
    ensures
        event->Replied_reply is Done && !event->Replied_cancelled ==> action is Load && after.stage
            is Reload,
        event->Replied_reply is Done && event->Replied_cancelled ==> completes(action),
        event->Replied_reply is Conflict && group.discovery_complete ==> rebuilds(
            group,
            after,
            action,
            group.source_ids@,
            false,
        ),
        event->Replied_reply is Conflict && !group.discovery_complete || event->Replied_reply
            is Failed ==> fails_with(action, "USAGE_GROUP_COMMIT_FAILED"@),
{
}

/// A rebuild that storage took changes the plan, and tells whether the thread is tried again; one
/// that failed is a failure. What carries a source over, or completes it, lets the group load
/// again.
pub proof fn law_changes_of_plan_lead_on(
    group: ThreadGroup,
    event: GroupEvent,
    after: ThreadGroup,
    action: GroupAction,
)
    requires
        moves(group, event, after, action),
        event is Replied,
        !(group.stage is Commit),
    ensures
        group.stage is Rebuild && event->Replied_reply is Done ==> (action matches
            GroupAction::Finish(outcome) && outcome == (UsageThreadOutcome::GlobalPlanChanged {
            retry_thread: group.stage->Rebuild_retry_thread,
        })),
        group.stage is Rebuild && !(event->Replied_reply is Done) ==> fails_with(
            action,
            if group.stage->Rebuild_replacing {
                "USAGE_REBUILD_REPLACE_FAILED"@
            } else {
                "USAGE_REBUILD_BEGIN_FAILED"@
            },
        ),
        !(group.stage is Rebuild) && event->Replied_reply is Done && !event->Replied_cancelled
            ==> action is Load && after.stage is Reload,
        !(group.stage is Rebuild) && event->Replied_reply is Done && event->Replied_cancelled
            ==> completes(action),
        group.stage is BeginCarry && !(event->Replied_reply is Done) ==> fails_with(
            action,
            "USAGE_CARRY_BEGIN_FAILED"@,
        ),
        group.stage is ResumeCarry && event->Replied_reply is Conflict ==> fails_with(
            action,
            "USAGE_CARRY_CONFLICT"@,
        ),
        group.stage is ResumeCarry && event->Replied_reply is Failed ==> fails_with(
            action,
            "USAGE_CARRY_RESUME_FAILED"@,
        ),
        group.stage is CompleteOnly && !(event->Replied_reply is Done) ==> fails_with(
            action,
            "USAGE_COMPLETE_ONLY_FAILED"@,
        ),
{
}

/// What a source that was read leads to: data that contradicts the metadata while it is built
/// anew is the session's fault, and else has the source built anew and the thread tried again.
/// A source that needs a rebuild while it is built does not have its thread tried again.
pub proof fn law_reads_lead_on(
    group: ThreadGroup,
    event: GroupEvent,
    after: ThreadGroup,
    action: GroupAction,
)
    requires
        moves(group, event, after, action),
        event is SourceRead,
    ensures
        ({
            let plan = group.plans@[group.stage->Read_0 as int];
            let ids = seq![plan.source_file_id];
            let step = event->SourceRead_0;
            &&& step is Err ==> fails_with(action, step->Err_0@)
            &&& step is Ok && step->Ok_0 is AwaitingOwnership ==> completes(action)
            &&& step is Ok && step->Ok_0 is InvalidSessionData && group.discovery_complete
                && plan.action == UsagePlanAction::BuildFrom ==> (action matches
                GroupAction::Finish(outcome) && outcome matches
                UsageThreadOutcome::SessionDataError(code) && code@
                == "USAGE_SESSION_DATA_INVALID"@)
            &&& step is Ok && step->Ok_0 is InvalidSessionData && group.discovery_complete
                && plan.action != UsagePlanAction::BuildFrom ==> rebuilds(
                group,
                after,
                action,
                ids,
                true,
            )
            &&& step is Ok && step->Ok_0 is NeedsRebuild && group.discovery_complete ==> rebuilds(
                group,
                after,
                action,
                ids,
                plan.action != UsagePlanAction::BuildFrom,
            )
            &&& step is Ok && step->Ok_0 is NeedsRebuildStop && group.discovery_complete
                ==> rebuilds(group, after, action, ids, false)
            &&& step is Ok && !(step->Ok_0 is Prepared) && !(step->Ok_0 is AwaitingOwnership)
                && !group.discovery_complete ==> completes(action)
        }),
{
}

/// A commit that was prepared joins those before it, with its source and its numbers, unless it
/// does not fit; then those before it are committed without it, and where there are none the
/// group fails.
pub proof fn law_prepared_commits_join_or_wait(
    group: ThreadGroup,
    event: GroupEvent,
    after: ThreadGroup,
    action: GroupAction,
)
    requires
        moves(group, event, after, action),
        event is SourceRead,
        event->SourceRead_0 is Ok,
        event->SourceRead_0->Ok_0 is Prepared,
    ensures
        ({
            let dto = event->SourceRead_0->Ok_0->Prepared_dto;
            let held = group.prepared.deep_view();
            let joined = held.push(dto.deep_view());
            &&& (action matches GroupAction::Commit(dtos) && (dtos.deep_view() == held && held.len()
                > 0 && after.source_ids@ == group.source_ids@ || dtos.deep_view() == joined
                && after.source_ids@ == group.source_ids@.push(dto.source_file_id))
                && after.prepared@.len() == 0) || (action is Read && after.prepared.deep_view()
                == joined && after.source_ids@ == group.source_ids@.push(dto.source_file_id)) || (
            held.len() == 0 && fails_with(action, "USAGE_GROUP_BATCH_BUDGET_INVALID"@))
            &&& exclusive(dto.deep_view()) && held.len() == 0 ==> (action matches
                GroupAction::Commit(dtos) && dtos.deep_view() == joined)
            &&& exclusive(dto.deep_view()) && held.len() > 0 ==> (action matches
                GroupAction::Commit(dtos) && dtos.deep_view() == held)
        }),
{
    let held = group.prepared.deep_view();
    assert(held.len() == group.prepared@.len());
    assert(after.deep_view().prepared.len() == after.prepared@.len());
    if action is Commit {
        assert(action->Commit_0.deep_view().len() == action->Commit_0@.len());
    }
}

/// What a commit adds to a batch: what it consumed beyond the replayed prefix.
pub proof fn law_replayed_prefixes_do_not_count(dto: UsageSourceCommitDto)
    requires
        dto.replayed_prefix_bytes <= dto.source_bytes_consumed,
        dto.replayed_prefix_lines <= dto.complete_line_count,
    ensures
        counts_of(dto.deep_view()).bytes == dto.source_bytes_consumed - dto.replayed_prefix_bytes,
        counts_of(dto.deep_view()).lines == dto.complete_line_count - dto.replayed_prefix_lines,
        counts_of(dto.deep_view()).candidates == dto.candidate_count,
        exclusive(dto.deep_view()) <==> dto.complete_line_count - dto.replayed_prefix_lines == 1
            && dto.source_bytes_consumed - dto.replayed_prefix_bytes > 4 * 1024 * 1024,
{
}

proof fn lemma_control(plans: Seq<GroupPlan>, i: int, k: int)
    requires
        0 <= i <= k < plans.len(),
        control(plans[k]),
        forall|j: int| i <= j < k ==> !control(#[trigger] plans[j]),
    ensures
        control_from(plans, i) == Some(k),
    decreases k - i,
{
    if i < k {
        assert(!control(plans[i]));
        lemma_control(plans, i + 1, k);
    }
}

proof fn lemma_no_control(plans: Seq<GroupPlan>, i: int)
    requires
        0 <= i,
        forall|j: int| i <= j < plans.len() ==> !control(#[trigger] plans[j]),
    ensures
        control_from(plans, i) is None,
    decreases plans.len() - i,
{
    if i < plans.len() {
        assert(!control(plans[i]));
        lemma_no_control(plans, i + 1);
    }
}

proof fn lemma_readable(plans: Seq<GroupPlan>, i: int, k: int)
    requires
        0 <= i <= k < plans.len(),
        readable(plans[k]),
        forall|j: int| i <= j < k ==> !readable(#[trigger] plans[j]),
    ensures
        readable_from(plans, i) == Some(k),
    decreases k - i,
{
    if i < k {
        assert(!readable(plans[i]));
        lemma_readable(plans, i + 1, k);
    }
}

/// The plan changes what storage holds before anything is read.
pub open spec fn comes_first(plan: GroupPlan) -> bool {
    ||| plan.action == UsagePlanAction::BeginCarry
    ||| plan.action == UsagePlanAction::ResumeCarry
    ||| plan.action == UsagePlanAction::CompleteOnly
    ||| plan.action == UsagePlanAction::RebuildRequired
}

/// The plan has a file read that is there.
pub open spec fn is_to_be_read(plan: GroupPlan) -> bool {
    plan.present && (plan.action == UsagePlanAction::ReadFrom || plan.action
        == UsagePlanAction::BuildFrom || plan.action == UsagePlanAction::LocalReplay || plan.action
        == UsagePlanAction::ResumeOwningLive || plan.action == UsagePlanAction::VerifyRawTail)
}

/// Of what is loaded, the first plan that changes what storage holds is carried out, and where
/// there is none the first file is read that is to be read.
pub proof fn law_loaded_plans_are_carried_out_in_order(
    group: ThreadGroup,
    event: GroupEvent,
    after: ThreadGroup,
    action: GroupAction,
    k: int,
)
    requires
        moves(group, event, after, action),
        event is Loaded,
        !event->Loaded_cancelled,
        0 <= k < event->Loaded_plans@.len(),
    ensures
        ({
            let plans = event->Loaded_plans@;
            let plan = plans[k];
            &&& comes_first(plan) && (forall|j: int|
                0 <= j < k ==> !comes_first(#[trigger] plans[j])) ==> {
                &&& plan.action == UsagePlanAction::BeginCarry && group.discovery_complete
                    ==> action == GroupAction::BeginCarry(plan.source_file_id)
                &&& plan.action == UsagePlanAction::BeginCarry && !group.discovery_complete
                    ==> completes(action)
                &&& plan.action == UsagePlanAction::ResumeCarry && plan.present ==> action
                    == GroupAction::VerifyCarry(plan.source_file_id)
                &&& plan.action == UsagePlanAction::ResumeCarry && !plan.present ==> action
                    == GroupAction::ResumeCarry(plan.source_file_id)
                &&& plan.action == UsagePlanAction::CompleteOnly ==> action
                    == GroupAction::CompleteOnly(plan.source_file_id)
                &&& plan.action == UsagePlanAction::RebuildRequired && group.discovery_complete
                    && !event->Loaded_building ==> action is Begin
                &&& plan.action == UsagePlanAction::RebuildRequired && group.discovery_complete
                    && event->Loaded_building ==> (action matches GroupAction::Replace(ids)
                    && ids@ == seq![plan.source_file_id])
            }
            &&& is_to_be_read(plan) && k <= usize::MAX && (forall|j: int|
                0 <= j < plans.len() ==> !comes_first(#[trigger] plans[j])) && (forall|j: int|
                0 <= j < k ==> !is_to_be_read(#[trigger] plans[j])) ==> action
                == GroupAction::Read(k as usize)
        }),
{
    let plans = event->Loaded_plans@;
    let plan = plans[k];
    if comes_first(plan) && (forall|j: int| 0 <= j < k ==> !comes_first(#[trigger] plans[j])) {
        assert forall|j: int| 0 <= j < k implies !control(#[trigger] plans[j]) by {
            assert(!comes_first(plans[j]));
        }
        lemma_control(plans, 0, k);
        assert(!super::thread_group::idle(plans[k]));
        assert(!all_idle(plans));
    }
    if is_to_be_read(plan) && (forall|j: int|
        0 <= j < plans.len() ==> !comes_first(#[trigger] plans[j])) && (forall|j: int|
        0 <= j < k ==> !is_to_be_read(#[trigger] plans[j])) {
        assert forall|j: int| 0 <= j < plans.len() implies !control(#[trigger] plans[j]) by {
            assert(!comes_first(plans[j]));
        }
        assert forall|j: int| 0 <= j < k implies !readable(#[trigger] plans[j]) by {
            assert(!is_to_be_read(plans[j]));
        }
        lemma_no_control(plans, 0);
        lemma_readable(plans, 0, k);
        assert(!super::thread_group::idle(plans[k]));
        assert(!all_idle(plans));
    }
}

/// A group with nothing to do is complete; one whose sources are blocked is the session's fault.
/// One that cannot be loaded fails, and where it was loaded before it fails for good.
pub proof fn law_idle_groups_end(
    group: ThreadGroup,
    event: GroupEvent,
    after: ThreadGroup,
    action: GroupAction,
)
    requires
        moves(group, event, after, action),
        event is Loaded || event is LoadFailed,
    ensures
        event is LoadFailed && group.stage is FirstLoad ==> fails_with(
            action,
            "USAGE_PLAN_RELOAD_FAILED"@,
        ),
        event is LoadFailed && group.stage is Reload ==> (action matches GroupAction::Finish(
            outcome,
        ) && outcome matches UsageThreadOutcome::FatalReloadError(code) && code@
            == "USAGE_PLAN_RELOAD_FAILED"@),
        event is Loaded && (event->Loaded_cancelled || event->Loaded_plans@.len() == 0)
            ==> completes(action),
        event is Loaded && (forall|i: int|
            0 <= i < event->Loaded_plans@.len() ==> (#[trigger] event->Loaded_plans@[i]).action
                == UsagePlanAction::Skip) ==> completes(action),
        event is Loaded && !event->Loaded_cancelled && event->Loaded_plans@.len() > 0 && (forall|
            i: int,
        |
            0 <= i < event->Loaded_plans@.len() ==> (#[trigger] event->Loaded_plans@[i]).action
                == UsagePlanAction::BlockedRelationship) ==> (action matches GroupAction::Finish(
            outcome,
        ) && outcome matches UsageThreadOutcome::SessionDataError(code) && code@
            == "USAGE_SESSION_RELATIONSHIP_INVALID"@),
{
    if event is Loaded {
        let plans = event->Loaded_plans@;
        if forall|i: int|
            0 <= i < plans.len() ==> (#[trigger] plans[i]).action == UsagePlanAction::Skip {
            assert(all_idle(plans));
            assert(!some_blocked(plans));
        }
        if plans.len() > 0 && (forall|i: int|
            0 <= i < plans.len() ==> (#[trigger] plans[i]).action
                == UsagePlanAction::BlockedRelationship) {
            assert(all_idle(plans));
            assert(plans[0].action is BlockedRelationship);
            assert(some_blocked(plans));
        }
    }
}

/// A carried source whose prefix was kept goes on; one whose prefix was not is built anew, as far
/// as discovery is complete.
pub proof fn law_kept_prefixes_are_carried_on(
    group: ThreadGroup,
    event: GroupEvent,
    after: ThreadGroup,
    action: GroupAction,
)
    requires
        moves(group, event, after, action),
        event is Verified,
    ensures
        ({
            let id = group.stage->VerifyCarry_0;
            let kept = event->Verified_0;
            &&& kept is Err ==> fails_with(action, kept->Err_0@)
            &&& kept == Ok::<bool, &'static str>(true) ==> action == GroupAction::ResumeCarry(id)
            &&& kept == Ok::<bool, &'static str>(false) && group.discovery_complete ==> (
            action matches GroupAction::Replace(ids) && ids@ == seq![id]) && after.stage == (
            GroupStage::Rebuild { retry_thread: true, replacing: true })
            &&& kept == Ok::<bool, &'static str>(false) && !group.discovery_complete ==> completes(
                action,
            )
        }),
{
}

} // verus!
