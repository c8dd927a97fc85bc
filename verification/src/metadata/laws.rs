//! What holds of every resolution.
use vstd::prelude::*;

use crate::order::{ascending, lemma_sorted_texts, lemma_stably_sorted_keeps, text_rank};
use crate::platform::Platform;
use crate::rollout::ThreadFacts;
use crate::session_index::NamedThread;
use crate::shared::{AgentRole, Patch};
use crate::state_index::IndexedThread;
use super::fields::{state_name, thread_title};
use super::input::{Finding, InputFacts};
use super::relationships::{
    ancestor, chosen_parent, differs, on_cycle, parent_of, relation, role_of, root_from, root_of,
    Choice, RootState, MAX_PARENT_DEPTH,
};
use super::{
    affected, blocked, changed, decision, finding_rank, input_findings, mentioned, patch_of,
    patches_to, resolution, sorted_findings, standing_changes, thread_patch, time_finding, view_of,
    ThreadView,
};

verus! {

/// Every thread that some source mentions is resolved, once, and no other; they come in
/// order.
pub proof fn law_mentioned_threads_are_affected(input: InputFacts, id: Seq<char>)
    ensures
        ascending(resolution(input).affected),
        resolution(input).affected.contains(id) <==> mentioned(input).contains(id),
{
    lemma_sorted_texts(mentioned(input));
}

proof fn lemma_patches(input: InputFacts, ids: Seq<Seq<char>>, n: nat)
    requires
        n <= ids.len(),
        ascending(ids),
    ensures
        ({
            let patches = patches_to(input, ids, n);
            &&& forall|i: int|
                0 <= i < patches.len() ==> exists|k: int|
                    0 <= k < n && (#[trigger] patches[i]).thread_id == #[trigger] ids[k] && !blocked(
                        input,
                        ids[k],
                    ) && thread_patch(input, ids, ids[k]) == Some(patches[i])
            &&& forall|i: int, j: int|
                0 <= i < j < patches.len() ==> text_rank(
                    (#[trigger] patches[i]).thread_id,
                    (#[trigger] patches[j]).thread_id,
                ) is Before
        }),
    decreases n,
{
    if n > 0 {
        let m = (n - 1) as nat;
        lemma_patches(input, ids, m);
        let before = patches_to(input, ids, m);
        let patches = patches_to(input, ids, n);
        let id = ids[n - 1];
        if !blocked(input, id) && thread_patch(input, ids, id) is Some {
            assert(patches == before.push(thread_patch(input, ids, id)->0));
            assert forall|i: int| 0 <= i < patches.len() implies exists|k: int|
                0 <= k < n && (#[trigger] patches[i]).thread_id == #[trigger] ids[k] && !blocked(
                    input,
                    ids[k],
                ) && thread_patch(input, ids, ids[k]) == Some(patches[i]) by {
                if i < before.len() {
                    assert(patches[i] == before[i]);
                    let k = choose|k: int|
                        0 <= k < m && before[i].thread_id == #[trigger] ids[k] && !blocked(
                            input,
                            ids[k],
                        ) && thread_patch(input, ids, ids[k]) == Some(before[i]);
                    assert(patches[i].thread_id == ids[k]);
                } else {
                    assert(patches[i].thread_id == ids[n - 1]);
                }
            }
            assert forall|i: int, j: int| 0 <= i < j < patches.len() implies text_rank(
                (#[trigger] patches[i]).thread_id,
                (#[trigger] patches[j]).thread_id,
            ) is Before by {
                assert(patches[i] == before[i]);
                if j < before.len() {
                    assert(patches[j] == before[j]);
                } else {
                    let k = choose|k: int|
                        0 <= k < m && before[i].thread_id == #[trigger] ids[k] && !blocked(
                            input,
                            ids[k],
                        ) && thread_patch(input, ids, ids[k]) == Some(before[i]);
                    assert(text_rank(ids[k], ids[n - 1]) is Before);
                }
            }
        } else {
            assert forall|i: int| 0 <= i < patches.len() implies exists|k: int|
                0 <= k < n && (#[trigger] patches[i]).thread_id == #[trigger] ids[k] && !blocked(
                    input,
                    ids[k],
                ) && thread_patch(input, ids, ids[k]) == Some(patches[i]) by {
                let k = choose|k: int|
                    0 <= k < m && before[i].thread_id == #[trigger] ids[k] && !blocked(
                        input,
                        ids[k],
                    ) && thread_patch(input, ids, ids[k]) == Some(before[i]);
                assert(patches[i].thread_id == ids[k]);
            }
        }
    }
}

/// The patches come in the order of their threads, one to a thread at most.
pub proof fn law_patches_are_in_order(input: InputFacts, i: int, j: int)
    requires
        0 <= i < j < resolution(input).patches.len(),
    ensures
        text_rank(
            resolution(input).patches[i].thread_id,
            resolution(input).patches[j].thread_id,
        ) is Before,
{
    lemma_sorted_texts(mentioned(input));
    if input.resolved_at_ms >= 0 {
        lemma_patches(input, affected(input), affected(input).len());
    }
}

/// Each patch is that of a mentioned thread that is not left alone.
pub proof fn law_patches_are_of_open_threads(input: InputFacts, i: int)
    requires
        0 <= i < resolution(input).patches.len(),
    ensures
        mentioned(input).contains(resolution(input).patches[i].thread_id),
        !blocked(input, resolution(input).patches[i].thread_id),
        thread_patch(input, affected(input), resolution(input).patches[i].thread_id) == Some(
            resolution(input).patches[i],
        ),
{
    let ids = affected(input);
    lemma_sorted_texts(mentioned(input));
    if input.resolved_at_ms >= 0 {
        lemma_patches(input, ids, ids.len());
        let patch = resolution(input).patches[i];
        let k = choose|k: int|
            0 <= k < ids.len() && patch.thread_id == #[trigger] ids[k] && !blocked(input, ids[k])
                && thread_patch(input, ids, ids[k]) == Some(patch);
        assert(ids.contains(patch.thread_id));
    }
}

/// A time before the epoch resolves nothing, and is remarked on.
pub proof fn law_invalid_time_resolves_nothing(input: InputFacts)
    requires
        input.resolved_at_ms < 0,
    ensures
        resolution(input).patches.len() == 0,
        resolution(input).diagnostics.contains(time_finding()),
{
    let first = input_findings(input, affected(input));
    let all = first.push(time_finding());
    lemma_stably_sorted_keeps(all, |a: Finding, b: Finding| finding_rank(a, b));
    assert(all[first.len() as int] == time_finding());
    assert(all.contains(time_finding()));
}

/// Sorting the remarks neither loses nor adds one.
pub proof fn law_no_remark_is_lost(findings: Seq<Finding>, made: Finding)
    ensures
        sorted_findings(findings).len() == findings.len(),
        sorted_findings(findings).contains(made) <==> findings.contains(made),
{
    lemma_stably_sorted_keeps(findings, |a: Finding, b: Finding| finding_rank(a, b));
}

/// A thread in conflict, or on a cycle of parents, changes neither parent, role nor root.
pub proof fn law_conflicts_keep_the_standing(input: InputFacts, ids: Seq<Seq<char>>, id: Seq<char>)
    requires
        relation(input, id).conflict || on_cycle(input, ids, id),
    ensures
        standing_changes(id, view_of(input, ids, id)) == (
            Patch::<Seq<char>>::Keep,
            Patch::<AgentRole>::Keep,
            Patch::<Seq<char>>::Keep,
        ),
{
}

proof fn lemma_one_up(input: InputFacts, ids: Seq<Seq<char>>, id: Seq<char>, parent: Seq<char>, k: nat)
    requires
        parent_of(input, ids, id) == Some(parent),
    ensures
        ancestor(input, ids, id, k + 1) == ancestor(input, ids, parent, k),
    decreases k,
{
    if k == 0 {
        assert(ancestor(input, ids, id, 0) == Some(id));
        assert(ancestor(input, ids, id, 1) == parent_of(input, ids, id));
    } else {
        lemma_one_up(input, ids, id, parent, (k - 1) as nat);
    }
}

/// The parent of a thread on a cycle is on it as well.
pub proof fn law_cycles_are_closed(input: InputFacts, ids: Seq<Seq<char>>, id: Seq<char>)
    requires
        on_cycle(input, ids, id),
    ensures
        parent_of(input, ids, id) is Some,
        on_cycle(input, ids, parent_of(input, ids, id)->0),
{
    let k = choose|k: nat|
        1 <= k <= MAX_PARENT_DEPTH && #[trigger] ancestor(input, ids, id, k) == Some(id);
    if parent_of(input, ids, id) is None {
        lemma_nothing_above(input, ids, id, k);
    }
    let parent = parent_of(input, ids, id)->0;
    lemma_one_up(input, ids, id, parent, k);
    assert(ancestor(input, ids, id, k + 1) == parent_of(input, ids, id));
    assert(ancestor(input, ids, parent, k) == Some(parent));
}

proof fn lemma_nothing_above(input: InputFacts, ids: Seq<Seq<char>>, id: Seq<char>, k: nat)
    requires
        parent_of(input, ids, id) is None,
        k >= 1,
    ensures
        ancestor(input, ids, id, k) is None,
    decreases k,
{
    if k > 1 {
        lemma_nothing_above(input, ids, id, (k - 1) as nat);
    } else {
        assert(ancestor(input, ids, id, 0) == Some(id));
    }
}

/// A main thread is the root of its own session.
pub proof fn law_main_is_its_own_root(input: InputFacts, ids: Seq<Seq<char>>, id: Seq<char>)
    requires
        role_of(input, ids, id) == Some(AgentRole::Main),
    ensures
        root_of(input, ids, id) == (Some(id), RootState::Resolved),
{
}

proof fn lemma_root_is_main(input: InputFacts, ids: Seq<Seq<char>>, current: Seq<char>, steps: nat)
    ensures
        ({
            let (root, state) = root_from(input, ids, current, steps);
            &&& root is Some <==> state is Resolved
            &&& root is Some ==> role_of(input, ids, root->0) == Some(AgentRole::Main)
        }),
    decreases steps,
{
    if steps > 0 && !on_cycle(input, ids, current) && role_of(input, ids, current) == Some(
        AgentRole::Subagent,
    ) {
        if let Choice::Confirmed(parent) = relation(input, current).parent {
            lemma_root_is_main(input, ids, parent, (steps - 1) as nat);
        }
    }
}

/// A root is found exactly when it is resolved, and it is a main thread.
pub proof fn law_roots_are_main(input: InputFacts, ids: Seq<Seq<char>>, id: Seq<char>)
    ensures
        root_of(input, ids, id).0 is Some <==> root_of(input, ids, id).1 is Resolved,
        root_of(input, ids, id).0 matches Some(root) ==> role_of(input, ids, root) == Some(
            AgentRole::Main,
        ),
{
    lemma_root_is_main(input, ids, id, (MAX_PARENT_DEPTH + 1) as nat);
}

/// A subagent whose parent has a root has the same root, as far as the chain of parents may
/// reach.
pub proof fn law_child_shares_the_root(
    input: InputFacts,
    ids: Seq<Seq<char>>,
    child: Seq<char>,
    parent: Seq<char>,
    steps: nat,
)
    requires
        steps > 0,
        role_of(input, ids, child) == Some(AgentRole::Subagent),
        relation(input, child).parent == Choice::Confirmed(parent),
        super::relationships::trusted(input, parent),
    ensures
        root_from(input, ids, child, steps) == root_from(
            input,
            ids,
            parent,
            (steps - 1) as nat,
        ),
{
}

/// A parent that the state index gives is the parent, whatever the rollouts say; that they
/// say otherwise is a conflict.
pub proof fn law_state_index_decides_the_parent(
    edges: Seq<Seq<char>>,
    direct: Seq<Seq<char>>,
    nested: Seq<Seq<char>>,
    forked: Seq<Seq<char>>,
    parent: Seq<char>,
)
    requires
        edges.len() > 0,
        !differs(edges, parent),
    ensures
        chosen_parent(edges, direct, nested, forked).0 == Choice::Confirmed(parent),
        chosen_parent(edges, direct, nested, forked).1 <==> differs(direct, parent) || differs(
            nested,
            parent,
        ) || differs(forked, parent),
{
    assert(edges[0] == parent);
}

/// Only a subagent takes a title from an agent path.
pub proof fn law_only_subagents_are_titled_by_path(
    platform: Platform,
    state_complete: bool,
    role: Option<AgentRole>,
    state: Option<IndexedThread>,
    session: Option<NamedThread>,
    rollouts: Seq<ThreadFacts>,
    titled: bool,
)
    requires
        role != Some(AgentRole::Subagent),
        !state_complete || (state_name(state) is None && session is None),
    ensures
        thread_title(platform, state_complete, role, state, session, rollouts, titled) is None,
{
}

/// While the state index is not complete, nothing that it decides is changed.
pub proof fn law_incomplete_index_changes_nothing(
    input: InputFacts,
    id: Seq<char>,
    v: ThreadView,
)
    requires
        !input.state_complete,
    ensures
        ({
            let patch = patch_of(id, input.resolved_at_ms, v, decision(input, id, v));
            &&& patch.metadata_model is Keep
            &&& patch.created_at_ms is Keep
            &&& patch.updated_at_ms is Keep
            &&& patch.archived is Keep
            &&& patch.current_rollout_path is Keep
            &&& !patch.full_resolution
        }),
{
    reveal(decision);
}

/// What a row holds once a change is made.
pub open spec fn applied<T>(existing: Option<T>, patch: Patch<T>) -> Option<T> {
    match patch {
        Patch::Keep => existing,
        Patch::Assign(value) => Some(value),
        Patch::Clear => None,
    }
}

/// A change that was made is not asked for again, and nothing is ever changed to what is not
/// known.
pub proof fn law_changes_settle<T>(existing: Option<T>, desired: Option<T>)
    ensures
        changed(applied(existing, changed(existing, desired)), desired) is Keep,
        applied(existing, changed(existing, desired)) == if desired is Some {
            desired
        } else {
            existing
        },
{
}

} // verus!
