//! What the rows of threads hold once a resolution is applied.
use vstd::prelude::*;

use crate::domain::{FileStatus, SourceArea};
use crate::order::{lemma_sorted_texts, lemma_stably_sorted_keeps};
use crate::platform::{is_absolute, Platform};
use crate::rollout::{OwnershipConfidence, ParentHintProvenance, ThreadFacts};
use crate::session_index::{name_of, NamedThread};
use crate::shared::{
    patch_fault, AgentRole, Patch, PatchFacts, ProjectKind, ResolvedThreadPatch,
};
use crate::state_index::{Edge, IndexedThread, StateThreadFact};
use crate::text::{blank, has_control};
use super::fields::{cwd_of, last_component, physical_source, project_name, SourceFacts};
use super::input::{ExistingFacts, ExistingThread, InputFacts, ResolutionInput, ResolutionResult};
use super::laws::{applied, law_patches_are_of_open_threads};
use super::relationships::{
    ancestor, by_source, differs, edge_parents, hinted_parents, on_cycle, owned_by, parent_of,
    relation, role_of, rollouts_of, root_from, root_of, state_fact, trusted, Choice, Relation,
    RootState, MAX_PARENT_DEPTH,
};
use super::{
    affected, binding, blocked, bound_to, by_file, confirms, decision, existing_row, has_change,
    mentioned, misbound, patch_of, patches_to, resolution, sources_of, thread_patch, unconfirmed,
    view_of, Decision,
};

verus! {

/// `r` is what resolving `input` comes to, at a time that is one.
pub open spec fn resolves_to(input: ResolutionInput, r: ResolutionResult) -> bool {
    r.deep_view() == resolution(input.deep_view()) && input.resolved_at_ms >= 0
}

/// The state index has exactly one fact of the thread, the `k`th.
pub open spec fn is_indexed(input: ResolutionInput, id: Seq<char>, k: int) -> bool {
    &&& 0 <= k < input.state_snapshot.threads@.len()
    &&& input.state_snapshot.threads@[k].thread_id@ == id
    &&& forall|j: int|
        0 <= j < input.state_snapshot.threads@.len() && j != k ==> (
        #[trigger] input.state_snapshot.threads@[j]).thread_id@ != id
}

/// The state index has no fact of the thread.
pub open spec fn is_unindexed(input: ResolutionInput, id: Seq<char>) -> bool {
    forall|j: int|
        0 <= j < input.state_snapshot.threads@.len() ==> (
        #[trigger] input.state_snapshot.threads@[j]).thread_id@ != id
}

/// Storage has exactly one row of the thread, the `e`th.
pub open spec fn is_row(input: ResolutionInput, id: Seq<char>, e: int) -> bool {
    &&& 0 <= e < input.existing_threads@.len()
    &&& input.existing_threads@[e].thread_id@ == id
    &&& forall|j: int|
        0 <= j < input.existing_threads@.len() && j != e ==> (
        #[trigger] input.existing_threads@[j]).thread_id@ != id
}

/// The file is one of the thread, and it is there.
pub open spec fn is_present(input: ResolutionInput, id: Seq<char>, f: int) -> bool {
    &&& 0 <= f < input.source_file_observations@.len()
    &&& input.source_file_observations@[f].thread_id is Some
    &&& input.source_file_observations@[f].thread_id->0@ == id
    &&& input.source_file_observations@[f].file_status == FileStatus::Present
}

/// Some rollout fact confirms that the file belongs to the thread.
pub open spec fn is_confirmed(input: ResolutionInput, id: Seq<char>, f: int) -> bool {
    exists|i: int|
        #![trigger input.rollout_facts@[i]]
        0 <= i < input.rollout_facts@.len() && input.rollout_facts@[i].source_file_id
            == input.source_file_observations@[f].source_file_id
            && input.rollout_facts@[i].owning_thread_id@ == id
            && input.rollout_facts@[i].ownership_boundary.confidence
            == OwnershipConfidence::Confirmed
}

/// The thread can be resolved: its name can be stored, each of its files that is there is
/// confirmed, and no fact of it comes from a file that is bound to another thread.
pub open spec fn is_open(input: ResolutionInput, id: Seq<char>) -> bool {
    &&& !blank(id)
    &&& !has_control(id)
    &&& forall|f: int| #[trigger] is_present(input, id, f) ==> is_confirmed(input, id, f)
    &&& forall|i: int, f: int|
        #![trigger input.rollout_facts@[i], input.source_file_observations@[f]]
        0 <= i < input.rollout_facts@.len() && input.rollout_facts@[i].owning_thread_id@ == id
            && 0 <= f < input.source_file_observations@.len()
            && input.source_file_observations@[f].source_file_id
            == input.rollout_facts@[i].source_file_id
            && input.source_file_observations@[f].thread_id is Some
            ==> input.source_file_observations@[f].thread_id->0@ == id
}

/// The `j`th patch is of the thread.
pub open spec fn is_patch(r: ResolutionResult, id: Seq<char>, j: int) -> bool {
    0 <= j < r.patches@.len() && r.patches@[j].thread_id@ == id
}

/// A field of the row holds the value once the patches are applied: the patch of the thread
/// leaves it so, or there is none and it is so already.
pub open spec fn ends_with<T>(
    r: ResolutionResult,
    id: Seq<char>,
    held: Option<T>,
    field: spec_fn(ResolvedThreadPatch) -> Patch<T>,
    value: Option<T>,
) -> bool {
    &&& forall|j: int| #[trigger] is_patch(r, id, j) ==> applied(held, field(r.patches@[j])) == value
    &&& (forall|j: int| !#[trigger] is_patch(r, id, j)) ==> held == value
}

proof fn lemma_only_fact(threads: Seq<IndexedThread>, id: Seq<char>, k: int)
    requires
        forall|j: int| 0 <= j < threads.len() && j != k ==> (#[trigger] threads[j]).thread_id != id,
    ensures
        0 <= k < threads.len() && threads[k].thread_id == id ==> state_fact(threads, id) == Some(
            threads[k],
        ),
        !(0 <= k < threads.len()) ==> state_fact(threads, id) is None,
    decreases threads.len(),
{
    if threads.len() > 0 {
        let rest = threads.drop_last();
        assert forall|j: int| 0 <= j < rest.len() && j != k implies (#[trigger] rest[j]).thread_id
            != id by {
            assert(threads[j].thread_id != id);
        }
        lemma_only_fact(rest, id, k);
        if k != threads.len() - 1 {
            assert(threads[threads.len() - 1].thread_id != id);
        }
    }
}

proof fn lemma_only_row(rows: Seq<ExistingFacts>, id: Seq<char>, e: int)
    requires
        0 <= e < rows.len(),
        rows[e].thread_id == id,
        forall|j: int| 0 <= j < rows.len() && j != e ==> (#[trigger] rows[j]).thread_id != id,
    ensures
        existing_row(rows, id) == Some(rows[e]),
    decreases rows.len(),
{
    if e < rows.len() - 1 {
        assert(rows[rows.len() - 1].thread_id != id);
        let rest = rows.drop_last();
        assert forall|j: int| 0 <= j < rest.len() && j != e implies (#[trigger] rest[j]).thread_id
            != id by {
            assert(rows[j].thread_id != id);
        }
        lemma_only_row(rest, id, e);
    }
}

proof fn lemma_binding(sources: Seq<SourceFacts>, file: i64)
    ensures
        binding(sources, file) is Some ==> exists|f: int|
            #![trigger sources[f]]
            0 <= f < sources.len() && sources[f].source_file_id == file && sources[f].thread_id
                == binding(sources, file),
    decreases sources.len(),
{
    if sources.len() > 0 && binding(sources, file) is Some {
        if sources.first().source_file_id == file {
            assert(sources[0].source_file_id == file);
        } else {
            let rest = sources.drop_first();
            lemma_binding(rest, file);
            let f = choose|f: int|
                #![trigger rest[f]]
                0 <= f < rest.len() && rest[f].source_file_id == file && rest[f].thread_id
                    == binding(rest, file);
            assert(sources[f + 1] == rest[f]);
        }
    }
}

proof fn lemma_open(input: ResolutionInput, id: Seq<char>)
    requires
        is_open(input, id),
    ensures
        !blocked(input.deep_view(), id),
{
    let facts = input.deep_view();
    let sources = facts.sources;
    let rollouts = facts.rollouts;
    assert forall|f: int| 0 <= f < sources.len() && (#[trigger] sources[f]).thread_id == Some(
        id,
    ) implies !unconfirmed(facts, id, sources[f]) by {
        assert(sources[f] == input.source_file_observations@[f].deep_view());
        if sources[f].status is Present {
            assert(is_present(input, id, f));
            let i = choose|i: int|
                #![trigger input.rollout_facts@[i]]
                0 <= i < input.rollout_facts@.len() && input.rollout_facts@[i].source_file_id
                    == input.source_file_observations@[f].source_file_id
                    && input.rollout_facts@[i].owning_thread_id@ == id
                    && input.rollout_facts@[i].ownership_boundary.confidence
                    == OwnershipConfidence::Confirmed;
            assert(rollouts[i] == input.rollout_facts@[i].deep_view());
            assert(confirms(rollouts[i], id, sources[f].source_file_id));
        }
    }
    assert forall|i: int| 0 <= i < rollouts.len() && (#[trigger] rollouts[i]).owning_thread_id
        == id implies !misbound(facts, rollouts[i]) by {
        assert(rollouts[i] == input.rollout_facts@[i].deep_view());
        let file = rollouts[i].source_file_id;
        lemma_binding(sources, file);
        if binding(sources, file) is Some {
            let f = choose|f: int|
                #![trigger sources[f]]
                0 <= f < sources.len() && sources[f].source_file_id == file
                    && sources[f].thread_id == binding(sources, file);
            assert(sources[f] == input.source_file_observations@[f].deep_view());
        }
    }
}

proof fn lemma_patches_complete(input: InputFacts, ids: Seq<Seq<char>>, n: nat, k: int)
    requires
        0 <= k < n <= ids.len(),
        !blocked(input, ids[k]),
        thread_patch(input, ids, ids[k]) is Some,
    ensures
        patches_to(input, ids, n).contains(thread_patch(input, ids, ids[k])->0),
    decreases n,
{
    let patches = patches_to(input, ids, n);
    let before = patches_to(input, ids, (n - 1) as nat);
    if k == n - 1 {
        assert(patches.last() == thread_patch(input, ids, ids[k])->0);
    } else {
        lemma_patches_complete(input, ids, (n - 1) as nat, k);
        let patch = thread_patch(input, ids, ids[k])->0;
        let j = choose|j: int| 0 <= j < before.len() && before[j] == patch;
        assert(patches[j] == patch);
    }
}

/// What resolution decides on the thread.
spec fn decided(input: ResolutionInput, id: Seq<char>) -> Decision {
    let facts = input.deep_view();
    decision(facts, id, view_of(facts, affected(facts), id))
}

/// The value that is known, else the one that is held.
spec fn known_or<T>(value: Option<T>, held: Option<T>) -> Option<T> {
    if value is Some {
        value
    } else {
        held
    }
}

/// The row ends with what was decided.
spec fn ends_as_decided(
    input: ResolutionInput,
    r: ResolutionResult,
    id: Seq<char>,
    row: ExistingThread,
) -> bool {
    let d = decided(input, id);
    &&& ends_with(
        r,
        id,
        row.title.deep_view(),
        |p: ResolvedThreadPatch| p.title.deep_view(),
        known_or(d.title, row.title.deep_view()),
    )
    &&& ends_with(
        r,
        id,
        row.project_path.deep_view(),
        |p: ResolvedThreadPatch| p.project_path.deep_view(),
        known_or(d.project_path, row.project_path.deep_view()),
    )
    &&& ends_with(
        r,
        id,
        row.project_name.deep_view(),
        |p: ResolvedThreadPatch| p.project_name.deep_view(),
        known_or(d.project_name, row.project_name.deep_view()),
    )
    &&& ends_with(
        r,
        id,
        Some(row.project_kind),
        |p: ResolvedThreadPatch| p.project_kind,
        Some(d.project_kind),
    )
    &&& ends_with(
        r,
        id,
        row.metadata_model.deep_view(),
        |p: ResolvedThreadPatch| p.metadata_model.deep_view(),
        known_or(d.metadata_model, row.metadata_model.deep_view()),
    )
    &&& ends_with(
        r,
        id,
        row.created_at_ms,
        |p: ResolvedThreadPatch| p.created_at_ms,
        known_or(d.created_at_ms, row.created_at_ms),
    )
    &&& ends_with(
        r,
        id,
        row.updated_at_ms,
        |p: ResolvedThreadPatch| p.updated_at_ms,
        known_or(d.updated_at_ms, row.updated_at_ms),
    )
    &&& ends_with(
        r,
        id,
        Some(row.archived),
        |p: ResolvedThreadPatch| p.archived,
        known_or(d.archived, Some(row.archived)),
    )
    &&& ends_with(
        r,
        id,
        row.current_rollout_path.deep_view(),
        |p: ResolvedThreadPatch| p.current_rollout_path.deep_view(),
        known_or(d.current_rollout_path, row.current_rollout_path.deep_view()),
    )
}

/// The patch that resolution asks for on the thread.
spec fn asked_patch(input: ResolutionInput, id: Seq<char>) -> PatchFacts {
    let facts = input.deep_view();
    let v = view_of(facts, affected(facts), id);
    patch_of(id, facts.resolved_at_ms, v, decision(facts, id, v))
}

proof fn lemma_patch(input: ResolutionInput, r: ResolutionResult, id: Seq<char>, e: int)
    requires
        resolves_to(input, r),
        is_open(input, id),
        is_row(input, id, e),
    ensures
        forall|j: int| #[trigger] is_patch(r, id, j) ==> r.patches@[j].deep_view() == asked_patch(
            input,
            id,
        ),
        (forall|j: int| !#[trigger] is_patch(r, id, j)) ==> !has_change(asked_patch(input, id)),
        existing_row(input.deep_view().existing, id) == Some(
            input.existing_threads@[e].deep_view(),
        ),
        affected(input.deep_view()).contains(id),
{
    let facts = input.deep_view();
    let ids = affected(facts);
    let row = input.existing_threads@[e];
    lemma_open(input, id);
    assert(facts.existing[e] == row.deep_view());
    assert forall|j: int| 0 <= j < facts.existing.len() && j != e implies (
    #[trigger] facts.existing[j]).thread_id != id by {
        assert(facts.existing[j] == input.existing_threads@[j].deep_view());
    }
    lemma_only_row(facts.existing, id, e);
    lemma_sorted_texts(mentioned(facts));
    let all = mentioned(facts);
    let at = all.len() - facts.existing.len() + e;
    assert(all[at] == facts.existing[e].thread_id);
    assert(all.contains(id));
    assert(ids.contains(id));
    let k = choose|k: int| 0 <= k < ids.len() && ids[k] == id;
    let patch = asked_patch(input, id);
    assert(patch_fault(id, facts.resolved_at_ms) is None);
    assert(r.patches.deep_view() == resolution(facts).patches);
    assert forall|j: int| #[trigger] is_patch(r, id, j) implies r.patches@[j].deep_view()
        == patch by {
        assert(r.patches.deep_view()[j] == r.patches@[j].deep_view());
        law_patches_are_of_open_threads(facts, j);
    }
    if thread_patch(facts, ids, id) is Some {
        lemma_patches_complete(facts, ids, ids.len(), k);
        let j = choose|j: int|
            0 <= j < resolution(facts).patches.len() && resolution(facts).patches[j] == patch;
        assert(r.patches.deep_view()[j] == r.patches@[j].deep_view());
        assert(is_patch(r, id, j));
    }
}

proof fn lemma_ends(input: ResolutionInput, r: ResolutionResult, id: Seq<char>, e: int)
    requires
        resolves_to(input, r),
        is_open(input, id),
        is_row(input, id, e),
    ensures
        ends_as_decided(input, r, id, input.existing_threads@[e]),
{
    lemma_patch(input, r, id, e);
    let row = input.existing_threads@[e];
    let patch = asked_patch(input, id);
    if forall|j: int| !#[trigger] is_patch(r, id, j) {
        assert(patch.title is Keep && patch.project_path is Keep && patch.project_name is Keep
            && patch.project_kind is Keep && patch.metadata_model is Keep
            && patch.created_at_ms is Keep && patch.updated_at_ms is Keep && patch.archived is Keep
            && patch.current_rollout_path is Keep);
    }
}

/// Where a complete state index says whether a thread is archived, that is what its row holds.
pub proof fn law_the_index_tells_what_is_archived(
    input: ResolutionInput,
    r: ResolutionResult,
    id: Seq<char>,
    e: int,
    k: int,
    archived: bool,
)
    requires
        resolves_to(input, r),
        input.state_snapshot.status is Complete,
        is_open(input, id),
        is_row(input, id, e),
        is_indexed(input, id, k),
        input.state_snapshot.threads@[k].archived == Some(archived),
    ensures
        ends_with(
            r,
            id,
            Some(input.existing_threads@[e].archived),
            |p: ResolvedThreadPatch| p.archived,
            Some(archived),
        ),
{
    lemma_ends(input, r, id, e);
    lemma_indexed(input, id, k);
    reveal(decision);
}

proof fn lemma_indexed(input: ResolutionInput, id: Seq<char>, k: int)
    requires
        is_indexed(input, id, k),
    ensures
        state_fact(input.deep_view().threads, id) == Some(
            input.state_snapshot.threads@[k].deep_view(),
        ),
{
    let threads = input.deep_view().threads;
    assert(threads[k] == input.state_snapshot.threads@[k].deep_view());
    assert forall|j: int| 0 <= j < threads.len() && j != k implies (#[trigger] threads[j]).thread_id
        != id by {
        assert(threads[j] == input.state_snapshot.threads@[j].deep_view());
    }
    lemma_only_fact(threads, id, k);
}

proof fn lemma_unindexed(input: ResolutionInput, id: Seq<char>)
    requires
        is_unindexed(input, id),
    ensures
        state_fact(input.deep_view().threads, id) is None,
{
    let threads = input.deep_view().threads;
    assert forall|j: int| 0 <= j < threads.len() implies (#[trigger] threads[j]).thread_id
        != id by {
        assert(threads[j] == input.state_snapshot.threads@[j].deep_view());
    }
    lemma_only_fact(threads, id, -1);
}

/// The state index says nothing of the kind about the thread.
pub open spec fn says_nothing(
    input: ResolutionInput,
    id: Seq<char>,
    silent: spec_fn(StateThreadFact) -> bool,
) -> bool {
    ||| is_unindexed(input, id)
    ||| exists|k: int| #[trigger]
        is_indexed(input, id, k) && silent(input.state_snapshot.threads@[k])
}

proof fn lemma_bound(sources: Seq<SourceFacts>, id: Seq<char>, source: SourceFacts)
    ensures
        bound_to(sources, id).contains(source) <==> sources.contains(source) && source.thread_id
            == Some(id),
    decreases sources.len(),
{
    let bound = bound_to(sources, id);
    if sources.len() > 0 {
        let rest = sources.drop_last();
        lemma_bound(rest, id, source);
        if sources.contains(source) {
            let i = choose|i: int| 0 <= i < sources.len() && sources[i] == source;
            if i < rest.len() {
                assert(rest[i] == source);
            }
        }
        if rest.contains(source) {
            let i = choose|i: int| 0 <= i < rest.len() && rest[i] == source;
            assert(sources[i] == source);
        }
        assert(sources[sources.len() - 1] == sources.last());
        if sources.last().thread_id == Some(id) {
            let before = bound_to(rest, id);
            assert(bound == before.push(sources.last()));
            if before.contains(source) {
                let i = choose|i: int| 0 <= i < before.len() && before[i] == source;
                assert(bound[i] == source);
            }
            assert(bound[bound.len() - 1] == sources.last());
            if bound.contains(source) {
                let i = choose|i: int| 0 <= i < bound.len() && bound[i] == source;
                if i < before.len() {
                    assert(before[i] == source);
                }
            }
        }
    }
}

proof fn lemma_physical(sources: Seq<SourceFacts>)
    ensures
        physical_source(sources) is Some <==> exists|i: int|
            0 <= i < sources.len() && (#[trigger] sources[i]).status is Present,
        physical_source(sources) is Some ==> sources.contains(physical_source(sources)->0)
            && physical_source(sources)->0.status is Present,
        physical_source(sources) is Some && physical_source(sources)->0.area is ArchivedSessions
            ==> forall|i: int|
            0 <= i < sources.len() && (#[trigger] sources[i]).status is Present
                ==> sources[i].area is ArchivedSessions,
    decreases sources.len(),
{
    if sources.len() > 0 {
        let rest = sources.drop_last();
        lemma_physical(rest);
        assert forall|i: int| 0 <= i < rest.len() implies rest[i] == #[trigger] sources[i] by {}
        let last = sources.len() - 1;
        assert(sources[last] == sources.last());
        if physical_source(rest) is Some {
            let i = choose|i: int| 0 <= i < rest.len() && rest[i] == physical_source(rest)->0;
            assert(sources[i] == rest[i]);
        }
        if physical_source(sources) is None {
            assert forall|i: int| 0 <= i < sources.len() implies !((#[trigger] sources[i]).status
                is Present) by {
                if i < rest.len() {
                    assert(rest[i].status == sources[i].status);
                }
            }
        }
        if physical_source(sources) is Some && physical_source(sources)->0.area
            is ArchivedSessions {
            assert forall|i: int|
                0 <= i < sources.len() && (#[trigger] sources[i]).status is Present implies
                sources[i].area is ArchivedSessions by {
                if i < rest.len() {
                    assert(rest[i] == sources[i]);
                }
            }
        }
    }
}

/// Where the index does not say whether a thread is archived, its files do: it is where all of
/// those that are there lie among the archived sessions.
pub proof fn law_files_tell_what_is_archived(
    input: ResolutionInput,
    r: ResolutionResult,
    id: Seq<char>,
    e: int,
    f: int,
)
    requires
        resolves_to(input, r),
        input.state_snapshot.status is Complete,
        is_open(input, id),
        is_row(input, id, e),
        says_nothing(input, id, |fact: StateThreadFact| fact.archived is None),
        is_present(input, id, f),
    ensures
        ends_with(
            r,
            id,
            Some(input.existing_threads@[e].archived),
            |p: ResolvedThreadPatch| p.archived,
            Some(
                forall|g: int| #[trigger]
                    is_present(input, id, g) ==> input.source_file_observations@[g].source_area
                        == SourceArea::ArchivedSessions,
            ),
        ),
{
    lemma_ends(input, r, id, e);
    if is_unindexed(input, id) {
        lemma_unindexed(input, id);
    } else {
        let k = choose|k: int| #[trigger]
            is_indexed(input, id, k) && input.state_snapshot.threads@[k].archived is None;
        lemma_indexed(input, id, k);
    }
    reveal(decision);
    let all = input.deep_view().sources;
    let own = sources_of(all, id);
    lemma_stably_sorted_keeps(
        bound_to(all, id),
        |a: SourceFacts, b: SourceFacts| by_file(a, b),
    );
    lemma_physical(own);
    let source = input.source_file_observations@[f].deep_view();
    assert(all[f] == source);
    lemma_bound(all, id, source);
    assert(own.contains(source));
    let chosen = physical_source(own)->0;
    lemma_bound(all, id, chosen);
    let g = choose|g: int| 0 <= g < all.len() && all[g] == chosen;
    assert(all[g] == input.source_file_observations@[g].deep_view());
    assert(is_present(input, id, g));
    if chosen.area is ArchivedSessions {
        assert forall|h: int| #[trigger]
            is_present(input, id, h) implies input.source_file_observations@[h].source_area
            == SourceArea::ArchivedSessions by {
            let other = input.source_file_observations@[h].deep_view();
            assert(all[h] == other);
            lemma_bound(all, id, other);
            assert(own.contains(other));
            let i = choose|i: int| 0 <= i < own.len() && own[i] == other;
            assert(own[i].status is Present);
        }
    }
}

/// Where a complete state index knows the file, the model and the times of a thread, these are
/// what its row holds.
pub proof fn law_the_index_tells_file_model_and_times(
    input: ResolutionInput,
    r: ResolutionResult,
    id: Seq<char>,
    e: int,
    k: int,
)
    requires
        resolves_to(input, r),
        input.state_snapshot.status is Complete,
        is_open(input, id),
        is_row(input, id, e),
        is_indexed(input, id, k),
    ensures
        input.state_snapshot.threads@[k].rollout_path is Some ==> ends_with(
            r,
            id,
            input.existing_threads@[e].current_rollout_path.deep_view(),
            |p: ResolvedThreadPatch| p.current_rollout_path.deep_view(),
            input.state_snapshot.threads@[k].rollout_path.deep_view(),
        ),
        input.state_snapshot.threads@[k].metadata_model is Some ==> ends_with(
            r,
            id,
            input.existing_threads@[e].metadata_model.deep_view(),
            |p: ResolvedThreadPatch| p.metadata_model.deep_view(),
            input.state_snapshot.threads@[k].metadata_model.deep_view(),
        ),
        input.state_snapshot.threads@[k].created_at_ms is Some ==> ends_with(
            r,
            id,
            input.existing_threads@[e].created_at_ms,
            |p: ResolvedThreadPatch| p.created_at_ms,
            input.state_snapshot.threads@[k].created_at_ms,
        ),
        input.state_snapshot.threads@[k].updated_at_ms is Some ==> ends_with(
            r,
            id,
            input.existing_threads@[e].updated_at_ms,
            |p: ResolvedThreadPatch| p.updated_at_ms,
            input.state_snapshot.threads@[k].updated_at_ms,
        ),
{
    lemma_ends(input, r, id, e);
    lemma_indexed(input, id, k);
    reveal(decision);
}

/// The title of a thread is its name in a complete state index, and where it has no name there,
/// its title there.
pub proof fn law_the_index_tells_the_title(
    input: ResolutionInput,
    r: ResolutionResult,
    id: Seq<char>,
    e: int,
    k: int,
)
    requires
        resolves_to(input, r),
        input.state_snapshot.status is Complete,
        is_open(input, id),
        is_row(input, id, e),
        is_indexed(input, id, k),
    ensures
        input.state_snapshot.threads@[k].name is Some ==> ends_with(
            r,
            id,
            input.existing_threads@[e].title.deep_view(),
            |p: ResolvedThreadPatch| p.title.deep_view(),
            input.state_snapshot.threads@[k].name.deep_view(),
        ),
        input.state_snapshot.threads@[k].name is None && input.state_snapshot.threads@[k].title
            is Some ==> ends_with(
            r,
            id,
            input.existing_threads@[e].title.deep_view(),
            |p: ResolvedThreadPatch| p.title.deep_view(),
            input.state_snapshot.threads@[k].title.deep_view(),
        ),
{
    lemma_ends(input, r, id, e);
    lemma_indexed(input, id, k);
    reveal(decision);
}

/// The name that the session index gives a thread last.
pub open spec fn is_named(input: ResolutionInput, id: Seq<char>, s: int) -> bool {
    &&& 0 <= s < input.session_name_snapshot.names@.len()
    &&& input.session_name_snapshot.names@[s].thread_id@ == id
    &&& forall|j: int|
        s < j < input.session_name_snapshot.names@.len() ==> (
        #[trigger] input.session_name_snapshot.names@[j]).thread_id@ != id
}

proof fn lemma_named(names: Seq<NamedThread>, id: Seq<char>, s: int)
    requires
        0 <= s < names.len(),
        names[s].thread_id == id,
        forall|j: int| s < j < names.len() ==> (#[trigger] names[j]).thread_id != id,
    ensures
        name_of(names, id) == Some(names[s]),
    decreases names.len(),
{
    if s < names.len() - 1 {
        assert(names[names.len() - 1].thread_id != id);
        lemma_named(names.drop_last(), id, s);
    }
}

/// Where the state index gives a thread neither name nor title, the name that the session index
/// gives it last is its title.
pub proof fn law_the_session_index_tells_the_title_next(
    input: ResolutionInput,
    r: ResolutionResult,
    id: Seq<char>,
    e: int,
    s: int,
)
    requires
        resolves_to(input, r),
        input.state_snapshot.status is Complete,
        is_open(input, id),
        is_row(input, id, e),
        says_nothing(
            input,
            id,
            |fact: StateThreadFact| fact.name is None && fact.title is None,
        ),
        is_named(input, id, s),
    ensures
        ends_with(
            r,
            id,
            input.existing_threads@[e].title.deep_view(),
            |p: ResolvedThreadPatch| p.title.deep_view(),
            Some(input.session_name_snapshot.names@[s].thread_name@),
        ),
{
    lemma_ends(input, r, id, e);
    if is_unindexed(input, id) {
        lemma_unindexed(input, id);
    } else {
        let k = choose|k: int| #[trigger]
            is_indexed(input, id, k) && input.state_snapshot.threads@[k].name is None
                && input.state_snapshot.threads@[k].title is None;
        lemma_indexed(input, id, k);
    }
    let names = input.deep_view().names;
    assert(names[s] == input.session_name_snapshot.names@[s].deep_view());
    assert forall|j: int| s < j < names.len() implies (#[trigger] names[j]).thread_id != id by {
        assert(names[j] == input.session_name_snapshot.names@[j].deep_view());
    }
    lemma_named(names, id, s);
    reveal(decision);
}

/// The project of a thread that has no directory in a rollout is the directory that the state
/// index knows, where that is an absolute path; its name goes with it.
pub proof fn law_the_index_tells_the_project(
    input: ResolutionInput,
    r: ResolutionResult,
    id: Seq<char>,
    e: int,
    k: int,
)
    requires
        resolves_to(input, r),
        is_open(input, id),
        is_row(input, id, e),
        is_indexed(input, id, k),
        input.state_snapshot.threads@[k].cwd is Some,
        input.state_snapshot.threads@[k].cwd->0@.len() > 0,
        is_absolute(input.platform, input.state_snapshot.threads@[k].cwd->0@),
        forall|i: int|
            0 <= i < input.rollout_facts@.len() && (
            #[trigger] input.rollout_facts@[i]).owning_thread_id@ == id
                ==> input.rollout_facts@[i].cwd is None,
    ensures
        ends_with(
            r,
            id,
            input.existing_threads@[e].project_path.deep_view(),
            |p: ResolvedThreadPatch| p.project_path.deep_view(),
            Some(input.state_snapshot.threads@[k].cwd->0@),
        ),
        project_name(input.platform, input.state_snapshot.threads@[k].cwd->0@) is Some ==> ends_with(
            r,
            id,
            input.existing_threads@[e].project_name.deep_view(),
            |p: ResolvedThreadPatch| p.project_name.deep_view(),
            project_name(input.platform, input.state_snapshot.threads@[k].cwd->0@),
        ),
{
    lemma_ends(input, r, id, e);
    lemma_indexed(input, id, k);
    let own = rollouts_of(input.deep_view().rollouts, id);
    assert forall|i: int| 0 <= i < own.len() implies (#[trigger] own[i]).cwd is None by {
        lemma_owned_rollout(input, id, i);
    }
    lemma_no_cwd(own);
    reveal(decision);
}

proof fn lemma_no_cwd(facts: Seq<ThreadFacts>)
    requires
        forall|i: int| 0 <= i < facts.len() ==> (#[trigger] facts[i]).cwd is None,
    ensures
        cwd_of(facts) is None,
    decreases facts.len(),
{
    if facts.len() > 0 {
        assert(facts[facts.len() - 1].cwd is None);
        let rest = facts.drop_last();
        assert forall|i: int| 0 <= i < rest.len() implies (#[trigger] rest[i]).cwd is None by {
            assert(facts[i].cwd is None);
        }
        lemma_no_cwd(rest);
    }
}

proof fn lemma_owned(rollouts: Seq<ThreadFacts>, id: Seq<char>, fact: ThreadFacts)
    ensures
        owned_by(rollouts, id).contains(fact) <==> rollouts.contains(fact)
            && fact.owning_thread_id == id,
    decreases rollouts.len(),
{
    let owned = owned_by(rollouts, id);
    if rollouts.len() > 0 {
        let rest = rollouts.drop_last();
        lemma_owned(rest, id, fact);
        if rollouts.contains(fact) {
            let i = choose|i: int| 0 <= i < rollouts.len() && rollouts[i] == fact;
            if i < rest.len() {
                assert(rest[i] == fact);
            }
        }
        if rest.contains(fact) {
            let i = choose|i: int| 0 <= i < rest.len() && rest[i] == fact;
            assert(rollouts[i] == fact);
        }
        assert(rollouts[rollouts.len() - 1] == rollouts.last());
        if rollouts.last().owning_thread_id == id {
            let before = owned_by(rest, id);
            assert(owned == before.push(rollouts.last()));
            if before.contains(fact) {
                let i = choose|i: int| 0 <= i < before.len() && before[i] == fact;
                assert(owned[i] == fact);
            }
            assert(owned[owned.len() - 1] == rollouts.last());
            if owned.contains(fact) {
                let i = choose|i: int| 0 <= i < owned.len() && owned[i] == fact;
                if i < before.len() {
                    assert(before[i] == fact);
                }
            }
        }
    }
}

proof fn lemma_owned_rollout(input: ResolutionInput, id: Seq<char>, i: int)
    requires
        0 <= i < rollouts_of(input.deep_view().rollouts, id).len(),
    ensures
        exists|j: int|
            #![trigger input.rollout_facts@[j]]
            0 <= j < input.rollout_facts@.len() && input.rollout_facts@[j].owning_thread_id@ == id
                && input.rollout_facts@[j].deep_view() == rollouts_of(
                input.deep_view().rollouts,
                id,
            )[i],
{
    let all = input.deep_view().rollouts;
    let own = rollouts_of(all, id);
    lemma_stably_sorted_keeps(owned_by(all, id), |a: ThreadFacts, b: ThreadFacts| by_source(a, b));
    assert(own.contains(own[i]));
    lemma_owned(all, id, own[i]);
    let j = choose|j: int| 0 <= j < all.len() && all[j] == own[i];
    assert(all[j] == input.rollout_facts@[j].deep_view());
    assert(input.rollout_facts@[j].owning_thread_id@ == id);
}

/// The thread is among those of a list.
pub open spec fn is_listed(ids: Seq<String>, id: Seq<char>) -> bool {
    exists|i: int| 0 <= i < ids.len() && (#[trigger] ids[i])@ == id
}

proof fn lemma_listed(ids: Vec<String>, id: Seq<char>)
    ensures
        ids.deep_view().contains(id) <==> is_listed(ids@, id),
{
    let all = ids.deep_view();
    if all.contains(id) {
        let i = choose|i: int| 0 <= i < all.len() && all[i] == id;
        assert(ids@[i]@ == id);
    }
    if is_listed(ids@, id) {
        let i = choose|i: int| 0 <= i < ids@.len() && (#[trigger] ids@[i])@ == id;
        assert(all[i] == id);
    }
}

/// A complete global state that lists a thread as without a project, and assigns it none, makes
/// it one without a project; one that does both leaves that open. While the global state cannot
/// be read, the kind stays what it was.
pub proof fn law_the_global_state_tells_the_kind(
    input: ResolutionInput,
    r: ResolutionResult,
    id: Seq<char>,
    e: int,
)
    requires
        resolves_to(input, r),
        is_open(input, id),
        is_row(input, id, e),
    ensures
        ({
            let global = input.global_state_snapshot;
            let listed = is_listed(global.projectless_thread_ids@, id);
            let assigned = is_listed(global.thread_project_assignments@, id);
            let held = Some(input.existing_threads@[e].project_kind);
            let field = |p: ResolvedThreadPatch| p.project_kind;
            &&& global.status is Complete && listed && !assigned ==> ends_with(
                r,
                id,
                held,
                field,
                Some(ProjectKind::Projectless),
            )
            &&& global.status is Complete && listed && assigned ==> ends_with(
                r,
                id,
                held,
                field,
                Some(ProjectKind::Unknown),
            )
            &&& global.status is Malformed || global.status is Unreadable ==> ends_with(
                r,
                id,
                held,
                field,
                held,
            )
        }),
{
    lemma_ends(input, r, id, e);
    lemma_patch(input, r, id, e);
    lemma_listed(input.global_state_snapshot.projectless_thread_ids, id);
    lemma_listed(input.global_state_snapshot.thread_project_assignments, id);
    reveal(decision);
}

/// Nothing that a rollout says of the thread bears on its standing.
pub open spec fn is_unhinted(input: ResolutionInput, id: Seq<char>) -> bool {
    forall|i: int|
        0 <= i < input.rollout_facts@.len() && (
        #[trigger] input.rollout_facts@[i]).owning_thread_id@ == id ==> {
            &&& input.rollout_facts@[i].parent_thread_id_hint is None
            &&& input.rollout_facts@[i].agent_role_hint is None
            &&& !input.rollout_facts@[i].relationship_conflict
        }
}

/// Every parent that the state index gives the thread is this one, and it gives one.
pub open spec fn is_child(input: ResolutionInput, id: Seq<char>, parent: Seq<char>) -> bool {
    &&& exists|i: int|
        #![trigger input.state_snapshot.spawn_edges@[i]]
        0 <= i < input.state_snapshot.spawn_edges@.len()
            && input.state_snapshot.spawn_edges@[i].child_thread_id@ == id
    &&& forall|i: int|
        0 <= i < input.state_snapshot.spawn_edges@.len() && (
        #[trigger] input.state_snapshot.spawn_edges@[i]).child_thread_id@ == id
            ==> input.state_snapshot.spawn_edges@[i].parent_thread_id@ == parent
}

/// The state index gives the thread no parent.
pub open spec fn is_no_child(input: ResolutionInput, id: Seq<char>) -> bool {
    forall|i: int|
        0 <= i < input.state_snapshot.spawn_edges@.len() ==> (
        #[trigger] input.state_snapshot.spawn_edges@[i]).child_thread_id@ != id
}

proof fn lemma_edges(edges: Seq<Edge>, id: Seq<char>, parent: Seq<char>)
    ensures
        (forall|i: int| 0 <= i < edges.len() ==> (#[trigger] edges[i]).child != id)
            ==> edge_parents(edges, id).len() == 0,
        (exists|i: int| 0 <= i < edges.len() && (#[trigger] edges[i]).child == id)
            ==> edge_parents(edges, id).len() > 0,
        (forall|i: int|
            0 <= i < edges.len() && (#[trigger] edges[i]).child == id ==> edges[i].parent == parent)
            ==> !differs(edge_parents(edges, id), parent),
    decreases edges.len(),
{
    if edges.len() > 0 {
        let rest = edges.drop_last();
        lemma_edges(rest, id, parent);
        assert(edges[edges.len() - 1] == edges.last());
        assert forall|i: int| 0 <= i < rest.len() implies rest[i] == #[trigger] edges[i] by {}
        if exists|i: int| 0 <= i < edges.len() && (#[trigger] edges[i]).child == id {
            let i = choose|i: int| 0 <= i < edges.len() && (#[trigger] edges[i]).child == id;
            if i < rest.len() {
                assert(rest[i].child == id);
            }
        }
        if forall|i: int| 0 <= i < edges.len() ==> (#[trigger] edges[i]).child != id {
            assert forall|i: int| 0 <= i < rest.len() implies (#[trigger] rest[i]).child
                != id by {
                assert(edges[i].child != id);
            }
        }
        if forall|i: int|
            0 <= i < edges.len() && (#[trigger] edges[i]).child == id ==> edges[i].parent
                == parent {
            assert forall|i: int|
                0 <= i < rest.len() && (#[trigger] rest[i]).child == id implies rest[i].parent
                == parent by {
                assert(edges[i].child == id);
            }
            let before = edge_parents(rest, id);
            let all = edge_parents(edges, id);
            if edges.last().child == id {
                assert(all == before.push(edges.last().parent));
                assert forall|i: int| 0 <= i < all.len() implies #[trigger] all[i] == parent by {
                    if i < before.len() {
                        assert(before[i] == parent);
                    }
                }
            }
        }
    }
}

proof fn lemma_no_hints(facts: Seq<ThreadFacts>, kind: ParentHintProvenance)
    requires
        forall|i: int| 0 <= i < facts.len() ==> (#[trigger] facts[i]).parent is None,
    ensures
        hinted_parents(facts, kind).len() == 0,
    decreases facts.len(),
{
    if facts.len() > 0 {
        assert(facts[facts.len() - 1].parent is None);
        let rest = facts.drop_last();
        assert forall|i: int| 0 <= i < rest.len() implies (#[trigger] rest[i]).parent is None by {
            assert(facts[i].parent is None);
        }
        lemma_no_hints(rest, kind);
    }
}

/// How a thread stands that no rollout says anything of, that the index has and that is called
/// nothing there.
proof fn lemma_unhinted(input: ResolutionInput, id: Seq<char>, k: int, parent: Seq<char>)
    requires
        is_unhinted(input, id),
        is_indexed(input, id, k),
        input.state_snapshot.threads@[k].agent_role_hint is None,
    ensures
        is_no_child(input, id) ==> relation(input.deep_view(), id) == (Relation {
            parent: Choice::NoneConfirmed,
            explicit_main: false,
            explicit_subagent: false,
            conflict: false,
        }),
        is_child(input, id, parent) ==> relation(input.deep_view(), id) == (Relation {
            parent: Choice::Confirmed(parent),
            explicit_main: false,
            explicit_subagent: false,
            conflict: false,
        }),
{
    let facts = input.deep_view();
    lemma_indexed(input, id, k);
    let own = rollouts_of(facts.rollouts, id);
    assert forall|i: int| 0 <= i < own.len() implies (#[trigger] own[i]).parent is None
        && own[i].role is None && !own[i].relationship_conflict by {
        lemma_owned_rollout(input, id, i);
    }
    lemma_no_hints(own, ParentHintProvenance::SessionMetaParent);
    lemma_no_hints(own, ParentHintProvenance::SubagentSource);
    lemma_no_hints(own, ParentHintProvenance::ForkedFromId);
    let edges = facts.edges;
    assert forall|i: int| 0 <= i < edges.len() implies (#[trigger] edges[i]).child
        == input.state_snapshot.spawn_edges@[i].child_thread_id@ && edges[i].parent
        == input.state_snapshot.spawn_edges@[i].parent_thread_id@ by {
        assert(edges[i] == input.state_snapshot.spawn_edges@[i].deep_view());
    }
    lemma_edges(edges, id, parent);
    if is_child(input, id, parent) {
        let i = choose|i: int|
            #![trigger input.state_snapshot.spawn_edges@[i]]
            0 <= i < input.state_snapshot.spawn_edges@.len()
                && input.state_snapshot.spawn_edges@[i].child_thread_id@ == id;
        assert(edges[i].child == id);
        let parents = edge_parents(edges, id);
        assert(parents[0] == parent);
    }
    reveal(relation);
}

/// A thread that a complete index has and gives no parent, and of which nothing says otherwise,
/// is a main thread: it has no parent, and it is the root of its own session.
pub proof fn law_threads_without_parents_are_main(
    input: ResolutionInput,
    r: ResolutionResult,
    id: Seq<char>,
    e: int,
    k: int,
)
    requires
        resolves_to(input, r),
        input.state_snapshot.status is Complete,
        input.state_snapshot.spawn_edges_status is Complete,
        is_open(input, id),
        is_row(input, id, e),
        is_indexed(input, id, k),
        input.state_snapshot.threads@[k].agent_role_hint is None,
        is_unhinted(input, id),
        is_no_child(input, id),
    ensures
        ends_with(
            r,
            id,
            input.existing_threads@[e].parent_thread_id.deep_view(),
            |p: ResolvedThreadPatch| p.parent_thread_id.deep_view(),
            None,
        ),
        ends_with(
            r,
            id,
            Some(input.existing_threads@[e].agent_role),
            |p: ResolvedThreadPatch| p.agent_role,
            Some(AgentRole::Main),
        ),
        ends_with(
            r,
            id,
            input.existing_threads@[e].root_session_id.deep_view(),
            |p: ResolvedThreadPatch| p.root_session_id.deep_view(),
            Some(id),
        ),
{
    lemma_patch(input, r, id, e);
    lemma_main(input, id, k);
}

proof fn lemma_main(input: ResolutionInput, id: Seq<char>, k: int)
    requires
        input.state_snapshot.status is Complete,
        input.state_snapshot.spawn_edges_status is Complete,
        is_indexed(input, id, k),
        input.state_snapshot.threads@[k].agent_role_hint is None,
        is_unhinted(input, id),
        is_no_child(input, id),
        affected(input.deep_view()).contains(id),
    ensures
        relation(input.deep_view(), id).parent == Choice::NoneConfirmed,
        role_of(input.deep_view(), affected(input.deep_view()), id) == Some(AgentRole::Main),
        !on_cycle(input.deep_view(), affected(input.deep_view()), id),
        root_of(input.deep_view(), affected(input.deep_view()), id) == (
            Some(id),
            RootState::Resolved,
        ),
{
    let facts = input.deep_view();
    let ids = affected(facts);
    lemma_unhinted(input, id, k, id);
    assert(parent_of(facts, ids, id) is None);
    assert forall|n: nat| 1 <= n <= MAX_PARENT_DEPTH implies #[trigger] ancestor(facts, ids, id, n)
        != Some(id) by {
        lemma_no_ancestors(facts, ids, id, n);
    }
    assert(facts.threads[k] == input.state_snapshot.threads@[k].deep_view());
    assert(facts.threads[k].thread_id == id);
}

proof fn lemma_no_ancestors(input: InputFacts, ids: Seq<Seq<char>>, id: Seq<char>, n: nat)
    requires
        parent_of(input, ids, id) is None,
        n >= 1,
    ensures
        ancestor(input, ids, id, n) is None,
    decreases n,
{
    if n > 1 {
        lemma_no_ancestors(input, ids, id, (n - 1) as nat);
    } else {
        assert(ancestor(input, ids, id, 0) == Some(id));
    }
}

/// A thread that the index gives one parent, where that is a main thread and nothing says
/// otherwise of either, is a subagent of that parent and belongs to its session.
pub proof fn law_children_of_main_threads_are_subagents(
    input: ResolutionInput,
    r: ResolutionResult,
    id: Seq<char>,
    e: int,
    k: int,
    parent: Seq<char>,
    m: int,
)
    requires
        resolves_to(input, r),
        input.state_snapshot.status is Complete,
        input.state_snapshot.spawn_edges_status is Complete,
        is_open(input, id),
        is_row(input, id, e),
        is_indexed(input, id, k),
        input.state_snapshot.threads@[k].agent_role_hint is None,
        is_unhinted(input, id),
        is_child(input, id, parent),
        is_indexed(input, parent, m),
        input.state_snapshot.threads@[m].agent_role_hint is None,
        is_unhinted(input, parent),
        is_no_child(input, parent),
    ensures
        ends_with(
            r,
            id,
            input.existing_threads@[e].parent_thread_id.deep_view(),
            |p: ResolvedThreadPatch| p.parent_thread_id.deep_view(),
            Some(parent),
        ),
        ends_with(
            r,
            id,
            Some(input.existing_threads@[e].agent_role),
            |p: ResolvedThreadPatch| p.agent_role,
            Some(AgentRole::Subagent),
        ),
        ends_with(
            r,
            id,
            input.existing_threads@[e].root_session_id.deep_view(),
            |p: ResolvedThreadPatch| p.root_session_id.deep_view(),
            Some(parent),
        ),
{
    let facts = input.deep_view();
    let ids = affected(facts);
    lemma_patch(input, r, id, e);
    lemma_unhinted(input, id, k, parent);
    assert(id != parent) by {
        if id == parent {
            lemma_unhinted(input, id, k, parent);
        }
    }
    lemma_sorted_texts(mentioned(facts));
    assert(facts.threads[m] == input.state_snapshot.threads@[m].deep_view());
    assert(mentioned(facts)[m] == parent);
    assert(mentioned(facts).contains(parent));
    assert(ids.contains(parent));
    lemma_main(input, parent, m);
    assert(parent_of(facts, ids, id) == Some(parent));
    assert(parent_of(facts, ids, parent) is None);
    assert forall|n: nat| 1 <= n <= MAX_PARENT_DEPTH implies #[trigger] ancestor(facts, ids, id, n)
        != Some(id) by {
        lemma_one_above(facts, ids, id, parent, n);
    }
    assert(role_of(facts, ids, id) == Some(AgentRole::Subagent));
    assert(trusted(facts, parent));
    assert(root_from(facts, ids, parent, MAX_PARENT_DEPTH as nat) == (
        Some(parent),
        RootState::Resolved,
    ));
    assert(root_of(facts, ids, id) == (Some(parent), RootState::Resolved));
}

proof fn lemma_one_above(
    input: InputFacts,
    ids: Seq<Seq<char>>,
    id: Seq<char>,
    parent: Seq<char>,
    n: nat,
)
    requires
        parent_of(input, ids, id) == Some(parent),
        parent_of(input, ids, parent) is None,
        n >= 1,
    ensures
        n == 1 ==> ancestor(input, ids, id, n) == Some(parent),
        n > 1 ==> ancestor(input, ids, id, n) is None,
    decreases n,
{
    if n > 1 {
        lemma_one_above(input, ids, id, parent, (n - 1) as nat);
    } else {
        assert(ancestor(input, ids, id, 0) == Some(id));
    }
}

/// The name of a project is what stands after the last slash of its path, where that is a name.
pub proof fn law_projects_are_named_by_their_last_part(
    platform: Platform,
    dir: Seq<char>,
    name: Seq<char>,
)
    requires
        !platform.windows(),
        name.len() > 0,
        name != seq!['.'],
        name != seq!['.', '.'],
        forall|i: int| 0 <= i < name.len() ==> #[trigger] name[i] != '/',
    ensures
        project_name(platform, dir + seq!['/'] + name) == Some(name),
{
    lemma_last_part(None, Seq::empty(), dir, name);
}

proof fn lemma_last_part(
    best: Option<Seq<char>>,
    current: Seq<char>,
    dir: Seq<char>,
    name: Seq<char>,
)
    requires
        name.len() > 0,
        name != seq!['.'],
        forall|i: int| 0 <= i < name.len() ==> #[trigger] name[i] != '/',
    ensures
        last_component(best, current, dir + seq!['/'] + name) == Some(name),
    decreases dir.len(),
{
    let path = dir + seq!['/'] + name;
    if dir.len() == 0 {
        assert(path[0] == '/');
        assert(path.drop_first() =~= name);
        let entered = if current.len() == 0 || current == seq!['.'] {
            best
        } else {
            Some(current)
        };
        lemma_rest_of_part(entered, Seq::empty(), name);
        assert(Seq::<char>::empty() + name =~= name);
    } else {
        assert(path[0] == dir[0]);
        assert(path.drop_first() =~= dir.drop_first() + seq!['/'] + name);
        if dir[0] == '/' {
            let entered = if current.len() == 0 || current == seq!['.'] {
                best
            } else {
                Some(current)
            };
            lemma_last_part(entered, Seq::empty(), dir.drop_first(), name);
        } else {
            lemma_last_part(best, current.push(dir[0]), dir.drop_first(), name);
        }
    }
}

proof fn lemma_rest_of_part(best: Option<Seq<char>>, current: Seq<char>, rest: Seq<char>)
    requires
        (current + rest).len() > 0,
        current + rest != seq!['.'],
        forall|i: int| 0 <= i < rest.len() ==> #[trigger] rest[i] != '/',
    ensures
        last_component(best, current, rest) == Some(current + rest),
    decreases rest.len(),
{
    if rest.len() == 0 {
        assert(current + rest =~= current);
    } else {
        assert(rest[0] != '/');
        assert(current.push(rest[0]) + rest.drop_first() =~= current + rest);
        assert forall|i: int| 0 <= i < rest.drop_first().len() implies #[trigger] rest.drop_first()[i]
            != '/' by {
            assert(rest[i + 1] != '/');
        }
        lemma_rest_of_part(best, current.push(rest[0]), rest.drop_first());
    }
}

} // verus!
