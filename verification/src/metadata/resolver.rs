//! The resolver.
use vstd::prelude::*;
use vstd::string::*;

use crate::domain::{FileStatus, SourceArea, SourceFileState};
use crate::global_state::{GlobalStateSnapshot, GlobalStateStatus};
use crate::order::{
    compare_optional_i64, compare_optional_texts, compare_optional_u64, compare_texts, compare_u64,
    insert_text, Rank,
};
#[allow(unused_imports)]
use crate::order::{optional_text_rank, sorted_texts, stable_place, stably_sorted};
use crate::platform::Platform;
use crate::rollout::{OwnershipConfidence, RolloutThreadFact};
#[allow(unused_imports)]
use crate::rollout::ThreadFacts;
#[allow(unused_imports)]
use crate::rollout_parser::field_name;
use crate::session_index::SessionNameFact;
use crate::shared::{
    AgentRole, MetadataQualityStatus, Patch, ProjectKind, ResolvedThreadPatch,
};
#[allow(unused_imports)]
use crate::shared::PatchFacts;
use crate::state_index::StateThreadFact;
#[allow(unused_imports)]
use crate::state_index::IndexedThread;
use super::fields::{
    greater_time, has_valid_project_path, project_name_from_path, resolve_thread_title,
    rollout_times, select_physical_source, select_rollout_cwd, select_rollout_model,
};
#[allow(unused_imports)]
use super::fields::{sources_at, SourceFacts};
use super::input::{
    note, ExistingThread, MetadataDiagnostic, MetadataDiagnosticCode, MetadataDiagnosticSeverity,
    MetadataSourceKind, ResolutionInput, ResolutionResult,
};
#[allow(unused_imports)]
use super::input::{ExistingFacts, Finding};
use super::relationships::{
    cyclic, find_state_fact, owned_rollouts, relate, resolve_role, state_fact_value_key, walk_root,
    Graph, ParentChoice, Relationship, RootState,
};
#[allow(unused_imports)]
use super::relationships::{on_cycle, relation, relation_findings, relations_fit, role_of};
#[allow(unused_imports)]
use super::{
    affected, binding, binding_findings, blocked, bound_to, by_file, changed, code_rank, confirmed,
    confirms, cycle_finding, decision, existing_row, finding_rank, findings_to, has_change,
    input_findings, kind_of, mentioned, misbound, missing_findings, parent_finding, patch_of,
    patches_to, phase_findings, project_contested, project_finding, resolution, some_field_conflict,
    sorted_findings, source_ids, sources_of, standing_changes, state_findings, thread_patch,
    unconfirmed, view_of, Decision, Phase, ThreadView,
};

verus! {

fn insert_id(ids: &mut Vec<String>, id: &String, done: Ghost<Seq<Seq<char>>>)
    requires
        old(ids).deep_view() == sorted_texts(done@),
    ensures
        final(ids).deep_view() == sorted_texts(done@.push(id@)),
{
    insert_text(ids, id);
    assert(done@.push(id@).drop_last() =~= done@);
    assert(done@.push(id@).last() == id@);
}

/// The threads that are resolved, in order.
fn affected_ids(input: &ResolutionInput) -> (r: Vec<String>)
    ensures
        r.deep_view() == affected(input.deep_view()),
{
    let ghost facts = input.deep_view();
    let ghost threads = Seq::new(facts.threads.len(), |i: int| facts.threads[i].thread_id);
    let ghost parents = Seq::new(facts.edges.len(), |i: int| facts.edges[i].parent);
    let ghost children = Seq::new(facts.edges.len(), |i: int| facts.edges[i].child);
    let ghost sessions = Seq::new(facts.sessions.len(), |i: int| facts.sessions[i].thread_id);
    let ghost owners = Seq::new(
        facts.rollouts.len(),
        |i: int| facts.rollouts[i].owning_thread_id,
    );
    let ghost rows = Seq::new(facts.existing.len(), |i: int| facts.existing[i].thread_id);
    let mut ids: Vec<String> = Vec::new();
    let ghost mut done: Seq<Seq<char>> = Seq::empty();
    assert(ids.deep_view() =~= Seq::<Seq<char>>::empty());
    let mut i: usize = 0;
    while i < input.state_snapshot.threads.len()
        invariant
            i <= input.state_snapshot.threads.len(),
            facts == input.deep_view(),
            threads == Seq::new(facts.threads.len(), |i: int| facts.threads[i].thread_id),
            done == threads.take(i as int),
            ids.deep_view() == sorted_texts(done),
        decreases input.state_snapshot.threads.len() - i,
    {
        insert_id(&mut ids, &input.state_snapshot.threads[i].thread_id, Ghost(done));
        proof {
            done = done.push(threads[i as int]);
            assert(done =~= threads.take(i + 1));
        }
        i = i + 1;
    }
    let ghost first = threads;
    proof {
        assert(done =~= first + parents.take(0));
    }
    let mut i: usize = 0;
    while i < input.state_snapshot.spawn_edges.len()
        invariant
            i <= input.state_snapshot.spawn_edges.len(),
            facts == input.deep_view(),
            parents == Seq::new(facts.edges.len(), |i: int| facts.edges[i].parent),
            done == first + parents.take(i as int),
            ids.deep_view() == sorted_texts(done),
        decreases input.state_snapshot.spawn_edges.len() - i,
    {
        insert_id(&mut ids, &input.state_snapshot.spawn_edges[i].parent_thread_id, Ghost(done));
        proof {
            done = done.push(parents[i as int]);
            assert(done =~= first + parents.take(i + 1));
        }
        i = i + 1;
    }
    let ghost second = first + parents;
    proof {
        assert(done =~= second + children.take(0));
    }
    let mut i: usize = 0;
    while i < input.state_snapshot.spawn_edges.len()
        invariant
            i <= input.state_snapshot.spawn_edges.len(),
            facts == input.deep_view(),
            children == Seq::new(facts.edges.len(), |i: int| facts.edges[i].child),
            done == second + children.take(i as int),
            ids.deep_view() == sorted_texts(done),
        decreases input.state_snapshot.spawn_edges.len() - i,
    {
        insert_id(&mut ids, &input.state_snapshot.spawn_edges[i].child_thread_id, Ghost(done));
        proof {
            done = done.push(children[i as int]);
            assert(done =~= second + children.take(i + 1));
        }
        i = i + 1;
    }
    let ghost third = second + children;
    proof {
        assert(done =~= third + sessions.take(0));
    }
    let mut i: usize = 0;
    while i < input.session_name_snapshot.facts.len()
        invariant
            i <= input.session_name_snapshot.facts.len(),
            facts == input.deep_view(),
            sessions == Seq::new(facts.sessions.len(), |i: int| facts.sessions[i].thread_id),
            done == third + sessions.take(i as int),
            ids.deep_view() == sorted_texts(done),
        decreases input.session_name_snapshot.facts.len() - i,
    {
        insert_id(&mut ids, &input.session_name_snapshot.facts[i].thread_id, Ghost(done));
        proof {
            done = done.push(sessions[i as int]);
            assert(done =~= third + sessions.take(i + 1));
        }
        i = i + 1;
    }
    let ghost fourth = third + sessions;
    proof {
        assert(done =~= fourth + owners.take(0));
    }
    let mut i: usize = 0;
    while i < input.rollout_facts.len()
        invariant
            i <= input.rollout_facts.len(),
            facts == input.deep_view(),
            owners == Seq::new(facts.rollouts.len(), |i: int| facts.rollouts[i].owning_thread_id),
            done == fourth + owners.take(i as int),
            ids.deep_view() == sorted_texts(done),
        decreases input.rollout_facts.len() - i,
    {
        insert_id(&mut ids, &input.rollout_facts[i].owning_thread_id, Ghost(done));
        proof {
            done = done.push(owners[i as int]);
            assert(done =~= fourth + owners.take(i + 1));
        }
        i = i + 1;
    }
    let ghost fifth = fourth + owners;
    proof {
        assert(facts.sources.take(0) =~= Seq::<SourceFacts>::empty());
        assert(done =~= fifth + source_ids(facts.sources.take(0)));
    }
    let mut i: usize = 0;
    while i < input.source_file_observations.len()
        invariant
            i <= input.source_file_observations.len(),
            facts == input.deep_view(),
            done == fifth + source_ids(facts.sources.take(i as int)),
            ids.deep_view() == sorted_texts(done),
        decreases input.source_file_observations.len() - i,
    {
        proof {
            assert(facts.sources.take(i + 1).drop_last() =~= facts.sources.take(i as int));
            assert(facts.sources.take(i + 1).last() == facts.sources[i as int]);
        }
        if let Some(id) = &input.source_file_observations[i].thread_id {
            insert_id(&mut ids, id, Ghost(done));
            proof {
                done = done.push(id@);
                assert(done =~= fifth + source_ids(facts.sources.take(i + 1)));
            }
        }
        i = i + 1;
    }
    let ghost sixth = fifth + source_ids(facts.sources);
    proof {
        assert(facts.sources.take(facts.sources.len() as int) =~= facts.sources);
        assert(done =~= sixth + rows.take(0));
    }
    let mut i: usize = 0;
    while i < input.existing_threads.len()
        invariant
            i <= input.existing_threads.len(),
            facts == input.deep_view(),
            rows == Seq::new(facts.existing.len(), |i: int| facts.existing[i].thread_id),
            done == sixth + rows.take(i as int),
            ids.deep_view() == sorted_texts(done),
        decreases input.existing_threads.len() - i,
    {
        insert_id(&mut ids, &input.existing_threads[i].thread_id, Ghost(done));
        proof {
            done = done.push(rows[i as int]);
            assert(done =~= sixth + rows.take(i + 1));
        }
        i = i + 1;
    }
    assert(done =~= mentioned(facts));
    ids
}

/// Notes the facts of the state index that contradict the one chosen so far.
fn note_state_conflicts(diagnostics: &mut Vec<MetadataDiagnostic>, threads: &Vec<StateThreadFact>)
    ensures
        final(diagnostics).deep_view() == old(diagnostics).deep_view() + state_findings(
            threads.deep_view(),
        ),
{
    let ghost all = threads.deep_view();
    let ghost before = diagnostics.deep_view();
    let mut i: usize = 0;
    proof {
        assert(all.take(0) =~= Seq::<IndexedThread>::empty());
        assert(before + state_findings(all.take(0)) =~= before);
    }
    while i < threads.len()
        invariant
            i <= threads.len(),
            all == threads.deep_view(),
            diagnostics.deep_view() == before + state_findings(all.take(i as int)),
        decreases threads.len() - i,
    {
        let fact: &StateThreadFact = &threads[i];
        let ghost earlier = state_findings(all.take(i as int));
        proof {
            assert(all.take(i + 1).drop_last() =~= all.take(i as int));
            assert(all.take(i + 1).last() == all[i as int]);
        }
        if let Some(current) = find_state_fact(threads, i, &fact.thread_id) {
            if state_fact_value_key(fact) != state_fact_value_key(current) {
                note(
                    diagnostics,
                    MetadataDiagnosticCode::FieldConflict,
                    MetadataDiagnosticSeverity::Conflict,
                    Some(fact.thread_id.clone()),
                    None,
                    None,
                    MetadataSourceKind::StateIndex,
                );
                proof {
                    let made = state_findings(all.take(i + 1)).last();
                    assert((before + earlier).push(made) =~= before + earlier.push(made));
                }
            }
        }
        i = i + 1;
    }
    assert(all.take(all.len() as int) =~= all);
}

/// The places of the files of a thread, by number of the file.
fn owned_sources(sources: &Vec<SourceFileState>, id: &String) -> (r: Vec<usize>)
    ensures
        forall|i: int| 0 <= i < r@.len() ==> (#[trigger] r@[i]) < sources@.len(),
        sources_at(sources.deep_view(), r@) == sources_of(sources.deep_view(), id@),
{
    let ghost all = sources.deep_view();
    let ghost rank = |a: SourceFacts, b: SourceFacts| by_file(a, b);
    let mut places: Vec<usize> = Vec::new();
    let mut i: usize = 0;
    proof {
        assert(all.take(0) =~= Seq::<SourceFacts>::empty());
        assert(sources_at(all, places@) =~= Seq::<SourceFacts>::empty());
    }
    while i < sources.len()
        invariant
            i <= sources.len(),
            all == sources.deep_view(),
            rank == (|a: SourceFacts, b: SourceFacts| by_file(a, b)),
            forall|k: int| 0 <= k < places@.len() ==> (#[trigger] places@[k]) < sources@.len(),
            sources_at(all, places@) == stably_sorted(bound_to(all.take(i as int), id@), rank),
        decreases sources.len() - i,
    {
        let ghost before = bound_to(all.take(i as int), id@);
        proof {
            assert(all.take(i + 1).drop_last() =~= all.take(i as int));
            assert(all.take(i + 1).last() == all[i as int]);
        }
        let owned: bool = match &sources[i].thread_id {
            Some(owner) => *owner == *id,
            None => false,
        };
        if owned {
            let ghost now = sources_at(all, places@);
            let source_file_id: i64 = sources[i].source_file_id;
            let mut at: usize = places.len();
            assert(now.take(at as int) =~= now);
            while at > 0 && sources[places[at - 1]].source_file_id > source_file_id
                invariant
                    at <= places.len(),
                    i < sources.len(),
                    all == sources.deep_view(),
                    now == sources_at(all, places@),
                    source_file_id == all[i as int].source_file_id,
                    rank == (|a: SourceFacts, b: SourceFacts| by_file(a, b)),
                    forall|k: int|
                        0 <= k < places@.len() ==> (#[trigger] places@[k]) < sources@.len(),
                    stable_place(now, all[i as int], rank) == stable_place(
                        now.take(at as int),
                        all[i as int],
                        rank,
                    ),
                decreases at,
            {
                assert(now.take(at as int).last() == now[at - 1]);
                assert(now[at - 1] == all[places@[at - 1] as int]);
                assert(now.take(at as int).drop_last() =~= now.take(at - 1));
                at = at - 1;
            }
            proof {
                if at > 0 {
                    assert(now.take(at as int).last() == now[at - 1]);
                    assert(now[at - 1] == all[places@[at - 1] as int]);
                }
                assert(before.push(all[i as int]).drop_last() =~= before);
                assert(before.push(all[i as int]).last() == all[i as int]);
            }
            places.insert(at, i);
            assert(sources_at(all, places@) =~= now.insert(at as int, all[i as int]));
        }
        i = i + 1;
    }
    assert(all.take(all.len() as int) =~= all);
    places
}

fn has_confirmed(rollouts: &Vec<RolloutThreadFact>, id: &String, source_file_id: i64) -> (r: bool)
    ensures
        r == confirmed(rollouts.deep_view(), id@, source_file_id),
{
    let ghost all = rollouts.deep_view();
    let mut i: usize = 0;
    while i < rollouts.len()
        invariant
            i <= rollouts.len(),
            all == rollouts.deep_view(),
            forall|j: int| 0 <= j < i ==> !confirms(#[trigger] all[j], id@, source_file_id),
        decreases rollouts.len() - i,
    {
        let fact: &RolloutThreadFact = &rollouts[i];
        if fact.source_file_id == source_file_id && fact.owning_thread_id == *id
            && fact.ownership_boundary.confidence == OwnershipConfidence::Confirmed {
            assert(confirms(all[i as int], id@, source_file_id));
            return true;
        }
        i = i + 1;
    }
    false
}

/// Notes the present files of a thread that no fact confirms.
fn note_missing(diagnostics: &mut Vec<MetadataDiagnostic>, input: &ResolutionInput, id: &String)
    ensures
        final(diagnostics).deep_view() == old(diagnostics).deep_view() + missing_findings(
            input.deep_view(),
            id@,
            sources_of(input.deep_view().sources, id@),
        ),
{
    let ghost facts = input.deep_view();
    let ghost before = diagnostics.deep_view();
    let places: Vec<usize> = owned_sources(&input.source_file_observations, id);
    let ghost sources = sources_at(facts.sources, places@);
    let mut i: usize = 0;
    proof {
        assert(sources.take(0) =~= Seq::<SourceFacts>::empty());
        assert(before + missing_findings(facts, id@, sources.take(0)) =~= before);
    }
    while i < places.len()
        invariant
            i <= places.len(),
            facts == input.deep_view(),
            sources == sources_at(facts.sources, places@),
            forall|k: int|
                0 <= k < places@.len() ==> (#[trigger] places@[k])
                    < input.source_file_observations@.len(),
            diagnostics.deep_view() == before + missing_findings(
                facts,
                id@,
                sources.take(i as int),
            ),
        decreases places.len() - i,
    {
        let source: &SourceFileState = &input.source_file_observations[places[i]];
        let ghost earlier = missing_findings(facts, id@, sources.take(i as int));
        proof {
            assert(sources.take(i + 1).drop_last() =~= sources.take(i as int));
            assert(sources.take(i + 1).last() == source.deep_view());
        }
        if source.file_status == FileStatus::Present && !has_confirmed(
            &input.rollout_facts,
            id,
            source.source_file_id,
        ) {
            note(
                diagnostics,
                MetadataDiagnosticCode::MissingSafeFact,
                MetadataDiagnosticSeverity::Warning,
                Some(id.clone()),
                Some(source.source_file_id),
                None,
                MetadataSourceKind::SourceObservation,
            );
            proof {
                let made = missing_findings(facts, id@, sources.take(i + 1)).last();
                assert((before + earlier).push(made) =~= before + earlier.push(made));
            }
        }
        i = i + 1;
    }
    assert(sources.take(sources.len() as int) =~= sources);
}

fn bound_thread<'a>(sources: &'a Vec<SourceFileState>, source_file_id: i64) -> (r: Option<&'a String>)
    ensures
        match r {
            Some(id) => binding(sources.deep_view(), source_file_id) == Some(id@),
            None => binding(sources.deep_view(), source_file_id) is None,
        },
{
    let ghost all = sources.deep_view();
    let mut i: usize = 0;
    assert(all.skip(0) =~= all);
    while i < sources.len()
        invariant
            i <= sources.len(),
            all == sources.deep_view(),
            binding(all, source_file_id) == binding(all.skip(i as int), source_file_id),
        decreases sources.len() - i,
    {
        proof {
            assert(all.skip(i as int).first() == all[i as int]);
            assert(all.skip(i as int).drop_first() =~= all.skip(i + 1));
        }
        if sources[i].source_file_id == source_file_id {
            return match &sources[i].thread_id {
                Some(id) => Some(id),
                None => None,
            };
        }
        i = i + 1;
    }
    None
}

fn is_misbound(input: &ResolutionInput, fact: &RolloutThreadFact) -> (r: bool)
    ensures
        r == misbound(input.deep_view(), fact.deep_view()),
{
    match bound_thread(&input.source_file_observations, fact.source_file_id) {
        Some(id) => *id != fact.owning_thread_id,
        None => false,
    }
}

/// Notes the facts whose file is bound to another thread.
fn note_misbound(diagnostics: &mut Vec<MetadataDiagnostic>, input: &ResolutionInput)
    ensures
        final(diagnostics).deep_view() == old(diagnostics).deep_view() + binding_findings(
            input.deep_view(),
            input.deep_view().rollouts,
        ),
{
    let ghost facts = input.deep_view();
    let ghost all = facts.rollouts;
    let ghost before = diagnostics.deep_view();
    let mut i: usize = 0;
    proof {
        assert(all.take(0) =~= Seq::<ThreadFacts>::empty());
        assert(before + binding_findings(facts, all.take(0)) =~= before);
    }
    while i < input.rollout_facts.len()
        invariant
            i <= input.rollout_facts.len(),
            facts == input.deep_view(),
            all == facts.rollouts,
            diagnostics.deep_view() == before + binding_findings(facts, all.take(i as int)),
        decreases input.rollout_facts.len() - i,
    {
        let fact: &RolloutThreadFact = &input.rollout_facts[i];
        let ghost earlier = binding_findings(facts, all.take(i as int));
        proof {
            assert(all.take(i + 1).drop_last() =~= all.take(i as int));
            assert(all.take(i + 1).last() == all[i as int]);
        }
        if is_misbound(input, fact) {
            note(
                diagnostics,
                MetadataDiagnosticCode::FactBindingConflict,
                MetadataDiagnosticSeverity::Conflict,
                Some(fact.owning_thread_id.clone()),
                Some(fact.source_file_id),
                None,
                MetadataSourceKind::Rollout,
            );
            proof {
                let made = binding_findings(facts, all.take(i + 1)).last();
                assert((before + earlier).push(made) =~= before + earlier.push(made));
            }
        }
        i = i + 1;
    }
    assert(all.take(all.len() as int) =~= all);
}

/// Whether a thread is left alone.
fn is_blocked(input: &ResolutionInput, id: &String) -> (r: bool)
    ensures
        r == blocked(input.deep_view(), id@),
{
    let ghost facts = input.deep_view();
    let mut i: usize = 0;
    while i < input.source_file_observations.len()
        invariant
            i <= input.source_file_observations.len(),
            facts == input.deep_view(),
            forall|j: int|
                0 <= j < i ==> !((#[trigger] facts.sources[j]).thread_id == Some(id@)
                    && unconfirmed(facts, id@, facts.sources[j])),
        decreases input.source_file_observations.len() - i,
    {
        let source: &SourceFileState = &input.source_file_observations[i];
        let owned: bool = match &source.thread_id {
            Some(owner) => *owner == *id,
            None => false,
        };
        if owned && source.file_status == FileStatus::Present && !has_confirmed(
            &input.rollout_facts,
            id,
            source.source_file_id,
        ) {
            assert(facts.sources[i as int].thread_id == Some(id@) && unconfirmed(
                facts,
                id@,
                facts.sources[i as int],
            ));
            return true;
        }
        i = i + 1;
    }
    let mut i: usize = 0;
    while i < input.rollout_facts.len()
        invariant
            i <= input.rollout_facts.len(),
            facts == input.deep_view(),
            forall|j: int|
                0 <= j < facts.sources.len() ==> !((#[trigger] facts.sources[j]).thread_id == Some(
                    id@,
                ) && unconfirmed(facts, id@, facts.sources[j])),
            forall|j: int|
                0 <= j < i ==> !((#[trigger] facts.rollouts[j]).owning_thread_id == id@
                    && misbound(facts, facts.rollouts[j])),
        decreases input.rollout_facts.len() - i,
    {
        let fact: &RolloutThreadFact = &input.rollout_facts[i];
        if fact.owning_thread_id == *id && is_misbound(input, fact) {
            assert(facts.rollouts[i as int].owning_thread_id == id@ && misbound(
                facts,
                facts.rollouts[i as int],
            ));
            return true;
        }
        i = i + 1;
    }
    false
}

fn find_existing<'a>(existing: &'a Vec<ExistingThread>, id: &String) -> (r: Option<
    &'a ExistingThread,
>)
    ensures
        row_view(r) == existing_row(existing.deep_view(), id@),
{
    let ghost all = existing.deep_view();
    let mut i: usize = existing.len();
    assert(all.take(i as int) =~= all);
    while i > 0
        invariant
            i <= existing.len(),
            all == existing.deep_view(),
            existing_row(all, id@) == existing_row(all.take(i as int), id@),
        decreases i,
    {
        proof {
            assert(all.take(i as int).last() == all[i - 1]);
            assert(all.take(i as int).drop_last() =~= all.take(i - 1));
        }
        i = i - 1;
        if existing[i].thread_id == *id {
            return Some(&existing[i]);
        }
    }
    None
}

pub open spec fn row_view(row: Option<&ExistingThread>) -> Option<ExistingFacts> {
    match row {
        Some(row) => Some(row.deep_view()),
        None => None,
    }
}

fn has_field_conflict(facts: &Vec<RolloutThreadFact>) -> (r: bool)
    ensures
        r == some_field_conflict(facts.deep_view()),
{
    let mut i: usize = 0;
    while i < facts.len()
        invariant
            i <= facts.len(),
            forall|j: int| 0 <= j < i ==> !(#[trigger] facts.deep_view()[j]).has_conflict,
        decreases facts.len() - i,
    {
        if facts[i].has_conflict {
            assert(facts.deep_view()[i as int].has_conflict);
            return true;
        }
        i = i + 1;
    }
    false
}

fn resolve_project_kind(
    platform: Platform,
    snapshot: &GlobalStateSnapshot,
    id: &String,
    path: &Option<String>,
    existing: Option<&ExistingThread>,
) -> (r: (ProjectKind, bool))
    ensures
        r.0 == kind_of(platform, snapshot.deep_view(), id@, path.deep_view(), row_view(existing)),
        r.1 == project_contested(snapshot.deep_view(), id@),
{
    let by_path: ProjectKind = if has_valid_project_path(platform, path) {
        ProjectKind::Project
    } else {
        ProjectKind::Unknown
    };
    match snapshot.status {
        GlobalStateStatus::Complete => {
            let projectless: bool = snapshot.is_projectless(id.as_str());
            if projectless && snapshot.has_assignment(id.as_str()) {
                (ProjectKind::Unknown, true)
            } else if projectless {
                (ProjectKind::Projectless, false)
            } else {
                (by_path, false)
            }
        },
        GlobalStateStatus::NotPresent => (by_path, false),
        GlobalStateStatus::Malformed | GlobalStateStatus::Unreadable => (
            match existing {
                Some(row) => row.project_kind,
                None => ProjectKind::Unknown,
            },
            false,
        ),
    }
}

fn changed_text(existing: Option<&String>, desired: Option<String>) -> (r: Patch<String>)
    ensures
        r.deep_view() == changed(text_view(existing), desired.deep_view()),
{
    match desired {
        Some(desired) => {
            let same: bool = match existing {
                Some(existing) => *existing == desired,
                None => false,
            };
            if same {
                Patch::Keep
            } else {
                Patch::Assign(desired)
            }
        },
        None => Patch::Keep,
    }
}

pub open spec fn text_view(text: Option<&String>) -> Option<Seq<char>> {
    match text {
        Some(text) => Some(text@),
        None => None,
    }
}

fn changed_time(existing: Option<i64>, desired: Option<i64>) -> (r: Patch<i64>)
    ensures
        r == changed(existing, desired),
{
    match (existing, desired) {
        (Some(a), Some(b)) => if a == b {
            Patch::Keep
        } else {
            Patch::Assign(b)
        },
        (None, Some(b)) => Patch::Assign(b),
        (_, None) => Patch::Keep,
    }
}

fn changed_role(existing: Option<AgentRole>, desired: AgentRole) -> (r: Patch<AgentRole>)
    ensures
        r == changed(existing, Some(desired)),
{
    match existing {
        Some(role) => if role == desired {
            Patch::Keep
        } else {
            Patch::Assign(desired)
        },
        None => Patch::Assign(desired),
    }
}

/// Everything that is known of one thread.
struct KnownThread<'a> {
    state: Option<&'a StateThreadFact>,
    session: Option<&'a SessionNameFact>,
    rollouts: Vec<RolloutThreadFact>,
    physical: Option<&'a SourceFileState>,
    existing: Option<&'a ExistingThread>,
    relation: &'a Relationship,
    cyclic: bool,
    role: Option<AgentRole>,
    root: Option<String>,
    root_state: RootState,
}

impl<'a> KnownThread<'a> {
    spec fn is_view(self, v: ThreadView) -> bool {
        &&& super::fields::state_view(self.state) == v.state
        &&& super::fields::session_view(self.session) == v.session
        &&& self.rollouts.deep_view() == v.rollouts
        &&& match self.physical {
            Some(source) => super::fields::physical_source(v.sources) == Some(source.deep_view()),
            None => super::fields::physical_source(v.sources) is None,
        }
        &&& row_view(self.existing) == v.existing
        &&& self.relation.deep_view() == v.relation
        &&& self.cyclic == v.cyclic
        &&& self.role == v.role
        &&& self.root.deep_view() == v.root
        &&& self.root_state == v.root_state
    }
}

fn known_thread<'a>(input: &'a ResolutionInput, graph: &'a Graph, i: usize) -> (r: KnownThread<'a>)
    requires
        graph.fits(input.deep_view()),
        i < graph.ids@.len(),
    ensures
        r.is_view(view_of(input.deep_view(), graph.ids.deep_view(), graph.ids@[i as int]@)),
{
    let id: &String = &graph.ids[i];
    let ghost ids = graph.ids.deep_view();
    let ghost facts = input.deep_view();
    let threads: &Vec<StateThreadFact> = &input.state_snapshot.threads;
    proof {
        assert(threads.deep_view().take(threads@.len() as int) =~= threads.deep_view());
        assert(ids[i as int] == id@);
        assert(graph.cyclic@[i as int] == on_cycle(facts, ids, ids[i as int]));
        assert(graph.roles@[i as int] == role_of(facts, ids, ids[i as int]));
        assert(graph.relations.deep_view()[i as int] == relation(facts, ids[i as int]));
    }
    let places: Vec<usize> = owned_sources(&input.source_file_observations, id);
    let (root, root_state): (Option<String>, RootState) = walk_root(input, graph, id);
    KnownThread {
        state: find_state_fact(threads, threads.len(), id),
        session: input.session_name_snapshot.get(id),
        rollouts: owned_rollouts(&input.rollout_facts, id),
        physical: select_physical_source(&input.source_file_observations, &places),
        existing: find_existing(&input.existing_threads, id),
        relation: &graph.relations[i],
        cyclic: graph.cyclic[i],
        role: graph.roles[i],
        root,
        root_state,
    }
}

/// What resolution decides on one thread.
struct Decided {
    title: Option<String>,
    project_name: Option<String>,
    project_path: Option<String>,
    project_kind: ProjectKind,
    contested: bool,
    metadata_model: Option<String>,
    created_at_ms: Option<i64>,
    updated_at_ms: Option<i64>,
    archived: Option<bool>,
    current_rollout_path: Option<String>,
    full: bool,
    quality: MetadataQualityStatus,
}

impl Decided {
    spec fn is_decision(self, d: Decision) -> bool {
        &&& self.title.deep_view() == d.title
        &&& self.project_name.deep_view() == d.project_name
        &&& self.project_path.deep_view() == d.project_path
        &&& self.project_kind == d.project_kind
        &&& self.metadata_model.deep_view() == d.metadata_model
        &&& self.created_at_ms == d.created_at_ms
        &&& self.updated_at_ms == d.updated_at_ms
        &&& self.archived == d.archived
        &&& self.current_rollout_path.deep_view() == d.current_rollout_path
        &&& self.full == d.full
        &&& self.quality == d.quality
    }
}

fn decide(input: &ResolutionInput, id: &String, known: &KnownThread, v: Ghost<ThreadView>) -> (r:
    Decided)
    requires
        known.is_view(v@),
        !blocked(input.deep_view(), id@),
    ensures
        r.is_decision(decision(input.deep_view(), id@, v@)),
        r.contested == project_contested(input.deep_view().global, id@),
{
    proof {
        reveal(decision);
    }
    let state_complete: bool = input.state_snapshot.status.is_complete();
    let full: bool = state_complete && input.state_snapshot.spawn_edges_status.is_complete()
        && input.session_name_snapshot.status.is_complete();
    let titled: bool = match known.existing {
        Some(row) => row.title.is_some(),
        None => false,
    };
    let title: Option<String> = resolve_thread_title(
        input.platform,
        state_complete,
        known.role,
        known.state,
        known.session,
        &known.rollouts,
        titled,
    );
    let (rollout_cwd, cwd_conflict): (Option<String>, bool) = select_rollout_cwd(&known.rollouts);
    let cwd: Option<String> = match rollout_cwd {
        Some(cwd) => Some(cwd),
        None => match known.state {
            Some(fact) => fact.cwd.clone(),
            None => None,
        },
    };
    let project_path: Option<String> = if has_valid_project_path(input.platform, &cwd) {
        cwd
    } else {
        None
    };
    let project_name: Option<String> = match &project_path {
        Some(path) => project_name_from_path(input.platform, path.as_str()),
        None => None,
    };
    let (project_kind, contested): (ProjectKind, bool) = resolve_project_kind(
        input.platform,
        &input.global_state_snapshot,
        id,
        &project_path,
        known.existing,
    );
    let (rollout_model, model_conflict): (Option<String>, bool) = select_rollout_model(
        &known.rollouts,
    );
    let (created, latest): (Option<i64>, Option<i64>) = rollout_times(&known.rollouts);
    let session_updated: Option<i64> = match known.session {
        Some(fact) => fact.updated_at_ms,
        None => None,
    };
    let metadata_model: Option<String> = if !state_complete {
        None
    } else {
        match known.state {
            Some(fact) => match &fact.metadata_model {
                Some(model) => Some(model.clone()),
                None => rollout_model,
            },
            None => rollout_model,
        }
    };
    let created_at_ms: Option<i64> = if !state_complete {
        None
    } else {
        match known.state {
            Some(fact) => match fact.created_at_ms {
                Some(at) => Some(at),
                None => created,
            },
            None => created,
        }
    };
    let updated_at_ms: Option<i64> = if !state_complete {
        None
    } else {
        match known.state {
            Some(fact) => match fact.updated_at_ms {
                Some(at) => Some(at),
                None => greater_time(latest, session_updated),
            },
            None => greater_time(latest, session_updated),
        }
    };
    let physical_archived: Option<bool> = match known.physical {
        Some(source) => Some(source.source_area == SourceArea::ArchivedSessions),
        None => None,
    };
    let physical_path: Option<String> = match known.physical {
        Some(source) => Some(source.current_path.clone()),
        None => None,
    };
    let archived: Option<bool> = if !state_complete {
        None
    } else {
        match known.state {
            Some(fact) => match fact.archived {
                Some(archived) => Some(archived),
                None => physical_archived,
            },
            None => physical_archived,
        }
    };
    let current_rollout_path: Option<String> = if !state_complete {
        None
    } else {
        match known.state {
            Some(fact) => match &fact.rollout_path {
                Some(path) => Some(path.clone()),
                None => physical_path,
            },
            None => physical_path,
        }
    };
    let role_unsettled: bool = match known.role {
        None => true,
        Some(AgentRole::Unknown) => true,
        _ => false,
    };
    let conflict: bool = known.relation.conflict || known.cyclic || has_field_conflict(
        &known.rollouts,
    ) || cwd_conflict || contested || model_conflict;
    let partial: bool = !full || role_unsettled || known.root_state != RootState::Resolved
        || title.is_none() || project_path.is_none() || created_at_ms.is_none()
        || updated_at_ms.is_none();
    let quality: MetadataQualityStatus = if conflict {
        MetadataQualityStatus::Conflict
    } else if partial {
        MetadataQualityStatus::Partial
    } else {
        MetadataQualityStatus::Complete
    };
    Decided {
        title,
        project_name,
        project_path,
        project_kind,
        contested,
        metadata_model,
        created_at_ms,
        updated_at_ms,
        archived,
        current_rollout_path,
        full,
        quality,
    }
}

/// The changes of parent, role and root.
fn standing(id: &String, known: &KnownThread, v: Ghost<ThreadView>) -> (r: (
    Patch<String>,
    Patch<AgentRole>,
    Patch<String>,
))
    requires
        known.is_view(v@),
    ensures
        (r.0.deep_view(), r.1, r.2.deep_view()) == standing_changes(id@, v@),
{
    let parent: Option<&String> = match known.existing {
        Some(row) => match &row.parent_thread_id {
            Some(parent) => Some(parent),
            None => None,
        },
        None => None,
    };
    let role: Option<AgentRole> = match known.existing {
        Some(row) => Some(row.agent_role),
        None => None,
    };
    let root: Option<&String> = match known.existing {
        Some(row) => match &row.root_session_id {
            Some(root) => Some(root),
            None => None,
        },
        None => None,
    };
    match (&known.relation.parent, known.role) {
        (ParentChoice::NoneConfirmed, Some(AgentRole::Main)) => {
            if known.root_state != RootState::Resolved {
                return (Patch::Keep, Patch::Keep, Patch::Keep);
            }
            (
                if parent.is_some() {
                    Patch::Clear
                } else {
                    Patch::Keep
                },
                changed_role(role, AgentRole::Main),
                changed_text(root, Some(id.clone())),
            )
        },
        (ParentChoice::Confirmed(above), Some(AgentRole::Subagent)) => {
            if known.root_state == RootState::Resolved {
                (
                    changed_text(parent, Some(above.clone())),
                    changed_role(role, AgentRole::Subagent),
                    changed_text(root, known.root.clone()),
                )
            } else if known.root_state == RootState::Unknown {
                (
                    changed_text(parent, Some(above.clone())),
                    changed_role(role, AgentRole::Subagent),
                    Patch::Keep,
                )
            } else {
                (Patch::Keep, Patch::Keep, Patch::Keep)
            }
        },
        _ => (Patch::Keep, Patch::Keep, Patch::Keep),
    }
}

fn patch_has_field_change(patch: &ResolvedThreadPatch) -> (r: bool)
    ensures
        r == has_change(patch.deep_view()),
{
    !patch.parent_thread_id.is_keep() || !patch.root_session_id.is_keep()
        || !patch.agent_role.is_keep() || !patch.title.is_keep() || !patch.project_name.is_keep()
        || !patch.project_path.is_keep() || !patch.project_kind.is_keep()
        || !patch.metadata_model.is_keep() || !patch.created_at_ms.is_keep()
        || !patch.updated_at_ms.is_keep() || !patch.archived.is_keep()
        || !patch.current_rollout_path.is_keep()
}

/// The field of the row, if there is a row and it has the field.
fn field_of<'a>(field: &'a Option<String>) -> (r: Option<&'a String>)
    ensures
        text_view(r) == field.deep_view(),
{
    match field {
        Some(text) => Some(text),
        None => None,
    }
}

/// The patch that a decision asks for.
fn build_patch(
    id: &String,
    resolved_at_ms: i64,
    known: &KnownThread,
    decided: Decided,
    v: Ghost<ThreadView>,
    d: Ghost<Decision>,
) -> (r: ResolvedThreadPatch)
    requires
        known.is_view(v@),
        decided.is_decision(d@),
    ensures
        r.deep_view() == patch_of(id@, resolved_at_ms, v@, d@),
{
    let (parent, role, root): (Patch<String>, Patch<AgentRole>, Patch<String>) = standing(
        id,
        known,
        v,
    );
    let row: Option<&ExistingThread> = known.existing;
    let (title, name, path, model, file): (
        Option<&String>,
        Option<&String>,
        Option<&String>,
        Option<&String>,
        Option<&String>,
    ) = match row {
        Some(row) => (
            field_of(&row.title),
            field_of(&row.project_name),
            field_of(&row.project_path),
            field_of(&row.metadata_model),
            field_of(&row.current_rollout_path),
        ),
        None => (None, None, None, None, None),
    };
    let (created, updated): (Option<i64>, Option<i64>) = match row {
        Some(row) => (row.created_at_ms, row.updated_at_ms),
        None => (None, None),
    };
    let project_kind: Patch<ProjectKind> = match row {
        Some(row) => if row.project_kind == decided.project_kind {
            Patch::Keep
        } else {
            Patch::Assign(decided.project_kind)
        },
        None => Patch::Assign(decided.project_kind),
    };
    let archived: Patch<bool> = match (row, decided.archived) {
        (Some(row), Some(archived)) => if row.archived == archived {
            Patch::Keep
        } else {
            Patch::Assign(archived)
        },
        (None, Some(archived)) => Patch::Assign(archived),
        (_, None) => Patch::Keep,
    };
    ResolvedThreadPatch {
        thread_id: id.clone(),
        resolved_at_ms,
        full_resolution: decided.full,
        metadata_quality_status: decided.quality,
        parent_thread_id: parent,
        root_session_id: root,
        agent_role: role,
        title: changed_text(title, decided.title),
        project_name: changed_text(name, decided.project_name),
        project_path: changed_text(path, decided.project_path),
        project_kind,
        metadata_model: changed_text(model, decided.metadata_model),
        created_at_ms: changed_time(created, decided.created_at_ms),
        updated_at_ms: changed_time(updated, decided.updated_at_ms),
        archived,
        current_rollout_path: changed_text(file, decided.current_rollout_path),
    }
}

/// The patch of a thread that is not left alone, if it asks for anything, and whether its
/// project is contested.
fn resolve_thread(input: &ResolutionInput, graph: &Graph, i: usize) -> (r: (
    Option<ResolvedThreadPatch>,
    bool,
))
    requires
        graph.fits(input.deep_view()),
        i < graph.ids@.len(),
        !blocked(input.deep_view(), graph.ids@[i as int]@),
    ensures
        r.0.deep_view() == thread_patch(
            input.deep_view(),
            graph.ids.deep_view(),
            graph.ids@[i as int]@,
        ),
        r.1 == project_contested(input.deep_view().global, graph.ids@[i as int]@),
{
    let id: &String = &graph.ids[i];
    let ghost facts = input.deep_view();
    let ghost v = view_of(facts, graph.ids.deep_view(), id@);
    let ghost d = decision(facts, id@, v);
    let known: KnownThread = known_thread(input, graph, i);
    let decided: Decided = decide(input, id, &known, Ghost(v));
    let contested: bool = decided.contested;
    match ResolvedThreadPatch::new(id.as_str(), input.resolved_at_ms) {
        Ok(_) => {},
        Err(_) => {
            return (None, contested);
        },
    }
    let quality_changed: bool = match known.existing {
        Some(row) => row.metadata_quality_status != decided.quality,
        None => true,
    };
    let patch: ResolvedThreadPatch = build_patch(
        id,
        input.resolved_at_ms,
        &known,
        decided,
        Ghost(v),
        Ghost(d),
    );
    if !patch_has_field_change(&patch) && !quality_changed {
        return (None, contested);
    }
    (Some(patch), contested)
}

fn code_index(code: MetadataDiagnosticCode) -> (r: u64)
    ensures
        r == code_rank(code),
{
    match code {
        MetadataDiagnosticCode::InvalidResolutionTime => 0,
        MetadataDiagnosticCode::MissingSafeFact => 1,
        MetadataDiagnosticCode::FactBindingConflict => 2,
        MetadataDiagnosticCode::FieldConflict => 3,
        MetadataDiagnosticCode::ParentConflict => 4,
        MetadataDiagnosticCode::RoleConflict => 5,
        MetadataDiagnosticCode::ParentMissing => 6,
        MetadataDiagnosticCode::ParentCycle => 7,
        MetadataDiagnosticCode::ParentDepthExceeded => 8,
        MetadataDiagnosticCode::ProjectAssignmentConflict => 9,
    }
}

fn compare_fields(a: Option<&'static str>, b: Option<&'static str>) -> (r: Rank)
    ensures
        r == optional_text_rank(field_name(a), field_name(b)),
{
    match (a, b) {
        (None, None) => Rank::Same,
        (None, Some(_)) => Rank::Before,
        (Some(_), None) => Rank::After,
        (Some(a), Some(b)) => compare_texts(a, b),
    }
}

fn compare_diagnostics(a: &MetadataDiagnostic, b: &MetadataDiagnostic) -> (r: Rank)
    ensures
        r == finding_rank(a.deep_view(), b.deep_view()),
{
    compare_optional_texts(&a.thread_id, &b.thread_id).or_else(
        compare_u64(code_index(a.code), code_index(b.code)).or_else(
            compare_optional_i64(a.source_file_id, b.source_file_id).or_else(
                compare_optional_u64(a.source_start_offset, b.source_start_offset).or_else(
                    compare_fields(a.field, b.field),
                ),
            ),
        ),
    )
}

/// The remarks in order, equal ones in the order in which they were made.
fn sort_diagnostics(diagnostics: Vec<MetadataDiagnostic>) -> (r: Vec<MetadataDiagnostic>)
    ensures
        r.deep_view() == sorted_findings(diagnostics.deep_view()),
{
    let ghost all = diagnostics.deep_view();
    let ghost rank = |a: Finding, b: Finding| finding_rank(a, b);
    let mut rest: Vec<MetadataDiagnostic> = reversed(diagnostics);
    let mut sorted: Vec<MetadataDiagnostic> = Vec::new();
    let ghost mut i: int = 0;
    proof {
        assert(all.take(0) =~= Seq::<Finding>::empty());
        assert(sorted.deep_view() =~= Seq::<Finding>::empty());
    }
    while rest.len() > 0
        invariant
            0 <= i,
            i + rest@.len() == all.len(),
            rank == (|a: Finding, b: Finding| finding_rank(a, b)),
            forall|k: int|
                0 <= k < rest@.len() ==> (#[trigger] rest@[k]).deep_view() == all[all.len() - 1 - k],
            sorted.deep_view() == stably_sorted(all.take(i), rank),
        decreases rest.len(),
    {
        let ghost n = rest@.len();
        if let Some(item) = rest.pop() {
            proof {
                assert(item.deep_view() == all[i]);
                assert(all.take(i + 1).drop_last() =~= all.take(i));
                assert(all.take(i + 1).last() == all[i]);
            }
            insert_diagnostic(&mut sorted, item);
            proof {
                i = i + 1;
            }
        }
    }
    assert(all.take(all.len() as int) =~= all);
    sorted
}

fn reversed(items: Vec<MetadataDiagnostic>) -> (r: Vec<MetadataDiagnostic>)
    ensures
        r@ == items@.reverse(),
{
    let ghost all = items@;
    let mut items: Vec<MetadataDiagnostic> = items;
    let mut r: Vec<MetadataDiagnostic> = Vec::new();
    while items.len() > 0
        invariant
            items@.len() + r@.len() == all.len(),
            items@ == all.take(items@.len() as int),
            forall|i: int| 0 <= i < r@.len() ==> #[trigger] r@[i] == all[all.len() - 1 - i],
        decreases items.len(),
    {
        let ghost n = items@.len();
        if let Some(item) = items.pop() {
            assert(item == all[n - 1]);
            r.push(item);
            assert(items@ =~= all.take(n - 1));
        }
    }
    assert(r@ =~= all.reverse());
    r
}

fn insert_diagnostic(sorted: &mut Vec<MetadataDiagnostic>, item: MetadataDiagnostic)
    ensures
        final(sorted).deep_view() == old(sorted).deep_view().insert(
            stable_place(
                old(sorted).deep_view(),
                item.deep_view(),
                |a: Finding, b: Finding| finding_rank(a, b),
            ),
            item.deep_view(),
        ),
{
    let ghost all = sorted.deep_view();
    let ghost made = item.deep_view();
    let ghost rank = |a: Finding, b: Finding| finding_rank(a, b);
    let mut at: usize = sorted.len();
    assert(all.take(at as int) =~= all);
    while at > 0 && compare_diagnostics(&sorted[at - 1], &item) == Rank::After
        invariant
            at <= sorted.len(),
            all == sorted.deep_view(),
            made == item.deep_view(),
            rank == (|a: Finding, b: Finding| finding_rank(a, b)),
            stable_place(all, made, rank) == stable_place(all.take(at as int), made, rank),
        decreases at,
    {
        assert(all.take(at as int).last() == all[at - 1]);
        assert(all.take(at as int).drop_last() =~= all.take(at - 1));
        at = at - 1;
    }
    proof {
        if at > 0 {
            assert(all.take(at as int).last() == all[at - 1]);
        }
    }
    sorted.insert(at, item);
    assert(sorted.deep_view() =~= all.insert(at as int, made));
}

/// How the threads stand to each other, with the remarks on it.
fn build_graph(input: &ResolutionInput, ids: Vec<String>, diagnostics: &mut Vec<MetadataDiagnostic>) -> (r:
    Graph)
    ensures
        r.ids == ids,
        r.fits(input.deep_view()),
        final(diagnostics).deep_view() == old(diagnostics).deep_view() + findings_to(
            Phase::Relations,
            input.deep_view(),
            ids.deep_view(),
            ids@.len(),
        ) + findings_to(Phase::Cycles, input.deep_view(), ids.deep_view(), ids@.len()),
{
    let ghost facts = input.deep_view();
    let ghost names = ids.deep_view();
    let ghost before = diagnostics.deep_view();
    let mut relations: Vec<Relationship> = Vec::new();
    let mut i: usize = 0;
    assert(before + findings_to(Phase::Relations, facts, names, 0) =~= before);
    while i < ids.len()
        invariant
            i <= ids.len(),
            facts == input.deep_view(),
            names == ids.deep_view(),
            relations@.len() == i,
            forall|j: int|
                0 <= j < i ==> (#[trigger] relations@[j]).deep_view() == relation(facts, names[j]),
            diagnostics.deep_view() == before + findings_to(
                Phase::Relations,
                facts,
                names,
                i as nat,
            ),
        decreases ids.len() - i,
    {
        let ghost earlier = findings_to(Phase::Relations, facts, names, i as nat);
        let related: Relationship = relate(input, &ids[i], diagnostics);
        relations.push(related);
        proof {
            let more = relation_findings(facts, names[i as int]);
            assert((before + earlier) + more =~= before + (earlier + more));
        }
        i = i + 1;
    }
    let ghost middle = diagnostics.deep_view();
    assert(relations_fit(facts, names, relations.deep_view())) by {
        assert forall|j: int| 0 <= j < names.len() implies #[trigger] relations.deep_view()[j]
            == relation(facts, names[j]) by {
            assert(relations@[j].deep_view() == relation(facts, names[j]));
        }
    }
    let mut cycles: Vec<bool> = Vec::new();
    let mut roles: Vec<Option<AgentRole>> = Vec::new();
    let mut i: usize = 0;
    assert(middle + findings_to(Phase::Cycles, facts, names, 0) =~= middle);
    while i < ids.len()
        invariant
            i <= ids.len(),
            facts == input.deep_view(),
            names == ids.deep_view(),
            relations_fit(facts, names, relations.deep_view()),
            cycles@.len() == i,
            roles@.len() == i,
            forall|j: int|
                0 <= j < i ==> #[trigger] cycles@[j] == on_cycle(facts, names, names[j]),
            forall|j: int| 0 <= j < i ==> #[trigger] roles@[j] == role_of(facts, names, names[j]),
            diagnostics.deep_view() == middle + findings_to(Phase::Cycles, facts, names, i as nat),
        decreases ids.len() - i,
    {
        let ghost earlier = findings_to(Phase::Cycles, facts, names, i as nat);
        proof {
            assert(names[i as int] == ids@[i as int]@);
            assert(names.contains(names[i as int]));
            assert(relations.deep_view()[i as int] == relation(facts, names[i as int]));
        }
        let loops: bool = cyclic(&ids, &relations, &ids[i], Ghost(facts));
        if loops {
            note(
                diagnostics,
                MetadataDiagnosticCode::ParentCycle,
                MetadataDiagnosticSeverity::Conflict,
                Some(ids[i].clone()),
                None,
                Some("parent_thread_id"),
                MetadataSourceKind::RelationshipGraph,
            );
            proof {
                let made = cycle_finding(names[i as int]);
                assert((middle + earlier).push(made) =~= middle + (earlier + seq![made]));
            }
        } else {
            assert(earlier + Seq::<Finding>::empty() =~= earlier);
        }
        let role: Option<AgentRole> = resolve_role(input, &ids, &relations[i], loops, &ids[i]);
        cycles.push(loops);
        roles.push(role);
        i = i + 1;
    }
    Graph { ids, relations, cyclic: cycles, roles }
}

fn note_missing_parents(diagnostics: &mut Vec<MetadataDiagnostic>, input: &ResolutionInput, graph: &Graph)
    requires
        graph.fits(input.deep_view()),
    ensures
        final(diagnostics).deep_view() == old(diagnostics).deep_view() + findings_to(
            Phase::Roots,
            input.deep_view(),
            graph.ids.deep_view(),
            graph.ids@.len(),
        ),
{
    let ghost facts = input.deep_view();
    let ghost names = graph.ids.deep_view();
    let ghost before = diagnostics.deep_view();
    let mut i: usize = 0;
    assert(before + findings_to(Phase::Roots, facts, names, 0) =~= before);
    while i < graph.ids.len()
        invariant
            i <= graph.ids.len(),
            facts == input.deep_view(),
            names == graph.ids.deep_view(),
            graph.fits(facts),
            diagnostics.deep_view() == before + findings_to(Phase::Roots, facts, names, i as nat),
        decreases graph.ids.len() - i,
    {
        let ghost earlier = findings_to(Phase::Roots, facts, names, i as nat);
        assert(names[i as int] == graph.ids@[i as int]@);
        let (_, state): (Option<String>, RootState) = walk_root(input, graph, &graph.ids[i]);
        if state == RootState::MissingParent {
            note(
                diagnostics,
                MetadataDiagnosticCode::ParentMissing,
                MetadataDiagnosticSeverity::Warning,
                Some(graph.ids[i].clone()),
                None,
                Some("root_session_id"),
                MetadataSourceKind::RelationshipGraph,
            );
            proof {
                let made = parent_finding(names[i as int]);
                assert((before + earlier).push(made) =~= before + (earlier + seq![made]));
            }
        } else {
            assert(earlier + Seq::<Finding>::empty() =~= earlier);
        }
        i = i + 1;
    }
}

fn note_input(diagnostics: &mut Vec<MetadataDiagnostic>, input: &ResolutionInput, ids: &Vec<String>)
    ensures
        final(diagnostics).deep_view() == old(diagnostics).deep_view() + input_findings(
            input.deep_view(),
            ids.deep_view(),
        ),
{
    let ghost facts = input.deep_view();
    let ghost names = ids.deep_view();
    let ghost start = diagnostics.deep_view();
    note_state_conflicts(diagnostics, &input.state_snapshot.threads);
    let ghost before = diagnostics.deep_view();
    let mut i: usize = 0;
    assert(before + findings_to(Phase::Files, facts, names, 0) =~= before);
    while i < ids.len()
        invariant
            i <= ids.len(),
            facts == input.deep_view(),
            names == ids.deep_view(),
            diagnostics.deep_view() == before + findings_to(Phase::Files, facts, names, i as nat),
        decreases ids.len() - i,
    {
        let ghost earlier = findings_to(Phase::Files, facts, names, i as nat);
        assert(names[i as int] == ids@[i as int]@);
        note_missing(diagnostics, input, &ids[i]);
        proof {
            let more = phase_findings(Phase::Files, facts, names, names[i as int]);
            assert((before + earlier) + more =~= before + (earlier + more));
        }
        i = i + 1;
    }
    note_misbound(diagnostics, input);
    assert(diagnostics.deep_view() =~= start + input_findings(facts, names));
}

/// The patches of the threads, with the remarks on contested projects.
fn resolve_threads(
    input: &ResolutionInput,
    graph: &Graph,
    diagnostics: &mut Vec<MetadataDiagnostic>,
) -> (r: Vec<ResolvedThreadPatch>)
    requires
        graph.fits(input.deep_view()),
    ensures
        r.deep_view() == patches_to(input.deep_view(), graph.ids.deep_view(), graph.ids@.len()),
        final(diagnostics).deep_view() == old(diagnostics).deep_view() + findings_to(
            Phase::Projects,
            input.deep_view(),
            graph.ids.deep_view(),
            graph.ids@.len(),
        ),
{
    let ghost facts = input.deep_view();
    let ghost names = graph.ids.deep_view();
    let ghost before = diagnostics.deep_view();
    let mut patches: Vec<ResolvedThreadPatch> = Vec::new();
    let mut i: usize = 0;
    proof {
        assert(before + findings_to(Phase::Projects, facts, names, 0) =~= before);
        assert(patches.deep_view() =~= Seq::<PatchFacts>::empty());
    }
    while i < graph.ids.len()
        invariant
            i <= graph.ids.len(),
            facts == input.deep_view(),
            names == graph.ids.deep_view(),
            graph.fits(facts),
            patches.deep_view() == patches_to(facts, names, i as nat),
            diagnostics.deep_view() == before + findings_to(
                Phase::Projects,
                facts,
                names,
                i as nat,
            ),
        decreases graph.ids.len() - i,
    {
        let ghost earlier = findings_to(Phase::Projects, facts, names, i as nat);
        let ghost patched = patches.deep_view();
        proof {
            assert(names[i as int] == graph.ids@[i as int]@);
            assert(earlier + Seq::<Finding>::empty() =~= earlier);
        }
        if !is_blocked(input, &graph.ids[i]) {
            let (patch, contested): (Option<ResolvedThreadPatch>, bool) = resolve_thread(
                input,
                graph,
                i,
            );
            if contested {
                note(
                    diagnostics,
                    MetadataDiagnosticCode::ProjectAssignmentConflict,
                    MetadataDiagnosticSeverity::Conflict,
                    Some(graph.ids[i].clone()),
                    None,
                    Some("project_kind"),
                    MetadataSourceKind::GlobalState,
                );
                proof {
                    let made = project_finding(names[i as int]);
                    assert((before + earlier).push(made) =~= before + (earlier + seq![made]));
                }
            }
            if let Some(patch) = patch {
                let ghost made = patch.deep_view();
                patches.push(patch);
                assert(patches.deep_view() =~= patched.push(made));
            }
        }
        i = i + 1;
    }
    patches
}

/// Resolves the metadata of threads.
pub struct ThreadMetadataResolver;

impl ThreadMetadataResolver {
    pub fn resolve(input: ResolutionInput) -> (r: ResolutionResult)
        ensures
            r.deep_view() == resolution(input.deep_view()),
    {
        let ghost facts = input.deep_view();
        let ids: Vec<String> = affected_ids(&input);
        let ghost names = ids.deep_view();
        let mut diagnostics: Vec<MetadataDiagnostic> = Vec::new();
        let ghost empty = diagnostics.deep_view();
        assert(empty =~= Seq::<Finding>::empty());
        note_input(&mut diagnostics, &input, &ids);
        assert(diagnostics.deep_view() =~= input_findings(facts, names));
        if input.resolved_at_ms < 0 {
            note(
                &mut diagnostics,
                MetadataDiagnosticCode::InvalidResolutionTime,
                MetadataDiagnosticSeverity::Warning,
                None,
                None,
                None,
                MetadataSourceKind::RelationshipGraph,
            );
            let patches: Vec<ResolvedThreadPatch> = Vec::new();
            assert(patches.deep_view() =~= Seq::<PatchFacts>::empty());
            return ResolutionResult {
                patches,
                diagnostics: sort_diagnostics(diagnostics),
                affected_thread_ids: ids,
            };
        }
        let graph: Graph = build_graph(&input, ids, &mut diagnostics);
        note_missing_parents(&mut diagnostics, &input, &graph);
        let patches: Vec<ResolvedThreadPatch> = resolve_threads(&input, &graph, &mut diagnostics);
        assert(diagnostics.deep_view() =~= input_findings(facts, names) + findings_to(
            Phase::Relations,
            facts,
            names,
            names.len(),
        ) + findings_to(Phase::Cycles, facts, names, names.len()) + findings_to(
            Phase::Roots,
            facts,
            names,
            names.len(),
        ) + findings_to(Phase::Projects, facts, names, names.len()));
        ResolutionResult {
            patches,
            diagnostics: sort_diagnostics(diagnostics),
            affected_thread_ids: graph.ids,
        }
    }
}

} // verus!
