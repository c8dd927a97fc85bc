//! What decides each field of a thread when several rollouts or files tell.
use vstd::prelude::*;

use crate::identifiers::context_order;
use crate::order::{lemma_text_reversed, text_rank};
use crate::rollout::{ParentHintProvenance, ThreadFacts};
use crate::shared::AgentRole;
use crate::state_index::Edge;
use super::fields::{
    after_last_slash, best_cwd, best_model, contradicts_cwd, cwd_conflict, cwd_of,
    earliest_creation, greater, latest_context, model_conflict, model_of, physical_source, spaced,
    SourceFacts,
};
use super::relationships::{
    chosen_parent, edge_parents, hinted_parents, on_cycle, relation, role_of, root_of,
    trusted_identity, Choice, RootState,
};
use super::input::InputFacts;

verus! {

proof fn lemma_earliest(facts: Seq<ThreadFacts>)
    ensures
        earliest_creation(facts) is None <==> forall|i: int|
            0 <= i < facts.len() ==> (#[trigger] facts[i]).created_at_ms is None,
        earliest_creation(facts) is Some ==> exists|i: int|
            0 <= i < facts.len() && (#[trigger] facts[i]).created_at_ms == earliest_creation(facts),
        forall|i: int|
            0 <= i < facts.len() && (#[trigger] facts[i]).created_at_ms is Some
                ==> earliest_creation(facts) is Some && earliest_creation(facts)->0
                <= facts[i].created_at_ms->0,
    decreases facts.len(),
{
    if facts.len() > 0 {
        let rest = facts.drop_last();
        let n = facts.len() - 1;
        lemma_earliest(rest);
        assert(facts.last() == facts[n]);
        assert forall|i: int| 0 <= i < n implies rest[i] == #[trigger] facts[i] by {}
        if earliest_creation(rest) is Some {
            let i = choose|i: int|
                0 <= i < rest.len() && (#[trigger] rest[i]).created_at_ms == earliest_creation(
                    rest,
                );
            assert(facts[i].created_at_ms == earliest_creation(rest));
        } else {
            assert forall|i: int| 0 <= i < n implies (#[trigger] facts[i]).created_at_ms is None by {
                assert(rest[i].created_at_ms is None);
            }
        }
    }
}

proof fn lemma_latest(facts: Seq<ThreadFacts>)
    ensures
        latest_context(facts) is None <==> forall|i: int|
            0 <= i < facts.len() ==> (#[trigger] facts[i]).latest_context_at_ms is None,
        latest_context(facts) is Some ==> exists|i: int|
            0 <= i < facts.len() && (#[trigger] facts[i]).latest_context_at_ms == latest_context(
                facts,
            ),
        forall|i: int|
            0 <= i < facts.len() && (#[trigger] facts[i]).latest_context_at_ms is Some
                ==> latest_context(facts) is Some && latest_context(facts)->0
                >= facts[i].latest_context_at_ms->0,
    decreases facts.len(),
{
    if facts.len() > 0 {
        let rest = facts.drop_last();
        let n = facts.len() - 1;
        lemma_latest(rest);
        assert(facts.last() == facts[n]);
        assert forall|i: int| 0 <= i < n implies rest[i] == #[trigger] facts[i] by {}
        if latest_context(rest) is Some {
            let i = choose|i: int|
                0 <= i < rest.len() && (#[trigger] rest[i]).latest_context_at_ms == latest_context(
                    rest,
                );
            assert(facts[i].latest_context_at_ms == latest_context(rest));
        } else {
            assert forall|i: int| 0 <= i < n implies (#[trigger] facts[i]).latest_context_at_ms
                is None by {
                assert(rest[i].latest_context_at_ms is None);
            }
        }
    }
}

/// A thread was created at the earliest time that a rollout gives, and its model was last observed
/// at the latest. Where no rollout gives a time there is none.
pub proof fn law_times_are_the_earliest_and_the_latest(
    facts: Seq<ThreadFacts>,
    created: Option<i64>,
    observed: Option<i64>,
    i: int,
)
    requires
        created == earliest_creation(facts),
        observed == latest_context(facts),
        0 <= i < facts.len(),
    ensures
        facts[i].created_at_ms is Some ==> created is Some && created->0
            <= facts[i].created_at_ms->0,
        facts[i].latest_context_at_ms is Some ==> observed is Some && observed->0
            >= facts[i].latest_context_at_ms->0,
        created is Some ==> exists|j: int|
            0 <= j < facts.len() && (#[trigger] facts[j]).created_at_ms == created,
        observed is Some ==> exists|j: int|
            0 <= j < facts.len() && (#[trigger] facts[j]).latest_context_at_ms == observed,
{
    lemma_earliest(facts);
    lemma_latest(facts);
}

/// The greater of two times that may be missing is one of them, and no less than either.
pub proof fn law_the_greater_time_is_kept(a: Option<i64>, b: Option<i64>, r: Option<i64>)
    requires
        r == greater(a, b),
    ensures
        r == a || r == b,
        a is Some ==> r is Some && r->0 >= a->0,
        b is Some ==> r is Some && r->0 >= b->0,
{
}

/// The rollout at `k` gives the working directory rather than the one at `i`: what the session
/// says counts before what a turn says, then the earlier record, then the file of the lower number.
pub open spec fn gives_cwd_before(facts: Seq<ThreadFacts>, k: int, i: int) -> bool {
    let a = facts[k].cwd->0;
    let b = facts[i].cwd->0;
    ||| a.provenance is SessionMeta && b.provenance is TurnContext
    ||| a.provenance == b.provenance && a.record_offset < b.record_offset
    ||| a.provenance == b.provenance && a.record_offset == b.record_offset
        && facts[k].source_file_id <= facts[i].source_file_id
}

/// The best of the directories is that of the rollout at `k`.
pub open spec fn cwd_given_by(facts: Seq<ThreadFacts>, k: int) -> bool {
    &&& 0 <= k < facts.len()
    &&& facts[k].cwd is Some
    &&& forall|i: int|
        0 <= i < facts.len() && (#[trigger] facts[i]).cwd is Some ==> gives_cwd_before(facts, k, i)
}

proof fn lemma_best_cwd(facts: Seq<ThreadFacts>) -> (k: int)
    ensures
        best_cwd(facts) is None <==> forall|i: int|
            0 <= i < facts.len() ==> (#[trigger] facts[i]).cwd is None,
        best_cwd(facts) is Some ==> cwd_given_by(facts, k) && best_cwd(facts)
            == super::fields::cwd_choice(facts[k]),
    decreases facts.len(),
{
    if facts.len() == 0 {
        0
    } else {
        let rest = facts.drop_last();
        let n = facts.len() - 1;
        let k = lemma_best_cwd(rest);
        assert(facts.last() == facts[n]);
        assert forall|i: int| 0 <= i < n implies rest[i] == #[trigger] facts[i] by {}
        let taken = best_cwd(facts) != best_cwd(rest);
        if best_cwd(rest) is None {
            assert forall|i: int| 0 <= i < n implies (#[trigger] facts[i]).cwd is None by {
                assert(rest[i].cwd is None);
            }
            if facts.last().cwd is Some {
                assert(cwd_given_by(facts, n));
            }
            n
        } else {
            let last = super::fields::cwd_choice(facts.last());
            let replaces = last is Some && super::fields::cwd_order(last->0, best_cwd(rest)->0)
                is Before;
            let m = if replaces {
                n
            } else {
                k
            };
            assert(cwd_given_by(facts, m)) by {
                assert forall|i: int|
                    0 <= i < facts.len() && (#[trigger] facts[i]).cwd is Some implies gives_cwd_before(
                    facts,
                    m,
                    i,
                ) by {
                    if i < n {
                        assert(rest[i].cwd is Some);
                        assert(gives_cwd_before(rest, k, i));
                    }
                }
            }
            m
        }
    }
}

/// The working directory is that of one rollout: what its session says before what its turns say,
/// then what stands earlier, then what stands in the file of the lower number. There is a conflict
/// if and only if another rollout says otherwise in the same way.
pub proof fn law_sessions_give_the_working_directory(facts: Seq<ThreadFacts>, cwd: Option<Seq<char>>, conflict: bool)
    requires
        cwd == cwd_of(facts),
        conflict == cwd_conflict(facts),
    ensures
        cwd is None <==> forall|i: int| 0 <= i < facts.len() ==> (#[trigger] facts[i]).cwd is None,
        cwd is None ==> !conflict,
        cwd is Some ==> exists|k: int|
            #[trigger] cwd_given_by(facts, k) && facts[k].cwd->0.value == cwd->0 && (conflict
                <==> exists|i: int|
                0 <= i < facts.len() && (#[trigger] facts[i]).cwd is Some
                    && facts[i].cwd->0.provenance == facts[k].cwd->0.provenance
                    && facts[i].cwd->0.value != cwd->0),
{
    let k = lemma_best_cwd(facts);
    if cwd is Some {
        let best = best_cwd(facts)->0;
        assert(cwd_given_by(facts, k));
        if conflict {
            let i = choose|i: int|
                0 <= i < facts.len() && contradicts_cwd(#[trigger] facts[i], best);
            assert(facts[i].cwd is Some);
        }
        if exists|i: int|
            0 <= i < facts.len() && (#[trigger] facts[i]).cwd is Some && facts[i].cwd->0.provenance
                == facts[k].cwd->0.provenance && facts[i].cwd->0.value != cwd->0 {
            let i = choose|i: int|
                0 <= i < facts.len() && (#[trigger] facts[i]).cwd is Some
                    && facts[i].cwd->0.provenance == facts[k].cwd->0.provenance
                    && facts[i].cwd->0.value != cwd->0;
            assert(contradicts_cwd(facts[i], best));
        }
    }
}

/// When the rollout's last model was observed.
pub open spec fn observed_at(fact: ThreadFacts) -> Option<i64> {
    context_order(fact.latest_context_turn_id, fact.latest_context_at_ms)
}

/// A missing number counts as lower than any other.
pub open spec fn no_lower(a: Option<int>, b: Option<int>) -> bool {
    b is Some ==> a is Some && a->0 >= b->0
}

/// The model of the rollout at `k` was observed no earlier than any other, and at the same time in
/// no earlier a record.
pub open spec fn model_given_by(facts: Seq<ThreadFacts>, k: int) -> bool {
    &&& 0 <= k < facts.len()
    &&& facts[k].latest_context_model is Some
    &&& forall|i: int|
        0 <= i < facts.len() && (#[trigger] facts[i]).latest_context_model is Some ==> {
            &&& no_lower(
                crate::order::as_int(observed_at(facts[k])),
                crate::order::as_int(observed_at(facts[i])),
            )
            &&& observed_at(facts[k]) == observed_at(facts[i]) ==> no_lower(
                crate::order::unsigned_as_int(facts[k].latest_context_record_offset),
                crate::order::unsigned_as_int(facts[i].latest_context_record_offset),
            )
        }
}

proof fn lemma_best_model(facts: Seq<ThreadFacts>) -> (k: int)
    ensures
        best_model(facts) is None <==> forall|i: int|
            0 <= i < facts.len() ==> (#[trigger] facts[i]).latest_context_model is None,
        best_model(facts) is Some ==> model_given_by(facts, k) && best_model(facts)
            == super::fields::model_choice(facts[k]),
    decreases facts.len(),
{
    if facts.len() == 0 {
        0
    } else {
        let rest = facts.drop_last();
        let n = facts.len() - 1;
        let k = lemma_best_model(rest);
        assert(facts.last() == facts[n]);
        assert forall|i: int| 0 <= i < n implies rest[i] == #[trigger] facts[i] by {}
        if best_model(rest) is None {
            assert forall|i: int| 0 <= i < n implies (#[trigger] facts[i]).latest_context_model
                is None by {
                assert(rest[i].latest_context_model is None);
            }
            if facts.last().latest_context_model is Some {
                assert(model_given_by(facts, n));
            }
            n
        } else {
            let last = super::fields::model_choice(facts.last());
            let replaces = last is Some && super::fields::model_order(
                last->0,
                best_model(rest)->0,
            ) is Before;
            let m = if replaces {
                n
            } else {
                k
            };
            assert forall|i: int|
                0 <= i < facts.len() && (#[trigger] facts[i]).latest_context_model is Some implies {
                &&& no_lower(
                    crate::order::as_int(observed_at(facts[m])),
                    crate::order::as_int(observed_at(facts[i])),
                )
                &&& observed_at(facts[m]) == observed_at(facts[i]) ==> no_lower(
                    crate::order::unsigned_as_int(facts[m].latest_context_record_offset),
                    crate::order::unsigned_as_int(facts[i].latest_context_record_offset),
                )
            } by {
                if i < n {
                    assert(rest[i].latest_context_model is Some);
                    assert(no_lower(
                        crate::order::as_int(observed_at(rest[k])),
                        crate::order::as_int(observed_at(rest[i])),
                    ));
                }
            }
            m
        }
    }
}

/// The model is that of the rollout that observed one last. There is no model if and only if no
/// rollout observed one, and then no conflict either.
pub proof fn law_the_last_observation_gives_the_model(facts: Seq<ThreadFacts>, model: Option<Seq<char>>, conflict: bool)
    requires
        model == model_of(facts),
        conflict == model_conflict(facts),
    ensures
        model is None <==> forall|i: int|
            0 <= i < facts.len() ==> (#[trigger] facts[i]).latest_context_model is None,
        model is None ==> !conflict,
        model is Some ==> exists|k: int|
            #[trigger] model_given_by(facts, k) && facts[k].latest_context_model == model && (
            conflict <==> exists|i: int|
                0 <= i < facts.len() && (#[trigger] facts[i]).latest_context_model is Some
                    && facts[i].latest_context_model != model && facts[i].latest_context_turn_id
                    == facts[k].latest_context_turn_id && (facts[k].latest_context_turn_id is Some
                    || observed_at(facts[i]) == observed_at(facts[k]))),
{
    let k = lemma_best_model(facts);
    if model is Some {
        let best = best_model(facts)->0;
        assert(model_given_by(facts, k));
        if conflict {
            let i = choose|i: int|
                0 <= i < facts.len() && super::fields::contradicts_model(
                    #[trigger] facts[i],
                    best,
                );
            assert(facts[i].latest_context_model is Some);
        }
        if exists|i: int|
            0 <= i < facts.len() && (#[trigger] facts[i]).latest_context_model is Some
                && facts[i].latest_context_model != model && facts[i].latest_context_turn_id
                == facts[k].latest_context_turn_id && (facts[k].latest_context_turn_id is Some
                || observed_at(facts[i]) == observed_at(facts[k])) {
            let i = choose|i: int|
                0 <= i < facts.len() && (#[trigger] facts[i]).latest_context_model is Some
                    && facts[i].latest_context_model != model && facts[i].latest_context_turn_id
                    == facts[k].latest_context_turn_id && (facts[k].latest_context_turn_id is Some
                    || observed_at(facts[i]) == observed_at(facts[k]));
            assert(super::fields::contradicts_model(facts[i], best));
        }
    }
}

proof fn lemma_physical(sources: Seq<SourceFacts>)
    ensures
        ({
            let r = physical_source(sources);
            &&& r is None <==> forall|i: int|
                0 <= i < sources.len() ==> !((#[trigger] sources[i]).status is Present)
            &&& r is Some ==> r->0.status is Present && exists|i: int|
                0 <= i < sources.len() && #[trigger] sources[i] == r->0
            &&& forall|i: int|
                0 <= i < sources.len() && (#[trigger] sources[i]).status is Present
                    && sources[i].area is Sessions ==> r is Some && r->0.area is Sessions
            &&& forall|i: int|
                0 <= i < sources.len() && (#[trigger] sources[i]).status is Present && r is Some
                    && sources[i].area == r->0.area ==> !(text_rank(
                    r->0.current_path,
                    sources[i].current_path,
                ) is After)
        }),
    decreases sources.len(),
{
    if sources.len() > 0 {
        let rest = sources.drop_last();
        let n = sources.len() - 1;
        let before = physical_source(rest);
        let r = physical_source(sources);
        lemma_physical(rest);
        assert(sources.last() == sources[n]);
        assert forall|i: int| 0 <= i < n implies rest[i] == #[trigger] sources[i] by {}
        if before is Some {
            let i = choose|i: int| 0 <= i < rest.len() && #[trigger] rest[i] == before->0;
            assert(sources[i] == before->0);
            lemma_text_reversed(sources.last().current_path, before->0.current_path);
        } else {
            assert forall|i: int| 0 <= i < n implies !((#[trigger] sources[i]).status is Present) by {
                assert(!(rest[i].status is Present));
            }
        }
        if r is Some {
            lemma_text_reversed(r->0.current_path, r->0.current_path);
            assert forall|i: int|
                0 <= i < sources.len() && (#[trigger] sources[i]).status is Present
                    && sources[i].area == r->0.area implies !(text_rank(
                r->0.current_path,
                sources[i].current_path,
            ) is After) by {
                if i < n {
                    assert(rest[i].status is Present);
                    if before is Some && sources[i].area == before->0.area && r->0 == sources.last() {
                        crate::order::lemma_texts_pass_on(
                            r->0.current_path,
                            before->0.current_path,
                            sources[i].current_path,
                        );
                    }
                }
            }
        }
    }
}

/// The file of a thread is present: a live one before an archived one, and of several in the
/// same place the one whose path comes first. There is none if and only if none is present.
pub proof fn law_live_files_come_before_archived_ones(sources: Seq<SourceFacts>, r: Option<SourceFacts>, i: int)
    requires
        r == physical_source(sources),
        0 <= i < sources.len(),
    ensures
        r is None ==> !(sources[i].status is Present),
        sources[i].status is Present ==> r is Some,
        r is Some ==> r->0.status is Present && exists|j: int|
            0 <= j < sources.len() && #[trigger] sources[j] == r->0,
        sources[i].status is Present && sources[i].area is Sessions ==> r->0.area is Sessions,
        sources[i].status is Present && sources[i].area == r->0.area ==> !(text_rank(
            r->0.current_path,
            sources[i].current_path,
        ) is After),
{
    lemma_physical(sources);
}

/// All of the texts are this one.
pub open spec fn all_are(texts: Seq<Seq<char>>, text: Seq<char>) -> bool {
    forall|i: int| 0 <= i < texts.len() ==> #[trigger] texts[i] == text
}

/// A parent is confirmed if those who are asked first all name it: the state index, then the
/// session, then where the thread was spawned, then what it was forked from. There is no conflict
/// if and only if those who come later name no other. Where those who are asked first do not
/// agree, nothing is decided; where nobody names one, there is none.
pub proof fn law_parents_are_confirmed_by_agreement(
    edges: Seq<Seq<char>>,
    direct: Seq<Seq<char>>,
    nested: Seq<Seq<char>>,
    forked: Seq<Seq<char>>,
    r: (Choice, bool),
    parent: Seq<char>,
)
    requires
        r == chosen_parent(edges, direct, nested, forked),
    ensures
        r.0 is NoneConfirmed <==> edges.len() + direct.len() + nested.len() + forked.len() == 0,
        r.0 is NoneConfirmed ==> !r.1,
        r.0 is Unresolved ==> r.1,
        edges.len() > 0 ==> (r.0 == Choice::Confirmed(parent) <==> all_are(edges, parent)),
        edges.len() == 0 && direct.len() > 0 ==> (r.0 == Choice::Confirmed(parent) <==> all_are(
            direct,
            parent,
        )),
        edges.len() == 0 && direct.len() == 0 && nested.len() > 0 ==> (r.0 == Choice::Confirmed(
            parent,
        ) <==> all_are(nested, parent)),
        edges.len() == 0 && direct.len() == 0 && nested.len() == 0 && forked.len() > 0 ==> (r.0
            == Choice::Confirmed(parent) <==> all_are(forked, parent)),
        r.0 == Choice::Confirmed(parent) ==> (!r.1 <==> all_are(edges, parent) && all_are(
            direct,
            parent,
        ) && all_are(nested, parent) && all_are(forked, parent)),
{
    if edges.len() > 0 {
        assert(all_are(edges, parent) ==> edges[0] == parent);
    }
    if direct.len() > 0 {
        assert(all_are(direct, parent) ==> direct[0] == parent);
    }
    if nested.len() > 0 {
        assert(all_are(nested, parent) ==> nested[0] == parent);
    }
    if forked.len() > 0 {
        assert(all_are(forked, parent) ==> forked[0] == parent);
    }
}

/// The parents that the state index names for a thread are those of the edges that lead to it, and
/// those that a kind of hint names are those of the rollouts with such a hint.
pub proof fn law_parents_are_named_by_edges_and_hints(
    edges: Seq<Edge>,
    facts: Seq<ThreadFacts>,
    kind: ParentHintProvenance,
    id: Seq<char>,
    parent: Seq<char>,
)
    ensures
        edge_parents(edges, id).contains(parent) <==> exists|i: int|
            0 <= i < edges.len() && (#[trigger] edges[i]).child == id && edges[i].parent == parent,
        hinted_parents(facts, kind).contains(parent) <==> exists|i: int|
            0 <= i < facts.len() && (#[trigger] facts[i]).parent is Some
                && facts[i].parent->0.provenance == kind && facts[i].parent->0.value == parent,
{
    lemma_edge_parents(edges, id, parent);
    lemma_hinted_parents(facts, kind, parent);
}

/// The rollout hints at this parent in this way.
pub open spec fn hints_at(fact: ThreadFacts, kind: ParentHintProvenance, parent: Seq<char>) -> bool {
    fact.parent is Some && fact.parent->0.provenance == kind && fact.parent->0.value == parent
}

proof fn lemma_hinted_parents(facts: Seq<ThreadFacts>, kind: ParentHintProvenance, parent: Seq<char>)
    ensures
        hinted_parents(facts, kind).contains(parent) <==> exists|i: int|
            0 <= i < facts.len() && hints_at(#[trigger] facts[i], kind, parent),
    decreases facts.len(),
{
    if facts.len() > 0 {
        let rest = facts.drop_last();
        let n = facts.len() - 1;
        let before = hinted_parents(rest, kind);
        let all = hinted_parents(facts, kind);
        lemma_hinted_parents(rest, kind, parent);
        assert(facts.last() == facts[n]);
        assert forall|i: int| 0 <= i < n implies rest[i] == #[trigger] facts[i] by {}
        if before.contains(parent) {
            let i = choose|i: int| 0 <= i < rest.len() && hints_at(#[trigger] rest[i], kind, parent);
            assert(hints_at(facts[i], kind, parent));
            let k = choose|k: int| 0 <= k < before.len() && before[k] == parent;
            assert(all[k] == parent);
        }
        if hints_at(facts.last(), kind, parent) {
            assert(all[before.len() as int] == parent);
        }
        if all.contains(parent) {
            let k = choose|k: int| 0 <= k < all.len() && all[k] == parent;
            if k < before.len() {
                assert(before[k] == parent);
            } else {
                assert(hints_at(facts[n], kind, parent));
            }
        }
        if exists|i: int| 0 <= i < facts.len() && hints_at(#[trigger] facts[i], kind, parent) {
            let i = choose|i: int| 0 <= i < facts.len() && hints_at(#[trigger] facts[i], kind, parent);
            if i < n {
                assert(hints_at(rest[i], kind, parent));
            }
        }
    }
}

proof fn lemma_edge_parents(edges: Seq<Edge>, id: Seq<char>, parent: Seq<char>)
    ensures
        edge_parents(edges, id).contains(parent) <==> exists|i: int|
            0 <= i < edges.len() && (#[trigger] edges[i]).child == id && edges[i].parent == parent,
    decreases edges.len(),
{
    if edges.len() > 0 {
        let rest = edges.drop_last();
        let n = edges.len() - 1;
        let before = edge_parents(rest, id);
        let all = edge_parents(edges, id);
        lemma_edge_parents(rest, id, parent);
        assert(edges.last() == edges[n]);
        assert forall|i: int| 0 <= i < n implies rest[i] == #[trigger] edges[i] by {}
        if before.contains(parent) {
            let i = choose|i: int|
                0 <= i < rest.len() && (#[trigger] rest[i]).child == id && rest[i].parent == parent;
            assert(edges[i].child == id && edges[i].parent == parent);
            let k = choose|k: int| 0 <= k < before.len() && before[k] == parent;
            assert(all[k] == parent);
        }
        if edges.last().child == id && edges.last().parent == parent {
            assert(all[before.len() as int] == parent);
        }
        if all.contains(parent) {
            let k = choose|k: int| 0 <= k < all.len() && all[k] == parent;
            if k < before.len() {
                assert(before[k] == parent);
            } else {
                assert(edges[n].child == id && edges[n].parent == parent);
            }
        }
        if exists|i: int|
            0 <= i < edges.len() && (#[trigger] edges[i]).child == id && edges[i].parent == parent {
            let i = choose|i: int|
                0 <= i < edges.len() && (#[trigger] edges[i]).child == id && edges[i].parent
                    == parent;
            if i < n {
                assert(rest[i].child == id);
            }
        }
    }
}

/// The part a thread plays: a subagent has a confirmed parent, and neither a conflict nor a circle
/// of parents. A main thread has none, does not say that it is a subagent, and says that it is one,
/// or is known while the state index is complete.
pub proof fn law_roles_follow_from_parents(
    input: InputFacts,
    ids: Seq<Seq<char>>,
    id: Seq<char>,
    r: Option<AgentRole>,
)
    requires
        r == role_of(input, ids, id),
    ensures
        ({
            let told = relation(input, id);
            let clear = !told.conflict && !on_cycle(input, ids, id);
            &&& !ids.contains(id) ==> r is None
            &&& r == Some(AgentRole::Subagent) <==> ids.contains(id) && clear && told.parent
                is Confirmed
            &&& r == Some(AgentRole::Main) <==> ids.contains(id) && clear && !(told.parent
                is Confirmed) && !told.explicit_subagent && (told.explicit_main || (
            input.state_complete && input.edges_complete && trusted_identity(input, id)))
            &&& ids.contains(id) && !clear ==> r == Some(AgentRole::Unknown)
            &&& ids.contains(id) && clear && !(told.parent is Confirmed) && told.explicit_subagent
                ==> r == Some(AgentRole::Unknown)
        }),
{
}

/// A tree of sessions has a root only where the root is resolved, and a thread that plays no clear
/// part has none.
pub proof fn law_roots_are_resolved_or_missing(
    input: InputFacts,
    ids: Seq<Seq<char>>,
    id: Seq<char>,
    r: (Option<Seq<char>>, RootState),
)
    requires
        r == root_of(input, ids, id),
    ensures
        r.0 is Some <==> r.1 is Resolved,
        on_cycle(input, ids, id) ==> r.1 is Conflict,
        !on_cycle(input, ids, id) && role_of(input, ids, id) is None ==> r.1 is Unknown,
        !on_cycle(input, ids, id) && role_of(input, ids, id) == Some(AgentRole::Unknown) ==> (r.1
            is Conflict <==> relation(input, id).conflict),
        !on_cycle(input, ids, id) && role_of(input, ids, id) == Some(AgentRole::Main) ==> r.0
            == Some(id),
        !on_cycle(input, ids, id) && role_of(input, ids, id) == Some(AgentRole::Subagent)
            && relation(input, id).parent is Confirmed && !super::relationships::trusted(
            input,
            relation(input, id).parent->Confirmed_0,
        ) ==> r.1 is MissingParent,
{
    lemma_root_state(input, ids, id, 257);
}

proof fn lemma_root_state(input: InputFacts, ids: Seq<Seq<char>>, current: Seq<char>, steps: nat)
    ensures
        super::relationships::root_from(input, ids, current, steps).0 is Some
            <==> super::relationships::root_from(input, ids, current, steps).1 is Resolved,
    decreases steps,
{
    if steps > 0 {
        if let Choice::Confirmed(parent) = relation(input, current).parent {
            lemma_root_state(input, ids, parent, (steps - 1) as nat);
        }
    }
}

/// What stands behind the last slash holds no slash, and is all of the text behind it.
pub proof fn law_the_last_part_stands_behind_the_last_slash(s: Seq<char>, r: Seq<char>)
    requires
        r == after_last_slash(s),
    ensures
        r.len() <= s.len(),
        r == s.skip(s.len() - r.len()),
        forall|i: int| 0 <= i < r.len() ==> #[trigger] r[i] != '/',
        r.len() < s.len() ==> s[s.len() - r.len() - 1] == '/',
    decreases s.len(),
{
    if s.len() > 0 && s.last() != '/' {
        let rest = s.drop_last();
        let before = after_last_slash(rest);
        law_the_last_part_stands_behind_the_last_slash(rest, before);
        assert(r =~= s.skip(s.len() - r.len()));
    } else {
        assert(r =~= s.skip(s.len() - r.len()));
    }
}

/// Words are set apart by single blanks: no underscore is left, and no two blanks stand together.
/// A text without underscores and double blanks stays as it is.
pub proof fn law_words_are_set_apart_by_blanks(s: Seq<char>, r: Seq<char>)
    requires
        r == spaced(s),
    ensures
        r.len() <= s.len(),
        s.len() > 0 ==> r.len() > 0,
        s.len() > 0 ==> r.last() == if s.last() == '_' {
            ' '
        } else {
            s.last()
        },
        forall|i: int| 0 <= i < r.len() ==> #[trigger] r[i] != '_',
        forall|i: int, j: int|
            0 <= i && j == i + 1 && j < r.len() ==> #[trigger] r[i] != ' ' || #[trigger] r[j] != ' ',
        (forall|i: int| 0 <= i < s.len() ==> #[trigger] s[i] != '_' && s[i] != ' ') ==> r == s,
    decreases s.len(),
{
    if s.len() > 0 {
        let rest = s.drop_last();
        law_words_are_set_apart_by_blanks(rest, spaced(rest));
        if forall|i: int| 0 <= i < s.len() ==> #[trigger] s[i] != '_' && s[i] != ' ' {
            assert forall|i: int| 0 <= i < rest.len() implies #[trigger] rest[i] != '_' && rest[i]
                != ' ' by {
                assert(s[i] != '_');
            }
            assert(s[s.len() - 1] != '_');
            assert(rest.push(s.last()) =~= s);
        }
    }
}

} // verus!
