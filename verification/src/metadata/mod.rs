//! Deterministic resolution of thread relationships and metadata.
//!
//! The resolver takes nothing but the facts that the readers allow; it never sees raw
//! records.
use vstd::prelude::*;
use vstd::string::*;

pub mod field_laws;
pub mod fields;
pub mod input;
pub mod laws;
pub mod outcome_laws;
pub mod relationships;
pub mod resolver;

use crate::global_state::GlobalStateStatus;
#[allow(unused_imports)]
use crate::global_state::GlobalFacts;
use crate::order::Rank;
#[allow(unused_imports)]
use crate::order::{
    as_int, int_rank, optional_int_rank, optional_text_rank, sorted_texts, stably_sorted,
    unsigned_as_int,
};
#[allow(unused_imports)]
use crate::platform::Platform;
#[allow(unused_imports)]
use crate::rollout::ThreadFacts;
#[allow(unused_imports)]
use crate::session_index::{name_of, NamedThread};
use crate::shared::{AgentRole, MetadataQualityStatus, Patch, ProjectKind};
#[allow(unused_imports)]
use crate::shared::{patch_fault, PatchFacts};
#[allow(unused_imports)]
use crate::state_index::IndexedThread;
#[allow(unused_imports)]
use self::fields::{
    cwd_conflict, cwd_of, earliest_creation, greater, latest_context, model_conflict, model_of,
    physical_source, project_name, thread_title, valid_project_path, SourceFacts,
};
use self::input::{MetadataDiagnosticCode, MetadataDiagnosticSeverity, MetadataSourceKind};
#[allow(unused_imports)]
use self::input::{finding, ExistingFacts, Finding, InputFacts, ResolutionFacts};
use self::relationships::{cyclic, RootState};
#[allow(unused_imports)]
use self::relationships::{
    fact_key, on_cycle, relation, relation_findings, role_of, rollouts_of, root_of, state_fact,
    Choice, Relation,
};

verus! {

pub open spec fn source_ids(sources: Seq<SourceFacts>) -> Seq<Seq<char>>
    decreases sources.len(),
{
    if sources.len() == 0 {
        Seq::empty()
    } else {
        match sources.last().thread_id {
            Some(id) => source_ids(sources.drop_last()).push(id),
            None => source_ids(sources.drop_last()),
        }
    }
}

/// Every thread that some source mentions.
pub open spec fn mentioned(input: InputFacts) -> Seq<Seq<char>> {
    Seq::new(input.threads.len(), |i: int| input.threads[i].thread_id) + Seq::new(
        input.edges.len(),
        |i: int| input.edges[i].parent,
    ) + Seq::new(input.edges.len(), |i: int| input.edges[i].child) + Seq::new(
        input.sessions.len(),
        |i: int| input.sessions[i].thread_id,
    ) + Seq::new(input.rollouts.len(), |i: int| input.rollouts[i].owning_thread_id) + source_ids(
        input.sources,
    ) + Seq::new(input.existing.len(), |i: int| input.existing[i].thread_id)
}

/// The threads that are resolved, in order.
pub open spec fn affected(input: InputFacts) -> Seq<Seq<char>> {
    sorted_texts(mentioned(input))
}

/// A remark for each fact of the state index that contradicts the one chosen so far.
pub open spec fn state_findings(threads: Seq<IndexedThread>) -> Seq<Finding>
    decreases threads.len(),
{
    if threads.len() == 0 {
        Seq::empty()
    } else {
        let before = state_findings(threads.drop_last());
        let last = threads.last();
        match state_fact(threads.drop_last(), last.thread_id) {
            Some(current) => if fact_key(last) != fact_key(current) {
                before.push(
                    finding(
                        MetadataDiagnosticCode::FieldConflict,
                        MetadataDiagnosticSeverity::Conflict,
                        Some(last.thread_id),
                        None,
                        None,
                        MetadataSourceKind::StateIndex,
                    ),
                )
            } else {
                before
            },
            None => before,
        }
    }
}

pub open spec fn by_file(a: SourceFacts, b: SourceFacts) -> Rank {
    int_rank(a.source_file_id as int, b.source_file_id as int)
}

pub open spec fn bound_to(sources: Seq<SourceFacts>, id: Seq<char>) -> Seq<SourceFacts>
    decreases sources.len(),
{
    if sources.len() == 0 {
        Seq::empty()
    } else if sources.last().thread_id == Some(id) {
        bound_to(sources.drop_last(), id).push(sources.last())
    } else {
        bound_to(sources.drop_last(), id)
    }
}

/// The files of a thread, by number.
pub open spec fn sources_of(sources: Seq<SourceFacts>, id: Seq<char>) -> Seq<SourceFacts> {
    stably_sorted(bound_to(sources, id), |a: SourceFacts, b: SourceFacts| by_file(a, b))
}

pub open spec fn confirms(fact: ThreadFacts, id: Seq<char>, source_file_id: i64) -> bool {
    fact.source_file_id == source_file_id && fact.owning_thread_id == id
        && fact.boundary.confidence is Confirmed
}

/// A rollout fact confirms that the file belongs to the thread.
pub open spec fn confirmed(rollouts: Seq<ThreadFacts>, id: Seq<char>, source_file_id: i64) -> bool {
    exists|i: int|
        0 <= i < rollouts.len() && confirms(#[trigger] rollouts[i], id, source_file_id)
}

pub open spec fn unconfirmed(input: InputFacts, id: Seq<char>, source: SourceFacts) -> bool {
    source.status is Present && !confirmed(input.rollouts, id, source.source_file_id)
}

/// A remark for each present file of a thread that no fact confirms.
pub open spec fn missing_findings(input: InputFacts, id: Seq<char>, sources: Seq<SourceFacts>) -> Seq<
    Finding,
>
    decreases sources.len(),
{
    if sources.len() == 0 {
        Seq::empty()
    } else {
        let before = missing_findings(input, id, sources.drop_last());
        if unconfirmed(input, id, sources.last()) {
            before.push(
                finding(
                    MetadataDiagnosticCode::MissingSafeFact,
                    MetadataDiagnosticSeverity::Warning,
                    Some(id),
                    Some(sources.last().source_file_id),
                    None,
                    MetadataSourceKind::SourceObservation,
                ),
            )
        } else {
            before
        }
    }
}

/// The thread that the first observation of a file binds it to.
pub open spec fn binding(sources: Seq<SourceFacts>, source_file_id: i64) -> Option<Seq<char>>
    decreases sources.len(),
{
    if sources.len() == 0 {
        None
    } else if sources.first().source_file_id == source_file_id {
        sources.first().thread_id
    } else {
        binding(sources.drop_first(), source_file_id)
    }
}

/// The file of a fact is bound to another thread.
pub open spec fn misbound(input: InputFacts, fact: ThreadFacts) -> bool {
    let bound = binding(input.sources, fact.source_file_id);
    bound is Some && bound->0 != fact.owning_thread_id
}

pub open spec fn binding_findings(input: InputFacts, rollouts: Seq<ThreadFacts>) -> Seq<Finding>
    decreases rollouts.len(),
{
    if rollouts.len() == 0 {
        Seq::empty()
    } else {
        let before = binding_findings(input, rollouts.drop_last());
        if misbound(input, rollouts.last()) {
            before.push(
                finding(
                    MetadataDiagnosticCode::FactBindingConflict,
                    MetadataDiagnosticSeverity::Conflict,
                    Some(rollouts.last().owning_thread_id),
                    Some(rollouts.last().source_file_id),
                    None,
                    MetadataSourceKind::Rollout,
                ),
            )
        } else {
            before
        }
    }
}

/// A thread is left alone while one of its files has no confirmed fact, or a fact of it
/// comes from a file that is bound to another thread.
pub open spec fn blocked(input: InputFacts, id: Seq<char>) -> bool {
    ||| exists|i: int|
        0 <= i < input.sources.len() && (#[trigger] input.sources[i]).thread_id == Some(id)
            && unconfirmed(input, id, input.sources[i])
    ||| exists|i: int|
        0 <= i < input.rollouts.len() && (#[trigger] input.rollouts[i]).owning_thread_id == id
            && misbound(input, input.rollouts[i])
}

pub open spec fn cycle_finding(id: Seq<char>) -> Finding {
    finding(
        MetadataDiagnosticCode::ParentCycle,
        MetadataDiagnosticSeverity::Conflict,
        Some(id),
        None,
        Some("parent_thread_id"@),
        MetadataSourceKind::RelationshipGraph,
    )
}

pub open spec fn parent_finding(id: Seq<char>) -> Finding {
    finding(
        MetadataDiagnosticCode::ParentMissing,
        MetadataDiagnosticSeverity::Warning,
        Some(id),
        None,
        Some("root_session_id"@),
        MetadataSourceKind::RelationshipGraph,
    )
}

pub open spec fn project_finding(id: Seq<char>) -> Finding {
    finding(
        MetadataDiagnosticCode::ProjectAssignmentConflict,
        MetadataDiagnosticSeverity::Conflict,
        Some(id),
        None,
        Some("project_kind"@),
        MetadataSourceKind::GlobalState,
    )
}

/// The remarks that one thread gives, for the phases that go thread by thread.
pub enum Phase {
    Files,
    Relations,
    Cycles,
    Roots,
    Projects,
}

pub open spec fn phase_findings(
    phase: Phase,
    input: InputFacts,
    ids: Seq<Seq<char>>,
    id: Seq<char>,
) -> Seq<Finding> {
    match phase {
        Phase::Files => missing_findings(input, id, sources_of(input.sources, id)),
        Phase::Relations => relation_findings(input, id),
        Phase::Cycles => if on_cycle(input, ids, id) {
            seq![cycle_finding(id)]
        } else {
            Seq::empty()
        },
        Phase::Roots => if root_of(input, ids, id).1 is MissingParent {
            seq![parent_finding(id)]
        } else {
            Seq::empty()
        },
        Phase::Projects => if !blocked(input, id) && project_contested(input.global, id) {
            seq![project_finding(id)]
        } else {
            Seq::empty()
        },
    }
}

/// The remarks of a phase on the first `n` threads.
pub open spec fn findings_to(phase: Phase, input: InputFacts, ids: Seq<Seq<char>>, n: nat) -> Seq<
    Finding,
>
    decreases n,
{
    if n == 0 {
        Seq::empty()
    } else {
        findings_to(phase, input, ids, (n - 1) as nat) + phase_findings(
            phase,
            input,
            ids,
            ids[n - 1],
        )
    }
}

pub open spec fn project_contested(global: GlobalFacts, id: Seq<char>) -> bool {
    global.status is Complete && global.projectless.contains(id) && global.assigned.contains(id)
}

/// The kind of project of a thread. Without a usable global state it stays what it was.
pub open spec fn kind_of(
    platform: Platform,
    global: GlobalFacts,
    id: Seq<char>,
    path: Option<Seq<char>>,
    existing: Option<ExistingFacts>,
) -> ProjectKind {
    let by_path = if valid_project_path(platform, path) {
        ProjectKind::Project
    } else {
        ProjectKind::Unknown
    };
    match global.status {
        GlobalStateStatus::Complete => if project_contested(global, id) {
            ProjectKind::Unknown
        } else if global.projectless.contains(id) {
            ProjectKind::Projectless
        } else {
            by_path
        },
        GlobalStateStatus::NotPresent => by_path,
        _ => match existing {
            Some(row) => row.project_kind,
            None => ProjectKind::Unknown,
        },
    }
}

/// The row of a thread: the last one given.
pub open spec fn existing_row(existing: Seq<ExistingFacts>, id: Seq<char>) -> Option<ExistingFacts>
    decreases existing.len(),
{
    if existing.len() == 0 {
        None
    } else if existing.last().thread_id == id {
        Some(existing.last())
    } else {
        existing_row(existing.drop_last(), id)
    }
}

/// A change of a field: only to a value that is known and new.
pub open spec fn changed<T>(existing: Option<T>, desired: Option<T>) -> Patch<T> {
    if desired is Some && existing != desired {
        Patch::Assign(desired->0)
    } else {
        Patch::Keep
    }
}

pub open spec fn or_other<T>(first: Option<T>, second: Option<T>) -> Option<T> {
    if first is Some {
        first
    } else {
        second
    }
}

/// What resolution finds of one thread.
pub struct ThreadView {
    pub state: Option<IndexedThread>,
    pub session: Option<NamedThread>,
    pub rollouts: Seq<ThreadFacts>,
    pub sources: Seq<SourceFacts>,
    pub existing: Option<ExistingFacts>,
    pub relation: Relation,
    pub cyclic: bool,
    pub role: Option<AgentRole>,
    pub root: Option<Seq<char>>,
    pub root_state: RootState,
}

pub open spec fn view_of(input: InputFacts, ids: Seq<Seq<char>>, id: Seq<char>) -> ThreadView {
    ThreadView {
        state: state_fact(input.threads, id),
        session: name_of(input.names, id),
        rollouts: rollouts_of(input.rollouts, id),
        sources: sources_of(input.sources, id),
        existing: existing_row(input.existing, id),
        relation: relation(input, id),
        cyclic: on_cycle(input, ids, id),
        role: role_of(input, ids, id),
        root: root_of(input, ids, id).0,
        root_state: root_of(input, ids, id).1,
    }
}

/// What resolution decides on one thread.
pub struct Decision {
    pub title: Option<Seq<char>>,
    pub project_name: Option<Seq<char>>,
    pub project_path: Option<Seq<char>>,
    pub project_kind: ProjectKind,
    pub metadata_model: Option<Seq<char>>,
    pub created_at_ms: Option<i64>,
    pub updated_at_ms: Option<i64>,
    pub archived: Option<bool>,
    pub current_rollout_path: Option<Seq<char>>,
    pub full: bool,
    pub quality: MetadataQualityStatus,
}

pub open spec fn some_field_conflict(facts: Seq<ThreadFacts>) -> bool {
    exists|i: int| 0 <= i < facts.len() && (#[trigger] facts[i]).has_conflict
}

#[verifier::opaque]
pub open spec fn decision(input: InputFacts, id: Seq<char>, v: ThreadView) -> Decision {
    let full = input.state_complete && input.edges_complete && input.sessions_complete && !blocked(
        input,
        id,
    );
    let title = thread_title(
        input.platform,
        input.state_complete,
        v.role,
        v.state,
        v.session,
        v.rollouts,
        v.existing is Some && v.existing->0.title is Some,
    );
    let cwd = or_other(
        cwd_of(v.rollouts),
        match v.state {
            Some(fact) => fact.cwd,
            None => None,
        },
    );
    let project_path = if valid_project_path(input.platform, cwd) {
        cwd
    } else {
        None
    };
    let physical = physical_source(v.sources);
    let created_at_ms = if input.state_complete {
        or_other(
            match v.state {
                Some(fact) => fact.created_at_ms,
                None => None,
            },
            earliest_creation(v.rollouts),
        )
    } else {
        None
    };
    let updated_at_ms = if input.state_complete {
        or_other(
            match v.state {
                Some(fact) => fact.updated_at_ms,
                None => None,
            },
            greater(
                latest_context(v.rollouts),
                match v.session {
                    Some(name) => name.updated_at_ms,
                    None => None,
                },
            ),
        )
    } else {
        None
    };
    let conflict = v.relation.conflict || v.cyclic || some_field_conflict(v.rollouts)
        || cwd_conflict(v.rollouts) || project_contested(input.global, id) || model_conflict(
        v.rollouts,
    );
    let partial = !full || v.role is None || v.role == Some(AgentRole::Unknown) || !(v.root_state
        is Resolved) || title is None || project_path is None || created_at_ms is None
        || updated_at_ms is None;
    Decision {
        title,
        project_name: match project_path {
            Some(path) => project_name(input.platform, path),
            None => None,
        },
        project_path,
        project_kind: kind_of(input.platform, input.global, id, project_path, v.existing),
        metadata_model: if input.state_complete {
            or_other(
                match v.state {
                    Some(fact) => fact.metadata_model,
                    None => None,
                },
                model_of(v.rollouts),
            )
        } else {
            None
        },
        created_at_ms,
        updated_at_ms,
        archived: if input.state_complete {
            or_other(
                match v.state {
                    Some(fact) => fact.archived,
                    None => None,
                },
                match physical {
                    Some(source) => Some(source.area is ArchivedSessions),
                    None => None,
                },
            )
        } else {
            None
        },
        current_rollout_path: if input.state_complete {
            or_other(
                match v.state {
                    Some(fact) => fact.rollout_path,
                    None => None,
                },
                match physical {
                    Some(source) => Some(source.current_path),
                    None => None,
                },
            )
        } else {
            None
        },
        full,
        quality: if conflict {
            MetadataQualityStatus::Conflict
        } else if partial {
            MetadataQualityStatus::Partial
        } else {
            MetadataQualityStatus::Complete
        },
    }
}

/// The changes of parent, role and root: all three for a main thread whose root is settled
/// and for a subagent whose root is settled; parent and role for a subagent whose root is
/// merely unknown; none otherwise.
pub open spec fn standing_changes(id: Seq<char>, v: ThreadView) -> (
    Patch<Seq<char>>,
    Patch<AgentRole>,
    Patch<Seq<char>>,
) {
    let parent = match v.existing {
        Some(row) => row.parent_thread_id,
        None => None,
    };
    let role = match v.existing {
        Some(row) => Some(row.agent_role),
        None => None,
    };
    let root = match v.existing {
        Some(row) => row.root_session_id,
        None => None,
    };
    match (v.relation.parent, v.role) {
        (Choice::NoneConfirmed, Some(AgentRole::Main)) => if v.root_state is Resolved {
            (
                if parent is Some {
                    Patch::Clear
                } else {
                    Patch::Keep
                },
                changed(role, Some(AgentRole::Main)),
                changed(root, Some(id)),
            )
        } else {
            (Patch::Keep, Patch::Keep, Patch::Keep)
        },
        (Choice::Confirmed(above), Some(AgentRole::Subagent)) => if v.root_state is Resolved {
            (
                changed(parent, Some(above)),
                changed(role, Some(AgentRole::Subagent)),
                changed(root, v.root),
            )
        } else if v.root_state is Unknown {
            (changed(parent, Some(above)), changed(role, Some(AgentRole::Subagent)), Patch::Keep)
        } else {
            (Patch::Keep, Patch::Keep, Patch::Keep)
        },
        _ => (Patch::Keep, Patch::Keep, Patch::Keep),
    }
}

/// The patch that a decision asks for.
pub open spec fn patch_of(id: Seq<char>, resolved_at_ms: i64, v: ThreadView, d: Decision) -> PatchFacts {
    let (parent, role, root) = standing_changes(id, v);
    let row = v.existing;
    PatchFacts {
        thread_id: id,
        resolved_at_ms,
        full_resolution: d.full,
        metadata_quality_status: d.quality,
        parent_thread_id: parent,
        root_session_id: root,
        agent_role: role,
        title: changed(
            match row {
                Some(row) => row.title,
                None => None,
            },
            d.title,
        ),
        project_name: changed(
            match row {
                Some(row) => row.project_name,
                None => None,
            },
            d.project_name,
        ),
        project_path: changed(
            match row {
                Some(row) => row.project_path,
                None => None,
            },
            d.project_path,
        ),
        project_kind: changed(
            match row {
                Some(row) => Some(row.project_kind),
                None => None,
            },
            Some(d.project_kind),
        ),
        metadata_model: changed(
            match row {
                Some(row) => row.metadata_model,
                None => None,
            },
            d.metadata_model,
        ),
        created_at_ms: changed(
            match row {
                Some(row) => row.created_at_ms,
                None => None,
            },
            d.created_at_ms,
        ),
        updated_at_ms: changed(
            match row {
                Some(row) => row.updated_at_ms,
                None => None,
            },
            d.updated_at_ms,
        ),
        archived: changed(
            match row {
                Some(row) => Some(row.archived),
                None => None,
            },
            d.archived,
        ),
        current_rollout_path: changed(
            match row {
                Some(row) => row.current_rollout_path,
                None => None,
            },
            d.current_rollout_path,
        ),
    }
}

/// The patch changes some field.
pub open spec fn has_change(patch: PatchFacts) -> bool {
    !(patch.parent_thread_id is Keep) || !(patch.root_session_id is Keep) || !(patch.agent_role
        is Keep) || !(patch.title is Keep) || !(patch.project_name is Keep) || !(patch.project_path
        is Keep) || !(patch.project_kind is Keep) || !(patch.metadata_model is Keep) || !(
    patch.created_at_ms is Keep) || !(patch.updated_at_ms is Keep) || !(patch.archived is Keep)
        || !(patch.current_rollout_path is Keep)
}

/// The patch of a thread, if it asks for anything.
pub open spec fn thread_patch(input: InputFacts, ids: Seq<Seq<char>>, id: Seq<char>) -> Option<
    PatchFacts,
> {
    let v = view_of(input, ids, id);
    let d = decision(input, id, v);
    let patch = patch_of(id, input.resolved_at_ms, v, d);
    if patch_fault(id, input.resolved_at_ms) is Some {
        None
    } else if !has_change(patch) && v.existing is Some
        && v.existing->0.metadata_quality_status == d.quality {
        None
    } else {
        Some(patch)
    }
}

/// The patches of the first `n` threads, those that are left alone aside.
pub open spec fn patches_to(input: InputFacts, ids: Seq<Seq<char>>, n: nat) -> Seq<PatchFacts>
    decreases n,
{
    if n == 0 {
        Seq::empty()
    } else {
        let before = patches_to(input, ids, (n - 1) as nat);
        let id = ids[n - 1];
        if !blocked(input, id) && thread_patch(input, ids, id) is Some {
            before.push(thread_patch(input, ids, id)->0)
        } else {
            before
        }
    }
}

pub open spec fn code_rank(code: MetadataDiagnosticCode) -> int {
    match code {
        MetadataDiagnosticCode::InvalidResolutionTime => 0,
        MetadataDiagnosticCode::MissingSafeFact => 1,
        MetadataDiagnosticCode::FactBindingConflict => 2,
        MetadataDiagnosticCode::FieldConflict => 3,
        MetadataDiagnosticCode::ParentConflict => 4,
        MetadataDiagnosticCode::RoleConflict => 5,
        MetadataDiagnosticCode::ParentMissing => 6,
        MetadataDiagnosticCode::ParentCycle => 7,
        MetadataDiagnosticCode::ParentDepthExceeded => 8,
        MetadataDiagnosticCode::ProjectAssignmentConflict => 9,
    }
}

/// The order of remarks: by thread, kind, file, offset and field.
pub open spec fn finding_rank(a: Finding, b: Finding) -> Rank {
    optional_text_rank(a.thread_id, b.thread_id).or(
        int_rank(code_rank(a.code), code_rank(b.code)).or(
            optional_int_rank(as_int(a.source_file_id), as_int(b.source_file_id)).or(
                optional_int_rank(
                    unsigned_as_int(a.source_start_offset),
                    unsigned_as_int(b.source_start_offset),
                ).or(optional_text_rank(a.field, b.field)),
            ),
        ),
    )
}

pub open spec fn sorted_findings(findings: Seq<Finding>) -> Seq<Finding> {
    stably_sorted(findings, |a: Finding, b: Finding| finding_rank(a, b))
}

/// The remarks on the inputs themselves.
pub open spec fn input_findings(input: InputFacts, ids: Seq<Seq<char>>) -> Seq<Finding> {
    state_findings(input.threads) + findings_to(Phase::Files, input, ids, ids.len())
        + binding_findings(input, input.rollouts)
}

pub open spec fn time_finding() -> Finding {
    finding(
        MetadataDiagnosticCode::InvalidResolutionTime,
        MetadataDiagnosticSeverity::Warning,
        None,
        None,
        None,
        MetadataSourceKind::RelationshipGraph,
    )
}

/// What a resolution comes to.
pub open spec fn resolution(input: InputFacts) -> ResolutionFacts {
    let ids = affected(input);
    let first = input_findings(input, ids);
    if input.resolved_at_ms < 0 {
        ResolutionFacts {
            patches: Seq::empty(),
            diagnostics: sorted_findings(first.push(time_finding())),
            affected: ids,
        }
    } else {
        ResolutionFacts {
            patches: patches_to(input, ids, ids.len()),
            diagnostics: sorted_findings(
                first + findings_to(Phase::Relations, input, ids, ids.len()) + findings_to(
                    Phase::Cycles,
                    input,
                    ids,
                    ids.len(),
                ) + findings_to(Phase::Roots, input, ids, ids.len()) + findings_to(
                    Phase::Projects,
                    input,
                    ids,
                    ids.len(),
                ),
            ),
            affected: ids,
        }
    }
}

} // verus!
