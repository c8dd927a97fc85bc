//! What the resolver takes and gives.
use vstd::prelude::*;
use vstd::std_specs::convert::FromSpecImpl;

use crate::domain::SourceFileState;
use crate::global_state::GlobalStateSnapshot;
#[allow(unused_imports)]
use crate::global_state::GlobalFacts;
use crate::platform::Platform;
use crate::rollout::RolloutThreadFact;
#[allow(unused_imports)]
use crate::rollout::ThreadFacts;
#[allow(unused_imports)]
use crate::rollout_parser::field_name;
use crate::session_index::SessionNameSnapshot;
#[allow(unused_imports)]
use crate::session_index::NamedThread;
use crate::shared::{AgentRole, MetadataQualityStatus, ProjectKind, ResolvedThreadPatch};
#[allow(unused_imports)]
use crate::shared::PatchFacts;
use crate::state_index::StateSnapshot;
#[allow(unused_imports)]
use crate::state_index::{Edge, IndexedThread};
#[allow(unused_imports)]
use super::fields::SourceFacts;

verus! {

/// A thread as storage holds it.
#[derive(Clone, Debug, PartialEq, Eq)]
pub struct ExistingThreadProjection {
    pub thread_id: String,
    pub parent_thread_id: Option<String>,
    pub root_session_id: Option<String>,
    pub agent_role: AgentRole,
    pub title: Option<String>,
    pub project_name: Option<String>,
    pub project_path: Option<String>,
    pub project_kind: ProjectKind,
    pub metadata_model: Option<String>,
    pub created_at_ms: Option<i64>,
    pub updated_at_ms: Option<i64>,
    pub archived: bool,
    pub current_rollout_path: Option<String>,
    pub metadata_quality_status: MetadataQualityStatus,
}

/// A thread as it was resolved before. It serves to tell changes.
#[derive(Clone, Debug, PartialEq, Eq)]
pub struct ExistingThread {
    pub thread_id: String,
    pub parent_thread_id: Option<String>,
    pub root_session_id: Option<String>,
    pub agent_role: AgentRole,
    pub title: Option<String>,
    pub project_name: Option<String>,
    pub project_path: Option<String>,
    pub project_kind: ProjectKind,
    pub metadata_model: Option<String>,
    pub created_at_ms: Option<i64>,
    pub updated_at_ms: Option<i64>,
    pub archived: bool,
    pub current_rollout_path: Option<String>,
    pub metadata_quality_status: MetadataQualityStatus,
}

impl From<ExistingThreadProjection> for ExistingThread {
    fn from(projection: ExistingThreadProjection) -> (r: Self) {
        ExistingThread {
            thread_id: projection.thread_id,
            parent_thread_id: projection.parent_thread_id,
            root_session_id: projection.root_session_id,
            agent_role: projection.agent_role,
            title: projection.title,
            project_name: projection.project_name,
            project_path: projection.project_path,
            project_kind: projection.project_kind,
            metadata_model: projection.metadata_model,
            created_at_ms: projection.created_at_ms,
            updated_at_ms: projection.updated_at_ms,
            archived: projection.archived,
            current_rollout_path: projection.current_rollout_path,
            metadata_quality_status: projection.metadata_quality_status,
        }
    }
}

impl FromSpecImpl<ExistingThreadProjection> for ExistingThread {
    open spec fn obeys_from_spec() -> bool {
        true
    }

    open spec fn from_spec(projection: ExistingThreadProjection) -> Self {
        ExistingThread {
            thread_id: projection.thread_id,
            parent_thread_id: projection.parent_thread_id,
            root_session_id: projection.root_session_id,
            agent_role: projection.agent_role,
            title: projection.title,
            project_name: projection.project_name,
            project_path: projection.project_path,
            project_kind: projection.project_kind,
            metadata_model: projection.metadata_model,
            created_at_ms: projection.created_at_ms,
            updated_at_ms: projection.updated_at_ms,
            archived: projection.archived,
            current_rollout_path: projection.current_rollout_path,
            metadata_quality_status: projection.metadata_quality_status,
        }
    }
}

pub struct ExistingFacts {
    pub thread_id: Seq<char>,
    pub parent_thread_id: Option<Seq<char>>,
    pub root_session_id: Option<Seq<char>>,
    pub agent_role: AgentRole,
    pub title: Option<Seq<char>>,
    pub project_name: Option<Seq<char>>,
    pub project_path: Option<Seq<char>>,
    pub project_kind: ProjectKind,
    pub metadata_model: Option<Seq<char>>,
    pub created_at_ms: Option<i64>,
    pub updated_at_ms: Option<i64>,
    pub archived: bool,
    pub current_rollout_path: Option<Seq<char>>,
    pub metadata_quality_status: MetadataQualityStatus,
}

impl DeepView for ExistingThread {
    type V = ExistingFacts;

    open spec fn deep_view(&self) -> ExistingFacts {
        ExistingFacts {
            thread_id: self.thread_id@,
            parent_thread_id: self.parent_thread_id.deep_view(),
            root_session_id: self.root_session_id.deep_view(),
            agent_role: self.agent_role,
            title: self.title.deep_view(),
            project_name: self.project_name.deep_view(),
            project_path: self.project_path.deep_view(),
            project_kind: self.project_kind,
            metadata_model: self.metadata_model.deep_view(),
            created_at_ms: self.created_at_ms,
            updated_at_ms: self.updated_at_ms,
            archived: self.archived,
            current_rollout_path: self.current_rollout_path.deep_view(),
            metadata_quality_status: self.metadata_quality_status,
        }
    }
}

/// The source views that one resolution goes by.
#[derive(Clone, Debug, PartialEq, Eq)]
pub struct ResolutionInput {
    /// Whose paths the facts hold.
    pub platform: Platform,
    pub state_snapshot: StateSnapshot,
    pub session_name_snapshot: SessionNameSnapshot,
    pub global_state_snapshot: GlobalStateSnapshot,
    pub rollout_facts: Vec<RolloutThreadFact>,
    pub source_file_observations: Vec<SourceFileState>,
    pub existing_threads: Vec<ExistingThread>,
    pub resolved_at_ms: i64,
}

pub struct InputFacts {
    pub platform: Platform,
    pub state_complete: bool,
    pub edges_complete: bool,
    pub sessions_complete: bool,
    pub threads: Seq<IndexedThread>,
    pub edges: Seq<Edge>,
    pub names: Seq<NamedThread>,
    pub sessions: Seq<NamedThread>,
    pub global: GlobalFacts,
    pub rollouts: Seq<ThreadFacts>,
    pub sources: Seq<SourceFacts>,
    pub existing: Seq<ExistingFacts>,
    pub resolved_at_ms: i64,
}

impl DeepView for ResolutionInput {
    type V = InputFacts;

    open spec fn deep_view(&self) -> InputFacts {
        InputFacts {
            platform: self.platform,
            state_complete: self.state_snapshot.status is Complete,
            edges_complete: self.state_snapshot.spawn_edges_status is Complete,
            sessions_complete: self.session_name_snapshot.status is Complete,
            threads: self.state_snapshot.threads.deep_view(),
            edges: self.state_snapshot.spawn_edges.deep_view(),
            names: self.session_name_snapshot.names.deep_view(),
            sessions: self.session_name_snapshot.facts.deep_view(),
            global: self.global_state_snapshot.deep_view(),
            rollouts: self.rollout_facts.deep_view(),
            sources: self.source_file_observations.deep_view(),
            existing: self.existing_threads.deep_view(),
            resolved_at_ms: self.resolved_at_ms,
        }
    }
}

#[derive(Clone, Copy, Debug, PartialEq, Eq, PartialOrd, Ord, Structural)]
pub enum MetadataDiagnosticSeverity {
    Warning,
    Conflict,
}

#[derive(Clone, Copy, Debug, PartialEq, Eq, PartialOrd, Ord, Structural)]
pub enum MetadataDiagnosticCode {
    InvalidResolutionTime,
    MissingSafeFact,
    FactBindingConflict,
    FieldConflict,
    ParentConflict,
    RoleConflict,
    ParentMissing,
    ParentCycle,
    ParentDepthExceeded,
    ProjectAssignmentConflict,
}

#[derive(Clone, Copy, Debug, PartialEq, Eq, PartialOrd, Ord, Structural)]
pub enum MetadataSourceKind {
    StateIndex,
    SessionIndex,
    Rollout,
    SourceObservation,
    RelationshipGraph,
    GlobalState,
}

/// A remark of the resolver. It holds identifiers, offsets and fixed words alone.
#[derive(Clone, Debug, PartialEq, Eq)]
pub struct MetadataDiagnostic {
    pub code: MetadataDiagnosticCode,
    pub severity: MetadataDiagnosticSeverity,
    pub thread_id: Option<String>,
    pub source_file_id: Option<i64>,
    pub source_start_offset: Option<u64>,
    pub field: Option<&'static str>,
    pub source_kind: MetadataSourceKind,
}

pub struct Finding {
    pub code: MetadataDiagnosticCode,
    pub severity: MetadataDiagnosticSeverity,
    pub thread_id: Option<Seq<char>>,
    pub source_file_id: Option<i64>,
    pub source_start_offset: Option<u64>,
    pub field: Option<Seq<char>>,
    pub source_kind: MetadataSourceKind,
}

impl DeepView for MetadataDiagnostic {
    type V = Finding;

    open spec fn deep_view(&self) -> Finding {
        Finding {
            code: self.code,
            severity: self.severity,
            thread_id: self.thread_id.deep_view(),
            source_file_id: self.source_file_id,
            source_start_offset: self.source_start_offset,
            field: field_name(self.field),
            source_kind: self.source_kind,
        }
    }
}

/// A remark on a thread.
pub open spec fn finding(
    code: MetadataDiagnosticCode,
    severity: MetadataDiagnosticSeverity,
    thread_id: Option<Seq<char>>,
    source_file_id: Option<i64>,
    field: Option<Seq<char>>,
    source_kind: MetadataSourceKind,
) -> Finding {
    Finding {
        code,
        severity,
        thread_id,
        source_file_id,
        source_start_offset: None,
        field,
        source_kind,
    }
}

/// Notes a remark.
pub fn note(
    diagnostics: &mut Vec<MetadataDiagnostic>,
    code: MetadataDiagnosticCode,
    severity: MetadataDiagnosticSeverity,
    thread_id: Option<String>,
    source_file_id: Option<i64>,
    field: Option<&'static str>,
    source_kind: MetadataSourceKind,
)
    ensures
        final(diagnostics).deep_view() == old(diagnostics).deep_view().push(
            finding(
                code,
                severity,
                thread_id.deep_view(),
                source_file_id,
                field_name(field),
                source_kind,
            ),
        ),
{
    let ghost made = finding(
        code,
        severity,
        thread_id.deep_view(),
        source_file_id,
        field_name(field),
        source_kind,
    );
    diagnostics.push(
        MetadataDiagnostic {
            code,
            severity,
            thread_id,
            source_file_id,
            source_start_offset: None,
            field,
            source_kind,
        },
    );
    assert(diagnostics.deep_view() =~= old(diagnostics).deep_view().push(made));
}

/// What a resolution comes to.
#[derive(Clone, Debug, PartialEq, Eq)]
pub struct ResolutionResult {
    pub patches: Vec<ResolvedThreadPatch>,
    pub diagnostics: Vec<MetadataDiagnostic>,
    pub affected_thread_ids: Vec<String>,
}

#[verifier::ext_equal]
pub struct ResolutionFacts {
    pub patches: Seq<PatchFacts>,
    pub diagnostics: Seq<Finding>,
    pub affected: Seq<Seq<char>>,
}

impl DeepView for ResolutionResult {
    type V = ResolutionFacts;

    open spec fn deep_view(&self) -> ResolutionFacts {
        ResolutionFacts {
            patches: self.patches.deep_view(),
            diagnostics: self.diagnostics.deep_view(),
            affected: self.affected_thread_ids.deep_view(),
        }
    }
}

} // verus!
