//! Facts from the local state index.
use vstd::prelude::*;

use crate::diagnostics::{DiagnosticSeverity, SourceAvailability};

verus! {

/// Whether the state index could be read.
pub type StateSourceStatus = SourceAvailability;

#[derive(Clone, Debug, PartialEq, Eq)]
pub struct StateDiagnostic {
    pub code: String,
    pub severity: DiagnosticSeverity,
}

/// What the state index knows of one thread.
#[derive(Clone, Debug, PartialEq, Eq)]
pub struct StateThreadFact {
    pub thread_id: String,
    pub rollout_path: Option<String>,
    pub created_at_ms: Option<i64>,
    pub updated_at_ms: Option<i64>,
    pub archived: Option<bool>,
    pub title: Option<String>,
    pub name: Option<String>,
    pub cwd: Option<String>,
    pub metadata_model: Option<String>,
    pub agent_role_hint: Option<String>,
    pub agent_path: Option<String>,
}

pub struct IndexedThread {
    pub thread_id: Seq<char>,
    pub rollout_path: Option<Seq<char>>,
    pub created_at_ms: Option<i64>,
    pub updated_at_ms: Option<i64>,
    pub archived: Option<bool>,
    pub title: Option<Seq<char>>,
    pub name: Option<Seq<char>>,
    pub cwd: Option<Seq<char>>,
    pub metadata_model: Option<Seq<char>>,
    pub agent_role_hint: Option<Seq<char>>,
    pub agent_path: Option<Seq<char>>,
}

impl DeepView for StateThreadFact {
    type V = IndexedThread;

    open spec fn deep_view(&self) -> IndexedThread {
        IndexedThread {
            thread_id: self.thread_id@,
            rollout_path: self.rollout_path.deep_view(),
            created_at_ms: self.created_at_ms,
            updated_at_ms: self.updated_at_ms,
            archived: self.archived,
            title: self.title.deep_view(),
            name: self.name.deep_view(),
            cwd: self.cwd.deep_view(),
            metadata_model: self.metadata_model.deep_view(),
            agent_role_hint: self.agent_role_hint.deep_view(),
            agent_path: self.agent_path.deep_view(),
        }
    }
}

#[derive(Clone, Copy, Debug, PartialEq, Eq, Structural)]
pub enum SpawnEdgeSource {
    StateSpawnEdge,
}

/// A thread that was spawned by another.
#[derive(Clone, Debug, PartialEq, Eq)]
pub struct SpawnEdgeFact {
    pub parent_thread_id: String,
    pub child_thread_id: String,
    pub status: Option<String>,
    pub source: SpawnEdgeSource,
    pub observed_at_ms: Option<i64>,
}

pub struct Edge {
    pub parent: Seq<char>,
    pub child: Seq<char>,
}

impl DeepView for SpawnEdgeFact {
    type V = Edge;

    open spec fn deep_view(&self) -> Edge {
        Edge { parent: self.parent_thread_id@, child: self.child_thread_id@ }
    }
}

/// One view of the state index.
#[derive(Clone, Debug, PartialEq, Eq)]
pub struct StateSnapshot {
    pub status: StateSourceStatus,
    pub threads: Vec<StateThreadFact>,
    pub spawn_edges: Vec<SpawnEdgeFact>,
    pub spawn_edges_status: StateSourceStatus,
    pub diagnostics: Vec<StateDiagnostic>,
}

impl StateSnapshot {
    /// The view when the index could not be read.
    pub fn unavailable(diagnostics: Vec<StateDiagnostic>) -> (r: Self)
        ensures
            r.status is Unavailable && r.spawn_edges_status is Unavailable,
            r.threads@.len() == 0 && r.spawn_edges@.len() == 0,
            r.diagnostics == diagnostics,
    {
        StateSnapshot {
            status: SourceAvailability::Unavailable,
            threads: Vec::new(),
            spawn_edges: Vec::new(),
            spawn_edges_status: SourceAvailability::Unavailable,
            diagnostics,
        }
    }
}

} // verus!
