use codex_usage::domain::{FileStatus, SourceArea, SourceFileState};
use codex_usage::platform::Platform;
use codex_usage::shared::{AgentRole, MetadataQualityStatus, Patch, ProjectKind, ResolvedThreadPatch};
use codex_usage::global_state::{GlobalStateSnapshot, GlobalStateStatus};
use codex_usage::metadata::fields::subagent_title_from_agent_path;
use codex_usage::metadata::input::{
    ExistingThread, MetadataDiagnosticCode, MetadataDiagnosticSeverity, MetadataSourceKind,
    ResolutionInput, ResolutionResult,
};
use codex_usage::metadata::resolver::ThreadMetadataResolver;
use codex_usage::rollout::{
    AgentRoleProvenance, Candidate, CwdProvenance, OwnershipBoundary, OwnershipConfidence,
    ParentHintProvenance, RolloutThreadFact,
};
use codex_usage::session_index::{SessionNameFact, SessionNameSnapshot, SessionSourceStatus};
use codex_usage::state_index::{
    SpawnEdgeFact, SpawnEdgeSource, StateSnapshot, StateSourceStatus, StateThreadFact,
};

fn fixture_path(name: &str) -> String {
    format!("/tmp/usagi-codex-metadata/{}", name.trim_start_matches('/'))
}

fn state(threads: Vec<StateThreadFact>, edges: Vec<(&str, &str)>) -> StateSnapshot {
    StateSnapshot {
        status: StateSourceStatus::Complete,
        threads,
        spawn_edges: edges
            .into_iter()
            .map(|(parent, child)| SpawnEdgeFact {
                parent_thread_id: parent.to_owned(),
                child_thread_id: child.to_owned(),
                status: None,
                source: SpawnEdgeSource::StateSpawnEdge,
                observed_at_ms: None,
            })
            .collect(),
        spawn_edges_status: StateSourceStatus::Complete,
        diagnostics: Vec::new(),
    }
}

fn state_thread(id: &str) -> StateThreadFact {
    StateThreadFact {
        thread_id: id.to_owned(),
        rollout_path: None,
        created_at_ms: Some(10),
        updated_at_ms: Some(20),
        archived: None,
        title: None,
        name: None,
        cwd: None,
        metadata_model: None,
        agent_role_hint: None,
        agent_path: None,
    }
}

fn sessions(facts: Vec<SessionNameFact>) -> SessionNameSnapshot {
    let names = facts.clone();
    SessionNameSnapshot {
        names,
        facts,
        diagnostics: Vec::new(),
        status: SessionSourceStatus::Complete,
    }
}

fn global_state() -> GlobalStateSnapshot {
    GlobalStateSnapshot::unavailable(GlobalStateStatus::NotPresent, Vec::new())
}

fn rollout(source_id: i64, owner: &str) -> RolloutThreadFact {
    RolloutThreadFact {
        source_file_id: source_id,
        owning_thread_id: owner.to_owned(),
        cwd: None,
        created_at_ms: Some(11),
        latest_context_model: None,
        latest_context_turn_id: None,
        latest_context_at_ms: None,
        latest_context_record_offset: None,
        parent_thread_id_hint: None,
        agent_role_hint: None,
        agent_path: None,
        ownership_boundary: OwnershipBoundary {
            replay_start_offset: None,
            owning_records_start_offset: Some(0),
            confidence: OwnershipConfidence::Confirmed,
        },
        has_conflict: false,
        relationship_conflict: false,
    }
}

fn rollout_with_agent_path(source_id: i64, owner: &str, agent_path: &str) -> RolloutThreadFact {
    let mut fact = rollout(source_id, owner);
    fact.agent_path = Some(Candidate {
        value: agent_path.to_owned(),
        provenance: codex_usage::rollout::AgentPathProvenance::SessionMeta,
        record_offset: 1,
    });
    fact
}

fn source(source_id: i64, owner: &str, area: SourceArea, path: &str) -> SourceFileState {
    SourceFileState::new(
        Platform::here(),
        source_id,
        Some(owner.to_owned()),
        path.to_owned(),
        area,
        source_id,
        source_id,
        1,
        10,
        10,
        FileStatus::Present,
        10,
    )
    .unwrap()
}

fn existing(id: &str) -> ExistingThread {
    ExistingThread {
        thread_id: id.to_owned(),
        parent_thread_id: None,
        root_session_id: None,
        agent_role: AgentRole::Unknown,
        title: None,
        project_name: None,
        project_path: None,
        project_kind: ProjectKind::Unknown,
        metadata_model: None,
        created_at_ms: None,
        updated_at_ms: None,
        archived: false,
        current_rollout_path: None,
        metadata_quality_status: MetadataQualityStatus::Partial,
    }
}

fn existing_main(id: &str) -> ExistingThread {
    ExistingThread {
        agent_role: AgentRole::Main,
        ..existing(id)
    }
}

fn patch<'a>(result: &'a ResolutionResult, id: &str) -> &'a ResolvedThreadPatch {
    result
        .patches
        .iter()
        .find(|patch| patch.thread_id == id)
        .unwrap()
}

#[test]
fn fixed_source_priority_and_null_keep_are_deterministic() {
    let mut primary = state_thread("thread-a");
    primary.name = Some("State Name".to_owned());
    primary.title = Some("State Title".to_owned());
    primary.cwd = Some(fixture_path("state/project"));
    primary.metadata_model = Some("state-model".to_owned());
    let null_fact = state_thread("thread-b");

    let mut rollout_fact = rollout(1, "thread-a");
    rollout_fact.cwd = Some(Candidate {
        value: fixture_path("rollout/project"),
        provenance: CwdProvenance::SessionMeta,
        record_offset: 2,
    });
    rollout_fact.latest_context_model = Some("rollout-model".to_owned());
    rollout_fact.latest_context_at_ms = Some(30);
    rollout_fact.latest_context_record_offset = Some(3);

    let mut old_b = existing("thread-b");
    old_b.title = Some("Keep Existing".to_owned());
    let result = ThreadMetadataResolver::resolve(ResolutionInput {
        platform: Platform::here(),
        state_snapshot: state(vec![primary, null_fact], Vec::new()),
        session_name_snapshot: sessions(vec![SessionNameFact {
            thread_id: "thread-a".to_owned(),
            thread_name: "Session Name".to_owned(),
            updated_at_ms: Some(40),
        }]),
        global_state_snapshot: global_state(),
        rollout_facts: vec![rollout_fact],
        source_file_observations: vec![source(
            1,
            "thread-a",
            SourceArea::Sessions,
            &fixture_path("sessions/rollout-a.jsonl"),
        )],
        existing_threads: vec![existing("thread-a"), old_b],
        resolved_at_ms: 100,
    });

    let resolved = patch(&result, "thread-a");
    assert_eq!(resolved.title, Patch::Assign("State Name".to_owned()));
    assert_eq!(
        resolved.project_path,
        Patch::Assign(fixture_path("rollout/project"))
    );
    assert_eq!(
        resolved.metadata_model,
        Patch::Assign("state-model".to_owned())
    );
    assert!(
        result
            .patches
            .iter()
            .find(|patch| patch.thread_id == "thread-b")
            .is_none_or(|patch| patch.title == Patch::Keep)
    );
    assert!(
        result
            .patches
            .windows(2)
            .all(|pair| pair[0].thread_id < pair[1].thread_id)
    );
}

#[test]
fn t_mu03_a02_agent_path_title_format_and_priority() {
    assert_eq!(
        subagent_title_from_agent_path(Platform::here(), "/root/gate_b_rereview"),
        Some("Gate b rereview".to_owned())
    );
    assert_eq!(
        subagent_title_from_agent_path(Platform::here(), "/root/group/a__b"),
        Some("A b".to_owned())
    );
    assert_eq!(
        subagent_title_from_agent_path(Platform::here(), r"/root/a\b"),
        Some(r"A\b".to_owned())
    );

    let resolve = |child: StateThreadFact,
                   session_title: Option<&str>,
                   rollout_path: Option<&str>| {
        let child_rollout = rollout_path.map(|path| rollout_with_agent_path(1, "child", path));
        let result = ThreadMetadataResolver::resolve(ResolutionInput {
            platform: Platform::here(),
            state_snapshot: state(vec![state_thread("root"), child], vec![("root", "child")]),
            session_name_snapshot: sessions(session_title.map_or_else(Vec::new, |title| {
                vec![SessionNameFact {
                    thread_id: "child".to_owned(),
                    thread_name: title.to_owned(),
                    updated_at_ms: Some(30),
                }]
            })),
            global_state_snapshot: global_state(),
            rollout_facts: child_rollout.into_iter().collect(),
            source_file_observations: Vec::new(),
            existing_threads: vec![existing("root"), existing("child")],
            resolved_at_ms: 100,
        });
        patch(&result, "child").title.clone()
    };

    let mut child = state_thread("child");
    child.name = Some("State Name".to_owned());
    child.title = Some("State Title".to_owned());
    child.agent_path = Some("/root/state_path".to_owned());
    assert_eq!(
        resolve(
            child.clone(),
            Some("Session Name"),
            Some("/root/rollout_path")
        ),
        Patch::Assign("State Name".to_owned())
    );

    child.name = None;
    assert_eq!(
        resolve(
            child.clone(),
            Some("Session Name"),
            Some("/root/rollout_path")
        ),
        Patch::Assign("State Title".to_owned())
    );

    child.title = None;
    assert_eq!(
        resolve(
            child.clone(),
            Some("Session Name"),
            Some("/root/rollout_path")
        ),
        Patch::Assign("Session Name".to_owned())
    );

    child.agent_path = Some("/root/state_path".to_owned());
    assert_eq!(
        resolve(child.clone(), None, Some("/root/rollout_path")),
        Patch::Assign("State path".to_owned())
    );

    child.agent_path = None;
    assert_eq!(
        resolve(child, None, Some("/root/rollout_path")),
        Patch::Assign("Rollout path".to_owned())
    );
}

#[test]
fn t_mu03_a02_main_never_uses_agent_path_title() {
    let mut root = state_thread("main");
    root.agent_path = Some("/root/main_path".to_owned());
    let mut main_rollout = rollout_with_agent_path(1, "main", "/root/rollout_main_path");
    main_rollout.agent_role_hint = Some(Candidate {
        value: "main".to_owned(),
        provenance: AgentRoleProvenance::SessionMetaRole,
        record_offset: 1,
    });
    let result = ThreadMetadataResolver::resolve(ResolutionInput {
        platform: Platform::here(),
        state_snapshot: state(vec![root], Vec::new()),
        session_name_snapshot: sessions(Vec::new()),
        global_state_snapshot: global_state(),
        rollout_facts: vec![main_rollout],
        source_file_observations: Vec::new(),
        existing_threads: vec![existing_main("main")],
        resolved_at_ms: 100,
    });
    assert_eq!(patch(&result, "main").title, Patch::Keep);
}

#[test]
fn t_mu03_a02_unavailable_state_preserves_existing_title_but_allows_subagent_fallback() {
    let mut titled = rollout_with_agent_path(1, "titled", "/root/rollout_titled");
    titled.parent_thread_id_hint = Some(Candidate {
        value: "parent".to_owned(),
        provenance: ParentHintProvenance::SubagentSource,
        record_offset: 1,
    });
    let mut untitled = rollout_with_agent_path(2, "untitled", "/root/gate_b_rereview");
    untitled.parent_thread_id_hint = Some(Candidate {
        value: "parent".to_owned(),
        provenance: ParentHintProvenance::SubagentSource,
        record_offset: 1,
    });
    let mut existing_titled = existing("titled");
    existing_titled.title = Some("Existing title".to_owned());
    let result = ThreadMetadataResolver::resolve(ResolutionInput {
        platform: Platform::here(),
        state_snapshot: StateSnapshot::unavailable(Vec::new()),
        session_name_snapshot: sessions(vec![SessionNameFact {
            thread_id: "titled".to_owned(),
            thread_name: "Lower priority".to_owned(),
            updated_at_ms: Some(30),
        }]),
        global_state_snapshot: global_state(),
        rollout_facts: vec![titled, untitled],
        source_file_observations: Vec::new(),
        existing_threads: vec![existing_titled, existing("untitled")],
        resolved_at_ms: 100,
    });
    assert!(
        result
            .patches
            .iter()
            .all(|patch| patch.thread_id != "titled")
    );
    assert_eq!(
        patch(&result, "untitled").title,
        Patch::Assign("Gate b rereview".to_owned())
    );
}

#[test]
fn two_level_subagent_chain_resolves_one_root() {
    let result = ThreadMetadataResolver::resolve(ResolutionInput {
        platform: Platform::here(),
        state_snapshot: state(
            vec![
                state_thread("root"),
                state_thread("child"),
                state_thread("grandchild"),
            ],
            vec![("root", "child"), ("child", "grandchild")],
        ),
        session_name_snapshot: sessions(Vec::new()),
        global_state_snapshot: global_state(),
        rollout_facts: Vec::new(),
        source_file_observations: Vec::new(),
        existing_threads: vec![existing("root"), existing("child"), existing("grandchild")],
        resolved_at_ms: 100,
    });

    assert_eq!(
        patch(&result, "root").agent_role,
        Patch::Assign(AgentRole::Main)
    );
    assert_eq!(
        patch(&result, "child").root_session_id,
        Patch::Assign("root".to_owned())
    );
    assert_eq!(
        patch(&result, "grandchild").parent_thread_id,
        Patch::Assign("child".to_owned())
    );
    assert_eq!(
        patch(&result, "grandchild").root_session_id,
        Patch::Assign("root".to_owned())
    );
}

#[test]
fn missing_parent_multi_parent_cycle_and_unknown_are_safe() {
    let mut explicit_unknown = rollout(10, "unknown");
    explicit_unknown.agent_role_hint = Some(Candidate {
        value: "subagent".to_owned(),
        provenance: AgentRoleProvenance::SessionMetaRole,
        record_offset: 1,
    });
    let result = ThreadMetadataResolver::resolve(ResolutionInput {
        platform: Platform::here(),
        state_snapshot: state(
            vec![
                state_thread("missing-child"),
                state_thread("multi"),
                state_thread("cycle-a"),
                state_thread("cycle-b"),
            ],
            vec![
                ("absent", "missing-child"),
                ("parent-a", "multi"),
                ("parent-b", "multi"),
                ("cycle-a", "cycle-b"),
                ("cycle-b", "cycle-a"),
            ],
        ),
        session_name_snapshot: sessions(Vec::new()),
        global_state_snapshot: global_state(),
        rollout_facts: vec![explicit_unknown],
        source_file_observations: vec![source(
            10,
            "unknown",
            SourceArea::Sessions,
            &fixture_path("sessions/unknown.jsonl"),
        )],
        existing_threads: vec![
            existing("missing-child"),
            existing_main("multi"),
            existing_main("cycle-a"),
            existing_main("cycle-b"),
            existing_main("unknown"),
        ],
        resolved_at_ms: 100,
    });

    assert_eq!(patch(&result, "missing-child").agent_role, Patch::Keep);
    for id in ["multi", "cycle-a", "cycle-b", "unknown"] {
        assert_eq!(patch(&result, id).agent_role, Patch::Keep);
        assert_eq!(patch(&result, id).parent_thread_id, Patch::Keep);
        assert_eq!(patch(&result, id).root_session_id, Patch::Keep);
    }
    assert!(
        result
            .diagnostics
            .iter()
            .any(|diagnostic| diagnostic.code == MetadataDiagnosticCode::ParentMissing)
    );
    assert!(
        result
            .diagnostics
            .iter()
            .any(|diagnostic| diagnostic.code == MetadataDiagnosticCode::ParentConflict)
    );
    assert!(
        result
            .diagnostics
            .iter()
            .any(|diagnostic| diagnostic.code == MetadataDiagnosticCode::ParentCycle)
    );
}

#[test]
fn unavailable_relationships_require_explicit_main_evidence() {
    let mut explicit_main = rollout(1, "explicit-main");
    explicit_main.agent_role_hint = Some(Candidate {
        value: "main".to_owned(),
        provenance: AgentRoleProvenance::SessionMetaRole,
        record_offset: 1,
    });
    let result = ThreadMetadataResolver::resolve(ResolutionInput {
        platform: Platform::here(),
        state_snapshot: StateSnapshot::unavailable(Vec::new()),
        session_name_snapshot: sessions(Vec::new()),
        global_state_snapshot: global_state(),
        rollout_facts: vec![explicit_main],
        source_file_observations: Vec::new(),
        existing_threads: vec![existing("explicit-main"), existing("no-evidence")],
        resolved_at_ms: 100,
    });

    assert_eq!(
        patch(&result, "explicit-main").agent_role,
        Patch::Assign(AgentRole::Main)
    );
    assert_eq!(
        patch(&result, "explicit-main").root_session_id,
        Patch::Assign("explicit-main".to_owned())
    );
    assert!(result.patches.iter().all(|patch| {
        patch.thread_id != "no-evidence"
            || (patch.agent_role != Patch::Assign(AgentRole::Main)
                && !matches!(patch.root_session_id, Patch::Assign(_)))
    }));
}

#[test]
fn confirmed_rollout_parent_updates_direct_relationship_when_root_is_unknown() {
    let mut child = rollout(1, "child");
    child.parent_thread_id_hint = Some(Candidate {
        value: "parent".to_owned(),
        provenance: ParentHintProvenance::SubagentSource,
        record_offset: 1,
    });
    child.agent_role_hint = Some(Candidate {
        value: "subagent".to_owned(),
        provenance: AgentRoleProvenance::SubagentSource,
        record_offset: 1,
    });

    let mut state_snapshot = state(
        vec![state_thread("parent"), state_thread("child")],
        Vec::new(),
    );
    state_snapshot.spawn_edges_status = StateSourceStatus::Unavailable;

    let result = ThreadMetadataResolver::resolve(ResolutionInput {
        platform: Platform::here(),
        state_snapshot,
        session_name_snapshot: sessions(Vec::new()),
        global_state_snapshot: global_state(),
        rollout_facts: vec![child],
        source_file_observations: Vec::new(),
        existing_threads: vec![existing("parent"), existing("child")],
        resolved_at_ms: 100,
    });

    let child = patch(&result, "child");
    assert_eq!(child.parent_thread_id, Patch::Assign("parent".to_owned()));
    assert_eq!(child.agent_role, Patch::Assign(AgentRole::Subagent));
    assert_eq!(child.root_session_id, Patch::Keep);
    assert_eq!(
        child.metadata_quality_status,
        MetadataQualityStatus::Partial
    );
    assert!(result.patches.iter().all(|patch| {
        patch.thread_id != "parent"
            || (patch.agent_role != Patch::Assign(AgentRole::Main)
                && !matches!(patch.root_session_id, Patch::Assign(_)))
    }));
}

#[test]
fn a_late_parent_recomputes_the_child_root() {
    let mut child_fact = rollout(1, "child");
    child_fact.parent_thread_id_hint = Some(Candidate {
        value: "parent".to_owned(),
        provenance: ParentHintProvenance::SubagentSource,
        record_offset: 1,
    });
    let before = ThreadMetadataResolver::resolve(ResolutionInput {
        platform: Platform::here(),
        state_snapshot: state(vec![state_thread("child")], Vec::new()),
        session_name_snapshot: sessions(Vec::new()),
        global_state_snapshot: global_state(),
        rollout_facts: vec![child_fact.clone()],
        source_file_observations: Vec::new(),
        existing_threads: vec![existing("child")],
        resolved_at_ms: 100,
    });
    assert_eq!(patch(&before, "child").parent_thread_id, Patch::Keep);
    assert_eq!(patch(&before, "child").agent_role, Patch::Keep);
    assert_eq!(patch(&before, "child").root_session_id, Patch::Keep);

    let after = ThreadMetadataResolver::resolve(ResolutionInput {
        platform: Platform::here(),
        state_snapshot: state(
            vec![state_thread("parent"), state_thread("child")],
            Vec::new(),
        ),
        session_name_snapshot: sessions(Vec::new()),
        global_state_snapshot: global_state(),
        rollout_facts: vec![child_fact],
        source_file_observations: Vec::new(),
        existing_threads: vec![existing("parent"), existing("child")],
        resolved_at_ms: 101,
    });
    assert_eq!(
        patch(&after, "child").root_session_id,
        Patch::Assign("parent".to_owned())
    );
}

#[test]
fn state_edge_wins_over_rollout_hint_and_role_conflict_is_unknown() {
    let mut child = rollout(1, "child");
    child.parent_thread_id_hint = Some(Candidate {
        value: "rollout-parent".to_owned(),
        provenance: ParentHintProvenance::SubagentSource,
        record_offset: 1,
    });
    child.agent_role_hint = Some(Candidate {
        value: "main".to_owned(),
        provenance: AgentRoleProvenance::SessionMetaRole,
        record_offset: 2,
    });
    let result = ThreadMetadataResolver::resolve(ResolutionInput {
        platform: Platform::here(),
        state_snapshot: state(
            vec![state_thread("state-parent"), state_thread("child")],
            vec![("state-parent", "child")],
        ),
        session_name_snapshot: sessions(Vec::new()),
        global_state_snapshot: global_state(),
        rollout_facts: vec![child],
        source_file_observations: Vec::new(),
        existing_threads: vec![existing("state-parent"), existing("child")],
        resolved_at_ms: 100,
    });

    let child = patch(&result, "child");
    assert_eq!(child.parent_thread_id, Patch::Keep);
    assert_eq!(child.root_session_id, Patch::Keep);
    assert_eq!(child.agent_role, Patch::Keep);
    assert_eq!(
        child.metadata_quality_status,
        MetadataQualityStatus::Conflict
    );
    assert!(result.diagnostics.iter().any(|diagnostic| {
        diagnostic.thread_id.as_deref() == Some("child")
            && diagnostic.code == MetadataDiagnosticCode::RoleConflict
    }));
}

#[test]
fn direct_rollout_parent_resolves_without_a_state_spawn_edge() {
    let mut child = rollout(1, "child");
    child.parent_thread_id_hint = Some(Candidate {
        value: "root".to_owned(),
        provenance: ParentHintProvenance::SessionMetaParent,
        record_offset: 1,
    });
    child.agent_role_hint = Some(Candidate {
        value: "subagent".to_owned(),
        provenance: AgentRoleProvenance::SubagentSource,
        record_offset: 1,
    });
    let result = ThreadMetadataResolver::resolve(ResolutionInput {
        platform: Platform::here(),
        state_snapshot: state(
            vec![state_thread("root"), state_thread("child")],
            Vec::new(),
        ),
        session_name_snapshot: sessions(Vec::new()),
        global_state_snapshot: global_state(),
        rollout_facts: vec![child],
        source_file_observations: vec![source(
            1,
            "child",
            SourceArea::Sessions,
            &fixture_path("sessions/guardian.jsonl"),
        )],
        existing_threads: vec![existing("root"), existing("child")],
        resolved_at_ms: 100,
    });

    assert_eq!(
        patch(&result, "child").parent_thread_id,
        Patch::Assign("root".to_owned())
    );
    assert_eq!(
        patch(&result, "child").root_session_id,
        Patch::Assign("root".to_owned())
    );
    assert_eq!(
        patch(&result, "child").agent_role,
        Patch::Assign(AgentRole::Subagent)
    );
    assert_eq!(
        patch(&result, "root").agent_role,
        Patch::Assign(AgentRole::Main)
    );
    assert!(!result.diagnostics.iter().any(|diagnostic| {
        diagnostic.thread_id.as_deref() == Some("child")
            && diagnostic.code == MetadataDiagnosticCode::ParentConflict
    }));
}

#[test]
fn state_edge_and_direct_parent_same_value_are_consistent() {
    let mut child = rollout(1, "child");
    child.parent_thread_id_hint = Some(Candidate {
        value: "root".to_owned(),
        provenance: ParentHintProvenance::SessionMetaParent,
        record_offset: 1,
    });
    let result = ThreadMetadataResolver::resolve(ResolutionInput {
        platform: Platform::here(),
        state_snapshot: state(
            vec![state_thread("root"), state_thread("child")],
            vec![("root", "child")],
        ),
        session_name_snapshot: sessions(Vec::new()),
        global_state_snapshot: global_state(),
        rollout_facts: vec![child],
        source_file_observations: Vec::new(),
        existing_threads: vec![existing("root"), existing("child")],
        resolved_at_ms: 100,
    });
    assert_eq!(
        patch(&result, "child").parent_thread_id,
        Patch::Assign("root".to_owned())
    );
    assert!(!result.diagnostics.iter().any(|diagnostic| {
        diagnostic.thread_id.as_deref() == Some("child")
            && diagnostic.code == MetadataDiagnosticCode::ParentConflict
    }));
}

#[test]
fn state_edge_wins_over_conflicting_direct_parent_but_marks_conflict() {
    let mut child = rollout(1, "child");
    child.parent_thread_id_hint = Some(Candidate {
        value: "rollout-parent".to_owned(),
        provenance: ParentHintProvenance::SessionMetaParent,
        record_offset: 1,
    });
    let result = ThreadMetadataResolver::resolve(ResolutionInput {
        platform: Platform::here(),
        state_snapshot: state(
            vec![
                state_thread("state-parent"),
                state_thread("rollout-parent"),
                state_thread("child"),
            ],
            vec![("state-parent", "child")],
        ),
        session_name_snapshot: sessions(Vec::new()),
        global_state_snapshot: global_state(),
        rollout_facts: vec![child],
        source_file_observations: Vec::new(),
        existing_threads: vec![
            existing("state-parent"),
            existing("rollout-parent"),
            existing("child"),
        ],
        resolved_at_ms: 100,
    });
    assert_eq!(patch(&result, "child").parent_thread_id, Patch::Keep);
    assert_eq!(patch(&result, "child").agent_role, Patch::Keep);
    assert_eq!(patch(&result, "child").root_session_id, Patch::Keep);
    assert_eq!(
        patch(&result, "child").metadata_quality_status,
        MetadataQualityStatus::Conflict
    );
    assert!(result.diagnostics.iter().any(|diagnostic| {
        diagnostic.thread_id.as_deref() == Some("child")
            && diagnostic.code == MetadataDiagnosticCode::ParentConflict
    }));
}

#[test]
fn metadata_only_conflict_keeps_existing_relationship_trio() {
    let mut child = rollout(1, "child");
    child.parent_thread_id_hint = Some(Candidate {
        value: "root".to_owned(),
        provenance: ParentHintProvenance::SessionMetaParent,
        record_offset: 1,
    });
    child.agent_role_hint = Some(Candidate {
        value: "subagent".to_owned(),
        provenance: AgentRoleProvenance::SubagentSource,
        record_offset: 1,
    });
    child.latest_context_model = Some("gpt-5.6-sol".to_owned());
    child.latest_context_turn_id = Some("00000000-0000-7000-8000-000000000010".to_owned());
    child.latest_context_at_ms = Some(10);
    child.latest_context_record_offset = Some(2);
    child.has_conflict = true;

    let result = ThreadMetadataResolver::resolve(ResolutionInput {
        platform: Platform::here(),
        state_snapshot: state(
            vec![state_thread("root"), state_thread("child")],
            vec![("root", "child")],
        ),
        session_name_snapshot: sessions(Vec::new()),
        global_state_snapshot: global_state(),
        rollout_facts: vec![child],
        source_file_observations: Vec::new(),
        existing_threads: vec![existing_main("root"), {
            let mut existing = existing("child");
            existing.parent_thread_id = Some("root".to_owned());
            existing.root_session_id = Some("root".to_owned());
            existing.agent_role = AgentRole::Subagent;
            existing
        }],
        resolved_at_ms: 100,
    });

    let patch = patch(&result, "child");
    assert_eq!(patch.parent_thread_id, Patch::Keep);
    assert_eq!(patch.agent_role, Patch::Keep);
    assert_eq!(patch.root_session_id, Patch::Keep);
    assert_eq!(
        patch.metadata_quality_status,
        MetadataQualityStatus::Conflict
    );
}

#[test]
fn a_self_loop_is_conflict_and_never_produces_a_root() {
    let result = ThreadMetadataResolver::resolve(ResolutionInput {
        platform: Platform::here(),
        state_snapshot: state(vec![state_thread("self")], vec![("self", "self")]),
        session_name_snapshot: sessions(Vec::new()),
        global_state_snapshot: global_state(),
        rollout_facts: Vec::new(),
        source_file_observations: Vec::new(),
        existing_threads: vec![existing_main("self")],
        resolved_at_ms: 100,
    });

    let self_patch = patch(&result, "self");
    assert_eq!(self_patch.agent_role, Patch::Keep);
    assert_eq!(self_patch.parent_thread_id, Patch::Keep);
    assert_eq!(self_patch.root_session_id, Patch::Keep);
    assert_eq!(
        self_patch.metadata_quality_status,
        MetadataQualityStatus::Conflict
    );
}

#[test]
fn state_title_unavailable_keep_and_unchanged_output_are_deterministic() {
    let mut titled = state_thread("titled");
    titled.title = Some("State Title".to_owned());
    let title_result = ThreadMetadataResolver::resolve(ResolutionInput {
        platform: Platform::here(),
        state_snapshot: state(vec![titled], Vec::new()),
        session_name_snapshot: sessions(vec![SessionNameFact {
            thread_id: "titled".to_owned(),
            thread_name: "Session Title".to_owned(),
            updated_at_ms: Some(30),
        }]),
        global_state_snapshot: global_state(),
        rollout_facts: Vec::new(),
        source_file_observations: Vec::new(),
        existing_threads: vec![existing("titled")],
        resolved_at_ms: 100,
    });
    assert_eq!(
        patch(&title_result, "titled").title,
        Patch::Assign("State Title".to_owned())
    );

    let mut stable = existing("stable");
    stable.title = Some("Stable Title".to_owned());
    let unavailable = ThreadMetadataResolver::resolve(ResolutionInput {
        platform: Platform::here(),
        state_snapshot: StateSnapshot::unavailable(Vec::new()),
        session_name_snapshot: sessions(vec![SessionNameFact {
            thread_id: "stable".to_owned(),
            thread_name: "Lower Priority".to_owned(),
            updated_at_ms: Some(30),
        }]),
        global_state_snapshot: global_state(),
        rollout_facts: Vec::new(),
        source_file_observations: Vec::new(),
        existing_threads: vec![stable],
        resolved_at_ms: 101,
    });
    assert!(unavailable.patches.iter().all(|patch| {
        patch.thread_id != "stable"
            || matches!(patch.title, Patch::Keep) && !matches!(patch.title, Patch::Clear)
    }));

    let mut unchanged = existing_main("unchanged");
    unchanged.root_session_id = Some("unchanged".to_owned());
    unchanged.created_at_ms = Some(10);
    unchanged.updated_at_ms = Some(20);
    let unchanged_result = ThreadMetadataResolver::resolve(ResolutionInput {
        platform: Platform::here(),
        state_snapshot: state(vec![state_thread("unchanged")], Vec::new()),
        session_name_snapshot: sessions(Vec::new()),
        global_state_snapshot: global_state(),
        rollout_facts: Vec::new(),
        source_file_observations: Vec::new(),
        existing_threads: vec![unchanged],
        resolved_at_ms: 102,
    });
    assert!(unchanged_result.patches.is_empty());
}

#[test]
fn newer_and_provenance_ranked_facts_are_stable_conflicting_and_private() {
    const SENTINEL: &str = "PROMPT_TOOL_BODY_PRIVATE_SENTINEL";
    let mut older = state_thread("merged");
    older.updated_at_ms = Some(10);
    older.title = Some("Old State Title".to_owned());
    let mut newer = state_thread("merged");
    newer.updated_at_ms = Some(50);
    newer.title = Some("New State Title".to_owned());

    let mut selected = rollout(1, "merged");
    selected.cwd = Some(Candidate {
        value: fixture_path("chosen/project"),
        provenance: CwdProvenance::SessionMeta,
        record_offset: 2,
    });
    selected.parent_thread_id_hint = Some(Candidate {
        value: "direct-parent".to_owned(),
        provenance: ParentHintProvenance::SubagentSource,
        record_offset: 3,
    });
    selected.agent_role_hint = Some(Candidate {
        value: "subagent".to_owned(),
        provenance: AgentRoleProvenance::SubagentSource,
        record_offset: 4,
    });
    let safe = selected
        .to_safe_fact(
            1,
            1,
            20,
            100,
            &codex_usage::rollout::FinalContinuation::OwningLive {
                owning_thread_id: "merged".to_owned(),
            },
        )
        .unwrap();
    assert!(!format!("{safe:?}").contains(SENTINEL));
    let selected = RolloutThreadFact::from_safe_fact(&safe).unwrap();
    assert_eq!(
        selected.cwd.as_ref().unwrap().provenance,
        CwdProvenance::SessionMeta
    );
    assert_eq!(selected.cwd.as_ref().unwrap().record_offset, 2);
    assert_eq!(
        selected.parent_thread_id_hint.as_ref().unwrap().provenance,
        ParentHintProvenance::SubagentSource
    );
    assert_eq!(
        selected.agent_role_hint.as_ref().unwrap().provenance,
        AgentRoleProvenance::SubagentSource
    );

    let mut same_priority = rollout(2, "merged");
    same_priority.cwd = Some(Candidate {
        value: fixture_path("other/project"),
        provenance: CwdProvenance::SessionMeta,
        record_offset: 8,
    });
    same_priority.parent_thread_id_hint = Some(Candidate {
        value: "fallback-parent".to_owned(),
        provenance: ParentHintProvenance::ForkedFromId,
        record_offset: 1,
    });
    same_priority.agent_role_hint = Some(Candidate {
        value: "main".to_owned(),
        provenance: AgentRoleProvenance::SessionMetaRole,
        record_offset: 1,
    });
    let mut lower_priority = rollout(3, "merged");
    lower_priority.cwd = Some(Candidate {
        value: format!("/{SENTINEL}"),
        provenance: CwdProvenance::TurnContext,
        record_offset: 1,
    });

    let result = ThreadMetadataResolver::resolve(ResolutionInput {
        platform: Platform::here(),
        state_snapshot: state(vec![older, newer], Vec::new()),
        session_name_snapshot: sessions(Vec::new()),
        global_state_snapshot: global_state(),
        rollout_facts: vec![lower_priority, same_priority, selected],
        source_file_observations: vec![
            source(
                1,
                "merged",
                SourceArea::Sessions,
                &fixture_path("sessions/one.jsonl"),
            ),
            source(
                2,
                "merged",
                SourceArea::Sessions,
                &fixture_path("sessions/two.jsonl"),
            ),
            source(
                3,
                "merged",
                SourceArea::Sessions,
                &fixture_path("sessions/three.jsonl"),
            ),
        ],
        existing_threads: vec![existing("merged")],
        resolved_at_ms: 101,
    });

    assert_eq!(result.patches.len(), 1);
    let merged = patch(&result, "merged");
    assert_eq!(merged.title, Patch::Assign("New State Title".to_owned()));
    assert_eq!(
        merged.project_path,
        Patch::Assign(fixture_path("chosen/project"))
    );
    assert_eq!(merged.parent_thread_id, Patch::Keep);
    assert_eq!(merged.agent_role, Patch::Keep);
    assert_eq!(merged.root_session_id, Patch::Keep);
    assert_eq!(
        merged.metadata_quality_status,
        MetadataQualityStatus::Conflict
    );
    assert!(result.diagnostics.iter().any(|diagnostic| {
        matches!(
            diagnostic.code,
            MetadataDiagnosticCode::FieldConflict | MetadataDiagnosticCode::RoleConflict
        )
    }));
    assert!(!format!("{result:?}").contains(SENTINEL));
}

#[test]
fn t_s03_001_project_kind_resolution_matrix_uses_only_global_state_identity() {
    let mut project = state_thread("project");
    project.cwd = Some(fixture_path("workspace/project"));
    let mut projectless = state_thread("projectless");
    projectless.cwd = Some(fixture_path("generated/workspace/projectless"));
    let mut projectless_only = state_thread("projectless-only");
    projectless_only.cwd = Some(fixture_path("generated/workspace/projectless-only"));
    let mut heuristic = state_thread("heuristic");
    heuristic.cwd = Some(fixture_path(
        "Users/example/Documents/Codex/generated-workspace",
    ));
    let mut root = state_thread("root");
    root.cwd = Some(fixture_path("workspace/root"));
    let mut child = state_thread("child");
    child.cwd = Some(fixture_path("generated/workspace/child"));
    let mut existing_conflict = existing("projectless");
    existing_conflict.project_kind = ProjectKind::Project;
    let mut existing_no_path = existing("no-path");
    existing_no_path.project_kind = ProjectKind::Project;
    let result = ThreadMetadataResolver::resolve(ResolutionInput {
        platform: Platform::here(),
        state_snapshot: state(
            vec![
                project,
                projectless,
                projectless_only,
                state_thread("no-path"),
                heuristic,
                root,
                child,
            ],
            vec![("root", "child")],
        ),
        session_name_snapshot: sessions(Vec::new()),
        global_state_snapshot: GlobalStateSnapshot {
            status: GlobalStateStatus::Complete,
            projectless_thread_ids: vec![
                "projectless".to_owned(),
                "projectless-only".to_owned(),
            ],
            thread_project_assignments: vec!["projectless".to_owned()],
            diagnostics: Vec::new(),
        },
        rollout_facts: Vec::new(),
        source_file_observations: Vec::new(),
        existing_threads: vec![
            existing("project"),
            existing_conflict,
            existing("projectless-only"),
            existing_no_path,
            existing("heuristic"),
            existing("root"),
            existing("child"),
        ],
        resolved_at_ms: 100,
    });

    assert_eq!(
        patch(&result, "project").project_kind,
        Patch::Assign(ProjectKind::Project)
    );
    assert_eq!(
        patch(&result, "projectless").project_kind,
        Patch::Assign(ProjectKind::Unknown)
    );
    assert_eq!(
        patch(&result, "projectless").project_path,
        Patch::Assign(fixture_path("generated/workspace/projectless"))
    );
    assert_eq!(
        patch(&result, "projectless-only").project_kind,
        Patch::Assign(ProjectKind::Projectless)
    );
    assert_eq!(
        patch(&result, "projectless-only").project_path,
        Patch::Assign(fixture_path("generated/workspace/projectless-only"))
    );
    assert_eq!(
        patch(&result, "projectless-only").project_name,
        Patch::Assign("projectless-only".to_owned())
    );
    assert_eq!(
        patch(&result, "no-path").project_kind,
        Patch::Assign(ProjectKind::Unknown)
    );
    assert_eq!(
        patch(&result, "heuristic").project_kind,
        Patch::Assign(ProjectKind::Project)
    );
    assert_eq!(
        patch(&result, "root").project_kind,
        Patch::Assign(ProjectKind::Project)
    );
    assert!(result.diagnostics.iter().any(|diagnostic| {
        diagnostic.thread_id.as_deref() == Some("projectless")
            && diagnostic.code == MetadataDiagnosticCode::ProjectAssignmentConflict
            && diagnostic.severity == MetadataDiagnosticSeverity::Conflict
            && diagnostic.source_kind == MetadataSourceKind::GlobalState
    }));
    assert_eq!(
        patch(&result, "child").project_kind,
        Patch::Assign(ProjectKind::Project)
    );
}

#[test]
fn t_s03_002_global_state_unavailable_preserves_existing_and_recovers_idempotently() {
    let mut existing_projectless = existing("existing-projectless");
    existing_projectless.project_kind = ProjectKind::Projectless;
    existing_projectless.project_path = Some(fixture_path("generated/existing"));
    existing_projectless.project_name = Some("existing".to_owned());
    let mut existing_project = existing("existing-project");
    existing_project.project_kind = ProjectKind::Project;
    existing_project.project_path = Some(fixture_path("workspace/existing"));

    let malformed = GlobalStateSnapshot::unavailable(GlobalStateStatus::Malformed, Vec::new());
    let unavailable = ThreadMetadataResolver::resolve(ResolutionInput {
        platform: Platform::here(),
        state_snapshot: state(
            vec![
                {
                    let mut fact = state_thread("existing-projectless");
                    fact.cwd = Some(fixture_path("generated/existing"));
                    fact
                },
                {
                    let mut fact = state_thread("existing-project");
                    fact.cwd = Some(fixture_path("workspace/existing"));
                    fact
                },
                {
                    let mut fact = state_thread("new-thread");
                    fact.cwd = Some(fixture_path("workspace/new"));
                    fact
                },
            ],
            Vec::new(),
        ),
        session_name_snapshot: sessions(Vec::new()),
        global_state_snapshot: malformed,
        rollout_facts: Vec::new(),
        source_file_observations: Vec::new(),
        existing_threads: vec![existing_projectless.clone(), existing_project],
        resolved_at_ms: 100,
    });
    assert_eq!(
        patch(&unavailable, "existing-projectless").project_kind,
        Patch::Keep
    );
    assert_eq!(
        patch(&unavailable, "existing-projectless").project_path,
        Patch::Keep
    );
    assert_eq!(
        patch(&unavailable, "new-thread").project_kind,
        Patch::Assign(ProjectKind::Unknown)
    );

    let complete = GlobalStateSnapshot {
        status: GlobalStateStatus::Complete,
        projectless_thread_ids: vec!["existing-project".to_owned()],
        thread_project_assignments: Vec::new(),
        diagnostics: Vec::new(),
    };
    let recovered_input = ResolutionInput {
        platform: Platform::here(),
        state_snapshot: state(
            vec![
                {
                    let mut fact = state_thread("existing-projectless");
                    fact.cwd = Some(fixture_path("generated/existing"));
                    fact
                },
                {
                    let mut fact = state_thread("existing-project");
                    fact.cwd = Some(fixture_path("workspace/existing"));
                    fact
                },
            ],
            Vec::new(),
        ),
        session_name_snapshot: sessions(Vec::new()),
        global_state_snapshot: complete.clone(),
        rollout_facts: Vec::new(),
        source_file_observations: Vec::new(),
        existing_threads: vec![existing_projectless, existing("existing-project")],
        resolved_at_ms: 101,
    };
    let recovered = ThreadMetadataResolver::resolve(recovered_input.clone());
    assert_eq!(
        patch(&recovered, "existing-project").project_kind,
        Patch::Assign(ProjectKind::Projectless)
    );
    assert_eq!(
        patch(&recovered, "existing-projectless").project_kind,
        Patch::Assign(ProjectKind::Project)
    );
    assert_eq!(recovered, ThreadMetadataResolver::resolve(recovered_input));

    let not_present = ThreadMetadataResolver::resolve(ResolutionInput {
        platform: Platform::here(),
        state_snapshot: state(
            vec![
                {
                    let mut fact = state_thread("path-without-global-state");
                    fact.cwd = Some(fixture_path("workspace/path"));
                    fact
                },
                state_thread("no-path-without-global-state"),
            ],
            Vec::new(),
        ),
        session_name_snapshot: sessions(Vec::new()),
        global_state_snapshot: GlobalStateSnapshot::unavailable(
            GlobalStateStatus::NotPresent,
            Vec::new(),
        ),
        rollout_facts: Vec::new(),
        source_file_observations: Vec::new(),
        existing_threads: vec![existing("path-without-global-state"), {
            let mut thread = existing("no-path-without-global-state");
            thread.project_kind = ProjectKind::Project;
            thread
        }],
        resolved_at_ms: 100,
    });
    assert_eq!(
        patch(&not_present, "path-without-global-state").project_kind,
        Patch::Assign(ProjectKind::Project)
    );
    assert_eq!(
        patch(&not_present, "no-path-without-global-state").project_kind,
        Patch::Assign(ProjectKind::Unknown)
    );
}
