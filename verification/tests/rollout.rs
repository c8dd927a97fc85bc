use codex_usage::paths::normalize_agent_path;
use codex_usage::platform::Platform;
use codex_usage::rollout::{
    AgentPathProvenance, AgentRoleProvenance, EnvelopeKind, FinalContinuation,
    OwnershipConfidence, OwningCandidateConfidence, ParentHintProvenance, RecordOwnership,
    ResumeState, RolloutThreadFact, METADATA_PARSER_VERSION,
};
use codex_usage::rollout_parser::{
    CompleteRolloutLine, DiagnosticCode, OwnershipRange, OwningThreadCandidate,
    OwningThreadCandidates, RolloutMetadataParser, RolloutParseContext,
};

fn physical_path(components: &[&str]) -> String {
    format!("/tmp/{}", components.join("/"))
}

fn json_path(value: &str) -> String {
    serde_json::to_string(value).unwrap()
}

fn uuid7(timestamp_ms: u64, suffix: u8) -> String {
    let mut bytes = [0_u8; 16];
    for (index, byte) in bytes[..6].iter_mut().enumerate() {
        *byte = ((timestamp_ms >> (8 * (5 - index))) & 0xff) as u8;
    }
    bytes[6] = 0x70;
    bytes[8] = 0x80;
    bytes[15] = suffix;
    uuid::Uuid::from_bytes(bytes).to_string()
}

fn lines(values: &[String], start: u64) -> Vec<CompleteRolloutLine> {
    let mut offset = start;
    values
        .iter()
        .map(|value| {
            let bytes = format!("{value}\n").into_bytes();
            let line = CompleteRolloutLine::new(offset, bytes).unwrap();
            offset = line.end_offset();
            line
        })
        .collect()
}

fn context(
    chunk_start_offset: u64,
    owning_thread_id: &str,
    resume_state: ResumeState,
    existing_fact: Option<RolloutThreadFact>,
) -> RolloutParseContext {
    RolloutParseContext {
        platform: Platform::here(),
        source_file_id: 7,
        chunk_start_offset,
        candidates: OwningThreadCandidates {
            state_rollout: None,
            filename: Some(OwningThreadCandidate {
                thread_id: owning_thread_id.to_owned(),
                confidence: OwningCandidateConfidence::Confirmed,
            }),
        },
        resume_state,
        existing_fact,
    }
}

#[test]
fn parses_main_rollout_whitelist_and_envelopes() {
    let owning = uuid7(2_000, 1);
    let turn = uuid7(2_100, 2);
    let session_cwd = json_path(&physical_path(&["rollout", "work", ".", "mini"]));
    let turn_cwd = json_path(&physical_path(&["rollout", "fallback"]));
    let records = vec![
        format!(
            r#"{{"timestamp":"2026-08-08T00:00:00Z","type":"session_meta","payload":{{"id":"{owning}","timestamp":"2026-08-08T00:00:00Z","cwd":{session_cwd},"agent_role":"main","base_instructions":"never retain"}}}}"#
        ),
        format!(
            r#"{{"timestamp":"2026-08-08T00:00:01Z","type":"turn_context","payload":{{"turn_id":"{turn}","cwd":{turn_cwd},"model":"gpt-main","timezone":"UTC","other":"ignored"}}}}"#
        ),
        r#"{"type":"event_msg","payload":{"type":"token_count","total":999}}"#.to_owned(),
        r#"{"type":"response_item","payload":{"type":"message","content":"ignored"}}"#
            .to_owned(),
    ];
    let result = RolloutMetadataParser::parse_chunk(
        context(0, &owning, ResumeState::AwaitOwningMeta, None),
        lines(&records, 0),
    );
    assert!(!result.needs_rebuild);
    assert_eq!(
        result
            .records
            .iter()
            .map(|record| record.envelope)
            .collect::<Vec<_>>(),
        vec![
            EnvelopeKind::SessionMeta,
            EnvelopeKind::TurnContext,
            EnvelopeKind::TokenCount,
            EnvelopeKind::Ignored
        ]
    );
    assert!(
        result
            .records
            .iter()
            .all(|record| record.ownership == RecordOwnership::Owning)
    );
    let fact = result.fact.unwrap();
    assert_eq!(fact.owning_thread_id, owning);
    assert_eq!(
        fact.cwd.unwrap().value,
        physical_path(&["rollout", "work", "mini"])
    );
    assert_eq!(fact.latest_context_model.as_deref(), Some("gpt-main"));
    assert_eq!(fact.agent_role_hint.unwrap().value, "main");
    assert!(matches!(
        result.final_continuation,
        FinalContinuation::OwningLive { .. }
    ));
    assert_eq!(
        result.last_processed_offset,
        result.records.last().unwrap().end_offset
    );
}

#[test]
fn guardian_direct_parent_and_other_source_are_safe_facts() {
    let parent = uuid7(1_000, 1);
    let guardian = uuid7(2_000, 2);
    let records = vec![
        format!(r#"{{ "type": "session_meta", "payload": {{ "id": "{guardian}", "parent_thread_id": "{parent}", "source": {{"subagent": {{"other": "guardian"}}}} }} }}"#),
    ];
    let result = RolloutMetadataParser::parse_chunk(
        context(0, &guardian, ResumeState::AwaitOwningMeta, None),
        lines(&records, 0),
    );
    let fact = result.fact.unwrap();
    let parent_candidate = fact.parent_thread_id_hint.as_ref().unwrap();
    assert_eq!(parent_candidate.value, parent);
    assert_eq!(
        parent_candidate.provenance,
        ParentHintProvenance::SessionMetaParent
    );
    let role = fact.agent_role_hint.as_ref().unwrap();
    assert_eq!(role.value, "subagent");
    assert_eq!(role.provenance, AgentRoleProvenance::SubagentSource);
    assert!(!fact.has_conflict);
    assert!(!fact.relationship_conflict);
    let safe = fact
        .to_safe_fact(
            1,
            METADATA_PARSER_VERSION,
            result.last_processed_offset,
            10,
            &result.final_continuation,
        )
        .unwrap();
    assert_eq!(
        safe.parent_hint_provenance,
        Some(codex_usage::domain::ParentHintProvenance::SessionMetaParent)
    );
    assert_eq!(
        RolloutThreadFact::from_safe_fact(&safe)
            .unwrap()
            .parent_thread_id_hint
            .unwrap()
            .provenance,
        ParentHintProvenance::SessionMetaParent
    );
}

#[test]
fn direct_and_nested_same_parent_is_consistent() {
    let parent = uuid7(1_000, 1);
    let child = uuid7(2_000, 2);
    let record = format!(r#"{{ "type": "session_meta", "payload": {{ "id": "{child}", "parent_thread_id": "{parent}", "source": {{"subagent": {{"thread_spawn": {{"parent_thread_id": "{parent}"}}}}}} }} }}"#);
    let result = RolloutMetadataParser::parse_chunk(
        context(0, &child, ResumeState::AwaitOwningMeta, None),
        lines(&[record], 0),
    );
    let fact = result.fact.unwrap();
    let candidate = fact.parent_thread_id_hint.unwrap();
    assert_eq!(candidate.value, parent);
    assert_eq!(
        candidate.provenance,
        ParentHintProvenance::SessionMetaParent
    );
    assert!(!fact.has_conflict);
}

#[test]
fn direct_and_nested_conflict_keeps_direct_winner_and_marks_conflict() {
    let direct = uuid7(1_000, 1);
    let nested = uuid7(1_100, 2);
    let child = uuid7(2_000, 3);
    let record = format!(r#"{{ "type": "session_meta", "payload": {{ "id": "{child}", "parent_thread_id": "{direct}", "source": {{"subagent": {{"thread_spawn": {{"parent_thread_id": "{nested}"}}}}}} }} }}"#);
    let result = RolloutMetadataParser::parse_chunk(
        context(0, &child, ResumeState::AwaitOwningMeta, None),
        lines(&[record], 0),
    );
    let fact = result.fact.unwrap();
    assert_eq!(
        fact.parent_thread_id_hint.unwrap().provenance,
        ParentHintProvenance::SessionMetaParent
    );
    assert!(fact.has_conflict);
    assert!(fact.relationship_conflict);
}

#[test]
fn direct_and_fork_conflict_keeps_direct_winner_and_marks_conflict() {
    let direct = uuid7(1_000, 1);
    let forked = uuid7(1_100, 2);
    let child = uuid7(2_000, 3);
    let record = format!(r#"{{ "type": "session_meta", "payload": {{ "id": "{child}", "parent_thread_id": "{direct}", "forked_from_id": "{forked}", "source": {{"subagent": {{"other": "guardian"}}}} }} }}"#);
    let result = RolloutMetadataParser::parse_chunk(
        context(0, &child, ResumeState::AwaitOwningMeta, None),
        lines(&[record], 0),
    );
    let fact = result.fact.unwrap();
    assert_eq!(
        fact.parent_thread_id_hint.unwrap().provenance,
        ParentHintProvenance::SessionMetaParent
    );
    assert!(fact.has_conflict);
    assert!(fact.relationship_conflict);
}

#[test]
fn parent_candidates_use_priority_but_preserve_every_conflict() {
    let direct = uuid7(1_000, 1);
    let nested = uuid7(1_100, 2);
    let forked = uuid7(1_200, 3);
    let guardian = uuid7(2_000, 4);
    let record = format!(r#"{{ "type": "session_meta", "payload": {{ "id": "{guardian}", "parent_thread_id": "{direct}", "forked_from_id": "{forked}", "source": {{ "subagent": {{ "thread_spawn": {{"parent_thread_id": "{nested}"}}, "other": "guardian" }} }} }} }}"#);
    let result = RolloutMetadataParser::parse_chunk(
        context(0, &guardian, ResumeState::AwaitOwningMeta, None),
        lines(&[record], 0),
    );
    let fact = result.fact.unwrap();
    let parent = fact.parent_thread_id_hint.unwrap();
    assert_eq!(parent.value, direct);
    assert_eq!(parent.provenance, ParentHintProvenance::SessionMetaParent);
    assert!(fact.has_conflict);
    assert!(fact.relationship_conflict);
    assert_eq!(
        result
            .diagnostics
            .iter()
            .filter(|diagnostic| diagnostic.field == Some("parent_thread_id_hint"))
            .count(),
        2
    );
}

#[test]
fn repeated_direct_parent_conflict_keeps_first_trusted_value() {
    let first = uuid7(1_000, 1);
    let second = uuid7(1_100, 2);
    let guardian = uuid7(2_000, 3);
    let records = vec![
        format!(r#"{{ "type": "session_meta", "payload": {{"id": "{guardian}", "parent_thread_id": "{first}"}} }}"#),
        format!(r#"{{ "type": "session_meta", "payload": {{"id": "{guardian}", "parent_thread_id": "{second}"}} }}"#),
    ];
    let result = RolloutMetadataParser::parse_chunk(
        context(0, &guardian, ResumeState::AwaitOwningMeta, None),
        lines(&records, 0),
    );
    let fact = result.fact.unwrap();
    assert_eq!(fact.parent_thread_id_hint.unwrap().value, first);
    assert!(fact.has_conflict);
    assert!(fact.relationship_conflict);
}

#[test]
fn subagent_replay_switches_only_at_uuid7_owning_turn_boundary() {
    let parent = uuid7(1_000, 1);
    let child = uuid7(2_000, 2);
    let parent_turn = uuid7(1_500, 3);
    let child_turn = uuid7(2_100, 4);
    let child_cwd = physical_path(&["rollout", "child"]);
    let parent_cwd = json_path(&physical_path(&["rollout", "parent"]));
    let parent_turn_cwd = json_path(&physical_path(&["rollout", "parent-turn"]));
    let child_turn_cwd = json_path(&physical_path(&["rollout", "child-turn"]));
    let child_cwd_json = json_path(&child_cwd);
    let records = vec![
        format!(
            r#"{{"type":"session_meta","payload":{{"id":"{child}","cwd":{child_cwd_json},"source":{{"subagent":{{"thread_spawn":{{"parent_thread_id":"{parent}","depth":1}}}}}}}}}}"#
        ),
        format!(
            r#"{{"type":"session_meta","payload":{{"id":"{parent}","cwd":{parent_cwd}}}}}"#
        ),
        format!(
            r#"{{"type":"turn_context","payload":{{"turn_id":"{parent_turn}","cwd":{parent_turn_cwd},"model":"parent-model"}}}}"#
        ),
        r#"{"type":"event_msg","payload":{"type":"token_count","total":111}}"#.to_owned(),
        format!(
            r#"{{"type":"turn_context","payload":{{"turn_id":"{child_turn}","cwd":{child_turn_cwd},"model":"child-model"}}}}"#
        ),
    ];
    let result = RolloutMetadataParser::parse_chunk(
        context(0, &child, ResumeState::AwaitOwningMeta, None),
        lines(&records, 0),
    );
    assert_eq!(
        result
            .records
            .iter()
            .map(|record| record.ownership)
            .collect::<Vec<_>>(),
        vec![
            RecordOwnership::Owning,
            RecordOwnership::ReplayedAncestor,
            RecordOwnership::ReplayedAncestor,
            RecordOwnership::ReplayedAncestor,
            RecordOwnership::Owning,
        ]
    );
    let fact = result.fact.unwrap();
    assert_eq!(fact.cwd.unwrap().value, child_cwd);
    assert_eq!(fact.latest_context_model.as_deref(), Some("child-model"));
    assert_eq!(fact.parent_thread_id_hint.unwrap().value, parent);
    assert_eq!(
        fact.ownership_boundary.replay_start_offset,
        Some(result.records[1].start_offset)
    );
    assert_eq!(
        fact.ownership_boundary.owning_records_start_offset,
        Some(result.records[4].start_offset)
    );
    assert_eq!(
        fact.ownership_boundary.confidence,
        OwnershipConfidence::Confirmed
    );
    assert_eq!(result.ownership_ranges.len(), 3);
    assert_eq!(
        result
            .ownership_ranges
            .iter()
            .map(|range| range.ownership)
            .collect::<Vec<_>>(),
        vec![
            RecordOwnership::Owning,
            RecordOwnership::ReplayedAncestor,
            RecordOwnership::Owning,
        ]
    );
    assert_eq!(
        result.ownership_ranges[1].start_offset,
        result.records[1].start_offset
    );
    assert_eq!(
        result.ownership_ranges[1].end_offset,
        result.records[3].end_offset
    );
    assert!(matches!(
        result.final_continuation,
        FinalContinuation::OwningLive { .. }
    ));
}

#[test]
fn eof_in_replayed_ancestor_is_stable_resumable_continuation() {
    let parent = uuid7(1_000, 1);
    let child = uuid7(2_000, 2);
    let parent_turn = uuid7(1_500, 3);
    let records = vec![
        format!(r#"{{"type":"session_meta","payload":{{"id":"{child}"}}}}"#),
        format!(r#"{{"type":"session_meta","payload":{{"id":"{parent}"}}}}"#),
        format!(
            r#"{{"type":"turn_context","payload":{{"turn_id":"{parent_turn}","model":"parent-model"}}}}"#
        ),
        r#"{"type":"turn_context","payload":{"model":"missing-turn-id"}}"#.to_owned(),
        r#"{"type":"event_msg","payload":{"type":"token_count"}}"#.to_owned(),
    ];
    let result = RolloutMetadataParser::parse_chunk(
        context(0, &child, ResumeState::AwaitOwningMeta, None),
        lines(&records, 0),
    );
    assert!(!result.needs_rebuild);
    assert_eq!(
        result.final_continuation,
        FinalContinuation::ReplayedAncestor {
            owning_thread_id: child.clone(),
        }
    );
    assert_eq!(
        result
            .records
            .iter()
            .map(|record| record.ownership)
            .collect::<Vec<_>>(),
        vec![
            RecordOwnership::Owning,
            RecordOwnership::ReplayedAncestor,
            RecordOwnership::ReplayedAncestor,
            RecordOwnership::ReplayedAncestor,
            RecordOwnership::ReplayedAncestor,
        ]
    );
    assert_eq!(result.ownership_ranges.len(), 2);
    let fact = result.fact.unwrap();
    assert_eq!(
        fact.ownership_boundary.confidence,
        OwnershipConfidence::Confirmed
    );
    assert_eq!(fact.latest_context_model, None);
    let safe = fact
        .to_safe_fact(
            1,
            METADATA_PARSER_VERSION,
            result.last_processed_offset,
            10,
            &result.final_continuation,
        )
        .unwrap();
    assert_eq!(
        safe.continuation_state,
        codex_usage::domain::ContinuationState::ReplayedAncestor
    );
    assert_eq!(
        safe.ownership_confidence,
        codex_usage::domain::OwnershipConfidence::Confirmed
    );
}

#[test]
fn nonzero_replayed_ancestor_resume_stays_replay_until_owning_boundary() {
    let child = uuid7(2_000, 2);
    let parent_turn = uuid7(1_500, 3);
    let child_turn = uuid7(2_100, 4);
    let mut existing = RolloutThreadFact::empty(7, child.clone());
    existing.ownership_boundary.replay_start_offset = Some(20);
    let replay_records = vec![
        format!(
            r#"{{"type":"turn_context","payload":{{"turn_id":"{parent_turn}","model":"parent"}}}}"#
        ),
        r#"{"type":"event_msg","payload":{"type":"token_count"}}"#.to_owned(),
    ];
    let replay = RolloutMetadataParser::parse_chunk(
        context(
            100,
            &child,
            ResumeState::ReplayedAncestor {
                owning_thread_id: child.clone(),
            },
            Some(existing),
        ),
        lines(&replay_records, 100),
    );
    assert!(!replay.needs_rebuild);
    assert_eq!(
        replay.final_continuation,
        FinalContinuation::ReplayedAncestor {
            owning_thread_id: child.clone()
        }
    );
    assert!(
        replay
            .records
            .iter()
            .all(|record| record.ownership == RecordOwnership::ReplayedAncestor)
    );
    let resume_offset = replay.last_processed_offset;
    let owning_record = format!(
        r#"{{"type":"turn_context","payload":{{"turn_id":"{child_turn}","model":"child"}}}}"#
    );
    let owning = RolloutMetadataParser::parse_chunk(
        context(
            resume_offset,
            &child,
            ResumeState::ReplayedAncestor {
                owning_thread_id: child.clone(),
            },
            replay.fact,
        ),
        lines(&[owning_record], resume_offset),
    );
    assert!(!owning.needs_rebuild);
    assert_eq!(
        owning.final_continuation,
        FinalContinuation::OwningLive {
            owning_thread_id: child
        }
    );
    assert_eq!(owning.records[0].ownership, RecordOwnership::Owning);
}

#[test]
fn normal_nonzero_owning_live_resume_restores_model_ordering_seam() {
    let owning = uuid7(2_000, 1);
    let mut existing = RolloutThreadFact::empty(7, owning.clone());
    existing.latest_context_model = Some("old-model".to_owned());
    existing.latest_context_at_ms = Some(1_000);
    existing.latest_context_record_offset = Some(20);
    let safe = existing
        .to_safe_fact(
            1,
            1,
            100,
            1_000,
            &FinalContinuation::OwningLive {
                owning_thread_id: owning.clone(),
            },
        )
        .unwrap();
    let restored = RolloutThreadFact::from_safe_fact(&safe).unwrap();
    assert_eq!(restored.latest_context_record_offset, Some(99));
    let turn = uuid7(2_100, 2);
    let records = vec![format!(
        r#"{{"timestamp":"1970-01-01T00:00:01Z","type":"turn_context","payload":{{"turn_id":"{turn}","model":"new-model"}}}}"#
    )];
    let result = RolloutMetadataParser::parse_chunk(
        context(
            100,
            &owning,
            ResumeState::OwningLive {
                owning_thread_id: owning.clone(),
            },
            Some(restored),
        ),
        lines(&records, 100),
    );

    assert!(!result.needs_rebuild);
    assert_eq!(
        result.final_continuation,
        FinalContinuation::OwningLive {
            owning_thread_id: owning,
        }
    );
    assert_eq!(result.records[0].ownership, RecordOwnership::Owning);
    let fact = result.fact.unwrap();
    assert_eq!(fact.latest_context_model.as_deref(), Some("new-model"));
    assert_eq!(fact.latest_context_turn_id.as_deref(), Some(turn.as_str()));
    assert_eq!(fact.latest_context_record_offset, Some(100));
    assert!(!fact.has_conflict);
}

#[test]
fn conflicting_state_path_and_filename_candidates_require_rebuild() {
    let state_id = uuid7(2_000, 1);
    let filename_id = uuid7(2_000, 2);
    let records = vec![format!(
        r#"{{"type":"session_meta","payload":{{"id":"{state_id}"}}}}"#
    )];
    let result = RolloutMetadataParser::parse_chunk(
        RolloutParseContext {
            platform: Platform::here(),
            source_file_id: 7,
            chunk_start_offset: 0,
            candidates: OwningThreadCandidates {
                state_rollout: Some(OwningThreadCandidate {
                    thread_id: state_id,
                    confidence: OwningCandidateConfidence::Confirmed,
                }),
                filename: Some(OwningThreadCandidate {
                    thread_id: filename_id,
                    confidence: OwningCandidateConfidence::Confirmed,
                }),
            },
            resume_state: ResumeState::AwaitOwningMeta,
            existing_fact: None,
        },
        lines(&records, 0),
    );

    assert!(result.needs_rebuild);
    assert!(result.fact.is_none());
    assert_eq!(result.final_continuation, FinalContinuation::Unstable);
    assert!(
        result
            .diagnostics
            .iter()
            .any(|diagnostic| diagnostic.code == DiagnosticCode::OwningCandidateConflict)
    );
}

#[test]
fn missing_owning_meta_and_external_id_keeps_records_unknown() {
    let turn = uuid7(2_100, 1);
    let records = vec![
        format!(
            r#"{{"type":"turn_context","payload":{{"turn_id":"{turn}","model":"unowned-model"}}}}"#
        ),
        r#"{"type":"event_msg","payload":{"type":"token_count"}}"#.to_owned(),
    ];
    let result = RolloutMetadataParser::parse_chunk(
        RolloutParseContext {
            platform: Platform::here(),
            source_file_id: 7,
            chunk_start_offset: 0,
            candidates: OwningThreadCandidates::default(),
            resume_state: ResumeState::AwaitOwningMeta,
            existing_fact: None,
        },
        lines(&records, 0),
    );

    assert_eq!(result.fact, None);
    assert_eq!(result.final_continuation, FinalContinuation::Unstable);
    assert!(
        result
            .records
            .iter()
            .all(|record| record.ownership == RecordOwnership::UnknownOwnership)
    );
    assert_eq!(
        result.ownership_ranges,
        vec![OwnershipRange {
            start_offset: result.records[0].start_offset,
            end_offset: result.records[1].end_offset,
            ownership: RecordOwnership::UnknownOwnership,
        }]
    );
}

#[test]
fn multiple_turn_models_choose_latest_turn_and_equal_time_later_offset_without_conflict() {
    let owning = uuid7(2_000, 1);
    let turns = [uuid7(2_100, 2), uuid7(2_200, 3), uuid7(2_300, 4)];
    let records = vec![
        format!(r#"{{"type":"session_meta","payload":{{"id":"{owning}"}}}}"#),
        format!(
            r#"{{"timestamp":"1970-01-01T00:00:01Z","type":"turn_context","payload":{{"turn_id":"{}","model":"old"}}}}"#,
            turns[0]
        ),
        format!(
            r#"{{"timestamp":"1970-01-01T00:00:02Z","type":"turn_context","payload":{{"turn_id":"{}","model":"newer"}}}}"#,
            turns[1]
        ),
        format!(
            r#"{{"timestamp":"1970-01-01T00:00:02Z","type":"turn_context","payload":{{"turn_id":"{}","model":"same-time-later"}}}}"#,
            turns[2]
        ),
    ];
    let result = RolloutMetadataParser::parse_chunk(
        context(0, &owning, ResumeState::AwaitOwningMeta, None),
        lines(&records, 0),
    );

    let fact = result.fact.unwrap();
    assert_eq!(
        fact.latest_context_model.as_deref(),
        Some("same-time-later")
    );
    assert_eq!(fact.latest_context_at_ms, Some(2_000));
    assert_eq!(
        fact.latest_context_record_offset,
        Some(result.records[3].start_offset)
    );
    assert!(!fact.has_conflict);
    assert!(!result.diagnostics.iter().any(|diagnostic| {
        diagnostic.code == DiagnosticCode::CandidateConflict
            && diagnostic.field == Some("model")
    }));
}

#[test]
fn same_turn_model_conflict_is_quality_only_and_later_offset_wins() {
    let owning = uuid7(2_000, 1);
    let turn = uuid7(2_100, 2);
    let records = vec![
        format!(r#"{{"type":"session_meta","payload":{{"id":"{owning}"}}}}"#),
        format!(
            r#"{{"timestamp":"1970-01-01T00:00:02Z","type":"turn_context","payload":{{"turn_id":"{turn}","model":"gpt-5.6-luna"}}}}"#
        ),
        format!(
            r#"{{"timestamp":"1970-01-01T00:00:02Z","type":"turn_context","payload":{{"turn_id":"{turn}","model":"gpt-5.6-sol"}}}}"#
        ),
    ];
    let result = RolloutMetadataParser::parse_chunk(
        context(0, &owning, ResumeState::AwaitOwningMeta, None),
        lines(&records, 0),
    );
    let fact = result.fact.unwrap();
    assert_eq!(fact.latest_context_model.as_deref(), Some("gpt-5.6-sol"));
    assert_eq!(fact.latest_context_turn_id.as_deref(), Some(turn.as_str()));
    assert!(fact.has_conflict);
    assert!(!fact.relationship_conflict);
    assert!(result.diagnostics.iter().any(|diagnostic| {
        diagnostic.code == DiagnosticCode::CandidateConflict
            && diagnostic.field == Some("model")
    }));
}

#[test]
fn nonzero_resume_with_late_foreign_meta_requires_rebuild() {
    let parent = uuid7(1_000, 1);
    let child = uuid7(2_000, 2);
    let existing = RolloutThreadFact::empty(7, child.clone());
    let records = vec![format!(
        r#"{{"type":"session_meta","payload":{{"id":"{parent}","cwd":"/private-parent"}}}}"#
    )];
    let result = RolloutMetadataParser::parse_chunk(
        context(
            100,
            &child,
            ResumeState::OwningLive {
                owning_thread_id: child.clone(),
            },
            Some(existing),
        ),
        lines(&records, 100),
    );
    assert!(result.needs_rebuild);
    assert!(result.fact.is_none());
    assert_eq!(result.final_continuation, FinalContinuation::Unstable);
    assert_eq!(
        result.records[0].ownership,
        RecordOwnership::ReplayedAncestor
    );
}

#[test]
fn ignored_unknown_and_malformed_records_never_leak_body_sentinel() {
    let owning = uuid7(2_000, 1);
    let sentinel = "PROMPT_TOOL_OUTPUT_PRIVATE_SENTINEL";
    let records = vec![
        format!(
            r#"{{"type":"response_item","payload":{{"type":"message","content":"{sentinel}"}}}}"#
        ),
        format!(
            r#"{{"type":"event_msg","payload":{{"type":"user_message","message":"{sentinel}"}}}}"#
        ),
        format!(r#"{{"type":"future_record","payload":{{"body":"{sentinel}"}}}}"#),
        format!(r#"{{"type":"broken","payload":"{sentinel}""#),
    ];
    let result = RolloutMetadataParser::parse_chunk(
        context(0, &owning, ResumeState::AwaitOwningMeta, None),
        lines(&records, 0),
    );
    assert_eq!(
        result
            .records
            .iter()
            .map(|record| record.envelope)
            .collect::<Vec<_>>(),
        vec![
            EnvelopeKind::Ignored,
            EnvelopeKind::Ignored,
            EnvelopeKind::Unknown,
            EnvelopeKind::Malformed,
        ]
    );
    assert!(!format!("{result:?}").contains(sentinel));
}

#[test]
fn normalize_agent_path_is_lexical_root_namespace_only() {
    assert_eq!(
        normalize_agent_path(Platform::here(), "  /root/group/./gate/../task  ").as_deref(),
        Some("/root/group/task")
    );
    assert_eq!(normalize_agent_path(Platform::here(), "/root"), None);
    assert_eq!(normalize_agent_path(Platform::here(), "/root/"), None);
    assert_eq!(normalize_agent_path(Platform::here(), "/rooted/task"), None);
    assert_eq!(normalize_agent_path(Platform::here(), "/tmp/task"), None);
    assert_eq!(normalize_agent_path(Platform::here(), "root/task"), None);
    assert_eq!(normalize_agent_path(Platform::here(), "//root/task"), None);
    assert_eq!(normalize_agent_path(Platform::here(), r"C:\root\task"), None);
    assert_eq!(normalize_agent_path(Platform::here(), "C:/root/task"), None);
    assert_eq!(normalize_agent_path(Platform::here(), "/root/task\0"), None);
    assert_eq!(normalize_agent_path(Platform::here(), "/root/task/\u{1f}"), None);
    assert_eq!(normalize_agent_path(Platform::here(), "/root/../../task"), None);
}

#[test]
fn session_meta_agent_path_uses_priority_and_marks_conflict() {
    let owning = uuid7(2_000, 1);
    let record = format!(r#"{{ "type": "session_meta", "payload": {{ "id": "{owning}", "agent_path": "/root/high_priority", "source": {{ "subagent": {{ "thread_spawn": {{ "agent_path": "/root/lower_priority" }} }} }} }} }}"#);
    let result = RolloutMetadataParser::parse_chunk(
        context(0, &owning, ResumeState::AwaitOwningMeta, None),
        lines(&[record], 0),
    );
    let fact = result.fact.unwrap();
    let candidate = fact.agent_path.unwrap();
    assert_eq!(candidate.value, "/root/high_priority");
    assert_eq!(candidate.provenance, AgentPathProvenance::SessionMeta);
    assert!(fact.has_conflict);
    assert!(result.diagnostics.iter().any(|diagnostic| {
        diagnostic.code == DiagnosticCode::CandidateConflict
            && diagnostic.field == Some("agent_path")
    }));
}

#[test]
fn thread_spawn_agent_path_is_retained_with_thread_spawn_provenance() {
    let owning = uuid7(2_000, 1);
    let record = format!(r#"{{ "type": "session_meta", "payload": {{ "id": "{owning}", "source": {{ "subagent": {{ "thread_spawn": {{ "agent_path": "/root/thread_spawn_task" }} }} }} }} }}"#);
    let result = RolloutMetadataParser::parse_chunk(
        context(0, &owning, ResumeState::AwaitOwningMeta, None),
        lines(&[record], 0),
    );
    let candidate = result.fact.unwrap().agent_path.unwrap();
    assert_eq!(candidate.value, "/root/thread_spawn_task");
    assert_eq!(candidate.provenance, AgentPathProvenance::ThreadSpawn);
}

#[test]
fn agent_path_safe_fact_conversion_preserves_provenance_and_offset() {
    let owning = uuid7(2_000, 1);
    let record = format!(r#"{{ "type": "session_meta", "payload": {{ "id": "{owning}", "agent_path": "/root/persisted_task" }} }}"#);
    let result = RolloutMetadataParser::parse_chunk(
        context(0, &owning, ResumeState::AwaitOwningMeta, None),
        lines(&[record], 0),
    );
    let fact = result.fact.unwrap();
    let record_offset = fact.agent_path.as_ref().unwrap().record_offset;
    let safe = fact
        .to_safe_fact(
            1,
            METADATA_PARSER_VERSION,
            result.last_processed_offset,
            10,
            &result.final_continuation,
        )
        .unwrap();
    assert_eq!(safe.agent_path.as_deref(), Some("/root/persisted_task"));
    assert_eq!(
        safe.agent_path_provenance,
        Some(codex_usage::domain::AgentPathProvenance::SessionMeta)
    );
    assert_eq!(safe.agent_path_record_offset, Some(record_offset as i64));
    let restored = RolloutThreadFact::from_safe_fact(&safe).unwrap();
    let restored_path = restored.agent_path.unwrap();
    assert_eq!(restored_path.value, "/root/persisted_task");
    assert_eq!(restored_path.provenance, AgentPathProvenance::SessionMeta);
    assert_eq!(restored_path.record_offset, record_offset);
}
