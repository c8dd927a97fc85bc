use codex_usage::domain::{
    internal_validation_path, AgentPathProvenance, BuildDisposition, CheckpointProcessingStatus,
    CheckpointRebuildCommand,
    ConsumerKind, ContinuationState, CwdProvenance, FactQualityStatus, FileStatus,
    MetadataCheckpointAdvance, MetadataThreadCommit, OwnershipConfidence, RolloutMetadataFact,
    SourceArea, SourceCheckpoint, SourceFileState, SourceObservation, SourceObservationBatch,
    SourceObservationResult, SourceRegionStatus, INTERNAL_VALIDATION_PATH,
    WINDOWS_VALIDATION_PATH,
};
use codex_usage::platform::Platform;
use codex_usage::shared::{DomainError, FollowupStartFailedEvent, ScanFailedEvent};

fn source() -> SourceFileState {
    SourceFileState::new(
        Platform::here(),
        1,
        Some("thread".to_string()),
        "/tmp/rollout.jsonl".to_string(),
        SourceArea::Sessions,
        1,
        2,
        1,
        100,
        0,
        FileStatus::Present,
        10,
    )
    .unwrap()
}

fn bare_fact() -> RolloutMetadataFact {
    RolloutMetadataFact {
        source_file_id: 1,
        file_generation: 1,
        metadata_parser_version: 1,
        resolved_through_offset: 0,
        owning_thread_id: "thread".to_string(),
        continuation_state: ContinuationState::Unstable,
        cwd: None,
        cwd_provenance: None,
        cwd_record_offset: None,
        created_at_ms: None,
        latest_context_model: None,
        latest_context_turn_id: None,
        latest_context_at_ms: None,
        parent_thread_id_hint: None,
        parent_hint_provenance: None,
        parent_hint_record_offset: None,
        agent_role_hint: None,
        agent_role_provenance: None,
        agent_role_record_offset: None,
        agent_path: None,
        agent_path_provenance: None,
        agent_path_record_offset: None,
        replay_start_offset: None,
        owning_records_start_offset: None,
        ownership_confidence: OwnershipConfidence::Unresolved,
        fact_quality_status: FactQualityStatus::Partial,
        relationship_conflict: false,
        updated_at_ms: 1,
    }
}

#[test]
fn source_and_checkpoint_reject_invalid_boundaries() {
    assert!(SourceObservation::new(
        Platform::here(),
        "relative.jsonl".to_owned(),
        SourceArea::Sessions,
        1,
        1,
        0,
        0,
        0
    )
    .is_err());
    let source = source();
    let checkpoint = SourceCheckpoint::new(
        1,
        ConsumerKind::Metadata,
        1,
        101,
        Some(vec![1]),
        CheckpointProcessingStatus::Ready,
        Some(10),
        None,
    )
    .unwrap();
    assert!(checkpoint.validate_against(&source).is_err());
}

#[test]
fn safe_fact_requires_all_provenance_columns() {
    let fact = RolloutMetadataFact {
        cwd: Some("/tmp".to_string()),
        cwd_provenance: Some(CwdProvenance::SessionMeta),
        cwd_record_offset: None,
        ..bare_fact()
    };
    assert!(fact.validate().is_err());
}

#[test]
fn agent_path_safe_fact_requires_complete_non_negative_provenance() {
    let valid = RolloutMetadataFact {
        resolved_through_offset: 4,
        agent_path: Some("/root/task".to_owned()),
        agent_path_provenance: Some(AgentPathProvenance::SessionMeta),
        agent_path_record_offset: Some(4),
        ..bare_fact()
    };
    valid.validate().unwrap();

    let mut incomplete = valid.clone();
    incomplete.agent_path_record_offset = None;
    assert!(incomplete.validate().is_err());

    let mut negative = valid;
    negative.agent_path_record_offset = Some(-1);
    assert!(negative.validate().is_err());
}

#[test]
fn metadata_group_rejects_empty_patch_only_group() {
    assert!(MetadataThreadCommit::new("thread".to_owned(), None, Vec::new()).is_err());
}

#[test]
fn source_observation_rejects_negative_file_times() {
    assert!(SourceObservation::new(
        Platform::here(),
        "/tmp/rollout.jsonl".to_owned(),
        SourceArea::Sessions,
        1,
        1,
        0,
        -1,
        0
    )
    .is_err());
}

#[test]
fn source_observation_batch_requires_both_region_proofs() {
    let batch = SourceObservationBatch::new(
        Vec::new(),
        SourceRegionStatus::Complete,
        SourceRegionStatus::Unavailable("PERMISSION_DENIED".to_owned()),
    )
    .unwrap();
    assert!(batch.sessions.is_complete());
    assert!(!batch.archived_sessions.is_complete());
    assert!(SourceRegionStatus::unavailable("").is_err());
    assert!(SourceRegionStatus::unavailable("contains\nnewline").is_err());
}

#[test]
fn replacement_can_report_unchanged_when_usage_build_is_absent() {
    SourceObservationResult::new(
        1,
        2,
        false,
        false,
        true,
        vec![ConsumerKind::Metadata],
        BuildDisposition::Unchanged,
    )
    .unwrap();
}

#[test]
fn persisted_error_codes_reject_text_and_privacy_sentinels() {
    for invalid in [
        "lowercase",
        "1_STARTS_WITH_DIGIT",
        "PROMPT CONTENT",
        "SECRET-PAYLOAD",
        "包含正文",
    ] {
        assert!(ScanFailedEvent::new("scan", 1, invalid).is_err());
        assert!(FollowupStartFailedEvent::new("scan", 1, invalid).is_err());
        assert!(SourceRegionStatus::unavailable(invalid).is_err());
    }
    assert!(ScanFailedEvent::new("scan", 1, &format!("A{}", "B".repeat(64))).is_err());
    assert!(ScanFailedEvent::new("scan", 1, "SCAN_FAILED_2").is_ok());

    assert!(SourceCheckpoint::new(
        1,
        ConsumerKind::Metadata,
        0,
        0,
        None,
        CheckpointProcessingStatus::Error,
        None,
        Some("private response body".to_owned()),
    )
    .is_err());
    let mut advance =
        MetadataCheckpointAdvance::new(0, 0, None, CheckpointProcessingStatus::Error).unwrap();
    advance.last_error_code = Some("TOOL_OUTPUT!".to_owned());
    assert!(advance.validate().is_err());
}

#[test]
fn metadata_checkpoint_advance_checks_source_id_argument() {
    let advance =
        MetadataCheckpointAdvance::new(0, 0, None, CheckpointProcessingStatus::Pending).unwrap();
    assert!(advance.validate_against(2, &source()).is_err());
    advance.validate_against(1, &source()).unwrap();
}

#[test]
fn internal_metadata_validation_path_is_platform_absolute() {
    let path = internal_validation_path(Platform::here());
    assert!(std::path::Path::new(path).is_absolute());
    assert_eq!(INTERNAL_VALIDATION_PATH, "/validated/by/storage");
    assert_eq!(WINDOWS_VALIDATION_PATH, r"C:\validated\by\storage");
    if Platform::here().is_windows() {
        assert_eq!(path, WINDOWS_VALIDATION_PATH);
    } else {
        assert_eq!(path, INTERNAL_VALIDATION_PATH);
    }
}

#[test]
fn an_observation_batch_refuses_a_path_or_a_file_seen_twice() {
    let seen = |path: &str, inode: i64| {
        SourceObservation::new(Platform::here(), path.to_owned(), SourceArea::Sessions, 1, inode, 0, 0, 0).unwrap()
    };
    let complete = SourceRegionStatus::Complete;
    assert!(SourceObservationBatch::new(
        vec![seen("/a", 1), seen("/b", 2)],
        complete.clone(),
        complete.clone()
    )
    .is_ok());
    assert!(SourceObservationBatch::new(
        vec![seen("/a", 1), seen("/a", 2)],
        complete.clone(),
        complete.clone()
    )
    .is_err());
    assert!(SourceObservationBatch::new(
        vec![seen("/a", 1), seen("/b", 1)],
        complete.clone(),
        complete
    )
    .is_err());
}

#[test]
fn a_rebuild_names_each_source_once() {
    assert_eq!(
        CheckpointRebuildCommand::new(ConsumerKind::Usage, Vec::new()),
        Err(DomainError::EmptyBatch {
            kind: "checkpoint rebuild sources"
        })
    );
    assert_eq!(
        CheckpointRebuildCommand::new(ConsumerKind::Usage, vec![3, 7, 3]),
        Err(DomainError::DuplicateId {
            kind: "checkpoint source",
            id: "3".to_owned()
        })
    );
    assert_eq!(
        CheckpointRebuildCommand::new(ConsumerKind::Usage, vec![0]),
        Err(DomainError::InvalidValue {
            field: "source_file_id",
            reason: "must be positive".to_owned()
        })
    );
    assert!(CheckpointRebuildCommand::new(ConsumerKind::Usage, vec![3, 7]).is_ok());
}

#[test]
fn an_unknown_name_is_quoted_in_the_error() {
    assert_eq!(
        SourceArea::try_from("el\"sewhere"),
        Err(DomainError::InvalidValue {
            field: "source_area",
            reason: "unknown value \"el\\\"sewhere\"".to_owned()
        })
    );
    assert_eq!(SourceArea::try_from("sessions"), Ok(SourceArea::Sessions));
}
