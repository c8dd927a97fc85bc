use codex_usage::domain::{
    CheckpointProcessingStatus, ContinuationState, FactQualityStatus, FileStatus,
    MetadataCheckpointState, MetadataScanStateEntry, OwnershipConfidence, RolloutMetadataFact,
    SafeFactMismatchReason, SafeFactState, SourceArea, SourceFileState,
};
use codex_usage::global_state::{GlobalStateSnapshot, GlobalStateStatus};
use codex_usage::ingestion::chunks::{read_error_code, ChunkReadError};
use codex_usage::ingestion::usage_processor::{
    AnomalyCode, Ownership, ProcessorError, TurnEndStatus, UsageContext, UsageProcessor,
    UsageRecord, UsageValue,
};
use codex_usage::metadata::input::{
    ExistingThread, MetadataDiagnosticCode, ResolutionInput, ResolutionResult,
};
use codex_usage::metadata::resolver::ThreadMetadataResolver;
use codex_usage::platform::Platform;
use codex_usage::rollout::{
    OwnershipBoundary, ResumeState, RolloutThreadFact,
};
use codex_usage::rollout_parser::{
    CompleteRolloutLine, DiagnosticCode, OwningThreadCandidates, RolloutMetadataParser,
    RolloutParseContext,
};
use codex_usage::session_index::{SessionNameSnapshot, SessionSourceStatus};
use codex_usage::shared::DomainError;
use codex_usage::state_index::{StateSnapshot, StateSourceStatus};
use codex_usage::token_usage::NormalizedTokenUsage;
use codex_usage::usage::{
    CodexRolloutParser, CompleteUsageLine, NormalizedTokenValue, OptionalTokenValue,
    TokenCountInfo, TokenValueError, UsageRawRecord,
};

const OWNER: &str = "01981111-1111-7111-8111-111111111111";
const PARENT: &str = "01980000-1111-7111-8111-111111111111";

fn remarks(start: u64, resume_state: ResumeState, lines: &[&str]) -> Vec<DiagnosticCode> {
    let mut all = Vec::new();
    let mut at = start;
    for line in lines {
        let next = CompleteRolloutLine::new(at, format!("{line}\n").into_bytes()).unwrap();
        at = next.end_offset();
        all.push(next);
    }
    let context = RolloutParseContext {
        platform: Platform::here(),
        source_file_id: 7,
        chunk_start_offset: start,
        candidates: OwningThreadCandidates::default(),
        resume_state,
        existing_fact: None,
    };
    RolloutMetadataParser::parse_chunk(context, all)
        .diagnostics
        .iter()
        .map(|diagnostic| diagnostic.code)
        .collect()
}

#[test]
fn lines_of_a_rollout_are_remarked_on() {
    let own = format!(r#"{{"type":"session_meta","payload":{{"id":"{OWNER}"}}}}"#);
    let foreign = format!(r#"{{"type":"session_meta","payload":{{"id":"{PARENT}"}}}}"#);
    let found = remarks(
        0,
        ResumeState::AwaitOwningMeta,
        &[
            own.as_str(),
            "{",
            "[]",
            r#"{"type":"something_new","payload":{}}"#,
            r#"{"type":"session_meta","payload":{"id":"no"}}"#,
            foreign.as_str(),
        ],
    );
    assert_eq!(
        found,
        vec![
            DiagnosticCode::MalformedJson,
            DiagnosticCode::MalformedEnvelope,
            DiagnosticCode::UnknownEnvelope,
            DiagnosticCode::InvalidAllowedField,
            DiagnosticCode::ForeignSessionMeta,
        ]
    );
}

#[test]
fn a_reading_in_the_middle_has_to_know_where_it_stands() {
    assert_eq!(
        remarks(10, ResumeState::AwaitOwningMeta, &[]),
        vec![DiagnosticCode::InvalidResumeState]
    );
    let live = ResumeState::OwningLive { owning_thread_id: OWNER.to_owned() };
    assert_eq!(remarks(10, live, &[]), vec![DiagnosticCode::InvalidResumeState]);
}

#[test]
fn a_gap_between_lines_is_remarked_on() {
    let line = |start: u64| CompleteRolloutLine::new(start, b"{}\n".to_vec()).unwrap();
    let context = RolloutParseContext {
        platform: Platform::here(),
        source_file_id: 7,
        chunk_start_offset: 0,
        candidates: OwningThreadCandidates::default(),
        resume_state: ResumeState::AwaitOwningMeta,
        existing_fact: None,
    };
    let result = RolloutMetadataParser::parse_chunk(context, vec![line(0), line(4)]);
    let gap = result
        .diagnostics
        .iter()
        .find(|diagnostic| diagnostic.code == DiagnosticCode::NonContiguousOffsets)
        .unwrap();
    assert_eq!(gap.source_start_offset, Some(4));
}

fn source() -> SourceFileState {
    SourceFileState::new(
        Platform::here(),
        1,
        Some("thread".to_owned()),
        "/home/codex/sessions/rollout.jsonl".to_owned(),
        SourceArea::Sessions,
        3,
        4,
        2,
        10,
        10,
        FileStatus::Present,
        10,
    )
    .unwrap()
}

fn checkpoint() -> MetadataCheckpointState {
    MetadataCheckpointState {
        source_file_id: 1,
        parser_version: 5,
        committed_offset: 10,
        guard_hash: Some(vec![0; 32]),
        processing_status: CheckpointProcessingStatus::Ready,
        last_successful_scan_at_ms: None,
        last_error_code: None,
    }
}

fn fact() -> RolloutMetadataFact {
    RolloutMetadataFact {
        source_file_id: 1,
        file_generation: 2,
        metadata_parser_version: 5,
        resolved_through_offset: 10,
        owning_thread_id: "thread".to_owned(),
        continuation_state: ContinuationState::OwningLive,
        cwd: None,
        cwd_provenance: None,
        cwd_record_offset: None,
        created_at_ms: None,
        latest_context_model: None,
        latest_context_turn_id: None,
        latest_context_at_ms: None,
        parent_thread_id_hint: None,
        parent_hint_provenance: None,
        parent_hint_record_offset: None,
        agent_role_hint: None,
        agent_role_provenance: None,
        agent_role_record_offset: None,
        agent_path: None,
        agent_path_provenance: None,
        agent_path_record_offset: None,
        replay_start_offset: None,
        owning_records_start_offset: None,
        ownership_confidence: OwnershipConfidence::Confirmed,
        fact_quality_status: FactQualityStatus::Complete,
        relationship_conflict: false,
        updated_at_ms: 1,
    }
}

fn stale(
    checkpoint: Option<MetadataCheckpointState>,
    fact: RolloutMetadataFact,
) -> SafeFactMismatchReason {
    match MetadataScanStateEntry::new(source(), checkpoint, Some(fact)).unwrap().safe_fact {
        SafeFactState::Stale(reason) => reason,
        other => panic!("{other:?}"),
    }
}

#[test]
fn a_fact_that_does_not_match_says_why() {
    let whole = MetadataScanStateEntry::new(source(), Some(checkpoint()), Some(fact())).unwrap();
    assert_eq!(whole.safe_fact, SafeFactState::Matching(fact()));
    assert_eq!(stale(None, fact()), SafeFactMismatchReason::MissingCheckpoint);
    let other = RolloutMetadataFact { owning_thread_id: "other".to_owned(), ..fact() };
    assert_eq!(stale(Some(checkpoint()), other), SafeFactMismatchReason::BindingMismatch);
    let behind = RolloutMetadataFact { resolved_through_offset: 9, ..fact() };
    assert_eq!(stale(Some(checkpoint()), behind), SafeFactMismatchReason::InvalidFact);
    let placeless = RolloutMetadataFact { cwd: Some("/work".to_owned()), ..fact() };
    assert_eq!(stale(Some(checkpoint()), placeless), SafeFactMismatchReason::OffsetMismatch);
}

fn info(text: &str) -> TokenCountInfo {
    let line = format!(
        r#"{{"timestamp":5,"type":"event_msg","payload":{{"type":"token_count","info":{text}}}}}"#
    );
    let line = CompleteUsageLine::new(0, format!("{line}\n").into_bytes()).unwrap();
    match CodexRolloutParser.parse_line(&line) {
        UsageRawRecord::TokenCount(record) => record.info.unwrap(),
        other => panic!("{other:?}"),
    }
}

#[test]
fn counts_that_are_of_no_use_say_why() {
    let none = info(r#"{"total_token_usage":3,"last_token_usage":[]}"#);
    assert_eq!(none.current_total, NormalizedTokenValue::Invalid(TokenValueError::NotAnObject));
    assert_eq!(none.last_usage, OptionalTokenValue::Invalid(TokenValueError::NotAnObject));
    let text = info(
        r#"{"total_token_usage":{"input_tokens":"1","cached_input_tokens":0,"output_tokens":0,"reasoning_output_tokens":0,"total_tokens":1}}"#,
    );
    assert_eq!(text.current_total, NormalizedTokenValue::Invalid(TokenValueError::NotAnInteger));
    assert_eq!(text.last_usage, OptionalTokenValue::Missing);
    let negative = info(
        r#"{"total_token_usage":{"input_tokens":-1,"cached_input_tokens":0,"output_tokens":0,"reasoning_output_tokens":0,"total_tokens":-1}}"#,
    );
    assert_eq!(
        negative.current_total,
        NormalizedTokenValue::Invalid(TokenValueError::Inconsistent)
    );
}

#[test]
fn faults_of_the_arithmetic_are_classified() {
    let small = NormalizedTokenUsage::new(1, 0, Some(0), 0, 0, 1).unwrap();
    let large = NormalizedTokenUsage::new(4, 0, Some(2), 0, 0, 4).unwrap();
    let error = |fault: DomainError| ProcessorError::from(fault);
    assert_eq!(error(small.checked_sub(&large).unwrap_err()), ProcessorError::NegativeDifference);
    let grown = NormalizedTokenUsage::new(4, 0, Some(1), 0, 0, 4).unwrap();
    assert_eq!(
        error(grown.checked_sub(&large).unwrap_err()),
        ProcessorError::CacheWriteNegativeDifference
    );
    let huge = NormalizedTokenUsage::new(i64::MAX, 0, None, 0, 0, i64::MAX).unwrap();
    assert_eq!(error(huge.checked_add(&huge).unwrap_err()), ProcessorError::ArithmeticOverflow);
    let invalid = NormalizedTokenUsage::new(-1, 0, None, 0, 0, -1).unwrap_err();
    assert_eq!(error(invalid), ProcessorError::InvalidNormalizedTokenUsage);
    assert_eq!(
        ProcessorError::CacheWriteNegativeDifference.to_text(),
        "CacheWriteNegativeDifference"
    );
}

fn owning() -> Ownership {
    Ownership::Owning { thread_id: "thread".to_owned() }
}

fn count(at: Option<i64>, total: UsageValue, last: UsageValue) -> UsageRecord {
    UsageRecord::TokenCount {
        ownership: owning(),
        timestamp_ms: at,
        start_offset: 10,
        end_offset: 20,
        total,
        last,
    }
}

fn turn_started(id: &str) -> UsageRecord {
    UsageRecord::TurnStarted {
        ownership: owning(),
        turn_id: Some(id.to_owned()),
        timestamp_ms: Some(1),
        start_offset: 30,
    }
}

fn anomalies(records: Vec<UsageRecord>) -> Vec<AnomalyCode> {
    let context = UsageContext {
        source_file_id: 1,
        file_generation: 1,
        owning_thread_id: "thread".to_owned(),
        root_session_id: "thread".to_owned(),
    };
    UsageProcessor::new(context, None)
        .process(records)
        .anomalies
        .iter()
        .map(|anomaly| anomaly.code)
        .collect()
}

#[test]
fn anomalies_of_usage_are_named() {
    let usage = NormalizedTokenUsage::new(5, 0, None, 0, 0, 5).unwrap();
    let valid = UsageValue::Valid(usage);
    assert_eq!(
        anomalies(vec![count(Some(1), UsageValue::Missing, UsageValue::Missing)]),
        vec![AnomalyCode::RequiredTotalInvalid]
    );
    assert_eq!(
        anomalies(vec![count(None, valid.clone(), UsageValue::Invalid)]),
        vec![AnomalyCode::UsageTimeMissing, AnomalyCode::LastUsageInvalid]
    );
    assert_eq!(
        anomalies(vec![turn_started("a"), turn_started("b")]),
        vec![AnomalyCode::TurnReplaced]
    );
    let ended = UsageRecord::TurnEnded {
        ownership: owning(),
        turn_id: Some("b".to_owned()),
        timestamp_ms: Some(9),
        start_offset: 40,
        end_offset: 45,
        status: TurnEndStatus::Completed,
    };
    assert_eq!(
        anomalies(vec![turn_started("a"), ended]),
        vec![AnomalyCode::TurnIdMismatch]
    );
}

fn resolve(
    facts: Vec<RolloutThreadFact>,
    existing: Vec<ExistingThread>,
    resolved_at_ms: i64,
) -> ResolutionResult {
    ThreadMetadataResolver::resolve(ResolutionInput {
        platform: Platform::here(),
        state_snapshot: StateSnapshot {
            status: StateSourceStatus::Complete,
            threads: Vec::new(),
            spawn_edges: Vec::new(),
            spawn_edges_status: StateSourceStatus::Complete,
            diagnostics: Vec::new(),
        },
        session_name_snapshot: SessionNameSnapshot {
            names: Vec::new(),
            facts: Vec::new(),
            diagnostics: Vec::new(),
            status: SessionSourceStatus::Complete,
        },
        global_state_snapshot: GlobalStateSnapshot::unavailable(
            GlobalStateStatus::NotPresent,
            Vec::new(),
        ),
        rollout_facts: facts,
        source_file_observations: vec![source()],
        existing_threads: existing,
        resolved_at_ms,
    })
}

fn owned_by(owner: &str) -> RolloutThreadFact {
    RolloutThreadFact {
        source_file_id: 1,
        owning_thread_id: owner.to_owned(),
        cwd: None,
        created_at_ms: None,
        latest_context_model: None,
        latest_context_turn_id: None,
        latest_context_at_ms: None,
        latest_context_record_offset: None,
        parent_thread_id_hint: None,
        agent_role_hint: None,
        agent_path: None,
        ownership_boundary: OwnershipBoundary {
            replay_start_offset: None,
            owning_records_start_offset: Some(0),
            confidence: codex_usage::rollout::OwnershipConfidence::Confirmed,
        },
        has_conflict: false,
        relationship_conflict: false,
    }
}

fn has(result: &ResolutionResult, code: MetadataDiagnosticCode) -> bool {
    result.diagnostics.iter().any(|diagnostic| diagnostic.code == code)
}

#[test]
fn resolutions_that_rest_on_nothing_are_remarked_on() {
    let missing = resolve(Vec::new(), Vec::new(), 100);
    assert!(has(&missing, MetadataDiagnosticCode::MissingSafeFact));
    assert!(!has(&missing, MetadataDiagnosticCode::FactBindingConflict));
    let misbound = resolve(vec![owned_by("other")], Vec::new(), 100);
    assert!(has(&misbound, MetadataDiagnosticCode::FactBindingConflict));
    let early = resolve(vec![owned_by("thread")], Vec::new(), -1);
    assert!(has(&early, MetadataDiagnosticCode::InvalidResolutionTime));
    assert!(early.patches.is_empty());
}

#[test]
fn read_errors_have_codes() {
    let code = |error: ChunkReadError| read_error_code(error);
    assert_eq!(code(ChunkReadError::SourceSymlinkRejected), "SOURCE_SYMLINK_REJECTED");
    assert_eq!(code(ChunkReadError::SourceNotRegularFile), "SOURCE_NOT_REGULAR_FILE");
    assert_eq!(code(ChunkReadError::SourceChangedBeforeRead), "SOURCE_CHANGED_BEFORE_READ");
    assert_eq!(code(ChunkReadError::InvalidGuardPlan), "CHECKPOINT_GUARD_INVALID");
    assert!(ChunkReadError::SourceChangedBeforeRead.is_stale());
    assert!(!ChunkReadError::SourceNotRegularFile.is_stale());
}
