use codex_usage::ingestion::thread_group::dto_adapter_counts;
use codex_usage::ingestion::usage_pipeline::{
    CheckpointExpectation, CheckpointStatus, ClassifiedOversizedUsageLine, ClassifiedUsageItem,
    ClassifiedUsageLine, FixedViewTail, PipelineDisposition, PipelineError, PlanAction,
    SourceContinuationState, SourceStateProof, TailStatus, UsagePipeline, UsagePipelinePlan,
    UsageSourceCommitDto, MAX_BATCH_BYTES, MAX_BATCH_LINES, MAX_LEGAL_LINE_BYTES,
};
use codex_usage::ingestion::usage_processor::{ChainState, GapKind, UsageSourceState};
use codex_usage::rollout::{EnvelopeKind, RecordOwnership};
use codex_usage::rollout_parser::RecordClassification;
use codex_usage::usage::{CompleteUsageLine, SkillUsageEvidence};

const OWNER: &str = "01981111-1111-7111-8111-111111111111";
const ROOT: &str = "01981111-1111-7111-8111-111111111111";

fn line(
    start: u64,
    json: &str,
    envelope: EnvelopeKind,
    ownership: RecordOwnership,
) -> ClassifiedUsageLine {
    let line = CompleteUsageLine::new(start, format!("{json}\n").into_bytes()).unwrap();
    let classification = RecordClassification {
        start_offset: start,
        end_offset: line.end_offset(),
        envelope,
        ownership,
    };
    ClassifiedUsageLine {
        line,
        classification,
        skill_usage: None,
    }
}

fn checkpoint(offset: u64) -> CheckpointExpectation {
    CheckpointExpectation {
        parser_version: codex_usage::normalization::USAGE_PARSER_VERSION,
        committed_offset: offset,
        guard_hash: if offset > 0 { Some(vec![7; 32]) } else { None },
        status: CheckpointStatus::Ready,
    }
}

fn plan(action: PlanAction, start: u64, observed: u64) -> UsagePipelinePlan {
    let processor_state = UsageSourceState::default();
    UsagePipelinePlan {
        ledger_epoch: 1,
        parser_version: codex_usage::normalization::USAGE_PARSER_VERSION,
        source_file_id: 9,
        file_generation: 2,
        device_id: 3,
        inode: 4,
        action,
        start_offset: start,
        read_start_offset: start,
        fixed_observed_size: observed,
        owning_thread_id: Some(OWNER.to_owned()),
        root_session_id: Some(ROOT.to_owned()),
        checkpoint: checkpoint(start),
        state: if start > 0 { Some(SourceStateProof {
            file_generation: 2,
            device_id: 3,
            inode: 4,
            parser_version: codex_usage::normalization::USAGE_PARSER_VERSION,
            canonical_algorithm_version:
                codex_usage::normalization::USAGE_CANONICAL_ALGORITHM_VERSION,
            resolved_through_offset: start,
            observed_raw_size: observed,
            raw_tail_status: TailStatus::Unverified,
            raw_tail_start_offset: None,
            owning_thread_id: OWNER.to_owned(),
            root_session_id: ROOT.to_owned(),
            continuation_state: SourceContinuationState::OwningLive,
            processor_state,
            active_model_offset: None,
            active_reasoning_effort_offset: None,
            updated_at_ms: 0,
        }) } else { None },
        allow_replay_tail: false,
        replayed_prefix_bytes_before_chunk: 0,
        replayed_prefix_lines_before_chunk: 0,
    }
}

fn token_json(total: i64, last: i64) -> String {
    r#"{"timestamp":1000,"type":"event_msg","payload":{"type":"token_count","info":{"total_token_usage":{"input_tokens":$TOTAL,"cached_input_tokens":0,"cache_write_input_tokens":0,"output_tokens":0,"reasoning_output_tokens":0,"total_tokens":$TOTAL},"last_token_usage":{"input_tokens":$LAST,"cached_input_tokens":0,"cache_write_input_tokens":0,"output_tokens":0,"reasoning_output_tokens":0,"total_tokens":$LAST}}}}"#
        .replace("$TOTAL", &total.to_string())
        .replace("$LAST", &last.to_string())
}

fn turn_context_json_with_effort(model: &str, effort: &str) -> String {
    format!(
        r#"{{"timestamp":1000,"type":"turn_context","payload":{{"turn_id":"{OWNER}","model":"{model}","effort":"{effort}"}}}}"#
    )
}

fn turn_context_json_without_effort(model: &str) -> String {
    format!(
        r#"{{"timestamp":1000,"type":"turn_context","payload":{{"turn_id":"{OWNER}","model":"{model}"}}}}"#
    )
}

#[test]
fn t_mu04_b01_owning_turn_context_initializes_context_before_next_token() {
    let replay = line(
        0,
        &token_json(2, 2),
        EnvelopeKind::TokenCount,
        RecordOwnership::ReplayedAncestor,
    );
    let boundary_start = replay.line.end_offset();
    let boundary = line(
        boundary_start,
        &turn_context_json_with_effort("gpt-5.6-sol", "high"),
        EnvelopeKind::TurnContext,
        RecordOwnership::Owning,
    );
    let boundary_end = boundary.line.end_offset();
    let token_json = token_json(10, 10);
    let token = line(
        boundary_end,
        &token_json,
        EnvelopeKind::TokenCount,
        RecordOwnership::Owning,
    );
    let observed = token.line.end_offset();

    let PipelineDisposition::Commit(boundary_commit) = UsagePipeline::process_chunk(
        plan(PlanAction::AwaitOwningMeta, 0, observed),
        vec![replay.into(), boundary.into(), token.into()],
        FixedViewTail {
            exhausted: true,
            status: TailStatus::NoTail,
            half_line_start: None,
        },
        Some(vec![8; 32]),
        false,
        1,
    )
    .unwrap() else {
        panic!("expected ownership boundary commit");
    };

    assert!(boundary_commit.events.is_empty());
    assert_eq!(boundary_commit.complete_line_count, 2);
    assert_eq!(boundary_commit.replayed_prefix_lines, 1);
    assert_eq!(
        boundary_commit
            .updated_state
            .processor_state
            .active_model
            .as_deref(),
        Some("gpt-5.6-sol")
    );
    assert_eq!(
        boundary_commit
            .updated_state
            .processor_state
            .active_reasoning_effort
            .as_deref(),
        Some("high")
    );
    assert_eq!(
        boundary_commit.updated_state.active_model_offset,
        Some(boundary_start)
    );
    assert_eq!(
        boundary_commit.updated_state.active_reasoning_effort_offset,
        Some(boundary_start)
    );

    let mut resumed = plan(PlanAction::ResumeOwningLive, boundary_end, observed);
    resumed.state = Some(boundary_commit.updated_state);
    let token = line(
        boundary_end,
        &token_json,
        EnvelopeKind::TokenCount,
        RecordOwnership::Owning,
    );
    let PipelineDisposition::Commit(token_commit) = UsagePipeline::process_chunk(
        resumed,
        vec![token.into()],
        FixedViewTail {
            exhausted: true,
            status: TailStatus::NoTail,
            half_line_start: None,
        },
        Some(vec![9; 32]),
        false,
        2,
    )
    .unwrap() else {
        panic!("expected token commit");
    };

    assert_eq!(token_commit.events.len(), 1);
    assert_eq!(token_commit.events[0].model, "gpt-5.6-sol");
    assert_eq!(
        token_commit.events[0].reasoning_effort.as_deref(),
        Some("high")
    );
}

#[test]
fn t_mu04_b01_ownership_boundaries_preserve_empty_session_meta_and_missing_effort() {
    let session_meta = line(
        0,
        &format!(r#"{{"type":"session_meta","payload":{{"id":"{OWNER}"}}}}"#),
        EnvelopeKind::SessionMeta,
        RecordOwnership::Owning,
    );
    let session_end = session_meta.line.end_offset();
    let PipelineDisposition::Commit(session_commit) = UsagePipeline::process_chunk(
        plan(PlanAction::AwaitOwningMeta, 0, session_end),
        vec![session_meta.into()],
        FixedViewTail {
            exhausted: true,
            status: TailStatus::NoTail,
            half_line_start: None,
        },
        Some(vec![8; 32]),
        false,
        1,
    )
    .unwrap() else {
        panic!("expected session boundary commit");
    };
    assert!(session_commit.events.is_empty());
    assert_eq!(
        session_commit.updated_state.processor_state,
        UsageSourceState::default()
    );
    assert_eq!(session_commit.updated_state.active_model_offset, None);
    assert_eq!(
        session_commit.updated_state.active_reasoning_effort_offset,
        None
    );

    let missing_effort = line(
        0,
        &turn_context_json_without_effort("gpt-5.6-terra"),
        EnvelopeKind::TurnContext,
        RecordOwnership::Owning,
    );
    let missing_end = missing_effort.line.end_offset();
    let PipelineDisposition::Commit(missing_commit) = UsagePipeline::process_chunk(
        plan(PlanAction::AwaitOwningMeta, 0, missing_end),
        vec![missing_effort.into()],
        FixedViewTail {
            exhausted: true,
            status: TailStatus::NoTail,
            half_line_start: None,
        },
        Some(vec![8; 32]),
        false,
        1,
    )
    .unwrap() else {
        panic!("expected turn context boundary commit");
    };
    assert_eq!(
        missing_commit
            .updated_state
            .processor_state
            .active_model
            .as_deref(),
        Some("gpt-5.6-terra")
    );
    assert_eq!(
        missing_commit
            .updated_state
            .processor_state
            .active_reasoning_effort,
        None
    );
    assert_eq!(missing_commit.updated_state.active_model_offset, Some(0));
    assert_eq!(
        missing_commit.updated_state.active_reasoning_effort_offset,
        None
    );
}

#[test]
fn t_mu04_b02_token_before_owning_model_remains_unresolved_without_inference() {
    let session_meta = line(
        0,
        &format!(r#"{{"type":"session_meta","payload":{{"id":"{OWNER}"}}}}"#),
        EnvelopeKind::SessionMeta,
        RecordOwnership::Owning,
    );
    let session_end = session_meta.line.end_offset();

    let PipelineDisposition::Commit(session_commit) = UsagePipeline::process_chunk(
        plan(PlanAction::AwaitOwningMeta, 0, session_end),
        vec![session_meta.into()],
        FixedViewTail {
            exhausted: true,
            status: TailStatus::NoTail,
            half_line_start: None,
        },
        Some(vec![8; 32]),
        false,
        1,
    )
    .unwrap() else {
        panic!("expected session ownership boundary commit");
    };
    assert!(session_commit.events.is_empty());

    let first_token = line(
        session_end,
        &token_json(10, 10),
        EnvelopeKind::TokenCount,
        RecordOwnership::Owning,
    );
    let model_start = first_token.line.end_offset();
    let model = line(
        model_start,
        &turn_context_json_with_effort("gpt-5.6-luna", "low"),
        EnvelopeKind::TurnContext,
        RecordOwnership::Owning,
    );
    let second_token = line(
        model.line.end_offset(),
        &token_json(15, 5),
        EnvelopeKind::TokenCount,
        RecordOwnership::Owning,
    );
    let observed = second_token.line.end_offset();
    let mut resumed = plan(PlanAction::ResumeOwningLive, session_end, observed);
    resumed.state = Some(session_commit.updated_state);

    let PipelineDisposition::Commit(commit) = UsagePipeline::process_chunk(
        resumed,
        vec![first_token.into(), model.into(), second_token.into()],
        FixedViewTail {
            exhausted: true,
            status: TailStatus::NoTail,
            half_line_start: None,
        },
        Some(vec![9; 32]),
        false,
        2,
    )
    .unwrap() else {
        panic!("expected resumed usage commit");
    };

    assert_eq!(commit.events.len(), 2);
    assert_eq!(commit.events[0].model, "unknown");
    assert_eq!(commit.events[0].reasoning_effort, None);
    assert_eq!(commit.events[1].model, "gpt-5.6-luna");
    assert_eq!(commit.events[1].reasoning_effort.as_deref(), Some("low"));
    assert_eq!(
        commit.updated_state.processor_state.active_model.as_deref(),
        Some("gpt-5.6-luna")
    );
}

#[test]
fn owning_token_and_ignored_records_form_storage_ready_usage_only_commit() {
    let first_json = token_json(10, 10);
    let first = line(
        10,
        &first_json,
        EnvelopeKind::TokenCount,
        RecordOwnership::Owning,
    );
    let second = line(
        first.line.end_offset(),
        r#"{"type":"event_msg","payload":{"type":"rate_limits","body":"BODY_SENTINEL"}}"#,
        EnvelopeKind::Ignored,
        RecordOwnership::Owning,
    );
    let observed = second.line.end_offset();
    let result = UsagePipeline::process_chunk(
        plan(PlanAction::ResumeOwningLive, 10, observed),
        vec![first.into(), second.into()],
        FixedViewTail {
            exhausted: true,
            status: TailStatus::NoTail,
            half_line_start: None,
        },
        Some(vec![8; 32]),
        false,
        2_000,
    )
    .unwrap();
    let PipelineDisposition::Commit(commit) = result else {
        panic!("expected commit")
    };
    assert_eq!(
        (
            commit.events.len(),
            commit.occurrences.len(),
            commit.candidate_count
        ),
        (1, 1, 1)
    );
    assert_eq!(commit.complete_line_count, 2);
    assert_eq!(commit.last_complete_offset, observed);
    assert_eq!(commit.expected_checkpoint.committed_offset, 10);
    assert_eq!(commit.updated_state.resolved_through_offset, observed);
}

#[test]
fn replay_prefix_stops_at_owning_boundary_and_nonzero_replay_or_foreign_rebuilds() {
    let replay = line(
        0,
        &token_json(2, 2),
        EnvelopeKind::TokenCount,
        RecordOwnership::ReplayedAncestor,
    );
    let boundary_start = replay.line.end_offset();
    let boundary = line(
        boundary_start,
        &format!(r#"{{"type":"session_meta","payload":{{"id":"{OWNER}"}}}}"#),
        EnvelopeKind::SessionMeta,
        RecordOwnership::Owning,
    );
    let after = line(
        boundary.line.end_offset(),
        &token_json(5, 5),
        EnvelopeKind::TokenCount,
        RecordOwnership::Owning,
    );
    let observed = after.line.end_offset();
    let result = UsagePipeline::process_chunk(
        plan(PlanAction::AwaitOwningMeta, 0, observed),
        vec![replay.into(), boundary.into(), after.into()],
        FixedViewTail {
            exhausted: true,
            status: TailStatus::NoTail,
            half_line_start: None,
        },
        Some(vec![8; 32]),
        false,
        1,
    )
    .unwrap();
    let PipelineDisposition::Commit(commit) = result else {
        panic!("expected boundary commit")
    };
    assert_eq!(
        commit.last_complete_offset,
        commit.replayed_prefix_bytes
            + (commit.source_bytes_consumed - commit.replayed_prefix_bytes)
    );
    assert_eq!(
        (
            commit.replayed_prefix_lines,
            commit.complete_line_count,
            commit.candidate_count
        ),
        (1, 2, 0)
    );
    assert!(!commit.fixed_view_exhausted);

    let late = line(
        10,
        &token_json(3, 3),
        EnvelopeKind::TokenCount,
        RecordOwnership::ReplayedAncestor,
    );
    let observed = late.line.end_offset();
    assert_eq!(
        UsagePipeline::process_chunk(
            plan(PlanAction::ResumeOwningLive, 10, observed),
            vec![late.into()],
            FixedViewTail {
                exhausted: true,
                status: TailStatus::NoTail,
                half_line_start: None
            },
            Some(vec![1; 32]),
            false,
            1,
        )
        .unwrap(),
        PipelineDisposition::NeedsRebuild
    );
    assert_eq!(
        UsagePipeline::process_chunk(
            plan(PlanAction::ResumeOwningLive, 10, 10),
            Vec::new(),
            FixedViewTail {
                exhausted: true,
                status: TailStatus::NoTail,
                half_line_start: None
            },
            Some(vec![1; 32]),
            true,
            1,
        )
        .unwrap(),
        PipelineDisposition::NeedsRebuild
    );
}

#[test]
fn exclusive_large_and_oversized_batches_preserve_contract_without_fake_candidates() {
    let start = 10u64;
    let legal_len = 6 * 1024 * 1024usize;
    let mut legal_bytes = vec![b'x'; legal_len - 1];
    legal_bytes.push(b'\n');
    let legal_line = CompleteUsageLine::new(start, legal_bytes).unwrap();
    let legal_end = legal_line.end_offset();
    let legal_item = ClassifiedUsageItem::Line(ClassifiedUsageLine {
        line: legal_line,
        classification: RecordClassification {
            start_offset: start,
            end_offset: legal_end,
            envelope: EnvelopeKind::Malformed,
            ownership: RecordOwnership::Owning,
        },
        skill_usage: None,
    });

    let PipelineDisposition::Commit(legal) = UsagePipeline::process_chunk(
        plan(PlanAction::ResumeOwningLive, start, legal_end),
        vec![legal_item],
        FixedViewTail {
            exhausted: true,
            status: TailStatus::NoTail,
            half_line_start: None,
        },
        Some(vec![9; 32]),
        false,
        1,
    )
    .unwrap() else {
        panic!("expected legal exclusive commit");
    };
    assert!(legal.source_bytes_consumed > MAX_BATCH_BYTES);
    assert!(legal.source_bytes_consumed <= MAX_LEGAL_LINE_BYTES);
    assert_eq!(legal.complete_line_count, 1);
    assert_eq!(legal.candidate_count, 0);
    assert!(legal.events.is_empty());
    assert!(legal.occurrences.is_empty());
    assert!(matches!(
        legal.updated_state.processor_state.chain_state,
        ChainState::Interrupted(GapKind::Malformed)
    ));

    let oversized_end = start + MAX_LEGAL_LINE_BYTES + 100;
    let oversized_item = ClassifiedUsageItem::Oversized(ClassifiedOversizedUsageLine {
        start_offset: start,
        end_offset: oversized_end,
        classification: RecordClassification {
            start_offset: start,
            end_offset: oversized_end,
            envelope: EnvelopeKind::Malformed,
            ownership: RecordOwnership::Owning,
        },
    });
    let PipelineDisposition::Commit(oversized) = UsagePipeline::process_chunk(
        plan(PlanAction::ResumeOwningLive, start, oversized_end),
        vec![oversized_item],
        FixedViewTail {
            exhausted: true,
            status: TailStatus::NoTail,
            half_line_start: None,
        },
        Some(vec![10; 32]),
        false,
        2,
    )
    .unwrap() else {
        panic!("expected oversized-only commit");
    };
    assert!(oversized.source_bytes_consumed > MAX_LEGAL_LINE_BYTES);
    assert_eq!(oversized.complete_line_count, 1);
    assert_eq!(oversized.candidate_count, 0);
    assert!(oversized.events.is_empty());
    assert!(oversized.occurrences.is_empty());
    assert!(matches!(
        oversized.updated_state.processor_state.chain_state,
        ChainState::Interrupted(GapKind::Oversized)
    ));
}

#[test]
fn resumed_state_and_checkpoint_are_usage_local_across_chunk_restart() {
    let first = line(
        10,
        &token_json(10, 10),
        EnvelopeKind::TokenCount,
        RecordOwnership::Owning,
    );
    let first_end = first.line.end_offset();
    let PipelineDisposition::Commit(first_commit) = UsagePipeline::process_chunk(
        plan(PlanAction::ResumeOwningLive, 10, first_end),
        vec![first.into()],
        FixedViewTail {
            exhausted: true,
            status: TailStatus::NoTail,
            half_line_start: None,
        },
        Some(vec![2; 32]),
        false,
        1,
    )
    .unwrap() else {
        panic!("expected first commit")
    };

    let second = line(
        first_end,
        &token_json(15, 5),
        EnvelopeKind::TokenCount,
        RecordOwnership::Owning,
    );
    let second_end = second.line.end_offset();
    let mut resumed = plan(PlanAction::ResumeOwningLive, first_end, second_end);
    resumed.checkpoint.guard_hash = Some(vec![2; 32]);
    resumed.state = Some(first_commit.updated_state);
    let PipelineDisposition::Commit(second_commit) = UsagePipeline::process_chunk(
        resumed,
        vec![second.into()],
        FixedViewTail {
            exhausted: true,
            status: TailStatus::NoTail,
            half_line_start: None,
        },
        Some(vec![3; 32]),
        false,
        2,
    )
    .unwrap() else {
        panic!("expected resumed commit")
    };
    assert_eq!(second_commit.events.len(), 1);
    assert_eq!(second_commit.events[0].usage.input_tokens, 5);
    assert_eq!(
        second_commit.expected_checkpoint.committed_offset,
        first_end
    );
    assert_eq!(
        second_commit.updated_state.resolved_through_offset,
        second_end
    );
}

fn exhausted() -> FixedViewTail {
    FixedViewTail {
        exhausted: true,
        status: TailStatus::NoTail,
        half_line_start: None,
    }
}

#[test]
fn a_plan_or_a_tail_that_does_not_fit_is_refused() {
    let mut elsewhere = plan(PlanAction::ResumeOwningLive, 10, 10);
    elsewhere.checkpoint.committed_offset = 11;
    assert_eq!(
        UsagePipeline::process_chunk(elsewhere, Vec::new(), exhausted(), None, false, 1),
        Err(PipelineError::InvalidPlan)
    );
    let token = line(
        10,
        &token_json(10, 10),
        EnvelopeKind::TokenCount,
        RecordOwnership::Owning,
    );
    let observed = token.line.end_offset() + 5;
    assert_eq!(
        UsagePipeline::process_chunk(
            plan(PlanAction::ResumeOwningLive, 10, observed),
            vec![token.into()],
            FixedViewTail {
                exhausted: true,
                status: TailStatus::HalfLine,
                half_line_start: Some(observed - 1),
            },
            Some(vec![8; 32]),
            false,
            1
        ),
        Err(PipelineError::InvalidTail)
    );
}

#[test]
fn skills_are_noted_with_the_model_and_the_place() {
    let context = line(
        10,
        &turn_context_json_with_effort("gpt-5.6-sol", "high"),
        EnvelopeKind::TurnContext,
        RecordOwnership::Owning,
    );
    let mut used = line(
        context.line.end_offset(),
        r#"{"type":"response_item","payload":{}}"#,
        EnvelopeKind::Ignored,
        RecordOwnership::Owning,
    );
    used.skill_usage = Some(SkillUsageEvidence {
        occurred_at_ms: 77,
        skill_names: vec!["review".to_owned(), "plan".to_owned()],
    });
    let start = used.line.start_offset();
    let end = used.line.end_offset();
    let PipelineDisposition::Commit(commit) = UsagePipeline::process_chunk(
        plan(PlanAction::ResumeOwningLive, 10, end),
        vec![context.into(), used.into()],
        exhausted(),
        Some(vec![8; 32]),
        false,
        1,
    )
    .unwrap() else {
        panic!("expected commit");
    };
    assert_eq!(commit.skill_events.len(), 2);
    assert_eq!(commit.skill_events[0].skill_name, "review");
    assert_eq!(commit.skill_events[1].skill_name, "plan");
    assert_eq!(commit.skill_events[0].occurred_at_ms, 77);
    assert_eq!(commit.skill_events[0].model.as_deref(), Some("gpt-5.6-sol"));
    assert_eq!(commit.skill_events[0].source_start_offset, start);
    assert_eq!(commit.skill_events[0].source_end_offset, end);
    assert_eq!(commit.skill_events[0].thread_id, OWNER);
}

fn ignored_lines(count: usize, bytes: usize) -> Vec<ClassifiedUsageLine> {
    let body = "x".repeat(bytes);
    let json = format!(r#"{{"type":"response_item","payload":{{"text":"{body}"}}}}"#);
    let mut start = 10;
    let mut lines = Vec::new();
    for _ in 0..count {
        let next = line(start, &json, EnvelopeKind::Ignored, RecordOwnership::Owning);
        start = next.line.end_offset();
        lines.push(next);
    }
    lines
}

fn committed(lines: Vec<ClassifiedUsageLine>) -> UsageSourceCommitDto {
    let end = lines.last().unwrap().line.end_offset();
    match UsagePipeline::process_chunk(
        plan(PlanAction::ResumeOwningLive, 10, end),
        lines.into_iter().map(|line| line.into()).collect(),
        exhausted(),
        Some(vec![8; 32]),
        false,
        1,
    ) {
        Ok(PipelineDisposition::Commit(commit)) => commit,
        other => panic!("{other:?}"),
    }
}

#[test]
fn a_commit_fits_into_a_batch() {
    let many = dto_adapter_counts(&committed(ignored_lines(4_100, 0)));
    assert_eq!(many.lines, MAX_BATCH_LINES);
    let long = dto_adapter_counts(&committed(ignored_lines(9, 500_000)));
    assert_eq!(long.lines, 8);
    assert!(long.bytes <= MAX_BATCH_BYTES);
    let single = dto_adapter_counts(&committed(ignored_lines(2, 5_000_000)));
    assert_eq!(single.lines, 1);
    assert!(single.bytes > MAX_BATCH_BYTES);
}

#[test]
fn a_span_that_is_never_measured_may_run_backwards() {
    let backwards = |start: u64| {
        ClassifiedUsageItem::Oversized(ClassifiedOversizedUsageLine {
            start_offset: start,
            end_offset: 3,
            classification: RecordClassification {
                start_offset: start,
                end_offset: 3,
                envelope: EnvelopeKind::Unknown,
                ownership: RecordOwnership::Owning,
            },
        })
    };
    let elsewhere = UsagePipeline::process_chunk(
        plan(PlanAction::ResumeOwningLive, 10, 50),
        vec![backwards(20)],
        exhausted(),
        Some(vec![8; 32]),
        false,
        1,
    );
    assert_eq!(elsewhere, Ok(PipelineDisposition::NeedsRebuild));
    let unread = UsagePipeline::process_chunk(
        plan(PlanAction::ResumeOwningLive, 10, 50),
        vec![backwards(10)],
        exhausted(),
        Some(vec![8; 32]),
        true,
        1,
    );
    assert_eq!(unread, Ok(PipelineDisposition::NeedsRebuild));
}
