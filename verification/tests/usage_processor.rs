use codex_usage::ingestion::usage_processor::{
    add_accounted, compare_canonical, compare_occurrence, event_id, AnomalyCode, CanonicalDecision,
    ChainState, CompensationBlocks, GapKind, Ownership, ProcessResult, TurnEndStatus,
    TurnModelState, TurnReasoningEffortState, TurnState, UsageContext, UsageProcessor, UsageRecord,
    UsageSourceState, UsageValue,
};
use codex_usage::token_usage::{EventKind, NormalizedTokenUsage};

fn context(source_file_id: i64) -> UsageContext {
    UsageContext {
        source_file_id,
        file_generation: 1,
        owning_thread_id: "thread".to_owned(),
        root_session_id: "thread".to_owned(),
    }
}

fn owning() -> Ownership {
    Ownership::Owning {
        thread_id: "thread".to_owned(),
    }
}

fn known(
    input: i64,
    cached: i64,
    write: i64,
    output: i64,
    reasoning: i64,
) -> NormalizedTokenUsage {
    NormalizedTokenUsage::new(
        input,
        cached,
        Some(write),
        output,
        reasoning,
        input + output,
    )
    .unwrap()
}

fn unknown(input: i64, cached: i64, output: i64, reasoning: i64) -> NormalizedTokenUsage {
    NormalizedTokenUsage::new(input, cached, None, output, reasoning, input + output).unwrap()
}

fn token(at: i64, offset: u64, total: NormalizedTokenUsage, last: UsageValue) -> UsageRecord {
    UsageRecord::TokenCount {
        ownership: owning(),
        timestamp_ms: Some(at),
        start_offset: offset,
        end_offset: offset + 10,
        total: UsageValue::Valid(total),
        last,
    }
}

#[test]
fn subagent_pre_context_snapshot_only_baselines_and_post_context_counts_delta() {
    let mut subagent = context(1);
    subagent.root_session_id = "root".to_owned();
    let baseline = known(10, 2, 1, 4, 1);
    let current = known(15, 3, 2, 6, 2);
    let result = UsageProcessor::new(subagent, None).process(vec![
        token(
            100,
            10,
            baseline.clone(),
            UsageValue::Valid(baseline.clone()),
        ),
        UsageRecord::TurnContext {
            ownership: owning(),
            model: Some("gpt-5.6-luna".to_owned()),
            reasoning_effort: Some("high".to_owned()),
        },
        token(110, 20, current.clone(), UsageValue::Missing),
    ]);

    assert_eq!(result.events.len(), 1);
    let event = &result.events[0];
    assert_eq!(event.model, "gpt-5.6-luna");
    assert_eq!(event.reasoning_effort.as_deref(), Some("high"));
    assert_eq!(event.previous_total, Some(baseline));
    assert_eq!(event.usage, known(5, 1, 1, 2, 1));
    assert_eq!(event.current_total, current);
    assert!(result.anomalies.is_empty());
}

#[test]
fn main_pre_context_snapshot_remains_unknown() {
    let baseline = known(10, 2, 1, 4, 1);
    let current = known(15, 3, 2, 6, 2);
    let result = UsageProcessor::new(context(1), None).process(vec![
        token(100, 10, baseline, UsageValue::Valid(known(10, 2, 1, 4, 1))),
        UsageRecord::TurnContext {
            ownership: owning(),
            model: Some("gpt-5.6-luna".to_owned()),
            reasoning_effort: Some("low".to_owned()),
        },
        token(110, 20, current, UsageValue::Missing),
    ]);

    assert_eq!(result.events.len(), 2);
    assert_eq!(result.events[0].model, "unknown");
    assert_eq!(result.events[0].reasoning_effort, None);
    assert_eq!(result.events[1].model, "gpt-5.6-luna");
    assert_eq!(result.events[1].reasoning_effort.as_deref(), Some("low"));
}

#[test]
fn normal_dedup_and_occurrence_matrix() {
    let total = known(10, 2, 1, 4, 1);
    let last = known(3, 1, 0, 2, 1);
    let records = vec![
        token(100, 10, total.clone(), UsageValue::Valid(last.clone())),
        token(101, 20, total.clone(), UsageValue::Valid(last.clone())),
        token(
            102,
            30,
            known(14, 2, 1, 6, 1),
            UsageValue::Valid(known(4, 0, 0, 2, 0)),
        ),
        token(
            103,
            40,
            known(17, 3, 1, 8, 2),
            UsageValue::Valid(last.clone()),
        ),
    ];
    let first = UsageProcessor::new(context(1), None).process(records.clone());
    assert_eq!(first.events.len(), 3, "duplicate total ignores last");
    assert!(
        first
            .events
            .iter()
            .all(|event| event.kind == EventKind::Normal)
    );
    assert_eq!(first.events[0].usage, last);

    let archive = UsageProcessor::new(context(2), None).process(records);
    assert_eq!(archive.events[0].event_id, first.events[0].event_id);
    assert_ne!(archive.occurrences[0], first.occurrences[0]);
    assert_eq!(
        compare_canonical(Some(&first.events[0]), &archive.events[0]),
        CanonicalDecision::Duplicate
    );
    assert_eq!(
        compare_occurrence(None, &archive.occurrences[0]),
        CanonicalDecision::Insert
    );
    assert_ne!(first.events[0].event_id, first.events[1].event_id);
    assert_eq!(first.events[0].usage, first.events[2].usage);
    assert_ne!(
        first.events[0].event_id, first.events[2].event_id,
        "equal request vectors at different time/total anchors stay distinct"
    );

    let mut conflicting_event = first.events[0].clone();
    conflicting_event.usage.output_tokens += 1;
    assert_eq!(
        compare_canonical(Some(&first.events[0]), &conflicting_event),
        CanonicalDecision::Conflict
    );
    let mut conflicting_occurrence = first.occurrences[0].clone();
    conflicting_occurrence.source_end_offset += 1;
    assert_eq!(
        compare_occurrence(Some(&first.occurrences[0]), &conflicting_occurrence),
        CanonicalDecision::Conflict
    );
    assert_eq!(
        compare_occurrence(Some(&first.occurrences[0]), &first.occurrences[0]),
        CanonicalDecision::Duplicate,
        "retry/race comparison is explicit rather than ignored"
    );
}

#[test]
fn missing_recovery_and_chain_break_matrix() {
    let baseline = UsageSourceState {
        previous_total: Some(known(10, 2, 1, 4, 1)),
        previous_total_offset: Some(10),
        ..UsageSourceState::default()
    };
    let recovered = UsageProcessor::new(context(1), Some(baseline.clone())).process(vec![
        token(100, 10, known(15, 3, 2, 6, 2), UsageValue::Missing),
        token(101, 20, known(15, 3, 2, 6, 2), UsageValue::Missing),
    ]);
    assert_eq!(recovered.events.len(), 1);
    assert_eq!(recovered.events[0].kind, EventKind::Recovered);
    assert_eq!(recovered.events[0].usage, known(5, 1, 1, 2, 1));
    assert_eq!(
        recovered.updated_state.previous_total,
        Some(known(15, 3, 2, 6, 2))
    );

    let no_previous = UsageProcessor::new(context(1), None).process(vec![token(
        100,
        10,
        known(5, 1, 0, 2, 1),
        UsageValue::Missing,
    )]);
    assert!(no_previous.events.is_empty());
    assert_eq!(
        no_previous.updated_state.previous_total,
        Some(known(5, 1, 0, 2, 1))
    );

    let unknown_cache = UsageProcessor::new(
        context(1),
        Some(UsageSourceState {
            previous_total: Some(unknown(10, 2, 4, 1)),
            previous_total_offset: Some(10),
            ..UsageSourceState::default()
        }),
    )
    .process(vec![token(
        100,
        10,
        known(15, 3, 2, 6, 2),
        UsageValue::Missing,
    )]);
    assert_eq!(unknown_cache.events[0].usage.cache_write_tokens, None);
    assert!(
        !unknown_cache
            .anomalies
            .iter()
            .any(|item| { matches!(item.code, AnomalyCode::CacheWriteChainDecrease) })
    );

    let interrupted = UsageProcessor::new(
        context(1),
        Some(UsageSourceState {
            chain_state: ChainState::Interrupted(GapKind::Ownership),
            ..baseline.clone()
        }),
    )
    .process(vec![token(
        100,
        10,
        known(15, 3, 2, 6, 2),
        UsageValue::Missing,
    )]);
    assert!(interrupted.events.is_empty());
    assert_eq!(
        interrupted.updated_state.chain_state,
        ChainState::Continuous
    );

    let reset = UsageProcessor::new(context(1), Some(baseline.clone())).process(vec![token(
        100,
        10,
        known(9, 1, 0, 3, 0),
        UsageValue::Missing,
    )]);
    assert!(reset.events.is_empty());
    assert!(
        reset
            .anomalies
            .iter()
            .any(|item| item.code == AnomalyCode::TotalChainReset)
    );
    assert_eq!(
        reset.updated_state.previous_total,
        Some(known(9, 1, 0, 3, 0))
    );

    let mut cache_decrease_state = baseline;
    cache_decrease_state.open_turn = Some(blocked_cases_template(
        cache_decrease_state.previous_total.as_ref().unwrap(),
    ));
    let cache_decrease =
        UsageProcessor::new(context(1), Some(cache_decrease_state)).process(vec![token(
            100,
            10,
            known(12, 2, 0, 5, 1),
            UsageValue::Valid(known(2, 0, 0, 1, 0)),
        )]);
    assert_eq!(cache_decrease.events.len(), 1);
    assert_eq!(cache_decrease.events[0].kind, EventKind::Normal);
    assert!(
        cache_decrease
            .anomalies
            .iter()
            .any(|item| item.code == AnomalyCode::CacheWriteChainDecrease)
    );
    assert!(
        cache_decrease
            .updated_state
            .open_turn
            .as_ref()
            .unwrap()
            .blocks
            .reset
    );
}

#[test]
fn synthetic_turn_key_is_copy_stable_and_missing_time_blocks_compensation() {
    let records = vec![UsageRecord::TurnStarted {
        ownership: owning(),
        turn_id: None,
        timestamp_ms: None,
        start_offset: 77,
    }];
    let first = UsageProcessor::new(context(1), None).process(records.clone());
    let copy = UsageProcessor::new(context(2), None).process(records);
    let first_turn = first.updated_state.open_turn.as_ref().unwrap();
    let copy_turn = copy.updated_state.open_turn.as_ref().unwrap();
    assert_eq!(first_turn.turn_key, copy_turn.turn_key);
    assert!(first_turn.raw_turn_id.is_none());
    assert!(first_turn.started_at_ms.is_none());
    assert!(first_turn.blocks.time_missing);
    assert!(!first_turn.blocks.allowed());
}

#[test]
fn turn_compensation_restart_model_and_block_matrix() {
    let baseline = known(10, 2, 1, 4, 1);
    let records = vec![
        UsageRecord::TurnStarted {
            ownership: owning(),
            turn_id: Some("turn".to_owned()),
            timestamp_ms: Some(90),
            start_offset: 10,
        },
        UsageRecord::TurnContext {
            ownership: owning(),
            model: Some("model-a".to_owned()),
            reasoning_effort: Some("high".to_owned()),
        },
        token(
            100,
            20,
            known(14, 3, 1, 6, 1),
            UsageValue::Valid(known(2, 1, 0, 1, 0)),
        ),
    ];
    let initial = UsageProcessor::new(
        context(1),
        Some(UsageSourceState {
            previous_total: Some(baseline.clone()),
            previous_total_offset: Some(5),
            ..UsageSourceState::default()
        }),
    )
    .process(records);
    let persisted = initial.updated_state.clone();
    assert_eq!(
        persisted
            .open_turn
            .as_ref()
            .unwrap()
            .accounted_candidate_count,
        1
    );
    assert_eq!(persisted.active_reasoning_effort.as_deref(), Some("high"));

    let completed = UsageProcessor::new(context(1), Some(persisted)).process(vec![
        token(110, 30, known(18, 4, 2, 8, 2), UsageValue::Missing),
        UsageRecord::TurnEnded {
            ownership: owning(),
            turn_id: Some("turn".to_owned()),
            timestamp_ms: Some(120),
            start_offset: 40,
            end_offset: 50,
            status: TurnEndStatus::Completed,
        },
    ]);
    assert_eq!(completed.events.len(), 2);
    assert_eq!(completed.events[0].kind, EventKind::Recovered);
    assert_eq!(
        completed.events[0].reasoning_effort.as_deref(),
        Some("high")
    );
    assert_eq!(completed.events[1].kind, EventKind::TurnCompensation);
    assert_eq!(completed.events[1].model, "model-a");
    assert_eq!(
        completed.events[1].reasoning_effort.as_deref(),
        Some("high")
    );
    assert_eq!(completed.events[1].usage, known(2, 0, 0, 1, 0));
    assert_eq!(completed.closed_turns[0].status, TurnEndStatus::Completed);

    let mut exact = blocked_cases_template(&baseline);
    exact.accounted = known(5, 0, 0, 2, 0);
    exact.accounted_candidate_count = 1;
    let exact = close_existing_turn(exact, TurnEndStatus::Completed);
    assert!(
        exact.events.is_empty(),
        "delta equal to accounted needs no compensation"
    );

    let mut negative_cache = blocked_cases_template(&baseline);
    negative_cache.start_total = Some(known(10, 2, 2, 4, 1));
    negative_cache.last_total = Some(known(15, 3, 1, 6, 1));
    let negative_cache = close_existing_turn(negative_cache, TurnEndStatus::Completed);
    assert!(negative_cache.events.is_empty());
    assert!(
        negative_cache
            .anomalies
            .iter()
            .any(|item| { item.code == AnomalyCode::TurnCacheWriteDeltaNegative })
    );

    let mut cache_overaccounted = blocked_cases_template(&baseline);
    cache_overaccounted.start_total = Some(known(10, 2, 0, 4, 1));
    cache_overaccounted.last_total = Some(known(15, 3, 1, 6, 1));
    cache_overaccounted.accounted = known(2, 0, 2, 1, 0);
    cache_overaccounted.accounted_candidate_count = 1;
    let cache_overaccounted =
        close_existing_turn(cache_overaccounted, TurnEndStatus::Completed);
    assert!(cache_overaccounted.events.is_empty());
    assert!(
        cache_overaccounted
            .anomalies
            .iter()
            .any(|item| { item.code == AnomalyCode::TurnAccountedExceedsTotal })
    );

    let mut accumulator = blocked_cases_template(&baseline);
    accumulator.accounted = NormalizedTokenUsage::zero();
    accumulator.accounted_candidate_count = 0;
    add_accounted(&mut accumulator, &known(1, 0, 0, 1, 0)).unwrap();
    assert_eq!(accumulator.accounted.cache_write_tokens, Some(0));
    add_accounted(&mut accumulator, &known(1, 0, 0, 1, 0)).unwrap();
    assert_eq!(accumulator.accounted.cache_write_tokens, Some(0));
    add_accounted(&mut accumulator, &known(2, 0, 1, 1, 0)).unwrap();
    assert_eq!(accumulator.accounted.cache_write_tokens, Some(1));
    add_accounted(&mut accumulator, &unknown(1, 0, 1, 0)).unwrap();
    assert_eq!(accumulator.accounted.cache_write_tokens, None);

    for status in [TurnEndStatus::Aborted, TurnEndStatus::Failed] {
        let state = UsageSourceState {
            previous_total: Some(known(15, 2, 1, 6, 1)),
            previous_total_offset: Some(20),
            open_turn: Some(TurnState {
                turn_key: "turn".to_owned(),
                raw_turn_id: Some("turn".to_owned()),
                started_at_ms: Some(1),
                start_offset: 1,
                start_total: Some(baseline.clone()),
                last_total: Some(known(15, 2, 1, 6, 1)),
                accounted: NormalizedTokenUsage::zero(),
                accounted_candidate_count: 0,
                model_state: TurnModelState::Single("model-a".to_owned()),
                reasoning_effort_state: TurnReasoningEffortState::Unseen,
                unresolved_reasoning_effort_seen: false,
                unresolved_model_seen: false,
                blocks: CompensationBlocks::default(),
            }),
            ..UsageSourceState::default()
        };
        let result = UsageProcessor::new(context(1), Some(state)).process(vec![
            UsageRecord::TurnEnded {
                ownership: owning(),
                turn_id: Some("turn".to_owned()),
                timestamp_ms: Some(100),
                start_offset: 30,
                end_offset: 40,
                status,
            },
        ]);
        assert_eq!(result.events[0].kind, EventKind::TurnCompensation);
        assert_eq!(result.closed_turns[0].status, status);
    }

    let mut blocked_cases = Vec::new();
    for block in [
        CompensationBlocks {
            start_missing: true,
            ..CompensationBlocks::default()
        },
        CompensationBlocks {
            time_missing: true,
            ..CompensationBlocks::default()
        },
        CompensationBlocks {
            reset: true,
            ..CompensationBlocks::default()
        },
        CompensationBlocks {
            ownership_gap: true,
            ..CompensationBlocks::default()
        },
        CompensationBlocks {
            parser_gap: true,
            ..CompensationBlocks::default()
        },
        CompensationBlocks {
            required_invalid: true,
            ..CompensationBlocks::default()
        },
        CompensationBlocks {
            model_unresolved: true,
            ..CompensationBlocks::default()
        },
    ] {
        blocked_cases.push(TurnState {
            turn_key: "turn".to_owned(),
            raw_turn_id: Some("turn".to_owned()),
            started_at_ms: Some(1),
            start_offset: 1,
            start_total: Some(baseline.clone()),
            last_total: Some(known(15, 2, 1, 6, 1)),
            accounted: NormalizedTokenUsage::zero(),
            accounted_candidate_count: 0,
            model_state: TurnModelState::Single("model-a".to_owned()),
            reasoning_effort_state: TurnReasoningEffortState::Unseen,
            unresolved_reasoning_effort_seen: false,
            unresolved_model_seen: block.model_unresolved,
            blocks: block,
        });
    }
    blocked_cases.push(TurnState {
        model_state: TurnModelState::Unseen,
        blocks: CompensationBlocks::default(),
        ..blocked_cases[0].clone()
    });
    for turn in blocked_cases {
        let result = UsageProcessor::new(
            context(1),
            Some(UsageSourceState {
                previous_total: turn.last_total.clone(),
                previous_total_offset: Some(20),
                open_turn: Some(turn),
                ..UsageSourceState::default()
            }),
        )
        .process(vec![UsageRecord::TurnEnded {
            ownership: owning(),
            turn_id: Some("turn".to_owned()),
            timestamp_ms: Some(100),
            start_offset: 30,
            end_offset: 40,
            status: TurnEndStatus::Completed,
        }]);
        assert!(result.events.is_empty());
    }

    let mixed = TurnState {
        model_state: TurnModelState::Mixed,
        blocks: CompensationBlocks::default(),
        ..blocked_cases_template(&baseline)
    };
    let result = UsageProcessor::new(
        context(1),
        Some(UsageSourceState {
            previous_total: mixed.last_total.clone(),
            previous_total_offset: Some(20),
            open_turn: Some(mixed),
            ..UsageSourceState::default()
        }),
    )
    .process(vec![UsageRecord::TurnEnded {
        ownership: owning(),
        turn_id: Some("turn".to_owned()),
        timestamp_ms: Some(100),
        start_offset: 30,
        end_offset: 40,
        status: TurnEndStatus::Completed,
    }]);
    assert_eq!(result.events[0].model, "unknown");

    let mut excessive = blocked_cases_template(&baseline);
    excessive.accounted = known(20, 0, 0, 20, 0);
    excessive.accounted_candidate_count = 1;
    let result = UsageProcessor::new(
        context(1),
        Some(UsageSourceState {
            previous_total: excessive.last_total.clone(),
            previous_total_offset: Some(20),
            open_turn: Some(excessive),
            ..UsageSourceState::default()
        }),
    )
    .process(vec![UsageRecord::TurnEnded {
        ownership: owning(),
        turn_id: Some("turn".to_owned()),
        timestamp_ms: Some(100),
        start_offset: 30,
        end_offset: 40,
        status: TurnEndStatus::Completed,
    }]);
    assert!(result.events.is_empty());
    assert!(
        result
            .anomalies
            .iter()
            .any(|item| item.code == AnomalyCode::TurnAccountedExceedsTotal)
    );

    let exact_request = known(4, 1, 0, 2, 0);
    let duplicate_records = vec![
        UsageRecord::TurnStarted {
            ownership: owning(),
            turn_id: Some("copy-turn".to_owned()),
            timestamp_ms: Some(90),
            start_offset: 10,
        },
        UsageRecord::TurnContext {
            ownership: owning(),
            model: Some("model-a".to_owned()),
            reasoning_effort: None,
        },
        token(
            100,
            20,
            known(14, 3, 1, 6, 1),
            UsageValue::Valid(exact_request),
        ),
        UsageRecord::TurnEnded {
            ownership: owning(),
            turn_id: Some("copy-turn".to_owned()),
            timestamp_ms: Some(110),
            start_offset: 30,
            end_offset: 40,
            status: TurnEndStatus::Completed,
        },
    ];
    let copy_state = UsageSourceState {
        previous_total: Some(baseline.clone()),
        previous_total_offset: Some(5),
        ..UsageSourceState::default()
    };
    let primary = UsageProcessor::new(context(1), Some(copy_state.clone()))
        .process(duplicate_records.clone());
    let archive = UsageProcessor::new(context(2), Some(copy_state)).process(duplicate_records);
    assert_eq!(primary.events.len(), 1);
    assert_eq!(archive.events.len(), 1);
    assert_eq!(primary.events[0].event_id, archive.events[0].event_id);
    assert_eq!(primary.closed_turns[0].turn.accounted_candidate_count, 1);
    assert_eq!(archive.closed_turns[0].turn.accounted_candidate_count, 1);

    let gap_then_turn = UsageProcessor::new(
        context(1),
        Some(UsageSourceState {
            previous_total: Some(baseline),
            previous_total_offset: Some(5),
            ..UsageSourceState::default()
        }),
    )
    .process(vec![
        UsageRecord::Gap {
            ownership: owning(),
            kind: GapKind::Parser,
        },
        UsageRecord::TurnStarted {
            ownership: owning(),
            turn_id: Some("after-gap".to_owned()),
            timestamp_ms: Some(90),
            start_offset: 10,
        },
        token(100, 20, known(15, 3, 1, 6, 1), UsageValue::Missing),
        UsageRecord::TurnEnded {
            ownership: owning(),
            turn_id: Some("after-gap".to_owned()),
            timestamp_ms: Some(110),
            start_offset: 30,
            end_offset: 40,
            status: TurnEndStatus::Completed,
        },
    ]);
    assert!(gap_then_turn.events.is_empty());
    assert!(gap_then_turn.closed_turns[0].turn.start_total.is_none());
    assert!(gap_then_turn.closed_turns[0].turn.blocks.parser_gap);

    let after_new_baseline = UsageProcessor::new(context(1), Some(gap_then_turn.updated_state))
        .process(vec![
            UsageRecord::TurnStarted {
                ownership: owning(),
                turn_id: Some("clean-turn".to_owned()),
                timestamp_ms: Some(120),
                start_offset: 50,
            },
            UsageRecord::TurnContext {
                ownership: owning(),
                model: Some("model-a".to_owned()),
                reasoning_effort: None,
            },
            token(130, 60, known(20, 4, 2, 8, 2), UsageValue::Missing),
            UsageRecord::TurnEnded {
                ownership: owning(),
                turn_id: Some("clean-turn".to_owned()),
                timestamp_ms: Some(140),
                start_offset: 70,
                end_offset: 80,
                status: TurnEndStatus::Completed,
            },
        ]);
    assert_eq!(after_new_baseline.events.len(), 1);
    assert_eq!(after_new_baseline.events[0].kind, EventKind::Recovered);
    assert!(
        after_new_baseline.closed_turns[0]
            .turn
            .start_total
            .is_some()
    );
    assert!(after_new_baseline.closed_turns[0].turn.blocks.allowed());
}

#[test]
fn t_mu03_c03_effort_is_canonical_identity_but_not_derived_cost() {
    let records = vec![
        UsageRecord::TurnContext {
            ownership: owning(),
            model: Some("model-a".to_owned()),
            reasoning_effort: Some("high".to_owned()),
        },
        token(
            100,
            10,
            known(10, 2, 1, 4, 1),
            UsageValue::Valid(known(3, 1, 0, 2, 1)),
        ),
    ];
    let high = UsageProcessor::new(context(1), None)
        .process(records)
        .events
        .pop()
        .expect("canonical event");
    let mut medium = high.clone();
    medium.reasoning_effort = Some("medium".to_owned());
    medium.event_id = event_id(&medium);

    assert_eq!(
        codex_usage::normalization::canonical_algorithm_for(
            codex_usage::normalization::USAGE_PARSER_VERSION,
        ),
        Some(5)
    );
    assert_eq!(codex_usage::normalization::USAGE_PARSER_VERSION, 11);
    assert_eq!(
        codex_usage::normalization::USAGE_CANONICAL_ALGORITHM_VERSION,
        5
    );
    assert_eq!(high.event_id, event_id(&high), "replay is stable");
    assert_ne!(
        high.event_id, medium.event_id,
        "effort is canonical context"
    );
    assert_eq!(
        compare_canonical(Some(&high), &high),
        CanonicalDecision::Duplicate
    );
    assert_eq!(
        compare_canonical(Some(&high), &medium),
        CanonicalDecision::Conflict
    );
}

#[test]
fn t_mu03_c04_compensation_protects_effort_ownership_without_changing_tokens() {
    let baseline = known(10, 2, 1, 4, 1);
    let process = |contexts: &[Option<&str>]| {
        let mut records = vec![UsageRecord::TurnStarted {
            ownership: owning(),
            turn_id: Some("turn-effort".to_owned()),
            timestamp_ms: Some(90),
            start_offset: 10,
        }];
        let mut total = 10;
        let mut offset = 20;
        for (index, effort) in contexts.iter().enumerate() {
            records.push(UsageRecord::TurnContext {
                ownership: owning(),
                model: Some("model-a".to_owned()),
                reasoning_effort: effort.map(str::to_owned),
            });
            total += 4;
            records.push(token(
                100 + index as i64,
                offset,
                known(
                    total,
                    2 + index as i64,
                    1,
                    4 + (index as i64 + 1) * 4,
                    index as i64 + 2,
                ),
                UsageValue::Valid(known(2, 0, 0, 2, 1)),
            ));
            offset += 10;
        }
        records.push(UsageRecord::TurnEnded {
            ownership: owning(),
            turn_id: Some("turn-effort".to_owned()),
            timestamp_ms: Some(200),
            start_offset: offset,
            end_offset: offset + 10,
            status: TurnEndStatus::Completed,
        });
        UsageProcessor::new(
            context(1),
            Some(UsageSourceState {
                previous_total: Some(baseline.clone()),
                previous_total_offset: Some(5),
                ..UsageSourceState::default()
            }),
        )
        .process(records)
    };

    let single = process(&[Some("high")]);
    let compensation = single
        .events
        .iter()
        .find(|event| event.kind == EventKind::TurnCompensation)
        .expect("single-effort compensation");
    assert_eq!(compensation.reasoning_effort.as_deref(), Some("high"));

    let mixed = process(&[Some("high"), Some("medium")]);
    let mixed_compensation = mixed
        .events
        .iter()
        .find(|event| event.kind == EventKind::TurnCompensation)
        .expect("mixed-effort compensation");
    assert_eq!(mixed_compensation.reasoning_effort, None);
    assert!(mixed_compensation.usage.input_tokens > 0);

    let unknown = process(&[Some("high"), None]);
    let unknown_compensation = unknown
        .events
        .iter()
        .find(|event| event.kind == EventKind::TurnCompensation)
        .expect("known-plus-unknown compensation");
    assert_eq!(unknown_compensation.reasoning_effort, None);
    assert!(unknown_compensation.usage.input_tokens > 0);
}

fn blocked_cases_template(baseline: &NormalizedTokenUsage) -> TurnState {
    TurnState {
        turn_key: "turn".to_owned(),
        raw_turn_id: Some("turn".to_owned()),
        started_at_ms: Some(1),
        start_offset: 1,
        start_total: Some(baseline.clone()),
        last_total: Some(known(15, 2, 1, 6, 1)),
        accounted: NormalizedTokenUsage::zero(),
        accounted_candidate_count: 0,
        model_state: TurnModelState::Single("model-a".to_owned()),
        reasoning_effort_state: TurnReasoningEffortState::Unseen,
        unresolved_reasoning_effort_seen: false,
        unresolved_model_seen: false,
        blocks: CompensationBlocks::default(),
    }
}

fn close_existing_turn(turn: TurnState, status: TurnEndStatus) -> ProcessResult {
    UsageProcessor::new(
        context(1),
        Some(UsageSourceState {
            previous_total: turn.last_total.clone(),
            previous_total_offset: Some(20),
            open_turn: Some(turn),
            ..UsageSourceState::default()
        }),
    )
    .process(vec![UsageRecord::TurnEnded {
        ownership: owning(),
        turn_id: Some("turn".to_owned()),
        timestamp_ms: Some(100),
        start_offset: 30,
        end_offset: 40,
        status,
    }])
}
