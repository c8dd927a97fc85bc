use codex_usage::domain::{CheckpointProcessingStatus, SourceArea};
use codex_usage::ingestion::usage_processor::{
    AnomalyCode, GapKind, Ownership, ProcessResult, TurnEndStatus, UsageContext, UsageProcessor,
    UsageRecord, UsageValue,
};
use codex_usage::platform::Platform;
use codex_usage::rollout::{RecordOwnership, ResumeState};
use codex_usage::rollout_parser::{
    CompleteRolloutLine, OwningThreadCandidates, RolloutMetadataParser, RolloutParseContext,
    RolloutParseResult,
};
use codex_usage::token_usage::{EventKind, NormalizedTokenUsage};

const OWNER: &str = "01981111-1111-7111-8111-111111111111";
const PARENT: &str = "01980000-1111-7111-8111-111111111111";

fn line(start: u64, json: &str) -> CompleteRolloutLine {
    CompleteRolloutLine::new(start, format!("{json}\n").into_bytes()).unwrap()
}

fn lines(values: &[String]) -> Vec<CompleteRolloutLine> {
    let mut start = 0;
    let mut all = Vec::new();
    for value in values {
        let next = line(start, value);
        start = next.end_offset();
        all.push(next);
    }
    all
}

fn rollout() -> Vec<String> {
    vec![
        format!(
            r#"{{"timestamp":900,"type":"session_meta","payload":{{"id":"{OWNER}","cwd":"/work/app"}}}}"#
        ),
        format!(
            r#"{{"timestamp":1000,"type":"turn_context","payload":{{"turn_id":"{OWNER}","model":"m1","cwd":"/work/other"}}}}"#
        ),
        "not json".to_owned(),
        r#"{"timestamp":1100,"type":"response_item","payload":{}}"#.to_owned(),
    ]
}

fn context() -> RolloutParseContext {
    RolloutParseContext {
        platform: Platform::here(),
        source_file_id: 7,
        chunk_start_offset: 0,
        candidates: OwningThreadCandidates::default(),
        resume_state: ResumeState::AwaitOwningMeta,
        existing_fact: None,
    }
}

fn pushed(values: &[CompleteRolloutLine]) -> RolloutParseResult {
    let mut classifier = RolloutMetadataParser::start_chunk(context());
    for value in values {
        classifier.push(value);
    }
    classifier.finish()
}

#[test]
fn a_line_is_complete_only_with_its_ending() {
    assert!(CompleteRolloutLine::new(0, b"{}".to_vec()).is_none());
    assert!(CompleteRolloutLine::new(0, Vec::new()).is_none());
    let whole = CompleteRolloutLine::new(5, b"{}\n".to_vec()).unwrap();
    assert_eq!((whole.start_offset(), whole.end_offset()), (5, 8));
}

#[test]
fn details_do_not_matter_to_what_a_rollout_says() {
    let values = lines(&rollout());
    let kept = RolloutMetadataParser::parse_chunk(context(), lines(&rollout()));
    let plain = pushed(&values);
    assert_eq!(kept.fact, plain.fact);
    assert_eq!(kept.final_continuation, plain.final_continuation);
    assert_eq!(kept.needs_rebuild, plain.needs_rebuild);
    assert_eq!(kept.diagnostic_count, plain.diagnostic_count);
    assert_eq!(kept.malformed_record_count, plain.malformed_record_count);
    assert_eq!(kept.records.len(), values.len());
    for (record, value) in kept.records.iter().zip(&values) {
        assert_eq!(record.start_offset, value.start_offset());
        assert_eq!(record.end_offset, value.end_offset());
    }
    assert!(kept.malformed_record_count >= 1);
    assert!(kept.diagnostic_count >= kept.malformed_record_count);
}

#[test]
fn the_session_outranks_its_turns() {
    let fact = pushed(&lines(&rollout())).fact.unwrap();
    assert_eq!(fact.cwd.unwrap().value, "/work/app");
    assert_eq!(fact.latest_context_model.as_deref(), Some("m1"));
    assert_eq!(fact.owning_thread_id, OWNER);
    assert_eq!(fact.created_at_ms, Some(900));
}

#[test]
fn a_gap_between_lines_calls_for_a_rebuild_that_stays() {
    let first = line(0, &rollout()[0]);
    let apart = line(first.end_offset() + 3, &rollout()[1]);
    let after = line(apart.end_offset(), &rollout()[3]);
    let result = pushed(&[first, apart, after]);
    assert!(result.needs_rebuild);
    assert!(result.fact.is_none());
}

#[test]
fn a_foreign_record_leaves_the_fact_alone() {
    let foreign = format!(
        r#"{{"timestamp":950,"type":"session_meta","payload":{{"id":"{PARENT}","cwd":"/elsewhere"}}}}"#
    );
    let alone = pushed(&lines(&rollout()[..1])).fact.unwrap();
    let both = vec![rollout()[0].clone(), foreign];
    let result = RolloutMetadataParser::parse_chunk(context(), lines(&both));
    assert_eq!(result.records[1].ownership, RecordOwnership::ReplayedAncestor);
    let fact = result.fact.unwrap();
    assert_eq!(fact.cwd, alone.cwd);
    assert_eq!(fact.owning_thread_id, alone.owning_thread_id);
    assert_eq!(fact.created_at_ms, alone.created_at_ms);
}

fn owning() -> Ownership {
    Ownership::Owning { thread_id: "thread".to_owned() }
}

fn usage_context(source_file_id: i64) -> UsageContext {
    UsageContext {
        source_file_id,
        file_generation: 1,
        owning_thread_id: "thread".to_owned(),
        root_session_id: "thread".to_owned(),
    }
}

fn usage(input: i64) -> NormalizedTokenUsage {
    NormalizedTokenUsage::new(input, 0, Some(0), 0, 0, input).unwrap()
}

fn token(at: i64, offset: u64, total: i64, last: UsageValue) -> UsageRecord {
    UsageRecord::TokenCount {
        ownership: owning(),
        timestamp_ms: Some(at),
        start_offset: offset,
        end_offset: offset + 10,
        total: UsageValue::Valid(usage(total)),
        last,
    }
}

fn model(name: &str) -> UsageRecord {
    UsageRecord::TurnContext {
        ownership: owning(),
        model: Some(name.to_owned()),
        reasoning_effort: None,
    }
}

fn started(id: &str, offset: u64) -> UsageRecord {
    UsageRecord::TurnStarted {
        ownership: owning(),
        turn_id: Some(id.to_owned()),
        timestamp_ms: Some(1),
        start_offset: offset,
    }
}

fn ended(id: &str, offset: u64) -> UsageRecord {
    UsageRecord::TurnEnded {
        ownership: owning(),
        turn_id: Some(id.to_owned()),
        timestamp_ms: Some(9),
        start_offset: offset,
        end_offset: offset + 5,
        status: TurnEndStatus::Completed,
    }
}

fn stream() -> Vec<UsageRecord> {
    vec![
        model("m1"),
        token(1, 10, 10, UsageValue::Valid(usage(10))),
        started("t", 20),
        token(2, 30, 15, UsageValue::Missing),
        token(3, 40, 15, UsageValue::Missing),
        token(4, 50, 22, UsageValue::Valid(usage(4))),
        ended("t", 60),
    ]
}

fn run(records: Vec<UsageRecord>) -> ProcessResult {
    UsageProcessor::new(usage_context(1), None).process(records)
}

#[test]
fn a_restart_shows_nowhere() {
    let whole = run(stream());
    for cut in 0..stream().len() {
        let mut first = stream();
        let second = first.split_off(cut);
        let before = run(first);
        let after = UsageProcessor::new(usage_context(1), Some(before.updated_state.clone()))
            .process(second);
        let mut events = before.events;
        events.extend(after.events);
        let mut occurrences = before.occurrences;
        occurrences.extend(after.occurrences);
        let mut closed = before.closed_turns;
        closed.extend(after.closed_turns);
        assert_eq!(events, whole.events);
        assert_eq!(occurrences, whole.occurrences);
        assert_eq!(closed, whole.closed_turns);
        assert_eq!(after.updated_state, whole.updated_state);
    }
}

#[test]
fn a_compensation_completes_the_turn() {
    let whole = run(stream());
    let kinds: Vec<EventKind> = whole.events.iter().map(|event| event.kind).collect();
    assert_eq!(
        kinds,
        vec![
            EventKind::Normal,
            EventKind::Recovered,
            EventKind::Normal,
            EventKind::TurnCompensation
        ]
    );
    let in_turn: i64 = whole.events[1..].iter().map(|event| event.usage.input_tokens).sum();
    assert_eq!(in_turn, 12);
    assert_eq!(whole.events.len(), whole.occurrences.len());
    for (event, occurrence) in whole.events.iter().zip(&whole.occurrences) {
        assert_eq!(event.event_id, occurrence.event_id);
    }
}

#[test]
fn a_blocked_turn_is_not_compensated() {
    let mut records = stream();
    records.insert(4, UsageRecord::Gap { ownership: owning(), kind: GapKind::Malformed });
    let result = run(records);
    assert!(result.events.iter().all(|event| event.kind != EventKind::TurnCompensation));
}

#[test]
fn replayed_records_change_nothing() {
    let mut records = stream();
    records.insert(
        2,
        UsageRecord::TokenCount {
            ownership: Ownership::ReplayedAncestor,
            timestamp_ms: Some(2),
            start_offset: 15,
            end_offset: 18,
            total: UsageValue::Valid(usage(999)),
            last: UsageValue::Missing,
        },
    );
    assert_eq!(run(records), run(stream()));
}

#[test]
fn what_cannot_be_attributed_is_rebuilt() {
    let mut records = stream();
    records.push(UsageRecord::Gap {
        ownership: Ownership::UnknownOwnership,
        kind: GapKind::Malformed,
    });
    let result = run(records);
    assert!(result.needs_rebuild);
    assert!(result.events.is_empty() && result.anomalies.is_empty());
    assert_eq!(result.updated_state, run(Vec::new()).updated_state);
}

#[test]
fn copies_agree_but_for_their_place() {
    let here = run(stream());
    let there = UsageProcessor::new(usage_context(2), None).process(stream());
    assert_eq!(here.events, there.events);
    assert_eq!(here.updated_state, there.updated_state);
    assert!(there.occurrences.iter().all(|occurrence| occurrence.source_file_id == 2));
}

#[test]
fn a_repeated_total_proposes_nothing() {
    let before = run(stream());
    let after = UsageProcessor::new(usage_context(1), Some(before.updated_state))
        .process(vec![token(10, 90, 22, UsageValue::Valid(usage(5)))]);
    assert!(after.events.is_empty());
    assert!(after.anomalies.is_empty());
}

#[test]
fn a_total_that_falls_is_remarked_on() {
    let before = run(stream());
    let after = UsageProcessor::new(usage_context(1), Some(before.updated_state))
        .process(vec![token(10, 90, 3, UsageValue::Missing)]);
    assert_eq!(after.anomalies[0].code, AnomalyCode::TotalChainReset);
    assert!(after.events.is_empty());
}

#[test]
fn a_difference_undoes_a_sum() {
    let a = NormalizedTokenUsage::new(10, 4, Some(2), 3, 1, 13).unwrap();
    let b = NormalizedTokenUsage::new(5, 1, Some(1), 2, 2, 7).unwrap();
    let sum = a.checked_add(&b).unwrap();
    assert_eq!(sum, b.checked_add(&a).unwrap());
    assert_eq!(sum.checked_sub(&b).unwrap(), a);
}

#[test]
fn names_read_back_as_what_was_written() {
    for area in [SourceArea::Sessions, SourceArea::ArchivedSessions] {
        assert_eq!(SourceArea::try_from(area.as_str()), Ok(area));
    }
    for status in [
        CheckpointProcessingStatus::Pending,
        CheckpointProcessingStatus::Ready,
        CheckpointProcessingStatus::Error,
        CheckpointProcessingStatus::RebuildRequired,
    ] {
        assert_eq!(CheckpointProcessingStatus::try_from(status.as_str()), Ok(status));
    }
}
