use codex_usage::diagnostics::SourceAvailability;
use codex_usage::domain::{
    BuildDisposition, CheckpointProcessingStatus, ConsumerKind, FileStatus, MetadataScanState,
    MetadataScanStateEntry, SafeFactState, SourceArea,
    SourceFileState, SourceObservationResult,
};
use codex_usage::ingestion::chunks::{
    read_error_code, ChunkReadError, ChunkReadResult, FramedItem, FramedLine, GuardHash,
    OversizedLine, PhysicalIdentity, ReadControl,
};
use codex_usage::ingestion::commit_types::{
    CostEstimate, UsageCheckpointExpectation, UsageTailStatus, UsageTurnStatus,
};
use codex_usage::ingestion::metadata_reading::{
    empty_session_snapshot, is_read, metadata_rebuilds, owning_candidates,
    unavailable_session_snapshot, MetadataReading, ScanRound,
};
use codex_usage::ingestion::report::{
    FilePlan, ParsedSource, PipelinePlan, ScanReport, UsageCommitMetrics, UsageCommitOutcome,
};
use codex_usage::ingestion::scan_run::{ScanAction, ScanEvent, ScanRun};
use codex_usage::ingestion::source_batch::{
    judge, BatchStart, BatchTurn, DiscoveredFile, SourceReading, UsageReadStep,
};
use codex_usage::ingestion::thread_group::{
    dto_adapter_counts, dto_requires_exclusive_batch, group_budget_allows, group_budget_full,
    GroupAction, GroupEvent, GroupPlan, StorageReply, ThreadGroup, UsageThreadOutcome,
};
use codex_usage::ingestion::usage_commit::{build_batch, source_commit, PricedCommit};
use codex_usage::ingestion::usage_pipeline::{
    PipelineDisposition, PipelineError, UsageSourceCommitDto, MAX_BATCH_BYTES, MAX_BATCH_LINES,
};
use codex_usage::ingestion::usage_plan::{
    carried_prefix_matches, find_file, guard_from_slice, observed_prefix_matches,
    present_carry_prefix, required_carry_prefix, to_pipeline_action, SourceUsageEpochState,
    StoredIdentity, UsageBuildProof, UsageCarryObservationRequirement, UsagePlanAction,
    UsageSourceScanPlan,
};
use codex_usage::ingestion::usage_round::{
    present_file, present_sources, select_work_sources, CompletionStatus, RoundAction, RoundEvent,
    UsageRound, CLEANUP_ROWS_PER_ROUND,
};
use codex_usage::normalization::USAGE_PARSER_VERSION;
use codex_usage::platform::Platform;
use codex_usage::rollout::{FinalContinuation, ResumeState};
use codex_usage::rollout_parser::OwningThreadCandidates;
use codex_usage::state_index::{StateSnapshot, StateThreadFact};
use codex_usage::usage::SkillUsageEvidence;

const OWNER: &str = "01981111-1111-7111-8111-111111111111";

fn session_meta() -> String {
    format!(
        r#"{{"timestamp":900,"type":"session_meta","payload":{{"id":"{OWNER}","cwd":"/work/app"}}}}"#
    )
}

fn turn_context() -> String {
    format!(
        r#"{{"timestamp":1000,"type":"turn_context","payload":{{"turn_id":"{OWNER}","model":"gpt-5.6-sol","effort":"high"}}}}"#
    )
}

fn token_count(total: i64) -> String {
    r#"{"timestamp":1100,"type":"event_msg","payload":{"type":"token_count","info":{"total_token_usage":{"input_tokens":$TOTAL,"cached_input_tokens":0,"cache_write_input_tokens":0,"output_tokens":0,"reasoning_output_tokens":0,"total_tokens":$TOTAL},"last_token_usage":{"input_tokens":$TOTAL,"cached_input_tokens":0,"cache_write_input_tokens":0,"output_tokens":0,"reasoning_output_tokens":0,"total_tokens":$TOTAL}}}}"#
        .replace("$TOTAL", &total.to_string())
}

fn framed(lines: &[String]) -> (Vec<FramedItem>, u64) {
    let mut at: u64 = 0;
    let mut items = Vec::new();
    for line in lines {
        let bytes = format!("{line}\n").into_bytes();
        let next = at + bytes.len() as u64;
        items.push(FramedItem::Line(FramedLine {
            start_offset: at,
            bytes_with_newline: bytes,
            skill_usage: None,
        }));
        at = next;
    }
    (items, at)
}

fn file(size: u64) -> DiscoveredFile {
    DiscoveredFile {
        path: "/home/codex/sessions/rollout.jsonl".to_owned(),
        device_id: 3,
        inode: 4,
        size: size as i64,
        filename_thread_id_candidate: Some(OWNER.to_owned()),
    }
}

fn epoch() -> SourceUsageEpochState {
    SourceUsageEpochState {
        active_epoch: 1,
        build_epoch: None,
        working_epoch: 1,
        working_parser_version: USAGE_PARSER_VERSION,
    }
}

fn scan_plan(action: UsagePlanAction) -> UsageSourceScanPlan {
    UsageSourceScanPlan {
        source_file_id: 9,
        action,
        start_offset: 0,
        owning_thread_id: Some(OWNER.to_owned()),
        root_session_id: Some(OWNER.to_owned()),
        checkpoint: None,
        state: None,
        open_turn: None,
        build: None,
    }
}

fn entry(size: i64) -> MetadataScanStateEntry {
    MetadataScanStateEntry {
        source: SourceFileState::new(
        Platform::here(),
            9,
            Some(OWNER.to_owned()),
            "/home/codex/sessions/rollout.jsonl".to_owned(),
            SourceArea::Sessions,
            3,
            4,
            2,
            size,
            10,
            FileStatus::Present,
            10,
        )
        .unwrap(),
        metadata_checkpoint: None,
        safe_fact: SafeFactState::Absent,
    }
}

fn candidates() -> OwningThreadCandidates {
    owning_candidates(&file(1), &StateSnapshot::unavailable(Vec::new()), &Vec::new())
}

fn read_to(end: u64) -> ChunkReadResult {
    ChunkReadResult {
        last_complete_offset: end,
        guard: Some(GuardHash::from_bytes([8; 32])),
        bytes_read: end,
        guard_bytes_read: 0,
        peak_buffered_body_bytes: end,
        complete_line_count: 1,
        oversized_complete_line_count: 0,
        has_half_line: false,
        fixed_view_exhausted: true,
    }
}

fn start_reading(action: UsagePlanAction, size: u64) -> SourceReading {
    match SourceReading::start(
        epoch(),
        scan_plan(action),
        &file(size),
        2,
        &entry(size as i64),
        candidates(),
    ) {
        Ok(BatchStart::Reading(reading)) => reading,
        _ => panic!("expected a reading"),
    }
}

fn settle(reading: SourceReading, end: u64) -> UsageSourceCommitDto {
    match reading.after_read(Ok(read_to(end)), 77) {
        Ok(BatchTurn::Done(UsageReadStep::Prepared { dto, .. })) => dto,
        Ok(BatchTurn::Done(step)) => panic!("{step:?}"),
        Ok(BatchTurn::ReadOn(_)) => panic!("expected a commit"),
        Err(code) => panic!("{code}"),
    }
}

/// The commit of the line that tells the owner.
fn first_commit(lines: &[String]) -> UsageSourceCommitDto {
    let (items, end) = framed(lines);
    let mut reading = start_reading(UsagePlanAction::ReadFrom, end);
    let first = items.into_iter().next().unwrap();
    assert_eq!(reading.offer(first), ReadControl::StopAfter);
    let mut read = read_to(lines[0].len() as u64 + 1);
    read.fixed_view_exhausted = lines.len() == 1;
    match reading.after_read(Ok(read), 77) {
        Ok(BatchTurn::Done(UsageReadStep::Prepared { dto, .. })) => dto,
        _ => panic!("expected a commit"),
    }
}

/// The metadata that was read of the file.
fn safe_entry(lines: &[String]) -> MetadataScanStateEntry {
    let (items, end) = framed(lines);
    let plan = FilePlan::Rebuild { source_file_id: 9, observed_size: end as i64 };
    let mut reading =
        MetadataReading::start(&file(end), &entry(end as i64), &plan, candidates()).ok().unwrap();
    for item in items {
        reading.offer(item);
    }
    let source = reading.finish(Ok(read_to(end)), false).unwrap();
    let fact = source
        .fact
        .unwrap()
        .to_safe_fact(2, 1, end, 100, &source.final_continuation)
        .unwrap();
    MetadataScanStateEntry { safe_fact: SafeFactState::Matching(fact), ..entry(end as i64) }
}

/// The reading that goes on where the first commit ended.
fn resumed_reading(lines: &[String]) -> SourceReading {
    let (_, end) = framed(lines);
    let written = source_commit(first_commit(lines), &Vec::new()).unwrap();
    let mut plan = scan_plan(UsagePlanAction::ResumeOwningLive);
    plan.start_offset = written.last_complete_offset;
    plan.checkpoint = Some(UsageCheckpointExpectation {
        parser_version: USAGE_PARSER_VERSION,
        committed_offset: written.last_complete_offset,
        guard_hash: written.next_guard_hash.clone(),
        processing_status: CheckpointProcessingStatus::Ready,
    });
    plan.state = Some(written.updated_state);
    match SourceReading::start(epoch(), plan, &file(end), 2, &safe_entry(lines), candidates()) {
        Ok(BatchStart::Reading(reading)) => reading,
        Ok(BatchStart::NeedsRebuild) => panic!("expected a reading"),
        Err(code) => panic!("{code}"),
    }
}

fn commit() -> UsageSourceCommitDto {
    let lines = [session_meta(), turn_context(), token_count(10)];
    let (items, end) = framed(&lines);
    let mut reading = resumed_reading(&lines);
    for item in items.into_iter().skip(1) {
        assert_eq!(reading.offer(item), ReadControl::Continue);
    }
    settle(reading, end)
}

fn source_read(dto: UsageSourceCommitDto) -> GroupEvent {
    GroupEvent::SourceRead(judge(Ok(PipelineDisposition::Commit(dto)), true, true).map(
        |step| step.unwrap(),
    ))
}

#[test]
fn a_file_is_read_into_commits() {
    let first = first_commit(&[session_meta(), turn_context(), token_count(10)]);
    assert_eq!(first.last_complete_offset, session_meta().len() as u64 + 1);
    assert!(!first.fixed_view_exhausted);
    assert!(first.events.is_empty());
    let dto = commit();
    assert_eq!(dto.batch_start_offset, first.last_complete_offset);
    assert_eq!(dto.expected_state.as_ref(), Some(&first.updated_state));
    assert_eq!(dto.events.len(), 1);
    assert_eq!(dto.events[0].usage.input_tokens, 10);
    assert_eq!(dto.events[0].model, "gpt-5.6-sol");
    assert_eq!(dto.source_file_id, 9);
    assert_eq!(dto.owning_thread_id, OWNER);
    assert_eq!(dto.committed_at_ms, 77);
    assert!(dto.fixed_view_exhausted);
    assert_eq!(dto.last_complete_offset, dto.fixed_observed_raw_size);
    assert_eq!(dto.updated_state.resolved_through_offset, dto.last_complete_offset);
    assert_eq!(dto.next_guard_hash, Some(vec![8; 32]));
    assert_eq!(dto.events.len() as u64, dto.occurrences.len() as u64);
}

#[test]
fn a_file_without_its_owner_waits() {
    let (items, end) = framed(&[turn_context()]);
    let mut reading = start_reading(UsagePlanAction::ReadFrom, end);
    for item in items {
        reading.offer(item);
    }
    match reading.after_read(Ok(read_to(end)), 1) {
        Ok(BatchTurn::Done(step)) => assert_eq!(step, UsageReadStep::AwaitingOwnership),
        _ => panic!("expected the source to wait"),
    }
}

#[test]
fn a_file_that_changed_stops_the_reading() {
    let reading = start_reading(UsagePlanAction::ReadFrom, 10);
    assert_eq!(reading.next_read().start_offset, 0);
    assert_eq!(reading.next_read().observed_size, 10);
    assert_eq!(
        reading.next_read().identity,
        PhysicalIdentity { device_id: 3, inode: 4 }
    );
    match reading.after_read(Err(ChunkReadError::SourceChangedDuringRead), 1) {
        Ok(BatchTurn::Done(step)) => assert_eq!(step, UsageReadStep::NeedsRebuildStop),
        _ => panic!("expected a stop"),
    }
    let reading = start_reading(UsagePlanAction::ReadFrom, 10);
    match reading.after_read(Err(ChunkReadError::Io), 1) {
        Err(code) => assert_eq!(code, read_error_code(ChunkReadError::Io)),
        Ok(_) => panic!("expected a failure"),
    }
}

#[test]
fn a_source_that_cannot_be_started_says_why() {
    let start = |plan: UsageSourceScanPlan, file: DiscoveredFile| {
        SourceReading::start(epoch(), plan, &file, 2, &entry(10), candidates())
    };
    let mut negative = file(10);
    negative.size = -1;
    assert_eq!(
        start(scan_plan(UsagePlanAction::ReadFrom), negative).err(),
        Some("USAGE_SOURCE_SIZE_INVALID")
    );
    let mut strange = file(10);
    strange.inode = -4;
    assert_eq!(
        start(scan_plan(UsagePlanAction::ReadFrom), strange).err(),
        Some("USAGE_SOURCE_IDENTITY_INVALID")
    );
    let mut before = scan_plan(UsagePlanAction::ReadFrom);
    before.start_offset = -1;
    assert_eq!(start(before, file(10)).err(), Some("USAGE_SOURCE_OFFSET_INVALID"));
    let mut resumed = scan_plan(UsagePlanAction::ResumeOwningLive);
    resumed.start_offset = 5;
    assert!(matches!(start(resumed, file(10)), Ok(BatchStart::NeedsRebuild)));
}

#[test]
fn a_chunk_is_judged_by_its_disposition() {
    assert_eq!(judge(Err(PipelineError::InvalidPlan), true, true), Err("USAGE_PIPELINE_FAILED"));
    let waiting = || Ok(PipelineDisposition::AwaitingOwningMeta);
    assert_eq!(judge(waiting(), true, true), Ok(Some(UsageReadStep::AwaitingOwnership)));
    assert_eq!(judge(waiting(), false, true), Ok(None));
    assert_eq!(judge(waiting(), false, false), Ok(Some(UsageReadStep::NeedsRebuild)));
    assert_eq!(
        judge(Ok(PipelineDisposition::NeedsRebuild), true, true),
        Ok(Some(UsageReadStep::NeedsRebuild))
    );
    assert_eq!(
        judge(Ok(PipelineDisposition::Skip), true, true),
        Ok(Some(UsageReadStep::AwaitingOwnership))
    );
    assert_eq!(
        judge(Ok(PipelineDisposition::BlockedRelationship), true, true),
        Ok(Some(UsageReadStep::AwaitingOwnership))
    );
}

#[test]
fn a_line_that_fills_the_window_is_left_for_the_next_time() {
    let lines = [session_meta(), turn_context(), token_count(10)];
    let (items, end) = framed(&lines);
    let mut reading = resumed_reading(&lines);
    for item in items.into_iter().skip(1) {
        assert_eq!(reading.offer(item), ReadControl::Continue);
    }
    assert_eq!(
        reading.offer(FramedItem::OversizedCompleteLine(OversizedLine {
            start_offset: end,
            end_offset: end + 2 * MAX_BATCH_BYTES,
        })),
        ReadControl::StopBefore
    );
    assert_eq!(reading.window.adapter_lines, 2);
    assert!(reading.window.adapter_lines <= MAX_BATCH_LINES);
}

#[test]
fn skills_of_a_line_are_committed_with_it() {
    let lines = [session_meta(), turn_context(), token_count(10)];
    let (mut items, end) = framed(&lines);
    if let FramedItem::Line(line) = &mut items[2] {
        line.skill_usage = Some(SkillUsageEvidence {
            occurred_at_ms: 1_100,
            skill_names: vec!["review".to_owned()],
        });
    }
    let mut reading = resumed_reading(&lines);
    for item in items.into_iter().skip(1) {
        reading.offer(item);
    }
    match reading.after_read(Ok(read_to(end)), 1) {
        Ok(BatchTurn::Done(UsageReadStep::Prepared { dto, metrics })) => {
            assert_eq!(dto.skill_events.len(), 1);
            assert_eq!(dto.skill_events[0].model.as_deref(), Some("gpt-5.6-sol"));
            assert_eq!(metrics, UsageCommitMetrics::from_dto(&dto));
        }
        _ => panic!("expected a commit"),
    }
}

fn group_plan(action: UsagePlanAction) -> GroupPlan {
    GroupPlan { source_file_id: 9, action, present: true }
}

fn loaded(plans: Vec<GroupPlan>, building: bool) -> GroupEvent {
    GroupEvent::Loaded { plans, building, cancelled: false }
}

fn done() -> GroupEvent {
    GroupEvent::Replied { reply: StorageReply::Done, cancelled: false }
}

fn replied(reply: StorageReply) -> GroupEvent {
    GroupEvent::Replied { reply, cancelled: false }
}

fn outcome(action: GroupAction) -> UsageThreadOutcome {
    match action {
        GroupAction::Finish(outcome) => outcome,
        _ => panic!("expected the end"),
    }
}

#[test]
fn a_group_reads_commits_and_loads_again() {
    let mut group = ThreadGroup::start(true);
    assert!(matches!(
        group.step(loaded(vec![group_plan(UsagePlanAction::ReadFrom)], false)),
        GroupAction::Read(0)
    ));
    match group.step(source_read(commit())) {
        GroupAction::Commit(dtos) => assert_eq!(dtos.len(), 1),
        _ => panic!("expected a commit"),
    }
    assert_eq!(group.source_ids, vec![9]);
    assert!(matches!(group.step(done()), GroupAction::Load));
    assert_eq!(
        outcome(group.step(loaded(vec![group_plan(UsagePlanAction::Skip)], false))),
        UsageThreadOutcome::Completed
    );
}

#[test]
fn a_group_is_at_fault_only_for_its_relationships_or_its_data() {
    let mut blocked = ThreadGroup::start(true);
    assert_eq!(
        outcome(blocked.step(loaded(
            vec![
                group_plan(UsagePlanAction::Skip),
                group_plan(UsagePlanAction::BlockedRelationship)
            ],
            false
        ))),
        UsageThreadOutcome::SessionDataError("USAGE_SESSION_RELATIONSHIP_INVALID")
    );
    let mut building = ThreadGroup::start(true);
    building.step(loaded(vec![group_plan(UsagePlanAction::BuildFrom)], true));
    assert_eq!(
        outcome(building.step(GroupEvent::SourceRead(Ok(UsageReadStep::InvalidSessionData)))),
        UsageThreadOutcome::SessionDataError("USAGE_SESSION_DATA_INVALID")
    );
    let mut reading = ThreadGroup::start(true);
    reading.step(loaded(vec![group_plan(UsagePlanAction::ReadFrom)], false));
    assert!(matches!(
        reading.step(GroupEvent::SourceRead(Ok(UsageReadStep::InvalidSessionData))),
        GroupAction::Begin
    ));
    assert_eq!(
        outcome(reading.step(done())),
        UsageThreadOutcome::GlobalPlanChanged { retry_thread: true }
    );
}

#[test]
fn a_group_rebuilds_within_an_open_build() {
    for (step, retry_thread) in [
        (UsageReadStep::NeedsRebuild, false),
        (UsageReadStep::NeedsRebuildStop, false),
    ] {
        let mut group = ThreadGroup::start(true);
        group.step(loaded(vec![group_plan(UsagePlanAction::BuildFrom)], true));
        match group.step(GroupEvent::SourceRead(Ok(step))) {
            GroupAction::Replace(ids) => assert_eq!(ids, vec![9]),
            _ => panic!("expected a replacement"),
        }
        assert_eq!(
            outcome(group.step(done())),
            UsageThreadOutcome::GlobalPlanChanged { retry_thread }
        );
    }
    let mut failing = ThreadGroup::start(true);
    assert!(matches!(
        failing.step(loaded(vec![group_plan(UsagePlanAction::RebuildRequired)], true)),
        GroupAction::Replace(_)
    ));
    assert_eq!(
        outcome(failing.step(replied(StorageReply::Failed))),
        UsageThreadOutcome::OrdinaryError("USAGE_REBUILD_REPLACE_FAILED")
    );
}

#[test]
fn an_incomplete_discovery_rebuilds_nothing() {
    for action in [UsagePlanAction::RebuildRequired, UsagePlanAction::BeginCarry] {
        let mut group = ThreadGroup::start(false);
        assert_eq!(
            outcome(group.step(loaded(vec![group_plan(action)], true))),
            UsageThreadOutcome::Completed
        );
    }
    let mut group = ThreadGroup::start(false);
    group.step(loaded(vec![group_plan(UsagePlanAction::ReadFrom)], false));
    assert_eq!(
        outcome(group.step(GroupEvent::SourceRead(Ok(UsageReadStep::NeedsRebuild)))),
        UsageThreadOutcome::Completed
    );
    let mut conflicting = ThreadGroup::start(false);
    conflicting.step(loaded(vec![group_plan(UsagePlanAction::ReadFrom)], false));
    conflicting.step(source_read(commit()));
    assert_eq!(
        outcome(conflicting.step(replied(StorageReply::Conflict))),
        UsageThreadOutcome::OrdinaryError("USAGE_GROUP_COMMIT_FAILED")
    );
}

#[test]
fn a_commit_in_conflict_is_built_anew() {
    let mut group = ThreadGroup::start(true);
    group.step(loaded(vec![group_plan(UsagePlanAction::ReadFrom)], true));
    group.step(source_read(commit()));
    match group.step(replied(StorageReply::Conflict)) {
        GroupAction::Replace(ids) => assert_eq!(ids, vec![9]),
        _ => panic!("expected a replacement"),
    }
    assert_eq!(
        outcome(group.step(done())),
        UsageThreadOutcome::GlobalPlanChanged { retry_thread: false }
    );
}

#[test]
fn a_carried_source_is_verified_before_it_goes_on() {
    let mut group = ThreadGroup::start(true);
    assert!(matches!(
        group.step(loaded(vec![group_plan(UsagePlanAction::ResumeCarry)], true)),
        GroupAction::VerifyCarry(9)
    ));
    assert!(matches!(group.step(GroupEvent::Verified(Ok(true))), GroupAction::ResumeCarry(9)));
    assert_eq!(
        outcome(group.step(replied(StorageReply::Conflict))),
        UsageThreadOutcome::OrdinaryError("USAGE_CARRY_CONFLICT")
    );
    let mut changed = ThreadGroup::start(true);
    changed.step(loaded(vec![group_plan(UsagePlanAction::ResumeCarry)], true));
    assert!(matches!(
        changed.step(GroupEvent::Verified(Ok(false))),
        GroupAction::Replace(_)
    ));
    let mut absent = ThreadGroup::start(true);
    let plan = GroupPlan { present: false, ..group_plan(UsagePlanAction::ResumeCarry) };
    assert!(matches!(absent.step(loaded(vec![plan], true)), GroupAction::ResumeCarry(9)));
    assert!(matches!(absent.step(done()), GroupAction::Load));
    let mut unread = ThreadGroup::start(true);
    unread.step(loaded(vec![group_plan(UsagePlanAction::ResumeCarry)], true));
    assert_eq!(
        outcome(unread.step(GroupEvent::Verified(Err("X")))),
        UsageThreadOutcome::OrdinaryError("X")
    );
}

#[test]
fn what_storage_refuses_has_its_code() {
    for (action, code) in [
        (UsagePlanAction::BeginCarry, "USAGE_CARRY_BEGIN_FAILED"),
        (UsagePlanAction::CompleteOnly, "USAGE_COMPLETE_ONLY_FAILED"),
        (UsagePlanAction::RebuildRequired, "USAGE_REBUILD_BEGIN_FAILED"),
    ] {
        let mut group = ThreadGroup::start(true);
        group.step(loaded(vec![group_plan(action)], false));
        assert_eq!(
            outcome(group.step(replied(StorageReply::Failed))),
            UsageThreadOutcome::OrdinaryError(code)
        );
    }
    let mut first = ThreadGroup::start(true);
    assert_eq!(
        outcome(first.step(GroupEvent::LoadFailed)),
        UsageThreadOutcome::OrdinaryError("USAGE_PLAN_RELOAD_FAILED")
    );
    let mut later = ThreadGroup::start(true);
    later.step(loaded(vec![group_plan(UsagePlanAction::CompleteOnly)], false));
    later.step(done());
    assert_eq!(
        outcome(later.step(GroupEvent::LoadFailed)),
        UsageThreadOutcome::FatalReloadError("USAGE_PLAN_RELOAD_FAILED")
    );
}

#[test]
fn a_cancelled_group_ends() {
    let mut group = ThreadGroup::start(true);
    assert_eq!(
        outcome(group.step(GroupEvent::Loaded {
            plans: vec![group_plan(UsagePlanAction::ReadFrom)],
            building: false,
            cancelled: true,
        })),
        UsageThreadOutcome::Completed
    );
    let mut later = ThreadGroup::start(true);
    later.step(loaded(vec![group_plan(UsagePlanAction::CompleteOnly)], false));
    assert_eq!(
        outcome(later.step(GroupEvent::Replied { reply: StorageReply::Done, cancelled: true })),
        UsageThreadOutcome::Completed
    );
}

#[test]
fn commits_are_batched_within_the_budget() {
    let dto = commit();
    let counts = dto_adapter_counts(&dto);
    assert_eq!(counts.bytes, dto.source_bytes_consumed - dto.replayed_prefix_bytes);
    assert_eq!(counts.lines, dto.complete_line_count - dto.replayed_prefix_lines);
    assert!(group_budget_allows(&vec![dto.clone()], &dto));
    assert!(!group_budget_full(&vec![dto.clone()]));
    let mut large = dto.clone();
    large.source_bytes_consumed = MAX_BATCH_BYTES + 1;
    large.replayed_prefix_bytes = 0;
    assert!(!group_budget_allows(&vec![dto.clone()], &large));
    assert!(group_budget_full(&vec![large.clone()]));
    let mut alone = large.clone();
    alone.complete_line_count = 1;
    alone.replayed_prefix_lines = 0;
    assert!(dto_requires_exclusive_batch(&alone));
    assert!(group_budget_allows(&Vec::new(), &alone));
    assert!(!group_budget_allows(&vec![dto.clone()], &alone));
    assert!(!group_budget_allows(&vec![alone], &dto));

    let mut group = ThreadGroup::start(true);
    group.step(loaded(vec![group_plan(UsagePlanAction::ReadFrom)], false));
    assert_eq!(
        outcome(group.step(source_read(large))),
        UsageThreadOutcome::OrdinaryError("USAGE_GROUP_BATCH_BUDGET_INVALID")
    );
}

fn observation(source_file_id: i64) -> SourceObservationResult {
    SourceObservationResult::new(
        source_file_id,
        1,
        false,
        false,
        false,
        Vec::new(),
        BuildDisposition::Unchanged,
    )
    .unwrap()
}

fn work(epoch: SourceUsageEpochState, threads: &[&str]) -> RoundEvent {
    RoundEvent::WorkListLoaded {
        epoch,
        threads: threads.iter().map(|thread| (*thread).to_owned()).collect(),
        cancelled: false,
    }
}

fn thread_done(outcome: UsageThreadOutcome) -> RoundEvent {
    RoundEvent::ThreadDone { outcome, cancelled: false }
}

fn building() -> SourceUsageEpochState {
    SourceUsageEpochState { build_epoch: Some(2), working_epoch: 2, ..epoch() }
}

fn begun(report: &mut ScanReport, discovery_complete: bool, dirty: bool) -> UsageRound {
    let mut round = UsageRound::start(discovery_complete);
    assert!(matches!(
        round.step(RoundEvent::QuarantineLoaded { dirty }, report),
        RoundAction::LoadWorkList { first: true }
    ));
    round
}

#[test]
fn discovery_and_its_results_go_together() {
    let results = vec![observation(5), observation(2), observation(5)];
    assert_eq!(present_sources(3, &results), Ok(vec![2, 5]));
    assert_eq!(present_sources(2, &results), Err("USAGE_DISCOVERY_RESULT_MISMATCH"));
    assert_eq!(present_file(&results, 5), Some(2));
    assert_eq!(present_file(&results, 2), Some(1));
    assert_eq!(present_file(&results, 3), None);
    assert_eq!(select_work_sources(&vec![1, 2, 3], false, &vec![2]), vec![1, 3]);
    assert_eq!(select_work_sources(&vec![1, 2, 3], true, &vec![2]), vec![1, 2, 3]);
}

#[test]
fn a_round_takes_up_each_thread_and_cleans_up() {
    let mut report = ScanReport::new(0);
    let mut round = begun(&mut report, true, false);
    assert!(matches!(
        round.step(work(epoch(), &["a", "b"]), &mut report),
        RoundAction::ProcessThread(0)
    ));
    assert!(matches!(
        round.step(thread_done(UsageThreadOutcome::OrdinaryError("FIRST")), &mut report),
        RoundAction::ProcessThread(1)
    ));
    assert!(matches!(
        round.step(thread_done(UsageThreadOutcome::OrdinaryError("SECOND")), &mut report),
        RoundAction::Cleanup(CLEANUP_ROWS_PER_ROUND)
    ));
    assert!(matches!(
        round.step(RoundEvent::Done, &mut report),
        RoundAction::Finish(Err("FIRST"))
    ));
    assert_eq!(report.failed_sources, 2);
    assert_eq!(report.error_codes, vec!["FIRST", "SECOND"]);
}

#[test]
fn a_build_is_activated_when_all_of_it_is_settled() {
    let mut report = ScanReport::new(0);
    let mut round = begun(&mut report, true, false);
    assert!(matches!(
        round.step(work(building(), &[]), &mut report),
        RoundAction::ResumeRebuild
    ));
    assert!(matches!(
        round.step(
            RoundEvent::Resumed {
                build_epoch: 2,
                members: vec![CompletionStatus::Rebuilt, CompletionStatus::Carried],
            },
            &mut report
        ),
        RoundAction::Activate(2)
    ));
    assert!(matches!(round.step(RoundEvent::Done, &mut report), RoundAction::Cleanup(_)));
    assert!(matches!(round.step(RoundEvent::Done, &mut report), RoundAction::Finish(Ok(()))));

    let mut pending = begun(&mut report, true, false);
    pending.step(work(building(), &[]), &mut report);
    assert!(matches!(
        pending.step(
            RoundEvent::Resumed {
                build_epoch: 2,
                members: vec![CompletionStatus::Rebuilt, CompletionStatus::Pending],
            },
            &mut report
        ),
        RoundAction::Cleanup(_)
    ));
}

#[test]
fn a_ledger_that_cannot_be_used_is_built_after_a_complete_discovery() {
    let none = SourceUsageEpochState { active_epoch: 0, working_epoch: 0, ..epoch() };
    let outdated = SourceUsageEpochState { working_parser_version: 1, ..epoch() };
    let building_outdated = SourceUsageEpochState { working_parser_version: 1, ..building() };
    for (state, dirty, begins) in [
        (none, false, true),
        (outdated, false, true),
        (building_outdated, false, false),
        (epoch(), true, true),
    ] {
        let mut report = ScanReport::new(0);
        let mut round = begun(&mut report, true, dirty);
        let action = round.step(work(state, &["a"]), &mut report);
        if begins {
            assert!(matches!(action, RoundAction::BeginRebuild));
        } else {
            assert!(matches!(action, RoundAction::ReplaceAll));
        }
        assert!(matches!(
            round.step(RoundEvent::Done, &mut report),
            RoundAction::LoadWorkList { first: false }
        ));
        assert_eq!(report.usage_global_replans, 1);
        let mut incomplete = begun(&mut report, false, dirty);
        assert!(matches!(
            incomplete.step(work(state, &["a"]), &mut report),
            RoundAction::Finish(Ok(()))
        ));
    }
}

#[test]
fn a_thread_that_was_replaced_rests_for_the_round() {
    let mut report = ScanReport::new(0);
    let mut round = begun(&mut report, true, false);
    round.step(work(epoch(), &["a", "b"]), &mut report);
    assert!(matches!(
        round.step(
            thread_done(UsageThreadOutcome::GlobalPlanChanged { retry_thread: false }),
            &mut report
        ),
        RoundAction::LoadWorkList { first: false }
    ));
    assert!(matches!(
        round.step(work(building(), &["a", "b"]), &mut report),
        RoundAction::ProcessThread(1)
    ));
    assert!(matches!(
        round.step(
            thread_done(UsageThreadOutcome::SessionDataError("BAD")),
            &mut report
        ),
        RoundAction::Quarantine { thread: 1, code: "BAD" }
    ));
    round.step(RoundEvent::Done, &mut report);
    assert!(matches!(
        round.step(work(building(), &["a", "b"]), &mut report),
        RoundAction::ProcessThread(0)
    ));
}

#[test]
fn a_round_fails_with_the_code_of_its_step() {
    let mut report = ScanReport::new(0);
    let mut quarantine = UsageRound::start(true);
    assert!(matches!(
        quarantine.step(RoundEvent::Failed, &mut report),
        RoundAction::Finish(Err("USAGE_QUARANTINE_STATE_FAILED"))
    ));
    let mut first = begun(&mut report, true, false);
    assert!(matches!(
        first.step(RoundEvent::Failed, &mut report),
        RoundAction::Finish(Err("USAGE_WORKLIST_LOAD_FAILED"))
    ));
    let mut data = begun(&mut report, true, false);
    data.step(work(epoch(), &["a"]), &mut report);
    assert!(matches!(
        data.step(thread_done(UsageThreadOutcome::SessionDataError("BAD")), &mut report),
        RoundAction::Finish(Err("BAD"))
    ));
    let mut fatal = begun(&mut report, true, false);
    fatal.step(work(epoch(), &["a"]), &mut report);
    assert!(matches!(
        fatal.step(thread_done(UsageThreadOutcome::FatalReloadError("LOST")), &mut report),
        RoundAction::Finish(Err("LOST"))
    ));
    let mut resuming = begun(&mut report, true, false);
    resuming.step(work(building(), &[]), &mut report);
    assert!(matches!(
        resuming.step(RoundEvent::Failed, &mut report),
        RoundAction::Finish(Err("USAGE_REBUILD_RESUME_FAILED"))
    ));
}

#[test]
fn a_commit_is_written_with_its_costs() {
    let dto = commit();
    let costs = vec![CostEstimate::Known(5); dto.events.len()];
    let written = source_commit(dto.clone(), &costs).unwrap();
    assert_eq!(written.source_file_id, 9);
    assert_eq!(written.last_complete_offset, dto.last_complete_offset as i64);
    assert_eq!(written.tail_status, UsageTailStatus::NoTail);
    assert_eq!(written.events.len(), dto.events.len());
    for event in &written.events {
        assert_eq!(event.estimated_cost_nanos_usd, Some(5));
    }
    assert_eq!(written.updated_state.owning_thread_id, OWNER);
    assert_eq!(
        written.turns.iter().filter(|turn| turn.status == UsageTurnStatus::Open).count(),
        usize::from(dto.open_turn.is_some())
    );
}

#[test]
fn a_batch_is_of_one_thread() {
    let priced = |dto: UsageSourceCommitDto| {
        let costs = vec![CostEstimate::Unknown; dto.events.len()];
        PricedCommit { dto, costs }
    };
    let batch = build_batch(vec![priced(commit()), priced(commit())]).unwrap();
    assert_eq!(batch.thread_id, OWNER);
    assert_eq!(batch.sources.len(), 2);
    let mut other = commit();
    other.owning_thread_id = "other".to_owned();
    assert!(build_batch(vec![priced(commit()), priced(other)]).is_err());
    assert!(build_batch(Vec::new()).is_err());
    let mut too_far = commit();
    too_far.last_complete_offset = u64::MAX;
    assert!(build_batch(vec![priced(too_far)]).is_err());
}

#[test]
fn carried_prefixes_are_guarded() {
    let mut plan = scan_plan(UsagePlanAction::ResumeCarry);
    assert_eq!(present_carry_prefix(&plan), Ok(None));
    let proof = |offset: i64, hash: Option<Vec<u8>>| UsageBuildProof {
        expected_device_id: 3,
        expected_inode: 4,
        active_committed_offset: offset,
        active_guard_hash: hash,
    };
    plan.build = Some(proof(5, Some(vec![1; 32])));
    let prefix = present_carry_prefix(&plan).unwrap().unwrap();
    assert_eq!(prefix.offset, 5);
    assert_eq!(prefix.expected_guard, Some(GuardHash::from_bytes([1; 32])));
    plan.build = Some(proof(5, Some(vec![1; 31])));
    assert_eq!(present_carry_prefix(&plan), Err("USAGE_CHECKPOINT_GUARD_INVALID"));
    plan.build = Some(proof(5, None));
    assert_eq!(present_carry_prefix(&plan), Ok(None));
    let requirement = |offset: i64| UsageCarryObservationRequirement {
        device_id: 3,
        inode: 4,
        active_committed_offset: offset,
        active_guard_hash: None,
    };
    assert_eq!(required_carry_prefix(&requirement(-1)), Err("USAGE_CARRY_GUARD_INVALID"));
    assert_eq!(required_carry_prefix(&requirement(0)).unwrap().unwrap().offset, 0);
    assert_eq!(required_carry_prefix(&requirement(1)), Ok(None));
    assert_eq!(carried_prefix_matches(None), Ok(true));
    assert_eq!(
        carried_prefix_matches(Some(ChunkReadError::CheckpointGuardMismatch)),
        Ok(false)
    );
    assert_eq!(
        observed_prefix_matches(Some(ChunkReadError::CheckpointOutOfRange)),
        Ok(false)
    );
    assert!(observed_prefix_matches(Some(ChunkReadError::Io)).is_err());
    assert!(guard_from_slice(&[0; 31]).is_err());
    let files = vec![
        StoredIdentity { device_id: 1, inode: 1 },
        StoredIdentity { device_id: 3, inode: 4 },
    ];
    assert_eq!(find_file(&files, StoredIdentity { device_id: 3, inode: 4 }), Some(1));
    assert_eq!(find_file(&files, StoredIdentity { device_id: 3, inode: 5 }), None);
    assert_eq!(
        format!("{:?}", to_pipeline_action(UsagePlanAction::VerifyRawTail)),
        "VerifyRawTail"
    );
}

fn parsed(source_file_id: i64, needs_rebuild: bool, final_continuation: FinalContinuation) -> ParsedSource {
    ParsedSource {
        source_file_id,
        fact: None,
        final_continuation,
        last_processed_offset: 10,
        guard_hash: None,
        needs_rebuild,
        bytes_read: 10,
        guard_bytes_read: 1,
        peak_buffered_body_bytes: 7,
        complete_line_count: 2,
        oversized_complete_line_count: 1,
        has_half_line: true,
        diagnostic_count: 3,
        malformed_record_count: 1,
    }
}

#[test]
fn a_report_counts_and_puts_in_order() {
    let mut report = ScanReport::new(-5);
    assert_eq!(report.started_at_ms, 0);
    report.observe_discovery(3);
    let created = SourceObservationResult::new(
        8,
        1,
        true,
        true,
        false,
        vec![ConsumerKind::Metadata],
        BuildDisposition::CarryResumedPresent,
    )
    .unwrap();
    report.observe_source(&created);
    report.observe_source(&observation(2));
    report.observe_plan(&PipelinePlan {
        plans: vec![FilePlan::Skip { source_file_id: 2 }],
    });
    report.observe_parse(&parsed(8, false, FinalContinuation::OwningLive { owning_thread_id: OWNER.to_owned() }));
    report.observe_usage_commit(
        &UsageCommitMetrics {
            normal_events: 1,
            recovered_events: 2,
            compensation_events: 3,
            anomalies: 4,
        },
        &UsageCommitOutcome { events_inserted: 5, events_deduplicated: 6 },
        u128::MAX,
    );
    report.observe_usage_read(&read_to(9), 2, 4);
    report.observe_usage_worklist_load(7, 1);
    report.observe_usage_detail_plan_load(&vec![8, 2, 8], 1);
    report.error("Z");
    report.error("Z");
    report.finish(50);
    assert_eq!(report.discovered_files, 3);
    assert_eq!(
        (report.added_sources, report.moved_sources, report.rebuilt_sources),
        (1, 1, 1)
    );
    assert_eq!(report.appended_sources, 1);
    assert_eq!((report.skipped_sources, report.successful_sources), (1, 2));
    assert_eq!((report.half_lines, report.malformed_records, report.diagnostics), (1, 1, 3));
    assert_eq!(report.peak_buffered_body_bytes, 9);
    assert_eq!((report.usage_events_inserted, report.usage_events_deduplicated), (5, 6));
    assert_eq!(report.usage_db_write_duration_ms, u64::MAX);
    assert_eq!((report.usage_lines_seen, report.token_records_seen), (1, 2));
    assert_eq!(report.elapsed_ms, 50);
    assert_eq!(report.source_file_ids, vec![2, 8]);
    assert_eq!(report.usage_detail_source_ids, vec![2, 8]);
    assert_eq!(
        report.error_codes,
        vec!["MALFORMED_RECORD", "OVERSIZED_COMPLETE_LINE", "Z"]
    );
}

#[test]
fn the_first_plan_of_a_source_counts() {
    let plan = PipelinePlan {
        plans: vec![
            FilePlan::Skip { source_file_id: 1 },
            FilePlan::Rebuild { source_file_id: 2, observed_size: 5 },
            FilePlan::Skip { source_file_id: 2 },
        ],
    };
    assert_eq!(
        plan.plan_for(2),
        Some(&FilePlan::Rebuild { source_file_id: 2, observed_size: 5 })
    );
    assert_eq!(plan.plan_for(3), None);
    assert!(is_read(&plan.plans[1]));
    assert!(!is_read(&plan.plans[0]));
}

#[test]
fn metadata_is_read_from_a_file() {
    let (items, end) = framed(&[session_meta(), turn_context()]);
    let plan = FilePlan::ReadFrom {
        source_file_id: 9,
        start_offset: 0,
        observed_size: end as i64,
        resume_state: ResumeState::AwaitOwningMeta,
    };
    let mut reading =
        MetadataReading::start(&file(end), &entry(end as i64), &plan, candidates()).unwrap();
    for item in items {
        reading.offer(item);
    }
    let source = reading.finish(Ok(read_to(end)), false).unwrap();
    assert!(source.stable());
    assert!(!source.needs_rebuild);
    assert_eq!(source.last_processed_offset, end);
    let fact = source.fact.unwrap();
    assert_eq!(fact.owning_thread_id, OWNER);
    assert_eq!(fact.cwd.unwrap().value, "/work/app");
    assert_eq!(fact.latest_context_model.as_deref(), Some("gpt-5.6-sol"));
}

#[test]
fn metadata_that_cannot_be_read_says_why() {
    let start = |file: &DiscoveredFile, plan: &FilePlan| {
        MetadataReading::start(file, &entry(10), plan, candidates()).err()
    };
    let rebuild = FilePlan::Rebuild { source_file_id: 9, observed_size: 10 };
    assert_eq!(
        start(&file(10), &FilePlan::Skip { source_file_id: 9 }),
        Some("METADATA_PLAN_NOT_READ")
    );
    assert_eq!(
        start(&file(10), &FilePlan::Rebuild { source_file_id: 9, observed_size: -1 }),
        Some("SOURCE_SIZE_INVALID")
    );
    let mut strange = file(10);
    strange.device_id = -1;
    assert_eq!(start(&strange, &rebuild), Some("SOURCE_IDENTITY_INVALID"));
    assert_eq!(
        start(
            &file(10),
            &FilePlan::ReadFrom {
                source_file_id: 9,
                start_offset: 5,
                observed_size: 10,
                resume_state: ResumeState::AwaitOwningMeta,
            }
        ),
        Some("CHECKPOINT_GUARD_MISSING")
    );
    let reading = MetadataReading::start(&file(10), &entry(10), &rebuild, candidates());
    assert_eq!(
        reading.ok().unwrap().finish(Ok(read_to(10)), true),
        Err("SCAN_CANCELLED")
    );
    let reading = MetadataReading::start(&file(10), &entry(10), &rebuild, candidates());
    assert_eq!(
        reading.ok().unwrap().finish(Err(ChunkReadError::Io), true),
        Err(read_error_code(ChunkReadError::Io))
    );
}

#[test]
fn metadata_is_rebuilt_once_for_each_source() {
    let unstable = |id: i64, rebuild: bool| parsed(id, rebuild, FinalContinuation::Unstable);
    assert_eq!(metadata_rebuilds(&vec![unstable(4, false)]), Ok(None));
    let command = metadata_rebuilds(&vec![unstable(4, true), unstable(2, true), unstable(4, true)])
        .unwrap()
        .unwrap();
    assert_eq!(command.consumer_kind, ConsumerKind::Metadata);
    assert_eq!(command.source_file_ids, vec![2, 4]);
    assert_eq!(
        metadata_rebuilds(&vec![unstable(0, true)]),
        Err("STORAGE_COMMIT_FAILED")
    );
}

#[test]
fn a_scan_fails_with_its_first_hard_error() {
    let mut scan = ScanRound::new(5);
    scan.note_discovery(1, &vec!["DUPLICATE_PHYSICAL_ALIAS"], true);
    assert_eq!(scan.hard_error, None);
    scan.note_state(SourceAvailability::Complete, SourceAvailability::Unavailable);
    scan.note_session_names(unavailable_session_snapshot().status);
    scan.note_discovery(2, &vec!["SYMLINK"], false);
    scan.note_sources(&vec![observation(3)]);
    scan.note_plan(&PipelinePlan {
        plans: vec![FilePlan::Reject { source_file_id: 3, error_code: "REJECTED" }],
    });
    scan.note_parsed(&parsed(3, false, FinalContinuation::Unstable));
    scan.note_unparsed("UNREAD");
    assert_eq!(scan.conclude(9), Err("STATE_SOURCE_UNAVAILABLE"));
    assert_eq!(
        scan.report.error_codes,
        vec![
            "MALFORMED_RECORD",
            "METADATA_CONTINUATION_UNSTABLE",
            "OVERSIZED_COMPLETE_LINE",
            "REJECTED",
            "SESSION_INDEX_UNAVAILABLE",
            "SOURCE_AREA_UNAVAILABLE",
            "STATE_SOURCE_UNAVAILABLE",
            "SYMLINK",
            "UNREAD",
        ]
    );
    assert_eq!(scan.report.discovered_files, 3);
    let mut quiet = ScanRound::new(5);
    quiet.note_session_names(empty_session_snapshot().status);
    assert_eq!(quiet.conclude(9), Ok(()));
    assert_eq!(quiet.report.elapsed_ms, 4);
    assert_eq!(empty_session_snapshot().status, SourceAvailability::Complete);
}

#[test]
fn the_state_index_names_an_owner_by_path() {
    let thread = |id: &str, path: Option<&str>| StateThreadFact {
        thread_id: id.to_owned(),
        rollout_path: path.map(str::to_owned),
        created_at_ms: None,
        updated_at_ms: None,
        archived: None,
        title: None,
        name: None,
        cwd: None,
        metadata_model: None,
        agent_role_hint: None,
        agent_path: None,
    };
    let mut state = StateSnapshot::unavailable(Vec::new());
    state.threads = vec![thread("a", None), thread("b", Some("/x")), thread("c", Some("/y"))];
    let found = owning_candidates(&file(1), &state, &vec![true, false, true]);
    assert_eq!(found.state_rollout.unwrap().thread_id, "c");
    assert_eq!(found.filename.unwrap().thread_id, OWNER);
}

fn state_read(cancelled: bool) -> ScanEvent {
    ScanEvent::StateRead {
        threads: SourceAvailability::Complete,
        spawn_edges: SourceAvailability::Complete,
        cancelled,
    }
}

fn scan_up_to_plan(files: usize, results: Vec<SourceObservationResult>) -> ScanRun {
    let mut run = ScanRun::start(5);
    assert!(matches!(run.step(state_read(false), 6), ScanAction::ReadNames));
    assert!(matches!(
        run.step(
            ScanEvent::NamesRead { status: SourceAvailability::Complete, cancelled: false },
            6
        ),
        ScanAction::Discover
    ));
    assert!(matches!(
        run.step(ScanEvent::Discovered { files, codes: Vec::new(), complete: true }, 6),
        ScanAction::Prepare
    ));
    assert!(matches!(
        run.step(ScanEvent::Done { cancelled: false }, 6),
        ScanAction::CollectProofs
    ));
    assert!(matches!(run.step(ScanEvent::Done { cancelled: false }, 6), ScanAction::Observe));
    assert!(matches!(
        run.step(
            ScanEvent::Observed {
                results,
                scan_state: MetadataScanState { entries: vec![entry(10)] },
                cancelled: false,
            },
            6
        ),
        ScanAction::PlanFiles
    ));
    run
}

fn read_plan() -> PipelinePlan {
    PipelinePlan {
        plans: vec![
            FilePlan::Skip { source_file_id: 1 },
            FilePlan::Rebuild { source_file_id: 2, observed_size: 10 },
            FilePlan::Rebuild { source_file_id: 9, observed_size: 10 },
        ],
    }
}

#[test]
fn a_scan_parses_the_files_that_are_due_and_goes_on_to_usage() {
    let mut run = scan_up_to_plan(4, vec![observation(1), observation(2), observation(9)]);
    assert!(matches!(
        run.step(ScanEvent::Planned { plan: read_plan(), cancelled: false }, 6),
        ScanAction::Parse(2)
    ));
    assert_eq!(run.round.report.body_open_attempts, 1);
    let source = parsed(
        9,
        false,
        FinalContinuation::OwningLive { owning_thread_id: OWNER.to_owned() },
    );
    assert!(matches!(
        run.step(ScanEvent::Parsed { source: Ok(source), cancelled: false }, 6),
        ScanAction::LoadThreads
    ));
    assert!(matches!(run.step(ScanEvent::Done { cancelled: false }, 6), ScanAction::Resolve));
    assert!(matches!(
        run.step(ScanEvent::Done { cancelled: false }, 6),
        ScanAction::CommitMetadata
    ));
    assert!(matches!(run.step(ScanEvent::Done { cancelled: false }, 6), ScanAction::RunUsage));
    assert!(matches!(
        run.step(ScanEvent::UsageDone(Err("USAGE")), 9),
        ScanAction::Finish(Err("USAGE"))
    ));
    assert_eq!(run.round.report.elapsed_ms, 4);
    assert_eq!(run.parsed.len(), 1);
}

#[test]
fn a_cancelled_scan_ends_without_an_error() {
    let mut early = ScanRun::start(5);
    assert!(matches!(early.step(state_read(true), 8), ScanAction::Finish(Ok(()))));
    assert_eq!(early.round.report.elapsed_ms, 3);
    let mut late = scan_up_to_plan(1, vec![observation(9)]);
    assert!(matches!(
        late.step(ScanEvent::Planned { plan: read_plan(), cancelled: false }, 6),
        ScanAction::Parse(0)
    ));
    let source = parsed(9, true, FinalContinuation::Unstable);
    match late.step(ScanEvent::Parsed { source: Ok(source), cancelled: true }, 6) {
        ScanAction::RequestRebuild(command) => assert_eq!(command.source_file_ids, vec![9]),
        _ => panic!("expected a request"),
    }
    assert!(matches!(
        late.step(ScanEvent::Done { cancelled: false }, 6),
        ScanAction::Finish(Ok(()))
    ));
    assert_eq!(late.round.hard_error, Some("METADATA_CONTINUATION_UNSTABLE"));
}

#[test]
fn a_scan_that_breaks_off_says_where() {
    let mut proofs = ScanRun::start(5);
    proofs.step(state_read(false), 6);
    proofs.step(ScanEvent::NamesRead { status: SourceAvailability::Complete, cancelled: false }, 6);
    proofs.step(ScanEvent::Discovered { files: 0, codes: Vec::new(), complete: true }, 6);
    proofs.step(ScanEvent::Done { cancelled: false }, 6);
    assert!(matches!(
        proofs.step(ScanEvent::ProofFailed("USAGE_CARRY_PROOF_LOAD_FAILED"), 6),
        ScanAction::Finish(Err("USAGE_CARRY_PROOF_LOAD_FAILED"))
    ));
    let mut loading = scan_up_to_plan(0, Vec::new());
    assert!(matches!(
        loading.step(ScanEvent::Planned { plan: read_plan(), cancelled: false }, 6),
        ScanAction::LoadThreads
    ));
    assert!(matches!(
        loading.step(ScanEvent::Failed, 6),
        ScanAction::Finish(Err("METADATA_STATE_LOAD_FAILED"))
    ));
    let mut unread = scan_up_to_plan(1, vec![observation(9)]);
    unread.step(ScanEvent::Planned { plan: read_plan(), cancelled: false }, 6);
    unread.step(ScanEvent::Parsed { source: Err("SOURCE_READ_FAILED"), cancelled: false }, 6);
    assert_eq!(unread.round.report.failed_sources, 1);
    assert_eq!(unread.round.hard_error, Some("SOURCE_READ_FAILED"));
}
