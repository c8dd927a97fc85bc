//! Counts of one scan round.
//!
//! A report holds counts, times, source numbers and fixed codes alone, never what a file
//! holds.
use vstd::prelude::*;

use crate::domain::{BuildDisposition, ConsumerKind, SourceObservationResult};
use crate::order::{sort_codes, sort_ids};
#[allow(unused_imports)]
use crate::order::{by_text, code_views, sorted_ids, stably_sorted};
use crate::rollout::{FinalContinuation, ResumeState, RolloutThreadFact};
use crate::text::same_text;
use crate::token_usage::EventKind;
use super::chunks::ChunkReadResult;
use super::usage_pipeline::UsageSourceCommitDto;
#[allow(unused_imports)]
use super::usage_pipeline::{saturated, CommitFacts};
#[allow(unused_imports)]
use super::usage_processor::EventFacts;

verus! {

/// How many events and anomalies a group of commits brings.
#[derive(Clone, Copy, Debug, PartialEq, Eq, Structural)]
pub struct UsageCommitMetrics {
    pub normal_events: u64,
    pub recovered_events: u64,
    pub compensation_events: u64,
    pub anomalies: u64,
}

impl Default for UsageCommitMetrics {
    fn default() -> (r: Self)
        ensures
            r == no_metrics(),
    {
        UsageCommitMetrics {
            normal_events: 0,
            recovered_events: 0,
            compensation_events: 0,
            anomalies: 0,
        }
    }
}

pub open spec fn no_metrics() -> UsageCommitMetrics {
    UsageCommitMetrics {
        normal_events: 0,
        recovered_events: 0,
        compensation_events: 0,
        anomalies: 0,
    }
}

/// How many events are of a kind.
pub open spec fn count_kind(events: Seq<EventFacts>, kind: EventKind) -> nat
    decreases events.len(),
{
    if events.len() == 0 {
        0
    } else {
        count_kind(events.drop_last(), kind) + if events.last().kind == kind {
            1nat
        } else {
            0nat
        }
    }
}

pub proof fn lemma_count_kind(events: Seq<EventFacts>, kind: EventKind)
    ensures
        count_kind(events, kind) <= events.len(),
    decreases events.len(),
{
    if events.len() > 0 {
        lemma_count_kind(events.drop_last(), kind);
    }
}

pub open spec fn metrics_of(dto: CommitFacts) -> UsageCommitMetrics {
    UsageCommitMetrics {
        normal_events: count_kind(dto.events, EventKind::Normal) as u64,
        recovered_events: count_kind(dto.events, EventKind::Recovered) as u64,
        compensation_events: count_kind(dto.events, EventKind::TurnCompensation) as u64,
        anomalies: dto.anomalies.len() as u64,
    }
}

impl UsageCommitMetrics {
    pub open spec fn plus(self, other: UsageCommitMetrics) -> UsageCommitMetrics {
        UsageCommitMetrics {
            normal_events: saturated(self.normal_events + other.normal_events),
            recovered_events: saturated(self.recovered_events + other.recovered_events),
            compensation_events: saturated(self.compensation_events + other.compensation_events),
            anomalies: saturated(self.anomalies + other.anomalies),
        }
    }

    pub fn add(&mut self, other: &Self)
        ensures
            *final(self) == old(self).plus(*other),
    {
        self.normal_events = self.normal_events.saturating_add(other.normal_events);
        self.recovered_events = self.recovered_events.saturating_add(other.recovered_events);
        self.compensation_events = self.compensation_events.saturating_add(
            other.compensation_events,
        );
        self.anomalies = self.anomalies.saturating_add(other.anomalies);
    }

    pub fn from_dto(dto: &UsageSourceCommitDto) -> (r: Self)
        ensures
            r == metrics_of(dto.deep_view()),
    {
        let ghost events = dto.deep_view().events;
        let mut value: UsageCommitMetrics = UsageCommitMetrics {
            normal_events: 0,
            recovered_events: 0,
            compensation_events: 0,
            anomalies: dto.anomalies.len() as u64,
        };
        let mut i: usize = 0;
        assert(events.take(0) =~= Seq::<EventFacts>::empty());
        while i < dto.events.len()
            invariant
                i <= dto.events.len(),
                events == dto.deep_view().events,
                events.len() == dto.events.len(),
                value.anomalies == dto.anomalies.len() as u64,
                value.normal_events == count_kind(events.take(i as int), EventKind::Normal),
                value.recovered_events == count_kind(events.take(i as int), EventKind::Recovered),
                value.compensation_events == count_kind(
                    events.take(i as int),
                    EventKind::TurnCompensation,
                ),
            decreases dto.events.len() - i,
        {
            proof {
                lemma_count_kind(events.take(i as int), EventKind::Normal);
                lemma_count_kind(events.take(i as int), EventKind::Recovered);
                lemma_count_kind(events.take(i as int), EventKind::TurnCompensation);
                assert(events.take(i + 1).drop_last() =~= events.take(i as int));
                assert(events.take(i + 1).last() == events[i as int]);
                assert(events[i as int].kind == dto.events@[i as int].kind);
            }
            match dto.events[i].kind {
                EventKind::Normal => {
                    value.normal_events = value.normal_events + 1;
                },
                EventKind::Recovered => {
                    value.recovered_events = value.recovered_events + 1;
                },
                EventKind::TurnCompensation => {
                    value.compensation_events = value.compensation_events + 1;
                },
            }
            i = i + 1;
        }
        assert(events.take(i as int) =~= events);
        value
    }
}

/// What storage made of a commit.
#[derive(Clone, Copy, Debug, PartialEq, Eq, Structural)]
pub struct UsageCommitOutcome {
    pub events_inserted: usize,
    pub events_deduplicated: usize,
}

/// What is to be done with a file.
#[derive(Clone, Debug, PartialEq, Eq)]
pub enum FilePlan {
    ReadFrom {
        source_file_id: i64,
        start_offset: u64,
        observed_size: i64,
        resume_state: ResumeState,
    },
    Rebuild { source_file_id: i64, observed_size: i64 },
    Skip { source_file_id: i64 },
    Reject { source_file_id: i64, error_code: &'static str },
}

impl FilePlan {
    pub open spec fn source(self) -> i64 {
        match self {
            FilePlan::ReadFrom { source_file_id, .. } => source_file_id,
            FilePlan::Rebuild { source_file_id, .. } => source_file_id,
            FilePlan::Skip { source_file_id } => source_file_id,
            FilePlan::Reject { source_file_id, .. } => source_file_id,
        }
    }

    pub fn source_file_id(&self) -> (r: i64)
        ensures
            r == self.source(),
    {
        match self {
            FilePlan::ReadFrom { source_file_id, .. } => *source_file_id,
            FilePlan::Rebuild { source_file_id, .. } => *source_file_id,
            FilePlan::Skip { source_file_id } => *source_file_id,
            FilePlan::Reject { source_file_id, .. } => *source_file_id,
        }
    }
}

/// What is to be done with each file.
#[derive(Clone, Debug, PartialEq, Eq)]
pub struct PipelinePlan {
    pub plans: Vec<FilePlan>,
}

/// The plan of a source: the first one that names it.
pub open spec fn plan_at(plans: Seq<FilePlan>, source_file_id: i64) -> Option<int>
    decreases plans.len(),
{
    if plans.len() == 0 {
        None
    } else if plans.first().source() == source_file_id {
        Some(0)
    } else {
        match plan_at(plans.drop_first(), source_file_id) {
            Some(i) => Some(i + 1),
            None => None,
        }
    }
}

impl PipelinePlan {
    pub fn plan_for(&self, source_file_id: i64) -> (r: Option<&FilePlan>)
        ensures
            match r {
                Some(plan) => plan_at(self.plans@, source_file_id) matches Some(i) && 0 <= i
                    < self.plans@.len() && *plan == self.plans@[i],
                None => plan_at(self.plans@, source_file_id) is None,
            },
    {
        let mut i: usize = 0;
        assert(self.plans@.skip(0) =~= self.plans@);
        while i < self.plans.len()
            invariant
                i <= self.plans.len(),
                plan_at(self.plans@, source_file_id) == match plan_at(
                    self.plans@.skip(i as int),
                    source_file_id,
                ) {
                    Some(k) => Some(k + i),
                    None => None,
                },
            decreases self.plans.len() - i,
        {
            assert(self.plans@.skip(i as int).first() == self.plans@[i as int]);
            assert(self.plans@.skip(i as int).drop_first() =~= self.plans@.skip(i + 1));
            if self.plans[i].source_file_id() == source_file_id {
                return Some(&self.plans[i]);
            }
            i = i + 1;
        }
        None
    }
}

/// How many of the plans leave a file alone.
pub open spec fn skips(plans: Seq<FilePlan>) -> nat
    decreases plans.len(),
{
    if plans.len() == 0 {
        0
    } else {
        skips(plans.drop_last()) + if plans.last() is Skip {
            1nat
        } else {
            0nat
        }
    }
}

/// What parsing a file for metadata came to.
#[derive(Clone, Debug, PartialEq, Eq)]
pub struct ParsedSource {
    pub source_file_id: i64,
    pub fact: Option<RolloutThreadFact>,
    pub final_continuation: FinalContinuation,
    pub last_processed_offset: u64,
    pub guard_hash: Option<Vec<u8>>,
    pub needs_rebuild: bool,
    pub bytes_read: u64,
    pub guard_bytes_read: u64,
    pub peak_buffered_body_bytes: u64,
    pub complete_line_count: u64,
    pub oversized_complete_line_count: u64,
    pub has_half_line: bool,
    pub diagnostic_count: u64,
    pub malformed_record_count: u64,
}

impl ParsedSource {
    /// The next chunk may take up where this one ended.
    pub open spec fn is_stable(self) -> bool {
        !(self.final_continuation is Unstable)
    }

    pub fn stable(&self) -> (r: bool)
        ensures
            r == self.is_stable(),
    {
        match &self.final_continuation {
            FinalContinuation::Unstable => false,
            _ => true,
        }
    }
}

/// The counts of one scan round.
#[derive(Clone, Debug, PartialEq, Eq)]
pub struct ScanReport {
    pub started_at_ms: i64,
    pub elapsed_ms: i64,
    pub discovered_files: u64,
    pub added_sources: u64,
    pub moved_sources: u64,
    pub appended_sources: u64,
    pub rebuilt_sources: u64,
    pub skipped_sources: u64,
    pub successful_sources: u64,
    pub failed_sources: u64,
    pub bytes_read: u64,
    pub guard_bytes_read: u64,
    pub body_open_attempts: u64,
    pub peak_buffered_body_bytes: u64,
    pub complete_lines: u64,
    pub oversized_complete_lines: u64,
    pub half_lines: u64,
    pub malformed_records: u64,
    pub diagnostics: u64,
    pub usage_lines_seen: u64,
    pub token_records_seen: u64,
    pub usage_events_inserted: u64,
    pub usage_events_deduplicated: u64,
    pub normal_events: u64,
    pub recovered_events: u64,
    pub compensation_events: u64,
    pub anomalies_created: u64,
    pub usage_bytes_read: u64,
    pub usage_parse_duration_ms: u64,
    pub usage_worklist_loads: u64,
    pub usage_worklist_candidates: u64,
    pub usage_detail_plan_loads: u64,
    pub usage_detail_sources_loaded: u64,
    pub usage_global_replans: u64,
    pub usage_worklist_duration_ms: u64,
    pub usage_detail_plan_duration_ms: u64,
    pub usage_detail_source_ids: Vec<i64>,
    pub usage_db_write_duration_ms: u64,
    pub source_file_ids: Vec<i64>,
    pub error_codes: Vec<&'static str>,
}

#[verifier::ext_equal]
pub struct ReportFacts {
    pub started_at_ms: i64,
    pub elapsed_ms: i64,
    pub discovered_files: u64,
    pub added_sources: u64,
    pub moved_sources: u64,
    pub appended_sources: u64,
    pub rebuilt_sources: u64,
    pub skipped_sources: u64,
    pub successful_sources: u64,
    pub failed_sources: u64,
    pub bytes_read: u64,
    pub guard_bytes_read: u64,
    pub body_open_attempts: u64,
    pub peak_buffered_body_bytes: u64,
    pub complete_lines: u64,
    pub oversized_complete_lines: u64,
    pub half_lines: u64,
    pub malformed_records: u64,
    pub diagnostics: u64,
    pub usage_lines_seen: u64,
    pub token_records_seen: u64,
    pub usage_events_inserted: u64,
    pub usage_events_deduplicated: u64,
    pub normal_events: u64,
    pub recovered_events: u64,
    pub compensation_events: u64,
    pub anomalies_created: u64,
    pub usage_bytes_read: u64,
    pub usage_parse_duration_ms: u64,
    pub usage_worklist_loads: u64,
    pub usage_worklist_candidates: u64,
    pub usage_detail_plan_loads: u64,
    pub usage_detail_sources_loaded: u64,
    pub usage_global_replans: u64,
    pub usage_worklist_duration_ms: u64,
    pub usage_detail_plan_duration_ms: u64,
    pub usage_detail_source_ids: Seq<i64>,
    pub usage_db_write_duration_ms: u64,
    pub source_file_ids: Seq<i64>,
    pub error_codes: Seq<Seq<char>>,
}

impl DeepView for ScanReport {
    type V = ReportFacts;

    open spec fn deep_view(&self) -> ReportFacts {
        ReportFacts {
            started_at_ms: self.started_at_ms,
            elapsed_ms: self.elapsed_ms,
            discovered_files: self.discovered_files,
            added_sources: self.added_sources,
            moved_sources: self.moved_sources,
            appended_sources: self.appended_sources,
            rebuilt_sources: self.rebuilt_sources,
            skipped_sources: self.skipped_sources,
            successful_sources: self.successful_sources,
            failed_sources: self.failed_sources,
            bytes_read: self.bytes_read,
            guard_bytes_read: self.guard_bytes_read,
            body_open_attempts: self.body_open_attempts,
            peak_buffered_body_bytes: self.peak_buffered_body_bytes,
            complete_lines: self.complete_lines,
            oversized_complete_lines: self.oversized_complete_lines,
            half_lines: self.half_lines,
            malformed_records: self.malformed_records,
            diagnostics: self.diagnostics,
            usage_lines_seen: self.usage_lines_seen,
            token_records_seen: self.token_records_seen,
            usage_events_inserted: self.usage_events_inserted,
            usage_events_deduplicated: self.usage_events_deduplicated,
            normal_events: self.normal_events,
            recovered_events: self.recovered_events,
            compensation_events: self.compensation_events,
            anomalies_created: self.anomalies_created,
            usage_bytes_read: self.usage_bytes_read,
            usage_parse_duration_ms: self.usage_parse_duration_ms,
            usage_worklist_loads: self.usage_worklist_loads,
            usage_worklist_candidates: self.usage_worklist_candidates,
            usage_detail_plan_loads: self.usage_detail_plan_loads,
            usage_detail_sources_loaded: self.usage_detail_sources_loaded,
            usage_global_replans: self.usage_global_replans,
            usage_worklist_duration_ms: self.usage_worklist_duration_ms,
            usage_detail_plan_duration_ms: self.usage_detail_plan_duration_ms,
            usage_detail_source_ids: self.usage_detail_source_ids@,
            usage_db_write_duration_ms: self.usage_db_write_duration_ms,
            source_file_ids: self.source_file_ids@,
            error_codes: code_views(self.error_codes@),
        }
    }
}

pub open spec fn blank_report() -> ReportFacts {
    ReportFacts {
        started_at_ms: 0,
        elapsed_ms: 0,
        discovered_files: 0,
        added_sources: 0,
        moved_sources: 0,
        appended_sources: 0,
        rebuilt_sources: 0,
        skipped_sources: 0,
        successful_sources: 0,
        failed_sources: 0,
        bytes_read: 0,
        guard_bytes_read: 0,
        body_open_attempts: 0,
        peak_buffered_body_bytes: 0,
        complete_lines: 0,
        oversized_complete_lines: 0,
        half_lines: 0,
        malformed_records: 0,
        diagnostics: 0,
        usage_lines_seen: 0,
        token_records_seen: 0,
        usage_events_inserted: 0,
        usage_events_deduplicated: 0,
        normal_events: 0,
        recovered_events: 0,
        compensation_events: 0,
        anomalies_created: 0,
        usage_bytes_read: 0,
        usage_parse_duration_ms: 0,
        usage_worklist_loads: 0,
        usage_worklist_candidates: 0,
        usage_detail_plan_loads: 0,
        usage_detail_sources_loaded: 0,
        usage_global_replans: 0,
        usage_worklist_duration_ms: 0,
        usage_detail_plan_duration_ms: 0,
        usage_detail_source_ids: Seq::empty(),
        usage_db_write_duration_ms: 0,
        source_file_ids: Seq::empty(),
        error_codes: Seq::empty(),
    }
}

impl Default for ScanReport {
    fn default() -> (r: Self)
        ensures
            r.deep_view() == blank_report(),
    {
        ScanReport {
            started_at_ms: 0,
            elapsed_ms: 0,
            discovered_files: 0,
            added_sources: 0,
            moved_sources: 0,
            appended_sources: 0,
            rebuilt_sources: 0,
            skipped_sources: 0,
            successful_sources: 0,
            failed_sources: 0,
            bytes_read: 0,
            guard_bytes_read: 0,
            body_open_attempts: 0,
            peak_buffered_body_bytes: 0,
            complete_lines: 0,
            oversized_complete_lines: 0,
            half_lines: 0,
            malformed_records: 0,
            diagnostics: 0,
            usage_lines_seen: 0,
            token_records_seen: 0,
            usage_events_inserted: 0,
            usage_events_deduplicated: 0,
            normal_events: 0,
            recovered_events: 0,
            compensation_events: 0,
            anomalies_created: 0,
            usage_bytes_read: 0,
            usage_parse_duration_ms: 0,
            usage_worklist_loads: 0,
            usage_worklist_candidates: 0,
            usage_detail_plan_loads: 0,
            usage_detail_sources_loaded: 0,
            usage_global_replans: 0,
            usage_worklist_duration_ms: 0,
            usage_detail_plan_duration_ms: 0,
            usage_detail_source_ids: Vec::new(),
            usage_db_write_duration_ms: 0,
            source_file_ids: Vec::new(),
            error_codes: Vec::new(),
        }
    }
}

/// One more, up to the largest number.
pub open spec fn one_more(value: u64) -> u64 {
    saturated(value + 1)
}

/// One more where the condition holds.
pub open spec fn one_if(value: u64, condition: bool) -> u64 {
    if condition {
        one_more(value)
    } else {
        value
    }
}

pub open spec fn larger(a: u64, b: u64) -> u64 {
    if a >= b {
        a
    } else {
        b
    }
}

/// Milliseconds as a count.
pub open spec fn clamped(millis: u128) -> u64 {
    if millis > u64::MAX {
        u64::MAX
    } else {
        millis as u64
    }
}

fn clamp(millis: u128) -> (r: u64)
    ensures
        r == clamped(millis),
{
    if millis > u64::MAX as u128 {
        u64::MAX
    } else {
        millis as u64
    }
}

fn max_of(a: u64, b: u64) -> (r: u64)
    ensures
        r == larger(a, b),
{
    if a >= b {
        a
    } else {
        b
    }
}

pub open spec fn not_negative(value: i64) -> i64 {
    if value < 0 {
        0
    } else {
        value
    }
}

pub open spec fn names_metadata(consumers: Seq<ConsumerKind>) -> bool {
    exists|i: int| 0 <= i < consumers.len() && (#[trigger] consumers[i]) is Metadata
}

fn holds_metadata(consumers: &Vec<ConsumerKind>) -> (r: bool)
    ensures
        r == names_metadata(consumers@),
{
    let mut i: usize = 0;
    while i < consumers.len()
        invariant
            i <= consumers.len(),
            forall|j: int| 0 <= j < i ==> !((#[trigger] consumers@[j]) is Metadata),
        decreases consumers.len() - i,
    {
        if consumers[i] == ConsumerKind::Metadata {
            assert(consumers@[i as int] is Metadata);
            return true;
        }
        i = i + 1;
    }
    false
}

impl ReportFacts {
    /// A code is noted once.
    pub open spec fn with_error(self, code: Seq<char>) -> ReportFacts {
        if self.error_codes.contains(code) {
            self
        } else {
            ReportFacts { error_codes: self.error_codes.push(code), ..self }
        }
    }

    pub open spec fn with_error_if(self, condition: bool, code: Seq<char>) -> ReportFacts {
        if condition {
            self.with_error(code)
        } else {
            self
        }
    }

    pub open spec fn with_failed_source(self) -> ReportFacts {
        ReportFacts { failed_sources: one_more(self.failed_sources), ..self }
    }

    pub open spec fn with_replan(self) -> ReportFacts {
        ReportFacts { usage_global_replans: one_more(self.usage_global_replans), ..self }
    }

    pub open spec fn with_source(self, result: SourceObservationResult) -> ReportFacts {
        ReportFacts {
            source_file_ids: self.source_file_ids.push(result.source_file_id),
            added_sources: one_if(self.added_sources, result.created),
            moved_sources: one_if(self.moved_sources, result.moved),
            rebuilt_sources: one_if(
                self.rebuilt_sources,
                result.replaced || names_metadata(result.rebuild_consumers@),
            ),
            appended_sources: one_if(
                self.appended_sources,
                result.build_disposition is CarryResumedPresent,
            ),
            ..self
        }
    }

    /// A file that is left alone counts as a success.
    pub open spec fn with_plans(self, plans: Seq<FilePlan>) -> ReportFacts {
        ReportFacts {
            skipped_sources: saturated(self.skipped_sources + skips(plans)),
            successful_sources: saturated(self.successful_sources + skips(plans)),
            ..self
        }
    }

    pub open spec fn with_parsed_counts(self, parsed: ParsedSource) -> ReportFacts {
        ReportFacts {
            bytes_read: saturated(self.bytes_read + parsed.bytes_read),
            guard_bytes_read: saturated(self.guard_bytes_read + parsed.guard_bytes_read),
            peak_buffered_body_bytes: larger(
                self.peak_buffered_body_bytes,
                parsed.peak_buffered_body_bytes,
            ),
            complete_lines: saturated(self.complete_lines + parsed.complete_line_count),
            oversized_complete_lines: saturated(
                self.oversized_complete_lines + parsed.oversized_complete_line_count,
            ),
            half_lines: one_if(self.half_lines, parsed.has_half_line),
            malformed_records: saturated(self.malformed_records + parsed.malformed_record_count),
            diagnostics: saturated(self.diagnostics + parsed.diagnostic_count),
            successful_sources: one_if(self.successful_sources, parsed.is_stable()),
            ..self
        }
    }

    pub open spec fn with_parsed(self, parsed: ParsedSource) -> ReportFacts {
        self.with_parsed_counts(parsed).with_error_if(
            parsed.oversized_complete_line_count > 0,
            "OVERSIZED_COMPLETE_LINE"@,
        ).with_error_if(parsed.malformed_record_count > 0, "MALFORMED_RECORD"@)
    }

    pub open spec fn with_usage_read(
        self,
        read: ChunkReadResult,
        token_records_seen: u64,
        elapsed_ms: u128,
    ) -> ReportFacts {
        ReportFacts {
            usage_lines_seen: saturated(
                self.usage_lines_seen + read.complete_line_count
                    + read.oversized_complete_line_count,
            ),
            token_records_seen: saturated(self.token_records_seen + token_records_seen),
            usage_bytes_read: saturated(self.usage_bytes_read + read.bytes_read),
            usage_parse_duration_ms: saturated(
                self.usage_parse_duration_ms + clamped(elapsed_ms),
            ),
            peak_buffered_body_bytes: larger(
                self.peak_buffered_body_bytes,
                read.peak_buffered_body_bytes,
            ),
            ..self
        }
    }

    pub open spec fn with_worklist(self, candidates: usize, elapsed_ms: u128) -> ReportFacts {
        ReportFacts {
            usage_worklist_loads: one_more(self.usage_worklist_loads),
            usage_worklist_candidates: saturated(self.usage_worklist_candidates + candidates),
            usage_worklist_duration_ms: saturated(
                self.usage_worklist_duration_ms + clamped(elapsed_ms),
            ),
            ..self
        }
    }

    pub open spec fn with_detail_plans(self, source_ids: Seq<i64>, elapsed_ms: u128) -> ReportFacts {
        ReportFacts {
            usage_detail_plan_loads: one_more(self.usage_detail_plan_loads),
            usage_detail_sources_loaded: saturated(
                self.usage_detail_sources_loaded + source_ids.len(),
            ),
            usage_detail_plan_duration_ms: saturated(
                self.usage_detail_plan_duration_ms + clamped(elapsed_ms),
            ),
            usage_detail_source_ids: self.usage_detail_source_ids + source_ids,
            ..self
        }
    }

    pub open spec fn with_commit(
        self,
        metrics: UsageCommitMetrics,
        outcome: UsageCommitOutcome,
        elapsed_ms: u128,
    ) -> ReportFacts {
        ReportFacts {
            usage_events_inserted: saturated(self.usage_events_inserted + outcome.events_inserted),
            usage_events_deduplicated: saturated(
                self.usage_events_deduplicated + outcome.events_deduplicated,
            ),
            normal_events: saturated(self.normal_events + metrics.normal_events),
            recovered_events: saturated(self.recovered_events + metrics.recovered_events),
            compensation_events: saturated(self.compensation_events + metrics.compensation_events),
            anomalies_created: saturated(self.anomalies_created + metrics.anomalies),
            usage_db_write_duration_ms: saturated(
                self.usage_db_write_duration_ms + clamped(elapsed_ms),
            ),
            ..self
        }
    }

    /// What the finished report differs in: the time it took, and the order of its lists.
    pub open spec fn finished(self, finished_at_ms: i64, after: ReportFacts) -> bool {
        &&& after == (ReportFacts {
            elapsed_ms: after.elapsed_ms,
            source_file_ids: after.source_file_ids,
            usage_detail_source_ids: after.usage_detail_source_ids,
            error_codes: stably_sorted(self.error_codes, by_text()),
            ..self
        })
        &&& after.elapsed_ms == if not_negative(finished_at_ms) - self.started_at_ms > i64::MAX {
            i64::MAX as int
        } else {
            not_negative(finished_at_ms) - self.started_at_ms
        }
        &&& sorted_ids(self.source_file_ids, after.source_file_ids)
        &&& sorted_ids(self.usage_detail_source_ids, after.usage_detail_source_ids)
    }
}

impl ScanReport {
    pub fn new(started_at_ms: i64) -> (r: Self)
        ensures
            r.deep_view() == (ReportFacts {
                started_at_ms: not_negative(started_at_ms),
                ..blank_report()
            }),
    {
        let mut report: ScanReport = ScanReport::default();
        report.started_at_ms = if started_at_ms < 0 {
            0
        } else {
            started_at_ms
        };
        report
    }

    pub fn observe_discovery(&mut self, count: usize)
        ensures
            final(self).deep_view() == (ReportFacts {
                discovered_files: saturated(old(self).discovered_files + count),
                ..old(self).deep_view()
            }),
    {
        self.discovered_files = self.discovered_files.saturating_add(count as u64);
    }

    pub fn observe_source(&mut self, result: &SourceObservationResult)
        ensures
            final(self).deep_view() == old(self).deep_view().with_source(*result),
    {
        self.source_file_ids.push(result.source_file_id);
        if result.created {
            self.added_sources = self.added_sources.saturating_add(1);
        }
        if result.moved {
            self.moved_sources = self.moved_sources.saturating_add(1);
        }
        if result.replaced || holds_metadata(&result.rebuild_consumers) {
            self.rebuilt_sources = self.rebuilt_sources.saturating_add(1);
        }
        if result.build_disposition == BuildDisposition::CarryResumedPresent {
            self.appended_sources = self.appended_sources.saturating_add(1);
        }
    }

    pub fn observe_plan(&mut self, plan: &PipelinePlan)
        ensures
            final(self).deep_view() == old(self).deep_view().with_plans(plan.plans@),
    {
        let mut i: usize = 0;
        assert(plan.plans@.take(0) =~= Seq::<FilePlan>::empty());
        while i < plan.plans.len()
            invariant
                i <= plan.plans.len(),
                self.deep_view() == old(self).deep_view().with_plans(plan.plans@.take(i as int)),
            decreases plan.plans.len() - i,
        {
            assert(plan.plans@.take(i + 1).drop_last() =~= plan.plans@.take(i as int));
            assert(plan.plans@.take(i + 1).last() == plan.plans@[i as int]);
            if let FilePlan::Skip { .. } = &plan.plans[i] {
                self.skipped_sources = self.skipped_sources.saturating_add(1);
                self.successful_sources = self.successful_sources.saturating_add(1);
            }
            i = i + 1;
        }
        assert(plan.plans@.take(i as int) =~= plan.plans@);
    }

    pub fn observe_parse(&mut self, parsed: &ParsedSource)
        ensures
            final(self).deep_view() == old(self).deep_view().with_parsed(*parsed),
    {
        self.bytes_read = self.bytes_read.saturating_add(parsed.bytes_read);
        self.guard_bytes_read = self.guard_bytes_read.saturating_add(parsed.guard_bytes_read);
        self.peak_buffered_body_bytes = max_of(
            self.peak_buffered_body_bytes,
            parsed.peak_buffered_body_bytes,
        );
        self.complete_lines = self.complete_lines.saturating_add(parsed.complete_line_count);
        self.oversized_complete_lines = self.oversized_complete_lines.saturating_add(
            parsed.oversized_complete_line_count,
        );
        if parsed.has_half_line {
            self.half_lines = self.half_lines.saturating_add(1);
        }
        self.malformed_records = self.malformed_records.saturating_add(
            parsed.malformed_record_count,
        );
        self.diagnostics = self.diagnostics.saturating_add(parsed.diagnostic_count);
        if parsed.stable() {
            self.successful_sources = self.successful_sources.saturating_add(1);
        }
        assert(self.deep_view() == old(self).deep_view().with_parsed_counts(*parsed));
        if parsed.oversized_complete_line_count > 0 {
            self.error("OVERSIZED_COMPLETE_LINE");
        }
        if parsed.malformed_record_count > 0 {
            self.error("MALFORMED_RECORD");
        }
    }

    pub fn observe_usage_read(
        &mut self,
        read: &ChunkReadResult,
        token_records_seen: u64,
        elapsed_ms: u128,
    )
        ensures
            final(self).deep_view() == old(self).deep_view().with_usage_read(
                *read,
                token_records_seen,
                elapsed_ms,
            ),
    {
        self.usage_lines_seen = self.usage_lines_seen.saturating_add(
            read.complete_line_count,
        ).saturating_add(read.oversized_complete_line_count);
        self.token_records_seen = self.token_records_seen.saturating_add(token_records_seen);
        self.usage_bytes_read = self.usage_bytes_read.saturating_add(read.bytes_read);
        self.usage_parse_duration_ms = self.usage_parse_duration_ms.saturating_add(
            clamp(elapsed_ms),
        );
        self.peak_buffered_body_bytes = max_of(
            self.peak_buffered_body_bytes,
            read.peak_buffered_body_bytes,
        );
    }

    pub fn observe_usage_worklist_load(&mut self, candidates: usize, elapsed_ms: u128)
        ensures
            final(self).deep_view() == old(self).deep_view().with_worklist(candidates, elapsed_ms),
    {
        self.usage_worklist_loads = self.usage_worklist_loads.saturating_add(1);
        self.usage_worklist_candidates = self.usage_worklist_candidates.saturating_add(
            candidates as u64,
        );
        self.usage_worklist_duration_ms = self.usage_worklist_duration_ms.saturating_add(
            clamp(elapsed_ms),
        );
    }

    pub fn observe_usage_detail_plan_load(&mut self, source_ids: &Vec<i64>, elapsed_ms: u128)
        ensures
            final(self).deep_view() == old(self).deep_view().with_detail_plans(
                source_ids@,
                elapsed_ms,
            ),
    {
        self.usage_detail_plan_loads = self.usage_detail_plan_loads.saturating_add(1);
        self.usage_detail_sources_loaded = self.usage_detail_sources_loaded.saturating_add(
            source_ids.len() as u64,
        );
        self.usage_detail_plan_duration_ms = self.usage_detail_plan_duration_ms.saturating_add(
            clamp(elapsed_ms),
        );
        self.usage_detail_source_ids.extend_from_slice(source_ids.as_slice());
    }

    pub fn observe_usage_global_replan(&mut self)
        ensures
            final(self).deep_view() == old(self).deep_view().with_replan(),
    {
        self.usage_global_replans = self.usage_global_replans.saturating_add(1);
    }

    pub fn observe_usage_commit(
        &mut self,
        metrics: &UsageCommitMetrics,
        outcome: &UsageCommitOutcome,
        elapsed_ms: u128,
    )
        ensures
            final(self).deep_view() == old(self).deep_view().with_commit(
                *metrics,
                *outcome,
                elapsed_ms,
            ),
    {
        self.usage_events_inserted = self.usage_events_inserted.saturating_add(
            outcome.events_inserted as u64,
        );
        self.usage_events_deduplicated = self.usage_events_deduplicated.saturating_add(
            outcome.events_deduplicated as u64,
        );
        self.normal_events = self.normal_events.saturating_add(metrics.normal_events);
        self.recovered_events = self.recovered_events.saturating_add(metrics.recovered_events);
        self.compensation_events = self.compensation_events.saturating_add(
            metrics.compensation_events,
        );
        self.anomalies_created = self.anomalies_created.saturating_add(metrics.anomalies);
        self.usage_db_write_duration_ms = self.usage_db_write_duration_ms.saturating_add(
            clamp(elapsed_ms),
        );
    }

    pub fn observe_body_open_attempt(&mut self)
        ensures
            final(self).deep_view() == (ReportFacts {
                body_open_attempts: one_more(old(self).body_open_attempts),
                ..old(self).deep_view()
            }),
    {
        self.body_open_attempts = self.body_open_attempts.saturating_add(1);
    }

    pub fn failed_source(&mut self)
        ensures
            final(self).deep_view() == old(self).deep_view().with_failed_source(),
    {
        self.failed_sources = self.failed_sources.saturating_add(1);
    }

    pub fn error(&mut self, code: &'static str)
        ensures
            final(self).deep_view() == old(self).deep_view().with_error(code@),
    {
        let ghost codes = code_views(self.error_codes@);
        let mut i: usize = 0;
        while i < self.error_codes.len()
            invariant
                i <= self.error_codes.len(),
                *self == *old(self),
                codes == code_views(self.error_codes@),
                forall|j: int| 0 <= j < i ==> #[trigger] codes[j] != code@,
            decreases self.error_codes.len() - i,
        {
            if same_text(self.error_codes[i], code) {
                assert(codes[i as int] == code@);
                return ;
            }
            i = i + 1;
        }
        self.error_codes.push(code);
        assert(code_views(self.error_codes@) =~= codes.push(code@));
    }

    pub fn finish(&mut self, finished_at_ms: i64)
        ensures
            old(self).deep_view().finished(finished_at_ms, final(self).deep_view()),
    {
        let finished_at_ms: i64 = if finished_at_ms < 0 {
            0
        } else {
            finished_at_ms
        };
        self.elapsed_ms = match finished_at_ms.checked_sub(self.started_at_ms) {
            Some(elapsed_ms) => elapsed_ms,
            None => i64::MAX,
        };
        self.source_file_ids = sort_ids(&self.source_file_ids);
        self.usage_detail_source_ids = sort_ids(&self.usage_detail_source_ids);
        self.error_codes = sort_codes(&self.error_codes);
    }
}

/// A code that was noted is reported, however the report goes on.
pub proof fn law_noted_codes_stay(report: ReportFacts, code: Seq<char>, other: Seq<char>)
    ensures
        report.with_error(code).error_codes.contains(code),
        report.error_codes.contains(other) ==> report.with_error(code).error_codes.contains(other),
        report.error_codes.no_duplicates() ==> report.with_error(
            code,
        ).error_codes.no_duplicates(),
{
    let codes = report.error_codes;
    if !codes.contains(code) {
        let after = codes.push(code);
        assert(after[codes.len() as int] == code);
        if codes.contains(other) {
            let i = choose|i: int| 0 <= i < codes.len() && codes[i] == other;
            assert(after[i] == other);
        }
        if codes.no_duplicates() {
            assert forall|i: int, j: int|
                0 <= i < after.len() && 0 <= j < after.len() && i != j implies after[i]
                != after[j] by {
                if i < codes.len() && j < codes.len() {
                    assert(codes[i] != codes[j]);
                } else if i < codes.len() {
                    assert(codes.contains(codes[i]));
                } else {
                    assert(codes.contains(codes[j]));
                }
            }
        }
    }
}

/// Noting a code twice is noting it once.
pub proof fn law_noting_is_idempotent(report: ReportFacts, code: Seq<char>)
    ensures
        report.with_error(code).with_error(code) == report.with_error(code),
{
    law_noted_codes_stay(report, code, code);
}

/// Finishing a report neither loses nor adds a code or a source.
pub proof fn law_finishing_keeps_what_was_noted(
    report: ReportFacts,
    finished_at_ms: i64,
    after: ReportFacts,
    code: Seq<char>,
    id: i64,
)
    requires
        report.finished(finished_at_ms, after),
    ensures
        after.error_codes.contains(code) <==> report.error_codes.contains(code),
        after.source_file_ids.contains(id) <==> report.source_file_ids.contains(id),
        after.usage_detail_source_ids.contains(id) <==> report.usage_detail_source_ids.contains(id),
{
    crate::order::lemma_stably_sorted_keeps(report.error_codes, by_text());
}

/// The codes of a finished report are in order.
pub proof fn law_finished_codes_are_in_order(
    report: ReportFacts,
    finished_at_ms: i64,
    after: ReportFacts,
    i: int,
    j: int,
)
    requires
        report.finished(finished_at_ms, after),
        0 <= i < j < after.error_codes.len(),
    ensures
        !(crate::order::text_rank(after.error_codes[i], after.error_codes[j]) is After),
{
    crate::order::lemma_by_text_orders();
    crate::order::lemma_stably_sorted_orders(report.error_codes, by_text());
    assert(!(by_text()(after.error_codes[i], after.error_codes[j]) is After));
}

} // verus!
