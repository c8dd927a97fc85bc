//! What each observation adds to the report of a scan, and that it leaves the rest as it was.
use vstd::prelude::*;

use crate::domain::SourceObservationResult;
use crate::token_usage::EventKind;
use super::chunks::ChunkReadResult;
use super::report::{
    count_kind, metrics_of, skips, FilePlan, ParsedSource, ReportFacts, ScanReport,
    UsageCommitMetrics, UsageCommitOutcome,
};
use super::usage_pipeline::UsageSourceCommitDto;
use super::usage_processor::EventFacts;

verus! {

/// A count that has grown by `by`, or stands at the largest number because it would be past it.
pub open spec fn grown(before: u64, after: u64, by: int) -> bool {
    if before + by <= 18446744073709551615 {
        after == before + by
    } else {
        after == 18446744073709551615
    }
}

/// A count that has grown by one if the condition holds, and is unchanged else.
pub open spec fn counted_if(before: u64, after: u64, condition: bool) -> bool {
    &&& condition ==> grown(before, after, 1)
    &&& !condition ==> after == before
}

/// A time as a count.
pub open spec fn is_millis(count: int, millis: u128) -> bool {
    &&& millis <= 18446744073709551615 ==> count == millis
    &&& millis > 18446744073709551615 ==> count == 18446744073709551615
}

/// A source that was observed is listed last, and counted as what it is: new, moved, replaced or
/// to be built anew for its metadata, or carried on with.
pub proof fn law_sources_are_counted_as_observed(
    before: ScanReport,
    result: SourceObservationResult,
    after: ScanReport,
)
    requires
        after.deep_view() == before.deep_view().with_source(result),
    ensures
        after.source_file_ids@.len() == before.source_file_ids@.len() + 1,
        after.source_file_ids@.last() == result.source_file_id,
        after.source_file_ids@.drop_last() == before.source_file_ids@,
        counted_if(before.added_sources, after.added_sources, result.created),
        counted_if(before.moved_sources, after.moved_sources, result.moved),
        counted_if(
            before.rebuilt_sources,
            after.rebuilt_sources,
            result.replaced || exists|i: int|
                0 <= i < result.rebuild_consumers@.len() && (#[trigger] result.rebuild_consumers@[i])
                    is Metadata,
        ),
        counted_if(
            before.appended_sources,
            after.appended_sources,
            result.build_disposition is CarryResumedPresent,
        ),
        after.deep_view() == (ReportFacts {
            source_file_ids: after.source_file_ids@,
            added_sources: after.added_sources,
            moved_sources: after.moved_sources,
            rebuilt_sources: after.rebuilt_sources,
            appended_sources: after.appended_sources,
            ..before.deep_view()
        }),
{
    assert(after.source_file_ids@ == before.source_file_ids@.push(result.source_file_id));
}

/// The files that are left alone, counted.
pub open spec fn left_alone(plans: Seq<FilePlan>) -> int
    decreases plans.len(),
{
    if plans.len() == 0 {
        0
    } else {
        left_alone(plans.drop_first()) + if plans[0] is Skip {
            1int
        } else {
            0int
        }
    }
}

proof fn lemma_left_alone(plans: Seq<FilePlan>)
    ensures
        left_alone(plans) == skips(plans),
    decreases plans.len(),
{
    let first = if plans[0] is Skip {
        1int
    } else {
        0int
    };
    let last = if plans.last() is Skip {
        1int
    } else {
        0int
    };
    if plans.len() == 1 {
        assert(left_alone(plans.drop_first()) == 0);
        assert(skips(plans.drop_last()) == 0);
        assert(plans.last() == plans[0]);
    } else if plans.len() > 1 {
        let inner = plans.drop_first().drop_last();
        lemma_left_alone(plans.drop_first());
        lemma_left_alone(plans.drop_last());
        lemma_left_alone(inner);
        assert(plans.drop_last().drop_first() =~= inner);
        assert(plans.drop_last()[0] == plans[0]);
        assert(plans.drop_first().last() == plans.last());
        assert(skips(plans.drop_first()) == skips(inner) + last);
        assert(left_alone(plans.drop_last()) == left_alone(inner) + first);
        assert(left_alone(plans) == left_alone(plans.drop_first()) + first);
        assert(skips(plans) == skips(plans.drop_last()) + last);
    }
}

/// Each file that is left alone is counted twice: as skipped and as a success.
pub proof fn law_files_left_alone_are_successes(
    before: ScanReport,
    plans: Seq<FilePlan>,
    after: ScanReport,
)
    requires
        after.deep_view() == before.deep_view().with_plans(plans),
    ensures
        grown(before.skipped_sources, after.skipped_sources, left_alone(plans)),
        grown(before.successful_sources, after.successful_sources, left_alone(plans)),
        after.deep_view() == (ReportFacts {
            skipped_sources: after.skipped_sources,
            successful_sources: after.successful_sources,
            ..before.deep_view()
        }),
{
    lemma_left_alone(plans);
}

/// What parsing a file adds: bytes, guard bytes, lines, oversized lines, malformed records and
/// diagnostics one for one, one half line, one success if the file ended stably. The most that
/// was ever buffered is kept. Oversized lines and malformed records are reported by their codes.
pub proof fn law_parsed_files_are_counted(before: ScanReport, parsed: ParsedSource, after: ScanReport)
    requires
        after.deep_view() == before.deep_view().with_parsed(parsed),
    ensures
        grown(before.bytes_read, after.bytes_read, parsed.bytes_read as int),
        grown(before.guard_bytes_read, after.guard_bytes_read, parsed.guard_bytes_read as int),
        grown(before.complete_lines, after.complete_lines, parsed.complete_line_count as int),
        grown(
            before.oversized_complete_lines,
            after.oversized_complete_lines,
            parsed.oversized_complete_line_count as int,
        ),
        grown(
            before.malformed_records,
            after.malformed_records,
            parsed.malformed_record_count as int,
        ),
        grown(before.diagnostics, after.diagnostics, parsed.diagnostic_count as int),
        counted_if(before.half_lines, after.half_lines, parsed.has_half_line),
        counted_if(
            before.successful_sources,
            after.successful_sources,
            !(parsed.final_continuation is Unstable),
        ),
        after.peak_buffered_body_bytes >= before.peak_buffered_body_bytes,
        after.peak_buffered_body_bytes >= parsed.peak_buffered_body_bytes,
        after.peak_buffered_body_bytes == before.peak_buffered_body_bytes
            || after.peak_buffered_body_bytes == parsed.peak_buffered_body_bytes,
        parsed.oversized_complete_line_count > 0 ==> after.deep_view().error_codes.contains(
            "OVERSIZED_COMPLETE_LINE"@,
        ),
        parsed.malformed_record_count > 0 ==> after.deep_view().error_codes.contains(
            "MALFORMED_RECORD"@,
        ),
        parsed.oversized_complete_line_count == 0 && parsed.malformed_record_count == 0
            ==> after.deep_view().error_codes == before.deep_view().error_codes,
        after.deep_view() == (ReportFacts {
            bytes_read: after.bytes_read,
            guard_bytes_read: after.guard_bytes_read,
            complete_lines: after.complete_lines,
            oversized_complete_lines: after.oversized_complete_lines,
            malformed_records: after.malformed_records,
            diagnostics: after.diagnostics,
            half_lines: after.half_lines,
            successful_sources: after.successful_sources,
            peak_buffered_body_bytes: after.peak_buffered_body_bytes,
            error_codes: after.deep_view().error_codes,
            ..before.deep_view()
        }),
{
    let counted = before.deep_view().with_parsed_counts(parsed);
    let oversized = counted.with_error_if(
        parsed.oversized_complete_line_count > 0,
        "OVERSIZED_COMPLETE_LINE"@,
    );
    super::report::law_noted_codes_stay(
        counted,
        "OVERSIZED_COMPLETE_LINE"@,
        "OVERSIZED_COMPLETE_LINE"@,
    );
    super::report::law_noted_codes_stay(
        oversized,
        "MALFORMED_RECORD"@,
        "OVERSIZED_COMPLETE_LINE"@,
    );
}

/// What reading a stretch for usage adds: all its lines, the token records, the bytes and the
/// time it took.
pub proof fn law_usage_reads_are_counted(
    before: ScanReport,
    read: ChunkReadResult,
    token_records_seen: u64,
    elapsed_ms: u128,
    millis: int,
    after: ScanReport,
)
    requires
        after.deep_view() == before.deep_view().with_usage_read(
            read,
            token_records_seen,
            elapsed_ms,
        ),
        is_millis(millis, elapsed_ms),
    ensures
        grown(
            before.usage_lines_seen,
            after.usage_lines_seen,
            read.complete_line_count + read.oversized_complete_line_count,
        ),
        grown(before.token_records_seen, after.token_records_seen, token_records_seen as int),
        grown(before.usage_bytes_read, after.usage_bytes_read, read.bytes_read as int),
        grown(before.usage_parse_duration_ms, after.usage_parse_duration_ms, millis),
        after.peak_buffered_body_bytes >= before.peak_buffered_body_bytes,
        after.peak_buffered_body_bytes >= read.peak_buffered_body_bytes,
        after.peak_buffered_body_bytes == before.peak_buffered_body_bytes
            || after.peak_buffered_body_bytes == read.peak_buffered_body_bytes,
        after.deep_view() == (ReportFacts {
            usage_lines_seen: after.usage_lines_seen,
            token_records_seen: after.token_records_seen,
            usage_bytes_read: after.usage_bytes_read,
            usage_parse_duration_ms: after.usage_parse_duration_ms,
            peak_buffered_body_bytes: after.peak_buffered_body_bytes,
            ..before.deep_view()
        }),
{
}

/// A list of threads that was loaded counts once, with its candidates and the time it took; the
/// plans of sources that were loaded count once, with their sources, which are listed.
pub proof fn law_loads_are_counted(
    before: ScanReport,
    candidates: usize,
    source_ids: Seq<i64>,
    elapsed_ms: u128,
    millis: int,
    listed: ScanReport,
    detailed: ScanReport,
)
    requires
        listed.deep_view() == before.deep_view().with_worklist(candidates, elapsed_ms),
        detailed.deep_view() == before.deep_view().with_detail_plans(source_ids, elapsed_ms),
        is_millis(millis, elapsed_ms),
    ensures
        grown(before.usage_worklist_loads, listed.usage_worklist_loads, 1),
        grown(
            before.usage_worklist_candidates,
            listed.usage_worklist_candidates,
            candidates as int,
        ),
        grown(before.usage_worklist_duration_ms, listed.usage_worklist_duration_ms, millis),
        listed.deep_view() == (ReportFacts {
            usage_worklist_loads: listed.usage_worklist_loads,
            usage_worklist_candidates: listed.usage_worklist_candidates,
            usage_worklist_duration_ms: listed.usage_worklist_duration_ms,
            ..before.deep_view()
        }),
        grown(before.usage_detail_plan_loads, detailed.usage_detail_plan_loads, 1),
        grown(
            before.usage_detail_sources_loaded,
            detailed.usage_detail_sources_loaded,
            source_ids.len() as int,
        ),
        grown(before.usage_detail_plan_duration_ms, detailed.usage_detail_plan_duration_ms, millis),
        detailed.usage_detail_source_ids@ == before.usage_detail_source_ids@ + source_ids,
        detailed.deep_view() == (ReportFacts {
            usage_detail_plan_loads: detailed.usage_detail_plan_loads,
            usage_detail_sources_loaded: detailed.usage_detail_sources_loaded,
            usage_detail_plan_duration_ms: detailed.usage_detail_plan_duration_ms,
            usage_detail_source_ids: detailed.usage_detail_source_ids@,
            ..before.deep_view()
        }),
{
}

/// What a commit adds: the events that storage took and those it knew already, the events of each
/// kind, the anomalies and the time it took.
pub proof fn law_commits_are_counted(
    before: ScanReport,
    metrics: UsageCommitMetrics,
    outcome: UsageCommitOutcome,
    elapsed_ms: u128,
    millis: int,
    after: ScanReport,
)
    requires
        after.deep_view() == before.deep_view().with_commit(metrics, outcome, elapsed_ms),
        is_millis(millis, elapsed_ms),
    ensures
        grown(
            before.usage_events_inserted,
            after.usage_events_inserted,
            outcome.events_inserted as int,
        ),
        grown(
            before.usage_events_deduplicated,
            after.usage_events_deduplicated,
            outcome.events_deduplicated as int,
        ),
        grown(before.normal_events, after.normal_events, metrics.normal_events as int),
        grown(before.recovered_events, after.recovered_events, metrics.recovered_events as int),
        grown(
            before.compensation_events,
            after.compensation_events,
            metrics.compensation_events as int,
        ),
        grown(before.anomalies_created, after.anomalies_created, metrics.anomalies as int),
        grown(before.usage_db_write_duration_ms, after.usage_db_write_duration_ms, millis),
        after.deep_view() == (ReportFacts {
            usage_events_inserted: after.usage_events_inserted,
            usage_events_deduplicated: after.usage_events_deduplicated,
            normal_events: after.normal_events,
            recovered_events: after.recovered_events,
            compensation_events: after.compensation_events,
            anomalies_created: after.anomalies_created,
            usage_db_write_duration_ms: after.usage_db_write_duration_ms,
            ..before.deep_view()
        }),
{
}

/// Metrics that are added up grow kind by kind.
pub proof fn law_metrics_add_up(
    before: UsageCommitMetrics,
    other: UsageCommitMetrics,
    after: UsageCommitMetrics,
)
    requires
        after == before.plus(other),
    ensures
        grown(before.normal_events, after.normal_events, other.normal_events as int),
        grown(before.recovered_events, after.recovered_events, other.recovered_events as int),
        grown(
            before.compensation_events,
            after.compensation_events,
            other.compensation_events as int,
        ),
        grown(before.anomalies, after.anomalies, other.anomalies as int),
{
}

/// Every event of a commit is counted once, under its own kind, and every anomaly once.
pub proof fn law_every_event_is_counted_once(dto: UsageSourceCommitDto, metrics: UsageCommitMetrics)
    requires
        metrics == metrics_of(dto.deep_view()),
        dto.events@.len() <= 18446744073709551615,
        dto.anomalies@.len() <= 18446744073709551615,
    ensures
        metrics.normal_events + metrics.recovered_events + metrics.compensation_events
            == dto.events@.len(),
        metrics.anomalies == dto.anomalies@.len(),
        (forall|i: int| 0 <= i < dto.events@.len() ==> (#[trigger] dto.deep_view().events[i]).kind
            is Normal) ==> metrics.normal_events == dto.events@.len(),
        (forall|i: int| 0 <= i < dto.events@.len() ==> (#[trigger] dto.deep_view().events[i]).kind
            is Recovered) ==> metrics.recovered_events == dto.events@.len(),
        (forall|i: int| 0 <= i < dto.events@.len() ==> (#[trigger] dto.deep_view().events[i]).kind
            is TurnCompensation) ==> metrics.compensation_events == dto.events@.len(),
{
    let events = dto.deep_view().events;
    lemma_kinds_add_up(events);
    super::report::lemma_count_kind(events, EventKind::Normal);
    super::report::lemma_count_kind(events, EventKind::Recovered);
    super::report::lemma_count_kind(events, EventKind::TurnCompensation);
    assert(events.len() == dto.events@.len());
    assert(dto.deep_view().anomalies.len() == dto.anomalies@.len());
    lemma_all_of_a_kind(events, EventKind::Normal);
    lemma_all_of_a_kind(events, EventKind::Recovered);
    lemma_all_of_a_kind(events, EventKind::TurnCompensation);
}

proof fn lemma_kinds_add_up(events: Seq<EventFacts>)
    ensures
        count_kind(events, EventKind::Normal) + count_kind(events, EventKind::Recovered)
            + count_kind(events, EventKind::TurnCompensation) == events.len(),
    decreases events.len(),
{
    if events.len() > 0 {
        lemma_kinds_add_up(events.drop_last());
    }
}

proof fn lemma_all_of_a_kind(events: Seq<EventFacts>, kind: EventKind)
    ensures
        (forall|i: int| 0 <= i < events.len() ==> (#[trigger] events[i]).kind == kind)
            ==> count_kind(events, kind) == events.len(),
    decreases events.len(),
{
    if events.len() > 0 && forall|i: int|
        0 <= i < events.len() ==> (#[trigger] events[i]).kind == kind {
        let rest = events.drop_last();
        assert forall|i: int| 0 <= i < rest.len() implies (#[trigger] rest[i]).kind == kind by {
            assert(events[i].kind == kind);
        }
        lemma_all_of_a_kind(rest, kind);
        assert(events[events.len() - 1].kind == kind);
    }
}

/// One more failed source, or one more plan made anew, is counted, and nothing else changes. A
/// finished report tells the time between its start and its end.
pub proof fn law_failures_and_ends_are_counted(
    before: ScanReport,
    failed: ScanReport,
    replanned: ScanReport,
    finished: ScanReport,
    finished_at_ms: i64,
)
    requires
        failed.deep_view() == before.deep_view().with_failed_source(),
        replanned.deep_view() == before.deep_view().with_replan(),
        before.deep_view().finished(finished_at_ms, finished.deep_view()),
    ensures
        grown(before.failed_sources, failed.failed_sources, 1),
        failed.deep_view() == (ReportFacts {
            failed_sources: failed.failed_sources,
            ..before.deep_view()
        }),
        grown(before.usage_global_replans, replanned.usage_global_replans, 1),
        replanned.deep_view() == (ReportFacts {
            usage_global_replans: replanned.usage_global_replans,
            ..before.deep_view()
        }),
        0 <= before.started_at_ms <= finished_at_ms ==> finished.elapsed_ms == finished_at_ms
            - before.started_at_ms,
        finished_at_ms < 0 && before.started_at_ms >= 0 ==> finished.elapsed_ms == 0
            - before.started_at_ms,
        finished.started_at_ms == before.started_at_ms,
        finished.deep_view() == (ReportFacts {
            elapsed_ms: finished.elapsed_ms,
            source_file_ids: finished.source_file_ids@,
            usage_detail_source_ids: finished.usage_detail_source_ids@,
            error_codes: finished.deep_view().error_codes,
            ..before.deep_view()
        }),
        forall|i: int, j: int|
            0 <= i < j < finished.source_file_ids@.len() ==> #[trigger] finished.source_file_ids@[i]
                < #[trigger] finished.source_file_ids@[j],
{
}

} // verus!
