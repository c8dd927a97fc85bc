//! What holds of usage processing as a whole.
#![allow(unused_imports)]
use vstd::prelude::*;

use super::usage_processor::{AnomalyCode, AnomalyFacts, Candidate, ClosedTurnFacts, CompensationBlocks, ContextFacts, EventFacts, OccurrenceFacts, OwnershipFacts, ProcessorError, Progress, RecordBody, RecordFacts, ResultFacts, StateFacts, TurnEndStatus, TurnFacts, UsageValue, cache_decreased, canonical_id, difference_error, event_bytes, initial_state, no_blocks, processed, processor_error, rebuild_result, required_decreased, sum_error, with_id};
use crate::encoding::{be_i64, lemma_be64_injective};
use crate::normalization::fingerprint_bytes;
use crate::shared::{invalid_fault};
use crate::text::{lemma_missing_character, occurs, occurs_at};
use crate::token_usage::{EventKind, NormalizedTokenUsage, difference_of, zero_usage};

verus! {

/// `p` with the proposals of `earlier` in front of its own.
pub open spec fn after_earlier(earlier: ResultFacts, p: Progress) -> Progress {
    Progress {
        events: earlier.events + p.events,
        occurrences: earlier.occurrences + p.occurrences,
        anomalies: earlier.anomalies + p.anomalies,
        closed_turns: earlier.closed_turns + p.closed_turns,
        ..p
    }
}

proof fn lemma_anomaly_appends(e: ResultFacts, p: Progress, code: AnomalyCode, offset: Option<u64>)
    ensures
        after_earlier(e, p).with_anomaly(code, offset) == after_earlier(
            e,
            p.with_anomaly(code, offset),
        ),
{
    assert(after_earlier(e, p).with_anomaly(code, offset) =~= after_earlier(
        e,
        p.with_anomaly(code, offset),
    ));
}

proof fn lemma_event_appends(
    e: ResultFacts,
    p: Progress,
    event: EventFacts,
    start_offset: u64,
    end_offset: u64,
)
    ensures
        after_earlier(e, p).with_event(event, start_offset, end_offset) == after_earlier(
            e,
            p.with_event(event, start_offset, end_offset),
        ),
{
    assert(after_earlier(e, p).with_event(event, start_offset, end_offset) =~= after_earlier(
        e,
        p.with_event(event, start_offset, end_offset),
    ));
}

proof fn lemma_closed_appends(e: ResultFacts, p: Progress, closed: ClosedTurnFacts)
    ensures
        after_earlier(e, p).with_closed_turn(closed) == after_earlier(
            e,
            p.with_closed_turn(closed),
        ),
{
    assert(after_earlier(e, p).with_closed_turn(closed) =~= after_earlier(
        e,
        p.with_closed_turn(closed),
    ));
}

proof fn lemma_candidate_appends(e: ResultFacts, p: Progress, c: Candidate)
    ensures
        after_earlier(e, p).with_candidate(c) == after_earlier(e, p.with_candidate(c)),
{
    reveal(Progress::with_candidate);
    let q = after_earlier(e, p);
    assert(q.candidate_event(c) == p.candidate_event(c));
    match p.state.open_turn {
        Some(turn) => {
            let seen = turn.with_model(p.model()).with_effort(p.state.active_reasoning_effort);
            if seen.accounting_error(c.usage) is Some {
                let t = TurnFacts {
                    last_total: Some(c.current_total),
                    ..seen.with_required_invalid()
                };
                assert(q.with_open_turn(Some(t)) == after_earlier(e, p.with_open_turn(Some(t))));
                lemma_anomaly_appends(
                    e,
                    p.with_open_turn(Some(t)),
                    AnomalyCode::ArithmeticOverflow,
                    Some(c.start_offset),
                );
                let counted = p.with_open_turn(Some(t)).with_anomaly(
                    AnomalyCode::ArithmeticOverflow,
                    Some(c.start_offset),
                );
                lemma_event_appends(
                    e,
                    counted,
                    p.candidate_event(c),
                    c.start_offset,
                    c.end_offset,
                );
            } else {
                let t = TurnFacts {
                    last_total: Some(c.current_total),
                    ..seen.with_accounted(c.usage)
                };
                assert(q.with_open_turn(Some(t)) == after_earlier(e, p.with_open_turn(Some(t))));
                lemma_event_appends(
                    e,
                    p.with_open_turn(Some(t)),
                    p.candidate_event(c),
                    c.start_offset,
                    c.end_offset,
                );
            }
        },
        None => {
            lemma_event_appends(e, p, p.candidate_event(c), c.start_offset, c.end_offset);
        },
    }
}

proof fn lemma_invalid_last_appends(e: ResultFacts, p: Progress, last: UsageValue, offset: u64)
    ensures
        after_earlier(e, p).with_invalid_last(last, offset) == after_earlier(
            e,
            p.with_invalid_last(last, offset),
        ),
{
    lemma_anomaly_appends(e, p, AnomalyCode::LastUsageInvalid, Some(offset));
}

proof fn lemma_reset_appends(
    e: ResultFacts,
    p: Progress,
    required_reset: bool,
    cache_reset: bool,
    at: i64,
    start_offset: u64,
    end_offset: u64,
    current: NormalizedTokenUsage,
    last: UsageValue,
)
    ensures
        after_earlier(e, p).with_reset(
            required_reset,
            cache_reset,
            at,
            start_offset,
            end_offset,
            current,
            last,
        ) == after_earlier(
            e,
            p.with_reset(
                required_reset,
                cache_reset,
                at,
                start_offset,
                end_offset,
                current,
                last,
            ),
        ),
{
    lemma_anomaly_appends(e, p, AnomalyCode::TotalChainReset, Some(start_offset));
    let a = if required_reset {
        p.with_anomaly(AnomalyCode::TotalChainReset, Some(start_offset))
    } else {
        p
    };
    lemma_anomaly_appends(e, a, AnomalyCode::CacheWriteChainDecrease, Some(start_offset));
    let b = if cache_reset {
        a.with_anomaly(AnomalyCode::CacheWriteChainDecrease, Some(start_offset))
    } else {
        a
    };
    let c = match b.state.open_turn {
        Some(turn) => b.with_open_turn(
            Some(
                TurnFacts { blocks: CompensationBlocks { reset: true, ..turn.blocks }, ..turn },
            ),
        ),
        None => b,
    };
    match last {
        UsageValue::Valid(usage) => {
            lemma_candidate_appends(
                e,
                c,
                Candidate {
                    kind: EventKind::Normal,
                    occurred_at_ms: at,
                    start_offset,
                    end_offset,
                    usage,
                    previous_total: p.state.previous_total,
                    current_total: current,
                },
            );
        },
        _ => {
            lemma_invalid_last_appends(e, c, last, start_offset);
        },
    }
}

proof fn lemma_advance_appends(
    e: ResultFacts,
    p: Progress,
    at: i64,
    start_offset: u64,
    end_offset: u64,
    current: NormalizedTokenUsage,
    last: UsageValue,
)
    ensures
        ({
            let (q, error) = p.with_advance(at, start_offset, end_offset, current, last);
            after_earlier(e, p).with_advance(at, start_offset, end_offset, current, last) == (
                after_earlier(e, q),
                error,
            )
        }),
{
    match last {
        UsageValue::Valid(usage) => {
            lemma_candidate_appends(
                e,
                p,
                Candidate {
                    kind: EventKind::Normal,
                    occurred_at_ms: at,
                    start_offset,
                    end_offset,
                    usage,
                    previous_total: p.state.previous_total,
                    current_total: current,
                },
            );
        },
        UsageValue::Missing => {
            if p.state.previous_total is Some {
                lemma_candidate_appends(
                    e,
                    p,
                    Candidate {
                        kind: EventKind::Recovered,
                        occurred_at_ms: at,
                        start_offset,
                        end_offset,
                        usage: difference_of(current, p.state.previous_total->0),
                        previous_total: p.state.previous_total,
                        current_total: current,
                    },
                );
            }
        },
        UsageValue::Invalid => {
            lemma_invalid_last_appends(e, p, last, start_offset);
        },
    }
}

proof fn lemma_token_count_appends(
    e: ResultFacts,
    p: Progress,
    timestamp_ms: Option<i64>,
    start_offset: u64,
    end_offset: u64,
    total: UsageValue,
    last: UsageValue,
)
    ensures
        ({
            let (q, error) = p.with_token_count(timestamp_ms, start_offset, end_offset, total, last);
            after_earlier(e, p).with_token_count(
                timestamp_ms,
                start_offset,
                end_offset,
                total,
                last,
            ) == (after_earlier(e, q), error)
        }),
{
    reveal(Progress::with_token_count);
    lemma_anomaly_appends(e, p, AnomalyCode::RequiredTotalInvalid, Some(start_offset));
    lemma_anomaly_appends(e, p, AnomalyCode::UsageTimeMissing, Some(start_offset));
    lemma_invalid_last_appends(
        e,
        p.with_anomaly(AnomalyCode::UsageTimeMissing, Some(start_offset)),
        last,
        start_offset,
    );
    if let UsageValue::Valid(current) = total {
        if let Some(at) = timestamp_ms {
            let previous = p.state.previous_total;
            let required_reset = previous is Some && required_decreased(current, previous->0);
            let cache_reset = previous is Some && cache_decreased(current, previous->0);
            lemma_reset_appends(
                e,
                p,
                required_reset,
                cache_reset,
                at,
                start_offset,
                end_offset,
                current,
                last,
            );
            lemma_advance_appends(e, p, at, start_offset, end_offset, current, last);
        }
    }
}

proof fn lemma_started_turn_appends(
    e: ResultFacts,
    p: Progress,
    turn_id: Option<Seq<char>>,
    timestamp_ms: Option<i64>,
    offset: u64,
)
    ensures
        after_earlier(e, p).with_started_turn(turn_id, timestamp_ms, offset) == after_earlier(
            e,
            p.with_started_turn(turn_id, timestamp_ms, offset),
        ),
{
    reveal(Progress::with_started_turn);
    let q = after_earlier(e, p);
    if let Some(replaced) = p.state.open_turn {
        assert(q.with_open_turn(None) == after_earlier(e, p.with_open_turn(None)));
        lemma_anomaly_appends(
            e,
            p.with_open_turn(None),
            AnomalyCode::TurnReplaced,
            Some(offset),
        );
        lemma_closed_appends(
            e,
            p.with_open_turn(None).with_anomaly(AnomalyCode::TurnReplaced, Some(offset)),
            ClosedTurnFacts {
                turn: replaced.with_required_invalid(),
                ended_at_ms: timestamp_ms,
                end_offset: offset,
                status: TurnEndStatus::Aborted,
            },
        );
    }
}

proof fn lemma_compensation_appends(
    e: ResultFacts,
    p: Progress,
    turn: TurnFacts,
    at: i64,
    start_offset: u64,
    end_offset: u64,
)
    ensures
        ({
            let (q, ended, error) = p.with_compensation(turn, at, start_offset, end_offset);
            after_earlier(e, p).with_compensation(turn, at, start_offset, end_offset) == (
                after_earlier(e, q),
                ended,
                error,
            )
        }),
{
    reveal(Progress::with_compensation);
    lemma_anomaly_appends(e, p, AnomalyCode::TotalChainReset, Some(start_offset));
    lemma_anomaly_appends(e, p, AnomalyCode::TurnCacheWriteDeltaNegative, Some(start_offset));
    lemma_anomaly_appends(e, p, AnomalyCode::TurnAccountedExceedsTotal, Some(start_offset));
    let missing = difference_of(
        difference_of(turn.last_total->0, turn.start_total->0),
        turn.accounted,
    );
    let model = Progress::compensation_model(turn);
    lemma_event_appends(
        e,
        p,
        p.compensation_event(turn, missing, model->0, at),
        start_offset,
        end_offset,
    );
    assert(after_earlier(e, p).compensation_event(turn, missing, model->0, at)
        == p.compensation_event(turn, missing, model->0, at));
    let note = AnomalyFacts {
        code: AnomalyCode::ArithmeticOverflow,
        source_start_offset: Some(start_offset),
        turn_key: Some(turn.turn_key),
    };
    assert((e.anomalies + p.anomalies).push(note) =~= e.anomalies + p.anomalies.push(note));
}

proof fn lemma_ended_turn_appends(
    e: ResultFacts,
    p: Progress,
    turn_id: Option<Seq<char>>,
    timestamp_ms: Option<i64>,
    start_offset: u64,
    end_offset: u64,
    status: TurnEndStatus,
)
    ensures
        ({
            let (q, error) = p.with_ended_turn(
                turn_id,
                timestamp_ms,
                start_offset,
                end_offset,
                status,
            );
            after_earlier(e, p).with_ended_turn(
                turn_id,
                timestamp_ms,
                start_offset,
                end_offset,
                status,
            ) == (after_earlier(e, q), error)
        }),
{
    reveal(Progress::with_ended_turn);
    if let Some(open) = p.state.open_turn {
        let taken = p.with_open_turn(None);
        assert(after_earlier(e, p).with_open_turn(None) == after_earlier(e, taken));
        lemma_anomaly_appends(e, taken, AnomalyCode::TurnIdMismatch, Some(start_offset));
        let turn = Progress::ending_turn(open, timestamp_ms);
        if let Some(at) = timestamp_ms {
            lemma_compensation_appends(e, taken, turn, at, start_offset, end_offset);
            let (after, ended, error) = taken.with_compensation(turn, at, start_offset, end_offset);
            lemma_closed_appends(
                e,
                after,
                ClosedTurnFacts { turn: ended, ended_at_ms: timestamp_ms, end_offset, status },
            );
        }
        lemma_closed_appends(
            e,
            taken,
            ClosedTurnFacts { turn, ended_at_ms: timestamp_ms, end_offset, status },
        );
    }
}

proof fn lemma_step_appends(e: ResultFacts, p: Progress, record: RecordFacts)
    ensures
        after_earlier(e, p).step(record) == match p.step(record) {
            Some(q) => Some(after_earlier(e, q)),
            None => None,
        },
{
    match record.body {
        RecordBody::TokenCount { timestamp_ms, start_offset, end_offset, total, last } => {
            lemma_token_count_appends(e, p, timestamp_ms, start_offset, end_offset, total, last);
        },
        RecordBody::TurnEnded { turn_id, timestamp_ms, start_offset, end_offset, status } => {
            lemma_ended_turn_appends(
                e,
                p,
                turn_id,
                timestamp_ms,
                start_offset,
                end_offset,
                status,
            );
        },
        RecordBody::TurnStarted { turn_id, timestamp_ms, start_offset } => {
            lemma_started_turn_appends(e, p, turn_id, timestamp_ms, start_offset);
        },
        RecordBody::TurnContext { model, reasoning_effort } => {
            assert(after_earlier(e, p).with_context(model, reasoning_effort) == after_earlier(
                e,
                p.with_context(model, reasoning_effort),
            ));
        },
        RecordBody::Gap { kind } => {
            assert(after_earlier(e, p).with_gap(kind) == after_earlier(e, p.with_gap(kind)));
        },
    }
    let (after, error) = p.with_body(record.body);
    lemma_anomaly_appends(e, after, AnomalyCode::ArithmeticOverflow, None);
}

proof fn lemma_run_appends(e: ResultFacts, p: Progress, records: Seq<RecordFacts>)
    ensures
        after_earlier(e, p).run(records) == match p.run(records) {
            Some(q) => Some(after_earlier(e, q)),
            None => None,
        },
    decreases records.len(),
{
    if records.len() > 0 {
        lemma_run_appends(e, p, records.drop_last());
        if let Some(before) = p.run(records.drop_last()) {
            lemma_step_appends(e, before, records.last());
        }
    }
}

/// Running two batches one after the other is running their concatenation.
pub proof fn law_batches_compose(p: Progress, first: Seq<RecordFacts>, second: Seq<RecordFacts>)
    ensures
        p.run(first + second) == match p.run(first) {
            Some(q) => q.run(second),
            None => None,
        },
    decreases second.len(),
{
    if second.len() == 0 {
        assert(first + second =~= first);
    } else {
        law_batches_compose(p, first, second.drop_last());
        assert((first + second).drop_last() =~= first + second.drop_last());
        assert((first + second).last() == second.last());
    }
}

/// Restarting is invisible: processing a stream in two goes, the second from the state that
/// the first left, reaches the same state, and the proposals of the two goes in order are
/// the proposals of one go.
pub proof fn law_restart_is_invisible(
    context: ContextFacts,
    state: StateFacts,
    first: Seq<RecordFacts>,
    second: Seq<RecordFacts>,
)
    requires
        !processed(Progress::start(context, state), first).needs_rebuild,
    ensures
        ({
            let one = processed(Progress::start(context, state), first + second);
            let a = processed(Progress::start(context, state), first);
            let b = processed(Progress::start(context, a.updated_state), second);
            &&& one.needs_rebuild == b.needs_rebuild
            &&& !one.needs_rebuild ==> one.updated_state == b.updated_state
            &&& !one.needs_rebuild ==> one.events == a.events + b.events
            &&& !one.needs_rebuild ==> one.occurrences == a.occurrences + b.occurrences
            &&& !one.needs_rebuild ==> one.anomalies == a.anomalies + b.anomalies
            &&& !one.needs_rebuild ==> one.closed_turns == a.closed_turns + b.closed_turns
        }),
{
    let p = Progress::start(context, state);
    law_batches_compose(p, first, second);
    let q = p.run(first)->0;
    let a = processed(p, first);
    lemma_run_keeps_context(p, first);
    let fresh = Progress::start(context, a.updated_state);
    assert(after_earlier(a, fresh) =~= q);
    lemma_run_appends(a, fresh, second);
}

proof fn lemma_candidate_keeps_context(p: Progress, c: Candidate)
    ensures
        p.with_candidate(c).context == p.context,
{
    reveal(Progress::with_candidate);
}

proof fn lemma_step_keeps_context(p: Progress, record: RecordFacts)
    ensures
        p.step(record) is Some ==> p.step(record)->0.context == p.context,
{
    reveal(Progress::with_token_count);
    reveal(Progress::with_started_turn);
    reveal(Progress::with_ended_turn);
    reveal(Progress::with_compensation);
    assert forall|q: Progress, c: Candidate| (#[trigger] q.with_candidate(c)).context
        == q.context by {
        lemma_candidate_keeps_context(q, c);
    }
}

proof fn lemma_run_keeps_context(p: Progress, records: Seq<RecordFacts>)
    ensures
        p.run(records) is Some ==> p.run(records)->0.context == p.context,
    decreases records.len(),
{
    if records.len() > 0 {
        lemma_run_keeps_context(p, records.drop_last());
        if let Some(before) = p.run(records.drop_last()) {
            lemma_step_keeps_context(before, records.last());
        }
    }
}

/// A record that stops the run: nobody's, or another thread's.
pub open spec fn unattributable(context: ContextFacts, record: RecordFacts) -> bool {
    match record.ownership {
        OwnershipFacts::ReplayedAncestor => false,
        OwnershipFacts::UnknownOwnership => true,
        OwnershipFacts::Owning { thread_id } => thread_id != context.owning_thread_id,
    }
}

/// A rebuild is asked for exactly when some record cannot be attributed, and it then
/// proposes nothing and leaves the state as it was.
pub proof fn law_rebuild_iff_unattributable(
    context: ContextFacts,
    state: StateFacts,
    records: Seq<RecordFacts>,
)
    ensures
        processed(Progress::start(context, state), records).needs_rebuild <==> exists|i: int|
            0 <= i < records.len() && unattributable(context, #[trigger] records[i]),
        processed(Progress::start(context, state), records).needs_rebuild ==> processed(
            Progress::start(context, state),
            records,
        ) == rebuild_result(state),
{
    lemma_refused_iff(Progress::start(context, state), records);
}

proof fn lemma_refused_iff(p: Progress, records: Seq<RecordFacts>)
    ensures
        p.run(records) is None <==> exists|i: int|
            0 <= i < records.len() && unattributable(p.context, #[trigger] records[i]),
    decreases records.len(),
{
    if records.len() > 0 {
        let rest = records.drop_last();
        lemma_refused_iff(p, rest);
        lemma_run_keeps_context(p, rest);
        if p.run(rest) is None {
            let i = choose|i: int|
                0 <= i < rest.len() && unattributable(p.context, #[trigger] rest[i]);
            assert(records[i] == rest[i]);
        } else {
            assert forall|i: int| 0 <= i < rest.len() implies !unattributable(
                p.context,
                #[trigger] records[i],
            ) by {
                assert(rest[i] == records[i]);
            }
            if unattributable(p.context, records.last()) {
                assert(unattributable(p.context, records[records.len() - 1]));
            }
        }
    }
}

/// Records replayed from an ancestor change nothing: taking one out of the stream leaves
/// the result as it was.
pub proof fn law_replayed_records_change_nothing(
    p: Progress,
    before: Seq<RecordFacts>,
    replayed: RecordFacts,
    after: Seq<RecordFacts>,
)
    requires
        replayed.ownership is ReplayedAncestor,
    ensures
        p.run(before + seq![replayed] + after) == p.run(before + after),
        processed(p, before + seq![replayed] + after) == processed(p, before + after),
{
    law_batches_compose(p, before + seq![replayed], after);
    law_batches_compose(p, before, seq![replayed]);
    law_batches_compose(p, before, after);
    if let Some(q) = p.run(before) {
        assert(seq![replayed].drop_last() =~= Seq::<RecordFacts>::empty());
        assert(q.run(seq![replayed].drop_last()) == Some(q));
        assert(q.run(seq![replayed]) == q.step(replayed));
    }
}

/// Each proposed event has its canonical id and belongs to the owning thread, and each
/// comes with one occurrence that carries its id.
pub open spec fn well_proposed(p: Progress) -> bool {
    &&& p.events.len() == p.occurrences.len()
    &&& forall|i: int|
        0 <= i < p.events.len() ==> (#[trigger] p.events[i]).event_id == canonical_id(p.events[i])
    &&& forall|i: int|
        0 <= i < p.events.len() ==> (#[trigger] p.events[i]).thread_id
            == p.context.owning_thread_id
    &&& forall|i: int|
        0 <= i < p.events.len() ==> (#[trigger] p.events[i]).root_session_id
            == p.context.root_session_id
    &&& forall|i: int|
        0 <= i < p.occurrences.len() ==> (#[trigger] p.occurrences[i]).event_id
            == p.events[i].event_id
    &&& forall|i: int|
        0 <= i < p.occurrences.len() ==> (#[trigger] p.occurrences[i]).source_file_id
            == p.context.source_file_id
    &&& forall|i: int|
        0 <= i < p.occurrences.len() ==> (#[trigger] p.occurrences[i]).file_generation
            == p.context.file_generation
}

proof fn lemma_event_well_proposed(
    p: Progress,
    event: EventFacts,
    start_offset: u64,
    end_offset: u64,
)
    requires
        well_proposed(p),
        event.event_id == canonical_id(event),
        event.thread_id == p.context.owning_thread_id,
        event.root_session_id == p.context.root_session_id,
    ensures
        well_proposed(p.with_event(event, start_offset, end_offset)),
{
}

proof fn lemma_canonical_id_skips_id(event: EventFacts)
    ensures
        canonical_id(with_id(event)) == canonical_id(event),
        with_id(event).event_id == canonical_id(with_id(event)),
{
    assert(event_bytes(with_id(event)) == event_bytes(event));
}

proof fn lemma_candidate_well_proposed(p: Progress, c: Candidate)
    requires
        well_proposed(p),
    ensures
        well_proposed(p.with_candidate(c)),
{
    reveal(Progress::with_candidate);
    let bare = EventFacts { event_id: Seq::empty(), ..p.candidate_event(c) };
    lemma_canonical_id_skips_id(bare);
    assert(p.candidate_event(c) == with_id(bare));
}

proof fn lemma_compensation_well_proposed(
    p: Progress,
    turn: TurnFacts,
    at: i64,
    start_offset: u64,
    end_offset: u64,
)
    requires
        well_proposed(p),
    ensures
        well_proposed(p.with_compensation(turn, at, start_offset, end_offset).0),
{
    reveal(Progress::with_compensation);
    let missing = difference_of(
        difference_of(turn.last_total->0, turn.start_total->0),
        turn.accounted,
    );
    let model = Progress::compensation_model(turn)->0;
    let event = p.compensation_event(turn, missing, model, at);
    let bare = EventFacts { event_id: Seq::empty(), ..event };
    lemma_canonical_id_skips_id(bare);
    assert(event == with_id(bare));
    lemma_event_well_proposed(p, event, start_offset, end_offset);
}

/// [`well_proposed`] of what `p` has proposed, kept folded.
#[verifier::opaque]
spec fn paired(
    context: ContextFacts,
    events: Seq<EventFacts>,
    occurrences: Seq<OccurrenceFacts>,
) -> bool {
    well_proposed(
        Progress {
            context,
            state: initial_state(),
            events,
            occurrences,
            anomalies: Seq::empty(),
            closed_turns: Seq::empty(),
        },
    )
}

proof fn lemma_paired(p: Progress)
    ensures
        paired(p.context, p.events, p.occurrences) == well_proposed(p),
{
    reveal(paired);
}

proof fn lemma_candidate_paired(p: Progress, c: Candidate)
    requires
        paired(p.context, p.events, p.occurrences),
    ensures
        ({
            let q = p.with_candidate(c);
            paired(q.context, q.events, q.occurrences)
        }),
{
    lemma_paired(p);
    lemma_candidate_well_proposed(p, c);
    lemma_paired(p.with_candidate(c));
}

proof fn lemma_token_paired(
    p: Progress,
    timestamp_ms: Option<i64>,
    start_offset: u64,
    end_offset: u64,
    total: UsageValue,
    last: UsageValue,
)
    requires
        paired(p.context, p.events, p.occurrences),
    ensures
        ({
            let q = p.with_token_count(timestamp_ms, start_offset, end_offset, total, last).0;
            paired(q.context, q.events, q.occurrences)
        }),
{
    reveal(Progress::with_token_count);
    assert forall|q: Progress, c: Candidate|
        paired(q.context, q.events, q.occurrences) implies paired(
        (#[trigger] q.with_candidate(c)).context,
        q.with_candidate(c).events,
        q.with_candidate(c).occurrences,
    ) by {
        lemma_candidate_paired(q, c);
    }
}

proof fn lemma_ended_paired(
    p: Progress,
    turn_id: Option<Seq<char>>,
    timestamp_ms: Option<i64>,
    start_offset: u64,
    end_offset: u64,
    status: TurnEndStatus,
)
    requires
        paired(p.context, p.events, p.occurrences),
    ensures
        ({
            let q = p.with_ended_turn(turn_id, timestamp_ms, start_offset, end_offset, status).0;
            paired(q.context, q.events, q.occurrences)
        }),
{
    reveal(Progress::with_ended_turn);
    if let Some(open) = p.state.open_turn {
        if timestamp_ms is Some {
            let taken = p.with_open_turn(None);
            let turn = Progress::ending_turn(open, timestamp_ms);
            lemma_paired(taken);
            lemma_compensation_well_proposed(taken, turn, timestamp_ms->0, start_offset, end_offset);
            lemma_paired(taken.with_compensation(turn, timestamp_ms->0, start_offset, end_offset).0);
        }
    }
}

proof fn lemma_step_well_proposed(p: Progress, record: RecordFacts)
    requires
        well_proposed(p),
    ensures
        p.step(record) is Some ==> well_proposed(p.step(record)->0),
{
    lemma_paired(p);
    match record.body {
        RecordBody::TokenCount { timestamp_ms, start_offset, end_offset, total, last } => {
            lemma_token_paired(p, timestamp_ms, start_offset, end_offset, total, last);
        },
        RecordBody::TurnEnded { turn_id, timestamp_ms, start_offset, end_offset, status } => {
            lemma_ended_paired(p, turn_id, timestamp_ms, start_offset, end_offset, status);
        },
        RecordBody::TurnStarted { turn_id, timestamp_ms, start_offset } => {
            reveal(Progress::with_started_turn);
        },
        _ => {},
    }
    if let Some(q) = p.step(record) {
        assert(paired(q.context, q.events, q.occurrences));
        lemma_paired(q);
    }
}

/// Every result pairs its events with its occurrences: event `i` carries the digest of its
/// own facts, belongs to the owning thread, and occurrence `i` points at it from this source.
pub proof fn law_events_and_occurrences_in_step(
    context: ContextFacts,
    state: StateFacts,
    records: Seq<RecordFacts>,
)
    ensures
        ({
            let r = processed(Progress::start(context, state), records);
            well_proposed(
                Progress {
                    context,
                    state: r.updated_state,
                    events: r.events,
                    occurrences: r.occurrences,
                    anomalies: r.anomalies,
                    closed_turns: r.closed_turns,
                },
            )
        }),
{
    let p = Progress::start(context, state);
    lemma_run_well_proposed(p, records);
    lemma_run_keeps_context(p, records);
}

proof fn lemma_run_well_proposed(p: Progress, records: Seq<RecordFacts>)
    requires
        well_proposed(p),
    ensures
        p.run(records) is Some ==> well_proposed(p.run(records)->0),
    decreases records.len(),
{
    if records.len() > 0 {
        lemma_run_well_proposed(p, records.drop_last());
        if let Some(before) = p.run(records.drop_last()) {
            lemma_step_well_proposed(before, records.last());
        }
    }
}

/// `context` as seen from a copy of the file.
pub open spec fn as_copy(context: ContextFacts, source_file_id: i64, file_generation: i64) -> ContextFacts {
    ContextFacts { source_file_id, file_generation, ..context }
}

/// `p` and `q` differ in the source alone.
pub open spec fn same_but_source(p: Progress, q: Progress) -> bool {
    &&& q.context == as_copy(p.context, q.context.source_file_id, q.context.file_generation)
    &&& p.state == q.state
    &&& p.events == q.events
    &&& p.anomalies == q.anomalies
    &&& p.closed_turns == q.closed_turns
}

proof fn lemma_candidate_copy(p: Progress, q: Progress, c: Candidate)
    requires
        same_but_source(p, q),
    ensures
        same_but_source(p.with_candidate(c), q.with_candidate(c)),
{
    reveal(Progress::with_candidate);
    assert(p.candidate_event(c) == q.candidate_event(c));
}

proof fn lemma_step_copy(p: Progress, q: Progress, record: RecordFacts)
    requires
        same_but_source(p, q),
    ensures
        p.step(record) is None <==> q.step(record) is None,
        p.step(record) is Some ==> same_but_source(p.step(record)->0, q.step(record)->0),
{
    match record.body {
        RecordBody::TokenCount { timestamp_ms, start_offset, end_offset, total, last } => {
            reveal(Progress::with_token_count);
            assert forall|a: Progress, b: Progress, c: Candidate|
                same_but_source(a, b) implies #[trigger] same_but_source(
                a.with_candidate(c),
                b.with_candidate(c),
            ) by {
                lemma_candidate_copy(a, b, c);
            }
            lemma_token_copy(p, q, timestamp_ms, start_offset, end_offset, total, last);
        },
        RecordBody::TurnEnded { turn_id, timestamp_ms, start_offset, end_offset, status } => {
            reveal(Progress::with_ended_turn);
            reveal(Progress::with_compensation);
        },
        RecordBody::TurnStarted { turn_id, timestamp_ms, start_offset } => {
            reveal(Progress::with_started_turn);
        },
        _ => {},
    }
}

proof fn lemma_token_copy(
    p: Progress,
    q: Progress,
    timestamp_ms: Option<i64>,
    start_offset: u64,
    end_offset: u64,
    total: UsageValue,
    last: UsageValue,
)
    requires
        same_but_source(p, q),
    ensures
        ({
            let (a, e) = p.with_token_count(timestamp_ms, start_offset, end_offset, total, last);
            let (b, f) = q.with_token_count(timestamp_ms, start_offset, end_offset, total, last);
            same_but_source(a, b) && e == f
        }),
{
    reveal(Progress::with_token_count);
    if let UsageValue::Valid(current) = total {
        if let Some(at) = timestamp_ms {
            if let UsageValue::Valid(usage) = last {
                let previous = p.state.previous_total;
                let c = Candidate {
                    kind: EventKind::Normal,
                    occurred_at_ms: at,
                    start_offset,
                    end_offset,
                    usage,
                    previous_total: previous,
                    current_total: current,
                };
                lemma_candidate_copy(p, q, c);
                let required_reset = previous is Some && required_decreased(current, previous->0);
                let cache_reset = previous is Some && cache_decreased(current, previous->0);
                lemma_reset_copy(
                    p,
                    q,
                    required_reset,
                    cache_reset,
                    at,
                    start_offset,
                    end_offset,
                    current,
                    last,
                );
            } else if p.state.previous_total is Some {
                let c = Candidate {
                    kind: EventKind::Recovered,
                    occurred_at_ms: at,
                    start_offset,
                    end_offset,
                    usage: difference_of(current, p.state.previous_total->0),
                    previous_total: p.state.previous_total,
                    current_total: current,
                };
                lemma_candidate_copy(p, q, c);
            }
        }
    }
}

proof fn lemma_reset_copy(
    p: Progress,
    q: Progress,
    required_reset: bool,
    cache_reset: bool,
    at: i64,
    start_offset: u64,
    end_offset: u64,
    current: NormalizedTokenUsage,
    last: UsageValue,
)
    requires
        same_but_source(p, q),
        last is Valid,
    ensures
        same_but_source(
            p.with_reset(required_reset, cache_reset, at, start_offset, end_offset, current, last),
            q.with_reset(required_reset, cache_reset, at, start_offset, end_offset, current, last),
        ),
{
    let c = Candidate {
        kind: EventKind::Normal,
        occurred_at_ms: at,
        start_offset,
        end_offset,
        usage: last->Valid_0,
        previous_total: p.state.previous_total,
        current_total: current,
    };
    let a0 = if required_reset {
        p.with_anomaly(AnomalyCode::TotalChainReset, Some(start_offset))
    } else {
        p
    };
    let a1 = if cache_reset {
        a0.with_anomaly(AnomalyCode::CacheWriteChainDecrease, Some(start_offset))
    } else {
        a0
    };
    let b0 = if required_reset {
        q.with_anomaly(AnomalyCode::TotalChainReset, Some(start_offset))
    } else {
        q
    };
    let b1 = if cache_reset {
        b0.with_anomaly(AnomalyCode::CacheWriteChainDecrease, Some(start_offset))
    } else {
        b0
    };
    if let Some(turn) = p.state.open_turn {
        let t = Some(
            TurnFacts { blocks: CompensationBlocks { reset: true, ..turn.blocks }, ..turn },
        );
        lemma_candidate_copy(a1.with_open_turn(t), b1.with_open_turn(t), c);
    } else {
        lemma_candidate_copy(a1, b1, c);
    }
}

proof fn lemma_run_copy(p: Progress, q: Progress, records: Seq<RecordFacts>)
    requires
        same_but_source(p, q),
    ensures
        p.run(records) is None <==> q.run(records) is None,
        p.run(records) is Some ==> same_but_source(p.run(records)->0, q.run(records)->0),
    decreases records.len(),
{
    if records.len() > 0 {
        lemma_run_copy(p, q, records.drop_last());
        if p.run(records.drop_last()) is Some {
            lemma_step_copy(
                p.run(records.drop_last())->0,
                q.run(records.drop_last())->0,
                records.last(),
            );
        }
    }
}

/// A copy of a rollout under another file gives the same events with the same ids, the same
/// anomalies and turns, and the same state.
pub proof fn law_copies_agree(
    context: ContextFacts,
    source_file_id: i64,
    file_generation: i64,
    state: StateFacts,
    records: Seq<RecordFacts>,
)
    ensures
        ({
            let a = processed(Progress::start(context, state), records);
            let b = processed(
                Progress::start(as_copy(context, source_file_id, file_generation), state),
                records,
            );
            &&& a.needs_rebuild == b.needs_rebuild
            &&& a.updated_state == b.updated_state
            &&& a.events == b.events
            &&& a.anomalies == b.anomalies
            &&& a.closed_turns == b.closed_turns
        }),
{
    lemma_run_copy(
        Progress::start(context, state),
        Progress::start(as_copy(context, source_file_id, file_generation), state),
        records,
    );
}

/// A repeated cumulative total proposes nothing and reports nothing.
pub proof fn law_repeated_total_proposes_nothing(
    p: Progress,
    timestamp_ms: i64,
    start_offset: u64,
    end_offset: u64,
    total: NormalizedTokenUsage,
    last: UsageValue,
)
    requires
        p.state.previous_total == Some(total),
    ensures
        ({
            let (after, error) = p.with_token_count(
                Some(timestamp_ms),
                start_offset,
                end_offset,
                UsageValue::Valid(total),
                last,
            );
            &&& error is None
            &&& after == p.with_baseline(total, end_offset)
            &&& after.events == p.events
            &&& after.anomalies == p.anomalies
        }),
{
    reveal(Progress::with_token_count);
}

/// A subagent that has no context of its own yet proposes nothing, whatever totals it
/// reports; a good total becomes the baseline.
pub proof fn law_inherited_totals_only_set_the_baseline(
    p: Progress,
    timestamp_ms: Option<i64>,
    start_offset: u64,
    end_offset: u64,
    total: UsageValue,
    last: UsageValue,
)
    requires
        p.before_own_context(),
    ensures
        ({
            let (after, error) = p.with_token_count(
                timestamp_ms,
                start_offset,
                end_offset,
                total,
                last,
            );
            &&& error is None
            &&& after.events == p.events
            &&& after.anomalies == p.anomalies
            &&& total is Valid ==> after.state.previous_total == Some(total->Valid_0)
        }),
{
    reveal(Progress::with_token_count);
}

/// A turn with any block set is closed without a compensation event.
pub proof fn law_blocked_turn_is_not_compensated(
    p: Progress,
    turn_id: Option<Seq<char>>,
    timestamp_ms: Option<i64>,
    start_offset: u64,
    end_offset: u64,
    status: TurnEndStatus,
)
    requires
        p.state.open_turn is Some,
        Progress::ending_turn(p.state.open_turn->0, timestamp_ms).blocks != no_blocks(),
    ensures
        ({
            let (after, error) = p.with_ended_turn(
                turn_id,
                timestamp_ms,
                start_offset,
                end_offset,
                status,
            );
            error is None && after.events == p.events
        }),
{
    reveal(Progress::with_ended_turn);
}

/// A compensation event carries exactly what was missing: with it, the turn's events add up
/// to the growth of the total over the turn, in every required component.
pub proof fn law_compensation_completes_the_turn(
    p: Progress,
    turn: TurnFacts,
    at: i64,
    start_offset: u64,
    end_offset: u64,
)
    requires
        turn.start_total is Some,
        turn.last_total is Some,
        turn.accounted_candidate_count == 0 ==> turn.accounted == zero_usage(),
        p.with_compensation(turn, at, start_offset, end_offset).0.events.len() > p.events.len(),
    ensures
        ({
            let (after, ended, error) = p.with_compensation(turn, at, start_offset, end_offset);
            let start = turn.start_total->0;
            let end = turn.last_total->0;
            &&& error is None
            &&& after.events.len() == p.events.len() + 1
            &&& after.events.last().kind is TurnCompensation
            &&& ended.accounted.input_tokens == end.input_tokens - start.input_tokens
            &&& ended.accounted.cached_tokens == end.cached_tokens - start.cached_tokens
            &&& ended.accounted.output_tokens == end.output_tokens - start.output_tokens
            &&& ended.accounted.reasoning_tokens == end.reasoning_tokens - start.reasoning_tokens
        }),
{
    reveal(Progress::with_compensation);
    reveal(difference_error);
    reveal(sum_error);
}

/// The texts of the token faults are told apart as they are meant to be.
proof fn lemma_fault_texts()
    ensures
        processor_error(
            invalid_fault("cache_write_tokens"@, "cache-write delta must not be negative"@),
        ) is CacheWriteNegativeDifference,
        processor_error(
            invalid_fault("normalized_token_usage"@, "token delta must not be negative"@),
        ) is NegativeDifference,
        processor_error(invalid_fault("normalized_token_usage"@, "overflow"@))
            is ArithmeticOverflow,
        processor_error(invalid_fault("cached_tokens"@, "must not exceed input"@))
            is InvalidNormalizedTokenUsage,
        processor_error(invalid_fault("reasoning_tokens"@, "must not exceed output"@))
            is InvalidNormalizedTokenUsage,
        processor_error(invalid_fault("total_tokens"@, "must equal input plus output"@))
            is InvalidNormalizedTokenUsage,
        processor_error(
            invalid_fault("cache_write_tokens"@, "must fit in input beside cached"@),
        ) is InvalidNormalizedTokenUsage,
{
    reveal_strlit("cache-write delta");
    reveal_strlit("negative delta");
    reveal_strlit("delta must not be negative");
    reveal_strlit("overflow");
    let cache = "cache-write delta"@;
    let negative = "negative delta"@;
    let delta = "delta must not be negative"@;
    let overflow = "overflow"@;
    assert(occurs("cache-write delta must not be negative"@, cache)) by {
        reveal_strlit("cache-write delta must not be negative");
        assert("cache-write delta must not be negative"@.subrange(0, 17) =~= cache);
        assert(occurs_at("cache-write delta must not be negative"@, cache, 0));
    }
    let t = "token delta must not be negative"@;
    assert(!occurs(t, cache)) by {
        reveal_strlit("token delta must not be negative");
        lemma_missing_character(t, cache, 0);
    }
    assert(occurs(t, delta)) by {
        reveal_strlit("token delta must not be negative");
        assert(t.subrange(6, 32) =~= delta);
        assert(occurs_at(t, delta, 6));
    }
    assert(!occurs(overflow, cache)) by {
        lemma_missing_character(overflow, cache, 0);
    }
    assert(!occurs(overflow, negative)) by {
        lemma_missing_character(overflow, negative, 0);
    }
    assert(!occurs(overflow, delta)) by {
        lemma_missing_character(overflow, delta, 0);
    }
    assert(overflow.subrange(0, 8) =~= overflow);
    assert(occurs_at(overflow, overflow, 0));
    assert forall|s: Seq<char>|
        (s == "must not exceed input"@ || s == "must not exceed output"@ || s
            == "must equal input plus output"@ || s
            == "must fit in input beside cached"@) implies #[trigger] processor_error(
        invalid_fault(s, s),
    ) is InvalidNormalizedTokenUsage by {
        reveal_strlit("must not exceed input");
        reveal_strlit("must not exceed output");
        reveal_strlit("must equal input plus output");
        reveal_strlit("must fit in input beside cached");
        lemma_missing_character(s, cache, 5);
        lemma_missing_character(s, negative, 6);
        lemma_missing_character(s, delta, 24);
        lemma_missing_character(s, overflow, 1);
    }
    assert(processor_error(invalid_fault("must not exceed input"@, "must not exceed input"@))
        is InvalidNormalizedTokenUsage);
    assert(processor_error(invalid_fault("must not exceed output"@, "must not exceed output"@))
        is InvalidNormalizedTokenUsage);
    assert(processor_error(
        invalid_fault("must equal input plus output"@, "must equal input plus output"@),
    ) is InvalidNormalizedTokenUsage);
    assert(processor_error(
        invalid_fault("must fit in input beside cached"@, "must fit in input beside cached"@),
    ) is InvalidNormalizedTokenUsage);
}

/// How the difference of two valid totals is classified: a required component that went
/// down is a negative difference, a cache-write count that alone went down is a cache-write
/// difference, and a difference that is no valid vector itself is invalid.
pub proof fn law_difference_of_valid_totals(
    current: NormalizedTokenUsage,
    previous: NormalizedTokenUsage,
)
    requires
        current.valid(),
        previous.valid(),
    ensures
        difference_error(current, previous) == (if required_decreased(current, previous) {
            Some(ProcessorError::NegativeDifference)
        } else if cache_decreased(current, previous) {
            Some(ProcessorError::CacheWriteNegativeDifference)
        } else if difference_of(current, previous).valid() {
            None
        } else {
            Some(ProcessorError::InvalidNormalizedTokenUsage)
        }),
{
    reveal(difference_error);
    lemma_fault_texts();
}

/// Distinct token vectors have distinct fingerprint inputs.
pub proof fn law_fingerprint_input_tells_vectors_apart(
    a: NormalizedTokenUsage,
    b: NormalizedTokenUsage,
)
    requires
        fingerprint_bytes(a) == fingerprint_bytes(b),
    ensures
        a == b,
{
    let x = fingerprint_bytes(a);
    let y = fingerprint_bytes(b);
    assert(x.len() == if a.cache_write_tokens is Some {
        57int
    } else {
        49int
    });
    assert(y.len() == if b.cache_write_tokens is Some {
        57int
    } else {
        49int
    });
    lemma_be_i64_at(x, y, 8, a.input_tokens, b.input_tokens);
    lemma_be_i64_at(x, y, 16, a.cached_tokens, b.cached_tokens);
    if a.cache_write_tokens is Some {
        lemma_be_i64_at(x, y, 25, a.cache_write_tokens->0, b.cache_write_tokens->0);
        lemma_be_i64_at(x, y, 33, a.output_tokens, b.output_tokens);
        lemma_be_i64_at(x, y, 41, a.reasoning_tokens, b.reasoning_tokens);
        lemma_be_i64_at(x, y, 49, a.total_tokens, b.total_tokens);
    } else {
        lemma_be_i64_at(x, y, 25, a.output_tokens, b.output_tokens);
        lemma_be_i64_at(x, y, 33, a.reasoning_tokens, b.reasoning_tokens);
        lemma_be_i64_at(x, y, 41, a.total_tokens, b.total_tokens);
    }
}

proof fn lemma_be_i64_at(x: Seq<u8>, y: Seq<u8>, at: int, a: i64, b: i64)
    requires
        x == y,
        0 <= at,
        at + 8 <= x.len(),
        x.subrange(at, at + 8) =~= be_i64(a),
        y.subrange(at, at + 8) =~= be_i64(b),
    ensures
        a == b,
{
    lemma_be64_injective(a as u64, b as u64);
    assert(a == b) by (bit_vector)
        requires
            a as u64 == b as u64,
    ;
}

} // verus!
