//! What each record of the usage stream is counted as.
use vstd::prelude::*;

use super::usage_laws::law_batches_compose;
use super::usage_processor::{
    cache_decreased, difference_error, no_blocks, processed, required_decreased, sum_error,
    AnomalyCode, Attribution, Candidate, ChainState, CompensationBlocks, ContextFacts, EventFacts,
    Ownership, OwnershipFacts, ProcessResult, ProcessorError, Progress, RecordBody, RecordFacts,
    StateFacts, TurnFacts, TurnModelState, UsageContext, UsageRecord, UsageSourceState, UsageValue,
};
use crate::token_usage::{difference_of, sum_of, zero_usage, EventKind, NormalizedTokenUsage};

verus! {

/// `r` is what processing `records` from `state` comes to.
pub open spec fn comes_to(
    context: UsageContext,
    state: UsageSourceState,
    records: Vec<UsageRecord>,
    r: ProcessResult,
) -> bool {
    r.deep_view() == processed(
        Progress::start(context.deep_view(), state.deep_view()),
        records.deep_view(),
    )
}

/// The thread has a context of its own: it is no subagent, or its model is known.
pub open spec fn has_own_context(context: UsageContext, state: UsageSourceState) -> bool {
    context.owning_thread_id@ == context.root_session_id@ || state.active_model is Some
}

/// The record is a token count of the owning thread.
pub open spec fn is_count(
    context: UsageContext,
    record: UsageRecord,
    at: Option<i64>,
    start: u64,
    end: u64,
    whole: UsageValue,
    request: UsageValue,
) -> bool {
    &&& record matches UsageRecord::TokenCount {
        ownership,
        timestamp_ms,
        start_offset,
        end_offset,
        total,
        last,
    }
    &&& ownership matches Ownership::Owning { thread_id }
    &&& thread_id@ == context.owning_thread_id@
    &&& timestamp_ms == at
    &&& start_offset == start
    &&& end_offset == end
    &&& total == whole
    &&& last == request
}

proof fn lemma_one_record(
    context: UsageContext,
    state: UsageSourceState,
    records: Vec<UsageRecord>,
    r: ProcessResult,
)
    requires
        records@.len() == 1,
        comes_to(context, state, records, r),
    ensures
        match Progress::start(context.deep_view(), state.deep_view()).step(
            records@[0].deep_view(),
        ) {
            Some(after) => r.deep_view() == after.result(),
            None => r.needs_rebuild,
        },
        r.events@.len() == r.deep_view().events.len(),
        r.occurrences@.len() == r.deep_view().occurrences.len(),
        r.anomalies@.len() == r.deep_view().anomalies.len(),
        r.closed_turns@.len() == r.deep_view().closed_turns.len(),
        r.updated_state.deep_view() == r.deep_view().updated_state,
{
    assert(r.events.deep_view().len() == r.events@.len());
    assert(r.occurrences.deep_view().len() == r.occurrences@.len());
    assert(r.anomalies.deep_view().len() == r.anomalies@.len());
    assert(r.closed_turns.deep_view().len() == r.closed_turns@.len());
    let p = Progress::start(context.deep_view(), state.deep_view());
    let all = records.deep_view();
    assert(all.len() == 1);
    assert(all.last() == records@[0].deep_view());
    assert(all.drop_last() =~= Seq::empty());
    assert(p.run(all.drop_last()) == Some(p));
    assert(p.run(all) == p.step(all.last()));
}

/// The one event of a result stands where it was seen, belongs to the thread, to the turn that
/// is open and to the model and effort in use, and has these times and totals.
pub open spec fn one_event(
    context: UsageContext,
    state: UsageSourceState,
    r: ProcessResult,
    kind: EventKind,
    at: i64,
    start: u64,
    end: u64,
    current: NormalizedTokenUsage,
) -> bool {
    &&& !r.needs_rebuild
    &&& r.events@.len() == 1
    &&& r.occurrences@.len() == 1
    &&& r.closed_turns@.len() == 0
    &&& r.events@[0].kind == kind
    &&& r.events@[0].occurred_at_ms == at
    &&& r.events@[0].thread_id@ == context.owning_thread_id@
    &&& r.events@[0].root_session_id@ == context.root_session_id@
    &&& state.open_turn is None ==> r.events@[0].turn_key is None
    &&& state.open_turn matches Some(turn) ==> r.events@[0].turn_key is Some
        && r.events@[0].turn_key->0@ == turn.turn_key@
    &&& r.events@[0].model@ == (match state.active_model {
        Some(model) => model@,
        None => "unknown"@,
    })
    &&& r.events@[0].reasoning_effort.deep_view() == state.active_reasoning_effort.deep_view()
    &&& r.events@[0].previous_total == state.previous_total
    &&& r.events@[0].current_total == current
    &&& r.occurrences@[0].event_id@ == r.events@[0].event_id@
    &&& r.occurrences@[0].source_file_id == context.source_file_id
    &&& r.occurrences@[0].file_generation == context.file_generation
    &&& r.occurrences@[0].source_start_offset == start
    &&& r.occurrences@[0].source_end_offset == end
}

/// The total that a record reports is where the next difference is taken from, and nothing but
/// it and the open turn has changed.
pub open spec fn stands_at(
    state: UsageSourceState,
    r: ProcessResult,
    end: u64,
    current: NormalizedTokenUsage,
) -> bool {
    &&& r.updated_state.chain_state is Continuous
    &&& r.updated_state.previous_total == Some(current)
    &&& r.updated_state.previous_total_offset == Some(end)
    &&& r.updated_state.active_model.deep_view() == state.active_model.deep_view()
    &&& r.updated_state.active_reasoning_effort.deep_view()
        == state.active_reasoning_effort.deep_view()
    &&& state.open_turn is None <==> r.updated_state.open_turn is None
    &&& state.open_turn matches Some(turn) ==> {
        let after = r.updated_state.open_turn->0;
        &&& after.turn_key@ == turn.turn_key@
        &&& after.raw_turn_id.deep_view() == turn.raw_turn_id.deep_view()
        &&& after.started_at_ms == turn.started_at_ms
        &&& after.start_offset == turn.start_offset
        &&& after.start_total == turn.start_total
        &&& after.last_total == Some(current)
    }
}

/// What the open turn has accounted for grows by the counts of the event, in every component,
/// wherever the sum is a vector at all.
pub open spec fn turn_grows_by(
    state: UsageSourceState,
    r: ProcessResult,
    usage: NormalizedTokenUsage,
) -> bool {
    state.open_turn matches Some(turn) ==> {
        let after = r.updated_state.open_turn->0;
        if turn.accounted_candidate_count == 0 {
            after.accounted == usage && after.accounted_candidate_count == 1
        } else {
            sum_error(turn.accounted, usage) is None && turn.accounted_candidate_count
                < u64::MAX ==> {
                &&& after.accounted.input_tokens == turn.accounted.input_tokens
                    + usage.input_tokens
                &&& after.accounted.cached_tokens == turn.accounted.cached_tokens
                    + usage.cached_tokens
                &&& after.accounted.output_tokens == turn.accounted.output_tokens
                    + usage.output_tokens
                &&& after.accounted.reasoning_tokens == turn.accounted.reasoning_tokens
                    + usage.reasoning_tokens
                &&& after.accounted.total_tokens == turn.accounted.total_tokens
                    + usage.total_tokens
                &&& after.accounted_candidate_count == turn.accounted_candidate_count + 1
            }
        }
    }
}

proof fn lemma_sum_components(a: NormalizedTokenUsage, b: NormalizedTokenUsage)
    requires
        sum_error(a, b) is None,
    ensures
        sum_of(a, b).input_tokens == a.input_tokens + b.input_tokens,
        sum_of(a, b).cached_tokens == a.cached_tokens + b.cached_tokens,
        sum_of(a, b).output_tokens == a.output_tokens + b.output_tokens,
        sum_of(a, b).reasoning_tokens == a.reasoning_tokens
            + b.reasoning_tokens,
        sum_of(a, b).total_tokens == a.total_tokens + b.total_tokens,
{
    reveal(sum_error);
}

/// `q` is `p` with the event of a candidate, which the open turn accounts for.
spec fn takes(p: Progress, c: Candidate, q: Progress) -> bool {
    &&& q.context == p.context
    &&& q.events == p.events.push(p.candidate_event(c))
    &&& q.occurrences.len() == p.occurrences.len() + 1
    &&& q.occurrences.last().event_id == p.candidate_event(c).event_id
    &&& q.occurrences.last().source_file_id == p.context.source_file_id
    &&& q.occurrences.last().file_generation == p.context.file_generation
    &&& q.occurrences.last().source_start_offset == c.start_offset
    &&& q.occurrences.last().source_end_offset == c.end_offset
    &&& q.closed_turns == p.closed_turns
    &&& q.anomalies.len() >= p.anomalies.len()
    &&& forall|i: int|
        0 <= i < p.anomalies.len() ==> #[trigger] q.anomalies[i] == p.anomalies[i]
    &&& p.state.open_turn is None ==> q.anomalies == p.anomalies
    &&& q.state.chain_state == p.state.chain_state
    &&& q.state.previous_total == p.state.previous_total
    &&& q.state.active_model == p.state.active_model
    &&& q.state.active_reasoning_effort == p.state.active_reasoning_effort
    &&& p.state.open_turn is None <==> q.state.open_turn is None
    &&& p.state.open_turn matches Some(turn) ==> turn_takes(turn, c.usage, q.state.open_turn->0)
}

spec fn turn_takes(turn: TurnFacts, usage: NormalizedTokenUsage, after: TurnFacts) -> bool {
    &&& after.turn_key == turn.turn_key
    &&& after.raw_turn_id == turn.raw_turn_id
    &&& after.started_at_ms == turn.started_at_ms
    &&& after.start_offset == turn.start_offset
    &&& after.start_total == turn.start_total
    &&& after.blocks.reset == turn.blocks.reset
    &&& turn.accounted_candidate_count == 0 ==> after.accounted == usage
        && after.accounted_candidate_count == 1
    &&& turn.accounted_candidate_count > 0 && sum_error(turn.accounted, usage) is None
        && turn.accounted_candidate_count < u64::MAX ==> {
        &&& after.accounted.input_tokens == turn.accounted.input_tokens + usage.input_tokens
        &&& after.accounted.cached_tokens == turn.accounted.cached_tokens + usage.cached_tokens
        &&& after.accounted.output_tokens == turn.accounted.output_tokens + usage.output_tokens
        &&& after.accounted.reasoning_tokens == turn.accounted.reasoning_tokens
            + usage.reasoning_tokens
        &&& after.accounted.total_tokens == turn.accounted.total_tokens + usage.total_tokens
        &&& after.accounted_candidate_count == turn.accounted_candidate_count + 1
    }
}

proof fn lemma_takes(p: Progress, c: Candidate)
    ensures
        takes(p, c, p.with_candidate(c)),
{
    reveal(Progress::with_candidate);
    if let Some(turn) = p.state.open_turn {
        if sum_error(turn.accounted, c.usage) is None {
            lemma_sum_components(turn.accounted, c.usage);
        }
    }
}

/// Some count that every total has is lower than before.
pub open spec fn went_down(before: NormalizedTokenUsage, current: NormalizedTokenUsage) -> bool {
    ||| current.input_tokens < before.input_tokens
    ||| current.cached_tokens < before.cached_tokens
    ||| current.output_tokens < before.output_tokens
    ||| current.reasoning_tokens < before.reasoning_tokens
}

/// From where a request is counted: the state as it was, but for what is noted of a total that
/// went down.
spec fn counted_from(p: Progress, current: NormalizedTokenUsage, start: u64, q: Progress) -> bool {
    &&& q.context == p.context
    &&& q.events == p.events
    &&& q.occurrences == p.occurrences
    &&& q.closed_turns == p.closed_turns
    &&& q.state.chain_state == p.state.chain_state
    &&& q.state.previous_total == p.state.previous_total
    &&& q.state.active_model == p.state.active_model
    &&& q.state.active_reasoning_effort == p.state.active_reasoning_effort
    &&& p.state.open_turn is None <==> q.state.open_turn is None
    &&& p.state.open_turn matches Some(turn) ==> {
        &&& q.state.open_turn->0.turn_key == turn.turn_key
        &&& q.state.open_turn->0.raw_turn_id == turn.raw_turn_id
        &&& q.state.open_turn->0.started_at_ms == turn.started_at_ms
        &&& q.state.open_turn->0.start_offset == turn.start_offset
        &&& q.state.open_turn->0.start_total == turn.start_total
        &&& q.state.open_turn->0.accounted == turn.accounted
        &&& q.state.open_turn->0.accounted_candidate_count == turn.accounted_candidate_count
    }
    &&& p.state.previous_total is Some && went_down(p.state.previous_total->0, current) ==> {
        &&& q.anomalies.len() > p.anomalies.len()
        &&& q.anomalies[p.anomalies.len() as int].code is TotalChainReset
        &&& q.anomalies[p.anomalies.len() as int].source_start_offset == Some(start)
        &&& q.state.open_turn is Some ==> q.state.open_turn->0.blocks.reset
    }
}

proof fn lemma_reported(
    p: Progress,
    at: i64,
    start: u64,
    end: u64,
    current: NormalizedTokenUsage,
    usage: NormalizedTokenUsage,
) -> (r: (Progress, Candidate))
    requires
        !p.before_own_context(),
        p.state.chain_state is Continuous,
        p.state.previous_total != Some(current),
    ensures
        counted_from(p, current, start, r.0),
        r.1 == (Candidate {
            kind: EventKind::Normal,
            occurred_at_ms: at,
            start_offset: start,
            end_offset: end,
            usage,
            previous_total: p.state.previous_total,
            current_total: current,
        }),
        p.with_token_count(
            Some(at),
            start,
            end,
            UsageValue::Valid(current),
            UsageValue::Valid(usage),
        ) == (r.0.with_candidate(r.1).with_baseline(current, end), None::<ProcessorError>),
{
    reveal(Progress::with_token_count);
    let c = Candidate {
        kind: EventKind::Normal,
        occurred_at_ms: at,
        start_offset: start,
        end_offset: end,
        usage,
        previous_total: p.state.previous_total,
        current_total: current,
    };
    let before = p.state.previous_total;
    let required = before is Some && required_decreased(current, before->0);
    let cache = before is Some && cache_decreased(current, before->0);
    if required || cache {
        let a = if required {
            p.with_anomaly(AnomalyCode::TotalChainReset, Some(start))
        } else {
            p
        };
        let b = if cache {
            a.with_anomaly(AnomalyCode::CacheWriteChainDecrease, Some(start))
        } else {
            a
        };
        let q = match b.state.open_turn {
            Some(turn) => b.with_open_turn(
                Some(
                    TurnFacts {
                        blocks: CompensationBlocks { reset: true, ..turn.blocks },
                        ..turn
                    },
                ),
            ),
            None => b,
        };
        (q, c)
    } else {
        (p, c)
    }
}

/// A request that reports its own counts is counted by exactly these, whatever the totals are
/// and whether or not a turn is open.
pub proof fn law_requests_are_counted_as_reported(
    context: UsageContext,
    state: UsageSourceState,
    records: Vec<UsageRecord>,
    r: ProcessResult,
    at: i64,
    start: u64,
    end: u64,
    current: NormalizedTokenUsage,
    usage: NormalizedTokenUsage,
)
    requires
        comes_to(context, state, records, r),
        records@.len() == 1,
        is_count(
            context,
            records@[0],
            Some(at),
            start,
            end,
            UsageValue::Valid(current),
            UsageValue::Valid(usage),
        ),
        has_own_context(context, state),
        state.chain_state is Continuous,
        state.previous_total != Some(current),
    ensures
        one_event(context, state, r, EventKind::Normal, at, start, end, current),
        r.events@[0].usage == usage,
        stands_at(state, r, end, current),
        turn_grows_by(state, r, usage),
{
    lemma_one_record(context, state, records, r);
    let p = Progress::start(context.deep_view(), state.deep_view());
    let (q, c) = lemma_reported(p, at, start, end, current, usage);
    lemma_takes(q, c);
    assert(r.events.deep_view()[0] == r.events@[0].deep_view());
    assert(r.occurrences.deep_view()[0] == r.occurrences@[0].deep_view());
}

/// `usage` is what `current` has beyond `before`, component by component. How much was written
/// to the cache is known only where both totals say it.
pub open spec fn is_growth(
    before: NormalizedTokenUsage,
    current: NormalizedTokenUsage,
    usage: NormalizedTokenUsage,
) -> bool {
    &&& usage.input_tokens == current.input_tokens - before.input_tokens
    &&& usage.cached_tokens == current.cached_tokens - before.cached_tokens
    &&& usage.output_tokens == current.output_tokens - before.output_tokens
    &&& usage.reasoning_tokens == current.reasoning_tokens - before.reasoning_tokens
    &&& usage.total_tokens == current.total_tokens - before.total_tokens
    &&& before.cache_write_tokens is Some && current.cache_write_tokens is Some
        ==> usage.cache_write_tokens is Some && usage.cache_write_tokens->0
        == current.cache_write_tokens->0 - before.cache_write_tokens->0
    &&& before.cache_write_tokens is None || current.cache_write_tokens is None
        ==> usage.cache_write_tokens is None
}

/// No component of the total has gone down, and what it grew by is a vector of counts: the
/// cached part of the input and the reasoning part of the output have not outgrown the whole.
pub open spec fn grows(before: NormalizedTokenUsage, current: NormalizedTokenUsage) -> bool {
    &&& before.valid()
    &&& current.valid()
    &&& before.input_tokens <= current.input_tokens
    &&& before.cached_tokens <= current.cached_tokens
    &&& before.output_tokens <= current.output_tokens
    &&& before.reasoning_tokens <= current.reasoning_tokens
    &&& before.cache_write_tokens is Some && current.cache_write_tokens is Some
        ==> before.cache_write_tokens->0 <= current.cache_write_tokens->0 && (
    current.cached_tokens - before.cached_tokens) + (current.cache_write_tokens->0
        - before.cache_write_tokens->0) <= current.input_tokens - before.input_tokens
    &&& current.cached_tokens - before.cached_tokens <= current.input_tokens - before.input_tokens
    &&& current.reasoning_tokens - before.reasoning_tokens <= current.output_tokens
        - before.output_tokens
}

spec fn recovery(p: Progress, at: i64, start: u64, end: u64, current: NormalizedTokenUsage) -> Candidate {
    Candidate {
        kind: EventKind::Recovered,
        occurred_at_ms: at,
        start_offset: start,
        end_offset: end,
        usage: difference_of(current, p.state.previous_total->0),
        previous_total: p.state.previous_total,
        current_total: current,
    }
}

proof fn lemma_recovered(p: Progress, at: i64, start: u64, end: u64, current: NormalizedTokenUsage)
    requires
        !p.before_own_context(),
        p.state.chain_state is Continuous,
        p.state.previous_total is Some,
        p.state.previous_total != Some(current),
        grows(p.state.previous_total->0, current),
    ensures
        is_growth(
            p.state.previous_total->0,
            current,
            difference_of(current, p.state.previous_total->0),
        ),
        p.with_token_count(
            Some(at),
            start,
            end,
            UsageValue::Valid(current),
            UsageValue::Missing,
        ) == (
            p.with_candidate(recovery(p, at, start, end, current)).with_baseline(current, end),
            None::<ProcessorError>,
        ),
{
    reveal(Progress::with_token_count);
    reveal(difference_error);
}

/// A request that does not report its own counts is counted by what the total grew by.
pub proof fn law_unreported_requests_are_recovered(
    context: UsageContext,
    state: UsageSourceState,
    records: Vec<UsageRecord>,
    r: ProcessResult,
    at: i64,
    start: u64,
    end: u64,
    current: NormalizedTokenUsage,
)
    requires
        comes_to(context, state, records, r),
        records@.len() == 1,
        is_count(
            context,
            records@[0],
            Some(at),
            start,
            end,
            UsageValue::Valid(current),
            UsageValue::Missing,
        ),
        has_own_context(context, state),
        state.chain_state is Continuous,
        state.previous_total is Some,
        state.previous_total != Some(current),
        grows(state.previous_total->0, current),
    ensures
        one_event(context, state, r, EventKind::Recovered, at, start, end, current),
        is_growth(state.previous_total->0, current, r.events@[0].usage),
        stands_at(state, r, end, current),
        turn_grows_by(state, r, r.events@[0].usage),
        state.open_turn is None ==> r.anomalies@.len() == 0,
{
    lemma_one_record(context, state, records, r);
    let p = Progress::start(context.deep_view(), state.deep_view());
    lemma_recovered(p, at, start, end, current);
    lemma_takes(p, recovery(p, at, start, end, current));
    assert(r.events.deep_view()[0] == r.events@[0].deep_view());
    assert(r.occurrences.deep_view()[0] == r.occurrences@[0].deep_view());
}

/// Nothing is counted: neither an event nor a place for one, and no turn ends.
pub open spec fn counts_nothing(r: ProcessResult) -> bool {
    !r.needs_rebuild && r.events@.len() == 0 && r.occurrences@.len() == 0 && r.closed_turns@.len()
        == 0
}

/// The remarks on a record are these, made of the place where it starts and of the open turn.
pub open spec fn remarks(
    state: UsageSourceState,
    r: ProcessResult,
    start: u64,
    codes: Seq<AnomalyCode>,
) -> bool {
    &&& r.anomalies@.len() == codes.len()
    &&& forall|i: int|
        0 <= i < codes.len() ==> {
            &&& (#[trigger] r.anomalies@[i]).code == codes[i]
            &&& r.anomalies@[i].source_start_offset == Some(start)
            &&& state.open_turn is None ==> r.anomalies@[i].turn_key is None
            &&& state.open_turn is Some ==> r.anomalies@[i].turn_key is Some
                && r.anomalies@[i].turn_key->0@ == state.open_turn->0.turn_key@
        }
}

/// The first total that is known, without counts of its own, is where counting begins.
pub proof fn law_counting_begins_at_the_first_total(
    context: UsageContext,
    state: UsageSourceState,
    records: Vec<UsageRecord>,
    r: ProcessResult,
    at: i64,
    start: u64,
    end: u64,
    current: NormalizedTokenUsage,
)
    requires
        comes_to(context, state, records, r),
        records@.len() == 1,
        is_count(
            context,
            records@[0],
            Some(at),
            start,
            end,
            UsageValue::Valid(current),
            UsageValue::Missing,
        ),
        has_own_context(context, state),
        state.chain_state is Continuous,
        state.previous_total is None,
    ensures
        counts_nothing(r),
        r.anomalies@.len() == 0,
        stands_at(state, r, end, current),
{
    lemma_one_record(context, state, records, r);
    reveal(Progress::with_token_count);
}

/// After a gap the next total counts nothing: it is where counting begins anew.
pub proof fn law_counting_begins_anew_after_a_gap(
    context: UsageContext,
    state: UsageSourceState,
    records: Vec<UsageRecord>,
    r: ProcessResult,
    at: i64,
    start: u64,
    end: u64,
    current: NormalizedTokenUsage,
    request: UsageValue,
)
    requires
        comes_to(context, state, records, r),
        records@.len() == 1,
        is_count(
            context,
            records@[0],
            Some(at),
            start,
            end,
            UsageValue::Valid(current),
            request,
        ),
        has_own_context(context, state),
        state.chain_state is Interrupted,
    ensures
        counts_nothing(r),
        r.anomalies@.len() == 0,
        stands_at(state, r, end, current),
{
    lemma_one_record(context, state, records, r);
    reveal(Progress::with_token_count);
}

/// A request whose counts are of no use is not counted, and is remarked on.
pub proof fn law_unusable_requests_are_not_counted(
    context: UsageContext,
    state: UsageSourceState,
    records: Vec<UsageRecord>,
    r: ProcessResult,
    at: i64,
    start: u64,
    end: u64,
    current: NormalizedTokenUsage,
)
    requires
        comes_to(context, state, records, r),
        records@.len() == 1,
        is_count(
            context,
            records@[0],
            Some(at),
            start,
            end,
            UsageValue::Valid(current),
            UsageValue::Invalid,
        ),
        has_own_context(context, state),
        state.chain_state is Continuous,
        state.previous_total matches Some(before) ==> grows(before, current) && before != current,
    ensures
        counts_nothing(r),
        remarks(state, r, start, seq![AnomalyCode::LastUsageInvalid]),
        stands_at(state, r, end, current),
        state.open_turn is Some ==> r.updated_state.open_turn->0.blocks.required_invalid,
{
    lemma_one_record(context, state, records, r);
    reveal(Progress::with_token_count);
    assert(r.anomalies.deep_view()[0] == r.anomalies@[0].deep_view());
}

/// A total that is of no use counts nothing, is remarked on, and interrupts the chain.
pub proof fn law_unusable_totals_interrupt_the_chain(
    context: UsageContext,
    state: UsageSourceState,
    records: Vec<UsageRecord>,
    r: ProcessResult,
    at: Option<i64>,
    start: u64,
    end: u64,
    whole: UsageValue,
    request: UsageValue,
)
    requires
        comes_to(context, state, records, r),
        records@.len() == 1,
        is_count(context, records@[0], at, start, end, whole, request),
        !(whole is Valid),
        has_own_context(context, state),
    ensures
        counts_nothing(r),
        remarks(state, r, start, seq![AnomalyCode::RequiredTotalInvalid]),
        r.updated_state.chain_state is Interrupted,
        r.updated_state.previous_total == state.previous_total,
        state.open_turn is Some ==> r.updated_state.open_turn is Some
            && r.updated_state.open_turn->0.blocks.required_invalid,
{
    lemma_one_record(context, state, records, r);
    reveal(Progress::with_token_count);
    assert(r.anomalies.deep_view()[0] == r.anomalies@[0].deep_view());
}

/// A total without a time counts nothing and is remarked on; the next difference is still
/// taken from it.
pub proof fn law_totals_without_a_time_are_not_counted(
    context: UsageContext,
    state: UsageSourceState,
    records: Vec<UsageRecord>,
    r: ProcessResult,
    start: u64,
    end: u64,
    current: NormalizedTokenUsage,
    request: UsageValue,
)
    requires
        comes_to(context, state, records, r),
        records@.len() == 1,
        is_count(context, records@[0], None, start, end, UsageValue::Valid(current), request),
        has_own_context(context, state),
    ensures
        counts_nothing(r),
        remarks(
            state,
            r,
            start,
            if request is Invalid {
                seq![AnomalyCode::UsageTimeMissing, AnomalyCode::LastUsageInvalid]
            } else {
                seq![AnomalyCode::UsageTimeMissing]
            },
        ),
        stands_at(state, r, end, current),
        state.open_turn is Some ==> r.updated_state.open_turn->0.blocks.time_missing,
{
    lemma_one_record(context, state, records, r);
    reveal(Progress::with_token_count);
    assert(r.anomalies.deep_view()[0] == r.anomalies@[0].deep_view());
    if request is Invalid {
        assert(r.anomalies.deep_view()[1] == r.anomalies@[1].deep_view());
    }
}

/// A total that went down is remarked on and bars the open turn from compensation. Only a
/// request that reports its own counts is still counted.
pub proof fn law_totals_that_go_down_are_remarked(
    context: UsageContext,
    state: UsageSourceState,
    records: Vec<UsageRecord>,
    r: ProcessResult,
    at: i64,
    start: u64,
    end: u64,
    current: NormalizedTokenUsage,
    request: UsageValue,
)
    requires
        comes_to(context, state, records, r),
        records@.len() == 1,
        is_count(
            context,
            records@[0],
            Some(at),
            start,
            end,
            UsageValue::Valid(current),
            request,
        ),
        has_own_context(context, state),
        state.chain_state is Continuous,
        state.previous_total is Some && went_down(state.previous_total->0, current),
    ensures
        !r.needs_rebuild,
        request is Valid <==> r.events@.len() > 0,
        r.anomalies@.len() > 0,
        r.anomalies@[0].code is TotalChainReset,
        r.anomalies@[0].source_start_offset == Some(start),
        stands_at(state, r, end, current),
        state.open_turn is Some ==> r.updated_state.open_turn->0.blocks.reset,
{
    lemma_one_record(context, state, records, r);
    let p = Progress::start(context.deep_view(), state.deep_view());
    if let UsageValue::Valid(usage) = request {
        let (q, c) = lemma_reported(p, at, start, end, current, usage);
        lemma_takes(q, c);
    } else {
        reveal(Progress::with_token_count);
    }
    assert(r.anomalies.deep_view()[0] == r.anomalies@[0].deep_view());
}

/// A context sets the model, where it names one, and the effort, named or not; it counts
/// nothing and leaves all else as it was.
pub proof fn law_contexts_set_model_and_effort(
    context: UsageContext,
    state: UsageSourceState,
    records: Vec<UsageRecord>,
    r: ProcessResult,
)
    requires
        comes_to(context, state, records, r),
        records@.len() == 1,
        records@[0] matches UsageRecord::TurnContext { ownership, .. } && ownership matches
            Ownership::Owning { thread_id } && thread_id@ == context.owning_thread_id@,
    ensures
        ({
            let model = records@[0]->TurnContext_model;
            let effort = records@[0]->TurnContext_reasoning_effort;
            &&& counts_nothing(r)
            &&& r.anomalies@.len() == 0
            &&& model is None ==> r.updated_state.active_model.deep_view()
                == state.active_model.deep_view()
            &&& model matches Some(name) ==> {
                if exists|i: int|
                    0 <= i < name@.len() && !crate::text::is_whitespace_char(
                        #[trigger] name@[i],
                    ) {
                    r.updated_state.active_model is Some && r.updated_state.active_model->0@
                        == name@
                } else {
                    r.updated_state.active_model.deep_view() == state.active_model.deep_view()
                }
            }
            &&& r.updated_state.active_reasoning_effort.deep_view() == effort.deep_view()
            &&& r.updated_state.chain_state == state.chain_state
            &&& r.updated_state.previous_total == state.previous_total
            &&& r.updated_state.previous_total_offset == state.previous_total_offset
            &&& r.updated_state.open_turn.deep_view() == state.open_turn.deep_view()
        }),
{
    lemma_one_record(context, state, records, r);
}

/// A turn opens with the total that counting stands at, and with nothing accounted for. A turn
/// that was still open is closed as aborted, where the new one starts.
pub proof fn law_turns_open_at_the_standing_total(
    context: UsageContext,
    state: UsageSourceState,
    records: Vec<UsageRecord>,
    r: ProcessResult,
)
    requires
        comes_to(context, state, records, r),
        records@.len() == 1,
        records@[0] matches UsageRecord::TurnStarted { ownership, .. } && ownership matches
            Ownership::Owning { thread_id } && thread_id@ == context.owning_thread_id@,
    ensures
        ({
            let id = records@[0]->TurnStarted_turn_id;
            let at = records@[0]->TurnStarted_timestamp_ms;
            let start = records@[0]->TurnStarted_start_offset;
            let turn = r.updated_state.open_turn->0;
            &&& !r.needs_rebuild
            &&& r.events@.len() == 0
            &&& r.updated_state.open_turn is Some
            &&& id matches Some(id) ==> turn.turn_key@ == id@
            &&& turn.raw_turn_id.deep_view() == id.deep_view()
            &&& turn.started_at_ms == at
            &&& turn.start_offset == start
            &&& state.chain_state is Continuous ==> turn.start_total == state.previous_total
            &&& state.chain_state is Interrupted ==> turn.start_total is None
            &&& turn.last_total is None
            &&& turn.accounted.input_tokens == 0
            &&& turn.accounted.cached_tokens == 0
            &&& turn.accounted.output_tokens == 0
            &&& turn.accounted.reasoning_tokens == 0
            &&& turn.accounted.total_tokens == 0
            &&& turn.accounted_candidate_count == 0
            &&& turn.blocks.start_missing <==> turn.start_total is None
            &&& turn.blocks.time_missing <==> at is None
            &&& !turn.blocks.reset
            &&& !turn.blocks.model_unresolved
            &&& state.chain_state is Continuous ==> !turn.blocks.parser_gap
                && !turn.blocks.required_invalid && !turn.blocks.ownership_gap
            &&& state.open_turn is None ==> r.closed_turns@.len() == 0 && r.anomalies@.len() == 0
            &&& state.open_turn matches Some(old_turn) ==> {
                &&& r.closed_turns@.len() == 1
                &&& r.closed_turns@[0].turn.turn_key@ == old_turn.turn_key@
                &&& r.closed_turns@[0].turn.accounted == old_turn.accounted
                &&& r.closed_turns@[0].turn.blocks.required_invalid
                &&& r.closed_turns@[0].ended_at_ms == at
                &&& r.closed_turns@[0].end_offset == start
                &&& r.closed_turns@[0].status is Aborted
                &&& r.anomalies@.len() == 1
                &&& r.anomalies@[0].code is TurnReplaced
            }
            &&& r.updated_state.previous_total == state.previous_total
            &&& r.updated_state.chain_state == state.chain_state
            &&& r.updated_state.active_model.deep_view() == state.active_model.deep_view()
            &&& r.updated_state.active_reasoning_effort.deep_view()
                == state.active_reasoning_effort.deep_view()
        }),
{
    lemma_one_record(context, state, records, r);
    reveal(Progress::with_started_turn);
    if state.open_turn is Some {
        assert(r.closed_turns.deep_view()[0] == r.closed_turns@[0].deep_view());
        assert(r.anomalies.deep_view()[0] == r.anomalies@[0].deep_view());
    }
}

/// The end of a turn closes the open turn, with the time, place and status of the record. The
/// end of another turn closes nothing and is remarked on.
pub proof fn law_ends_close_the_open_turn(
    context: UsageContext,
    state: UsageSourceState,
    records: Vec<UsageRecord>,
    r: ProcessResult,
)
    requires
        comes_to(context, state, records, r),
        records@.len() == 1,
        records@[0] matches UsageRecord::TurnEnded { ownership, .. } && ownership matches
            Ownership::Owning { thread_id } && thread_id@ == context.owning_thread_id@,
    ensures
        ({
            let id = records@[0]->TurnEnded_turn_id;
            let at = records@[0]->TurnEnded_timestamp_ms;
            let end = records@[0]->TurnEnded_end_offset;
            let status = records@[0]->TurnEnded_status;
            &&& !r.needs_rebuild
            &&& r.updated_state.previous_total == state.previous_total
            &&& r.updated_state.chain_state == state.chain_state
            &&& r.updated_state.active_model.deep_view() == state.active_model.deep_view()
            &&& state.open_turn is None ==> counts_nothing(r) && r.anomalies@.len() == 0
            &&& state.open_turn matches Some(open) ==> {
                if id is Some && open.raw_turn_id.deep_view() != id.deep_view() {
                    &&& counts_nothing(r)
                    &&& r.anomalies@.len() == 1
                    &&& r.anomalies@[0].code is TurnIdMismatch
                    &&& r.updated_state.open_turn.deep_view() == state.open_turn.deep_view()
                } else {
                    &&& r.updated_state.open_turn is None
                    &&& r.anomalies@.len() == 0 ==> r.closed_turns@.len() == 1
                    &&& r.closed_turns@.len() > 0 ==> {
                        let closed = r.closed_turns@[0];
                        &&& closed.turn.turn_key@ == open.turn_key@
                        &&& closed.turn.raw_turn_id.deep_view() == open.raw_turn_id.deep_view()
                        &&& closed.turn.started_at_ms == open.started_at_ms
                        &&& closed.turn.start_offset == open.start_offset
                        &&& closed.turn.start_total == open.start_total
                        &&& closed.turn.last_total == open.last_total
                        &&& closed.ended_at_ms == at
                        &&& closed.end_offset == end
                        &&& closed.status == status
                    }
                }
            }
        }),
{
    lemma_one_record(context, state, records, r);
    reveal(Progress::with_ended_turn);
    reveal(Progress::with_compensation);
    if r.closed_turns@.len() > 0 {
        assert(r.closed_turns.deep_view()[0] == r.closed_turns@[0].deep_view());
    }
    if r.anomalies@.len() > 0 {
        assert(r.anomalies.deep_view()[0] == r.anomalies@[0].deep_view());
    }
}

/// What the end of a turn adds is what its events leave of the growth of the total: it is dated
/// by the end, belongs to the turn, and is attributed to the model and the effort of the turn,
/// as far as it had only one. Nothing is added to a turn that something bars, whose end has no
/// time, or whose events leave nothing.
pub proof fn law_ends_add_what_is_missing(
    context: UsageContext,
    state: UsageSourceState,
    records: Vec<UsageRecord>,
    r: ProcessResult,
)
    requires
        comes_to(context, state, records, r),
        records@.len() == 1,
        records@[0] matches UsageRecord::TurnEnded { ownership, .. } && ownership matches
            Ownership::Owning { thread_id } && thread_id@ == context.owning_thread_id@,
        state.open_turn is Some,
    ensures
        r.events@.len() <= 1,
        r.occurrences@.len() == r.events@.len(),
        r.events@.len() == 1 ==> {
            let open = state.open_turn->0;
            let event = r.events@[0];
            let from = open.start_total->0;
            let to = open.last_total->0;
            &&& open.start_total is Some
            &&& open.last_total is Some
            &&& records@[0]->TurnEnded_timestamp_ms == Some(event.occurred_at_ms)
            &&& event.kind is TurnCompensation
            &&& event.thread_id@ == context.owning_thread_id@
            &&& event.root_session_id@ == context.root_session_id@
            &&& event.turn_key is Some
            &&& event.turn_key->0@ == open.turn_key@
            &&& open.model_state matches TurnModelState::Single(model) ==> event.model@ == model@
            &&& open.model_state is Mixed ==> event.model@ == "unknown"@
            &&& !(open.model_state is Unseen)
            &&& !open.unresolved_reasoning_effort_seen && open.reasoning_effort_state is Single
                ==> event.reasoning_effort is Some && event.reasoning_effort->0@
                == open.reasoning_effort_state->Single_0@
            &&& open.unresolved_reasoning_effort_seen || open.reasoning_effort_state is Mixed
                ==> event.reasoning_effort is None
            &&& event.previous_total == open.start_total
            &&& event.current_total == to
            &&& event.usage.input_tokens == to.input_tokens - from.input_tokens
                - open.accounted.input_tokens
            &&& event.usage.cached_tokens == to.cached_tokens - from.cached_tokens
                - open.accounted.cached_tokens
            &&& event.usage.output_tokens == to.output_tokens - from.output_tokens
                - open.accounted.output_tokens
            &&& event.usage.reasoning_tokens == to.reasoning_tokens - from.reasoning_tokens
                - open.accounted.reasoning_tokens
            &&& !open.unresolved_model_seen
            &&& !open.blocks.start_missing && !open.blocks.time_missing && !open.blocks.reset
                && !open.blocks.ownership_gap && !open.blocks.parser_gap
                && !open.blocks.required_invalid && !open.blocks.model_unresolved
            &&& r.occurrences@[0].event_id@ == event.event_id@
            &&& r.occurrences@[0].source_start_offset == records@[0]->TurnEnded_start_offset
            &&& r.occurrences@[0].source_end_offset == records@[0]->TurnEnded_end_offset
        },
{
    lemma_one_record(context, state, records, r);
    let p = Progress::start(context.deep_view(), state.deep_view());
    let open = state.open_turn->0;
    assert(p.state.open_turn == Some(open.deep_view()));
    reveal(Progress::with_ended_turn);
    let at = records@[0]->TurnEnded_timestamp_ms;
    let turn = Progress::ending_turn(open.deep_view(), at);
    if turn.start_total is Some && turn.last_total is Some && at is Some {
        lemma_compensation(
            p.with_open_turn(None),
            turn,
            at->0,
            records@[0]->TurnEnded_start_offset,
            records@[0]->TurnEnded_end_offset,
        );
    }
    if r.events@.len() > 0 {
        assert(r.events.deep_view()[0] == r.events@[0].deep_view());
        assert(r.occurrences.deep_view()[0] == r.occurrences@[0].deep_view());
    }
}

proof fn lemma_compensation(p: Progress, turn: TurnFacts, at: i64, start: u64, end: u64)
    requires
        turn.start_total is Some,
        turn.last_total is Some,
    ensures
        ({
            let (after, ended, error) = p.with_compensation(turn, at, start, end);
            let missing = difference_of(
                difference_of(turn.last_total->0, turn.start_total->0),
                turn.accounted,
            );
            let event = after.events.last();
            &&& after.events == p.events && after.occurrences == p.occurrences || {
                &&& error is None
                &&& after.events == p.events.push(event)
                &&& after.occurrences.len() == p.occurrences.len() + 1
                &&& after.occurrences.last().event_id == event.event_id
                &&& after.occurrences.last().source_start_offset == start
                &&& after.occurrences.last().source_end_offset == end
                &&& event == p.compensation_event(
                    turn,
                    missing,
                    Progress::compensation_model(turn)->0,
                    at,
                )
                &&& Progress::compensation_model(turn) is Some
                &&& missing.input_tokens == turn.last_total->0.input_tokens
                    - turn.start_total->0.input_tokens - turn.accounted.input_tokens
                &&& missing.cached_tokens == turn.last_total->0.cached_tokens
                    - turn.start_total->0.cached_tokens - turn.accounted.cached_tokens
                &&& missing.output_tokens == turn.last_total->0.output_tokens
                    - turn.start_total->0.output_tokens - turn.accounted.output_tokens
                &&& missing.reasoning_tokens == turn.last_total->0.reasoning_tokens
                    - turn.start_total->0.reasoning_tokens - turn.accounted.reasoning_tokens
            }
        }),
{
    reveal(Progress::with_compensation);
    let from = turn.start_total->0;
    let to = turn.last_total->0;
    if difference_error(to, from) is None {
        lemma_difference_components(to, from);
        if difference_error(difference_of(to, from), turn.accounted) is None {
            lemma_difference_components(difference_of(to, from), turn.accounted);
        }
    }
}

/// A gap counts nothing and interrupts the chain, and the open turn knows of it.
pub proof fn law_gaps_interrupt_the_chain(
    context: UsageContext,
    state: UsageSourceState,
    records: Vec<UsageRecord>,
    r: ProcessResult,
)
    requires
        comes_to(context, state, records, r),
        records@.len() == 1,
        records@[0] matches UsageRecord::Gap { ownership, .. } && ownership matches
            Ownership::Owning { thread_id } && thread_id@ == context.owning_thread_id@,
    ensures
        counts_nothing(r),
        r.anomalies@.len() == 0,
        r.updated_state.chain_state == ChainState::Interrupted(records@[0]->Gap_kind),
        r.updated_state.previous_total == state.previous_total,
        state.open_turn is Some ==> r.updated_state.open_turn is Some && {
            let blocks = r.updated_state.open_turn->0.blocks;
            blocks.parser_gap || blocks.ownership_gap || blocks.required_invalid
        },
{
    lemma_one_record(context, state, records, r);
}

/// The sum of one count over events.
pub open spec fn sum_over(events: Seq<EventFacts>, count: spec_fn(NormalizedTokenUsage) -> int) -> int
    decreases events.len(),
{
    if events.len() == 0 {
        0
    } else {
        sum_over(events.drop_last(), count) + count(events.last().usage)
    }
}

pub open spec fn input_count() -> spec_fn(NormalizedTokenUsage) -> int {
    |usage: NormalizedTokenUsage| usage.input_tokens as int
}

pub open spec fn cached_count() -> spec_fn(NormalizedTokenUsage) -> int {
    |usage: NormalizedTokenUsage| usage.cached_tokens as int
}

pub open spec fn output_count() -> spec_fn(NormalizedTokenUsage) -> int {
    |usage: NormalizedTokenUsage| usage.output_tokens as int
}

pub open spec fn reasoning_count() -> spec_fn(NormalizedTokenUsage) -> int {
    |usage: NormalizedTokenUsage| usage.reasoning_tokens as int
}

/// What an open turn has accounted for is the sum of the events since it opened.
#[verifier::opaque]
spec fn accounts(q: Progress, key: Seq<char>, start_total: Option<NormalizedTokenUsage>) -> bool {
    q.anomalies.len() == 0 ==> {
        &&& q.state.open_turn is Some
        &&& ({
            let turn = q.state.open_turn->0;
            &&& q.closed_turns.len() == 0
            &&& turn.turn_key == key
            &&& turn.start_total == start_total
            &&& start_total is None ==> turn.blocks.start_missing
            &&& turn.accounted_candidate_count == q.events.len()
            &&& q.events.len() == 0 ==> turn.accounted == zero_usage()
            &&& sum_over(q.events, input_count()) == turn.accounted.input_tokens
            &&& sum_over(q.events, cached_count()) == turn.accounted.cached_tokens
            &&& sum_over(q.events, output_count()) == turn.accounted.output_tokens
            &&& sum_over(q.events, reasoning_count()) == turn.accounted.reasoning_tokens
            &&& turn.last_total is Some ==> turn.last_total == q.state.previous_total
            &&& q.events.len() > 0 ==> turn.last_total is Some
            &&& q.events.len() > 0 && !turn.blocks.model_unresolved ==> !(turn.models is Unseen)
            &&& forall|i: int|
                0 <= i < q.events.len() ==> (#[trigger] q.events[i]).turn_key == Some(key)
        })
    }
}

proof fn lemma_candidate_accounts(
    q: Progress,
    c: Candidate,
    end: u64,
    key: Seq<char>,
    start_total: Option<NormalizedTokenUsage>,
)
    requires
        accounts(q, key, start_total),
    ensures
        accounts(q.with_candidate(c).with_baseline(c.current_total, end), key, start_total),
{
    reveal(accounts);
    reveal(Progress::with_candidate);
    let after = q.with_candidate(c).with_baseline(c.current_total, end);
    assert(after.events.drop_last() =~= q.events);
    assert(after.events.last().usage == c.usage);
    if let Some(turn) = q.state.open_turn {
        if sum_error(turn.accounted, c.usage) is None {
            lemma_sum_components(turn.accounted, c.usage);
        }
    }
}

proof fn lemma_count_accounts(
    q: Progress,
    at: Option<i64>,
    start: u64,
    end: u64,
    total: UsageValue,
    last: UsageValue,
    key: Seq<char>,
    start_total: Option<NormalizedTokenUsage>,
)
    requires
        accounts(q, key, start_total),
    ensures
        accounts(q.with_token_count(at, start, end, total, last).0, key, start_total),
{
    reveal(Progress::with_token_count);
    let after = q.with_token_count(at, start, end, total, last).0;
    let before = q.state.previous_total;
    if q.before_own_context() || !(total is Valid) || at is None
        || q.state.chain_state is Interrupted || before == Some(total->Valid_0) {
        reveal(accounts);
    } else {
        let current = total->Valid_0;
        if before is Some && (required_decreased(current, before->0) || cache_decreased(
            current,
            before->0,
        )) {
            reveal(Progress::with_candidate);
            assert(after.anomalies.len() > 0);
            reveal(accounts);
        } else {
            match last {
                UsageValue::Valid(usage) => {
                    lemma_candidate_accounts(
                        q,
                        Candidate {
                            kind: EventKind::Normal,
                            occurred_at_ms: at->0,
                            start_offset: start,
                            end_offset: end,
                            usage,
                            previous_total: before,
                            current_total: current,
                        },
                        end,
                        key,
                        start_total,
                    );
                },
                UsageValue::Missing if before is Some && difference_error(
                    current,
                    before->0,
                ) is None => {
                    lemma_candidate_accounts(
                        q,
                        Candidate {
                            kind: EventKind::Recovered,
                            occurred_at_ms: at->0,
                            start_offset: start,
                            end_offset: end,
                            usage: difference_of(current, before->0),
                            previous_total: before,
                            current_total: current,
                        },
                        end,
                        key,
                        start_total,
                    );
                },
                _ => {
                    reveal(accounts);
                },
            }
        }
    }
}

/// The record belongs to the thread and neither opens nor ends a turn.
pub open spec fn within_turn(context: ContextFacts, record: RecordFacts) -> bool {
    &&& record.ownership == (OwnershipFacts::Owning { thread_id: context.owning_thread_id })
    &&& !(record.body is TurnStarted)
    &&& !(record.body is TurnEnded)
}

proof fn lemma_turn_accounts(
    q: Progress,
    records: Seq<RecordFacts>,
    key: Seq<char>,
    start_total: Option<NormalizedTokenUsage>,
)
    requires
        accounts(q, key, start_total),
        forall|i: int| 0 <= i < records.len() ==> within_turn(q.context, #[trigger] records[i]),
    ensures
        q.run(records) is Some,
        q.run(records)->0.context == q.context,
        accounts(q.run(records)->0, key, start_total),
    decreases records.len(),
{
    if records.len() > 0 {
        let rest = records.drop_last();
        assert forall|i: int| 0 <= i < rest.len() implies within_turn(
            q.context,
            #[trigger] rest[i],
        ) by {
            assert(within_turn(q.context, records[i]));
        }
        lemma_turn_accounts(q, rest, key, start_total);
        let p = q.run(rest)->0;
        let record = records.last();
        assert(within_turn(q.context, records[records.len() - 1]));
        match record.body {
            RecordBody::TokenCount { timestamp_ms, start_offset, end_offset, total, last } => {
                lemma_count_accounts(
                    p,
                    timestamp_ms,
                    start_offset,
                    end_offset,
                    total,
                    last,
                    key,
                    start_total,
                );
                lemma_token_count_context(
                    p,
                    timestamp_ms,
                    start_offset,
                    end_offset,
                    total,
                    last,
                );
                reveal(accounts);
            },
            _ => {
                reveal(accounts);
            },
        }
    }
}

proof fn lemma_token_count_context(
    p: Progress,
    at: Option<i64>,
    start: u64,
    end: u64,
    total: UsageValue,
    last: UsageValue,
)
    ensures
        p.with_token_count(at, start, end, total, last).0.context == p.context,
{
    reveal(Progress::with_token_count);
    reveal(Progress::with_candidate);
}

/// The events of a turn add up to what the total grew by from its start to its end, in every
/// count that a total has: what the requests do not account for, the end of the turn adds. So
/// it is of every turn in which something was counted, that nothing bars from compensation and
/// that nothing was remarked on.
pub proof fn law_events_of_a_turn_add_up(
    context: ContextFacts,
    state: StateFacts,
    opening: RecordFacts,
    records: Seq<RecordFacts>,
    ending: RecordFacts,
)
    requires
        state.open_turn is None,
        opening.ownership == (OwnershipFacts::Owning { thread_id: context.owning_thread_id }),
        opening.body is TurnStarted,
        forall|i: int| 0 <= i < records.len() ==> within_turn(context, #[trigger] records[i]),
        ending.ownership == (OwnershipFacts::Owning { thread_id: context.owning_thread_id }),
        ending.body is TurnEnded,
    ensures
        ({
            let r = processed(
                Progress::start(context, state),
                seq![opening] + records + seq![ending],
            );
            &&& !r.needs_rebuild
            &&& r.anomalies.len() == 0 && r.events.len() > 0 && r.closed_turns.len() > 0
                && r.closed_turns[0].turn.blocks == no_blocks() ==> {
                let from = state.previous_total->0;
                let to = r.updated_state.previous_total->0;
                &&& state.previous_total is Some
                &&& r.updated_state.previous_total is Some
                &&& sum_over(r.events, input_count()) == to.input_tokens - from.input_tokens
                &&& sum_over(r.events, cached_count()) == to.cached_tokens - from.cached_tokens
                &&& sum_over(r.events, output_count()) == to.output_tokens - from.output_tokens
                &&& sum_over(r.events, reasoning_count()) == to.reasoning_tokens
                    - from.reasoning_tokens
                &&& forall|i: int|
                    0 <= i < r.events.len() ==> (#[trigger] r.events[i]).turn_key == Some(
                        r.closed_turns[0].turn.turn_key,
                    )
            }
        }),
{
    let p = Progress::start(context, state);
    let all = seq![opening] + records + seq![ending];
    assert(all.drop_last() =~= seq![opening] + records);
    assert(all.last() == ending);
    law_batches_compose(p, seq![opening], records);
    assert(seq![opening].drop_last() =~= Seq::<RecordFacts>::empty());
    assert(p.run(seq![opening].drop_last()) == Some(p));
    assert(p.run(seq![opening]) == p.step(opening));
    let opened = p.step(opening)->0;
    assert(opened.context == context && opened.anomalies.len() == 0 && opened.events.len() == 0
        && opened.state.open_turn is Some) by {
        reveal(Progress::with_started_turn);
    }
    let key = opened.state.open_turn->0.turn_key;
    let start_total = opened.state.open_turn->0.start_total;
    assert(accounts(opened, key, start_total)) by {
        reveal(Progress::with_started_turn);
        reveal(accounts);
        assert(sum_over(opened.events, input_count()) == 0);
        assert(sum_over(opened.events, cached_count()) == 0);
        assert(sum_over(opened.events, output_count()) == 0);
        assert(sum_over(opened.events, reasoning_count()) == 0);
    }
    assert(start_total is Some ==> start_total == state.previous_total) by {
        reveal(Progress::with_started_turn);
    }
    lemma_turn_accounts(opened, records, key, start_total);
    let before = opened.run(records)->0;
    assert(p.run(all.drop_last()) == Some(before));
    assert(p.run(all) == before.step(ending));
    let after = before.step(ending)->0;
    lemma_ended_adds_up(before, ending.body, key, start_total);
}

/// The counts of a vector are what a total grew by.
spec fn grown(
    input: int,
    cached: int,
    output: int,
    reasoning: int,
    from: NormalizedTokenUsage,
    to: NormalizedTokenUsage,
) -> bool {
    &&& input == to.input_tokens - from.input_tokens
    &&& cached == to.cached_tokens - from.cached_tokens
    &&& output == to.output_tokens - from.output_tokens
    &&& reasoning == to.reasoning_tokens - from.reasoning_tokens
}

proof fn lemma_difference_components(a: NormalizedTokenUsage, b: NormalizedTokenUsage)
    requires
        difference_error(a, b) is None,
    ensures
        ({
            let d = difference_of(a, b);
            grown(
                d.input_tokens as int,
                d.cached_tokens as int,
                d.output_tokens as int,
                d.reasoning_tokens as int,
                b,
                a,
            )
        }),
{
    reveal(difference_error);
}

proof fn lemma_compensation_adds_up(
    p: Progress,
    turn: TurnFacts,
    at: i64,
    start: u64,
    end: u64,
)
    requires
        turn.start_total is Some,
        turn.last_total is Some,
    ensures
        ({
            let (after, ended, error) = p.with_compensation(turn, at, start, end);
            &&& after.state == p.state
            &&& after.closed_turns == p.closed_turns
            &&& ended.turn_key == turn.turn_key
            &&& after.anomalies.len() >= p.anomalies.len()
            &&& after.anomalies.len() > p.anomalies.len() || error is Some || turn.models is Unseen
                && after.events == p.events || after.events == p.events && grown(
                turn.accounted.input_tokens as int,
                turn.accounted.cached_tokens as int,
                turn.accounted.output_tokens as int,
                turn.accounted.reasoning_tokens as int,
                turn.start_total->0,
                turn.last_total->0,
            ) || after.events.len() == p.events.len() + 1 && after.events.drop_last() == p.events
                && after.events.last().turn_key == Some(turn.turn_key) && grown(
                turn.accounted.input_tokens + after.events.last().usage.input_tokens,
                turn.accounted.cached_tokens + after.events.last().usage.cached_tokens,
                turn.accounted.output_tokens + after.events.last().usage.output_tokens,
                turn.accounted.reasoning_tokens + after.events.last().usage.reasoning_tokens,
                turn.start_total->0,
                turn.last_total->0,
            )
        }),
{
    reveal(Progress::with_compensation);
    let from = turn.start_total->0;
    let to = turn.last_total->0;
    if difference_error(to, from) is None {
        lemma_difference_components(to, from);
        let delta = difference_of(to, from);
        if difference_error(delta, turn.accounted) is None {
            lemma_difference_components(delta, turn.accounted);
            let after = p.with_compensation(turn, at, start, end).0;
            if after.events.len() > p.events.len() {
                assert(after.events.drop_last() =~= p.events);
            }
        }
    }
}

proof fn lemma_ended_adds_up(
    before: Progress,
    body: RecordBody,
    key: Seq<char>,
    start_total: Option<NormalizedTokenUsage>,
)
    requires
        accounts(before, key, start_total),
        body is TurnEnded,
    ensures
        ({
            let r = before.with_owned(body);
            r.anomalies.len() == 0 && r.events.len() > 0 && r.closed_turns.len() > 0
                && r.closed_turns[0].turn.blocks == no_blocks() ==> {
                let from = start_total->0;
                let to = r.state.previous_total->0;
                &&& start_total is Some
                &&& r.state.previous_total is Some
                &&& sum_over(r.events, input_count()) == to.input_tokens - from.input_tokens
                &&& sum_over(r.events, cached_count()) == to.cached_tokens - from.cached_tokens
                &&& sum_over(r.events, output_count()) == to.output_tokens - from.output_tokens
                &&& sum_over(r.events, reasoning_count()) == to.reasoning_tokens
                    - from.reasoning_tokens
                &&& forall|i: int|
                    0 <= i < r.events.len() ==> (#[trigger] r.events[i]).turn_key == Some(
                        r.closed_turns[0].turn.turn_key,
                    )
            }
        }),
{
    reveal(accounts);
    reveal(Progress::with_ended_turn);
    let r = before.with_owned(body);
    if let RecordBody::TurnEnded { turn_id, timestamp_ms, start_offset, end_offset, status } =
        body {
        if let Some(open) = before.state.open_turn {
            let turn = Progress::ending_turn(open, timestamp_ms);
            if turn.blocks == no_blocks() && turn.start_total is Some && turn.last_total is Some
                && timestamp_ms is Some {
                lemma_compensation_adds_up(
                    before.with_open_turn(None),
                    turn,
                    timestamp_ms->0,
                    start_offset,
                    end_offset,
                );
            }
        }
    }
    if r.anomalies.len() == 0 && r.closed_turns.len() > 0 {
        assert forall|i: int| 0 <= i < r.events.len() implies (#[trigger] r.events[i]).turn_key
            == Some(r.closed_turns[0].turn.turn_key) by {
            if i < before.events.len() {
                if r.events.len() > before.events.len() {
                    assert(r.events.drop_last()[i] == r.events[i]);
                }
                assert(before.events[i].turn_key == Some(key));
            }
        }
    }
}

} // verus!
