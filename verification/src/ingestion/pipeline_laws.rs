//! What holds of every chunk that the usage pipeline processes.
use vstd::prelude::*;

use super::thread_group::counts_of;
use super::usage_laws::law_restart_is_invisible;
use super::usage_pipeline::{
    chunk_forward, chunk_outcome, looks_for_owner, reads_items, owned_record, plan_context, plan_valid, record_body,
    CheckpointFacts, CheckpointStatus, CommitFacts, DispositionFacts, FixedViewTail, Founding,
    FoundingEnd, FoundingStep, Gathered, ItemFacts, PlanAction, PlanFacts, ProofFacts, Replay, Run,
    RunStep, MAX_BATCH_BYTES, MAX_BATCH_CANDIDATES, MAX_BATCH_LINES,
};
use super::usage_processor::{
    processed, ContextFacts, Progress, RecordFacts, ResultFacts, StateFacts,
};

verus! {

/// What a batch keeps to: it has moved forward inside the observed file, and its proposals
/// fit.
pub open spec fn in_bounds(plan: PlanFacts, last: u64, gathered: Gathered) -> bool {
    &&& plan.start_offset <= last <= plan.fixed_observed_size
    &&& gathered.occurrences.len() <= MAX_BATCH_CANDIDATES
}

proof fn lemma_run_in_bounds(run: Run, plan: PlanFacts, context: ContextFacts, items: Seq<ItemFacts>)
    requires
        run.forward(plan, context, items),
        in_bounds(plan, run.last, run.gathered),
    ensures
        run.over(plan, context, items) matches Some(end) ==> in_bounds(
            plan,
            end.last,
            end.gathered,
        ),
    decreases items.len(),
{
    if items.len() > 0 {
        if let RunStep::More(next) = run.step(plan, context, items.first()) {
            lemma_run_in_bounds(next, plan, context, items.drop_first());
        }
    }
}

pub open spec fn founding_end_in_bounds(plan: PlanFacts, end: FoundingEnd) -> bool {
    match end {
        FoundingEnd::Boundary(at) => in_bounds(plan, at.last, at.gathered),
        FoundingEnd::Items(at) => in_bounds(plan, at.last, at.gathered),
        _ => true,
    }
}

proof fn lemma_founding_in_bounds(
    at: Founding,
    plan: PlanFacts,
    context: ContextFacts,
    items: Seq<ItemFacts>,
)
    requires
        at.forward(plan, context, items),
        in_bounds(plan, at.last, at.gathered),
    ensures
        founding_end_in_bounds(plan, at.over(plan, context, items)),
    decreases items.len(),
{
    if items.len() > 0 {
        if let FoundingStep::More(next) = at.step(plan, context, items.first()) {
            lemma_founding_in_bounds(next, plan, context, items.drop_first());
        }
    }
}

proof fn lemma_replay_in_bounds(
    at: Replay,
    plan: PlanFacts,
    context: ContextFacts,
    items: Seq<ItemFacts>,
)
    requires
        at.forward(plan, context, items),
        in_bounds(plan, at.last, at.gathered),
    ensures
        at.over(plan, context, items) matches Some(end) ==> in_bounds(
            plan,
            end.last,
            end.gathered,
        ),
    decreases items.len(),
{
    if items.len() > 0 {
        if let Some(next) = at.step(plan, context, items.first()) {
            if !Replay::ends_early(items) {
                lemma_replay_in_bounds(next, plan, context, items.drop_first());
            }
        }
    }
}

/// What every commit of a plan says of itself: it covers the file from the planned start
/// forward and no further than was observed, its proposals fit into a batch, its state
/// stands where it ends, it expects the checkpoint and the state that it was planned from,
/// and it is exhausted only at the end of the view or before a half line.
pub open spec fn commit_sound(plan: PlanFacts, commit: CommitFacts) -> bool {
    &&& commit.batch_start_offset == plan.start_offset
    &&& plan.start_offset <= commit.last_complete_offset <= plan.fixed_observed_size
    &&& commit.source_bytes_consumed == commit.last_complete_offset - plan.start_offset
    &&& commit.candidate_count == commit.occurrences.len()
    &&& commit.candidate_count <= MAX_BATCH_CANDIDATES
    &&& commit.updated_state.resolved_through_offset == commit.last_complete_offset
    &&& commit.expected_checkpoint == plan.checkpoint
    &&& commit.expected_state == plan.state
    &&& commit.fixed_view_exhausted ==> (commit.tail_status is NoTail
        && commit.last_complete_offset == plan.fixed_observed_size) || (commit.tail_status
        is HalfLine && commit.tail_start_offset == Some(commit.last_complete_offset))
}

/// Every commit is sound.
pub proof fn law_commits_are_sound(
    plan: PlanFacts,
    items: Seq<ItemFacts>,
    tail: FixedViewTail,
    guard: Option<Seq<u8>>,
    metadata_needs_rebuild: bool,
    at_ms: i64,
)
    requires
        chunk_forward(plan, items, tail, metadata_needs_rebuild),
    ensures
        chunk_outcome(plan, items, tail, guard, metadata_needs_rebuild, at_ms) matches Ok(
            DispositionFacts::Commit(commit),
        ) ==> plan_valid(plan) && commit_sound(plan, commit),
{
    let context = plan_context(plan);
    if reads_items(plan, tail, metadata_needs_rebuild) {
        if plan.action is LocalReplay {
            lemma_replay_in_bounds(Replay::start(plan), plan, context, items);
        } else if looks_for_owner(plan) {
            lemma_founding_in_bounds(Founding::start(plan), plan, context, items);
        } else if plan.state is Some {
            lemma_run_in_bounds(Run::start(plan, plan.state->0), plan, context, items);
        }
    }
}

/// So many lines of so many bytes fit into a batch: a single line may be longer than one.
pub open spec fn fits_a_batch(lines: int, bytes: int) -> bool {
    lines <= MAX_BATCH_LINES && (lines > 1 ==> bytes <= MAX_BATCH_BYTES)
}

pub open spec fn run_fits(plan: PlanFacts, run: Run) -> bool {
    plan.start_offset <= run.last && fits_a_batch(run.lines as int, run.last - plan.start_offset)
}

/// What a batch that looks for the owner holds beyond the replayed prefix fits.
pub open spec fn founding_fits(plan: PlanFacts, at: Founding) -> bool {
    plan.start_offset <= at.last && fits_a_batch(
        at.lines - at.replayed_lines,
        at.last - plan.start_offset - at.replayed_bytes,
    )
}

pub open spec fn founding_end_fits(plan: PlanFacts, end: FoundingEnd) -> bool {
    match end {
        FoundingEnd::Boundary(at) => founding_fits(plan, at),
        FoundingEnd::Items(at) => founding_fits(plan, at),
        _ => true,
    }
}

/// What a replay holds beyond the replayed prefix fits, and its lines can be counted.
pub open spec fn replay_fits(plan: PlanFacts, at: Replay, ahead: int) -> bool {
    &&& plan.start_offset <= at.last
    &&& at.last - plan.start_offset - at.replayed_bytes <= at.bytes <= at.last
    &&& fits_a_batch(at.lines as int, at.bytes as int)
    &&& at.replayed_lines + at.lines + ahead <= u64::MAX
}

proof fn lemma_run_fits(run: Run, plan: PlanFacts, context: ContextFacts, items: Seq<ItemFacts>)
    requires
        run.forward(plan, context, items),
        run_fits(plan, run),
    ensures
        run.over(plan, context, items) matches Some(end) ==> run_fits(plan, end),
    decreases items.len(),
{
    if items.len() > 0 {
        if let RunStep::More(next) = run.step(plan, context, items.first()) {
            lemma_run_fits(next, plan, context, items.drop_first());
        }
    }
}

proof fn lemma_founding_fits(
    at: Founding,
    plan: PlanFacts,
    context: ContextFacts,
    items: Seq<ItemFacts>,
)
    requires
        at.forward(plan, context, items),
        founding_fits(plan, at),
    ensures
        founding_end_fits(plan, at.over(plan, context, items)),
    decreases items.len(),
{
    if items.len() > 0 {
        if let FoundingStep::More(next) = at.step(plan, context, items.first()) {
            lemma_founding_fits(next, plan, context, items.drop_first());
        }
    }
}

proof fn lemma_replay_fits(
    at: Replay,
    plan: PlanFacts,
    context: ContextFacts,
    items: Seq<ItemFacts>,
)
    requires
        at.forward(plan, context, items),
        replay_fits(plan, at, items.len() as int),
    ensures
        at.over(plan, context, items) matches Some(end) ==> replay_fits(plan, end, 0),
    decreases items.len(),
{
    if items.len() > 0 {
        if let Some(next) = at.step(plan, context, items.first()) {
            if !Replay::ends_early(items) {
                lemma_replay_fits(next, plan, context, items.drop_first());
            }
        }
    }
}

/// A commit fits into a batch: beyond the replayed prefix it has no more lines than a batch
/// may have, and no more bytes where it has more than one line.
pub proof fn law_commits_fit_into_a_batch(
    plan: PlanFacts,
    items: Seq<ItemFacts>,
    tail: FixedViewTail,
    guard: Option<Seq<u8>>,
    metadata_needs_rebuild: bool,
    at_ms: i64,
)
    requires
        chunk_forward(plan, items, tail, metadata_needs_rebuild),
        plan.action is LocalReplay ==> plan.replayed_lines + items.len() <= u64::MAX,
    ensures
        chunk_outcome(plan, items, tail, guard, metadata_needs_rebuild, at_ms) matches Ok(
            DispositionFacts::Commit(commit),
        ) ==> counts_of(commit).lines <= MAX_BATCH_LINES && (counts_of(commit).lines > 1
            ==> counts_of(commit).bytes <= MAX_BATCH_BYTES),
{
    let context = plan_context(plan);
    if reads_items(plan, tail, metadata_needs_rebuild) {
        if plan.action is LocalReplay {
            lemma_replay_fits(Replay::start(plan), plan, context, items);
        } else if looks_for_owner(plan) {
            lemma_founding_fits(Founding::start(plan), plan, context, items);
        } else if plan.state is Some {
            lemma_run_fits(Run::start(plan, plan.state->0), plan, context, items);
        }
    }
}

/// The plan that goes on where a commit ended.
pub open spec fn next_plan(plan: PlanFacts, commit: CommitFacts, guard: Seq<u8>, size: u64) -> PlanFacts {
    PlanFacts {
        action: PlanAction::ResumeOwningLive,
        start_offset: commit.last_complete_offset,
        read_start_offset: commit.last_complete_offset,
        fixed_observed_size: size,
        checkpoint: CheckpointFacts {
            parser_version: plan.parser_version,
            committed_offset: commit.last_complete_offset,
            guard_hash: Some(guard),
            status: CheckpointStatus::Ready,
        },
        state: Some(commit.updated_state),
        replayed_bytes: 0,
        replayed_lines: 0,
        ..plan
    }
}

/// What is committed can be resumed: from where a commit ended the pipeline accepts the plan
/// that goes on with its state.
pub proof fn law_commits_can_be_resumed(
    plan: PlanFacts,
    items: Seq<ItemFacts>,
    tail: FixedViewTail,
    guard: Option<Seq<u8>>,
    metadata_needs_rebuild: bool,
    at_ms: i64,
    next_guard: Seq<u8>,
    size: u64,
)
    requires
        next_guard.len() == 32,
    ensures
        chunk_outcome(plan, items, tail, guard, metadata_needs_rebuild, at_ms) matches Ok(
            DispositionFacts::Commit(commit),
        ) ==> (commit.last_complete_offset > 0 && commit.last_complete_offset <= size ==> plan_valid(
            next_plan(plan, commit, next_guard, size),
        )),
{
}

/// The records that the owned items of a run give.
pub open spec fn records_of(context: ContextFacts, items: Seq<ItemFacts>) -> Seq<RecordFacts>
    decreases items.len(),
{
    if items.len() == 0 {
        Seq::empty()
    } else {
        let first = items.first();
        let rest = records_of(context, items.drop_first());
        if first.class.ownership is Owning && record_body(first.raw, first.at) is Some {
            seq![owned_record(context.owning_thread_id, record_body(first.raw, first.at)->0)] + rest
        } else {
            rest
        }
    }
}

/// How many of the items a run takes into its batch.
pub open spec fn taken_count(
    run: Run,
    plan: PlanFacts,
    context: ContextFacts,
    items: Seq<ItemFacts>,
) -> nat
    decreases items.len(),
{
    if items.len() == 0 {
        0
    } else {
        match run.step(plan, context, items.first()) {
            RunStep::Rebuild => 0,
            RunStep::Last(next) => if next.last == run.last && next.lines == run.lines {
                0
            } else {
                1
            },
            RunStep::More(next) => 1 + taken_count(next, plan, context, items.drop_first()),
        }
    }
}

/// What a batch gathered, as the result of a processor.
pub open spec fn as_result(gathered: Gathered) -> ResultFacts {
    ResultFacts {
        events: gathered.events,
        occurrences: gathered.occurrences,
        anomalies: gathered.anomalies,
        closed_turns: gathered.closed_turns,
        updated_state: gathered.state,
        needs_rebuild: false,
    }
}

pub open spec fn joined(before: Gathered, result: ResultFacts) -> ResultFacts {
    ResultFacts {
        events: before.events + result.events,
        occurrences: before.occurrences + result.occurrences,
        anomalies: before.anomalies + result.anomalies,
        closed_turns: before.closed_turns + result.closed_turns,
        updated_state: result.updated_state,
        needs_rebuild: result.needs_rebuild,
    }
}

proof fn lemma_no_records(context: ContextFacts, state: StateFacts)
    ensures
        processed(Progress::start(context, state), Seq::empty()) == Progress::start(
            context,
            state,
        ).result(),
{
}

/// One record and then the rest is all of them at once.
proof fn lemma_first_record(
    context: ContextFacts,
    before: Gathered,
    record: RecordFacts,
    rest: Seq<RecordFacts>,
    after: Gathered,
)
    requires
        ({
            let result = processed(Progress::start(context, before.state), seq![record]);
            &&& !result.needs_rebuild
            &&& as_result(after) == joined(before, result)
        }),
        !processed(Progress::start(context, after.state), rest).needs_rebuild,
    ensures
        joined(after, processed(Progress::start(context, after.state), rest)) == joined(
            before,
            processed(Progress::start(context, before.state), seq![record] + rest),
        ),
{
    law_restart_is_invisible(context, before.state, seq![record], rest);
    let one = processed(Progress::start(context, before.state), seq![record] + rest);
    let a = processed(Progress::start(context, before.state), seq![record]);
    let b = processed(Progress::start(context, after.state), rest);
    assert(as_result(after).updated_state == a.updated_state);
    assert(after.events == before.events + a.events);
    assert(after.occurrences == before.occurrences + a.occurrences);
    assert(after.anomalies == before.anomalies + a.anomalies);
    assert(after.closed_turns == before.closed_turns + a.closed_turns);
    assert(joined(after, b).events =~= joined(before, one).events);
    assert(joined(after, b).occurrences =~= joined(before, one).occurrences);
    assert(joined(after, b).anomalies =~= joined(before, one).anomalies);
    assert(joined(after, b).closed_turns =~= joined(before, one).closed_turns);
}

proof fn lemma_batch_is_one_run(
    run: Run,
    plan: PlanFacts,
    context: ContextFacts,
    items: Seq<ItemFacts>,
)
    requires
        forall|i: int| 0 <= i < items.len() ==> (#[trigger] items[i]).at.start < items[i].at.end,
    ensures
        run.over(plan, context, items) matches Some(end) ==> {
            let n = taken_count(run, plan, context, items);
            let result = processed(
                Progress::start(context, run.gathered.state),
                records_of(context, items.take(n as int)),
            );
            &&& n <= items.len()
            &&& !result.needs_rebuild
            &&& as_result(end.gathered) == joined(run.gathered, result)
        },
    decreases items.len(),
{
    let g = run.gathered;
    lemma_no_records(context, g.state);
    assert(items.take(0) =~= Seq::<ItemFacts>::empty());
    assert(records_of(context, Seq::<ItemFacts>::empty()) =~= Seq::<RecordFacts>::empty());
    assert(as_result(g) =~= joined(g, Progress::start(context, g.state).result()));
    if items.len() > 0 {
        let item = items.first();
        assert(item == items[0]);
        let rest = items.drop_first();
        assert forall|i: int| 0 <= i < rest.len() implies (#[trigger] rest[i]).at.start
            < rest[i].at.end by {
            assert(items[i + 1].at.start < items[i + 1].at.end);
        }
        match run.step(plan, context, item) {
            RunStep::Rebuild => {},
            RunStep::Last(next) => {
                if next.last != run.last || next.lines != run.lines {
                    lemma_step_takes(run, plan, context, item, next, Seq::empty());
                    assert(items.take(1).first() == item);
                    assert(items.take(1).drop_first() =~= Seq::<ItemFacts>::empty());
                    lemma_no_records(context, next.gathered.state);
                    assert(as_result(next.gathered) =~= joined(
                        next.gathered,
                        Progress::start(context, next.gathered.state).result(),
                    ));
                } else {
                    lemma_step_stops(run, plan, context, item, next);
                }
            },
            RunStep::More(next) => {
                lemma_batch_is_one_run(next, plan, context, rest);
                let n = taken_count(next, plan, context, rest);
                if next.over(plan, context, rest) is Some {
                    let tail = records_of(context, rest.take(n as int));
                    lemma_step_takes(run, plan, context, item, next, tail);
                    assert(items.take((n + 1) as int).first() == item);
                    assert(items.take((n + 1) as int).drop_first() =~= rest.take(n as int));
                }
            },
        }
    }
}

/// A step that takes its item adds the item's record, if it has one.
proof fn lemma_step_takes(
    run: Run,
    plan: PlanFacts,
    context: ContextFacts,
    item: ItemFacts,
    next: Run,
    tail: Seq<RecordFacts>,
)
    requires
        item.at.start < item.at.end,
        run.step(plan, context, item) == RunStep::Last(next) || run.step(plan, context, item)
            == RunStep::More(next),
        next.last != run.last || next.lines != run.lines,
        !processed(Progress::start(context, next.gathered.state), tail).needs_rebuild,
    ensures
        ({
            let records = if item.class.ownership is Owning && record_body(item.raw, item.at)
                is Some {
                seq![owned_record(context.owning_thread_id, record_body(item.raw, item.at)->0)]
                    + tail
            } else {
                tail
            };
            &&& !processed(Progress::start(context, run.gathered.state), records).needs_rebuild
            &&& joined(
                run.gathered,
                processed(Progress::start(context, run.gathered.state), records),
            ) == joined(
                next.gathered,
                processed(Progress::start(context, next.gathered.state), tail),
            )
        }),
{
    if item.class.ownership is Owning && record_body(item.raw, item.at) is Some {
        let record = owned_record(context.owning_thread_id, record_body(item.raw, item.at)->0);
        law_restart_is_invisible(context, run.gathered.state, seq![record], tail);
        assert(as_result(next.gathered) =~= joined(
            run.gathered,
            processed(Progress::start(context, run.gathered.state), seq![record]),
        ));
        lemma_first_record(context, run.gathered, record, tail, next.gathered);
    }
}

/// A step that does not take its item gathers at most the skills that it shows.
proof fn lemma_step_stops(
    run: Run,
    plan: PlanFacts,
    context: ContextFacts,
    item: ItemFacts,
    next: Run,
)
    requires
        item.at.start < item.at.end,
        run.step(plan, context, item) == RunStep::Last(next),
        next.last == run.last && next.lines == run.lines,
    ensures
        as_result(next.gathered) == as_result(run.gathered),
{
}

/// A resumed batch gathers what the processor would make of all its records in one go: that
/// each record is processed on its own, from the state that the last one left, shows nowhere.
pub proof fn law_batch_is_one_run(plan: PlanFacts, state: ProofFacts, items: Seq<ItemFacts>)
    requires
        forall|i: int| 0 <= i < items.len() ==> (#[trigger] items[i]).at.start < items[i].at.end,
    ensures
        ({
            let run = Run::start(plan, state);
            let context = plan_context(plan);
            run.over(plan, context, items) matches Some(end) ==> {
                let n = taken_count(run, plan, context, items);
                &&& n <= items.len()
                &&& as_result(end.gathered) == processed(
                    Progress::start(context, state.processor_state),
                    records_of(context, items.take(n as int)),
                )
            }
        }),
{
    let run = Run::start(plan, state);
    let context = plan_context(plan);
    lemma_batch_is_one_run(run, plan, context, items);
    if run.over(plan, context, items) is Some {
        let n = taken_count(run, plan, context, items);
        let result = processed(
            Progress::start(context, state.processor_state),
            records_of(context, items.take(n as int)),
        );
        assert(joined(run.gathered, result) =~= result);
    }
}

/// Lines replayed from an ancestor give nothing: a batch of nothing but such lines leaves
/// the state as it was and proposes nothing.
pub proof fn law_replayed_lines_give_nothing(
    run: Run,
    plan: PlanFacts,
    context: ContextFacts,
    items: Seq<ItemFacts>,
)
    requires
        forall|i: int|
            0 <= i < items.len() ==> (#[trigger] items[i]).class.ownership is ReplayedAncestor,
    ensures
        run.over(plan, context, items) matches Some(end) ==> end.gathered == run.gathered
            && end.continuation == run.continuation,
    decreases items.len(),
{
    if items.len() > 0 {
        assert(items.first() == items[0]);
        if let RunStep::More(next) = run.step(plan, context, items.first()) {
            assert forall|i: int| 0 <= i < items.drop_first().len() implies (
            #[trigger] items.drop_first()[i]).class.ownership is ReplayedAncestor by {
                assert(items[i + 1].class.ownership is ReplayedAncestor);
            }
            law_replayed_lines_give_nothing(next, plan, context, items.drop_first());
        }
    }
}

/// A live source that meets a replayed or unattributed line inside its budget is rebuilt.
pub proof fn law_late_replay_calls_for_rebuild(
    run: Run,
    plan: PlanFacts,
    context: ContextFacts,
    items: Seq<ItemFacts>,
)
    requires
        items.len() > 0,
        run.continuation is OwningLive,
        !(items.first().class.ownership is Owning),
        run.step(plan, context, items.first()) != RunStep::Last(run),
    ensures
        run.over(plan, context, items) is None,
{
}

} // verus!
