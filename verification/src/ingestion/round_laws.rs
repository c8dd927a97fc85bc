//! What a round of usage does next, event by event, and which sources it looks at.
use vstd::prelude::*;

use crate::domain::SourceObservationResult;
use super::report::ScanReport;
use super::thread_group::UsageThreadOutcome;
use super::usage_round::{
    last_observation, place_of, thread_from, work_sources, CompletionStatus, RoundAction,
    RoundEvent, RoundFacts, RoundStage, UsageRound,
};

verus! {

/// An event takes the round on to `after`, and this is what to do next.
pub open spec fn round_moves(
    round: UsageRound,
    event: RoundEvent,
    after: UsageRound,
    action: RoundAction,
) -> bool {
    &&& round.deep_view().awaits(event.facts())
    &&& after.deep_view() == round.deep_view().after(event.facts()).round
    &&& action.facts() == round.deep_view().after(event.facts()).action
}

/// The round is done with this failure.
pub open spec fn round_fails_with(action: RoundAction, code: Seq<char>) -> bool {
    action matches RoundAction::Finish(result) && result matches Err(told) && told@ == code
}

/// The round is done, and all is well.
pub open spec fn round_ends_well(action: RoundAction) -> bool {
    action matches RoundAction::Finish(result) && result is Ok
}

/// A thread that is not among the ones to skip.
pub open spec fn is_due(threads: Seq<String>, skipped: Seq<String>, i: int) -> bool {
    forall|j: int| 0 <= j < skipped.len() ==> (#[trigger] skipped[j])@ != threads[i]@
}

/// The thread at `k` is taken up: the first one from `from` on that is not skipped.
pub open spec fn takes_up(
    action: RoundAction,
    threads: Seq<String>,
    skipped: Seq<String>,
    from: int,
) -> bool {
    action matches RoundAction::ProcessThread(k) && {
        &&& from <= k < threads.len()
        &&& is_due(threads, skipped, k as int)
        &&& forall|j: int| from <= j < k ==> !#[trigger] is_due(threads, skipped, j)
    }
}

/// No thread from `from` on is left to be taken up.
pub open spec fn none_due(threads: Seq<String>, skipped: Seq<String>, from: int) -> bool {
    forall|j: int| from <= j < threads.len() ==> !#[trigger] is_due(threads, skipped, j)
}

proof fn lemma_due(threads: Vec<String>, skipped: Vec<String>, i: int)
    requires
        0 <= i < threads@.len(),
    ensures
        is_due(threads@, skipped@, i) <==> !skipped.deep_view().contains(threads.deep_view()[i]),
{
    let all = skipped.deep_view();
    if !is_due(threads@, skipped@, i) {
        let j = choose|j: int| 0 <= j < skipped@.len() && (#[trigger] skipped@[j])@ == threads@[i]@;
        assert(all[j] == threads.deep_view()[i]);
    }
    if all.contains(threads.deep_view()[i]) {
        let j = choose|j: int| 0 <= j < all.len() && all[j] == threads.deep_view()[i];
        assert(skipped@[j]@ == threads@[i]@);
    }
}

proof fn lemma_first_due(threads: Vec<String>, skipped: Vec<String>, from: int)
    requires
        0 <= from <= threads@.len(),
    ensures
        ({
            let found = thread_from(threads.deep_view(), skipped.deep_view(), from);
            &&& found is None <==> none_due(threads@, skipped@, from)
            &&& found matches Some(k) ==> {
                &&& from <= k < threads@.len()
                &&& is_due(threads@, skipped@, k)
                &&& forall|j: int| from <= j < k ==> !#[trigger] is_due(threads@, skipped@, j)
            }
        }),
    decreases threads@.len() - from,
{
    if from < threads@.len() {
        lemma_due(threads, skipped, from);
        lemma_first_due(threads, skipped, from + 1);
        assert(threads.deep_view()[from] == threads@[from]@);
    }
}

/// What comes once the threads from `from` on are looked for: the next that is not skipped is
/// taken up; when none is left, the build is asked after if discovery was complete and a build
/// is open, and else old rows are removed, two thousand and forty-eight at most.
pub open spec fn goes_on(round: UsageRound, action: RoundAction, from: int, cancelled: bool) -> bool {
    &&& cancelled ==> round_ends_well(action)
    &&& !cancelled && !none_due(round.threads@, round.skipped@, from) ==> takes_up(
        action,
        round.threads@,
        round.skipped@,
        from,
    ) && round.stage == RoundStage::Thread(action->ProcessThread_0)
    &&& !cancelled && none_due(round.threads@, round.skipped@, from) && round.discovery_complete
        && round.epoch.build_epoch is Some ==> action is ResumeRebuild && round.stage
        == RoundStage::Resuming(round.epoch.build_epoch->0)
    &&& !cancelled && none_due(round.threads@, round.skipped@, from) && !(
    round.discovery_complete && round.epoch.build_epoch is Some) ==> action
        == RoundAction::Cleanup(2048)
}

proof fn lemma_goes_on(before: RoundFacts, round: UsageRound, action: RoundAction, from: int, cancelled: bool)
    requires
        0 <= from <= round.threads@.len(),
        before.threads == round.threads.deep_view(),
        before.skipped == round.skipped.deep_view(),
        round.deep_view() == before.proceed(from, cancelled).round,
        action.facts() == before.proceed(from, cancelled).action,
    ensures
        goes_on(round, action, from, cancelled),
{
    lemma_first_due(round.threads, round.skipped, from);
}

/// What the quarantine says is kept, and the threads of the sources to look at first are loaded.
/// What fails ends the round, with a code that tells what it was.
pub proof fn law_rounds_begin_with_the_quarantine(
    round: UsageRound,
    event: RoundEvent,
    after: UsageRound,
    action: RoundAction,
)
    requires
        round_moves(round, event, after, action),
        event is QuarantineLoaded || event is Failed,
    ensures
        event is QuarantineLoaded ==> {
            &&& action == (RoundAction::LoadWorkList { first: true })
            &&& after.stage is FirstLoad
            &&& after.dirty == event->dirty
            &&& after.discovery_complete == round.discovery_complete
        },
        event is Failed ==> round_fails_with(
            action,
            match round.stage {
                RoundStage::Quarantine => "USAGE_QUARANTINE_STATE_FAILED"@,
                RoundStage::FirstLoad => "USAGE_WORKLIST_LOAD_FAILED"@,
                RoundStage::Reload => "USAGE_WORKLIST_RELOAD_FAILED"@,
                RoundStage::Retry => "USAGE_QUARANTINE_RETRY_BEGIN_FAILED"@,
                RoundStage::Begin => "USAGE_REBUILD_BEGIN_FAILED"@,
                RoundStage::Replace => "USAGE_REBUILD_REPLACE_FAILED"@,
                RoundStage::Quarantining => "USAGE_SESSION_QUARANTINE_FAILED"@,
                RoundStage::Resuming(_) => "USAGE_REBUILD_RESUME_FAILED"@,
                RoundStage::Activating => "USAGE_REBUILD_ACTIVATE_FAILED"@,
                _ => "USAGE_CLEANUP_FAILED"@,
            },
        ),
{
}

/// A list of threads is worked off from its first, unless the ledger as a whole has to be built:
/// because there is none, because the quarantine has changed, or because another parser wrote
/// it. A build needs a complete discovery, and the round ends without one; a build that is open
/// already is made anew within.
pub proof fn law_lists_are_worked_off_or_built(
    round: UsageRound,
    event: RoundEvent,
    after: UsageRound,
    action: RoundAction,
)
    requires
        round_moves(round, event, after, action),
        event is WorkListLoaded,
    ensures
        ({
            let epoch = event->epoch;
            let unbuilt = epoch.build_epoch is None;
            let missing = epoch.active_epoch == 0 && unbuilt;
            let retry = round.dirty && epoch.active_epoch > 0 && unbuilt;
            let needed = missing || retry || epoch.working_parser_version != 11;
            &&& after.epoch == epoch
            &&& after.threads.deep_view() == event->threads.deep_view()
            &&& needed && !round.discovery_complete ==> round_ends_well(action)
            &&& needed && round.discovery_complete && !unbuilt ==> action is ReplaceAll
                && after.stage is Replace
            &&& needed && round.discovery_complete && unbuilt ==> action is BeginRebuild
            &&& needed && round.discovery_complete && unbuilt && retry ==> after.stage is Retry
            &&& needed && round.discovery_complete && unbuilt && !retry ==> after.stage is Begin
            &&& !needed ==> goes_on(after, action, 0, event->WorkListLoaded_cancelled)
        }),
{
    let epoch = event->epoch;
    let facts = RoundFacts {
        epoch,
        threads: event->threads.deep_view(),
        ..round.deep_view()
    };
    assert(after.threads.deep_view() == event->threads.deep_view());
    assert(after.skipped.deep_view() == round.skipped.deep_view());
    let retry = round.dirty && epoch.active_epoch > 0 && epoch.build_epoch is None;
    let found = epoch.active_epoch == 0 && epoch.build_epoch is None;
    if !(retry || found || epoch.working_parser_version != 11) {
        lemma_goes_on(facts, after, action, 0, event->WorkListLoaded_cancelled);
    }
}

/// What a thread came to. A thread that is done, or that failed in an ordinary way, is followed by
/// the next; the first such failure is kept for the end. A thread whose plan changed has the list
/// loaded again, and is skipped from then on unless it is to be tried again. What is the
/// session's own fault is set aside while a build is open, and else ends the round, as a fatal
/// failure does.
pub proof fn law_threads_lead_on(
    round: UsageRound,
    event: RoundEvent,
    after: UsageRound,
    action: RoundAction,
)
    requires
        round_moves(round, event, after, action),
        event is ThreadDone,
    ensures
        ({
            let at = round.stage->Thread_0;
            let outcome = event->outcome;
            &&& after.threads.deep_view() == round.threads.deep_view()
            &&& after.epoch == round.epoch
            &&& outcome is Completed || outcome is OrdinaryError ==> goes_on(
                after,
                action,
                at + 1,
                event->ThreadDone_cancelled,
            )
            &&& outcome is OrdinaryError && round.first_error is None ==> (after.first_error matches
                Some(kept) && kept@ == outcome->OrdinaryError_0@)
            &&& round.first_error matches Some(first) ==> (after.first_error matches Some(kept)
                && kept@ == first@)
            &&& !(outcome is OrdinaryError) && round.first_error is None ==> after.first_error
                is None
            &&& outcome is GlobalPlanChanged ==> action == (RoundAction::LoadWorkList {
                first: false,
            }) && after.stage is Reload
            &&& outcome is GlobalPlanChanged && !outcome->retry_thread ==> {
                &&& after.skipped@.len() == round.skipped@.len() + 1
                &&& after.skipped@.last()@ == round.threads@[at as int]@
                &&& forall|j: int|
                    0 <= j < round.skipped@.len() ==> (#[trigger] after.skipped@[j])@
                        == round.skipped@[j]@
            }
            &&& !(outcome is GlobalPlanChanged && !outcome->retry_thread)
                ==> after.skipped.deep_view() == round.skipped.deep_view()
            &&& outcome is SessionDataError && round.epoch.build_epoch is Some ==> (action matches
                RoundAction::Quarantine { thread, code } && thread == at && code@
                == outcome->SessionDataError_0@)
            &&& outcome is SessionDataError && round.epoch.build_epoch is None ==> round_fails_with(
                action,
                outcome->SessionDataError_0@,
            )
            &&& outcome is FatalReloadError ==> round_fails_with(
                action,
                outcome->FatalReloadError_0@,
            )
        }),
{
    let before = round.deep_view();
    let at = round.stage->Thread_0;
    let outcome = event->outcome;
    let cancelled = event->ThreadDone_cancelled;
    assert(before.threads.len() == round.threads@.len());
    assert(before.threads[at as int] == round.threads@[at as int]@);
    if outcome is Completed {
        lemma_goes_on(before, after, action, at + 1, cancelled);
    } else if outcome is OrdinaryError {
        let kept = RoundFacts {
            first_error: if before.first_error is Some {
                before.first_error
            } else {
                Some(outcome->OrdinaryError_0@)
            },
            ..before
        };
        lemma_goes_on(kept, after, action, at + 1, cancelled);
    } else if outcome is GlobalPlanChanged && !outcome->retry_thread {
        let n = round.skipped@.len();
        assert(after.skipped.deep_view() == before.skipped.push(before.threads[at as int]));
        assert(after.skipped.deep_view().len() == n + 1);
        assert(after.skipped.deep_view()[n as int] == after.skipped@[n as int]@);
        assert forall|j: int| 0 <= j < n implies (#[trigger] after.skipped@[j])@
            == round.skipped@[j]@ by {
            assert(after.skipped.deep_view()[j] == before.skipped[j]);
        }
    }
}

/// A build is activated when it is the one that was asked after and each of its sources was
/// rebuilt, carried over or set aside; then, and in every other case, old rows are removed. The
/// round ends after that, with the first failure that a thread had. After a change to the
/// build as a whole no thread is skipped any more, and the list is loaded again.
pub proof fn law_builds_are_activated_when_settled(
    round: UsageRound,
    event: RoundEvent,
    after: UsageRound,
    action: RoundAction,
)
    requires
        round_moves(round, event, after, action),
        event is Resumed || event is Done,
    ensures
        event is Resumed ==> ({
            let earned = round.stage == RoundStage::Resuming(event->build_epoch) && forall|i: int|
                0 <= i < event->members@.len() ==> !(#[trigger] event->members@[i] is Pending)
                    && !(event->members@[i] is Blocked);
            &&& earned ==> action == RoundAction::Activate(event->build_epoch) && after.stage
                is Activating
            &&& !earned ==> action == RoundAction::Cleanup(2048) && after.stage is Cleaning
        }),
        event is Done && round.stage is Activating ==> action == RoundAction::Cleanup(2048)
            && after.stage is Cleaning,
        event is Done && round.stage is Cleaning ==> {
            &&& round.first_error is None ==> round_ends_well(action)
            &&& round.first_error matches Some(first) ==> round_fails_with(action, first@)
        },
        event is Done && !(round.stage is Activating) && !(round.stage is Cleaning) ==> {
            &&& action == (RoundAction::LoadWorkList { first: false })
            &&& after.stage is Reload
            &&& after.skipped@.len() == 0
            &&& after.threads.deep_view() == round.threads.deep_view()
            &&& after.epoch == round.epoch
        },
{
    if event is Resumed {
        let members = event->members@;
        let earned = forall|i: int|
            0 <= i < members.len() ==> !(#[trigger] members[i] is Pending) && !(members[i]
                is Blocked);
        if earned {
            assert forall|i: int| 0 <= i < members.len() implies super::usage_round::settled(
                #[trigger] members[i],
            ) by {
                assert(!(members[i] is Pending) && !(members[i] is Blocked));
            }
        } else {
            let i = choose|i: int|
                0 <= i < members.len() && ((#[trigger] members[i] is Pending) || members[i]
                    is Blocked);
            assert(!super::usage_round::settled(members[i]));
        }
    } else if !(round.stage is Activating) && !(round.stage is Cleaning) {
        assert(after.skipped.deep_view().len() == 0);
    }
}

/// The last observation of a source is the one whose file is read.
pub proof fn law_the_last_observation_counts(
    results: Seq<SourceObservationResult>,
    id: i64,
    r: Option<usize>,
)
    requires
        place_of(r) == last_observation(results, id),
    ensures
        r is None <==> forall|i: int| 0 <= i < results.len() ==> (#[trigger] results[i]).source_file_id != id,
        r matches Some(k) ==> {
            &&& k < results.len()
            &&& results[k as int].source_file_id == id
            &&& forall|i: int| k < i < results.len() ==> (#[trigger] results[i]).source_file_id != id
        },
{
    lemma_last_observation(results, id);
}

proof fn lemma_last_observation(results: Seq<SourceObservationResult>, id: i64)
    ensures
        last_observation(results, id) is None <==> forall|i: int|
            0 <= i < results.len() ==> (#[trigger] results[i]).source_file_id != id,
        last_observation(results, id) matches Some(k) ==> {
            &&& 0 <= k < results.len()
            &&& results[k].source_file_id == id
            &&& forall|i: int| k < i < results.len() ==> (#[trigger] results[i]).source_file_id != id
        },
    decreases results.len(),
{
    if results.len() > 0 {
        let rest = results.drop_last();
        lemma_last_observation(rest, id);
        assert(results.last() == results[results.len() - 1]);
        assert forall|i: int| 0 <= i < rest.len() implies rest[i] == #[trigger] results[i] by {}
        if results.last().source_file_id != id {
            if last_observation(rest, id) is None {
                assert forall|i: int| 0 <= i < results.len() implies (#[trigger] results[i]).source_file_id != id by {
                    if i < rest.len() {
                        assert(rest[i].source_file_id != id);
                    }
                }
            } else {
                let k = last_observation(rest, id)->0;
                assert(results[k].source_file_id == id);
                assert forall|i: int| k < i < results.len() implies (#[trigger] results[i]).source_file_id != id by {
                    if i < rest.len() {
                        assert(rest[i].source_file_id != id);
                    }
                }
            }
        }
    }
}

/// While the quarantine is unchanged, a source is looked at if and only if discovery saw it and it
/// is not among the unchanged ones; after a change all that discovery saw are looked at. They keep
/// their order.
pub proof fn law_changed_sources_are_looked_at(
    present: Seq<i64>,
    dirty: bool,
    unchanged: Seq<i64>,
    chosen: Seq<i64>,
)
    requires
        chosen == work_sources(present, dirty, unchanged),
    ensures
        dirty ==> chosen == present,
        !dirty ==> forall|id: i64|
            #[trigger] chosen.contains(id) <==> present.contains(id) && !unchanged.contains(id),
        forall|i: int, j: int|
            #![trigger chosen[i], chosen[j]]
            0 <= i < j < chosen.len() && (forall|a: int, b: int|
                0 <= a < b < present.len() ==> present[a] < present[b]) ==> chosen[i] < chosen[j],
{
    if !dirty {
        let wanted = |id: i64| !unchanged.contains(id);
        assert forall|id: i64| #[trigger] chosen.contains(id) <==> present.contains(id)
            && !unchanged.contains(id) by {
            lemma_kept(present, wanted, id);
        }
        if forall|a: int, b: int| 0 <= a < b < present.len() ==> present[a] < present[b] {
            lemma_kept_in_order(present, wanted);
        }
    }
}

proof fn lemma_kept(ids: Seq<i64>, wanted: spec_fn(i64) -> bool, id: i64)
    ensures
        ids.filter(wanted).contains(id) <==> ids.contains(id) && wanted(id),
    decreases ids.len(),
{
    reveal(Seq::filter);
    if ids.len() > 0 {
        let rest = ids.drop_last();
        let kept = rest.filter(wanted);
        lemma_kept(rest, wanted, id);
        assert(ids =~= rest.push(ids.last()));
        if ids.contains(id) {
            let i = choose|i: int| 0 <= i < ids.len() && ids[i] == id;
            if i < rest.len() {
                assert(rest[i] == id);
            }
        }
        if rest.contains(id) {
            let i = choose|i: int| 0 <= i < rest.len() && rest[i] == id;
            assert(ids[i] == id);
        }
        if wanted(ids.last()) {
            let all = kept.push(ids.last());
            if kept.contains(id) {
                let i = choose|i: int| 0 <= i < kept.len() && kept[i] == id;
                assert(all[i] == id);
            }
            if all.contains(id) {
                let i = choose|i: int| 0 <= i < all.len() && all[i] == id;
                if i < kept.len() {
                    assert(kept[i] == id);
                } else {
                    assert(ids[ids.len() - 1] == id);
                }
            }
            if id == ids.last() {
                assert(all[kept.len() as int] == id);
                assert(ids[ids.len() - 1] == id);
            }
        }
    }
}

proof fn lemma_kept_in_order(ids: Seq<i64>, wanted: spec_fn(i64) -> bool)
    requires
        forall|a: int, b: int| 0 <= a < b < ids.len() ==> ids[a] < ids[b],
    ensures
        forall|i: int, j: int|
            #![trigger ids.filter(wanted)[i], ids.filter(wanted)[j]]
            0 <= i < j < ids.filter(wanted).len() ==> ids.filter(wanted)[i] < ids.filter(wanted)[j],
    decreases ids.len(),
{
    reveal(Seq::filter);
    if ids.len() > 0 {
        let rest = ids.drop_last();
        let kept = rest.filter(wanted);
        lemma_kept_in_order(rest, wanted);
        assert forall|i: int| 0 <= i < kept.len() implies #[trigger] kept[i] < ids.last() by {
            lemma_kept(rest, wanted, kept[i]);
            assert(kept.contains(kept[i]));
            let a = choose|a: int| 0 <= a < rest.len() && rest[a] == kept[i];
            assert(ids[a] < ids[ids.len() - 1]);
        }
    }
}

/// A thread that failed is counted and its code is kept; a plan of the round that was made anew is
/// counted.
pub proof fn law_rounds_report_failures(
    round: UsageRound,
    event: RoundEvent,
    before: ScanReport,
    after: ScanReport,
)
    requires
        round.deep_view().awaits(event.facts()),
        after.deep_view() == round.deep_view().noted(event.facts(), before.deep_view()),
    ensures
        event is ThreadDone && event->outcome is OrdinaryError ==> after.deep_view()
            == before.deep_view().with_failed_source().with_error(event->outcome->OrdinaryError_0@),
        event is ThreadDone && event->outcome is SessionDataError ==> after.deep_view()
            == before.deep_view().with_failed_source().with_error(
            event->outcome->SessionDataError_0@,
        ),
        event is ThreadDone && event->outcome is FatalReloadError ==> after.deep_view()
            == before.deep_view().with_failed_source().with_error(
            event->outcome->FatalReloadError_0@,
        ),
        event is ThreadDone && event->outcome is GlobalPlanChanged ==> after.deep_view()
            == before.deep_view().with_replan(),
        event is ThreadDone && event->outcome is Completed ==> after.deep_view()
            == before.deep_view(),
        event is Done && (round.stage is Activating || round.stage is Cleaning)
            ==> after.deep_view() == before.deep_view(),
        event is Done && !(round.stage is Activating || round.stage is Cleaning)
            ==> after.deep_view() == before.deep_view().with_replan(),
        !(event is ThreadDone) && !(event is Done) ==> after.deep_view() == before.deep_view(),
{
}

} // verus!
