//! What a scan does next, event by event; how a file is read for its metadata; and what makes a
//! scan fail.
use vstd::prelude::*;

use crate::domain::{MetadataScanStateEntry, SafeFactState};
use crate::rollout::ResumeState;
use crate::rollout_parser::OwningThreadCandidates;
use crate::state_index::StateThreadFact;
use super::metadata_reading::{
    metadata_context, read_from, reading_error, rebuilt_ids, rollout_thread, ReadFrom,
    ScanFacts,
};
use super::report::{plan_at, FilePlan, ParsedSource};
use super::scan_run::{known, RunFacts, ScanAction, ScanEvent, ScanRun, ScanStage};
use super::source_batch::DiscoveredFile;

verus! {

/// An event takes the scan on to `after` at `now_ms`, and this is what to do next.
pub open spec fn scan_moves(
    run: ScanRun,
    event: ScanEvent,
    now_ms: i64,
    after: ScanRun,
    action: ScanAction,
) -> bool {
    &&& run.deep_view().awaits(event.facts())
    &&& after.deep_view().made(run.deep_view().after(event.facts()), now_ms)
    &&& action.facts() == run.deep_view().after(event.facts()).action
}

/// The scan is over without a failure.
pub open spec fn scan_stops(after: ScanRun, action: ScanAction) -> bool {
    &&& action matches ScanAction::Finish(result) && result is Ok
    &&& after.stage is Finished
}

/// The scan is over with this failure.
pub open spec fn scan_fails_with(after: ScanRun, action: ScanAction, code: Seq<char>) -> bool {
    &&& action matches ScanAction::Finish(result) && result matches Err(told) && told@ == code
    &&& after.stage is Finished
}

/// The steps before files are parsed come one after the other: the state index, the names,
/// discovery, preparation, the proofs of carried sources, observation, the plans. A scan that is
/// cancelled stops at the state index, the names or the observation.
pub proof fn law_scans_prepare_step_by_step(
    run: ScanRun,
    event: ScanEvent,
    now_ms: i64,
    after: ScanRun,
    action: ScanAction,
)
    requires
        scan_moves(run, event, now_ms, after, action),
    ensures
        event is StateRead && event->StateRead_cancelled ==> scan_stops(after, action),
        event is StateRead && !event->StateRead_cancelled ==> action is ReadNames && after.stage
            is Names,
        event is NamesRead && event->NamesRead_cancelled ==> scan_stops(after, action),
        event is NamesRead && !event->NamesRead_cancelled ==> action is Discover && after.stage
            is Discovery,
        event is Discovered ==> action is Prepare && after.stage is Preparation && after.files
            == event->files,
        event is Observed && event->Observed_cancelled ==> scan_stops(after, action),
        event is Observed ==> after.results@ == event->results@ && after.scan_state.entries@
            == event->scan_state.entries@,
        event is Observed && !event->Observed_cancelled ==> action is PlanFiles && after.stage
            is Planning,
        event is Done && run.stage is Preparation ==> action is CollectProofs && after.stage
            is Proofs,
        event is Done && run.stage is Proofs ==> action is Observe && after.stage is Observation,
        event matches ScanEvent::ProofFailed(code) ==> scan_fails_with(after, action, code@),
        event is Failed ==> scan_fails_with(
            after,
            action,
            match run.stage {
                ScanStage::Preparation => "METADATA_PIPELINE_INVALID"@,
                ScanStage::Observation => "SOURCE_OBSERVATION_FAILED"@,
                ScanStage::Requesting { .. } => "STORAGE_COMMIT_FAILED"@,
                ScanStage::Loading => "METADATA_STATE_LOAD_FAILED"@,
                ScanStage::Resolution => "METADATA_RESOLUTION_FAILED"@,
                _ => "METADATA_COMMIT_FAILED"@,
            },
        ),
{
}

/// The steps after files are parsed: rebuilds are asked for, threads are loaded, metadata are
/// resolved and committed, and then usage is run. A scan that was cancelled stops once the
/// rebuilds are asked for. The scan ends with its first hard error, and a failure of usage is one.
pub proof fn law_scans_conclude_step_by_step(
    run: ScanRun,
    event: ScanEvent,
    now_ms: i64,
    after: ScanRun,
    action: ScanAction,
)
    requires
        scan_moves(run, event, now_ms, after, action),
    ensures
        event is Done && run.stage is Requesting && (run.stage->Requesting_cancelled
            || event->Done_cancelled) ==> scan_stops(after, action),
        event is Done && run.stage is Requesting && !(run.stage->Requesting_cancelled
            || event->Done_cancelled) ==> action is LoadThreads && after.stage is Loading,
        event is Done && run.stage is Loading ==> action is Resolve && after.stage is Resolution,
        event is Done && run.stage is Resolution ==> action is CommitMetadata && after.stage
            is Commit,
        event is Done && run.stage is Commit ==> action is RunUsage && after.stage is Usage,
        event is UsageDone && run.round.hard_error is Some ==> scan_fails_with(
            after,
            action,
            run.round.hard_error->0@,
        ),
        event is UsageDone && run.round.hard_error is None && event->UsageDone_0 is Err
            ==> scan_fails_with(after, action, event->UsageDone_0->Err_0@),
        event is UsageDone && run.round.hard_error is None && event->UsageDone_0 is Ok
            ==> scan_stops(after, action),
{
}

/// A file is due to be parsed if it is planned to be read, and storage knows it.
pub open spec fn to_be_parsed(run: RunFacts, i: int) -> bool {
    let id = run.results[i].source_file_id;
    &&& known(run.entries, id)
    &&& plan_at(run.plans, id) matches Some(k) && (run.plans[k] is ReadFrom || run.plans[k]
        is Rebuild)
}

proof fn lemma_due(run: RunFacts, i: int)
    requires
        0 <= i,
    ensures
        run.due_from(i) is None <==> forall|j: int|
            i <= j < run.files && j < run.results.len() ==> !#[trigger] to_be_parsed(run, j),
        run.due_from(i) matches Some(k) ==> {
            &&& i <= k < run.files && k < run.results.len()
            &&& to_be_parsed(run, k)
            &&& forall|j: int| i <= j < k ==> !#[trigger] to_be_parsed(run, j)
        },
    decreases run.files - i,
{
    if i < run.files && i < run.results.len() {
        assert(run.is_due(i) <==> to_be_parsed(run, i));
        if !run.is_due(i) {
            lemma_due(run, i + 1);
        }
    }
}

/// Some file that was parsed has to be built anew.
pub open spec fn wants_rebuild(parsed: Seq<ParsedSource>) -> bool {
    exists|i: int| 0 <= i < parsed.len() && (#[trigger] parsed[i]).needs_rebuild
}

proof fn lemma_rebuilt(parsed: Seq<ParsedSource>)
    ensures
        rebuilt_ids(parsed).len() > 0 <==> wants_rebuild(parsed),
        forall|i: int|
            0 <= i < parsed.len() && (#[trigger] parsed[i]).needs_rebuild ==> rebuilt_ids(
                parsed,
            ).contains(parsed[i].source_file_id),
        forall|j: int|
            0 <= j < rebuilt_ids(parsed).len() ==> exists|i: int|
                0 <= i < parsed.len() && (#[trigger] parsed[i]).needs_rebuild
                    && parsed[i].source_file_id == #[trigger] rebuilt_ids(parsed)[j],
    decreases parsed.len(),
{
    if parsed.len() > 0 {
        let rest = parsed.drop_last();
        let n = parsed.len() - 1;
        lemma_rebuilt(rest);
        assert(parsed.last() == parsed[n]);
        assert forall|i: int|
            0 <= i < parsed.len() && (#[trigger] parsed[i]).needs_rebuild implies rebuilt_ids(
            parsed,
        ).contains(parsed[i].source_file_id) by {
            if i < n {
                assert(rest[i] == parsed[i]);
                let k = choose|k: int|
                    0 <= k < rebuilt_ids(rest).len() && rebuilt_ids(rest)[k]
                        == rest[i].source_file_id;
                assert(rebuilt_ids(parsed)[k] == parsed[i].source_file_id);
            } else {
                let m = rebuilt_ids(rest).len() as int;
                assert(rebuilt_ids(parsed)[m] == parsed[i].source_file_id);
            }
        }
        assert forall|j: int| 0 <= j < rebuilt_ids(parsed).len() implies exists|i: int|
            0 <= i < parsed.len() && (#[trigger] parsed[i]).needs_rebuild
                && parsed[i].source_file_id == #[trigger] rebuilt_ids(parsed)[j] by {
            if j < rebuilt_ids(rest).len() {
                let i = choose|i: int|
                    0 <= i < rest.len() && (#[trigger] rest[i]).needs_rebuild
                        && rest[i].source_file_id == rebuilt_ids(rest)[j];
                assert(parsed[i] == rest[i]);
            } else {
                assert(parsed[n].source_file_id == rebuilt_ids(parsed)[j]);
            }
        }
        if wants_rebuild(parsed) && rebuilt_ids(parsed).len() == 0 {
            let i = choose|i: int| 0 <= i < parsed.len() && (#[trigger] parsed[i]).needs_rebuild;
            assert(rebuilt_ids(parsed).contains(parsed[i].source_file_id));
        }
        if rebuilt_ids(parsed).len() > 0 {
            assert(rebuilt_ids(parsed)[0] == rebuilt_ids(parsed)[0]);
            let i = choose|i: int|
                0 <= i < parsed.len() && (#[trigger] parsed[i]).needs_rebuild
                    && parsed[i].source_file_id == rebuilt_ids(parsed)[0];
            assert(parsed[i].needs_rebuild);
        }
    }
}

/// The next file is parsed: the first from `from` on that is due. A scan that is cancelled parses
/// none. When none is left, files that need it are built anew, and else the scan goes on, or
/// stops if it is cancelled.
pub open spec fn parses_on(after: ScanRun, action: ScanAction, from: int, cancelled: bool) -> bool {
    let facts = after.deep_view();
    let none_left = forall|j: int|
        from <= j < after.files && j < after.results@.len() ==> !#[trigger] to_be_parsed(facts, j);
    &&& !cancelled && !none_left ==> (action matches ScanAction::Parse(k) && {
        &&& after.stage == ScanStage::Parsing(k)
        &&& from <= k < after.files
        &&& to_be_parsed(facts, k as int)
        &&& forall|j: int| from <= j < k ==> !#[trigger] to_be_parsed(facts, j)
    })
    &&& (cancelled || none_left) && !wants_rebuild(after.parsed@) && cancelled ==> scan_stops(
        after,
        action,
    )
    &&& (cancelled || none_left) && !wants_rebuild(after.parsed@) && !cancelled ==> action
        is LoadThreads && after.stage is Loading
    &&& (cancelled || none_left) && wants_rebuild(after.parsed@) ==> {
        ||| action is RequestRebuild && after.stage == (ScanStage::Requesting { cancelled })
        ||| scan_fails_with(after, action, "STORAGE_COMMIT_FAILED"@) && exists|i: int|
            0 <= i < after.parsed@.len() && (#[trigger] after.parsed@[i]).needs_rebuild
                && after.parsed@[i].source_file_id <= 0
    }
}

proof fn lemma_parses_on(
    before: RunFacts,
    after: ScanRun,
    action: ScanAction,
    from: int,
    cancelled: bool,
    now_ms: i64,
)
    requires
        0 <= from,
        before.files == after.files,
        after.deep_view().made(before.parse_from(from, cancelled), now_ms),
        action.facts() == before.parse_from(from, cancelled).action,
    ensures
        parses_on(after, action, from, cancelled),
        after.parsed@ == before.parsed,
        after.results@ == before.results,
        after.plan.plans@ == before.plans,
        after.scan_state.entries@ == before.entries,
{
    let facts = after.deep_view();
    let ids = rebuilt_ids(before.parsed);
    lemma_due(before, from);
    lemma_rebuilt(before.parsed);
    assert forall|j: int| to_be_parsed(facts, j) <==> to_be_parsed(before, j) by {}
    if super::metadata_reading::some_not_positive(ids) {
        let j = choose|j: int| 0 <= j < ids.len() && #[trigger] ids[j] <= 0;
        let i = choose|i: int|
            0 <= i < before.parsed.len() && (#[trigger] before.parsed[i]).needs_rebuild
                && before.parsed[i].source_file_id == ids[j];
        assert(after.parsed@[i].needs_rebuild && after.parsed@[i].source_file_id <= 0);
    }
}

/// Once the files are planned, parsing begins with the first that is due. A file that was parsed
/// is kept, one that could not be parsed is not, and parsing goes on behind it.
pub proof fn law_files_are_parsed_as_planned(
    run: ScanRun,
    event: ScanEvent,
    now_ms: i64,
    after: ScanRun,
    action: ScanAction,
)
    requires
        scan_moves(run, event, now_ms, after, action),
        event is Planned || event is Parsed,
    ensures
        event is Planned ==> {
            &&& after.plan.plans@ == event->plan.plans@
            &&& after.parsed@ == run.parsed@
            &&& parses_on(after, action, 0, event->Planned_cancelled)
        },
        event is Parsed ==> {
            &&& event->source is Ok ==> after.parsed@ == run.parsed@.push(event->source->Ok_0)
            &&& event->source is Err ==> after.parsed@ == run.parsed@
            &&& after.plan.plans@ == run.plan.plans@
            &&& parses_on(after, action, run.stage->Parsing_0 + 1, event->Parsed_cancelled)
        },
{
    let before = run.deep_view();
    if event is Planned {
        let plans = event->plan.plans@;
        let planned = RunFacts { scan: before.scan.with_plans(plans), plans, ..before };
        lemma_parses_on(planned, after, action, 0, event->Planned_cancelled, now_ms);
    } else {
        let next = match super::scan_run::parsed_view(event->source) {
            Ok(source) => RunFacts {
                scan: before.scan.with_parsed(source),
                parsed: before.parsed.push(source),
                ..before
            },
            Err(code) => RunFacts { scan: before.scan.with_unparsed(code), ..before },
        };
        lemma_parses_on(
            next,
            after,
            action,
            run.stage->Parsing_0 + 1,
            event->Parsed_cancelled,
            now_ms,
        );
    }
}

/// What makes a scan fail: a state index that is not complete, names that are not to be had, any
/// word of discovery but that a file has another name, a discovery that is not complete, a file
/// that is not stable or has to be built anew, and one that could not be parsed.
pub proof fn law_scans_fail_for_what_is_missing(
    scan: ScanFacts,
    threads: crate::diagnostics::SourceAvailability,
    spawn_edges: crate::diagnostics::SourceAvailability,
    names: crate::diagnostics::SourceAvailability,
    parsed: ParsedSource,
    code: Seq<char>,
)
    requires
        scan.hard_error is None,
    ensures
        scan.with_state(threads, spawn_edges).hard_error is None <==> threads is Complete
            && spawn_edges is Complete,
        scan.with_state(threads, spawn_edges).hard_error matches Some(told) ==> told
            == "STATE_SOURCE_UNAVAILABLE"@,
        scan.with_names(names).hard_error is Some <==> names is Unavailable,
        scan.with_names(names).hard_error matches Some(told) ==> told
            == "SESSION_INDEX_UNAVAILABLE"@,
        scan.with_parsed(parsed).hard_error is Some <==> parsed.needs_rebuild
            || parsed.final_continuation is Unstable,
        scan.with_parsed(parsed).hard_error matches Some(told) ==> told
            == "METADATA_CONTINUATION_UNSTABLE"@,
        scan.with_unparsed(code).hard_error == Some(code),
{
}

/// A discovery that tells of something other than another name of a file, or is not complete, makes
/// a scan fail, with the first such word.
pub proof fn law_discovery_tells_what_is_wrong(
    scan: ScanFacts,
    files: usize,
    codes: Seq<Seq<char>>,
    complete: bool,
)
    requires
        scan.hard_error is None,
    ensures
        ({
            let after = scan.with_discovery(files, codes, complete);
            let told = exists|i: int|
                0 <= i < codes.len() && #[trigger] codes[i] != "DUPLICATE_PHYSICAL_ALIAS"@;
            &&& after.hard_error is Some <==> told || !complete
            &&& !told && !complete ==> after.hard_error == Some("SOURCE_AREA_UNAVAILABLE"@)
            &&& told ==> exists|i: int| #[trigger] first_other(codes, i) && after.hard_error == Some(codes[i])
        }),
{
    let counted = ScanFacts {
        report: super::report::ReportFacts {
            discovered_files: super::usage_pipeline::saturated(
                scan.report.discovered_files + files,
            ),
            ..scan.report
        },
        ..scan
    };
    lemma_first_word(counted, codes);
}

/// The first word of discovery that is not about another name of a file.
pub open spec fn first_other(codes: Seq<Seq<char>>, i: int) -> bool {
    &&& 0 <= i < codes.len()
    &&& codes[i] != "DUPLICATE_PHYSICAL_ALIAS"@
    &&& forall|j: int| 0 <= j < i ==> #[trigger] codes[j] == "DUPLICATE_PHYSICAL_ALIAS"@
}

proof fn lemma_first_word(scan: ScanFacts, codes: Seq<Seq<char>>)
    requires
        scan.hard_error is None,
    ensures
        ({
            let after = scan.with_discovery_codes(codes);
            &&& after.hard_error is None <==> forall|i: int|
                0 <= i < codes.len() ==> #[trigger] codes[i] == "DUPLICATE_PHYSICAL_ALIAS"@
            &&& after.hard_error is Some ==> exists|i: int|
                #[trigger] first_other(codes, i) && after.hard_error == Some(codes[i])
        }),
    decreases codes.len(),
{
    if codes.len() > 0 {
        let rest = codes.drop_last();
        let n = codes.len() - 1;
        lemma_first_word(scan, rest);
        assert(codes.last() == codes[n]);
        assert forall|i: int| 0 <= i < n implies rest[i] == #[trigger] codes[i] by {}
        if scan.with_discovery_codes(rest).hard_error is Some {
            let i = choose|i: int|
                #[trigger] first_other(rest, i) && scan.with_discovery_codes(rest).hard_error
                    == Some(rest[i]);
            assert(first_other(codes, i));
            assert(codes[i] != "DUPLICATE_PHYSICAL_ALIAS"@);
        } else {
            assert forall|i: int| 0 <= i < n implies #[trigger] codes[i]
                == "DUPLICATE_PHYSICAL_ALIAS"@ by {
                assert(rest[i] == "DUPLICATE_PHYSICAL_ALIAS"@);
            }
            if codes.last() != "DUPLICATE_PHYSICAL_ALIAS"@ {
                assert(first_other(codes, n));
            }
        }
    }
}

/// A file is read from where its plan says, in the state that its plan says. One that is built anew
/// is read from its start, without an owner; one that is skipped or rejected is not read.
pub proof fn law_plans_tell_where_to_read(plan: FilePlan)
    ensures
        plan is Skip || plan is Reject ==> read_from(plan) is None,
        plan matches FilePlan::ReadFrom { source_file_id, start_offset, observed_size, resume_state }
            ==> read_from(plan) == Some(
            ReadFrom { source_file_id, start_offset, observed_size, resume_state },
        ),
        plan matches FilePlan::Rebuild { source_file_id, observed_size } ==> (read_from(plan) matches
            Some(from) && from.source_file_id == source_file_id && from.start_offset == 0
            && from.observed_size == observed_size && from.resume_state is AwaitOwningMeta),
{
}

/// Why a file is not read, the first of these: it is not planned to be, its size or its identity
/// is negative, or it is to be read from the middle and its checkpoint has no guard, or one that
/// is not thirty-two bytes long.
pub proof fn law_files_need_a_guard_to_go_on(
    file: DiscoveredFile,
    entry: MetadataScanStateEntry,
    plan: FilePlan,
)
    ensures
        ({
            let error = reading_error(file, entry, plan);
            let planned = plan is ReadFrom || plan is Rebuild;
            let sized = planned && read_from(plan)->0.observed_size >= 0;
            let identified = sized && file.device_id >= 0 && file.inode >= 0;
            let middle = plan is ReadFrom && plan->start_offset > 0;
            let guarded = entry.metadata_checkpoint is Some
                && entry.metadata_checkpoint->0.guard_hash is Some;
            let size = entry.metadata_checkpoint->0.guard_hash->0@.len();
            &&& !planned ==> error == Some("METADATA_PLAN_NOT_READ"@)
            &&& planned && !sized ==> error == Some("SOURCE_SIZE_INVALID"@)
            &&& sized && !identified ==> error == Some("SOURCE_IDENTITY_INVALID"@)
            &&& identified && middle && !guarded ==> error == Some("CHECKPOINT_GUARD_MISSING"@)
            &&& identified && middle && guarded && size != 32 ==> error == Some(
                "CHECKPOINT_GUARD_INVALID"@,
            )
            &&& identified && middle && guarded && size == 32 ==> error is None
            &&& identified && !middle ==> error is None
        }),
{
}

/// The metadata parser goes on from a stored fact only where it resumes an owner, and only if the
/// fact matches the file and is sound.
pub proof fn law_facts_are_resumed_with_their_owner(
    from: ReadFrom,
    entry: MetadataScanStateEntry,
    candidates: OwningThreadCandidates,
)
    ensures
        ({
            let context = metadata_context(from, entry, candidates);
            &&& context.platform == entry.source.platform
            &&& context.source_file_id == from.source_file_id
            &&& context.chunk_start_offset == from.start_offset
            &&& context.candidates == candidates
            &&& context.resume_state == from.resume_state
            &&& context.existing_fact is Some <==> from.resume_state != ResumeState::AwaitOwningMeta
                && entry.safe_fact is Matching && entry.safe_fact->Matching_0.fault() is None
        }),
{
    if let SafeFactState::Matching(fact) = entry.safe_fact {
        assert(fact == entry.safe_fact->Matching_0);
    }
}

/// The thread of a file is the first of the state index whose rollout path is that of the file.
pub proof fn law_files_belong_to_the_first_thread(threads: Seq<StateThreadFact>, same_path: Seq<bool>)
    requires
        same_path.len() == threads.len(),
    ensures
        ({
            let found = rollout_thread(threads, same_path);
            &&& found is None <==> forall|i: int|
                0 <= i < threads.len() ==> !((#[trigger] threads[i]).rollout_path is Some
                    && same_path[i])
            &&& found matches Some(k) ==> {
                &&& 0 <= k < threads.len()
                &&& threads[k].rollout_path is Some && same_path[k]
                &&& forall|i: int|
                    0 <= i < k ==> !((#[trigger] threads[i]).rollout_path is Some && same_path[i])
            }
        }),
    decreases threads.len(),
{
    lemma_first_thread(threads, same_path);
}

proof fn lemma_first_thread(threads: Seq<StateThreadFact>, same_path: Seq<bool>)
    requires
        same_path.len() >= threads.len(),
    ensures
        ({
            let found = rollout_thread(threads, same_path);
            &&& found is None <==> forall|i: int|
                0 <= i < threads.len() ==> !((#[trigger] threads[i]).rollout_path is Some
                    && same_path[i])
            &&& found matches Some(k) ==> {
                &&& 0 <= k < threads.len()
                &&& threads[k].rollout_path is Some && same_path[k]
                &&& forall|i: int|
                    0 <= i < k ==> !((#[trigger] threads[i]).rollout_path is Some && same_path[i])
            }
        }),
    decreases threads.len(),
{
    if threads.len() > 0 {
        let rest = threads.drop_last();
        let n = threads.len() - 1;
        lemma_first_thread(rest, same_path);
        assert(threads.last() == threads[n]);
        assert forall|i: int| 0 <= i < n implies rest[i] == #[trigger] threads[i] by {}
        match rollout_thread(rest, same_path) {
            Some(k) => {
                assert(threads[k].rollout_path is Some && same_path[k]);
            },
            None => {
                assert forall|i: int| 0 <= i < n implies !((#[trigger] threads[i]).rollout_path
                    is Some && same_path[i]) by {
                    assert(!(rest[i].rollout_path is Some && same_path[i]));
                }
            },
        }
    }
}

} // verus!
