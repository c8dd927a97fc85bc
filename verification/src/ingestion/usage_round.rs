//! One round of usage: every thread is taken up, and a finished build is activated.
//!
//! A round is told what happened and says what to do next, as a group of one thread does.
use vstd::prelude::*;

use crate::domain::SourceObservationResult;
use crate::normalization::USAGE_PARSER_VERSION;
use crate::order::sort_ids;
#[allow(unused_imports)]
use crate::order::sorted_ids;
use super::report::ScanReport;
#[allow(unused_imports)]
use super::report::ReportFacts;
use super::thread_group::UsageThreadOutcome;
#[allow(unused_imports)]
use super::thread_group::OutcomeFacts;
use super::usage_plan::SourceUsageEpochState;

verus! {

/// How many rows of old ledgers are removed in one round.
pub const CLEANUP_ROWS_PER_ROUND: usize = 2048;

/// How far a source of a build has come.
#[derive(Clone, Copy, Debug, PartialEq, Eq, Structural)]
pub enum CompletionStatus {
    Pending,
    Blocked,
    Rebuilt,
    Carried,
    Quarantined,
}

pub open spec fn settled(status: CompletionStatus) -> bool {
    status is Rebuilt || status is Carried || status is Quarantined
}

pub open spec fn all_settled(members: Seq<CompletionStatus>) -> bool {
    forall|i: int| 0 <= i < members.len() ==> settled(#[trigger] members[i])
}

fn members_settled(members: &Vec<CompletionStatus>) -> (r: bool)
    ensures
        r == all_settled(members@),
{
    let mut i: usize = 0;
    while i < members.len()
        invariant
            i <= members.len(),
            forall|j: int| 0 <= j < i ==> settled(#[trigger] members@[j]),
        decreases members.len() - i,
    {
        match members[i] {
            CompletionStatus::Rebuilt
            | CompletionStatus::Carried
            | CompletionStatus::Quarantined => {},
            _ => {
                assert(!settled(members@[i as int]));
                return false;
            },
        }
        i = i + 1;
    }
    true
}

/// The number of each source that was observed.
pub open spec fn result_ids(results: Seq<SourceObservationResult>) -> Seq<i64> {
    Seq::new(results.len(), |i: int| results[i].source_file_id)
}

/// The sources that discovery saw, in order and each once. Discovery and what storage made of
/// it have to be of the same length.
pub fn present_sources(file_count: usize, results: &Vec<SourceObservationResult>) -> (r: Result<
    Vec<i64>,
    &'static str,
>)
    ensures
        r is Ok <==> file_count == results@.len(),
        r matches Ok(ids) ==> sorted_ids(result_ids(results@), ids@),
        r matches Err(error) ==> error@ == "USAGE_DISCOVERY_RESULT_MISMATCH"@,
{
    if file_count != results.len() {
        return Err("USAGE_DISCOVERY_RESULT_MISMATCH");
    }
    let mut ids: Vec<i64> = Vec::new();
    let mut i: usize = 0;
    while i < results.len()
        invariant
            i <= results.len(),
            ids@ == result_ids(results@).take(i as int),
        decreases results.len() - i,
    {
        ids.push(results[i].source_file_id);
        assert(ids@ =~= result_ids(results@).take(i + 1));
        i = i + 1;
    }
    assert(result_ids(results@).take(i as int) =~= result_ids(results@));
    Ok(sort_ids(&ids))
}

/// The last observation of a source is the one that counts.
pub open spec fn last_observation(results: Seq<SourceObservationResult>, id: i64) -> Option<int>
    decreases results.len(),
{
    if results.len() == 0 {
        None
    } else if results.last().source_file_id == id {
        Some(results.len() - 1)
    } else {
        last_observation(results.drop_last(), id)
    }
}

pub open spec fn place_of(r: Option<usize>) -> Option<int> {
    match r {
        Some(i) => Some(i as int),
        None => None,
    }
}

/// Finds the file of a source.
pub fn present_file(results: &Vec<SourceObservationResult>, source_file_id: i64) -> (r: Option<
    usize,
>)
    ensures
        place_of(r) == last_observation(results@, source_file_id),
        r matches Some(i) ==> i < results@.len() && results@[i as int].source_file_id
            == source_file_id,
{
    let mut i: usize = results.len();
    assert(results@.take(i as int) =~= results@);
    while i > 0
        invariant
            i <= results.len(),
            last_observation(results@, source_file_id) == last_observation(
                results@.take(i as int),
                source_file_id,
            ),
        decreases i,
    {
        assert(results@.take(i as int).last() == results@[i - 1]);
        assert(results@.take(i as int).drop_last() =~= results@.take(i - 1));
        if results[i - 1].source_file_id == source_file_id {
            return Some(i - 1);
        }
        i = i - 1;
    }
    None
}

/// The sources to look at first: all of them when the quarantine has changed, else those that
/// changed since.
pub open spec fn work_sources(present: Seq<i64>, dirty: bool, unchanged: Seq<i64>) -> Seq<i64> {
    if dirty {
        present
    } else {
        present.filter(|id: i64| !unchanged.contains(id))
    }
}

fn holds(ids: &Vec<i64>, id: i64) -> (r: bool)
    ensures
        r == ids@.contains(id),
{
    let mut i: usize = 0;
    while i < ids.len()
        invariant
            i <= ids.len(),
            forall|j: int| 0 <= j < i ==> ids@[j] != id,
        decreases ids.len() - i,
    {
        if ids[i] == id {
            assert(ids@[i as int] == id);
            return true;
        }
        i = i + 1;
    }
    false
}

pub fn select_work_sources(present: &Vec<i64>, dirty: bool, unchanged: &Vec<i64>) -> (r: Vec<i64>)
    ensures
        r@ == work_sources(present@, dirty, unchanged@),
{
    if dirty {
        let r: Vec<i64> = present.clone();
        assert(r@ =~= present@);
        return r;
    }
    let ghost wanted = |id: i64| !unchanged@.contains(id);
    let mut r: Vec<i64> = Vec::new();
    let mut i: usize = 0;
    proof {
        reveal(Seq::filter);
        assert(present@.take(0) =~= Seq::<i64>::empty());
        assert(r@ =~= present@.take(0).filter(wanted));
    }
    while i < present.len()
        invariant
            i <= present.len(),
            wanted == (|id: i64| !unchanged@.contains(id)),
            r@ == present@.take(i as int).filter(wanted),
        decreases present.len() - i,
    {
        proof {
            reveal(Seq::filter);
            assert(present@.take(i + 1).drop_last() =~= present@.take(i as int));
            assert(present@.take(i + 1).last() == present@[i as int]);
        }
        if !holds(unchanged, present[i]) {
            r.push(present[i]);
        }
        i = i + 1;
    }
    assert(present@.take(i as int) =~= present@);
    r
}

/// What happened.
pub enum RoundEvent {
    QuarantineLoaded { dirty: bool },
    WorkListLoaded { epoch: SourceUsageEpochState, threads: Vec<String>, cancelled: bool },
    ThreadDone { outcome: UsageThreadOutcome, cancelled: bool },
    Done,
    Resumed { build_epoch: i64, members: Vec<CompletionStatus> },
    Failed,
}

pub enum RoundEventFacts {
    QuarantineLoaded { dirty: bool },
    WorkListLoaded { epoch: SourceUsageEpochState, threads: Seq<Seq<char>>, cancelled: bool },
    ThreadDone { outcome: OutcomeFacts, cancelled: bool },
    Done,
    Resumed { build_epoch: i64, members: Seq<CompletionStatus> },
    Failed,
}

impl RoundEvent {
    pub open spec fn facts(self) -> RoundEventFacts {
        match self {
            RoundEvent::QuarantineLoaded { dirty } => RoundEventFacts::QuarantineLoaded { dirty },
            RoundEvent::WorkListLoaded { epoch, threads, cancelled } =>
                RoundEventFacts::WorkListLoaded { epoch, threads: threads.deep_view(), cancelled },
            RoundEvent::ThreadDone { outcome, cancelled } => RoundEventFacts::ThreadDone {
                outcome: outcome.deep_view(),
                cancelled,
            },
            RoundEvent::Done => RoundEventFacts::Done,
            RoundEvent::Resumed { build_epoch, members } => RoundEventFacts::Resumed {
                build_epoch,
                members: members@,
            },
            RoundEvent::Failed => RoundEventFacts::Failed,
        }
    }
}

/// What to do next.
pub enum RoundAction {
    LoadQuarantine,
    /// Load which threads have work: of the sources to look at first, or of all.
    LoadWorkList { first: bool },
    /// Open a build of all sources.
    BeginRebuild,
    /// Build all sources anew within the build that is open.
    ReplaceAll,
    /// Take up the thread with this index.
    ProcessThread(usize),
    Quarantine { thread: usize, code: &'static str },
    /// Ask how far the build has come.
    ResumeRebuild,
    Activate(i64),
    Cleanup(usize),
    Finish(Result<(), &'static str>),
}

pub enum RoundActionFacts {
    LoadQuarantine,
    LoadWorkList { first: bool },
    BeginRebuild,
    ReplaceAll,
    ProcessThread(int),
    Quarantine { thread: int, code: Seq<char> },
    ResumeRebuild,
    Activate(i64),
    Cleanup(int),
    Finish(Result<(), Seq<char>>),
}

impl RoundAction {
    pub open spec fn facts(self) -> RoundActionFacts {
        match self {
            RoundAction::LoadQuarantine => RoundActionFacts::LoadQuarantine,
            RoundAction::LoadWorkList { first } => RoundActionFacts::LoadWorkList { first },
            RoundAction::BeginRebuild => RoundActionFacts::BeginRebuild,
            RoundAction::ReplaceAll => RoundActionFacts::ReplaceAll,
            RoundAction::ProcessThread(i) => RoundActionFacts::ProcessThread(i as int),
            RoundAction::Quarantine { thread, code } => RoundActionFacts::Quarantine {
                thread: thread as int,
                code: code@,
            },
            RoundAction::ResumeRebuild => RoundActionFacts::ResumeRebuild,
            RoundAction::Activate(epoch) => RoundActionFacts::Activate(epoch),
            RoundAction::Cleanup(rows) => RoundActionFacts::Cleanup(rows as int),
            RoundAction::Finish(Ok(())) => RoundActionFacts::Finish(Ok(())),
            RoundAction::Finish(Err(error)) => RoundActionFacts::Finish(Err(error@)),
        }
    }
}

/// What the round waits for.
#[derive(Clone, Copy, Debug, PartialEq, Eq, Structural)]
pub enum RoundStage {
    Quarantine,
    FirstLoad,
    Reload,
    Retry,
    Begin,
    Replace,
    Thread(usize),
    Quarantining,
    Resuming(i64),
    Activating,
    Cleaning,
    Finished,
}

pub struct UsageRound {
    pub discovery_complete: bool,
    pub dirty: bool,
    pub epoch: SourceUsageEpochState,
    pub threads: Vec<String>,
    pub skipped: Vec<String>,
    pub first_error: Option<&'static str>,
    pub stage: RoundStage,
}

#[verifier::ext_equal]
pub struct RoundFacts {
    pub discovery_complete: bool,
    pub dirty: bool,
    pub epoch: SourceUsageEpochState,
    pub threads: Seq<Seq<char>>,
    pub skipped: Seq<Seq<char>>,
    pub first_error: Option<Seq<char>>,
    pub stage: RoundStage,
}

pub open spec fn code_view(code: Option<&'static str>) -> Option<Seq<char>> {
    match code {
        Some(code) => Some(code@),
        None => None,
    }
}

impl DeepView for UsageRound {
    type V = RoundFacts;

    open spec fn deep_view(&self) -> RoundFacts {
        RoundFacts {
            discovery_complete: self.discovery_complete,
            dirty: self.dirty,
            epoch: self.epoch,
            threads: self.threads.deep_view(),
            skipped: self.skipped.deep_view(),
            first_error: code_view(self.first_error),
            stage: self.stage,
        }
    }
}

/// The round after an event, with what to do next.
pub struct RoundMove {
    pub round: RoundFacts,
    pub action: RoundActionFacts,
}

pub open spec fn no_epoch() -> SourceUsageEpochState {
    SourceUsageEpochState {
        active_epoch: 0,
        build_epoch: None,
        working_epoch: 0,
        working_parser_version: 0,
    }
}

/// The first thread from `i` on that is not skipped.
pub open spec fn thread_from(threads: Seq<Seq<char>>, skipped: Seq<Seq<char>>, i: int) -> Option<int>
    decreases threads.len() - i,
{
    if i < 0 || i >= threads.len() {
        None
    } else if skipped.contains(threads[i]) {
        thread_from(threads, skipped, i + 1)
    } else {
        Some(i)
    }
}

/// Which code a failure has.
pub open spec fn failure(stage: RoundStage) -> Seq<char> {
    match stage {
        RoundStage::Quarantine => "USAGE_QUARANTINE_STATE_FAILED"@,
        RoundStage::FirstLoad => "USAGE_WORKLIST_LOAD_FAILED"@,
        RoundStage::Reload => "USAGE_WORKLIST_RELOAD_FAILED"@,
        RoundStage::Retry => "USAGE_QUARANTINE_RETRY_BEGIN_FAILED"@,
        RoundStage::Begin => "USAGE_REBUILD_BEGIN_FAILED"@,
        RoundStage::Replace => "USAGE_REBUILD_REPLACE_FAILED"@,
        RoundStage::Quarantining => "USAGE_SESSION_QUARANTINE_FAILED"@,
        RoundStage::Resuming(_) => "USAGE_REBUILD_RESUME_FAILED"@,
        RoundStage::Activating => "USAGE_REBUILD_ACTIVATE_FAILED"@,
        _ => "USAGE_CLEANUP_FAILED"@,
    }
}

impl RoundFacts {
    pub open spec fn start(discovery_complete: bool) -> RoundFacts {
        RoundFacts {
            discovery_complete,
            dirty: false,
            epoch: no_epoch(),
            threads: Seq::empty(),
            skipped: Seq::empty(),
            first_error: None,
            stage: RoundStage::Quarantine,
        }
    }

    pub open spec fn to(self, stage: RoundStage, action: RoundActionFacts) -> RoundMove {
        RoundMove { round: RoundFacts { stage, ..self }, action }
    }

    pub open spec fn finish(self, result: Result<(), Seq<char>>) -> RoundMove {
        self.to(RoundStage::Finished, RoundActionFacts::Finish(result))
    }

    pub open spec fn reload(self) -> RoundMove {
        self.to(RoundStage::Reload, RoundActionFacts::LoadWorkList { first: false })
    }

    pub open spec fn unskipped(self) -> RoundFacts {
        RoundFacts { skipped: Seq::empty(), ..self }
    }

    pub open spec fn clean(self) -> RoundMove {
        self.to(RoundStage::Cleaning, RoundActionFacts::Cleanup(CLEANUP_ROWS_PER_ROUND as int))
    }

    /// All threads are done with. A build is activated only after a complete discovery.
    pub open spec fn conclude(self) -> RoundMove {
        if self.discovery_complete && self.epoch.build_epoch is Some {
            self.to(
                RoundStage::Resuming(self.epoch.build_epoch->0),
                RoundActionFacts::ResumeRebuild,
            )
        } else {
            self.clean()
        }
    }

    /// Takes up the next thread from `i` on.
    pub open spec fn proceed(self, i: int, cancelled: bool) -> RoundMove {
        if cancelled {
            self.finish(Ok(()))
        } else {
            match thread_from(self.threads, self.skipped, i) {
                Some(k) => self.to(
                    RoundStage::Thread(k as usize),
                    RoundActionFacts::ProcessThread(k),
                ),
                None => self.conclude(),
            }
        }
    }

    /// What the ledger as a whole needs before any thread: a build, if the quarantine has
    /// changed, if there is no ledger, or if it was written by another parser.
    pub open spec fn on_work_list(
        self,
        epoch: SourceUsageEpochState,
        threads: Seq<Seq<char>>,
        cancelled: bool,
    ) -> RoundMove {
        let loaded = RoundFacts { epoch, threads, ..self };
        let retry = self.dirty && epoch.active_epoch > 0 && epoch.build_epoch is None;
        let found = epoch.active_epoch == 0 && epoch.build_epoch is None;
        let outdated = epoch.working_parser_version != USAGE_PARSER_VERSION;
        if !(retry || found || outdated) {
            loaded.proceed(0, cancelled)
        } else if !self.discovery_complete {
            loaded.finish(Ok(()))
        } else if retry {
            loaded.to(RoundStage::Retry, RoundActionFacts::BeginRebuild)
        } else if found || epoch.build_epoch is None {
            loaded.to(RoundStage::Begin, RoundActionFacts::BeginRebuild)
        } else {
            loaded.to(RoundStage::Replace, RoundActionFacts::ReplaceAll)
        }
    }

    pub open spec fn on_thread(self, i: int, outcome: OutcomeFacts, cancelled: bool) -> RoundMove {
        match outcome {
            OutcomeFacts::Completed => self.proceed(i + 1, cancelled),
            OutcomeFacts::GlobalPlanChanged { retry_thread } => if retry_thread {
                self.reload()
            } else {
                RoundFacts { skipped: self.skipped.push(self.threads[i]), ..self }.reload()
            },
            OutcomeFacts::SessionDataError(code) => if self.epoch.build_epoch is None {
                self.finish(Err(code))
            } else {
                self.to(
                    RoundStage::Quarantining,
                    RoundActionFacts::Quarantine { thread: i, code },
                )
            },
            OutcomeFacts::OrdinaryError(code) => RoundFacts {
                first_error: if self.first_error is Some {
                    self.first_error
                } else {
                    Some(code)
                },
                ..self
            }.proceed(i + 1, cancelled),
            OutcomeFacts::FatalReloadError(code) => self.finish(Err(code)),
        }
    }

    pub open spec fn on_resumed(self, wanted: i64, build_epoch: i64, members: Seq<CompletionStatus>) -> RoundMove {
        if build_epoch == wanted && all_settled(members) {
            self.to(RoundStage::Activating, RoundActionFacts::Activate(wanted))
        } else {
            self.clean()
        }
    }

    pub open spec fn on_done(self) -> RoundMove {
        match self.stage {
            RoundStage::Activating => self.clean(),
            RoundStage::Cleaning => self.finish(
                match self.first_error {
                    Some(code) => Err(code),
                    None => Ok(()),
                },
            ),
            _ => self.unskipped().reload(),
        }
    }

    /// The event is one that the round waits for.
    pub open spec fn awaits(self, event: RoundEventFacts) -> bool {
        match self.stage {
            RoundStage::Quarantine => event is QuarantineLoaded || event is Failed,
            RoundStage::FirstLoad => event is WorkListLoaded || event is Failed,
            RoundStage::Reload => event is WorkListLoaded || event is Failed,
            RoundStage::Thread(i) => event is ThreadDone && i < self.threads.len(),
            RoundStage::Resuming(_) => event is Resumed || event is Failed,
            RoundStage::Finished => false,
            _ => event is Done || event is Failed,
        }
    }

    /// The round after an event.
    pub open spec fn after(self, event: RoundEventFacts) -> RoundMove {
        match event {
            RoundEventFacts::QuarantineLoaded { dirty } => RoundFacts { dirty, ..self }.to(
                RoundStage::FirstLoad,
                RoundActionFacts::LoadWorkList { first: true },
            ),
            RoundEventFacts::WorkListLoaded { epoch, threads, cancelled } => self.on_work_list(
                epoch,
                threads,
                cancelled,
            ),
            RoundEventFacts::ThreadDone { outcome, cancelled } => self.on_thread(
                self.stage->Thread_0 as int,
                outcome,
                cancelled,
            ),
            RoundEventFacts::Done => self.on_done(),
            RoundEventFacts::Resumed { build_epoch, members } => self.on_resumed(
                self.stage->Resuming_0,
                build_epoch,
                members,
            ),
            RoundEventFacts::Failed => self.finish(Err(failure(self.stage))),
        }
    }

    /// What an event adds to the report: failures with their codes, and how often the plan of
    /// the round was made anew.
    pub open spec fn noted(self, event: RoundEventFacts, report: ReportFacts) -> ReportFacts {
        match event {
            RoundEventFacts::ThreadDone { outcome, .. } => match outcome {
                OutcomeFacts::Completed => report,
                OutcomeFacts::GlobalPlanChanged { .. } => report.with_replan(),
                OutcomeFacts::SessionDataError(code) => report.with_failed_source().with_error(
                    code,
                ),
                OutcomeFacts::OrdinaryError(code) => report.with_failed_source().with_error(code),
                OutcomeFacts::FatalReloadError(code) => report.with_failed_source().with_error(
                    code,
                ),
            },
            RoundEventFacts::Done => if self.stage is Activating || self.stage is Cleaning {
                report
            } else {
                report.with_replan()
            },
            _ => report,
        }
    }
}

fn names(texts: &Vec<String>, text: &String) -> (r: bool)
    ensures
        r == texts.deep_view().contains(text@),
{
    let ghost all = texts.deep_view();
    let mut i: usize = 0;
    while i < texts.len()
        invariant
            i <= texts.len(),
            all == texts.deep_view(),
            forall|j: int| 0 <= j < i ==> #[trigger] all[j] != text@,
        decreases texts.len() - i,
    {
        if texts[i] == *text {
            assert(all[i as int] == text@);
            return true;
        }
        i = i + 1;
    }
    false
}

impl UsageRound {
    /// A round of which nothing is loaded yet. The first thing to do is to load the quarantine.
    pub fn start(discovery_complete: bool) -> (r: Self)
        ensures
            r.deep_view() == RoundFacts::start(discovery_complete),
    {
        let round: UsageRound = UsageRound {
            discovery_complete,
            dirty: false,
            epoch: SourceUsageEpochState {
                active_epoch: 0,
                build_epoch: None,
                working_epoch: 0,
                working_parser_version: 0,
            },
            threads: Vec::new(),
            skipped: Vec::new(),
            first_error: None,
            stage: RoundStage::Quarantine,
        };
        assert(round.threads.deep_view() =~= Seq::<Seq<char>>::empty());
        assert(round.skipped.deep_view() =~= Seq::<Seq<char>>::empty());
        round
    }

    fn finish(&mut self, result: Result<(), &'static str>) -> (r: RoundAction)
        ensures
            final(self).deep_view() == (RoundFacts {
                stage: RoundStage::Finished,
                ..old(self).deep_view()
            }),
            r == RoundAction::Finish(result),
    {
        self.stage = RoundStage::Finished;
        RoundAction::Finish(result)
    }

    fn clean(&mut self) -> (r: RoundAction)
        ensures
            final(self).deep_view() == old(self).deep_view().clean().round,
            r.facts() == old(self).deep_view().clean().action,
    {
        self.stage = RoundStage::Cleaning;
        RoundAction::Cleanup(CLEANUP_ROWS_PER_ROUND)
    }

    fn reload(&mut self) -> (r: RoundAction)
        ensures
            final(self).deep_view() == old(self).deep_view().reload().round,
            r.facts() == old(self).deep_view().reload().action,
    {
        self.stage = RoundStage::Reload;
        RoundAction::LoadWorkList { first: false }
    }

    fn proceed(&mut self, from: usize, cancelled: bool) -> (r: RoundAction)
        requires
            from <= old(self).threads@.len(),
        ensures
            final(self).deep_view() == old(self).deep_view().proceed(from as int, cancelled).round,
            r.facts() == old(self).deep_view().proceed(from as int, cancelled).action,
    {
        if cancelled {
            return self.finish(Ok(()));
        }
        let ghost facts = self.deep_view();
        let mut i: usize = from;
        while i < self.threads.len()
            invariant
                i <= self.threads@.len(),
                *self == *old(self),
                facts == self.deep_view(),
                !cancelled,
                thread_from(facts.threads, facts.skipped, from as int) == thread_from(
                    facts.threads,
                    facts.skipped,
                    i as int,
                ),
            decreases self.threads.len() - i,
        {
            assert(facts.threads[i as int] == self.threads@[i as int]@);
            if !names(&self.skipped, &self.threads[i]) {
                self.stage = RoundStage::Thread(i);
                return RoundAction::ProcessThread(i);
            }
            i = i + 1;
        }
        if self.discovery_complete {
            if let Some(build_epoch) = self.epoch.build_epoch {
                self.stage = RoundStage::Resuming(build_epoch);
                return RoundAction::ResumeRebuild;
            }
        }
        self.clean()
    }

    fn on_work_list(&mut self, epoch: SourceUsageEpochState, threads: Vec<String>, cancelled: bool) -> (r:
        RoundAction)
        ensures
            ({
                let after = old(self).deep_view().on_work_list(
                    epoch,
                    threads.deep_view(),
                    cancelled,
                );
                final(self).deep_view() == after.round && r.facts() == after.action
            }),
    {
        self.epoch = epoch;
        self.threads = threads;
        let unbuilt: bool = match epoch.build_epoch {
            Some(_) => false,
            None => true,
        };
        let retry: bool = self.dirty && epoch.active_epoch > 0 && unbuilt;
        let found: bool = epoch.active_epoch == 0 && unbuilt;
        let outdated: bool = epoch.working_parser_version != USAGE_PARSER_VERSION;
        if !(retry || found || outdated) {
            return self.proceed(0, cancelled);
        }
        if !self.discovery_complete {
            return self.finish(Ok(()));
        }
        if retry {
            self.stage = RoundStage::Retry;
            RoundAction::BeginRebuild
        } else if unbuilt {
            self.stage = RoundStage::Begin;
            RoundAction::BeginRebuild
        } else {
            self.stage = RoundStage::Replace;
            RoundAction::ReplaceAll
        }
    }

    fn on_thread(
        &mut self,
        i: usize,
        outcome: UsageThreadOutcome,
        cancelled: bool,
        report: &mut ScanReport,
    ) -> (r: RoundAction)
        requires
            i < old(self).threads@.len(),
        ensures
            ({
                let before = old(self).deep_view();
                let after = before.on_thread(i as int, outcome.deep_view(), cancelled);
                &&& final(self).deep_view() == after.round
                &&& r.facts() == after.action
                &&& final(report).deep_view() == before.noted(
                    RoundEventFacts::ThreadDone { outcome: outcome.deep_view(), cancelled },
                    old(report).deep_view(),
                )
            }),
    {
        let ghost before = self.deep_view();
        assert(i < self.threads.len());
        assert(before.threads[i as int] == self.threads@[i as int]@);
        match outcome {
            UsageThreadOutcome::Completed => self.proceed(i + 1, cancelled),
            UsageThreadOutcome::GlobalPlanChanged { retry_thread } => {
                report.observe_usage_global_replan();
                if !retry_thread {
                    let thread: String = self.threads[i].clone();
                    self.skipped.push(thread);
                    assert(self.skipped.deep_view() =~= before.skipped.push(
                        before.threads[i as int],
                    ));
                }
                self.reload()
            },
            UsageThreadOutcome::SessionDataError(code) => {
                report.failed_source();
                report.error(code);
                match self.epoch.build_epoch {
                    None => self.finish(Err(code)),
                    Some(_) => {
                        self.stage = RoundStage::Quarantining;
                        RoundAction::Quarantine { thread: i, code }
                    },
                }
            },
            UsageThreadOutcome::OrdinaryError(code) => {
                report.failed_source();
                report.error(code);
                if self.first_error.is_none() {
                    self.first_error = Some(code);
                }
                self.proceed(i + 1, cancelled)
            },
            UsageThreadOutcome::FatalReloadError(code) => {
                report.failed_source();
                report.error(code);
                self.finish(Err(code))
            },
        }
    }

    fn on_done(&mut self, report: &mut ScanReport) -> (r: RoundAction)
        ensures
            ({
                let before = old(self).deep_view();
                let after = before.on_done();
                &&& final(self).deep_view() == after.round
                &&& r.facts() == after.action
                &&& final(report).deep_view() == before.noted(
                    RoundEventFacts::Done,
                    old(report).deep_view(),
                )
            }),
    {
        match self.stage {
            RoundStage::Activating => self.clean(),
            RoundStage::Cleaning => match self.first_error {
                Some(code) => self.finish(Err(code)),
                None => self.finish(Ok(())),
            },
            _ => {
                report.observe_usage_global_replan();
                self.skipped = Vec::new();
                assert(self.skipped.deep_view() =~= Seq::<Seq<char>>::empty());
                self.reload()
            },
        }
    }

    fn failed(&mut self) -> (r: RoundAction)
        ensures
            ({
                let after = old(self).deep_view().after(RoundEventFacts::Failed);
                final(self).deep_view() == after.round && r.facts() == after.action
            }),
    {
        let code: &'static str = match self.stage {
            RoundStage::Quarantine => "USAGE_QUARANTINE_STATE_FAILED",
            RoundStage::FirstLoad => "USAGE_WORKLIST_LOAD_FAILED",
            RoundStage::Reload => "USAGE_WORKLIST_RELOAD_FAILED",
            RoundStage::Retry => "USAGE_QUARANTINE_RETRY_BEGIN_FAILED",
            RoundStage::Begin => "USAGE_REBUILD_BEGIN_FAILED",
            RoundStage::Replace => "USAGE_REBUILD_REPLACE_FAILED",
            RoundStage::Quarantining => "USAGE_SESSION_QUARANTINE_FAILED",
            RoundStage::Resuming(_) => "USAGE_REBUILD_RESUME_FAILED",
            RoundStage::Activating => "USAGE_REBUILD_ACTIVATE_FAILED",
            _ => "USAGE_CLEANUP_FAILED",
        };
        self.finish(Err(code))
    }

    /// Takes note of what happened, here and in the report, and says what to do next.
    pub fn step(&mut self, event: RoundEvent, report: &mut ScanReport) -> (r: RoundAction)
        requires
            old(self).deep_view().awaits(event.facts()),
        ensures
            ({
                let before = old(self).deep_view();
                let after = before.after(event.facts());
                &&& final(self).deep_view() == after.round
                &&& r.facts() == after.action
                &&& final(report).deep_view() == before.noted(
                    event.facts(),
                    old(report).deep_view(),
                )
            }),
    {
        match event {
            RoundEvent::QuarantineLoaded { dirty } => {
                self.dirty = dirty;
                self.stage = RoundStage::FirstLoad;
                RoundAction::LoadWorkList { first: true }
            },
            RoundEvent::WorkListLoaded { epoch, threads, cancelled } => self.on_work_list(
                epoch,
                threads,
                cancelled,
            ),
            RoundEvent::ThreadDone { outcome, cancelled } => {
                let i: usize = match self.stage {
                    RoundStage::Thread(i) => i,
                    _ => 0,
                };
                self.on_thread(i, outcome, cancelled, report)
            },
            RoundEvent::Done => self.on_done(report),
            RoundEvent::Resumed { build_epoch, members } => {
                let wanted: i64 = match self.stage {
                    RoundStage::Resuming(wanted) => wanted,
                    _ => 0,
                };
                if build_epoch == wanted && members_settled(&members) {
                    self.stage = RoundStage::Activating;
                    RoundAction::Activate(wanted)
                } else {
                    self.clean()
                }
            },
            RoundEvent::Failed => self.failed(),
        }
    }
}

/// A build is activated only after a complete discovery, and only if each of its sources was
/// rebuilt, carried over or set aside.
pub proof fn law_activation_is_earned(round: RoundFacts, event: RoundEventFacts, epoch: i64)
    requires
        round.awaits(event),
        round.after(event).action == RoundActionFacts::Activate(epoch),
    ensures
        event matches RoundEventFacts::Resumed { build_epoch, members } && build_epoch == epoch
            && all_settled(members),
        round.stage == RoundStage::Resuming(epoch),
{
}

/// The build that is asked after is the one that is open, and discovery was complete.
pub proof fn law_builds_are_resumed_after_complete_discovery(round: RoundFacts, event: RoundEventFacts)
    requires
        round.after(event).action is ResumeRebuild,
    ensures
        round.discovery_complete,
        round.after(event).round.epoch.build_epoch is Some,
        round.after(event).round.stage == RoundStage::Resuming(
            round.after(event).round.epoch.build_epoch->0,
        ),
{
}

/// As long as discovery is incomplete, no build is opened, replaced or activated.
pub proof fn law_incomplete_discovery_builds_nothing(round: RoundFacts, event: RoundEventFacts)
    requires
        !round.discovery_complete,
        round.awaits(event),
        !(round.stage is Resuming),
    ensures
        !round.after(event).round.discovery_complete,
        !(round.after(event).round.stage is Resuming),
        !(round.after(event).action is BeginRebuild),
        !(round.after(event).action is ReplaceAll),
        !(round.after(event).action is ResumeRebuild),
        !(round.after(event).action is Activate),
{
}

/// A failure of one thread does not stop the others, and the first such failure is what the
/// round ends with.
pub proof fn law_first_error_is_kept(round: RoundFacts, event: RoundEventFacts)
    requires
        round.first_error is Some,
    ensures
        round.after(event).round.first_error == round.first_error,
        round.stage is Cleaning && event is Done ==> round.after(event).action
            == RoundActionFacts::Finish(Err::<(), _>(round.first_error->0)),
{
}

/// A thread that was taken up is not one of those that are skipped.
pub proof fn law_skipped_threads_rest(round: RoundFacts, event: RoundEventFacts, i: int)
    requires
        round.awaits(event),
        round.after(event).action == RoundActionFacts::ProcessThread(i),
    ensures
        0 <= i < round.after(event).round.threads.len(),
        !round.after(event).round.skipped.contains(round.after(event).round.threads[i]),
{
    let after = round.after(event).round;
    if event is ThreadDone {
        lemma_thread_from(after.threads, after.skipped, round.stage->Thread_0 + 1);
    } else {
        lemma_thread_from(after.threads, after.skipped, 0);
    }
}

proof fn lemma_thread_from(threads: Seq<Seq<char>>, skipped: Seq<Seq<char>>, i: int)
    requires
        0 <= i,
    ensures
        thread_from(threads, skipped, i) matches Some(k) ==> i <= k < threads.len()
            && !skipped.contains(threads[k]),
    decreases threads.len() - i,
{
    if i < threads.len() && skipped.contains(threads[i]) {
        lemma_thread_from(threads, skipped, i + 1);
    }
}

} // verus!
