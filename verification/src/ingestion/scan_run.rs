//! A whole scan of the source: metadata first, then usage.
//!
//! A scan is told what happened and says what to do next. It decides; whoever runs it reads
//! files and talks to storage.
use vstd::prelude::*;

use crate::diagnostics::SourceAvailability;
use crate::domain::{CheckpointRebuildCommand, MetadataScanState, SourceObservationResult};
#[allow(unused_imports)]
use crate::domain::MetadataScanStateEntry;
#[allow(unused_imports)]
use crate::order::{code_views, sorted_ids};
use super::metadata_reading::{is_read, metadata_rebuilds, ScanRound};
#[allow(unused_imports)]
use super::metadata_reading::{read_from, rebuilt_ids, some_not_positive, ScanFacts};
use super::report::{ParsedSource, PipelinePlan};
#[allow(unused_imports)]
use super::report::{one_more, plan_at, FilePlan, ReportFacts};
#[allow(unused_imports)]
use super::usage_commit::error_of;

verus! {

/// What happened.
pub enum ScanEvent {
    StateRead { threads: SourceAvailability, spawn_edges: SourceAvailability, cancelled: bool },
    NamesRead { status: SourceAvailability, cancelled: bool },
    Discovered { files: usize, codes: Vec<&'static str>, complete: bool },
    Observed {
        results: Vec<SourceObservationResult>,
        scan_state: MetadataScanState,
        cancelled: bool,
    },
    Planned { plan: PipelinePlan, cancelled: bool },
    Parsed { source: Result<ParsedSource, &'static str>, cancelled: bool },
    Done { cancelled: bool },
    UsageDone(Result<(), &'static str>),
    /// A carried source could not be looked at, for this reason.
    ProofFailed(&'static str),
    Failed,
}

pub enum ScanEventFacts {
    StateRead { threads: SourceAvailability, spawn_edges: SourceAvailability, cancelled: bool },
    NamesRead { status: SourceAvailability, cancelled: bool },
    Discovered { files: usize, codes: Seq<Seq<char>>, complete: bool },
    Observed {
        results: Seq<SourceObservationResult>,
        entries: Seq<MetadataScanStateEntry>,
        cancelled: bool,
    },
    Planned { plans: Seq<FilePlan>, cancelled: bool },
    Parsed { source: Result<ParsedSource, Seq<char>>, cancelled: bool },
    Done { cancelled: bool },
    UsageDone(Option<Seq<char>>),
    ProofFailed(Seq<char>),
    Failed,
}

pub open spec fn parsed_view(source: Result<ParsedSource, &'static str>) -> Result<
    ParsedSource,
    Seq<char>,
> {
    match source {
        Ok(source) => Ok(source),
        Err(code) => Err(code@),
    }
}

impl ScanEvent {
    pub open spec fn facts(self) -> ScanEventFacts {
        match self {
            ScanEvent::StateRead { threads, spawn_edges, cancelled } => ScanEventFacts::StateRead {
                threads,
                spawn_edges,
                cancelled,
            },
            ScanEvent::NamesRead { status, cancelled } => ScanEventFacts::NamesRead {
                status,
                cancelled,
            },
            ScanEvent::Discovered { files, codes, complete } => ScanEventFacts::Discovered {
                files,
                codes: code_views(codes@),
                complete,
            },
            ScanEvent::Observed { results, scan_state, cancelled } => ScanEventFacts::Observed {
                results: results@,
                entries: scan_state.entries@,
                cancelled,
            },
            ScanEvent::Planned { plan, cancelled } => ScanEventFacts::Planned {
                plans: plan.plans@,
                cancelled,
            },
            ScanEvent::Parsed { source, cancelled } => ScanEventFacts::Parsed {
                source: parsed_view(source),
                cancelled,
            },
            ScanEvent::Done { cancelled } => ScanEventFacts::Done { cancelled },
            ScanEvent::UsageDone(result) => ScanEventFacts::UsageDone(error_of(result)),
            ScanEvent::ProofFailed(code) => ScanEventFacts::ProofFailed(code@),
            ScanEvent::Failed => ScanEventFacts::Failed,
        }
    }
}

/// What to do next.
pub enum ScanAction {
    /// Read the state index.
    ReadState,
    /// Read the session index and the global state.
    ReadNames,
    Discover,
    /// Make ready to resolve metadata.
    Prepare,
    /// Look whether carried sources were kept.
    CollectProofs,
    /// Record what was discovered, and load what is known of it.
    Observe,
    /// Plan what is to be done with each file.
    PlanFiles,
    /// Parse the file with this index.
    Parse(usize),
    RequestRebuild(CheckpointRebuildCommand),
    LoadThreads,
    Resolve,
    CommitMetadata,
    RunUsage,
    Finish(Result<(), &'static str>),
}

pub enum ScanActionFacts {
    ReadState,
    ReadNames,
    Discover,
    Prepare,
    CollectProofs,
    Observe,
    PlanFiles,
    Parse(int),
    RequestRebuild,
    LoadThreads,
    Resolve,
    CommitMetadata,
    RunUsage,
    Finish(Option<Seq<char>>),
}

impl ScanAction {
    pub open spec fn facts(self) -> ScanActionFacts {
        match self {
            ScanAction::ReadState => ScanActionFacts::ReadState,
            ScanAction::ReadNames => ScanActionFacts::ReadNames,
            ScanAction::Discover => ScanActionFacts::Discover,
            ScanAction::Prepare => ScanActionFacts::Prepare,
            ScanAction::CollectProofs => ScanActionFacts::CollectProofs,
            ScanAction::Observe => ScanActionFacts::Observe,
            ScanAction::PlanFiles => ScanActionFacts::PlanFiles,
            ScanAction::Parse(i) => ScanActionFacts::Parse(i as int),
            ScanAction::RequestRebuild(_) => ScanActionFacts::RequestRebuild,
            ScanAction::LoadThreads => ScanActionFacts::LoadThreads,
            ScanAction::Resolve => ScanActionFacts::Resolve,
            ScanAction::CommitMetadata => ScanActionFacts::CommitMetadata,
            ScanAction::RunUsage => ScanActionFacts::RunUsage,
            ScanAction::Finish(result) => ScanActionFacts::Finish(error_of(result)),
        }
    }
}

/// What the scan waits for.
#[derive(Clone, Copy, Debug, PartialEq, Eq, Structural)]
pub enum ScanStage {
    State,
    Names,
    Discovery,
    Preparation,
    Proofs,
    Observation,
    Planning,
    Parsing(usize),
    /// The scan was already cancelled when the rebuilds were asked for.
    Requesting { cancelled: bool },
    Loading,
    Resolution,
    Commit,
    Usage,
    Finished,
}

pub struct ScanRun {
    pub round: ScanRound,
    pub stage: ScanStage,
    pub files: usize,
    pub results: Vec<SourceObservationResult>,
    pub scan_state: MetadataScanState,
    pub plan: PipelinePlan,
    pub parsed: Vec<ParsedSource>,
}

#[verifier::ext_equal]
pub struct RunFacts {
    pub scan: ScanFacts,
    pub stage: ScanStage,
    /// How many files were discovered.
    pub files: usize,
    /// What became of each of them.
    pub results: Seq<SourceObservationResult>,
    pub entries: Seq<MetadataScanStateEntry>,
    pub plans: Seq<FilePlan>,
    pub parsed: Seq<ParsedSource>,
}

impl DeepView for ScanRun {
    type V = RunFacts;

    open spec fn deep_view(&self) -> RunFacts {
        RunFacts {
            scan: self.round.deep_view(),
            stage: self.stage,
            files: self.files,
            results: self.results@,
            entries: self.scan_state.entries@,
            plans: self.plan.plans@,
            parsed: self.parsed@,
        }
    }
}

/// The scan after an event, with what to do next. Where the scan closes, its report is
/// finished besides.
pub struct RunMove {
    pub run: RunFacts,
    pub action: ScanActionFacts,
    pub closes: bool,
}

/// Which code a failure has.
pub open spec fn failure(stage: ScanStage) -> Seq<char> {
    match stage {
        ScanStage::Preparation => "METADATA_PIPELINE_INVALID"@,
        ScanStage::Observation => "SOURCE_OBSERVATION_FAILED"@,
        ScanStage::Requesting { .. } => "STORAGE_COMMIT_FAILED"@,
        ScanStage::Loading => "METADATA_STATE_LOAD_FAILED"@,
        ScanStage::Resolution => "METADATA_RESOLUTION_FAILED"@,
        _ => "METADATA_COMMIT_FAILED"@,
    }
}

pub open spec fn known(entries: Seq<MetadataScanStateEntry>, source_file_id: i64) -> bool {
    exists|i: int|
        0 <= i < entries.len() && (#[trigger] entries[i]).source.source_file_id == source_file_id
}

impl RunFacts {
    pub open spec fn to(self, stage: ScanStage, action: ScanActionFacts) -> RunMove {
        RunMove { run: RunFacts { stage, ..self }, action, closes: false }
    }

    /// The scan breaks off.
    pub open spec fn fail(self, code: Seq<char>) -> RunMove {
        self.to(ScanStage::Finished, ScanActionFacts::Finish(Some(code)))
    }

    /// A scan that was cancelled has not failed.
    pub open spec fn stopped(self) -> RunMove {
        RunMove { closes: true, ..self.to(ScanStage::Finished, ScanActionFacts::Finish(None)) }
    }

    pub open spec fn ended(self) -> RunMove {
        RunMove {
            closes: true,
            ..self.to(ScanStage::Finished, ScanActionFacts::Finish(self.scan.hard_error))
        }
    }

    /// The file is planned to be read, and storage knows it.
    pub open spec fn is_due(self, i: int) -> bool {
        let id = self.results[i].source_file_id;
        &&& plan_at(self.plans, id) matches Some(k) && read_from(self.plans[k]) is Some
        &&& known(self.entries, id)
    }

    /// The next file to be parsed from `i` on.
    pub open spec fn due_from(self, i: int) -> Option<int>
        decreases self.files - i,
    {
        if i < 0 || i >= self.files || i >= self.results.len() {
            None
        } else if self.is_due(i) {
            Some(i)
        } else {
            self.due_from(i + 1)
        }
    }

    /// All files are parsed, or the scan was cancelled. Rebuilds are asked for either way.
    pub open spec fn settle(self, cancelled: bool) -> RunMove {
        let ids = rebuilt_ids(self.parsed);
        if some_not_positive(ids) {
            self.fail("STORAGE_COMMIT_FAILED"@)
        } else if ids.len() > 0 {
            self.to(ScanStage::Requesting { cancelled }, ScanActionFacts::RequestRebuild)
        } else if cancelled {
            self.stopped()
        } else {
            self.to(ScanStage::Loading, ScanActionFacts::LoadThreads)
        }
    }

    pub open spec fn opened(self) -> RunFacts {
        RunFacts {
            scan: ScanFacts {
                report: ReportFacts {
                    body_open_attempts: one_more(self.scan.report.body_open_attempts),
                    ..self.scan.report
                },
                ..self.scan
            },
            ..self
        }
    }

    pub open spec fn parse_from(self, i: int, cancelled: bool) -> RunMove {
        match self.due_from(i) {
            Some(k) => if cancelled {
                self.settle(true)
            } else {
                self.opened().to(ScanStage::Parsing(k as usize), ScanActionFacts::Parse(k))
            },
            None => self.settle(cancelled),
        }
    }

    pub open spec fn on_parsed(self, i: int, source: Result<ParsedSource, Seq<char>>, cancelled: bool) -> RunMove {
        match source {
            Ok(source) => RunFacts {
                scan: self.scan.with_parsed(source),
                parsed: self.parsed.push(source),
                ..self
            },
            Err(code) => RunFacts { scan: self.scan.with_unparsed(code), ..self },
        }.parse_from(i + 1, cancelled)
    }

    pub open spec fn on_observed(
        self,
        results: Seq<SourceObservationResult>,
        entries: Seq<MetadataScanStateEntry>,
        cancelled: bool,
    ) -> RunMove {
        let observed = RunFacts { results, entries, ..self };
        if cancelled {
            observed.stopped()
        } else {
            RunFacts { scan: observed.scan.with_sources(results), ..observed }.to(
                ScanStage::Planning,
                ScanActionFacts::PlanFiles,
            )
        }
    }

    pub open spec fn on_planned(self, plans: Seq<FilePlan>, cancelled: bool) -> RunMove {
        RunFacts { scan: self.scan.with_plans(plans), plans, ..self }.parse_from(0, cancelled)
    }

    pub open spec fn on_usage_done(self, error: Option<Seq<char>>) -> RunMove {
        match error {
            Some(code) => RunFacts { scan: self.scan.with_hard_error(code), ..self }.ended(),
            None => self.ended(),
        }
    }

    pub open spec fn on_done(self, cancelled: bool) -> RunMove {
        match self.stage {
            ScanStage::Preparation => self.to(ScanStage::Proofs, ScanActionFacts::CollectProofs),
            ScanStage::Proofs => self.to(ScanStage::Observation, ScanActionFacts::Observe),
            ScanStage::Requesting { cancelled: before } => if before || cancelled {
                self.stopped()
            } else {
                self.to(ScanStage::Loading, ScanActionFacts::LoadThreads)
            },
            ScanStage::Loading => self.to(ScanStage::Resolution, ScanActionFacts::Resolve),
            ScanStage::Resolution => self.to(ScanStage::Commit, ScanActionFacts::CommitMetadata),
            _ => self.to(ScanStage::Usage, ScanActionFacts::RunUsage),
        }
    }

    /// The event is one that the scan waits for.
    pub open spec fn awaits(self, event: ScanEventFacts) -> bool {
        match self.stage {
            ScanStage::State => event is StateRead,
            ScanStage::Names => event is NamesRead,
            ScanStage::Discovery => event is Discovered,
            ScanStage::Proofs => event is Done || event is ProofFailed,
            ScanStage::Observation => event is Observed || event is Failed,
            ScanStage::Planning => event is Planned,
            ScanStage::Parsing(i) => event is Parsed && i < self.files,
            ScanStage::Usage => event is UsageDone,
            ScanStage::Finished => false,
            _ => event is Done || event is Failed,
        }
    }

    /// The scan after an event.
    pub open spec fn after(self, event: ScanEventFacts) -> RunMove {
        match event {
            ScanEventFacts::StateRead { threads, spawn_edges, cancelled } => {
                let noted = RunFacts { scan: self.scan.with_state(threads, spawn_edges), ..self };
                if cancelled {
                    noted.stopped()
                } else {
                    noted.to(ScanStage::Names, ScanActionFacts::ReadNames)
                }
            },
            ScanEventFacts::NamesRead { status, cancelled } => {
                let noted = RunFacts { scan: self.scan.with_names(status), ..self };
                if cancelled {
                    noted.stopped()
                } else {
                    noted.to(ScanStage::Discovery, ScanActionFacts::Discover)
                }
            },
            ScanEventFacts::Discovered { files, codes, complete } => RunFacts {
                scan: self.scan.with_discovery(files, codes, complete),
                files,
                ..self
            }.to(ScanStage::Preparation, ScanActionFacts::Prepare),
            ScanEventFacts::Observed { results, entries, cancelled } => self.on_observed(
                results,
                entries,
                cancelled,
            ),
            ScanEventFacts::Planned { plans, cancelled } => self.on_planned(plans, cancelled),
            ScanEventFacts::Parsed { source, cancelled } => self.on_parsed(
                self.stage->Parsing_0 as int,
                source,
                cancelled,
            ),
            ScanEventFacts::Done { cancelled } => self.on_done(cancelled),
            ScanEventFacts::UsageDone(error) => self.on_usage_done(error),
            ScanEventFacts::ProofFailed(code) => self.fail(code),
            ScanEventFacts::Failed => self.fail(failure(self.stage)),
        }
    }

    /// The scan became another by a move that was made at `now_ms`.
    pub open spec fn made(self, step: RunMove, now_ms: i64) -> bool {
        if step.closes {
            step.run.scan.report.finished(now_ms, self.scan.report) && self == (RunFacts {
                scan: ScanFacts { report: self.scan.report, ..step.run.scan },
                ..step.run
            })
        } else {
            self == step.run
        }
    }
}

impl ScanRun {
    /// A scan that has not begun. The first thing to do is to read the state index.
    pub fn start(started_at_ms: i64) -> (r: Self)
        ensures
            r.stage is State,
            r.files == 0 && r.results@.len() == 0 && r.scan_state.entries@.len() == 0
                && r.plan.plans@.len() == 0 && r.parsed@.len() == 0,
            r.round.hard_error is None,
            r.round.report.deep_view() == (ReportFacts {
                started_at_ms: super::report::not_negative(started_at_ms),
                ..super::report::blank_report()
            }),
    {
        ScanRun {
            round: ScanRound::new(started_at_ms),
            stage: ScanStage::State,
            files: 0,
            results: Vec::new(),
            scan_state: MetadataScanState { entries: Vec::new() },
            plan: PipelinePlan { plans: Vec::new() },
            parsed: Vec::new(),
        }
    }

    fn stop(&mut self, now_ms: i64) -> (r: ScanAction)
        ensures
            final(self).deep_view().made(old(self).deep_view().stopped(), now_ms),
            r.facts() == old(self).deep_view().stopped().action,
            !(r is RequestRebuild),
    {
        self.stage = ScanStage::Finished;
        self.round.report.finish(now_ms);
        ScanAction::Finish(Ok(()))
    }

    fn end(&mut self, now_ms: i64) -> (r: ScanAction)
        ensures
            final(self).deep_view().made(old(self).deep_view().ended(), now_ms),
            r.facts() == old(self).deep_view().ended().action,
            !(r is RequestRebuild),
    {
        self.stage = ScanStage::Finished;
        let result: Result<(), &'static str> = self.round.conclude(now_ms);
        ScanAction::Finish(result)
    }

    fn fail(&mut self, code: &'static str) -> (r: ScanAction)
        ensures
            final(self).deep_view() == old(self).deep_view().fail(code@).run,
            r.facts() == old(self).deep_view().fail(code@).action,
            !(r is RequestRebuild),
    {
        self.stage = ScanStage::Finished;
        ScanAction::Finish(Err(code))
    }

    fn due(&self, i: usize) -> (r: bool)
        requires
            i < self.results@.len(),
        ensures
            r == self.deep_view().is_due(i as int),
    {
        let id: i64 = self.results[i].source_file_id;
        let read: bool = match self.plan.plan_for(id) {
            Some(plan) => is_read(plan),
            None => false,
        };
        read && match self.scan_state.get(id) {
            Some(_) => true,
            None => false,
        }
    }

    fn settle(&mut self, cancelled: bool, now_ms: i64) -> (r: ScanAction)
        ensures
            final(self).deep_view().made(old(self).deep_view().settle(cancelled), now_ms),
            r.facts() == old(self).deep_view().settle(cancelled).action,
            r matches ScanAction::RequestRebuild(command) ==> command.consumer_kind is Metadata
                && sorted_ids(rebuilt_ids(old(self).parsed@), command.source_file_ids@),
    {
        match metadata_rebuilds(&self.parsed) {
            Err(_) => self.fail("STORAGE_COMMIT_FAILED"),
            Ok(Some(command)) => {
                self.stage = ScanStage::Requesting { cancelled };
                ScanAction::RequestRebuild(command)
            },
            Ok(None) => if cancelled {
                self.stop(now_ms)
            } else {
                self.stage = ScanStage::Loading;
                ScanAction::LoadThreads
            },
        }
    }

    fn parse_from(&mut self, first: usize, cancelled: bool, now_ms: i64) -> (r: ScanAction)
        ensures
            final(self).deep_view().made(
                old(self).deep_view().parse_from(first as int, cancelled),
                now_ms,
            ),
            r.facts() == old(self).deep_view().parse_from(first as int, cancelled).action,
            r matches ScanAction::RequestRebuild(command) ==> command.consumer_kind is Metadata
                && sorted_ids(rebuilt_ids(old(self).parsed@), command.source_file_ids@),
    {
        let ghost before = self.deep_view();
        let mut i: usize = first;
        while i < self.files && i < self.results.len()
            invariant_except_break
                *self == *old(self),
                before == self.deep_view(),
                before.due_from(first as int) == before.due_from(i as int),
            ensures
                *self == *old(self),
                before == self.deep_view(),
                before.due_from(first as int) == before.due_from(i as int),
                i >= self.files || i >= self.results@.len() || before.is_due(i as int),
            decreases self.files - i,
        {
            if self.due(i) {
                break ;
            }
            i = i + 1;
        }
        if i < self.files && i < self.results.len() && !cancelled {
            self.round.report.observe_body_open_attempt();
            self.stage = ScanStage::Parsing(i);
            return ScanAction::Parse(i);
        }
        self.settle(cancelled, now_ms)
    }

    fn on_observed(&mut self, results: Vec<SourceObservationResult>, scan_state: MetadataScanState, cancelled: bool, now_ms: i64) -> (r: ScanAction)
        ensures
            final(self).deep_view().made(old(self).deep_view().on_observed(results@, scan_state.entries@, cancelled), now_ms),
            r.facts() == old(self).deep_view().on_observed(results@, scan_state.entries@, cancelled).action,
            r matches ScanAction::RequestRebuild(command) ==> command.consumer_kind is Metadata
                && sorted_ids(rebuilt_ids(final(self).parsed@), command.source_file_ids@),
    {
        self.results = results;
        self.scan_state = scan_state;
        if cancelled {
            return self.stop(now_ms);
        }
        self.round.note_sources(&self.results);
        self.stage = ScanStage::Planning;
        ScanAction::PlanFiles
    }

    fn on_planned(&mut self, plan: PipelinePlan, cancelled: bool, now_ms: i64) -> (r: ScanAction)
        ensures
            final(self).deep_view().made(old(self).deep_view().on_planned(plan.plans@, cancelled), now_ms),
            r.facts() == old(self).deep_view().on_planned(plan.plans@, cancelled).action,
            r matches ScanAction::RequestRebuild(command) ==> command.consumer_kind is Metadata
                && sorted_ids(rebuilt_ids(final(self).parsed@), command.source_file_ids@),
    {
        self.round.note_plan(&plan);
        self.plan = plan;
        self.parse_from(0, cancelled, now_ms)
    }

    fn on_parsed(
        &mut self,
        i: usize,
        source: Result<ParsedSource, &'static str>,
        cancelled: bool,
        now_ms: i64,
    ) -> (r: ScanAction)
        requires
            i < usize::MAX,
        ensures
            final(self).deep_view().made(
                old(self).deep_view().on_parsed(i as int, parsed_view(source), cancelled),
                now_ms,
            ),
            r.facts() == old(self).deep_view().on_parsed(
                i as int,
                parsed_view(source),
                cancelled,
            ).action,
            r matches ScanAction::RequestRebuild(command) ==> command.consumer_kind is Metadata
                && sorted_ids(rebuilt_ids(final(self).parsed@), command.source_file_ids@),
    {
        match source {
            Ok(source) => {
                self.round.note_parsed(&source);
                self.parsed.push(source);
            },
            Err(code) => {
                self.round.note_unparsed(code);
            },
        }
        self.parse_from(i + 1, cancelled, now_ms)
    }

    fn on_done(&mut self, cancelled: bool, now_ms: i64) -> (r: ScanAction)
        ensures
            final(self).deep_view().made(old(self).deep_view().on_done(cancelled), now_ms),
            r.facts() == old(self).deep_view().on_done(cancelled).action,
            r matches ScanAction::RequestRebuild(command) ==> command.consumer_kind is Metadata
                && sorted_ids(rebuilt_ids(final(self).parsed@), command.source_file_ids@),
    {
        match self.stage {
            ScanStage::Preparation => {
                self.stage = ScanStage::Proofs;
                ScanAction::CollectProofs
            },
            ScanStage::Proofs => {
                self.stage = ScanStage::Observation;
                ScanAction::Observe
            },
            ScanStage::Requesting { cancelled: before } => {
                if before || cancelled {
                    return self.stop(now_ms);
                }
                self.stage = ScanStage::Loading;
                ScanAction::LoadThreads
            },
            ScanStage::Loading => {
                self.stage = ScanStage::Resolution;
                ScanAction::Resolve
            },
            ScanStage::Resolution => {
                self.stage = ScanStage::Commit;
                ScanAction::CommitMetadata
            },
            _ => {
                self.stage = ScanStage::Usage;
                ScanAction::RunUsage
            },
        }
    }

    fn on_failed(&mut self) -> (r: ScanAction)
        ensures
            final(self).deep_view() == old(self).deep_view().fail(failure(old(self).stage)).run,
            r.facts() == old(self).deep_view().fail(failure(old(self).stage)).action,
            !(r is RequestRebuild),
    {
        let code: &'static str = match self.stage {
            ScanStage::Preparation => "METADATA_PIPELINE_INVALID",
            ScanStage::Observation => "SOURCE_OBSERVATION_FAILED",
            ScanStage::Requesting { .. } => "STORAGE_COMMIT_FAILED",
            ScanStage::Loading => "METADATA_STATE_LOAD_FAILED",
            ScanStage::Resolution => "METADATA_RESOLUTION_FAILED",
            _ => "METADATA_COMMIT_FAILED",
        };
        self.fail(code)
    }

    fn on_usage_done(&mut self, result: Result<(), &'static str>, now_ms: i64) -> (r: ScanAction)
        ensures
            final(self).deep_view().made(
                old(self).deep_view().on_usage_done(error_of(result)),
                now_ms,
            ),
            r.facts() == old(self).deep_view().on_usage_done(error_of(result)).action,
            !(r is RequestRebuild),
    {
        if let Err(code) = result {
            self.round.record_hard_error(code);
        }
        self.end(now_ms)
    }

    /// Takes note of what happened, and says what to do next. The report is finished at
    /// `now_ms` where the scan closes.
    pub fn step(&mut self, event: ScanEvent, now_ms: i64) -> (r: ScanAction)
        requires
            old(self).deep_view().awaits(event.facts()),
        ensures
            final(self).deep_view().made(old(self).deep_view().after(event.facts()), now_ms),
            r.facts() == old(self).deep_view().after(event.facts()).action,
            r matches ScanAction::RequestRebuild(command) ==> command.consumer_kind is Metadata
                && sorted_ids(rebuilt_ids(final(self).parsed@), command.source_file_ids@),
    {
        match event {
            ScanEvent::StateRead { threads, spawn_edges, cancelled } => {
                self.round.note_state(threads, spawn_edges);
                if cancelled {
                    return self.stop(now_ms);
                }
                self.stage = ScanStage::Names;
                ScanAction::ReadNames
            },
            ScanEvent::NamesRead { status, cancelled } => {
                self.round.note_session_names(status);
                if cancelled {
                    return self.stop(now_ms);
                }
                self.stage = ScanStage::Discovery;
                ScanAction::Discover
            },
            ScanEvent::Discovered { files, codes, complete } => {
                self.round.note_discovery(files, &codes, complete);
                self.files = files;
                self.stage = ScanStage::Preparation;
                ScanAction::Prepare
            },
            ScanEvent::Observed { results, scan_state, cancelled } => self.on_observed(
                results,
                scan_state,
                cancelled,
                now_ms,
            ),
            ScanEvent::Planned { plan, cancelled } => self.on_planned(plan, cancelled, now_ms),
            ScanEvent::Parsed { source, cancelled } => {
                let i: usize = match self.stage {
                    ScanStage::Parsing(i) => i,
                    _ => 0,
                };
                self.on_parsed(i, source, cancelled, now_ms)
            },
            ScanEvent::Done { cancelled } => self.on_done(cancelled, now_ms),
            ScanEvent::UsageDone(result) => self.on_usage_done(result, now_ms),
            ScanEvent::ProofFailed(code) => self.fail(code),
            ScanEvent::Failed => self.on_failed(),
        }
    }
}

/// A scan that is cancelled before anything was parsed ends without an error.
pub proof fn law_cancelled_scans_do_not_fail(run: RunFacts, event: ScanEventFacts)
    requires
        run.awaits(event),
        event matches ScanEventFacts::StateRead { cancelled: true, .. } || event matches
            ScanEventFacts::NamesRead { cancelled: true, .. } || event matches
            ScanEventFacts::Observed { cancelled: true, .. },
    ensures
        run.after(event).action == ScanActionFacts::Finish(None),
        run.after(event).closes,
        run.after(event).run.stage is Finished,
{
}

/// A cancelled scan parses no further file, yet asks for the rebuilds that it found.
pub proof fn law_cancelled_scans_ask_for_rebuilds(run: RunFacts, source: Result<ParsedSource, Seq<char>>)
    requires
        run.stage is Parsing,
    ensures
        ({
            let after = run.after(ScanEventFacts::Parsed { source, cancelled: true });
            let ids = rebuilt_ids(after.run.parsed);
            &&& !(after.action is Parse)
            &&& ids.len() > 0 && !some_not_positive(ids) ==> after.action is RequestRebuild
            &&& ids.len() == 0 ==> after.action == ScanActionFacts::Finish(None)
        }),
{
}

proof fn lemma_due_from(run: RunFacts, i: int)
    requires
        0 <= i,
    ensures
        run.due_from(i) matches Some(k) ==> i <= k < run.files && k < run.results.len() && run.is_due(
            k,
        ),
        forall|j: int|
            i <= j < run.files && j < run.results.len() && (run.due_from(i) is None || j
                < run.due_from(i)->0) ==> !#[trigger] run.is_due(j),
    decreases run.files - i,
{
    if i < run.files && i < run.results.len() && !run.is_due(i) {
        lemma_due_from(run, i + 1);
    }
}

/// Files are parsed in their order, each once, and none that is due is passed over.
pub proof fn law_files_are_parsed_in_order(run: RunFacts, source: Result<ParsedSource, Seq<char>>, j: int)
    requires
        run.stage is Parsing,
        run.stage->Parsing_0 < j < run.files,
        j < run.results.len(),
    ensures
        ({
            let action = run.after(ScanEventFacts::Parsed { source, cancelled: false }).action;
            match action {
                ScanActionFacts::Parse(k) => run.stage->Parsing_0 < k && (j < k ==> !run.is_due(j))
                    && run.is_due(k),
                _ => !run.is_due(j),
            }
        }),
{
    let noted = match source {
        Ok(source) => RunFacts {
            scan: run.scan.with_parsed(source),
            parsed: run.parsed.push(source),
            ..run
        },
        Err(code) => RunFacts { scan: run.scan.with_unparsed(code), ..run },
    };
    let i = run.stage->Parsing_0 + 1;
    lemma_due_from(noted, i);
    assert(noted.is_due(j) == run.is_due(j));
    if let Some(k) = noted.due_from(i) {
        assert(noted.is_due(k) == run.is_due(k));
    }
}

/// Usage is read only after the metadata was committed.
pub proof fn law_usage_follows_metadata(run: RunFacts, event: ScanEventFacts)
    requires
        run.awaits(event),
        run.after(event).action is RunUsage,
    ensures
        run.stage is Commit,
        event is Done,
{
}

/// A scan that ran to its end fails with the first hard error that it met, if it met one.
pub proof fn law_scans_end_with_their_first_error(run: RunFacts, error: Option<Seq<char>>)
    ensures
        run.after(ScanEventFacts::UsageDone(error)).action == ScanActionFacts::Finish(
            if run.scan.hard_error is Some {
                run.scan.hard_error
            } else {
                error
            },
        ),
{
}

} // verus!
