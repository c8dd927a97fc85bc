//! The sources of one thread, taken up together until nothing is left to do for them.
//!
//! A group is told what happened and says what to do next. It decides; whoever runs it reads
//! files and talks to storage.
use vstd::prelude::*;

use super::report::UsageCommitMetrics;
#[allow(unused_imports)]
use super::report::no_metrics;
use super::source_batch::UsageReadStep;
#[allow(unused_imports)]
use super::source_batch::StepFacts;
use super::usage_pipeline::{
    UsageSourceCommitDto, MAX_BATCH_BYTES, MAX_BATCH_CANDIDATES, MAX_BATCH_LINES,
};
#[allow(unused_imports)]
use super::usage_pipeline::{saturated, CommitFacts};
use super::usage_plan::{shadow_session_data_error, to_pipeline_action, UsagePlanAction};

verus! {

/// What a commit adds to a batch: the bytes and lines after the replayed prefix, and the
/// candidates.
#[derive(Clone, Copy, Debug, PartialEq, Eq, Structural)]
pub struct AdapterCounts {
    pub bytes: u64,
    pub lines: u64,
    pub candidates: u64,
}

pub open spec fn counts_of(dto: CommitFacts) -> AdapterCounts {
    AdapterCounts {
        bytes: saturated(dto.source_bytes_consumed - dto.replayed_prefix_bytes),
        lines: saturated(dto.complete_line_count - dto.replayed_prefix_lines),
        candidates: dto.candidate_count,
    }
}

pub fn dto_adapter_counts(dto: &UsageSourceCommitDto) -> (r: AdapterCounts)
    ensures
        r == counts_of(dto.deep_view()),
{
    AdapterCounts {
        bytes: dto.source_bytes_consumed.saturating_sub(dto.replayed_prefix_bytes),
        lines: dto.complete_line_count.saturating_sub(dto.replayed_prefix_lines),
        candidates: dto.candidate_count,
    }
}

/// A single line that fills more than a batch has to be committed alone.
pub open spec fn exclusive(dto: CommitFacts) -> bool {
    counts_of(dto).lines == 1 && counts_of(dto).bytes > MAX_BATCH_BYTES
}

pub fn dto_requires_exclusive_batch(dto: &UsageSourceCommitDto) -> (r: bool)
    ensures
        r == exclusive(dto.deep_view()),
{
    let counts: AdapterCounts = dto_adapter_counts(dto);
    counts.lines == 1 && counts.bytes > MAX_BATCH_BYTES
}

pub open spec fn total_bytes(dtos: Seq<CommitFacts>) -> int
    decreases dtos.len(),
{
    if dtos.len() == 0 {
        0
    } else {
        total_bytes(dtos.drop_last()) + counts_of(dtos.last()).bytes
    }
}

pub open spec fn total_lines(dtos: Seq<CommitFacts>) -> int
    decreases dtos.len(),
{
    if dtos.len() == 0 {
        0
    } else {
        total_lines(dtos.drop_last()) + counts_of(dtos.last()).lines
    }
}

pub open spec fn total_candidates(dtos: Seq<CommitFacts>) -> int
    decreases dtos.len(),
{
    if dtos.len() == 0 {
        0
    } else {
        total_candidates(dtos.drop_last()) + counts_of(dtos.last()).candidates
    }
}

pub open spec fn some_exclusive(dtos: Seq<CommitFacts>) -> bool {
    exists|i: int| 0 <= i < dtos.len() && exclusive(#[trigger] dtos[i])
}

/// Whether a commit may join those that are prepared.
pub open spec fn allows(existing: Seq<CommitFacts>, next: CommitFacts) -> bool {
    if exclusive(next) {
        existing.len() == 0
    } else {
        &&& !some_exclusive(existing)
        &&& total_bytes(existing) + counts_of(next).bytes <= MAX_BATCH_BYTES
        &&& total_lines(existing) + counts_of(next).lines <= MAX_BATCH_LINES
        &&& total_candidates(existing) + counts_of(next).candidates <= MAX_BATCH_CANDIDATES
    }
}

/// Whether the prepared commits fill a batch.
pub open spec fn full(dtos: Seq<CommitFacts>) -> bool {
    ||| total_bytes(dtos) >= MAX_BATCH_BYTES
    ||| total_lines(dtos) >= MAX_BATCH_LINES
    ||| total_candidates(dtos) >= MAX_BATCH_CANDIDATES
}

/// The sums of the commits, each up to the largest number.
fn totals(dtos: &Vec<UsageSourceCommitDto>) -> (r: AdapterCounts)
    ensures
        r.bytes == saturated(total_bytes(dtos.deep_view())),
        r.lines == saturated(total_lines(dtos.deep_view())),
        r.candidates == saturated(total_candidates(dtos.deep_view())),
        total_bytes(dtos.deep_view()) >= 0,
        total_lines(dtos.deep_view()) >= 0,
        total_candidates(dtos.deep_view()) >= 0,
{
    let ghost all = dtos.deep_view();
    let mut bytes: u64 = 0;
    let mut lines: u64 = 0;
    let mut candidates: u64 = 0;
    let mut i: usize = 0;
    assert(all.take(0) =~= Seq::<CommitFacts>::empty());
    while i < dtos.len()
        invariant
            i <= dtos.len(),
            all == dtos.deep_view(),
            total_bytes(all.take(i as int)) >= 0,
            total_lines(all.take(i as int)) >= 0,
            total_candidates(all.take(i as int)) >= 0,
            bytes == saturated(total_bytes(all.take(i as int))),
            lines == saturated(total_lines(all.take(i as int))),
            candidates == saturated(total_candidates(all.take(i as int))),
        decreases dtos.len() - i,
    {
        let counts: AdapterCounts = dto_adapter_counts(&dtos[i]);
        bytes = bytes.saturating_add(counts.bytes);
        lines = lines.saturating_add(counts.lines);
        candidates = candidates.saturating_add(counts.candidates);
        assert(all.take(i + 1).drop_last() =~= all.take(i as int));
        assert(all.take(i + 1).last() == dtos@[i as int].deep_view());
        i = i + 1;
    }
    assert(all.take(i as int) =~= all);
    AdapterCounts { bytes, lines, candidates }
}

pub fn group_budget_allows(existing: &Vec<UsageSourceCommitDto>, next: &UsageSourceCommitDto) -> (r:
    bool)
    ensures
        r == allows(existing.deep_view(), next.deep_view()),
{
    if dto_requires_exclusive_batch(next) {
        return existing.len() == 0;
    }
    let ghost all = existing.deep_view();
    let mut i: usize = 0;
    while i < existing.len()
        invariant
            i <= existing.len(),
            all == existing.deep_view(),
            forall|j: int| 0 <= j < i ==> !exclusive(#[trigger] all[j]),
        decreases existing.len() - i,
    {
        if dto_requires_exclusive_batch(&existing[i]) {
            assert(exclusive(all[i as int]));
            return false;
        }
        i = i + 1;
    }
    let sums: AdapterCounts = totals(existing);
    let counts: AdapterCounts = dto_adapter_counts(next);
    sums.bytes.saturating_add(counts.bytes) <= MAX_BATCH_BYTES && sums.lines.saturating_add(
        counts.lines,
    ) <= MAX_BATCH_LINES && sums.candidates.saturating_add(counts.candidates)
        <= MAX_BATCH_CANDIDATES
}

pub fn group_budget_full(dtos: &Vec<UsageSourceCommitDto>) -> (r: bool)
    ensures
        r == full(dtos.deep_view()),
{
    let sums: AdapterCounts = totals(dtos);
    sums.bytes >= MAX_BATCH_BYTES || sums.lines >= MAX_BATCH_LINES || sums.candidates
        >= MAX_BATCH_CANDIDATES
}

/// What became of a thread.
#[derive(Clone, Copy, Debug, PartialEq, Eq)]
pub enum UsageThreadOutcome {
    Completed,
    GlobalPlanChanged { retry_thread: bool },
    SessionDataError(&'static str),
    OrdinaryError(&'static str),
    FatalReloadError(&'static str),
}

pub enum OutcomeFacts {
    Completed,
    GlobalPlanChanged { retry_thread: bool },
    SessionDataError(Seq<char>),
    OrdinaryError(Seq<char>),
    FatalReloadError(Seq<char>),
}

impl DeepView for UsageThreadOutcome {
    type V = OutcomeFacts;

    open spec fn deep_view(&self) -> OutcomeFacts {
        match self {
            UsageThreadOutcome::Completed => OutcomeFacts::Completed,
            UsageThreadOutcome::GlobalPlanChanged { retry_thread } =>
                OutcomeFacts::GlobalPlanChanged { retry_thread: *retry_thread },
            UsageThreadOutcome::SessionDataError(code) => OutcomeFacts::SessionDataError(code@),
            UsageThreadOutcome::OrdinaryError(code) => OutcomeFacts::OrdinaryError(code@),
            UsageThreadOutcome::FatalReloadError(code) => OutcomeFacts::FatalReloadError(code@),
        }
    }
}

/// What is planned for one source of the thread.
#[derive(Clone, Copy, Debug, PartialEq, Eq, Structural)]
pub struct GroupPlan {
    pub source_file_id: i64,
    pub action: UsagePlanAction,
    /// Discovery saw the file.
    pub present: bool,
}

/// What storage answered.
#[derive(Clone, Copy, Debug, PartialEq, Eq, Structural)]
pub enum StorageReply {
    Done,
    /// What storage holds calls for a rebuild.
    Conflict,
    Failed,
}

/// What happened.
pub enum GroupEvent {
    Loaded { plans: Vec<GroupPlan>, building: bool, cancelled: bool },
    LoadFailed,
    Verified(Result<bool, &'static str>),
    Replied { reply: StorageReply, cancelled: bool },
    SourceRead(Result<UsageReadStep, &'static str>),
}

pub enum EventFacts {
    Loaded { plans: Seq<GroupPlan>, building: bool, cancelled: bool },
    LoadFailed,
    Verified(Result<bool, Seq<char>>),
    Replied { reply: StorageReply, cancelled: bool },
    SourceRead(Result<StepFacts, Seq<char>>, UsageCommitMetrics),
}

pub open spec fn step_metrics(step: UsageReadStep) -> UsageCommitMetrics {
    match step {
        UsageReadStep::Prepared { metrics, .. } => metrics,
        _ => no_metrics(),
    }
}

impl GroupEvent {
    pub open spec fn facts(self) -> EventFacts {
        match self {
            GroupEvent::Loaded { plans, building, cancelled } => EventFacts::Loaded {
                plans: plans@,
                building,
                cancelled,
            },
            GroupEvent::LoadFailed => EventFacts::LoadFailed,
            GroupEvent::Verified(Ok(kept)) => EventFacts::Verified(Ok(kept)),
            GroupEvent::Verified(Err(error)) => EventFacts::Verified(Err(error@)),
            GroupEvent::Replied { reply, cancelled } => EventFacts::Replied { reply, cancelled },
            GroupEvent::SourceRead(Ok(step)) => EventFacts::SourceRead(
                Ok(step.facts()),
                step_metrics(step),
            ),
            GroupEvent::SourceRead(Err(error)) => EventFacts::SourceRead(
                Err(error@),
                no_metrics(),
            ),
        }
    }
}

/// What to do next.
pub enum GroupAction {
    /// Load what is planned for the sources of the thread.
    Load,
    BeginCarry(i64),
    /// Read again what a carried source was committed up to.
    VerifyCarry(i64),
    ResumeCarry(i64),
    CompleteOnly(i64),
    /// Build these sources anew within the build that is open.
    Replace(Vec<i64>),
    /// Open a build.
    Begin,
    /// Read the source of the plan with this index.
    Read(usize),
    Commit(Vec<UsageSourceCommitDto>),
    Finish(UsageThreadOutcome),
}

pub enum ActionFacts {
    Load,
    BeginCarry(i64),
    VerifyCarry(i64),
    ResumeCarry(i64),
    CompleteOnly(i64),
    Replace(Seq<i64>),
    Begin,
    Read(int),
    Commit(Seq<CommitFacts>),
    Finish(OutcomeFacts),
}

impl GroupAction {
    pub open spec fn facts(self) -> ActionFacts {
        match self {
            GroupAction::Load => ActionFacts::Load,
            GroupAction::BeginCarry(id) => ActionFacts::BeginCarry(id),
            GroupAction::VerifyCarry(id) => ActionFacts::VerifyCarry(id),
            GroupAction::ResumeCarry(id) => ActionFacts::ResumeCarry(id),
            GroupAction::CompleteOnly(id) => ActionFacts::CompleteOnly(id),
            GroupAction::Replace(ids) => ActionFacts::Replace(ids@),
            GroupAction::Begin => ActionFacts::Begin,
            GroupAction::Read(i) => ActionFacts::Read(i as int),
            GroupAction::Commit(dtos) => ActionFacts::Commit(dtos.deep_view()),
            GroupAction::Finish(outcome) => ActionFacts::Finish(outcome.deep_view()),
        }
    }
}

/// What the group waits for.
#[derive(Clone, Copy, Debug, PartialEq, Eq, Structural)]
pub enum GroupStage {
    FirstLoad,
    Reload,
    BeginCarry,
    VerifyCarry(i64),
    ResumeCarry,
    CompleteOnly,
    Rebuild { retry_thread: bool, replacing: bool },
    Read(usize),
    Commit,
    Finished,
}

pub struct ThreadGroup {
    pub discovery_complete: bool,
    pub building: bool,
    pub plans: Vec<GroupPlan>,
    pub stage: GroupStage,
    pub prepared: Vec<UsageSourceCommitDto>,
    pub metrics: UsageCommitMetrics,
    pub source_ids: Vec<i64>,
}

#[verifier::ext_equal]
pub struct GroupFacts {
    pub discovery_complete: bool,
    pub building: bool,
    pub plans: Seq<GroupPlan>,
    pub stage: GroupStage,
    pub prepared: Seq<CommitFacts>,
    pub metrics: UsageCommitMetrics,
    pub source_ids: Seq<i64>,
}

impl DeepView for ThreadGroup {
    type V = GroupFacts;

    open spec fn deep_view(&self) -> GroupFacts {
        GroupFacts {
            discovery_complete: self.discovery_complete,
            building: self.building,
            plans: self.plans@,
            stage: self.stage,
            prepared: self.prepared.deep_view(),
            metrics: self.metrics,
            source_ids: self.source_ids@,
        }
    }
}

/// The group after an event, with what to do next.
pub struct Move {
    pub group: GroupFacts,
    pub action: ActionFacts,
}

pub open spec fn idle(plan: GroupPlan) -> bool {
    plan.action is Skip || plan.action is BlockedRelationship
}

pub open spec fn all_idle(plans: Seq<GroupPlan>) -> bool {
    forall|i: int| 0 <= i < plans.len() ==> idle(#[trigger] plans[i])
}

pub open spec fn some_blocked(plans: Seq<GroupPlan>) -> bool {
    exists|i: int| 0 <= i < plans.len() && (#[trigger] plans[i]).action is BlockedRelationship
}

/// The plan changes what storage holds before anything is read.
pub open spec fn control(plan: GroupPlan) -> bool {
    plan.action is BeginCarry || plan.action is ResumeCarry || plan.action is CompleteOnly
        || plan.action is RebuildRequired
}

/// The plan reads a file that is there.
pub open spec fn readable(plan: GroupPlan) -> bool {
    plan.present && (plan.action is ReadFrom || plan.action is BuildFrom || plan.action
        is LocalReplay || plan.action is ResumeOwningLive || plan.action is VerifyRawTail)
}

/// The first control plan from `i` on.
pub open spec fn control_from(plans: Seq<GroupPlan>, i: int) -> Option<int>
    decreases plans.len() - i,
{
    if i < 0 || i >= plans.len() {
        None
    } else if control(plans[i]) {
        Some(i)
    } else {
        control_from(plans, i + 1)
    }
}

/// The first readable plan from `i` on.
pub open spec fn readable_from(plans: Seq<GroupPlan>, i: int) -> Option<int>
    decreases plans.len() - i,
{
    if i < 0 || i >= plans.len() {
        None
    } else if readable(plans[i]) {
        Some(i)
    } else {
        readable_from(plans, i + 1)
    }
}

impl GroupFacts {
    pub open spec fn start(discovery_complete: bool) -> GroupFacts {
        GroupFacts {
            discovery_complete,
            building: false,
            plans: Seq::empty(),
            stage: GroupStage::FirstLoad,
            prepared: Seq::empty(),
            metrics: no_metrics(),
            source_ids: Seq::empty(),
        }
    }

    pub open spec fn to(self, stage: GroupStage, action: ActionFacts) -> Move {
        Move { group: GroupFacts { stage, ..self }, action }
    }

    pub open spec fn finish(self, outcome: OutcomeFacts) -> Move {
        self.to(GroupStage::Finished, ActionFacts::Finish(outcome))
    }

    pub open spec fn fail(self, code: Seq<char>) -> Move {
        self.finish(OutcomeFacts::OrdinaryError(code))
    }

    pub open spec fn reload(self) -> Move {
        self.to(GroupStage::Reload, ActionFacts::Load)
    }

    /// Only a complete discovery allows a rebuild.
    pub open spec fn rebuild(self, ids: Seq<i64>, retry_thread: bool) -> Move {
        if !self.discovery_complete {
            self.finish(OutcomeFacts::Completed)
        } else {
            self.to(
                GroupStage::Rebuild { retry_thread, replacing: self.building },
                if self.building {
                    ActionFacts::Replace(ids)
                } else {
                    ActionFacts::Begin
                },
            )
        }
    }

    /// Reads the next source from `i` on, or commits what is prepared.
    pub open spec fn read_from(self, i: int) -> Move {
        match readable_from(self.plans, i) {
            Some(k) => self.to(GroupStage::Read(k as usize), ActionFacts::Read(k)),
            None => if self.prepared.len() == 0 {
                self.finish(OutcomeFacts::Completed)
            } else {
                self.commit()
            },
        }
    }

    pub open spec fn commit(self) -> Move {
        Move {
            group: GroupFacts { stage: GroupStage::Commit, prepared: Seq::empty(), ..self },
            action: ActionFacts::Commit(self.prepared),
        }
    }

    pub open spec fn on_control(self, plan: GroupPlan) -> Move {
        match plan.action {
            UsagePlanAction::BeginCarry => if !self.discovery_complete {
                self.finish(OutcomeFacts::Completed)
            } else {
                self.to(GroupStage::BeginCarry, ActionFacts::BeginCarry(plan.source_file_id))
            },
            UsagePlanAction::ResumeCarry => if plan.present {
                self.to(
                    GroupStage::VerifyCarry(plan.source_file_id),
                    ActionFacts::VerifyCarry(plan.source_file_id),
                )
            } else {
                self.to(GroupStage::ResumeCarry, ActionFacts::ResumeCarry(plan.source_file_id))
            },
            UsagePlanAction::CompleteOnly => self.to(
                GroupStage::CompleteOnly,
                ActionFacts::CompleteOnly(plan.source_file_id),
            ),
            _ => self.rebuild(seq![plan.source_file_id], true),
        }
    }

    pub open spec fn on_loaded(self, plans: Seq<GroupPlan>, building: bool, cancelled: bool) -> Move {
        let loaded = GroupFacts {
            plans,
            building,
            prepared: Seq::empty(),
            metrics: no_metrics(),
            source_ids: Seq::empty(),
            ..self
        };
        if cancelled || plans.len() == 0 {
            loaded.finish(OutcomeFacts::Completed)
        } else if all_idle(plans) {
            loaded.finish(
                if some_blocked(plans) {
                    OutcomeFacts::SessionDataError("USAGE_SESSION_RELATIONSHIP_INVALID"@)
                } else {
                    OutcomeFacts::Completed
                },
            )
        } else {
            match control_from(plans, 0) {
                Some(i) => loaded.on_control(plans[i]),
                None => loaded.read_from(0),
            }
        }
    }

    pub open spec fn on_load_failed(self) -> Move {
        if self.stage is FirstLoad {
            self.fail("USAGE_PLAN_RELOAD_FAILED"@)
        } else {
            self.finish(OutcomeFacts::FatalReloadError("USAGE_PLAN_RELOAD_FAILED"@))
        }
    }

    /// A prefix that was not kept makes the source be built anew.
    pub open spec fn on_verified(self, id: i64, kept: Result<bool, Seq<char>>) -> Move {
        match kept {
            Err(code) => self.fail(code),
            Ok(true) => self.to(GroupStage::ResumeCarry, ActionFacts::ResumeCarry(id)),
            Ok(false) => if !self.discovery_complete {
                self.finish(OutcomeFacts::Completed)
            } else {
                self.to(
                    GroupStage::Rebuild { retry_thread: true, replacing: true },
                    ActionFacts::Replace(seq![id]),
                )
            },
        }
    }

    pub open spec fn failure_code(self, reply: StorageReply) -> Seq<char> {
        match self.stage {
            GroupStage::BeginCarry => "USAGE_CARRY_BEGIN_FAILED"@,
            GroupStage::ResumeCarry => if reply is Conflict {
                "USAGE_CARRY_CONFLICT"@
            } else {
                "USAGE_CARRY_RESUME_FAILED"@
            },
            GroupStage::CompleteOnly => "USAGE_COMPLETE_ONLY_FAILED"@,
            GroupStage::Rebuild { replacing: true, .. } => "USAGE_REBUILD_REPLACE_FAILED"@,
            GroupStage::Rebuild { replacing: false, .. } => "USAGE_REBUILD_BEGIN_FAILED"@,
            _ => "USAGE_GROUP_COMMIT_FAILED"@,
        }
    }

    pub open spec fn on_replied(self, reply: StorageReply, cancelled: bool) -> Move {
        match self.stage {
            GroupStage::Rebuild { retry_thread, .. } => if reply is Done {
                self.finish(OutcomeFacts::GlobalPlanChanged { retry_thread })
            } else {
                self.fail(self.failure_code(reply))
            },
            GroupStage::Commit => if reply is Done {
                if cancelled {
                    self.finish(OutcomeFacts::Completed)
                } else {
                    self.reload()
                }
            } else if reply is Conflict && self.discovery_complete {
                self.rebuild(self.source_ids, false)
            } else {
                self.fail(self.failure_code(reply))
            },
            _ => if !(reply is Done) {
                self.fail(self.failure_code(reply))
            } else if cancelled {
                self.finish(OutcomeFacts::Completed)
            } else {
                self.reload()
            },
        }
    }

    pub open spec fn with_prepared(self, dto: CommitFacts, metrics: UsageCommitMetrics) -> GroupFacts {
        GroupFacts {
            prepared: self.prepared.push(dto),
            metrics: self.metrics.plus(metrics),
            source_ids: self.source_ids.push(dto.source_file_id),
            ..self
        }
    }

    pub open spec fn on_prepared(self, i: int, dto: CommitFacts, metrics: UsageCommitMetrics) -> Move {
        if !allows(self.prepared, dto) {
            if self.prepared.len() == 0 {
                self.fail("USAGE_GROUP_BATCH_BUDGET_INVALID"@)
            } else {
                self.commit()
            }
        } else {
            let after = self.with_prepared(dto, metrics);
            if exclusive(dto) || full(after.prepared) {
                after.commit()
            } else {
                after.read_from(i + 1)
            }
        }
    }

    /// What a source that was read means to the group. Data that contradicts the metadata is
    /// built anew once; if it does so again while it is built, the session is at fault.
    pub open spec fn on_read(
        self,
        i: int,
        step: Result<StepFacts, Seq<char>>,
        metrics: UsageCommitMetrics,
    ) -> Move {
        let plan = self.plans[i];
        let ids = seq![plan.source_file_id];
        match step {
            Err(code) => self.fail(code),
            Ok(StepFacts::Prepared(dto)) => self.on_prepared(i, dto, metrics),
            Ok(StepFacts::AwaitingOwnership) => self.finish(OutcomeFacts::Completed),
            Ok(StepFacts::InvalidSessionData) => if self.discovery_complete && plan.action
                is BuildFrom {
                self.finish(OutcomeFacts::SessionDataError("USAGE_SESSION_DATA_INVALID"@))
            } else {
                self.rebuild(ids, true)
            },
            Ok(StepFacts::NeedsRebuild) => self.rebuild(ids, !(plan.action is BuildFrom)),
            Ok(StepFacts::NeedsRebuildStop) => self.rebuild(ids, false),
        }
    }

    /// The event is one that the group waits for.
    pub open spec fn awaits(self, event: EventFacts) -> bool {
        match self.stage {
            GroupStage::FirstLoad => event is Loaded || event is LoadFailed,
            GroupStage::Reload => event is Loaded || event is LoadFailed,
            GroupStage::VerifyCarry(_) => event is Verified,
            GroupStage::Read(i) => event is SourceRead && i < self.plans.len(),
            GroupStage::Finished => false,
            _ => event is Replied,
        }
    }

    /// The group after an event.
    pub open spec fn after(self, event: EventFacts) -> Move {
        match event {
            EventFacts::Loaded { plans, building, cancelled } => self.on_loaded(
                plans,
                building,
                cancelled,
            ),
            EventFacts::LoadFailed => self.on_load_failed(),
            EventFacts::Verified(kept) => self.on_verified(self.stage->VerifyCarry_0, kept),
            EventFacts::Replied { reply, cancelled } => self.on_replied(reply, cancelled),
            EventFacts::SourceRead(step, metrics) => self.on_read(
                self.stage->Read_0 as int,
                step,
                metrics,
            ),
        }
    }
}

impl ThreadGroup {
    /// A group for which nothing is loaded yet. The first thing to do is to load.
    pub fn start(discovery_complete: bool) -> (r: Self)
        ensures
            r.deep_view() == GroupFacts::start(discovery_complete),
    {
        let group: ThreadGroup = ThreadGroup {
            discovery_complete,
            building: false,
            plans: Vec::new(),
            stage: GroupStage::FirstLoad,
            prepared: Vec::new(),
            metrics: UsageCommitMetrics::default(),
            source_ids: Vec::new(),
        };
        assert(group.prepared.deep_view() =~= Seq::<CommitFacts>::empty());
        group
    }

    fn finish(&mut self, outcome: UsageThreadOutcome) -> (r: GroupAction)
        ensures
            ({
                let after = old(self).deep_view().finish(outcome.deep_view());
                final(self).deep_view() == after.group && r.facts() == after.action
            }),
    {
        self.stage = GroupStage::Finished;
        GroupAction::Finish(outcome)
    }

    fn fail(&mut self, code: &'static str) -> (r: GroupAction)
        ensures
            ({
                let after = old(self).deep_view().fail(code@);
                final(self).deep_view() == after.group && r.facts() == after.action
            }),
    {
        self.finish(UsageThreadOutcome::OrdinaryError(code))
    }

    fn reload(&mut self) -> (r: GroupAction)
        ensures
            ({
                let after = old(self).deep_view().reload();
                final(self).deep_view() == after.group && r.facts() == after.action
            }),
    {
        self.stage = GroupStage::Reload;
        GroupAction::Load
    }

    fn rebuild(&mut self, ids: Vec<i64>, retry_thread: bool) -> (r: GroupAction)
        ensures
            ({
                let after = old(self).deep_view().rebuild(ids@, retry_thread);
                final(self).deep_view() == after.group && r.facts() == after.action
            }),
    {
        if !self.discovery_complete {
            return self.finish(UsageThreadOutcome::Completed);
        }
        self.stage = GroupStage::Rebuild { retry_thread, replacing: self.building };
        if self.building {
            GroupAction::Replace(ids)
        } else {
            GroupAction::Begin
        }
    }

    fn rebuild_one(&mut self, id: i64, retry_thread: bool) -> (r: GroupAction)
        ensures
            ({
                let after = old(self).deep_view().rebuild(seq![id], retry_thread);
                final(self).deep_view() == after.group && r.facts() == after.action
            }),
    {
        let mut ids: Vec<i64> = Vec::new();
        ids.push(id);
        assert(ids@ =~= seq![id]);
        self.rebuild(ids, retry_thread)
    }

    fn commit(&mut self) -> (r: GroupAction)
        ensures
            ({
                let after = old(self).deep_view().commit();
                final(self).deep_view() == after.group && r.facts() == after.action
            }),
    {
        let mut prepared: Vec<UsageSourceCommitDto> = Vec::new();
        std::mem::swap(&mut prepared, &mut self.prepared);
        assert(self.prepared.deep_view() =~= Seq::<CommitFacts>::empty());
        self.stage = GroupStage::Commit;
        GroupAction::Commit(prepared)
    }

    fn read_from(&mut self, from: usize) -> (r: GroupAction)
        requires
            from <= old(self).plans@.len(),
        ensures
            ({
                let after = old(self).deep_view().read_from(from as int);
                final(self).deep_view() == after.group && r.facts() == after.action
            }),
    {
        let mut i: usize = from;
        while i < self.plans.len()
            invariant
                i <= self.plans@.len(),
                *self == *old(self),
                readable_from(self.plans@, from as int) == readable_from(self.plans@, i as int),
            decreases self.plans.len() - i,
        {
            let plan: GroupPlan = self.plans[i];
            let reads: bool = match plan.action {
                UsagePlanAction::ReadFrom
                | UsagePlanAction::BuildFrom
                | UsagePlanAction::LocalReplay
                | UsagePlanAction::ResumeOwningLive
                | UsagePlanAction::VerifyRawTail => true,
                _ => false,
            };
            if plan.present && reads {
                self.stage = GroupStage::Read(i);
                return GroupAction::Read(i);
            }
            i = i + 1;
        }
        if self.prepared.len() == 0 {
            self.finish(UsageThreadOutcome::Completed)
        } else {
            self.commit()
        }
    }

    fn on_control(&mut self, plan: GroupPlan) -> (r: GroupAction)
        ensures
            ({
                let after = old(self).deep_view().on_control(plan);
                final(self).deep_view() == after.group && r.facts() == after.action
            }),
    {
        match plan.action {
            UsagePlanAction::BeginCarry => if !self.discovery_complete {
                self.finish(UsageThreadOutcome::Completed)
            } else {
                self.stage = GroupStage::BeginCarry;
                GroupAction::BeginCarry(plan.source_file_id)
            },
            UsagePlanAction::ResumeCarry => if plan.present {
                self.stage = GroupStage::VerifyCarry(plan.source_file_id);
                GroupAction::VerifyCarry(plan.source_file_id)
            } else {
                self.stage = GroupStage::ResumeCarry;
                GroupAction::ResumeCarry(plan.source_file_id)
            },
            UsagePlanAction::CompleteOnly => {
                self.stage = GroupStage::CompleteOnly;
                GroupAction::CompleteOnly(plan.source_file_id)
            },
            _ => self.rebuild_one(plan.source_file_id, true),
        }
    }

    fn on_loaded(&mut self, plans: Vec<GroupPlan>, building: bool, cancelled: bool) -> (r:
        GroupAction)
        ensures
            ({
                let after = old(self).deep_view().on_loaded(plans@, building, cancelled);
                final(self).deep_view() == after.group && r.facts() == after.action
            }),
    {
        self.plans = plans;
        self.building = building;
        self.prepared = Vec::new();
        self.metrics = UsageCommitMetrics::default();
        self.source_ids = Vec::new();
        assert(self.prepared.deep_view() =~= Seq::<CommitFacts>::empty());
        let ghost loaded = self.deep_view();
        if cancelled || self.plans.len() == 0 {
            return self.finish(UsageThreadOutcome::Completed);
        }
        let mut idle_only: bool = true;
        let mut blocked: bool = false;
        let mut i: usize = 0;
        while i < self.plans.len()
            invariant
                i <= self.plans@.len(),
                self.deep_view() == loaded,
                idle_only <==> forall|j: int| 0 <= j < i ==> idle(#[trigger] self.plans@[j]),
                blocked <==> exists|j: int|
                    0 <= j < i && (#[trigger] self.plans@[j]).action is BlockedRelationship,
            decreases self.plans.len() - i,
        {
            let ghost before = idle_only;
            match self.plans[i].action {
                UsagePlanAction::Skip => {
                    assert(idle(self.plans@[i as int]));
                },
                UsagePlanAction::BlockedRelationship => {
                    assert(idle(self.plans@[i as int]));
                    assert(self.plans@[i as int].action is BlockedRelationship);
                    blocked = true;
                },
                _ => {
                    assert(!idle(self.plans@[i as int]));
                    idle_only = false;
                },
            }
            i = i + 1;
        }
        if idle_only {
            return if blocked {
                self.finish(
                    UsageThreadOutcome::SessionDataError("USAGE_SESSION_RELATIONSHIP_INVALID"),
                )
            } else {
                self.finish(UsageThreadOutcome::Completed)
            };
        }
        i = 0;
        while i < self.plans.len()
            invariant
                i <= self.plans@.len(),
                self.deep_view() == loaded,
                plans@ == loaded.plans,
                loaded.prepared == Seq::<CommitFacts>::empty(),
                !cancelled,
                plans@.len() > 0,
                !all_idle(plans@),
                loaded == (GroupFacts {
                    plans: plans@,
                    building,
                    prepared: Seq::empty(),
                    metrics: no_metrics(),
                    source_ids: Seq::empty(),
                    ..old(self).deep_view()
                }),
                control_from(plans@, 0) == control_from(plans@, i as int),
            decreases self.plans.len() - i,
        {
            let plan: GroupPlan = self.plans[i];
            match plan.action {
                UsagePlanAction::BeginCarry
                | UsagePlanAction::ResumeCarry
                | UsagePlanAction::CompleteOnly
                | UsagePlanAction::RebuildRequired => {
                    return self.on_control(plan);
                },
                _ => {},
            }
            i = i + 1;
        }
        self.read_from(0)
    }

    fn on_replied(&mut self, reply: StorageReply, cancelled: bool) -> (r: GroupAction)
        ensures
            ({
                let after = old(self).deep_view().on_replied(reply, cancelled);
                final(self).deep_view() == after.group && r.facts() == after.action
            }),
    {
        let done: bool = reply == StorageReply::Done;
        match self.stage {
            GroupStage::Rebuild { retry_thread, replacing } => if done {
                self.finish(UsageThreadOutcome::GlobalPlanChanged { retry_thread })
            } else if replacing {
                self.fail("USAGE_REBUILD_REPLACE_FAILED")
            } else {
                self.fail("USAGE_REBUILD_BEGIN_FAILED")
            },
            GroupStage::Commit => if done {
                if cancelled {
                    self.finish(UsageThreadOutcome::Completed)
                } else {
                    self.reload()
                }
            } else if reply == StorageReply::Conflict && self.discovery_complete {
                let ids: Vec<i64> = self.source_ids.clone();
                assert(ids@ =~= self.source_ids@);
                self.rebuild(ids, false)
            } else {
                self.fail("USAGE_GROUP_COMMIT_FAILED")
            },
            stage => if done {
                if cancelled {
                    self.finish(UsageThreadOutcome::Completed)
                } else {
                    self.reload()
                }
            } else {
                let code: &'static str = match stage {
                    GroupStage::BeginCarry => "USAGE_CARRY_BEGIN_FAILED",
                    GroupStage::ResumeCarry => if reply == StorageReply::Conflict {
                        "USAGE_CARRY_CONFLICT"
                    } else {
                        "USAGE_CARRY_RESUME_FAILED"
                    },
                    GroupStage::CompleteOnly => "USAGE_COMPLETE_ONLY_FAILED",
                    _ => "USAGE_GROUP_COMMIT_FAILED",
                };
                self.fail(code)
            },
        }
    }

    fn on_prepared(&mut self, i: usize, dto: UsageSourceCommitDto, metrics: UsageCommitMetrics) -> (r:
        GroupAction)
        requires
            i < old(self).plans@.len(),
        ensures
            ({
                let after = old(self).deep_view().on_prepared(i as int, dto.deep_view(), metrics);
                final(self).deep_view() == after.group && r.facts() == after.action
            }),
    {
        if !group_budget_allows(&self.prepared, &dto) {
            if self.prepared.len() == 0 {
                return self.fail("USAGE_GROUP_BATCH_BUDGET_INVALID");
            }
            return self.commit();
        }
        let ghost before = self.deep_view();
        let ghost facts = dto.deep_view();
        let alone: bool = dto_requires_exclusive_batch(&dto);
        self.metrics.add(&metrics);
        self.source_ids.push(dto.source_file_id);
        self.prepared.push(dto);
        assert(self.prepared.deep_view() =~= before.prepared.push(facts));
        assert(self.deep_view() == before.with_prepared(facts, metrics));
        if alone || group_budget_full(&self.prepared) {
            self.commit()
        } else {
            assert(i < self.plans.len());
            self.read_from(i + 1)
        }
    }

    fn on_read(&mut self, i: usize, step: Result<UsageReadStep, &'static str>) -> (r: GroupAction)
        requires
            i < old(self).plans@.len(),
        ensures
            ({
                let event = GroupEvent::SourceRead(step).facts();
                let after = old(self).deep_view().on_read(
                    i as int,
                    event->SourceRead_0,
                    event->SourceRead_1,
                );
                final(self).deep_view() == after.group && r.facts() == after.action
            }),
    {
        let plan: GroupPlan = self.plans[i];
        let rebuilding: bool = plan.action == UsagePlanAction::BuildFrom;
        match step {
            Err(code) => self.fail(code),
            Ok(UsageReadStep::Prepared { dto, metrics }) => self.on_prepared(i, dto, metrics),
            Ok(UsageReadStep::AwaitingOwnership) => self.finish(UsageThreadOutcome::Completed),
            Ok(UsageReadStep::InvalidSessionData) => {
                match shadow_session_data_error(to_pipeline_action(plan.action), true) {
                    Some(code) if self.discovery_complete => self.finish(
                        UsageThreadOutcome::SessionDataError(code),
                    ),
                    _ => self.rebuild_one(plan.source_file_id, true),
                }
            },
            Ok(UsageReadStep::NeedsRebuild) => self.rebuild_one(plan.source_file_id, !rebuilding),
            Ok(UsageReadStep::NeedsRebuildStop) => self.rebuild_one(plan.source_file_id, false),
        }
    }

    /// Takes note of what happened, and says what to do next.
    pub fn step(&mut self, event: GroupEvent) -> (r: GroupAction)
        requires
            old(self).deep_view().awaits(event.facts()),
        ensures
            ({
                let after = old(self).deep_view().after(event.facts());
                final(self).deep_view() == after.group && r.facts() == after.action
            }),
    {
        match event {
            GroupEvent::Loaded { plans, building, cancelled } => self.on_loaded(
                plans,
                building,
                cancelled,
            ),
            GroupEvent::LoadFailed => match self.stage {
                GroupStage::FirstLoad => self.fail("USAGE_PLAN_RELOAD_FAILED"),
                _ => self.finish(UsageThreadOutcome::FatalReloadError("USAGE_PLAN_RELOAD_FAILED")),
            },
            GroupEvent::Verified(kept) => {
                let id: i64 = match self.stage {
                    GroupStage::VerifyCarry(id) => id,
                    _ => 0,
                };
                match kept {
                    Err(code) => self.fail(code),
                    Ok(kept) => if kept {
                        self.stage = GroupStage::ResumeCarry;
                        GroupAction::ResumeCarry(id)
                    } else if !self.discovery_complete {
                        self.finish(UsageThreadOutcome::Completed)
                    } else {
                        self.stage = GroupStage::Rebuild { retry_thread: true, replacing: true };
                        let mut ids: Vec<i64> = Vec::new();
                        ids.push(id);
                        assert(ids@ =~= seq![id]);
                        GroupAction::Replace(ids)
                    },
                }
            },
            GroupEvent::Replied { reply, cancelled } => self.on_replied(reply, cancelled),
            GroupEvent::SourceRead(step) => {
                let i: usize = match self.stage {
                    GroupStage::Read(i) => i,
                    _ => 0,
                };
                self.on_read(i, step)
            },
        }
    }
}

/// The commits that are prepared fit into one batch, or are one that goes alone.
pub open spec fn batch_sized(dtos: Seq<CommitFacts>) -> bool {
    ||| dtos.len() == 1 && exclusive(dtos[0])
    ||| {
        &&& !some_exclusive(dtos)
        &&& total_bytes(dtos) <= MAX_BATCH_BYTES
        &&& total_lines(dtos) <= MAX_BATCH_LINES
        &&& total_candidates(dtos) <= MAX_BATCH_CANDIDATES
    }
}

proof fn lemma_joined(existing: Seq<CommitFacts>, next: CommitFacts)
    requires
        allows(existing, next),
    ensures
        batch_sized(existing.push(next)),
{
    let joined = existing.push(next);
    assert(joined.drop_last() =~= existing);
    assert(joined.last() == next);
    if exclusive(next) {
        assert(joined.len() == 1 && joined[0] == next);
    } else {
        assert forall|i: int| 0 <= i < joined.len() implies !exclusive(#[trigger] joined[i]) by {
            if i < existing.len() {
                assert(joined[i] == existing[i]);
            }
        }
    }
}

/// Whatever happens, what is prepared and what is committed never exceeds one batch.
pub proof fn law_groups_stay_within_a_batch(group: GroupFacts, event: EventFacts)
    requires
        group.awaits(event),
        batch_sized(group.prepared),
    ensures
        batch_sized(group.after(event).group.prepared),
        group.after(event).action matches ActionFacts::Commit(dtos) ==> batch_sized(dtos)
            && dtos.len() > 0,
{
    let nothing = Seq::<CommitFacts>::empty();
    assert(batch_sized(nothing));
    if let EventFacts::SourceRead(Ok(StepFacts::Prepared(dto)), _) = event {
        if allows(group.prepared, dto) {
            lemma_joined(group.prepared, dto);
        }
    }
}

/// As long as discovery is incomplete, nothing is carried over anew and nothing is rebuilt.
pub proof fn law_incomplete_discovery_rebuilds_nothing(group: GroupFacts, event: EventFacts)
    requires
        !group.discovery_complete,
    ensures
        !group.after(event).group.discovery_complete,
        !(group.after(event).action is BeginCarry),
        !(group.after(event).action is Replace),
        !(group.after(event).action is Begin),
{
}

/// A cancelled group does nothing more once storage has answered.
pub proof fn law_cancelled_groups_end(group: GroupFacts, event: EventFacts)
    requires
        event matches EventFacts::Loaded { cancelled, .. } ==> cancelled,
        event matches EventFacts::Replied { cancelled, .. } ==> cancelled,
        event is Loaded || event is Replied,
        group.awaits(event),
        !(group.stage is Commit && event->reply is Conflict),
    ensures
        group.after(event).action is Finish,
{
}

/// A session is held at fault only by a broken relationship, or by data that contradicts the
/// metadata while the source is built anew from a complete discovery.
pub proof fn law_sessions_are_at_fault_for_a_reason(group: GroupFacts, event: EventFacts, code: Seq<char>)
    requires
        group.awaits(event),
        group.after(event).action == ActionFacts::Finish(OutcomeFacts::SessionDataError(code)),
    ensures
        (event matches EventFacts::Loaded { plans, .. } && some_blocked(plans) && all_idle(plans))
            || (event matches EventFacts::SourceRead(step, _) && step == Ok::<_, Seq<char>>(
            StepFacts::InvalidSessionData,
        ) && group.plans[group.stage->Read_0 as int].action is BuildFrom
            && group.discovery_complete),
{
}

/// A source is read only when it is there and is planned to be read, and each source of a
/// loaded group at most once.
pub proof fn law_reading_moves_forward(group: GroupFacts, event: EventFacts, i: int)
    requires
        group.awaits(event),
        group.after(event).action == ActionFacts::Read(i),
    ensures
        0 <= i < group.after(event).group.plans.len(),
        readable(group.after(event).group.plans[i]),
        event is SourceRead ==> i > group.stage->Read_0 && group.after(event).group.plans
            == group.plans,
{
    let plans = group.after(event).group.plans;
    if event is SourceRead {
        lemma_readable_from(plans, group.stage->Read_0 + 1);
    } else {
        lemma_readable_from(plans, 0);
    }
}

proof fn lemma_readable_from(plans: Seq<GroupPlan>, i: int)
    requires
        0 <= i,
    ensures
        readable_from(plans, i) matches Some(k) ==> i <= k < plans.len() && readable(plans[k]),
    decreases plans.len() - i,
{
    if i < plans.len() && !readable(plans[i]) {
        lemma_readable_from(plans, i + 1);
    }
}

} // verus!
