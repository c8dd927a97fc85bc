//! What storage plans for a source, and what it means to the pipeline.
use vstd::prelude::*;

use crate::domain::CheckpointProcessingStatus;
use super::chunks::{read_error_code, ChunkReadError, GuardHash, PhysicalIdentity};
#[allow(unused_imports)]
use super::chunks::{error_code, guard_view};
use super::commit_types::{
    UsageChainState, UsageCheckpointExpectation, UsageContinuationState, UsageGapReason,
    UsageSourceStateWrite, UsageTailStatus,
};
#[allow(unused_imports)]
use super::commit_types::{ExpectationFacts, SnapshotFacts, StateWriteFacts};
#[allow(unused_imports)]
use super::usage_commit::{earlier, error_of, state_error, state_write, stored_checkpoint_status};
use super::usage_pipeline::{
    CheckpointExpectation, CheckpointStatus, PlanAction, SourceContinuationState, SourceStateProof,
    TailStatus, UsagePipelinePlan,
};
#[allow(unused_imports)]
use super::usage_pipeline::{CheckpointFacts, PlanFacts, ProofFacts};
use super::usage_processor::{ChainState, GapKind, TurnState, UsageSourceState};
#[allow(unused_imports)]
use super::usage_processor::{StateFacts, TurnFacts};

verus! {

/// What storage plans for a source.
#[derive(Clone, Copy, Debug, PartialEq, Eq, Structural)]
pub enum UsagePlanAction {
    ReadFrom,
    BuildFrom,
    LocalReplay,
    ResumeOwningLive,
    VerifyRawTail,
    CompleteOnly,
    BeginCarry,
    ResumeCarry,
    Skip,
    BlockedRelationship,
    RebuildRequired,
}

/// Which ledger is written and by which parser.
#[derive(Clone, Copy, Debug, PartialEq, Eq, Structural)]
pub struct SourceUsageEpochState {
    pub active_epoch: i64,
    pub build_epoch: Option<i64>,
    pub working_epoch: i64,
    pub working_parser_version: i64,
}

/// What a source that is carried over was committed up to.
#[derive(Clone, Debug, PartialEq, Eq)]
pub struct UsageBuildProof {
    pub expected_device_id: i64,
    pub expected_inode: i64,
    pub active_committed_offset: i64,
    pub active_guard_hash: Option<Vec<u8>>,
}

#[verifier::ext_equal]
pub struct BuildFacts {
    pub expected_device_id: i64,
    pub expected_inode: i64,
    pub active_committed_offset: i64,
    pub active_guard_hash: Option<Seq<u8>>,
}

impl DeepView for UsageBuildProof {
    type V = BuildFacts;

    open spec fn deep_view(&self) -> BuildFacts {
        BuildFacts {
            expected_device_id: self.expected_device_id,
            expected_inode: self.expected_inode,
            active_committed_offset: self.active_committed_offset,
            active_guard_hash: self.active_guard_hash.deep_view(),
        }
    }
}

/// The plan of one source.
#[derive(Clone, Debug, PartialEq, Eq)]
pub struct UsageSourceScanPlan {
    pub source_file_id: i64,
    pub action: UsagePlanAction,
    pub start_offset: i64,
    pub owning_thread_id: Option<String>,
    pub root_session_id: Option<String>,
    pub checkpoint: Option<UsageCheckpointExpectation>,
    pub state: Option<UsageSourceStateWrite>,
    pub open_turn: Option<TurnState>,
    pub build: Option<UsageBuildProof>,
}

#[verifier::ext_equal]
pub struct ScanPlanFacts {
    pub source_file_id: i64,
    pub action: UsagePlanAction,
    pub start_offset: i64,
    pub owning_thread_id: Option<Seq<char>>,
    pub root_session_id: Option<Seq<char>>,
    pub checkpoint: Option<ExpectationFacts>,
    pub state: Option<StateWriteFacts>,
    pub open_turn: Option<TurnFacts>,
    pub build: Option<BuildFacts>,
}

impl DeepView for UsageSourceScanPlan {
    type V = ScanPlanFacts;

    open spec fn deep_view(&self) -> ScanPlanFacts {
        ScanPlanFacts {
            source_file_id: self.source_file_id,
            action: self.action,
            start_offset: self.start_offset,
            owning_thread_id: self.owning_thread_id.deep_view(),
            root_session_id: self.root_session_id.deep_view(),
            checkpoint: self.checkpoint.deep_view(),
            state: self.state.deep_view(),
            open_turn: self.open_turn.deep_view(),
            build: self.build.deep_view(),
        }
    }
}

pub open spec fn pipeline_action(action: UsagePlanAction) -> PlanAction {
    match action {
        UsagePlanAction::ReadFrom => PlanAction::ReadFrom,
        UsagePlanAction::BuildFrom => PlanAction::BuildFrom,
        UsagePlanAction::LocalReplay => PlanAction::LocalReplay,
        UsagePlanAction::ResumeOwningLive => PlanAction::ResumeOwningLive,
        UsagePlanAction::VerifyRawTail => PlanAction::VerifyRawTail,
        UsagePlanAction::CompleteOnly => PlanAction::CompleteOnly,
        UsagePlanAction::BeginCarry => PlanAction::BeginCarry,
        UsagePlanAction::ResumeCarry => PlanAction::ResumeCarry,
        UsagePlanAction::Skip => PlanAction::Skip,
        UsagePlanAction::BlockedRelationship => PlanAction::BlockedRelationship,
        UsagePlanAction::RebuildRequired => PlanAction::RebuildRequired,
    }
}

pub fn to_pipeline_action(action: UsagePlanAction) -> (r: PlanAction)
    ensures
        r == pipeline_action(action),
{
    match action {
        UsagePlanAction::ReadFrom => PlanAction::ReadFrom,
        UsagePlanAction::BuildFrom => PlanAction::BuildFrom,
        UsagePlanAction::LocalReplay => PlanAction::LocalReplay,
        UsagePlanAction::ResumeOwningLive => PlanAction::ResumeOwningLive,
        UsagePlanAction::VerifyRawTail => PlanAction::VerifyRawTail,
        UsagePlanAction::CompleteOnly => PlanAction::CompleteOnly,
        UsagePlanAction::BeginCarry => PlanAction::BeginCarry,
        UsagePlanAction::ResumeCarry => PlanAction::ResumeCarry,
        UsagePlanAction::Skip => PlanAction::Skip,
        UsagePlanAction::BlockedRelationship => PlanAction::BlockedRelationship,
        UsagePlanAction::RebuildRequired => PlanAction::RebuildRequired,
    }
}

/// The code of a session whose data is at fault, if it is: what contradicts the metadata
/// once more while the source is built anew.
pub fn shadow_session_data_error(action: PlanAction, invalid_session_data: bool) -> (r: Option<
    &'static str,
>)
    ensures
        r is Some <==> action is BuildFrom && invalid_session_data,
        r matches Some(code) ==> code@ == "USAGE_SESSION_DATA_INVALID"@,
{
    if action == PlanAction::BuildFrom && invalid_session_data {
        Some("USAGE_SESSION_DATA_INVALID")
    } else {
        None
    }
}

fn cloned_bytes(bytes: &Option<Vec<u8>>) -> (r: Option<Vec<u8>>)
    ensures
        r.deep_view() == bytes.deep_view(),
{
    match bytes {
        Some(bytes) => {
            let mut copy: Vec<u8> = Vec::new();
            copy.extend_from_slice(bytes.as_slice());
            assert(copy@ =~= bytes@);
            assert(copy.deep_view() =~= bytes.deep_view());
            Some(copy)
        },
        None => None,
    }
}

/// The hash of a stored guard.
pub fn guard_from_slice(bytes: &[u8]) -> (r: Result<GuardHash, &'static str>)
    ensures
        r is Ok <==> bytes@.len() == 32,
        r matches Ok(guard) ==> guard@ == bytes@,
        r matches Err(error) ==> error@ == "USAGE_CHECKPOINT_GUARD_INVALID"@,
{
    match GuardHash::from_slice(bytes) {
        Some(guard) => Ok(guard),
        None => Err("USAGE_CHECKPOINT_GUARD_INVALID"),
    }
}

/// What reading has to expect: a hash after the start of the file, and none at the start.
pub open spec fn guard_of(offset: i64, hash: Option<Seq<u8>>) -> Option<Option<Seq<u8>>> {
    match hash {
        None => if offset == 0 {
            Some(None)
        } else {
            None
        },
        Some(bytes) => if offset >= 1 && bytes.len() == 32 {
            Some(Some(bytes))
        } else {
            None
        },
    }
}

pub open spec fn checkpoint_guard_error(checkpoint: Option<ExpectationFacts>) -> Option<Seq<char>> {
    match checkpoint {
        None => None,
        Some(checkpoint) => if checkpoint.committed_offset < 0 {
            Some("USAGE_CHECKPOINT_OFFSET_INVALID"@)
        } else if guard_of(checkpoint.committed_offset, checkpoint.guard_hash) is None {
            Some("USAGE_CHECKPOINT_GUARD_INVALID"@)
        } else {
            None
        },
    }
}

pub open spec fn expected_guard_of(checkpoint: Option<ExpectationFacts>) -> Option<Seq<u8>> {
    match checkpoint {
        None => None,
        Some(checkpoint) => checkpoint.guard_hash,
    }
}

/// The guard of the checkpoint that a source is read from.
pub fn checkpoint_guard(source: &UsageSourceScanPlan) -> (r: Result<
    Option<GuardHash>,
    &'static str,
>)
    ensures
        error_of(r) == checkpoint_guard_error(source.deep_view().checkpoint),
        r matches Ok(guard) ==> guard_view(guard) == expected_guard_of(
            source.deep_view().checkpoint,
        ),
{
    match &source.checkpoint {
        None => Ok(None),
        Some(checkpoint) => {
            if checkpoint.committed_offset < 0 {
                return Err("USAGE_CHECKPOINT_OFFSET_INVALID");
            }
            match &checkpoint.guard_hash {
                None => if checkpoint.committed_offset == 0 {
                    Ok(None)
                } else {
                    Err("USAGE_CHECKPOINT_GUARD_INVALID")
                },
                Some(bytes) => {
                    assert(bytes.deep_view() =~= bytes@);
                    if checkpoint.committed_offset >= 1 {
                        match guard_from_slice(bytes.as_slice()) {
                            Ok(guard) => Ok(Some(guard)),
                            Err(error) => Err(error),
                        }
                    } else {
                        Err("USAGE_CHECKPOINT_GUARD_INVALID")
                    }
                },
            }
        },
    }
}

/// The prefix to be read again before a source is carried over.
#[derive(Clone, Copy, Debug, PartialEq, Eq)]
pub struct CarryPrefix {
    pub identity: PhysicalIdentity,
    pub offset: u64,
    pub expected_guard: Option<GuardHash>,
}

/// What stands against carrying a prefix over: an error, or a guard that cannot be met.
pub enum CarryProblem {
    Failed(Seq<char>),
    Unmatched,
}

pub open spec fn carry_view(r: Result<Option<CarryPrefix>, &'static str>) -> Result<
    (PhysicalIdentity, u64, Option<Seq<u8>>),
    CarryProblem,
> {
    match r {
        Ok(Some(prefix)) => Ok((prefix.identity, prefix.offset, guard_view(prefix.expected_guard))),
        Ok(None) => Err(CarryProblem::Unmatched),
        Err(error) => Err(CarryProblem::Failed(error@)),
    }
}

pub open spec fn stored_identity(device_id: i64, inode: i64) -> PhysicalIdentity {
    PhysicalIdentity { device_id: device_id as u64, inode: inode as u64 }
}

/// The prefix that a carried source has to have kept.
pub open spec fn carry_prefix(build: Option<BuildFacts>) -> Result<
    (PhysicalIdentity, u64, Option<Seq<u8>>),
    CarryProblem,
> {
    match build {
        None => Err(CarryProblem::Unmatched),
        Some(build) => if build.expected_device_id < 0 || build.expected_inode < 0 {
            Err(CarryProblem::Failed("USAGE_SOURCE_IDENTITY_INVALID"@))
        } else if build.active_committed_offset >= 1 && build.active_guard_hash is Some
            && build.active_guard_hash->0.len() != 32 {
            Err(CarryProblem::Failed("USAGE_CHECKPOINT_GUARD_INVALID"@))
        } else if guard_of(build.active_committed_offset, build.active_guard_hash) is None {
            Err(CarryProblem::Unmatched)
        } else {
            Ok(
                (
                    stored_identity(build.expected_device_id, build.expected_inode),
                    build.active_committed_offset as u64,
                    build.active_guard_hash,
                ),
            )
        },
    }
}

/// The prefix to read again before a carried source goes on: none when the guard cannot
/// match whatever is read.
pub fn present_carry_prefix(source: &UsageSourceScanPlan) -> (r: Result<
    Option<CarryPrefix>,
    &'static str,
>)
    ensures
        carry_view(r) == carry_prefix(source.deep_view().build),
{
    let build: &UsageBuildProof = match &source.build {
        Some(build) => build,
        None => {
            return Ok(None);
        },
    };
    let identity: PhysicalIdentity = match PhysicalIdentity::from_stored(
        build.expected_device_id,
        build.expected_inode,
    ) {
        Some(identity) => identity,
        None => {
            return Err("USAGE_SOURCE_IDENTITY_INVALID");
        },
    };
    let expected_guard: Option<GuardHash> = match &build.active_guard_hash {
        None => if build.active_committed_offset == 0 {
            None
        } else {
            return Ok(None);
        },
        Some(bytes) => {
            assert(bytes.deep_view() =~= bytes@);
            if build.active_committed_offset >= 1 {
                Some(guard_from_slice(bytes.as_slice())?)
            } else {
                return Ok(None);
            }
        },
    };
    Ok(
        Some(
            CarryPrefix { identity, offset: build.active_committed_offset as u64, expected_guard },
        ),
    )
}

/// What storage wants proved of a source before it is carried over.
#[derive(Clone, Debug, PartialEq, Eq)]
pub struct UsageCarryObservationRequirement {
    pub device_id: i64,
    pub inode: i64,
    pub active_committed_offset: i64,
    pub active_guard_hash: Option<Vec<u8>>,
}

/// The prefix that an observed source has to have kept.
pub open spec fn observed_carry_prefix(
    device_id: i64,
    inode: i64,
    offset: i64,
    hash: Option<Seq<u8>>,
) -> Result<(PhysicalIdentity, u64, Option<Seq<u8>>), CarryProblem> {
    if offset < 0 {
        Err(CarryProblem::Failed("USAGE_CARRY_GUARD_INVALID"@))
    } else if offset >= 1 && hash is Some && hash->0.len() != 32 {
        Err(CarryProblem::Failed("USAGE_CHECKPOINT_GUARD_INVALID"@))
    } else if guard_of(offset, hash) is None {
        Err(CarryProblem::Unmatched)
    } else if device_id < 0 || inode < 0 {
        Err(CarryProblem::Failed("USAGE_SOURCE_IDENTITY_INVALID"@))
    } else {
        Ok((stored_identity(device_id, inode), offset as u64, hash))
    }
}

/// The prefix to read again for a proof that a source may be carried over.
pub fn required_carry_prefix(requirement: &UsageCarryObservationRequirement) -> (r: Result<
    Option<CarryPrefix>,
    &'static str,
>)
    ensures
        carry_view(r) == observed_carry_prefix(
            requirement.device_id,
            requirement.inode,
            requirement.active_committed_offset,
            requirement.active_guard_hash.deep_view(),
        ),
{
    if requirement.active_committed_offset < 0 {
        return Err("USAGE_CARRY_GUARD_INVALID");
    }
    let expected_guard: Option<GuardHash> = match &requirement.active_guard_hash {
        None => if requirement.active_committed_offset == 0 {
            None
        } else {
            return Ok(None);
        },
        Some(bytes) => {
            assert(bytes.deep_view() =~= bytes@);
            if requirement.active_committed_offset >= 1 {
                Some(guard_from_slice(bytes.as_slice())?)
            } else {
                return Ok(None);
            }
        },
    };
    match PhysicalIdentity::from_stored(requirement.device_id, requirement.inode) {
        Some(identity) => Ok(
            Some(
                CarryPrefix {
                    identity,
                    offset: requirement.active_committed_offset as u64,
                    expected_guard,
                },
            ),
        ),
        None => Err("USAGE_SOURCE_IDENTITY_INVALID"),
    }
}

/// Whether a prefix was kept, by what reading it came to.
pub open spec fn prefix_kept(read: Option<ChunkReadError>, tolerant: bool) -> Result<
    bool,
    Seq<char>,
> {
    match read {
        None => Ok(true),
        Some(error) => if error.stale() || (tolerant && error is CheckpointOutOfRange) {
            Ok(false)
        } else {
            Err(error_code(error))
        },
    }
}

pub open spec fn kept_view(r: Result<bool, &'static str>) -> Result<bool, Seq<char>> {
    match r {
        Ok(kept) => Ok(kept),
        Err(error) => Err(error@),
    }
}

/// Whether a carried source still has its prefix, by what reading it came to.
pub fn carried_prefix_matches(read: Option<ChunkReadError>) -> (r: Result<bool, &'static str>)
    ensures
        kept_view(r) == prefix_kept(read, false),
{
    match read {
        None => Ok(true),
        Some(error) => if error.is_stale() {
            Ok(false)
        } else {
            Err(read_error_code(error))
        },
    }
}

/// Whether an observed source still has its prefix. Here a file that became shorter is
/// another file.
pub fn observed_prefix_matches(read: Option<ChunkReadError>) -> (r: Result<bool, &'static str>)
    ensures
        kept_view(r) == prefix_kept(read, true),
{
    match read {
        None => Ok(true),
        Some(error) => if error.is_stale() || error == ChunkReadError::CheckpointOutOfRange {
            Ok(false)
        } else {
            Err(read_error_code(error))
        },
    }
}

/// A file as discovery saw it, by its stored numbers.
#[derive(Clone, Copy, Debug, PartialEq, Eq, Structural)]
pub struct StoredIdentity {
    pub device_id: i64,
    pub inode: i64,
}

/// The first file with the identity.
pub open spec fn file_at(files: Seq<StoredIdentity>, wanted: StoredIdentity) -> Option<int>
    decreases files.len(),
{
    if files.len() == 0 {
        None
    } else if files.first() == wanted {
        Some(0)
    } else {
        match file_at(files.drop_first(), wanted) {
            Some(i) => Some(i + 1),
            None => None,
        }
    }
}

pub open spec fn index_of(r: Option<usize>) -> Option<int> {
    match r {
        Some(i) => Some(i as int),
        None => None,
    }
}

/// Finds the file that a requirement is about.
pub fn find_file(files: &Vec<StoredIdentity>, wanted: StoredIdentity) -> (r: Option<usize>)
    ensures
        index_of(r) == file_at(files@, wanted),
        r matches Some(i) ==> i < files@.len() && files@[i as int] == wanted,
{
    let mut i: usize = 0;
    assert(files@.skip(0) =~= files@);
    while i < files.len()
        invariant
            i <= files.len(),
            file_at(files@, wanted) == match file_at(files@.skip(i as int), wanted) {
                Some(k) => Some(k + i),
                None => None,
            },
        decreases files.len() - i,
    {
        assert(files@.skip(i as int).first() == files@[i as int]);
        assert(files@.skip(i as int).drop_first() =~= files@.skip(i + 1));
        if files[i] == wanted {
            return Some(i);
        }
        i = i + 1;
    }
    None
}

pub open spec fn read_status(status: CheckpointProcessingStatus) -> CheckpointStatus {
    match status {
        CheckpointProcessingStatus::Pending => CheckpointStatus::Pending,
        CheckpointProcessingStatus::Ready => CheckpointStatus::Ready,
        CheckpointProcessingStatus::Error => CheckpointStatus::Error,
        CheckpointProcessingStatus::RebuildRequired => CheckpointStatus::RebuildRequired,
    }
}

pub open spec fn read_checkpoint(checkpoint: ExpectationFacts) -> CheckpointFacts {
    CheckpointFacts {
        parser_version: checkpoint.parser_version,
        committed_offset: checkpoint.committed_offset as u64,
        guard_hash: checkpoint.guard_hash,
        status: read_status(checkpoint.processing_status),
    }
}

pub fn pipeline_checkpoint(checkpoint: &UsageCheckpointExpectation) -> (r: Result<
    CheckpointExpectation,
    &'static str,
>)
    ensures
        r is Ok <==> checkpoint.committed_offset >= 0,
        r matches Ok(value) ==> value.deep_view() == read_checkpoint(checkpoint.deep_view()),
        r matches Err(error) ==> error@ == "USAGE_CHECKPOINT_OFFSET_INVALID"@,
{
    if checkpoint.committed_offset < 0 {
        return Err("USAGE_CHECKPOINT_OFFSET_INVALID");
    }
    Ok(
        CheckpointExpectation {
            parser_version: checkpoint.parser_version,
            committed_offset: checkpoint.committed_offset as u64,
            guard_hash: cloned_bytes(&checkpoint.guard_hash),
            status: match checkpoint.processing_status {
                CheckpointProcessingStatus::Pending => CheckpointStatus::Pending,
                CheckpointProcessingStatus::Ready => CheckpointStatus::Ready,
                CheckpointProcessingStatus::Error => CheckpointStatus::Error,
                CheckpointProcessingStatus::RebuildRequired => CheckpointStatus::RebuildRequired,
            },
        },
    )
}

pub open spec fn gap_kind(reason: UsageGapReason) -> GapKind {
    match reason {
        UsageGapReason::Malformed => GapKind::Malformed,
        UsageGapReason::Oversized => GapKind::Oversized,
        UsageGapReason::TotalInvalid => GapKind::RequiredInvalid,
        UsageGapReason::OwnershipGap => GapKind::Ownership,
        UsageGapReason::ParserGap => GapKind::Parser,
    }
}

pub open spec fn read_chain(state: UsageChainState) -> ChainState {
    match state {
        UsageChainState::Continuous => ChainState::Continuous,
        UsageChainState::Interrupted(reason) => ChainState::Interrupted(gap_kind(reason)),
    }
}

pub open spec fn read_tail(status: UsageTailStatus) -> TailStatus {
    match status {
        UsageTailStatus::Unverified => TailStatus::Unverified,
        UsageTailStatus::NoTail => TailStatus::NoTail,
        UsageTailStatus::HalfLine => TailStatus::HalfLine,
    }
}

pub open spec fn read_continuation(state: UsageContinuationState) -> SourceContinuationState {
    match state {
        UsageContinuationState::ReplayedAncestor => SourceContinuationState::ReplayedAncestor,
        UsageContinuationState::OwningLive => SourceContinuationState::OwningLive,
    }
}

pub open spec fn negative(value: Option<i64>) -> bool {
    match value {
        Some(value) => value < 0,
        None => false,
    }
}

pub open spec fn unsigned(value: Option<i64>) -> Option<u64> {
    match value {
        Some(value) => Some(value as u64),
        None => None,
    }
}

fn offset_from(value: i64) -> (r: Result<u64, &'static str>)
    ensures
        r is Ok <==> value >= 0,
        r matches Ok(offset) ==> offset == value as u64,
        r matches Err(error) ==> error@ == "USAGE_STATE_OFFSET_INVALID"@,
{
    if value < 0 {
        Err("USAGE_STATE_OFFSET_INVALID")
    } else {
        Ok(value as u64)
    }
}

fn optional_offset_from(value: Option<i64>) -> (r: Result<Option<u64>, &'static str>)
    ensures
        r is Ok <==> !negative(value),
        r matches Ok(offset) ==> offset == unsigned(value),
        r matches Err(error) ==> error@ == "USAGE_STATE_OFFSET_INVALID"@,
{
    match value {
        Some(value) => Ok(Some(offset_from(value)?)),
        None => Ok(None),
    }
}

pub open spec fn vector_of(snapshot: Option<SnapshotFacts>) -> Option<
    crate::token_usage::NormalizedTokenUsage,
> {
    match snapshot {
        Some(snapshot) => Some(snapshot.vector),
        None => None,
    }
}

pub open spec fn read_state_error(state: StateWriteFacts, open_turn: Option<TurnFacts>) -> Option<
    Seq<char>,
> {
    if negative(state.previous_total_offset) {
        Some("USAGE_STATE_OFFSET_INVALID"@)
    } else if state.active_turn_key is Some && open_turn is None {
        Some("USAGE_OPEN_TURN_STATE_MISSING"@)
    } else if state.resolved_through_offset < 0 || state.observed_raw_size < 0 || negative(
        state.raw_tail_start_offset,
    ) || negative(state.active_model_offset) || negative(state.active_reasoning_effort_offset) {
        Some("USAGE_STATE_OFFSET_INVALID"@)
    } else {
        None
    }
}

/// The state of a source as the pipeline takes it up.
pub open spec fn read_state(state: StateWriteFacts, open_turn: Option<TurnFacts>) -> ProofFacts {
    ProofFacts {
        file_generation: state.file_generation,
        device_id: state.device_id,
        inode: state.inode,
        parser_version: state.usage_parser_version,
        canonical_algorithm_version: state.canonical_algorithm_version,
        resolved_through_offset: state.resolved_through_offset as u64,
        observed_raw_size: state.observed_raw_size as u64,
        raw_tail_status: read_tail(state.raw_tail_status),
        raw_tail_start_offset: unsigned(state.raw_tail_start_offset),
        owning_thread_id: state.owning_thread_id,
        root_session_id: state.root_session_id,
        continuation_state: read_continuation(state.continuation_state),
        processor_state: StateFacts {
            chain_state: read_chain(state.chain_state),
            previous_total: vector_of(state.previous_total),
            previous_total_offset: unsigned(state.previous_total_offset),
            active_model: state.active_model,
            active_reasoning_effort: state.active_reasoning_effort,
            open_turn,
        },
        active_model_offset: unsigned(state.active_model_offset),
        active_reasoning_effort_offset: unsigned(state.active_reasoning_effort_offset),
        updated_at_ms: state.updated_at_ms,
    }
}

pub fn pipeline_state(state: &UsageSourceStateWrite, open_turn: &Option<TurnState>) -> (r: Result<
    SourceStateProof,
    &'static str,
>)
    ensures
        error_of(r) == read_state_error(state.deep_view(), open_turn.deep_view()),
        r matches Ok(value) ==> value.deep_view() == read_state(
            state.deep_view(),
            open_turn.deep_view(),
        ),
{
    let previous_total_offset: Option<u64> = optional_offset_from(state.previous_total_offset)?;
    let open_turn: Option<TurnState> = match open_turn {
        Some(turn) => Some(turn.clone()),
        None => None,
    };
    let turn_missing: bool = match &open_turn {
        Some(_) => false,
        None => true,
    };
    let turn_named: bool = match &state.active_turn_key {
        Some(_) => true,
        None => false,
    };
    if turn_named && turn_missing {
        return Err("USAGE_OPEN_TURN_STATE_MISSING");
    }
    let processor_state: UsageSourceState = UsageSourceState {
        chain_state: match state.chain_state {
            UsageChainState::Continuous => ChainState::Continuous,
            UsageChainState::Interrupted(reason) => ChainState::Interrupted(
                match reason {
                    UsageGapReason::Malformed => GapKind::Malformed,
                    UsageGapReason::Oversized => GapKind::Oversized,
                    UsageGapReason::TotalInvalid => GapKind::RequiredInvalid,
                    UsageGapReason::OwnershipGap => GapKind::Ownership,
                    UsageGapReason::ParserGap => GapKind::Parser,
                },
            ),
        },
        previous_total: match &state.previous_total {
            Some(snapshot) => Some(snapshot.vector),
            None => None,
        },
        previous_total_offset,
        active_model: state.active_model.clone(),
        active_reasoning_effort: state.active_reasoning_effort.clone(),
        open_turn,
    };
    let resolved_through_offset: u64 = offset_from(state.resolved_through_offset)?;
    let observed_raw_size: u64 = offset_from(state.observed_raw_size)?;
    let raw_tail_start_offset: Option<u64> = optional_offset_from(state.raw_tail_start_offset)?;
    let active_model_offset: Option<u64> = optional_offset_from(state.active_model_offset)?;
    let active_reasoning_effort_offset: Option<u64> = optional_offset_from(
        state.active_reasoning_effort_offset,
    )?;
    Ok(
        SourceStateProof {
            file_generation: state.file_generation,
            device_id: state.device_id,
            inode: state.inode,
            parser_version: state.usage_parser_version,
            canonical_algorithm_version: state.canonical_algorithm_version,
            resolved_through_offset,
            observed_raw_size,
            raw_tail_status: match state.raw_tail_status {
                UsageTailStatus::Unverified => TailStatus::Unverified,
                UsageTailStatus::NoTail => TailStatus::NoTail,
                UsageTailStatus::HalfLine => TailStatus::HalfLine,
            },
            raw_tail_start_offset,
            owning_thread_id: state.owning_thread_id.clone(),
            root_session_id: state.root_session_id.clone(),
            continuation_state: match state.continuation_state {
                UsageContinuationState::ReplayedAncestor => SourceContinuationState::ReplayedAncestor,
                UsageContinuationState::OwningLive => SourceContinuationState::OwningLive,
            },
            processor_state,
            active_model_offset,
            active_reasoning_effort_offset,
            updated_at_ms: state.updated_at_ms,
        },
    )
}

/// Which file a plan is carried out on, and how far it has been read without a commit.
#[derive(Clone, Copy, Debug, PartialEq, Eq, Structural)]
pub struct PlannedRead {
    pub file_generation: i64,
    pub device_id: i64,
    pub inode: i64,
    pub fixed_observed_size: u64,
    pub read_start_offset: u64,
    pub replayed_prefix_bytes: u64,
    pub replayed_prefix_lines: u64,
    pub allow_replay_tail: bool,
}

/// The first reason for which a source has no plan.
pub open spec fn plan_error(source: ScanPlanFacts) -> Option<Seq<char>> {
    earlier(
        match source.checkpoint {
            Some(checkpoint) => if checkpoint.committed_offset < 0 {
                Some("USAGE_CHECKPOINT_OFFSET_INVALID"@)
            } else {
                None
            },
            None => None,
        },
        earlier(
            match source.state {
                Some(state) => read_state_error(state, source.open_turn),
                None => None,
            },
            if source.start_offset < 0 {
                Some("USAGE_SOURCE_OFFSET_INVALID"@)
            } else {
                None
            },
        ),
    )
}

/// The plan of the pipeline.
pub open spec fn planned(
    epoch: SourceUsageEpochState,
    source: ScanPlanFacts,
    read: PlannedRead,
) -> PlanFacts {
    PlanFacts {
        ledger_epoch: epoch.working_epoch,
        parser_version: epoch.working_parser_version,
        source_file_id: source.source_file_id,
        file_generation: read.file_generation,
        device_id: read.device_id,
        inode: read.inode,
        action: pipeline_action(source.action),
        start_offset: source.start_offset as u64,
        read_start_offset: read.read_start_offset,
        fixed_observed_size: read.fixed_observed_size,
        owning_thread_id: source.owning_thread_id,
        root_session_id: source.root_session_id,
        checkpoint: match source.checkpoint {
            Some(checkpoint) => read_checkpoint(checkpoint),
            None => CheckpointFacts {
                parser_version: epoch.working_parser_version,
                committed_offset: 0,
                guard_hash: None,
                status: CheckpointStatus::Ready,
            },
        },
        state: match source.state {
            Some(state) => Some(read_state(state, source.open_turn)),
            None => None,
        },
        allow_replay_tail: read.allow_replay_tail,
        replayed_bytes: read.replayed_prefix_bytes,
        replayed_lines: read.replayed_prefix_lines,
    }
}

pub fn pipeline_plan(
    epoch: &SourceUsageEpochState,
    source: &UsageSourceScanPlan,
    read: &PlannedRead,
) -> (r: Result<UsagePipelinePlan, &'static str>)
    ensures
        error_of(r) == plan_error(source.deep_view()),
        r matches Ok(plan) ==> plan.deep_view() == planned(*epoch, source.deep_view(), *read),
{
    let checkpoint: CheckpointExpectation = match &source.checkpoint {
        Some(checkpoint) => pipeline_checkpoint(checkpoint)?,
        None => CheckpointExpectation {
            parser_version: epoch.working_parser_version,
            committed_offset: 0,
            guard_hash: None,
            status: CheckpointStatus::Ready,
        },
    };
    let state: Option<SourceStateProof> = match &source.state {
        Some(state) => Some(pipeline_state(state, &source.open_turn)?),
        None => None,
    };
    if source.start_offset < 0 {
        return Err("USAGE_SOURCE_OFFSET_INVALID");
    }
    Ok(
        UsagePipelinePlan {
            ledger_epoch: epoch.working_epoch,
            parser_version: epoch.working_parser_version,
            source_file_id: source.source_file_id,
            file_generation: read.file_generation,
            device_id: read.device_id,
            inode: read.inode,
            action: to_pipeline_action(source.action),
            start_offset: source.start_offset as u64,
            read_start_offset: read.read_start_offset,
            fixed_observed_size: read.fixed_observed_size,
            owning_thread_id: source.owning_thread_id.clone(),
            root_session_id: source.root_session_id.clone(),
            checkpoint,
            state,
            allow_replay_tail: read.allow_replay_tail,
            replayed_prefix_bytes_before_chunk: read.replayed_prefix_bytes,
            replayed_prefix_lines_before_chunk: read.replayed_prefix_lines,
        },
    )
}

/// What is written of a state and read again is the state, whatever it was.
pub proof fn law_states_survive_storage(state: ProofFacts)
    requires
        state_error(state) is None,
    ensures
        read_state_error(state_write(state), state.processor_state.open_turn) is None,
        read_state(state_write(state), state.processor_state.open_turn) == state,
{
}

/// A checkpoint that is expected of storage is the one that the plan started from.
pub proof fn law_checkpoints_survive_storage(checkpoint: CheckpointFacts)
    requires
        checkpoint.committed_offset <= i64::MAX,
    ensures
        read_checkpoint(
            ExpectationFacts {
                parser_version: checkpoint.parser_version,
                committed_offset: checkpoint.committed_offset as i64,
                guard_hash: checkpoint.guard_hash,
                processing_status: stored_checkpoint_status(checkpoint.status),
            },
        ) == checkpoint,
{
}

} // verus!
