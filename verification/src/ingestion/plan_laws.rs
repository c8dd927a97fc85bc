//! What the pipeline takes up of a stored plan.
use vstd::prelude::*;

use super::chunks::ChunkReadError;
use super::usage_pipeline::{PlanAction, UsagePipelinePlan};
use super::usage_plan::{
    carry_prefix, checkpoint_guard_error, expected_guard_of, file_at, observed_carry_prefix,
    plan_error, planned, prefix_kept, CarryProblem, PlannedRead, SourceUsageEpochState,
    StoredIdentity, UsageBuildProof, UsagePlanAction, UsageSourceScanPlan,
};

verus! {

/// The plan is of the ledger that is written, of the parser that writes it, of the stored source
/// and of the file that is there; it starts where the stored plan starts and reads from where
/// reading left off.
pub proof fn law_plans_are_taken_up_as_stored(
    epoch: SourceUsageEpochState,
    source: UsageSourceScanPlan,
    read: PlannedRead,
    plan: UsagePipelinePlan,
)
    requires
        plan_error(source.deep_view()) is None,
        plan.deep_view() == planned(epoch, source.deep_view(), read),
    ensures
        plan.ledger_epoch == epoch.working_epoch,
        plan.parser_version == epoch.working_parser_version,
        plan.source_file_id == source.source_file_id,
        plan.file_generation == read.file_generation,
        plan.device_id == read.device_id,
        plan.inode == read.inode,
        plan.start_offset == source.start_offset,
        plan.read_start_offset == read.read_start_offset,
        plan.fixed_observed_size == read.fixed_observed_size,
        plan.owning_thread_id.deep_view() == source.owning_thread_id.deep_view(),
        plan.root_session_id.deep_view() == source.root_session_id.deep_view(),
        plan.allow_replay_tail == read.allow_replay_tail,
        plan.replayed_prefix_bytes_before_chunk == read.replayed_prefix_bytes,
        plan.replayed_prefix_lines_before_chunk == read.replayed_prefix_lines,
        plan.action is ReadFrom <==> source.action is ReadFrom,
        plan.action is BuildFrom <==> source.action is BuildFrom,
        plan.action is LocalReplay <==> source.action is LocalReplay,
        plan.action is ResumeOwningLive <==> source.action is ResumeOwningLive,
        plan.action is VerifyRawTail <==> source.action is VerifyRawTail,
        plan.action is CompleteOnly <==> source.action is CompleteOnly,
        plan.action is BeginCarry <==> source.action is BeginCarry,
        plan.action is ResumeCarry <==> source.action is ResumeCarry,
        plan.action is Skip <==> source.action is Skip,
        plan.action is BlockedRelationship <==> source.action is BlockedRelationship,
        plan.action is RebuildRequired <==> source.action is RebuildRequired,
        source.checkpoint is None ==> plan.checkpoint.parser_version
            == epoch.working_parser_version && plan.checkpoint.committed_offset == 0
            && plan.checkpoint.guard_hash is None && plan.checkpoint.status is Ready,
        source.checkpoint is Some ==> {
            let stored = source.checkpoint->0;
            &&& plan.checkpoint.parser_version == stored.parser_version
            &&& plan.checkpoint.committed_offset == stored.committed_offset
            &&& plan.checkpoint.guard_hash.deep_view() == stored.guard_hash.deep_view()
            &&& plan.checkpoint.status is Pending <==> stored.processing_status is Pending
            &&& plan.checkpoint.status is Ready <==> stored.processing_status is Ready
            &&& plan.checkpoint.status is Error <==> stored.processing_status is Error
            &&& plan.checkpoint.status is RebuildRequired
                <==> stored.processing_status is RebuildRequired
        },
        plan.state is Some <==> source.state is Some,
        source.state is Some ==> {
            let stored = source.state->0;
            let state = plan.state->0;
            &&& state.file_generation == stored.file_generation
            &&& state.device_id == stored.device_id
            &&& state.inode == stored.inode
            &&& state.parser_version == stored.usage_parser_version
            &&& state.canonical_algorithm_version == stored.canonical_algorithm_version
            &&& state.resolved_through_offset == stored.resolved_through_offset
            &&& state.observed_raw_size == stored.observed_raw_size
            &&& state.owning_thread_id@ == stored.owning_thread_id@
            &&& state.root_session_id@ == stored.root_session_id@
            &&& state.continuation_state is OwningLive
                <==> stored.continuation_state is OwningLive
            &&& state.processor_state.active_model.deep_view() == stored.active_model.deep_view()
            &&& state.processor_state.active_reasoning_effort.deep_view()
                == stored.active_reasoning_effort.deep_view()
            &&& state.processor_state.previous_total is Some <==> stored.previous_total is Some
            &&& stored.previous_total is Some ==> state.processor_state.previous_total->0
                == stored.previous_total->0.vector
            &&& state.processor_state.chain_state is Continuous <==> stored.chain_state
                is Continuous
            &&& state.processor_state.open_turn.deep_view() == source.open_turn.deep_view()
            &&& state.updated_at_ms == stored.updated_at_ms
        },
{
    if source.checkpoint is Some {
        assert(source.deep_view().checkpoint == Some(source.checkpoint->0.deep_view()));
    }
    if source.state is Some {
        assert(source.deep_view().state == Some(source.state->0.deep_view()));
        assert(plan.deep_view().state == Some(plan.state->0.deep_view()));
    }
}

/// A stored plan is refused where an offset of it is negative, or where its state names an open
/// turn that is not there; and for nothing else.
pub proof fn law_plans_are_refused_for_their_offsets(source: UsageSourceScanPlan)
    ensures
        plan_error(source.deep_view()) is None <==> {
            &&& source.start_offset >= 0
            &&& source.checkpoint is Some ==> source.checkpoint->0.committed_offset >= 0
            &&& source.state is Some ==> {
                let stored = source.state->0;
                &&& stored.resolved_through_offset >= 0
                &&& stored.observed_raw_size >= 0
                &&& stored.raw_tail_start_offset is Some ==> stored.raw_tail_start_offset->0 >= 0
                &&& stored.previous_total_offset is Some ==> stored.previous_total_offset->0 >= 0
                &&& stored.active_model_offset is Some ==> stored.active_model_offset->0 >= 0
                &&& stored.active_reasoning_effort_offset is Some
                    ==> stored.active_reasoning_effort_offset->0 >= 0
                &&& stored.active_turn_key is Some ==> source.open_turn is Some
            }
        },
{
    if source.checkpoint is Some {
        assert(source.deep_view().checkpoint == Some(source.checkpoint->0.deep_view()));
    }
    if source.state is Some {
        assert(source.deep_view().state == Some(source.state->0.deep_view()));
    }
}

/// A checkpoint has a guard of 32 bytes after the start of a file, and none at the start.
pub proof fn law_guards_stand_after_the_start(source: UsageSourceScanPlan)
    ensures
        source.checkpoint is None ==> checkpoint_guard_error(source.deep_view().checkpoint) is None
            && expected_guard_of(source.deep_view().checkpoint) is None,
        source.checkpoint is Some ==> {
            let stored = source.checkpoint->0;
            &&& checkpoint_guard_error(source.deep_view().checkpoint) is None <==> {
                ||| stored.committed_offset == 0 && stored.guard_hash is None
                ||| stored.committed_offset > 0 && stored.guard_hash is Some
                    && stored.guard_hash->0@.len() == 32
            }
            &&& expected_guard_of(source.deep_view().checkpoint)
                == stored.guard_hash.deep_view()
        },
{
    if source.checkpoint is Some {
        assert(source.deep_view().checkpoint == Some(source.checkpoint->0.deep_view()));
        if source.checkpoint->0.guard_hash is Some {
            assert(source.checkpoint->0.guard_hash->0.deep_view().len()
                == source.checkpoint->0.guard_hash->0@.len());
        }
    }
}

/// A carried source has to have kept the prefix that was committed of it, on the file that it was
/// committed from.
pub proof fn law_carried_prefixes_are_the_committed_ones(build: UsageBuildProof)
    ensures
        match carry_prefix(Some(build.deep_view())) {
            Ok((identity, offset, guard)) => {
                &&& identity.device_id == build.expected_device_id
                &&& identity.inode == build.expected_inode
                &&& offset == build.active_committed_offset
                &&& guard == build.active_guard_hash.deep_view()
                &&& offset == 0 <==> guard is None
                &&& guard is Some ==> guard->0.len() == 32
            },
            Err(CarryProblem::Failed(_)) => build.expected_device_id < 0 || build.expected_inode
                < 0 || build.active_guard_hash is Some,
            Err(CarryProblem::Unmatched) => {
                ||| build.active_guard_hash is None && build.active_committed_offset != 0
                ||| build.active_guard_hash is Some && build.active_committed_offset < 1
            },
        },
        carry_prefix(None) == Err::<
            (super::chunks::PhysicalIdentity, u64, Option<Seq<u8>>),
            CarryProblem,
        >(CarryProblem::Unmatched),
{
}

/// Whether a source is carried by a plan or observed for one, the prefix that it has to have kept
/// is the same, wherever the stored numbers are sound.
pub proof fn law_carried_and_observed_prefixes_agree(build: UsageBuildProof)
    requires
        build.expected_device_id >= 0,
        build.expected_inode >= 0,
        build.active_committed_offset >= 0,
    ensures
        carry_prefix(Some(build.deep_view())) == observed_carry_prefix(
            build.expected_device_id,
            build.expected_inode,
            build.active_committed_offset,
            build.active_guard_hash.deep_view(),
        ),
{
}

/// A prefix that can be read is kept; one whose file has become another is not. Only where it is
/// observed is a file that became shorter another file; any other failure is one.
pub proof fn law_shorter_files_are_other_files_where_observed(read: Option<ChunkReadError>)
    ensures
        prefix_kept(read, true) == Ok::<bool, Seq<char>>(true) <==> read is None,
        prefix_kept(read, false) == Ok::<bool, Seq<char>>(true) <==> read is None,
        read == Some(ChunkReadError::CheckpointOutOfRange) ==> prefix_kept(read, true) == Ok::<
            bool,
            Seq<char>,
        >(false) && prefix_kept(read, false) is Err,
        prefix_kept(read, false) == Ok::<bool, Seq<char>>(false) ==> prefix_kept(read, true)
            == Ok::<bool, Seq<char>>(false),
        read != Some(ChunkReadError::CheckpointOutOfRange) ==> prefix_kept(read, true)
            == prefix_kept(read, false),
{
}

/// The file that is found is the first that has the identity.
pub proof fn law_the_first_file_is_found(files: Seq<StoredIdentity>, wanted: StoredIdentity)
    ensures
        file_at(files, wanted) is None <==> forall|i: int|
            0 <= i < files.len() ==> #[trigger] files[i] != wanted,
        file_at(files, wanted) matches Some(at) ==> 0 <= at < files.len() && files[at] == wanted
            && forall|i: int| 0 <= i < at ==> #[trigger] files[i] != wanted,
    decreases files.len(),
{
    if files.len() > 0 {
        let rest = files.drop_first();
        law_the_first_file_is_found(rest, wanted);
        assert forall|i: int| 1 <= i < files.len() implies #[trigger] files[i] == rest[i - 1] by {}
        if files.first() != wanted {
            if file_at(rest, wanted) is None {
                assert forall|i: int| 0 <= i < files.len() implies #[trigger] files[i]
                    != wanted by {
                    if i > 0 {
                        assert(rest[i - 1] != wanted);
                    }
                }
            } else {
                let at = file_at(rest, wanted)->0;
                assert(files[at + 1] == wanted);
                assert forall|i: int| 0 <= i < at + 1 implies #[trigger] files[i] != wanted by {
                    if i > 0 {
                        assert(rest[i - 1] != wanted);
                    }
                }
            }
        } else {
            assert(files[0] == wanted);
        }
    }
}

} // verus!
