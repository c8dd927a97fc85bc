//! Whose the records of a rollout are.
use vstd::prelude::*;

use crate::identifiers::{canonical_uuid, uuid7_ms};
use crate::rollout::{
    OwnershipConfidence, OwningCandidateConfidence, RecordOwnership, ResumeState,
};
use crate::rollout_parser::{
    ContentFacts, MachineState, ParseFacts, RolloutParseContext, RolloutParseResult, Scan,
    SessionMetaFacts, Span, TurnContextFacts,
};

verus! {

/// A rollout that is read from its start is owned by the thread that the state index names, else
/// by the one that its file name names, as far as that is a thread id; where the two differ it
/// has to be read again. Where neither names one, nobody owns it yet.
pub proof fn law_candidates_own_from_the_start(context: RolloutParseContext, retain: bool)
    requires
        context.chunk_start_offset == 0,
    ensures
        ({
            let scan = Scan::start(context, retain);
            let by_state = if context.candidates.state_rollout is Some {
                canonical_uuid(context.candidates.state_rollout->0.thread_id@)
            } else {
                None
            };
            let by_name = if context.candidates.filename is Some {
                canonical_uuid(context.candidates.filename->0.thread_id@)
            } else {
                None
            };
            &&& by_state is Some ==> scan.owner == by_state && scan.confirmed == (
            context.candidates.state_rollout->0.confidence == OwningCandidateConfidence::Confirmed)
            &&& by_state is None && by_name is Some ==> scan.owner == by_name && scan.confirmed == (
            context.candidates.filename->0.confidence == OwningCandidateConfidence::Confirmed)
            &&& by_state is None && by_name is None ==> scan.owner is None && scan.fact is None
                && scan.machine == MachineState::AwaitOwningMeta
            &&& scan.owner is Some ==> scan.machine == MachineState::OwningBootstrap && scan.fact
                is Some && scan.fact->0.owning_thread_id == scan.owner->0
                && scan.fact->0.source_file_id == context.source_file_id
            &&& scan.needs_rebuild <==> by_state is Some && by_name is Some && by_state != by_name
            &&& !scan.resumed_nonzero
        }),
{
}

/// A rollout that is read on goes on with the owner of the state that it was left in, replaying
/// or live as it was left; without such a state, without a fact of that owner, or with another
/// candidate it has to be read again.
pub proof fn law_resumed_rollouts_keep_their_owner(
    context: RolloutParseContext,
    retain: bool,
    named: Seq<char>,
)
    requires
        context.chunk_start_offset > 0,
        context.candidates.state_rollout is None,
        context.candidates.filename is None,
    ensures
        ({
            let scan = Scan::start(context, retain);
            let known = context.existing_fact is Some && canonical_uuid(named) is Some
                && context.existing_fact->0.owning_thread_id@ == canonical_uuid(named)->0;
            &&& scan.resumed_nonzero
            &&& scan.last_processed_offset == context.chunk_start_offset
            &&& context.resume_state is AwaitOwningMeta ==> scan.needs_rebuild
            &&& (context.resume_state matches ResumeState::OwningLive { owning_thread_id }
                && owning_thread_id@ == named) && canonical_uuid(named) is Some ==> scan.owner
                == canonical_uuid(named) && scan.confirmed && scan.machine
                == MachineState::OwningLive && scan.needs_rebuild == !known
            &&& (context.resume_state matches ResumeState::ReplayedAncestor { owning_thread_id }
                && owning_thread_id@ == named) && canonical_uuid(named) is Some ==> scan.owner
                == canonical_uuid(named) && scan.confirmed && scan.machine
                == MachineState::ReplayedAncestor && scan.needs_rebuild == !known
            &&& known && !scan.needs_rebuild ==> scan.fact is Some ==> scan.fact->0.created_at_ms
                == context.existing_fact->0.created_at_ms
        }),
{
}

/// The record is where the last one ended, so nothing is missing before it.
pub open spec fn follows_on(scan: Scan, at: Span) -> bool {
    at.start == scan.last_processed_offset
}

/// The session meta record of a thread that nobody owns the rollout before makes that thread the
/// owner; that of the owner is the owner's, and ends a replay; that of another thread is an
/// ancestor's, and begins one. Without an id it is nobody's.
pub proof fn law_session_meta_tells_the_owner(scan: Scan, at: Span, meta: SessionMetaFacts)
    requires
        follows_on(scan, at),
    ensures
        ({
            let after = scan.with_record(at, ContentFacts::SessionMeta(meta));
            let class = after.last_classification->0;
            &&& after.last_classification is Some
            &&& class.start_offset == at.start
            &&& class.end_offset == at.end
            &&& class.envelope is SessionMeta
            &&& after.last_processed_offset == at.end
            &&& meta.thread_id is None ==> class.ownership == RecordOwnership::UnknownOwnership
                && after.owner == scan.owner && after.machine == scan.machine
            &&& meta.thread_id is Some && scan.owner is None ==> after.owner == meta.thread_id
                && after.confirmed && after.machine == MachineState::OwningBootstrap
                && class.ownership == RecordOwnership::Owning
            &&& meta.thread_id is Some && scan.owner == meta.thread_id ==> after.owner == scan.owner
                && class.ownership == RecordOwnership::Owning && after.machine == (
            if scan.machine == MachineState::ReplayedAncestor {
                MachineState::OwningLive
            } else {
                scan.machine
            }) && after.needs_rebuild == scan.needs_rebuild
            &&& meta.thread_id is Some && scan.owner is Some && scan.owner != meta.thread_id
                ==> after.owner == scan.owner && class.ownership
                == RecordOwnership::ReplayedAncestor && after.machine
                == MachineState::ReplayedAncestor && after.needs_rebuild == (scan.needs_rebuild || (
            scan.resumed_nonzero && scan.machine != MachineState::ReplayedAncestor))
        }),
{
    reveal(crate::rollout_parser::Noted::with_session_meta);
}

/// A turn context ends a replay where its turn began no earlier than the owning thread; it is
/// then the owner's, and the owner's records begin with it. Otherwise it is whose the records
/// around it are.
pub proof fn law_own_turns_end_a_replay(scan: Scan, at: Span, context: TurnContextFacts)
    requires
        follows_on(scan, at),
    ensures
        ({
            let after = scan.with_record(at, ContentFacts::TurnContext(context));
            let class = after.last_classification->0;
            let own_turn = context.turn_id is Some && scan.owner is Some && uuid7_ms(
                context.turn_id->0,
            ) is Some && uuid7_ms(scan.owner->0) is Some && uuid7_ms(scan.owner->0)->0 <= uuid7_ms(
                context.turn_id->0,
            )->0;
            &&& after.last_classification is Some
            &&& class.envelope is TurnContext
            &&& after.owner == scan.owner
            &&& after.needs_rebuild == scan.needs_rebuild
            &&& scan.machine == MachineState::ReplayedAncestor && own_turn ==> after.machine
                == MachineState::OwningLive && class.ownership == RecordOwnership::Owning
            &&& scan.machine == MachineState::ReplayedAncestor && !own_turn ==> after.machine
                == MachineState::ReplayedAncestor && class.ownership
                == RecordOwnership::ReplayedAncestor && after.fact == scan.fact
            &&& scan.machine == MachineState::OwningLive || scan.machine
                == MachineState::OwningBootstrap ==> after.machine == scan.machine
                && class.ownership == RecordOwnership::Owning
            &&& scan.machine == MachineState::AwaitOwningMeta ==> after.machine == scan.machine
                && class.ownership == RecordOwnership::UnknownOwnership
        }),
{
    reveal(crate::rollout_parser::Noted::with_turn_context);
}

/// What a chunk came to goes on with its owner, where that is confirmed and nothing calls for a
/// rebuild: as a replay where it ended in one, else live. Otherwise it cannot be resumed, and a
/// chunk that has to be read again gives no fact.
pub proof fn law_confirmed_owners_are_resumed(scan: Scan, r: RolloutParseResult)
    requires
        r.deep_view() == scan.finished(),
    ensures
        r.needs_rebuild == scan.needs_rebuild,
        r.last_processed_offset == scan.last_processed_offset,
        r.diagnostic_count == scan.diagnostic_count,
        r.malformed_record_count == scan.malformed_record_count,
        r.final_continuation is Unstable <==> scan.needs_rebuild || !scan.confirmed || scan.owner
            is None || scan.machine == MachineState::AwaitOwningMeta,
        r.final_continuation is ReplayedAncestor ==> scan.machine == MachineState::ReplayedAncestor
            && r.final_continuation->ReplayedAncestor_owning_thread_id@ == scan.owner->0,
        r.final_continuation is OwningLive ==> scan.machine != MachineState::ReplayedAncestor
            && r.final_continuation->OwningLive_owning_thread_id@ == scan.owner->0,
        r.fact is Some <==> !scan.needs_rebuild && scan.fact is Some,
        r.fact is Some ==> {
            &&& r.fact->0.owning_thread_id@ == scan.fact->0.owning_thread_id
            &&& r.fact->0.created_at_ms == scan.fact->0.created_at_ms
            &&& r.fact->0.ownership_boundary.replay_start_offset
                == scan.fact->0.boundary.replay_start_offset
            &&& r.fact->0.ownership_boundary.owning_records_start_offset
                == scan.fact->0.boundary.owning_records_start_offset
            &&& r.fact->0.ownership_boundary.confidence == OwnershipConfidence::Confirmed
                <==> !(r.final_continuation is Unstable)
        },
{
    if r.fact is Some {
        assert(r.deep_view().fact == Some(r.fact->0.deep_view()));
    }
}

} // verus!
