//! What a rollout's fact gathers, and what is stored of it.
use vstd::prelude::*;

use crate::domain;
use crate::domain::RolloutMetadataFact;
use crate::rollout::{
    stored_continuation, AgentPathProvenance, AgentRoleProvenance, Candidate, CwdProvenance,
    FinalContinuation, ParentHintProvenance, RolloutThreadFact,
};
use crate::rollout_parser::{
    noted, DiagnosticFacts, Noted, SessionMetaAllowed, TurnContextAllowed,
};
use crate::shared::text_fault;

verus! {

/// The offset is stored, where there is one.
pub open spec fn keeps_offset(offset: Option<u64>, stored: Option<i64>) -> bool {
    &&& offset is Some <==> stored is Some
    &&& offset is Some ==> stored->0 == offset->0
}

/// The value and the place of a hint are stored, where there is one.
pub open spec fn keeps_hint<P>(
    hint: Option<Candidate<P>>,
    value: Option<String>,
    offset: Option<i64>,
) -> bool {
    &&& hint is Some <==> value is Some
    &&& hint is Some <==> offset is Some
    &&& hint is Some ==> value->0@ == hint->0.value@ && offset->0 == hint->0.record_offset
}

/// A fact is stored field by field: each hint with where it comes from and where it stands, the
/// times, the model and its turn, and the boundary. What cannot be resumed is not confirmed, and
/// a conflict is one whichever kind it is of.
pub proof fn law_facts_are_stored_field_by_field(
    fact: RolloutThreadFact,
    file_generation: i64,
    metadata_parser_version: i64,
    resolved_through_offset: u64,
    updated_at_ms: i64,
    continuation: FinalContinuation,
    safe: RolloutMetadataFact,
)
    requires
        fact.safe_fact_fault(
            file_generation,
            metadata_parser_version,
            resolved_through_offset,
            updated_at_ms,
            continuation,
        ) is None,
        safe == fact.safe_fact(
            file_generation,
            metadata_parser_version,
            resolved_through_offset,
            updated_at_ms,
            stored_continuation(fact.owning_thread_id@, continuation)->0,
        ),
    ensures
        safe.source_file_id == fact.source_file_id,
        safe.file_generation == file_generation,
        safe.metadata_parser_version == metadata_parser_version,
        safe.resolved_through_offset == resolved_through_offset,
        safe.owning_thread_id@ == fact.owning_thread_id@,
        safe.updated_at_ms == updated_at_ms,
        safe.continuation_state is OwningLive <==> continuation is OwningLive,
        safe.continuation_state is ReplayedAncestor <==> continuation is ReplayedAncestor,
        safe.continuation_state is Unstable <==> continuation is Unstable,
        continuation is OwningLive ==> continuation->OwningLive_owning_thread_id@
            == fact.owning_thread_id@,
        continuation is ReplayedAncestor ==> continuation->ReplayedAncestor_owning_thread_id@
            == fact.owning_thread_id@,
        keeps_hint(fact.cwd, safe.cwd, safe.cwd_record_offset),
        safe.cwd_provenance == Some(domain::CwdProvenance::SessionMeta) <==> fact.cwd is Some
            && fact.cwd->0.provenance == CwdProvenance::SessionMeta,
        safe.cwd_provenance == Some(domain::CwdProvenance::TurnContext) <==> fact.cwd is Some
            && fact.cwd->0.provenance == CwdProvenance::TurnContext,
        safe.created_at_ms == fact.created_at_ms,
        safe.latest_context_model.deep_view() == fact.latest_context_model.deep_view(),
        safe.latest_context_turn_id.deep_view() == fact.latest_context_turn_id.deep_view(),
        safe.latest_context_at_ms == fact.latest_context_at_ms,
        keeps_hint(
            fact.parent_thread_id_hint,
            safe.parent_thread_id_hint,
            safe.parent_hint_record_offset,
        ),
        safe.parent_hint_provenance == Some(domain::ParentHintProvenance::SessionMetaParent)
            <==> fact.parent_thread_id_hint is Some && fact.parent_thread_id_hint->0.provenance
            == ParentHintProvenance::SessionMetaParent,
        safe.parent_hint_provenance == Some(domain::ParentHintProvenance::SubagentSource)
            <==> fact.parent_thread_id_hint is Some && fact.parent_thread_id_hint->0.provenance
            == ParentHintProvenance::SubagentSource,
        safe.parent_hint_provenance == Some(domain::ParentHintProvenance::ForkedFromId)
            <==> fact.parent_thread_id_hint is Some && fact.parent_thread_id_hint->0.provenance
            == ParentHintProvenance::ForkedFromId,
        keeps_hint(fact.agent_role_hint, safe.agent_role_hint, safe.agent_role_record_offset),
        safe.agent_role_provenance == Some(domain::AgentRoleProvenance::SubagentSource)
            <==> fact.agent_role_hint is Some && fact.agent_role_hint->0.provenance
            == AgentRoleProvenance::SubagentSource,
        safe.agent_role_provenance == Some(domain::AgentRoleProvenance::SessionMetaRole)
            <==> fact.agent_role_hint is Some && fact.agent_role_hint->0.provenance
            == AgentRoleProvenance::SessionMetaRole,
        keeps_hint(fact.agent_path, safe.agent_path, safe.agent_path_record_offset),
        safe.agent_path_provenance == Some(domain::AgentPathProvenance::SessionMeta)
            <==> fact.agent_path is Some && fact.agent_path->0.provenance
            == AgentPathProvenance::SessionMeta,
        safe.agent_path_provenance == Some(domain::AgentPathProvenance::ThreadSpawn)
            <==> fact.agent_path is Some && fact.agent_path->0.provenance
            == AgentPathProvenance::ThreadSpawn,
        keeps_offset(fact.ownership_boundary.replay_start_offset, safe.replay_start_offset),
        keeps_offset(
            fact.ownership_boundary.owning_records_start_offset,
            safe.owning_records_start_offset,
        ),
        safe.ownership_confidence is Confirmed <==> !(continuation is Unstable),
        safe.fact_quality_status is Conflict <==> fact.has_conflict || fact.relationship_conflict,
        safe.fact_quality_status is Complete <==> !fact.has_conflict && !fact.relationship_conflict
            && !(continuation is Unstable),
        safe.relationship_conflict == fact.relationship_conflict,
{
}

/// The hint is this value, from there, at that place.
pub open spec fn is_hint<P>(
    hint: Option<Candidate<P>>,
    value: Seq<char>,
    provenance: P,
    offset: u64,
) -> bool {
    &&& hint is Some
    &&& hint->0.value@ == value
    &&& hint->0.provenance == provenance
    &&& hint->0.record_offset == offset
}

/// What a session meta record says is what the fact of a thread holds that held no hint before:
/// the parent that the record names, else the one that spawned the thread, else for a subagent
/// the one that it was forked from; the role of a subagent wherever the source is one; and the
/// path of the session before that of the spawn.
pub proof fn law_session_meta_fills_an_empty_fact(
    before: RolloutThreadFact,
    meta: SessionMetaAllowed,
    offset: u64,
    diagnostics: Seq<DiagnosticFacts>,
    after: RolloutThreadFact,
)
    requires
        before.cwd is None,
        before.created_at_ms is None,
        before.parent_thread_id_hint is None,
        before.agent_role_hint is None,
        before.agent_path is None,
        after.deep_view() == noted(before, diagnostics, before.source_file_id).with_session_meta(
            meta.deep_view(),
            offset,
        ).fact,
    ensures
        after.source_file_id == before.source_file_id,
        after.owning_thread_id@ == before.owning_thread_id@,
        after.latest_context_model.deep_view() == before.latest_context_model.deep_view(),
        after.ownership_boundary == before.ownership_boundary,
        after.created_at_ms == meta.created_at_ms,
        meta.cwd is None ==> after.cwd is None,
        meta.cwd is Some ==> is_hint(
            after.cwd,
            meta.cwd->0@,
            CwdProvenance::SessionMeta,
            offset,
        ),
        meta.parent_thread_id is Some ==> is_hint(
            after.parent_thread_id_hint,
            meta.parent_thread_id->0@,
            ParentHintProvenance::SessionMetaParent,
            offset,
        ),
        meta.parent_thread_id is None && meta.subagent_parent_thread_id is Some ==> is_hint(
            after.parent_thread_id_hint,
            meta.subagent_parent_thread_id->0@,
            ParentHintProvenance::SubagentSource,
            offset,
        ),
        meta.parent_thread_id is None && meta.subagent_parent_thread_id is None && (
        meta.has_subagent_source || (meta.agent_role is Some && meta.agent_role->0@
            == "subagent"@)) && meta.forked_from_id is Some ==> is_hint(
            after.parent_thread_id_hint,
            meta.forked_from_id->0@,
            ParentHintProvenance::ForkedFromId,
            offset,
        ),
        meta.parent_thread_id is None && meta.subagent_parent_thread_id is None
            && !meta.has_subagent_source && !(meta.agent_role is Some && meta.agent_role->0@
            == "subagent"@) ==> after.parent_thread_id_hint is None,
        meta.has_subagent_source ==> is_hint(
            after.agent_role_hint,
            "subagent"@,
            AgentRoleProvenance::SubagentSource,
            offset,
        ),
        !meta.has_subagent_source && meta.agent_role is Some ==> is_hint(
            after.agent_role_hint,
            meta.agent_role->0@,
            AgentRoleProvenance::SessionMetaRole,
            offset,
        ),
        !meta.has_subagent_source && meta.agent_role is None ==> after.agent_role_hint is None,
        meta.agent_path is Some ==> is_hint(
            after.agent_path,
            meta.agent_path->0@,
            AgentPathProvenance::SessionMeta,
            offset,
        ),
        meta.agent_path is None && meta.thread_spawn_agent_path is Some ==> is_hint(
            after.agent_path,
            meta.thread_spawn_agent_path->0@,
            AgentPathProvenance::ThreadSpawn,
            offset,
        ),
        meta.agent_path is None && meta.thread_spawn_agent_path is None
            ==> after.agent_path is None,
        meta.parent_thread_id is Some && meta.subagent_parent_thread_id is Some
            && meta.parent_thread_id->0@ != meta.subagent_parent_thread_id->0@
            ==> after.relationship_conflict && after.has_conflict,
        meta.agent_path is Some && meta.thread_spawn_agent_path is Some && meta.agent_path->0@
            != meta.thread_spawn_agent_path->0@ ==> after.has_conflict,
        meta.parent_thread_id is None && meta.subagent_parent_thread_id is None
            && meta.forked_from_id is None ==> after.relationship_conflict
            == before.relationship_conflict,
{
    reveal(Noted::with_session_meta);
}

/// A turn context sets the directory of a fact that has none, and the model, the turn and the
/// time of the latest context where it names a model and the fact had none; without a model it
/// sets none of these.
pub proof fn law_turn_context_fills_an_empty_fact(
    before: RolloutThreadFact,
    context: TurnContextAllowed,
    offset: u64,
    diagnostics: Seq<DiagnosticFacts>,
    after: RolloutThreadFact,
)
    requires
        before.cwd is None,
        before.latest_context_model is None,
        before.latest_context_turn_id is None,
        before.latest_context_at_ms is None,
        before.latest_context_record_offset is None,
        after.deep_view() == noted(before, diagnostics, before.source_file_id).with_turn_context(
            context.deep_view(),
            offset,
        ).fact,
    ensures
        after.source_file_id == before.source_file_id,
        after.owning_thread_id@ == before.owning_thread_id@,
        after.created_at_ms == before.created_at_ms,
        context.cwd is None ==> after.cwd is None,
        context.cwd is Some ==> is_hint(
            after.cwd,
            context.cwd->0@,
            CwdProvenance::TurnContext,
            offset,
        ),
        context.model is None ==> after.latest_context_model is None
            && after.latest_context_turn_id is None && after.latest_context_at_ms is None,
        context.model is Some ==> {
            &&& after.latest_context_model.deep_view() == context.model.deep_view()
            &&& after.latest_context_turn_id.deep_view() == context.turn_id.deep_view()
            &&& after.latest_context_at_ms == context.timestamp_ms
            &&& after.latest_context_record_offset == Some(offset)
        },
{
    reveal(Noted::with_turn_context);
}

/// Of two contexts without turns the later one gives the model; one without a time gives way to
/// one with a time.
pub proof fn law_the_later_context_gives_the_model(
    before: RolloutThreadFact,
    context: TurnContextAllowed,
    offset: u64,
    diagnostics: Seq<DiagnosticFacts>,
    after: RolloutThreadFact,
)
    requires
        before.latest_context_turn_id is None,
        before.latest_context_at_ms is Some,
        context.turn_id is None,
        context.model is Some,
        context.timestamp_ms is Some ==> context.timestamp_ms->0
            != before.latest_context_at_ms->0,
        after.deep_view() == noted(before, diagnostics, before.source_file_id).with_turn_context(
            context.deep_view(),
            offset,
        ).fact,
    ensures
        context.timestamp_ms is Some && context.timestamp_ms->0 > before.latest_context_at_ms->0
            ==> after.latest_context_model.deep_view() == context.model.deep_view()
            && after.latest_context_at_ms == context.timestamp_ms,
        context.timestamp_ms is None || context.timestamp_ms->0 < before.latest_context_at_ms->0
            ==> after.latest_context_model.deep_view() == before.latest_context_model.deep_view()
            && after.latest_context_at_ms == before.latest_context_at_ms,
{
    reveal(Noted::with_turn_context);
}

/// What a fact that is stored keeps to: its numbers are not negative, each hint is complete or
/// absent, its names can be stored, a conflict of relationships is a conflict, and what can be
/// resumed is confirmed.
pub proof fn law_stored_facts_are_whole(fact: RolloutMetadataFact)
    ensures
        fact.fault() is None ==> {
            &&& fact.source_file_id > 0
            &&& fact.file_generation > 0
            &&& fact.metadata_parser_version >= 0
            &&& fact.resolved_through_offset >= 0
            &&& fact.updated_at_ms >= 0
            &&& fact.created_at_ms is Some ==> fact.created_at_ms->0 >= 0
            &&& fact.latest_context_at_ms is Some ==> fact.latest_context_at_ms->0 >= 0
            &&& fact.replay_start_offset is Some ==> fact.replay_start_offset->0 >= 0
            &&& fact.owning_records_start_offset is Some ==> fact.owning_records_start_offset->0
                >= 0
            &&& fact.cwd is Some <==> fact.cwd_provenance is Some
            &&& fact.cwd is Some <==> fact.cwd_record_offset is Some
            &&& fact.cwd_record_offset is Some ==> fact.cwd_record_offset->0 >= 0
            &&& fact.parent_thread_id_hint is Some <==> fact.parent_hint_provenance is Some
            &&& fact.parent_thread_id_hint is Some <==> fact.parent_hint_record_offset is Some
            &&& fact.parent_hint_record_offset is Some ==> fact.parent_hint_record_offset->0 >= 0
            &&& fact.agent_role_hint is Some <==> fact.agent_role_provenance is Some
            &&& fact.agent_role_hint is Some <==> fact.agent_role_record_offset is Some
            &&& fact.agent_role_record_offset is Some ==> fact.agent_role_record_offset->0 >= 0
            &&& fact.agent_path is Some <==> fact.agent_path_provenance is Some
            &&& fact.agent_path is Some <==> fact.agent_path_record_offset is Some
            &&& fact.agent_path_record_offset is Some ==> fact.agent_path_record_offset->0 >= 0
            &&& text_fault(fact.owning_thread_id@, "owning_thread_id"@) is None
            &&& fact.relationship_conflict ==> fact.fact_quality_status is Conflict
            &&& !(fact.continuation_state is Unstable) ==> fact.ownership_confidence is Confirmed
        },
{
}

} // verus!
