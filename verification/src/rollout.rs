//! Rollout envelope parsing and per-record ownership classification.
//!
//! Complete lines come in already framed. Only whitelisted metadata fields are read; raw
//! records, message bodies, prompts and tool payloads are never kept.
use vstd::prelude::*;
use vstd::string::*;

use crate::domain::RolloutMetadataFact;
#[allow(unused_imports)]
use crate::domain;
#[allow(unused_imports)]
use crate::paths::agent_path;
use crate::shared::DomainError;
#[allow(unused_imports)]
use crate::shared::{answers, first, invalid_fault, violation_fault, Fault};

verus! {

/// Version of the durable metadata safe facts that this parser produces.
pub const METADATA_PARSER_VERSION: i64 = 5;

/// What kind of record an envelope holds.
#[derive(Clone, Copy, Debug, PartialEq, Eq, Structural)]
pub enum EnvelopeKind {
    SessionMeta,
    TurnContext,
    TokenCount,
    Lifecycle,
    Ignored,
    Unknown,
    Malformed,
}

/// Whose record it is.
#[derive(Clone, Copy, Debug, PartialEq, Eq, Structural)]
pub enum RecordOwnership {
    Owning,
    ReplayedAncestor,
    UnknownOwnership,
}

/// Where parsing takes up.
#[derive(Clone, Debug, PartialEq, Eq)]
pub enum ResumeState {
    AwaitOwningMeta,
    ReplayedAncestor { owning_thread_id: String },
    OwningLive { owning_thread_id: String },
}

/// Where the next chunk may take up.
#[derive(Clone, Debug, PartialEq, Eq)]
pub enum FinalContinuation {
    ReplayedAncestor { owning_thread_id: String },
    OwningLive { owning_thread_id: String },
    Unstable,
}

pub enum ContinuationFacts {
    ReplayedAncestor { owning_thread_id: Seq<char> },
    OwningLive { owning_thread_id: Seq<char> },
    Unstable,
}

impl DeepView for FinalContinuation {
    type V = ContinuationFacts;

    open spec fn deep_view(&self) -> ContinuationFacts {
        match self {
            FinalContinuation::ReplayedAncestor {
                owning_thread_id,
            } => ContinuationFacts::ReplayedAncestor { owning_thread_id: owning_thread_id@ },
            FinalContinuation::OwningLive { owning_thread_id } => ContinuationFacts::OwningLive {
                owning_thread_id: owning_thread_id@,
            },
            FinalContinuation::Unstable => ContinuationFacts::Unstable,
        }
    }
}

#[derive(Clone, Copy, Debug, PartialEq, Eq, Structural)]
pub enum OwnershipConfidence {
    Confirmed,
    Unresolved,
}

#[derive(Clone, Copy, Debug, PartialEq, Eq, Structural)]
pub enum OwningCandidateConfidence {
    Candidate,
    Confirmed,
}

#[derive(Clone, Copy, Debug, PartialEq, Eq, Structural)]
pub enum CwdProvenance {
    SessionMeta,
    TurnContext,
}

#[derive(Clone, Copy, Debug, PartialEq, Eq, Structural)]
pub enum ParentHintProvenance {
    SessionMetaParent,
    SubagentSource,
    ForkedFromId,
}

#[derive(Clone, Copy, Debug, PartialEq, Eq, Structural)]
pub enum AgentRoleProvenance {
    SubagentSource,
    SessionMetaRole,
}

#[derive(Clone, Copy, Debug, PartialEq, Eq, Structural)]
pub enum AgentPathProvenance {
    SessionMeta,
    ThreadSpawn,
}

impl AgentPathProvenance {
    pub open spec fn name(self) -> Seq<char> {
        match self {
            AgentPathProvenance::SessionMeta => "session_meta"@,
            AgentPathProvenance::ThreadSpawn => "thread_spawn"@,
        }
    }

    pub fn as_str(self) -> (r: &'static str)
        ensures
            r@ == self.name(),
    {
        match self {
            AgentPathProvenance::SessionMeta => "session_meta",
            AgentPathProvenance::ThreadSpawn => "thread_spawn",
        }
    }
}

/// A value with the place it was read.
#[derive(Debug, PartialEq, Eq)]
pub struct Candidate<P> {
    pub value: String,
    pub provenance: P,
    pub record_offset: u64,
}

impl<P: Copy> Clone for Candidate<P> {
    fn clone(&self) -> (r: Self)
        ensures
            r == *self,
    {
        Candidate {
            value: self.value.clone(),
            provenance: self.provenance,
            record_offset: self.record_offset,
        }
    }
}

pub struct Hint<P> {
    pub value: Seq<char>,
    pub provenance: P,
    pub record_offset: u64,
}

impl<P> DeepView for Candidate<P> {
    type V = Hint<P>;

    open spec fn deep_view(&self) -> Hint<P> {
        Hint {
            value: self.value@,
            provenance: self.provenance,
            record_offset: self.record_offset,
        }
    }
}

fn clone_candidate<P: Copy>(c: &Option<Candidate<P>>) -> (r: Option<Candidate<P>>)
    ensures
        r == *c,
{
    match c {
        Some(c) => Some(c.clone()),
        None => None,
    }
}

/// Where the records of an ancestor begin and where the owner's records begin.
#[derive(Clone, Copy, Debug, PartialEq, Eq, Structural)]
pub struct OwnershipBoundary {
    pub replay_start_offset: Option<u64>,
    pub owning_records_start_offset: Option<u64>,
    pub confidence: OwnershipConfidence,
}

/// What a rollout says of its thread.
#[derive(Debug, PartialEq, Eq)]
pub struct RolloutThreadFact {
    pub source_file_id: i64,
    pub owning_thread_id: String,
    pub cwd: Option<Candidate<CwdProvenance>>,
    pub created_at_ms: Option<i64>,
    pub latest_context_model: Option<String>,
    pub latest_context_turn_id: Option<String>,
    pub latest_context_at_ms: Option<i64>,
    pub latest_context_record_offset: Option<u64>,
    pub parent_thread_id_hint: Option<Candidate<ParentHintProvenance>>,
    pub agent_role_hint: Option<Candidate<AgentRoleProvenance>>,
    pub agent_path: Option<Candidate<AgentPathProvenance>>,
    pub ownership_boundary: OwnershipBoundary,
    pub has_conflict: bool,
    pub relationship_conflict: bool,
}

impl Clone for RolloutThreadFact {
    fn clone(&self) -> (r: Self)
        ensures
            r == *self,
    {
        RolloutThreadFact {
            source_file_id: self.source_file_id,
            owning_thread_id: self.owning_thread_id.clone(),
            cwd: clone_candidate(&self.cwd),
            created_at_ms: self.created_at_ms,
            latest_context_model: self.latest_context_model.clone(),
            latest_context_turn_id: self.latest_context_turn_id.clone(),
            latest_context_at_ms: self.latest_context_at_ms,
            latest_context_record_offset: self.latest_context_record_offset,
            parent_thread_id_hint: clone_candidate(&self.parent_thread_id_hint),
            agent_role_hint: clone_candidate(&self.agent_role_hint),
            agent_path: clone_candidate(&self.agent_path),
            ownership_boundary: self.ownership_boundary,
            has_conflict: self.has_conflict,
            relationship_conflict: self.relationship_conflict,
        }
    }
}

pub struct ThreadFacts {
    pub source_file_id: i64,
    pub owning_thread_id: Seq<char>,
    pub cwd: Option<Hint<CwdProvenance>>,
    pub created_at_ms: Option<i64>,
    pub latest_context_model: Option<Seq<char>>,
    pub latest_context_turn_id: Option<Seq<char>>,
    pub latest_context_at_ms: Option<i64>,
    pub latest_context_record_offset: Option<u64>,
    pub parent: Option<Hint<ParentHintProvenance>>,
    pub role: Option<Hint<AgentRoleProvenance>>,
    pub agent_path: Option<Hint<AgentPathProvenance>>,
    pub boundary: OwnershipBoundary,
    pub has_conflict: bool,
    pub relationship_conflict: bool,
}

impl DeepView for RolloutThreadFact {
    type V = ThreadFacts;

    open spec fn deep_view(&self) -> ThreadFacts {
        ThreadFacts {
            source_file_id: self.source_file_id,
            owning_thread_id: self.owning_thread_id@,
            cwd: self.cwd.deep_view(),
            created_at_ms: self.created_at_ms,
            latest_context_model: self.latest_context_model.deep_view(),
            latest_context_turn_id: self.latest_context_turn_id.deep_view(),
            latest_context_at_ms: self.latest_context_at_ms,
            latest_context_record_offset: self.latest_context_record_offset,
            parent: self.parent_thread_id_hint.deep_view(),
            role: self.agent_role_hint.deep_view(),
            agent_path: self.agent_path.deep_view(),
            boundary: self.ownership_boundary,
            has_conflict: self.has_conflict,
            relationship_conflict: self.relationship_conflict,
        }
    }
}

pub open spec fn unknown_boundary() -> OwnershipBoundary {
    OwnershipBoundary {
        replay_start_offset: None,
        owning_records_start_offset: None,
        confidence: OwnershipConfidence::Confirmed,
    }
}

/// A thread of which nothing is known yet.
pub open spec fn blank_thread(source_file_id: i64, owning_thread_id: Seq<char>) -> ThreadFacts {
    ThreadFacts {
        source_file_id,
        owning_thread_id,
        cwd: None,
        created_at_ms: None,
        latest_context_model: None,
        latest_context_turn_id: None,
        latest_context_at_ms: None,
        latest_context_record_offset: None,
        parent: None,
        role: None,
        agent_path: None,
        boundary: unknown_boundary(),
        has_conflict: false,
        relationship_conflict: false,
    }
}

pub open spec fn offset_fault(offset: u64, field: Seq<char>) -> Option<Fault> {
    if offset > i64::MAX {
        Some(invalid_fault(field, "does not fit in i64"@))
    } else {
        None
    }
}

pub open spec fn optional_offset_fault(offset: Option<u64>, field: Seq<char>) -> Option<Fault> {
    match offset {
        Some(offset) => offset_fault(offset, field),
        None => None,
    }
}

pub open spec fn hint_offset<P>(hint: Option<Candidate<P>>) -> Option<u64> {
    match hint {
        Some(hint) => Some(hint.record_offset),
        None => None,
    }
}

pub open spec fn hint_value<P>(hint: Option<Candidate<P>>) -> Option<String> {
    match hint {
        Some(hint) => Some(hint.value),
        None => None,
    }
}

/// An offset as stored.
pub open spec fn stored(offset: Option<u64>) -> Option<i64> {
    match offset {
        Some(offset) => Some(offset as i64),
        None => None,
    }
}

fn stored_offset(value: u64, field: &'static str) -> (r: Result<i64, DomainError>)
    ensures
        answers(r, offset_fault(value, field@)),
        r matches Ok(v) ==> v == value as i64 && v == value,
{
    if value > 0x7fff_ffff_ffff_ffff {
        Err(DomainError::invalid(field, "does not fit in i64"))
    } else {
        Ok(value as i64)
    }
}

fn optional_stored_offset(value: Option<u64>, field: &'static str) -> (r: Result<
    Option<i64>,
    DomainError,
>)
    ensures
        answers(r, optional_offset_fault(value, field@)),
        r matches Ok(v) ==> v == stored(value),
{
    match value {
        Some(value) => Ok(Some(stored_offset(value, field)?)),
        None => Ok(None),
    }
}

pub open spec fn domain_cwd(p: CwdProvenance) -> domain::CwdProvenance {
    match p {
        CwdProvenance::SessionMeta => domain::CwdProvenance::SessionMeta,
        CwdProvenance::TurnContext => domain::CwdProvenance::TurnContext,
    }
}

pub open spec fn domain_parent(p: ParentHintProvenance) -> domain::ParentHintProvenance {
    match p {
        ParentHintProvenance::SessionMetaParent => domain::ParentHintProvenance::SessionMetaParent,
        ParentHintProvenance::SubagentSource => domain::ParentHintProvenance::SubagentSource,
        ParentHintProvenance::ForkedFromId => domain::ParentHintProvenance::ForkedFromId,
    }
}

pub open spec fn domain_role(p: AgentRoleProvenance) -> domain::AgentRoleProvenance {
    match p {
        AgentRoleProvenance::SubagentSource => domain::AgentRoleProvenance::SubagentSource,
        AgentRoleProvenance::SessionMetaRole => domain::AgentRoleProvenance::SessionMetaRole,
    }
}

pub open spec fn domain_path(p: AgentPathProvenance) -> domain::AgentPathProvenance {
    match p {
        AgentPathProvenance::SessionMeta => domain::AgentPathProvenance::SessionMeta,
        AgentPathProvenance::ThreadSpawn => domain::AgentPathProvenance::ThreadSpawn,
    }
}

/// The continuation as stored. `None` where it names another thread.
pub open spec fn stored_continuation(
    thread_id: Seq<char>,
    continuation: FinalContinuation,
) -> Option<domain::ContinuationState> {
    match continuation {
        FinalContinuation::ReplayedAncestor { owning_thread_id } => if owning_thread_id@
            == thread_id {
            Some(domain::ContinuationState::ReplayedAncestor)
        } else {
            None
        },
        FinalContinuation::OwningLive { owning_thread_id } => if owning_thread_id@ == thread_id {
            Some(domain::ContinuationState::OwningLive)
        } else {
            None
        },
        FinalContinuation::Unstable => Some(domain::ContinuationState::Unstable),
    }
}

impl RolloutThreadFact {
    pub fn empty(source_file_id: i64, owning_thread_id: String) -> (r: Self)
        ensures
            r.deep_view() == blank_thread(source_file_id, owning_thread_id@),
    {
        RolloutThreadFact {
            source_file_id,
            owning_thread_id,
            cwd: None,
            created_at_ms: None,
            latest_context_model: None,
            latest_context_turn_id: None,
            latest_context_at_ms: None,
            latest_context_record_offset: None,
            parent_thread_id_hint: None,
            agent_role_hint: None,
            agent_path: None,
            ownership_boundary: OwnershipBoundary {
                replay_start_offset: None,
                owning_records_start_offset: None,
                confidence: OwnershipConfidence::Confirmed,
            },
            has_conflict: false,
            relationship_conflict: false,
        }
    }

    /// The fact in its durable shape.
    pub open spec fn safe_fact(
        self,
        file_generation: i64,
        metadata_parser_version: i64,
        resolved_through_offset: u64,
        updated_at_ms: i64,
        state: domain::ContinuationState,
    ) -> RolloutMetadataFact {
        RolloutMetadataFact {
            source_file_id: self.source_file_id,
            file_generation,
            metadata_parser_version,
            resolved_through_offset: resolved_through_offset as i64,
            owning_thread_id: self.owning_thread_id,
            continuation_state: state,
            cwd: hint_value(self.cwd),
            cwd_provenance: match self.cwd {
                Some(c) => Some(domain_cwd(c.provenance)),
                None => None,
            },
            cwd_record_offset: stored(hint_offset(self.cwd)),
            created_at_ms: self.created_at_ms,
            latest_context_model: self.latest_context_model,
            latest_context_turn_id: self.latest_context_turn_id,
            latest_context_at_ms: self.latest_context_at_ms,
            parent_thread_id_hint: hint_value(self.parent_thread_id_hint),
            parent_hint_provenance: match self.parent_thread_id_hint {
                Some(c) => Some(domain_parent(c.provenance)),
                None => None,
            },
            parent_hint_record_offset: stored(hint_offset(self.parent_thread_id_hint)),
            agent_role_hint: hint_value(self.agent_role_hint),
            agent_role_provenance: match self.agent_role_hint {
                Some(c) => Some(domain_role(c.provenance)),
                None => None,
            },
            agent_role_record_offset: stored(hint_offset(self.agent_role_hint)),
            agent_path: hint_value(self.agent_path),
            agent_path_provenance: match self.agent_path {
                Some(c) => Some(domain_path(c.provenance)),
                None => None,
            },
            agent_path_record_offset: stored(hint_offset(self.agent_path)),
            replay_start_offset: stored(self.ownership_boundary.replay_start_offset),
            owning_records_start_offset: stored(self.ownership_boundary.owning_records_start_offset),
            ownership_confidence: if state is Unstable {
                domain::OwnershipConfidence::Unresolved
            } else {
                domain::OwnershipConfidence::Confirmed
            },
            fact_quality_status: if self.has_conflict || self.relationship_conflict {
                domain::FactQualityStatus::Conflict
            } else if state is Unstable {
                domain::FactQualityStatus::Partial
            } else {
                domain::FactQualityStatus::Complete
            },
            relationship_conflict: self.relationship_conflict,
            updated_at_ms,
        }
    }

    /// An offset of the fact that cannot be stored.
    pub open spec fn offsets_fault(self, resolved_through_offset: u64) -> Option<Fault> {
        first(
            offset_fault(resolved_through_offset, "resolved_through_offset"@),
            first(
                optional_offset_fault(hint_offset(self.cwd), "cwd_record_offset"@),
                first(
                    optional_offset_fault(
                        hint_offset(self.parent_thread_id_hint),
                        "parent_hint_record_offset"@,
                    ),
                    first(
                        optional_offset_fault(
                            hint_offset(self.agent_role_hint),
                            "agent_role_record_offset"@,
                        ),
                        first(
                            optional_offset_fault(
                                hint_offset(self.agent_path),
                                "agent_path_record_offset"@,
                            ),
                            first(
                                optional_offset_fault(
                                    self.ownership_boundary.replay_start_offset,
                                    "replay_start_offset"@,
                                ),
                                optional_offset_fault(
                                    self.ownership_boundary.owning_records_start_offset,
                                    "owning_records_start_offset"@,
                                ),
                            ),
                        ),
                    ),
                ),
            ),
        )
    }

    /// Why the fact has no durable shape, if it has none.
    pub open spec fn safe_fact_fault(
        self,
        file_generation: i64,
        metadata_parser_version: i64,
        resolved_through_offset: u64,
        updated_at_ms: i64,
        continuation: FinalContinuation,
    ) -> Option<Fault> {
        match stored_continuation(self.owning_thread_id@, continuation) {
            None => Some(
                violation_fault("continuation owning thread must match rollout fact"@),
            ),
            Some(state) => first(
                self.offsets_fault(resolved_through_offset),
                self.safe_fact(
                    file_generation,
                    metadata_parser_version,
                    resolved_through_offset,
                    updated_at_ms,
                    state,
                ).fault(),
            ),
        }
    }

    /// Converts the fact to its durable shape. Generation, parser version, offset and clock
    /// are given by the caller, never guessed.
    #[verifier::rlimit(40)]
    pub fn to_safe_fact(
        &self,
        file_generation: i64,
        metadata_parser_version: i64,
        resolved_through_offset: u64,
        updated_at_ms: i64,
        continuation: &FinalContinuation,
    ) -> (r: Result<RolloutMetadataFact, DomainError>)
        ensures
            answers(
                r,
                self.safe_fact_fault(
                    file_generation,
                    metadata_parser_version,
                    resolved_through_offset,
                    updated_at_ms,
                    *continuation,
                ),
            ),
            r matches Ok(fact) ==> stored_continuation(self.owning_thread_id@, *continuation)
                is Some && fact == self.safe_fact(
                file_generation,
                metadata_parser_version,
                resolved_through_offset,
                updated_at_ms,
                stored_continuation(self.owning_thread_id@, *continuation)->0,
            ),
    {
        let state: domain::ContinuationState = match continuation {
            FinalContinuation::ReplayedAncestor { owning_thread_id } => {
                if *owning_thread_id != self.owning_thread_id {
                    return Err(
                        DomainError::violation("continuation owning thread must match rollout fact"),
                    );
                }
                domain::ContinuationState::ReplayedAncestor
            },
            FinalContinuation::OwningLive { owning_thread_id } => {
                if *owning_thread_id != self.owning_thread_id {
                    return Err(
                        DomainError::violation("continuation owning thread must match rollout fact"),
                    );
                }
                domain::ContinuationState::OwningLive
            },
            FinalContinuation::Unstable => domain::ContinuationState::Unstable,
        };
        let unstable: bool = match state {
            domain::ContinuationState::Unstable => true,
            _ => false,
        };
        let resolved: i64 = stored_offset(resolved_through_offset, "resolved_through_offset")?;
        let cwd_offset: Option<i64> = optional_stored_offset(
            candidate_offset(&self.cwd),
            "cwd_record_offset",
        )?;
        let parent_offset: Option<i64> = optional_stored_offset(
            candidate_offset(&self.parent_thread_id_hint),
            "parent_hint_record_offset",
        )?;
        let role_offset: Option<i64> = optional_stored_offset(
            candidate_offset(&self.agent_role_hint),
            "agent_role_record_offset",
        )?;
        let path_offset: Option<i64> = optional_stored_offset(
            candidate_offset(&self.agent_path),
            "agent_path_record_offset",
        )?;
        let replay_offset: Option<i64> = optional_stored_offset(
            self.ownership_boundary.replay_start_offset,
            "replay_start_offset",
        )?;
        let owning_offset: Option<i64> = optional_stored_offset(
            self.ownership_boundary.owning_records_start_offset,
            "owning_records_start_offset",
        )?;
        let fact: RolloutMetadataFact = RolloutMetadataFact {
            source_file_id: self.source_file_id,
            file_generation,
            metadata_parser_version,
            resolved_through_offset: resolved,
            owning_thread_id: self.owning_thread_id.clone(),
            continuation_state: state,
            cwd: candidate_value(&self.cwd),
            cwd_provenance: match &self.cwd {
                Some(c) => Some(
                    match c.provenance {
                        CwdProvenance::SessionMeta => domain::CwdProvenance::SessionMeta,
                        CwdProvenance::TurnContext => domain::CwdProvenance::TurnContext,
                    },
                ),
                None => None,
            },
            cwd_record_offset: cwd_offset,
            created_at_ms: self.created_at_ms,
            latest_context_model: self.latest_context_model.clone(),
            latest_context_turn_id: self.latest_context_turn_id.clone(),
            latest_context_at_ms: self.latest_context_at_ms,
            parent_thread_id_hint: candidate_value(&self.parent_thread_id_hint),
            parent_hint_provenance: match &self.parent_thread_id_hint {
                Some(c) => Some(
                    match c.provenance {
                        ParentHintProvenance::SessionMetaParent =>
                        domain::ParentHintProvenance::SessionMetaParent,
                        ParentHintProvenance::SubagentSource =>
                        domain::ParentHintProvenance::SubagentSource,
                        ParentHintProvenance::ForkedFromId =>
                        domain::ParentHintProvenance::ForkedFromId,
                    },
                ),
                None => None,
            },
            parent_hint_record_offset: parent_offset,
            agent_role_hint: candidate_value(&self.agent_role_hint),
            agent_role_provenance: match &self.agent_role_hint {
                Some(c) => Some(
                    match c.provenance {
                        AgentRoleProvenance::SubagentSource =>
                        domain::AgentRoleProvenance::SubagentSource,
                        AgentRoleProvenance::SessionMetaRole =>
                        domain::AgentRoleProvenance::SessionMetaRole,
                    },
                ),
                None => None,
            },
            agent_role_record_offset: role_offset,
            agent_path: candidate_value(&self.agent_path),
            agent_path_provenance: match &self.agent_path {
                Some(c) => Some(
                    match c.provenance {
                        AgentPathProvenance::SessionMeta => domain::AgentPathProvenance::SessionMeta,
                        AgentPathProvenance::ThreadSpawn => domain::AgentPathProvenance::ThreadSpawn,
                    },
                ),
                None => None,
            },
            agent_path_record_offset: path_offset,
            replay_start_offset: replay_offset,
            owning_records_start_offset: owning_offset,
            ownership_confidence: if unstable {
                domain::OwnershipConfidence::Unresolved
            } else {
                domain::OwnershipConfidence::Confirmed
            },
            fact_quality_status: if self.has_conflict || self.relationship_conflict {
                domain::FactQualityStatus::Conflict
            } else if unstable {
                domain::FactQualityStatus::Partial
            } else {
                domain::FactQualityStatus::Complete
            },
            relationship_conflict: self.relationship_conflict,
            updated_at_ms,
        };
        fact.validate()?;
        Ok(fact)
    }

    /// The fact that a durable fact stands for. The exact offset of the model record is not
    /// stored; the last byte before the resolved seam keeps its order.
    pub open spec fn restored(fact: RolloutMetadataFact) -> RolloutThreadFact {
        RolloutThreadFact {
            source_file_id: fact.source_file_id,
            owning_thread_id: fact.owning_thread_id,
            cwd: if fact.cwd is Some && fact.cwd_provenance is Some && fact.cwd_record_offset
                is Some {
                Some(
                    Candidate {
                        value: fact.cwd->0,
                        provenance: match fact.cwd_provenance->0 {
                            domain::CwdProvenance::SessionMeta => CwdProvenance::SessionMeta,
                            domain::CwdProvenance::TurnContext => CwdProvenance::TurnContext,
                        },
                        record_offset: fact.cwd_record_offset->0 as u64,
                    },
                )
            } else {
                None
            },
            created_at_ms: fact.created_at_ms,
            latest_context_model: fact.latest_context_model,
            latest_context_turn_id: fact.latest_context_turn_id,
            latest_context_at_ms: fact.latest_context_at_ms,
            latest_context_record_offset: if fact.latest_context_model is Some {
                Some(
                    if fact.resolved_through_offset > 0 {
                        (fact.resolved_through_offset - 1) as u64
                    } else {
                        0u64
                    },
                )
            } else {
                None
            },
            parent_thread_id_hint: if fact.parent_thread_id_hint is Some
                && fact.parent_hint_provenance is Some && fact.parent_hint_record_offset is Some {
                Some(
                    Candidate {
                        value: fact.parent_thread_id_hint->0,
                        provenance: match fact.parent_hint_provenance->0 {
                            domain::ParentHintProvenance::SessionMetaParent =>
                            ParentHintProvenance::SessionMetaParent,
                            domain::ParentHintProvenance::SubagentSource =>
                            ParentHintProvenance::SubagentSource,
                            domain::ParentHintProvenance::ForkedFromId =>
                            ParentHintProvenance::ForkedFromId,
                        },
                        record_offset: fact.parent_hint_record_offset->0 as u64,
                    },
                )
            } else {
                None
            },
            agent_role_hint: if fact.agent_role_hint is Some && fact.agent_role_provenance is Some
                && fact.agent_role_record_offset is Some {
                Some(
                    Candidate {
                        value: fact.agent_role_hint->0,
                        provenance: match fact.agent_role_provenance->0 {
                            domain::AgentRoleProvenance::SubagentSource =>
                            AgentRoleProvenance::SubagentSource,
                            domain::AgentRoleProvenance::SessionMetaRole =>
                            AgentRoleProvenance::SessionMetaRole,
                        },
                        record_offset: fact.agent_role_record_offset->0 as u64,
                    },
                )
            } else {
                None
            },
            agent_path: if fact.agent_path is Some && fact.agent_path_provenance is Some
                && fact.agent_path_record_offset is Some {
                Some(
                    Candidate {
                        value: fact.agent_path->0,
                        provenance: match fact.agent_path_provenance->0 {
                            domain::AgentPathProvenance::SessionMeta =>
                            AgentPathProvenance::SessionMeta,
                            domain::AgentPathProvenance::ThreadSpawn =>
                            AgentPathProvenance::ThreadSpawn,
                        },
                        record_offset: fact.agent_path_record_offset->0 as u64,
                    },
                )
            } else {
                None
            },
            ownership_boundary: OwnershipBoundary {
                replay_start_offset: loaded(fact.replay_start_offset),
                owning_records_start_offset: loaded(fact.owning_records_start_offset),
                confidence: match fact.ownership_confidence {
                    domain::OwnershipConfidence::Confirmed => OwnershipConfidence::Confirmed,
                    domain::OwnershipConfidence::Unresolved => OwnershipConfidence::Unresolved,
                },
            },
            has_conflict: fact.fact_quality_status is Conflict,
            relationship_conflict: fact.relationship_conflict,
        }
    }

    /// Restores the fact from a durable fact that matches its source.
    #[verifier::rlimit(40)]
    pub fn from_safe_fact(fact: &RolloutMetadataFact) -> (r: Result<Self, DomainError>)
        ensures
            answers(r, fact.fault()),
            r matches Ok(restored) ==> restored == RolloutThreadFact::restored(*fact),
    {
        fact.validate()?;
        let cwd: Option<Candidate<CwdProvenance>> = match (
            &fact.cwd,
            fact.cwd_provenance,
            fact.cwd_record_offset,
        ) {
            (Some(value), Some(provenance), Some(offset)) => Some(
                Candidate {
                    value: value.clone(),
                    provenance: match provenance {
                        domain::CwdProvenance::SessionMeta => CwdProvenance::SessionMeta,
                        domain::CwdProvenance::TurnContext => CwdProvenance::TurnContext,
                    },
                    record_offset: offset as u64,
                },
            ),
            _ => None,
        };
        let parent_thread_id_hint: Option<Candidate<ParentHintProvenance>> = match (
            &fact.parent_thread_id_hint,
            fact.parent_hint_provenance,
            fact.parent_hint_record_offset,
        ) {
            (Some(value), Some(provenance), Some(offset)) => Some(
                Candidate {
                    value: value.clone(),
                    provenance: match provenance {
                        domain::ParentHintProvenance::SessionMetaParent =>
                        ParentHintProvenance::SessionMetaParent,
                        domain::ParentHintProvenance::SubagentSource =>
                        ParentHintProvenance::SubagentSource,
                        domain::ParentHintProvenance::ForkedFromId =>
                        ParentHintProvenance::ForkedFromId,
                    },
                    record_offset: offset as u64,
                },
            ),
            _ => None,
        };
        let agent_role_hint: Option<Candidate<AgentRoleProvenance>> = match (
            &fact.agent_role_hint,
            fact.agent_role_provenance,
            fact.agent_role_record_offset,
        ) {
            (Some(value), Some(provenance), Some(offset)) => Some(
                Candidate {
                    value: value.clone(),
                    provenance: match provenance {
                        domain::AgentRoleProvenance::SubagentSource =>
                        AgentRoleProvenance::SubagentSource,
                        domain::AgentRoleProvenance::SessionMetaRole =>
                        AgentRoleProvenance::SessionMetaRole,
                    },
                    record_offset: offset as u64,
                },
            ),
            _ => None,
        };
        let agent_path: Option<Candidate<AgentPathProvenance>> = match (
            &fact.agent_path,
            fact.agent_path_provenance,
            fact.agent_path_record_offset,
        ) {
            (Some(value), Some(provenance), Some(offset)) => Some(
                Candidate {
                    value: value.clone(),
                    provenance: match provenance {
                        domain::AgentPathProvenance::SessionMeta => AgentPathProvenance::SessionMeta,
                        domain::AgentPathProvenance::ThreadSpawn => AgentPathProvenance::ThreadSpawn,
                    },
                    record_offset: offset as u64,
                },
            ),
            _ => None,
        };
        let latest_context_record_offset: Option<u64> = if fact.latest_context_model.is_some() {
            if fact.resolved_through_offset > 0 {
                Some((fact.resolved_through_offset - 1) as u64)
            } else {
                Some(0)
            }
        } else {
            None
        };
        let conflict: bool = match fact.fact_quality_status {
            domain::FactQualityStatus::Conflict => true,
            _ => false,
        };
        Ok(
            RolloutThreadFact {
                source_file_id: fact.source_file_id,
                owning_thread_id: fact.owning_thread_id.clone(),
                cwd,
                created_at_ms: fact.created_at_ms,
                latest_context_model: fact.latest_context_model.clone(),
                latest_context_turn_id: fact.latest_context_turn_id.clone(),
                latest_context_at_ms: fact.latest_context_at_ms,
                latest_context_record_offset,
                parent_thread_id_hint,
                agent_role_hint,
                agent_path,
                ownership_boundary: OwnershipBoundary {
                    replay_start_offset: loaded_offset(fact.replay_start_offset),
                    owning_records_start_offset: loaded_offset(fact.owning_records_start_offset),
                    confidence: match fact.ownership_confidence {
                        domain::OwnershipConfidence::Confirmed => OwnershipConfidence::Confirmed,
                        domain::OwnershipConfidence::Unresolved => OwnershipConfidence::Unresolved,
                    },
                },
                has_conflict: conflict,
                relationship_conflict: fact.relationship_conflict,
            },
        )
    }
}

/// A stored offset as read back.
pub open spec fn loaded(offset: Option<i64>) -> Option<u64> {
    match offset {
        Some(offset) => Some(offset as u64),
        None => None,
    }
}

fn loaded_offset(offset: Option<i64>) -> (r: Option<u64>)
    requires
        offset is Some ==> offset->0 >= 0,
    ensures
        r == loaded(offset),
{
    match offset {
        Some(offset) => Some(offset as u64),
        None => None,
    }
}

fn candidate_offset<P>(c: &Option<Candidate<P>>) -> (r: Option<u64>)
    ensures
        r == hint_offset(*c),
{
    match c {
        Some(c) => Some(c.record_offset),
        None => None,
    }
}

fn candidate_value<P>(c: &Option<Candidate<P>>) -> (r: Option<String>)
    ensures
        r == hint_value(*c),
{
    match c {
        Some(c) => Some(c.value.clone()),
        None => None,
    }
}

/// Storing a fact and restoring it gives the fact back: the hints with their provenance and
/// offsets, the boundary offsets and the latest model. What is not stored is settled anew:
/// the offset of the model record is put just before the seam, the confidence follows from
/// the continuation, and any conflict counts as one.
pub proof fn law_restored_fact_is_the_stored_fact(
    fact: RolloutThreadFact,
    file_generation: i64,
    metadata_parser_version: i64,
    resolved_through_offset: u64,
    updated_at_ms: i64,
    continuation: FinalContinuation,
)
    requires
        fact.safe_fact_fault(
            file_generation,
            metadata_parser_version,
            resolved_through_offset,
            updated_at_ms,
            continuation,
        ) is None,
    ensures
        ({
            let state = stored_continuation(fact.owning_thread_id@, continuation)->0;
            let safe = fact.safe_fact(
                file_generation,
                metadata_parser_version,
                resolved_through_offset,
                updated_at_ms,
                state,
            );
            let back = RolloutThreadFact::restored(safe);
            &&& safe.fault() is None
            &&& back == RolloutThreadFact {
                latest_context_record_offset: back.latest_context_record_offset,
                has_conflict: fact.has_conflict || fact.relationship_conflict,
                ownership_boundary: OwnershipBoundary {
                    confidence: if state is Unstable {
                        OwnershipConfidence::Unresolved
                    } else {
                        OwnershipConfidence::Confirmed
                    },
                    ..fact.ownership_boundary
                },
                ..fact
            }
            &&& back.latest_context_record_offset is Some <==> fact.latest_context_model is Some
            &&& back.latest_context_record_offset is Some && resolved_through_offset > 0
                ==> back.latest_context_record_offset->0 == resolved_through_offset - 1
        }),
{
}

} // verus!
