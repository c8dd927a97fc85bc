//! The names by which states and failures are told outside.
use vstd::prelude::*;

use crate::analytics::DistributionCostStatus;
use crate::diagnostics::{
    DiagnosticSeverity, SourceAvailability,
};
use crate::domain::{
    AgentPathProvenance, AgentRoleProvenance, BuildDisposition, CheckpointProcessingStatus,
    ConsumerKind, ContinuationState, CwdProvenance, FactQualityStatus, FileStatus,
    OwnershipConfidence, ParentHintProvenance, SourceArea,
};
use crate::global_state::GlobalStateStatus;
use crate::ingestion::chunks::{
    error_code, ChunkReadError,
};
use crate::ingestion::scan_run::ScanStage;
use crate::ingestion::usage_processor::ProcessorError;
use crate::ingestion::usage_round::RoundStage;
use crate::quota::{
    CodexQuotaStatus, QuotaFetchError,
};

verus! {

/// By which name is told how far costs are known.
pub proof fn law_distribution_cost_status_is_told_by_name(value: DistributionCostStatus)
    ensures
        value is Complete ==> value.name() == "complete"@,
        value is Partial ==> value.name() == "partial"@,
        value is Unknown ==> value.name() == "unknown"@,
{
}

/// By which name is told the severity of a remark.
pub proof fn law_diagnostic_severity_is_told_by_name(value: DiagnosticSeverity)
    ensures
        value is Info ==> value.name() == "info"@,
        value is Warning ==> value.name() == "warning"@,
        value is Conflict ==> value.name() == "conflict"@,
        value is Error ==> value.name() == "error"@,
{
}

/// By which name is told whether a source could be read.
pub proof fn law_source_availability_is_told_by_name(value: SourceAvailability)
    ensures
        value is Complete ==> value.name() == "complete"@,
        value is Partial ==> value.name() == "partial"@,
        value is Unavailable ==> value.name() == "unavailable"@,
{
}

/// By which name is told where a rollout lies.
pub proof fn law_source_area_is_told_by_name(value: SourceArea)
    ensures
        value is Sessions ==> value.name() == "sessions"@,
        value is ArchivedSessions ==> value.name() == "archived_sessions"@,
{
}

/// By which name is told whether a file is there.
pub proof fn law_file_status_is_told_by_name(value: FileStatus)
    ensures
        value is Present ==> value.name() == "present"@,
        value is Missing ==> value.name() == "missing"@,
        value is Replaced ==> value.name() == "replaced"@,
{
}

/// By which name is told who reads a file.
pub proof fn law_consumer_kind_is_told_by_name(value: ConsumerKind)
    ensures
        value is Metadata ==> value.name() == "metadata"@,
        value is Usage ==> value.name() == "usage"@,
{
}

/// By which name is told how a checkpoint stands.
pub proof fn law_checkpoint_processing_status_is_told_by_name(value: CheckpointProcessingStatus)
    ensures
        value is Pending ==> value.name() == "pending"@,
        value is Ready ==> value.name() == "ready"@,
        value is RebuildRequired ==> value.name() == "rebuild_required"@,
        value is Error ==> value.name() == "error"@,
{
}

/// By which name is told what becomes of a build.
pub proof fn law_build_disposition_is_told_by_name(value: BuildDisposition)
    ensures
        value is Unchanged ==> value.name() == "unchanged"@,
        value is MemberAdded ==> value.name() == "member_added"@,
        value is CompletionInvalidated ==> value.name() == "completion_invalidated"@,
        value is CarryResumedPresent ==> value.name() == "carry_resumed_present"@,
        value is Replaced ==> value.name() == "replaced"@,
{
}

/// By which name is told how a rollout goes on.
pub proof fn law_continuation_state_is_told_by_name(value: ContinuationState)
    ensures
        value is ReplayedAncestor ==> value.name() == "replayed_ancestor"@,
        value is OwningLive ==> value.name() == "owning_live"@,
        value is Unstable ==> value.name() == "unstable"@,
{
}

/// By which name is told how sure an owner is.
pub proof fn law_ownership_confidence_is_told_by_name(value: OwnershipConfidence)
    ensures
        value is Confirmed ==> value.name() == "confirmed"@,
        value is Unresolved ==> value.name() == "unresolved"@,
{
}

/// By which name is told how good a fact is.
pub proof fn law_fact_quality_status_is_told_by_name(value: FactQualityStatus)
    ensures
        value is Complete ==> value.name() == "complete"@,
        value is Partial ==> value.name() == "partial"@,
        value is Conflict ==> value.name() == "conflict"@,
{
}

/// By which name is told where a directory comes from.
pub proof fn law_cwd_provenance_is_told_by_name(value: CwdProvenance)
    ensures
        value is SessionMeta ==> value.name() == "session_meta"@,
        value is TurnContext ==> value.name() == "turn_context"@,
{
}

/// By which name is told where a parent comes from.
pub proof fn law_parent_hint_provenance_is_told_by_name(value: ParentHintProvenance)
    ensures
        value is SessionMetaParent ==> value.name() == "session_meta_parent"@,
        value is SubagentSource ==> value.name() == "subagent_source"@,
        value is ForkedFromId ==> value.name() == "forked_from_id"@,
{
}

/// By which name is told where a role comes from.
pub proof fn law_agent_role_provenance_is_told_by_name(value: AgentRoleProvenance)
    ensures
        value is SessionMetaRole ==> value.name() == "session_meta_role"@,
        value is SubagentSource ==> value.name() == "subagent_source"@,
{
}

/// By which name is told where a path comes from.
pub proof fn law_agent_path_provenance_is_told_by_name(value: AgentPathProvenance)
    ensures
        value is SessionMeta ==> value.name() == "session_meta"@,
        value is ThreadSpawn ==> value.name() == "thread_spawn"@,
{
}

/// By which name is told whether the global state could be read.
pub proof fn law_global_state_status_is_told_by_name(value: GlobalStateStatus)
    ensures
        value is Complete ==> value.name() == "complete"@,
        value is NotPresent ==> value.name() == "not_present"@,
        value is Malformed ==> value.name() == "malformed"@,
        value is Unreadable ==> value.name() == "unreadable"@,
{
}

/// By which name is told why a file could not be read.
pub proof fn law_chunk_read_error_is_told_by_name(value: ChunkReadError)
    ensures
        value is SourceSymlinkRejected ==> error_code(value) == "SOURCE_SYMLINK_REJECTED"@,
        value is SourceNotRegularFile ==> error_code(value) == "SOURCE_NOT_REGULAR_FILE"@,
        value is SourceChangedBeforeRead ==> error_code(value) == "SOURCE_CHANGED_BEFORE_READ"@,
        value is SourceChangedDuringRead ==> error_code(value) == "SOURCE_CHANGED_DURING_READ"@,
        value is CheckpointOutOfRange ==> error_code(value) == "CHECKPOINT_OUT_OF_RANGE"@,
        value is InvalidGuardPlan ==> error_code(value) == "CHECKPOINT_GUARD_INVALID"@,
        value is CheckpointGuardMismatch ==> error_code(value) == "CHECKPOINT_GUARD_MISMATCH"@,
        value is Io ==> error_code(value) == "SOURCE_READ_FAILED"@,
{
}

/// By which name is told what a failed stage of a scan is reported as.
pub proof fn law_scan_stage_is_told_by_name(value: ScanStage)
    ensures
        value is Preparation ==> crate::ingestion::scan_run::failure(value) == "METADATA_PIPELINE_INVALID"@,
        value is Observation ==> crate::ingestion::scan_run::failure(value) == "SOURCE_OBSERVATION_FAILED"@,
        value is Requesting ==> crate::ingestion::scan_run::failure(value) == "STORAGE_COMMIT_FAILED"@,
        value is Loading ==> crate::ingestion::scan_run::failure(value) == "METADATA_STATE_LOAD_FAILED"@,
        value is Resolution ==> crate::ingestion::scan_run::failure(value) == "METADATA_RESOLUTION_FAILED"@,
{
}

/// By which name is told why totals could not be taken.
pub proof fn law_processor_error_is_told_by_name(value: ProcessorError)
    ensures
        value is InvalidNormalizedTokenUsage ==> value.name() == "InvalidNormalizedTokenUsage"@,
        value is ArithmeticOverflow ==> value.name() == "ArithmeticOverflow"@,
        value is NegativeDifference ==> value.name() == "NegativeDifference"@,
        value is CacheWriteNegativeDifference ==> value.name() == "CacheWriteNegativeDifference"@,
{
}

/// By which name is told what a failed stage of a round is reported as.
pub proof fn law_round_stage_is_told_by_name(value: RoundStage)
    ensures
        value is Quarantine ==> crate::ingestion::usage_round::failure(value) == "USAGE_QUARANTINE_STATE_FAILED"@,
        value is FirstLoad ==> crate::ingestion::usage_round::failure(value) == "USAGE_WORKLIST_LOAD_FAILED"@,
        value is Reload ==> crate::ingestion::usage_round::failure(value) == "USAGE_WORKLIST_RELOAD_FAILED"@,
        value is Retry ==> crate::ingestion::usage_round::failure(value) == "USAGE_QUARANTINE_RETRY_BEGIN_FAILED"@,
        value is Begin ==> crate::ingestion::usage_round::failure(value) == "USAGE_REBUILD_BEGIN_FAILED"@,
        value is Replace ==> crate::ingestion::usage_round::failure(value) == "USAGE_REBUILD_REPLACE_FAILED"@,
        value is Quarantining ==> crate::ingestion::usage_round::failure(value) == "USAGE_SESSION_QUARANTINE_FAILED"@,
        value is Resuming ==> crate::ingestion::usage_round::failure(value) == "USAGE_REBUILD_RESUME_FAILED"@,
        value is Activating ==> crate::ingestion::usage_round::failure(value) == "USAGE_REBUILD_ACTIVATE_FAILED"@,
{
}

/// By which name is told how the quota stands.
pub proof fn law_codex_quota_status_is_told_by_name(value: CodexQuotaStatus)
    ensures
        value is Loading ==> value.name() == "loading"@,
        value is Ready ==> value.name() == "ready"@,
        value is AuthRequired ==> value.name() == "auth_required"@,
        value is Unavailable ==> value.name() == "unavailable"@,
{
}

/// By which name is told why there is no quota.
pub proof fn law_quota_fetch_error_is_told_by_name(value: QuotaFetchError)
    ensures
        value is AuthRequired ==> value.text() == "Codex authentication is required"@,
        value is Unavailable ==> value.text() == "Codex quota is unavailable"@,
{
}

} // verus!
