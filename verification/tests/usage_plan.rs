use codex_usage::ingestion::usage_pipeline::PlanAction;
use codex_usage::ingestion::usage_plan::shadow_session_data_error;

#[test]
fn repeated_shadow_rebuild_data_failure_is_session_scoped_only() {
    assert_eq!(
        shadow_session_data_error(PlanAction::BuildFrom, true),
        Some("USAGE_SESSION_DATA_INVALID")
    );
    assert_eq!(shadow_session_data_error(PlanAction::BuildFrom, false), None);
    for action in [
        PlanAction::ReadFrom,
        PlanAction::LocalReplay,
        PlanAction::AwaitOwningMeta,
        PlanAction::ResumeOwningLive,
        PlanAction::VerifyRawTail,
        PlanAction::CompleteOnly,
        PlanAction::BeginCarry,
        PlanAction::ResumeCarry,
        PlanAction::Skip,
        PlanAction::BlockedRelationship,
        PlanAction::RebuildRequired,
    ] {
        assert_eq!(shadow_session_data_error(action, true), None, "{action:?}");
    }
}
