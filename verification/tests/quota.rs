use codex_usage::quota::{
    classify_refresh_body, classify_refresh_status, map_auth_read, map_refresh_failure,
    refreshed_token, usage_status, AuthReadError, CodexQuotaStatus, Credentials, FetchAction,
    FetchEvent, QuotaFetch, QuotaFetchError, QuotaState, RefreshFailure, RefreshTimer,
    UsageFailure, CLIENT_ID, REFRESH_INTERVAL_MS, REFRESH_INTERVAL_SECONDS, REFRESH_TIMEOUT_SECONDS,
    REFRESH_URL, USAGE_TIMEOUT_SECONDS, USAGE_URL,
};

#[test]
fn t_q_003_refresh_error_categories_are_auth_required_without_body_leakage() {
    assert_eq!(
        classify_refresh_body(400, "refresh_token_expired refresh-old"),
        RefreshFailure::RefreshTokenExpired
    );
    assert_eq!(
        classify_refresh_body(400, "refresh_token_reused refresh-old"),
        RefreshFailure::RefreshTokenReused
    );
    assert_eq!(
        classify_refresh_body(400, "refresh_token_invalidated refresh-old"),
        RefreshFailure::RefreshTokenInvalidated
    );
    assert_eq!(
        map_refresh_failure(RefreshFailure::RefreshTokenExpired),
        QuotaFetchError::AuthRequired
    );
    assert_eq!(
        map_refresh_failure(RefreshFailure::RefreshTokenReused),
        QuotaFetchError::AuthRequired
    );
    assert_eq!(
        map_refresh_failure(RefreshFailure::RefreshTokenInvalidated),
        QuotaFetchError::AuthRequired
    );
    assert!(!QuotaFetchError::AuthRequired
        .message()
        .contains("refresh-old"));
}

#[test]
fn coordinates_and_timeouts_are_fixed() {
    assert_eq!(USAGE_URL, "https://chatgpt.com/backend-api/wham/usage");
    assert_eq!(REFRESH_URL, "https://auth.openai.com/oauth/token");
    assert_eq!(CLIENT_ID, "app_EMoamEEZ73f0CkXaXp7hrann");
    assert_eq!(USAGE_TIMEOUT_SECONDS, 10);
    assert_eq!(REFRESH_TIMEOUT_SECONDS, 15);
    assert_eq!(REFRESH_INTERVAL_SECONDS, 300);
    assert_eq!(REFRESH_INTERVAL_MS, REFRESH_INTERVAL_SECONDS * 1_000);
}

#[test]
fn answers_are_judged_by_their_status() {
    assert_eq!(usage_status(200), Ok(()));
    assert_eq!(usage_status(299), Ok(()));
    assert_eq!(usage_status(401), Err(UsageFailure::Unauthorized));
    assert_eq!(usage_status(403), Err(UsageFailure::Unauthorized));
    assert_eq!(usage_status(404), Err(UsageFailure::Unavailable));
    assert_eq!(usage_status(500), Err(UsageFailure::Unavailable));
    assert_eq!(
        classify_refresh_status(500, "REFRESH_TOKEN_REUSED"),
        RefreshFailure::RefreshTokenReused
    );
    assert_eq!(classify_refresh_status(400, "no"), RefreshFailure::OtherAuthRequired);
    assert_eq!(classify_refresh_body(400, "REFRESH_TOKEN_REUSED"), RefreshFailure::OtherAuthRequired);
    assert_eq!(classify_refresh_body(502, ""), RefreshFailure::Unavailable);
    assert_eq!(map_refresh_failure(RefreshFailure::Unavailable), QuotaFetchError::Unavailable);
    assert_eq!(
        map_refresh_failure(RefreshFailure::OtherAuthRequired),
        QuotaFetchError::AuthRequired
    );
    assert_eq!(map_auth_read(AuthReadError::Missing), QuotaFetchError::AuthRequired);
    assert_eq!(map_auth_read(AuthReadError::Io), QuotaFetchError::Unavailable);
    assert_eq!(map_auth_read(AuthReadError::Invalid), QuotaFetchError::Unavailable);
    assert_eq!(refreshed_token(Some("t".to_owned())), Ok("t".to_owned()));
    assert_eq!(refreshed_token(Some(String::new())), Err(QuotaFetchError::Unavailable));
    assert_eq!(refreshed_token(None), Err(QuotaFetchError::Unavailable));
    assert_eq!(QuotaFetchError::Unavailable.message(), "Codex quota is unavailable");
    assert_eq!(CodexQuotaStatus::AuthRequired.as_str(), "auth_required");
    assert_eq!(CodexQuotaStatus::Loading.as_str(), "loading");
}

fn credentials(access: &str, needs_refresh: bool) -> Credentials {
    Credentials {
        access_token: Some(access.to_owned()),
        refresh_token: Some("refresh-old".to_owned()),
        account_id: Some("acct".to_owned()),
        email: Some("hoge@example.com".to_owned()),
        needs_refresh,
    }
}

fn requests(action: FetchAction, token: &str) -> bool {
    match action {
        FetchAction::RequestUsage { access_token, account_id } => {
            access_token == token && account_id.as_deref() == Some("acct")
        }
        _ => false,
    }
}

#[test]
fn fresh_credentials_are_used_at_once() {
    let mut fetch = QuotaFetch::start();
    assert!(requests(fetch.step(FetchEvent::AuthRead(Ok(credentials("a", false)))), "a"));
    match fetch.step(FetchEvent::Usage(Ok(()))) {
        FetchAction::Finish(Ok(email)) => assert_eq!(email.as_deref(), Some("hoge@example.com")),
        _ => panic!("expected the answer"),
    }
}

#[test]
fn stale_credentials_are_read_again_before_the_refresh_token_is_spent() {
    let mut fetch = QuotaFetch::start();
    assert!(matches!(
        fetch.step(FetchEvent::AuthRead(Ok(credentials("a", true)))),
        FetchAction::ReadAuth
    ));
    match fetch.step(FetchEvent::AuthRead(Ok(credentials("a", true)))) {
        FetchAction::Refresh(token) => assert_eq!(token, "refresh-old"),
        _ => panic!("expected a refresh"),
    }
    assert!(requests(fetch.step(FetchEvent::Refreshed(Ok(credentials("b", false)))), "b"));
}

#[test]
fn rotated_credentials_are_used_before_the_refresh_token() {
    let mut fetch = QuotaFetch::start();
    fetch.step(FetchEvent::AuthRead(Ok(credentials("a", false))));
    assert!(matches!(
        fetch.step(FetchEvent::Usage(Err(UsageFailure::Unauthorized))),
        FetchAction::ReadAuth
    ));
    assert!(requests(fetch.step(FetchEvent::AuthRead(Ok(credentials("b", false)))), "b"));
    assert!(matches!(
        fetch.step(FetchEvent::Usage(Err(UsageFailure::Unauthorized))),
        FetchAction::Finish(Err(QuotaFetchError::AuthRequired))
    ));
}

#[test]
fn unchanged_credentials_are_refreshed_after_a_refusal() {
    let mut fetch = QuotaFetch::start();
    fetch.step(FetchEvent::AuthRead(Ok(credentials("a", false))));
    fetch.step(FetchEvent::Usage(Err(UsageFailure::Unauthorized)));
    assert!(matches!(
        fetch.step(FetchEvent::AuthRead(Ok(credentials("a", false)))),
        FetchAction::Refresh(_)
    ));
    assert!(matches!(
        fetch.step(FetchEvent::Refreshed(Err(QuotaFetchError::AuthRequired))),
        FetchAction::Finish(Err(QuotaFetchError::AuthRequired))
    ));
}

#[test]
fn a_fetch_fails_where_it_cannot_go_on() {
    let mut missing = QuotaFetch::start();
    assert!(matches!(
        missing.step(FetchEvent::AuthRead(Err(AuthReadError::Missing))),
        FetchAction::Finish(Err(QuotaFetchError::AuthRequired))
    ));
    let mut unread = QuotaFetch::start();
    assert!(matches!(
        unread.step(FetchEvent::AuthRead(Err(AuthReadError::Io))),
        FetchAction::Finish(Err(QuotaFetchError::Unavailable))
    ));
    let mut without_token = QuotaFetch::start();
    let mut none = credentials("a", false);
    none.access_token = None;
    assert!(matches!(
        without_token.step(FetchEvent::AuthRead(Ok(none))),
        FetchAction::Finish(Err(QuotaFetchError::AuthRequired))
    ));
    let mut without_refresh = QuotaFetch::start();
    let mut stale = credentials("a", true);
    stale.refresh_token = None;
    without_refresh.step(FetchEvent::AuthRead(Ok(stale.clone())));
    assert!(matches!(
        without_refresh.step(FetchEvent::AuthRead(Ok(stale))),
        FetchAction::Finish(Err(QuotaFetchError::AuthRequired))
    ));
    let mut down = QuotaFetch::start();
    down.step(FetchEvent::AuthRead(Ok(credentials("a", false))));
    assert!(matches!(
        down.step(FetchEvent::Usage(Err(UsageFailure::Unavailable))),
        FetchAction::Finish(Err(QuotaFetchError::Unavailable))
    ));
}

#[test]
fn first_fetch_is_loading_then_ready_and_failure_keeps_last_good() {
    let mut quota: QuotaState<u8> = QuotaState::loading();
    assert_eq!(quota.status(), CodexQuotaStatus::Loading);
    assert_eq!(quota.last_good(), None);
    quota.record(Ok(55), 1_700_000_000_000);
    assert_eq!(quota.status(), CodexQuotaStatus::Ready);
    quota.record(Err(QuotaFetchError::Unavailable), 1_700_000_000_001);
    assert_eq!(quota.status(), CodexQuotaStatus::Ready);
    assert_eq!(quota.last_good(), Some(&(55, 1_700_000_000_000)));
}

#[test]
fn failures_without_an_answer_show() {
    let mut quota: QuotaState<u8> = QuotaState::loading();
    quota.record(Err(QuotaFetchError::AuthRequired), 1);
    assert_eq!(quota.status(), CodexQuotaStatus::AuthRequired);
    quota.record(Err(QuotaFetchError::Unavailable), 2);
    assert_eq!(quota.status(), CodexQuotaStatus::Unavailable);
    quota.record(Ok(1), 3);
    assert_eq!(quota.last_good(), Some(&(1, 3)));
}

#[test]
fn a_demand_resets_the_deadline_from_the_request() {
    let mut timer = RefreshTimer::start(None, 1_000);
    assert_eq!(timer.deadline_ms, 301_000);
    timer.demand(241_000);
    timer.follow_reset();
    assert_eq!(timer.deadline_ms, 541_000);
    timer.fire();
    assert_eq!(timer.reset_ms, None);
    timer.refresh_ended(541_200);
    timer.follow_reset();
    assert_eq!(timer.deadline_ms, 841_200);
}

#[test]
fn a_demand_during_a_refresh_is_not_lost() {
    let mut timer = RefreshTimer::start(Some(350_000), 60_000);
    assert_eq!(timer.deadline_ms, 350_000);
    timer.fire();
    timer.demand(350_100);
    timer.refresh_ended(350_200);
    timer.follow_reset();
    assert_eq!(timer.deadline_ms, 650_100);
}
