//! What a fetch of the quota does next, event by event, and what the answers mean.
use vstd::prelude::*;

use crate::quota::{
    refusal, refused, unread, AuthReadError, Credentials, FetchAction, FetchEvent, FetchStage,
    QuotaFacts, QuotaFetch, QuotaFetchError, RefreshFailure, RefreshTimer, UsageFailure,
};
use crate::text::occurs;

verus! {

/// An event takes the fetch on to `after`, and this is what to do next.
pub open spec fn fetch_moves(
    fetch: QuotaFetch,
    event: FetchEvent,
    after: QuotaFetch,
    action: FetchAction,
) -> bool {
    &&& fetch.deep_view().awaits(event.facts())
    &&& after.deep_view() == fetch.deep_view().after(event.facts()).fetch
    &&& action.facts() == fetch.deep_view().after(event.facts()).action
}

/// The fetch is over, with this failure.
pub open spec fn fetch_fails(after: QuotaFetch, action: FetchAction, error: QuotaFetchError) -> bool {
    &&& action == FetchAction::Finish(Err(error))
    &&& after.stage is Finished
}

/// Usage is asked for with the access token and the account of these credentials, whose address
/// is kept; without an access token that is impossible.
pub open spec fn asks_with(after: QuotaFetch, action: FetchAction, credentials: Credentials) -> bool {
    &&& credentials.access_token is None ==> fetch_fails(
        after,
        action,
        QuotaFetchError::AuthRequired,
    )
    &&& credentials.access_token matches Some(token) ==> {
        &&& action is RequestUsage
        &&& action->access_token@ == token@
        &&& action->account_id.deep_view() == credentials.account_id.deep_view()
        &&& after.stage is Requesting
        &&& after.access_token matches Some(kept) && kept@ == token@
        &&& after.email.deep_view() == credentials.email.deep_view()
    }
}

/// The refresh token of these credentials is spent; without one that is impossible.
pub open spec fn spends(after: QuotaFetch, action: FetchAction, credentials: Credentials) -> bool {
    &&& credentials.refresh_token is None ==> fetch_fails(
        after,
        action,
        QuotaFetchError::AuthRequired,
    )
    &&& credentials.refresh_token matches Some(token) ==> (action matches FetchAction::Refresh(
        spent,
    ) && spent@ == token@ && after.stage is Refreshing)
}

/// Credentials that were read for the first time are used, unless they are due for a refresh: then
/// they are read again. What is due on the second reading is refreshed. After a refusal,
/// credentials are used if they are fresh and others than those that were refused, and refreshed
/// else.
pub proof fn law_credentials_are_used_or_refreshed(
    fetch: QuotaFetch,
    event: FetchEvent,
    after: QuotaFetch,
    action: FetchAction,
    credentials: Credentials,
)
    requires
        fetch_moves(fetch, event, after, action),
        event == FetchEvent::AuthRead(Ok(credentials)),
    ensures
        after.retried == fetch.retried,
        fetch.stage is Reading && credentials.needs_refresh ==> action is ReadAuth && after.stage
            is Rereading,
        fetch.stage is Reading && !credentials.needs_refresh ==> asks_with(
            after,
            action,
            credentials,
        ),
        fetch.stage is Rereading && !fetch.retried && credentials.needs_refresh ==> spends(
            after,
            action,
            credentials,
        ),
        fetch.stage is Rereading && !fetch.retried && !credentials.needs_refresh ==> asks_with(
            after,
            action,
            credentials,
        ),
        fetch.stage is Rereading && fetch.retried ==> ({
            let others = credentials.access_token is Some && (fetch.access_token is None
                || credentials.access_token->0@ != fetch.access_token->0@);
            &&& others && !credentials.needs_refresh ==> asks_with(after, action, credentials)
            &&& !(others && !credentials.needs_refresh) ==> spends(after, action, credentials)
        }),
{
    let facts = credentials.deep_view();
    assert(event.facts() == crate::quota::FetchEventFacts::AuthRead(Ok(facts)));
    assert(facts.access_token is Some <==> credentials.access_token is Some);
    assert(fetch.deep_view().access_token is Some <==> fetch.access_token is Some);
    assert(fetch.stage is Reading || fetch.stage == FetchStage::Rereading);
}

/// Credentials that cannot be read end the fetch: missing ones have to be made, and others may be
/// read another time. Refreshed credentials are used at once, and a refresh that failed ends the
/// fetch with its failure.
pub proof fn law_failures_end_the_fetch(
    fetch: QuotaFetch,
    event: FetchEvent,
    after: QuotaFetch,
    action: FetchAction,
)
    requires
        fetch_moves(fetch, event, after, action),
    ensures
        event matches FetchEvent::AuthRead(Err(error)) ==> {
            &&& error is Missing ==> fetch_fails(after, action, QuotaFetchError::AuthRequired)
            &&& error is Io || error is Invalid ==> fetch_fails(
                after,
                action,
                QuotaFetchError::Unavailable,
            )
        },
        event matches FetchEvent::Refreshed(Ok(credentials)) ==> asks_with(
            after,
            action,
            credentials,
        ) && after.retried == fetch.retried,
        event matches FetchEvent::Refreshed(Err(error)) ==> fetch_fails(after, action, error),
{
    if let FetchEvent::Refreshed(Ok(credentials)) = event {
        assert(event.facts() == crate::quota::FetchEventFacts::Refreshed(
            Ok(credentials.deep_view()),
        ));
    }
}

/// An answer ends the fetch, and gives the address of the credentials it was asked with. A refusal
/// has the credentials read again the first time, and ends the fetch the second time. A service
/// that is not to be had ends it.
pub proof fn law_answers_end_the_fetch(
    fetch: QuotaFetch,
    event: FetchEvent,
    after: QuotaFetch,
    action: FetchAction,
    answer: Result<(), UsageFailure>,
)
    requires
        fetch_moves(fetch, event, after, action),
        event == FetchEvent::Usage(answer),
    ensures
        answer is Ok ==> (action matches FetchAction::Finish(Ok(email)) && email.deep_view()
            == fetch.email.deep_view() && after.stage is Finished),
        answer == Err::<(), UsageFailure>(UsageFailure::Unauthorized) && !fetch.retried ==> action
            is ReadAuth && after.stage is Rereading && after.retried
            && after.access_token.deep_view() == fetch.access_token.deep_view(),
        answer == Err::<(), UsageFailure>(UsageFailure::Unauthorized) && fetch.retried
            ==> fetch_fails(after, action, QuotaFetchError::AuthRequired),
        answer == Err::<(), UsageFailure>(UsageFailure::Unavailable) ==> fetch_fails(
            after,
            action,
            QuotaFetchError::Unavailable,
        ),
{
}

/// Why a refresh was refused: an expired token counts before one that was used before, and that
/// before one that was made invalid. Where none is named, a fault of the caller asks for new
/// credentials, and any other fault may pass.
pub proof fn law_refusals_are_told_by_name(status: u16, body: Seq<char>, r: RefreshFailure)
    requires
        r == refusal(status, body),
    ensures
        r is RefreshTokenExpired <==> occurs(body, "refresh_token_expired"@),
        r is RefreshTokenReused <==> occurs(body, "refresh_token_reused"@) && !occurs(
            body,
            "refresh_token_expired"@,
        ),
        r is RefreshTokenInvalidated <==> occurs(body, "refresh_token_invalidated"@) && !occurs(
            body,
            "refresh_token_expired"@,
        ) && !occurs(body, "refresh_token_reused"@),
        r is OtherAuthRequired ==> 400 <= status <= 499,
        r is Unavailable ==> status < 400 || status > 499,
{
}

/// What asks for new credentials: a refresh that was refused for any other reason than that the
/// service is not to be had, and credentials that are missing.
pub proof fn law_new_credentials_are_asked_for(
    failure: RefreshFailure,
    error: AuthReadError,
    of_refresh: QuotaFetchError,
    of_read: QuotaFetchError,
)
    requires
        of_refresh == refused(failure),
        of_read == unread(error),
    ensures
        of_refresh is Unavailable <==> failure is Unavailable,
        of_refresh is AuthRequired <==> failure is RefreshTokenExpired || failure
            is RefreshTokenReused || failure is RefreshTokenInvalidated || failure
            is OtherAuthRequired,
        of_read is AuthRequired <==> error is Missing,
        of_read is Unavailable <==> error is Io || error is Invalid,
{
}

/// What is remembered: an answer with its time, until the next one; before the first answer, the
/// kind of the last failure.
pub proof fn law_answers_are_remembered<P>(
    quota: QuotaFacts<P>,
    result: Result<P, QuotaFetchError>,
    at_ms: i64,
    after: QuotaFacts<P>,
)
    requires
        quota.wf(),
        after == quota.after(result, at_ms),
    ensures
        result matches Ok(payload) ==> after.status is Ready && after.last_good == Some(
            (payload, at_ms),
        ),
        result is Err ==> after.last_good == quota.last_good,
        result is Err && quota.last_good is Some ==> after.status is Ready,
        result is Err && quota.last_good is None && result->Err_0 is AuthRequired ==> after.status
            is AuthRequired,
        result is Err && quota.last_good is None && result->Err_0 is Unavailable ==> after.status
            is Unavailable,
{
}

/// The timer, in milliseconds: without a demand a refresh comes five minutes after the last one
/// ended, and a demand puts the next one off to five minutes after it. A deadline that came is
/// forgotten if it was the one that a demand asked for.
pub proof fn law_refreshes_come_every_five_minutes(
    timer: RefreshTimer,
    reset_ms: Option<u64>,
    now_ms: u64,
    started: RefreshTimer,
    fired: RefreshTimer,
    refreshed: RefreshTimer,
    demanded: RefreshTimer,
    moved: RefreshTimer,
)
    requires
        now_ms + 300000 <= u64::MAX,
        started == RefreshTimer::started(reset_ms, now_ms),
        fired == timer.fired(),
        refreshed == timer.refreshed(now_ms),
        demanded == timer.demanded(now_ms),
        moved == timer.moved(),
    ensures
        reset_ms is None ==> started.deadline_ms == now_ms + 300000,
        reset_ms matches Some(at) ==> started.deadline_ms == at,
        started.reset_ms == reset_ms,
        fired.deadline_ms == timer.deadline_ms,
        timer.reset_ms == Some(timer.deadline_ms) ==> fired.reset_ms is None,
        timer.reset_ms != Some(timer.deadline_ms) ==> fired.reset_ms == timer.reset_ms,
        refreshed.deadline_ms == now_ms + 300000,
        refreshed.reset_ms == timer.reset_ms,
        demanded.reset_ms == Some((now_ms + 300000) as u64),
        demanded.deadline_ms == timer.deadline_ms,
        timer.reset_ms matches Some(at) ==> moved.deadline_ms == at,
        timer.reset_ms is None ==> moved.deadline_ms == timer.deadline_ms,
        moved.reset_ms == timer.reset_ms,
{
}

} // verus!
