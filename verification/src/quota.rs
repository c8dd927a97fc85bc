//! Fetching the weekly quota: which request comes next, and what is remembered.
//!
//! The machine decides; whoever runs it reads the credentials and sends the requests.
use vstd::prelude::*;
use vstd::string::*;

use crate::text::contains_text;
#[allow(unused_imports)]
use crate::text::{lowered, occurs};

verus! {

pub const USAGE_URL: &'static str = "https://chatgpt.com/backend-api/wham/usage";

pub const REFRESH_URL: &'static str = "https://auth.openai.com/oauth/token";

pub const CLIENT_ID: &'static str = "app_EMoamEEZ73f0CkXaXp7hrann";

pub const USAGE_TIMEOUT_SECONDS: u64 = 10;

pub const REFRESH_TIMEOUT_SECONDS: u64 = 15;

/// How long after one refresh the next one comes by itself.
pub const REFRESH_INTERVAL_SECONDS: u64 = 300;

pub const REFRESH_INTERVAL_MS: u64 = 300_000;

#[derive(Clone, Copy, Debug, PartialEq, Eq, Structural)]
pub enum CodexQuotaStatus {
    Loading,
    Ready,
    AuthRequired,
    Unavailable,
}

impl CodexQuotaStatus {
    pub open spec fn name(self) -> Seq<char> {
        match self {
            CodexQuotaStatus::Loading => "loading"@,
            CodexQuotaStatus::Ready => "ready"@,
            CodexQuotaStatus::AuthRequired => "auth_required"@,
            CodexQuotaStatus::Unavailable => "unavailable"@,
        }
    }

    /// The name that the status goes by outside.
    pub fn as_str(self) -> (r: &'static str)
        ensures
            r@ == self.name(),
    {
        match self {
            CodexQuotaStatus::Loading => "loading",
            CodexQuotaStatus::Ready => "ready",
            CodexQuotaStatus::AuthRequired => "auth_required",
            CodexQuotaStatus::Unavailable => "unavailable",
        }
    }
}

#[derive(Clone, Copy, Debug, PartialEq, Eq, Structural)]
pub enum QuotaFetchError {
    AuthRequired,
    Unavailable,
}

impl QuotaFetchError {
    pub open spec fn text(self) -> Seq<char> {
        match self {
            QuotaFetchError::AuthRequired => "Codex authentication is required"@,
            QuotaFetchError::Unavailable => "Codex quota is unavailable"@,
        }
    }

    /// What the error says. No part of a response is in it.
    pub fn message(self) -> (r: String)
        ensures
            r@ == self.text(),
    {
        match self {
            QuotaFetchError::AuthRequired => "Codex authentication is required".to_owned(),
            QuotaFetchError::Unavailable => "Codex quota is unavailable".to_owned(),
        }
    }
}

/// Why the credentials could not be read.
#[derive(Clone, Copy, Debug, PartialEq, Eq, Structural)]
pub enum AuthReadError {
    Missing,
    Io,
    Invalid,
}

/// Credentials that do not exist have to be made; others may yet be read.
pub open spec fn unread(error: AuthReadError) -> QuotaFetchError {
    if error is Missing {
        QuotaFetchError::AuthRequired
    } else {
        QuotaFetchError::Unavailable
    }
}

pub fn map_auth_read(error: AuthReadError) -> (r: QuotaFetchError)
    ensures
        r == unread(error),
{
    match error {
        AuthReadError::Missing => QuotaFetchError::AuthRequired,
        AuthReadError::Io | AuthReadError::Invalid => QuotaFetchError::Unavailable,
    }
}

#[derive(Clone, Copy, Debug, PartialEq, Eq, Structural)]
pub enum UsageFailure {
    Unauthorized,
    Unavailable,
}

pub open spec fn is_success(status: u16) -> bool {
    200 <= status < 300
}

/// What the answer to a request for usage means, by its status.
pub fn usage_status(status: u16) -> (r: Result<(), UsageFailure>)
    ensures
        r == if status == 401 || status == 403 {
            Err(UsageFailure::Unauthorized)
        } else if is_success(status) {
            Ok(())
        } else {
            Err(UsageFailure::Unavailable)
        },
{
    if status == 401 || status == 403 {
        Err(UsageFailure::Unauthorized)
    } else if 200 <= status && status < 300 {
        Ok(())
    } else {
        Err(UsageFailure::Unavailable)
    }
}

#[derive(Clone, Copy, Debug, PartialEq, Eq, Structural)]
pub enum RefreshFailure {
    RefreshTokenExpired,
    RefreshTokenReused,
    RefreshTokenInvalidated,
    OtherAuthRequired,
    Unavailable,
}

/// Why a refresh was refused, by the answer: what it names first in this order, else its
/// status.
pub open spec fn refusal(status: u16, body: Seq<char>) -> RefreshFailure {
    if occurs(body, "refresh_token_expired"@) {
        RefreshFailure::RefreshTokenExpired
    } else if occurs(body, "refresh_token_reused"@) {
        RefreshFailure::RefreshTokenReused
    } else if occurs(body, "refresh_token_invalidated"@) {
        RefreshFailure::RefreshTokenInvalidated
    } else if 400 <= status < 500 {
        RefreshFailure::OtherAuthRequired
    } else {
        RefreshFailure::Unavailable
    }
}

pub fn classify_refresh_body(status: u16, body: &str) -> (r: RefreshFailure)
    ensures
        r == refusal(status, body@),
{
    if contains_text(body, "refresh_token_expired") {
        RefreshFailure::RefreshTokenExpired
    } else if contains_text(body, "refresh_token_reused") {
        RefreshFailure::RefreshTokenReused
    } else if contains_text(body, "refresh_token_invalidated") {
        RefreshFailure::RefreshTokenInvalidated
    } else if 400 <= status && status < 500 {
        RefreshFailure::OtherAuthRequired
    } else {
        RefreshFailure::Unavailable
    }
}

/// Why a refresh was refused, whatever the case of the letters.
pub fn classify_refresh_status(status: u16, body: &str) -> (r: RefreshFailure)
    ensures
        r == refusal(status, lowered(body@)),
{
    let lower: String = body.to_ascii_lowercase();
    classify_refresh_body(status, lower.as_str())
}

pub open spec fn refused(failure: RefreshFailure) -> QuotaFetchError {
    if failure is Unavailable {
        QuotaFetchError::Unavailable
    } else {
        QuotaFetchError::AuthRequired
    }
}

pub fn map_refresh_failure(failure: RefreshFailure) -> (r: QuotaFetchError)
    ensures
        r == refused(failure),
{
    match failure {
        RefreshFailure::RefreshTokenExpired
        | RefreshFailure::RefreshTokenReused
        | RefreshFailure::RefreshTokenInvalidated
        | RefreshFailure::OtherAuthRequired => QuotaFetchError::AuthRequired,
        RefreshFailure::Unavailable => QuotaFetchError::Unavailable,
    }
}

/// A refresh has to bring a token.
pub fn refreshed_token(access_token: Option<String>) -> (r: Result<String, QuotaFetchError>)
    ensures
        match access_token {
            Some(token) => if token@.len() > 0 {
                r == Ok::<String, QuotaFetchError>(token)
            } else {
                r == Err::<String, QuotaFetchError>(QuotaFetchError::Unavailable)
            },
            None => r == Err::<String, QuotaFetchError>(QuotaFetchError::Unavailable),
        },
{
    match access_token {
        Some(token) => if token.as_str().is_empty() {
            Err(QuotaFetchError::Unavailable)
        } else {
            Ok(token)
        },
        None => Err(QuotaFetchError::Unavailable),
    }
}

/// What the credentials hold, and whether they are due for a refresh.
#[derive(Clone, Debug, PartialEq, Eq)]
pub struct Credentials {
    pub access_token: Option<String>,
    pub refresh_token: Option<String>,
    pub account_id: Option<String>,
    pub email: Option<String>,
    pub needs_refresh: bool,
}

#[verifier::ext_equal]
pub struct CredentialFacts {
    pub access_token: Option<Seq<char>>,
    pub refresh_token: Option<Seq<char>>,
    pub account_id: Option<Seq<char>>,
    pub email: Option<Seq<char>>,
    pub needs_refresh: bool,
}

impl DeepView for Credentials {
    type V = CredentialFacts;

    open spec fn deep_view(&self) -> CredentialFacts {
        CredentialFacts {
            access_token: self.access_token.deep_view(),
            refresh_token: self.refresh_token.deep_view(),
            account_id: self.account_id.deep_view(),
            email: self.email.deep_view(),
            needs_refresh: self.needs_refresh,
        }
    }
}

/// What happened.
pub enum FetchEvent {
    AuthRead(Result<Credentials, AuthReadError>),
    Refreshed(Result<Credentials, QuotaFetchError>),
    Usage(Result<(), UsageFailure>),
}

pub enum FetchEventFacts {
    AuthRead(Result<CredentialFacts, AuthReadError>),
    Refreshed(Result<CredentialFacts, QuotaFetchError>),
    Usage(Result<(), UsageFailure>),
}

impl FetchEvent {
    pub open spec fn facts(self) -> FetchEventFacts {
        match self {
            FetchEvent::AuthRead(Ok(credentials)) => FetchEventFacts::AuthRead(
                Ok(credentials.deep_view()),
            ),
            FetchEvent::AuthRead(Err(error)) => FetchEventFacts::AuthRead(Err(error)),
            FetchEvent::Refreshed(Ok(credentials)) => FetchEventFacts::Refreshed(
                Ok(credentials.deep_view()),
            ),
            FetchEvent::Refreshed(Err(error)) => FetchEventFacts::Refreshed(Err(error)),
            FetchEvent::Usage(result) => FetchEventFacts::Usage(result),
        }
    }
}

/// What to do next.
pub enum FetchAction {
    ReadAuth,
    /// Spend this refresh token.
    Refresh(String),
    RequestUsage { access_token: String, account_id: Option<String> },
    /// Give the usage that was received, with this address; or fail.
    Finish(Result<Option<String>, QuotaFetchError>),
}

pub enum FetchActionFacts {
    ReadAuth,
    Refresh(Seq<char>),
    RequestUsage { access_token: Seq<char>, account_id: Option<Seq<char>> },
    Finish(Result<Option<Seq<char>>, QuotaFetchError>),
}

impl FetchAction {
    pub open spec fn facts(self) -> FetchActionFacts {
        match self {
            FetchAction::ReadAuth => FetchActionFacts::ReadAuth,
            FetchAction::Refresh(token) => FetchActionFacts::Refresh(token@),
            FetchAction::RequestUsage { access_token, account_id } =>
                FetchActionFacts::RequestUsage {
                access_token: access_token@,
                account_id: account_id.deep_view(),
            },
            FetchAction::Finish(Ok(email)) => FetchActionFacts::Finish(Ok(email.deep_view())),
            FetchAction::Finish(Err(error)) => FetchActionFacts::Finish(Err(error)),
        }
    }
}

/// What the fetch waits for.
#[derive(Clone, Copy, Debug, PartialEq, Eq, Structural)]
pub enum FetchStage {
    Reading,
    Rereading,
    Refreshing,
    Requesting,
    Finished,
}

pub struct QuotaFetch {
    pub stage: FetchStage,
    /// The service has refused the credentials once.
    pub retried: bool,
    pub access_token: Option<String>,
    pub email: Option<String>,
}

#[verifier::ext_equal]
pub struct FetchFacts {
    pub stage: FetchStage,
    pub retried: bool,
    pub access_token: Option<Seq<char>>,
    pub email: Option<Seq<char>>,
}

impl DeepView for QuotaFetch {
    type V = FetchFacts;

    open spec fn deep_view(&self) -> FetchFacts {
        FetchFacts {
            stage: self.stage,
            retried: self.retried,
            access_token: self.access_token.deep_view(),
            email: self.email.deep_view(),
        }
    }
}

pub struct FetchMove {
    pub fetch: FetchFacts,
    pub action: FetchActionFacts,
}

impl FetchFacts {
    pub open spec fn start() -> FetchFacts {
        FetchFacts { stage: FetchStage::Reading, retried: false, access_token: None, email: None }
    }

    pub open spec fn to(self, stage: FetchStage, action: FetchActionFacts) -> FetchMove {
        FetchMove { fetch: FetchFacts { stage, ..self }, action }
    }

    pub open spec fn fail(self, error: QuotaFetchError) -> FetchMove {
        self.to(FetchStage::Finished, FetchActionFacts::Finish(Err(error)))
    }

    /// Asks for usage with these credentials.
    pub open spec fn request(self, credentials: CredentialFacts) -> FetchMove {
        match credentials.access_token {
            None => self.fail(QuotaFetchError::AuthRequired),
            Some(token) => FetchMove {
                fetch: FetchFacts {
                    stage: FetchStage::Requesting,
                    access_token: Some(token),
                    email: credentials.email,
                    ..self
                },
                action: FetchActionFacts::RequestUsage {
                    access_token: token,
                    account_id: credentials.account_id,
                },
            },
        }
    }

    pub open spec fn refresh(self, credentials: CredentialFacts) -> FetchMove {
        match credentials.refresh_token {
            None => self.fail(QuotaFetchError::AuthRequired),
            Some(token) => self.to(FetchStage::Refreshing, FetchActionFacts::Refresh(token)),
        }
    }

    /// The credentials were replaced by others that can be used as they are.
    pub open spec fn rotated(self, credentials: CredentialFacts) -> bool {
        credentials.access_token is Some && credentials.access_token != self.access_token
            && !credentials.needs_refresh
    }

    /// Credentials that were read. Whoever else uses them may have replaced them meanwhile, so
    /// a refresh token is spent only after they were read again.
    pub open spec fn on_auth(self, credentials: CredentialFacts) -> FetchMove {
        match self.stage {
            FetchStage::Reading => if credentials.needs_refresh {
                self.to(FetchStage::Rereading, FetchActionFacts::ReadAuth)
            } else {
                self.request(credentials)
            },
            _ => if self.retried {
                if self.rotated(credentials) {
                    self.request(credentials)
                } else {
                    self.refresh(credentials)
                }
            } else if credentials.needs_refresh {
                self.refresh(credentials)
            } else {
                self.request(credentials)
            },
        }
    }

    pub open spec fn on_usage(self, result: Result<(), UsageFailure>) -> FetchMove {
        match result {
            Ok(_) => self.to(FetchStage::Finished, FetchActionFacts::Finish(Ok(self.email))),
            Err(UsageFailure::Unauthorized) => if self.retried {
                self.fail(QuotaFetchError::AuthRequired)
            } else {
                FetchFacts { retried: true, ..self }.to(
                    FetchStage::Rereading,
                    FetchActionFacts::ReadAuth,
                )
            },
            Err(UsageFailure::Unavailable) => self.fail(QuotaFetchError::Unavailable),
        }
    }

    /// The event is one that the fetch waits for.
    pub open spec fn awaits(self, event: FetchEventFacts) -> bool {
        match self.stage {
            FetchStage::Reading => event is AuthRead,
            FetchStage::Rereading => event is AuthRead,
            FetchStage::Refreshing => event is Refreshed,
            FetchStage::Requesting => event is Usage,
            FetchStage::Finished => false,
        }
    }

    pub open spec fn after(self, event: FetchEventFacts) -> FetchMove {
        match event {
            FetchEventFacts::AuthRead(Ok(credentials)) => self.on_auth(credentials),
            FetchEventFacts::AuthRead(Err(error)) => self.fail(unread(error)),
            FetchEventFacts::Refreshed(Ok(credentials)) => self.request(credentials),
            FetchEventFacts::Refreshed(Err(error)) => self.fail(error),
            FetchEventFacts::Usage(result) => self.on_usage(result),
        }
    }
}

impl QuotaFetch {
    /// A fetch that has not begun. The first thing to do is to read the credentials.
    pub fn start() -> (r: Self)
        ensures
            r.deep_view() == FetchFacts::start(),
    {
        QuotaFetch { stage: FetchStage::Reading, retried: false, access_token: None, email: None }
    }

    fn fail(&mut self, error: QuotaFetchError) -> (r: FetchAction)
        ensures
            final(self).deep_view() == old(self).deep_view().fail(error).fetch,
            r.facts() == old(self).deep_view().fail(error).action,
    {
        self.stage = FetchStage::Finished;
        FetchAction::Finish(Err(error))
    }

    fn request(&mut self, credentials: Credentials) -> (r: FetchAction)
        ensures
            final(self).deep_view() == old(self).deep_view().request(credentials.deep_view()).fetch,
            r.facts() == old(self).deep_view().request(credentials.deep_view()).action,
    {
        match credentials.access_token {
            None => self.fail(QuotaFetchError::AuthRequired),
            Some(token) => {
                self.stage = FetchStage::Requesting;
                self.access_token = Some(token.clone());
                self.email = credentials.email;
                FetchAction::RequestUsage { access_token: token, account_id: credentials.account_id }
            },
        }
    }

    fn refresh(&mut self, credentials: Credentials) -> (r: FetchAction)
        ensures
            final(self).deep_view() == old(self).deep_view().refresh(credentials.deep_view()).fetch,
            r.facts() == old(self).deep_view().refresh(credentials.deep_view()).action,
    {
        match credentials.refresh_token {
            None => self.fail(QuotaFetchError::AuthRequired),
            Some(token) => {
                self.stage = FetchStage::Refreshing;
                FetchAction::Refresh(token)
            },
        }
    }

    fn on_auth(&mut self, credentials: Credentials) -> (r: FetchAction)
        ensures
            final(self).deep_view() == old(self).deep_view().on_auth(credentials.deep_view()).fetch,
            r.facts() == old(self).deep_view().on_auth(credentials.deep_view()).action,
    {
        if self.stage == FetchStage::Reading {
            if credentials.needs_refresh {
                self.stage = FetchStage::Rereading;
                return FetchAction::ReadAuth;
            }
            return self.request(credentials);
        }
        if self.retried {
            let rotated: bool = match &credentials.access_token {
                None => false,
                Some(token) => {
                    let same: bool = match &self.access_token {
                        None => false,
                        Some(current) => *token == *current,
                    };
                    !same && !credentials.needs_refresh
                },
            };
            if rotated {
                self.request(credentials)
            } else {
                self.refresh(credentials)
            }
        } else if credentials.needs_refresh {
            self.refresh(credentials)
        } else {
            self.request(credentials)
        }
    }

    /// Takes note of what happened, and says what to do next.
    pub fn step(&mut self, event: FetchEvent) -> (r: FetchAction)
        requires
            old(self).deep_view().awaits(event.facts()),
        ensures
            final(self).deep_view() == old(self).deep_view().after(event.facts()).fetch,
            r.facts() == old(self).deep_view().after(event.facts()).action,
    {
        match event {
            FetchEvent::AuthRead(Ok(credentials)) => self.on_auth(credentials),
            FetchEvent::AuthRead(Err(error)) => self.fail(map_auth_read(error)),
            FetchEvent::Refreshed(Ok(credentials)) => self.request(credentials),
            FetchEvent::Refreshed(Err(error)) => self.fail(error),
            FetchEvent::Usage(Ok(_)) => {
                self.stage = FetchStage::Finished;
                FetchAction::Finish(Ok(self.email.clone()))
            },
            FetchEvent::Usage(Err(failure)) => match failure {
                UsageFailure::Unauthorized => if self.retried {
                    self.fail(QuotaFetchError::AuthRequired)
                } else {
                    self.retried = true;
                    self.stage = FetchStage::Rereading;
                    FetchAction::ReadAuth
                },
                UsageFailure::Unavailable => self.fail(QuotaFetchError::Unavailable),
            },
        }
    }
}

/// A refusal is answered by one more try, never by two.
pub proof fn law_refusals_are_retried_once(fetch: FetchFacts, event: FetchEventFacts)
    requires
        fetch.retried,
    ensures
        fetch.after(event).fetch.retried,
        event == FetchEventFacts::Usage(Err(UsageFailure::Unauthorized)) ==> fetch.after(event).action
            == FetchActionFacts::Finish(Err(QuotaFetchError::AuthRequired)),
{
}

impl FetchFacts {
    /// How many steps are left at most.
    pub open spec fn steps_left(self) -> nat {
        match self.stage {
            FetchStage::Finished => 0,
            FetchStage::Requesting => if self.retried {
                1
            } else {
                4
            },
            FetchStage::Refreshing => if self.retried {
                2
            } else {
                5
            },
            FetchStage::Rereading => if self.retried {
                3
            } else {
                6
            },
            FetchStage::Reading => 7,
        }
    }
}

/// Whatever the service answers, a fetch comes to its end.
pub proof fn law_fetches_end(fetch: FetchFacts, event: FetchEventFacts)
    requires
        fetch.awaits(event),
    ensures
        fetch.after(event).fetch.steps_left() < fetch.steps_left(),
        fetch.after(event).fetch.steps_left() == 0 <==> fetch.after(event).action is Finish,
{
}

/// A refresh token is spent only on credentials that were just read again.
pub proof fn law_tokens_are_spent_after_a_second_reading(fetch: FetchFacts, event: FetchEventFacts, token: Seq<char>)
    requires
        fetch.awaits(event),
        fetch.after(event).action == FetchActionFacts::Refresh(token),
    ensures
        fetch.stage is Rereading,
        event matches FetchEventFacts::AuthRead(Ok(credentials)) && credentials.refresh_token == Some(
            token,
        ),
{
}

/// Credentials that were replaced and are fresh are used without spending a refresh token.
pub proof fn law_rotated_credentials_are_used(fetch: FetchFacts, credentials: CredentialFacts)
    requires
        fetch.stage is Rereading,
        fetch.retried,
        fetch.rotated(credentials),
    ensures
        fetch.after(FetchEventFacts::AuthRead(Ok(credentials))).action
            == (FetchActionFacts::RequestUsage {
            access_token: credentials.access_token->0,
            account_id: credentials.account_id,
        }),
{
}

/// What is remembered of the quota: the last answer, or what stands in its place. `P` is what
/// an answer holds.
pub struct QuotaState<P> {
    status: CodexQuotaStatus,
    last_good: Option<(P, i64)>,
}

pub struct QuotaFacts<P> {
    pub status: CodexQuotaStatus,
    pub last_good: Option<(P, i64)>,
}

impl<P> View for QuotaState<P> {
    type V = QuotaFacts<P>;

    closed spec fn view(&self) -> QuotaFacts<P> {
        QuotaFacts { status: self.status, last_good: self.last_good }
    }
}

impl<P> QuotaFacts<P> {
    /// There is an answer if and only if the quota is ready.
    pub open spec fn wf(self) -> bool {
        self.status is Ready <==> self.last_good is Some
    }

    pub open spec fn start() -> Self {
        QuotaFacts { status: CodexQuotaStatus::Loading, last_good: None }
    }

    /// A failure hides no earlier answer.
    pub open spec fn after(self, result: Result<P, QuotaFetchError>, fetched_at_ms: i64) -> Self {
        match result {
            Ok(payload) => QuotaFacts {
                status: CodexQuotaStatus::Ready,
                last_good: Some((payload, fetched_at_ms)),
            },
            Err(error) => if self.last_good is Some {
                self
            } else {
                QuotaFacts {
                    status: match error {
                        QuotaFetchError::AuthRequired => CodexQuotaStatus::AuthRequired,
                        QuotaFetchError::Unavailable => CodexQuotaStatus::Unavailable,
                    },
                    last_good: None,
                }
            },
        }
    }
}

impl<P> QuotaState<P> {
    /// Nothing was fetched yet.
    pub fn loading() -> (r: Self)
        ensures
            r@ == QuotaFacts::<P>::start(),
            r@.wf(),
    {
        QuotaState { status: CodexQuotaStatus::Loading, last_good: None }
    }

    /// Takes note of what a fetch came to.
    pub fn record(&mut self, result: Result<P, QuotaFetchError>, fetched_at_ms: i64)
        requires
            old(self)@.wf(),
        ensures
            final(self)@ == old(self)@.after(result, fetched_at_ms),
            final(self)@.wf(),
    {
        match result {
            Ok(payload) => {
                self.status = CodexQuotaStatus::Ready;
                self.last_good = Some((payload, fetched_at_ms));
            },
            Err(error) => {
                if self.last_good.is_none() {
                    self.status = match error {
                        QuotaFetchError::AuthRequired => CodexQuotaStatus::AuthRequired,
                        QuotaFetchError::Unavailable => CodexQuotaStatus::Unavailable,
                    };
                }
            },
        }
    }

    pub fn status(&self) -> (r: CodexQuotaStatus)
        ensures
            r == self@.status,
    {
        self.status
    }

    /// The last answer, and when it was fetched.
    pub fn last_good(&self) -> (r: Option<&(P, i64)>)
        ensures
            match r {
                Some(answer) => self@.last_good == Some(*answer),
                None => self@.last_good is None,
            },
    {
        self.last_good.as_ref()
    }
}

/// Once there was an answer, a failure keeps it.
pub proof fn law_failures_keep_the_last_answer<P>(quota: QuotaFacts<P>, error: QuotaFetchError, at_ms: i64)
    requires
        quota.wf(),
        quota.status is Ready,
    ensures
        quota.after(Err(error), at_ms) == quota,
{
}

/// When the next refresh comes by itself. Times are milliseconds of one clock.
#[derive(Clone, Copy, Debug, PartialEq, Eq, Structural)]
pub struct RefreshTimer {
    pub deadline_ms: u64,
    /// The deadline that the last refresh on demand asked for, until it has passed.
    pub reset_ms: Option<u64>,
}

impl RefreshTimer {
    /// After the first refresh, which ended at `now_ms`. A refresh on demand may have come
    /// before that.
    pub open spec fn started(reset_ms: Option<u64>, now_ms: u64) -> Self {
        RefreshTimer {
            deadline_ms: match reset_ms {
                Some(at) => at,
                None => (now_ms + REFRESH_INTERVAL_MS) as u64,
            },
            reset_ms,
        }
    }

    /// The deadline has come: a reset that asked for it is done with.
    pub open spec fn fired(self) -> Self {
        RefreshTimer {
            reset_ms: if self.reset_ms == Some(self.deadline_ms) {
                None
            } else {
                self.reset_ms
            },
            ..self
        }
    }

    /// The refresh that the deadline called for ended at `now_ms`.
    pub open spec fn refreshed(self, now_ms: u64) -> Self {
        RefreshTimer { deadline_ms: (now_ms + REFRESH_INTERVAL_MS) as u64, ..self }
    }

    /// A refresh on demand was asked for at `now_ms`.
    pub open spec fn demanded(self, now_ms: u64) -> Self {
        RefreshTimer { reset_ms: Some((now_ms + REFRESH_INTERVAL_MS) as u64), ..self }
    }

    /// Goes by the reset, if there is one.
    pub open spec fn moved(self) -> Self {
        match self.reset_ms {
            Some(at) => RefreshTimer { deadline_ms: at, ..self },
            None => self,
        }
    }

    pub fn start(reset_ms: Option<u64>, now_ms: u64) -> (r: Self)
        requires
            now_ms + REFRESH_INTERVAL_MS <= u64::MAX,
        ensures
            r == RefreshTimer::started(reset_ms, now_ms),
    {
        RefreshTimer {
            deadline_ms: match reset_ms {
                Some(at) => at,
                None => now_ms + REFRESH_INTERVAL_MS,
            },
            reset_ms,
        }
    }

    pub fn fire(&mut self)
        ensures
            *final(self) == old(self).fired(),
    {
        if let Some(at) = self.reset_ms {
            if at == self.deadline_ms {
                self.reset_ms = None;
            }
        }
    }

    pub fn refresh_ended(&mut self, now_ms: u64)
        requires
            now_ms + REFRESH_INTERVAL_MS <= u64::MAX,
        ensures
            *final(self) == old(self).refreshed(now_ms),
    {
        self.deadline_ms = now_ms + REFRESH_INTERVAL_MS;
    }

    pub fn demand(&mut self, now_ms: u64)
        requires
            now_ms + REFRESH_INTERVAL_MS <= u64::MAX,
        ensures
            *final(self) == old(self).demanded(now_ms),
    {
        self.reset_ms = Some(now_ms + REFRESH_INTERVAL_MS);
    }

    pub fn follow_reset(&mut self)
        ensures
            *final(self) == old(self).moved(),
    {
        if let Some(at) = self.reset_ms {
            self.deadline_ms = at;
        }
    }
}

/// A refresh on demand puts the next one off: it comes one interval after the demand.
pub proof fn law_demands_reset_the_deadline(timer: RefreshTimer, now_ms: u64)
    requires
        now_ms + REFRESH_INTERVAL_MS <= u64::MAX,
    ensures
        timer.demanded(now_ms).moved().deadline_ms == now_ms + REFRESH_INTERVAL_MS,
{
}

/// Without a demand, a refresh comes one interval after the last one ended, and a deadline
/// that has passed does not come back.
pub proof fn law_refreshes_come_at_the_interval(timer: RefreshTimer, now_ms: u64)
    requires
        now_ms + REFRESH_INTERVAL_MS <= u64::MAX,
        timer.reset_ms is None || timer.reset_ms == Some(timer.deadline_ms),
    ensures
        timer.fired().refreshed(now_ms).moved().deadline_ms == now_ms + REFRESH_INTERVAL_MS,
        timer.fired().refreshed(now_ms).reset_ms is None,
{
}

} // verus!
