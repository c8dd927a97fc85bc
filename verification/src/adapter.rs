//! The Codex source as the rest of the tracker sees it.
use vstd::prelude::*;
use vstd::string::*;

use crate::config::{CodexConfig, CodexConfigResolution};
#[allow(unused_imports)]
use crate::config::ResolutionFacts;
use crate::shared::{non_empty, DomainError};
#[allow(unused_imports)]
use crate::shared::{answers, first, text_fault};

verus! {

/// Where sessions come from.
#[derive(Clone, Copy, Debug, PartialEq, Eq, Structural)]
pub enum SourceId {
    Codex,
}

impl SourceId {
    pub fn as_str(self) -> (r: &'static str)
        ensures
            r@ == "codex"@,
    {
        "codex"
    }
}

/// A session: the thread it is kept under, and what its source calls it.
#[derive(Clone, Debug, PartialEq, Eq)]
pub struct SessionIdentity {
    pub thread_id: String,
    pub source: SourceId,
    pub native_session_id: String,
}

impl SessionIdentity {
    pub fn new(thread_id: &str, source: SourceId, native_session_id: &str) -> (r: Result<
        Self,
        DomainError,
    >)
        ensures
            answers(
                r,
                first(
                    text_fault(thread_id@, "thread_id"@),
                    text_fault(native_session_id@, "native_session_id"@),
                ),
            ),
            r matches Ok(identity) ==> identity.thread_id@ == thread_id@ && identity.source == source
                && identity.native_session_id@ == native_session_id@,
    {
        non_empty(thread_id, "thread_id")?;
        non_empty(native_session_id, "native_session_id")?;
        Ok(
            SessionIdentity {
                thread_id: thread_id.to_owned(),
                source,
                native_session_id: native_session_id.to_owned(),
            },
        )
    }
}

/// Why a scan does not run, or did not succeed.
#[derive(Clone, Copy, Debug, PartialEq, Eq)]
pub struct SourceAdapterError {
    pub code: &'static str,
    pub message: &'static str,
}

pub open spec fn says(error: SourceAdapterError, code: Seq<char>, message: Seq<char>) -> bool {
    error.code@ == code && error.message@ == message
}

/// What binding a ledger to a home came to.
#[derive(Clone, Copy, Debug, PartialEq, Eq, Structural)]
pub enum CodexBindingOutcome {
    Bound,
    SourceChanged,
}

/// The adapter of the Codex source.
pub struct CodexAdapter {
    config: CodexConfigResolution,
}

impl View for CodexAdapter {
    type V = ResolutionFacts;

    closed spec fn view(&self) -> ResolutionFacts {
        self.config.deep_view()
    }
}

impl CodexAdapter {
    pub fn new(config: CodexConfigResolution) -> (r: Self)
        ensures
            r@ == config.deep_view(),
    {
        CodexAdapter { config }
    }

    /// The source is there if its configuration is.
    pub fn availability(&self) -> (r: Result<(), SourceAdapterError>)
        ensures
            match self@ {
                ResolutionFacts::Ready(_) => r is Ok,
                ResolutionFacts::Invalid(invalid) => r matches Err(error) && says(
                    error,
                    invalid.code,
                    invalid.code,
                ),
            },
    {
        match &self.config {
            CodexConfigResolution::Ready(_) => Ok(()),
            CodexConfigResolution::Invalid(error) => Err(
                SourceAdapterError { code: error.code(), message: error.code() },
            ),
        }
    }

    /// The configuration to scan with, unless the scan was cancelled or there is none.
    pub fn begin_scan(&self, cancelled: bool) -> (r: Result<&CodexConfig, SourceAdapterError>)
        ensures
            if cancelled {
                r matches Err(error) && says(
                    error,
                    "SCAN_CANCELLED"@,
                    "Codex scan was cancelled before execution"@,
                )
            } else {
                match self@ {
                    ResolutionFacts::Ready(ready) => r matches Ok(config) && config@ == ready,
                    ResolutionFacts::Invalid(invalid) => r matches Err(error) && says(
                        error,
                        invalid.code,
                        invalid.code,
                    ),
                }
            },
    {
        if cancelled {
            return Err(
                SourceAdapterError {
                    code: "SCAN_CANCELLED",
                    message: "Codex scan was cancelled before execution",
                },
            );
        }
        match &self.config {
            CodexConfigResolution::Ready(config) => Ok(config),
            CodexConfigResolution::Invalid(error) => Err(
                SourceAdapterError { code: error.code(), message: error.code() },
            ),
        }
    }
}

/// A ledger that is bound to another home is not scanned into.
pub fn check_binding(outcome: CodexBindingOutcome) -> (r: Result<(), SourceAdapterError>)
    ensures
        r is Err <==> outcome is SourceChanged,
        r matches Err(error) ==> says(
            error,
            "SOURCE_CHANGED"@,
            "Codex home fingerprint changed"@,
        ),
{
    match outcome {
        CodexBindingOutcome::Bound => Ok(()),
        CodexBindingOutcome::SourceChanged => Err(
            SourceAdapterError {
                code: "SOURCE_CHANGED",
                message: "Codex home fingerprint changed",
            },
        ),
    }
}

/// What a scan round comes to for the tracker.
pub fn scan_result(result: Result<(), &'static str>) -> (r: Result<(), SourceAdapterError>)
    ensures
        match result {
            Ok(_) => r is Ok,
            Err(code) => r matches Err(error) && says(error, code@, "Codex ingestion failed"@),
        },
{
    match result {
        Ok(_) => Ok(()),
        Err(code) => Err(SourceAdapterError { code, message: "Codex ingestion failed" }),
    }
}

} // verus!
