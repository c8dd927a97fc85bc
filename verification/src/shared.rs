//! Error and value types used across sources.
use vstd::prelude::*;
use vstd::string::*;
#[allow(unused_imports)]
use vstd::utf8::encode_utf8;

use crate::text::{contains_control, is_blank};
#[allow(unused_imports)]
use crate::text::{blank, has_control};

verus! {

/// Why a value was refused.
#[derive(Clone, Debug, PartialEq, Eq)]
pub enum DomainError {
    InvalidValue { field: &'static str, reason: String },
    DuplicateId { kind: &'static str, id: String },
    InvariantViolation { invariant: &'static str },
    EmptyBatch { kind: &'static str },
}

/// What a [`DomainError`] says, with its texts as sequences of characters.
pub enum Fault {
    InvalidValue { field: Seq<char>, reason: Seq<char> },
    DuplicateId { kind: Seq<char>, id: Seq<char> },
    InvariantViolation { invariant: Seq<char> },
    EmptyBatch { kind: Seq<char> },
}

impl View for DomainError {
    type V = Fault;

    open spec fn view(&self) -> Fault {
        match self {
            DomainError::InvalidValue { field, reason } => Fault::InvalidValue {
                field: field@,
                reason: reason@,
            },
            DomainError::DuplicateId { kind, id } => Fault::DuplicateId { kind: kind@, id: id@ },
            DomainError::InvariantViolation { invariant } => Fault::InvariantViolation {
                invariant: invariant@,
            },
            DomainError::EmptyBatch { kind } => Fault::EmptyBatch { kind: kind@ },
        }
    }
}

/// The fault of a field with an unacceptable value.
pub open spec fn invalid_fault(field: Seq<char>, reason: Seq<char>) -> Fault {
    Fault::InvalidValue { field, reason }
}

/// The first of two faults, where there is one.
pub open spec fn first(a: Option<Fault>, b: Option<Fault>) -> Option<Fault> {
    if a is Some {
        a
    } else {
        b
    }
}

/// The answer of a check: an error with the fault, or nothing to say.
pub open spec fn answers<T>(r: Result<T, DomainError>, fault: Option<Fault>) -> bool {
    match fault {
        Some(fault) => r matches Err(e) && e@ == fault,
        None => r is Ok,
    }
}

pub open spec fn violation_fault(invariant: Seq<char>) -> Fault {
    Fault::InvariantViolation { invariant }
}

/// A text that must say something and hold no control characters.
pub open spec fn text_fault(value: Seq<char>, field: Seq<char>) -> Option<Fault> {
    if blank(value) {
        Some(invalid_fault(field, "must not be empty"@))
    } else if has_control(value) {
        Some(invalid_fault(field, "must not contain control characters"@))
    } else {
        None
    }
}

pub open spec fn optional_text_fault(value: Option<Seq<char>>, field: Seq<char>) -> Option<Fault> {
    match value {
        Some(value) => text_fault(value, field),
        None => None,
    }
}

pub open spec fn non_negative_fault(value: i64, field: Seq<char>) -> Option<Fault> {
    if value < 0 {
        Some(invalid_fault(field, "must be non-negative"@))
    } else {
        None
    }
}

pub open spec fn optional_non_negative_fault(value: Option<i64>, field: Seq<char>) -> Option<
    Fault,
> {
    match value {
        Some(value) => non_negative_fault(value, field),
        None => None,
    }
}

pub open spec fn positive_fault(value: i64, field: Seq<char>) -> Option<Fault> {
    if value <= 0 {
        Some(invalid_fault(field, "must be positive"@))
    } else {
        None
    }
}

pub open spec fn upper_case_byte(b: u8) -> bool {
    0x41 <= b <= 0x5a
}

pub open spec fn code_byte(b: u8) -> bool {
    upper_case_byte(b) || 0x30 <= b <= 0x39 || b == 0x5f
}

/// A persisted error code: 1 to 64 bytes of upper-case letters, digits and underscores, the
/// first a letter.
pub open spec fn code_fault(value: Seq<char>, field: Seq<char>) -> Option<Fault> {
    let bytes = encode_utf8(value);
    if bytes.len() == 0 {
        Some(invalid_fault(field, "must not be empty"@))
    } else if bytes.len() > 64 {
        Some(invalid_fault(field, "must be at most 64 bytes"@))
    } else if !upper_case_byte(bytes[0]) {
        Some(invalid_fault(field, "must start with an ASCII uppercase letter"@))
    } else if !(forall|i: int| 0 <= i < bytes.len() ==> code_byte(#[trigger] bytes[i])) {
        Some(
            invalid_fault(
                field,
                "must contain only ASCII uppercase letters, digits, or underscores"@,
            ),
        )
    } else {
        None
    }
}

pub open spec fn optional_code_fault(value: Option<Seq<char>>, field: Seq<char>) -> Option<Fault> {
    match value {
        Some(value) => code_fault(value, field),
        None => None,
    }
}

pub fn non_empty(value: &str, field: &'static str) -> (r: Result<(), DomainError>)
    ensures
        answers(r, text_fault(value@, field@)),
{
    if is_blank(value) {
        Err(DomainError::invalid(field, "must not be empty"))
    } else if contains_control(value) {
        Err(DomainError::invalid(field, "must not contain control characters"))
    } else {
        Ok(())
    }
}

pub fn optional_non_empty(value: &Option<String>, field: &'static str) -> (r: Result<
    (),
    DomainError,
>)
    ensures
        answers(r, optional_text_fault(value.deep_view(), field@)),
{
    match value {
        Some(value) => non_empty(value.as_str(), field),
        None => Ok(()),
    }
}

pub fn non_negative(value: i64, field: &'static str) -> (r: Result<(), DomainError>)
    ensures
        answers(r, non_negative_fault(value, field@)),
{
    if value < 0 {
        Err(DomainError::invalid(field, "must be non-negative"))
    } else {
        Ok(())
    }
}

pub fn optional_non_negative(value: Option<i64>, field: &'static str) -> (r: Result<
    (),
    DomainError,
>)
    ensures
        answers(r, optional_non_negative_fault(value, field@)),
{
    match value {
        Some(value) => non_negative(value, field),
        None => Ok(()),
    }
}

pub fn positive(value: i64, field: &'static str) -> (r: Result<(), DomainError>)
    ensures
        answers(r, positive_fault(value, field@)),
{
    if value <= 0 {
        Err(DomainError::invalid(field, "must be positive"))
    } else {
        Ok(())
    }
}

pub fn safe_code(value: &str, field: &'static str) -> (r: Result<(), DomainError>)
    ensures
        answers(r, code_fault(value@, field@)),
{
    let bytes: &[u8] = value.as_bytes();
    if bytes.len() == 0 {
        return Err(DomainError::invalid(field, "must not be empty"));
    }
    if bytes.len() > 64 {
        return Err(DomainError::invalid(field, "must be at most 64 bytes"));
    }
    if !(0x41 <= bytes[0] && bytes[0] <= 0x5a) {
        return Err(DomainError::invalid(field, "must start with an ASCII uppercase letter"));
    }
    let mut i: usize = 0;
    while i < bytes.len()
        invariant
            bytes@ == encode_utf8(value@),
            0 < bytes.len() <= 64,
            upper_case_byte(bytes@[0]),
            i <= bytes.len(),
            forall|j: int| 0 <= j < i ==> code_byte(#[trigger] bytes@[j]),
        decreases bytes.len() - i,
    {
        let b: u8 = bytes[i];
        if !((0x41 <= b && b <= 0x5a) || (0x30 <= b && b <= 0x39) || b == 0x5f) {
            assert(!code_byte(bytes@[i as int]));
            return Err(
                DomainError::invalid(
                    field,
                    "must contain only ASCII uppercase letters, digits, or underscores",
                ),
            );
        }
        i = i + 1;
    }
    Ok(())
}

pub fn validate_optional_code(value: &Option<String>, field: &'static str) -> (r: Result<
    (),
    DomainError,
>)
    ensures
        answers(r, optional_code_fault(value.deep_view(), field@)),
{
    match value {
        Some(value) => safe_code(value.as_str(), field),
        None => Ok(()),
    }
}

/// How `{:?}` writes a text.
pub uninterp spec fn quoted(text: Seq<char>) -> Seq<char>;

/// `str`'s `Debug` form: a function of the text alone.
#[verifier::external_body]
pub(crate) fn quoted_text(text: &str) -> (r: String)
    ensures
        r@ == quoted(text@),
{
    format!("{text:?}")
}

/// The fault of a name that no variant has.
pub open spec fn unknown_name_fault(field: Seq<char>, value: Seq<char>) -> Fault {
    invalid_fault(field, "unknown value "@ + quoted(value))
}

pub fn unknown_name(field: &'static str, value: &str) -> (error: DomainError)
    ensures
        error@ == unknown_name_fault(field@, value@),
{
    let reason: String = "unknown value ".to_owned().concat(quoted_text(value).as_str());
    DomainError::InvalidValue { field, reason }
}

impl DomainError {
    pub fn invalid(field: &'static str, reason: &str) -> (error: Self)
        ensures
            error@ == invalid_fault(field@, reason@),
    {
        DomainError::InvalidValue { field, reason: reason.to_owned() }
    }

    pub fn violation(invariant: &'static str) -> (error: Self)
        ensures
            error@ == (Fault::InvariantViolation { invariant: invariant@ }),
    {
        DomainError::InvariantViolation { invariant }
    }
}

/// Which part a thread plays in its session tree.
#[derive(Clone, Copy, Debug, PartialEq, Eq, Structural)]
pub enum AgentRole {
    Main,
    Subagent,
    Unknown,
}

#[derive(Clone, Copy, Debug, PartialEq, Eq, Structural)]
pub enum ProjectKind {
    Project,
    Projectless,
    Unknown,
}

#[derive(Clone, Copy, Debug, PartialEq, Eq, Structural)]
pub enum MetadataQualityStatus {
    Complete,
    Partial,
    Conflict,
}

/// A change of one field.
#[derive(Clone, Copy, Debug, PartialEq, Eq)]
pub enum Patch<T> {
    Keep,
    Assign(T),
    Clear,
}

impl<T> Patch<T> {
    pub fn is_keep(&self) -> (r: bool)
        ensures
            r == (self is Keep),
    {
        match self {
            Patch::Keep => true,
            _ => false,
        }
    }
}

impl<T: DeepView> DeepView for Patch<T> {
    type V = Patch<T::V>;

    open spec fn deep_view(&self) -> Patch<T::V> {
        match self {
            Patch::Keep => Patch::Keep,
            Patch::Assign(value) => Patch::Assign(value.deep_view()),
            Patch::Clear => Patch::Clear,
        }
    }
}

/// The changes that resolution asks for on one thread.
#[derive(Clone, Debug, PartialEq, Eq)]
pub struct ResolvedThreadPatch {
    pub thread_id: String,
    pub resolved_at_ms: i64,
    pub full_resolution: bool,
    pub metadata_quality_status: MetadataQualityStatus,
    pub parent_thread_id: Patch<String>,
    pub root_session_id: Patch<String>,
    pub agent_role: Patch<AgentRole>,
    pub title: Patch<String>,
    pub project_name: Patch<String>,
    pub project_path: Patch<String>,
    pub project_kind: Patch<ProjectKind>,
    pub metadata_model: Patch<String>,
    pub created_at_ms: Patch<i64>,
    pub updated_at_ms: Patch<i64>,
    pub archived: Patch<bool>,
    pub current_rollout_path: Patch<String>,
}

#[verifier::ext_equal]
pub struct PatchFacts {
    pub thread_id: Seq<char>,
    pub resolved_at_ms: i64,
    pub full_resolution: bool,
    pub metadata_quality_status: MetadataQualityStatus,
    pub parent_thread_id: Patch<Seq<char>>,
    pub root_session_id: Patch<Seq<char>>,
    pub agent_role: Patch<AgentRole>,
    pub title: Patch<Seq<char>>,
    pub project_name: Patch<Seq<char>>,
    pub project_path: Patch<Seq<char>>,
    pub project_kind: Patch<ProjectKind>,
    pub metadata_model: Patch<Seq<char>>,
    pub created_at_ms: Patch<i64>,
    pub updated_at_ms: Patch<i64>,
    pub archived: Patch<bool>,
    pub current_rollout_path: Patch<Seq<char>>,
}

impl DeepView for ResolvedThreadPatch {
    type V = PatchFacts;

    open spec fn deep_view(&self) -> PatchFacts {
        PatchFacts {
            thread_id: self.thread_id@,
            resolved_at_ms: self.resolved_at_ms,
            full_resolution: self.full_resolution,
            metadata_quality_status: self.metadata_quality_status,
            parent_thread_id: self.parent_thread_id.deep_view(),
            root_session_id: self.root_session_id.deep_view(),
            agent_role: self.agent_role,
            title: self.title.deep_view(),
            project_name: self.project_name.deep_view(),
            project_path: self.project_path.deep_view(),
            project_kind: self.project_kind,
            metadata_model: self.metadata_model.deep_view(),
            created_at_ms: self.created_at_ms,
            updated_at_ms: self.updated_at_ms,
            archived: self.archived,
            current_rollout_path: self.current_rollout_path.deep_view(),
        }
    }
}

/// A patch that keeps every field.
pub open spec fn empty_patch(thread_id: Seq<char>, resolved_at_ms: i64) -> PatchFacts {
    PatchFacts {
        thread_id,
        resolved_at_ms,
        full_resolution: false,
        metadata_quality_status: MetadataQualityStatus::Partial,
        parent_thread_id: Patch::Keep,
        root_session_id: Patch::Keep,
        agent_role: Patch::Keep,
        title: Patch::Keep,
        project_name: Patch::Keep,
        project_path: Patch::Keep,
        project_kind: Patch::Keep,
        metadata_model: Patch::Keep,
        created_at_ms: Patch::Keep,
        updated_at_ms: Patch::Keep,
        archived: Patch::Keep,
        current_rollout_path: Patch::Keep,
    }
}

pub open spec fn patch_fault(thread_id: Seq<char>, resolved_at_ms: i64) -> Option<Fault> {
    first(
        text_fault(thread_id, "thread_id"@),
        non_negative_fault(resolved_at_ms, "resolved_at_ms"@),
    )
}

impl ResolvedThreadPatch {
    pub fn new(thread_id: &str, resolved_at_ms: i64) -> (r: Result<Self, DomainError>)
        ensures
            answers(r, patch_fault(thread_id@, resolved_at_ms)),
            r matches Ok(patch) ==> patch.deep_view() == empty_patch(thread_id@, resolved_at_ms),
    {
        non_empty(thread_id, "thread_id")?;
        non_negative(resolved_at_ms, "resolved_at_ms")?;
        Ok(
            ResolvedThreadPatch {
                thread_id: thread_id.to_owned(),
                resolved_at_ms,
                full_resolution: false,
                metadata_quality_status: MetadataQualityStatus::Partial,
                parent_thread_id: Patch::Keep,
                root_session_id: Patch::Keep,
                agent_role: Patch::Keep,
                title: Patch::Keep,
                project_name: Patch::Keep,
                project_path: Patch::Keep,
                project_kind: Patch::Keep,
                metadata_model: Patch::Keep,
                created_at_ms: Patch::Keep,
                updated_at_ms: Patch::Keep,
                archived: Patch::Keep,
                current_rollout_path: Patch::Keep,
            },
        )
    }

    pub fn validate(&self) -> (r: Result<(), DomainError>)
        ensures
            answers(r, patch_fault(self.thread_id@, self.resolved_at_ms)),
    {
        non_empty(self.thread_id.as_str(), "thread_id")?;
        non_negative(self.resolved_at_ms, "resolved_at_ms")
    }
}

/// A scan that failed, with a code that is safe to persist.
#[derive(Clone, Debug, PartialEq, Eq)]
pub struct ScanFailedEvent {
    pub scan_id: String,
    pub failed_at_ms: i64,
    pub error_code: String,
}

pub open spec fn scan_event_fault(scan_id: Seq<char>, at_ms: i64, code: Seq<char>) -> Option<Fault> {
    first(
        text_fault(scan_id, "scan_id"@),
        first(non_negative_fault(at_ms, "failed_at_ms"@), code_fault(code, "error_code"@)),
    )
}

impl ScanFailedEvent {
    pub fn new(scan_id: &str, failed_at_ms: i64, error_code: &str) -> (r: Result<Self, DomainError>)
        ensures
            answers(r, scan_event_fault(scan_id@, failed_at_ms, error_code@)),
            r matches Ok(event) ==> event.scan_id@ == scan_id@ && event.failed_at_ms
                == failed_at_ms && event.error_code@ == error_code@,
    {
        non_empty(scan_id, "scan_id")?;
        non_negative(failed_at_ms, "failed_at_ms")?;
        safe_code(error_code, "error_code")?;
        Ok(
            ScanFailedEvent {
                scan_id: scan_id.to_owned(),
                failed_at_ms,
                error_code: error_code.to_owned(),
            },
        )
    }
}

/// A follow-up scan that could not be started, with a code that is safe to persist.
#[derive(Clone, Debug, PartialEq, Eq)]
pub struct FollowupStartFailedEvent {
    pub scan_id: String,
    pub failed_at_ms: i64,
    pub error_code: String,
}

impl FollowupStartFailedEvent {
    pub fn new(scan_id: &str, failed_at_ms: i64, error_code: &str) -> (r: Result<Self, DomainError>)
        ensures
            answers(r, scan_event_fault(scan_id@, failed_at_ms, error_code@)),
            r matches Ok(event) ==> event.scan_id@ == scan_id@ && event.failed_at_ms
                == failed_at_ms && event.error_code@ == error_code@,
    {
        non_empty(scan_id, "scan_id")?;
        non_negative(failed_at_ms, "failed_at_ms")?;
        safe_code(error_code, "error_code")?;
        Ok(
            FollowupStartFailedEvent {
                scan_id: scan_id.to_owned(),
                failed_at_ms,
                error_code: error_code.to_owned(),
            },
        )
    }
}

} // verus!
