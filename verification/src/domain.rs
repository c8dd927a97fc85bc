//! Physical source values: rollout files, checkpoints, safe facts and metadata commits.
use vstd::prelude::*;
use vstd::std_specs::convert::{FromSpecImpl, TryFromSpecImpl};
use vstd::string::*;

use crate::platform::{starts_at_root, Platform};
#[allow(unused_imports)]
use crate::platform::is_absolute;
use crate::shared::{
    non_empty, non_negative, optional_non_empty, optional_non_negative, positive, safe_code,
    unknown_name, validate_optional_code, DomainError, ResolvedThreadPatch,
};
#[allow(unused_imports)]
use crate::shared::{
    answers, code_fault, first, invalid_fault, non_negative_fault, optional_code_fault,
    optional_non_negative_fault, optional_text_fault, patch_fault, positive_fault, text_fault,
    unknown_name_fault, violation_fault, Fault,
};
use crate::text::{contains_text, decimal, same_text};
#[allow(unused_imports)]
use crate::text::{int_text, occurs};

verus! {

/// A path that stands for one checked elsewhere.
pub const INTERNAL_VALIDATION_PATH: &'static str = "/validated/by/storage";

/// The same on Windows.
pub const WINDOWS_VALIDATION_PATH: &'static str = "C:\\validated\\by\\storage";

pub open spec fn path_fault(platform: Platform, path: Seq<char>, field: Seq<char>) -> Option<Fault> {
    first(
        text_fault(path, field),
        if is_absolute(platform, path) {
            None
        } else {
            Some(invalid_fault(field, "must be an absolute path"@))
        },
    )
}

pub fn absolute_path(platform: Platform, value: &str, field: &'static str) -> (r: Result<
    (),
    DomainError,
>)
    ensures
        answers(r, path_fault(platform, value@, field@)),
{
    non_empty(value, field)?;
    if !starts_at_root(platform, value) {
        return Err(DomainError::invalid(field, "must be an absolute path"));
    }
    Ok(())
}

/// The path that stands for one checked elsewhere, where this runs.
pub fn internal_validation_path(platform: Platform) -> (r: &'static str)
    ensures
        r@ == if platform.windows() {
            WINDOWS_VALIDATION_PATH@
        } else {
            INTERNAL_VALIDATION_PATH@
        },
        forall|field: Seq<char>| #[trigger] path_fault(platform, r@, field) is None,
{
    let path: &'static str = if platform.is_windows() {
        WINDOWS_VALIDATION_PATH
    } else {
        INTERNAL_VALIDATION_PATH
    };
    proof {
        reveal_strlit("/validated/by/storage");
        reveal_strlit("C:\\validated\\by\\storage");
        assert(!crate::text::is_whitespace_char(path@[0]));
        assert(!crate::text::blank(path@));
    }
    let absolute: bool = starts_at_root(platform, path);
    assert(absolute);
    path
}

/// Physical area in which a rollout is stored.
#[derive(Clone, Copy, Debug, PartialEq, Eq, Structural, Hash)]
pub enum SourceArea {
    Sessions,
    ArchivedSessions,
}

impl SourceArea {
    /// The stored name.
    pub open spec fn name(self) -> Seq<char> {
        match self {
            SourceArea::Sessions => "sessions"@,
            SourceArea::ArchivedSessions => "archived_sessions"@,
        }
    }

    pub fn as_str(self) -> (r: &'static str)
        ensures
            r@ == self.name(),
    {
        match self {
            SourceArea::Sessions => "sessions",
            SourceArea::ArchivedSessions => "archived_sessions",
        }
    }
}

impl TryFrom<&str> for SourceArea {
    type Error = DomainError;

    /// The variant of a stored name. Any other text is refused.
    fn try_from(value: &str) -> (r: Result<Self, DomainError>)
        ensures
            match r {
                Ok(variant) => variant.name() == value@,
                Err(error) => error@ == unknown_name_fault("source_area"@, value@) && forall|variant: SourceArea|
                    #[trigger] variant.name() != value@,
            },
    {
        if same_text(value, "sessions") {
            return Ok(SourceArea::Sessions);
        }
        if same_text(value, "archived_sessions") {
            return Ok(SourceArea::ArchivedSessions);
        }
        Err(unknown_name("source_area", value))
    }
}

impl TryFromSpecImpl<&str> for SourceArea {
    open spec fn obeys_try_from_spec() -> bool {
        false
    }

    open spec fn try_from_spec(value: &str) -> Result<Self, DomainError> {
        arbitrary()
    }
}

/// Two variants with one stored name are the same variant, so reading back a written name
/// gives the variant that was written.
pub proof fn law_source_area_names_differ(a: SourceArea, b: SourceArea)
    requires
        a.name() == b.name(),
    ensures
        a == b,
{
    reveal_strlit("sessions");
    reveal_strlit("archived_sessions");
    assert("sessions"@.len() != "archived_sessions"@.len());
}

/// Current observation of a physical rollout file.
#[derive(Clone, Copy, Debug, PartialEq, Eq, Structural, Hash)]
pub enum FileStatus {
    Present,
    Missing,
    Replaced,
}

impl FileStatus {
    /// The stored name.
    pub open spec fn name(self) -> Seq<char> {
        match self {
            FileStatus::Present => "present"@,
            FileStatus::Missing => "missing"@,
            FileStatus::Replaced => "replaced"@,
        }
    }

    pub fn as_str(self) -> (r: &'static str)
        ensures
            r@ == self.name(),
    {
        match self {
            FileStatus::Present => "present",
            FileStatus::Missing => "missing",
            FileStatus::Replaced => "replaced",
        }
    }
}

impl TryFrom<&str> for FileStatus {
    type Error = DomainError;

    /// The variant of a stored name. Any other text is refused.
    fn try_from(value: &str) -> (r: Result<Self, DomainError>)
        ensures
            match r {
                Ok(variant) => variant.name() == value@,
                Err(error) => error@ == unknown_name_fault("file_status"@, value@) && forall|variant: FileStatus|
                    #[trigger] variant.name() != value@,
            },
    {
        if same_text(value, "present") {
            return Ok(FileStatus::Present);
        }
        if same_text(value, "missing") {
            return Ok(FileStatus::Missing);
        }
        if same_text(value, "replaced") {
            return Ok(FileStatus::Replaced);
        }
        Err(unknown_name("file_status", value))
    }
}

impl TryFromSpecImpl<&str> for FileStatus {
    open spec fn obeys_try_from_spec() -> bool {
        false
    }

    open spec fn try_from_spec(value: &str) -> Result<Self, DomainError> {
        arbitrary()
    }
}

/// Two variants with one stored name are the same variant, so reading back a written name
/// gives the variant that was written.
pub proof fn law_file_status_names_differ(a: FileStatus, b: FileStatus)
    requires
        a.name() == b.name(),
    ensures
        a == b,
{
    reveal_strlit("present");
    reveal_strlit("missing");
    reveal_strlit("replaced");
    assert("present"@[0] != "missing"@[0]);
    assert("present"@.len() != "replaced"@.len());
    assert("missing"@.len() != "replaced"@.len());
}

/// A scan consumer owns its own checkpoint stream.
#[derive(Clone, Copy, Debug, PartialEq, Eq, Structural, Hash)]
pub enum ConsumerKind {
    Metadata,
    Usage,
}

impl ConsumerKind {
    /// The stored name.
    pub open spec fn name(self) -> Seq<char> {
        match self {
            ConsumerKind::Metadata => "metadata"@,
            ConsumerKind::Usage => "usage"@,
        }
    }

    pub fn as_str(self) -> (r: &'static str)
        ensures
            r@ == self.name(),
    {
        match self {
            ConsumerKind::Metadata => "metadata",
            ConsumerKind::Usage => "usage",
        }
    }
}

impl TryFrom<&str> for ConsumerKind {
    type Error = DomainError;

    /// The variant of a stored name. Any other text is refused.
    fn try_from(value: &str) -> (r: Result<Self, DomainError>)
        ensures
            match r {
                Ok(variant) => variant.name() == value@,
                Err(error) => error@ == unknown_name_fault("consumer_kind"@, value@) && forall|variant: ConsumerKind|
                    #[trigger] variant.name() != value@,
            },
    {
        if same_text(value, "metadata") {
            return Ok(ConsumerKind::Metadata);
        }
        if same_text(value, "usage") {
            return Ok(ConsumerKind::Usage);
        }
        Err(unknown_name("consumer_kind", value))
    }
}

impl TryFromSpecImpl<&str> for ConsumerKind {
    open spec fn obeys_try_from_spec() -> bool {
        false
    }

    open spec fn try_from_spec(value: &str) -> Result<Self, DomainError> {
        arbitrary()
    }
}

/// Two variants with one stored name are the same variant, so reading back a written name
/// gives the variant that was written.
pub proof fn law_consumer_kind_names_differ(a: ConsumerKind, b: ConsumerKind)
    requires
        a.name() == b.name(),
    ensures
        a == b,
{
    reveal_strlit("metadata");
    reveal_strlit("usage");
    assert("metadata"@.len() != "usage"@.len());
}

/// Processing state of one consumer's checkpoint.
#[derive(Clone, Copy, Debug, PartialEq, Eq, Structural, Hash)]
pub enum CheckpointProcessingStatus {
    Pending,
    Ready,
    RebuildRequired,
    Error,
}

impl CheckpointProcessingStatus {
    /// The stored name.
    pub open spec fn name(self) -> Seq<char> {
        match self {
            CheckpointProcessingStatus::Pending => "pending"@,
            CheckpointProcessingStatus::Ready => "ready"@,
            CheckpointProcessingStatus::RebuildRequired => "rebuild_required"@,
            CheckpointProcessingStatus::Error => "error"@,
        }
    }

    pub fn as_str(self) -> (r: &'static str)
        ensures
            r@ == self.name(),
    {
        match self {
            CheckpointProcessingStatus::Pending => "pending",
            CheckpointProcessingStatus::Ready => "ready",
            CheckpointProcessingStatus::RebuildRequired => "rebuild_required",
            CheckpointProcessingStatus::Error => "error",
        }
    }
}

impl TryFrom<&str> for CheckpointProcessingStatus {
    type Error = DomainError;

    /// The variant of a stored name. Any other text is refused.
    fn try_from(value: &str) -> (r: Result<Self, DomainError>)
        ensures
            match r {
                Ok(variant) => variant.name() == value@,
                Err(error) => error@ == unknown_name_fault("processing_status"@, value@) && forall|variant: CheckpointProcessingStatus|
                    #[trigger] variant.name() != value@,
            },
    {
        if same_text(value, "pending") {
            return Ok(CheckpointProcessingStatus::Pending);
        }
        if same_text(value, "ready") {
            return Ok(CheckpointProcessingStatus::Ready);
        }
        if same_text(value, "rebuild_required") {
            return Ok(CheckpointProcessingStatus::RebuildRequired);
        }
        if same_text(value, "error") {
            return Ok(CheckpointProcessingStatus::Error);
        }
        Err(unknown_name("processing_status", value))
    }
}

impl TryFromSpecImpl<&str> for CheckpointProcessingStatus {
    open spec fn obeys_try_from_spec() -> bool {
        false
    }

    open spec fn try_from_spec(value: &str) -> Result<Self, DomainError> {
        arbitrary()
    }
}

/// Two variants with one stored name are the same variant, so reading back a written name
/// gives the variant that was written.
pub proof fn law_checkpoint_processing_status_names_differ(a: CheckpointProcessingStatus, b: CheckpointProcessingStatus)
    requires
        a.name() == b.name(),
    ensures
        a == b,
{
    reveal_strlit("pending");
    reveal_strlit("ready");
    reveal_strlit("rebuild_required");
    reveal_strlit("error");
    assert("pending"@.len() != "ready"@.len());
    assert("pending"@.len() != "rebuild_required"@.len());
    assert("pending"@.len() != "error"@.len());
    assert("ready"@.len() != "rebuild_required"@.len());
    assert("ready"@[0] != "error"@[0]);
    assert("rebuild_required"@.len() != "error"@.len());
}

/// What an observation did to a usage build under way.
#[derive(Clone, Copy, Debug, PartialEq, Eq, Structural, Hash)]
pub enum BuildDisposition {
    Unchanged,
    MemberAdded,
    CompletionInvalidated,
    CarryResumedPresent,
    Replaced,
}

impl BuildDisposition {
    /// The stored name.
    pub open spec fn name(self) -> Seq<char> {
        match self {
            BuildDisposition::Unchanged => "unchanged"@,
            BuildDisposition::MemberAdded => "member_added"@,
            BuildDisposition::CompletionInvalidated => "completion_invalidated"@,
            BuildDisposition::CarryResumedPresent => "carry_resumed_present"@,
            BuildDisposition::Replaced => "replaced"@,
        }
    }

    pub fn as_str(self) -> (r: &'static str)
        ensures
            r@ == self.name(),
    {
        match self {
            BuildDisposition::Unchanged => "unchanged",
            BuildDisposition::MemberAdded => "member_added",
            BuildDisposition::CompletionInvalidated => "completion_invalidated",
            BuildDisposition::CarryResumedPresent => "carry_resumed_present",
            BuildDisposition::Replaced => "replaced",
        }
    }
}

impl TryFrom<&str> for BuildDisposition {
    type Error = DomainError;

    /// The variant of a stored name. Any other text is refused.
    fn try_from(value: &str) -> (r: Result<Self, DomainError>)
        ensures
            match r {
                Ok(variant) => variant.name() == value@,
                Err(error) => error@ == unknown_name_fault("build_disposition"@, value@) && forall|variant: BuildDisposition|
                    #[trigger] variant.name() != value@,
            },
    {
        if same_text(value, "unchanged") {
            return Ok(BuildDisposition::Unchanged);
        }
        if same_text(value, "member_added") {
            return Ok(BuildDisposition::MemberAdded);
        }
        if same_text(value, "completion_invalidated") {
            return Ok(BuildDisposition::CompletionInvalidated);
        }
        if same_text(value, "carry_resumed_present") {
            return Ok(BuildDisposition::CarryResumedPresent);
        }
        if same_text(value, "replaced") {
            return Ok(BuildDisposition::Replaced);
        }
        Err(unknown_name("build_disposition", value))
    }
}

impl TryFromSpecImpl<&str> for BuildDisposition {
    open spec fn obeys_try_from_spec() -> bool {
        false
    }

    open spec fn try_from_spec(value: &str) -> Result<Self, DomainError> {
        arbitrary()
    }
}

/// Two variants with one stored name are the same variant, so reading back a written name
/// gives the variant that was written.
pub proof fn law_build_disposition_names_differ(a: BuildDisposition, b: BuildDisposition)
    requires
        a.name() == b.name(),
    ensures
        a == b,
{
    reveal_strlit("unchanged");
    reveal_strlit("member_added");
    reveal_strlit("completion_invalidated");
    reveal_strlit("carry_resumed_present");
    reveal_strlit("replaced");
    assert("unchanged"@.len() != "member_added"@.len());
    assert("unchanged"@.len() != "completion_invalidated"@.len());
    assert("unchanged"@.len() != "carry_resumed_present"@.len());
    assert("unchanged"@.len() != "replaced"@.len());
    assert("member_added"@.len() != "completion_invalidated"@.len());
    assert("member_added"@.len() != "carry_resumed_present"@.len());
    assert("member_added"@.len() != "replaced"@.len());
    assert("completion_invalidated"@.len() != "carry_resumed_present"@.len());
    assert("completion_invalidated"@.len() != "replaced"@.len());
    assert("carry_resumed_present"@.len() != "replaced"@.len());
}

/// From where a safe fact may be resumed.
#[derive(Clone, Copy, Debug, PartialEq, Eq, Structural, Hash)]
pub enum ContinuationState {
    ReplayedAncestor,
    OwningLive,
    Unstable,
}

impl ContinuationState {
    /// The stored name.
    pub open spec fn name(self) -> Seq<char> {
        match self {
            ContinuationState::ReplayedAncestor => "replayed_ancestor"@,
            ContinuationState::OwningLive => "owning_live"@,
            ContinuationState::Unstable => "unstable"@,
        }
    }

    pub fn as_str(self) -> (r: &'static str)
        ensures
            r@ == self.name(),
    {
        match self {
            ContinuationState::ReplayedAncestor => "replayed_ancestor",
            ContinuationState::OwningLive => "owning_live",
            ContinuationState::Unstable => "unstable",
        }
    }
}

impl TryFrom<&str> for ContinuationState {
    type Error = DomainError;

    /// The variant of a stored name. Any other text is refused.
    fn try_from(value: &str) -> (r: Result<Self, DomainError>)
        ensures
            match r {
                Ok(variant) => variant.name() == value@,
                Err(error) => error@ == unknown_name_fault("continuation_state"@, value@) && forall|variant: ContinuationState|
                    #[trigger] variant.name() != value@,
            },
    {
        if same_text(value, "replayed_ancestor") {
            return Ok(ContinuationState::ReplayedAncestor);
        }
        if same_text(value, "owning_live") {
            return Ok(ContinuationState::OwningLive);
        }
        if same_text(value, "unstable") {
            return Ok(ContinuationState::Unstable);
        }
        Err(unknown_name("continuation_state", value))
    }
}

impl TryFromSpecImpl<&str> for ContinuationState {
    open spec fn obeys_try_from_spec() -> bool {
        false
    }

    open spec fn try_from_spec(value: &str) -> Result<Self, DomainError> {
        arbitrary()
    }
}

/// Two variants with one stored name are the same variant, so reading back a written name
/// gives the variant that was written.
pub proof fn law_continuation_state_names_differ(a: ContinuationState, b: ContinuationState)
    requires
        a.name() == b.name(),
    ensures
        a == b,
{
    reveal_strlit("replayed_ancestor");
    reveal_strlit("owning_live");
    reveal_strlit("unstable");
    assert("replayed_ancestor"@.len() != "owning_live"@.len());
    assert("replayed_ancestor"@.len() != "unstable"@.len());
    assert("owning_live"@.len() != "unstable"@.len());
}

/// How sure the owning thread is.
#[derive(Clone, Copy, Debug, PartialEq, Eq, Structural, Hash)]
pub enum OwnershipConfidence {
    Confirmed,
    Unresolved,
}

impl OwnershipConfidence {
    /// The stored name.
    pub open spec fn name(self) -> Seq<char> {
        match self {
            OwnershipConfidence::Confirmed => "confirmed"@,
            OwnershipConfidence::Unresolved => "unresolved"@,
        }
    }

    pub fn as_str(self) -> (r: &'static str)
        ensures
            r@ == self.name(),
    {
        match self {
            OwnershipConfidence::Confirmed => "confirmed",
            OwnershipConfidence::Unresolved => "unresolved",
        }
    }
}

impl TryFrom<&str> for OwnershipConfidence {
    type Error = DomainError;

    /// The variant of a stored name. Any other text is refused.
    fn try_from(value: &str) -> (r: Result<Self, DomainError>)
        ensures
            match r {
                Ok(variant) => variant.name() == value@,
                Err(error) => error@ == unknown_name_fault("ownership_confidence"@, value@) && forall|variant: OwnershipConfidence|
                    #[trigger] variant.name() != value@,
            },
    {
        if same_text(value, "confirmed") {
            return Ok(OwnershipConfidence::Confirmed);
        }
        if same_text(value, "unresolved") {
            return Ok(OwnershipConfidence::Unresolved);
        }
        Err(unknown_name("ownership_confidence", value))
    }
}

impl TryFromSpecImpl<&str> for OwnershipConfidence {
    open spec fn obeys_try_from_spec() -> bool {
        false
    }

    open spec fn try_from_spec(value: &str) -> Result<Self, DomainError> {
        arbitrary()
    }
}

/// Two variants with one stored name are the same variant, so reading back a written name
/// gives the variant that was written.
pub proof fn law_ownership_confidence_names_differ(a: OwnershipConfidence, b: OwnershipConfidence)
    requires
        a.name() == b.name(),
    ensures
        a == b,
{
    reveal_strlit("confirmed");
    reveal_strlit("unresolved");
    assert("confirmed"@.len() != "unresolved"@.len());
}

/// How good a safe fact is.
#[derive(Clone, Copy, Debug, PartialEq, Eq, Structural, Hash)]
pub enum FactQualityStatus {
    Complete,
    Partial,
    Conflict,
}

impl FactQualityStatus {
    /// The stored name.
    pub open spec fn name(self) -> Seq<char> {
        match self {
            FactQualityStatus::Complete => "complete"@,
            FactQualityStatus::Partial => "partial"@,
            FactQualityStatus::Conflict => "conflict"@,
        }
    }

    pub fn as_str(self) -> (r: &'static str)
        ensures
            r@ == self.name(),
    {
        match self {
            FactQualityStatus::Complete => "complete",
            FactQualityStatus::Partial => "partial",
            FactQualityStatus::Conflict => "conflict",
        }
    }
}

impl TryFrom<&str> for FactQualityStatus {
    type Error = DomainError;

    /// The variant of a stored name. Any other text is refused.
    fn try_from(value: &str) -> (r: Result<Self, DomainError>)
        ensures
            match r {
                Ok(variant) => variant.name() == value@,
                Err(error) => error@ == unknown_name_fault("fact_quality_status"@, value@) && forall|variant: FactQualityStatus|
                    #[trigger] variant.name() != value@,
            },
    {
        if same_text(value, "complete") {
            return Ok(FactQualityStatus::Complete);
        }
        if same_text(value, "partial") {
            return Ok(FactQualityStatus::Partial);
        }
        if same_text(value, "conflict") {
            return Ok(FactQualityStatus::Conflict);
        }
        Err(unknown_name("fact_quality_status", value))
    }
}

impl TryFromSpecImpl<&str> for FactQualityStatus {
    open spec fn obeys_try_from_spec() -> bool {
        false
    }

    open spec fn try_from_spec(value: &str) -> Result<Self, DomainError> {
        arbitrary()
    }
}

/// Two variants with one stored name are the same variant, so reading back a written name
/// gives the variant that was written.
pub proof fn law_fact_quality_status_names_differ(a: FactQualityStatus, b: FactQualityStatus)
    requires
        a.name() == b.name(),
    ensures
        a == b,
{
    reveal_strlit("complete");
    reveal_strlit("partial");
    reveal_strlit("conflict");
    assert("complete"@.len() != "partial"@.len());
    assert("complete"@[2] != "conflict"@[2]);
    assert("partial"@.len() != "conflict"@.len());
}

/// Where a working directory was read.
#[derive(Clone, Copy, Debug, PartialEq, Eq, Structural, Hash)]
pub enum CwdProvenance {
    SessionMeta,
    TurnContext,
}

impl CwdProvenance {
    /// The stored name.
    pub open spec fn name(self) -> Seq<char> {
        match self {
            CwdProvenance::SessionMeta => "session_meta"@,
            CwdProvenance::TurnContext => "turn_context"@,
        }
    }

    pub fn as_str(self) -> (r: &'static str)
        ensures
            r@ == self.name(),
    {
        match self {
            CwdProvenance::SessionMeta => "session_meta",
            CwdProvenance::TurnContext => "turn_context",
        }
    }
}

impl TryFrom<&str> for CwdProvenance {
    type Error = DomainError;

    /// The variant of a stored name. Any other text is refused.
    fn try_from(value: &str) -> (r: Result<Self, DomainError>)
        ensures
            match r {
                Ok(variant) => variant.name() == value@,
                Err(error) => error@ == unknown_name_fault("cwd_provenance"@, value@) && forall|variant: CwdProvenance|
                    #[trigger] variant.name() != value@,
            },
    {
        if same_text(value, "session_meta") {
            return Ok(CwdProvenance::SessionMeta);
        }
        if same_text(value, "turn_context") {
            return Ok(CwdProvenance::TurnContext);
        }
        Err(unknown_name("cwd_provenance", value))
    }
}

impl TryFromSpecImpl<&str> for CwdProvenance {
    open spec fn obeys_try_from_spec() -> bool {
        false
    }

    open spec fn try_from_spec(value: &str) -> Result<Self, DomainError> {
        arbitrary()
    }
}

/// Two variants with one stored name are the same variant, so reading back a written name
/// gives the variant that was written.
pub proof fn law_cwd_provenance_names_differ(a: CwdProvenance, b: CwdProvenance)
    requires
        a.name() == b.name(),
    ensures
        a == b,
{
    reveal_strlit("session_meta");
    reveal_strlit("turn_context");
    assert("session_meta"@[0] != "turn_context"@[0]);
}

/// Where a parent hint was read.
#[derive(Clone, Copy, Debug, PartialEq, Eq, Structural, Hash)]
pub enum ParentHintProvenance {
    SessionMetaParent,
    SubagentSource,
    ForkedFromId,
}

impl ParentHintProvenance {
    /// The stored name.
    pub open spec fn name(self) -> Seq<char> {
        match self {
            ParentHintProvenance::SessionMetaParent => "session_meta_parent"@,
            ParentHintProvenance::SubagentSource => "subagent_source"@,
            ParentHintProvenance::ForkedFromId => "forked_from_id"@,
        }
    }

    pub fn as_str(self) -> (r: &'static str)
        ensures
            r@ == self.name(),
    {
        match self {
            ParentHintProvenance::SessionMetaParent => "session_meta_parent",
            ParentHintProvenance::SubagentSource => "subagent_source",
            ParentHintProvenance::ForkedFromId => "forked_from_id",
        }
    }
}

impl TryFrom<&str> for ParentHintProvenance {
    type Error = DomainError;

    /// The variant of a stored name. Any other text is refused.
    fn try_from(value: &str) -> (r: Result<Self, DomainError>)
        ensures
            match r {
                Ok(variant) => variant.name() == value@,
                Err(error) => error@ == unknown_name_fault("parent_hint_provenance"@, value@) && forall|variant: ParentHintProvenance|
                    #[trigger] variant.name() != value@,
            },
    {
        if same_text(value, "session_meta_parent") {
            return Ok(ParentHintProvenance::SessionMetaParent);
        }
        if same_text(value, "subagent_source") {
            return Ok(ParentHintProvenance::SubagentSource);
        }
        if same_text(value, "forked_from_id") {
            return Ok(ParentHintProvenance::ForkedFromId);
        }
        Err(unknown_name("parent_hint_provenance", value))
    }
}

impl TryFromSpecImpl<&str> for ParentHintProvenance {
    open spec fn obeys_try_from_spec() -> bool {
        false
    }

    open spec fn try_from_spec(value: &str) -> Result<Self, DomainError> {
        arbitrary()
    }
}

/// Two variants with one stored name are the same variant, so reading back a written name
/// gives the variant that was written.
pub proof fn law_parent_hint_provenance_names_differ(a: ParentHintProvenance, b: ParentHintProvenance)
    requires
        a.name() == b.name(),
    ensures
        a == b,
{
    reveal_strlit("session_meta_parent");
    reveal_strlit("subagent_source");
    reveal_strlit("forked_from_id");
    assert("session_meta_parent"@.len() != "subagent_source"@.len());
    assert("session_meta_parent"@.len() != "forked_from_id"@.len());
    assert("subagent_source"@.len() != "forked_from_id"@.len());
}

/// Where an agent role was read.
#[derive(Clone, Copy, Debug, PartialEq, Eq, Structural, Hash)]
pub enum AgentRoleProvenance {
    SessionMetaRole,
    SubagentSource,
}

impl AgentRoleProvenance {
    /// The stored name.
    pub open spec fn name(self) -> Seq<char> {
        match self {
            AgentRoleProvenance::SessionMetaRole => "session_meta_role"@,
            AgentRoleProvenance::SubagentSource => "subagent_source"@,
        }
    }

    pub fn as_str(self) -> (r: &'static str)
        ensures
            r@ == self.name(),
    {
        match self {
            AgentRoleProvenance::SessionMetaRole => "session_meta_role",
            AgentRoleProvenance::SubagentSource => "subagent_source",
        }
    }
}

impl TryFrom<&str> for AgentRoleProvenance {
    type Error = DomainError;

    /// The variant of a stored name. Any other text is refused.
    fn try_from(value: &str) -> (r: Result<Self, DomainError>)
        ensures
            match r {
                Ok(variant) => variant.name() == value@,
                Err(error) => error@ == unknown_name_fault("agent_role_provenance"@, value@) && forall|variant: AgentRoleProvenance|
                    #[trigger] variant.name() != value@,
            },
    {
        if same_text(value, "session_meta_role") {
            return Ok(AgentRoleProvenance::SessionMetaRole);
        }
        if same_text(value, "subagent_source") {
            return Ok(AgentRoleProvenance::SubagentSource);
        }
        Err(unknown_name("agent_role_provenance", value))
    }
}

impl TryFromSpecImpl<&str> for AgentRoleProvenance {
    open spec fn obeys_try_from_spec() -> bool {
        false
    }

    open spec fn try_from_spec(value: &str) -> Result<Self, DomainError> {
        arbitrary()
    }
}

/// Two variants with one stored name are the same variant, so reading back a written name
/// gives the variant that was written.
pub proof fn law_agent_role_provenance_names_differ(a: AgentRoleProvenance, b: AgentRoleProvenance)
    requires
        a.name() == b.name(),
    ensures
        a == b,
{
    reveal_strlit("session_meta_role");
    reveal_strlit("subagent_source");
    assert("session_meta_role"@.len() != "subagent_source"@.len());
}

/// Where an agent path was read.
#[derive(Clone, Copy, Debug, PartialEq, Eq, Structural, Hash)]
pub enum AgentPathProvenance {
    SessionMeta,
    ThreadSpawn,
}

impl AgentPathProvenance {
    /// The stored name.
    pub open spec fn name(self) -> Seq<char> {
        match self {
            AgentPathProvenance::SessionMeta => "session_meta"@,
            AgentPathProvenance::ThreadSpawn => "thread_spawn"@,
        }
    }

    pub fn as_str(self) -> (r: &'static str)
        ensures
            r@ == self.name(),
    {
        match self {
            AgentPathProvenance::SessionMeta => "session_meta",
            AgentPathProvenance::ThreadSpawn => "thread_spawn",
        }
    }
}

impl TryFrom<&str> for AgentPathProvenance {
    type Error = DomainError;

    /// The variant of a stored name. Any other text is refused.
    fn try_from(value: &str) -> (r: Result<Self, DomainError>)
        ensures
            match r {
                Ok(variant) => variant.name() == value@,
                Err(error) => error@ == unknown_name_fault("agent_path_provenance"@, value@) && forall|variant: AgentPathProvenance|
                    #[trigger] variant.name() != value@,
            },
    {
        if same_text(value, "session_meta") {
            return Ok(AgentPathProvenance::SessionMeta);
        }
        if same_text(value, "thread_spawn") {
            return Ok(AgentPathProvenance::ThreadSpawn);
        }
        Err(unknown_name("agent_path_provenance", value))
    }
}

impl TryFromSpecImpl<&str> for AgentPathProvenance {
    open spec fn obeys_try_from_spec() -> bool {
        false
    }

    open spec fn try_from_spec(value: &str) -> Result<Self, DomainError> {
        arbitrary()
    }
}

/// Two variants with one stored name are the same variant, so reading back a written name
/// gives the variant that was written.
pub proof fn law_agent_path_provenance_names_differ(a: AgentPathProvenance, b: AgentPathProvenance)
    requires
        a.name() == b.name(),
    ensures
        a == b,
{
    reveal_strlit("session_meta");
    reveal_strlit("thread_spawn");
    assert("session_meta"@[0] != "thread_spawn"@[0]);
}

/// Whether one rollout directory was completely enumerated. Only a complete area is evidence
/// that an absent source is missing.
#[derive(Clone, Debug, PartialEq, Eq)]
pub enum SourceRegionStatus {
    Complete,
    Unavailable(String),
}

impl SourceRegionStatus {
    pub open spec fn fault(self) -> Option<Fault> {
        match self {
            SourceRegionStatus::Complete => None,
            SourceRegionStatus::Unavailable(code) => code_fault(code@, "region error code"@),
        }
    }

    pub fn unavailable(error_code: &str) -> (r: Result<Self, DomainError>)
        ensures
            answers(r, code_fault(error_code@, "region error code"@)),
            r matches Ok(status) ==> (status matches SourceRegionStatus::Unavailable(code) && code@
                == error_code@),
    {
        safe_code(error_code, "region error code")?;
        Ok(SourceRegionStatus::Unavailable(error_code.to_owned()))
    }

    pub fn validate(&self) -> (r: Result<(), DomainError>)
        ensures
            answers(r, self.fault()),
    {
        match self {
            SourceRegionStatus::Complete => Ok(()),
            SourceRegionStatus::Unavailable(code) => safe_code(code.as_str(), "region error code"),
        }
    }

    pub fn is_complete(&self) -> (r: bool)
        ensures
            r == (self is Complete),
    {
        match self {
            SourceRegionStatus::Complete => true,
            SourceRegionStatus::Unavailable(_) => false,
        }
    }
}

/// Why a persisted source fact cannot safely be used by the resolver.
#[derive(Clone, Copy, Debug, PartialEq, Eq, Structural)]
pub enum SafeFactMismatchReason {
    MissingCheckpoint,
    SourceMissing,
    GenerationMismatch,
    ParserVersionMismatch,
    OffsetMismatch,
    BindingMismatch,
    OwningThreadMismatch,
    ContinuationUnstable,
    InvalidFact,
}

/// What is known of the safe fact of a source.
#[derive(Clone, Debug, PartialEq, Eq)]
pub enum SafeFactState {
    Absent,
    Matching(RolloutMetadataFact),
    Stale(SafeFactMismatchReason),
}

/// The stored state of one physical rollout file.
#[derive(Clone, Debug, PartialEq, Eq)]
pub struct SourceFileState {
    /// Whose path `current_path` is.
    pub platform: Platform,
    pub source_file_id: i64,
    pub thread_id: Option<String>,
    pub current_path: String,
    pub source_area: SourceArea,
    pub device_id: i64,
    pub inode: i64,
    pub file_generation: i64,
    pub observed_size: i64,
    pub observed_mtime_ns: i64,
    pub file_status: FileStatus,
    pub last_seen_at_ms: i64,
}

impl SourceFileState {
    pub open spec fn fault(self) -> Option<Fault> {
        first(
            positive_fault(self.source_file_id, "source_file_id"@),
            first(
                optional_text_fault(self.thread_id.deep_view(), "thread_id"@),
                first(
                    path_fault(self.platform, self.current_path@, "current_path"@),
                    first(
                        non_negative_fault(self.device_id, "device_id"@),
                        first(
                            non_negative_fault(self.inode, "inode"@),
                            first(
                                positive_fault(self.file_generation, "file_generation"@),
                                first(
                                    non_negative_fault(self.observed_size, "observed_size"@),
                                    first(
                                        non_negative_fault(
                                            self.observed_mtime_ns,
                                            "observed_mtime_ns"@,
                                        ),
                                        non_negative_fault(
                                            self.last_seen_at_ms,
                                            "last_seen_at_ms"@,
                                        ),
                                    ),
                                ),
                            ),
                        ),
                    ),
                ),
            ),
        )
    }

    pub fn new(
        platform: Platform,
        source_file_id: i64,
        thread_id: Option<String>,
        current_path: String,
        source_area: SourceArea,
        device_id: i64,
        inode: i64,
        file_generation: i64,
        observed_size: i64,
        observed_mtime_ns: i64,
        file_status: FileStatus,
        last_seen_at_ms: i64,
    ) -> (r: Result<Self, DomainError>)
        ensures
            ({
                let value = SourceFileState {
                    platform,
                    source_file_id,
                    thread_id,
                    current_path,
                    source_area,
                    device_id,
                    inode,
                    file_generation,
                    observed_size,
                    observed_mtime_ns,
                    file_status,
                    last_seen_at_ms,
                };
                answers(r, value.fault()) && (r is Ok ==> r->Ok_0 == value)
            }),
    {
        let value: SourceFileState = SourceFileState {
            platform,
            source_file_id,
            thread_id,
            current_path,
            source_area,
            device_id,
            inode,
            file_generation,
            observed_size,
            observed_mtime_ns,
            file_status,
            last_seen_at_ms,
        };
        value.validate()?;
        Ok(value)
    }

    pub fn try_new(
        platform: Platform,
        source_file_id: i64,
        thread_id: Option<String>,
        current_path: String,
        source_area: SourceArea,
        device_id: i64,
        inode: i64,
        file_generation: i64,
        observed_size: i64,
        observed_mtime_ns: i64,
        file_status: FileStatus,
        last_seen_at_ms: i64,
    ) -> (r: Result<Self, DomainError>)
        ensures
            ({
                let value = SourceFileState {
                    platform,
                    source_file_id,
                    thread_id,
                    current_path,
                    source_area,
                    device_id,
                    inode,
                    file_generation,
                    observed_size,
                    observed_mtime_ns,
                    file_status,
                    last_seen_at_ms,
                };
                answers(r, value.fault()) && (r is Ok ==> r->Ok_0 == value)
            }),
    {
        SourceFileState::new(
            platform,
            source_file_id,
            thread_id,
            current_path,
            source_area,
            device_id,
            inode,
            file_generation,
            observed_size,
            observed_mtime_ns,
            file_status,
            last_seen_at_ms,
        )
    }

    pub fn validate(&self) -> (r: Result<(), DomainError>)
        ensures
            answers(r, self.fault()),
    {
        positive(self.source_file_id, "source_file_id")?;
        optional_non_empty(&self.thread_id, "thread_id")?;
        absolute_path(self.platform, self.current_path.as_str(), "current_path")?;
        non_negative(self.device_id, "device_id")?;
        non_negative(self.inode, "inode")?;
        positive(self.file_generation, "file_generation")?;
        non_negative(self.observed_size, "observed_size")?;
        non_negative(self.observed_mtime_ns, "observed_mtime_ns")?;
        non_negative(self.last_seen_at_ms, "last_seen_at_ms")
    }
}

/// One file metadata observation. Generation and source id are assigned from the physical
/// identity when it is recorded.
#[derive(Clone, Debug, PartialEq, Eq)]
pub struct SourceObservation {
    /// Whose path `current_path` is.
    pub platform: Platform,
    pub current_path: String,
    pub source_area: SourceArea,
    pub device_id: i64,
    pub inode: i64,
    pub observed_size: i64,
    pub observed_mtime_ns: i64,
    pub last_seen_at_ms: i64,
}

impl SourceObservation {
    pub open spec fn fault(self) -> Option<Fault> {
        first(
            path_fault(self.platform, self.current_path@, "current_path"@),
            first(
                non_negative_fault(self.device_id, "device_id"@),
                first(
                    non_negative_fault(self.inode, "inode"@),
                    first(
                        non_negative_fault(self.observed_size, "observed_size"@),
                        first(
                            non_negative_fault(self.observed_mtime_ns, "observed_mtime_ns"@),
                            non_negative_fault(self.last_seen_at_ms, "last_seen_at_ms"@),
                        ),
                    ),
                ),
            ),
        )
    }

    pub fn new(
        platform: Platform,
        current_path: String,
        source_area: SourceArea,
        device_id: i64,
        inode: i64,
        observed_size: i64,
        observed_mtime_ns: i64,
        last_seen_at_ms: i64,
    ) -> (r: Result<Self, DomainError>)
        ensures
            ({
                let value = SourceObservation {
                    platform,
                    current_path,
                    source_area,
                    device_id,
                    inode,
                    observed_size,
                    observed_mtime_ns,
                    last_seen_at_ms,
                };
                answers(r, value.fault()) && (r is Ok ==> r->Ok_0 == value)
            }),
    {
        let value: SourceObservation = SourceObservation {
            platform,
            current_path,
            source_area,
            device_id,
            inode,
            observed_size,
            observed_mtime_ns,
            last_seen_at_ms,
        };
        value.validate()?;
        Ok(value)
    }

    pub fn validate(&self) -> (r: Result<(), DomainError>)
        ensures
            answers(r, self.fault()),
    {
        absolute_path(self.platform, self.current_path.as_str(), "current_path")?;
        non_negative(self.device_id, "device_id")?;
        non_negative(self.inode, "inode")?;
        non_negative(self.observed_size, "observed_size")?;
        non_negative(self.observed_mtime_ns, "observed_mtime_ns")?;
        non_negative(self.last_seen_at_ms, "last_seen_at_ms")
    }

    pub fn try_new(
        platform: Platform,
        current_path: String,
        source_area: SourceArea,
        device_id: i64,
        inode: i64,
        observed_size: i64,
        observed_mtime_ns: i64,
        last_seen_at_ms: i64,
    ) -> (r: Result<Self, DomainError>)
        ensures
            ({
                let value = SourceObservation {
                    platform,
                    current_path,
                    source_area,
                    device_id,
                    inode,
                    observed_size,
                    observed_mtime_ns,
                    last_seen_at_ms,
                };
                answers(r, value.fault()) && (r is Ok ==> r->Ok_0 == value)
            }),
    {
        SourceObservation::new(
            platform,
            current_path,
            source_area,
            device_id,
            inode,
            observed_size,
            observed_mtime_ns,
            last_seen_at_ms,
        )
    }
}

/// The input of one observation pass.
#[derive(Clone, Debug, PartialEq, Eq)]
pub struct SourceObservationBatch {
    pub observations: Vec<SourceObservation>,
    pub sessions: SourceRegionStatus,
    pub archived_sessions: SourceRegionStatus,
}

/// Some earlier observation has the same path.
pub open spec fn path_seen(observations: Seq<SourceObservation>, i: int) -> bool {
    exists|j: int|
        0 <= j < i && (#[trigger] observations[j]).current_path@ == observations[i].current_path@
}

/// Some earlier observation is of the same physical file.
pub open spec fn identity_seen(observations: Seq<SourceObservation>, i: int) -> bool {
    exists|j: int|
        0 <= j < i && (#[trigger] observations[j]).device_id == observations[i].device_id
            && observations[j].inode == observations[i].inode
}

pub open spec fn observation_fault(observations: Seq<SourceObservation>, i: int) -> Option<Fault> {
    first(
        observations[i].fault(),
        if path_seen(observations, i) {
            Some(
                Fault::DuplicateId { kind: "source path"@, id: observations[i].current_path@ },
            )
        } else if identity_seen(observations, i) {
            Some(
                violation_fault(
                    "one observation batch cannot repeat a physical source identity"@,
                ),
            )
        } else {
            None
        },
    )
}

/// The first fault among the first `n` observations.
pub open spec fn observations_fault(observations: Seq<SourceObservation>, n: nat) -> Option<Fault>
    decreases n,
{
    if n == 0 {
        None
    } else {
        first(
            observations_fault(observations, (n - 1) as nat),
            observation_fault(observations, n - 1),
        )
    }
}

proof fn lemma_observations_fault_stays(observations: Seq<SourceObservation>, n: nat, m: nat)
    requires
        n <= m,
        observations_fault(observations, n) is Some,
    ensures
        observations_fault(observations, m) == observations_fault(observations, n),
    decreases m,
{
    if n < m {
        lemma_observations_fault_stays(observations, n, (m - 1) as nat);
    }
}

impl SourceObservationBatch {
    pub open spec fn fault(self) -> Option<Fault> {
        first(
            self.sessions.fault(),
            first(
                self.archived_sessions.fault(),
                observations_fault(self.observations@, self.observations@.len()),
            ),
        )
    }

    pub fn new(
        observations: Vec<SourceObservation>,
        sessions: SourceRegionStatus,
        archived_sessions: SourceRegionStatus,
    ) -> (r: Result<Self, DomainError>)
        ensures
            ({
                let value = SourceObservationBatch { observations, sessions, archived_sessions };
                answers(r, value.fault()) && (r is Ok ==> r->Ok_0 == value)
            }),
    {
        let value: SourceObservationBatch = SourceObservationBatch {
            observations,
            sessions,
            archived_sessions,
        };
        value.validate()?;
        Ok(value)
    }

    pub fn validate(&self) -> (r: Result<(), DomainError>)
        ensures
            answers(r, self.fault()),
    {
        self.sessions.validate()?;
        self.archived_sessions.validate()?;
        let observations: &Vec<SourceObservation> = &self.observations;
        let mut i: usize = 0;
        while i < observations.len()
            invariant
                observations == self.observations,
                self.sessions.fault() is None,
                self.archived_sessions.fault() is None,
                i <= observations.len(),
                observations_fault(observations@, i as nat) is None,
            decreases observations.len() - i,
        {
            proof {
                if observations_fault(observations@, (i + 1) as nat) is Some {
                    lemma_observations_fault_stays(
                        observations@,
                        (i + 1) as nat,
                        observations@.len(),
                    );
                }
            }
            observations[i].validate()?;
            let mut path_repeats: bool = false;
            let mut identity_repeats: bool = false;
            let mut j: usize = 0;
            while j < i
                invariant
                    j <= i < observations.len(),
                    path_repeats == exists|k: int|
                        0 <= k < j && (#[trigger] observations@[k]).current_path@
                            == observations@[i as int].current_path@,
                    identity_repeats == exists|k: int|
                        0 <= k < j && (#[trigger] observations@[k]).device_id
                            == observations@[i as int].device_id && observations@[k].inode
                            == observations@[i as int].inode,
                decreases i - j,
            {
                if observations[j].current_path == observations[i].current_path {
                    path_repeats = true;
                }
                if observations[j].device_id == observations[i].device_id && observations[j].inode
                    == observations[i].inode {
                    identity_repeats = true;
                }
                j = j + 1;
            }
            if path_repeats {
                return Err(
                    DomainError::DuplicateId {
                        kind: "source path",
                        id: observations[i].current_path.clone(),
                    },
                );
            }
            if identity_repeats {
                return Err(
                    DomainError::violation(
                        "one observation batch cannot repeat a physical source identity",
                    ),
                );
            }
            i = i + 1;
        }
        Ok(())
    }
}

/// What recording one observation came to.
#[derive(Clone, Debug, PartialEq, Eq)]
pub struct SourceObservationResult {
    pub source_file_id: i64,
    pub file_generation: i64,
    pub created: bool,
    pub moved: bool,
    pub replaced: bool,
    pub rebuild_consumers: Vec<ConsumerKind>,
    pub build_disposition: BuildDisposition,
}

pub open spec fn consumers_unique(consumers: Seq<ConsumerKind>) -> bool {
    forall|i: int, j: int|
        0 <= i < j < consumers.len() ==> #[trigger] consumers[i] != #[trigger] consumers[j]
}

impl SourceObservationResult {
    pub open spec fn fault(self) -> Option<Fault> {
        first(
            positive_fault(self.source_file_id, "source_file_id"@),
            first(
                positive_fault(self.file_generation, "file_generation"@),
                if consumers_unique(self.rebuild_consumers@) {
                    None
                } else {
                    Some(violation_fault("rebuild consumers must be unique"@))
                },
            ),
        )
    }

    pub fn new(
        source_file_id: i64,
        file_generation: i64,
        created: bool,
        moved: bool,
        replaced: bool,
        rebuild_consumers: Vec<ConsumerKind>,
        build_disposition: BuildDisposition,
    ) -> (r: Result<Self, DomainError>)
        ensures
            ({
                let value = SourceObservationResult {
                    source_file_id,
                    file_generation,
                    created,
                    moved,
                    replaced,
                    rebuild_consumers,
                    build_disposition,
                };
                answers(r, value.fault()) && (r is Ok ==> r->Ok_0 == value)
            }),
    {
        let value: SourceObservationResult = SourceObservationResult {
            source_file_id,
            file_generation,
            created,
            moved,
            replaced,
            rebuild_consumers,
            build_disposition,
        };
        value.validate()?;
        Ok(value)
    }

    pub fn validate(&self) -> (r: Result<(), DomainError>)
        ensures
            answers(r, self.fault()),
    {
        positive(self.source_file_id, "source_file_id")?;
        positive(self.file_generation, "file_generation")?;
        let consumers: &Vec<ConsumerKind> = &self.rebuild_consumers;
        let mut i: usize = 0;
        while i < consumers.len()
            invariant
                consumers == self.rebuild_consumers,
                self.source_file_id > 0,
                self.file_generation > 0,
                i <= consumers.len(),
                forall|a: int, b: int|
                    0 <= a < b < i ==> #[trigger] consumers@[a] != #[trigger] consumers@[b],
            decreases consumers.len() - i,
        {
            let mut j: usize = 0;
            while j < i
                invariant
                    consumers == self.rebuild_consumers,
                    self.source_file_id > 0,
                    self.file_generation > 0,
                    j <= i < consumers.len(),
                    forall|a: int| 0 <= a < j ==> #[trigger] consumers@[a] != consumers@[i as int],
                decreases i - j,
            {
                if consumers[j] == consumers[i] {
                    assert(!consumers_unique(consumers@));
                    return Err(DomainError::violation("rebuild consumers must be unique"));
                }
                j = j + 1;
            }
            i = i + 1;
        }
        Ok(())
    }

    pub fn current_generation(&self) -> (r: i64)
        ensures
            r == self.file_generation,
    {
        self.file_generation
    }

    pub fn is_new(&self) -> (r: bool)
        ensures
            r == self.created,
    {
        self.created
    }

    pub fn generation_changed(&self) -> (r: bool)
        ensures
            r == self.replaced,
    {
        self.replaced
    }
}

/// The results of one observation pass.
#[derive(Clone, Debug, PartialEq, Eq)]
pub struct SourceOutcome {
    pub results: Vec<SourceObservationResult>,
}

pub open spec fn outcome_fault(results: Seq<SourceObservationResult>, i: int) -> Option<Fault> {
    first(
        results[i].fault(),
        if exists|j: int|
            0 <= j < i && (#[trigger] results[j]).source_file_id == results[i].source_file_id {
            Some(
                Fault::DuplicateId {
                    kind: "source outcome"@,
                    id: int_text(results[i].source_file_id as int),
                },
            )
        } else {
            None
        },
    )
}

/// The first fault among the first `n` results.
pub open spec fn outcomes_fault(results: Seq<SourceObservationResult>, n: nat) -> Option<Fault>
    decreases n,
{
    if n == 0 {
        None
    } else {
        first(outcomes_fault(results, (n - 1) as nat), outcome_fault(results, n - 1))
    }
}

proof fn lemma_outcomes_fault_stays(results: Seq<SourceObservationResult>, n: nat, m: nat)
    requires
        n <= m,
        outcomes_fault(results, n) is Some,
    ensures
        outcomes_fault(results, m) == outcomes_fault(results, n),
    decreases m,
{
    if n < m {
        lemma_outcomes_fault_stays(results, n, (m - 1) as nat);
    }
}

impl SourceOutcome {
    pub open spec fn fault(self) -> Option<Fault> {
        outcomes_fault(self.results@, self.results@.len())
    }

    pub fn new(results: Vec<SourceObservationResult>) -> (r: Result<Self, DomainError>)
        ensures
            ({
                let value = SourceOutcome { results };
                answers(r, value.fault()) && (r is Ok ==> r->Ok_0 == value)
            }),
    {
        let value: SourceOutcome = SourceOutcome { results };
        value.validate()?;
        Ok(value)
    }

    pub fn validate(&self) -> (r: Result<(), DomainError>)
        ensures
            answers(r, self.fault()),
    {
        let results: &Vec<SourceObservationResult> = &self.results;
        let mut i: usize = 0;
        while i < results.len()
            invariant
                results == self.results,
                i <= results.len(),
                outcomes_fault(results@, i as nat) is None,
            decreases results.len() - i,
        {
            proof {
                if outcomes_fault(results@, (i + 1) as nat) is Some {
                    lemma_outcomes_fault_stays(results@, (i + 1) as nat, results@.len());
                }
            }
            results[i].validate()?;
            let mut repeats: bool = false;
            let mut j: usize = 0;
            while j < i
                invariant
                    j <= i < results.len(),
                    repeats == exists|k: int|
                        0 <= k < j && (#[trigger] results@[k]).source_file_id
                            == results@[i as int].source_file_id,
                decreases i - j,
            {
                if results[j].source_file_id == results[i].source_file_id {
                    repeats = true;
                }
                j = j + 1;
            }
            if repeats {
                return Err(
                    DomainError::DuplicateId {
                        kind: "source outcome",
                        id: decimal(results[i].source_file_id),
                    },
                );
            }
            i = i + 1;
        }
        Ok(())
    }

    pub fn try_new(results: Vec<SourceObservationResult>) -> (r: Result<Self, DomainError>)
        ensures
            ({
                let value = SourceOutcome { results };
                answers(r, value.fault()) && (r is Ok ==> r->Ok_0 == value)
            }),
    {
        SourceOutcome::new(results)
    }
}

/// An offset and its guard belong together: none at the start, one after it.
pub open spec fn guard_fault(committed_offset: i64, guard: Option<Vec<u8>>) -> Option<Fault> {
    if committed_offset == 0 && guard is Some {
        Some(violation_fault("zero checkpoint offset must have a null guard hash"@))
    } else if committed_offset > 0 && (guard is None || guard->0@.len() == 0) {
        Some(violation_fault("non-zero checkpoint offset must have a guard hash"@))
    } else {
        None
    }
}

fn validate_guard(committed_offset: i64, guard: &Option<Vec<u8>>) -> (r: Result<(), DomainError>)
    ensures
        answers(r, guard_fault(committed_offset, *guard)),
{
    if committed_offset == 0 && guard.is_some() {
        return Err(DomainError::violation("zero checkpoint offset must have a null guard hash"));
    }
    let missing: bool = match guard {
        Some(bytes) => bytes.len() == 0,
        None => true,
    };
    if committed_offset > 0 && missing {
        return Err(DomainError::violation("non-zero checkpoint offset must have a guard hash"));
    }
    Ok(())
}

/// The fault of a checkpoint, whichever consumer it belongs to.
pub open spec fn checkpoint_fault(
    source_file_id: i64,
    parser_version: i64,
    committed_offset: i64,
    guard: Option<Vec<u8>>,
    last_successful_scan_at_ms: Option<i64>,
    last_error_code: Option<Seq<char>>,
) -> Option<Fault> {
    first(
        positive_fault(source_file_id, "source_file_id"@),
        first(
            non_negative_fault(parser_version, "parser_version"@),
            first(
                non_negative_fault(committed_offset, "committed_offset"@),
                first(
                    optional_non_negative_fault(
                        last_successful_scan_at_ms,
                        "last_successful_scan_at_ms"@,
                    ),
                    first(
                        guard_fault(committed_offset, guard),
                        optional_code_fault(last_error_code, "last_error_code"@),
                    ),
                ),
            ),
        ),
    )
}

fn validate_checkpoint(
    source_file_id: i64,
    parser_version: i64,
    committed_offset: i64,
    guard: &Option<Vec<u8>>,
    last_successful_scan_at_ms: Option<i64>,
    last_error_code: &Option<String>,
) -> (r: Result<(), DomainError>)
    ensures
        answers(
            r,
            checkpoint_fault(
                source_file_id,
                parser_version,
                committed_offset,
                *guard,
                last_successful_scan_at_ms,
                last_error_code.deep_view(),
            ),
        ),
{
    positive(source_file_id, "source_file_id")?;
    non_negative(parser_version, "parser_version")?;
    non_negative(committed_offset, "committed_offset")?;
    optional_non_negative(last_successful_scan_at_ms, "last_successful_scan_at_ms")?;
    validate_guard(committed_offset, guard)?;
    validate_optional_code(last_error_code, "last_error_code")
}

/// The checkpoint of one source and consumer.
#[derive(Clone, Debug, PartialEq, Eq)]
pub struct SourceCheckpoint {
    pub source_file_id: i64,
    pub consumer_kind: ConsumerKind,
    pub parser_version: i64,
    pub committed_offset: i64,
    pub guard_hash: Option<Vec<u8>>,
    pub processing_status: CheckpointProcessingStatus,
    pub last_successful_scan_at_ms: Option<i64>,
    pub last_error_code: Option<String>,
}

impl SourceCheckpoint {
    pub open spec fn fault(self) -> Option<Fault> {
        checkpoint_fault(
            self.source_file_id,
            self.parser_version,
            self.committed_offset,
            self.guard_hash,
            self.last_successful_scan_at_ms,
            self.last_error_code.deep_view(),
        )
    }

    pub open spec fn fault_against(self, source: SourceFileState) -> Option<Fault> {
        first(
            self.fault(),
            first(
                source.fault(),
                if self.source_file_id != source.source_file_id {
                    Some(violation_fault("checkpoint source id must match source file id"@))
                } else if self.committed_offset > source.observed_size {
                    Some(
                        violation_fault(
                            "checkpoint offset must not exceed observed source size"@,
                        ),
                    )
                } else {
                    None
                },
            ),
        )
    }

    pub fn new(
        source_file_id: i64,
        consumer_kind: ConsumerKind,
        parser_version: i64,
        committed_offset: i64,
        guard_hash: Option<Vec<u8>>,
        processing_status: CheckpointProcessingStatus,
        last_successful_scan_at_ms: Option<i64>,
        last_error_code: Option<String>,
    ) -> (r: Result<Self, DomainError>)
        ensures
            ({
                let value = SourceCheckpoint {
                    source_file_id,
                    consumer_kind,
                    parser_version,
                    committed_offset,
                    guard_hash,
                    processing_status,
                    last_successful_scan_at_ms,
                    last_error_code,
                };
                answers(r, value.fault()) && (r is Ok ==> r->Ok_0 == value)
            }),
    {
        let value: SourceCheckpoint = SourceCheckpoint {
            source_file_id,
            consumer_kind,
            parser_version,
            committed_offset,
            guard_hash,
            processing_status,
            last_successful_scan_at_ms,
            last_error_code,
        };
        value.validate()?;
        Ok(value)
    }

    pub fn validate(&self) -> (r: Result<(), DomainError>)
        ensures
            answers(r, self.fault()),
    {
        validate_checkpoint(
            self.source_file_id,
            self.parser_version,
            self.committed_offset,
            &self.guard_hash,
            self.last_successful_scan_at_ms,
            &self.last_error_code,
        )
    }

    pub fn validate_against(&self, source: &SourceFileState) -> (r: Result<(), DomainError>)
        ensures
            answers(r, self.fault_against(*source)),
    {
        self.validate()?;
        source.validate()?;
        if self.source_file_id != source.source_file_id {
            return Err(DomainError::violation("checkpoint source id must match source file id"));
        }
        if self.committed_offset > source.observed_size {
            return Err(
                DomainError::violation("checkpoint offset must not exceed observed source size"),
            );
        }
        Ok(())
    }
}

/// The metadata checkpoint of a source, as read back.
#[derive(Clone, Debug, PartialEq, Eq)]
pub struct MetadataCheckpointState {
    pub source_file_id: i64,
    pub parser_version: i64,
    pub committed_offset: i64,
    pub guard_hash: Option<Vec<u8>>,
    pub processing_status: CheckpointProcessingStatus,
    pub last_successful_scan_at_ms: Option<i64>,
    pub last_error_code: Option<String>,
}

impl MetadataCheckpointState {
    pub open spec fn fault(self) -> Option<Fault> {
        checkpoint_fault(
            self.source_file_id,
            self.parser_version,
            self.committed_offset,
            self.guard_hash,
            self.last_successful_scan_at_ms,
            self.last_error_code.deep_view(),
        )
    }

    pub open spec fn fault_against(self, source: SourceFileState) -> Option<Fault> {
        first(
            self.fault(),
            if self.source_file_id != source.source_file_id {
                Some(violation_fault("metadata checkpoint source id must match source file id"@))
            } else if self.committed_offset > source.observed_size {
                Some(
                    violation_fault(
                        "metadata checkpoint offset must not exceed observed source size"@,
                    ),
                )
            } else {
                None
            },
        )
    }

    pub fn new(
        source_file_id: i64,
        parser_version: i64,
        committed_offset: i64,
        guard_hash: Option<Vec<u8>>,
        processing_status: CheckpointProcessingStatus,
        last_successful_scan_at_ms: Option<i64>,
        last_error_code: Option<String>,
    ) -> (r: Result<Self, DomainError>)
        ensures
            ({
                let value = MetadataCheckpointState {
                    source_file_id,
                    parser_version,
                    committed_offset,
                    guard_hash,
                    processing_status,
                    last_successful_scan_at_ms,
                    last_error_code,
                };
                answers(r, value.fault()) && (r is Ok ==> r->Ok_0 == value)
            }),
    {
        let value: MetadataCheckpointState = MetadataCheckpointState {
            source_file_id,
            parser_version,
            committed_offset,
            guard_hash,
            processing_status,
            last_successful_scan_at_ms,
            last_error_code,
        };
        value.validate()?;
        Ok(value)
    }

    pub fn validate(&self) -> (r: Result<(), DomainError>)
        ensures
            answers(r, self.fault()),
    {
        validate_checkpoint(
            self.source_file_id,
            self.parser_version,
            self.committed_offset,
            &self.guard_hash,
            self.last_successful_scan_at_ms,
            &self.last_error_code,
        )
    }

    pub fn validate_against(&self, source: &SourceFileState) -> (r: Result<(), DomainError>)
        ensures
            answers(r, self.fault_against(*source)),
    {
        self.validate()?;
        if self.source_file_id != source.source_file_id {
            return Err(
                DomainError::violation("metadata checkpoint source id must match source file id"),
            );
        }
        if self.committed_offset > source.observed_size {
            return Err(
                DomainError::violation(
                    "metadata checkpoint offset must not exceed observed source size",
                ),
            );
        }
        Ok(())
    }
}

impl From<SourceCheckpoint> for MetadataCheckpointState {
    fn from(checkpoint: SourceCheckpoint) -> (r: Self) {
        MetadataCheckpointState {
            source_file_id: checkpoint.source_file_id,
            parser_version: checkpoint.parser_version,
            committed_offset: checkpoint.committed_offset,
            guard_hash: checkpoint.guard_hash,
            processing_status: checkpoint.processing_status,
            last_successful_scan_at_ms: checkpoint.last_successful_scan_at_ms,
            last_error_code: checkpoint.last_error_code,
        }
    }
}

impl FromSpecImpl<SourceCheckpoint> for MetadataCheckpointState {
    open spec fn obeys_from_spec() -> bool {
        true
    }

    open spec fn from_spec(checkpoint: SourceCheckpoint) -> MetadataCheckpointState {
        MetadataCheckpointState {
            source_file_id: checkpoint.source_file_id,
            parser_version: checkpoint.parser_version,
            committed_offset: checkpoint.committed_offset,
            guard_hash: checkpoint.guard_hash,
            processing_status: checkpoint.processing_status,
            last_successful_scan_at_ms: checkpoint.last_successful_scan_at_ms,
            last_error_code: checkpoint.last_error_code,
        }
    }
}

/// The checkpoint that a metadata commit moves to. The source id is that of the commit.
#[derive(Clone, Debug, PartialEq, Eq)]
pub struct MetadataCheckpointAdvance {
    pub parser_version: i64,
    pub committed_offset: i64,
    pub guard_hash: Option<Vec<u8>>,
    pub processing_status: CheckpointProcessingStatus,
    pub last_successful_scan_at_ms: Option<i64>,
    pub last_error_code: Option<String>,
}

impl MetadataCheckpointAdvance {
    pub open spec fn fault(self) -> Option<Fault> {
        first(
            non_negative_fault(self.parser_version, "parser_version"@),
            first(
                non_negative_fault(self.committed_offset, "committed_offset"@),
                first(
                    guard_fault(self.committed_offset, self.guard_hash),
                    first(
                        optional_non_negative_fault(
                            self.last_successful_scan_at_ms,
                            "last_successful_scan_at_ms"@,
                        ),
                        optional_code_fault(self.last_error_code.deep_view(), "last_error_code"@),
                    ),
                ),
            ),
        )
    }

    pub open spec fn fault_against(self, source_file_id: i64, source: SourceFileState) -> Option<
        Fault,
    > {
        first(
            self.fault(),
            first(
                positive_fault(source_file_id, "source_file_id"@),
                first(
                    source.fault(),
                    if source.source_file_id != source_file_id {
                        Some(
                            violation_fault(
                                "metadata checkpoint source id must match source file id"@,
                            ),
                        )
                    } else if self.committed_offset > source.observed_size {
                        Some(
                            violation_fault(
                                "metadata checkpoint offset must not exceed observed source size"@,
                            ),
                        )
                    } else {
                        None
                    },
                ),
            ),
        )
    }

    pub fn new(
        parser_version: i64,
        committed_offset: i64,
        guard_hash: Option<Vec<u8>>,
        processing_status: CheckpointProcessingStatus,
    ) -> (r: Result<Self, DomainError>)
        ensures
            ({
                let value = MetadataCheckpointAdvance {
                    parser_version,
                    committed_offset,
                    guard_hash,
                    processing_status,
                    last_successful_scan_at_ms: None,
                    last_error_code: None,
                };
                answers(r, value.fault()) && (r is Ok ==> r->Ok_0 == value)
            }),
    {
        let value: MetadataCheckpointAdvance = MetadataCheckpointAdvance {
            parser_version,
            committed_offset,
            guard_hash,
            processing_status,
            last_successful_scan_at_ms: None,
            last_error_code: None,
        };
        value.validate()?;
        Ok(value)
    }

    pub fn validate(&self) -> (r: Result<(), DomainError>)
        ensures
            answers(r, self.fault()),
    {
        non_negative(self.parser_version, "parser_version")?;
        non_negative(self.committed_offset, "committed_offset")?;
        validate_guard(self.committed_offset, &self.guard_hash)?;
        optional_non_negative(self.last_successful_scan_at_ms, "last_successful_scan_at_ms")?;
        validate_optional_code(&self.last_error_code, "last_error_code")
    }

    pub fn validate_against(&self, source_file_id: i64, source: &SourceFileState) -> (r: Result<
        (),
        DomainError,
    >)
        ensures
            answers(r, self.fault_against(source_file_id, *source)),
    {
        self.validate()?;
        positive(source_file_id, "source_file_id")?;
        source.validate()?;
        if source.source_file_id != source_file_id {
            return Err(
                DomainError::violation("metadata checkpoint source id must match source file id"),
            );
        }
        if self.committed_offset > source.observed_size {
            return Err(
                DomainError::violation(
                    "metadata checkpoint offset must not exceed observed source size",
                ),
            );
        }
        Ok(())
    }
}

/// The structured metadata kept of one rollout source. It holds no title, message or raw
/// record.
#[derive(Clone, Debug, PartialEq, Eq)]
pub struct RolloutMetadataFact {
    pub source_file_id: i64,
    pub file_generation: i64,
    pub metadata_parser_version: i64,
    pub resolved_through_offset: i64,
    pub owning_thread_id: String,
    pub continuation_state: ContinuationState,
    pub cwd: Option<String>,
    pub cwd_provenance: Option<CwdProvenance>,
    pub cwd_record_offset: Option<i64>,
    pub created_at_ms: Option<i64>,
    pub latest_context_model: Option<String>,
    pub latest_context_turn_id: Option<String>,
    pub latest_context_at_ms: Option<i64>,
    pub parent_thread_id_hint: Option<String>,
    pub parent_hint_provenance: Option<ParentHintProvenance>,
    pub parent_hint_record_offset: Option<i64>,
    pub agent_role_hint: Option<String>,
    pub agent_role_provenance: Option<AgentRoleProvenance>,
    pub agent_role_record_offset: Option<i64>,
    pub agent_path: Option<String>,
    pub agent_path_provenance: Option<AgentPathProvenance>,
    pub agent_path_record_offset: Option<i64>,
    pub replay_start_offset: Option<i64>,
    pub owning_records_start_offset: Option<i64>,
    pub ownership_confidence: OwnershipConfidence,
    pub fact_quality_status: FactQualityStatus,
    pub relationship_conflict: bool,
    pub updated_at_ms: i64,
}

/// A value, its provenance and its offset come together or not at all.
pub open spec fn provenance_fault(
    value: bool,
    provenance: bool,
    record_offset: bool,
    rule: Seq<char>,
) -> Option<Fault> {
    if value == provenance && provenance == record_offset {
        None
    } else {
        Some(violation_fault(rule))
    }
}

fn validate_provenance(
    value: bool,
    provenance: bool,
    record_offset: bool,
    rule: &'static str,
) -> (r: Result<(), DomainError>)
    ensures
        answers(r, provenance_fault(value, provenance, record_offset, rule@)),
{
    if value == provenance && provenance == record_offset {
        Ok(())
    } else {
        Err(DomainError::violation(rule))
    }
}

impl RolloutMetadataFact {
    /// A number of the fact that is out of range.
    pub open spec fn number_fault(self) -> Option<Fault> {
        first(
            optional_non_negative_fault(self.cwd_record_offset, "cwd_record_offset"@),
            first(
                optional_non_negative_fault(self.created_at_ms, "created_at_ms"@),
                first(
                    optional_non_negative_fault(self.latest_context_at_ms, "latest_context_at_ms"@),
                    first(
                        optional_non_negative_fault(
                            self.parent_hint_record_offset,
                            "parent_hint_record_offset"@,
                        ),
                        first(
                            optional_non_negative_fault(
                                self.agent_role_record_offset,
                                "agent_role_record_offset"@,
                            ),
                            first(
                                optional_non_negative_fault(
                                    self.agent_path_record_offset,
                                    "agent_path_record_offset"@,
                                ),
                                first(
                                    optional_non_negative_fault(
                                        self.replay_start_offset,
                                        "replay_start_offset"@,
                                    ),
                                    first(
                                        optional_non_negative_fault(
                                            self.owning_records_start_offset,
                                            "owning_records_start_offset"@,
                                        ),
                                        non_negative_fault(self.updated_at_ms, "updated_at_ms"@),
                                    ),
                                ),
                            ),
                        ),
                    ),
                ),
            ),
        )
    }

    /// A hint of the fact that is not complete.
    pub open spec fn hint_fault(self) -> Option<Fault> {
        first(
            provenance_fault(
                self.cwd is Some,
                self.cwd_provenance is Some,
                self.cwd_record_offset is Some,
                "cwd value, provenance and record offset must be all present or absent"@,
            ),
            first(
                provenance_fault(
                    self.parent_thread_id_hint is Some,
                    self.parent_hint_provenance is Some,
                    self.parent_hint_record_offset is Some,
                    "parent hint value, provenance and record offset must be all present or absent"@,
                ),
                first(
                    provenance_fault(
                        self.agent_role_hint is Some,
                        self.agent_role_provenance is Some,
                        self.agent_role_record_offset is Some,
                        "agent role hint value, provenance and record offset must be all present or absent"@,
                    ),
                    provenance_fault(
                        self.agent_path is Some,
                        self.agent_path_provenance is Some,
                        self.agent_path_record_offset is Some,
                        "agent path value, provenance and record offset must be all present or absent"@,
                    ),
                ),
            ),
        )
    }

    /// A text of the fact that is not fit to be kept.
    pub open spec fn texts_fault(self) -> Option<Fault> {
        first(
            optional_text_fault(self.cwd.deep_view(), "cwd"@),
            first(
                optional_text_fault(self.latest_context_model.deep_view(), "latest_context_model"@),
                first(
                    optional_text_fault(
                        self.latest_context_turn_id.deep_view(),
                        "latest_context_turn_id"@,
                    ),
                    first(
                        optional_text_fault(
                            self.parent_thread_id_hint.deep_view(),
                            "parent_thread_id_hint"@,
                        ),
                        first(
                            optional_text_fault(
                                self.agent_role_hint.deep_view(),
                                "agent_role_hint"@,
                            ),
                            optional_text_fault(self.agent_path.deep_view(), "agent_path"@),
                        ),
                    ),
                ),
            ),
        )
    }

    pub open spec fn state_fault(self) -> Option<Fault> {
        if self.relationship_conflict && !(self.fact_quality_status is Conflict) {
            Some(violation_fault("relationship conflict requires conflict fact quality"@))
        } else if !(self.continuation_state is Unstable) && !(self.ownership_confidence
            is Confirmed) {
            Some(violation_fault("resumable fact must have confirmed ownership"@))
        } else {
            None
        }
    }

    pub open spec fn fault(self) -> Option<Fault> {
        first(
            positive_fault(self.source_file_id, "source_file_id"@),
            first(
                positive_fault(self.file_generation, "file_generation"@),
                first(
                    non_negative_fault(self.metadata_parser_version, "metadata_parser_version"@),
                    first(
                        non_negative_fault(self.resolved_through_offset, "resolved_through_offset"@),
                        first(
                            text_fault(self.owning_thread_id@, "owning_thread_id"@),
                            first(
                                self.number_fault(),
                                first(
                                    self.hint_fault(),
                                    first(self.texts_fault(), self.state_fault()),
                                ),
                            ),
                        ),
                    ),
                ),
            ),
        )
    }

    pub open spec fn fault_against(
        self,
        source: SourceFileState,
        checkpoint: MetadataCheckpointState,
    ) -> Option<Fault> {
        first(
            self.fault(),
            first(
                source.fault(),
                first(
                    checkpoint.fault_against(source),
                    if self.source_file_id != source.source_file_id || self.file_generation
                        != source.file_generation || self.metadata_parser_version
                        != checkpoint.parser_version || self.resolved_through_offset
                        != checkpoint.committed_offset || checkpoint.processing_status
                        is RebuildRequired {
                        Some(
                            violation_fault(
                                "safe fact does not match source and metadata checkpoint"@,
                            ),
                        )
                    } else if source.thread_id.deep_view() != Some(self.owning_thread_id@) {
                        Some(
                            violation_fault("safe fact owning thread must match source binding"@),
                        )
                    } else {
                        None
                    },
                ),
            ),
        )
    }

    pub fn validate(&self) -> (r: Result<(), DomainError>)
        ensures
            answers(r, self.fault()),
    {
        positive(self.source_file_id, "source_file_id")?;
        positive(self.file_generation, "file_generation")?;
        non_negative(self.metadata_parser_version, "metadata_parser_version")?;
        non_negative(self.resolved_through_offset, "resolved_through_offset")?;
        non_empty(self.owning_thread_id.as_str(), "owning_thread_id")?;
        self.validate_numbers()?;
        self.validate_hints()?;
        self.validate_texts()?;
        if self.relationship_conflict && self.fact_quality_status != FactQualityStatus::Conflict {
            return Err(
                DomainError::violation("relationship conflict requires conflict fact quality"),
            );
        }
        if self.continuation_state != ContinuationState::Unstable && self.ownership_confidence
            != OwnershipConfidence::Confirmed {
            return Err(DomainError::violation("resumable fact must have confirmed ownership"));
        }
        Ok(())
    }

    fn validate_numbers(&self) -> (r: Result<(), DomainError>)
        ensures
            answers(r, self.number_fault()),
    {
        optional_non_negative(self.cwd_record_offset, "cwd_record_offset")?;
        optional_non_negative(self.created_at_ms, "created_at_ms")?;
        optional_non_negative(self.latest_context_at_ms, "latest_context_at_ms")?;
        optional_non_negative(self.parent_hint_record_offset, "parent_hint_record_offset")?;
        optional_non_negative(self.agent_role_record_offset, "agent_role_record_offset")?;
        optional_non_negative(self.agent_path_record_offset, "agent_path_record_offset")?;
        optional_non_negative(self.replay_start_offset, "replay_start_offset")?;
        optional_non_negative(self.owning_records_start_offset, "owning_records_start_offset")?;
        non_negative(self.updated_at_ms, "updated_at_ms")
    }

    fn validate_hints(&self) -> (r: Result<(), DomainError>)
        ensures
            answers(r, self.hint_fault()),
    {
        validate_provenance(
            self.cwd.is_some(),
            self.cwd_provenance.is_some(),
            self.cwd_record_offset.is_some(),
            "cwd value, provenance and record offset must be all present or absent",
        )?;
        validate_provenance(
            self.parent_thread_id_hint.is_some(),
            self.parent_hint_provenance.is_some(),
            self.parent_hint_record_offset.is_some(),
            "parent hint value, provenance and record offset must be all present or absent",
        )?;
        validate_provenance(
            self.agent_role_hint.is_some(),
            self.agent_role_provenance.is_some(),
            self.agent_role_record_offset.is_some(),
            "agent role hint value, provenance and record offset must be all present or absent",
        )?;
        validate_provenance(
            self.agent_path.is_some(),
            self.agent_path_provenance.is_some(),
            self.agent_path_record_offset.is_some(),
            "agent path value, provenance and record offset must be all present or absent",
        )
    }

    fn validate_texts(&self) -> (r: Result<(), DomainError>)
        ensures
            answers(r, self.texts_fault()),
    {
        optional_non_empty(&self.cwd, "cwd")?;
        optional_non_empty(&self.latest_context_model, "latest_context_model")?;
        optional_non_empty(&self.latest_context_turn_id, "latest_context_turn_id")?;
        optional_non_empty(&self.parent_thread_id_hint, "parent_thread_id_hint")?;
        optional_non_empty(&self.agent_role_hint, "agent_role_hint")?;
        optional_non_empty(&self.agent_path, "agent_path")
    }

    pub fn validate_against(
        &self,
        source: &SourceFileState,
        checkpoint: &MetadataCheckpointState,
    ) -> (r: Result<(), DomainError>)
        ensures
            answers(r, self.fault_against(*source, *checkpoint)),
    {
        self.validate()?;
        source.validate()?;
        checkpoint.validate_against(source)?;
        if self.source_file_id != source.source_file_id || self.file_generation
            != source.file_generation || self.metadata_parser_version != checkpoint.parser_version
            || self.resolved_through_offset != checkpoint.committed_offset
            || checkpoint.processing_status == CheckpointProcessingStatus::RebuildRequired {
            return Err(
                DomainError::violation("safe fact does not match source and metadata checkpoint"),
            );
        }
        let bound: bool = match &source.thread_id {
            Some(thread_id) => *thread_id == self.owning_thread_id,
            None => false,
        };
        if !bound {
            return Err(
                DomainError::violation("safe fact owning thread must match source binding"),
            );
        }
        Ok(())
    }
}

/// One source in the metadata scan state.
#[derive(Clone, Debug, PartialEq, Eq)]
pub struct MetadataScanStateEntry {
    pub source: SourceFileState,
    pub metadata_checkpoint: Option<MetadataCheckpointState>,
    pub safe_fact: SafeFactState,
}

/// Why a fault makes a safe fact stale.
pub open spec fn mismatch(fault: Fault) -> SafeFactMismatchReason {
    match fault {
        Fault::InvariantViolation { invariant: rule } => if occurs(rule, "generation"@) {
            SafeFactMismatchReason::GenerationMismatch
        } else if occurs(rule, "parser"@) {
            SafeFactMismatchReason::ParserVersionMismatch
        } else if occurs(rule, "offset"@) {
            SafeFactMismatchReason::OffsetMismatch
        } else if occurs(rule, "binding"@) {
            SafeFactMismatchReason::BindingMismatch
        } else if occurs(rule, "owning thread"@) {
            SafeFactMismatchReason::OwningThreadMismatch
        } else {
            SafeFactMismatchReason::InvalidFact
        },
        _ => SafeFactMismatchReason::InvalidFact,
    }
}

fn mismatch_reason(error: &DomainError) -> (r: SafeFactMismatchReason)
    ensures
        r == mismatch(error@),
{
    match error {
        DomainError::InvariantViolation { invariant: rule } => {
            if contains_text(*rule, "generation") {
                SafeFactMismatchReason::GenerationMismatch
            } else if contains_text(*rule, "parser") {
                SafeFactMismatchReason::ParserVersionMismatch
            } else if contains_text(*rule, "offset") {
                SafeFactMismatchReason::OffsetMismatch
            } else if contains_text(*rule, "binding") {
                SafeFactMismatchReason::BindingMismatch
            } else if contains_text(*rule, "owning thread") {
                SafeFactMismatchReason::OwningThreadMismatch
            } else {
                SafeFactMismatchReason::InvalidFact
            }
        },
        _ => SafeFactMismatchReason::InvalidFact,
    }
}

/// What is known of the safe fact of `source`: nothing, a fact that matches source and
/// checkpoint, or why the fact does not.
pub open spec fn fact_state(
    source: SourceFileState,
    checkpoint: Option<MetadataCheckpointState>,
    fact: Option<RolloutMetadataFact>,
) -> SafeFactState {
    match fact {
        None => SafeFactState::Absent,
        Some(fact) => match checkpoint {
            None => SafeFactState::Stale(SafeFactMismatchReason::MissingCheckpoint),
            Some(checkpoint) => match fact.fault_against(source, checkpoint) {
                None => SafeFactState::Matching(fact),
                Some(fault) => SafeFactState::Stale(mismatch(fault)),
            },
        },
    }
}

pub open spec fn optional_checkpoint_fault(
    source: SourceFileState,
    checkpoint: Option<MetadataCheckpointState>,
) -> Option<Fault> {
    match checkpoint {
        Some(checkpoint) => checkpoint.fault_against(source),
        None => None,
    }
}

impl MetadataScanStateEntry {
    pub open spec fn fault(self) -> Option<Fault> {
        first(
            self.source.fault(),
            first(
                optional_checkpoint_fault(self.source, self.metadata_checkpoint),
                match self.safe_fact {
                    SafeFactState::Matching(fact) => match self.metadata_checkpoint {
                        Some(checkpoint) => fact.fault_against(self.source, checkpoint),
                        None => Some(
                            violation_fault("matching safe fact requires metadata checkpoint"@),
                        ),
                    },
                    _ => None,
                },
            ),
        )
    }

    pub fn new(
        source: SourceFileState,
        metadata_checkpoint: Option<MetadataCheckpointState>,
        fact: Option<RolloutMetadataFact>,
    ) -> (r: Result<Self, DomainError>)
        ensures
            answers(
                r,
                first(source.fault(), optional_checkpoint_fault(source, metadata_checkpoint)),
            ),
            r matches Ok(entry) ==> entry == (MetadataScanStateEntry {
                source,
                metadata_checkpoint,
                safe_fact: fact_state(source, metadata_checkpoint, fact),
            }) && entry.fault() is None,
    {
        source.validate()?;
        if let Some(checkpoint) = &metadata_checkpoint {
            checkpoint.validate_against(&source)?;
        }
        let safe_fact: SafeFactState = match fact {
            None => SafeFactState::Absent,
            Some(fact) => match &metadata_checkpoint {
                None => SafeFactState::Stale(SafeFactMismatchReason::MissingCheckpoint),
                Some(checkpoint) => match fact.validate_against(&source, checkpoint) {
                    Ok(()) => SafeFactState::Matching(fact),
                    Err(error) => SafeFactState::Stale(mismatch_reason(&error)),
                },
            },
        };
        Ok(MetadataScanStateEntry { source, metadata_checkpoint, safe_fact })
    }

    pub fn validate(&self) -> (r: Result<(), DomainError>)
        ensures
            answers(r, self.fault()),
    {
        self.source.validate()?;
        if let Some(checkpoint) = &self.metadata_checkpoint {
            checkpoint.validate_against(&self.source)?;
        }
        if let SafeFactState::Matching(fact) = &self.safe_fact {
            match &self.metadata_checkpoint {
                Some(checkpoint) => {
                    fact.validate_against(&self.source, checkpoint)?;
                },
                None => {
                    return Err(
                        DomainError::violation("matching safe fact requires metadata checkpoint"),
                    );
                },
            }
        }
        Ok(())
    }

    pub fn try_new(
        source: SourceFileState,
        metadata_checkpoint: Option<MetadataCheckpointState>,
        fact: Option<RolloutMetadataFact>,
    ) -> (r: Result<Self, DomainError>)
        ensures
            answers(
                r,
                first(source.fault(), optional_checkpoint_fault(source, metadata_checkpoint)),
            ),
            r matches Ok(entry) ==> entry == (MetadataScanStateEntry {
                source,
                metadata_checkpoint,
                safe_fact: fact_state(source, metadata_checkpoint, fact),
            }) && entry.fault() is None,
    {
        MetadataScanStateEntry::new(source, metadata_checkpoint, fact)
    }
}

/// The metadata scan state of a set of sources.
#[derive(Clone, Debug, PartialEq, Eq)]
pub struct MetadataScanState {
    pub entries: Vec<MetadataScanStateEntry>,
}

pub open spec fn entry_fault(entries: Seq<MetadataScanStateEntry>, i: int) -> Option<Fault> {
    first(
        entries[i].fault(),
        if exists|j: int|
            0 <= j < i && (#[trigger] entries[j]).source.source_file_id
                == entries[i].source.source_file_id {
            Some(
                Fault::DuplicateId {
                    kind: "metadata scan state"@,
                    id: int_text(entries[i].source.source_file_id as int),
                },
            )
        } else {
            None
        },
    )
}

/// The first fault among the first `n` entries.
pub open spec fn entries_fault(entries: Seq<MetadataScanStateEntry>, n: nat) -> Option<Fault>
    decreases n,
{
    if n == 0 {
        None
    } else {
        first(entries_fault(entries, (n - 1) as nat), entry_fault(entries, n - 1))
    }
}

proof fn lemma_entries_fault_stays(entries: Seq<MetadataScanStateEntry>, n: nat, m: nat)
    requires
        n <= m,
        entries_fault(entries, n) is Some,
    ensures
        entries_fault(entries, m) == entries_fault(entries, n),
    decreases m,
{
    if n < m {
        lemma_entries_fault_stays(entries, n, (m - 1) as nat);
    }
}

impl MetadataScanState {
    pub open spec fn fault(self) -> Option<Fault> {
        entries_fault(self.entries@, self.entries@.len())
    }

    pub fn new(entries: Vec<MetadataScanStateEntry>) -> (r: Result<Self, DomainError>)
        ensures
            ({
                let value = MetadataScanState { entries };
                answers(r, value.fault()) && (r is Ok ==> r->Ok_0 == value)
            }),
    {
        let value: MetadataScanState = MetadataScanState { entries };
        value.validate()?;
        Ok(value)
    }

    pub fn validate(&self) -> (r: Result<(), DomainError>)
        ensures
            answers(r, self.fault()),
    {
        let entries: &Vec<MetadataScanStateEntry> = &self.entries;
        let mut i: usize = 0;
        while i < entries.len()
            invariant
                entries == self.entries,
                i <= entries.len(),
                entries_fault(entries@, i as nat) is None,
            decreases entries.len() - i,
        {
            proof {
                if entries_fault(entries@, (i + 1) as nat) is Some {
                    lemma_entries_fault_stays(entries@, (i + 1) as nat, entries@.len());
                }
            }
            entries[i].validate()?;
            let mut repeats: bool = false;
            let mut j: usize = 0;
            while j < i
                invariant
                    j <= i < entries.len(),
                    repeats == exists|k: int|
                        0 <= k < j && (#[trigger] entries@[k]).source.source_file_id
                            == entries@[i as int].source.source_file_id,
                decreases i - j,
            {
                if entries[j].source.source_file_id == entries[i].source.source_file_id {
                    repeats = true;
                }
                j = j + 1;
            }
            if repeats {
                return Err(
                    DomainError::DuplicateId {
                        kind: "metadata scan state",
                        id: decimal(entries[i].source.source_file_id),
                    },
                );
            }
            i = i + 1;
        }
        Ok(())
    }

    pub fn try_new(entries: Vec<MetadataScanStateEntry>) -> (r: Result<Self, DomainError>)
        ensures
            ({
                let value = MetadataScanState { entries };
                answers(r, value.fault()) && (r is Ok ==> r->Ok_0 == value)
            }),
    {
        MetadataScanState::new(entries)
    }

    /// The first entry of a source.
    pub fn get(&self, source_file_id: i64) -> (r: Option<&MetadataScanStateEntry>)
        ensures
            match r {
                Some(entry) => exists|i: int|
                    0 <= i < self.entries@.len() && *entry == #[trigger] self.entries@[i]
                        && self.entries@[i].source.source_file_id == source_file_id && (forall|
                        j: int,
                    |
                        0 <= j < i ==> (#[trigger] self.entries@[j]).source.source_file_id
                            != source_file_id),
                None => forall|i: int|
                    0 <= i < self.entries@.len() ==> (#[trigger] self.entries@[i]).source.source_file_id
                        != source_file_id,
            },
    {
        let mut i: usize = 0;
        while i < self.entries.len()
            invariant
                i <= self.entries.len(),
                forall|j: int|
                    0 <= j < i ==> (#[trigger] self.entries@[j]).source.source_file_id
                        != source_file_id,
            decreases self.entries.len() - i,
        {
            if self.entries[i].source.source_file_id == source_file_id {
                return Some(&self.entries[i]);
            }
            i = i + 1;
        }
        None
    }
}

/// What one source contributes to a metadata commit.
#[derive(Clone, Debug, PartialEq, Eq)]
pub struct MetadataSourceCommit {
    pub source_file_id: i64,
    pub expected_file_generation: i64,
    pub expected_previous_thread_id: Option<String>,
    pub confirmed_owning_thread_id: String,
    pub safe_fact: RolloutMetadataFact,
    pub metadata_checkpoint_advance: MetadataCheckpointAdvance,
}

impl MetadataSourceCommit {
    pub open spec fn binding_fault(self, thread_id: Seq<char>) -> Option<Fault> {
        first(
            match self.expected_previous_thread_id {
                Some(previous) => first(
                    text_fault(previous@, "expected_previous_thread_id"@),
                    if previous@ != self.confirmed_owning_thread_id@ {
                        Some(
                            violation_fault(
                                "non-null expected previous thread id must equal confirmed owning id"@,
                            ),
                        )
                    } else {
                        None
                    },
                ),
                None => None,
            },
            if self.confirmed_owning_thread_id@ != thread_id {
                Some(
                    violation_fault(
                        "metadata source owning id must equal metadata thread group id"@,
                    ),
                )
            } else {
                None
            },
        )
    }

    pub open spec fn identity_fault(self) -> Option<Fault> {
        if self.safe_fact.source_file_id != self.source_file_id || self.safe_fact.file_generation
            != self.expected_file_generation || self.safe_fact.owning_thread_id@
            != self.confirmed_owning_thread_id@ {
            Some(violation_fault("safe fact identity must match metadata source commit"@))
        } else {
            None
        }
    }

    pub open spec fn fault_for(self, thread_id: Seq<char>) -> Option<Fault> {
        first(
            positive_fault(self.source_file_id, "source_file_id"@),
            first(
                positive_fault(self.expected_file_generation, "expected_file_generation"@),
                first(
                    text_fault(thread_id, "thread_id"@),
                    first(
                        text_fault(
                            self.confirmed_owning_thread_id@,
                            "confirmed_owning_thread_id"@,
                        ),
                        first(
                            self.binding_fault(thread_id),
                            first(
                                self.safe_fact.fault(),
                                first(
                                    self.identity_fault(),
                                    self.metadata_checkpoint_advance.fault(),
                                ),
                            ),
                        ),
                    ),
                ),
            ),
        )
    }

    pub fn new(
        source_file_id: i64,
        expected_file_generation: i64,
        expected_previous_thread_id: Option<String>,
        confirmed_owning_thread_id: String,
        safe_fact: RolloutMetadataFact,
        metadata_checkpoint_advance: MetadataCheckpointAdvance,
    ) -> (r: Result<Self, DomainError>)
        ensures
            ({
                let value = MetadataSourceCommit {
                    source_file_id,
                    expected_file_generation,
                    expected_previous_thread_id,
                    confirmed_owning_thread_id,
                    safe_fact,
                    metadata_checkpoint_advance,
                };
                answers(r, value.fault_for(confirmed_owning_thread_id@)) && (r is Ok ==> r->Ok_0
                    == value)
            }),
    {
        let value: MetadataSourceCommit = MetadataSourceCommit {
            source_file_id,
            expected_file_generation,
            expected_previous_thread_id,
            confirmed_owning_thread_id,
            safe_fact,
            metadata_checkpoint_advance,
        };
        value.validate_for_thread(value.confirmed_owning_thread_id.as_str())?;
        Ok(value)
    }

    pub fn validate_for_thread(&self, thread_id: &str) -> (r: Result<(), DomainError>)
        ensures
            answers(r, self.fault_for(thread_id@)),
    {
        positive(self.source_file_id, "source_file_id")?;
        positive(self.expected_file_generation, "expected_file_generation")?;
        non_empty(thread_id, "thread_id")?;
        non_empty(self.confirmed_owning_thread_id.as_str(), "confirmed_owning_thread_id")?;
        if let Some(previous) = &self.expected_previous_thread_id {
            non_empty(previous.as_str(), "expected_previous_thread_id")?;
            if *previous != self.confirmed_owning_thread_id {
                return Err(
                    DomainError::violation(
                        "non-null expected previous thread id must equal confirmed owning id",
                    ),
                );
            }
        }
        if !same_text(self.confirmed_owning_thread_id.as_str(), thread_id) {
            return Err(
                DomainError::violation(
                    "metadata source owning id must equal metadata thread group id",
                ),
            );
        }
        self.safe_fact.validate()?;
        if self.safe_fact.source_file_id != self.source_file_id || self.safe_fact.file_generation
            != self.expected_file_generation || self.safe_fact.owning_thread_id
            != self.confirmed_owning_thread_id {
            return Err(
                DomainError::violation("safe fact identity must match metadata source commit"),
            );
        }
        let platform: Platform = Platform::here();
        let source: SourceFileState = SourceFileState {
            platform,
            source_file_id: self.source_file_id,
            thread_id: Some(self.confirmed_owning_thread_id.clone()),
            current_path: internal_validation_path(platform).to_owned(),
            source_area: SourceArea::Sessions,
            device_id: 0,
            inode: 0,
            file_generation: self.expected_file_generation,
            observed_size: self.metadata_checkpoint_advance.committed_offset,
            observed_mtime_ns: 0,
            file_status: FileStatus::Present,
            last_seen_at_ms: match self.metadata_checkpoint_advance.last_successful_scan_at_ms {
                Some(at) => at,
                None => 0,
            },
        };
        self.metadata_checkpoint_advance.validate_against(self.source_file_id, &source)
    }
}

/// The changes of one thread. A group without changes and without sources is refused: it
/// could hide a missed checkpoint.
#[derive(Clone, Debug, PartialEq, Eq)]
pub struct MetadataThreadCommit {
    pub thread_id: String,
    pub resolved_patch: Option<ResolvedThreadPatch>,
    pub sources: Vec<MetadataSourceCommit>,
}

pub open spec fn source_commit_fault(
    thread_id: Seq<char>,
    sources: Seq<MetadataSourceCommit>,
    i: int,
) -> Option<Fault> {
    first(
        sources[i].fault_for(thread_id),
        if exists|j: int|
            0 <= j < i && (#[trigger] sources[j]).source_file_id == sources[i].source_file_id {
            Some(
                Fault::DuplicateId {
                    kind: "metadata source"@,
                    id: int_text(sources[i].source_file_id as int),
                },
            )
        } else {
            None
        },
    )
}

/// The first fault among the first `n` sources of a group.
pub open spec fn source_commits_fault(
    thread_id: Seq<char>,
    sources: Seq<MetadataSourceCommit>,
    n: nat,
) -> Option<Fault>
    decreases n,
{
    if n == 0 {
        None
    } else {
        first(
            source_commits_fault(thread_id, sources, (n - 1) as nat),
            source_commit_fault(thread_id, sources, n - 1),
        )
    }
}

proof fn lemma_source_commits_fault_stays(
    thread_id: Seq<char>,
    sources: Seq<MetadataSourceCommit>,
    n: nat,
    m: nat,
)
    requires
        n <= m,
        source_commits_fault(thread_id, sources, n) is Some,
    ensures
        source_commits_fault(thread_id, sources, m) == source_commits_fault(thread_id, sources, n),
    decreases m,
{
    if n < m {
        lemma_source_commits_fault_stays(thread_id, sources, n, (m - 1) as nat);
    }
}

impl MetadataThreadCommit {
    pub open spec fn group_patch_fault(self) -> Option<Fault> {
        match self.resolved_patch {
            Some(patch) => first(
                patch_fault(patch.thread_id@, patch.resolved_at_ms),
                if patch.thread_id@ != self.thread_id@ {
                    Some(
                        violation_fault("resolved patch thread id must match metadata group id"@),
                    )
                } else {
                    None
                },
            ),
            None => None,
        }
    }

    pub open spec fn fault(self) -> Option<Fault> {
        first(
            text_fault(self.thread_id@, "thread_id"@),
            first(
                if self.resolved_patch is None && self.sources@.len() == 0 {
                    Some(
                        violation_fault(
                            "resolved_patch=None with no source commits is an invalid empty group"@,
                        ),
                    )
                } else {
                    None
                },
                first(
                    self.group_patch_fault(),
                    source_commits_fault(self.thread_id@, self.sources@, self.sources@.len()),
                ),
            ),
        )
    }

    pub fn new(
        thread_id: String,
        resolved_patch: Option<ResolvedThreadPatch>,
        sources: Vec<MetadataSourceCommit>,
    ) -> (r: Result<Self, DomainError>)
        ensures
            ({
                let value = MetadataThreadCommit { thread_id, resolved_patch, sources };
                answers(r, value.fault()) && (r is Ok ==> r->Ok_0 == value)
            }),
    {
        let value: MetadataThreadCommit = MetadataThreadCommit {
            thread_id,
            resolved_patch,
            sources,
        };
        value.validate()?;
        Ok(value)
    }

    pub fn validate(&self) -> (r: Result<(), DomainError>)
        ensures
            answers(r, self.fault()),
    {
        non_empty(self.thread_id.as_str(), "thread_id")?;
        if self.resolved_patch.is_none() && self.sources.len() == 0 {
            return Err(
                DomainError::violation(
                    "resolved_patch=None with no source commits is an invalid empty group",
                ),
            );
        }
        if let Some(patch) = &self.resolved_patch {
            patch.validate()?;
            if patch.thread_id != self.thread_id {
                return Err(
                    DomainError::violation("resolved patch thread id must match metadata group id"),
                );
            }
        }
        let sources: &Vec<MetadataSourceCommit> = &self.sources;
        let mut i: usize = 0;
        while i < sources.len()
            invariant
                sources == self.sources,
                text_fault(self.thread_id@, "thread_id"@) is None,
                self.resolved_patch is Some || sources.len() > 0,
                self.group_patch_fault() is None,
                i <= sources.len(),
                source_commits_fault(self.thread_id@, sources@, i as nat) is None,
            decreases sources.len() - i,
        {
            proof {
                if source_commits_fault(self.thread_id@, sources@, (i + 1) as nat) is Some {
                    lemma_source_commits_fault_stays(
                        self.thread_id@,
                        sources@,
                        (i + 1) as nat,
                        sources@.len(),
                    );
                }
            }
            sources[i].validate_for_thread(self.thread_id.as_str())?;
            let mut repeats: bool = false;
            let mut j: usize = 0;
            while j < i
                invariant
                    j <= i < sources.len(),
                    repeats == exists|k: int|
                        0 <= k < j && (#[trigger] sources@[k]).source_file_id
                            == sources@[i as int].source_file_id,
                decreases i - j,
            {
                if sources[j].source_file_id == sources[i].source_file_id {
                    repeats = true;
                }
                j = j + 1;
            }
            if repeats {
                return Err(
                    DomainError::DuplicateId {
                        kind: "metadata source",
                        id: decimal(sources[i].source_file_id),
                    },
                );
            }
            i = i + 1;
        }
        Ok(())
    }

    pub fn try_new(
        thread_id: String,
        resolved_patch: Option<ResolvedThreadPatch>,
        sources: Vec<MetadataSourceCommit>,
    ) -> (r: Result<Self, DomainError>)
        ensures
            ({
                let value = MetadataThreadCommit { thread_id, resolved_patch, sources };
                answers(r, value.fault()) && (r is Ok ==> r->Ok_0 == value)
            }),
    {
        MetadataThreadCommit::new(thread_id, resolved_patch, sources)
    }
}

/// The groups of one atomic metadata commit.
#[derive(Clone, Debug, PartialEq, Eq)]
pub struct MetadataCommitBatch {
    pub groups: Vec<MetadataThreadCommit>,
}

pub open spec fn group_fault(groups: Seq<MetadataThreadCommit>, i: int) -> Option<Fault> {
    first(
        groups[i].fault(),
        if exists|j: int|
            0 <= j < i && (#[trigger] groups[j]).thread_id@ == groups[i].thread_id@ {
            Some(Fault::DuplicateId { kind: "metadata thread"@, id: groups[i].thread_id@ })
        } else {
            None
        },
    )
}

/// The first fault among the first `n` groups.
pub open spec fn groups_fault(groups: Seq<MetadataThreadCommit>, n: nat) -> Option<Fault>
    decreases n,
{
    if n == 0 {
        None
    } else {
        first(groups_fault(groups, (n - 1) as nat), group_fault(groups, n - 1))
    }
}

proof fn lemma_groups_fault_stays(groups: Seq<MetadataThreadCommit>, n: nat, m: nat)
    requires
        n <= m,
        groups_fault(groups, n) is Some,
    ensures
        groups_fault(groups, m) == groups_fault(groups, n),
    decreases m,
{
    if n < m {
        lemma_groups_fault_stays(groups, n, (m - 1) as nat);
    }
}

pub open spec fn empty_batch_fault(empty: bool, kind: Seq<char>) -> Option<Fault> {
    if empty {
        Some(Fault::EmptyBatch { kind })
    } else {
        None
    }
}

impl MetadataCommitBatch {
    pub open spec fn fault(self) -> Option<Fault> {
        first(
            empty_batch_fault(self.groups@.len() == 0, "metadata commit"@),
            groups_fault(self.groups@, self.groups@.len()),
        )
    }

    pub fn new(groups: Vec<MetadataThreadCommit>) -> (r: Result<Self, DomainError>)
        ensures
            ({
                let value = MetadataCommitBatch { groups };
                answers(r, value.fault()) && (r is Ok ==> r->Ok_0 == value)
            }),
    {
        let value: MetadataCommitBatch = MetadataCommitBatch { groups };
        value.validate()?;
        Ok(value)
    }

    pub fn validate(&self) -> (r: Result<(), DomainError>)
        ensures
            answers(r, self.fault()),
    {
        let groups: &Vec<MetadataThreadCommit> = &self.groups;
        if groups.len() == 0 {
            return Err(DomainError::EmptyBatch { kind: "metadata commit" });
        }
        let mut i: usize = 0;
        while i < groups.len()
            invariant
                groups == self.groups,
                groups.len() > 0,
                i <= groups.len(),
                groups_fault(groups@, i as nat) is None,
            decreases groups.len() - i,
        {
            proof {
                if groups_fault(groups@, (i + 1) as nat) is Some {
                    lemma_groups_fault_stays(groups@, (i + 1) as nat, groups@.len());
                }
            }
            groups[i].validate()?;
            let mut repeats: bool = false;
            let mut j: usize = 0;
            while j < i
                invariant
                    j <= i < groups.len(),
                    repeats == exists|k: int|
                        0 <= k < j && (#[trigger] groups@[k]).thread_id@
                            == groups@[i as int].thread_id@,
                decreases i - j,
            {
                if groups[j].thread_id == groups[i].thread_id {
                    repeats = true;
                }
                j = j + 1;
            }
            if repeats {
                return Err(
                    DomainError::DuplicateId {
                        kind: "metadata thread",
                        id: groups[i].thread_id.clone(),
                    },
                );
            }
            i = i + 1;
        }
        Ok(())
    }

    pub fn try_new(groups: Vec<MetadataThreadCommit>) -> (r: Result<Self, DomainError>)
        ensures
            ({
                let value = MetadataCommitBatch { groups };
                answers(r, value.fault()) && (r is Ok ==> r->Ok_0 == value)
            }),
    {
        MetadataCommitBatch::new(groups)
    }
}

/// What a metadata commit came to.
#[derive(Clone, Copy, Debug, PartialEq, Eq, Structural)]
pub struct CommitOutcome {
    pub committed_group_count: usize,
    pub data_revision: i64,
    pub data_changed: bool,
}

impl CommitOutcome {
    pub fn new(committed_group_count: usize, data_revision: i64, data_changed: bool) -> (r: Result<
        Self,
        DomainError,
    >)
        ensures
            answers(
                r,
                first(
                    empty_batch_fault(committed_group_count == 0, "committed metadata groups"@),
                    non_negative_fault(data_revision, "data_revision"@),
                ),
            ),
            r matches Ok(v) ==> v == (CommitOutcome {
                committed_group_count,
                data_revision,
                data_changed,
            }),
    {
        if committed_group_count == 0 {
            return Err(DomainError::EmptyBatch { kind: "committed metadata groups" });
        }
        non_negative(data_revision, "data_revision")?;
        Ok(CommitOutcome { committed_group_count, data_revision, data_changed })
    }
}

pub open spec fn rebuild_id_fault(ids: Seq<i64>, i: int) -> Option<Fault> {
    first(
        positive_fault(ids[i], "source_file_id"@),
        if exists|j: int| 0 <= j < i && #[trigger] ids[j] == ids[i] {
            Some(Fault::DuplicateId { kind: "checkpoint source"@, id: int_text(ids[i] as int) })
        } else {
            None
        },
    )
}

/// The first fault among the first `n` ids.
pub open spec fn rebuild_ids_fault(ids: Seq<i64>, n: nat) -> Option<Fault>
    decreases n,
{
    if n == 0 {
        None
    } else {
        first(rebuild_ids_fault(ids, (n - 1) as nat), rebuild_id_fault(ids, n - 1))
    }
}

/// The sources of a rebuild: at least one, each positive, none twice.
pub open spec fn rebuild_sources_fault(ids: Seq<i64>) -> Option<Fault> {
    first(
        empty_batch_fault(ids.len() == 0, "checkpoint rebuild sources"@),
        rebuild_ids_fault(ids, ids.len()),
    )
}

proof fn lemma_rebuild_ids_fault_stays(ids: Seq<i64>, n: nat, m: nat)
    requires
        n <= m,
        rebuild_ids_fault(ids, n) is Some,
    ensures
        rebuild_ids_fault(ids, m) == rebuild_ids_fault(ids, n),
    decreases m,
{
    if n < m {
        lemma_rebuild_ids_fault_stays(ids, n, (m - 1) as nat);
    }
}

fn validate_rebuild_sources(ids: &Vec<i64>) -> (r: Result<(), DomainError>)
    ensures
        answers(r, rebuild_sources_fault(ids@)),
{
    if ids.len() == 0 {
        return Err(DomainError::EmptyBatch { kind: "checkpoint rebuild sources" });
    }
    let mut i: usize = 0;
    while i < ids.len()
        invariant
            ids.len() > 0,
            i <= ids.len(),
            rebuild_ids_fault(ids@, i as nat) is None,
        decreases ids.len() - i,
    {
        proof {
            if rebuild_ids_fault(ids@, (i + 1) as nat) is Some {
                lemma_rebuild_ids_fault_stays(ids@, (i + 1) as nat, ids@.len());
            }
        }
        positive(ids[i], "source_file_id")?;
        let mut repeats: bool = false;
        let mut j: usize = 0;
        while j < i
            invariant
                j <= i < ids.len(),
                repeats == exists|k: int| 0 <= k < j && #[trigger] ids@[k] == ids@[i as int],
            decreases i - j,
        {
            if ids[j] == ids[i] {
                repeats = true;
            }
            j = j + 1;
        }
        if repeats {
            return Err(
                DomainError::DuplicateId { kind: "checkpoint source", id: decimal(ids[i]) },
            );
        }
        i = i + 1;
    }
    Ok(())
}

/// What marking checkpoints for rebuild came to.
#[derive(Clone, Debug, PartialEq, Eq)]
pub struct CheckpointOutcome {
    pub consumer_kind: ConsumerKind,
    pub source_file_ids: Vec<i64>,
}

impl CheckpointOutcome {
    pub open spec fn fault(self) -> Option<Fault> {
        rebuild_sources_fault(self.source_file_ids@)
    }

    pub fn new(consumer_kind: ConsumerKind, source_file_ids: Vec<i64>) -> (r: Result<
        Self,
        DomainError,
    >)
        ensures
            ({
                let value = CheckpointOutcome { consumer_kind, source_file_ids };
                answers(r, value.fault()) && (r is Ok ==> r->Ok_0 == value)
            }),
    {
        let value: CheckpointOutcome = CheckpointOutcome { consumer_kind, source_file_ids };
        value.validate()?;
        Ok(value)
    }

    pub fn validate(&self) -> (r: Result<(), DomainError>)
        ensures
            answers(r, self.fault()),
    {
        validate_rebuild_sources(&self.source_file_ids)
    }
}

/// A request to mark checkpoints for rebuild.
#[derive(Clone, Debug, PartialEq, Eq)]
pub struct CheckpointRebuildCommand {
    pub consumer_kind: ConsumerKind,
    pub source_file_ids: Vec<i64>,
}

impl CheckpointRebuildCommand {
    pub open spec fn fault(self) -> Option<Fault> {
        rebuild_sources_fault(self.source_file_ids@)
    }

    pub fn new(consumer_kind: ConsumerKind, source_file_ids: Vec<i64>) -> (r: Result<
        Self,
        DomainError,
    >)
        ensures
            ({
                let value = CheckpointRebuildCommand { consumer_kind, source_file_ids };
                answers(r, value.fault()) && (r is Ok ==> r->Ok_0 == value)
            }),
    {
        let value: CheckpointRebuildCommand = CheckpointRebuildCommand {
            consumer_kind,
            source_file_ids,
        };
        value.validate()?;
        Ok(value)
    }

    pub fn validate(&self) -> (r: Result<(), DomainError>)
        ensures
            answers(r, self.fault()),
    {
        validate_rebuild_sources(&self.source_file_ids)
    }
}

/// A batch is accepted only if every observation stands on its own and no two share a path
/// or a physical identity.
pub proof fn law_accepted_observations_are_distinct(batch: SourceObservationBatch)
    requires
        batch.fault() is None,
    ensures
        forall|i: int|
            0 <= i < batch.observations@.len() ==> (#[trigger] batch.observations@[i]).fault()
                is None,
        forall|i: int, j: int|
            0 <= i < j < batch.observations@.len() ==> (
            #[trigger] batch.observations@[i]).current_path@ != (
            #[trigger] batch.observations@[j]).current_path@,
        forall|i: int, j: int|
            0 <= i < j < batch.observations@.len() ==> (
            #[trigger] batch.observations@[i]).device_id != (
            #[trigger] batch.observations@[j]).device_id || batch.observations@[i].inode
                != batch.observations@[j].inode,
{
    let observations = batch.observations@;
    assert forall|i: int| 0 <= i < observations.len() implies observation_fault(
        observations,
        i,
    ) is None by {
        lemma_observation_clean(observations, observations.len(), i);
    }
    assert forall|i: int, j: int| 0 <= i < j < observations.len() implies (
    #[trigger] observations[i]).current_path@ != (#[trigger] observations[j]).current_path@ by {
        assert(observation_fault(observations, j) is None);
        assert(!path_seen(observations, j));
    }
    assert forall|i: int, j: int| 0 <= i < j < observations.len() implies (
    #[trigger] observations[i]).device_id != (#[trigger] observations[j]).device_id
        || observations[i].inode != observations[j].inode by {
        assert(observation_fault(observations, j) is None);
        assert(!identity_seen(observations, j));
    }
    assert forall|i: int| 0 <= i < observations.len() implies (
    #[trigger] observations[i]).fault() is None by {
        assert(observation_fault(observations, i) is None);
    }
}

proof fn lemma_observation_clean(observations: Seq<SourceObservation>, n: nat, i: int)
    requires
        observations_fault(observations, n) is None,
        0 <= i < n,
    ensures
        observation_fault(observations, i) is None,
    decreases n,
{
    if i < n - 1 {
        lemma_observation_clean(observations, (n - 1) as nat, i);
    }
}

} // verus!
