//! Severity and availability of source views.
use vstd::prelude::*;

verus! {

/// Severity of a diagnostic of a source reader.
#[derive(Clone, Copy, Debug, PartialEq, Eq, Structural)]
pub enum DiagnosticSeverity {
    Info,
    Warning,
    Conflict,
    Error,
}

impl DiagnosticSeverity {
    pub open spec fn name(self) -> Seq<char> {
        match self {
            DiagnosticSeverity::Info => "info"@,
            DiagnosticSeverity::Warning => "warning"@,
            DiagnosticSeverity::Conflict => "conflict"@,
            DiagnosticSeverity::Error => "error"@,
        }
    }

    pub fn as_str(self) -> (r: &'static str)
        ensures
            r@ == self.name(),
    {
        match self {
            DiagnosticSeverity::Info => "info",
            DiagnosticSeverity::Warning => "warning",
            DiagnosticSeverity::Conflict => "conflict",
            DiagnosticSeverity::Error => "error",
        }
    }
}

/// Availability of one source view besides the rollouts. `Partial` means that complete rows
/// were kept but a trailing half line was met.
#[derive(Clone, Copy, Debug, PartialEq, Eq, Structural)]
pub enum SourceAvailability {
    Complete,
    Partial,
    Unavailable,
}

impl SourceAvailability {
    pub open spec fn name(self) -> Seq<char> {
        match self {
            SourceAvailability::Complete => "complete"@,
            SourceAvailability::Partial => "partial"@,
            SourceAvailability::Unavailable => "unavailable"@,
        }
    }

    pub fn as_str(self) -> (r: &'static str)
        ensures
            r@ == self.name(),
    {
        match self {
            SourceAvailability::Complete => "complete",
            SourceAvailability::Partial => "partial",
            SourceAvailability::Unavailable => "unavailable",
        }
    }

    pub fn is_complete(self) -> (r: bool)
        ensures
            r == (self is Complete),
    {
        match self {
            SourceAvailability::Complete => true,
            _ => false,
        }
    }
}

} // verus!
