use vstd::prelude::*;

verus! {

/// Severity of a transient status message shown in the footer. Drives the
/// colour of the banner so that informational, warning and error states are
/// distinguishable in any language.
#[derive(Debug, Clone, Copy, PartialEq, Eq, Structural)]
pub enum StatusSeverity {
    Info,
    Warning,
    Error,
}

impl Default for StatusSeverity {
    fn default() -> (s: StatusSeverity)
        ensures
            s == StatusSeverity::Info,
    {
        StatusSeverity::Info
    }
}

} // verus!
