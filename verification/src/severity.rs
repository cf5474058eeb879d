//! The default severity type.

use vstd::prelude::*;
use vstd::string::StringExecFns;

use crate::traits::{
    HasDebugSeverity, HasDeveloperWarningSeverity, HasErrorSeverity, HasFatalSeverity,
    HasInfoSeverity, HasTraceSeverity, HasWarningSeverity, IsSeverity,
};

verus! {

/// The default severity type provided by the library.
///
/// Callers can always define their own severity type; this one supports every
/// named level, ordered from the most verbose to the most critical.
#[derive(Clone, Copy, Debug, PartialEq, Eq, Structural)]
pub enum Severity {
    /// Highly verbose tracing of code, only applicable for developers tracing
    /// program execution.
    Trace,
    /// Messages useful to developers, but too verbose for other use.
    Debug,
    /// Warnings useful to developers, but not applicable for other users.
    DeveloperWarning,
    /// Informative messages to all users.
    Info,
    /// Something may be wrong, but the program can safely continue.
    Warning,
    /// Something went wrong, but the program can continue.
    Error,
    /// Something went wrong and the program cannot continue.
    Fatal,
}

impl Severity {
    /// The position of the level in the order, from the most verbose.
    pub open spec fn rank(self) -> int {
        match self {
            Severity::Trace => 0,
            Severity::Debug => 1,
            Severity::DeveloperWarning => 2,
            Severity::Info => 3,
            Severity::Warning => 4,
            Severity::Error => 5,
            Severity::Fatal => 6,
        }
    }

    fn rank_val(&self) -> (r: u8)
        ensures
            r as int == self.rank(),
    {
        match self {
            Severity::Trace => 0,
            Severity::Debug => 1,
            Severity::DeveloperWarning => 2,
            Severity::Info => 3,
            Severity::Warning => 4,
            Severity::Error => 5,
            Severity::Fatal => 6,
        }
    }
}

impl Default for Severity {
    /// The default level for a message whose severity was never chosen.
    fn default() -> (s: Self)
        ensures
            s == Severity::Info,
    {
        Severity::Info
    }
}

impl IsSeverity for Severity {
    open spec fn sev_le(self, other: Self) -> bool {
        self.rank() <= other.rank()
    }

    open spec fn min_spec() -> Self {
        Severity::Trace
    }

    open spec fn max_spec() -> Self {
        Severity::Fatal
    }

    open spec fn name_spec(&self) -> Seq<char> {
        match *self {
            Severity::Trace => "trace"@,
            Severity::Debug => "debug"@,
            Severity::DeveloperWarning => "dev warning"@,
            Severity::Info => "info"@,
            Severity::Warning => "warning"@,
            Severity::Error => "error"@,
            Severity::Fatal => "fatal"@,
        }
    }

    open spec fn display_spec(&self) -> Seq<char> {
        match *self {
            Severity::Trace => "TRACE"@,
            Severity::Debug => "DEBUG"@,
            Severity::DeveloperWarning => "DEV WARNING"@,
            Severity::Info => "INFO"@,
            Severity::Warning => "WARNING"@,
            Severity::Error => "ERROR"@,
            Severity::Fatal => "FATAL"@,
        }
    }

    proof fn lemma_order(a: Self, b: Self, c: Self) {
    }

    proof fn lemma_bounds(s: Self) {
    }

    fn le(&self, other: &Self) -> (r: bool) {
        self.rank_val() <= other.rank_val()
    }

    fn min() -> (r: Self) {
        Severity::Trace
    }

    fn max() -> (r: Self) {
        Severity::Fatal
    }

    fn name(&self) -> (s: String) {
        match self {
            Severity::Trace => String::from_str("trace"),
            Severity::Debug => String::from_str("debug"),
            Severity::DeveloperWarning => String::from_str("dev warning"),
            Severity::Info => String::from_str("info"),
            Severity::Warning => String::from_str("warning"),
            Severity::Error => String::from_str("error"),
            Severity::Fatal => String::from_str("fatal"),
        }
    }

    fn display_name(&self) -> (s: String) {
        match self {
            Severity::Trace => String::from_str("TRACE"),
            Severity::Debug => String::from_str("DEBUG"),
            Severity::DeveloperWarning => String::from_str("DEV WARNING"),
            Severity::Info => String::from_str("INFO"),
            Severity::Warning => String::from_str("WARNING"),
            Severity::Error => String::from_str("ERROR"),
            Severity::Fatal => String::from_str("FATAL"),
        }
    }
}

impl HasTraceSeverity for Severity {
    open spec fn trace_severity_spec() -> Self {
        Severity::Trace
    }

    fn trace_severity() -> (s: Self) {
        Severity::Trace
    }
}

impl HasDebugSeverity for Severity {
    open spec fn debug_severity_spec() -> Self {
        Severity::Debug
    }

    fn debug_severity() -> (s: Self) {
        Severity::Debug
    }
}

impl HasDeveloperWarningSeverity for Severity {
    open spec fn developer_warning_severity_spec() -> Self {
        Severity::DeveloperWarning
    }

    fn developer_warning_severity() -> (s: Self) {
        Severity::DeveloperWarning
    }
}

impl HasInfoSeverity for Severity {
    open spec fn info_severity_spec() -> Self {
        Severity::Info
    }

    fn info_severity() -> (s: Self) {
        Severity::Info
    }
}

impl HasWarningSeverity for Severity {
    open spec fn warning_severity_spec() -> Self {
        Severity::Warning
    }

    fn warning_severity() -> (s: Self) {
        Severity::Warning
    }
}

impl HasErrorSeverity for Severity {
    open spec fn error_severity_spec() -> Self {
        Severity::Error
    }

    fn error_severity() -> (s: Self) {
        Severity::Error
    }
}

impl HasFatalSeverity for Severity {
    open spec fn fatal_severity_spec() -> Self {
        Severity::Fatal
    }

    fn fatal_severity() -> (s: Self) {
        Severity::Fatal
    }
}

} // verus!
