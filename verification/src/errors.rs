//! The error taxonomy of the tool: every failure is fatal and is rendered
//! as one human-readable line at the entry point.

use vstd::prelude::*;
use vstd::string::StringExecFns;

verus! {

/// Everything that can go wrong in one run. `ToolNonZeroExit` is an expected
/// outcome (the analysis tool found problems), not an internal fault; the
/// remaining variants are internal failures.
#[derive(Clone, Debug)]
pub enum LintError {
    /// The starting directory for the config search could not be determined.
    WorkingDirectoryUnavailable,
    /// A config file was found but could not be read.
    ConfigReadFailure { path: String },
    /// A config file was read but does not hold the expected schema.
    ConfigParseFailure { path: String, detail: String },
    /// The external tool could not be launched.
    ToolSpawnFailure,
    /// The external tool was launched but its completion could not be observed.
    ToolWaitFailure,
    /// The external tool ran and reported failure with this status code
    /// (`None` when the tool was stopped without a code).
    ToolNonZeroExit { status: Option<i32> },
}

/// The diagnostic line that `message` renders for each error.
pub open spec fn spec_message(e: LintError) -> Seq<char> {
    match e {
        LintError::WorkingDirectoryUnavailable => "failed to get current directory"@,
        LintError::ConfigReadFailure { path } => "failed to read config "@ + path@,
        LintError::ConfigParseFailure { path, detail } => "failed to parse config "@ + path@
            + ": "@ + detail@,
        LintError::ToolSpawnFailure => "unable to start clippy"@,
        LintError::ToolWaitFailure => "unable to wait for clippy"@,
        LintError::ToolNonZeroExit { status: _ } => "clippy returned non-0 status"@,
    }
}

impl LintError {
    /// Renders the error as one human-readable line.
    pub fn message(&self) -> (r: String)
        ensures
            r@ == spec_message(*self),
    {
        match self {
            LintError::WorkingDirectoryUnavailable => "failed to get current directory".to_owned(),
            LintError::ConfigReadFailure { path } => {
                let mut m = "failed to read config ".to_owned();
                m.append(path.as_str());
                m
            },
            LintError::ConfigParseFailure { path, detail } => {
                let mut m = "failed to parse config ".to_owned();
                m.append(path.as_str());
                m.append(": ");
                m.append(detail.as_str());
                m
            },
            LintError::ToolSpawnFailure => "unable to start clippy".to_owned(),
            LintError::ToolWaitFailure => "unable to wait for clippy".to_owned(),
            LintError::ToolNonZeroExit { status: _ } => "clippy returned non-0 status".to_owned(),
        }
    }
}

} // verus!
