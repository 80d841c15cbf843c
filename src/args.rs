//! The run's configuration, as given on the command line or in the
//! environment.
use vstd::prelude::*;

verus! {

/// What one run is asked to do.
pub struct Args {
    /// The token for API calls.
    pub github_token: String,
    /// The user or organization that owns the project.
    pub owner: String,
    /// The number of the project.
    pub project_number: usize,
    /// Column names in which issues should be closed.
    pub closed_statuses: Vec<String>,
    /// Column names in which issues should be open.
    pub open_statuses: Vec<String>,
    /// How much is logged.
    pub verbosity: LogLevel,
}

/// Log output verbosity.
#[derive(Clone, Copy, Debug, PartialEq, Eq, Structural)]
pub enum LogLevel {
    Info,
    Debug,
    Trace,
}

} // verus!
