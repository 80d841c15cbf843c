//! The fatal errors of a run. Data errors (malformed records) are not
//! among them: normalization drops such records.
use vstd::prelude::*;

verus! {

/// Why a board page could not be looked up.
#[derive(Clone, Copy, Debug, PartialEq, Eq, Structural)]
pub enum LookupError {
    /// No user or organization has the configured login.
    OwnerNotFound,
    /// The owner has no project with the configured number.
    ProjectNotFound,
    /// The project has no field named "Status".
    StatusFieldMissing,
}

/// A configuration that cannot be applied to the board.
#[derive(Clone, Debug)]
pub enum ConfigError {
    /// Neither closed nor open columns were given.
    NoColumnsConfigured,
    /// No option of the status field has this name.
    ColumnNotFound(String),
    /// This closed column is also configured as an open column.
    OverlappingColumns(String),
}

/// A fatal error, which ends the run before any further issue is changed.
#[derive(Clone, Debug)]
pub enum ReconcileError {
    Config(ConfigError),
    Lookup(LookupError),
}

} // verus!
