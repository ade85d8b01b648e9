use vstd::prelude::*;

verus! {

/// Every failure the library reports.
#[derive(Debug, Clone, PartialEq, Eq)]
pub enum AppError {
    /// The version-control binary is not installed.
    GitNotInstalled,
    /// An external program could not be started.
    CommandExecutionError { command: String, reason: String },
    /// An external program ran and exited with a failure.
    CommandFailed { command: String, code: i32, stderr: String },
    /// No known package manager and no fixed command for this system.
    PlatformDetectionFailed,
    /// No profile of that name is stored.
    ProfileNotFound(String),
    /// The profile store could not be read or written.
    GlobalConfigError(String),
    /// The stored profile data is malformed.
    SerializationError(String),
    /// The user aborted an interactive prompt.
    OperationCancelled,
    /// Some other input or output failed.
    IoError(String),
    /// The current user has no home directory.
    HomeDirectoryNotFound,
    /// The live identity lacks a name or an email.
    IncompleteIdentity,
    /// A direct set was asked for with no value to set.
    NothingToSet,
    /// The options given cannot be combined.
    InvalidUsage(String),
}

} // verus!
