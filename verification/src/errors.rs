use vstd::prelude::*;

verus! {

/// The error kinds of the launcher core.
///
/// Each fallible step surfaces one of these to its caller. Variants carry the
/// actionable detail as plain data: the candidate path that resolution tried,
/// the path a metadata read failed on, or the exit-status description of a
/// failed probe run.
#[derive(Debug, PartialEq, Eq)]
pub enum LaunchError {
    /// No candidate path held the binary; carries the first attempted
    /// candidate, or the "<unknown>" placeholder when none was tried.
    BinaryNotFound { candidate: String },
    /// A filesystem operation failed (directory creation, metadata read).
    Io { message: String },
    /// A metadata read failed on a specific path.
    Metadata { path: String, message: String },
    /// `data_path` was empty; no side effect has occurred.
    DataPathRequired,
    /// The binary could not be started (spawn or probe invocation failed).
    BinaryExecution { message: String },
    /// The probe invocation ran but exited with a non-success status.
    BinaryFailed { status: String },
}

} // verus!
