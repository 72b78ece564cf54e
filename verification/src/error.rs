//! The failures a handle reports, each with the path it concerns and the
//! operating-system error underneath.

use crate::os::OsError;
use std::path::PathBuf;
use vstd::prelude::*;

verus! {

/// Which operation failed.
#[derive(Clone, Copy, Debug, PartialEq, Eq, Structural)]
pub enum FailureKind {
    /// The file could not be opened when the handle was first made.
    OpenFailure,
    /// The operating system failed a read, other than by an interruption.
    ReadFailure,
    /// The operating system refused a seek, such as one before byte 0.
    SeekFailure,
    /// The file could not be opened again for a duplicate, though it could
    /// be opened when the source handle was made.
    DuplicationInvariantViolation,
}

impl FailureKind {
    /// The wording of `description`, one fixed phrase per kind.
    pub open spec fn description_text(self) -> Seq<char> {
        match self {
            FailureKind::OpenFailure => "cannot open file"@,
            FailureKind::ReadFailure => "cannot read from file"@,
            FailureKind::SeekFailure => "cannot seek in file"@,
            FailureKind::DuplicationInvariantViolation =>
                "cannot open file again for a duplicate handle"@,
        }
    }

    /// A short phrase that names the failure, for diagnostics.
    pub fn description(&self) -> (text: &'static str)
        ensures
            text@ == self.description_text(),
    {
        match self {
            FailureKind::OpenFailure => "cannot open file",
            FailureKind::ReadFailure => "cannot read from file",
            FailureKind::SeekFailure => "cannot seek in file",
            FailureKind::DuplicationInvariantViolation =>
                "cannot open file again for a duplicate handle",
        }
    }
}

/// A failed operation on a handle.
#[derive(Debug, PartialEq, Eq)]
pub struct HandleError {
    /// The operation that failed.
    pub kind: FailureKind,
    /// The path of the handle it failed on.
    pub path: PathBuf,
    /// What the operating system reported.
    pub cause: OsError,
}

} // verus!
