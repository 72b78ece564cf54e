//! What the operating system reports when a call fails.

use vstd::prelude::*;

verus! {

/// The class of a failure, as far as the handle distinguishes classes.
#[derive(Clone, Copy, Debug, PartialEq, Eq, Structural)]
pub enum OsErrorKind {
    /// The path names nothing.
    NotFound,
    /// The caller may not read the file.
    PermissionDenied,
    /// A signal cut the call short before it did anything.
    Interrupted,
    /// An argument was not acceptable, such as an offset before byte 0.
    InvalidInput,
    /// Any other failure.
    Other,
}

/// One failed operating-system call: its class and, where the system gave
/// one, its raw error number.
#[derive(Clone, Copy, Debug, PartialEq, Eq)]
pub struct OsError {
    pub kind: OsErrorKind,
    pub code: Option<i32>,
}

impl OsError {
    /// True when the call may simply be made again.
    pub open spec fn interrupted(self) -> bool {
        self.kind == OsErrorKind::Interrupted
    }

    /// Tells whether the call was cut short by a signal.
    pub fn is_interrupted(&self) -> (b: bool)
        ensures
            b == self.interrupted(),
    {
        self.kind == OsErrorKind::Interrupted
    }
}

} // verus!
