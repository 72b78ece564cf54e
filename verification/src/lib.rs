//! Bookkeeping for seekable read handles over one file on disk.
//!
//! A handle remembers the path it was opened from, owns the descriptor that
//! was opened for it, and tracks the offset that descriptor stands at. The
//! caller makes the operating-system calls (open, read, seek) and reports
//! each outcome to the handle; the handle decides what the outcome means:
//! the next position, a retry, or a classified failure.
//!
//! Duplicating a handle means opening the same path afresh. A duplicate has
//! a descriptor of its own, starts at offset 0 and shares no position and no
//! lock with its source, so that several threads can read one file at once,
//! each through a duplicate of its own. A single handle is not meant to be
//! shared between threads.
//!
//! - `os`: what the operating system reports when a call fails.
//! - `path`: the path type of the standard library, carried as a value.
//! - `error`: the failures a handle reports.
//! - `handle`: the handle and its four operations.
//! - `laws`: what holds of every handle.

pub mod error;
pub mod handle;
pub mod laws;
pub mod os;
pub mod path;
