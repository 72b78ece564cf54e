//! The handle: the path it was opened from, the descriptor it owns, and the
//! offset that descriptor stands at.
//!
//! The handle makes no operating-system call itself. Its owner makes each
//! call on the descriptor and hands the outcome to the method of the same
//! name, which records what the call did to the position and classifies a
//! failure. A handle never shares its descriptor: a duplicate is built
//! around a descriptor of its own, opened afresh from the same path.
//!
//! A handle holds no lock. One handle is for one thread at a time; to read
//! the same file from several threads, make a duplicate for each.

use crate::error::{FailureKind, HandleError};
use crate::os::OsError;
use std::path::PathBuf;
use vstd::prelude::*;

verus! {

/// What a completed read call means for the caller.
#[derive(Clone, Copy, Debug, PartialEq, Eq, Structural)]
pub enum ReadStep {
    /// This many bytes were placed at the start of the buffer; with a
    /// buffer that has room, 0 means the end of the file.
    Done(usize),
    /// The call was interrupted before it read anything: make it again.
    Retry,
}

/// The state of a handle that contracts speak of: its path and the offset
/// of its next read.
pub struct SeekerView {
    pub path: PathBuf,
    pub position: nat,
}

impl SeekerView {
    /// A handle just opened from `path`: it stands at the first byte.
    pub open spec fn opened(path: PathBuf) -> SeekerView {
        SeekerView { path, position: 0 }
    }

    /// A duplicate of this handle: the same path, opened afresh, wherever
    /// this handle stands.
    pub open spec fn duplicated(self) -> SeekerView {
        SeekerView::opened(self.path)
    }

    /// The error for a failed operation of the given kind on this handle.
    pub open spec fn failure(self, kind: FailureKind, cause: OsError) -> HandleError {
        HandleError { kind, path: self.path, cause }
    }

    /// True when `count` more bytes end at an offset that fits in 64 bits,
    /// the width of a file offset.
    pub open spec fn can_advance(self, count: usize) -> bool {
        self.position + count <= u64::MAX
    }

    /// The handle after a read call with the given outcome: a read that
    /// delivered bytes moves the position past them, any other leaves the
    /// handle as it was.
    pub open spec fn after_read(self, outcome: Result<usize, OsError>) -> SeekerView {
        match outcome {
            Ok(count) => SeekerView { position: self.position + count as nat, ..self },
            Err(_) => self,
        }
    }

    /// What a read call with the given outcome reports to the caller.
    pub open spec fn read_result(self, outcome: Result<usize, OsError>) -> Result<
        ReadStep,
        HandleError,
    > {
        match outcome {
            Ok(count) => Ok(ReadStep::Done(count)),
            Err(cause) => if cause.interrupted() {
                Ok(ReadStep::Retry)
            } else {
                Err(self.failure(FailureKind::ReadFailure, cause))
            },
        }
    }

    /// The handle after a seek call with the given outcome: a seek that
    /// succeeded puts the position at the offset the system reported, a
    /// seek that failed leaves the handle as it was.
    pub open spec fn after_seek(self, outcome: Result<u64, OsError>) -> SeekerView {
        match outcome {
            Ok(offset) => SeekerView { position: offset as nat, ..self },
            Err(_) => self,
        }
    }

    /// What a seek call with the given outcome reports to the caller.
    pub open spec fn seek_result(self, outcome: Result<u64, OsError>) -> Result<u64, HandleError> {
        match outcome {
            Ok(offset) => Ok(offset),
            Err(cause) => Err(self.failure(FailureKind::SeekFailure, cause)),
        }
    }
}

/// A read handle on one file: the path, the descriptor `D` that was opened
/// from it, and the offset the descriptor stands at.
#[derive(Debug)]
pub struct MultiFileSeeker<D> {
    path: PathBuf,
    position: u64,
    descriptor: D,
}

impl<D> View for MultiFileSeeker<D> {
    type V = SeekerView;

    closed spec fn view(&self) -> SeekerView {
        SeekerView { path: self.path, position: self.position as nat }
    }
}

impl<D> MultiFileSeeker<D> {
    /// The descriptor this handle owns.
    pub closed spec fn held(&self) -> D {
        self.descriptor
    }

    /// Makes a handle from the outcome of opening `path` for reading. A
    /// successful open gives a handle at offset 0 that owns the descriptor;
    /// a failed one gives `OpenFailure` and no handle. Nothing is retried.
    pub fn new(path: PathBuf, opened: Result<D, OsError>) -> (made: Result<Self, HandleError>)
        ensures
            match opened {
                Ok(descriptor) => made matches Ok(handle) && handle@ == SeekerView::opened(path)
                    && handle.held() == descriptor,
                Err(cause) => made == Err::<Self, HandleError>(
                    SeekerView::opened(path).failure(FailureKind::OpenFailure, cause),
                ),
            },
    {
        match opened {
            Ok(descriptor) => Ok(MultiFileSeeker { path, position: 0, descriptor }),
            Err(cause) => Err(HandleError { kind: FailureKind::OpenFailure, path, cause }),
        }
    }

    /// Makes a duplicate from the outcome of opening this handle's path
    /// once more. The duplicate owns the new descriptor and stands at
    /// offset 0, wherever this handle stands; this handle is not touched.
    /// A failed open gives `DuplicationInvariantViolation` and no handle.
    pub fn duplicate(&self, reopened: Result<D, OsError>) -> (made: Result<Self, HandleError>)
        ensures
            match reopened {
                Ok(descriptor) => made matches Ok(handle) && handle@ == self@.duplicated()
                    && handle.held() == descriptor,
                Err(cause) => made == Err::<Self, HandleError>(
                    self@.failure(FailureKind::DuplicationInvariantViolation, cause),
                ),
            },
    {
        let path = self.path.clone();
        match reopened {
            Ok(descriptor) => Ok(MultiFileSeeker { path, position: 0, descriptor }),
            Err(cause) => Err(
                HandleError { kind: FailureKind::DuplicationInvariantViolation, path, cause },
            ),
        }
    }

    /// Tells whether the position can move on by `count` bytes, that is,
    /// whether the offset it would reach is one a descriptor can stand at.
    pub fn can_advance(&self, count: usize) -> (fits: bool)
        ensures
            fits == self@.can_advance(count),
    {
        count as u64 <= u64::MAX - self.position
    }

    /// Records the outcome of one read call on the descriptor. Bytes that
    /// were read move the position past them. An interruption is no error
    /// of the handle: the caller is told to make the call again. Any other
    /// failure is a `ReadFailure`, and the position stays.
    ///
    /// The position is a 64-bit file offset. A count that would carry it
    /// past the largest one cannot come from a read on this handle's
    /// descriptor and is not accepted; `can_advance` tells.
    pub fn read(&mut self, outcome: Result<usize, OsError>) -> (step: Result<ReadStep, HandleError>)
        requires
            outcome matches Ok(count) ==> old(self)@.can_advance(count),
        ensures
            step == old(self)@.read_result(outcome),
            final(self)@ == old(self)@.after_read(outcome),
            final(self).held() == old(self).held(),
    {
        match outcome {
            Ok(count) => {
                self.position = self.position + count as u64;
                Ok(ReadStep::Done(count))
            },
            Err(cause) => {
                if cause.is_interrupted() {
                    Ok(ReadStep::Retry)
                } else {
                    Err(
                        HandleError {
                            kind: FailureKind::ReadFailure,
                            path: self.path.clone(),
                            cause,
                        },
                    )
                }
            },
        }
    }

    /// Records the outcome of one seek call on the descriptor. A seek that
    /// succeeded puts the position at the offset the system reported, which
    /// is also the result. A seek that failed is a `SeekFailure`, and the
    /// position stays.
    pub fn seek(&mut self, outcome: Result<u64, OsError>) -> (offset: Result<u64, HandleError>)
        ensures
            offset == old(self)@.seek_result(outcome),
            final(self)@ == old(self)@.after_seek(outcome),
            final(self).held() == old(self).held(),
    {
        match outcome {
            Ok(reached) => {
                self.position = reached;
                Ok(reached)
            },
            Err(cause) => Err(
                HandleError { kind: FailureKind::SeekFailure, path: self.path.clone(), cause },
            ),
        }
    }

    /// The path this handle was opened from.
    pub fn path(&self) -> (path: &PathBuf)
        ensures
            *path == self@.path,
    {
        &self.path
    }

    /// The offset of the next read.
    pub fn position(&self) -> (position: u64)
        ensures
            position == self@.position,
    {
        self.position
    }

    /// The descriptor, for the owner to make a call on. The handle itself
    /// stays as it is: a read or a seek made on the descriptor is to be
    /// reported to `read` or `seek`, so that the position goes on naming
    /// the offset the descriptor stands at.
    pub fn descriptor_mut(&mut self) -> (descriptor: &mut D)
        ensures
            *descriptor == old(self).held(),
            final(self).held() == *final(descriptor),
            final(self)@ == old(self)@,
    {
        &mut self.descriptor
    }
}

} // verus!
