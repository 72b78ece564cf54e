//! Each operation of the handle on outcomes written out by hand.

use multi_file_seeker::error::{FailureKind, HandleError};
use multi_file_seeker::handle::{MultiFileSeeker, ReadStep};
use multi_file_seeker::os::{OsError, OsErrorKind};
use std::path::PathBuf;

fn os_error(kind: OsErrorKind, code: i32) -> OsError {
    OsError { kind, code: Some(code) }
}

fn archive() -> PathBuf {
    PathBuf::from("/srv/data/archive.zip")
}

fn opened_at(position: u64) -> MultiFileSeeker<u32> {
    let mut handle = MultiFileSeeker::new(archive(), Ok(3)).unwrap();
    assert_eq!(handle.seek(Ok(position)), Ok(position));
    handle
}

#[test]
fn new_handle_stands_at_first_byte() {
    let handle = MultiFileSeeker::new(archive(), Ok(3u32)).unwrap();
    assert_eq!(handle.position(), 0);
    assert_eq!(handle.path(), &archive());
}

#[test]
fn new_handle_owns_the_descriptor_it_was_given() {
    let mut handle = MultiFileSeeker::new(archive(), Ok(17u32)).unwrap();
    assert_eq!(*handle.descriptor_mut(), 17);
    *handle.descriptor_mut() = 18;
    assert_eq!(*handle.descriptor_mut(), 18);
    assert_eq!(handle.position(), 0);
    assert_eq!(handle.path(), &archive());
}

#[test]
fn open_of_missing_file_is_open_failure() {
    let cause = os_error(OsErrorKind::NotFound, 2);
    let made = MultiFileSeeker::<u32>::new(PathBuf::from("/nowhere/at/all"), Err(cause));
    assert_eq!(
        made.err(),
        Some(HandleError {
            kind: FailureKind::OpenFailure,
            path: PathBuf::from("/nowhere/at/all"),
            cause,
        })
    );
}

#[test]
fn open_without_permission_is_open_failure() {
    let cause = os_error(OsErrorKind::PermissionDenied, 13);
    let error = MultiFileSeeker::<u32>::new(archive(), Err(cause)).err().unwrap();
    assert_eq!(error.kind, FailureKind::OpenFailure);
    assert_eq!(error.path, archive());
    assert_eq!(error.cause, cause);
}

#[test]
fn interrupted_open_is_not_retried() {
    let cause = os_error(OsErrorKind::Interrupted, 4);
    let error = MultiFileSeeker::<u32>::new(archive(), Err(cause)).err().unwrap();
    assert_eq!(error.kind, FailureKind::OpenFailure);
    assert_eq!(error.cause.kind, OsErrorKind::Interrupted);
}

#[test]
fn open_failure_without_error_number_is_kept_as_reported() {
    let cause = OsError { kind: OsErrorKind::Other, code: None };
    let error = MultiFileSeeker::<u32>::new(archive(), Err(cause)).err().unwrap();
    assert_eq!(error, HandleError { kind: FailureKind::OpenFailure, path: archive(), cause });
}

#[test]
fn duplicate_stands_at_first_byte_wherever_the_source_stands() {
    let source = opened_at(4096);
    let mut duplicate = source.duplicate(Ok(4)).unwrap();
    assert_eq!(duplicate.position(), 0);
    assert_eq!(duplicate.path(), &archive());
    assert_eq!(*duplicate.descriptor_mut(), 4);
    assert_eq!(source.position(), 4096);
}

#[test]
fn duplicate_of_duplicate_keeps_the_path() {
    let source = opened_at(10);
    let first = source.duplicate(Ok(4)).unwrap();
    let second = first.duplicate(Ok(5)).unwrap();
    assert_eq!(second.path(), source.path());
    assert_eq!(second.position(), 0);
}

#[test]
fn failed_reopen_is_duplication_invariant_violation() {
    let source = opened_at(77);
    let cause = os_error(OsErrorKind::NotFound, 2);
    let made = source.duplicate(Err(cause));
    assert_eq!(
        made.err(),
        Some(HandleError {
            kind: FailureKind::DuplicationInvariantViolation,
            path: archive(),
            cause,
        })
    );
    assert_eq!(source.position(), 77);
}

#[test]
fn read_moves_position_by_the_bytes_read() {
    let mut handle = opened_at(0);
    assert_eq!(handle.read(Ok(100)), Ok(ReadStep::Done(100)));
    assert_eq!(handle.position(), 100);
    assert_eq!(handle.read(Ok(28)), Ok(ReadStep::Done(28)));
    assert_eq!(handle.position(), 128);
}

#[test]
fn read_of_nothing_leaves_position() {
    let mut handle = opened_at(10_000);
    assert_eq!(handle.read(Ok(0)), Ok(ReadStep::Done(0)));
    assert_eq!(handle.position(), 10_000);
}

#[test]
fn interrupted_read_asks_for_retry() {
    let mut handle = opened_at(64);
    let step = handle.read(Err(os_error(OsErrorKind::Interrupted, 4)));
    assert_eq!(step, Ok(ReadStep::Retry));
    assert_eq!(handle.position(), 64);
    assert_eq!(handle.read(Ok(8)), Ok(ReadStep::Done(8)));
    assert_eq!(handle.position(), 72);
}

#[test]
fn failed_read_is_read_failure_and_keeps_position() {
    let mut handle = opened_at(64);
    let cause = os_error(OsErrorKind::Other, 5);
    assert_eq!(
        handle.read(Err(cause)),
        Err(HandleError { kind: FailureKind::ReadFailure, path: archive(), cause })
    );
    assert_eq!(handle.position(), 64);
}

#[test]
fn read_up_to_the_largest_offset() {
    let mut handle = opened_at(u64::MAX - 5);
    assert!(handle.can_advance(5));
    assert_eq!(handle.read(Ok(5)), Ok(ReadStep::Done(5)));
    assert_eq!(handle.position(), u64::MAX);
    assert!(handle.can_advance(0));
    assert!(!handle.can_advance(1));
}

#[test]
fn position_cannot_advance_beyond_the_largest_offset() {
    let handle = opened_at(u64::MAX - 5);
    assert!(handle.can_advance(0));
    assert!(handle.can_advance(5));
    assert!(!handle.can_advance(6));
    assert!(!handle.can_advance(usize::MAX));
    assert!(opened_at(0).can_advance(usize::MAX));
    assert!(opened_at(1).can_advance(4096));
}

#[test]
fn seek_puts_position_at_reported_offset() {
    let mut handle = opened_at(0);
    assert_eq!(handle.seek(Ok(5000)), Ok(5000));
    assert_eq!(handle.position(), 5000);
    assert_eq!(handle.seek(Ok(12)), Ok(12));
    assert_eq!(handle.position(), 12);
    assert_eq!(handle.path(), &archive());
}

#[test]
fn refused_seek_is_seek_failure_and_keeps_position() {
    let mut handle = opened_at(300);
    let cause = os_error(OsErrorKind::InvalidInput, 22);
    assert_eq!(
        handle.seek(Err(cause)),
        Err(HandleError { kind: FailureKind::SeekFailure, path: archive(), cause })
    );
    assert_eq!(handle.position(), 300);
}

#[test]
fn seek_on_one_handle_leaves_its_duplicate_in_place() {
    let mut source = opened_at(0);
    let mut duplicate = source.duplicate(Ok(4)).unwrap();
    assert_eq!(source.seek(Ok(9000)), Ok(9000));
    assert_eq!(duplicate.position(), 0);
    assert_eq!(duplicate.seek(Ok(40)), Ok(40));
    assert_eq!(source.seek(Ok(1)), Ok(1));
    assert_eq!(duplicate.position(), 40);
    assert_eq!(source.position(), 1);
}

#[test]
fn interruption_is_told_apart_from_other_failures() {
    assert!(os_error(OsErrorKind::Interrupted, 4).is_interrupted());
    assert!(!os_error(OsErrorKind::NotFound, 2).is_interrupted());
    assert!(!os_error(OsErrorKind::PermissionDenied, 13).is_interrupted());
    assert!(!os_error(OsErrorKind::InvalidInput, 22).is_interrupted());
    assert!(!os_error(OsErrorKind::Other, 5).is_interrupted());
}

#[test]
fn each_failure_kind_has_its_own_description() {
    assert_eq!(FailureKind::OpenFailure.description(), "cannot open file");
    assert_eq!(FailureKind::ReadFailure.description(), "cannot read from file");
    assert_eq!(FailureKind::SeekFailure.description(), "cannot seek in file");
    assert_eq!(
        FailureKind::DuplicationInvariantViolation.description(),
        "cannot open file again for a duplicate handle"
    );
}
