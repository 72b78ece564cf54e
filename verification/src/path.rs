//! Paths, as the standard library holds them.
//!
//! A path is carried through as an opaque value: nothing here looks inside
//! one, and two paths are told apart only by equality.

use std::path::PathBuf;
use vstd::prelude::*;

verus! {

/// `std::path::PathBuf`, declared so that it can stand in fields and
/// signatures. Nothing is claimed of what a path holds.
#[verifier::external_type_specification]
#[verifier::external_body]
pub struct ExPathBuf(std::path::PathBuf);

/// `<PathBuf as Clone>::clone`: the copy is the same path as the one it was
/// made from. This is taken from the documentation of `Clone`, not proved.
pub assume_specification[ <PathBuf as Clone>::clone ](path: &PathBuf) -> (copy: PathBuf)
    ensures
        copy == *path,
;

} // verus!
