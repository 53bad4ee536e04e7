//! The sandbox directory provider: tempfile's `TempDir`, and the calls made into it.
use vstd::prelude::*;

verus! {

/// tempfile's handle to a temporary directory, removed when the handle is dropped.
#[verifier::external_type_specification]
#[verifier::external_body]
pub struct ExTempDir(tempfile::TempDir);

/// std's I/O error, as returned when a directory cannot be created.
#[verifier::external_type_specification]
#[verifier::external_body]
pub struct ExIoError(std::io::Error);

/// Relies on tempfile::tempdir to create a fresh directory under the system's
/// temporary directory. Whether it succeeds depends on the machine, so nothing
/// is promised of the outcome.
pub assume_specification[ tempfile::tempdir ]() -> std::io::Result<tempfile::TempDir>;

/// Relies on tempfile::TempDir::path and std's Path::to_str: the directory's
/// path as text, or `None` where the path is not valid Unicode. What the path
/// is depends on the machine, so nothing is promised of it.
#[verifier::external_body]
pub(crate) fn sandbox_root_text(dir: &tempfile::TempDir) -> (r: Option<String>) {
    dir.path().to_str().map(str::to_owned)
}

} // verus!
