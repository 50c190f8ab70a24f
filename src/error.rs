//! Errors of the file operations.

use vstd::prelude::*;

verus! {

/// The category of an I/O failure, carried as the platform reported it.
#[verifier::external_type_specification]
#[verifier::external_body]
pub struct ExIoErrorKind(std::io::ErrorKind);

/// Why a load or a save did not happen.
#[derive(Clone, Copy, Debug, PartialEq, Eq)]
pub enum EditorError {
    /// The user closed a path selection that the operation needed.
    DialogClosed,
    /// Reading or writing the file failed.
    IoFailed(std::io::ErrorKind),
}

} // verus!
