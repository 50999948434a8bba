//! What can go wrong while a container is inspected or patched.

use vstd::prelude::*;

verus! {

/// `std::io::Error`, the failure that a container call reports. Nothing is
/// known of its inside but what `not_found` names.
#[verifier::external_type_specification]
#[verifier::external_body]
pub struct ExIoError(std::io::Error);

/// Whether `std::io::Error::kind` reports `ErrorKind::NotFound` for `error`.
pub uninterp spec fn not_found(error: std::io::Error) -> bool;

/// Calls `std::io::Error::kind` and tells whether the kind is `NotFound`;
/// the contract gives that answer the name `not_found`.
#[verifier::external_body]
pub(crate) fn is_not_found(error: &std::io::Error) -> (missing: bool)
    ensures
        missing == not_found(*error),
{
    error.kind() == std::io::ErrorKind::NotFound
}

/// The file is not a valid FactoryTalk View file.
#[derive(Debug, Clone, Copy, PartialEq, Eq, Structural)]
pub enum FTypeError {
    /// No version information was found in the file.
    NoVersion,
    /// Version information is there, but not in the expected shape.
    InvalidVersion,
}

/// Failure of an operation on a container.
#[derive(Debug)]
pub enum FtvFileError {
    /// The container could not be accessed; the cause is passed on as it came.
    IoError(std::io::Error),
    /// The container is not a valid FactoryTalk View file.
    FileTypeError(FTypeError),
}

} // verus!
