//! The failure taxonomy shared by every fallible operation of this crate.

use vstd::prelude::*;

verus! {

/// Why an operation on a filesystem entry failed.
#[derive(Clone, Copy, Debug, PartialEq, Eq, Structural)]
pub enum FsError {
    /// The path does not exist.
    NotFound,
    /// The entry exists but its metadata or children could not be read.
    AccessError,
    /// A regular file was required and the path is not one.
    NotAFile,
    /// The entry's media type is not eligible for thumbnailing.
    UnsupportedType,
    /// The external transcoder could not be started.
    DerivationFailed,
    /// The view-counter store could not be saved.
    StoreError,
}

impl FsError {
    /// A short description of the failure, in place of `Display`.
    pub fn message(&self) -> (r: &'static str)
        ensures
            r@ == match *self {
                FsError::NotFound => "the path doesn't exist"@,
                FsError::AccessError => "the entry can't be accessed"@,
                FsError::NotAFile => "the path must be a file"@,
                FsError::UnsupportedType => "unsupported file type"@,
                FsError::DerivationFailed => "can't start the thumbnail transcoder"@,
                FsError::StoreError => "can't update the store"@,
            },
    {
        match *self {
            FsError::NotFound => "the path doesn't exist",
            FsError::AccessError => "the entry can't be accessed",
            FsError::NotAFile => "the path must be a file",
            FsError::UnsupportedType => "unsupported file type",
            FsError::DerivationFailed => "can't start the thumbnail transcoder",
            FsError::StoreError => "can't update the store",
        }
    }
}

} // verus!
