//! Error taxonomy of the read path.

use vstd::prelude::*;

verus! {

/// Outcome classes of a directory call.
///
/// `Unavailable`: the metadata service could not be reached.  `Protocol`: it
/// answered, but the reply could not be understood.  `Rejected`: a
/// reservation was refused because a copy of the same logical identity is
/// already present or in flight where it would be placed; this is the
/// directory's deduplication of concurrent pull-through reads, not a fault.
#[derive(Clone, Copy, Debug, PartialEq, Eq, Structural)]
pub enum DirectoryError {
    Unavailable,
    Protocol,
    Rejected,
}

/// Errors the read path surfaces to the caller.
///
/// `NotFound`: the directory resolves the logical reference to no locator.
/// `DirectoryUnavailable` and `DirectoryProtocol` wrap the directory outcomes
/// of the same names.  `PhysicalStore` is a failed read or write against a
/// provider.  `VerificationMismatch` marks head-after-write metadata that is
/// unusable for a commit; it never reaches a client, only a background
/// replication log.
#[derive(Clone, Copy, Debug, PartialEq, Eq, Structural)]
pub enum ReadError {
    NotFound,
    DirectoryUnavailable,
    DirectoryProtocol,
    PhysicalStore,
    VerificationMismatch,
}

impl ReadError {
    /// The caller-facing class of each directory outcome.  A rejected
    /// reservation never comes from the resolve path, so it is folded into
    /// the protocol class.
    pub open spec fn from_directory_spec(e: DirectoryError) -> ReadError {
        match e {
            DirectoryError::Unavailable => ReadError::DirectoryUnavailable,
            DirectoryError::Protocol => ReadError::DirectoryProtocol,
            DirectoryError::Rejected => ReadError::DirectoryProtocol,
        }
    }

    /// Map a directory outcome onto the caller-facing taxonomy.
    pub fn from_directory(e: DirectoryError) -> (r: ReadError)
        ensures
            r == ReadError::from_directory_spec(e),
    {
        match e {
            DirectoryError::Unavailable => ReadError::DirectoryUnavailable,
            DirectoryError::Protocol => ReadError::DirectoryProtocol,
            DirectoryError::Rejected => ReadError::DirectoryProtocol,
        }
    }

    /// A short wire name for the error, as the proxy reports it.  Each
    /// class surfaces distinctly: a storage failure must never read as a
    /// missing key.
    pub fn code(&self) -> (r: &'static str)
        ensures
            *self is NotFound ==> r@ == "NoSuchKey"@,
            *self is DirectoryUnavailable ==> r@ == "DirectoryUnavailable"@,
            *self is DirectoryProtocol ==> r@ == "DirectoryProtocolError"@,
            *self is PhysicalStore ==> r@ == "PhysicalStoreError"@,
            *self is VerificationMismatch ==> r@ == "VerificationMismatch"@,
    {
        match self {
            ReadError::NotFound => "NoSuchKey",
            ReadError::DirectoryUnavailable => "DirectoryUnavailable",
            ReadError::DirectoryProtocol => "DirectoryProtocolError",
            ReadError::PhysicalStore => "PhysicalStoreError",
            ReadError::VerificationMismatch => "VerificationMismatch",
        }
    }
}

} // verus!
