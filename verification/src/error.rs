//! The error taxonomy of the storage abstraction.

use vstd::prelude::*;

verus! {

/// The kind of a storage failure.
///
/// The interception mechanism never recovers or retries: a failure raised by
/// the inner accessor is passed through unchanged by every forwarding
/// operation.
#[derive(Clone, Copy, Debug, PartialEq, Eq, Structural)]
pub enum ErrorKind {
    /// The addressed entry does not exist.
    NotFound,
    /// The addressed entry already exists.
    AlreadyExists,
    /// The caller may not perform this operation.
    PermissionDenied,
    /// The backend or layer does not implement this operation.
    Unsupported,
    /// The arguments or the path are malformed.
    InvalidInput,
    /// The operation was interrupted or cancelled.
    Interrupted,
    /// An internal backend fault.
    Unexpected,
    /// Some sub-operations of a batch succeeded and some failed.
    PartialFailure,
}

} // verus!
