//! The closed error taxonomy of the export: a kind that callers branch on
//! and a human-readable message carried along from the failing operation.

use vstd::prelude::*;

verus! {

/// What category of failure occurred. The export driver treats
/// `Construction`, `Transport`, `NotFound` and directory-creation `Io`
/// failures as fatal; only the final write of fetched bytes is
/// recoverable (see the export state machine).
#[derive(Clone, Copy, Debug, PartialEq, Eq, Structural)]
pub enum ErrorKind {
    /// The client could not be constructed (malformed endpoint).
    Construction,
    /// A remote call failed in transit or was rejected by the service.
    Transport,
    /// The named bucket or object does not exist.
    NotFound,
    /// A local filesystem operation failed.
    Io,
}

/// A failure of one operation: its category plus the underlying message.
#[derive(Debug)]
pub struct ExportError {
    pub kind: ErrorKind,
    pub message: String,
}

impl ExportError {
    /// Build an error of the given kind carrying the given message.
    pub fn new(kind: ErrorKind, message: String) -> (e: ExportError)
        ensures
            e.kind == kind,
            e.message@ == message@,
    {
        ExportError { kind, message }
    }
}

} // verus!
