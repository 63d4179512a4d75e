use vstd::prelude::*;

verus! {

/// Why an operation on a record stream failed.
///
/// Which of these can occur depends on the backend; the in-memory backend
/// reports none of them.
#[derive(Debug, Clone, Copy, PartialEq, Eq, Structural)]
pub enum RecordStreamError {
    /// The transport or the storage behind the stream could not be reached.
    ConnectionFailure,
    /// A record could not be encoded or decoded.
    SerializationFailure,
    /// Another consumer advanced the committed offset in the meantime.
    CommitConflict,
}

} // verus!
