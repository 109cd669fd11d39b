//! The closed set of errors that repository operations return, and the
//! mapping from storage-engine failures into it.
use vstd::prelude::*;

verus! {

/// What a repository operation can fail with.
#[derive(Debug, Clone, PartialEq, Eq)]
pub enum DatabaseError {
    /// No row matched the selector.
    NotFound,
    /// The transport to the engine failed (I/O or TLS).
    CommunicationError,
    /// The engine could not be reached.
    ConnectionFailed,
    /// The pool had no connection to give in time.
    ConnectionNotAvailable,
    /// A constraint was violated or the statement was malformed; the
    /// engine's message is kept.
    QueryFailed(String),
    /// A column the row mapping needs is missing.
    ColumnNotFound(String),
    /// The engine spoke a protocol that is not supported.
    ProtocolNotSupported,
    /// The repository does not offer this selector for this operation.
    NotImplemented,
    /// Anything not otherwise classified.
    Unknown(String),
    /// The schema and the types the repository expects disagree.
    DatabaseInconsistence(String),
    /// A schema step could not be applied.
    MigrationFailed(String),
}

/// A failure reported by the storage engine, as the caller that ran the
/// statement observed it.
#[derive(Debug, Clone, PartialEq, Eq)]
pub enum StorageFailure {
    /// A named column was not in the row.
    ColumnNotFound(String),
    /// Reading or writing the transport failed.
    Io,
    /// Setting up or using TLS failed.
    Tls,
    /// No pooled connection became free before the pool's timeout.
    PoolTimedOut,
    /// The engine rejected the statement (a constraint or a syntax error),
    /// with its message.
    Database(String),
    /// The engine's answer broke the wire protocol.
    Protocol,
    /// A type the row mapping needs is unknown to the engine.
    TypeNotFound(String),
    /// A statement expected to return a row returned none.
    RowNotFound,
    /// Any other failure: configuration, a closed pool, a decoding error.
    Other,
}

/// The text kept for an unknown type.
pub open spec fn type_not_found_detail(unknown: Seq<char>) -> Seq<char> {
    "TypeNotFound "@ + unknown
}

/// `e` is the error that the failure `f` maps to.
pub open spec fn maps_failure(f: StorageFailure, e: DatabaseError) -> bool {
    match f {
        StorageFailure::ColumnNotFound(c) => e == DatabaseError::ColumnNotFound(c),
        StorageFailure::Io => e == DatabaseError::CommunicationError,
        StorageFailure::Tls => e == DatabaseError::CommunicationError,
        StorageFailure::PoolTimedOut => e == DatabaseError::ConnectionNotAvailable,
        StorageFailure::Database(m) => e == DatabaseError::QueryFailed(m),
        StorageFailure::Protocol => e == DatabaseError::ProtocolNotSupported,
        StorageFailure::TypeNotFound(t) => e matches DatabaseError::DatabaseInconsistence(d)
            && d@ == type_not_found_detail(t@),
        StorageFailure::RowNotFound => e == DatabaseError::NotFound,
        StorageFailure::Other => e == DatabaseError::ConnectionFailed,
    }
}

impl DatabaseError {
    /// The error that an engine failure is reported as.
    pub fn from_failure(f: StorageFailure) -> (r: DatabaseError)
        ensures
            maps_failure(f, r),
    {
        match f {
            StorageFailure::ColumnNotFound(c) => DatabaseError::ColumnNotFound(c),
            StorageFailure::Io => DatabaseError::CommunicationError,
            StorageFailure::Tls => DatabaseError::CommunicationError,
            StorageFailure::PoolTimedOut => DatabaseError::ConnectionNotAvailable,
            StorageFailure::Database(m) => DatabaseError::QueryFailed(m),
            StorageFailure::Protocol => DatabaseError::ProtocolNotSupported,
            StorageFailure::TypeNotFound(t) => {
                let detail = String::from_str("TypeNotFound ").concat(t.as_str());
                DatabaseError::DatabaseInconsistence(detail)
            },
            StorageFailure::RowNotFound => DatabaseError::NotFound,
            StorageFailure::Other => DatabaseError::ConnectionFailed,
        }
    }
}

} // verus!
