use vstd::prelude::*;

verus! {

/// Failure of a durable store operation, as reported to the callers of the store.
#[derive(Clone, Copy, PartialEq, Eq, Debug, Structural)]
pub enum DurableStoreError {
    /// The write disagrees with what is already stored.
    Conflict,
    /// Persisted state is malformed or inconsistent.
    Corrupt,
    /// The database belongs to some other application.
    ForeignStore,
    /// Storage or a counter ran out of room.
    Full,
    /// An unexpected failure of the storage engine.
    Internal,
    /// The request itself is malformed.
    InvalidRecord,
    /// The caller may not perform the operation.
    PermissionDenied,
    /// The storage engine is temporarily unavailable.
    Unavailable,
    /// The database schema is newer than, or unknown to, this library.
    UnsupportedSchemaVersion,
}

/// Outcome of a write that succeeded.
#[derive(Clone, Copy, PartialEq, Eq, Debug, Structural)]
pub enum DurableRecordStatus {
    /// The record was written now.
    Persisted,
    /// An identical record was already stored; nothing changed.
    Duplicate,
}

/// Health of the database as reported by its integrity check.
#[derive(Clone, Copy, PartialEq, Eq, Debug, Structural)]
pub enum StorageHealth {
    Healthy,
    Corrupt,
}

/// A decoded stored value, or `Corrupt` when the stored text is not recognised.
pub open spec fn or_corrupt<T>(value: Option<T>) -> Result<T, DurableStoreError> {
    match value {
        Some(v) => Ok(v),
        None => Err(DurableStoreError::Corrupt),
    }
}

} // verus!
