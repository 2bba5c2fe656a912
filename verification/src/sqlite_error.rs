use vstd::prelude::*;
use crate::error::DurableStoreError;
use rusqlite::ErrorCode;

verus! {

#[verifier::external_type_specification]
#[verifier::external_body]
pub struct ExRusqliteError(rusqlite::Error);

#[verifier::external_type_specification]
#[verifier::external_body]
pub struct ExRusqliteErrorCode(rusqlite::ErrorCode);

#[verifier::external_type_specification]
#[verifier::external_body]
pub struct ExIoError(std::io::Error);

/// The SQLite result codes that the store tells apart.
#[derive(Clone, Copy, PartialEq, Eq, Debug, Structural)]
pub enum SqliteCode {
    DiskFull,
    DatabaseCorrupt,
    NotADatabase,
    ReadOnly,
    PermissionDenied,
    AuthorizationForStatementDenied,
    DatabaseBusy,
    DatabaseLocked,
    SystemIoFailure,
    CannotOpen,
    ConstraintViolation,
    /// Any other SQLite result code.
    Other,
}

/// What went wrong in a call into SQLite, as far as the store's error mapping cares.
#[derive(Clone, Copy, PartialEq, Eq, Debug, Structural)]
pub enum SqliteFailure {
    /// SQLite itself reported a failure with this result code.
    Code(SqliteCode),
    /// A query that must return a row returned none.
    QueryReturnedNoRows,
    /// A row callback rejected the row it was given.
    InvalidQuery,
    /// Any other error of the SQLite driver.
    Other,
}

/// The result code inside an SQLite failure of the driver, or `None` for any other
/// error: a function of the error value alone.
pub uninterp spec fn sqlite_failure_code_of(error: rusqlite::Error) -> Option<rusqlite::ErrorCode>;

/// The variant of an SQLite result code that the store tells apart: a function of
/// the code alone.
pub uninterp spec fn sqlite_code_of(code: rusqlite::ErrorCode) -> SqliteCode;

/// Which of the driver's non-SQLite errors an error is: a function of the error
/// value alone.
pub uninterp spec fn sqlite_error_variant_of(error: rusqlite::Error) -> SqliteFailure;

/// The kind of a file-system error that the store tells apart: a function of the
/// error value alone.
pub uninterp spec fn io_failure_of(error: std::io::Error) -> IoFailure;

/// The result code inside an SQLite failure (`rusqlite::Error::SqliteFailure`'s
/// `code` field), if the error is one. The contract names the result; which code
/// a given error holds is not stated.
#[verifier::external_body]
fn sqlite_failure_code(error: &rusqlite::Error) -> (r: Option<rusqlite::ErrorCode>)
    ensures
        r == sqlite_failure_code_of(*error),
{
    match error {
        rusqlite::Error::SqliteFailure(details, _) => Some(details.code),
        _ => None,
    }
}

/// Tells apart the variants of `rusqlite::ErrorCode` that the store distinguishes.
/// The contract names the result; which variant a given code is mapped to is not
/// stated, since the code is opaque here.
#[verifier::external_body]
fn sqlite_code(code: rusqlite::ErrorCode) -> (r: SqliteCode)
    ensures
        r == sqlite_code_of(code),
{
    match code {
        ErrorCode::DiskFull => SqliteCode::DiskFull,
        ErrorCode::DatabaseCorrupt => SqliteCode::DatabaseCorrupt,
        ErrorCode::NotADatabase => SqliteCode::NotADatabase,
        ErrorCode::ReadOnly => SqliteCode::ReadOnly,
        ErrorCode::PermissionDenied => SqliteCode::PermissionDenied,
        ErrorCode::AuthorizationForStatementDenied => SqliteCode::AuthorizationForStatementDenied,
        ErrorCode::DatabaseBusy => SqliteCode::DatabaseBusy,
        ErrorCode::DatabaseLocked => SqliteCode::DatabaseLocked,
        ErrorCode::SystemIoFailure => SqliteCode::SystemIoFailure,
        ErrorCode::CannotOpen => SqliteCode::CannotOpen,
        ErrorCode::ConstraintViolation => SqliteCode::ConstraintViolation,
        _ => SqliteCode::Other,
    }
}

/// Tells apart the variants of `rusqlite::Error` other than an SQLite failure
/// (`QueryReturnedNoRows`, `InvalidQuery`, any other). The contract names the
/// result and says it is never an SQLite result code; which variant a given
/// error is is not stated.
#[verifier::external_body]
fn sqlite_error_variant(error: &rusqlite::Error) -> (r: SqliteFailure)
    ensures
        r == sqlite_error_variant_of(*error),
        !(r is Code),
{
    match error {
        rusqlite::Error::QueryReturnedNoRows => SqliteFailure::QueryReturnedNoRows,
        rusqlite::Error::InvalidQuery => SqliteFailure::InvalidQuery,
        _ => SqliteFailure::Other,
    }
}

/// The failure the store's mapping looks at in a driver error: the result code of
/// an SQLite failure, else the driver's other error variant.
pub open spec fn spec_classify_sqlite_error(error: rusqlite::Error) -> SqliteFailure {
    match sqlite_failure_code_of(error) {
        Some(code) => SqliteFailure::Code(sqlite_code_of(code)),
        None => sqlite_error_variant_of(error),
    }
}

/// Reduces a driver error to the failure the store's mapping looks at.
pub fn classify_sqlite_error(error: &rusqlite::Error) -> (r: SqliteFailure)
    ensures
        r == spec_classify_sqlite_error(*error),
{
    match sqlite_failure_code(error) {
        Some(code) => SqliteFailure::Code(sqlite_code(code)),
        None => sqlite_error_variant(error),
    }
}

/// How an SQLite failure is reported to the store's callers.
pub open spec fn spec_sqlite_failure_error(failure: SqliteFailure) -> DurableStoreError {
    match failure {
        SqliteFailure::Code(code) => match code {
            SqliteCode::DiskFull => DurableStoreError::Full,
            SqliteCode::DatabaseCorrupt | SqliteCode::NotADatabase => DurableStoreError::Corrupt,
            SqliteCode::ReadOnly
            | SqliteCode::PermissionDenied
            | SqliteCode::AuthorizationForStatementDenied => DurableStoreError::PermissionDenied,
            SqliteCode::DatabaseBusy
            | SqliteCode::DatabaseLocked
            | SqliteCode::SystemIoFailure
            | SqliteCode::CannotOpen => DurableStoreError::Unavailable,
            _ => DurableStoreError::Internal,
        },
        SqliteFailure::QueryReturnedNoRows => DurableStoreError::Corrupt,
        _ => DurableStoreError::Internal,
    }
}

/// Maps a classified SQLite failure to the store error reported for it.
pub fn sqlite_failure_error(failure: SqliteFailure) -> (r: DurableStoreError)
    ensures
        r == spec_sqlite_failure_error(failure),
{
    match failure {
        SqliteFailure::Code(code) => match code {
            SqliteCode::DiskFull => DurableStoreError::Full,
            SqliteCode::DatabaseCorrupt | SqliteCode::NotADatabase => DurableStoreError::Corrupt,
            SqliteCode::ReadOnly
            | SqliteCode::PermissionDenied
            | SqliteCode::AuthorizationForStatementDenied => DurableStoreError::PermissionDenied,
            SqliteCode::DatabaseBusy
            | SqliteCode::DatabaseLocked
            | SqliteCode::SystemIoFailure
            | SqliteCode::CannotOpen => DurableStoreError::Unavailable,
            _ => DurableStoreError::Internal,
        },
        SqliteFailure::QueryReturnedNoRows => DurableStoreError::Corrupt,
        _ => DurableStoreError::Internal,
    }
}

/// Maps a driver error to the store error reported for it.
pub fn map_sqlite_error(error: &rusqlite::Error) -> (r: DurableStoreError)
    ensures
        r == spec_sqlite_failure_error(spec_classify_sqlite_error(*error)),
{
    let failure = classify_sqlite_error(error);
    sqlite_failure_error(failure)
}

/// How a failure while creating schema objects is reported: a constraint violation
/// means existing rows do not fit the new schema, so the store is corrupt.
pub open spec fn spec_schema_change_failure_error(failure: SqliteFailure) -> DurableStoreError {
    if failure == SqliteFailure::Code(SqliteCode::ConstraintViolation) {
        DurableStoreError::Corrupt
    } else {
        spec_sqlite_failure_error(failure)
    }
}

/// Maps a classified failure of a schema change to the store error reported for it.
pub fn schema_change_failure_error(failure: SqliteFailure) -> (r: DurableStoreError)
    ensures
        r == spec_schema_change_failure_error(failure),
{
    if failure == SqliteFailure::Code(SqliteCode::ConstraintViolation) {
        DurableStoreError::Corrupt
    } else {
        sqlite_failure_error(failure)
    }
}

/// Maps a driver error raised by a schema change to the store error reported for it.
pub fn map_schema_change_error(error: &rusqlite::Error) -> (r: DurableStoreError)
    ensures
        r == spec_schema_change_failure_error(spec_classify_sqlite_error(*error)),
{
    let failure = classify_sqlite_error(error);
    schema_change_failure_error(failure)
}

/// How a failed insert of a uniquely keyed row is reported: a constraint violation
/// means a concurrent writer already holds the key.
pub open spec fn spec_insert_failure_error(failure: SqliteFailure) -> DurableStoreError {
    if failure == SqliteFailure::Code(SqliteCode::ConstraintViolation) {
        DurableStoreError::Conflict
    } else {
        spec_sqlite_failure_error(failure)
    }
}

/// Maps a classified failure of a keyed insert to the store error reported for it.
pub fn insert_failure_error(failure: SqliteFailure) -> (r: DurableStoreError)
    ensures
        r == spec_insert_failure_error(failure),
{
    if failure == SqliteFailure::Code(SqliteCode::ConstraintViolation) {
        DurableStoreError::Conflict
    } else {
        sqlite_failure_error(failure)
    }
}

/// Maps a driver error raised by a keyed insert to the store error reported for it.
pub fn map_insert_error(error: &rusqlite::Error) -> (r: DurableStoreError)
    ensures
        r == spec_insert_failure_error(spec_classify_sqlite_error(*error)),
{
    let failure = classify_sqlite_error(error);
    insert_failure_error(failure)
}

/// How a failed row read is reported when the row callback rejects a stored field
/// as out of bounds: the stored row is corrupt.
pub open spec fn spec_bounded_read_failure_error(failure: SqliteFailure) -> DurableStoreError {
    if failure == SqliteFailure::InvalidQuery {
        DurableStoreError::Corrupt
    } else {
        spec_sqlite_failure_error(failure)
    }
}

/// Maps a classified failure of a bounded row read to the store error reported for it.
pub fn bounded_read_failure_error(failure: SqliteFailure) -> (r: DurableStoreError)
    ensures
        r == spec_bounded_read_failure_error(failure),
{
    if failure == SqliteFailure::InvalidQuery {
        DurableStoreError::Corrupt
    } else {
        sqlite_failure_error(failure)
    }
}

/// Maps a driver error raised by a bounded row read to the store error reported for it.
pub fn map_bounded_read_error(error: &rusqlite::Error) -> (r: DurableStoreError)
    ensures
        r == spec_bounded_read_failure_error(spec_classify_sqlite_error(*error)),
{
    let failure = classify_sqlite_error(error);
    bounded_read_failure_error(failure)
}

/// The kinds of file-system failure that the store tells apart.
#[derive(Clone, Copy, PartialEq, Eq, Debug, Structural)]
pub enum IoFailure {
    PermissionDenied,
    AlreadyExists,
    Other,
}

/// Tells apart the variants of `std::io::ErrorKind` that the store distinguishes,
/// from `std::io::Error::kind`. The contract names the result; which kind a given
/// error has is not stated.
#[verifier::external_body]
fn io_failure(error: &std::io::Error) -> (r: IoFailure)
    ensures
        r == io_failure_of(*error),
{
    match error.kind() {
        std::io::ErrorKind::PermissionDenied => IoFailure::PermissionDenied,
        std::io::ErrorKind::AlreadyExists => IoFailure::AlreadyExists,
        _ => IoFailure::Other,
    }
}

/// How a file-system failure is reported to the store's callers.
pub open spec fn spec_io_failure_error(failure: IoFailure) -> DurableStoreError {
    if failure == IoFailure::PermissionDenied {
        DurableStoreError::PermissionDenied
    } else {
        DurableStoreError::Unavailable
    }
}

/// Maps a classified file-system failure to the store error reported for it.
pub fn io_failure_error(failure: IoFailure) -> (r: DurableStoreError)
    ensures
        r == spec_io_failure_error(failure),
{
    if failure == IoFailure::PermissionDenied {
        DurableStoreError::PermissionDenied
    } else {
        DurableStoreError::Unavailable
    }
}

/// Maps a file-system error to the store error reported for it.
pub fn map_io_error(error: &std::io::Error) -> (r: DurableStoreError)
    ensures
        r == spec_io_failure_error(io_failure_of(*error)),
{
    io_failure_error(io_failure(error))
}

/// The outcome of preparing a new store file, from the result of creating it
/// exclusively with owner-only permissions: a file that already exists is kept as is.
pub open spec fn spec_prepare_new_store_file(created: Result<(), IoFailure>) -> Result<
    (),
    DurableStoreError,
> {
    match created {
        Ok(()) => Ok(()),
        Err(IoFailure::AlreadyExists) => Ok(()),
        Err(failure) => Err(spec_io_failure_error(failure)),
    }
}

/// Decides the outcome of preparing a new store file from the result of its exclusive creation.
pub fn prepare_new_store_file(created: Result<(), std::io::Error>) -> (r: Result<
    (),
    DurableStoreError,
>)
    ensures
        r == spec_prepare_new_store_file(
            match created {
                Ok(()) => Ok(()),
                Err(e) => Err(io_failure_of(e)),
            },
        ),
{
    match created {
        Ok(()) => {
            assert(spec_prepare_new_store_file(Ok(())) == Ok::<(), DurableStoreError>(()));
            Ok(())
        },
        Err(error) => {
            let failure = io_failure(&error);
            let r = if failure == IoFailure::AlreadyExists {
                Ok(())
            } else {
                Err(io_failure_error(failure))
            };
            assert(r == spec_prepare_new_store_file(Err(failure)));
            r
        },
    }
}

/// Decides the outcome of restricting the store file to its owner from the result
/// of setting its permissions.
pub fn harden_store_permissions(updated: Result<(), std::io::Error>) -> (r: Result<
    (),
    DurableStoreError,
>)
    ensures
        r == match updated {
            Ok(()) => Ok::<(), DurableStoreError>(()),
            Err(e) => Err(spec_io_failure_error(io_failure_of(e))),
        },
{
    match updated {
        Ok(()) => Ok(()),
        Err(error) => Err(map_io_error(&error)),
    }
}

} // verus!
