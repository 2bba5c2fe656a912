use vstd::prelude::*;
use crate::error::{DurableRecordStatus, DurableStoreError};

verus! {

/// What a write-once store does with an incoming record.
#[derive(Clone, Copy, PartialEq, Eq, Debug, Structural)]
pub enum WriteStep {
    /// No record is stored under the key: insert the incoming one.
    Insert,
    /// An identical record is already stored: report a duplicate, write nothing.
    Duplicate,
}

/// The write-once rule over the stored record and the incoming one: the first
/// write persists, an identical retry is a duplicate, a different record under
/// the same key is a conflict and leaves the stored record unchanged.
pub open spec fn spec_write_once<V>(stored: Option<V>, incoming: V) -> (
    Option<V>,
    Result<DurableRecordStatus, DurableStoreError>,
) {
    match stored {
        None => (Some(incoming), Ok(DurableRecordStatus::Persisted)),
        Some(existing) => if existing == incoming {
            (stored, Ok(DurableRecordStatus::Duplicate))
        } else {
            (stored, Err(DurableStoreError::Conflict))
        },
    }
}

/// The step of a write-once insert, given whether a record is stored under the key
/// and, if so, whether it equals the incoming one.
pub open spec fn spec_write_once_step(existing_equal: Option<bool>) -> Result<
    WriteStep,
    DurableStoreError,
> {
    match existing_equal {
        None => Ok(WriteStep::Insert),
        Some(true) => Ok(WriteStep::Duplicate),
        Some(false) => Err(DurableStoreError::Conflict),
    }
}

/// Decides a write-once insert from the comparison with the stored record.
pub fn write_once_step(existing_equal: Option<bool>) -> (r: Result<WriteStep, DurableStoreError>)
    ensures
        r == spec_write_once_step(existing_equal),
{
    match existing_equal {
        None => Ok(WriteStep::Insert),
        Some(true) => Ok(WriteStep::Duplicate),
        Some(false) => Err(DurableStoreError::Conflict),
    }
}

/// The step decided from the comparison is the one the write-once rule prescribes.
pub proof fn lemma_write_once_step_agrees<V>(stored: Option<V>, incoming: V)
    ensures
        spec_write_once_step(
            match stored {
                None => None,
                Some(s) => Some(s == incoming),
            },
        ) == match spec_write_once(stored, incoming).1 {
            Ok(DurableRecordStatus::Persisted) => Ok(WriteStep::Insert),
            Ok(DurableRecordStatus::Duplicate) => Ok(WriteStep::Duplicate),
            Err(e) => Err::<WriteStep, DurableStoreError>(e),
        },
{
}

/// Retrying a successful write-once insert with the same record is reported as a
/// duplicate and changes nothing; a stored record is never overwritten.
pub proof fn lemma_write_once_idempotent<V>(stored: Option<V>, incoming: V)
    ensures
        spec_write_once(stored, incoming).1 is Ok ==> spec_write_once(
            spec_write_once(stored, incoming).0,
            incoming,
        ) == (spec_write_once(stored, incoming).0, Ok::<
            DurableRecordStatus,
            DurableStoreError,
        >(DurableRecordStatus::Duplicate)),
        stored is Some ==> spec_write_once(stored, incoming).0 == stored,
{
}

} // verus!
