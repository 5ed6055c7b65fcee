//! Failures: what the storage layer reports, and the uniform kinds callers see.

use vstd::prelude::*;

verus! {

/// What a storage engine reports when a statement does not succeed.
#[derive(Clone, Copy, Debug, PartialEq, Eq, Structural)]
pub enum StorageFault {
    /// No connection to the engine could be acquired.
    Unavailable,
    /// The statement was to hand back one row and matched none.
    NoRows,
    /// The engine refused the statement: a key that is taken, a missing value.
    Constraint,
    /// Any other failure of the statement.
    Other,
}

/// The kinds of failure an operation of the repository returns.
#[derive(Clone, Copy, Debug, PartialEq, Eq, Structural)]
pub enum ApiError {
    /// The record asked for does not exist.
    NotFound,
    /// The storage layer failed: no connection, a refused or a failed statement.
    StorageError,
    /// The input was rejected. No operation checks its input yet.
    ValidationError,
}

impl ApiError {
    /// The kind under which a storage fault reaches the caller: a statement
    /// that found no row is `NotFound`, every other fault a `StorageError`.
    pub open spec fn of_fault(fault: StorageFault) -> ApiError {
        match fault {
            StorageFault::NoRows => ApiError::NotFound,
            _ => ApiError::StorageError,
        }
    }
}

impl From<StorageFault> for ApiError {
    fn from(fault: StorageFault) -> (kind: ApiError) {
        match fault {
            StorageFault::NoRows => ApiError::NotFound,
            StorageFault::Unavailable => ApiError::StorageError,
            StorageFault::Constraint => ApiError::StorageError,
            StorageFault::Other => ApiError::StorageError,
        }
    }
}

impl vstd::std_specs::convert::FromSpecImpl<StorageFault> for ApiError {
    open spec fn obeys_from_spec() -> bool {
        true
    }

    open spec fn from_spec(fault: StorageFault) -> ApiError {
        ApiError::of_fault(fault)
    }
}

/// Adapts the outcome of one statement to the repository's result: a value
/// passes through, a fault becomes its kind.
pub fn adapt<T>(outcome: Result<T, StorageFault>) -> (result: Result<T, ApiError>)
    ensures
        result == match outcome {
            Ok(value) => Ok::<T, ApiError>(value),
            Err(fault) => Err(ApiError::of_fault(fault)),
        },
{
    match outcome {
        Ok(value) => Ok(value),
        Err(fault) => Err(ApiError::from(fault)),
    }
}

} // verus!
