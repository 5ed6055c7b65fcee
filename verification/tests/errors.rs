use user_repository::error::{adapt, ApiError, StorageFault};

#[test]
fn statement_without_a_row_is_not_found() {
    assert_eq!(ApiError::from(StorageFault::NoRows), ApiError::NotFound);
}

#[test]
fn missing_connection_is_a_storage_error() {
    assert_eq!(ApiError::from(StorageFault::Unavailable), ApiError::StorageError);
}

#[test]
fn refused_statement_is_a_storage_error() {
    assert_eq!(ApiError::from(StorageFault::Constraint), ApiError::StorageError);
}

#[test]
fn failed_statement_is_a_storage_error() {
    assert_eq!(ApiError::from(StorageFault::Other), ApiError::StorageError);
}

#[test]
fn no_fault_is_a_validation_error() {
    let faults = [StorageFault::Unavailable, StorageFault::NoRows, StorageFault::Constraint, StorageFault::Other];
    for fault in faults {
        assert_ne!(ApiError::from(fault), ApiError::ValidationError);
    }
}

#[test]
fn adapt_passes_a_value_through() {
    let outcome: Result<u32, StorageFault> = Ok(5);
    assert_eq!(adapt(outcome), Ok(5));
}

#[test]
fn adapt_maps_the_fault() {
    let missing: Result<u32, StorageFault> = Err(StorageFault::NoRows);
    assert_eq!(adapt(missing), Err(ApiError::NotFound));
    let refused: Result<u32, StorageFault> = Err(StorageFault::Constraint);
    assert_eq!(adapt(refused), Err(ApiError::StorageError));
}
