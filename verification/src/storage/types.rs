//! The plain types that all parts of the store share.

use vstd::prelude::*;

verus! {

/// A key of the store.
pub type Key = String;

/// A value of the store. It may be empty.
pub type Val = String;

/// Why a request was not carried out.
#[derive(Debug, Clone, Copy, PartialEq, Eq, Structural)]
pub enum StoreError {
    /// The shard map holds no shard with the number asked for.
    UnknownShard,
    /// The shard holds nothing under the key asked for.
    NotFound,
    /// A lock of the store was left poisoned.
    Internal,
}

/// `handle`, where the shard map held the shard that was asked for, and
/// `UnknownShard` where it held none.
pub fn known<T>(handle: Option<T>) -> (found: Result<T, StoreError>)
    ensures
        found == match handle {
            Some(held) => Ok::<T, StoreError>(held),
            None => Err(StoreError::UnknownShard),
        },
{
    match handle {
        Some(held) => Ok(held),
        None => Err(StoreError::UnknownShard),
    }
}

/// `guard`, where the lock was taken, and `Internal` where it was found
/// poisoned.
pub fn unpoisoned<T>(guard: Option<T>) -> (taken: Result<T, StoreError>)
    ensures
        taken == match guard {
            Some(held) => Ok::<T, StoreError>(held),
            None => Err(StoreError::Internal),
        },
{
    match guard {
        Some(held) => Ok(held),
        None => Err(StoreError::Internal),
    }
}

/// The value that was read, and `NotFound` where the key had none; an error
/// of the read stays as it is.
pub fn present(read: Result<Option<Val>, StoreError>) -> (found: Result<Val, StoreError>)
    ensures
        found == match read {
            Ok(Some(val)) => Ok::<Val, StoreError>(val),
            Ok(None) => Err(StoreError::NotFound),
            Err(error) => Err(error),
        },
{
    match read {
        Ok(Some(val)) => Ok(val),
        Ok(None) => Err(StoreError::NotFound),
        Err(error) => Err(error),
    }
}

/// That a write was done, without the value that it replaced; an error of
/// the write stays as it is.
pub fn acknowledged(written: Result<Option<Val>, StoreError>) -> (done: Result<(), StoreError>)
    ensures
        done == match written {
            Ok(_) => Ok::<(), StoreError>(()),
            Err(error) => Err(error),
        },
{
    match written {
        Ok(_) => Ok(()),
        Err(error) => Err(error),
    }
}

} // verus!
