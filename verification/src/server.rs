//! The service that a transport puts in front of the store: one call for
//! each kind of request, from plain values to plain values.

use crate::storage::shard_map::ShardMap;
use crate::storage::types::acknowledged;
use crate::storage::types::present;
use crate::storage::types::Key;
use crate::storage::types::StoreError;
use crate::storage::types::Val;
use std::sync::Arc;
use vstd::prelude::*;

verus! {

/// The store as its clients see it.
pub struct StorageService {
    shard_map: Arc<ShardMap>,
}

impl StorageService {
    /// The shard map that the service works on.
    pub closed spec fn shards(&self) -> Arc<ShardMap> {
        self.shard_map
    }

    /// A service over `shard_map`.
    pub fn new(shard_map: Arc<ShardMap>) -> (service: StorageService)
        ensures
            service.shards() == shard_map,
    {
        StorageService { shard_map }
    }

    /// The value under `key` in the shard `shard_id`. The errors are
    /// `UnknownShard`, for a shard that the store does not hold, and
    /// `NotFound`, for a key without a value.
    pub fn get(&self, shard_id: usize, key: &Key) -> (found: Result<Val, StoreError>)
        ensures
            found is Err ==> found->Err_0 == StoreError::UnknownShard || found->Err_0
                == StoreError::NotFound,
    {
        present(self.shard_map.get(&shard_id, key))
    }

    /// Stores `val` under `key` in the shard `shard_id`. The errors are
    /// `UnknownShard`, for a shard that the store does not hold, and
    /// `Internal`, for a writer whose lock was left poisoned.
    pub fn put(&self, shard_id: usize, key: Key, val: Val) -> (done: Result<(), StoreError>)
        ensures
            done is Err ==> done->Err_0 == StoreError::UnknownShard || done->Err_0
                == StoreError::Internal,
    {
        acknowledged(self.shard_map.put(&shard_id, key, val))
    }

    /// Takes `key` out of the shard `shard_id`. Taking out a key without a
    /// value is no error. The errors are those of `put`.
    pub fn delete(&self, shard_id: usize, key: &Key) -> (done: Result<(), StoreError>)
        ensures
            done is Err ==> done->Err_0 == StoreError::UnknownShard || done->Err_0
                == StoreError::Internal,
    {
        acknowledged(self.shard_map.delete(&shard_id, key))
    }
}

impl Clone for StorageService {
    /// A second service over the same shard map.
    fn clone(&self) -> (other: StorageService)
        ensures
            other == *self,
    {
        StorageService { shard_map: self.shard_map.clone() }
    }
}

} // verus!
