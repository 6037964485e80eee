//! The map from shard numbers to shards. It owns the shards and lends out
//! handles that stay good after the shard has left the map.

use crate::storage::shard::Reader;
use crate::storage::shard::Shard;
use crate::storage::shard::Writer;
use crate::storage::sync::lock;
use crate::storage::sync::locked;
use crate::storage::sync::read_lock;
use crate::storage::sync::read_locked;
use crate::storage::sync::write_lock;
use crate::storage::sync::write_locked;
use crate::storage::types::known;
use crate::storage::types::unpoisoned;
use crate::storage::types::Key;
use crate::storage::types::StoreError;
use crate::storage::types::Val;
use std::collections::HashMap;
use std::sync::Arc;
use std::sync::Mutex;
use std::sync::RwLock;
use vstd::prelude::*;

verus! {

/// The shards of a map, by number, as they stand while the map's lock is
/// held.
pub type Shards = HashMap<usize, Shard>;

/// A reader handle for the shard `shard_id` of `shards`, if it is there.
pub fn reader_of(shards: &Shards, shard_id: &usize) -> (reader: Option<Reader>)
    ensures
        match reader {
            Some(handle) => shards@.contains_key(*shard_id) && handle
                == shards@[*shard_id].reader_handle(),
            None => !shards@.contains_key(*shard_id),
        },
{
    match shards.get(shard_id) {
        Some(shard) => Some(shard.reader()),
        None => None,
    }
}

/// The writer's lock of the shard `shard_id` of `shards`, if it is there.
pub fn writer_of(shards: &Shards, shard_id: &usize) -> (writer: Option<Arc<Mutex<Writer>>>)
    ensures
        match writer {
            Some(lock) => shards@.contains_key(*shard_id) && lock
                == shards@[*shard_id].writer_lock(),
            None => !shards@.contains_key(*shard_id),
        },
{
    match shards.get(shard_id) {
        Some(shard) => Some(shard.writer()),
        None => None,
    }
}

/// Puts `shard` under its number, in place of any shard that had it.
pub fn place(shards: &mut Shards, shard: Shard)
    ensures
        final(shards)@ == old(shards)@.insert(shard.spec_id(), shard),
{
    shards.insert(shard.id(), shard);
}

/// Takes the shard `shard_id` out of `shards`. Without such a shard nothing
/// changes.
pub fn displace(shards: &mut Shards, shard_id: &usize)
    ensures
        final(shards)@ == old(shards)@.remove(*shard_id),
{
    shards.remove(shard_id);
}

/// The shards of a store, behind a lock that many may read at once and one
/// may write.
pub struct ShardMap {
    shards: RwLock<Shards>,
}

impl ShardMap {
    /// A map without shards.
    pub fn new() -> ShardMap {
        ShardMap { shards: RwLock::new(HashMap::new()) }
    }

    /// Puts `shard` into the map under its number. A shard that had the
    /// number before is dropped.
    pub fn insert(&self, shard: Shard) {
        let mut guard = write_lock(&self.shards);
        place(write_locked(&mut guard), shard);
    }

    /// Takes the shard `shard_id` out of the map and drops it.
    pub fn remove(&self, shard_id: &usize) {
        let mut guard = write_lock(&self.shards);
        displace(write_locked(&mut guard), shard_id);
    }

    /// A reader handle for the shard `shard_id`, or `None` where the map
    /// holds no such shard when it is asked. What the map holds then is
    /// `reader_of`'s to say.
    pub fn reader(&self, shard_id: &usize) -> Option<Reader> {
        let guard = read_lock(&self.shards);
        reader_of(read_locked(&guard), shard_id)
    }

    /// The writer's lock of the shard `shard_id`, or `None` where the map
    /// holds no such shard when it is asked.
    pub fn writer(&self, shard_id: &usize) -> Option<Arc<Mutex<Writer>>> {
        let guard = read_lock(&self.shards);
        writer_of(read_locked(&guard), shard_id)
    }

    /// Reads `key` from the shard `shard_id`. The one error is
    /// `UnknownShard`, for a shard that the map does not hold.
    pub fn get(&self, shard_id: &usize, key: &Key) -> (found: Result<Option<Val>, StoreError>)
        ensures
            found is Err ==> found->Err_0 == StoreError::UnknownShard,
    {
        match known(self.reader(shard_id)) {
            Ok(reader) => Ok(reader.get(key)),
            Err(error) => Err(error),
        }
    }

    /// Stores `val` under `key` in the shard `shard_id`, and returns the
    /// value that `key` had. The errors are `UnknownShard`, for a shard that
    /// the map does not hold, and `Internal`, for a writer whose lock was
    /// left poisoned.
    ///
    /// It waits for the writer's lock, so a thread that holds that lock must
    /// not call it.
    pub fn put(&self, shard_id: &usize, key: Key, val: Val) -> (prior: Result<
        Option<Val>,
        StoreError,
    >)
        ensures
            prior is Err ==> prior->Err_0 == StoreError::UnknownShard || prior->Err_0
                == StoreError::Internal,
    {
        match known(self.writer(shard_id)) {
            Ok(writer) => match unpoisoned(lock(&*writer)) {
                Ok(mut guard) => Ok(locked(&mut guard).put(key, val)),
                Err(error) => Err(error),
            },
            Err(error) => Err(error),
        }
    }

    /// Takes `key` out of the shard `shard_id`, and returns the value that
    /// it had. The errors are those of `put`, and so is the warning.
    pub fn delete(&self, shard_id: &usize, key: &Key) -> (prior: Result<Option<Val>, StoreError>)
        ensures
            prior is Err ==> prior->Err_0 == StoreError::UnknownShard || prior->Err_0
                == StoreError::Internal,
    {
        match known(self.writer(shard_id)) {
            Ok(writer) => match unpoisoned(lock(&*writer)) {
                Ok(mut guard) => Ok(locked(&mut guard).delete(key)),
                Err(error) => Err(error),
            },
            Err(error) => Err(error),
        }
    }
}

} // verus!
