//! The store itself: shards, the map that finds them, and the pool that
//! carries requests out.

pub mod history;
pub mod shard;
pub mod shard_map;
pub mod sync;
pub mod table;
pub mod thread_pool;
pub mod types;
