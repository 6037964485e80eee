//! A sharded in-memory key/value store.
//!
//! Each shard keeps its data twice. Readers look at one copy; the writer
//! changes the other, shows it to the readers, waits until nobody looks at
//! the first any more, and then repeats the change there.

pub mod server;
pub mod storage;
