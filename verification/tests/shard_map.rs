use shard_store::storage::shard::Shard;
use shard_store::storage::shard_map::displace;
use shard_store::storage::shard_map::place;
use shard_store::storage::shard_map::reader_of;
use shard_store::storage::shard_map::writer_of;
use shard_store::storage::shard_map::ShardMap;
use shard_store::storage::shard_map::Shards;
use shard_store::storage::table::Table;
use shard_store::storage::types::StoreError;

fn one_entry(key: &str, value: &str) -> Table {
    let mut data = Table::new();
    data.insert(key.to_string(), value.to_string());
    data
}

#[test]
fn a_shard_comes_and_goes() {
    let map = ShardMap::new();
    map.insert(Shard::new(1));
    map.insert(Shard::new(2));
    map.insert(Shard::new(3));
    assert_eq!(map.get(&4, &"k".to_string()), Err(StoreError::UnknownShard));
    assert!(map.reader(&4).is_none());
    assert!(map.writer(&4).is_none());

    map.insert(Shard::with_data(4, one_entry("k", "v")));
    assert_eq!(map.get(&4, &"k".to_string()), Ok(Some("v".to_string())));
    assert_eq!(map.reader(&4).unwrap().get(&"k".to_string()), Some("v".to_string()));

    map.remove(&4);
    assert_eq!(map.get(&4, &"k".to_string()), Err(StoreError::UnknownShard));
    assert!(map.reader(&4).is_none());
    assert!(map.reader(&1).is_some());
    assert!(map.reader(&2).is_some());
    assert!(map.reader(&3).is_some());
}

#[test]
fn a_new_map_holds_no_shard() {
    let map = ShardMap::new();
    assert!(map.reader(&0).is_none());
    assert!(map.writer(&0).is_none());
    assert_eq!(map.get(&0, &"k".to_string()), Err(StoreError::UnknownShard));
    assert_eq!(
        map.put(&0, "k".to_string(), "v".to_string()),
        Err(StoreError::UnknownShard)
    );
    assert_eq!(map.delete(&0, &"k".to_string()), Err(StoreError::UnknownShard));
    map.remove(&0);
    assert!(map.reader(&0).is_none());
}

#[test]
fn insert_replaces_the_shard_of_the_same_id() {
    let map = ShardMap::new();
    map.insert(Shard::with_data(1, one_entry("k", "first")));
    map.insert(Shard::with_data(1, one_entry("k", "second")));
    assert_eq!(map.get(&1, &"k".to_string()), Ok(Some("second".to_string())));
}

#[test]
fn handles_outlive_the_entry() {
    let map = ShardMap::new();
    map.insert(Shard::with_data(1, one_entry("k", "v")));
    let reader = map.reader(&1).unwrap();
    let writer = map.writer(&1).unwrap();
    map.remove(&1);
    assert_eq!(reader.get(&"k".to_string()), Some("v".to_string()));
    writer.lock().unwrap().put("k".to_string(), "w".to_string());
    assert_eq!(reader.get(&"k".to_string()), Some("w".to_string()));
    assert!(map.reader(&1).is_none());
}

#[test]
fn writes_go_to_the_shard_asked_for() {
    let map = ShardMap::new();
    map.insert(Shard::new(1));
    map.insert(Shard::new(2));
    assert_eq!(map.put(&1, "k".to_string(), "one".to_string()), Ok(None));
    assert_eq!(map.put(&2, "k".to_string(), "two".to_string()), Ok(None));
    assert_eq!(map.get(&1, &"k".to_string()), Ok(Some("one".to_string())));
    assert_eq!(map.get(&2, &"k".to_string()), Ok(Some("two".to_string())));
    assert_eq!(map.put(&1, "k".to_string(), "uno".to_string()), Ok(Some("one".to_string())));
    assert_eq!(map.delete(&2, &"k".to_string()), Ok(Some("two".to_string())));
    assert_eq!(map.delete(&2, &"k".to_string()), Ok(None));
    assert_eq!(map.get(&2, &"k".to_string()), Ok(None));
    assert_eq!(map.get(&1, &"k".to_string()), Ok(Some("uno".to_string())));
}

#[test]
fn the_writer_of_the_map_is_the_writer_of_the_shard() {
    let map = ShardMap::new();
    map.insert(Shard::new(1));
    let first = map.writer(&1).unwrap();
    let second = map.writer(&1).unwrap();
    assert!(std::sync::Arc::ptr_eq(&first, &second));
    first.lock().unwrap().put("k".to_string(), "v".to_string());
    assert_eq!(
        second.lock().unwrap().put("k".to_string(), "w".to_string()),
        Some("v".to_string())
    );
}

#[test]
fn shards_by_number() {
    let mut shards = Shards::new();
    assert!(reader_of(&shards, &1).is_none());
    assert!(writer_of(&shards, &1).is_none());
    place(&mut shards, Shard::with_data(1, one_entry("k", "v")));
    place(&mut shards, Shard::new(2));
    assert_eq!(shards.len(), 2);
    assert_eq!(reader_of(&shards, &1).unwrap().get(&"k".to_string()), Some("v".to_string()));
    assert_eq!(reader_of(&shards, &2).unwrap().get(&"k".to_string()), None);
    assert!(writer_of(&shards, &2).is_some());
    assert!(reader_of(&shards, &3).is_none());
    place(&mut shards, Shard::new(1));
    assert_eq!(shards.len(), 2);
    assert_eq!(reader_of(&shards, &1).unwrap().get(&"k".to_string()), None);
    displace(&mut shards, &1);
    assert_eq!(shards.len(), 1);
    assert!(reader_of(&shards, &1).is_none());
    displace(&mut shards, &1);
    assert_eq!(shards.len(), 1);
}
