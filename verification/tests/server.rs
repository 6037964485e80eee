use shard_store::server::StorageService;
use shard_store::storage::shard::Shard;
use shard_store::storage::shard_map::ShardMap;
use shard_store::storage::types::StoreError;
use std::sync::Arc;

fn service() -> (Arc<ShardMap>, StorageService) {
    let map = Arc::new(ShardMap::new());
    map.insert(Shard::new(1));
    (map.clone(), StorageService::new(map))
}

#[test]
fn put_get_delete() {
    let (_, service) = service();
    assert_eq!(service.get(1, &"k".to_string()), Err(StoreError::NotFound));
    assert_eq!(service.put(1, "k".to_string(), "v".to_string()), Ok(()));
    assert_eq!(service.get(1, &"k".to_string()), Ok("v".to_string()));
    assert_eq!(service.put(1, "k".to_string(), "w".to_string()), Ok(()));
    assert_eq!(service.get(1, &"k".to_string()), Ok("w".to_string()));
    assert_eq!(service.delete(1, &"k".to_string()), Ok(()));
    assert_eq!(service.get(1, &"k".to_string()), Err(StoreError::NotFound));
    assert_eq!(service.delete(1, &"k".to_string()), Ok(()));
}

#[test]
fn an_empty_value_is_found() {
    let (_, service) = service();
    assert_eq!(service.put(1, "k".to_string(), String::new()), Ok(()));
    assert_eq!(service.get(1, &"k".to_string()), Ok(String::new()));
}

#[test]
fn an_unknown_shard_is_an_error() {
    let (_, service) = service();
    assert_eq!(service.get(2, &"k".to_string()), Err(StoreError::UnknownShard));
    assert_eq!(
        service.put(2, "k".to_string(), "v".to_string()),
        Err(StoreError::UnknownShard)
    );
    assert_eq!(service.delete(2, &"k".to_string()), Err(StoreError::UnknownShard));
}

#[test]
fn the_service_follows_its_map() {
    let (map, service) = service();
    assert_eq!(service.get(7, &"k".to_string()), Err(StoreError::UnknownShard));
    map.insert(Shard::new(7));
    assert_eq!(service.put(7, "k".to_string(), "v".to_string()), Ok(()));
    assert_eq!(map.get(&7, &"k".to_string()), Ok(Some("v".to_string())));
    map.remove(&7);
    assert_eq!(service.get(7, &"k".to_string()), Err(StoreError::UnknownShard));
}

#[test]
fn a_cloned_service_works_on_the_same_store() {
    let (_, service) = service();
    let other = service.clone();
    assert_eq!(service.put(1, "k".to_string(), "v".to_string()), Ok(()));
    assert_eq!(other.get(1, &"k".to_string()), Ok("v".to_string()));
}
