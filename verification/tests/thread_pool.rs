use shard_store::storage::shard::Shard;
use shard_store::storage::shard_map::ShardMap;
use shard_store::storage::thread_pool::dispatch;
use shard_store::storage::thread_pool::QueryResult;
use shard_store::storage::thread_pool::Reply;
use shard_store::storage::thread_pool::Request;
use shard_store::storage::thread_pool::RequestType;
use shard_store::storage::thread_pool::ThreadPool;
use shard_store::storage::types::StoreError;
use std::sync::mpsc::sync_channel;
use std::sync::mpsc::Receiver;

fn three_shards() -> ShardMap {
    let map = ShardMap::new();
    map.insert(Shard::new(1));
    map.insert(Shard::new(2));
    map.insert(Shard::new(3));
    map
}

fn ask(pool: &ThreadPool, request_type: RequestType) -> Receiver<Reply> {
    let (sender, receiver) = sync_channel(1);
    pool.execute(Request::new(request_type, sender));
    receiver
}

#[test]
fn a_pool_without_threads_is_refused() {
    assert!(ThreadPool::new(0, ShardMap::new()).is_none());
}

#[test]
fn a_pool_with_threads_is_made() {
    let pool = ThreadPool::new(1, ShardMap::new()).unwrap();
    assert_eq!(pool.num_threads(), 1);
    let pool = ThreadPool::new(8, ShardMap::new()).unwrap();
    assert_eq!(pool.num_threads(), 8);
    assert!(ThreadPool::new(usize::MAX, ShardMap::new()).is_some());
}

#[test]
fn dispatch_reads_and_writes() {
    let map = three_shards();
    let get = |key: &str| dispatch(&map, RequestType::Get(1, key.to_string()));
    assert_eq!(get("k"), Ok(QueryResult::Data(None)));
    assert_eq!(
        dispatch(&map, RequestType::Put(1, "k".to_string(), "v".to_string())),
        Ok(QueryResult::Empty)
    );
    assert_eq!(get("k"), Ok(QueryResult::Data(Some("v".to_string()))));
    assert_eq!(
        dispatch(&map, RequestType::Get(2, "k".to_string())),
        Ok(QueryResult::Data(None))
    );
    assert_eq!(
        dispatch(&map, RequestType::Remove(1, "k".to_string())),
        Ok(QueryResult::Empty)
    );
    assert_eq!(get("k"), Ok(QueryResult::Data(None)));
    assert_eq!(
        dispatch(&map, RequestType::Remove(1, "k".to_string())),
        Ok(QueryResult::Empty)
    );
}

#[test]
fn dispatch_to_an_unknown_shard() {
    let map = three_shards();
    assert_eq!(
        dispatch(&map, RequestType::Get(4, "k".to_string())),
        Err(StoreError::UnknownShard)
    );
    assert_eq!(
        dispatch(&map, RequestType::Put(4, "k".to_string(), "v".to_string())),
        Err(StoreError::UnknownShard)
    );
    assert_eq!(
        dispatch(&map, RequestType::Remove(4, "k".to_string())),
        Err(StoreError::UnknownShard)
    );
}

#[test]
fn a_worker_answers_each_request_once() {
    let pool = ThreadPool::new(1, three_shards()).unwrap();
    let worker = pool.worker();
    let put = ask(&pool, RequestType::Put(1, "k".to_string(), "v".to_string()));
    let get = ask(&pool, RequestType::Get(1, "k".to_string()));
    let miss = ask(&pool, RequestType::Get(9, "k".to_string()));
    assert_eq!(worker.serve(3), 3);
    assert_eq!(put.try_recv(), Ok(Ok(QueryResult::Empty)));
    assert_eq!(get.try_recv(), Ok(Ok(QueryResult::Data(Some("v".to_string())))));
    assert_eq!(miss.try_recv(), Ok(Err(StoreError::UnknownShard)));
    assert!(put.try_recv().is_err());
    assert!(get.try_recv().is_err());
    assert!(miss.try_recv().is_err());
}

#[test]
fn a_worker_serves_in_the_order_of_the_queue() {
    let pool = ThreadPool::new(2, three_shards()).unwrap();
    let first = ask(&pool, RequestType::Get(1, "k".to_string()));
    let second = ask(&pool, RequestType::Put(1, "k".to_string(), "v".to_string()));
    let third = ask(&pool, RequestType::Get(1, "k".to_string()));
    assert_eq!(pool.worker().serve(1), 1);
    assert_eq!(first.try_recv(), Ok(Ok(QueryResult::Data(None))));
    assert!(second.try_recv().is_err());
    assert_eq!(pool.worker().serve(2), 2);
    assert_eq!(second.try_recv(), Ok(Ok(QueryResult::Empty)));
    assert_eq!(third.try_recv(), Ok(Ok(QueryResult::Data(Some("v".to_string())))));
}

#[test]
fn a_worker_with_no_limit_left_serves_nothing() {
    let pool = ThreadPool::new(1, three_shards()).unwrap();
    let waiting = ask(&pool, RequestType::Get(1, "k".to_string()));
    assert_eq!(pool.worker().serve(0), 0);
    assert!(waiting.try_recv().is_err());
    assert_eq!(pool.worker().serve(1), 1);
    assert!(waiting.try_recv().is_ok());
}

#[test]
fn a_worker_stops_when_the_pool_is_gone() {
    let pool = ThreadPool::new(4, three_shards()).unwrap();
    let worker = pool.worker();
    let put = ask(&pool, RequestType::Put(2, "k".to_string(), "v".to_string()));
    let get = ask(&pool, RequestType::Get(2, "k".to_string()));
    drop(pool);
    // What was queued is still served; then the closed queue ends the work.
    assert_eq!(worker.serve(10), 2);
    assert_eq!(put.try_recv(), Ok(Ok(QueryResult::Empty)));
    assert_eq!(get.try_recv(), Ok(Ok(QueryResult::Data(Some("v".to_string())))));
    assert_eq!(worker.serve(10), 0);
}

#[test]
fn a_result_that_nobody_waits_for_is_dropped() {
    let pool = ThreadPool::new(1, three_shards()).unwrap();
    let worker = pool.worker();
    drop(ask(&pool, RequestType::Put(1, "k".to_string(), "v".to_string())));
    let get = ask(&pool, RequestType::Get(1, "k".to_string()));
    assert_eq!(worker.serve(2), 2);
    assert_eq!(get.try_recv(), Ok(Ok(QueryResult::Data(Some("v".to_string())))));
}

#[test]
fn eight_workers_clear_a_backlog() {
    let pool = ThreadPool::new(8, three_shards()).unwrap();
    let workers: Vec<_> = (0..pool.num_threads()).map(|_| pool.worker()).collect();
    let total = 10_000usize;
    let mut replies = Vec::with_capacity(total);
    for i in 0..total {
        let shard = 1 + i % 3;
        let key = (i % 97).to_string();
        let request_type = match i % 4 {
            0 => RequestType::Put(shard, key, i.to_string()),
            1 => RequestType::Get(shard, key),
            2 => RequestType::Remove(shard, key),
            _ => RequestType::Get(4, key),
        };
        replies.push((i, ask(&pool, request_type)));
    }
    let mut served = 0;
    for worker in &workers {
        served += worker.serve(total / workers.len());
    }
    assert_eq!(served, total);
    for (i, reply) in replies {
        let got = reply.try_recv().expect("one result for each request");
        match i % 4 {
            0 | 2 => assert_eq!(got, Ok(QueryResult::Empty)),
            1 => assert!(matches!(got, Ok(QueryResult::Data(_)))),
            _ => assert_eq!(got, Err(StoreError::UnknownShard)),
        }
        assert!(reply.try_recv().is_err());
    }
}
