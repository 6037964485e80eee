//! Requests, and the pool whose workers carry them out.
//!
//! A request waits in one queue that all workers take from. Each carries the
//! sending end of a channel of its own, on which its result goes back.

use crate::storage::shard_map::ShardMap;
use crate::storage::sync::lock;
use crate::storage::sync::locked;
use crate::storage::sync::receive;
use crate::storage::sync::send;
use crate::storage::sync::send_back;
use crate::storage::types::Key;
use crate::storage::types::StoreError;
use crate::storage::types::Val;
use std::sync::mpsc::channel;
use std::sync::mpsc::Receiver;
use std::sync::mpsc::Sender;
use std::sync::mpsc::SyncSender;
use std::sync::Arc;
use std::sync::Mutex;
use vstd::prelude::*;

verus! {

/// What a request asks for. The first field is the shard's number.
#[derive(Debug, PartialEq, Eq)]
pub enum RequestType {
    Put(usize, Key, Val),
    Remove(usize, Key),
    Get(usize, Key),
}

/// What a request that was carried out gives.
#[derive(Debug, PartialEq, Eq)]
pub enum QueryResult {
    /// The write was done.
    Empty,
    /// The value that was read, or `None` where the key had none.
    Data(Option<Val>),
}

/// What goes back to the one who sent a request.
pub type Reply = Result<QueryResult, StoreError>;

/// Whether `reply` is an answer that a request of the kind of
/// `request_type` can get: a read gives data or finds no shard; a write is
/// done, finds no shard, or finds the writer's lock poisoned.
pub open spec fn answers(request_type: RequestType, reply: Reply) -> bool {
    match request_type {
        RequestType::Get(_, _) => match reply {
            Ok(result) => result is Data,
            Err(error) => error == StoreError::UnknownShard,
        },
        _ => match reply {
            Ok(result) => result is Empty,
            Err(error) => error == StoreError::UnknownShard || error == StoreError::Internal,
        },
    }
}

/// Carries one request out on the shards of `shard_map`.
///
/// Which shards the map holds, and what they hold, is for the moment of the
/// call to say; what is settled beforehand is which answers the kind of
/// request admits.
pub fn dispatch(shard_map: &ShardMap, request_type: RequestType) -> (reply: Reply)
    ensures
        answers(request_type, reply),
{
    match request_type {
        RequestType::Get(shard_id, key) => match shard_map.get(&shard_id, &key) {
            Ok(found) => Ok(QueryResult::Data(found)),
            Err(error) => Err(error),
        },
        RequestType::Put(shard_id, key, val) => match shard_map.put(&shard_id, key, val) {
            Ok(_) => Ok(QueryResult::Empty),
            Err(error) => Err(error),
        },
        RequestType::Remove(shard_id, key) => match shard_map.delete(&shard_id, &key) {
            Ok(_) => Ok(QueryResult::Empty),
            Err(error) => Err(error),
        },
    }
}

/// A request with the channel on which its result goes back. The channel
/// takes one message.
pub struct Request {
    request_type: RequestType,
    result: SyncSender<Reply>,
}

impl Request {
    /// What the request asks for.
    pub closed spec fn asked(&self) -> RequestType {
        self.request_type
    }

    /// A request for `request_type` whose result goes to `result`.
    pub fn new(request_type: RequestType, result: SyncSender<Reply>) -> (request: Request)
        ensures
            request.asked() == request_type,
    {
        Request { request_type, result }
    }
}

/// One worker's hold on the pool's queue and shards.
pub struct Worker {
    receiver: Arc<Mutex<Receiver<Request>>>,
    shard_map: Arc<ShardMap>,
}

impl Worker {
    /// The queue that the worker takes from.
    pub closed spec fn queue(&self) -> Arc<Mutex<Receiver<Request>>> {
        self.receiver
    }

    /// The shards that the worker works on.
    pub closed spec fn shards(&self) -> ShardMap {
        *self.shard_map
    }

    /// Takes requests from the queue, carries each out and sends its result
    /// back, until `limit` requests are served or the queue is closed, and
    /// returns how many it served. It waits while the queue is empty. A
    /// result that nobody waits for any more is dropped.
    pub fn serve(&self, limit: usize) -> (served: usize)
        ensures
            served <= limit,
    {
        let mut served: usize = 0;
        while served < limit
            invariant
                served <= limit,
            decreases limit - served,
        {
            match self.next() {
                Some(request) => {
                    let reply = dispatch(&*self.shard_map, request.request_type);
                    send_back(&request.result, reply);
                    served = served + 1;
                },
                None => {
                    return served;
                },
            }
        }
        served
    }

    /// The next request, or `None` once the queue is closed.
    fn next(&self) -> Option<Request> {
        match lock(&*self.receiver) {
            Some(mut guard) => receive(locked(&mut guard)),
            None => None,
        }
    }
}

/// The pool: the queue of requests, and what its workers need.
pub struct ThreadPool {
    sender: Sender<Request>,
    receiver: Arc<Mutex<Receiver<Request>>>,
    num_threads: usize,
    shard_map: Arc<ShardMap>,
}

impl ThreadPool {
    #[verifier::type_invariant]
    spec fn staffed(&self) -> bool {
        self.num_threads > 0
    }

    /// The number of workers that the pool is meant to have.
    pub closed spec fn spec_num_threads(&self) -> usize {
        self.num_threads
    }

    /// The queue that the pool's workers take from.
    pub closed spec fn queue(&self) -> Arc<Mutex<Receiver<Request>>> {
        self.receiver
    }

    /// The shards that the pool's workers work on.
    pub closed spec fn shards(&self) -> ShardMap {
        *self.shard_map
    }

    /// A pool of `num_threads` workers over `shard_map`. A pool without
    /// workers would take requests and never answer them, so there is none.
    pub fn new(num_threads: usize, shard_map: ShardMap) -> (pool: Option<ThreadPool>)
        ensures
            pool is Some <==> num_threads > 0,
            pool is Some ==> pool->Some_0.spec_num_threads() == num_threads
                && pool->Some_0.shards() == shard_map,
    {
        if num_threads == 0 {
            return None;
        }
        let (sender, receiver) = channel();
        Some(
            ThreadPool {
                num_threads,
                sender,
                receiver: Arc::new(Mutex::new(receiver)),
                shard_map: Arc::new(shard_map),
            },
        )
    }

    /// Puts `req` into the queue, for the next free worker.
    pub fn execute(&self, req: Request) {
        send(&self.sender, req);
    }

    /// The number of workers that the pool is meant to have.
    #[verifier::when_used_as_spec(spec_num_threads)]
    pub fn num_threads(&self) -> (n: usize)
        ensures
            n == self.spec_num_threads(),
            n > 0,
    {
        proof {
            use_type_invariant(self);
        }
        self.num_threads
    }

    /// What one worker needs: run `serve` on it in a thread of its own.
    pub fn worker(&self) -> (worker: Worker)
        ensures
            worker.queue() == self.queue(),
            worker.shards() == self.shards(),
    {
        Worker { receiver: self.receiver.clone(), shard_map: self.shard_map.clone() }
    }
}

} // verus!
