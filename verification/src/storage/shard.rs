//! One shard: a reader handle that any number of threads may hold, and the
//! single writer that keeps the two copies of the data.

use crate::storage::sync::read_lock;
use crate::storage::sync::read_locked;
use crate::storage::sync::unique_mut;
use crate::storage::sync::write_lock;
use crate::storage::sync::write_locked;
use crate::storage::table::lookup;
use crate::storage::table::shown;
use crate::storage::table::Contents;
use crate::storage::types::Key;
use crate::storage::table::Table;
use crate::storage::types::Val;
use std::sync::atomic::AtomicBool;
use std::sync::atomic::AtomicUsize;
use std::sync::atomic::Ordering;
use std::sync::Arc;
use std::sync::Mutex;
use std::sync::RwLock;
use vstd::prelude::*;

verus! {

/// How often the writer looks at a counter before it stops waiting for the
/// readers that still hold the buffer it wants.
const PATIENCE: u64 = 0x10_0000;

/// Looks `key` up in the buffer that a reader was shown, and copies what it
/// finds, so that nothing of the buffer is held on to.
pub fn read(buffer: &Table, key: &Key) -> (found: Option<Val>)
    ensures
        shown(found) == lookup(buffer@, key@),
{
    match buffer.get(key) {
        Some(value) => Some(value.clone()),
        None => None,
    }
}

/// Stores `value` under `key` in `buffer`: in place where nobody else holds
/// the buffer, in a copy that takes its place where somebody does. A reader
/// that still looks at the buffer therefore never sees it change.
fn store(buffer: &mut Arc<Table>, key: Key, value: Val) -> (prior: Option<Val>)
    ensures
        (**final(buffer))@ == (**old(buffer))@.insert(key@, value@),
        shown(prior) == lookup((**old(buffer))@, key@),
{
    match unique_mut(buffer) {
        Some(table) => table.insert(key, value),
        None => {
            let mut copy = (**buffer).clone();
            let prior = copy.insert(key, value);
            *buffer = Arc::new(copy);
            prior
        },
    }
}

/// Takes `key` out of `buffer`, as `store` puts one in.
fn clear(buffer: &mut Arc<Table>, key: &Key) -> (prior: Option<Val>)
    ensures
        (**final(buffer))@ == (**old(buffer))@.remove(key@),
        shown(prior) == lookup((**old(buffer))@, key@),
{
    match unique_mut(buffer) {
        Some(table) => table.remove(key),
        None => {
            let mut copy = (**buffer).clone();
            let prior = copy.remove(key);
            *buffer = Arc::new(copy);
            prior
        },
    }
}

/// A handle for reading a shard. It never waits for the writer's lock, and
/// it keeps the shard's data alive for as long as it is held.
pub struct Reader {
    /// The buffer that readers are shown.
    data: Arc<RwLock<Arc<Table>>>,
    /// Which counter a reader that starts now has to use: `false` for
    /// `first`, `true` for `second`.
    mode: Arc<AtomicBool>,
    first: Arc<AtomicUsize>,
    second: Arc<AtomicUsize>,
}

impl Reader {
    /// A handle on an empty buffer, with both counters at zero.
    pub fn new() -> Reader {
        Reader::with_data(Arc::new(Table::new()))
    }

    fn with_data(data: Arc<Table>) -> Reader {
        Reader {
            data: Arc::new(RwLock::new(data)),
            mode: Arc::new(AtomicBool::new(false)),
            first: Arc::new(AtomicUsize::new(0)),
            second: Arc::new(AtomicUsize::new(0)),
        }
    }

    /// A copy of the value that the shard holds under `key` at some moment
    /// during the call.
    ///
    /// The buffer that it looks at is the one that the writer showed last, as
    /// far as this thread can tell; no contract can name it, since it changes
    /// under other threads' hands. What is done with it is `read`.
    pub fn get(&self, key: &Key) -> Option<Val> {
        let mode = self.mode.load(Ordering::Acquire);
        self.increment_counter(mode);
        let result = self.peek(key);
        self.decrement_counter(mode);
        result
    }

    /// Looks `key` up in the buffer that is shown now. The buffer is let go
    /// of before this returns.
    fn peek(&self, key: &Key) -> Option<Val> {
        let buffer = self.data();
        read(&*buffer, key)
    }

    /// The buffer that is shown now. The one thing a reader can wait for is
    /// the moment in which the writer puts another pointer in its place.
    fn data(&self) -> Arc<Table> {
        let guard = read_lock(&*self.data);
        read_locked(&guard).clone()
    }

    fn counter_count(&self, mode: bool) -> usize {
        if mode {
            self.second.load(Ordering::Acquire)
        } else {
            self.first.load(Ordering::Acquire)
        }
    }

    fn decrement_counter(&self, mode: bool) {
        if mode {
            self.second.fetch_sub(1, Ordering::AcqRel);
        } else {
            self.first.fetch_sub(1, Ordering::AcqRel);
        }
    }

    fn increment_counter(&self, mode: bool) {
        if mode {
            self.second.fetch_add(1, Ordering::AcqRel);
        } else {
            self.first.fetch_add(1, Ordering::AcqRel);
        }
    }

    /// Makes the other counter the one that new readers use, and returns the
    /// mode that held until now.
    fn toggle_mode(&self) -> bool {
        self.mode.fetch_xor(true, Ordering::AcqRel)
    }
}

impl Clone for Reader {
    /// A second handle on the same buffer, mode and counters.
    fn clone(&self) -> (other: Reader)
        ensures
            other == *self,
    {
        Reader {
            data: self.data.clone(),
            mode: self.mode.clone(),
            first: self.first.clone(),
            second: self.second.clone(),
        }
    }
}

/// One write, as contracts see it.
pub enum Update {
    /// A value stored under a key.
    Put(Seq<char>, Seq<char>),
    /// A key taken out.
    Delete(Seq<char>),
}

impl Update {
    /// The key that the write is about.
    pub open spec fn key(self) -> Seq<char> {
        match self {
            Update::Put(key, _) => key,
            Update::Delete(key) => key,
        }
    }
}

/// What a buffer that held `before` holds after the write `update`.
pub open spec fn written(before: Contents, update: Update) -> Contents {
    match update {
        Update::Put(key, value) => before.insert(key, value),
        Update::Delete(key) => before.remove(key),
    }
}

/// The one writer of a shard. It is reached through the shard's lock.
pub struct Writer {
    /// The buffer that no reader is shown: the writer's own between writes.
    data: Arc<Table>,
    /// The writer's pointer to the buffer that it showed to the readers last.
    live: Arc<Table>,
    reader: Reader,
}

impl View for Writer {
    type V = Contents;

    /// What the shard holds: what the readers are shown.
    open spec fn view(&self) -> Contents {
        self.active_view()
    }
}

impl Writer {
    /// What the buffer holds that the readers are shown.
    pub closed spec fn active_view(&self) -> Contents {
        (*self.live)@
    }

    /// What the buffer holds that the writer keeps to itself.
    pub closed spec fn standby_view(&self) -> Contents {
        (*self.data)@
    }

    /// Both buffers hold the same keys with the same values.
    pub open spec fn agreed(&self) -> bool {
        self.active_view() == self.standby_view()
    }

    /// The handle through which the writer shows its buffers.
    pub closed spec fn reader_handle(&self) -> Reader {
        self.reader
    }

    /// What one write makes of a writer: each buffer takes the place of the
    /// other, with the write done to it, and the handle stays.
    pub open spec fn wrote(self, update: Update, after: Writer) -> bool {
        &&& after.active_view() == written(self.standby_view(), update)
        &&& after.standby_view() == written(self.active_view(), update)
        &&& after.reader_handle() == self.reader_handle()
    }

    /// A writer for `reader`, over two empty buffers. Whatever `reader` was
    /// shown before, it is shown an empty buffer now.
    pub fn new(reader: Reader) -> (writer: Writer)
        ensures
            writer.agreed(),
            writer@ == Map::<Seq<char>, Seq<char>>::empty(),
            writer.reader_handle() == reader,
    {
        Writer::with_data(reader, Table::new())
    }

    /// A writer for `reader` that keeps `data` to itself and shows the
    /// readers a copy of it.
    pub fn with_data(reader: Reader, data: Table) -> (writer: Writer)
        ensures
            writer.agreed(),
            writer@ == data@,
            writer.reader_handle() == reader,
    {
        let live = Arc::new(data.clone());
        let writer = Writer { data: Arc::new(data), live, reader };
        writer.publish();
        writer
    }

    /// Stores `value` under `key` in both buffers, and returns the value that
    /// `key` had before, if it had one.
    ///
    /// The buffer that was kept back is changed and shown; once the readers
    /// have left the other, the change is repeated there, and what that
    /// buffer held under `key` is the value returned.
    pub fn put(&mut self, key: Key, value: Val) -> (prior: Option<Val>)
        ensures
            old(self).wrote(Update::Put(key@, value@), *final(self)),
            shown(prior) == lookup(old(self)@, key@),
            old(self).agreed() ==> final(self).agreed() && final(self)@ == old(self)@.insert(
                key@,
                value@,
            ),
    {
        store(&mut self.data, key.clone(), value.clone());
        self.swap();
        store(&mut self.data, key, value)
    }

    /// Takes `key` out of both buffers, and returns the value that it had, if
    /// it had one. Where the shard does not hold `key`, nothing changes.
    pub fn delete(&mut self, key: &Key) -> (prior: Option<Val>)
        ensures
            old(self).wrote(Update::Delete(key@), *final(self)),
            shown(prior) == lookup(old(self)@, key@),
            old(self).agreed() ==> final(self).agreed() && final(self)@ == old(self)@.remove(key@),
            old(self).agreed() && !old(self)@.contains_key(key@) ==> final(self)@ == old(self)@,
    {
        clear(&mut self.data, key);
        self.swap();
        let prior = clear(&mut self.data, key);
        proof {
            if old(self).agreed() && !old(self)@.contains_key(key@) {
                assert(old(self)@.remove(key@) =~= old(self)@);
            }
        }
        prior
    }

    /// Shows the buffer that was kept back, and keeps back the one that was
    /// shown, once its readers have left it.
    fn swap(&mut self)
        ensures
            final(self).live == old(self).data,
            final(self).data == old(self).live,
            final(self).reader == old(self).reader,
    {
        std::mem::swap(&mut self.data, &mut self.live);
        self.publish();
        let prev_mode = self.reader.toggle_mode();
        self.wait(prev_mode);
    }

    /// Makes `live` the buffer that readers are shown from now on. Whoever
    /// loads the pointer after this sees all that was written to the buffer.
    fn publish(&self) {
        let mut guard = write_lock(&*self.reader.data);
        let slot = write_locked(&mut guard);
        *slot = self.live.clone();
    }

    /// Waits until the readers that started under `prev_mode` have finished,
    /// and says whether they have. It gives up after `PATIENCE` looks at the
    /// counter.
    ///
    /// The counter stands for the readers as well as it can: one that chose
    /// its counter before the mode changed and raises it only afterwards is
    /// not waited for. Neither that nor giving up does harm. A reader keeps
    /// the buffer by a pointer of its own, and a buffer that is still held is
    /// copied, not changed.
    fn wait(&self, prev_mode: bool) -> bool {
        let mut looks: u64 = 0;
        while looks < PATIENCE
            invariant
                looks <= PATIENCE,
            decreases PATIENCE - looks,
        {
            let stale_pointers = self.reader.counter_count(prev_mode);
            if stale_pointers == 0 {
                return true;
            }
            std::hint::spin_loop();
            looks = looks + 1;
        }
        false
    }
}

/// A shard: the data of one part of the key space, with its reader handle
/// and its writer behind a lock.
pub struct Shard {
    id: usize,
    reader: Reader,
    writer: Arc<Mutex<Writer>>,
}

impl Shard {
    /// The shard's number.
    pub closed spec fn spec_id(&self) -> usize {
        self.id
    }

    /// The shard's own reader handle.
    pub closed spec fn reader_handle(&self) -> Reader {
        self.reader
    }

    /// The lock that guards the shard's writer.
    pub closed spec fn writer_lock(&self) -> Arc<Mutex<Writer>> {
        self.writer
    }

    /// An empty shard with the number `id`.
    pub fn new(id: usize) -> (shard: Shard)
        ensures
            shard.spec_id() == id,
    {
        let reader = Reader::new();
        let writer = Writer::new(reader.clone());
        Shard { id, writer: Arc::new(Mutex::new(writer)), reader }
    }

    /// A shard with the number `id` that holds `data`: the way to bring in a
    /// shard that was moved from elsewhere.
    pub fn with_data(id: usize, data: Table) -> (shard: Shard)
        ensures
            shard.spec_id() == id,
    {
        let reader = Reader::new();
        let writer = Writer::with_data(reader.clone(), data);
        Shard { id, writer: Arc::new(Mutex::new(writer)), reader }
    }

    /// The lock that guards the writer, to share.
    pub fn writer(&self) -> (lock: Arc<Mutex<Writer>>)
        ensures
            lock == self.writer_lock(),
    {
        self.writer.clone()
    }

    /// A reader handle.
    pub fn reader(&self) -> (reader: Reader)
        ensures
            reader == self.reader_handle(),
    {
        self.reader.clone()
    }

    /// The shard's number.
    #[verifier::when_used_as_spec(spec_id)]
    pub fn id(&self) -> (id: usize)
        ensures
            id == self.spec_id(),
    {
        self.id
    }
}

} // verus!
