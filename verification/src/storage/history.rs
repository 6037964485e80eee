//! What a series of writes leaves in a shard.
//!
//! The writer's contracts say what one write does to the two buffers. The
//! proofs here follow a whole series of writes, and say what a read then
//! finds.

use crate::storage::shard::written;
use crate::storage::shard::Update;
use crate::storage::shard::Writer;
use crate::storage::table::lookup;
use crate::storage::table::Contents;
use vstd::prelude::*;

verus! {

/// What a buffer that held `before` holds after the writes `updates`, the
/// first of them done first.
pub open spec fn replayed(before: Contents, updates: Seq<Update>) -> Contents
    decreases updates.len(),
{
    if updates.len() == 0 {
        before
    } else {
        written(replayed(before, updates.drop_last()), updates.last())
    }
}

/// None of the writes `updates` is about `key`.
pub open spec fn spares(updates: Seq<Update>, key: Seq<char>) -> bool {
    forall|i: int| 0 <= i < updates.len() ==> (#[trigger] updates[i]).key() != key
}

/// The writers `states` follow from one another by the writes `updates`:
/// each but the first is what the write before it made of the one before.
pub open spec fn follows(states: Seq<Writer>, updates: Seq<Update>) -> bool {
    &&& states.len() == updates.len() + 1
    &&& forall|i: int|
        0 <= i < updates.len() ==> (#[trigger] states[i]).wrote(updates[i], states[i + 1])
}

/// A value that was stored under a key is what a read of the key finds, for
/// as long as no write is about that key.
pub proof fn put_stays(before: Contents, key: Seq<char>, value: Seq<char>, later: Seq<Update>)
    requires
        spares(later, key),
    ensures
        lookup(replayed(written(before, Update::Put(key, value)), later), key) == Some(value),
    decreases later.len(),
{
    if later.len() > 0 {
        assert(spares(later.drop_last(), key)) by {
            assert forall|i: int| 0 <= i < later.drop_last().len() implies (
            #[trigger] later.drop_last()[i]).key() != key by {
                assert(later.drop_last()[i] == later[i]);
            }
        }
        put_stays(before, key, value, later.drop_last());
        assert(later.last() == later[later.len() - 1]);
    }
}

/// A key that was taken out is one that a read finds nothing under, for as
/// long as no write is about that key.
pub proof fn delete_stays(before: Contents, key: Seq<char>, later: Seq<Update>)
    requires
        spares(later, key),
    ensures
        lookup(replayed(written(before, Update::Delete(key)), later), key) == None::<Seq<char>>,
    decreases later.len(),
{
    if later.len() > 0 {
        assert(spares(later.drop_last(), key)) by {
            assert forall|i: int| 0 <= i < later.drop_last().len() implies (
            #[trigger] later.drop_last()[i]).key() != key by {
                assert(later.drop_last()[i] == later[i]);
            }
        }
        delete_stays(before, key, later.drop_last());
        assert(later.last() == later[later.len() - 1]);
    }
}

/// Taking out a key that is not there changes nothing.
pub proof fn delete_of_absent(before: Contents, key: Seq<char>)
    requires
        !before.contains_key(key),
    ensures
        written(before, Update::Delete(key)) == before,
{
    assert(before.remove(key) =~= before);
}

/// After any series of writes to a writer whose buffers agreed, the buffers
/// agree, and hold what the writes made of what they held at first.
pub proof fn buffers_agree(states: Seq<Writer>, updates: Seq<Update>)
    requires
        follows(states, updates),
        states[0].agreed(),
    ensures
        states.last().agreed(),
        states.last()@ == replayed(states[0]@, updates),
        states.last().reader_handle() == states[0].reader_handle(),
    decreases updates.len(),
{
    if updates.len() > 0 {
        let n = updates.len() as int;
        let earlier = states.drop_last();
        assert(follows(earlier, updates.drop_last())) by {
            assert forall|i: int| 0 <= i < updates.drop_last().len() implies (
            #[trigger] earlier[i]).wrote(updates.drop_last()[i], earlier[i + 1]) by {
                assert(states[i].wrote(updates[i], states[i + 1]));
            }
        }
        buffers_agree(earlier, updates.drop_last());
        assert(earlier.last() == states[n - 1]);
        assert(states[n - 1].wrote(updates[n - 1], states[n]));
    }
}

} // verus!
