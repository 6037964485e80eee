//! The map that backs each buffer of a shard: string keys to string values,
//! kept in rows by the hash of the key.
//!
//! A key's hash picks its row; within a row, entries are searched one by one.
//! When a map holds more entries than it has rows, it gets twice the rows.

use crate::storage::types::Key;
use crate::storage::types::Val;
use vstd::prelude::*;
use vstd::utf8::encode_utf8;

verus! {

/// What a map holds, as contracts see it.
pub type Contents = Map<Seq<char>, Seq<char>>;

/// What a lookup of `key` in `m` gives.
pub open spec fn lookup(m: Contents, key: Seq<char>) -> Option<Seq<char>> {
    if m.contains_key(key) {
        Some(m[key])
    } else {
        None
    }
}

/// An optional value as contracts see it.
pub open spec fn shown(value: Option<Val>) -> Option<Seq<char>> {
    match value {
        Some(v) => Some(v@),
        None => None,
    }
}

/// An optional borrowed value as contracts see it.
pub open spec fn shown_ref(value: Option<&Val>) -> Option<Seq<char>> {
    match value {
        Some(v) => Some(v@),
        None => None,
    }
}

const OFFSET_BASIS: u64 = 0xcbf2_9ce4_8422_2325;

const PRIME: u64 = 0x0000_0100_0000_01b3;

/// The number of rows that a map gets with its first entry.
const FIRST_ROWS: usize = 16;

/// No map is given more rows than this.
const MOST_ROWS: usize = 0x4000_0000;

/// One round of the FNV-1a hash.
spec fn mix(state: u64, byte: u8) -> u64 {
    (state ^ (byte as u64)).wrapping_mul(PRIME)
}

/// The FNV-1a hash of a byte string.
spec fn hash_bytes(bytes: Seq<u8>) -> u64
    decreases bytes.len(),
{
    if bytes.len() == 0 {
        OFFSET_BASIS
    } else {
        mix(hash_bytes(bytes.drop_last()), bytes.last())
    }
}

/// The hash of a key: FNV-1a over its UTF-8 encoding.
spec fn hash_of(key: Seq<char>) -> u64 {
    hash_bytes(encode_utf8(key))
}

/// The row that `key` belongs to when there are `n` rows.
spec fn slot_of(key: Seq<char>, n: int) -> int {
    hash_of(key) as int % n
}

fn hash(key: &str) -> (h: u64)
    ensures
        h == hash_of(key@),
{
    let bytes = key.as_bytes();
    let mut state = OFFSET_BASIS;
    let mut i: usize = 0;
    while i < bytes.len()
        invariant
            i <= bytes.len(),
            state == hash_bytes(bytes@.subrange(0, i as int)),
        decreases bytes.len() - i,
    {
        proof {
            assert(bytes@.subrange(0, i + 1).drop_last() == bytes@.subrange(0, i as int));
        }
        state = (state ^ (bytes[i] as u64)).wrapping_mul(PRIME);
        i += 1;
    }
    proof {
        assert(bytes@.subrange(0, i as int) == bytes@);
    }
    state
}

fn slot(key: &str, n: usize) -> (s: usize)
    requires
        n > 0,
    ensures
        s == slot_of(key@, n as int),
        s < n,
{
    (hash(key) % (n as u64)) as usize
}

/// One key with its value.
struct Entry {
    key: Key,
    value: Val,
}

/// Whether some entry of `row` has `key`.
spec fn holds(row: Seq<Entry>, key: Seq<char>) -> bool {
    exists|i: int| 0 <= i < row.len() && (#[trigger] row[i]).key@ == key
}

/// The place of `key` in `row`, where the row holds it.
spec fn position(row: Seq<Entry>, key: Seq<char>) -> int {
    choose|i: int| 0 <= i < row.len() && (#[trigger] row[i]).key@ == key
}

/// No key occurs twice in `row`.
spec fn distinct(row: Seq<Entry>) -> bool {
    forall|i: int, j: int|
        0 <= i < j < row.len() ==> (#[trigger] row[i]).key@ != (#[trigger] row[j]).key@
}

/// The map that one row stands for.
spec fn row_map(row: Seq<Entry>) -> Contents {
    Map::new(|key: Seq<char>| holds(row, key), |key: Seq<char>| row[position(row, key)].value@)
}

/// Every key of `row` is a key of `other`.
spec fn within(row: Seq<Entry>, other: Seq<Entry>) -> bool {
    forall|i: int| 0 <= i < row.len() ==> holds(other, (#[trigger] row[i]).key@)
}

/// In a row without repeated keys, each entry is the one that its key leads
/// to.
proof fn lemma_entry_found(row: Seq<Entry>, i: int)
    requires
        distinct(row),
        0 <= i < row.len(),
    ensures
        holds(row, row[i].key@),
        position(row, row[i].key@) == i,
        row_map(row).contains_key(row[i].key@),
        row_map(row)[row[i].key@] == row[i].value@,
{
    let at = position(row, row[i].key@);
    if at < i {
        assert(row[at].key@ != row[i].key@);
    } else if i < at {
        assert(row[i].key@ != row[at].key@);
    }
}

/// An entry with a new key, put behind a row, is an insertion.
proof fn lemma_row_push(row: Seq<Entry>, entry: Entry)
    requires
        distinct(row),
        !holds(row, entry.key@),
    ensures
        distinct(row.push(entry)),
        row_map(row.push(entry)) == row_map(row).insert(entry.key@, entry.value@),
{
    let after = row.push(entry);
    let wanted = row_map(row).insert(entry.key@, entry.value@);
    assert forall|i: int, j: int| 0 <= i < j < after.len() implies (#[trigger] after[i]).key@
        != (#[trigger] after[j]).key@ by {
        if j == row.len() {
            assert(row[i].key@ != entry.key@);
        } else {
            assert(row[i].key@ != row[j].key@);
        }
    }
    assert forall|key: Seq<char>| #[trigger]
        row_map(after).contains_key(key) == wanted.contains_key(key) by {
        if holds(row, key) {
            assert(after[position(row, key)].key@ == key);
        }
        if key == entry.key@ {
            assert(after[row.len() as int].key@ == key);
        }
        if holds(after, key) && position(after, key) < row.len() {
            assert(row[position(after, key)].key@ == key);
        }
    }
    assert forall|key: Seq<char>| #[trigger] row_map(after).contains_key(key) implies row_map(
        after,
    )[key] == wanted[key] by {
        let at = position(after, key);
        lemma_entry_found(after, at);
        if at < row.len() {
            lemma_entry_found(row, at);
        }
    }
    assert(row_map(after) =~= wanted);
}

/// A new value for the entry at `i` is an insertion under that entry's key.
proof fn lemma_row_update(row: Seq<Entry>, i: int, entry: Entry)
    requires
        distinct(row),
        0 <= i < row.len(),
        entry.key@ == row[i].key@,
    ensures
        distinct(row.update(i, entry)),
        within(row.update(i, entry), row),
        row_map(row.update(i, entry)) == row_map(row).insert(entry.key@, entry.value@),
{
    let after = row.update(i, entry);
    let wanted = row_map(row).insert(entry.key@, entry.value@);
    assert forall|a: int, b: int| 0 <= a < b < after.len() implies (#[trigger] after[a]).key@
        != (#[trigger] after[b]).key@ by {
        assert(row[a].key@ != row[b].key@);
    }
    assert forall|a: int| 0 <= a < after.len() implies holds(row, (#[trigger] after[a]).key@) by {
        assert(row[a].key@ == after[a].key@);
    }
    assert forall|key: Seq<char>| #[trigger]
        row_map(after).contains_key(key) == wanted.contains_key(key) by {
        if holds(row, key) {
            assert(after[position(row, key)].key@ == key);
        }
        if key == entry.key@ {
            assert(after[i].key@ == key);
        }
        if holds(after, key) {
            assert(row[position(after, key)].key@ == key);
        }
    }
    assert forall|key: Seq<char>| #[trigger] row_map(after).contains_key(key) implies row_map(
        after,
    )[key] == wanted[key] by {
        let at = position(after, key);
        lemma_entry_found(after, at);
        lemma_entry_found(row, at);
    }
    assert(row_map(after) =~= wanted);
}

/// Putting the last entry in the place of the entry at `i` is a removal of
/// that entry's key.
proof fn lemma_row_swap_remove(row: Seq<Entry>, i: int)
    requires
        distinct(row),
        0 <= i < row.len(),
    ensures
        distinct(row.update(i, row.last()).drop_last()),
        within(row.update(i, row.last()).drop_last(), row),
        row_map(row.update(i, row.last()).drop_last()) == row_map(row).remove(row[i].key@),
{
    let last = row.len() - 1;
    let after = row.update(i, row.last()).drop_last();
    let gone = row[i].key@;
    let wanted = row_map(row).remove(gone);
    // Where each entry of `after` stood in `row`.
    let origin = |a: int|
        if a == i {
            last
        } else {
            a
        };
    assert forall|a: int| 0 <= a < after.len() implies #[trigger] after[a] == row[origin(a)] by {}
    assert forall|a: int, b: int| 0 <= a < b < after.len() implies (#[trigger] after[a]).key@
        != (#[trigger] after[b]).key@ by {
        if origin(a) < origin(b) {
            assert(row[origin(a)].key@ != row[origin(b)].key@);
        } else {
            assert(row[origin(b)].key@ != row[origin(a)].key@);
        }
    }
    assert forall|a: int| 0 <= a < after.len() implies holds(row, (#[trigger] after[a]).key@) by {
        assert(row[origin(a)].key@ == after[a].key@);
    }
    assert forall|key: Seq<char>| #[trigger]
        row_map(after).contains_key(key) == wanted.contains_key(key) by {
        if holds(row, key) && key != gone {
            let at = position(row, key);
            if at == last {
                assert(after[i].key@ == key);
            } else {
                assert(after[at].key@ == key);
            }
        }
        if holds(after, key) {
            let at = position(after, key);
            assert(row[origin(at)].key@ == key);
            if key == gone {
                lemma_entry_found(row, i);
                lemma_entry_found(row, origin(at));
            }
        }
    }
    assert forall|key: Seq<char>| #[trigger] row_map(after).contains_key(key) implies row_map(
        after,
    )[key] == wanted[key] by {
        let at = position(after, key);
        lemma_entry_found(after, at);
        lemma_entry_found(row, origin(at));
    }
    assert(row_map(after) =~= wanted);
}

/// Where `key` stands in `row`, if it does.
fn find(row: &Vec<Entry>, key: &Key) -> (at: Option<usize>)
    ensures
        match at {
            Some(i) => i < row.len() && row[i as int].key@ == key@,
            None => !holds(row@, key@),
        },
{
    let mut i: usize = 0;
    while i < row.len()
        invariant
            i <= row.len(),
            forall|j: int| 0 <= j < i ==> (#[trigger] row[j]).key@ != key@,
        decreases row.len() - i,
    {
        if row[i].key == *key {
            return Some(i);
        }
        i += 1;
    }
    None
}

/// Stores `value` under `key` in `row` and hands back what was there.
fn put_in_row(row: &mut Vec<Entry>, key: Key, value: Val) -> (prior: Option<Val>)
    requires
        distinct(old(row)@),
    ensures
        distinct(final(row)@),
        row_map(final(row)@) == row_map(old(row)@).insert(key@, value@),
        shown(prior) == lookup(row_map(old(row)@), key@),
        forall|i: int|
            0 <= i < final(row).len() ==> (#[trigger] final(row)[i]).key@ == key@ || holds(
                old(row)@,
                final(row)[i].key@,
            ),
{
    match find(row, &key) {
        Some(i) => {
            let mut value = value;
            std::mem::swap(&mut row[i].value, &mut value);
            proof {
                lemma_entry_found(old(row)@, i as int);
                assert(row@ =~= old(row)@.update(i as int, row[i as int]));
                lemma_row_update(old(row)@, i as int, row[i as int]);
            }
            Some(value)
        },
        None => {
            proof {
                lemma_row_push(row@, Entry { key, value });
                assert forall|i: int| 0 <= i < row.len() implies holds(
                    row@,
                    (#[trigger] row[i]).key@,
                ) by {}
            }
            row.push(Entry { key, value });
            None
        },
    }
}

/// Takes `key` out of `row` and hands back what was there.
fn take_from_row(row: &mut Vec<Entry>, key: &Key) -> (prior: Option<Val>)
    requires
        distinct(old(row)@),
    ensures
        distinct(final(row)@),
        within(final(row)@, old(row)@),
        row_map(final(row)@) == row_map(old(row)@).remove(key@),
        shown(prior) == lookup(row_map(old(row)@), key@),
{
    match find(row, key) {
        Some(i) => {
            proof {
                lemma_entry_found(row@, i as int);
                lemma_row_swap_remove(row@, i as int);
            }
            let held = row.swap_remove(i);
            Some(held.value)
        },
        None => {
            proof {
                assert(row_map(row@).remove(key@) =~= row_map(row@));
                assert forall|i: int| 0 <= i < row.len() implies holds(
                    row@,
                    (#[trigger] row[i]).key@,
                ) by {}
            }
            None
        },
    }
}

/// The rows of a map, each as the sequence of its entries.
spec fn layout(rows: Seq<Vec<Entry>>) -> Seq<Seq<Entry>> {
    Seq::new(rows.len(), |r: int| rows[r]@)
}

/// `rows`, with empty rows behind them up to `n` rows.
spec fn padded(rows: Seq<Seq<Entry>>, n: nat) -> Seq<Seq<Entry>> {
    Seq::new(
        n,
        |r: int|
            if r < rows.len() {
                rows[r]
            } else {
                Seq::empty()
            },
    )
}

/// Every row holds each key once, and every entry stands in the row that its
/// key hashes to.
spec fn well_formed(rows: Seq<Seq<Entry>>) -> bool {
    &&& forall|r: int| 0 <= r < rows.len() ==> distinct(#[trigger] rows[r])
    &&& forall|r: int, i: int|
        0 <= r < rows.len() && 0 <= i < rows[r].len() ==> slot_of(
            (#[trigger] rows[r][i]).key@,
            rows.len() as int,
        ) == r
}

/// The map that the rows stand for.
spec fn contents(rows: Seq<Seq<Entry>>) -> Contents {
    Map::new(
        |key: Seq<char>| rows.len() > 0 && holds(rows[slot_of(key, rows.len() as int)], key),
        |key: Seq<char>| row_map(rows[slot_of(key, rows.len() as int)])[key],
    )
}

/// Rows without entries stand for the empty map.
proof fn lemma_no_entries(rows: Seq<Seq<Entry>>)
    requires
        forall|r: int| 0 <= r < rows.len() ==> (#[trigger] rows[r]).len() == 0,
    ensures
        well_formed(rows),
        contents(rows) == Map::<Seq<char>, Seq<char>>::empty(),
{
    assert(contents(rows) =~= Map::<Seq<char>, Seq<char>>::empty());
}

/// Replacing the row of `key` by one that holds only keys of the old row or
/// `key` keeps the rows well formed.
proof fn lemma_row_replaced(rows: Seq<Seq<Entry>>, s: int, row: Seq<Entry>, key: Seq<char>)
    requires
        well_formed(rows),
        0 <= s < rows.len(),
        s == slot_of(key, rows.len() as int),
        distinct(row),
        forall|i: int|
            0 <= i < row.len() ==> (#[trigger] row[i]).key@ == key || holds(rows[s], row[i].key@),
    ensures
        well_formed(rows.update(s, row)),
{
    let after = rows.update(s, row);
    assert forall|r: int, i: int| 0 <= r < after.len() && 0 <= i < after[r].len() implies slot_of(
        (#[trigger] after[r][i]).key@,
        after.len() as int,
    ) == r by {
        if r == s {
            if row[i].key@ != key {
                let at = position(rows[s], row[i].key@);
                assert(rows[s][at].key@ == row[i].key@);
            }
        } else {
            assert(after[r][i] == rows[r][i]);
        }
    }
    assert forall|r: int| 0 <= r < after.len() implies distinct(#[trigger] after[r]) by {
        if r != s {
            assert(after[r] == rows[r]);
        }
    }
}

/// An insertion into the row of `key` is an insertion into the map.
proof fn lemma_row_stored(
    rows: Seq<Seq<Entry>>,
    s: int,
    row: Seq<Entry>,
    key: Seq<char>,
    value: Seq<char>,
)
    requires
        0 <= s < rows.len(),
        s == slot_of(key, rows.len() as int),
        row_map(row) == row_map(rows[s]).insert(key, value),
    ensures
        contents(rows.update(s, row)) == contents(rows).insert(key, value),
{
    let after = rows.update(s, row);
    let wanted = contents(rows).insert(key, value);
    assert forall|k: Seq<char>| #[trigger]
        contents(after).contains_key(k) == wanted.contains_key(k) by {
        let at = slot_of(k, rows.len() as int);
        if at == s {
            assert(row_map(row).contains_key(k) == row_map(rows[s]).insert(
                key,
                value,
            ).contains_key(k));
        } else {
            assert(after[at] == rows[at]);
        }
    }
    assert forall|k: Seq<char>| #[trigger] contents(after).contains_key(k) implies contents(
        after,
    )[k] == wanted[k] by {
        let at = slot_of(k, rows.len() as int);
        if at != s {
            assert(after[at] == rows[at]);
        }
    }
    assert(contents(after) =~= wanted);
}

/// A removal from the row of `key` is a removal from the map.
proof fn lemma_row_cleared(rows: Seq<Seq<Entry>>, s: int, row: Seq<Entry>, key: Seq<char>)
    requires
        0 <= s < rows.len(),
        s == slot_of(key, rows.len() as int),
        row_map(row) == row_map(rows[s]).remove(key),
    ensures
        contents(rows.update(s, row)) == contents(rows).remove(key),
{
    let after = rows.update(s, row);
    let wanted = contents(rows).remove(key);
    assert forall|k: Seq<char>| #[trigger]
        contents(after).contains_key(k) == wanted.contains_key(k) by {
        let at = slot_of(k, rows.len() as int);
        if at == s {
            assert(row_map(row).contains_key(k) == row_map(rows[s]).remove(key).contains_key(k));
        } else {
            assert(after[at] == rows[at]);
        }
    }
    assert forall|k: Seq<char>| #[trigger] contents(after).contains_key(k) implies contents(
        after,
    )[k] == wanted[k] by {
        let at = slot_of(k, rows.len() as int);
        if at != s {
            assert(after[at] == rows[at]);
        }
    }
    assert(contents(after) =~= wanted);
}

/// Stores `value` under `key` in the row that `key` hashes to.
fn put_in_rows(rows: &mut Vec<Vec<Entry>>, key: Key, value: Val) -> (prior: Option<Val>)
    requires
        old(rows).len() > 0,
        well_formed(layout(old(rows)@)),
    ensures
        final(rows).len() == old(rows).len(),
        well_formed(layout(final(rows)@)),
        contents(layout(final(rows)@)) == contents(layout(old(rows)@)).insert(key@, value@),
        shown(prior) == lookup(contents(layout(old(rows)@)), key@),
{
    let s = slot(&key, rows.len());
    let ghost before = layout(rows@);
    let ghost k = key@;
    let ghost v = value@;
    assert(distinct(before[s as int]));
    let prior = put_in_row(&mut rows[s], key, value);
    proof {
        let row = rows[s as int]@;
        assert(layout(rows@) =~= before.update(s as int, row));
        lemma_row_replaced(before, s as int, row, k);
        lemma_row_stored(before, s as int, row, k, v);
    }
    prior
}

/// Takes `key` out of the row that it hashes to.
fn take_from_rows(rows: &mut Vec<Vec<Entry>>, key: &Key) -> (prior: Option<Val>)
    requires
        old(rows).len() > 0,
        well_formed(layout(old(rows)@)),
    ensures
        final(rows).len() == old(rows).len(),
        well_formed(layout(final(rows)@)),
        contents(layout(final(rows)@)) == contents(layout(old(rows)@)).remove(key@),
        shown(prior) == lookup(contents(layout(old(rows)@)), key@),
{
    let s = slot(key, rows.len());
    let ghost before = layout(rows@);
    assert(distinct(before[s as int]));
    let prior = take_from_row(&mut rows[s], key);
    proof {
        let row = rows[s as int]@;
        assert(layout(rows@) =~= before.update(s as int, row));
        lemma_row_replaced(before, s as int, row, key@);
        lemma_row_cleared(before, s as int, row, key@);
    }
    prior
}

/// `n` rows without entries.
fn empty_rows(n: usize) -> (rows: Vec<Vec<Entry>>)
    ensures
        rows.len() == n,
        forall|r: int| 0 <= r < n ==> (#[trigger] rows[r]).len() == 0,
{
    let mut rows: Vec<Vec<Entry>> = Vec::new();
    while rows.len() < n
        invariant
            rows.len() <= n,
            forall|r: int| 0 <= r < rows.len() ==> (#[trigger] rows[r]).len() == 0,
        decreases n - rows.len(),
    {
        rows.push(Vec::new());
    }
    rows
}

/// What is left of `whole` in the rows that entries are taken from, and what
/// has reached the rows that they are moved to, make up `whole` between them.
spec fn split(whole: Contents, left: Contents, moved: Contents) -> bool {
    &&& forall|k: Seq<char>| #[trigger]
        whole.contains_key(k) <==> left.contains_key(k) || moved.contains_key(k)
    &&& forall|k: Seq<char>| #[trigger] left.contains_key(k) ==> whole[k] == left[k]
    &&& forall|k: Seq<char>| #[trigger] moved.contains_key(k) ==> whole[k] == moved[k]
}

/// Moves every entry of `rows` into `n` fresh rows.
fn spread(rows: Vec<Vec<Entry>>, n: usize) -> (wider: Vec<Vec<Entry>>)
    requires
        n > 0,
        well_formed(layout(rows@)),
    ensures
        wider.len() == n,
        well_formed(layout(wider@)),
        contents(layout(wider@)) == contents(layout(rows@)),
{
    let ghost whole = contents(layout(rows@));
    let ghost width = rows@.len();
    let mut source = rows;
    let mut wider = empty_rows(n);
    proof {
        lemma_no_entries(layout(wider@));
        assert(padded(layout(source@), width) =~= layout(source@));
    }
    while source.len() > 0
        invariant
            wider.len() == n,
            n > 0,
            source.len() <= width,
            well_formed(layout(wider@)),
            well_formed(padded(layout(source@), width)),
            split(whole, contents(padded(layout(source@), width)), contents(layout(wider@))),
        decreases source.len(),
    {
        let ghost before = padded(layout(source@), width);
        let popped = source.pop();
        let mut row = popped.unwrap();
        let ghost r = source.len() as int;
        proof {
            assert(padded(layout(source@).push(row@), width) =~= before);
        }
        while row.len() > 0
            invariant
                wider.len() == n,
                n > 0,
                0 <= r < width,
                r == source.len(),
                well_formed(layout(wider@)),
                well_formed(padded(layout(source@).push(row@), width)),
                split(
                    whole,
                    contents(padded(layout(source@).push(row@), width)),
                    contents(layout(wider@)),
                ),
            decreases row.len(),
        {
            let ghost left = padded(layout(source@).push(row@), width);
            let ghost last = row.len() - 1;
            assert(left[r] == row@);
            let taken = row.pop();
            let entry = taken.unwrap();
            proof {
                let shorter = row@;
                assert(shorter =~= left[r].update(last, left[r].last()).drop_last());
                lemma_entry_found(left[r], last);
                lemma_row_swap_remove(left[r], last);
                lemma_row_replaced(left, r, shorter, entry.key@);
                lemma_row_cleared(left, r, shorter, entry.key@);
                assert(padded(layout(source@).push(row@), width) =~= left.update(r, shorter));
                assert(contents(left).contains_key(entry.key@));
                assert(contents(left)[entry.key@] == entry.value@);
            }
            put_in_rows(&mut wider, entry.key, entry.value);
        }
        proof {
            assert(row@ =~= Seq::empty());
            assert(padded(layout(source@), width) =~= padded(layout(source@).push(row@), width));
        }
    }
    proof {
        lemma_no_entries(padded(layout(source@), width));
        assert(contents(layout(wider@)) =~= whole);
    }
    wider
}

/// A map from keys to values.
pub struct Table {
    rows: Vec<Vec<Entry>>,
    /// A count of the entries: raised with each new key and lowered with
    /// each key taken out, as far as a `usize` goes. It decides when the map
    /// gets more rows, and nothing else.
    load: usize,
}

impl View for Table {
    type V = Contents;

    closed spec fn view(&self) -> Contents {
        contents(layout(self.rows@))
    }
}

impl Table {
    #[verifier::type_invariant]
    spec fn sound(&self) -> bool {
        well_formed(layout(self.rows@))
    }

    /// A map without entries.
    pub fn new() -> (table: Table)
        ensures
            table@ == Map::<Seq<char>, Seq<char>>::empty(),
    {
        let table = Table { rows: Vec::new(), load: 0 };
        proof {
            lemma_no_entries(layout(table.rows@));
        }
        table
    }

    /// The value stored under `key`, if there is one.
    pub fn get(&self, key: &Key) -> (found: Option<&Val>)
        ensures
            shown_ref(found) == lookup(self@, key@),
    {
        proof {
            use_type_invariant(self);
        }
        if self.rows.len() == 0 {
            return None;
        }
        let s = slot(key, self.rows.len());
        let row = &self.rows[s];
        assert(row@ == layout(self.rows@)[s as int]);
        match find(row, key) {
            Some(i) => {
                proof {
                    lemma_entry_found(row@, i as int);
                }
                Some(&row[i].value)
            },
            None => None,
        }
    }

    /// Stores `value` under `key`, and returns the value that `key` had
    /// before, if it had one.
    pub fn insert(&mut self, key: Key, value: Val) -> (prior: Option<Val>)
        ensures
            final(self)@ == old(self)@.insert(key@, value@),
            shown(prior) == lookup(old(self)@, key@),
    {
        proof {
            use_type_invariant(&*self);
        }
        // The rows are taken out of the map while they are worked on: what
        // stays behind is an empty map, which is a sound one.
        let mut rows: Vec<Vec<Entry>> = Vec::new();
        std::mem::swap(&mut rows, &mut self.rows);
        if self.load >= rows.len() {
            if rows.len() == 0 {
                rows = spread(rows, FIRST_ROWS);
            } else if rows.len() <= MOST_ROWS / 2 {
                let twice = rows.len() * 2;
                rows = spread(rows, twice);
            }
        }
        let prior = put_in_rows(&mut rows, key, value);
        if prior.is_none() && self.load < usize::MAX {
            self.load = self.load + 1;
        }
        self.rows = rows;
        prior
    }

    /// Takes `key` out of the map, and returns the value that it had, if it
    /// had one. A map without `key` stays as it is.
    pub fn remove(&mut self, key: &Key) -> (prior: Option<Val>)
        ensures
            final(self)@ == old(self)@.remove(key@),
            shown(prior) == lookup(old(self)@, key@),
    {
        proof {
            use_type_invariant(&*self);
        }
        if self.rows.len() == 0 {
            proof {
                assert(self@.remove(key@) =~= self@);
            }
            return None;
        }
        let mut rows: Vec<Vec<Entry>> = Vec::new();
        std::mem::swap(&mut rows, &mut self.rows);
        let prior = take_from_rows(&mut rows, key);
        if prior.is_some() && self.load > 0 {
            self.load = self.load - 1;
        }
        self.rows = rows;
        prior
    }
}

impl Clone for Table {
    /// A copy that shares nothing with `self`.
    fn clone(&self) -> (copy: Table)
        ensures
            copy@ == self@,
    {
        proof {
            use_type_invariant(self);
        }
        let mut rows: Vec<Vec<Entry>> = Vec::new();
        let mut r: usize = 0;
        while r < self.rows.len()
            invariant
                r <= self.rows.len(),
                rows.len() == r,
                forall|a: int| 0 <= a < r ==> (#[trigger] rows[a])@ == self.rows[a]@,
            decreases self.rows.len() - r,
        {
            let row = &self.rows[r];
            let mut copied: Vec<Entry> = Vec::new();
            let mut i: usize = 0;
            while i < row.len()
                invariant
                    i <= row.len(),
                    copied.len() == i,
                    forall|a: int| 0 <= a < i ==> (#[trigger] copied[a]) == row[a],
                decreases row.len() - i,
            {
                copied.push(Entry { key: row[i].key.clone(), value: row[i].value.clone() });
                i += 1;
            }
            assert(copied@ =~= row@);
            rows.push(copied);
            r += 1;
        }
        assert(layout(rows@) =~= layout(self.rows@));
        Table { rows, load: self.load }
    }
}

} // verus!
