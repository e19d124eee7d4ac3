//! Looking records up in a list: the keys a record can be asked for by, and
//! the first record that answers to a key.

use vstd::prelude::*;
use crate::message::records;
use crate::message::Record;
use crate::message::StarboardMessage;

verus! {

/// Whether `i` is the place of the first of `items` that `wanted` holds of.
pub open spec fn first_at<T>(items: Seq<T>, wanted: spec_fn(T) -> bool, i: int) -> bool {
    &&& 0 <= i < items.len()
    &&& wanted(items[i])
    &&& forall|j: int| 0 <= j < i ==> !wanted(#[trigger] items[j])
}

/// The place of the first of `items` that `wanted` holds of, if it holds of any.
pub open spec fn first_place<T>(items: Seq<T>, wanted: spec_fn(T) -> bool) -> Option<int> {
    if exists|i: int| first_at(items, wanted, i) {
        Some(choose|i: int| first_at(items, wanted, i))
    } else {
        None
    }
}

/// A place that is first is the place `first_place` names.
pub proof fn lemma_first_place_found<T>(items: Seq<T>, wanted: spec_fn(T) -> bool, i: int)
    requires
        first_at(items, wanted, i),
    ensures
        first_place(items, wanted) == Some(i),
{
    let k = choose|k: int| first_at(items, wanted, k);
    assert(first_at(items, wanted, k));
    if k < i {
        assert(!wanted(items[k]));
    }
    if i < k {
        assert(!wanted(items[i]));
    }
}

/// What `first_place` says of the place it names, and of a list in which
/// it names none.
pub proof fn lemma_first_place<T>(items: Seq<T>, wanted: spec_fn(T) -> bool)
    ensures
        match first_place(items, wanted) {
            Some(i) => first_at(items, wanted, i),
            None => forall|j: int| 0 <= j < items.len() ==> !wanted(#[trigger] items[j]),
        },
{
    if exists|i: int| first_at(items, wanted, i) {
    } else {
        assert forall|j: int| 0 <= j < items.len() implies !wanted(#[trigger] items[j]) by {
            if wanted(items[j]) {
                lemma_some_is_first(items, wanted, j);
            }
        }
    }
}

/// Where `wanted` holds of something, it holds of something first.
proof fn lemma_some_is_first<T>(items: Seq<T>, wanted: spec_fn(T) -> bool, j: int)
    requires
        0 <= j < items.len(),
        wanted(items[j]),
    ensures
        exists|i: int| first_at(items, wanted, i),
    decreases j,
{
    if forall|k: int| 0 <= k < j ==> !wanted(#[trigger] items[k]) {
        assert(first_at(items, wanted, j));
    } else {
        let k = choose|k: int| 0 <= k < j && wanted(#[trigger] items[k]);
        lemma_some_is_first(items, wanted, k);
    }
}

/// What a record is asked for by.
#[derive(Clone, Copy, Debug, PartialEq, Eq, Structural)]
pub enum Key {
    /// The number the store gave it. Denied records answer too.
    Id(i32),
    /// The curated message. Only a record that is not denied answers.
    Source(u64),
    /// The message under which it is posted. Only a record that is not
    /// denied answers.
    Posted(u64),
}

impl Key {
    /// Whether `r` answers to the key.
    pub open spec fn selects(self, r: Record) -> bool {
        match self {
            Key::Id(id) => r.id == id,
            Key::Source(m) => r.active() && r.message_id == m,
            Key::Posted(m) => r.active() && r.starboard_message_id == m,
        }
    }

    /// Whether `m` answers to the key.
    pub fn matches(&self, m: &StarboardMessage) -> (r: bool)
        ensures
            r == self.selects(m@),
    {
        match self {
            Key::Id(id) => m.id == *id,
            Key::Source(s) => m.is_active() && m.message_id.0 == *s,
            Key::Posted(p) => m.is_active() && m.starboard_message_id.0 == *p,
        }
    }
}

/// The place of the first of `rows` that answers to `key`, if any does.
pub open spec fn place_of(rows: Seq<Record>, key: Key) -> Option<int> {
    first_place(rows, |r: Record| key.selects(r))
}

/// The first of `rows` that answers to `key`, if any does.
pub open spec fn lookup(rows: Seq<Record>, key: Key) -> Option<Record> {
    match place_of(rows, key) {
        Some(i) => Some(rows[i]),
        None => None,
    }
}

/// A record that answers to `key`, with none before it that does, is the
/// one that `place_of` names.
pub proof fn lemma_place_found(rows: Seq<Record>, key: Key, i: int)
    requires
        0 <= i < rows.len(),
        key.selects(rows[i]),
        forall|j: int| 0 <= j < i ==> !key.selects(#[trigger] rows[j]),
    ensures
        place_of(rows, key) == Some(i),
{
    lemma_first_place_found(rows, |r: Record| key.selects(r), i);
}

/// What `place_of` says of the place it names, and of a list in which it
/// names none.
pub proof fn lemma_place_of(rows: Seq<Record>, key: Key)
    ensures
        match place_of(rows, key) {
            Some(i) => {
                &&& 0 <= i < rows.len()
                &&& key.selects(rows[i])
                &&& forall|j: int| 0 <= j < i ==> !key.selects(#[trigger] rows[j])
            },
            None => forall|j: int| 0 <= j < rows.len() ==> !key.selects(#[trigger] rows[j]),
        },
{
    lemma_first_place(rows, |r: Record| key.selects(r));
}

/// Finds the first of `list` that answers to `key`.
pub fn find(list: &Vec<StarboardMessage>, key: Key) -> (r: Option<usize>)
    ensures
        match r {
            Some(i) => place_of(records(list@), key) == Some(i as int),
            None => place_of(records(list@), key).is_none(),
        },
{
    let ghost rows = records(list@);
    let mut i: usize = 0;
    while i < list.len()
        invariant
            i <= list.len(),
            rows == records(list@),
            forall|j: int| 0 <= j < i ==> !key.selects(#[trigger] rows[j]),
        decreases list.len() - i,
    {
        if key.matches(&list[i]) {
            proof {
                lemma_place_found(rows, key, i as int);
            }
            return Some(i);
        }
        i += 1;
    }
    None
}

} // verus!
