//! The working set as a list of records: what putting a record in, taking
//! one out and changing one do to it, and what it answers afterwards.

use vstd::prelude::*;
use crate::message::Record;
use crate::status::Transition;
use crate::table::lemma_place_found;
use crate::table::lemma_place_of;
use crate::table::lookup;
use crate::table::place_of;
use crate::table::Key;

verus! {

/// The rule of the working set: no two of its records share a number.
pub open spec fn cache_wf(messages: Seq<Record>) -> bool {
    forall|i: int, j: int| 0 <= i < j < messages.len() ==> (#[trigger] messages[i]).id != (#[trigger] messages[j]).id
}

/// The list without the first record that answers to `key`.
pub open spec fn evicted(messages: Seq<Record>, key: Key) -> Seq<Record> {
    match place_of(messages, key) {
        Some(i) => messages.remove(i),
        None => messages,
    }
}

/// The list after `r` was put in: `r` stands in the place of the record
/// with its number, which it overwrites, or at the end where the list has
/// no record with its number.
pub open spec fn cache_put(messages: Seq<Record>, r: Record) -> Seq<Record> {
    match place_of(messages, Key::Id(r.id)) {
        Some(i) => messages.update(i, r),
        None => messages.push(r),
    }
}

/// The list in which the record numbered `id` has `count` stars, if it is
/// there and may take them: one whose review is over keeps its stars, and
/// no record loses any.
pub open spec fn cache_with_stars(messages: Seq<Record>, id: i32, count: i16) -> Seq<Record> {
    match place_of(messages, Key::Id(id)) {
        Some(i) => if messages[i].takes_star_count(count) {
            messages.update(i, messages[i].with_star_count(count))
        } else {
            messages
        },
        None => messages,
    }
}

/// The list once the store has taken the change `transition` of the record
/// numbered `id`: a denied record is dropped; an accepted one that the list
/// holds is changed where it stands, and none is added where it holds none.
pub open spec fn settled(messages: Seq<Record>, id: i32, transition: Transition) -> Seq<Record> {
    match transition {
        Transition::Deny => evicted(messages, Key::Id(id)),
        Transition::Accept(_) => match place_of(messages, Key::Id(id)) {
            Some(i) => messages.update(i, messages[i].after(transition)),
            None => messages,
        },
    }
}

/// Whether no record of `messages` but the one numbered `id` answers to `key`.
pub open spec fn only_answer(messages: Seq<Record>, key: Key, id: i32) -> bool {
    forall|j: int| 0 <= j < messages.len() && (#[trigger] messages[j]).id != id ==> !key.selects(messages[j])
}

/// In a list that keeps the rule, taking the record with a number out
/// leaves none with that number and keeps the rule.
pub proof fn lemma_evicted(messages: Seq<Record>, id: i32)
    requires
        cache_wf(messages),
    ensures
        cache_wf(evicted(messages, Key::Id(id))),
        place_of(evicted(messages, Key::Id(id)), Key::Id(id)).is_none(),
{
    let out = evicted(messages, Key::Id(id));
    lemma_place_of(messages, Key::Id(id));
    match place_of(messages, Key::Id(id)) {
        Some(p) => {
            assert forall|j: int| 0 <= j < out.len() implies !Key::Id(id).selects(#[trigger] out[j]) by {
                let j0 = if j < p { j } else { j + 1 };
                assert(out[j] == messages[j0]);
                assert(messages[p].id != messages[j0].id);
            }
            assert forall|a: int, b: int| 0 <= a < b < out.len() implies (#[trigger] out[a]).id != (
            #[trigger] out[b]).id by {
                let a0 = if a < p { a } else { a + 1 };
                let b0 = if b < p { b } else { b + 1 };
                assert(out[a] == messages[a0] && out[b] == messages[b0]);
                assert(messages[a0].id != messages[b0].id);
            }
        },
        None => {},
    }
    lemma_place_of(out, Key::Id(id));
}

/// Putting a record in keeps the rule of the working set.
pub proof fn lemma_put_keeps_rules(messages: Seq<Record>, r: Record)
    requires
        cache_wf(messages),
    ensures
        cache_wf(cache_put(messages, r)),
{
    let out = cache_put(messages, r);
    lemma_place_of(messages, Key::Id(r.id));
    assert forall|a: int, b: int| 0 <= a < b < out.len() implies (#[trigger] out[a]).id != (#[trigger] out[b]).id by {
        match place_of(messages, Key::Id(r.id)) {
            Some(p) => {
                assert(out[a].id == messages[a].id && out[b].id == messages[b].id);
            },
            None => {
                if b < messages.len() {
                    assert(out[a] == messages[a] && out[b] == messages[b]);
                } else {
                    assert(out[a] == messages[a]);
                    assert(!Key::Id(r.id).selects(messages[a]));
                }
            },
        }
    }
}

/// A record is what a working set that keeps the rule answers under the
/// record's number once it was put in; and it is what the working set
/// answers under any key that it answers to, where no other record of the
/// working set answers to that key.
pub proof fn lemma_put_get(messages: Seq<Record>, r: Record, key: Key)
    requires
        cache_wf(messages),
    ensures
        lookup(cache_put(messages, r), Key::Id(r.id)) == Some(r),
        key.selects(r) && only_answer(messages, key, r.id) ==> lookup(cache_put(messages, r), key) == Some(r),
{
    let out = cache_put(messages, r);
    lemma_place_of(messages, Key::Id(r.id));
    let p = match place_of(messages, Key::Id(r.id)) {
        Some(p) => p,
        None => messages.len() as int,
    };
    assert(out[p] == r);
    assert forall|j: int| 0 <= j < p implies !Key::Id(r.id).selects(#[trigger] out[j]) by {
        assert(out[j] == messages[j]);
    }
    lemma_place_found(out, Key::Id(r.id), p);
    if key.selects(r) && only_answer(messages, key, r.id) {
        assert forall|j: int| 0 <= j < p implies !key.selects(#[trigger] out[j]) by {
            assert(out[j] == messages[j]);
            assert(!Key::Id(r.id).selects(messages[j]));
        }
        lemma_place_found(out, key, p);
    }
}

/// Setting the stars of a record of the working set keeps its rule.
pub proof fn lemma_with_stars_keeps_rules(messages: Seq<Record>, id: i32, count: i16)
    requires
        cache_wf(messages),
    ensures
        cache_wf(cache_with_stars(messages, id, count)),
{
}

/// Following a change that the store took keeps the rule of the working set.
pub proof fn lemma_settled_keeps_rules(messages: Seq<Record>, id: i32, transition: Transition)
    requires
        cache_wf(messages),
    ensures
        cache_wf(settled(messages, id, transition)),
{
    lemma_evicted(messages, id);
}

} // verus!
