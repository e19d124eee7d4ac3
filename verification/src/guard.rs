//! The in-flight guard as a set of message identifiers, and the law that
//! makes it a guard: one message is in one pair of hands at a time.

use vstd::prelude::*;

verus! {

/// One call on the guard.
#[derive(Clone, Copy, Debug, PartialEq, Eq, Structural)]
pub enum GuardOp {
    /// An attempt to take the message into one's hands.
    Acquire(u64),
    /// Letting the message go.
    Release(u64),
}

/// The set of messages in flight after the call `op`.
pub open spec fn guard_step(held: Set<u64>, op: GuardOp) -> Set<u64> {
    match op {
        GuardOp::Acquire(id) => held.insert(id),
        GuardOp::Release(id) => held.remove(id),
    }
}

/// The set of messages in flight after the calls `ops`, made in their order
/// on the set `held`.
pub open spec fn guard_after(held: Set<u64>, ops: Seq<GuardOp>) -> Set<u64>
    decreases ops.len(),
{
    if ops.len() == 0 {
        held
    } else {
        guard_step(guard_after(held, ops.drop_last()), ops.last())
    }
}

/// Whether the call at place `i` of `ops` is an attempt that succeeds: it
/// asks for a message that is not in flight when it is made.
pub open spec fn acquires_at(held: Set<u64>, ops: Seq<GuardOp>, i: int) -> bool {
    &&& 0 <= i < ops.len()
    &&& ops[i] matches GuardOp::Acquire(id)
    &&& !guard_after(held, ops.take(i)).contains(id)
}

proof fn lemma_held_until_released(held: Set<u64>, ops: Seq<GuardOp>, i: int, m: int, id: u64)
    requires
        0 <= i < m <= ops.len(),
        ops[i] == GuardOp::Acquire(id),
        forall|k: int| i < k < m ==> #[trigger] ops[k] != GuardOp::Release(id),
    ensures
        guard_after(held, ops.take(m)).contains(id),
    decreases m - i,
{
    let upto = ops.take(m);
    assert(upto.drop_last() =~= ops.take(m - 1));
    if m - 1 > i {
        lemma_held_until_released(held, ops, i, m - 1, id);
    }
}

/// Whatever calls are made in whatever order, two attempts for the same
/// message both succeed only if the message was let go in between: no two
/// holders of one message overlap.
pub proof fn lemma_one_holder_at_a_time(held: Set<u64>, ops: Seq<GuardOp>, i: int, j: int, id: u64)
    requires
        i < j,
        ops[i] == GuardOp::Acquire(id),
        ops[j] == GuardOp::Acquire(id),
        acquires_at(held, ops, i),
        acquires_at(held, ops, j),
    ensures
        exists|k: int| i < k < j && #[trigger] ops[k] == GuardOp::Release(id),
{
    if forall|k: int| i < k < j ==> #[trigger] ops[k] != GuardOp::Release(id) {
        lemma_held_until_released(held, ops, i, j, id);
    }
}

/// An attempt for a message that is in flight fails and changes nothing,
/// and letting go of a message that is not in flight changes nothing.
pub proof fn lemma_guard_idle_calls(held: Set<u64>, id: u64)
    ensures
        held.contains(id) ==> guard_step(held, GuardOp::Acquire(id)) == held,
        !held.contains(id) ==> guard_step(held, GuardOp::Release(id)) == held,
{
}

} // verus!
