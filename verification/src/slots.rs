//! The slots of a registry as a sequence of identifiers, and what holds of
//! it through every opening, cancellation and completion.

use vstd::prelude::*;

verus! {

/// The first slot whose signal nobody listens for any more, if there is one.
pub open spec fn first_closed(closed: Seq<bool>) -> Option<int> {
    if exists|i: int| 0 <= i < closed.len() && closed[i] {
        Some(choose|i: int| 0 <= i < closed.len() && closed[i] && forall|j: int| 0 <= j < i ==> !closed[j])
    } else {
        None
    }
}

/// The identifiers after `id` has taken the slot `slot`, or a new last slot.
pub open spec fn placed(ids: Seq<u64>, id: u64, slot: Option<int>) -> Seq<u64> {
    match slot {
        Some(at) => ids.update(at, id),
        None => ids.push(id),
    }
}

/// The identifiers after the slot of `id` has been taken out.
pub open spec fn removed(ids: Seq<u64>, id: u64) -> Seq<u64> {
    if ids.contains(id) {
        ids.remove(ids.index_of(id))
    } else {
        ids
    }
}

/// To cancel twice is to cancel once: after the slot of `id` has been
/// taken out, by a cancellation or by the completion, `id` is not pending,
/// and to take it out again finds nothing and changes nothing. The other
/// tasks keep their slots.
pub proof fn lemma_cancel_is_idempotent(ids: Seq<u64>, id: u64)
    requires
        ids.no_duplicates(),
    ensures
        !removed(ids, id).contains(id),
        removed(removed(ids, id), id) == removed(ids, id),
        removed(ids, id).no_duplicates(),
        forall|x: u64| x != id ==> (removed(ids, id).contains(x) <==> ids.contains(x)),
{
    let after = removed(ids, id);
    if ids.contains(id) {
        let at = ids.index_of(id);
        assert(ids[at] == id);
        assert forall|i: int| 0 <= i < after.len() implies after[i] == ids[if i < at {
            i
        } else {
            i + 1
        }] by {}
        assert forall|x: u64| after.contains(x) implies ids.contains(x) && x != id by {
            let i = choose|i: int| 0 <= i < after.len() && after[i] == x;
            let k = if i < at {
                i
            } else {
                i + 1
            };
            assert(ids[k] == x);
        }
        assert forall|x: u64| x != id && ids.contains(x) implies after.contains(x) by {
            let k = choose|k: int| 0 <= k < ids.len() && ids[k] == x;
            let i = if k < at {
                k
            } else {
                k - 1
            };
            assert(after[i] == x);
        }
        assert forall|i: int, j: int| 0 <= i < after.len() && 0 <= j < after.len() && i != j implies after[i] != after[j] by {
            let i2 = if i < at {
                i
            } else {
                i + 1
            };
            let j2 = if j < at {
                j
            } else {
                j + 1
            };
            assert(ids[i2] == after[i]);
            assert(ids[j2] == after[j]);
        }
    }
}

/// A new task pushes out at most the one task whose slot it takes: every
/// identifier that is pending afterwards is the new one or was pending
/// before, and the new one is pending.
pub proof fn lemma_placed_adds_one(ids: Seq<u64>, id: u64, slot: Option<int>)
    requires
        slot matches Some(at) ==> 0 <= at < ids.len(),
    ensures
        placed(ids, id, slot).contains(id),
        forall|x: u64| placed(ids, id, slot).contains(x) ==> x == id || ids.contains(x),
        forall|x: u64|
            ids.contains(x) && !placed(ids, id, slot).contains(x) ==> (slot matches Some(at)
                && ids[at] == x),
{
    let after = placed(ids, id, slot);
    match slot {
        Some(at) => {
            assert(after[at] == id);
            assert forall|x: u64| after.contains(x) implies x == id || ids.contains(x) by {
                let i = choose|i: int| 0 <= i < after.len() && after[i] == x;
                if i != at {
                    assert(ids[i] == x);
                }
            }
            assert forall|x: u64| ids.contains(x) && !after.contains(x) implies ids[at] == x by {
                let i = choose|i: int| 0 <= i < ids.len() && ids[i] == x;
                if i != at {
                    assert(after[i] == x);
                }
            }
        },
        None => {
            assert(after[ids.len() as int] == id);
            assert forall|x: u64| after.contains(x) implies x == id || ids.contains(x) by {
                let i = choose|i: int| 0 <= i < after.len() && after[i] == x;
                if i < ids.len() {
                    assert(ids[i] == x);
                }
            }
            assert forall|x: u64| ids.contains(x) implies after.contains(x) by {
                let i = choose|i: int| 0 <= i < ids.len() && ids[i] == x;
                assert(after[i] == x);
            }
        },
    }
}

/// What can happen to the slots of an object.
pub enum SlotOp {
    /// A new task gets a slot. `closed` says of every slot whether its
    /// signal has lost its listener.
    Open { closed: Seq<bool> },
    /// The slot of `id` is taken out by a cancellation.
    Cancel { id: u64 },
    /// The slot of `id` is taken out by the completion.
    Complete { id: u64 },
}

/// Whether no identifier has two slots and every identifier in use was
/// issued, `next` being the first that was not.
pub open spec fn slots_wf(ids: Seq<u64>, next: u64) -> bool {
    &&& ids.no_duplicates()
    &&& forall|i: int| 0 <= i < ids.len() ==> ids[i] < next
}

/// The slots and the next identifier after `op`. A slot is opened only
/// while identifiers are left and `closed` speaks of every slot.
pub open spec fn slots_next(ids: Seq<u64>, next: u64, op: SlotOp) -> (Seq<u64>, u64) {
    match op {
        SlotOp::Open { closed } => if next < u64::MAX && closed.len() == ids.len() {
            (placed(ids, next, first_closed(closed)), (next + 1) as u64)
        } else {
            (ids, next)
        },
        SlotOp::Cancel { id } => (removed(ids, id), next),
        SlotOp::Complete { id } => (removed(ids, id), next),
    }
}

/// The slots and the next identifier after all of `ops`, first to last.
pub open spec fn slots_run(ids: Seq<u64>, next: u64, ops: Seq<SlotOp>) -> (Seq<u64>, u64)
    decreases ops.len(),
{
    if ops.len() == 0 {
        (ids, next)
    } else {
        let before = slots_run(ids, next, ops.drop_last());
        slots_next(before.0, before.1, ops.last())
    }
}

/// An identifier is issued once: a task whose slot is gone, by
/// cancellation, by completion or because another task took the slot over,
/// never has a slot again, whatever happens to the registry afterwards. So
/// of all attempts to take its slot out at most one succeeds.
pub proof fn lemma_gone_stays_gone(ids: Seq<u64>, next: u64, ops: Seq<SlotOp>, id: u64)
    requires
        slots_wf(ids, next),
        id < next,
        !ids.contains(id),
    ensures
        ({
            let after = slots_run(ids, next, ops);
            &&& slots_wf(after.0, after.1)
            &&& id < after.1
            &&& !after.0.contains(id)
        }),
    decreases ops.len(),
{
    if ops.len() > 0 {
        lemma_gone_stays_gone(ids, next, ops.drop_last(), id);
        let before = slots_run(ids, next, ops.drop_last());
        lemma_slots_step(before.0, before.1, ops.last());
        match ops.last() {
            SlotOp::Open { closed } => {
                if before.1 < u64::MAX && closed.len() == before.0.len() {
                    lemma_first_closed_in_range(closed);
                    lemma_placed_adds_one(before.0, before.1, first_closed(closed));
                }
            },
            SlotOp::Cancel { id: other } => {
                lemma_cancel_is_idempotent(before.0, other);
            },
            SlotOp::Complete { id: other } => {
                lemma_cancel_is_idempotent(before.0, other);
            },
        }
    }
}

/// No step breaks the registry: afterwards again no identifier has two
/// slots and every identifier in use was issued.
pub proof fn lemma_slots_step(ids: Seq<u64>, next: u64, op: SlotOp)
    requires
        slots_wf(ids, next),
    ensures
        slots_wf(slots_next(ids, next, op).0, slots_next(ids, next, op).1),
        next <= slots_next(ids, next, op).1,
{
    let after = slots_next(ids, next, op).0;
    match op {
        SlotOp::Open { closed } => {
            if next < u64::MAX && closed.len() == ids.len() {
                lemma_first_closed_in_range(closed);
                let slot = first_closed(closed);
                assert forall|i: int, j: int|
                    0 <= i < after.len() && 0 <= j < after.len() && i != j implies after[i]
                    != after[j] by {
                    if after[i] == next && i < ids.len() && slot != Some(i) {
                        assert(ids[i] < next);
                    }
                    if after[j] == next && j < ids.len() && slot != Some(j) {
                        assert(ids[j] < next);
                    }
                }
                assert forall|i: int| 0 <= i < after.len() implies after[i] < next + 1 by {
                    if i < ids.len() && slot != Some(i) {
                        assert(ids[i] < next);
                    }
                }
            }
        },
        SlotOp::Cancel { id } => {
            lemma_cancel_is_idempotent(ids, id);
            assert forall|i: int| 0 <= i < after.len() implies after[i] < next by {
                assert(after.contains(after[i]));
                assert(ids.contains(after[i]));
            }
        },
        SlotOp::Complete { id } => {
            lemma_cancel_is_idempotent(ids, id);
            assert forall|i: int| 0 <= i < after.len() implies after[i] < next by {
                assert(after.contains(after[i]));
                assert(ids.contains(after[i]));
            }
        },
    }
}

/// The first closed slot, if there is one, is a slot.
pub proof fn lemma_first_closed_in_range(closed: Seq<bool>)
    ensures
        first_closed(closed) matches Some(at) ==> 0 <= at < closed.len() && closed[at],
{
    if exists|i: int| 0 <= i < closed.len() && closed[i] {
        let w = choose|i: int| 0 <= i < closed.len() && closed[i];
        lemma_has_first(closed, w);
    }
}

/// Among the closed slots up to `upto` one is the first.
proof fn lemma_has_first(closed: Seq<bool>, upto: int)
    requires
        0 <= upto < closed.len(),
        closed[upto],
    ensures
        exists|i: int| 0 <= i < closed.len() && closed[i] && forall|j: int| 0 <= j < i ==> !closed[j],
    decreases upto,
{
    if exists|j: int| 0 <= j < upto && closed[j] {
        let j = choose|j: int| 0 <= j < upto && closed[j];
        lemma_has_first(closed, j);
    } else {
        assert(0 <= upto < closed.len() && closed[upto] && forall|j: int|
            0 <= j < upto ==> !closed[j]);
    }
}

/// The position of the first `true` in `closed`.
pub fn first_closed_slot(closed: &Vec<bool>) -> (r: Option<usize>)
    ensures
        match r {
            Some(at) => first_closed(closed@) == Some(at as int),
            None => first_closed(closed@) is None,
        },
        r matches Some(at) ==> at < closed@.len() && closed@[at as int] && forall|j: int|
            0 <= j < at ==> !closed@[j],
        r is None ==> forall|j: int| 0 <= j < closed@.len() ==> !closed@[j],
{
    let mut i: usize = 0;
    while i < closed.len()
        invariant
            i <= closed@.len(),
            forall|j: int| 0 <= j < i ==> !closed@[j],
        decreases closed@.len() - i,
    {
        if closed[i] {
            proof {
                let c = choose|k: int|
                    0 <= k < closed@.len() && closed@[k] && forall|j: int| 0 <= j < k ==> !closed@[j];
                assert(0 <= i < closed@.len() && closed@[i as int] && forall|j: int|
                    0 <= j < i ==> !closed@[j]);
                assert(c == i) by {
                    if c < i {
                        assert(!closed@[c]);
                    }
                    if i < c {
                        assert(!closed@[i as int]);
                    }
                }
            }
            return Some(i);
        }
        i += 1;
    }
    None
}

} // verus!
