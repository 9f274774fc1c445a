//! Checked handles for values that cross the thread boundary.
//!
//! A value that has to travel through a foreign message queue is parked in a
//! [`BoxHeap`] and travels as the plain number of its slot. The heap hands a
//! parked value out once: the second request for the same number finds
//! nothing.

use core::marker::PhantomData;
use vstd::prelude::*;

verus! {

/// Handle to a value parked in a [`BoxHeap`], tagged with the type that the
/// holder believes the value to have.
pub struct UnsafeBox<T> {
    raw: usize,
    marker: PhantomData<T>,
}

impl<T> UnsafeBox<T> {
    /// The number under which the value is parked.
    pub closed spec fn addr(&self) -> usize {
        self.raw
    }

    /// Rebuilds a handle from the number that travelled through the queue.
    pub fn from_raw(raw: usize) -> (r: Self)
        ensures
            r.addr() == raw,
    {
        UnsafeBox { raw, marker: PhantomData }
    }

    /// Gives the handle up for the number that travels through the queue.
    pub fn into_raw(self) -> (r: usize)
        ensures
            r == self.addr(),
    {
        self.raw
    }

    /// Retags the handle; the parked value is not touched.
    pub fn cast<U>(self) -> (r: UnsafeBox<U>)
        ensures
            r.addr() == self.addr(),
    {
        UnsafeBox { raw: self.raw, marker: PhantomData }
    }

    /// The number under which the value is parked.
    pub fn as_raw(&self) -> (r: usize)
        ensures
            r == self.addr(),
    {
        self.raw
    }

    /// Parks `rhs` in `heap` under a number that the heap has never used.
    pub fn pack(heap: &mut BoxHeap<T>, rhs: T) -> (r: Self)
        requires
            old(heap).wf(),
            old(heap).issued() < usize::MAX,
        ensures
            final(heap).wf(),
            r.addr() == old(heap).issued(),
            !old(heap)@.contains_key(r.addr()),
            final(heap)@ == old(heap)@.insert(r.addr(), rhs),
            final(heap).issued() == old(heap).issued() + 1,
            final(heap).released() == old(heap).released(),
    {
        let raw = heap.park(rhs);
        UnsafeBox { raw, marker: PhantomData }
    }

    /// Takes the parked value out of `heap`. The handle is used up and the
    /// number is never parked under again.
    pub fn unpack(self, heap: &mut BoxHeap<T>) -> (r: T)
        requires
            old(heap).wf(),
            old(heap)@.contains_key(self.addr()),
        ensures
            final(heap).wf(),
            r == old(heap)@[self.addr()],
            final(heap)@ == old(heap)@.remove(self.addr()),
            final(heap).issued() == old(heap).issued(),
            final(heap).released() == old(heap).released() + 1,
    {
        match heap.release(self.raw) {
            Some(value) => value,
            None => {
                proof {
                    assert(false);
                }
                vstd::pervasive::unreached()
            },
        }
    }

    /// Takes the parked value out of `heap` if it is still there: `None` says
    /// that somebody took it before, and changes nothing.
    pub fn take(self, heap: &mut BoxHeap<T>) -> (r: Option<T>)
        requires
            old(heap).wf(),
        ensures
            final(heap).wf(),
            final(heap).issued() == old(heap).issued(),
            match r {
                Some(value) => {
                    &&& old(heap)@.contains_key(self.addr())
                    &&& value == old(heap)@[self.addr()]
                    &&& final(heap)@ == old(heap)@.remove(self.addr())
                    &&& final(heap).released() == old(heap).released() + 1
                },
                None => {
                    &&& !old(heap)@.contains_key(self.addr())
                    &&& final(heap)@ == old(heap)@
                    &&& final(heap).released() == old(heap).released()
                },
            },
    {
        heap.release(self.raw)
    }
}

/// Handle to an object that lives on the owner thread. It may be carried
/// to any thread; only the owner thread may turn it back into the object,
/// and only after it has seen that the object is alive.
pub struct UnsafePointer<T> {
    raw: usize,
    marker: PhantomData<T>,
}

impl<T> UnsafePointer<T> {
    /// The number that stands for the object.
    pub closed spec fn addr(&self) -> usize {
        self.raw
    }

    /// A handle for the object known to the owner thread as `raw`.
    pub fn from_raw(raw: usize) -> (r: Self)
        ensures
            r.addr() == raw,
    {
        UnsafePointer { raw, marker: PhantomData }
    }

    /// Gives the handle up for the object's number.
    pub fn into_raw(self) -> (r: usize)
        ensures
            r == self.addr(),
    {
        self.raw
    }

    /// Retags the handle.
    pub fn cast<U>(self) -> (r: UnsafePointer<U>)
        ensures
            r.addr() == self.addr(),
    {
        UnsafePointer { raw: self.raw, marker: PhantomData }
    }

    /// The object's number.
    pub fn as_raw(&self) -> (r: usize)
        ensures
            r == self.addr(),
    {
        self.raw
    }
}

impl<T> Clone for UnsafePointer<T> {
    /// A second handle to the same object.
    fn clone(&self) -> (r: Self)
        ensures
            r.addr() == self.addr(),
    {
        UnsafePointer { raw: self.raw, marker: PhantomData }
    }
}

/// Where values wait while their handles travel. Every value gets a number
/// of its own, numbers are handed out in rising order and never twice, and a
/// value leaves the heap at most once.
pub struct BoxHeap<T> {
    next: usize,
    slots: Vec<(usize, T)>,
    gone: Ghost<nat>,
}

impl<T> View for BoxHeap<T> {
    type V = Map<usize, T>;

    /// The parked values by number.
    closed spec fn view(&self) -> Map<usize, T> {
        Map::new(
            |k: usize| exists|i: int| 0 <= i < self.slots@.len() && self.slots@[i].0 == k,
            |k: usize| self.slots@[self.index_of(k)].1,
        )
    }
}

impl<T> BoxHeap<T> {
    /// Some position at which `k` is parked, if it is parked.
    closed spec fn index_of(&self, k: usize) -> int {
        choose|i: int| 0 <= i < self.slots@.len() && self.slots@[i].0 == k
    }

    /// No number is parked twice, and every parked number was issued. The
    /// values that left and those that wait add up to those that came.
    pub closed spec fn wf(&self) -> bool {
        &&& forall|i: int, j: int|
            0 <= i < j < self.slots@.len() ==> self.slots@[i].0 != self.slots@[j].0
        &&& forall|i: int| 0 <= i < self.slots@.len() ==> self.slots@[i].0 < self.next
        &&& self.gone@ + self.slots@.len() == self.next
    }

    /// How many values have been parked so far; also the next number.
    pub closed spec fn issued(&self) -> nat {
        self.next as nat
    }

    /// How many values have been taken out so far.
    pub closed spec fn released(&self) -> nat {
        self.gone@
    }

    /// An empty heap.
    pub fn new() -> (r: Self)
        ensures
            r.wf(),
            r@ == Map::<usize, T>::empty(),
            r.issued() == 0,
            r.released() == 0,
    {
        let r = BoxHeap { next: 0, slots: Vec::new(), gone: Ghost(0) };
        assert(r@ =~= Map::<usize, T>::empty());
        r
    }

    /// How many values wait.
    pub fn len(&self) -> (r: usize)
        requires
            self.wf(),
        ensures
            r == self@.len(),
            r == self.issued() - self.released(),
            self@.dom().finite(),
    {
        proof {
            self.lemma_count();
        }
        self.slots.len()
    }

    /// Whether a value waits under `raw`.
    pub fn contains(&self, raw: usize) -> (r: bool)
        requires
            self.wf(),
        ensures
            r == self@.contains_key(raw),
    {
        self.position(raw).is_some()
    }

    /// Whether the numbers are used up, so that nothing more can be parked.
    pub fn is_exhausted(&self) -> (r: bool)
        ensures
            r == (self.issued() == usize::MAX),
    {
        self.next == usize::MAX
    }

    /// Nothing is lost and nothing is handed out twice: every number issued
    /// so far is either still parked or was taken out, and the counts agree.
    pub proof fn lemma_conservation(&self)
        requires
            self.wf(),
        ensures
            self@.dom().finite(),
            self.released() + self@.len() == self.issued(),
            forall|k: usize| self@.contains_key(k) ==> k < self.issued(),
    {
        self.lemma_count();
    }

    proof fn lemma_count(&self)
        requires
            self.wf(),
        ensures
            self@.dom().finite(),
            self@.len() == self.slots@.len(),
    {
        let keys = self.slots@.map_values(|p: (usize, T)| p.0);
        assert(keys.no_duplicates());
        keys.unique_seq_to_set();
        assert(keys.to_set() =~= self@.dom()) by {
            assert forall|k: usize| keys.to_set().contains(k) <==> self@.dom().contains(k) by {
                if keys.to_set().contains(k) {
                    let i = choose|i: int| 0 <= i < keys.len() && keys[i] == k;
                    assert(self.slots@[i].0 == k);
                }
                if self@.dom().contains(k) {
                    let i = self.index_of(k);
                    assert(keys[i] == k);
                }
            }
        }
    }

    fn position(&self, raw: usize) -> (r: Option<usize>)
        requires
            self.wf(),
        ensures
            match r {
                Some(i) => i < self.slots@.len() && self.slots@[i as int].0 == raw,
                None => forall|i: int| 0 <= i < self.slots@.len() ==> self.slots@[i].0 != raw,
            },
            r is Some == self@.contains_key(raw),
    {
        let mut i: usize = 0;
        while i < self.slots.len()
            invariant
                i <= self.slots@.len(),
                forall|j: int| 0 <= j < i ==> self.slots@[j].0 != raw,
            decreases self.slots@.len() - i,
        {
            if self.slots[i].0 == raw {
                return Some(i);
            }
            i += 1;
        }
        None
    }

    fn park(&mut self, value: T) -> (raw: usize)
        requires
            old(self).wf(),
            old(self).issued() < usize::MAX,
        ensures
            final(self).wf(),
            raw == old(self).issued(),
            !old(self)@.contains_key(raw),
            final(self)@ == old(self)@.insert(raw, value),
            final(self).issued() == old(self).issued() + 1,
            final(self).released() == old(self).released(),
    {
        let raw = self.next;
        self.slots.push((raw, value));
        self.next = raw + 1;
        proof {
            let n = old(self).slots@.len() as int;
            assert(self.slots@[n].0 == raw);
            assert forall|k: usize| self@.contains_key(k) <==> old(self)@.insert(
                raw,
                value,
            ).contains_key(k) by {
                if old(self)@.contains_key(k) {
                    let i = old(self).index_of(k);
                    assert(self.slots@[i].0 == k);
                }
            }
            assert forall|k: usize| self@.contains_key(k) implies self@[k] == old(self)@.insert(
                raw,
                value,
            )[k] by {
                let i = self.index_of(k);
                if k != raw {
                    let j = old(self).index_of(k);
                    assert(old(self).slots@[j].0 == k);
                    assert(self.slots@[j].0 == k);
                    assert(i == j);
                } else {
                    assert(i == n);
                }
            }
            assert(self@ =~= old(self)@.insert(raw, value));
        }
        raw
    }

    fn release(&mut self, raw: usize) -> (r: Option<T>)
        requires
            old(self).wf(),
        ensures
            final(self).wf(),
            final(self).issued() == old(self).issued(),
            match r {
                Some(value) => {
                    &&& old(self)@.contains_key(raw)
                    &&& value == old(self)@[raw]
                    &&& final(self)@ == old(self)@.remove(raw)
                    &&& final(self).released() == old(self).released() + 1
                },
                None => {
                    &&& !old(self)@.contains_key(raw)
                    &&& final(self)@ == old(self)@
                    &&& final(self).released() == old(self).released()
                },
            },
    {
        match self.position(raw) {
            None => None,
            Some(at) => {
                let entry = self.slots.remove(at);
                self.gone = Ghost((self.gone@ + 1) as nat);
                proof {
                    let a = at as int;
                    let before = old(self).slots@;
                    assert(old(self).index_of(raw) == a);
                    assert forall|k: usize| self@.contains_key(k) <==> old(self)@.remove(
                        raw,
                    ).contains_key(k) by {
                        if self@.contains_key(k) {
                            let i = self.index_of(k);
                            if i < a {
                                assert(before[i].0 == k);
                            } else {
                                assert(before[i + 1].0 == k);
                            }
                        }
                        if old(self)@.contains_key(k) && k != raw {
                            let i = old(self).index_of(k);
                            if i < a {
                                assert(self.slots@[i].0 == k);
                            } else {
                                assert(self.slots@[i - 1].0 == k);
                            }
                        }
                    }
                    assert forall|k: usize| self@.contains_key(k) implies self@[k] == old(
                        self,
                    )@.remove(raw)[k] by {
                        let i = self.index_of(k);
                        let j = old(self).index_of(k);
                        if i < a {
                            assert(before[i].0 == k);
                            assert(i == j);
                        } else {
                            assert(before[i + 1].0 == k);
                            assert(i + 1 == j);
                        }
                    }
                    assert(self@ =~= old(self)@.remove(raw));
                }
                Some(entry.1)
            },
        }
    }
}

} // verus!
