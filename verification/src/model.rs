//! The mathematical model of a bounded queue, shared by the slot array and
//! the typed facade, and the laws that follow from it.

use vstd::prelude::*;

verus! {

/// What a bounded queue is, abstractly: a fixed capacity and the items
/// accepted so far, oldest first.
pub struct QueueModel<T> {
    pub capacity: nat,
    pub items: Seq<T>,
}

impl<T> QueueModel<T> {
    /// Occupancy never exceeds capacity.
    pub open spec fn wf(self) -> bool {
        self.items.len() <= self.capacity
    }

    /// A queue of the given capacity with nothing in it.
    pub open spec fn empty(capacity: nat) -> Self {
        QueueModel { capacity, items: Seq::empty() }
    }

    /// Whether one more push would find a free slot.
    pub open spec fn has_room(self) -> bool {
        self.items.len() < self.capacity
    }

    /// The queue after one push: the item goes to the end if there is room,
    /// and is dropped otherwise.
    pub open spec fn push(self, item: T) -> Self {
        if self.has_room() {
            QueueModel { capacity: self.capacity, items: self.items.push(item) }
        } else {
            self
        }
    }

    /// The queue after a tick boundary: same capacity, nothing in it.
    pub open spec fn reset(self) -> Self {
        QueueModel { capacity: self.capacity, items: Seq::empty() }
    }

    /// What a drain yields: every accepted item, oldest first.
    pub open spec fn drain(self) -> Seq<T> {
        self.items
    }

    /// The queue after pushing `items` one by one, in that order.
    pub open spec fn push_all(self, items: Seq<T>) -> Self
        decreases items.len(),
    {
        if items.len() == 0 {
            self
        } else {
            self.push_all(items.drop_last()).push(items.last())
        }
    }

    /// How many of the pushes of `items`, made one by one, find a free slot.
    pub open spec fn accepted(self, items: Seq<T>) -> nat
        decreases items.len(),
    {
        if items.len() == 0 {
            0
        } else {
            let before = self.push_all(items.drop_last());
            self.accepted(items.drop_last()) + if before.has_room() {
                1nat
            } else {
                0nat
            }
        }
    }

    /// How many free slots are left.
    pub open spec fn room(self) -> nat {
        if self.items.len() <= self.capacity {
            (self.capacity - self.items.len()) as nat
        } else {
            0
        }
    }
}

/// The smaller of two naturals.
pub open spec fn least(a: nat, b: nat) -> nat {
    if a <= b {
        a
    } else {
        b
    }
}

/// Pushing a run of items keeps the capacity, accepts exactly as many as
/// there is room for, and appends those, in order, to what was there.
pub proof fn lemma_push_all<T>(m: QueueModel<T>, items: Seq<T>)
    requires
        m.wf(),
    ensures
        m.push_all(items).wf(),
        m.push_all(items).capacity == m.capacity,
        m.accepted(items) == least(items.len(), m.room()),
        m.push_all(items).items == m.items + items.take(m.accepted(items) as int),
    decreases items.len(),
{
    if items.len() == 0 {
        assert(items.take(0) =~= Seq::<T>::empty());
        assert(m.items + Seq::<T>::empty() =~= m.items);
    } else {
        let init = items.drop_last();
        lemma_push_all(m, init);
        let before = m.push_all(init);
        let k = m.accepted(init) as int;
        if before.has_room() {
            assert(k == init.len());
            assert(init.take(k) =~= init);
            assert(items.take(k + 1) =~= items);
            assert(before.items.push(items.last()) =~= m.items + items);
        } else {
            assert(init.take(k) =~= items.take(k));
        }
    }
}

/// Occupancy never exceeds capacity, whatever is pushed.
pub proof fn lemma_occupancy_bounded<T>(m: QueueModel<T>, items: Seq<T>)
    requires
        m.wf(),
    ensures
        forall|k: int|
            0 <= k <= items.len() ==> (#[trigger] m.push_all(items.take(k))).items.len()
                <= m.capacity,
{
    assert forall|k: int| 0 <= k <= items.len() implies (#[trigger] m.push_all(
        items.take(k),
    )).items.len() <= m.capacity by {
        lemma_push_all(m, items.take(k));
    }
}

/// While the pushes fit, every one of them succeeds and a drain yields
/// exactly what was pushed after what was there: nothing lost, nothing
/// twice, each pusher's own order kept.
pub proof fn lemma_pushes_that_fit_all_succeed<T>(m: QueueModel<T>, items: Seq<T>)
    requires
        m.wf(),
        m.items.len() + items.len() <= m.capacity,
    ensures
        m.accepted(items) == items.len(),
        m.push_all(items).drain() == m.items + items,
        forall|k: int|
            0 <= k < items.len() ==> (#[trigger] m.push_all(items.take(k))).has_room(),
{
    lemma_push_all(m, items);
    assert(items.take(items.len() as int) =~= items);
    assert forall|k: int| 0 <= k < items.len() implies (#[trigger] m.push_all(
        items.take(k),
    )).has_room() by {
        lemma_push_all(m, items.take(k));
    }
}

/// Of more pushes than an empty queue has slots, exactly as many succeed as
/// there are slots, the others fail, the first ones are kept, and occupancy
/// stays within capacity throughout.
pub proof fn lemma_pushes_beyond_capacity<T>(capacity: nat, items: Seq<T>)
    requires
        items.len() > capacity,
    ensures
        QueueModel::<T>::empty(capacity).accepted(items) == capacity,
        items.len() - QueueModel::<T>::empty(capacity).accepted(items) == items.len() - capacity,
        QueueModel::<T>::empty(capacity).push_all(items).drain() == items.take(capacity as int),
        forall|k: int|
            0 <= k <= items.len() ==> (#[trigger] QueueModel::<T>::empty(capacity).push_all(
                items.take(k),
            )).items.len() <= capacity,
        forall|k: int|
            capacity <= k <= items.len() ==> !(#[trigger] QueueModel::<T>::empty(capacity).push_all(
                items.take(k),
            )).has_room(),
{
    let m = QueueModel::<T>::empty(capacity);
    lemma_push_all(m, items);
    assert(m.items + items.take(capacity as int) =~= items.take(capacity as int));
    lemma_occupancy_bounded(m, items);
    assert forall|k: int| capacity <= k <= items.len() implies !(#[trigger] m.push_all(
        items.take(k),
    )).has_room() by {
        lemma_push_all(m, items.take(k));
    }
}

/// A drain right after a reset yields nothing.
pub proof fn lemma_reset_then_drain_is_empty<T>(m: QueueModel<T>)
    ensures
        m.reset().drain() == Seq::<T>::empty(),
        m.reset().wf(),
        m.reset().capacity == m.capacity,
{
}

/// After a reset the whole capacity is free again: a round of pushes that
/// fits the capacity succeeds in full, whatever the queue held before.
pub proof fn lemma_reset_allows_full_reuse<T>(m: QueueModel<T>, items: Seq<T>)
    requires
        items.len() <= m.capacity,
    ensures
        m.reset().accepted(items) == items.len(),
        m.reset().push_all(items).drain() == items,
{
    lemma_pushes_that_fit_all_succeed(m.reset(), items);
    assert(Seq::<T>::empty() + items =~= items);
}

/// An accepted item comes back from a drain unchanged, after everything
/// that was accepted before it.
pub proof fn lemma_round_trip<T>(m: QueueModel<T>, item: T)
    requires
        m.has_room(),
    ensures
        m.push(item).drain().len() == m.drain().len() + 1,
        m.push(item).drain().last() == item,
        m.push(item).drain().drop_last() == m.drain(),
{
    assert(m.items.push(item).drop_last() =~= m.items);
}

} // verus!
