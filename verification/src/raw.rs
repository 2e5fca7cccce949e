//! The slot array: a fixed number of slots for tagged records and a count
//! of how many are taken.

use vstd::prelude::*;
use crate::model::QueueModel;
use crate::record::{QueueError, TypedBumpPtr};

verus! {

/// A fixed-capacity sequence of tagged records. A slot is `None` until a
/// push first writes it; a reset only winds the count back and leaves the
/// slots as they are.
pub struct RawQueue {
    elems: Vec<Option<TypedBumpPtr>>,
    len: usize,
}

impl RawQueue {
    /// The count stays within the array, and every slot below it has been
    /// written.
    #[verifier::type_invariant]
    spec fn inv(self) -> bool {
        &&& self.len <= self.elems.len()
        &&& forall|i: int| 0 <= i < self.len ==> (#[trigger] self.elems[i]).is_some()
    }

    /// The capacity and the records in the taken slots, oldest first.
    pub closed spec fn view(&self) -> QueueModel<TypedBumpPtr> {
        QueueModel {
            capacity: self.elems.len() as nat,
            items: Seq::new(self.len as nat, |i: int| self.elems[i].unwrap()),
        }
    }

    /// A queue with `size` free slots.
    pub fn new(size: usize) -> (q: Self)
        ensures
            q@ == QueueModel::<TypedBumpPtr>::empty(size as nat),
    {
        let mut elems: Vec<Option<TypedBumpPtr>> = Vec::with_capacity(size);
        let mut i: usize = 0;
        while i < size
            invariant
                i <= size,
                elems.len() == i,
            decreases size - i,
        {
            elems.push(None);
            i += 1;
        }
        let q = Self { elems, len: 0 };
        assert(q@.items =~= Seq::<TypedBumpPtr>::empty());
        q
    }

    /// How many records fit.
    pub fn capacity(&self) -> (n: usize)
        ensures
            n == self@.capacity,
    {
        self.elems.len()
    }

    /// How many slots are taken.
    pub fn len(&self) -> (n: usize)
        ensures
            n == self@.items.len(),
            n <= self@.capacity,
    {
        proof {
            use_type_invariant(self);
        }
        self.len
    }

    /// Takes the next free slot for `elem`. With no slot free the queue is
    /// left exactly as it was and the record is dropped.
    pub fn push(&mut self, elem: TypedBumpPtr) -> (r: Result<(), QueueError>)
        ensures
            final(self)@ == old(self)@.push(elem),
            final(self)@.wf(),
            old(self)@.has_room() ==> r == Ok::<(), QueueError>(()),
            !old(self)@.has_room() ==> r == Err::<(), QueueError>(QueueError::QueueFull),
    {
        proof {
            use_type_invariant(&*self);
        }
        let slot = self.len;
        if slot >= self.elems.len() {
            return Err(QueueError::QueueFull);
        }
        self.elems[slot] = Some(elem);
        self.len = slot + 1;
        assert(self@.items =~= old(self)@.items.push(elem));
        Ok(())
    }

    /// The records in the taken slots, oldest first. Nothing is removed.
    pub fn iter(&self) -> (records: Vec<TypedBumpPtr>)
        ensures
            records@ == self@.drain(),
            self@.wf(),
    {
        proof {
            use_type_invariant(self);
        }
        let mut records: Vec<TypedBumpPtr> = Vec::with_capacity(self.len);
        let mut i: usize = 0;
        while i < self.len
            invariant
                i <= self.len,
                self.len <= self.elems.len(),
                forall|j: int| 0 <= j < self.len ==> (#[trigger] self.elems[j]).is_some(),
                records@ == self@.items.take(i as int),
            decreases self.len - i,
        {
            if let Some(record) = self.elems[i] {
                records.push(record);
            }
            i += 1;
            assert(self@.items.take(i as int) =~= self@.items.take(i - 1).push(
                self@.items[i - 1],
            ));
        }
        assert(self@.items.take(i as int) =~= self@.items);
        records
    }

    /// Frees every slot. The records themselves are not touched: the queue
    /// never owned what they point to.
    pub fn reset(&mut self)
        ensures
            final(self)@ == old(self)@.reset(),
            final(self)@.wf(),
    {
        self.len = 0;
        assert(self@.items =~= Seq::<TypedBumpPtr>::empty());
    }
}

} // verus!
