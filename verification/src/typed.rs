//! The typed facade: one slot array bound to one payload type.

use vstd::prelude::*;
use vstd::pervasive::unreached;
use crate::arena::TickArena;
use crate::model::QueueModel;
use crate::raw::RawQueue;
use crate::record::{QueueError, TypeTag, TypedBumpPtr};

verus! {

/// A queue of events of type `T` for one tick. Each pushed event is copied
/// into the arena and a record tagged with the payload type's identity is
/// put in the slot array; a drain reads the events back through the
/// records. The slot array is private to the facade, so no record of
/// another type can ever be in it.
pub struct EventQueue<T> {
    queue: RawQueue,
    arena: TickArena<T>,
    tag: TypeTag,
}

impl<T: Copy> EventQueue<T> {
    /// Every record carries this facade's tag and an address that the arena
    /// handed out since its last reset.
    pub closed spec fn wf(&self) -> bool {
        &&& self.queue@.wf()
        &&& forall|i: int|
            0 <= i < self.queue@.items.len() ==> {
                &&& (#[trigger] self.queue@.items[i]).tag() == self.tag
                &&& self.queue@.items[i].address() < self.arena@.len()
            }
    }

    /// The capacity and the queued events, oldest first.
    pub closed spec fn view(&self) -> QueueModel<T> {
        QueueModel {
            capacity: self.queue@.capacity,
            items: Seq::new(
                self.queue@.items.len(),
                |i: int| self.arena@[self.queue@.items[i].address() as int],
            ),
        }
    }

    /// The identity of the payload type this facade is bound to.
    pub closed spec fn type_tag(&self) -> TypeTag {
        self.tag
    }

    /// How much of the tick's arena this facade has used: one allocation
    /// per push, accepted or not.
    pub closed spec fn arena_used(&self) -> nat {
        self.arena@.len()
    }

    /// A facade for the payload type identified by `tag`, with `capacity`
    /// free slots.
    pub fn new(tag: TypeTag, capacity: usize) -> (q: Self)
        ensures
            q.wf(),
            q@ == QueueModel::<T>::empty(capacity as nat),
            q.type_tag() == tag,
            q.arena_used() == 0,
    {
        let q = Self { queue: RawQueue::new(capacity), arena: TickArena::new(), tag };
        assert(q@.items =~= Seq::<T>::empty());
        q
    }

    /// The identity of the payload type this facade is bound to.
    pub fn tag(&self) -> (tag: TypeTag)
        ensures
            tag == self.type_tag(),
    {
        self.tag
    }

    /// How many events fit.
    pub fn capacity(&self) -> (n: usize)
        ensures
            n == self@.capacity,
    {
        self.queue.capacity()
    }

    /// How many events are queued.
    pub fn len(&self) -> (n: usize)
        ensures
            n == self@.items.len(),
    {
        self.queue.len()
    }

    /// Copies `event` into the arena and queues a record of it. With no
    /// slot free the event is dropped and the queue is as before; the
    /// arena space it took stays used until the next reset.
    pub fn push(&mut self, event: T) -> (r: Result<(), QueueError>)
        requires
            old(self).wf(),
        ensures
            final(self).wf(),
            final(self)@ == old(self)@.push(event),
            final(self)@.wf(),
            old(self)@.has_room() ==> r == Ok::<(), QueueError>(()),
            !old(self)@.has_room() ==> r == Err::<(), QueueError>(QueueError::QueueFull),
            final(self).type_tag() == old(self).type_tag(),
            final(self).arena_used() == old(self).arena_used() + 1,
    {
        let address = self.arena.allocate(event);
        let r = self.queue.push(TypedBumpPtr::new(self.tag, address));
        assert(self@.items =~= old(self)@.push(event).items);
        r
    }

    /// The queued events, oldest first, each read back through its record
    /// after the record's tag is checked. Nothing is removed.
    pub fn drain(&self) -> (events: Vec<T>)
        requires
            self.wf(),
        ensures
            events@ == self@.drain(),
    {
        let records = self.queue.iter();
        let mut events: Vec<T> = Vec::with_capacity(records.len());
        let mut i: usize = 0;
        while i < records.len()
            invariant
                self.wf(),
                records@ == self.queue@.items,
                i <= records.len(),
                events@ == self@.items.take(i as int),
            decreases records.len() - i,
        {
            let event = match records[i].resolve(self.tag) {
                Ok(address) => match self.arena.read(address) {
                    Some(event) => event,
                    None => unreached(),
                },
                Err(_) => unreached(),
            };
            events.push(event);
            i += 1;
            assert(self@.items.take(i as int) =~= self@.items.take(i - 1).push(
                self@.items[i - 1],
            ));
        }
        assert(self@.items.take(i as int) =~= self@.items);
        events
    }

    /// Ends the tick: frees every slot, then the arena. No record outlives
    /// the memory it points to.
    pub fn reset(&mut self)
        requires
            old(self).wf(),
        ensures
            final(self).wf(),
            final(self)@ == old(self)@.reset(),
            final(self).type_tag() == old(self).type_tag(),
            final(self).arena_used() == 0,
    {
        self.queue.reset();
        self.arena.reset();
        assert(self@.items =~= Seq::<T>::empty());
    }
}

} // verus!
