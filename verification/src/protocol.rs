//! The reserve-then-write protocol by which many pushers share one slot
//! array, as a transition system over every interleaving of their steps,
//! and the one decision that a pusher makes in it.

use vstd::prelude::*;
use crate::model::{least, QueueModel};

verus! {

/// What the shared state of a slot array amounts to while pushers are at
/// work on it.
pub struct Protocol<T> {
    /// How many slots there are.
    pub capacity: nat,
    /// The occupancy counter, as the next fetch-and-increment would see it.
    pub counter: nat,
    /// How many pushers were handed a slot since the last reset.
    pub claimed: nat,
    /// How many pushers hold a ticket beyond the last slot and have not
    /// yet taken their increment back.
    pub retreating: nat,
    /// The slots written since the last reset, each with its record.
    pub written: Map<nat, T>,
}

/// One atomic step of one pusher.
pub enum Step<T> {
    /// Fetch-and-increment of the counter: the value fetched is the
    /// pusher's ticket.
    Reserve,
    /// The holder of a slot writes its record there.
    Write(nat, T),
    /// The holder of a ticket beyond the last slot decrements the counter.
    RollBack,
}

impl<T> Protocol<T> {
    /// The state between ticks: nothing reserved, nothing written.
    pub open spec fn idle(capacity: nat) -> Self {
        Protocol { capacity, counter: 0, claimed: 0, retreating: 0, written: Map::empty() }
    }

    /// What holds in every state that pushers can bring about: the counter
    /// counts the slots handed out and the failed pushers that have yet to
    /// retreat; no more slots are handed out than there are; nobody fails
    /// while a slot is free; and only slots handed out are written.
    pub open spec fn inv(self) -> bool {
        &&& self.counter == self.claimed + self.retreating
        &&& self.claimed <= self.capacity
        &&& self.retreating > 0 ==> self.claimed == self.capacity
        &&& forall|slot: nat| self.written.contains_key(slot) ==> slot < self.claimed
    }

    /// The ticket that a pusher reserving now would get.
    pub open spec fn ticket(self) -> nat {
        self.counter
    }

    /// Whether a pusher reserving now would get a slot.
    pub open spec fn wins(self) -> bool {
        self.ticket() < self.capacity
    }

    /// Whether some pusher can take the step now. A slot is written once,
    /// by the pusher it was handed to.
    pub open spec fn enabled(self, step: Step<T>) -> bool {
        match step {
            Step::Reserve => true,
            Step::Write(slot, _) => slot < self.claimed && !self.written.contains_key(slot),
            Step::RollBack => self.retreating > 0,
        }
    }

    /// The state after the step.
    pub open spec fn next(self, step: Step<T>) -> Self {
        match step {
            Step::Reserve => if self.wins() {
                Protocol {
                    counter: self.counter + 1,
                    claimed: self.claimed + 1,
                    ..self
                }
            } else {
                Protocol {
                    counter: self.counter + 1,
                    retreating: self.retreating + 1,
                    ..self
                }
            },
            Step::Write(slot, record) => Protocol {
                written: self.written.insert(slot, record),
                ..self
            },
            Step::RollBack => Protocol {
                counter: (self.counter - 1) as nat,
                retreating: (self.retreating - 1) as nat,
                ..self
            },
        }
    }

    /// The state after the steps, taken in order.
    pub open spec fn run(self, steps: Seq<Step<T>>) -> Self
        decreases steps.len(),
    {
        if steps.len() == 0 {
            self
        } else {
            self.run(steps.drop_last()).next(steps.last())
        }
    }

    /// Whether each of the steps can be taken when its turn comes.
    pub open spec fn admits(self, steps: Seq<Step<T>>) -> bool
        decreases steps.len(),
    {
        steps.len() == 0 || (self.admits(steps.drop_last()) && self.run(
            steps.drop_last(),
        ).enabled(steps.last()))
    }

    /// Whether every pusher has finished: each slot handed out is written
    /// and each failed pusher has retreated. This is what the barrier
    /// before a drain waits for.
    pub open spec fn quiescent(self) -> bool {
        &&& self.retreating == 0
        &&& forall|slot: nat| slot < self.claimed ==> self.written.contains_key(slot)
    }

    /// The state after a reset.
    pub open spec fn reset(self) -> Self {
        Self::idle(self.capacity)
    }
}

/// How many of the steps are reservations, that is, how many pushes were
/// begun.
pub open spec fn reserves<T>(steps: Seq<Step<T>>) -> nat
    decreases steps.len(),
{
    if steps.len() == 0 {
        0
    } else {
        reserves(steps.drop_last()) + if steps.last() is Reserve {
            1nat
        } else {
            0nat
        }
    }
}

/// What a pusher does with its ticket.
#[derive(Debug, Copy, Clone, PartialEq, Eq, Structural)]
pub enum Claim {
    /// The slot is the pusher's alone: write the record there.
    Slot(usize),
    /// There is no such slot: take the increment back and report the queue
    /// full.
    RollBack,
}

/// Decides what the holder of `ticket` does: the ticket is a slot if it
/// lies within the array, and is given back otherwise.
pub fn claim(ticket: usize, capacity: usize) -> (r: Claim)
    ensures
        ticket < capacity ==> r == Claim::Slot(ticket),
        ticket >= capacity ==> r == Claim::RollBack,
{
    if ticket < capacity {
        Claim::Slot(ticket)
    } else {
        Claim::RollBack
    }
}

/// No step breaks the invariant, changes the capacity or takes a slot
/// back.
pub proof fn lemma_step<T>(s: Protocol<T>, step: Step<T>)
    requires
        s.inv(),
        s.enabled(step),
    ensures
        s.next(step).inv(),
        s.next(step).capacity == s.capacity,
        s.next(step).claimed >= s.claimed,
{
}

/// No interleaving of steps breaks the invariant, changes the capacity or
/// takes a slot back.
pub proof fn lemma_run<T>(s: Protocol<T>, steps: Seq<Step<T>>)
    requires
        s.inv(),
        s.admits(steps),
    ensures
        s.run(steps).inv(),
        s.run(steps).capacity == s.capacity,
        s.run(steps).claimed >= s.claimed,
    decreases steps.len(),
{
    if steps.len() > 0 {
        lemma_run(s, steps.drop_last());
        lemma_step(s.run(steps.drop_last()), steps.last());
    }
}

/// A winning ticket is the number of slots handed out before it: the slot
/// is within the array, nobody has written it, and with it one more slot
/// is handed out.
pub proof fn lemma_winning_ticket_is_fresh<T>(s: Protocol<T>, record: T)
    requires
        s.inv(),
        s.wins(),
    ensures
        s.ticket() == s.claimed,
        s.ticket() < s.capacity,
        !s.written.contains_key(s.ticket()),
        s.next(Step::Reserve).claimed == s.ticket() + 1,
        s.next(Step::Reserve).enabled(Step::Write(s.ticket(), record)),
{
}

/// No two pushers are ever handed the same slot: whatever happens between
/// two winning reservations, the later ticket is the greater. So the pushes
/// of one pusher, made one after the other, are drained in the order in
/// which they were made.
pub proof fn lemma_winning_tickets_differ<T>(s: Protocol<T>, between: Seq<Step<T>>)
    requires
        s.inv(),
        s.wins(),
        s.next(Step::Reserve).admits(between),
        s.next(Step::Reserve).run(between).wins(),
    ensures
        s.ticket() < s.next(Step::Reserve).run(between).ticket(),
{
    lemma_step(s, Step::Reserve);
    lemma_run(s.next(Step::Reserve), between);
}

/// A losing ticket leaves no trace: once its holder has retreated, the
/// counter is what it was, however many others fail in between.
pub proof fn lemma_failed_push_leaves_no_trace<T>(s: Protocol<T>)
    requires
        s.inv(),
        !s.wins(),
    ensures
        s.next(Step::Reserve).enabled(Step::RollBack),
        s.next(Step::Reserve).next(Step::RollBack) == s,
        s.next(Step::Reserve).claimed == s.claimed,
{
}

/// A record, once written, is there for the rest of the tick: no other
/// pusher writes over it, whatever the interleaving. Nothing is lost.
pub proof fn lemma_written_record_stays<T>(s: Protocol<T>, steps: Seq<Step<T>>, slot: nat)
    requires
        s.inv(),
        s.admits(steps),
        s.written.contains_key(slot),
    ensures
        s.run(steps).written.contains_key(slot),
        s.run(steps).written[slot] == s.written[slot],
    decreases steps.len(),
{
    if steps.len() > 0 {
        lemma_written_record_stays(s, steps.drop_last(), slot);
    }
}

/// Counted from a reset, the slots handed out are as many as the pushes
/// begun, up to the capacity, in every interleaving; the pushers that
/// failed are the rest, and those still retreating are among them.
pub proof fn lemma_slots_handed_out<T>(capacity: nat, steps: Seq<Step<T>>)
    requires
        Protocol::<T>::idle(capacity).admits(steps),
    ensures
        Protocol::<T>::idle(capacity).run(steps).inv(),
        Protocol::<T>::idle(capacity).run(steps).capacity == capacity,
        Protocol::<T>::idle(capacity).run(steps).claimed == least(reserves(steps), capacity),
        Protocol::<T>::idle(capacity).run(steps).retreating <= reserves(steps) - least(
            reserves(steps),
            capacity,
        ),
    decreases steps.len(),
{
    if steps.len() > 0 {
        lemma_slots_handed_out(capacity, steps.drop_last());
        lemma_step(Protocol::<T>::idle(capacity).run(steps.drop_last()), steps.last());
    }
}

/// Once every pusher has finished, the counter is the number of pushes
/// that succeeded, which is the number begun or the capacity, whichever is
/// less; it does not exceed the capacity; and exactly the slots below it
/// hold a record written in this tick. A drain after the barrier reads
/// written slots only.
pub proof fn lemma_after_the_barrier<T>(capacity: nat, steps: Seq<Step<T>>)
    requires
        Protocol::<T>::idle(capacity).admits(steps),
        Protocol::<T>::idle(capacity).run(steps).quiescent(),
    ensures
        Protocol::<T>::idle(capacity).run(steps).counter == least(reserves(steps), capacity),
        Protocol::<T>::idle(capacity).run(steps).counter <= capacity,
        forall|slot: nat|
            slot < Protocol::<T>::idle(capacity).run(steps).counter <==> Protocol::<T>::idle(
                capacity,
            ).run(steps).written.contains_key(slot),
{
    lemma_slots_handed_out(capacity, steps);
}

/// A push that no other pusher interrupts is one push of the queue model:
/// it finds room exactly when the model does, ends with every pusher
/// finished, and leaves the counter at the model's occupancy.
pub proof fn lemma_uninterrupted_push<T>(s: Protocol<T>, m: QueueModel<T>, item: T)
    requires
        s.inv(),
        s.quiescent(),
        m.capacity == s.capacity,
        m.items.len() == s.counter,
    ensures
        s.wins() == m.has_room(),
        s.wins() ==> {
            let after = s.next(Step::Reserve).next(Step::Write(s.ticket(), item));
            &&& after.inv()
            &&& after.quiescent()
            &&& after.counter == m.push(item).items.len()
            &&& after.written[s.ticket()] == m.push(item).items.last()
        },
        !s.wins() ==> s.next(Step::Reserve).next(Step::RollBack) == s && m.push(item) == m,
{
}

/// A reset, made after the barrier, gives back the idle state, from which
/// all of the above holds anew.
pub proof fn lemma_reset_is_idle<T>(s: Protocol<T>)
    ensures
        s.reset() == Protocol::<T>::idle(s.capacity),
        s.reset().inv(),
        s.reset().quiescent(),
{
}

} // verus!
