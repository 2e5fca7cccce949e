//! The tick-scoped bump arena that payloads are copied into.

use vstd::prelude::*;

verus! {

/// A bump arena for payloads of one type. An allocation hands back the
/// address of the copy; addresses stay valid until the next reset, which
/// frees everything at once.
pub struct TickArena<T> {
    cells: Vec<T>,
}

impl<T: Copy> TickArena<T> {
    /// The payloads allocated since the last reset, by address.
    pub closed spec fn view(&self) -> Seq<T> {
        self.cells@
    }

    /// An arena with nothing allocated.
    pub fn new() -> (arena: Self)
        ensures
            arena@ == Seq::<T>::empty(),
    {
        Self { cells: Vec::new() }
    }

    /// How many payloads were allocated since the last reset.
    pub fn allocated(&self) -> (n: usize)
        ensures
            n == self@.len(),
    {
        self.cells.len()
    }

    /// Copies `value` into the arena and returns its address, which is the
    /// next one after those already handed out.
    pub fn allocate(&mut self, value: T) -> (address: usize)
        ensures
            address == old(self)@.len(),
            final(self)@ == old(self)@.push(value),
    {
        let address = self.cells.len();
        self.cells.push(value);
        address
    }

    /// The payload at `address`, if that address was handed out since the
    /// last reset.
    pub fn read(&self, address: usize) -> (value: Option<T>)
        ensures
            address < self@.len() ==> value == Some(self@[address as int]),
            address >= self@.len() ==> value.is_none(),
    {
        if address < self.cells.len() {
            Some(self.cells[address])
        } else {
            None
        }
    }

    /// Frees every allocation: no address handed out before is valid after.
    pub fn reset(&mut self)
        ensures
            final(self)@ == Seq::<T>::empty(),
    {
        self.cells.clear();
    }
}

} // verus!
