use vstd::prelude::*;
use polars::prelude::{DataFrame, LazyFrame, LazyGroupBy};
use crate::opcodes::ContextType;

verus! {

/// An object the engine owns on behalf of the host.
pub enum Table {
    /// A materialized table.
    Frame(DataFrame),
    /// A deferred computation.
    Plan(LazyFrame),
    /// A deferred computation partitioned by keys.
    Grouped(LazyGroupBy),
}

impl Table {
    /// The kind of the object.
    pub open spec fn kind(self) -> ContextType {
        match self {
            Table::Frame(_) => ContextType::DataFrame,
            Table::Plan(_) => ContextType::LazyFrame,
            Table::Grouped(_) => ContextType::LazyGroupBy,
        }
    }
}

/// The objects a host holds handles to.
///
/// A handle is the position of a slot, counted from one, so that zero names
/// nothing. The view maps each live handle to the object it names.
pub struct Engine {
    slots: Vec<Option<Table>>,
}

impl View for Engine {
    type V = Map<usize, Table>;

    closed spec fn view(&self) -> Map<usize, Table> {
        Map::new(
            |h: usize| 1 <= h <= self.slots@.len() && self.slots@[h - 1] is Some,
            |h: usize| self.slots@[h - 1]->Some_0,
        )
    }
}

impl Engine {
    /// An engine that owns nothing.
    pub fn new() -> (engine: Self)
        ensures
            engine@ == Map::<usize, Table>::empty(),
    {
        let engine = Engine { slots: Vec::new() };
        assert(engine@ =~= Map::<usize, Table>::empty());
        engine
    }

    /// Whether a handle names an object of the engine.
    pub fn contains(&self, handle: usize) -> (b: bool)
        ensures
            b == self@.dom().contains(handle),
    {
        handle >= 1 && handle <= self.slots.len() && self.slots[handle - 1].is_some()
    }

    /// The object a handle names, if it names one.
    pub fn get(&self, handle: usize) -> (r: Option<&Table>)
        ensures
            r is Some <==> self@.dom().contains(handle),
            r matches Some(t) ==> *t == self@[handle],
    {
        if handle >= 1 && handle <= self.slots.len() {
            self.slots[handle - 1].as_ref()
        } else {
            None
        }
    }

    /// Takes ownership of an object and returns the handle that names it from
    /// now on: a handle that is not zero and named nothing before. No other
    /// handle changes its meaning.
    pub fn insert(&mut self, table: Table) -> (handle: usize)
        ensures
            handle != 0,
            !old(self)@.dom().contains(handle),
            final(self)@ == old(self)@.insert(handle, table),
    {
        let mut i: usize = 0;
        while i < self.slots.len()
            invariant
                i <= self.slots@.len(),
                *self == *old(self),
                forall|j: int| 0 <= j < i ==> self.slots@[j] is Some,
            decreases self.slots@.len() - i,
        {
            if self.slots[i].is_none() {
                self.slots.set(i, Some(table));
                assert(self@ =~= old(self)@.insert((i + 1) as usize, table));
                return i + 1;
            }
            i += 1;
        }
        self.slots.push(Some(table));
        let handle: usize = self.slots.len();
        assert(self@ =~= old(self)@.insert(handle, table));
        handle
    }

    /// Gives up the object a handle names, if it names one. No other handle
    /// changes its meaning.
    pub fn release(&mut self, handle: usize) -> (released: bool)
        ensures
            released == old(self)@.dom().contains(handle),
            final(self)@ == old(self)@.remove(handle),
    {
        if handle >= 1 && handle <= self.slots.len() && self.slots[handle - 1].is_some() {
            self.slots.set(handle - 1, None);
            assert(self@ =~= old(self)@.remove(handle));
            true
        } else {
            assert(self@ =~= old(self)@.remove(handle));
            false
        }
    }
}

} // verus!
