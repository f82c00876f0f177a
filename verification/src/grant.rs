//! Per-process isolated storage: one record per client process.
//!
//! The store is an arena of fixed slots indexed by process identity.  A slot
//! holds `Some(record)` for a live process and `None` for an identity that
//! does not resolve to one.  Access is by explicit read and write of a whole
//! record, which keeps every acquisition exclusive and released on every
//! exit path.

use vstd::prelude::*;

verus! {

/// Isolated per-process storage holding one record of type `T` per process.
pub struct Grant<T> {
    slots: Vec<Option<T>>,
}

impl<T> View for Grant<T> {
    type V = Seq<Option<T>>;

    closed spec fn view(&self) -> Seq<Option<T>> {
        self.slots@
    }
}

impl<T> Grant<T> {
    pub fn new() -> (g: Grant<T>)
        ensures
            g@ == Seq::<Option<T>>::empty(),
    {
        Grant { slots: Vec::new() }
    }

    /// Creates the record for a newly live process and returns its identity.
    pub fn register(&mut self, record: T) -> (id: usize)
        ensures
            final(self)@ == old(self)@.push(Some(record)),
            id == old(self)@.len(),
    {
        let id = self.slots.len();
        self.slots.push(Some(record));
        id
    }

    /// Number of slots (live or not).
    pub fn len(&self) -> (n: usize)
        ensures
            n == self@.len(),
    {
        self.slots.len()
    }

    /// Whether `id` resolves to a live record.
    pub fn is_live(&self, id: usize) -> (r: bool)
        ensures
            r == (id < self@.len() && self@[id as int] is Some),
    {
        id < self.slots.len() && self.slots[id].is_some()
    }

    /// Reads the whole record of a live process.
    pub fn read(&self, id: usize) -> (record: T) where T: Copy
        requires
            id < self@.len(),
            self@[id as int] is Some,
        ensures
            self@[id as int] == Some(record),
    {
        self.slots[id].unwrap()
    }

    /// Replaces the whole record of a live process.
    pub fn put(&mut self, id: usize, record: T)
        requires
            id < old(self)@.len(),
            old(self)@[id as int] is Some,
        ensures
            final(self)@ == old(self)@.update(id as int, Some(record)),
    {
        self.slots.set(id, Some(record));
    }
}

} // verus!
