use vstd::prelude::*;

verus! {

/// The snapshots that wait for delivery, oldest first.
pub struct Cache<T> {
    entries: Vec<T>,
}

impl<T> View for Cache<T> {
    type V = Seq<T>;

    closed spec fn view(&self) -> Seq<T> {
        self.entries@
    }
}

impl<T> Cache<T> {
    /// An empty cache; it grows as snapshots are appended.
    pub fn new() -> (r: Cache<T>)
        ensures
            r@ == Seq::<T>::empty(),
    {
        Cache { entries: Vec::new() }
    }

    pub fn len(&self) -> (r: usize)
        ensures
            r == self@.len(),
    {
        self.entries.len()
    }

    pub fn is_empty(&self) -> (r: bool)
        ensures
            r == (self@.len() == 0),
    {
        self.entries.len() == 0
    }

    /// The buffered snapshots in the order they were appended.
    pub fn entries(&self) -> (r: &[T])
        ensures
            r@ == self@,
    {
        self.entries.as_slice()
    }

    /// Adds a snapshot after all the others.
    pub fn append(&mut self, snapshot: T)
        ensures
            final(self)@ == old(self)@.push(snapshot),
    {
        self.entries.push(snapshot);
    }

    /// Forgets every snapshot; on an empty cache this changes nothing.
    pub fn clear(&mut self)
        ensures
            final(self)@ == Seq::<T>::empty(),
            old(self)@.len() == 0 ==> final(self)@ == old(self)@,
    {
        self.entries.clear();
        proof {
            if old(self)@.len() == 0 {
                assert(final(self)@ =~= old(self)@);
            }
        }
    }

    /// Removes the `n` oldest snapshots and keeps the rest in their order.
    pub fn drain_oldest(&mut self, n: usize)
        requires
            n <= old(self)@.len(),
        ensures
            final(self)@ == old(self)@.subrange(n as int, old(self)@.len() as int),
    {
        let rest = self.entries.split_off(n);
        self.entries = rest;
    }
}

} // verus!
