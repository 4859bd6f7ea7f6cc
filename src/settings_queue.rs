//! The bounded first-in first-out channel that carries runtime settings to
//! the capture path, where they are applied at the start of the next frame.

use vstd::prelude::*;

verus! {

/// A bounded FIFO: items past the capacity are refused, and draining hands
/// back everything queued, oldest first.
#[derive(Debug)]
pub struct SettingsQueue<T> {
    items: Vec<T>,
    capacity: usize,
}

impl<T> View for SettingsQueue<T> {
    type V = Seq<T>;

    closed spec fn view(&self) -> Seq<T> {
        self.items@
    }
}

impl<T> SettingsQueue<T> {
    /// The most items the queue holds.
    pub closed spec fn spec_capacity(&self) -> nat {
        self.capacity as nat
    }

    /// The queue never holds more than its capacity.
    #[verifier::type_invariant]
    spec fn within_capacity(&self) -> bool {
        self.items@.len() <= self.capacity
    }

    /// An empty queue holding at most `capacity` items.
    pub fn new(capacity: usize) -> (r: SettingsQueue<T>)
        ensures
            r@ == Seq::<T>::empty(),
            r.spec_capacity() == capacity,
    {
        SettingsQueue { items: Vec::new(), capacity }
    }

    /// Number of queued items.
    pub fn len(&self) -> (r: usize)
        ensures
            r == self@.len(),
    {
        self.items.len()
    }

    /// Appends `item` if there is room; returns whether it was queued.
    pub fn push(&mut self, item: T) -> (queued: bool)
        ensures
            final(self)@.len() <= final(self).spec_capacity(),
            final(self).spec_capacity() == old(self).spec_capacity(),
            queued == (old(self)@.len() < old(self).spec_capacity()),
            final(self)@ == if queued {
                old(self)@.push(item)
            } else {
                old(self)@
            },
    {
        proof {
            use_type_invariant(&*self);
        }
        if self.items.len() < self.capacity {
            let mut items: Vec<T> = Vec::new();
            std::mem::swap(&mut items, &mut self.items);
            items.push(item);
            self.items = items;
            true
        } else {
            false
        }
    }

    /// Removes and returns every queued item, oldest first.
    pub fn drain(&mut self) -> (r: Vec<T>)
        ensures
            r@ == old(self)@,
            final(self)@ == Seq::<T>::empty(),
            final(self).spec_capacity() == old(self).spec_capacity(),
    {
        let mut taken: Vec<T> = Vec::new();
        std::mem::swap(&mut taken, &mut self.items);
        taken
    }
}

} // verus!
