//! Bounded first-in first-out histories that evict their oldest entries.
use std::collections::VecDeque;
use vstd::prelude::*;

verus! {

/// The last `cap` elements of `s` (all of `s` when it is shorter).
pub open spec fn keep_last<T>(s: Seq<T>, cap: nat) -> Seq<T> {
    if s.len() > cap {
        s.subrange(s.len() - cap, s.len() as int)
    } else {
        s
    }
}

/// A FIFO of at most `capacity` entries; pushing onto a full one drops the oldest.
pub struct BoundedHistory<T> {
    items: VecDeque<T>,
    capacity: usize,
}

impl<T> View for BoundedHistory<T> {
    type V = Seq<T>;

    closed spec fn view(&self) -> Seq<T> {
        self.items@
    }
}

impl<T> BoundedHistory<T> {
    /// The bound on the number of entries.
    pub closed spec fn cap(&self) -> nat {
        self.capacity as nat
    }

    /// Holds at most `cap` entries, and `cap` is positive.
    pub open spec fn wf(&self) -> bool {
        &&& self.cap() > 0
        &&& self@.len() <= self.cap()
    }

    /// An empty history with room for `capacity` entries.
    pub fn new(capacity: usize) -> (r: Self)
        requires
            capacity > 0,
        ensures
            r.wf(),
            r@ == Seq::<T>::empty(),
            r.cap() == capacity,
    {
        BoundedHistory { items: VecDeque::new(), capacity }
    }

    /// Appends `x`, evicting the oldest entry when the history is full.
    pub fn push(&mut self, x: T)
        requires
            old(self).wf(),
        ensures
            final(self).wf(),
            final(self).cap() == old(self).cap(),
            final(self)@ == keep_last(old(self)@.push(x), old(self).cap()),
    {
        if self.items.len() >= self.capacity {
            let _ = self.items.pop_front();
        }
        self.items.push_back(x);
        assert(self.items@ =~= keep_last(old(self)@.push(x), old(self).cap()));
    }

    /// Number of entries.
    pub fn len(&self) -> (r: usize)
        ensures
            r == self@.len(),
    {
        self.items.len()
    }

    /// The bound on the number of entries.
    pub fn capacity(&self) -> (r: usize)
        ensures
            r == self.cap(),
    {
        self.capacity
    }

    /// Entry `i`, counting from the oldest.
    pub fn get(&self, i: usize) -> (r: &T)
        requires
            i < self@.len(),
        ensures
            *r == self@[i as int],
    {
        &self.items[i]
    }

    /// The newest entry, if any.
    pub fn back(&self) -> (r: Option<&T>)
        ensures
            self@.len() == 0 ==> r.is_none(),
            self@.len() > 0 ==> r == Some(&self@.last()),
    {
        let n = self.items.len();
        if n == 0 {
            None
        } else {
            Some(&self.items[n - 1])
        }
    }
}

impl<T: Copy> BoundedHistory<T> {
    /// A full history of `capacity` copies of `value`.
    pub fn filled(capacity: usize, value: T) -> (r: Self)
        requires
            capacity > 0,
        ensures
            r.wf(),
            r@ == Seq::new(capacity as nat, |i: int| value),
            r.cap() == capacity,
    {
        let mut items: VecDeque<T> = VecDeque::new();
        let mut i: usize = 0;
        while i < capacity
            invariant
                i <= capacity,
                items@ == Seq::new(i as nat, |j: int| value),
            decreases capacity - i,
        {
            items.push_back(value);
            i += 1;
            assert(items@ =~= Seq::new(i as nat, |j: int| value));
        }
        BoundedHistory { items, capacity }
    }

    /// Appends every element of `xs` in order, evicting the oldest entries to stay
    /// within the bound.
    pub fn extend_from_slice(&mut self, xs: &[T])
        requires
            old(self).wf(),
        ensures
            final(self).wf(),
            final(self).cap() == old(self).cap(),
            final(self)@ == keep_last(old(self)@ + xs@, old(self).cap()),
    {
        let mut i: usize = 0;
        while i < xs.len()
            invariant
                i <= xs@.len(),
                self.wf(),
                self.cap() == old(self).cap(),
                self@ == keep_last(old(self)@ + xs@.take(i as int), old(self).cap()),
            decreases xs@.len() - i,
        {
            let ghost before = self@;
            self.push(xs[i]);
            proof {
                let cap = old(self).cap();
                let full = old(self)@ + xs@.take(i as int);
                let next = old(self)@ + xs@.take(i + 1);
                assert(next =~= full.push(xs@[i as int]));
                assert(keep_last(before.push(xs@[i as int]), cap) =~= keep_last(next, cap));
            }
            i += 1;
        }
        assert(xs@.take(xs@.len() as int) =~= xs@);
    }

    /// The entries, oldest first.
    pub fn to_vec(&self) -> (r: Vec<T>)
        ensures
            r@ == self@,
    {
        let mut r: Vec<T> = Vec::new();
        let mut i: usize = 0;
        while i < self.items.len()
            invariant
                i <= self@.len(),
                r@ == self@.take(i as int),
            decreases self@.len() - i,
        {
            r.push(self.items[i]);
            i += 1;
            assert(r@ =~= self@.take(i as int));
        }
        assert(self@.take(self@.len() as int) =~= self@);
        r
    }
}

} // verus!
