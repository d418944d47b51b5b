//! A counting pool of permits that records which delivery holds each permit.

use vstd::prelude::*;

verus! {

/// A permit pool as a mathematical value.
pub struct Permits {
    /// How many permits the pool was made with.
    pub capacity: nat,
    /// The deliveries that hold a permit, in the order in which they took it.
    pub holders: Seq<u64>,
}

impl Permits {
    /// No more permits are out than the pool has.
    pub open spec fn valid(self) -> bool {
        self.holders.len() <= self.capacity
    }

    /// The pool with all of its `capacity` permits free.
    pub open spec fn fresh(capacity: nat) -> Permits {
        Permits { capacity, holders: Seq::empty() }
    }

    /// The number of free permits.
    pub open spec fn available(self) -> nat {
        if self.holders.len() <= self.capacity {
            (self.capacity - self.holders.len()) as nat
        } else {
            0
        }
    }

    /// Whether a permit can be taken.
    pub open spec fn has_free(self) -> bool {
        self.holders.len() < self.capacity
    }

    /// The pool after `tag` asked for a permit: it holds one if one was free.
    pub open spec fn acquire(self, tag: u64) -> Permits {
        if self.has_free() {
            Permits { capacity: self.capacity, holders: self.holders.push(tag) }
        } else {
            self
        }
    }

    /// Whether `tag` holds a permit.
    pub open spec fn holds(self, tag: u64) -> bool {
        self.holders.contains(tag)
    }

    /// The pool after `tag` gave back the permit it took first.
    pub open spec fn release(self, tag: u64) -> Permits {
        Permits { capacity: self.capacity, holders: self.holders.remove_value(tag) }
    }
}

/// Taking a permit keeps the pool within its capacity.
pub proof fn lemma_acquire_valid(p: Permits, tag: u64)
    requires
        p.valid(),
    ensures
        p.acquire(tag).valid(),
        p.has_free() ==> p.acquire(tag).holders.len() == p.holders.len() + 1,
        p.has_free() ==> p.acquire(tag).holds(tag),
{
    if p.has_free() {
        let q = p.acquire(tag);
        assert(q.holders[q.holders.len() - 1] == tag);
    }
}

/// Giving a permit back frees exactly one permit if the delivery held one,
/// and changes nothing otherwise.
pub proof fn lemma_release_valid(p: Permits, tag: u64)
    requires
        p.valid(),
    ensures
        p.release(tag).valid(),
        p.holds(tag) ==> p.release(tag).holders.len() + 1 == p.holders.len(),
        !p.holds(tag) ==> p.release(tag) == p,
{
    p.holders.index_of_first_ensures(tag);
}

/// A pool of `capacity` permits. A delivery takes a permit before its
/// handling starts and gives it back when the handling is over.
#[derive(Debug)]
pub struct ConcurrencyLimiter {
    capacity: usize,
    holders: Vec<u64>,
}

impl View for ConcurrencyLimiter {
    type V = Permits;

    closed spec fn view(&self) -> Permits {
        Permits { capacity: self.capacity as nat, holders: self.holders@ }
    }
}

impl Clone for ConcurrencyLimiter {
    fn clone(&self) -> (copy: Self)
        ensures
            copy@ == self@,
    {
        proof {
            use_type_invariant(self);
        }
        ConcurrencyLimiter { capacity: self.capacity, holders: self.holders.clone() }
    }
}

impl ConcurrencyLimiter {
    #[verifier::type_invariant]
    spec fn inv(self) -> bool {
        self.holders@.len() <= self.capacity
    }

    /// A pool with `capacity` free permits.
    pub fn new(capacity: usize) -> (limiter: Self)
        ensures
            limiter@ == Permits::fresh(capacity as nat),
    {
        ConcurrencyLimiter { capacity, holders: Vec::new() }
    }

    /// The number of permits the pool was made with.
    pub fn capacity(&self) -> (n: usize)
        ensures
            n == self@.capacity,
            self@.valid(),
    {
        proof {
            use_type_invariant(self);
        }
        self.capacity
    }

    /// The number of permits that are out.
    pub fn in_use(&self) -> (n: usize)
        ensures
            n == self@.holders.len(),
            n <= self@.capacity,
    {
        proof {
            use_type_invariant(self);
        }
        self.holders.len()
    }

    /// The number of free permits.
    pub fn available(&self) -> (n: usize)
        ensures
            n == self@.available(),
            self@.valid(),
    {
        proof {
            use_type_invariant(self);
        }
        self.capacity - self.holders.len()
    }

    /// Takes a permit for `tag` if one is free, and says whether it did.
    pub fn try_acquire(&mut self, tag: u64) -> (taken: bool)
        ensures
            taken == old(self)@.has_free(),
            final(self)@ == old(self)@.acquire(tag),
            final(self)@.valid(),
    {
        proof {
            use_type_invariant(&*self);
        }
        if self.holders.len() < self.capacity {
            let mut holders: Vec<u64> = Vec::new();
            std::mem::swap(&mut holders, &mut self.holders);
            holders.push(tag);
            std::mem::swap(&mut holders, &mut self.holders);
            true
        } else {
            false
        }
    }

    /// Gives back the permit that `tag` took first, and says whether it held one.
    pub fn release(&mut self, tag: u64) -> (held: bool)
        ensures
            held == old(self)@.holds(tag),
            final(self)@ == old(self)@.release(tag),
            final(self)@.valid(),
    {
        proof {
            use_type_invariant(&*self);
            self.holders@.index_of_first_ensures(tag);
        }
        let mut holders: Vec<u64> = Vec::new();
        std::mem::swap(&mut holders, &mut self.holders);
        let mut held: bool = false;
        let mut i: usize = 0;
        while i < holders.len() && !held
            invariant
                i <= holders@.len(),
                holders@.len() <= self.capacity,
                self.holders@.len() == 0,
                !held ==> holders@ == old(self).holders@,
                !held ==> forall|j: int| 0 <= j < i ==> holders@[j] != tag,
                held ==> old(self)@.holds(tag) && holders@ == old(self).holders@.remove_value(tag),
            decreases holders@.len() - i + (if held { 0int } else { 1int }),
        {
            if holders[i] == tag {
                proof {
                    holders@.index_of_first_ensures(tag);
                    assert(holders@.contains(tag));
                    assert(holders@.index_of_first(tag) == Some(i as int));
                }
                holders.remove(i);
                held = true;
            } else {
                i = i + 1;
            }
        }
        std::mem::swap(&mut holders, &mut self.holders);
        held
    }
}

} // verus!
