//! Session registry: allocates and reclaims the small identifiers that
//! name active connections.
//!
//! Each accepted connection gets the smallest identifier of at least 1
//! that is not currently in use, and gives it back when its teardown
//! completes. The registry is the one piece of state shared between
//! connection tasks, so the embedding program guards one instance with
//! its single lock.

use vstd::prelude::*;
use crate::protocol::UserId;
use std::collections::HashMap;

verus! {

broadcast use vstd::std_specs::hash::group_hash_axioms;

/// When every identifier from 1 up to `n` is in `s`, then `s` has at
/// least `n` elements.
proof fn lemma_range_needs_len(s: Set<u64>, n: u64)
    requires
        s.finite(),
        forall|x: u64| 1 <= x <= n ==> s.contains(x),
    ensures
        s.len() >= n,
    decreases n,
{
    if n > 0 {
        lemma_range_needs_len(s.remove(n), (n - 1) as u64);
    }
}

/// The set of currently allocated connection identifiers.
pub struct Users {
    /// Allocated identifiers, as the keys of a map with unit values: the
    /// map form carries the finiteness fact that the allocation loop's
    /// termination argument needs.
    connected: HashMap<u64, ()>,
}

impl View for Users {
    type V = Set<u64>;

    closed spec fn view(&self) -> Set<u64> {
        self.connected@.dom()
    }
}

impl Users {
    /// A registry with no connections.
    pub fn new() -> (r: Users)
        ensures
            r@ == Set::<u64>::empty(),
    {
        let r = Users { connected: HashMap::new() };
        proof {
            assert(r@ =~= Set::<u64>::empty());
        }
        r
    }

    /// How many identifiers are allocated.
    pub fn len(&self) -> (r: usize)
        ensures
            r == self@.len(),
    {
        self.connected.len()
    }

    /// True when `id` is currently allocated.
    pub fn contains(&self, id: UserId) -> (r: bool)
        ensures
            r == self@.contains(id.0),
    {
        self.connected.contains_key(&id.0)
    }

    /// Allocates the smallest identifier of at least 1 that is not in
    /// use, and marks it in use.
    pub fn add_next(&mut self) -> (r: UserId)
        requires
            old(self)@.len() < u64::MAX,
        ensures
            r.0 >= 1,
            !old(self)@.contains(r.0),
            forall|x: u64| 1 <= x < r.0 ==> old(self)@.contains(x),
            final(self)@ == old(self)@.insert(r.0),
    {
        let mut cand: u64 = 1;
        let mut taken = self.connected.contains_key(&cand);
        while taken
            invariant
                *self == *old(self),
                old(self)@.len() < u64::MAX,
                1 <= cand <= self@.len() + 1,
                taken == self@.contains(cand),
                forall|x: u64| 1 <= x < cand ==> self@.contains(x),
            decreases self@.len() + 1 - cand,
        {
            proof {
                lemma_range_needs_len(self@, cand);
            }
            cand = cand + 1;
            taken = self.connected.contains_key(&cand);
        }
        self.connected.insert(cand, ());
        proof {
            assert(self@ =~= old(self)@.insert(cand));
        }
        UserId(cand)
    }

    /// Releases an identifier back to the registry, once its
    /// connection's teardown completes; reallocation may then reuse it.
    pub fn free(&mut self, id: UserId)
        ensures
            final(self)@ == old(self)@.remove(id.0),
    {
        self.connected.remove(&id.0);
        proof {
            assert(self@ =~= old(self)@.remove(id.0));
        }
    }
}

} // verus!
