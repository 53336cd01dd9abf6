//! Player slot mapper: assigns each connection a compact gameplay-facing
//! player number.
//!
//! Player numbers run from 1 to 255. A joining connection takes the
//! smallest number not in use, so a freed slot is reused before a new
//! one is opened; there are no slots beyond 255, and a connection that
//! arrives with all slots taken is rejected explicitly.

use vstd::prelude::*;
use crate::protocol::UserId;
use std::collections::HashMap;

verus! {

broadcast use vstd::std_specs::hash::group_hash_axioms;

/// A compact gameplay-facing player slot, distinct from the connection
/// identifier.
pub type PlayerNum = u8;

/// The player numbers currently assigned, each to the connection that
/// holds it.
pub struct PlayerMapping {
    assignments: HashMap<PlayerNum, UserId>,
}

impl View for PlayerMapping {
    type V = Map<PlayerNum, UserId>;

    closed spec fn view(&self) -> Map<PlayerNum, UserId> {
        self.assignments@
    }
}

impl PlayerMapping {
    /// Player numbers start at 1; 0 is never assigned.
    pub open spec fn wf(&self) -> bool {
        forall|n: PlayerNum| self@.contains_key(n) ==> n >= 1
    }

    /// A mapping with no players.
    pub fn new() -> (r: PlayerMapping)
        ensures
            r@ == Map::<PlayerNum, UserId>::empty(),
            r.wf(),
    {
        let r = PlayerMapping { assignments: HashMap::new() };
        proof {
            assert(r@ =~= Map::<PlayerNum, UserId>::empty());
        }
        r
    }

    /// The connection holding a player number, if any.
    pub fn get(&self, player_num: PlayerNum) -> (r: Option<UserId>)
        ensures
            match r {
                Some(u) => self@.contains_key(player_num) && self@[player_num] == u,
                None => !self@.contains_key(player_num),
            },
    {
        match self.assignments.get(&player_num) {
            Some(u) => Some(*u),
            None => None,
        }
    }

    /// Assigns the connection the smallest player number not in use,
    /// scanning upward from 1; rejects the connection when all 255
    /// slots are taken.
    pub fn connect_lowest_num(&mut self, user_id: &UserId) -> (r: Option<PlayerNum>)
        requires
            old(self).wf(),
        ensures
            final(self).wf(),
            match r {
                Some(n) => {
                    &&& n >= 1
                    &&& !old(self)@.contains_key(n)
                    &&& forall|j: PlayerNum| 1 <= j < n ==> old(self)@.contains_key(j)
                    &&& final(self)@ == old(self)@.insert(n, *user_id)
                },
                None => {
                    &&& forall|j: PlayerNum| j >= 1 ==> old(self)@.contains_key(j)
                    &&& final(self)@ == old(self)@
                },
            },
    {
        let mut n: PlayerNum = 1;
        loop
            invariant
                *self == *old(self),
                old(self).wf(),
                1 <= n,
                forall|j: PlayerNum| 1 <= j < n ==> self@.contains_key(j),
            decreases 255 - n,
        {
            if !self.assignments.contains_key(&n) {
                self.assignments.insert(n, *user_id);
                proof {
                    assert forall|k: PlayerNum| self@.contains_key(k) implies k >= 1 by {
                        if k != n {
                            assert(old(self)@.contains_key(k));
                        }
                    }
                }
                return Some(n);
            }
            if n == 255 {
                return None;
            }
            n = n + 1;
        }
    }

    /// Removes the assignment that maps to this connection, if one
    /// exists, and returns the freed player number (the smallest, should
    /// several be mapped to the same connection).
    pub fn remove(&mut self, user_id: &UserId) -> (r: Option<PlayerNum>)
        requires
            old(self).wf(),
        ensures
            final(self).wf(),
            match r {
                Some(n) => {
                    &&& old(self)@.contains_key(n) && old(self)@[n] == *user_id
                    &&& forall|j: PlayerNum| 1 <= j < n ==> !(old(self)@.contains_key(j)
                        && old(self)@[j] == *user_id)
                    &&& final(self)@ == old(self)@.remove(n)
                },
                None => {
                    &&& forall|j: PlayerNum| !(old(self)@.contains_key(j) && old(self)@[j]
                        == *user_id)
                    &&& final(self)@ == old(self)@
                },
            },
    {
        let mut n: PlayerNum = 1;
        loop
            invariant
                *self == *old(self),
                old(self).wf(),
                1 <= n,
                forall|j: PlayerNum| 1 <= j < n ==> !(self@.contains_key(j) && self@[j]
                    == *user_id),
            decreases 255 - n,
        {
            let hit = match self.assignments.get(&n) {
                Some(u) => u.0 == user_id.0,
                None => false,
            };
            if hit {
                self.assignments.remove(&n);
                proof {
                    assert forall|k: PlayerNum| self@.contains_key(k) implies k >= 1 by {
                        assert(old(self)@.contains_key(k));
                    }
                }
                return Some(n);
            }
            if n == 255 {
                return None;
            }
            n = n + 1;
        }
    }

    /// The player numbers currently assigned, in ascending order; meant
    /// for membership tests by gameplay.
    pub fn get_players(&self) -> (r: Vec<PlayerNum>)
        requires
            self.wf(),
        ensures
            forall|i: int, j: int| 0 <= i < j < r@.len() ==> r@[i] < r@[j],
            forall|n: PlayerNum| r@.contains(n) <==> self@.contains_key(n),
    {
        let mut r: Vec<PlayerNum> = Vec::new();
        let mut n: PlayerNum = 1;
        loop
            invariant
                self.wf(),
                1 <= n,
                forall|i: int, j: int| 0 <= i < j < r@.len() ==> r@[i] < r@[j],
                forall|i: int| 0 <= i < r@.len() ==> 1 <= #[trigger] r@[i] < n,
                forall|m: PlayerNum| 1 <= m < n ==> (r@.contains(m) <==> self@.contains_key(m)),
            decreases 255 - n,
        {
            let ghost r0 = r@;
            let present = self.assignments.contains_key(&n);
            if present {
                r.push(n);
                proof {
                    assert(r@[r@.len() - 1] == n);
                    assert(r@.contains(n));
                }
            }
            proof {
                assert forall|m: PlayerNum| m != n implies (#[trigger] r@.contains(m)
                    <==> r0.contains(m)) by {
                    if r0.contains(m) {
                        let i = choose|i: int| 0 <= i < r0.len() && r0[i] == m;
                        assert(r@[i] == m);
                    }
                    if r@.contains(m) {
                        let i = choose|i: int| 0 <= i < r@.len() && r@[i] == m;
                        assert(0 <= i < r0.len());
                    }
                }
                if !present {
                    assert(!r@.contains(n)) by {
                        if r@.contains(n) {
                            let i = choose|i: int| 0 <= i < r@.len() && r@[i] == n;
                            assert(r@[i] < n);
                        }
                    }
                }
            }
            if n == 255 {
                proof {
                    assert forall|m: PlayerNum| r@.contains(m) implies self@.contains_key(m) by {
                        let i = choose|i: int| 0 <= i < r@.len() && r@[i] == m;
                        assert(1 <= m);
                    }
                    assert forall|m: PlayerNum| self@.contains_key(m) implies r@.contains(m) by {
                        assert(1 <= m && m <= 255);
                    }
                }
                return r;
            }
            n = n + 1;
        }
    }
}

} // verus!
