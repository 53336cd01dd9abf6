//! Track follower: a circular sequence of anchors along the track's
//! center line, a per-entity tether to its best-known anchor, and a lap
//! counter driven by sector observations.
//!
//! Positions are fixed-point world coordinates (integer thousandths work
//! well); the physics side converts its own vectors when it asks for an
//! update. All comparisons use squared Euclidean distance, which orders
//! points exactly as the distance itself does.

use vstd::prelude::*;

verus! {

/// Which lap an entity is on (starts at 0).
pub type Lap = usize;

/// Which sector of the track an entity is on (starts at 0).
pub type Sector = usize;

/// Coordinates are kept within this bound so that squared distances
/// never overflow a 64-bit integer.
pub const COORD_LIMIT: i64 = 1048576;

/// A world position in fixed-point coordinates.
#[derive(Clone, Copy, Debug, PartialEq, Eq, Structural)]
pub struct Pos {
    pub x: i64,
    pub y: i64,
    pub z: i64,
}

/// The square of the Euclidean distance between two positions.
pub open spec fn spec_dist2(a: Pos, b: Pos) -> int {
    (a.x - b.x) * (a.x - b.x) + (a.y - b.y) * (a.y - b.y) + (a.z - b.z) * (a.z - b.z)
}

impl Pos {
    /// True when every coordinate is small enough for overflow-free
    /// squared distances.
    pub open spec fn wf(self) -> bool {
        &&& -COORD_LIMIT <= self.x <= COORD_LIMIT
        &&& -COORD_LIMIT <= self.y <= COORD_LIMIT
        &&& -COORD_LIMIT <= self.z <= COORD_LIMIT
    }

    /// Builds a position; rejects coordinates outside the working range.
    pub fn new(x: i64, y: i64, z: i64) -> (r: Option<Pos>)
        ensures
            match r {
                Some(p) => p == (Pos { x, y, z }) && p.wf(),
                None => !(Pos { x, y, z }).wf(),
            },
    {
        if -COORD_LIMIT <= x && x <= COORD_LIMIT && -COORD_LIMIT <= y && y <= COORD_LIMIT
            && -COORD_LIMIT <= z && z <= COORD_LIMIT {
            Some(Pos { x, y, z })
        } else {
            None
        }
    }
}

/// Squared distance between two in-range positions.
fn dist2(a: &Pos, b: &Pos) -> (r: i64)
    requires
        a.wf(),
        b.wf(),
    ensures
        r == spec_dist2(*a, *b),
        r >= 0,
{
    let dx = a.x - b.x;
    let dy = a.y - b.y;
    let dz = a.z - b.z;
    proof {
        assert(0 <= dx * dx <= 0x40000000000) by (nonlinear_arith)
            requires -2097152 <= dx <= 2097152;
        assert(0 <= dy * dy <= 0x40000000000) by (nonlinear_arith)
            requires -2097152 <= dy <= 2097152;
        assert(0 <= dz * dz <= 0x40000000000) by (nonlinear_arith)
            requires -2097152 <= dz <= 2097152;
    }
    dx * dx + dy * dy + dz * dz
}

/// Index of one anchor inside the track's circular sequence.
#[derive(Clone, Copy, Debug, PartialEq, Eq, Structural)]
pub struct AnchorId(pub usize);

/// An entity's current best-known reference anchor. Starts `Lost`;
/// becomes `Anchor` on the first successful search and then follows the
/// entity by local windowed searches.
#[derive(Clone, Copy, Debug, PartialEq, Eq, Structural)]
pub enum Tether {
    Anchor(AnchorId),
    Lost,
}

/// A fixed point along the track's center line, captured once from level
/// geometry.
#[derive(Clone, Copy, Debug, PartialEq, Eq, Structural)]
pub struct TragnetAnchor {
    pub pos: Pos,
}

/// Why a track could not be built.
#[derive(Clone, Copy, Debug, PartialEq, Eq, Structural)]
pub enum TrackError {
    /// No anchors at all; there is no nearest anchor to any position.
    EmptyTrack,
    /// A lap must be divided into at least one sector.
    NoCheckpoints,
    /// More anchors or checkpoints than the index arithmetic supports.
    TrackTooLarge,
    /// An anchor's coordinates are outside the working range.
    AnchorOutOfRange,
}

/// Anchor and checkpoint counts are kept within this bound so that index
/// arithmetic never overflows.
pub const TRACK_SIZE_LIMIT: usize = 32768;

/// Portmanteau of "track" and "magnet": the ordered, circular sequence
/// of anchors along the center line of the track, plus the number of
/// equal sectors the ring is divided into for lap counting. Immutable
/// after construction.
pub struct Tragnet {
    /// The anchors, acting as a circular buffer.
    pub points: Vec<TragnetAnchor>,
    /// How many checkpoints (sectors) one lap is divided into.
    pub checkpoints: usize,
}

impl Tragnet {
    /// Established at construction and never disturbed: at least one
    /// anchor, at least one checkpoint, sizes small enough for index
    /// arithmetic, every anchor in range.
    pub open spec fn wf(self) -> bool {
        &&& 1 <= self.points@.len() <= TRACK_SIZE_LIMIT
        &&& 1 <= self.checkpoints <= TRACK_SIZE_LIMIT
        &&& forall|i: int| 0 <= i < self.points@.len() ==> self.points@[i].pos.wf()
    }

    /// Number of anchors on the ring.
    pub open spec fn spec_len(self) -> int {
        self.points@.len() as int
    }

    /// Squared distance from anchor `i` to `q`.
    pub open spec fn anchor_dist2(self, i: int, q: Pos) -> int {
        spec_dist2(self.points@[i].pos, q)
    }

    /// `i` is the index of minimal distance to `q`, ties resolved to the
    /// lowest index.
    pub open spec fn is_nearest_anchor(self, q: Pos, i: int) -> bool {
        &&& 0 <= i < self.spec_len()
        &&& forall|j: int| 0 <= j < self.spec_len() ==> self.anchor_dist2(i, q) <= self.anchor_dist2(j, q)
        &&& forall|j: int| 0 <= j < i ==> self.anchor_dist2(i, q) < self.anchor_dist2(j, q)
    }

    /// First anchor of the search window around current anchor `c` with
    /// half-width `k`: the window starts `k` positions behind `c`.
    pub open spec fn win_start(self, c: int, k: int) -> int {
        (c + self.spec_len() - k) % self.spec_len()
    }

    /// Anchor index of window offset `j` (offsets run over `0..=2k`).
    pub open spec fn win_idx(self, c: int, k: int, j: int) -> int {
        (self.win_start(c, k) + j) % self.spec_len()
    }

    /// Squared distance from the anchor at window offset `j` to `q`.
    pub open spec fn win_dist2(self, c: int, k: int, q: Pos, j: int) -> int {
        self.anchor_dist2(self.win_idx(c, k, j), q)
    }

    /// The window offset in `0..n` whose anchor is nearest to `q`, ties
    /// resolved to the lowest offset.
    pub open spec fn window_best(self, c: int, k: int, q: Pos, n: int) -> int
        decreases n,
    {
        if n <= 1 {
            0
        } else {
            let prev = self.window_best(c, k, q, n - 1);
            if self.win_dist2(c, k, q, n - 1) < self.win_dist2(c, k, q, prev) {
                n - 1
            } else {
                prev
            }
        }
    }

    /// The window's winner really is its nearest anchor: no offset in
    /// the window is strictly nearer, and every earlier offset is
    /// strictly farther (ties go to the lowest offset).
    pub proof fn lemma_window_best_is_argmin(self, c: int, k: int, q: Pos, n: int)
        requires
            n >= 1,
        ensures
            0 <= self.window_best(c, k, q, n) < n,
            forall|j: int| 0 <= j < n ==> self.win_dist2(c, k, q, self.window_best(c, k, q, n))
                <= #[trigger] self.win_dist2(c, k, q, j),
            forall|j: int| 0 <= j < self.window_best(c, k, q, n) ==> self.win_dist2(
                c,
                k,
                q,
                self.window_best(c, k, q, n),
            ) < #[trigger] self.win_dist2(c, k, q, j),
        decreases n,
    {
        if n > 1 {
            self.lemma_window_best_is_argmin(c, k, q, n - 1);
        }
    }

    /// `t` only points at anchors that exist.
    pub open spec fn tether_wf(self, t: Tether) -> bool {
        match t {
            Tether::Lost => true,
            Tether::Anchor(a) => a.0 < self.spec_len(),
        }
    }

    /// Builds the track from its anchors. Fails, rather than panicking
    /// later, when the geometry cannot support the search and sector
    /// arithmetic; a failure here must abort the level load.
    pub fn new(points: Vec<TragnetAnchor>, num_checkpoints: usize) -> (r: Result<Tragnet, TrackError>)
        ensures
            match r {
                Ok(t) => {
                    &&& t.points@ == points@
                    &&& t.checkpoints == num_checkpoints
                    &&& t.wf()
                },
                Err(TrackError::EmptyTrack) => points@.len() == 0,
                Err(TrackError::NoCheckpoints) => points@.len() > 0 && num_checkpoints == 0,
                Err(TrackError::TrackTooLarge) => points@.len() > 0 && num_checkpoints > 0
                    && (points@.len() > TRACK_SIZE_LIMIT || num_checkpoints > TRACK_SIZE_LIMIT),
                Err(TrackError::AnchorOutOfRange) => exists|i: int|
                    0 <= i < points@.len() && !points@[i].pos.wf(),
            },
    {
        if points.len() == 0 {
            return Err(TrackError::EmptyTrack);
        }
        if num_checkpoints == 0 {
            return Err(TrackError::NoCheckpoints);
        }
        if points.len() > TRACK_SIZE_LIMIT || num_checkpoints > TRACK_SIZE_LIMIT {
            return Err(TrackError::TrackTooLarge);
        }
        let mut i: usize = 0;
        while i < points.len()
            invariant
                i <= points@.len(),
                forall|j: int| 0 <= j < i ==> points@[j].pos.wf(),
            decreases points@.len() - i,
        {
            let p = points[i].pos;
            if !(-COORD_LIMIT <= p.x && p.x <= COORD_LIMIT && -COORD_LIMIT <= p.y
                && p.y <= COORD_LIMIT && -COORD_LIMIT <= p.z && p.z <= COORD_LIMIT) {
                return Err(TrackError::AnchorOutOfRange);
            }
            i = i + 1;
        }
        Ok(Tragnet { points, checkpoints: num_checkpoints })
    }

    /// The sector the tethered entity is in: anchors are mapped onto
    /// sectors proportionally, `floor(index / len * checkpoints)`. A lost
    /// tether reads as sector 0.
    pub fn get_current_sector(&self, tether: &Tether) -> (r: Sector)
        requires
            self.wf(),
            self.tether_wf(*tether),
        ensures
            r == (match *tether {
                Tether::Anchor(a) => a.0 * self.checkpoints as int / self.spec_len(),
                Tether::Lost => 0int,
            }),
            r < self.checkpoints,
    {
        if let Tether::Anchor(anchor_id) = tether {
            proof {
                assert(anchor_id.0 * self.checkpoints <= 32767 * 32768) by (nonlinear_arith)
                    requires anchor_id.0 <= 32767, self.checkpoints <= 32768;
            }
            let r = (anchor_id.0 * self.checkpoints) / self.points.len();
            proof {
                let i = anchor_id.0 as int;
                let c = self.checkpoints as int;
                let n = self.spec_len();
                assert(i * c <= (n - 1) * c) by (nonlinear_arith)
                    requires i <= n - 1, c >= 1;
                assert((n - 1) * c == n * c - c) by (nonlinear_arith);
                assert((n * c - c) / n < c) by (nonlinear_arith)
                    requires n >= 1, c >= 1;
                assert(i * c / n <= (n * c - c) / n) by {
                    vstd::arithmetic::div_mod::lemma_div_is_ordered(i * c, n * c - c, n);
                }
            }
            r
        } else {
            0
        }
    }

    /// Full scan for the anchor of minimal distance to `query`, ties
    /// resolved to the lowest index. Used only to (re)acquire a lost
    /// tether; steady-state tracking uses the windowed search.
    pub fn find_nearest(&self, query: Pos) -> (r: AnchorId)
        requires
            self.wf(),
            query.wf(),
        ensures
            self.is_nearest_anchor(query, r.0 as int),
    {
        let mut nearest: usize = 0;
        let mut dist = dist2(&self.points[0].pos, &query);
        let mut i: usize = 1;
        while i < self.points.len()
            invariant
                self.wf(),
                query.wf(),
                1 <= i <= self.spec_len(),
                nearest < i,
                dist == self.anchor_dist2(nearest as int, query),
                forall|j: int| 0 <= j < i ==> dist <= self.anchor_dist2(j, query),
                forall|j: int| 0 <= j < nearest ==> dist < self.anchor_dist2(j, query),
            decreases self.spec_len() - i,
        {
            let dist_i = dist2(&self.points[i].pos, &query);
            if dist_i < dist {
                nearest = i;
                dist = dist_i;
            }
            i = i + 1;
        }
        AnchorId(nearest)
    }

    /// One tick of tether tracking. A lost tether is (re)acquired with a
    /// full scan at progress 0. Otherwise only the window of `2k+1`
    /// anchors centered `k` positions behind the current anchor is
    /// searched (indices modulo the ring length); the tether moves to the
    /// winning anchor and the returned progress is its window offset
    /// relative to the center (negative = backward along the ring,
    /// positive = forward, zero = unchanged). A position more than `k`
    /// anchors away is therefore not discoverable: the tether sticks to
    /// the best anchor inside the window. Cost is O(k) against the O(n)
    /// full scan, sound while an entity cannot out-run the window in one
    /// tick; `k` is a tuning parameter from gameplay configuration.
    pub fn update_tether(&self, current: &mut Tether, query: Pos, k: usize) -> (progress: i32)
        requires
            self.wf(),
            self.tether_wf(*old(current)),
            query.wf(),
            k <= self.spec_len(),
        ensures
            self.tether_wf(*final(current)),
            match *old(current) {
                Tether::Lost => progress == 0 && (match *final(current) {
                    Tether::Anchor(a) => self.is_nearest_anchor(query, a.0 as int),
                    Tether::Lost => false,
                }),
                Tether::Anchor(a) => ({
                    let c = a.0 as int;
                    let jb = self.window_best(c, k as int, query, 2 * k + 1);
                    &&& (if self.win_dist2(c, k as int, query, jb) < self.anchor_dist2(c, query) {
                        &&& *final(current) == Tether::Anchor(
                            AnchorId(self.win_idx(c, k as int, jb) as usize),
                        )
                        &&& progress == jb - k
                    } else {
                        &&& *final(current) == *old(current)
                        &&& progress == 0
                    })
                    &&& (match *final(current) {
                        // the tether lands on a window anchor no other
                        // window anchor is strictly nearer than
                        Tether::Anchor(fa) => forall|j: int| 0 <= j <= 2 * k
                            ==> self.anchor_dist2(fa.0 as int, query) <= #[trigger] self.win_dist2(
                                c,
                                k as int,
                                query,
                                j,
                            ),
                        Tether::Lost => false,
                    })
                }),
            },
    {
        let cur: usize = match current {
            Tether::Lost => {
                *current = Tether::Anchor(self.find_nearest(query));
                return 0;
            },
            Tether::Anchor(anchor_id) => anchor_id.0,
        };
        let ghost c = cur as int;
        let ghost kk = k as int;
        let n = self.points.len();
        let start_i = (cur + n - k) % n;
        let mut nearest = cur;
        let mut nearest_dist = dist2(&self.points[nearest].pos, &query);
        let mut progress: i32 = 0;
        let ghost d_c = self.anchor_dist2(c, query);
        let mut j: usize = 0;
        while j < 2 * k + 1
            invariant
                self.wf(),
                query.wf(),
                cur < self.spec_len(),
                k <= self.spec_len(),
                c == cur as int,
                kk == k as int,
                n == self.spec_len(),
                start_i == self.win_start(c, kk),
                d_c == self.anchor_dist2(c, query),
                j <= 2 * k + 1,
                nearest < self.spec_len(),
                nearest_dist == self.anchor_dist2(nearest as int, query),
                j == 0 ==> nearest == cur && progress == 0,
                j >= 1 ==> ({
                    let jb = self.window_best(c, kk, query, j as int);
                    if self.win_dist2(c, kk, query, jb) < d_c {
                        &&& nearest == self.win_idx(c, kk, jb)
                        &&& progress == jb - kk
                    } else {
                        &&& nearest == cur
                        &&& progress == 0
                    }
                }),
            decreases 2 * k + 1 - j,
        {
            let i = (start_i + j) % n;
            assert(i == self.win_idx(c, kk, j as int));
            let dist = dist2(&self.points[i].pos, &query);
            proof {
                if j >= 1 {
                    let jb = self.window_best(c, kk, query, j as int);
                    if self.win_dist2(c, kk, query, jb) < d_c {
                        assert(nearest_dist == self.win_dist2(c, kk, query, jb));
                    } else {
                        assert(nearest_dist == d_c);
                        assert(self.win_dist2(c, kk, query, jb) >= d_c);
                    }
                }
                assert(self.window_best(c, kk, query, j as int + 1) == ({
                    if j as int + 1 <= 1 {
                        0int
                    } else {
                        let prev = self.window_best(c, kk, query, j as int);
                        if self.win_dist2(c, kk, query, j as int) < self.win_dist2(c, kk, query, prev) {
                            j as int
                        } else {
                            prev
                        }
                    }
                }));
            }
            if dist < nearest_dist {
                nearest_dist = dist;
                nearest = i;
                proof {
                    assert(j - k >= -(k as int));
                    assert(j - k <= k);
                }
                progress = j as i32 - k as i32;
            }
            j = j + 1;
        }
        proof {
            self.lemma_window_best_is_argmin(c, kk, query, 2 * kk + 1);
        }
        *current = Tether::Anchor(AnchorId(nearest));
        progress
    }

    /// The position of the anchor the tether points at. Gameplay pulls an
    /// entity toward this point when it strays off the track.
    pub fn get_tether_transform(&self, current: &Tether) -> (r: Pos)
        requires
            self.wf(),
            self.tether_wf(*current),
            !(*current is Lost),
        ensures
            match *current {
                Tether::Anchor(a) => r == self.points@[a.0 as int].pos,
                Tether::Lost => false,
            },
    {
        match current {
            Tether::Anchor(anchor_id) => self.points[anchor_id.0].pos,
            Tether::Lost => {
                unreached()
            },
        }
    }
}

/// Per-entity lap progress. `sector` advances by exactly one position per
/// observed forward step; `lap` increments when `sector` wraps past
/// `checkpoints - 1` back to 0.
#[derive(Clone, Copy, Debug, PartialEq, Eq, Structural)]
pub struct LapCounter {
    pub lap: Lap,
    pub sector: Sector,
    pub checkpoints: usize,
}

/// The counter state reached when sector `sector` is observed: a strict
/// single-step forward check, so both backward motion and multi-sector
/// skips are rejected as non-progress.
pub open spec fn spec_update_sector(c: LapCounter, sector: int) -> LapCounter {
    if sector == (c.sector + 1) % (c.checkpoints as int) {
        if c.sector + 1 == c.checkpoints {
            LapCounter { lap: (c.lap + 1) as usize, sector: 0, checkpoints: c.checkpoints }
        } else {
            LapCounter { lap: c.lap, sector: (c.sector + 1) as usize, checkpoints: c.checkpoints }
        }
    } else {
        c
    }
}

impl LapCounter {
    /// Established at creation and preserved by every update.
    pub open spec fn wf(self) -> bool {
        &&& self.checkpoints >= 1
        &&& self.sector < self.checkpoints
    }

    /// A counter at the starting line: lap 0, sector 0.
    pub fn at_start(num_checkpoints: usize) -> (r: LapCounter)
        requires
            num_checkpoints >= 1,
        ensures
            r == (LapCounter { lap: 0, sector: 0, checkpoints: num_checkpoints }),
            r.wf(),
    {
        LapCounter { lap: 0, sector: 0, checkpoints: num_checkpoints }
    }

    /// Which lap the entity is on (starts at 0).
    pub fn lap(&self) -> (r: Lap)
        ensures
            r == self.lap,
    {
        self.lap
    }

    /// Which sector the entity is on (starts at 0).
    pub fn sector(&self) -> (r: Sector)
        ensures
            r == self.sector,
    {
        self.sector
    }

    /// Feeds one sector observation to the counter. The sector advances
    /// only when the observation is exactly one step forward of the
    /// current sector (modulo `checkpoints`); wrapping back to 0
    /// completes a lap.
    pub fn update_sector(&mut self, sector: Sector)
        requires
            old(self).wf(),
            old(self).lap < usize::MAX,
        ensures
            *final(self) == spec_update_sector(*old(self), sector as int),
            final(self).wf(),
    {
        if sector == (self.sector + 1) % self.checkpoints {
            self.sector = self.sector + 1;
            if self.sector == self.checkpoints {
                self.sector = 0;
                self.lap = self.lap + 1;
            }
        }
    }
}

} // verus!
