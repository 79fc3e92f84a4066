use vstd::prelude::*;
use crate::geometry::{Collider, HALF_FIELD_HEIGHT};
use crate::state::{FixedTimer, GameStates};

verus! {

/// Width of an obstacle half.
pub const PIPE_WIDTH: i64 = 64_000;

/// Height of an obstacle half.
pub const PIPE_HEIGHT: i64 = 640_000;

/// Column, right of the center, where obstacle pairs appear.
pub const PIPE_SPAWN_X: i64 = 240_000;

/// Leftward move of every obstacle per tick.
pub const PIPE_SPEED: i64 = 2_000;

/// An obstacle whose column falls below this is removed.
pub const PIPE_DESPAWN_X: i64 = -304_000;

/// Vertical distance between the two offsets of a gap.
pub const GAP_SPAN: i64 = 120_000;

/// Bound of the random draw a gap is made from, on either side of zero.
pub const GAP_DRAW_LIMIT: i64 = 64_000;

/// Period of the spawn timer, in microseconds.
pub const SPAWN_PERIOD: u64 = 1_000_000;

/// Which half of an obstacle pair.
#[derive(Clone, Copy, Debug, PartialEq, Eq, Structural)]
pub enum Pipe {
    Top,
    Bottom,
}

/// The vertical opening between the two halves of a pair, as offsets from
/// the center line.
#[derive(Clone, Copy, Debug, PartialEq, Eq, Structural)]
pub struct Gap {
    pub top: i64,
    pub bottom: i64,
}

/// The gap that a draw `r` gives.
pub open spec fn gap_of(r: int) -> Gap {
    if r >= 0 {
        Gap { top: r as i64, bottom: (r - GAP_SPAN) as i64 }
    } else {
        Gap { top: (r + GAP_SPAN) as i64, bottom: r as i64 }
    }
}

/// Relies on `rand::thread_rng` and `rand::Rng::gen_range` over an inclusive
/// range: the value drawn lies between the two bounds, both included. The
/// range must not be empty, where `gen_range` panics.
#[verifier::external_body]
fn random_in(low: i64, high: i64) -> (r: i64)
    requires
        low <= high,
    ensures
        low <= r <= high,
{
    rand::Rng::gen_range(&mut rand::thread_rng(), low..=high)
}

impl Gap {
    /// The gap comes from a draw within the allowed range.
    pub open spec fn wf(self) -> bool {
        exists|r: int| -GAP_DRAW_LIMIT <= r <= GAP_DRAW_LIMIT && self == gap_of(r)
    }

    /// The gap for the draw `r`: a draw at or above zero is the top offset,
    /// one below zero the bottom offset, and the other lies `GAP_SPAN` away.
    pub fn from_draw(r: i64) -> (g: Gap)
        requires
            -GAP_DRAW_LIMIT <= r <= GAP_DRAW_LIMIT,
        ensures
            g == gap_of(r as int),
            g.wf(),
            g.top - g.bottom == GAP_SPAN,
    {
        if r >= 0 {
            Gap { top: r, bottom: r - GAP_SPAN }
        } else {
            Gap { top: r + GAP_SPAN, bottom: r }
        }
    }
}

impl Default for Gap {
    /// A gap from a fresh uniform draw.
    fn default() -> (g: Gap)
        ensures
            g.wf(),
            g.top - g.bottom == GAP_SPAN,
    {
        let r = random_in(-GAP_DRAW_LIMIT, GAP_DRAW_LIMIT);
        Gap::from_draw(r)
    }
}

/// One half of an obstacle pair.
#[derive(Clone, Copy, Debug, PartialEq, Eq, Structural)]
pub struct PipeSegment {
    pub pipe: Pipe,
    pub x: i64,
    pub y: i64,
    pub gap: Gap,
}

impl PipeSegment {
    /// The segment stands between the removal line and the spawn column.
    pub open spec fn wf(self) -> bool {
        PIPE_DESPAWN_X <= self.x <= PIPE_SPAWN_X
    }

    /// The segment one scroll step to the left.
    pub open spec fn scrolled(self) -> PipeSegment {
        PipeSegment { x: (self.x - PIPE_SPEED) as i64, ..self }
    }

    /// The segment's bounding box.
    pub open spec fn bounds(self) -> Collider {
        Collider { x: self.x, y: self.y, width: PIPE_WIDTH, height: PIPE_HEIGHT }
    }

    /// The segment's bounding box.
    pub fn collider(&self) -> (c: Collider)
        ensures
            c == self.bounds(),
            c.wf(),
    {
        Collider { x: self.x, y: self.y, width: PIPE_WIDTH, height: PIPE_HEIGHT }
    }
}

/// The pair spawned with gap `g`: top half above the gap, bottom half below,
/// both at the spawn column.
pub open spec fn pair_of(g: Gap) -> Seq<PipeSegment> {
    seq![
        PipeSegment { pipe: Pipe::Top, x: PIPE_SPAWN_X, y: (g.top + HALF_FIELD_HEIGHT) as i64, gap: g },
        PipeSegment { pipe: Pipe::Bottom, x: PIPE_SPAWN_X, y: (g.bottom - HALF_FIELD_HEIGHT) as i64, gap: g },
    ]
}

/// The segments left after one scroll step: each moved left, those past
/// the removal line dropped, order kept.
pub open spec fn scrolled_all(s: Seq<PipeSegment>) -> Seq<PipeSegment>
    decreases s.len(),
{
    if s.len() == 0 {
        seq![]
    } else {
        let rest = scrolled_all(s.drop_last());
        let q = s.last().scrolled();
        if q.x < PIPE_DESPAWN_X {
            rest
        } else {
            rest.push(q)
        }
    }
}

/// How many top halves reach the center line exactly in one scroll step.
pub open spec fn top_crossings(s: Seq<PipeSegment>) -> nat
    decreases s.len(),
{
    if s.len() == 0 {
        0
    } else {
        let p = s.last();
        top_crossings(s.drop_last()) + if p.x - PIPE_SPEED == 0 && p.pipe == Pipe::Top { 1nat } else { 0nat }
    }
}

/// `v` held at most at `u64::MAX`.
pub open spec fn clamp_u64(v: int) -> u64 {
    if v > u64::MAX {
        u64::MAX
    } else {
        v as u64
    }
}

/// The obstacle system: its spawn timer and the segments in play.
pub struct PipePlugin {
    pub spawn_timer: FixedTimer,
    pub pipes: Vec<PipeSegment>,
}

/// Every segment in `s` is well formed.
pub open spec fn all_wf(s: Seq<PipeSegment>) -> bool {
    forall|i: int| 0 <= i < s.len() ==> (#[trigger] s[i]).wf()
}

impl PipePlugin {
    /// The timer and every segment are well formed.
    pub open spec fn wf(&self) -> bool {
        &&& self.spawn_timer.wf()
        &&& self.spawn_timer.period == SPAWN_PERIOD
        &&& all_wf(self.pipes@)
    }

    /// An obstacle system with a fresh timer and no segments.
    pub fn build() -> (p: PipePlugin)
        ensures
            p.wf(),
            p.spawn_timer == (FixedTimer { period: SPAWN_PERIOD, elapsed: 0 }),
            p.pipes@ == Seq::<PipeSegment>::empty(),
    {
        PipePlugin { spawn_timer: FixedTimer::new(SPAWN_PERIOD), pipes: Vec::new() }
    }

    /// The colliders of all segments, in order.
    pub fn colliders(&self) -> (c: Vec<Collider>)
        ensures
            c@.len() == self.pipes@.len(),
            forall|i: int| 0 <= i < c@.len() ==> #[trigger] c@[i] == self.pipes@[i].bounds(),
    {
        let mut c: Vec<Collider> = Vec::new();
        let mut i: usize = 0;
        while i < self.pipes.len()
            invariant
                0 <= i <= self.pipes@.len(),
                c@.len() == i,
                forall|j: int| 0 <= j < i ==> #[trigger] c@[j] == self.pipes@[j].bounds(),
            decreases self.pipes@.len() - i,
        {
            c.push(self.pipes[i].collider());
            i = i + 1;
        }
        c
    }

    /// Adds a pair with gap `gap` at the spawn column.
    pub fn spawn_pair(&mut self, gap: Gap)
        requires
            old(self).wf(),
            gap.wf(),
        ensures
            final(self).wf(),
            final(self).spawn_timer == old(self).spawn_timer,
            final(self).pipes@ == old(self).pipes@ + pair_of(gap),
    {
        let ghost r = choose|r: int| -GAP_DRAW_LIMIT <= r <= GAP_DRAW_LIMIT && gap == gap_of(r);
        assert(gap == gap_of(r));
        self.pipes.push(PipeSegment { pipe: Pipe::Top, x: PIPE_SPAWN_X, y: gap.top + HALF_FIELD_HEIGHT, gap });
        self.pipes.push(PipeSegment { pipe: Pipe::Bottom, x: PIPE_SPAWN_X, y: gap.bottom - HALF_FIELD_HEIGHT, gap });
        assert(self.pipes@ =~= old(self).pipes@ + pair_of(gap));
    }

    /// Ticks the spawn timer by `delta`; when it fires while the game runs,
    /// adds a pair with gap `gap`.
    pub fn spawn_pipes_with(&mut self, game_state: GameStates, delta: u64, gap: Gap)
        requires
            old(self).wf(),
            gap.wf(),
        ensures
            final(self).wf(),
            final(self).spawn_timer == old(self).spawn_timer.ticked(delta),
            final(self).pipes@ == (if old(self).spawn_timer.fires(delta) && game_state == GameStates::GameActive {
                old(self).pipes@ + pair_of(gap)
            } else {
                old(self).pipes@
            }),
    {
        if self.spawn_timer.tick(delta) {
            if game_state == GameStates::GameActive {
                self.spawn_pair(gap);
            }
        }
    }

    /// Ticks the spawn timer by `delta`; when it fires while the game runs,
    /// adds a pair with a freshly drawn gap.
    pub fn spawn_pipes(&mut self, game_state: GameStates, delta: u64)
        requires
            old(self).wf(),
        ensures
            final(self).wf(),
            final(self).spawn_timer == old(self).spawn_timer.ticked(delta),
            old(self).spawn_timer.fires(delta) && game_state == GameStates::GameActive ==> exists|g: Gap|
                g.wf() && final(self).pipes@ == old(self).pipes@ + pair_of(g),
            !(old(self).spawn_timer.fires(delta) && game_state == GameStates::GameActive)
                ==> final(self).pipes@ == old(self).pipes@,
    {
        if self.spawn_timer.tick(delta) {
            if game_state == GameStates::GameActive {
                let gap = Gap::default();
                self.spawn_pair(gap);
            }
        }
    }

    /// While the game runs, scrolls every segment left, removes those past the
    /// removal line, and scores one for each top half that lands exactly on
    /// the center line. While the game is idle, removes every segment.
    pub fn move_pipes(&mut self, game_state: GameStates, score: &mut u64)
        requires
            old(self).wf(),
        ensures
            final(self).wf(),
            final(self).spawn_timer == old(self).spawn_timer,
            game_state == GameStates::GameActive ==> final(self).pipes@ == scrolled_all(old(self).pipes@)
                && *final(score) == clamp_u64(*old(score) + top_crossings(old(self).pipes@)),
            game_state == GameStates::PreGame ==> final(self).pipes@ == Seq::<PipeSegment>::empty()
                && *final(score) == *old(score),
            game_state != GameStates::GameActive && game_state != GameStates::PreGame ==>
                final(self).pipes@ == old(self).pipes@ && *final(score) == *old(score),
    {
        if game_state == GameStates::GameActive {
            let ghost s0 = *score;
            let ghost ps = self.pipes@;
            let mut kept: Vec<PipeSegment> = Vec::new();
            let mut i: usize = 0;
            while i < self.pipes.len()
                invariant
                    0 <= i <= self.pipes@.len(),
                    self.pipes@ == ps,
                    all_wf(ps),
                    kept@ == scrolled_all(ps.take(i as int)),
                    all_wf(kept@),
                    *score == clamp_u64(s0 + top_crossings(ps.take(i as int))),
                decreases self.pipes@.len() - i,
            {
                let p = self.pipes[i];
                assert(ps.take(i + 1).drop_last() =~= ps.take(i as int));
                assert(ps.take(i + 1).last() == p);
                assert(p.wf());
                let moved = PipeSegment { x: p.x - PIPE_SPEED, ..p };
                if moved.x >= PIPE_DESPAWN_X {
                    kept.push(moved);
                }
                if moved.x == 0 && moved.pipe == Pipe::Top {
                    *score = score.saturating_add(1);
                }
                i = i + 1;
            }
            assert(ps.take(ps.len() as int) =~= ps);
            self.pipes = kept;
        } else if game_state == GameStates::PreGame {
            self.pipes = Vec::new();
        }
    }
}

} // verus!
