use vstd::prelude::*;
use crate::player::Player;
use crate::rng::rng_range;
use crate::SCREEN_HEIGHT;

verus! {

/// Lowest row (inclusive) from which an obstacle's gap center is drawn.
pub const GAP_CENTER_MIN: i32 = 10;

/// Row one past the highest the gap center can take.
pub const GAP_CENTER_MAX: i32 = 40;

/// Smallest gap an obstacle can have, in rows.
pub const MIN_GAP_SIZE: i32 = 2;

/// A wall with a vertical gap, anchored at world column `x`. Immutable after
/// creation.
#[derive(Clone, Copy, Debug, PartialEq, Eq, Structural)]
pub struct Obstacle {
    pub x: i32,
    /// Row at the middle of the gap.
    pub mid_gap: i32,
    /// Total rows the gap spans.
    pub size: i32,
}

/// The sole difficulty curve: the gap shrinks by one row per four points of
/// score, floored at the minimum size.
pub open spec fn gap_size(score: int) -> int {
    if 25 - score / 4 < MIN_GAP_SIZE {
        MIN_GAP_SIZE as int
    } else {
        25 - score / 4
    }
}

/// Whether the entity hits the obstacle: only at the one world column that
/// equals the obstacle's anchor, and only when its height lies strictly
/// outside the gap.
pub open spec fn hits(o: Obstacle, p: Player) -> bool {
    &&& p.x + p.location == o.x
    &&& (p.y < o.mid_gap - o.size / 2 || p.y > o.mid_gap + o.size / 2)
}

impl Obstacle {
    /// Validity of an obstacle: gap center within its drawing range, gap size
    /// between the floor and the largest the difficulty curve produces.
    pub open spec fn wf(self) -> bool {
        &&& GAP_CENTER_MIN <= self.mid_gap < GAP_CENTER_MAX
        &&& MIN_GAP_SIZE <= self.size <= 25
    }

    /// Builds an obstacle from an already-drawn gap center, so creation is
    /// deterministic and the random draw is supplied by the caller.
    pub fn new(x: i32, score: i32, mid_gap: i32) -> (o: Obstacle)
        requires
            0 <= score,
            GAP_CENTER_MIN <= mid_gap < GAP_CENTER_MAX,
        ensures
            o.x == x,
            o.mid_gap == mid_gap,
            o.size == gap_size(score as int),
            o.wf(),
    {
        let shrunk = 25 - score / 4;
        let size = if shrunk < MIN_GAP_SIZE {
            MIN_GAP_SIZE
        } else {
            shrunk
        };
        Obstacle { x, mid_gap, size }
    }

    /// Creates an obstacle at world column `x` for the given difficulty
    /// score, drawing the gap center from the injected generator.
    pub fn generate(
        x: i32,
        score: i32,
        rng: &mut bracket_lib::random::RandomNumberGenerator,
    ) -> (o: Obstacle)
        requires
            0 <= score,
        ensures
            o.x == x,
            GAP_CENTER_MIN <= o.mid_gap < GAP_CENTER_MAX,
            o.size == gap_size(score as int),
            o.wf(),
    {
        let mid_gap = rng_range(rng, GAP_CENTER_MIN, GAP_CENTER_MAX);
        Obstacle::new(x, score, mid_gap)
    }

    /// The collision judgment: exact, one world column wide.
    pub fn judge(&self, player: &Player) -> (r: bool)
        requires
            self.wf(),
            player.x + player.location <= i32::MAX,
            i32::MIN <= player.x + player.location,
        ensures
            r == hits(*self, *player),
    {
        let half_size = self.size / 2;
        player.x + player.location == self.x
            && ((player.y < self.mid_gap - half_size) || (player.y > self.mid_gap + half_size))
    }

    /// Whether screen row `y` is covered by the obstacle's wall when it is
    /// rendered: every visible row except those inside the gap.
    pub fn is_wall_row(&self, y: i32) -> (r: bool)
        requires
            self.wf(),
            0 <= y <= SCREEN_HEIGHT,
        ensures
            r == (y < self.mid_gap - self.size / 2 || y >= self.mid_gap + self.size / 2),
    {
        let half_size = self.size / 2;
        y < self.mid_gap - half_size || y >= self.mid_gap + half_size
    }

    /// The column at which the obstacle stands on screen, relative to the
    /// distance the entity has traveled.
    pub fn screen_x(&self, player_x: i32) -> (r: i32)
        requires
            i32::MIN <= self.x - player_x <= i32::MAX,
        ensures
            r == self.x - player_x,
    {
        self.x - player_x
    }
}

/// A collision is positionally exact: an entity whose world column (distance
/// traveled plus lane offset) differs from the obstacle's anchor column never
/// hits it, whatever its height.
pub proof fn lemma_hit_needs_alignment(o: Obstacle, p: Player)
    requires
        p.x + p.location != o.x,
    ensures
        !hits(o, p),
{
}

} // verus!
