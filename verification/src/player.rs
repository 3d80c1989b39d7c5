use vstd::prelude::*;
use crate::SCREEN_WIDTH;

verus! {

/// Gravity added to the vertical velocity each simulation step, in tenths of
/// a cell per step.
pub const GRAVITY_TENTHS: i32 = 2;

/// Upper cap on the falling velocity, in tenths of a cell per step
/// (2.0 cells per step).
pub const VELOCITY_CAP_TENTHS: i32 = 20;

/// Velocity set by a boost, in tenths of a cell per step
/// (-2.0 cells per step).
pub const FLAP_VELOCITY_TENTHS: i32 = -20;

/// The controllable entity. `x` is the distance traveled through the world
/// (one column per simulation step); `x + location` is its world column.
/// `y` grows downward and is clamped to stay nonnegative. The vertical
/// velocity is kept in tenths of a cell per step, so every value the physics
/// can produce is represented exactly.
#[derive(Clone, Copy, Debug, PartialEq, Eq, Structural)]
pub struct Player {
    pub x: i32,
    pub y: i32,
    /// Horizontal render column, clamped to the visible width.
    pub location: i32,
    /// Vertical velocity in tenths of a cell per simulation step.
    pub velocity: i32,
}

/// Velocity after one step of gravity: grows by the gravity increment until
/// it reaches the falling cap.
pub open spec fn next_velocity(v: int) -> int {
    if v < VELOCITY_CAP_TENTHS {
        v + GRAVITY_TENTHS
    } else {
        v
    }
}

/// Rounding of a velocity in tenths to whole cells, half away from zero,
/// matching how the per-step vertical displacement is taken.
pub open spec fn round_tenths(v: int) -> int {
    if v >= 0 {
        (v + 5) / 10
    } else {
        -((-v + 5) / 10)
    }
}

/// Vertical position clamped to the top of the playfield.
pub open spec fn clamped_down(y: int) -> int {
    if y < 0 {
        0
    } else {
        y
    }
}

/// Vertical position after one simulation step from height `y` with
/// velocity `v`: gravity acts first, then the rounded velocity is added and
/// the result is clamped to stay nonnegative.
pub open spec fn next_y(y: int, v: int) -> int {
    clamped_down(y + round_tenths(next_velocity(v)))
}

/// Horizontal render column clamped to the visible width.
pub open spec fn clamped_location(l: int) -> int {
    if l < 0 {
        0
    } else if l > SCREEN_WIDTH - 1 {
        SCREEN_WIDTH - 1
    } else {
        l
    }
}

impl Player {
    /// Validity of an entity: never above the top of the field, render column
    /// on screen, velocity within the cap and an even number of tenths (the
    /// physics only ever produces even tenths).
    pub open spec fn wf(self) -> bool {
        &&& 0 <= self.x
        &&& 0 <= self.y
        &&& 0 <= self.location <= SCREEN_WIDTH - 1
        &&& -VELOCITY_CAP_TENTHS <= self.velocity <= VELOCITY_CAP_TENTHS
        &&& self.velocity % 2 == 0
    }

    pub fn new(location: i32) -> (p: Player)
        ensures
            p.x == 0,
            p.y == 0,
            p.location == location,
            p.velocity == 0,
            0 <= location <= SCREEN_WIDTH - 1 ==> p.wf(),
    {
        Player { x: 0, y: 0, location, velocity: 0 }
    }

    /// One physics step: gravity, vertical displacement by the rounded
    /// velocity, clamp to the top of the field, advance one world column.
    pub fn update(&mut self)
        requires
            old(self).wf(),
            old(self).x < i32::MAX,
            old(self).y + 2 <= i32::MAX,
        ensures
            final(self).velocity == next_velocity(old(self).velocity as int),
            final(self).x == old(self).x + 1,
            final(self).y == next_y(old(self).y as int, old(self).velocity as int),
            final(self).location == old(self).location,
            final(self).y >= 0,
            final(self).wf(),
    {
        if self.velocity < VELOCITY_CAP_TENTHS {
            self.velocity = self.velocity + GRAVITY_TENTHS;
        }
        let dy = round_velocity(self.velocity);
        self.y = self.y + dy;
        self.x = self.x + 1;
        if self.y < 0 {
            self.y = 0;
        }
    }

    /// A boost: the vertical velocity is set to the fixed negative value,
    /// whatever it was before.
    pub fn flap(&mut self)
        ensures
            final(self).velocity == FLAP_VELOCITY_TENTHS,
            final(self).x == old(self).x,
            final(self).y == old(self).y,
            final(self).location == old(self).location,
            old(self).wf() ==> final(self).wf(),
    {
        self.velocity = FLAP_VELOCITY_TENTHS;
    }

    /// Horizontal move: adds `value` to the render column and clamps it to
    /// the visible width.
    pub fn movement(&mut self, value: i32)
        requires
            i32::MIN <= old(self).location + value <= i32::MAX,
        ensures
            final(self).location == clamped_location(old(self).location + value),
            final(self).x == old(self).x,
            final(self).y == old(self).y,
            final(self).velocity == old(self).velocity,
            old(self).wf() ==> final(self).wf(),
    {
        self.location = self.location + value;
        if self.location < 0 {
            self.location = 0;
        } else if self.location > SCREEN_WIDTH - 1 {
            self.location = SCREEN_WIDTH - 1;
        }
    }
}

/// The velocity after `n` steps of gravity from `v0`, in tenths.
pub open spec fn velocity_after(v0: int, n: nat) -> int
    decreases n,
{
    if n == 0 {
        v0
    } else {
        next_velocity(velocity_after(v0, (n - 1) as nat))
    }
}

/// One simulation step never lifts the entity above the top of the field:
/// whatever the height and velocity before the step, the height after it is
/// nonnegative.
pub proof fn lemma_step_keeps_entity_on_screen(y: int, v: int)
    ensures
        next_y(y, v) >= 0,
{
}

/// The falling velocity never exceeds the cap: from any velocity the
/// physics can produce, one more step of gravity stays within the cap (and
/// the velocity stays an even number of tenths).
pub proof fn lemma_velocity_never_exceeds_cap(v: int)
    requires
        -VELOCITY_CAP_TENTHS <= v <= VELOCITY_CAP_TENTHS,
        v % 2 == 0,
    ensures
        -VELOCITY_CAP_TENTHS <= next_velocity(v) <= VELOCITY_CAP_TENTHS,
        next_velocity(v) % 2 == 0,
{
}

/// After a boost the velocity is exactly -2.0 cells per step; each further
/// step adds 0.2 until the falling cap of 2.0 is reached, after which it
/// stays at the cap.
pub proof fn lemma_velocity_profile_after_flap(n: nat)
    ensures
        velocity_after(FLAP_VELOCITY_TENTHS as int, n) == if n < 20 {
            FLAP_VELOCITY_TENTHS + 2 * n
        } else {
            VELOCITY_CAP_TENTHS as int
        },
    decreases n,
{
    if n > 0 {
        lemma_velocity_profile_after_flap((n - 1) as nat);
    }
}

/// Rounding of a velocity in tenths to whole cells, half away from zero.
fn round_velocity(v: i32) -> (r: i32)
    requires
        -VELOCITY_CAP_TENTHS <= v <= VELOCITY_CAP_TENTHS,
    ensures
        r == round_tenths(v as int),
        -2 <= r <= 2,
{
    if v >= 0 {
        (v + 5) / 10
    } else {
        -((-v + 5) / 10)
    }
}

} // verus!
