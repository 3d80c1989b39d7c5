use vstd::prelude::*;
use crate::obstacle::{gap_size, hits, Obstacle, GAP_CENTER_MAX, GAP_CENTER_MIN};
use crate::player::{
    clamped_location, next_velocity, next_y, Player, FLAP_VELOCITY_TENTHS,
};
use crate::{FRAME_DURATION_MS, SCREEN_HEIGHT, SCREEN_WIDTH};
use bracket_lib::random::RandomNumberGenerator;

verus! {

/// The game mode: exactly one is active at a time; all run data lives in the
/// `State` and persists across Play and Pausing.
#[derive(Clone, Copy, Debug, PartialEq, Eq, Structural)]
pub enum Mode {
    Menu,
    Play,
    Pausing,
    Ending,
}

/// The discrete key event a frame can carry, named after the key pressed;
/// each mode gives the keys it handles their own meaning.
#[derive(Clone, Copy, Debug, PartialEq, Eq, Structural)]
pub enum Key {
    P,
    Q,
    Space,
    A,
    D,
    C,
    R,
}

/// The whole game: the entity, the in-flight obstacles (oldest first), the
/// score, the accumulated frame time in milliseconds, and the active mode.
#[derive(Debug)]
pub struct State {
    pub player: Player,
    pub obstacles: Vec<Obstacle>,
    pub score: i32,
    /// Sub-frame time budget, in milliseconds.
    pub time: i32,
    pub mode: Mode,
}

/// Whether the entity hits any obstacle of the sequence.
pub open spec fn hit_any(p: Player, obs: Seq<Obstacle>) -> bool {
    exists|i: int| 0 <= i < obs.len() && hits(obs[i], p)
}

/// The failure condition of a run: the entity left the visible field below,
/// or it hit an obstacle.
pub open spec fn run_failed(p: Player, obs: Seq<Obstacle>) -> bool {
    p.y > SCREEN_HEIGHT || hit_any(p, obs)
}

/// The run data (everything but the mode) of the two states is the same.
pub open spec fn same_run(a: State, b: State) -> bool {
    &&& a.player == b.player
    &&& a.obstacles@ == b.obstacles@
    &&& a.score == b.score
    &&& a.time == b.time
}

/// A freshly started run: score and timer cleared, the entity at its spawn,
/// and four obstacles at the fixed initial world offsets with difficulty
/// parameters 0 through 3.
pub open spec fn fresh_run(s: State) -> bool {
    &&& s.mode == Mode::Play
    &&& s.score == 0
    &&& s.time == 0
    &&& s.player == (Player { x: 0, y: 0, location: 0, velocity: 0 })
    &&& s.obstacles@.len() == 4
    &&& forall|i: int|
        0 <= i < 4 ==> (#[trigger] s.obstacles@[i]).x == SCREEN_WIDTH + i * (SCREEN_WIDTH / 4)
    &&& forall|i: int| 0 <= i < 4 ==> (#[trigger] s.obstacles@[i]).size == gap_size(i)
    &&& forall|i: int|
        0 <= i < 4 ==> GAP_CENTER_MIN <= (#[trigger] s.obstacles@[i]).mid_gap < GAP_CENTER_MAX
}

/// What one simulation step does to the run data, leaving the timer aside:
/// the entity steps, the head obstacle scores if the entity has passed it (a
/// fresh obstacle then joins at the far end, one screen ahead, with the
/// lookahead difficulty), and the mode becomes Ending exactly when the
/// failure condition holds of the stepped state.
pub open spec fn advance_core_rel(pre: State, post: State) -> bool {
    &&& post.player.velocity == next_velocity(pre.player.velocity as int)
    &&& post.player.x == pre.player.x + 1
    &&& post.player.y == next_y(pre.player.y as int, pre.player.velocity as int)
    &&& post.player.location == pre.player.location
    &&& if pre.player.x + 1 > pre.obstacles@[0].x {
        &&& post.score == pre.score + 1
        &&& post.obstacles@.len() == pre.obstacles@.len()
        &&& post.obstacles@.drop_last() == pre.obstacles@.drop_first()
        &&& post.obstacles@.last().x == pre.player.x + 1 + SCREEN_WIDTH
        &&& post.obstacles@.last().size == gap_size(pre.score + 4)
        &&& GAP_CENTER_MIN <= post.obstacles@.last().mid_gap < GAP_CENTER_MAX
    } else {
        &&& post.score == pre.score
        &&& post.obstacles@ == pre.obstacles@
    }
    &&& post.mode == (if run_failed(post.player, post.obstacles@) {
        Mode::Ending
    } else {
        Mode::Play
    })
}

/// The timer half of a Play frame: the elapsed milliseconds accumulate, and
/// once they pass the threshold the budget resets and one simulation step
/// runs; otherwise the run data is untouched.
pub open spec fn step_phase(pre: State, frame_time_ms: int, mid: State) -> bool {
    if pre.time + frame_time_ms > FRAME_DURATION_MS {
        &&& mid.time == 0
        &&& advance_core_rel(pre, mid)
    } else {
        &&& mid.player == pre.player
        &&& mid.obstacles@ == pre.obstacles@
        &&& mid.score == pre.score
        &&& mid.mode == pre.mode
        &&& mid.time == pre.time + frame_time_ms
    }
}

/// The entity after a boost.
pub open spec fn flapped_player(p: Player) -> Player {
    Player { x: p.x, y: p.y, location: p.location, velocity: FLAP_VELOCITY_TENTHS }
}

/// The entity after a lateral move by `delta`, clamped to the visible width.
pub open spec fn moved_player(p: Player, delta: int) -> Player {
    Player {
        x: p.x,
        y: p.y,
        location: clamped_location(p.location + delta) as i32,
        velocity: p.velocity,
    }
}

/// What the Play-mode key handling does: boost, lateral moves, pause, quit;
/// any other event leaves the state alone.
pub open spec fn play_key_rel(pre: State, key: Option<Key>, post: State, quit: bool) -> bool {
    match key {
        Option::Some(Key::Space) => {
            &&& !quit
            &&& post.player == flapped_player(pre.player)
            &&& post.obstacles@ == pre.obstacles@
            &&& post.score == pre.score
            &&& post.time == pre.time
            &&& post.mode == pre.mode
        },
        Option::Some(Key::D) => {
            &&& !quit
            &&& post.player == moved_player(pre.player, 1)
            &&& post.obstacles@ == pre.obstacles@
            &&& post.score == pre.score
            &&& post.time == pre.time
            &&& post.mode == pre.mode
        },
        Option::Some(Key::A) => {
            &&& !quit
            &&& post.player == moved_player(pre.player, -1)
            &&& post.obstacles@ == pre.obstacles@
            &&& post.score == pre.score
            &&& post.time == pre.time
            &&& post.mode == pre.mode
        },
        Option::Some(Key::P) => {
            &&& !quit
            &&& post.mode == Mode::Pausing
            &&& same_run(pre, post)
        },
        Option::Some(Key::Q) => {
            &&& quit
            &&& post == pre
        },
        _ => {
            &&& !quit
            &&& post == pre
        },
    }
}

/// What the Menu key handling does: start a fresh run, or quit.
pub open spec fn menu_key_rel(pre: State, key: Option<Key>, post: State, quit: bool) -> bool {
    match key {
        Option::Some(Key::P) => !quit && fresh_run(post),
        Option::Some(Key::Q) => quit && post == pre,
        _ => !quit && post == pre,
    }
}

/// What the Pausing key handling does: continue the frozen run, restart
/// fresh, or go back to the menu with the run data kept.
pub open spec fn pausing_key_rel(pre: State, key: Option<Key>, post: State, quit: bool) -> bool {
    match key {
        Option::Some(Key::C) => !quit && post.mode == Mode::Play && same_run(pre, post),
        Option::Some(Key::R) => !quit && fresh_run(post),
        Option::Some(Key::Q) => !quit && post.mode == Mode::Menu && same_run(pre, post),
        _ => !quit && post == pre,
    }
}

/// What the Ending key handling does: play again from a fresh run, or go
/// back to the menu.
pub open spec fn ending_key_rel(pre: State, key: Option<Key>, post: State, quit: bool) -> bool {
    match key {
        Option::Some(Key::P) => !quit && fresh_run(post),
        Option::Some(Key::Q) => !quit && post.mode == Mode::Menu && same_run(pre, post),
        _ => !quit && post == pre,
    }
}

impl State {
    /// Validity of the whole game state: a valid entity, a nonnegative
    /// score, a timer within its budget, valid obstacles, and exactly four
    /// obstacles whenever a run exists (every mode but the menu).
    pub open spec fn wf(self) -> bool {
        &&& self.player.wf()
        &&& 0 <= self.score
        &&& 0 <= self.time <= FRAME_DURATION_MS
        &&& forall|i: int| 0 <= i < self.obstacles@.len() ==> (#[trigger] self.obstacles@[i]).wf()
        &&& self.mode != Mode::Menu ==> self.obstacles@.len() == 4
    }

    pub fn new() -> (s: State)
        ensures
            s.mode == Mode::Menu,
            s.score == 0,
            s.time == 0,
            s.obstacles@.len() == 0,
            s.player == (Player { x: 0, y: 0, location: 0, velocity: 0 }),
            s.wf(),
    {
        State {
            player: Player::new(0),
            obstacles: Vec::new(),
            score: 0,
            time: 0,
            mode: Mode::Menu,
        }
    }

    /// A fresh start: score and timer cleared, the entity respawned, and the
    /// obstacle sequence repopulated with four obstacles at the fixed
    /// initial offsets, whatever the state held before.
    pub fn start(&mut self, rng: &mut RandomNumberGenerator)
        ensures
            fresh_run(*final(self)),
            final(self).wf(),
    {
        self.player = Player::new(0);
        self.score = 0;
        self.time = 0;
        self.mode = Mode::Play;
        self.obstacles.clear();
        let ob0 = Obstacle::generate(SCREEN_WIDTH, self.score, rng);
        self.obstacles.push(ob0);
        let ob1 = Obstacle::generate(SCREEN_WIDTH / 4 * 5, self.score + 1, rng);
        self.obstacles.push(ob1);
        let ob2 = Obstacle::generate(SCREEN_WIDTH / 2 * 3, self.score + 2, rng);
        self.obstacles.push(ob2);
        let ob3 = Obstacle::generate(SCREEN_WIDTH / 4 * 7, self.score + 3, rng);
        self.obstacles.push(ob3);
    }

    /// Freezes the run: only the mode changes.
    pub fn pause(&mut self)
        ensures
            final(self).mode == Mode::Pausing,
            same_run(*old(self), *final(self)),
            old(self).wf() && old(self).obstacles@.len() == 4 ==> final(self).wf(),
    {
        self.mode = Mode::Pausing;
    }

    /// Resumes the frozen run: only the mode changes.
    pub fn continue_(&mut self)
        ensures
            final(self).mode == Mode::Play,
            same_run(*old(self), *final(self)),
            old(self).wf() && old(self).obstacles@.len() == 4 ==> final(self).wf(),
    {
        self.mode = Mode::Play;
    }

    /// One simulation step: entity physics, the scoring check against the
    /// head obstacle, and the failure check against the field and every
    /// obstacle. The timer is not touched.
    pub fn advance(&mut self, rng: &mut RandomNumberGenerator)
        requires
            old(self).wf(),
            old(self).mode == Mode::Play,
            old(self).player.x + SCREEN_WIDTH < i32::MAX,
            old(self).player.y + 2 <= i32::MAX,
            old(self).score + 4 <= i32::MAX,
        ensures
            advance_core_rel(*old(self), *final(self)),
            final(self).time == old(self).time,
            final(self).wf(),
    {
        self.player.update();
        if self.player.x > self.obstacles[0].x {
            self.score = self.score + 1;
            self.obstacles.remove(0);
            let ob = Obstacle::generate(self.player.x + SCREEN_WIDTH, self.score + 3, rng);
            self.obstacles.push(ob);
            proof {
                assert(self.obstacles@.drop_last() =~= old(self).obstacles@.drop_first());
                assert forall|i: int|
                    0 <= i < self.obstacles@.len() implies (#[trigger] self.obstacles@[i]).wf() by {
                    if i < self.obstacles@.len() - 1 {
                        assert(self.obstacles@[i] == old(self).obstacles@[i + 1]);
                    }
                }
            }
        }
        let is_end = self.player.y > SCREEN_HEIGHT || any_hit(&self.obstacles, &self.player);
        if is_end {
            self.mode = Mode::Ending;
        }
    }

    /// The Play-mode frame: the elapsed time accumulates and at most one
    /// simulation step runs, then the frame's key event is handled.
    pub fn play(
        &mut self,
        frame_time_ms: i32,
        key: Option<Key>,
        rng: &mut RandomNumberGenerator,
    ) -> (quit: bool)
        requires
            old(self).wf(),
            old(self).mode == Mode::Play,
            0 <= frame_time_ms,
            old(self).time + frame_time_ms <= i32::MAX,
            old(self).player.x + SCREEN_WIDTH < i32::MAX,
            old(self).player.y + 2 <= i32::MAX,
            old(self).score + 4 <= i32::MAX,
        ensures
            final(self).wf(),
            exists|mid: State|
                #[trigger] step_phase(*old(self), frame_time_ms as int, mid)
                    && play_key_rel(mid, key, *final(self), quit),
    {
        self.time = self.time + frame_time_ms;
        if self.time > FRAME_DURATION_MS {
            self.time = 0;
            self.advance(rng);
        }
        let ghost mid = *self;
        let quit = self.play_key_callback(key);
        proof {
            assert(step_phase(*old(self), frame_time_ms as int, mid));
            assert(play_key_rel(mid, key, *self, quit));
        }
        quit
    }

    /// Key handling of the menu: start a run or quit.
    pub fn menu_key_callback(
        &mut self,
        key: Option<Key>,
        rng: &mut RandomNumberGenerator,
    ) -> (quit: bool)
        requires
            old(self).wf(),
        ensures
            final(self).wf(),
            menu_key_rel(*old(self), key, *final(self), quit),
    {
        match key {
            Option::Some(Key::P) => {
                self.start(rng);
                false
            },
            Option::Some(Key::Q) => true,
            _ => false,
        }
    }

    /// Key handling of active play: boost, lateral moves, pause, quit.
    pub fn play_key_callback(&mut self, key: Option<Key>) -> (quit: bool)
        requires
            old(self).wf(),
            old(self).mode != Mode::Menu,
        ensures
            final(self).wf(),
            play_key_rel(*old(self), key, *final(self), quit),
    {
        match key {
            Option::Some(Key::Space) => {
                self.player.flap();
                false
            },
            Option::Some(Key::D) => {
                self.player.movement(1);
                false
            },
            Option::Some(Key::A) => {
                self.player.movement(-1);
                false
            },
            Option::Some(Key::P) => {
                self.pause();
                false
            },
            Option::Some(Key::Q) => true,
            _ => false,
        }
    }

    /// Key handling of the pause screen: continue, restart, or back to the
    /// menu.
    pub fn pausing_key_callback(
        &mut self,
        key: Option<Key>,
        rng: &mut RandomNumberGenerator,
    ) -> (quit: bool)
        requires
            old(self).wf(),
            old(self).mode == Mode::Pausing,
        ensures
            final(self).wf(),
            pausing_key_rel(*old(self), key, *final(self), quit),
    {
        match key {
            Option::Some(Key::C) => {
                self.continue_();
                false
            },
            Option::Some(Key::R) => {
                self.start(rng);
                false
            },
            Option::Some(Key::Q) => {
                self.mode = Mode::Menu;
                false
            },
            _ => false,
        }
    }

    /// Key handling of the end screen: play again or back to the menu.
    pub fn ending_key_callback(
        &mut self,
        key: Option<Key>,
        rng: &mut RandomNumberGenerator,
    ) -> (quit: bool)
        requires
            old(self).wf(),
        ensures
            final(self).wf(),
            ending_key_rel(*old(self), key, *final(self), quit),
    {
        match key {
            Option::Some(Key::P) => {
                self.start(rng);
                false
            },
            Option::Some(Key::Q) => {
                self.mode = Mode::Menu;
                false
            },
            _ => false,
        }
    }

    /// One frame: dispatches to the active mode's handler. Returns whether
    /// the driver was asked to shut down.
    pub fn tick(
        &mut self,
        frame_time_ms: i32,
        key: Option<Key>,
        rng: &mut RandomNumberGenerator,
    ) -> (quit: bool)
        requires
            old(self).wf(),
            0 <= frame_time_ms,
            old(self).time + frame_time_ms <= i32::MAX,
            old(self).player.x + SCREEN_WIDTH < i32::MAX,
            old(self).player.y + 2 <= i32::MAX,
            old(self).score + 4 <= i32::MAX,
        ensures
            final(self).wf(),
            old(self).mode == Mode::Menu ==> menu_key_rel(*old(self), key, *final(self), quit),
            old(self).mode == Mode::Play ==> exists|mid: State|
                #[trigger] step_phase(*old(self), frame_time_ms as int, mid)
                    && play_key_rel(mid, key, *final(self), quit),
            old(self).mode == Mode::Pausing ==> pausing_key_rel(
                *old(self),
                key,
                *final(self),
                quit,
            ),
            old(self).mode == Mode::Ending ==> ending_key_rel(*old(self), key, *final(self), quit),
    {
        match self.mode {
            Mode::Menu => self.menu_key_callback(key, rng),
            Mode::Play => self.play(frame_time_ms, key, rng),
            Mode::Pausing => self.pausing_key_callback(key, rng),
            Mode::Ending => self.ending_key_callback(key, rng),
        }
    }
}

/// Whether the entity hits any obstacle of the sequence, judged one obstacle
/// at a time exactly as the failure check does.
fn any_hit(obstacles: &Vec<Obstacle>, player: &Player) -> (r: bool)
    requires
        forall|i: int| 0 <= i < obstacles@.len() ==> (#[trigger] obstacles@[i]).wf(),
        i32::MIN <= player.x + player.location <= i32::MAX,
    ensures
        r == hit_any(*player, obstacles@),
{
    let mut found = false;
    let n = obstacles.len();
    let mut i: usize = 0;
    while i < n
        invariant
            i <= n,
            n == obstacles@.len(),
            forall|j: int| 0 <= j < obstacles@.len() ==> (#[trigger] obstacles@[j]).wf(),
            i32::MIN <= player.x + player.location <= i32::MAX,
            found == (exists|j: int| 0 <= j < i && hits(obstacles@[j], *player)),
        decreases n - i,
    {
        let ob = obstacles[i];
        if ob.judge(player) {
            found = true;
        }
        i = i + 1;
    }
    found
}

/// Throughout active play the obstacle sequence keeps exactly four
/// obstacles: a simulation step, whether or not it scores, leaves the
/// length at four.
pub proof fn lemma_obstacle_count_invariant(pre: State, post: State)
    requires
        pre.wf(),
        pre.mode == Mode::Play,
        advance_core_rel(pre, post),
    ensures
        post.obstacles@.len() == 4,
{
}

} // verus!
