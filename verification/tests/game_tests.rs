use bracket_lib::random::RandomNumberGenerator;
use flappy_core::{Key, Mode, Obstacle, State};

fn fresh(seed: u64) -> (State, RandomNumberGenerator) {
    let mut rng = RandomNumberGenerator::seeded(seed);
    let mut s = State::new();
    s.start(&mut rng);
    (s, rng)
}

/// Steps the run once while keeping the entity aloft and steering it past
/// the head obstacle's collision column.
fn survive_one_step(s: &mut State, rng: &mut RandomNumberGenerator) {
    if s.player.x + 1 + s.player.location == s.obstacles[0].x {
        // The next step would align with the head obstacle: sidestep.
        s.tick(0, Some(Key::D), rng);
    }
    // Boost so the entity hugs the top instead of falling out.
    s.tick(0, Some(Key::Space), rng);
    // Enough elapsed time for exactly one simulation step.
    s.tick(51, None, rng);
}

#[test]
fn new_state_is_menu() {
    let s = State::new();
    assert_eq!(s.mode, Mode::Menu);
    assert_eq!(s.score, 0);
    assert_eq!(s.time, 0);
    assert_eq!(s.obstacles.len(), 0);
    assert_eq!(s.player.x, 0);
    assert_eq!(s.player.y, 0);
}

#[test]
fn start_scenario() {
    let (s, _) = fresh(1);
    assert_eq!(s.mode, Mode::Play);
    assert_eq!(s.score, 0);
    assert_eq!(s.time, 0);
    assert_eq!(s.obstacles.len(), 4);
    let xs: Vec<i32> = s.obstacles.iter().map(|o| o.x).collect();
    assert_eq!(xs, vec![80, 100, 120, 140]);
    // Difficulty parameters 0 through 3 all give the full starting gap.
    for ob in &s.obstacles {
        assert_eq!(ob.size, 25);
        assert!(ob.mid_gap >= 10 && ob.mid_gap < 40);
    }
}

#[test]
fn menu_keys() {
    let mut rng = RandomNumberGenerator::seeded(2);
    let mut s = State::new();
    let quit = s.tick(16, Some(Key::Q), &mut rng);
    assert!(quit);
    assert_eq!(s.mode, Mode::Menu);
    let quit = s.tick(16, None, &mut rng);
    assert!(!quit);
    assert_eq!(s.mode, Mode::Menu);
    let quit = s.tick(16, Some(Key::P), &mut rng);
    assert!(!quit);
    assert_eq!(s.mode, Mode::Play);
}

#[test]
fn no_step_until_threshold_passes() {
    let (mut s, mut rng) = fresh(3);
    let quit = s.tick(50, None, &mut rng);
    assert!(!quit);
    // 50 ms accumulated does not pass the strict threshold: no step.
    assert_eq!(s.player.x, 0);
    assert_eq!(s.time, 50);
    let _ = s.tick(1, None, &mut rng);
    // One more millisecond passes it: exactly one step, budget reset.
    assert_eq!(s.player.x, 1);
    assert_eq!(s.time, 0);
    // Excess time is discarded, not carried over: a huge frame still gives
    // one step.
    let _ = s.tick(100000, None, &mut rng);
    assert_eq!(s.player.x, 2);
    assert_eq!(s.time, 0);
}

#[test]
fn scoring_scenario() {
    let (mut s, mut rng) = fresh(4);
    let mut steps = 0;
    while s.score == 0 {
        survive_one_step(&mut s, &mut rng);
        assert_eq!(s.mode, Mode::Play);
        // The obstacle sequence length is invariant at four.
        assert_eq!(s.obstacles.len(), 4);
        steps += 1;
        assert!(steps <= 100);
    }
    // Passing the first obstacle (anchored at 80) scores exactly one point.
    assert_eq!(s.score, 1);
    assert_eq!(s.player.x, 81);
    assert_eq!(s.obstacles.len(), 4);
    // The head moved on and a fresh obstacle joined one screen ahead.
    assert_eq!(s.obstacles[0].x, 100);
    assert_eq!(s.obstacles[3].x, s.player.x + 80);
}

#[test]
fn pause_and_continue_keep_the_run_intact() {
    let (mut s, mut rng) = fresh(5);
    for _ in 0..5 {
        survive_one_step(&mut s, &mut rng);
    }
    let player_before = s.player;
    let obstacles_before: Vec<Obstacle> = s.obstacles.clone();
    let score_before = s.score;
    let time_before = s.time;

    let quit = s.tick(0, Some(Key::P), &mut rng);
    assert!(!quit);
    assert_eq!(s.mode, Mode::Pausing);
    // No steps occur while paused, whatever time passes.
    for _ in 0..10 {
        let _ = s.tick(10000, None, &mut rng);
        assert_eq!(s.mode, Mode::Pausing);
    }
    let quit = s.tick(10000, Some(Key::C), &mut rng);
    assert!(!quit);
    assert_eq!(s.mode, Mode::Play);
    assert_eq!(s.player, player_before);
    assert_eq!(s.obstacles, obstacles_before);
    assert_eq!(s.score, score_before);
    assert_eq!(s.time, time_before);
}

#[test]
fn pause_restart_gives_a_fresh_run() {
    let (mut s, mut rng) = fresh(6);
    for _ in 0..5 {
        survive_one_step(&mut s, &mut rng);
    }
    let _ = s.tick(0, Some(Key::P), &mut rng);
    assert_eq!(s.mode, Mode::Pausing);
    let _ = s.tick(0, Some(Key::R), &mut rng);
    assert_eq!(s.mode, Mode::Play);
    assert_eq!(s.score, 0);
    assert_eq!(s.player.x, 0);
    assert_eq!(s.player.y, 0);
    assert_eq!(s.obstacles.len(), 4);
    assert_eq!(s.obstacles[0].x, 80);
}

#[test]
fn pause_back_to_menu_keeps_run_data() {
    let (mut s, mut rng) = fresh(7);
    for _ in 0..3 {
        survive_one_step(&mut s, &mut rng);
    }
    let x_before = s.player.x;
    let _ = s.tick(0, Some(Key::P), &mut rng);
    let _ = s.tick(0, Some(Key::Q), &mut rng);
    assert_eq!(s.mode, Mode::Menu);
    assert_eq!(s.player.x, x_before);
}

#[test]
fn falling_out_of_the_field_ends_the_run() {
    let (mut s, mut rng) = fresh(8);
    let mut frames = 0;
    while s.mode == Mode::Play {
        let _ = s.tick(51, None, &mut rng);
        frames += 1;
        assert!(frames <= 100);
    }
    assert_eq!(s.mode, Mode::Ending);
    // The run ended by leaving the field below, with no obstacle in play:
    // the entity never reached the first obstacle's column.
    assert!(s.player.y > 50);
    assert!(s.player.x < 80);
    assert_eq!(s.score, 0);
}

#[test]
fn play_again_resets_regardless_of_score() {
    let (mut s, mut rng) = fresh(9);
    while s.mode == Mode::Play {
        let _ = s.tick(51, None, &mut rng);
    }
    assert_eq!(s.mode, Mode::Ending);
    // Whatever score the run reached, playing again resets everything.
    s.score = 777;
    let quit = s.tick(0, Some(Key::P), &mut rng);
    assert!(!quit);
    assert_eq!(s.mode, Mode::Play);
    assert_eq!(s.score, 0);
    assert_eq!(s.time, 0);
    assert_eq!(s.player.x, 0);
    assert_eq!(s.player.y, 0);
    assert_eq!(s.player.location, 0);
    assert_eq!(s.player.velocity, 0);
    assert_eq!(s.obstacles.len(), 4);
    assert_eq!(s.obstacles[0].x, 80);
}

#[test]
fn ending_back_to_menu() {
    let (mut s, mut rng) = fresh(10);
    while s.mode == Mode::Play {
        let _ = s.tick(51, None, &mut rng);
    }
    let score_before = s.score;
    let quit = s.tick(0, Some(Key::Q), &mut rng);
    assert!(!quit);
    assert_eq!(s.mode, Mode::Menu);
    assert_eq!(s.score, score_before);
}

#[test]
fn quit_during_play() {
    let (mut s, mut rng) = fresh(11);
    let quit = s.tick(0, Some(Key::Q), &mut rng);
    assert!(quit);
    assert_eq!(s.mode, Mode::Play);
}

#[test]
fn lateral_keys_move_the_entity() {
    let (mut s, mut rng) = fresh(12);
    let _ = s.tick(0, Some(Key::D), &mut rng);
    assert_eq!(s.player.location, 1);
    let _ = s.tick(0, Some(Key::D), &mut rng);
    assert_eq!(s.player.location, 2);
    let _ = s.tick(0, Some(Key::A), &mut rng);
    assert_eq!(s.player.location, 1);
    let _ = s.tick(0, Some(Key::A), &mut rng);
    let _ = s.tick(0, Some(Key::A), &mut rng);
    assert_eq!(s.player.location, 0);
}
