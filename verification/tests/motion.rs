use bounded_mover::player::{Direction, Player};
use bounded_mover::state::State;

fn default_player(x: u32, direction: Direction) -> Player {
    Player {
        x,
        y: 10,
        width: 50,
        height: 50,
        speed: 25,
        last_direction: direction,
    }
}

#[test]
fn new_sets_fields() {
    let s = State::new(10, 10);
    assert_eq!(s.player.x, 10);
    assert_eq!(s.player.y, 10);
    assert_eq!(s.player.width, 50);
    assert_eq!(s.player.height, 50);
    assert_eq!(s.player.speed, 25);
    assert!(s.player.last_direction == Direction::Right);
    assert!(!s.gameover);
}

#[test]
fn invariant_holds_along_trajectory() {
    let mut s = State::new(10, 10);
    let mut frame: usize = 0;
    while frame < 500 {
        s.update();
        let (x, y, w, h) = s.player.geometry();
        assert!(10 <= x);
        assert!(x + w <= 1600 - 10);
        assert_eq!(y, 10);
        assert_eq!(w, 50);
        assert_eq!(h, 50);
        frame += 1;
    }
}

#[test]
fn right_boundary_reaches_flush_then_retreats() {
    // From a rightward state one step short of flush, the entity reaches
    // x = 1540 (the width of the viewport minus margin and entity width),
    // then on the very next call flips to Left reporting x = 1515, and is
    // not at 1540 again immediately.
    let mut p = default_player(1515, Direction::Right);
    p.update();
    assert_eq!(p.x, 1540);
    assert!(p.last_direction == Direction::Right);
    p.update();
    assert_eq!(p.x, 1515);
    assert!(p.last_direction == Direction::Left);
    p.update();
    assert_eq!(p.x, 1490);
    assert!(p.last_direction == Direction::Left);
}

#[test]
fn right_boundary_flip_from_default_start() {
    // Starting at x = 10 moving Right, the rightward leg visits positions
    // congruent to 10 modulo 25, so the overshooting frame clamps and flips
    // in the same call: the highest reported position is 1535, and the flip
    // frame reports 1515 moving Left.
    let mut s = State::new(10, 10);
    let mut max_x: u32 = 10;
    let mut frame: usize = 0;
    while s.player.last_direction == Direction::Right {
        s.update();
        if s.player.x > max_x {
            max_x = s.player.x;
        }
        frame += 1;
        assert!(frame < 1000);
    }
    assert_eq!(max_x, 1535);
    assert_eq!(s.player.x, 1515);
    assert_eq!(frame, 62);
}

#[test]
fn left_boundary_flip_mirror() {
    // Mirrored scenario: a leftward leg whose positions are congruent to 10
    // modulo 25 reaches x = 10 exactly, then on the very next call flips to
    // Right reporting x = 35 (the one-step retreat), and is not at 10 again
    // immediately.
    let mut p = default_player(1535, Direction::Left);
    let mut frame: usize = 0;
    while p.x != 10 {
        p.update();
        assert!(p.last_direction == Direction::Left);
        frame += 1;
        assert!(frame < 1000);
    }
    p.update();
    assert_eq!(p.x, 35);
    assert!(p.last_direction == Direction::Right);
    p.update();
    assert_eq!(p.x, 60);
    assert!(p.last_direction == Direction::Right);
}

#[test]
fn left_boundary_clamp_frame_stays_inside() {
    // A leftward leg whose backward step would cross the margin clamps to the
    // margin and flips in the same call: from x = 15 the next reported
    // position is 35 moving Right, never below the margin.
    let mut p = default_player(15, Direction::Left);
    p.update();
    assert_eq!(p.x, 35);
    assert!(p.last_direction == Direction::Right);
}

#[test]
fn flip_retreat_symmetry() {
    // The two boundary flips retreat by the same distance, and land on
    // mirror-image positions within the arena.
    let mut right_flipper = default_player(1535, Direction::Right);
    right_flipper.update();
    assert_eq!(right_flipper.x, 1515);
    assert!(right_flipper.last_direction == Direction::Left);
    assert_eq!((1600 - 10 - 50) - right_flipper.x, 25);

    let mut left_flipper = default_player(15, Direction::Left);
    left_flipper.update();
    assert_eq!(left_flipper.x, 35);
    assert!(left_flipper.last_direction == Direction::Right);
    assert_eq!(left_flipper.x - 10, 25);

    assert_eq!(right_flipper.x + left_flipper.x, 1600 - 50);
}

#[test]
fn period_is_constant() {
    // Successive visits to the same (x, direction) pair are a constant number
    // of frames apart: with the default configuration the trajectory repeats
    // every 122 frames once past the first frame.
    let mut s = State::new(10, 10);
    s.update();
    let x_after_one: u32 = s.player.x;
    let dir_right_after_one: bool = s.player.last_direction == Direction::Right;
    assert_eq!(x_after_one, 35);
    assert!(dir_right_after_one);

    let mut visits: Vec<usize> = Vec::new();
    let mut frame: usize = 1;
    while frame < 500 {
        s.update();
        frame += 1;
        if s.player.x == x_after_one
            && (s.player.last_direction == Direction::Right) == dir_right_after_one
        {
            visits.push(frame);
        }
    }
    assert!(visits.len() >= 3);
    let mut i: usize = 0;
    while i < visits.len() {
        assert_eq!(visits[i], 1 + 122 * (i + 1));
        i += 1;
    }
}

#[test]
fn geometry_is_idempotent() {
    let mut s = State::new(10, 10);
    let first = s.player.geometry();
    let second = s.player.geometry();
    let third = s.player.geometry();
    assert_eq!(first, second);
    assert_eq!(second, third);
    s.update();
    let after_update_a = s.player.geometry();
    let after_update_b = s.player.geometry();
    assert_eq!(after_update_a, after_update_b);
    assert_ne!(first, after_update_a);
}
