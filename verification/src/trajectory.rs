use vstd::prelude::*;

use vstd::arithmetic::div_mod::{lemma_mod_sub_multiples_vanish, lemma_small_mod};

use crate::player::{
    config_ok, in_bounds, inv, left_leg_safe, right_edge, step, Direction, Player, SCREEN_BUFFER,
    SCREEN_WIDTH,
};

verus! {

/// The state after `n` frame updates from `p`.
pub open spec fn iterate(p: Player, n: nat) -> Player
    decreases n,
{
    if n == 0 {
        p
    } else {
        step(iterate(p, (n - 1) as nat))
    }
}

/// A leftward leg is margin-safe whenever its starting position's residue
/// modulo the step size is at least the margin: every backward step keeps that
/// residue, so the leg can only stop at or above the margin.
pub proof fn lemma_left_leg_safe_mod(x: int, speed: int)
    requires
        1 <= speed,
        0 <= x,
        SCREEN_BUFFER <= x % speed,
    ensures
        left_leg_safe(x, speed),
    decreases x,
{
    if x < speed || x == SCREEN_BUFFER {
    } else {
        lemma_mod_sub_multiples_vanish(x, speed);
        if x - speed < speed {
            lemma_small_mod((x - speed) as nat, speed as nat);
        }
        lemma_left_leg_safe_mod(x - speed, speed);
    }
}

/// A single frame update preserves the invariant and keeps every field but the
/// position and the direction unchanged.
pub proof fn lemma_step_preserves_inv(p: Player)
    requires
        inv(p),
    ensures
        inv(step(p)),
        step(p).y == p.y,
        step(p).width == p.width,
        step(p).height == p.height,
        step(p).speed == p.speed,
{
}

/// Arena invariant (and no overshoot): after any number of frames from a
/// well-formed state, the entity's box stays inside the arena — the position
/// is at least the margin and the box's right side at most the viewport width
/// minus the margin — and the entity's size, speed and vertical position are
/// those it was created with.
pub proof fn lemma_bounds_hold(p: Player, n: nat)
    requires
        inv(p),
    ensures
        inv(iterate(p, n)),
        SCREEN_BUFFER <= iterate(p, n).x,
        iterate(p, n).x + p.width <= SCREEN_WIDTH - SCREEN_BUFFER,
        iterate(p, n).y == p.y,
        iterate(p, n).width == p.width,
        iterate(p, n).height == p.height,
        iterate(p, n).speed == p.speed,
    decreases n,
{
    if n > 0 {
        lemma_bounds_hold(p, (n - 1) as nat);
        lemma_step_preserves_inv(iterate(p, (n - 1) as nat));
    }
}

/// Splitting a trajectory: running `n + k` frames is the same as running `k`
/// frames from the state reached after `n` frames.
pub proof fn lemma_iterate_add(p: Player, n: nat, k: nat)
    ensures
        iterate(p, n + k) == iterate(iterate(p, n), k),
    decreases k,
{
    if k > 0 {
        lemma_iterate_add(p, n, (k - 1) as nat);
    }
}

/// Periodicity: the motion is deterministic, so once the state recurs after
/// `k` frames the whole trajectory repeats with period `k` — every
/// `(x, direction)` pair is revisited at a constant spacing.
pub proof fn lemma_periodic(p: Player, k: nat, n: nat)
    requires
        iterate(p, k) == p,
    ensures
        iterate(p, n + k) == iterate(p, n),
{
    lemma_iterate_add(p, k, n);
}

/// Mirror symmetry of the two boundary flips: a right flip lands one retreat
/// step short of the right flush position and a left flip one retreat step
/// inside the margin, and for equal sizes and speeds the two landing positions
/// are mirror images within the arena.
pub proof fn lemma_flip_symmetry(p: Player, q: Player)
    requires
        inv(p),
        inv(q),
        p.last_direction == Direction::Right,
        q.last_direction == Direction::Left,
        p.x + p.width + p.speed > right_edge(),
        q.x < q.speed || q.x == SCREEN_BUFFER,
        p.width == q.width,
        p.speed == q.speed,
    ensures
        step(p).last_direction == Direction::Left,
        step(q).last_direction == Direction::Right,
        right_edge() - p.width - step(p).x == p.speed,
        step(q).x - SCREEN_BUFFER == q.speed,
        step(p).x + step(q).x == SCREEN_WIDTH - p.width,
{
}

} // verus!
