use vstd::prelude::*;

verus! {

/// Width of the viewport, in pixels.
pub const SCREEN_WIDTH: u32 = 1600;

/// Height of the viewport, in pixels.
pub const SCREEN_HEIGHT: u32 = 1200;

/// Inset margin: the entity's bounding box never crosses this inset from the
/// viewport edge.
pub const SCREEN_BUFFER: u8 = 10;

/// Current travel direction of the entity.
#[derive(PartialEq, Eq, Structural, Clone, Copy, Debug)]
pub enum Direction {
    Left,
    Right,
}

/// The single moving entity: top-left corner position, fixed size, fixed
/// per-frame step size, and current travel direction. Motion is horizontal
/// only: `y` never changes.
pub struct Player {
    pub x: u32,
    pub y: u32,
    pub width: u8,
    pub height: u8,
    pub speed: u8,
    pub last_direction: Direction,
}

/// The rightmost position the entity's right edge may reach: the viewport
/// width minus the margin.
pub open spec fn right_edge() -> int {
    SCREEN_WIDTH - SCREEN_BUFFER
}

/// A leftward leg starting at `x` never drops the position below the margin:
/// either this frame clamps (when `x < speed`) or flips (when `x` is exactly
/// the margin), or the backward step lands at or above the margin and the rest
/// of the leg is safe in turn.
pub open spec fn left_leg_safe(x: int, speed: int) -> bool
    decreases x,
{
    if speed < 1 {
        false
    } else if x < speed || x == SCREEN_BUFFER {
        true
    } else {
        SCREEN_BUFFER <= x - speed && left_leg_safe(x - speed, speed)
    }
}

/// Configuration well-formedness: positive size and speed, enough room between
/// the two boundaries for a full retreat step on either side, and a right-flip
/// landing position that starts a margin-safe leftward leg.
pub open spec fn config_ok(p: Player) -> bool {
    &&& 0 < p.width
    &&& 0 < p.speed
    &&& p.width + p.speed + SCREEN_BUFFER <= right_edge()
    &&& left_leg_safe(right_edge() - p.width - p.speed, p.speed as int)
}

/// The entity's bounding box lies inside the arena: at least the margin from
/// the left edge, and its right side at most `right_edge()`.
pub open spec fn in_bounds(p: Player) -> bool {
    &&& SCREEN_BUFFER <= p.x
    &&& p.x + p.width <= right_edge()
}

/// The state invariant that `update` preserves: a well-formed configuration,
/// the bounding box inside the arena, and, while travelling left, a leg that
/// stays at or above the margin until it flips.
pub open spec fn inv(p: Player) -> bool {
    &&& config_ok(p)
    &&& in_bounds(p)
    &&& (p.last_direction == Direction::Left ==> left_leg_safe(p.x as int, p.speed as int))
}

/// One frame of rightward motion: when the forward step would carry the right
/// side past `right_edge()`, the entity lands one retreat step short of flush
/// and turns left; otherwise it steps forward.
pub open spec fn step_right(p: Player) -> Player {
    if p.x + p.width + p.speed > right_edge() {
        Player {
            x: (right_edge() - p.width - p.speed) as u32,
            last_direction: Direction::Left,
            ..p
        }
    } else {
        Player { x: (p.x + p.speed) as u32, ..p }
    }
}

/// One frame of leftward motion (the mirror rule): when the backward step
/// would cross the margin, or the entity is exactly at the margin, it lands
/// one retreat step inside and turns right; otherwise it steps backward.
pub open spec fn step_left(p: Player) -> Player {
    if p.x < p.speed || p.x == SCREEN_BUFFER {
        Player {
            x: (SCREEN_BUFFER + p.speed) as u32,
            last_direction: Direction::Right,
            ..p
        }
    } else {
        Player { x: (p.x - p.speed) as u32, ..p }
    }
}

/// One frame of motion: dispatch on the current direction.
pub open spec fn step(p: Player) -> Player {
    if p.last_direction == Direction::Right {
        step_right(p)
    } else {
        step_left(p)
    }
}

impl Player {
    /// Advance the entity by one frame's worth of motion, flipping direction
    /// at a boundary. Total: no error condition, given the invariant on entry.
    pub fn update(&mut self)
        requires
            inv(*old(self)),
        ensures
            inv(*final(self)),
            *final(self) == (step(*old(self))),
    {
        if self.last_direction == Direction::Right {
            self.update_pos_right();
        } else {
            self.update_pos_left();
        }
    }

    /// Rightward branch of the frame update: clamp a step that would overshoot
    /// `right_edge()` to flush, then either retreat by one step and turn left
    /// (when flush) or step forward.
    fn update_pos_right(&mut self)
        requires
            inv(*old(self)),
            old(self).last_direction == Direction::Right,
        ensures
            inv(*final(self)),
            *final(self) == (step_right(*old(self))),
    {
        if self.x + self.width as u32 + self.speed as u32 > SCREEN_WIDTH - SCREEN_BUFFER as u32 {
            self.x = SCREEN_WIDTH - SCREEN_BUFFER as u32 - self.width as u32;
        }

        if self.x + self.width as u32 != SCREEN_WIDTH - SCREEN_BUFFER as u32 {
            self.x = self.x + self.speed as u32;
        } else {
            self.x = self.x - self.speed as u32;
            self.last_direction = Direction::Left;
        }
    }

    /// Leftward branch of the frame update (mirror rule): clamp a step that
    /// would cross the margin to the margin itself, then either retreat by one
    /// step and turn right (when at the margin) or step backward.
    fn update_pos_left(&mut self)
        requires
            inv(*old(self)),
            old(self).last_direction == Direction::Left,
        ensures
            inv(*final(self)),
            *final(self) == (step_left(*old(self))),
    {
        if self.x < self.speed as u32 {
            self.x = SCREEN_BUFFER as u32;
        }
        if self.x != SCREEN_BUFFER as u32 {
            self.x = self.x - self.speed as u32;
        } else {
            self.x = self.x + self.speed as u32;
            self.last_direction = Direction::Right;
        }
    }

    /// Read-only accessor for rendering: position and size as plain unsigned
    /// values. The result is a function of the state alone, so repeated reads
    /// between frame updates return identical values.
    pub fn geometry(&self) -> (r: (u32, u32, u32, u32))
        ensures
            r == (self.x, self.y, self.width as u32, self.height as u32),
    {
        (self.x, self.y, self.width as u32, self.height as u32)
    }
}

} // verus!
