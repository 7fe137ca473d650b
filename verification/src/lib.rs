//! A minimal bounded-bounce simulation core.
//!
//! A single rectangular entity moves horizontally inside a fixed viewport,
//! reversing direction when its bounding box reaches the inset margin at
//! either edge. The motion rule, its arena invariant, and the trajectory
//! lemmas live here; a rendering shell only has to call the frame-update
//! operation once per frame and read the geometry back.

pub mod player;
pub mod state;
pub mod trajectory;
