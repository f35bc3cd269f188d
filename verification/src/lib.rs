//! A small snake game on a toroidal 8x8 grid, with a verified simulation core.
//!
//! The grid wraps at its edges, the snake grows by eating fruit, self-collision
//! ends the round, and a shrink animation runs the length back down to one
//! before play resumes.  The per-tick state transition, the direction-change
//! rule and the render projection all live here with full contracts; window,
//! audio and input plumbing stay outside the verified core.

pub mod game;
pub mod laws;
pub mod model;
