//! Verified core of a two-player Pong simulation.
//!
//! The simulation runs at sixty fixed ticks per second. Positions and sizes
//! are integers in sixtieths of a world unit, so a velocity expressed in
//! world units per second equals the displacement in these coordinates per
//! tick, and every system computes exactly. Each tick runs, in order, the
//! collision resolver, the input-to-motion mapper for both players, the
//! velocity integrator and the reset controller; the scoreboard text is
//! derived from the state on demand.

pub mod geometry;
pub mod collide;
pub mod speed;
pub mod score;
pub(crate) mod rng;
pub mod game;
pub mod laws;
