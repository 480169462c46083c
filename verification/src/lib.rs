//! Gameplay core of a two-paddle ball-bouncing arcade game.
//!
//! All world coordinates are fixed-point integers in milli world-units
//! (1000 = one world unit), so that movement, clamping and collision
//! tests are exact. Velocities are stored in milli-units per
//! millisecond, which is numerically the same as world units per
//! second. The host (rendering, input devices, timing, scheduling) is
//! outside this crate: it hands the systems plain values (the frame's
//! elapsed milliseconds, the input axis readings) and calls them once
//! per frame, movement before bounce.

pub mod game;
pub mod systems;
