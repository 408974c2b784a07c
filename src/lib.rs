//! The rules of a 2D side-scrolling platformer: player movement under
//! gravity, collision against one-way platforms, multi-jumps with a
//! reproducible bonus jump, a camera that follows with lookahead and keeps
//! the ground in view, and the level lifecycle of exits, loading, death and
//! restart.
//!
//! All quantities are fixed-point integers (see `geometry`). The host reads
//! files, evaluates `exp`, `sin` and `cos` for the camera, and drives the
//! frames of a `world::World`.
use vstd::prelude::*;

pub mod camera;
pub mod components;
pub mod config;
pub mod geometry;
pub mod level_format;
pub mod levels;
pub mod player;
pub mod resources;
pub mod ui;
pub mod world;

verus! {

} // verus!
