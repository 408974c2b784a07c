//! Per-entity data: the player, level geometry and the interface markers.
use vstd::prelude::*;

use crate::geometry::{LEVEL_LIMIT, Vec2, WORLD_LIMIT};

verus! {

/// The player's velocity, in thousandths of a pixel per second.
#[derive(Clone, Copy, Debug, PartialEq, Eq, Structural)]
pub struct Velocity {
    pub x: i64,
    pub y: i64,
}

impl Velocity {
    pub open spec fn in_world(self) -> bool {
        &&& -WORLD_LIMIT <= self.x <= WORLD_LIMIT
        &&& -WORLD_LIMIT <= self.y <= WORLD_LIMIT
    }

    pub fn zero() -> (r: Velocity)
        ensures
            r == (Velocity { x: 0, y: 0 }),
    {
        Velocity { x: 0, y: 0 }
    }
}

/// Jump bookkeeping of the player.
#[derive(Clone, Copy, Debug, PartialEq, Eq, Structural)]
pub struct JumpState {
    /// A jump is in progress and the button has not been released since.
    pub jumping: bool,
    /// How long the button has been held while rising, in microseconds.
    pub hold_us: u64,
    /// Jumps taken since the player last stood on ground.
    pub jumps_used: u8,
}

impl JumpState {
    /// The state of a player standing on the ground.
    pub open spec fn reset_spec() -> JumpState {
        JumpState { jumping: false, hold_us: 0, jumps_used: 0 }
    }

    pub fn reset() -> (r: JumpState)
        ensures
            r == JumpState::reset_spec(),
    {
        JumpState { jumping: false, hold_us: 0, jumps_used: 0 }
    }
}

/// The player entity: its transform, velocity and jump state.
#[derive(Clone, Copy, Debug, PartialEq, Eq, Structural)]
pub struct Player {
    /// Centre of the player's box.
    pub translation: Vec2,
    pub velocity: Velocity,
    pub jump: JumpState,
}

impl Player {
    /// Position and velocity lie within the world's bounds.
    pub open spec fn in_world(self) -> bool {
        self.translation.in_world() && self.velocity.in_world()
    }

    /// A player at `pos`, at rest, standing.
    pub fn at(pos: Vec2) -> (r: Player)
        ensures
            r == (Player {
                translation: pos,
                velocity: Velocity { x: 0, y: 0 },
                jump: JumpState::reset_spec(),
            }),
    {
        Player { translation: pos, velocity: Velocity::zero(), jump: JumpState::reset() }
    }
}

/// A platform of the current level: centre and size.
#[derive(Clone, Copy, Debug, PartialEq, Eq, Structural)]
pub struct Ground {
    pub x: i64,
    pub y: i64,
    pub w: i64,
    pub h: i64,
}

/// Centre coordinates within `LEVEL_LIMIT`, sizes within `[0, LEVEL_LIMIT]`.
pub open spec fn box_in_level(x: int, y: int, w: int, h: int) -> bool {
    &&& -LEVEL_LIMIT <= x <= LEVEL_LIMIT
    &&& -LEVEL_LIMIT <= y <= LEVEL_LIMIT
    &&& 0 <= w <= LEVEL_LIMIT
    &&& 0 <= h <= LEVEL_LIMIT
}

impl Ground {
    pub open spec fn wf(self) -> bool {
        box_in_level(self.x as int, self.y as int, self.w as int, self.h as int)
    }
}

/// An exit area of the current level: centre, size and the level it leads to.
#[derive(Clone, Debug, PartialEq, Eq)]
pub struct Exit {
    pub x: i64,
    pub y: i64,
    pub w: i64,
    pub h: i64,
    pub next: String,
}

impl Exit {
    pub open spec fn wf(self) -> bool {
        box_in_level(self.x as int, self.y as int, self.w as int, self.h as int)
    }
}

/// One heart of the lives display.
#[derive(Clone, Copy, Debug, PartialEq, Eq, Structural)]
pub struct HeartSlot {
    pub index: usize,
    /// Drawn as a full heart rather than an empty one.
    pub filled: bool,
}

/// The lives display: one slot per heart.
#[derive(Clone, Debug)]
pub struct LivesUi {
    pub hearts: Vec<HeartSlot>,
}

/// The game-over overlay.
#[derive(Clone, Copy, Debug, PartialEq, Eq, Structural)]
pub struct GameOverUi {
    pub visible: bool,
}

} // verus!
