//! Game-wide state shared by the systems, and the per-frame inputs.
use vstd::prelude::*;

use crate::geometry::Vec2;

verus! {

/// Height of the ground line that the camera keeps in view.
pub const GROUND_Y: i64 = -150_000;

/// Width of the player's box.
pub const PLAYER_WIDTH: i64 = 32_000;

/// Height of the player's box.
pub const PLAYER_HEIGHT: i64 = 32_000;

/// Half the width of the player's box.
pub const PLAYER_HALF_WIDTH: i64 = 16_000;

/// Half the height of the player's box.
pub const PLAYER_HALF_HEIGHT: i64 = 16_000;

/// Lives left and the number a new game starts with.
#[derive(Clone, Copy, Debug, PartialEq, Eq, Structural)]
pub struct Lives {
    pub current: u8,
    pub max: u8,
}

#[derive(Clone, Copy, Debug, PartialEq, Eq, Structural)]
pub enum GameState {
    Running,
    GameOver,
}

/// Where the player appears in the current level.
#[derive(Clone, Copy, Debug, PartialEq, Eq, Structural)]
pub struct LevelStart(pub Vec2);

/// A position the player is to be moved to on the next application.
#[derive(Clone, Copy, Debug, PartialEq, Eq, Structural)]
pub struct PendingStart(pub Option<Vec2>);

/// The level that is active.
#[derive(Clone, Debug, PartialEq, Eq)]
pub struct LevelManager {
    pub current: String,
}

/// The level that is to be loaded next, if any.
#[derive(Clone, Debug, PartialEq, Eq)]
pub struct LevelRequest(pub Option<String>);

/// The view of an optional string.
pub open spec fn opt_str(o: Option<String>) -> Option<Seq<char>> {
    match o {
        Some(s) => Some(s@),
        None => None,
    }
}

impl View for LevelRequest {
    type V = Option<Seq<char>>;

    open spec fn view(&self) -> Option<Seq<char>> {
        opt_str(self.0)
    }
}

/// Frame timing: the time since the previous frame and since start-up.
#[derive(Clone, Copy, Debug, PartialEq, Eq, Structural)]
pub struct Time {
    pub delta_us: u32,
    pub elapsed_us: u64,
}

/// The state of the controls in one frame.
#[derive(Clone, Copy, Debug, PartialEq, Eq, Structural)]
pub struct Keys {
    /// A move-left key is held.
    pub left: bool,
    /// A move-right key is held.
    pub right: bool,
    /// The jump key went down this frame.
    pub jump_just_pressed: bool,
    /// The jump key is held.
    pub jump_pressed: bool,
    /// The jump key went up this frame.
    pub jump_just_released: bool,
}

} // verus!
