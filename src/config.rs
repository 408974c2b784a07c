//! Tunables of movement, jumping and the camera.
use vstd::prelude::*;

use crate::geometry::WORLD_LIMIT;

verus! {

pub const DEFAULT_PLAYER_MAX_SPEED: i64 = 300_000;

pub const DEFAULT_ACCELERATION: i64 = 2_000_000;

pub const DEFAULT_DECELERATION: i64 = 1_800_000;

pub const DEFAULT_GRAVITY: i64 = 1_400_000;

pub const DEFAULT_JUMP_VELOCITY: i64 = 600_000;

pub const DEFAULT_JUMP_MAX_HOLD_US: u64 = 180_000;

pub const DEFAULT_JUMP_CUT_PER_MILLE: i64 = 500;

pub const DEFAULT_MAX_JUMPS: u8 = 2;

pub const DEFAULT_CAMERA_LAG_US: u64 = 150_000;

pub const DEFAULT_CAMERA_LOOKAHEAD_US: i64 = 250_000;

pub const DEFAULT_CAMERA_NOISE_AMP: i64 = 2_000;

pub const DEFAULT_CAMERA_NOISE_FREQ_MILLIHERTZ: i64 = 700;

/// A single tunable quantity.
#[derive(Clone, Copy, Debug, PartialEq, Eq, Structural)]
pub struct Scalar {
    pub value: i64,
}

/// Jump tunables.
#[derive(Clone, Copy, Debug, PartialEq, Eq, Structural)]
pub struct JumpCfg {
    /// Upward speed given by a jump.
    pub velocity: i64,
    /// A release before this much holding cuts the jump short.
    pub max_hold_us: u64,
    /// Factor, in thousandths, applied to a rising speed by an early release.
    pub cut_per_mille: i64,
    /// Jumps allowed before landing again.
    pub max_jumps: u8,
}

/// Camera tunables.
#[derive(Clone, Copy, Debug, PartialEq, Eq, Structural)]
pub struct CameraCfg {
    /// Time constant of the smoothing toward the target.
    pub lag_us: u64,
    /// How far ahead of the player, in time at its velocity, the camera aims.
    pub lookahead_us: i64,
    /// Amplitude of the idle sway on both axes.
    pub noise_amp: i64,
    /// Base frequency of the sway, in thousandths of a hertz.
    pub noise_freq_mhz: i64,
    /// Amplitude on the horizontal axis, where it differs.
    pub noise_amp_x: Option<i64>,
    /// Amplitude on the vertical axis, where it differs.
    pub noise_amp_y: Option<i64>,
}

#[derive(Clone, Copy, Debug, PartialEq, Eq, Structural)]
pub struct GameConfig {
    pub max_speed: Scalar,
    pub acceleration: Scalar,
    pub deceleration: Scalar,
    pub gravity: Scalar,
    pub jump: JumpCfg,
    pub camera: CameraCfg,
}

pub open spec fn within_world(v: int) -> bool {
    -WORLD_LIMIT <= v <= WORLD_LIMIT
}

pub open spec fn opt_within_world(o: Option<i64>) -> bool {
    match o {
        Some(v) => within_world(v as int),
        None => true,
    }
}

fn value_in_world(v: i64) -> (r: bool)
    ensures
        r == within_world(v as int),
{
    -WORLD_LIMIT <= v && v <= WORLD_LIMIT
}

fn opt_in_world(o: Option<i64>) -> (r: bool)
    ensures
        r == opt_within_world(o),
{
    match o {
        Some(v) => value_in_world(v),
        None => true,
    }
}

impl GameConfig {
    /// Every tunable lies within the world's bounds.
    pub open spec fn wf(self) -> bool {
        &&& within_world(self.max_speed.value as int)
        &&& within_world(self.acceleration.value as int)
        &&& within_world(self.deceleration.value as int)
        &&& within_world(self.gravity.value as int)
        &&& within_world(self.jump.velocity as int)
        &&& self.jump.max_hold_us <= WORLD_LIMIT
        &&& within_world(self.jump.cut_per_mille as int)
        &&& self.camera.lag_us <= WORLD_LIMIT
        &&& within_world(self.camera.lookahead_us as int)
        &&& within_world(self.camera.noise_amp as int)
        &&& within_world(self.camera.noise_freq_mhz as int)
        &&& opt_within_world(self.camera.noise_amp_x)
        &&& opt_within_world(self.camera.noise_amp_y)
    }

    /// Whether the tunables lie within the world's bounds; a configuration
    /// that does not is treated as malformed.
    pub fn is_valid(&self) -> (r: bool)
        ensures
            r == self.wf(),
    {
        value_in_world(self.max_speed.value) && value_in_world(self.acceleration.value)
            && value_in_world(self.deceleration.value) && value_in_world(self.gravity.value)
            && value_in_world(self.jump.velocity) && self.jump.max_hold_us <= WORLD_LIMIT as u64
            && value_in_world(self.jump.cut_per_mille) && self.camera.lag_us <= WORLD_LIMIT as u64
            && value_in_world(self.camera.lookahead_us) && value_in_world(self.camera.noise_amp)
            && value_in_world(self.camera.noise_freq_mhz) && opt_in_world(self.camera.noise_amp_x)
            && opt_in_world(self.camera.noise_amp_y)
    }

    pub open spec fn default_spec() -> GameConfig {
        GameConfig {
            max_speed: Scalar { value: DEFAULT_PLAYER_MAX_SPEED },
            acceleration: Scalar { value: DEFAULT_ACCELERATION },
            deceleration: Scalar { value: DEFAULT_DECELERATION },
            gravity: Scalar { value: DEFAULT_GRAVITY },
            jump: JumpCfg {
                velocity: DEFAULT_JUMP_VELOCITY,
                max_hold_us: DEFAULT_JUMP_MAX_HOLD_US,
                cut_per_mille: DEFAULT_JUMP_CUT_PER_MILLE,
                max_jumps: DEFAULT_MAX_JUMPS,
            },
            camera: CameraCfg {
                lag_us: DEFAULT_CAMERA_LAG_US,
                lookahead_us: DEFAULT_CAMERA_LOOKAHEAD_US,
                noise_amp: DEFAULT_CAMERA_NOISE_AMP,
                noise_freq_mhz: DEFAULT_CAMERA_NOISE_FREQ_MILLIHERTZ,
                noise_amp_x: None,
                noise_amp_y: None,
            },
        }
    }

    /// The camera's horizontal sway amplitude.
    pub open spec fn amp_x_spec(self) -> i64 {
        match self.camera.noise_amp_x {
            Some(a) => a,
            None => self.camera.noise_amp,
        }
    }

    /// The camera's vertical sway amplitude.
    pub open spec fn amp_y_spec(self) -> i64 {
        match self.camera.noise_amp_y {
            Some(a) => a,
            None => self.camera.noise_amp,
        }
    }
}

impl Default for GameConfig {
    fn default() -> (r: GameConfig)
        ensures
            r == GameConfig::default_spec(),
    {
        GameConfig {
            max_speed: Scalar { value: DEFAULT_PLAYER_MAX_SPEED },
            acceleration: Scalar { value: DEFAULT_ACCELERATION },
            deceleration: Scalar { value: DEFAULT_DECELERATION },
            gravity: Scalar { value: DEFAULT_GRAVITY },
            jump: JumpCfg {
                velocity: DEFAULT_JUMP_VELOCITY,
                max_hold_us: DEFAULT_JUMP_MAX_HOLD_US,
                cut_per_mille: DEFAULT_JUMP_CUT_PER_MILLE,
                max_jumps: default_max_jumps(),
            },
            camera: CameraCfg {
                lag_us: DEFAULT_CAMERA_LAG_US,
                lookahead_us: DEFAULT_CAMERA_LOOKAHEAD_US,
                noise_amp: DEFAULT_CAMERA_NOISE_AMP,
                noise_freq_mhz: DEFAULT_CAMERA_NOISE_FREQ_MILLIHERTZ,
                noise_amp_x: None,
                noise_amp_y: None,
            },
        }
    }
}

/// The number of jumps allowed when the configuration names none.
pub fn default_max_jumps() -> (r: u8)
    ensures
        r == DEFAULT_MAX_JUMPS,
{
    DEFAULT_MAX_JUMPS
}

} // verus!
