//! The camera that follows the player with lookahead, smoothing and a slight
//! sway, and never scrolls the ground out of view.
//!
//! The smoothing factor `1 - exp(-dt / lag)` and the sines and cosines of the
//! sway are evaluated by the host from the arguments this module computes
//! (`smoothing_exponent_ppm`, `sway_phases`) and handed back in a
//! `CameraFrame`, as millionths.
use vstd::prelude::*;

use crate::components::Player;
use crate::config::{CameraCfg, GameConfig};
use crate::geometry::{
    abs, clamp_to_world, clamp_world, lemma_trunc_div_bounds, max, min, mul_div, trunc_div,
    Vec2, MICROS_PER_SECOND, WORLD_LIMIT,
};
use crate::resources::GROUND_Y;

verus! {

/// Room kept between the ground line and the bottom edge of the view.
pub const CAMERA_MARGIN: i64 = 40_000;

/// View height used when the window's is unknown.
pub const DEFAULT_VIEWPORT_HEIGHT: i64 = 540_000;

/// Smallest smoothing time constant, in microseconds.
pub const MIN_LAG_US: u64 = 100;

/// Smallest sway frequency, in thousandths of a hertz.
pub const MIN_NOISE_FREQ_MHZ: i64 = 10;

/// One million: the denominator of the frame's fractions.
pub const PPM: i64 = 1_000_000;

/// The vertical target looks ahead this many tenths of the horizontal lookahead.
pub const VERTICAL_LOOKAHEAD_TENTHS: i64 = 6;

/// What the host evaluated for this frame, in millionths.
#[derive(Clone, Copy, Debug, PartialEq, Eq, Structural)]
pub struct CameraFrame {
    /// `1 - exp(-x)` for `x` given by `smoothing_exponent_ppm`.
    pub alpha_ppm: i64,
    /// `sin` of the base phase of `sway_phases`.
    pub sin_base: i64,
    /// `cos` of the second phase of `sway_phases`.
    pub cos_second: i64,
    /// Height of the view.
    pub viewport_height: i64,
}

impl CameraFrame {
    pub open spec fn wf(self) -> bool {
        &&& 0 <= self.alpha_ppm <= PPM
        &&& -PPM <= self.sin_base <= PPM
        &&& -PPM <= self.cos_second <= PPM
        &&& 0 <= self.viewport_height <= WORLD_LIMIT
    }

    /// Whether the values lie in the ranges their functions take.
    pub fn is_valid(&self) -> (r: bool)
        ensures
            r == self.wf(),
    {
        0 <= self.alpha_ppm && self.alpha_ppm <= PPM && -PPM <= self.sin_base && self.sin_base
            <= PPM && -PPM <= self.cos_second && self.cos_second <= PPM && 0 <= self.viewport_height
            && self.viewport_height <= WORLD_LIMIT
    }
}

/// Phases of the two sway waves, in millionths of a turn. Both axes sway
/// with the same waves; only their amplitudes differ.
#[derive(Clone, Copy, Debug, PartialEq, Eq, Structural)]
pub struct SwayPhases {
    /// Phase of the wave at the base frequency `f1`.
    pub base: u64,
    /// Phase of the wave at `f2 = 0.73 f1`.
    pub second: u64,
}

/// The highest the camera's centre may be: the ground line stays a margin
/// above the bottom of the view.
pub open spec fn max_camera_y(viewport_height: int) -> int {
    GROUND_Y + viewport_height / 2 - CAMERA_MARGIN
}

pub open spec fn lag_spec(cfg: CameraCfg) -> int {
    if cfg.lag_us < MIN_LAG_US {
        MIN_LAG_US as int
    } else {
        cfg.lag_us as int
    }
}

/// `dt / lag` in millionths, with the lag floored.
pub open spec fn smoothing_exponent_spec(dt_us: int, cfg: CameraCfg) -> int {
    (dt_us * PPM) / lag_spec(cfg)
}

pub open spec fn base_freq_spec(cfg: CameraCfg) -> int {
    if cfg.noise_freq_mhz < MIN_NOISE_FREQ_MHZ {
        MIN_NOISE_FREQ_MHZ as int
    } else {
        cfg.noise_freq_mhz as int
    }
}

/// The phase, in millionths of a turn, of a wave at `num / den` times
/// `freq_mhz` thousandths of a hertz after `t_us` microseconds.
pub open spec fn phase_spec(t_us: int, freq_mhz: int, num: int, den: int) -> int {
    ((t_us * freq_mhz * num) / (den * 1000)) % (PPM as int)
}

/// The two sway phases: the base frequency `f1` and `f2 = 0.73 f1`.
pub open spec fn sway_phases_spec(t_us: int, cfg: CameraCfg) -> SwayPhases {
    let f = base_freq_spec(cfg);
    SwayPhases {
        base: phase_spec(t_us, f, 1, 1) as u64,
        second: phase_spec(t_us, f, 73, 100) as u64,
    }
}

/// `from` moved toward `to` by the fraction `alpha_ppm` millionths.
pub open spec fn blend_spec(from: int, to: int, alpha_ppm: int) -> int {
    from + trunc_div((to - from) * alpha_ppm, PPM as int)
}

/// Where the camera moves in one frame.
pub open spec fn follow_spec(cam: Vec2, p: Player, cfg: GameConfig, frame: CameraFrame) -> Vec2 {
    let look = cfg.camera.lookahead_us as int;
    let tx = clamp_world(
        p.translation.x + trunc_div(p.velocity.x * look, MICROS_PER_SECOND as int),
    );
    let ty = clamp_world(
        p.translation.y + trunc_div(
            p.velocity.y * (VERTICAL_LOOKAHEAD_TENTHS * look),
            10 * MICROS_PER_SECOND,
        ),
    );
    let sx = blend_spec(cam.x as int, tx, frame.alpha_ppm as int);
    let sy = blend_spec(cam.y as int, ty, frame.alpha_ppm as int);
    let top = max_camera_y(frame.viewport_height as int);
    let amp_x = cfg.amp_x_spec() as int;
    let amp_y = cfg.amp_y_spec() as int;
    let headroom = min(sy, top - amp_y);
    let nx = trunc_div(amp_x * (frame.sin_base + frame.cos_second), 2 * PPM);
    let ny = trunc_div(amp_y * (frame.sin_base + frame.cos_second), 2 * PPM);
    Vec2 {
        x: clamp_world(sx + nx) as i64,
        y: min(clamp_world(headroom + ny), top) as i64,
    }
}

/// The argument `dt / lag` of the smoothing factor, in millionths.
pub fn smoothing_exponent_ppm(dt_us: u32, cfg: &CameraCfg) -> (r: u64)
    ensures
        r == smoothing_exponent_spec(dt_us as int, *cfg),
{
    let lag: u64 = if cfg.lag_us < MIN_LAG_US {
        MIN_LAG_US
    } else {
        cfg.lag_us
    };
    assert(dt_us as int * PPM <= 4_294_967_295 * 1_000_000) by (nonlinear_arith)
        requires
            0 <= dt_us <= 4_294_967_295,
    ;
    (dt_us as u64 * PPM as u64) / lag
}

fn phase(t_us: u64, freq_mhz: u64, num: u64, den: u64) -> (r: u64)
    requires
        1 <= freq_mhz <= WORLD_LIMIT,
        1 <= num <= 10_000,
        1 <= den <= 10_000,
    ensures
        r == phase_spec(t_us as int, freq_mhz as int, num as int, den as int),
{
    assert(t_us as int * freq_mhz <= 18_446_744_073_709_551_615 * WORLD_LIMIT) by (
    nonlinear_arith)
        requires
            0 <= t_us <= 18_446_744_073_709_551_615,
            1 <= freq_mhz <= WORLD_LIMIT,
    ;
    assert(t_us as int * freq_mhz * num <= 18_446_744_073_709_551_615 * WORLD_LIMIT * 10_000)
        by (nonlinear_arith)
        requires
            0 <= t_us as int * freq_mhz <= 18_446_744_073_709_551_615 * WORLD_LIMIT,
            1 <= num <= 10_000,
    ;
    let turns: u128 = (t_us as u128 * freq_mhz as u128 * num as u128) / (den as u128 * 1000);
    (turns % (PPM as u128)) as u64
}

/// The phases of the two sway waves at `elapsed_us`.
pub fn sway_phases(elapsed_us: u64, cfg: &CameraCfg) -> (r: SwayPhases)
    requires
        cfg.noise_freq_mhz <= WORLD_LIMIT,
    ensures
        r == sway_phases_spec(elapsed_us as int, *cfg),
{
    let f: u64 = if cfg.noise_freq_mhz < MIN_NOISE_FREQ_MHZ {
        MIN_NOISE_FREQ_MHZ as u64
    } else {
        cfg.noise_freq_mhz as u64
    };
    SwayPhases {
        base: phase(elapsed_us, f, 1, 1),
        second: phase(elapsed_us, f, 73, 100),
    }
}

/// Moves `from` toward `to` by the fraction `alpha_ppm`, never past it.
fn blend(from: i64, to: i64, alpha_ppm: i64) -> (r: i64)
    requires
        -WORLD_LIMIT <= from <= WORLD_LIMIT,
        -WORLD_LIMIT <= to <= WORLD_LIMIT,
        0 <= alpha_ppm <= PPM,
    ensures
        r == blend_spec(from as int, to as int, alpha_ppm as int),
        min(from as int, to as int) <= r <= max(from as int, to as int),
{
    let d: i64 = to - from;
    let step = mul_div(d, alpha_ppm, PPM);
    proof {
        lemma_trunc_div_bounds(d * alpha_ppm, PPM as int);
        assert(abs(d * alpha_ppm) <= abs(d as int) * PPM) by (nonlinear_arith)
            requires
                0 <= alpha_ppm <= PPM,
        ;
        assert(abs(step as int) <= abs(d as int)) by (nonlinear_arith)
            requires
                abs(step as int) * PPM <= abs(d * alpha_ppm),
                abs(d * alpha_ppm) <= abs(d as int) * PPM,
        ;
        assert(d >= 0 ==> d * alpha_ppm >= 0) by (nonlinear_arith)
            requires
                alpha_ppm >= 0,
        ;
        assert(d <= 0 ==> d * alpha_ppm <= 0) by (nonlinear_arith)
            requires
                alpha_ppm >= 0,
        ;
    }
    from + step as i64
}

/// Follows the player: aims ahead of it along its velocity, closes the
/// fraction `alpha_ppm` of the distance, keeps room below the top limit for
/// the vertical sway, adds the sway, and clamps to the top limit again.
/// Without a camera or a player nothing happens.
pub fn camera_follow_system(
    camera: &mut Option<Vec2>,
    player: &Option<Player>,
    cfg: &GameConfig,
    frame: &CameraFrame,
)
    requires
        cfg.wf(),
        frame.wf(),
        match *old(camera) {
            Some(c) => c.in_world(),
            None => true,
        },
        match *player {
            Some(p) => p.in_world(),
            None => true,
        },
    ensures
        match (*old(camera), *player) {
            (Some(c), Some(p)) => {
                let n = follow_spec(c, p, *cfg, *frame);
                &&& *final(camera) == Some(n)
                &&& n.in_world()
                &&& n.y <= GROUND_Y + frame.viewport_height / 2 - CAMERA_MARGIN
            },
            _ => *final(camera) == *old(camera),
        },
{
    let c = match camera {
        Some(c) => *c,
        None => {
            return ;
        },
    };
    let p = match player {
        Some(p) => *p,
        None => {
            return ;
        },
    };
    let look = cfg.camera.lookahead_us;
    let ax = mul_div(p.velocity.x, look, MICROS_PER_SECOND);
    assert(abs(p.velocity.x * look) <= WORLD_LIMIT * WORLD_LIMIT) by (nonlinear_arith)
        requires
            -WORLD_LIMIT <= p.velocity.x <= WORLD_LIMIT,
            -WORLD_LIMIT <= look <= WORLD_LIMIT,
    ;
    let tx = clamp_to_world(p.translation.x as i128 + ax);
    let ay = mul_div(p.velocity.y, VERTICAL_LOOKAHEAD_TENTHS * look, 10 * MICROS_PER_SECOND);
    assert(abs(p.velocity.y * (VERTICAL_LOOKAHEAD_TENTHS * look)) <= WORLD_LIMIT * (6
        * WORLD_LIMIT)) by (nonlinear_arith)
        requires
            -WORLD_LIMIT <= p.velocity.y <= WORLD_LIMIT,
            -6 * WORLD_LIMIT <= VERTICAL_LOOKAHEAD_TENTHS * look <= 6 * WORLD_LIMIT,
    ;
    let ty = clamp_to_world(p.translation.y as i128 + ay);
    let sx = blend(c.x, tx, frame.alpha_ppm);
    let sy = blend(c.y, ty, frame.alpha_ppm);
    let top: i64 = GROUND_Y + frame.viewport_height / 2 - CAMERA_MARGIN;
    let amp_x: i64 = match cfg.camera.noise_amp_x {
        Some(a) => a,
        None => cfg.camera.noise_amp,
    };
    let amp_y: i64 = match cfg.camera.noise_amp_y {
        Some(a) => a,
        None => cfg.camera.noise_amp,
    };
    let headroom: i64 = if sy < top - amp_y {
        sy
    } else {
        top - amp_y
    };
    let nx = mul_div(amp_x, frame.sin_base + frame.cos_second, 2 * PPM);
    let ny = mul_div(amp_y, frame.sin_base + frame.cos_second, 2 * PPM);
    assert(abs(amp_x * (frame.sin_base + frame.cos_second)) <= WORLD_LIMIT * (2 * PPM)) by (
    nonlinear_arith)
        requires
            -WORLD_LIMIT <= amp_x <= WORLD_LIMIT,
            -2 * PPM <= frame.sin_base + frame.cos_second <= 2 * PPM,
    ;
    assert(abs(amp_y * (frame.sin_base + frame.cos_second)) <= WORLD_LIMIT * (2 * PPM)) by (
    nonlinear_arith)
        requires
            -WORLD_LIMIT <= amp_y <= WORLD_LIMIT,
            -2 * PPM <= frame.sin_base + frame.cos_second <= 2 * PPM,
    ;
    let x = clamp_to_world(sx as i128 + nx);
    let swayed = clamp_to_world(headroom as i128 + ny);
    let y = if swayed < top {
        swayed
    } else {
        top
    };
    *camera = Some(Vec2 { x, y });
}

} // verus!
