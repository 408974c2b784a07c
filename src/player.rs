//! Player movement, collision against one-way platforms, jumping, death and
//! respawn.
use vstd::prelude::*;

use crate::components::{GameOverUi, Ground, JumpState, Player, Velocity};
use crate::config::GameConfig;
use crate::geometry::{
    abs, approach, approach_spec, clamp_to_world, clamp_world, min, mul_div, sign, trunc_div, Vec2, MICROS_PER_SECOND, WORLD_LIMIT,
};
use crate::resources::{
    GameState, Keys, LevelStart, Lives, PendingStart, Time, PLAYER_HALF_HEIGHT,
    PLAYER_HALF_WIDTH,
};

verus! {

/// A player whose centre falls below this height loses a life.
pub const DEATH_Y: i64 = -600_000;

/// A reversal on the ground kicks up dirt only above this speed.
pub const DIRT_KICK_MIN_SPEED: i64 = 30_000;

/// A draw below this value, one tenth of the `u32` range, grants a bonus jump.
pub const BONUS_DRAW_LIMIT: u32 = 429_496_730;

/// Denominator of the jump cut factor.
pub const PER_MILLE: i64 = 1000;

#[derive(Clone, Copy, Debug, PartialEq, Eq, Structural)]
pub enum BurstKind {
    Normal,
    Bonus,
}

/// A mid-air jump happened at `pos`.
#[derive(Clone, Copy, Debug, PartialEq, Eq, Structural)]
pub struct JumpBurstEvent {
    pub pos: Vec2,
    pub kind: BurstKind,
}

/// The player reversed direction on the ground at `pos` and now moves toward
/// `dir` (`-1` left, `1` right).
#[derive(Clone, Copy, Debug, PartialEq, Eq, Structural)]
pub struct DirtKickEvent {
    pub pos: Vec2,
    pub dir: i8,
}

// ---------------------------------------------------------------------------
// Specification of one simulation step
// ---------------------------------------------------------------------------

/// `-1` for left, `1` for right, `0` for neither or both.
pub open spec fn input_dir_spec(keys: Keys) -> int {
    (if keys.right {
        1int
    } else {
        0int
    }) - (if keys.left {
        1int
    } else {
        0int
    })
}

/// `v * dt`, with `dt` in microseconds, rounded toward zero.
pub open spec fn per_time(v: int, dt: int) -> int {
    trunc_div(v * dt, MICROS_PER_SECOND as int)
}

/// Horizontal velocity after input: toward `dir * max_speed` at the
/// acceleration, or toward rest at the deceleration.
pub open spec fn step_vx(vx: int, dir: int, cfg: GameConfig, dt: int) -> int {
    if dir != 0 {
        approach_spec(vx, dir * cfg.max_speed.value, per_time(cfg.acceleration.value as int, dt))
    } else {
        approach_spec(vx, 0, per_time(cfg.deceleration.value as int, dt))
    }
}

/// Vertical velocity after gravity.
pub open spec fn step_vy(vy: int, cfg: GameConfig, dt: int) -> int {
    clamp_world(vy - per_time(cfg.gravity.value as int, dt))
}

/// Input, gravity and integration with the new velocity.
pub open spec fn motion_spec(p: Player, dir: int, cfg: GameConfig, dt: int) -> Player {
    let vx = step_vx(p.velocity.x as int, dir, cfg, dt);
    let vy = step_vy(p.velocity.y as int, cfg, dt);
    Player {
        translation: Vec2 {
            x: clamp_world(p.translation.x + per_time(vx, dt)) as i64,
            y: clamp_world(p.translation.y + per_time(vy, dt)) as i64,
        },
        velocity: Velocity { x: vx as i64, y: vy as i64 },
        jump: p.jump,
    }
}

/// Overlap depth of the player and ground boxes along x (positive when they overlap).
pub open spec fn pen_x(p: Player, g: Ground) -> int {
    PLAYER_HALF_WIDTH + g.w / 2 - abs(p.translation.x - g.x)
}

/// Overlap depth of the player and ground boxes along y (positive when they overlap).
pub open spec fn pen_y(p: Player, g: Ground) -> int {
    PLAYER_HALF_HEIGHT + g.h / 2 - abs(p.translation.y - g.y)
}

pub open spec fn player_bottom(p: Player) -> int {
    p.translation.y - PLAYER_HALF_HEIGHT
}

pub open spec fn ground_top(g: Ground) -> int {
    g.y + g.h / 2
}

/// The response to one platform: nothing without overlap or while rising
/// through it from below; otherwise a push out along the shallower axis,
/// where a vertical push only ever lands the player on top.
pub open spec fn resolve_ground_spec(p: Player, grounded: bool, g: Ground) -> (Player, bool) {
    if pen_x(p, g) <= 0 || pen_y(p, g) <= 0 {
        (p, grounded)
    } else if player_bottom(p) < ground_top(g) && p.velocity.y > 0 {
        (p, grounded)
    } else if pen_y(p, g) < pen_x(p, g) {
        if p.translation.y > g.y {
            (
                Player {
                    translation: Vec2 {
                        x: p.translation.x,
                        y: (ground_top(g) + PLAYER_HALF_HEIGHT) as i64,
                    },
                    velocity: Velocity { x: p.velocity.x, y: 0 },
                    jump: p.jump,
                },
                true,
            )
        } else {
            (p, grounded)
        }
    } else {
        let nx = if p.translation.x > g.x {
            g.x + g.w / 2 + PLAYER_HALF_WIDTH
        } else {
            g.x - g.w / 2 - PLAYER_HALF_WIDTH
        };
        (
            Player {
                translation: Vec2 { x: nx as i64, y: p.translation.y },
                velocity: Velocity { x: 0, y: p.velocity.y },
                jump: p.jump,
            },
            grounded,
        )
    }
}

/// The platforms answered one after another, in order.
pub open spec fn resolve_grounds_spec(p: Player, grounded: bool, gs: Seq<Ground>) -> (Player, bool)
    decreases gs.len(),
{
    if gs.len() == 0 {
        (p, grounded)
    } else {
        let prev = resolve_grounds_spec(p, grounded, gs.drop_last());
        resolve_ground_spec(prev.0, prev.1, gs.last())
    }
}

/// A dirt kick when the player, on the ground, pushes against a horizontal
/// speed above the threshold.
pub open spec fn dirt_kick_spec(p: Player, grounded: bool, dir: int, prev_vx: int) -> Seq<
    DirtKickEvent,
> {
    if grounded && dir != 0 && sign(prev_vx) != dir && abs(prev_vx) > DIRT_KICK_MIN_SPEED {
        seq![DirtKickEvent { pos: p.translation, dir: dir as i8 }]
    } else {
        seq![]
    }
}

/// The time since start-up in microseconds, saturated to 32 bits.
pub open spec fn time_bits(elapsed_us: u64) -> u32 {
    if elapsed_us > u32::MAX {
        u32::MAX
    } else {
        elapsed_us as u32
    }
}

/// The low 32 bits of a coordinate.
pub open spec fn coord_bits(v: i64) -> u32 {
    v as u32
}

/// One round of Marsaglia's 13/17/5 xorshift.
pub open spec fn xorshift32(h: u32) -> u32 {
    let a = h ^ (h << 13u32);
    let b = a ^ (a >> 17u32);
    b ^ (b << 5u32)
}

/// The pseudo-random draw of a mid-air jump: a function of the time, the
/// position and the jumps used, and of nothing else.
pub open spec fn bonus_draw_spec(elapsed_us: u64, x: i64, y: i64, jumps_used: u8) -> u32 {
    xorshift32(coord_bits(x) ^ coord_bits(y) ^ time_bits(elapsed_us) ^ (jumps_used as u32))
}

/// A mid-air jump after at least two jumps refunds one when the draw is low.
pub open spec fn bonus_granted(p: Player, grounded: bool, elapsed_us: u64) -> bool {
    &&& !grounded
    &&& p.jump.jumps_used > 1
    &&& bonus_draw_spec(elapsed_us, p.translation.x, p.translation.y, p.jump.jumps_used)
        < BONUS_DRAW_LIMIT
}

/// A press of the jump key: the new player state and the bursts it emits.
pub open spec fn jump_press_spec(p: Player, grounded: bool, cfg: GameConfig, elapsed_us: u64) -> (
    Player,
    Seq<JumpBurstEvent>,
) {
    let bonus = bonus_granted(p, grounded, elapsed_us);
    let used: int = if bonus {
        p.jump.jumps_used - 1
    } else {
        p.jump.jumps_used as int
    };
    if !grounded && used >= cfg.jump.max_jumps {
        (
            Player {
                translation: p.translation,
                velocity: p.velocity,
                jump: JumpState {
                    jumping: p.jump.jumping,
                    hold_us: p.jump.hold_us,
                    jumps_used: used as u8,
                },
            },
            seq![],
        )
    } else {
        let now_used: int = if grounded {
            1
        } else {
            min(used + 1, cfg.jump.max_jumps as int)
        };
        let q = Player {
            translation: p.translation,
            velocity: Velocity { x: p.velocity.x, y: cfg.jump.velocity },
            jump: JumpState { jumping: true, hold_us: 0, jumps_used: now_used as u8 },
        };
        let bonus_events = if bonus {
            seq![JumpBurstEvent { pos: q.translation, kind: BurstKind::Bonus }]
        } else {
            seq![]
        };
        let normal_events = if now_used >= 2 {
            seq![JumpBurstEvent { pos: q.translation, kind: BurstKind::Normal }]
        } else {
            seq![]
        };
        (q, bonus_events + normal_events)
    }
}

/// Holding the key while rising during a jump adds the frame's time.
pub open spec fn hold_spec(p: Player, keys: Keys, dt: int) -> Player {
    if p.jump.jumping && keys.jump_pressed && p.velocity.y > 0 {
        Player {
            translation: p.translation,
            velocity: p.velocity,
            jump: JumpState {
                jumping: p.jump.jumping,
                hold_us: min(p.jump.hold_us + dt, u64::MAX as int) as u64,
                jumps_used: p.jump.jumps_used,
            },
        }
    } else {
        p
    }
}

/// Releasing the key ends the jump, and cuts a rising speed when the key
/// was held for less than the limit.
pub open spec fn release_spec(p: Player, keys: Keys, cfg: GameConfig) -> Player {
    if keys.jump_just_released {
        let vy: int = if p.jump.hold_us < cfg.jump.max_hold_us && p.velocity.y > 0 {
            clamp_world(trunc_div(p.velocity.y * cfg.jump.cut_per_mille, PER_MILLE as int))
        } else {
            p.velocity.y as int
        };
        Player {
            translation: p.translation,
            velocity: Velocity { x: p.velocity.x, y: vy as i64 },
            jump: JumpState {
                jumping: false,
                hold_us: p.jump.hold_us,
                jumps_used: p.jump.jumps_used,
            },
        }
    } else {
        p
    }
}

/// Standing on ground at rest clears the jump state.
pub open spec fn landing_spec(p: Player, grounded: bool) -> Player {
    if grounded && p.velocity.y == 0 {
        Player { translation: p.translation, velocity: p.velocity, jump: JumpState::reset_spec() }
    } else {
        p
    }
}

/// What one step produces.
pub struct StepOutcome {
    pub player: Player,
    pub grounded: bool,
    pub bursts: Seq<JumpBurstEvent>,
    pub kicks: Seq<DirtKickEvent>,
}

/// One simulation step of the player against the platforms `gs`.
pub open spec fn step_spec(p: Player, gs: Seq<Ground>, cfg: GameConfig, time: Time, keys: Keys) -> StepOutcome {
    let dir = input_dir_spec(keys);
    let moved = motion_spec(p, dir, cfg, time.delta_us as int);
    let hit = resolve_grounds_spec(moved, false, gs);
    let kicks = dirt_kick_spec(hit.0, hit.1, dir, p.velocity.x as int);
    let jumped = if keys.jump_just_pressed {
        jump_press_spec(hit.0, hit.1, cfg, time.elapsed_us)
    } else {
        (hit.0, seq![])
    };
    let held = hold_spec(jumped.0, keys, time.delta_us as int);
    let released = release_spec(held, keys, cfg);
    StepOutcome {
        player: landing_spec(released, hit.1),
        grounded: hit.1,
        bursts: jumped.1,
        kicks,
    }
}

pub open spec fn grounds_wf(gs: Seq<Ground>) -> bool {
    forall|i: int| 0 <= i < gs.len() ==> #[trigger] gs[i].wf()
}

// ---------------------------------------------------------------------------
// Laws
// ---------------------------------------------------------------------------

/// A platform whose top lies strictly below the bottom of a rising player
/// gives no response: the player, its velocity and the grounded flag are
/// left as they were.
pub proof fn rising_above_platform_passes(p: Player, grounded: bool, g: Ground)
    requires
        player_bottom(p) > ground_top(g),
        p.velocity.y > 0,
    ensures
        resolve_ground_spec(p, grounded, g) == (p, grounded),
{
}

/// While rising, the player is never stopped by any platform: whatever
/// overlaps it is passed through from below.
pub proof fn rising_player_passes_through(p: Player, grounded: bool, g: Ground)
    requires
        p.velocity.y > 0,
    ensures
        resolve_ground_spec(p, grounded, g) == (p, grounded),
{
}

/// A step that ends with the player grounded and at vertical rest leaves
/// the jump state cleared.
pub proof fn landing_resets_jump(p: Player, gs: Seq<Ground>, cfg: GameConfig, time: Time, keys: Keys)
    requires
        step_spec(p, gs, cfg, time, keys).grounded,
        step_spec(p, gs, cfg, time, keys).player.velocity.y == 0,
    ensures
        step_spec(p, gs, cfg, time, keys).player.jump == JumpState::reset_spec(),
{
}

proof fn lemma_resolve_keeps_jump(p: Player, grounded: bool, gs: Seq<Ground>)
    ensures
        resolve_grounds_spec(p, grounded, gs).0.jump == p.jump,
    decreases gs.len(),
{
    if gs.len() > 0 {
        lemma_resolve_keeps_jump(p, grounded, gs.drop_last());
    }
}

/// With at least one jump allowed, a step never takes the jumps used above
/// the allowance.
pub proof fn jumps_stay_within_allowance(p: Player, gs: Seq<Ground>, cfg: GameConfig, time: Time, keys: Keys)
    requires
        cfg.jump.max_jumps >= 1,
        p.jump.jumps_used <= cfg.jump.max_jumps,
    ensures
        step_spec(p, gs, cfg, time, keys).player.jump.jumps_used <= cfg.jump.max_jumps,
{
    let dir = input_dir_spec(keys);
    let moved = motion_spec(p, dir, cfg, time.delta_us as int);
    lemma_resolve_keeps_jump(moved, false, gs);
}

/// The bonus draw, and whether it grants a jump, depend on the time, the
/// position and the jumps used alone: equal inputs give equal outcomes.
pub proof fn bonus_draw_is_deterministic(
    elapsed_a: u64,
    pos_a: Vec2,
    used_a: u8,
    elapsed_b: u64,
    pos_b: Vec2,
    used_b: u8,
)
    requires
        elapsed_a == elapsed_b,
        pos_a == pos_b,
        used_a == used_b,
    ensures
        bonus_draw_spec(elapsed_a, pos_a.x, pos_a.y, used_a) == bonus_draw_spec(
            elapsed_b,
            pos_b.x,
            pos_b.y,
            used_b,
        ),
        (bonus_draw_spec(elapsed_a, pos_a.x, pos_a.y, used_a) < BONUS_DRAW_LIMIT) == (
        bonus_draw_spec(elapsed_b, pos_b.x, pos_b.y, used_b) < BONUS_DRAW_LIMIT),
{
}


// ---------------------------------------------------------------------------
// Executable step
// ---------------------------------------------------------------------------

/// The horizontal direction the controls ask for.
pub fn player_input_system(keys: &Keys) -> (dir: i8)
    ensures
        dir == input_dir_spec(*keys),
{
    let mut dir: i8 = 0;
    if keys.left {
        dir = dir - 1;
    }
    if keys.right {
        dir = dir + 1;
    }
    dir
}

/// `v * dt` for a world-bounded `v`, with `dt` in microseconds.
fn scale_by_time(v: i64, dt: u32) -> (r: i64)
    requires
        -WORLD_LIMIT <= v <= WORLD_LIMIT,
    ensures
        r == per_time(v as int, dt as int),
        abs(r as int) <= 4_295 * WORLD_LIMIT,
{
    let q = mul_div(v, dt as i64, MICROS_PER_SECOND);
    assert(abs(v * dt) <= WORLD_LIMIT * 4_294_967_295) by (nonlinear_arith)
        requires
            -WORLD_LIMIT <= v <= WORLD_LIMIT,
            0 <= dt <= 4_294_967_295,
    ;
    q as i64
}

/// Applies input, gravity and integration.
fn apply_motion(p: Player, dir: i8, cfg: &GameConfig, dt: u32) -> (r: Player)
    requires
        p.in_world(),
        cfg.wf(),
        -1 <= dir <= 1,
    ensures
        r == motion_spec(p, dir as int, *cfg, dt as int),
        r.in_world(),
{
    let vx = if dir != 0 {
        let target: i64 = if dir > 0 {
            assert(dir as int * cfg.max_speed.value == cfg.max_speed.value) by {
                assert(dir == 1);
            }
            cfg.max_speed.value
        } else {
            assert(dir as int * cfg.max_speed.value == -cfg.max_speed.value) by {
                assert(dir == -1);
            }
            -cfg.max_speed.value
        };
        approach(p.velocity.x, target, scale_by_time(cfg.acceleration.value, dt))
    } else {
        approach(p.velocity.x, 0, scale_by_time(cfg.deceleration.value, dt))
    };
    let fall = scale_by_time(cfg.gravity.value, dt);
    let vy = clamp_to_world(p.velocity.y as i128 - fall as i128);
    let dx = scale_by_time(vx, dt);
    let dy = scale_by_time(vy, dt);
    let x = clamp_to_world(p.translation.x as i128 + dx as i128);
    let y = clamp_to_world(p.translation.y as i128 + dy as i128);
    Player { translation: Vec2 { x, y }, velocity: Velocity { x: vx, y: vy }, jump: p.jump }
}

/// Answers one platform.
fn resolve_ground(p: Player, grounded: bool, g: &Ground) -> (r: (Player, bool))
    requires
        p.in_world(),
        g.wf(),
    ensures
        r == resolve_ground_spec(p, grounded, *g),
        r.0.in_world(),
{
    let half_w = g.w / 2;
    let half_h = g.h / 2;
    let dx = if p.translation.x >= g.x {
        p.translation.x - g.x
    } else {
        g.x - p.translation.x
    };
    let dy = if p.translation.y >= g.y {
        p.translation.y - g.y
    } else {
        g.y - p.translation.y
    };
    let pen_x = PLAYER_HALF_WIDTH + half_w - dx;
    let pen_y = PLAYER_HALF_HEIGHT + half_h - dy;
    if pen_x <= 0 || pen_y <= 0 {
        return (p, grounded);
    }
    let bottom = p.translation.y - PLAYER_HALF_HEIGHT;
    let top = g.y + half_h;
    if bottom < top && p.velocity.y > 0 {
        (p, grounded)
    } else if pen_y < pen_x {
        if p.translation.y > g.y {
            (
                Player {
                    translation: Vec2 { x: p.translation.x, y: top + PLAYER_HALF_HEIGHT },
                    velocity: Velocity { x: p.velocity.x, y: 0 },
                    jump: p.jump,
                },
                true,
            )
        } else {
            (p, grounded)
        }
    } else {
        let nx = if p.translation.x > g.x {
            g.x + half_w + PLAYER_HALF_WIDTH
        } else {
            g.x - half_w - PLAYER_HALF_WIDTH
        };
        (
            Player {
                translation: Vec2 { x: nx, y: p.translation.y },
                velocity: Velocity { x: 0, y: p.velocity.y },
                jump: p.jump,
            },
            grounded,
        )
    }
}

/// Answers every platform in order.
fn resolve_grounds(p: Player, grounds: &Vec<Ground>) -> (r: (Player, bool))
    requires
        p.in_world(),
        grounds_wf(grounds@),
    ensures
        r == resolve_grounds_spec(p, false, grounds@),
        r.0.in_world(),
{
    let mut cur = p;
    let mut grounded = false;
    let mut i: usize = 0;
    while i < grounds.len()
        invariant
            0 <= i <= grounds@.len(),
            grounds_wf(grounds@),
            (cur, grounded) == resolve_grounds_spec(p, false, grounds@.subrange(0, i as int)),
            cur.in_world(),
        decreases grounds@.len() - i,
    {
        assert(grounds@[i as int].wf());
        let r = resolve_ground(cur, grounded, &grounds[i]);
        proof {
            let next = grounds@.subrange(0, i + 1);
            assert(next.drop_last() =~= grounds@.subrange(0, i as int));
            assert(next.last() == grounds@[i as int]);
        }
        cur = r.0;
        grounded = r.1;
        i = i + 1;
    }
    assert(grounds@.subrange(0, grounds@.len() as int) =~= grounds@);
    (cur, grounded)
}

/// The pseudo-random draw of a mid-air jump.
pub fn bonus_draw(elapsed_us: u64, x: i64, y: i64, jumps_used: u8) -> (r: u32)
    ensures
        r == bonus_draw_spec(elapsed_us, x, y, jumps_used),
{
    let tbits: u32 = if elapsed_us > u32::MAX as u64 {
        u32::MAX
    } else {
        elapsed_us as u32
    };
    let xb: u32 = x as u32;
    let yb: u32 = y as u32;
    let mut h: u32 = xb ^ yb ^ tbits ^ (jumps_used as u32);
    h = h ^ (h << 13u32);
    h = h ^ (h >> 17u32);
    h = h ^ (h << 5u32);
    h
}

/// Handles a press of the jump key, emitting its bursts.
fn jump_press(
    p: Player,
    grounded: bool,
    cfg: &GameConfig,
    elapsed_us: u64,
    ev_burst: &mut Vec<JumpBurstEvent>,
) -> (r: Player)
    requires
        p.in_world(),
        cfg.wf(),
    ensures
        r == jump_press_spec(p, grounded, *cfg, elapsed_us).0,
        final(ev_burst)@ == old(ev_burst)@ + jump_press_spec(p, grounded, *cfg, elapsed_us).1,
        r.in_world(),
{
    let mut used: u8 = p.jump.jumps_used;
    let mut bonus = false;
    if !grounded && used > 1 {
        let draw = bonus_draw(elapsed_us, p.translation.x, p.translation.y, used);
        if draw < BONUS_DRAW_LIMIT {
            used = used - 1;
            bonus = true;
        }
    }
    if !grounded && used >= cfg.jump.max_jumps {
        return Player {
            translation: p.translation,
            velocity: p.velocity,
            jump: JumpState { jumping: p.jump.jumping, hold_us: p.jump.hold_us, jumps_used: used },
        };
    }
    let now_used: u8 = if grounded {
        1
    } else if used + 1 < cfg.jump.max_jumps {
        used + 1
    } else {
        cfg.jump.max_jumps
    };
    let q = Player {
        translation: p.translation,
        velocity: Velocity { x: p.velocity.x, y: cfg.jump.velocity },
        jump: JumpState { jumping: true, hold_us: 0, jumps_used: now_used },
    };
    let ghost before = ev_burst@;
    if bonus {
        ev_burst.push(JumpBurstEvent { pos: q.translation, kind: BurstKind::Bonus });
    }
    if now_used >= 2 {
        ev_burst.push(JumpBurstEvent { pos: q.translation, kind: BurstKind::Normal });
    }
    assert(ev_burst@ =~= before + jump_press_spec(p, grounded, *cfg, elapsed_us).1);
    q
}

/// Tracks hold time, the early-release cut and landing.
fn finish_jump(p: Player, grounded: bool, keys: &Keys, cfg: &GameConfig, dt: u32) -> (r: Player)
    requires
        p.in_world(),
        cfg.wf(),
    ensures
        r == landing_spec(release_spec(hold_spec(p, *keys, dt as int), *keys, *cfg), grounded),
        r.in_world(),
{
    let mut q = p;
    if q.jump.jumping && keys.jump_pressed && q.velocity.y > 0 {
        let hold = if q.jump.hold_us > u64::MAX - dt as u64 {
            u64::MAX
        } else {
            q.jump.hold_us + dt as u64
        };
        q.jump.hold_us = hold;
    }
    if keys.jump_just_released {
        if q.jump.hold_us < cfg.jump.max_hold_us && q.velocity.y > 0 {
            let cut = mul_div(q.velocity.y, cfg.jump.cut_per_mille, PER_MILLE);
            q.velocity.y = clamp_to_world(cut);
        }
        q.jump.jumping = false;
    }
    if grounded && q.velocity.y == 0 {
        q.jump = JumpState::reset();
    }
    q
}

/// One simulation step of the player: horizontal input, gravity,
/// integration, collision against every platform, the dirt kick, and the
/// jump key. Without a player nothing happens.
pub fn physics_and_collision_system(
    time: &Time,
    cfg: &GameConfig,
    keys: &Keys,
    player: &mut Option<Player>,
    grounds: &Vec<Ground>,
    ev_burst: &mut Vec<JumpBurstEvent>,
    ev_dirt: &mut Vec<DirtKickEvent>,
)
    requires
        cfg.wf(),
        grounds_wf(grounds@),
        match *old(player) {
            Some(p) => p.in_world(),
            None => true,
        },
    ensures
        match *old(player) {
            None => {
                &&& *final(player) == None::<Player>
                &&& final(ev_burst)@ == old(ev_burst)@
                &&& final(ev_dirt)@ == old(ev_dirt)@
            },
            Some(p) => {
                let out = step_spec(p, grounds@, *cfg, *time, *keys);
                &&& *final(player) == Some(out.player)
                &&& final(ev_burst)@ == old(ev_burst)@ + out.bursts
                &&& final(ev_dirt)@ == old(ev_dirt)@ + out.kicks
                &&& out.player.in_world()
                &&& (cfg.jump.max_jumps >= 1 && p.jump.jumps_used <= cfg.jump.max_jumps)
                    ==> out.player.jump.jumps_used <= cfg.jump.max_jumps
                &&& (out.grounded && out.player.velocity.y == 0) ==> out.player.jump
                    == JumpState::reset_spec()
            },
        },
{
    let p = match player {
        Some(p) => *p,
        None => {
            return ;
        },
    };
    proof {
        if cfg.jump.max_jumps >= 1 && p.jump.jumps_used <= cfg.jump.max_jumps {
            jumps_stay_within_allowance(p, grounds@, *cfg, *time, *keys);
        }
    }
    let dir = player_input_system(keys);
    let moved = apply_motion(p, dir, cfg, time.delta_us);
    let hit = resolve_grounds(moved, grounds);
    let grounded = hit.1;
    let ghost kicks_before = ev_dirt@;
    if grounded && dir != 0 {
        let prev_vx = p.velocity.x;
        let old_dir: i8 = if prev_vx < 0 {
            -1
        } else if prev_vx > 0 {
            1
        } else {
            0
        };
        let fast = prev_vx > DIRT_KICK_MIN_SPEED || prev_vx < -DIRT_KICK_MIN_SPEED;
        if old_dir != dir && fast {
            ev_dirt.push(DirtKickEvent { pos: hit.0.translation, dir });
        }
    }
    assert(ev_dirt@ =~= kicks_before + dirt_kick_spec(hit.0, grounded, dir as int, p.velocity.x as int));
    let jumped = if keys.jump_just_pressed {
        jump_press(hit.0, grounded, cfg, time.elapsed_us, ev_burst)
    } else {
        assert(ev_burst@ =~= ev_burst@ + Seq::<JumpBurstEvent>::empty());
        hit.0
    };
    let done = finish_jump(jumped, grounded, keys, cfg, time.delta_us);
    *player = Some(done);
}


// ---------------------------------------------------------------------------
// Death and respawn
// ---------------------------------------------------------------------------

/// The recorded start of the level, or the origin when none was recorded.
pub open spec fn start_or_origin(level_start: Option<LevelStart>) -> Vec2 {
    match level_start {
        Some(s) => s.0,
        None => Vec2 { x: 0, y: 0 },
    }
}

/// The player has fallen below the death line while the game runs.
pub open spec fn falls_to_death(state: GameState, player: Option<Player>) -> bool {
    &&& state == GameState::Running
    &&& player matches Some(p)
    &&& p.translation.y < DEATH_Y
}

/// Takes a life from a player who fell below the death line. The last life
/// ends the game and shows the game-over overlay; otherwise the player is
/// queued to reappear at the level's start.
pub fn death_check_system(
    lives: &mut Lives,
    state: &mut GameState,
    pending: &mut PendingStart,
    level_start: &Option<LevelStart>,
    player: &Option<Player>,
    over: &mut GameOverUi,
)
    ensures
        !falls_to_death(*old(state), *player) ==> {
            &&& *final(lives) == *old(lives)
            &&& *final(state) == *old(state)
            &&& *final(pending) == *old(pending)
            &&& *final(over) == *old(over)
        },
        falls_to_death(*old(state), *player) ==> {
            &&& final(lives).max == old(lives).max
            &&& final(lives).current == if old(lives).current > 0 {
                old(lives).current - 1
            } else {
                0
            }
            &&& final(lives).current == 0 ==> {
                &&& *final(state) == GameState::GameOver
                &&& final(over).visible
                &&& *final(pending) == *old(pending)
            }
            &&& final(lives).current != 0 ==> {
                &&& *final(state) == GameState::Running
                &&& *final(over) == *old(over)
                &&& final(pending).0 == Some(start_or_origin(*level_start))
            }
        },
{
    if let GameState::GameOver = *state {
        return ;
    }
    let y = match player {
        Some(p) => p.translation.y,
        None => {
            return ;
        },
    };
    if y < DEATH_Y {
        if lives.current > 0 {
            lives.current = lives.current - 1;
        }
        if lives.current == 0 {
            *state = GameState::GameOver;
            over.visible = true;
        } else {
            let start = match level_start {
                Some(s) => s.0,
                None => Vec2::zero(),
            };
            pending.0 = Some(start);
        }
    }
}

/// Consumes a pending start: the player is placed there at rest with its
/// jump state cleared, and the camera moves to its column at height zero.
pub fn apply_pending_start_system(
    pending: &mut PendingStart,
    player: &mut Option<Player>,
    camera: &mut Option<Vec2>,
)
    ensures
        final(pending).0 == None::<Vec2>,
        match old(pending).0 {
            None => *final(player) == *old(player) && *final(camera) == *old(camera),
            Some(pos) => {
                &&& *final(player) == match *old(player) {
                    Some(_) => Some(
                        Player {
                            translation: pos,
                            velocity: Velocity { x: 0, y: 0 },
                            jump: JumpState::reset_spec(),
                        },
                    ),
                    None => None,
                }
                &&& *final(camera) == match *old(camera) {
                    Some(_) => Some(Vec2 { x: pos.x, y: 0 }),
                    None => None,
                }
            },
        },
{
    let taken = pending.0;
    pending.0 = None;
    if let Some(pos) = taken {
        if player.is_some() {
            *player = Some(Player::at(pos));
        }
        if camera.is_some() {
            *camera = Some(Vec2 { x: pos.x, y: 0 });
        }
    }
}

} // verus!
