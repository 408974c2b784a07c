use side_scroller::components::{Ground, JumpState, Player, Velocity};
use side_scroller::config::GameConfig;
use side_scroller::geometry::{approach, Vec2};
use side_scroller::player::{
    bonus_draw, physics_and_collision_system, player_input_system, BurstKind, DirtKickEvent,
    JumpBurstEvent,
};
use side_scroller::resources::{Keys, Time};

fn no_keys() -> Keys {
    Keys { left: false, right: false, jump_just_pressed: false, jump_pressed: false, jump_just_released: false }
}

fn floor() -> Ground {
    Ground { x: 0, y: -150_000, w: 1_000_000, h: 40_000 }
}

fn player(x: i64, y: i64, vx: i64, vy: i64, jump: JumpState) -> Player {
    Player { translation: Vec2 { x, y }, velocity: Velocity { x: vx, y: vy }, jump }
}

fn step(p: Player, grounds: &Vec<Ground>, keys: Keys, dt: u32, elapsed: u64) -> (Player, Vec<JumpBurstEvent>, Vec<DirtKickEvent>) {
    let cfg = GameConfig::default();
    let mut slot = Some(p);
    let mut bursts = Vec::new();
    let mut kicks = Vec::new();
    let time = Time { delta_us: dt, elapsed_us: elapsed };
    physics_and_collision_system(&time, &cfg, &keys, &mut slot, grounds, &mut bursts, &mut kicks);
    (slot.unwrap(), bursts, kicks)
}

#[test]
fn approach_moves_by_at_most_the_step() {
    assert_eq!(approach(0, 300_000, 200_000), 200_000);
    assert_eq!(approach(200_000, 300_000, 200_000), 300_000);
    assert_eq!(approach(500, -500, 200), 300);
    assert_eq!(approach(500, -500, 5_000), -500);
    assert_eq!(approach(7, 100, -3), 7);
    assert_eq!(approach(42, 42, 10), 42);
}

#[test]
fn input_direction_from_keys() {
    let mut k = no_keys();
    assert_eq!(player_input_system(&k), 0);
    k.left = true;
    assert_eq!(player_input_system(&k), -1);
    k.right = true;
    assert_eq!(player_input_system(&k), 0);
    k.left = false;
    assert_eq!(player_input_system(&k), 1);
}

#[test]
fn acceleration_reaches_max_speed_on_second_tick() {
    let keys = Keys { right: true, ..no_keys() };
    let p0 = player(0, 0, 0, 0, JumpState::reset());
    let (p1, _, _) = step(p0, &vec![], keys, 100_000, 100_000);
    assert_eq!(p1.velocity.x, 200_000);
    assert_eq!(p1.translation.x, 20_000);
    let (p2, _, _) = step(p1, &vec![], keys, 100_000, 200_000);
    assert_eq!(p2.velocity.x, 300_000);
    assert_eq!(p2.translation.x, 50_000);
}

#[test]
fn gravity_then_integration() {
    let p0 = player(0, 0, 0, 0, JumpState::reset());
    let (p1, _, _) = step(p0, &vec![], no_keys(), 16_000, 16_000);
    assert_eq!(p1.velocity.y, -22_400);
    assert_eq!(p1.translation.y, -358);
}

#[test]
fn deceleration_without_input() {
    let p0 = player(0, 0, 100_000, 0, JumpState::reset());
    let (p1, _, _) = step(p0, &vec![], no_keys(), 10_000, 10_000);
    assert_eq!(p1.velocity.x, 82_000);
    assert_eq!(p1.translation.x, 820);
}

#[test]
fn landing_snaps_on_top_and_resets_jump() {
    let jump = JumpState { jumping: true, hold_us: 5_000, jumps_used: 2 };
    let p0 = player(0, -114_500, 0, 0, jump);
    let (p1, bursts, kicks) = step(p0, &vec![floor()], no_keys(), 16_000, 16_000);
    assert_eq!(p1.translation, Vec2 { x: 0, y: -114_000 });
    assert_eq!(p1.velocity, Velocity { x: 0, y: 0 });
    assert_eq!(p1.jump, JumpState { jumping: false, hold_us: 0, jumps_used: 0 });
    assert!(bursts.is_empty());
    assert!(kicks.is_empty());
}

#[test]
fn rising_player_passes_up_through_platform() {
    let p0 = player(0, -150_000, 0, 500_000, JumpState::reset());
    let (p1, _, _) = step(p0, &vec![floor()], no_keys(), 16_000, 16_000);
    assert_eq!(p1.translation, Vec2 { x: 0, y: -142_359 });
    assert_eq!(p1.velocity, Velocity { x: 0, y: 477_600 });
}

#[test]
fn falling_into_a_wall_is_pushed_out_sideways() {
    let wall = Ground { x: 100_000, y: 0, w: 40_000, h: 400_000 };
    let p0 = player(70_000, 0, 300_000, 0, JumpState::reset());
    let keys = Keys { right: true, ..no_keys() };
    let (p1, _, _) = step(p0, &vec![wall], keys, 10_000, 10_000);
    assert_eq!(p1.translation.x, 100_000 - 20_000 - 16_000);
    assert_eq!(p1.velocity.x, 0);
}

#[test]
fn platform_below_centre_is_not_pushed_down() {
    // the player's centre is below the platform's centre while falling: no response
    let ceiling = Ground { x: 0, y: 100_000, w: 1_000_000, h: 40_000 };
    let p0 = player(0, 80_000, 0, -1_000, JumpState::reset());
    let (p1, _, _) = step(p0, &vec![ceiling], no_keys(), 0, 0);
    assert_eq!(p1, p0);
}

#[test]
fn jump_from_ground_uses_one_jump() {
    let p0 = player(0, -114_000, 0, 0, JumpState::reset());
    let keys = Keys { jump_just_pressed: true, jump_pressed: true, ..no_keys() };
    let (p1, bursts, _) = step(p0, &vec![floor()], keys, 16_000, 16_000);
    assert_eq!(p1.translation, Vec2 { x: 0, y: -114_000 });
    assert_eq!(p1.velocity.y, 600_000);
    assert_eq!(p1.jump, JumpState { jumping: true, hold_us: 16_000, jumps_used: 1 });
    assert!(bursts.is_empty());
}

#[test]
fn second_jump_in_air_emits_normal_burst() {
    let p0 = player(0, 0, 0, 100_000, JumpState { jumping: false, hold_us: 0, jumps_used: 1 });
    let keys = Keys { jump_just_pressed: true, jump_pressed: true, ..no_keys() };
    let (p1, bursts, _) = step(p0, &vec![], keys, 16_000, 16_000);
    assert_eq!(p1.translation, Vec2 { x: 0, y: 1_241 });
    assert_eq!(p1.velocity.y, 600_000);
    assert_eq!(p1.jump.jumps_used, 2);
    assert_eq!(bursts, vec![JumpBurstEvent { pos: Vec2 { x: 0, y: 1_241 }, kind: BurstKind::Normal }]);
}

#[test]
fn third_jump_without_bonus_is_refused() {
    let p0 = player(0, -5_000, 0, 0, JumpState { jumping: false, hold_us: 0, jumps_used: 2 });
    let keys = Keys { jump_just_pressed: true, jump_pressed: true, ..no_keys() };
    let (p1, bursts, _) = step(p0, &vec![], keys, 0, 0);
    assert_eq!(p1, p0);
    assert!(bursts.is_empty());
}

#[test]
fn low_draw_grants_bonus_jump() {
    let p0 = player(0, -5_000, 0, 0, JumpState { jumping: false, hold_us: 0, jumps_used: 2 });
    let keys = Keys { jump_just_pressed: true, ..no_keys() };
    let (p1, bursts, _) = step(p0, &vec![], keys, 0, 5_000);
    assert_eq!(p1.velocity.y, 600_000);
    assert_eq!(p1.jump, JumpState { jumping: true, hold_us: 0, jumps_used: 2 });
    let at = Vec2 { x: 0, y: -5_000 };
    assert_eq!(
        bursts,
        vec![
            JumpBurstEvent { pos: at, kind: BurstKind::Bonus },
            JumpBurstEvent { pos: at, kind: BurstKind::Normal },
        ]
    );
}

#[test]
fn bonus_draw_is_reproducible() {
    assert_eq!(bonus_draw(123_456, 1_000, -2_000, 2), 2_774_907_004);
    assert_eq!(bonus_draw(123_456, 1_000, -2_000, 2), bonus_draw(123_456, 1_000, -2_000, 2));
    assert_eq!(bonus_draw(5_000, 0, -5_000, 2), 3_555_762);
    assert_eq!(bonus_draw(0, 0, -5_000, 2), 1_281_688_834);
    // time saturates at 32 bits
    assert_eq!(bonus_draw(u64::MAX, 3, 4, 1), bonus_draw(u32::MAX as u64, 3, 4, 1));
}

#[test]
fn jumps_never_exceed_allowance() {
    let mut p = player(0, 0, 0, 0, JumpState::reset());
    let keys = Keys { jump_just_pressed: true, jump_pressed: true, ..no_keys() };
    for i in 0..200u64 {
        let (q, _, _) = step(p, &vec![], keys, 1_000, i * 7_919);
        assert!(q.jump.jumps_used <= 2);
        p = q;
    }
}

#[test]
fn early_release_cuts_rising_speed() {
    let p0 = player(0, 0, 0, 400_000, JumpState { jumping: true, hold_us: 50_000, jumps_used: 1 });
    let keys = Keys { jump_just_released: true, ..no_keys() };
    let (p1, _, _) = step(p0, &vec![], keys, 16_000, 16_000);
    assert_eq!(p1.velocity.y, 188_800);
    assert!(!p1.jump.jumping);
}

#[test]
fn late_release_keeps_speed() {
    let p0 = player(0, 0, 0, 400_000, JumpState { jumping: true, hold_us: 200_000, jumps_used: 1 });
    let keys = Keys { jump_just_released: true, ..no_keys() };
    let (p1, _, _) = step(p0, &vec![], keys, 16_000, 16_000);
    assert_eq!(p1.velocity.y, 377_600);
    assert!(!p1.jump.jumping);
    assert_eq!(p1.jump.hold_us, 200_000);
}

#[test]
fn reversal_on_ground_kicks_dirt() {
    let p0 = player(0, -114_000, -100_000, 0, JumpState::reset());
    let keys = Keys { right: true, ..no_keys() };
    let (p1, _, kicks) = step(p0, &vec![floor()], keys, 16_000, 16_000);
    assert_eq!(p1.velocity.x, -68_000);
    assert_eq!(p1.translation, Vec2 { x: -1_088, y: -114_000 });
    assert_eq!(kicks, vec![DirtKickEvent { pos: Vec2 { x: -1_088, y: -114_000 }, dir: 1 }]);
}

#[test]
fn slow_reversal_kicks_no_dirt() {
    let p0 = player(0, -114_000, -20_000, 0, JumpState::reset());
    let keys = Keys { right: true, ..no_keys() };
    let (_, _, kicks) = step(p0, &vec![floor()], keys, 16_000, 16_000);
    assert!(kicks.is_empty());
}

#[test]
fn missing_player_is_left_alone() {
    let cfg = GameConfig::default();
    let mut slot: Option<Player> = None;
    let mut bursts = Vec::new();
    let mut kicks = Vec::new();
    let keys = Keys { jump_just_pressed: true, ..no_keys() };
    let time = Time { delta_us: 16_000, elapsed_us: 16_000 };
    physics_and_collision_system(&time, &cfg, &keys, &mut slot, &vec![floor()], &mut bursts, &mut kicks);
    assert!(slot.is_none());
    assert!(bursts.is_empty() && kicks.is_empty());
}

#[test]
fn long_fall_stays_within_world_bounds() {
    let mut p = player(0, 0, 0, 0, JumpState::reset());
    for i in 0..200u64 {
        let (q, _, _) = step(p, &vec![], no_keys(), u32::MAX, i);
        p = q;
    }
    assert_eq!(p.velocity.y, -side_scroller::geometry::WORLD_LIMIT);
    assert_eq!(p.translation.y, -side_scroller::geometry::WORLD_LIMIT);
}
