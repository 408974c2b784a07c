use side_scroller::components::{Exit, GameOverUi, Ground, HeartSlot, JumpState, LivesUi, Player, Velocity};
use side_scroller::geometry::Vec2;
use side_scroller::level_format::{level_path, Exit as ExitDef, Level, Meta, Rect, Start};
use side_scroller::levels::{
    do_load_level, exit_detection_system, level_transition_system, poll_wasm_level_task,
    spawn_loaded_level, WasmLevelChan,
};
use side_scroller::player::{apply_pending_start_system, death_check_system};
use side_scroller::resources::{GameState, LevelManager, LevelRequest, LevelStart, Lives, PendingStart};
use side_scroller::ui::{game_over_restart_system, update_lives_ui_system};

fn at(x: i64, y: i64) -> Player {
    Player { translation: Vec2 { x, y }, velocity: Velocity { x: 0, y: 0 }, jump: JumpState::reset() }
}

fn exit(x: i64, y: i64, w: i64, h: i64, next: &str) -> Exit {
    Exit { x, y, w, h, next: next.to_string() }
}

fn sample_level() -> Level {
    Level {
        meta: Meta { name: "level1".to_string() },
        start: Start { x: 0, y: 0 },
        platforms: vec![Rect { x: 0, y: -150_000, w: 1_000_000, h: 40_000 }],
        exits: vec![ExitDef { x: 500_000, y: -100_000, w: 40_000, h: 80_000, next: "level2".to_string() }],
    }
}

#[test]
fn bare_name_resolves_under_levels() {
    assert_eq!(level_path("level1"), "levels/level1.toml");
    assert_eq!(level_path(""), "levels/.toml");
}

#[test]
fn paths_are_used_verbatim() {
    assert_eq!(level_path("custom/level.txt"), "custom/level.txt");
    assert_eq!(level_path("dir\\lvl"), "dir\\lvl");
    assert_eq!(level_path("bonus.toml"), "bonus.toml");
    assert_eq!(level_path(".tom"), "levels/.tom.toml");
}

#[test]
fn exit_overlap_requests_next_level() {
    let mut req = LevelRequest(None);
    let exits = vec![exit(500_000, -100_000, 40_000, 80_000, "level2")];
    exit_detection_system(&mut req, &Some(at(500_000, -100_000)), &exits);
    assert_eq!(req, LevelRequest(Some("level2".to_string())));
}

#[test]
fn first_overlapping_exit_wins() {
    let mut req = LevelRequest(None);
    let exits = vec![
        exit(0, 0, 10_000, 10_000, "far"),
        exit(500_000, -100_000, 40_000, 80_000, "a"),
        exit(500_000, -100_000, 40_000, 80_000, "b"),
    ];
    exit_detection_system(&mut req, &Some(at(500_000, -100_000)), &exits);
    assert_eq!(req.0.as_deref(), Some("a"));
}

#[test]
fn touching_edges_is_no_overlap() {
    let mut req = LevelRequest(None);
    // player half 16, exit half 20: centres 36 apart just touch
    let exits = vec![exit(536_000, -100_000, 40_000, 80_000, "level2")];
    exit_detection_system(&mut req, &Some(at(500_000, -100_000)), &exits);
    assert_eq!(req.0, None);
    exit_detection_system(&mut req, &Some(at(500_001, -100_000)), &exits);
    assert_eq!(req.0.as_deref(), Some("level2"));
}

#[test]
fn pending_request_is_not_replaced() {
    let mut req = LevelRequest(Some("old".to_string()));
    let exits = vec![exit(0, 0, 40_000, 80_000, "new")];
    exit_detection_system(&mut req, &Some(at(0, 0)), &exits);
    assert_eq!(req.0.as_deref(), Some("old"));
    let mut empty = LevelRequest(None);
    exit_detection_system(&mut empty, &None, &exits);
    assert_eq!(empty.0, None);
}

#[test]
fn transition_clears_level_and_starts_load() {
    let mut req = LevelRequest(Some("level2".to_string()));
    let mut chan = WasmLevelChan(None);
    let mut mgr = LevelManager { current: "level1".to_string() };
    let mut grounds = vec![Ground { x: 0, y: 0, w: 10, h: 10 }];
    let mut exits = vec![exit(0, 0, 1, 1, "x")];
    let load = level_transition_system(&mut req, &mut chan, &mut mgr, &mut grounds, &mut exits);
    assert_eq!(load.as_deref(), Some("levels/level2.toml"));
    assert_eq!(req.0, None);
    assert_eq!(mgr.current, "level2");
    assert!(grounds.is_empty() && exits.is_empty());
    assert_eq!(chan.0.as_deref(), Some("levels/level2.toml"));
}

#[test]
fn transition_waits_for_outstanding_load() {
    let mut req = LevelRequest(Some("level3".to_string()));
    let mut chan = WasmLevelChan(Some("levels/level2.toml".to_string()));
    let mut mgr = LevelManager { current: "level2".to_string() };
    let mut grounds = vec![Ground { x: 0, y: 0, w: 10, h: 10 }];
    let mut exits = Vec::new();
    let load = level_transition_system(&mut req, &mut chan, &mut mgr, &mut grounds, &mut exits);
    assert_eq!(load, None);
    assert_eq!(req.0.as_deref(), Some("level3"));
    assert_eq!(mgr.current, "level2");
    assert_eq!(grounds.len(), 1);
}

#[test]
fn no_request_no_transition() {
    let mut req = LevelRequest(None);
    let mut chan = WasmLevelChan(None);
    let mut mgr = LevelManager { current: "level1".to_string() };
    let mut grounds = Vec::new();
    let mut exits = Vec::new();
    assert_eq!(level_transition_system(&mut req, &mut chan, &mut mgr, &mut grounds, &mut exits), None);
    assert_eq!(chan.0, None);
}

#[test]
fn loaded_level_is_spawned_and_start_queued() {
    let mut grounds = Vec::new();
    let mut exits = Vec::new();
    let mut pending = PendingStart(None);
    let mut start = None;
    let mut level = sample_level();
    level.start = Start { x: 12_000, y: 34_000 };
    assert!(spawn_loaded_level(&level, &mut grounds, &mut exits, &mut pending, &mut start));
    assert_eq!(grounds, vec![Ground { x: 0, y: -150_000, w: 1_000_000, h: 40_000 }]);
    assert_eq!(exits, vec![exit(500_000, -100_000, 40_000, 80_000, "level2")]);
    assert_eq!(pending, PendingStart(Some(Vec2 { x: 12_000, y: 34_000 })));
    assert_eq!(start, Some(LevelStart(Vec2 { x: 12_000, y: 34_000 })));
}

#[test]
fn level_out_of_bounds_is_rejected() {
    let mut grounds = Vec::new();
    let mut exits = Vec::new();
    let mut pending = PendingStart(None);
    let mut start = None;
    let mut level = sample_level();
    level.platforms.push(Rect { x: 0, y: 0, w: -1, h: 10 });
    assert!(!level.is_valid());
    assert!(!spawn_loaded_level(&level, &mut grounds, &mut exits, &mut pending, &mut start));
    assert!(grounds.is_empty() && exits.is_empty());
    assert_eq!(pending.0, None);
    assert_eq!(start, None);
    let mut far = sample_level();
    far.start = Start { x: 100_000_000_001, y: 0 };
    assert!(!far.is_valid());
    assert!(sample_level().is_valid());
}

#[test]
fn finished_load_spawns_and_frees_slot() {
    let mut chan = WasmLevelChan(None);
    let path = do_load_level(&mut chan, "level1");
    assert_eq!(path, "levels/level1.toml");
    let mut grounds = Vec::new();
    let mut exits = Vec::new();
    let mut pending = PendingStart(None);
    let mut start = None;
    let spawned = poll_wasm_level_task(&mut chan, Some(sample_level()), &mut grounds, &mut exits, &mut pending, &mut start);
    assert!(spawned);
    assert_eq!(chan.0, None);
    assert_eq!(grounds.len(), 1);
    assert_eq!(pending.0, Some(Vec2 { x: 0, y: 0 }));
}

#[test]
fn failed_load_frees_slot_and_changes_nothing() {
    let mut chan = WasmLevelChan(Some("levels/missing.toml".to_string()));
    let mut grounds = Vec::new();
    let mut exits = Vec::new();
    let mut pending = PendingStart(None);
    let mut start = None;
    assert!(!poll_wasm_level_task(&mut chan, None, &mut grounds, &mut exits, &mut pending, &mut start));
    assert_eq!(chan.0, None);
    assert_eq!(pending.0, None);
    // a result with no outstanding load is ignored
    assert!(!poll_wasm_level_task(&mut chan, Some(sample_level()), &mut grounds, &mut exits, &mut pending, &mut start));
    assert!(grounds.is_empty());
}

#[test]
fn pending_start_moves_player_and_camera() {
    let mut pending = PendingStart(Some(Vec2 { x: 7_000, y: 9_000 }));
    let moving = Player {
        translation: Vec2 { x: 1, y: 2 },
        velocity: Velocity { x: 3, y: 4 },
        jump: JumpState { jumping: true, hold_us: 5, jumps_used: 2 },
    };
    let mut player = Some(moving);
    let mut camera = Some(Vec2 { x: -50, y: -60 });
    apply_pending_start_system(&mut pending, &mut player, &mut camera);
    assert_eq!(pending.0, None);
    assert_eq!(player, Some(at(7_000, 9_000)));
    assert_eq!(camera, Some(Vec2 { x: 7_000, y: 0 }));
    // nothing pending: nothing moves
    apply_pending_start_system(&mut pending, &mut player, &mut camera);
    assert_eq!(camera, Some(Vec2 { x: 7_000, y: 0 }));
}

#[test]
fn death_with_last_life_ends_game() {
    let mut lives = Lives { current: 1, max: 3 };
    let mut state = GameState::Running;
    let mut pending = PendingStart(None);
    let mut over = GameOverUi { visible: false };
    let start = Some(LevelStart(Vec2 { x: 5, y: 6 }));
    death_check_system(&mut lives, &mut state, &mut pending, &start, &Some(at(0, -650_000)), &mut over);
    assert_eq!(lives.current, 0);
    assert_eq!(state, GameState::GameOver);
    assert!(over.visible);
    assert_eq!(pending.0, None);
}

#[test]
fn death_with_lives_left_respawns_at_level_start() {
    let mut lives = Lives { current: 2, max: 3 };
    let mut state = GameState::Running;
    let mut pending = PendingStart(None);
    let mut over = GameOverUi { visible: false };
    let start = Some(LevelStart(Vec2 { x: 5_000, y: 6_000 }));
    death_check_system(&mut lives, &mut state, &mut pending, &start, &Some(at(0, -650_000)), &mut over);
    assert_eq!(lives.current, 1);
    assert_eq!(state, GameState::Running);
    assert!(!over.visible);
    assert_eq!(pending.0, Some(Vec2 { x: 5_000, y: 6_000 }));
}

#[test]
fn death_without_recorded_start_respawns_at_origin() {
    let mut lives = Lives { current: 3, max: 3 };
    let mut state = GameState::Running;
    let mut pending = PendingStart(None);
    let mut over = GameOverUi { visible: false };
    death_check_system(&mut lives, &mut state, &mut pending, &None, &Some(at(0, -600_001)), &mut over);
    assert_eq!(lives.current, 2);
    assert_eq!(pending.0, Some(Vec2 { x: 0, y: 0 }));
}

#[test]
fn no_death_at_threshold_or_when_over() {
    let mut lives = Lives { current: 2, max: 3 };
    let mut state = GameState::Running;
    let mut pending = PendingStart(None);
    let mut over = GameOverUi { visible: false };
    death_check_system(&mut lives, &mut state, &mut pending, &None, &Some(at(0, -600_000)), &mut over);
    assert_eq!(lives.current, 2);
    let mut ended = GameState::GameOver;
    death_check_system(&mut lives, &mut ended, &mut pending, &None, &Some(at(0, -900_000)), &mut over);
    assert_eq!(lives.current, 2);
    assert_eq!(pending.0, None);
}

#[test]
fn restart_after_game_over() {
    let mut lives = Lives { current: 0, max: 3 };
    let mut state = GameState::GameOver;
    let mut over = GameOverUi { visible: true };
    let mut pending = PendingStart(None);
    let mut req = LevelRequest(None);
    let mgr = LevelManager { current: "level2".to_string() };
    let start = Some(LevelStart(Vec2 { x: 100, y: 200 }));
    game_over_restart_system(true, &mut lives, &mut state, &mut over, &mut pending, &start, &mut req, &mgr);
    assert_eq!(lives, Lives { current: 3, max: 3 });
    assert_eq!(state, GameState::Running);
    assert!(!over.visible);
    assert_eq!(req.0.as_deref(), Some("level2"));
    assert_eq!(pending.0, Some(Vec2 { x: 100, y: 200 }));
}

#[test]
fn restart_needs_key_and_game_over() {
    let mut lives = Lives { current: 0, max: 3 };
    let mut state = GameState::GameOver;
    let mut over = GameOverUi { visible: true };
    let mut pending = PendingStart(None);
    let mut req = LevelRequest(None);
    let mgr = LevelManager { current: "level2".to_string() };
    game_over_restart_system(false, &mut lives, &mut state, &mut over, &mut pending, &None, &mut req, &mgr);
    assert_eq!(state, GameState::GameOver);
    assert_eq!(lives.current, 0);
    let mut running = GameState::Running;
    let mut l2 = Lives { current: 1, max: 3 };
    game_over_restart_system(true, &mut l2, &mut running, &mut over, &mut pending, &None, &mut req, &mgr);
    assert_eq!(l2.current, 1);
    assert_eq!(req.0, None);
}

#[test]
fn hearts_follow_lives() {
    let mut ui = LivesUi {
        hearts: (0..3).map(|index| HeartSlot { index, filled: true }).collect(),
    };
    update_lives_ui_system(&Lives { current: 1, max: 3 }, &mut ui);
    let filled: Vec<bool> = ui.hearts.iter().map(|h| h.filled).collect();
    assert_eq!(filled, vec![true, false, false]);
    update_lives_ui_system(&Lives { current: 3, max: 3 }, &mut ui);
    assert!(ui.hearts.iter().all(|h| h.filled));
}
