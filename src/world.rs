//! The world: every resource and entity of a running game, and the order in
//! which the systems run in one frame.
//!
//! A frame runs in three parts around the host's level load:
//! `update_before_load` (physics, camera, exits, transition) may return the
//! path of a level to read; the host hands the result to `complete_load`;
//! `update_after_load` then applies a pending start, checks for death, and
//! handles the lives display and the restart.
use vstd::prelude::*;

use crate::camera::{camera_follow_system, follow_spec, CameraFrame, CAMERA_MARGIN};
use crate::components::{Exit, GameOverUi, Ground, HeartSlot, JumpState, LivesUi, Player, Velocity};
use crate::config::GameConfig;
use crate::geometry::Vec2;
use crate::level_format::{level_path_spec, Level, Rect};
use crate::levels::{
    do_load_level, exit_detection_system, exit_target, exits_wf, ground_of, level_transition_system,
    poll_wasm_level_task, spawn_effect, spawned_exit, WasmLevelChan,
};
use crate::player::{
    apply_pending_start_system, death_check_system, falls_to_death, grounds_wf,
    physics_and_collision_system, start_or_origin, step_spec, DirtKickEvent, JumpBurstEvent,
};
use crate::resources::{
    opt_str, GameState, Keys, LevelManager, LevelRequest, LevelStart, Lives, PendingStart, Time,
    GROUND_Y,
};
use crate::ui::{game_over_restart_system, update_lives_ui_system};

verus! {

/// Lives at the start of a game.
pub const STARTING_LIVES: u8 = 3;

pub struct World {
    pub cfg: GameConfig,
    pub player: Option<Player>,
    pub camera: Option<Vec2>,
    pub grounds: Vec<Ground>,
    pub exits: Vec<Exit>,
    pub lives: Lives,
    pub state: GameState,
    pub lives_ui: LivesUi,
    pub game_over_ui: GameOverUi,
    pub level_mgr: LevelManager,
    pub level_req: LevelRequest,
    pub pending: PendingStart,
    pub level_start: Option<LevelStart>,
    pub chan: WasmLevelChan,
    /// Jump bursts of this frame, for the effects to consume.
    pub bursts: Vec<JumpBurstEvent>,
    /// Dirt kicks of this frame, for the effects to consume.
    pub kicks: Vec<DirtKickEvent>,
}

pub open spec fn opt_in_world(o: Option<Vec2>) -> bool {
    match o {
        Some(v) => v.in_world(),
        None => true,
    }
}

/// The jumps used stay within the allowance.
pub open spec fn jumps_within(cfg: GameConfig, player: Option<Player>) -> bool {
    match player {
        Some(p) => cfg.jump.max_jumps >= 1 ==> p.jump.jumps_used <= cfg.jump.max_jumps,
        None => true,
    }
}

/// The player after a pending start is applied.
pub open spec fn respawned_player(pending: PendingStart, player: Option<Player>) -> Option<Player> {
    match (pending.0, player) {
        (Some(pos), Some(_)) => Some(
            Player {
                translation: pos,
                velocity: Velocity { x: 0, y: 0 },
                jump: JumpState::reset_spec(),
            },
        ),
        _ => player,
    }
}

/// The camera after a pending start is applied.
pub open spec fn respawned_camera(pending: PendingStart, camera: Option<Vec2>) -> Option<Vec2> {
    match (pending.0, camera) {
        (Some(pos), Some(_)) => Some(Vec2 { x: pos.x, y: 0 }),
        _ => camera,
    }
}

impl World {
    pub open spec fn wf(&self) -> bool {
        &&& self.cfg.wf()
        &&& match self.player {
            Some(p) => p.in_world(),
            None => true,
        }
        &&& jumps_within(self.cfg, self.player)
        &&& opt_in_world(self.camera)
        &&& grounds_wf(self.grounds@)
        &&& exits_wf(self.exits@)
        &&& opt_in_world(self.pending.0)
        &&& match self.level_start {
            Some(s) => s.0.in_world(),
            None => true,
        }
    }
}

/// The configuration itself when it satisfies the bounds, the default one
/// otherwise.
pub fn config_or_default(cfg: GameConfig) -> (r: GameConfig)
    ensures
        r == if cfg.wf() {
            cfg
        } else {
            GameConfig::default_spec()
        },
        r.wf(),
{
    if cfg.is_valid() {
        cfg
    } else {
        GameConfig::default()
    }
}

/// A new game: the player and camera at the origin, full lives, the
/// overlay hidden, and the load of `first_level` outstanding. Returns the
/// world and the path to read the first level from.
pub fn setup(cfg: GameConfig, first_level: &str) -> (r: (World, String))
    ensures
        r.0.wf(),
        r.0.cfg == if cfg.wf() {
            cfg
        } else {
            GameConfig::default_spec()
        },
        r.0.player == Some(
            Player {
                translation: Vec2 { x: 0, y: 0 },
                velocity: Velocity { x: 0, y: 0 },
                jump: JumpState::reset_spec(),
            },
        ),
        r.0.camera == Some(Vec2 { x: 0, y: 0 }),
        r.0.grounds@.len() == 0,
        r.0.exits@.len() == 0,
        r.0.lives == (Lives { current: STARTING_LIVES, max: STARTING_LIVES }),
        r.0.state == GameState::Running,
        r.0.lives_ui.hearts@ == seq![
            HeartSlot { index: 0, filled: true },
            HeartSlot { index: 1, filled: true },
            HeartSlot { index: 2, filled: true },
        ],
        !r.0.game_over_ui.visible,
        r.0.level_mgr.current@ == first_level@,
        r.0.level_req@ == None::<Seq<char>>,
        r.0.pending.0 == None::<Vec2>,
        r.0.level_start == None::<LevelStart>,
        r.1@ == level_path_spec(first_level@),
        r.0.chan.0 is Some && r.0.chan.0->Some_0@ == r.1@,
{
    let cfg = config_or_default(cfg);
    let mut hearts: Vec<HeartSlot> = Vec::new();
    hearts.push(HeartSlot { index: 0, filled: true });
    hearts.push(HeartSlot { index: 1, filled: true });
    hearts.push(HeartSlot { index: 2, filled: true });
    let mut chan = WasmLevelChan(None);
    let path = do_load_level(&mut chan, first_level);
    let world = World {
        cfg,
        player: Some(Player::at(Vec2::zero())),
        camera: Some(Vec2::zero()),
        grounds: Vec::new(),
        exits: Vec::new(),
        lives: Lives { current: STARTING_LIVES, max: STARTING_LIVES },
        state: GameState::Running,
        lives_ui: LivesUi { hearts },
        game_over_ui: GameOverUi { visible: false },
        level_mgr: LevelManager { current: first_level.to_string() },
        level_req: LevelRequest(None),
        pending: PendingStart(None),
        level_start: None,
        chan,
        bursts: Vec::new(),
        kicks: Vec::new(),
    };
    assert(world.lives_ui.hearts@ =~= seq![
        HeartSlot { index: 0, filled: true },
        HeartSlot { index: 1, filled: true },
        HeartSlot { index: 2, filled: true },
    ]);
    (world, path)
}

impl World {
    /// Physics, camera, exit detection and the level transition. Returns
    /// the path of a level to read, when a load started.
    pub fn update_before_load(&mut self, time: &Time, keys: &Keys, frame: &CameraFrame) -> (load:
        Option<String>)
        requires
            old(self).wf(),
            frame.wf(),
        ensures
            final(self).wf(),
            final(self).cfg == old(self).cfg,
            match old(self).player {
                Some(p) => {
                    let moved = step_spec(p, old(self).grounds@, old(self).cfg, *time, *keys).player;
                    &&& final(self).player == Some(moved)
                    &&& match old(self).camera {
                        Some(c) => final(self).camera == Some(
                            follow_spec(c, moved, old(self).cfg, *frame),
                        ),
                        None => final(self).camera == None::<Vec2>,
                    }
                },
                None => final(self).player == None::<Player> && final(self).camera == old(
                    self,
                ).camera,
            },
            ({
                let req: Option<Seq<char>> = match (old(self).level_req.0, final(self).player) {
                    (None, Some(p)) => exit_target(p.translation, old(self).exits@),
                    _ => old(self).level_req@,
                };
                match (old(self).chan.0, req) {
                    (None, Some(next)) => {
                        &&& final(self).level_req@ == None::<Seq<char>>
                        &&& final(self).grounds@.len() == 0
                        &&& final(self).exits@.len() == 0
                        &&& final(self).level_mgr.current@ == next
                        &&& opt_str(load) == Some(level_path_spec(next))
                        &&& opt_str(final(self).chan.0) == Some(level_path_spec(next))
                    },
                    _ => {
                        &&& load == None::<String>
                        &&& final(self).level_req@ == req
                        &&& final(self).chan == old(self).chan
                        &&& final(self).level_mgr == old(self).level_mgr
                        &&& final(self).grounds@ == old(self).grounds@
                        &&& final(self).exits@ == old(self).exits@
                    },
                }
            }),
            old(self).player is Some ==> match final(self).camera {
                Some(c) => c.y <= GROUND_Y + frame.viewport_height / 2 - CAMERA_MARGIN,
                None => true,
            },
    {
        physics_and_collision_system(
            time,
            &self.cfg,
            keys,
            &mut self.player,
            &self.grounds,
            &mut self.bursts,
            &mut self.kicks,
        );
        camera_follow_system(&mut self.camera, &self.player, &self.cfg, frame);
        exit_detection_system(&mut self.level_req, &self.player, &self.exits);
        level_transition_system(
            &mut self.level_req,
            &mut self.chan,
            &mut self.level_mgr,
            &mut self.grounds,
            &mut self.exits,
        )
    }

    /// Hands the outcome of the outstanding load to the level lifecycle.
    /// Returns whether a level was spawned.
    pub fn complete_load(&mut self, outcome: Option<Level>) -> (spawned: bool)
        requires
            old(self).wf(),
        ensures
            final(self).wf(),
            final(self).chan.0 == None::<String>,
            spawned == (old(self).chan.0 is Some && outcome is Some && outcome->Some_0.wf()),
            !spawned ==> {
                &&& final(self).grounds@ == old(self).grounds@
                &&& final(self).exits@ == old(self).exits@
                &&& final(self).pending == old(self).pending
                &&& final(self).level_start == old(self).level_start
            },
            spawned ==> spawn_effect(
                outcome->Some_0,
                old(self).grounds@,
                final(self).grounds@,
                old(self).exits@,
                final(self).exits@,
                final(self).pending,
                final(self).level_start,
            ),
            final(self).player == old(self).player,
            final(self).camera == old(self).camera,
            final(self).cfg == old(self).cfg,
            final(self).lives == old(self).lives,
            final(self).state == old(self).state,
            final(self).level_req == old(self).level_req,
            final(self).level_mgr == old(self).level_mgr,
    {
        let spawned = poll_wasm_level_task(
            &mut self.chan,
            outcome,
            &mut self.grounds,
            &mut self.exits,
            &mut self.pending,
            &mut self.level_start,
        );
        proof {
            assert forall|i: int| 0 <= i < self.grounds@.len() implies #[trigger] self.grounds@[i].wf() by {
                if spawned {
                    let def = outcome->Some_0;
                    let n = old(self).grounds@.len();
                    if i >= n {
                        let r: Rect = def.platforms@[i - n];
                        assert(def.platforms@[i - n].wf());
                        assert(self.grounds@[i] == ground_of(r));
                    }
                }
            }
            assert forall|i: int| 0 <= i < self.exits@.len() implies #[trigger] self.exits@[i].wf() by {
                if spawned {
                    let def = outcome->Some_0;
                    let n = old(self).exits@.len();
                    if i >= n {
                        assert(def.exits@[i - n].wf());
                        assert(spawned_exit(self.exits@[n + (i - n)], def.exits@[i - n]));
                    } else {
                        assert(self.exits@[i] == old(self).exits@[i]);
                    }
                }
            }
        }
        spawned
    }

    /// Applies a pending start, checks for death, refreshes the lives
    /// display and handles the restart key.
    pub fn update_after_load(&mut self, keys: &Keys)
        requires
            old(self).wf(),
        ensures
            final(self).wf(),
            final(self).cfg == old(self).cfg,
            final(self).player == respawned_player(old(self).pending, old(self).player),
            final(self).camera == respawned_camera(old(self).pending, old(self).camera),
            ({
                let dies = falls_to_death(
                    old(self).state,
                    respawned_player(old(self).pending, old(self).player),
                );
                let left: u8 = if dies {
                    if old(self).lives.current > 0 {
                        (old(self).lives.current - 1) as u8
                    } else {
                        0
                    }
                } else {
                    old(self).lives.current
                };
                let over = dies && left == 0;
                let restart = (old(self).state == GameState::GameOver || over)
                    && keys.jump_just_pressed;
                &&& final(self).lives == if restart {
                    Lives { current: old(self).lives.max, max: old(self).lives.max }
                } else {
                    Lives { current: left, max: old(self).lives.max }
                }
                &&& final(self).state == if restart || !(old(self).state == GameState::GameOver
                    || over) {
                    GameState::Running
                } else {
                    GameState::GameOver
                }
                &&& final(self).game_over_ui.visible == if restart {
                    false
                } else if over {
                    true
                } else {
                    old(self).game_over_ui.visible
                }
                &&& final(self).pending.0 == if restart || (dies && left != 0) {
                    Some(start_or_origin(old(self).level_start))
                } else {
                    None
                }
                &&& final(self).level_req@ == if restart {
                    Some(old(self).level_mgr.current@)
                } else {
                    old(self).level_req@
                }
                &&& final(self).lives_ui.hearts@.len() == old(self).lives_ui.hearts@.len()
                &&& forall|i: int|
                    0 <= i < old(self).lives_ui.hearts@.len() ==> #[trigger] final(self).lives_ui.hearts@[i]
                        == (HeartSlot {
                        index: old(self).lives_ui.hearts@[i].index,
                        filled: old(self).lives_ui.hearts@[i].index < left,
                    })
            }),
    {
        apply_pending_start_system(&mut self.pending, &mut self.player, &mut self.camera);
        death_check_system(
            &mut self.lives,
            &mut self.state,
            &mut self.pending,
            &self.level_start,
            &self.player,
            &mut self.game_over_ui,
        );
        update_lives_ui_system(&self.lives, &mut self.lives_ui);
        game_over_restart_system(
            keys.jump_just_pressed,
            &mut self.lives,
            &mut self.state,
            &mut self.game_over_ui,
            &mut self.pending,
            &self.level_start,
            &mut self.level_req,
            &self.level_mgr,
        );
    }
}

} // verus!
