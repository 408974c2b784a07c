//! The lives display and the game-over restart.
use vstd::prelude::*;

use crate::components::{GameOverUi, HeartSlot, LivesUi};
use crate::player::start_or_origin;
use crate::resources::{GameState, LevelManager, LevelRequest, LevelStart, Lives, PendingStart};

verus! {

/// Fills the hearts below the number of lives left and empties the rest.
pub fn update_lives_ui_system(lives: &Lives, ui: &mut LivesUi)
    ensures
        final(ui).hearts@.len() == old(ui).hearts@.len(),
        forall|i: int|
            0 <= i < old(ui).hearts@.len() ==> #[trigger] final(ui).hearts@[i] == (HeartSlot {
                index: old(ui).hearts@[i].index,
                filled: old(ui).hearts@[i].index < lives.current,
            }),
{
    let ghost before = ui.hearts@;
    let mut i: usize = 0;
    while i < ui.hearts.len()
        invariant
            0 <= i <= before.len(),
            ui.hearts@.len() == before.len(),
            forall|j: int|
                0 <= j < i ==> #[trigger] ui.hearts@[j] == (HeartSlot {
                    index: before[j].index,
                    filled: before[j].index < lives.current,
                }),
            forall|j: int| i <= j < before.len() ==> #[trigger] ui.hearts@[j] == before[j],
        decreases before.len() - i,
    {
        let index = ui.hearts[i].index;
        let slot = HeartSlot { index, filled: index < lives.current as usize };
        ui.hearts.set(i, slot);
        i = i + 1;
    }
}

/// After the game is over, the restart key refills the lives, resumes the
/// game, hides the overlay, asks for the current level again and queues the
/// player at its recorded start.
pub fn game_over_restart_system(
    restart_pressed: bool,
    lives: &mut Lives,
    state: &mut GameState,
    over: &mut GameOverUi,
    pending: &mut PendingStart,
    level_start: &Option<LevelStart>,
    level_req: &mut LevelRequest,
    level_mgr: &LevelManager,
)
    ensures
        (*old(state) == GameState::GameOver && restart_pressed) ==> {
            &&& *final(lives) == (Lives { current: old(lives).max, max: old(lives).max })
            &&& *final(state) == GameState::Running
            &&& !final(over).visible
            &&& final(level_req)@ == Some(level_mgr.current@)
            &&& final(pending).0 == Some(start_or_origin(*level_start))
        },
        !(*old(state) == GameState::GameOver && restart_pressed) ==> {
            &&& *final(lives) == *old(lives)
            &&& *final(state) == *old(state)
            &&& *final(over) == *old(over)
            &&& *final(level_req) == *old(level_req)
            &&& *final(pending) == *old(pending)
        },
{
    if let GameState::Running = *state {
        return ;
    }
    if !restart_pressed {
        return ;
    }
    lives.current = lives.max;
    *state = GameState::Running;
    over.visible = false;
    level_req.0 = Some(level_mgr.current.clone());
    let start = match level_start {
        Some(s) => s.0,
        None => crate::geometry::Vec2::zero(),
    };
    pending.0 = Some(start);
}

} // verus!
