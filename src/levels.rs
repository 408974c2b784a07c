//! The level lifecycle: exits request a level, the transition tears the old
//! level down and asks for the new one, and a finished load spawns it and
//! queues the player's start.
//!
//! Reading or fetching the file is the host's part: `level_transition_system`
//! returns the path to load, and the host hands the parsed level (or `None`,
//! when reading or parsing failed) to `poll_wasm_level_task`. At most one
//! load is outstanding; requests wait while one is.
use vstd::prelude::*;

use crate::components::{Exit, Ground, Player};
use crate::geometry::{abs, Vec2};
use crate::level_format::{level_path, level_path_spec, Level, Rect};
use crate::resources::{
    opt_str, LevelManager, LevelRequest, LevelStart, PendingStart, PLAYER_HALF_HEIGHT,
    PLAYER_HALF_WIDTH,
};

verus! {

/// The slot of the outstanding level load: the path being loaded, if any.
#[derive(Clone, Debug, PartialEq, Eq)]
pub struct WasmLevelChan(pub Option<String>);

/// The player's box, centred at `p`, overlaps the exit's box.
pub open spec fn touches_exit(p: Vec2, e: Exit) -> bool {
    &&& abs(p.x - e.x) < PLAYER_HALF_WIDTH + e.w / 2
    &&& abs(p.y - e.y) < PLAYER_HALF_HEIGHT + e.h / 2
}

pub open spec fn exits_wf(es: Seq<Exit>) -> bool {
    forall|i: int| 0 <= i < es.len() ==> #[trigger] es[i].wf()
}

/// The destination of the first exit, in storage order, that the player
/// touches.
pub open spec fn exit_target(p: Vec2, es: Seq<Exit>) -> Option<Seq<char>>
    decreases es.len(),
{
    if es.len() == 0 {
        None
    } else if touches_exit(p, es[0]) {
        Some(es[0].next@)
    } else {
        exit_target(p, es.subrange(1, es.len() as int))
    }
}

fn touches(p: Vec2, e: &Exit) -> (r: bool)
    requires
        p.in_world(),
        e.wf(),
    ensures
        r == touches_exit(p, *e),
{
    let dx = if p.x >= e.x {
        p.x - e.x
    } else {
        e.x - p.x
    };
    let dy = if p.y >= e.y {
        p.y - e.y
    } else {
        e.y - p.y
    };
    dx < PLAYER_HALF_WIDTH + e.w / 2 && dy < PLAYER_HALF_HEIGHT + e.h / 2
}

/// The index of the first exit the player at `pos` touches.
fn first_touched_exit(pos: Vec2, exits: &Vec<Exit>) -> (r: Option<usize>)
    requires
        exits_wf(exits@),
        pos.in_world(),
    ensures
        match r {
            Some(i) => i < exits@.len() && exit_target(pos, exits@) == Some(exits@[i as int].next@),
            None => exit_target(pos, exits@) == None::<Seq<char>>,
        },
{
    let mut i: usize = 0;
    assert(exits@.subrange(0, exits@.len() as int) =~= exits@);
    while i < exits.len()
        invariant
            0 <= i <= exits@.len(),
            exits_wf(exits@),
            pos.in_world(),
            exit_target(pos, exits@) == exit_target(pos, exits@.subrange(i as int, exits@.len() as int)),
        decreases exits@.len() - i,
    {
        assert(exits@[i as int].wf());
        let ghost rest = exits@.subrange(i as int, exits@.len() as int);
        assert(rest[0] == exits@[i as int]);
        if touches(pos, &exits[i]) {
            return Some(i);
        }
        assert(rest.subrange(1, rest.len() as int) =~= exits@.subrange(i + 1, exits@.len() as int));
        i = i + 1;
    }
    None
}

/// Requests the level of the first exit the player touches, unless a
/// request is already pending or there is no player.
pub fn exit_detection_system(level_req: &mut LevelRequest, player: &Option<Player>, exits: &Vec<Exit>)
    requires
        exits_wf(exits@),
        match *player {
            Some(p) => p.in_world(),
            None => true,
        },
    ensures
        match (old(level_req).0, *player) {
            (None, Some(p)) => final(level_req)@ == exit_target(p.translation, exits@),
            _ => *final(level_req) == *old(level_req),
        },
{
    if level_req.0.is_some() {
        return ;
    }
    let pos = match player {
        Some(p) => p.translation,
        None => {
            return ;
        },
    };
    if let Some(i) = first_touched_exit(pos, exits) {
        level_req.0 = Some(exits[i].next.clone());
    }
}

/// Marks a load of the level called `level_name` as outstanding and gives
/// the path to read it from.
fn spawn_or_queue_load(chan: &mut WasmLevelChan, level_name: &str) -> (path: String)
    requires
        old(chan).0 is None,
    ensures
        path@ == level_path_spec(level_name@),
        opt_str(final(chan).0) == Some(path@),
{
    let path = level_path(level_name);
    chan.0 = Some(path.clone());
    path
}

/// Starts loading the level called `level_name`; returns the path to read.
/// A second load is never issued while one is outstanding: the slot must be
/// free.
pub fn do_load_level(chan: &mut WasmLevelChan, level_name: &str) -> (path: String)
    requires
        old(chan).0 is None,
    ensures
        path@ == level_path_spec(level_name@),
        opt_str(final(chan).0) == Some(path@),
{
    spawn_or_queue_load(chan, level_name)
}

/// Consumes a pending request while no load is outstanding: the current
/// level's platforms and exits are removed, the requested level becomes the
/// current one, and its load starts. Returns the path to read, if a load
/// started.
pub fn level_transition_system(
    req: &mut LevelRequest,
    chan: &mut WasmLevelChan,
    level_mgr: &mut LevelManager,
    grounds: &mut Vec<Ground>,
    exits: &mut Vec<Exit>,
) -> (load: Option<String>)
    ensures
        match (old(chan).0, old(req).0) {
            (None, Some(next)) => {
                &&& final(req).0 == None::<String>
                &&& final(grounds)@.len() == 0
                &&& final(exits)@.len() == 0
                &&& final(level_mgr).current@ == next@
                &&& opt_str(load) == Some(level_path_spec(next@))
                &&& opt_str(final(chan).0) == Some(level_path_spec(next@))
            },
            _ => {
                &&& load == None::<String>
                &&& *final(req) == *old(req)
                &&& *final(chan) == *old(chan)
                &&& *final(level_mgr) == *old(level_mgr)
                &&& final(grounds)@ == old(grounds)@
                &&& final(exits)@ == old(exits)@
            },
        },
{
    if chan.0.is_some() {
        return None;
    }
    let next = match req.0.take() {
        Some(n) => n,
        None => {
            return None;
        },
    };
    grounds.clear();
    exits.clear();
    level_mgr.current = next.clone();
    let path = do_load_level(chan, next.as_str());
    Some(path)
}

/// The platform spawned for a rectangle of the level.
pub open spec fn ground_of(r: Rect) -> Ground {
    Ground { x: r.x, y: r.y, w: r.w, h: r.h }
}

/// `e` is the exit spawned for the level's exit `d`.
pub open spec fn spawned_exit(e: Exit, d: crate::level_format::Exit) -> bool {
    &&& e.x == d.x
    &&& e.y == d.y
    &&& e.w == d.w
    &&& e.h == d.h
    &&& e.next@ == d.next@
}

/// The effect of spawning `def`: its platforms and exits follow the existing
/// ones, and its start is recorded and queued.
pub open spec fn spawn_effect(
    def: Level,
    grounds0: Seq<Ground>,
    grounds1: Seq<Ground>,
    exits0: Seq<Exit>,
    exits1: Seq<Exit>,
    pending: PendingStart,
    level_start: Option<LevelStart>,
) -> bool {
    let start = Vec2 { x: def.start.x, y: def.start.y };
    &&& grounds1 == grounds0 + def.platforms@.map_values(|r: Rect| ground_of(r))
    &&& exits1.len() == exits0.len() + def.exits@.len()
    &&& forall|i: int| 0 <= i < exits0.len() ==> #[trigger] exits1[i] == exits0[i]
    &&& forall|i: int| 0 <= i < def.exits@.len() ==> #[trigger] spawned_exit(
        exits1[exits0.len() + i],
        def.exits@[i],
    )
    &&& pending.0 == Some(start)
    &&& level_start == Some(LevelStart(start))
}

/// Spawns a level's platforms and exits after the existing ones, records
/// its start and queues the player there. A level that fails its bounds
/// is not spawned, and `false` is returned.
pub fn spawn_loaded_level(
    def: &Level,
    grounds: &mut Vec<Ground>,
    exits: &mut Vec<Exit>,
    pending: &mut PendingStart,
    level_start: &mut Option<LevelStart>,
) -> (spawned: bool)
    ensures
        spawned == def.wf(),
        !spawned ==> {
            &&& final(grounds)@ == old(grounds)@
            &&& final(exits)@ == old(exits)@
            &&& *final(pending) == *old(pending)
            &&& *final(level_start) == *old(level_start)
        },
        spawned ==> spawn_effect(
            *def,
            old(grounds)@,
            final(grounds)@,
            old(exits)@,
            final(exits)@,
            *final(pending),
            *final(level_start),
        ),
{
    if !def.is_valid() {
        return false;
    }
    let ghost grounds0 = grounds@;
    let ghost exits0 = exits@;
    let mut i: usize = 0;
    while i < def.platforms.len()
        invariant
            0 <= i <= def.platforms@.len(),
            grounds@ == grounds0 + def.platforms@.subrange(0, i as int).map_values(
                |r: Rect| ground_of(r),
            ),
        decreases def.platforms@.len() - i,
    {
        let r = def.platforms[i];
        grounds.push(Ground { x: r.x, y: r.y, w: r.w, h: r.h });
        proof {
            assert(def.platforms@.subrange(0, i + 1).map_values(|r: Rect| ground_of(r))
                =~= def.platforms@.subrange(0, i as int).map_values(|r: Rect| ground_of(r)).push(
                ground_of(r),
            ));
        }
        i = i + 1;
    }
    assert(def.platforms@.subrange(0, def.platforms@.len() as int) =~= def.platforms@);
    let mut k: usize = 0;
    while k < def.exits.len()
        invariant
            0 <= k <= def.exits@.len(),
            exits@.len() == exits0.len() + k,
            forall|j: int| 0 <= j < exits0.len() ==> #[trigger] exits@[j] == exits0[j],
            forall|j: int| 0 <= j < k ==> #[trigger] spawned_exit(
                exits@[exits0.len() + j],
                def.exits@[j],
            ),
        decreases def.exits@.len() - k,
    {
        let d = &def.exits[k];
        let ghost prev = exits@;
        exits.push(Exit { x: d.x, y: d.y, w: d.w, h: d.h, next: d.next.clone() });
        proof {
            assert forall|j: int| 0 <= j < k + 1 implies #[trigger] spawned_exit(
                exits@[exits0.len() + j],
                def.exits@[j],
            ) by {
                if j < k {
                    assert(exits@[exits0.len() + j] == prev[exits0.len() + j]);
                }
            }
        }
        k = k + 1;
    }
    let start = Vec2 { x: def.start.x, y: def.start.y };
    pending.0 = Some(start);
    *level_start = Some(LevelStart(start));
    true
}

/// Completes the outstanding load with its outcome: a level read and parsed
/// is spawned; a failed read leaves the world as it is. Either way the slot
/// is freed. Without an outstanding load the outcome is ignored. Returns
/// whether a level was spawned.
pub fn poll_wasm_level_task(
    chan: &mut WasmLevelChan,
    outcome: Option<Level>,
    grounds: &mut Vec<Ground>,
    exits: &mut Vec<Exit>,
    pending: &mut PendingStart,
    level_start: &mut Option<LevelStart>,
) -> (spawned: bool)
    ensures
        final(chan).0 == None::<String>,
        spawned == (old(chan).0 is Some && outcome is Some && outcome->Some_0.wf()),
        !spawned ==> {
            &&& final(grounds)@ == old(grounds)@
            &&& final(exits)@ == old(exits)@
            &&& *final(pending) == *old(pending)
            &&& *final(level_start) == *old(level_start)
        },
        spawned ==> spawn_effect(
            outcome->Some_0,
            old(grounds)@,
            final(grounds)@,
            old(exits)@,
            final(exits)@,
            *final(pending),
            *final(level_start),
        ),
{
    if chan.0.is_none() {
        return false;
    }
    chan.0 = None;
    match outcome {
        Some(def) => spawn_loaded_level(&def, grounds, exits, pending, level_start),
        None => false,
    }
}

} // verus!
