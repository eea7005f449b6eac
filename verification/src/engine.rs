//! The engine's own state: the mode that the game is in, and the check for
//! the end of the game.

use vstd::prelude::*;
use crate::components::EntityId;
use crate::components::Portable;
use crate::event::EngineMode;
use crate::event::GameEvent;
use crate::event::GameEventType;
use crate::position::Position;

verus! {

/// The settings of the engine.
#[derive(Clone, Copy, Debug, PartialEq, Eq, Structural)]
pub struct GameSettings {
    pub mode: EngineMode,
    /// Whether the mode changed in a way that the outside loop has to act on.
    pub mode_changed: bool,
}

impl GameSettings {
    /// Settings for an engine that is waiting to start.
    pub fn new() -> (s: GameSettings)
        ensures
            s == (GameSettings { mode: EngineMode::Standby, mode_changed: false }),
    {
        GameSettings { mode: EngineMode::Standby, mode_changed: false }
    }
}

/// The tile on which the game is won.
pub open spec fn spec_victory_position() -> Position {
    Position { x: 28, y: 1, z: 1 }
}

/// The tile on which the game is won.
pub fn victory_position() -> (p: Position)
    ensures
        p == spec_victory_position(),
{
    Position { x: 28, y: 1, z: 1 }
}

/// The mode after one event: a mode switch sets it, a pause toggle swaps
/// running and paused, and nothing else touches it.
pub open spec fn spec_mode_step(mode: EngineMode, event: GameEvent) -> EngineMode {
    match event.etype {
        GameEventType::ModeSwitch(new_mode) => new_mode,
        GameEventType::PauseToggle => if mode == EngineMode::Running {
            EngineMode::Paused
        } else if mode == EngineMode::Paused {
            EngineMode::Running
        } else {
            mode
        },
        _ => mode,
    }
}

/// The mode after the first `n` events.
pub open spec fn spec_mode_run(mode: EngineMode, events: Seq<GameEvent>, n: int) -> EngineMode
    decreases n,
{
    if n <= 0 {
        mode
    } else {
        spec_mode_step(spec_mode_run(mode, events, n - 1), events[n - 1])
    }
}

/// Whether `who` carries `item` according to the first `n` rows of carried
/// items.
pub open spec fn spec_holds(
    carried: Seq<(EntityId, Portable)>,
    n: int,
    who: EntityId,
    item: EntityId,
) -> bool
    decreases n,
{
    n > 0 && (spec_holds(carried, n - 1, who, item) || (carried[n - 1].0 == item
        && carried[n - 1].1.carrier == who))
}

/// Whether the game is won: the player stands on the victory tile and
/// carries the device.
pub open spec fn spec_victory(
    player: EntityId,
    player_posn: Position,
    planq: EntityId,
    carried: Seq<(EntityId, Portable)>,
) -> bool {
    player_posn == spec_victory_position() && spec_holds(
        carried,
        carried.len() as int,
        player,
        planq,
    )
}

/// Whether `who` carries `item` according to the rows of carried items.
pub fn holds(carried: &Vec<(EntityId, Portable)>, who: EntityId, item: EntityId) -> (found: bool)
    ensures
        found == spec_holds(carried@, carried@.len() as int, who, item),
{
    let mut found = false;
    let mut n: usize = 0;
    while n < carried.len()
        invariant
            n <= carried.len(),
            found == spec_holds(carried@, n as int, who, item),
        decreases carried.len() - n,
    {
        if carried[n].0 == item && carried[n].1.carrier == who {
            found = true;
        }
        n += 1;
    }
    found
}

/// Applies the mode switches and pause toggles of the tick, then checks
/// whether the game is won; if it is, the mode becomes the good end and the
/// change is flagged.
pub fn engine_system(
    state: &mut GameSettings,
    events: &Vec<GameEvent>,
    player: EntityId,
    player_posn: Position,
    planq: EntityId,
    carried: &Vec<(EntityId, Portable)>,
)
    ensures
        spec_victory(player, player_posn, planq, carried@) ==> *final(state) == (GameSettings {
            mode: EngineMode::GoodEnd,
            mode_changed: true,
        }),
        !spec_victory(player, player_posn, planq, carried@) ==> *final(state) == (GameSettings {
            mode: spec_mode_run(old(state).mode, events@, events@.len() as int),
            mode_changed: old(state).mode_changed,
        }),
{
    let mut i: usize = 0;
    while i < events.len()
        invariant
            i <= events.len(),
            state.mode_changed == old(state).mode_changed,
            state.mode == spec_mode_run(old(state).mode, events@, i as int),
        decreases events.len() - i,
    {
        match events[i].etype {
            GameEventType::ModeSwitch(mode) => {
                state.mode = mode;
            },
            GameEventType::PauseToggle => {
                if state.mode == EngineMode::Running {
                    state.mode = EngineMode::Paused;
                } else if state.mode == EngineMode::Paused {
                    state.mode = EngineMode::Running;
                }
            },
            _ => {},
        }
        i += 1;
    }
    if player_posn == victory_position() && holds(carried, player, planq) {
        state.mode = EngineMode::GoodEnd;
        state.mode_changed = true;
    }
}

} // verus!
