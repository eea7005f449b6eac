//! Movement: resolving the player's move intents against the map.

use vstd::prelude::*;
use vstd::string::*;
use crate::components::Viewshed;
use crate::event::GameEvent;
use crate::event::GameEventType;
use crate::map::Model;
use crate::map::TileType;
use crate::messagelog::world_line;
use crate::messagelog::MessageLog;
use crate::messagelog::MessageView;
use crate::position::Direction;
use crate::position::Position;

verus! {

/// An entity other than the player that has a place on the map and a name.
#[derive(Debug)]
pub struct Occupant {
    pub position: Position,
    pub name: String,
}

/// What becomes of a move intent.
#[derive(Clone, Copy, Debug, PartialEq, Eq, Structural)]
pub enum MoveOutcome {
    /// The target is no tile of the map; nothing happens and nothing is said.
    OffMap,
    /// A vertical move from a tile that is no stairway.
    NoStairs,
    /// The target tile is blocked.
    Blocked(Position),
    /// The move succeeds and ends on this tile.
    Moved(Position),
}

/// What the movement system reads and writes besides the map: where the
/// player is, the mirror of that position, whether the player's viewshed is
/// due for a recompute, and the narration so far.
pub struct MoveState {
    pub position: Position,
    pub mirror: Position,
    pub dirty: bool,
    pub log: Seq<MessageView>,
}

/// Whether the triple names a tile of some floor of the map.
pub open spec fn spec_on_map(model: &Model, p: (int, int, int)) -> bool {
    &&& 0 <= p.2 < model.levels@.len()
    &&& model.levels@[p.2].spec_in_bounds(p.0, p.1)
}

/// What becomes of an arrival at `target`: nothing if it is off the map, a
/// rejection if the tile is blocked, the move otherwise.
pub open spec fn spec_arrival(model: &Model, target: Position) -> MoveOutcome {
    if !spec_on_map(model, (target.x as int, target.y as int, target.z as int)) {
        MoveOutcome::OffMap
    } else if model.levels@[target.z as int].blocked_tiles@[model.levels@[target.z as int].spec_index(
        target.x as int,
        target.y as int,
    )] {
        MoveOutcome::Blocked(target)
    } else {
        MoveOutcome::Moved(target)
    }
}

/// What becomes of a move from `pos` in direction `dir`.
///
/// The target is `pos` plus the unit step of the direction. A vertical move
/// needs a floor at the target's level and a stairway under the mover; it
/// then arrives where the portal at `pos` leads, or at the target if there is
/// no portal. A target off the map ends the move without a word; a blocked
/// target tile rejects it.
pub open spec fn spec_move_outcome(model: &Model, pos: Position, dir: Direction) -> MoveOutcome {
    let d = dir.spec_delta();
    let naive = (pos.x + d.0, pos.y + d.1, pos.z + d.2);
    if !Position::fits(naive) {
        MoveOutcome::OffMap
    } else {
        let target = Position { x: naive.0 as i32, y: naive.1 as i32, z: naive.2 as i32 };
        if dir.is_vertical() {
            if !(0 <= target.z < model.levels@.len()) {
                MoveOutcome::OffMap
            } else if !spec_on_map(model, (pos.x as int, pos.y as int, pos.z as int)) {
                MoveOutcome::OffMap
            } else if model.levels@[pos.z as int].tiles@[model.levels@[pos.z as int].spec_index(
                pos.x as int,
                pos.y as int,
            )].ttype != TileType::Stairway {
                MoveOutcome::NoStairs
            } else {
                match model.spec_destination(pos) {
                    Some(to) => spec_arrival(model, to),
                    None => spec_arrival(model, target),
                }
            }
        } else {
            spec_arrival(model, target)
        }
    }
}

/// The index of the first of the first `n` occupants that stands at `p`, or
/// -1 if none of them does.
pub open spec fn first_at(others: Seq<Occupant>, n: int, p: Position) -> int
    decreases n,
{
    if n <= 0 {
        -1
    } else {
        let earlier = first_at(others, n - 1, p);
        if earlier >= 0 {
            earlier
        } else if others[n - 1].position == p {
            n - 1
        } else {
            -1
        }
    }
}

/// The names of those of the first `n` occupants that stand at `p`, in order.
pub open spec fn names_at(others: Seq<Occupant>, n: int, p: Position) -> Seq<Seq<char>>
    decreases n,
{
    if n <= 0 {
        Seq::empty()
    } else if others[n - 1].position == p {
        names_at(others, n - 1, p).push(others[n - 1].name@)
    } else {
        names_at(others, n - 1, p)
    }
}

/// The names from the last to the first, with ", and a " between them.
pub open spec fn joined_backwards(names: Seq<Seq<char>>) -> Seq<char>
    decreases names.len(),
{
    if names.len() == 0 {
        Seq::empty()
    } else if names.len() == 1 {
        names[0]
    } else {
        names.last() + ", and a "@ + joined_backwards(names.drop_last())
    }
}

/// What the player is told about the things on the tile that was entered:
/// up to three are named, more are summed up.
pub open spec fn spec_contents_text(names: Seq<Seq<char>>) -> Seq<char> {
    if names.len() <= 3 {
        "There's a "@ + joined_backwards(names) + " here."@
    } else {
        "There's some stuff here on the ground."@
    }
}

/// What the player is told on a vertical move without a stairway.
pub open spec fn spec_no_stairs_text(dir: Direction) -> Seq<char> {
    if dir == Direction::UP {
        "There is nothing here to "@ + "ascend."@
    } else {
        "There is nothing here to "@ + "descend."@
    }
}

/// What the player is told when the way to `target` is blocked: the name of
/// the first entity that stands there, or else the kind of the terrain.
pub open spec fn spec_blocked_text(
    model: &Model,
    others: Seq<Occupant>,
    dir: Direction,
    target: Position,
) -> Seq<char> {
    let who = first_at(others, others.len() as int, target);
    if who >= 0 {
        "The way "@ + dir.spec_name() + " is blocked by a "@ + others[who].name@ + "."@
    } else {
        "The way "@ + dir.spec_name() + " is blocked by the "@ + model.levels@[target.z as int].tiles@[model.levels@[target.z as int].spec_index(
            target.x as int,
            target.y as int,
        )].ttype.spec_name() + "."@
    }
}

/// The state after one event. Only a move intent in one of the eight compass
/// directions or a vertical one does anything. A move that succeeds puts the
/// player and the mirror on the target, marks the viewshed dirty, and says
/// what lies on the tile; any other outcome leaves all three as they were.
pub open spec fn spec_move_step(
    st: MoveState,
    event: GameEvent,
    model: &Model,
    others: Seq<Occupant>,
) -> MoveState {
    match event.etype {
        GameEventType::PlayerMove(dir) => if dir == Direction::X {
            st
        } else {
            match spec_move_outcome(model, st.position, dir) {
                MoveOutcome::OffMap => st,
                MoveOutcome::NoStairs => MoveState {
                    log: st.log.push(world_line(spec_no_stairs_text(dir))),
                    ..st
                },
                MoveOutcome::Blocked(target) => MoveState {
                    log: st.log.push(world_line(spec_blocked_text(model, others, dir, target))),
                    ..st
                },
                MoveOutcome::Moved(target) => {
                    let names = names_at(others, others.len() as int, target);
                    MoveState {
                        position: target,
                        mirror: target,
                        dirty: true,
                        log: if names.len() == 0 {
                            st.log
                        } else {
                            st.log.push(world_line(spec_contents_text(names)))
                        },
                    }
                },
            }
        },
        _ => st,
    }
}

/// The state after the first `n` events, taken in order.
pub open spec fn spec_moves(
    st: MoveState,
    events: Seq<GameEvent>,
    n: int,
    model: &Model,
    others: Seq<Occupant>,
) -> MoveState
    decreases n,
{
    if n <= 0 {
        st
    } else {
        spec_move_step(spec_moves(st, events, n - 1, model, others), events[n - 1], model, others)
    }
}

/// A move that does not succeed, whether its target is blocked, off the map,
/// or up or down without a stairway, leaves the mover's position, the mirror
/// of it and the dirty flag of the viewshed as they were. An event that is no
/// move intent does the same and says nothing.
pub proof fn lemma_rejected_move_changes_nothing(
    st: MoveState,
    event: GameEvent,
    model: &Model,
    others: Seq<Occupant>,
)
    ensures
        (event.etype matches GameEventType::PlayerMove(dir) && dir != Direction::X
            && spec_move_outcome(model, st.position, dir) is Moved) || ({
            let after = spec_move_step(st, event, model, others);
            &&& after.position == st.position
            &&& after.mirror == st.mirror
            &&& after.dirty == st.dirty
        }),
        !(event.etype is PlayerMove) ==> spec_move_step(st, event, model, others) == st,
{
}

/// Decides what becomes of a move from `pos` in direction `dir`.
pub fn move_outcome(model: &Model, pos: Position, dir: Direction) -> (outcome: MoveOutcome)
    requires
        model.wf(),
    ensures
        outcome == spec_move_outcome(model, pos, dir),
{
    let target = match pos.checked_plus(dir.delta()) {
        Some(t) => t,
        None => {
            return MoveOutcome::OffMap;
        },
    };
    if dir == Direction::UP || dir == Direction::DOWN {
        if target.z < 0 || target.z as usize >= model.levels.len() {
            return MoveOutcome::OffMap;
        }
        if pos.z < 0 || pos.z as usize >= model.levels.len() {
            return MoveOutcome::OffMap;
        }
        let here = &model.levels[pos.z as usize];
        if !here.in_bounds(pos.x, pos.y) {
            return MoveOutcome::OffMap;
        }
        let p_index = here.to_index(pos.x, pos.y);
        if here.tiles[p_index].ttype != TileType::Stairway {
            return MoveOutcome::NoStairs;
        }
        match model.destination(pos) {
            Some(to) => arrival(model, to),
            None => arrival(model, target),
        }
    } else {
        arrival(model, target)
    }
}

/// Decides what becomes of an arrival at `target`.
pub fn arrival(model: &Model, target: Position) -> (outcome: MoveOutcome)
    requires
        model.wf(),
    ensures
        outcome == spec_arrival(model, target),
{
    if target.z < 0 || target.z as usize >= model.levels.len() {
        return MoveOutcome::OffMap;
    }
    let floor = &model.levels[target.z as usize];
    if !floor.in_bounds(target.x, target.y) {
        return MoveOutcome::OffMap;
    }
    if floor.is_blocked(target.x, target.y) {
        MoveOutcome::Blocked(target)
    } else {
        MoveOutcome::Moved(target)
    }
}

/// Once an occupant at `p` is found at index `at` and none before it, it
/// stays the first however many more are looked at.
proof fn lemma_first_found(others: Seq<Occupant>, at: int, n: int, p: Position)
    requires
        0 <= at < n <= others.len(),
        first_at(others, at, p) < 0,
        others[at].position == p,
    ensures
        first_at(others, n, p) == at,
    decreases n,
{
    if n > at + 1 {
        lemma_first_found(others, at, n - 1, p);
    }
}

/// The text for a way that is blocked at `target`.
fn blocked_text(model: &Model, others: &Vec<Occupant>, dir: Direction, target: Position) -> (text:
    String)
    requires
        model.wf(),
        spec_on_map(model, (target.x as int, target.y as int, target.z as int)),
    ensures
        text@ == spec_blocked_text(model, others@, dir, target),
{
    let mut text = String::from_str("The way ");
    text.append(dir.name());
    let mut i: usize = 0;
    while i < others.len()
        invariant
            i <= others.len(),
            first_at(others@, i as int, target) < 0,
            text@ == "The way "@ + dir.spec_name(),
        decreases others.len() - i,
    {
        if others[i].position == target {
            proof {
                lemma_first_found(others@, i as int, others@.len() as int, target);
            }
            text.append(" is blocked by a ");
            text.append(others[i].name.as_str());
            text.append(".");
            return text;
        }
        i += 1;
    }
    let floor = &model.levels[target.z as usize];
    let index = floor.to_index(target.x, target.y);
    text.append(" is blocked by the ");
    text.append(floor.tiles[index].ttype.name());
    text.append(".");
    text
}

/// What is still to be written of a list of names when the names after them
/// have been written: nothing for no names, else the names backwards, led by
/// the separator if a name stands before them.
spec fn still_to_join(names: Seq<Seq<char>>, started: bool) -> Seq<char> {
    if names.len() == 0 {
        Seq::empty()
    } else if started {
        ", and a "@ + joined_backwards(names)
    } else {
        joined_backwards(names)
    }
}

/// The text about the things that lie at `target`, if any do.
fn contents_text(others: &Vec<Occupant>, target: Position) -> (text: Option<String>)
    ensures
        names_at(others@, others@.len() as int, target).len() == 0 ==> text.is_none(),
        names_at(others@, others@.len() as int, target).len() > 0 ==> text.is_some()
            && text.unwrap()@ == spec_contents_text(
            names_at(others@, others@.len() as int, target),
        ),
{
    let mut contents: Vec<String> = Vec::new();
    let mut i: usize = 0;
    while i < others.len()
        invariant
            i <= others.len(),
            contents@.map_values(|s: String| s@) == names_at(others@, i as int, target),
        decreases others.len() - i,
    {
        if others[i].position == target {
            let name = others[i].name.clone();
            contents.push(name);
        }
        i += 1;
    }
    let ghost names = names_at(others@, others@.len() as int, target);
    if contents.len() == 0 {
        return None;
    }
    if contents.len() > 3 {
        return Some(String::from_str("There's some stuff here on the ground."));
    }
    let mut text = String::from_str("There's a ");
    let mut started = false;
    while contents.len() > 0
        invariant
            names.len() > 0,
            text@ + still_to_join(contents@.map_values(|s: String| s@), started) == "There's a "@
                + joined_backwards(names),
            contents.len() == 0 ==> started,
        decreases contents.len(),
    {
        let ghost rest = contents@.map_values(|s: String| s@);
        let name = contents.pop().unwrap();
        let ghost fewer = contents@.map_values(|s: String| s@);
        assert(fewer =~= rest.drop_last());
        if started {
            text.append(", and a ");
        }
        text.append(name.as_str());
        started = true;
    }
    text.append(" here.");
    Some(text)
}

/// Applies one move intent of the player.
pub fn player_move(
    dir: Direction,
    msglog: &mut MessageLog,
    p_posn_res: &mut Position,
    p_pos: &mut Position,
    p_view: &mut Viewshed,
    model: &Model,
    others: &Vec<Occupant>,
)
    requires
        model.wf(),
    ensures
        (MoveState {
            position: *final(p_pos),
            mirror: *final(p_posn_res),
            dirty: final(p_view).dirty,
            log: final(msglog)@,
        }) == spec_move_step(
            MoveState {
                position: *old(p_pos),
                mirror: *old(p_posn_res),
                dirty: old(p_view).dirty,
                log: old(msglog)@,
            },
            GameEvent { etype: GameEventType::PlayerMove(dir), context: None },
            model,
            others@,
        ),
        final(p_view).range == old(p_view).range,
        final(p_view).visible_tiles == old(p_view).visible_tiles,
{
    if dir == Direction::X {
        return;
    }
    match move_outcome(model, *p_pos, dir) {
        MoveOutcome::OffMap => {},
        MoveOutcome::NoStairs => {
            let mut feedback = String::from_str("There is nothing here to ");
            if dir == Direction::UP {
                feedback.append("ascend.");
            } else {
                feedback.append("descend.");
            }
            msglog.tell_player(feedback);
        },
        MoveOutcome::Blocked(target) => {
            let text = blocked_text(model, others, dir, target);
            msglog.tell_player(text);
        },
        MoveOutcome::Moved(target) => {
            *p_pos = target;
            *p_posn_res = target;
            p_view.dirty = true;
            match contents_text(others, target) {
                Some(text) => {
                    msglog.tell_player(text);
                },
                None => {},
            }
        },
    }
}

/// Resolves the move intents among the events of a tick, in order, against
/// the blocking bitmap of the map. Events of other kinds are passed over.
pub fn movement_system(
    events: &Vec<GameEvent>,
    msglog: &mut MessageLog,
    p_posn_res: &mut Position,
    p_pos: &mut Position,
    p_view: &mut Viewshed,
    model: &Model,
    others: &Vec<Occupant>,
)
    requires
        model.wf(),
    ensures
        (MoveState {
            position: *final(p_pos),
            mirror: *final(p_posn_res),
            dirty: final(p_view).dirty,
            log: final(msglog)@,
        }) == spec_moves(
            MoveState {
                position: *old(p_pos),
                mirror: *old(p_posn_res),
                dirty: old(p_view).dirty,
                log: old(msglog)@,
            },
            events@,
            events@.len() as int,
            model,
            others@,
        ),
        final(p_view).range == old(p_view).range,
        final(p_view).visible_tiles == old(p_view).visible_tiles,
{
    let ghost start = MoveState {
        position: *p_pos,
        mirror: *p_posn_res,
        dirty: p_view.dirty,
        log: msglog@,
    };
    let mut i: usize = 0;
    while i < events.len()
        invariant
            i <= events.len(),
            model.wf(),
            (MoveState {
                position: *p_pos,
                mirror: *p_posn_res,
                dirty: p_view.dirty,
                log: msglog@,
            }) == spec_moves(start, events@, i as int, model, others@),
            p_view.range == old(p_view).range,
            p_view.visible_tiles == old(p_view).visible_tiles,
        decreases events.len() - i,
    {
        match events[i].etype {
            GameEventType::PlayerMove(dir) => {
                player_move(dir, msglog, p_posn_res, p_pos, p_view, model, others);
            },
            _ => {},
        }
        i += 1;
    }
}

} // verus!
