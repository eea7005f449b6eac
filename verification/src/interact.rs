//! The interaction systems: opening and closing, locking and unlocking,
//! using a device, and moving items between the map and their carriers.
//!
//! Each system reads every event of the tick and acts on the kinds that are
//! its own. An event whose context is missing, lacks its subject or object,
//! or names an entity that is not among the rows is passed over in silence.

use vstd::prelude::*;
use vstd::string::*;
use crate::components::Device;
use crate::components::EntityId;
use crate::components::Key;
use crate::components::Lockable;
use crate::components::Opaque;
use crate::components::Openable;
use crate::components::Portable;
use crate::components::Renderable;
use crate::components::Viewshed;
use crate::event::GameEvent;
use crate::event::GameEventType;
use crate::messagelog::world_line;
use crate::messagelog::MessageLog;
use crate::messagelog::MessageView;
use crate::position::Position;

verus! {

/// A row of component data that belongs to one entity.
pub trait Row {
    /// The entity that the row belongs to.
    spec fn spec_entity(&self) -> EntityId;

    /// The entity that the row belongs to.
    fn entity(&self) -> (e: EntityId)
        ensures
            e == self.spec_entity(),
    ;
}

/// The index of the first of the first `n` rows that belongs to `e`, or -1
/// if none of them does.
pub open spec fn spec_find<R: Row>(rows: Seq<R>, n: int, e: EntityId) -> int
    decreases n,
{
    if n <= 0 {
        -1
    } else {
        let earlier = spec_find(rows, n - 1, e);
        if earlier >= 0 {
            earlier
        } else if rows[n - 1].spec_entity() == e {
            n - 1
        } else {
            -1
        }
    }
}

/// The index of the first row that belongs to `e`, or -1 if there is none.
pub open spec fn spec_row_of<R: Row>(rows: Seq<R>, e: EntityId) -> int {
    spec_find(rows, rows.len() as int, e)
}

/// Once a row of `e` is found at index `at` and none before it, it stays the
/// answer however many more rows are looked at.
proof fn lemma_found<R: Row>(rows: Seq<R>, at: int, n: int, e: EntityId)
    requires
        0 <= at < n <= rows.len(),
        spec_find(rows, at, e) < 0,
        rows[at].spec_entity() == e,
    ensures
        spec_find(rows, n, e) == at,
    decreases n,
{
    if n > at + 1 {
        lemma_found(rows, at, n - 1, e);
    }
}

/// Finds the first row that belongs to `e`.
pub fn row_of<R: Row>(rows: &Vec<R>, e: EntityId) -> (at: Option<usize>)
    ensures
        at.is_none() == (spec_row_of(rows@, e) < 0),
        at matches Some(i) ==> i == spec_row_of(rows@, e) && i < rows@.len(),
{
    let mut i: usize = 0;
    while i < rows.len()
        invariant
            i <= rows.len(),
            spec_find(rows@, i as int, e) < 0,
        decreases rows.len() - i,
    {
        if rows[i].entity() == e {
            proof {
                lemma_found(rows@, i as int, rows@.len() as int, e);
            }
            return Some(i);
        }
        i += 1;
    }
    None
}

/// Something that opens and closes, as the open/close system sees it.
#[derive(Debug)]
pub struct DoorRow {
    pub entity: EntityId,
    pub position: Position,
    pub openable: Openable,
    pub renderable: Renderable,
    pub opaque: Opaque,
    /// Whether the entity carries the tag that makes it block movement.
    pub obstructive: bool,
}

/// Someone who can open and close things.
#[derive(Debug)]
pub struct OpenerRow {
    pub entity: EntityId,
    pub position: Position,
    pub name: String,
    pub is_player: bool,
    pub viewshed: Option<Viewshed>,
}

/// Something with a lock.
#[derive(Debug)]
pub struct LockRow {
    pub entity: EntityId,
    pub position: Position,
    pub name: String,
    pub lock: Lockable,
}

/// Someone who can lock and unlock things.
#[derive(Debug)]
pub struct ActorRow {
    pub entity: EntityId,
    pub position: Position,
    pub name: String,
    pub is_player: bool,
}

/// A key that somebody carries.
#[derive(Debug)]
pub struct KeyRow {
    pub entity: EntityId,
    pub portable: Portable,
    pub name: String,
    pub key: Key,
}

/// A device.
#[derive(Debug)]
pub struct DeviceRow {
    pub entity: EntityId,
    pub name: String,
    pub device: Device,
}

/// Someone who can hold items.
#[derive(Debug)]
pub struct HolderRow {
    pub entity: EntityId,
    pub name: String,
    pub position: Position,
    pub is_player: bool,
}

/// An item: on the map if it has a position, carried if it has none.
#[derive(Debug)]
pub struct ItemRow {
    pub entity: EntityId,
    pub name: String,
    pub portable: Portable,
    pub position: Option<Position>,
}

impl Row for DoorRow {
    open spec fn spec_entity(&self) -> EntityId {
        self.entity
    }

    fn entity(&self) -> (e: EntityId) {
        self.entity
    }
}

impl Row for OpenerRow {
    open spec fn spec_entity(&self) -> EntityId {
        self.entity
    }

    fn entity(&self) -> (e: EntityId) {
        self.entity
    }
}

impl Row for LockRow {
    open spec fn spec_entity(&self) -> EntityId {
        self.entity
    }

    fn entity(&self) -> (e: EntityId) {
        self.entity
    }
}

impl Row for ActorRow {
    open spec fn spec_entity(&self) -> EntityId {
        self.entity
    }

    fn entity(&self) -> (e: EntityId) {
        self.entity
    }
}

impl Row for KeyRow {
    open spec fn spec_entity(&self) -> EntityId {
        self.entity
    }

    fn entity(&self) -> (e: EntityId) {
        self.entity
    }
}

impl Row for DeviceRow {
    open spec fn spec_entity(&self) -> EntityId {
        self.entity
    }

    fn entity(&self) -> (e: EntityId) {
        self.entity
    }
}

impl Row for HolderRow {
    open spec fn spec_entity(&self) -> EntityId {
        self.entity
    }

    fn entity(&self) -> (e: EntityId) {
        self.entity
    }
}

impl Row for ItemRow {
    open spec fn spec_entity(&self) -> EntityId {
        self.entity
    }

    fn entity(&self) -> (e: EntityId) {
        self.entity
    }
}

// ---------------------------------------------------------------- open/close
/// What the open/close system reads and writes.
pub struct OpenState {
    pub doors: Seq<DoorRow>,
    pub actors: Seq<OpenerRow>,
    pub log: Seq<MessageView>,
}

/// A door after it was opened or closed: the open flag follows, the glyph
/// becomes the open or the closed one, and the door is opaque and obstructs
/// exactly while it is closed.
pub open spec fn spec_door_set(door: DoorRow, open: bool) -> DoorRow {
    DoorRow {
        openable: Openable { is_open: open, ..door.openable },
        renderable: Renderable {
            glyph: if open {
                door.openable.open_glyph
            } else {
                door.openable.closed_glyph
            },
            ..door.renderable
        },
        opaque: Opaque { opaque: !open },
        obstructive: !open,
        ..door
    }
}

/// An actor after it opened or closed something: its viewshed, if it has
/// one, is due for a recompute.
pub open spec fn spec_actor_looked(actor: OpenerRow) -> OpenerRow {
    match actor.viewshed {
        Some(v) => OpenerRow { viewshed: Some(Viewshed { dirty: true, ..v }), ..actor },
        None => actor,
    }
}

/// What is said when a door is opened or closed: to the player in the second
/// person, of anyone else by name.
pub open spec fn spec_door_text(actor: OpenerRow, open: bool) -> Seq<char> {
    if actor.is_player {
        if open {
            "The door slides open at your touch."@
        } else {
            "The door slides shut."@
        }
    } else {
        if open {
            "The "@ + actor.name@ + " opens a door."@
        } else {
            "The "@ + actor.name@ + " closes a door."@
        }
    }
}

/// The state after one event, for the open/close system.
pub open spec fn spec_open_step(st: OpenState, event: GameEvent) -> OpenState {
    if event.etype != GameEventType::ActorOpen && event.etype != GameEventType::ActorClose {
        st
    } else {
        match event.spec_valid_context() {
            None => st,
            Some(c) => {
                let a = spec_row_of(st.actors, c.subject);
                let d = spec_row_of(st.doors, c.object);
                if a < 0 || d < 0 {
                    st
                } else {
                    let open = event.etype == GameEventType::ActorOpen;
                    OpenState {
                        doors: st.doors.update(d, spec_door_set(st.doors[d], open)),
                        actors: st.actors.update(a, spec_actor_looked(st.actors[a])),
                        log: st.log.push(world_line(spec_door_text(st.actors[a], open))),
                    }
                }
            },
        }
    }
}

/// The state after the first `n` events, for the open/close system.
pub open spec fn spec_open_run(st: OpenState, events: Seq<GameEvent>, n: int) -> OpenState
    decreases n,
{
    if n <= 0 {
        st
    } else {
        spec_open_step(spec_open_run(st, events, n - 1), events[n - 1])
    }
}

fn door_text(actor: &OpenerRow, open: bool) -> (text: String)
    ensures
        text@ == spec_door_text(*actor, open),
{
    if actor.is_player {
        if open {
            String::from_str("The door slides open at your touch.")
        } else {
            String::from_str("The door slides shut.")
        }
    } else {
        let mut text = String::from_str("The ");
        text.append(actor.name.as_str());
        if open {
            text.append(" opens a door.");
        } else {
            text.append(" closes a door.");
        }
        text
    }
}

/// Opens and closes doors as the events of the tick ask.
pub fn openable_system(
    events: &Vec<GameEvent>,
    msglog: &mut MessageLog,
    doors: &mut Vec<DoorRow>,
    actors: &mut Vec<OpenerRow>,
)
    ensures
        (OpenState { doors: final(doors)@, actors: final(actors)@, log: final(msglog)@ })
            == spec_open_run(
            OpenState { doors: old(doors)@, actors: old(actors)@, log: old(msglog)@ },
            events@,
            events@.len() as int,
        ),
{
    let ghost start = OpenState { doors: doors@, actors: actors@, log: msglog@ };
    let mut i: usize = 0;
    while i < events.len()
        invariant
            i <= events.len(),
            (OpenState { doors: doors@, actors: actors@, log: msglog@ }) == spec_open_run(
                start,
                events@,
                i as int,
            ),
        decreases events.len() - i,
    {
        let event = events[i];
        let ghost before = OpenState { doors: doors@, actors: actors@, log: msglog@ };
        i += 1;
        if event.etype != GameEventType::ActorOpen && event.etype != GameEventType::ActorClose {
            continue ;
        }
        let context = match event.valid_context() {
            Some(c) => c,
            None => {
                continue ;
            },
        };
        let a = match row_of(actors, context.subject) {
            Some(a) => a,
            None => {
                continue ;
            },
        };
        let d = match row_of(doors, context.object) {
            Some(d) => d,
            None => {
                continue ;
            },
        };
        let open = event.etype == GameEventType::ActorOpen;
        let message = door_text(&actors[a], open);
        doors[d].openable.is_open = open;
        let glyph = if open {
            doors[d].openable.open_glyph.clone()
        } else {
            doors[d].openable.closed_glyph.clone()
        };
        doors[d].renderable.glyph = glyph;
        doors[d].opaque.opaque = !open;
        doors[d].obstructive = !open;
        match &mut actors[a].viewshed {
            Some(v) => {
                v.dirty = true;
            },
            None => {},
        }
        msglog.tell_player(message);
        assert(doors@ =~= before.doors.update(d as int, spec_door_set(before.doors[d as int], open)));
    }
}

// --------------------------------------------------------------- lock/unlock
/// What the lock system writes.
pub struct LockState {
    pub locks: Seq<LockRow>,
    pub log: Seq<MessageView>,
}

/// The index of the first of the first `n` keys that `who` carries and that
/// has the key id `key`, or -1 if there is none.
pub open spec fn fitting_key(keys: Seq<KeyRow>, n: int, who: EntityId, key: i32) -> int
    decreases n,
{
    if n <= 0 {
        -1
    } else {
        let earlier = fitting_key(keys, n - 1, who, key);
        if earlier >= 0 {
            earlier
        } else if keys[n - 1].portable.carrier == who && keys[n - 1].key.key_id == key {
            n - 1
        } else {
            -1
        }
    }
}

/// Whether `who` carries one of the first `n` keys.
pub open spec fn carries_key(keys: Seq<KeyRow>, n: int, who: EntityId) -> bool
    decreases n,
{
    n > 0 && (carries_key(keys, n - 1, who) || keys[n - 1].portable.carrier == who)
}

/// What is said when `actor` locks `target`.
pub open spec fn spec_lock_text(actor: ActorRow, target: LockRow) -> Seq<char> {
    if actor.is_player {
        "You tap the LOCK button on the "@ + target.name@ + "."@
    } else {
        "The "@ + actor.name@ + " locks the "@ + target.name@ + "."@
    }
}

/// What is said when `actor` unlocks `target` with `key`.
pub open spec fn spec_unlock_text(actor: ActorRow, key: KeyRow, target: LockRow) -> Seq<char> {
    if actor.is_player {
        "Your "@ + key.name@ + " unlocks the "@ + target.name@ + "."@
    } else {
        "The "@ + actor.name@ + " unlocks the "@ + target.name@ + "."@
    }
}

/// What the player is told when none of the keys that are carried fits.
pub open spec fn spec_wrong_key_text() -> Seq<char> {
    "You don't seem to have the right key."@
}

/// The state after one event, for the lock system.
///
/// Locking always locks and keeps the key id of the lock. Unlocking takes
/// the first key that the actor carries and that fits the lock; an actor who
/// carries no key at all does nothing, and one whose keys do not fit leaves
/// the lock as it is, which only the player is told.
pub open spec fn spec_lock_step(
    st: LockState,
    event: GameEvent,
    actors: Seq<ActorRow>,
    keys: Seq<KeyRow>,
) -> LockState {
    if event.etype != GameEventType::ActorLock && event.etype != GameEventType::ActorUnlock {
        st
    } else {
        match event.spec_valid_context() {
            None => st,
            Some(c) => {
                let a = spec_row_of(actors, c.subject);
                let t = spec_row_of(st.locks, c.object);
                if a < 0 || t < 0 {
                    st
                } else if event.etype == GameEventType::ActorLock {
                    LockState {
                        locks: st.locks.update(
                            t,
                            LockRow { lock: st.locks[t].lock.spec_lock(0), ..st.locks[t] },
                        ),
                        log: st.log.push(world_line(spec_lock_text(actors[a], st.locks[t]))),
                    }
                } else {
                    let who = actors[a].entity;
                    let k = fitting_key(keys, keys.len() as int, who, st.locks[t].lock.key);
                    if k >= 0 {
                        LockState {
                            locks: st.locks.update(
                                t,
                                LockRow {
                                    lock: st.locks[t].lock.spec_unlock(keys[k].key.key_id),
                                    ..st.locks[t]
                                },
                            ),
                            log: st.log.push(
                                world_line(spec_unlock_text(actors[a], keys[k], st.locks[t])),
                            ),
                        }
                    } else if carries_key(keys, keys.len() as int, who) && actors[a].is_player {
                        LockState { log: st.log.push(world_line(spec_wrong_key_text())), ..st }
                    } else {
                        st
                    }
                }
            },
        }
    }
}

/// The state after the first `n` events, for the lock system.
pub open spec fn spec_lock_run(
    st: LockState,
    events: Seq<GameEvent>,
    n: int,
    actors: Seq<ActorRow>,
    keys: Seq<KeyRow>,
) -> LockState
    decreases n,
{
    if n <= 0 {
        st
    } else {
        spec_lock_step(spec_lock_run(st, events, n - 1, actors, keys), events[n - 1], actors, keys)
    }
}

proof fn lemma_key_found(keys: Seq<KeyRow>, at: int, n: int, who: EntityId, key: i32)
    requires
        0 <= at < n <= keys.len(),
        fitting_key(keys, at, who, key) < 0,
        keys[at].portable.carrier == who,
        keys[at].key.key_id == key,
    ensures
        fitting_key(keys, n, who, key) == at,
    decreases n,
{
    if n > at + 1 {
        lemma_key_found(keys, at, n - 1, who, key);
    }
}

/// What a search for a key gave: a key that fits, or else whether the actor
/// carries any key.
enum KeySearch {
    Fits(usize),
    NoneFits { carries_any: bool },
}

fn search_keys(keys: &Vec<KeyRow>, who: EntityId, key: i32) -> (found: KeySearch)
    ensures
        match found {
            KeySearch::Fits(k) => k < keys@.len() && k == fitting_key(
                keys@,
                keys@.len() as int,
                who,
                key,
            ),
            KeySearch::NoneFits { carries_any } => fitting_key(keys@, keys@.len() as int, who, key)
                < 0 && carries_any == carries_key(keys@, keys@.len() as int, who),
        },
{
    let mut carries_any = false;
    let mut i: usize = 0;
    while i < keys.len()
        invariant
            i <= keys.len(),
            fitting_key(keys@, i as int, who, key) < 0,
            carries_any == carries_key(keys@, i as int, who),
        decreases keys.len() - i,
    {
        if keys[i].portable.carrier == who {
            if keys[i].key.key_id == key {
                proof {
                    lemma_key_found(keys@, i as int, keys@.len() as int, who, key);
                }
                return KeySearch::Fits(i);
            }
            carries_any = true;
        }
        i += 1;
    }
    KeySearch::NoneFits { carries_any }
}

fn lock_text(actor: &ActorRow, target: &LockRow) -> (text: String)
    ensures
        text@ == spec_lock_text(*actor, *target),
{
    if actor.is_player {
        let mut text = String::from_str("You tap the LOCK button on the ");
        text.append(target.name.as_str());
        text.append(".");
        text
    } else {
        let mut text = String::from_str("The ");
        text.append(actor.name.as_str());
        text.append(" locks the ");
        text.append(target.name.as_str());
        text.append(".");
        text
    }
}

fn unlock_text(actor: &ActorRow, key: &KeyRow, target: &LockRow) -> (text: String)
    ensures
        text@ == spec_unlock_text(*actor, *key, *target),
{
    if actor.is_player {
        let mut text = String::from_str("Your ");
        text.append(key.name.as_str());
        text.append(" unlocks the ");
        text.append(target.name.as_str());
        text.append(".");
        text
    } else {
        let mut text = String::from_str("The ");
        text.append(actor.name.as_str());
        text.append(" unlocks the ");
        text.append(target.name.as_str());
        text.append(".");
        text
    }
}

/// Locks and unlocks as the events of the tick ask.
pub fn lock_system(
    events: &Vec<GameEvent>,
    msglog: &mut MessageLog,
    locks: &mut Vec<LockRow>,
    actors: &Vec<ActorRow>,
    keys: &Vec<KeyRow>,
)
    ensures
        (LockState { locks: final(locks)@, log: final(msglog)@ }) == spec_lock_run(
            LockState { locks: old(locks)@, log: old(msglog)@ },
            events@,
            events@.len() as int,
            actors@,
            keys@,
        ),
{
    let ghost start = LockState { locks: locks@, log: msglog@ };
    let mut i: usize = 0;
    while i < events.len()
        invariant
            i <= events.len(),
            (LockState { locks: locks@, log: msglog@ }) == spec_lock_run(
                start,
                events@,
                i as int,
                actors@,
                keys@,
            ),
        decreases events.len() - i,
    {
        let event = events[i];
        i += 1;
        if event.etype != GameEventType::ActorLock && event.etype != GameEventType::ActorUnlock {
            continue ;
        }
        let context = match event.valid_context() {
            Some(c) => c,
            None => {
                continue ;
            },
        };
        let a = match row_of(actors, context.subject) {
            Some(a) => a,
            None => {
                continue ;
            },
        };
        let t = match row_of(locks, context.object) {
            Some(t) => t,
            None => {
                continue ;
            },
        };
        if event.etype == GameEventType::ActorLock {
            let message = lock_text(&actors[a], &locks[t]);
            locks[t].lock.lock(0);
            msglog.tell_player(message);
        } else {
            match search_keys(keys, actors[a].entity, locks[t].lock.key) {
                KeySearch::Fits(k) => {
                    let message = unlock_text(&actors[a], &keys[k], &locks[t]);
                    locks[t].lock.unlock(keys[k].key.key_id);
                    msglog.tell_player(message);
                },
                KeySearch::NoneFits { carries_any } => {
                    if carries_any && actors[a].is_player {
                        msglog.tell_player(String::from_str("You don't seem to have the right key."));
                    }
                },
            }
        }
    }
}

// ----------------------------------------------------------------------- use
/// A device after it was used: one that is switched off is switched on, one
/// that is on stays as it is.
pub open spec fn spec_device_used(row: DeviceRow) -> DeviceRow {
    if row.device.pw_switch {
        row
    } else {
        DeviceRow { device: Device { pw_switch: true, ..row.device }, ..row }
    }
}

/// The devices after one event, for the use system.
pub open spec fn spec_use_step(devices: Seq<DeviceRow>, event: GameEvent) -> Seq<DeviceRow> {
    if event.etype != GameEventType::ItemUse {
        devices
    } else {
        match event.spec_valid_context() {
            None => devices,
            Some(c) => {
                let d = spec_row_of(devices, c.object);
                if d < 0 {
                    devices
                } else {
                    devices.update(d, spec_device_used(devices[d]))
                }
            },
        }
    }
}

/// The devices after the first `n` events, for the use system.
pub open spec fn spec_use_run(devices: Seq<DeviceRow>, events: Seq<GameEvent>, n: int) -> Seq<
    DeviceRow,
>
    decreases n,
{
    if n <= 0 {
        devices
    } else {
        spec_use_step(spec_use_run(devices, events, n - 1), events[n - 1])
    }
}

/// Applies the use events of the tick: using a device that is switched off
/// switches it on.
pub fn operable_system(events: &Vec<GameEvent>, devices: &mut Vec<DeviceRow>)
    ensures
        final(devices)@ == spec_use_run(old(devices)@, events@, events@.len() as int),
{
    let mut i: usize = 0;
    while i < events.len()
        invariant
            i <= events.len(),
            devices@ == spec_use_run(old(devices)@, events@, i as int),
        decreases events.len() - i,
    {
        let event = events[i];
        i += 1;
        if event.etype != GameEventType::ItemUse {
            continue ;
        }
        let context = match event.valid_context() {
            Some(c) => c,
            None => {
                continue ;
            },
        };
        let d = match row_of(devices, context.object) {
            Some(d) => d,
            None => {
                continue ;
            },
        };
        if !devices[d].device.pw_switch {
            devices[d].device.power_toggle();
        }
    }
}

// --------------------------------------------------------------------- items
/// What the item system writes: the items, the narration, and the entities
/// that it destroyed, in the order in which it destroyed them.
pub struct ItemState {
    pub items: Seq<ItemRow>,
    pub log: Seq<MessageView>,
    pub destroyed: Seq<EntityId>,
}

/// What is said when `holder` picks up `item`.
pub open spec fn spec_take_text(holder: HolderRow, item: ItemRow) -> Seq<char> {
    if holder.is_player {
        "Obtained a "@ + item.name@ + "."@
    } else {
        "The "@ + holder.name@ + " takes a "@ + item.name@ + "."@
    }
}

/// What is said when `holder` drops `item`.
pub open spec fn spec_drop_text(holder: HolderRow, item: ItemRow) -> Seq<char> {
    if holder.is_player {
        "Dropped a "@ + item.name@ + "."@
    } else {
        "The "@ + holder.name@ + " drops a "@ + item.name@ + "."@
    }
}

/// The state after one event, for the item system.
///
/// Taking an item gives it its carrier and takes its position away; dropping
/// it clears the carrier and puts it where the one who drops it stands;
/// destroying it removes it for good and is not narrated.
pub open spec fn spec_item_step(st: ItemState, event: GameEvent, holders: Seq<HolderRow>) -> ItemState {
    if event.etype != GameEventType::ItemMove && event.etype != GameEventType::ItemDrop
        && event.etype != GameEventType::ItemKILL {
        st
    } else {
        match event.spec_valid_context() {
            None => st,
            Some(c) => {
                let h = spec_row_of(holders, c.subject);
                let o = spec_row_of(st.items, c.object);
                if h < 0 || o < 0 {
                    st
                } else if event.etype == GameEventType::ItemMove {
                    ItemState {
                        items: st.items.update(
                            o,
                            ItemRow {
                                portable: Portable { carrier: holders[h].entity },
                                position: None,
                                ..st.items[o]
                            },
                        ),
                        log: st.log.push(world_line(spec_take_text(holders[h], st.items[o]))),
                        ..st
                    }
                } else if event.etype == GameEventType::ItemDrop {
                    ItemState {
                        items: st.items.update(
                            o,
                            ItemRow {
                                portable: Portable { carrier: EntityId::spec_placeholder() },
                                position: Some(holders[h].position),
                                ..st.items[o]
                            },
                        ),
                        log: st.log.push(world_line(spec_drop_text(holders[h], st.items[o]))),
                        ..st
                    }
                } else {
                    ItemState {
                        items: st.items.remove(o),
                        destroyed: st.destroyed.push(st.items[o].entity),
                        ..st
                    }
                }
            },
        }
    }
}

/// The state after the first `n` events, for the item system.
pub open spec fn spec_item_run(
    st: ItemState,
    events: Seq<GameEvent>,
    n: int,
    holders: Seq<HolderRow>,
) -> ItemState
    decreases n,
{
    if n <= 0 {
        st
    } else {
        spec_item_step(spec_item_run(st, events, n - 1, holders), events[n - 1], holders)
    }
}

fn take_text(holder: &HolderRow, item: &ItemRow) -> (text: String)
    ensures
        text@ == spec_take_text(*holder, *item),
{
    if holder.is_player {
        let mut text = String::from_str("Obtained a ");
        text.append(item.name.as_str());
        text.append(".");
        text
    } else {
        let mut text = String::from_str("The ");
        text.append(holder.name.as_str());
        text.append(" takes a ");
        text.append(item.name.as_str());
        text.append(".");
        text
    }
}

fn drop_text(holder: &HolderRow, item: &ItemRow) -> (text: String)
    ensures
        text@ == spec_drop_text(*holder, *item),
{
    if holder.is_player {
        let mut text = String::from_str("Dropped a ");
        text.append(item.name.as_str());
        text.append(".");
        text
    } else {
        let mut text = String::from_str("The ");
        text.append(holder.name.as_str());
        text.append(" drops a ");
        text.append(item.name.as_str());
        text.append(".");
        text
    }
}

/// Picks up, drops and destroys items as the events of the tick ask.
/// Returns the entities that were destroyed; their rows are gone from
/// `items`.
pub fn item_collection_system(
    events: &Vec<GameEvent>,
    msglog: &mut MessageLog,
    holders: &Vec<HolderRow>,
    items: &mut Vec<ItemRow>,
) -> (destroyed: Vec<EntityId>)
    ensures
        (ItemState { items: final(items)@, log: final(msglog)@, destroyed: destroyed@ })
            == spec_item_run(
            ItemState { items: old(items)@, log: old(msglog)@, destroyed: Seq::empty() },
            events@,
            events@.len() as int,
            holders@,
        ),
{
    let ghost start = ItemState { items: items@, log: msglog@, destroyed: Seq::empty() };
    let mut destroyed: Vec<EntityId> = Vec::new();
    let mut i: usize = 0;
    while i < events.len()
        invariant
            i <= events.len(),
            (ItemState { items: items@, log: msglog@, destroyed: destroyed@ }) == spec_item_run(
                start,
                events@,
                i as int,
                holders@,
            ),
        decreases events.len() - i,
    {
        let event = events[i];
        let ghost before = ItemState { items: items@, log: msglog@, destroyed: destroyed@ };
        i += 1;
        if event.etype != GameEventType::ItemMove && event.etype != GameEventType::ItemDrop
            && event.etype != GameEventType::ItemKILL {
            continue ;
        }
        let context = match event.valid_context() {
            Some(c) => c,
            None => {
                continue ;
            },
        };
        let h = match row_of(holders, context.subject) {
            Some(h) => h,
            None => {
                continue ;
            },
        };
        let o = match row_of(items, context.object) {
            Some(o) => o,
            None => {
                continue ;
            },
        };
        if event.etype == GameEventType::ItemMove {
            let message = take_text(&holders[h], &items[o]);
            items[o].portable = Portable::new(holders[h].entity);
            items[o].position = None;
            msglog.tell_player(message);
            assert(items@ =~= before.items.update(
                o as int,
                ItemRow {
                    portable: Portable { carrier: holders@[h as int].entity },
                    position: None,
                    ..before.items[o as int]
                },
            ));
        } else if event.etype == GameEventType::ItemDrop {
            let message = drop_text(&holders[h], &items[o]);
            items[o].portable = Portable::empty();
            items[o].position = Some(holders[h].position);
            msglog.tell_player(message);
            assert(items@ =~= before.items.update(
                o as int,
                ItemRow {
                    portable: Portable { carrier: EntityId::spec_placeholder() },
                    position: Some(holders@[h as int].position),
                    ..before.items[o as int]
                },
            ));
        } else {
            let gone = items.remove(o);
            destroyed.push(gone.entity);
        }
    }
    destroyed
}

} // verus!
