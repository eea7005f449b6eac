use spacegame::components::Device;
use spacegame::components::DeviceState;
use spacegame::components::EntityId;
use spacegame::components::Key;
use spacegame::components::Lockable;
use spacegame::components::Opaque;
use spacegame::components::Openable;
use spacegame::components::Portable;
use spacegame::components::Renderable;
use spacegame::components::Viewshed;
use spacegame::event::GameEvent;
use spacegame::event::GameEventType;
use spacegame::interact::item_collection_system;
use spacegame::interact::lock_system;
use spacegame::interact::openable_system;
use spacegame::interact::operable_system;
use spacegame::interact::row_of;
use spacegame::interact::ActorRow;
use spacegame::interact::DeviceRow;
use spacegame::interact::DoorRow;
use spacegame::interact::HolderRow;
use spacegame::interact::ItemRow;
use spacegame::interact::KeyRow;
use spacegame::interact::LockRow;
use spacegame::interact::OpenerRow;
use spacegame::messagelog::MessageLog;
use spacegame::position::Position;

const PLAYER: EntityId = EntityId { index: 1, generation: 0 };
const ROBOT: EntityId = EntityId { index: 2, generation: 0 };
const DOOR: EntityId = EntityId { index: 10, generation: 0 };
const HATCH: EntityId = EntityId { index: 11, generation: 0 };
const CARD: EntityId = EntityId { index: 20, generation: 0 };
const TOKEN: EntityId = EntityId { index: 21, generation: 0 };
const SNACK: EntityId = EntityId { index: 30, generation: 0 };
const PLANQ: EntityId = EntityId { index: 31, generation: 0 };
const NOBODY: EntityId = EntityId { index: 99, generation: 0 };

fn event(etype: GameEventType, subject: EntityId, object: EntityId) -> GameEvent {
    GameEvent::new(etype, Some(subject), Some(object))
}

fn texts(log: &MessageLog) -> Vec<String> {
    log.logs.iter().map(|m| m.text.clone()).collect()
}

fn door(entity: EntityId, x: i32, open: bool) -> DoorRow {
    DoorRow {
        entity,
        position: Position::new(x, 5, 0),
        openable: Openable::new(open, "o", "c"),
        renderable: Renderable::new().glyph(if open { "o" } else { "c" }).fg(4),
        opaque: Opaque::new(!open),
        obstructive: !open,
    }
}

fn openers() -> Vec<OpenerRow> {
    vec![
        OpenerRow {
            entity: PLAYER,
            position: Position::new(5, 5, 0),
            name: "Pleyeur".to_string(),
            is_player: true,
            viewshed: Some({
                let mut v = Viewshed::new(8);
                v.dirty = false;
                v
            }),
        },
        OpenerRow {
            entity: ROBOT,
            position: Position::new(7, 5, 0),
            name: "LMR".to_string(),
            is_player: false,
            viewshed: None,
        },
    ]
}

fn actors() -> Vec<ActorRow> {
    vec![
        ActorRow { entity: PLAYER, position: Position::new(5, 5, 0), name: "Pleyeur".to_string(), is_player: true },
        ActorRow { entity: ROBOT, position: Position::new(7, 5, 0), name: "LMR".to_string(), is_player: false },
    ]
}

fn locks() -> Vec<LockRow> {
    vec![
        LockRow { entity: DOOR, position: Position::new(6, 5, 0), name: "door".to_string(), lock: Lockable { is_locked: true, key: 7 } },
        LockRow { entity: HATCH, position: Position::new(8, 5, 0), name: "hatch".to_string(), lock: Lockable { is_locked: false, key: 3 } },
    ]
}

fn key(entity: EntityId, carrier: EntityId, name: &str, key_id: i32) -> KeyRow {
    KeyRow { entity, portable: Portable::new(carrier), name: name.to_string(), key: Key { key_id } }
}

#[test]
fn rows_are_found_by_entity() {
    let rows = actors();
    assert_eq!(row_of(&rows, PLAYER), Some(0));
    assert_eq!(row_of(&rows, ROBOT), Some(1));
    assert_eq!(row_of(&rows, NOBODY), None);
    let empty: Vec<ActorRow> = Vec::new();
    assert_eq!(row_of(&empty, PLAYER), None);
}

#[test]
fn player_opens_a_door() {
    let mut doors = vec![door(DOOR, 6, false), door(HATCH, 8, false)];
    let mut who = openers();
    let mut log = MessageLog::new();
    openable_system(&vec![event(GameEventType::ActorOpen, PLAYER, DOOR)], &mut log, &mut doors, &mut who);
    assert!(doors[0].openable.is_open);
    assert_eq!(doors[0].renderable.glyph, "o");
    assert_eq!(doors[0].renderable.fg, 4);
    assert!(!doors[0].opaque.opaque);
    assert!(!doors[0].obstructive);
    // the other door is untouched
    assert!(!doors[1].openable.is_open);
    assert_eq!(doors[1].renderable.glyph, "c");
    assert!(doors[1].obstructive);
    assert!(who[0].viewshed.as_ref().unwrap().dirty);
    assert_eq!(texts(&log), vec!["The door slides open at your touch."]);
}

#[test]
fn player_closes_a_door() {
    let mut doors = vec![door(DOOR, 6, true)];
    let mut who = openers();
    let mut log = MessageLog::new();
    openable_system(&vec![event(GameEventType::ActorClose, PLAYER, DOOR)], &mut log, &mut doors, &mut who);
    assert!(!doors[0].openable.is_open);
    assert_eq!(doors[0].renderable.glyph, "c");
    assert!(doors[0].opaque.opaque);
    assert!(doors[0].obstructive);
    assert!(who[0].viewshed.as_ref().unwrap().dirty);
    assert_eq!(texts(&log), vec!["The door slides shut."]);
}

#[test]
fn others_open_and_close_by_name() {
    let mut doors = vec![door(DOOR, 6, false)];
    let mut who = openers();
    let mut log = MessageLog::new();
    let events = vec![
        event(GameEventType::ActorOpen, ROBOT, DOOR),
        event(GameEventType::ActorClose, ROBOT, DOOR),
    ];
    openable_system(&events, &mut log, &mut doors, &mut who);
    assert!(!doors[0].openable.is_open);
    assert!(doors[0].obstructive);
    assert!(who[1].viewshed.is_none());
    assert!(!who[0].viewshed.as_ref().unwrap().dirty);
    assert_eq!(texts(&log), vec!["The LMR opens a door.", "The LMR closes a door."]);
}

#[test]
fn malformed_open_events_are_skipped() {
    let mut doors = vec![door(DOOR, 6, false)];
    let mut who = openers();
    let mut log = MessageLog::new();
    let events = vec![
        GameEvent::new(GameEventType::ActorOpen, None, None),
        GameEvent::new(GameEventType::ActorOpen, Some(PLAYER), None),
        GameEvent::new(GameEventType::ActorOpen, None, Some(DOOR)),
        event(GameEventType::ActorOpen, NOBODY, DOOR),
        event(GameEventType::ActorOpen, PLAYER, NOBODY),
        event(GameEventType::ItemUse, PLAYER, DOOR),
        event(GameEventType::ActorLock, PLAYER, DOOR),
    ];
    openable_system(&events, &mut log, &mut doors, &mut who);
    assert!(!doors[0].openable.is_open);
    assert!(!who[0].viewshed.as_ref().unwrap().dirty);
    assert!(texts(&log).is_empty());
}

#[test]
fn player_unlocks_with_the_matching_key() {
    let mut doors = locks();
    let keys = vec![key(CARD, PLAYER, "keycard", 7)];
    let mut log = MessageLog::new();
    lock_system(&vec![event(GameEventType::ActorUnlock, PLAYER, DOOR)], &mut log, &mut doors, &actors(), &keys);
    assert!(!doors[0].lock.is_locked);
    assert_eq!(doors[0].lock.key, 7);
    assert_eq!(texts(&log), vec!["Your keycard unlocks the door."]);
}

#[test]
fn first_matching_key_is_used_and_named() {
    let mut doors = locks();
    let keys = vec![
        key(TOKEN, PLAYER, "token", 3),
        key(EntityId::new(22, 0), ROBOT, "robot key", 7),
        key(CARD, PLAYER, "keycard", 7),
        key(EntityId::new(23, 0), PLAYER, "spare card", 7),
    ];
    let mut log = MessageLog::new();
    lock_system(&vec![event(GameEventType::ActorUnlock, PLAYER, DOOR)], &mut log, &mut doors, &actors(), &keys);
    assert!(!doors[0].lock.is_locked);
    assert_eq!(texts(&log), vec!["Your keycard unlocks the door."]);
}

#[test]
fn wrong_key_is_narrated_for_the_player_only() {
    let mut doors = locks();
    let keys = vec![key(TOKEN, PLAYER, "token", 3), key(CARD, ROBOT, "keycard", 4)];
    let mut log = MessageLog::new();
    let events = vec![
        event(GameEventType::ActorUnlock, PLAYER, DOOR),
        event(GameEventType::ActorUnlock, ROBOT, DOOR),
    ];
    lock_system(&events, &mut log, &mut doors, &actors(), &keys);
    assert!(doors[0].lock.is_locked);
    assert_eq!(texts(&log), vec!["You don't seem to have the right key."]);
}

#[test]
fn unlocking_without_any_key_does_nothing() {
    let mut doors = locks();
    let keys = vec![key(CARD, ROBOT, "keycard", 7)];
    let mut log = MessageLog::new();
    lock_system(&vec![event(GameEventType::ActorUnlock, PLAYER, DOOR)], &mut log, &mut doors, &actors(), &keys);
    assert!(doors[0].lock.is_locked);
    assert!(texts(&log).is_empty());
}

#[test]
fn others_unlock_by_name() {
    let mut doors = locks();
    let keys = vec![key(CARD, ROBOT, "keycard", 7)];
    let mut log = MessageLog::new();
    lock_system(&vec![event(GameEventType::ActorUnlock, ROBOT, DOOR)], &mut log, &mut doors, &actors(), &keys);
    assert!(!doors[0].lock.is_locked);
    assert_eq!(texts(&log), vec!["The LMR unlocks the door."]);
}

#[test]
fn locking_always_locks_and_keeps_the_key() {
    let mut doors = locks();
    let mut log = MessageLog::new();
    let events = vec![
        event(GameEventType::ActorLock, PLAYER, HATCH),
        event(GameEventType::ActorLock, ROBOT, DOOR),
    ];
    lock_system(&events, &mut log, &mut doors, &actors(), &Vec::new());
    assert!(doors[1].lock.is_locked);
    assert_eq!(doors[1].lock.key, 3);
    assert!(doors[0].lock.is_locked);
    assert_eq!(doors[0].lock.key, 7);
    assert_eq!(
        texts(&log),
        vec!["You tap the LOCK button on the hatch.", "The LMR locks the door."]
    );
}

#[test]
fn malformed_lock_events_are_skipped() {
    let mut doors = locks();
    let keys = vec![key(CARD, PLAYER, "keycard", 7)];
    let mut log = MessageLog::new();
    let events = vec![
        GameEvent::new(GameEventType::ActorUnlock, None, None),
        GameEvent::new(GameEventType::ActorUnlock, Some(PLAYER), None),
        event(GameEventType::ActorUnlock, NOBODY, DOOR),
        event(GameEventType::ActorUnlock, PLAYER, NOBODY),
        event(GameEventType::ActorOpen, PLAYER, DOOR),
    ];
    lock_system(&events, &mut log, &mut doors, &actors(), &keys);
    assert!(doors[0].lock.is_locked);
    assert!(texts(&log).is_empty());
}

#[test]
fn using_a_device_switches_it_on() {
    let mut devices = vec![
        DeviceRow { entity: PLANQ, name: "PLANQ".to_string(), device: Device { pw_switch: false, batt_voltage: 100, batt_discharge: -1, state: DeviceState::Offline } },
        DeviceRow { entity: SNACK, name: "toaster".to_string(), device: Device::new(0) },
    ];
    operable_system(&vec![event(GameEventType::ItemUse, PLAYER, PLANQ)], &mut devices);
    assert!(devices[0].device.pw_switch);
    assert_eq!(devices[0].device.batt_voltage, 100);
    assert_eq!(devices[0].device.state, DeviceState::Offline);
    assert!(!devices[1].device.pw_switch);
    // using it again leaves it on
    operable_system(&vec![event(GameEventType::ItemUse, PLAYER, PLANQ)], &mut devices);
    assert!(devices[0].device.pw_switch);
}

#[test]
fn malformed_use_events_are_skipped() {
    let mut devices = vec![DeviceRow { entity: PLANQ, name: "PLANQ".to_string(), device: Device::new(-1) }];
    let events = vec![
        GameEvent::new(GameEventType::ItemUse, None, None),
        GameEvent::new(GameEventType::ItemUse, Some(PLAYER), None),
        GameEvent::new(GameEventType::ItemUse, None, Some(PLANQ)),
        event(GameEventType::ItemUse, PLAYER, NOBODY),
        event(GameEventType::ItemMove, PLAYER, PLANQ),
    ];
    operable_system(&events, &mut devices);
    assert!(!devices[0].device.pw_switch);
}

fn holders() -> Vec<HolderRow> {
    vec![
        HolderRow { entity: PLAYER, name: "Pleyeur".to_string(), position: Position::new(5, 5, 0), is_player: true },
        HolderRow { entity: ROBOT, name: "LMR".to_string(), position: Position::new(7, 5, 1), is_player: false },
    ]
}

fn items() -> Vec<ItemRow> {
    vec![
        ItemRow { entity: SNACK, name: "snack".to_string(), portable: Portable::empty(), position: Some(Position::new(5, 5, 0)) },
        ItemRow { entity: PLANQ, name: "PLANQ".to_string(), portable: Portable::new(ROBOT), position: None },
        ItemRow { entity: CARD, name: "keycard".to_string(), portable: Portable::empty(), position: Some(Position::new(1, 1, 0)) },
    ]
}

#[test]
fn taking_an_item_sets_carrier_and_strips_position() {
    let mut things = items();
    let mut log = MessageLog::new();
    let destroyed = item_collection_system(&vec![event(GameEventType::ItemMove, PLAYER, SNACK)], &mut log, &holders(), &mut things);
    assert!(destroyed.is_empty());
    assert_eq!(things[0].portable.carrier, PLAYER);
    assert_eq!(things[0].position, None);
    assert_eq!(things[0].name, "snack");
    assert_eq!(things[2].position, Some(Position::new(1, 1, 0)));
    assert_eq!(texts(&log), vec!["Obtained a snack."]);
}

#[test]
fn dropping_an_item_places_it_at_the_holder() {
    let mut things = items();
    let mut log = MessageLog::new();
    let events = vec![
        event(GameEventType::ItemDrop, ROBOT, PLANQ),
        event(GameEventType::ItemMove, ROBOT, CARD),
    ];
    let destroyed = item_collection_system(&events, &mut log, &holders(), &mut things);
    assert!(destroyed.is_empty());
    assert_eq!(things[1].portable.carrier, EntityId::placeholder());
    assert_eq!(things[1].position, Some(Position::new(7, 5, 1)));
    assert_eq!(things[2].portable.carrier, ROBOT);
    assert_eq!(things[2].position, None);
    assert_eq!(texts(&log), vec!["The LMR drops a PLANQ.", "The LMR takes a keycard."]);
}

#[test]
fn an_item_has_a_position_or_a_carrier_never_both() {
    let mut things = items();
    let mut log = MessageLog::new();
    let events = vec![
        event(GameEventType::ItemMove, PLAYER, SNACK),
        event(GameEventType::ItemDrop, PLAYER, SNACK),
        event(GameEventType::ItemMove, ROBOT, SNACK),
        event(GameEventType::ItemMove, PLAYER, SNACK),
    ];
    item_collection_system(&events, &mut log, &holders(), &mut things);
    assert_eq!(things[0].portable.carrier, PLAYER);
    assert_eq!(things[0].position, None);
    assert_eq!(
        texts(&log),
        vec!["Obtained a snack.", "Dropped a snack.", "The LMR takes a snack.", "Obtained a snack."]
    );
}

#[test]
fn destroying_an_item_removes_it_without_a_word() {
    let mut things = items();
    let mut log = MessageLog::new();
    let events = vec![
        event(GameEventType::ItemKILL, PLAYER, PLANQ),
        event(GameEventType::ItemMove, PLAYER, PLANQ),
        event(GameEventType::ItemMove, PLAYER, CARD),
    ];
    let destroyed = item_collection_system(&events, &mut log, &holders(), &mut things);
    assert_eq!(destroyed, vec![PLANQ]);
    assert_eq!(things.len(), 2);
    assert_eq!(things[0].entity, SNACK);
    assert_eq!(things[1].entity, CARD);
    assert_eq!(things[1].portable.carrier, PLAYER);
    assert_eq!(texts(&log), vec!["Obtained a keycard."]);
}

#[test]
fn malformed_item_events_are_skipped() {
    let mut things = items();
    let mut log = MessageLog::new();
    let events = vec![
        GameEvent::new(GameEventType::ItemMove, None, None),
        GameEvent::new(GameEventType::ItemKILL, Some(PLAYER), None),
        GameEvent::new(GameEventType::ItemDrop, None, Some(SNACK)),
        event(GameEventType::ItemKILL, NOBODY, SNACK),
        event(GameEventType::ItemMove, PLAYER, NOBODY),
        event(GameEventType::ItemUse, PLAYER, SNACK),
    ];
    let destroyed = item_collection_system(&events, &mut log, &holders(), &mut things);
    assert!(destroyed.is_empty());
    assert_eq!(things.len(), 3);
    assert_eq!(things[0].position, Some(Position::new(5, 5, 0)));
    assert!(texts(&log).is_empty());
}
