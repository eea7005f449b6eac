use spacegame::actions::ActionSet;
use spacegame::actions::ACTION_KINDS;
use spacegame::artisan::ItemBuilder;
use spacegame::artisan::ItemType;
use spacegame::camera::camera_update_sys;
use spacegame::camera::CameraView;
use spacegame::components::Device;
use spacegame::components::DeviceState;
use spacegame::components::EntityId;
use spacegame::components::Opaque;
use spacegame::components::Portable;
use spacegame::components::Renderable;
use spacegame::components::Viewshed;
use spacegame::event::ActionType;
use spacegame::event::EngineMode;
use spacegame::event::GameEvent;
use spacegame::event::GameEventContext;
use spacegame::event::GameEventType;
use spacegame::event::PlanqEventType;
use spacegame::input::context_menu;
use spacegame::input::empty_text;
use spacegame::input::event_of;
use spacegame::input::is_offered;
use spacegame::input::key_parser;
use spacegame::input::Candidate;
use spacegame::input::InputKey;
use spacegame::input::InputState;
use spacegame::input::KeyCommand;
use spacegame::input::KeyOutcome;
use spacegame::input::KeyPress;
use spacegame::input::MenuType;
use spacegame::input::Verb;
use spacegame::map::Floor;
use spacegame::map::TileType;
use spacegame::memory::Memory;
use spacegame::planq::PlanqCPUMode;
use spacegame::position::Direction;
use spacegame::position::Point;
use spacegame::position::Position;

const PLAYER: EntityId = EntityId { index: 1, generation: 0 };
const ROBOT: EntityId = EntityId { index: 2, generation: 0 };

fn all_actions() -> Vec<ActionType> {
    vec![
        ActionType::NoAction,
        ActionType::Examine,
        ActionType::MoveItem,
        ActionType::DropItem,
        ActionType::UseItem,
        ActionType::KillItem,
        ActionType::OpenItem,
        ActionType::CloseItem,
        ActionType::LockItem,
        ActionType::UnlockItem,
    ]
}

#[test]
fn action_codes_round_trip() {
    for (i, action) in all_actions().into_iter().enumerate() {
        assert_eq!(action.code() as usize, i);
        assert_eq!(ActionType::from_code(i as u8), Some(action));
    }
    assert_eq!(ACTION_KINDS, 10);
    assert_eq!(ActionType::from_code(10), None);
    assert_eq!(ActionType::from_code(255), None);
}

#[test]
fn action_set_holds_what_was_inserted() {
    let mut set = ActionSet::new();
    assert!(set.outdated);
    for action in all_actions() {
        assert!(!set.contains(action));
    }
    assert!(set.insert(ActionType::OpenItem));
    assert!(!set.insert(ActionType::OpenItem));
    assert!(set.insert(ActionType::Examine));
    assert!(set.contains(ActionType::OpenItem));
    assert!(set.contains(ActionType::Examine));
    assert!(!set.contains(ActionType::CloseItem));
    assert!(set.remove(ActionType::OpenItem));
    assert!(!set.remove(ActionType::OpenItem));
    assert!(!set.contains(ActionType::OpenItem));
    assert!(set.contains(ActionType::Examine));
    let copy = set.copy();
    set.insert(ActionType::KillItem);
    assert!(copy.contains(ActionType::Examine));
    assert!(!copy.contains(ActionType::KillItem));
    assert!(copy.outdated);
}

#[test]
fn common_actions_are_the_intersection_in_code_order() {
    let mut door = ActionSet::new();
    for action in [ActionType::UnlockItem, ActionType::Examine, ActionType::OpenItem, ActionType::CloseItem] {
        door.insert(action);
    }
    let mut actor = ActionSet::new();
    for action in [ActionType::CloseItem, ActionType::MoveItem, ActionType::OpenItem, ActionType::Examine] {
        actor.insert(action);
    }
    assert_eq!(
        door.common(&actor),
        vec![ActionType::Examine, ActionType::OpenItem, ActionType::CloseItem]
    );
    assert_eq!(actor.common(&door), door.common(&actor));
    assert_eq!(door.common(&ActionSet::new()), Vec::new());
    assert_eq!(door.common(&door).len(), 4);
}

#[test]
fn memory_moves_a_sighting() {
    let a = EntityId::new(5, 0);
    let b = EntityId::new(6, 0);
    let here = Position::new(1, 1, 0);
    let there = Position::new(2, 1, 0);
    let mut memory = Memory::new();
    assert!(memory.recall(here).is_empty());
    memory.update(a, here);
    memory.update(b, here);
    assert_eq!(memory.recall(here), vec![a, b]);
    // seeing it elsewhere moves it
    memory.update(a, there);
    assert_eq!(memory.recall(here), vec![b]);
    assert_eq!(memory.recall(there), vec![a]);
    // seeing it again in place makes it the newest sighting there
    memory.update(a, here);
    memory.update(b, here);
    assert_eq!(memory.recall(here), vec![a, b]);
    assert!(memory.recall(there).is_empty());
    assert!(memory.recall(Position::new(2, 1, 1)).is_empty());
}

#[test]
fn builder_makes_each_kind() {
    let mut builder = ItemBuilder::new();
    assert_eq!(builder.spawn_count, 0);
    let snack = builder.create(ItemType::Snack).at(Position::new(5, 5, 0)).build();
    assert_eq!(snack.desc.as_ref().unwrap().name, "_snack_0");
    assert_eq!(snack.desc.as_ref().unwrap().desc, "A tasty Snack.");
    assert_eq!(snack.render.as_ref().unwrap().glyph, "%");
    assert_eq!(snack.render.as_ref().unwrap().fg, 5);
    assert_eq!(snack.posn, Some(Position::new(5, 5, 0)));
    assert_eq!(snack.portable, Some(Portable::empty()));
    assert!(snack.obstruct.is_none() && snack.opaque.is_none() && snack.open.is_none());
    assert!(snack.device.is_none() && snack.planq.is_none() && snack.lock.is_none());
    assert!(!snack.actions.as_ref().unwrap().contains(ActionType::Examine));
    assert_eq!(builder.spawn_count, 1);
    assert!(builder.desc.is_none() && builder.posn.is_none() && builder.portable.is_none());

    let door = builder.create(ItemType::Door).at(Position::new(6, 5, 0)).build();
    assert_eq!(door.desc.as_ref().unwrap().name, "_door_1");
    assert_eq!(door.render.as_ref().unwrap().glyph, "\u{2588}");
    assert_eq!(door.opaque, Some(Opaque::new(true)));
    assert!(door.obstruct.is_some());
    let barrier = door.open.as_ref().unwrap();
    assert!(!barrier.is_open);
    assert_eq!(barrier.open_glyph, "\u{2594}");
    assert_eq!(barrier.closed_glyph, "\u{2588}");
    assert!(door.portable.is_none());

    let planq = builder.create(ItemType::Planq).within(PLAYER).build();
    assert_eq!(planq.desc.as_ref().unwrap().name, "PLANQ");
    assert_eq!(planq.desc.as_ref().unwrap().desc, "It's your PLANQ.");
    assert_eq!(planq.render.as_ref().unwrap().glyph, "\u{b6}");
    assert_eq!(planq.render.as_ref().unwrap().fg, 3);
    assert_eq!(planq.portable, Some(Portable::new(PLAYER)));
    assert_eq!(
        planq.device,
        Some(Device { pw_switch: false, batt_voltage: 0, batt_discharge: -1, state: DeviceState::Offline })
    );
    assert!(planq.planq.is_some());
    assert!(planq.posn.is_none());
    assert_eq!(builder.spawn_count, 3);

    let simple = builder.create(ItemType::Simple).build();
    assert_eq!(simple.desc.as_ref().unwrap().name, "_simpleItem_3");
    assert_eq!(simple.render.as_ref().unwrap().glyph, "i");
    let thing = builder.create(ItemType::Thing).build();
    assert_eq!(thing.desc.as_ref().unwrap().name, "_thing_4");
    assert_eq!(thing.portable, Some(Portable::empty()));
    let fixture = builder.create(ItemType::Fixture).build();
    assert_eq!(fixture.desc.as_ref().unwrap().name, "_fixture_5");
    assert_eq!(fixture.render.as_ref().unwrap().glyph, "#");
    assert!(fixture.open.is_none());
}

#[test]
fn builder_names_count_below_zero_too() {
    let mut builder = ItemBuilder::new();
    builder.spawn_count = -12;
    let thing = builder.create(ItemType::Thing).build();
    assert_eq!(thing.desc.as_ref().unwrap().name, "_thing_-12");
    assert_eq!(builder.spawn_count, -11);
    builder.spawn_count = i32::MIN;
    assert_eq!(builder.create(ItemType::Snack).build().desc.unwrap().name, "_snack_-2147483648");
}

fn glyphs(camera: &CameraView) -> Vec<String> {
    (0..camera.height)
        .map(|y| (0..camera.width).map(|x| camera.map[(y * camera.width + x) as usize].glyph.clone()).collect())
        .collect()
}

#[test]
fn camera_starts_with_default_tiles() {
    let camera = CameraView::new(4, 3);
    assert_eq!(camera.map.len(), 12);
    assert!(camera.map.iter().all(|t| t.glyph == "#" && t.fg == 8 && t.bg == 0 && t.ttype == TileType::Floor));
    assert!(CameraView::new(0, 5).map.is_empty());
    let mut same = CameraView::new(2, 2);
    same.resize(10, 10);
    assert_eq!((same.width, same.height, same.map.len()), (2, 2, 4));
}

#[test]
fn camera_shows_the_floor_around_the_player() {
    // a 4 by 3 floor with a wall in its top right corner; all of it seen before
    let mut floor = Floor::new(4, 3);
    floor.set_tile(3, 0, TileType::Wall);
    for seen in floor.revealed_tiles.iter_mut() {
        *seen = true;
    }
    floor.revealed_tiles[11] = false;
    let index = floor.to_index(2, 2);
    floor.tiles[index].fg = 2;
    let mut view = Viewshed::new(8);
    view.visible_tiles = vec![Point::new(1, 1), Point::new(2, 1), Point::new(3, 0)];
    let renderables = vec![
        (Position::new(1, 1, 0), Renderable::new().glyph("@").fg(2).bg(1)),
        (Position::new(2, 1, 0), Renderable::new().glyph("i").fg(4)),
        (Position::new(2, 1, 0), Renderable::new().glyph("t").fg(5)),
        (Position::new(0, 0, 0), Renderable::new().glyph("x").fg(9)),
    ];
    let mut camera = CameraView::new(6, 4);
    camera_update_sys(&mut camera, &renderables, &floor, Position::new(1, 1, 0), &view);
    // the screen shows the places (-2, -1) to (3, 2)
    assert_eq!(
        glyphs(&camera),
        vec![
            "\u{2591}".repeat(6),
            "\u{2591}\u{2591}...#".to_string(),
            "\u{2591}\u{2591}.@t.".to_string(),
            "\u{2591}\u{2591}...\u{2591}".to_string(),
        ]
    );
    let player = &camera.map[2 * 6 + 3];
    assert_eq!((player.fg, player.bg, player.mods), (2, 1, 0));
    let thing = &camera.map[2 * 6 + 4];
    assert_eq!((thing.fg, thing.bg), (5, 0));
    // the wall is in view: it keeps its own colours
    let wall = &camera.map[6 + 5];
    assert_eq!((wall.ttype, wall.fg, wall.bg), (TileType::Wall, 8, 0));
    // a remembered tile out of view is greyed, whatever stands on it
    let remembered = &camera.map[6 + 2];
    assert_eq!((remembered.glyph.as_str(), remembered.fg, remembered.bg), (".", 8, 0));
    let coloured = &camera.map[3 * 6 + 4];
    assert_eq!((coloured.glyph.as_str(), coloured.fg), (".", 8));
}

#[test]
fn camera_of_odd_size_keeps_its_last_row_and_column() {
    let mut floor = Floor::new(9, 9);
    for seen in floor.revealed_tiles.iter_mut() {
        *seen = true;
    }
    let mut camera = CameraView::new(3, 3);
    camera_update_sys(&mut camera, &Vec::new(), &floor, Position::new(4, 4, 0), &Viewshed::new(8));
    assert_eq!(glyphs(&camera), vec!["..#", "..#", "###"]);
}

fn state() -> InputState {
    InputState {
        mode: EngineMode::Running,
        visible_menu: MenuType::Hidden,
        standby: false,
        show_cli_input: false,
        cpu_mode: PlanqCPUMode::Idle,
        jack_cnxn: EntityId::placeholder(),
    }
}

fn press(key: InputKey) -> KeyPress {
    KeyPress { key, ctrl: false }
}

fn command(key: InputKey, state: &InputState) -> KeyCommand {
    let outcome = key_parser(press(key), state);
    assert!(!outcome.quit);
    outcome.command
}

#[test]
fn movement_keys() {
    let s = state();
    let cases = vec![
        (InputKey::Left, Direction::W),
        (InputKey::Right, Direction::E),
        (InputKey::Up, Direction::N),
        (InputKey::Down, Direction::S),
        (InputKey::Char('h'), Direction::W),
        (InputKey::Char('j'), Direction::S),
        (InputKey::Char('k'), Direction::N),
        (InputKey::Char('l'), Direction::E),
        (InputKey::Char('y'), Direction::NW),
        (InputKey::Char('u'), Direction::NE),
        (InputKey::Char('b'), Direction::SW),
        (InputKey::Char('n'), Direction::SE),
        (InputKey::Char('>'), Direction::DOWN),
        (InputKey::Char('<'), Direction::UP),
    ];
    for (key, dir) in cases {
        assert_eq!(command(key, &s), KeyCommand::Game(GameEventType::PlayerMove(dir)));
    }
    // with a context menu open the arrows work the menu, the letters still move
    let menu = InputState { visible_menu: MenuType::Context, ..s };
    assert_eq!(command(InputKey::Left, &menu), KeyCommand::MenuMove(MenuType::Context, Direction::W));
    assert_eq!(command(InputKey::Down, &menu), KeyCommand::MenuMove(MenuType::Context, Direction::S));
    assert_eq!(command(InputKey::Char('h'), &menu), KeyCommand::Game(GameEventType::PlayerMove(Direction::W)));
    assert_eq!(command(InputKey::Enter, &menu), KeyCommand::MenuSelect(MenuType::Context));
    assert_eq!(command(InputKey::Enter, &s), KeyCommand::Nothing);
}

#[test]
fn verb_and_meta_keys() {
    let s = state();
    let verbs = vec![
        ('i', Verb::Inventory),
        ('d', Verb::Drop),
        ('g', Verb::Get),
        ('o', Verb::Open),
        ('c', Verb::Close),
        ('x', Verb::Examine),
        ('a', Verb::Apply),
        ('L', Verb::Lock),
        ('U', Verb::Unlock),
        ('C', Verb::Connect),
    ];
    for (c, verb) in verbs {
        assert_eq!(command(InputKey::Char(c), &s), KeyCommand::Ask(verb));
    }
    assert_eq!(command(InputKey::Char('p'), &s), KeyCommand::Pause);
    assert_eq!(command(InputKey::Esc, &s), KeyCommand::OpenMainMenu);
    assert_eq!(command(InputKey::Char('Q'), &s), KeyCommand::OpenMainMenu);
    let menu = InputState { visible_menu: MenuType::Context, ..s };
    assert_eq!(command(InputKey::Esc, &menu), KeyCommand::CloseMenus);
    assert_eq!(command(InputKey::Char('Q'), &menu), KeyCommand::CloseMenus);
    assert_eq!(command(InputKey::Char('s'), &s), KeyCommand::MakeSnack);
    assert_eq!(command(InputKey::Char('S'), &s), KeyCommand::GiveSnack);
    assert_eq!(command(InputKey::Char('z'), &s), KeyCommand::Nothing);
    assert_eq!(command(InputKey::Other, &s), KeyCommand::Nothing);
}

#[test]
fn device_keys() {
    let s = state();
    assert_eq!(command(InputKey::Char('P'), &s), KeyCommand::Planq(PlanqEventType::CliOpen));
    assert_eq!(command(InputKey::Char(':'), &s), KeyCommand::Planq(PlanqEventType::CliOpen));
    let working = InputState { cpu_mode: PlanqCPUMode::Working, ..s };
    assert_eq!(command(InputKey::Char(':'), &working), KeyCommand::Planq(PlanqEventType::CliOpen));
    let off = InputState { cpu_mode: PlanqCPUMode::Offline, ..s };
    assert_eq!(command(InputKey::Char('P'), &off), KeyCommand::Nothing);
    let booting = InputState { cpu_mode: PlanqCPUMode::Startup, ..s };
    assert_eq!(command(InputKey::Char(':'), &booting), KeyCommand::Nothing);
    assert_eq!(command(InputKey::Char('D'), &s), KeyCommand::NotConnected);
    let port = EntityId::new(50, 1);
    let jacked = InputState { jack_cnxn: port, ..s };
    assert_eq!(command(InputKey::Char('D'), &jacked), KeyCommand::Disconnect(port));
    assert_eq!(
        event_of(KeyCommand::Disconnect(port), PLAYER),
        Some(GameEvent {
            etype: GameEventType::PlanqConnect(EntityId::placeholder()),
            context: Some(GameEventContext { subject: PLAYER, object: port }),
        })
    );
    assert_eq!(
        event_of(KeyCommand::Game(GameEventType::PlayerMove(Direction::N)), PLAYER),
        Some(GameEvent::new(GameEventType::PlayerMove(Direction::N), Some(PLAYER), None))
    );
    assert_eq!(event_of(KeyCommand::Pause, PLAYER), None);
}

#[test]
fn command_line_takes_every_key() {
    let cli = InputState { show_cli_input: true, ..state() };
    assert_eq!(command(InputKey::Esc, &cli), KeyCommand::CliCancel);
    assert_eq!(command(InputKey::Enter, &cli), KeyCommand::CliSubmit);
    assert_eq!(command(InputKey::Char('p'), &cli), KeyCommand::CliType);
    assert_eq!(command(InputKey::Left, &cli), KeyCommand::CliType);
    assert_eq!(command(InputKey::Other, &cli), KeyCommand::CliType);
}

#[test]
fn paused_keys_work_the_main_menu() {
    for mode in [EngineMode::Paused, EngineMode::Standby, EngineMode::GoodEnd] {
        let s = InputState { mode, show_cli_input: true, ..state() };
        assert_eq!(command(InputKey::Esc, &s), KeyCommand::Resume);
        assert_eq!(command(InputKey::Char('Q'), &s), KeyCommand::Resume);
        assert_eq!(command(InputKey::Enter, &s), KeyCommand::MenuSelect(MenuType::Main));
        assert_eq!(command(InputKey::Char('h'), &s), KeyCommand::MenuMove(MenuType::Main, Direction::W));
        assert_eq!(command(InputKey::Left, &s), KeyCommand::MenuMove(MenuType::Main, Direction::W));
        assert_eq!(command(InputKey::Char('j'), &s), KeyCommand::MenuMove(MenuType::Main, Direction::S));
        assert_eq!(command(InputKey::Up, &s), KeyCommand::MenuMove(MenuType::Main, Direction::N));
        assert_eq!(command(InputKey::Char('l'), &s), KeyCommand::MenuMove(MenuType::Main, Direction::E));
        assert_eq!(command(InputKey::Char('y'), &s), KeyCommand::Nothing);
        assert_eq!(command(InputKey::Char('p'), &s), KeyCommand::Nothing);
    }
}

#[test]
fn control_c_always_quits() {
    let s = state();
    assert_eq!(
        key_parser(KeyPress { key: InputKey::Char('c'), ctrl: true }, &s),
        KeyOutcome { quit: true, command: KeyCommand::Ask(Verb::Close) }
    );
    let paused = InputState { mode: EngineMode::Paused, ..s };
    assert_eq!(
        key_parser(KeyPress { key: InputKey::Char('C'), ctrl: true }, &paused),
        KeyOutcome { quit: true, command: KeyCommand::Nothing }
    );
    assert!(!key_parser(KeyPress { key: InputKey::Char('x'), ctrl: true }, &s).quit);
    assert!(!key_parser(KeyPress { key: InputKey::Char('c'), ctrl: false }, &s).quit);
}

fn candidate(index: u32, name: &str) -> Candidate {
    Candidate {
        entity: EntityId::new(index, 0),
        name: name.to_string(),
        position: None,
        carrier: None,
        is_open: None,
        is_locked: None,
        is_device: false,
        is_access_port: false,
    }
}

fn candidates() -> Vec<Candidate> {
    let here = Position::new(5, 5, 0);
    vec![
        Candidate { carrier: Some(PLAYER), ..candidate(10, "snack") },
        Candidate { carrier: Some(ROBOT), ..candidate(11, "wrench") },
        Candidate { carrier: Some(PLAYER), is_device: true, ..candidate(12, "PLANQ") },
        Candidate { position: Some(here), carrier: Some(EntityId::placeholder()), ..candidate(13, "keycard") },
        Candidate { position: Some(Position::new(6, 5, 0)), is_open: Some(false), is_locked: Some(true), ..candidate(14, "door") },
        Candidate { position: Some(Position::new(4, 4, 0)), is_open: Some(true), is_locked: Some(false), ..candidate(15, "hatch") },
        Candidate { position: Some(Position::new(7, 5, 0)), is_open: Some(false), ..candidate(16, "locker") },
        Candidate { position: Some(Position::new(5, 6, 0)), is_device: true, ..candidate(17, "console") },
        Candidate { position: Some(here), is_access_port: true, ..candidate(18, "port") },
        Candidate { position: Some(Position::new(5, 5, 1)), is_access_port: true, is_open: Some(false), ..candidate(19, "upstairs port") },
        Candidate { position: Some(Position::new(6, 5, 0)), carrier: Some(EntityId::placeholder()), is_device: true, ..candidate(20, "radio") },
    ]
}

fn offered(verb: Verb) -> Vec<String> {
    context_menu(verb, &candidates(), PLAYER, Position::new(5, 5, 0)).iter().map(|m| m.name.clone()).collect()
}

#[test]
fn context_menus_offer_what_the_verb_applies_to() {
    assert_eq!(offered(Verb::Inventory), vec!["snack", "PLANQ"]);
    assert_eq!(offered(Verb::Drop), vec!["snack", "PLANQ"]);
    assert_eq!(offered(Verb::Get), vec!["keycard"]);
    assert_eq!(offered(Verb::Open), vec!["door"]);
    assert_eq!(offered(Verb::Close), vec!["hatch"]);
    assert_eq!(
        offered(Verb::Examine),
        vec!["keycard", "door", "hatch", "locker", "console", "port", "radio"]
    );
    assert_eq!(offered(Verb::Apply), vec!["PLANQ", "console"]);
    assert_eq!(offered(Verb::Lock), vec!["door"]);
    assert_eq!(offered(Verb::Unlock), vec!["hatch"]);
    assert_eq!(offered(Verb::Connect), vec!["port"]);
}

#[test]
fn context_menu_entries_carry_their_events() {
    let menu = context_menu(Verb::Open, &candidates(), PLAYER, Position::new(5, 5, 0));
    assert_eq!(menu.len(), 1);
    assert_eq!(menu[0].data, Some(GameEvent::new(GameEventType::ActorOpen, Some(PLAYER), Some(EntityId::new(14, 0)))));
    assert_eq!(menu[0].target, Some(Position::new(6, 5, 0)));
    assert!(menu[0].submenu.is_empty());
    let get = context_menu(Verb::Get, &candidates(), PLAYER, Position::new(5, 5, 0));
    assert_eq!(get[0].data, Some(GameEvent::new(GameEventType::ItemMove, Some(PLAYER), Some(EntityId::new(13, 0)))));
    assert_eq!(get[0].target, None);
    let connect = context_menu(Verb::Connect, &candidates(), PLAYER, Position::new(5, 5, 0));
    assert_eq!(
        connect[0].data,
        Some(GameEvent::new(GameEventType::PlanqConnect(EntityId::new(18, 0)), Some(PLAYER), Some(EntityId::new(18, 0))))
    );
    let inventory = context_menu(Verb::Inventory, &candidates(), PLAYER, Position::new(5, 5, 0));
    assert!(inventory.iter().all(|entry| entry.data.is_none() && entry.submenu.is_empty() && entry.target.is_none()));
    let kinds: Vec<GameEventType> = [Verb::Drop, Verb::Close, Verb::Examine, Verb::Apply, Verb::Lock, Verb::Unlock]
        .into_iter()
        .map(|verb| context_menu(verb, &candidates(), PLAYER, Position::new(5, 5, 0))[0].data.unwrap().etype)
        .collect();
    assert_eq!(
        kinds,
        vec![
            GameEventType::ItemDrop,
            GameEventType::ActorClose,
            GameEventType::Examine,
            GameEventType::ItemUse,
            GameEventType::ActorLock,
            GameEventType::ActorUnlock
        ]
    );
    assert!(context_menu(Verb::Open, &Vec::new(), PLAYER, Position::new(5, 5, 0)).is_empty());
}

#[test]
fn offers_are_decided_one_by_one() {
    let all = candidates();
    let here = Position::new(5, 5, 0);
    let open: Vec<bool> = all.iter().map(|c| is_offered(Verb::Open, c, PLAYER, here)).collect();
    assert_eq!(open, vec![false, false, false, false, true, false, false, false, false, false, false]);
    // a device that can be carried is only offered to the one who carries it
    assert!(!is_offered(Verb::Apply, &all[10], PLAYER, here));
    assert!(is_offered(Verb::Apply, &all[2], PLAYER, here));
    assert!(!is_offered(Verb::Apply, &all[2], ROBOT, here));
    // from elsewhere the console is out of reach
    assert!(!is_offered(Verb::Apply, &all[7], PLAYER, Position::new(5, 8, 0)));
}

#[test]
fn empty_menu_texts() {
    assert_eq!(empty_text(Verb::Inventory), "You are not carrying anything.");
    assert_eq!(empty_text(Verb::Drop), "You have nothing to drop.");
    assert_eq!(empty_text(Verb::Get), "There's nothing here to pick up.");
    assert_eq!(empty_text(Verb::Open), "There's nothing nearby to open.");
    assert_eq!(empty_text(Verb::Close), "There's nothing nearby to close.");
    assert_eq!(empty_text(Verb::Examine), "There's nothing nearby to examine.");
    assert_eq!(empty_text(Verb::Apply), "There's nothing nearby to use.");
    assert_eq!(empty_text(Verb::Lock), "There's nothing to lock nearby.");
    assert_eq!(empty_text(Verb::Unlock), "There's nothing to unlock nearby.");
    assert_eq!(empty_text(Verb::Connect), "There are no access ports nearby.");
}

#[test]
fn the_world_starts_with_player_robot_and_device() {
    let mut log = spacegame::messagelog::MessageLog::new();
    let camera = spacegame::spawn::new_camera_system();
    assert_eq!((camera.width, camera.height, camera.map.len()), (0, 0, 0));
    let player = spacegame::spawn::new_player_spawn(&mut log, Position::new(25, 28, 0));
    assert_eq!(player.desc.name, "Pleyeur");
    assert_eq!(player.posn, Position::new(25, 28, 0));
    assert_eq!((player.render.glyph.as_str(), player.render.fg, player.render.bg), ("@", 2, 0));
    assert_eq!((player.viewshed.range, player.viewshed.dirty), (8, true));
    assert!(player.opaque.opaque && player.is_player && player.contain.is_some());
    let robot = spacegame::spawn::new_lmr_spawn(&mut log);
    assert_eq!(robot.desc.name, "LMR");
    assert_eq!(robot.posn, Position::new(12, 12, 0));
    assert_eq!((robot.render.glyph.as_str(), robot.render.fg), ("l", 14));
    assert_eq!(robot.viewshed.range, 5);
    assert!(!robot.is_player && robot.contain.is_none());
    let planq = spacegame::spawn::new_planq_spawn(&mut log);
    assert_eq!(planq.desc.name, "PLANQ");
    assert_eq!(planq.posn, Position::new(25, 30, 0));
    assert_eq!((planq.render.glyph.as_str(), planq.render.fg), ("\u{b6}", 3));
    assert_eq!(planq.portable, Portable::empty());
    assert_eq!(
        planq.device,
        Device { pw_switch: false, batt_voltage: 100, batt_discharge: -1, state: DeviceState::Offline }
    );
    let lines: Vec<(String, String, i32, i32)> = log
        .logs
        .iter()
        .map(|m| (m.channel.clone(), m.text.clone(), m.priority, m.timestamp))
        .collect();
    assert_eq!(
        lines,
        vec![
            ("world".to_string(), "WELCOME TO SPACEGAME".to_string(), 1, 1),
            ("debug".to_string(), "LMR spawned at 12, 12, 0".to_string(), 1, 1),
            ("debug".to_string(), "planq spawned at 25, 30, 0".to_string(), 1, 1),
        ]
    );
}

#[test]
fn grids_are_checked() {
    let mut floor = Floor::new(4, 3);
    assert!(floor.is_wf());
    floor.blocked_tiles.pop();
    assert!(!floor.is_wf());
    floor.blocked_tiles.push(false);
    floor.width = 0;
    assert!(!floor.is_wf());
    floor.width = 3;
    floor.height = 4;
    assert!(floor.is_wf());
    floor.height = -4;
    assert!(!floor.is_wf());
    let mut model = spacegame::map::Model::new();
    assert!(model.is_wf());
    model.add_level(Floor::new(2, 2));
    assert!(model.is_wf());
    model.levels[0].tiles.pop();
    assert!(!model.is_wf());
    let mut camera = CameraView::new(3, 2);
    assert!(camera.is_wf());
    camera.map.pop();
    assert!(!camera.is_wf());
    assert!(!CameraView::new(0, 2).is_wf());
}

#[test]
fn actions_have_their_events() {
    let kinds: Vec<GameEventType> = all_actions().into_iter().map(spacegame::input::action_event).collect();
    assert_eq!(
        kinds,
        vec![
            GameEventType::NullEvent,
            GameEventType::Examine,
            GameEventType::ItemMove,
            GameEventType::ItemDrop,
            GameEventType::ItemUse,
            GameEventType::ItemKILL,
            GameEventType::ActorOpen,
            GameEventType::ActorClose,
            GameEventType::ActorLock,
            GameEventType::ActorUnlock,
        ]
    );
}
