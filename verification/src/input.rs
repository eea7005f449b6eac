//! What the keys do: from a key press to the command that it gives, and the
//! choice of the things that a context menu offers.

use vstd::prelude::*;
use vstd::string::*;
use crate::components::EntityId;
use crate::event::ActionType;
use crate::event::EngineMode;
use crate::event::GameEvent;
use crate::event::GameEventContext;
use crate::event::GameEventType;
use crate::event::PlanqEventType;
use crate::menu::MenuItem;
use crate::planq::PlanqCPUMode;
use crate::position::Direction;
use crate::position::Position;

verus! {

/// A key, as far as the game tells keys apart.
#[derive(Clone, Copy, Debug, PartialEq, Eq, Structural)]
pub enum InputKey {
    Char(char),
    Esc,
    Enter,
    Left,
    Right,
    Up,
    Down,
    Other,
}

/// A key press: the key, and whether control, and nothing else, was held.
#[derive(Clone, Copy, Debug, PartialEq, Eq, Structural)]
pub struct KeyPress {
    pub key: InputKey,
    pub ctrl: bool,
}

/// Which menu is on the screen.
#[derive(Clone, Copy, Debug, PartialEq, Eq, Structural)]
pub enum MenuType {
    /// No menu is on the screen.
    Hidden,
    Main,
    Context,
}

/// What the meaning of a key depends on.
#[derive(Clone, Copy, Debug, PartialEq, Eq, Structural)]
pub struct InputState {
    pub mode: EngineMode,
    pub visible_menu: MenuType,
    /// Whether the engine waits for a game to be started or loaded.
    pub standby: bool,
    pub show_cli_input: bool,
    pub cpu_mode: PlanqCPUMode,
    /// The access port that the device is connected to, or the placeholder.
    pub jack_cnxn: EntityId,
}

/// What the player can ask a context menu for.
#[derive(Clone, Copy, Debug, PartialEq, Eq, Structural)]
pub enum Verb {
    Inventory,
    Drop,
    Get,
    Open,
    Close,
    Examine,
    Apply,
    Lock,
    Unlock,
    Connect,
}

/// What a key press asks for.
#[derive(Clone, Copy, Debug, PartialEq, Eq, Structural)]
pub enum KeyCommand {
    /// The key has no meaning here.
    Nothing,
    /// Pause the game.
    Pause,
    /// Close whatever menu is open and go on with the game.
    CloseMenus,
    /// Pause the game and open the main menu.
    OpenMainMenu,
    /// Close the menus and take up the game again.
    Resume,
    /// Move the cursor of the given menu.
    MenuMove(MenuType, Direction),
    /// Take the entry under the cursor of the given menu.
    MenuSelect(MenuType),
    /// Send a game event of the given kind with the player as its subject.
    Game(GameEventType),
    /// Send the event that disconnects the device from the given port.
    Disconnect(EntityId),
    /// Send a device event of the given kind.
    Planq(PlanqEventType),
    /// Close the command line of the device without running anything.
    CliCancel,
    /// Run what stands on the command line of the device.
    CliSubmit,
    /// Hand the key to the command line of the device.
    CliType,
    /// Offer the things that the verb applies to.
    Ask(Verb),
    /// Tell the player that nothing is connected to the device.
    NotConnected,
    /// Put a snack on the map, for trying things out.
    MakeSnack,
    /// Give the player a snack, for trying things out.
    GiveSnack,
}

/// What a key press asks for, and whether it also asks to quit.
#[derive(Clone, Copy, Debug, PartialEq, Eq, Structural)]
pub struct KeyOutcome {
    pub quit: bool,
    pub command: KeyCommand,
}

/// The direction that a movement key stands for, if the key is one: the
/// arrows, `hjkl` with `yubn` for the diagonals, and `<` and `>` for the
/// stairs.
pub open spec fn spec_move_key(key: InputKey) -> Option<Direction> {
    match key {
        InputKey::Left => Some(Direction::W),
        InputKey::Down => Some(Direction::S),
        InputKey::Up => Some(Direction::N),
        InputKey::Right => Some(Direction::E),
        InputKey::Char(c) => if c == 'h' {
            Some(Direction::W)
        } else if c == 'j' {
            Some(Direction::S)
        } else if c == 'k' {
            Some(Direction::N)
        } else if c == 'l' {
            Some(Direction::E)
        } else if c == 'y' {
            Some(Direction::NW)
        } else if c == 'u' {
            Some(Direction::NE)
        } else if c == 'b' {
            Some(Direction::SW)
        } else if c == 'n' {
            Some(Direction::SE)
        } else if c == '>' {
            Some(Direction::DOWN)
        } else if c == '<' {
            Some(Direction::UP)
        } else {
            None
        },
        _ => None,
    }
}

/// The verb that a key asks a context menu for, if the key is one.
pub open spec fn spec_verb_key(c: char) -> Option<Verb> {
    if c == 'i' {
        Some(Verb::Inventory)
    } else if c == 'd' {
        Some(Verb::Drop)
    } else if c == 'g' {
        Some(Verb::Get)
    } else if c == 'o' {
        Some(Verb::Open)
    } else if c == 'c' {
        Some(Verb::Close)
    } else if c == 'x' {
        Some(Verb::Examine)
    } else if c == 'a' {
        Some(Verb::Apply)
    } else if c == 'L' {
        Some(Verb::Lock)
    } else if c == 'U' {
        Some(Verb::Unlock)
    } else if c == 'C' {
        Some(Verb::Connect)
    } else {
        None
    }
}

/// What a key asks for while the game runs.
///
/// While the command line of the device is open it takes every key: escape
/// cancels it, enter runs it, anything else is typed into it. Otherwise `p`
/// pauses; escape and `Q` close an open menu or else open the main menu;
/// enter and the arrows go to an open context menu, and the arrows move the
/// player when there is none; the other movement keys always move the
/// player; the verb keys ask for their menus; `D` disconnects the device;
/// `P` and `:` open the command line while the device is idle or working.
pub open spec fn spec_running_command(key: InputKey, state: InputState) -> KeyCommand {
    let in_context = state.visible_menu == MenuType::Context;
    if state.show_cli_input {
        match key {
            InputKey::Esc => KeyCommand::CliCancel,
            InputKey::Enter => KeyCommand::CliSubmit,
            _ => KeyCommand::CliType,
        }
    } else {
        match key {
            InputKey::Esc => spec_escape(state),
            InputKey::Enter => if in_context {
                KeyCommand::MenuSelect(MenuType::Context)
            } else {
                KeyCommand::Nothing
            },
            InputKey::Left | InputKey::Down | InputKey::Up | InputKey::Right => if in_context {
                KeyCommand::MenuMove(MenuType::Context, spec_move_key(key).unwrap())
            } else {
                KeyCommand::Game(GameEventType::PlayerMove(spec_move_key(key).unwrap()))
            },
            InputKey::Char(c) => if c == 'p' {
                KeyCommand::Pause
            } else if c == 'Q' {
                spec_escape(state)
            } else if let Some(dir) = spec_move_key(key) {
                KeyCommand::Game(GameEventType::PlayerMove(dir))
            } else if let Some(verb) = spec_verb_key(c) {
                KeyCommand::Ask(verb)
            } else if c == 'D' {
                if state.jack_cnxn == EntityId::spec_placeholder() {
                    KeyCommand::NotConnected
                } else {
                    KeyCommand::Disconnect(state.jack_cnxn)
                }
            } else if c == 'P' || c == ':' {
                if state.cpu_mode == PlanqCPUMode::Idle || state.cpu_mode == PlanqCPUMode::Working {
                    KeyCommand::Planq(PlanqEventType::CliOpen)
                } else {
                    KeyCommand::Nothing
                }
            } else if c == 's' {
                KeyCommand::MakeSnack
            } else if c == 'S' {
                KeyCommand::GiveSnack
            } else {
                KeyCommand::Nothing
            },
            InputKey::Other => KeyCommand::Nothing,
        }
    }
}

/// What escape asks for while the game runs: to close the menu that is
/// open, or to open the main menu if none is.
pub open spec fn spec_escape(state: InputState) -> KeyCommand {
    if state.visible_menu != MenuType::Hidden {
        KeyCommand::CloseMenus
    } else {
        KeyCommand::OpenMainMenu
    }
}

/// What a key asks for while the game does not run: the keys work the main
/// menu, and escape and `Q` take up the game again.
pub open spec fn spec_menu_command(key: InputKey) -> KeyCommand {
    match key {
        InputKey::Esc => KeyCommand::Resume,
        InputKey::Enter => KeyCommand::MenuSelect(MenuType::Main),
        InputKey::Left => KeyCommand::MenuMove(MenuType::Main, Direction::W),
        InputKey::Down => KeyCommand::MenuMove(MenuType::Main, Direction::S),
        InputKey::Up => KeyCommand::MenuMove(MenuType::Main, Direction::N),
        InputKey::Right => KeyCommand::MenuMove(MenuType::Main, Direction::E),
        InputKey::Char(c) => if c == 'Q' {
            KeyCommand::Resume
        } else if c == 'h' {
            KeyCommand::MenuMove(MenuType::Main, Direction::W)
        } else if c == 'j' {
            KeyCommand::MenuMove(MenuType::Main, Direction::S)
        } else if c == 'k' {
            KeyCommand::MenuMove(MenuType::Main, Direction::N)
        } else if c == 'l' {
            KeyCommand::MenuMove(MenuType::Main, Direction::E)
        } else {
            KeyCommand::Nothing
        },
        InputKey::Other => KeyCommand::Nothing,
    }
}

/// What a key press asks for. Control with `c` or `C` always asks to quit,
/// whatever else the key means.
pub open spec fn spec_key_outcome(press: KeyPress, state: InputState) -> KeyOutcome {
    KeyOutcome {
        quit: press.ctrl && (press.key == InputKey::Char('c') || press.key == InputKey::Char('C')),
        command: if state.mode == EngineMode::Running {
            spec_running_command(press.key, state)
        } else {
            spec_menu_command(press.key)
        },
    }
}

fn move_key(key: InputKey) -> (dir: Option<Direction>)
    ensures
        dir == spec_move_key(key),
{
    match key {
        InputKey::Left => Some(Direction::W),
        InputKey::Down => Some(Direction::S),
        InputKey::Up => Some(Direction::N),
        InputKey::Right => Some(Direction::E),
        InputKey::Char('h') => Some(Direction::W),
        InputKey::Char('j') => Some(Direction::S),
        InputKey::Char('k') => Some(Direction::N),
        InputKey::Char('l') => Some(Direction::E),
        InputKey::Char('y') => Some(Direction::NW),
        InputKey::Char('u') => Some(Direction::NE),
        InputKey::Char('b') => Some(Direction::SW),
        InputKey::Char('n') => Some(Direction::SE),
        InputKey::Char('>') => Some(Direction::DOWN),
        InputKey::Char('<') => Some(Direction::UP),
        _ => None,
    }
}

fn verb_key(c: char) -> (verb: Option<Verb>)
    ensures
        verb == spec_verb_key(c),
{
    match c {
        'i' => Some(Verb::Inventory),
        'd' => Some(Verb::Drop),
        'g' => Some(Verb::Get),
        'o' => Some(Verb::Open),
        'c' => Some(Verb::Close),
        'x' => Some(Verb::Examine),
        'a' => Some(Verb::Apply),
        'L' => Some(Verb::Lock),
        'U' => Some(Verb::Unlock),
        'C' => Some(Verb::Connect),
        _ => None,
    }
}

fn escape(state: &InputState) -> (command: KeyCommand)
    ensures
        command == spec_escape(*state),
{
    if state.visible_menu != MenuType::Hidden {
        KeyCommand::CloseMenus
    } else {
        KeyCommand::OpenMainMenu
    }
}

fn running_command(key: InputKey, state: &InputState) -> (command: KeyCommand)
    ensures
        command == spec_running_command(key, *state),
{
    if state.show_cli_input {
        return match key {
            InputKey::Esc => KeyCommand::CliCancel,
            InputKey::Enter => KeyCommand::CliSubmit,
            _ => KeyCommand::CliType,
        };
    }
    let in_context = state.visible_menu == MenuType::Context;
    match key {
        InputKey::Esc => escape(state),
        InputKey::Enter => if in_context {
            KeyCommand::MenuSelect(MenuType::Context)
        } else {
            KeyCommand::Nothing
        },
        InputKey::Left | InputKey::Down | InputKey::Up | InputKey::Right => {
            let dir = move_key(key).unwrap();
            if in_context {
                KeyCommand::MenuMove(MenuType::Context, dir)
            } else {
                KeyCommand::Game(GameEventType::PlayerMove(dir))
            }
        },
        InputKey::Char(c) => {
            if c == 'p' {
                return KeyCommand::Pause;
            }
            if c == 'Q' {
                return escape(state);
            }
            if let Some(dir) = move_key(key) {
                return KeyCommand::Game(GameEventType::PlayerMove(dir));
            }
            if let Some(verb) = verb_key(c) {
                return KeyCommand::Ask(verb);
            }
            if c == 'D' {
                if state.jack_cnxn.is_placeholder() {
                    KeyCommand::NotConnected
                } else {
                    KeyCommand::Disconnect(state.jack_cnxn)
                }
            } else if c == 'P' || c == ':' {
                if state.cpu_mode == PlanqCPUMode::Idle || state.cpu_mode == PlanqCPUMode::Working {
                    KeyCommand::Planq(PlanqEventType::CliOpen)
                } else {
                    KeyCommand::Nothing
                }
            } else if c == 's' {
                KeyCommand::MakeSnack
            } else if c == 'S' {
                KeyCommand::GiveSnack
            } else {
                KeyCommand::Nothing
            }
        },
        InputKey::Other => KeyCommand::Nothing,
    }
}

fn menu_command(key: InputKey) -> (command: KeyCommand)
    ensures
        command == spec_menu_command(key),
{
    match key {
        InputKey::Esc | InputKey::Char('Q') => KeyCommand::Resume,
        InputKey::Enter => KeyCommand::MenuSelect(MenuType::Main),
        InputKey::Left | InputKey::Char('h') => KeyCommand::MenuMove(MenuType::Main, Direction::W),
        InputKey::Down | InputKey::Char('j') => KeyCommand::MenuMove(MenuType::Main, Direction::S),
        InputKey::Up | InputKey::Char('k') => KeyCommand::MenuMove(MenuType::Main, Direction::N),
        InputKey::Right | InputKey::Char('l') => KeyCommand::MenuMove(MenuType::Main, Direction::E),
        _ => KeyCommand::Nothing,
    }
}

/// Decides what a key press asks for in the given state.
pub fn key_parser(press: KeyPress, state: &InputState) -> (outcome: KeyOutcome)
    ensures
        outcome == spec_key_outcome(press, *state),
{
    let is_c = match press.key {
        InputKey::Char(c) => c == 'c' || c == 'C',
        _ => false,
    };
    let command = if state.mode == EngineMode::Running {
        running_command(press.key, state)
    } else {
        menu_command(press.key)
    };
    KeyOutcome { quit: press.ctrl && is_c, command }
}

/// The game event that a key command sends for the player, if it sends one.
pub open spec fn spec_event_of(command: KeyCommand, player: EntityId) -> Option<GameEvent> {
    match command {
        KeyCommand::Game(etype) => Some(
            GameEvent {
                etype,
                context: Some(
                    GameEventContext { subject: player, object: EntityId::spec_placeholder() },
                ),
            },
        ),
        KeyCommand::Disconnect(port) => Some(
            GameEvent {
                etype: GameEventType::PlanqConnect(EntityId::spec_placeholder()),
                context: Some(GameEventContext { subject: player, object: port }),
            },
        ),
        _ => None,
    }
}

/// The game event that a key command sends for the player, if it sends one.
pub fn event_of(command: KeyCommand, player: EntityId) -> (event: Option<GameEvent>)
    ensures
        event == spec_event_of(command, player),
{
    match command {
        KeyCommand::Game(etype) => Some(GameEvent::new(etype, Some(player), None)),
        KeyCommand::Disconnect(port) => Some(
            GameEvent::new(
                GameEventType::PlanqConnect(EntityId::placeholder()),
                Some(player),
                Some(port),
            ),
        ),
        _ => None,
    }
}

/// Something that a context menu may offer, with what the menus look at.
#[derive(Debug)]
pub struct Candidate {
    pub entity: EntityId,
    pub name: String,
    /// Where it is on the map, if it is on the map.
    pub position: Option<Position>,
    /// Who carries it, if it can be carried; the placeholder for nobody.
    pub carrier: Option<EntityId>,
    /// Whether it is open, if it opens and closes.
    pub is_open: Option<bool>,
    /// Whether it is locked, if it has a lock.
    pub is_locked: Option<bool>,
    pub is_device: bool,
    pub is_access_port: bool,
}

/// An entry of a context menu, as mathematical values.
pub struct EntryView {
    pub name: Seq<char>,
    /// The event that choosing the entry sends; none for a group.
    pub event: Option<GameEvent>,
    pub target: Option<Position>,
    /// The number of entries in the submenu of the entry.
    pub entries: nat,
}

/// What an entry of a context menu says.
pub open spec fn entry_view(entry: MenuItem<GameEvent>) -> EntryView {
    EntryView {
        name: entry.name@,
        event: entry.data,
        target: entry.target,
        entries: entry.submenu@.len(),
    }
}

/// Whether the menu of `verb` offers the candidate to the player, who
/// stands at `p_posn`.
///
/// The inventory and the drop menu offer what the player carries. The get
/// menu offers what lies where the player stands and can be carried. The
/// open menu offers what is closed and next to the player, the close menu
/// what is open and next to the player. The examine menu offers what is
/// within two tiles. The apply menu offers the devices: one that can be
/// carried if the player carries it, any other if it is next to the player.
/// The lock menu offers what is next to the player and locked, the unlock
/// menu what is next to the player and not locked. The connect menu offers
/// the access ports on the player's tile.
pub open spec fn offers(verb: Verb, c: Candidate, player: EntityId, p_posn: Position) -> bool {
    match verb {
        Verb::Inventory | Verb::Drop => c.position.is_none() && c.carrier == Some(player),
        Verb::Get => c.position == Some(p_posn) && c.carrier.is_some(),
        Verb::Open => c.position matches Some(p) && p.spec_in_range_of(p_posn, 1) && c.is_open
            == Some(false),
        Verb::Close => c.position matches Some(p) && p.spec_in_range_of(p_posn, 1) && c.is_open
            == Some(true),
        Verb::Examine => c.position matches Some(p) && p.spec_in_range_of(p_posn, 2),
        Verb::Apply => c.is_device && (if c.carrier.is_some() {
            c.carrier == Some(player)
        } else {
            c.position matches Some(p) && p_posn.spec_in_range_of(p, 1)
        }),
        Verb::Lock => c.position matches Some(p) && p.spec_in_range_of(p_posn, 1) && c.is_locked
            == Some(true),
        Verb::Unlock => c.position matches Some(p) && p.spec_in_range_of(p_posn, 1) && c.is_locked
            == Some(false),
        Verb::Connect => c.is_access_port && c.position == Some(p_posn),
    }
}

/// The kind of event that choosing an entry of the menu of `verb` sends for
/// `entity`. The entries of the inventory send none: each is a group, for
/// the actions of the item that it names.
pub open spec fn spec_verb_event(verb: Verb, entity: EntityId) -> Option<GameEventType> {
    match verb {
        Verb::Inventory => None,
        Verb::Drop => Some(GameEventType::ItemDrop),
        Verb::Get => Some(GameEventType::ItemMove),
        Verb::Open => Some(GameEventType::ActorOpen),
        Verb::Close => Some(GameEventType::ActorClose),
        Verb::Examine => Some(GameEventType::Examine),
        Verb::Apply => Some(GameEventType::ItemUse),
        Verb::Lock => Some(GameEventType::ActorLock),
        Verb::Unlock => Some(GameEventType::ActorUnlock),
        Verb::Connect => Some(GameEventType::PlanqConnect(entity)),
    }
}

/// The kind of event that carries out an action.
pub open spec fn spec_action_event(action: ActionType) -> GameEventType {
    match action {
        ActionType::NoAction => GameEventType::NullEvent,
        ActionType::Examine => GameEventType::Examine,
        ActionType::MoveItem => GameEventType::ItemMove,
        ActionType::DropItem => GameEventType::ItemDrop,
        ActionType::UseItem => GameEventType::ItemUse,
        ActionType::KillItem => GameEventType::ItemKILL,
        ActionType::OpenItem => GameEventType::ActorOpen,
        ActionType::CloseItem => GameEventType::ActorClose,
        ActionType::LockItem => GameEventType::ActorLock,
        ActionType::UnlockItem => GameEventType::ActorUnlock,
    }
}

/// The kind of event that carries out an action.
pub fn action_event(action: ActionType) -> (etype: GameEventType)
    ensures
        etype == spec_action_event(action),
{
    match action {
        ActionType::NoAction => GameEventType::NullEvent,
        ActionType::Examine => GameEventType::Examine,
        ActionType::MoveItem => GameEventType::ItemMove,
        ActionType::DropItem => GameEventType::ItemDrop,
        ActionType::UseItem => GameEventType::ItemUse,
        ActionType::KillItem => GameEventType::ItemKILL,
        ActionType::OpenItem => GameEventType::ActorOpen,
        ActionType::CloseItem => GameEventType::ActorClose,
        ActionType::LockItem => GameEventType::ActorLock,
        ActionType::UnlockItem => GameEventType::ActorUnlock,
    }
}

/// Whether the entries of the menu of `verb` point at the place of what
/// they offer.
pub open spec fn points_at_target(verb: Verb) -> bool {
    verb == Verb::Open || verb == Verb::Close || verb == Verb::Examine
}

/// The entry with which the menu of `verb` offers the candidate: under the
/// name of the candidate, with the event of the verb from the player to the
/// candidate, and without a submenu.
pub open spec fn spec_entry(verb: Verb, c: Candidate, player: EntityId) -> EntryView {
    EntryView {
        name: c.name@,
        event: match spec_verb_event(verb, c.entity) {
            Some(etype) => Some(
                GameEvent {
                    etype,
                    context: Some(GameEventContext { subject: player, object: c.entity }),
                },
            ),
            None => None,
        },
        target: if points_at_target(verb) {
            c.position
        } else {
            None
        },
        entries: 0,
    }
}

/// The entries that the menu of `verb` makes of the first `n` candidates:
/// one for each that it offers, in order.
pub open spec fn spec_context_menu(
    verb: Verb,
    candidates: Seq<Candidate>,
    n: int,
    player: EntityId,
    p_posn: Position,
) -> Seq<EntryView>
    decreases n,
{
    if n <= 0 {
        Seq::empty()
    } else if offers(verb, candidates[n - 1], player, p_posn) {
        spec_context_menu(verb, candidates, n - 1, player, p_posn).push(
            spec_entry(verb, candidates[n - 1], player),
        )
    } else {
        spec_context_menu(verb, candidates, n - 1, player, p_posn)
    }
}

/// What the player is told when the menu of a verb has nothing to offer.
pub open spec fn spec_empty_text(verb: Verb) -> Seq<char> {
    match verb {
        Verb::Inventory => "You are not carrying anything."@,
        Verb::Drop => "You have nothing to drop."@,
        Verb::Get => "There's nothing here to pick up."@,
        Verb::Open => "There's nothing nearby to open."@,
        Verb::Close => "There's nothing nearby to close."@,
        Verb::Examine => "There's nothing nearby to examine."@,
        Verb::Apply => "There's nothing nearby to use."@,
        Verb::Lock => "There's nothing to lock nearby."@,
        Verb::Unlock => "There's nothing to unlock nearby."@,
        Verb::Connect => "There are no access ports nearby."@,
    }
}

/// What the player is told when the menu of a verb has nothing to offer.
pub fn empty_text(verb: Verb) -> (text: &'static str)
    ensures
        text@ == spec_empty_text(verb),
{
    match verb {
        Verb::Inventory => "You are not carrying anything.",
        Verb::Drop => "You have nothing to drop.",
        Verb::Get => "There's nothing here to pick up.",
        Verb::Open => "There's nothing nearby to open.",
        Verb::Close => "There's nothing nearby to close.",
        Verb::Examine => "There's nothing nearby to examine.",
        Verb::Apply => "There's nothing nearby to use.",
        Verb::Lock => "There's nothing to lock nearby.",
        Verb::Unlock => "There's nothing to unlock nearby.",
        Verb::Connect => "There are no access ports nearby.",
    }
}

/// Whether the menu of `verb` offers the candidate to the player, who
/// stands at `p_posn`.
pub fn is_offered(verb: Verb, c: &Candidate, player: EntityId, p_posn: Position) -> (offered: bool)
    ensures
        offered == offers(verb, *c, player, p_posn),
{
    let carried_by_player = match c.carrier {
        Some(who) => who == player,
        None => false,
    };
    let near = match c.position {
        Some(p) => p.in_range_of(&p_posn, 1),
        None => false,
    };
    match verb {
        Verb::Inventory | Verb::Drop => c.position.is_none() && carried_by_player,
        Verb::Get => match c.position {
            Some(p) => p == p_posn && c.carrier.is_some(),
            None => false,
        },
        Verb::Open => near && match c.is_open {
            Some(open) => !open,
            None => false,
        },
        Verb::Close => near && match c.is_open {
            Some(open) => open,
            None => false,
        },
        Verb::Examine => match c.position {
            Some(p) => p.in_range_of(&p_posn, 2),
            None => false,
        },
        Verb::Apply => c.is_device && (if c.carrier.is_some() {
            carried_by_player
        } else {
            match c.position {
                Some(p) => p_posn.in_range_of(&p, 1),
                None => false,
            }
        }),
        Verb::Lock => near && match c.is_locked {
            Some(locked) => locked,
            None => false,
        },
        Verb::Unlock => near && match c.is_locked {
            Some(locked) => !locked,
            None => false,
        },
        Verb::Connect => c.is_access_port && match c.position {
            Some(p) => p == p_posn,
            None => false,
        },
    }
}

fn verb_event(verb: Verb, entity: EntityId) -> (etype: Option<GameEventType>)
    ensures
        etype == spec_verb_event(verb, entity),
{
    match verb {
        Verb::Inventory => None,
        Verb::Drop => Some(GameEventType::ItemDrop),
        Verb::Get => Some(GameEventType::ItemMove),
        Verb::Open => Some(GameEventType::ActorOpen),
        Verb::Close => Some(GameEventType::ActorClose),
        Verb::Examine => Some(GameEventType::Examine),
        Verb::Apply => Some(GameEventType::ItemUse),
        Verb::Lock => Some(GameEventType::ActorLock),
        Verb::Unlock => Some(GameEventType::ActorUnlock),
        Verb::Connect => Some(GameEventType::PlanqConnect(entity)),
    }
}

/// Makes the context menu of a verb: one entry, in order, for each of the
/// candidates that the verb applies to for the player at `p_posn`.
pub fn context_menu(verb: Verb, candidates: &Vec<Candidate>, player: EntityId, p_posn: Position) -> (menu:
    Vec<MenuItem<GameEvent>>)
    ensures
        menu@.map_values(|entry: MenuItem<GameEvent>| entry_view(entry)) == spec_context_menu(
            verb,
            candidates@,
            candidates@.len() as int,
            player,
            p_posn,
        ),
{
    let mut menu: Vec<MenuItem<GameEvent>> = Vec::new();
    let mut n: usize = 0;
    while n < candidates.len()
        invariant
            n <= candidates.len(),
            menu@.map_values(|entry: MenuItem<GameEvent>| entry_view(entry)) == spec_context_menu(
                verb,
                candidates@,
                n as int,
                player,
                p_posn,
            ),
        decreases candidates.len() - n,
    {
        let c = &candidates[n];
        if is_offered(verb, c, player, p_posn) {
            let entry = match verb_event(verb, c.entity) {
                Some(etype) => {
                    let event = GameEvent {
                        etype,
                        context: Some(GameEventContext { subject: player, object: c.entity }),
                    };
                    let target = match verb {
                        Verb::Open | Verb::Close | Verb::Examine => c.position,
                        _ => None,
                    };
                    MenuItem::item(c.name.clone(), event, target)
                },
                None => MenuItem::group(c.name.clone(), Vec::new()),
            };
            menu.push(entry);
        }
        n += 1;
    }
    menu
}

} // verus!
