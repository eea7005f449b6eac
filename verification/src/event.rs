//! The two kinds of event that drive a tick: game events, which carry the
//! intents of actors, and device events, which command the handheld computer.

use vstd::prelude::*;
use crate::components::EntityId;
use crate::position::Direction;

verus! {

/// The mode that the engine as a whole is in.
#[derive(Clone, Copy, Debug, PartialEq, Eq, Structural)]
pub enum EngineMode {
    Offline,
    Standby,
    Startup,
    Running,
    Paused,
    GoodEnd,
    BadEnd,
}

/// A kind of action that one entity can take on another.
#[derive(Clone, Copy, Debug, PartialEq, Eq, Structural, Hash)]
pub enum ActionType {
    NoAction,
    Examine,
    MoveItem,
    DropItem,
    UseItem,
    KillItem,
    OpenItem,
    CloseItem,
    LockItem,
    UnlockItem,
}

/// What a game event asks for.
#[derive(Clone, Copy, Debug, PartialEq, Eq, Structural)]
pub enum GameEventType {
    NullEvent,
    PauseToggle,
    ModeSwitch(EngineMode),
    PlayerMove(Direction),
    ActorOpen,
    ActorClose,
    ActorLock,
    ActorUnlock,
    ItemMove,
    ItemDrop,
    ItemKILL,
    ItemUse,
    Examine,
    /// Connects the device to the given access port, or disconnects it if
    /// the port is the placeholder.
    PlanqConnect(EntityId),
}

/// Who acts (`subject`) and on what (`object`).
#[derive(Clone, Copy, Debug, PartialEq, Eq, Structural)]
pub struct GameEventContext {
    pub subject: EntityId,
    pub object: EntityId,
}

impl GameEventContext {
    /// Whether the context lacks its subject or its object.
    pub open spec fn spec_is_invalid(self) -> bool {
        self.subject == EntityId::spec_placeholder() || self.object == EntityId::spec_placeholder()
    }

    /// Whether the context lacks its subject or its object.
    pub fn is_invalid(&self) -> (invalid: bool)
        ensures
            invalid == self.spec_is_invalid(),
    {
        self.subject.is_placeholder() || self.object.is_placeholder()
    }
}

/// A game event: what is asked for, and by whom of what.
#[derive(Clone, Copy, Debug, PartialEq, Eq, Structural)]
pub struct GameEvent {
    pub etype: GameEventType,
    pub context: Option<GameEventContext>,
}

impl GameEvent {
    /// The context that a pair of optional references makes: none if both
    /// are missing, else one in which a missing side is the placeholder.
    pub open spec fn spec_context(
        subject: Option<EntityId>,
        object: Option<EntityId>,
    ) -> Option<GameEventContext> {
        if subject.is_none() && object.is_none() {
            None
        } else {
            Some(
                GameEventContext {
                    subject: if let Some(s) = subject {
                        s
                    } else {
                        EntityId::spec_placeholder()
                    },
                    object: if let Some(o) = object {
                        o
                    } else {
                        EntityId::spec_placeholder()
                    },
                },
            )
        }
    }

    /// Creates an event of the given kind with the given subject and object.
    pub fn new(etype: GameEventType, subject: Option<EntityId>, object: Option<EntityId>) -> (e:
        GameEvent)
        ensures
            e.etype == etype,
            e.context == GameEvent::spec_context(subject, object),
    {
        let context = match (subject, object) {
            (None, None) => None,
            (Some(s), None) => Some(
                GameEventContext { subject: s, object: EntityId::placeholder() },
            ),
            (None, Some(o)) => Some(
                GameEventContext { subject: EntityId::placeholder(), object: o },
            ),
            (Some(s), Some(o)) => Some(GameEventContext { subject: s, object: o }),
        };
        GameEvent { etype, context }
    }

    /// The context of the event if it has one with both a subject and an
    /// object; an event without such a context is malformed wherever one is
    /// needed.
    pub open spec fn spec_valid_context(self) -> Option<GameEventContext> {
        match self.context {
            Some(c) => if c.spec_is_invalid() {
                None
            } else {
                Some(c)
            },
            None => None,
        }
    }

    /// The context of the event if it has one with both a subject and an
    /// object.
    pub fn valid_context(&self) -> (c: Option<GameEventContext>)
        ensures
            c == self.spec_valid_context(),
    {
        match self.context {
            Some(c) => if c.is_invalid() {
                None
            } else {
                Some(c)
            },
            None => None,
        }
    }
}

/// What a device event asks of the handheld computer.
#[derive(Clone, Copy, Debug, PartialEq, Eq, Structural)]
pub enum PlanqEventType {
    NullEvent,
    Startup,
    BootStage(u32),
    Shutdown,
    Reboot,
    GoIdle,
    CliOpen,
    CliClose,
    InventoryUse,
    InventoryDrop,
}

/// A device event.
#[derive(Clone, Copy, Debug, PartialEq, Eq, Structural)]
pub struct PlanqEvent {
    pub etype: PlanqEventType,
}

impl PlanqEvent {
    /// Creates a device event of the given kind.
    pub fn new(etype: PlanqEventType) -> (e: PlanqEvent)
        ensures
            e.etype == etype,
    {
        PlanqEvent { etype }
    }
}

/// The two event queues of one tick. Events are appended while a tick's
/// producers run, read by every interested system, and cleared together once
/// all of them have run.
pub struct EventBus {
    pub game: Vec<GameEvent>,
    pub planq: Vec<PlanqEvent>,
}

impl EventBus {
    /// A bus with two empty queues.
    pub fn new() -> (bus: EventBus)
        ensures
            bus.game@ == Seq::<GameEvent>::empty(),
            bus.planq@ == Seq::<PlanqEvent>::empty(),
    {
        EventBus { game: Vec::new(), planq: Vec::new() }
    }

    /// Appends a game event.
    pub fn send_game(&mut self, event: GameEvent)
        ensures
            final(self).game@ == old(self).game@.push(event),
            final(self).planq@ == old(self).planq@,
    {
        self.game.push(event);
    }

    /// Appends a device event.
    pub fn send_planq(&mut self, event: PlanqEvent)
        ensures
            final(self).planq@ == old(self).planq@.push(event),
            final(self).game@ == old(self).game@,
    {
        self.planq.push(event);
    }

    /// Empties both queues.
    pub fn clear(&mut self)
        ensures
            final(self).game@ == Seq::<GameEvent>::empty(),
            final(self).planq@ == Seq::<PlanqEvent>::empty(),
    {
        self.game.clear();
        self.planq.clear();
    }
}

} // verus!
