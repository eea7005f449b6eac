//! The inanimate things of the game: what kinds there are, and the builder
//! that puts together the components of a new one.

use vstd::prelude::*;
use vstd::string::*;
use crate::actions::ActionSet;
use crate::components::Container;
use crate::components::Description;
use crate::components::Device;
use crate::components::DeviceState;
use crate::components::EntityId;
use crate::components::Key;
use crate::components::Lockable;
use crate::components::Mobile;
use crate::components::Obstructive;
use crate::components::Opaque;
use crate::components::Openable;
use crate::components::Portable;
use crate::components::Renderable;
use crate::event::ActionType;
use crate::position::Position;
use crate::text::push_decimal;
use crate::text::spec_decimal_nat;

verus! {

/// Marks the entity that is the player's handheld computer.
#[derive(Clone, Copy, Debug, Default)]
pub struct Planq {}

/// The kinds of item that can be asked for by name.
#[derive(Clone, Copy, Debug, PartialEq, Eq, Structural)]
pub enum ItemType {
    Simple,
    Thing,
    Snack,
    Fixture,
    Door,
    Planq,
}

/// The least that an inanimate object has: it can be described and drawn,
/// and it says what can be done to it.
#[derive(Debug)]
pub struct Item {
    pub desc: Description,
    pub render: Renderable,
    pub actions: ActionSet,
}

/// An object that is small enough to be carried.
#[derive(Debug)]
pub struct Thing {
    pub item: Item,
    pub portable: Portable,
}

/// Something to eat.
#[derive(Debug)]
pub struct Snack {
    pub item: Thing,
}

/// An object that is large enough to stand in the way.
#[derive(Debug)]
pub struct Fixture {
    pub item: Item,
    pub obstructs: Obstructive,
    pub opaque: Opaque,
}

/// A fixture that lets others through while it is open.
#[derive(Debug)]
pub struct Door {
    pub item: Fixture,
    pub door: Openable,
    pub lock: Lockable,
}

/// The components of an item that is being put together. `spawn_count`
/// counts the items that were built.
#[derive(Debug)]
pub struct ItemBuilder {
    pub spawn_count: i32,
    pub desc: Option<Description>,
    pub render: Option<Renderable>,
    pub posn: Option<Position>,
    pub actions: Option<ActionSet>,
    pub obstruct: Option<Obstructive>,
    pub opaque: Option<Opaque>,
    pub open: Option<Openable>,
    pub portable: Option<Portable>,
    pub device: Option<Device>,
    pub mobile: Option<Mobile>,
    pub contain: Option<Container>,
    pub lock: Option<Lockable>,
    pub key: Option<Key>,
    pub planq: Option<Planq>,
}

/// The components of an item that was built: what the new entity is given.
#[derive(Debug)]
pub struct ItemParts {
    pub desc: Option<Description>,
    pub render: Option<Renderable>,
    pub posn: Option<Position>,
    pub actions: Option<ActionSet>,
    pub obstruct: Option<Obstructive>,
    pub opaque: Option<Opaque>,
    pub open: Option<Openable>,
    pub portable: Option<Portable>,
    pub device: Option<Device>,
    pub mobile: Option<Mobile>,
    pub contain: Option<Container>,
    pub lock: Option<Lockable>,
    pub key: Option<Key>,
    pub planq: Option<Planq>,
}

impl ItemType {
    /// What the names of the items of this kind begin with; the device has
    /// its whole name here.
    pub open spec fn spec_stem(self) -> Seq<char> {
        match self {
            ItemType::Simple => "_simpleItem_"@,
            ItemType::Thing => "_thing_"@,
            ItemType::Snack => "_snack_"@,
            ItemType::Fixture => "_fixture_"@,
            ItemType::Door => "_door_"@,
            ItemType::Planq => "PLANQ"@,
        }
    }

    /// The name of the item of this kind that is made when `count` items
    /// were built before: the stem and the count, but for the device, of
    /// which there is one.
    pub open spec fn spec_name(self, count: i32) -> Seq<char> {
        if self == ItemType::Planq {
            self.spec_stem()
        } else if count < 0 {
            self.spec_stem() + "-"@ + spec_decimal_nat((-count) as nat)
        } else {
            self.spec_stem() + spec_decimal_nat(count as nat)
        }
    }

    /// The description of the items of this kind.
    pub open spec fn spec_desc(self) -> Seq<char> {
        match self {
            ItemType::Simple => "A simple Item."@,
            ItemType::Thing => "A new Thing."@,
            ItemType::Snack => "A tasty Snack."@,
            ItemType::Fixture => "A plain Fixture."@,
            ItemType::Door => "A regular Door."@,
            ItemType::Planq => "It's your PLANQ."@,
        }
    }

    /// The glyph of the items of this kind.
    pub open spec fn spec_glyph(self) -> Seq<char> {
        match self {
            ItemType::Simple => "i"@,
            ItemType::Thing => "t"@,
            ItemType::Snack => "%"@,
            ItemType::Fixture => "#"@,
            ItemType::Door => "\u{2588}"@,
            ItemType::Planq => "\u{b6}"@,
        }
    }

    /// The colour of the items of this kind.
    pub open spec fn spec_fg(self) -> u8 {
        match self {
            ItemType::Snack => 5,
            ItemType::Planq => 3,
            _ => 4,
        }
    }

    /// Whether the items of this kind can be carried.
    pub open spec fn is_portable(self) -> bool {
        self == ItemType::Thing || self == ItemType::Snack || self == ItemType::Planq
    }

    /// Whether the items of this kind stand in the way and block the view.
    pub open spec fn is_fixture(self) -> bool {
        self == ItemType::Fixture || self == ItemType::Door
    }

    fn stem(self) -> (s: &'static str)
        ensures
            s@ == self.spec_stem(),
    {
        match self {
            ItemType::Simple => "_simpleItem_",
            ItemType::Thing => "_thing_",
            ItemType::Snack => "_snack_",
            ItemType::Fixture => "_fixture_",
            ItemType::Door => "_door_",
            ItemType::Planq => "PLANQ",
        }
    }

    fn desc(self) -> (s: &'static str)
        ensures
            s@ == self.spec_desc(),
    {
        match self {
            ItemType::Simple => "A simple Item.",
            ItemType::Thing => "A new Thing.",
            ItemType::Snack => "A tasty Snack.",
            ItemType::Fixture => "A plain Fixture.",
            ItemType::Door => "A regular Door.",
            ItemType::Planq => "It's your PLANQ.",
        }
    }

    fn glyph(self) -> (s: &'static str)
        ensures
            s@ == self.spec_glyph(),
    {
        match self {
            ItemType::Simple => "i",
            ItemType::Thing => "t",
            ItemType::Snack => "%",
            ItemType::Fixture => "#",
            ItemType::Door => "\u{2588}",
            ItemType::Planq => "\u{b6}",
        }
    }

    fn fg(self) -> (c: u8)
        ensures
            c == self.spec_fg(),
    {
        match self {
            ItemType::Snack => 5,
            ItemType::Planq => 3,
            _ => 4,
        }
    }
}

impl ItemBuilder {
    /// Whether no component is set.
    pub open spec fn is_blank(&self) -> bool {
        &&& self.desc.is_none()
        &&& self.render.is_none()
        &&& self.posn.is_none()
        &&& self.actions.is_none()
        &&& self.obstruct.is_none()
        &&& self.opaque.is_none()
        &&& self.open.is_none()
        &&& self.portable.is_none()
        &&& self.device.is_none()
        &&& self.mobile.is_none()
        &&& self.contain.is_none()
        &&& self.lock.is_none()
        &&& self.key.is_none()
        &&& self.planq.is_none()
    }

    /// A builder that has built nothing and holds no component.
    pub fn new() -> (builder: ItemBuilder)
        ensures
            builder.spawn_count == 0,
            builder.is_blank(),
    {
        ItemBuilder {
            spawn_count: 0,
            desc: None,
            render: None,
            posn: None,
            actions: None,
            obstruct: None,
            opaque: None,
            open: None,
            portable: None,
            device: None,
            mobile: None,
            contain: None,
            lock: None,
            key: None,
            planq: None,
        }
    }

    /// Sets the components that an item of the given kind starts with.
    ///
    /// Every kind gets its name, description and glyph and an empty set of
    /// actions. What can be carried gets a carrier reference that names
    /// nobody; what stands in the way gets the obstruction tag and is
    /// opaque; a door also gets its closed barrier; the device also gets its
    /// hardware and its tag. Components that the kind does not have are left
    /// as they are.
    pub fn create(&mut self, new_type: ItemType) -> (builder: &mut ItemBuilder)
        ensures
            *final(self) == *final(builder),
            builder.spawn_count == old(self).spawn_count,
            builder.desc matches Some(d) && d.name@ == new_type.spec_name(old(self).spawn_count)
                && d.desc@ == new_type.spec_desc() && d.locn@ == "default_locn"@,
            builder.render matches Some(r) && r.glyph@ == new_type.spec_glyph() && r.fg
                == new_type.spec_fg() && r.bg == 0 && r.mods == 0 && r.width == 0 && r.height == 0,
            builder.actions matches Some(a) && a.outdated && (forall|action: ActionType|
                !a.spec_contains(action)),
            builder.posn == old(self).posn,
            builder.portable == (if new_type.is_portable() {
                Some(Portable { carrier: EntityId::spec_placeholder() })
            } else {
                old(self).portable
            }),
            builder.obstruct.is_some() == (new_type.is_fixture() || old(self).obstruct.is_some()),
            builder.opaque == (if new_type.is_fixture() {
                Some(Opaque { opaque: true })
            } else {
                old(self).opaque
            }),
            new_type == ItemType::Door ==> (builder.open matches Some(o) && !o.is_open
                && !o.is_stuck && o.open_glyph@ == "\u{2594}"@ && o.closed_glyph@ == "\u{2588}"@),
            new_type != ItemType::Door ==> builder.open == old(self).open,
            builder.device == (if new_type == ItemType::Planq {
                Some(
                    Device {
                        pw_switch: false,
                        batt_voltage: 0,
                        batt_discharge: -1i32,
                        state: DeviceState::Offline,
                    },
                )
            } else {
                old(self).device
            }),
            builder.planq.is_some() == (new_type == ItemType::Planq || old(self).planq.is_some()),
            builder.mobile == old(self).mobile,
            builder.contain == old(self).contain,
            builder.lock == old(self).lock,
            builder.key == old(self).key,
    {
        let mut name = String::from_str(new_type.stem());
        match new_type {
            ItemType::Planq => {},
            _ => {
                if self.spawn_count < 0 {
                    name.append("-");
                    push_decimal(&mut name, (-(self.spawn_count as i64)) as u64);
                } else {
                    push_decimal(&mut name, self.spawn_count as u64);
                }
            },
        }
        self.desc = Some(Description::new().name(name.as_str()).desc(new_type.desc()));
        self.render = Some(Renderable::new().glyph(new_type.glyph()).fg(new_type.fg()).bg(0));
        self.actions = Some(ActionSet::new());
        match new_type {
            ItemType::Simple => {},
            ItemType::Thing => {
                self.portable = Some(Portable::empty());
            },
            ItemType::Snack => {
                self.portable = Some(Portable::empty());
            },
            ItemType::Fixture => {
                self.obstruct = Some(Obstructive {  });
                self.opaque = Some(Opaque::new(true));
            },
            ItemType::Door => {
                self.obstruct = Some(Obstructive {  });
                self.opaque = Some(Opaque::new(true));
                self.open = Some(Openable::new(false, "\u{2594}", "\u{2588}"));
            },
            ItemType::Planq => {
                self.portable = Some(Portable::empty());
                self.device = Some(Device::new(-1));
                self.planq = Some(Planq {  });
            },
        }
        self
    }

    /// Puts the item on the map at `posn`.
    pub fn at(&mut self, posn: Position) -> (builder: &mut ItemBuilder)
        ensures
            *final(self) == *final(builder),
            *builder == (ItemBuilder { posn: Some(posn), ..*old(self) }),
    {
        self.posn = Some(posn);
        self
    }

    /// Puts the item into the hands of `target`.
    pub fn within(&mut self, target: EntityId) -> (builder: &mut ItemBuilder)
        ensures
            *final(self) == *final(builder),
            *builder == (ItemBuilder { portable: Some(Portable { carrier: target }), ..*old(self) }),
    {
        self.portable = Some(Portable::new(target));
        self
    }

    /// Hands out the components that were put together, for a new entity
    /// to be given them, and counts the item. The builder holds no component
    /// afterwards.
    pub fn build(&mut self) -> (parts: ItemParts)
        requires
            old(self).spawn_count < i32::MAX,
        ensures
            final(self).spawn_count == old(self).spawn_count + 1,
            final(self).is_blank(),
            parts.desc == old(self).desc,
            parts.render == old(self).render,
            parts.posn == old(self).posn,
            parts.actions == old(self).actions,
            parts.obstruct == old(self).obstruct,
            parts.opaque == old(self).opaque,
            parts.open == old(self).open,
            parts.portable == old(self).portable,
            parts.device == old(self).device,
            parts.mobile == old(self).mobile,
            parts.contain == old(self).contain,
            parts.lock == old(self).lock,
            parts.key == old(self).key,
            parts.planq == old(self).planq,
    {
        self.spawn_count = self.spawn_count + 1;
        ItemParts {
            desc: self.desc.take(),
            render: self.render.take(),
            posn: self.posn.take(),
            actions: self.actions.take(),
            obstruct: self.obstruct.take(),
            opaque: self.opaque.take(),
            open: self.open.take(),
            portable: self.portable.take(),
            device: self.device.take(),
            mobile: self.mobile.take(),
            contain: self.contain.take(),
            lock: self.lock.take(),
            key: self.key.take(),
            planq: self.planq.take(),
        }
    }
}

impl Default for ItemType {
    /// The simple item.
    fn default() -> (kind: ItemType)
        ensures
            kind == ItemType::Simple,
    {
        ItemType::Simple
    }
}

impl Default for ItemBuilder {
    /// A builder that has built nothing and holds no component.
    fn default() -> (builder: ItemBuilder)
        ensures
            builder.spawn_count == 0,
            builder.is_blank(),
    {
        ItemBuilder::new()
    }
}

} // verus!
