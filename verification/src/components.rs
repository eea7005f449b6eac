//! The component data that entities carry, and the small state machines
//! (lock, device) that live inside single components.

use vstd::prelude::*;
use vstd::string::*;
use crate::position::Position;
use crate::position::Point;

verus! {

/// The identity of an entity in the outside container: a slot index and the
/// generation of that slot.
#[derive(Clone, Copy, Debug, PartialEq, Eq, Structural, Hash)]
pub struct EntityId {
    pub index: u32,
    pub generation: u32,
}

impl EntityId {
    /// Creates an identity from its slot index and generation.
    pub fn new(index: u32, generation: u32) -> (e: EntityId)
        ensures
            e == (EntityId { index, generation }),
    {
        EntityId { index, generation }
    }

    /// The identity that stands for "no entity": the last slot, generation 0.
    pub open spec fn spec_placeholder() -> EntityId {
        EntityId { index: u32::MAX, generation: 0 }
    }

    /// The identity that stands for "no entity".
    pub fn placeholder() -> (e: EntityId)
        ensures
            e == EntityId::spec_placeholder(),
    {
        EntityId { index: u32::MAX, generation: 0 }
    }

    /// Whether this is the identity that stands for "no entity".
    pub fn is_placeholder(&self) -> (b: bool)
        ensures
            b == (*self == EntityId::spec_placeholder()),
    {
        self.index == u32::MAX && self.generation == 0
    }

    /// The identity packed into 64 bits: generation above, index below.
    pub open spec fn spec_to_bits(self) -> int {
        self.generation * 0x1_0000_0000 + self.index
    }

    /// The identity packed into 64 bits: generation above, index below.
    pub fn to_bits(&self) -> (bits: u64)
        ensures
            bits == self.spec_to_bits(),
    {
        self.generation as u64 * 0x1_0000_0000u64 + self.index as u64
    }

    /// The identity that `bits` packs.
    pub fn from_bits(bits: u64) -> (e: EntityId)
        ensures
            e.spec_to_bits() == bits,
            e.index == bits % 0x1_0000_0000,
            e.generation == bits / 0x1_0000_0000,
    {
        EntityId {
            index: (bits % 0x1_0000_0000u64) as u32,
            generation: (bits / 0x1_0000_0000u64) as u32,
        }
    }
}

/// Marks the entity that is the player character.
#[derive(Clone, Copy, Debug, Default)]
pub struct Player {}

/// Marks the entity that is the light maintenance robot.
#[derive(Clone, Copy, Debug, Default)]
pub struct LMR {}

/// Marks an entity that moves under its own power.
#[derive(Clone, Copy, Debug, Default)]
pub struct Mobile {}

/// Marks an entity that blocks the movement of others.
#[derive(Clone, Copy, Debug, Default)]
pub struct Obstructive {}

/// Marks an entity that is held inside a container.
#[derive(Clone, Copy, Debug, Default)]
pub struct IsCarried {}

/// Marks an entity that can hold portable entities.
#[derive(Clone, Copy, Debug, Default)]
pub struct Container {}

/// Marks an entity that can open and close things.
#[derive(Clone, Copy, Debug, Default)]
pub struct CanOpen {}

/// Marks an entity that can use devices.
#[derive(Clone, Copy, Debug, Default)]
pub struct CanOperate {}

/// Marks an entity with a maintenance port that the device can connect to.
#[derive(Clone, Copy, Debug, Default, PartialEq, Eq, Structural)]
pub struct AccessPort {}

/// Marks an entity that can talk to the ship's network.
#[derive(Clone, Copy, Debug, Default, PartialEq, Eq, Structural)]
pub struct Networkable {}

/// The shape of an entity on the map: a reference point and every tile that
/// the entity occupies.
#[derive(Clone, Debug, PartialEq, Eq)]
pub struct Body {
    pub ref_posn: Position,
    pub extent: Vec<Position>,
}

impl Body {
    /// A body of one tile.
    pub fn single(posn: Position) -> (b: Body)
        ensures
            b.ref_posn == posn,
            b.extent@ == seq![posn],
    {
        let mut extent: Vec<Position> = Vec::new();
        extent.push(posn);
        Body { ref_posn: posn, extent }
    }

    /// A body of the given tiles, the first of which is its reference point.
    pub fn multitile(posns: Vec<Position>) -> (b: Body)
        requires
            posns.len() > 0,
        ensures
            b.ref_posn == posns[0],
            b.extent@ == posns@,
    {
        Body { ref_posn: posns[0], extent: posns }
    }

    /// Adds tiles to the body. Tiles that it already has are added again.
    pub fn extend(self, new_posns: Vec<Position>) -> (b: Body)
        ensures
            b.ref_posn == self.ref_posn,
            b.extent@ == self.extent@ + new_posns@,
    {
        let mut body = self;
        let mut more = new_posns;
        body.extent.append(&mut more);
        body
    }

    /// Whether the body occupies `target`.
    pub fn contains(&self, target: &Position) -> (found: bool)
        ensures
            found == self.extent@.contains(*target),
    {
        let mut i: usize = 0;
        while i < self.extent.len()
            invariant
                i <= self.extent.len(),
                forall|j: int| 0 <= j < i ==> self.extent@[j] != *target,
            decreases self.extent.len() - i,
        {
            if self.extent[i] == *target {
                return true;
            }
            i += 1;
        }
        false
    }

    /// Whether some tile of the body is within `range` of `target`.
    pub open spec fn spec_in_range_of(self, target: Position, range: int) -> bool {
        exists|j: int|
            0 <= j < self.extent@.len() && (#[trigger] self.extent@[j]).spec_in_range_of(
                target,
                range,
            )
    }

    /// Whether some tile of the body is within `range` of `target`.
    pub fn in_range_of(&self, target: &Position, range: i32) -> (within: bool)
        ensures
            within == self.spec_in_range_of(*target, range as int),
    {
        let mut i: usize = 0;
        while i < self.extent.len()
            invariant
                i <= self.extent.len(),
                forall|j: int|
                    0 <= j < i ==> !(#[trigger] self.extent@[j]).spec_in_range_of(
                        *target,
                        range as int,
                    ),
            decreases self.extent.len() - i,
        {
            if self.extent[i].in_range_of(target, range) {
                return true;
            }
            i += 1;
        }
        false
    }

    /// Whether some tile of the body is next to `target`.
    pub fn is_adjacent_to(&self, target: &Position) -> (adjacent: bool)
        ensures
            adjacent == self.spec_in_range_of(*target, 1),
    {
        self.in_range_of(target, 1)
    }

    /// Whether the body, moved as a rigid group so that its reference point
    /// lands on `target`, stays within the range of the coordinate type.
    pub open spec fn can_project_to(self, target: Position) -> bool {
        forall|j: int|
            0 <= j < self.extent@.len() ==> Position::fits(
                Body::spec_shifted(#[trigger] self.extent@[j], self.ref_posn, target),
            )
    }

    /// Where the tile `p` of a body with reference point `from` lands when
    /// the reference point moves to `to`.
    pub open spec fn spec_shifted(p: Position, from: Position, to: Position) -> (int, int, int) {
        (p.x + (to.x - from.x), p.y + (to.y - from.y), p.z + (to.z - from.z))
    }

    /// The tiles that the body would occupy with its reference point at
    /// `target`, in the order of its own tiles.
    pub fn project_to(&self, target: Position) -> (posn_list: Vec<Position>)
        requires
            self.can_project_to(target),
        ensures
            posn_list@.len() == self.extent@.len(),
            forall|j: int|
                0 <= j < posn_list@.len() ==> (
                    (#[trigger] posn_list@[j]).x as int,
                    posn_list@[j].y as int,
                    posn_list@[j].z as int,
                ) == Body::spec_shifted(self.extent@[j], self.ref_posn, target),
    {
        let mut posn_list: Vec<Position> = Vec::new();
        let mut i: usize = 0;
        while i < self.extent.len()
            invariant
                i <= self.extent.len(),
                self.can_project_to(target),
                posn_list@.len() == i,
                forall|j: int|
                    0 <= j < i ==> (
                        (#[trigger] posn_list@[j]).x as int,
                        posn_list@[j].y as int,
                        posn_list@[j].z as int,
                    ) == Body::spec_shifted(self.extent@[j], self.ref_posn, target),
            decreases self.extent.len() - i,
        {
            let p = self.extent[i];
            posn_list.push(shift(p, self.ref_posn, target));
            i += 1;
        }
        posn_list
    }

    /// Moves the body as a rigid group so that its reference point lands on
    /// `target`.
    pub fn move_to(&mut self, target: Position)
        requires
            old(self).can_project_to(target),
        ensures
            final(self).ref_posn == target,
            final(self).extent@.len() == old(self).extent@.len(),
            forall|j: int|
                0 <= j < final(self).extent@.len() ==> (
                    (#[trigger] final(self).extent@[j]).x as int,
                    final(self).extent@[j].y as int,
                    final(self).extent@[j].z as int,
                ) == Body::spec_shifted(old(self).extent@[j], old(self).ref_posn, target),
    {
        let moved = self.project_to(target);
        self.extent = moved;
        self.ref_posn = target;
    }
}

fn shift(p: Position, from: Position, to: Position) -> (q: Position)
    requires
        Position::fits(Body::spec_shifted(p, from, to)),
    ensures
        (q.x as int, q.y as int, q.z as int) == Body::spec_shifted(p, from, to),
{
    Position {
        x: (p.x as i64 + (to.x as i64 - from.x as i64)) as i32,
        y: (p.y as i64 + (to.y as i64 - from.y as i64)) as i32,
        z: (p.z as i64 + (to.z as i64 - from.z as i64)) as i32,
    }
}

/// The narrative description of an entity.
#[derive(Clone, Debug, PartialEq, Eq)]
pub struct Description {
    pub name: String,
    pub desc: String,
    pub locn: String,
}

impl Description {
    /// A description whose three texts are their defaults.
    pub fn new() -> (d: Description)
        ensures
            d.name@ == "default_name"@,
            d.desc@ == "default_desc"@,
            d.locn@ == "default_locn"@,
    {
        Description {
            name: String::from_str("default_name"),
            desc: String::from_str("default_desc"),
            locn: String::from_str("default_locn"),
        }
    }

    /// The description with its name replaced.
    pub fn name(self, new_name: &str) -> (d: Description)
        ensures
            d.name@ == new_name@,
            d.desc == self.desc,
            d.locn == self.locn,
    {
        let mut d = self;
        d.name = String::from_str(new_name);
        d
    }

    /// The description with its long text replaced.
    pub fn desc(self, new_desc: &str) -> (d: Description)
        ensures
            d.name == self.name,
            d.desc@ == new_desc@,
            d.locn == self.locn,
    {
        let mut d = self;
        d.desc = String::from_str(new_desc);
        d
    }

    /// The description with its location text replaced.
    pub fn locn(self, new_locn: &str) -> (d: Description)
        ensures
            d.name == self.name,
            d.desc == self.desc,
            d.locn@ == new_locn@,
    {
        let mut d = self;
        d.locn = String::from_str(new_locn);
        d
    }

    /// A copy of the name.
    pub fn get_name(&self) -> (s: String)
        ensures
            s == self.name,
    {
        self.name.clone()
    }

    /// A copy of the long text.
    pub fn get_desc(&self) -> (s: String)
        ensures
            s == self.desc,
    {
        self.desc.clone()
    }

    /// A copy of the location text.
    pub fn get_locn(&self) -> (s: String)
        ensures
            s == self.locn,
    {
        self.locn.clone()
    }
}

/// What is needed to draw an entity on the map.
#[derive(Clone, Debug, PartialEq, Eq)]
pub struct Renderable {
    pub glyph: String,
    pub fg: u8,
    pub bg: u8,
    pub mods: u16,
    pub width: u32,
    pub height: u32,
}

impl Renderable {
    /// A renderable with an empty glyph, colour 0 on colour 0, and no size.
    pub fn new() -> (r: Renderable)
        ensures
            r.glyph@ == Seq::<char>::empty(),
            r.fg == 0 && r.bg == 0 && r.mods == 0 && r.width == 0 && r.height == 0,
    {
        Renderable { glyph: String::new(), fg: 0, bg: 0, mods: 0, width: 0, height: 0 }
    }

    /// The renderable with its glyph replaced.
    pub fn glyph(self, new_glyph: &str) -> (r: Renderable)
        ensures
            r.glyph@ == new_glyph@,
            r.fg == self.fg && r.bg == self.bg && r.mods == self.mods,
            r.width == self.width && r.height == self.height,
    {
        let mut r = self;
        r.glyph = String::from_str(new_glyph);
        r
    }

    /// The renderable with its size in tiles replaced.
    pub fn dims(self, new_width: u32, new_height: u32) -> (r: Renderable)
        ensures
            r == (Renderable { width: new_width, height: new_height, ..self }),
    {
        let mut r = self;
        r.width = new_width;
        r.height = new_height;
        r
    }

    /// The renderable with its foreground colour replaced.
    pub fn fg(self, fg_value: u8) -> (r: Renderable)
        ensures
            r == (Renderable { fg: fg_value, ..self }),
    {
        let mut r = self;
        r.fg = fg_value;
        r
    }

    /// The renderable with its background colour replaced.
    pub fn bg(self, bg_value: u8) -> (r: Renderable)
        ensures
            r == (Renderable { bg: bg_value, ..self }),
    {
        let mut r = self;
        r.bg = bg_value;
        r
    }
}

/// What an entity sees: the tiles in view, how far it sees, and whether the
/// tiles have to be worked out again.
#[derive(Clone, Debug, PartialEq, Eq)]
pub struct Viewshed {
    pub visible_tiles: Vec<Point>,
    pub range: i32,
    pub dirty: bool,
}

impl Viewshed {
    /// A viewshed of the given range that sees nothing yet and is due for a
    /// recompute.
    pub fn new(new_range: i32) -> (v: Viewshed)
        ensures
            v.visible_tiles@ == Seq::<Point>::empty(),
            v.range == new_range,
            v.dirty,
    {
        Viewshed { visible_tiles: Vec::new(), range: new_range, dirty: true }
    }
}

/// A carrier reference: which entity holds this one.
#[derive(Clone, Copy, Debug, PartialEq, Eq, Structural)]
pub struct Portable {
    pub carrier: EntityId,
}

impl Portable {
    /// A portable held by `target`.
    pub fn new(target: EntityId) -> (p: Portable)
        ensures
            p.carrier == target,
    {
        Portable { carrier: target }
    }

    /// A portable that nobody holds.
    pub fn empty() -> (p: Portable)
        ensures
            p.carrier == EntityId::spec_placeholder(),
    {
        Portable { carrier: EntityId::placeholder() }
    }
}

/// Whether an entity blocks the line of sight.
#[derive(Clone, Copy, Debug, PartialEq, Eq, Structural)]
pub struct Opaque {
    pub opaque: bool,
}

impl Opaque {
    /// An opacity flag with the given setting.
    pub fn new(setting: bool) -> (o: Opaque)
        ensures
            o.opaque == setting,
    {
        Opaque { opaque: setting }
    }
}

/// A barrier that opens and closes: a door, a lid.
#[derive(Clone, Debug, PartialEq, Eq)]
pub struct Openable {
    pub is_open: bool,
    pub is_stuck: bool,
    pub open_glyph: String,
    pub closed_glyph: String,
}

impl Openable {
    /// A barrier in the given state, not stuck, with its two glyphs.
    pub fn new(state: bool, opened: &str, closed: &str) -> (o: Openable)
        ensures
            o.is_open == state,
            !o.is_stuck,
            o.open_glyph@ == opened@,
            o.closed_glyph@ == closed@,
    {
        Openable {
            is_open: state,
            is_stuck: false,
            open_glyph: String::from_str(opened),
            closed_glyph: String::from_str(closed),
        }
    }
}

/// A lock and the id of the key that fits it.
#[derive(Clone, Copy, Debug, PartialEq, Eq, Structural)]
pub struct Lockable {
    pub is_locked: bool,
    pub key: i32,
}

impl Lockable {
    /// The lock after trying the key `test_key` on it: unlocked if the key
    /// fits, unchanged if not.
    pub open spec fn spec_unlock(self, test_key: i32) -> Lockable {
        if test_key == self.key {
            Lockable { is_locked: false, key: self.key }
        } else {
            self
        }
    }

    /// The lock after locking it with `new_key`, where 0 keeps the key that
    /// the lock has.
    pub open spec fn spec_lock(self, new_key: i32) -> Lockable {
        Lockable { is_locked: true, key: if new_key != 0 { new_key } else { self.key } }
    }

    /// Tries a key on the lock. Returns whether it fits; if it does, the lock
    /// is open afterwards.
    pub fn unlock(&mut self, test_key: i32) -> (fits: bool)
        ensures
            fits == (test_key == old(self).key),
            *final(self) == old(self).spec_unlock(test_key),
    {
        if test_key == self.key {
            self.is_locked = false;
            return true;
        }
        false
    }

    /// Locks. A `new_key` other than 0 becomes the key of the lock; 0 keeps
    /// the key that it has. Returns the key that the lock has afterwards.
    pub fn lock(&mut self, new_key: i32) -> (key: i32)
        ensures
            *final(self) == old(self).spec_lock(new_key),
            key == final(self).key,
    {
        self.is_locked = true;
        if new_key != 0 {
            self.key = new_key;
        }
        self.key
    }
}

/// Unlocking with any key and then locking with key 0 leaves the lock with
/// the key id that it had; locking with another key id makes that the key of
/// the lock. Either way the lock ends up locked.
pub proof fn lemma_lock_keeps_or_sets_key(lock: Lockable, test_key: i32, new_key: i32)
    ensures
        lock.spec_unlock(test_key).spec_lock(0).key == lock.key,
        lock.spec_unlock(test_key).spec_lock(0).is_locked,
        new_key != 0 ==> lock.spec_unlock(test_key).spec_lock(new_key).key == new_key,
        new_key != 0 ==> lock.spec_lock(new_key).key == new_key,
        lock.spec_lock(0).key == lock.key,
{
}

/// An item that opens the locks whose key id it has.
#[derive(Clone, Copy, Debug, PartialEq, Eq, Structural)]
pub struct Key {
    pub key_id: i32,
}

/// The operating state of a device.
#[derive(Clone, Copy, Debug, PartialEq, Eq, Structural)]
pub enum DeviceState {
    Offline,
    Idle,
    Working,
    Error(u32),
}

/// Something that can be switched on and used, with its battery.
#[derive(Clone, Copy, Debug, PartialEq, Eq, Structural)]
pub struct Device {
    pub pw_switch: bool,
    pub batt_voltage: i32,
    pub batt_discharge: i32,
    pub state: DeviceState,
}

/// `v` held to the range from `lo` to `hi`.
pub open spec fn spec_clamp(v: int, lo: int, hi: int) -> int {
    if v < lo {
        lo
    } else if v > hi {
        hi
    } else {
        v
    }
}

impl Device {
    /// Whether the device has power to run on: charge in the battery, or a
    /// discharge rate of 0, which means that it needs no battery.
    pub open spec fn has_power(self) -> bool {
        self.batt_voltage > 0 || self.batt_discharge == 0
    }

    /// A device that is switched off, with an empty battery and the given
    /// discharge rate. A rate of 0 disables battery use.
    pub fn new(discharge_rate: i32) -> (d: Device)
        ensures
            d == (Device {
                pw_switch: false,
                batt_voltage: 0,
                batt_discharge: discharge_rate,
                state: DeviceState::Offline,
            }),
    {
        Device {
            pw_switch: false,
            batt_voltage: 0,
            batt_discharge: discharge_rate,
            state: DeviceState::Offline,
        }
    }

    /// Switches the device on if it has power. Returns the position of the
    /// switch afterwards.
    pub fn power_on(&mut self) -> (on: bool)
        ensures
            old(self).has_power() ==> *final(self) == (Device {
                pw_switch: true,
                state: DeviceState::Idle,
                ..*old(self)
            }),
            !old(self).has_power() ==> *final(self) == *old(self),
            on == final(self).pw_switch,
    {
        if self.batt_voltage > 0 || self.batt_discharge == 0 {
            self.pw_switch = true;
            self.state = DeviceState::Idle;
        }
        self.pw_switch
    }

    /// Switches the device off.
    pub fn power_off(&mut self)
        ensures
            *final(self) == (Device { pw_switch: false, state: DeviceState::Offline, ..*old(self) }),
    {
        self.pw_switch = false;
        self.state = DeviceState::Offline;
    }

    /// The charge after running for `duration`: a negative discharge rate
    /// means unlimited power and leaves the charge as it is; otherwise the
    /// charge drops by rate times duration, held to the range from 0 to the
    /// largest value of the type.
    pub open spec fn spec_discharged(self, duration: i32) -> int {
        if self.batt_discharge < 0 {
            self.batt_voltage as int
        } else {
            spec_clamp(self.batt_voltage - self.batt_discharge * duration, 0, i32::MAX as int)
        }
    }

    /// Drains the battery for `duration` and returns the charge that is left.
    pub fn discharge(&mut self, duration: i32) -> (left: i32)
        ensures
            left == old(self).spec_discharged(duration),
            *final(self) == (Device { batt_voltage: left, ..*old(self) }),
    {
        if self.batt_discharge < 0 {
            return self.batt_voltage;
        }
        let rate: i64 = self.batt_discharge as i64;
        let time: i64 = duration as i64;
        assert(-0x8000_0000 * 0x8000_0000 <= rate * time <= 0x8000_0000 * 0x8000_0000)
            by (nonlinear_arith)
            requires
                0 <= rate <= 0x8000_0000,
                -0x8000_0000 <= time <= 0x8000_0000,
        ;
        let drained: i64 = self.batt_voltage as i64 - rate * time;
        let left: i32 = if drained < 0 {
            0
        } else if drained > i32::MAX as i64 {
            i32::MAX
        } else {
            drained as i32
        };
        self.batt_voltage = left;
        left
    }

    /// Adds `charge_level` to the charge, held to the range of the type, and
    /// returns the new charge.
    pub fn recharge(&mut self, charge_level: i32) -> (charge: i32)
        ensures
            charge == spec_clamp(
                old(self).batt_voltage + charge_level,
                i32::MIN as int,
                i32::MAX as int,
            ),
            *final(self) == (Device { batt_voltage: charge, ..*old(self) }),
    {
        let sum: i64 = self.batt_voltage as i64 + charge_level as i64;
        let charge: i32 = if sum < i32::MIN as i64 {
            i32::MIN
        } else if sum > i32::MAX as i64 {
            i32::MAX
        } else {
            sum as i32
        };
        self.batt_voltage = charge;
        charge
    }

    /// Flips the power switch and returns its new position. The operating
    /// state is left as it is.
    pub fn power_toggle(&mut self) -> (on: bool)
        ensures
            on == !old(self).pw_switch,
            *final(self) == (Device { pw_switch: on, ..*old(self) }),
    {
        self.pw_switch = !self.pw_switch;
        self.pw_switch
    }
}

/// The sixteen terminal colours, in the order of their ANSI index.
#[derive(Clone, Copy, Debug, PartialEq, Eq, Structural)]
pub enum Color {
    Black,
    Red,
    Green,
    Yellow,
    Blue,
    Pink,
    Cyan,
    White,
    LtBlack,
    LtRed,
    LtGreen,
    LtYellow,
    LtBlue,
    LtPink,
    LtCyan,
    LtWhite,
}

impl Color {
    /// The ANSI index of the colour.
    pub open spec fn spec_index(self) -> u8 {
        match self {
            Color::Black => 0,
            Color::Red => 1,
            Color::Green => 2,
            Color::Yellow => 3,
            Color::Blue => 4,
            Color::Pink => 5,
            Color::Cyan => 6,
            Color::White => 7,
            Color::LtBlack => 8,
            Color::LtRed => 9,
            Color::LtGreen => 10,
            Color::LtYellow => 11,
            Color::LtBlue => 12,
            Color::LtPink => 13,
            Color::LtCyan => 14,
            Color::LtWhite => 15,
        }
    }

    /// The ANSI index of the colour.
    pub fn index(self) -> (i: u8)
        ensures
            i == self.spec_index(),
    {
        match self {
            Color::Black => 0,
            Color::Red => 1,
            Color::Green => 2,
            Color::Yellow => 3,
            Color::Blue => 4,
            Color::Pink => 5,
            Color::Cyan => 6,
            Color::White => 7,
            Color::LtBlack => 8,
            Color::LtRed => 9,
            Color::LtGreen => 10,
            Color::LtYellow => 11,
            Color::LtBlue => 12,
            Color::LtPink => 13,
            Color::LtCyan => 14,
            Color::LtWhite => 15,
        }
    }
}

/// Whether an actor is the player or anyone else.
#[derive(Clone, Copy, Debug, PartialEq, Eq, Structural)]
pub enum Creature {
    Player,
    Zilch,
}

impl Default for Body {
    /// A body without tiles at the origin.
    fn default() -> (b: Body)
        ensures
            b.ref_posn == (Position { x: 0, y: 0, z: 0 }),
            b.extent@ == Seq::<Position>::empty(),
    {
        Body { ref_posn: Position { x: 0, y: 0, z: 0 }, extent: Vec::new() }
    }
}

impl Default for Description {
    /// A description whose three texts are their defaults.
    fn default() -> (d: Description)
        ensures
            d.name@ == "default_name"@,
            d.desc@ == "default_desc"@,
            d.locn@ == "default_locn"@,
    {
        Description::new()
    }
}

impl Default for Renderable {
    /// A renderable with an empty glyph, colour 0 on colour 0, and no size.
    fn default() -> (r: Renderable)
        ensures
            r.glyph@ == Seq::<char>::empty(),
            r.fg == 0 && r.bg == 0 && r.mods == 0 && r.width == 0 && r.height == 0,
    {
        Renderable::new()
    }
}

impl Default for Opaque {
    /// Not opaque.
    fn default() -> (o: Opaque)
        ensures
            !o.opaque,
    {
        Opaque { opaque: false }
    }
}

impl Default for Openable {
    /// A closed barrier that is not stuck and has no glyphs.
    fn default() -> (o: Openable)
        ensures
            !o.is_open,
            !o.is_stuck,
            o.open_glyph@ == Seq::<char>::empty(),
            o.closed_glyph@ == Seq::<char>::empty(),
    {
        Openable {
            is_open: false,
            is_stuck: false,
            open_glyph: String::new(),
            closed_glyph: String::new(),
        }
    }
}

impl Default for Lockable {
    /// An open lock with key id 0.
    fn default() -> (l: Lockable)
        ensures
            l == (Lockable { is_locked: false, key: 0 }),
    {
        Lockable { is_locked: false, key: 0 }
    }
}

impl Default for Key {
    /// A key with key id 0.
    fn default() -> (k: Key)
        ensures
            k == (Key { key_id: 0 }),
    {
        Key { key_id: 0 }
    }
}

impl Default for DeviceState {
    /// Offline.
    fn default() -> (s: DeviceState)
        ensures
            s == DeviceState::Offline,
    {
        DeviceState::Offline
    }
}

impl Default for Device {
    /// A device that is switched off, with an empty battery that it does
    /// not need.
    fn default() -> (d: Device)
        ensures
            d == (Device {
                pw_switch: false,
                batt_voltage: 0,
                batt_discharge: 0,
                state: DeviceState::Offline,
            }),
    {
        Device::new(0)
    }
}

impl Default for Color {
    /// Dark grey.
    fn default() -> (c: Color)
        ensures
            c == Color::LtBlack,
    {
        Color::LtBlack
    }
}

} // verus!
