//! What the world starts with: the camera, the player, the maintenance
//! robot and the player's handheld computer.

use vstd::prelude::*;
use vstd::string::*;
use crate::artisan::Planq;
use crate::camera::CameraView;
use crate::components::CanOpen;
use crate::components::CanOperate;
use crate::components::Container;
use crate::components::Description;
use crate::components::Device;
use crate::components::DeviceState;
use crate::components::EntityId;
use crate::components::Mobile;
use crate::components::Obstructive;
use crate::components::Opaque;
use crate::components::Portable;
use crate::components::Renderable;
use crate::components::Viewshed;
use crate::map::Tile;
use crate::messagelog::MessageLog;
use crate::messagelog::MessageView;
use crate::position::Point;
use crate::position::Position;

verus! {

/// The components of a creature that is about to enter the world.
#[derive(Debug)]
pub struct CreatureParts {
    pub desc: Description,
    pub posn: Position,
    pub render: Renderable,
    pub viewshed: Viewshed,
    pub mobile: Mobile,
    pub obstruct: Obstructive,
    /// The player can hold items; the robot cannot.
    pub contain: Option<Container>,
    pub opaque: Opaque,
    pub can_open: CanOpen,
    pub can_operate: CanOperate,
    pub is_player: bool,
}

/// The components of the handheld computer that is about to enter the world.
#[derive(Debug)]
pub struct PlanqParts {
    pub planq: Planq,
    pub desc: Description,
    pub posn: Position,
    pub render: Renderable,
    pub portable: Portable,
    pub device: Device,
}

/// Where the maintenance robot starts.
pub open spec fn spec_lmr_start() -> Position {
    Position { x: 12, y: 12, z: 0 }
}

/// Where the handheld computer lies at the start.
pub open spec fn spec_planq_start() -> Position {
    Position { x: 25, y: 30, z: 0 }
}

/// Whether `parts` are the components of a creature with the given name,
/// place, glyph, colour and range of sight: it moves, it stands in the way
/// and blocks the view, it opens doors and uses devices, and its viewshed is
/// due for its first recompute.
pub open spec fn is_creature(
    parts: CreatureParts,
    name: Seq<char>,
    posn: Position,
    glyph: Seq<char>,
    fg: u8,
    range: i32,
) -> bool {
    &&& parts.desc.name@ == name
    &&& parts.desc.desc@ == "default_desc"@
    &&& parts.desc.locn@ == "default_locn"@
    &&& parts.posn == posn
    &&& parts.render.glyph@ == glyph
    &&& parts.render.fg == fg
    &&& parts.render.bg == 0
    &&& parts.render.mods == 0
    &&& parts.render.width == 0
    &&& parts.render.height == 0
    &&& parts.viewshed.visible_tiles@ == Seq::<Point>::empty()
    &&& parts.viewshed.range == range
    &&& parts.viewshed.dirty
    &&& parts.opaque.opaque
}

/// The line that a spawn writes: at priority 1 and time 1.
pub open spec fn spawn_line(channel: Seq<char>, text: Seq<char>) -> MessageView {
    MessageView { timestamp: 1, priority: 1, channel, text }
}

/// The camera that the world starts with: it has no screen yet.
pub fn new_camera_system() -> (camera: CameraView)
    ensures
        camera.width == 0,
        camera.height == 0,
        camera.map@ == Seq::<Tile>::empty(),
{
    CameraView { map: Vec::new(), width: 0, height: 0 }
}

/// The player, at the spawn point, and the welcome on the narration.
pub fn new_player_spawn(msglog: &mut MessageLog, spawnpoint: Position) -> (parts: CreatureParts)
    ensures
        is_creature(parts, "Pleyeur"@, spawnpoint, "@"@, 2, 8),
        parts.is_player,
        parts.contain.is_some(),
        final(msglog)@ == old(msglog)@.push(spawn_line("world"@, "WELCOME TO SPACEGAME"@)),
{
    let parts = CreatureParts {
        desc: Description::new().name("Pleyeur"),
        posn: spawnpoint,
        render: Renderable::new().glyph("@").fg(2).bg(0),
        viewshed: Viewshed::new(8),
        mobile: Mobile {  },
        obstruct: Obstructive {  },
        contain: Some(Container {  }),
        opaque: Opaque::new(true),
        can_open: CanOpen {  },
        can_operate: CanOperate {  },
        is_player: true,
    };
    msglog.add(String::from_str("WELCOME TO SPACEGAME"), String::from_str("world"), 1, 1);
    parts
}

/// The maintenance robot, at its starting place, and a note on the debug
/// channel of the narration.
pub fn new_lmr_spawn(msglog: &mut MessageLog) -> (parts: CreatureParts)
    ensures
        is_creature(parts, "LMR"@, spec_lmr_start(), "l"@, 14, 5),
        !parts.is_player,
        parts.contain.is_none(),
        final(msglog)@ == old(msglog)@.push(
            spawn_line("debug"@, "LMR spawned at "@ + spec_lmr_start().spec_text()),
        ),
{
    let at = Position::new(12, 12, 0);
    let parts = CreatureParts {
        desc: Description::new().name("LMR"),
        posn: at,
        render: Renderable::new().glyph("l").fg(14).bg(0),
        viewshed: Viewshed::new(5),
        mobile: Mobile {  },
        obstruct: Obstructive {  },
        contain: None,
        opaque: Opaque::new(true),
        can_open: CanOpen {  },
        can_operate: CanOperate {  },
        is_player: false,
    };
    let mut text = String::from_str("LMR spawned at ");
    let place = at.to_text();
    text.append(place.as_str());
    msglog.add(text, String::from_str("debug"), 1, 1);
    parts
}

/// The player's handheld computer, switched off with a full battery that
/// never runs down, lying where it is to be found, and a note on the debug
/// channel of the narration.
pub fn new_planq_spawn(msglog: &mut MessageLog) -> (parts: PlanqParts)
    ensures
        parts.desc.name@ == "PLANQ"@,
        parts.desc.desc@ == "default_desc"@,
        parts.desc.locn@ == "default_locn"@,
        parts.posn == spec_planq_start(),
        parts.render.glyph@ == "\u{b6}"@,
        parts.render.fg == 3 && parts.render.bg == 0 && parts.render.mods == 0,
        parts.render.width == 0 && parts.render.height == 0,
        parts.portable.carrier == EntityId::spec_placeholder(),
        parts.device == (Device {
            pw_switch: false,
            batt_voltage: 100,
            batt_discharge: -1i32,
            state: DeviceState::Offline,
        }),
        final(msglog)@ == old(msglog)@.push(
            spawn_line("debug"@, "planq spawned at "@ + spec_planq_start().spec_text()),
        ),
{
    let at = Position::new(25, 30, 0);
    let parts = PlanqParts {
        planq: Planq {  },
        desc: Description::new().name("PLANQ"),
        posn: at,
        render: Renderable::new().glyph("\u{b6}").fg(3).bg(0),
        portable: Portable::empty(),
        device: Device {
            pw_switch: false,
            batt_voltage: 100,
            batt_discharge: -1,
            state: DeviceState::Offline,
        },
    };
    let mut text = String::from_str("planq spawned at ");
    let place = at.to_text();
    text.append(place.as_str());
    msglog.add(text, String::from_str("debug"), 1, 1);
    parts
}

} // verus!
