//! The device sub-simulation: a handheld computer with a power switch, a
//! boot sequence that timed processes drive, and an idle indicator.

use vstd::prelude::*;
use vstd::string::*;
use crate::components::EntityId;
use crate::components::Portable;
use crate::event::GameEvent;
use crate::event::GameEventType;
use crate::event::PlanqEvent;
use crate::event::PlanqEventType;
use crate::messagelog::planq_line;
use crate::messagelog::spec_boot_text;
use crate::messagelog::spec_replace;
use crate::messagelog::world_line;
use crate::messagelog::Message;
use crate::messagelog::MessageLog;
use crate::messagelog::MessageView;
use crate::monitor::spec_insert;
use crate::monitor::DataValue;
use crate::monitor::MonitorView;
use crate::monitor::PlanqDataType;
use crate::monitor::PlanqMonitor;
use crate::monitor::SampleTimerView;
use crate::position::Position;
use crate::timer::Timer;

verus! {

/// The mode of the device's processor.
#[derive(Clone, Copy, Debug, PartialEq, Eq, Structural)]
pub enum PlanqCPUMode {
    Error(u32),
    Offline,
    Startup,
    Shutdown,
    Idle,
    Working,
}

impl PlanqCPUMode {
    /// The name of the mode as the status bar shows it.
    pub open spec fn spec_name(self) -> Seq<char> {
        match self {
            PlanqCPUMode::Error(_) => "Error"@,
            PlanqCPUMode::Offline => "Offline"@,
            PlanqCPUMode::Startup => "Startup"@,
            PlanqCPUMode::Shutdown => "Shutdown"@,
            PlanqCPUMode::Idle => "Idle"@,
            PlanqCPUMode::Working => "Working"@,
        }
    }

    /// The name of the mode as the status bar shows it.
    pub fn name(&self) -> (s: &'static str)
        ensures
            s@ == self.spec_name(),
    {
        match self {
            PlanqCPUMode::Error(_) => "Error",
            PlanqCPUMode::Offline => "Offline",
            PlanqCPUMode::Startup => "Startup",
            PlanqCPUMode::Shutdown => "Shutdown",
            PlanqCPUMode::Idle => "Idle",
            PlanqCPUMode::Working => "Working",
        }
    }
}

/// What the device's controls are set up to do.
#[derive(Clone, Copy, Debug, PartialEq, Eq, Structural)]
pub enum PlanqActionMode {
    Default,
    UseItem,
    DropItem,
    CliInput,
}

/// A process of the device: a countdown and the event that it delivers when
/// the countdown has run out.
#[derive(Clone, Copy, Debug, PartialEq, Eq, Structural)]
pub struct PlanqProcess {
    pub timer: Timer,
    pub outcome: PlanqEvent,
}

impl PlanqProcess {
    /// A process without a duration that delivers nothing.
    pub fn new() -> (p: PlanqProcess)
        ensures
            p == (PlanqProcess {
                timer: Timer::spec_new(0),
                outcome: PlanqEvent { etype: PlanqEventType::NullEvent },
            }),
    {
        PlanqProcess { timer: Timer::new(0), outcome: PlanqEvent::new(PlanqEventType::NullEvent) }
    }

    /// The process with a countdown of `secs` seconds that has not started.
    pub fn time(self, secs: u64) -> (p: PlanqProcess)
        ensures
            p == (PlanqProcess {
                timer: Timer::spec_new(Timer::spec_secs_to_ms(secs)),
                outcome: self.outcome,
            }),
    {
        PlanqProcess { timer: Timer::from_secs(secs), outcome: self.outcome }
    }

    /// The process with the event that it delivers replaced.
    pub fn event(self, outcome: PlanqEvent) -> (p: PlanqProcess)
        ensures
            p == (PlanqProcess { timer: self.timer, outcome }),
    {
        PlanqProcess { timer: self.timer, outcome }
    }
}

/// The state of the device.
#[derive(Debug)]
pub struct PlanqData {
    pub power_is_on: bool,
    pub show_terminal: bool,
    pub cpu_mode: PlanqCPUMode,
    pub boot_stage: u32,
    /// The processes of the device; the first is the boot process.
    pub proc_table: Vec<PlanqProcess>,
    pub is_carried: bool,
    pub show_cli_input: bool,
    pub show_inventory: bool,
    pub action_mode: PlanqActionMode,
    pub inventory_list: Vec<EntityId>,
    pub player_loc: Position,
    pub stdout: Vec<Message>,
    pub jack_cnxn: EntityId,
}

/// The state of the device, as mathematical values.
pub struct PlanqView {
    pub power_is_on: bool,
    pub show_terminal: bool,
    pub cpu_mode: PlanqCPUMode,
    pub boot_stage: u32,
    pub proc_table: Seq<PlanqProcess>,
    pub is_carried: bool,
    pub show_cli_input: bool,
    pub show_inventory: bool,
    pub action_mode: PlanqActionMode,
    pub inventory_list: Seq<EntityId>,
    pub player_loc: Position,
    pub stdout: Seq<MessageView>,
    pub jack_cnxn: EntityId,
}

impl View for PlanqData {
    type V = PlanqView;

    open spec fn view(&self) -> PlanqView {
        PlanqView {
            power_is_on: self.power_is_on,
            show_terminal: self.show_terminal,
            cpu_mode: self.cpu_mode,
            boot_stage: self.boot_stage,
            proc_table: self.proc_table@,
            is_carried: self.is_carried,
            show_cli_input: self.show_cli_input,
            show_inventory: self.show_inventory,
            action_mode: self.action_mode,
            inventory_list: self.inventory_list@,
            player_loc: self.player_loc,
            stdout: self.stdout@.map_values(|m: Message| m@),
            jack_cnxn: self.jack_cnxn,
        }
    }
}

impl PlanqData {
    /// A device that is switched off and has never run.
    pub fn new() -> (p: PlanqData)
        ensures
            p@ == (PlanqView {
                power_is_on: false,
                show_terminal: false,
                cpu_mode: PlanqCPUMode::Offline,
                boot_stage: 0,
                proc_table: Seq::empty(),
                is_carried: false,
                show_cli_input: false,
                show_inventory: false,
                action_mode: PlanqActionMode::Default,
                inventory_list: Seq::empty(),
                player_loc: Position { x: 0, y: 0, z: 0 },
                stdout: Seq::empty(),
                jack_cnxn: EntityId::spec_placeholder(),
            }),
    {
        let p = PlanqData {
            power_is_on: false,
            show_terminal: false,
            cpu_mode: PlanqCPUMode::Offline,
            boot_stage: 0,
            proc_table: Vec::new(),
            is_carried: false,
            show_cli_input: false,
            show_inventory: false,
            action_mode: PlanqActionMode::Default,
            inventory_list: Vec::new(),
            player_loc: Position::new(0, 0, 0),
            stdout: Vec::new(),
            jack_cnxn: EntityId::placeholder(),
        };
        assert(p@.stdout =~= Seq::empty());
        p
    }

    /// Shows the inventory menu if it is hidden and hides it if it is shown.
    pub fn inventory_toggle(&mut self)
        ensures
            final(self)@ == (PlanqView {
                show_inventory: !old(self)@.show_inventory,
                ..old(self)@
            }),
    {
        self.show_inventory = !self.show_inventory;
    }
}

/// Everything that a tick of the device reads and writes: the device, the
/// monitor, the narration, and whether the inventory list is due for a
/// refill.
pub struct DeviceWorld {
    pub planq: PlanqView,
    pub monitor: MonitorView,
    pub log: Seq<MessageView>,
    pub refresh: bool,
}

/// A fresh timer of one second for the source of the given name.
pub open spec fn fresh_timer(source: Seq<char>) -> SampleTimerView {
    SampleTimerView { timer: Timer::spec_new(1000), source }
}

/// What the player is told on pressing the power button of the device.
pub open spec fn spec_click_text() -> Seq<char> {
    "There is a faint 'click' as you press the PLANQ's power button."@
}

/// The world after the device has seen one game event.
///
/// When the player picks up an item the inventory list is due; if the item
/// is the device itself, it is carried from then on and the timers of the
/// sources `planq_mode`, `current_time` and `planq_battery` are started. When
/// anybody drops the device it is carried no more, and a drop by the player
/// makes the inventory list due. When the player uses the device, the click
/// of its power button is narrated. An event without a context does nothing.
pub open spec fn spec_on_game_event(
    w: DeviceWorld,
    event: GameEvent,
    player: EntityId,
    planq_enty: EntityId,
) -> DeviceWorld {
    match event.context {
        None => w,
        Some(c) => match event.etype {
            GameEventType::ItemMove => if c.subject != player {
                w
            } else if c.object != planq_enty {
                DeviceWorld { refresh: true, ..w }
            } else {
                DeviceWorld {
                    planq: PlanqView { is_carried: true, ..w.planq },
                    monitor: MonitorView {
                        timers: w.monitor.timers.push(fresh_timer("planq_mode"@)).push(
                            fresh_timer("current_time"@),
                        ).push(fresh_timer("planq_battery"@)),
                        ..w.monitor
                    },
                    refresh: true,
                    ..w
                }
            },
            GameEventType::ItemDrop => DeviceWorld {
                planq: PlanqView {
                    is_carried: w.planq.is_carried && c.object != planq_enty,
                    ..w.planq
                },
                refresh: w.refresh || c.subject == player,
                ..w
            },
            GameEventType::ItemUse => if c.subject == player && c.object == planq_enty {
                DeviceWorld { log: w.log.push(world_line(spec_click_text())), ..w }
            } else {
                w
            },
            _ => w,
        },
    }
}

/// The world after the device has seen the first `n` game events.
pub open spec fn spec_on_game_events(
    w: DeviceWorld,
    events: Seq<GameEvent>,
    n: int,
    player: EntityId,
    planq_enty: EntityId,
) -> DeviceWorld
    decreases n,
{
    if n <= 0 {
        w
    } else {
        spec_on_game_event(
            spec_on_game_events(w, events, n - 1, player, planq_enty),
            events[n - 1],
            player,
            planq_enty,
        )
    }
}

/// Whether the command line can be opened in the given mode: not while the
/// device is off, starting up or shutting down.
pub open spec fn cli_available(mode: PlanqCPUMode) -> bool {
    mode != PlanqCPUMode::Startup && mode != PlanqCPUMode::Shutdown && mode
        != PlanqCPUMode::Offline
}

/// The device after one device event.
pub open spec fn spec_on_planq_event(p: PlanqView, event: PlanqEvent) -> PlanqView {
    match event.etype {
        PlanqEventType::NullEvent => p,
        PlanqEventType::Startup => PlanqView { cpu_mode: PlanqCPUMode::Startup, ..p },
        PlanqEventType::BootStage(lvl) => PlanqView { boot_stage: lvl, ..p },
        PlanqEventType::Shutdown => PlanqView { cpu_mode: PlanqCPUMode::Shutdown, ..p },
        PlanqEventType::Reboot => p,
        PlanqEventType::GoIdle => PlanqView { cpu_mode: PlanqCPUMode::Idle, ..p },
        PlanqEventType::CliOpen => if cli_available(p.cpu_mode) {
            PlanqView { show_cli_input: true, action_mode: PlanqActionMode::CliInput, ..p }
        } else {
            p
        },
        PlanqEventType::CliClose => PlanqView {
            show_cli_input: false,
            action_mode: PlanqActionMode::Default,
            ..p
        },
        PlanqEventType::InventoryUse => PlanqView {
            show_inventory: !p.show_inventory,
            action_mode: PlanqActionMode::UseItem,
            ..p
        },
        PlanqEventType::InventoryDrop => PlanqView {
            show_inventory: !p.show_inventory,
            action_mode: PlanqActionMode::DropItem,
            ..p
        },
    }
}

/// The device after the first `n` device events.
pub open spec fn spec_on_planq_events(p: PlanqView, events: Seq<PlanqEvent>, n: int) -> PlanqView
    decreases n,
{
    if n <= 0 {
        p
    } else {
        spec_on_planq_event(spec_on_planq_events(p, events, n - 1), events[n - 1])
    }
}

/// The device after it has noticed the position of its power switch: a
/// switch that went on starts the boot, one that went off the shutdown.
pub open spec fn spec_power_sync(p: PlanqView, pw_switch: bool) -> PlanqView {
    if !p.power_is_on && pw_switch {
        PlanqView {
            power_is_on: true,
            show_terminal: true,
            cpu_mode: PlanqCPUMode::Startup,
            ..p
        }
    } else if p.power_is_on && !pw_switch {
        PlanqView { power_is_on: false, cpu_mode: PlanqCPUMode::Shutdown, ..p }
    } else {
        p
    }
}

/// The device after it has taken the outcomes of those of its first `n`
/// processes whose countdown has just run out: a boot stage becomes the
/// stage of the boot, a call to idle the mode.
pub open spec fn spec_outcomes(p: PlanqView, n: int) -> PlanqView
    decreases n,
{
    if n <= 0 {
        p
    } else {
        let q = spec_outcomes(p, n - 1);
        let process = p.proc_table[n - 1];
        if !process.timer.just_finished {
            q
        } else {
            match process.outcome.etype {
                PlanqEventType::BootStage(lvl) => PlanqView { boot_stage: lvl, ..q },
                PlanqEventType::GoIdle => PlanqView { cpu_mode: PlanqCPUMode::Idle, ..q },
                _ => q,
            }
        }
    }
}

/// The process that starts the boot: three seconds, then stage 1.
pub open spec fn boot_process() -> PlanqProcess {
    PlanqProcess {
        timer: Timer::spec_new(3000),
        outcome: PlanqEvent { etype: PlanqEventType::BootStage(1) },
    }
}

/// Whether the boot process exists and its countdown has just run out.
pub open spec fn boot_timer_fired(p: PlanqView) -> bool {
    p.proc_table.len() > 0 && p.proc_table[0].timer.just_finished
}

/// The world after the boot has taken its step for the stage that it is in.
///
/// Stage 0 narrates itself and starts the boot process, once, while the
/// device has no process. Each of the stages 1 to 3 waits for the boot
/// process to run out, narrates itself, and starts the process over with the
/// next stage as its outcome. Stage 4 waits in the same way, narrates
/// itself, registers the source `player_location` with its status bar, its
/// entry in the store and its timer, takes the outcome off the boot process
/// and puts the device into idle mode. Any other stage does nothing.
pub open spec fn spec_boot_step(w: DeviceWorld) -> DeviceWorld {
    let stage = w.planq.boot_stage;
    if stage == 0 {
        if w.planq.proc_table.len() == 0 {
            DeviceWorld {
                planq: PlanqView { proc_table: w.planq.proc_table.push(boot_process()), ..w.planq },
                log: w.log.push(planq_line(spec_boot_text(0))),
                ..w
            }
        } else {
            w
        }
    } else if 1 <= stage <= 3 {
        if boot_timer_fired(w.planq) {
            DeviceWorld {
                planq: PlanqView {
                    proc_table: w.planq.proc_table.update(
                        0,
                        PlanqProcess {
                            timer: w.planq.proc_table[0].timer.spec_reset(),
                            outcome: PlanqEvent {
                                etype: PlanqEventType::BootStage((stage + 1) as u32),
                            },
                        },
                    ),
                    ..w.planq
                },
                log: w.log.push(planq_line(spec_boot_text(stage))),
                ..w
            }
        } else {
            w
        }
    } else if stage == 4 {
        if boot_timer_fired(w.planq) {
            DeviceWorld {
                planq: PlanqView {
                    proc_table: w.planq.proc_table.update(
                        0,
                        PlanqProcess {
                            outcome: PlanqEvent { etype: PlanqEventType::NullEvent },
                            ..w.planq.proc_table[0]
                        },
                    ),
                    cpu_mode: PlanqCPUMode::Idle,
                    ..w.planq
                },
                monitor: MonitorView {
                    status_bars: w.monitor.status_bars.push("player_location"@),
                    raw_data: spec_insert(
                        w.monitor.raw_data,
                        "player_location"@,
                        DataValue::Text(Seq::empty()),
                    ),
                    timers: w.monitor.timers.push(fresh_timer("player_location"@)),
                },
                log: w.log.push(planq_line(spec_boot_text(4))),
                ..w
            }
        } else {
            w
        }
    } else {
        w
    }
}

/// How far the idle indicator is indented after `secs` seconds: a triangular
/// wave over ten seconds that falls from 23 to 1 and climbs back to 16.
pub open spec fn spec_idle_indent(secs: u64) -> nat {
    let wave = 44 * (secs % 10) - 230;
    if wave < 0 {
        ((-wave) / 10) as nat
    } else {
        (wave / 10) as nat
    }
}

/// The idle indicator after `secs` seconds.
pub open spec fn spec_idle_text(secs: u64) -> Seq<char> {
    Seq::new(spec_idle_indent(secs), |i: int| ' ') + "-=[ ]=-"@
}

/// The world after the processor has taken its turn.
///
/// While starting up it takes the outcomes of its processes and then the
/// step of the boot. While idle with the boot process as its only process it
/// puts the idle indicator in place of the newest line of its transcript.
/// While working with nothing but the boot process left it goes idle. In any
/// other mode it does nothing.
pub open spec fn spec_cpu_turn(w: DeviceWorld, elapsed_ms: u64) -> DeviceWorld {
    match w.planq.cpu_mode {
        PlanqCPUMode::Startup => spec_boot_step(
            DeviceWorld { planq: spec_outcomes(w.planq, w.planq.proc_table.len() as int), ..w },
        ),
        PlanqCPUMode::Idle => if w.planq.proc_table.len() == 1 {
            DeviceWorld {
                log: spec_replace(w.log, planq_line(spec_idle_text(elapsed_ms / 1000))),
                ..w
            }
        } else {
            w
        },
        PlanqCPUMode::Working => if w.planq.proc_table.len() == 1 {
            DeviceWorld { planq: PlanqView { cpu_mode: PlanqCPUMode::Idle, ..w.planq }, ..w }
        } else {
            w
        },
        _ => w,
    }
}

/// A process after a tick: a countdown that is still running advances, one
/// that has run out is left as it is, so that its owner finds it just run
/// out until it is started over.
pub open spec fn spec_process_ticked(process: PlanqProcess, delta_ms: u64) -> PlanqProcess {
    if process.timer.finished {
        process
    } else {
        PlanqProcess { timer: process.timer.spec_tick(delta_ms), ..process }
    }
}

/// The process table after a tick.
pub open spec fn spec_table_ticked(table: Seq<PlanqProcess>, delta_ms: u64) -> Seq<PlanqProcess> {
    Seq::new(table.len(), |i: int| spec_process_ticked(table[i], delta_ms))
}

/// Those of the first `n` carried items that `who` carries, in order.
pub open spec fn spec_carried_by(carried: Seq<(EntityId, Portable)>, n: int, who: EntityId) -> Seq<
    EntityId,
>
    decreases n,
{
    if n <= 0 {
        Seq::empty()
    } else if carried[n - 1].1.carrier == who {
        spec_carried_by(carried, n - 1, who).push(carried[n - 1].0)
    } else {
        spec_carried_by(carried, n - 1, who)
    }
}

/// The world after one tick of the device: the game events, the device
/// events, the power switch, the turn of the processor, the tick of the
/// processes, and the refill of the inventory list if it is due.
pub open spec fn spec_planq_tick(
    w: DeviceWorld,
    game_events: Seq<GameEvent>,
    planq_events: Seq<PlanqEvent>,
    elapsed_ms: u64,
    delta_ms: u64,
    player: EntityId,
    planq_enty: EntityId,
    pw_switch: bool,
    carried: Seq<(EntityId, Portable)>,
) -> DeviceWorld {
    let heard = spec_on_game_events(w, game_events, game_events.len() as int, player, planq_enty);
    let commanded = spec_on_planq_events(heard.planq, planq_events, planq_events.len() as int);
    let powered = spec_power_sync(commanded, pw_switch);
    let turned = spec_cpu_turn(DeviceWorld { planq: powered, ..heard }, elapsed_ms);
    let ticked = PlanqView {
        proc_table: spec_table_ticked(turned.planq.proc_table, delta_ms),
        ..turned.planq
    };
    let listed = if turned.refresh {
        PlanqView {
            inventory_list: spec_carried_by(carried, carried.len() as int, player),
            ..ticked
        }
    } else {
        ticked
    };
    DeviceWorld { planq: listed, ..turned }
}

fn on_game_event(
    event: GameEvent,
    msglog: &mut MessageLog,
    planq: &mut PlanqData,
    monitor: &mut PlanqMonitor,
    refresh: &mut bool,
    player: EntityId,
    planq_enty: EntityId,
)
    ensures
        (DeviceWorld {
            planq: final(planq)@,
            monitor: final(monitor)@,
            log: final(msglog)@,
            refresh: *final(refresh),
        }) == spec_on_game_event(
            DeviceWorld {
                planq: old(planq)@,
                monitor: old(monitor)@,
                log: old(msglog)@,
                refresh: *old(refresh),
            },
            event,
            player,
            planq_enty,
        ),
{
    let c = match event.context {
        Some(c) => c,
        None => {
            return ;
        },
    };
    match event.etype {
        GameEventType::ItemMove => {
            if c.subject == player {
                *refresh = true;
                if c.object == planq_enty {
                    planq.is_carried = true;
                    monitor.add_timer(String::from_str("planq_mode"));
                    monitor.add_timer(String::from_str("current_time"));
                    monitor.add_timer(String::from_str("planq_battery"));
                }
            }
        },
        GameEventType::ItemDrop => {
            if c.subject == player {
                *refresh = true;
            }
            if c.object == planq_enty {
                planq.is_carried = false;
            }
        },
        GameEventType::ItemUse => {
            if c.subject == player && c.object == planq_enty {
                msglog.tell_player(
                    String::from_str(
                        "There is a faint 'click' as you press the PLANQ's power button.",
                    ),
                );
            }
        },
        _ => {},
    }
}

fn on_planq_event(event: PlanqEvent, planq: &mut PlanqData)
    ensures
        final(planq)@ == spec_on_planq_event(old(planq)@, event),
{
    match event.etype {
        PlanqEventType::NullEvent => {},
        PlanqEventType::Startup => {
            planq.cpu_mode = PlanqCPUMode::Startup;
        },
        PlanqEventType::BootStage(lvl) => {
            planq.boot_stage = lvl;
        },
        PlanqEventType::Shutdown => {
            planq.cpu_mode = PlanqCPUMode::Shutdown;
        },
        PlanqEventType::Reboot => {},
        PlanqEventType::GoIdle => {
            planq.cpu_mode = PlanqCPUMode::Idle;
        },
        PlanqEventType::CliOpen => {
            if planq.cpu_mode != PlanqCPUMode::Startup && planq.cpu_mode != PlanqCPUMode::Shutdown
                && planq.cpu_mode != PlanqCPUMode::Offline {
                planq.show_cli_input = true;
                planq.action_mode = PlanqActionMode::CliInput;
            }
        },
        PlanqEventType::CliClose => {
            planq.show_cli_input = false;
            planq.action_mode = PlanqActionMode::Default;
        },
        PlanqEventType::InventoryUse => {
            planq.inventory_toggle();
            planq.action_mode = PlanqActionMode::UseItem;
        },
        PlanqEventType::InventoryDrop => {
            planq.inventory_toggle();
            planq.action_mode = PlanqActionMode::DropItem;
        },
    }
}

fn power_sync(planq: &mut PlanqData, pw_switch: bool)
    ensures
        final(planq)@ == spec_power_sync(old(planq)@, pw_switch),
{
    if !planq.power_is_on && pw_switch {
        planq.power_is_on = true;
        planq.show_terminal = true;
        planq.cpu_mode = PlanqCPUMode::Startup;
    } else if planq.power_is_on && !pw_switch {
        planq.power_is_on = false;
        planq.cpu_mode = PlanqCPUMode::Shutdown;
    }
}

fn take_outcomes(planq: &mut PlanqData)
    ensures
        final(planq)@ == spec_outcomes(old(planq)@, old(planq)@.proc_table.len() as int),
{
    let mut n: usize = 0;
    while n < planq.proc_table.len()
        invariant
            n <= planq.proc_table.len(),
            planq@.proc_table == old(planq)@.proc_table,
            planq@ == spec_outcomes(old(planq)@, n as int),
        decreases planq.proc_table.len() - n,
    {
        let process = planq.proc_table[n];
        if process.timer.just_finished() {
            match process.outcome.etype {
                PlanqEventType::BootStage(lvl) => {
                    planq.boot_stage = lvl;
                },
                PlanqEventType::GoIdle => {
                    planq.cpu_mode = PlanqCPUMode::Idle;
                },
                _ => {},
            }
        }
        n += 1;
    }
}

fn boot_step(msglog: &mut MessageLog, planq: &mut PlanqData, monitor: &mut PlanqMonitor)
    ensures
        (DeviceWorld {
            planq: final(planq)@,
            monitor: final(monitor)@,
            log: final(msglog)@,
            refresh: false,
        }) == spec_boot_step(
            DeviceWorld {
                planq: old(planq)@,
                monitor: old(monitor)@,
                log: old(msglog)@,
                refresh: false,
            },
        ),
{
    let stage = planq.boot_stage;
    if stage == 0 {
        if planq.proc_table.len() == 0 {
            msglog.boot_message(0);
            let process = PlanqProcess::new().time(3).event(
                PlanqEvent::new(PlanqEventType::BootStage(1)),
            );
            planq.proc_table.push(process);
        }
    } else if stage <= 3 {
        if planq.proc_table.len() > 0 && planq.proc_table[0].timer.just_finished() {
            msglog.boot_message(stage);
            planq.proc_table[0].timer.reset();
            planq.proc_table[0].outcome = PlanqEvent::new(PlanqEventType::BootStage(stage + 1));
            assert(planq@.proc_table =~= old(planq)@.proc_table.update(
                0,
                PlanqProcess {
                    timer: old(planq)@.proc_table[0].timer.spec_reset(),
                    outcome: PlanqEvent { etype: PlanqEventType::BootStage((stage + 1) as u32) },
                },
            ));
        }
    } else if stage == 4 {
        if planq.proc_table.len() > 0 && planq.proc_table[0].timer.just_finished() {
            msglog.boot_message(4);
            monitor.add_status_bar(String::from_str("player_location"));
            proof {
                reveal_strlit("");
                assert(""@ =~= Seq::<char>::empty());
            }
            monitor.insert(
                String::from_str("player_location"),
                PlanqDataType::Text(String::from_str("")),
            );
            monitor.add_timer(String::from_str("player_location"));
            planq.proc_table[0].outcome = PlanqEvent::new(PlanqEventType::NullEvent);
            planq.cpu_mode = PlanqCPUMode::Idle;
            assert(planq@.proc_table =~= old(planq)@.proc_table.update(
                0,
                PlanqProcess {
                    outcome: PlanqEvent { etype: PlanqEventType::NullEvent },
                    ..old(planq)@.proc_table[0]
                },
            ));
        }
    }
}

/// The idle indicator for the given time.
pub fn idle_text(secs: u64) -> (text: String)
    ensures
        text@ == spec_idle_text(secs),
{
    let phase: u64 = secs % 10;
    let indent: u64 = if 44 * phase < 230 {
        (230 - 44 * phase) / 10
    } else {
        (44 * phase - 230) / 10
    };
    let mut text = String::new();
    let mut i: u64 = 0;
    proof {
        reveal_strlit(" ");
    }
    while i < indent
        invariant
            i <= indent,
            text@ == Seq::new(i as nat, |j: int| ' '),
            " "@ == seq![' '],
        decreases indent - i,
    {
        text.append(" ");
        i += 1;
        assert(text@ =~= Seq::new(i as nat, |j: int| ' '));
    }
    text.append("-=[ ]=-");
    assert(indent == spec_idle_indent(secs));
    text
}

fn cpu_turn(
    msglog: &mut MessageLog,
    planq: &mut PlanqData,
    monitor: &mut PlanqMonitor,
    elapsed_ms: u64,
)
    ensures
        (DeviceWorld {
            planq: final(planq)@,
            monitor: final(monitor)@,
            log: final(msglog)@,
            refresh: false,
        }) == spec_cpu_turn(
            DeviceWorld {
                planq: old(planq)@,
                monitor: old(monitor)@,
                log: old(msglog)@,
                refresh: false,
            },
            elapsed_ms,
        ),
{
    match planq.cpu_mode {
        PlanqCPUMode::Startup => {
            take_outcomes(planq);
            boot_step(msglog, planq, monitor);
        },
        PlanqCPUMode::Idle => {
            if planq.proc_table.len() == 1 {
                let idle_message = idle_text(elapsed_ms / 1000);
                msglog.replace(idle_message, String::from_str("planq"), 0, 0);
            }
        },
        PlanqCPUMode::Working => {
            if planq.proc_table.len() == 1 {
                planq.cpu_mode = PlanqCPUMode::Idle;
            }
        },
        _ => {},
    }
}

fn tick_processes(planq: &mut PlanqData, delta_ms: u64)
    ensures
        final(planq)@ == (PlanqView {
            proc_table: spec_table_ticked(old(planq)@.proc_table, delta_ms),
            ..old(planq)@
        }),
{
    let mut n: usize = 0;
    while n < planq.proc_table.len()
        invariant
            n <= planq.proc_table.len(),
            planq@.proc_table.len() == old(planq)@.proc_table.len(),
            planq@ == (PlanqView { proc_table: planq@.proc_table, ..old(planq)@ }),
            forall|i: int|
                0 <= i < n ==> #[trigger] planq@.proc_table[i] == spec_process_ticked(
                    old(planq)@.proc_table[i],
                    delta_ms,
                ),
            forall|i: int|
                n <= i < planq@.proc_table.len() ==> #[trigger] planq@.proc_table[i] == old(
                    planq)@.proc_table[i],
        decreases planq.proc_table.len() - n,
    {
        if !planq.proc_table[n].timer.finished() {
            planq.proc_table[n].timer.tick(delta_ms);
        }
        n += 1;
    }
    assert(planq@.proc_table =~= spec_table_ticked(old(planq)@.proc_table, delta_ms));
}

/// The items among `carried` that `who` carries, in order.
pub fn carried_by(carried: &Vec<(EntityId, Portable)>, who: EntityId) -> (list: Vec<EntityId>)
    ensures
        list@ == spec_carried_by(carried@, carried@.len() as int, who),
{
    let mut list: Vec<EntityId> = Vec::new();
    let mut n: usize = 0;
    while n < carried.len()
        invariant
            n <= carried.len(),
            list@ == spec_carried_by(carried@, n as int, who),
        decreases carried.len() - n,
    {
        if carried[n].1.carrier == who {
            list.push(carried[n].0);
        }
        n += 1;
    }
    list
}

/// Runs one tick of the device.
///
/// `elapsed_ms` is the time since the start of the simulation and `delta_ms`
/// the time since the previous tick, both in milliseconds. `player` and
/// `planq_enty` are the entities of the player and of the device,
/// `pw_switch` is the position of the device's power switch, and `carried`
/// lists every item that has no position, with its carrier.
pub fn planq_system(
    game_events: &Vec<GameEvent>,
    planq_events: &Vec<PlanqEvent>,
    elapsed_ms: u64,
    delta_ms: u64,
    msglog: &mut MessageLog,
    planq: &mut PlanqData,
    monitor: &mut PlanqMonitor,
    player: EntityId,
    planq_enty: EntityId,
    pw_switch: bool,
    carried: &Vec<(EntityId, Portable)>,
)
    ensures
        ({
            let end = spec_planq_tick(
                DeviceWorld {
                    planq: old(planq)@,
                    monitor: old(monitor)@,
                    log: old(msglog)@,
                    refresh: false,
                },
                game_events@,
                planq_events@,
                elapsed_ms,
                delta_ms,
                player,
                planq_enty,
                pw_switch,
                carried@,
            );
            &&& final(planq)@ == end.planq
            &&& final(monitor)@ == end.monitor
            &&& final(msglog)@ == end.log
        }),
{
    let ghost start = DeviceWorld {
        planq: planq@,
        monitor: monitor@,
        log: msglog@,
        refresh: false,
    };
    let mut refresh_inventory = false;
    let mut i: usize = 0;
    while i < game_events.len()
        invariant
            i <= game_events.len(),
            (DeviceWorld {
                planq: planq@,
                monitor: monitor@,
                log: msglog@,
                refresh: refresh_inventory,
            }) == spec_on_game_events(start, game_events@, i as int, player, planq_enty),
        decreases game_events.len() - i,
    {
        on_game_event(
            game_events[i],
            msglog,
            planq,
            monitor,
            &mut refresh_inventory,
            player,
            planq_enty,
        );
        i += 1;
    }
    let ghost heard = DeviceWorld {
        planq: planq@,
        monitor: monitor@,
        log: msglog@,
        refresh: refresh_inventory,
    };
    let mut j: usize = 0;
    while j < planq_events.len()
        invariant
            j <= planq_events.len(),
            planq@ == spec_on_planq_events(heard.planq, planq_events@, j as int),
        decreases planq_events.len() - j,
    {
        on_planq_event(planq_events[j], planq);
        j += 1;
    }
    power_sync(planq, pw_switch);
    let ghost powered = DeviceWorld { planq: planq@, ..heard };
    cpu_turn(msglog, planq, monitor, elapsed_ms);
    proof {
        lemma_cpu_turn_keeps_refresh(powered, elapsed_ms);
    }
    tick_processes(planq, delta_ms);
    if refresh_inventory {
        planq.inventory_list = carried_by(carried, player);
    }
}

/// The turn of the processor reads and writes everything but the flag that
/// says whether the inventory list is due.
proof fn lemma_cpu_turn_keeps_refresh(w: DeviceWorld, elapsed_ms: u64)
    ensures
        spec_cpu_turn(w, elapsed_ms) == (DeviceWorld {
            refresh: w.refresh,
            ..spec_cpu_turn(DeviceWorld { refresh: false, ..w }, elapsed_ms)
        }),
{
}

} // verus!
