use bevy_turborand::prelude::RngComponent;
use spacegame::components::EntityId;
use spacegame::components::Portable;
use spacegame::event::GameEvent;
use spacegame::event::GameEventType;
use spacegame::event::PlanqEvent;
use spacegame::event::PlanqEventType;
use spacegame::interact::operable_system;
use spacegame::interact::DeviceRow;
use spacegame::components::Device;
use spacegame::components::DeviceState;
use spacegame::messagelog::MessageLog;
use spacegame::monitor::draw_for;
use spacegame::monitor::planq_monitor_system;
use spacegame::monitor::push_capped;
use spacegame::monitor::DataSampleTimer;
use spacegame::monitor::Draw;
use spacegame::monitor::DurationFmtExt;
use spacegame::monitor::PlanqDataType;
use spacegame::monitor::PlanqMonitor;
use spacegame::monitor::Readings;
use spacegame::planq::carried_by;
use spacegame::planq::idle_text;
use spacegame::planq::planq_system;
use spacegame::planq::PlanqActionMode;
use spacegame::planq::PlanqCPUMode;
use spacegame::planq::PlanqData;
use spacegame::planq::PlanqProcess;
use spacegame::position::Position;
use spacegame::timer::Timer;
use std::collections::VecDeque;

const PLAYER: EntityId = EntityId { index: 1, generation: 0 };
const ROBOT: EntityId = EntityId { index: 2, generation: 0 };
const PLANQ: EntityId = EntityId { index: 31, generation: 0 };
const SNACK: EntityId = EntityId { index: 30, generation: 0 };

struct Rig {
    log: MessageLog,
    planq: PlanqData,
    monitor: PlanqMonitor,
    elapsed_ms: u64,
}

impl Rig {
    fn new() -> Rig {
        Rig { log: MessageLog::new(), planq: PlanqData::new(), monitor: PlanqMonitor::new(), elapsed_ms: 0 }
    }

    fn tick(&mut self, game: Vec<GameEvent>, device: Vec<PlanqEvent>, pw_switch: bool, delta_ms: u64) {
        self.elapsed_ms += delta_ms;
        planq_system(
            &game,
            &device,
            self.elapsed_ms,
            delta_ms,
            &mut self.log,
            &mut self.planq,
            &mut self.monitor,
            PLAYER,
            PLANQ,
            pw_switch,
            &Vec::new(),
        );
    }

    fn planq_lines(&self) -> Vec<String> {
        self.log.logs.iter().filter(|m| m.channel == "planq").map(|m| m.text.clone()).collect()
    }
}

fn boot_lines() -> Vec<String> {
    vec![
        "[[ PLANQ OS v17.6.823 ]] Power-on self test".to_string(),
        "Hardware check: 1 cell, 1 display, 1 jack ... OK".to_string(),
        "Loading firmware modules ...".to_string(),
        "Mounting storage, starting services ...".to_string(),
        "Boot complete. Welcome back.".to_string(),
    ]
}

fn event(etype: GameEventType, subject: EntityId, object: EntityId) -> GameEvent {
    GameEvent::new(etype, Some(subject), Some(object))
}

#[test]
fn a_switched_off_device_does_nothing() {
    let mut rig = Rig::new();
    for _ in 0..5 {
        rig.tick(Vec::new(), Vec::new(), false, 1000);
    }
    assert_eq!(rig.planq.cpu_mode, PlanqCPUMode::Offline);
    assert!(!rig.planq.power_is_on);
    assert!(rig.planq.proc_table.is_empty());
    assert_eq!(rig.log.len(), 0);
}

#[test]
fn use_event_powers_the_device_and_starts_the_boot() {
    let mut devices = vec![DeviceRow {
        entity: PLANQ,
        name: "PLANQ".to_string(),
        device: Device { pw_switch: false, batt_voltage: 100, batt_discharge: -1, state: DeviceState::Offline },
    }];
    let events = vec![event(GameEventType::ItemUse, PLAYER, PLANQ)];
    operable_system(&events, &mut devices);
    assert!(devices[0].device.pw_switch);
    let mut rig = Rig::new();
    rig.tick(events, Vec::new(), devices[0].device.pw_switch, 250);
    assert!(rig.planq.power_is_on);
    assert!(rig.planq.show_terminal);
    assert_eq!(rig.planq.cpu_mode, PlanqCPUMode::Startup);
    assert_eq!(rig.log.logs[0].channel, "world");
    assert_eq!(rig.log.logs[0].text, "There is a faint 'click' as you press the PLANQ's power button.");
    assert_eq!(rig.planq_lines(), boot_lines()[..1].to_vec());
    assert_eq!(rig.planq.proc_table.len(), 1);
    assert_eq!(rig.planq.proc_table[0].outcome, PlanqEvent::new(PlanqEventType::BootStage(1)));
    assert_eq!(rig.planq.proc_table[0].timer.duration_ms, 3000);
}

#[test]
fn boot_runs_through_its_stages_once_each() {
    let mut rig = Rig::new();
    let mut stages_seen = vec![rig.planq.boot_stage];
    for _ in 0..13 {
        rig.tick(Vec::new(), Vec::new(), true, 1000);
        if *stages_seen.last().unwrap() != rig.planq.boot_stage {
            stages_seen.push(rig.planq.boot_stage);
        }
    }
    assert_eq!(stages_seen, vec![0, 1, 2, 3, 4]);
    assert_eq!(rig.planq_lines(), boot_lines());
    assert_eq!(rig.planq.cpu_mode, PlanqCPUMode::Idle);
    assert_eq!(rig.planq.boot_stage, 4);
    assert_eq!(rig.planq.proc_table.len(), 1);
    assert_eq!(rig.planq.proc_table[0].outcome, PlanqEvent::new(PlanqEventType::NullEvent));
    assert_eq!(rig.monitor.status_bars, vec!["player_location".to_string()]);
    assert_eq!(rig.monitor.raw_data.len(), 1);
    assert_eq!(rig.monitor.raw_data[0].name, "player_location");
    assert_eq!(rig.monitor.raw_data[0].value, PlanqDataType::Text(String::new()));
    assert_eq!(rig.monitor.timers.len(), 1);
    assert_eq!(rig.monitor.timers[0].source, "player_location");
    assert_eq!(rig.monitor.timers[0].timer, Timer::new(1000));
    // nothing is registered twice while the device idles
    for _ in 0..20 {
        rig.tick(Vec::new(), Vec::new(), true, 1000);
    }
    assert_eq!(rig.planq.cpu_mode, PlanqCPUMode::Idle);
    assert_eq!(rig.monitor.status_bars.len(), 1);
    assert_eq!(rig.monitor.raw_data.len(), 1);
    assert_eq!(rig.monitor.timers.len(), 1);
    assert_eq!(rig.planq.proc_table.len(), 1);
    assert_eq!(rig.log.len(), 5);
}

#[test]
fn boot_stage_waits_for_its_timer() {
    let mut rig = Rig::new();
    rig.tick(Vec::new(), Vec::new(), true, 1000);
    assert_eq!(rig.planq_lines().len(), 1);
    rig.tick(Vec::new(), Vec::new(), true, 1000);
    rig.tick(Vec::new(), Vec::new(), true, 999);
    assert!(!rig.planq.proc_table[0].timer.finished());
    rig.tick(Vec::new(), Vec::new(), true, 0);
    assert_eq!(rig.planq.boot_stage, 0);
    assert_eq!(rig.planq_lines().len(), 1);
    rig.tick(Vec::new(), Vec::new(), true, 1);
    assert!(rig.planq.proc_table[0].timer.just_finished());
    // the stage is taken on the pass after the one in which the timer ran out
    assert_eq!(rig.planq.boot_stage, 0);
    rig.tick(Vec::new(), Vec::new(), true, 0);
    assert_eq!(rig.planq.boot_stage, 1);
    assert_eq!(rig.planq_lines().len(), 2);
    assert_eq!(rig.planq.proc_table[0].outcome, PlanqEvent::new(PlanqEventType::BootStage(2)));
    assert_eq!(rig.planq.proc_table[0].timer, Timer::new(3000));
}

#[test]
fn idle_indicator_replaces_the_newest_line() {
    let mut rig = Rig::new();
    for _ in 0..13 {
        rig.tick(Vec::new(), Vec::new(), true, 1000);
    }
    assert_eq!(rig.log.len(), 5);
    // second 14: phase 4, indent 5
    rig.tick(Vec::new(), Vec::new(), true, 1000);
    assert_eq!(rig.log.len(), 5);
    assert_eq!(rig.planq_lines()[4], "     -=[ ]=-");
    // second 15: phase 5, indent 1
    rig.tick(Vec::new(), Vec::new(), true, 1000);
    assert_eq!(rig.log.len(), 5);
    assert_eq!(rig.planq_lines()[4], " -=[ ]=-");
    assert_eq!(rig.planq_lines()[3], boot_lines()[3]);
}

#[test]
fn idle_indicator_is_a_triangular_wave() {
    let indents: Vec<usize> = (0..10u64).map(|s| idle_text(s).len() - "-=[ ]=-".len()).collect();
    assert_eq!(indents, vec![23, 18, 14, 9, 5, 1, 3, 7, 12, 16]);
    assert_eq!(idle_text(0), format!("{}-=[ ]=-", " ".repeat(23)));
    assert_eq!(idle_text(25), " -=[ ]=-");
    assert_eq!(idle_text(u64::MAX), idle_text(5));
}

#[test]
fn switching_off_starts_the_shutdown() {
    let mut rig = Rig::new();
    rig.tick(Vec::new(), Vec::new(), true, 1000);
    assert_eq!(rig.planq.cpu_mode, PlanqCPUMode::Startup);
    rig.tick(Vec::new(), Vec::new(), false, 1000);
    assert!(!rig.planq.power_is_on);
    assert_eq!(rig.planq.cpu_mode, PlanqCPUMode::Shutdown);
    assert!(rig.planq.show_terminal);
}

#[test]
fn device_events_set_modes() {
    let mut rig = Rig::new();
    rig.tick(Vec::new(), vec![PlanqEvent::new(PlanqEventType::CliOpen)], false, 10);
    // no command line while offline
    assert!(!rig.planq.show_cli_input);
    assert_eq!(rig.planq.action_mode, PlanqActionMode::Default);
    rig.tick(
        Vec::new(),
        vec![
            PlanqEvent::new(PlanqEventType::GoIdle),
            PlanqEvent::new(PlanqEventType::BootStage(9)),
            PlanqEvent::new(PlanqEventType::CliOpen),
            PlanqEvent::new(PlanqEventType::Reboot),
            PlanqEvent::new(PlanqEventType::NullEvent),
        ],
        false,
        10,
    );
    assert_eq!(rig.planq.cpu_mode, PlanqCPUMode::Idle);
    assert_eq!(rig.planq.boot_stage, 9);
    assert!(rig.planq.show_cli_input);
    assert_eq!(rig.planq.action_mode, PlanqActionMode::CliInput);
    rig.tick(Vec::new(), vec![PlanqEvent::new(PlanqEventType::CliClose)], false, 10);
    assert!(!rig.planq.show_cli_input);
    assert_eq!(rig.planq.action_mode, PlanqActionMode::Default);
    rig.tick(Vec::new(), vec![PlanqEvent::new(PlanqEventType::InventoryUse)], false, 10);
    assert!(rig.planq.show_inventory);
    assert_eq!(rig.planq.action_mode, PlanqActionMode::UseItem);
    rig.tick(Vec::new(), vec![PlanqEvent::new(PlanqEventType::InventoryDrop)], false, 10);
    assert!(!rig.planq.show_inventory);
    assert_eq!(rig.planq.action_mode, PlanqActionMode::DropItem);
    rig.tick(Vec::new(), vec![PlanqEvent::new(PlanqEventType::Shutdown)], false, 10);
    assert_eq!(rig.planq.cpu_mode, PlanqCPUMode::Shutdown);
    rig.tick(Vec::new(), vec![PlanqEvent::new(PlanqEventType::Startup)], false, 10);
    assert_eq!(rig.planq.cpu_mode, PlanqCPUMode::Startup);
}

#[test]
fn unknown_boot_stage_is_a_no_op() {
    let mut rig = Rig::new();
    rig.tick(Vec::new(), vec![PlanqEvent::new(PlanqEventType::BootStage(17))], true, 1000);
    assert_eq!(rig.planq.cpu_mode, PlanqCPUMode::Startup);
    assert_eq!(rig.planq.boot_stage, 17);
    assert!(rig.planq.proc_table.is_empty());
    assert_eq!(rig.log.len(), 0);
    rig.tick(Vec::new(), Vec::new(), true, 1000);
    assert_eq!(rig.log.len(), 0);
}

#[test]
fn working_mode_falls_back_to_idle() {
    let mut rig = Rig::new();
    rig.planq.power_is_on = true;
    rig.planq.cpu_mode = PlanqCPUMode::Working;
    rig.planq.proc_table = vec![PlanqProcess::new().time(1), PlanqProcess::new().time(2)];
    rig.tick(Vec::new(), Vec::new(), true, 100);
    assert_eq!(rig.planq.cpu_mode, PlanqCPUMode::Working);
    assert_eq!(rig.planq.proc_table[0].timer.elapsed_ms, 100);
    assert_eq!(rig.planq.proc_table[1].timer.elapsed_ms, 100);
    rig.planq.proc_table.pop();
    rig.tick(Vec::new(), Vec::new(), true, 100);
    assert_eq!(rig.planq.cpu_mode, PlanqCPUMode::Idle);
}

#[test]
fn finished_processes_keep_their_mark_until_reset() {
    let mut rig = Rig::new();
    rig.planq.proc_table = vec![PlanqProcess::new().time(1)];
    rig.tick(Vec::new(), Vec::new(), false, 1500);
    assert!(rig.planq.proc_table[0].timer.just_finished());
    rig.tick(Vec::new(), Vec::new(), false, 1500);
    rig.tick(Vec::new(), Vec::new(), false, 1500);
    assert!(rig.planq.proc_table[0].timer.finished());
    assert!(rig.planq.proc_table[0].timer.just_finished());
    assert_eq!(rig.planq.proc_table[0].timer.elapsed_ms, 1000);
}

#[test]
fn picking_up_the_device_starts_its_sources() {
    let mut rig = Rig::new();
    let carried = vec![(SNACK, Portable::new(PLAYER)), (PLANQ, Portable::new(PLAYER)), (EntityId::new(40, 0), Portable::new(ROBOT))];
    planq_system(
        &vec![event(GameEventType::ItemMove, PLAYER, PLANQ)],
        &Vec::new(),
        0,
        0,
        &mut rig.log,
        &mut rig.planq,
        &mut rig.monitor,
        PLAYER,
        PLANQ,
        false,
        &carried,
    );
    assert!(rig.planq.is_carried);
    assert_eq!(rig.planq.inventory_list, vec![SNACK, PLANQ]);
    let sources: Vec<String> = rig.monitor.timers.iter().map(|t| t.source.clone()).collect();
    assert_eq!(sources, vec!["planq_mode", "current_time", "planq_battery"]);
    assert!(rig.monitor.raw_data.is_empty());
    // somebody else picking something up changes nothing
    let mut other = Rig::new();
    planq_system(
        &vec![event(GameEventType::ItemMove, ROBOT, PLANQ), GameEvent::new(GameEventType::ItemMove, None, None)],
        &Vec::new(),
        0,
        0,
        &mut other.log,
        &mut other.planq,
        &mut other.monitor,
        PLAYER,
        PLANQ,
        false,
        &carried,
    );
    assert!(!other.planq.is_carried);
    assert!(other.planq.inventory_list.is_empty());
    assert!(other.monitor.timers.is_empty());
}

#[test]
fn dropping_the_device_is_noticed() {
    let mut rig = Rig::new();
    rig.planq.is_carried = true;
    rig.planq.inventory_list = vec![SNACK, PLANQ];
    let carried = vec![(SNACK, Portable::new(PLAYER))];
    planq_system(
        &vec![event(GameEventType::ItemDrop, PLAYER, PLANQ)],
        &Vec::new(),
        0,
        0,
        &mut rig.log,
        &mut rig.planq,
        &mut rig.monitor,
        PLAYER,
        PLANQ,
        false,
        &carried,
    );
    assert!(!rig.planq.is_carried);
    assert_eq!(rig.planq.inventory_list, vec![SNACK]);
    assert_eq!(carried_by(&carried, ROBOT), Vec::new());
}

#[test]
fn series_is_capped_at_31_samples() {
    let mut series: VecDeque<u64> = VecDeque::new();
    for v in 0..31u64 {
        push_capped(&mut series, v);
        assert_eq!(series.len() as u64, v + 1);
    }
    assert_eq!(series.front(), Some(&0));
    // the 32nd sample evicts the oldest
    push_capped(&mut series, 31);
    assert_eq!(series.len(), 31);
    assert_eq!(series.front(), Some(&1));
    assert_eq!(series.back(), Some(&31));
    for v in 32..100u64 {
        push_capped(&mut series, v);
        assert_eq!(series.len(), 31);
    }
    assert_eq!(series, (69..100u64).collect::<VecDeque<u64>>());
    // a series that is too long already is cut down
    let mut long: VecDeque<u64> = (0..50u64).collect();
    push_capped(&mut long, 50);
    assert_eq!(long, (20..51u64).collect::<VecDeque<u64>>());
}

#[test]
fn clock_text_formats() {
    assert_eq!(0u64.get_as_string(), "00:00:00.000");
    assert_eq!(2_096_000u64.get_as_string(), "00:34:56.000");
    assert_eq!(5_697_234u64.get_as_string(), "01:34:57.234");
    assert_eq!(45_296_789u64.get_as_string(), "12:34:56.789");
    assert_eq!(359_999_999u64.get_as_string(), "99:59:59.999");
    assert_eq!(360_000_000u64.get_as_string(), "100:00:00.000");
    assert_eq!(61_007u64.get_as_string(), "00:01:01.007");
    assert_eq!(u64::MAX.get_as_string(), "5124095576030:25:51.615");
    assert_eq!(1234u64.get_as_msecs(), 1234u128);
}

fn readings() -> Readings {
    Readings {
        cpu_mode: PlanqCPUMode::Idle,
        player_loc: Position::new(25, 30, 0),
        elapsed_ms: 3_601_234,
        batt_voltage: 77,
    }
}

fn value_of(monitor: &PlanqMonitor, name: &str) -> PlanqDataType {
    let at = monitor.find(&name.to_string()).unwrap();
    match &monitor.raw_data[at].value {
        PlanqDataType::Null => PlanqDataType::Null,
        PlanqDataType::Text(s) => PlanqDataType::Text(s.clone()),
        PlanqDataType::Percent(p) => PlanqDataType::Percent(*p),
        PlanqDataType::Decimal { numer, denom } => PlanqDataType::Decimal { numer: *numer, denom: *denom },
        PlanqDataType::Series(s) => PlanqDataType::Series(s.clone()),
    }
}

fn full_monitor() -> PlanqMonitor {
    let mut monitor = PlanqMonitor::new();
    for name in ["planq_mode", "player_location", "current_time", "planq_battery", "test_line", "test_gauge", "other"] {
        monitor.insert(name.to_string(), PlanqDataType::Null);
    }
    monitor.insert("test_sparkline".to_string(), PlanqDataType::Series(VecDeque::new()));
    monitor
}

#[test]
fn sources_sample_their_readings() {
    let mut monitor = full_monitor();
    let r = readings();
    monitor.sample_source(&"planq_mode".to_string(), &r, Draw::Nothing);
    monitor.sample_source(&"player_location".to_string(), &r, Draw::Nothing);
    monitor.sample_source(&"current_time".to_string(), &r, Draw::Nothing);
    monitor.sample_source(&"planq_battery".to_string(), &r, Draw::Nothing);
    monitor.sample_source(&"test_line".to_string(), &r, Draw::Line(42));
    monitor.sample_source(&"test_gauge".to_string(), &r, Draw::Gauge(100));
    monitor.sample_source(&"test_sparkline".to_string(), &r, Draw::Spark(9));
    monitor.sample_source(&"test_sparkline".to_string(), &r, Draw::Spark(3));
    monitor.sample_source(&"other".to_string(), &r, Draw::Nothing);
    assert_eq!(value_of(&monitor, "planq_mode"), PlanqDataType::Text("Idle".to_string()));
    assert_eq!(value_of(&monitor, "player_location"), PlanqDataType::Text("25, 30, 0".to_string()));
    assert_eq!(value_of(&monitor, "current_time"), PlanqDataType::Text("01:34:57.234".to_string()));
    assert_eq!(value_of(&monitor, "planq_battery"), PlanqDataType::Percent(77));
    assert_eq!(value_of(&monitor, "test_line"), PlanqDataType::Decimal { numer: 42, denom: 100 });
    assert_eq!(value_of(&monitor, "test_gauge"), PlanqDataType::Percent(100));
    assert_eq!(value_of(&monitor, "test_sparkline"), PlanqDataType::Series(VecDeque::from(vec![9, 3])));
    assert_eq!(value_of(&monitor, "other"), PlanqDataType::Null);
    assert_eq!(monitor.raw_data.len(), 8);
}

#[test]
fn sampling_ignores_sources_that_are_not_in_the_store() {
    let mut monitor = PlanqMonitor::new();
    let r = readings();
    for name in ["planq_mode", "player_location", "current_time", "planq_battery", "test_line", "test_sparkline", "test_gauge"] {
        monitor.sample_source(&name.to_string(), &r, Draw::Spark(1));
    }
    assert!(monitor.raw_data.is_empty());
    // a draw of the wrong kind is not used
    let mut full = full_monitor();
    full.sample_source(&"test_line".to_string(), &r, Draw::Gauge(5));
    full.sample_source(&"test_gauge".to_string(), &r, Draw::Nothing);
    assert_eq!(value_of(&full, "test_line"), PlanqDataType::Null);
    assert_eq!(value_of(&full, "test_gauge"), PlanqDataType::Null);
    // a sparkline whose entry is no series is left alone
    full.insert("test_sparkline".to_string(), PlanqDataType::Percent(1));
    full.sample_source(&"test_sparkline".to_string(), &r, Draw::Spark(4));
    assert_eq!(value_of(&full, "test_sparkline"), PlanqDataType::Percent(1));
}

#[test]
fn negative_battery_shows_as_zero_and_clock_saturates() {
    let mut monitor = full_monitor();
    let r = Readings { cpu_mode: PlanqCPUMode::Error(3), player_loc: Position::new(-1, -1, -1), elapsed_ms: u64::MAX, batt_voltage: -5 };
    monitor.sample_source(&"planq_battery".to_string(), &r, Draw::Nothing);
    monitor.sample_source(&"current_time".to_string(), &r, Draw::Nothing);
    monitor.sample_source(&"planq_mode".to_string(), &r, Draw::Nothing);
    assert_eq!(value_of(&monitor, "planq_battery"), PlanqDataType::Percent(0));
    assert_eq!(value_of(&monitor, "current_time"), PlanqDataType::Text("5124095576030:25:51.615".to_string()));
    assert_eq!(value_of(&monitor, "planq_mode"), PlanqDataType::Text("Error".to_string()));
}

#[test]
fn insert_and_modify() {
    let mut monitor = PlanqMonitor::new();
    monitor.modify("a".to_string(), PlanqDataType::Percent(1));
    assert!(monitor.raw_data.is_empty());
    monitor.insert("a".to_string(), PlanqDataType::Percent(1));
    monitor.insert("b".to_string(), PlanqDataType::Percent(2));
    monitor.insert("a".to_string(), PlanqDataType::Percent(3));
    monitor.modify("b".to_string(), PlanqDataType::Text("x".to_string()));
    assert_eq!(monitor.raw_data.len(), 2);
    assert_eq!(value_of(&monitor, "a"), PlanqDataType::Percent(3));
    assert_eq!(value_of(&monitor, "b"), PlanqDataType::Text("x".to_string()));
    assert_eq!(monitor.find(&"c".to_string()), None);
    monitor.add_status_bar("a".to_string());
    assert_eq!(monitor.status_bars, vec!["a".to_string()]);
    monitor.push_sample(&"a".to_string(), 5);
    assert_eq!(value_of(&monitor, "a"), PlanqDataType::Percent(3));
}

#[test]
fn sample_timers_tick_then_fire_then_start_over() {
    let mut monitor = full_monitor();
    monitor.timers.push(DataSampleTimer::new().source("planq_battery".to_string()));
    monitor.timers.push(DataSampleTimer::new().duration(2).source("planq_mode".to_string()));
    let mut planq = PlanqData::new();
    planq.cpu_mode = PlanqCPUMode::Working;
    let mut log = MessageLog::new();
    log.tell_planq("hello".to_string());
    log.tell_player("not for the device".to_string());
    log.tell_planq("world".to_string());
    let mut rng = RngComponent::with_seed(7);
    let here = Position::new(4, 5, 6);
    // first pass: both timers advance
    planq_monitor_system(1000, 1000, &log, &mut planq, &mut monitor, here, 55, &mut rng);
    assert_eq!(planq.player_loc, here);
    let seen: Vec<String> = planq.stdout.iter().map(|m| m.text.clone()).collect();
    assert_eq!(seen, vec!["hello", "world"]);
    assert!(monitor.timers[0].timer.finished());
    assert!(!monitor.timers[1].timer.finished());
    assert_eq!(value_of(&monitor, "planq_battery"), PlanqDataType::Null);
    // second pass: the first samples and starts over, the second runs out
    planq_monitor_system(2000, 1000, &log, &mut planq, &mut monitor, here, 55, &mut rng);
    assert_eq!(value_of(&monitor, "planq_battery"), PlanqDataType::Percent(55));
    assert_eq!(monitor.timers[0].timer, Timer::new(1000));
    assert!(monitor.timers[1].timer.finished());
    assert_eq!(value_of(&monitor, "planq_mode"), PlanqDataType::Null);
    // third pass: the second samples
    planq_monitor_system(3000, 1000, &log, &mut planq, &mut monitor, here, 54, &mut rng);
    assert_eq!(value_of(&monitor, "planq_mode"), PlanqDataType::Text("Working".to_string()));
    assert_eq!(monitor.timers[1].timer, Timer::new(2000));
    assert_eq!(monitor.timers[0].timer.elapsed_ms, 1000);
    assert_eq!(value_of(&monitor, "planq_battery"), PlanqDataType::Percent(55));
}

#[test]
fn random_sources_stay_in_their_ranges() {
    let mut monitor = full_monitor();
    for name in ["test_line", "test_sparkline", "test_gauge"] {
        monitor.timers.push(DataSampleTimer::new().duration(0).source(name.to_string()));
    }
    let mut planq = PlanqData::new();
    let log = MessageLog::new();
    let mut rng = RngComponent::with_seed(12345);
    let mut lines = Vec::new();
    let mut gauges = Vec::new();
    for pass in 0..400u64 {
        planq_monitor_system(pass, 1, &log, &mut planq, &mut monitor, Position::new(0, 0, 0), 0, &mut rng);
        if let PlanqDataType::Decimal { numer, denom } = value_of(&monitor, "test_line") {
            assert!((0..100).contains(&numer));
            assert_eq!(denom, 100);
            lines.push(numer);
        }
        if let PlanqDataType::Percent(p) = value_of(&monitor, "test_gauge") {
            assert!(p <= 100);
            gauges.push(p);
        }
    }
    // a timer of no duration runs out on every other pass
    assert_eq!(lines.len(), 399);
    assert!(lines.iter().any(|v| *v != lines[0]));
    assert!(lines.iter().any(|v| *v > 0));
    assert!(gauges.iter().any(|v| *v != gauges[0]));
    match value_of(&monitor, "test_sparkline") {
        PlanqDataType::Series(s) => {
            assert_eq!(s.len(), 31);
            assert!(s.iter().all(|v| *v < 10));
            assert!(s.iter().any(|v| *v != s[0]));
        }
        other => panic!("no series: {:?}", other),
    }
}

#[test]
fn draws_match_their_sources() {
    let mut rng = RngComponent::with_seed(99);
    let mut sparks = Vec::new();
    for _ in 0..200 {
        match draw_for(&mut rng, &"test_line".to_string()) {
            Draw::Line(v) => assert!((0..100).contains(&v)),
            other => panic!("wrong draw {:?}", other),
        }
        match draw_for(&mut rng, &"test_sparkline".to_string()) {
            Draw::Spark(v) => {
                assert!(v < 10);
                sparks.push(v);
            }
            other => panic!("wrong draw {:?}", other),
        }
        match draw_for(&mut rng, &"test_gauge".to_string()) {
            Draw::Gauge(v) => assert!(v <= 100),
            other => panic!("wrong draw {:?}", other),
        }
        assert_eq!(draw_for(&mut rng, &"planq_mode".to_string()), Draw::Nothing);
        assert_eq!(draw_for(&mut rng, &"whatever".to_string()), Draw::Nothing);
    }
    assert!(sparks.iter().any(|v| *v != 0));
    assert!(sparks.iter().any(|v| *v != sparks[0]));
}
