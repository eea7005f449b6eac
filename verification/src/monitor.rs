//! The status monitor: named data sources, each sampled when its own timer
//! runs out, feeding a store of typed values for display.

use vstd::prelude::*;
use vstd::string::*;
use std::collections::VecDeque;
use bevy_turborand::prelude::RngComponent;
use bevy_turborand::DelegatedRng;
use crate::messagelog::channel_lines;
use crate::messagelog::MessageLog;
use crate::planq::PlanqCPUMode;
use crate::planq::PlanqData;
use crate::position::Position;
use crate::text::push_padded2;
use crate::text::push_padded3;
use crate::text::spec_zero_padded;
use crate::timer::Timer;

verus! {

/// The most samples that a rolling series holds.
pub const SERIES_CAP: usize = 31;

/// The value of a data source.
#[derive(Debug, PartialEq, Eq)]
pub enum PlanqDataType {
    Null,
    Text(String),
    Percent(u32),
    Decimal { numer: i32, denom: i32 },
    Series(VecDeque<u64>),
}

/// The value of a data source, as mathematical values.
pub enum DataValue {
    Null,
    Text(Seq<char>),
    Percent(u32),
    Decimal { numer: i32, denom: i32 },
    Series(Seq<u64>),
}

impl View for PlanqDataType {
    type V = DataValue;

    open spec fn view(&self) -> DataValue {
        match self {
            PlanqDataType::Null => DataValue::Null,
            PlanqDataType::Text(s) => DataValue::Text(s@),
            PlanqDataType::Percent(p) => DataValue::Percent(*p),
            PlanqDataType::Decimal { numer, denom } => DataValue::Decimal {
                numer: *numer,
                denom: *denom,
            },
            PlanqDataType::Series(s) => DataValue::Series(s@),
        }
    }
}

/// A data source's name and its latest value.
#[derive(Debug)]
pub struct DataEntry {
    pub name: String,
    pub value: PlanqDataType,
}

/// A data source's name and its latest value, as mathematical values.
pub struct DataEntryView {
    pub name: Seq<char>,
    pub value: DataValue,
}

impl View for DataEntry {
    type V = DataEntryView;

    open spec fn view(&self) -> DataEntryView {
        DataEntryView { name: self.name@, value: self.value@ }
    }
}

/// The timer of one data source.
#[derive(Debug)]
pub struct DataSampleTimer {
    pub timer: Timer,
    pub source: String,
}

/// The timer of one data source, as mathematical values.
pub struct SampleTimerView {
    pub timer: Timer,
    pub source: Seq<char>,
}

impl View for DataSampleTimer {
    type V = SampleTimerView;

    open spec fn view(&self) -> SampleTimerView {
        SampleTimerView { timer: self.timer, source: self.source@ }
    }
}

impl DataSampleTimer {
    /// A timer of one second for a source without a name.
    pub fn new() -> (t: DataSampleTimer)
        ensures
            t@ == (SampleTimerView { timer: Timer::spec_new(1000), source: Seq::empty() }),
    {
        DataSampleTimer { timer: Timer::new(1000), source: String::new() }
    }

    /// The timer with its duration replaced, started over.
    pub fn duration(self, secs: u64) -> (t: DataSampleTimer)
        ensures
            t@ == (SampleTimerView {
                timer: Timer::spec_new(Timer::spec_secs_to_ms(secs)),
                source: self.source@,
            }),
    {
        DataSampleTimer { timer: Timer::from_secs(secs), source: self.source }
    }

    /// The timer with the name of its source replaced.
    pub fn source(self, name: String) -> (t: DataSampleTimer)
        ensures
            t@ == (SampleTimerView { timer: self.timer, source: name@ }),
    {
        DataSampleTimer { timer: self.timer, source: name }
    }
}

/// The status monitor: the sources that have a status bar, in display order;
/// the store of latest values; and the timers of the sources.
#[derive(Debug)]
pub struct PlanqMonitor {
    pub status_bars: Vec<String>,
    pub raw_data: Vec<DataEntry>,
    pub timers: Vec<DataSampleTimer>,
}

/// The status monitor, as mathematical values.
pub struct MonitorView {
    pub status_bars: Seq<Seq<char>>,
    pub raw_data: Seq<DataEntryView>,
    pub timers: Seq<SampleTimerView>,
}

impl View for PlanqMonitor {
    type V = MonitorView;

    open spec fn view(&self) -> MonitorView {
        MonitorView {
            status_bars: self.status_bars@.map_values(|s: String| s@),
            raw_data: self.raw_data@.map_values(|e: DataEntry| e@),
            timers: self.timers@.map_values(|t: DataSampleTimer| t@),
        }
    }
}

/// The index of the first of the first `n` entries with the given name, or
/// -1 if none of them has it.
pub open spec fn entry_of(entries: Seq<DataEntryView>, n: int, name: Seq<char>) -> int
    decreases n,
{
    if n <= 0 {
        -1
    } else {
        let earlier = entry_of(entries, n - 1, name);
        if earlier >= 0 {
            earlier
        } else if entries[n - 1].name == name {
            n - 1
        } else {
            -1
        }
    }
}

/// The store after setting the value of `name`, which is added if the store
/// does not have it.
pub open spec fn spec_insert(entries: Seq<DataEntryView>, name: Seq<char>, value: DataValue) -> Seq<
    DataEntryView,
> {
    let at = entry_of(entries, entries.len() as int, name);
    if at < 0 {
        entries.push(DataEntryView { name, value })
    } else {
        entries.update(at, DataEntryView { name, value })
    }
}

/// The store after setting the value of `name` if the store has it; a store
/// without the name is left as it is.
pub open spec fn spec_modify(entries: Seq<DataEntryView>, name: Seq<char>, value: DataValue) -> Seq<
    DataEntryView,
> {
    let at = entry_of(entries, entries.len() as int, name);
    if at < 0 {
        entries
    } else {
        entries.update(at, DataEntryView { name, value })
    }
}

/// A rolling series after a sample is pushed: the sample goes to the end,
/// and only the newest 31 samples are kept.
pub open spec fn spec_push_capped(series: Seq<u64>, sample: u64) -> Seq<u64> {
    let longer = series.push(sample);
    if longer.len() > SERIES_CAP {
        longer.subrange(longer.len() - SERIES_CAP, longer.len() as int)
    } else {
        longer
    }
}

/// A rolling series that holds at most 31 samples still does after a push:
/// below the cap it only grows by the sample, and at the cap the push evicts
/// the oldest sample.
pub proof fn lemma_series_stays_capped(series: Seq<u64>, sample: u64)
    requires
        series.len() <= SERIES_CAP,
    ensures
        spec_push_capped(series, sample).len() <= SERIES_CAP,
        spec_push_capped(series, sample).last() == sample,
        series.len() < SERIES_CAP ==> spec_push_capped(series, sample) == series.push(sample),
        series.len() == SERIES_CAP ==> spec_push_capped(series, sample) == series.drop_first().push(
            sample,
        ),
{
}

/// Pushes a sample onto a rolling series and evicts the oldest samples until
/// no more than 31 are left.
pub fn push_capped(series: &mut VecDeque<u64>, sample: u64)
    ensures
        final(series)@ == spec_push_capped(old(series)@, sample),
        final(series)@.len() <= SERIES_CAP,
{
    series.push_back(sample);
    let ghost longer = series@;
    while series.len() > SERIES_CAP
        invariant
            series@.len() <= longer.len(),
            series@.len() >= SERIES_CAP || series@.len() == longer.len(),
            series@ == longer.subrange(longer.len() - series@.len(), longer.len() as int),
        decreases series.len(),
    {
        series.pop_front();
    }
}

/// The time of day that a clock shows after `ms` milliseconds: hours,
/// minutes and seconds of two digits each, the hours more if they need them,
/// and milliseconds of three, as `HH:MM:SS.mmm`.
pub open spec fn spec_clock_text(ms: nat) -> Seq<char> {
    let secs = ms / 1000;
    spec_zero_padded(secs / 3600, 2) + ":"@ + spec_zero_padded((secs % 3600) / 60, 2) + ":"@
        + spec_zero_padded(secs % 60, 2) + "."@ + spec_zero_padded(ms % 1000, 3)
}

/// Shorthand for spans of time.
pub trait DurationFmtExt {
    /// The span as a number of milliseconds.
    spec fn spec_msecs(self) -> nat;

    /// The span as a clock would show it, `HH:MM:SS.mmm`.
    fn get_as_string(self) -> (s: String)
        ensures
            s@ == spec_clock_text(self.spec_msecs()),
    ;

    /// The span as a number of milliseconds.
    fn get_as_msecs(self) -> (ms: u128)
        ensures
            ms == self.spec_msecs(),
    ;
}

/// A span of time given in milliseconds.
impl DurationFmtExt for u64 {
    open spec fn spec_msecs(self) -> nat {
        self as nat
    }

    fn get_as_string(self) -> (s: String) {
        let secs = self / 1000;
        let mut s = String::new();
        push_padded2(&mut s, secs / 3600);
        s.append(":");
        push_padded2(&mut s, (secs % 3600) / 60);
        s.append(":");
        push_padded2(&mut s, secs % 60);
        s.append(".");
        push_padded3(&mut s, self % 1000);
        s
    }

    fn get_as_msecs(self) -> (ms: u128) {
        self as u128
    }
}

/// What the sources of the monitor read when they are sampled.
#[derive(Clone, Copy, Debug, PartialEq, Eq, Structural)]
pub struct Readings {
    pub cpu_mode: PlanqCPUMode,
    pub player_loc: Position,
    /// The time since the start of the simulation, in milliseconds.
    pub elapsed_ms: u64,
    pub batt_voltage: i32,
}

/// The time at which the ship's clock started, in milliseconds after
/// midnight.
pub const CLOCK_START_MS: u64 = 2096000;

/// A number taken from the random number generator for a placeholder source.
#[derive(Clone, Copy, Debug, PartialEq, Eq, Structural)]
pub enum Draw {
    /// The source needs no random number.
    Nothing,
    /// A numerator for `test_line`.
    Line(i32),
    /// A sample for `test_sparkline`.
    Spark(u64),
    /// A percentage for `test_gauge`.
    Gauge(u32),
}

/// Whether `draw` is a draw that the source of the given name takes: a
/// numerator below 100, a sample below 10, a percentage up to 100, or
/// nothing for a source that is not random.
pub open spec fn draw_fits(source: Seq<char>, draw: Draw) -> bool {
    if source == "test_line"@ {
        draw matches Draw::Line(v) && 0 <= v < 100
    } else if source == "test_sparkline"@ {
        draw matches Draw::Spark(v) && v < 10
    } else if source == "test_gauge"@ {
        draw matches Draw::Gauge(v) && v <= 100
    } else {
        draw is Nothing
    }
}

/// The clock reading that `current_time` shows, held to the range of the
/// type.
pub open spec fn spec_clock_ms(elapsed_ms: u64) -> u64 {
    if elapsed_ms + CLOCK_START_MS > u64::MAX {
        u64::MAX
    } else {
        (elapsed_ms + CLOCK_START_MS) as u64
    }
}

/// The charge of the battery as a percentage: a charge below zero shows as 0.
pub open spec fn spec_battery_percent(batt_voltage: i32) -> u32 {
    if batt_voltage < 0 {
        0
    } else {
        batt_voltage as u32
    }
}

/// The store after a sample is pushed onto the rolling series of `name`; a
/// store that lacks the name or holds no series for it is left as it is.
pub open spec fn spec_series_pushed(entries: Seq<DataEntryView>, name: Seq<char>, sample: u64) -> Seq<
    DataEntryView,
> {
    let at = entry_of(entries, entries.len() as int, name);
    if at < 0 {
        entries
    } else {
        match entries[at].value {
            DataValue::Series(s) => entries.update(
                at,
                DataEntryView { name, value: DataValue::Series(spec_push_capped(s, sample)) },
            ),
            _ => entries,
        }
    }
}

/// The store after the source `source` is sampled.
///
/// A sample replaces the value of a source that the store has and does
/// nothing for one that it lacks. `planq_mode`, `player_location` and
/// `current_time` give text; `planq_battery` and `test_gauge` a percentage;
/// `test_line` hundredths; `test_sparkline` pushes onto the rolling series
/// that the store holds for it. A name that is none of these is not sampled.
pub open spec fn spec_sampled(
    entries: Seq<DataEntryView>,
    source: Seq<char>,
    readings: Readings,
    draw: Draw,
) -> Seq<DataEntryView> {
    if source == "planq_mode"@ {
        spec_modify(entries, source, DataValue::Text(readings.cpu_mode.spec_name()))
    } else if source == "player_location"@ {
        spec_modify(entries, source, DataValue::Text(readings.player_loc.spec_text()))
    } else if source == "current_time"@ {
        spec_modify(
            entries,
            source,
            DataValue::Text(spec_clock_text(spec_clock_ms(readings.elapsed_ms) as nat)),
        )
    } else if source == "planq_battery"@ {
        spec_modify(
            entries,
            source,
            DataValue::Percent(spec_battery_percent(readings.batt_voltage)),
        )
    } else if source == "test_line"@ {
        match draw {
            Draw::Line(v) => spec_modify(entries, source, DataValue::Decimal { numer: v, denom: 100 }),
            _ => entries,
        }
    } else if source == "test_sparkline"@ {
        match draw {
            Draw::Spark(v) => spec_series_pushed(entries, source, v),
            _ => entries,
        }
    } else if source == "test_gauge"@ {
        match draw {
            Draw::Gauge(v) => spec_modify(entries, source, DataValue::Percent(v)),
            _ => entries,
        }
    } else {
        entries
    }
}

/// The monitor after the timer at index `k` had its turn: a timer that has
/// run out samples its source and starts over, any other timer advances.
pub open spec fn spec_timer_turn(
    m: MonitorView,
    k: int,
    readings: Readings,
    delta_ms: u64,
    draw: Draw,
) -> MonitorView {
    if m.timers[k].timer.finished {
        MonitorView {
            raw_data: spec_sampled(m.raw_data, m.timers[k].source, readings, draw),
            timers: m.timers.update(
                k,
                SampleTimerView { timer: m.timers[k].timer.spec_reset(), ..m.timers[k] },
            ),
            ..m
        }
    } else {
        MonitorView {
            timers: m.timers.update(
                k,
                SampleTimerView { timer: m.timers[k].timer.spec_tick(delta_ms), ..m.timers[k] },
            ),
            ..m
        }
    }
}

/// The monitor after the first `n` timers had their turn, in order, with
/// `draws[k]` the draw for the timer at index `k`.
pub open spec fn spec_monitor_run(
    m: MonitorView,
    n: int,
    readings: Readings,
    delta_ms: u64,
    draws: Seq<Draw>,
) -> MonitorView
    decreases n,
{
    if n <= 0 {
        m
    } else {
        spec_timer_turn(
            spec_monitor_run(m, n - 1, readings, delta_ms, draws),
            n - 1,
            readings,
            delta_ms,
            draws[n - 1],
        )
    }
}

/// Whether each of the first `n` draws whose timer has run out is one that
/// the source of the timer takes.
pub open spec fn draws_fit(timers: Seq<SampleTimerView>, draws: Seq<Draw>, n: int) -> bool {
    forall|k: int|
        0 <= k < n && timers[k].timer.finished ==> draw_fits(timers[k].source, #[trigger] draws[k])
}

/// `RngComponent` of bevy_turborand: a random number generator that an
/// entity carries. Nothing is known of what is inside it.
#[verifier::external_type_specification]
#[verifier::external_body]
pub struct ExRngComponent(RngComponent);

/// `DelegatedRng::i32` of bevy_turborand on a half-open range: for a range
/// that is not empty, the number that comes back lies in it.
#[verifier::external_body]
fn draw_i32(rng: &mut RngComponent, lower: i32, upper: i32) -> (value: i32)
    requires
        lower < upper,
    ensures
        lower <= value < upper,
{
    rng.i32(lower..upper)
}

/// `DelegatedRng::u64` of bevy_turborand on a half-open range: for a range
/// that is not empty, the number that comes back lies in it.
#[verifier::external_body]
fn draw_u64(rng: &mut RngComponent, lower: u64, upper: u64) -> (value: u64)
    requires
        lower < upper,
    ensures
        lower <= value < upper,
{
    rng.u64(lower..upper)
}

/// `DelegatedRng::u32` of bevy_turborand on a closed range: for a range that
/// is not empty, the number that comes back lies in it.
#[verifier::external_body]
fn draw_u32_inclusive(rng: &mut RngComponent, lower: u32, upper: u32) -> (value: u32)
    requires
        lower <= upper,
    ensures
        lower <= value <= upper,
{
    rng.u32(lower..=upper)
}

/// Takes from the generator the number that the source of the given name
/// needs, if it needs one.
pub fn draw_for(rng: &mut RngComponent, source: &String) -> (draw: Draw)
    ensures
        draw_fits(source@, draw),
{
    if *source == String::from_str("test_line") {
        Draw::Line(draw_i32(rng, 0, 100))
    } else if *source == String::from_str("test_sparkline") {
        Draw::Spark(draw_u64(rng, 0, 10))
    } else if *source == String::from_str("test_gauge") {
        Draw::Gauge(draw_u32_inclusive(rng, 0, 100))
    } else {
        Draw::Nothing
    }
}

proof fn lemma_entry_found(entries: Seq<DataEntryView>, at: int, n: int, name: Seq<char>)
    requires
        0 <= at < n <= entries.len(),
        entry_of(entries, at, name) < 0,
        entries[at].name == name,
    ensures
        entry_of(entries, n, name) == at,
    decreases n,
{
    if n > at + 1 {
        lemma_entry_found(entries, at, n - 1, name);
    }
}

impl PlanqMonitor {
    /// A monitor without sources.
    pub fn new() -> (m: PlanqMonitor)
        ensures
            m@ == (MonitorView {
                status_bars: Seq::empty(),
                raw_data: Seq::empty(),
                timers: Seq::empty(),
            }),
    {
        let m = PlanqMonitor { status_bars: Vec::new(), raw_data: Vec::new(), timers: Vec::new() };
        assert(m@.status_bars =~= Seq::empty());
        assert(m@.raw_data =~= Seq::empty());
        assert(m@.timers =~= Seq::empty());
        m
    }

    /// The index of the entry of `name` in the store, if it has one.
    pub fn find(&self, name: &String) -> (at: Option<usize>)
        ensures
            at.is_none() == (entry_of(self@.raw_data, self@.raw_data.len() as int, name@) < 0),
            at matches Some(i) ==> i < self.raw_data@.len() && i == entry_of(
                self@.raw_data,
                self@.raw_data.len() as int,
                name@,
            ) && self@.raw_data[i as int].name == name@,
    {
        let mut i: usize = 0;
        while i < self.raw_data.len()
            invariant
                i <= self.raw_data.len(),
                entry_of(self@.raw_data, i as int, name@) < 0,
            decreases self.raw_data.len() - i,
        {
            if self.raw_data[i].name == *name {
                proof {
                    lemma_entry_found(
                        self@.raw_data,
                        i as int,
                        self@.raw_data.len() as int,
                        name@,
                    );
                }
                return Some(i);
            }
            i += 1;
        }
        None
    }

    /// Sets the value of a source, adding the source to the store if it is
    /// not there.
    pub fn insert(&mut self, name: String, value: PlanqDataType)
        ensures
            final(self)@ == (MonitorView {
                raw_data: spec_insert(old(self)@.raw_data, name@, value@),
                ..old(self)@
            }),
    {
        let ghost entry = DataEntryView { name: name@, value: value@ };
        match self.find(&name) {
            Some(at) => {
                self.raw_data.set(at, DataEntry { name, value });
                assert(self@.raw_data =~= old(self)@.raw_data.update(at as int, entry));
            },
            None => {
                self.raw_data.push(DataEntry { name, value });
                assert(self@.raw_data =~= old(self)@.raw_data.push(entry));
            },
        }
    }

    /// Sets the value of a source that the store has; does nothing for a
    /// source that it lacks.
    pub fn modify(&mut self, name: String, value: PlanqDataType)
        ensures
            final(self)@ == (MonitorView {
                raw_data: spec_modify(old(self)@.raw_data, name@, value@),
                ..old(self)@
            }),
    {
        let ghost entry = DataEntryView { name: name@, value: value@ };
        match self.find(&name) {
            Some(at) => {
                self.raw_data.set(at, DataEntry { name, value });
                assert(self@.raw_data =~= old(self)@.raw_data.update(at as int, entry));
            },
            None => {},
        }
    }

    /// Adds a status bar for a source, after the ones that are there.
    pub fn add_status_bar(&mut self, name: String)
        ensures
            final(self)@ == (MonitorView {
                status_bars: old(self)@.status_bars.push(name@),
                ..old(self)@
            }),
    {
        self.status_bars.push(name);
        assert(self@.status_bars =~= old(self)@.status_bars.push(name@));
    }

    /// Adds a timer of one second for a source, after the ones that are
    /// there.
    pub fn add_timer(&mut self, source: String)
        ensures
            final(self)@ == (MonitorView {
                timers: old(self)@.timers.push(
                    SampleTimerView { timer: Timer::spec_new(1000), source: source@ },
                ),
                ..old(self)@
            }),
    {
        let timer = DataSampleTimer::new().source(source);
        self.timers.push(timer);
        assert(self@.timers =~= old(self)@.timers.push(
            SampleTimerView { timer: Timer::spec_new(1000), source: source@ },
        ));
    }

    /// Pushes a sample onto the rolling series of a source. Does nothing if
    /// the store lacks the source or holds no series for it.
    pub fn push_sample(&mut self, name: &String, sample: u64)
        ensures
            final(self)@ == (MonitorView {
                raw_data: spec_series_pushed(old(self)@.raw_data, name@, sample),
                ..old(self)@
            }),
    {
        match self.find(name) {
            Some(at) => {
                let ghost before = self@.raw_data;
                match &mut self.raw_data[at].value {
                    PlanqDataType::Series(series) => {
                        push_capped(series, sample);
                    },
                    _ => {},
                }
                proof {
                    match before[at as int].value {
                        DataValue::Series(s) => {
                            assert(self@.raw_data =~= before.update(
                                at as int,
                                DataEntryView {
                                    name: name@,
                                    value: DataValue::Series(spec_push_capped(s, sample)),
                                },
                            ));
                        },
                        _ => {
                            assert(self@.raw_data =~= before);
                        },
                    }
                }
            },
            None => {},
        }
    }

    /// Samples the source of the given name into the store.
    pub fn sample_source(&mut self, source: &String, readings: &Readings, draw: Draw)
        ensures
            final(self)@ == (MonitorView {
                raw_data: spec_sampled(old(self)@.raw_data, source@, *readings, draw),
                ..old(self)@
            }),
    {
        if *source == String::from_str("planq_mode") {
            let text = String::from_str(readings.cpu_mode.name());
            self.modify(source.clone(), PlanqDataType::Text(text));
        } else if *source == String::from_str("player_location") {
            self.modify(source.clone(), PlanqDataType::Text(readings.player_loc.to_text()));
        } else if *source == String::from_str("current_time") {
            let now: u64 = if readings.elapsed_ms > u64::MAX - CLOCK_START_MS {
                u64::MAX
            } else {
                readings.elapsed_ms + CLOCK_START_MS
            };
            self.modify(source.clone(), PlanqDataType::Text(now.get_as_string()));
        } else if *source == String::from_str("planq_battery") {
            let percent: u32 = if readings.batt_voltage < 0 {
                0
            } else {
                readings.batt_voltage as u32
            };
            self.modify(source.clone(), PlanqDataType::Percent(percent));
        } else if *source == String::from_str("test_line") {
            match draw {
                Draw::Line(v) => {
                    self.modify(source.clone(), PlanqDataType::Decimal { numer: v, denom: 100 });
                },
                _ => {},
            }
        } else if *source == String::from_str("test_sparkline") {
            match draw {
                Draw::Spark(v) => {
                    self.push_sample(source, v);
                },
                _ => {},
            }
        } else if *source == String::from_str("test_gauge") {
            match draw {
                Draw::Gauge(v) => {
                    self.modify(source.clone(), PlanqDataType::Percent(v));
                },
                _ => {},
            }
        }
    }
}

/// Refreshes the monitor: copies the device's transcript and the player's
/// position into the device's data, then gives every source timer its turn.
/// A timer that has run out samples its source and starts over; any other
/// timer advances by `delta_ms`. The random sources take their numbers from
/// `rng`: the monitor ends up as some draws that fit the sources make it.
pub fn planq_monitor_system(
    elapsed_ms: u64,
    delta_ms: u64,
    msglog: &MessageLog,
    planq: &mut PlanqData,
    monitor: &mut PlanqMonitor,
    player_posn: Position,
    batt_voltage: i32,
    rng: &mut RngComponent,
)
    ensures
        final(planq)@ == (crate::planq::PlanqView {
            stdout: channel_lines(msglog@, msglog@.len() as int, "planq"@),
            player_loc: player_posn,
            ..old(planq)@
        }),
        exists|draws: Seq<Draw>|
            {
                &&& draws.len() == old(monitor)@.timers.len()
                &&& draws_fit(old(monitor)@.timers, draws, draws.len() as int)
                &&& final(monitor)@ == spec_monitor_run(
                    old(monitor)@,
                    old(monitor)@.timers.len() as int,
                    Readings {
                        cpu_mode: old(planq).cpu_mode,
                        player_loc: player_posn,
                        elapsed_ms,
                        batt_voltage,
                    },
                    delta_ms,
                    draws,
                )
            },
{
    planq.stdout = msglog.get_log_as_messages(String::from_str("planq"), 0);
    planq.player_loc = player_posn;
    let readings = Readings {
        cpu_mode: planq.cpu_mode,
        player_loc: player_posn,
        elapsed_ms,
        batt_voltage,
    };
    let ghost start = monitor@;
    let ghost mut draws: Seq<Draw> = Seq::empty();
    let count = monitor.timers.len();
    let mut k: usize = 0;
    while k < count
        invariant
            k <= count,
            count == start.timers.len(),
            monitor@.timers.len() == count,
            draws.len() == k,
            draws_fit(start.timers, draws, k as int),
            forall|j: int| k <= j < count ==> #[trigger] monitor@.timers[j] == start.timers[j],
            monitor@ == spec_monitor_run(start, k as int, readings, delta_ms, draws),
        decreases count - k,
    {
        let ghost before = monitor@;
        let ghost earlier = draws;
        let mut draw = Draw::Nothing;
        if monitor.timers[k].timer.finished() {
            let source = monitor.timers[k].source.clone();
            draw = draw_for(rng, &source);
            monitor.sample_source(&source, &readings, draw);
            monitor.timers[k].timer.reset();
            assert(monitor@.timers =~= before.timers.update(
                k as int,
                SampleTimerView {
                    timer: before.timers[k as int].timer.spec_reset(),
                    ..before.timers[k as int]
                },
            ));
        } else {
            monitor.timers[k].timer.tick(delta_ms);
            assert(monitor@.timers =~= before.timers.update(
                k as int,
                SampleTimerView {
                    timer: before.timers[k as int].timer.spec_tick(delta_ms),
                    ..before.timers[k as int]
                },
            ));
        }
        proof {
            draws = earlier.push(draw);
            lemma_run_ignores_later_draws(start, k as int, readings, delta_ms, earlier, draws);
        }
        k += 1;
    }
}

/// What the first `n` timers make of the monitor depends on the first `n`
/// draws only.
proof fn lemma_run_ignores_later_draws(
    m: MonitorView,
    n: int,
    readings: Readings,
    delta_ms: u64,
    a: Seq<Draw>,
    b: Seq<Draw>,
)
    requires
        0 <= n <= a.len(),
        n <= b.len(),
        forall|k: int| 0 <= k < n ==> a[k] == b[k],
    ensures
        spec_monitor_run(m, n, readings, delta_ms, a) == spec_monitor_run(
            m,
            n,
            readings,
            delta_ms,
            b,
        ),
    decreases n,
{
    if n > 0 {
        lemma_run_ignores_later_draws(m, n - 1, readings, delta_ms, a, b);
    }
}

} // verus!
