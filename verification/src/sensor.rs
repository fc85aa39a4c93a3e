//! The door sensor: what the line says now, waiting for it to say
//! something else, and the monitor that publishes every debounced change.
//!
//! Debouncing is one sleep of `DEBOUNCE_MS` after the first reading that
//! differs. The line is not watched during that sleep: a bounce that is
//! back at the old level when the sleep ends still ends the wait, and the
//! monitor then publishes the old state once more.

use vstd::prelude::*;
use vstd::string::*;
use crate::line::InputLine;
use crate::mqtt::{device_prefix, device_topic};
use crate::pace::Wait;

verus! {

/// Pause between two readings while waiting, in milliseconds.
pub const POLL_INTERVAL_MS: u64 = 50;

/// Pause after a change was first seen, in milliseconds.
pub const DEBOUNCE_MS: u64 = 50;

/// Pause before the first reading after start-up, in milliseconds. It is
/// no longer than the debounce window, so that the first report is out
/// within one window of the start.
pub const SETTLE_MS: u64 = 50;

/// The position of the door.
#[derive(Clone, Copy, Debug, PartialEq, Eq, Structural)]
pub enum DoorState {
    Open,
    Closed,
}

impl DoorState {
    /// The one polarity there is: a high line means the door is open.
    pub open spec fn of_level(high: bool) -> DoorState {
        if high {
            DoorState::Open
        } else {
            DoorState::Closed
        }
    }

    /// The state as it is written on the bus.
    pub open spec fn text(self) -> Seq<char> {
        match self {
            DoorState::Open => "open"@,
            DoorState::Closed => "closed"@,
        }
    }

    /// The state as it is written on the bus: `open` or `closed`.
    pub fn as_str(&self) -> (text: &'static str)
        ensures
            text@ == self.text(),
    {
        match self {
            DoorState::Open => "open",
            DoorState::Closed => "closed",
        }
    }

    /// The state as it is written on the bus, as an owned string.
    pub fn to_string(&self) -> (text: String)
        ensures
            text@ == self.text(),
    {
        String::from_str(self.as_str())
    }
}

impl From<bool> for DoorState {
    /// The state that a line level stands for.
    fn from(value: bool) -> (state: DoorState) {
        if value {
            DoorState::Open
        } else {
            DoorState::Closed
        }
    }
}

impl vstd::std_specs::convert::FromSpecImpl<bool> for DoorState {
    open spec fn obeys_from_spec() -> bool {
        true
    }

    open spec fn from_spec(value: bool) -> DoorState {
        DoorState::of_level(value)
    }
}

/// The topic on which the sensor called `name` reports.
pub open spec fn state_topic(name: Seq<char>) -> Seq<char> {
    device_prefix() + name
}

/// A state report as a plain value.
pub struct PublicationModel {
    pub topic: Seq<char>,
    pub payload: Seq<char>,
    pub retain: bool,
}

/// A state report, ready for the bus.
#[derive(Debug)]
pub struct Publication {
    topic: String,
    payload: &'static str,
    retain: bool,
}

impl View for Publication {
    type V = PublicationModel;

    closed spec fn view(&self) -> PublicationModel {
        PublicationModel { topic: self.topic@, payload: self.payload@, retain: self.retain }
    }
}

impl Publication {
    /// The topic to publish on.
    pub fn topic(&self) -> (topic: &str)
        ensures
            topic@ == self@.topic,
    {
        self.topic.as_str()
    }

    /// The text to publish.
    pub fn payload(&self) -> (payload: &'static str)
        ensures
            payload@ == self@.payload,
    {
        self.payload
    }

    /// Whether the broker is to keep the message for later subscribers.
    pub fn retain(&self) -> (retain: bool)
        ensures
            retain == self@.retain,
    {
        self.retain
    }
}

/// A wait for the door to change, between two wake-ups.
#[derive(Clone, Copy, Debug, PartialEq, Eq, Structural)]
pub enum ChangeWatch {
    /// Reading the line until it differs from what it was at the start.
    Polling { initial: DoorState },
    /// A differing reading was seen; the debounce sleep is running.
    Debouncing,
    /// The wait is over.
    Settled,
}

impl ChangeWatch {
    /// The watch after a wake-up at which the door reads `state`.
    pub open spec fn woken(self, state: DoorState) -> ChangeWatch {
        match self {
            ChangeWatch::Polling { initial } => if state != initial {
                ChangeWatch::Debouncing
            } else {
                self
            },
            ChangeWatch::Debouncing => ChangeWatch::Settled,
            ChangeWatch::Settled => ChangeWatch::Settled,
        }
    }

    /// What a wake-up at which the door reads `state` asks for.
    pub open spec fn pause(self, state: DoorState) -> Wait {
        match self {
            ChangeWatch::Polling { initial } => if state != initial {
                Wait::Sleep(DEBOUNCE_MS)
            } else {
                Wait::Sleep(POLL_INTERVAL_MS)
            },
            ChangeWatch::Debouncing => Wait::Ready,
            ChangeWatch::Settled => Wait::Ready,
        }
    }

    /// The watch after one wake-up for each of `readings`, in order.
    pub open spec fn woken_through(self, readings: Seq<DoorState>) -> ChangeWatch
        decreases readings.len(),
    {
        if readings.len() == 0 {
            self
        } else {
            self.woken_through(readings.drop_last()).woken(readings.last())
        }
    }

    /// The time slept over one wake-up for each of `readings`, in
    /// milliseconds.
    pub open spec fn slept_through(self, readings: Seq<DoorState>) -> nat
        decreases readings.len(),
    {
        if readings.len() == 0 {
            0
        } else {
            self.slept_through(readings.drop_last()) + self.woken_through(
                readings.drop_last(),
            ).pause(readings.last()).millis()
        }
    }
}

/// The sensor as a plain value.
pub struct SensorModel {
    /// The logical name, under which the state is reported.
    pub name: Seq<char>,
    /// The level of the input line when last read.
    pub high: bool,
}

impl SensorModel {
    /// The position of the door: what the level says, and nothing else.
    pub open spec fn state(self) -> DoorState {
        DoorState::of_level(self.high)
    }

    /// The sensor after the line was read at `high`.
    pub open spec fn observed(self, high: bool) -> SensorModel {
        SensorModel { name: self.name, high }
    }

    /// The sensor after the line was read at each of `levels`, in order.
    pub open spec fn observed_through(self, levels: Seq<bool>) -> SensorModel
        decreases levels.len(),
    {
        if levels.len() == 0 {
            self
        } else {
            self.observed_through(levels.drop_last()).observed(levels.last())
        }
    }

    /// The report of `state` by this sensor: retained, on its own topic.
    pub open spec fn report(self, state: DoorState) -> PublicationModel {
        PublicationModel { topic: state_topic(self.name), payload: state.text(), retain: true }
    }
}

/// A door sensor on one input line, known to the bus by its logical name.
#[derive(Debug)]
pub struct Sensor {
    line: InputLine,
    name: String,
}

impl View for Sensor {
    type V = SensorModel;

    closed spec fn view(&self) -> SensorModel {
        SensorModel { name: self.name@, high: self.line@ }
    }
}

impl Sensor {
    /// Takes the line over as it is.
    pub fn new(line: InputLine, name: &str) -> (sensor: Sensor)
        ensures
            sensor@.name == name@,
            sensor@.high == line@,
    {
        Sensor { line, name: String::from_str(name) }
    }

    /// The logical name.
    pub fn name(&self) -> (name: &str)
        ensures
            name@ == self@.name,
    {
        self.name.as_str()
    }

    /// The input line as last read.
    pub fn line(&self) -> (line: InputLine)
        ensures
            line@ == self@.high,
    {
        self.line
    }

    /// Records the level just read from the pin.
    pub fn observe(&mut self, high: bool)
        ensures
            final(self)@ == old(self)@.observed(high),
    {
        self.line.observe(high);
    }

    /// The position of the door as the line has it now.
    pub fn read_state(&self) -> (state: DoorState)
        ensures
            state == self@.state(),
    {
        DoorState::from(self.line.is_high())
    }

    /// One reading while waiting for the door to be in `desired_state`:
    /// ready if it is, else sleep `POLL_INTERVAL_MS` and read again.
    pub fn wait_for_state(&self, desired_state: DoorState) -> (wait: Wait)
        ensures
            wait == if self@.state() == desired_state {
                Wait::Ready
            } else {
                Wait::Sleep(POLL_INTERVAL_MS)
            },
    {
        if self.read_state() == desired_state {
            Wait::Ready
        } else {
            Wait::Sleep(POLL_INTERVAL_MS)
        }
    }

    /// Begins a wait for change: the state now is what a change is told
    /// from.
    pub fn watch(&self) -> (watch: ChangeWatch)
        ensures
            watch == (ChangeWatch::Polling { initial: self@.state() }),
    {
        ChangeWatch::Polling { initial: self.read_state() }
    }

    /// One wake-up of a wait for change. While the door reads as it did
    /// at the start, sleep `POLL_INTERVAL_MS` and read again; at the first
    /// reading that differs, sleep `DEBOUNCE_MS`; at the wake-up after
    /// that the wait is over, whatever the door reads then.
    pub fn wait_for_change(&self, watch: &mut ChangeWatch) -> (wait: Wait)
        ensures
            *final(watch) == old(watch).woken(self@.state()),
            wait == old(watch).pause(self@.state()),
    {
        match *watch {
            ChangeWatch::Polling { initial } => {
                if self.read_state() != initial {
                    *watch = ChangeWatch::Debouncing;
                    Wait::Sleep(DEBOUNCE_MS)
                } else {
                    Wait::Sleep(POLL_INTERVAL_MS)
                }
            },
            ChangeWatch::Debouncing => {
                *watch = ChangeWatch::Settled;
                Wait::Ready
            },
            ChangeWatch::Settled => Wait::Ready,
        }
    }

    /// The report of `state` by this sensor: retained, on `device/<name>`,
    /// with the state written out as the payload.
    pub fn publication(&self, state: DoorState) -> (publication: Publication)
        ensures
            publication@ == self@.report(state),
    {
        Publication { topic: device_topic(self.name.as_str()), payload: state.as_str(), retain: true }
    }
}

/// Where the monitoring loop is suspended.
#[derive(Clone, Copy, Debug, PartialEq, Eq, Structural)]
pub enum MonitorPhase {
    /// Not yet stepped.
    Boot,
    /// Sleeping before the first reading.
    Settling,
    /// A report is on its way to the bus.
    Publishing,
    /// Waiting for the door to change.
    Watching(ChangeWatch),
}

/// What the monitoring loop asks of its caller next.
#[derive(Clone, Copy, Debug, PartialEq, Eq, Structural)]
pub enum MonitorAction {
    /// Sleep for this many milliseconds.
    Sleep(u64),
    /// Publish this state (see `Sensor::publication`). Whether the bus took
    /// it does not matter: step again either way.
    Publish(DoorState),
}

/// The monitor as a plain value.
pub struct MonitorModel {
    pub sensor: SensorModel,
    pub phase: MonitorPhase,
}

impl MonitorModel {
    /// A monitor before its first step.
    pub open spec fn initial(sensor: SensorModel) -> MonitorModel {
        MonitorModel { sensor, phase: MonitorPhase::Boot }
    }

    /// What a wake-up with the line at `high` asks for.
    pub open spec fn action(self, high: bool) -> MonitorAction {
        let state = DoorState::of_level(high);
        match self.phase {
            MonitorPhase::Boot => MonitorAction::Sleep(SETTLE_MS),
            MonitorPhase::Settling => MonitorAction::Publish(state),
            MonitorPhase::Publishing => MonitorAction::Sleep(POLL_INTERVAL_MS),
            MonitorPhase::Watching(watch) => match watch.pause(state) {
                Wait::Sleep(ms) => MonitorAction::Sleep(ms),
                Wait::Ready => MonitorAction::Publish(state),
            },
        }
    }

    /// The monitor after a wake-up with the line at `high`.
    pub open spec fn woken(self, high: bool) -> MonitorModel {
        let state = DoorState::of_level(high);
        MonitorModel {
            sensor: self.sensor.observed(high),
            phase: match self.phase {
                MonitorPhase::Boot => MonitorPhase::Settling,
                MonitorPhase::Settling => MonitorPhase::Publishing,
                MonitorPhase::Publishing => MonitorPhase::Watching(
                    ChangeWatch::Polling { initial: state },
                ),
                MonitorPhase::Watching(watch) => match watch.pause(state) {
                    Wait::Sleep(_) => MonitorPhase::Watching(watch.woken(state)),
                    Wait::Ready => MonitorPhase::Publishing,
                },
            },
        }
    }
}

impl MonitorModel {
    /// The time that a wake-up with the line at `high` asks to sleep, in
    /// milliseconds.
    pub open spec fn slept(self, high: bool) -> nat {
        match self.action(high) {
            MonitorAction::Sleep(ms) => ms as nat,
            MonitorAction::Publish(_) => 0,
        }
    }

    /// What a wake-up with the line at `high` asks to publish: one state or
    /// none.
    pub open spec fn reported(self, high: bool) -> Seq<DoorState> {
        match self.action(high) {
            MonitorAction::Sleep(_) => Seq::empty(),
            MonitorAction::Publish(state) => seq![state],
        }
    }

    /// The monitor after one wake-up for each of `levels`, in order.
    pub open spec fn woken_through(self, levels: Seq<bool>) -> MonitorModel
        decreases levels.len(),
    {
        if levels.len() == 0 {
            self
        } else {
            self.woken_through(levels.drop_last()).woken(levels.last())
        }
    }

    /// The time slept over one wake-up for each of `levels`, in
    /// milliseconds.
    pub open spec fn slept_through(self, levels: Seq<bool>) -> nat
        decreases levels.len(),
    {
        if levels.len() == 0 {
            0
        } else {
            self.slept_through(levels.drop_last()) + self.woken_through(levels.drop_last()).slept(
                levels.last(),
            )
        }
    }

    /// The states published over one wake-up for each of `levels`, in the
    /// order in which they were asked for.
    pub open spec fn reports_through(self, levels: Seq<bool>) -> Seq<DoorState>
        decreases levels.len(),
    {
        if levels.len() == 0 {
            Seq::empty()
        } else {
            self.reports_through(levels.drop_last()) + self.woken_through(
                levels.drop_last(),
            ).reported(levels.last())
        }
    }
}

/// One change of the door as the monitor lives through it: the level read
/// when the report before it is done, `quiet` wake-ups at that level, one
/// at the other level, and the level read when the debounce window ends.
pub struct Change {
    pub before: bool,
    pub quiet: nat,
    pub at_expiry: bool,
}

impl Change {
    /// The levels read over this change, one for each wake-up.
    pub open spec fn levels(self) -> Seq<bool> {
        seq![self.before] + held(self.before, self.quiet) + seq![!self.before, self.at_expiry]
    }

    /// The time slept over this change, in milliseconds.
    pub open spec fn slept(self) -> nat {
        ((self.quiet + 1) * POLL_INTERVAL_MS + DEBOUNCE_MS) as nat
    }
}

/// The levels read over `changes`, one after the other.
pub open spec fn levels_of(changes: Seq<Change>) -> Seq<bool>
    decreases changes.len(),
{
    if changes.len() == 0 {
        Seq::empty()
    } else {
        levels_of(changes.drop_last()) + changes.last().levels()
    }
}

/// The time slept over `changes`, in milliseconds.
pub open spec fn slept_over(changes: Seq<Change>) -> nat
    decreases changes.len(),
{
    if changes.len() == 0 {
        0
    } else {
        slept_over(changes.drop_last()) + changes.last().slept()
    }
}

/// What the door reads at the end of each of `changes`.
pub open spec fn states_after(changes: Seq<Change>) -> Seq<DoorState> {
    Seq::new(changes.len(), |i: int| DoorState::of_level(changes[i].at_expiry))
}

/// Follows one sensor and says when to publish what.
#[derive(Debug)]
pub struct Monitor {
    sensor: Sensor,
    phase: MonitorPhase,
}

impl View for Monitor {
    type V = MonitorModel;

    closed spec fn view(&self) -> MonitorModel {
        MonitorModel { sensor: self.sensor@, phase: self.phase }
    }
}

impl Monitor {
    /// A monitor for `sensor`, not yet stepped.
    pub fn new(sensor: Sensor) -> (monitor: Monitor)
        ensures
            monitor@ == MonitorModel::initial(sensor@),
    {
        Monitor { sensor, phase: MonitorPhase::Boot }
    }

    /// The sensor that is followed.
    pub fn sensor(&self) -> (sensor: &Sensor)
        ensures
            sensor@ == self@.sensor,
    {
        &self.sensor
    }

    /// Where the loop is suspended.
    pub fn phase(&self) -> (phase: MonitorPhase)
        ensures
            phase == self@.phase,
    {
        self.phase
    }
}

/// One wake-up of the monitoring loop, with the line read at `high`. The
/// loop sleeps `SETTLE_MS`, which is within one debounce window of its
/// start, publishes what the door reads then, and from there on publishes
/// what it reads after every wait for change. Each wait starts from the
/// reading taken when the report before it is done.
pub fn sensor_monitoring_task(monitor: &mut Monitor, high: bool) -> (action: MonitorAction)
    ensures
        action == old(monitor)@.action(high),
        final(monitor)@ == old(monitor)@.woken(high),
{
    monitor.sensor.observe(high);
    let state = monitor.sensor.read_state();
    match monitor.phase {
        MonitorPhase::Boot => {
            monitor.phase = MonitorPhase::Settling;
            MonitorAction::Sleep(SETTLE_MS)
        },
        MonitorPhase::Settling => {
            monitor.phase = MonitorPhase::Publishing;
            MonitorAction::Publish(state)
        },
        MonitorPhase::Publishing => {
            let mut watch = monitor.sensor.watch();
            let wait = monitor.sensor.wait_for_change(&mut watch);
            monitor.phase = MonitorPhase::Watching(watch);
            match wait {
                Wait::Sleep(ms) => MonitorAction::Sleep(ms),
                Wait::Ready => MonitorAction::Publish(state),
            }
        },
        MonitorPhase::Watching(watch) => {
            let mut watch = watch;
            match monitor.sensor.wait_for_change(&mut watch) {
                Wait::Sleep(ms) => {
                    monitor.phase = MonitorPhase::Watching(watch);
                    MonitorAction::Sleep(ms)
                },
                Wait::Ready => {
                    monitor.phase = MonitorPhase::Publishing;
                    MonitorAction::Publish(state)
                },
            }
        },
    }
}

/// `n` readings that all say `state`.
pub open spec fn steady(state: DoorState, n: nat) -> Seq<DoorState> {
    Seq::new(n, |i: int| state)
}

/// `n` readings of the line that all say `high`.
pub open spec fn held(high: bool, n: nat) -> Seq<bool> {
    Seq::new(n, |i: int| high)
}

/// Reading the door has no memory. Whatever levels the line went through,
/// the state is what the level read last says, high for open and low for
/// closed; the name is never touched.
pub proof fn lemma_state_is_current_level(sensor: SensorModel, levels: Seq<bool>)
    requires
        levels.len() > 0,
    ensures
        sensor.observed_through(levels).state() == DoorState::of_level(levels.last()),
        sensor.observed_through(levels).state() == DoorState::Open <==> levels.last(),
        sensor.observed_through(levels).name == sensor.name,
    decreases levels.len(),
{
    if levels.len() > 1 {
        lemma_state_is_current_level(sensor, levels.drop_last());
    } else {
        assert(sensor.observed_through(levels.drop_last()) == sensor);
    }
}

/// While the door reads as it did at the start, a wait for change goes on
/// polling: after `n` such wake-ups it is where it began and has slept
/// `n` poll intervals.
pub proof fn lemma_steady_door_keeps_waiting(initial: DoorState, n: nat)
    ensures
        (ChangeWatch::Polling { initial }).woken_through(steady(initial, n)) == (
        ChangeWatch::Polling { initial }),
        (ChangeWatch::Polling { initial }).slept_through(steady(initial, n)) == n
            * POLL_INTERVAL_MS,
    decreases n,
{
    if n > 0 {
        lemma_steady_door_keeps_waiting(initial, (n - 1) as nat);
        assert(steady(initial, n).drop_last() =~= steady(initial, (n - 1) as nat));
        assert(n * POLL_INTERVAL_MS == (n - 1) * POLL_INTERVAL_MS + POLL_INTERVAL_MS)
            by (nonlinear_arith);
    }
}

/// A change is debounced. After `n` wake-ups at which the door read as at
/// the start and one at which it read otherwise, the wait is not over: it
/// sleeps the debounce window. It is over at the wake-up after that,
/// whatever the door reads then (`at_expiry`), having slept `n` poll
/// intervals and the debounce window, so never less than the window. A
/// door that is back at its old state by then ends the wait all the same.
pub proof fn lemma_change_is_debounced(
    initial: DoorState,
    n: nat,
    changed: DoorState,
    at_expiry: DoorState,
)
    requires
        changed != initial,
    ensures
        ({
            let watch = ChangeWatch::Polling { initial };
            let seen = steady(initial, n).push(changed);
            &&& watch.woken_through(seen) == ChangeWatch::Debouncing
            &&& watch.woken_through(steady(initial, n)).pause(changed) == Wait::Sleep(DEBOUNCE_MS)
            &&& watch.woken_through(seen).pause(at_expiry) == Wait::Ready
            &&& watch.woken_through(seen.push(at_expiry)) == ChangeWatch::Settled
            &&& watch.slept_through(seen.push(at_expiry)) == n * POLL_INTERVAL_MS + DEBOUNCE_MS
            &&& watch.slept_through(seen.push(at_expiry)) >= DEBOUNCE_MS
        }),
{
    let watch = ChangeWatch::Polling { initial };
    let seen = steady(initial, n).push(changed);
    lemma_steady_door_keeps_waiting(initial, n);
    assert(seen.drop_last() =~= steady(initial, n));
    assert(seen.push(at_expiry).drop_last() =~= seen);
    assert(watch.slept_through(seen) == n * POLL_INTERVAL_MS + DEBOUNCE_MS);
}

/// The monitor publishes every debounced change. From a monitor that
/// waits for the door to leave `initial`: after `n` wake-ups with the
/// line unchanged and one with it changed, the monitor sleeps the
/// debounce window; at the wake-up after that it publishes what the line
/// says then. If the line was held, that is the new state.
pub proof fn lemma_monitor_publishes_change(
    monitor: MonitorModel,
    initial: bool,
    n: nat,
    at_expiry: bool,
)
    requires
        monitor.phase == MonitorPhase::Watching(
            ChangeWatch::Polling { initial: DoorState::of_level(initial) },
        ),
    ensures
        ({
            let quiet = monitor.woken_through(held(initial, n));
            let seen = quiet.woken(!initial);
            &&& quiet.phase == monitor.phase
            &&& quiet.action(initial) == MonitorAction::Sleep(POLL_INTERVAL_MS)
            &&& quiet.action(!initial) == MonitorAction::Sleep(DEBOUNCE_MS)
            &&& seen.action(at_expiry) == MonitorAction::Publish(DoorState::of_level(at_expiry))
            &&& seen.woken(at_expiry).phase == MonitorPhase::Publishing
            &&& at_expiry == !initial ==> DoorState::of_level(at_expiry) != DoorState::of_level(
                initial,
            )
        }),
    decreases n,
{
    if n > 0 {
        lemma_monitor_publishes_change(monitor, initial, (n - 1) as nat, at_expiry);
        assert(held(initial, n).drop_last() =~= held(initial, (n - 1) as nat));
    }
}

/// The first report is out within one debounce window of the start. A
/// new monitor sleeps the settle delay, which is no longer than the
/// window, and at the wake-up after it publishes what the line says then,
/// and nothing before; the wait that follows starts from the reading
/// taken when the report is done.
pub proof fn lemma_monitor_first_report(sensor: SensorModel, at_boot: bool, settled: bool, done: bool)
    ensures
        ({
            let monitor = MonitorModel::initial(sensor);
            &&& monitor.action(at_boot) == MonitorAction::Sleep(SETTLE_MS)
            &&& monitor.woken(at_boot).action(settled) == MonitorAction::Publish(
                DoorState::of_level(settled),
            )
            &&& monitor.reports_through(seq![at_boot, settled]) == seq![
                DoorState::of_level(settled),
            ]
            &&& monitor.slept_through(seq![at_boot, settled]) == SETTLE_MS
            &&& monitor.slept_through(seq![at_boot, settled]) <= DEBOUNCE_MS
            &&& monitor.woken(at_boot).woken(settled).action(done) == MonitorAction::Sleep(
                POLL_INTERVAL_MS,
            )
            &&& monitor.woken(at_boot).woken(settled).woken(done).phase == MonitorPhase::Watching(
                ChangeWatch::Polling { initial: DoorState::of_level(done) },
            )
        }),
{
    let monitor = MonitorModel::initial(sensor);
    lemma_monitor_one(monitor, at_boot);
    lemma_monitor_one(monitor.woken(at_boot), settled);
    lemma_monitor_concat(monitor, seq![at_boot], seq![settled]);
    assert(seq![at_boot] + seq![settled] =~= seq![at_boot, settled]);
    assert(monitor.reports_through(seq![at_boot, settled]) =~= seq![DoorState::of_level(settled)]);
}

/// One wake-up is a run of one.
pub proof fn lemma_monitor_one(monitor: MonitorModel, high: bool)
    ensures
        monitor.woken_through(seq![high]) == monitor.woken(high),
        monitor.slept_through(seq![high]) == monitor.slept(high),
        monitor.reports_through(seq![high]) == monitor.reported(high),
{
    let none = Seq::<bool>::empty();
    assert(seq![high].drop_last() =~= none);
    assert(monitor.woken_through(none) == monitor);
    assert(monitor.slept_through(none) == 0);
    assert(monitor.reports_through(none) =~= Seq::<DoorState>::empty());
    assert(monitor.reports_through(seq![high]) =~= monitor.reported(high));
}

/// Wake-ups in a row are wake-ups one after the other: the monitor, the
/// time slept and the reports of two runs add up.
pub proof fn lemma_monitor_concat(monitor: MonitorModel, a: Seq<bool>, b: Seq<bool>)
    ensures
        monitor.woken_through(a + b) == monitor.woken_through(a).woken_through(b),
        monitor.slept_through(a + b) == monitor.slept_through(a) + monitor.woken_through(
            a,
        ).slept_through(b),
        monitor.reports_through(a + b) == monitor.reports_through(a) + monitor.woken_through(
            a,
        ).reports_through(b),
    decreases b.len(),
{
    if b.len() == 0 {
        assert(a + b =~= a);
        assert(monitor.reports_through(a) + monitor.woken_through(a).reports_through(b)
            =~= monitor.reports_through(a));
    } else {
        lemma_monitor_concat(monitor, a, b.drop_last());
        assert((a + b).drop_last() =~= a + b.drop_last());
        assert((a + b).last() == b.last());
        let after = monitor.woken_through(a);
        assert(monitor.reports_through(a + b) =~= monitor.reports_through(a) + (
        after.reports_through(b.drop_last()) + after.woken_through(b.drop_last()).reported(
            b.last(),
        )));
    }
}

/// While the line stays as it was, the monitor sleeps and reports
/// nothing.
pub proof fn lemma_monitor_keeps_quiet(monitor: MonitorModel, initial: bool, n: nat)
    requires
        monitor.phase == MonitorPhase::Watching(
            ChangeWatch::Polling { initial: DoorState::of_level(initial) },
        ),
    ensures
        monitor.woken_through(held(initial, n)).phase == monitor.phase,
        monitor.slept_through(held(initial, n)) == n * POLL_INTERVAL_MS,
        monitor.reports_through(held(initial, n)) == Seq::<DoorState>::empty(),
    decreases n,
{
    if n > 0 {
        lemma_monitor_keeps_quiet(monitor, initial, (n - 1) as nat);
        assert(held(initial, n).drop_last() =~= held(initial, (n - 1) as nat));
        assert(n * POLL_INTERVAL_MS == (n - 1) * POLL_INTERVAL_MS + POLL_INTERVAL_MS)
            by (nonlinear_arith);
        assert(monitor.reports_through(held(initial, n)) =~= Seq::<DoorState>::empty());
    } else {
        assert(monitor.reports_through(held(initial, n)) =~= Seq::<DoorState>::empty());
    }
}

/// One change is one report. From a monitor whose last report is done,
/// over the wake-ups of one change exactly one state is published, the
/// one read when the debounce window ends; the monitor is then where it
/// was, and has slept the poll intervals and the window.
pub proof fn lemma_monitor_one_change(monitor: MonitorModel, change: Change)
    requires
        monitor.phase == MonitorPhase::Publishing,
    ensures
        monitor.woken_through(change.levels()).phase == MonitorPhase::Publishing,
        monitor.reports_through(change.levels()) == seq![DoorState::of_level(change.at_expiry)],
        monitor.slept_through(change.levels()) == change.slept(),
{
    let first = seq![change.before];
    let quiet = held(change.before, change.quiet);
    let last = seq![!change.before, change.at_expiry];
    let m1 = monitor.woken(change.before);
    lemma_monitor_one(monitor, change.before);
    lemma_monitor_keeps_quiet(m1, change.before, change.quiet);
    let m2 = m1.woken_through(quiet);
    let m3 = m2.woken(!change.before);
    lemma_monitor_one(m2, !change.before);
    lemma_monitor_one(m3, change.at_expiry);
    lemma_monitor_concat(m2, seq![!change.before], seq![change.at_expiry]);
    assert(seq![!change.before] + seq![change.at_expiry] =~= last);
    lemma_monitor_concat(monitor, first, quiet);
    lemma_monitor_concat(monitor, first + quiet, last);
    assert(m3.phase == MonitorPhase::Watching(ChangeWatch::Debouncing));
    assert(m2.reports_through(last) =~= seq![DoorState::of_level(change.at_expiry)]);
    assert(monitor.reports_through(change.levels()) =~= seq![
        DoorState::of_level(change.at_expiry),
    ]);
    assert((change.quiet + 1) * POLL_INTERVAL_MS == change.quiet * POLL_INTERVAL_MS
        + POLL_INTERVAL_MS) by (nonlinear_arith);
}

/// Reports come one for each change and in the order of the changes:
/// none is left out, none is merged with another, none overtakes. From a
/// monitor whose last report is done, over any number of changes the
/// states published are what the door read at the end of each, in that
/// order.
pub proof fn lemma_monitor_reports_in_order(monitor: MonitorModel, changes: Seq<Change>)
    requires
        monitor.phase == MonitorPhase::Publishing,
    ensures
        monitor.woken_through(levels_of(changes)).phase == MonitorPhase::Publishing,
        monitor.reports_through(levels_of(changes)) == states_after(changes),
        monitor.reports_through(levels_of(changes)).len() == changes.len(),
        monitor.slept_through(levels_of(changes)) == slept_over(changes),
    decreases changes.len(),
{
    if changes.len() == 0 {
        assert(monitor.reports_through(levels_of(changes)) =~= states_after(changes));
    } else {
        let before = changes.drop_last();
        lemma_monitor_reports_in_order(monitor, before);
        lemma_monitor_one_change(monitor.woken_through(levels_of(before)), changes.last());
        lemma_monitor_concat(monitor, levels_of(before), changes.last().levels());
        assert(monitor.reports_through(levels_of(changes)) =~= states_after(changes));
    }
}

} // verus!
