//! Valve actuation and the operating-mode state machine.
//!
//! Each tick the machine is given the current wall-clock time, at most one
//! decoded external command, and the breach-sensor condition, in this fixed
//! order: latch a breach, apply the command, execute the active mode. The
//! distance reading is a field the caller refreshes before the tick on every
//! tick except in breach mode. A latched breach persists until an explicit
//! clear command; a command arriving on the same tick as a fresh breach wins,
//! because the breach check runs strictly before command application.

use vstd::prelude::*;

verus! {

use crate::hal::OutputPin;
use crate::time::{
    datetime_add_in_range,
    datetime_ge,
    datetime_plus,
    datetime_record,
    dec_rep,
    time_lt,
    u16_to_record,
    DateTime,
    Duration,
    Time,
};
use vstd::string::StringExecFns;

/// A logical valve intent, independent of the mode that selected it; the
/// `Clean` variant carries its own deadline.
#[derive(PartialEq, Eq, Structural, Clone, Copy, Debug)]
pub enum Job {
    Idle,
    Filter,
    Clean(DateTime),
}

/// Manual mode either runs one job or drives the four valves directly.
#[derive(PartialEq, Eq, Structural, Clone, Copy, Debug)]
pub enum ManualControl {
    CurrentJob(Job),
    Bridged(bool, bool, bool, bool),
}

/// The operating mode; exactly one is active at a time. `Automatic` carries
/// the executing job and a one-deep lookahead.
#[derive(PartialEq, Eq, Structural, Clone, Copy, Debug)]
pub enum ControlMode {
    Automatic(Job, Job),
    Manual(ManualControl),
    Breach,
    Off,
}

/// The latched breach timestamp, if any; once set it persists until an
/// explicit external clear.
#[derive(PartialEq, Eq, Structural, Clone, Copy, Debug)]
pub struct Waterbreach(pub Option<DateTime>);

/// One decoded external command, as the serial channel hands it to the core.
#[derive(PartialEq, Eq, Structural, Clone, Copy, Debug)]
pub enum Command {
    /// Switch to automatic operation, idle with an idle lookahead.
    Automatic,
    /// Switch to manual operation, running the idle job.
    ManualIdle,
    /// Switch to manual operation, running the filter job.
    ManualFilter,
    /// Switch to manual operation, running a clean job with a zeroed
    /// placeholder stop time.
    ManualClean,
    /// Drive the inlet valve open alone.
    BridgeInlet,
    /// Drive the wastewater-drain valve open alone.
    BridgeWastewater,
    /// Drive the filtered-water valve open alone.
    BridgeFilteredWater,
    /// Drive the bridge valve open alone.
    BridgeBridge,
    /// Switch off: all valves closed.
    Off,
    /// Clear a latched breach timestamp.
    ClearBreach,
}

/// The open/closed intent of the four valves, as the software caches it; the
/// lines are write-only, state is never read back.
#[derive(PartialEq, Eq, Structural, Clone, Copy, Debug)]
pub struct ValveState {
    pub einlass: bool,
    pub abwasser: bool,
    pub filterwasser: bool,
    pub bridge: bool,
}

/// All four valves closed.
pub open spec fn valves_idle() -> ValveState {
    ValveState { einlass: false, abwasser: false, filterwasser: false, bridge: false }
}

/// Inlet, wastewater-drain and filtered-water open; bridge closed.
pub open spec fn valves_filter() -> ValveState {
    ValveState { einlass: true, abwasser: true, filterwasser: true, bridge: false }
}

/// Inlet, wastewater-drain and bridge open; filtered-water closed.
pub open spec fn valves_clean() -> ValveState {
    ValveState { einlass: true, abwasser: true, filterwasser: false, bridge: true }
}

/// One software-controlled valve: a digital output with a cached open/closed
/// boolean. The view is that boolean.
pub struct Ventil<NR> {
    pin: NR,
    opened: bool,
}

impl<NR: OutputPin> View for Ventil<NR> {
    type V = bool;

    closed spec fn view(&self) -> bool {
        self.opened
    }
}

impl<NR: OutputPin> Ventil<NR> {
    /// Take ownership of the output line; the valve starts closed.
    pub fn new(pin: NR) -> (r: Self)
        ensures
            r@ == false,
    {
        Self { pin, opened: false }
    }

    pub fn open(&mut self)
        ensures
            final(self)@ == true,
    {
        self.pin.set_high();
        self.opened = true;
    }

    pub fn close(&mut self)
        ensures
            final(self)@ == false,
    {
        self.pin.set_low();
        self.opened = false;
    }

    pub fn set(&mut self, b: bool)
        ensures
            final(self)@ == b,
    {
        if b {
            self.open();
        } else {
            self.close();
        }
    }

    pub fn is_open(&self) -> (r: bool)
        ensures
            r == self@,
    {
        self.opened
    }
}

/// The actuation surface for the four valves. The view is the four cached
/// open/closed booleans.
pub struct VentilGruppe<P1, P2, P3, P4> {
    pub einlass: Ventil<P1>,
    pub abwasser: Ventil<P2>,
    pub filterwasser: Ventil<P3>,
    pub bridge: Ventil<P4>,
}

impl<P1: OutputPin, P2: OutputPin, P3: OutputPin, P4: OutputPin> View for VentilGruppe<
    P1,
    P2,
    P3,
    P4,
> {
    type V = ValveState;

    open spec fn view(&self) -> ValveState {
        ValveState {
            einlass: self.einlass@,
            abwasser: self.abwasser@,
            filterwasser: self.filterwasser@,
            bridge: self.bridge@,
        }
    }
}

impl<P1: OutputPin, P2: OutputPin, P3: OutputPin, P4: OutputPin> VentilGruppe<P1, P2, P3, P4> {
    /// Take ownership of the four output lines; all valves start closed.
    pub fn new(einlass: P1, abwasser: P2, filterwasser: P3, bridge: P4) -> (r: Self)
        ensures
            r@ == valves_idle(),
    {
        Self {
            einlass: Ventil::new(einlass),
            abwasser: Ventil::new(abwasser),
            filterwasser: Ventil::new(filterwasser),
            bridge: Ventil::new(bridge),
        }
    }

    pub fn set_clean(&mut self)
        ensures
            final(self)@ == valves_clean(),
    {
        self.einlass.open();
        self.abwasser.open();
        self.filterwasser.close();
        self.bridge.open();
    }

    pub fn set_filter(&mut self)
        ensures
            final(self)@ == valves_filter(),
    {
        self.einlass.open();
        self.abwasser.open();
        self.filterwasser.open();
        self.bridge.close();
    }

    pub fn set_idle(&mut self)
        ensures
            final(self)@ == valves_idle(),
    {
        self.einlass.close();
        self.abwasser.close();
        self.filterwasser.close();
        self.bridge.close();
    }
}

/// The mathematical state of the controller: everything a tick reads or
/// changes.
pub struct ControlView {
    pub start_time: DateTime,
    pub current_time: DateTime,
    pub valves: ValveState,
    pub control_mode: ControlMode,
    pub already_cleaned: bool,
    pub distance: Option<u16>,
    pub water_breach: Option<DateTime>,
}

/// Whether the nightly clean is due: automatic mode idling, no clean yet this
/// uptime session, and the time strictly after 03:00:00 and at or before
/// 04:00:00.
pub open spec fn needs_cleaning_spec(
    mode: ControlMode,
    already_cleaned: bool,
    time: Time,
) -> bool {
    &&& mode matches ControlMode::Automatic(Job::Idle, _)
    &&& !already_cleaned
    &&& time_lt(Time { hour: 3, minute: 0, second: 0 }, time)
    &&& !time_lt(Time { hour: 4, minute: 0, second: 0 }, time)
}

/// The placeholder stop time carried by a manually requested clean job.
pub open spec fn zeroed_datetime() -> DateTime {
    DateTime {
        date: crate::time::Date { year: 0, month: 0, day: 0 },
        time: Time { hour: 0, minute: 0, second: 0 },
    }
}

/// Breach latch: when no breach is yet latched and the sensor condition is
/// high, record the current time and force breach mode.
pub open spec fn latch_breach(s: ControlView, breach_high: bool) -> ControlView {
    if s.water_breach is None && breach_high {
        ControlView {
            water_breach: Some(s.current_time),
            control_mode: ControlMode::Breach,
            ..s
        }
    } else {
        s
    }
}

/// Command application: at most one decoded command switches the mode or
/// clears a latched breach.
pub open spec fn apply_command(s: ControlView, command: Option<Command>) -> ControlView {
    match command {
        None => s,
        Some(Command::Automatic) => ControlView {
            control_mode: ControlMode::Automatic(Job::Idle, Job::Idle),
            ..s
        },
        Some(Command::ManualIdle) => ControlView {
            control_mode: ControlMode::Manual(ManualControl::CurrentJob(Job::Idle)),
            ..s
        },
        Some(Command::ManualFilter) => ControlView {
            control_mode: ControlMode::Manual(ManualControl::CurrentJob(Job::Filter)),
            ..s
        },
        Some(Command::ManualClean) => ControlView {
            control_mode: ControlMode::Manual(
                ManualControl::CurrentJob(Job::Clean(zeroed_datetime())),
            ),
            ..s
        },
        Some(Command::BridgeInlet) => ControlView {
            control_mode: ControlMode::Manual(ManualControl::Bridged(true, false, false, false)),
            ..s
        },
        Some(Command::BridgeWastewater) => ControlView {
            control_mode: ControlMode::Manual(ManualControl::Bridged(false, true, false, false)),
            ..s
        },
        Some(Command::BridgeFilteredWater) => ControlView {
            control_mode: ControlMode::Manual(ManualControl::Bridged(false, false, true, false)),
            ..s
        },
        Some(Command::BridgeBridge) => ControlView {
            control_mode: ControlMode::Manual(ManualControl::Bridged(false, false, false, true)),
            ..s
        },
        Some(Command::Off) => ControlView { control_mode: ControlMode::Off, ..s },
        Some(Command::ClearBreach) => ControlView { water_breach: None, ..s },
    }
}

/// Mode execution: actuate the valves for the active mode and take the mode's
/// transition, as the per-tick table prescribes.
pub open spec fn run_mode(s: ControlView) -> ControlView {
    match s.control_mode {
        ControlMode::Automatic(job, next_job) => match (job, next_job) {
            (Job::Idle, _) => {
                let s1 = ControlView { valves: valves_idle(), ..s };
                if needs_cleaning_spec(s.control_mode, s.already_cleaned, s.current_time.time) {
                    ControlView {
                        control_mode: ControlMode::Automatic(
                            Job::Clean(datetime_plus(s.current_time, 10)),
                            Job::Idle,
                        ),
                        already_cleaned: true,
                        ..s1
                    }
                } else if s.distance matches Some(d) && d > 50 {
                    ControlView {
                        control_mode: ControlMode::Automatic(
                            Job::Clean(datetime_plus(s.current_time, 5)),
                            Job::Filter,
                        ),
                        ..s1
                    }
                } else {
                    s1
                }
            },
            (Job::Filter, _) => {
                let s1 = ControlView { valves: valves_filter(), ..s };
                if !(s.distance matches Some(d) && d >= 10) {
                    ControlView {
                        control_mode: ControlMode::Automatic(
                            Job::Clean(datetime_plus(s.current_time, 5)),
                            Job::Idle,
                        ),
                        ..s1
                    }
                } else {
                    s1
                }
            },
            (Job::Clean(stoptime), Job::Idle) => {
                let s1 = ControlView { valves: valves_clean(), ..s };
                if datetime_ge(s.current_time, stoptime) {
                    ControlView {
                        control_mode: ControlMode::Automatic(Job::Idle, Job::Idle),
                        ..s1
                    }
                } else {
                    s1
                }
            },
            (Job::Clean(stoptime), Job::Filter) => {
                let s1 = ControlView { valves: valves_clean(), ..s };
                if datetime_ge(s.current_time, stoptime) {
                    ControlView {
                        control_mode: ControlMode::Automatic(Job::Filter, Job::Idle),
                        ..s1
                    }
                } else {
                    s1
                }
            },
            _ => ControlView { valves: valves_idle(), ..s },
        },
        ControlMode::Manual(ManualControl::CurrentJob(job)) => match job {
            Job::Idle => ControlView { valves: valves_idle(), ..s },
            Job::Filter => ControlView { valves: valves_filter(), ..s },
            Job::Clean(_) => ControlView { valves: valves_clean(), ..s },
        },
        ControlMode::Manual(ManualControl::Bridged(v1, v2, v3, v4)) => ControlView {
            valves: ValveState { einlass: v1, abwasser: v2, filterwasser: v3, bridge: v4 },
            ..s
        },
        ControlMode::Breach => ControlView { valves: valves_idle(), ..s },
        ControlMode::Off => ControlView { valves: valves_idle(), ..s },
    }
}

/// One full tick: record the time, latch a breach, apply the command, execute
/// the active mode.
pub open spec fn control_step(
    s: ControlView,
    now: DateTime,
    command: Option<Command>,
    breach_high: bool,
) -> ControlView {
    run_mode(apply_command(latch_breach(ControlView { current_time: now, ..s }, breach_high), command))
}

/// Law: on a tick without a command, a high breach reading with no breach yet
/// latched latches the current time, forces breach mode, and drives every
/// valve closed.
pub proof fn lemma_breach_latches(s: ControlView, now: DateTime, breach_high: bool)
    requires
        s.water_breach is None,
        breach_high,
    ensures
        control_step(s, now, None, breach_high).control_mode is Breach,
        control_step(s, now, None, breach_high).water_breach == Some(now),
        control_step(s, now, None, breach_high).valves == valves_idle(),
{
}

/// Law: once a breach is latched and breach mode is active, any tick without
/// a command keeps breach mode, keeps the latched timestamp whatever the
/// sensor reads, holds every valve closed, and leaves the distance reading
/// unsampled.
pub proof fn lemma_breach_persists(s: ControlView, now: DateTime, breach_high: bool)
    requires
        s.control_mode is Breach,
        s.water_breach is Some,
    ensures
        control_step(s, now, None, breach_high).control_mode is Breach,
        control_step(s, now, None, breach_high).water_breach == s.water_breach,
        control_step(s, now, None, breach_high).valves == valves_idle(),
        control_step(s, now, None, breach_high).distance == s.distance,
        control_step(s, now, None, breach_high).already_cleaned == s.already_cleaned,
{
}

/// Law: a latched breach timestamp persists through any tick whose command is
/// not the explicit clear, whatever mode the tick ends in.
pub proof fn lemma_latch_persists_without_clear(
    s: ControlView,
    now: DateTime,
    command: Option<Command>,
    breach_high: bool,
)
    requires
        s.water_breach is Some,
        command != Some(Command::ClearBreach),
    ensures
        control_step(s, now, command, breach_high).water_breach == s.water_breach,
{
}

/// Law: the clear command always leaves the breach timestamp unlatched,
/// whether or not the sensor reads high on the same tick.
pub proof fn lemma_clear_command_unlatches(s: ControlView, now: DateTime, breach_high: bool)
    ensures
        control_step(s, now, Some(Command::ClearBreach), breach_high).water_breach is None,
{
}

/// The aggregate controller state: construction happens once at startup from
/// the clock's reading, and the control loop owns it exclusively.
pub struct Control<P1, P2, P3, P4> {
    pub start_time: DateTime,
    pub current_time: DateTime,
    pub ventil_gruppe: VentilGruppe<P1, P2, P3, P4>,
    pub control_mode: ControlMode,
    pub already_cleaned: bool,
    pub distance: Option<u16>,
    pub water_breach: Waterbreach,
}

impl<P1: OutputPin, P2: OutputPin, P3: OutputPin, P4: OutputPin> View for Control<P1, P2, P3, P4> {
    type V = ControlView;

    open spec fn view(&self) -> ControlView {
        ControlView {
            start_time: self.start_time,
            current_time: self.current_time,
            valves: self.ventil_gruppe@,
            control_mode: self.control_mode,
            already_cleaned: self.already_cleaned,
            distance: self.distance,
            water_breach: self.water_breach.0,
        }
    }
}

impl<P1: OutputPin, P2: OutputPin, P3: OutputPin, P4: OutputPin> Control<P1, P2, P3, P4> {
    /// Whether the nightly clean is due at `time`: automatic mode idling, no
    /// clean yet this uptime session, and the time strictly after 03:00:00
    /// and at or before 04:00:00.
    pub fn needs_cleaning(&self, time: Time) -> (r: bool)
        ensures
            r == needs_cleaning_spec(self.control_mode, self.already_cleaned, time),
    {
        if let ControlMode::Automatic(job, _) = &self.control_mode {
            if job == &Job::Idle && !self.already_cleaned && time.gt(&Time::from_hms(3, 0, 0))
                && time.le(&Time::from_hms(4, 0, 0)) {
                return true;
            }
        }
        false
    }

    /// The caller-facing sampling policy: the range sensor is sampled every
    /// tick except in breach mode, preserving its settling-time budget under
    /// a persisted fault.
    pub fn should_sample_distance(&self) -> (r: bool)
        ensures
            r == !(self.control_mode is Breach),
    {
        self.control_mode != ControlMode::Breach
    }

    /// One tick of the state machine, given the wall-clock time, at most one
    /// decoded command, and the breach-sensor condition; the distance field
    /// was refreshed by the caller beforehand when the sampling policy asked
    /// for it. The bound in `requires` keeps the clean-deadline arithmetic
    /// from overflowing the unvalidated time fields.
    pub fn tick(&mut self, now: DateTime, command: Option<Command>, breach_high: bool)
        requires
            datetime_add_in_range(now, 10),
        ensures
            final(self)@ == control_step(old(self)@, now, command, breach_high),
    {
        self.current_time = now;

        // breach latch, strictly before command application
        if self.water_breach.0.is_none() && breach_high {
            self.water_breach = Waterbreach(Some(self.current_time));
            self.control_mode = ControlMode::Breach;
        }

        // at most one decoded command per tick
        if let Some(cmd) = command {
            match cmd {
                Command::Automatic => {
                    self.control_mode = ControlMode::Automatic(Job::Idle, Job::Idle);
                },
                Command::ManualIdle => {
                    self.control_mode = ControlMode::Manual(ManualControl::CurrentJob(Job::Idle));
                },
                Command::ManualFilter => {
                    self.control_mode = ControlMode::Manual(ManualControl::CurrentJob(Job::Filter));
                },
                Command::ManualClean => {
                    self.control_mode = ControlMode::Manual(
                        ManualControl::CurrentJob(
                            Job::Clean(crate::time::Date::from_ymd(0, 0, 0).with_hms(0, 0, 0)),
                        ),
                    );
                },
                Command::BridgeInlet => {
                    self.control_mode = ControlMode::Manual(
                        ManualControl::Bridged(true, false, false, false),
                    );
                },
                Command::BridgeWastewater => {
                    self.control_mode = ControlMode::Manual(
                        ManualControl::Bridged(false, true, false, false),
                    );
                },
                Command::BridgeFilteredWater => {
                    self.control_mode = ControlMode::Manual(
                        ManualControl::Bridged(false, false, true, false),
                    );
                },
                Command::BridgeBridge => {
                    self.control_mode = ControlMode::Manual(
                        ManualControl::Bridged(false, false, false, true),
                    );
                },
                Command::Off => {
                    self.control_mode = ControlMode::Off;
                },
                Command::ClearBreach => {
                    self.water_breach = Waterbreach(None);
                },
            }
        }

        // mode execution
        let mode = self.control_mode;
        match mode {
            ControlMode::Automatic(job, next_job) => match (job, next_job) {
                (Job::Idle, _) => {
                    self.ventil_gruppe.set_idle();
                    let t = self.current_time.time;
                    if self.needs_cleaning(t) {
                        let stop = self.current_time.add_duration(Duration(10));
                        self.control_mode = ControlMode::Automatic(Job::Clean(stop), Job::Idle);
                        self.already_cleaned = true;
                    } else if let Some(d) = self.distance {
                        if d > 50 {
                            let stop = self.current_time.add_duration(Duration(5));
                            self.control_mode = ControlMode::Automatic(
                                Job::Clean(stop),
                                Job::Filter,
                            );
                        }
                    }
                },
                (Job::Filter, _) => {
                    self.ventil_gruppe.set_filter();
                    let below_threshold = match self.distance {
                        Some(d) => d < 10,
                        None => true,
                    };
                    if below_threshold {
                        let stop = self.current_time.add_duration(Duration(5));
                        self.control_mode = ControlMode::Automatic(Job::Clean(stop), Job::Idle);
                    }
                },
                (Job::Clean(stoptime), Job::Idle) => {
                    self.ventil_gruppe.set_clean();
                    if self.current_time.ge(&stoptime) {
                        self.control_mode = ControlMode::Automatic(Job::Idle, Job::Idle);
                    }
                },
                (Job::Clean(stoptime), Job::Filter) => {
                    self.ventil_gruppe.set_clean();
                    if self.current_time.ge(&stoptime) {
                        self.control_mode = ControlMode::Automatic(Job::Filter, Job::Idle);
                    }
                },
                _ => {
                    self.ventil_gruppe.set_idle();
                },
            },
            ControlMode::Manual(manualcontrol) => match manualcontrol {
                ManualControl::CurrentJob(job) => match job {
                    Job::Idle => {
                        self.ventil_gruppe.set_idle();
                    },
                    Job::Filter => {
                        self.ventil_gruppe.set_filter();
                    },
                    Job::Clean(_) => {
                        self.ventil_gruppe.set_clean();
                    },
                },
                ManualControl::Bridged(v1, v2, v3, v4) => {
                    self.ventil_gruppe.einlass.set(v1);
                    self.ventil_gruppe.abwasser.set(v2);
                    self.ventil_gruppe.filterwasser.set(v3);
                    self.ventil_gruppe.bridge.set(v4);
                },
            },
            ControlMode::Breach => {
                self.ventil_gruppe.set_idle();
            },
            ControlMode::Off => {
                self.ventil_gruppe.set_idle();
            },
        }
    }
}

/// The textual form of a boolean in a status record.
pub open spec fn bool_record(b: bool) -> Seq<char> {
    if b {
        "true"@
    } else {
        "false"@
    }
}

fn bool_str(b: bool) -> (r: &'static str)
    ensures
        r@ == bool_record(b),
{
    if b {
        "true"
    } else {
        "false"
    }
}

/// The textual form of a job in a status record; a clean job shows its
/// deadline.
pub open spec fn job_record(j: Job) -> Seq<char> {
    match j {
        Job::Idle => "Idle"@,
        Job::Filter => "Filter"@,
        Job::Clean(dt) => "Clean("@ + datetime_record(dt) + ")"@,
    }
}

/// The textual form of a manual-control setting in a status record.
pub open spec fn manual_record(mc: ManualControl) -> Seq<char> {
    match mc {
        ManualControl::CurrentJob(j) => "CurrentJob("@ + job_record(j) + ")"@,
        ManualControl::Bridged(v1, v2, v3, v4) => "Bridged("@ + bool_record(v1) + ", "@
            + bool_record(v2) + ", "@ + bool_record(v3) + ", "@ + bool_record(v4) + ")"@,
    }
}

/// The textual form of a mode in a status record: its name and its pending
/// job or jobs.
pub open spec fn mode_record(m: ControlMode) -> Seq<char> {
    match m {
        ControlMode::Automatic(current_job, next_job) => "{\n            \"name\": \"automatic\",\n            \"jobs\": [\n                \""@
            + job_record(current_job) + "\",\n                \""@ + job_record(next_job)
            + "\"\n            ]\n            }"@,
        ControlMode::Manual(mc) => "{\n            \"name\": \"manual\",\n            \"jobs\": [\n                \""@
            + manual_record(mc) + "\"\n            ]\n            }"@,
        ControlMode::Breach => "{\n            \"name\": \"breach\",\n            \"jobs\": []\n            }"@,
        ControlMode::Off => "{\n            \"name\": \"off\",\n            \"jobs\": []\n            }"@,
    }
}

/// The textual form of the four valve booleans in a status record.
pub open spec fn valves_record(v: ValveState) -> Seq<char> {
    "{\n            \"einlass\": "@ + bool_record(v.einlass) + ",\n            \"abwasser\": "@
        + bool_record(v.abwasser) + ",\n            \"filterwasser\": "@ + bool_record(
        v.filterwasser,
    ) + ",\n            \"bridge\": "@ + bool_record(v.bridge) + "\n            }"@
}

/// The textual form of the breach latch in a status record: the latched
/// timestamp, or an explicit none marker.
pub open spec fn breach_record(w: Option<DateTime>) -> Seq<char> {
    match w {
        Some(dt) => datetime_record(dt),
        None => "None"@,
    }
}

/// The whole per-tick status record: start and current time, the four valve
/// booleans, the mode with its pending jobs, the last distance (zero when
/// absent), and the breach timestamp or its none marker.
pub open spec fn control_record(s: ControlView) -> Seq<char> {
    "{\n            \"start_time\": \""@ + datetime_record(s.start_time)
        + "\",\n            \"current_time\": \""@ + datetime_record(s.current_time)
        + "\",\n            \"ventile\": "@ + valves_record(s.valves) + ",\n            \"mode\": "@
        + mode_record(s.control_mode) + ",\n            \"distance\": \""@ + dec_rep(
        match s.distance {
            Some(d) => d as int,
            None => 0,
        },
    ) + "\",\n            \"water_breach\": \""@ + breach_record(s.water_breach) + "\"\n        }"@
}

impl Job {
    /// The status-record text for this job.
    pub fn record(&self) -> (s: String)
        ensures
            s@ == job_record(*self),
    {
        match self {
            Job::Idle => "Idle".to_owned(),
            Job::Filter => "Filter".to_owned(),
            Job::Clean(dt) => {
                let mut s = "Clean(".to_owned();
                let inner = dt.record();
                s.append(inner.as_str());
                s.append(")");
                s
            },
        }
    }
}

impl ManualControl {
    /// The status-record text for this manual-control setting.
    pub fn record(&self) -> (s: String)
        ensures
            s@ == manual_record(*self),
    {
        match self {
            ManualControl::CurrentJob(j) => {
                let mut s = "CurrentJob(".to_owned();
                let inner = j.record();
                s.append(inner.as_str());
                s.append(")");
                s
            },
            ManualControl::Bridged(v1, v2, v3, v4) => {
                let mut s = "Bridged(".to_owned();
                s.append(bool_str(*v1));
                s.append(", ");
                s.append(bool_str(*v2));
                s.append(", ");
                s.append(bool_str(*v3));
                s.append(", ");
                s.append(bool_str(*v4));
                s.append(")");
                s
            },
        }
    }
}

impl ControlMode {
    /// The status-record text for this mode.
    pub fn record(&self) -> (s: String)
        ensures
            s@ == mode_record(*self),
    {
        match self {
            ControlMode::Automatic(current_job, next_job) => {
                let mut s =
                    "{\n            \"name\": \"automatic\",\n            \"jobs\": [\n                \"".to_owned();
                let cur = current_job.record();
                s.append(cur.as_str());
                s.append("\",\n                \"");
                let next = next_job.record();
                s.append(next.as_str());
                s.append("\"\n            ]\n            }");
                s
            },
            ControlMode::Manual(mc) => {
                let mut s =
                    "{\n            \"name\": \"manual\",\n            \"jobs\": [\n                \"".to_owned();
                let inner = mc.record();
                s.append(inner.as_str());
                s.append("\"\n            ]\n            }");
                s
            },
            ControlMode::Breach => {
                "{\n            \"name\": \"breach\",\n            \"jobs\": []\n            }".to_owned()
            },
            ControlMode::Off => {
                "{\n            \"name\": \"off\",\n            \"jobs\": []\n            }".to_owned()
            },
        }
    }
}

impl Waterbreach {
    /// The status-record text for the breach latch: the latched timestamp, or
    /// an explicit none marker.
    pub fn record(&self) -> (s: String)
        ensures
            s@ == breach_record(self.0),
    {
        match &self.0 {
            Some(dt) => dt.record(),
            None => "None".to_owned(),
        }
    }
}

impl<P1: OutputPin, P2: OutputPin, P3: OutputPin, P4: OutputPin> VentilGruppe<P1, P2, P3, P4> {
    /// The status-record text for the four valve booleans.
    pub fn record(&self) -> (s: String)
        ensures
            s@ == valves_record(self@),
    {
        let mut s = "{\n            \"einlass\": ".to_owned();
        s.append(bool_str(self.einlass.is_open()));
        s.append(",\n            \"abwasser\": ");
        s.append(bool_str(self.abwasser.is_open()));
        s.append(",\n            \"filterwasser\": ");
        s.append(bool_str(self.filterwasser.is_open()));
        s.append(",\n            \"bridge\": ");
        s.append(bool_str(self.bridge.is_open()));
        s.append("\n            }");
        s
    }
}

impl<P1: OutputPin, P2: OutputPin, P3: OutputPin, P4: OutputPin> Control<P1, P2, P3, P4> {
    /// The per-tick status record emitted over the serial channel, one
    /// structured snapshot of the whole controller.
    pub fn record(&self) -> (s: String)
        ensures
            s@ == control_record(self@),
    {
        let mut s = "{\n            \"start_time\": \"".to_owned();
        let start = self.start_time.record();
        s.append(start.as_str());
        s.append("\",\n            \"current_time\": \"");
        let cur = self.current_time.record();
        s.append(cur.as_str());
        s.append("\",\n            \"ventile\": ");
        let valves = self.ventil_gruppe.record();
        s.append(valves.as_str());
        s.append(",\n            \"mode\": ");
        let mode = self.control_mode.record();
        s.append(mode.as_str());
        s.append(",\n            \"distance\": \"");
        let d: u16 = match self.distance {
            Some(d) => d,
            None => 0,
        };
        let dist = u16_to_record(d);
        s.append(dist.as_str());
        s.append("\",\n            \"water_breach\": \"");
        let breach = self.water_breach.record();
        s.append(breach.as_str());
        s.append("\"\n        }");
        s
    }
}

} // verus!
