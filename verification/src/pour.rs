//! The decisions of a pour, as a state machine.
//!
//! A pour resets the dispensed volume published for the tap, opens the
//! tap's solenoid valve and lights its LED, takes a zero reading of the flow
//! meter, then measures the flow once per period and adds it to the dispensed
//! volume until that volume reaches the requested one; at the
//! end it closes the valve and turns the LED off.  A simulated pour, used to
//! exercise a client without hardware, does the same against a meter that
//! always reads the same values, and touches no coil.
//!
//! The controller performs no I/O itself: [`PourController::step`] takes what
//! the last action produced and returns the next action to perform.  The
//! volume arithmetic is done by whoever performs the actions.

use vstd::prelude::*;
use crate::config::{Devices, LookupError, device_at, select_device};

verus! {

/// How long one flow measurement lasts, in milliseconds.
pub const MEASUREMENT_PERIOD_MS: u64 = 1000;

/// The flow meter's output spans this many volts over its register range.
pub const VOLTS_FULL_SCALE: u32 = 10;

/// The register value of the flow meter at full-scale output.
pub const REGISTER_FULL_SCALE: u32 = 50000;

/// The meter factor K of the flow formula Q = K * dV / (dt * 60).
pub const FLOW_FACTOR: u32 = 1420;

/// Seconds per minute, the time unit of the flow formula.
pub const SECONDS_PER_MINUTE: u64 = 60;

/// What a simulated flow meter reads when the pour starts.
pub const SIMULATED_ZERO_READING: u16 = 18000;

/// What a simulated flow meter reads at the start of each measurement.
pub const SIMULATED_INITIAL_READING: u16 = 18001;

/// What a simulated flow meter reads at the end of each measurement.
pub const SIMULATED_FINAL_READING: u16 = 25000;

/// The Modbus points of a tap that a pour drives.
#[derive(Clone, Copy, Debug, PartialEq, Eq, Structural)]
pub struct TapPoints {
    /// Input register of the flow meter.
    pub flow_meter: u16,
    /// Coil of the solenoid valve.
    pub solenoid: u16,
    /// Coil of the LED.
    pub led: u16,
}

/// Whether a pour drives a real tap or a simulated one.
#[derive(Clone, Copy, Debug, PartialEq, Eq, Structural)]
pub enum PourMode {
    Hardware(TapPoints),
    Simulated,
}

/// Where a pour stands: the action it last asked for and awaits the outcome of.
#[derive(Clone, Copy, Debug, PartialEq, Eq, Structural)]
pub enum Phase {
    /// Nothing asked for yet.
    Idle,
    ResettingCache,
    OpeningSolenoid,
    LightingLed,
    ReadingZero,
    CheckingVolume,
    StartingTimer,
    ReadingInitial,
    Waiting,
    ReadingFinal,
    StoppingTimer,
    Publishing,
    ClosingSolenoid,
    DimmingLed,
    /// The pour is over and the tap is closed.
    Finished,
    /// An action failed: the pour was abandoned where it stood.
    Failed,
}

/// What the last action produced.
#[derive(Clone, Copy, Debug, PartialEq, Eq, Structural)]
pub enum Event {
    /// Begin the pour.
    Start,
    /// The action succeeded and produced nothing.
    Done,
    /// A register read succeeded with this value.
    Reading(u16),
    /// The dispensed volume was compared with the requested one: it has not
    /// reached it yet exactly when `keep_pouring` holds.
    Compared { keep_pouring: bool },
    /// The action failed.
    Failed,
}

/// Which kind of outside work failed, for the abort that follows.
#[derive(Clone, Copy, Debug, PartialEq, Eq, Structural)]
pub enum Failure {
    /// Publishing the dispensed volume in the cache failed.
    Cache,
    /// Writing a coil failed.
    CoilWrite,
    /// Reading the flow meter failed.
    RegisterRead,
    /// The event does not answer the action that was asked for.
    Protocol,
}

/// The next piece of outside work.
#[derive(Clone, Copy, Debug, PartialEq, Eq, Structural)]
pub enum Action {
    /// Set the dispensed volume published for the tap to zero.
    ResetCache,
    /// Write a coil of the tap.
    WriteCoil { address: u16, value: bool },
    /// Read an input register of the tap.
    ReadRegister { address: u16 },
    /// Compare the dispensed volume with the requested one.
    CompareVolume,
    /// Note the time at which a measurement starts.
    StartTimer,
    /// Wait this many milliseconds.
    Sleep { millis: u64 },
    /// Note the time at which a measurement ends.
    StopTimer,
    /// Add the flow between the readings `baseline` and `latest` over the
    /// measured time to the dispensed volume, and publish the sum.
    Accumulate { baseline: u16, latest: u16 },
    /// The pour is complete.
    Finish,
    /// Give the pour up.
    Abort(Failure),
    /// Nothing is left to do.
    Idle,
}

/// The state of a pour.  `solenoid_open` and `led_on` are what the pour has
/// last successfully written to those coils.
#[derive(Clone, Copy, Debug)]
pub struct PourController {
    pub mode: PourMode,
    pub phase: Phase,
    /// The zero reading of the flow meter.
    pub zero: u16,
    /// The reading at the start of the current measurement.
    pub initial: u16,
    /// The reading at the end of the current measurement.
    pub latest: u16,
    pub solenoid_open: bool,
    pub led_on: bool,
}

/// What a pour on a configured device needs: its state machine, the cache
/// key under which it publishes the dispensed volume, and the host of the
/// Modbus server that its actions go to.
pub struct PourPlan {
    pub controller: PourController,
    pub cache_key: String,
    pub modbus_host: String,
}

/// The parts of a pour plan, as plain values.
pub struct PourPlanView {
    pub controller: PourController,
    pub cache_key: Seq<char>,
    pub modbus_host: Seq<char>,
}

impl View for PourPlan {
    type V = PourPlanView;

    open spec fn view(&self) -> PourPlanView {
        PourPlanView {
            controller: self.controller,
            cache_key: self.cache_key@,
            modbus_host: self.modbus_host@,
        }
    }
}

/// The pour that a request for `controller_idx` runs: a fresh pour on the tap
/// of the device at that position of the table, publishing under the
/// device's name and talking to the device's Modbus server.
pub open spec fn pour_plan_spec(devices: Seq<Devices>, controller_idx: int) -> Result<
    PourPlanView,
    LookupError,
> {
    match device_at(devices, controller_idx) {
        Ok(d) => Ok(
            PourPlanView {
                controller: PourController::fresh(PourMode::Hardware(tap_points_of(d))),
                cache_key: d.name@,
                modbus_host: d.address@,
            },
        ),
        Err(e) => Err(e),
    }
}

/// Plans the pour that a request for `controller_idx` runs on the device table.
pub fn plan_pour(devices: &Vec<Devices>, controller_idx: i32) -> (r: Result<PourPlan, LookupError>)
    ensures
        match pour_plan_spec(devices@, controller_idx as int) {
            Ok(p) => r matches Ok(plan) && plan@ == p,
            Err(e) => r matches Err(x) && x == e,
        },
{
    match select_device(devices, controller_idx) {
        Ok(device) => Ok(
            PourPlan {
                controller: PourController::for_device(device),
                cache_key: device.name.clone(),
                modbus_host: device.address.clone(),
            },
        ),
        Err(e) => Err(e),
    }
}

/// The Modbus points of a configured device that a pour drives.
pub open spec fn tap_points_of(device: Devices) -> TapPoints {
    TapPoints {
        flow_meter: device.flow_meter_address,
        solenoid: device.solenoid_output_address,
        led: device.led_address,
    }
}

/// The reading that a measurement's flow is taken from: the one at its start,
/// unless the meter did not move during it, in which case the zero reading.
pub open spec fn flow_baseline(zero: u16, initial: u16, latest: u16) -> u16 {
    if latest == initial {
        zero
    } else {
        initial
    }
}

/// Which outside work the phase awaits, for the abort when it fails.
pub open spec fn failure_of(phase: Phase) -> Failure {
    match phase {
        Phase::ResettingCache | Phase::Publishing => Failure::Cache,
        Phase::OpeningSolenoid | Phase::LightingLed | Phase::ClosingSolenoid
        | Phase::DimmingLed => Failure::CoilWrite,
        Phase::ReadingZero | Phase::ReadingInitial | Phase::ReadingFinal => Failure::RegisterRead,
        _ => Failure::Protocol,
    }
}

/// A pour that has ended, one way or the other.
pub open spec fn is_terminal(phase: Phase) -> bool {
    phase is Finished || phase is Failed
}

/// The state with another phase.
pub open spec fn with_phase(s: PourController, phase: Phase) -> PourController {
    PourController { phase, ..s }
}

/// Abandon the pour.
pub open spec fn abort(s: PourController, f: Failure) -> (PourController, Action) {
    (with_phase(s, Phase::Failed), Action::Abort(f))
}

/// The transition of a pour on an event: the next state and the next action.
pub open spec fn pour_step(s: PourController, e: Event) -> (PourController, Action) {
    if is_terminal(s.phase) {
        (s, Action::Idle)
    } else if e is Failed {
        abort(s, failure_of(s.phase))
    } else {
        match (s.phase, e) {
            (Phase::Idle, Event::Start) => (
                with_phase(s, Phase::ResettingCache),
                Action::ResetCache,
            ),
            (Phase::ResettingCache, Event::Done) => match s.mode {
                PourMode::Hardware(p) => (
                    with_phase(s, Phase::OpeningSolenoid),
                    Action::WriteCoil { address: p.solenoid, value: true },
                ),
                PourMode::Simulated => (
                    PourController {
                        phase: Phase::CheckingVolume,
                        zero: SIMULATED_ZERO_READING,
                        ..s
                    },
                    Action::CompareVolume,
                ),
            },
            (Phase::OpeningSolenoid, Event::Done) => match s.mode {
                PourMode::Hardware(p) => (
                    PourController { phase: Phase::LightingLed, solenoid_open: true, ..s },
                    Action::WriteCoil { address: p.led, value: true },
                ),
                PourMode::Simulated => abort(s, Failure::Protocol),
            },
            (Phase::LightingLed, Event::Done) => match s.mode {
                PourMode::Hardware(p) => (
                    PourController { phase: Phase::ReadingZero, led_on: true, ..s },
                    Action::ReadRegister { address: p.flow_meter },
                ),
                PourMode::Simulated => abort(s, Failure::Protocol),
            },
            (Phase::ReadingZero, Event::Reading(v)) => (
                PourController { phase: Phase::CheckingVolume, zero: v, ..s },
                Action::CompareVolume,
            ),
            (Phase::CheckingVolume, Event::Compared { keep_pouring }) => if keep_pouring {
                (with_phase(s, Phase::StartingTimer), Action::StartTimer)
            } else {
                match s.mode {
                    PourMode::Hardware(p) => (
                        with_phase(s, Phase::ClosingSolenoid),
                        Action::WriteCoil { address: p.solenoid, value: false },
                    ),
                    PourMode::Simulated => (with_phase(s, Phase::Finished), Action::Finish),
                }
            },
            (Phase::StartingTimer, Event::Done) => match s.mode {
                PourMode::Hardware(p) => (
                    with_phase(s, Phase::ReadingInitial),
                    Action::ReadRegister { address: p.flow_meter },
                ),
                PourMode::Simulated => (
                    PourController {
                        phase: Phase::Waiting,
                        initial: SIMULATED_INITIAL_READING,
                        ..s
                    },
                    Action::Sleep { millis: MEASUREMENT_PERIOD_MS },
                ),
            },
            (Phase::ReadingInitial, Event::Reading(v)) => (
                PourController { phase: Phase::Waiting, initial: v, ..s },
                Action::Sleep { millis: MEASUREMENT_PERIOD_MS },
            ),
            (Phase::Waiting, Event::Done) => match s.mode {
                PourMode::Hardware(p) => (
                    with_phase(s, Phase::ReadingFinal),
                    Action::ReadRegister { address: p.flow_meter },
                ),
                PourMode::Simulated => (
                    PourController {
                        phase: Phase::StoppingTimer,
                        latest: SIMULATED_FINAL_READING,
                        ..s
                    },
                    Action::StopTimer,
                ),
            },
            (Phase::ReadingFinal, Event::Reading(v)) => (
                PourController { phase: Phase::StoppingTimer, latest: v, ..s },
                Action::StopTimer,
            ),
            (Phase::StoppingTimer, Event::Done) => (
                with_phase(s, Phase::Publishing),
                Action::Accumulate {
                    baseline: flow_baseline(s.zero, s.initial, s.latest),
                    latest: s.latest,
                },
            ),
            (Phase::Publishing, Event::Done) => (
                with_phase(s, Phase::CheckingVolume),
                Action::CompareVolume,
            ),
            (Phase::ClosingSolenoid, Event::Done) => match s.mode {
                PourMode::Hardware(p) => (
                    PourController { phase: Phase::DimmingLed, solenoid_open: false, ..s },
                    Action::WriteCoil { address: p.led, value: false },
                ),
                PourMode::Simulated => abort(s, Failure::Protocol),
            },
            (Phase::DimmingLed, Event::Done) => (
                PourController { phase: Phase::Finished, led_on: false, ..s },
                Action::Finish,
            ),
            _ => abort(s, Failure::Protocol),
        }
    }
}

impl PourController {
    /// A pour that has not started, in the given mode.
    pub open spec fn fresh(mode: PourMode) -> PourController {
        PourController {
            mode,
            phase: Phase::Idle,
            zero: 0,
            initial: 0,
            latest: 0,
            solenoid_open: false,
            led_on: false,
        }
    }

    /// A pour on the given tap points that has not started.
    pub fn new(mode: PourMode) -> (c: PourController)
        ensures
            c == Self::fresh(mode),
    {
        PourController {
            mode,
            phase: Phase::Idle,
            zero: 0,
            initial: 0,
            latest: 0,
            solenoid_open: false,
            led_on: false,
        }
    }

    /// A pour on the tap of a configured device: its flow meter, its solenoid
    /// valve and its LED.
    pub fn for_device(device: &Devices) -> (c: PourController)
        ensures
            c == Self::fresh(PourMode::Hardware(tap_points_of(*device))),
    {
        Self::new(
            PourMode::Hardware(
                TapPoints {
                    flow_meter: device.flow_meter_address,
                    solenoid: device.solenoid_output_address,
                    led: device.led_address,
                },
            ),
        )
    }

    /// A simulated pour that has not started.
    pub fn simulated() -> (c: PourController)
        ensures
            c == Self::fresh(PourMode::Simulated),
    {
        Self::new(PourMode::Simulated)
    }

    /// Whether the pour has ended, completed or abandoned.
    pub fn is_over(&self) -> (r: bool)
        ensures
            r == is_terminal(self.phase),
    {
        match self.phase {
            Phase::Finished | Phase::Failed => true,
            _ => false,
        }
    }

    fn abort(&mut self, f: Failure) -> (a: Action)
        ensures
            (*final(self), a) == abort(*old(self), f),
    {
        self.phase = Phase::Failed;
        Action::Abort(f)
    }

    /// Take the outcome of the last action, and return the next action.
    pub fn step(&mut self, event: Event) -> (a: Action)
        ensures
            (*final(self), a) == pour_step(*old(self), event),
    {
        if self.is_over() {
            return Action::Idle;
        }
        if let Event::Failed = event {
            let f = match self.phase {
                Phase::ResettingCache | Phase::Publishing => Failure::Cache,
                Phase::OpeningSolenoid | Phase::LightingLed | Phase::ClosingSolenoid
                | Phase::DimmingLed => Failure::CoilWrite,
                Phase::ReadingZero | Phase::ReadingInitial | Phase::ReadingFinal => Failure::RegisterRead,
                _ => Failure::Protocol,
            };
            return self.abort(f);
        }
        match (self.phase, event) {
            (Phase::Idle, Event::Start) => {
                self.phase = Phase::ResettingCache;
                Action::ResetCache
            },
            (Phase::ResettingCache, Event::Done) => match self.mode {
                PourMode::Hardware(p) => {
                    self.phase = Phase::OpeningSolenoid;
                    Action::WriteCoil { address: p.solenoid, value: true }
                },
                PourMode::Simulated => {
                    self.phase = Phase::CheckingVolume;
                    self.zero = SIMULATED_ZERO_READING;
                    Action::CompareVolume
                },
            },
            (Phase::OpeningSolenoid, Event::Done) => match self.mode {
                PourMode::Hardware(p) => {
                    self.phase = Phase::LightingLed;
                    self.solenoid_open = true;
                    Action::WriteCoil { address: p.led, value: true }
                },
                PourMode::Simulated => self.abort(Failure::Protocol),
            },
            (Phase::LightingLed, Event::Done) => match self.mode {
                PourMode::Hardware(p) => {
                    self.phase = Phase::ReadingZero;
                    self.led_on = true;
                    Action::ReadRegister { address: p.flow_meter }
                },
                PourMode::Simulated => self.abort(Failure::Protocol),
            },
            (Phase::ReadingZero, Event::Reading(v)) => {
                self.phase = Phase::CheckingVolume;
                self.zero = v;
                Action::CompareVolume
            },
            (Phase::CheckingVolume, Event::Compared { keep_pouring }) => {
                if keep_pouring {
                    self.phase = Phase::StartingTimer;
                    Action::StartTimer
                } else {
                    match self.mode {
                        PourMode::Hardware(p) => {
                            self.phase = Phase::ClosingSolenoid;
                            Action::WriteCoil { address: p.solenoid, value: false }
                        },
                        PourMode::Simulated => {
                            self.phase = Phase::Finished;
                            Action::Finish
                        },
                    }
                }
            },
            (Phase::StartingTimer, Event::Done) => match self.mode {
                PourMode::Hardware(p) => {
                    self.phase = Phase::ReadingInitial;
                    Action::ReadRegister { address: p.flow_meter }
                },
                PourMode::Simulated => {
                    self.phase = Phase::Waiting;
                    self.initial = SIMULATED_INITIAL_READING;
                    Action::Sleep { millis: MEASUREMENT_PERIOD_MS }
                },
            },
            (Phase::ReadingInitial, Event::Reading(v)) => {
                self.phase = Phase::Waiting;
                self.initial = v;
                Action::Sleep { millis: MEASUREMENT_PERIOD_MS }
            },
            (Phase::Waiting, Event::Done) => match self.mode {
                PourMode::Hardware(p) => {
                    self.phase = Phase::ReadingFinal;
                    Action::ReadRegister { address: p.flow_meter }
                },
                PourMode::Simulated => {
                    self.phase = Phase::StoppingTimer;
                    self.latest = SIMULATED_FINAL_READING;
                    Action::StopTimer
                },
            },
            (Phase::ReadingFinal, Event::Reading(v)) => {
                self.phase = Phase::StoppingTimer;
                self.latest = v;
                Action::StopTimer
            },
            (Phase::StoppingTimer, Event::Done) => {
                self.phase = Phase::Publishing;
                let baseline = if self.latest == self.initial {
                    self.zero
                } else {
                    self.initial
                };
                Action::Accumulate { baseline, latest: self.latest }
            },
            (Phase::Publishing, Event::Done) => {
                self.phase = Phase::CheckingVolume;
                Action::CompareVolume
            },
            (Phase::ClosingSolenoid, Event::Done) => match self.mode {
                PourMode::Hardware(p) => {
                    self.phase = Phase::DimmingLed;
                    self.solenoid_open = false;
                    Action::WriteCoil { address: p.led, value: false }
                },
                PourMode::Simulated => self.abort(Failure::Protocol),
            },
            (Phase::DimmingLed, Event::Done) => {
                self.phase = Phase::Finished;
                self.led_on = false;
                Action::Finish
            },
            _ => self.abort(Failure::Protocol),
        }
    }
}


/// The coils a pour has last written agree with where it stands: closed and
/// dark before the valve is opened and once the pour is complete, open and lit
/// while the flow is measured, and never touched by a simulated pour.
pub open spec fn tap_state_agrees(s: PourController) -> bool {
    match s.mode {
        PourMode::Simulated => !s.solenoid_open && !s.led_on,
        PourMode::Hardware(_) => match s.phase {
            Phase::Idle | Phase::ResettingCache | Phase::OpeningSolenoid | Phase::Finished =>
                !s.solenoid_open && !s.led_on,
            Phase::LightingLed => s.solenoid_open && !s.led_on,
            Phase::DimmingLed => !s.solenoid_open && s.led_on,
            Phase::Failed => true,
            _ => s.solenoid_open && s.led_on,
        },
    }
}

/// The state after a run of events.
pub open spec fn run(s: PourController, events: Seq<Event>) -> PourController
    decreases events.len(),
{
    if events.len() == 0 {
        s
    } else {
        run(pour_step(s, events[0]).0, events.drop_first())
    }
}

/// The actions a run of events asks for, one per event.
pub open spec fn run_actions(s: PourController, events: Seq<Event>) -> Seq<Action>
    decreases events.len(),
{
    if events.len() == 0 {
        Seq::empty()
    } else {
        seq![pour_step(s, events[0]).1] + run_actions(pour_step(s, events[0]).0, events.drop_first())
    }
}

/// A pour that has not started agrees with its coils.
pub proof fn lemma_fresh_agrees(mode: PourMode)
    ensures
        tap_state_agrees(PourController::fresh(mode)),
{
}

/// Every step keeps the coils in agreement with where the pour stands.
pub proof fn lemma_step_keeps_agreement(s: PourController, e: Event)
    requires
        tap_state_agrees(s),
    ensures
        tap_state_agrees(pour_step(s, e).0),
{
}

/// A run of events keeps the coils in agreement with where the pour stands.
pub proof fn lemma_run_keeps_agreement(s: PourController, events: Seq<Event>)
    requires
        tap_state_agrees(s),
    ensures
        tap_state_agrees(run(s, events)),
    decreases events.len(),
{
    if events.len() > 0 {
        lemma_step_keeps_agreement(s, events[0]);
        lemma_run_keeps_agreement(pour_step(s, events[0]).0, events.drop_first());
    }
}

/// Law: whatever the outcomes of its actions, a pour that completes has closed
/// the tap's valve and turned its LED off.
pub proof fn law_completed_pour_closes_tap(mode: PourMode, events: Seq<Event>)
    ensures
        run(PourController::fresh(mode), events).phase is Finished ==> {
            let s = run(PourController::fresh(mode), events);
            !s.solenoid_open && !s.led_on
        },
{
    lemma_run_keeps_agreement(PourController::fresh(mode), events);
}

/// Law: flow is measured and added to the dispensed volume only while the
/// tap's valve is open and its LED lit.
pub proof fn law_flow_counted_only_while_tap_open(s: PourController, e: Event)
    requires
        tap_state_agrees(s),
        s.mode is Hardware,
    ensures
        pour_step(s, e).1 is Accumulate ==> pour_step(s, e).0.solenoid_open && pour_step(s, e).0.led_on,
{
}

/// Law: the valve is closed only once the comparison of the dispensed volume
/// with the requested one says to stop, and closing it is the action then.
pub proof fn law_valve_closes_only_when_volume_reached(s: PourController, e: Event)
    ensures
        ({
            let (s2, a) = pour_step(s, e);
            s2.phase is ClosingSolenoid && !(s.phase is ClosingSolenoid) ==> {
                &&& s.phase is CheckingVolume
                &&& e == Event::Compared { keep_pouring: false }
                &&& s.mode matches PourMode::Hardware(p) && a == (Action::WriteCoil {
                    address: p.solenoid,
                    value: false,
                })
            }
        }),
{
}

/// Law: as long as the comparison says the requested volume is not reached,
/// the pour starts another measurement, with the tap left as it is.
pub proof fn law_pour_continues_below_target(s: PourController)
    requires
        s.phase is CheckingVolume,
    ensures
        pour_step(s, Event::Compared { keep_pouring: true }) == (
            with_phase(s, Phase::StartingTimer),
            Action::StartTimer,
        ),
{
}

/// Law: a pour only reads its tap's flow meter and only writes its tap's
/// valve and LED coils; a simulated pour touches no Modbus point at all.
pub proof fn law_pour_touches_only_its_tap(s: PourController, e: Event)
    ensures
        ({
            let a = pour_step(s, e).1;
            &&& a matches Action::ReadRegister { address } ==> s.mode matches PourMode::Hardware(p)
                && address == p.flow_meter
            &&& a matches Action::WriteCoil { address, value } ==> s.mode matches PourMode::Hardware(p)
                && (address == p.solenoid || address == p.led)
        }),
{
}

/// Law: the flow of a measurement is taken from the reading at its start,
/// or from the zero reading when the meter did not move during it.
pub proof fn law_flow_baseline(s: PourController, e: Event)
    ensures
        pour_step(s, e).1 matches Action::Accumulate { baseline, latest } ==> {
            &&& latest == s.latest
            &&& (latest != s.initial ==> baseline == s.initial)
            &&& (latest == s.initial ==> baseline == s.zero)
        },
{
}

/// Law: an ended pour, completed or abandoned, stays as it is and asks for
/// nothing more, whatever it is told.
pub proof fn law_ended_pour_is_inert(s: PourController, e: Event)
    requires
        is_terminal(s.phase),
    ensures
        pour_step(s, e) == (s, Action::Idle),
{
}

/// Every action of a run from an ended pour asks for nothing.
pub proof fn lemma_ended_run_is_idle(s: PourController, events: Seq<Event>, j: int)
    requires
        is_terminal(s.phase),
        0 <= j < events.len(),
    ensures
        run_actions(s, events).len() == events.len(),
        run_actions(s, events)[j] == Action::Idle,
    decreases events.len(),
{
    lemma_run_actions_len(s, events);
    if j > 0 {
        lemma_ended_run_is_idle(s, events.drop_first(), j - 1);
    }
}

/// A run asks for one action per event.
pub proof fn lemma_run_actions_len(s: PourController, events: Seq<Event>)
    ensures
        run_actions(s, events).len() == events.len(),
    decreases events.len(),
{
    if events.len() > 0 {
        lemma_run_actions_len(pour_step(s, events[0]).0, events.drop_first());
    }
}

/// Law: a pour asks for the published volume to be reset before it asks for
/// any coil to be switched on.
pub proof fn law_cache_reset_before_tap_opens(mode: PourMode, events: Seq<Event>, j: int)
    requires
        0 <= j < events.len(),
        run_actions(PourController::fresh(mode), events)[j] matches Action::WriteCoil { value, .. }
            && value,
    ensures
        exists|i: int| 0 <= i < j && run_actions(PourController::fresh(mode), events)[i] == Action::ResetCache,
{
    let s = PourController::fresh(mode);
    let acts = run_actions(s, events);
    let (s1, a0) = pour_step(s, events[0]);
    lemma_run_actions_len(s1, events.drop_first());
    assert(acts[0] == a0);
    if events[0] == Event::Start {
        assert(a0 == Action::ResetCache);
        assert(j != 0);
        assert(acts[0] == Action::ResetCache);
    } else {
        assert(s1.phase is Failed);
        assert(j != 0);
        lemma_ended_run_is_idle(s1, events.drop_first(), j - 1);
        assert(acts[j] == run_actions(s1, events.drop_first())[j - 1]);
    }
}

/// Law: the pour planned for a position of the table runs, from its start,
/// on the flow meter, valve and LED of the device at that position, publishes
/// under that device's name and talks to that device's Modbus server, whatever
/// the other devices hold; an index that selects no device is refused.
pub proof fn law_plan_follows_selected_device(devices: Seq<Devices>, controller_idx: int)
    ensures
        0 <= controller_idx < devices.len() ==> (pour_plan_spec(devices, controller_idx) matches Ok(p)
            && p.modbus_host == devices[controller_idx].address@
            && p.cache_key == devices[controller_idx].name@
            && p.controller == (PourController {
            mode: PourMode::Hardware(
                TapPoints {
                    flow_meter: devices[controller_idx].flow_meter_address,
                    solenoid: devices[controller_idx].solenoid_output_address,
                    led: devices[controller_idx].led_address,
                },
            ),
            phase: Phase::Idle,
            zero: 0,
            initial: 0,
            latest: 0,
            solenoid_open: false,
            led_on: false,
        })),
        controller_idx < 0 ==> pour_plan_spec(devices, controller_idx) == Err::<
            PourPlanView,
            LookupError,
        >(LookupError::NegativeIndex),
        controller_idx >= devices.len() ==> pour_plan_spec(devices, controller_idx) == Err::<
            PourPlanView,
            LookupError,
        >(LookupError::UnknownController),
{
}

/// Law: the zero reading of a pour is the value that answers the read asked
/// for once the LED is lit (or, simulated, the fixed zero reading once the
/// published volume is reset), and no other step changes it.
pub proof fn law_zero_reading_is_kept(s: PourController, e: Event)
    ensures
        forall|v: u16| s.phase is ReadingZero && e == Event::Reading(v) ==> #[trigger] pour_step(s, Event::Reading(v)).0.zero == v,
        s.phase is ResettingCache && s.mode is Simulated && e is Done ==> pour_step(s, e).0.zero
            == SIMULATED_ZERO_READING,
        !(s.phase is ReadingZero && e is Reading) && !(s.phase is ResettingCache && s.mode is Simulated)
            ==> pour_step(s, e).0.zero == s.zero,
{
}

/// Law: a measurement's start and end readings are the values that answer
/// the reads asked for at its start and its end (or, simulated, the fixed
/// readings), and no other step changes them.
pub proof fn law_measurement_readings_are_kept(s: PourController, e: Event)
    ensures
        forall|v: u16| s.phase is ReadingInitial ==> #[trigger] pour_step(s, Event::Reading(v)).0.initial == v,
        forall|v: u16| s.phase is ReadingFinal ==> #[trigger] pour_step(s, Event::Reading(v)).0.latest == v,
        s.phase is StartingTimer && s.mode is Simulated && e is Done ==> pour_step(s, e).0.initial
            == SIMULATED_INITIAL_READING,
        s.phase is Waiting && s.mode is Simulated && e is Done ==> pour_step(s, e).0.latest
            == SIMULATED_FINAL_READING,
        !(s.phase is ReadingInitial && e is Reading) && !(s.phase is StartingTimer && s.mode is Simulated)
            ==> pour_step(s, e).0.initial == s.initial,
        !(s.phase is ReadingFinal && e is Reading) && !(s.phase is Waiting && s.mode is Simulated)
            ==> pour_step(s, e).0.latest == s.latest,
{
}

/// Law: once a pour has taken its zero reading, a run of events never
/// changes it.
pub proof fn law_zero_reading_kept_by_runs(s: PourController, events: Seq<Event>)
    requires
        !(s.phase is Idle || s.phase is ResettingCache || s.phase is OpeningSolenoid
            || s.phase is LightingLed || s.phase is ReadingZero),
    ensures
        run(s, events).zero == s.zero,
    decreases events.len(),
{
    if events.len() > 0 {
        let s1 = pour_step(s, events[0]).0;
        law_zero_reading_is_kept(s, events[0]);
        assert(!(s1.phase is Idle || s1.phase is ResettingCache || s1.phase is OpeningSolenoid
            || s1.phase is LightingLed || s1.phase is ReadingZero));
        law_zero_reading_kept_by_runs(s1, events.drop_first());
    }
}

/// Between the steps of a simulated pour, the readings it measures are the
/// fixed ones of its phase, and it never waits on a meter read.
pub open spec fn simulated_readings_fixed(s: PourController) -> bool {
    s.mode is Simulated ==> {
        &&& !(s.phase is ReadingInitial) && !(s.phase is ReadingFinal)
        &&& (s.phase is Waiting ==> s.initial == SIMULATED_INITIAL_READING)
        &&& (s.phase is StoppingTimer ==> s.initial == SIMULATED_INITIAL_READING
            && s.latest == SIMULATED_FINAL_READING)
    }
}

/// Every step keeps the readings of a simulated pour fixed, and every flow a
/// simulated pour measures runs from the fixed initial reading to the fixed
/// final one.
pub proof fn lemma_simulated_step(s: PourController, e: Event)
    requires
        simulated_readings_fixed(s),
    ensures
        simulated_readings_fixed(pour_step(s, e).0),
        s.mode is Simulated && pour_step(s, e).1 is Accumulate ==> pour_step(s, e).1 == (Action::Accumulate {
            baseline: SIMULATED_INITIAL_READING,
            latest: SIMULATED_FINAL_READING,
        }),
{
}

/// Law: every measurement of a simulated pour, in every period, adds the flow
/// from the fixed initial reading to the fixed final reading.
pub proof fn law_simulated_flow_is_fixed(events: Seq<Event>, j: int)
    requires
        0 <= j < events.len(),
        run_actions(PourController::fresh(PourMode::Simulated), events)[j] is Accumulate,
    ensures
        run_actions(PourController::fresh(PourMode::Simulated), events)[j] == (Action::Accumulate {
            baseline: SIMULATED_INITIAL_READING,
            latest: SIMULATED_FINAL_READING,
        }),
{
    lemma_simulated_run(PourController::fresh(PourMode::Simulated), events, j);
}

/// A run from a simulated pour with fixed readings measures only fixed flows.
pub proof fn lemma_simulated_run(s: PourController, events: Seq<Event>, j: int)
    requires
        s.mode is Simulated,
        simulated_readings_fixed(s),
        0 <= j < events.len(),
        run_actions(s, events)[j] is Accumulate,
    ensures
        run_actions(s, events)[j] == (Action::Accumulate {
            baseline: SIMULATED_INITIAL_READING,
            latest: SIMULATED_FINAL_READING,
        }),
    decreases events.len(),
{
    let (s1, a0) = pour_step(s, events[0]);
    lemma_simulated_step(s, events[0]);
    lemma_run_actions_len(s1, events.drop_first());
    let acts = run_actions(s, events);
    assert(acts[0] == a0);
    if j > 0 {
        assert(acts[j] == run_actions(s1, events.drop_first())[j - 1]);
        assert(s1.mode is Simulated);
        lemma_simulated_run(s1, events.drop_first(), j - 1);
    }
}

} // verus!
