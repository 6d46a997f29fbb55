use barflow_controller::config::{Devices, LookupError};
use barflow_controller::pour::{
    plan_pour, Action, Event, Failure, Phase, PourController, PourMode, TapPoints, FLOW_FACTOR,
    MEASUREMENT_PERIOD_MS, REGISTER_FULL_SCALE, SECONDS_PER_MINUTE, VOLTS_FULL_SCALE,
    SIMULATED_FINAL_READING, SIMULATED_INITIAL_READING, SIMULATED_ZERO_READING,
};
use barflow_controller::service::MyBarFlowService;

const POINTS: TapPoints = TapPoints { flow_meter: 30, solenoid: 12, led: 13 };

fn hardware() -> PourController {
    PourController::new(PourMode::Hardware(POINTS))
}

fn device() -> Devices {
    Devices {
        name: "tap-1".to_string(),
        address: "10.0.0.5".to_string(),
        pump_address: 11,
        flow_meter_address: 30,
        solenoid_output_address: 12,
        led_address: 13,
    }
}

/// Runs the events, returning the actions asked for.
fn drive(c: &mut PourController, events: &[Event]) -> Vec<Action> {
    events.iter().map(|e| c.step(*e)).collect()
}

#[test]
fn hardware_pour_with_one_measurement() {
    let mut c = hardware();
    let actions = drive(
        &mut c,
        &[
            Event::Start,
            Event::Done,
            Event::Done,
            Event::Done,
            Event::Reading(100),
            Event::Compared { keep_pouring: true },
            Event::Done,
            Event::Reading(110),
            Event::Done,
            Event::Reading(150),
            Event::Done,
            Event::Done,
            Event::Compared { keep_pouring: false },
            Event::Done,
            Event::Done,
        ],
    );
    assert_eq!(
        actions,
        vec![
            Action::ResetCache,
            Action::WriteCoil { address: 12, value: true },
            Action::WriteCoil { address: 13, value: true },
            Action::ReadRegister { address: 30 },
            Action::CompareVolume,
            Action::StartTimer,
            Action::ReadRegister { address: 30 },
            Action::Sleep { millis: MEASUREMENT_PERIOD_MS },
            Action::ReadRegister { address: 30 },
            Action::StopTimer,
            Action::Accumulate { baseline: 110, latest: 150 },
            Action::CompareVolume,
            Action::WriteCoil { address: 12, value: false },
            Action::WriteCoil { address: 13, value: false },
            Action::Finish,
        ]
    );
    assert_eq!(c.phase, Phase::Finished);
    assert!(!c.solenoid_open);
    assert!(!c.led_on);
    assert!(c.is_over());
}

#[test]
fn still_meter_measures_from_zero_reading() {
    let mut c = hardware();
    drive(&mut c, &[Event::Start, Event::Done, Event::Done, Event::Done, Event::Reading(90)]);
    let actions = drive(
        &mut c,
        &[
            Event::Compared { keep_pouring: true },
            Event::Done,
            Event::Reading(140),
            Event::Done,
            Event::Reading(140),
            Event::Done,
        ],
    );
    assert_eq!(actions[5], Action::Accumulate { baseline: 90, latest: 140 });
    assert!(c.solenoid_open && c.led_on);
}

#[test]
fn pour_with_volume_already_reached_closes_at_once() {
    let mut c = hardware();
    let actions = drive(
        &mut c,
        &[
            Event::Start,
            Event::Done,
            Event::Done,
            Event::Done,
            Event::Reading(5),
            Event::Compared { keep_pouring: false },
            Event::Done,
            Event::Done,
        ],
    );
    assert_eq!(actions[5], Action::WriteCoil { address: 12, value: false });
    assert_eq!(actions[7], Action::Finish);
    assert_eq!(c.phase, Phase::Finished);
}

#[test]
fn simulated_pour_uses_fixed_readings_and_no_coils() {
    let mut c = PourController::simulated();
    let actions = drive(
        &mut c,
        &[
            Event::Start,
            Event::Done,
            Event::Compared { keep_pouring: true },
            Event::Done,
            Event::Done,
            Event::Done,
            Event::Done,
            Event::Compared { keep_pouring: false },
        ],
    );
    assert_eq!(
        actions,
        vec![
            Action::ResetCache,
            Action::CompareVolume,
            Action::StartTimer,
            Action::Sleep { millis: 1000 },
            Action::StopTimer,
            Action::Accumulate { baseline: SIMULATED_INITIAL_READING, latest: SIMULATED_FINAL_READING },
            Action::CompareVolume,
            Action::Finish,
        ]
    );
    assert_eq!(c.zero, SIMULATED_ZERO_READING);
    assert_eq!((SIMULATED_ZERO_READING, SIMULATED_INITIAL_READING, SIMULATED_FINAL_READING), (18000, 18001, 25000));
    assert!(!c.solenoid_open && !c.led_on);
}

#[test]
fn failures_abort_with_their_cause() {
    let mut c = hardware();
    assert_eq!(c.step(Event::Start), Action::ResetCache);
    assert_eq!(c.step(Event::Failed), Action::Abort(Failure::Cache));
    assert_eq!(c.phase, Phase::Failed);

    let mut c = hardware();
    drive(&mut c, &[Event::Start, Event::Done]);
    assert_eq!(c.step(Event::Failed), Action::Abort(Failure::CoilWrite));

    let mut c = hardware();
    drive(&mut c, &[Event::Start, Event::Done, Event::Done, Event::Done]);
    assert_eq!(c.step(Event::Failed), Action::Abort(Failure::RegisterRead));
    // the valve stays open: an abandoned pour does not close it
    assert!(c.solenoid_open);
}

#[test]
fn unexpected_event_is_a_protocol_failure() {
    let mut c = hardware();
    assert_eq!(c.step(Event::Done), Action::Abort(Failure::Protocol));
    let mut c = hardware();
    drive(&mut c, &[Event::Start, Event::Done]);
    assert_eq!(c.step(Event::Reading(3)), Action::Abort(Failure::Protocol));
}

#[test]
fn ended_pour_ignores_events() {
    let mut c = hardware();
    c.step(Event::Failed);
    let before = c;
    assert_eq!(c.step(Event::Start), Action::Idle);
    assert_eq!(c.step(Event::Done), Action::Idle);
    assert_eq!(c.phase, before.phase);
}

#[test]
fn first_action_is_cache_reset() {
    assert_eq!(hardware().step(Event::Start), Action::ResetCache);
    assert_eq!(PourController::simulated().step(Event::Start), Action::ResetCache);
}

#[test]
fn pour_for_device_uses_its_points() {
    let c = PourController::for_device(&device());
    assert_eq!(c.mode, PourMode::Hardware(POINTS));
    assert_eq!(c.phase, Phase::Idle);
}

#[test]
fn service_flow_device_is_selected_device() {
    let service = MyBarFlowService::default();
    let devices = vec![device()];
    assert_eq!(service.flow_device(&devices, 0).unwrap().address, "10.0.0.5");
    assert_eq!(service.flow_device(&devices, 1).unwrap_err(), LookupError::UnknownController);
}

#[test]
fn flow_formula_constants() {
    assert_eq!((VOLTS_FULL_SCALE, REGISTER_FULL_SCALE, FLOW_FACTOR, SECONDS_PER_MINUTE), (10, 50000, 1420, 60));
}

#[test]
fn service_level_key_is_device_name() {
    let service = MyBarFlowService::default();
    let devices = vec![device()];
    assert_eq!(service.level_key(&devices, 0).unwrap(), "tap-1");
    assert_eq!(service.level_key(&devices, 5).unwrap_err(), LookupError::UnknownController);
}

#[test]
fn pour_measures_again_while_below_target() {
    let mut c = hardware();
    drive(&mut c, &[Event::Start, Event::Done, Event::Done, Event::Done, Event::Reading(1)]);
    for round in 0..3u16 {
        assert_eq!(c.step(Event::Compared { keep_pouring: true }), Action::StartTimer);
        assert_eq!(c.step(Event::Done), Action::ReadRegister { address: 30 });
        assert_eq!(c.step(Event::Reading(10 * round)), Action::Sleep { millis: 1000 });
        assert_eq!(c.step(Event::Done), Action::ReadRegister { address: 30 });
        assert_eq!(c.step(Event::Reading(10 * round + 7)), Action::StopTimer);
        assert_eq!(
            c.step(Event::Done),
            Action::Accumulate { baseline: 10 * round, latest: 10 * round + 7 }
        );
        assert_eq!(c.step(Event::Done), Action::CompareVolume);
        assert!(c.solenoid_open && c.led_on);
    }
}

#[test]
fn planned_pour_publishes_under_device_name() {
    let devices = vec![device()];
    let plan = plan_pour(&devices, 0).unwrap();
    assert_eq!(plan.controller.mode, PourMode::Hardware(POINTS));
    assert_eq!(plan.controller.phase, Phase::Idle);
    assert_eq!(plan.cache_key, "tap-1");
    assert_eq!(plan.modbus_host, "10.0.0.5");
    let service = MyBarFlowService::default();
    assert_eq!(*service.level_key(&devices, 0).unwrap(), plan.cache_key);
    assert_eq!(plan_pour(&devices, 1).err(), Some(LookupError::UnknownController));
    assert_eq!(plan_pour(&devices, -1).err(), Some(LookupError::NegativeIndex));
}
