use barflow_controller::config::{select_device, Data, Devices, LookupError, UNSET_ADDRESS};

fn device(name: &str, flow_meter: u16) -> Devices {
    Devices {
        name: name.to_string(),
        address: "192.168.1.20".to_string(),
        pump_address: 1,
        flow_meter_address: flow_meter,
        solenoid_output_address: 3,
        led_address: 4,
    }
}

#[test]
fn default_data_has_no_devices() {
    let d = Data::default();
    assert!(d.devices.is_empty());
}

#[test]
fn default_device_is_marked_as_error() {
    let d = Devices::default();
    assert_eq!(d.name, "Error");
    assert_eq!(d.address, "0.0.0.0");
    assert_eq!(d.pump_address, 999);
    assert_eq!(d.flow_meter_address, 999);
    assert_eq!(d.solenoid_output_address, 999);
    assert_eq!(d.led_address, 999);
    assert_eq!(UNSET_ADDRESS, 999);
}

#[test]
fn controller_index_is_position_in_table() {
    let devices = vec![device("tap-a", 10), device("tap-b", 20), device("tap-c", 30)];
    assert_eq!(select_device(&devices, 0).unwrap().name, "tap-a");
    assert_eq!(select_device(&devices, 2).unwrap().flow_meter_address, 30);
}

#[test]
fn negative_controller_index_is_refused() {
    let devices = vec![device("tap-a", 10)];
    assert_eq!(select_device(&devices, -1).unwrap_err(), LookupError::NegativeIndex);
    assert_eq!(select_device(&devices, i32::MIN).unwrap_err(), LookupError::NegativeIndex);
}

#[test]
fn controller_index_past_table_is_refused() {
    let devices = vec![device("tap-a", 10), device("tap-b", 20)];
    assert_eq!(select_device(&devices, 2).unwrap_err(), LookupError::UnknownController);
    assert_eq!(select_device(&Vec::new(), 0).unwrap_err(), LookupError::UnknownController);
}
