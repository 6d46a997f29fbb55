//! The device table of the tap controllers, as read from the configuration.

use vstd::prelude::*;

verus! {

/// The configuration as a whole: the list of tap controllers.
pub struct Data {
    pub devices: Vec<Devices>,
}

/// One tap controller: its name (the Redis key under which its dispensed
/// volume is published), the IP address of its Modbus server, and the Modbus
/// addresses of its pump, flow meter, solenoid valve and LED.
#[derive(Debug)]
pub struct Devices {
    pub name: String,
    pub address: String,
    pub pump_address: u16,
    pub flow_meter_address: u16,
    pub solenoid_output_address: u16,
    pub led_address: u16,
}

/// The address given to every Modbus point of a device that has no configuration.
pub const UNSET_ADDRESS: u16 = 999;

impl Default for Data {
    fn default() -> (d: Data)
        ensures
            d.devices@.len() == 0,
    {
        Data { devices: Vec::new() }
    }
}

impl Default for Devices {
    fn default() -> (d: Devices)
        ensures
            d.name@ == "Error"@,
            d.address@ == "0.0.0.0"@,
            d.pump_address == UNSET_ADDRESS,
            d.flow_meter_address == UNSET_ADDRESS,
            d.solenoid_output_address == UNSET_ADDRESS,
            d.led_address == UNSET_ADDRESS,
    {
        Devices {
            name: String::from_str("Error"),
            address: String::from_str("0.0.0.0"),
            pump_address: UNSET_ADDRESS,
            flow_meter_address: UNSET_ADDRESS,
            solenoid_output_address: UNSET_ADDRESS,
            led_address: UNSET_ADDRESS,
        }
    }
}

/// Why a request's controller index names no configured device.
#[derive(Clone, Copy, Debug, PartialEq, Eq, Structural)]
pub enum LookupError {
    /// The index is below zero, so it is no position in the device table.
    NegativeIndex,
    /// The index is past the last configured device.
    UnknownController,
}

/// Where a request's controller index points in the device table, as a value
/// of the mathematical integers: `Ok` with the position when it is one.
pub open spec fn lookup_spec(device_count: nat, controller_idx: int) -> Result<int, LookupError> {
    if controller_idx < 0 {
        Err(LookupError::NegativeIndex)
    } else if controller_idx >= device_count {
        Err(LookupError::UnknownController)
    } else {
        Ok(controller_idx)
    }
}

/// The device of the table at a request's controller index, or why there is none.
pub open spec fn device_at(devices: Seq<Devices>, controller_idx: int) -> Result<Devices, LookupError> {
    match lookup_spec(devices.len(), controller_idx) {
        Ok(i) => Ok(devices[i]),
        Err(e) => Err(e),
    }
}

/// The device that a request's controller index selects: the index is the
/// position of the device in the configured table.
pub fn select_device(devices: &Vec<Devices>, controller_idx: i32) -> (r: Result<&Devices, LookupError>)
    ensures
        match device_at(devices@, controller_idx as int) {
            Ok(d) => r matches Ok(x) && *x == d,
            Err(e) => r == Err::<&Devices, LookupError>(e),
        },
{
    if controller_idx < 0 {
        return Err(LookupError::NegativeIndex);
    }
    let index: usize = controller_idx as usize;
    if index >= devices.len() {
        return Err(LookupError::UnknownController);
    }
    Ok(&devices[index])
}

/// Law: a controller index selects the device at that position of the
/// table, whatever the devices hold; an index below zero, or past the last
/// device, selects none.
pub proof fn law_index_is_table_position(devices: Seq<Devices>, controller_idx: int)
    ensures
        0 <= controller_idx < devices.len() ==> device_at(devices, controller_idx) == Ok::<
            Devices,
            LookupError,
        >(devices[controller_idx]),
        controller_idx < 0 ==> device_at(devices, controller_idx) == Err::<Devices, LookupError>(
            LookupError::NegativeIndex,
        ),
        controller_idx >= devices.len() ==> device_at(devices, controller_idx) == Err::<
            Devices,
            LookupError,
        >(LookupError::UnknownController),
{
}

} // verus!
