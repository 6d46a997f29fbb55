//! The decisions of the controller's two requests: a flow request pours from
//! the tap of a configured device, a flow-level request reads the volume that
//! a device's pour has published.

use vstd::prelude::*;
use crate::config::{Devices, LookupError, device_at, select_device};
use crate::pour::{PourController, PourMode, pour_plan_spec, tap_points_of};

verus! {

/// The cache key of the device at a request's controller index: its name.
pub open spec fn level_key_spec(devices: Seq<Devices>, controller_idx: int) -> Result<Seq<char>, LookupError> {
    match device_at(devices, controller_idx) {
        Ok(d) => Ok(d.name@),
        Err(e) => Err(e),
    }
}

/// Law: a flow-level request for a controller index reads the cache key
/// under which the pour that a flow request for the same index runs publishes
/// its dispensed volume, and the two requests are refused alike; that pour
/// runs on the device that the flow request selects.
pub proof fn law_flow_level_reads_poured_key(devices: Seq<Devices>, controller_idx: int)
    ensures
        match pour_plan_spec(devices, controller_idx) {
            Ok(p) => {
                &&& level_key_spec(devices, controller_idx) == Ok::<Seq<char>, LookupError>(p.cache_key)
                &&& device_at(devices, controller_idx) matches Ok(d)
                    && p.controller == PourController::fresh(PourMode::Hardware(tap_points_of(d)))
            },
            Err(e) => level_key_spec(devices, controller_idx) == Err::<Seq<char>, LookupError>(e),
        },
{
}

/// Law: the cache key that a flow-level request for a position of the table
/// reads is the name of the device at that position, whatever the other
/// devices hold; an index that selects no device is refused.
pub proof fn law_level_key_is_selected_name(devices: Seq<Devices>, controller_idx: int)
    ensures
        0 <= controller_idx < devices.len() ==> level_key_spec(devices, controller_idx) == Ok::<
            Seq<char>,
            LookupError,
        >(devices[controller_idx].name@),
        controller_idx < 0 ==> level_key_spec(devices, controller_idx) == Err::<
            Seq<char>,
            LookupError,
        >(LookupError::NegativeIndex),
        controller_idx >= devices.len() ==> level_key_spec(devices, controller_idx) == Err::<
            Seq<char>,
            LookupError,
        >(LookupError::UnknownController),
{
}

/// The service answering flow and flow-level requests.
#[derive(Debug, Default)]
pub struct MyBarFlowService {}

impl MyBarFlowService {
    /// The device whose tap a flow request for `controller_idx` pours from.
    pub fn flow_device<'a>(&self, devices: &'a Vec<Devices>, controller_idx: i32) -> (r: Result<
        &'a Devices,
        LookupError,
    >)
        ensures
            match device_at(devices@, controller_idx as int) {
                Ok(d) => r matches Ok(x) && *x == d,
                Err(e) => r == Err::<&Devices, LookupError>(e),
            },
    {
        select_device(devices, controller_idx)
    }

    /// The cache key under which the device at `controller_idx` publishes
    /// its dispensed volume: the device's name.
    pub fn level_key<'a>(&self, devices: &'a Vec<Devices>, controller_idx: i32) -> (r: Result<
        &'a String,
        LookupError,
    >)
        ensures
            match level_key_spec(devices@, controller_idx as int) {
                Ok(k) => r matches Ok(key) && key@ == k,
                Err(e) => r == Err::<&String, LookupError>(e),
            },
    {
        match select_device(devices, controller_idx) {
            Ok(device) => Ok(&device.name),
            Err(e) => Err(e),
        }
    }
}

} // verus!
