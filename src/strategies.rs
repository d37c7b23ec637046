//! Device selection: which connected lights the engine may control.

use vstd::prelude::*;
use crate::config::AutoToggleStrategy;
use crate::device::DeviceInfo;

verus! {

/// A rule deciding whether the engine may control a device.
pub trait DeviceSelector {
    /// Whether the rule admits `device`.
    spec fn controls(&self, device: DeviceInfo) -> bool;

    /// Decides whether the engine may control `device`; pure, without side effects.
    fn should_control_device(&self, device: &DeviceInfo) -> (r: bool)
        ensures
            r == self.controls(*device),
    ;
}

/// Controls every connected device.
#[derive(Debug, Clone)]
pub struct AllDevicesStrategy;

impl AllDevicesStrategy {
    pub fn new() -> (r: AllDevicesStrategy) {
        AllDevicesStrategy
    }
}

impl DeviceSelector for AllDevicesStrategy {
    open spec fn controls(&self, device: DeviceInfo) -> bool {
        device.is_connected
    }

    fn should_control_device(&self, device: &DeviceInfo) -> (r: bool)
        ensures
            r == device.is_connected,
    {
        device.is_connected
    }
}

/// Controls only the connected device with the given serial number.
#[derive(Debug, Clone)]
pub struct SelectedDeviceStrategy {
    pub serial_number: String,
}

impl SelectedDeviceStrategy {
    pub fn new(serial_number: String) -> (r: SelectedDeviceStrategy)
        ensures
            r.serial_number == serial_number,
    {
        SelectedDeviceStrategy { serial_number }
    }
}

impl DeviceSelector for SelectedDeviceStrategy {
    open spec fn controls(&self, device: DeviceInfo) -> bool {
        device.is_connected && device.serial_number@ == self.serial_number@
    }

    fn should_control_device(&self, device: &DeviceInfo) -> (r: bool)
        ensures
            r == (device.is_connected && device.serial_number@ == self.serial_number@),
    {
        device.is_connected && device.serial_number == self.serial_number
    }
}

/// The selection rule of one monitoring session, one variant per strategy.
#[derive(Debug, Clone)]
pub enum Selector {
    AllDevices(AllDevicesStrategy),
    SelectedDevice(SelectedDeviceStrategy),
}

impl DeviceSelector for Selector {
    open spec fn controls(&self, device: DeviceInfo) -> bool {
        match self {
            Selector::AllDevices(s) => s.controls(device),
            Selector::SelectedDevice(s) => s.controls(device),
        }
    }

    fn should_control_device(&self, device: &DeviceInfo) -> (r: bool) {
        match self {
            Selector::AllDevices(s) => s.should_control_device(device),
            Selector::SelectedDevice(s) => s.should_control_device(device),
        }
    }
}

/// The selection rule that a configured strategy stands for.
pub open spec fn selector_for(strategy: AutoToggleStrategy) -> Selector {
    match strategy {
        AutoToggleStrategy::AllDevices => Selector::AllDevices(AllDevicesStrategy),
        AutoToggleStrategy::SelectedDevice { serial_number } => Selector::SelectedDevice(
            SelectedDeviceStrategy { serial_number },
        ),
    }
}

/// Builds the selection rule of a configured strategy.
pub fn create_device_selector(strategy: &AutoToggleStrategy) -> (r: Selector)
    ensures
        r == selector_for(*strategy),
{
    match strategy {
        AutoToggleStrategy::AllDevices => Selector::AllDevices(AllDevicesStrategy::new()),
        AutoToggleStrategy::SelectedDevice { serial_number } => Selector::SelectedDevice(
            SelectedDeviceStrategy::new(serial_number.clone()),
        ),
    }
}

} // verus!
