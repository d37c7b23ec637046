//! Descriptor of a connected light and the arithmetic on its limits.

use vstd::prelude::*;

verus! {

/// Everything the application knows about one light.
#[derive(Debug, Clone)]
pub struct DeviceInfo {
    /// Device serial number (unique identifier).
    pub serial_number: String,
    /// Device model name.
    pub device_type: String,
    /// Whether the device answered when it was last queried.
    pub is_connected: bool,
    /// Current power state.
    pub is_on: bool,
    /// Current brightness in lumens.
    pub brightness_lumens: u16,
    /// Current brightness as a percentage of the device's range.
    pub brightness_percentage: u8,
    /// Current color temperature in Kelvin.
    pub temperature_kelvin: u16,
    /// Lowest brightness the device supports.
    pub min_brightness_lumens: u16,
    /// Highest brightness the device supports.
    pub max_brightness_lumens: u16,
    /// Lowest color temperature the device supports.
    pub min_temperature_kelvin: u16,
    /// Highest color temperature the device supports.
    pub max_temperature_kelvin: u16,
}

/// Step between two color temperatures that a device accepts, in Kelvin.
pub const TEMPERATURE_STEP_KELVIN: u16 = 100;

/// Brightness `lumens` as a whole percentage of the range `min..=max`:
/// the part above `min`, times 100, divided by the range width and rounded
/// down, capped at 255; 0 when the range is empty.
pub open spec fn brightness_percentage_of(lumens: int, min: int, max: int) -> int {
    if max > min {
        let above = if lumens > min {
            lumens - min
        } else {
            0
        };
        let p = above * 100 / (max - min);
        if p > 255 {
            255
        } else {
            p
        }
    } else {
        0
    }
}

/// The brightness that lies `percentage` percent (at most 100) into the range
/// `min..=max`, rounded down.
pub open spec fn lumens_at_percentage(percentage: int, min: int, max: int) -> int {
    let p = if percentage > 100 {
        100
    } else {
        percentage
    };
    min + (max - min) * p / 100
}

/// `value` as a whole percentage of the range `min..=max`, as
/// `brightness_percentage_of` states it.
pub fn percentage_in_range(value: u16, min: u16, max: u16) -> (r: u8)
    ensures
        r as int == brightness_percentage_of(value as int, min as int, max as int),
{
    if max > min {
        let range: u32 = (max - min) as u32;
        let above: u32 = value.saturating_sub(min) as u32;
        let p: u32 = above * 100 / range;
        if p > 255 {
            255
        } else {
            p as u8
        }
    } else {
        0
    }
}

/// The brightness that lies `percentage` percent into the range `min..=max`.
pub fn lumens_for_percentage(percentage: u8, min: u16, max: u16) -> (r: u16)
    requires
        min <= max,
    ensures
        r as int == lumens_at_percentage(percentage as int, min as int, max as int),
        min <= r <= max,
{
    let p: u32 = if percentage > 100 {
        100
    } else {
        percentage as u32
    };
    let range: u32 = (max - min) as u32;
    assert(range * p <= range * 100) by (nonlinear_arith)
        requires
            p <= 100,
    ;
    let offset: u32 = range * p / 100;
    assert(offset <= range) by (nonlinear_arith)
        requires
            offset == range * p / 100,
            p <= 100,
    ;
    min + offset as u16
}

impl DeviceInfo {
    /// Descriptor of a device that was found but could not be opened.
    pub fn disconnected(serial_number: String, device_type: String) -> (r: DeviceInfo)
        ensures
            r.serial_number == serial_number,
            r.device_type == device_type,
            !r.is_connected,
            !r.is_on,
            r.brightness_lumens == 0,
            r.brightness_percentage == 0,
            r.temperature_kelvin == 2700,
            r.min_brightness_lumens == 20,
            r.max_brightness_lumens == 250,
            r.min_temperature_kelvin == 2700,
            r.max_temperature_kelvin == 6500,
    {
        DeviceInfo {
            serial_number,
            device_type,
            is_connected: false,
            is_on: false,
            brightness_lumens: 0,
            brightness_percentage: 0,
            temperature_kelvin: 2700,
            min_brightness_lumens: 20,
            max_brightness_lumens: 250,
            min_temperature_kelvin: 2700,
            max_temperature_kelvin: 6500,
        }
    }

    /// The current brightness as a percentage of the device's range.
    pub fn calculate_brightness_percentage(&self) -> (r: u8)
        ensures
            r as int == brightness_percentage_of(
                self.brightness_lumens as int,
                self.min_brightness_lumens as int,
                self.max_brightness_lumens as int,
            ),
    {
        percentage_in_range(
            self.brightness_lumens,
            self.min_brightness_lumens,
            self.max_brightness_lumens,
        )
    }

    /// The brightness that lies `percentage` percent into the device's range.
    pub fn calculate_lumens_from_percentage(&self, percentage: u8) -> (r: u16)
        requires
            self.min_brightness_lumens <= self.max_brightness_lumens,
        ensures
            r as int == lumens_at_percentage(
                percentage as int,
                self.min_brightness_lumens as int,
                self.max_brightness_lumens as int,
            ),
            self.min_brightness_lumens <= r <= self.max_brightness_lumens,
    {
        lumens_for_percentage(percentage, self.min_brightness_lumens, self.max_brightness_lumens)
    }

    /// Whether `lumens` lies within the device's brightness limits.
    pub fn is_valid_brightness(&self, lumens: u16) -> (r: bool)
        ensures
            r == (self.min_brightness_lumens <= lumens <= self.max_brightness_lumens),
    {
        lumens >= self.min_brightness_lumens && lumens <= self.max_brightness_lumens
    }

    /// Whether `kelvin` lies within the device's temperature limits and is a
    /// whole number of temperature steps.
    pub fn is_valid_temperature(&self, kelvin: u16) -> (r: bool)
        ensures
            r == (self.min_temperature_kelvin <= kelvin <= self.max_temperature_kelvin && kelvin
                % TEMPERATURE_STEP_KELVIN == 0),
    {
        kelvin >= self.min_temperature_kelvin && kelvin <= self.max_temperature_kelvin && kelvin
            % TEMPERATURE_STEP_KELVIN == 0
    }
}

} // verus!
