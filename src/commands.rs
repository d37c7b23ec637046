//! The computing part of the manual light controls: checks of requested
//! settings, and the summaries reported back to the user interface.

use vstd::prelude::*;
use vstd::string::*;
use crate::device::{brightness_percentage_of, percentage_in_range, TEMPERATURE_STEP_KELVIN};
use crate::error::{app_error, AppError};
use crate::text::{decimal, decimal_string};

verus! {

/// Lowest color temperature any light accepts, in Kelvin.
pub const MIN_TEMPERATURE: u16 = 2700;

/// Highest color temperature any light accepts, in Kelvin.
pub const MAX_TEMPERATURE: u16 = 6500;

/// Brightness of a light and its limits.
#[derive(Debug, Clone, Copy, PartialEq, Eq, Structural)]
pub struct BrightnessInfo {
    /// Current brightness in lumens.
    pub current_lumens: u16,
    /// Current brightness as a percentage of the range.
    pub current_percentage: u8,
    /// Lowest brightness of the device.
    pub min_lumens: u16,
    /// Highest brightness of the device.
    pub max_lumens: u16,
}

/// Color temperature of a light and its limits.
#[derive(Debug, Clone, Copy, PartialEq, Eq, Structural)]
pub struct TemperatureInfo {
    /// Current temperature in Kelvin.
    pub current_kelvin: u16,
    /// Current temperature as a percentage of the range.
    pub current_percentage: u8,
    /// Lowest temperature of the device.
    pub min_kelvin: u16,
    /// Highest temperature of the device.
    pub max_kelvin: u16,
    /// Step between two accepted temperatures.
    pub step_kelvin: u16,
}

impl BrightnessInfo {
    /// The summary of a light at `current` lumens with the limits `min..=max`.
    pub fn from_reading(current: u16, min: u16, max: u16) -> (r: BrightnessInfo)
        ensures
            r.current_lumens == current,
            r.min_lumens == min,
            r.max_lumens == max,
            r.current_percentage as int == brightness_percentage_of(
                current as int,
                min as int,
                max as int,
            ),
    {
        BrightnessInfo {
            current_lumens: current,
            current_percentage: percentage_in_range(current, min, max),
            min_lumens: min,
            max_lumens: max,
        }
    }
}

impl TemperatureInfo {
    /// The summary of a light at `current` Kelvin with the limits `min..=max`.
    pub fn from_reading(current: u16, min: u16, max: u16) -> (r: TemperatureInfo)
        ensures
            r.current_kelvin == current,
            r.min_kelvin == min,
            r.max_kelvin == max,
            r.step_kelvin == TEMPERATURE_STEP_KELVIN,
            r.current_percentage as int == brightness_percentage_of(
                current as int,
                min as int,
                max as int,
            ),
    {
        TemperatureInfo {
            current_kelvin: current,
            current_percentage: percentage_in_range(current, min, max),
            min_kelvin: min,
            max_kelvin: max,
            step_kelvin: TEMPERATURE_STEP_KELVIN,
        }
    }
}

/// Message for a brightness outside the device's limits.
pub open spec fn brightness_range_message(lumens: nat, serial: Seq<char>, min: nat, max: nat) -> Seq<
    char,
> {
    "Brightness "@ + decimal(lumens) + " lm is out of range. Device "@ + serial + " supports "@
        + decimal(min) + "-"@ + decimal(max) + " lm"@
}

/// Message for a percentage above 100.
pub open spec fn percentage_message(percentage: nat) -> Seq<char> {
    "Percentage "@ + decimal(percentage) + " is invalid. Must be between 0-100"@
}

/// Message for a temperature outside the accepted range.
pub open spec fn temperature_range_message(kelvin: nat) -> Seq<char> {
    "Temperature "@ + decimal(kelvin) + " K is out of range. Supported range: 2700-6500 K"@
}

/// Message for a temperature that is not a whole number of steps.
pub open spec fn temperature_step_message(kelvin: nat) -> Seq<char> {
    "Temperature "@ + decimal(kelvin) + " K is invalid. Must be a multiple of 100 K"@
}

/// Checks a requested brightness of device `serial_number` against its
/// limits `min..=max`.
pub fn check_brightness(serial_number: &str, lumens: u16, min: u16, max: u16) -> (r: Result<
    (),
    AppError,
>)
    ensures
        r is Ok <==> min <= lumens <= max,
        r matches Err(e) ==> e.error_type@ == "BrightnessRangeError"@ && e.message@
            == brightness_range_message(
            lumens as nat,
            serial_number@,
            min as nat,
            max as nat,
        ),
{
    if lumens < min || lumens > max {
        let message = String::from_str("Brightness ").concat(
            decimal_string(lumens as u64).as_str(),
        ).concat(" lm is out of range. Device ").concat(serial_number).concat(" supports ").concat(
            decimal_string(min as u64).as_str(),
        ).concat("-").concat(decimal_string(max as u64).as_str()).concat(" lm");
        Err(app_error(message.as_str(), "BrightnessRangeError"))
    } else {
        Ok(())
    }
}

/// Checks a requested brightness percentage.
pub fn check_brightness_percentage(percentage: u8) -> (r: Result<(), AppError>)
    ensures
        r is Ok <==> percentage <= 100,
        r matches Err(e) ==> e.error_type@ == "BrightnessRangeError"@ && e.message@
            == percentage_message(percentage as nat),
{
    if percentage > 100 {
        let message = String::from_str("Percentage ").concat(
            decimal_string(percentage as u64).as_str(),
        ).concat(" is invalid. Must be between 0-100");
        Err(app_error(message.as_str(), "BrightnessRangeError"))
    } else {
        Ok(())
    }
}

/// Checks a requested color temperature: it must lie between
/// `MIN_TEMPERATURE` and `MAX_TEMPERATURE` and be a whole number of steps.
pub fn check_temperature(kelvin: u16) -> (r: Result<(), AppError>)
    ensures
        r is Ok <==> MIN_TEMPERATURE <= kelvin <= MAX_TEMPERATURE && kelvin
            % TEMPERATURE_STEP_KELVIN == 0,
        r matches Err(e) ==> if MIN_TEMPERATURE <= kelvin <= MAX_TEMPERATURE {
            e.error_type@ == "TemperatureIncrementError"@ && e.message@ == temperature_step_message(
                kelvin as nat,
            )
        } else {
            e.error_type@ == "TemperatureRangeError"@ && e.message@ == temperature_range_message(
                kelvin as nat,
            )
        },
{
    if kelvin < MIN_TEMPERATURE || kelvin > MAX_TEMPERATURE {
        let message = String::from_str("Temperature ").concat(
            decimal_string(kelvin as u64).as_str(),
        ).concat(" K is out of range. Supported range: 2700-6500 K");
        return Err(app_error(message.as_str(), "TemperatureRangeError"));
    }
    if kelvin % TEMPERATURE_STEP_KELVIN != 0 {
        let message = String::from_str("Temperature ").concat(
            decimal_string(kelvin as u64).as_str(),
        ).concat(" K is invalid. Must be a multiple of 100 K");
        return Err(app_error(message.as_str(), "TemperatureIncrementError"));
    }
    Ok(())
}

} // verus!
