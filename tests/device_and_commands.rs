use litra_control::commands::{
    check_brightness, check_brightness_percentage, check_temperature, BrightnessInfo,
    TemperatureInfo,
};
use litra_control::config::{AutoToggleConfig, AutoToggleStrategy};
use litra_control::device::{lumens_for_percentage, percentage_in_range};
use litra_control::monitor::MonitorError;
use litra_control::text::decimal_string;
use litra_control::{app_error, device_communication_error, device_not_found_error, DeviceInfo};

fn light(lumens: u16, min: u16, max: u16) -> DeviceInfo {
    let mut d = DeviceInfo::disconnected("ABC123".to_string(), "Litra Glow".to_string());
    d.brightness_lumens = lumens;
    d.min_brightness_lumens = min;
    d.max_brightness_lumens = max;
    d
}

#[test]
fn disconnected_device_defaults() {
    let d = DeviceInfo::disconnected("ABC123".to_string(), "Litra Beam".to_string());
    assert_eq!(d.serial_number, "ABC123");
    assert_eq!(d.device_type, "Litra Beam");
    assert!(!d.is_connected);
    assert!(!d.is_on);
    assert_eq!(d.brightness_lumens, 0);
    assert_eq!(d.brightness_percentage, 0);
    assert_eq!(d.temperature_kelvin, 2700);
    assert_eq!((d.min_brightness_lumens, d.max_brightness_lumens), (20, 250));
    assert_eq!((d.min_temperature_kelvin, d.max_temperature_kelvin), (2700, 6500));
}

#[test]
fn brightness_percentage_values() {
    assert_eq!(light(20, 20, 250).calculate_brightness_percentage(), 0);
    assert_eq!(light(250, 20, 250).calculate_brightness_percentage(), 100);
    assert_eq!(light(135, 20, 250).calculate_brightness_percentage(), 50);
    assert_eq!(light(100, 20, 250).calculate_brightness_percentage(), 34);
    // Below the minimum counts as the minimum.
    assert_eq!(light(5, 20, 250).calculate_brightness_percentage(), 0);
    // An empty range gives zero.
    assert_eq!(light(100, 100, 100).calculate_brightness_percentage(), 0);
    // Far above the range the percentage is capped.
    assert_eq!(light(60000, 20, 250).calculate_brightness_percentage(), 255);
    assert_eq!(percentage_in_range(4650, 2700, 6500), 51);
}

#[test]
fn lumens_from_percentage_values() {
    assert_eq!(light(0, 20, 250).calculate_lumens_from_percentage(0), 20);
    assert_eq!(light(0, 20, 250).calculate_lumens_from_percentage(50), 135);
    assert_eq!(light(0, 20, 250).calculate_lumens_from_percentage(100), 250);
    assert_eq!(light(0, 20, 250).calculate_lumens_from_percentage(33), 95);
    // Above 100 counts as 100.
    assert_eq!(light(0, 20, 250).calculate_lumens_from_percentage(200), 250);
    assert_eq!(lumens_for_percentage(10, 30, 400), 67);
}

#[test]
fn brightness_and_temperature_validity() {
    let d = light(100, 20, 250);
    assert!(d.is_valid_brightness(20));
    assert!(d.is_valid_brightness(250));
    assert!(!d.is_valid_brightness(19));
    assert!(!d.is_valid_brightness(251));
    assert!(d.is_valid_temperature(2700));
    assert!(d.is_valid_temperature(6500));
    assert!(d.is_valid_temperature(4000));
    assert!(!d.is_valid_temperature(4050));
    assert!(!d.is_valid_temperature(2600));
    assert!(!d.is_valid_temperature(6600));
}

#[test]
fn decimal_notation() {
    assert_eq!(decimal_string(0), "0");
    assert_eq!(decimal_string(7), "7");
    assert_eq!(decimal_string(10), "10");
    assert_eq!(decimal_string(6500), "6500");
    assert_eq!(decimal_string(u64::MAX), "18446744073709551615");
}

#[test]
fn brightness_check_messages() {
    assert!(check_brightness("ABC123", 100, 20, 250).is_ok());
    assert!(check_brightness("ABC123", 20, 20, 250).is_ok());
    let e = check_brightness("ABC123", 300, 20, 250).unwrap_err();
    assert_eq!(e.error_type, "BrightnessRangeError");
    assert_eq!(e.message, "Brightness 300 lm is out of range. Device ABC123 supports 20-250 lm");
    assert!(check_brightness("ABC123", 19, 20, 250).is_err());
}

#[test]
fn percentage_check_messages() {
    assert!(check_brightness_percentage(0).is_ok());
    assert!(check_brightness_percentage(100).is_ok());
    let e = check_brightness_percentage(101).unwrap_err();
    assert_eq!(e.error_type, "BrightnessRangeError");
    assert_eq!(e.message, "Percentage 101 is invalid. Must be between 0-100");
}

#[test]
fn temperature_check_messages() {
    assert!(check_temperature(2700).is_ok());
    assert!(check_temperature(6500).is_ok());
    let e = check_temperature(7000).unwrap_err();
    assert_eq!(e.error_type, "TemperatureRangeError");
    assert_eq!(e.message, "Temperature 7000 K is out of range. Supported range: 2700-6500 K");
    let e = check_temperature(2650).unwrap_err();
    assert_eq!(e.error_type, "TemperatureRangeError");
    let e = check_temperature(4050).unwrap_err();
    assert_eq!(e.error_type, "TemperatureIncrementError");
    assert_eq!(e.message, "Temperature 4050 K is invalid. Must be a multiple of 100 K");
}

#[test]
fn reading_summaries() {
    let b = BrightnessInfo::from_reading(135, 20, 250);
    assert_eq!(
        b,
        BrightnessInfo { current_lumens: 135, current_percentage: 50, min_lumens: 20, max_lumens: 250 }
    );
    let t = TemperatureInfo::from_reading(4600, 2700, 6500);
    assert_eq!(t.current_percentage, 50);
    assert_eq!(t.step_kelvin, 100);
    assert_eq!((t.current_kelvin, t.min_kelvin, t.max_kelvin), (4600, 2700, 6500));
}

#[test]
fn error_constructors() {
    let e = app_error("boom", "Custom");
    assert_eq!((e.message.as_str(), e.error_type.as_str()), ("boom", "Custom"));
    let e = device_not_found_error("ABC123");
    assert_eq!(e.message, "Device with serial number ABC123 not found");
    assert_eq!(e.error_type, "DeviceNotFound");
    let e = device_communication_error("Failed to open device");
    assert_eq!(e.message, "Failed to open device");
    assert_eq!(e.error_type, "DeviceCommunicationError");
    assert_eq!(e.describe(), "DeviceCommunicationError: Failed to open device");
}

#[test]
fn monitor_error_for_the_user_interface() {
    let e = MonitorError::ConfigDisabled.to_app_error();
    assert_eq!(e.message, "Failed to start camera monitoring: Auto-toggle is disabled in configuration");
    assert_eq!(e.error_type, "CameraMonitorError");
}

#[test]
fn default_config_and_validation() {
    let c = AutoToggleConfig::default();
    assert!(!c.enabled);
    assert!(matches!(c.strategy, AutoToggleStrategy::AllDevices));
    assert_eq!(c.debounce_ms, 3000);
    assert!(c.validate().is_ok());
    for ok in [100u64, 30000] {
        let c = AutoToggleConfig { debounce_ms: ok, ..AutoToggleConfig::default() };
        assert!(c.validate().is_ok());
    }
    for bad in [0u64, 99, 30001] {
        let c = AutoToggleConfig { debounce_ms: bad, ..AutoToggleConfig::default() };
        let e = c.validate().unwrap_err();
        assert_eq!(e.error_type, "ValidationError");
        assert_eq!(e.message, "Debounce time must be between 100ms and 30000ms");
    }
}
