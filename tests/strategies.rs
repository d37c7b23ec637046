use litra_control::config::AutoToggleStrategy;
use litra_control::{
    create_device_selector, AllDevicesStrategy, DeviceInfo, DeviceSelector, SelectedDeviceStrategy,
};

fn create_test_device(serial: &str, connected: bool) -> DeviceInfo {
    DeviceInfo {
        serial_number: serial.to_string(),
        device_type: "Litra Glow".to_string(),
        is_connected: connected,
        is_on: false,
        brightness_lumens: 100,
        min_brightness_lumens: 20,
        max_brightness_lumens: 250,
        temperature_kelvin: 5600,
        min_temperature_kelvin: 2700,
        max_temperature_kelvin: 6500,
        brightness_percentage: 0,
    }
}

#[test]
fn test_all_devices_strategy() {
    let strategy = AllDevicesStrategy::new();
    let connected_device = create_test_device("ABC123", true);
    let disconnected_device = create_test_device("DEF456", false);

    assert!(strategy.should_control_device(&connected_device));
    assert!(!strategy.should_control_device(&disconnected_device));
}

#[test]
fn test_selected_device_strategy() {
    let strategy = SelectedDeviceStrategy::new("ABC123".to_string());
    let target_device = create_test_device("ABC123", true);
    let other_device = create_test_device("DEF456", true);
    let disconnected_target = create_test_device("ABC123", false);

    assert!(strategy.should_control_device(&target_device));
    assert!(!strategy.should_control_device(&other_device));
    assert!(!strategy.should_control_device(&disconnected_target));
}

#[test]
fn selector_from_all_devices_strategy_controls_connected_devices() {
    let selector = create_device_selector(&AutoToggleStrategy::AllDevices);
    assert!(selector.should_control_device(&create_test_device("ABC123", true)));
    assert!(selector.should_control_device(&create_test_device("DEF456", true)));
    assert!(!selector.should_control_device(&create_test_device("DEF456", false)));
}

#[test]
fn selector_from_selected_device_strategy_controls_only_that_device() {
    let selector = create_device_selector(&AutoToggleStrategy::SelectedDevice {
        serial_number: "ABC123".to_string(),
    });
    assert!(selector.should_control_device(&create_test_device("ABC123", true)));
    assert!(!selector.should_control_device(&create_test_device("ABC1234", true)));
    assert!(!selector.should_control_device(&create_test_device("DEF456", true)));
    assert!(!selector.should_control_device(&create_test_device("ABC123", false)));
}
