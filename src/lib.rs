//! Camera-activity driven control of USB lights.
//!
//! The library holds the decision logic of the auto-toggle engine: which
//! devices may be controlled, how open/close activity on video capture nodes
//! is aggregated into a session count, when the quiet period after the last
//! activity has elapsed, and which lights the engine itself turned on.
//! Talking to hardware and to the operating system is left to the caller,
//! which performs the actions that the engine hands back.

pub mod activity;
pub mod commands;
pub mod config;
pub mod controller;
pub mod debounce;
pub mod device;
pub mod error;
pub mod monitor;
pub mod strategies;
pub mod text;

pub use error::{app_error, device_communication_error, device_not_found_error, AppError};
pub use device::DeviceInfo;
pub use monitor::CameraMonitor;
pub use commands::{BrightnessInfo, TemperatureInfo};
pub use config::{AutoToggleConfig, AutoToggleStrategy};
pub use strategies::{create_device_selector, AllDevicesStrategy, DeviceSelector, SelectedDeviceStrategy, Selector};
