//! Settings of the auto-toggle engine.

use vstd::prelude::*;
use crate::error::{app_error, AppError};

verus! {

/// Shortest quiet period that a configuration may ask for, in milliseconds.
pub const MIN_DEBOUNCE_MS: u64 = 100;

/// Longest quiet period that a configuration may ask for, in milliseconds.
pub const MAX_DEBOUNCE_MS: u64 = 30000;

/// Quiet period of a fresh configuration, in milliseconds.
pub const DEFAULT_DEBOUNCE_MS: u64 = 3000;

/// Which lights the engine may control.
#[derive(Debug, Clone)]
pub enum AutoToggleStrategy {
    /// Every connected light.
    AllDevices,
    /// Only the light with this serial number.
    SelectedDevice { serial_number: String },
}

/// Settings of the auto-toggle engine, fixed for one monitoring session.
#[derive(Debug, Clone)]
pub struct AutoToggleConfig {
    /// Whether monitoring may be started at all.
    pub enabled: bool,
    /// Which lights are switched on when a camera is in use.
    pub strategy: AutoToggleStrategy,
    /// Quiet period after the last activity before "no camera in use" is confirmed.
    pub debounce_ms: u64,
}

impl Default for AutoToggleStrategy {
    fn default() -> (r: AutoToggleStrategy)
        ensures
            r is AllDevices,
    {
        AutoToggleStrategy::AllDevices
    }
}

impl Default for AutoToggleConfig {
    fn default() -> (r: AutoToggleConfig)
        ensures
            !r.enabled,
            r.strategy is AllDevices,
            r.debounce_ms == DEFAULT_DEBOUNCE_MS,
    {
        AutoToggleConfig {
            enabled: false,
            strategy: AutoToggleStrategy::AllDevices,
            debounce_ms: DEFAULT_DEBOUNCE_MS,
        }
    }
}

/// Whether a quiet period lies in the accepted range.
pub open spec fn debounce_in_range(debounce_ms: u64) -> bool {
    MIN_DEBOUNCE_MS <= debounce_ms <= MAX_DEBOUNCE_MS
}

impl AutoToggleConfig {
    /// Checks the settings before they are stored: the quiet period must lie
    /// between `MIN_DEBOUNCE_MS` and `MAX_DEBOUNCE_MS`.
    pub fn validate(&self) -> (r: Result<(), AppError>)
        ensures
            r is Ok <==> debounce_in_range(self.debounce_ms),
            r matches Err(e) ==> e.message@
                == "Debounce time must be between 100ms and 30000ms"@ && e.error_type@
                == "ValidationError"@,
    {
        if self.debounce_ms < MIN_DEBOUNCE_MS || self.debounce_ms > MAX_DEBOUNCE_MS {
            Err(app_error("Debounce time must be between 100ms and 30000ms", "ValidationError"))
        } else {
            Ok(())
        }
    }
}

} // verus!
