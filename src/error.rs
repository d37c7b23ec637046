//! Errors reported to the user interface.

use vstd::prelude::*;
use vstd::string::*;

verus! {

/// An error with a human readable message and a category for programmatic handling.
#[derive(Debug)]
pub struct AppError {
    /// Human readable error message.
    pub message: String,
    /// Category of the error.
    pub error_type: String,
}

/// The message of a "device not found" error.
pub open spec fn not_found_message(serial_number: Seq<char>) -> Seq<char> {
    "Device with serial number "@ + serial_number + " not found"@
}

impl AppError {
    /// The category and the message, as shown to the user.
    pub fn describe(&self) -> (r: String)
        ensures
            r@ == self.error_type@ + ": "@ + self.message@,
    {
        self.error_type.clone().concat(": ").concat(self.message.as_str())
    }
}

/// Creates an error with the given message and category.
pub fn app_error(message: &str, error_type: &str) -> (r: AppError)
    ensures
        r.message@ == message@,
        r.error_type@ == error_type@,
{
    AppError { message: message.to_owned(), error_type: error_type.to_owned() }
}

/// Creates the error reported when no connected device has the given serial number.
pub fn device_not_found_error(serial_number: &str) -> (r: AppError)
    ensures
        r.message@ == not_found_message(serial_number@),
        r.error_type@ == "DeviceNotFound"@,
{
    let message = String::from_str("Device with serial number ").concat(serial_number).concat(
        " not found",
    );
    app_error(message.as_str(), "DeviceNotFound")
}

/// Creates the error reported when talking to a device failed.
pub fn device_communication_error(message: &str) -> (r: AppError)
    ensures
        r.message@ == message@,
        r.error_type@ == "DeviceCommunicationError"@,
{
    app_error(message, "DeviceCommunicationError")
}

} // verus!
