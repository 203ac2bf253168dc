//! The error type used by the device attach and detach code.

use vstd::prelude::*;

verus! {

/// An error raised while attaching or detaching a device, carrying a message.
#[derive(Debug)]
pub struct DeviceError {
    pub message: String,
}

impl DeviceError {
    /// An error with the given message.
    pub fn new(message: &str) -> (r: DeviceError)
        ensures
            r.message@ == message@,
    {
        DeviceError { message: String::from_str(message) }
    }

    /// The message of this error.
    pub fn message(&self) -> (r: &str)
        ensures
            r@ == self.message@,
    {
        self.message.as_str()
    }
}

impl From<String> for DeviceError {
    fn from(message: String) -> (r: DeviceError) {
        DeviceError { message }
    }
}

impl vstd::std_specs::convert::FromSpecImpl<String> for DeviceError {
    open spec fn obeys_from_spec() -> bool {
        true
    }

    open spec fn from_spec(v: String) -> DeviceError {
        DeviceError { message: v }
    }
}

} // verus!
