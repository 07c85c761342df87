//! The error taxonomy of the audio output engine.
//!
//! Transient device-layer conditions (underruns, suspended streams) are
//! recovered internally by the flow controller and never surface here; these
//! variants are the caller-visible failures only.

use vstd::prelude::*;

verus! {

/// A caller-visible failure of the audio output engine.
///
/// - `NoDeviceFound`: the backend reported zero active render endpoints.
/// - `DeviceNotFound`: a device was selected by display name but no endpoint
///   of that name exists in the current enumeration.
/// - `Unsupported`: a configuration value outside the backend's advertised
///   capability list; carries the offending parameter value as text.
/// - `WaitTimeout`: a non-blocking readiness wait returned without the device
///   becoming ready; the caller is responsible for retrying.
/// - `NativeDeviceError`: device recovery itself failed; carries the
///   backend-specific error code.
#[derive(Debug, PartialEq, Eq)]
pub enum Error {
    NoDeviceFound,
    DeviceNotFound(String),
    Unsupported(String),
    WaitTimeout,
    NativeDeviceError(i32),
}

impl Error {
    /// A short, stable text for each error kind, in place of `Display`.
    pub fn kind_text(&self) -> (r: &'static str)
        ensures
            r@ == self.kind_text_spec(),
    {
        match self {
            Error::NoDeviceFound => "NoDeviceFound",
            Error::DeviceNotFound(_) => "DeviceNotFound",
            Error::Unsupported(_) => "Unsupported",
            Error::WaitTimeout => "WaitTimeout",
            Error::NativeDeviceError(_) => "NativeDeviceError",
        }
    }

    pub open spec fn kind_text_spec(&self) -> Seq<char> {
        match self {
            Error::NoDeviceFound => "NoDeviceFound"@,
            Error::DeviceNotFound(_) => "DeviceNotFound"@,
            Error::Unsupported(_) => "Unsupported"@,
            Error::WaitTimeout => "WaitTimeout"@,
            Error::NativeDeviceError(_) => "NativeDeviceError"@,
        }
    }
}

} // verus!
