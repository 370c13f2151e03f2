//! Device-level error taxonomy, and its split into content-level conditions
//! (recoverable, the device connection stays valid) and fatal ones.

use vstd::prelude::*;

verus! {

/// Errors that can occur while working with a device. Mirrors the failure
/// conditions the transport layer reports, as plain tags.
#[derive(Debug, Clone, Copy, PartialEq, Eq, Structural)]
pub enum DeviceError {
    /// Hot-plug watcher is already initialized.
    WatcherAlreadyInitialized,
    /// No device found for the provided descriptor.
    DeviceNotFound,
    /// Invalid device provided.
    InvalidDevice,
    /// Transport (HID) failure.
    Hid,
    /// Malformed or unsupported image payload.
    Image,
    /// A reader lock was poisoned.
    Poison,
    /// Nowhere to write the image.
    NoScreen,
    /// Key index is invalid.
    InvalidKeyIndex,
    /// Unrecognized product id.
    UnrecognizedPid,
    /// The device does not support the operation.
    UnsupportedOperation,
    /// Device sent unexpected data.
    BadData,
}

/// Content-level conditions: a malformed image payload or a malformed
/// protocol byte. They do not threaten the connection's validity and never
/// tear a device down.
pub open spec fn spec_is_content_error(e: DeviceError) -> bool {
    e is Image || e is BadData
}

/// Tells a content-level error apart from a fatal one.
pub fn is_content_error(e: &DeviceError) -> (r: bool)
    ensures
        r == spec_is_content_error(*e),
{
    match e {
        DeviceError::Image => true,
        DeviceError::BadData => true,
        _ => false,
    }
}

} // verus!
