//! The error taxonomy of the driver.

use vstd::prelude::*;

verus! {

/// The primary error type used for fallible operations on the RN2903.
#[derive(Debug)]
pub enum Error {
    /// The connection to the RN2903 was impossible for some reason. Perhaps
    /// an invalid port was specified, or this program does not have
    /// permission to access the specified port. Carries the transport's
    /// description of the failure. Produced only by code that opens the
    /// physical transport, never by the protocol engine itself.
    ConnectionFailed(String),
    /// The device to which the serial link is connected does not appear to
    /// be an RN2903, because it did not respond to `sys get ver` correctly.
    /// Carries the actual version text the device reported.
    WrongDevice(String),
    /// The device returned a response that doesn't make sense, given the
    /// command that was issued. Carries the expected shape and the actual
    /// text.
    BadResponse(String, String),
    /// The device is operating in a mode which prevents MAC functionality
    /// from being paused, but a pause was requested.
    CannotPause,
    /// The transceiver is busy with another operation, or is under the
    /// control of the MAC, and cannot be used to perform the requested
    /// operation.
    TransceiverBusy,
    /// The program has become disconnected from the RN2903 module due to an
    /// I/O error on the transport after it was successfully opened.
    Disconnected,
}

} // verus!
