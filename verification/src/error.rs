//! The error taxonomy of the library.
//!
//! USB transport failures are represented by [`UsbError`], a plain mirror of
//! the error conditions a USB backend can report, so that the decision logic
//! around transfers (in particular, treating a timeout while polling for
//! events as the absence of an event) can be stated and verified here.

use vstd::prelude::*;

use crate::response::ResponseCode;

verus! {

/// An error reported by the USB transport layer.
#[derive(Debug, Clone, Copy, PartialEq, Eq, Structural)]
pub enum UsbError {
    /// Input/output error.
    Io,
    /// Invalid parameter.
    InvalidParam,
    /// Access denied (insufficient permissions).
    Access,
    /// No such device (it may have been disconnected).
    NoDevice,
    /// Entity not found.
    NotFound,
    /// Resource busy.
    Busy,
    /// Operation timed out.
    Timeout,
    /// Overflow.
    Overflow,
    /// Pipe error.
    Pipe,
    /// System call interrupted (perhaps due to signal).
    Interrupted,
    /// Insufficient memory.
    NoMem,
    /// Operation not supported or unimplemented on this platform.
    NotSupported,
    /// The device returned a malformed descriptor.
    BadDescriptor,
    /// Other error.
    Other,
}

/// An error reported while reading or writing a byte stream.
#[derive(Debug, Clone, Copy, PartialEq, Eq, Structural)]
pub enum IoErrorKind {
    /// The stream ended before the requested bytes could be read.
    UnexpectedEof,
    /// Any other stream failure.
    Other,
}

/// An error in a PTP command.
#[derive(Debug, Clone)]
pub enum Error {
    /// The responder returned a status code other than `Success`: either a
    /// constant in `StandardResponseCode` or a vendor-defined code.
    Response(ResponseCode),
    /// Data received was malformed.
    Malformed(String),
    /// A descriptor field failed object format classification.
    BadObjectFormat,
    /// A descriptor field failed association code classification.
    BadAssociationCode,
    /// An event code outside the standard/vendor/reserved partitions.
    BadEventCode,
    /// An event container arrived with a zero-length payload.
    NoEventPayload,
    /// An error of the USB transport.
    Usb(UsbError),
    /// A byte-stream read or write failed.
    Io(IoErrorKind),
}

} // verus!
