//! Errors of the device transport.
use vstd::prelude::*;

verus! {

/// What can go wrong between sending a request and obtaining a reading.
/// Transport-level variants (`IoError`, `Timeout`, `UnexpectedEndOfStream`)
/// are raised by the layer that owns the serial link; the codec raises
/// `DecoderError`, and `Protocol` carries a device status code other than
/// the success code.
#[derive(Clone, Copy, Debug, PartialEq, Eq)]
pub enum Error {
    /// A frame was malformed beyond "not yet complete".
    DecoderError,
    /// The serial link failed.
    IoError,
    /// The byte stream ended.
    UnexpectedEndOfStream,
    /// No response arrived within the configured timeout.
    Timeout,
    /// The device answered with this non-success global status code.
    Protocol(u32),
}

} // verus!
