//! The device's wire protocol: message schema, framing codec and errors.
//!
//! Each message travels as a single-byte magic value, a varint payload
//! length, and the payload. The codec owns resynchronization: leading noise
//! is discarded up to the first magic byte, and an incomplete frame is
//! retried once more bytes arrive.
use vstd::prelude::*;

pub mod messages;
pub mod pb_error;
pub mod protobuf_md_codec;
pub mod varint;

pub use pb_error::Error;

use messages::{Request, PROTOCOL_VERSION, RK_METER_ID};

verus! {

/// Relies on `rand::random`: draws one `u32`; nothing is promised of the
/// value, a request id only needs to vary between requests.
#[verifier::external_body]
fn random_u32() -> u32 {
    rand::random::<u32>()
}

/// A request carrying a fresh random id and this library's device id and
/// protocol version, asking for nothing yet.
pub fn new_request() -> (r: Request)
    ensures
        r.device_id == RK_METER_ID,
        r.protocol_version == PROTOCOL_VERSION,
        !r.get_output_values,
{
    Request {
        id: random_u32(),
        device_id: RK_METER_ID,
        protocol_version: PROTOCOL_VERSION,
        get_output_values: false,
    }
}

/// The request that asks the device for its current output value.
pub fn new_result_request() -> (r: Request)
    ensures
        r.device_id == RK_METER_ID,
        r.protocol_version == PROTOCOL_VERSION,
        r.get_output_values,
{
    let mut r = new_request();
    r.get_output_values = true;
    r
}

} // verus!
