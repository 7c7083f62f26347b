//! The device's message schema and its payload encoding.
//!
//! A request carries an id, the device id, the protocol version, and
//! whether the current output value is requested. A response carries the
//! global status code, the output mode, and the raw 32-bit value. Numeric
//! fields travel as varints, the mode as a single byte, the value as four
//! little-endian bytes. A payload must be consumed exactly; trailing bytes
//! make it malformed.
use super::pb_error::Error;
use super::varint::{
    encode_varint, lemma_varint_parse_len, lemma_varint_round_trip, parse_varint, varint_enc,
    varint_parse, VarintParse, VarintResult,
};
use vstd::prelude::*;

verus! {

/// The byte that starts every frame on the wire.
pub const MAGIC_BYTE: u8 = 0xE7;

/// The device id this library talks to.
pub const RK_METER_ID: u32 = 0xE007;

/// The protocol revision this library speaks.
pub const PROTOCOL_VERSION: u32 = 1;

/// The global status code that means success; every other code is a
/// protocol-level failure.
pub const STATUS_OK: u32 = 0;

/// Which quantity the device's output value measures.
#[derive(Clone, Copy, Debug, PartialEq, Eq)]
pub enum Mode {
    /// Dynamic resistance.
    Rk,
    /// Frequency.
    F,
}

/// The wire code of a mode.
pub open spec fn mode_code(m: Mode) -> u8 {
    match m {
        Mode::Rk => 0,
        Mode::F => 1,
    }
}

/// A request to the device.
#[derive(Clone, Copy, Debug, PartialEq, Eq)]
pub struct Request {
    pub id: u32,
    pub device_id: u32,
    pub protocol_version: u32,
    /// Whether the device shall report its current output value.
    pub get_output_values: bool,
}

/// A response from the device.
#[derive(Clone, Copy, Debug, PartialEq, Eq)]
pub struct Response {
    /// Global status code; [`STATUS_OK`] means success.
    pub global_status: u32,
    /// Mode the value was measured in.
    pub mode: Mode,
    /// The value's raw 32-bit representation; the transport layer converts
    /// it to a sample.
    pub value_bits: u32,
}

impl Response {
    /// The decision the transport makes on the response to a value request:
    /// a success status yields the mode and the raw value, any other status
    /// is a protocol failure carrying that status code.
    pub fn classify(&self) -> (r: Result<(Mode, u32), Error>)
        ensures
            self.global_status == STATUS_OK ==> r == Ok::<(Mode, u32), Error>(
                (self.mode, self.value_bits),
            ),
            self.global_status != STATUS_OK ==> r == Err::<(Mode, u32), Error>(
                Error::Protocol(self.global_status),
            ),
    {
        if self.global_status == STATUS_OK {
            Ok((self.mode, self.value_bits))
        } else {
            Err(Error::Protocol(self.global_status))
        }
    }

    /// The decision the connection test makes on a response: did the device
    /// answer with the success status?
    pub fn check_status(&self) -> (r: Result<(), Error>)
        ensures
            self.global_status == STATUS_OK ==> r == Ok::<(), Error>(()),
            self.global_status != STATUS_OK ==> r == Err::<(), Error>(
                Error::Protocol(self.global_status),
            ),
    {
        if self.global_status == STATUS_OK {
            Ok(())
        } else {
            Err(Error::Protocol(self.global_status))
        }
    }
}

/// Little-endian bytes of a 32-bit value.
pub open spec fn le32(x: u32) -> Seq<u8> {
    seq![
        (x % 256) as u8,
        (x / 256 % 256) as u8,
        (x / 0x10000 % 256) as u8,
        (x / 0x1000000) as u8,
    ]
}

/// The value carried by four little-endian bytes.
pub open spec fn le32_value(s: Seq<u8>) -> u32
    recommends
        s.len() == 4,
{
    (s[0] + s[1] * 256 + s[2] * 0x10000 + s[3] * 0x1000000) as u32
}

/// The payload bytes of a request.
pub open spec fn spec_encode_request(r: Request) -> Seq<u8> {
    varint_enc(r.id as nat) + varint_enc(r.device_id as nat) + varint_enc(
        r.protocol_version as nat,
    ) + seq![if r.get_output_values { 1u8 } else { 0u8 }]
}

/// The payload bytes of a response.
pub open spec fn spec_encode_response(m: Response) -> Seq<u8> {
    varint_enc(m.global_status as nat) + seq![mode_code(m.mode)] + le32(m.value_bits)
}

/// Parse a whole request payload; `None` means malformed.
pub open spec fn spec_parse_request(payload: Seq<u8>) -> Option<Request> {
    match varint_parse(payload) {
        VarintParse::Done { value: id, len: l1 } => {
            if id >= 0x1_0000_0000 {
                None
            } else {
                let rest1 = payload.skip(l1 as int);
                match varint_parse(rest1) {
                    VarintParse::Done { value: device_id, len: l2 } => {
                        if device_id >= 0x1_0000_0000 {
                            None
                        } else {
                            let rest2 = rest1.skip(l2 as int);
                            match varint_parse(rest2) {
                                VarintParse::Done { value: pv, len: l3 } => {
                                    if pv >= 0x1_0000_0000 {
                                        None
                                    } else {
                                        let rest3 = rest2.skip(l3 as int);
                                        if rest3.len() != 1 || (rest3[0] != 0 && rest3[0] != 1) {
                                            None
                                        } else {
                                            Some(
                                                Request {
                                                    id: id as u32,
                                                    device_id: device_id as u32,
                                                    protocol_version: pv as u32,
                                                    get_output_values: rest3[0] == 1,
                                                },
                                            )
                                        }
                                    }
                                },
                                _ => None,
                            }
                        }
                    },
                    _ => None,
                }
            }
        },
        _ => None,
    }
}

/// Parse a whole response payload; `None` means malformed.
pub open spec fn spec_parse_response(payload: Seq<u8>) -> Option<Response> {
    match varint_parse(payload) {
        VarintParse::Done { value: status, len: l1 } => {
            if status >= 0x1_0000_0000 {
                None
            } else {
                let rest = payload.skip(l1 as int);
                if rest.len() != 5 || (rest[0] != 0 && rest[0] != 1) {
                    None
                } else {
                    Some(
                        Response {
                            global_status: status as u32,
                            mode: if rest[0] == 1 {
                                Mode::F
                            } else {
                                Mode::Rk
                            },
                            value_bits: le32_value(rest.skip(1)),
                        },
                    )
                }
            }
        },
        _ => None,
    }
}

/// Append the payload bytes of a request to `out`.
pub fn encode_request_payload(r: &Request, out: &mut Vec<u8>)
    ensures
        final(out)@ == old(out)@ + spec_encode_request(*r),
{
    encode_varint(r.id as u64, out);
    encode_varint(r.device_id as u64, out);
    encode_varint(r.protocol_version as u64, out);
    out.push(if r.get_output_values {
        1
    } else {
        0
    });
    assert(out@ =~= old(out)@ + spec_encode_request(*r));
}

/// Append the payload bytes of a response to `out`.
pub fn encode_response_payload(m: &Response, out: &mut Vec<u8>)
    ensures
        final(out)@ == old(out)@ + spec_encode_response(*m),
{
    encode_varint(m.global_status as u64, out);
    out.push(
        match m.mode {
            Mode::Rk => 0,
            Mode::F => 1,
        },
    );
    let x = m.value_bits;
    out.push((x % 256) as u8);
    out.push((x / 256 % 256) as u8);
    out.push((x / 0x10000 % 256) as u8);
    out.push((x / 0x1000000) as u8);
    assert(out@ =~= old(out)@ + spec_encode_response(*m));
}

/// Parse a whole response payload from `buf[start..end]`.
pub fn parse_response(buf: &Vec<u8>, start: usize, end: usize) -> (r: Option<Response>)
    requires
        start <= end <= buf@.len(),
    ensures
        r == spec_parse_response(buf@.subrange(start as int, end as int)),
{
    let ghost payload = buf@.subrange(start as int, end as int);
    proof {
        lemma_varint_parse_len(payload);
    }
    match parse_varint(buf, start, end) {
        VarintResult::Done { value, len } => {
            if value >= 0x1_0000_0000 {
                return None;
            }
            let p = start + len;
            let ghost rest = payload.skip(len as int);
            proof {
                assert(rest =~= buf@.subrange(p as int, end as int));
            }
            if end - p != 5 {
                return None;
            }
            let mode_byte = buf[p];
            if mode_byte != 0 && mode_byte != 1 {
                return None;
            }
            let b0 = buf[p + 1];
            let b1 = buf[p + 2];
            let b2 = buf[p + 3];
            let b3 = buf[p + 4];
            let value_bits = b0 as u32 + b1 as u32 * 256 + b2 as u32 * 0x10000 + b3 as u32
                * 0x1000000;
            proof {
                let tail = rest.skip(1);
                assert(tail[0] == b0 && tail[1] == b1 && tail[2] == b2 && tail[3] == b3);
            }
            Some(
                Response {
                    global_status: value as u32,
                    mode: if mode_byte == 1 {
                        Mode::F
                    } else {
                        Mode::Rk
                    },
                    value_bits,
                },
            )
        },
        _ => None,
    }
}

/// The little-endian bytes of a value carry that value back.
proof fn lemma_le32_round_trip(x: u32)
    ensures
        le32(x).len() == 4,
        le32_value(le32(x)) == x,
{
    assert(x % 256 + (x / 256 % 256) * 256 + (x / 0x10000 % 256) * 0x10000 + (x / 0x1000000)
        * 0x1000000 == x) by (bit_vector);
}

/// Law: encoding a request and parsing the payload returns the request.
pub proof fn lemma_request_round_trip(r: Request)
    ensures
        spec_parse_request(spec_encode_request(r)) == Some(r),
{
    let e1 = varint_enc(r.id as nat);
    let e2 = varint_enc(r.device_id as nat);
    let e3 = varint_enc(r.protocol_version as nat);
    let flag = seq![if r.get_output_values { 1u8 } else { 0u8 }];
    let payload = spec_encode_request(r);
    assert(payload =~= e1 + (e2 + e3 + flag));
    lemma_varint_round_trip(r.id as u64, e2 + e3 + flag);
    assert(payload.skip(e1.len() as int) =~= e2 + (e3 + flag));
    lemma_varint_round_trip(r.device_id as u64, e3 + flag);
    assert((e2 + (e3 + flag)).skip(e2.len() as int) =~= e3 + flag);
    lemma_varint_round_trip(r.protocol_version as u64, flag);
    assert((e3 + flag).skip(e3.len() as int) =~= flag);
}

/// Law: encoding a response and parsing the payload returns the response.
pub proof fn lemma_response_round_trip(m: Response)
    ensures
        spec_parse_response(spec_encode_response(m)) == Some(m),
{
    let e1 = varint_enc(m.global_status as nat);
    let tail = seq![mode_code(m.mode)] + le32(m.value_bits);
    let payload = spec_encode_response(m);
    assert(payload =~= e1 + tail);
    lemma_varint_round_trip(m.global_status as u64, tail);
    assert(payload.skip(e1.len() as int) =~= tail);
    lemma_le32_round_trip(m.value_bits);
    assert(tail.skip(1) =~= le32(m.value_bits));
}

} // verus!
