use clicker_data_collector::protobuf::messages::{
    parse_response, Mode, Request, Response, MAGIC_BYTE, PROTOCOL_VERSION, RK_METER_ID, STATUS_OK,
};
use clicker_data_collector::protobuf::pb_error::Error;
use clicker_data_collector::protobuf::protobuf_md_codec::{
    consume, decode, encode, encode_response, FrameDecode,
};
use clicker_data_collector::protobuf::varint::{encode_varint, parse_varint, VarintResult};
use clicker_data_collector::protobuf::{new_request, new_result_request};

fn response_frame(m: &Response) -> Vec<u8> {
    let mut buf: Vec<u8> = Vec::new();
    encode_response(m, &mut buf);
    buf
}

#[test]
fn decode_frame_with_noise_and_garbage() {
    // A valid frame between magic-free noise and arbitrary trailing garbage
    // decodes to exactly the message, consuming noise plus frame only.
    let msg = Response { global_status: STATUS_OK, mode: Mode::F, value_bits: 0xDEADBEEF };
    let frame = response_frame(&msg);
    let mut buf: Vec<u8> = vec![0x00, 0x42, 0x13];
    buf.extend_from_slice(&frame);
    buf.extend_from_slice(&[0xFF, MAGIC_BYTE, 0x01]);
    let r = decode(&buf);
    assert_eq!(r, FrameDecode::Frame { msg, consumed: 3 + frame.len() });
}

#[test]
fn decode_no_magic_consumes_everything() {
    // Without a magic byte the whole buffer is noise: consumed entirely,
    // no error, more data needed.
    let buf: Vec<u8> = vec![0x01, 0x02, 0x7F, 0xFF, 0x00];
    let r = decode(&buf);
    assert_eq!(r, FrameDecode::NeedMoreData { consumed: buf.len() });
}

#[test]
fn decode_empty_buffer() {
    let buf: Vec<u8> = Vec::new();
    assert_eq!(decode(&buf), FrameDecode::NeedMoreData { consumed: 0 });
}

#[test]
fn decode_incomplete_frame_keeps_candidate() {
    // A frame cut short keeps the magic byte: only leading noise is consumed.
    let msg = Response { global_status: STATUS_OK, mode: Mode::Rk, value_bits: 7 };
    let frame = response_frame(&msg);
    let mut buf: Vec<u8> = vec![0x10];
    buf.extend_from_slice(&frame[..frame.len() - 2]);
    let r = decode(&buf);
    assert_eq!(r, FrameDecode::NeedMoreData { consumed: 1 });

    // Completing the frame then yields the message.
    buf.extend_from_slice(&frame[frame.len() - 2..]);
    let r2 = decode(&buf);
    assert_eq!(r2, FrameDecode::Frame { msg, consumed: 1 + frame.len() });
}

#[test]
fn decode_corrupt_payload_reports_error() {
    // Length-delimited payload with an invalid mode byte: a decode error,
    // with only the noise before the magic byte consumed.
    let buf: Vec<u8> = vec![0x55, MAGIC_BYTE, 0x06, 0x00, 0x09, 0x01, 0x02, 0x03, 0x04];
    let r = decode(&buf);
    assert_eq!(r, FrameDecode::Corrupt { consumed: 1 });
}

#[test]
fn decode_corrupt_varint_reports_error() {
    // Eleven continuation bytes cannot be a length varint.
    let mut buf: Vec<u8> = vec![MAGIC_BYTE];
    buf.extend_from_slice(&[0x80; 11]);
    buf.push(0x01);
    let r = decode(&buf);
    assert_eq!(r, FrameDecode::Corrupt { consumed: 0 });
}

#[test]
fn consume_drops_prefix() {
    let mut buf: Vec<u8> = vec![1, 2, 3, 4, 5];
    consume(&mut buf, 2);
    assert_eq!(buf, vec![3, 4, 5]);
    consume(&mut buf, 3);
    assert!(buf.is_empty());
}

#[test]
fn response_round_trip_through_frame() {
    for status in [STATUS_OK, 1, 2, u32::MAX] {
        for mode in [Mode::Rk, Mode::F] {
            for bits in [0u32, 1, 0x8000_0000, u32::MAX] {
                let msg = Response { global_status: status, mode, value_bits: bits };
                let frame = response_frame(&msg);
                let r = decode(&frame);
                assert_eq!(r, FrameDecode::Frame { msg, consumed: frame.len() });
            }
        }
    }
}

#[test]
fn request_frame_starts_with_magic_and_parses_nowhere_else() {
    let req = Request {
        id: 12345,
        device_id: RK_METER_ID,
        protocol_version: PROTOCOL_VERSION,
        get_output_values: true,
    };
    let mut frame: Vec<u8> = Vec::new();
    encode(&req, &mut frame);
    assert_eq!(frame[0], MAGIC_BYTE);
    // The second byte is the payload length as a varint; here one byte.
    assert_eq!(frame[1] as usize, frame.len() - 2);
}

#[test]
fn response_payload_round_trip() {
    let msg = Response { global_status: 3, mode: Mode::F, value_bits: 0x01020304 };
    let mut payload: Vec<u8> = Vec::new();
    clicker_data_collector::protobuf::messages::encode_response_payload(&msg, &mut payload);
    let parsed = parse_response(&payload, 0, payload.len());
    assert_eq!(parsed, Some(msg));
}

#[test]
fn response_payload_with_trailing_byte_is_malformed() {
    let msg = Response { global_status: 0, mode: Mode::Rk, value_bits: 9 };
    let mut payload: Vec<u8> = Vec::new();
    clicker_data_collector::protobuf::messages::encode_response_payload(&msg, &mut payload);
    payload.push(0x00);
    assert_eq!(parse_response(&payload, 0, payload.len()), None);
}

#[test]
fn varint_round_trips() {
    for x in [0u64, 1, 127, 128, 300, 16383, 16384, u64::from(u32::MAX), u64::MAX] {
        let mut buf: Vec<u8> = Vec::new();
        encode_varint(x, &mut buf);
        let n = buf.len();
        buf.push(0xAB); // trailing byte must not disturb the parse
        match parse_varint(&buf, 0, buf.len()) {
            VarintResult::Done { value, len } => {
                assert_eq!(value, x);
                assert_eq!(len, n);
            }
            other => panic!("varint {} failed to parse: {:?}", x, other),
        }
    }
}

#[test]
fn varint_single_byte_values() {
    let mut buf: Vec<u8> = Vec::new();
    encode_varint(5, &mut buf);
    assert_eq!(buf, vec![5]);
    let mut buf2: Vec<u8> = Vec::new();
    encode_varint(300, &mut buf2);
    assert_eq!(buf2, vec![0xAC, 0x02]);
}

#[test]
fn new_request_fields() {
    let r = new_request();
    assert_eq!(r.device_id, RK_METER_ID);
    assert_eq!(r.protocol_version, PROTOCOL_VERSION);
    assert!(!r.get_output_values);
    let q = new_result_request();
    assert_eq!(q.device_id, RK_METER_ID);
    assert!(q.get_output_values);
}

#[test]
fn classify_response_by_status() {
    let ok = Response { global_status: STATUS_OK, mode: Mode::F, value_bits: 44 };
    assert_eq!(ok.classify(), Ok((Mode::F, 44)));
    assert_eq!(ok.check_status(), Ok(()));
    let bad = Response { global_status: 5, mode: Mode::Rk, value_bits: 44 };
    assert_eq!(bad.classify(), Err(Error::Protocol(5)));
    assert_eq!(bad.check_status(), Err(Error::Protocol(5)));
}
