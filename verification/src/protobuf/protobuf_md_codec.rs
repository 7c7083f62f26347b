//! The resynchronizing frame codec.
//!
//! A frame is the magic byte, a varint payload length, and the payload.
//! Decoding scans forward from the buffer start, discarding bytes until the
//! first magic byte; if none is present the whole buffer is noise and more
//! data is needed. Behind the magic byte, an incomplete length or payload
//! keeps the candidate frame (only the noise is consumed) so it can be
//! retried once more bytes arrive; a malformed length or payload is a
//! decode error, and the caller decides whether to skip the magic byte and
//! resynchronize. On success exactly the noise and the frame are consumed.
use super::messages::{
    spec_encode_request, spec_encode_response, spec_parse_response, encode_request_payload,
    encode_response_payload, lemma_response_round_trip, parse_response, Request, Response,
    MAGIC_BYTE,
};
use super::varint::{
    encode_varint, lemma_varint_enc_len_u64, lemma_varint_parse_len, lemma_varint_round_trip,
    parse_varint, varint_enc, varint_parse, VarintParse, VarintResult,
};
use vstd::prelude::*;

verus! {

/// Position of the first magic byte, if any.
pub open spec fn first_magic(s: Seq<u8>) -> Option<int>
    decreases s.len(),
{
    if s.len() == 0 {
        None
    } else if s[0] == MAGIC_BYTE {
        Some(0)
    } else {
        match first_magic(s.drop_first()) {
            None => None,
            Some(i) => Some(i + 1),
        }
    }
}

/// `first_magic` finds exactly the first occurrence.
pub proof fn lemma_first_magic(s: Seq<u8>)
    ensures
        match first_magic(s) {
            None => forall|i: int| 0 <= i < s.len() ==> s[i] != MAGIC_BYTE,
            Some(k) => 0 <= k < s.len() && s[k] == MAGIC_BYTE && forall|i: int|
                0 <= i < k ==> s[i] != MAGIC_BYTE,
        },
    decreases s.len(),
{
    if s.len() == 0 {
    } else if s[0] == MAGIC_BYTE {
    } else {
        lemma_first_magic(s.drop_first());
        assert forall|i: int| 1 <= i < s.len() implies s.drop_first()[i - 1] == s[i] by {}
    }
}

/// A sequence whose first magic byte stands at the first position known to
/// hold one.
pub proof fn lemma_first_magic_at(s: Seq<u8>, k: int)
    requires
        0 <= k < s.len(),
        s[k] == MAGIC_BYTE,
        forall|i: int| 0 <= i < k ==> s[i] != MAGIC_BYTE,
    ensures
        first_magic(s) == Some(k),
    decreases k,
{
    if k == 0 {
    } else {
        assert forall|i: int| 0 <= i < k - 1 implies s.drop_first()[i] != MAGIC_BYTE by {
            assert(s.drop_first()[i] == s[i + 1]);
        }
        assert(s.drop_first()[k - 1] == s[k]);
        lemma_first_magic_at(s.drop_first(), k - 1);
    }
}

/// What decoding a buffer yields, stated over mathematical sequences.
pub enum FrameParse {
    /// No complete frame; `consumed` bytes of leading noise are dropped.
    NeedMore { consumed: int },
    /// A frame was decoded; `consumed` covers the noise and the frame.
    Frame { msg: Response, consumed: int },
    /// The candidate frame behind `consumed` bytes of noise is malformed.
    Corrupt { consumed: int },
}

/// Decode the frame at the front of `s` (after leading noise).
pub open spec fn spec_frame_decode(s: Seq<u8>) -> FrameParse {
    match first_magic(s) {
        None => FrameParse::NeedMore { consumed: s.len() as int },
        Some(k) => {
            let tail = s.skip(k + 1);
            match varint_parse(tail) {
                VarintParse::NeedMore => FrameParse::NeedMore { consumed: k },
                VarintParse::Invalid => FrameParse::Corrupt { consumed: k },
                VarintParse::Done { value, len } => {
                    if k + 1 + len + value > s.len() {
                        FrameParse::NeedMore { consumed: k }
                    } else {
                        match spec_parse_response(
                            tail.subrange(len as int, (len + value) as int),
                        ) {
                            Some(m) => FrameParse::Frame {
                                msg: m,
                                consumed: k + 1 + len + value,
                            },
                            None => FrameParse::Corrupt { consumed: k },
                        }
                    }
                },
            }
        },
    }
}

/// What decoding a buffer yields, as handed to the transport loop.
#[derive(Clone, Copy, Debug, PartialEq, Eq)]
pub enum FrameDecode {
    /// No complete frame; the first `consumed` bytes are noise and may be
    /// dropped, the rest must be kept for the next attempt.
    NeedMoreData { consumed: usize },
    /// A frame was decoded from the `consumed` bytes after the noise.
    Frame { msg: Response, consumed: usize },
    /// The candidate frame behind `consumed` noise bytes is malformed; the
    /// caller may drop `consumed + 1` bytes to skip its magic byte and
    /// resynchronize.
    Corrupt { consumed: usize },
}

/// Correspondence of an executable decode with the decode function.
pub open spec fn frame_decode_matches(r: FrameDecode, s: FrameParse) -> bool {
    match r {
        FrameDecode::NeedMoreData { consumed } => s == (FrameParse::NeedMore {
            consumed: consumed as int,
        }),
        FrameDecode::Frame { msg, consumed } => s == (FrameParse::Frame {
            msg,
            consumed: consumed as int,
        }),
        FrameDecode::Corrupt { consumed } => s == (FrameParse::Corrupt {
            consumed: consumed as int,
        }),
    }
}

/// Decoding never consumes more than the buffer holds, and a decode error
/// leaves at least the offending magic byte in place.
pub proof fn lemma_frame_decode_consumed_bounds(s: Seq<u8>)
    ensures
        match spec_frame_decode(s) {
            FrameParse::NeedMore { consumed } => 0 <= consumed <= s.len(),
            FrameParse::Frame { msg, consumed } => 0 <= consumed <= s.len(),
            FrameParse::Corrupt { consumed } => 0 <= consumed < s.len(),
        },
{
    lemma_first_magic(s);
    match first_magic(s) {
        Option::None => {},
        Option::Some(k) => {
            lemma_varint_parse_len(s.skip(k + 1));
        },
    }
}

/// Decode one frame from the front of `buf`.
pub fn decode(buf: &Vec<u8>) -> (r: FrameDecode)
    ensures
        frame_decode_matches(r, spec_frame_decode(buf@)),
        match r {
            FrameDecode::NeedMoreData { consumed } => consumed <= buf@.len(),
            FrameDecode::Frame { msg, consumed } => consumed <= buf@.len(),
            FrameDecode::Corrupt { consumed } => consumed < buf@.len(),
        },
{
    proof {
        lemma_frame_decode_consumed_bounds(buf@);
    }
    let n = buf.len();
    let mut k: usize = 0;
    while k < n && buf[k] != MAGIC_BYTE
        invariant
            k <= n == buf@.len(),
            forall|i: int| 0 <= i < k ==> buf@[i] != MAGIC_BYTE,
        decreases n - k,
    {
        k += 1;
    }
    if k == n {
        proof {
            lemma_first_magic(buf@);
            match first_magic(buf@) {
                Option::Some(j) => {
                    assert(buf@[j] != MAGIC_BYTE);
                },
                Option::None => {},
            }
        }
        return FrameDecode::NeedMoreData { consumed: k };
    }
    proof {
        lemma_first_magic_at(buf@, k as int);
    }
    let ghost tail = buf@.skip(k + 1 as int);
    proof {
        assert(tail =~= buf@.subrange(k + 1 as int, n as int));
        lemma_varint_parse_len(tail);
    }
    match parse_varint(buf, k + 1, n) {
        VarintResult::NeedMore => FrameDecode::NeedMoreData { consumed: k },
        VarintResult::Invalid => FrameDecode::Corrupt { consumed: k },
        VarintResult::Done { value, len } => {
            let remaining = n - (k + 1) - len;
            if value > remaining as u64 {
                return FrameDecode::NeedMoreData { consumed: k };
            }
            let l = value as usize;
            let start = k + 1 + len;
            proof {
                assert(tail.subrange(len as int, (len + l) as int) =~= buf@.subrange(
                    start as int,
                    (start + l) as int,
                ));
            }
            match parse_response(buf, start, start + l) {
                Some(msg) => FrameDecode::Frame { msg, consumed: start + l },
                None => FrameDecode::Corrupt { consumed: k },
            }
        },
    }
}

/// The frame bytes of a request.
pub open spec fn spec_frame_encode_request(r: Request) -> Seq<u8> {
    let payload = spec_encode_request(r);
    seq![MAGIC_BYTE] + varint_enc(payload.len()) + payload
}

/// The frame bytes of a response.
pub open spec fn spec_frame_encode_response(m: Response) -> Seq<u8> {
    let payload = spec_encode_response(m);
    seq![MAGIC_BYTE] + varint_enc(payload.len()) + payload
}

/// Append the frame of a request to `buf`: the magic byte, then the
/// length-delimited payload.
pub fn encode(req: &Request, buf: &mut Vec<u8>)
    ensures
        final(buf)@ == old(buf)@ + spec_frame_encode_request(*req),
{
    let mut payload: Vec<u8> = Vec::new();
    encode_request_payload(req, &mut payload);
    buf.push(MAGIC_BYTE);
    encode_varint(payload.len() as u64, buf);
    append_bytes(buf, &payload);
    assert(buf@ =~= old(buf)@ + spec_frame_encode_request(*req));
}

/// Append the frame of a response to `buf`; the device side of the same
/// protocol, used to exercise the codec against itself.
pub fn encode_response(m: &Response, buf: &mut Vec<u8>)
    ensures
        final(buf)@ == old(buf)@ + spec_frame_encode_response(*m),
{
    let mut payload: Vec<u8> = Vec::new();
    encode_response_payload(m, &mut payload);
    buf.push(MAGIC_BYTE);
    encode_varint(payload.len() as u64, buf);
    append_bytes(buf, &payload);
    assert(buf@ =~= old(buf)@ + spec_frame_encode_response(*m));
}

/// Drop the first `count` bytes of `buf`: they were consumed by a decode.
pub fn consume(buf: &mut Vec<u8>, count: usize)
    requires
        count <= old(buf)@.len(),
    ensures
        final(buf)@ == old(buf)@.skip(count as int),
{
    let mut out: Vec<u8> = Vec::new();
    let n = buf.len();
    let mut i = count;
    while i < n
        invariant
            count <= i <= n == buf@.len(),
            out@ =~= buf@.subrange(count as int, i as int),
        decreases n - i,
    {
        out.push(buf[i]);
        i += 1;
    }
    proof {
        assert(out@ =~= buf@.skip(count as int));
    }
    *buf = out;
}

fn append_bytes(buf: &mut Vec<u8>, other: &Vec<u8>)
    ensures
        final(buf)@ == old(buf)@ + other@,
{
    let n = other.len();
    for i in 0..n
        invariant
            n == other@.len(),
            buf@ =~= old(buf)@ + other@.subrange(0, i as int),
    {
        buf.push(other[i]);
        proof {
            assert(old(buf)@ + other@.subrange(0, i as int).push(other@[i as int]) =~= old(buf)@
                + other@.subrange(0, i + 1 as int));
        }
    }
    proof {
        assert(other@.subrange(0, n as int) =~= other@);
    }
}

/// Law: a buffer holding any magic-free noise, then a whole response frame,
/// then arbitrary trailing bytes decodes to exactly that response, and
/// consumes exactly the noise and the frame — not the trailing bytes.
pub proof fn lemma_decode_frame_after_noise(noise: Seq<u8>, m: Response, trailing: Seq<u8>)
    requires
        forall|i: int| 0 <= i < noise.len() ==> noise[i] != MAGIC_BYTE,
    ensures
        spec_frame_decode(noise + spec_frame_encode_response(m) + trailing)
            == (FrameParse::Frame {
            msg: m,
            consumed: noise.len() + spec_frame_encode_response(m).len() as int,
        }),
{
    let payload = spec_encode_response(m);
    let lenc = varint_enc(payload.len());
    let frame = spec_frame_encode_response(m);
    let s = noise + frame + trailing;
    let k = noise.len() as int;
    assert(s[k] == MAGIC_BYTE) by {
        assert(frame[0] == MAGIC_BYTE);
    }
    assert forall|i: int| 0 <= i < k implies s[i] != MAGIC_BYTE by {
        assert(s[i] == noise[i]);
    }
    lemma_first_magic_at(s, k);
    let tail = s.skip(k + 1);
    assert(tail =~= lenc + (payload + trailing));
    assert(payload.len() <= 15) by {
        lemma_varint_enc_len_u64(m.global_status as u64);
    }
    lemma_varint_round_trip(payload.len() as u64, payload + trailing);
    assert(varint_parse(tail) == (VarintParse::Done {
        value: payload.len(),
        len: lenc.len(),
    }));
    assert(tail.subrange(lenc.len() as int, (lenc.len() + payload.len()) as int) =~= payload);
    lemma_response_round_trip(m);
    assert(k + 1 + lenc.len() + payload.len() == noise.len() + frame.len());
}

/// Law: a response encoded on its own decodes back to itself, consuming the
/// whole frame.
pub proof fn lemma_frame_round_trip(m: Response)
    ensures
        spec_frame_decode(spec_frame_encode_response(m)) == (FrameParse::Frame {
            msg: m,
            consumed: spec_frame_encode_response(m).len() as int,
        }),
{
    lemma_decode_frame_after_noise(Seq::empty(), m, Seq::empty());
    assert(Seq::empty() + spec_frame_encode_response(m) + Seq::empty()
        =~= spec_frame_encode_response(m));
}

/// Law: a buffer with no magic byte anywhere is all noise: decoding
/// consumes it whole and asks for more data, without error.
pub proof fn lemma_decode_all_noise(s: Seq<u8>)
    requires
        forall|i: int| 0 <= i < s.len() ==> s[i] != MAGIC_BYTE,
    ensures
        spec_frame_decode(s) == (FrameParse::NeedMore { consumed: s.len() as int }),
{
    lemma_first_magic(s);
    match first_magic(s) {
        Option::Some(j) => {
            assert(s[j] != MAGIC_BYTE);
        },
        Option::None => {},
    }
}

} // verus!
