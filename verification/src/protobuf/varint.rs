//! Base-128 variable-length integers, as used for payload lengths and
//! numeric message fields.
//!
//! Each byte carries seven value bits; the high bit marks a continuation.
//! A parse accepts at most [`MAX_VARINT_BYTES`] bytes and rejects values
//! that do not fit in 64 bits.
use vstd::prelude::*;

verus! {

/// Largest number of bytes one varint may occupy.
pub const MAX_VARINT_BYTES: usize = 10;

/// The encoding of `x`: low seven bits first, continuation bit on every
/// byte but the last.
pub open spec fn varint_enc(x: nat) -> Seq<u8>
    decreases x,
{
    if x < 128 {
        seq![x as u8]
    } else {
        seq![(x % 128 + 128) as u8] + varint_enc(x / 128)
    }
}

/// The outcome of parsing a varint from the front of a byte sequence.
pub enum VarintParse {
    /// The sequence ends before the varint does.
    NeedMore,
    /// Too many continuation bytes, or a value beyond 64 bits.
    Invalid,
    /// A value, and how many bytes it occupied.
    Done { value: nat, len: nat },
}

/// Parse a varint from the front of `s`.
pub open spec fn varint_parse(s: Seq<u8>) -> VarintParse
    decreases s.len(),
{
    if s.len() == 0 {
        VarintParse::NeedMore
    } else if s[0] < 128 {
        VarintParse::Done { value: s[0] as nat, len: 1 }
    } else {
        match varint_parse(s.drop_first()) {
            VarintParse::NeedMore => VarintParse::NeedMore,
            VarintParse::Invalid => VarintParse::Invalid,
            VarintParse::Done { value, len } => {
                let v = (s[0] - 128) + 128 * value;
                if len + 1 > MAX_VARINT_BYTES || v >= 0x1_0000_0000_0000_0000 {
                    VarintParse::Invalid
                } else {
                    VarintParse::Done { value: v as nat, len: len + 1 }
                }
            },
        }
    }
}

/// 128 to the `k`-th power; `varint_enc(x)` fits in `k` bytes whenever `x`
/// is below it.
pub open spec fn pow128(k: nat) -> nat
    decreases k,
{
    if k == 0 {
        1
    } else {
        128 * pow128((k - 1) as nat)
    }
}

proof fn lemma_varint_enc_len(x: nat, k: nat)
    requires
        k >= 1,
        x < pow128(k),
    ensures
        1 <= varint_enc(x).len() <= k,
    decreases k,
{
    if x < 128 {
    } else {
        assert(k >= 2) by {
            assert(pow128(1) == 128) by {
                reveal_with_fuel(pow128, 2);
            }
            if k == 1 {
                assert(x < 128);
            }
        }
        assert(x / 128 < pow128((k - 1) as nat)) by (nonlinear_arith)
            requires
                x < pow128(k),
                pow128(k) == 128 * pow128((k - 1) as nat),
        ;
        lemma_varint_enc_len(x / 128, (k - 1) as nat);
    }
}

/// Every 64-bit value encodes to at most [`MAX_VARINT_BYTES`] bytes.
pub proof fn lemma_varint_enc_len_u64(x: u64)
    ensures
        1 <= varint_enc(x as nat).len() <= MAX_VARINT_BYTES,
{
    assert(pow128(10) > 0x1_0000_0000_0000_0000) by {
        reveal_with_fuel(pow128, 11);
    }
    lemma_varint_enc_len(x as nat, 10);
}

/// Law: a varint parse reads back exactly the value and the bytes that the
/// encoder produced, whatever follows them.
pub proof fn lemma_varint_round_trip(x: u64, rest: Seq<u8>)
    ensures
        varint_parse(varint_enc(x as nat) + rest) == (VarintParse::Done {
            value: x as nat,
            len: varint_enc(x as nat).len(),
        }),
    decreases x,
{
    let enc = varint_enc(x as nat);
    let s = enc + rest;
    if x < 128 {
        assert(s[0] == x as u8);
    } else {
        let x128 = x / 128;
        lemma_varint_round_trip(x128, rest);
        assert(varint_enc(x128 as nat) + rest =~= s.drop_first());
        assert(varint_enc(x128 as nat).len() <= 9) by {
            assert(pow128(9) == 0x8000_0000_0000_0000) by {
                reveal_with_fuel(pow128, 10);
            }
            lemma_varint_enc_len(x128 as nat, 9);
        }
        assert(s[0] == (x % 128 + 128) as u8);
        assert((s[0] - 128) + 128 * (x128 as nat) == x as nat) by {
            vstd::arithmetic::div_mod::lemma_fundamental_div_mod(x as int, 128);
        }
        assert(enc.len() == 1 + varint_enc(x128 as nat).len());
    }
}

/// A parsed varint occupies at least one byte and at most the whole input.
pub proof fn lemma_varint_parse_len(s: Seq<u8>)
    ensures
        varint_parse(s) matches VarintParse::Done { value, len } ==> 1 <= len <= s.len(),
    decreases s.len(),
{
    if s.len() == 0 {
    } else if s[0] < 128 {
    } else {
        lemma_varint_parse_len(s.drop_first());
    }
}

/// The result of parsing a varint from an in-memory buffer.
#[derive(Clone, Copy, Debug, PartialEq, Eq)]
pub enum VarintResult {
    NeedMore,
    Invalid,
    Done { value: u64, len: usize },
}

/// Correspondence of an executable parse result with the parse function.
pub open spec fn varint_result_matches(r: VarintResult, s: VarintParse) -> bool {
    match r {
        VarintResult::NeedMore => s is NeedMore,
        VarintResult::Invalid => s is Invalid,
        VarintResult::Done { value, len } => s == (VarintParse::Done {
            value: value as nat,
            len: len as nat,
        }),
    }
}

/// Parse a varint from `buf[start..end]`.
pub fn parse_varint(buf: &Vec<u8>, start: usize, end: usize) -> (r: VarintResult)
    requires
        start <= end <= buf@.len(),
    ensures
        varint_result_matches(r, varint_parse(buf@.subrange(start as int, end as int))),
    decreases end - start,
{
    let ghost s = buf@.subrange(start as int, end as int);
    if start == end {
        return VarintResult::NeedMore;
    }
    let b = buf[start];
    if b < 128 {
        return VarintResult::Done { value: b as u64, len: 1 };
    }
    proof {
        assert(buf@.subrange(start + 1 as int, end as int) =~= s.drop_first());
    }
    match parse_varint(buf, start + 1, end) {
        VarintResult::NeedMore => VarintResult::NeedMore,
        VarintResult::Invalid => VarintResult::Invalid,
        VarintResult::Done { value, len } => {
            if len >= MAX_VARINT_BYTES {
                VarintResult::Invalid
            } else if value >= 0x200_0000_0000_0000 {
                // 128 * value would not fit in 64 bits.
                VarintResult::Invalid
            } else {
                VarintResult::Done { value: (b - 128) as u64 + 128 * value, len: len + 1 }
            }
        },
    }
}

/// Append the encoding of `x` to `out`.
pub fn encode_varint(x: u64, out: &mut Vec<u8>)
    ensures
        final(out)@ == old(out)@ + varint_enc(x as nat),
    decreases x,
{
    if x < 128 {
        out.push(x as u8);
        assert(out@ =~= old(out)@ + varint_enc(x as nat));
    } else {
        out.push((x % 128 + 128) as u8);
        encode_varint(x / 128, out);
        assert(out@ =~= old(out)@ + varint_enc(x as nat));
    }
}

} // verus!
