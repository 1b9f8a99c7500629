//! Decoder for the octal escapes of tmux control mode.
//!
//! In control mode tmux writes a byte that is not printable, and the
//! backslash itself, as a backslash followed by three octal digits.

use vstd::prelude::*;
use vstd::utf8::encode_utf8;

verus! {

/// Whether `b` is one of the ASCII digits `0` to `7`.
pub open spec fn is_octal(b: u8) -> bool {
    0x30 <= b <= 0x37
}

/// The number written by the three digits that follow index `i`.
pub open spec fn escape_value(s: Seq<u8>, i: int) -> int {
    (s[i + 1] - 0x30) * 64 + (s[i + 2] - 0x30) * 8 + (s[i + 3] - 0x30)
}

/// Whether an escape begins at index `i` of `s`: a backslash, then three
/// octal digits that write a number of at most 255.
pub open spec fn escape_at(s: Seq<u8>, i: int) -> bool {
    &&& 0 <= i
    &&& i + 3 < s.len()
    &&& s[i] == 0x5c
    &&& is_octal(s[i + 1])
    &&& is_octal(s[i + 2])
    &&& is_octal(s[i + 3])
    &&& escape_value(s, i) <= 255
}

/// The bytes that `s` stands for: every escape gives the byte it writes, and
/// every other byte, a backslash that begins no escape included, gives
/// itself.
pub open spec fn decode_octal_spec(s: Seq<u8>) -> Seq<u8>
    decreases s.len(),
{
    if s.len() == 0 {
        Seq::empty()
    } else if escape_at(s, 0) {
        seq![escape_value(s, 0) as u8] + decode_octal_spec(s.skip(4))
    } else {
        seq![s[0]] + decode_octal_spec(s.skip(1))
    }
}

/// How one byte is written when bytes that satisfy `esc` are escaped.
pub open spec fn encode_byte(esc: spec_fn(u8) -> bool, b: u8) -> Seq<u8> {
    if esc(b) {
        seq![0x5cu8, (0x30 + b / 64) as u8, (0x30 + (b / 8) % 8) as u8, (0x30 + b % 8) as u8]
    } else {
        seq![b]
    }
}

/// How `raw` is written when bytes that satisfy `esc` are escaped.
pub open spec fn encode_octal(esc: spec_fn(u8) -> bool, raw: Seq<u8>) -> Seq<u8>
    decreases raw.len(),
{
    if raw.len() == 0 {
        Seq::empty()
    } else {
        encode_byte(esc, raw[0]) + encode_octal(esc, raw.skip(1))
    }
}

/// The set of bytes that tmux escapes: control bytes and the backslash.
pub open spec fn tmux_escapes() -> spec_fn(u8) -> bool {
    |b: u8| b < 0x20 || b == 0x5c
}

/// Decoding undoes encoding, for every sequence of bytes and every choice of
/// the bytes to escape that includes the backslash.
pub proof fn lemma_decode_encode(esc: spec_fn(u8) -> bool, raw: Seq<u8>)
    requires
        esc(0x5c),
    ensures
        decode_octal_spec(encode_octal(esc, raw)) == raw,
    decreases raw.len(),
{
    if raw.len() > 0 {
        let b = raw[0];
        let rest = encode_octal(esc, raw.skip(1));
        let s = encode_byte(esc, b) + rest;
        lemma_decode_encode(esc, raw.skip(1));
        if esc(b) {
            assert(escape_value(s, 0) == b) by {
                assert(s[1] == 0x30 + b / 64);
                assert(s[2] == 0x30 + (b / 8) % 8);
                assert(s[3] == 0x30 + b % 8);
            }
            assert(escape_at(s, 0));
            assert(s.skip(4) =~= rest);
        } else {
            assert(s[0] == b);
            assert(!escape_at(s, 0));
            assert(s.skip(1) =~= rest);
        }
        assert(seq![b] + raw.skip(1) =~= raw);
    }
}

/// Decoding undoes the encoding that tmux applies.
pub proof fn lemma_decode_tmux_encoding(raw: Seq<u8>)
    ensures
        decode_octal_spec(encode_octal(tmux_escapes(), raw)) == raw,
{
    lemma_decode_encode(tmux_escapes(), raw);
}

/// A byte at which no escape begins stands for itself.
pub proof fn lemma_unrecognized_is_literal(s: Seq<u8>)
    requires
        s.len() > 0,
        !escape_at(s, 0),
    ensures
        decode_octal_spec(s) == seq![s[0]] + decode_octal_spec(s.skip(1)),
{
}

fn is_octal_digit(b: u8) -> (r: bool)
    ensures
        r == is_octal(b),
{
    0x30 <= b && b <= 0x37
}

/// Decodes the octal escapes in `bytes`.
pub fn decode_octal_bytes(bytes: &[u8]) -> (out: Vec<u8>)
    ensures
        out@ == decode_octal_spec(bytes@),
{
    let mut out: Vec<u8> = Vec::new();
    let mut i: usize = 0;
    assert(bytes@.skip(0) =~= bytes@);
    assert(out@ + decode_octal_spec(bytes@) =~= decode_octal_spec(bytes@));
    while i < bytes.len()
        invariant
            i <= bytes@.len(),
            decode_octal_spec(bytes@) == out@ + decode_octal_spec(bytes@.skip(i as int)),
        decreases bytes@.len() - i,
    {
        let ghost rest = bytes@.skip(i as int);
        let mut taken = false;
        if bytes[i] == 0x5c && bytes.len() - i > 3 {
            let d1 = bytes[i + 1];
            let d2 = bytes[i + 2];
            let d3 = bytes[i + 3];
            if is_octal_digit(d1) && is_octal_digit(d2) && is_octal_digit(d3) {
                let value: u16 = ((d1 - 0x30) as u16) * 64 + ((d2 - 0x30) as u16) * 8 + ((d3
                    - 0x30) as u16);
                if value <= 255 {
                    assert(escape_at(rest, 0));
                    out.push(value as u8);
                    assert(rest.skip(4) =~= bytes@.skip(i + 4));
                    i += 4;
                    taken = true;
                }
            }
        }
        if !taken {
            assert(!escape_at(rest, 0));
            out.push(bytes[i]);
            assert(rest.skip(1) =~= bytes@.skip(i + 1));
            i += 1;
        }
        assert(decode_octal_spec(bytes@) =~= out@ + decode_octal_spec(bytes@.skip(i as int)));
    }
    assert(decode_octal_spec(bytes@) =~= out@);
    out
}

/// Decodes the octal escapes in the UTF-8 bytes of `input`.
pub fn decode_octal(input: &str) -> (out: Vec<u8>)
    ensures
        out@ == decode_octal_spec(encode_utf8(input@)),
{
    decode_octal_bytes(input.as_bytes())
}

} // verus!
