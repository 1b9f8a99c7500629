//! Decoder for base64 in the standard alphabet.

use vstd::prelude::*;
use vstd::utf8::encode_utf8;

verus! {

/// The number that the base64 digit `c` stands for.
pub open spec fn digit_value(c: u8) -> Option<u8> {
    if 0x41 <= c <= 0x5a {
        Some((c - 0x41) as u8)
    } else if 0x61 <= c <= 0x7a {
        Some((c - 0x61 + 26) as u8)
    } else if 0x30 <= c <= 0x39 {
        Some((c - 0x30 + 52) as u8)
    } else if c == 0x2b {
        Some(62u8)
    } else if c == 0x2f {
        Some(63u8)
    } else {
        None
    }
}

/// Whether the decoder passes over `c`: line feed, carriage return, space.
pub open spec fn is_skipped(c: u8) -> bool {
    c == 0x0a || c == 0x0d || c == 0x20
}

/// The digits of `s` before the first `=`, each as its number, or `None`
/// where a byte before the first `=` is neither a digit nor passed over.
pub open spec fn sextets(s: Seq<u8>) -> Option<Seq<u8>>
    decreases s.len(),
{
    if s.len() == 0 || s[0] == 0x3d {
        Some(Seq::empty())
    } else if is_skipped(s[0]) {
        sextets(s.skip(1))
    } else {
        match (digit_value(s[0]), sextets(s.skip(1))) {
            (Some(v), Some(rest)) => Some(seq![v] + rest),
            _ => None,
        }
    }
}

/// Whether every byte of `s` before the first `=` is a digit or passed over.
pub open spec fn well_formed(s: Seq<u8>) -> bool
    decreases s.len(),
{
    if s.len() == 0 || s[0] == 0x3d {
        true
    } else if is_skipped(s[0]) {
        well_formed(s.skip(1))
    } else {
        digit_value(s[0]).is_some() && well_formed(s.skip(1))
    }
}

/// The bytes written by a sequence of six-bit numbers: every four numbers
/// give three bytes, three left over give two, two give one, and a single
/// one left over gives none.
pub open spec fn pack(d: Seq<u8>) -> Seq<u8>
    decreases d.len(),
{
    if d.len() < 2 {
        Seq::empty()
    } else if d.len() == 2 {
        seq![(d[0] * 4 + d[1] / 16) as u8]
    } else if d.len() == 3 {
        seq![(d[0] * 4 + d[1] / 16) as u8, ((d[1] % 16) * 16 + d[2] / 4) as u8]
    } else {
        seq![
            (d[0] * 4 + d[1] / 16) as u8,
            ((d[1] % 16) * 16 + d[2] / 4) as u8,
            ((d[2] % 4) * 64 + d[3]) as u8,
        ] + pack(d.skip(4))
    }
}

/// The bytes that the base64 text `s` stands for.
pub open spec fn base64_spec(s: Seq<u8>) -> Option<Seq<u8>> {
    match sextets(s) {
        Some(d) => Some(pack(d)),
        None => None,
    }
}

proof fn lemma_sextets_well_formed(s: Seq<u8>)
    ensures
        sextets(s).is_some() == well_formed(s),
        sextets(s).is_some() ==> forall|i: int|
            0 <= i < sextets(s).unwrap().len() ==> #[trigger] sextets(s).unwrap()[i] < 64,
    decreases s.len(),
{
    if !(s.len() == 0 || s[0] == 0x3d) {
        lemma_sextets_well_formed(s.skip(1));
    }
}

fn digit_of(c: u8) -> (r: Option<u8>)
    ensures
        r == digit_value(c),
{
    if 0x41 <= c && c <= 0x5a {
        Some(c - 0x41)
    } else if 0x61 <= c && c <= 0x7a {
        Some(c - 0x61 + 26)
    } else if 0x30 <= c && c <= 0x39 {
        Some(c - 0x30 + 52)
    } else if c == 0x2b {
        Some(62)
    } else if c == 0x2f {
        Some(63)
    } else {
        None
    }
}

fn read_sextets(s: &[u8]) -> (r: Option<Vec<u8>>)
    ensures
        match r {
            Some(d) => sextets(s@) == Some(d@),
            None => sextets(s@).is_none(),
        },
{
    let mut d: Vec<u8> = Vec::new();
    let mut i: usize = 0;
    assert(s@.skip(0) =~= s@);
    while i < s.len()
        invariant
            i <= s@.len(),
            sextets(s@) == (match sextets(s@.skip(i as int)) {
                Some(rest) => Some(d@ + rest),
                None => None,
            }),
        decreases s@.len() - i,
    {
        let c = s[i];
        let ghost tail = s@.skip(i as int);
        assert(tail.skip(1) =~= s@.skip(i + 1));
        if c == 0x3d {
            assert(d@ + Seq::<u8>::empty() =~= d@);
            return Some(d);
        }
        if !(c == 0x0a || c == 0x0d || c == 0x20) {
            match digit_of(c) {
                Some(v) => {
                    let ghost before = d@;
                    d.push(v);
                    assert forall|rest: Seq<u8>| before + (seq![v] + rest) == d@ + rest by {
                        assert(before + (seq![v] + rest) =~= d@ + rest);
                    }
                },
                None => {
                    return None;
                },
            }
        }
        i += 1;
    }
    assert(d@ + Seq::<u8>::empty() =~= d@);
    Some(d)
}

fn pack_sextets(d: &Vec<u8>) -> (out: Vec<u8>)
    requires
        forall|i: int| 0 <= i < d@.len() ==> #[trigger] d@[i] < 64,
    ensures
        out@ == pack(d@),
{
    let mut out: Vec<u8> = Vec::new();
    let mut i: usize = 0;
    let n = d.len();
    assert(d@.skip(0) =~= d@);
    while n - i >= 4
        invariant
            i <= n == d@.len(),
            forall|k: int| 0 <= k < d@.len() ==> #[trigger] d@[k] < 64,
            pack(d@) == out@ + pack(d@.skip(i as int)),
        decreases n - i,
    {
        let ghost tail = d@.skip(i as int);
        let (a, b, c, e) = (d[i], d[i + 1], d[i + 2], d[i + 3]);
        assert(tail[0] == a && tail[1] == b && tail[2] == c && tail[3] == e);
        out.push(a * 4 + b / 16);
        out.push((b % 16) * 16 + c / 4);
        out.push((c % 4) * 64 + e);
        assert(tail.skip(4) =~= d@.skip(i + 4));
        assert(pack(d@) =~= out@ + pack(d@.skip(i + 4)));
        i += 4;
    }
    let ghost tail = d@.skip(i as int);
    if n - i == 3 {
        assert(tail[0] == d@[i as int] && tail[1] == d@[i + 1] && tail[2] == d@[i + 2]);
        out.push(d[i] * 4 + d[i + 1] / 16);
        out.push((d[i + 1] % 16) * 16 + d[i + 2] / 4);
    } else if n - i == 2 {
        assert(tail[0] == d@[i as int] && tail[1] == d@[i + 1]);
        out.push(d[i] * 4 + d[i + 1] / 16);
    }
    assert(pack(d@) =~= out@);
    out
}

/// Decodes the base64 text in `bytes`. Decoding stops at the first `=`;
/// line feeds, carriage returns and spaces are passed over. Fails exactly
/// where another byte that is no base64 digit comes before the first `=`.
pub fn base64_decode_bytes(bytes: &[u8]) -> (r: Result<Vec<u8>, &'static str>)
    ensures
        r.is_ok() == well_formed(bytes@),
        match r {
            Ok(out) => base64_spec(bytes@) == Some(out@),
            Err(_) => base64_spec(bytes@).is_none(),
        },
{
    proof {
        lemma_sextets_well_formed(bytes@);
    }
    match read_sextets(bytes) {
        Some(d) => Ok(pack_sextets(&d)),
        None => Err("Invalid base64 character"),
    }
}

/// Decodes the base64 text `input`.
pub fn base64_decode(input: &str) -> (r: Result<Vec<u8>, &'static str>)
    ensures
        r.is_ok() == well_formed(encode_utf8(input@)),
        match r {
            Ok(out) => base64_spec(encode_utf8(input@)) == Some(out@),
            Err(_) => base64_spec(encode_utf8(input@)).is_none(),
        },
{
    base64_decode_bytes(input.as_bytes())
}

} // verus!
