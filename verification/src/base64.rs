//! Standard base64 (RFC 4648 alphabet, `=` padding), specified over byte
//! sequences and implemented as a verified encoder.

use vstd::prelude::*;
use crate::text::{chars_of_bytes, is_ascii_bytes};

verus! {

/// The alphabet byte for a 6-bit value: `A`..`Z`, `a`..`z`, `0`..`9`, `+`, `/`.
pub open spec fn b64_char(v: u8) -> u8 {
    if v < 26 {
        (65 + v) as u8
    } else if v < 52 {
        (97 + (v - 26)) as u8
    } else if v < 62 {
        (48 + (v - 52)) as u8
    } else if v == 62 {
        43
    } else {
        47
    }
}

/// The four alphabet bytes encoding one full group of three input bytes.
pub open spec fn b64_group3(b0: u8, b1: u8, b2: u8) -> Seq<u8> {
    seq![
        b64_char(b0 >> 2),
        b64_char(((b0 & 3) << 4) | (b1 >> 4)),
        b64_char(((b1 & 15) << 2) | (b2 >> 6)),
        b64_char(b2 & 63),
    ]
}

/// The four output bytes for a final group of one input byte: two alphabet
/// bytes and two `=` pads.
pub open spec fn b64_tail1(b0: u8) -> Seq<u8> {
    seq![b64_char(b0 >> 2), b64_char((b0 & 3) << 4), 61u8, 61u8]
}

/// The four output bytes for a final group of two input bytes: three alphabet
/// bytes and one `=` pad.
pub open spec fn b64_tail2(b0: u8, b1: u8) -> Seq<u8> {
    seq![b64_char(b0 >> 2), b64_char(((b0 & 3) << 4) | (b1 >> 4)), b64_char((b1 & 15) << 2), 61u8]
}

/// The base64 encoding of an arbitrary byte sequence.
pub open spec fn base64_of(s: Seq<u8>) -> Seq<u8>
    decreases s.len(),
{
    if s.len() == 0 {
        Seq::empty()
    } else if s.len() == 1 {
        b64_tail1(s[0])
    } else if s.len() == 2 {
        b64_tail2(s[0], s[1])
    } else {
        b64_group3(s[0], s[1], s[2]) + base64_of(s.skip(3))
    }
}

/// Encoding splits over any group boundary.
pub proof fn lemma_base64_split(s: Seq<u8>, i: int)
    requires
        0 <= i <= s.len(),
        i % 3 == 0,
    ensures
        base64_of(s) == base64_of(s.take(i)) + base64_of(s.skip(i)),
    decreases i,
{
    if i == 0 {
        assert(s.take(0) =~= Seq::<u8>::empty());
        assert(s.skip(0) =~= s);
        assert(base64_of(s) =~= base64_of(s.take(0)) + base64_of(s.skip(0)));
    } else {
        lemma_base64_split(s.skip(3), i - 3);
        assert(s.skip(3).take(i - 3) =~= s.take(i).skip(3));
        assert(s.skip(3).skip(i - 3) =~= s.skip(i));
        assert(s.take(i)[0] == s[0]);
        assert(s.take(i)[1] == s[1]);
        assert(s.take(i)[2] == s[2]);
        assert(base64_of(s) =~= base64_of(s.take(i)) + base64_of(s.skip(i)));
    }
}

/// Every byte of a base64 encoding is ASCII.
pub proof fn lemma_base64_ascii(s: Seq<u8>)
    ensures
        is_ascii_bytes(base64_of(s)),
    decreases s.len(),
{
    if s.len() > 2 {
        lemma_base64_ascii(s.skip(3));
    }
}

/// The alphabet byte for a 6-bit value.
pub fn b64_byte(v: u8) -> (r: u8)
    ensures
        r == b64_char(v),
{
    if v < 26 {
        65 + v
    } else if v < 52 {
        97 + (v - 26)
    } else if v < 62 {
        48 + (v - 52)
    } else if v == 62 {
        43
    } else {
        47
    }
}

/// The base64 encoding of `data`, as raw ASCII bytes.
pub fn base64_bytes(data: &[u8]) -> (r: Vec<u8>)
    ensures
        r@ == base64_of(data@),
{
    let mut out: Vec<u8> = Vec::new();
    let mut i: usize = 0;
    while data.len() - i >= 3
        invariant
            i <= data@.len(),
            i % 3 == 0,
            out@ == base64_of(data@.take(i as int)),
        decreases data@.len() - i,
    {
        let b0 = data[i];
        let b1 = data[i + 1];
        let b2 = data[i + 2];
        out.push(b64_byte(b0 >> 2));
        out.push(b64_byte(((b0 & 3) << 4) | (b1 >> 4)));
        out.push(b64_byte(((b1 & 15) << 2) | (b2 >> 6)));
        out.push(b64_byte(b2 & 63));
        proof {
            let j = i as int;
            lemma_base64_split(data@.take(j + 3), j);
            assert(data@.take(j + 3).take(j) =~= data@.take(j));
            let t = data@.take(j + 3).skip(j);
            assert(t.len() == 3);
            assert(t[0] == data@[j]);
            assert(t[1] == data@[j + 1]);
            assert(t[2] == data@[j + 2]);
            assert(t.skip(3) =~= Seq::<u8>::empty());
            assert(base64_of(t.skip(3)) == Seq::<u8>::empty());
            assert(base64_of(t) == b64_group3(t[0], t[1], t[2]) + base64_of(t.skip(3)));
            assert(base64_of(t) =~= b64_group3(data@[j], data@[j + 1], data@[j + 2]));
            assert(out@ =~= base64_of(data@.take(j + 3)));
        }
        i += 3;
    }
    proof {
        lemma_base64_split(data@, i as int);
    }
    if data.len() - i == 1 {
        let b0 = data[i];
        out.push(b64_byte(b0 >> 2));
        out.push(b64_byte((b0 & 3) << 4));
        out.push(61);
        out.push(61);
        proof {
            let t = data@.skip(i as int);
            assert(t.len() == 1);
            assert(t[0] == data@[i as int]);
            assert(out@ =~= base64_of(data@));
        }
    } else if data.len() - i == 2 {
        let b0 = data[i];
        let b1 = data[i + 1];
        out.push(b64_byte(b0 >> 2));
        out.push(b64_byte(((b0 & 3) << 4) | (b1 >> 4)));
        out.push(b64_byte((b1 & 15) << 2));
        out.push(61);
        proof {
            let t = data@.skip(i as int);
            assert(t.len() == 2);
            assert(t[0] == data@[i as int]);
            assert(t[1] == data@[i as int + 1]);
            assert(out@ =~= base64_of(data@));
        }
    } else {
        proof {
            assert(data@.skip(i as int) =~= Seq::<u8>::empty());
            assert(data@.take(i as int) =~= data@);
            assert(out@ =~= base64_of(data@));
        }
    }
    out
}

/// The base64 encoding of `data` as text, as a credential value is sent on
/// the wire.
pub fn encode_base64(data: &[u8]) -> (r: String)
    ensures
        r@ == chars_of_bytes(base64_of(data@)),
{
    let bytes = base64_bytes(data);
    proof {
        lemma_base64_ascii(data@);
    }
    crate::text::bytes_to_text(bytes.as_slice())
}

} // verus!
