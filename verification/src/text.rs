//! Byte-level text helpers: ASCII predicates, case-insensitive prefix tests,
//! byte equality, and decimal rendering of port numbers.

use vstd::prelude::*;

verus! {

/// Every byte of the sequence is ASCII.
pub open spec fn is_ascii_bytes(s: Seq<u8>) -> bool {
    forall|i: int| 0 <= i < s.len() ==> s[i] < 128
}

/// The characters a sequence of ASCII bytes stands for.
pub open spec fn chars_of_bytes(s: Seq<u8>) -> Seq<char> {
    Seq::new(s.len(), |i: int| s[i] as char)
}

/// The ASCII lower-case image of a byte: letters `A`..`Z` map to `a`..`z`,
/// everything else is unchanged.
pub open spec fn ascii_lower_byte(b: u8) -> u8 {
    if 65 <= b <= 90 {
        (b + 32) as u8
    } else {
        b
    }
}

/// `p` is a prefix of `s` up to ASCII case.
pub open spec fn starts_with_ci(s: Seq<u8>, p: Seq<u8>) -> bool {
    p.len() <= s.len() && forall|i: int|
        0 <= i < p.len() ==> ascii_lower_byte(s[i]) == ascii_lower_byte(p[i])
}

/// The decimal digits of `n`, most significant first, as ASCII bytes.
pub open spec fn dec_bytes(n: nat) -> Seq<u8>
    decreases n,
{
    if n < 10 {
        seq![(48 + n) as u8]
    } else {
        dec_bytes(n / 10).push((48 + n % 10) as u8)
    }
}

/// Decimal digits are ASCII.
pub proof fn lemma_dec_bytes_ascii(n: nat)
    ensures
        is_ascii_bytes(dec_bytes(n)),
    decreases n,
{
    if n >= 10 {
        lemma_dec_bytes_ascii(n / 10);
    }
}

pub fn lower_byte(b: u8) -> (r: u8)
    ensures
        r == ascii_lower_byte(b),
{
    if 65 <= b && b <= 90 {
        b + 32
    } else {
        b
    }
}

/// Case-insensitive (ASCII) test of whether `s` begins with `p`.
pub fn starts_ci(s: &[u8], p: &[u8]) -> (r: bool)
    ensures
        r == starts_with_ci(s@, p@),
{
    if p.len() > s.len() {
        return false;
    }
    let mut i: usize = 0;
    while i < p.len()
        invariant
            i <= p@.len() <= s@.len(),
            forall|j: int| 0 <= j < i ==> ascii_lower_byte(s@[j]) == ascii_lower_byte(p@[j]),
        decreases p@.len() - i,
    {
        if lower_byte(s[i]) != lower_byte(p[i]) {
            return false;
        }
        i += 1;
    }
    true
}

/// Exact byte equality of two slices.
pub fn bytes_eq(a: &[u8], b: &[u8]) -> (r: bool)
    ensures
        r == (a@ == b@),
{
    if a.len() != b.len() {
        return false;
    }
    let mut i: usize = 0;
    while i < a.len()
        invariant
            i <= a@.len(),
            a@.len() == b@.len(),
            forall|j: int| 0 <= j < i ==> a@[j] == b@[j],
        decreases a@.len() - i,
    {
        if a[i] != b[i] {
            proof {
                assert(a@[i as int] != b@[i as int]);
            }
            return false;
        }
        i += 1;
    }
    proof {
        assert(a@ =~= b@);
    }
    true
}

/// What `from_utf8_lossy` decodes a byte sequence to.
pub uninterp spec fn utf8_lossy_chars(bytes: Seq<u8>) -> Seq<char>;

/// Relies on `String::from_utf8_lossy`: the result is a function of the input
/// bytes alone, and ASCII bytes decode to the characters of the same codes.
#[verifier::external_body]
pub(crate) fn bytes_to_text(v: &[u8]) -> (r: String)
    ensures
        r@ == utf8_lossy_chars(v@),
        is_ascii_bytes(v@) ==> r@ == chars_of_bytes(v@),
{
    String::from_utf8_lossy(v).into_owned()
}

/// Appends the decimal digits of `n` to `out`.
pub fn push_decimal(out: &mut Vec<u8>, n: u16)
    ensures
        final(out)@ == old(out)@ + dec_bytes(n as nat),
    decreases n,
{
    if n >= 10 {
        push_decimal(out, n / 10);
    }
    out.push(48 + (n % 10) as u8);
    proof {
        assert(out@ =~= old(out)@ + dec_bytes(n as nat));
    }
}

/// The decimal digits of `n` as text.
pub fn decimal_string(n: u16) -> (r: String)
    ensures
        r@ == chars_of_bytes(dec_bytes(n as nat)),
{
    let mut digits: Vec<u8> = Vec::new();
    push_decimal(&mut digits, n);
    proof {
        lemma_dec_bytes_ascii(n as nat);
        assert(digits@ =~= dec_bytes(n as nat));
    }
    bytes_to_text(digits.as_slice())
}

} // verus!
