//! Proxy authentication schemes: the closed variant set, parsing a scheme
//! from challenge text, and rendering a credential for a scheme.

use vstd::prelude::*;
use vstd::string::StringSliceAdditionalSpecFns;
use vstd::utf8::encode_utf8;
use crate::base64::{base64_of, encode_base64};
use crate::text::{ascii_lower_byte, bytes_to_text, chars_of_bytes, is_ascii_bytes, starts_ci, starts_with_ci, utf8_lossy_chars};

verus! {

/// An authentication scheme a proxy may demand. `Unknown` retains the
/// challenge text verbatim, so callers can report exactly what was asked.
#[derive(Debug, Clone, PartialEq, Eq)]
pub enum AuthType {
    NoAuth,
    Basic,
    Digest,
    Unknown(String),
}

/// The text names the Basic scheme: a case-insensitive `basic` prefix.
pub open spec fn names_basic(v: Seq<u8>) -> bool {
    starts_with_ci(v, encode_utf8("basic"@))
}

/// The text names the Digest scheme: a case-insensitive `digest` prefix.
pub open spec fn names_digest(v: Seq<u8>) -> bool {
    starts_with_ci(v, encode_utf8("digest"@))
}

/// `a` is the scheme named by the challenge value `v`: Basic and Digest by
/// case-insensitive prefix, anything else retained verbatim as `Unknown`.
pub open spec fn is_scheme_of(a: AuthType, v: Seq<u8>) -> bool {
    if names_basic(v) {
        a is Basic
    } else if names_digest(v) {
        a is Digest
    } else {
        a matches AuthType::Unknown(t) && t@ == utf8_lossy_chars(v) && (is_ascii_bytes(v)
            ==> t@ == chars_of_bytes(v))
    }
}

/// Law: scheme recognition is ASCII case-insensitive — two challenge texts
/// that are equal up to ASCII case name the same known scheme, so `basic`,
/// `Basic` and `BASIC` (and any prefix-matching text such as
/// `digest realm=...`) are recognised alike.
pub proof fn lemma_scheme_case_insensitive(v1: Seq<u8>, v2: Seq<u8>)
    requires
        v1.len() == v2.len(),
        forall|i: int| 0 <= i < v1.len() ==> ascii_lower_byte(v1[i]) == ascii_lower_byte(v2[i]),
    ensures
        names_basic(v1) == names_basic(v2),
        names_digest(v1) == names_digest(v2),
{
}

/// Parses the scheme named at the head of a raw challenge value.
pub fn from_header_value(v: &[u8]) -> (r: AuthType)
    ensures
        is_scheme_of(r, v@),
{
    if starts_ci(v, "basic".as_bytes()) {
        AuthType::Basic
    } else if starts_ci(v, "digest".as_bytes()) {
        AuthType::Digest
    } else {
        AuthType::Unknown(bytes_to_text(v))
    }
}

impl AuthType {
    /// Parses the scheme named by a piece of text; non-matching text is kept
    /// verbatim in `Unknown`.
    pub fn from_text(s: &str) -> (r: AuthType)
        ensures
            names_basic(s.spec_bytes()) ==> r is Basic,
            !names_basic(s.spec_bytes()) && names_digest(s.spec_bytes()) ==> r is Digest,
            !names_basic(s.spec_bytes()) && !names_digest(s.spec_bytes()) ==> (r matches AuthType::Unknown(t)
                && t@ == s@),
    {
        if starts_ci(s.as_bytes(), "basic".as_bytes()) {
            AuthType::Basic
        } else if starts_ci(s.as_bytes(), "digest".as_bytes()) {
            AuthType::Digest
        } else {
            AuthType::Unknown(s.to_owned())
        }
    }

    /// The credential text sent on the wire for this scheme: the base64
    /// encoding of `auth` for Basic, `auth` unchanged otherwise. Digest is
    /// unsupported and excluded up front.
    pub fn get_credential(&self, auth: &str) -> (r: String)
        requires
            !(self is Digest),
        ensures
            self is Basic ==> r@ == chars_of_bytes(base64_of(auth.spec_bytes())),
            !(self is Basic) ==> r@ == auth@,
    {
        match self {
            AuthType::Basic => encode_base64(auth.as_bytes()),
            _ => auth.to_owned(),
        }
    }
}

} // verus!
