//! Interpreting the proxy's reply to a CONNECT request: parsing the bounded
//! response head and mapping its status to success or a precise failure.

use vstd::prelude::*;
use vstd::utf8::encode_utf8;
use crate::auth::{from_header_value, is_scheme_of, AuthType};
use crate::errors::TunnelError;
use crate::text::bytes_eq;

verus! {

/// The name of the challenge header a 407 reply carries.
pub open spec fn proxy_authenticate_name() -> Seq<u8> {
    encode_utf8("Proxy-Authenticate"@)
}

/// The headers as plain byte sequences: (name, value) pairs in order.
pub open spec fn headers_view(hs: Seq<(Vec<u8>, Vec<u8>)>) -> Seq<(Seq<u8>, Seq<u8>)> {
    hs.map_values(|p: (Vec<u8>, Vec<u8>)| (p.0@, p.1@))
}

/// The values of the `Proxy-Authenticate` headers, in header order,
/// duplicates preserved.
pub open spec fn challenge_values(hs: Seq<(Seq<u8>, Seq<u8>)>) -> Seq<Seq<u8>>
    decreases hs.len(),
{
    if hs.len() == 0 {
        Seq::empty()
    } else {
        let rest = challenge_values(hs.drop_last());
        if hs.last().0 == proxy_authenticate_name() {
            rest.push(hs.last().1)
        } else {
            rest
        }
    }
}

/// Each offered scheme is the parse of the corresponding challenge value.
pub open spec fn schemes_of(offered: Seq<AuthType>, vals: Seq<Seq<u8>>) -> bool {
    offered.len() == vals.len() && forall|i: int|
        0 <= i < vals.len() ==> is_scheme_of(#[trigger] offered[i], vals[i])
}

/// What a reply with status `code` and headers `hs` must come to: 2xx is
/// success; 401 is ProxyUnauthorized; 407 is ProxyAuthRequired carrying
/// every advertised scheme in header order; anything else is
/// UnexpectedStatus with the raw code.
pub open spec fn outcome_ok(code: u16, hs: Seq<(Seq<u8>, Seq<u8>)>, r: Result<
    (),
    TunnelError,
>) -> bool {
    &&& (200 <= code < 300) <==> (r is Ok)
    &&& (code == 401 ==> r matches Err(TunnelError::ProxyUnauthorized))
    &&& (code == 407 ==> (r matches Err(TunnelError::ProxyAuthRequired { offered })
        && schemes_of(offered@, challenge_values(hs))))
    &&& (!(200 <= code < 300) && code != 401 && code != 407 ==> (r matches Err(
        TunnelError::UnexpectedStatus { code: c },
    ) && c == code))
}

/// What the HTTP parser finds at the head of a response buffer: the status
/// code and the headers (name bytes, value bytes) of a complete well-formed
/// head, or nothing for a truncated or malformed one.
pub uninterp spec fn parsed_head(buf: Seq<u8>) -> Option<(u16, Seq<(Seq<u8>, Seq<u8>)>)>;

/// Relies on `httparse::Response::parse` with a 32-entry header table: a
/// complete parse fills in the status code and shrinks the table to the
/// parsed headers in order; a partial or failed parse leaves nothing. The
/// result depends on the buffer alone.
#[verifier::external_body]
fn parse_head(buf: &[u8]) -> (r: Option<(u16, Vec<(Vec<u8>, Vec<u8>)>)>)
    ensures
        match r {
            Some(p) => parsed_head(buf@) matches Some(m) && m.0 == p.0 && m.1 == headers_view(
                p.1@,
            ),
            None => parsed_head(buf@) is None,
        },
{
    let mut headers = [httparse::EMPTY_HEADER; 32];
    let mut res = httparse::Response::new(&mut headers);
    match res.parse(buf) {
        Ok(httparse::Status::Complete(_)) => match res.code {
            Some(code) => Some(
                (
                    code,
                    res.headers.iter().map(|h| (h.name.as_bytes().to_vec(), h.value.to_vec())).collect(),
                ),
            ),
            None => None,
        },
        Ok(httparse::Status::Partial) => None,
        Err(_) => None,
    }
}

/// Maps a parsed status code and header list to the outcome of the
/// handshake.
pub fn classify_response(code: u16, headers: &Vec<(Vec<u8>, Vec<u8>)>) -> (r: Result<
    (),
    TunnelError,
>)
    ensures
        outcome_ok(code, headers_view(headers@), r),
{
    if 200 <= code && code < 300 {
        Ok(())
    } else if code == 401 {
        Err(TunnelError::ProxyUnauthorized)
    } else if code == 407 {
        let mut offered: Vec<AuthType> = Vec::new();
        let mut i: usize = 0;
        while i < headers.len()
            invariant
                i <= headers@.len(),
                schemes_of(offered@, challenge_values(headers_view(headers@).take(i as int))),
            decreases headers@.len() - i,
        {
            let h = &headers[i];
            if bytes_eq(h.0.as_slice(), "Proxy-Authenticate".as_bytes()) {
                offered.push(from_header_value(h.1.as_slice()));
            }
            proof {
                let hv = headers_view(headers@);
                let j = i as int;
                assert(hv.take(j + 1).drop_last() =~= hv.take(j));
                assert(hv.take(j + 1).last() == hv[j]);
                assert(hv[j].0 == headers@[j].0@ && hv[j].1 == headers@[j].1@);
            }
            i += 1;
        }
        proof {
            assert(headers_view(headers@).take(headers@.len() as int) =~= headers_view(
                headers@,
            ));
        }
        Err(TunnelError::ProxyAuthRequired { offered })
    } else {
        Err(TunnelError::UnexpectedStatus { code })
    }
}

/// Interprets the raw bytes read back from the proxy: parses them as an
/// HTTP response head within the bounded window and maps the status to the
/// outcome. Bytes that do not form a complete well-formed head fail with
/// ProtocolParseError — never a panic.
pub fn interpret_response(buf: &[u8]) -> (r: Result<(), TunnelError>)
    ensures
        parsed_head(buf@) is None ==> r matches Err(TunnelError::ProtocolParseError),
        parsed_head(buf@) matches Some(m) ==> outcome_ok(m.0, m.1, r),
{
    match parse_head(buf) {
        Some((code, headers)) => classify_response(code, &headers),
        None => Err(TunnelError::ProtocolParseError),
    }
}

} // verus!
