//! The failure taxonomy of tunnel negotiation: every way an `establish`
//! attempt can fail, distinguished precisely.

use vstd::prelude::*;
use crate::auth::AuthType;

verus! {

/// Why a tunnel could not be established.
#[derive(Debug, Clone, PartialEq, Eq)]
pub enum TunnelError {
    /// The selected scheme needs credentials that are absent, or is one the
    /// component does not speak; detected before any network I/O.
    ConfigurationError,
    /// Transport-level failure opening the connection or during read/write,
    /// including timeouts and cancellation propagated from the transport.
    ConnectionError,
    /// The proxy's response did not parse as a valid HTTP head within the
    /// bounded read window and header count.
    ProtocolParseError,
    /// The proxy answered 401: credentials rejected or missing.
    ProxyUnauthorized,
    /// The proxy answered 407; `offered` lists every scheme advertised in a
    /// `Proxy-Authenticate` header, in header order, duplicates preserved.
    /// It may be empty if the proxy sent no challenge header.
    ProxyAuthRequired { offered: Vec<AuthType> },
    /// Any other non-2xx status, carrying the raw code.
    UnexpectedStatus { code: u16 },
}

} // verus!
