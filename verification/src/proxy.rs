//! Proxy configuration and the CONNECT request it gives rise to: address,
//! optional credentials, selected scheme, and the exact request text built
//! for a target, or a configuration error before any byte is sent.

use vstd::prelude::*;
use vstd::string::{StringExecFns, StringSliceAdditionalSpecFns};
use vstd::utf8::encode_utf8;
use crate::auth::AuthType;
use crate::base64::base64_of;
use crate::errors::TunnelError;
use crate::text::{chars_of_bytes, dec_bytes, decimal_string};

verus! {

/// A forward proxy to tunnel through: its address, optional credentials,
/// and the authentication scheme selected for the next attempt.
#[derive(Debug, Clone)]
pub struct Proxy {
    pub host: String,
    pub port: u16,
    pub username: String,
    pub password: Option<String>,
    pub auth_type: AuthType,
}

/// The characters of `host:port`.
pub open spec fn host_port_chars(host: Seq<char>, port: u16) -> Seq<char> {
    host + ":"@ + chars_of_bytes(dec_bytes(port as nat))
}

/// The Basic credential text: the base64 of the UTF-8 bytes of `user:pass`.
pub open spec fn basic_credential_chars(user: Seq<char>, pass: Seq<char>) -> Seq<char> {
    chars_of_bytes(base64_of(encode_utf8(user + ":"@ + pass)))
}

/// The CONNECT request sent when no authentication is selected. No
/// authorization header is injected.
pub open spec fn connect_request_plain(host: Seq<char>, port: u16) -> Seq<char> {
    "CONNECT "@ + host_port_chars(host, port) + " HTTP/1.1\r\nHost: "@ + host_port_chars(
        host,
        port,
    ) + "\r\nConnection: keep-alive\r\n\r\n"@
}

/// The CONNECT request sent for Basic authentication, carrying the
/// `Proxy-Authorization` header.
pub open spec fn connect_request_basic(
    host: Seq<char>,
    port: u16,
    user: Seq<char>,
    pass: Seq<char>,
) -> Seq<char> {
    "CONNECT "@ + host_port_chars(host, port) + " HTTP/1.1\r\nHost: "@ + host_port_chars(
        host,
        port,
    ) + "\r\nProxy-Authorization: Basic "@ + basic_credential_chars(user, pass)
        + "\r\nConnection: keep-alive\r\n\r\n"@
}

/// Law: in a Basic-scheme request, the `Proxy-Authorization` header's value
/// is exactly `Basic ` followed by the base64 encoding of
/// `username:password` — no other casing, padding or alphabet.
pub proof fn lemma_basic_request_credential(
    host: Seq<char>,
    port: u16,
    user: Seq<char>,
    pass: Seq<char>,
)
    ensures
        connect_request_basic(host, port, user, pass) =~= "CONNECT "@ + host_port_chars(host, port)
            + " HTTP/1.1\r\nHost: "@ + host_port_chars(host, port) + "\r\n"@
            + "Proxy-Authorization: "@ + ("Basic "@ + basic_credential_chars(user, pass)) + "\r\n"@
            + "Connection: keep-alive\r\n\r\n"@,
{
    reveal_strlit("\r\nProxy-Authorization: Basic ");
    reveal_strlit("\r\nConnection: keep-alive\r\n\r\n");
    reveal_strlit("Proxy-Authorization: ");
    reveal_strlit("Basic ");
    reveal_strlit("Connection: keep-alive\r\n\r\n");
    reveal_strlit("\r\n");
}

/// The exact characters of `host:port`.
fn host_port_string(host: &str, port: u16) -> (r: String)
    ensures
        r@ == host_port_chars(host@, port),
{
    let mut r = String::from_str(host);
    r.append(":");
    let digits = decimal_string(port);
    r.append(digits.as_str());
    r
}

impl Proxy {
    /// A proxy at `host:port`, no credentials, no authentication selected.
    pub fn new(host: String, port: u16) -> (r: Proxy)
        ensures
            r.host@ == host@,
            r.port == port,
            r.auth_type is NoAuth,
            r.username@ == Seq::<char>::empty(),
            r.password is None,
    {
        Proxy {
            host,
            port,
            username: String::new(),
            password: None,
            auth_type: AuthType::NoAuth,
        }
    }

    /// A proxy at `host:port` with the given scheme already selected.
    pub fn new_with_auth(host: String, port: u16, auth_type: AuthType) -> (r: Proxy)
        ensures
            r.host@ == host@,
            r.port == port,
            r.auth_type == auth_type,
            r.username@ == Seq::<char>::empty(),
            r.password is None,
    {
        Proxy { host, port, username: String::new(), password: None, auth_type }
    }

    /// Selects the scheme for the next attempt; nothing else changes.
    pub fn set_auth_type(&mut self, auth_type: AuthType)
        ensures
            final(self).auth_type == auth_type,
            final(self).host@ == old(self).host@,
            final(self).port == old(self).port,
            final(self).username@ == old(self).username@,
            final(self).password == old(self).password,
    {
        self.auth_type = auth_type;
    }

    /// Sets the username; nothing else changes.
    pub fn set_username(&mut self, username: &str)
        ensures
            final(self).username@ == username@,
            final(self).host@ == old(self).host@,
            final(self).port == old(self).port,
            final(self).auth_type == old(self).auth_type,
            final(self).password == old(self).password,
    {
        self.username = username.to_owned();
    }

    /// Sets the password; nothing else changes.
    pub fn set_password(&mut self, password: &str)
        ensures
            final(self).password matches Some(p) && p@ == password@,
            final(self).host@ == old(self).host@,
            final(self).port == old(self).port,
            final(self).auth_type == old(self).auth_type,
            final(self).username@ == old(self).username@,
    {
        self.password = Some(password.to_owned());
    }

    /// The `username:password` pair as submitted to the proxy.
    pub fn get_auth(&self) -> (r: String)
        requires
            self.password is Some,
        ensures
            r@ == self.username@ + ":"@ + self.password->0@,
    {
        let mut r = String::from_str(self.username.as_str());
        r.append(":");
        match &self.password {
            Some(p) => r.append(p.as_str()),
            None => proof {
                assert(false);
            },
        }
        r
    }

    /// Whether a credential pair is present.
    pub fn has_auth(&self) -> (r: bool)
        ensures
            r == (self.password is Some),
    {
        match &self.password {
            Some(_) => true,
            None => false,
        }
    }

    /// Builds the CONNECT request for the selected scheme, or fails with
    /// `ConfigurationError` before any network I/O: Basic without a
    /// credential pair, Digest (unsupported), and unknown schemes never
    /// produce wire bytes.
    pub fn build_connect_request(&self, target_host: &str, target_port: u16) -> (r: Result<
        String,
        TunnelError,
    >)
        ensures
            (r is Ok) <==> (self.auth_type is NoAuth || (self.auth_type is Basic
                && self.password is Some)),
            r matches Err(e) ==> e is ConfigurationError,
            r matches Ok(req) ==> ((self.auth_type is NoAuth ==> req@ == connect_request_plain(
                target_host@,
                target_port,
            )) && (self.auth_type is Basic ==> req@ == connect_request_basic(
                target_host@,
                target_port,
                self.username@,
                self.password->0@,
            ))),
    {
        match &self.auth_type {
            AuthType::NoAuth => {
                let hp = host_port_string(target_host, target_port);
                let mut req = String::from_str("CONNECT ");
                req.append(hp.as_str());
                req.append(" HTTP/1.1\r\nHost: ");
                req.append(hp.as_str());
                req.append("\r\nConnection: keep-alive\r\n\r\n");
                proof {
                    assert(req@ =~= connect_request_plain(target_host@, target_port));
                }
                Ok(req)
            },
            AuthType::Basic => {
                if self.has_auth() {
                    let auth = self.get_auth();
                    let cred = self.auth_type.get_credential(auth.as_str());
                    let hp = host_port_string(target_host, target_port);
                    let mut req = String::from_str("CONNECT ");
                    req.append(hp.as_str());
                    req.append(" HTTP/1.1\r\nHost: ");
                    req.append(hp.as_str());
                    req.append("\r\nProxy-Authorization: Basic ");
                    req.append(cred.as_str());
                    req.append("\r\nConnection: keep-alive\r\n\r\n");
                    proof {
                        assert(req@ =~= connect_request_basic(
                            target_host@,
                            target_port,
                            self.username@,
                            self.password->0@,
                        ));
                    }
                    Ok(req)
                } else {
                    Err(TunnelError::ConfigurationError)
                }
            },
            AuthType::Digest => Err(TunnelError::ConfigurationError),
            AuthType::Unknown(_) => Err(TunnelError::ConfigurationError),
        }
    }
}

} // verus!
