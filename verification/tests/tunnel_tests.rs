use proxy_tunnel::auth::AuthType;
use proxy_tunnel::base64::encode_base64;
use proxy_tunnel::errors::TunnelError;
use proxy_tunnel::proxy::Proxy;
use proxy_tunnel::response::{classify_response, interpret_response};

#[test]
fn base64_empty() {
    assert_eq!(encode_base64(b""), "");
}

#[test]
fn base64_rfc_vectors() {
    assert_eq!(encode_base64(b"f"), "Zg==");
    assert_eq!(encode_base64(b"fo"), "Zm8=");
    assert_eq!(encode_base64(b"foo"), "Zm9v");
    assert_eq!(encode_base64(b"foob"), "Zm9vYg==");
    assert_eq!(encode_base64(b"fooba"), "Zm9vYmE=");
    assert_eq!(encode_base64(b"foobar"), "Zm9vYmFy");
}

#[test]
fn base64_credential_pair() {
    assert_eq!(encode_base64(b"user:pass"), "dXNlcjpwYXNz");
    assert_eq!(encode_base64(b"Aladdin:open sesame"), "QWxhZGRpbjpvcGVuIHNlc2FtZQ==");
}

#[test]
fn scheme_parse_case_insensitive() {
    assert_eq!(AuthType::from_text("basic"), AuthType::Basic);
    assert_eq!(AuthType::from_text("Basic"), AuthType::Basic);
    assert_eq!(AuthType::from_text("BASIC"), AuthType::Basic);
}

#[test]
fn scheme_parse_digest_prefix() {
    assert_eq!(AuthType::from_text("digest realm=\"proxy\""), AuthType::Digest);
    assert_eq!(AuthType::from_text("Digest"), AuthType::Digest);
}

#[test]
fn scheme_parse_unknown_preserved() {
    assert_eq!(
        AuthType::from_text("Negotiate"),
        AuthType::Unknown(String::from("Negotiate"))
    );
    assert_eq!(AuthType::from_text(""), AuthType::Unknown(String::new()));
}

#[test]
fn credential_basic_is_base64() {
    assert_eq!(AuthType::Basic.get_credential("user:pass"), "dXNlcjpwYXNz");
}

#[test]
fn credential_no_auth_passes_through() {
    assert_eq!(AuthType::NoAuth.get_credential("user:pass"), "user:pass");
    assert_eq!(
        AuthType::Unknown(String::from("NTLM")).get_credential("abc"),
        "abc"
    );
}

#[test]
fn request_plain_exact() {
    let p = Proxy::new(String::from("proxy.example"), 8080);
    let req = p.build_connect_request("example.com", 80).unwrap();
    assert_eq!(
        req,
        "CONNECT example.com:80 HTTP/1.1\r\nHost: example.com:80\r\nConnection: keep-alive\r\n\r\n"
    );
    assert!(!req.contains("Proxy-Authorization"));
}

#[test]
fn request_basic_exact() {
    let mut p = Proxy::new_with_auth(String::from("proxy.example"), 3128, AuthType::Basic);
    p.set_username("user");
    p.set_password("pass");
    let req = p.build_connect_request("example.com", 443).unwrap();
    assert_eq!(
        req,
        "CONNECT example.com:443 HTTP/1.1\r\nHost: example.com:443\r\nProxy-Authorization: Basic dXNlcjpwYXNz\r\nConnection: keep-alive\r\n\r\n"
    );
}

#[test]
fn request_basic_without_credentials_is_config_error() {
    let p = Proxy::new_with_auth(String::from("proxy.example"), 3128, AuthType::Basic);
    assert_eq!(
        p.build_connect_request("example.com", 443),
        Err(TunnelError::ConfigurationError)
    );
}

#[test]
fn request_digest_is_config_error() {
    let p = Proxy::new_with_auth(String::from("proxy.example"), 3128, AuthType::Digest);
    assert_eq!(
        p.build_connect_request("example.com", 443),
        Err(TunnelError::ConfigurationError)
    );
}

#[test]
fn request_unknown_scheme_is_config_error() {
    let p = Proxy::new_with_auth(
        String::from("proxy.example"),
        3128,
        AuthType::Unknown(String::from("NTLM")),
    );
    assert_eq!(
        p.build_connect_request("example.com", 443),
        Err(TunnelError::ConfigurationError)
    );
}

#[test]
fn setters_and_credentials() {
    let mut p = Proxy::new(String::from("proxy.example"), 8080);
    assert!(!p.has_auth());
    p.set_username("u");
    assert!(!p.has_auth());
    p.set_password("p");
    assert!(p.has_auth());
    assert_eq!(p.get_auth(), "u:p");
    p.set_auth_type(AuthType::Basic);
    let req = p.build_connect_request("t", 1).unwrap();
    assert!(req.contains("Proxy-Authorization: Basic dTpw\r\n"));
}

#[test]
fn response_2xx_is_success() {
    assert_eq!(
        interpret_response(b"HTTP/1.1 200 Connection established\r\n\r\n"),
        Ok(())
    );
    assert_eq!(interpret_response(b"HTTP/1.1 204 No Content\r\n\r\n"), Ok(()));
    assert_eq!(interpret_response(b"HTTP/1.1 299 Fine\r\n\r\n"), Ok(()));
}

#[test]
fn response_300_is_unexpected() {
    assert_eq!(
        interpret_response(b"HTTP/1.1 300 Multiple Choices\r\n\r\n"),
        Err(TunnelError::UnexpectedStatus { code: 300 })
    );
}

#[test]
fn response_in_padded_read_buffer() {
    let reply = b"HTTP/1.1 200 Connection established\r\n\r\n";
    let mut buf = [0u8; 1024];
    buf[..reply.len()].copy_from_slice(reply);
    assert_eq!(interpret_response(&buf), Ok(()));
}

#[test]
fn response_401_is_unauthorized() {
    assert_eq!(
        interpret_response(b"HTTP/1.1 401 Unauthorized\r\n\r\n"),
        Err(TunnelError::ProxyUnauthorized)
    );
}

#[test]
fn response_407_offered_schemes_in_order() {
    let buf = b"HTTP/1.1 407 Proxy Authentication Required\r\nProxy-Authenticate: Basic\r\nProxy-Authenticate: NTLM\r\n\r\n";
    match interpret_response(buf) {
        Err(TunnelError::ProxyAuthRequired { offered }) => {
            assert_eq!(
                offered,
                vec![AuthType::Basic, AuthType::Unknown(String::from("NTLM"))]
            );
        }
        other => panic!("expected ProxyAuthRequired, got {:?}", other),
    }
}

#[test]
fn response_407_without_challenge_has_empty_offer() {
    let buf = b"HTTP/1.1 407 Proxy Authentication Required\r\nContent-Length: 0\r\n\r\n";
    assert_eq!(
        interpret_response(buf),
        Err(TunnelError::ProxyAuthRequired { offered: vec![] })
    );
}

#[test]
fn response_407_digest_challenge() {
    let buf = b"HTTP/1.1 407 Proxy Authentication Required\r\nProxy-Authenticate: Digest realm=\"proxy\"\r\n\r\n";
    assert_eq!(
        interpret_response(buf),
        Err(TunnelError::ProxyAuthRequired {
            offered: vec![AuthType::Digest]
        })
    );
}

#[test]
fn response_407_empty_challenge_value() {
    let buf = b"HTTP/1.1 407 Proxy Authentication Required\r\nProxy-Authenticate:\r\n\r\n";
    assert_eq!(
        interpret_response(buf),
        Err(TunnelError::ProxyAuthRequired {
            offered: vec![AuthType::Unknown(String::new())]
        })
    );
}

#[test]
fn response_garbage_is_parse_error() {
    assert_eq!(
        interpret_response(b"this is not http\r\n\r\n"),
        Err(TunnelError::ProtocolParseError)
    );
}

#[test]
fn response_truncated_is_parse_error() {
    assert_eq!(
        interpret_response(b"HTTP/1.1 20"),
        Err(TunnelError::ProtocolParseError)
    );
    assert_eq!(
        interpret_response(b"HTTP/1.1 407 Need Auth\r\nProxy-Authenticate: Basic"),
        Err(TunnelError::ProtocolParseError)
    );
}

#[test]
fn response_unexpected_status_carries_code() {
    assert_eq!(
        interpret_response(b"HTTP/1.1 503 Service Unavailable\r\n\r\n"),
        Err(TunnelError::UnexpectedStatus { code: 503 })
    );
}

#[test]
fn classify_direct_with_parsed_headers() {
    let headers: Vec<(Vec<u8>, Vec<u8>)> = vec![
        (b"Proxy-Authenticate".to_vec(), b"Basic realm=\"x\"".to_vec()),
        (b"Server".to_vec(), b"p".to_vec()),
        (b"Proxy-Authenticate".to_vec(), b"Negotiate".to_vec()),
    ];
    match classify_response(407, &headers) {
        Err(TunnelError::ProxyAuthRequired { offered }) => {
            assert_eq!(
                offered,
                vec![AuthType::Basic, AuthType::Unknown(String::from("Negotiate"))]
            );
        }
        other => panic!("expected ProxyAuthRequired, got {:?}", other),
    }
    assert_eq!(classify_response(250, &headers), Ok(()));
}
