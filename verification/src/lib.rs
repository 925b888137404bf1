//! Client-side HTTP CONNECT tunnel negotiation: building the CONNECT request
//! for a configured proxy and authentication scheme, and interpreting the
//! proxy's response, with every failure mode distinguished precisely.

pub mod auth;
pub mod base64;
pub mod errors;
pub mod proxy;
pub mod response;
pub mod text;

pub use auth::AuthType;
pub use errors::TunnelError;
pub use proxy::Proxy;
