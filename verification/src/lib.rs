//! Relying-party core for the OpenID Connect authorization-code flow with PKCE.
//!
//! The library covers the protocol decisions of the flow: creating a new
//! authentication attempt (PKCE pair, CSRF token, nonce, authorization URL),
//! holding the in-flight secret material in a single-slot store, and the
//! strict validation sequence run on the provider's callback. Network calls
//! (provider discovery, the code exchange) are performed by the embedding
//! program, which feeds their outcomes to the verified decision functions.

pub mod config;
pub mod encoding;
pub mod errors;
pub mod flow;
pub mod oidc;
pub mod profile;
pub mod tokens;
