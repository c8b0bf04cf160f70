//! The error taxonomy of the authentication flow.

use vstd::prelude::*;

verus! {

/// Every way a flow can fail, from initiation through the callback.
///
/// Each variant is terminal for the current request: no session is written
/// and nothing is retried.
#[derive(Clone, Copy, Debug, PartialEq, Eq, Structural)]
pub enum AuthError {
    /// Provider discovery failed: network failure or malformed metadata.
    DiscoveryError,
    /// The authorization-code exchange with the token endpoint failed.
    TokenExchangeError,
    /// The `state` query parameter does not equal the flow's CSRF token.
    AuthStateMismatch,
    /// The token response carried no identity token.
    MissingIdToken,
    /// The identity token's signature or its `nonce` claim failed to verify.
    IdTokenInvalid,
    /// The identity token's access-token-hash claim does not match the
    /// hash of the access token that was actually returned.
    AccessTokenSubstitution,
    /// One of the required claims (picture, name, email) is absent.
    IncompleteClaims,
    /// A callback arrived while no flow was in progress.
    NoFlowInProgress,
    /// The callback request lacked the `code` or `state` query parameter.
    MissingQueryParameter,
}

impl AuthError {
    /// Whether this failure points at a forged or substituted value rather
    /// than an ordinary fault; such failures deserve elevated log severity.
    pub fn is_security_incident(&self) -> (r: bool)
        ensures
            r == (*self == AuthError::AuthStateMismatch
                || *self == AuthError::AccessTokenSubstitution),
    {
        match self {
            AuthError::AuthStateMismatch => true,
            AuthError::AccessTokenSubstitution => true,
            _ => false,
        }
    }

    /// The HTTP status the boundary should answer with: 400 for malformed
    /// client input, 502 for upstream provider failures, 401 or 403 for
    /// validation failures.
    pub fn http_status(&self) -> (r: u16)
        ensures
            r == self.spec_http_status(),
    {
        match self {
            AuthError::DiscoveryError => 502,
            AuthError::TokenExchangeError => 502,
            AuthError::AuthStateMismatch => 403,
            AuthError::MissingIdToken => 502,
            AuthError::IdTokenInvalid => 401,
            AuthError::AccessTokenSubstitution => 403,
            AuthError::IncompleteClaims => 502,
            AuthError::NoFlowInProgress => 400,
            AuthError::MissingQueryParameter => 400,
        }
    }

    /// The status mapping, stated once for contracts to refer to.
    pub open spec fn spec_http_status(&self) -> u16 {
        match self {
            AuthError::DiscoveryError => 502u16,
            AuthError::TokenExchangeError => 502u16,
            AuthError::AuthStateMismatch => 403u16,
            AuthError::MissingIdToken => 502u16,
            AuthError::IdTokenInvalid => 401u16,
            AuthError::AccessTokenSubstitution => 403u16,
            AuthError::IncompleteClaims => 502u16,
            AuthError::NoFlowInProgress => 400u16,
            AuthError::MissingQueryParameter => 400u16,
        }
    }
}

} // verus!
