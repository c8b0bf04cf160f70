//! The protocol engine: building the authorization URL for a new flow and
//! running the strict validation sequence on the provider's callback.
//!
//! The network calls of the protocol (provider discovery, the
//! authorization-code exchange, signature verification against the
//! provider's published keys) are performed by the embedding program; their
//! outcomes enter here as plain values, and every decision taken on them is
//! verified. The split keeps the protocol's order intact: the CSRF gate
//! (`begin_callback`) must hand out an exchange request before any exchange
//! can happen, so no token exchange is possible for a mismatched `state`.

use vstd::prelude::*;
use vstd::utf8::is_ascii_chars;

use crate::encoding::chars_to_string;
use crate::encoding::push_str_chars;
use crate::encoding::push_url_encoded;
use crate::encoding::url_encode;
use crate::errors::AuthError;
use crate::flow::FlowState;
use crate::profile::Profile;
use crate::tokens::SigningAlg;
use crate::tokens::at_hash_of;
use crate::tokens::compute_access_token_hash;
use crate::tokens::generate_csrf_token;
use crate::tokens::generate_nonce;
use crate::tokens::generate_pkce_pair;
use crate::encoding::lemma_url_encode_unreserved;
use crate::tokens::is_base64url_seq;
use crate::tokens::lemma_base64url_is_ascii;
use crate::tokens::lemma_base64url_unreserved;
use crate::tokens::pkce_challenge_of;

verus! {

/// The provider-specific configuration a controller is built from:
/// issuer, client credentials and the redirect URI registered for them.
pub struct OidcController {
    pub issuer_url: String,
    pub client_id: String,
    pub client_secret: String,
    pub redirect: String,
}

/// What provider discovery yields, reduced to the value this flow reads:
/// the authorization endpoint the browser is sent to. The embedding program
/// keeps its own full provider client for the network calls.
pub struct DiscoveredMetadata {
    pub authorization_endpoint: String,
}

/// What the CSRF gate hands out for the code exchange: the authorization
/// code and the PKCE verifier of the very flow the browser was sent on.
/// Only `begin_callback` creates one, so no exchange request exists for a
/// callback whose `state` failed the CSRF gate.
pub struct ExchangeRequest {
    code: String,
    pkce_verifier: String,
}

impl ExchangeRequest {
    pub closed spec fn spec_code(&self) -> Seq<char> {
        self.code@
    }

    pub closed spec fn spec_pkce_verifier(&self) -> Seq<char> {
        self.pkce_verifier@
    }

    /// Hands out the code and the verifier for the POST to the token
    /// endpoint.
    pub fn into_parts(self) -> (r: (String, String))
        ensures
            r.0@ == self.spec_code(),
            r.1@ == self.spec_pkce_verifier(),
    {
        (self.code, self.pkce_verifier)
    }
}

/// The claims read from an identity token whose signature verified against
/// the provider's published keys. Everything here is still untrusted data
/// until the checks of `finish_callback` have passed.
pub struct VerifiedToken {
    /// The token's `nonce` claim, if any.
    pub nonce: Option<String>,
    /// The token's access-token-hash (`at_hash`) claim, if any.
    pub access_token_hash: Option<String>,
    /// The digest family of the algorithm the token was signed with;
    /// needed to recompute the access-token hash. `None` when the header
    /// named no algorithm with a digest.
    pub signing_alg: Option<SigningAlg>,
    pub picture: Option<String>,
    pub name: Option<String>,
    pub email: Option<String>,
}

/// The identity-token part of a token response.
pub enum IdTokenOutcome {
    /// The response carried no identity token.
    Missing,
    /// The response carried one, but its signature failed to verify.
    SignatureInvalid,
    /// The signature verified; the claims follow.
    Verified(VerifiedToken),
}

/// A successful answer of the token endpoint, as plain values.
pub struct ExchangeOutcome {
    pub access_token: String,
    pub id_token: IdTokenOutcome,
}

/// The authorization URL for an endpoint, a client and the secret material
/// of one flow, with every query component percent-encoded.
pub open spec fn auth_url_of(
    endpoint: Seq<char>,
    client_id: Seq<char>,
    redirect: Seq<char>,
    state: Seq<char>,
    nonce: Seq<char>,
    challenge: Seq<char>,
) -> Seq<char> {
    endpoint + "?response_type=code&client_id="@ + url_encode(client_id) + "&redirect_uri="@
        + url_encode(redirect) + "&scope=openid%20email%20profile&state="@ + url_encode(state)
        + "&nonce="@ + url_encode(nonce) + "&code_challenge="@ + url_encode(challenge)
        + "&code_challenge_method=S256"@
}

/// All three required claims are present.
pub open spec fn claims_complete(t: VerifiedToken) -> bool {
    t.picture is Some && t.name is Some && t.email is Some
}

/// The token's `nonce` claim is present and equals the flow's nonce.
pub open spec fn nonce_matches(t: VerifiedToken, flow: FlowState) -> bool {
    t.nonce is Some && t.nonce.unwrap()@ == flow.nonce@
}

/// What claims extraction yields for a verified token: the profile built
/// from exactly its claims, or `IncompleteClaims` when one is absent.
pub open spec fn profile_of(t: VerifiedToken) -> Result<Profile, AuthError> {
    if claims_complete(t) {
        Ok(
            Profile {
                picture_url: t.picture.unwrap(),
                name: t.name.unwrap(),
                email: t.email.unwrap(),
            },
        )
    } else {
        Err(AuthError::IncompleteClaims)
    }
}

/// What the callback yields for a token whose signature verified, given
/// the access token it arrived with: the strict gate order of nonce,
/// access-token binding, claims. The binding gate accepts exactly when the
/// token either claims no `at_hash`, or claims the very hash that its
/// digest family recomputes for the access token; a claim without a usable
/// family can never match.
pub open spec fn verified_token_outcome(
    token: VerifiedToken,
    access_token: Seq<char>,
    flow: FlowState,
) -> Result<Profile, AuthError> {
    if !nonce_matches(token, flow) {
        Err(AuthError::IdTokenInvalid)
    } else if token.access_token_hash is Some {
        if token.signing_alg is Some && at_hash_of(access_token, token.signing_alg.unwrap())
            == token.access_token_hash.unwrap()@ {
            profile_of(token)
        } else {
            Err(AuthError::AccessTokenSubstitution)
        }
    } else {
        profile_of(token)
    }
}

/// What the CSRF gate yields: an exchange request carrying the code and
/// the flow's verifier exactly when the supplied `state` equals the flow's
/// CSRF token, and `AuthStateMismatch` exactly otherwise.
pub open spec fn begin_post(
    r: Result<ExchangeRequest, AuthError>,
    auth_code: Seq<char>,
    auth_state: Seq<char>,
    flow: FlowState,
) -> bool {
    match r {
        Ok(req) => {
            &&& auth_state == flow.csrf_token@
            &&& req.spec_code() == auth_code
            &&& req.spec_pkce_verifier() == flow.pkce_verifier@
        },
        Err(e) => {
            &&& e == AuthError::AuthStateMismatch
            &&& auth_state != flow.csrf_token@
        },
    }
}

/// Law: a callback whose `state` differs from the flow's CSRF token yields
/// no exchange request. The result is `AuthStateMismatch`, and exchange
/// requests exist only behind this gate, so no token exchange can follow.
pub proof fn lemma_no_exchange_request_on_mismatch(
    r: Result<ExchangeRequest, AuthError>,
    auth_code: Seq<char>,
    auth_state: Seq<char>,
    flow: FlowState,
)
    requires
        begin_post(r, auth_code, auth_state, flow),
        auth_state != flow.csrf_token@,
    ensures
        r == Err::<ExchangeRequest, AuthError>(AuthError::AuthStateMismatch),
{
}

/// Law: the authorization URL carries the flow's secret material verbatim.
/// `state`, `nonce` and `code_challenge` values are base64url strings, which
/// percent-encoding leaves unchanged, so the URL's `code_challenge`
/// parameter is exactly the challenge derived from the flow's PKCE
/// verifier, and its `state` and `nonce` parameters are exactly the flow's
/// CSRF token and nonce.
pub proof fn lemma_auth_url_carries_tokens(
    endpoint: Seq<char>,
    client_id: Seq<char>,
    redirect: Seq<char>,
    state: Seq<char>,
    nonce: Seq<char>,
    challenge: Seq<char>,
)
    requires
        is_base64url_seq(state),
        is_base64url_seq(nonce),
        is_base64url_seq(challenge),
    ensures
        auth_url_of(endpoint, client_id, redirect, state, nonce, challenge) == endpoint
            + "?response_type=code&client_id="@ + url_encode(client_id) + "&redirect_uri="@
            + url_encode(redirect) + "&scope=openid%20email%20profile&state="@ + state + "&nonce="@
            + nonce + "&code_challenge="@ + challenge + "&code_challenge_method=S256"@,
{
    lemma_base64url_unreserved(state);
    lemma_url_encode_unreserved(state);
    lemma_base64url_unreserved(nonce);
    lemma_url_encode_unreserved(nonce);
    lemma_base64url_unreserved(challenge);
    lemma_url_encode_unreserved(challenge);
}

impl OidcController {
    pub fn new(
        issuer_url: String,
        client_id: String,
        client_secret: String,
        redirect: String,
    ) -> (r: OidcController)
        ensures
            r.issuer_url == issuer_url,
            r.client_id == client_id,
            r.client_secret == client_secret,
            r.redirect == redirect,
    {
        OidcController { issuer_url, client_id, client_secret, redirect }
    }

    /// The configured values that stand in the authorization URL must be
    /// plain ASCII, as URLs are.
    pub open spec fn wf(&self) -> bool {
        is_ascii_chars(self.client_id@) && is_ascii_chars(self.redirect@)
    }

    /// Startup validation: configuration this controller cannot serve must
    /// be rejected before the process takes requests.
    pub fn validate(&self) -> (r: bool)
        ensures
            r == self.wf(),
    {
        self.client_id.as_str().is_ascii() && self.redirect.as_str().is_ascii()
    }

    /// Starts a flow from the outcome of provider discovery: generates the
    /// PKCE pair, the CSRF token and the nonce, and builds the
    /// authorization URL around them. The URL's `code_challenge` is the
    /// challenge derived from the returned flow's verifier, and its `state`
    /// and `nonce` are the returned flow's very tokens. A failed discovery,
    /// or metadata whose endpoint is not a plain-ASCII URL, is rejected as
    /// `DiscoveryError`.
    pub fn new_flow(&self, discovery: Option<&DiscoveredMetadata>) -> (r: Result<
        (String, FlowState),
        AuthError,
    >)
        requires
            self.wf(),
        ensures
            match r {
                Ok(pair) => {
                    &&& discovery is Some
                    &&& is_ascii_chars(discovery.unwrap().authorization_endpoint@)
                    &&& is_base64url_seq(pair.1.pkce_verifier@)
                    &&& pair.1.pkce_verifier@.len() == 43
                    &&& is_base64url_seq(pkce_challenge_of(pair.1.pkce_verifier@))
                    &&& pkce_challenge_of(pair.1.pkce_verifier@).len() == 43
                    &&& is_base64url_seq(pair.1.csrf_token@)
                    &&& pair.1.csrf_token@.len() == 22
                    &&& is_base64url_seq(pair.1.nonce@)
                    &&& pair.1.nonce@.len() == 22
                    &&& pair.0@ == auth_url_of(
                        discovery.unwrap().authorization_endpoint@,
                        self.client_id@,
                        self.redirect@,
                        pair.1.csrf_token@,
                        pair.1.nonce@,
                        pkce_challenge_of(pair.1.pkce_verifier@),
                    )
                },
                Err(e) => {
                    &&& e == AuthError::DiscoveryError
                    &&& (discovery is None || !is_ascii_chars(
                        discovery.unwrap().authorization_endpoint@,
                    ))
                },
            },
    {
        let metadata = match discovery {
            Some(m) => m,
            None => { return Err(AuthError::DiscoveryError) },
        };
        if !metadata.authorization_endpoint.as_str().is_ascii() {
            return Err(AuthError::DiscoveryError);
        }
        let (challenge, verifier) = generate_pkce_pair();
        let csrf_token = generate_csrf_token();
        let nonce = generate_nonce();
        proof {
            lemma_base64url_is_ascii(challenge@);
            lemma_base64url_is_ascii(csrf_token@);
            lemma_base64url_is_ascii(nonce@);
        }
        let mut url: Vec<char> = Vec::new();
        push_str_chars(&mut url, metadata.authorization_endpoint.as_str());
        push_str_chars(&mut url, "?response_type=code&client_id=");
        push_url_encoded(&mut url, self.client_id.as_str());
        push_str_chars(&mut url, "&redirect_uri=");
        push_url_encoded(&mut url, self.redirect.as_str());
        push_str_chars(&mut url, "&scope=openid%20email%20profile&state=");
        push_url_encoded(&mut url, csrf_token.as_str());
        push_str_chars(&mut url, "&nonce=");
        push_url_encoded(&mut url, nonce.as_str());
        push_str_chars(&mut url, "&code_challenge=");
        push_url_encoded(&mut url, challenge.as_str());
        push_str_chars(&mut url, "&code_challenge_method=S256");
        let url_string = chars_to_string(&url);
        let flow = FlowState { pkce_verifier: verifier, csrf_token, nonce };
        Ok((url_string, flow))
    }

    /// The CSRF gate of the callback, and the only source of exchange
    /// requests: the supplied `state` must equal the flow's CSRF token, or
    /// the attempt ends as `AuthStateMismatch` with nothing to send to the
    /// token endpoint. On success the exchange request carries the
    /// authorization code together with the flow's own PKCE verifier.
    pub fn begin_callback(&self, auth_code: &str, auth_state: &str, flow: &FlowState) -> (r: Result<
        ExchangeRequest,
        AuthError,
    >)
        ensures
            begin_post(r, auth_code@, auth_state@, *flow),
    {
        let supplied = auth_state.to_owned();
        if supplied == flow.csrf_token {
            Ok(
                ExchangeRequest {
                    code: auth_code.to_owned(),
                    pkce_verifier: flow.pkce_verifier.clone(),
                },
            )
        } else {
            Err(AuthError::AuthStateMismatch)
        }
    }

    /// The validation sequence on the outcome of the code exchange, in
    /// strict order: exchange failure, missing identity token, signature,
    /// nonce, access-token binding, claims. Any failure yields an error and
    /// no profile; only a token that passes every gate yields one, built
    /// from exactly its claims. The whole result is pinned: on a verified
    /// token it is exactly `verified_token_outcome`, so the binding gate
    /// rejects as `AccessTokenSubstitution` precisely when an `at_hash`
    /// claim differs from the hash its digest family recomputes for the
    /// returned access token.
    pub fn finish_callback(&self, flow: &FlowState, exchange: Option<ExchangeOutcome>) -> (r:
        Result<Profile, AuthError>)
        ensures
            exchange is None ==> r == Err::<Profile, AuthError>(AuthError::TokenExchangeError),
            exchange is Some ==> match exchange.unwrap().id_token {
                IdTokenOutcome::Missing => r == Err::<Profile, AuthError>(
                    AuthError::MissingIdToken,
                ),
                IdTokenOutcome::SignatureInvalid => r == Err::<Profile, AuthError>(
                    AuthError::IdTokenInvalid,
                ),
                IdTokenOutcome::Verified(token) => r == verified_token_outcome(
                    token,
                    exchange.unwrap().access_token@,
                    *flow,
                ),
            },
    {
        let outcome = match exchange {
            Some(o) => o,
            None => { return Err(AuthError::TokenExchangeError) },
        };
        let token = match outcome.id_token {
            IdTokenOutcome::Missing => { return Err(AuthError::MissingIdToken) },
            IdTokenOutcome::SignatureInvalid => { return Err(AuthError::IdTokenInvalid) },
            IdTokenOutcome::Verified(token) => token,
        };
        match &token.nonce {
            Some(n) => {
                if !(*n == flow.nonce) {
                    return Err(AuthError::IdTokenInvalid);
                }
            },
            None => { return Err(AuthError::IdTokenInvalid) },
        }
        if let Some(expected_hash) = &token.access_token_hash {
            let alg = match &token.signing_alg {
                Some(alg) => alg,
                None => { return Err(AuthError::AccessTokenSubstitution) },
            };
            let actual_hash = compute_access_token_hash(outcome.access_token.as_str(), alg);
            match check_access_token_binding(expected_hash, &actual_hash) {
                Ok(()) => {},
                Err(e) => { return Err(e) },
            }
        }
        Profile::from_claims(token.picture, token.name, token.email)
    }
}

/// The access-token binding decision: the hash claimed inside the identity
/// token is accepted exactly when the recomputed hash of the returned
/// access token exists and equals it. A missing or different recomputed
/// hash means the access token is not the one the identity token was issued
/// with: `AccessTokenSubstitution`, rejected unconditionally.
pub fn check_access_token_binding(expected: &String, actual: &Option<String>) -> (r: Result<
    (),
    AuthError,
>)
    ensures
        match r {
            Ok(()) => actual is Some && actual.unwrap()@ == expected@,
            Err(e) => {
                &&& e == AuthError::AccessTokenSubstitution
                &&& !(actual is Some && actual.unwrap()@ == expected@)
            },
        },
{
    match actual {
        Some(h) => {
            if *h == *expected {
                Ok(())
            } else {
                Err(AuthError::AccessTokenSubstitution)
            }
        },
        None => Err(AuthError::AccessTokenSubstitution),
    }
}

/// Guards the callback route: a callback without a stored flow cannot be
/// served and ends as `NoFlowInProgress`.
pub fn require_flow(taken: Option<FlowState>) -> (r: Result<FlowState, AuthError>)
    ensures
        match r {
            Ok(f) => taken == Some(f),
            Err(e) => e == AuthError::NoFlowInProgress && taken is None,
        },
{
    match taken {
        Some(f) => Ok(f),
        None => Err(AuthError::NoFlowInProgress),
    }
}

/// Guards the callback route: a request without the `code` or `state`
/// query parameter is a client error, `MissingQueryParameter`.
pub fn require_param(param: Option<String>) -> (r: Result<String, AuthError>)
    ensures
        match r {
            Ok(v) => param == Some(v),
            Err(e) => e == AuthError::MissingQueryParameter && param is None,
        },
{
    match param {
        Some(v) => Ok(v),
        None => Err(AuthError::MissingQueryParameter),
    }
}

} // verus!
