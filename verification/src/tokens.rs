//! The random secret material of a flow and the access-token hash, obtained
//! from the `openidconnect` crate through trusted wrappers.

use vstd::prelude::*;
use vstd::utf8::is_ascii_chars;

use crate::encoding::is_unreserved;

verus! {

/// Characters of the URL-safe base64 alphabet without padding.
pub open spec fn is_base64url_char(c: char) -> bool {
    ('A' <= c && c <= 'Z') || ('a' <= c && c <= 'z') || ('0' <= c && c <= '9') || c == '-'
        || c == '_'
}

/// A string made only of URL-safe base64 characters.
pub open spec fn is_base64url_seq(s: Seq<char>) -> bool {
    forall|i: int| 0 <= i < s.len() ==> is_base64url_char(#[trigger] s[i])
}

/// A base64url string is ASCII.
pub proof fn lemma_base64url_is_ascii(s: Seq<char>)
    requires
        is_base64url_seq(s),
    ensures
        is_ascii_chars(s),
{
}

/// Base64url characters are unreserved in a URL query component.
pub proof fn lemma_base64url_unreserved(s: Seq<char>)
    requires
        is_base64url_seq(s),
    ensures
        forall|i: int| 0 <= i < s.len() ==> is_unreserved(#[trigger] s[i]),
{
}

/// The PKCE code challenge derived from a code verifier: the URL-safe
/// base64 encoding, without padding, of the verifier's SHA-256 digest.
/// The digest itself is outside code; only this name ties the two strings
/// the wrapper below returns together.
pub uninterp spec fn pkce_challenge_of(verifier: Seq<char>) -> Seq<char>;

/// Generates a fresh PKCE pair and returns `(challenge, verifier)`.
///
/// Relies on `oauth2::PkceCodeChallenge::new_random_sha256`: the verifier is
/// the base64url encoding of 32 random bytes (43 characters), and the
/// challenge is the base64url encoding of the verifier's SHA-256 digest
/// (43 characters) — a function of the verifier alone.
#[verifier::external_body]
pub fn generate_pkce_pair() -> (r: (String, String))
    ensures
        r.0@ == pkce_challenge_of(r.1@),
        is_base64url_seq(r.0@),
        is_base64url_seq(r.1@),
        r.0@.len() == 43,
        r.1@.len() == 43,
{
    let (challenge, verifier) = openidconnect::PkceCodeChallenge::new_random_sha256();
    (challenge.as_str().to_string(), verifier.secret().clone())
}

/// Generates a fresh CSRF token for the `state` parameter.
///
/// Relies on `oauth2::CsrfToken::new_random`: the base64url encoding of
/// 16 fresh random bytes (22 characters); nothing holds of its value.
#[verifier::external_body]
pub fn generate_csrf_token() -> (r: String)
    ensures
        is_base64url_seq(r@),
        r@.len() == 22,
{
    openidconnect::CsrfToken::new_random().secret().clone()
}

/// Generates a fresh nonce for the identity token.
///
/// Relies on `openidconnect::Nonce::new_random`: the base64url encoding of
/// 16 fresh random bytes (22 characters); nothing holds of its value.
#[verifier::external_body]
pub fn generate_nonce() -> (r: String)
    ensures
        is_base64url_seq(r@),
        r@.len() == 22,
{
    openidconnect::Nonce::new_random().secret().clone()
}

/// The digest family of an identity token's signing algorithm — everything
/// the access-token-hash computation depends on. `openidconnect` chooses
/// the digest by this family alone (its `hash_bytes`): SHA-256 for the
/// HS256/RS256/PS256/ES256 group, SHA-384 for the 384 group, SHA-512 for
/// the 512 group and EdDSA. The one algorithm with no digest (`none`) has
/// no representation here; a token signed with it carries no usable family.
#[derive(Clone, Copy, Debug, PartialEq, Eq, Structural)]
pub enum SigningAlg {
    Sha256,
    Sha384,
    Sha512,
}

/// The access-token hash (`at_hash`) that an identity token signed under
/// the given digest family must claim for the given access token: the
/// URL-safe base64 encoding, without padding, of the left half of the
/// family's digest of the token. The digest itself is outside code; this
/// name stands for its result.
pub uninterp spec fn at_hash_of(token: Seq<char>, alg: SigningAlg) -> Seq<char>;

/// Computes the `at_hash` value for the given access token under the given
/// digest family.
///
/// Relies on `openidconnect::AccessTokenHash::from_token`: the base64url
/// encoding of the left half of the algorithm's digest of the token, where
/// the digest depends only on the algorithm's SHA family (its `hash_bytes`
/// chooses SHA-256, SHA-384 or SHA-512 by family) — so the result is a
/// function of the token and the family alone, and the computation
/// succeeds for every family this type can hold.
#[verifier::external_body]
pub fn compute_access_token_hash(access_token: &str, alg: &SigningAlg) -> (r: Option<String>)
    ensures
        r is Some,
        r.unwrap()@ == at_hash_of(access_token@, *alg),
{
    let family = match alg {
        SigningAlg::Sha256 => openidconnect::core::CoreJwsSigningAlgorithm::HmacSha256,
        SigningAlg::Sha384 => openidconnect::core::CoreJwsSigningAlgorithm::HmacSha384,
        SigningAlg::Sha512 => openidconnect::core::CoreJwsSigningAlgorithm::HmacSha512,
    };
    let token = openidconnect::AccessToken::new(access_token.to_string());
    match openidconnect::AccessTokenHash::from_token(&token, &family) {
        Ok(h) => Some((*h).clone()),
        Err(_) => None,
    }
}

} // verus!
