//! Process configuration as plain values, with the startup checks that must
//! reject malformed configuration before the first request.

use vstd::prelude::*;
use vstd::string::StrSliceExecFns;
use vstd::string::StringSliceAdditionalSpecFns;
use vstd::utf8::encode_utf8;

use crate::encoding::chars_to_string;
use crate::encoding::dec_str;
use crate::encoding::push_decimal;
use crate::encoding::push_str_chars;
use crate::oidc::OidcController;

verus! {

/// The session cookie: its name, the domain it is scoped to, and the
/// server-side signing key.
pub struct CookieConfig {
    pub name: String,
    pub domain: String,
    pub key: String,
}

impl CookieConfig {
    /// The signing key must be exactly 64 bytes long; a shorter or longer
    /// key is rejected at startup, not at first request.
    pub fn key_length_ok(&self) -> (r: bool)
        ensures
            r == (encode_utf8(self.key@).len() == 64),
    {
        let key_bytes = self.key.as_str().as_bytes_vec();
        proof {
            assert(key_bytes@ == encode_utf8(self.key@));
        }
        key_bytes.len() == 64
    }

    pub fn name(&self) -> (r: &String)
        ensures
            r == self.name,
    {
        &self.name
    }

    pub fn domain(&self) -> (r: &String)
        ensures
            r == self.domain,
    {
        &self.domain
    }

    pub fn key(&self) -> (r: &String)
        ensures
            r == self.key,
    {
        &self.key
    }
}

/// Where the HTTP server binds, and the cookie it issues.
pub struct HttpConfig {
    pub host: String,
    pub port: usize,
    pub cookie: CookieConfig,
}

impl HttpConfig {
    pub fn host(&self) -> (r: String)
        ensures
            r@ == self.host@,
    {
        self.host.clone()
    }

    /// Whether the configured port fits the protocol's range.
    pub fn port_valid(&self) -> (r: bool)
        ensures
            r == (self.port <= 65535),
    {
        self.port <= 65535
    }

    pub fn port(&self) -> (r: u16)
        requires
            self.port <= 65535,
        ensures
            r == self.port,
    {
        self.port as u16
    }

    /// The bind address, `host:port` with the port in decimal.
    pub fn address(&self) -> (r: String)
        ensures
            r@ == self.host@ + seq![':'] + dec_str(self.port as nat),
    {
        let mut buf: Vec<char> = Vec::new();
        push_str_chars(&mut buf, self.host.as_str());
        buf.push(':');
        proof {
            assert(buf@ =~= self.host@ + seq![':']);
        }
        push_decimal(&mut buf, self.port);
        chars_to_string(&buf)
    }

    pub fn cookie(&self) -> (r: &CookieConfig)
        ensures
            r == self.cookie,
    {
        &self.cookie
    }
}

/// Credentials and redirect URI registered with one identity provider.
pub struct OidcProviderConfig {
    pub client_id: String,
    pub client_secret: String,
    pub redirect: String,
}

impl OidcProviderConfig {
    /// The controller for this provider configuration, bound to the Google
    /// issuer.
    pub fn controller(&self) -> (r: OidcController)
        ensures
            r.issuer_url@ == "https://accounts.google.com"@,
            r.client_id@ == self.client_id@,
            r.client_secret@ == self.client_secret@,
            r.redirect@ == self.redirect@,
    {
        OidcController::new(
            String::from_str("https://accounts.google.com"),
            self.client_id.clone(),
            self.client_secret.clone(),
            self.redirect.clone(),
        )
    }
}

/// The providers the process authenticates against.
pub struct OidcConfig {
    pub google: OidcProviderConfig,
}

/// Everything the process is configured with.
pub struct ServiceConfig {
    pub http: HttpConfig,
    pub oidc: OidcConfig,
}

} // verus!
