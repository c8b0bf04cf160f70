use oidc_rp::config::CookieConfig;
use oidc_rp::config::HttpConfig;
use oidc_rp::config::OidcProviderConfig;
use oidc_rp::profile::Profile;

fn cookie(key: &str) -> CookieConfig {
    CookieConfig {
        name: "session".to_string(),
        domain: "app.test".to_string(),
        key: key.to_string(),
    }
}

#[test]
fn signing_key_must_be_64_bytes() {
    let good = cookie(&"k".repeat(64));
    assert!(good.key_length_ok());
    let short = cookie(&"k".repeat(63));
    assert!(!short.key_length_ok());
    let long = cookie(&"k".repeat(65));
    assert!(!long.key_length_ok());
}

#[test]
fn cookie_getters_return_fields() {
    let c = cookie(&"k".repeat(64));
    assert_eq!(c.name().as_str(), "session");
    assert_eq!(c.domain().as_str(), "app.test");
    assert_eq!(c.key().len(), 64);
}

fn http(host: &str, port: usize) -> HttpConfig {
    HttpConfig {
        host: host.to_string(),
        port,
        cookie: cookie(&"k".repeat(64)),
    }
}

#[test]
fn address_joins_host_and_decimal_port() {
    let h = http("127.0.0.1", 8080);
    assert_eq!(h.address(), "127.0.0.1:8080");
    assert_eq!(h.host(), "127.0.0.1");
    let zero = http("localhost", 0);
    assert_eq!(zero.address(), "localhost:0");
}

#[test]
fn port_range_is_checked() {
    let h = http("127.0.0.1", 8080);
    assert!(h.port_valid());
    assert_eq!(h.port(), 8080u16);
    let out_of_range = http("127.0.0.1", 70000);
    assert!(!out_of_range.port_valid());
    let largest = http("127.0.0.1", 65535);
    assert!(largest.port_valid());
    assert_eq!(largest.port(), 65535u16);
    assert_eq!(largest.address(), "127.0.0.1:65535");
}

#[test]
fn provider_config_builds_google_controller() {
    let provider = OidcProviderConfig {
        client_id: "abc".to_string(),
        client_secret: "s3cret".to_string(),
        redirect: "https://app.test/auth/oidc/redirect".to_string(),
    };
    let controller = provider.controller();
    assert_eq!(controller.issuer_url, "https://accounts.google.com");
    assert_eq!(controller.client_id, "abc");
    assert_eq!(controller.client_secret, "s3cret");
    assert_eq!(controller.redirect, "https://app.test/auth/oidc/redirect");
    assert!(controller.validate());
}

#[test]
fn non_ascii_configuration_fails_validation() {
    let provider = OidcProviderConfig {
        client_id: "abcé".to_string(),
        client_secret: "s".to_string(),
        redirect: "https://app.test/r".to_string(),
    };
    assert!(!provider.controller().validate());
}

#[test]
fn profile_construction_keeps_fields() {
    let p = Profile::new("pic".to_string(), "name".to_string(), "mail".to_string());
    assert_eq!(p.picture_url, "pic");
    assert_eq!(p.name, "name");
    assert_eq!(p.email, "mail");
    let built = Profile::from_claims(
        Some("pic".to_string()),
        Some("name".to_string()),
        Some("mail".to_string()),
    )
    .unwrap();
    assert_eq!(built.email, "mail");
    let missing = Profile::from_claims(None, Some("name".to_string()), Some("mail".to_string()));
    assert!(missing.is_err());
}
