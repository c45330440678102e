use std::str::FromStr;

use base64::prelude::BASE64_STANDARD;
use base64::Engine;
use miasma::config::{LinkPrefix, MaxDepth, MetricsCredentials, MiasmaConfig};
use url::Url;

fn test_config() -> MiasmaConfig {
    MiasmaConfig {
        port: 0,
        host: String::new(),
        unix_socket: None,
        max_in_flight: 0,
        link_prefix: LinkPrefix::from_str("").unwrap(),
        link_count: 0,
        max_depth: None,
        force_gzip: false,
        unsafe_allow_html: false,
        poison_source: Url::parse("https://example.com").unwrap(),
        metrics: None,
    }
}

#[test]
fn link_prefix_validation() {
    let cases = [
        ("/", "/"),
        ("foo", "/foo/"),
        ("/foo", "/foo/"),
        ("foo/", "/foo/"),
        ("/foo/", "/foo/"),
    ];

    for (input, expected) in cases {
        let prefix = LinkPrefix::from_str(input).unwrap();
        assert_eq!(prefix.to_string(), expected);
    }
}

#[test]
fn link_prefix_empty_becomes_slash() {
    assert_eq!(LinkPrefix::new("").as_str(), "/");
}

#[test]
fn link_prefix_normalizing_twice_changes_nothing() {
    for input in ["", "/", "a", "a/b", "/a/b/", "//", "é"] {
        let once = LinkPrefix::new(input);
        let twice = LinkPrefix::new(once.as_str());
        assert_eq!(once.as_str(), twice.as_str());
        assert!(once.as_str().starts_with('/') && once.as_str().ends_with('/'));
    }
}

#[test]
fn config_address() {
    let config = MiasmaConfig {
        port: 8080,
        host: "127.0.0.1".to_string(),
        ..test_config()
    };

    assert_eq!(config.address(), "127.0.0.1:8080");
}

#[test]
fn config_address_edge_ports() {
    let mut config = test_config();
    config.host = "localhost".to_string();
    config.port = 0;
    assert_eq!(config.address(), "localhost:0");
    config.port = 65535;
    assert_eq!(config.address(), "localhost:65535");
}

#[test]
fn config_metrics_credentials_validation() {
    let cases = [
        ("", false, ("", "")),
        ("usernamepassword", false, ("", "")),
        (":password", false, ("", "")),
        ("username:", false, ("", "")),
        ("username:password", true, ("username", "password")),
    ];

    for (input, valid, (uname, pword)) in cases {
        match MetricsCredentials::from_str(input) {
            Err(_) => assert!(!valid),
            Ok(credentials) => {
                assert_eq!(credentials.username(), uname);
                assert_eq!(credentials.password(), pword);
            }
        }
    }
}

#[test]
fn credentials_errors_name_their_cause() {
    assert_eq!(
        MetricsCredentials::from_str("usernamepassword").unwrap_err(),
        "credentials must match format '<username>:<password>'"
    );
    assert_eq!(
        MetricsCredentials::from_str(":password").unwrap_err(),
        "username must not be empty"
    );
    assert_eq!(
        MetricsCredentials::from_str("username:").unwrap_err(),
        "password must not be empty"
    );
}

#[test]
fn credentials_split_at_first_colon() {
    let c = MetricsCredentials::from_str("user:pa:ss").unwrap();
    assert_eq!(c.username(), "user");
    assert_eq!(c.password(), "pa:ss");
}

#[test]
fn credentials_round_trip() {
    for (u, p) in [("admin", "admin"), ("a", ":"), ("ü", "pässwörd")] {
        let c = MetricsCredentials::from_str(&format!("{u}:{p}")).unwrap();
        assert_eq!((c.username(), c.password()), (u, p));
    }
}

#[test]
fn credentials_display_masks_password() {
    let c = MetricsCredentials::from_str("admin:secret").unwrap();
    assert_eq!(c.to_string(), "admin:******");
}

#[test]
fn credentials_are_base64_encoded() {
    let c = MetricsCredentials::from_str("admin:admin").unwrap();
    assert_eq!(c.encoded_credentials(), BASE64_STANDARD.encode("admin:admin"));
    assert_eq!(c.encoded_credentials(), "YWRtaW46YWRtaW4=");
}

#[test]
fn max_depth_parsing() {
    assert_eq!(MaxDepth::from_str("none").unwrap(), MaxDepth(None));
    assert_eq!(MaxDepth::from_str("NoNe").unwrap(), MaxDepth(None));
    assert_eq!(MaxDepth::from_str("10").unwrap(), MaxDepth(Some(10)));
    assert_eq!(MaxDepth::from_str("+7").unwrap(), MaxDepth(Some(7)));
    assert_eq!(MaxDepth::from_str("4294967295").unwrap(), MaxDepth(Some(u32::MAX)));
    assert!(MaxDepth::from_str("4294967296").is_err());
    assert!(MaxDepth::from_str("").is_err());
    assert!(MaxDepth::from_str("-1").is_err());
    assert!(MaxDepth::from_str("nones").is_err());
    assert!(MaxDepth::from_str(" 1").is_err());
}

#[test]
fn max_depth_display_round_trip() {
    for d in [MaxDepth(None), MaxDepth(Some(0)), MaxDepth(Some(12)), MaxDepth(Some(u32::MAX))] {
        let text = d.to_string();
        assert_eq!(MaxDepth::from_str(&text).unwrap(), d);
    }
    assert_eq!(MaxDepth(None).to_string(), "none");
    assert_eq!(MaxDepth(Some(305)).to_string(), "305");
}
