use std::str::FromStr;

use base64::prelude::BASE64_STANDARD;
use base64::Engine;
use miasma::cli::{AppArgs, MetricsConfig};
use miasma::config::{MaxDepth, MetricsCredentials};
use url::Url;

#[test]
fn to_miasma_config() {
    let poison_source = Url::parse("https://example.com").unwrap();
    let args = AppArgs {
        unix_socket: None,
        port: 0,
        host: String::new(),

        max_in_flight: 8,
        link_prefix: "/bots".to_owned(),
        link_count: 8,
        max_depth: MaxDepth(Some(8)),
        poison_source: poison_source.clone(),
        force_gzip: true,
        unsafe_allow_html: true,

        metrics: Some(MetricsConfig {
            metrics_db_path: Some("miasma.db".to_owned()),
            metrics_credentials: Some(MetricsCredentials::from_str("admin:admin").unwrap()),
            metrics_endpoint: "/serve-metrics".to_owned(),
        }),
    };

    let config = args.to_miasma_config();

    assert_eq!(config.max_in_flight, 8);
    assert_eq!(config.link_prefix.to_string(), "/bots/".to_owned());
    assert_eq!(config.link_count, 8);
    assert_eq!(config.max_depth, Some(8));
    assert_eq!(config.poison_source, poison_source);
    assert!(config.force_gzip);
    assert!(config.unsafe_allow_html);

    let metrics = config.metrics.unwrap();
    assert_eq!(metrics.db_path, "miasma.db".to_owned());
    assert_eq!(metrics.endpoint, "/serve-metrics".to_owned());
    assert_eq!(
        metrics.encoded_credentials(),
        BASE64_STANDARD.encode("admin:admin")
    );
}

#[test]
fn to_miasma_config_without_metrics() {
    let args = AppArgs {
        unix_socket: Some("/tmp/miasma.sock".to_owned()),
        port: 9999,
        host: "localhost".to_owned(),
        max_in_flight: 500,
        link_prefix: "/".to_owned(),
        link_count: 5,
        max_depth: MaxDepth(None),
        poison_source: Url::parse("https://rnsaffn.com/poison2/").unwrap(),
        force_gzip: false,
        unsafe_allow_html: false,
        metrics: None,
    };
    let config = args.to_miasma_config();
    assert!(config.metrics.is_none());
    assert_eq!(config.max_depth, None);
    assert_eq!(config.unix_socket.as_deref(), Some("/tmp/miasma.sock"));
    assert_eq!(config.address(), "localhost:9999");
}

#[test]
fn args_address() {
    let config = AppArgs {
        unix_socket: None,
        port: 8080,
        host: "127.0.0.1".to_owned(),
        max_in_flight: Default::default(),
        link_prefix: String::default(),
        link_count: Default::default(),
        force_gzip: Default::default(),
        unsafe_allow_html: Default::default(),
        metrics: None,
        max_depth: MaxDepth(None),
        poison_source: Url::parse("https://example.com").unwrap(),
    };

    assert_eq!(config.address(), "127.0.0.1:8080");
}

#[test]
fn args_metrics_credentials_validation() {
    let cases = [
        ("", false, ("", "")),
        ("usernamepassword", false, ("", "")),
        (":password", false, ("", "")),
        ("username:", false, ("", "")),
        ("username:password", true, ("username", "password")),
    ];

    for (input, valid, (uname, pword)) in cases {
        match MetricsCredentials::from_str(input) {
            Err(_) => assert!(!valid),
            Ok(credentials) => {
                assert_eq!(credentials.username(), uname);
                assert_eq!(credentials.password(), pword);
            }
        }
    }
}
