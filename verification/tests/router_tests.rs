use std::str::FromStr;

use miasma::config::{LinkPrefix, MiasmaConfig};
use miasma::poison::link_settings::LinkSettings;
use miasma::router::{
    accepts_gzip, current_depth, plan_request, user_agent_label, PermitOutcome, QueryParams,
    RequestPlan,
};
use url::Url;

fn test_config() -> MiasmaConfig {
    MiasmaConfig {
        port: 0,
        host: String::new(),
        unix_socket: None,
        max_in_flight: 1,
        link_prefix: LinkPrefix::from_str("/").unwrap(),
        link_count: 5,
        max_depth: None,
        force_gzip: false,
        unsafe_allow_html: false,
        poison_source: Url::parse("https://example.com").unwrap(),
        metrics: None,
    }
}

#[test]
fn gzip_is_found_among_encodings() {
    assert!(accepts_gzip("gzip"));
    assert!(accepts_gzip("GZip"));
    assert!(accepts_gzip("deflate, gzip"));
    assert!(accepts_gzip(" br ,\tgzip\t, deflate"));
    assert!(accepts_gzip("deflate,gzip,"));
    assert!(!accepts_gzip(""));
    assert!(!accepts_gzip("deflate, br"));
    assert!(!accepts_gzip("gzip;q=1.0"));
    assert!(!accepts_gzip("g zip"));
    assert!(!accepts_gzip("x-gzip"));
    assert!(!accepts_gzip(",,"));
}

#[test]
fn depth_defaults_to_one() {
    assert_eq!(current_depth(None), 1);
    assert_eq!(current_depth(Some(QueryParams { page: None })), 1);
    assert_eq!(current_depth(Some(QueryParams { page: Some(0) })), 0);
    assert_eq!(current_depth(Some(QueryParams { page: Some(9) })), 9);
}

#[test]
fn user_agent_labels() {
    assert_eq!(user_agent_label(None), "NO-USER-AGENT");
    assert_eq!(user_agent_label(Some(None)), "INVALID-USER-AGENT-STRING");
    assert_eq!(user_agent_label(Some(Some("claudebot"))), "claudebot");
}

#[test]
fn returns_429_when_no_permits_are_left() {
    let config = test_config();
    let plan = plan_request(&config, PermitOutcome::NoPermits, None, None, None, false);
    assert!(matches!(plan, RequestPlan::TooManyRequests));
    let plan = plan_request(&config, PermitOutcome::Closed, None, None, None, false);
    assert!(matches!(plan, RequestPlan::InternalError));
}

#[test]
fn served_requests_follow_the_config() {
    let config = MiasmaConfig {
        max_depth: Some(3),
        ..test_config()
    };
    let plan = plan_request(
        &config,
        PermitOutcome::Acquired,
        Some("deflate, gzip"),
        Some(QueryParams { page: Some(2) }),
        Some(Some("safari")),
        true,
    );
    match plan {
        RequestPlan::Serve(p) => {
            assert!(p.gzip);
            assert_eq!(p.count_user_agent.as_deref(), Some("safari"));
            match p.link_settings {
                LinkSettings::Links(l) => {
                    assert_eq!(l.count, 5);
                    assert_eq!(l.next_depth, Some(3));
                }
                LinkSettings::NoLinks => panic!("expected links"),
            }
        }
        _ => panic!("expected the request to be served"),
    }

    let plan = plan_request(
        &config,
        PermitOutcome::Acquired,
        None,
        Some(QueryParams { page: Some(3) }),
        None,
        false,
    );
    match plan {
        RequestPlan::Serve(p) => {
            assert!(!p.gzip);
            assert!(p.count_user_agent.is_none());
            assert_eq!(p.link_settings, LinkSettings::NoLinks);
        }
        _ => panic!("expected the request to be served"),
    }
}

#[test]
fn forced_gzip_ignores_the_header() {
    let config = MiasmaConfig {
        force_gzip: true,
        ..test_config()
    };
    match plan_request(&config, PermitOutcome::Acquired, None, None, None, true) {
        RequestPlan::Serve(p) => {
            assert!(p.gzip);
            assert_eq!(p.count_user_agent.as_deref(), Some("NO-USER-AGENT"));
        }
        _ => panic!("expected the request to be served"),
    }
}
