use std::str::FromStr;

use miasma::config::{LinkPrefix, MiasmaConfig};
use miasma::poison::link_settings::{LinkSettings, LinkSettingsInner};
use url::Url;

fn test_config() -> MiasmaConfig {
    MiasmaConfig {
        port: 0,
        host: String::new(),
        unix_socket: None,
        max_in_flight: 0,
        link_prefix: LinkPrefix::from_str("").unwrap(),
        link_count: 0,
        max_depth: None,
        force_gzip: false,
        unsafe_allow_html: false,
        poison_source: Url::parse("https://example.com").unwrap(),
        metrics: None,
    }
}

#[test]
fn links_if_no_max_depth() {
    let config = MiasmaConfig {
        max_depth: None,
        ..test_config()
    };

    let link_settings = LinkSettings::next(&config, 0);
    let expected = LinkSettings::Links(LinkSettingsInner {
        count: config.link_count,
        prefix: config.link_prefix.clone(),
        next_depth: None,
    });
    assert_eq!(link_settings, expected);
}

#[test]
fn links_if_not_at_max_depth() {
    let config = MiasmaConfig {
        max_depth: Some(5),
        ..test_config()
    };
    for current_depth in [0, 1, 2, 3, 4] {
        let link_settings = LinkSettings::next(&config, current_depth);
        let expected = LinkSettings::Links(LinkSettingsInner {
            count: config.link_count,
            prefix: config.link_prefix.clone(),
            next_depth: Some(current_depth + 1),
        });
        assert_eq!(link_settings, expected);
    }
}

#[test]
fn no_links_if_at_max_depth() {
    let config = MiasmaConfig {
        max_depth: Some(5),
        ..test_config()
    };
    for current_depth in [5, 6, 10] {
        let link_settings = LinkSettings::next(&config, current_depth);
        assert!(matches!(link_settings, LinkSettings::NoLinks))
    }
}

#[test]
fn links_carry_count_and_prefix() {
    let config = MiasmaConfig {
        link_count: 7,
        link_prefix: LinkPrefix::new("bots"),
        max_depth: Some(u32::MAX),
        ..test_config()
    };
    match LinkSettings::next(&config, u32::MAX - 1) {
        LinkSettings::Links(l) => {
            assert_eq!(l.count, 7);
            assert_eq!(l.prefix.as_str(), "/bots/");
            assert_eq!(l.next_depth, Some(u32::MAX));
        }
        LinkSettings::NoLinks => panic!("expected links"),
    }
    assert_eq!(LinkSettings::next(&config, u32::MAX), LinkSettings::NoLinks);
}
