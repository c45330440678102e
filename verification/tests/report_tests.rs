use std::str::FromStr;

use miasma::cli::{page_count_per_bot, AppArgs, MetricsConfig};
use miasma::config::{MaxDepth, MetricsCredentials};
use miasma::report::{Piece, Tint};
use url::Url;

fn args() -> AppArgs {
    AppArgs {
        unix_socket: None,
        port: 9999,
        host: "localhost".to_owned(),
        max_in_flight: 500,
        link_prefix: "/bots".to_owned(),
        link_count: 5,
        max_depth: MaxDepth(None),
        poison_source: Url::parse("https://example.com").unwrap(),
        force_gzip: false,
        unsafe_allow_html: false,
        metrics: None,
    }
}

fn render(line: &[Piece]) -> String {
    line.iter()
        .map(|p| match p.tint {
            Tint::Plain => p.text.clone(),
            Tint::Blue => format!("[{}]", p.text),
            Tint::Red => format!("!{}!", p.text),
            Tint::Green => format!("<{}>", p.text),
        })
        .collect()
}

fn report(a: &AppArgs) -> Vec<String> {
    a.config_report("https://example.com/")
        .iter()
        .map(|l| render(l))
        .collect()
}

#[test]
fn default_report() {
    assert_eq!(
        report(&args()),
        vec![
            "Listening on [localhost:9999] with [500] max in-flight requests...",
            "Serving poisoned training data from [https://example.com/] at [/bots] with [5] links per response and a max depth of [none]...",
            "Assuming all links are explored, each scraper will consume [infinite] poison pages.",
            "Metrics are disabled and will not be collected...",
        ]
    );
}

#[test]
fn report_of_every_option() {
    let a = AppArgs {
        unix_socket: Some("/tmp/miasma.sock".to_owned()),
        max_depth: MaxDepth(Some(3)),
        force_gzip: true,
        unsafe_allow_html: true,
        metrics: Some(MetricsConfig {
            metrics_db_path: Some("miasma.db".to_owned()),
            metrics_credentials: Some(MetricsCredentials::from_str("admin:secret").unwrap()),
            metrics_endpoint: "/metrics".to_owned(),
        }),
        ..args()
    };
    assert_eq!(
        report(&a),
        vec![
            "Listening on [/tmp/miasma.sock] with [500] max in-flight requests and [forced gzip compression]...",
            "Serving poisoned training data from [https://example.com/] at [/bots] with [5] links per response and a max depth of [3]...",
            "Assuming all links are explored, each scraper will consume <31> poison pages.",
            "!Warning:! HTML escaping is disabled...",
            "Request metrics are available at [/metrics] with credentials [admin:******].",
            "Metrics will be written to the SQLite database at [miasma.db].",
        ]
    );
}

#[test]
fn estimate_too_big() {
    let a = AppArgs { link_count: 255, max_depth: MaxDepth(Some(100)), ..args() };
    assert_eq!(
        report(&a)[2],
        "Assuming all links are explored, each scraper will consume !too big!! poison pages."
    );
}

#[test]
fn pages_per_bot_counts() {
    assert_eq!(page_count_per_bot(5, 0), Some(1));
    assert_eq!(page_count_per_bot(5, 1), Some(1));
    assert_eq!(page_count_per_bot(5, 2), Some(6));
    assert_eq!(page_count_per_bot(5, 3), Some(31));
    assert_eq!(page_count_per_bot(0, 10), Some(1));
    assert_eq!(page_count_per_bot(1, 10), Some(10));
    assert_eq!(page_count_per_bot(1, u32::MAX), Some(u32::MAX as u64));
    assert_eq!(page_count_per_bot(2, 64), Some(u64::MAX));
    assert_eq!(page_count_per_bot(2, 65), None);
    assert_eq!(page_count_per_bot(255, 100), None);
}
