use std::str::FromStr;

use miasma::config::{MetricsConfig, MetricsCredentials};
use miasma::metrics::metrics_counter::{page_offset, Metrics, MAX_UNFLUSHED_COUNT};
use miasma::metrics::page::{
    basic_auth_value, is_authorized, metrics_page, page_end, page_number, page_rows, page_start,
};

fn count(entries: &[(String, usize)], agent: &str) -> Option<usize> {
    entries.iter().find(|(a, _)| a == agent).map(|(_, c)| *c)
}

#[test]
fn counts_are_flushed_every_thousand_requests() {
    let mut metrics = Metrics::new("miasma.db".to_owned());
    assert_eq!(metrics.db_path(), "miasma.db");
    for i in 1..MAX_UNFLUSHED_COUNT {
        let agent = if i % 2 == 0 { "claudebot" } else { "safari" };
        assert!(metrics.count_request(agent).is_none());
    }
    let flushed = metrics.count_request("miasma/0.1").expect("flush due at the thousandth request");
    assert_eq!(flushed.len(), 3);
    assert_eq!(count(&flushed, "claudebot"), Some(499));
    assert_eq!(count(&flushed, "safari"), Some(500));
    assert_eq!(count(&flushed, "miasma/0.1"), Some(1));
    assert!(metrics.take_counts().is_empty());
}

#[test]
fn user_agents_are_truncated() {
    let mut metrics = Metrics::new(String::new());
    let long = "x".repeat(2000);
    metrics.count_request(&long);
    metrics.count_request(&"x".repeat(1024));
    let entries = metrics.take_counts();
    assert_eq!(entries.len(), 1);
    assert_eq!(entries[0].0.chars().count(), 1024);
    assert_eq!(entries[0].1, 2);
}

#[test]
fn taking_counts_empties_the_counter() {
    let mut metrics = Metrics::new(String::new());
    metrics.count_request("a");
    metrics.count_request("b");
    metrics.count_request("a");
    let entries = metrics.take_counts();
    assert_eq!(count(&entries, "a"), Some(2));
    assert_eq!(count(&entries, "b"), Some(1));
    assert!(metrics.take_counts().is_empty());
}

#[test]
fn page_offsets() {
    assert_eq!(page_offset(0), 0);
    assert_eq!(page_offset(1), 0);
    assert_eq!(page_offset(2), 50);
    assert_eq!(page_offset(10), 450);
}

#[test]
fn page_numbers_start_at_one() {
    assert_eq!(page_number(None), 1);
    assert_eq!(page_number(Some(0)), 1);
    assert_eq!(page_number(Some(1)), 1);
    assert_eq!(page_number(Some(7)), 7);
}

#[test]
fn authorization_needs_the_exact_value() {
    let config = MetricsConfig {
        db_path: "miasma.db".to_owned(),
        endpoint: "/metrics".to_owned(),
        credentials: MetricsCredentials::from_str("admin:admin").unwrap(),
    };
    let expected = basic_auth_value(&config);
    assert_eq!(expected, "Basic YWRtaW46YWRtaW4=");
    assert!(is_authorized(Some("Basic YWRtaW46YWRtaW4="), &expected));
    assert!(!is_authorized(Some("Basic YWRtaW46YWRtaW4"), &expected));
    assert!(!is_authorized(Some("basic YWRtaW46YWRtaW4="), &expected));
    assert!(!is_authorized(None, &expected));
}

#[test]
fn rows_are_numbered_across_pages_and_escaped() {
    let entries = vec![
        ("miasma/0.1".to_owned(), (1, 1024)),
        ("<script>\"x\" & 'y'".to_owned(), (-3, 0)),
    ];
    let rows = page_rows(2, &entries);
    assert_eq!(
        rows[0],
        "<tr><td>51</td><td class=\"user-agent\">miasma/0.1</td><td class=\"request-count\">1</td><td class=\"request-bytes\">1024</td></tr>"
    );
    assert_eq!(
        rows[1],
        "<tr><td>52</td><td class=\"user-agent\">&lt;script&gt;&quot;x&quot; &amp; &#39;y&#39;</td><td class=\"request-count\">-3</td><td class=\"request-bytes\">0</td></tr>"
    );
}

#[test]
fn pagination_disables_missing_pages() {
    assert_eq!(
        page_end(1, 3),
        "</tbody></table><div class=\"pagination\"><a href=\"?page=0\" class=\"link-disabled\">🡐 Previous</a><a href=\"?page=2\" class=\"link-disabled\">Next 🡒</a></div></body></html>"
    );
    assert_eq!(
        page_end(3, 50),
        "</tbody></table><div class=\"pagination\"><a href=\"?page=2\" class=\"link\">🡐 Previous</a><a href=\"?page=4\" class=\"link\">Next 🡒</a></div></body></html>"
    );
}

#[test]
fn page_start_wraps_icon_and_styles() {
    let start = page_start("ICON", "CSS");
    assert!(start.starts_with("<!DOCTYPE html><html lang=\"en\"><head><meta charset=\"UTF-8\"><link rel=\"icon\" href=\"ICON\"><title>Miasma Metrics</title><style>CSS</style>"));
    assert!(start.ends_with("<th>Bytes Sent</th></tr></thead><tbody>"));
}

#[test]
fn whole_page_is_valid_html() {
    let entries = vec![("miasma/0.1".to_owned(), (1, 1024))];
    let mut page = page_start("", "");
    for row in page_rows(1, &entries) {
        page.push_str(&row);
    }
    page.push_str(&page_end(1, entries.len()));
    let errors = scraper::Html::parse_document(&page).errors;
    assert!(errors.is_empty(), "{errors:?}");
}

#[test]
fn page_zero_counts_as_the_first_page() {
    let entries = vec![("a".to_owned(), (2, 0))];
    assert_eq!(page_rows(0, &entries), page_rows(1, &entries));
    assert!(page_end(0, 1).starts_with("</tbody></table><div class=\"pagination\"><a href=\"?page=0\" class=\"link-disabled\">"));
    assert!(page_end(0, 1).contains("?page=1\" class=\"link-disabled\">Next"));
}

#[test]
fn metrics_page_is_start_rows_and_end() {
    let entries = vec![("miasma/0.1".to_owned(), (1, 1024)), ("b".to_owned(), (2, 3))];
    let page = metrics_page(2, &entries, "ICON", "CSS");
    assert_eq!(page.len(), 4);
    assert_eq!(page[0], page_start("ICON", "CSS"));
    assert_eq!(page[1..3].to_vec(), page_rows(2, &entries));
    assert_eq!(page[3], page_end(2, 2));
    assert!(page[1].starts_with("<tr><td>51</td>"));
    let errors = scraper::Html::parse_document(&page.concat()).errors;
    assert!(errors.is_empty(), "{errors:?}");
}
