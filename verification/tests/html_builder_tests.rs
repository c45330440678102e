use miasma::config::LinkPrefix;
use miasma::routes::html_builder::{build_html_str, get_html_end, get_html_start};

#[test]
fn html_start_is_the_fixed_page_head() {
    let start = get_html_start();
    assert!(start.starts_with("<!DOCTYPE html><html><style>html {background-color: black;"));
    assert!(start.ends_with("<pre style=\"white-space: pre-wrap;\">"));
}

#[test]
fn html_end_lists_numbered_links() {
    let prefix = LinkPrefix::new("bots");
    assert_eq!(
        get_html_end(2, &prefix),
        "</pre><h2>Even more amazing code</h2><ul><li><a href=\"/bots/0\">0</a></li><li><a href=\"/bots/1\">1</a></li></ul><p>Thanks for stopping by!</p>\n</body></html>"
    );
    assert_eq!(
        get_html_end(0, &prefix),
        "</pre><h2>Even more amazing code</h2><ul></ul><p>Thanks for stopping by!</p>\n</body></html>"
    );
    assert_eq!(get_html_end(255, &prefix).matches("<li>").count(), 255);
}

#[test]
fn html_page_wraps_poison() {
    let prefix = LinkPrefix::new("/");
    let page = build_html_str(1, &prefix, "fn main() {}");
    assert_eq!(page, get_html_start() + "fn main() {}" + &get_html_end(1, &prefix));
}
