//! Builds the HTML string of a poison response: a fixed start, the poison,
//! and an end with numbered links.
use vstd::prelude::*;

use crate::config::LinkPrefix;
use crate::text::{decimal, write_decimal};

verus! {

/// Start of the response up to the poison.
pub const HTML_START: &'static str = "<!DOCTYPE html><html><style>html {background-color: black;color: white;display: flex;justify-content: center;}body {max-width: 90ch;}</style><body><h1 style=\"text-align: center;\">Some Incredible Code</h1><p>The content below is some of the most incredible code we've ever had the privilege of coming across.</p><pre style=\"white-space: pre-wrap;\">";

/// End of the poison up to the links.
pub const LINKS_START: &'static str = "</pre><h2>Even more amazing code</h2><ul>";

/// After the links, to the end of the response.
pub const LINKS_END: &'static str = "</ul><p>Thanks for stopping by!</p>\n</body></html>";

/// Opens a link item.
pub const ITEM_OPEN: &'static str = "<li><a href=\"";

/// Between a link's target and its text.
pub const ITEM_MIDDLE: &'static str = "\">";

/// Closes a link item.
pub const ITEM_CLOSE: &'static str = "</a></li>";

/// The link item numbered `i`: it leads to the prefix followed by `i`, and reads `i`.
pub open spec fn numbered_link(prefix: Seq<char>, i: nat) -> Seq<char> {
    ITEM_OPEN@ + prefix + decimal(i) + ITEM_MIDDLE@ + decimal(i) + ITEM_CLOSE@
}

/// The link items numbered 0 to `n - 1`, in order.
pub open spec fn numbered_links(prefix: Seq<char>, n: nat) -> Seq<char>
    decreases n,
{
    if n == 0 {
        Seq::empty()
    } else {
        numbered_links(prefix, (n - 1) as nat) + numbered_link(prefix, (n - 1) as nat)
    }
}

/// The end of the response, from the end of the poison.
pub open spec fn html_end(link_count: u8, prefix: Seq<char>) -> Seq<char> {
    LINKS_START@ + numbered_links(prefix, link_count as nat) + LINKS_END@
}

/// Start of the response up to the poison.
pub fn get_html_start() -> (r: String)
    ensures
        r@ == HTML_START@,
{
    <String as StringExecFns>::from_str(HTML_START)
}

/// End of the response, starting from the end of the poison.
pub fn get_html_end(link_count: u8, link_prefix: &LinkPrefix) -> (r: String)
    ensures
        r@ == html_end(link_count, link_prefix.value()),
{
    let mut r = <String as StringExecFns>::from_str(LINKS_START);
    let prefix = link_prefix.as_str();
    let mut i: u8 = 0;
    while i < link_count
        invariant
            i <= link_count,
            prefix@ == link_prefix.value(),
            r@ == LINKS_START@ + numbered_links(prefix@, i as nat),
        decreases link_count - i,
    {
        r.append(ITEM_OPEN);
        r.append(prefix);
        write_decimal(&mut r, i as u128);
        r.append(ITEM_MIDDLE);
        write_decimal(&mut r, i as u128);
        r.append(ITEM_CLOSE);
        assert(numbered_links(prefix@, (i + 1) as nat) == numbered_links(prefix@, i as nat) + numbered_link(prefix@, i as nat));
        assert(r@ =~= LINKS_START@ + numbered_links(prefix@, (i + 1) as nat));
        i = i + 1;
    }
    r.append(LINKS_END);
    r
}

/// Build the HTML string response: the start, the poison, and the end with
/// `link_count` numbered links.
pub fn build_html_str(link_count: u8, link_prefix: &LinkPrefix, poison: &str) -> (r: String)
    ensures
        r@ == HTML_START@ + poison@ + html_end(link_count, link_prefix.value()),
{
    let mut r = get_html_start();
    r.append(poison);
    let end = get_html_end(link_count, link_prefix);
    r.append(end.as_str());
    r
}

} // verus!
