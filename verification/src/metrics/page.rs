//! The metrics page: who may see it, which page is asked for, and its HTML.
use vstd::prelude::*;

use crate::config::{base64_standard_encoding, MetricsConfig};
use crate::metrics::metrics_counter::RESULTS_PER_PAGE;
use crate::text::{decimal, signed_decimal, write_decimal, write_signed_decimal};

verus! {

/// The scheme in front of the expected Authorization value.
pub const BASIC_AUTH_SCHEME: &'static str = "Basic ";

/// The Authorization value that opens the metrics page: 'Basic ' and the
/// base64 encoding of 'username:password'.
pub fn basic_auth_value(config: &MetricsConfig) -> (r: String)
    ensures
        r@ == BASIC_AUTH_SCHEME@ + base64_standard_encoding(config.credentials.joined()),
{
    let mut r = <String as StringExecFns>::from_str(BASIC_AUTH_SCHEME);
    let encoded = config.encoded_credentials();
    r.append(encoded.as_str());
    r
}

/// A request may see the metrics page when its Authorization header is
/// exactly the expected value; `header` is the header as text (`None` when it
/// is absent or not text).
pub fn is_authorized(header: Option<&str>, expected: &str) -> (r: bool)
    ensures
        r == (header matches Some(h) && h@ == expected@),
{
    match header {
        Some(h) => str_eq(h, expected),
        None => false,
    }
}

/// Whether two texts are equal (`str == str`).
fn str_eq(a: &str, b: &str) -> (r: bool)
    ensures
        r == (a@ == b@),
{
    let ac = crate::text::chars_of(a);
    let bc = crate::text::chars_of(b);
    if ac.len() != bc.len() {
        return false;
    }
    let mut i: usize = 0;
    while i < ac.len()
        invariant
            ac@ == a@,
            bc@ == b@,
            ac@.len() == bc@.len(),
            i <= ac@.len(),
            forall|k: int| 0 <= k < i ==> ac@[k] == bc@[k],
        decreases ac@.len() - i,
    {
        if ac[i] != bc[i] {
            return false;
        }
        i = i + 1;
    }
    assert(a@ =~= b@);
    true
}

/// The page asked for: the 'page' query parameter, with no page and page
/// zero both meaning the first page.
pub open spec fn page_number_spec(page: Option<u32>) -> u32 {
    match page {
        None => 1,
        Some(p) => if p == 0 { 1 } else { p },
    }
}

/// The page asked for.
pub fn page_number(page: Option<u32>) -> (r: u32)
    ensures
        r == page_number_spec(page),
        r >= 1,
{
    match page {
        None => 1,
        Some(p) => if p == 0 { 1 } else { p },
    }
}

/// The text of a character on the page, with HTML's special characters escaped.
pub open spec fn escape_char(c: char) -> Seq<char> {
    if c == '&' {
        seq!['&', 'a', 'm', 'p', ';']
    } else if c == '<' {
        seq!['&', 'l', 't', ';']
    } else if c == '>' {
        seq!['&', 'g', 't', ';']
    } else if c == '"' {
        seq!['&', 'q', 'u', 'o', 't', ';']
    } else if c == '\'' {
        seq!['&', '#', '3', '9', ';']
    } else {
        seq![c]
    }
}

/// A text with HTML's special characters escaped, character by character.
pub open spec fn html_escape(s: Seq<char>) -> Seq<char>
    decreases s.len(),
{
    if s.len() == 0 {
        Seq::empty()
    } else {
        html_escape(s.drop_last()) + escape_char(s.last())
    }
}

/// An escaped user agent holds no '<', '>', '"' or '\'': a scraper cannot
/// put markup or script on the metrics page through its user agent.
pub proof fn lemma_escaped_agent_has_no_markup(s: Seq<char>)
    ensures
        forall|i: int|
            0 <= i < html_escape(s).len() ==> {
                let c = #[trigger] html_escape(s)[i];
                c != '<' && c != '>' && c != '"' && c != '\''
            },
    decreases s.len(),
{
    if s.len() > 0 {
        lemma_escaped_agent_has_no_markup(s.drop_last());
        let front = html_escape(s.drop_last());
        let back = escape_char(s.last());
        assert forall|i: int| 0 <= i < html_escape(s).len() implies {
            let c = #[trigger] html_escape(s)[i];
            c != '<' && c != '>' && c != '"' && c != '\''
        } by {
            if i < front.len() {
                assert(html_escape(s)[i] == front[i]);
            } else {
                assert(html_escape(s)[i] == back[i - front.len()]);
            }
        }
    }
}

/// Escapes special HTML characters in a string (`fhtml::escape`): '&', '<',
/// '>', '"' and '\'' become '&amp;', '&lt;', '&gt;', '&quot;' and '&#39;'.
#[verifier::external_body]
fn escape_html(s: &str) -> (r: String)
    ensures
        r@ == html_escape(s@),
{
    fhtml::escape(s)
}

/// The start of the metrics page, up to the first row, around the page's icon and styles.
pub open spec fn page_start_spec(icon: Seq<char>, css: Seq<char>) -> Seq<char> {
    PAGE_HEAD@ + icon + PAGE_ICON_TO_CSS@ + css + PAGE_CSS_TO_ROWS@
}

/// From the start of the page to the icon.
pub const PAGE_HEAD: &'static str = "<!DOCTYPE html><html lang=\"en\"><head><meta charset=\"UTF-8\"><link rel=\"icon\" href=\"";

/// From the icon to the styles.
pub const PAGE_ICON_TO_CSS: &'static str = "\"><title>Miasma Metrics</title><style>";

/// From the styles to the first row.
pub const PAGE_CSS_TO_ROWS: &'static str = "</style></head><body><h1>🌀 Miasma</h1><h2>Request Counts by Scraper User-Agent</h2><table><thead><tr><th></th><th>User-Agent</th><th>Request Count</th><th>Bytes Sent</th></tr></thead><tbody>";

/// The start of the metrics page, up to the first row.
pub fn page_start(icon: &str, css: &str) -> (r: String)
    ensures
        r@ == page_start_spec(icon@, css@),
{
    let mut r = <String as StringExecFns>::from_str(PAGE_HEAD);
    r.append(icon);
    r.append(PAGE_ICON_TO_CSS);
    r.append(css);
    r.append(PAGE_CSS_TO_ROWS);
    r
}

/// Opens a row, up to its number.
pub const ROW_OPEN: &'static str = "<tr><td>";

/// From a row's number to its user agent.
pub const ROW_TO_AGENT: &'static str = "</td><td class=\"user-agent\">";

/// From a row's user agent to its request count.
pub const ROW_TO_COUNT: &'static str = "</td><td class=\"request-count\">";

/// From a row's request count to its bytes sent.
pub const ROW_TO_BYTES: &'static str = "</td><td class=\"request-bytes\">";

/// Closes a row.
pub const ROW_CLOSE: &'static str = "</td></tr>";

/// One row of the table: its number, the escaped user agent, the request
/// count and the bytes sent.
pub open spec fn row_spec(number: nat, user_agent: Seq<char>, count: i64, bytes: i64) -> Seq<char> {
    ROW_OPEN@ + decimal(number) + ROW_TO_AGENT@ + html_escape(user_agent) + ROW_TO_COUNT@
        + signed_decimal(count as int) + ROW_TO_BYTES@ + signed_decimal(bytes as int) + ROW_CLOSE@
}

/// The pages before page `page_number`: none before page zero and page one.
pub open spec fn pages_before(page_number: u32) -> nat {
    if page_number == 0 {
        0
    } else {
        (page_number - 1) as nat
    }
}

/// The number of the entry at `index` on page `page_number`: entries are
/// numbered from one across pages of `RESULTS_PER_PAGE`.
pub open spec fn row_number(page_number: u32, index: int) -> nat {
    (index + 1 + pages_before(page_number) * RESULTS_PER_PAGE) as nat
}

/// The rows of a page of (user agent, (request count, bytes sent)) entries.
/// The entries before the page are counted in a `u32`, as the page offset is.
pub fn page_rows(page_number: u32, entries: &Vec<(String, (i64, i64))>) -> (r: Vec<String>)
    requires
        pages_before(page_number) * RESULTS_PER_PAGE <= u32::MAX,
    ensures
        r@.len() == entries@.len(),
        forall|i: int|
            0 <= i < entries@.len() ==> (#[trigger] r@[i])@ == row_spec(
                row_number(page_number, i),
                entries@[i].0@,
                entries@[i].1.0,
                entries@[i].1.1,
            ),
{
    let before: u32 = if page_number == 0 { 0 } else { page_number - 1 };
    let first: u32 = before * RESULTS_PER_PAGE;
    let mut r: Vec<String> = Vec::new();
    let mut i: usize = 0;
    while i < entries.len()
        invariant
            first == pages_before(page_number) * RESULTS_PER_PAGE,
            i <= entries@.len(),
            r@.len() == i,
            forall|k: int|
                0 <= k < i ==> (#[trigger] r@[k])@ == row_spec(
                    row_number(page_number, k),
                    entries@[k].0@,
                    entries@[k].1.0,
                    entries@[k].1.1,
                ),
        decreases entries@.len() - i,
    {
        let (user_agent, (count, bytes)) = &entries[i];
        let number: u128 = (i as u128) + 1 + (first as u128);
        let mut row = <String as StringExecFns>::from_str(ROW_OPEN);
        write_decimal(&mut row, number);
        row.append(ROW_TO_AGENT);
        let escaped = escape_html(user_agent.as_str());
        row.append(escaped.as_str());
        row.append(ROW_TO_COUNT);
        write_signed_decimal(&mut row, *count);
        row.append(ROW_TO_BYTES);
        write_signed_decimal(&mut row, *bytes);
        row.append(ROW_CLOSE);
        assert(row@ =~= row_spec(row_number(page_number, i as int), entries@[i as int].0@, entries@[i as int].1.0, entries@[i as int].1.1));
        r.push(row);
        i = i + 1;
    }
    r
}

/// From the last row to the previous page's number.
pub const PAGE_TO_PREVIOUS: &'static str = "</tbody></table><div class=\"pagination\"><a href=\"?page=";

/// From a link's target to its class.
pub const LINK_TO_CLASS: &'static str = "\" class=\"link";

/// The class suffix of a link that leads nowhere.
pub const DISABLED: &'static str = "-disabled";

/// From the previous link's class to the next page's number.
pub const PREVIOUS_TO_NEXT: &'static str = "\">🡐 Previous</a><a href=\"?page=";

/// From the next link's class to the end of the page.
pub const PAGE_END: &'static str = "\">Next 🡒</a></div></body></html>";

/// The class suffix of a pagination link.
pub open spec fn disabled_if(b: bool) -> Seq<char> {
    if b { DISABLED@ } else { Seq::empty() }
}

/// The end of the page: links to the previous page (disabled on the first
/// page) and to the next page (disabled when this page is not full).
pub open spec fn page_end_spec(page_number: u32, entry_count: nat) -> Seq<char> {
    let prev = pages_before(page_number);
    PAGE_TO_PREVIOUS@ + decimal(prev) + LINK_TO_CLASS@ + disabled_if(prev == 0) + PREVIOUS_TO_NEXT@
        + decimal((page_number + 1) as nat) + LINK_TO_CLASS@ + disabled_if(entry_count < RESULTS_PER_PAGE)
        + PAGE_END@
}

/// The end of the page after the rows: the previous page of page zero is
/// page zero too.
pub fn page_end(page_number: u32, entry_count: usize) -> (r: String)
    requires
        page_number < u32::MAX,
    ensures
        r@ == page_end_spec(page_number, entry_count as nat),
{
    let prev: u32 = if page_number == 0 { 0 } else { page_number - 1 };
    let next = page_number + 1;
    let mut r = <String as StringExecFns>::from_str(PAGE_TO_PREVIOUS);
    write_decimal(&mut r, prev as u128);
    r.append(LINK_TO_CLASS);
    if prev == 0 {
        r.append(DISABLED);
    }
    r.append(PREVIOUS_TO_NEXT);
    write_decimal(&mut r, next as u128);
    r.append(LINK_TO_CLASS);
    if entry_count < RESULTS_PER_PAGE as usize {
        r.append(DISABLED);
    }
    r.append(PAGE_END);
    assert(r@ =~= page_end_spec(page_number, entry_count as nat));
    r
}

/// The whole metrics page, in the chunks it is sent in: its start, one row
/// per entry in order, numbered across pages, and its end with the
/// pagination links.
pub fn metrics_page(page_number: u32, entries: &Vec<(String, (i64, i64))>, icon: &str, css: &str) -> (r: Vec<String>)
    requires
        pages_before(page_number) * RESULTS_PER_PAGE <= u32::MAX,
        page_number < u32::MAX,
    ensures
        r@.len() == entries@.len() + 2,
        r@[0]@ == page_start_spec(icon@, css@),
        forall|i: int|
            0 <= i < entries@.len() ==> (#[trigger] r@[i + 1])@ == row_spec(
                row_number(page_number, i),
                entries@[i].0@,
                entries@[i].1.0,
                entries@[i].1.1,
            ),
        r@[entries@.len() + 1int]@ == page_end_spec(page_number, entries@.len()),
{
    let mut r: Vec<String> = Vec::new();
    r.push(page_start(icon, css));
    let mut rows = page_rows(page_number, entries);
    let ghost row_views = rows@;
    r.append(&mut rows);
    r.push(page_end(page_number, entries.len()));
    assert forall|i: int| 0 <= i < entries@.len() implies (#[trigger] r@[i + 1])@ == row_spec(
        row_number(page_number, i),
        entries@[i].0@,
        entries@[i].1.0,
        entries@[i].1.1,
    ) by {
        assert(r@[i + 1] == row_views[i]);
    }
    r
}

/// The pagination at the end of page `page_number`: the Previous link leads
/// to the page before (page 0 from page 0 and page 1) and is disabled only on
/// the first page; the Next link leads to the page after and is disabled
/// only when this page is not full.
pub proof fn lemma_pagination_links(page_number: u32, entry_count: nat)
    requires
        page_number < u32::MAX,
    ensures
        page_end_spec(page_number, entry_count) == PAGE_TO_PREVIOUS@ + decimal(
            if page_number >= 1 { (page_number - 1) as nat } else { 0 },
        ) + LINK_TO_CLASS@ + (if page_number >= 2 { Seq::<char>::empty() } else { DISABLED@ })
            + PREVIOUS_TO_NEXT@ + decimal((page_number + 1) as nat) + LINK_TO_CLASS@ + (
        if entry_count >= 50 {
            Seq::<char>::empty()
        } else {
            DISABLED@
        }) + PAGE_END@,
{
}

} // verus!
