//! The parts of a poison response, in order: the document up to the poison,
//! the poison, the document up to the links, the links, and the end.
use vstd::prelude::*;

use crate::poison::link_settings::{LinkSettings, LinkSettingsInner};
use crate::router::CURRENT_DEPTH_QUERY_PARAM;
use crate::templates::template::{views_of, Template};
use crate::templates::{links_to_end_items, poison_to_links_items, start_to_poison_items, TemplateBuilder};
use crate::text::{decimal, push_char, write_decimal};

verus! {

/// A lower-case hexadecimal digit.
pub open spec fn is_lower_hex(c: char) -> bool {
    ('0' <= c && c <= '9') || ('a' <= c && c <= 'f')
}

/// The hyphenated, lower-case text of a version 4 UUID:
/// 'xxxxxxxx-xxxx-4xxx-xxxx-xxxxxxxxxxxx' with hexadecimal digits.
pub open spec fn is_uuid_v4_text(s: Seq<char>) -> bool {
    &&& s.len() == 36
    &&& forall|i: int|
        0 <= i < 36 ==> if i == 8 || i == 13 || i == 18 || i == 23 {
            s[i] == '-'
        } else {
            is_lower_hex(#[trigger] s[i])
        }
    &&& s[14] == '4'
}

/// A new random link id: a version 4 UUID as hyphenated lower-case text
/// (`uuid::Uuid::new_v4`, written with `Display`).  The id depends on chance;
/// the contract states its form.
#[verifier::external_body]
fn new_link_id() -> (r: String)
    ensures
        is_uuid_v4_text(r@),
{
    uuid::Uuid::new_v4().to_string()
}

/// The query string of the links: '?page=<depth>' when they lead to a known
/// depth, nothing otherwise.
pub open spec fn link_params(next_depth: Option<u32>) -> Seq<char> {
    match next_depth {
        None => Seq::empty(),
        Some(d) => seq!['?'] + CURRENT_DEPTH_QUERY_PARAM@ + seq!['='] + decimal(d as nat),
    }
}

/// Opens a link item.
pub const LINK_OPEN: &'static str = "<li><a href=\"";

/// Between a link's target and its title.
pub const LINK_MIDDLE: &'static str = "\">";

/// Closes a link item.
pub const LINK_CLOSE: &'static str = "</a></li>";

/// The text written in place of links when a response has none.
pub const NO_LINKS: &'static str = "None";

/// One link item: to the prefix, the id and the query string, titled `title`.
pub open spec fn link_item(prefix: Seq<char>, id: Seq<char>, params: Seq<char>, title: Seq<char>) -> Seq<char> {
    LINK_OPEN@ + prefix + id + params + LINK_MIDDLE@ + title + LINK_CLOSE@
}

/// `item` is a link of `settings` titled `title`, to some version 4 UUID.
pub open spec fn is_link(item: Seq<char>, settings: LinkSettingsInner, title: Seq<char>) -> bool {
    exists|id: Seq<char>|
        is_uuid_v4_text(id) && item == link_item(settings.prefix.value(), id, link_params(settings.next_depth), title)
}

/// `items` are the links of `settings` with the given titles: one for each
/// title, each to its own version 4 UUID.
pub open spec fn are_links(items: Seq<Seq<char>>, settings: LinkSettingsInner, titles: Seq<Seq<char>>) -> bool {
    &&& items.len() == titles.len()
    &&& forall|i: int| 0 <= i < items.len() ==> #[trigger] is_link(items[i], settings, titles[i])
}

/// The characters of each string, in order.
pub open spec fn string_views(v: Seq<String>) -> Seq<Seq<char>> {
    v.map_values(|s: String| s@)
}

/// The query string of the links.
fn build_link_params(next_depth: Option<u32>) -> (r: String)
    ensures
        r@ == link_params(next_depth),
{
    let mut r = String::new();
    match next_depth {
        None => {},
        Some(d) => {
            push_char(&mut r, '?');
            r.append(CURRENT_DEPTH_QUERY_PARAM);
            push_char(&mut r, '=');
            write_decimal(&mut r, d as u128);
        },
    }
    assert(r@ =~= link_params(next_depth));
    r
}

/// Builds the links of a response: `link_settings.count` links, the i-th
/// titled `titles[i]`, each to the prefix, a new random UUID and the query
/// string of the next depth.
pub fn build_links(link_settings: &LinkSettingsInner, titles: &Vec<&'static str>) -> (r: Vec<String>)
    requires
        titles@.len() == link_settings.count,
    ensures
        are_links(string_views(r@), *link_settings, views_of(titles@)),
{
    let params = build_link_params(link_settings.next_depth);
    let prefix = link_settings.prefix.as_str();
    let mut r: Vec<String> = Vec::new();
    let mut i: usize = 0;
    while i < link_settings.count as usize
        invariant
            titles@.len() == link_settings.count,
            i <= titles@.len(),
            r@.len() == i,
            params@ == link_params(link_settings.next_depth),
            prefix@ == link_settings.prefix.value(),
            forall|k: int| 0 <= k < i ==> #[trigger] is_link(r@[k]@, *link_settings, titles@[k]@),
        decreases titles@.len() - i,
    {
        let id = new_link_id();
        let mut item = <String as StringExecFns>::from_str(LINK_OPEN);
        item.append(prefix);
        item.append(id.as_str());
        item.append(params.as_str());
        item.append(LINK_MIDDLE);
        item.append(titles[i]);
        item.append(LINK_CLOSE);
        assert(item@ =~= link_item(prefix@, id@, params@, titles@[i as int]@));
        assert(is_link(item@, *link_settings, titles@[i as int]@));
        r.push(item);
        i = i + 1;
    }
    proof {
        let items = string_views(r@);
        assert forall|k: int| 0 <= k < items.len() implies #[trigger] is_link(items[k], *link_settings, views_of(titles@)[k]) by {
            assert(items[k] == r@[k]@);
            assert(views_of(titles@)[k] == titles@[k]@);
        }
    }
    r
}

/// The text after the poison in links' place: the links of the settings, or
/// "None" when the response has no links.
pub open spec fn is_links_section(items: Seq<Seq<char>>, settings: LinkSettings, titles: Seq<Seq<char>>) -> bool {
    match settings {
        LinkSettings::NoLinks => items == seq![NO_LINKS@],
        LinkSettings::Links(l) => are_links(items, l, titles),
    }
}

/// The parts of a poison response around the poison.
pub struct ResponseParts {
    /// Everything before the poison.
    pub before_poison: Vec<&'static str>,
    /// Everything after the poison.
    pub after_poison: Vec<String>,
}

/// Build the parts of the poison response around the poison: the template's
/// document up to the poison; then the document up to the links, the links
/// (or "None"), and the end of the document.
pub fn build_response_parts<T: Template>(
    builder: &TemplateBuilder<T>,
    link_settings: &LinkSettings,
    titles: &Vec<&'static str>,
) -> (r: ResponseParts)
    requires
        link_settings matches LinkSettings::Links(l) ==> titles@.len() == l.count,
    ensures
        views_of(r.before_poison@) == start_to_poison_items(builder.template_spec()),
        exists|links: Seq<Seq<char>>|
            is_links_section(links, *link_settings, views_of(titles@)) && string_views(r.after_poison@)
                == poison_to_links_items(builder.template_spec()) + links + links_to_end_items(
                builder.template_spec(),
            ),
{
    let mut start = builder.start_to_poison();
    let before_poison = start.collect_all();
    let mut middle = builder.poison_to_links();
    let middle = middle.collect_all();
    let links: Vec<String> = match link_settings {
        LinkSettings::NoLinks => vec![<String as StringExecFns>::from_str(NO_LINKS)],
        LinkSettings::Links(l) => build_links(l, titles),
    };
    let mut end = builder.links_to_end();
    let end = end.collect_all();
    let mut after_poison: Vec<String> = Vec::new();
    let mut i: usize = 0;
    while i < middle.len()
        invariant
            i <= middle@.len(),
            string_views(after_poison@) == views_of(middle@).take(i as int),
        decreases middle@.len() - i,
    {
        let ghost prev = after_poison@;
        let item = <String as StringExecFns>::from_str(middle[i]);
        after_poison.push(item);
        assert(string_views(after_poison@) =~= string_views(prev).push(middle@[i as int]@));
        assert(views_of(middle@).take(i + 1) =~= views_of(middle@).take(i as int).push(middle@[i as int]@));
        i = i + 1;
    }
    let ghost before_links = string_views(after_poison@);
    let mut links = links;
    let ghost link_views = string_views(links@);
    after_poison.append(&mut links);
    assert(string_views(after_poison@) =~= before_links + link_views);
    let ghost after_links = string_views(after_poison@);
    let mut i: usize = 0;
    while i < end.len()
        invariant
            i <= end@.len(),
            string_views(after_poison@) == after_links + views_of(end@).take(i as int),
        decreases end@.len() - i,
    {
        let ghost prev = after_poison@;
        let item = <String as StringExecFns>::from_str(end[i]);
        after_poison.push(item);
        assert(string_views(after_poison@) =~= string_views(prev).push(end@[i as int]@));
        assert(views_of(end@).take(i + 1) =~= views_of(end@).take(i as int).push(end@[i as int]@));
        i = i + 1;
    }
    proof {
        assert(views_of(middle@).take(middle@.len() as int) =~= views_of(middle@));
        assert(views_of(end@).take(end@.len() as int) =~= views_of(end@));
        reveal_strlit("None");
        if link_settings is NoLinks {
            assert(link_views =~= seq![NO_LINKS@]);
        }
        assert(is_links_section(link_views, *link_settings, views_of(titles@)));
        assert(string_views(after_poison@) =~= poison_to_links_items(builder.template_spec()) + link_views
            + links_to_end_items(builder.template_spec()));
    }
    ResponseParts { before_poison, after_poison }
}

} // verus!
