use miasma::config::LinkPrefix;
use miasma::poison::link_settings::{LinkSettings, LinkSettingsInner};
use miasma::poison::response_builder::{build_links, build_response_parts};
use miasma::templates::template::Template;
use miasma::templates::{
    template_at, TemplateBuilder, CLOSE_LINKS, CLOSE_POISON, DOC_END, DOC_START, OPEN_LINKS,
    OPEN_POISON,
};

fn is_uuid_v4(s: &str) -> bool {
    s.len() == 36
        && s.chars().enumerate().all(|(i, c)| {
            if [8, 13, 18, 23].contains(&i) {
                c == '-'
            } else {
                c.is_ascii_hexdigit() && !c.is_ascii_uppercase()
            }
        })
        && s.as_bytes()[14] == b'4'
}

#[test]
fn links_lead_to_fresh_ids_one_level_deeper() {
    let settings = LinkSettingsInner {
        count: 3,
        prefix: LinkPrefix::new("bots"),
        next_depth: Some(4),
    };
    let links = build_links(&settings, &vec!["one", "two", "three"]);
    assert_eq!(links.len(), 3);
    for (link, title) in links.iter().zip(["one", "two", "three"]) {
        let rest = link.strip_prefix("<li><a href=\"/bots/").unwrap();
        let (id, rest) = rest.split_at(36);
        assert!(is_uuid_v4(id), "{id}");
        assert_eq!(rest, format!("?page=4\">{title}</a></li>"));
    }
    assert_ne!(links[0][..60], links[1][..60]);
}

#[test]
fn links_without_depth_have_no_query() {
    let settings = LinkSettingsInner {
        count: 1,
        prefix: LinkPrefix::new("/"),
        next_depth: None,
    };
    let links = build_links(&settings, &vec!["t"]);
    assert!(links[0].ends_with("\">t</a></li>"));
    assert!(!links[0].contains('?'));
}

#[test]
fn response_parts_surround_the_poison_in_order() {
    let builder = TemplateBuilder::with_template(template_at(2));
    let parts = build_response_parts(&builder, &LinkSettings::NoLinks, &vec![]);
    assert_eq!(parts.before_poison[0], DOC_START);
    assert_eq!(parts.before_poison[1], template_at(2).title());
    assert_eq!(*parts.before_poison.last().unwrap(), OPEN_POISON);
    assert_eq!(parts.after_poison[0], CLOSE_POISON);
    let links_at = parts.after_poison.iter().position(|s| s == OPEN_LINKS).unwrap();
    assert_eq!(parts.after_poison[links_at + 1], "None");
    assert_eq!(parts.after_poison[links_at + 2], CLOSE_LINKS);
    assert_eq!(parts.after_poison.last().unwrap(), DOC_END);
}

#[test]
fn response_parts_carry_the_links() {
    let builder = TemplateBuilder::with_template(template_at(0));
    let settings = LinkSettings::Links(LinkSettingsInner {
        count: 2,
        prefix: LinkPrefix::new("/"),
        next_depth: None,
    });
    let parts = build_response_parts(&builder, &settings, &vec!["a", "b"]);
    let links_at = parts.after_poison.iter().position(|s| s == OPEN_LINKS).unwrap();
    assert!(parts.after_poison[links_at + 1].ends_with("\">a</a></li>"));
    assert!(parts.after_poison[links_at + 2].ends_with("\">b</a></li>"));
    assert_eq!(parts.after_poison[links_at + 3], CLOSE_LINKS);
}
