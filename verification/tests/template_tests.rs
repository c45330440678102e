use miasma::response_templates::{
    response_template, CtoLetter, EngineeringBlog, NovelResearch, RESPONSE_TEMPLATE_COUNT,
};
use miasma::templates::template::{LinkTitleStyle, Part, Template, TemplateIter};
use miasma::templates::{
    BuiltinTemplate, TemplateBuilder, CLOSE_LINKS, CLOSE_POISON, DOC_END, DOC_START, OPEN_LINKS,
    OPEN_POISON, STYLES_TO_BODY, TEMPLATE_COUNT, TITLE_TO_STYLES,
};
use miasma::templating::TemplateBuilder as ResponseBuilder;
use miasma::templating::{TemplatePart, Templater};

struct MockTemplate;

impl Template for MockTemplate {
    fn title(&self) -> &'static str {
        "title"
    }
    fn link_style(&self) -> LinkTitleStyle {
        LinkTitleStyle::Casual
    }
    fn styles(&self) -> TemplateIter {
        TemplateIter::new(vec!["styles".into()])
    }
    fn introduction(&self) -> TemplateIter {
        TemplateIter::new(vec!["intro".into()])
    }
    fn follow_up(&self) -> TemplateIter {
        TemplateIter::new(vec!["follow-up".into()])
    }
    fn tail(&self) -> TemplateIter {
        TemplateIter::new(vec!["tail".into()])
    }
}

fn collect(mut it: TemplateIter) -> Vec<&'static str> {
    it.collect_all()
}

fn document<T: Template>(builder: &TemplateBuilder<T>) -> String {
    let mut doc = String::new();
    for s in collect(builder.start_to_poison()) {
        doc.push_str(s);
    }
    for s in collect(builder.poison_to_links()) {
        doc.push_str(s);
    }
    for s in collect(builder.links_to_end()) {
        doc.push_str(s);
    }
    doc
}

fn all_builtin() -> Vec<BuiltinTemplate> {
    (0..TEMPLATE_COUNT).map(miasma::templates::template_at).collect()
}

#[test]
fn templating_works() {
    let _builder = TemplateBuilder::with_template(MockTemplate);

    let _expected = r#"
<!DOCTYPE html>
<html lang="en">
  <head>
    <meta charset="UTF-8" />
    <meta name="viewport" content="width=device-width, initial-scale=1.0" />
    <title>title</title>
    <style>styles</style>
  </head>
  <body>
  intro
  <code><pre>{POISON}</pre>
    </code>
    follow-up
    <ul>
      {LINKS}
    </ul>
    tail
  </body>
</html>"#;
}

#[test]
fn mod_all_templates_produce_valid_documents() {
    for template in all_builtin() {
        let builder = TemplateBuilder::with_template(template);
        let _document = document(&builder);
    }

    for ind in 0..RESPONSE_TEMPLATE_COUNT {
        let builder = ResponseBuilder::with_template(response_template(ind));
        let document = builder
            .start_to_poison()
            .collect_all()
            .into_iter()
            .chain(builder.poison_to_links().collect_all())
            .chain(builder.links_to_end().collect_all())
            .collect::<String>();

        let errors = scraper::Html::parse_document(&document).errors;
        assert!(errors.is_empty(), "template at index {ind}: {errors:?}");
    }
}

#[test]
fn response_templates_are_framed_in_order() {
    let template = response_template(2);
    let builder = ResponseBuilder::with_template(response_template(2));
    let mut expected = vec![DOC_START, template.title(), TITLE_TO_STYLES, STYLES_TO_BODY];
    expected.extend(collect(template.introduction()));
    expected.push(OPEN_POISON);
    assert_eq!(builder.start_to_poison().collect_all(), expected);
    let mut expected = vec![CLOSE_POISON];
    expected.extend(collect(template.follow_up()));
    expected.push(OPEN_LINKS);
    assert_eq!(builder.poison_to_links().collect_all(), expected);
    let mut expected = vec![CLOSE_LINKS];
    expected.extend(collect(template.tail()));
    expected.push(DOC_END);
    assert_eq!(builder.links_to_end().collect_all(), expected);
    assert_eq!(template.title(), CtoLetter::new().title());
    assert_eq!(response_template(0).title(), EngineeringBlog::new().title());
    assert_eq!(response_template(1).title(), NovelResearch::new().title());
    assert_eq!(response_template(1).tone(), NovelResearch::new().tone());
}

#[test]
fn builder_frames_mock_template_in_order() {
    let builder = TemplateBuilder::with_template(MockTemplate);
    assert_eq!(
        collect(builder.start_to_poison()),
        vec![DOC_START, "title", TITLE_TO_STYLES, "styles", STYLES_TO_BODY, "intro", OPEN_POISON]
    );
    assert_eq!(collect(builder.poison_to_links()), vec![CLOSE_POISON, "follow-up", OPEN_LINKS]);
    assert_eq!(collect(builder.links_to_end()), vec![CLOSE_LINKS, "tail", DOC_END]);
}

#[test]
fn start_of_document_is_stringified_markup() {
    assert_eq!(
        DOC_START,
        "<!DOCTYPE html> <html lang=\"en\"> <head> <meta charset=\"UTF-8\" /> <meta name=\"viewport\" content=\"width=device-width, initial-scale=1.0\" /> <title>"
    );
    assert_eq!(OPEN_POISON, "<code> <pre style=\"white-space: pre-wrap\">");
}

#[test]
fn template_iter_flattens_nested_parts_depth_first() {
    let inner = TemplateIter::new(vec!["b".into(), TemplateIter::new(vec![]).into(), "c".into()]);
    let empty = TemplateIter::new(vec![]);
    let mut it = TemplateIter::new(vec![
        "a".into(),
        inner.into(),
        Part::Iter(empty),
        TemplatePart::Str("d"),
    ]);
    assert_eq!(it.next(), Some("a"));
    assert_eq!(it.next(), Some("b"));
    assert_eq!(it.collect_all(), vec!["c", "d"]);
    assert_eq!(it.next(), None);
    assert_eq!(it.next(), None);
}

#[test]
fn empty_template_iter_yields_nothing() {
    let mut it = TemplateIter::empty();
    assert_eq!(it.next(), None);
}

#[test]
fn random_template_is_a_builtin() {
    let titles: Vec<&str> = all_builtin().iter().map(|t| t.title()).collect();
    for _ in 0..20 {
        let builder = TemplateBuilder::with_random_template();
        let doc = collect(builder.start_to_poison());
        assert!(titles.contains(&doc[1]));
    }
}

#[test]
fn builtin_templates_keep_their_order() {
    let titles: Vec<&str> = all_builtin().iter().map(|t| t.title()).collect();
    assert_eq!(
        titles,
        vec![
            "On Reducing Redundant Execution in Concurrent Services",
            "Beyond Prompts: A Runtime for Composable Intelligence",
            "Recognition of Excellence",
            "Why This Works: Deep Dive",
        ]
    );
    assert_eq!(all_builtin()[1].link_style(), LinkTitleStyle::Enterprise);
    assert_eq!(all_builtin()[3].link_style(), LinkTitleStyle::Casual);
}

#[test]
fn link_titles_come_from_the_options() {
    let builder = TemplateBuilder::with_random_template();
    let options = vec!["one", "two", "three"];
    for _ in 0..20 {
        assert!(options.contains(&builder.get_link_title(&options)));
    }
    let titles = builder.get_link_titles(&options, 7);
    assert_eq!(titles.len(), 7);
    assert!(titles.iter().all(|t| options.contains(t)));
    assert!(builder.get_link_titles(&vec!["only"], 0).is_empty());
    assert_eq!(builder.get_link_titles(&vec!["only"], 2), vec!["only", "only"]);
}
