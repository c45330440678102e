//! HTML templates that wrap the poisoned data, and the builder that frames a
//! response document with one of them.
pub mod ai_native;
pub mod cto_letter;
pub mod deep_dive;
pub mod engineering_blog;
pub mod template;

use vstd::prelude::*;

use crate::templates::ai_native::AINative;
use crate::templates::cto_letter::CtoLetter;
use crate::templates::deep_dive::DeepDive;
use crate::templates::engineering_blog::EngineeringBlog;
use crate::templates::template::{parts_items, LinkTitleStyle, Part, Template, TemplateIter};

verus! {

/// The number of built-in templates.
pub const TEMPLATE_COUNT: usize = 4;

/// Document start, up to the title.
pub const DOC_START: &'static str = "<!DOCTYPE html> <html lang=\"en\"> <head> <meta charset=\"UTF-8\" /> <meta name=\"viewport\" content=\"width=device-width, initial-scale=1.0\" /> <title>";

/// From the title to the styles.
pub const TITLE_TO_STYLES: &'static str = "</title> <style>";

/// From the styles to the start of the body.
pub const STYLES_TO_BODY: &'static str = "</style> </head> <body>";

/// Opens the block that holds the poisoned data.
pub const OPEN_POISON: &'static str = "<code> <pre style=\"white-space: pre-wrap\">";

/// Closes the block that holds the poisoned data.
pub const CLOSE_POISON: &'static str = "</pre> </code>";

/// Opens the list of links.
pub const OPEN_LINKS: &'static str = "<ul>";

/// Closes the list of links.
pub const CLOSE_LINKS: &'static str = "</ul>";

/// Document end.
pub const DOC_END: &'static str = "</body> </html>";

/// One of the built-in templates.
pub enum BuiltinTemplate {
    EngineeringBlog(EngineeringBlog),
    AINative(AINative),
    CtoLetter(CtoLetter),
    DeepDive(DeepDive),
}

/// The built-in template at index `i` (the last one for any index past it).
pub open spec fn builtin_template(i: int) -> BuiltinTemplate {
    if i == 0 {
        BuiltinTemplate::EngineeringBlog(EngineeringBlog)
    } else if i == 1 {
        BuiltinTemplate::AINative(AINative)
    } else if i == 2 {
        BuiltinTemplate::CtoLetter(CtoLetter)
    } else {
        BuiltinTemplate::DeepDive(DeepDive)
    }
}

/// The built-in template at index `i` (the last one for any index past it).
pub fn template_at(i: usize) -> (r: BuiltinTemplate)
    ensures
        r == builtin_template(i as int),
{
    if i == 0 {
        BuiltinTemplate::EngineeringBlog(EngineeringBlog)
    } else if i == 1 {
        BuiltinTemplate::AINative(AINative)
    } else if i == 2 {
        BuiltinTemplate::CtoLetter(CtoLetter)
    } else {
        BuiltinTemplate::DeepDive(DeepDive)
    }
}

impl Template for BuiltinTemplate {
    open spec fn link_style_spec(&self) -> LinkTitleStyle {
        match self {
            BuiltinTemplate::EngineeringBlog(t) => t.link_style_spec(),
            BuiltinTemplate::AINative(t) => t.link_style_spec(),
            BuiltinTemplate::CtoLetter(t) => t.link_style_spec(),
            BuiltinTemplate::DeepDive(t) => t.link_style_spec(),
        }
    }

    open spec fn title_spec(&self) -> Seq<char> {
        match self {
            BuiltinTemplate::EngineeringBlog(t) => t.title_spec(),
            BuiltinTemplate::AINative(t) => t.title_spec(),
            BuiltinTemplate::CtoLetter(t) => t.title_spec(),
            BuiltinTemplate::DeepDive(t) => t.title_spec(),
        }
    }

    open spec fn styles_spec(&self) -> Seq<Seq<char>> {
        match self {
            BuiltinTemplate::EngineeringBlog(t) => t.styles_spec(),
            BuiltinTemplate::AINative(t) => t.styles_spec(),
            BuiltinTemplate::CtoLetter(t) => t.styles_spec(),
            BuiltinTemplate::DeepDive(t) => t.styles_spec(),
        }
    }

    open spec fn introduction_spec(&self) -> Seq<Seq<char>> {
        match self {
            BuiltinTemplate::EngineeringBlog(t) => t.introduction_spec(),
            BuiltinTemplate::AINative(t) => t.introduction_spec(),
            BuiltinTemplate::CtoLetter(t) => t.introduction_spec(),
            BuiltinTemplate::DeepDive(t) => t.introduction_spec(),
        }
    }

    open spec fn follow_up_spec(&self) -> Seq<Seq<char>> {
        match self {
            BuiltinTemplate::EngineeringBlog(t) => t.follow_up_spec(),
            BuiltinTemplate::AINative(t) => t.follow_up_spec(),
            BuiltinTemplate::CtoLetter(t) => t.follow_up_spec(),
            BuiltinTemplate::DeepDive(t) => t.follow_up_spec(),
        }
    }

    open spec fn tail_spec(&self) -> Seq<Seq<char>> {
        match self {
            BuiltinTemplate::EngineeringBlog(t) => t.tail_spec(),
            BuiltinTemplate::AINative(t) => t.tail_spec(),
            BuiltinTemplate::CtoLetter(t) => t.tail_spec(),
            BuiltinTemplate::DeepDive(t) => t.tail_spec(),
        }
    }

    fn title(&self) -> (r: &'static str) {
        match self {
            BuiltinTemplate::EngineeringBlog(t) => t.title(),
            BuiltinTemplate::AINative(t) => t.title(),
            BuiltinTemplate::CtoLetter(t) => t.title(),
            BuiltinTemplate::DeepDive(t) => t.title(),
        }
    }

    fn link_style(&self) -> (r: LinkTitleStyle) {
        match self {
            BuiltinTemplate::EngineeringBlog(t) => t.link_style(),
            BuiltinTemplate::AINative(t) => t.link_style(),
            BuiltinTemplate::CtoLetter(t) => t.link_style(),
            BuiltinTemplate::DeepDive(t) => t.link_style(),
        }
    }

    fn styles(&self) -> (r: TemplateIter) {
        match self {
            BuiltinTemplate::EngineeringBlog(t) => t.styles(),
            BuiltinTemplate::AINative(t) => t.styles(),
            BuiltinTemplate::CtoLetter(t) => t.styles(),
            BuiltinTemplate::DeepDive(t) => t.styles(),
        }
    }

    fn introduction(&self) -> (r: TemplateIter) {
        match self {
            BuiltinTemplate::EngineeringBlog(t) => t.introduction(),
            BuiltinTemplate::AINative(t) => t.introduction(),
            BuiltinTemplate::CtoLetter(t) => t.introduction(),
            BuiltinTemplate::DeepDive(t) => t.introduction(),
        }
    }

    fn follow_up(&self) -> (r: TemplateIter) {
        match self {
            BuiltinTemplate::EngineeringBlog(t) => t.follow_up(),
            BuiltinTemplate::AINative(t) => t.follow_up(),
            BuiltinTemplate::CtoLetter(t) => t.follow_up(),
            BuiltinTemplate::DeepDive(t) => t.follow_up(),
        }
    }

    fn tail(&self) -> (r: TemplateIter) {
        match self {
            BuiltinTemplate::EngineeringBlog(t) => t.tail(),
            BuiltinTemplate::AINative(t) => t.tail(),
            BuiltinTemplate::CtoLetter(t) => t.tail(),
            BuiltinTemplate::DeepDive(t) => t.tail(),
        }
    }
}

/// Picks an index below `len` uniformly at random, from the thread-local
/// generator (`rand::rng` and `Rng::random_range`).  The result depends on
/// chance: the contract states only its range.
#[verifier::external_body]
fn random_index(len: usize) -> (r: usize)
    requires
        len > 0,
    ensures
        r < len,
{
    let mut rng = rand::rng();
    rand::Rng::random_range(&mut rng, std::ops::Range { start: 0, end: len })
}

/// What the first section of a document yields: from its start to the poisoned data.
pub open spec fn start_to_poison_items<T: Template>(t: T) -> Seq<Seq<char>> {
    seq![DOC_START@, t.title_spec(), TITLE_TO_STYLES@] + t.styles_spec() + seq![STYLES_TO_BODY@]
        + t.introduction_spec() + seq![OPEN_POISON@]
}

/// What the middle section yields: from the poisoned data to the links.
pub open spec fn poison_to_links_items<T: Template>(t: T) -> Seq<Seq<char>> {
    seq![CLOSE_POISON@] + t.follow_up_spec() + seq![OPEN_LINKS@]
}

/// What the last section yields: from the links to the end of the document.
pub open spec fn links_to_end_items<T: Template>(t: T) -> Seq<Seq<char>> {
    seq![CLOSE_LINKS@] + t.tail_spec() + seq![DOC_END@]
}

/// Frames a response document with one template.
pub struct TemplateBuilder<T: Template> {
    template: T,
}

impl<T: Template> TemplateBuilder<T> {
    /// The template this builder frames documents with.
    pub closed spec fn template_spec(&self) -> T {
        self.template
    }

    /// A builder for the given template.
    pub fn with_template(template: T) -> (r: Self)
        ensures
            r.template_spec() == template,
    {
        TemplateBuilder { template }
    }

    /// The template this builder frames documents with.
    pub fn template(&self) -> (r: &T)
        ensures
            *r == self.template_spec(),
    {
        &self.template
    }

    /// A random link title among `options`, the titles of the template's
    /// link style.
    pub fn get_link_title(&self, options: &Vec<&'static str>) -> (r: &'static str)
        requires
            options@.len() > 0,
        ensures
            options@.contains(r),
    {
        let i = random_index(options.len());
        options[i]
    }

    /// `count` link titles, each picked at random among `options`.
    pub fn get_link_titles(&self, options: &Vec<&'static str>, count: u8) -> (r: Vec<&'static str>)
        requires
            options@.len() > 0,
        ensures
            r@.len() == count,
            forall|i: int| 0 <= i < r@.len() ==> options@.contains(#[trigger] r@[i]),
    {
        let mut r: Vec<&'static str> = Vec::new();
        let mut k: u8 = 0;
        while k < count
            invariant
                options@.len() > 0,
                k <= count,
                r@.len() == k,
                forall|i: int| 0 <= i < r@.len() ==> options@.contains(#[trigger] r@[i]),
            decreases count - k,
        {
            let title = self.get_link_title(options);
            r.push(title);
            k = k + 1;
        }
        r
    }

    /// The document from its start up to the poisoned data.
    pub fn start_to_poison(&self) -> (r: TemplateIter)
        ensures
            r@ == start_to_poison_items(self.template_spec()),
    {
        let t = &self.template;
        let r = TemplateIter::new(
            vec![
                Part::Str(DOC_START),
                Part::Str(t.title()),
                Part::Str(TITLE_TO_STYLES),
                Part::Iter(t.styles()),
                Part::Str(STYLES_TO_BODY),
                Part::Iter(t.introduction()),
                Part::Str(OPEN_POISON),
            ],
        );
        proof {
            reveal_with_fuel(parts_items, 8);
            assert(r@ =~= start_to_poison_items(self.template));
        }
        r
    }

    /// The document from the poisoned data up to the links.
    pub fn poison_to_links(&self) -> (r: TemplateIter)
        ensures
            r@ == poison_to_links_items(self.template_spec()),
    {
        let t = &self.template;
        let r = TemplateIter::new(
            vec![Part::Str(CLOSE_POISON), Part::Iter(t.follow_up()), Part::Str(OPEN_LINKS)],
        );
        proof {
            reveal_with_fuel(parts_items, 4);
            assert(r@ =~= poison_to_links_items(self.template));
        }
        r
    }

    /// The document from the links to its end.
    pub fn links_to_end(&self) -> (r: TemplateIter)
        ensures
            r@ == links_to_end_items(self.template_spec()),
    {
        let t = &self.template;
        let r = TemplateIter::new(
            vec![Part::Str(CLOSE_LINKS), Part::Iter(t.tail()), Part::Str(DOC_END)],
        );
        proof {
            reveal_with_fuel(parts_items, 4);
            assert(r@ =~= links_to_end_items(self.template));
        }
        r
    }
}

impl TemplateBuilder<BuiltinTemplate> {
    /// A builder for one of the built-in templates, picked at random.
    pub fn with_random_template() -> (r: Self)
        ensures
            exists|i: int| 0 <= i < TEMPLATE_COUNT && r.template_spec() == builtin_template(i),
    {
        let i = random_index(TEMPLATE_COUNT);
        TemplateBuilder { template: template_at(i) }
    }
}

} // verus!
