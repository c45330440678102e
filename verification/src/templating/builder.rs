//! Frames a response document with a response template (`Templater`).
use vstd::prelude::*;

use crate::templates::template::{parts_items, Part, TemplateIter};
use crate::templates::{
    CLOSE_LINKS, CLOSE_POISON, DOC_END, DOC_START, OPEN_LINKS, OPEN_POISON, STYLES_TO_BODY,
    TITLE_TO_STYLES,
};
use crate::templating::template_trait::Templater;

verus! {

/// What the first section yields: from the start of the document up to the
/// poisoned data.  Response templates carry no styles of their own.
pub open spec fn templater_start_items<T: Templater>(t: T) -> Seq<Seq<char>> {
    seq![DOC_START@, t.title_spec(), TITLE_TO_STYLES@, STYLES_TO_BODY@] + t.introduction_spec()
        + seq![OPEN_POISON@]
}

/// What the middle section yields: from the poisoned data to the links.
pub open spec fn templater_middle_items<T: Templater>(t: T) -> Seq<Seq<char>> {
    seq![CLOSE_POISON@] + t.follow_up_spec() + seq![OPEN_LINKS@]
}

/// What the last section yields: from the links to the end of the document.
pub open spec fn templater_end_items<T: Templater>(t: T) -> Seq<Seq<char>> {
    seq![CLOSE_LINKS@] + t.tail_spec() + seq![DOC_END@]
}

/// Frames a response document with one response template.
pub struct TemplateBuilder<T: Templater> {
    template: T,
}

impl<T: Templater> TemplateBuilder<T> {
    /// The template this builder frames documents with.
    pub closed spec fn template_spec(&self) -> T {
        self.template
    }

    /// A builder for the given template.
    pub fn with_template(template: T) -> (r: Self)
        ensures
            r.template_spec() == template,
    {
        TemplateBuilder { template }
    }

    /// The document from its start up to the poisoned data.
    pub fn start_to_poison(&self) -> (r: TemplateIter)
        ensures
            r@ == templater_start_items(self.template_spec()),
    {
        let title = self.template.title();
        let intro = self.template.introduction();
        let r = TemplateIter::new(
            vec![
                Part::Str(DOC_START),
                Part::Str(title),
                Part::Str(TITLE_TO_STYLES),
                Part::Str(STYLES_TO_BODY),
                Part::Iter(intro),
                Part::Str(OPEN_POISON),
            ],
        );
        proof {
            reveal_with_fuel(parts_items, 7);
            assert(r@ =~= templater_start_items(self.template));
        }
        r
    }

    /// The document from the poisoned data up to the links.
    pub fn poison_to_links(&self) -> (r: TemplateIter)
        ensures
            r@ == templater_middle_items(self.template_spec()),
    {
        let follow_up = self.template.follow_up();
        let r = TemplateIter::new(
            vec![Part::Str(CLOSE_POISON), Part::Iter(follow_up), Part::Str(OPEN_LINKS)],
        );
        proof {
            reveal_with_fuel(parts_items, 4);
            assert(r@ =~= templater_middle_items(self.template));
        }
        r
    }

    /// The document from the links to its end.
    pub fn links_to_end(&self) -> (r: TemplateIter)
        ensures
            r@ == templater_end_items(self.template_spec()),
    {
        let tail = self.template.tail();
        let r = TemplateIter::new(vec![Part::Str(CLOSE_LINKS), Part::Iter(tail), Part::Str(DOC_END)]);
        proof {
            reveal_with_fuel(parts_items, 4);
            assert(r@ =~= templater_end_items(self.template));
        }
        r
    }
}

} // verus!
