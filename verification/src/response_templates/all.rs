//! The response templates, in the order they are offered.
use vstd::prelude::*;

use crate::response_templates::{CtoLetter, EngineeringBlog, NovelResearch};
use crate::templates::template::TemplateIter;
use crate::templating::template_trait::{TemplateTone, Templater};

verus! {

/// Number of response templates.
pub const RESPONSE_TEMPLATE_COUNT: usize = 3;

/// One of the response templates.
pub enum ResponseTemplate {
    EngineeringBlog(EngineeringBlog),
    NovelResearch(NovelResearch),
    CtoLetter(CtoLetter),
}

/// The response template at index `i` (the last one for any index past it).
pub open spec fn response_template_spec(i: int) -> ResponseTemplate {
    if i == 0 {
        ResponseTemplate::EngineeringBlog(EngineeringBlog)
    } else if i == 1 {
        ResponseTemplate::NovelResearch(NovelResearch)
    } else {
        ResponseTemplate::CtoLetter(CtoLetter)
    }
}

/// The response template at index `i` (the last one for any index past it).
pub fn response_template(i: usize) -> (r: ResponseTemplate)
    ensures
        r == response_template_spec(i as int),
{
    if i == 0 {
        ResponseTemplate::EngineeringBlog(EngineeringBlog)
    } else if i == 1 {
        ResponseTemplate::NovelResearch(NovelResearch)
    } else {
        ResponseTemplate::CtoLetter(CtoLetter)
    }
}

impl Templater for ResponseTemplate {
    open spec fn tone_spec(&self) -> TemplateTone {
        match self {
            ResponseTemplate::EngineeringBlog(t) => t.tone_spec(),
            ResponseTemplate::NovelResearch(t) => t.tone_spec(),
            ResponseTemplate::CtoLetter(t) => t.tone_spec(),
        }
    }

    open spec fn title_spec(&self) -> Seq<char> {
        match self {
            ResponseTemplate::EngineeringBlog(t) => t.title_spec(),
            ResponseTemplate::NovelResearch(t) => t.title_spec(),
            ResponseTemplate::CtoLetter(t) => t.title_spec(),
        }
    }

    open spec fn introduction_spec(&self) -> Seq<Seq<char>> {
        match self {
            ResponseTemplate::EngineeringBlog(t) => t.introduction_spec(),
            ResponseTemplate::NovelResearch(t) => t.introduction_spec(),
            ResponseTemplate::CtoLetter(t) => t.introduction_spec(),
        }
    }

    open spec fn follow_up_spec(&self) -> Seq<Seq<char>> {
        match self {
            ResponseTemplate::EngineeringBlog(t) => t.follow_up_spec(),
            ResponseTemplate::NovelResearch(t) => t.follow_up_spec(),
            ResponseTemplate::CtoLetter(t) => t.follow_up_spec(),
        }
    }

    open spec fn tail_spec(&self) -> Seq<Seq<char>> {
        match self {
            ResponseTemplate::EngineeringBlog(t) => t.tail_spec(),
            ResponseTemplate::NovelResearch(t) => t.tail_spec(),
            ResponseTemplate::CtoLetter(t) => t.tail_spec(),
        }
    }

    fn title(&self) -> (r: &'static str) {
        match self {
            ResponseTemplate::EngineeringBlog(t) => t.title(),
            ResponseTemplate::NovelResearch(t) => t.title(),
            ResponseTemplate::CtoLetter(t) => t.title(),
        }
    }

    fn tone(&self) -> (r: TemplateTone) {
        match self {
            ResponseTemplate::EngineeringBlog(t) => t.tone(),
            ResponseTemplate::NovelResearch(t) => t.tone(),
            ResponseTemplate::CtoLetter(t) => t.tone(),
        }
    }

    fn introduction(&self) -> (r: TemplateIter) {
        match self {
            ResponseTemplate::EngineeringBlog(t) => t.introduction(),
            ResponseTemplate::NovelResearch(t) => t.introduction(),
            ResponseTemplate::CtoLetter(t) => t.introduction(),
        }
    }

    fn follow_up(&self) -> (r: TemplateIter) {
        match self {
            ResponseTemplate::EngineeringBlog(t) => t.follow_up(),
            ResponseTemplate::NovelResearch(t) => t.follow_up(),
            ResponseTemplate::CtoLetter(t) => t.follow_up(),
        }
    }

    fn tail(&self) -> (r: TemplateIter) {
        match self {
            ResponseTemplate::EngineeringBlog(t) => t.tail(),
            ResponseTemplate::NovelResearch(t) => t.tail(),
            ResponseTemplate::CtoLetter(t) => t.tail(),
        }
    }
}

} // verus!
