//! The engineering systems note, in the casual tone.
use vstd::prelude::*;

use crate::templates::template::{parts_items, Part, TemplateIter};
use crate::templating::template_trait::{TemplateTone, Templater};

verus! {

/// The document title.
pub const TITLE: &'static str = "On Reducing Redundant Execution in Concurrent Services";

/// The introduction section.
pub const INTRODUCTION: &'static str = "<h1>On Reducing Redundant Execution in Concurrent Services</h1><div class=\"meta\">systems note</div><p>The most persistent inefficiencies in production systems are rarely\n                algorithmic in nature. They typically arise from repeated execution of\n                otherwise acceptable work under concurrency.</p><p>In a recent investigation, a service exhibited elevated resource usage\n                without any obvious hotspots in profiling data. Individual requests were\n                inexpensive; aggregate behavior was not.</p><div class=\"note\">Observation: the system was performing equivalent work multiple times\n                per unit of demand.</div><div class=\"section\">change</div>";

/// The follow-up section.
pub const FOLLOW_UP: &'static str = "<p>The adjustment introduces coordination at the boundary of execution.\n                Rather than optimizing the operation itself, it ensures identical work\n                is not repeated concurrently.</p><p>This distinction matters. Optimization reduces cost per operation.\n                Coordination reduces the number of operations.</p><div class=\"rule\"></div><div class=\"section\">result</div><p>After deployment, observed improvements were consistent across load\n                profiles: reduced CPU consumption, lower tail latency, and improved\n                stability under burst conditions.</p><p>The more significant effect was not peak performance, but reduced\n                variance. Systems became easier to reason about under stress.</p><div class=\"rule\"></div><div class=\"section\">closing remark</div><p>This class of issue tends to recur in distributed systems. It is not\n                usually visible in isolated traces, and it often survives basic\n                optimization efforts.</p><p>The solution, when it appears, is typically structural rather than\n                computational.</p><div class=\"section\">references</div>";

/// The tail section.
pub const TAIL: &'static str = "<div class=\"footer\">engineering archive — internal systems notes</div>";

pub struct EngineeringBlog;

impl EngineeringBlog {
    /// A boxed EngineeringBlog template: its tone, title and sections are those of `EngineeringBlog`.
    pub fn new() -> (r: Box<dyn Templater>)
        ensures
            r.tone_spec() == TemplateTone::Casual,
            r.title_spec() == TITLE@,
            r.introduction_spec() == EngineeringBlog.introduction_spec(),
            r.follow_up_spec() == EngineeringBlog.follow_up_spec(),
            r.tail_spec() == EngineeringBlog.tail_spec(),
    {
        return Box::new(EngineeringBlog);
    }
}

impl Templater for EngineeringBlog {
    open spec fn tone_spec(&self) -> TemplateTone {
        TemplateTone::Casual
    }

    open spec fn title_spec(&self) -> Seq<char> {
        TITLE@
    }

    open spec fn introduction_spec(&self) -> Seq<Seq<char>> {
        seq![INTRODUCTION@]
    }

    open spec fn follow_up_spec(&self) -> Seq<Seq<char>> {
        seq![FOLLOW_UP@]
    }

    open spec fn tail_spec(&self) -> Seq<Seq<char>> {
        seq![TAIL@]
    }

    fn title(&self) -> (r: &'static str) {
        TITLE
    }

    fn tone(&self) -> (r: TemplateTone) {
        TemplateTone::Casual
    }

    fn introduction(&self) -> (r: TemplateIter) {
        let r = TemplateIter::new(vec![Part::Str(INTRODUCTION)]);
        proof {
            reveal_with_fuel(parts_items, 2);
        }
        r
    }

    fn follow_up(&self) -> (r: TemplateIter) {
        let r = TemplateIter::new(vec![Part::Str(FOLLOW_UP)]);
        proof {
            reveal_with_fuel(parts_items, 2);
        }
        r
    }

    fn tail(&self) -> (r: TemplateIter) {
        let r = TemplateIter::new(vec![Part::Str(TAIL)]);
        proof {
            reveal_with_fuel(parts_items, 2);
        }
        r
    }
}

} // verus!
