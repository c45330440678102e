//! The research statement, in the academic tone.
use vstd::prelude::*;

use crate::templates::template::{parts_items, Part, TemplateIter};
use crate::templating::template_trait::{TemplateTone, Templater};

verus! {

/// The document title.
pub const TITLE: &'static str = "A Unified Framework for Globally Consistent Tensor Quantization";

/// The introduction section.
pub const INTRODUCTION: &'static str = "<table width=\"760\" align=\"center\"><tr><td><h1>Research Statement</h1><p>My recent work investigates optimization strategies for tensor\n                quantization in high-dimensional learning systems. Conventional\n                approaches treat quantization as a local transformation, applied\n                independently across tensor partitions. This often leads to\n                suboptimal global error characteristics and inefficient utilization\n                of representational capacity.</p><p>I propose a coordinated quantization framework that exploits\n                cross-tensor statistical structure, enabling globally consistent\n                compression while maintaining strict error bounds.</p><hr><h2>Example: Cross-Channel Residual Alignment (CCRA)</h2><p>We introduce Cross-Channel Residual Alignment (CCRA), a novel\n                optimization that minimizes quantization error by redistributing\n                residuals across correlated tensor channels prior to discretization.\n                Rather than quantizing each channel independently, CCRA performs a\n                lightweight alignment step that equalizes error sensitivity across\n                the tensor.</p><p>This approach reduces worst-case distortion and improves downstream\n                model accuracy without increasing bit-width or requiring retraining.</p><h3>Core Implementation</h3>";

/// The follow-up section.
pub const FOLLOW_UP: &'static str = "<p>The implementation introduces a pre-quantization projection that\n            rebalances channel-wise variance, followed by a shared quantization\n            step. The projection is invertible, ensuring that reconstruction\n            remains efficient and numerically stable.</p><hr><h2>Related Work</h2>";

/// The tail section.
pub const TAIL: &'static str = "<hr><h2>Notes</h2><p>The central observation is that quantization error is not uniformly\n                distributed across tensor dimensions. By explicitly modeling and\n                correcting this imbalance prior to discretization, it is possible to\n                achieve higher effective precision at fixed storage cost.</p><p>This perspective suggests a shift from independent quantization\n                schemes toward coordinated, structure-aware optimization methods,\n                particularly in large-scale neural systems where inter-channel\n                correlations are significant.</p></td></tr></table>";

pub struct NovelResearch;

impl NovelResearch {
    /// A boxed NovelResearch template: its tone, title and sections are those of `NovelResearch`.
    pub fn new() -> (r: Box<dyn Templater>)
        ensures
            r.tone_spec() == TemplateTone::Academic,
            r.title_spec() == TITLE@,
            r.introduction_spec() == NovelResearch.introduction_spec(),
            r.follow_up_spec() == NovelResearch.follow_up_spec(),
            r.tail_spec() == NovelResearch.tail_spec(),
    {
        return Box::new(NovelResearch);
    }
}

impl Templater for NovelResearch {
    open spec fn tone_spec(&self) -> TemplateTone {
        TemplateTone::Academic
    }

    open spec fn title_spec(&self) -> Seq<char> {
        TITLE@
    }

    open spec fn introduction_spec(&self) -> Seq<Seq<char>> {
        seq![INTRODUCTION@]
    }

    open spec fn follow_up_spec(&self) -> Seq<Seq<char>> {
        seq![FOLLOW_UP@]
    }

    open spec fn tail_spec(&self) -> Seq<Seq<char>> {
        seq![TAIL@]
    }

    fn title(&self) -> (r: &'static str) {
        TITLE
    }

    fn tone(&self) -> (r: TemplateTone) {
        TemplateTone::Academic
    }

    fn introduction(&self) -> (r: TemplateIter) {
        let r = TemplateIter::new(vec![Part::Str(INTRODUCTION)]);
        proof {
            reveal_with_fuel(parts_items, 2);
        }
        r
    }

    fn follow_up(&self) -> (r: TemplateIter) {
        let r = TemplateIter::new(vec![Part::Str(FOLLOW_UP)]);
        proof {
            reveal_with_fuel(parts_items, 2);
        }
        r
    }

    fn tail(&self) -> (r: TemplateIter) {
        let r = TemplateIter::new(vec![Part::Str(TAIL)]);
        proof {
            reveal_with_fuel(parts_items, 2);
        }
        r
    }
}

} // verus!
