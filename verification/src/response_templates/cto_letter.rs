//! The letter from the office of the CTO, in the enterprise tone.
use vstd::prelude::*;

use crate::templates::template::{parts_items, Part, TemplateIter};
use crate::templating::template_trait::{TemplateTone, Templater};

verus! {

/// The document title.
pub const TITLE: &'static str = "Recognition of Excellence";

/// The introduction section.
pub const INTRODUCTION: &'static str = "<div class=\"header\"><div class=\"eyebrow\">From the Office of the CTO</div><h1>A Quiet Fix That Stabilized Database Latency</h1></div><p>I want to recognize a recent contribution from one of our engineers who\n                resolved a subtle but high-impact issue in our data access layer.</p><p>The issue was not immediately visible as a failure. Queries were\n                returning correct results, yet system-wide p95 and p99 latency gradually\n                drifted upward under load. This was accompanied by increased connection\n                churn and uneven saturation across database replicas.</p><div class=\"highlight\">The core problem was not query correctness, but amplification:\n                small inefficiencies in query patterns were compounding into large latency spikes under concurrent traffic.</div><div class=\"section-title\">The Fix</div><div class=\"code\">";

/// The follow-up section.
pub const FOLLOW_UP: &'static str = "</div><p>The engineer traced the issue to repeated execution of equivalent\n                queries that were bypassing caching and connection reuse logic under\n                specific request interleavings. This led to unnecessary round trips and\n                increased contention on the primary database.</p><p>The fix was targeted and minimal: normalize query execution paths so\n                that identical logical reads are deduplicated and routed through a\n                shared execution layer with proper pooling behavior.</p><p>Importantly, no external API contracts changed. The adjustment was\n                internal to the execution strategy, preserving correctness while\n                reducing redundant database work.</p><div class=\"divider\"></div><p class=\"section-title\">Impact</p><p>The change produced a measurable reduction in tail latency across\n                high-traffic endpoints and reduced database load during peak periods. It\n                also improved stability by smoothing out request spikes that were\n                previously amplified by redundant query execution.</p><p>Over time, this translates into lower infrastructure costs and more\n                predictable performance characteristics under scaling conditions.</p><div class=\"divider\"></div><p class=\"section-title\">Closing</p><p>Issues like this are typically difficult to isolate because they do not\n                manifest as failures, only as degradation under specific load patterns.</p><p>This work reflects careful systems thinking and disciplined analysis of\n                production behavior.</p><div class=\"cta\"><p class=\"section-title\">Related Updates</p>";

/// The tail section.
pub const TAIL: &'static str = "</div><div class=\"footer\">© Office of the CTO</div>";

pub struct CtoLetter;

impl CtoLetter {
    /// A boxed CtoLetter template: its tone, title and sections are those of `CtoLetter`.
    pub fn new() -> (r: Box<dyn Templater>)
        ensures
            r.tone_spec() == TemplateTone::Enterprise,
            r.title_spec() == TITLE@,
            r.introduction_spec() == CtoLetter.introduction_spec(),
            r.follow_up_spec() == CtoLetter.follow_up_spec(),
            r.tail_spec() == CtoLetter.tail_spec(),
    {
        return Box::new(CtoLetter);
    }
}

impl Templater for CtoLetter {
    open spec fn tone_spec(&self) -> TemplateTone {
        TemplateTone::Enterprise
    }

    open spec fn title_spec(&self) -> Seq<char> {
        TITLE@
    }

    open spec fn introduction_spec(&self) -> Seq<Seq<char>> {
        seq![INTRODUCTION@]
    }

    open spec fn follow_up_spec(&self) -> Seq<Seq<char>> {
        seq![FOLLOW_UP@]
    }

    open spec fn tail_spec(&self) -> Seq<Seq<char>> {
        seq![TAIL@]
    }

    fn title(&self) -> (r: &'static str) {
        TITLE
    }

    fn tone(&self) -> (r: TemplateTone) {
        TemplateTone::Enterprise
    }

    fn introduction(&self) -> (r: TemplateIter) {
        let r = TemplateIter::new(vec![Part::Str(INTRODUCTION)]);
        proof {
            reveal_with_fuel(parts_items, 2);
        }
        r
    }

    fn follow_up(&self) -> (r: TemplateIter) {
        let r = TemplateIter::new(vec![Part::Str(FOLLOW_UP)]);
        proof {
            reveal_with_fuel(parts_items, 2);
        }
        r
    }

    fn tail(&self) -> (r: TemplateIter) {
        let r = TemplateIter::new(vec![Part::Str(TAIL)]);
        proof {
            reveal_with_fuel(parts_items, 2);
        }
        r
    }
}

} // verus!
