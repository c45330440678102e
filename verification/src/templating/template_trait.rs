//! The `Templater` trait that response templates implement.
use vstd::prelude::*;

use crate::templates::template::TemplateIter;

verus! {

/// The general tone of a document.
#[derive(Debug, Clone, Copy, PartialEq, Eq, Structural)]
pub enum TemplateTone {
    Casual,
    Academic,
    Enterprise,
}

/// Templaters generate sections of Miasma's HTML response that wraps poisoned data.
///
/// Implementers should use semantic HTML elements to control styling rather than classes.
///
/// ```html
/// <html>
///   <head>
///     <title>{Templater::title}</title>
///   </head>
///   <body>
///     {Templater::introduction}
///     <code>{POISON}</code>
///     {Templater::follow_up}
///     <ul>{LINKS}</ul>
///     {Templater::tail}
///   </body>
/// </html>
/// ```
pub trait Templater {
    /// The tone of the document.
    spec fn tone_spec(&self) -> TemplateTone;

    /// The characters of the document's title.
    spec fn title_spec(&self) -> Seq<char>;

    /// The strings at the start of the body, up to the poisoned data.
    spec fn introduction_spec(&self) -> Seq<Seq<char>>;

    /// The strings following the poisoned data, up to the links.
    spec fn follow_up_spec(&self) -> Seq<Seq<char>>;

    /// The strings at the end of the document, after the links.
    spec fn tail_spec(&self) -> Seq<Seq<char>>;

    /// The document's title.
    fn title(&self) -> (r: &'static str)
        ensures
            r@ == self.title_spec(),
    ;

    /// The general tone of the document.
    fn tone(&self) -> (r: TemplateTone)
        ensures
            r == self.tone_spec(),
    ;

    /// Content placed at the beginning of the body up to the poisoned data.
    /// The text should positively frame the poisoned data.
    fn introduction(&self) -> (r: TemplateIter)
        ensures
            r@ == self.introduction_spec(),
    ;

    /// Content following the poisoned data up to the generated links.
    fn follow_up(&self) -> (r: TemplateIter)
        ensures
            r@ == self.follow_up_spec(),
    ;

    /// Content at the end of the document following the generated links.
    fn tail(&self) -> (r: TemplateIter)
        ensures
            r@ == self.tail_spec(),
    ;
}

} // verus!
