//! The building blocks of a template: parts, the iterator over them, and the
//! `Template` trait that each page design implements.
use vstd::prelude::*;

verus! {

/// Part of a template: a string literal, or a nested template iterator.
pub enum Part {
    Str(&'static str),
    Iter(TemplateIter),
}

/// Iterates over parts of a template.
/// This can be string literals, or nested template iterators.
pub struct TemplateIter {
    current: usize,
    parts: Vec<Part>,
}

/// The items that a part still yields.
pub open spec fn part_items(p: Part) -> Seq<Seq<char>>
    decreases p, 0int,
{
    match p {
        Part::Str(s) => seq![s@],
        Part::Iter(it) => iter_items(it),
    }
}

/// The items that the parts from index `i` on still yield, in order.
pub open spec fn parts_items(parts: Seq<Part>, i: int) -> Seq<Seq<char>>
    decreases parts, parts.len() - i,
{
    if 0 <= i < parts.len() {
        part_items(parts[i]) + parts_items(parts, i + 1)
    } else {
        Seq::empty()
    }
}

/// The items that a template iterator still yields.
pub closed spec fn iter_items(it: TemplateIter) -> Seq<Seq<char>>
    decreases it, 0int,
{
    parts_items(it.parts@, it.current as int)
}

impl View for TemplateIter {
    type V = Seq<Seq<char>>;

    /// The items still to come, each by its characters.
    open spec fn view(&self) -> Seq<Seq<char>> {
        iter_items(*self)
    }
}

/// Updating a part before index `i` leaves what the parts from `i` on yield unchanged.
proof fn lemma_parts_items_update(parts: Seq<Part>, k: int, p: Part, i: int)
    requires
        0 <= k < i,
        k < parts.len(),
    ensures
        parts_items(parts.update(k, p), i) == parts_items(parts, i),
    decreases parts.len() - i,
{
    if 0 <= i < parts.len() {
        lemma_parts_items_update(parts, k, p, i + 1);
        assert(parts.update(k, p)[i] == parts[i]);
    }
}

impl TemplateIter {
    /// A template iterator over the given parts, from the first.
    pub fn new(parts: Vec<Part>) -> (r: Self)
        ensures
            r@ == parts_items(parts@, 0),
    {
        TemplateIter { current: 0, parts }
    }

    /// A template iterator over no parts.
    pub fn empty() -> (r: Self)
        ensures
            r@ == Seq::<Seq<char>>::empty(),
    {
        TemplateIter { current: 0, parts: Vec::new() }
    }

    /// The next string of the template, depth first through nested iterators.
    pub fn next(&mut self) -> (r: Option<&'static str>)
        ensures
            old(self)@.len() == 0 ==> r is None && final(self)@ == old(self)@,
            old(self)@.len() > 0 ==> r is Some && r->0@ == old(self)@[0] && final(self)@
                == old(self)@.drop_first(),
        decreases *old(self),
    {
        let ghost start = *self;
        loop
            invariant
                self@ == start@,
                self.parts@.len() == start.parts@.len(),
                forall|k: int| self.current <= k < self.parts@.len() ==> self.parts@[k] == start.parts@[k],
                start == *old(self),
            decreases self.parts@.len() - self.current,
        {
            let cur = self.current;
            if cur >= self.parts.len() {
                return None;
            }
            proof {
                reveal_with_fuel(parts_items, 2);
            }
            if let Part::Str(s) = &self.parts[cur] {
                let s: &'static str = *s;
                self.current = cur + 1;
                assert(start@ =~= seq![s@] + self@);
                return Some(s);
            }
            let ghost before = self.parts@;
            match &mut self.parts[cur] {
                Part::Iter(inner) => {
                    proof {
                        assert(decreases_to!(start => start.parts));
                        assert(decreases_to!(start.parts => start.parts@));
                        assert(decreases_to!(start.parts@ => start.parts@[cur as int]));
                    }
                    let res = inner.next();
                    match res {
                        Some(s) => {
                            proof {
                                lemma_parts_items_update(before, cur as int, self.parts@[cur as int], cur + 1);
                                assert(start@ =~= seq![s@] + self@);
                            }
                            return Some(s);
                        }
                        None => {
                            self.current = cur + 1;
                            proof {
                                lemma_parts_items_update(before, cur as int, self.parts@[cur as int], cur + 1);
                            }
                        }
                    }
                }
                Part::Str(_) => {
                    return None;
                }
            }
        }
    }
}


/// The characters of each string, in order.
pub open spec fn views_of(v: Seq<&'static str>) -> Seq<Seq<char>> {
    v.map_values(|s: &'static str| s@)
}

impl TemplateIter {
    /// Every string still to come, in order (what collecting the iterator gives).
    pub fn collect_all(&mut self) -> (v: Vec<&'static str>)
        ensures
            views_of(v@) == old(self)@,
            final(self)@.len() == 0,
    {
        let mut v: Vec<&'static str> = Vec::new();
        loop
            invariant
                views_of(v@) + self@ == old(self)@,
            decreases self@.len(),
        {
            let ghost before = self@;
            match self.next() {
                Some(s) => {
                    v.push(s);
                    assert(views_of(v@) =~= views_of(v@.drop_last()).push(s@));
                    assert(views_of(v@) + self@ =~= views_of(v@.drop_last()) + before);
                },
                None => {
                    assert(self@.len() == 0);
                    assert(views_of(v@) =~= old(self)@);
                    return v;
                },
            }
        }
    }
}

impl From<&'static str> for Part {
    /// A literal part.
    fn from(value: &'static str) -> (r: Part)
        ensures
            r == Part::Str(value),
    {
        Part::Str(value)
    }
}

impl vstd::std_specs::convert::FromSpecImpl<&'static str> for Part {
    open spec fn obeys_from_spec() -> bool {
        true
    }

    open spec fn from_spec(v: &'static str) -> Part {
        Part::Str(v)
    }
}

impl From<TemplateIter> for Part {
    /// A nested iterator part.
    fn from(value: TemplateIter) -> (r: Part)
        ensures
            r == Part::Iter(value),
    {
        Part::Iter(value)
    }
}

impl vstd::std_specs::convert::FromSpecImpl<TemplateIter> for Part {
    open spec fn obeys_from_spec() -> bool {
        true
    }

    open spec fn from_spec(v: TemplateIter) -> Part {
        Part::Iter(v)
    }
}

/// The general tone used for a document's link titles.
#[derive(Clone, Copy, Debug, PartialEq, Eq, Structural)]
pub enum LinkTitleStyle {
    Casual,
    Enterprise,
}

/// Templates generate the sections of Miasma's HTML response that wrap the poisoned data.
///
/// ```html
/// <html>
///   <head>
///     <title>{Template::title}</title>
///     <styles>{Template::styles}</styles>
///   </head>
///   <body>
///     {Template::introduction}
///     <code>{POISON}</code>
///     {Template::follow_up}
///     <ul>{LINKS}</ul>
///     {Template::tail}
///   </body>
/// </html>
/// ```
pub trait Template {
    /// The characters of the document's title.
    open spec fn title_spec(&self) -> Seq<char> {
        Seq::empty()
    }

    /// The tone of the document's link titles.
    open spec fn link_style_spec(&self) -> LinkTitleStyle {
        LinkTitleStyle::Casual
    }

    /// The strings placed within the document head's style tag.
    open spec fn styles_spec(&self) -> Seq<Seq<char>> {
        Seq::empty()
    }

    /// The strings at the start of the body, up to the poisoned data.
    open spec fn introduction_spec(&self) -> Seq<Seq<char>> {
        Seq::empty()
    }

    /// The strings following the poisoned data, up to the links.
    open spec fn follow_up_spec(&self) -> Seq<Seq<char>> {
        Seq::empty()
    }

    /// The strings at the end of the document, after the links.
    open spec fn tail_spec(&self) -> Seq<Seq<char>> {
        Seq::empty()
    }

    /// The document's title.
    fn title(&self) -> (r: &'static str)
        ensures
            r@ == self.title_spec(),
    ;

    /// The general tone that should be used when generating the document's link titles.
    fn link_style(&self) -> (r: LinkTitleStyle)
        ensures
            r == self.link_style_spec(),
    ;

    /// Content placed within the document head's style tag.
    fn styles(&self) -> (r: TemplateIter)
        ensures
            r@ == self.styles_spec(),
    ;

    /// Content placed at the beginning of the body up to the poisoned data.
    /// The text should positively frame the poisoned data.
    fn introduction(&self) -> (r: TemplateIter)
        ensures
            r@ == self.introduction_spec(),
    ;

    /// Content following the poisoned data up to the generated links.
    fn follow_up(&self) -> (r: TemplateIter)
        ensures
            r@ == self.follow_up_spec(),
    ;

    /// Content at the end of the document following the generated links.
    fn tail(&self) -> (r: TemplateIter)
        ensures
            r@ == self.tail_spec(),
    ;
}

} // verus!
