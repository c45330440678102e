//! Escaping of the poison's HTML special characters, byte by byte, so that
//! the poison shows as text.  The special characters are all ASCII, and an
//! ASCII byte never occurs inside a multi-byte UTF-8 character, so chunks of
//! a stream can be escaped one at a time wherever they were cut.
use vstd::prelude::*;

verus! {

/// The bytes that stand for one byte of the poison.
pub open spec fn escape_byte(b: u8) -> Seq<u8> {
    if b == 38 {
        seq![38u8, 97u8, 109u8, 112u8, 59u8]  // &amp;
    } else if b == 60 {
        seq![38u8, 108u8, 116u8, 59u8]  // &lt;
    } else if b == 62 {
        seq![38u8, 103u8, 116u8, 59u8]  // &gt;
    } else if b == 34 {
        seq![38u8, 113u8, 117u8, 111u8, 116u8, 59u8]  // &quot;
    } else if b == 39 {
        seq![38u8, 35u8, 51u8, 57u8, 59u8]  // &#39;
    } else {
        seq![b]
    }
}

/// The escaped form of a chunk: each byte replaced by `escape_byte`.
pub open spec fn escape_bytes(s: Seq<u8>) -> Seq<u8>
    decreases s.len(),
{
    if s.len() == 0 {
        Seq::empty()
    } else {
        escape_bytes(s.drop_last()) + escape_byte(s.last())
    }
}

/// Escapes a chunk of poison.
pub fn escape_html_bytes(chunk: &[u8]) -> (r: Vec<u8>)
    ensures
        r@ == escape_bytes(chunk@),
{
    let mut r: Vec<u8> = Vec::new();
    let mut i: usize = 0;
    while i < chunk.len()
        invariant
            i <= chunk@.len(),
            r@ == escape_bytes(chunk@.take(i as int)),
        decreases chunk@.len() - i,
    {
        let b = chunk[i];
        if b == 38 {
            r.push(38u8);
            r.push(97u8);
            r.push(109u8);
            r.push(112u8);
            r.push(59u8);
        } else if b == 60 {
            r.push(38u8);
            r.push(108u8);
            r.push(116u8);
            r.push(59u8);
        } else if b == 62 {
            r.push(38u8);
            r.push(103u8);
            r.push(116u8);
            r.push(59u8);
        } else if b == 34 {
            r.push(38u8);
            r.push(113u8);
            r.push(117u8);
            r.push(111u8);
            r.push(116u8);
            r.push(59u8);
        } else if b == 39 {
            r.push(38u8);
            r.push(35u8);
            r.push(51u8);
            r.push(57u8);
            r.push(59u8);
        } else {
            r.push(b);
        }
        assert(chunk@.take(i + 1).drop_last() =~= chunk@.take(i as int));
        assert(r@ =~= escape_bytes(chunk@.take(i as int)) + escape_byte(b));
        i = i + 1;
    }
    assert(chunk@.take(chunk@.len() as int) =~= chunk@);
    r
}

/// Escaping a stream chunk by chunk is escaping it whole: the escape of two
/// chunks one after the other is the escape of their concatenation.
pub proof fn lemma_escape_concat(a: Seq<u8>, b: Seq<u8>)
    ensures
        escape_bytes(a + b) == escape_bytes(a) + escape_bytes(b),
    decreases b.len(),
{
    if b.len() == 0 {
        assert(a + b =~= a);
        assert(escape_bytes(a) + escape_bytes(b) =~= escape_bytes(a));
    } else {
        lemma_escape_concat(a, b.drop_last());
        assert((a + b).drop_last() =~= a + b.drop_last());
        assert(escape_bytes(a + b) =~= escape_bytes(a) + escape_bytes(b));
    }
}

/// The escaped poison holds no '<', '>', '"' or '\'' byte: it cannot open or
/// close a tag or an attribute.
pub proof fn lemma_escaped_has_no_markup(s: Seq<u8>)
    ensures
        forall|i: int|
            0 <= i < escape_bytes(s).len() ==> {
                let c = #[trigger] escape_bytes(s)[i];
                c != 60 && c != 62 && c != 34 && c != 39
            },
    decreases s.len(),
{
    if s.len() > 0 {
        lemma_escaped_has_no_markup(s.drop_last());
        let front = escape_bytes(s.drop_last());
        let back = escape_byte(s.last());
        assert forall|i: int| 0 <= i < escape_bytes(s).len() implies {
            let c = #[trigger] escape_bytes(s)[i];
            c != 60 && c != 62 && c != 34 && c != 39
        } by {
            if i < front.len() {
                assert(escape_bytes(s)[i] == front[i]);
            } else {
                assert(escape_bytes(s)[i] == back[i - front.len()]);
            }
        }
    }
}

/// `t` starts with the bytes `e`.
pub open spec fn starts_with(t: Seq<u8>, e: Seq<u8>) -> bool {
    t.len() >= e.len() && t.subrange(0, e.len() as int) == e
}

/// The text a browser shows for HTML bytes: the entities `&amp;`, `&lt;`,
/// `&gt;`, `&quot;` and `&#39;` read as '&', '<', '>', '"' and '\'', every
/// other byte as itself.
pub open spec fn decode_entities(t: Seq<u8>) -> Seq<u8>
    decreases t.len(),
{
    if t.len() == 0 {
        Seq::empty()
    } else if starts_with(t, seq![38u8, 97u8, 109u8, 112u8, 59u8]) {
        seq![38u8] + decode_entities(t.subrange(5, t.len() as int))
    } else if starts_with(t, seq![38u8, 108u8, 116u8, 59u8]) {
        seq![60u8] + decode_entities(t.subrange(4, t.len() as int))
    } else if starts_with(t, seq![38u8, 103u8, 116u8, 59u8]) {
        seq![62u8] + decode_entities(t.subrange(4, t.len() as int))
    } else if starts_with(t, seq![38u8, 113u8, 117u8, 111u8, 116u8, 59u8]) {
        seq![34u8] + decode_entities(t.subrange(6, t.len() as int))
    } else if starts_with(t, seq![38u8, 35u8, 51u8, 57u8, 59u8]) {
        seq![39u8] + decode_entities(t.subrange(5, t.len() as int))
    } else {
        seq![t[0]] + decode_entities(t.subrange(1, t.len() as int))
    }
}

/// Decoding the escape of one byte followed by more bytes gives that byte,
/// then the decoding of the rest.
proof fn lemma_decode_escaped_byte(b: u8, rest: Seq<u8>)
    ensures
        decode_entities(escape_byte(b) + rest) == seq![b] + decode_entities(rest),
{
    let e = escape_byte(b);
    let t = e + rest;
    assert(t.subrange(0, e.len() as int) =~= e);
    assert(t.subrange(e.len() as int, t.len() as int) =~= rest);
    if b != 38 && b != 60 && b != 62 && b != 34 && b != 39 {
        assert(t[0] == b);
    }
}

/// Escaping keeps the text that the page shows: decoding the HTML entities
/// of the escaped poison gives back the poison, byte for byte.
pub proof fn lemma_escape_shows_the_same_text(s: Seq<u8>)
    ensures
        decode_entities(escape_bytes(s)) == s,
    decreases s.len(),
{
    if s.len() > 0 {
        let rest = s.subrange(1, s.len() as int);
        lemma_escape_concat(seq![s[0]], rest);
        assert(seq![s[0]] + rest =~= s);
        let one = seq![s[0]];
        assert(escape_bytes(one) =~= escape_byte(s[0])) by {
            assert(one.drop_last() =~= Seq::<u8>::empty());
            assert(escape_bytes(one.drop_last()) =~= Seq::<u8>::empty());
            assert(one.last() == s[0]);
        }
        lemma_decode_escaped_byte(s[0], escape_bytes(rest));
        lemma_escape_shows_the_same_text(rest);
        assert(seq![s[0]] + rest =~= s);
    }
}

} // verus!
