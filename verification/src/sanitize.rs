//! Captions as they are written into the vector document.

use vstd::prelude::*;
use vstd::string::*;

verus! {

/// What one character of a caption becomes in the vector document.
pub open spec fn escape_char(c: char) -> Seq<char> {
    if c == '&' {
        seq!['&', 'a', 'm', 'p', ';']
    } else {
        seq![c]
    }
}

/// A caption with every ampersand written as a character reference and every
/// other character kept as it is.
pub open spec fn escaped(text: Seq<char>) -> Seq<char>
    decreases text.len(),
{
    if text.len() == 0 {
        Seq::empty()
    } else {
        escaped(text.drop_last()) + escape_char(text.last())
    }
}

/// Escaping goes character by character: a text in two parts is escaped part
/// by part.
pub proof fn lemma_escaped_concat(a: Seq<char>, b: Seq<char>)
    ensures
        escaped(a + b) == escaped(a) + escaped(b),
    decreases b.len(),
{
    if b.len() == 0 {
        assert(a + b =~= a);
        assert(escaped(a) + escaped(b) =~= escaped(a));
    } else {
        assert((a + b).drop_last() =~= a + b.drop_last());
        assert((a + b).last() == b.last());
        lemma_escaped_concat(a, b.drop_last());
        assert((escaped(a) + escaped(b.drop_last())) + escape_char(b.last()) =~= escaped(a) + (
        escaped(b.drop_last()) + escape_char(b.last())));
    }
}

/// A text without an ampersand is left as it is.
pub proof fn lemma_escaped_plain(text: Seq<char>)
    requires
        forall|i: int| 0 <= i < text.len() ==> text[i] != '&',
    ensures
        escaped(text) == text,
    decreases text.len(),
{
    if text.len() > 0 {
        lemma_escaped_plain(text.drop_last());
        assert(text.drop_last() + seq![text.last()] =~= text);
    }
}

/// In an escaped text every ampersand starts the reference `&amp;`.
pub proof fn lemma_escaped_ampersands(text: Seq<char>, i: int)
    requires
        0 <= i < escaped(text).len(),
        escaped(text)[i] == '&',
    ensures
        i + 4 < escaped(text).len(),
        escaped(text)[i + 1] == 'a',
        escaped(text)[i + 2] == 'm',
        escaped(text)[i + 3] == 'p',
        escaped(text)[i + 4] == ';',
    decreases text.len(),
{
    if text.len() > 0 {
        let head = escaped(text.drop_last());
        if i < head.len() {
            lemma_escaped_ampersands(text.drop_last(), i);
        }
    }
}

pub fn sanitize_text(text: &str) -> (out: String)
    ensures
        out@ == escaped(text@),
{
    broadcast use vstd::string::axiom_spec_iter;

    let mut out = String::new();
    for c in it: text.chars()
        invariant
            it.seq() == text@,
            out@ == escaped(text@.take(it.index())),
    {
        proof {
            reveal_strlit("&amp;");
            assert(text@.take(it.index() + 1).drop_last() =~= text@.take(it.index()));
            assert("&amp;"@ =~= escape_char('&'));
        }
        if c == '&' {
            out.append("&amp;");
        } else {
            out.push(c);
        }
    }
    proof {
        assert(text@.take(text@.len() as int) =~= text@);
    }
    out
}

} // verus!
