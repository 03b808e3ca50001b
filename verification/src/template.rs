//! The text of the template: ordinary text with placeholders for the fields
//! of the composed image. A placeholder is `{{`, a field's name and `}}`,
//! with spaces around the name where wanted. The template language's tags
//! and filters are not part of it.

use vstd::prelude::*;
use vstd::string::*;

verus! {

/// The names of the template's fields.
pub open spec fn field_names() -> Set<Seq<char>> {
    set![
        "photo"@,
        "photo_width"@,
        "photo_translate"@,
        "photo_height"@,
        "border"@,
        "image_width"@,
        "image_height"@,
        "line_1_y"@,
        "line_2_y"@,
        "line_3_y"@,
        "line_1_x_r"@,
        "line_2_x"@,
        "date"@,
        "text_en"@,
        "text_fi"@,
        "text_fr"@
    ]
}

pub open spec fn is_name_char(c: char) -> bool {
    ('a' <= c && c <= 'z') || ('A' <= c && c <= 'Z') || ('0' <= c && c <= '9') || c == '_'
}

/// Where the run of spaces that starts at `i` ends.
pub open spec fn spaces_end(text: Seq<char>, i: int) -> int
    decreases text.len() - i,
{
    if 0 <= i < text.len() && text[i] == ' ' {
        spaces_end(text, i + 1)
    } else {
        i
    }
}

/// Where the run of letters, digits and underscores that starts at `i` ends.
pub open spec fn name_end(text: Seq<char>, i: int) -> int
    decreases text.len() - i,
{
    if 0 <= i < text.len() && is_name_char(text[i]) {
        name_end(text, i + 1)
    } else {
        i
    }
}

/// Where the placeholder that opens at `i` ends, or -1 where what opens
/// there is no placeholder: after the two braces come spaces, a field's
/// name, spaces, and two closing braces.
pub open spec fn placeholder_end(text: Seq<char>, i: int) -> int {
    let a = spaces_end(text, i + 2);
    let b = name_end(text, a);
    let c = spaces_end(text, b);
    if a <= b <= text.len() && field_names().contains(text.subrange(a, b)) && c + 1 < text.len()
        && text[c] == '}' && text[c + 1] == '}' {
        c + 2
    } else {
        -1
    }
}

/// Whether the text from `i` on is ordinary text and placeholders: no tag
/// opens in it, and whatever opens with two braces is a placeholder.
pub open spec fn plain_from(text: Seq<char>, i: int) -> bool
    decreases text.len() - i,
{
    if i < 0 || i + 1 >= text.len() {
        true
    } else if text[i] == '{' && text[i + 1] == '%' {
        false
    } else if text[i] == '{' && text[i + 1] == '{' {
        let j = placeholder_end(text, i);
        if i < j <= text.len() {
            plain_from(text, j)
        } else {
            false
        }
    } else {
        plain_from(text, i + 1)
    }
}

/// Whether a text is a template of ordinary text and placeholders.
pub open spec fn plain_template(text: Seq<char>) -> bool {
    plain_from(text, 0)
}

/// The characters of a text, one by one.
fn chars_of(text: &str) -> (chars: Vec<char>)
    ensures
        chars@ == text@,
{
    broadcast use vstd::string::axiom_spec_iter;

    let mut chars: Vec<char> = Vec::new();
    for c in it: text.chars()
        invariant
            it.seq() == text@,
            chars@ == text@.take(it.index()),
    {
        chars.push(c);
        proof {
            assert(text@.take(it.index()).push(c) =~= text@.take(it.index() + 1));
        }
    }
    proof {
        assert(text@.take(text@.len() as int) =~= text@);
    }
    chars
}

fn skip_spaces(chars: &Vec<char>, from: usize) -> (end: usize)
    requires
        from <= chars.len(),
    ensures
        end == spaces_end(chars@, from as int),
        from <= end <= chars.len(),
{
    let mut i = from;
    while i < chars.len() && chars[i] == ' '
        invariant
            from <= i <= chars.len(),
            spaces_end(chars@, from as int) == spaces_end(chars@, i as int),
        decreases chars.len() - i,
    {
        i += 1;
    }
    i
}

fn skip_name(chars: &Vec<char>, from: usize) -> (end: usize)
    requires
        from <= chars.len(),
    ensures
        end == name_end(chars@, from as int),
        from <= end <= chars.len(),
{
    let mut i = from;
    while i < chars.len() && (('a' <= chars[i] && chars[i] <= 'z') || ('A' <= chars[i] && chars[i]
        <= 'Z') || ('0' <= chars[i] && chars[i] <= '9') || chars[i] == '_')
        invariant
            from <= i <= chars.len(),
            name_end(chars@, from as int) == name_end(chars@, i as int),
        decreases chars.len() - i,
    {
        i += 1;
    }
    i
}

/// Tells whether the characters from `from` to `to` spell `name`.
fn spells(chars: &Vec<char>, from: usize, to: usize, name: &str) -> (same: bool)
    requires
        from <= to <= chars.len(),
    ensures
        same == (chars@.subrange(from as int, to as int) == name@),
{
    let n = name.unicode_len();
    if to - from != n {
        return false;
    }
    let mut k: usize = 0;
    while k < n
        invariant
            k <= n,
            n == name@.len(),
            to - from == n,
            from <= to <= chars.len(),
            forall|j: int| 0 <= j < k ==> chars@[from + j] == name@[j],
        decreases n - k,
    {
        if chars[from + k] != name.get_char(k) {
            proof {
                assert(chars@.subrange(from as int, to as int)[k as int] == chars@[from + k]);
            }
            return false;
        }
        k += 1;
    }
    proof {
        assert(chars@.subrange(from as int, to as int) =~= name@);
    }
    true
}

/// Tells whether the characters from `from` to `to` spell a field's name.
fn is_field_name(chars: &Vec<char>, from: usize, to: usize) -> (known: bool)
    requires
        from <= to <= chars.len(),
    ensures
        known == field_names().contains(chars@.subrange(from as int, to as int)),
{
    spells(chars, from, to, "photo") || spells(chars, from, to, "photo_width") || spells(
        chars,
        from,
        to,
        "photo_translate",
    ) || spells(chars, from, to, "photo_height") || spells(chars, from, to, "border") || spells(
        chars,
        from,
        to,
        "image_width",
    ) || spells(chars, from, to, "image_height") || spells(chars, from, to, "line_1_y") || spells(
        chars,
        from,
        to,
        "line_2_y",
    ) || spells(chars, from, to, "line_3_y") || spells(chars, from, to, "line_1_x_r") || spells(
        chars,
        from,
        to,
        "line_2_x",
    ) || spells(chars, from, to, "date") || spells(chars, from, to, "text_en") || spells(
        chars,
        from,
        to,
        "text_fi",
    ) || spells(chars, from, to, "text_fr")
}

/// Finds the end of the placeholder that opens at `at`.
fn find_placeholder_end(chars: &Vec<char>, at: usize) -> (end: Option<usize>)
    requires
        at + 1 < chars.len(),
    ensures
        match end {
            Some(j) => j == placeholder_end(chars@, at as int) && at < j <= chars.len(),
            None => placeholder_end(chars@, at as int) == -1,
        },
{
    let a = skip_spaces(chars, at + 2);
    let b = skip_name(chars, a);
    let c = skip_spaces(chars, b);
    if is_field_name(chars, a, b) && chars.len() - c > 1 && chars[c] == '}' && chars[c + 1] == '}' {
        Some(c + 2)
    } else {
        None
    }
}

/// Tells whether a text is a template of ordinary text and placeholders.
pub fn is_plain_template(text: &str) -> (plain: bool)
    ensures
        plain == plain_template(text@),
{
    let chars = chars_of(text);
    let n = chars.len();
    let mut i: usize = 0;
    while n - i > 1
        invariant
            n == chars.len(),
            i <= n,
            chars@ == text@,
            plain_from(text@, 0) == plain_from(text@, i as int),
        decreases n - i,
    {
        if chars[i] == '{' && chars[i + 1] == '%' {
            return false;
        } else if chars[i] == '{' && chars[i + 1] == '{' {
            match find_placeholder_end(&chars, i) {
                Some(j) => {
                    i = j;
                },
                None => {
                    return false;
                },
            }
        } else {
            i += 1;
        }
    }
    true
}

} // verus!
