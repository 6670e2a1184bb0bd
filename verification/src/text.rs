//! Whitespace handling for fields taken from configuration files.

use vstd::prelude::*;
use vstd::std_specs::iter::IteratorSpec;

verus! {

/// The characters that count as blank: Unicode's `White_Space` property.
pub open spec fn is_space(c: char) -> bool {
    ||| ('\u{09}' <= c && c <= '\u{0D}')
    ||| c == ' '
    ||| c == '\u{85}'
    ||| c == '\u{A0}'
    ||| c == '\u{1680}'
    ||| ('\u{2000}' <= c && c <= '\u{200A}')
    ||| c == '\u{2028}'
    ||| c == '\u{2029}'
    ||| c == '\u{202F}'
    ||| c == '\u{205F}'
    ||| c == '\u{3000}'
}

/// A text is blank when it holds nothing but blank characters.
pub open spec fn is_blank(s: Seq<char>) -> bool {
    forall|i: int| 0 <= i < s.len() ==> is_space(#[trigger] s[i])
}

/// Index of the first character that is not blank; the length if there is none.
pub open spec fn content_start(s: Seq<char>) -> int
    decreases s.len(),
{
    if s.len() == 0 || !is_space(s[0]) {
        0
    } else {
        1 + content_start(s.skip(1))
    }
}

/// One past the index of the last character that is not blank; zero if there is none.
pub open spec fn content_end(s: Seq<char>) -> int
    decreases s.len(),
{
    if s.len() == 0 {
        0
    } else if !is_space(s.last()) {
        s.len() as int
    } else {
        content_end(s.drop_last())
    }
}

/// The text without its leading and trailing blanks.
pub open spec fn trimmed(s: Seq<char>) -> Seq<char> {
    if is_blank(s) {
        Seq::empty()
    } else {
        s.subrange(content_start(s), content_end(s))
    }
}

/// What a configuration field stands for: nothing when it is blank, else its
/// trimmed text.
pub open spec fn normalized(s: Seq<char>) -> Option<Seq<char>> {
    if is_blank(s) {
        None
    } else {
        Some(trimmed(s))
    }
}

/// What an optional field stands for: an absent field stands for nothing,
/// as a blank one does.
pub open spec fn normalized_field(field: Option<Seq<char>>) -> Option<Seq<char>> {
    match field {
        Some(text) => normalized(text),
        None => None,
    }
}

/// `content_start` is the one index with only blanks before it and a
/// character that is not blank on it.
pub proof fn lemma_content_start(s: Seq<char>, a: int)
    requires
        0 <= a <= s.len(),
        forall|i: int| 0 <= i < a ==> is_space(#[trigger] s[i]),
        a < s.len() ==> !is_space(s[a]),
    ensures
        content_start(s) == a,
    decreases s.len(),
{
    if s.len() > 0 && is_space(s[0]) {
        let t = s.skip(1);
        assert forall|i: int| 0 <= i < a - 1 implies is_space(#[trigger] t[i]) by {
            assert(t[i] == s[i + 1]);
        }
        lemma_content_start(t, a - 1);
    }
}

/// `content_end` is the one index with only blanks from it on and a
/// character that is not blank just before it.
pub proof fn lemma_content_end(s: Seq<char>, b: int)
    requires
        0 <= b <= s.len(),
        forall|i: int| b <= i < s.len() ==> is_space(#[trigger] s[i]),
        b > 0 ==> !is_space(s[b - 1]),
    ensures
        content_end(s) == b,
    decreases s.len(),
{
    if s.len() > 0 && is_space(s.last()) {
        let t = s.drop_last();
        assert forall|i: int| b <= i < t.len() implies is_space(#[trigger] t[i]) by {
            assert(t[i] == s[i]);
        }
        lemma_content_end(t, b);
    }
}

/// Tells whether `c` is a blank character.
pub fn is_space_char(c: char) -> (r: bool)
    ensures
        r == is_space(c),
{
    ('\u{09}' <= c && c <= '\u{0D}') || c == ' ' || c == '\u{85}' || c == '\u{A0}' || c
        == '\u{1680}' || ('\u{2000}' <= c && c <= '\u{200A}') || c == '\u{2028}' || c
        == '\u{2029}' || c == '\u{202F}' || c == '\u{205F}' || c == '\u{3000}'
}

/// Normalizes the text of a field: `None` for a blank one, else the text
/// without its leading and trailing blanks.
pub fn normalize_text(s: &str) -> (r: Option<String>)
    ensures
        r.deep_view() == normalized(s@),
{
    let mut start: usize = 0;
    let mut end: usize = 0;
    let mut pos: usize = 0;
    let mut seen: bool = false;
    let count: usize = s.unicode_len();
    let chars = s.chars();
    for c in it: chars
        invariant
            it.seq() == s@,
            s@.len() == count,
            pos == it.index(),
            seen ==> start < end <= pos && !is_space(s@[start as int]) && !is_space(
                s@[end - 1],
            ),
            seen ==> forall|i: int| 0 <= i < start ==> is_space(#[trigger] s@[i]),
            seen ==> forall|i: int| end <= i < pos ==> is_space(#[trigger] s@[i]),
            !seen ==> forall|i: int| 0 <= i < pos ==> is_space(#[trigger] s@[i]),
    {
        if !is_space_char(c) {
            if !seen {
                start = pos;
                seen = true;
            }
            end = pos + 1;
        }
        pos = pos + 1;
    }
    if seen {
        proof {
            lemma_content_start(s@, start as int);
            lemma_content_end(s@, end as int);
        }
        Some(s.substring_char(start, end).to_owned())
    } else {
        None
    }
}

/// Normalizes an optional field. A field that is absent, empty or made of
/// blanks alone yields `None`, never an empty text; any other field yields
/// its text without the leading and trailing blanks.
pub fn normalize(field: Option<&str>) -> (r: Option<String>)
    ensures
        r.deep_view() == normalized_field(field.deep_view()),
{
    match field {
        Some(text) => normalize_text(text),
        None => None,
    }
}

/// Where a text is not blank, its content starts on a character that is
/// not blank, ends behind one, and has only blanks around it.
pub proof fn lemma_content_bounds(s: Seq<char>)
    requires
        !is_blank(s),
    ensures
        0 <= content_start(s) < content_end(s) <= s.len(),
        !is_space(s[content_start(s)]),
        !is_space(s[content_end(s) - 1]),
        forall|i: int| 0 <= i < content_start(s) ==> is_space(#[trigger] s[i]),
        forall|i: int| content_end(s) <= i < s.len() ==> is_space(#[trigger] s[i]),
{
    let a = choose|a: int| 0 <= a < s.len() && !is_space(#[trigger] s[a]) && forall|i: int|
        0 <= i < a ==> is_space(#[trigger] s[i]);
    let b = choose|b: int| 0 < b <= s.len() && !is_space(#[trigger] s[b - 1]) && forall|i: int|
        b <= i < s.len() ==> is_space(#[trigger] s[i]);
    lemma_first_content(s, 0);
    lemma_last_content(s, s.len() as int);
    lemma_content_start(s, a);
    lemma_content_end(s, b);
}

/// Among the characters from `from` on, one that is not blank comes first.
proof fn lemma_first_content(s: Seq<char>, from: int)
    requires
        0 <= from <= s.len(),
        forall|i: int| 0 <= i < from ==> is_space(#[trigger] s[i]),
        !is_blank(s),
    ensures
        exists|a: int|
            0 <= a < s.len() && !is_space(#[trigger] s[a]) && forall|i: int|
                0 <= i < a ==> is_space(#[trigger] s[i]),
    decreases s.len() - from,
{
    if from < s.len() && is_space(s[from]) {
        lemma_first_content(s, from + 1);
    } else {
        assert(from < s.len());
        assert(!is_space(s[from]));
    }
}

/// Among the characters before `to`, one that is not blank comes last.
proof fn lemma_last_content(s: Seq<char>, to: int)
    requires
        0 <= to <= s.len(),
        forall|i: int| to <= i < s.len() ==> is_space(#[trigger] s[i]),
        !is_blank(s),
    ensures
        exists|b: int|
            0 < b <= s.len() && !is_space(#[trigger] s[b - 1]) && forall|i: int|
                b <= i < s.len() ==> is_space(#[trigger] s[i]),
    decreases to,
{
    if to > 0 && is_space(s[to - 1]) {
        lemma_last_content(s, to - 1);
    } else {
        assert(to > 0);
        assert(!is_space(s[to - 1]));
    }
}

/// A normalized field is never an empty or blank text: it is absent, or it
/// begins and ends with a character that is not blank.
pub proof fn lemma_normalized_is_not_blank(field: Option<Seq<char>>)
    ensures
        match normalized_field(field) {
            Some(text) => text.len() > 0 && !is_space(text.first()) && !is_space(text.last())
                && !is_blank(text),
            None => field matches Some(text) ==> is_blank(text),
        },
{
    if let Some(text) = field {
        if !is_blank(text) {
            lemma_content_bounds(text);
            let kept = trimmed(text);
            assert(kept[0] == text[content_start(text)]);
            assert(kept[kept.len() - 1] == text[content_end(text) - 1]);
        }
    }
}

/// Normalizing twice changes nothing more.
pub proof fn lemma_normalized_is_stable(field: Option<Seq<char>>)
    ensures
        normalized_field(normalized_field(field)) == normalized_field(field),
{
    lemma_normalized_is_not_blank(field);
    if let Some(text) = normalized_field(field) {
        lemma_content_start(text, 0);
        lemma_content_end(text, text.len() as int);
        assert(text.subrange(0, text.len() as int) =~= text);
    }
}

/// A text without blanks at either end, such as an address, is kept as it
/// is.
pub proof fn lemma_clean_text_is_kept(text: Seq<char>)
    requires
        text.len() > 0,
        !is_space(text.first()),
        !is_space(text.last()),
    ensures
        normalized(text) == Some(text),
{
    assert(!is_space(text[0]));
    lemma_content_start(text, 0);
    lemma_content_end(text, text.len() as int);
    assert(text.subrange(0, text.len() as int) =~= text);
}

} // verus!
