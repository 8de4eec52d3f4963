//! Text: finding a character, and trimming white space.

use vstd::prelude::*;

verus! {

/// Whether a character is white space, as Unicode defines it.
pub uninterp spec fn is_space(c: char) -> bool;

/// A text in lower case, as Unicode defines it.
pub uninterp spec fn lowercase(text: Seq<char>) -> Seq<char>;

/// Calls `char::is_whitespace`. Claimed: the answer depends on the character
/// alone.
#[verifier::external_body]
pub(crate) fn char_is_whitespace(c: char) -> (space: bool)
    ensures
        space == is_space(c),
{
    c.is_whitespace()
}

/// Calls `str::to_lowercase`. Claimed: the result depends on the text alone.
#[verifier::external_body]
pub(crate) fn to_lowercase(text: &str) -> (lower: String)
    ensures
        lower@ == lowercase(text@),
{
    text.to_lowercase()
}

/// The position of the first `c` of `text` at or after `from`; the length of
/// `text` where there is none.
pub open spec fn char_from(text: Seq<char>, c: char, from: int) -> int
    decreases text.len() - from,
{
    if from < 0 || from >= text.len() {
        text.len() as int
    } else if text[from] == c {
        from
    } else {
        char_from(text, c, from + 1)
    }
}

/// `char_from` lies between `from` and the end of the text.
pub proof fn lemma_char_from_range(text: Seq<char>, c: char, from: int)
    requires
        0 <= from <= text.len(),
    ensures
        from <= char_from(text, c, from) <= text.len(),
    decreases text.len() - from,
{
    if from < text.len() && text[from] != c {
        lemma_char_from_range(text, c, from + 1);
    }
}

/// Searching the rest of a text is searching the text from where the rest
/// begins.
pub proof fn lemma_char_from_skip(text: Seq<char>, c: char, start: int, from: int)
    requires
        0 <= start <= text.len(),
        0 <= from <= text.len() - start,
    ensures
        char_from(text.skip(start), c, from) + start == char_from(text, c, start + from),
    decreases text.len() - start - from,
{
    let rest = text.skip(start);
    if from < rest.len() {
        assert(rest[from] == text[start + from]);
        if rest[from] != c {
            lemma_char_from_skip(text, c, start, from + 1);
        }
    }
}

/// A text without the white space at its start.
pub open spec fn trim_start(text: Seq<char>) -> Seq<char>
    decreases text.len(),
{
    if text.len() > 0 && is_space(text.first()) {
        trim_start(text.skip(1))
    } else {
        text
    }
}

/// A text without the white space at its end.
pub open spec fn trim_end(text: Seq<char>) -> Seq<char>
    decreases text.len(),
{
    if text.len() > 0 && is_space(text.last()) {
        trim_end(text.drop_last())
    } else {
        text
    }
}

/// A text without the white space at its start and at its end.
pub open spec fn trimmed(text: Seq<char>) -> Seq<char> {
    trim_end(trim_start(text))
}

/// Finds the first `c` of `text` at or after `from`.
pub fn find_char(text: &str, c: char, from: usize) -> (at: usize)
    requires
        from <= text@.len(),
    ensures
        at == char_from(text@, c, from as int),
        from <= at <= text@.len(),
{
    let len = text.unicode_len();
    let mut i: usize = from;
    while i < len && text.get_char(i) != c
        invariant
            from <= i <= len,
            len == text@.len(),
            char_from(text@, c, from as int) == char_from(text@, c, i as int),
        decreases len - i,
    {
        i += 1;
    }
    i
}

/// The bounds of what trimming leaves of the part of `text` between `from`
/// and `to`.
pub fn trim_bounds(text: &str, from: usize, to: usize) -> (bounds: (usize, usize))
    requires
        from <= to <= text@.len(),
    ensures
        from <= bounds.0 <= bounds.1 <= to,
        text@.subrange(bounds.0 as int, bounds.1 as int) == trimmed(text@.subrange(from as int, to as int)),
{
    let mut lo: usize = from;
    while lo < to && char_is_whitespace(text.get_char(lo))
        invariant
            from <= lo <= to <= text@.len(),
            trim_start(text@.subrange(from as int, to as int)) == trim_start(text@.subrange(lo as int, to as int)),
        decreases to - lo,
    {
        assert(text@.subrange(lo as int, to as int).skip(1) =~= text@.subrange(lo as int + 1, to as int));
        lo += 1;
    }
    let mut hi: usize = to;
    while hi > lo && char_is_whitespace(text.get_char(hi - 1))
        invariant
            lo <= hi <= to <= text@.len(),
            trim_end(text@.subrange(lo as int, to as int)) == trim_end(text@.subrange(lo as int, hi as int)),
        decreases hi,
    {
        assert(text@.subrange(lo as int, hi as int).drop_last() =~= text@.subrange(lo as int, hi as int - 1));
        hi -= 1;
    }
    (lo, hi)
}

} // verus!
