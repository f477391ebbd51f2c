//! Reading marked-up text: what stands between two marks, and what value a
//! text gives to an attribute.
//!
//! Nothing here runs. These are the notions in which the scripts' content is
//! stated: a text is read from left to right, a mark opens what the next
//! mark of its kind closes, and an attribute's value is what double quotes
//! enclose right after the attribute's name and an equals sign.

use vstd::prelude::*;

verus! {

/// The first position at or after `from` where `text` holds `mark`; the
/// text's length where it holds none there.
pub open spec fn next_mark(text: Seq<char>, mark: char, from: int) -> int
    decreases text.len() - from,
{
    if from < 0 || from >= text.len() {
        text.len() as int
    } else if text[from] == mark {
        from
    } else {
        next_mark(text, mark, from + 1)
    }
}

/// Where the content lies that the first pair of `mark`s at or after `from`
/// encloses: its first position and the position of the closing mark.
pub open spec fn enclosed(text: Seq<char>, mark: char, from: int) -> Option<(int, int)> {
    let open = next_mark(text, mark, from);
    let close = next_mark(text, mark, open + 1);
    if 0 <= from && close < text.len() {
        Some((open + 1, close))
    } else {
        None
    }
}

/// What the first pair of `mark`s in `text` encloses.
pub open spec fn first_enclosed(text: Seq<char>, mark: char) -> Option<Seq<char>> {
    match enclosed(text, mark, 0) {
        Some((start, end)) => Some(text.subrange(start, end)),
        None => None,
    }
}

/// `text` holds no `mark`.
pub open spec fn free_of(text: Seq<char>, mark: char) -> bool {
    forall|i: int| 0 <= i < text.len() ==> text[i] != mark
}

/// `text` reads `name`, an equals sign and a double quote right before
/// position `at`.
pub open spec fn opens_attribute(text: Seq<char>, name: Seq<char>, at: int) -> bool {
    &&& name.len() + 2 <= at <= text.len()
    &&& text.subrange(at - 2 - name.len(), at - 2) == name
    &&& text[at - 2] == '='
    &&& text[at - 1] == '"'
}

/// The value that `text` gives to the attribute `name`, reading the quoted
/// values from position `from` on: that of the first one that `name` opens.
pub open spec fn attribute_from(text: Seq<char>, name: Seq<char>, from: int) -> Option<Seq<char>>
    decreases text.len() - from,
    via attribute_from_decreases
{
    match enclosed(text, '"', from) {
        None => None,
        Some((start, end)) => if opens_attribute(text, name, start) {
            Some(text.subrange(start, end))
        } else {
            attribute_from(text, name, end + 1)
        },
    }
}

#[via_fn]
proof fn attribute_from_decreases(text: Seq<char>, name: Seq<char>, from: int) {
    if 0 <= from {
        let open = next_mark(text, '"', from);
        lemma_next_mark_bounds(text, '"', from);
        lemma_next_mark_bounds(text, '"', open + 1);
    }
}

/// The value that `text` gives to the attribute `name`.
pub open spec fn attribute(text: Seq<char>, name: Seq<char>) -> Option<Seq<char>> {
    attribute_from(text, name, 0)
}

/// The next mark is not before the place the search starts from, nor past
/// the end; no mark stands before it, and one stands there unless it is the
/// end.
pub proof fn lemma_next_mark_bounds(text: Seq<char>, mark: char, from: int)
    requires
        0 <= from,
    ensures
        from <= next_mark(text, mark, from) || next_mark(text, mark, from) == text.len(),
        next_mark(text, mark, from) <= text.len(),
        next_mark(text, mark, from) < text.len() ==> text[next_mark(text, mark, from)] == mark,
        forall|i: int| from <= i < next_mark(text, mark, from) ==> text[i] != mark,
    decreases text.len() - from,
{
    if from < text.len() && text[from] != mark {
        lemma_next_mark_bounds(text, mark, from + 1);
    }
}

/// A search passes over a stretch that holds no mark.
pub proof fn lemma_next_mark_skips(text: Seq<char>, mark: char, from: int, to: int)
    requires
        0 <= from <= to <= text.len(),
        forall|i: int| from <= i < to ==> text[i] != mark,
    ensures
        next_mark(text, mark, from) == next_mark(text, mark, to),
    decreases to - from,
{
    if from < to {
        lemma_next_mark_skips(text, mark, from + 1, to);
    }
}

/// Two marks with no mark between them, the first one the next after
/// `from`, enclose what lies between them.
pub proof fn lemma_enclosed_between(text: Seq<char>, mark: char, from: int, open: int, close: int)
    requires
        0 <= from <= open < close < text.len(),
        text[open] == mark,
        text[close] == mark,
        forall|i: int| from <= i < open ==> text[i] != mark,
        forall|i: int| open < i < close ==> text[i] != mark,
    ensures
        enclosed(text, mark, from) == Some((open + 1, close)),
{
    lemma_next_mark_skips(text, mark, from, open);
    lemma_next_mark_skips(text, mark, open + 1, close);
}

} // verus!
