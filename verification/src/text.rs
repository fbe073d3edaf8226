//! Strings as vectors of characters, and the searches that the decoders
//! share.

use vstd::prelude::*;
use vstd::slice::slice_subrange;
use vstd::std_specs::iter::IteratorSpec;
use vstd::string::*;

verus! {

/// The index of the first `mark` in `text`, or the length of `text` where it
/// holds none.
pub open spec fn position(text: Seq<char>, mark: char) -> nat
    decreases text.len(),
{
    if text.len() == 0 || text[0] == mark {
        0
    } else {
        1 + position(text.skip(1), mark)
    }
}

/// `position` is the one index before which no `mark` stands and at which
/// the text ends or holds `mark`.
pub proof fn lemma_position(text: Seq<char>, mark: char, at: int)
    requires
        0 <= at <= text.len(),
        forall|j: int| 0 <= j < at ==> text[j] != mark,
        at == text.len() || text[at] == mark,
    ensures
        position(text, mark) == at,
    decreases text.len(),
{
    if at > 0 {
        lemma_position(text.skip(1), mark, at - 1);
    }
}

/// The characters of an optional string.
pub open spec fn optional_text(text: Option<String>) -> Option<Seq<char>> {
    match text {
        Some(t) => Some(t@),
        None => None,
    }
}

/// The characters of a string, in order.
pub fn to_chars(text: &str) -> (chars: Vec<char>)
    ensures
        chars@ == text@,
{
    broadcast use group_string_axioms;

    let mut chars: Vec<char> = Vec::new();
    for c in it: text.chars()
        invariant
            chars@ == it.seq().take(it.index() as int),
    {
        chars.push(c);
    }
    chars
}

/// Collects characters into a `String` through `String::from_iter`, which
/// appends them one by one in the order given.
#[verifier::external_body]
pub(crate) fn from_chars(chars: &[char]) -> (text: String)
    ensures
        text@ == chars@,
{
    chars.iter().collect()
}

/// The characters `chars[from..to]` as a `String`.
pub(crate) fn text_between(chars: &Vec<char>, from: usize, to: usize) -> (text: String)
    requires
        from <= to <= chars.len(),
    ensures
        text@ == chars@.subrange(from as int, to as int),
{
    from_chars(slice_subrange(chars.as_slice(), from, to))
}

/// The first index in `from..to` at which `chars` holds `mark`, or `to`.
pub(crate) fn find_between(chars: &Vec<char>, from: usize, to: usize, mark: char) -> (at: usize)
    requires
        from <= to <= chars.len(),
    ensures
        from <= at <= to,
        at - from == position(chars@.subrange(from as int, to as int), mark),
{
    let mut at: usize = from;
    while at < to && chars[at] != mark
        invariant
            from <= at <= to <= chars.len(),
            forall|j: int| from <= j < at ==> chars@[j] != mark,
        decreases to - at,
    {
        at += 1;
    }
    proof {
        lemma_position(chars@.subrange(from as int, to as int), mark, at - from);
    }
    at
}

} // verus!
