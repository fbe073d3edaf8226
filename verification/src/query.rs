//! The query decoder: from a request's path and query string to the
//! components it asks for, in the order it names them.

use crate::text::{find_between, position, text_between, to_chars};
use vstd::prelude::*;

verus! {

/// One component request: a name, and a version where the query gave one.
#[derive(Debug, Clone, PartialEq, Eq)]
pub struct QueryParam {
    pub name: String,
    pub value: Option<String>,
}

/// What a [`QueryParam`] holds, as sequences of characters.
pub struct Pair {
    pub name: Seq<char>,
    pub value: Option<Seq<char>>,
}

impl View for QueryParam {
    type V = Pair;

    open spec fn view(&self) -> Pair {
        Pair {
            name: self.name@,
            value: match self.value {
                Some(v) => Some(v@),
                None => None,
            },
        }
    }
}

/// The views of a list of requests, in order.
pub open spec fn pairs_of(params: Seq<QueryParam>) -> Seq<Pair> {
    Seq::new(params.len(), |i: int| params[i]@)
}

/// The pieces of `text` between the occurrences of `separator`. A text
/// without the separator is one piece, the empty text too.
pub open spec fn split(text: Seq<char>, separator: char) -> Seq<Seq<char>>
    decreases text.len(),
{
    let at = position(text, separator) as int;
    if at < text.len() {
        seq![text.take(at)] + split(text.skip(at + 1), separator)
    } else {
        seq![text]
    }
}

/// A segment cut at its first `=`: the name before it and the value after
/// it. Without `=` the whole segment is the name and there is no value.
pub open spec fn pair_of(segment: Seq<char>) -> Pair {
    let at = position(segment, '=') as int;
    if at < segment.len() {
        Pair { name: segment.take(at), value: Some(segment.skip(at + 1)) }
    } else {
        Pair { name: segment, value: None }
    }
}

/// Whether a segment has a name, whatever its value.
pub open spec fn has_name(segment: Seq<char>) -> bool {
    pair_of(segment).name.len() > 0
}

/// The request that a segment makes, `None` where it has no name.
pub open spec fn accepted(segment: Seq<char>) -> Option<Pair> {
    if has_name(segment) {
        Some(pair_of(segment))
    } else {
        None
    }
}

/// The requests of a query: those of its `&`-separated segments that have a
/// name, in the order of the segments.
pub open spec fn query_pairs(query: Seq<char>) -> Seq<Pair> {
    split(query, '&').filter_map(|segment: Seq<char>| accepted(segment))
}

/// The requests that a path and query string makes: those of what follows
/// its first `?`. `None` where it holds no `?` or makes no request.
pub open spec fn decoded(url: Seq<char>) -> Option<Seq<Pair>> {
    let mark = position(url, '?') as int;
    if mark < url.len() && query_pairs(url.skip(mark + 1)).len() > 0 {
        Some(query_pairs(url.skip(mark + 1)))
    } else {
        None
    }
}

/// The request of a segment as a sequence: one element, or none.
pub open spec fn accepted_seq(segment: Seq<char>) -> Seq<Pair> {
    match accepted(segment) {
        Some(pair) => seq![pair],
        None => Seq::empty(),
    }
}

proof fn lemma_filter_map_prepend(first: Seq<char>, rest: Seq<Seq<char>>)
    ensures
        (seq![first] + rest).filter_map(|segment: Seq<char>| accepted(segment)) == accepted_seq(
            first,
        ) + rest.filter_map(|segment: Seq<char>| accepted(segment)),
    decreases rest.len(),
{
    let f = |segment: Seq<char>| accepted(segment);
    let all = seq![first] + rest;
    if rest.len() == 0 {
        assert(all =~= seq![first]);
        Seq::lemma_filter_map_singleton(first, f);
        assert(rest.filter_map(f) =~= Seq::<Pair>::empty());
        assert(seq![first].filter_map(f) =~= accepted_seq(first));
        assert(accepted_seq(first) + Seq::<Pair>::empty() =~= accepted_seq(first));
    } else {
        assert(all.drop_last() =~= seq![first] + rest.drop_last());
        assert(all.last() == rest.last());
        lemma_filter_map_prepend(first, rest.drop_last());
        let head = accepted_seq(first);
        let mid = rest.drop_last().filter_map(f);
        match f(rest.last()) {
            Some(p) => {
                assert(all.filter_map(f) == (head + mid) + seq![p]);
                assert((head + mid) + seq![p] =~= head + (mid + seq![p]));
            },
            None => {},
        }
    }
}

/// The requests of a query are that of its first segment, if it makes one,
/// followed by those of what stands after the first `&`.
pub proof fn lemma_query_pairs_unfold(query: Seq<char>)
    ensures
        position(query, '&') < query.len() ==> query_pairs(query) == accepted_seq(
            query.take(position(query, '&') as int),
        ) + query_pairs(query.skip(position(query, '&') as int + 1)),
        position(query, '&') >= query.len() ==> query_pairs(query) == accepted_seq(query),
{
    let f = |segment: Seq<char>| accepted(segment);
    let at = position(query, '&') as int;
    if at < query.len() {
        lemma_filter_map_prepend(query.take(at), split(query.skip(at + 1), '&'));
    } else {
        Seq::lemma_filter_map_singleton(query, f);
        assert(seq![query].filter_map(f) =~= accepted_seq(query));
    }
}

/// The number of requests that a query makes is the number of its
/// `&`-separated segments that have a name. Whether a segment has a value
/// plays no part.
pub proof fn lemma_request_count(query: Seq<char>)
    ensures
        query_pairs(query).len() == split(query, '&').filter(
            |segment: Seq<char>| has_name(segment),
        ).len(),
{
    lemma_filter_map_len(split(query, '&'));
}

/// A path and query string is decoded to as many requests as the part
/// behind its first `?` has segments with a name, and to `None` exactly
/// where it has no `?` or no such segment.
pub proof fn lemma_decoded_count(url: Seq<char>)
    ensures
        decoded(url) matches Some(requests) ==> position(url, '?') < url.len() && requests.len()
            == split(url.skip(position(url, '?') as int + 1), '&').filter(
            |segment: Seq<char>| has_name(segment),
        ).len(),
        decoded(url) is None <==> position(url, '?') >= url.len() || split(
            url.skip(position(url, '?') as int + 1),
            '&',
        ).filter(|segment: Seq<char>| has_name(segment)).len() == 0,
{
    lemma_request_count(url.skip(position(url, '?') as int + 1));
}

proof fn lemma_filter_map_len(segments: Seq<Seq<char>>)
    ensures
        segments.filter_map(|segment: Seq<char>| accepted(segment)).len() == segments.filter(
            |segment: Seq<char>| has_name(segment),
        ).len(),
    decreases segments.len(),
{
    reveal(Seq::filter);
    if segments.len() > 0 {
        lemma_filter_map_len(segments.drop_last());
    }
}

/// The request that the segment `chars[from..to]` makes, if it has a name.
fn segment_param(chars: &Vec<char>, from: usize, to: usize) -> (param: Option<QueryParam>)
    requires
        from <= to <= chars.len(),
    ensures
        match param {
            Some(p) => accepted(chars@.subrange(from as int, to as int)) == Some(p@),
            None => accepted(chars@.subrange(from as int, to as int)) is None,
        },
{
    let ghost segment = chars@.subrange(from as int, to as int);
    let cut = find_between(chars, from, to, '=');
    if cut == from {
        assert(pair_of(segment).name.len() == 0);
        return None;
    }
    if cut < to {
        let name = text_between(chars, from, cut);
        let value = text_between(chars, cut + 1, to);
        assert(name@ =~= segment.take(cut - from));
        assert(value@ =~= segment.skip(cut - from + 1));
        Some(QueryParam { name, value: Some(value) })
    } else {
        let name = text_between(chars, from, to);
        Some(QueryParam { name, value: None })
    }
}

/// Decodes a request's path and query string into the components it asks
/// for. The query is what follows the first `?`; it is cut at each `&`, and
/// each segment at its first `=`. Segments without a name are left out,
/// and the others keep their order. `None` where there is no `?` or no
/// segment with a name.
pub fn parse_params(url: &String) -> (params: Option<Vec<QueryParam>>)
    ensures
        match params {
            Some(list) => decoded(url@) == Some(pairs_of(list@)),
            None => decoded(url@) is None,
        },
{
    let chars = to_chars(url.as_str());
    let len = chars.len();
    let mark = find_between(&chars, 0, len, '?');
    assert(chars@.subrange(0, len as int) =~= chars@);
    if mark >= len {
        return None;
    }
    let ghost query = chars@.skip(mark + 1);
    let mut params: Vec<QueryParam> = Vec::new();
    let mut from: usize = mark + 1;
    let mut open = true;
    assert(pairs_of(params@) =~= Seq::<Pair>::empty());
    assert(Seq::<Pair>::empty() + query_pairs(query) =~= query_pairs(query));
    while open
        invariant
            len == chars.len(),
            mark < from <= len,
            query == chars@.skip(mark + 1),
            open ==> pairs_of(params@) + query_pairs(chars@.skip(from as int)) == query_pairs(
                query,
            ),
            !open ==> pairs_of(params@) == query_pairs(query),
        decreases len - from + if open { 1int } else { 0int },
    {
        let ghost rest = chars@.skip(from as int);
        let ghost before = pairs_of(params@);
        let to = find_between(&chars, from, len, '&');
        assert(chars@.subrange(from as int, len as int) =~= rest);
        assert(chars@.subrange(from as int, to as int) =~= rest.take(to - from));
        proof {
            lemma_query_pairs_unfold(rest);
        }
        match segment_param(&chars, from, to) {
            Some(param) => {
                params.push(param);
                assert(pairs_of(params@) =~= before + accepted_seq(rest.take(to - from)));
            },
            None => {
                assert(before + accepted_seq(rest.take(to - from)) =~= before);
            },
        }
        if to < len {
            assert(rest.skip(to - from + 1) =~= chars@.skip(to + 1));
            assert((before + accepted_seq(rest.take(to - from))) + query_pairs(
                chars@.skip(to + 1),
            ) =~= before + (accepted_seq(rest.take(to - from)) + query_pairs(
                chars@.skip(to + 1),
            )));
            from = to + 1;
        } else {
            assert(rest.take(to - from) =~= rest);
            open = false;
        }
    }
    if params.len() > 0 {
        Some(params)
    } else {
        None
    }
}

} // verus!
