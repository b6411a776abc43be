//! A law of sequences that the laws of headers and attachments rest on.

use vstd::prelude::*;

verus! {

/// Mapping the elements of a sequence and keeping the results that exist is
/// keeping the elements that have a result and mapping those.
pub proof fn lemma_filter_map_keeps<A, B>(s: Seq<A>, f: spec_fn(A) -> Option<B>)
    ensures
        s.filter_map(f) == s.filter(|a: A| f(a) is Some).map_values(|a: A| f(a)->0),
    decreases s.len(),
{
    reveal(Seq::filter);
    let kept = |a: A| f(a) is Some;
    let value = |a: A| f(a)->0;
    if s.len() > 0 {
        let rest = s.drop_last();
        lemma_filter_map_keeps(rest, f);
        if f(s.last()) is Some {
            assert(s.filter(kept) == rest.filter(kept).push(s.last()));
            assert(rest.filter(kept).push(s.last()).map_values(value) == rest.filter(
                kept,
            ).map_values(value).push(value(s.last())));
            assert(rest.filter_map(f) + seq![f(s.last())->0] == rest.filter_map(f).push(
                value(s.last()),
            ));
        }
    }
    assert(s.filter_map(f) =~= s.filter(kept).map_values(value));
}

} // verus!
