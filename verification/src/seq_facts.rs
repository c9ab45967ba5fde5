//! Small general facts about filtered and mapped sequences, used to verify
//! the loops that build listings, predicate sets and chunk lists.

use vstd::prelude::*;

verus! {

/// Extending a prefix by one element extends its filtered image by that
/// element exactly when the element satisfies the predicate.
pub proof fn lemma_filter_take_step<A>(s: Seq<A>, pred: spec_fn(A) -> bool, i: int)
    requires
        0 <= i < s.len(),
    ensures
        s.take(i + 1).filter(pred) == if pred(s[i]) {
            s.take(i).filter(pred).push(s[i])
        } else {
            s.take(i).filter(pred)
        },
{
    reveal(Seq::filter);
    assert(s.take(i + 1).drop_last() =~= s.take(i));
    assert(s.take(i + 1).last() == s[i]);
}

/// A sequence is the filtered image of its full-length prefix.
pub proof fn lemma_filter_take_all<A>(s: Seq<A>, pred: spec_fn(A) -> bool)
    ensures
        s.take(s.len() as int).filter(pred) == s.filter(pred),
{
    assert(s.take(s.len() as int) =~= s);
}

/// Filtering keeps every pairwise fact that held between elements of the
/// original sequence, in their original order.
pub proof fn lemma_filter_preserves_pairwise<A>(
    s: Seq<A>,
    pred: spec_fn(A) -> bool,
    rel: spec_fn(A, A) -> bool,
)
    requires
        forall|i: int, j: int| 0 <= i < j < s.len() ==> #[trigger] rel(s[i], s[j]),
    ensures
        forall|i: int, j: int|
            0 <= i < j < s.filter(pred).len() ==> #[trigger] rel(
                s.filter(pred)[i],
                s.filter(pred)[j],
            ),
    decreases s.len(),
{
    broadcast use vstd::seq_lib::group_filter_ensures;

    if s.len() > 0 {
        let head = s.drop_last();
        assert forall|i: int, j: int| 0 <= i < j < head.len() implies #[trigger] rel(
            head[i],
            head[j],
        ) by {
            assert(rel(s[i], s[j]));
        }
        lemma_filter_preserves_pairwise(head, pred, rel);
        reveal(Seq::filter);
        let f = s.filter(pred);
        let fh = head.filter(pred);
        assert forall|i: int, j: int| 0 <= i < j < f.len() implies #[trigger] rel(f[i], f[j]) by {
            if j < fh.len() {
                assert(f[i] == fh[i] && f[j] == fh[j]);
                assert(rel(fh[i], fh[j]));
            } else {
                assert(f[j] == s.last());
                assert(fh.contains(fh[i]));
                head.lemma_filter_contains_rev(pred, fh[i]);
                let w = choose|w: int| 0 <= w < head.len() && head[w] == fh[i];
                assert(rel(s[w], s[s.len() - 1]));
                assert(f[i] == s[w]);
            }
        }
    }
}

/// Mapping distributes over pushing one element.
pub proof fn lemma_map_values_push<A, B>(s: Seq<A>, f: spec_fn(A) -> B, x: A)
    ensures
        s.push(x).map_values(f) == s.map_values(f).push(f(x)),
{
    assert(s.push(x).map_values(f) =~= s.map_values(f).push(f(x)));
}

} // verus!
