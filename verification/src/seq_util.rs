//! Small verified helpers for sequence reasoning shared by the components.

use vstd::prelude::*;

verus! {

/// One filtering step: extending the prefix by one element either appends
/// that element to the filtered prefix or leaves it as it was.
pub(crate) proof fn lemma_filter_step<A>(s: Seq<A>, pred: spec_fn(A) -> bool, k: int)
    requires
        0 <= k < s.len(),
    ensures
        s.subrange(0, k + 1).filter(pred) == (if pred(s[k]) {
            s.subrange(0, k).filter(pred).push(s[k])
        } else {
            s.subrange(0, k).filter(pred)
        }),
{
    let a = s.subrange(0, k);
    let single = seq![s[k]];
    assert(s.subrange(0, k + 1) =~= a + single);
    Seq::<A>::filter_distributes_over_add(a, single, pred);
    reveal_with_fuel(Seq::<_>::filter, 2);
    assert(single.drop_last() =~= Seq::<A>::empty());
    if pred(s[k]) {
        assert(single.filter(pred) =~= Seq::<A>::empty().push(s[k]));
        assert((a + single).filter(pred) =~= a.filter(pred).push(s[k]));
    } else {
        assert(single.filter(pred) =~= Seq::<A>::empty());
        assert((a + single).filter(pred) =~= a.filter(pred));
    }
}

} // verus!
