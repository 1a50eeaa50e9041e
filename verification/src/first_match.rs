//! The first item of a sequence that passes a test, in terms of `Seq::filter`.

use vstd::prelude::*;

verus! {

/// A sequence without a match filters to nothing.
pub proof fn lemma_filter_without_match<T>(items: Seq<T>, wanted: spec_fn(T) -> bool)
    requires
        forall|k: int| 0 <= k < items.len() ==> !wanted(items[k]),
    ensures
        items.filter(wanted).len() == 0,
    decreases items.len(),
{
    reveal(Seq::filter);
    if items.len() > 0 {
        lemma_filter_without_match(items.drop_last(), wanted);
    }
}

/// The first match of a sequence is the first item of what it filters to.
pub proof fn lemma_filter_first_match<T>(items: Seq<T>, wanted: spec_fn(T) -> bool, at: int)
    requires
        0 <= at < items.len(),
        wanted(items[at]),
        forall|k: int| 0 <= k < at ==> !wanted(items[k]),
    ensures
        items.filter(wanted).len() > 0,
        items.filter(wanted)[0] == items[at],
    decreases items.len(),
{
    reveal(Seq::filter);
    let shorter = items.drop_last();
    if at == items.len() - 1 {
        lemma_filter_without_match(shorter, wanted);
    } else {
        lemma_filter_first_match(shorter, wanted, at);
    }
}

} // verus!
