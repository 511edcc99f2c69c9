//! Condensing join rows.
//!
//! Several endpoints load a left join of a parent table with a child
//! table and then group the rows back into one parent record holding
//! the list of its children.  The parents of such a grouping appear
//! once each, in first-occurrence order: this module defines that
//! order and relates membership in it to the rows.

use vstd::prelude::*;

verus! {

/// The ids of `ids` with duplicates dropped, keeping first occurrences.
pub open spec fn dedup_ids(ids: Seq<u64>) -> Seq<u64>
    decreases ids.len(),
{
    if ids.len() == 0 {
        Seq::empty()
    } else {
        let prefix = dedup_ids(ids.drop_last());
        if ids.drop_last().contains(ids.last()) {
            prefix
        } else {
            prefix.push(ids.last())
        }
    }
}

/// An id occurs in the deduplicated ids exactly when it occurs at all.
pub proof fn lemma_dedup_contains(ids: Seq<u64>, x: u64)
    ensures
        dedup_ids(ids).contains(x) <==> ids.contains(x),
    decreases ids.len(),
{
    if ids.len() > 0 {
        let butlast = ids.drop_last();
        lemma_dedup_contains(butlast, x);
        assert(ids.contains(x) <==> (butlast.contains(x) || ids.last() == x)) by {
            if ids.contains(x) {
                let i = choose|i: int| 0 <= i < ids.len() && ids[i] == x;
                if i < ids.len() - 1 {
                    assert(butlast[i] == x);
                    assert(butlast.contains(x));
                }
            }
            if butlast.contains(x) {
                let i = choose|i: int| 0 <= i < butlast.len() && butlast[i] == x;
                assert(ids[i] == x);
            }
        }
        if !butlast.contains(ids.last()) {
            let prefix = dedup_ids(butlast);
            let pushed = prefix.push(ids.last());
            assert(pushed.contains(x) <==> (prefix.contains(x) || ids.last() == x)) by {
                if pushed.contains(x) {
                    let i = choose|i: int| 0 <= i < pushed.len() && pushed[i] == x;
                    if i < pushed.len() - 1 {
                        assert(prefix[i] == x);
                        assert(prefix.contains(x));
                    } else {
                        assert(ids.last() == x);
                    }
                }
                if prefix.contains(x) {
                    let i = choose|i: int| 0 <= i < prefix.len() && prefix[i] == x;
                    assert(pushed[i] == x);
                    assert(pushed.contains(x));
                }
                if ids.last() == x {
                    assert(pushed[pushed.len() - 1] == x);
                    assert(pushed.contains(x));
                }
            }
        }
    }
}

} // verus!
