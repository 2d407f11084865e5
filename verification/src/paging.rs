//! Pages of newest-first results, shown oldest first.

use vstd::prelude::*;

verus! {

/// How many of `count` fetched items a page of `limit` covers.
pub open spec fn covered(count: nat, limit: nat) -> nat {
    if count > limit {
        limit
    } else {
        count
    }
}

/// The positions below `n` that are kept, in order.
pub open spec fn kept_below(keep: Seq<bool>, n: int) -> Seq<usize>
    decreases n,
{
    if n <= 0 {
        Seq::empty()
    } else if keep[n - 1] {
        kept_below(keep, n - 1).push((n - 1) as usize)
    } else {
        kept_below(keep, n - 1)
    }
}

/// The positions that a page shows: those kept among the covered ones, last fetched first.
pub open spec fn shown(keep: Seq<bool>, limit: nat) -> Seq<usize> {
    kept_below(keep, covered(keep.len(), limit) as int).reverse()
}

/// A page: the positions of its items, in the order they are shown.
pub struct Page {
    pub items: Vec<usize>,
    /// Whether older items were left out.
    pub has_more: bool,
}

/// Makes a page of the fetched items that are kept.
pub fn page_of_kept(keep: &Vec<bool>, limit: usize) -> (r: Page)
    ensures
        r.has_more == (keep@.len() > limit),
        r.items@ == shown(keep@, limit as nat),
{
    let n: usize = if keep.len() > limit {
        limit
    } else {
        keep.len()
    };
    let ghost all = kept_below(keep@, n as int);
    let mut items: Vec<usize> = Vec::new();
    let mut i: usize = n;
    while i > 0
        invariant
            i <= n <= keep.len(),
            all == kept_below(keep@, i as int) + items@.reverse(),
            all == kept_below(keep@, n as int),
        decreases i,
    {
        i -= 1;
        if keep[i] {
            let ghost before = items@;
            items.push(i);
            assert(items@.reverse() =~= seq![i] + before.reverse());
            assert(kept_below(keep@, i as int).push(i) + before.reverse() =~= kept_below(
                keep@,
                i as int,
            ) + items@.reverse());
        }
    }
    assert(all =~= items@.reverse());
    assert(items@ =~= all.reverse());
    Page { items, has_more: keep.len() > limit }
}

/// The positions that a page shows where nothing is dropped.
pub open spec fn shown_all(count: nat, limit: nat) -> Seq<usize> {
    let n = covered(count, limit);
    Seq::new(n, |i: int| (n - 1 - i) as usize)
}

/// Makes a page of all the fetched items.
pub fn page_of(count: usize, limit: usize) -> (r: Page)
    ensures
        r.has_more == (count > limit),
        r.items@ == shown_all(count as nat, limit as nat),
{
    let n: usize = if count > limit {
        limit
    } else {
        count
    };
    let mut items: Vec<usize> = Vec::new();
    let mut i: usize = n;
    while i > 0
        invariant
            i <= n,
            items@ == Seq::new((n - i) as nat, |k: int| (n - 1 - k) as usize),
        decreases i,
    {
        i -= 1;
        items.push(i);
        assert(items@ =~= Seq::new((n - i) as nat, |k: int| (n - 1 - k) as usize));
    }
    Page { items, has_more: count > limit }
}

/// A page shows at most `limit` items, each fetched and kept, later fetched ones first.
pub proof fn law_page_is_bounded_and_reversed(keep: Seq<bool>, limit: nat)
    requires
        keep.len() <= usize::MAX,
    ensures
        shown(keep, limit).len() <= limit,
        forall|i: int|
            0 <= i < shown(keep, limit).len() ==> {
                let p = #[trigger] shown(keep, limit)[i] as int;
                0 <= p < covered(keep.len(), limit) && keep[p]
            },
        forall|i: int, j: int|
            0 <= i < j < shown(keep, limit).len() ==> #[trigger] shown(keep, limit)[i]
                > #[trigger] shown(keep, limit)[j],
{
    let n = covered(keep.len(), limit) as int;
    lemma_kept_below(keep, n);
}

/// A page shows every kept item that it covers.
pub proof fn law_page_drops_no_kept_item(keep: Seq<bool>, limit: nat, p: usize)
    requires
        p < covered(keep.len(), limit),
        keep[p as int],
    ensures
        shown(keep, limit).contains(p),
{
    let n = covered(keep.len(), limit) as int;
    lemma_kept_holds(keep, n, p);
    let all = kept_below(keep, n);
    let k = choose|k: int| 0 <= k < all.len() && all[k] == p;
    assert(all.reverse()[all.len() - 1 - k] == p);
}

/// Where nothing is dropped, the two ways of making a page agree.
pub proof fn law_page_of_all_kept(keep: Seq<bool>, limit: nat)
    requires
        keep.len() <= usize::MAX,
        forall|i: int| 0 <= i < keep.len() ==> #[trigger] keep[i],
    ensures
        shown(keep, limit) == shown_all(keep.len(), limit),
{
    let n = covered(keep.len(), limit) as int;
    lemma_all_kept(keep, n);
    assert(shown(keep, limit) =~= shown_all(keep.len(), limit));
}

proof fn lemma_all_kept(keep: Seq<bool>, n: int)
    requires
        0 <= n <= keep.len(),
        forall|i: int| 0 <= i < keep.len() ==> #[trigger] keep[i],
    ensures
        kept_below(keep, n) == Seq::new(n as nat, |i: int| i as usize),
    decreases n,
{
    if n > 0 {
        lemma_all_kept(keep, n - 1);
        assert(keep[n - 1]);
    }
    assert(kept_below(keep, n) =~= Seq::new(n as nat, |i: int| i as usize));
}

proof fn lemma_kept_below(keep: Seq<bool>, n: int)
    requires
        0 <= n <= keep.len() <= usize::MAX,
    ensures
        kept_below(keep, n).len() <= n,
        forall|i: int|
            0 <= i < kept_below(keep, n).len() ==> {
                let p = #[trigger] kept_below(keep, n)[i] as int;
                0 <= p < n && keep[p]
            },
        forall|i: int, j: int|
            0 <= i < j < kept_below(keep, n).len() ==> #[trigger] kept_below(keep, n)[i]
                < #[trigger] kept_below(keep, n)[j],
    decreases n,
{
    if n > 0 {
        lemma_kept_below(keep, n - 1);
    }
}

proof fn lemma_kept_holds(keep: Seq<bool>, n: int, p: usize)
    requires
        0 <= p < n <= keep.len(),
        keep[p as int],
    ensures
        kept_below(keep, n).contains(p),
    decreases n,
{
    let all = kept_below(keep, n);
    if p == n - 1 {
        assert(all[all.len() - 1] == p);
    } else {
        lemma_kept_holds(keep, n - 1, p);
        let less = kept_below(keep, n - 1);
        let k = choose|k: int| 0 <= k < less.len() && less[k] == p;
        assert(all[k] == p);
    }
}

} // verus!
