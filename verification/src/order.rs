//! Newest-first order of listed items.

use vstd::prelude::*;

verus! {

/// Whether item `a` comes before item `b`: a greater key first, the earlier of two equal ones.
pub open spec fn comes_before(keys: Seq<i64>, a: int, b: int) -> bool {
    keys[a] > keys[b] || (keys[a] == keys[b] && a < b)
}

/// Whether `order` lists the first `n` positions of `keys`, each once, greatest key first and
/// positions of equal keys as they stood.
pub open spec fn is_descending(keys: Seq<i64>, n: int, order: Seq<usize>) -> bool {
    &&& order.len() == n
    &&& forall|i: int| 0 <= i < order.len() ==> 0 <= #[trigger] order[i] < n
    &&& forall|i: int, j: int|
        0 <= i < j < order.len() ==> comes_before(keys, #[trigger] order[i] as int, #[trigger] order[j] as int)
}

/// Orders positions by key, greatest first; equal keys keep their order.
pub fn descending(keys: &Vec<i64>) -> (order: Vec<usize>)
    ensures
        is_descending(keys@, keys@.len() as int, order@),
{
    let mut order: Vec<usize> = Vec::new();
    let mut n: usize = 0;
    while n < keys.len()
        invariant
            n <= keys.len(),
            is_descending(keys@, n as int, order@),
        decreases keys.len() - n,
    {
        let mut p: usize = order.len();
        while p > 0 && keys[order[p - 1]] < keys[n]
            invariant
                n < keys.len(),
                p <= order.len(),
                is_descending(keys@, n as int, order@),
                forall|i: int| p <= i < order.len() ==> keys@[#[trigger] order@[i] as int] < keys@[n as int],
            decreases p,
        {
            p -= 1;
        }
        let ghost before = order@;
        assert forall|i: int| 0 <= i < p implies keys@[#[trigger] before[i] as int] >= keys@[n as int] by {
            if i < p - 1 {
                assert(comes_before(keys@, before[i] as int, before[p - 1] as int));
            }
        }
        order.insert(p, n);
        assert(order@ == before.insert(p as int, n));
        assert forall|i: int, j: int| 0 <= i < j < order@.len() implies comes_before(
            keys@,
            #[trigger] order@[i] as int,
            #[trigger] order@[j] as int,
        ) by {
            let a = if i < p { i } else { i - 1 };
            let b = if j < p { j } else { j - 1 };
            if i != p && j != p {
                assert(order@[i] == before[a] && order@[j] == before[b]);
            } else if j == p {
                assert(order@[i] == before[i]);
            } else {
                assert(order@[j] == before[b]);
            }
        }
        assert forall|i: int| 0 <= i < order@.len() implies 0 <= #[trigger] order@[i] < n + 1 by {
            let a = if i < p { i } else { i - 1 };
            if i != p {
                assert(order@[i] == before[a]);
            }
        }
        n += 1;
    }
    order
}

/// There is one newest-first order: any two lists with that property are equal.
pub proof fn law_descending_order_is_unique(keys: Seq<i64>, n: int, a: Seq<usize>, b: Seq<usize>)
    requires
        0 <= n <= keys.len(),
        is_descending(keys, n, a),
        is_descending(keys, n, b),
    ensures
        a == b,
    decreases n,
{
    if n > 0 {
        let last = (n - 1) as usize;
        lemma_holds_each(keys, n, a, n - 1);
        lemma_holds_each(keys, n, b, n - 1);
        let i = choose|i: int| 0 <= i < a.len() && a[i] == n - 1;
        let j = choose|j: int| 0 <= j < b.len() && b[j] == n - 1;
        lemma_drop(keys, n, a, i);
        lemma_drop(keys, n, b, j);
        law_descending_order_is_unique(keys, n - 1, a.remove(i), b.remove(j));
        if i < j {
            assert(a.remove(i)[i] == a[i + 1]);
            assert(b.remove(j)[i] == b[i]);
            assert(comes_before(keys, a[i] as int, a[i + 1] as int));
            assert(comes_before(keys, b[i] as int, b[j] as int));
        } else if j < i {
            assert(a.remove(i)[j] == a[j]);
            assert(b.remove(j)[j] == b[j + 1]);
            assert(comes_before(keys, a[j] as int, a[i] as int));
            assert(comes_before(keys, b[j] as int, b[j + 1] as int));
        }
        assert forall|k: int| 0 <= k < n implies a[k] == b[k] by {
            if k < i {
                assert(a.remove(i)[k] == a[k]);
                assert(b.remove(i)[k] == b[k]);
            } else if k > i {
                assert(a.remove(i)[k - 1] == a[k]);
                assert(b.remove(i)[k - 1] == b[k]);
            }
        }
        assert(a =~= b);
    } else {
        assert(a =~= b);
    }
}

proof fn lemma_drop(keys: Seq<i64>, n: int, a: Seq<usize>, i: int)
    requires
        0 < n <= keys.len(),
        is_descending(keys, n, a),
        0 <= i < n,
        a[i] == n - 1,
    ensures
        is_descending(keys, n - 1, a.remove(i)),
{
    let r = a.remove(i);
    assert forall|k: int| 0 <= k < r.len() implies 0 <= #[trigger] r[k] < n - 1 by {
        let s = if k < i { k } else { k + 1 };
        assert(r[k] == a[s]);
        if a[s] == n - 1 {
            if s < i {
                assert(comes_before(keys, a[s] as int, a[i] as int));
            } else {
                assert(comes_before(keys, a[i] as int, a[s] as int));
            }
        }
    }
    assert forall|k: int, m: int| 0 <= k < m < r.len() implies comes_before(
        keys,
        #[trigger] r[k] as int,
        #[trigger] r[m] as int,
    ) by {
        let s = if k < i { k } else { k + 1 };
        let t = if m < i { m } else { m + 1 };
        assert(r[k] == a[s] && r[m] == a[t]);
    }
}

pub(crate) proof fn lemma_holds_each(keys: Seq<i64>, n: int, a: Seq<usize>, x: int)
    requires
        0 <= x < n <= keys.len(),
        is_descending(keys, n, a),
    ensures
        exists|i: int| 0 <= i < a.len() && a[i] == x,
{
    let ints = Seq::new(a.len(), |i: int| a[i] as int);
    assert(ints.no_duplicates()) by {
        assert forall|i: int, j: int| 0 <= i < ints.len() && 0 <= j < ints.len() && i != j implies ints[i]
            != ints[j] by {
            if i < j {
                assert(comes_before(keys, a[i] as int, a[j] as int));
            } else {
                assert(comes_before(keys, a[j] as int, a[i] as int));
            }
        }
    }
    let all = vstd::set_lib::set_int_range(0, n);
    vstd::set_lib::lemma_int_range(0, n);
    ints.unique_seq_to_set();
    assert forall|v: int| ints.to_set().contains(v) implies all.contains(v) by {
        let k = choose|k: int| 0 <= k < ints.len() && ints[k] == v;
        assert(0 <= a[k] < n);
    }
    vstd::set_lib::lemma_subset_equality(ints.to_set(), all);
    assert(all.contains(x));
    let k = choose|k: int| 0 <= k < ints.len() && ints[k] == x;
    assert(a[k] == x);
}

} // verus!
