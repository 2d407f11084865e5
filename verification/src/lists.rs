//! Lists of identifiers and of texts.

use vstd::prelude::*;

use crate::ids::Oid;
use crate::text;

verus! {

/// `s` without the items equal to `x`; the others keep their order.
pub open spec fn without<A>(s: Seq<A>, x: A) -> Seq<A>
    decreases s.len(),
{
    if s.len() == 0 {
        s
    } else if s.last() == x {
        without(s.drop_last(), x)
    } else {
        without(s.drop_last(), x).push(s.last())
    }
}

/// `s`, with `x` at its end unless it is there already.
pub open spec fn with<A>(s: Seq<A>, x: A) -> Seq<A> {
    if s.contains(x) {
        s
    } else {
        s.push(x)
    }
}

/// `base`, with each item of `more` that was not there yet, in order.
pub open spec fn with_all<A>(base: Seq<A>, more: Seq<A>) -> Seq<A>
    decreases more.len(),
{
    if more.len() == 0 {
        base
    } else {
        with(with_all(base, more.drop_last()), more.last())
    }
}

/// The items of `s`, each where it first stands.
pub open spec fn distinct<A>(s: Seq<A>) -> Seq<A> {
    with_all(Seq::empty(), s)
}

/// `s` without the first item equal to `x`.
pub open spec fn without_first<A>(s: Seq<A>, x: A) -> Seq<A>
    decreases s.len(),
{
    if s.len() == 0 {
        s
    } else if s[0] == x {
        s.drop_first()
    } else {
        seq![s[0]] + without_first(s.drop_first(), x)
    }
}

/// `s` with the membership of `x` switched: its first occurrence leaves, or it joins at the end.
pub open spec fn toggled<A>(s: Seq<A>, x: A) -> Seq<A> {
    if s.contains(x) {
        without_first(s, x)
    } else {
        s.push(x)
    }
}

/// Whether `x` is one of `v`.
pub fn has_oid(v: &Vec<Oid>, x: Oid) -> (r: bool)
    ensures
        r == v@.contains(x),
{
    let mut i: usize = 0;
    while i < v.len()
        invariant
            i <= v.len(),
            forall|j: int| 0 <= j < i ==> v@[j] != x,
        decreases v.len() - i,
    {
        if v[i] == x {
            assert(v@[i as int] == x);
            return true;
        }
        i += 1;
    }
    false
}

/// Whether `x` is one of the texts of `v`.
pub fn has_text(v: &Vec<String>, x: &str) -> (r: bool)
    ensures
        r == text::texts(v@).contains(x@),
{
    let mut i: usize = 0;
    while i < v.len()
        invariant
            i <= v.len(),
            forall|j: int| 0 <= j < i ==> text::texts(v@)[j] != x@,
        decreases v.len() - i,
    {
        if text::same_text(v[i].as_str(), x) {
            assert(text::texts(v@)[i as int] == x@);
            return true;
        }
        i += 1;
    }
    assert(text::texts(v@).len() == v@.len());
    false
}

/// A copy of `v`.
pub fn copy_oids(v: &Vec<Oid>) -> (r: Vec<Oid>)
    ensures
        r@ == v@,
{
    let mut out: Vec<Oid> = Vec::new();
    let mut i: usize = 0;
    while i < v.len()
        invariant
            i <= v.len(),
            out@ == v@.take(i as int),
        decreases v.len() - i,
    {
        out.push(v[i]);
        i += 1;
        assert(out@ =~= v@.take(i as int));
    }
    out
}

/// Adds `x` to `v` unless it is there.
pub fn add_oid(v: &mut Vec<Oid>, x: Oid)
    ensures
        final(v)@ == with(old(v)@, x),
{
    if !has_oid(v, x) {
        v.push(x);
    }
}

/// Adds to `v` the items of `more` that it lacks.
pub fn add_oids(v: &mut Vec<Oid>, more: &Vec<Oid>)
    ensures
        final(v)@ == with_all(old(v)@, more@),
{
    let mut i: usize = 0;
    while i < more.len()
        invariant
            i <= more.len(),
            v@ == with_all(old(v)@, more@.take(i as int)),
        decreases more.len() - i,
    {
        assert(more@.take(i + 1).drop_last() =~= more@.take(i as int));
        add_oid(v, more[i]);
        i += 1;
    }
    assert(more@.take(i as int) =~= more@);
}

/// The items of `v`, each once.
pub fn distinct_oids(v: &Vec<Oid>) -> (r: Vec<Oid>)
    ensures
        r@ == distinct(v@),
{
    let mut out: Vec<Oid> = Vec::new();
    add_oids(&mut out, v);
    out
}

/// The items of `v` other than `x`.
pub fn without_oid(v: &Vec<Oid>, x: Oid) -> (r: Vec<Oid>)
    ensures
        r@ == without(v@, x),
{
    let mut out: Vec<Oid> = Vec::new();
    let mut i: usize = 0;
    while i < v.len()
        invariant
            i <= v.len(),
            out@ == without(v@.take(i as int), x),
        decreases v.len() - i,
    {
        assert(v@.take(i + 1).drop_last() =~= v@.take(i as int));
        if v[i] != x {
            out.push(v[i]);
        }
        i += 1;
    }
    assert(v@.take(i as int) =~= v@);
    out
}

/// `v` with the membership of `x` switched.
pub fn toggle_oid(v: &Vec<Oid>, x: Oid) -> (r: Vec<Oid>)
    ensures
        r@ == toggled(v@, x),
{
    let mut out: Vec<Oid> = Vec::new();
    let mut i: usize = 0;
    assert(v@.skip(0) =~= v@);
    assert(out@ + without_first(v@, x) =~= without_first(v@, x));
    while i < v.len()
        invariant
            i <= v.len(),
            out@ == v@.take(i as int),
            forall|j: int| 0 <= j < i ==> v@[j] != x,
            without_first(v@, x) == out@ + without_first(v@.skip(i as int), x),
        decreases v.len() - i,
    {
        if v[i] == x {
            assert(v@.contains(x));
            let mut k: usize = i + 1;
            while k < v.len()
                invariant
                    i < k <= v.len(),
                    out@ == v@.take(i as int) + v@.subrange(i + 1, k as int),
                decreases v.len() - k,
            {
                out.push(v[k]);
                k += 1;
                assert(out@ =~= v@.take(i as int) + v@.subrange(i + 1, k as int));
            }
            assert(v@.subrange(i + 1, v@.len() as int) =~= v@.skip(i as int).drop_first());
            return out;
        }
        assert(v@.skip(i as int).drop_first() =~= v@.skip(i + 1));
        assert(v@.take(i + 1) + without_first(v@.skip(i + 1), x) =~= v@.take(i as int) + (
        seq![v@[i as int]] + without_first(v@.skip(i + 1), x)));
        out.push(v[i]);
        i += 1;
        assert(out@ =~= v@.take(i as int));
    }
    assert(!v@.contains(x));
    out.push(x);
    assert(out@ =~= v@.push(x));
    out
}

/// A copy of the texts of `v`.
pub fn copy_texts(v: &Vec<String>) -> (r: Vec<String>)
    ensures
        text::texts(r@) == text::texts(v@),
{
    let mut out: Vec<String> = Vec::new();
    let mut i: usize = 0;
    while i < v.len()
        invariant
            i <= v.len(),
            text::texts(out@) == text::texts(v@).take(i as int),
        decreases v.len() - i,
    {
        let ghost before = out@;
        out.push(v[i].clone());
        assert(text::texts(out@) =~= text::texts(before).push(v@[i as int]@));
        i += 1;
        assert(text::texts(out@) =~= text::texts(v@).take(i as int));
    }
    assert(text::texts(v@).take(i as int) =~= text::texts(v@));
    out
}

/// Adds the text `x` to `v` unless it is there.
pub fn add_text(v: &mut Vec<String>, x: &str)
    ensures
        text::texts(final(v)@) == with(text::texts(old(v)@), x@),
{
    if !has_text(v, x) {
        let ghost before = v@;
        v.push(x.to_owned());
        assert(text::texts(v@) =~= text::texts(before).push(x@));
    }
}

/// Adds to `v` the texts of `more` that it lacks.
pub fn add_texts(v: &mut Vec<String>, more: &Vec<String>)
    ensures
        text::texts(final(v)@) == with_all(text::texts(old(v)@), text::texts(more@)),
{
    let mut i: usize = 0;
    while i < more.len()
        invariant
            i <= more.len(),
            text::texts(v@) == with_all(text::texts(old(v)@), text::texts(more@).take(i as int)),
        decreases more.len() - i,
    {
        assert(text::texts(more@).take(i + 1).drop_last() =~= text::texts(more@).take(i as int));
        assert(text::texts(more@).take(i + 1).last() == more@[i as int]@);
        add_text(v, more[i].as_str());
        i += 1;
    }
    assert(text::texts(more@).take(i as int) =~= text::texts(more@));
}

/// The texts of `v` other than `x`.
pub fn without_text(v: &Vec<String>, x: &str) -> (r: Vec<String>)
    ensures
        text::texts(r@) == without(text::texts(v@), x@),
{
    let mut out: Vec<String> = Vec::new();
    let mut i: usize = 0;
    assert(text::texts(out@) =~= Seq::<Seq<char>>::empty());
    assert(text::texts(v@).take(0) =~= Seq::<Seq<char>>::empty());
    while i < v.len()
        invariant
            i <= v.len(),
            text::texts(out@) == without(text::texts(v@).take(i as int), x@),
        decreases v.len() - i,
    {
        let ghost t = text::texts(v@).take(i + 1);
        assert(t.drop_last() =~= text::texts(v@).take(i as int));
        assert(t.last() == v@[i as int]@);
        if !text::same_text(v[i].as_str(), x) {
            let ghost before = out@;
            out.push(v[i].clone());
            assert(text::texts(out@) =~= text::texts(before).push(v@[i as int]@));
        }
        i += 1;
    }
    assert(text::texts(v@).take(i as int) =~= text::texts(v@));
    out
}

/// What stays after an item is taken out: every other item, and never the item itself.
pub proof fn law_without_removes_exactly<A>(s: Seq<A>, x: A)
    ensures
        forall|y: A| #[trigger] without(s, x).contains(y) <==> s.contains(y) && y != x,
        without(s, x).len() <= s.len(),
    decreases s.len(),
{
    if s.len() > 0 {
        law_without_removes_exactly(s.drop_last(), x);
        assert forall|y: A| #[trigger] without(s, x).contains(y) <==> s.contains(y) && y != x by {
            let w = without(s.drop_last(), x);
            lemma_contains_last(s, y);
            lemma_contains_push(w, s.last(), y);
        }
    }
}

/// Taking an item out leaves the others in their order: a list in two parts can be treated part by
/// part.
pub proof fn law_without_keeps_the_order<A>(s: Seq<A>, t: Seq<A>, x: A)
    ensures
        without(s + t, x) == without(s, x) + without(t, x),
        forall|y: A| y != x ==> #[trigger] without(seq![y], x) == seq![y],
        without(seq![x], x).len() == 0,
    decreases t.len(),
{
    assert forall|y: A| y != x implies #[trigger] without(seq![y], x) == seq![y] by {
        assert(seq![y].drop_last() =~= Seq::<A>::empty());
        assert(without(Seq::<A>::empty(), x).len() == 0);
        assert(without(seq![y], x) =~= seq![y]);
    }
    assert(seq![x].drop_last() =~= Seq::<A>::empty());
    assert(without(Seq::<A>::empty(), x).len() == 0);
    if t.len() == 0 {
        assert(s + t =~= s);
        assert(without(s, x) + without(t, x) =~= without(s, x));
    } else {
        law_without_keeps_the_order(s, t.drop_last(), x);
        assert((s + t).drop_last() =~= s + t.drop_last());
        assert((s + t).last() == t.last());
        if t.last() != x {
            assert(without(s, x) + without(t.drop_last(), x).push(t.last()) =~= (without(s, x)
                + without(t.drop_last(), x)).push(t.last()));
        }
    }
}

/// An item that is added stands last, once, and one that is there already stays where it is; switching
/// an item on puts it last.
pub proof fn law_added_items_stand_last<A>(s: Seq<A>, x: A)
    ensures
        s.contains(x) ==> with(s, x) == s,
        !s.contains(x) ==> with(s, x) == s.push(x) && toggled(s, x) == s.push(x),
        s.contains(x) ==> toggled(s, x).len() == s.len() - 1,
{
    if s.contains(x) {
        lemma_without_first_len(s, x);
    }
}

proof fn lemma_without_first_len<A>(s: Seq<A>, x: A)
    requires
        s.contains(x),
    ensures
        without_first(s, x).len() == s.len() - 1,
    decreases s.len(),
{
    if s[0] != x {
        let i = choose|i: int| 0 <= i < s.len() && s[i] == x;
        assert(s.drop_first()[i - 1] == x);
        lemma_without_first_len(s.drop_first(), x);
    }
}

/// From a list in which nothing occurs twice, taking out an item that is there shortens it by one.
pub proof fn law_without_takes_one<A>(s: Seq<A>, i: int)
    requires
        0 <= i < s.len(),
        s.no_duplicates(),
    ensures
        without(s, s[i]).len() == s.len() - 1,
    decreases s.len(),
{
    let front = s.drop_last();
    assert(front.no_duplicates());
    if i < s.len() - 1 {
        law_without_takes_one(front, i);
        assert(front[i] == s[i]);
    } else {
        lemma_without_absent(front, s[i]);
    }
}

proof fn lemma_without_absent<A>(s: Seq<A>, x: A)
    requires
        !s.contains(x),
    ensures
        without(s, x) == s,
    decreases s.len(),
{
    if s.len() > 0 {
        let front = s.drop_last();
        assert forall|i: int| 0 <= i < front.len() implies front[i] != x by {
            assert(s[i] == front[i]);
        }
        lemma_without_absent(front, x);
        assert(s.last() == s[s.len() - 1]);
        assert(front.push(s.last()) =~= s);
    } else {
        assert(without(s, x) =~= s);
    }
}

/// Adding items one by one keeps what was there, adds what was given, and repeats nothing new.
pub proof fn law_with_all_members<A>(base: Seq<A>, more: Seq<A>)
    ensures
        forall|y: A| #[trigger]
            with_all(base, more).contains(y) <==> base.contains(y) || more.contains(y),
        base.no_duplicates() ==> with_all(base, more).no_duplicates(),
        with_all(base, more).len() >= base.len(),
        with_all(base, more).take(base.len() as int) == base,
    decreases more.len(),
{
    if more.len() > 0 {
        let rest = more.drop_last();
        let w = with_all(base, rest);
        law_with_all_members(base, rest);
        assert forall|y: A| #[trigger]
            with_all(base, more).contains(y) <==> base.contains(y) || more.contains(y) by {
            lemma_contains_last(more, y);
            lemma_contains_push(w, more.last(), y);
            assert(w.contains(y) <==> base.contains(y) || rest.contains(y));
        }
        assert(w.push(more.last()).take(base.len() as int) =~= w.take(base.len() as int));
        assert(with_all(base, more).take(base.len() as int) =~= base);
    } else {
        assert(base.take(base.len() as int) =~= base);
    }
}

/// The distinct items of a list are its items, each exactly once.
pub proof fn law_distinct_keeps_each_item_once<A>(s: Seq<A>)
    ensures
        forall|y: A| #[trigger] distinct(s).contains(y) <==> s.contains(y),
        distinct(s).no_duplicates(),
{
    law_with_all_members(Seq::<A>::empty(), s);
}

/// Switching a membership changes it, for that item alone, in a list without repetitions.
pub proof fn law_toggle_switches_one_membership<A>(s: Seq<A>, x: A)
    requires
        s.no_duplicates(),
    ensures
        toggled(s, x).contains(x) <==> !s.contains(x),
        forall|y: A| y != x ==> (#[trigger] toggled(s, x).contains(y) <==> s.contains(y)),
        toggled(s, x).no_duplicates(),
{
    if s.contains(x) {
        lemma_without_first(s, x);
    } else {
        assert forall|y: A| #[trigger] s.push(x).contains(y) <==> s.contains(y) || y == x by {
            lemma_contains_push(s, x, y);
        }
        assert(s.push(x).contains(x));
    }
}

/// Switching a membership twice leaves every membership as it was.
pub proof fn law_toggle_twice_restores<A>(s: Seq<A>, x: A)
    requires
        s.no_duplicates(),
    ensures
        forall|y: A| #[trigger] toggled(toggled(s, x), x).contains(y) <==> s.contains(y),
{
    law_toggle_switches_one_membership(s, x);
    law_toggle_switches_one_membership(toggled(s, x), x);
    assert forall|y: A| #[trigger] toggled(toggled(s, x), x).contains(y) <==> s.contains(y) by {
        assert(y != x ==> (toggled(s, x).contains(y) <==> s.contains(y)));
    }
}

proof fn lemma_without_first<A>(s: Seq<A>, x: A)
    requires
        s.no_duplicates(),
    ensures
        forall|y: A| #[trigger] without_first(s, x).contains(y) <==> s.contains(y) && y != x,
        without_first(s, x).no_duplicates(),
    decreases s.len(),
{
    if s.len() > 0 {
        let t = s.drop_first();
        assert forall|y: A| #[trigger] s.contains(y) <==> y == s[0] || t.contains(y) by {
            if s.contains(y) {
                let k = choose|k: int| 0 <= k < s.len() && s[k] == y;
                if k > 0 {
                    assert(t[k - 1] == y);
                }
            }
            if t.contains(y) {
                let k = choose|k: int| 0 <= k < t.len() && t[k] == y;
                assert(s[k + 1] == y);
            }
            if y == s[0] {
                assert(s.contains(y));
            }
        }
        assert(!t.contains(s[0])) by {
            if t.contains(s[0]) {
                let k = choose|k: int| 0 <= k < t.len() && t[k] == s[0];
                assert(s[k + 1] == s[0]);
            }
        }
        if s[0] != x {
            lemma_without_first(t, x);
            let w = without_first(t, x);
            let r = seq![s[0]] + w;
            assert forall|y: A| #[trigger] r.contains(y) <==> y == s[0] || w.contains(y) by {
                if r.contains(y) {
                    let k = choose|k: int| 0 <= k < r.len() && r[k] == y;
                    if k > 0 {
                        assert(w[k - 1] == y);
                    }
                }
                if w.contains(y) {
                    let k = choose|k: int| 0 <= k < w.len() && w[k] == y;
                    assert(r[k + 1] == y);
                }
                if y == s[0] {
                    assert(r[0] == y);
                }
            }
            assert forall|i: int, j: int| 0 <= i < r.len() && 0 <= j < r.len() && i != j implies r[i]
                != r[j] by {
                assert(!w.contains(s[0]));
                if i > 0 {
                    assert(r[i] == w[i - 1]);
                    assert(w.contains(w[i - 1]));
                }
                if j > 0 {
                    assert(r[j] == w[j - 1]);
                    assert(w.contains(w[j - 1]));
                }
            }
        }
    }
}

proof fn lemma_contains_push<A>(s: Seq<A>, x: A, y: A)
    ensures
        s.push(x).contains(y) <==> s.contains(y) || x == y,
{
    if s.contains(y) {
        let k = choose|k: int| 0 <= k < s.len() && s[k] == y;
        assert(s.push(x)[k] == y);
    }
    if x == y {
        assert(s.push(x)[s.len() as int] == y);
    }
}

proof fn lemma_contains_last<A>(s: Seq<A>, y: A)
    requires
        s.len() > 0,
    ensures
        s.contains(y) <==> s.drop_last().contains(y) || s.last() == y,
{
    assert(s =~= s.drop_last().push(s.last()));
    lemma_contains_push(s.drop_last(), s.last(), y);
}

} // verus!
