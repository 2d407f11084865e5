//! Counts with the time of the last event, kept by name.

use vstd::hash_map::StringHashMap;
use vstd::prelude::*;

use crate::text;

verus! {

/// A count, and when it last changed, in nanoseconds.
#[derive(Clone, Copy, Debug, PartialEq, Eq)]
pub struct Stamp {
    pub count: u32,
    pub last: u64,
}

/// How long before `now` the time `last` was; nothing where it was not before.
pub open spec fn age(now: u64, last: u64) -> int {
    if now >= last {
        now - last
    } else {
        0
    }
}

/// Finds how long before `now` the time `last` was.
pub fn time_since(now: u64, last: u64) -> (r: u64)
    ensures
        r == age(now, last),
{
    if now >= last {
        now - last
    } else {
        0
    }
}

/// Time does not run backwards: what is noted later is younger, and nothing has a negative age.
pub proof fn law_age_grows_with_time(now: u64, later: u64, last: u64)
    requires
        now <= later,
    ensures
        0 <= age(now, last) <= age(later, last),
        last <= now ==> age(now, last) == now - last && age(later, last) == age(now, last) + (later
            - now),
{
}

/// Whether the stamp of `key` is not older than `max`.
pub open spec fn is_recent(m: Map<Seq<char>, Stamp>, key: Seq<char>, now: u64, max: u64) -> bool {
    m.contains_key(key) && age(now, m[key].last) <= max
}

/// The stamps that are not older than `max`.
pub open spec fn recent(m: Map<Seq<char>, Stamp>, now: u64, max: u64) -> Map<Seq<char>, Stamp> {
    m.restrict(m.dom().filter(|key: Seq<char>| is_recent(m, key, now, max)))
}

/// Stamps by name.
pub struct Stamps {
    stamps: StringHashMap<Stamp>,
    /// The names, each once.
    names: Vec<String>,
}

impl View for Stamps {
    type V = Map<Seq<char>, Stamp>;

    closed spec fn view(&self) -> Map<Seq<char>, Stamp> {
        self.stamps@
    }
}

impl Stamps {
    /// Whether the list of names agrees with the stamps.
    pub closed spec fn wf(&self) -> bool {
        &&& text::texts(self.names@).no_duplicates()
        &&& forall|k: Seq<char>| #[trigger]
            text::texts(self.names@).contains(k) <==> self.stamps@.contains_key(k)
        &&& self.stamps@.dom().finite()
    }

    /// No stamps.
    pub fn new() -> (r: Self)
        ensures
            r.wf(),
            r@ == Map::<Seq<char>, Stamp>::empty(),
    {
        let r = Stamps { stamps: StringHashMap::new(), names: Vec::new() };
        assert(text::texts(r.names@) =~= Seq::empty());
        r
    }

    /// How many names have a stamp.
    pub fn len(&self) -> (r: usize)
        ensures
            r == self@.len(),
    {
        self.stamps.len()
    }

    /// The stamp of `key`.
    pub fn get(&self, key: &str) -> (r: Option<Stamp>)
        ensures
            r == (if self@.contains_key(key@) {
                Some(self@[key@])
            } else {
                None
            }),
    {
        match self.stamps.get(key) {
            None => None,
            Some(s) => Some(*s),
        }
    }

    /// Gives `key` a stamp.
    pub fn put(&mut self, key: &str, stamp: Stamp)
        requires
            old(self).wf(),
        ensures
            final(self).wf(),
            final(self)@ == old(self)@.insert(key@, stamp),
    {
        let ghost before = text::texts(self.names@);
        if !self.stamps.contains_key(key) {
            self.names.push(key.to_owned());
            proof {
                let after = text::texts(self.names@);
                assert(after =~= before.push(key@));
                assert(!before.contains(key@));
                assert forall|i: int, j: int| 0 <= i < j < after.len() implies after[i] != after[j] by {
                    if j == before.len() {
                        assert(before.contains(before[i]));
                    }
                }
                assert forall|k: Seq<char>| #[trigger]
                    after.contains(k) <==> before.contains(k) || k == key@ by {
                    if before.contains(k) {
                        let i = choose|i: int| 0 <= i < before.len() && before[i] == k;
                        assert(after[i] == k);
                    }
                    assert(after[before.len() as int] == key@);
                }
            }
        }
        self.stamps.insert(key.to_owned(), stamp);
    }

    /// Drops the stamps that are older than `max`.
    pub fn keep_recent(&mut self, now: u64, max: u64)
        requires
            old(self).wf(),
        ensures
            final(self).wf(),
            final(self)@ == recent(old(self)@, now, max),
    {
        let ghost all = self.stamps@;
        let ghost names = text::texts(self.names@);
        let mut kept: Vec<String> = Vec::new();
        let mut i: usize = 0;
        assert(text::texts(kept@) =~= Seq::empty());
        while i < self.names.len()
            invariant
                i <= self.names.len(),
                names == text::texts(self.names@),
                names.no_duplicates(),
                forall|k: Seq<char>| #[trigger] names.contains(k) <==> all.contains_key(k),
                text::texts(kept@).no_duplicates(),
                forall|k: Seq<char>| #[trigger]
                    text::texts(kept@).contains(k) <==> names.take(i as int).contains(k)
                        && is_recent(all, k, now, max),
                forall|k: Seq<char>| #[trigger]
                    self.stamps@.contains_key(k) <==> all.contains_key(k) && !(names.take(
                        i as int,
                    ).contains(k) && !is_recent(all, k, now, max)),
                forall|k: Seq<char>| #[trigger]
                    self.stamps@.contains_key(k) ==> self.stamps@[k] == all[k],
                all.dom().finite(),
                self.stamps@.dom().finite(),
            decreases self.names.len() - i,
        {
            let ghost name = names[i as int];
            let ghost before = text::texts(kept@);
            let ghost stamps_before = self.stamps@;
            proof {
                assert(names.contains(name));
                assert(name == self.names@[i as int]@);
                assert(!names.take(i as int).contains(name)) by {
                    if names.take(i as int).contains(name) {
                        let j = choose|j: int| 0 <= j < i && names.take(i as int)[j] == name;
                        assert(names[j] == name);
                    }
                }
                assert(names.take(i + 1) =~= names.take(i as int).push(name));
                assert forall|k: Seq<char>| #[trigger]
                    names.take(i + 1).contains(k) <==> names.take(i as int).contains(k) || k == name by {
                    let t = names.take(i as int);
                    if t.contains(k) {
                        let j = choose|j: int| 0 <= j < t.len() && t[j] == k;
                        assert(names.take(i + 1)[j] == k);
                    }
                    assert(names.take(i + 1)[i as int] == name);
                }
                assert(self.stamps@.contains_key(name));
            }
            let key = self.names[i].as_str().to_owned();
            let stale = match self.stamps.get(key.as_str()) {
                None => true,
                Some(s) => time_since(now, s.last) > max,
            };
            if stale {
                self.stamps.remove(key.as_str());
            } else {
                kept.push(key);
                proof {
                    let after = text::texts(kept@);
                    assert(after =~= before.push(name));
                    assert(!before.contains(name));
                    assert forall|a: int, b: int| 0 <= a < b < after.len() implies after[a]
                        != after[b] by {
                        if b == before.len() {
                            assert(before.contains(before[a]));
                        }
                    }
                    assert forall|k: Seq<char>| #[trigger]
                        after.contains(k) <==> before.contains(k) || k == name by {
                        if before.contains(k) {
                            let j = choose|j: int| 0 <= j < before.len() && before[j] == k;
                            assert(after[j] == k);
                        }
                        assert(after[before.len() as int] == name);
                    }
                }
            }
            i += 1;
        }
        self.names = kept;
        proof {
            assert(names.take(names.len() as int) =~= names);
            assert(self.stamps@ =~= recent(all, now, max));
        }
    }
}

} // verus!
