//! A small association map keyed by `u64` identifiers, backed by a vector of
//! entries kept in insertion order. Keys are unique, and iteration (by
//! index) follows insertion order.

use vstd::prelude::*;

verus! {

/// The entry keys are pairwise distinct.
pub open spec fn entries_wf<V>(s: Seq<(u64, V)>) -> bool {
    forall|i: int, j: int| #![trigger s[i], s[j]] 0 <= i < j < s.len() ==> s[i].0 != s[j].0
}

pub open spec fn spec_has<V>(s: Seq<(u64, V)>, id: u64) -> bool {
    exists|i: int| 0 <= i < s.len() && (#[trigger] s[i]).0 == id
}

/// The index of `id`'s entry; meaningful under [`entries_wf`] when
/// [`spec_has`] holds.
pub open spec fn spec_at<V>(s: Seq<(u64, V)>, id: u64) -> int {
    choose|i: int| 0 <= i < s.len() && (#[trigger] s[i]).0 == id
}

pub open spec fn spec_get<V>(s: Seq<(u64, V)>, id: u64) -> Option<V> {
    if spec_has(s, id) {
        Option::Some(s[spec_at(s, id)].1)
    } else {
        Option::None
    }
}

/// With unique keys, an entry holding `id` is the entry `spec_at` points to.
pub proof fn lemma_at_is_unique<V>(s: Seq<(u64, V)>, id: u64, i: int)
    requires
        entries_wf(s),
        0 <= i < s.len(),
        s[i].0 == id,
    ensures
        spec_has(s, id),
        spec_at(s, id) == i,
        spec_get(s, id) == Option::Some(s[i].1),
{
    assert(spec_has(s, id));
    let j = spec_at(s, id);
    assert(0 <= j < s.len() && s[j].0 == id);
    if j < i {
        assert(s[j].0 != s[i].0);
    } else if i < j {
        assert(s[i].0 != s[j].0);
    }
}

proof fn lemma_push_wf<V>(s: Seq<(u64, V)>, id: u64, v: V)
    requires
        entries_wf(s),
        !spec_has(s, id),
    ensures
        entries_wf(s.push((id, v))),
{
    let t = s.push((id, v));
    assert forall|a: int, b: int| #![trigger t[a], t[b]] 0 <= a < b < t.len() implies t[a].0
        != t[b].0 by {
        assert(t[a] == s[a]);
        if b < s.len() {
            assert(t[b] == s[b]);
        } else {
            assert(t[b] == (id, v));
            assert(s[a].0 != id);
        }
    }
}

proof fn lemma_push_preserves<V>(s: Seq<(u64, V)>, id: u64, v: V, o: u64)
    requires
        entries_wf(s),
        !spec_has(s, id),
        o != id,
    ensures
        spec_has(s.push((id, v)), o) == spec_has(s, o),
        spec_get(s.push((id, v)), o) == spec_get(s, o),
{
    let t = s.push((id, v));
    lemma_push_wf(s, id, v);
    if spec_has(s, o) {
        let i = spec_at(s, o);
        assert(0 <= i < s.len() && s[i].0 == o);
        assert(t[i] == s[i]);
        lemma_at_is_unique(t, o, i);
        lemma_at_is_unique(s, o, i);
    } else {
        if spec_has(t, o) {
            let i = spec_at(t, o);
            assert(0 <= i < t.len() && t[i].0 == o);
            assert(i < s.len() ==> s[i].0 == o);
            assert(i == s.len() ==> t[i].0 == id);
        }
    }
}

proof fn lemma_remove_wf<V>(s: Seq<(u64, V)>, i: int)
    requires
        entries_wf(s),
        0 <= i < s.len(),
    ensures
        entries_wf(s.remove(i)),
{
    let t = s.remove(i);
    s.remove_ensures(i);
    assert forall|a: int, b: int| #![trigger t[a], t[b]] 0 <= a < b < t.len() implies t[a].0
        != t[b].0 by {
        let a2 = if a < i { a } else { a + 1 };
        let b2 = if b < i { b } else { b + 1 };
        assert(t[a] == s[a2]);
        assert(t[b] == s[b2]);
        assert(s[a2].0 != s[b2].0);
    }
}

proof fn lemma_remove_preserves<V>(s: Seq<(u64, V)>, i: int, o: u64)
    requires
        entries_wf(s),
        0 <= i < s.len(),
        s[i].0 != o,
    ensures
        spec_has(s.remove(i), o) == spec_has(s, o),
        spec_get(s.remove(i), o) == spec_get(s, o),
{
    let t = s.remove(i);
    s.remove_ensures(i);
    lemma_remove_wf(s, i);
    if spec_has(s, o) {
        let k = spec_at(s, o);
        assert(0 <= k < s.len() && s[k].0 == o);
        assert(k != i);
        let k2 = if k < i { k } else { k - 1 };
        assert(t[k2] == s[k]);
        lemma_at_is_unique(t, o, k2);
        lemma_at_is_unique(s, o, k);
    } else {
        if spec_has(t, o) {
            let k = spec_at(t, o);
            assert(0 <= k < t.len() && t[k].0 == o);
            let k2 = if k < i { k } else { k + 1 };
            assert(t[k] == s[k2]);
        }
    }
}

proof fn lemma_update_wf<V>(s: Seq<(u64, V)>, i: int, v: V)
    requires
        entries_wf(s),
        0 <= i < s.len(),
    ensures
        entries_wf(s.update(i, (s[i].0, v))),
{
    let t = s.update(i, (s[i].0, v));
    assert forall|a: int, b: int| #![trigger t[a], t[b]] 0 <= a < b < t.len() implies t[a].0
        != t[b].0 by {
        assert(t[a].0 == s[a].0);
        assert(t[b].0 == s[b].0);
        assert(s[a].0 != s[b].0);
    }
}

proof fn lemma_update_preserves<V>(s: Seq<(u64, V)>, i: int, v: V, o: u64)
    requires
        entries_wf(s),
        0 <= i < s.len(),
        s[i].0 != o,
    ensures
        spec_has(s.update(i, (s[i].0, v)), o) == spec_has(s, o),
        spec_get(s.update(i, (s[i].0, v)), o) == spec_get(s, o),
{
    let t = s.update(i, (s[i].0, v));
    lemma_update_wf(s, i, v);
    if spec_has(s, o) {
        let k = spec_at(s, o);
        assert(0 <= k < s.len() && s[k].0 == o);
        assert(k != i);
        assert(t[k] == s[k]);
        lemma_at_is_unique(t, o, k);
        lemma_at_is_unique(s, o, k);
    } else {
        if spec_has(t, o) {
            let k = spec_at(t, o);
            assert(0 <= k < t.len() && t[k].0 == o);
            assert(s[k].0 == o);
        }
    }
}

/// An insertion-ordered map from `u64` identifiers to values.
pub struct IdMap<V> {
    entries: Vec<(u64, V)>,
}

impl<V> IdMap<V> {
    /// The entries, in insertion order.
    pub closed spec fn view(self) -> Seq<(u64, V)> {
        self.entries@
    }

    pub open spec fn wf(self) -> bool {
        entries_wf(self@)
    }

    pub open spec fn has(self, id: u64) -> bool {
        spec_has(self@, id)
    }

    pub open spec fn get_spec(self, id: u64) -> Option<V> {
        spec_get(self@, id)
    }

    pub fn new() -> (r: IdMap<V>)
        ensures
            r@ == Seq::<(u64, V)>::empty(),
            r.wf(),
    {
        IdMap { entries: Vec::new() }
    }

    pub fn len(&self) -> (r: usize)
        ensures
            r == self@.len(),
    {
        self.entries.len()
    }

    fn index_of(&self, id: u64) -> (r: Option<usize>)
        requires
            self.wf(),
        ensures
            match r {
                Option::Some(i) => i < self@.len() && self@[i as int].0 == id && spec_at(self@, id)
                    == i && self.has(id),
                Option::None => !self.has(id),
            },
    {
        let n = self.entries.len();
        let mut i: usize = 0;
        while i < n
            invariant
                0 <= i <= n,
                n == self@.len(),
                self.wf(),
                forall|j: int| 0 <= j < i ==> (#[trigger] self@[j]).0 != id,
            decreases n - i,
        {
            if self.entries[i].0 == id {
                proof {
                    lemma_at_is_unique(self@, id, i as int);
                }
                return Some(i);
            }
            i = i + 1;
        }
        None
    }

    pub fn contains(&self, id: u64) -> (r: bool)
        requires
            self.wf(),
        ensures
            r == self.has(id),
    {
        self.index_of(id).is_some()
    }

    pub fn get(&self, id: u64) -> (r: Option<&V>)
        requires
            self.wf(),
        ensures
            match r {
                Option::Some(v) => self.has(id) && self.get_spec(id) == Option::Some(*v),
                Option::None => !self.has(id),
            },
    {
        match self.index_of(id) {
            Some(i) => {
                let e = &self.entries[i];
                Some(&e.1)
            },
            None => None,
        }
    }

    pub fn insert(&mut self, id: u64, v: V)
        requires
            old(self).wf(),
            !old(self).has(id),
        ensures
            final(self).wf(),
            final(self)@ == old(self)@.push((id, v)),
            final(self).has(id),
            final(self).get_spec(id) == Option::Some(v),
            forall|o: u64| o != id ==> (#[trigger] final(self).has(o)) == old(self).has(o),
            forall|o: u64| o != id ==> (#[trigger] final(self).get_spec(o)) == old(self).get_spec(o),
    {
        let ghost s = self.entries@;
        self.entries.push((id, v));
        proof {
            lemma_push_wf(s, id, v);
            lemma_at_is_unique(self@, id, s.len() as int);
            assert forall|o: u64| o != id implies (#[trigger] self.has(o)) == spec_has(s, o) by {
                lemma_push_preserves(s, id, v, o);
            }
            assert forall|o: u64| o != id implies (#[trigger] self.get_spec(o)) == spec_get(
                s,
                o,
            ) by {
                lemma_push_preserves(s, id, v, o);
            }
        }
    }

    pub fn remove(&mut self, id: u64) -> (r: Option<V>)
        requires
            old(self).wf(),
        ensures
            final(self).wf(),
            !final(self).has(id),
            r == old(self).get_spec(id),
            forall|o: u64| o != id ==> (#[trigger] final(self).has(o)) == old(self).has(o),
            forall|o: u64| o != id ==> (#[trigger] final(self).get_spec(o)) == old(self).get_spec(o),
            old(self).has(id) ==> final(self)@.len() == old(self)@.len() - 1 && final(self)@
                == old(self)@.remove(spec_at(old(self)@, id)),
            !old(self).has(id) ==> final(self)@ == old(self)@,
    {
        let ghost s = self.entries@;
        match self.index_of(id) {
            Some(i) => {
                let e = self.entries.remove(i);
                proof {
                    s.remove_ensures(i as int);
                    lemma_remove_wf(s, i as int);
                    assert forall|o: u64| o != id implies (#[trigger] self.has(o)) == spec_has(
                        s,
                        o,
                    ) by {
                        lemma_remove_preserves(s, i as int, o);
                    }
                    assert forall|o: u64| o != id implies (#[trigger] self.get_spec(o))
                        == spec_get(s, o) by {
                        lemma_remove_preserves(s, i as int, o);
                    }
                    if spec_has(self@, id) {
                        let k = spec_at(self@, id);
                        assert(0 <= k < self@.len() && self@[k].0 == id);
                        let k2 = if k < i as int { k } else { k + 1 };
                        assert(self@[k] == s[k2]);
                        assert(s[k2].0 == id);
                        assert(s[i as int].0 == id);
                        assert(k2 != i as int);
                        if k2 < i as int {
                            assert(s[k2].0 != s[i as int].0);
                        } else {
                            assert(s[i as int].0 != s[k2].0);
                        }
                        assert(false);
                    }
                    lemma_at_is_unique(s, id, i as int);
                }
                Some(e.1)
            },
            None => None,
        }
    }

    /// Replaces the value stored for `id`, keeping its place in the order.
    pub fn set_value(&mut self, id: u64, v: V)
        requires
            old(self).wf(),
            old(self).has(id),
        ensures
            final(self).wf(),
            final(self)@ == old(self)@.update(spec_at(old(self)@, id), (id, v)),
            final(self)@.len() == old(self)@.len(),
            final(self).has(id),
            final(self).get_spec(id) == Option::Some(v),
            forall|o: u64| o != id ==> (#[trigger] final(self).has(o)) == old(self).has(o),
            forall|o: u64| o != id ==> (#[trigger] final(self).get_spec(o)) == old(self).get_spec(o),
    {
        let i = match self.index_of(id) {
            Some(i) => i,
            None => {
                proof {
                    assert(false);
                }
                0
            },
        };
        let ghost s = self.entries@;
        self.entries.remove(i);
        self.entries.insert(i, (id, v));
        proof {
            s.remove_ensures(i as int);
            assert(self@ =~= s.update(i as int, (id, v)));
            assert(s[i as int].0 == id);
            lemma_update_wf(s, i as int, v);
            assert forall|o: u64| o != id implies (#[trigger] self.has(o)) == spec_has(s, o) by {
                lemma_update_preserves(s, i as int, v, o);
            }
            assert forall|o: u64| o != id implies (#[trigger] self.get_spec(o)) == spec_get(
                s,
                o,
            ) by {
                lemma_update_preserves(s, i as int, v, o);
            }
            lemma_at_is_unique(self@, id, i as int);
        }
    }

    /// The entry at position `i` in insertion order.
    pub fn entry_at(&self, i: usize) -> (r: (u64, &V))
        requires
            i < self@.len(),
        ensures
            r.0 == self@[i as int].0,
            *r.1 == self@[i as int].1,
    {
        let e = &self.entries[i];
        (e.0, &e.1)
    }

    /// Replaces the value at position `i`, keeping the key.
    pub fn set_at(&mut self, i: usize, v: V)
        requires
            old(self).wf(),
            i < old(self)@.len(),
        ensures
            final(self).wf(),
            final(self)@ == old(self)@.update(i as int, (old(self)@[i as int].0, v)),
            final(self)@.len() == old(self)@.len(),
            forall|o: u64| o != old(self)@[i as int].0 ==> (#[trigger] final(self).get_spec(o))
                == old(self).get_spec(o),
    {
        let ghost s = self.entries@;
        let k = self.entries[i].0;
        self.entries.remove(i);
        self.entries.insert(i, (k, v));
        proof {
            s.remove_ensures(i as int);
            assert(self@ =~= s.update(i as int, (k, v)));
            lemma_update_wf(s, i as int, v);
            assert forall|o: u64| o != s[i as int].0 implies (#[trigger] self.get_spec(o))
                == spec_get(s, o) by {
                lemma_update_preserves(s, i as int, v, o);
            }
        }
    }
}

} // verus!
