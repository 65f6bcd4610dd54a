//! A small map keyed by 128-bit connection and query identifiers, backed by
//! a vector of pairs with distinct keys. Its view is a `Map`, so the
//! registry's contracts speak plain map language.
use vstd::prelude::*;

verus! {

pub struct IdMap<V> {
    entries: Vec<(u128, V)>,
}

impl<V> IdMap<V> {
    pub open spec fn entries_map(s: Seq<(u128, V)>) -> Map<u128, V>
        decreases s.len(),
    {
        if s.len() == 0 {
            Map::empty()
        } else {
            Self::entries_map(s.drop_last()).insert(s.last().0, s.last().1)
        }
    }

    pub closed spec fn view(&self) -> Map<u128, V> {
        Self::entries_map(self.entries@)
    }

    /// Keys pairwise distinct; every public operation preserves this.
    pub closed spec fn wf(&self) -> bool {
        forall|i: int, j: int|
            0 <= i < j < self.entries@.len() ==> self.entries@[i].0 != self.entries@[j].0
    }

    proof fn lemma_domain(s: Seq<(u128, V)>, k: u128)
        ensures
            Self::entries_map(s).contains_key(k) <==> exists|i: int|
                0 <= i < s.len() && (#[trigger] s[i]).0 == k,
        decreases s.len(),
    {
        if s.len() > 0 {
            Self::lemma_domain(s.drop_last(), k);
            if s.last().0 == k {
                assert(s[s.len() - 1].0 == k);
            } else {
                if Self::entries_map(s).contains_key(k) {
                    let i = choose|i: int| 0 <= i < s.drop_last().len() && (#[trigger] s.drop_last()[i]).0 == k;
                    assert(s[i].0 == k);
                }
                if exists|i: int| 0 <= i < s.len() && (#[trigger] s[i]).0 == k {
                    let i = choose|i: int| 0 <= i < s.len() && (#[trigger] s[i]).0 == k;
                    assert(i < s.len() - 1);
                    assert(s.drop_last()[i].0 == k);
                }
            }
        }
    }

    proof fn lemma_value(s: Seq<(u128, V)>, i: int)
        requires
            0 <= i < s.len(),
            forall|a: int, b: int| 0 <= a < b < s.len() ==> s[a].0 != s[b].0,
        ensures
            Self::entries_map(s).contains_key(s[i].0),
            Self::entries_map(s)[s[i].0] == s[i].1,
        decreases s.len(),
    {
        if i == s.len() - 1 {
        } else {
            assert(s[i].0 != s.last().0);
            assert(s.drop_last()[i] == s[i]);
            Self::lemma_value(s.drop_last(), i);
        }
    }

    proof fn lemma_remove(s: Seq<(u128, V)>, i: int)
        requires
            0 <= i < s.len(),
            forall|a: int, b: int| 0 <= a < b < s.len() ==> s[a].0 != s[b].0,
        ensures
            Self::entries_map(s.remove(i)) == Self::entries_map(s).remove(s[i].0),
        decreases s.len(),
    {
        let k = s[i].0;
        if i == s.len() - 1 {
            assert(s.remove(i) =~= s.drop_last());
            Self::lemma_domain(s.drop_last(), k);
            assert(forall|a: int|
                0 <= a < s.drop_last().len() ==> (#[trigger] s.drop_last()[a]).0 != k);
            assert(!Self::entries_map(s.drop_last()).contains_key(k));
            assert(Self::entries_map(s).remove(k) =~= Self::entries_map(s.drop_last()));
        } else {
            assert(s.remove(i).drop_last() =~= s.drop_last().remove(i));
            assert(s.remove(i).last() == s.last());
            assert(forall|a: int, b: int|
                0 <= a < b < s.drop_last().len() ==> s.drop_last()[a].0 != s.drop_last()[b].0);
            assert(s.drop_last()[i] == s[i]);
            Self::lemma_remove(s.drop_last(), i);
            assert(s.remove(i).len() == s.len() - 1);
            assert(Self::entries_map(s.remove(i)) == Self::entries_map(
                s.remove(i).drop_last(),
            ).insert(s.last().0, s.last().1));
            assert(k != s.last().0);
            assert(Self::entries_map(s.drop_last()).remove(k).insert(s.last().0, s.last().1)
                =~= Self::entries_map(s.drop_last()).insert(s.last().0, s.last().1).remove(k));
        }
    }

    pub fn new() -> (r: Self)
        ensures
            r@ == Map::<u128, V>::empty(),
            r.wf(),
    {
        IdMap { entries: Vec::new() }
    }

    fn index_of(&self, k: u128) -> (r: Option<usize>)
        ensures
            match r {
                Option::Some(i) => i < self.entries@.len() && self.entries@[i as int].0 == k,
                Option::None => forall|j: int|
                    0 <= j < self.entries@.len() ==> (#[trigger] self.entries@[j]).0 != k,
            },
    {
        let n = self.entries.len();
        let mut i: usize = 0;
        while i < n
            invariant
                i <= n,
                n == self.entries@.len(),
                forall|j: int| 0 <= j < i ==> (#[trigger] self.entries@[j]).0 != k,
            decreases n - i,
        {
            if self.entries[i].0 == k {
                return Option::Some(i);
            }
            i = i + 1;
        }
        Option::None
    }

    pub fn contains_key(&self, k: u128) -> (r: bool)
        ensures
            r == self@.contains_key(k),
    {
        proof {
            Self::lemma_domain(self.entries@, k);
        }
        match self.index_of(k) {
            Option::Some(_) => true,
            Option::None => false,
        }
    }

    pub fn get(&self, k: u128) -> (r: Option<&V>)
        requires
            self.wf(),
        ensures
            match r {
                Option::Some(v) => self@.contains_key(k) && *v == self@[k],
                Option::None => !self@.contains_key(k),
            },
    {
        proof {
            Self::lemma_domain(self.entries@, k);
        }
        match self.index_of(k) {
            Option::Some(i) => {
                proof {
                    Self::lemma_value(self.entries@, i as int);
                }
                Option::Some(&self.entries[i].1)
            },
            Option::None => Option::None,
        }
    }

    pub fn insert(&mut self, k: u128, v: V)
        requires
            old(self).wf(),
        ensures
            final(self)@ == old(self)@.insert(k, v),
            final(self).wf(),
    {
        match self.index_of(k) {
            Option::Some(i) => {
                let ghost s = self.entries@;
                proof {
                    Self::lemma_remove(s, i as int);
                }
                let _ = self.entries.remove(i);
                proof {
                    assert(forall|a: int, b: int|
                        0 <= a < b < self.entries@.len() ==> self.entries@[a].0
                            != self.entries@[b].0) by {
                        assert(forall|a: int|
                            0 <= a < self.entries@.len() ==> #[trigger] self.entries@[a]
                                == if a < i { s[a] } else { s[a + 1] });
                    }
                    Self::lemma_domain(self.entries@, k);
                }
                self.entries.push((k, v));
                proof {
                    assert(self.entries@.drop_last() =~= s.remove(i as int));
                    assert(final(self)@ == Self::entries_map(s.remove(i as int)).insert(k, v));
                    assert(Self::entries_map(s).remove(k).insert(k, v) =~= Self::entries_map(
                        s,
                    ).insert(k, v));
                    assert(forall|a: int, b: int|
                        0 <= a < b < self.entries@.len() - 1 ==> self.entries@[a].0
                            != self.entries@[b].0);
                    assert(forall|a: int|
                        0 <= a < self.entries@.len() - 1 ==> (#[trigger] self.entries@[a]).0 != k)
                        by {
                        assert(forall|a: int|
                            0 <= a < s.remove(i as int).len() ==> (#[trigger] s.remove(
                                i as int,
                            )[a]).0 != k);
                    }
                }
            },
            Option::None => {
                self.entries.push((k, v));
                proof {
                    assert(self.entries@.drop_last() =~= old(self).entries@);
                }
            },
        }
    }

    pub fn remove(&mut self, k: u128) -> (r: Option<V>)
        requires
            old(self).wf(),
        ensures
            final(self)@ == old(self)@.remove(k),
            final(self).wf(),
            r.is_some() == old(self)@.contains_key(k),
            match r {
                Option::Some(v) => old(self)@.contains_key(k) && v == old(self)@[k],
                Option::None => !old(self)@.contains_key(k),
            },
    {
        proof {
            Self::lemma_domain(self.entries@, k);
        }
        match self.index_of(k) {
            Option::Some(i) => {
                let ghost s = self.entries@;
                proof {
                    Self::lemma_value(s, i as int);
                    Self::lemma_remove(s, i as int);
                }
                let (_, v) = self.entries.remove(i);
                proof {
                    assert(forall|a: int, b: int|
                        0 <= a < b < self.entries@.len() ==> self.entries@[a].0
                            != self.entries@[b].0) by {
                        assert(forall|a: int|
                            0 <= a < self.entries@.len() ==> #[trigger] self.entries@[a]
                                == if a < i { s[a] } else { s[a + 1] });
                    }
                }
                Option::Some(v)
            },
            Option::None => {
                proof {
                    assert(final(self)@ =~= old(self)@.remove(k));
                }
                Option::None
            },
        }
    }
}

} // verus!
