//! A small map keyed by names: the trust levels of VMs, the slots of auth
//! sticks and the managed VMs are all looked up by a name.
//!
//! Entries are kept in the order their names were first inserted; inserting
//! a name again replaces its value in place.

use vstd::prelude::*;

verus! {

/// The map that a list of entries stands for: the first entry for a name
/// gives its value.
pub open spec fn entries_map<V>(e: Seq<(String, V)>) -> Map<Seq<char>, V>
    decreases e.len(),
{
    if e.len() == 0 {
        Map::empty()
    } else {
        entries_map(e.drop_first()).insert(e[0].0@, e[0].1)
    }
}

/// No entry before position `i` is for the name `k`.
pub open spec fn absent_before<V>(e: Seq<(String, V)>, k: Seq<char>, i: int) -> bool {
    forall|j: int| 0 <= j < i ==> (#[trigger] e[j]).0@ != k
}

proof fn lemma_map_absent<V>(e: Seq<(String, V)>, k: Seq<char>)
    requires
        absent_before(e, k, e.len() as int),
    ensures
        !entries_map(e).contains_key(k),
    decreases e.len(),
{
    if e.len() > 0 {
        assert(absent_before(e.drop_first(), k, e.len() - 1)) by {
            assert forall|j: int| 0 <= j < e.len() - 1 implies (#[trigger] e.drop_first()[j]).0@
                != k by {
                assert(e.drop_first()[j] == e[j + 1]);
            }
        }
        lemma_map_absent(e.drop_first(), k);
        assert(e[0].0@ != k);
    }
}

proof fn lemma_map_at<V>(e: Seq<(String, V)>, i: int)
    requires
        0 <= i < e.len(),
        absent_before(e, e[i].0@, i),
    ensures
        entries_map(e).contains_key(e[i].0@),
        entries_map(e)[e[i].0@] == e[i].1,
    decreases i,
{
    if i > 0 {
        let d = e.drop_first();
        assert(d[i - 1] == e[i]);
        assert(absent_before(d, e[i].0@, i - 1)) by {
            assert forall|j: int| 0 <= j < i - 1 implies (#[trigger] d[j]).0@ != e[i].0@ by {
                assert(d[j] == e[j + 1]);
            }
        }
        lemma_map_at(d, i - 1);
        assert(e[0].0@ != e[i].0@);
    }
}

proof fn lemma_map_update<V>(e: Seq<(String, V)>, i: int, x: (String, V))
    requires
        0 <= i < e.len(),
        x.0@ == e[i].0@,
        absent_before(e, x.0@, i),
    ensures
        entries_map(e.update(i, x)) == entries_map(e).insert(x.0@, x.1),
    decreases i,
{
    let u = e.update(i, x);
    if i == 0 {
        assert(u.drop_first() =~= e.drop_first());
        assert(entries_map(u) =~= entries_map(e).insert(x.0@, x.1));
    } else {
        let d = e.drop_first();
        assert(u.drop_first() =~= d.update(i - 1, x));
        assert(d[i - 1] == e[i]);
        assert(absent_before(d, x.0@, i - 1)) by {
            assert forall|j: int| 0 <= j < i - 1 implies (#[trigger] d[j]).0@ != x.0@ by {
                assert(d[j] == e[j + 1]);
            }
        }
        lemma_map_update(d, i - 1, x);
        assert(e[0].0@ != x.0@);
        assert(entries_map(u) =~= entries_map(e).insert(x.0@, x.1));
    }
}

proof fn lemma_map_push<V>(e: Seq<(String, V)>, x: (String, V))
    requires
        absent_before(e, x.0@, e.len() as int),
    ensures
        entries_map(e.push(x)) == entries_map(e).insert(x.0@, x.1),
    decreases e.len(),
{
    if e.len() == 0 {
        assert(e.push(x).drop_first() =~= Seq::<(String, V)>::empty());
        assert(e.push(x)[0] == x);
        assert(entries_map(e.push(x).drop_first()) == Map::<Seq<char>, V>::empty());
        assert(entries_map(e) == Map::<Seq<char>, V>::empty());
        assert(entries_map(e.push(x)) =~= entries_map(e).insert(x.0@, x.1));
    } else {
        let d = e.drop_first();
        assert(e.push(x).drop_first() =~= d.push(x));
        assert(e.push(x)[0] == e[0]);
        assert(absent_before(d, x.0@, d.len() as int)) by {
            assert forall|j: int| 0 <= j < d.len() implies (#[trigger] d[j]).0@ != x.0@ by {
                assert(d[j] == e[j + 1]);
            }
        }
        lemma_map_push(d, x);
        assert(e[0].0@ != x.0@);
        assert(entries_map(e.push(x)) =~= entries_map(e).insert(x.0@, x.1));
    }
}

/// The names of the entries `e`, in order.
pub open spec fn names_of<V>(e: Seq<(String, V)>) -> Seq<Seq<char>> {
    e.map_values(|x: (String, V)| x.0@)
}

/// Every name of `e` has its own entry.
pub open spec fn names_distinct<V>(e: Seq<(String, V)>) -> bool {
    forall|i: int, j: int| 0 <= i < j < e.len() ==> (#[trigger] e[i]).0@ != (#[trigger] e[j]).0@
}

/// Each name with a value has an entry.
proof fn lemma_map_keys<V>(e: Seq<(String, V)>, k: Seq<char>)
    requires
        entries_map(e).contains_key(k),
    ensures
        exists|i: int| 0 <= i < e.len() && (#[trigger] e[i]).0@ == k,
    decreases e.len(),
{
    if e.len() > 0 && e[0].0@ != k {
        lemma_map_keys(e.drop_first(), k);
        let i = choose|i: int| 0 <= i < e.len() - 1 && (#[trigger] e.drop_first()[i]).0@ == k;
        assert(e[i + 1] == e.drop_first()[i]);
    }
}

/// A map from names to values that keeps its entries in the order their
/// names were first inserted.
pub struct NameMap<V> {
    entries: Vec<(String, V)>,
}

impl<V> NameMap<V> {
    /// Every name has one entry; `new` gives such a map and every method
    /// keeps it so.
    pub closed spec fn wf(&self) -> bool {
        names_distinct(self.entries@)
    }

    /// The value of each name.
    pub closed spec fn map(&self) -> Map<Seq<char>, V> {
        entries_map(self.entries@)
    }

    /// The names, in the order they were first inserted.
    pub closed spec fn keys_seq(&self) -> Seq<Seq<char>> {
        names_of(self.entries@)
    }

    /// An empty map.
    pub fn new() -> (m: Self)
        ensures
            m.map() == Map::<Seq<char>, V>::empty(),
            m.keys_seq() == Seq::<Seq<char>>::empty(),
            m.wf(),
    {
        let m = NameMap { entries: Vec::new() };
        assert(m.keys_seq() =~= Seq::<Seq<char>>::empty());
        m
    }

    /// The position of the first entry for `key`.
    fn position(&self, key: &str) -> (r: Option<usize>)
        ensures
            match r {
                Some(i) => i < self.entries@.len() && self.entries@[i as int].0@ == key@
                    && absent_before(self.entries@, key@, i as int),
                None => absent_before(self.entries@, key@, self.entries@.len() as int),
            },
    {
        let name = key.to_owned();
        let mut i: usize = 0;
        while i < self.entries.len()
            invariant
                i <= self.entries@.len(),
                name@ == key@,
                absent_before(self.entries@, key@, i as int),
            decreases self.entries@.len() - i,
        {
            if self.entries[i].0 == name {
                return Some(i);
            }
            i = i + 1;
        }
        None
    }

    /// Sets the value of `key`, replacing the value it had; a new name goes
    /// last.
    pub fn insert(&mut self, key: String, value: V)
        ensures
            final(self).map() == old(self).map().insert(key@, value),
            final(self).keys_seq() == if old(self).map().contains_key(key@) {
                old(self).keys_seq()
            } else {
                old(self).keys_seq().push(key@)
            },
            old(self).wf() ==> final(self).wf(),
    {
        match self.position(key.as_str()) {
            Some(i) => {
                let ghost e = self.entries@;
                let ghost k = key@;
                proof {
                    lemma_map_update(e, i as int, (key, value));
                    lemma_map_at(e, i as int);
                }
                self.entries.set(i, (key, value));
                assert(self.keys_seq() =~= old(self).keys_seq());
                assert(names_distinct(e) ==> names_distinct(self.entries@)) by {
                    assert forall|a: int, b: int|
                        names_distinct(e) && 0 <= a < b < self.entries@.len() implies (
                    #[trigger] self.entries@[a]).0@ != (#[trigger] self.entries@[b]).0@ by {
                        assert(self.entries@[a].0@ == e[a].0@);
                        assert(self.entries@[b].0@ == e[b].0@);
                    }
                }
            },
            None => {
                let ghost e = self.entries@;
                proof {
                    lemma_map_push(e, (key, value));
                    lemma_map_absent(e, key@);
                }
                self.entries.push((key, value));
                assert(self.keys_seq() =~= old(self).keys_seq().push(key@));
                assert(names_distinct(e) ==> names_distinct(self.entries@)) by {
                    assert forall|a: int, b: int|
                        names_distinct(e) && 0 <= a < b < self.entries@.len() implies (
                    #[trigger] self.entries@[a]).0@ != (#[trigger] self.entries@[b]).0@ by {
                        if b == e.len() {
                            assert(self.entries@[a] == e[a]);
                        } else {
                            assert(self.entries@[a] == e[a]);
                            assert(self.entries@[b] == e[b]);
                        }
                    }
                }
            },
        }
    }

    /// The value of `key`, if it has one.
    pub fn get(&self, key: &str) -> (r: Option<&V>)
        ensures
            match r {
                Some(v) => self.map().contains_key(key@) && *v == self.map()[key@],
                None => !self.map().contains_key(key@),
            },
    {
        match self.position(key) {
            Some(i) => {
                proof {
                    lemma_map_at(self.entries@, i as int);
                }
                Some(&self.entries[i].1)
            },
            None => {
                proof {
                    lemma_map_absent(self.entries@, key@);
                }
                None
            },
        }
    }

    /// The value of `key` for change in place, if it has one.
    pub fn get_mut(&mut self, key: &str) -> (r: Option<&mut V>)
        ensures
            final(self).keys_seq() == old(self).keys_seq(),
            old(self).wf() ==> final(self).wf(),
            match r {
                Some(v) => {
                    &&& old(self).map().contains_key(key@)
                    &&& *v == old(self).map()[key@]
                    &&& final(self).map() == old(self).map().insert(key@, *final(v))
                },
                None => {
                    &&& !old(self).map().contains_key(key@)
                    &&& final(self).map() == old(self).map()
                },
            },
    {
        match self.position(key) {
            Some(i) => {
                let ghost e = self.entries@;
                proof {
                    lemma_map_at(e, i as int);
                    assert forall|x: (String, V)| x.0@ == e[i as int].0@ implies #[trigger] entries_map(
                        e.update(i as int, x),
                    ) == entries_map(e).insert(x.0@, x.1) by {
                        lemma_map_update(e, i as int, x);
                    }
                    assert forall|x: (String, V)| x.0@ == e[i as int].0@ implies #[trigger] names_of(
                        e.update(i as int, x),
                    ) == names_of(e) && (names_distinct(e) ==> names_distinct(e.update(i as int, x))) by {
                        assert(names_of(e.update(i as int, x)) =~= names_of(e));
                        if names_distinct(e) {
                            assert forall|a: int, b: int| 0 <= a < b < e.len() implies (#[trigger] e.update(
                                i as int,
                                x,
                            )[a]).0@ != (#[trigger] e.update(i as int, x)[b]).0@ by {
                                assert(e.update(i as int, x)[a].0@ == e[a].0@);
                                assert(e.update(i as int, x)[b].0@ == e[b].0@);
                            }
                        }
                    }
                }
                let entry = &mut self.entries[i];
                Some(&mut entry.1)
            },
            None => {
                proof {
                    lemma_map_absent(self.entries@, key@);
                }
                None
            },
        }
    }

    /// Whether `key` has a value.
    pub fn contains_key(&self, key: &str) -> (b: bool)
        ensures
            b == self.map().contains_key(key@),
    {
        self.get(key).is_some()
    }

    /// The values, one for each name, in the order of `keys_seq`.
    pub fn values(&self) -> (r: Vec<&V>)
        requires
            self.wf(),
        ensures
            r@.len() == self.keys_seq().len(),
            self.keys_seq().no_duplicates(),
            forall|i: int| 0 <= i < r@.len() ==> self.map().contains_key(#[trigger] self.keys_seq()[i]),
            forall|i: int| 0 <= i < r@.len() ==> *(#[trigger] r@[i]) == self.map()[self.keys_seq()[i]],
            forall|k: Seq<char>| #[trigger] self.map().contains_key(k) ==> self.keys_seq().contains(k),
    {
        let ghost e = self.entries@;
        let ghost m = entries_map(e);
        let mut r: Vec<&V> = Vec::new();
        let mut i: usize = 0;
        while i < self.entries.len()
            invariant
                i <= e.len(),
                e == self.entries@,
                m == entries_map(e),
                names_distinct(e),
                r@.len() == i,
                forall|k: int| 0 <= k < i ==> m.contains_key(#[trigger] e[k].0@),
                forall|k: int| 0 <= k < i ==> *(#[trigger] r@[k]) == m[e[k].0@],
            decreases e.len() - i,
        {
            let ghost before = r@;
            proof {
                assert forall|j: int| 0 <= j < i implies (#[trigger] e[j]).0@ != e[i as int].0@ by {}
                assert(absent_before(e, e[i as int].0@, i as int));
                lemma_map_at(e, i as int);
            }
            r.push(&self.entries[i].1);
            assert(*r@[i as int] == e[i as int].1);
            assert(m.contains_key(e[i as int].0@) && m[e[i as int].0@] == e[i as int].1);
            assert forall|k: int| 0 <= k < i + 1 implies m.contains_key(e[k].0@) && *(#[trigger] r@[k])
                == m[e[k].0@] by {
                if k < i {
                    assert(r@[k] == before[k]);
                }
            }
            i = i + 1;
        }
        assert(names_of(e).len() == e.len());
        assert forall|k: int| 0 <= k < r@.len() implies self.map().contains_key(
            #[trigger] self.keys_seq()[k],
        ) && *r@[k] == self.map()[self.keys_seq()[k]] by {
            assert(self.keys_seq()[k] == e[k].0@);
        }
        assert forall|k: Seq<char>| #[trigger] self.map().contains_key(k) implies self.keys_seq().contains(
            k,
        ) by {
            lemma_map_keys(e, k);
            let j = choose|j: int| 0 <= j < e.len() && (#[trigger] e[j]).0@ == k;
            assert(self.keys_seq()[j] == k);
        }
        assert(self.keys_seq().no_duplicates()) by {
            assert forall|a: int, b: int| 0 <= a < self.keys_seq().len() && 0 <= b < self.keys_seq().len()
                && a != b implies self.keys_seq()[a] != self.keys_seq()[b] by {
                if a < b {
                    assert(e[a].0@ != e[b].0@);
                } else {
                    assert(e[b].0@ != e[a].0@);
                }
            }
        }
        r
    }
}

} // verus!
