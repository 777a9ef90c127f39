//! Tables keyed by name: the later of two entries under one name wins, as
//! with a hash map's `insert`.
use vstd::prelude::*;
use crate::text::is_lit;

verus! {

/// The map that a list of entries denotes: later entries override earlier ones.
pub open spec fn map_of<V: View>(es: Seq<(String, V)>) -> Map<Seq<char>, V::V>
    decreases es.len(),
{
    if es.len() == 0 {
        Map::empty()
    } else {
        map_of(es.drop_last()).insert(es.last().0@, es.last().1@)
    }
}

/// Entries at or after `j` do not mention `k`, so `k` means in all of `es`
/// what it means in the first `j` entries.
pub proof fn lemma_map_of_prefix<V: View>(es: Seq<(String, V)>, j: int, k: Seq<char>)
    requires
        0 <= j <= es.len(),
        forall|m: int| j <= m < es.len() ==> (#[trigger] es[m]).0@ != k,
    ensures
        map_of(es).contains_key(k) == map_of(es.take(j)).contains_key(k),
        map_of(es).contains_key(k) ==> map_of(es)[k] == map_of(es.take(j))[k],
    decreases es.len(),
{
    if es.len() > j {
        assert(es.drop_last().take(j) =~= es.take(j));
        lemma_map_of_prefix(es.drop_last(), j, k);
    } else {
        assert(es.take(j) =~= es);
    }
}

/// Changing the value of the entry that gives its name a value changes only
/// that name's value.
pub proof fn lemma_map_of_update<V: View>(es: Seq<(String, V)>, j: int)
    requires
        0 <= j < es.len(),
        forall|m: int| j < m < es.len() ==> (#[trigger] es[m]).0@ != es[j].0@,
    ensures
        forall|v: V| #[trigger] map_of(es.update(j, (es[j].0, v))) == map_of(es).insert(es[j].0@, v@),
    decreases es.len(),
{
    assert forall|v: V| #[trigger] map_of(es.update(j, (es[j].0, v))) == map_of(es).insert(es[j].0@, v@) by {
        lemma_map_of_update_one(es, j, v);
    }
}

proof fn lemma_map_of_update_one<V: View>(es: Seq<(String, V)>, j: int, v: V)
    requires
        0 <= j < es.len(),
        forall|m: int| j < m < es.len() ==> (#[trigger] es[m]).0@ != es[j].0@,
    ensures
        map_of(es.update(j, (es[j].0, v))) == map_of(es).insert(es[j].0@, v@),
    decreases es.len(),
{
    let us = es.update(j, (es[j].0, v));
    if j == es.len() - 1 {
        assert(us.drop_last() =~= es.drop_last());
        assert(map_of(us) =~= map_of(es).insert(es[j].0@, v@));
    } else {
        let d = es.drop_last();
        assert(us.drop_last() =~= d.update(j, (d[j].0, v)));
        lemma_map_of_update_one(d, j, v);
        assert(map_of(us) =~= map_of(es).insert(es[j].0@, v@));
    }
}

/// A table from names to values.
pub struct NameMap<V> {
    entries: Vec<(String, V)>,
}

impl<V: View> View for NameMap<V> {
    type V = Map<Seq<char>, V::V>;

    closed spec fn view(&self) -> Map<Seq<char>, V::V> {
        map_of(self.entries@)
    }
}

impl<V: View> NameMap<V> {
    pub fn new() -> (m: Self)
        ensures
            m@ == Map::<Seq<char>, V::V>::empty(),
    {
        NameMap { entries: Vec::new() }
    }

    /// Binds `k` to `v`, replacing an earlier binding of `k`.
    pub fn insert(&mut self, k: String, v: V)
        ensures
            final(self)@ == old(self)@.insert(k@, v@),
    {
        let ghost es = self.entries@;
        self.entries.push((k, v));
        assert(self.entries@.drop_last() =~= es);
    }

    /// Index of the entry that gives `k` its value.
    fn find(&self, k: &str) -> (r: Option<usize>)
        ensures
            match r {
                Some(j) => j < self.entries.len() && self.entries@[j as int].0@ == k@
                    && self@.contains_key(k@) && self@[k@] == self.entries@[j as int].1@
                    && forall|m: int| j < m < self.entries.len() ==> (#[trigger] self.entries@[m]).0@ != k@,
                None => !self@.contains_key(k@),
            },
    {
        let mut i = self.entries.len();
        while i > 0
            invariant
                i <= self.entries.len(),
                forall|m: int| i <= m < self.entries.len() ==> (#[trigger] self.entries@[m]).0@ != k@,
            decreases i,
        {
            if is_lit(self.entries[i - 1].0.as_str(), k) {
                proof {
                    let es = self.entries@;
                    lemma_map_of_prefix(es, i as int, k@);
                    assert(es.take(i as int).drop_last() =~= es.take(i - 1));
                }
                return Some(i - 1);
            }
            i -= 1;
        }
        proof {
            lemma_map_of_prefix(self.entries@, 0, k@);
        }
        None
    }

    /// The value bound to `k`.
    pub fn get(&self, k: &str) -> (r: Option<&V>)
        ensures
            match r {
                Some(v) => self@.contains_key(k@) && v@ == self@[k@],
                None => !self@.contains_key(k@),
            },
    {
        match self.find(k) {
            Some(j) => Some(&self.entries[j].1),
            None => None,
        }
    }

    /// The value bound to `k`, to be changed in place.
    pub fn get_mut(&mut self, k: &str) -> (r: Option<&mut V>)
        ensures
            match r {
                Some(v) => old(self)@.contains_key(k@) && v@ == old(self)@[k@]
                    && final(self)@ == old(self)@.insert(k@, final(v)@),
                None => !old(self)@.contains_key(k@) && final(self)@ == old(self)@,
            },
    {
        match self.find(k) {
            Some(j) => {
                proof {
                    lemma_map_of_update(self.entries@, j as int);
                }
                Some(&mut self.entries[j].1)
            },
            None => None,
        }
    }

    pub fn contains_key(&self, k: &str) -> (b: bool)
        ensures
            b == self@.contains_key(k@),
    {
        self.find(k).is_some()
    }
}

/// A set of names.
pub struct NameSet {
    names: Vec<String>,
}

impl View for NameSet {
    type V = Set<Seq<char>>;

    closed spec fn view(&self) -> Set<Seq<char>> {
        Set::new(|k: Seq<char>| has_name(self.names@, k))
    }
}

impl NameSet {
    pub fn new() -> (s: Self)
        ensures
            s@ == Set::<Seq<char>>::empty(),
    {
        let s = NameSet { names: Vec::new() };
        assert(s@ =~= Set::<Seq<char>>::empty());
        s
    }

    pub fn insert(&mut self, k: String)
        ensures
            final(self)@ == old(self)@.insert(k@),
    {
        let ghost old_names = self.names@;
        self.names.push(k);
        proof {
            assert forall|x: Seq<char>| has_name(self.names@, x) == (has_name(old_names, x) || x == k@) by {
                if x == k@ {
                    assert(self.names@[self.names.len() - 1]@ == x);
                }
                if has_name(old_names, x) {
                    let i = choose|i: int| 0 <= i < old_names.len() && (#[trigger] old_names[i])@ == x;
                    assert(self.names@[i] == old_names[i]);
                }
                if has_name(self.names@, x) && x != k@ {
                    let i = choose|i: int| 0 <= i < self.names@.len() && (#[trigger] self.names@[i])@ == x;
                    assert(i < old_names.len());
                    assert(old_names[i] == self.names@[i]);
                }
            }
            assert(old_names == old(self).names@);
            assert forall|x: Seq<char>| #[trigger] self@.contains(x) == old(self)@.insert(k@).contains(x) by {
                assert(self@.contains(x) == has_name(self.names@, x));
                assert(old(self)@.contains(x) == has_name(old_names, x));
            }
            assert(self@ =~= old(self)@.insert(k@));
        }
    }

    pub fn contains(&self, k: &str) -> (b: bool)
        ensures
            b == self@.contains(k@),
    {
        let mut i: usize = 0;
        while i < self.names.len()
            invariant
                i <= self.names.len(),
                forall|m: int| 0 <= m < i ==> (#[trigger] self.names@[m])@ != k@,
            decreases self.names.len() - i,
        {
            if is_lit(self.names[i].as_str(), k) {
                return true;
            }
            i += 1;
        }
        false
    }
}

/// Some entry of `names` spells `x`.
pub open spec fn has_name(names: Seq<String>, x: Seq<char>) -> bool {
    exists|i: int| 0 <= i < names.len() && (#[trigger] names[i])@ == x
}

} // verus!
