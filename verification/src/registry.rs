//! A table of values keyed by name, such as activity handlers by activity
//! type or workflow machines by run ID. A name occurs at most once; storing
//! under a name that is present replaces its value.
//!
//! The table is a vector of name-value pairs rather than a `HashMap` keyed by
//! `String`: over the vector, what a lookup, an insertion and a removal do is
//! proved; the specifications of `HashMap` give no such facts for `String`
//! keys.
use vstd::prelude::*;

verus! {

/// Values keyed by name.
pub struct Registry<V> {
    entries: Vec<(String, V)>,
}

/// The map that a list of entries with distinct names stands for.
pub open spec fn entries_map<V>(s: Seq<(String, V)>) -> Map<Seq<char>, V>
    decreases s.len(),
{
    if s.len() == 0 {
        Map::empty()
    } else {
        entries_map(s.drop_last()).insert(s.last().0@, s.last().1)
    }
}

/// No name occurs twice.
pub open spec fn distinct_names<V>(s: Seq<(String, V)>) -> bool {
    forall|i: int, j: int| 0 <= i < j < s.len() ==> s[i].0@ != s[j].0@
}

/// The map of distinct entries holds exactly their names, each with its value.
proof fn lemma_entries_map_lookup<V>(s: Seq<(String, V)>)
    requires
        distinct_names(s),
    ensures
        forall|k: Seq<char>| #[trigger] entries_map(s).contains_key(k) <==> exists|i: int| 0 <= i < s.len() && s[i].0@ == k,
        forall|i: int| 0 <= i < s.len() ==> #[trigger] entries_map(s)[s[i].0@] == s[i].1,
        entries_map(s).dom().finite(),
        entries_map(s).dom().len() == s.len(),
    decreases s.len(),
{
    if s.len() > 0 {
        let p = s.drop_last();
        assert(distinct_names(p));
        lemma_entries_map_lookup(p);
        let last = s.last();
        assert(!entries_map(p).contains_key(last.0@)) by {
            if entries_map(p).contains_key(last.0@) {
                let i = choose|i: int| 0 <= i < p.len() && p[i].0@ == last.0@;
                assert(s[i].0@ == s[s.len() - 1].0@);
            }
        }
        assert forall|k: Seq<char>| #[trigger] entries_map(s).contains_key(k) <==> exists|i: int| 0 <= i < s.len() && s[i].0@ == k by {
            if entries_map(s).contains_key(k) {
                if k == last.0@ {
                    assert(s[s.len() - 1].0@ == k);
                } else {
                    let i = choose|i: int| 0 <= i < p.len() && p[i].0@ == k;
                    assert(s[i].0@ == k);
                }
            }
            if exists|i: int| 0 <= i < s.len() && s[i].0@ == k {
                let i = choose|i: int| 0 <= i < s.len() && s[i].0@ == k;
                if i < s.len() - 1 {
                    assert(p[i].0@ == k);
                }
            }
        }
        assert forall|i: int| 0 <= i < s.len() implies #[trigger] entries_map(s)[s[i].0@] == s[i].1 by {
            if i < s.len() - 1 {
                assert(p[i] == s[i]);
                assert(s[i].0@ != last.0@);
            }
        }
    }
}

/// Removing the entry at `i` removes its name from the map.
proof fn lemma_entries_map_remove<V>(s: Seq<(String, V)>, i: int)
    requires
        distinct_names(s),
        0 <= i < s.len(),
    ensures
        distinct_names(s.remove(i)),
        entries_map(s.remove(i)) == entries_map(s).remove(s[i].0@),
    decreases s.len(),
{
    let r = s.remove(i);
    assert forall|a: int, b: int| 0 <= a < b < r.len() implies r[a].0@ != r[b].0@ by {
        let a0: int = if a < i { a } else { a + 1 };
        let b0: int = if b < i { b } else { b + 1 };
        assert(r[a] == s[a0] && r[b] == s[b0]);
    }
    let p = s.drop_last();
    lemma_entries_map_lookup(p);
    assert(!entries_map(p).contains_key(s.last().0@)) by {
        if entries_map(p).contains_key(s.last().0@) {
            let j = choose|j: int| 0 <= j < p.len() && p[j].0@ == s.last().0@;
            assert(s[j].0@ == s[s.len() - 1].0@);
        }
    }
    if i == s.len() - 1 {
        assert(r =~= p);
        assert(entries_map(p) =~= entries_map(p).insert(s.last().0@, s.last().1).remove(s.last().0@));
    } else {
        assert(distinct_names(p));
        lemma_entries_map_remove(p, i);
        assert(r.drop_last() =~= p.remove(i));
        assert(r.last() == s.last());
        assert(s[i].0@ != s.last().0@);
        assert(entries_map(r) =~= entries_map(s).remove(s[i].0@));
    }
}

impl<V> Registry<V> {
    /// The names stored, each with its value.
    pub closed spec fn view(&self) -> Map<Seq<char>, V> {
        entries_map(self.entries@)
    }

    /// No name is stored twice.
    pub closed spec fn wf(&self) -> bool {
        distinct_names(self.entries@)
    }

    /// An empty table.
    pub fn new() -> (r: Self)
        ensures
            r.wf(),
            r.view() == Map::<Seq<char>, V>::empty(),
    {
        Registry { entries: Vec::new() }
    }

    fn index_of(&self, name: &str) -> (r: Option<usize>)
        requires
            self.wf(),
        ensures
            match r {
                Some(i) => i < self.entries@.len() && self.entries@[i as int].0@ == name@,
                None => !self.view().contains_key(name@),
            },
    {
        proof {
            lemma_entries_map_lookup(self.entries@);
        }
        let key = String::from_str(name);
        let mut i: usize = 0;
        while i < self.entries.len()
            invariant
                i <= self.entries@.len(),
                key@ == name@,
                forall|j: int| 0 <= j < i ==> self.entries@[j].0@ != name@,
            decreases self.entries@.len() - i,
        {
            if self.entries[i].0 == key {
                return Some(i);
            }
            i = i + 1;
        }
        None
    }

    /// Whether a value is stored under `name`.
    pub fn contains(&self, name: &str) -> (b: bool)
        requires
            self.wf(),
        ensures
            b == self.view().contains_key(name@),
    {
        proof {
            lemma_entries_map_lookup(self.entries@);
        }
        match self.index_of(name) {
            Some(_) => true,
            None => false,
        }
    }

    /// The value stored under `name`.
    pub fn get(&self, name: &str) -> (r: Option<&V>)
        requires
            self.wf(),
        ensures
            r is Some <==> self.view().contains_key(name@),
            r matches Some(v) ==> *v == self.view()[name@],
    {
        proof {
            lemma_entries_map_lookup(self.entries@);
        }
        match self.index_of(name) {
            Some(i) => Some(&self.entries[i].1),
            None => None,
        }
    }

    /// The number of names stored.
    pub fn len(&self) -> (n: usize)
        requires
            self.wf(),
        ensures
            n == self.view().len(),
    {
        proof {
            lemma_entries_map_lookup(self.entries@);
        }
        self.entries.len()
    }

    /// The stored names, each once.
    pub fn names(&self) -> (ns: Vec<String>)
        requires
            self.wf(),
        ensures
            ns@.len() == self.view().len(),
            forall|k: Seq<char>| self.view().contains_key(k) <==> exists|i: int| 0 <= i < ns@.len() && #[trigger] ns@[i]@ == k,
    {
        proof {
            lemma_entries_map_lookup(self.entries@);
        }
        let mut ns: Vec<String> = Vec::new();
        let mut i: usize = 0;
        while i < self.entries.len()
            invariant
                i <= self.entries@.len(),
                ns@.len() == i,
                forall|j: int| 0 <= j < i ==> #[trigger] ns@[j]@ == self.entries@[j].0@,
            decreases self.entries@.len() - i,
        {
            ns.push(self.entries[i].0.clone());
            i = i + 1;
        }
        assert forall|k: Seq<char>| self.view().contains_key(k) <==> exists|i: int| 0 <= i < ns@.len() && #[trigger] ns@[i]@ == k by {
            if self.view().contains_key(k) {
                let j = choose|j: int| 0 <= j < self.entries@.len() && self.entries@[j].0@ == k;
                assert(ns@[j]@ == k);
            }
        }
        ns
    }

    /// Takes the value stored under `name` out of the table.
    pub fn remove(&mut self, name: &str) -> (r: Option<V>)
        requires
            old(self).wf(),
        ensures
            final(self).wf(),
            final(self).view() == old(self).view().remove(name@),
            r is Some <==> old(self).view().contains_key(name@),
            r matches Some(v) ==> v == old(self).view()[name@],
    {
        proof {
            lemma_entries_map_lookup(self.entries@);
        }
        match self.index_of(name) {
            Some(i) => {
                proof {
                    lemma_entries_map_remove(self.entries@, i as int);
                }
                let (_, v) = self.entries.remove(i);
                Some(v)
            },
            None => {
                assert(self.view().remove(name@) =~= self.view());
                None
            },
        }
    }

    /// Stores `value` under `name`, replacing the value stored there before.
    pub fn insert(&mut self, name: String, value: V)
        requires
            old(self).wf(),
        ensures
            final(self).wf(),
            final(self).view() == old(self).view().insert(name@, value),
    {
        let ghost before = self.view();
        let _ = self.remove(name.as_str());
        let ghost mid = self.entries@;
        proof {
            lemma_entries_map_lookup(mid);
            assert forall|i: int| 0 <= i < mid.len() implies mid[i].0@ != name@ by {
                assert(entries_map(mid).contains_key(mid[i].0@));
            }
        }
        let ghost key = name@;
        self.entries.push((name, value));
        assert(self.entries@.drop_last() =~= mid);
        assert(entries_map(mid) == before.remove(key));
        assert(self.view() =~= before.insert(key, value));
    }
}

} // verus!
