use vstd::prelude::*;
use crate::text::str_equal;

verus! {

/// The value stored under `key`: the first entry whose key reads `key`.
pub open spec fn lookup<V>(s: Seq<(String, V)>, key: Seq<char>) -> Option<V>
    decreases s.len(),
{
    if s.len() == 0 {
        None
    } else if s[0].0@ == key {
        Some(s[0].1)
    } else {
        lookup(s.drop_first(), key)
    }
}

/// The keys of the entries, in order.
pub open spec fn keys_of<V>(s: Seq<(String, V)>) -> Seq<Seq<char>> {
    s.map_values(|e: (String, V)| e.0@)
}

pub proof fn lemma_lookup_skip<V>(s: Seq<(String, V)>, key: Seq<char>, i: int)
    requires
        0 <= i <= s.len(),
        forall|j: int| 0 <= j < i ==> s[j].0@ != key,
    ensures
        lookup(s, key) == lookup(s.skip(i), key),
    decreases i,
{
    if i > 0 {
        assert(s.skip(1) =~= s.drop_first());
        lemma_lookup_skip(s.drop_first(), key, i - 1);
        assert(s.drop_first().skip(i - 1) =~= s.skip(i));
    } else {
        assert(s.skip(0) =~= s);
    }
}

pub proof fn lemma_lookup_none<V>(s: Seq<(String, V)>, key: Seq<char>)
    requires
        forall|j: int| 0 <= j < s.len() ==> s[j].0@ != key,
    ensures
        lookup(s, key) is None,
{
    lemma_lookup_skip(s, key, s.len() as int);
    assert(s.skip(s.len() as int) =~= Seq::<(String, V)>::empty());
}

pub proof fn lemma_lookup_at<V>(s: Seq<(String, V)>, key: Seq<char>, i: int)
    requires
        0 <= i < s.len(),
        forall|j: int| 0 <= j < i ==> s[j].0@ != key,
        s[i].0@ == key,
    ensures
        lookup(s, key) == Some(s[i].1),
{
    lemma_lookup_skip(s, key, i);
}

pub proof fn lemma_lookup_push<V>(s: Seq<(String, V)>, e: (String, V), key: Seq<char>)
    ensures
        lookup(s.push(e), key) == if lookup(s, key) is Some {
            lookup(s, key)
        } else if e.0@ == key {
            Some(e.1)
        } else {
            None
        },
    decreases s.len(),
{
    if s.len() == 0 {
        assert(s.push(e).drop_first() =~= Seq::<(String, V)>::empty());
        assert(lookup(Seq::<(String, V)>::empty(), key) is None);
        assert(s.push(e)[0] == e);
    } else {
        assert(s.push(e).drop_first() =~= s.drop_first().push(e));
        assert(s.push(e)[0] == s[0]);
        lemma_lookup_push(s.drop_first(), e, key);
    }
}

pub proof fn lemma_lookup_update<V>(s: Seq<(String, V)>, i: int, e: (String, V), key: Seq<char>)
    requires
        0 <= i < s.len(),
        e.0@ == s[i].0@,
        forall|j: int| 0 <= j < i ==> s[j].0@ != s[i].0@,
    ensures
        lookup(s.update(i, e), key) == if key == e.0@ {
            Some(e.1)
        } else {
            lookup(s, key)
        },
    decreases i,
{
    if i == 0 {
        assert(s.update(0, e).drop_first() =~= s.drop_first());
    } else {
        assert(s.update(i, e).drop_first() =~= s.drop_first().update(i - 1, e));
        lemma_lookup_update(s.drop_first(), i - 1, e, key);
    }
}

pub proof fn lemma_lookup_remove<V>(s: Seq<(String, V)>, i: int, key: Seq<char>)
    requires
        0 <= i < s.len(),
        forall|j: int| 0 <= j < s.len() && j != i ==> s[j].0@ != s[i].0@,
    ensures
        lookup(s.remove(i), key) == if key == s[i].0@ {
            None
        } else {
            lookup(s, key)
        },
    decreases i,
{
    if i == 0 {
        assert(s.remove(0) =~= s.drop_first());
        if key == s[0].0@ {
            assert forall|j: int| 0 <= j < s.drop_first().len() implies #[trigger] s.drop_first()[j].0@ != key by {
                assert(s.drop_first()[j] == s[j + 1]);
            }
            lemma_lookup_none(s.drop_first(), key);
        }
    } else {
        assert(s.remove(i).drop_first() =~= s.drop_first().remove(i - 1));
        assert forall|j: int| 0 <= j < s.drop_first().len() && j != i - 1 implies #[trigger] s.drop_first()[j].0@
            != s.drop_first()[i - 1].0@ by {
            assert(s.drop_first()[j] == s[j + 1]);
        }
        lemma_lookup_remove(s.drop_first(), i - 1, key);
    }
}

/// A table of values keyed by text, kept in insertion order, each key at most once.
pub struct KeyedList<V> {
    entries: Vec<(String, V)>,
}

impl<V> KeyedList<V> {
    /// No two entries share a key.
    #[verifier::type_invariant]
    pub closed spec fn wf(self) -> bool {
        forall|i: int, j: int|
            0 <= i < j < self.entries@.len() ==> self.entries@[i].0@ != self.entries@[j].0@
    }

    /// The entries, in insertion order.
    pub closed spec fn entries_view(self) -> Seq<(String, V)> {
        self.entries@
    }

    pub open spec fn get_spec(self, key: Seq<char>) -> Option<V> {
        lookup(self.entries_view(), key)
    }

    pub open spec fn keys(self) -> Seq<Seq<char>> {
        keys_of(self.entries_view())
    }

    pub fn new() -> (r: Self)
        ensures
            r.entries_view() == Seq::<(String, V)>::empty(),
            forall|k: Seq<char>| r.get_spec(k) is None,
    {
        KeyedList { entries: Vec::new() }
    }

    pub fn len(&self) -> (n: usize)
        ensures
            n == self.entries_view().len(),
    {
        self.entries.len()
    }

    fn position(&self, key: &str) -> (r: Option<usize>)
        ensures
            match r {
                Some(i) => i < self.entries@.len() && self.entries@[i as int].0@ == key@ && forall|j: int|
                    0 <= j < i ==> self.entries@[j].0@ != key@,
                None => forall|j: int| 0 <= j < self.entries@.len() ==> self.entries@[j].0@ != key@,
            },
    {
        let mut i: usize = 0;
        while i < self.entries.len()
            invariant
                i <= self.entries@.len(),
                forall|j: int| 0 <= j < i ==> self.entries@[j].0@ != key@,
            decreases self.entries@.len() - i,
        {
            if str_equal(self.entries[i].0.as_str(), key) {
                return Some(i);
            }
            i = i + 1;
        }
        None
    }

    /// The value stored under `key`.
    pub fn get(&self, key: &str) -> (r: Option<&V>)
        ensures
            match r {
                Some(v) => self.get_spec(key@) == Some(*v),
                None => self.get_spec(key@) is None,
            },
    {
        match self.position(key) {
            Some(i) => {
                proof {
                    lemma_lookup_at(self.entries@, key@, i as int);
                }
                Some(&self.entries[i].1)
            },
            None => {
                proof {
                    lemma_lookup_none(self.entries@, key@);
                }
                None
            },
        }
    }

    /// Whether a value is stored under `key`.
    pub fn contains_key(&self, key: &str) -> (r: bool)
        ensures
            r == self.get_spec(key@) is Some,
    {
        self.get(key).is_some()
    }

    /// Stores `value` under `key`: in place where the key is already present,
    /// at the end otherwise.
    pub fn insert(&mut self, key: String, value: V)
        ensures
            final(self).get_spec(key@) == Some(value),
            forall|k: Seq<char>| k != key@ ==> final(self).get_spec(k) == old(self).get_spec(k),
            old(self).get_spec(key@) is Some ==> final(self).keys() == old(self).keys(),
            old(self).get_spec(key@) is None ==> final(self).keys() == old(self).keys().push(key@),
    {
        proof {
            use_type_invariant(&*self);
        }
        let ghost k = key@;
        let pos = self.position(key.as_str());
        let mut entries: Vec<(String, V)> = Vec::new();
        std::mem::swap(&mut entries, &mut self.entries);
        match pos {
            Some(i) => {
                let ghost before = entries@;
                let e = (key, value);
                entries.set(i, e);
                proof {
                    lemma_lookup_at(before, k, i as int);
                    assert forall|kk: Seq<char>| lookup(entries@, kk) == if kk == k {
                        Some(value)
                    } else {
                        lookup(before, kk)
                    } by {
                        lemma_lookup_update(before, i as int, e, kk);
                    }
                    assert(keys_of(entries@) =~= keys_of(before));
                    assert forall|a: int, b: int| 0 <= a < b < entries@.len() implies entries@[a].0@ != entries@[b].0@ by {
                        assert(before[a].0@ != before[b].0@);
                    }
                }
            },
            None => {
                let ghost before = entries@;
                let e = (key, value);
                entries.push(e);
                proof {
                    lemma_lookup_none(before, k);
                    assert forall|kk: Seq<char>| lookup(entries@, kk) == if kk == k {
                        Some(value)
                    } else {
                        lookup(before, kk)
                    } by {
                        lemma_lookup_push(before, e, kk);
                        if kk != k && lookup(before, kk) is None {
                        }
                    }
                    assert(keys_of(entries@) =~= keys_of(before).push(k));
                    assert forall|a: int, b: int| 0 <= a < b < entries@.len() implies entries@[a].0@ != entries@[b].0@ by {
                        if b < before.len() {
                            assert(before[a].0@ != before[b].0@);
                        }
                    }
                }
            },
        }
        self.entries = entries;
    }

    /// Removes the value stored under `key`, and hands it back.
    pub fn remove(&mut self, key: &str) -> (r: Option<V>)
        ensures
            r == old(self).get_spec(key@),
            final(self).get_spec(key@) is None,
            forall|k: Seq<char>| k != key@ ==> final(self).get_spec(k) == old(self).get_spec(k),
    {
        proof {
            use_type_invariant(&*self);
        }
        match self.position(key) {
            Some(i) => {
                let mut entries: Vec<(String, V)> = Vec::new();
                std::mem::swap(&mut entries, &mut self.entries);
                let ghost before = entries@;
                proof {
                    lemma_lookup_at(before, key@, i as int);
                    assert forall|a: int, b: int| 0 <= a < before.len() && 0 <= b < before.len() && a != b implies before[a].0@ != before[b].0@ by {
                        if a < b {
                            assert(before[a].0@ != before[b].0@);
                        } else {
                            assert(before[b].0@ != before[a].0@);
                        }
                    }
                }
                let e = entries.remove(i);
                proof {
                    assert forall|kk: Seq<char>| lookup(entries@, kk) == if kk == key@ {
                        None
                    } else {
                        lookup(before, kk)
                    } by {
                        lemma_lookup_remove(before, i as int, kk);
                    }
                    assert forall|a: int, b: int| 0 <= a < b < entries@.len() implies entries@[a].0@ != entries@[b].0@ by {
                        if b < i {
                            assert(before[a].0@ != before[b].0@);
                        } else if a < i {
                            assert(before[a].0@ != before[b + 1].0@);
                        } else {
                            assert(before[a + 1].0@ != before[b + 1].0@);
                        }
                    }
                }
                self.entries = entries;
                Some(e.1)
            },
            None => {
                proof {
                    lemma_lookup_none(self.entries@, key@);
                }
                None
            },
        }
    }

    /// Removes every entry.
    pub fn clear(&mut self)
        ensures
            final(self).entries_view() == Seq::<(String, V)>::empty(),
            forall|k: Seq<char>| final(self).get_spec(k) is None,
    {
        self.entries = Vec::new();
    }

    /// The entry at position `i`, in insertion order.
    pub fn entry(&self, i: usize) -> (r: &(String, V))
        requires
            i < self.entries_view().len(),
        ensures
            *r == self.entries_view()[i as int],
            r.0@ == self.keys()[i as int],
            self.get_spec(r.0@) == Some(r.1),
    {
        proof {
            use_type_invariant(self);
            lemma_lookup_at(self.entries@, self.entries@[i as int].0@, i as int);
        }
        &self.entries[i]
    }
}

} // verus!
