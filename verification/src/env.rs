//! Environment variables of a launch command: a map from variable names to
//! values, kept as a list of pairs in which no name occurs twice.
use vstd::prelude::*;

verus! {

/// No name occurs twice among `entries`.
pub open spec fn keys_unique(entries: Seq<(String, String)>) -> bool {
    forall|i: int, j: int|
        0 <= i < entries.len() && 0 <= j < entries.len() && i != j
            ==> #[trigger] entries[i].0@ != #[trigger] entries[j].0@
}

/// Whether `entries` holds a pair named `key`.
pub open spec fn has_key(entries: Seq<(String, String)>, key: Seq<char>) -> bool {
    exists|i: int| 0 <= i < entries.len() && #[trigger] entries[i].0@ == key
}

/// The map from names to values that `entries` stands for.
pub open spec fn entries_map(entries: Seq<(String, String)>) -> Map<Seq<char>, Seq<char>> {
    Map::new(
        |k: Seq<char>| has_key(entries, k),
        |k: Seq<char>|
            entries[choose|i: int| 0 <= i < entries.len() && #[trigger] entries[i].0@ == k].1@,
    )
}

/// Environment variables, in the order in which they were first set.
pub struct EnvVars {
    entries: Vec<(String, String)>,
}

impl EnvVars {
    #[verifier::type_invariant]
    spec fn inv(self) -> bool {
        keys_unique(self.entries@)
    }

    /// The pairs, in the order in which their names were first set.
    pub closed spec fn pairs(self) -> Seq<(String, String)> {
        self.entries@
    }

    /// The variables as a map from names to values.
    pub open spec fn map(self) -> Map<Seq<char>, Seq<char>> {
        entries_map(self.pairs())
    }

    /// No variables.
    pub fn new() -> (r: EnvVars)
        ensures
            r.pairs().len() == 0,
            r.map() == Map::<Seq<char>, Seq<char>>::empty(),
    {
        let r = EnvVars { entries: Vec::new() };
        assert(r.map() =~= Map::<Seq<char>, Seq<char>>::empty());
        r
    }

    /// The number of variables.
    pub fn len(&self) -> (n: usize)
        ensures
            n == self.pairs().len(),
            n == self.map().dom().len(),
    {
        proof {
            use_type_invariant(self);
            lemma_map_len(self.entries@);
        }
        self.entries.len()
    }

    /// The name and value of the `i`-th pair.
    pub fn pair(&self, i: usize) -> (r: (&String, &String))
        requires
            i < self.pairs().len(),
        ensures
            *r.0 == self.pairs()[i as int].0,
            *r.1 == self.pairs()[i as int].1,
    {
        (&self.entries[i].0, &self.entries[i].1)
    }

    /// The position of the pair named `key`, if there is one.
    fn find(&self, key: &String) -> (r: Option<usize>)
        ensures
            match r {
                Some(i) => i < self.pairs().len() && self.pairs()[i as int].0@ == key@,
                None => !has_key(self.pairs(), key@),
            },
    {
        let mut i: usize = 0;
        while i < self.entries.len()
            invariant
                i <= self.entries@.len(),
                forall|j: int| 0 <= j < i ==> self.entries@[j].0@ != key@,
            decreases self.entries@.len() - i,
        {
            if self.entries[i].0 == *key {
                return Some(i);
            }
            i = i + 1;
        }
        None
    }

    /// The value of the variable named `key`.
    pub fn get(&self, key: &String) -> (r: Option<&String>)
        ensures
            match r {
                Some(v) => self.map().dom().contains(key@) && self.map()[key@] == v@,
                None => !self.map().dom().contains(key@),
            },
    {
        proof {
            use_type_invariant(self);
        }
        match self.find(key) {
            Some(i) => {
                proof {
                    lemma_map_at(self.entries@, i as int);
                }
                Some(&self.entries[i].1)
            },
            None => None,
        }
    }

    /// Sets `key` to `value`, replacing the value it had.
    pub fn insert(&mut self, key: String, value: String)
        ensures
            final(self).map() == old(self).map().insert(key@, value@),
    {
        proof {
            use_type_invariant(&*self);
        }
        let ghost k = key@;
        let ghost v = value@;
        let ghost old_entries = self.entries@;
        match self.find(&key) {
            Some(i) => {
                let mut entries: Vec<(String, String)> = Vec::new();
                std::mem::swap(&mut entries, &mut self.entries);
                entries[i] = (key, value);
                proof {
                    assert forall|a: int, b: int|
                        0 <= a < entries@.len() && 0 <= b < entries@.len() && a != b
                        implies #[trigger] entries@[a].0@ != #[trigger] entries@[b].0@ by {
                        assert(old_entries[a].0@ != old_entries[b].0@);
                    }
                    lemma_map_at(entries@, i as int);
                    assert forall|x: Seq<char>| x != k implies has_key(entries@, x) == has_key(old_entries, x) by {
                        if has_key(entries@, x) {
                            let j = choose|j: int| 0 <= j < entries@.len() && #[trigger] entries@[j].0@ == x;
                            assert(old_entries[j].0@ == x);
                        }
                        if has_key(old_entries, x) {
                            let j = choose|j: int| 0 <= j < old_entries.len() && #[trigger] old_entries[j].0@ == x;
                            assert(entries@[j].0@ == x);
                        }
                    }
                    assert forall|x: Seq<char>| x != k && has_key(entries@, x)
                        implies entries_map(entries@)[x] == entries_map(old_entries)[x] by {
                        let j = choose|j: int| 0 <= j < entries@.len() && #[trigger] entries@[j].0@ == x;
                        lemma_map_at(entries@, j);
                        lemma_map_at(old_entries, j);
                    }
                    assert(entries_map(entries@) =~= entries_map(old_entries).insert(k, v));
                }
                self.entries = entries;
            },
            None => {
                let mut entries: Vec<(String, String)> = Vec::new();
                std::mem::swap(&mut entries, &mut self.entries);
                entries.push((key, value));
                proof {
                    let n = old_entries.len() as int;
                    assert(entries@[n].0@ == k);
                    lemma_map_at(entries@, n);
                    assert forall|x: Seq<char>| x != k implies has_key(entries@, x) == has_key(old_entries, x) by {
                        if has_key(entries@, x) {
                            let j = choose|j: int| 0 <= j < entries@.len() && #[trigger] entries@[j].0@ == x;
                            assert(old_entries[j].0@ == x);
                        }
                        if has_key(old_entries, x) {
                            let j = choose|j: int| 0 <= j < old_entries.len() && #[trigger] old_entries[j].0@ == x;
                            assert(entries@[j].0@ == x);
                        }
                    }
                    assert forall|x: Seq<char>| x != k && has_key(entries@, x)
                        implies entries_map(entries@)[x] == entries_map(old_entries)[x] by {
                        let j = choose|j: int| 0 <= j < entries@.len() && #[trigger] entries@[j].0@ == x;
                        lemma_map_at(entries@, j);
                        lemma_map_at(old_entries, j);
                    }
                    assert(entries_map(entries@) =~= entries_map(old_entries).insert(k, v));
                }
                self.entries = entries;
            },
        }
    }

    /// Removes the variable named `key`; tells whether there was one.
    pub fn remove(&mut self, key: &String) -> (r: bool)
        ensures
            r == old(self).map().dom().contains(key@),
            final(self).map() == old(self).map().remove(key@),
    {
        proof {
            use_type_invariant(&*self);
        }
        let ghost k = key@;
        let ghost old_entries = self.entries@;
        match self.find(key) {
            Some(i) => {
                let mut entries: Vec<(String, String)> = Vec::new();
                std::mem::swap(&mut entries, &mut self.entries);
                entries.remove(i);
                proof {
                    assert(old_entries[i as int].0@ == k);
                    assert forall|a: int, b: int|
                        0 <= a < entries@.len() && 0 <= b < entries@.len() && a != b
                        implies #[trigger] entries@[a].0@ != #[trigger] entries@[b].0@ by {
                        let oa = if a < i { a } else { a + 1 };
                        let ob = if b < i { b } else { b + 1 };
                        assert(entries@[a] == old_entries[oa]);
                        assert(entries@[b] == old_entries[ob]);
                        assert(old_entries[oa].0@ != old_entries[ob].0@);
                    }
                    assert forall|x: Seq<char>| has_key(entries@, x) == (has_key(old_entries, x) && x != k) by {
                        if has_key(entries@, x) {
                            let j = choose|j: int| 0 <= j < entries@.len() && #[trigger] entries@[j].0@ == x;
                            let oj = if j < i { j } else { j + 1 };
                            assert(entries@[j] == old_entries[oj]);
                            assert(old_entries[oj].0@ == x);
                            assert(oj != i);
                        }
                        if has_key(old_entries, x) && x != k {
                            let j = choose|j: int| 0 <= j < old_entries.len() && #[trigger] old_entries[j].0@ == x;
                            assert(j != i);
                            let nj = if j < i { j } else { j - 1 };
                            assert(entries@[nj] == old_entries[j]);
                            assert(entries@[nj].0@ == x);
                        }
                    }
                    assert forall|x: Seq<char>| has_key(entries@, x)
                        implies entries_map(entries@)[x] == entries_map(old_entries)[x] by {
                        let j = choose|j: int| 0 <= j < entries@.len() && #[trigger] entries@[j].0@ == x;
                        let oj = if j < i { j } else { j + 1 };
                        assert(entries@[j] == old_entries[oj]);
                        lemma_map_at(entries@, j);
                        lemma_map_at(old_entries, oj);
                    }
                    assert(entries_map(entries@) =~= entries_map(old_entries).remove(k));
                }
                self.entries = entries;
                true
            },
            None => {
                proof {
                    assert(entries_map(old_entries) =~= entries_map(old_entries).remove(k));
                }
                false
            },
        }
    }
}

/// In a list without repeated names, the map sends the `i`-th name to the `i`-th value.
pub proof fn lemma_map_at(entries: Seq<(String, String)>, i: int)
    requires
        keys_unique(entries),
        0 <= i < entries.len(),
    ensures
        entries_map(entries).dom().contains(entries[i].0@),
        entries_map(entries)[entries[i].0@] == entries[i].1@,
{
    let k = entries[i].0@;
    assert(has_key(entries, k));
    let j = choose|j: int| 0 <= j < entries.len() && #[trigger] entries[j].0@ == k;
    assert(j == i);
}

/// In a list without repeated names, the map has one name per pair.
pub proof fn lemma_map_len(entries: Seq<(String, String)>)
    requires
        keys_unique(entries),
    ensures
        entries_map(entries).dom().finite(),
        entries_map(entries).dom().len() == entries.len(),
    decreases entries.len(),
{
    if entries.len() == 0 {
        assert(entries_map(entries).dom() =~= Set::<Seq<char>>::empty());
    } else {
        let rest = entries.drop_last();
        let last = entries.last().0@;
        assert forall|a: int, b: int|
            0 <= a < rest.len() && 0 <= b < rest.len() && a != b
            implies #[trigger] rest[a].0@ != #[trigger] rest[b].0@ by {
            assert(rest[a] == entries[a]);
            assert(rest[b] == entries[b]);
        }
        lemma_map_len(rest);
        assert forall|x: Seq<char>| has_key(entries, x) == (has_key(rest, x) || x == last) by {
            if has_key(entries, x) {
                let j = choose|j: int| 0 <= j < entries.len() && #[trigger] entries[j].0@ == x;
                if j < rest.len() {
                    assert(rest[j] == entries[j]);
                }
            }
            if has_key(rest, x) {
                let j = choose|j: int| 0 <= j < rest.len() && #[trigger] rest[j].0@ == x;
                assert(entries[j] == rest[j]);
            }
            if x == last {
                assert(entries[entries.len() - 1].0@ == x);
            }
        }
        assert(!has_key(rest, last)) by {
            if has_key(rest, last) {
                let j = choose|j: int| 0 <= j < rest.len() && #[trigger] rest[j].0@ == last;
                assert(entries[j] == rest[j]);
                assert(entries[j].0@ != entries[entries.len() - 1].0@);
            }
        }
        assert(entries_map(entries).dom() =~= entries_map(rest).dom().insert(last));
    }
}

} // verus!
