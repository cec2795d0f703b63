//! An insertion-ordered string map with unique keys, used for DRBD `disk` / `net` options.

use vstd::prelude::*;

verus! {

/// Ordered parameter entry (key-value pair with order preserved).
#[derive(Debug, Clone)]
pub struct ParamEntry {
    pub key: String,
    pub value: String,
}

/// The key and value of an entry, as character sequences.
pub open spec fn entry_view(e: ParamEntry) -> (Seq<char>, Seq<char>) {
    (e.key@, e.value@)
}

/// The entries of a parameter list, as character sequences.
pub open spec fn entries_view(v: Seq<ParamEntry>) -> Seq<(Seq<char>, Seq<char>)> {
    v.map_values(|e: ParamEntry| entry_view(e))
}

/// No key occurs twice.
pub open spec fn unique_keys(m: Seq<(Seq<char>, Seq<char>)>) -> bool {
    forall|i: int, j: int| 0 <= i < j < m.len() ==> #[trigger] m[i].0 != #[trigger] m[j].0
}

/// The position of key `k` in `m`, if present.
pub open spec fn key_pos(m: Seq<(Seq<char>, Seq<char>)>, k: Seq<char>) -> Option<int>
    decreases m.len(),
{
    if m.len() == 0 {
        None
    } else if m.last().0 == k {
        Some(m.len() - 1)
    } else {
        key_pos(m.drop_last(), k)
    }
}

/// The value stored under `k`, if any.
pub open spec fn lookup(m: Seq<(Seq<char>, Seq<char>)>, k: Seq<char>) -> Option<Seq<char>> {
    match key_pos(m, k) {
        Some(i) => Some(m[i].1),
        None => None,
    }
}

/// The entries after storing `v` under `k`: an existing entry keeps its place and takes the
/// new value, a new key goes last.
pub open spec fn map_insert(m: Seq<(Seq<char>, Seq<char>)>, k: Seq<char>, v: Seq<char>) -> Seq<
    (Seq<char>, Seq<char>),
> {
    match key_pos(m, k) {
        Some(i) => m.update(i, (k, v)),
        None => m.push((k, v)),
    }
}

/// `key_pos` finds exactly the keys that occur.
pub proof fn lemma_key_pos(m: Seq<(Seq<char>, Seq<char>)>, k: Seq<char>)
    ensures
        key_pos(m, k) matches Some(i) ==> 0 <= i < m.len() && m[i].0 == k,
        key_pos(m, k) is None ==> forall|j: int| 0 <= j < m.len() ==> m[j].0 != k,
    decreases m.len(),
{
    if m.len() > 0 && m.last().0 != k {
        lemma_key_pos(m.drop_last(), k);
        assert forall|j: int| 0 <= j < m.len() && key_pos(m, k) is None implies m[j].0 != k by {
            if j < m.len() - 1 {
                assert(m.drop_last()[j] == m[j]);
            }
        }
    }
}

/// With unique keys, the entry holding `k` is the one `key_pos` finds.
pub proof fn lemma_key_pos_unique(m: Seq<(Seq<char>, Seq<char>)>, k: Seq<char>, i: int)
    requires
        unique_keys(m),
        0 <= i < m.len(),
        m[i].0 == k,
    ensures
        key_pos(m, k) == Some(i),
{
    lemma_key_pos(m, k);
    if let Some(j) = key_pos(m, k) {
        if j < i {
            assert(m[j].0 != m[i].0);
        } else if i < j {
            assert(m[i].0 != m[j].0);
        }
    }
}

/// Storing under a key keeps keys unique, makes the key map to the new value, and leaves
/// every other key's value as it was.
pub proof fn lemma_map_insert(m: Seq<(Seq<char>, Seq<char>)>, k: Seq<char>, v: Seq<char>, other: Seq<char>)
    requires
        unique_keys(m),
    ensures
        unique_keys(map_insert(m, k, v)),
        lookup(map_insert(m, k, v), k) == Some(v),
        other != k ==> lookup(map_insert(m, k, v), other) == lookup(m, other),
        map_insert(m, k, v).len() == m.len() + (if lookup(m, k) is Some { 0int } else { 1int }),
{
    let r = map_insert(m, k, v);
    lemma_key_pos(m, k);
    lemma_key_pos(m, other);
    lemma_key_pos(r, k);
    lemma_key_pos(r, other);
    assert forall|i: int, j: int| 0 <= i < j < r.len() implies #[trigger] r[i].0 != #[trigger] r[j].0 by {
        if key_pos(m, k) is None && j == m.len() {
            assert(m[i].0 != k);
        }
    }
    match key_pos(m, k) {
        Some(q) => {
            lemma_key_pos_unique(r, k, q);
        },
        None => {
            lemma_key_pos_unique(r, k, m.len() as int);
        },
    }
    if other != k {
        match key_pos(m, other) {
            Some(p) => {
                assert(r[p].0 == other);
                lemma_key_pos_unique(r, other, p);
            },
            None => {
                assert(forall|j: int| 0 <= j < r.len() ==> r[j].0 != other);
            },
        }
    }
}

/// An insertion-ordered map from option names to values; no name occurs twice.
#[derive(Debug)]
pub struct OptionMap {
    entries: Vec<ParamEntry>,
}

impl View for OptionMap {
    type V = Seq<(Seq<char>, Seq<char>)>;

    closed spec fn view(&self) -> Seq<(Seq<char>, Seq<char>)> {
        entries_view(self.entries@)
    }
}

impl OptionMap {
    #[verifier::type_invariant]
    spec fn inv(self) -> bool {
        unique_keys(entries_view(self.entries@))
    }

    /// An empty map.
    pub fn new() -> (m: OptionMap)
        ensures
            m@ == Seq::<(Seq<char>, Seq<char>)>::empty(),
    {
        let m = OptionMap { entries: Vec::new() };
        assert(entries_view(m.entries@) =~= Seq::<(Seq<char>, Seq<char>)>::empty());
        m
    }

    /// Number of entries.
    pub fn len(&self) -> (n: usize)
        ensures
            n == self@.len(),
    {
        self.entries.len()
    }

    /// Whether there are no entries.
    pub fn is_empty(&self) -> (b: bool)
        ensures
            b == (self@.len() == 0),
    {
        self.entries.len() == 0
    }

    /// The entries in insertion order.
    pub fn entries(&self) -> (v: &Vec<ParamEntry>)
        ensures
            entries_view(v@) == self@,
    {
        &self.entries
    }

    fn position(&self, key: &str) -> (r: Option<usize>)
        ensures
            r matches Some(i) ==> key_pos(self@, key@) == Some(i as int) && i < self@.len()
                && self@.len() == self.entries@.len() && self@[i as int].0 == key@,
            r is None ==> key_pos(self@, key@) is None,
    {
        proof {
            lemma_key_pos(self@, key@);
        }
        let k = key.to_owned();
        let mut i: usize = self.entries.len();
        assert(self@.take(i as int) =~= self@);
        while i > 0
            invariant
                i <= self.entries.len(),
                k@ == key@,
                key_pos(self@, key@) == key_pos(self@.take(i as int), key@),
                self@ == entries_view(self.entries@),
            decreases i,
        {
            assert(self@.take(i as int).last() == entry_view(self.entries@[i - 1]));
            if self.entries[i - 1].key == k {
                return Some(i - 1);
            }
            assert(self@.take(i as int).drop_last() =~= self@.take(i - 1));
            i = i - 1;
        }
        None
    }

    /// The value stored under `key`.
    pub fn get(&self, key: &str) -> (r: Option<&String>)
        ensures
            match r {
                Some(v) => lookup(self@, key@) == Some(v@),
                None => lookup(self@, key@) is None,
            },
    {
        match self.position(key) {
            Some(i) => Some(&self.entries[i].value),
            None => None,
        }
    }

    /// Whether `key` is stored.
    pub fn contains_key(&self, key: &str) -> (b: bool)
        ensures
            b == (lookup(self@, key@) is Some),
    {
        self.position(key).is_some()
    }

    /// Stores `value` under `key`, returning the value it replaces.
    pub fn insert(&mut self, key: String, value: String) -> (r: Option<String>)
        ensures
            final(self)@ == map_insert(old(self)@, key@, value@),
            match r {
                Some(v) => lookup(old(self)@, key@) == Some(v@),
                None => lookup(old(self)@, key@) is None,
            },
    {
        proof {
            use_type_invariant(&*self);
            lemma_map_insert(self@, key@, value@, key@);
        }
        let ghost old_m = self@;
        match self.position(key.as_str()) {
            Some(i) => {
                let previous = self.entries[i].value.clone();
                let mut entries: Vec<ParamEntry> = Vec::new();
                std::mem::swap(&mut entries, &mut self.entries);
                entries.set(i, ParamEntry { key, value });
                proof {
                    assert(entries_view(entries@) =~= map_insert(old_m, key@, value@));
                }
                self.entries = entries;
                Some(previous)
            },
            None => {
                let mut entries: Vec<ParamEntry> = Vec::new();
                std::mem::swap(&mut entries, &mut self.entries);
                entries.push(ParamEntry { key, value });
                proof {
                    assert(entries_view(entries@) =~= map_insert(old_m, key@, value@));
                }
                self.entries = entries;
                None
            },
        }
    }
}

} // verus!
