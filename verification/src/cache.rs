//! The cache of loaded plugin libraries, keyed by plugin name.
//!
//! The entries are kept in a vector, no two under the same name. vstd
//! specifies `std::collections::HashMap` only for key types that obey its
//! key model, and `String` is not among them (stating that it is would be
//! an assumption), so a `HashMap<String, _>` would leave every call on the
//! cache unspecified.
use vstd::prelude::*;
use crate::text::str_eq;

verus! {

broadcast use vstd::string::group_string_axioms;

/// No two entries share a name.
pub open spec fn names_distinct<V>(s: Seq<(String, V)>) -> bool {
    forall|i: int, j: int| 0 <= i < s.len() && 0 <= j < s.len() && i != j ==> s[i].0@ != s[j].0@
}

/// Whether some entry is named `k`.
pub open spec fn has_name<V>(s: Seq<(String, V)>, k: Seq<char>) -> bool {
    exists|i: int| 0 <= i < s.len() && #[trigger] s[i].0@ == k
}

/// The map from names to values that a list of entries stands for.
pub open spec fn entries_map<V>(s: Seq<(String, V)>) -> Map<Seq<char>, V> {
    Map::new(
        |k: Seq<char>| has_name(s, k),
        |k: Seq<char>| s[choose|i: int| 0 <= i < s.len() && #[trigger] s[i].0@ == k].1,
    )
}

/// With distinct names, the map holds each entry under its name.
proof fn lemma_entry_in_map<V>(s: Seq<(String, V)>, i: int)
    requires
        names_distinct(s),
        0 <= i < s.len(),
    ensures
        entries_map(s).dom().contains(s[i].0@),
        entries_map(s)[s[i].0@] == s[i].1,
{
    let k = s[i].0@;
    assert(has_name(s, k));
    let j = choose|j: int| 0 <= j < s.len() && #[trigger] s[j].0@ == k;
    assert(j == i);
}

/// With distinct names, `m` is the map of `s` when it holds exactly the
/// names of `s`, each with its entry's value.
proof fn lemma_map_is<V>(s: Seq<(String, V)>, m: Map<Seq<char>, V>)
    requires
        names_distinct(s),
        forall|k: Seq<char>| m.dom().contains(k) <==> has_name(s, k),
        forall|i: int| 0 <= i < s.len() ==> m[#[trigger] s[i].0@] == s[i].1,
    ensures
        entries_map(s) == m,
{
    assert forall|k: Seq<char>| #[trigger] entries_map(s).dom().contains(k) implies entries_map(s)[k] == m[k] by {
        let j = choose|j: int| 0 <= j < s.len() && #[trigger] s[j].0@ == k;
        lemma_entry_in_map(s, j);
    }
    assert(entries_map(s) =~= m);
}

/// Loaded libraries by plugin name. Each name is held at most once.
pub struct LibraryCache<V> {
    entries: Vec<(String, V)>,
}

impl<V> View for LibraryCache<V> {
    type V = Map<Seq<char>, V>;

    /// The cache as a map from plugin names to libraries.
    closed spec fn view(&self) -> Map<Seq<char>, V> {
        entries_map(self.entries@)
    }
}

impl<V> LibraryCache<V> {
    #[verifier::type_invariant]
    spec fn inv(self) -> bool {
        names_distinct(self.entries@)
    }

    /// An empty cache.
    pub fn new() -> (c: Self)
        ensures
            c@ == Map::<Seq<char>, V>::empty(),
    {
        let c = LibraryCache { entries: Vec::new() };
        assert(entries_map(c.entries@) =~= Map::<Seq<char>, V>::empty());
        c
    }

    /// The position of the entry named `key`, if any.
    fn find(&self, key: &str) -> (r: Option<usize>)
        ensures
            r matches Some(i) ==> i < self.entries@.len() && self.entries@[i as int].0@ == key@,
            r is None ==> !has_name(self.entries@, key@),
    {
        let n = self.entries.len();
        let mut i: usize = 0;
        while i < n
            invariant
                n == self.entries@.len(),
                i <= n,
                forall|j: int| 0 <= j < i ==> self.entries@[j].0@ != key@,
            decreases n - i,
        {
            if str_eq(self.entries[i].0.as_str(), key) {
                return Some(i);
            }
            i = i + 1;
        }
        None
    }

    /// Whether a library is cached under `key`.
    pub fn contains_key(&self, key: &str) -> (r: bool)
        ensures
            r == self@.dom().contains(key@),
    {
        self.find(key).is_some()
    }

    /// The library cached under `key`, if any.
    pub fn get(&self, key: &str) -> (r: Option<&V>)
        ensures
            r is Some == self@.dom().contains(key@),
            r matches Some(v) ==> *v == self@[key@],
    {
        proof { use_type_invariant(self); }
        match self.find(key) {
            Some(i) => {
                proof { lemma_entry_in_map(self.entries@, i as int); }
                Some(&self.entries[i].1)
            },
            None => None,
        }
    }

    /// Caches `value` under `key`, replacing and returning what was cached
    /// there before.
    pub fn insert(&mut self, key: String, value: V) -> (r: Option<V>)
        ensures
            final(self)@ == old(self)@.insert(key@, value),
            r is Some == old(self)@.dom().contains(key@),
            r matches Some(v) ==> v == old(self)@[key@],
    {
        proof { use_type_invariant(&*self); }
        let ghost k = key@;
        let ghost s0 = self.entries@;
        let found = self.find(key.as_str());
        let mut entries: Vec<(String, V)> = Vec::new();
        std::mem::swap(&mut entries, &mut self.entries);
        let r = match found {
            Some(i) => {
                proof { lemma_entry_in_map(s0, i as int); }
                let (_, old_value) = entries.remove(i);
                Some(old_value)
            },
            None => None,
        };
        let ghost s1 = entries@;
        entries.push((key, value));
        let ghost s2 = entries@;
        proof {
            let m = entries_map(s0).insert(k, value);
            assert forall|a: int, b: int| 0 <= a < s2.len() && 0 <= b < s2.len() && a != b implies s2[a].0@ != s2[b].0@ by {
                if a < s1.len() && b < s1.len() {
                    if let Some(i) = found {
                        let aa = if a < i { a } else { a + 1 };
                        let bb = if b < i { b } else { b + 1 };
                        assert(s1[a] == s0[aa] && s1[b] == s0[bb]);
                    }
                } else if a < s1.len() {
                    if let Some(i) = found {
                        let aa = if a < i { a } else { a + 1 };
                        assert(s1[a] == s0[aa]);
                    } else {
                        assert(s1[a] == s0[a]);
                    }
                } else if b < s1.len() {
                    if let Some(i) = found {
                        let bb = if b < i { b } else { b + 1 };
                        assert(s1[b] == s0[bb]);
                    } else {
                        assert(s1[b] == s0[b]);
                    }
                }
            }
            assert forall|q: Seq<char>| m.dom().contains(q) <==> has_name(s2, q) by {
                if q == k {
                    assert(s2[s2.len() - 1].0@ == k);
                } else {
                    if m.dom().contains(q) {
                        let j = choose|j: int| 0 <= j < s0.len() && #[trigger] s0[j].0@ == q;
                        if let Some(i) = found {
                            assert(j != i);
                            let jj = if j < i { j } else { j - 1 };
                            assert(s2[jj] == s0[j]);
                        } else {
                            assert(s2[j] == s0[j]);
                        }
                    }
                    if has_name(s2, q) {
                        let j = choose|j: int| 0 <= j < s2.len() && #[trigger] s2[j].0@ == q;
                        if let Some(i) = found {
                            let jj = if j < i { j } else { j + 1 };
                            assert(s0[jj] == s2[j]);
                        } else {
                            assert(s0[j] == s2[j]);
                        }
                    }
                }
            }
            assert forall|j: int| 0 <= j < s2.len() implies m[#[trigger] s2[j].0@] == s2[j].1 by {
                if j < s1.len() {
                    let jj = if let Some(i) = found { if j < i { j } else { j + 1 } } else { j };
                    assert(s2[j] == s0[jj]);
                    lemma_entry_in_map(s0, jj);
                }
            }
            lemma_map_is(s2, m);
        }
        self.entries = entries;
        r
    }

    /// Drops the library cached under `key`, returning it.
    pub fn remove(&mut self, key: &str) -> (r: Option<V>)
        ensures
            final(self)@ == old(self)@.remove(key@),
            r is Some == old(self)@.dom().contains(key@),
            r matches Some(v) ==> v == old(self)@[key@],
    {
        proof { use_type_invariant(&*self); }
        let ghost s0 = self.entries@;
        match self.find(key) {
            Some(i) => {
                proof { lemma_entry_in_map(s0, i as int); }
                let mut entries: Vec<(String, V)> = Vec::new();
                std::mem::swap(&mut entries, &mut self.entries);
                let (_, old_value) = entries.remove(i);
                let ghost s1 = entries@;
                proof {
                    let m = entries_map(s0).remove(key@);
                    assert forall|a: int, b: int| 0 <= a < s1.len() && 0 <= b < s1.len() && a != b implies s1[a].0@ != s1[b].0@ by {
                        let aa = if a < i { a } else { a + 1 };
                        let bb = if b < i { b } else { b + 1 };
                        assert(s1[a] == s0[aa] && s1[b] == s0[bb]);
                    }
                    assert forall|q: Seq<char>| m.dom().contains(q) <==> has_name(s1, q) by {
                        if m.dom().contains(q) {
                            let j = choose|j: int| 0 <= j < s0.len() && #[trigger] s0[j].0@ == q;
                            assert(j != i);
                            let jj = if j < i { j } else { j - 1 };
                            assert(s1[jj] == s0[j]);
                        }
                        if has_name(s1, q) {
                            let j = choose|j: int| 0 <= j < s1.len() && #[trigger] s1[j].0@ == q;
                            let jj = if j < i { j } else { j + 1 };
                            assert(s0[jj] == s1[j]);
                            assert(jj != i);
                        }
                    }
                    assert forall|j: int| 0 <= j < s1.len() implies m[#[trigger] s1[j].0@] == s1[j].1 by {
                        let jj = if j < i { j } else { j + 1 };
                        assert(s1[j] == s0[jj]);
                        lemma_entry_in_map(s0, jj);
                    }
                    lemma_map_is(s1, m);
                }
                self.entries = entries;
                Some(old_value)
            },
            None => {
                assert(entries_map(s0).remove(key@) =~= entries_map(s0));
                None
            },
        }
    }
}

} // verus!
