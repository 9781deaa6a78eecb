//! A map from names to values that remembers the order in which its names
//! first arrived. Inserting under a name that is already there replaces the
//! value and leaves the name where it stands.

use vstd::prelude::*;

verus! {

/// Some entry of `s` stands under `name`.
pub open spec fn has_name<W>(s: Seq<(Seq<char>, W)>, name: Seq<char>) -> bool {
    exists|i: int| 0 <= i < s.len() && (#[trigger] s[i]).0 == name
}

/// An index at which `name` stands in `s`; the only one where the names of
/// `s` are distinct.
pub open spec fn index_of<W>(s: Seq<(Seq<char>, W)>, name: Seq<char>) -> int {
    choose|i: int| 0 <= i < s.len() && (#[trigger] s[i]).0 == name
}

/// No name stands at two places of `s`.
pub open spec fn distinct_names<W>(s: Seq<(Seq<char>, W)>) -> bool {
    forall|i: int, j: int|
        0 <= i < j < s.len() ==> (#[trigger] s[i]).0 != (#[trigger] s[j]).0
}

/// The value found under `name`, if any.
pub open spec fn lookup<W>(s: Seq<(Seq<char>, W)>, name: Seq<char>) -> Option<W> {
    if has_name(s, name) {
        Some(s[index_of(s, name)].1)
    } else {
        None
    }
}

/// `s` after `value` was stored under `name`: the last write wins, and a name
/// keeps the place of its first write.
pub open spec fn put<W>(s: Seq<(Seq<char>, W)>, name: Seq<char>, value: W) -> Seq<
    (Seq<char>, W),
> {
    if has_name(s, name) {
        s.update(index_of(s, name), (name, value))
    } else {
        s.push((name, value))
    }
}

/// The entries of `s` as a mathematical map.
pub open spec fn as_map<W>(s: Seq<(Seq<char>, W)>) -> Map<Seq<char>, W> {
    Map::new(|name: Seq<char>| has_name(s, name), |name: Seq<char>| s[index_of(s, name)].1)
}

/// Storing a value keeps the names distinct.
pub proof fn lemma_put_distinct<W>(s: Seq<(Seq<char>, W)>, name: Seq<char>, value: W)
    requires
        distinct_names(s),
    ensures
        distinct_names(put(s, name, value)),
{
    let t = put(s, name, value);
    if has_name(s, name) {
        let k = index_of(s, name);
        assert forall|i: int, j: int| 0 <= i < j < t.len() implies (#[trigger] t[i]).0 != (
        #[trigger] t[j]).0 by {
            assert(s[i].0 != s[j].0);
            if i == k {
                assert(s[k].0 == name);
            }
            if j == k {
                assert(s[k].0 == name);
            }
        }
    } else {
        assert forall|i: int, j: int| 0 <= i < j < t.len() implies (#[trigger] t[i]).0 != (
        #[trigger] t[j]).0 by {
            if j < s.len() {
                assert(s[i].0 != s[j].0);
            } else {
                assert(s[i].0 != name);
            }
        }
    }
}

/// After a write, the written name yields the written value and every other
/// name yields what it did before.
pub proof fn lemma_put_lookup<W>(
    s: Seq<(Seq<char>, W)>,
    name: Seq<char>,
    value: W,
    other: Seq<char>,
)
    requires
        distinct_names(s),
    ensures
        lookup(put(s, name, value), name) == Some(value),
        other != name ==> lookup(put(s, name, value), other) == lookup(s, other),
{
    let t = put(s, name, value);
    lemma_put_distinct(s, name, value);
    if has_name(s, name) {
        let k = index_of(s, name);
        assert(t[k].0 == name);
        assert(has_name(t, name));
        let k2 = index_of(t, name);
        if k2 != k {
            assert(t[k2].0 == name);
            assert(k < k2 || k2 < k);
        }
    } else {
        let k = s.len() as int;
        assert(t[k].0 == name);
        assert(has_name(t, name));
        let k2 = index_of(t, name);
        if k2 != k {
            assert(t[k2].0 == name);
            assert(s[k2].0 == name);
        }
    }
    if other != name {
        if has_name(s, other) {
            let m = index_of(s, other);
            assert(t[m].0 == other);
            assert(has_name(t, other));
            let m2 = index_of(t, other);
            assert(t[m2].0 == other);
            assert(m2 < s.len());
            assert(s[m2].0 == other);
            if m2 != m {
                assert(m < m2 || m2 < m);
            }
        } else {
            if has_name(t, other) {
                let m2 = index_of(t, other);
                assert(t[m2].0 == other);
                assert(m2 < s.len());
                assert(s[m2].0 == other);
            }
        }
    }
}

/// Storing under a name is what inserting is to a map: the name holds the
/// new value and every other name holds what it held.
pub proof fn law_put_is_map_insert<W>(s: Seq<(Seq<char>, W)>, name: Seq<char>, value: W)
    requires
        distinct_names(s),
    ensures
        as_map(put(s, name, value)) == as_map(s).insert(name, value),
{
    let after = as_map(put(s, name, value));
    let inserted = as_map(s).insert(name, value);
    assert forall|k: Seq<char>| after.dom().contains(k) == inserted.dom().contains(k) by {
        lemma_put_lookup(s, name, value, k);
    }
    assert forall|k: Seq<char>| #[trigger] after.dom().contains(k) implies after[k]
        == inserted[k] by {
        lemma_put_lookup(s, name, value, k);
    }
    assert(after =~= inserted);
}

/// What is found in a sequence of distinct names, told from what is found in
/// all but its last entry.
pub proof fn lemma_lookup_last<W>(s: Seq<(Seq<char>, W)>, name: Seq<char>)
    requires
        distinct_names(s),
        s.len() > 0,
    ensures
        distinct_names(s.drop_last()),
        !has_name(s.drop_last(), s.last().0),
        lookup(s, name) == if name == s.last().0 {
            Some(s.last().1)
        } else {
            lookup(s.drop_last(), name)
        },
{
    let init = s.drop_last();
    let end = s.len() - 1;
    assert forall|i: int, j: int| 0 <= i < j < init.len() implies (#[trigger] init[i]).0 != (
    #[trigger] init[j]).0 by {
        assert(s[i].0 != s[j].0);
    }
    if has_name(init, s.last().0) {
        let k = index_of(init, s.last().0);
        assert(init[k].0 == s.last().0);
        assert(s[k].0 != s[end].0);
    }
    if name == s.last().0 {
        assert(s[end].0 == name);
        assert(has_name(s, name));
        let k = index_of(s, name);
        assert(s[k].0 == name);
        if k != end {
            assert(s[k].0 != s[end].0);
        }
    } else {
        if has_name(s, name) {
            let k = index_of(s, name);
            assert(s[k].0 == name);
            assert(k < end);
            assert(init[k].0 == name);
            assert(has_name(init, name));
            let k2 = index_of(init, name);
            assert(init[k2].0 == name);
            assert(s[k2].0 == name);
            if k2 != k {
                assert(k < k2 || k2 < k);
            }
        } else {
            if has_name(init, name) {
                let k2 = index_of(init, name);
                assert(init[k2].0 == name);
                assert(s[k2].0 == name);
            }
        }
    }
}

/// Values by name, in the order in which the names first arrived. No name
/// occurs twice.
pub struct NameMap<V> {
    entries: Vec<(String, V)>,
}

impl<V: DeepView> View for NameMap<V> {
    type V = Seq<(Seq<char>, V::V)>;

    closed spec fn view(&self) -> Seq<(Seq<char>, V::V)> {
        Seq::new(
            self.entries@.len(),
            |i: int| (self.entries@[i].0@, self.entries@[i].1.deep_view()),
        )
    }
}

impl<V: DeepView> DeepView for NameMap<V> {
    type V = Seq<(Seq<char>, V::V)>;

    open spec fn deep_view(&self) -> Seq<(Seq<char>, V::V)> {
        self@
    }
}

impl<V> NameMap<V> {
    #[verifier::type_invariant]
    spec fn names_differ(&self) -> bool {
        forall|i: int, j: int|
            0 <= i < j < self.entries@.len() ==> (#[trigger] self.entries@[i]).0@ != (
            #[trigger] self.entries@[j]).0@
    }
}

impl<V: DeepView> NameMap<V> {
    /// The empty map.
    pub fn new() -> (r: Self)
        ensures
            r@ == Seq::<(Seq<char>, V::V)>::empty(),
    {
        let r = NameMap { entries: Vec::new() };
        assert(r@ =~= Seq::<(Seq<char>, V::V)>::empty());
        r
    }

    /// The number of names. The names of a map are always distinct.
    pub fn len(&self) -> (n: usize)
        ensures
            n == self@.len(),
            distinct_names(self@),
    {
        proof {
            use_type_invariant(self);
            assert forall|i: int, j: int| 0 <= i < j < self@.len() implies (#[trigger] self@[i]).0
                != (#[trigger] self@[j]).0 by {
                assert(self.entries@[i].0@ != self.entries@[j].0@);
            }
        }
        self.entries.len()
    }

    /// The name at place `i`.
    pub fn name_at(&self, i: usize) -> (r: &String)
        requires
            i < self@.len(),
        ensures
            r@ == self@[i as int].0,
    {
        &self.entries[i].0
    }

    /// The value at place `i`.
    pub fn value_at(&self, i: usize) -> (r: &V)
        requires
            i < self@.len(),
        ensures
            r.deep_view() == self@[i as int].1,
    {
        &self.entries[i].1
    }

    /// The place at which `name` stands.
    pub fn position(&self, name: &str) -> (r: Option<usize>)
        ensures
            distinct_names(self@),
            match r {
                Some(i) => i < self@.len() && self@[i as int].0 == name@ && i == index_of(
                    self@,
                    name@,
                ),
                None => !has_name(self@, name@),
            },
    {
        let n = self.len();
        let mut i: usize = 0;
        while i < n
            invariant
                i <= n,
                n == self@.len(),
                distinct_names(self@),
                forall|j: int| 0 <= j < i ==> (#[trigger] self@[j]).0 != name@,
            decreases n - i,
        {
            if crate::text::same_text(self.entries[i].0.as_str(), name) {
                proof {
                    assert(self@[i as int].0 == name@);
                    assert(has_name(self@, name@));
                    let k = index_of(self@, name@);
                    assert(self@[k].0 == name@);
                    if k != i {
                        assert(k < i || i < k);
                    }
                }
                return Some(i);
            }
            i = i + 1;
        }
        None
    }

    /// Whether anything is stored under `name`.
    pub fn contains(&self, name: &str) -> (r: bool)
        ensures
            r == has_name(self@, name@),
    {
        self.position(name).is_some()
    }

    /// The value stored under `name`.
    pub fn get(&self, name: &str) -> (r: Option<&V>)
        ensures
            match r {
                Some(v) => lookup(self@, name@) == Some(v.deep_view()),
                None => lookup(self@, name@) is None,
            },
    {
        match self.position(name) {
            Some(i) => Some(&self.entries[i].1),
            None => None,
        }
    }

    /// Stores `value` under `name`, in place of what was there.
    pub fn insert(&mut self, name: String, value: V)
        ensures
            final(self)@ == put(old(self)@, name@, value.deep_view()),
            distinct_names(final(self)@),
    {
        let ghost before = self@;
        let found = self.position(name.as_str());
        proof {
            use_type_invariant(&*self);
            lemma_put_distinct(before, name@, value.deep_view());
        }
        let mut entries: Vec<(String, V)> = Vec::new();
        std::mem::swap(&mut self.entries, &mut entries);
        let ghost after = put(before, name@, value.deep_view());
        match found {
            Some(i) => {
                entries.set(i, (name, value));
            },
            None => {
                entries.push((name, value));
            },
        }
        proof {
            let shown = Seq::new(
                entries@.len(),
                |i: int| (entries@[i].0@, entries@[i].1.deep_view()),
            );
            assert(shown =~= after);
            assert forall|a: int, b: int| 0 <= a < b < entries@.len() implies (
            #[trigger] entries@[a]).0@ != (#[trigger] entries@[b]).0@ by {
                assert(shown[a].0 != shown[b].0);
            }
        }
        self.entries = entries;
    }
}

} // verus!
