//! A small map from names to values that remembers the order of insertion.

use vstd::prelude::*;
use crate::strs::str_eq;

verus! {

/// A list of (name, value) pairs, the model of a [`NameMap`].
pub type Pairs<T> = Seq<(Seq<char>, T)>;

/// The position of the last pair named `k` in `s`.
pub open spec fn last_named<T>(s: Pairs<T>, k: Seq<char>) -> Option<int>
    decreases s.len(),
{
    if s.len() == 0 {
        None
    } else if s.last().0 == k {
        Some(s.len() - 1)
    } else {
        last_named(s.drop_last(), k)
    }
}

/// The value that `s` holds under the name `k`.
pub open spec fn pairs_get<T>(s: Pairs<T>, k: Seq<char>) -> Option<T> {
    match last_named(s, k) {
        Some(i) => Some(s[i].1),
        None => None,
    }
}

/// `s` with `v` stored under `k`: in place of the value that the name had, or
/// as a new last pair.
pub open spec fn pairs_insert<T>(s: Pairs<T>, k: Seq<char>, v: T) -> Pairs<T> {
    match last_named(s, k) {
        Some(i) => s.update(i, (k, v)),
        None => s.push((k, v)),
    }
}

/// `s` with every pair of `more` stored in turn.
pub open spec fn pairs_insert_all<T>(s: Pairs<T>, more: Pairs<T>) -> Pairs<T>
    decreases more.len(),
{
    if more.len() == 0 {
        s
    } else {
        pairs_insert(pairs_insert_all(s, more.drop_last()), more.last().0, more.last().1)
    }
}

/// `s` with every pair of `more` stored in turn, but for the pairs named
/// `skip`.
pub open spec fn pairs_insert_others<T>(s: Pairs<T>, more: Pairs<T>, skip: Seq<char>) -> Pairs<T>
    decreases more.len(),
{
    if more.len() == 0 {
        s
    } else if more.last().0 == skip {
        pairs_insert_others(s, more.drop_last(), skip)
    } else {
        pairs_insert(pairs_insert_others(s, more.drop_last(), skip), more.last().0, more.last().1)
    }
}

/// The map that a list of pairs stands for: a later pair overrides an earlier
/// one of the same name.
pub open spec fn map_of<T>(s: Pairs<T>) -> Map<Seq<char>, T>
    decreases s.len(),
{
    if s.len() == 0 {
        Map::empty()
    } else {
        map_of(s.drop_last()).insert(s.last().0, s.last().1)
    }
}

/// Whether no two pairs of `s` share a name.
pub open spec fn distinct_names<T>(s: Pairs<T>) -> bool {
    forall|i: int, j: int| 0 <= i < j < s.len() ==> (#[trigger] s[i]).0 != (#[trigger] s[j]).0
}

/// Storing a value keeps the names distinct.
pub proof fn lemma_insert_distinct<T>(s: Pairs<T>, k: Seq<char>, v: T)
    requires
        distinct_names(s),
    ensures
        distinct_names(pairs_insert(s, k, v)),
{
    lemma_last_named(s, k);
}

/// What `last_named` finds: the position of a pair of that name with none of
/// that name behind it, or nothing where no pair has the name.
pub proof fn lemma_last_named<T>(s: Pairs<T>, k: Seq<char>)
    ensures
        match last_named(s, k) {
            Some(i) => 0 <= i < s.len() && s[i].0 == k && forall|j: int|
                i < j < s.len() ==> (#[trigger] s[j]).0 != k,
            None => forall|j: int| 0 <= j < s.len() ==> (#[trigger] s[j]).0 != k,
        },
    decreases s.len(),
{
    if s.len() > 0 && s.last().0 != k {
        let t = s.drop_last();
        lemma_last_named(t, k);
        match last_named(t, k) {
            Some(i) => {
                assert forall|j: int| i < j < s.len() implies (#[trigger] s[j]).0 != k by {
                    if j < t.len() {
                        assert(t[j] == s[j]);
                    }
                }
            },
            None => {
                assert forall|j: int| 0 <= j < s.len() implies (#[trigger] s[j]).0 != k by {
                    if j < t.len() {
                        assert(t[j] == s[j]);
                    }
                }
            },
        }
    }
}

/// A position that holds the name with none of that name behind it is the one
/// that `last_named` finds.
pub proof fn lemma_last_named_is<T>(s: Pairs<T>, k: Seq<char>, i: int)
    requires
        0 <= i < s.len(),
        s[i].0 == k,
        forall|j: int| i < j < s.len() ==> (#[trigger] s[j]).0 != k,
    ensures
        last_named(s, k) == Some(i),
{
    lemma_last_named(s, k);
}

/// A name that no pair carries is not found.
pub proof fn lemma_last_named_none<T>(s: Pairs<T>, k: Seq<char>)
    requires
        forall|j: int| 0 <= j < s.len() ==> (#[trigger] s[j]).0 != k,
    ensures
        last_named(s, k) is None,
{
    lemma_last_named(s, k);
}

/// Looking a name up in the list is looking it up in the map.
pub proof fn lemma_map_of_get<T>(s: Pairs<T>, k: Seq<char>)
    ensures
        map_of(s).contains_key(k) <==> pairs_get(s, k) is Some,
        map_of(s).contains_key(k) ==> pairs_get(s, k) == Some(map_of(s)[k]),
    decreases s.len(),
{
    if s.len() > 0 {
        let t = s.drop_last();
        lemma_map_of_get(t, k);
        lemma_last_named(t, k);
        if s.last().0 != k {
            match last_named(t, k) {
                Some(i) => {
                    assert(t[i] == s[i]);
                },
                None => {},
            }
        }
    }
}

/// Storing a value in the list is inserting it into the map.
pub proof fn lemma_map_of_insert<T>(s: Pairs<T>, k: Seq<char>, v: T)
    ensures
        map_of(pairs_insert(s, k, v)) == map_of(s).insert(k, v),
    decreases s.len(),
{
    let r = pairs_insert(s, k, v);
    if s.len() == 0 {
        assert(r.drop_last() =~= s);
    } else if s.last().0 == k {
        assert(r.drop_last() =~= s.drop_last());
        assert(map_of(r) =~= map_of(s).insert(k, v));
    } else {
        let t = s.drop_last();
        lemma_map_of_insert(t, k, v);
        lemma_last_named(t, k);
        match last_named(t, k) {
            Some(i) => {
                assert(r.drop_last() =~= pairs_insert(t, k, v));
                assert(r.last() == s.last());
                assert(map_of(r) =~= map_of(s).insert(k, v));
            },
            None => {
                assert(r.drop_last() =~= s);
            },
        }
    }
}

/// One named value.
#[derive(Debug, Clone)]
pub struct NameEntry<V> {
    pub name: String,
    pub value: V,
}

/// A map keyed by name. Entries stay in the order in which their names were
/// first inserted; inserting under a name that is present replaces its value.
/// No name occurs twice.
#[derive(Debug)]
pub struct NameMap<V> {
    entries: Vec<NameEntry<V>>,
}

impl<V> NameMap<V> {
    /// No name occurs twice.
    #[verifier::type_invariant]
    spec fn names_are_distinct(self) -> bool {
        forall|i: int, j: int|
            0 <= i < j < self.entries@.len() ==> (#[trigger] self.entries@[i]).name@
                != (#[trigger] self.entries@[j]).name@
    }
}

impl<V: Clone> Clone for NameMap<V> {
    /// A copy with a clone of every value under its name.
    fn clone(&self) -> (r: Self) {
        proof {
            use_type_invariant(self);
        }
        let mut entries: Vec<NameEntry<V>> = Vec::new();
        let n = self.entries.len();
        let mut i: usize = 0;
        while i < n
            invariant
                n == self.entries@.len(),
                0 <= i <= n,
                entries@.len() == i,
                forall|k: int|
                    0 <= k < i ==> (#[trigger] entries@[k]).name@ == self.entries@[k].name@,
            decreases n - i,
        {
            let name = self.entries[i].name.clone();
            let value = self.entries[i].value.clone();
            entries.push(NameEntry { name, value });
            i += 1;
        }
        NameMap { entries }
    }
}

impl<V: View> View for NameMap<V> {
    type V = Pairs<V::V>;

    closed spec fn view(&self) -> Pairs<V::V> {
        Seq::new(self.entries@.len(), |i: int| (self.entries@[i].name@, self.entries@[i].value@))
    }
}

impl<V: View> NameMap<V> {
    /// An empty map.
    pub fn new() -> (r: Self)
        ensures
            r@ == Pairs::<V::V>::empty(),
            distinct_names(r@),
    {
        let r = NameMap { entries: Vec::new() };
        assert(r@ =~= Pairs::<V::V>::empty());
        r
    }

    /// The number of stored pairs.
    pub fn len(&self) -> (n: usize)
        ensures
            n == self@.len(),
            distinct_names(self@),
    {
        proof {
            use_type_invariant(self);
        }
        self.entries.len()
    }

    /// The name of the pair at position `i`.
    pub fn name_at(&self, i: usize) -> (r: &String)
        requires
            i < self@.len(),
        ensures
            r@ == self@[i as int].0,
    {
        &self.entries[i].name
    }

    /// The value of the pair at position `i`.
    pub fn value_at(&self, i: usize) -> (r: &V)
        requires
            i < self@.len(),
        ensures
            r@ == self@[i as int].1,
    {
        &self.entries[i].value
    }

    /// The position of the last pair named `name`, if there is one.
    pub fn position(&self, name: &str) -> (r: Option<usize>)
        ensures
            match r {
                Some(i) => last_named(self@, name@) == Some(i as int) && i < self@.len(),
                None => last_named(self@, name@) is None,
            },
    {
        let mut i: usize = self.entries.len();
        while i > 0
            invariant
                0 <= i <= self.entries@.len(),
                self.entries@.len() == self@.len(),
                forall|j: int| i <= j < self@.len() ==> (#[trigger] self@[j]).0 != name@,
            decreases i,
        {
            i -= 1;
            if str_eq(self.entries[i].name.as_str(), name) {
                proof {
                    lemma_last_named_is(self@, name@, i as int);
                }
                return Some(i);
            }
        }
        proof {
            lemma_last_named_none(self@, name@);
        }
        None
    }

    /// Whether a value is stored under `name`.
    pub fn contains(&self, name: &str) -> (r: bool)
        ensures
            r == pairs_get(self@, name@).is_some(),
    {
        self.position(name).is_some()
    }

    /// The value stored under `name`.
    pub fn get(&self, name: &str) -> (r: Option<&V>)
        ensures
            match r {
                Some(v) => pairs_get(self@, name@) == Some(v@),
                None => pairs_get(self@, name@) is None,
            },
    {
        match self.position(name) {
            Some(i) => Some(&self.entries[i].value),
            None => None,
        }
    }

    /// Stores `value` under `name`: in place of the value that the name had,
    /// or as a new last pair.
    pub fn insert(&mut self, name: String, value: V)
        ensures
            final(self)@ == pairs_insert(old(self)@, name@, value@),
            distinct_names(final(self)@),
    {
        proof {
            use_type_invariant(&*self);
        }
        let found = self.position(name.as_str());
        let ghost before = self@;
        proof {
            lemma_last_named(before, name@);
        }
        // The entries leave the map while they are worked on.
        let ghost held = self.entries@;
        let mut entries: Vec<NameEntry<V>> = Vec::new();
        core::mem::swap(&mut self.entries, &mut entries);
        match found {
            Some(i) => {
                assert(held[i as int].name@ == before[i as int].0);
                entries.push(NameEntry { name, value });
                let _ = entries.swap_remove(i);
                assert forall|k: int| 0 <= k < entries@.len() implies (#[trigger] entries@[k]).name@
                    == held[k].name@ by {}
                self.entries = entries;
                assert(self@ =~= before.update(i as int, (name@, value@)));
            },
            None => {
                entries.push(NameEntry { name, value });
                assert forall|k: int| 0 <= k < held.len() implies (#[trigger] entries@[k]).name@
                    == held[k].name@ && before[k].0 == held[k].name@ by {}
                self.entries = entries;
                assert(self@ =~= before.push((name@, value@)));
            },
        }
    }

    /// Puts `value` in the place of the value at position `i` and returns
    /// the value that was there.
    pub fn replace_at(&mut self, i: usize, value: V) -> (r: V)
        requires
            i < old(self)@.len(),
        ensures
            r@ == old(self)@[i as int].1,
            final(self)@ == old(self)@.update(i as int, (old(self)@[i as int].0, value@)),
            distinct_names(final(self)@),
    {
        proof {
            use_type_invariant(&*self);
        }
        let ghost before = self@;
        let ghost held = self.entries@;
        let name = self.entries[i].name.clone();
        let mut entries: Vec<NameEntry<V>> = Vec::new();
        core::mem::swap(&mut self.entries, &mut entries);
        entries.push(NameEntry { name, value });
        let e = entries.swap_remove(i);
        assert forall|k: int| 0 <= k < entries@.len() implies (#[trigger] entries@[k]).name@
            == held[k].name@ by {}
        self.entries = entries;
        assert(self@ =~= before.update(i as int, (before[i as int].0, value@)));
        e.value
    }
}

impl NameMap<String> {
    /// Stores a copy of every pair of `more`, in its order.
    pub fn insert_all(&mut self, more: &NameMap<String>)
        ensures
            final(self)@ == pairs_insert_all(old(self)@, more@),
            distinct_names(final(self)@),
    {
        let _ = self.len();
        let n = more.len();
        let mut i: usize = 0;
        assert(more@.take(0) =~= Pairs::<Seq<char>>::empty());
        while i < n
            invariant
                n == more@.len(),
                0 <= i <= n,
                self@ == pairs_insert_all(old(self)@, more@.take(i as int)),
                distinct_names(self@),
            decreases n - i,
        {
            let k = more.name_at(i).clone();
            let v = more.value_at(i).clone();
            assert(more@.take(i + 1).drop_last() =~= more@.take(i as int));
            self.insert(k, v);
            i += 1;
        }
        assert(more@.take(n as int) =~= more@);
    }

    /// Stores a copy of every pair of `more` that is not named `skip`, in
    /// its order.
    pub fn insert_others(&mut self, more: &NameMap<String>, skip: &str)
        ensures
            final(self)@ == pairs_insert_others(old(self)@, more@, skip@),
            distinct_names(final(self)@),
    {
        let _ = self.len();
        let n = more.len();
        let mut i: usize = 0;
        assert(more@.take(0) =~= Pairs::<Seq<char>>::empty());
        while i < n
            invariant
                n == more@.len(),
                0 <= i <= n,
                self@ == pairs_insert_others(old(self)@, more@.take(i as int), skip@),
                distinct_names(self@),
            decreases n - i,
        {
            assert(more@.take(i + 1).drop_last() =~= more@.take(i as int));
            if !str_eq(more.name_at(i).as_str(), skip) {
                let k = more.name_at(i).clone();
                let v = more.value_at(i).clone();
                self.insert(k, v);
            }
            i += 1;
        }
        assert(more@.take(n as int) =~= more@);
    }
}

} // verus!
