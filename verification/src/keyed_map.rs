use vstd::prelude::*;

verus! {

/// Keys of a `KeyedMap`: an executable equality that agrees with equality
/// of the keys' views.
pub trait MapKey: DeepView + Sized {
    fn same_key(&self, other: &Self) -> (b: bool)
        ensures
            b == (self.deep_view() == other.deep_view()),
    ;
}

impl MapKey for String {
    fn same_key(&self, other: &Self) -> (b: bool) {
        *self == *other
    }
}

impl MapKey for (String, u32) {
    fn same_key(&self, other: &Self) -> (b: bool) {
        self.0 == other.0 && self.1 == other.1
    }
}

/// Values that can be copied with a copy of the same view.
pub trait Replica: DeepView + Sized {
    fn replica(&self) -> (r: Self)
        ensures
            r.deep_view() == self.deep_view(),
    ;
}

impl Replica for String {
    fn replica(&self) -> (r: Self) {
        self.clone()
    }
}

impl Replica for (String, u32) {
    fn replica(&self) -> (r: Self) {
        (self.0.clone(), self.1)
    }
}

impl Replica for u8 {
    fn replica(&self) -> (r: Self) {
        *self
    }
}

impl Replica for u128 {
    fn replica(&self) -> (r: Self) {
        *self
    }
}

/// No key occurs twice in a list of pairs.
pub open spec fn keys_distinct<A, B>(s: Seq<(A, B)>) -> bool {
    forall|i: int, j: int|
        0 <= i < s.len() && 0 <= j < s.len() && i != j ==> #[trigger] s[i].0 != #[trigger] s[j].0
}

/// Some pair of the list has key `k`.
pub open spec fn has_key<A, B>(s: Seq<(A, B)>, k: A) -> bool {
    exists|i: int| 0 <= i < s.len() && #[trigger] s[i].0 == k
}

/// The position of a pair with key `k` (meaningful when `has_key`).
pub open spec fn key_pos<A, B>(s: Seq<(A, B)>, k: A) -> int {
    choose|i: int| 0 <= i < s.len() && #[trigger] s[i].0 == k
}

/// The map that a list of pairs with distinct keys stands for.
pub open spec fn pairs_to_map<A, B>(s: Seq<(A, B)>) -> Map<A, B> {
    Map::new(|k: A| has_key(s, k), |k: A| s[key_pos(s, k)].1)
}

/// The list after setting key `k` to `v`: replaced in place when the key is
/// present, appended otherwise.
pub open spec fn pairs_upsert<A, B>(s: Seq<(A, B)>, k: A, v: B) -> Seq<(A, B)> {
    if has_key(s, k) {
        s.update(key_pos(s, k), (k, v))
    } else {
        s.push((k, v))
    }
}

/// The list without the pair of key `k`, the others keeping their order.
pub open spec fn pairs_delete<A, B>(s: Seq<(A, B)>, k: A) -> Seq<(A, B)> {
    if has_key(s, k) {
        s.remove(key_pos(s, k))
    } else {
        s
    }
}

/// In a list with distinct keys, the position of a key is the one it stands at.
pub proof fn lemma_key_pos_unique<A, B>(s: Seq<(A, B)>, i: int)
    requires
        keys_distinct(s),
        0 <= i < s.len(),
    ensures
        has_key(s, s[i].0),
        key_pos(s, s[i].0) == i,
        pairs_to_map(s).contains_key(s[i].0),
        pairs_to_map(s)[s[i].0] == s[i].1,
{
    assert(has_key(s, s[i].0));
    let j = key_pos(s, s[i].0);
    if j != i {
        assert(s[j].0 == s[i].0);
    }
}

/// Setting a key keeps keys distinct and sets the key in the map.
pub proof fn lemma_upsert<A, B>(s: Seq<(A, B)>, k: A, v: B)
    requires
        keys_distinct(s),
    ensures
        keys_distinct(pairs_upsert(s, k, v)),
        pairs_to_map(pairs_upsert(s, k, v)) == pairs_to_map(s).insert(k, v),
{
    let t = pairs_upsert(s, k, v);
    if has_key(s, k) {
        let p = key_pos(s, k);
        assert forall|i: int, j: int|
            0 <= i < t.len() && 0 <= j < t.len() && i != j implies #[trigger] t[i].0
            != #[trigger] t[j].0 by {
            if i == p {
                assert(s[j].0 != s[p].0);
            } else if j == p {
                assert(s[i].0 != s[p].0);
            } else {
                assert(s[i].0 != s[j].0);
            }
        }
        assert forall|q: A| #[trigger] has_key(t, q) == (q == k || has_key(s, q)) by {
            if has_key(s, q) {
                let i = key_pos(s, q);
                assert(t[i].0 == q || i == p);
            }
            if has_key(t, q) {
                let i = key_pos(t, q);
                assert(s[i].0 == q || i == p);
            }
        }
        assert forall|q: A| has_key(t, q) implies pairs_to_map(t)[q] == pairs_to_map(s).insert(
            k,
            v,
        )[q] by {
            let i = key_pos(t, q);
            lemma_key_pos_unique(t, i);
            if q != k {
                assert(s[i].0 == q);
                lemma_key_pos_unique(s, i);
            }
        }
    } else {
        assert forall|i: int, j: int|
            0 <= i < t.len() && 0 <= j < t.len() && i != j implies #[trigger] t[i].0
            != #[trigger] t[j].0 by {
            if i == s.len() {
                assert(!(0 <= j < s.len() && s[j].0 == k));
            } else if j == s.len() {
                assert(!(0 <= i < s.len() && s[i].0 == k));
            } else {
                assert(s[i].0 != s[j].0);
            }
        }
        assert forall|q: A| #[trigger] has_key(t, q) == (q == k || has_key(s, q)) by {
            if has_key(s, q) {
                let i = key_pos(s, q);
                assert(t[i].0 == q);
            }
            if q == k {
                assert(t[s.len() as int].0 == q);
            }
            if has_key(t, q) {
                let i = key_pos(t, q);
                assert(i == s.len() || s[i].0 == q);
            }
        }
        assert forall|q: A| has_key(t, q) implies pairs_to_map(t)[q] == pairs_to_map(s).insert(
            k,
            v,
        )[q] by {
            let i = key_pos(t, q);
            lemma_key_pos_unique(t, i);
            if q != k {
                assert(i != s.len());
                assert(s[i].0 == q);
                lemma_key_pos_unique(s, i);
            }
        }
    }
    assert(pairs_to_map(t) =~= pairs_to_map(s).insert(k, v));
}

/// Deleting a key keeps keys distinct and removes the key from the map.
pub proof fn lemma_delete<A, B>(s: Seq<(A, B)>, k: A)
    requires
        keys_distinct(s),
    ensures
        keys_distinct(pairs_delete(s, k)),
        pairs_to_map(pairs_delete(s, k)) == pairs_to_map(s).remove(k),
{
    let t = pairs_delete(s, k);
    if has_key(s, k) {
        let p = key_pos(s, k);
        assert forall|i: int| 0 <= i < t.len() implies #[trigger] t[i] == (if i < p {
            s[i]
        } else {
            s[i + 1]
        }) by {}
        assert forall|i: int, j: int|
            0 <= i < t.len() && 0 <= j < t.len() && i != j implies #[trigger] t[i].0
            != #[trigger] t[j].0 by {
            let ii = if i < p {
                i
            } else {
                i + 1
            };
            let jj = if j < p {
                j
            } else {
                j + 1
            };
            assert(s[ii].0 != s[jj].0);
        }
        assert forall|q: A| #[trigger] has_key(t, q) == (q != k && has_key(s, q)) by {
            if has_key(s, q) && q != k {
                let i = key_pos(s, q);
                if i < p {
                    assert(t[i].0 == q);
                } else {
                    assert(i != p);
                    assert(t[i - 1].0 == q);
                }
            }
            if has_key(t, q) {
                let i = key_pos(t, q);
                let ii = if i < p {
                    i
                } else {
                    i + 1
                };
                assert(s[ii].0 == q);
                assert(ii != p);
            }
        }
        assert forall|q: A| has_key(t, q) implies pairs_to_map(t)[q] == pairs_to_map(s)[q] by {
            let i = key_pos(t, q);
            lemma_key_pos_unique(t, i);
            let ii = if i < p {
                i
            } else {
                i + 1
            };
            assert(s[ii].0 == q);
            lemma_key_pos_unique(s, ii);
        }
    }
    assert(pairs_to_map(t) =~= pairs_to_map(s).remove(k));
}

/// A finite map stored as a list of pairs in the order the keys arrived.
/// No key occurs twice.
pub struct KeyedMap<K: MapKey, V: DeepView> {
    entries: Vec<(K, V)>,
}

/// The pairs of a list of entries, each taken by its view.
pub open spec fn entries_view<K: DeepView, V: DeepView>(e: Seq<(K, V)>) -> Seq<(K::V, V::V)> {
    e.map_values(|p: (K, V)| (p.0.deep_view(), p.1.deep_view()))
}

impl<K: MapKey, V: DeepView> KeyedMap<K, V> {
    /// The pairs, by view, in their stored order.
    pub closed spec fn pairs(&self) -> Seq<(K::V, V::V)> {
        entries_view(self.entries@)
    }

    #[verifier::type_invariant]
    closed spec fn distinct(&self) -> bool {
        keys_distinct(self.pairs())
    }

    /// The map that the pairs stand for.
    pub open spec fn as_map(&self) -> Map<K::V, V::V> {
        pairs_to_map(self.pairs())
    }

    /// An empty map.
    pub fn new() -> (m: Self)
        ensures
            m.pairs() == Seq::<(K::V, V::V)>::empty(),
            m.as_map() == Map::<K::V, V::V>::empty(),
    {
        let m = KeyedMap { entries: Vec::new() };
        assert(m.pairs() =~= Seq::<(K::V, V::V)>::empty());
        assert(m.as_map() =~= Map::<K::V, V::V>::empty());
        m
    }

    /// A copy with the same pairs.
    pub fn duplicate(&self) -> (r: Self)
        where K: Replica, V: Replica,
        ensures
            r.pairs() == self.pairs(),
    {
        KeyedMap { entries: self.to_vec() }
    }

    /// The pairs, copied, in order.
    pub fn to_vec(&self) -> (e: Vec<(K, V)>)
        where K: Replica, V: Replica,
        ensures
            entries_view(e@) == self.pairs(),
            keys_distinct(self.pairs()),
    {
        proof {
            use_type_invariant(self);
        }
        let n = self.entries.len();
        let mut e: Vec<(K, V)> = Vec::new();
        let mut i: usize = 0;
        while i < n
            invariant
                n == self.entries@.len(),
                i <= n,
                entries_view(e@) == self.pairs().take(i as int),
            decreases n - i,
        {
            let k = self.entries[i].0.replica();
            let v = self.entries[i].1.replica();
            let ghost prev = e@;
            e.push((k, v));
            assert(entries_view(e@) =~= entries_view(prev).push((k.deep_view(), v.deep_view())));
            assert(entries_view(e@) =~= self.pairs().take(i + 1));
            i = i + 1;
        }
        assert(self.pairs().take(n as int) =~= self.pairs());
        e
    }

    /// The number of keys.
    pub fn len(&self) -> (n: usize)
        ensures
            n == self.pairs().len(),
    {
        self.entries.len()
    }

    /// The stored entries, in order.
    pub fn entries(&self) -> (r: &Vec<(K, V)>)
        ensures
            entries_view(r@) == self.pairs(),
            keys_distinct(self.pairs()),
    {
        proof {
            use_type_invariant(self);
        }
        &self.entries
    }

    /// Where key `k` stands, if anywhere.
    fn position(&self, k: &K) -> (r: Option<usize>)
        ensures
            match r {
                Some(i) => i < self.pairs().len() && self.pairs()[i as int].0 == k.deep_view()
                    && key_pos(self.pairs(), k.deep_view()) == i,
                None => !has_key(self.pairs(), k.deep_view()),
            },
    {
        proof {
            use_type_invariant(self);
        }
        let n = self.entries.len();
        let mut i: usize = 0;
        while i < n
            invariant
                n == self.entries@.len(),
                i <= n,
                keys_distinct(self.pairs()),
                forall|j: int| 0 <= j < i ==> #[trigger] self.pairs()[j].0 != k.deep_view(),
            decreases n - i,
        {
            if self.entries[i].0.same_key(k) {
                proof {
                    lemma_key_pos_unique(self.pairs(), i as int);
                }
                return Some(i);
            }
            i = i + 1;
        }
        None
    }

    /// The value stored under `k`, if any.
    pub fn get(&self, k: &K) -> (r: Option<&V>)
        ensures
            match r {
                Some(v) => self.as_map().contains_key(k.deep_view()) && self.as_map()[k.deep_view()]
                    == v.deep_view(),
                None => !self.as_map().contains_key(k.deep_view()),
            },
    {
        proof {
            use_type_invariant(self);
        }
        match self.position(k) {
            Some(i) => {
                proof {
                    lemma_key_pos_unique(self.pairs(), i as int);
                }
                Some(&self.entries[i].1)
            },
            None => None,
        }
    }

    /// Whether `k` has a value.
    pub fn contains(&self, k: &K) -> (b: bool)
        ensures
            b == self.as_map().contains_key(k.deep_view()),
    {
        self.position(k).is_some()
    }

    /// Sets `k` to `v`: in place when `k` is present, appended otherwise.
    pub fn insert(&mut self, k: K, v: V)
        ensures
            final(self).pairs() == pairs_upsert(old(self).pairs(), k.deep_view(), v.deep_view()),
            final(self).as_map() == old(self).as_map().insert(k.deep_view(), v.deep_view()),
    {
        proof {
            use_type_invariant(&*self);
            lemma_upsert(self.pairs(), k.deep_view(), v.deep_view());
        }
        let ghost kv = k.deep_view();
        let ghost vv = v.deep_view();
        let ghost before = self.pairs();
        let pos = self.position(&k);
        let mut e: Vec<(K, V)> = Vec::new();
        std::mem::swap(&mut e, &mut self.entries);
        match pos {
            Some(i) => {
                e.set(i, (k, v));
                assert(entries_view(e@) =~= before.update(i as int, (kv, vv)));
            },
            None => {
                e.push((k, v));
                assert(entries_view(e@) =~= before.push((kv, vv)));
            },
        }
        self.entries = e;
    }

    /// Removes the value of `k`, the other pairs keeping their order.
    pub fn remove(&mut self, k: &K)
        ensures
            final(self).pairs() == pairs_delete(old(self).pairs(), k.deep_view()),
            final(self).as_map() == old(self).as_map().remove(k.deep_view()),
    {
        proof {
            use_type_invariant(&*self);
            lemma_delete(self.pairs(), k.deep_view());
        }
        let ghost before = self.pairs();
        match self.position(k) {
            Some(i) => {
                let mut e: Vec<(K, V)> = Vec::new();
                std::mem::swap(&mut e, &mut self.entries);
                e.remove(i);
                assert(entries_view(e@) =~= before.remove(i as int));
                self.entries = e;
            },
            None => {},
        }
    }
}

} // verus!
