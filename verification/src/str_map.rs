//! A small map keyed by strings that keeps its entries in the order in which
//! their keys first came.

use vstd::prelude::*;

verus! {

/// `str` equality of std: two string slices are equal when they hold the
/// same characters.
#[verifier::external_body]
pub(crate) fn same_str(a: &str, b: &str) -> (r: bool)
    ensures
        r == (a@ == b@),
{
    a == b
}

/// A map from strings to `V`. No key occurs twice; an entry keeps its place
/// until it is removed, and a new key goes to the end.
pub struct StrMap<V> {
    keys: Vec<String>,
    values: Vec<V>,
}

/// Views of the strings of `keys`, in order.
pub open spec fn key_views(keys: Seq<String>) -> Seq<Seq<char>> {
    Seq::new(keys.len(), |i: int| keys[i]@)
}

/// Taking one item out of a sequence without repeats leaves none.
pub proof fn lemma_remove_keeps_distinct<A>(s: Seq<A>, i: int)
    requires
        s.no_duplicates(),
        0 <= i < s.len(),
    ensures
        s.remove(i).no_duplicates(),
{
    let r = s.remove(i);
    assert forall|a: int, b: int| 0 <= a < r.len() && 0 <= b < r.len() && a != b implies r[a]
        != r[b] by {
        let a0 = if a < i { a } else { a + 1 };
        let b0 = if b < i { b } else { b + 1 };
        assert(r[a] == s[a0]);
        assert(r[b] == s[b0]);
    }
}

/// Two maps with the same keys whose values differ at most under `key` hold
/// the same under every other key.
pub proof fn lemma_changed_under<V>(a: StrMap<V>, b: StrMap<V>, key: Seq<char>)
    requires
        a.wf(),
        b.wf(),
        a@.contains_key(key),
        b.spec_keys() == a.spec_keys(),
        b.spec_values() == a.spec_values().update(a.spec_keys().index_of(key), b@[key]),
    ensures
        b@.dom() == a@.dom(),
        forall|k: Seq<char>| k != key && #[trigger] a@.contains_key(k) ==> b@[k] == a@[k],
{
    a.lemma_entries();
    b.lemma_entries();
    assert(b@.dom() =~= a@.dom());
}

impl<V> StrMap<V> {
    /// The keys, in the order of the entries.
    pub closed spec fn spec_keys(&self) -> Seq<Seq<char>> {
        key_views(self.keys@)
    }

    /// The values, in the order of the entries.
    pub closed spec fn spec_values(&self) -> Seq<V> {
        self.values@
    }

    /// No key occurs twice, and every key has its value.
    #[verifier::type_invariant]
    pub closed spec fn wf(&self) -> bool {
        self.spec_keys().no_duplicates() && self.keys@.len() == self.values@.len()
    }

    /// The map that the entries spell.
    pub open spec fn view(&self) -> Map<Seq<char>, V> {
        Map::new(
            |k: Seq<char>| self.spec_keys().contains(k),
            |k: Seq<char>| self.spec_values()[self.spec_keys().index_of(k)],
        )
    }

    /// Keys and values go in pairs, and the entry at place `i` is what the
    /// map holds under the key at place `i`.
    pub proof fn lemma_entries(&self)
        requires
            self.wf(),
        ensures
            self.spec_keys().len() == self.spec_values().len(),
            self.spec_keys().no_duplicates(),
            forall|i: int|
                0 <= i < self.spec_keys().len() ==> self@.contains_key(#[trigger] self.spec_keys()[i])
                    && self@[self.spec_keys()[i]] == self.spec_values()[i],
            forall|k: Seq<char>|
                self@.contains_key(k) ==> 0 <= #[trigger] self.spec_keys().index_of(k)
                    < self.spec_keys().len() && self.spec_keys()[self.spec_keys().index_of(k)] == k,
    {
        assert forall|i: int| 0 <= i < self.spec_keys().len() implies self@.contains_key(
            #[trigger] self.spec_keys()[i],
        ) && self@[self.spec_keys()[i]] == self.spec_values()[i] by {
            let k = self.spec_keys()[i];
            assert(self.spec_keys().contains(k));
            let j = self.spec_keys().index_of(k);
            assert(self.spec_keys()[j] == k);
        }
    }

    /// An empty map.
    pub fn new() -> (m: Self)
        ensures
            m.wf(),
            m.spec_keys() == Seq::<Seq<char>>::empty(),
            m.spec_values() == Seq::<V>::empty(),
            m@ == Map::<Seq<char>, V>::empty(),
    {
        let m = StrMap { keys: Vec::new(), values: Vec::new() };
        assert(m.spec_keys() =~= Seq::<Seq<char>>::empty());
        assert(m@ =~= Map::<Seq<char>, V>::empty());
        m
    }

    /// Number of entries.
    pub fn len(&self) -> (n: usize)
        ensures
            self.wf(),
            n == self.spec_keys().len(),
            n == self.spec_values().len(),
    {
        proof {
            use_type_invariant(self);
        }
        self.keys.len()
    }

    /// Place of `key` among the entries.
    pub fn position(&self, key: &str) -> (at: Option<usize>)
        ensures
            self.wf(),
            match at {
                Some(i) => i < self.spec_keys().len() && self.spec_keys()[i as int] == key@,
                None => !self.spec_keys().contains(key@),
            },
            at is Some <==> self@.contains_key(key@),
    {
        proof {
            use_type_invariant(self);
        }
        let mut i: usize = 0;
        while i < self.keys.len()
            invariant
                self.wf(),
                i <= self.keys@.len(),
                forall|j: int| 0 <= j < i ==> self.spec_keys()[j] != key@,
            decreases self.keys@.len() - i,
        {
            if same_str(self.keys[i].as_str(), key) {
                assert(self.spec_keys()[i as int] == key@);
                return Some(i);
            }
            i += 1;
        }
        None
    }

    /// Whether `key` has an entry.
    pub fn contains_key(&self, key: &str) -> (r: bool)
        ensures
            self.wf(),
            r == self@.contains_key(key@),
    {
        self.position(key).is_some()
    }

    /// The key at place `i`.
    pub fn key_at(&self, i: usize) -> (k: &String)
        requires
            i < self.spec_keys().len(),
        ensures
            k@ == self.spec_keys()[i as int],
    {
        proof {
            use_type_invariant(self);
        }
        &self.keys[i]
    }

    /// The value at place `i`.
    pub fn value_at(&self, i: usize) -> (v: &V)
        requires
            i < self.spec_values().len(),
        ensures
            *v == self.spec_values()[i as int],
    {
        &self.values[i]
    }

    /// The value at place `i`, to be changed in place.
    pub fn value_at_mut(&mut self, i: usize) -> (v: &mut V)
        requires
            i < old(self).spec_values().len(),
        ensures
            *v == old(self).spec_values()[i as int],
            final(self).wf(),
            final(self).spec_keys() == old(self).spec_keys(),
            final(self).spec_values() == old(self).spec_values().update(i as int, *final(v)),
    {
        proof {
            use_type_invariant(&*self);
        }
        &mut self.values[i]
    }

    /// The value under `key`.
    pub fn get(&self, key: &str) -> (v: Option<&V>)
        ensures
            self.wf(),
            v == (if self@.contains_key(key@) {
                Some(&self@[key@])
            } else {
                None
            }),
    {
        match self.position(key) {
            Some(i) => {
                proof {
                    self.lemma_entries();
                }
                Some(&self.values[i])
            },
            None => None,
        }
    }

    /// Puts `value` under `key`. A key that is there keeps its place and
    /// hands back its earlier value; a new key goes to the end.
    pub fn insert(&mut self, key: String, value: V) -> (earlier: Option<V>)
        ensures
            final(self).wf(),
            final(self)@ == old(self)@.insert(key@, value),
            earlier == (if old(self)@.contains_key(key@) {
                Some(old(self)@[key@])
            } else {
                None
            }),
            old(self)@.contains_key(key@) ==> final(self).spec_keys() == old(self).spec_keys()
                && final(self).spec_values() == old(self).spec_values().update(
                old(self).spec_keys().index_of(key@),
                value,
            ),
            !old(self)@.contains_key(key@) ==> final(self).spec_keys() == old(self).spec_keys().push(
                key@,
            ) && final(self).spec_values() == old(self).spec_values().push(value),
    {
        let at = self.position(key.as_str());
        proof {
            self.lemma_entries();
        }
        match at {
            Some(i) => {
                let mut value = value;
                let ghost new_value = value;
                proof {
                    use_type_invariant(&*self);
                }
                std::mem::swap(&mut self.values[i], &mut value);
                proof {
                    self.lemma_entries();
                    assert(old(self).spec_keys().index_of(key@) == i);
                    assert(self@ =~= old(self)@.insert(key@, new_value)) by {
                        assert forall|k: Seq<char>| self@.contains_key(k) implies #[trigger] self@[k]
                            == old(self)@.insert(key@, new_value)[k] by {
                            let j = self.spec_keys().index_of(k);
                            assert(self.spec_keys()[j] == k);
                        }
                    }
                }
                Some(value)
            },
            None => {
                let ghost k0 = key@;
                // Keys and values are taken out together and put back together, so that
                // the map never holds a key without its value.
                let mut whole = StrMap::new();
                std::mem::swap(self, &mut whole);
                let StrMap { mut keys, mut values } = whole;
                proof {
                    assert(key_views(keys@.push(key)) =~= key_views(keys@).push(k0));
                }
                keys.push(key);
                values.push(value);
                *self = StrMap { keys, values };
                proof {
                    assert(self.spec_keys() =~= old(self).spec_keys().push(k0));
                    assert(self.spec_keys().no_duplicates());
                    self.lemma_entries();
                    assert(self.spec_keys()[self.spec_keys().len() - 1] == k0);
                    assert(self@ =~= old(self)@.insert(k0, value)) by {
                        assert forall|k: Seq<char>| self@.contains_key(k) implies #[trigger] self@[k]
                            == old(self)@.insert(k0, value)[k] && old(self)@.insert(
                            k0,
                            value,
                        ).contains_key(k) by {
                            let j = self.spec_keys().index_of(k);
                            assert(self.spec_keys()[j] == k);
                            if j < old(self).spec_keys().len() {
                                assert(old(self).spec_keys()[j] == k);
                                assert(old(self).spec_keys().contains(k));
                            }
                        }
                        assert forall|k: Seq<char>| old(self)@.insert(k0, value).contains_key(
                            k,
                        ) implies #[trigger] self@.contains_key(k) by {
                            if k != k0 {
                                let j = old(self).spec_keys().index_of(k);
                                assert(self.spec_keys()[j] == k);
                            }
                        }
                    }
                }
                None
            },
        }
    }

    /// Takes the entry of `key` out. The entries behind it move up by one.
    pub fn remove(&mut self, key: &str) -> (taken: Option<V>)
        ensures
            final(self).wf(),
            final(self)@ == old(self)@.remove(key@),
            taken == (if old(self)@.contains_key(key@) {
                Some(old(self)@[key@])
            } else {
                None
            }),
            old(self)@.contains_key(key@) ==> final(self).spec_keys() == old(self).spec_keys().remove(
                old(self).spec_keys().index_of(key@),
            ) && final(self).spec_values() == old(self).spec_values().remove(
                old(self).spec_keys().index_of(key@),
            ),
            !old(self)@.contains_key(key@) ==> *final(self) == *old(self),
    {
        let at = self.position(key);
        proof {
            self.lemma_entries();
        }
        match at {
            Some(i) => {
                // As in `insert`: both vectors change while they are out of the map.
                let mut whole = StrMap::new();
                std::mem::swap(self, &mut whole);
                let StrMap { mut keys, mut values } = whole;
                proof {
                    assert(key_views(keys@.remove(i as int)) =~= key_views(keys@).remove(i as int));
                    lemma_remove_keeps_distinct(key_views(keys@), i as int);
                }
                keys.remove(i);
                let taken = values.remove(i);
                *self = StrMap { keys, values };
                proof {
                    let i = i as int;
                    assert(old(self).spec_keys().index_of(key@) == i);
                    assert(self.spec_keys() =~= old(self).spec_keys().remove(i));
                    self.lemma_entries();
                    assert(self@ =~= old(self)@.remove(key@)) by {
                        assert forall|k: Seq<char>| self@.contains_key(k) implies old(self)@.remove(
                            key@,
                        ).contains_key(k) && #[trigger] self@[k] == old(self)@.remove(key@)[k] by {
                            let j = self.spec_keys().index_of(k);
                            let j0 = if j < i { j } else { j + 1 };
                            assert(self.spec_keys()[j] == k);
                            assert(old(self).spec_keys()[j0] == k);
                            assert(old(self).spec_keys().contains(k));
                        }
                        assert forall|k: Seq<char>| old(self)@.remove(key@).contains_key(
                            k,
                        ) implies #[trigger] self@.contains_key(k) by {
                            let j0 = old(self).spec_keys().index_of(k);
                            let j = if j0 < i { j0 } else { j0 - 1 };
                            assert(self.spec_keys()[j] == k);
                        }
                    }
                }
                Some(taken)
            },
            None => {
                proof {
                    assert(self@ =~= old(self)@.remove(key@));
                }
                None
            },
        }
    }
}

} // verus!
