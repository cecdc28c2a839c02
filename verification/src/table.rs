//! A map from texts to values, kept in the order in which the keys came in.

use crate::text;
use vstd::prelude::*;

verus! {

/// One more element at the end of a sequence is one more element of its set.
pub proof fn lemma_push_to_set<A>(s: Seq<A>, a: A)
    ensures
        s.push(a).to_set() == s.to_set().insert(a),
{
    assert forall|x: A| #[trigger] s.push(a).contains(x) <==> s.to_set().insert(a).contains(x) by {
        if s.contains(x) {
            let i = s.index_of(x);
            assert(s.push(a)[i] == x);
        }
        if x == a {
            assert(s.push(a)[s.len() as int] == x);
        }
        if s.push(a).contains(x) && x != a {
            let i = s.push(a).index_of(x);
            assert(s[i] == x);
        }
    }
    assert(s.push(a).to_set() =~= s.to_set().insert(a));
}

/// A map keyed by text. No key occurs twice.
#[derive(Debug)]
pub struct Table<V> {
    keys: Vec<String>,
    values: Vec<V>,
}

impl<V> View for Table<V> {
    type V = Map<Seq<char>, V>;

    closed spec fn view(&self) -> Map<Seq<char>, V> {
        Map::new(
            |k: Seq<char>| self.order().contains(k),
            |k: Seq<char>| self.values@[self.order().index_of(k)],
        )
    }
}

impl<V> Table<V> {
    /// The keys in the order in which they came in.
    pub closed spec fn order(&self) -> Seq<Seq<char>> {
        text::texts(self.keys@)
    }

    /// No key occurs twice, and each has a value.
    pub closed spec fn wf(&self) -> bool {
        &&& self.keys.len() == self.values.len()
        &&& self.order().no_duplicates()
    }

    pub proof fn lemma_order(&self)
        requires
            self.wf(),
        ensures
            self.order().no_duplicates(),
            forall|k: Seq<char>|
                #![trigger self@.dom().contains(k)]
                #![trigger self.order().contains(k)]
                self@.dom().contains(k) <==> self.order().contains(k),
    {
    }

    pub fn new() -> (r: Self)
        ensures
            r.wf(),
            r@ == Map::<Seq<char>, V>::empty(),
            r.order() == Seq::<Seq<char>>::empty(),
    {
        let r = Table { keys: Vec::new(), values: Vec::new() };
        assert(r.order() =~= Seq::<Seq<char>>::empty());
        assert(r@ =~= Map::<Seq<char>, V>::empty());
        r
    }

    fn position(&self, key: &str) -> (r: Option<usize>)
        requires
            self.wf(),
        ensures
            match r {
                Some(i) => i < self.keys.len() && self.order()[i as int] == key@ && self@.dom().contains(key@)
                    && self@[key@] == self.values@[i as int] && self.order().index_of(key@) == i,
                None => !self.order().contains(key@) && !self@.dom().contains(key@),
            },
    {
        let mut i: usize = 0;
        while i < self.keys.len()
            invariant
                self.wf(),
                i <= self.keys.len(),
                forall|j: int| 0 <= j < i ==> self.order()[j] != key@,
            decreases self.keys.len() - i,
        {
            if text::str_eq(self.keys[i].as_str(), key) {
                assert(self.order()[i as int] == key@);
                return Some(i);
            }
            i = i + 1;
        }
        None
    }

    pub fn len(&self) -> (r: usize)
        requires
            self.wf(),
        ensures
            r == self.order().len(),
    {
        self.keys.len()
    }

    pub fn contains(&self, key: &str) -> (r: bool)
        requires
            self.wf(),
        ensures
            r == self@.dom().contains(key@),
    {
        self.position(key).is_some()
    }

    pub fn get(&self, key: &str) -> (r: Option<&V>)
        requires
            self.wf(),
        ensures
            r == (if self@.dom().contains(key@) {
                Some(&self@[key@])
            } else {
                None
            }),
    {
        match self.position(key) {
            Some(i) => Some(&self.values[i]),
            None => None,
        }
    }

    /// The key at a place.
    pub fn key_at(&self, i: usize) -> (r: &str)
        requires
            self.wf(),
            i < self.order().len(),
        ensures
            r@ == self.order()[i as int],
    {
        self.keys[i].as_str()
    }

    /// The value at a place.
    pub fn value_at(&self, i: usize) -> (r: &V)
        requires
            self.wf(),
            i < self.order().len(),
        ensures
            self@.dom().contains(self.order()[i as int]),
            *r == self@[self.order()[i as int]],
    {
        assert(self.order().contains(self.order()[i as int]));
        assert(self.order().index_of(self.order()[i as int]) == i);
        &self.values[i]
    }

    /// Sets the value of a key. A key that was there keeps its place; a new one
    /// comes last.
    pub fn insert(&mut self, key: String, value: V)
        requires
            old(self).wf(),
        ensures
            final(self).wf(),
            final(self)@ == old(self)@.insert(key@, value),
            final(self).order() == (if old(self)@.dom().contains(key@) {
                old(self).order()
            } else {
                old(self).order().push(key@)
            }),
    {
        let ghost before = *self;
        match self.position(key.as_str()) {
            Some(i) => {
                self.values.set(i, value);
                assert(self.order() == before.order());
                assert forall|k: Seq<char>| self.order().contains(k) && k != key@ implies before.values@[before.order().index_of(k)]
                    == self.values@[self.order().index_of(k)] by {
                    let j = self.order().index_of(k);
                    assert(self.order()[j] == k);
                }
                assert(self@ =~= before@.insert(key@, value));
            },
            None => {
                self.keys.push(key);
                self.values.push(value);
                let ghost n = before.keys.len() as int;
                assert(self.order() =~= before.order().push(key@));
                assert forall|k: Seq<char>| #[trigger] before.order().contains(k) implies self.order().contains(k)
                    && self.order().index_of(k) == before.order().index_of(k) by {
                    let j = before.order().index_of(k);
                    assert(self.order()[j] == k);
                }
                assert(self.order()[n] == key@);
                assert forall|a: int, b: int| 0 <= a < self.order().len() && 0 <= b < self.order().len() && a != b implies
                    self.order()[a] != self.order()[b] by {
                    if a == n {
                        assert(before.order().contains(self.order()[b]));
                    } else if b == n {
                        assert(before.order().contains(self.order()[a]));
                    }
                }
                assert(self.order().index_of(key@) == n);
                assert forall|k: Seq<char>| #[trigger] self.order().contains(k) && k != key@ implies before.order().contains(k) by {
                    let j = self.order().index_of(k);
                    assert(self.order()[j] == k);
                    assert(before.order()[j] == k);
                }
                assert(self@ =~= before@.insert(key@, value));
            },
        }
    }

    /// Takes a key and its value out; the other keys keep their order.
    pub fn remove(&mut self, key: &str) -> (r: Option<V>)
        requires
            old(self).wf(),
        ensures
            final(self).wf(),
            final(self)@ == old(self)@.remove(key@),
            r == (if old(self)@.dom().contains(key@) {
                Some(old(self)@[key@])
            } else {
                None
            }),
            final(self).order() == (if old(self)@.dom().contains(key@) {
                old(self).order().remove(old(self).order().index_of(key@))
            } else {
                old(self).order()
            }),
    {
        let ghost before = *self;
        match self.position(key) {
            Some(i) => {
                self.keys.remove(i);
                let v = self.values.remove(i);
                let ghost n = i as int;
                assert(self.order() =~= before.order().remove(n));
                assert forall|k: Seq<char>| #[trigger] self.order().contains(k) implies before.order().contains(k) && k != key@
                    && self.values@[self.order().index_of(k)] == before.values@[before.order().index_of(k)] by {
                    let j = self.order().index_of(k);
                    assert(self.order()[j] == k);
                    let m = if j < n { j } else { j + 1 };
                    assert(before.order()[m] == k);
                    assert(before.order().index_of(k) == m);
                }
                assert forall|k: Seq<char>| #[trigger] before.order().contains(k) && k != key@ implies self.order().contains(k) by {
                    let j = before.order().index_of(k);
                    assert(before.order()[j] == k);
                    let m = if j < n { j } else { j - 1 };
                    assert(self.order()[m] == k);
                }
                assert(self@ =~= before@.remove(key@));
                Some(v)
            },
            None => {
                assert(self@ =~= before@.remove(key@));
                None
            },
        }
    }
}

} // verus!
