use vstd::prelude::*;

verus! {

spec fn names_of(keys: Seq<String>) -> Seq<Seq<char>> {
    Seq::new(keys.len(), |i: int| keys[i]@)
}

/// The order of the names after `name` was stored: `name` goes to the end
/// where it is new.
pub open spec fn order_with(order: Seq<Seq<char>>, name: Seq<char>) -> Seq<Seq<char>> {
    if order.contains(name) {
        order
    } else {
        order.push(name)
    }
}

/// A map from names to values that remembers insertion order.
#[derive(Debug)]
pub struct NameMap<V> {
    keys: Vec<String>,
    values: Vec<V>,
}

impl<V> View for NameMap<V> {
    type V = Map<Seq<char>, V>;

    closed spec fn view(&self) -> Map<Seq<char>, V> {
        Map::new(
            |k: Seq<char>| self.order().contains(k),
            |k: Seq<char>| self.values@[self.order().index_of(k)],
        )
    }
}

impl<V> NameMap<V> {
    #[verifier::type_invariant]
    spec fn well_formed(self) -> bool {
        &&& self.keys.len() == self.values.len()
        &&& self.order().no_duplicates()
    }

    /// The names in the map, oldest insertion first.
    pub closed spec fn order(&self) -> Seq<Seq<char>> {
        names_of(self.keys@)
    }

    /// The names in `order` are exactly the keys of the map.
    pub proof fn lemma_order(&self)
        ensures
            self@.dom().finite(),
            self@.dom() == self.order().to_set(),
            forall|k: Seq<char>| self@.contains_key(k) <==> self.order().contains(k),
    {
        assert(self@.dom() =~= self.order().to_set());
    }

    /// A map without entries.
    pub fn new() -> (m: Self)
        ensures
            m@ == Map::<Seq<char>, V>::empty(),
            m.order() == Seq::<Seq<char>>::empty(),
    {
        let m = NameMap { keys: Vec::new(), values: Vec::new() };
        assert(m.order() =~= Seq::<Seq<char>>::empty());
        assert(m@ =~= Map::<Seq<char>, V>::empty());
        m
    }

    fn position(&self, key: &str) -> (at: Option<usize>)
        ensures
            match at {
                Some(i) => i < self.keys.len() && self.order()[i as int] == key@,
                None => !self.order().contains(key@),
            },
    {
        let wanted = key.to_owned();
        let mut i: usize = 0;
        while i < self.keys.len()
            invariant
                i <= self.keys.len(),
                wanted@ == key@,
                forall|j: int| 0 <= j < i ==> self.order()[j] != key@,
            decreases self.keys.len() - i,
        {
            if self.keys[i] == wanted {
                return Some(i);
            }
            i += 1;
        }
        None
    }

    /// The number of entries.
    pub fn len(&self) -> (n: usize)
        ensures
            n == self@.len(),
            n == self.order().len(),
    {
        proof {
            use_type_invariant(self);
            self.lemma_order();
            self.order().unique_seq_to_set();
        }
        self.keys.len()
    }

    /// Tells whether the map has an entry for `key`.
    pub fn contains_key(&self, key: &str) -> (found: bool)
        ensures
            found == self@.contains_key(key@),
            found == self.order().contains(key@),
    {
        self.position(key).is_some()
    }

    /// The value stored under `key`.
    pub fn get(&self, key: &str) -> (found: Option<&V>)
        ensures
            found == if self@.contains_key(key@) {
                Some(&self@[key@])
            } else {
                None
            },
    {
        proof {
            use_type_invariant(self);
        }
        match self.position(key) {
            Some(i) => {
                assert(self.order().index_of(key@) == i);
                Some(&self.values[i])
            },
            None => None,
        }
    }

    /// The value stored under `key`, to be changed in place. The keys and
    /// their order stay as they are.
    pub fn get_mut(&mut self, key: &str) -> (found: Option<&mut V>)
        ensures
            final(self).order() == old(self).order(),
            match found {
                Some(v) => old(self)@.contains_key(key@) && *v == old(self)@[key@] && final(self)@
                    == old(self)@.insert(key@, *final(v)),
                None => !old(self)@.contains_key(key@) && final(self)@ == old(self)@,
            },
    {
        proof {
            use_type_invariant(&*self);
        }
        match self.position(key) {
            Some(i) => {
                assert(self.order().index_of(key@) == i);
                Some(&mut self.values[i])
            },
            None => None,
        }
    }

    /// Stores `value` under `key` and hands back the value it replaces.
    /// A new name goes to the end of `order`.
    pub fn insert(&mut self, key: String, value: V) -> (previous: Option<V>)
        ensures
            final(self)@ == old(self)@.insert(key@, value),
            previous == if old(self)@.contains_key(key@) {
                Some(old(self)@[key@])
            } else {
                None
            },
            final(self).order() == order_with(old(self).order(), key@),
    {
        proof {
            use_type_invariant(&*self);
        }
        match self.position(key.as_str()) {
            Some(i) => {
                assert(self.order().index_of(key@) == i);
                let mut held = value;
                std::mem::swap(&mut self.values[i], &mut held);
                assert(self@ =~= old(self)@.insert(key@, value)) by {
                    assert forall|k: Seq<char>| self.order().contains(k) && k != key@ implies
                        self.values@[self.order().index_of(k)]
                            == old(self).values@[self.order().index_of(
                        k,
                    )] by {
                        assert(self.order().index_of(k) != i);
                    }
                }
                Some(held)
            },
            None => {
                let mut taken = NameMap { keys: Vec::new(), values: Vec::new() };
                assert(taken.order() =~= Seq::<Seq<char>>::empty());
                std::mem::swap(self, &mut taken);
                let NameMap { mut keys, mut values } = taken;
                keys.push(key);
                values.push(value);
                proof {
                    let before = old(self).order();
                    assert(names_of(keys@) =~= before.push(key@));
                    assert forall|a: int, b: int|
                        0 <= a < names_of(keys@).len() && 0 <= b < names_of(keys@).len() && a
                            != b implies names_of(keys@)[a] != names_of(keys@)[b] by {
                        if a < before.len() && b < before.len() {
                            assert(before[a] != before[b]);
                        }
                    }
                }
                *self = NameMap { keys, values };
                proof {
                    let before = old(self).order();
                    let after = self.order();
                    let n = before.len() as int;
                    assert(after =~= before.push(key@));
                    assert forall|k: Seq<char>| after.contains(k) <==> (before.contains(k) || k
                        == key@) by {
                        if before.contains(k) {
                            let i = before.index_of(k);
                            assert(after[i] == k);
                        }
                        if k == key@ {
                            assert(after[n] == k);
                        }
                    }
                    assert forall|k: Seq<char>| after.contains(k) implies #[trigger] self@[k]
                        == old(
                        self,
                    )@.insert(key@, value)[k] by {
                        let i = after.index_of(k);
                        if i < n {
                            assert(before[i] == k);
                            assert(before.index_of(k) == i);
                        }
                    }
                    assert(self@ =~= old(self)@.insert(key@, value));
                }
                None
            },
        }
    }

    /// Takes `key` out of the map; the other names keep their order.
    pub fn remove(&mut self, key: &str) -> (removed: Option<V>)
        ensures
            final(self)@ == old(self)@.remove(key@),
            removed == if old(self)@.contains_key(key@) {
                Some(old(self)@[key@])
            } else {
                None
            },
            final(self).order() == old(self).order().remove_value(key@),
    {
        proof {
            use_type_invariant(&*self);
        }
        match self.position(key) {
            Some(i) => {
                assert(self.order().index_of(key@) == i);
                let mut taken = NameMap { keys: Vec::new(), values: Vec::new() };
                assert(taken.order() =~= Seq::<Seq<char>>::empty());
                std::mem::swap(self, &mut taken);
                let NameMap { mut keys, mut values } = taken;
                keys.remove(i);
                let value = values.remove(i);
                proof {
                    let before = old(self).order();
                    assert(names_of(keys@) =~= before.remove(i as int));
                    assert forall|a: int, b: int|
                        0 <= a < names_of(keys@).len() && 0 <= b < names_of(keys@).len() && a
                            != b implies names_of(keys@)[a] != names_of(keys@)[b] by {
                        let a0 = if a < i { a } else { a + 1 };
                        let b0 = if b < i { b } else { b + 1 };
                        assert(before[a0] != before[b0]);
                    }
                }
                *self = NameMap { keys, values };
                proof {
                    let before = old(self).order();
                    let after = self.order();
                    assert(before.index_of_first(key@) == Some(i as int)) by {
                        before.index_of_first_ensures(key@);
                    }
                    assert(after =~= before.remove(i as int));
                    assert(after == before.remove_value(key@));
                    assert forall|k: Seq<char>| after.contains(k) <==> (before.contains(k) && k
                        != key@) by {
                        if after.contains(k) {
                            let j = after.index_of(k);
                            if j < i {
                                assert(before[j] == k);
                            } else {
                                assert(before[j + 1] == k);
                            }
                        }
                        if before.contains(k) && k != key@ {
                            let j = before.index_of(k);
                            if j < i {
                                assert(after[j] == k);
                            } else {
                                assert(after[j - 1] == k);
                            }
                        }
                    }
                    assert forall|k: Seq<char>| after.contains(k) implies self.values@[after.index_of(
                        k,
                    )] == old(self).values@[before.index_of(k)] by {
                        let j = after.index_of(k);
                        if j < i {
                            assert(before[j] == k);
                            assert(before.index_of(k) == j);
                        } else {
                            assert(before[j + 1] == k);
                            assert(before.index_of(k) == j + 1);
                        }
                    }
                    assert(self@ =~= old(self)@.remove(key@));
                }
                Some(value)
            },
            None => {
                proof {
                    old(self).order().index_of_first_ensures(key@);
                    assert(self@ =~= old(self)@.remove(key@));
                }
                None
            },
        }
    }

    /// The names in the map, oldest insertion first.
    pub fn keys(&self) -> (ks: Vec<String>)
        ensures
            ks@.len() == self.order().len(),
            forall|i: int| 0 <= i < ks@.len() ==> #[trigger] ks@[i]@ == self.order()[i],
            self.order().no_duplicates(),
            forall|k: Seq<char>| self.order().contains(k) <==> self@.contains_key(k),
    {
        proof {
            use_type_invariant(self);
        }
        let mut ks: Vec<String> = Vec::new();
        let mut i: usize = 0;
        while i < self.keys.len()
            invariant
                i <= self.keys.len(),
                ks@.len() == i,
                forall|j: int| 0 <= j < i ==> #[trigger] ks@[j]@ == self.keys@[j]@,
            decreases self.keys.len() - i,
        {
            ks.push(self.keys[i].clone());
            i += 1;
        }
        ks
    }
}

} // verus!
