use vstd::prelude::*;

verus! {

/// A 32-byte account or token address.
pub type Address = [u8; 32];

/// Compares two addresses byte by byte.
pub fn same_address(a: &Address, b: &Address) -> (same: bool)
    ensures
        same == (*a == *b),
{
    let mut i: usize = 0;
    while i < 32
        invariant
            i <= 32,
            forall|j: int| 0 <= j < i ==> a[j] == b[j],
        decreases 32 - i,
    {
        if a[i] != b[i] {
            return false;
        }
        i += 1;
    }
    assert(*a =~= *b);
    true
}

/// The address made of thirty-two zero bytes.
pub open spec fn zero_address() -> Address {
    vstd::array::spec_array_fill_for_copy_type::<u8, 32>(0u8)
}

/// The order of the keys after `key` was stored: `key` goes to the end
/// where it is new.
pub open spec fn order_with(order: Seq<Address>, key: Address) -> Seq<Address> {
    if order.contains(key) {
        order
    } else {
        order.push(key)
    }
}

/// Tells whether `address` occurs in `list`.
pub fn contains_address(list: &Vec<Address>, address: &Address) -> (found: bool)
    ensures
        found == list@.contains(*address),
{
    let mut i: usize = 0;
    while i < list.len()
        invariant
            i <= list.len(),
            forall|j: int| 0 <= j < i ==> list[j] != *address,
        decreases list.len() - i,
    {
        if same_address(&list[i], address) {
            return true;
        }
        i += 1;
    }
    false
}

/// A map from addresses to values that remembers insertion order.
#[derive(Debug)]
pub struct AddressMap<V> {
    keys: Vec<Address>,
    values: Vec<V>,
}

impl<V> View for AddressMap<V> {
    type V = Map<Address, V>;

    closed spec fn view(&self) -> Map<Address, V> {
        Map::new(
            |k: Address| self.keys@.contains(k),
            |k: Address| self.values@[self.keys@.index_of(k)],
        )
    }
}

impl<V: Clone> Clone for AddressMap<V> {
    /// A map with the same keys in the same order, each with a clone of
    /// its value.
    fn clone(&self) -> (copy: Self)
        ensures
            copy.order() == self.order(),
            copy@.dom() == self@.dom(),
            forall|k: Address| #[trigger]
                self@.contains_key(k) ==> vstd::pervasive::cloned(self@[k], copy@[k]),
    {
        proof {
            use_type_invariant(self);
        }
        let keys = self.keys();
        let values = self.values.clone();
        let copy = AddressMap { keys, values };
        assert(copy@.dom() =~= self@.dom());
        copy
    }
}

impl<V> AddressMap<V> {
    #[verifier::type_invariant]
    spec fn well_formed(self) -> bool {
        &&& self.keys.len() == self.values.len()
        &&& self.keys@.no_duplicates()
    }

    /// The keys of the map, oldest insertion first.
    pub closed spec fn order(&self) -> Seq<Address> {
        self.keys@
    }

    /// The keys in `order` are exactly the keys of the map.
    pub proof fn lemma_order(&self)
        ensures
            self@.dom().finite(),
            self@.dom() == self.order().to_set(),
            forall|k: Address| self@.contains_key(k) <==> self.order().contains(k),
    {
        assert(self@.dom() =~= self.keys@.to_set());
    }

    /// A map without entries.
    pub fn new() -> (m: Self)
        ensures
            m@ == Map::<Address, V>::empty(),
            m.order() == Seq::<Address>::empty(),
    {
        let m = AddressMap { keys: Vec::new(), values: Vec::new() };
        assert(m@ =~= Map::<Address, V>::empty());
        m
    }

    fn position(&self, key: &Address) -> (at: Option<usize>)
        ensures
            match at {
                Some(i) => i < self.keys.len() && self.keys[i as int] == *key,
                None => !self.keys@.contains(*key),
            },
    {
        let mut i: usize = 0;
        while i < self.keys.len()
            invariant
                i <= self.keys.len(),
                forall|j: int| 0 <= j < i ==> self.keys[j] != *key,
            decreases self.keys.len() - i,
        {
            if same_address(&self.keys[i], key) {
                return Some(i);
            }
            i += 1;
        }
        None
    }

    /// The number of entries.
    pub fn len(&self) -> (n: usize)
        ensures
            n == self@.len(),
            n == self.order().len(),
    {
        proof {
            use_type_invariant(self);
            self.lemma_order();
            self.keys@.unique_seq_to_set();
        }
        self.keys.len()
    }

    /// Tells whether the map has an entry for `key`.
    pub fn contains_key(&self, key: &Address) -> (found: bool)
        ensures
            found == self@.contains_key(*key),
            found == self.order().contains(*key),
    {
        self.position(key).is_some()
    }

    /// The value stored under `key`.
    pub fn get(&self, key: &Address) -> (found: Option<&V>)
        ensures
            found == if self@.contains_key(*key) {
                Some(&self@[*key])
            } else {
                None
            },
    {
        proof {
            use_type_invariant(self);
        }
        match self.position(key) {
            Some(i) => {
                assert(self.keys@.index_of(*key) == i);
                Some(&self.values[i])
            },
            None => None,
        }
    }

    /// The value stored under `key`, to be changed in place. The keys and
    /// their order stay as they are.
    pub fn get_mut(&mut self, key: &Address) -> (found: Option<&mut V>)
        ensures
            final(self).order() == old(self).order(),
            match found {
                Some(v) => old(self)@.contains_key(*key) && *v == old(self)@[*key]
                    && final(self)@ == old(self)@.insert(*key, *final(v)),
                None => !old(self)@.contains_key(*key) && final(self)@ == old(self)@,
            },
    {
        proof {
            use_type_invariant(&*self);
        }
        match self.position(key) {
            Some(i) => {
                assert(self.keys@.index_of(*key) == i);
                Some(&mut self.values[i])
            },
            None => None,
        }
    }
    /// Stores `value` under `key` and hands back the value it replaces.
    /// A new key goes to the end of `order`.
    pub fn insert(&mut self, key: Address, value: V) -> (previous: Option<V>)
        ensures
            final(self)@ == old(self)@.insert(key, value),
            previous == if old(self)@.contains_key(key) {
                Some(old(self)@[key])
            } else {
                None
            },
            final(self).order() == order_with(old(self).order(), key),
    {
        proof {
            use_type_invariant(&*self);
        }
        match self.position(&key) {
            Some(i) => {
                assert(self.keys@.index_of(key) == i);
                let mut held = value;
                std::mem::swap(&mut self.values[i], &mut held);
                assert(self@ =~= old(self)@.insert(key, value)) by {
                    assert forall|k: Address| self.keys@.contains(k) && k != key implies
                        self.values@[self.keys@.index_of(k)]
                            == old(self).values@[self.keys@.index_of(k)] by {
                        assert(self.keys@.index_of(k) != i);
                    }
                }
                Some(held)
            },
            None => {
                let mut taken = AddressMap { keys: Vec::new(), values: Vec::new() };
                std::mem::swap(self, &mut taken);
                let AddressMap { mut keys, mut values } = taken;
                keys.push(key);
                values.push(value);
                *self = AddressMap { keys, values };
                assert(self@ =~= old(self)@.insert(key, value)) by {
                    let n = old(self).keys@.len() as int;
                    assert(self.keys@[n] == key);
                    assert forall|k: Address| self.keys@.contains(k) implies #[trigger] self@[k]
                        == old(
                        self,
                    )@.insert(key, value)[k] by {
                        let i = self.keys@.index_of(k);
                        if i < n {
                            assert(old(self).keys@[i] == k);
                            assert(old(self).keys@.index_of(k) == i);
                        }
                    }
                    assert forall|k: Address| self.keys@.contains(k) <==> (old(self).keys@.contains(k)
                        || k == key) by {
                        if old(self).keys@.contains(k) {
                            let i = old(self).keys@.index_of(k);
                            assert(self.keys@[i] == k);
                        }
                    }
                }
                None
            },
        }
    }

    /// Takes `key` out of the map; the other keys keep their order.
    pub fn remove(&mut self, key: &Address) -> (removed: Option<V>)
        ensures
            final(self)@ == old(self)@.remove(*key),
            removed == if old(self)@.contains_key(*key) {
                Some(old(self)@[*key])
            } else {
                None
            },
            final(self).order() == old(self).order().remove_value(*key),
    {
        proof {
            use_type_invariant(&*self);
        }
        match self.position(key) {
            Some(i) => {
                assert(self.keys@.index_of(*key) == i);
                let mut taken = AddressMap { keys: Vec::new(), values: Vec::new() };
                std::mem::swap(self, &mut taken);
                let AddressMap { mut keys, mut values } = taken;
                keys.remove(i);
                let value = values.remove(i);
                *self = AddressMap { keys, values };
                proof {
                    let before = old(self).keys@;
                    let after = self.keys@;
                    assert(before.index_of_first(*key) == Some(i as int)) by {
                        before.index_of_first_ensures(*key);
                    }
                    assert(after == before.remove_value(*key));
                    assert forall|k: Address| after.contains(k) <==> (before.contains(k) && k
                        != *key) by {
                        if after.contains(k) {
                            let j = after.index_of(k);
                            if j < i {
                                assert(before[j] == k);
                            } else {
                                assert(before[j + 1] == k);
                            }
                        }
                        if before.contains(k) && k != *key {
                            let j = before.index_of(k);
                            if j < i {
                                assert(after[j] == k);
                            } else {
                                assert(after[j - 1] == k);
                            }
                        }
                    }
                    assert forall|k: Address| after.contains(k) implies self.values@[after.index_of(
                        k,
                    )] == old(self).values@[before.index_of(k)] by {
                        let j = after.index_of(k);
                        if j < i {
                            assert(before[j] == k);
                            assert(before.index_of(k) == j);
                        } else {
                            assert(before[j + 1] == k);
                            assert(before.index_of(k) == j + 1);
                        }
                    }
                    assert(self@ =~= old(self)@.remove(*key));
                }
                Some(value)
            },
            None => {
                proof {
                    old(self).keys@.index_of_first_ensures(*key);
                    assert(self@ =~= old(self)@.remove(*key));
                }
                None
            },
        }
    }

    /// The keys of the map, oldest insertion first.
    pub fn keys(&self) -> (ks: Vec<Address>)
        ensures
            ks@ == self.order(),
            ks@.no_duplicates(),
            forall|k: Address| ks@.contains(k) <==> self@.contains_key(k),
    {
        proof {
            use_type_invariant(self);
        }
        let mut ks: Vec<Address> = Vec::new();
        let mut i: usize = 0;
        while i < self.keys.len()
            invariant
                i <= self.keys.len(),
                ks@ == self.keys@.subrange(0, i as int),
            decreases self.keys.len() - i,
        {
            ks.push(self.keys[i]);
            assert(ks@ =~= self.keys@.subrange(0, i + 1));
            i += 1;
        }
        assert(ks@ =~= self.keys@);
        ks
    }
}

} // verus!
