use vstd::prelude::*;
use crate::address::Address;

verus! {

/// A map from addresses to values, kept as a list of entries with distinct
/// addresses. Writing an address that is already present replaces its value
/// (last write wins); the entries carry no other order that callers rely on.
#[derive(Debug)]
pub struct AddressMap<V> {
    entries: Vec<(Address, V)>,
}

impl<V> AddressMap<V> {
    #[verifier::type_invariant]
    spec fn distinct_keys(&self) -> bool {
        forall|i: int, j: int|
            0 <= i < j < self.entries@.len() ==> self.entries@[i].0 != self.entries@[j].0
    }

    spec fn holds_at(&self, a: Address, i: int) -> bool {
        0 <= i < self.entries@.len() && self.entries@[i].0 == a
    }

    proof fn lemma_value_at(&self, i: int)
        requires
            self.distinct_keys(),
            0 <= i < self.entries@.len(),
        ensures
            self@.contains_key(self.entries@[i].0),
            self@[self.entries@[i].0] == self.entries@[i].1,
    {
        let a = self.entries@[i].0;
        assert(self.holds_at(a, i));
        let j = choose|j: int| self.holds_at(a, j);
        assert(j == i);
    }

    pub fn new() -> (r: AddressMap<V>)
        ensures
            r@ == Map::<Address, V>::empty(),
    {
        let r = AddressMap { entries: Vec::new() };
        assert(r@ =~= Map::<Address, V>::empty());
        r
    }

    /// Number of addresses in the map.
    pub fn len(&self) -> (r: usize)
        ensures
            r == self@.dom().len(),
    {
        proof {
            use_type_invariant(self);
            self.lemma_dom_len();
        }
        self.entries.len()
    }

    proof fn lemma_dom_len(&self)
        requires
            self.distinct_keys(),
        ensures
            self@.dom().finite(),
            self@.dom().len() == self.entries@.len(),
    {
        let keys = self.entries@.map_values(|e: (Address, V)| e.0);
        assert(keys.no_duplicates());
        assert(self@.dom() =~= keys.to_set()) by {
            assert forall|a: Address| self@.dom().contains(a) implies keys.to_set().contains(a) by {
                let i = choose|i: int| self.holds_at(a, i);
                assert(keys[i] == a);
            }
            assert forall|a: Address| keys.to_set().contains(a) implies self@.dom().contains(a) by {
                let i = choose|i: int| 0 <= i < keys.len() && keys[i] == a;
                assert(self.holds_at(a, i));
            }
        }
        keys.unique_seq_to_set();
    }

    fn index_of(&self, a: &Address) -> (r: Option<usize>)
        ensures
            match r {
                Some(i) => self.holds_at(*a, i as int),
                None => !self@.contains_key(*a),
            },
    {
        let mut i: usize = 0;
        while i < self.entries.len()
            invariant
                i <= self.entries@.len(),
                forall|j: int| 0 <= j < i ==> self.entries@[j].0 != *a,
            decreases self.entries@.len() - i,
        {
            if self.entries[i].0.same_as(a) {
                return Some(i);
            }
            i = i + 1;
        }
        None
    }

    /// Sets the value of `a`, replacing any earlier one.
    pub fn insert(&mut self, a: Address, v: V)
        ensures
            final(self)@ == old(self)@.insert(a, v),
    {
        proof {
            use_type_invariant(&*self);
        }
        let ghost pre = *self;
        let found = self.index_of(&a);
        let mut entries: Vec<(Address, V)> = Vec::new();
        std::mem::swap(&mut self.entries, &mut entries);
        match found {
            Some(i) => {
                entries.set(i, (a, v));
                *self = AddressMap { entries };
                proof {
                    assert forall|x: Address| #[trigger] self@.contains_key(x) == pre@.insert(a, v).contains_key(x) by {
                        if self@.contains_key(x) {
                            let j = choose|j: int| self.holds_at(x, j);
                            if j != i {
                                assert(pre.holds_at(x, j));
                            }
                        }
                        if pre@.contains_key(x) && x != a {
                            let j = choose|j: int| pre.holds_at(x, j);
                            assert(self.holds_at(x, j));
                        }
                        if x == a {
                            assert(self.holds_at(x, i as int));
                        }
                    }
                    assert forall|x: Address| #[trigger] self@.contains_key(x) implies self@[x] == pre@.insert(a, v)[x] by {
                        let j = choose|j: int| self.holds_at(x, j);
                        self.lemma_value_at(j);
                        if j != i {
                            pre.lemma_value_at(j);
                        }
                    }
                    assert(self@ =~= pre@.insert(a, v));
                }
            },
            None => {
                proof {
                    assert forall|j: int| 0 <= j < entries@.len() implies entries@[j].0 != a by {
                        if entries@[j].0 == a {
                            assert(pre.holds_at(a, j));
                        }
                    }
                }
                entries.push((a, v));
                *self = AddressMap { entries };
                proof {
                    let n = pre.entries@.len() as int;
                    assert forall|x: Address| #[trigger] self@.contains_key(x) == pre@.insert(a, v).contains_key(x) by {
                        if self@.contains_key(x) && x != a {
                            let j = choose|j: int| self.holds_at(x, j);
                            assert(pre.holds_at(x, j));
                        }
                        if pre@.contains_key(x) {
                            let j = choose|j: int| pre.holds_at(x, j);
                            assert(self.holds_at(x, j));
                        }
                        if x == a {
                            assert(self.holds_at(x, n));
                        }
                    }
                    assert forall|x: Address| #[trigger] self@.contains_key(x) implies self@[x] == pre@.insert(a, v)[x] by {
                        let j = choose|j: int| self.holds_at(x, j);
                        self.lemma_value_at(j);
                        if j != n {
                            pre.lemma_value_at(j);
                        }
                    }
                    assert(self@ =~= pre@.insert(a, v));
                }
            },
        }
    }

    /// The value stored for `a`, if any.
    pub fn get(&self, a: &Address) -> (r: Option<V>)
        where V: Copy
        ensures
            r == (if self@.contains_key(*a) { Some(self@[*a]) } else { None::<V> }),
    {
        proof {
            use_type_invariant(self);
        }
        match self.index_of(a) {
            Some(i) => {
                proof {
                    self.lemma_value_at(i as int);
                }
                Some(self.entries[i].1)
            },
            None => None,
        }
    }

    /// The entries of the map, each address once.
    pub fn to_vec(&self) -> (r: Vec<(Address, V)>)
        where V: Copy
        ensures
            r@.len() == self@.dom().len(),
            forall|i: int| 0 <= i < r@.len() ==> #[trigger] self@.contains_key(r@[i].0) && self@[r@[i].0] == r@[i].1,
            forall|a: Address| #[trigger] self@.contains_key(a) ==> exists|i: int| 0 <= i < r@.len() && r@[i].0 == a,
            forall|i: int, j: int| 0 <= i < j < r@.len() ==> r@[i].0 != r@[j].0,
    {
        proof {
            use_type_invariant(self);
            self.lemma_dom_len();
        }
        let mut r: Vec<(Address, V)> = Vec::new();
        for i in 0..self.entries.len()
            invariant
                r@ == self.entries@.subrange(0, i as int),
                self.distinct_keys(),
        {
            r.push(self.entries[i]);
            proof {
                assert(r@ =~= self.entries@.subrange(0, i + 1));
            }
        }
        proof {
            assert(r@ =~= self.entries@);
            assert forall|i: int| 0 <= i < r@.len() implies #[trigger] self@.contains_key(r@[i].0) && self@[r@[i].0] == r@[i].1 by {
                self.lemma_value_at(i);
            }
            assert forall|a: Address| #[trigger] self@.contains_key(a) implies exists|i: int| 0 <= i < r@.len() && r@[i].0 == a by {
                let i = choose|i: int| self.holds_at(a, i);
                assert(r@[i].0 == a);
            }
        }
        r
    }

    /// A copy of this map.
    pub fn duplicate(&self) -> (r: AddressMap<V>)
        where V: Copy
        ensures
            r@ == self@,
    {
        proof {
            use_type_invariant(self);
        }
        let mut entries: Vec<(Address, V)> = Vec::new();
        for i in 0..self.entries.len()
            invariant
                entries@ == self.entries@.subrange(0, i as int),
                self.distinct_keys(),
        {
            entries.push(self.entries[i]);
            proof {
                assert(entries@ =~= self.entries@.subrange(0, i + 1));
            }
        }
        proof {
            assert(entries@ =~= self.entries@);
        }
        let r = AddressMap { entries };
        proof {
            assert forall|a: Address| #[trigger] r@.contains_key(a) == self@.contains_key(a) by {
                if r@.contains_key(a) {
                    let i = choose|i: int| r.holds_at(a, i);
                    assert(self.holds_at(a, i));
                }
                if self@.contains_key(a) {
                    let i = choose|i: int| self.holds_at(a, i);
                    assert(r.holds_at(a, i));
                }
            }
            assert(r@ =~= self@);
        }
        r
    }

    /// Writes every entry of `other` into this map; where both hold an
    /// address, the value from `other` wins.
    pub fn merge_from(&mut self, other: &AddressMap<V>)
        where V: Copy
        ensures
            final(self)@ == old(self)@.union_prefer_right(other@),
    {
        proof {
            use_type_invariant(other);
        }
        let n = other.entries.len();
        for i in 0..n
            invariant
                n == other.entries@.len(),
                other.distinct_keys(),
                forall|a: Address| #[trigger] self@.contains_key(a) <==> (old(self)@.contains_key(a)
                    || exists|j: int| 0 <= j < i && other.entries@[j].0 == a),
                forall|j: int| 0 <= j < i ==> #[trigger] self@[other.entries@[j].0] == other.entries@[j].1,
                forall|a: Address| #[trigger] self@.contains_key(a) && !(exists|j: int| 0 <= j < i && other.entries@[j].0 == a)
                    ==> self@[a] == old(self)@[a],
        {
            let (a, v) = other.entries[i];
            let ghost before = self@;
            self.insert(a, v);
            proof {
                assert forall|j: int| 0 <= j < i + 1 implies #[trigger] self@[other.entries@[j].0] == other.entries@[j].1 by {
                    if j < i {
                        assert(other.entries@[j].0 != a);
                    }
                }
                assert forall|x: Address| #[trigger] self@.contains_key(x) <==> (old(self)@.contains_key(x)
                    || exists|j: int| 0 <= j < i + 1 && other.entries@[j].0 == x) by {
                    if x == a {
                        assert(other.entries@[i as int].0 == x);
                    } else if exists|j: int| 0 <= j < i + 1 && other.entries@[j].0 == x {
                        let j = choose|j: int| 0 <= j < i + 1 && other.entries@[j].0 == x;
                        assert(j < i);
                    }
                }
            }
        }
        proof {
            assert forall|a: Address| #[trigger] self@.contains_key(a) == old(self)@.union_prefer_right(other@).contains_key(a) by {
                if other@.contains_key(a) {
                    let j = choose|j: int| other.holds_at(a, j);
                    assert(other.entries@[j].0 == a);
                }
                if exists|j: int| 0 <= j < n && other.entries@[j].0 == a {
                    let j = choose|j: int| 0 <= j < n && other.entries@[j].0 == a;
                    assert(other.holds_at(a, j));
                }
            }
            assert forall|a: Address| #[trigger] self@.contains_key(a) implies self@[a] == old(self)@.union_prefer_right(other@)[a] by {
                if other@.contains_key(a) {
                    let j = choose|j: int| other.holds_at(a, j);
                    other.lemma_value_at(j);
                    assert(self@[other.entries@[j].0] == other.entries@[j].1);
                } else {
                    if exists|j: int| 0 <= j < n && other.entries@[j].0 == a {
                        let j = choose|j: int| 0 <= j < n && other.entries@[j].0 == a;
                        assert(other.holds_at(a, j));
                    }
                }
            }
            assert(self@ =~= old(self)@.union_prefer_right(other@));
        }
    }
}

impl AddressMap<u64> {
    /// The addresses whose value is at least `threshold`, each once.
    pub fn keys_at_least(&self, threshold: u64) -> (r: Vec<Address>)
        ensures
            r@.no_duplicates(),
            forall|a: Address| #[trigger] r@.contains(a) <==> (self@.contains_key(a) && self@[a] >= threshold),
    {
        proof {
            use_type_invariant(self);
        }
        let mut r: Vec<Address> = Vec::new();
        let n = self.entries.len();
        for i in 0..n
            invariant
                n == self.entries@.len(),
                self.distinct_keys(),
                r@.no_duplicates(),
                forall|a: Address| #[trigger] r@.contains(a) <==> exists|j: int| 0 <= j < i
                    && self.entries@[j].0 == a && self.entries@[j].1 >= threshold,
        {
            let (a, v) = self.entries[i];
            if v >= threshold {
                proof {
                    assert(!r@.contains(a)) by {
                        if r@.contains(a) {
                            let j = choose|j: int| 0 <= j < i && self.entries@[j].0 == a && self.entries@[j].1 >= threshold;
                        }
                    }
                }
                let ghost before = r@;
                r.push(a);
                proof {
                    assert forall|x: Address| #[trigger] r@.contains(x) <==> exists|j: int| 0 <= j < i + 1
                        && self.entries@[j].0 == x && self.entries@[j].1 >= threshold by {
                        if x == a {
                            assert(r@[r@.len() - 1] == x);
                            assert(self.entries@[i as int].0 == x);
                        } else {
                            if r@.contains(x) {
                                let k = choose|k: int| 0 <= k < r@.len() && r@[k] == x;
                                assert(before[k] == x);
                                assert(before.contains(x));
                            }
                            if exists|j: int| 0 <= j < i && self.entries@[j].0 == x && self.entries@[j].1 >= threshold {
                                assert(before.contains(x));
                                let k = choose|k: int| 0 <= k < before.len() && before[k] == x;
                                assert(r@[k] == x);
                            }
                        }
                    }
                }
            }
        }
        proof {
            assert forall|a: Address| #[trigger] r@.contains(a) <==> (self@.contains_key(a) && self@[a] >= threshold) by {
                if self@.contains_key(a) {
                    let j = choose|j: int| self.holds_at(a, j);
                    self.lemma_value_at(j);
                }
                if exists|j: int| 0 <= j < n && self.entries@[j].0 == a && self.entries@[j].1 >= threshold {
                    let j = choose|j: int| 0 <= j < n && self.entries@[j].0 == a && self.entries@[j].1 >= threshold;
                    self.lemma_value_at(j);
                }
            }
        }
        r
    }
}

impl<V> View for AddressMap<V> {
    type V = Map<Address, V>;

    closed spec fn view(&self) -> Map<Address, V> {
        Map::new(
            |a: Address| exists|i: int| self.holds_at(a, i),
            |a: Address| self.entries@[choose|i: int| self.holds_at(a, i)].1,
        )
    }
}

} // verus!
