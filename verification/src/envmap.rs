//! A map from variable names to values, as used for job environments,
//! container environments and expansion contexts.
use vstd::prelude::*;
use crate::text::owned;

verus! {

/// A finite map from names to values; each name occurs once.
pub struct EnvMap {
    keys: Vec<String>,
    vals: Vec<String>,
    model: Ghost<Map<Seq<char>, Seq<char>>>,
}

/// Returned by [`EnvMap::lookup_for_expansion`] for a name with no entry.
pub struct MissingVariable;

impl View for EnvMap {
    type V = Map<Seq<char>, Seq<char>>;

    closed spec fn view(&self) -> Map<Seq<char>, Seq<char>> {
        self.model@
    }
}

impl EnvMap {
    #[verifier::type_invariant]
    closed spec fn inv(self) -> bool {
        &&& self.keys@.len() == self.vals@.len()
        &&& self.model@.dom().finite()
        &&& forall|i: int, j: int|
            0 <= i < self.keys@.len() && 0 <= j < self.keys@.len() && i != j
                ==> #[trigger] self.keys@[i]@ != #[trigger] self.keys@[j]@
        &&& forall|i: int|
            0 <= i < self.keys@.len() ==> #[trigger] self.model@.contains_key(self.keys@[i]@)
                && self.model@[self.keys@[i]@] == self.vals@[i]@
        &&& forall|k: Seq<char>|
            #[trigger] self.model@.contains_key(k) ==> exists|i: int|
                0 <= i < self.keys@.len() && self.keys@[i]@ == k
    }

    /// The names in the order in which they were first inserted.
    pub closed spec fn key_seq(&self) -> Seq<Seq<char>> {
        self.keys@.map_values(|k: String| k@)
    }

    /// An empty map.
    pub fn new() -> (r: Self)
        ensures
            r@ == Map::<Seq<char>, Seq<char>>::empty(),
    {
        EnvMap { keys: Vec::new(), vals: Vec::new(), model: Ghost(Map::empty()) }
    }

    /// The number of entries.
    pub fn len(&self) -> (r: usize)
        ensures
            r == self.key_seq().len(),
            (r == 0) == (self@ == Map::<Seq<char>, Seq<char>>::empty()),
            forall|k: Seq<char>| self@.contains_key(k) <==> self.key_seq().contains(k),
            forall|i: int, j: int|
                0 <= i < self.key_seq().len() && 0 <= j < self.key_seq().len() && i != j
                    ==> self.key_seq()[i] != self.key_seq()[j],
            self@.dom().finite(),
    {
        proof {
            use_type_invariant(self);
            assert forall|k: Seq<char>| self@.contains_key(k) <==> self.key_seq().contains(k) by {
                if self@.contains_key(k) {
                    let i = choose|i: int| 0 <= i < self.keys@.len() && self.keys@[i]@ == k;
                    assert(self.key_seq()[i] == k);
                }
                if self.key_seq().contains(k) {
                    let i = choose|i: int| 0 <= i < self.key_seq().len() && self.key_seq()[i] == k;
                    assert(self.model@.contains_key(self.keys@[i]@));
                }
            }
            if self.keys@.len() == 0 {
                assert(self@ =~= Map::<Seq<char>, Seq<char>>::empty());
            } else {
                assert(self@.contains_key(self.keys@[0]@));
            }
        }
        self.keys.len()
    }

    /// The position of `k` among the names.
    fn find(&self, k: &str) -> (r: Option<usize>)
        ensures
            r matches Some(i) ==> i < self.keys@.len() && self.keys@[i as int]@ == k@,
            r is None ==> !self@.contains_key(k@),
    {
        proof {
            use_type_invariant(self);
        }
        let kk = owned(k);
        let mut i: usize = 0;
        while i < self.keys.len()
            invariant
                kk@ == k@,
                i <= self.keys@.len(),
                forall|j: int| 0 <= j < i ==> self.keys@[j]@ != k@,
            decreases self.keys.len() - i,
        {
            if self.keys[i] == kk {
                return Some(i);
            }
            i = i + 1;
        }
        None
    }

    /// Whether `k` has an entry.
    pub fn contains_key(&self, k: &str) -> (r: bool)
        ensures
            r == self@.contains_key(k@),
    {
        proof {
            use_type_invariant(self);
        }
        match self.find(k) {
            Some(i) => true,
            None => false,
        }
    }

    /// The value of `k`, if any.
    pub fn get(&self, k: &str) -> (r: Option<String>)
        ensures
            r is Some == self@.contains_key(k@),
            r matches Some(v) ==> v@ == self@[k@],
    {
        proof {
            use_type_invariant(self);
        }
        match self.find(k) {
            Some(i) => Some(self.vals[i].clone()),
            None => None,
        }
    }

    /// The value of `k` for variable expansion: a missing name is an error.
    pub fn lookup_for_expansion(&self, k: &str) -> (r: Result<Option<String>, MissingVariable>)
        ensures
            self@.contains_key(k@) ==> (r matches Ok(Some(v)) && v@ == self@[k@]),
            !self@.contains_key(k@) ==> r is Err,
    {
        match self.get(k) {
            Some(v) => Ok(Some(v)),
            None => Err(MissingVariable),
        }
    }

    /// Sets `k` to `v`, replacing any earlier value.
    pub fn insert(&mut self, k: String, v: String)
        ensures
            final(self)@ == old(self)@.insert(k@, v@),
    {
        proof {
            use_type_invariant(&*self);
        }
        let ghost old_model = self.model@;
        let ghost old_keys = self.keys@;
        let ghost old_vals = self.vals@;
        match self.find(k.as_str()) {
            Some(i) => {
                let mut vals = self.vals.clone();
                assert(vals@ =~= old_vals);
                vals.set(i, v);
                let keys = self.keys.clone();
                assert(keys@ =~= old_keys);
                let ghost model = old_model.insert(k@, v@);
                assert forall|a: int|
                    0 <= a < keys@.len() implies #[trigger] model.contains_key(keys@[a]@)
                    && model[keys@[a]@] == vals@[a]@ by {
                    if a != i {
                        assert(old_model.contains_key(old_keys[a]@));
                        assert(old_keys[a]@ != old_keys[i as int]@);
                    }
                }
                assert forall|kk: Seq<char>| #[trigger] model.contains_key(kk) implies exists|j: int|
                    0 <= j < keys@.len() && keys@[j]@ == kk by {
                    if kk != k@ {
                        assert(old_model.contains_key(kk));
                    } else {
                        assert(keys@[i as int]@ == kk);
                    }
                }
                *self = EnvMap { keys, vals, model: Ghost(model) };
            },
            None => {
                let mut keys = self.keys.clone();
                let mut vals = self.vals.clone();
                assert(keys@ =~= old_keys);
                assert(vals@ =~= old_vals);
                keys.push(k);
                vals.push(v);
                assert forall|a: int, b: int|
                    0 <= a < keys@.len() && 0 <= b < keys@.len() && a != b
                    implies #[trigger] keys@[a]@ != #[trigger] keys@[b]@ by {
                    if a < old_keys.len() && b < old_keys.len() {
                        assert(keys@[a] == old_keys[a]);
                        assert(keys@[b] == old_keys[b]);
                    } else if a < old_keys.len() {
                        assert(keys@[a] == old_keys[a]);
                        assert(old_model.contains_key(old_keys[a]@));
                    } else if b < old_keys.len() {
                        assert(keys@[b] == old_keys[b]);
                        assert(old_model.contains_key(old_keys[b]@));
                    }
                }
                assert forall|a: int|
                    0 <= a < keys@.len() implies #[trigger] old_model.insert(k@, v@).contains_key(keys@[a]@)
                    && old_model.insert(k@, v@)[keys@[a]@] == vals@[a]@ by {
                    if a < old_keys.len() {
                        assert(keys@[a] == old_keys[a]);
                        assert(vals@[a] == old_vals[a]);
                        assert(old_model.contains_key(old_keys[a]@));
                    }
                }
                assert forall|kk: Seq<char>| #[trigger] old_model.insert(k@, v@).contains_key(kk) implies exists|j: int|
                    0 <= j < keys@.len() && keys@[j]@ == kk by {
                    if kk != k@ {
                        assert(old_model.contains_key(kk));
                        let j = choose|j: int| 0 <= j < old_keys.len() && old_keys[j]@ == kk;
                        assert(keys@[j] == old_keys[j]);
                    } else {
                        assert(keys@[old_keys.len() as int]@ == kk);
                    }
                }
                *self = EnvMap { keys, vals, model: Ghost(old_model.insert(k@, v@)) };
            },
        }
    }

    /// Removes `k` and its value, if present.
    pub fn remove(&mut self, k: &str)
        ensures
            final(self)@ == old(self)@.remove(k@),
    {
        proof {
            use_type_invariant(&*self);
        }
        let ghost old_model = self.model@;
        let ghost old_keys = self.keys@;
        let ghost old_vals = self.vals@;
        match self.find(k) {
            Some(i) => {
                let ghost n = old_keys.len();
                let mut keys = self.keys.clone();
                let mut vals = self.vals.clone();
                assert(keys@ =~= old_keys);
                assert(vals@ =~= old_vals);
                keys.swap_remove(i);
                vals.swap_remove(i);
                let ghost model = old_model.remove(k@);
                assert forall|a: int|
                    0 <= a < keys@.len() implies #[trigger] model.contains_key(keys@[a]@)
                    && model[keys@[a]@] == vals@[a]@ by {
                    if a == i {
                        assert(keys@[a] == old_keys[n - 1]);
                        assert(vals@[a] == old_vals[n - 1]);
                        assert(old_model.contains_key(old_keys[n - 1]@));
                        assert(old_keys[n - 1]@ != old_keys[i as int]@);
                    } else {
                        assert(keys@[a] == old_keys[a]);
                        assert(vals@[a] == old_vals[a]);
                        assert(old_model.contains_key(old_keys[a]@));
                        assert(old_keys[a]@ != old_keys[i as int]@);
                    }
                }
                assert forall|a: int, b: int|
                    0 <= a < keys@.len() && 0 <= b < keys@.len() && a != b
                    implies #[trigger] keys@[a]@ != #[trigger] keys@[b]@ by {
                    let oa = if a == i { n - 1 } else { a };
                    let ob = if b == i { n - 1 } else { b };
                    assert(keys@[a] == old_keys[oa]);
                    assert(keys@[b] == old_keys[ob]);
                }
                assert forall|kk: Seq<char>| #[trigger] model.contains_key(kk) implies exists|j: int|
                    0 <= j < keys@.len() && keys@[j]@ == kk by {
                    assert(old_model.contains_key(kk));
                    let j = choose|j: int| 0 <= j < old_keys.len() && old_keys[j]@ == kk;
                    if j == n - 1 {
                        assert(keys@[i as int] == old_keys[j]);
                    } else {
                        assert(keys@[j] == old_keys[j]);
                    }
                }
                *self = EnvMap { keys, vals, model: Ghost(model) };
            },
            None => {
                assert(old_model.remove(k@) =~= old_model);
            },
        }
    }

    /// The `i`-th name, in insertion order.
    pub fn key_at(&self, i: usize) -> (r: String)
        requires
            i < self.key_seq().len(),
        ensures
            r@ == self.key_seq()[i as int],
            self@.contains_key(r@),
    {
        proof {
            use_type_invariant(self);
        }
        self.keys[i].clone()
    }

    /// The `i`-th value, in insertion order.
    pub fn value_at(&self, i: usize) -> (r: String)
        requires
            i < self.key_seq().len(),
        ensures
            r@ == self@[self.key_seq()[i as int]],
    {
        proof {
            use_type_invariant(self);
            assert(self@.contains_key(self.keys@[i as int]@));
        }
        self.vals[i].clone()
    }

    /// A copy of the map.
    pub fn duplicate(&self) -> (r: Self)
        ensures
            r@ == self@,
            r.key_seq() == self.key_seq(),
    {
        proof {
            use_type_invariant(self);
        }
        EnvMap { keys: self.keys.clone(), vals: self.vals.clone(), model: Ghost(self.model@) }
    }
}

} // verus!
