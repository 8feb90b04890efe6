//! A map keyed by name. Names are compared character by character; the map
//! holds each name at most once.
//!
//! A `HashMap<String, V>` would serve at run time. To the verifier a hash map
//! means a `Map` only where the key type is known to hash by its value, which
//! vstd states of the integer types and not of `String`: nothing could be
//! proved of a lookup. So the names and their values are held in two vectors
//! of equal length, under the invariant that no name occurs twice.

use vstd::prelude::*;
use crate::value::names_view;

verus! {

/// A finite map from names to values.
pub struct NameMap<V> {
    names: Vec<String>,
    values: Vec<V>,
}

impl<V> View for NameMap<V> {
    type V = Map<Seq<char>, V>;

    closed spec fn view(&self) -> Map<Seq<char>, V> {
        Map::new(
            |name: Seq<char>| self.holds(name),
            |name: Seq<char>| self.values@[self.slot(name)],
        )
    }
}

impl<V> NameMap<V> {
    #[verifier::type_invariant]
    spec fn well_formed(&self) -> bool {
        &&& self.names@.len() == self.values@.len()
        &&& forall|i: int, j: int|
            0 <= i < j < self.names@.len() ==> self.names@[i]@ != self.names@[j]@
    }

    spec fn holds(&self, name: Seq<char>) -> bool {
        exists|i: int| 0 <= i < self.names@.len() && self.names@[i]@ == name
    }

    spec fn slot(&self, name: Seq<char>) -> int {
        choose|i: int| 0 <= i < self.names@.len() && self.names@[i]@ == name
    }

    /// The names held, each once, in the order in which `keys` lists them.
    pub closed spec fn spec_keys(&self) -> Seq<Seq<char>> {
        names_view(self.names@)
    }

    /// The listed names are exactly the map's domain, none twice.
    proof fn lemma_keys(&self)
        requires
            self.well_formed(),
        ensures
            self.spec_keys().no_duplicates(),
            self.spec_keys().to_set() =~= self@.dom(),
    {
        let keys = self.spec_keys();
        assert forall|name: Seq<char>| keys.to_set().contains(name) == self@.dom().contains(
            name,
        ) by {
            if keys.to_set().contains(name) {
                let i = choose|i: int| 0 <= i < keys.len() && keys[i] == name;
                assert(self.names@[i]@ == name);
            }
            if self@.dom().contains(name) {
                let i = self.slot(name);
                assert(keys[i] == name);
            }
        }
    }

    /// The position of `name`, or the number of names where it is not held.
    fn find(&self, name: &String) -> (at: usize)
        ensures
            at <= self.names@.len(),
            at < self.names@.len() ==> self.names@[at as int]@ == name@,
            at == self.names@.len() ==> !self.holds(name@),
    {
        let mut i: usize = 0;
        while i < self.names.len()
            invariant
                i <= self.names@.len(),
                forall|k: int| 0 <= k < i ==> self.names@[k]@ != name@,
            decreases self.names@.len() - i,
        {
            if self.names[i] == *name {
                return i;
            }
            i += 1;
        }
        i
    }

    /// An empty map.
    pub fn new() -> (map: Self)
        ensures
            map@ == Map::<Seq<char>, V>::empty(),
    {
        let map = NameMap { names: Vec::new(), values: Vec::new() };
        assert(map@ =~= Map::<Seq<char>, V>::empty());
        map
    }

    /// The value held under `name`, if any.
    pub fn get(&self, name: &String) -> (found: Option<&V>)
        ensures
            match found {
                Some(value) => self@.contains_key(name@) && *value == self@[name@],
                None => !self@.contains_key(name@),
            },
    {
        proof {
            use_type_invariant(self);
        }
        let at = self.find(name);
        if at < self.names.len() {
            proof {
                let chosen = self.slot(name@);
                assert(chosen == at);
            }
            Some(&self.values[at])
        } else {
            None
        }
    }

    /// Whether a value is held under `name`.
    pub fn contains_key(&self, name: &String) -> (held: bool)
        ensures
            held == self@.contains_key(name@),
    {
        self.get(name).is_some()
    }

    /// Puts `value` under `name` and hands back what was held there before.
    pub fn insert(&mut self, name: String, value: V) -> (previous: Option<V>)
        ensures
            final(self)@ == old(self)@.insert(name@, value),
            previous == if old(self)@.contains_key(name@) {
                Some(old(self)@[name@])
            } else {
                None
            },
    {
        proof {
            use_type_invariant(&*self);
        }
        let at = self.find(&name);
        let ghost before = *self;
        let mut taken = NameMap { names: Vec::new(), values: Vec::new() };
        std::mem::swap(self, &mut taken);
        let NameMap { names, values } = taken;
        let mut names = names;
        let mut values = values;
        if at < names.len() {
            values.push(value);
            let displaced = values.swap_remove(at);
            assert(values@ =~= before.values@.update(at as int, value));
            *self = NameMap { names, values };
            proof {
                assert(before.slot(name@) == at);
                assert forall|other: Seq<char>| #[trigger] self.holds(other) implies self.slot(
                    other,
                ) == before.slot(other) by {}
                assert(self@ =~= before@.insert(name@, value));
            }
            Some(displaced)
        } else {
            names.push(name);
            values.push(value);
            *self = NameMap { names, values };
            proof {
                let count = before.names@.len() as int;
                assert(self.names@[count]@ == name@);
                assert forall|other: Seq<char>| #[trigger] self.holds(other) == (before.holds(
                    other,
                ) || other == name@) by {
                    if before.holds(other) {
                        let i = before.slot(other);
                        assert(self.names@[i]@ == other);
                    }
                    if other == name@ {
                        assert(self.names@[count]@ == other);
                    }
                }
                assert forall|other: Seq<char>| #[trigger]
                    before.holds(other) implies self.slot(other) == before.slot(other) by {
                    let i = before.slot(other);
                    assert(self.names@[i]@ == other);
                    let j = self.slot(other);
                    assert(j != count);
                }
                assert(self.holds(name@));
                assert(self.slot(name@) == count);
                assert(self@ =~= before@.insert(name@, value));
            }
            None
        }
    }

    /// The names held, each once.
    pub fn keys(&self) -> (names: Vec<String>)
        ensures
            names_view(names@) == self.spec_keys(),
            self.spec_keys().no_duplicates(),
            self.spec_keys().to_set() == self@.dom(),
    {
        proof {
            use_type_invariant(self);
            self.lemma_keys();
        }
        let mut names: Vec<String> = Vec::new();
        let mut i: usize = 0;
        while i < self.names.len()
            invariant
                i <= self.names@.len(),
                names@ == self.names@.subrange(0, i as int),
            decreases self.names@.len() - i,
        {
            names.push(self.names[i].clone());
            assert(names@ =~= self.names@.subrange(0, i + 1));
            i += 1;
        }
        assert(self.names@.subrange(0, self.names@.len() as int) =~= self.names@);
        names
    }

    /// The number of names held.
    pub fn len(&self) -> (count: usize)
        ensures
            count == self@.dom().len(),
            count == self.spec_keys().len(),
            self@.dom().finite(),
    {
        proof {
            use_type_invariant(self);
            self.lemma_keys();
            self.spec_keys().unique_seq_to_set();
            vstd::seq_lib::seq_to_set_is_finite(self.spec_keys());
        }
        self.names.len()
    }
}

} // verus!
