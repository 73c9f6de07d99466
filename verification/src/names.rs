//! A map from names to values.

use vstd::prelude::*;
use vstd::string::*;

verus! {

/// A map from names to values, such as the fields of a tuple or the functions of a contract.
#[derive(Debug)]
pub struct NameMap<V> {
    entries: Vec<(String, V)>,
}

impl<V> View for NameMap<V> {
    type V = Map<Seq<char>, V>;

    closed spec fn view(&self) -> Map<Seq<char>, V> {
        Map::new(
            |name: Seq<char>| exists|i: int| self.holds(name, i),
            |name: Seq<char>| self.entries@[choose|i: int| self.holds(name, i)].1,
        )
    }
}

impl<V> NameMap<V> {
    /// Entry `i` is the one of `name`.
    spec fn holds(&self, name: Seq<char>, i: int) -> bool {
        0 <= i < self.entries@.len() && self.entries@[i].0@ == name
    }

    /// No name has two entries.
    #[verifier::type_invariant]
    spec fn distinct(self) -> bool {
        forall|i: int, j: int|
            0 <= i < j < self.entries@.len() ==> #[trigger] self.entries@[i].0@
                != #[trigger] self.entries@[j].0@
    }

    /// The empty map.
    pub fn new() -> (map: NameMap<V>)
        ensures
            map@ == Map::<Seq<char>, V>::empty(),
    {
        let map = NameMap { entries: Vec::new() };
        assert(map@ =~= Map::<Seq<char>, V>::empty());
        map
    }

    /// The index of the entry of `name`, or the number of entries.
    fn position(&self, name: &str) -> (at: usize)
        ensures
            at <= self.entries@.len(),
            at < self.entries@.len() ==> self.holds(name@, at as int),
            at == self.entries@.len() ==> forall|i: int| !self.holds(name@, i),
    {
        let wanted = String::from_str(name);
        let mut at: usize = 0;
        while at < self.entries.len()
            invariant
                at <= self.entries@.len(),
                wanted@ == name@,
                forall|i: int| 0 <= i < at ==> !self.holds(name@, i),
            decreases self.entries@.len() - at,
        {
            if self.entries[at].0.eq(&wanted) {
                return at;
            }
            at = at + 1;
        }
        at
    }

    /// The value of `name`.
    pub fn get(&self, name: &str) -> (value: Option<&V>)
        ensures
            match value {
                Some(v) => self@.contains_key(name@) && *v == self@[name@],
                None => !self@.contains_key(name@),
            },
    {
        let at = self.position(name);
        if at < self.entries.len() {
            proof {
                use_type_invariant(self);
                assert(self.holds(name@, at as int));
                let i = choose|i: int| self.holds(name@, i);
                assert(self.holds(name@, i));
                assert(self.entries@[i].0@ == self.entries@[at as int].0@);
            }
            Some(&self.entries[at].1)
        } else {
            None
        }
    }

    /// Gives `name` the value `value`, in place of one that it had.
    pub fn insert(&mut self, name: String, value: V)
        ensures
            final(self)@ == old(self)@.insert(name@, value),
    {
        let at = self.position(name.as_str());
        let ghost before = *self;
        let ghost key = name@;
        proof {
            use_type_invariant(&*self);
        }
        let mut entries: Vec<(String, V)> = Vec::new();
        std::mem::swap(&mut entries, &mut self.entries);
        if at < entries.len() {
            entries.set(at, (name, value));
        } else {
            entries.push((name, value));
        }
        proof {
            assert forall|i: int, j: int| 0 <= i < j < entries@.len() implies #[trigger] entries@[i].0@
                != #[trigger] entries@[j].0@ by {
                if i == at {
                    assert(before.holds(key, i));
                    assert(before.entries@[i].0@ == key);
                } else if j == at {
                    assert(!before.holds(key, i) || before.holds(key, j));
                }
            }
        }
        self.entries = entries;
        proof {
            let after = *self;
            assert(after.holds(key, at as int));
            assert forall|other: Seq<char>| other != key implies #[trigger] after@.contains_key(other)
                == before@.contains_key(other) && (before@.contains_key(other) ==> after@[other]
                == before@[other]) by {
                assert forall|i: int| after.holds(other, i) == before.holds(other, i) by {
                    if i == at {
                        assert(!after.holds(other, i));
                    }
                }
                if before@.contains_key(other) {
                    let i = choose|i: int| before.holds(other, i);
                    let j = choose|j: int| after.holds(other, j);
                    assert(before.holds(other, i) && after.holds(other, i));
                    assert(after.holds(other, j));
                    assert(after.entries@[i].0@ == after.entries@[j].0@);
                }
            }
            let i = choose|i: int| after.holds(key, i);
            assert(after.holds(key, i));
            assert(after.entries@[i].0@ == after.entries@[at as int].0@);
            assert(after@[key] == value);
            assert(after@.dom() =~= before@.insert(key, value).dom());
            assert(after@ =~= before@.insert(key, value));
        }
    }
}

} // verus!
