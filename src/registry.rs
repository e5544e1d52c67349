use vstd::prelude::*;

verus! {

/// Instances of one capability kind, each under a unique name.
pub struct Registry<T> {
    entries: Vec<(String, T)>,
    named: Ghost<Map<Seq<char>, T>>,
}

impl<T> Registry<T> {
    /// The instance under each name.
    pub closed spec fn view(&self) -> Map<Seq<char>, T> {
        self.named@
    }

    /// Names are unique, and the map agrees with the entries.
    pub closed spec fn well_formed(&self) -> bool {
        &&& forall|i: int, j: int|
            0 <= i < j < self.entries@.len() ==> self.entries@[i].0@ != self.entries@[j].0@
        &&& forall|i: int|
            0 <= i < self.entries@.len() ==> {
                &&& self.named@.contains_key(#[trigger] self.entries@[i].0@)
                &&& self.named@[self.entries@[i].0@] == self.entries@[i].1
            }
        &&& forall|k: Seq<char>| #[trigger]
            self.named@.contains_key(k) ==> exists|i: int|
                0 <= i < self.entries@.len() && self.entries@[i].0@ == k
    }

    pub fn new() -> (r: Registry<T>)
        ensures
            r.well_formed(),
            r.view() == Map::<Seq<char>, T>::empty(),
    {
        Registry { entries: Vec::new(), named: Ghost(Map::empty()) }
    }

    /// Number of names declared.
    pub fn len(&self) -> (r: usize)
        requires
            self.well_formed(),
        ensures
            r == self.view().len(),
    {
        proof {
            self.lemma_domain_size();
        }
        self.entries.len()
    }

    proof fn lemma_domain_size(&self)
        requires
            self.well_formed(),
        ensures
            self.view().dom().finite(),
            self.view().len() == self.entries@.len(),
    {
        let keys = Seq::new(self.entries@.len(), |i: int| self.entries@[i].0@);
        assert(keys.no_duplicates());
        assert(keys.to_set() =~= self.view().dom()) by {
            assert forall|k| self.view().dom().contains(k) implies keys.to_set().contains(k) by {
                let i = choose|i: int| 0 <= i < self.entries@.len() && self.entries@[i].0@ == k;
                assert(keys[i] == k);
            }
            assert forall|k| keys.to_set().contains(k) implies self.view().dom().contains(k) by {
                let i = choose|i: int| 0 <= i < keys.len() && keys[i] == k;
                assert(self.named@.contains_key(self.entries@[i].0@));
            }
        }
        keys.unique_seq_to_set();
    }

    /// Where `name` is held in `entries`.
    fn position(&self, name: &str) -> (r: Option<usize>)
        requires
            self.well_formed(),
        ensures
            r matches Some(i) ==> i < self.entries@.len() && self.entries@[i as int].0@ == name@,
            r is Some <==> self.view().contains_key(name@),
    {
        let key = name.to_owned();
        let mut i: usize = 0;
        while i < self.entries.len()
            invariant
                i <= self.entries@.len(),
                key@ == name@,
                self.well_formed(),
                forall|j: int| 0 <= j < i ==> #[trigger] self.entries@[j].0@ != name@,
            decreases self.entries@.len() - i,
        {
            if self.entries[i].0 == key {
                proof {
                    assert(self.named@.contains_key(self.entries@[i as int].0@));
                }
                return Some(i);
            }
            i = i + 1;
        }
        None
    }

    /// The instance under `name`, if one is declared.
    pub fn get(&self, name: &str) -> (r: Option<&T>)
        requires
            self.well_formed(),
        ensures
            r is Some <==> self.view().contains_key(name@),
            r matches Some(v) ==> *v == self.view()[name@],
    {
        match self.position(name) {
            Some(i) => Some(&self.entries[i].1),
            None => None,
        }
    }

    /// Declares `value` under `name`, replacing what was there.
    pub fn insert(&mut self, name: &str, value: T)
        requires
            old(self).well_formed(),
        ensures
            final(self).well_formed(),
            final(self).view() == old(self).view().insert(name@, value),
    {
        let ghost v = value;
        let key = name.to_owned();
        let ghost mut at: int = old(self).entries@.len() as int;
        match self.position(name) {
            Some(i) => {
                proof {
                    at = i as int;
                }
                self.entries.set(i, (key, value));
            },
            None => {
                self.entries.push((key, value));
            },
        }
        self.named = Ghost(self.named@.insert(name@, v));
        proof {
            assert forall|k: Seq<char>| #[trigger]
                self.named@.contains_key(k) implies exists|i: int|
                0 <= i < self.entries@.len() && self.entries@[i].0@ == k by {
                if k != name@ {
                    let i = choose|i: int|
                        0 <= i < old(self).entries@.len() && old(self).entries@[i].0@ == k;
                    assert(self.entries@[i].0@ == k);
                } else {
                    assert(self.entries@[at].0@ == k);
                }
            }
        }
    }
}

} // verus!
