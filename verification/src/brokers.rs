use vstd::prelude::*;

verus! {

/// The brokers an instrument accepts orders from, each with the secret
/// key its requests are signed with. No broker occurs twice.
pub struct BrokerDirectory {
    entries: Vec<(String, String)>,
}

impl BrokerDirectory {
    #[verifier::type_invariant]
    spec fn names_unique(self) -> bool {
        forall|i: int, j: int|
            0 <= i < self.entries@.len() && 0 <= j < self.entries@.len() && i != j
                ==> #[trigger] self.entries@[i].0@ != #[trigger] self.entries@[j].0@
    }

    spec fn holds(self, name: Seq<char>) -> bool {
        exists|i: int| 0 <= i < self.entries@.len() && #[trigger] self.entries@[i].0@ == name
    }

    spec fn index_of(self, name: Seq<char>) -> int {
        choose|i: int| 0 <= i < self.entries@.len() && #[trigger] self.entries@[i].0@ == name
    }

    /// Broker name to key.
    pub closed spec fn view(self) -> Map<Seq<char>, Seq<char>> {
        Map::new(|name: Seq<char>| self.holds(name), |name: Seq<char>| self.entries@[self.index_of(name)].1@)
    }

    /// An empty directory.
    pub fn new() -> (directory: Self)
        ensures
            directory.view() == Map::<Seq<char>, Seq<char>>::empty(),
    {
        let directory = BrokerDirectory { entries: Vec::new() };
        assert(directory.view() =~= Map::<Seq<char>, Seq<char>>::empty());
        directory
    }

    fn position(&self, name: &String) -> (found: Option<usize>)
        ensures
            match found {
                Some(i) => i < self.entries@.len() && self.entries@[i as int].0@ == name@,
                None => !self.holds(name@),
            },
    {
        let mut i: usize = 0;
        while i < self.entries.len()
            invariant
                i <= self.entries@.len(),
                forall|j: int| 0 <= j < i ==> #[trigger] self.entries@[j].0@ != name@,
            decreases self.entries@.len() - i,
        {
            if self.entries[i].0 == *name {
                return Some(i);
            }
            i = i + 1;
        }
        None
    }

    /// The key of broker `name`, if the directory holds that broker.
    pub fn key_of(&self, name: &String) -> (key: Option<&String>)
        ensures
            match key {
                Some(k) => self.view().dom().contains(name@) && self.view()[name@] == k@,
                None => !self.view().dom().contains(name@),
            },
    {
        proof {
            use_type_invariant(self);
        }
        match self.position(name) {
            Some(i) => {
                let ghost j = self.index_of(name@);
                assert(self.entries@[j].0@ == name@);
                assert(j == i);
                Some(&self.entries[i].1)
            },
            None => None,
        }
    }

    /// Records `key` as the key of broker `name`, replacing any earlier key.
    pub fn insert(&mut self, name: String, key: String)
        ensures
            final(self).view() == old(self).view().insert(name@, key@),
    {
        proof {
            use_type_invariant(&*self);
        }
        let ghost before = self.entries@;
        let ghost old_dir = *self;
        match self.position(&name) {
            Some(i) => {
                let mut entries: Vec<(String, String)> = Vec::new();
                std::mem::swap(&mut entries, &mut self.entries);
                entries.set(i, (name, key));
                self.entries = entries;
                proof {
                    let new_dir = *self;
                    assert forall|n: Seq<char>| new_dir.holds(n) <==> old_dir.holds(n) by {
                        if old_dir.holds(n) {
                            let j = old_dir.index_of(n);
                            if j == i {
                                assert(new_dir.entries@[j].0@ == n);
                            } else {
                                assert(new_dir.entries@[j].0@ == n);
                            }
                        }
                        if new_dir.holds(n) {
                            let j = new_dir.index_of(n);
                            assert(old_dir.entries@[j].0@ == n);
                        }
                    }
                    assert forall|n: Seq<char>| #[trigger] new_dir.holds(n) implies
                        new_dir.entries@[new_dir.index_of(n)].1@ == (if n == name@ { key@ } else {
                            old_dir.entries@[old_dir.index_of(n)].1@ }) by {
                        let j = new_dir.index_of(n);
                        let k = old_dir.index_of(n);
                        assert(old_dir.entries@[j].0@ == n);
                        assert(k == j);
                    }
                    assert(new_dir.view() =~= old_dir.view().insert(name@, key@));
                }
            },
            None => {
                let mut entries: Vec<(String, String)> = Vec::new();
                std::mem::swap(&mut entries, &mut self.entries);
                entries.push((name, key));
                self.entries = entries;
                proof {
                    let new_dir = *self;
                    assert(new_dir.entries@[before.len() as int].0@ == name@);
                    assert forall|n: Seq<char>| new_dir.holds(n) <==> (old_dir.holds(n) || n == name@) by {
                        if old_dir.holds(n) {
                            let j = old_dir.index_of(n);
                            assert(new_dir.entries@[j].0@ == n);
                        }
                    }
                    assert forall|n: Seq<char>| #[trigger] new_dir.holds(n) implies
                        new_dir.entries@[new_dir.index_of(n)].1@ == (if n == name@ { key@ } else {
                            old_dir.entries@[old_dir.index_of(n)].1@ }) by {
                        let j = new_dir.index_of(n);
                        if n == name@ {
                            assert(j == before.len());
                        } else {
                            let k = old_dir.index_of(n);
                            assert(old_dir.holds(n));
                            assert(new_dir.entries@[k].0@ == n);
                            assert(k == j);
                        }
                    }
                    assert(new_dir.view() =~= old_dir.view().insert(name@, key@));
                }
            },
        }
    }
}

} // verus!
