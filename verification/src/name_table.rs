use vstd::prelude::*;

verus! {

/// A table from names to values, kept in the order in which the names were
/// first inserted. No name occurs twice.
#[derive(Debug, Clone)]
pub struct NameTable<T> {
    entries: Vec<(String, T)>,
}

impl<T> View for NameTable<T> {
    type V = Map<Seq<char>, T>;

    /// What the table holds under each of its names.
    closed spec fn view(&self) -> Map<Seq<char>, T> {
        Map::new(
            |name: Seq<char>| self.names().contains(name),
            |name: Seq<char>| self.entries@[self.names().index_of(name)].1,
        )
    }
}

impl<T> NameTable<T> {
    /// The names, in the order in which the table lists them.
    pub closed spec fn names(&self) -> Seq<Seq<char>> {
        self.entries@.map_values(|entry: (String, T)| entry.0@)
    }

    /// No name occurs twice.
    pub open spec fn well_formed(&self) -> bool {
        self.names().no_duplicates()
    }

    /// Every table lists exactly the names that its view is defined on.
    pub proof fn lemma_names(&self)
        ensures
            self.names().to_set() == self@.dom(),
            forall|name: Seq<char>|
                #![trigger self.names().contains(name)]
                #![trigger self@.contains_key(name)]
                self.names().contains(name) <==> self@.contains_key(name),
    {
        assert(self.names().to_set() =~= self@.dom());
    }

    /// In a well-formed table the value of an entry is the one under its name.
    proof fn lemma_entry(&self, i: int)
        requires
            self.well_formed(),
            0 <= i < self.entries@.len(),
        ensures
            self.names().len() == self.entries@.len(),
            self.names()[i] == self.entries@[i].0@,
            self.names().contains(self.entries@[i].0@),
            self.names().index_of(self.entries@[i].0@) == i,
            self@.contains_key(self.entries@[i].0@),
            self@[self.entries@[i].0@] == self.entries@[i].1,
    {
        let name = self.entries@[i].0@;
        assert(self.names()[i] == name);
        let j = self.names().index_of(name);
        assert(self.names()[j] == name);
    }

    /// An empty table.
    pub fn new() -> (table: Self)
        ensures
            table.well_formed(),
            table.names() == Seq::<Seq<char>>::empty(),
            table@ == Map::<Seq<char>, T>::empty(),
    {
        let table = NameTable { entries: Vec::new() };
        assert(table.names() =~= Seq::<Seq<char>>::empty());
        assert(table@ =~= Map::<Seq<char>, T>::empty());
        table
    }

    /// How many names the table lists.
    pub fn len(&self) -> (n: usize)
        ensures
            n == self.names().len(),
    {
        self.entries.len()
    }

    /// The position of `name`, or the number of entries if it is not there.
    fn position(&self, name: &str) -> (i: usize)
        requires
            self.well_formed(),
        ensures
            i <= self.entries@.len(),
            i < self.entries@.len() <==> self@.contains_key(name@),
            i < self.entries@.len() ==> self.names()[i as int] == name@,
            i < self.entries@.len() ==> self@[name@] == self.entries@[i as int].1,
    {
        let wanted: String = name.to_owned();
        let mut i: usize = 0;
        while i < self.entries.len()
            invariant
                self.well_formed(),
                wanted@ == name@,
                i <= self.entries@.len(),
                forall|j: int| 0 <= j < i ==> self.names()[j] != name@,
            decreases self.entries@.len() - i,
        {
            if self.entries[i].0 == wanted {
                proof {
                    self.lemma_entry(i as int);
                }
                return i;
            }
            i += 1;
        }
        assert(!self.names().contains(name@));
        i
    }

    /// The name and the value at position `i`.
    pub fn entry(&self, i: usize) -> (entry: (&String, &T))
        requires
            self.well_formed(),
            i < self.names().len(),
        ensures
            entry.0@ == self.names()[i as int],
            self@.contains_key(entry.0@),
            *entry.1 == self@[entry.0@],
    {
        proof {
            self.lemma_entry(i as int);
        }
        (&self.entries[i].0, &self.entries[i].1)
    }

    /// All names with their values, in the order in which the table lists them.
    pub fn into_entries(self) -> (entries: Vec<(String, T)>)
        requires
            self.well_formed(),
        ensures
            entries@.len() == self.names().len(),
            forall|i: int|
                #![trigger entries@[i]]
                0 <= i < entries@.len() ==> entries@[i].0@ == self.names()[i]
                    && self@.contains_key(entries@[i].0@) && entries@[i].1
                    == self@[entries@[i].0@],
    {
        proof {
            assert forall|i: int| #![trigger self.entries@[i]] 0 <= i < self.entries@.len() implies {
                &&& self.entries@[i].0@ == self.names()[i]
                &&& self@.contains_key(self.entries@[i].0@)
                &&& self.entries@[i].1 == self@[self.entries@[i].0@]
            } by {
                self.lemma_entry(i);
            }
        }
        self.entries
    }

    /// Puts `value` under `name`. A value that was there before is dropped, and
    /// the name then keeps its place; a new name goes to the end.
    pub fn insert(&mut self, name: String, value: T)
        requires
            old(self).well_formed(),
        ensures
            final(self).well_formed(),
            final(self)@ == old(self)@.insert(name@, value),
            final(self).names() == (if old(self)@.contains_key(name@) {
                old(self).names()
            } else {
                old(self).names().push(name@)
            }),
    {
        if let Some(slot) = self.get_mut(name.as_str()) {
            *slot = value;
            return ;
        }
        let ghost before = *self;
        self.entries.push((name, value));
        proof {
            before.lemma_names();
            assert(self.names() =~= before.names().push(name@));
            assert(self.names().no_duplicates());
            assert(self@ =~= before@.insert(name@, value)) by {
                let last = self.entries@.len() - 1;
                self.lemma_entry(last);
                assert forall|other: Seq<char>| #[trigger]
                    self.names().contains(other) <==> before.names().contains(other) || other
                    == name@ by {
                    if before.names().contains(other) {
                        let j = before.names().index_of(other);
                        assert(self.names()[j] == other);
                    }
                    assert(self.names()[last] == name@);
                }
                assert forall|other: Seq<char>| before@.contains_key(other) implies self@[other]
                    == before@[other] by {
                    let j = before.names().index_of(other);
                    assert(before.names()[j] == other);
                    before.lemma_entry(j);
                    self.lemma_entry(j);
                }
            }
        }
    }

    /// What the table holds under `name`.
    pub fn get(&self, name: &str) -> (value: Option<&T>)
        requires
            self.well_formed(),
        ensures
            value == (if self@.contains_key(name@) {
                Some(&self@[name@])
            } else {
                None
            }),
    {
        let i: usize = self.position(name);
        if i < self.entries.len() {
            Some(&self.entries[i].1)
        } else {
            None
        }
    }

    /// A reference through which the value under `name` can be changed.
    pub fn get_mut(&mut self, name: &str) -> (value: Option<&mut T>)
        requires
            old(self).well_formed(),
        ensures
            final(self).well_formed(),
            final(self).names() == old(self).names(),
            match value {
                Some(slot) => {
                    &&& old(self)@.contains_key(name@)
                    &&& *slot == old(self)@[name@]
                    &&& final(self)@ == old(self)@.insert(name@, *final(slot))
                },
                None => !old(self)@.contains_key(name@) && final(self)@ == old(self)@,
            },
    {
        let i: usize = self.position(name);
        if i < self.entries.len() {
            let slot = &mut self.entries[i].1;
            proof {
                let before = *old(self);
                let after = *after_borrow(self);
                assert(after.names() =~= before.names());
                assert(after@ =~= before@.insert(name@, *final(slot))) by {
                    assert forall|other: Seq<char>|
                        before@.contains_key(other) && other != name@ implies after@[other]
                        == before@[other] by {
                        let j = before.names().index_of(other);
                        assert(before.names()[j] == other);
                        before.lemma_entry(j);
                        after.lemma_entry(j);
                    }
                    before.lemma_entry(i as int);
                    after.lemma_entry(i as int);
                }
            }
            Some(slot)
        } else {
            None
        }
    }
}

} // verus!
