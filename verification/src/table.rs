//! The polls of the server, each under its id.

use vstd::prelude::*;

use crate::poll::{Poll, PollModel};

verus! {

/// A map from ids to polls.
///
/// The poll under `ids[i]` is `polls[i]`, and no id occurs twice.
#[derive(Debug)]
pub struct PollTable {
    ids: Vec<String>,
    polls: Vec<Poll>,
}

impl View for PollTable {
    type V = Map<Seq<char>, PollModel>;

    closed spec fn view(&self) -> Map<Seq<char>, PollModel> {
        Map::new(
            |id: Seq<char>| self.keys().contains(id),
            |id: Seq<char>| self.polls@[self.keys().index_of(id)]@,
        )
    }
}

impl PollTable {
    spec fn keys(self) -> Seq<Seq<char>> {
        crate::poll::texts(self.ids@)
    }

    /// Every poll has its id, and no id occurs twice.
    pub closed spec fn wf(self) -> bool {
        &&& self.ids@.len() == self.polls@.len()
        &&& self.keys().no_duplicates()
    }

    /// The poll at an index is the one under the id at that index.
    proof fn lemma_entry(self, i: int)
        requires
            self.wf(),
            0 <= i < self.ids@.len(),
        ensures
            self@.contains_key(self.ids@[i]@),
            self@[self.ids@[i]@] == self.polls@[i]@,
    {
        assert(self.keys().contains(self.keys()[i]));
    }

    /// A table without polls.
    pub fn new() -> (table: Self)
        ensures
            table.wf(),
            table@ == Map::<Seq<char>, PollModel>::empty(),
    {
        PollTable { ids: Vec::new(), polls: Vec::new() }
    }

    /// The index of an id.
    fn find(&self, id: &String) -> (found: Option<usize>)
        requires
            self.wf(),
        ensures
            match found {
                Some(i) => i < self.ids@.len() && self.ids@[i as int]@ == id@,
                None => !self@.contains_key(id@),
            },
    {
        for i in 0..self.ids.len()
            invariant
                forall|j: int| 0 <= j < i ==> self.ids@[j]@ != id@,
        {
            if self.ids[i] == *id {
                return Some(i);
            }
        }
        assert(forall|j: int| 0 <= j < self.keys().len() ==> self.keys()[j] != id@);
        None
    }

    /// Whether there is a poll under this id.
    pub fn contains_key(&self, id: &String) -> (contained: bool)
        requires
            self.wf(),
        ensures
            contained == self@.contains_key(id@),
    {
        match self.find(id) {
            Some(i) => {
                proof {
                    self.lemma_entry(i as int);
                }
                true
            },
            None => false,
        }
    }

    /// The poll under this id.
    pub fn get(&self, id: &String) -> (poll: Option<&Poll>)
        requires
            self.wf(),
        ensures
            match poll {
                Some(poll) => self@.contains_key(id@) && poll@ == self@[id@],
                None => !self@.contains_key(id@),
            },
    {
        match self.find(id) {
            Some(i) => {
                proof {
                    self.lemma_entry(i as int);
                }
                Some(&self.polls[i])
            },
            None => None,
        }
    }

    /// Puts a poll under an id, in place of the one that was there.
    pub fn insert(&mut self, id: String, poll: Poll)
        requires
            old(self).wf(),
        ensures
            final(self).wf(),
            final(self)@ == old(self)@.insert(id@, poll@),
    {
        match self.find(&id) {
            Some(i) => {
                self.polls[i] = poll;
                proof {
                    self.lemma_updated(*old(self), i as int);
                }
            },
            None => {
                self.ids.push(id);
                self.polls.push(poll);
                proof {
                    assert(self.ids@.drop_last() =~= old(self).ids@);
                    assert(self.polls@.drop_last() =~= old(self).polls@);
                    self.lemma_added(*old(self), id@);
                }
            },
        }
    }

    /// Counts a vote for an option of the poll under this id.
    pub fn vote(&mut self, id: &String, option: usize)
        requires
            old(self).wf(),
            old(self)@.contains_key(id@),
            old(self)@[id@].has_room(option as int),
        ensures
            final(self).wf(),
            final(self)@ == old(self)@.insert(id@, old(self)@[id@].voted(option as int)),
    {
        match self.find(id) {
            Some(i) => {
                proof {
                    self.lemma_entry(i as int);
                }
                self.polls[i].poll(option);
                proof {
                    self.lemma_updated(*old(self), i as int);
                }
            },
            None => {},
        }
    }

    /// Another poll at one index is another poll under the id at that index.
    proof fn lemma_updated(self, before: PollTable, i: int)
        requires
            before.wf(),
            0 <= i < before.ids@.len(),
            self.ids@ == before.ids@,
            self.polls@.len() == before.polls@.len(),
            forall|j: int|
                0 <= j < before.polls@.len() && j != i ==> (#[trigger] self.polls@[j])@
                    == before.polls@[j]@,
        ensures
            self.wf(),
            self@ == before@.insert(before.ids@[i]@, self.polls@[i]@),
    {
        let id = before.ids@[i]@;
        let expected = before@.insert(id, self.polls@[i]@);
        assert forall|k: Seq<char>| self@.dom().contains(k) == expected.dom().contains(k) by {
            before.lemma_entry(i);
        }
        assert forall|k: Seq<char>| #[trigger] self@.dom().contains(k) implies self@[k]
            == expected[k] by {
            let j = self.keys().index_of(k);
            assert(self.keys()[i] == id);
            self.lemma_entry(j);
            before.lemma_entry(j);
        }
    }

    /// A new last entry is a poll under a new id.
    proof fn lemma_added(self, before: PollTable, id: Seq<char>)
        requires
            before.wf(),
            !before@.contains_key(id),
            self.ids@.len() == before.ids@.len() + 1,
            self.ids@.drop_last() == before.ids@,
            self.ids@.last()@ == id,
            self.polls@.len() == before.polls@.len() + 1,
            self.polls@.drop_last() == before.polls@,
        ensures
            self.wf(),
            self@ == before@.insert(id, self.polls@.last()@),
    {
        let n = before.ids@.len() as int;
        let expected = before@.insert(id, self.polls@.last()@);
        assert(forall|j: int| 0 <= j < n ==> self.keys()[j] == #[trigger] before.keys()[j]);
        assert forall|j: int| 0 <= j < n implies #[trigger] self.keys()[j] != id by {
            assert(before.keys().contains(before.keys()[j]));
        }
        assert(self.keys().no_duplicates()) by {
            assert forall|a: int, b: int| 0 <= a < n && 0 <= b < n && a != b implies self.keys()[a]
                != self.keys()[b] by {
                assert(before.keys()[a] != before.keys()[b]);
            }
        }
        assert forall|k: Seq<char>| #[trigger] self@.dom().contains(k) implies expected.dom().contains(
            k,
        ) && self@[k] == expected[k] by {
            let j = self.keys().index_of(k);
            self.lemma_entry(j);
            if j < n {
                before.lemma_entry(j);
            }
        }
        assert forall|k: Seq<char>| #[trigger] expected.dom().contains(k) implies self@.dom().contains(
            k,
        ) by {
            if k == id {
                self.lemma_entry(n);
            } else {
                let j = before.keys().index_of(k);
                self.lemma_entry(j);
            }
        }
    }
}

} // verus!
