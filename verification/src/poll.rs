//! One poll: its name, its options and the votes for each option.

use vstd::prelude::*;

verus! {

/// The contents of a list of strings.
pub open spec fn texts(list: Seq<String>) -> Seq<Seq<char>> {
    list.map_values(|s: String| s@)
}

/// The sum of the counts.
pub open spec fn sum(counts: Seq<u16>) -> nat
    decreases counts.len(),
{
    if counts.len() == 0 {
        0
    } else {
        sum(counts.drop_last()) + counts.last() as nat
    }
}

/// A poll as a mathematical value.
#[verifier::ext_equal]
pub struct PollModel {
    /// The name shown to the audience.
    pub name: Seq<char>,
    /// The name of each option.
    pub options: Seq<Seq<char>>,
    /// The number of votes for each option.
    pub polls: Seq<u16>,
}

impl PollModel {
    /// A poll for which nobody has voted yet.
    pub open spec fn fresh(name: Seq<char>, options: Seq<Seq<char>>) -> PollModel {
        PollModel { name, options, polls: Seq::new(options.len(), |i: int| 0u16) }
    }

    /// There is one count for each option.
    pub open spec fn wf(self) -> bool {
        self.polls.len() == self.options.len()
    }

    /// `option` is the index of an option.
    pub open spec fn has_option(self, option: int) -> bool {
        0 <= option < self.polls.len()
    }

    /// One more vote for `option` can be counted, or would be ignored.
    pub open spec fn has_room(self, option: int) -> bool {
        self.has_option(option) ==> self.polls[option] < u16::MAX
    }

    /// The poll after a vote for `option`: that count goes up by one. A vote for
    /// something that is no option is ignored.
    pub open spec fn voted(self, option: int) -> PollModel {
        if self.has_option(option) {
            PollModel {
                polls: self.polls.update(option, (self.polls[option] + 1) as u16),
                ..self
            }
        } else {
            self
        }
    }

    /// The number of votes that have been counted.
    pub open spec fn total(self) -> nat {
        sum(self.polls)
    }
}

/// A poll.
#[derive(Debug)]
pub struct Poll {
    name: String,
    options: Vec<String>,
    polls: Vec<u16>,
}

impl View for Poll {
    type V = PollModel;

    closed spec fn view(&self) -> PollModel {
        PollModel { name: self.name@, options: texts(self.options@), polls: self.polls@ }
    }
}

impl Poll {
    /// A poll with these options and no votes.
    pub fn new(name: String, options_in: Vec<String>) -> (poll: Self)
        ensures
            poll@ == PollModel::fresh(name@, texts(options_in@)),
            poll@.wf(),
    {
        let polls: Vec<u16> = vec![0; options_in.len()];
        Poll { name, options: options_in, polls }
    }

    /// Counts a vote for the option at this index, if there is one.
    pub fn poll(&mut self, option: usize)
        requires
            old(self)@.has_room(option as int),
        ensures
            final(self)@ == old(self)@.voted(option as int),
            old(self)@.wf() ==> final(self)@.wf(),
    {
        if option < self.polls.len() {
            let count: u16 = self.polls[option];
            self.polls[option] = count + 1;
        }
    }

    /// The name shown to the audience.
    pub fn name(&self) -> (name: &String)
        ensures
            name@ == self@.name,
    {
        &self.name
    }

    /// The name of each option.
    pub fn options(&self) -> (options: &Vec<String>)
        ensures
            texts(options@) == self@.options,
    {
        &self.options
    }

    /// The number of votes for each option.
    pub fn polls(&self) -> (polls: &Vec<u16>)
        ensures
            polls@ == self@.polls,
    {
        &self.polls
    }
}

} // verus!
