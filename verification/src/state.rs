//! The server's state and the handling of requests, votes and connections.

use std::collections::HashMap;

use vstd::prelude::*;

use crate::message::{Ballot, BallotModel};
use crate::model::{Effect, Notice, State};
use crate::poll::Poll;
use crate::table::PollTable;

verus! {

broadcast use vstd::std_specs::hash::group_hash_axioms;

/// A request to create a poll.
#[derive(Debug)]
pub struct CreatePollData {
    /// The id under which the poll is kept.
    pub id: String,
    /// The name shown to the audience.
    pub name: String,
    /// The name of each option.
    pub options: Vec<String>,
}

/// A request to start a poll.
#[derive(Debug)]
pub struct StartPollData {
    /// The id of the poll.
    pub id: String,
}

/// One text that is to be sent to many connections.
#[derive(Debug)]
pub struct Announcement {
    /// What is sent.
    pub text: String,
    /// The ids of the screens that get it.
    pub screens: Vec<usize>,
    /// The ids of the voters that get it, after the screens.
    pub polls: Vec<usize>,
}

/// `ids` lists the members of `set`, each once.
pub open spec fn lists(ids: Seq<usize>, set: Set<usize>) -> bool {
    &&& ids.no_duplicates()
    &&& ids.to_set() == set
}

impl Announcement {
    /// The text carries the document of the notice, and goes once to each of the
    /// connections that are to get it and to no other.
    pub open spec fn conveys(self, notice: Notice) -> bool {
        &&& crate::json::carries(self.text@, notice.document)
        &&& lists(self.screens@, notice.screens)
        &&& lists(self.polls@, notice.polls)
    }
}

/// The answer to a request, and what the connections are to be told.
#[derive(Debug)]
pub struct Outcome {
    /// The answer to the request.
    pub reply: String,
    /// What is to be sent.
    pub announcement: Option<Announcement>,
}

/// A connection that has been accepted.
#[derive(Debug)]
pub struct Welcome {
    /// The id of the connection.
    pub id: usize,
    /// What it is to be told first.
    pub greeting: Option<String>,
}

/// What has arrived on a connection.
#[derive(Debug)]
pub enum Incoming {
    /// A message: its text, if it is a text message, and whether it closes the
    /// connection.
    Frame { text: Option<String>, close: bool },
    /// The connection has failed.
    Failure,
}

impl Incoming {
    /// The connection stays open.
    pub open spec fn stays(self) -> bool {
        self matches Incoming::Frame { close, .. } && !close
    }

    /// The ballot in a message. A message that is no text counts as an empty
    /// text.
    pub open spec fn ballot(self) -> Option<BallotModel> {
        match self {
            Incoming::Frame { text: Some(text), .. } => Some(
                crate::message::ballot_of(crate::json::json_parsed(text@)),
            ),
            Incoming::Frame { text: None, .. } => Some(
                crate::message::ballot_of(crate::json::json_parsed(""@)),
            ),
            Incoming::Failure => None,
        }
    }
}

/// What was made of something that arrived from a voter.
#[derive(Debug)]
pub struct Received {
    /// The ballot in it.
    pub ballot: Option<Ballot>,
    /// What became of the ballot.
    pub effect: Effect,
    /// Whether the connection stays open.
    pub stays: bool,
}

/// The state of the server. `S` stands for the sending half of a connection.
#[verifier::reject_recursive_types(S)]
pub struct AppState<S> {
    polls: PollTable,
    current: Option<String>,
    poll_connections: HashMap<usize, S>,
    screen_connections: HashMap<usize, S>,
    next_poll_id: usize,
    next_screen_id: usize,
}

impl<S> View for AppState<S> {
    type V = State<S>;

    closed spec fn view(&self) -> State<S> {
        State {
            polls: self.polls@,
            current: match self.current {
                Some(id) => Some(id@),
                None => None,
            },
            poll_connections: self.poll_connections@,
            screen_connections: self.screen_connections@,
            next_poll_id: self.next_poll_id,
            next_screen_id: self.next_screen_id,
        }
    }
}

impl<S> Default for AppState<S> {
    /// No polls and no connections.
    fn default() -> (state: Self)
        ensures
            state.wf(),
            state@ == State::<S>::initial(),
    {
        AppState {
            polls: PollTable::new(),
            current: None,
            poll_connections: HashMap::new(),
            screen_connections: HashMap::new(),
            next_poll_id: 1,
            next_screen_id: 1,
        }
    }
}

/// The ids of these connections, in some order.
fn recipients<S>(connections: &HashMap<usize, S>) -> (ids: Vec<usize>)
    ensures
        lists(ids@, connections@.dom()),
{
    let mut ids: Vec<usize> = Vec::new();
    let keys = connections.keys();
    let ghost all = vstd::std_specs::hash::into_iter_keys(keys);
    for id in it: keys
        invariant
            it.seq().unref() == all,
            ids@ == all.take(it.index()),
    {
        ids.push(*id);
    }
    assert(ids@ =~= all);
    ids
}

impl<S> AppState<S> {
    /// The state is as the handlers below leave it.
    pub closed spec fn wf(self) -> bool {
        &&& self.polls.wf()
        &&& self@.wf()
    }

    /// A poll that is running exists, and every poll has one count for each of
    /// its options.
    pub proof fn lemma_wf(self)
        requires
            self.wf(),
        ensures
            self@.wf(),
    {
    }

    /// The poll that is running.
    pub fn running(&self) -> (poll: Option<&Poll>)
        requires
            self.wf(),
        ensures
            match poll {
                Some(poll) => self@.running() == Some(poll@),
                None => self@.running() is None,
            },
    {
        match &self.current {
            Some(id) => self.polls.get(id),
            None => None,
        }
    }

    /// The poll under this id.
    pub fn find_poll(&self, id: &String) -> (poll: Option<&Poll>)
        requires
            self.wf(),
        ensures
            match poll {
                Some(poll) => self@.polls.contains_key(id@) && poll@ == self@.polls[id@],
                None => !self@.polls.contains_key(id@),
            },
    {
        self.polls.get(id)
    }

    /// The sending half of the screen with this id.
    pub fn screen_sender(&self, id: usize) -> (tx: Option<&S>)
        requires
            self.wf(),
        ensures
            match tx {
                Some(tx) => self@.screen_connections.contains_key(id) && *tx
                    == self@.screen_connections[id],
                None => !self@.screen_connections.contains_key(id),
            },
    {
        self.screen_connections.get(&id)
    }

    /// The sending half of the voter with this id.
    pub fn poll_sender(&self, id: usize) -> (tx: Option<&S>)
        requires
            self.wf(),
        ensures
            match tx {
                Some(tx) => self@.poll_connections.contains_key(id) && *tx
                    == self@.poll_connections[id],
                None => !self@.poll_connections.contains_key(id),
            },
    {
        self.poll_connections.get(&id)
    }

    /// The screens that a text for all screens goes to.
    pub fn screen_message(&self) -> (ids: Vec<usize>)
        requires
            self.wf(),
        ensures
            lists(ids@, self@.screen_connections.dom()),
    {
        recipients(&self.screen_connections)
    }

    /// The voters that a text for all voters goes to.
    pub fn poll_message(&self) -> (ids: Vec<usize>)
        requires
            self.wf(),
        ensures
            lists(ids@, self@.poll_connections.dom()),
    {
        recipients(&self.poll_connections)
    }

    /// Creates a poll, in place of any poll under the same id.
    pub fn handle_create_poll(&mut self, json: CreatePollData) -> (reply: String)
        requires
            old(self).wf(),
        ensures
            final(self).wf(),
            final(self)@ == old(self)@.created(
                json.id@,
                json.name@,
                crate::poll::texts(json.options@),
            ),
            reply@ == "请求成功"@,
    {
        self.polls.insert(json.id, Poll::new(json.name, json.options));
        "请求成功".to_owned()
    }

    /// Starts the poll under an id, if there is one, in place of any poll that
    /// is running, and tells everybody.
    pub fn handle_start_poll(&mut self, json: StartPollData) -> (outcome: Outcome)
        requires
            old(self).wf(),
        ensures
            final(self).wf(),
            final(self)@ == old(self)@.started(json.id@),
            match outcome.announcement {
                Some(announcement) => {
                    &&& old(self)@.start_notice(json.id@) matches Some(notice)
                    &&& announcement.conveys(notice)
                    &&& outcome.reply@ == announcement.text@
                },
                None => {
                    &&& old(self)@.start_notice(json.id@) is None
                    &&& outcome.reply@ == "未找到指定的Poll"@
                },
            },
    {
        match self.polls.get(&json.id) {
            Some(poll) => {
                let text = crate::message::start_message(poll);
                let announcement = Announcement {
                    text: text.clone(),
                    screens: self.screen_message(),
                    polls: self.poll_message(),
                };
                self.current = Some(json.id);
                Outcome { reply: text, announcement: Some(announcement) }
            },
            None => Outcome { reply: "未找到指定的Poll".to_owned(), announcement: None },
        }
    }

    /// Stops the poll that is running, if there is one, and tells everybody.
    pub fn handle_stop_poll(&mut self) -> (outcome: Outcome)
        requires
            old(self).wf(),
        ensures
            final(self).wf(),
            final(self)@ == old(self)@.stopped(),
            match outcome.announcement {
                Some(announcement) => {
                    &&& old(self)@.stop_notice() matches Some(notice)
                    &&& announcement.conveys(notice)
                    &&& outcome.reply@ == "投票已结束"@
                },
                None => {
                    &&& old(self)@.stop_notice() is None
                    &&& outcome.reply@ == "投票本身并未开始"@
                },
            },
    {
        match &self.current {
            Some(_) => {
                let announcement = Announcement {
                    text: crate::message::stop_message(),
                    screens: self.screen_message(),
                    polls: self.poll_message(),
                };
                self.current = None;
                Outcome { reply: "投票已结束".to_owned(), announcement: Some(announcement) }
            },
            None => Outcome { reply: "投票本身并未开始".to_owned(), announcement: None },
        }
    }

    /// One tick of the clock: while a poll is running, the screens are told its
    /// votes.
    pub fn handle_connection(&self) -> (announcement: Option<Announcement>)
        requires
            self.wf(),
        ensures
            match announcement {
                Some(announcement) => {
                    &&& self@.tick_notice() matches Some(notice)
                    &&& announcement.conveys(notice)
                },
                None => self@.tick_notice() is None,
            },
    {
        match self.running() {
            Some(poll) => {
                let polls: Vec<usize> = Vec::new();
                assert(polls@.to_set() =~= Set::<usize>::empty());
                Some(
                    Announcement {
                        text: crate::message::tally_message(poll),
                        screens: self.screen_message(),
                        polls,
                    },
                )
            },
            None => None,
        }
    }

    /// Accepts a screen, which is told of the poll that is running, if there is
    /// one.
    pub fn screen_connected(&mut self, tx: S) -> (welcome: Welcome)
        requires
            old(self).wf(),
        ensures
            final(self).wf(),
            final(self)@ == old(self)@.screen_joined(tx),
            welcome.id == old(self)@.next_screen_id,
            match welcome.greeting {
                Some(text) => {
                    &&& old(self)@.screen_greeting() matches Some(document)
                    &&& crate::json::carries(text@, document)
                },
                None => old(self)@.screen_greeting() is None,
            },
    {
        let id: usize = self.next_screen_id;
        self.next_screen_id = id.wrapping_add(1);
        let greeting = match self.running() {
            Some(poll) => Some(crate::message::start_message(poll)),
            None => None,
        };
        self.screen_connections.insert(id, tx);
        Welcome { id, greeting }
    }

    /// Forgets a screen.
    pub fn screen_disconnected(&mut self, id: usize)
        requires
            old(self).wf(),
        ensures
            final(self).wf(),
            final(self)@ == old(self)@.screen_left(id),
    {
        self.screen_connections.remove(&id);
    }

    /// Accepts a voter, who is told of the poll that is running, or that none
    /// is.
    pub fn poll_connected(&mut self, tx: S) -> (welcome: Welcome)
        requires
            old(self).wf(),
        ensures
            final(self).wf(),
            final(self)@ == old(self)@.poll_joined(tx),
            welcome.id == old(self)@.next_poll_id,
            welcome.greeting matches Some(text) && crate::json::carries(
                text@,
                old(self)@.poll_greeting(),
            ),
    {
        let id: usize = self.next_poll_id;
        self.next_poll_id = id.wrapping_add(1);
        let greeting = match self.running() {
            Some(poll) => crate::message::start_message(poll),
            None => crate::message::stop_message(),
        };
        self.poll_connections.insert(id, tx);
        Welcome { id, greeting: Some(greeting) }
    }

    /// Forgets a voter.
    pub fn poll_disconnected(&mut self, id: usize)
        requires
            old(self).wf(),
        ensures
            final(self).wf(),
            final(self)@ == old(self)@.poll_left(id),
    {
        self.poll_connections.remove(&id);
    }

    /// Counts a vote for the option that a number stands for, if a poll is
    /// running and has that option. Says whether it was counted.
    pub fn vote(&mut self, poll_int: u64) -> (counted: bool)
        requires
            old(self).wf(),
            old(self)@.has_room(poll_int),
        ensures
            final(self).wf(),
            final(self)@ == old(self)@.voted(poll_int),
            counted == old(self)@.counts(poll_int),
    {
        let option: usize = index_of(poll_int);
        match &self.current {
            Some(id) => {
                let counted = match self.polls.get(id) {
                    Some(poll) => option < poll.polls().len(),
                    None => false,
                };
                self.polls.vote(id, option);
                counted
            },
            None => false,
        }
    }
}

impl<S> AppState<S> {
    /// Counts the vote on a ballot, if there is one to count and its count is
    /// below the limit.
    pub fn apply_ballot(&mut self, ballot: &Ballot) -> (effect: Effect)
        requires
            old(self).wf(),
        ensures
            final(self).wf(),
            final(self)@ == old(self)@.after(ballot@),
            effect == old(self)@.effect(ballot@),
    {
        match ballot {
            Ballot::Choice(n) => {
                let option: usize = index_of(*n);
                match self.running() {
                    Some(poll) => if option < poll.polls().len() {
                        if poll.polls()[option] < u16::MAX {
                            self.vote(*n);
                            Effect::Counted
                        } else {
                            Effect::Full
                        }
                    } else {
                        Effect::Nothing
                    },
                    None => Effect::Nothing,
                }
            },
            _ => Effect::Nothing,
        }
    }

    /// Handles what arrives from a voter: the vote in it is counted, and the
    /// connection ends where it closes or fails.
    pub fn poll_received(&mut self, incoming: &Incoming) -> (received: Received)
        requires
            old(self).wf(),
        ensures
            final(self).wf(),
            received.stays == incoming.stays(),
            match received.ballot {
                Some(ballot) => {
                    &&& incoming.ballot() == Some(ballot@)
                    &&& received.effect == old(self)@.effect(ballot@)
                    &&& final(self)@ == old(self)@.after(ballot@)
                },
                None => {
                    &&& incoming.ballot() is None
                    &&& received.effect == Effect::Nothing
                    &&& final(self)@ == old(self)@
                },
            },
    {
        match incoming {
            Incoming::Frame { text, close } => {
                let ballot = match text {
                    Some(text) => crate::message::read_ballot(text.as_str()),
                    None => crate::message::read_ballot(""),
                };
                let effect = self.apply_ballot(&ballot);
                Received { ballot: Some(ballot), effect, stays: !*close }
            },
            Incoming::Failure => Received {
                ballot: None,
                effect: Effect::Nothing,
                stays: false,
            },
        }
    }
}

/// Handles what arrives from a screen: the connection ends where it closes or
/// fails, and anything else is ignored.
pub fn screen_received(incoming: &Incoming) -> (stays: bool)
    ensures
        stays == incoming.stays(),
{
    match incoming {
        Incoming::Frame { close, .. } => !*close,
        Incoming::Failure => false,
    }
}

/// The index that a number on a ballot stands for.
fn index_of(n: u64) -> (option: usize)
    ensures
        option as int == crate::model::option_of(n),
{
    if n <= usize::MAX as u64 {
        n as usize
    } else {
        0
    }
}

} // verus!
