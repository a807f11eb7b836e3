//! The state of the server as a mathematical value, and what each event makes
//! of it.

use vstd::prelude::*;

use crate::json::Json;
use crate::message::BallotModel;
use crate::poll::PollModel;

verus! {

/// What became of a ballot.
#[derive(Debug, Clone, Copy, PartialEq, Eq, Structural)]
pub enum Effect {
    /// The vote was counted.
    Counted,
    /// There was no vote to count: the ballot holds none, no poll is running, or
    /// the running poll has no such option.
    Nothing,
    /// The count of the option is at its limit. Nothing was counted.
    Full,
}

/// The index that a number on a ballot stands for: the number itself, or zero
/// where it is too large for an index.
pub open spec fn option_of(n: u64) -> int {
    if n <= usize::MAX {
        n as int
    } else {
        0
    }
}

/// The connection id that is given out after `id`.
pub open spec fn id_after(id: usize) -> usize {
    if id == usize::MAX {
        0
    } else {
        (id + 1) as usize
    }
}

/// Something that many connections are told.
#[verifier::ext_equal]
pub struct Notice {
    /// What they are told.
    pub document: Json,
    /// The ids of the screens that are told.
    pub screens: Set<usize>,
    /// The ids of the voters who are told.
    pub polls: Set<usize>,
}

/// What can happen to the server.
#[verifier::reject_recursive_types(S)]
pub enum Event<S> {
    Create { id: Seq<char>, name: Seq<char>, options: Seq<Seq<char>> },
    Start { id: Seq<char> },
    Stop,
    Ballot { ballot: BallotModel },
    ScreenJoin { tx: S },
    ScreenLeave { screen: usize },
    PollJoin { tx: S },
    PollLeave { voter: usize },
}

/// The state of the server. `S` is what stands for the sending half of a
/// connection.
#[verifier::ext_equal]
#[verifier::reject_recursive_types(S)]
pub struct State<S> {
    /// The polls, each under its id.
    pub polls: Map<Seq<char>, PollModel>,
    /// The id of the poll that is running.
    pub current: Option<Seq<char>>,
    /// The connections of voters.
    pub poll_connections: Map<usize, S>,
    /// The connections of screens.
    pub screen_connections: Map<usize, S>,
    /// The id of the next voter.
    pub next_poll_id: usize,
    /// The id of the next screen.
    pub next_screen_id: usize,
}

impl<S> State<S> {
    /// No polls and no connections. The first connection of each kind gets the
    /// id 1.
    pub open spec fn initial() -> State<S> {
        State {
            polls: Map::empty(),
            current: None,
            poll_connections: Map::empty(),
            screen_connections: Map::empty(),
            next_poll_id: 1,
            next_screen_id: 1,
        }
    }

    /// A poll that is running exists, and every poll has one count for each of
    /// its options.
    pub open spec fn wf(self) -> bool {
        &&& self.current matches Some(id) ==> self.polls.contains_key(id)
        &&& forall|id: Seq<char>| #[trigger]
            self.polls.contains_key(id) ==> self.polls[id].wf()
    }

    /// The poll that is running.
    pub open spec fn running(self) -> Option<PollModel> {
        match self.current {
            Some(id) => Some(self.polls[id]),
            None => None,
        }
    }

    /// A new poll is put under `id`, in place of any poll that was there.
    pub open spec fn created(
        self,
        id: Seq<char>,
        name: Seq<char>,
        options: Seq<Seq<char>>,
    ) -> State<S> {
        State { polls: self.polls.insert(id, PollModel::fresh(name, options)), ..self }
    }

    /// The poll under `id` is the one that runs, if there is one.
    pub open spec fn started(self, id: Seq<char>) -> State<S> {
        if self.polls.contains_key(id) {
            State { current: Some(id), ..self }
        } else {
            self
        }
    }

    /// No poll is running.
    pub open spec fn stopped(self) -> State<S> {
        State { current: None, ..self }
    }

    /// A poll is running and has the option that `n` stands for.
    pub open spec fn counts(self, n: u64) -> bool {
        self.running() matches Some(poll) && poll.has_option(option_of(n))
    }

    /// If a vote for `n` is to be counted, the count is below its limit.
    pub open spec fn has_room(self, n: u64) -> bool {
        self.running() matches Some(poll) ==> poll.has_room(option_of(n))
    }

    /// The running poll has one more vote for `n`, if it has that option.
    pub open spec fn voted(self, n: u64) -> State<S> {
        match self.current {
            Some(id) => State {
                polls: self.polls.insert(id, self.polls[id].voted(option_of(n))),
                ..self
            },
            None => self,
        }
    }

    /// What becomes of a ballot.
    pub open spec fn effect(self, ballot: BallotModel) -> Effect {
        match ballot {
            BallotModel::Choice(n) => if !self.counts(n) {
                Effect::Nothing
            } else if self.has_room(n) {
                Effect::Counted
            } else {
                Effect::Full
            },
            _ => Effect::Nothing,
        }
    }

    /// The state after a ballot: a vote that is counted is the only change.
    pub open spec fn after(self, ballot: BallotModel) -> State<S> {
        match ballot {
            BallotModel::Choice(n) => if self.effect(ballot) == Effect::Counted {
                self.voted(n)
            } else {
                self
            },
            _ => self,
        }
    }

    /// A screen has connected.
    pub open spec fn screen_joined(self, tx: S) -> State<S> {
        State {
            screen_connections: self.screen_connections.insert(self.next_screen_id, tx),
            next_screen_id: id_after(self.next_screen_id),
            ..self
        }
    }

    /// The screen with this id is gone.
    pub open spec fn screen_left(self, id: usize) -> State<S> {
        State { screen_connections: self.screen_connections.remove(id), ..self }
    }

    /// A voter has connected.
    pub open spec fn poll_joined(self, tx: S) -> State<S> {
        State {
            poll_connections: self.poll_connections.insert(self.next_poll_id, tx),
            next_poll_id: id_after(self.next_poll_id),
            ..self
        }
    }

    /// The voter with this id is gone.
    pub open spec fn poll_left(self, id: usize) -> State<S> {
        State { poll_connections: self.poll_connections.remove(id), ..self }
    }

    /// What everybody is told when the poll under `id` is started: that it is
    /// running. Nobody is told anything where there is no such poll.
    pub open spec fn start_notice(self, id: Seq<char>) -> Option<Notice> {
        if self.polls.contains_key(id) {
            Some(
                Notice {
                    document: crate::message::start_document(self.polls[id]),
                    screens: self.screen_connections.dom(),
                    polls: self.poll_connections.dom(),
                },
            )
        } else {
            None
        }
    }

    /// What everybody is told when the running poll is stopped: that none is
    /// running. Nobody is told anything where none was.
    pub open spec fn stop_notice(self) -> Option<Notice> {
        match self.current {
            Some(_) => Some(
                Notice {
                    document: crate::message::stop_document(),
                    screens: self.screen_connections.dom(),
                    polls: self.poll_connections.dom(),
                },
            ),
            None => None,
        }
    }

    /// What the screens are told at a tick of the clock: the votes of the running
    /// poll, if there is one. Voters are told nothing.
    pub open spec fn tick_notice(self) -> Option<Notice> {
        match self.running() {
            Some(poll) => Some(
                Notice {
                    document: crate::message::tally_document(poll),
                    screens: self.screen_connections.dom(),
                    polls: Set::empty(),
                },
            ),
            None => None,
        }
    }

    /// What a screen is told when it connects: the running poll, if there is one.
    pub open spec fn screen_greeting(self) -> Option<Json> {
        match self.running() {
            Some(poll) => Some(crate::message::start_document(poll)),
            None => None,
        }
    }

    /// What a voter is told when it connects: the running poll, or that none is
    /// running.
    pub open spec fn poll_greeting(self) -> Json {
        match self.running() {
            Some(poll) => crate::message::start_document(poll),
            None => crate::message::stop_document(),
        }
    }

    /// The state after an event.
    pub open spec fn step(self, event: Event<S>) -> State<S> {
        match event {
            Event::Create { id, name, options } => self.created(id, name, options),
            Event::Start { id } => self.started(id),
            Event::Stop => self.stopped(),
            Event::Ballot { ballot } => self.after(ballot),
            Event::ScreenJoin { tx } => self.screen_joined(tx),
            Event::ScreenLeave { screen } => self.screen_left(screen),
            Event::PollJoin { tx } => self.poll_joined(tx),
            Event::PollLeave { voter } => self.poll_left(voter),
        }
    }

    /// The state after events, one after another.
    pub open spec fn run(self, events: Seq<Event<S>>) -> State<S>
        decreases events.len(),
    {
        if events.len() == 0 {
            self
        } else {
            self.run(events.drop_last()).step(events.last())
        }
    }

    /// The event is a vote that is counted for this option of this poll.
    pub open spec fn is_vote_for(self, event: Event<S>, id: Seq<char>, option: int) -> bool {
        &&& event matches Event::Ballot { ballot }
        &&& ballot matches BallotModel::Choice(n)
        &&& self.current == Some(id)
        &&& option_of(n) == option
        &&& self.effect(ballot) == Effect::Counted
    }

    /// How many of the events are votes that are counted for this option of
    /// this poll.
    pub open spec fn votes_for(
        self,
        events: Seq<Event<S>>,
        id: Seq<char>,
        option: int,
    ) -> nat
        decreases events.len(),
    {
        if events.len() == 0 {
            0
        } else {
            let earlier = self.votes_for(events.drop_last(), id, option);
            if self.run(events.drop_last()).is_vote_for(events.last(), id, option) {
                earlier + 1
            } else {
                earlier
            }
        }
    }
}

/// No event creates a poll under this id.
pub open spec fn keeps_poll<S>(events: Seq<Event<S>>, id: Seq<char>) -> bool {
    forall|i: int|
        0 <= i < events.len() ==> !((#[trigger] events[i]) matches Event::Create { id: other, .. }
            && other == id)
}

/// How many of the events are screens that connect.
pub open spec fn screen_joins<S>(events: Seq<Event<S>>) -> nat
    decreases events.len(),
{
    if events.len() == 0 {
        0
    } else {
        screen_joins(events.drop_last()) + if events.last() is ScreenJoin {
            1nat
        } else {
            0nat
        }
    }
}

/// How many of the events are voters who connect.
pub open spec fn poll_joins<S>(events: Seq<Event<S>>) -> nat
    decreases events.len(),
{
    if events.len() == 0 {
        0
    } else {
        poll_joins(events.drop_last()) + if events.last() is PollJoin {
            1nat
        } else {
            0nat
        }
    }
}

} // verus!
