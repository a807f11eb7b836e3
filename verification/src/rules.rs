//! The rules of the server, said outright.
//!
//! Each law here takes one operation and says what comes of it for every input,
//! in terms of the parts of the state, of documents and of what arrives and is
//! sent: which count, which field, which ids.

use vstd::prelude::*;

use crate::json::Json;
use crate::message::{Ballot, BallotModel};
use crate::model::{Effect, Event, Notice, State};
use crate::poll::PollModel;
use crate::state::{Announcement, AppState, Incoming};

verus! {

// Votes.

/// While a poll is running, a vote for one of its options adds one to the count
/// at that option's own place. Every other count stays, and so does everything
/// else.
pub proof fn law_vote_goes_to_the_chosen_option<S>(state: State<S>, id: Seq<char>, n: u64)
    requires
        state.current == Some(id),
        state.polls.contains_key(id),
        state.polls[id].polls.len() <= usize::MAX,
        n < state.polls[id].polls.len(),
        state.polls[id].polls[n as int] < u16::MAX,
    ensures
        ({
            let next = state.after(BallotModel::Choice(n));
            let before = state.polls[id];
            let now = next.polls[id];
            &&& state.effect(BallotModel::Choice(n)) == Effect::Counted
            &&& now.polls.len() == before.polls.len()
            &&& now.polls[n as int] == before.polls[n as int] + 1
            &&& forall|i: int|
                0 <= i < before.polls.len() && i != n ==> #[trigger] now.polls[i]
                    == before.polls[i]
            &&& now.name == before.name
            &&& now.options == before.options
            &&& next.polls.dom() == state.polls.dom()
            &&& forall|other: Seq<char>|
                other != id && state.polls.contains_key(other) ==> #[trigger] next.polls[other]
                    == state.polls[other]
            &&& next.current == state.current
            &&& next.poll_connections == state.poll_connections
            &&& next.screen_connections == state.screen_connections
            &&& next.next_poll_id == state.next_poll_id
            &&& next.next_screen_id == state.next_screen_id
        }),
{
    assert(state.after(BallotModel::Choice(n)).polls.dom() =~= state.polls.dom());
}

/// Two votes for options of the running poll that have room are both counted:
/// each at its own place, and both at one place where they are for the same
/// option.
pub proof fn law_two_votes_are_both_counted<S>(state: State<S>, id: Seq<char>, n: u64, m: u64)
    requires
        state.current == Some(id),
        state.polls.contains_key(id),
        state.polls[id].polls.len() <= usize::MAX,
        n < state.polls[id].polls.len(),
        m < state.polls[id].polls.len(),
        state.polls[id].polls[n as int] + 1 < u16::MAX,
        state.polls[id].polls[m as int] + 1 < u16::MAX,
    ensures
        ({
            let before = state.polls[id].polls;
            let now = state.after(BallotModel::Choice(n)).after(
                BallotModel::Choice(m),
            ).polls[id].polls;
            &&& now.len() == before.len()
            &&& forall|i: int|
                0 <= i < before.len() ==> #[trigger] now[i] == before[i] + (if i == n {
                    1int
                } else {
                    0int
                }) + (if i == m {
                    1int
                } else {
                    0int
                })
        }),
{
    law_vote_goes_to_the_chosen_option(state, id, n);
    law_vote_goes_to_the_chosen_option(state.after(BallotModel::Choice(n)), id, m);
}

/// A number that fits an index and is no option of the running poll is no vote.
pub proof fn law_vote_for_no_option_is_ignored<S>(state: State<S>, id: Seq<char>, n: u64)
    requires
        state.current == Some(id),
        n <= usize::MAX,
        n >= state.polls[id].polls.len(),
    ensures
        state.effect(BallotModel::Choice(n)) == Effect::Nothing,
        state.after(BallotModel::Choice(n)) == state,
{
}

/// A number that fits no index is taken for zero.
pub proof fn law_vote_beyond_every_index_is_for_the_first<S>(state: State<S>, n: u64)
    requires
        n > usize::MAX,
    ensures
        state.effect(BallotModel::Choice(n)) == state.effect(BallotModel::Choice(0)),
        state.after(BallotModel::Choice(n)) == state.after(BallotModel::Choice(0)),
        state.counts(n) == state.counts(0),
        state.has_room(n) == state.has_room(0),
        state.voted(n) == state.voted(0),
{
}

/// A vote for an option whose count is 65535 is reported and not counted.
pub proof fn law_vote_for_a_full_option_is_reported<S>(state: State<S>, id: Seq<char>, n: u64)
    requires
        state.current == Some(id),
        n <= usize::MAX,
        n < state.polls[id].polls.len(),
        state.polls[id].polls[n as int] == 65535,
    ensures
        state.effect(BallotModel::Choice(n)) == Effect::Full,
        state.after(BallotModel::Choice(n)) == state,
{
}

/// Where no poll is running, and where there is no vote on the ballot, nothing
/// happens.
pub proof fn law_no_vote_no_effect<S>(state: State<S>, ballot: BallotModel)
    requires
        state.current is None || !(ballot is Choice),
    ensures
        state.effect(ballot) == Effect::Nothing,
        state.after(ballot) == state,
{
}

/// When a vote has to be counted, and when it can be, in terms of the counts of
/// the running poll. A vote that can be counted is counted as a ballot is.
pub proof fn law_vote_is_a_ballot<S>(state: State<S>, n: u64)
    requires
        n <= usize::MAX,
    ensures
        state.counts(n) <==> {
            &&& state.current matches Some(id)
            &&& n < state.polls[id].polls.len()
        },
        !state.has_room(n) <==> {
            &&& state.current matches Some(id)
            &&& n < state.polls[id].polls.len()
            &&& state.polls[id].polls[n as int] == 65535
        },
        state.wf() && state.has_room(n) ==> state.voted(n) == state.after(BallotModel::Choice(n)),
{
    if let Some(id) = state.current {
        if state.wf() && n >= state.polls[id].polls.len() {
            assert(state.voted(n).polls =~= state.polls);
        }
    }
}

/// The same of a poll by itself: a vote adds one to the count at its place and to
/// no other, and a vote for no option changes nothing. There is no room only
/// where the count is 65535.
pub proof fn law_poll_counts_at_the_place_of_the_option(poll: PollModel, option: int)
    ensures
        !poll.has_room(option) <==> 0 <= option < poll.polls.len() && poll.polls[option] == 65535,
        !(0 <= option < poll.polls.len()) ==> poll.voted(option) == poll,
        0 <= option < poll.polls.len() && poll.polls[option] < 65535 ==> {
            let now = poll.voted(option);
            &&& now.name == poll.name
            &&& now.options == poll.options
            &&& now.polls.len() == poll.polls.len()
            &&& now.polls[option] == poll.polls[option] + 1
            &&& forall|i: int|
                0 <= i < poll.polls.len() && i != option ==> #[trigger] now.polls[i]
                    == poll.polls[i]
        },
{
}

// What a voter sends.

/// A message is a vote for `n` exactly where it is a text that is an object whose
/// field `poll` is the integer `n`. Whether it also closes the connection makes
/// no difference.
pub proof fn law_message_is_a_vote_for_its_number(text: String, close: bool, n: u64)
    ensures
        (Incoming::Frame { text: Some(text), close }).ballot() == Some(BallotModel::Choice(n)) <==> {
            &&& crate::json::json_parsed(text@) matches Ok(Json::Object(fields))
            &&& fields.contains_key("poll"@)
            &&& fields["poll"@] == Json::Unsigned(n)
        },
{
}

/// What is on the ballot in a message: a vote, something else in the field
/// `poll`, no such field, or no document at all.
pub proof fn law_ballot_in_a_message(text: String, close: bool)
    ensures
        ({
            let ballot = (Incoming::Frame { text: Some(text), close }).ballot();
            match crate::json::json_parsed(text@) {
                Err(message) => ballot == Some(BallotModel::Malformed(message)),
                Ok(Json::Object(fields)) => if !fields.contains_key("poll"@) {
                    ballot == Some(BallotModel::NoPollField)
                } else if fields["poll"@] is Unsigned {
                    ballot == Some(BallotModel::Choice(fields["poll"@]->Unsigned_0))
                } else {
                    ballot == Some(BallotModel::NotAnInteger)
                },
                Ok(_) => ballot == Some(BallotModel::NoPollField),
            }
        }),
{
}

/// A message that is no text is read as the empty text, and a failed connection
/// brings no ballot. A connection stays open exactly where a message arrives that
/// does not close it.
pub proof fn law_other_arrivals(empty: String, text: Option<String>, close: bool)
    requires
        empty@ == Seq::<char>::empty(),
    ensures
        (Incoming::Frame { text: None, close }).ballot() == (Incoming::Frame {
            text: Some(empty),
            close,
        }).ballot(),
        Incoming::Failure.ballot() is None,
        (Incoming::Frame { text, close }).stays() == !close,
        !Incoming::Failure.stays(),
{
    reveal_strlit("");
    assert(""@ =~= Seq::<char>::empty());
}

/// What a ballot holds is what it shows.
pub proof fn law_ballot_shows_what_it_holds(ballot: Ballot)
    ensures
        match ballot {
            Ballot::Malformed(message) => ballot@ == BallotModel::Malformed(message@),
            Ballot::NoPollField => ballot@ is NoPollField,
            Ballot::NotAnInteger => ballot@ is NotAnInteger,
            Ballot::Choice(n) => ballot@ == BallotModel::Choice(n),
        },
{
}

/// The ballot in what was read in a text.
pub proof fn law_ballot_in_a_document(read: Result<serde_json::Value, String>)
    ensures
        ({
            let ballot = crate::message::ballot_of(crate::json::read_of(read));
            match read {
                Err(message) => ballot == BallotModel::Malformed(message@),
                Ok(value) => match crate::json::json_of(value) {
                    Json::Object(fields) => if !fields.contains_key("poll"@) {
                        ballot is NoPollField
                    } else if fields["poll"@] is Unsigned {
                        ballot == BallotModel::Choice(fields["poll"@]->Unsigned_0)
                    } else {
                        ballot is NotAnInteger
                    },
                    _ => ballot is NoPollField,
                },
            }
        }),
{
}

// Documents.

/// The document that gives the votes has two fields: `status`, which is 0, and
/// `data`, in which the number at each place is the count at that place.
pub proof fn law_tally_document_lists_the_counts(poll: PollModel)
    ensures
        ({
            &&& crate::message::tally_document(poll) matches Json::Object(fields)
            &&& fields.dom() == set!["status"@, "data"@]
            &&& fields["status"@] == Json::Unsigned(0)
            &&& fields["data"@] matches Json::Array(items)
            &&& items.len() == poll.polls.len()
            &&& forall|i: int|
                0 <= i < poll.polls.len() ==> #[trigger] items[i] == Json::Unsigned(
                    poll.polls[i] as u64,
                )
        }),
{
    crate::laws::lemma_field_names();
    let document = crate::message::tally_document(poll);
    assert(document->Object_0.dom() =~= set!["status"@, "data"@]);
}

/// The document that says that a poll is running has three fields: `status`,
/// which is 1, `title`, which is the name, and `options`, in which the text at
/// each place is the name of the option at that place.
pub proof fn law_start_document_lists_the_options(poll: PollModel)
    ensures
        ({
            &&& crate::message::start_document(poll) matches Json::Object(fields)
            &&& fields.dom() == set!["status"@, "title"@, "options"@]
            &&& fields["status"@] == Json::Unsigned(1)
            &&& fields["title"@] == Json::Text(poll.name)
            &&& fields["options"@] matches Json::Array(items)
            &&& items.len() == poll.options.len()
            &&& forall|i: int|
                0 <= i < poll.options.len() ==> #[trigger] items[i] == Json::Text(poll.options[i])
        }),
{
    crate::laws::lemma_field_names();
    let document = crate::message::start_document(poll);
    assert(document->Object_0.dom() =~= set!["status"@, "title"@, "options"@]);
}

/// The document that says that no poll is running has one field: `status`, which
/// is 2.
pub proof fn law_stop_document_is_a_status()
    ensures
        ({
            &&& crate::message::stop_document() matches Json::Object(fields)
            &&& fields.dom() == set!["status"@]
            &&& fields["status"@] == Json::Unsigned(2)
        }),
{
    let document = crate::message::stop_document();
    assert(document->Object_0.dom() =~= set!["status"@]);
}

/// A field is there in an object that has it under that name, and nowhere else. A
/// document is an integer from zero up where it is that variant, and no other.
pub proof fn law_fields_and_integers(document: Json, key: Seq<char>, value: Json, n: u64)
    ensures
        document.field(key) == Some(value) <==> {
            &&& document matches Json::Object(fields)
            &&& fields.contains_key(key)
            &&& fields[key] == value
        },
        document.unsigned() == Some(n) <==> document == Json::Unsigned(n),
{
}

/// A text that carries a document is the one that is written for it, and reading
/// it gives that document.
pub proof fn law_text_of_a_document(text: Seq<char>, document: Json)
    ensures
        crate::json::carries(text, document) <==> {
            &&& text == crate::json::json_text(document)
            &&& crate::json::json_parsed(text) matches Ok(read)
            &&& read == document
        },
{
}

// Who is told what.

/// An announcement conveys a notice where its text carries the document and each
/// id that is to be told is listed once, with no other.
pub proof fn law_announcement_reaches_exactly_these(announcement: Announcement, notice: Notice)
    ensures
        announcement.conveys(notice) <==> {
            &&& announcement.text@ == crate::json::json_text(notice.document)
            &&& crate::json::json_parsed(announcement.text@) matches Ok(read)
            &&& read == notice.document
            &&& forall|i: int, j: int|
                0 <= i < j < announcement.screens@.len() ==> announcement.screens@[i]
                    != announcement.screens@[j]
            &&& forall|i: int, j: int|
                0 <= i < j < announcement.polls@.len() ==> announcement.polls@[i]
                    != announcement.polls@[j]
            &&& forall|id: usize| #[trigger]
                announcement.screens@.contains(id) <==> notice.screens.contains(id)
            &&& forall|id: usize| #[trigger]
                announcement.polls@.contains(id) <==> notice.polls.contains(id)
        },
{
    lemma_lists(announcement.screens@, notice.screens);
    lemma_lists(announcement.polls@, notice.polls);
}

/// Ids list a set where none occurs twice and each member, and nothing else,
/// occurs.
pub proof fn law_recipients_are_exactly_these(ids: Seq<usize>, set: Set<usize>)
    ensures
        crate::state::lists(ids, set) <==> {
            &&& forall|i: int, j: int| 0 <= i < j < ids.len() ==> ids[i] != ids[j]
            &&& forall|id: usize| #[trigger] ids.contains(id) <==> set.contains(id)
        },
{
    lemma_lists(ids, set);
}

/// What listing a set comes to.
proof fn lemma_lists(ids: Seq<usize>, set: Set<usize>)
    ensures
        crate::state::lists(ids, set) <==> {
            &&& forall|i: int, j: int| 0 <= i < j < ids.len() ==> ids[i] != ids[j]
            &&& forall|id: usize| #[trigger] ids.contains(id) <==> set.contains(id)
        },
{
    if crate::state::lists(ids, set) {
        assert forall|id: usize| #[trigger] ids.contains(id) <==> set.contains(id) by {
            assert(ids.to_set().contains(id) == ids.contains(id));
        }
    }
    if (forall|i: int, j: int| 0 <= i < j < ids.len() ==> ids[i] != ids[j]) && (forall|id: usize|
     #[trigger] ids.contains(id) <==> set.contains(id)) {
        assert forall|id: usize| ids.to_set().contains(id) == set.contains(id) by {
            assert(ids.contains(id) <==> set.contains(id));
        }
        assert(ids.to_set() =~= set);
    }
}

/// Whether or not a poll is running, starting a poll that exists tells all
/// connected screens and all connected voters, and nobody else, its name and its
/// options. Starting a poll that does not exist tells nobody anything.
pub proof fn law_start_tells_every_connection<S>(state: State<S>, id: Seq<char>)
    ensures
        !state.polls.contains_key(id) ==> state.start_notice(id) is None,
        state.polls.contains_key(id) ==> {
            &&& state.start_notice(id) matches Some(notice)
            &&& notice.document == crate::message::start_document(state.polls[id])
            &&& forall|screen: usize| #[trigger]
                notice.screens.contains(screen) <==> state.screen_connections.contains_key(screen)
            &&& forall|voter: usize| #[trigger]
                notice.polls.contains(voter) <==> state.poll_connections.contains_key(voter)
            &&& notice.document matches Json::Object(fields)
            &&& fields["status"@] == Json::Unsigned(1)
            &&& fields["title"@] == Json::Text(state.polls[id].name)
        },
{
    if state.polls.contains_key(id) {
        law_start_document_lists_the_options(state.polls[id]);
    }
}

/// Stopping the running poll, whatever its votes, tells all connected screens and
/// all connected voters, and nobody else, that the status is 2 and nothing more.
/// Where none is running, nobody is told anything.
pub proof fn law_stop_tells_every_connection<S>(state: State<S>)
    ensures
        state.current is None ==> state.stop_notice() is None,
        state.current is Some ==> {
            &&& state.stop_notice() matches Some(notice)
            &&& notice.document matches Json::Object(fields)
            &&& fields.dom() == set!["status"@]
            &&& fields["status"@] == Json::Unsigned(2)
            &&& forall|screen: usize| #[trigger]
                notice.screens.contains(screen) <==> state.screen_connections.contains_key(screen)
            &&& forall|voter: usize| #[trigger]
                notice.polls.contains(voter) <==> state.poll_connections.contains_key(voter)
        },
{
    law_stop_document_is_a_status();
}

/// At a tick while a poll is running, all connected screens and no voters are
/// told its counts, each at its place. At other ticks nobody is told anything.
pub proof fn law_tick_tells_every_screen_the_counts<S>(state: State<S>)
    ensures
        match state.current {
            None => state.tick_notice() is None,
            Some(id) => {
                &&& state.tick_notice() matches Some(notice)
                &&& forall|screen: usize| #[trigger]
                    notice.screens.contains(screen) <==> state.screen_connections.contains_key(
                        screen,
                    )
                &&& forall|voter: usize| !(#[trigger] notice.polls.contains(voter))
                &&& notice.document matches Json::Object(fields)
                &&& fields.dom() == set!["status"@, "data"@]
                &&& fields["status"@] == Json::Unsigned(0)
                &&& fields["data"@] matches Json::Array(items)
                &&& items.len() == state.polls[id].polls.len()
                &&& forall|i: int|
                    0 <= i < items.len() ==> #[trigger] items[i] == Json::Unsigned(
                        state.polls[id].polls[i] as u64,
                    )
            },
        },
{
    if let Some(id) = state.current {
        law_tally_document_lists_the_counts(state.polls[id]);
    }
}

/// A screen that connects while a poll is running is told the status 1, its name
/// and its options, each at its place. Otherwise it is told nothing.
pub proof fn law_screen_is_greeted_with_the_running_poll<S>(state: State<S>)
    ensures
        match state.current {
            None => state.screen_greeting() is None,
            Some(id) => {
                &&& state.screen_greeting() matches Some(Json::Object(fields))
                &&& fields.dom() == set!["status"@, "title"@, "options"@]
                &&& fields["status"@] == Json::Unsigned(1)
                &&& fields["title"@] == Json::Text(state.polls[id].name)
                &&& fields["options"@] matches Json::Array(items)
                &&& items.len() == state.polls[id].options.len()
                &&& forall|i: int|
                    0 <= i < items.len() ==> #[trigger] items[i] == Json::Text(
                        state.polls[id].options[i],
                    )
            },
        },
{
    if let Some(id) = state.current {
        law_start_document_lists_the_options(state.polls[id]);
    }
}

/// A voter who connects while a poll is running is told the status 1, its name and
/// its options, each at its place. Otherwise the voter is told the status 2 and
/// nothing more.
pub proof fn law_voter_is_greeted_with_the_running_poll<S>(state: State<S>)
    ensures
        match state.current {
            None => {
                &&& state.poll_greeting() matches Json::Object(fields)
                &&& fields.dom() == set!["status"@]
                &&& fields["status"@] == Json::Unsigned(2)
            },
            Some(id) => {
                &&& state.poll_greeting() matches Json::Object(fields)
                &&& fields.dom() == set!["status"@, "title"@, "options"@]
                &&& fields["status"@] == Json::Unsigned(1)
                &&& fields["title"@] == Json::Text(state.polls[id].name)
                &&& fields["options"@] matches Json::Array(items)
                &&& items.len() == state.polls[id].options.len()
                &&& forall|i: int|
                    0 <= i < items.len() ==> #[trigger] items[i] == Json::Text(
                        state.polls[id].options[i],
                    )
            },
        },
{
    law_stop_document_is_a_status();
    if let Some(id) = state.current {
        law_start_document_lists_the_options(state.polls[id]);
    }
}

/// What a voter is shown, what a voter sends and what the screens show go
/// together: a vote for the place at which an option is shown adds one to the
/// number that the screens show at that place, and to no other.
pub proof fn law_vote_shows_at_the_place_of_its_option<S>(state: State<S>, id: Seq<char>, n: u64)
    requires
        state.wf(),
        state.current == Some(id),
        state.polls[id].options.len() <= usize::MAX,
        n < state.polls[id].options.len(),
        state.polls[id].polls[n as int] < u16::MAX,
    ensures
        ({
            let next = state.after(BallotModel::Choice(n));
            &&& state.poll_greeting() matches Json::Object(shown)
            &&& shown["options"@] matches Json::Array(names)
            &&& state.tick_notice() matches Some(earlier)
            &&& earlier.document matches Json::Object(earlier_fields)
            &&& earlier_fields["data"@] matches Json::Array(counts)
            &&& next.tick_notice() matches Some(later)
            &&& later.document matches Json::Object(later_fields)
            &&& later_fields["data"@] matches Json::Array(new_counts)
            &&& names.len() == counts.len() == new_counts.len()
            &&& names[n as int] == Json::Text(state.polls[id].options[n as int])
            &&& counts[n as int] matches Json::Unsigned(votes)
            &&& new_counts[n as int] == Json::Unsigned((votes + 1) as u64)
            &&& forall|i: int|
                0 <= i < counts.len() && i != n ==> #[trigger] new_counts[i] == counts[i]
        }),
{
    let next = state.after(BallotModel::Choice(n));
    law_vote_goes_to_the_chosen_option(state, id, n);
    law_voter_is_greeted_with_the_running_poll(state);
    law_tick_tells_every_screen_the_counts(state);
    law_tick_tells_every_screen_the_counts(next);
}

// Polls and connections.

/// At first there are no polls and no connections, and the first id of each kind
/// is 1.
pub proof fn law_nothing_at_first<S>()
    ensures
        ({
            let state = State::<S>::initial();
            &&& forall|id: Seq<char>| !(#[trigger] state.polls.contains_key(id))
            &&& state.current is None
            &&& forall|id: usize| !(#[trigger] state.poll_connections.contains_key(id))
            &&& forall|id: usize| !(#[trigger] state.screen_connections.contains_key(id))
            &&& state.next_poll_id == 1
            &&& state.next_screen_id == 1
        }),
{
}

/// The list of the contents of strings has each at its place.
pub proof fn law_texts_keep_their_places(list: Seq<String>)
    ensures
        crate::poll::texts(list).len() == list.len(),
        forall|i: int| 0 <= i < list.len() ==> #[trigger] crate::poll::texts(list)[i] == list[i]@,
{
}

/// Creating a poll puts it under its id with the name and the options given, in
/// their order, and no votes. Nothing else changes.
pub proof fn law_create_puts_the_poll_under_its_id<S>(
    state: State<S>,
    id: Seq<char>,
    name: Seq<char>,
    options: Seq<Seq<char>>,
)
    ensures
        ({
            let next = state.created(id, name, options);
            &&& forall|other: Seq<char>| #[trigger]
                next.polls.contains_key(other) <==> other == id || state.polls.contains_key(other)
            &&& forall|other: Seq<char>|
                other != id && state.polls.contains_key(other) ==> #[trigger] next.polls[other]
                    == state.polls[other]
            &&& next.polls[id].name == name
            &&& next.polls[id].options == options
            &&& next.polls[id].polls.len() == options.len()
            &&& forall|i: int| 0 <= i < options.len() ==> #[trigger] next.polls[id].polls[i] == 0
            &&& next.current == state.current
            &&& next.poll_connections == state.poll_connections
            &&& next.screen_connections == state.screen_connections
            &&& next.next_poll_id == state.next_poll_id
            &&& next.next_screen_id == state.next_screen_id
        }),
{
}

/// A new poll by itself.
pub proof fn law_new_poll_has_no_votes(name: Seq<char>, options: Seq<Seq<char>>)
    ensures
        PollModel::fresh(name, options).name == name,
        PollModel::fresh(name, options).options == options,
        PollModel::fresh(name, options).polls.len() == options.len(),
        forall|i: int|
            0 <= i < options.len() ==> #[trigger] PollModel::fresh(name, options).polls[i] == 0,
{
}

/// Starting and stopping change which poll is running, and nothing else.
pub proof fn law_start_and_stop_set_the_running_poll<S>(state: State<S>, id: Seq<char>)
    ensures
        !state.polls.contains_key(id) ==> state.started(id) == state,
        state.polls.contains_key(id) ==> {
            let next = state.started(id);
            &&& next.current == Some(id)
            &&& next.polls == state.polls
            &&& next.poll_connections == state.poll_connections
            &&& next.screen_connections == state.screen_connections
            &&& next.next_poll_id == state.next_poll_id
            &&& next.next_screen_id == state.next_screen_id
        },
        ({
            let next = state.stopped();
            &&& next.current is None
            &&& next.polls == state.polls
            &&& next.poll_connections == state.poll_connections
            &&& next.screen_connections == state.screen_connections
            &&& next.next_poll_id == state.next_poll_id
            &&& next.next_screen_id == state.next_screen_id
        }),
{
}

/// The running poll is the one under the current id.
pub proof fn law_running_poll_is_the_current_one<S>(state: State<S>)
    ensures
        match state.current {
            Some(id) => state.running() == Some(state.polls[id]),
            None => state.running() is None,
        },
{
}

/// A screen that connects is kept under the next screen id, which goes up by one
/// and starts again from 0 after the last. Nothing else changes.
pub proof fn law_screen_is_kept_under_the_next_id<S>(state: State<S>, tx: S)
    ensures
        ({
            let next = state.screen_joined(tx);
            &&& forall|id: usize| #[trigger]
                next.screen_connections.contains_key(id) <==> id == state.next_screen_id
                    || state.screen_connections.contains_key(id)
            &&& next.screen_connections[state.next_screen_id] == tx
            &&& forall|id: usize|
                id != state.next_screen_id && state.screen_connections.contains_key(id)
                    ==> #[trigger] next.screen_connections[id] == state.screen_connections[id]
            &&& state.next_screen_id < usize::MAX ==> next.next_screen_id == state.next_screen_id
                + 1
            &&& state.next_screen_id == usize::MAX ==> next.next_screen_id == 0
            &&& next.next_poll_id == state.next_poll_id
            &&& next.poll_connections == state.poll_connections
            &&& next.polls == state.polls
            &&& next.current == state.current
        }),
{
}

/// A voter who connects is kept under the next voter id, which goes up by one and
/// starts again from 0 after the last. Nothing else changes.
pub proof fn law_voter_is_kept_under_the_next_id<S>(state: State<S>, tx: S)
    ensures
        ({
            let next = state.poll_joined(tx);
            &&& forall|id: usize| #[trigger]
                next.poll_connections.contains_key(id) <==> id == state.next_poll_id
                    || state.poll_connections.contains_key(id)
            &&& next.poll_connections[state.next_poll_id] == tx
            &&& forall|id: usize|
                id != state.next_poll_id && state.poll_connections.contains_key(id)
                    ==> #[trigger] next.poll_connections[id] == state.poll_connections[id]
            &&& state.next_poll_id < usize::MAX ==> next.next_poll_id == state.next_poll_id + 1
            &&& state.next_poll_id == usize::MAX ==> next.next_poll_id == 0
            &&& next.next_screen_id == state.next_screen_id
            &&& next.screen_connections == state.screen_connections
            &&& next.polls == state.polls
            &&& next.current == state.current
        }),
{
}

/// A connection that leaves takes its own entry with it. Every other connection
/// keeps its entry, and nothing else changes.
pub proof fn law_leaving_removes_the_entry<S>(state: State<S>, id: usize)
    ensures
        ({
            let next = state.screen_left(id);
            &&& forall|other: usize| #[trigger]
                next.screen_connections.contains_key(other) <==> other != id
                    && state.screen_connections.contains_key(other)
            &&& forall|other: usize|
                other != id && state.screen_connections.contains_key(other)
                    ==> #[trigger] next.screen_connections[other]
                    == state.screen_connections[other]
            &&& next.poll_connections == state.poll_connections
            &&& next.polls == state.polls
            &&& next.current == state.current
            &&& next.next_poll_id == state.next_poll_id
            &&& next.next_screen_id == state.next_screen_id
        }),
        ({
            let next = state.poll_left(id);
            &&& forall|other: usize| #[trigger]
                next.poll_connections.contains_key(other) <==> other != id
                    && state.poll_connections.contains_key(other)
            &&& forall|other: usize|
                other != id && state.poll_connections.contains_key(other)
                    ==> #[trigger] next.poll_connections[other] == state.poll_connections[other]
            &&& next.screen_connections == state.screen_connections
            &&& next.polls == state.polls
            &&& next.current == state.current
            &&& next.next_poll_id == state.next_poll_id
            &&& next.next_screen_id == state.next_screen_id
        }),
{
}

/// A state is well-formed where a poll that is running exists and every poll has
/// one count for each option. The state of the server always is.
pub proof fn law_well_formed_states<S>(state: State<S>, app: AppState<S>)
    ensures
        state.wf() <==> {
            &&& state.current matches Some(id) ==> state.polls.contains_key(id)
            &&& forall|id: Seq<char>| #[trigger]
                state.polls.contains_key(id) ==> state.polls[id].polls.len()
                    == state.polls[id].options.len()
        },
        app.wf() ==> app@.wf(),
{
    if app.wf() {
        app.lemma_wf();
    }
}

// Events in a row.

/// Each event does what its operation does, and events happen one after another.
pub proof fn law_events_happen_in_order<S>(state: State<S>, events: Seq<Event<S>>, event: Event<S>)
    ensures
        state.run(Seq::empty()) == state,
        state.run(events.push(event)) == state.run(events).step(event),
        match event {
            Event::Create { id, name, options } => state.step(event) == state.created(
                id,
                name,
                options,
            ),
            Event::Start { id } => state.step(event) == state.started(id),
            Event::Stop => state.step(event) == state.stopped(),
            Event::Ballot { ballot } => state.step(event) == state.after(ballot),
            Event::ScreenJoin { tx } => state.step(event) == state.screen_joined(tx),
            Event::ScreenLeave { screen } => state.step(event) == state.screen_left(screen),
            Event::PollJoin { tx } => state.step(event) == state.poll_joined(tx),
            Event::PollLeave { voter } => state.step(event) == state.poll_left(voter),
        },
{
    assert(events.push(event).drop_last() =~= events);
}

/// The votes for an option among events are the ballots with its number that
/// arrive while its poll is running and its count is below 65535. A number that
/// fits no index is taken for zero.
pub proof fn law_votes_among_events<S>(
    state: State<S>,
    events: Seq<Event<S>>,
    event: Event<S>,
    id: Seq<char>,
    option: u64,
)
    requires
        state.run(events).polls[id].polls.len() <= usize::MAX,
        option < state.run(events).polls[id].polls.len(),
    ensures
        state.votes_for(Seq::empty(), id, option as int) == 0,
        state.votes_for(events.push(event), id, option as int) == state.votes_for(
            events,
            id,
            option as int,
        ) + if {
            &&& event matches Event::Ballot { ballot: BallotModel::Choice(n) }
            &&& n == option || option == 0 && n > usize::MAX
            &&& state.run(events).current == Some(id)
            &&& state.run(events).polls[id].polls[option as int] < 65535
        } {
            1int
        } else {
            0int
        },
{
    assert(events.push(event).drop_last() =~= events);
}

} // verus!
