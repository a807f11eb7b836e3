//! What holds of the server as a whole.

use vstd::prelude::*;

use crate::json::Json;
use crate::message::BallotModel;
use crate::model::{Effect, Event, Notice, State};
use crate::poll::PollModel;

verus! {

/// Every event keeps the state well-formed.
pub proof fn law_step_well_formed<S>(state: State<S>, event: Event<S>)
    requires
        state.wf(),
    ensures
        state.step(event).wf(),
{
}

/// In whatever order things happen, the poll that is running exists, and every
/// poll has one count for each of its options.
pub proof fn law_always_well_formed<S>(events: Seq<Event<S>>)
    ensures
        State::<S>::initial().run(events).wf(),
    decreases events.len(),
{
    if events.len() > 0 {
        law_always_well_formed(events.drop_last());
        law_step_well_formed(State::<S>::initial().run(events.drop_last()), events.last());
    }
}

/// The count of an option is the count it had plus the number of votes that
/// were counted for it since, whatever else happened, unless the poll was
/// created anew.
pub proof fn law_count_is_number_of_votes<S>(
    state: State<S>,
    events: Seq<Event<S>>,
    id: Seq<char>,
    option: int,
)
    requires
        state.wf(),
        state.polls.contains_key(id),
        state.polls[id].has_option(option),
        crate::model::keeps_poll(events, id),
    ensures
        state.run(events).polls.contains_key(id),
        state.run(events).polls[id].has_option(option),
        state.run(events).polls[id].polls[option] == state.polls[id].polls[option]
            + state.votes_for(events, id, option),
    decreases events.len(),
{
    if events.len() > 0 {
        let before = events.drop_last();
        assert(crate::model::keeps_poll(before, id)) by {
            assert(forall|i: int| 0 <= i < before.len() ==> before[i] == events[i]);
        }
        law_count_is_number_of_votes(state, before, id, option);
    }
}

/// A poll keeps its name and its options, whatever happens, until it is created
/// anew.
pub proof fn law_poll_keeps_name_and_options<S>(
    state: State<S>,
    events: Seq<Event<S>>,
    id: Seq<char>,
)
    requires
        state.polls.contains_key(id),
        crate::model::keeps_poll(events, id),
    ensures
        state.run(events).polls.contains_key(id),
        state.run(events).polls[id].name == state.polls[id].name,
        state.run(events).polls[id].options == state.polls[id].options,
    decreases events.len(),
{
    if events.len() > 0 {
        let before = events.drop_last();
        assert(crate::model::keeps_poll(before, id)) by {
            assert(forall|i: int| 0 <= i < before.len() ==> before[i] == events[i]);
        }
        law_poll_keeps_name_and_options(state, before, id);
    }
}

/// A poll that has just been created counts each vote for it from then on, and
/// no others.
pub proof fn law_new_poll_counts_from_zero<S>(
    state: State<S>,
    id: Seq<char>,
    name: Seq<char>,
    options: Seq<Seq<char>>,
    events: Seq<Event<S>>,
    option: int,
)
    requires
        state.wf(),
        0 <= option < options.len(),
        crate::model::keeps_poll(events, id),
    ensures
        state.created(id, name, options).run(events).polls[id].polls[option]
            == state.created(id, name, options).votes_for(events, id, option),
{
    let created = state.created(id, name, options);
    law_step_well_formed(state, Event::Create { id, name, options });
    law_count_is_number_of_votes(created, events, id, option);
}

/// One count going up by one makes the sum go up by one.
proof fn lemma_sum_update(counts: Seq<u16>, i: int)
    requires
        0 <= i < counts.len(),
        counts[i] < u16::MAX,
    ensures
        crate::poll::sum(counts.update(i, (counts[i] + 1) as u16)) == crate::poll::sum(counts) + 1,
    decreases counts.len(),
{
    let updated = counts.update(i, (counts[i] + 1) as u16);
    if i == counts.len() - 1 {
        assert(updated.drop_last() =~= counts.drop_last());
    } else {
        lemma_sum_update(counts.drop_last(), i);
        assert(updated.drop_last() =~= counts.drop_last().update(i, (counts[i] + 1) as u16));
    }
}

/// A counted vote adds exactly one vote to the poll that is running. No other
/// count, no name, no option, no other poll and no connection changes.
pub proof fn law_counted_vote_changes_one_count<S>(state: State<S>, n: u64)
    requires
        state.wf(),
        state.effect(BallotModel::Choice(n)) == Effect::Counted,
    ensures
        ({
            let next = state.after(BallotModel::Choice(n));
            let option = crate::model::option_of(n);
            &&& state.running() matches Some(before)
            &&& next.running() matches Some(now)
            &&& now.polls[option] == before.polls[option] + 1
            &&& now.total() == before.total() + 1
            &&& now.name == before.name
            &&& now.options == before.options
            &&& now.polls.len() == before.polls.len()
            &&& forall|i: int|
                0 <= i < now.polls.len() && i != option ==> now.polls[i] == before.polls[i]
            &&& forall|id: Seq<char>| #[trigger]
                next.polls.contains_key(id) <==> state.polls.contains_key(id)
            &&& forall|id: Seq<char>|
                state.polls.contains_key(id) && state.current != Some(id)
                    ==> #[trigger] next.polls[id] == state.polls[id]
            &&& next == (State { polls: next.polls, ..state })
        }),
{
    let option = crate::model::option_of(n);
    let before = state.running()->0;
    lemma_sum_update(before.polls, option);
}

/// A ballot that is not counted changes nothing.
pub proof fn law_uncounted_ballot_changes_nothing<S>(state: State<S>, ballot: BallotModel)
    requires
        state.effect(ballot) != Effect::Counted,
    ensures
        state.after(ballot) == state,
{
}

/// While no poll is running, no ballot counts.
pub proof fn law_no_votes_while_stopped<S>(state: State<S>, ballot: BallotModel)
    ensures
        state.stopped().effect(ballot) == Effect::Nothing,
        state.stopped().after(ballot) == state.stopped(),
{
}

/// The order of two ballots does not matter.
pub proof fn law_ballots_commute<S>(state: State<S>, first: BallotModel, second: BallotModel)
    requires
        state.wf(),
    ensures
        state.after(first).after(second) == state.after(second).after(first),
{
    let one = state.after(first).after(second);
    let other = state.after(second).after(first);
    if let Some(id) = state.current {
        assert(one.polls[id].polls =~= other.polls[id].polls);
    }
}

/// Creating a poll makes a poll without votes, also where there was one under
/// that id. Every other poll stays as it was, and so does which poll is running.
pub proof fn law_create_makes_fresh_poll<S>(
    state: State<S>,
    id: Seq<char>,
    name: Seq<char>,
    options: Seq<Seq<char>>,
)
    ensures
        state.created(id, name, options).polls.contains_key(id),
        state.created(id, name, options).polls[id].name == name,
        state.created(id, name, options).polls[id].options == options,
        state.created(id, name, options).polls[id].total() == 0,
        forall|other: Seq<char>|
            other != id ==> #[trigger] state.created(id, name, options).polls.contains_key(other)
                == state.polls.contains_key(other),
        forall|other: Seq<char>|
            other != id ==> #[trigger] state.created(id, name, options).polls[other]
                == state.polls[other],
        state.created(id, name, options).current == state.current,
{
    lemma_sum_zero(PollModel::fresh(name, options).polls);
}

/// Counts that are all zero have the sum zero.
proof fn lemma_sum_zero(counts: Seq<u16>)
    requires
        forall|i: int| 0 <= i < counts.len() ==> counts[i] == 0,
    ensures
        crate::poll::sum(counts) == 0,
    decreases counts.len(),
{
    if counts.len() > 0 {
        lemma_sum_zero(counts.drop_last());
    }
}

/// A poll that does not exist cannot be started.
pub proof fn law_start_unknown_changes_nothing<S>(state: State<S>, id: Seq<char>)
    requires
        !state.polls.contains_key(id),
    ensures
        state.started(id) == state,
{
}

/// A poll that is started is the one that runs, with the votes it had, whatever
/// was running before.
pub proof fn law_start_runs_the_poll<S>(state: State<S>, id: Seq<char>)
    requires
        state.polls.contains_key(id),
    ensures
        state.started(id).running() == Some(state.polls[id]),
{
}

/// A second poll can be started while a first one is running. It is then the one
/// that runs, and the votes of every poll are kept. Every connection is told of
/// the second poll, and nobody is told that the first one has ended.
pub proof fn law_start_replaces_the_running_poll<S>(
    state: State<S>,
    first: Seq<char>,
    second: Seq<char>,
)
    requires
        state.polls.contains_key(first),
        state.polls.contains_key(second),
    ensures
        state.started(first).started(second).current == Some(second),
        state.started(first).started(second) == state.started(second),
        state.started(first).started(second).polls == state.polls,
        state.started(first).start_notice(second) == Some(
            Notice {
                document: crate::message::start_document(state.polls[second]),
                screens: state.screen_connections.dom(),
                polls: state.poll_connections.dom(),
            },
        ),
        state.started(first).start_notice(second)->0.document != crate::message::stop_document(),
{
    law_status_tells_documents_apart(state.polls[second]);
}

/// Starting and stopping polls changes no vote and no connection.
pub proof fn law_start_and_stop_keep_votes<S>(state: State<S>, id: Seq<char>)
    ensures
        state.started(id) == (State { current: state.started(id).current, ..state }),
        state.stopped() == (State { current: None, ..state }),
{
}

/// Starting a poll is undone by stopping it, where none was running.
pub proof fn law_stop_undoes_start<S>(state: State<S>, id: Seq<char>)
    requires
        state.current is None,
    ensures
        state.started(id).stopped() == state,
{
}

/// Stopping twice is stopping once, and stopping nothing changes nothing.
pub proof fn law_stop_is_idempotent<S>(state: State<S>)
    ensures
        state.stopped().stopped() == state.stopped(),
        state.current is None ==> state.stopped() == state,
{
}

/// Whoever connects while a poll is running is told what those were told who
/// were connected when it was started. After it was stopped, voters are told
/// what the others were told then, and screens are told nothing.
pub proof fn law_latecomers_are_told_the_same<S>(state: State<S>, id: Seq<char>)
    requires
        state.polls.contains_key(id),
    ensures
        state.started(id).screen_greeting() == Some(
            crate::message::start_document(state.polls[id]),
        ),
        state.started(id).poll_greeting() == crate::message::start_document(state.polls[id]),
        state.stopped().screen_greeting() is None,
        state.stopped().poll_greeting() == crate::message::stop_document(),
{
}

/// What a newcomer is told stays the same until a poll is started or stopped or
/// the running poll is created anew, however many vote, come and go.
pub proof fn law_greetings_last<S>(state: State<S>, events: Seq<Event<S>>)
    requires
        state.wf(),
        forall|i: int|
            0 <= i < events.len() ==> !((#[trigger] events[i]) is Start) && !(events[i] is Stop),
        state.current matches Some(id) ==> crate::model::keeps_poll(events, id),
    ensures
        state.run(events).current == state.current,
        state.run(events).screen_greeting() == state.screen_greeting(),
        state.run(events).poll_greeting() == state.poll_greeting(),
    decreases events.len(),
{
    if events.len() > 0 {
        let before = events.drop_last();
        assert(forall|i: int| 0 <= i < before.len() ==> before[i] == events[i]);
        law_greetings_last(state, before);
    }
}

/// As long as no more screens have connected than there are ids from 1 up, the next
/// one gets an id that no open connection of that kind has. Ids are given out in
/// ascending order from 1.
pub proof fn law_screen_ids_are_fresh<S>(events: Seq<Event<S>>)
    requires
        crate::model::screen_joins(events) <= usize::MAX,
    ensures
        ({
            let state = State::<S>::initial().run(events);
            let joins = crate::model::screen_joins(events);
            &&& !state.screen_connections.contains_key(state.next_screen_id)
            &&& joins < usize::MAX ==> state.next_screen_id == joins + 1
            &&& joins == usize::MAX ==> state.next_screen_id == 0
            &&& forall|id: usize| #[trigger]
                state.screen_connections.contains_key(id) ==> 1 <= id <= joins
        }),
    decreases events.len(),
{
    if events.len() > 0 {
        law_screen_ids_are_fresh(events.drop_last());
    }
}

/// As long as no more voters have connected than there are ids from 1 up, the next
/// one gets an id that no open connection of that kind has. Ids are given out in
/// ascending order from 1.
pub proof fn law_poll_ids_are_fresh<S>(events: Seq<Event<S>>)
    requires
        crate::model::poll_joins(events) <= usize::MAX,
    ensures
        ({
            let state = State::<S>::initial().run(events);
            let joins = crate::model::poll_joins(events);
            &&& !state.poll_connections.contains_key(state.next_poll_id)
            &&& joins < usize::MAX ==> state.next_poll_id == joins + 1
            &&& joins == usize::MAX ==> state.next_poll_id == 0
            &&& forall|id: usize| #[trigger]
                state.poll_connections.contains_key(id) ==> 1 <= id <= joins
        }),
    decreases events.len(),
{
    if events.len() > 0 {
        law_poll_ids_are_fresh(events.drop_last());
    }
}

/// A connection that leaves is forgotten, and only that one.
pub proof fn law_leaving_forgets_one_connection<S>(state: State<S>, id: usize)
    ensures
        !state.screen_left(id).screen_connections.contains_key(id),
        !state.poll_left(id).poll_connections.contains_key(id),
        forall|other: usize|
            other != id ==> #[trigger] state.screen_left(id).screen_connections.contains_key(other)
                == state.screen_connections.contains_key(other),
        forall|other: usize|
            other != id ==> #[trigger] state.poll_left(id).poll_connections.contains_key(other)
                == state.poll_connections.contains_key(other),
        state.screen_left(id) == (State {
            screen_connections: state.screen_left(id).screen_connections,
            ..state
        }),
        state.poll_left(id) == (State {
            poll_connections: state.poll_left(id).poll_connections,
            ..state
        }),
{
}

/// Where the id of a new screen was free, the connections are as they were
/// before once it has left.
pub proof fn law_screen_leave_undoes_join<S>(state: State<S>, tx: S)
    requires
        !state.screen_connections.contains_key(state.next_screen_id),
    ensures
        state.screen_joined(tx).screen_connections.contains_key(state.next_screen_id),
        state.screen_joined(tx).screen_left(state.next_screen_id) == (State {
            next_screen_id: crate::model::id_after(state.next_screen_id),
            ..state
        }),
{
}

/// Where the id of a new voter was free, the connections are as they were
/// before once the voter has left.
pub proof fn law_poll_leave_undoes_join<S>(state: State<S>, tx: S)
    requires
        !state.poll_connections.contains_key(state.next_poll_id),
    ensures
        state.poll_joined(tx).poll_connections.contains_key(state.next_poll_id),
        state.poll_joined(tx).poll_left(state.next_poll_id) == (State {
            next_poll_id: crate::model::id_after(state.next_poll_id),
            ..state
        }),
{
}

/// The names of the fields differ.
pub(crate) proof fn lemma_field_names()
    ensures
        "status"@ != "data"@,
        "status"@ != "title"@,
        "status"@ != "options"@,
        "title"@ != "options"@,
{
    reveal_strlit("status");
    reveal_strlit("data");
    reveal_strlit("title");
    reveal_strlit("options");
    assert("status"@.len() == 6);
    assert("data"@.len() == 4);
    assert("title"@.len() == 5);
    assert("options"@.len() == 7);
}

/// The votes that the screens are told are one count for each option.
pub proof fn law_tally_has_a_count_for_each_option<S>(state: State<S>)
    requires
        state.wf(),
        state.running() is Some,
    ensures
        ({
            let poll = state.running()->0;
            &&& crate::message::tally_document(poll).field("data"@) == Some(
                Json::Array(crate::message::count_items(poll.polls)),
            )
            &&& crate::message::count_items(poll.polls).len() == poll.options.len()
        }),
{
    lemma_field_names();
}

/// The three kinds of document differ in their status.
pub proof fn law_status_tells_documents_apart(poll: PollModel)
    ensures
        crate::message::tally_document(poll).field("status"@) == Some(Json::Unsigned(0)),
        crate::message::start_document(poll).field("status"@) == Some(Json::Unsigned(1)),
        crate::message::stop_document().field("status"@) == Some(Json::Unsigned(2)),
{
    lemma_field_names();
}

/// A text carries one document only.
pub proof fn law_text_carries_one_document(text: Seq<char>, first: Json, second: Json)
    requires
        crate::json::carries(text, first),
        crate::json::carries(text, second),
    ensures
        first == second,
{
}

/// The name and the options of a poll can be read off the text that says it is
/// running.
pub proof fn law_start_text_tells_the_poll(text: Seq<char>, first: PollModel, second: PollModel)
    requires
        crate::json::carries(text, crate::message::start_document(first)),
        crate::json::carries(text, crate::message::start_document(second)),
    ensures
        first.name == second.name,
        first.options == second.options,
{
    lemma_field_names();
    let one = crate::message::start_document(first);
    let other = crate::message::start_document(second);
    assert(one.field("title"@) == other.field("title"@));
    assert(one.field("options"@) == other.field("options"@));
    let items = crate::message::text_items(first.options);
    assert(items == crate::message::text_items(second.options));
    assert forall|i: int| 0 <= i < first.options.len() implies first.options[i]
        == second.options[i] by {
        assert(items[i] == Json::Text(first.options[i]));
    }
}

/// The votes for each option can be read off the text that gives them.
pub proof fn law_tally_text_tells_the_votes(text: Seq<char>, first: PollModel, second: PollModel)
    requires
        crate::json::carries(text, crate::message::tally_document(first)),
        crate::json::carries(text, crate::message::tally_document(second)),
    ensures
        first.polls == second.polls,
{
    lemma_field_names();
    let one = crate::message::tally_document(first);
    let other = crate::message::tally_document(second);
    assert(one.field("data"@) == other.field("data"@));
    let items = crate::message::count_items(first.polls);
    assert(items == crate::message::count_items(second.polls));
    assert forall|i: int| 0 <= i < first.polls.len() implies first.polls[i] == second.polls[i] by {
        assert(items[i] == Json::Unsigned(first.polls[i] as u64));
    }
}

/// A text is a vote for `n` where it is an object whose field `poll` is `n`,
/// whatever other fields it has, and nowhere else.
pub proof fn law_ballot_is_the_poll_field(text: Seq<char>, n: u64)
    ensures
        crate::message::ballot_of(crate::json::json_parsed(text)) == BallotModel::Choice(n) <==> {
            &&& crate::json::json_parsed(text) matches Ok(document)
            &&& document matches Json::Object(fields)
            &&& fields.contains_key("poll"@)
            &&& fields["poll"@] == Json::Unsigned(n)
        },
{
}

} // verus!
