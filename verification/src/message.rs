//! What the server writes to its connections and what it reads in a vote.

use vstd::prelude::*;

use crate::json::Json;
use crate::poll::{Poll, PollModel};

verus! {

/// The documents in which texts are listed.
pub open spec fn text_items(list: Seq<Seq<char>>) -> Seq<Json> {
    list.map_values(|s: Seq<char>| Json::Text(s))
}

/// The documents in which counts are listed.
pub open spec fn count_items(counts: Seq<u16>) -> Seq<Json> {
    counts.map_values(|n: u16| Json::Unsigned(n as u64))
}

/// Says that a poll is running: status 1, with its name and its options.
pub open spec fn start_document(poll: PollModel) -> Json {
    Json::Object(
        map![
            "status"@ => Json::Unsigned(1),
            "title"@ => Json::Text(poll.name),
            "options"@ => Json::Array(text_items(poll.options)),
        ],
    )
}

/// Says that no poll is running: status 2.
pub open spec fn stop_document() -> Json {
    Json::Object(map!["status"@ => Json::Unsigned(2)])
}

/// Gives the votes of the running poll: status 0, with a count for each option.
pub open spec fn tally_document(poll: PollModel) -> Json {
    Json::Object(
        map![
            "status"@ => Json::Unsigned(0),
            "data"@ => Json::Array(count_items(poll.polls)),
        ],
    )
}

/// Fields with one entry, the status.
fn status_fields(status: u64) -> (fields: serde_json::Map<String, serde_json::Value>)
    ensures
        crate::json::fields_of(fields) == map!["status"@ => Json::Unsigned(status)],
{
    let mut fields = crate::json::no_fields();
    crate::json::insert(&mut fields, "status".to_owned(), crate::json::number(status));
    fields
}

/// The text of [`start_document`].
pub fn start_message(poll: &Poll) -> (text: String)
    ensures
        crate::json::carries(text@, start_document(poll@)),
{
    let options = poll.options();
    let mut items: Vec<serde_json::Value> = Vec::new();
    for i in 0..options.len()
        invariant
            options.len() == options@.len(),
            items@.len() == i,
            forall|j: int|
                0 <= j < i ==> crate::json::json_of(#[trigger] items@[j]) == Json::Text(
                    options@[j]@,
                ),
    {
        items.push(crate::json::text(options[i].clone()));
    }
    assert(items@.map_values(|item: serde_json::Value| crate::json::json_of(item))
        =~= text_items(poll@.options));

    let mut fields = status_fields(1);
    crate::json::insert(&mut fields, "title".to_owned(), crate::json::text(poll.name().clone()));
    crate::json::insert(&mut fields, "options".to_owned(), crate::json::array(items));
    crate::json::write(&crate::json::object(fields))
}

/// The text of [`stop_document`].
pub fn stop_message() -> (text: String)
    ensures
        crate::json::carries(text@, stop_document()),
{
    crate::json::write(&crate::json::object(status_fields(2)))
}

/// The text of [`tally_document`].
pub fn tally_message(poll: &Poll) -> (text: String)
    ensures
        crate::json::carries(text@, tally_document(poll@)),
{
    let polls = poll.polls();
    let mut items: Vec<serde_json::Value> = Vec::new();
    for i in 0..polls.len()
        invariant
            polls.len() == polls@.len(),
            items@.len() == i,
            forall|j: int|
                0 <= j < i ==> crate::json::json_of(#[trigger] items@[j]) == Json::Unsigned(
                    polls@[j] as u64,
                ),
    {
        items.push(crate::json::number(polls[i] as u64));
    }
    assert(items@.map_values(|item: serde_json::Value| crate::json::json_of(item)) =~= count_items(
        poll@.polls,
    ));

    let mut fields = status_fields(0);
    crate::json::insert(&mut fields, "data".to_owned(), crate::json::array(items));
    crate::json::write(&crate::json::object(fields))
}

/// What a voter's text asks for.
#[derive(Debug)]
pub enum Ballot {
    /// The text is no JSON document; the message says why.
    Malformed(String),
    /// The document has no field `poll`.
    NoPollField,
    /// The field `poll` is no integer from zero up.
    NotAnInteger,
    /// A vote for the option with this number.
    Choice(u64),
}

/// A ballot as a mathematical value.
pub enum BallotModel {
    Malformed(Seq<char>),
    NoPollField,
    NotAnInteger,
    Choice(u64),
}

impl View for Ballot {
    type V = BallotModel;

    open spec fn view(&self) -> BallotModel {
        match *self {
            Ballot::Malformed(message) => BallotModel::Malformed(message@),
            Ballot::NoPollField => BallotModel::NoPollField,
            Ballot::NotAnInteger => BallotModel::NotAnInteger,
            Ballot::Choice(n) => BallotModel::Choice(n),
        }
    }
}

/// The ballot in what was read in a text: the number in the field `poll`.
pub open spec fn ballot_of(parsed: Result<Json, Seq<char>>) -> BallotModel {
    match parsed {
        Err(message) => BallotModel::Malformed(message),
        Ok(document) => match document.field("poll"@) {
            None => BallotModel::NoPollField,
            Some(value) => match value.unsigned() {
                None => BallotModel::NotAnInteger,
                Some(n) => BallotModel::Choice(n),
            },
        },
    }
}

/// The ballot in a text that has been read.
pub fn ballot_from(read: Result<serde_json::Value, String>) -> (ballot: Ballot)
    ensures
        ballot@ == ballot_of(crate::json::read_of(read)),
{
    match read {
        Err(message) => Ballot::Malformed(message),
        Ok(document) => match crate::json::get(&document, "poll") {
            None => Ballot::NoPollField,
            Some(value) => match value.as_u64() {
                None => Ballot::NotAnInteger,
                Some(n) => Ballot::Choice(n),
            },
        },
    }
}

/// The ballot in a text.
pub fn read_ballot(text: &str) -> (ballot: Ballot)
    ensures
        ballot@ == ballot_of(crate::json::json_parsed(text@)),
{
    ballot_from(crate::json::read(text))
}

} // verus!
