use live_poll::message::Ballot;
use live_poll::model::Effect;
use live_poll::state::{screen_received, AppState, Announcement, CreatePollData, Incoming, StartPollData};

const LUNCH: &str = "{\"options\":[\"Rice\",\"Noodles\"],\"status\":1,\"title\":\"Lunch\"}";

fn create(state: &mut AppState<char>, id: &str, name: &str, options: &[&str]) -> String {
    state.handle_create_poll(CreatePollData {
        id: id.to_string(),
        name: name.to_string(),
        options: options.iter().map(|s| s.to_string()).collect(),
    })
}

fn start(state: &mut AppState<char>, id: &str) -> (String, Option<Announcement>) {
    let outcome = state.handle_start_poll(StartPollData { id: id.to_string() });
    (outcome.reply, outcome.announcement)
}

fn lunch() -> AppState<char> {
    let mut state = AppState::default();
    create(&mut state, "lunch", "Lunch", &["Rice", "Noodles"]);
    state
}

fn votes(state: &AppState<char>, id: &str) -> Vec<u16> {
    state.find_poll(&id.to_string()).unwrap().polls().clone()
}

fn sorted(mut ids: Vec<usize>) -> Vec<usize> {
    ids.sort();
    ids
}

fn frame(text: &str) -> Incoming {
    Incoming::Frame { text: Some(text.to_string()), close: false }
}

#[test]
fn nothing_at_first() {
    let state: AppState<char> = AppState::default();
    assert!(state.running().is_none());
    assert!(state.find_poll(&"lunch".to_string()).is_none());
    assert!(state.screen_message().is_empty());
    assert!(state.poll_message().is_empty());
    assert!(state.handle_connection().is_none());
}

#[test]
fn create_answers() {
    let mut state = AppState::default();
    assert_eq!(create(&mut state, "lunch", "Lunch", &["Rice"]), "请求成功");
    assert_eq!(votes(&state, "lunch"), vec![0]);
    assert!(state.running().is_none());
}

#[test]
fn create_again_resets_votes() {
    let mut state = lunch();
    create(&mut state, "other", "Other", &["A"]);
    start(&mut state, "other");
    state.vote(0);
    start(&mut state, "lunch");
    state.vote(1);
    create(&mut state, "lunch", "Dinner", &["A", "B", "C"]);
    assert_eq!(votes(&state, "lunch"), vec![0, 0, 0]);
    assert_eq!(votes(&state, "other"), vec![1]);
    assert_eq!(state.running().unwrap().name(), "Dinner");
}

#[test]
fn start_tells_everybody() {
    let mut state = lunch();
    state.screen_connected('s');
    state.screen_connected('t');
    state.poll_connected('p');
    let (reply, announcement) = start(&mut state, "lunch");
    let announcement = announcement.unwrap();
    assert_eq!(reply, LUNCH);
    assert_eq!(announcement.text, LUNCH);
    assert_eq!(sorted(announcement.screens), vec![1, 2]);
    assert_eq!(announcement.polls, vec![1]);
    assert_eq!(state.running().unwrap().name(), "Lunch");
}

#[test]
fn start_of_unknown_poll_is_refused() {
    let mut state = lunch();
    start(&mut state, "lunch");
    let (reply, announcement) = start(&mut state, "dinner");
    assert_eq!(reply, "未找到指定的Poll");
    assert!(announcement.is_none());
    assert_eq!(state.running().unwrap().name(), "Lunch");
}

#[test]
fn stop_tells_everybody() {
    let mut state = lunch();
    state.screen_connected('s');
    state.poll_connected('p');
    state.poll_connected('q');
    start(&mut state, "lunch");
    let outcome = state.handle_stop_poll();
    let announcement = outcome.announcement.unwrap();
    assert_eq!(outcome.reply, "投票已结束");
    assert_eq!(announcement.text, "{\"status\":2}");
    assert_eq!(announcement.screens, vec![1]);
    assert_eq!(sorted(announcement.polls), vec![1, 2]);
    assert!(state.running().is_none());
}

#[test]
fn stop_without_a_running_poll_is_refused() {
    let mut state = lunch();
    start(&mut state, "lunch");
    state.handle_stop_poll();
    let outcome = state.handle_stop_poll();
    assert_eq!(outcome.reply, "投票本身并未开始");
    assert!(outcome.announcement.is_none());
}

#[test]
fn restart_keeps_votes() {
    let mut state = lunch();
    start(&mut state, "lunch");
    state.vote(1);
    state.handle_stop_poll();
    start(&mut state, "lunch");
    state.vote(1);
    assert_eq!(votes(&state, "lunch"), vec![0, 2]);
}

#[test]
fn tick_tells_screens_the_votes() {
    let mut state = lunch();
    state.screen_connected('s');
    state.poll_connected('p');
    start(&mut state, "lunch");
    state.vote(1);
    let announcement = state.handle_connection().unwrap();
    assert_eq!(announcement.text, "{\"data\":[0,1],\"status\":0}");
    assert_eq!(announcement.screens, vec![1]);
    assert!(announcement.polls.is_empty());
    state.handle_stop_poll();
    assert!(state.handle_connection().is_none());
}

#[test]
fn votes_count_for_the_running_poll() {
    let mut state = lunch();
    create(&mut state, "other", "Other", &["A", "B"]);
    assert!(!state.vote(0));
    start(&mut state, "lunch");
    assert!(state.vote(0));
    assert!(!state.vote(2));
    start(&mut state, "other");
    assert!(state.vote(1));
    assert_eq!(votes(&state, "lunch"), vec![1, 0]);
    assert_eq!(votes(&state, "other"), vec![0, 1]);
}

#[test]
fn order_of_votes_does_not_matter() {
    let mut one = lunch();
    let mut other = lunch();
    start(&mut one, "lunch");
    start(&mut other, "lunch");
    for n in [0, 1, 1, 5] {
        one.apply_ballot(&Ballot::Choice(n));
    }
    for n in [1, 5, 0, 1] {
        other.apply_ballot(&Ballot::Choice(n));
    }
    assert_eq!(votes(&one, "lunch"), vec![1, 2]);
    assert_eq!(votes(&other, "lunch"), vec![1, 2]);
}

#[test]
fn full_count_is_reported() {
    let mut state = lunch();
    start(&mut state, "lunch");
    for _ in 0..u16::MAX {
        assert_eq!(state.apply_ballot(&Ballot::Choice(0)), Effect::Counted);
    }
    assert_eq!(state.apply_ballot(&Ballot::Choice(0)), Effect::Full);
    assert_eq!(votes(&state, "lunch"), vec![65535, 0]);
    assert_eq!(state.apply_ballot(&Ballot::Choice(1)), Effect::Counted);
    assert_eq!(votes(&state, "lunch"), vec![65535, 1]);
}

#[test]
fn ballots_without_a_vote_change_nothing() {
    let mut state = lunch();
    start(&mut state, "lunch");
    assert_eq!(state.apply_ballot(&Ballot::NoPollField), Effect::Nothing);
    assert_eq!(state.apply_ballot(&Ballot::NotAnInteger), Effect::Nothing);
    assert_eq!(state.apply_ballot(&Ballot::Malformed(String::new())), Effect::Nothing);
    assert_eq!(state.apply_ballot(&Ballot::Choice(2)), Effect::Nothing);
    assert_eq!(state.apply_ballot(&Ballot::Choice(u64::MAX)), Effect::Nothing);
    assert_eq!(votes(&state, "lunch"), vec![0, 0]);
}

#[test]
fn message_from_a_voter_is_counted() {
    let mut state = lunch();
    start(&mut state, "lunch");
    let received = state.poll_received(&frame("{\"poll\":1}"));
    assert!(matches!(received.ballot, Some(Ballot::Choice(1))));
    assert_eq!(received.effect, Effect::Counted);
    assert!(received.stays);
    let received = state.poll_received(&frame("{\"poll\":9}"));
    assert!(matches!(received.ballot, Some(Ballot::Choice(9))));
    assert_eq!(received.effect, Effect::Nothing);
    assert!(received.stays);
    assert_eq!(votes(&state, "lunch"), vec![0, 1]);
}

#[test]
fn closing_message_still_counts() {
    let mut state = lunch();
    start(&mut state, "lunch");
    let received = state.poll_received(&Incoming::Frame {
        text: Some("{\"poll\":0}".to_string()),
        close: true,
    });
    assert_eq!(received.effect, Effect::Counted);
    assert!(!received.stays);
    assert_eq!(votes(&state, "lunch"), vec![1, 0]);
}

#[test]
fn message_without_text_is_malformed() {
    let mut state = lunch();
    start(&mut state, "lunch");
    let received = state.poll_received(&Incoming::Frame { text: None, close: false });
    match received.ballot {
        Some(Ballot::Malformed(message)) => {
            assert_eq!(message, "EOF while parsing a value at line 1 column 0")
        }
        other => panic!("{:?}", other),
    }
    assert_eq!(received.effect, Effect::Nothing);
    assert!(received.stays);
}

#[test]
fn failed_voter_leaves() {
    let mut state = lunch();
    start(&mut state, "lunch");
    let received = state.poll_received(&Incoming::Failure);
    assert!(received.ballot.is_none());
    assert_eq!(received.effect, Effect::Nothing);
    assert!(!received.stays);
}

#[test]
fn screens_leave_when_closed_or_failed() {
    assert!(screen_received(&frame("{\"poll\":1}")));
    assert!(screen_received(&Incoming::Frame { text: None, close: false }));
    assert!(!screen_received(&Incoming::Frame { text: None, close: true }));
    assert!(!screen_received(&Incoming::Failure));
}

#[test]
fn newcomers_are_greeted() {
    let mut state = lunch();
    assert!(state.screen_connected('s').greeting.is_none());
    assert_eq!(state.poll_connected('p').greeting.unwrap(), "{\"status\":2}");
    start(&mut state, "lunch");
    state.vote(0);
    assert_eq!(state.screen_connected('t').greeting.unwrap(), LUNCH);
    assert_eq!(state.poll_connected('q').greeting.unwrap(), LUNCH);
    state.handle_stop_poll();
    assert!(state.screen_connected('u').greeting.is_none());
    assert_eq!(state.poll_connected('r').greeting.unwrap(), "{\"status\":2}");
}

#[test]
fn connections_have_ids_of_their_own() {
    let mut state: AppState<char> = AppState::default();
    assert_eq!(state.screen_connected('s').id, 1);
    assert_eq!(state.screen_connected('t').id, 2);
    assert_eq!(state.poll_connected('p').id, 1);
    state.screen_disconnected(1);
    assert_eq!(state.screen_connected('u').id, 3);
    assert_eq!(state.screen_sender(1), None);
    assert_eq!(state.screen_sender(2), Some(&'t'));
    assert_eq!(state.screen_sender(3), Some(&'u'));
    assert_eq!(state.poll_sender(1), Some(&'p'));
    assert_eq!(state.poll_sender(2), None);
    assert_eq!(sorted(state.screen_message()), vec![2, 3]);
    assert_eq!(state.poll_message(), vec![1]);
}

#[test]
fn leaving_undoes_connecting() {
    let mut state: AppState<char> = AppState::default();
    state.poll_connected('p');
    let id = state.poll_connected('q').id;
    state.poll_disconnected(id);
    assert_eq!(state.poll_message(), vec![1]);
    assert_eq!(state.poll_sender(1), Some(&'p'));
    state.poll_disconnected(id);
    assert_eq!(state.poll_message(), vec![1]);
}

#[test]
fn second_start_replaces_the_first() {
    let mut state = lunch();
    create(&mut state, "other", "Other", &["A"]);
    state.screen_connected('s');
    state.poll_connected('p');
    start(&mut state, "lunch");
    state.vote(1);
    let (reply, announcement) = start(&mut state, "other");
    let announcement = announcement.unwrap();
    assert_eq!(reply, "{\"options\":[\"A\"],\"status\":1,\"title\":\"Other\"}");
    assert_eq!(announcement.text, reply);
    assert_eq!(announcement.screens, vec![1]);
    assert_eq!(announcement.polls, vec![1]);
    assert_eq!(state.running().unwrap().name(), "Other");
    assert_eq!(votes(&state, "lunch"), vec![0, 1]);
    assert_eq!(votes(&state, "other"), vec![0]);
}

#[test]
fn poll_keeps_name_and_options() {
    let mut state = lunch();
    create(&mut state, "other", "Other", &["A"]);
    start(&mut state, "lunch");
    state.vote(0);
    state.handle_stop_poll();
    start(&mut state, "other");
    let poll = state.find_poll(&"lunch".to_string()).unwrap();
    assert_eq!(poll.name(), "Lunch");
    assert_eq!(poll.options(), &vec!["Rice".to_string(), "Noodles".to_string()]);
}
