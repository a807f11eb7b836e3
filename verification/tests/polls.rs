use live_poll::message::{start_message, stop_message, tally_message};
use live_poll::poll::Poll;
use live_poll::table::PollTable;

fn strings(list: &[&str]) -> Vec<String> {
    list.iter().map(|s| s.to_string()).collect()
}

#[test]
fn new_poll_has_no_votes() {
    let poll = Poll::new("Lunch".to_string(), strings(&["Rice", "Noodles", "Soup"]));
    assert_eq!(poll.name(), "Lunch");
    assert_eq!(poll.options(), &strings(&["Rice", "Noodles", "Soup"]));
    assert_eq!(poll.polls(), &vec![0u16, 0, 0]);
}

#[test]
fn poll_without_options() {
    let mut poll = Poll::new(String::new(), Vec::new());
    poll.poll(0);
    assert!(poll.polls().is_empty());
}

#[test]
fn vote_counts_one_option() {
    let mut poll = Poll::new("Lunch".to_string(), strings(&["Rice", "Noodles"]));
    poll.poll(1);
    poll.poll(1);
    poll.poll(0);
    assert_eq!(poll.polls(), &vec![1u16, 2]);
    assert_eq!(poll.options(), &strings(&["Rice", "Noodles"]));
}

#[test]
fn vote_for_no_option_is_ignored() {
    let mut poll = Poll::new("Lunch".to_string(), strings(&["Rice", "Noodles"]));
    poll.poll(2);
    poll.poll(usize::MAX);
    assert_eq!(poll.polls(), &vec![0u16, 0]);
}

#[test]
fn table_keeps_polls_apart() {
    let mut table = PollTable::new();
    assert!(table.get(&"a".to_string()).is_none());
    table.insert("a".to_string(), Poll::new("A".to_string(), strings(&["x"])));
    table.insert("b".to_string(), Poll::new("B".to_string(), strings(&["y", "z"])));
    table.vote(&"b".to_string(), 1);
    assert!(table.contains_key(&"a".to_string()));
    assert!(!table.contains_key(&"c".to_string()));
    assert_eq!(table.get(&"a".to_string()).unwrap().polls(), &vec![0u16]);
    assert_eq!(table.get(&"b".to_string()).unwrap().polls(), &vec![0u16, 1]);
}

#[test]
fn table_insert_replaces() {
    let mut table = PollTable::new();
    table.insert("a".to_string(), Poll::new("A".to_string(), strings(&["x"])));
    table.vote(&"a".to_string(), 0);
    table.insert("a".to_string(), Poll::new("B".to_string(), strings(&["y", "z"])));
    assert_eq!(table.get(&"a".to_string()).unwrap().name(), "B");
    assert_eq!(table.get(&"a".to_string()).unwrap().polls(), &vec![0u16, 0]);
}

#[test]
fn start_message_text() {
    let poll = Poll::new("Lunch".to_string(), strings(&["Rice", "Noodles"]));
    assert_eq!(
        start_message(&poll),
        "{\"options\":[\"Rice\",\"Noodles\"],\"status\":1,\"title\":\"Lunch\"}"
    );
}

#[test]
fn start_message_without_options() {
    let poll = Poll::new(String::new(), Vec::new());
    assert_eq!(start_message(&poll), "{\"options\":[],\"status\":1,\"title\":\"\"}");
}

#[test]
fn stop_message_text() {
    assert_eq!(stop_message(), "{\"status\":2}");
}

#[test]
fn tally_message_text() {
    let mut poll = Poll::new("Lunch".to_string(), strings(&["Rice", "Noodles", "Soup"]));
    poll.poll(2);
    poll.poll(0);
    poll.poll(2);
    assert_eq!(tally_message(&poll), "{\"data\":[1,0,2],\"status\":0}");
}

#[test]
fn start_message_reads_back() {
    let title = "quote \" backslash \\ newline \n bell \u{7} \u{1F5F3} \u{6295}\u{7968}";
    let poll = Poll::new(title.to_string(), strings(&["\u{0}", "/", "\u{7f}\u{2028}"]));
    let read: serde_json::Value = serde_json::from_str(&start_message(&poll)).unwrap();
    assert_eq!(read.get("status").unwrap().as_u64(), Some(1));
    assert_eq!(read.get("title").unwrap().as_str(), Some(title));
    let options = read.get("options").unwrap().as_array().unwrap();
    assert_eq!(options.len(), 3);
    assert_eq!(options[0].as_str(), Some("\u{0}"));
    assert_eq!(options[1].as_str(), Some("/"));
    assert_eq!(options[2].as_str(), Some("\u{7f}\u{2028}"));
    assert_eq!(read.as_object().unwrap().len(), 3);
}

#[test]
fn tally_message_reads_back() {
    let mut poll = Poll::new("Lunch".to_string(), strings(&["Rice", "Noodles"]));
    for _ in 0..u16::MAX {
        poll.poll(0);
    }
    let read: serde_json::Value = serde_json::from_str(&tally_message(&poll)).unwrap();
    assert_eq!(read.get("status").unwrap().as_u64(), Some(0));
    assert_eq!(read.get("data").unwrap().get(0).unwrap().as_u64(), Some(65535));
    assert_eq!(read.get("data").unwrap().get(1).unwrap().as_u64(), Some(0));
    assert_eq!(read.as_object().unwrap().len(), 2);
}
