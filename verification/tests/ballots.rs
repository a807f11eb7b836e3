use live_poll::message::{ballot_from, read_ballot, Ballot};

fn malformed(text: &str) -> String {
    match read_ballot(text) {
        Ballot::Malformed(message) => message,
        other => panic!("{:?}", other),
    }
}

#[test]
fn ballot_with_a_choice() {
    assert!(matches!(read_ballot("{\"poll\":0}"), Ballot::Choice(0)));
    assert!(matches!(read_ballot(" { \"poll\" : 7 } "), Ballot::Choice(7)));
    assert!(matches!(read_ballot("{\"a\":[1],\"poll\":3,\"b\":null}"), Ballot::Choice(3)));
    assert!(matches!(
        read_ballot("{\"poll\":18446744073709551615}"),
        Ballot::Choice(u64::MAX)
    ));
}

#[test]
fn last_of_repeated_fields_counts() {
    assert!(matches!(read_ballot("{\"poll\":1,\"poll\":2}"), Ballot::Choice(2)));
}

#[test]
fn ballot_without_the_field() {
    assert!(matches!(read_ballot("{}"), Ballot::NoPollField));
    assert!(matches!(read_ballot("{\"vote\":1}"), Ballot::NoPollField));
    assert!(matches!(read_ballot("{\"inner\":{\"poll\":1}}"), Ballot::NoPollField));
    assert!(matches!(read_ballot("[1]"), Ballot::NoPollField));
    assert!(matches!(read_ballot("1"), Ballot::NoPollField));
    assert!(matches!(read_ballot("\"poll\""), Ballot::NoPollField));
    assert!(matches!(read_ballot("null"), Ballot::NoPollField));
}

#[test]
fn ballot_with_something_else_in_the_field() {
    assert!(matches!(read_ballot("{\"poll\":-1}"), Ballot::NotAnInteger));
    assert!(matches!(read_ballot("{\"poll\":1.0}"), Ballot::NotAnInteger));
    assert!(matches!(read_ballot("{\"poll\":\"1\"}"), Ballot::NotAnInteger));
    assert!(matches!(read_ballot("{\"poll\":null}"), Ballot::NotAnInteger));
    assert!(matches!(read_ballot("{\"poll\":[1]}"), Ballot::NotAnInteger));
    assert!(matches!(read_ballot("{\"poll\":18446744073709551616}"), Ballot::NotAnInteger));
}

#[test]
fn malformed_ballot_says_why() {
    assert_eq!(malformed(""), "EOF while parsing a value at line 1 column 0");
    assert_eq!(malformed("{\"poll\":1} x"), "trailing characters at line 1 column 12");
    assert_eq!(malformed("poll"), "expected value at line 1 column 1");
}

#[test]
fn ballot_from_a_document() {
    let mut fields = serde_json::Map::new();
    fields.insert("poll".to_string(), serde_json::Value::from(5u64));
    assert!(matches!(ballot_from(Ok(serde_json::Value::from(fields))), Ballot::Choice(5)));
    assert!(matches!(ballot_from(Ok(serde_json::Value::Null)), Ballot::NoPollField));
}

#[test]
fn ballot_from_an_error() {
    match ballot_from(Err("no document".to_string())) {
        Ballot::Malformed(text) => assert_eq!(text, "no document"),
        other => panic!("{:?}", other),
    }
}
