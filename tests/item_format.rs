use tasklist::item::{deserialize_todo, serialize_todo, State, TodoItem};

#[test]
fn parse_each_sigil() {
    let cases = [
        ("?a", State::InProgress),
        ("!a", State::Finished),
        ("-a", State::Closed),
        (".a", State::Normal),
        ("xa", State::Deleted),
    ];
    for (line, state) in cases {
        let item = serialize_todo(line.to_string());
        assert_eq!(item.state, state);
        assert_eq!(item.text, "a");
    }
}

#[test]
fn unrecognised_sigil_is_dropped() {
    let item = serialize_todo("hello".to_string());
    assert_eq!(item.state, State::Deleted);
    assert_eq!(item.text, "ello");
}

#[test]
fn format_each_state() {
    let mk = |state| TodoItem { state, text: "buy milk".to_string() };
    assert_eq!(deserialize_todo(&mk(State::InProgress)), "?buy milk");
    assert_eq!(deserialize_todo(&mk(State::Finished)), "!buy milk");
    assert_eq!(deserialize_todo(&mk(State::Closed)), "-buy milk");
    assert_eq!(deserialize_todo(&mk(State::Normal)), ".buy milk");
    assert_eq!(deserialize_todo(&mk(State::Deleted)), "buy milk");
}

#[test]
fn round_trip_recognised_sigils() {
    for line in ["?task one", "!done", "-old thing", ".plain", "?ünïcode text"] {
        let item = serialize_todo(line.to_string());
        assert_eq!(deserialize_todo(&item), line);
    }
}

#[test]
fn sigil_only_line_has_empty_text() {
    let item = serialize_todo(".".to_string());
    assert_eq!(item.state, State::Normal);
    assert_eq!(item.text, "");
}
