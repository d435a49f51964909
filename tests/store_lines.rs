use tasklist::item::{State, TodoItem};
use tasklist::store::{load_items, save_lines};

fn item(state: State, text: &str) -> TodoItem {
    TodoItem { state, text: text.to_string() }
}

#[test]
fn load_skips_blank_lines() {
    let items = load_items("?task one\n.task two\n\n-task three\n");
    assert_eq!(items.len(), 3);
    assert_eq!(items[0].state, State::InProgress);
    assert_eq!(items[0].text, "task one");
    assert_eq!(items[1].state, State::Normal);
    assert_eq!(items[1].text, "task two");
    assert_eq!(items[2].state, State::Closed);
    assert_eq!(items[2].text, "task three");
}

#[test]
fn load_empty_content() {
    assert!(load_items("").is_empty());
    assert!(load_items("\n\n").is_empty());
}

#[test]
fn load_strips_carriage_return() {
    let items = load_items(".a\r\n!b\r\n");
    assert_eq!(items.len(), 2);
    assert_eq!(items[0].text, "a");
    assert_eq!(items[1].state, State::Finished);
    assert_eq!(items[1].text, "b");
}

#[test]
fn load_last_line_without_newline() {
    let items = load_items(".a\n?b");
    assert_eq!(items.len(), 2);
    assert_eq!(items[1].state, State::InProgress);
    assert_eq!(items[1].text, "b");
}

#[test]
fn save_routes_by_state() {
    let items = vec![
        item(State::Normal, "one"),
        item(State::Closed, "two"),
        item(State::Deleted, "three"),
        item(State::InProgress, "four"),
        item(State::Closed, "five"),
        item(State::Finished, "six"),
    ];
    let (primary, archive) = save_lines(&items);
    assert_eq!(primary, vec![".one".to_string(), "?four".to_string(), "!six".to_string()]);
    assert_eq!(archive, vec!["-two".to_string(), "-five".to_string()]);
}

#[test]
fn save_closed_goes_to_archive_once() {
    let items = vec![item(State::Closed, "x")];
    let (primary, archive) = save_lines(&items);
    assert!(primary.is_empty());
    assert_eq!(archive, vec!["-x".to_string()]);
}

#[test]
fn save_deleted_goes_nowhere() {
    let items = vec![item(State::Deleted, "gone"), item(State::Deleted, "also")];
    let (primary, archive) = save_lines(&items);
    assert!(primary.is_empty());
    assert!(archive.is_empty());
}

#[test]
fn load_then_save_keeps_active_lines() {
    let items = load_items("?a\n.b\n-c\n");
    let (primary, archive) = save_lines(&items);
    assert_eq!(primary, vec!["?a".to_string(), ".b".to_string()]);
    assert_eq!(archive, vec!["-c".to_string()]);
}
