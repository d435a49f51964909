use tasklist::command::{add, delete, edit, help_topic, parse_command, Outcome, Topic};
use tasklist::item::{State, TodoItem};

fn item(state: State, text: &str) -> TodoItem {
    TodoItem { state, text: text.to_string() }
}

fn one_item() -> Vec<TodoItem> {
    vec![item(State::Normal, "old text")]
}

#[test]
fn add_joins_words() {
    let mut items = one_item();
    let r = add(&vec!["add", "hello", "world"], &mut items);
    assert_eq!(r, Outcome::Done);
    assert_eq!(items.len(), 2);
    assert_eq!(items[1].state, State::Normal);
    assert_eq!(items[1].text, "hello world");
}

#[test]
fn add_trims_the_text() {
    let mut items = Vec::new();
    let r = parse_command("add  buy milk\n", &mut items);
    assert_eq!(r, Outcome::Done);
    assert_eq!(items[0].text, "buy milk");
}

#[test]
fn add_without_text_asks_for_help() {
    let mut items = one_item();
    assert_eq!(add(&vec!["add"], &mut items), Outcome::Help(Topic::Add));
    assert_eq!(items.len(), 1);
}

#[test]
fn edit_text_and_state() {
    let mut items = one_item();
    let r = parse_command("edit 0 -t new text -s 3", &mut items);
    assert_eq!(r, Outcome::Done);
    assert_eq!(items[0].text, "new text");
    assert_eq!(items[0].state, State::Finished);
}

#[test]
fn edit_state_codes() {
    let codes = [("1", State::Normal), ("2", State::InProgress), ("3", State::Finished), ("4", State::Closed)];
    for (code, state) in codes {
        let mut items = vec![item(State::Deleted, "t")];
        assert_eq!(edit(&vec!["edit", "0", "-s", code], &mut items), Outcome::Done);
        assert_eq!(items[0].state, state);
        assert_eq!(items[0].text, "t");
    }
}

#[test]
fn edit_invalid_code_changes_nothing() {
    let mut items = one_item();
    let r = parse_command("edit 0 -s 9", &mut items);
    assert_eq!(r, Outcome::Help(Topic::Edit));
    assert_eq!(items[0].text, "old text");
    assert_eq!(items[0].state, State::Normal);
}

#[test]
fn edit_only_text() {
    let mut items = one_item();
    assert_eq!(parse_command("edit 0 -t fresh words\n", &mut items), Outcome::Done);
    assert_eq!(items[0].text, "fresh words");
    assert_eq!(items[0].state, State::Normal);
}

#[test]
fn edit_rejects_bad_input() {
    for line in ["edit", "edit 0", "edit x -s 1", "edit 1 -s 1", "edit -1 -s 1", "edit 0 -t", "edit 0 -s", "edit 0 -s 1 -s 5"] {
        let mut items = one_item();
        assert_eq!(parse_command(line, &mut items), Outcome::Help(Topic::Edit), "{}", line);
        assert_eq!(items[0].text, "old text");
        assert_eq!(items[0].state, State::Normal);
    }
}

#[test]
fn edit_on_empty_list_asks_for_help() {
    let mut items: Vec<TodoItem> = Vec::new();
    assert_eq!(parse_command("edit 0 -s 1", &mut items), Outcome::Help(Topic::Edit));
    assert!(items.is_empty());
}

#[test]
fn edit_last_code_wins() {
    let mut items = one_item();
    assert_eq!(parse_command("edit 0 -s 2 -s 4", &mut items), Outcome::Done);
    assert_eq!(items[0].state, State::Closed);
}

#[test]
fn edit_plus_sign_index() {
    let mut items = one_item();
    assert_eq!(parse_command("edit +0 -s 2", &mut items), Outcome::Done);
    assert_eq!(items[0].state, State::InProgress);
}

#[test]
fn delete_marks_item() {
    let mut items = vec![item(State::Normal, "a"), item(State::Finished, "b")];
    assert_eq!(parse_command("delete 0", &mut items), Outcome::Done);
    assert_eq!(items.len(), 2);
    assert_eq!(items[0].state, State::Deleted);
    assert_eq!(items[0].text, "a");
    assert_eq!(items[1].state, State::Finished);
}

#[test]
fn delete_rejects_bad_index() {
    for line in ["delete", "delete x", "delete 5"] {
        let mut items = one_item();
        assert_eq!(parse_command(line, &mut items), Outcome::Help(Topic::Delete), "{}", line);
        assert_eq!(items[0].state, State::Normal);
    }
    let mut items = one_item();
    assert_eq!(delete(&vec!["delete", "0\n"], &mut items), Outcome::Done);
    assert_eq!(items[0].state, State::Deleted);
}

#[test]
fn empty_or_unknown_line_is_help() {
    for line in ["", "\n", "bogus", "bogus add", "  "] {
        let mut items = one_item();
        assert_eq!(parse_command(line, &mut items), Outcome::Help(Topic::All), "{:?}", line);
        assert_eq!(items.len(), 1);
    }
}

#[test]
fn help_topics() {
    let mut items = one_item();
    assert_eq!(parse_command("help", &mut items), Outcome::Help(Topic::All));
    assert_eq!(parse_command("help add\n", &mut items), Outcome::Help(Topic::Add));
    assert_eq!(parse_command("help edit", &mut items), Outcome::Help(Topic::Edit));
    assert_eq!(parse_command("help delete", &mut items), Outcome::Help(Topic::Delete));
    assert_eq!(parse_command("help nothing", &mut items), Outcome::Help(Topic::All));
    assert_eq!(help_topic(&vec!["help", " add "]), Topic::Add);
}

#[test]
fn quit_stops() {
    let mut items = one_item();
    assert_eq!(parse_command("quit\n", &mut items), Outcome::Quit);
    assert_eq!(items.len(), 1);
}
