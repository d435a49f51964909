use tasklist::help::help_pages;
use tasklist::command::Topic;
use tasklist::item::{State, TodoItem};
use tasklist::render::{decimal_text, output_todo_items};

fn item(state: State, text: &str) -> TodoItem {
    TodoItem { state, text: text.to_string() }
}

#[test]
fn decimal_numbers() {
    assert_eq!(decimal_text(0), "0");
    assert_eq!(decimal_text(7), "7");
    assert_eq!(decimal_text(10), "10");
    assert_eq!(decimal_text(1203), "1203");
    assert_eq!(decimal_text(usize::MAX), usize::MAX.to_string());
}

#[test]
fn render_each_state() {
    let items = vec![
        item(State::InProgress, "a"),
        item(State::Finished, "b"),
        item(State::Closed, "c"),
        item(State::Normal, "d"),
        item(State::Deleted, "e"),
    ];
    let lines = output_todo_items(&items, true);
    assert_eq!(lines, vec![
        "0) \x1b[33m[?] a\x1b[0m".to_string(),
        "1) \x1b[32m[!] \x1b[9mb\x1b[0m".to_string(),
        "2) \x1b[90m[#] \x1b[9mc\x1b[0m".to_string(),
        "3) [-] d".to_string(),
        "4) [DELETED] \x1b[9me\x1b[0m".to_string(),
    ]);
}

#[test]
fn render_hides_closed_keeping_numbers() {
    let items = vec![item(State::Closed, "c"), item(State::Normal, "d")];
    let lines = output_todo_items(&items, false);
    assert_eq!(lines, vec!["1) [-] d".to_string()]);
}

#[test]
fn help_pages_in_order() {
    let all = help_pages(Topic::All);
    assert_eq!(all.len(), 4);
    assert!(all[0].starts_with("help <arg>"));
    assert!(all[1].starts_with("add <arg>"));
    assert!(all[2].starts_with("edit <arg>"));
    assert!(all[3].starts_with("delete <arg>"));
    let one = help_pages(Topic::Edit);
    assert_eq!(one.len(), 1);
    assert!(one[0].contains("(3||FINSHED)"));
}
