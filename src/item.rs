//! One todo entry and its one-line storage format.
use vstd::prelude::*;

verus! {

/// The status of a todo entry.
///
/// `Deleted` marks an entry for removal at the next save; it is also what a
/// stored line without a recognised sigil reads as.
#[derive(Clone, Copy, Debug, PartialEq, Eq, Structural)]
pub enum State {
    InProgress,
    Finished,
    Closed,
    Normal,
    Deleted,
}

/// A todo entry: its status and its free text.
#[derive(Debug)]
pub struct TodoItem {
    pub state: State,
    pub text: String,
}

/// The mathematical value of an entry.
pub struct ItemView {
    pub state: State,
    pub text: Seq<char>,
}

impl View for TodoItem {
    type V = ItemView;

    open spec fn view(&self) -> ItemView {
        ItemView { state: self.state, text: self.text@ }
    }
}

/// The status that a leading sigil stands for.
pub open spec fn state_of_sigil(c: char) -> State {
    if c == '?' {
        State::InProgress
    } else if c == '!' {
        State::Finished
    } else if c == '-' {
        State::Closed
    } else if c == '.' {
        State::Normal
    } else {
        State::Deleted
    }
}

/// The sigil written in front of an entry of the given status, if any.
pub open spec fn sigil_of(s: State) -> Option<char> {
    match s {
        State::InProgress => Some('?'),
        State::Finished => Some('!'),
        State::Closed => Some('-'),
        State::Normal => Some('.'),
        State::Deleted => None,
    }
}

/// The entry that a stored line reads as: the status of its first character
/// and the rest of the line as text.
pub open spec fn parse_line(line: Seq<char>) -> ItemView
    recommends
        line.len() > 0,
{
    ItemView { state: state_of_sigil(line[0]), text: line.subrange(1, line.len() as int) }
}

/// The stored line of an entry: its sigil, if it has one, then its text.
pub open spec fn format_line(item: ItemView) -> Seq<char> {
    match sigil_of(item.state) {
        Some(c) => seq![c] + item.text,
        None => item.text,
    }
}

/// Whether `c` is one of the four status sigils.
pub open spec fn is_sigil(c: char) -> bool {
    c == '?' || c == '!' || c == '-' || c == '.'
}

/// Reads a stored line as an entry; the line must not be empty.
pub fn serialize_todo(line: String) -> (r: TodoItem)
    requires
        line@.len() > 0,
    ensures
        r@ == parse_line(line@),
{
    let s = line.as_str();
    let n = s.unicode_len();
    let c = s.get_char(0);
    let state = if c == '?' {
        State::InProgress
    } else if c == '!' {
        State::Finished
    } else if c == '-' {
        State::Closed
    } else if c == '.' {
        State::Normal
    } else {
        State::Deleted
    };
    let text = String::from_str(s.substring_char(1, n));
    TodoItem { state, text }
}

/// Writes an entry as its stored line.
pub fn deserialize_todo(item: &TodoItem) -> (r: String)
    ensures
        r@ == format_line(item@),
{
    let prefix = match item.state {
        State::InProgress => "?",
        State::Finished => "!",
        State::Closed => "-",
        State::Normal => ".",
        State::Deleted => "",
    };
    proof {
        reveal_strlit("?");
        reveal_strlit("!");
        reveal_strlit("-");
        reveal_strlit(".");
        reveal_strlit("");
    }
    let r = String::from_str(prefix).concat(item.text.as_str());
    proof {
        assert(r@ =~= format_line(item@));
    }
    r
}

/// A stored line with a recognised sigil reads back to itself.
pub proof fn lemma_line_round_trip(line: Seq<char>)
    requires
        line.len() > 0,
        is_sigil(line[0]),
    ensures
        format_line(parse_line(line)) == line,
{
    assert(format_line(parse_line(line)) =~= line);
}

/// An entry with a status other than `Deleted` reads back from its stored line.
pub proof fn lemma_item_round_trip(item: ItemView)
    requires
        item.state != State::Deleted,
    ensures
        parse_line(format_line(item)) == item,
{
    let l = format_line(item);
    assert(l.subrange(1, l.len() as int) =~= item.text);
}

/// The views of a list of entries.
pub open spec fn items_view(v: Seq<TodoItem>) -> Seq<ItemView> {
    v.map_values(|t: TodoItem| t@)
}

} // verus!
