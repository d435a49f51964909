//! The lines that show the list on an ANSI terminal.
use vstd::prelude::*;
use crate::item::{State, TodoItem, ItemView, items_view};
use crate::text::strings_view;

verus! {

/// The decimal digit of a value below ten.
pub open spec fn digit(d: nat) -> char {
    if d == 0 {
        '0'
    } else if d == 1 {
        '1'
    } else if d == 2 {
        '2'
    } else if d == 3 {
        '3'
    } else if d == 4 {
        '4'
    } else if d == 5 {
        '5'
    } else if d == 6 {
        '6'
    } else if d == 7 {
        '7'
    } else if d == 8 {
        '8'
    } else {
        '9'
    }
}

/// The decimal numeral of `n`, without leading zeros.
pub open spec fn decimal(n: nat) -> Seq<char>
    decreases n,
{
    if n < 10 {
        seq![digit(n)]
    } else {
        decimal(n / 10).push(digit(n % 10))
    }
}

fn digit_text(d: usize) -> (r: &'static str)
    requires
        d < 10,
    ensures
        r@ == seq![digit(d as nat)],
{
    proof {
        reveal_strlit("0");
        reveal_strlit("1");
        reveal_strlit("2");
        reveal_strlit("3");
        reveal_strlit("4");
        reveal_strlit("5");
        reveal_strlit("6");
        reveal_strlit("7");
        reveal_strlit("8");
        reveal_strlit("9");
    }
    let r = if d == 0 {
        "0"
    } else if d == 1 {
        "1"
    } else if d == 2 {
        "2"
    } else if d == 3 {
        "3"
    } else if d == 4 {
        "4"
    } else if d == 5 {
        "5"
    } else if d == 6 {
        "6"
    } else if d == 7 {
        "7"
    } else if d == 8 {
        "8"
    } else {
        "9"
    };
    assert(r@ =~= seq![digit(d as nat)]);
    r
}

/// Writes `n` in decimal.
pub fn decimal_text(n: usize) -> (r: String)
    ensures
        r@ == decimal(n as nat),
    decreases n,
{
    if n < 10 {
        String::from_str(digit_text(n))
    } else {
        let mut s = decimal_text(n / 10);
        s.append(digit_text(n % 10));
        assert(s@ =~= decimal(n as nat));
        s
    }
}

/// The line that shows entry `item` at position `i`.
pub open spec fn item_line(i: nat, item: ItemView) -> Seq<char> {
    let head = decimal(i) + ") "@;
    match item.state {
        State::InProgress => head + "\x1b[33m"@ + "[?] "@ + item.text + "\x1b[0m"@,
        State::Finished => head + "\x1b[32m"@ + "[!] "@ + "\x1b[9m"@ + item.text + "\x1b[0m"@,
        State::Closed => head + "\x1b[90m"@ + "[#] "@ + "\x1b[9m"@ + item.text + "\x1b[0m"@,
        State::Normal => head + "[-] "@ + item.text,
        State::Deleted => head + "[DELETED] "@ + "\x1b[9m"@ + item.text + "\x1b[0m"@,
    }
}

/// Whether an entry is shown: closed ones only when asked for.
pub open spec fn shown(item: ItemView, show_closed: bool) -> bool {
    item.state != State::Closed || show_closed
}

/// The lines that show the first `i` entries, each numbered by its position
/// in the whole list.
pub open spec fn render_upto(v: Seq<ItemView>, show_closed: bool, i: int) -> Seq<Seq<char>>
    decreases i,
{
    if i <= 0 {
        Seq::empty()
    } else {
        render_upto(v, show_closed, i - 1) + if shown(v[i - 1], show_closed) {
            seq![item_line((i - 1) as nat, v[i - 1])]
        } else {
            Seq::empty()
        }
    }
}

/// Writes the line that shows entry `item` at position `i`.
pub fn item_text(i: usize, item: &TodoItem) -> (r: String)
    ensures
        r@ == item_line(i as nat, item@),
{
    let mut s = decimal_text(i);
    s.append(") ");
    let t = item.text.as_str();
    match item.state {
        State::InProgress => {
            s.append("\x1b[33m");
            s.append("[?] ");
            s.append(t);
            s.append("\x1b[0m");
        },
        State::Finished => {
            s.append("\x1b[32m");
            s.append("[!] ");
            s.append("\x1b[9m");
            s.append(t);
            s.append("\x1b[0m");
        },
        State::Closed => {
            s.append("\x1b[90m");
            s.append("[#] ");
            s.append("\x1b[9m");
            s.append(t);
            s.append("\x1b[0m");
        },
        State::Normal => {
            s.append("[-] ");
            s.append(t);
        },
        State::Deleted => {
            s.append("[DELETED] ");
            s.append("\x1b[9m");
            s.append(t);
            s.append("\x1b[0m");
        },
    }
    assert(s@ =~= item_line(i as nat, item@));
    s
}

/// The lines that show the list, in order; closed entries are left out
/// unless `closed` is set, and every line keeps the entry's position.
pub fn output_todo_items(items: &Vec<TodoItem>, closed: bool) -> (r: Vec<String>)
    ensures
        strings_view(r@) == render_upto(items_view(items@), closed, items@.len() as int),
{
    let ghost v = items_view(items@);
    let mut out: Vec<String> = Vec::new();
    let mut i: usize = 0;
    proof {
        assert(strings_view(out@) =~= Seq::<Seq<char>>::empty());
    }
    while i < items.len()
        invariant
            v == items_view(items@),
            i <= items@.len(),
            strings_view(out@) == render_upto(v, closed, i as int),
        decreases items@.len() - i,
    {
        let item = &items[i];
        assert(v[i as int] == item@);
        let ghost prev = out@;
        if closed || item.state != State::Closed {
            let line = item_text(i, item);
            out.push(line);
            assert(strings_view(out@) =~= strings_view(prev).push(line@));
        }
        assert(strings_view(out@) =~= render_upto(v, closed, i as int + 1));
        i = i + 1;
    }
    out
}

} // verus!
