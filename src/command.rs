//! The line commands that change the list: `add`, `edit`, `delete`, and the
//! dispatch from a typed line to one of them.
use vstd::prelude::*;
use crate::item::{State, TodoItem, ItemView, items_view};
use crate::text::{trimmed, trim_str, join_words, index_value, parse_index, same_text, views_of, split_text, split_on, join_from};

verus! {

/// The help page that a command asks for.
#[derive(Clone, Copy, Debug, PartialEq, Eq, Structural)]
pub enum Topic {
    All,
    Add,
    Edit,
    Delete,
}

/// What the interactive loop does after a command.
#[derive(Clone, Copy, Debug, PartialEq, Eq, Structural)]
pub enum Outcome {
    /// The command was carried out; show the list again.
    Done,
    /// Show the help of the topic and wait for a line.
    Help(Topic),
    /// Stop the loop and save.
    Quit,
}

/// The trimmed `i`-th word of a command.
pub open spec fn word(args: Seq<Seq<char>>, i: int) -> Seq<char> {
    trimmed(args[i])
}

/// The help topic that the words of a `help` command name.
pub open spec fn help_topic_of(args: Seq<Seq<char>>) -> Topic {
    if args.len() > 1 {
        let w = word(args, 1);
        if w == "add"@ {
            Topic::Add
        } else if w == "edit"@ {
            Topic::Edit
        } else if w == "delete"@ {
            Topic::Delete
        } else {
            Topic::All
        }
    } else {
        Topic::All
    }
}

/// Picks the help topic named by the second word of a `help` command.
pub fn help_topic(args: &Vec<&str>) -> (r: Topic)
    ensures
        r == help_topic_of(views_of(args@)),
{
    if args.len() > 1 {
        let w = trim_str(args[1]);
        if same_text(w, "add") {
            Topic::Add
        } else if same_text(w, "edit") {
            Topic::Edit
        } else if same_text(w, "delete") {
            Topic::Delete
        } else {
            Topic::All
        }
    } else {
        Topic::All
    }
}

/// The entry that `add` appends: a `Normal` entry whose text is the words
/// after the command, joined by spaces and trimmed.
pub open spec fn added_item(args: Seq<Seq<char>>) -> ItemView {
    ItemView { state: State::Normal, text: trimmed(join_words(args.subrange(1, args.len() as int))) }
}

/// What `add` returns and leaves of the list.
pub open spec fn add_effect(args: Seq<Seq<char>>, v: Seq<ItemView>) -> (Outcome, Seq<ItemView>) {
    if args.len() > 1 {
        (Outcome::Done, v.push(added_item(args)))
    } else {
        (Outcome::Help(Topic::Add), v)
    }
}

/// Appends a `Normal` entry made of the words after the command; without
/// such words, asks for the help of `add` and leaves the list alone.
pub fn add(args: &Vec<&str>, items: &mut Vec<TodoItem>) -> (r: Outcome)
    ensures
        (r, items_view(final(items)@)) == add_effect(views_of(args@), items_view(old(items)@)),
{
    if args.len() > 1 {
        let joined = join_from(args, 1);
        let text = String::from_str(trim_str(joined.as_str()));
        let item = TodoItem { state: State::Normal, text };
        items.push(item);
        proof {
            assert(items_view(items@) =~= items_view(old(items)@).push(item@));
        }
        return Outcome::Done;
    }
    Outcome::Help(Topic::Add)
}

/// The position that a command's second word names, when it reads as an
/// index into a list of `len` entries.
pub open spec fn index_in(args: Seq<Seq<char>>, len: nat) -> Option<usize> {
    if args.len() > 1 {
        match index_value(word(args, 1)) {
            Some(k) => if k < len {
                Some(k)
            } else {
                None
            },
            None => None,
        }
    } else {
        None
    }
}

/// What `delete` returns and leaves of the list.
pub open spec fn delete_effect(args: Seq<Seq<char>>, v: Seq<ItemView>) -> (Outcome, Seq<ItemView>) {
    match index_in(args, v.len()) {
        Some(k) => (Outcome::Done, v.update(k as int, ItemView { state: State::Deleted, text: v[k as int].text })),
        None => (Outcome::Help(Topic::Delete), v),
    }
}

/// Marks the entry at the index given after the command as deleted; an
/// index that is missing, malformed or out of range asks for the help of
/// `delete` instead and leaves the list alone.
pub fn delete(args: &Vec<&str>, items: &mut Vec<TodoItem>) -> (r: Outcome)
    ensures
        (r, items_view(final(items)@)) == delete_effect(views_of(args@), items_view(old(items)@)),
{
    if args.len() > 1 {
        match parse_index(trim_str(args[1])) {
            Some(k) => {
                if k < items.len() {
                    let text = items[k].text.clone();
                    let item = TodoItem { state: State::Deleted, text };
                    items.set(k, item);
                    proof {
                        assert(items_view(items@) =~= items_view(old(items)@).update(k as int, item@));
                    }
                    return Outcome::Done;
                }
            },
            None => {},
        }
    }
    Outcome::Help(Topic::Delete)
}

/// The status that an `edit -s` code stands for.
pub open spec fn state_code(w: Seq<char>) -> Option<State> {
    if w == "1"@ {
        Some(State::Normal)
    } else if w == "2"@ {
        Some(State::InProgress)
    } else if w == "3"@ {
        Some(State::Finished)
    } else if w == "4"@ {
        Some(State::Closed)
    } else {
        None
    }
}

/// Reads an `edit -s` code.
pub fn read_state_code(w: &str) -> (r: Option<State>)
    ensures
        r == state_code(w@),
{
    if same_text(w, "1") {
        Some(State::Normal)
    } else if same_text(w, "2") {
        Some(State::InProgress)
    } else if same_text(w, "3") {
        Some(State::Finished)
    } else if same_text(w, "4") {
        Some(State::Closed)
    } else {
        None
    }
}

/// The text that a `-t` collects from position `k` on: each trimmed word
/// followed by a space, up to the next `-s` or the end.
pub open spec fn text_after(args: Seq<Seq<char>>, k: int) -> Seq<char>
    decreases args.len() - k,
{
    if k < 0 || k >= args.len() || word(args, k) == "-s"@ {
        Seq::empty()
    } else {
        word(args, k) + seq![' '] + text_after(args, k + 1)
    }
}

/// The text that every `-t` among the first `i` words collects.
pub open spec fn text_upto(args: Seq<Seq<char>>, i: int) -> Seq<char>
    decreases i,
{
    if i <= 0 {
        Seq::empty()
    } else {
        text_upto(args, i - 1) + if word(args, i - 1) == "-t"@ {
            text_after(args, i)
        } else {
            Seq::empty()
        }
    }
}

/// The status that the last `-s` among the first `i` words sets, if any.
pub open spec fn state_upto(args: Seq<Seq<char>>, i: int) -> Option<State>
    decreases i,
{
    if i <= 0 {
        None
    } else if word(args, i - 1) == "-s"@ && i < args.len() {
        state_code(word(args, i))
    } else {
        state_upto(args, i - 1)
    }
}

/// A `-t` is not the last word, and a `-s` is followed by a valid code.
pub open spec fn flag_ok(args: Seq<Seq<char>>, i: int) -> bool {
    &&& word(args, i) == "-t"@ ==> i + 1 < args.len()
    &&& word(args, i) == "-s"@ ==> i + 1 < args.len() && state_code(word(args, i + 1)) is Some
}

/// Every flag of an `edit` command is well formed.
pub open spec fn flags_ok(args: Seq<Seq<char>>) -> bool {
    forall|i: int| 0 <= i < args.len() ==> #[trigger] flag_ok(args, i)
}

/// The entry that an `edit` command changes, when it is valid: it has an
/// index in range, holds `-t` or `-s` as a word, and has well-formed flags.
pub open spec fn edit_target(args: Seq<Seq<char>>, len: nat) -> Option<usize> {
    if (args.contains("-t"@) || args.contains("-s"@)) && flags_ok(args) {
        index_in(args, len)
    } else {
        None
    }
}

/// An entry after a valid `edit`: the collected text, trimmed, replaces the
/// text when some was collected; the last `-s` code replaces the status.
pub open spec fn edited(item: ItemView, args: Seq<Seq<char>>) -> ItemView {
    let t = text_upto(args, args.len() as int);
    ItemView {
        state: match state_upto(args, args.len() as int) {
            Some(s) => s,
            None => item.state,
        },
        text: if t.len() > 0 {
            trimmed(t)
        } else {
            item.text
        },
    }
}

/// What `edit` returns and leaves of the list.
pub open spec fn edit_effect(args: Seq<Seq<char>>, v: Seq<ItemView>) -> (Outcome, Seq<ItemView>) {
    match edit_target(args, v.len()) {
        Some(k) => (Outcome::Done, v.update(k as int, edited(v[k as int], args))),
        None => (Outcome::Help(Topic::Edit), v),
    }
}

/// Whether one of the texts equals `w`.
pub fn contains_text(v: &Vec<&str>, w: &str) -> (r: bool)
    ensures
        r == views_of(v@).contains(w@),
{
    let mut i: usize = 0;
    while i < v.len()
        invariant
            i <= v@.len(),
            forall|j: int| 0 <= j < i ==> v@[j]@ != w@,
        decreases v@.len() - i,
    {
        if same_text(v[i], w) {
            assert(views_of(v@)[i as int] == w@);
            return true;
        }
        i = i + 1;
    }
    assert(!views_of(v@).contains(w@)) by {
        if views_of(v@).contains(w@) {
            let j = choose|j: int| 0 <= j < views_of(v@).len() && views_of(v@)[j] == w@;
            assert(v@[j]@ == w@);
        }
    }
    false
}

/// Appends to `text` what a `-t` at position `i` collects.
fn collect_text(args: &Vec<&str>, i: usize, text: &mut String)
    requires
        i < args@.len(),
    ensures
        final(text)@ == old(text)@ + text_after(views_of(args@), i as int + 1),
{
    let ghost a = views_of(args@);
    let n = args.len();
    let mut k: usize = i + 1;
    let mut stop = false;
    proof {
        assert(old(text)@ + text_after(a, i as int + 1) =~= text@ + text_after(a, k as int));
    }
    while !stop && k < n
        invariant
            n == args@.len(),
            a == views_of(args@),
            i < k <= n,
            old(text)@ + text_after(a, i as int + 1) == text@ + text_after(a, k as int),
            stop ==> k < n && word(a, k as int) == "-s"@,
        decreases n - k + if stop { 0int } else { 1int },
    {
        let w = trim_str(args[k]);
        if same_text(w, "-s") {
            stop = true;
        } else {
            let ghost prev = text@;
            proof {
                reveal_strlit(" ");
            }
            text.append(w);
            text.append(" ");
            assert(prev + text_after(a, k as int) =~= text@ + text_after(a, k as int + 1));
            k = k + 1;
        }
    }
    assert(text_after(a, k as int) =~= Seq::<char>::empty());
    assert(text@ + text_after(a, k as int) =~= text@);
}

/// Changes the text and/or the status of the entry at the index given after
/// the command, as `-t <text...>` and `-s <code>` say. An invalid command
/// asks for the help of `edit` and leaves the list alone.
pub fn edit(args: &Vec<&str>, items: &mut Vec<TodoItem>) -> (r: Outcome)
    ensures
        (r, items_view(final(items)@)) == edit_effect(views_of(args@), items_view(old(items)@)),
{
    let ghost a = views_of(args@);
    let n = args.len();
    if n <= 1 {
        return Outcome::Help(Topic::Edit);
    }
    if !contains_text(args, "-t") && !contains_text(args, "-s") {
        return Outcome::Help(Topic::Edit);
    }
    let k = match parse_index(trim_str(args[1])) {
        Some(k) => k,
        None => {
            return Outcome::Help(Topic::Edit);
        },
    };
    if k >= items.len() {
        return Outcome::Help(Topic::Edit);
    }
    let mut text = String::new();
    let mut state: Option<State> = None;
    let mut i: usize = 0;
    while i < n
        invariant
            n == args@.len(),
            a == views_of(args@),
            i <= n,
            text@ == text_upto(a, i as int),
            state == state_upto(a, i as int),
            forall|j: int| 0 <= j < i ==> #[trigger] flag_ok(a, j),
        decreases n - i,
    {
        proof {
            reveal_strlit("-t");
            reveal_strlit("-s");
        }
        let w = trim_str(args[i]);
        assert(w@ == word(a, i as int));
        if same_text(w, "-t") {
            if i == n - 1 {
                assert(!flag_ok(a, i as int));
                return Outcome::Help(Topic::Edit);
            }
            collect_text(args, i, &mut text);
        } else if same_text(w, "-s") {
            if i == n - 1 {
                assert(!flag_ok(a, i as int));
                return Outcome::Help(Topic::Edit);
            }
            let c = trim_str(args[i + 1]);
            assert(c@ == word(a, i as int + 1));
            match read_state_code(c) {
                Some(s) => {
                    state = Some(s);
                },
                None => {
                    assert(!flag_ok(a, i as int));
                    return Outcome::Help(Topic::Edit);
                },
            }
        }
        proof {
            assert("-t"@ != "-s"@) by {
                assert("-t"@[1] != "-s"@[1]);
            }
            assert(flag_ok(a, i as int));
            assert(state == state_upto(a, i as int + 1));
            assert(text@ =~= text_upto(a, i as int + 1));
        }
        i = i + 1;
    }
    let new_text = if text.as_str().unicode_len() > 0 {
        String::from_str(trim_str(text.as_str()))
    } else {
        items[k].text.clone()
    };
    let new_state = match state {
        Some(s) => s,
        None => items[k].state,
    };
    let item = TodoItem { state: new_state, text: new_text };
    items.set(k, item);
    proof {
        assert(items_view(items@) =~= items_view(old(items)@).update(k as int, item@));
    }
    Outcome::Done
}

/// Whether a trimmed first word names one of the commands.
pub open spec fn is_command_word(w: Seq<char>) -> bool {
    w == "help"@ || w == "add"@ || w == "edit"@ || w == "delete"@ || w == "quit"@
}

/// What a typed line, split into words at single spaces, returns and leaves
/// of the list. A line whose first word names no command asks for all help.
pub open spec fn command_effect(args: Seq<Seq<char>>, v: Seq<ItemView>) -> (Outcome, Seq<ItemView>) {
    let w = word(args, 0);
    if w == "help"@ {
        (Outcome::Help(help_topic_of(args)), v)
    } else if w == "add"@ {
        add_effect(args, v)
    } else if w == "edit"@ {
        edit_effect(args, v)
    } else if w == "delete"@ {
        delete_effect(args, v)
    } else if w == "quit"@ {
        (Outcome::Quit, v)
    } else {
        (Outcome::Help(Topic::All), v)
    }
}

/// Carries out one typed line on the list and says what the loop does next.
pub fn parse_command(command: &str, items: &mut Vec<TodoItem>) -> (r: Outcome)
    ensures
        (r, items_view(final(items)@)) == command_effect(split_on(command@, ' '), items_view(old(items)@)),
        !is_command_word(trimmed(split_on(command@, ' ')[0])) ==> r == Outcome::Help(Topic::All)
            && final(items)@ == old(items)@,
        command@.len() == 0 ==> r == Outcome::Help(Topic::All) && final(items)@ == old(items)@,
{
    let args = split_text(command, ' ');
    let w = trim_str(args[0]);
    assert(w@ == word(split_on(command@, ' '), 0));
    proof {
        if command@.len() == 0 {
            assert(args@[0]@.len() == 0);
            reveal_strlit("help");
            reveal_strlit("add");
            reveal_strlit("edit");
            reveal_strlit("delete");
            reveal_strlit("quit");
        }
    }
    if same_text(w, "help") {
        Outcome::Help(help_topic(&args))
    } else if same_text(w, "add") {
        crate::command::add(&args, items)
    } else if same_text(w, "edit") {
        edit(&args, items)
    } else if same_text(w, "delete") {
        crate::command::delete(&args, items)
    } else if same_text(w, "quit") {
        Outcome::Quit
    } else {
        Outcome::Help(Topic::All)
    }
}

/// `delete` never changes the length of the list; when it succeeds, the
/// entry it names is marked deleted and keeps its text.
pub proof fn lemma_delete_keeps_length(args: Seq<Seq<char>>, v: Seq<ItemView>)
    ensures
        delete_effect(args, v).1.len() == v.len(),
        index_in(args, v.len()) matches Some(k) ==> delete_effect(args, v).1[k as int] == (ItemView {
            state: State::Deleted,
            text: v[k as int].text,
        }),
{
}

/// An `edit` with a `-s` whose code is not one of the four valid ones asks
/// for the help of `edit` and leaves the list unchanged.
pub proof fn lemma_edit_bad_code_changes_nothing(args: Seq<Seq<char>>, v: Seq<ItemView>, i: int)
    requires
        0 <= i,
        i + 1 < args.len(),
        word(args, i) == "-s"@,
        state_code(word(args, i + 1)) is None,
    ensures
        edit_effect(args, v) == (Outcome::Help(Topic::Edit), v),
{
    assert(!flag_ok(args, i));
}

} // verus!
