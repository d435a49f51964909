//! The help pages of the commands.
use vstd::prelude::*;
use crate::command::Topic;

verus! {

/// The help page of one topic; the page of `All` describes `help` itself.
pub open spec fn help_text(t: Topic) -> Seq<char> {
    match t {
        Topic::All => "help <arg>\n\thelp : prints this output\n\thelp add : prints help for the `add` command\n\thelp edit : prints help for the `edit` command\n\thelp delete : prints help for the `delete` command"@,
        Topic::Add => "add <arg>\n\tadd : prints the help page for this command\n\t<arg> : the description for the todo"@,
        Topic::Edit => "edit <arg> <flags>\n\tedit : prints the help page for this command\n\t<arg> : the todo index\n\t<flags>\n\t\t-t : the todo text\n\t\t-s : the todo state \n\t\t(1||NORMAL)\n\t\t(2||INPROG)\n\t\t(3||FINSHED)\n\t\t(4||CLOSED)"@,
        Topic::Delete => "delete <arg>\n\tdelete : prints the help page for this command\n\t<arg> : the todo index"@,
    }
}

/// The pages that the help of a topic shows, in order: for `All`, the
/// pages of `help`, `add`, `edit` and `delete`; otherwise that topic's page.
pub open spec fn help_pages_of(t: Topic) -> Seq<Seq<char>> {
    match t {
        Topic::All => seq![
            help_text(Topic::All),
            help_text(Topic::Add),
            help_text(Topic::Edit),
            help_text(Topic::Delete),
        ],
        _ => seq![help_text(t)],
    }
}

/// The help page of one topic.
pub fn topic_text(t: Topic) -> (r: &'static str)
    ensures
        r@ == help_text(t),
{
    match t {
        Topic::All => "help <arg>\n\thelp : prints this output\n\thelp add : prints help for the `add` command\n\thelp edit : prints help for the `edit` command\n\thelp delete : prints help for the `delete` command",
        Topic::Add => "add <arg>\n\tadd : prints the help page for this command\n\t<arg> : the description for the todo",
        Topic::Edit => "edit <arg> <flags>\n\tedit : prints the help page for this command\n\t<arg> : the todo index\n\t<flags>\n\t\t-t : the todo text\n\t\t-s : the todo state \n\t\t(1||NORMAL)\n\t\t(2||INPROG)\n\t\t(3||FINSHED)\n\t\t(4||CLOSED)",
        Topic::Delete => "delete <arg>\n\tdelete : prints the help page for this command\n\t<arg> : the todo index",
    }
}

/// The pages to show for a topic, in a fixed order.
pub fn help_pages(t: Topic) -> (r: Vec<&'static str>)
    ensures
        r@.map_values(|s: &str| s@) == help_pages_of(t),
{
    let mut out: Vec<&'static str> = Vec::new();
    match t {
        Topic::All => {
            out.push(topic_text(Topic::All));
            out.push(topic_text(Topic::Add));
            out.push(topic_text(Topic::Edit));
            out.push(topic_text(Topic::Delete));
        },
        _ => {
            out.push(topic_text(t));
        },
    }
    assert(out@.map_values(|s: &str| s@) =~= help_pages_of(t));
    out
}

} // verus!
