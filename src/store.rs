//! Reading the primary store into entries, and splitting the entries between
//! the primary store and the archive on save.
use vstd::prelude::*;
use crate::item::{State, TodoItem, ItemView, items_view, parse_line, format_line, serialize_todo, deserialize_todo};
use crate::text::{split_on, split_text, views_of, strings_view};

verus! {

/// The `i`-th line of a text split at line feeds, without the carriage
/// return that ends a line before its line feed.
pub open spec fn stored_line(pieces: Seq<Seq<char>>, i: int) -> Seq<char> {
    let p = pieces[i];
    if i + 1 < pieces.len() && p.len() > 0 && p.last() == '\r' {
        p.drop_last()
    } else {
        p
    }
}

/// The entries that the first `i` lines read as; blank lines are skipped.
pub open spec fn load_upto(pieces: Seq<Seq<char>>, i: int) -> Seq<ItemView>
    decreases i,
{
    if i <= 0 {
        Seq::empty()
    } else {
        let l = stored_line(pieces, i - 1);
        load_upto(pieces, i - 1) + if l.len() > 0 {
            seq![parse_line(l)]
        } else {
            Seq::empty()
        }
    }
}

/// The entries that the content of the primary store reads as.
pub open spec fn load_spec(content: Seq<char>) -> Seq<ItemView> {
    let pieces = split_on(content, '\n');
    load_upto(pieces, pieces.len() as int)
}

/// Reads the content of the primary store: one entry per non-blank line, in
/// order.
pub fn load_items(content: &str) -> (r: Vec<TodoItem>)
    ensures
        items_view(r@) == load_spec(content@),
{
    let pieces = split_text(content, '\n');
    let ghost p = views_of(pieces@);
    let mut out: Vec<TodoItem> = Vec::new();
    let mut i: usize = 0;
    proof {
        assert(items_view(out@) =~= Seq::<ItemView>::empty());
    }
    while i < pieces.len()
        invariant
            p == views_of(pieces@),
            i <= pieces@.len(),
            items_view(out@) == load_upto(p, i as int),
        decreases pieces@.len() - i,
    {
        let piece = pieces[i];
        let n = piece.unicode_len();
        assert(piece@ == p[i as int]);
        let line = if i + 1 < pieces.len() && n > 0 && piece.get_char(n - 1) == '\r' {
            piece.substring_char(0, n - 1)
        } else {
            piece
        };
        assert(line@ =~= stored_line(p, i as int));
        let ghost prev = out@;
        if line.unicode_len() > 0 {
            let item = serialize_todo(String::from_str(line));
            out.push(item);
            assert(items_view(out@) =~= items_view(prev).push(item@));
        }
        assert(items_view(out@) =~= load_upto(p, i as int + 1));
        i = i + 1;
    }
    out
}

/// Whether an entry stays in the primary store on save.
pub open spec fn kept(item: ItemView) -> bool {
    item.state != State::Closed && item.state != State::Deleted
}

/// The lines that a save writes to the primary store, in list order.
pub open spec fn primary_of(v: Seq<ItemView>) -> Seq<Seq<char>>
    decreases v.len(),
{
    if v.len() == 0 {
        Seq::empty()
    } else {
        primary_of(v.drop_last()) + if kept(v.last()) {
            seq![format_line(v.last())]
        } else {
            Seq::empty()
        }
    }
}

/// The lines that a save appends to the archive, in list order.
pub open spec fn archive_of(v: Seq<ItemView>) -> Seq<Seq<char>>
    decreases v.len(),
{
    if v.len() == 0 {
        Seq::empty()
    } else {
        archive_of(v.drop_last()) + if v.last().state == State::Closed {
            seq![format_line(v.last())]
        } else {
            Seq::empty()
        }
    }
}

/// Splits the entries for a save: the lines for the primary store and the
/// lines to append to the archive. Closed entries go to the archive, deleted
/// ones nowhere, all others to the primary store.
pub fn save_lines(items: &Vec<TodoItem>) -> (r: (Vec<String>, Vec<String>))
    ensures
        strings_view(r.0@) == primary_of(items_view(items@)),
        strings_view(r.1@) == archive_of(items_view(items@)),
{
    let ghost v = items_view(items@);
    let mut primary: Vec<String> = Vec::new();
    let mut archive: Vec<String> = Vec::new();
    let mut i: usize = 0;
    proof {
        assert(v.subrange(0, 0) =~= Seq::<ItemView>::empty());
        assert(strings_view(primary@) =~= Seq::<Seq<char>>::empty());
        assert(strings_view(archive@) =~= Seq::<Seq<char>>::empty());
    }
    while i < items.len()
        invariant
            v == items_view(items@),
            i <= items@.len(),
            strings_view(primary@) == primary_of(v.subrange(0, i as int)),
            strings_view(archive@) == archive_of(v.subrange(0, i as int)),
        decreases items@.len() - i,
    {
        let ghost w = v.subrange(0, i as int + 1);
        assert(w.drop_last() =~= v.subrange(0, i as int));
        assert(w.last() == items@[i as int]@);
        let ghost p0 = primary@;
        let ghost a0 = archive@;
        let item = &items[i];
        match item.state {
            State::Closed => {
                archive.push(deserialize_todo(item));
                assert(strings_view(archive@) =~= strings_view(a0).push(format_line(item@)));
                assert(strings_view(primary@) =~= strings_view(p0));
            },
            State::Deleted => {},
            _ => {
                primary.push(deserialize_todo(item));
                assert(strings_view(primary@) =~= strings_view(p0).push(format_line(item@)));
                assert(strings_view(archive@) =~= strings_view(a0));
            },
        }
        assert(strings_view(primary@) =~= primary_of(w));
        assert(strings_view(archive@) =~= archive_of(w));
        i = i + 1;
    }
    assert(v.subrange(0, items@.len() as int) =~= v);
    (primary, archive)
}

/// A save of two lists one after the other writes what each would.
pub proof fn lemma_save_concat(a: Seq<ItemView>, b: Seq<ItemView>)
    ensures
        primary_of(a + b) == primary_of(a) + primary_of(b),
        archive_of(a + b) == archive_of(a) + archive_of(b),
    decreases b.len(),
{
    if b.len() == 0 {
        assert(a + b =~= a);
        assert(primary_of(a) + primary_of(b) =~= primary_of(a));
        assert(archive_of(a) + archive_of(b) =~= archive_of(a));
    } else {
        lemma_save_concat(a, b.drop_last());
        assert((a + b).drop_last() =~= a + b.drop_last());
        assert((a + b).last() == b.last());
        assert(primary_of(a + b) =~= primary_of(a) + primary_of(b));
        assert(archive_of(a + b) =~= archive_of(a) + archive_of(b));
    }
}

/// The lines of a list, split around its `i`-th entry.
proof fn lemma_save_around(v: Seq<ItemView>, i: int)
    requires
        0 <= i < v.len(),
    ensures
        primary_of(v) == primary_of(v.subrange(0, i)) + primary_of(seq![v[i]]) + primary_of(v.subrange(i + 1, v.len() as int)),
        archive_of(v) == archive_of(v.subrange(0, i)) + archive_of(seq![v[i]]) + archive_of(v.subrange(i + 1, v.len() as int)),
{
    let pre = v.subrange(0, i);
    let one = seq![v[i]];
    let post = v.subrange(i + 1, v.len() as int);
    assert(v =~= pre + one + post);
    lemma_save_concat(pre + one, post);
    lemma_save_concat(pre, one);
    assert(one.drop_last() =~= Seq::<ItemView>::empty());
}

/// On save, a closed entry gives exactly one line in the archive, in its
/// place among the other closed entries, and none in the primary store.
pub proof fn lemma_closed_item_archived(v: Seq<ItemView>, i: int)
    requires
        0 <= i < v.len(),
        v[i].state == State::Closed,
    ensures
        archive_of(v) == archive_of(v.subrange(0, i)) + seq![format_line(v[i])] + archive_of(v.subrange(i + 1, v.len() as int)),
        primary_of(v) == primary_of(v.subrange(0, i)) + primary_of(v.subrange(i + 1, v.len() as int)),
{
    lemma_save_around(v, i);
    let one = seq![v[i]];
    assert(one.drop_last() =~= Seq::<ItemView>::empty());
    assert(one.last() == v[i]);
    assert(primary_of(one.drop_last()) =~= Seq::<Seq<char>>::empty());
    assert(archive_of(one.drop_last()) =~= Seq::<Seq<char>>::empty());
    assert(archive_of(one) =~= seq![format_line(v[i])]);
    assert(primary_of(one) =~= Seq::<Seq<char>>::empty());
    assert(primary_of(v.subrange(0, i)) + primary_of(one) =~= primary_of(v.subrange(0, i)));
}

/// On save, a deleted entry is written neither to the primary store nor to
/// the archive.
pub proof fn lemma_deleted_item_dropped(v: Seq<ItemView>, i: int)
    requires
        0 <= i < v.len(),
        v[i].state == State::Deleted,
    ensures
        archive_of(v) == archive_of(v.subrange(0, i)) + archive_of(v.subrange(i + 1, v.len() as int)),
        primary_of(v) == primary_of(v.subrange(0, i)) + primary_of(v.subrange(i + 1, v.len() as int)),
{
    lemma_save_around(v, i);
    let one = seq![v[i]];
    assert(one.drop_last() =~= Seq::<ItemView>::empty());
    assert(one.last() == v[i]);
    assert(primary_of(one.drop_last()) =~= Seq::<Seq<char>>::empty());
    assert(archive_of(one.drop_last()) =~= Seq::<Seq<char>>::empty());
    assert(archive_of(one) =~= Seq::<Seq<char>>::empty());
    assert(primary_of(one) =~= Seq::<Seq<char>>::empty());
    assert(primary_of(v.subrange(0, i)) + primary_of(one) =~= primary_of(v.subrange(0, i)));
    assert(archive_of(v.subrange(0, i)) + archive_of(one) =~= archive_of(v.subrange(0, i)));
}

} // verus!
