//! Character-level helpers on text: splitting on a separator, joining words,
//! comparing, trimming and reading an index.
use vstd::prelude::*;

verus! {

/// The pieces of `s` between occurrences of `sep`, where `cur` is the piece
/// read so far.
pub open spec fn split_from(s: Seq<char>, sep: char, cur: Seq<char>) -> Seq<Seq<char>>
    decreases s.len(),
{
    if s.len() == 0 {
        seq![cur]
    } else if s[0] == sep {
        seq![cur] + split_from(s.drop_first(), sep, Seq::empty())
    } else {
        split_from(s.drop_first(), sep, cur.push(s[0]))
    }
}

/// The pieces of `s` between occurrences of `sep`: always at least one, and
/// empty pieces are kept.
pub open spec fn split_on(s: Seq<char>, sep: char) -> Seq<Seq<char>> {
    split_from(s, sep, Seq::empty())
}

/// Splitting always gives at least one piece.
pub proof fn lemma_split_nonempty(s: Seq<char>, sep: char, cur: Seq<char>)
    ensures
        split_from(s, sep, cur).len() >= 1,
    decreases s.len(),
{
    if s.len() > 0 {
        if s[0] == sep {
            lemma_split_nonempty(s.drop_first(), sep, Seq::empty());
        } else {
            lemma_split_nonempty(s.drop_first(), sep, cur.push(s[0]));
        }
    }
}

/// The words joined with one space between each two.
pub open spec fn join_words(ws: Seq<Seq<char>>) -> Seq<char>
    decreases ws.len(),
{
    if ws.len() == 0 {
        Seq::empty()
    } else if ws.len() == 1 {
        ws[0]
    } else {
        join_words(ws.drop_last()) + seq![' '] + ws.last()
    }
}

/// What `str::trim` leaves of a text.
pub uninterp spec fn trimmed(s: Seq<char>) -> Seq<char>;

/// Relies on `str::trim`: leading and trailing whitespace removed, so an
/// empty text stays empty.
#[verifier::external_body]
pub(crate) fn trim_str(s: &str) -> (r: &str)
    ensures
        r@ == trimmed(s@),
        s@.len() == 0 ==> r@.len() == 0,
{
    s.trim()
}

/// Whether every character is an ASCII decimal digit.
pub open spec fn all_digits(s: Seq<char>) -> bool {
    forall|i: int| 0 <= i < s.len() ==> '0' <= #[trigger] s[i] && s[i] <= '9'
}

/// The number that a run of decimal digits stands for.
pub open spec fn digits_value(s: Seq<char>) -> nat
    decreases s.len(),
{
    if s.len() == 0 {
        0
    } else {
        digits_value(s.drop_last()) * 10 + (s.last() as nat - '0' as nat) as nat
    }
}

/// The index that a text reads as: an optional `+`, then at least one decimal
/// digit, with a value that fits in `usize`.
pub open spec fn index_value(s: Seq<char>) -> Option<usize> {
    let d = if s.len() > 0 && s[0] == '+' {
        s.drop_first()
    } else {
        s
    };
    if d.len() > 0 && all_digits(d) && digits_value(d) <= usize::MAX {
        Some(digits_value(d) as usize)
    } else {
        None
    }
}

/// Relies on `str::parse::<usize>`: an optional `+` and decimal digits, with
/// an error on anything else and on overflow.
#[verifier::external_body]
pub(crate) fn parse_index(s: &str) -> (r: Option<usize>)
    ensures
        r == index_value(s@),
{
    s.parse::<usize>().ok()
}

/// Whether two texts hold the same characters.
pub fn same_text(a: &str, b: &str) -> (r: bool)
    ensures
        r == (a@ == b@),
{
    let n = a.unicode_len();
    if n != b.unicode_len() {
        return false;
    }
    let mut i: usize = 0;
    while i < n
        invariant
            n == a@.len(),
            n == b@.len(),
            i <= n,
            a@.subrange(0, i as int) == b@.subrange(0, i as int),
        decreases n - i,
    {
        if a.get_char(i) != b.get_char(i) {
            return false;
        }
        assert(a@.subrange(0, i + 1) =~= a@.subrange(0, i as int).push(a@[i as int]));
        assert(b@.subrange(0, i + 1) =~= b@.subrange(0, i as int).push(b@[i as int]));
        i = i + 1;
    }
    assert(a@ =~= a@.subrange(0, n as int));
    assert(b@ =~= b@.subrange(0, n as int));
    true
}

/// The views of a sequence of texts.
pub open spec fn views_of(v: Seq<&str>) -> Seq<Seq<char>> {
    v.map_values(|t: &str| t@)
}

/// The views of a list of owned texts.
pub open spec fn strings_view(v: Seq<String>) -> Seq<Seq<char>> {
    v.map_values(|s: String| s@)
}

/// Splits `s` at every occurrence of `sep`.
pub fn split_text<'a>(s: &'a str, sep: char) -> (r: Vec<&'a str>)
    ensures
        views_of(r@) == split_on(s@, sep),
        r@.len() >= 1,
{
    proof {
        lemma_split_nonempty(s@, sep, Seq::empty());
    }
    let n = s.unicode_len();
    let mut out: Vec<&'a str> = Vec::new();
    let mut start: usize = 0;
    let mut i: usize = 0;
    proof {
        assert(views_of(out@) =~= Seq::<Seq<char>>::empty());
        assert(s@.subrange(0, n as int) =~= s@);
        assert(s@.subrange(0, 0) =~= Seq::<char>::empty());
        assert(views_of(out@) + split_on(s@, sep) =~= split_on(s@, sep));
    }
    while i < n
        invariant
            n == s@.len(),
            start <= i <= n,
            views_of(out@) + split_from(s@.subrange(i as int, n as int), sep, s@.subrange(start as int, i as int))
                == split_on(s@, sep),
        decreases n - i,
    {
        let ghost rest = s@.subrange(i as int, n as int);
        assert(rest.drop_first() =~= s@.subrange(i + 1, n as int));
        if s.get_char(i) == sep {
            let piece = s.substring_char(start, i);
            let ghost before = out@;
            out.push(piece);
            assert(views_of(out@) =~= views_of(before).push(piece@));
            assert(s@.subrange(i + 1, i + 1) =~= Seq::<char>::empty());
            assert(views_of(out@) + split_from(s@.subrange(i + 1, n as int), sep, Seq::empty())
                =~= views_of(before) + split_from(rest, sep, s@.subrange(start as int, i as int)));
            start = i + 1;
        } else {
            assert(s@.subrange(start as int, i + 1) =~= s@.subrange(start as int, i as int).push(s@[i as int]));
        }
        i = i + 1;
    }
    let piece = s.substring_char(start, n);
    let ghost before = out@;
    out.push(piece);
    assert(s@.subrange(n as int, n as int) =~= Seq::<char>::empty());
    assert(views_of(out@) =~= views_of(before).push(piece@));
    assert(views_of(out@) =~= views_of(before) + split_from(Seq::empty(), sep, piece@));
    out
}

/// Joins the texts `v[from..]` with one space between each two.
pub fn join_from(v: &Vec<&str>, from: usize) -> (r: String)
    requires
        from <= v@.len(),
    ensures
        r@ == join_words(views_of(v@).subrange(from as int, v@.len() as int)),
{
    let mut out = String::new();
    let mut i: usize = from;
    proof {
        reveal_strlit(" ");
        assert(views_of(v@).subrange(from as int, from as int) =~= Seq::<Seq<char>>::empty());
    }
    while i < v.len()
        invariant
            from <= i <= v@.len(),
            out@ == join_words(views_of(v@).subrange(from as int, i as int)),
        decreases v@.len() - i,
    {
        let ghost ws = views_of(v@).subrange(from as int, i as int + 1);
        assert(ws.drop_last() =~= views_of(v@).subrange(from as int, i as int));
        assert(ws.last() == v@[i as int]@);
        let ghost prev = out@;
        proof {
            reveal_strlit(" ");
        }
        if i > from {
            out.append(" ");
        }
        out.append(v[i]);
        proof {
            if i == from {
                assert(ws.len() == 1);
                assert(out@ =~= ws[0]);
            } else {
                assert(out@ =~= prev + seq![' '] + ws.last());
            }
        }
        i = i + 1;
    }
    out
}

} // verus!
