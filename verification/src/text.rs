//! Characters and lines of a text.
//!
//! A text is modelled by its sequence of characters. Its lines are what lies
//! between line feeds; a carriage return directly before a line feed belongs
//! to the line ending, and a final line ending opens no further line.

use vstd::prelude::*;

verus! {

/// A letter or digit of the 62-character alphabet: `a` to `z`, `A` to `Z`,
/// `0` to `9`.
pub open spec fn is_alphanumeric(c: char) -> bool {
    ('a' <= c && c <= 'z') || ('A' <= c && c <= 'Z') || ('0' <= c && c <= '9')
}

/// Whether `c` is a letter or a digit.
pub fn is_letter_or_digit(c: char) -> (ok: bool)
    ensures
        ok == is_alphanumeric(c),
{
    (c >= 'a' && c <= 'z') || (c >= 'A' && c <= 'Z') || (c >= '0' && c <= '9')
}

/// The least position at or after `from` that holds a line feed, or the
/// length of `s` if there is none.
pub open spec fn newline_at(s: Seq<char>, from: int) -> int
    decreases s.len() - from,
{
    if from < 0 || from >= s.len() {
        s.len() as int
    } else if s[from] == '\n' {
        from
    } else {
        newline_at(s, from + 1)
    }
}

/// A line as found before a line feed, without the carriage return that may
/// precede the line feed.
pub open spec fn strip_cr(line: Seq<char>) -> Seq<char> {
    if line.len() > 0 && line.last() == '\r' {
        line.drop_last()
    } else {
        line
    }
}

/// The lines of `s` that begin at or after position `from`, where `from` is
/// the start of a line.
pub open spec fn lines_from(s: Seq<char>, from: int) -> Seq<Seq<char>>
    decreases s.len() - from,
{
    if from < 0 || from >= s.len() {
        Seq::empty()
    } else {
        let nl = newline_at(s, from);
        if nl >= s.len() {
            seq![s.subrange(from, s.len() as int)]
        } else {
            proof {
                lemma_newline_at_bounds(s, from);
            }
            seq![strip_cr(s.subrange(from, nl))] + lines_from(s, nl + 1)
        }
    }
}

/// The lines of a text.
pub open spec fn split_lines(s: Seq<char>) -> Seq<Seq<char>> {
    lines_from(s, 0)
}

/// What a vector of lines holds: the characters of each, in order.
pub open spec fn line_views(lines: Seq<Vec<char>>) -> Seq<Seq<char>> {
    Seq::new(lines.len(), |i: int| lines[i]@)
}

/// Where no line feed lies in `[from, to)` and `to` holds one or is the end,
/// the next line feed after `from` is at `to`.
pub proof fn lemma_newline_at(s: Seq<char>, from: int, to: int)
    requires
        0 <= from <= to <= s.len(),
        forall|k: int| from <= k < to ==> s[k] != '\n',
        to == s.len() || s[to] == '\n',
    ensures
        newline_at(s, from) == to,
    decreases to - from,
{
    if from < to {
        lemma_newline_at(s, from + 1, to);
    }
}

/// The next line feed is never before the position asked from, nor beyond
/// the end.
pub proof fn lemma_newline_at_bounds(s: Seq<char>, from: int)
    requires
        0 <= from <= s.len(),
    ensures
        from <= newline_at(s, from) <= s.len(),
        newline_at(s, from) < s.len() ==> s[newline_at(s, from)] == '\n',
        forall|k: int| from <= k < newline_at(s, from) ==> s[k] != '\n',
    decreases s.len() - from,
{
    if from < s.len() && s[from] != '\n' {
        lemma_newline_at_bounds(s, from + 1);
    }
}

/// A line as it can stand in a text: it holds no line feed and does not end
/// in a carriage return.
pub open spec fn plain_line(line: Seq<char>) -> bool {
    &&& forall|k: int| 0 <= k < line.len() ==> line[k] != '\n'
    &&& line.len() > 0 ==> line.last() != '\r'
}

/// The text made of the lines of `all`, with a line feed between each two.
pub open spec fn join_lines(all: Seq<Seq<char>>) -> Seq<char>
    decreases all.len(),
{
    if all.len() == 0 {
        Seq::empty()
    } else if all.len() == 1 {
        all[0]
    } else {
        all[0] + seq!['\n'] + join_lines(all.drop_first())
    }
}

/// The next line feed of a text is found alike in the text and in what is
/// left of it after a prefix.
pub proof fn lemma_newline_at_suffix(s: Seq<char>, cut: int, from: int)
    requires
        0 <= cut <= s.len(),
        0 <= from <= s.len() - cut,
    ensures
        newline_at(s, cut + from) == cut + newline_at(s.subrange(cut, s.len() as int), from),
    decreases s.len() - cut - from,
{
    let rest = s.subrange(cut, s.len() as int);
    if from < rest.len() {
        assert(rest[from] == s[cut + from]);
        if s[cut + from] != '\n' {
            lemma_newline_at_suffix(s, cut, from + 1);
        }
    }
}

/// The lines of a text from the start of a line on are the lines of what is
/// left of the text from there.
pub proof fn lemma_lines_from_suffix(s: Seq<char>, cut: int, from: int)
    requires
        0 <= cut <= s.len(),
        0 <= from <= s.len() - cut,
    ensures
        lines_from(s, cut + from) == lines_from(s.subrange(cut, s.len() as int), from),
    decreases s.len() - cut - from,
{
    let rest = s.subrange(cut, s.len() as int);
    if from < rest.len() {
        lemma_newline_at_suffix(s, cut, from);
        lemma_newline_at_bounds(rest, from);
        let nl = newline_at(rest, from);
        if nl < rest.len() {
            lemma_lines_from_suffix(s, cut, nl + 1);
            assert(s.subrange(cut + from, cut + nl) =~= rest.subrange(from, nl));
        } else {
            assert(s.subrange(cut + from, s.len() as int) =~= rest.subrange(
                from,
                rest.len() as int,
            ));
        }
    }
}

/// Lines that are joined into a text are the lines of that text, where each
/// is a plain line and the last is not empty.
pub proof fn lemma_split_of_join(all: Seq<Seq<char>>)
    requires
        all.len() > 0,
        forall|i: int| 0 <= i < all.len() ==> plain_line(#[trigger] all[i]),
        all.last().len() > 0,
    ensures
        split_lines(join_lines(all)) == all,
    decreases all.len(),
{
    let s = join_lines(all);
    let first = all[0];
    assert(plain_line(first));
    if all.len() == 1 {
        lemma_newline_at(s, 0, s.len() as int);
        assert(s.subrange(0, s.len() as int) =~= s);
        assert(split_lines(s) =~= all);
    } else {
        let rest = all.drop_first();
        let tail = join_lines(rest);
        assert forall|i: int| 0 <= i < rest.len() implies plain_line(#[trigger] rest[i]) by {
            assert(rest[i] == all[i + 1]);
        }
        assert(rest.last() == all.last());
        lemma_split_of_join(rest);
        let cut = first.len() as int;
        assert(s[cut] == '\n');
        assert forall|k: int| 0 <= k < cut implies s[k] != '\n' by {
            assert(s[k] == first[k]);
        }
        lemma_newline_at(s, 0, cut);
        assert(s.subrange(0, cut) =~= first);
        assert(s.subrange(cut + 1, s.len() as int) =~= tail);
        lemma_lines_from_suffix(s, cut + 1, 0);
        assert(split_lines(s) == seq![first] + split_lines(tail));
        assert(seq![first] + rest =~= all);
    }
}

/// The characters of `s`, in order.
pub fn to_chars(s: &str) -> (out: Vec<char>)
    ensures
        out@ == s@,
{
    let mut out: Vec<char> = Vec::new();
    for c in it: s.chars()
        invariant
            it.seq() == s@,
            out@ == s@.take(it.index() as int),
    {
        out.push(c);
    }
    out
}

/// The lines of `s`, each as its characters.
pub fn lines(s: &str) -> (out: Vec<Vec<char>>)
    ensures
        line_views(out@) == split_lines(s@),
{
    let chars = to_chars(s);
    let mut out: Vec<Vec<char>> = Vec::new();
    let mut line: Vec<char> = Vec::new();
    let mut start: usize = 0;
    let mut i: usize = 0;
    while i < chars.len()
        invariant
            chars@ == s@,
            start <= i <= chars.len(),
            line@ == chars@.subrange(start as int, i as int),
            forall|k: int| start <= k < i ==> chars@[k] != '\n',
            split_lines(s@) == line_views(out@) + lines_from(s@, start as int),
        decreases chars.len() - i,
    {
        let c = chars[i];
        if c == '\n' {
            proof {
                lemma_newline_at(s@, start as int, i as int);
            }
            if line.len() > 0 && line[line.len() - 1] == '\r' {
                line.pop();
            }
            let ghost before = line_views(out@);
            let ghost found = line@;
            out.push(line);
            line = Vec::new();
            assert(line_views(out@) =~= before.push(found));
            assert(before + (seq![found] + lines_from(s@, i + 1)) == before.push(found)
                + lines_from(s@, i + 1));
            start = i + 1;
        } else {
            line.push(c);
        }
        i += 1;
    }
    if start < chars.len() {
        proof {
            lemma_newline_at(s@, start as int, chars.len() as int);
        }
        let ghost before = line_views(out@);
        let ghost found = line@;
        out.push(line);
        assert(line_views(out@) =~= before.push(found));
        assert(before + seq![found] == before.push(found));
    } else {
        assert(line_views(out@) + Seq::<Seq<char>>::empty() == line_views(out@));
    }
    out
}

/// Whether `line` holds exactly the characters of `text`.
pub fn same_text(line: &Vec<char>, text: &str) -> (same: bool)
    ensures
        same == (line@ == text@),
{
    let expected = to_chars(text);
    if line.len() != expected.len() {
        return false;
    }
    let mut i: usize = 0;
    while i < line.len()
        invariant
            expected@ == text@,
            line.len() == expected.len(),
            i <= line.len(),
            forall|k: int| 0 <= k < i ==> line@[k] == expected@[k],
        decreases line.len() - i,
    {
        if line[i] != expected[i] {
            return false;
        }
        i += 1;
    }
    assert(line@ =~= text@);
    true
}

} // verus!
