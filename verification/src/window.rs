//! The window on a log: the lines of a text, and the last of them that fit on the screen.

use vstd::prelude::*;
use vstd::string::StringExecFns;
use vstd::string::StrSliceExecFns;
use vstd::std_specs::iter::IteratorSpec;
use crate::text::{append_decimal, decimal};

verus! {

/// A log with more line breaks than this is cut down for display.
pub const VISIBLE_LINE_BREAKS: usize = 35;

/// How many line breaks a text holds.
pub open spec fn newline_count(s: Seq<char>) -> nat
    decreases s.len(),
{
    if s.len() == 0 {
        0
    } else if s[0] == '\n' {
        1 + newline_count(s.skip(1))
    } else {
        newline_count(s.skip(1))
    }
}

/// The place of the first line break of a text, or its length if it has none.
pub open spec fn first_newline(s: Seq<char>) -> int
    decreases s.len(),
{
    if s.len() == 0 || s[0] == '\n' {
        0
    } else {
        1 + first_newline(s.skip(1))
    }
}

/// A line without the carriage return that stood before its line break.
pub open spec fn strip_cr(line: Seq<char>) -> Seq<char> {
    if line.len() > 0 && line.last() == '\r' {
        line.drop_last()
    } else {
        line
    }
}

/// The lines of a text. A line ends at a line break, which is not part of it,
/// nor is a carriage return right before the break. What follows the last
/// break is a line too, unless it is empty.
pub open spec fn lines_of(s: Seq<char>) -> Seq<Seq<char>>
    decreases s.len(),
{
    if s.len() == 0 {
        Seq::empty()
    } else {
        let i = first_newline(s);
        if 0 <= i < s.len() {
            seq![strip_cr(s.take(i))] + lines_of(s.skip(i + 1))
        } else {
            seq![s]
        }
    }
}

/// The lines put together again, with one line break between two lines.
pub open spec fn join_lines(lines: Seq<Seq<char>>) -> Seq<char>
    decreases lines.len(),
{
    if lines.len() == 0 {
        Seq::empty()
    } else if lines.len() == 1 {
        lines[0]
    } else {
        join_lines(lines.drop_last()) + seq!['\n'] + lines.last()
    }
}

/// How many of the first lines of a text are left out of its window.
pub open spec fn hidden_lines(s: Seq<char>) -> nat {
    if newline_count(s) > VISIBLE_LINE_BREAKS {
        (newline_count(s) - (VISIBLE_LINE_BREAKS - 1)) as nat
    } else {
        0
    }
}

/// What is shown of a log: all of it while it has few line breaks, else its
/// last lines.
pub open spec fn visible_text(s: Seq<char>) -> Seq<char> {
    if newline_count(s) > VISIBLE_LINE_BREAKS {
        join_lines(lines_of(s).skip(hidden_lines(s) as int))
    } else {
        s
    }
}

/// A text without line break before `i` has its first line break at `i`, if
/// there is one there, or none if `i` is its end.
pub proof fn lemma_first_newline_at(s: Seq<char>, i: int)
    requires
        0 <= i <= s.len(),
        forall|k: int| 0 <= k < i ==> s[k] != '\n',
        i < s.len() ==> s[i] == '\n',
    ensures
        first_newline(s) == i,
    decreases i,
{
    if i > 0 {
        let t = s.skip(1);
        assert forall|k: int| 0 <= k < i - 1 implies t[k] != '\n' by {
            assert(t[k] == s[k + 1]);
        }
        lemma_first_newline_at(t, i - 1);
    }
}

/// Line breaks are counted from any place on, where none stands before it.
pub proof fn lemma_newline_count_skip(s: Seq<char>, i: int)
    requires
        0 <= i <= s.len(),
        forall|k: int| 0 <= k < i ==> s[k] != '\n',
    ensures
        newline_count(s) == newline_count(s.skip(i)),
    decreases i,
{
    if i > 0 {
        let t = s.skip(1);
        assert forall|k: int| 0 <= k < i - 1 implies t[k] != '\n' by {
            assert(t[k] == s[k + 1]);
        }
        lemma_newline_count_skip(t, i - 1);
        assert(t.skip(i - 1) == s.skip(i));
    } else {
        assert(s.skip(0) == s);
    }
}

/// The first line break of a text is within it or at its end, and no line
/// break stands before it.
pub proof fn lemma_first_newline_is_first(s: Seq<char>)
    ensures
        0 <= first_newline(s) <= s.len(),
        forall|k: int| 0 <= k < first_newline(s) ==> s[k] != '\n',
        first_newline(s) < s.len() ==> s[first_newline(s)] == '\n',
    decreases s.len(),
{
    if s.len() == 0 || s[0] == '\n' {
    } else {
        let t = s.skip(1);
        lemma_first_newline_is_first(t);
        assert forall|k: int| 0 <= k < first_newline(s) implies s[k] != '\n' by {
            if k > 0 {
                assert(t[k - 1] == s[k]);
            }
        }
    }
}

/// A text has as many lines as line breaks, and one more where it does not
/// end in a line break.
pub proof fn lemma_line_count(s: Seq<char>)
    ensures
        lines_of(s).len() == newline_count(s) + if s.len() > 0 && s.last() != '\n' {
            1nat
        } else {
            0nat
        },
    decreases s.len(),
{
    if s.len() > 0 {
        lemma_first_newline_is_first(s);
        let i = first_newline(s);
        lemma_newline_count_skip(s, i);
        if i < s.len() {
            let rest = s.skip(i + 1);
            lemma_line_count(rest);
            assert(s.skip(i).skip(1) == rest);
            assert(s.skip(i)[0] == '\n');
            if rest.len() > 0 {
                assert(rest.last() == s.last());
            }
        } else {
            assert(s.skip(i).len() == 0);
        }
    }
}

/// The window of a long log shows its last lines, thirty-four of them where
/// the log ends in a line break and thirty-five where it does not.
pub proof fn lemma_window_is_tail(s: Seq<char>)
    requires
        newline_count(s) > VISIBLE_LINE_BREAKS,
    ensures
        hidden_lines(s) <= lines_of(s).len(),
        visible_text(s) == join_lines(
            lines_of(s).subrange(hidden_lines(s) as int, lines_of(s).len() as int),
        ),
        lines_of(s).len() - hidden_lines(s) == if s.last() == '\n' {
            VISIBLE_LINE_BREAKS - 1
        } else {
            VISIBLE_LINE_BREAKS as int
        },
{
    lemma_line_count(s);
    assert(s.len() > 0);
}

/// Counts the line breaks of a text.
pub fn count_newlines(s: &str) -> (n: usize)
    ensures
        n == newline_count(s@),
{
    let len = s.unicode_len();
    let mut n: usize = 0;
    assert(s@.skip(0) == s@);
    for c in it: s.chars()
        invariant
            len == s@.len(),
            it.seq() == s@,
            n <= it.index() <= len,
            n + newline_count(s@.skip(it.index())) == newline_count(s@),
    {
        proof {
            let p = it.index();
            assert(s@.skip(p).skip(1) == s@.skip(p + 1));
            assert(s@.skip(p)[0] == c);
        }
        if c == '\n' {
            n += 1;
        }
    }
    n
}

/// Splits a text into its lines.
pub fn split_lines(s: &str) -> (lines: Vec<String>)
    ensures
        lines.deep_view() == lines_of(s@),
{
    let mut lines: Vec<String> = Vec::new();
    let mut current = String::new();
    // A carriage return that was read and not yet written to `current`: it
    // is dropped if a line break follows.
    let mut pending_cr = false;
    let ghost mut start: int = 0;
    proof {
        assert(s@.skip(0) == s@);
        assert(lines.deep_view() + lines_of(s@) == lines_of(s@));
        assert(s@.subrange(0, 0) == Seq::<char>::empty());
    }
    for c in it: s.chars()
        invariant
            it.seq() == s@,
            0 <= start <= it.index() <= s@.len(),
            lines.deep_view() + lines_of(s@.skip(start)) == lines_of(s@),
            current@ + (if pending_cr {
                seq!['\r']
            } else {
                Seq::<char>::empty()
            }) == s@.subrange(start, it.index()),
            !pending_cr ==> current@.len() == 0 || current@.last() != '\r',
            forall|k: int| start <= k < it.index() ==> s@[k] != '\n',
    {
        let ghost p = it.index();
        let ghost held = s@.subrange(start, p);
        assert(s@[p] == c);
        if c == '\n' {
            proof {
                let rest = s@.skip(start);
                assert forall|k: int| 0 <= k < p - start implies rest[k] != '\n' by {
                    assert(rest[k] == s@[start + k]);
                }
                assert(rest[p - start] == '\n');
                lemma_first_newline_at(rest, p - start);
                assert(rest.take(p - start) == held);
                assert(rest.skip(p - start + 1) == s@.skip(p + 1));
                assert(strip_cr(held) == current@) by {
                    if pending_cr {
                        assert(held == current@.push('\r'));
                        assert(held.drop_last() == current@);
                    } else {
                        assert(held == current@);
                    }
                }
                assert(lines_of(rest) == seq![current@] + lines_of(s@.skip(p + 1)));
                assert(lines.deep_view().push(current@) + lines_of(s@.skip(p + 1))
                    == lines.deep_view() + lines_of(rest));
            }
            let ghost before = lines.deep_view();
            lines.push(current);
            assert(lines.deep_view() == before.push(lines[lines.len() - 1]@));
            current = String::new();
            pending_cr = false;
            proof {
                start = p + 1;
                assert(s@.subrange(p + 1, p + 1) == Seq::<char>::empty());
            }
        } else {
            assert(s@.subrange(start, p + 1) == held.push(c));
            if pending_cr {
                current.push('\r');
            }
            if c == '\r' {
                pending_cr = true;
            } else {
                pending_cr = false;
                current.push(c);
            }
        }
    }
    let ghost rest = s@.skip(start);
    let ghost before = lines.deep_view();
    proof {
        assert(s@.subrange(start, s@.len() as int) == rest);
        if rest.len() > 0 {
            assert forall|k: int| 0 <= k < rest.len() implies rest[k] != '\n' by {
                assert(rest[k] == s@[start + k]);
            }
            lemma_first_newline_at(rest, rest.len() as int);
            assert(lines_of(rest) == seq![rest]);
            assert(before + seq![rest] == before.push(rest));
        } else {
            assert(lines_of(rest) == Seq::<Seq<char>>::empty());
            assert(before + Seq::<Seq<char>>::empty() == before);
        }
    }
    if pending_cr {
        current.push('\r');
    }
    assert(current@ == rest);
    if !current.as_str().is_empty() {
        lines.push(current);
        assert(lines.deep_view() == before.push(lines[lines.len() - 1]@));
    }
    lines
}

/// Puts the lines from place `from` on together again, with one line break
/// between two lines.
pub fn join_from(lines: &Vec<String>, from: usize) -> (r: String)
    requires
        from <= lines.len(),
    ensures
        r@ == join_lines(lines.deep_view().skip(from as int)),
{
    let mut r = String::new();
    let mut j: usize = from;
    while j < lines.len()
        invariant
            from <= j <= lines.len(),
            r@ == join_lines(lines.deep_view().subrange(from as int, j as int)),
        decreases lines.len() - j,
    {
        let ghost done = lines.deep_view().subrange(from as int, j as int);
        let ghost more = lines.deep_view().subrange(from as int, j + 1);
        proof {
            assert(more.drop_last() == done);
            assert(more.last() == lines[j as int]@);
        }
        if j > from {
            r.push('\n');
            r.append(lines[j].as_str());
            assert(r@ == join_lines(done) + seq!['\n'] + lines[j as int]@);
        } else {
            r.append(lines[j].as_str());
            assert(r@ == lines[j as int]@);
            assert(more.len() == 1);
        }
        j += 1;
    }
    assert(lines.deep_view().subrange(from as int, lines.len() as int) == lines.deep_view().skip(
        from as int,
    ));
    r
}

/// What is shown of a log.
pub fn window(text: String) -> (r: String)
    ensures
        r@ == visible_text(text@),
{
    let breaks = count_newlines(text.as_str());
    if breaks > VISIBLE_LINE_BREAKS {
        let lines = split_lines(text.as_str());
        proof {
            lemma_line_count(text@);
        }
        join_from(&lines, breaks - (VISIBLE_LINE_BREAKS - 1))
    } else {
        text
    }
}


} // verus!
