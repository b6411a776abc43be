//! Lines of a text, and the text with a hard line break after each of them.
//!
//! A markdown renderer joins lines that are separated by a single line feed.
//! Two spaces before the line feed keep them apart: this module says what the
//! lines of a text are, and computes the text in which every line ends in two
//! spaces and a line feed.

use vstd::prelude::*;
use vstd::std_specs::iter::IteratorSpec;

verus! {

/// What ends every line of the prepared text: two spaces and a line feed.
pub open spec fn hard_break() -> Seq<char> {
    seq![' ', ' ', '\n']
}

/// The number of characters before the first line feed of `s`; the length of
/// `s` where it holds none.
pub open spec fn line_len(s: Seq<char>) -> nat
    decreases s.len(),
{
    if s.len() == 0 || s[0] == '\n' {
        0
    } else {
        1 + line_len(s.drop_first())
    }
}

/// A line that a line feed ended, without the carriage return before that line
/// feed, if there is one.
pub open spec fn without_cr(line: Seq<char>) -> Seq<char> {
    if line.len() > 0 && line.last() == '\r' {
        line.drop_last()
    } else {
        line
    }
}

/// The lines of `s`. A line ends at a line feed, or at a carriage return
/// directly followed by a line feed; neither belongs to the line. What follows
/// the last line feed is a line of its own unless it is empty, and keeps a
/// carriage return at its end.
pub open spec fn lines(s: Seq<char>) -> Seq<Seq<char>>
    decreases s.len(),
{
    if s.len() == 0 {
        Seq::empty()
    } else {
        let n = line_len(s) as int;
        if n >= s.len() {
            seq![s]
        } else {
            seq![without_cr(s.take(n))] + lines(s.skip(n + 1))
        }
    }
}

/// `s` with a hard break after each of its lines.
pub open spec fn hard_broken(s: Seq<char>) -> Seq<char> {
    lines(s).map_values(|line: Seq<char>| line + hard_break()).flatten()
}

/// No character of `s` is a line feed.
pub open spec fn no_line_feed(s: Seq<char>) -> bool {
    forall|i: int| 0 <= i < s.len() ==> s[i] != '\n'
}

/// `s` is empty or ends in a line feed, so that a line starts right after it.
pub open spec fn at_line_start(s: Seq<char>) -> bool {
    s.len() == 0 || s.last() == '\n'
}

/// `line_len` stays within `s`, stops at a line feed and passes none.
pub proof fn lemma_line_len(s: Seq<char>)
    ensures
        0 <= line_len(s) <= s.len(),
        line_len(s) < s.len() ==> s[line_len(s) as int] == '\n',
        no_line_feed(s.take(line_len(s) as int)),
    decreases s.len(),
{
    if s.len() == 0 || s[0] == '\n' {
    } else {
        let rest = s.drop_first();
        lemma_line_len(rest);
        let n = line_len(rest) as int;
        let head = s.take(n + 1);
        assert forall|i: int| 0 <= i < head.len() implies #[trigger] head[i] != '\n' by {
            if i > 0 {
                assert(head[i] == rest.take(n)[i - 1]);
            }
        }
    }
}

/// The first line feed of `s` is where `line_len` says.
pub proof fn lemma_line_len_is(s: Seq<char>, n: int)
    requires
        0 <= n <= s.len(),
        no_line_feed(s.take(n)),
        n < s.len() ==> s[n] == '\n',
    ensures
        line_len(s) == n,
    decreases n,
{
    if n == 0 {
    } else {
        assert(s.take(n)[0] == s[0]);
        let rest = s.drop_first();
        let head = rest.take(n - 1);
        assert forall|i: int| 0 <= i < head.len() implies #[trigger] head[i] != '\n' by {
            assert(head[i] == s.take(n)[i + 1]);
        }
        lemma_line_len_is(rest, n - 1);
    }
}

/// A line start splits the lines: those of `p + t` are those of `p`, then
/// those of `t`.
pub proof fn lemma_lines_concat(p: Seq<char>, t: Seq<char>)
    requires
        at_line_start(p),
    ensures
        lines(p + t) == lines(p) + lines(t),
    decreases p.len(),
{
    if p.len() == 0 {
        assert(p + t == t);
    } else {
        lemma_line_len(p);
        let n = line_len(p) as int;
        if n == p.len() {
            // `p` would hold no line feed at all, yet it ends in one
            assert(p.take(n)[n - 1] == p.last());
        }
        assert((p + t).take(n) == p.take(n));
        lemma_line_len_is(p + t, n);
        let rest = p.skip(n + 1);
        assert((p + t).skip(n + 1) == rest + t);
        if rest.len() > 0 {
            assert(rest.last() == p.last());
        }
        lemma_lines_concat(rest, t);
    }
}

/// A line start splits the prepared text as it splits the lines.
pub proof fn lemma_hard_broken_concat(p: Seq<char>, t: Seq<char>)
    requires
        at_line_start(p),
    ensures
        hard_broken(p + t) == hard_broken(p) + hard_broken(t),
{
    lemma_lines_concat(p, t);
    let f = |line: Seq<char>| line + hard_break();
    assert((lines(p) + lines(t)).map_values(f) == lines(p).map_values(f) + lines(t).map_values(f));
    vstd::seq_lib::lemma_flatten_concat(lines(p).map_values(f), lines(t).map_values(f));
}

/// A single line with its line feed is prepared by dropping its carriage
/// return and adding the hard break.
pub proof fn lemma_hard_broken_line(line: Seq<char>)
    requires
        no_line_feed(line),
    ensures
        hard_broken(line.push('\n')) == without_cr(line) + hard_break(),
{
    let s = line.push('\n');
    assert(s.take(line.len() as int) == line);
    lemma_line_len_is(s, line.len() as int);
    assert(s.skip(line.len() as int + 1) == Seq::<char>::empty());
    let f = |l: Seq<char>| l + hard_break();
    let one = seq![without_cr(line)];
    assert(lines(s) == one) by {
        reveal_with_fuel(lines, 2);
    }
    assert(one.map_values(f) == seq![without_cr(line) + hard_break()]);
    seq![without_cr(line) + hard_break()].lemma_flatten_singleton();
}

/// Text without a line feed is one line, which gets its hard break as it is;
/// empty text has no line at all.
pub proof fn lemma_hard_broken_tail(tail: Seq<char>)
    requires
        no_line_feed(tail),
    ensures
        tail.len() == 0 ==> hard_broken(tail) == Seq::<char>::empty(),
        tail.len() > 0 ==> hard_broken(tail) == tail + hard_break(),
{
    let f = |l: Seq<char>| l + hard_break();
    if tail.len() == 0 {
        assert(lines(tail).map_values(f) == Seq::<Seq<char>>::empty());
    } else {
        assert(tail.take(tail.len() as int) == tail);
        lemma_line_len_is(tail, tail.len() as int);
        assert(lines(tail) == seq![tail]);
        assert(seq![tail].map_values(f) == seq![tail + hard_break()]);
        seq![tail + hard_break()].lemma_flatten_singleton();
    }
}

/// `String::push` of std: the character is added at the end.
pub assume_specification[ String::push ](s: &mut String, c: char)
    ensures
        final(s)@ == old(s)@.push(c),
;

/// Prepares `text` for a markdown renderer: every line of it, as `lines`
/// splits them, followed by two spaces and a line feed.
pub fn pre_markdown(text: &str) -> (result: String)
    ensures
        result@ == hard_broken(text@),
{
    broadcast use vstd::string::axiom_spec_iter;

    let mut result = String::new();
    // A carriage return that was read and not written yet: it is dropped if a
    // line feed follows, and written otherwise.
    let mut held_cr = false;
    // Something was read since the last line feed.
    let mut in_line = false;
    let ghost mut start: int = 0;
    for c in it: text.chars()
        invariant
            it.seq() == text@,
            0 <= start <= it.index() <= text@.len(),
            at_line_start(text@.take(start)),
            no_line_feed(text@.subrange(start, it.index())),
            in_line == (start < it.index()),
            held_cr == (start < it.index() && text@[it.index() - 1] == '\r'),
            result@ + (if held_cr { seq!['\r'] } else { Seq::<char>::empty() })
                == hard_broken(text@.take(start)) + text@.subrange(start, it.index()),
    {
        let ghost i = it.index();
        let ghost line = text@.subrange(start, i);
        assert(c == text@[i]);
        if c == '\n' {
            proof {
                lemma_hard_broken_line(line);
                lemma_hard_broken_concat(text@.take(start), line.push('\n'));
                assert(text@.take(start) + line.push('\n') == text@.take(i + 1));
                if held_cr {
                    assert(line.last() == '\r');
                    assert((result@ + seq!['\r']).drop_last() == result@);
                    assert((hard_broken(text@.take(start)) + line).drop_last()
                        == hard_broken(text@.take(start)) + line.drop_last());
                } else if line.len() > 0 {
                    assert(line.last() == text@[i - 1]);
                }
                assert(result@ == hard_broken(text@.take(start)) + without_cr(line));
            }
            result.push(' ');
            result.push(' ');
            result.push('\n');
            held_cr = false;
            in_line = false;
            proof {
                assert(result@ == hard_broken(text@.take(start)) + without_cr(line) + hard_break());
                start = i + 1;
                assert(text@.take(start).last() == '\n');
                assert(text@.subrange(start, i + 1) == Seq::<char>::empty());
            }
        } else {
            if held_cr {
                result.push('\r');
            }
            assert(result@ == hard_broken(text@.take(start)) + line);
            if c == '\r' {
                held_cr = true;
            } else {
                result.push(c);
                held_cr = false;
            }
            in_line = true;
            proof {
                assert(text@.subrange(start, i + 1) == line.push(c));
            }
        }
    }
    let ghost tail = text@.subrange(start, text@.len() as int);
    if held_cr {
        result.push('\r');
    }
    assert(result@ == hard_broken(text@.take(start)) + tail);
    if in_line {
        result.push(' ');
        result.push(' ');
        result.push('\n');
    }
    proof {
        lemma_hard_broken_tail(tail);
        lemma_hard_broken_concat(text@.take(start), tail);
        assert(text@.take(start) + tail == text@);
    }
    result
}

} // verus!
