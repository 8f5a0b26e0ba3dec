//! Lines of text, as a log written one record per line is read back.
use vstd::prelude::*;
use crate::text::{chars_of, lemma_run_len, lemma_run_stops, run_len, string_of};

verus! {

/// The position of the first line feed of `s`, or the length of `s` where it
/// has none.
pub open spec fn line_end(s: Seq<char>) -> nat {
    run_len(s, |c: char| c == '\n')
}

/// `line` without the carriage return that it ends with, if it ends with one.
pub open spec fn without_carriage_return(line: Seq<char>) -> Seq<char> {
    if line.len() > 0 && line.last() == '\r' {
        line.drop_last()
    } else {
        line
    }
}

/// The lines of `s`. A line ends at a line feed, or at a carriage return
/// directly followed by one; neither belongs to the line. What follows the
/// last line feed is a line of its own unless it is empty, and keeps a
/// carriage return that it ends with.
pub open spec fn lines(s: Seq<char>) -> Seq<Seq<char>>
    decreases s.len(),
{
    if s.len() == 0 {
        Seq::empty()
    } else if line_end(s) >= s.len() {
        seq![s]
    } else {
        seq![without_carriage_return(s.take(line_end(s) as int))] + lines(
            s.skip(line_end(s) as int + 1),
        )
    }
}

/// The lines of `s` that hold at least one character, in order.
pub open spec fn nonempty_lines(s: Seq<char>) -> Seq<Seq<char>> {
    lines(s).filter(|line: Seq<char>| line.len() > 0)
}

/// Whether `line` holds no line feed.
pub open spec fn is_one_line(line: Seq<char>) -> bool {
    forall|k: int| 0 <= k < line.len() ==> #[trigger] line[k] != '\n'
}

/// No line holds a line feed.
pub proof fn lemma_lines_hold_no_line_feed(s: Seq<char>)
    ensures
        forall|i: int| 0 <= i < lines(s).len() ==> is_one_line(#[trigger] lines(s)[i]),
    decreases s.len(),
{
    if s.len() > 0 {
        lemma_run_stops(s, |c: char| c == '\n');
        let end = line_end(s) as int;
        if end < s.len() {
            let first = without_carriage_return(s.take(end));
            let rest = lines(s.skip(end + 1));
            lemma_lines_hold_no_line_feed(s.skip(end + 1));
            assert(lines(s) == seq![first] + rest);
            assert(is_one_line(first)) by {
                assert forall|k: int| 0 <= k < first.len() implies #[trigger] first[k] != '\n' by {
                    assert(first[k] == s[k]);
                }
            }
            assert forall|i: int| 0 <= i < lines(s).len() implies is_one_line(
                #[trigger] lines(s)[i],
            ) by {
                if i == 0 {
                    assert(lines(s)[0] == first);
                } else {
                    assert(lines(s)[i] == rest[i - 1]);
                }
            }
        } else {
            assert(lines(s) == seq![s]);
        }
    }
}

/// Whether `line` can stand for a record: it holds at least one character,
/// and no line feed.
pub open spec fn is_record_line(line: Seq<char>) -> bool {
    line.len() > 0 && is_one_line(line)
}

/// Every non-empty line of a text can stand for a record.
pub proof fn lemma_nonempty_lines_are_record_lines(s: Seq<char>)
    ensures
        forall|i: int|
            0 <= i < nonempty_lines(s).len() ==> is_record_line(#[trigger] nonempty_lines(s)[i]),
{
    let keep = |line: Seq<char>| line.len() > 0;
    let kept = lines(s).filter(keep);
    lemma_lines_hold_no_line_feed(s);
    assert forall|i: int| 0 <= i < kept.len() implies is_record_line(#[trigger] kept[i]) by {
        lines(s).lemma_filter_pred(keep, i);
        assert(kept.contains(kept[i]));
        lines(s).lemma_filter_contains_rev(keep, kept[i]);
        let at = choose|at: int| 0 <= at < lines(s).len() && lines(s)[at] == kept[i];
        assert(is_one_line(lines(s)[at]));
    }
}

proof fn lemma_nonempty_lines_step(s: Seq<char>, end: int)
    requires
        0 <= end < s.len(),
        forall|k: int| 0 <= k < end ==> #[trigger] s[k] != '\n',
        s[end] == '\n',
    ensures
        nonempty_lines(s) == {
            let line = without_carriage_return(s.take(end));
            if line.len() > 0 {
                seq![line] + nonempty_lines(s.skip(end + 1))
            } else {
                nonempty_lines(s.skip(end + 1))
            }
        },
{
    let stop = |c: char| c == '\n';
    lemma_run_len(s, stop, end);
    let nonempty = |line: Seq<char>| line.len() > 0;
    let line = without_carriage_return(s.take(end));
    let rest = lines(s.skip(end + 1));
    assert(lines(s) == seq![line] + rest);
    Seq::filter_distributes_over_add(seq![line], rest, nonempty);
    lemma_filter_one(line);
    if line.len() == 0 {
        assert(Seq::<Seq<char>>::empty() + rest.filter(nonempty) == rest.filter(nonempty));
    }
}

proof fn lemma_filter_one(line: Seq<char>)
    ensures
        seq![line].filter(|line: Seq<char>| line.len() > 0) == if line.len() > 0 {
            seq![line]
        } else {
            Seq::empty()
        },
{
    reveal_with_fuel(Seq::filter, 2);
    assert(seq![line].drop_last() == Seq::<Seq<char>>::empty());
    assert(Seq::<Seq<char>>::empty().push(line) == seq![line]);
}

proof fn lemma_nonempty_lines_last(s: Seq<char>)
    requires
        forall|k: int| 0 <= k < s.len() ==> #[trigger] s[k] != '\n',
    ensures
        nonempty_lines(s) == if s.len() > 0 {
            seq![s]
        } else {
            Seq::empty()
        },
{
    let stop = |c: char| c == '\n';
    lemma_run_len(s, stop, s.len() as int);
    if s.len() > 0 {
        lemma_filter_one(s);
    } else {
        reveal(Seq::filter);
    }
}

/// Splits `content` into lines and returns those that are not empty, in
/// order. Each of them can stand for a record.
pub fn nonempty_lines_of(content: &str) -> (found: Vec<String>)
    ensures
        found.deep_view() == nonempty_lines(content@),
        forall|i: int| 0 <= i < found@.len() ==> is_record_line(#[trigger] found@[i]@),
{
    proof {
        lemma_nonempty_lines_are_record_lines(content@);
    }
    let chars = chars_of(content);
    let n = chars.len();
    let mut found: Vec<String> = Vec::new();
    let mut start: usize = 0;
    let mut i: usize = 0;
    assert(content@.skip(0) == content@);
    assert(found.deep_view() == Seq::<Seq<char>>::empty());
    while i < n
        invariant
            chars@ == content@,
            n == chars.len(),
            start <= i <= n,
            forall|k: int| start <= k < i ==> #[trigger] content@[k] != '\n',
            nonempty_lines(content@) == found.deep_view() + nonempty_lines(
                content@.skip(start as int),
            ),
        decreases n - i,
    {
        if chars[i] == '\n' {
            let end = if i > start && chars[i - 1] == '\r' {
                i - 1
            } else {
                i
            };
            let ghost rest = content@.skip(start as int);
            proof {
                assert forall|k: int| 0 <= k < i - start implies #[trigger] rest[k] != '\n' by {
                    assert(rest[k] == content@[start + k]);
                }
                lemma_nonempty_lines_step(rest, i - start);
                assert(rest.take(i - start) == content@.subrange(start as int, i as int));
                assert(rest.skip(i - start + 1) == content@.skip(i + 1));
                assert(without_carriage_return(content@.subrange(start as int, i as int))
                    == content@.subrange(start as int, end as int));
            }
            if end > start {
                let line = string_of(&chars, start, end);
                let ghost before = found.deep_view();
                found.push(line);
                assert(found.deep_view() == before + seq![line@]);
            }
            start = i + 1;
        }
        i += 1;
    }
    proof {
        let rest = content@.skip(start as int);
        assert forall|k: int| 0 <= k < rest.len() implies #[trigger] rest[k] != '\n' by {
            assert(rest[k] == content@[start + k]);
        }
        lemma_nonempty_lines_last(rest);
        assert(rest == content@.subrange(start as int, n as int));
    }
    if start < n {
        let line = string_of(&chars, start, n);
        let ghost before = found.deep_view();
        found.push(line);
        assert(found.deep_view() == before + seq![line@]);
    }
    assert forall|i: int| 0 <= i < found@.len() implies is_record_line(#[trigger] found@[i]@) by {
        assert(found@[i]@ == found.deep_view()[i]);
    }
    found
}

} // verus!
