//! Splitting a text into its lines.
//!
//! A line ends at a line feed, or at a carriage return directly followed by
//! one. Neither belongs to the line. The last line may go without an ending,
//! and a carriage return that no line feed follows is an ordinary character.

use vstd::prelude::*;
use crate::text::push_char;

verus! {

/// The index of the first line feed in `text`, or the length of `text` if it
/// holds none.
pub open spec fn first_line_feed(text: Seq<char>) -> nat
    decreases text.len(),
{
    if text.len() == 0 || text[0] == '\n' {
        0
    } else {
        1 + first_line_feed(text.drop_first())
    }
}

/// `line` without the carriage return at its end, if there is one.
pub open spec fn without_carriage_return(line: Seq<char>) -> Seq<char> {
    if line.len() > 0 && line.last() == '\r' {
        line.drop_last()
    } else {
        line
    }
}

/// The lines of `text`, in order and without their endings.
pub open spec fn lines_of(text: Seq<char>) -> Seq<Seq<char>>
    decreases text.len(),
{
    if text.len() == 0 {
        Seq::empty()
    } else {
        let end = first_line_feed(text) as int;
        if end >= text.len() {
            seq![text]
        } else {
            seq![without_carriage_return(text.take(end))] + lines_of(text.skip(end + 1))
        }
    }
}

/// What a vector of strings holds, as sequences of characters.
pub open spec fn line_views(lines: Seq<String>) -> Seq<Seq<char>> {
    lines.map_values(|line: String| line@)
}

/// `first_line_feed` is within the text, nothing before it is a line feed, and
/// what stands at it is one.
pub proof fn lemma_first_line_feed_bounds(text: Seq<char>)
    ensures
        first_line_feed(text) <= text.len(),
        forall|j: int| 0 <= j < first_line_feed(text) ==> text[j] != '\n',
        first_line_feed(text) < text.len() ==> text[first_line_feed(text) as int] == '\n',
    decreases text.len(),
{
    if text.len() == 0 || text[0] == '\n' {
    } else {
        let rest = text.drop_first();
        lemma_first_line_feed_bounds(rest);
        assert forall|j: int| 0 <= j < first_line_feed(text) implies text[j] != '\n' by {
            if j > 0 {
                assert(text[j] == rest[j - 1]);
            }
        }
        assert(first_line_feed(text) < text.len() ==> text[first_line_feed(text) as int]
            == rest[first_line_feed(rest) as int]);
    }
}

/// The first index that holds a line feed, or ends the text, is
/// `first_line_feed`.
pub proof fn lemma_first_line_feed_at(text: Seq<char>, k: int)
    requires
        0 <= k <= text.len(),
        forall|j: int| 0 <= j < k ==> text[j] != '\n',
        k < text.len() ==> text[k] == '\n',
    ensures
        first_line_feed(text) == k,
{
    lemma_first_line_feed_bounds(text);
    let f = first_line_feed(text) as int;
    if f < k {
        assert(text[f] != '\n');
    } else if k < f {
        assert(text[k] != '\n');
    }
}

/// How a line of a file ends.
pub enum Ending {
    /// A line feed.
    LineFeed,
    /// A carriage return and a line feed.
    CarriageReturnLineFeed,
    /// Nothing: the text stops after the line.
    Unfinished,
}

/// The characters that `ending` puts after a line.
pub open spec fn ending_chars(ending: Ending) -> Seq<char> {
    match ending {
        Ending::LineFeed => seq!['\n'],
        Ending::CarriageReturnLineFeed => seq!['\r', '\n'],
        Ending::Unfinished => Seq::empty(),
    }
}

/// The text of a file that holds `lines`, the i-th ended by `endings[i]`.
pub open spec fn written(lines: Seq<Seq<char>>, endings: Seq<Ending>) -> Seq<char>
    decreases lines.len(),
{
    if lines.len() == 0 {
        Seq::empty()
    } else {
        lines[0] + ending_chars(endings[0]) + written(lines.drop_first(), endings.drop_first())
    }
}

/// `line` holds no line feed.
pub open spec fn free_of_line_feeds(line: Seq<char>) -> bool {
    forall|j: int| 0 <= j < line.len() ==> line[j] != '\n'
}

/// `lines` and `endings` describe a file: no line holds a line feed; a line
/// ended by a bare line feed does not itself end in a carriage return, which
/// would read as part of the ending; and only the last line may be
/// unfinished, and then it is not empty.
pub open spec fn describes_file(lines: Seq<Seq<char>>, endings: Seq<Ending>) -> bool {
    &&& lines.len() == endings.len()
    &&& forall|i: int| 0 <= i < lines.len() ==> free_of_line_feeds(#[trigger] lines[i])
    &&& forall|i: int|
        0 <= i < lines.len() && #[trigger] endings[i] == Ending::LineFeed ==> without_carriage_return(
            lines[i],
        ) == lines[i]
    &&& forall|i: int|
        0 <= i < lines.len() && #[trigger] endings[i] == Ending::Unfinished ==> i == lines.len() - 1
            && lines[i].len() > 0
}

/// Reading back what was written gives the lines that were written: a file
/// of N lines splits into N lines, the i-th being the i-th line of the file
/// without its ending.
pub proof fn lemma_lines_of_written(lines: Seq<Seq<char>>, endings: Seq<Ending>)
    requires
        describes_file(lines, endings),
    ensures
        lines_of(written(lines, endings)) == lines,
    decreases lines.len(),
{
    if lines.len() == 0 {
        assert(lines == Seq::<Seq<char>>::empty());
    } else {
        let head = lines[0];
        let tail = lines.drop_first();
        let tail_endings = endings.drop_first();
        let tail_text = written(tail, tail_endings);
        let text = written(lines, endings);
        assert(free_of_line_feeds(head));
        assert(describes_file(tail, tail_endings)) by {
            assert forall|i: int| 0 <= i < tail.len() implies free_of_line_feeds(
                #[trigger] tail[i],
            ) by {
                assert(tail[i] == lines[i + 1]);
            }
            assert forall|i: int|
                0 <= i < tail.len() && #[trigger] tail_endings[i]
                    == Ending::LineFeed implies without_carriage_return(tail[i]) == tail[i] by {
                assert(tail_endings[i] == endings[i + 1]);
                assert(tail[i] == lines[i + 1]);
            }
            assert forall|i: int|
                0 <= i < tail.len() && #[trigger] tail_endings[i] == Ending::Unfinished implies i
                    == tail.len() - 1 && tail[i].len() > 0 by {
                assert(tail_endings[i] == endings[i + 1]);
                assert(tail[i] == lines[i + 1]);
            }
        }
        lemma_lines_of_written(tail, tail_endings);
        match endings[0] {
            Ending::Unfinished => {
                assert(tail.len() == 0);
                assert(text == head);
                lemma_first_line_feed_at(text, text.len() as int);
                assert(lines == seq![head]);
            },
            Ending::LineFeed => {
                let k = head.len() as int;
                assert(text == head + seq!['\n'] + tail_text);
                assert(text[k] == '\n');
                assert forall|j: int| 0 <= j < k implies text[j] != '\n' by {
                    assert(text[j] == head[j]);
                }
                lemma_first_line_feed_at(text, k);
                assert(text.take(k) == head);
                assert(text.skip(k + 1) == tail_text);
                assert(lines == seq![head] + tail);
            },
            Ending::CarriageReturnLineFeed => {
                let k = head.len() as int + 1;
                assert(text == head + seq!['\r', '\n'] + tail_text);
                assert(text[k] == '\n');
                assert forall|j: int| 0 <= j < k implies text[j] != '\n' by {
                    if j < k - 1 {
                        assert(text[j] == head[j]);
                    }
                }
                lemma_first_line_feed_at(text, k);
                assert(text.take(k) == head.push('\r'));
                assert(head.push('\r').drop_last() == head);
                assert(text.skip(k + 1) == tail_text);
                assert(lines == seq![head] + tail);
            },
        }
    }
}

/// No line of a text holds a line feed.
pub proof fn lemma_lines_hold_no_line_feed(text: Seq<char>)
    ensures
        forall|i: int| 0 <= i < lines_of(text).len() ==> free_of_line_feeds(#[trigger] lines_of(text)[i]),
    decreases text.len(),
{
    if text.len() > 0 {
        lemma_first_line_feed_bounds(text);
        let end = first_line_feed(text) as int;
        if end < text.len() {
            let rest = text.skip(end + 1);
            lemma_lines_hold_no_line_feed(rest);
            let first = without_carriage_return(text.take(end));
            assert forall|j: int| 0 <= j < first.len() implies first[j] != '\n' by {
                assert(first[j] == text[j]);
            }
            assert forall|i: int| 0 <= i < lines_of(text).len() implies free_of_line_feeds(
                #[trigger] lines_of(text)[i],
            ) by {
                if i > 0 {
                    assert(lines_of(text)[i] == lines_of(rest)[i - 1]);
                }
            }
        }
    }
}

/// Splits `text` into its lines.
pub fn split_lines(text: &str) -> (lines: Vec<String>)
    ensures
        line_views(lines@) == lines_of(text@),
{
    let mut lines: Vec<String> = Vec::new();
    let mut line = String::new();
    // A carriage return has been read and is not yet part of `line`: whether
    // it belongs to the line depends on the character after it.
    let mut held_back = false;
    let ghost mut start: int = 0;
    assert(text@.skip(0) == text@);
    assert(line_views(lines@) + lines_of(text@) == lines_of(text@));
    for c in it: text.chars()
        invariant
            it.seq() == text@,
            0 <= start <= it.index(),
            forall|j: int| start <= j < it.index() ==> text@[j] != '\n',
            text@.subrange(start, it.index() as int) == (if held_back {
                line@.push('\r')
            } else {
                line@
            }),
            !held_back && line@.len() > 0 ==> line@.last() != '\r',
            lines_of(text@) == line_views(lines@) + lines_of(text@.skip(start)),
    {
        let ghost at = it.index() as int;
        let ghost rest = text@.skip(start);
        if c == '\n' {
            proof {
                assert forall|j: int| 0 <= j < at - start implies rest[j] != '\n' by {
                    assert(rest[j] == text@[start + j]);
                }
                assert(rest[at - start] == text@[at]);
                lemma_first_line_feed_at(rest, at - start);
                assert(rest.take(at - start) == text@.subrange(start, at));
                assert(rest.skip(at - start + 1) == text@.skip(at + 1));
                if held_back {
                    assert(line@.push('\r').drop_last() == line@);
                }
                assert(without_carriage_return(rest.take(at - start)) == line@);
                assert(line_views(lines@.push(line)) == line_views(lines@).push(line@));
                assert(lines_of(rest) == seq![line@] + lines_of(text@.skip(at + 1)));
                start = at + 1;
            }
            lines.push(line);
            line = String::new();
            held_back = false;
            assert(text@.subrange(start, at + 1) == Seq::<char>::empty());
        } else {
            if held_back {
                push_char(&mut line, '\r');
            }
            if c == '\r' {
                held_back = true;
            } else {
                push_char(&mut line, c);
                held_back = false;
            }
            assert(text@.subrange(start, at + 1) == text@.subrange(start, at).push(c));
        }
    }
    let ghost rest = text@.skip(start);
    if held_back {
        push_char(&mut line, '\r');
    }
    assert(line@ == rest);
    if !line.as_str().is_empty() {
        proof {
            assert forall|j: int| 0 <= j < rest.len() implies rest[j] != '\n' by {
                assert(rest[j] == text@[start + j]);
            }
            lemma_first_line_feed_at(rest, rest.len() as int);
            assert(line_views(lines@.push(line)) == line_views(lines@).push(line@));
        }
        lines.push(line);
    }
    lines
}

} // verus!
