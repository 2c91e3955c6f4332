//! Making a text shorter without changing what its lines say.

use crate::text::{is_space, is_whitespace};
use vstd::prelude::*;
use vstd::string::*;

verus! {

/// `line` without the white space at its end.
pub open spec fn trimmed_end(line: Seq<char>) -> Seq<char>
    decreases line.len(),
{
    if line.len() > 0 && is_space(line.last()) {
        trimmed_end(line.drop_last())
    } else {
        line
    }
}

/// The number of characters in front of the first line feed of `text`, or in
/// all of `text` if it holds none.
pub open spec fn line_len(text: Seq<char>) -> nat
    decreases text.len(),
{
    if text.len() == 0 || text[0] == '\n' {
        0
    } else {
        1 + line_len(text.skip(1))
    }
}

/// What is kept of one line: nothing if only white space is on it, else the
/// line without the white space at its end, and a line feed.
pub open spec fn kept_line(line: Seq<char>) -> Seq<char> {
    let trimmed = trimmed_end(line);
    if trimmed.len() == 0 {
        trimmed
    } else {
        trimmed.push('\n')
    }
}

/// `text` line by line, a line being what stands between two line feeds or
/// between a line feed and an end of the text: each line as `kept_line`
/// leaves it, in order.
pub open spec fn compressed(text: Seq<char>) -> Seq<char>
    decreases text.len(),
{
    let n = line_len(text) as int;
    if n >= text.len() {
        kept_line(text)
    } else {
        kept_line(text.take(n)) + compressed(text.skip(n + 1))
    }
}

/// The first line of a text: it ends in front of the first line feed, or at
/// the end of a text that holds none.
pub proof fn lemma_first_line(text: Seq<char>)
    ensures
        line_len(text) <= text.len(),
        forall|i: int| 0 <= i < line_len(text) ==> text[i] != '\n',
        line_len(text) < text.len() ==> text[line_len(text) as int] == '\n',
    decreases text.len(),
{
    if !(text.len() == 0 || text[0] == '\n') {
        let rest = text.skip(1);
        lemma_first_line(rest);
        assert forall|i: int| 0 <= i < line_len(text) implies text[i] != '\n' by {
            if i > 0 {
                assert(text[i] == rest[i - 1]);
            }
        }
        assert(line_len(text) < text.len() ==> text[line_len(text) as int] == rest[line_len(
            rest,
        ) as int]);
    }
}

/// The first line of a text ends at `end` if no line feed stands in front of
/// `end` and one stands there, or the text ends there.
proof fn lemma_line_len(text: Seq<char>, end: int)
    requires
        0 <= end <= text.len(),
        forall|i: int| 0 <= i < end ==> text[i] != '\n',
        end == text.len() || text[end] == '\n',
    ensures
        line_len(text) == end,
    decreases end,
{
    if end > 0 {
        let rest = text.skip(1);
        assert forall|i: int| 0 <= i < end - 1 implies rest[i] != '\n' by {
            assert(rest[i] == text[i + 1]);
        }
        lemma_line_len(rest, end - 1);
    }
}

/// What trimming leaves: the start of the line up to its last character
/// that is not white space.
pub proof fn lemma_trimmed_end(line: Seq<char>)
    ensures
        trimmed_end(line).is_prefix_of(line),
        trimmed_end(line).len() > 0 ==> !is_space(trimmed_end(line).last()),
        forall|i: int| trimmed_end(line).len() <= i < line.len() ==> is_space(line[i]),
    decreases line.len(),
{
    if line.len() > 0 && is_space(line.last()) {
        let shorter = line.drop_last();
        lemma_trimmed_end(shorter);
        assert forall|i: int| trimmed_end(line).len() <= i < line.len() implies is_space(
            line[i],
        ) by {
            if i < shorter.len() {
                assert(shorter[i] == line[i]);
            }
        }
    }
}

/// What is kept of the first line of a text holds no line feed but the one
/// at its end.
proof fn lemma_kept_first_line(text: Seq<char>)
    ensures
        ({
            let line = trimmed_end(text.take(line_len(text) as int));
            &&& forall|i: int| 0 <= i < line.len() ==> line[i] != '\n'
            &&& line.len() > 0 ==> !is_space(line.last())
        }),
{
    let first = text.take(line_len(text) as int);
    let line = trimmed_end(first);
    lemma_first_line(text);
    lemma_trimmed_end(first);
    assert forall|i: int| 0 <= i < line.len() implies line[i] != '\n' by {
        assert(line[i] == first[i]);
    }
}

/// What a compressed text looks like: every line feed in it stands behind a
/// character that is not white space. So every line ends in a line feed, no
/// line is empty, and none ends in white space.
pub proof fn lemma_compressed_shape(text: Seq<char>)
    ensures
        compressed(text).len() > 0 ==> compressed(text).last() == '\n',
        forall|i: int|
            0 <= i < compressed(text).len() && #[trigger] compressed(text)[i] == '\n' ==> i > 0
                && !is_space(compressed(text)[i - 1]),
    decreases text.len(),
{
    let n = line_len(text) as int;
    let line = trimmed_end(text.take(n));
    lemma_first_line(text);
    lemma_kept_first_line(text);
    let head = kept_line(text.take(n));
    let rest = if n >= text.len() {
        Seq::<char>::empty()
    } else {
        compressed(text.skip(n + 1))
    };
    if n >= text.len() {
        assert(text.take(n) =~= text);
    } else {
        lemma_compressed_shape(text.skip(n + 1));
    }
    let out = head + rest;
    assert(compressed(text) =~= out);
    assert forall|i: int| 0 <= i < out.len() && #[trigger] out[i] == '\n' implies i > 0
        && !is_space(out[i - 1]) by {
        if i < head.len() {
            assert(head == line.push('\n'));
            assert(i == line.len());
            assert(out[i - 1] == line.last());
        } else {
            let j = i - head.len();
            assert(rest[j] == '\n');
            assert(out[i - 1] == rest[j - 1]);
        }
    }
    if out.len() > 0 {
        if rest.len() > 0 {
            assert(out.last() == rest.last());
        } else {
            assert(out =~= head);
        }
    }
}

/// Compressing a compressed text changes nothing.
pub proof fn lemma_compressed_again(text: Seq<char>)
    ensures
        compressed(compressed(text)) == compressed(text),
    decreases text.len(),
{
    let n = line_len(text) as int;
    let line = trimmed_end(text.take(n));
    lemma_first_line(text);
    lemma_kept_first_line(text);
    let rest = if n >= text.len() {
        Seq::<char>::empty()
    } else {
        compressed(text.skip(n + 1))
    };
    if n >= text.len() {
        assert(text.take(n) =~= text);
        assert(line_len(rest) == 0);
        assert(trimmed_end(rest) =~= rest);
    } else {
        lemma_compressed_again(text.skip(n + 1));
    }
    assert(compressed(text) == kept_line(text.take(n)) + rest);
    assert(compressed(rest) == rest);
    if line.len() == 0 {
        assert(kept_line(text.take(n)) + rest =~= rest);
    } else {
        let whole = line.push('\n') + rest;
        lemma_line_len(whole, line.len() as int);
        assert(whole.take(line.len() as int) =~= line);
        assert(whole.skip(line.len() as int + 1) =~= rest);
        assert(trimmed_end(line) == line);
    }
}

/// Removes from a text the lines that hold only white space, and the white
/// space at the end of the others. Every line that is left ends in a line
/// feed.
pub fn compress_string(string: String) -> (result: String)
    ensures
        result@ == compressed(string@),
{
    broadcast use vstd::string::group_string_axioms;

    let ghost text = string@;
    let mut result = String::new();
    let mut line = String::new();
    let mut gap = String::new();
    let ghost mut start: int = 0;
    assert(text.skip(0) =~= text);
    assert(result@ + compressed(text) =~= compressed(text));
    for c in it: string.as_str().chars()
        invariant
            it.seq() == text,
            text == string@,
            0 <= start <= it.index() <= text.len(),
            forall|i: int| start <= i < it.index() ==> text[i] != '\n',
            line@ + gap@ == text.subrange(start, it.index()),
            line@ == trimmed_end(text.subrange(start, it.index())),
            compressed(text) == result@ + compressed(text.skip(start)),
    {
        let ghost i = it.index();
        let ghost seen = text.subrange(start, i);
        assert(text.subrange(start, i + 1) =~= seen.push(c));
        if c == '\n' {
            proof {
                let tail = text.skip(start);
                lemma_line_len(tail, i - start);
                assert(tail.take(i - start) =~= seen);
                assert(tail.skip(i - start + 1) =~= text.skip(i + 1));
                assert(text.subrange(i + 1, i + 1) =~= Seq::<char>::empty());
            }
            if !line.as_str().is_empty() {
                result.append(line.as_str());
                result.push('\n');
            }
            proof {
                assert(result@ + compressed(text.skip(i + 1)) =~= compressed(text));
                start = i + 1;
            }
            line = String::new();
            gap = String::new();
        } else if is_whitespace(c) {
            gap.push(c);
            assert(line@ + gap@ =~= seen.push(c));
            assert(seen.push(c).drop_last() =~= seen);
        } else {
            line.append(gap.as_str());
            line.push(c);
            gap = String::new();
            assert(line@ + gap@ =~= seen.push(c));
        }
    }
    proof {
        let tail = text.skip(start);
        lemma_line_len(tail, text.len() - start);
        assert(tail =~= text.subrange(start, text.len() as int));
    }
    if !line.as_str().is_empty() {
        result.append(line.as_str());
        result.push('\n');
    }
    result
}

} // verus!
