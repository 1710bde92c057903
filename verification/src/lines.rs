//! The line model: splitting a text into lines that keep their terminators.
//!
//! A line is a maximal chunk of the input that ends with `'\n'` (the
//! terminator `"\n"` or `"\r\n"` is part of the line), except that the final
//! line of a text that does not end with `'\n'` has no terminator at all.
//! Concatenating the lines of a text gives back the text unchanged.

use vstd::prelude::*;
use vstd::string::StrSliceExecFns;
use vstd::string::StringExecFns;

verus! {

/// The index of the first `'\n'` in `text` at or after `from`, or
/// `text.len()` when there is none.
pub open spec fn find_newline(text: Seq<char>, from: int) -> int
    decreases text.len() - from,
{
    if from < 0 {
        0
    } else if from >= text.len() {
        text.len() as int
    } else if text[from] == '\n' {
        from
    } else {
        find_newline(text, from + 1)
    }
}

pub proof fn lemma_find_newline(text: Seq<char>, from: int)
    requires
        0 <= from <= text.len(),
    ensures
        from <= find_newline(text, from) <= text.len(),
        find_newline(text, from) < text.len() ==> text[find_newline(text, from)] == '\n',
        forall|j: int| from <= j < find_newline(text, from) ==> text[j] != '\n',
    decreases text.len() - from,
{
    if from < text.len() && text[from] != '\n' {
        lemma_find_newline(text, from + 1);
    }
}

/// `find_newline` lands exactly on a position `k` that carries the first
/// `'\n'` at or after `from` (or on `text.len()` when there is none).
pub proof fn lemma_find_newline_at(text: Seq<char>, from: int, k: int)
    requires
        0 <= from <= k <= text.len(),
        forall|j: int| from <= j < k ==> text[j] != '\n',
        k < text.len() ==> text[k] == '\n',
    ensures
        find_newline(text, from) == k,
    decreases k - from,
{
    if from < k {
        lemma_find_newline_at(text, from + 1, k);
    }
}

/// The lines of `text` starting at position `start`.
pub open spec fn spec_lines_from(text: Seq<char>, start: int) -> Seq<Seq<char>>
    decreases text.len() - start,
    via spec_lines_from_decreases
{
    if start < 0 || start >= text.len() {
        Seq::empty()
    } else {
        let e = find_newline(text, start);
        if e >= text.len() {
            seq![text.subrange(start, text.len() as int)]
        } else {
            seq![text.subrange(start, e + 1)] + spec_lines_from(text, e + 1)
        }
    }
}

#[via_fn]
proof fn spec_lines_from_decreases(text: Seq<char>, start: int) {
    if 0 <= start < text.len() {
        lemma_find_newline(text, start);
    }
}

/// The lines of `text`, each including its terminator.
pub open spec fn spec_lines(text: Seq<char>) -> Seq<Seq<char>> {
    spec_lines_from(text, 0)
}

/// How many characters of `line` form its terminator: 2 for `"\r\n"`,
/// 1 for a bare `"\n"`, 0 when the line has no terminator.
pub open spec fn line_term_len(line: Seq<char>) -> int {
    if line.len() >= 2 && line[line.len() - 2] == '\r' && line[line.len() - 1] == '\n' {
        2
    } else if line.len() >= 1 && line[line.len() - 1] == '\n' {
        1
    } else {
        0
    }
}

/// The line without its terminator.
pub open spec fn line_content(line: Seq<char>) -> Seq<char> {
    line.subrange(0, line.len() - line_term_len(line))
}

/// The line's terminator: `"\r\n"`, `"\n"`, or empty.
pub open spec fn line_term(line: Seq<char>) -> Seq<char> {
    line.subrange(line.len() - line_term_len(line), line.len() as int)
}

/// A line is exactly its content followed by its terminator.
pub proof fn lemma_line_decomposition(line: Seq<char>)
    ensures
        line_content(line) + line_term(line) == line,
        line_term(line).len() == line_term_len(line),
{
    assert(line_content(line) + line_term(line) =~= line);
}

/// The concatenation of a sequence of character sequences.
pub open spec fn concat_all(chunks: Seq<Seq<char>>) -> Seq<char>
    decreases chunks.len(),
{
    if chunks.len() == 0 {
        Seq::empty()
    } else {
        chunks[0] + concat_all(chunks.skip(1))
    }
}

pub proof fn lemma_concat_all_push(chunks: Seq<Seq<char>>, last: Seq<char>)
    ensures
        concat_all(chunks.push(last)) == concat_all(chunks) + last,
    decreases chunks.len(),
{
    if chunks.len() == 0 {
        reveal_with_fuel(concat_all, 2);
        assert(chunks.push(last).skip(1) =~= Seq::<Seq<char>>::empty());
        assert(concat_all(chunks.push(last)) =~= concat_all(chunks) + last);
    } else {
        assert(chunks.push(last).skip(1) =~= chunks.skip(1).push(last));
        lemma_concat_all_push(chunks.skip(1), last);
        assert(concat_all(chunks.push(last)) =~= concat_all(chunks) + last);
    }
}

proof fn lemma_lines_from_concat(text: Seq<char>, start: int)
    requires
        0 <= start <= text.len(),
    ensures
        concat_all(spec_lines_from(text, start)) == text.subrange(start, text.len() as int),
    decreases text.len() - start,
{
    if start >= text.len() {
        assert(concat_all(spec_lines_from(text, start))
            =~= text.subrange(start, text.len() as int));
    } else {
        let e = find_newline(text, start);
        lemma_find_newline(text, start);
        if e >= text.len() {
            reveal_with_fuel(concat_all, 2);
            let single = seq![text.subrange(start, text.len() as int)];
            assert(single.skip(1) =~= Seq::<Seq<char>>::empty());
            assert(concat_all(single) =~= text.subrange(start, text.len() as int));
        } else {
            lemma_lines_from_concat(text, e + 1);
            let rest = spec_lines_from(text, e + 1);
            let lines = seq![text.subrange(start, e + 1)] + rest;
            assert(lines.skip(1) =~= rest);
            assert(lines[0] == text.subrange(start, e + 1));
            assert(concat_all(lines) =~= text.subrange(start, text.len() as int));
        }
    }
}

/// Splitting loses nothing: the lines of a text concatenate back to the text.
pub proof fn lemma_lines_concat(text: Seq<char>)
    ensures
        concat_all(spec_lines(text)) == text,
{
    lemma_lines_from_concat(text, 0);
    assert(text.subrange(0, text.len() as int) =~= text);
}

proof fn lemma_lines_from_shape(text: Seq<char>, start: int)
    requires
        0 <= start < text.len(),
    ensures
        spec_lines_from(text, start).len() > 0,
        forall|i: int|
            0 <= i < spec_lines_from(text, start).len()
                ==> #[trigger] spec_lines_from(text, start)[i].len() > 0,
        forall|i: int|
            0 <= i < spec_lines_from(text, start).len() - 1
                ==> #[trigger] spec_lines_from(text, start)[i].last() == '\n',
        forall|i: int, j: int|
            0 <= i < spec_lines_from(text, start).len() && 0 <= j < spec_lines_from(
                text,
                start,
            )[i].len() - 1 ==> #[trigger] spec_lines_from(text, start)[i][j] != '\n',
        spec_lines_from(text, start).last().last() == text.last(),
    decreases text.len() - start,
{
    let e = find_newline(text, start);
    lemma_find_newline(text, start);
    if e >= text.len() {
        assert(spec_lines_from(text, start).last() == text.subrange(start, text.len() as int));
    } else if e + 1 == text.len() {
        let lines = spec_lines_from(text, start);
        assert(spec_lines_from(text, e + 1) =~= Seq::<Seq<char>>::empty());
        assert(lines =~= seq![text.subrange(start, e + 1)]);
        assert(lines.last().last() == text[e]);
    } else {
        lemma_lines_from_shape(text, e + 1);
        let first = text.subrange(start, e + 1);
        let rest = spec_lines_from(text, e + 1);
        let lines = spec_lines_from(text, start);
        assert(lines == seq![first] + rest);
        assert(lines[0] == first);
        assert(first.last() == text[e]);
        assert(forall|i: int| 1 <= i < lines.len() ==> lines[i] == rest[i - 1]);
        assert(lines.last() == rest.last());
    }
}

/// Every line produced by `spec_lines` is nonempty and holds `'\n'` only as
/// its final character, every line but the last ends with `'\n'`, and the
/// last line ends with the text's own last character — so a text without a
/// trailing `'\n'` yields a final line without a terminator.
pub proof fn lemma_lines_shape(text: Seq<char>)
    requires
        text.len() > 0,
    ensures
        spec_lines(text).len() > 0,
        forall|i: int|
            0 <= i < spec_lines(text).len() ==> #[trigger] spec_lines(text)[i].len() > 0,
        forall|i: int|
            0 <= i < spec_lines(text).len() - 1
                ==> #[trigger] spec_lines(text)[i].last() == '\n',
        forall|i: int, j: int|
            0 <= i < spec_lines(text).len() && 0 <= j < spec_lines(text)[i].len() - 1
                ==> #[trigger] spec_lines(text)[i][j] != '\n',
        spec_lines(text).last().last() == text.last(),
        text.last() != '\n' ==> line_term(spec_lines(text).last()).len() == 0,
{
    lemma_lines_from_shape(text, 0);
    let last = spec_lines(text).last();
    if text.last() != '\n' {
        assert(line_term_len(last) == 0);
        assert(line_term(last) =~= Seq::<char>::empty());
    }
}

/// Splits `text` into its lines; each returned line keeps its terminator.
pub fn split_lines(text: &str) -> (result: Vec<String>)
    ensures
        result@.map_values(|l: String| l@) == spec_lines(text@),
{
    let n = text.unicode_len();
    let mut result: Vec<String> = Vec::new();
    let mut start: usize = 0;
    let mut i: usize = 0;
    while i < n
        invariant
            n == text@.len(),
            start <= i <= n,
            forall|j: int| start <= j < i ==> text@[j] != '\n',
            result@.map_values(|l: String| l@) + spec_lines_from(text@, start as int)
                == spec_lines(text@),
        decreases n - i,
    {
        if text.get_char(i) == '\n' {
            let line = text.substring_char(start, i + 1);
            let ghost prev = result@.map_values(|l: String| l@);
            result.push(String::from_str(line));
            proof {
                lemma_find_newline_at(text@, start as int, i as int);
                assert(result@.map_values(|l: String| l@) =~= prev.push(line@));
                assert(prev.push(line@) + spec_lines_from(text@, i + 1 as int)
                    =~= prev + spec_lines_from(text@, start as int));
            }
            start = i + 1;
        }
        i = i + 1;
    }
    if start < n {
        let line = text.substring_char(start, n);
        let ghost prev = result@.map_values(|l: String| l@);
        result.push(String::from_str(line));
        proof {
            lemma_find_newline_at(text@, start as int, n as int);
            assert(result@.map_values(|l: String| l@) =~= prev.push(line@));
            assert(prev.push(line@) =~= prev + spec_lines_from(text@, start as int));
        }
    }
    result
}

} // verus!
