//! The stream replacer: applies a compiled pattern, an optional line filter
//! and a replacement to text, one line at a time.
//!
//! Each line is gated through the filter (a line that does not match the
//! filter passes through unchanged); an eligible line has every
//! non-overlapping occurrence of the pattern replaced within its content,
//! and its terminator is appended back verbatim, untouched by substitution.

use vstd::prelude::*;
use vstd::string::StrSliceExecFns;
use vstd::string::StringExecFns;
use crate::lines::concat_all;
use crate::lines::lemma_concat_all_push;
use crate::lines::lemma_line_decomposition;
use crate::lines::lemma_lines_shape;
use crate::lines::line_content;
use crate::lines::line_term;
use crate::lines::line_term_len;
use crate::lines::spec_lines;
use crate::lines::split_lines;
use crate::pattern::regex_is_match;
use crate::pattern::regex_matches;
use crate::pattern::regex_replace_all;
use crate::pattern::regex_replaced;
use crate::pattern::CompiledPattern;

verus! {

/// Whether a line is eligible for substitution: with no filter every line is,
/// with a filter exactly the lines the filter matches are. The filter sees
/// the whole line, terminator included.
pub open spec fn spec_gate(filter: Option<(Seq<char>, bool)>, line: Seq<char>) -> bool {
    match filter {
        None => true,
        Some((fpat, fci)) => regex_matches(fpat, fci, line),
    }
}

/// What the replacer emits for one line: the line unchanged when the filter
/// rejects it, otherwise the substituted content followed by the original
/// terminator.
pub open spec fn spec_process_line(
    pattern: Seq<char>,
    ignore_case: bool,
    filter: Option<(Seq<char>, bool)>,
    replacement: Seq<char>,
    line: Seq<char>,
) -> Seq<char> {
    if spec_gate(filter, line) {
        regex_replaced(pattern, ignore_case, line_content(line), replacement) + line_term(line)
    } else {
        line
    }
}

/// What the replacer emits for a whole text: the concatenation of the
/// per-line results over the text's lines.
pub open spec fn spec_process_text(
    pattern: Seq<char>,
    ignore_case: bool,
    filter: Option<(Seq<char>, bool)>,
    replacement: Seq<char>,
    text: Seq<char>,
) -> Seq<char> {
    concat_all(
        spec_lines(text).map_values(
            |line: Seq<char>| spec_process_line(pattern, ignore_case, filter, replacement, line),
        ),
    )
}

/// A compiled substitution job: the search pattern, the optional line
/// filter, and the replacement text, shared read-only across all inputs of
/// one run.
pub struct Engine {
    pattern: CompiledPattern,
    filter: Option<CompiledPattern>,
    replacement: String,
}

impl Engine {
    /// The effective search pattern text.
    pub closed spec fn pat(&self) -> Seq<char> {
        self.pattern.pat()
    }

    /// Whether matching ignores case.
    pub closed spec fn ci(&self) -> bool {
        self.pattern.ci()
    }

    /// The line filter as pattern text and case flag, if one is configured.
    pub closed spec fn filter_spec(&self) -> Option<(Seq<char>, bool)> {
        match self.filter {
            None => None,
            Some(f) => Some((f.pat(), f.ci())),
        }
    }

    /// The replacement text.
    pub closed spec fn rep(&self) -> Seq<char> {
        self.replacement@
    }

    /// Assembles an engine from compiled parts.
    pub fn new(pattern: CompiledPattern, filter: Option<CompiledPattern>, replacement: String) -> (
        engine: Engine)
        ensures
            engine.pat() == pattern.pat(),
            engine.ci() == pattern.ci(),
            engine.rep() == replacement@,
            engine.filter_spec() == match filter {
                None => None::<(Seq<char>, bool)>,
                Some(f) => Some((f.pat(), f.ci())),
            },
    {
        Engine { pattern, filter, replacement }
    }

    /// Emits the replacer's output for one line (terminator included): the
    /// line unchanged when a filter is present and rejects it, otherwise the
    /// substituted content with the original terminator appended verbatim.
    pub fn process_line(&self, line: &str) -> (out: String)
        ensures
            out@ == spec_process_line(self.pat(), self.ci(), self.filter_spec(), self.rep(), line@),
    {
        let eligible = match &self.filter {
            None => true,
            Some(f) => regex_is_match(f, line),
        };
        if eligible {
            let n = line.unicode_len();
            let k = terminator_len(line);
            let content = line.substring_char(0, n - k);
            let term = line.substring_char(n - k, n);
            let mut out = regex_replace_all(&self.pattern, content, self.replacement.as_str());
            proof {
                assert(content@ =~= line_content(line@));
                assert(term@ =~= line_term(line@));
            }
            out.append(term);
            out
        } else {
            String::from_str(line)
        }
    }

    /// Emits the replacer's output for a whole text: every line processed in
    /// order, terminators preserved, results concatenated.
    pub fn process_text(&self, text: &str) -> (out: String)
        ensures
            out@ == spec_process_text(self.pat(), self.ci(), self.filter_spec(), self.rep(), text@),
    {
        let ghost mapper = |line: Seq<char>|
            spec_process_line(self.pat(), self.ci(), self.filter_spec(), self.rep(), line);
        let ghost chunks = spec_lines(text@).map_values(mapper);
        let lines = split_lines(text);
        let mut out = String::new();
        let mut i: usize = 0;
        while i < lines.len()
            invariant
                lines@.map_values(|l: String| l@) == spec_lines(text@),
                chunks == spec_lines(text@).map_values(mapper),
                mapper == (|line: Seq<char>|
                    spec_process_line(self.pat(), self.ci(), self.filter_spec(), self.rep(), line)),
                i <= lines.len(),
                out@ == concat_all(chunks.take(i as int)),
            decreases lines.len() - i,
        {
            let chunk = self.process_line(lines[i].as_str());
            out.append(chunk.as_str());
            proof {
                assert(lines@.map_values(|l: String| l@)[i as int] == lines@[i as int]@);
                assert(chunks.take(i + 1 as int) =~= chunks.take(i as int).push(chunk@));
                lemma_concat_all_push(chunks.take(i as int), chunk@);
            }
            i = i + 1;
        }
        proof {
            assert(chunks.take(lines@.len() as int) =~= chunks);
        }
        out
    }
}

/// The number of characters of `line` that form its terminator.
fn terminator_len(line: &str) -> (k: usize)
    ensures
        k as int == line_term_len(line@),
        k <= line@.len(),
{
    let n = line.unicode_len();
    if n >= 2 && line.get_char(n - 2) == '\r' && line.get_char(n - 1) == '\n' {
        2
    } else if n >= 1 && line.get_char(n - 1) == '\n' {
        1
    } else {
        0
    }
}

/// The filter is a pure gate: a line the filter does not match is emitted
/// byte-identical to the input, and a line it does match undergoes exactly
/// the substitution an unfiltered run would apply (which may match zero
/// times).
pub proof fn lemma_filter_is_pure_gate(
    pattern: Seq<char>,
    ignore_case: bool,
    fpat: Seq<char>,
    fci: bool,
    replacement: Seq<char>,
    line: Seq<char>,
)
    ensures
        !regex_matches(fpat, fci, line) ==> spec_process_line(
            pattern,
            ignore_case,
            Some((fpat, fci)),
            replacement,
            line,
        ) == line,
        regex_matches(fpat, fci, line) ==> spec_process_line(
            pattern,
            ignore_case,
            Some((fpat, fci)),
            replacement,
            line,
        ) == spec_process_line(pattern, ignore_case, None, replacement, line),
{
}

/// Terminator style is preserved verbatim per line: what is emitted for a
/// line is its (possibly substituted) content followed by exactly the line's
/// own terminator, which substitution never touches.
pub proof fn lemma_terminator_preserved(
    pattern: Seq<char>,
    ignore_case: bool,
    filter: Option<(Seq<char>, bool)>,
    replacement: Seq<char>,
    line: Seq<char>,
)
    ensures
        spec_process_line(pattern, ignore_case, filter, replacement, line) == (if spec_gate(
            filter,
            line,
        ) {
            regex_replaced(pattern, ignore_case, line_content(line), replacement)
        } else {
            line_content(line)
        }) + line_term(line),
{
    lemma_line_decomposition(line);
}

/// No synthetic terminator: when a text does not end with a line terminator,
/// its final line has none, and what is emitted for that line is the bare
/// substitution result (or the bare line), with nothing appended.
pub proof fn lemma_no_trailing_terminator(
    pattern: Seq<char>,
    ignore_case: bool,
    filter: Option<(Seq<char>, bool)>,
    replacement: Seq<char>,
    text: Seq<char>,
)
    requires
        text.len() > 0,
        text.last() != '\n',
    ensures
        spec_lines(text).len() > 0,
        line_term(spec_lines(text).last()).len() == 0,
        spec_process_line(pattern, ignore_case, filter, replacement, spec_lines(text).last())
            == (if spec_gate(filter, spec_lines(text).last()) {
            regex_replaced(pattern, ignore_case, spec_lines(text).last(), replacement)
        } else {
            spec_lines(text).last()
        }),
{
    lemma_lines_shape(text);
    let last = spec_lines(text).last();
    lemma_line_decomposition(last);
    assert(line_content(last) =~= last);
    assert(spec_process_line(pattern, ignore_case, filter, replacement, last) =~= (
    if spec_gate(filter, last) {
        regex_replaced(pattern, ignore_case, last, replacement)
    } else {
        last
    }));
}

} // verus!
