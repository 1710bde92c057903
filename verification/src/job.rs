//! The job description and its orchestration rules: validation, pattern
//! planning, per-input output routing, and the in-place edit protocol's
//! step order and error mapping.

use vstd::prelude::*;
use crate::engine::Engine;
use crate::errors::SubError;
use crate::pattern::compile;
use crate::pattern::regex_compiles;
use crate::pattern::spec_effective_pattern;

verus! {

/// A logical input source: the process's standard input, or a named file.
/// It identifies the source; it does not own an open stream.
#[derive(Debug, Clone, PartialEq, Eq)]
pub enum Input {
    StdIn,
    File(String),
}

/// An immutable description of one substitution run, constructed once from
/// user input and never mutated.
pub struct Sub {
    /// The search pattern.
    pub pattern: String,
    /// The replacement text for each match.
    pub replacement: String,
    /// Whether file inputs are rewritten in place.
    pub in_place: bool,
    /// Whether the pattern only matches whole words.
    pub whole_word: bool,
    /// Whether matching ignores case.
    pub ignore_case: bool,
    /// An optional pattern that gates which lines are substituted.
    pub match_pattern: Option<String>,
    /// The inputs, processed strictly in order.
    pub inputs: Vec<Input>,
}

/// Where one input's output goes: back into the file it came from, or to the
/// process's standard output.
#[derive(Debug, Clone, Copy, PartialEq, Eq)]
pub enum Route {
    InPlace,
    Stream,
}

/// How the standard-output sink buffers: line-by-line for an interactive
/// terminal, block-buffered otherwise. A performance choice only; it never
/// changes output content.
#[derive(Debug, Clone, Copy, PartialEq, Eq)]
pub enum WriterKind {
    Interactive,
    Buffered,
}

/// The distinct steps of an in-place edit, in protocol order: open the
/// original for reading, create a scratch file, run the replacer into it,
/// read the original's permission bits, apply them to the scratch file, and
/// copy the scratch file's contents over the original path.
#[derive(Debug, Clone, Copy, PartialEq, Eq)]
pub enum InPlaceStep {
    OpenOriginal,
    CreateTempFile,
    Replace,
    ReadPermissions,
    SetPermissions,
    CopyBack,
}

impl Sub {
    /// Whether in-place mode is legal for this job: it demands at least one
    /// file input; standard input cannot be edited in place.
    pub open spec fn in_place_allowed(&self) -> bool {
        self.in_place ==> exists|i: int|
            0 <= i < self.inputs@.len() && self.inputs@[i] is File
    }

    /// The line filter's pattern text and case flag, when one is configured.
    pub open spec fn spec_filter(&self) -> Option<(Seq<char>, bool)> {
        match self.match_pattern {
            None => None,
            Some(fpat) => Some((fpat@, self.ignore_case)),
        }
    }

    /// Whether every configured pattern compiles: the (possibly whole-word
    /// wrapped) search pattern, and the line filter when present.
    pub open spec fn patterns_compile(&self) -> bool {
        &&& regex_compiles(
            spec_effective_pattern(self.pattern@, self.whole_word),
            self.ignore_case,
        )
        &&& match self.match_pattern {
            None => true,
            Some(fpat) => regex_compiles(fpat@, self.ignore_case),
        }
    }

    /// Builds a job description. The fields are stored exactly as given.
    pub fn init(
        pattern: String,
        replacement: String,
        in_place: bool,
        whole_word: bool,
        ignore_case: bool,
        match_pattern: Option<String>,
        inputs: Vec<Input>,
    ) -> (job: Sub)
        ensures
            job.pattern == pattern,
            job.replacement == replacement,
            job.in_place == in_place,
            job.whole_word == whole_word,
            job.ignore_case == ignore_case,
            job.match_pattern == match_pattern,
            job.inputs == inputs,
    {
        Sub { pattern, replacement, in_place, whole_word, ignore_case, match_pattern, inputs }
    }

    /// Whether any input is a file.
    pub fn has_file_input(&self) -> (found: bool)
        ensures
            found == exists|i: int| 0 <= i < self.inputs@.len() && self.inputs@[i] is File,
    {
        let mut i: usize = 0;
        while i < self.inputs.len()
            invariant
                i <= self.inputs@.len(),
                forall|j: int| 0 <= j < i ==> !(self.inputs@[j] is File),
            decreases self.inputs@.len() - i,
        {
            if let Input::File(_) = &self.inputs[i] {
                return true;
            }
            i = i + 1;
        }
        false
    }

    /// Validates the job and compiles its patterns, before any input is
    /// touched. Rejects in-place mode without a file input; fails with
    /// [`SubError::RegexError`] when the effective search pattern or the
    /// line filter is not a valid regular expression; otherwise hands back
    /// the engine that every input of the run shares.
    pub fn plan(&self) -> (result: Result<Engine, SubError>)
        ensures
            result is Ok <==> self.in_place_allowed() && self.patterns_compile(),
            !self.in_place_allowed() ==> result == Err::<Engine, SubError>(
                SubError::InPlaceRequiresFile,
            ),
            self.in_place_allowed() && !self.patterns_compile() ==> result == Err::<
                Engine,
                SubError,
            >(SubError::RegexError),
            result matches Ok(engine) ==> {
                &&& engine.pat() == spec_effective_pattern(self.pattern@, self.whole_word)
                &&& engine.ci() == self.ignore_case
                &&& engine.filter_spec() == self.spec_filter()
                &&& engine.rep() == self.replacement@
            },
    {
        if self.in_place && !self.has_file_input() {
            return Err(SubError::InPlaceRequiresFile);
        }
        let pattern = match compile(self.pattern.as_str(), self.whole_word, self.ignore_case) {
            Ok(cp) => cp,
            Err(e) => { return Err(e); },
        };
        let filter = match &self.match_pattern {
            None => None,
            Some(fpat) => match compile(fpat.as_str(), false, self.ignore_case) {
                Ok(cf) => Some(cf),
                Err(e) => { return Err(e); },
            },
        };
        Ok(Engine::new(pattern, filter, self.replacement.clone()))
    }

    /// Where one input's output goes: into the file itself exactly when
    /// in-place mode is active and the input is a file, to standard output
    /// otherwise.
    pub fn route(&self, input: &Input) -> (route: Route)
        ensures
            route is InPlace <==> (self.in_place && input is File),
    {
        if self.in_place {
            match input {
                Input::File(_) => Route::InPlace,
                Input::StdIn => Route::Stream,
            }
        } else {
            Route::Stream
        }
    }
}

/// How standard output is buffered: line-by-line when attached to an
/// interactive terminal, block-buffered when redirected or piped.
pub fn writer_kind(is_tty: bool) -> (kind: WriterKind)
    ensures
        kind is Interactive <==> is_tty,
{
    if is_tty {
        WriterKind::Interactive
    } else {
        WriterKind::Buffered
    }
}

/// The error each failing in-place step reports. `path` is the file being
/// edited, `temp_path` the scratch file, `cause` the underlying I/O error's
/// text. A failure of the [`InPlaceStep::Replace`] step propagates the
/// replacer's own error instead, so that step has no mapping here.
pub fn step_failure(step: &InPlaceStep, path: &str, temp_path: &str, cause: &str) -> (err: SubError)
    requires
        !(step is Replace),
    ensures
        step is OpenOriginal ==> (err matches SubError::FileNotFoundError(p) && p@ == path@),
        step is CreateTempFile ==> err == SubError::CanNotCreateTempFile,
        step is ReadPermissions ==> (err matches SubError::CanNotReadPermissions(p) && p@
            == path@),
        step is SetPermissions ==> (err matches SubError::CanNotSetPermissions(t) && t@
            == temp_path@),
        step is CopyBack ==> (err matches SubError::CanNotReplaceInPlace(p, c) && p@ == path@ && c@
            == cause@),
{
    match step {
        InPlaceStep::OpenOriginal => SubError::FileNotFoundError(path.to_owned()),
        InPlaceStep::CreateTempFile => SubError::CanNotCreateTempFile,
        InPlaceStep::Replace => SubError::CanNotCreateTempFile,
        InPlaceStep::ReadPermissions => SubError::CanNotReadPermissions(path.to_owned()),
        InPlaceStep::SetPermissions => SubError::CanNotSetPermissions(temp_path.to_owned()),
        InPlaceStep::CopyBack => SubError::CanNotReplaceInPlace(path.to_owned(), cause.to_owned()),
    }
}

/// The step that follows `step` in the in-place protocol, or `None` after
/// the final copy.
pub fn step_after(step: &InPlaceStep) -> (next: Option<InPlaceStep>)
    ensures
        next == match *step {
            InPlaceStep::OpenOriginal => Some(InPlaceStep::CreateTempFile),
            InPlaceStep::CreateTempFile => Some(InPlaceStep::Replace),
            InPlaceStep::Replace => Some(InPlaceStep::ReadPermissions),
            InPlaceStep::ReadPermissions => Some(InPlaceStep::SetPermissions),
            InPlaceStep::SetPermissions => Some(InPlaceStep::CopyBack),
            InPlaceStep::CopyBack => None::<InPlaceStep>,
        },
{
    match step {
        InPlaceStep::OpenOriginal => Some(InPlaceStep::CreateTempFile),
        InPlaceStep::CreateTempFile => Some(InPlaceStep::Replace),
        InPlaceStep::Replace => Some(InPlaceStep::ReadPermissions),
        InPlaceStep::ReadPermissions => Some(InPlaceStep::SetPermissions),
        InPlaceStep::SetPermissions => Some(InPlaceStep::CopyBack),
        InPlaceStep::CopyBack => None,
    }
}

} // verus!
