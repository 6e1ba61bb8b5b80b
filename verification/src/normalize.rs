//! The policy of normalization: what to ask the platform, and what to make
//! of its answers in each mode.
//!
//! A normalization is a short exchange. The library says the first step:
//! the result at once, for a reserved name, or a request to the platform.
//! The caller has the platform canonicalize what is requested and hands the
//! answer to [`Pending::advance`], which says the next step.
//!
//! The library never asks whether a path exists. It asks for the canonical
//! form and decides on the failure, so that no answer can go stale between
//! a check and its use.

use vstd::prelude::*;
use crate::lexical::{lexical_text, resolve_lexically};
use crate::mode::{NormalizeMode, NormalizeOptions};
use crate::platform::{is_simplification, simplified, simplified_text};
use crate::reserved::{
    lemma_reserved_in_any_case, lemma_upper_case_is_stable, to_ascii_uppercase,
    ReservedNameMatcher,
};

verus! {

/// Why the platform could not canonicalize a path. Each kind carries the
/// platform's own error, which the library hands on untouched.
#[derive(Debug, PartialEq, Eq)]
pub enum Failure<E> {
    /// The path does not exist.
    NotFound(E),
    /// Any other failure, such as a refused permission.
    Other(E),
}

impl<E> Failure<E> {
    /// The platform's error.
    pub open spec fn source(self) -> E {
        match self {
            Failure::NotFound(error) => error,
            Failure::Other(error) => error,
        }
    }

    /// Gives back the platform's error.
    pub fn into_source(self) -> (error: E)
        ensures
            error == self.source(),
    {
        match self {
            Failure::NotFound(error) => error,
            Failure::Other(error) => error,
        }
    }
}

/// The path that the platform is asked to canonicalize.
#[derive(Clone, Copy, Debug, PartialEq, Eq, Structural)]
pub enum Request {
    /// The path that is being normalized.
    InputPath,
    /// The current working directory.
    WorkingDirectory,
}

/// A normalization that waits for an answer of the platform, as a
/// mathematical value.
pub struct PendingView {
    /// The text of the path that is being normalized.
    pub path: Seq<char>,
    /// The mode of the normalization.
    pub mode: NormalizeMode,
    /// What the platform is asked.
    pub request: Request,
}

/// A normalization that waits for an answer of the platform.
#[derive(Debug, PartialEq, Eq)]
pub struct Pending {
    path: String,
    mode: NormalizeMode,
    request: Request,
}

impl View for Pending {
    type V = PendingView;

    closed spec fn view(&self) -> PendingView {
        PendingView { path: self.path@, mode: self.mode, request: self.request }
    }
}

/// A step of a normalization, as a mathematical value.
pub enum StepView<E> {
    /// The platform must canonicalize what the pending normalization
    /// requests.
    Ask(PendingView),
    /// The normalization is over, with the normalized path or a failure.
    Done(Result<Seq<char>, Failure<E>>),
}

/// A step of a normalization.
#[derive(Debug, PartialEq, Eq)]
pub enum Step<E> {
    /// The platform must canonicalize what the pending normalization
    /// requests; its answer goes to [`Pending::advance`].
    Ask(Pending),
    /// The normalization is over, with the normalized path or a failure.
    Done(Result<String, Failure<E>>),
}

/// An answer of the platform, or a result, with the text of its path.
pub open spec fn text_of<E>(answer: Result<String, Failure<E>>) -> Result<Seq<char>, Failure<E>> {
    match answer {
        Ok(path) => Ok(path@),
        Err(failure) => Err(failure),
    }
}

impl<E> View for Step<E> {
    type V = StepView<E>;

    open spec fn view(&self) -> StepView<E> {
        match self {
            Step::Ask(pending) => StepView::Ask(pending@),
            Step::Done(result) => StepView::Done(text_of(*result)),
        }
    }
}

/// The first step of the normalization of `path`: a reserved name is its
/// own result, in upper case; for any other path the platform is asked to
/// canonicalize it.
pub open spec fn first_step<E>(
    matcher: ReservedNameMatcher,
    path: Seq<char>,
    mode: NormalizeMode,
) -> StepView<E> {
    if matcher.reserves(path) {
        StepView::Done(Ok(to_ascii_uppercase(path)))
    } else {
        StepView::Ask(PendingView { path, mode, request: Request::InputPath })
    }
}

/// The step that follows an answer of the platform.
///
/// A canonical form of the input path is simplified and returned. An input
/// path that is not found fails in `Strict` mode; in the other modes the
/// working directory is requested. Any other failure is returned as it is,
/// in every mode. A canonical form of the working directory is the base
/// against which the input path is resolved by its text; a failure to
/// canonicalize the working directory is returned as it is.
pub open spec fn next_step<E>(
    pending: PendingView,
    answer: Result<Seq<char>, Failure<E>>,
) -> StepView<E> {
    match pending.request {
        Request::InputPath => match answer {
            Ok(canonical) => StepView::Done(Ok(simplified_text(canonical))),
            Err(Failure::NotFound(error)) => if pending.mode.falls_back() {
                StepView::Ask(
                    PendingView {
                        path: pending.path,
                        mode: pending.mode,
                        request: Request::WorkingDirectory,
                    },
                )
            } else {
                StepView::Done(Err(Failure::NotFound(error)))
            },
            Err(Failure::Other(error)) => StepView::Done(Err(Failure::Other(error))),
        },
        Request::WorkingDirectory => match answer {
            Ok(base) => StepView::Done(Ok(simplified_text(lexical_text(base, pending.path)))),
            Err(failure) => StepView::Done(Err(failure)),
        },
    }
}

/// The path that is simplified into the result when the platform answers
/// the request of `pending` with the path `answer`.
pub open spec fn unsimplified(pending: PendingView, answer: Seq<char>) -> Seq<char> {
    match pending.request {
        Request::InputPath => answer,
        Request::WorkingDirectory => lexical_text(answer, pending.path),
    }
}

/// The result of the whole normalization of `path`, on a platform that
/// answers `canonical` when it is asked for the input path and
/// `working_directory` when it is asked for the working directory.
pub open spec fn outcome<E>(
    matcher: ReservedNameMatcher,
    path: Seq<char>,
    mode: NormalizeMode,
    canonical: Result<Seq<char>, Failure<E>>,
    working_directory: Result<Seq<char>, Failure<E>>,
) -> Result<Seq<char>, Failure<E>> {
    match first_step::<E>(matcher, path, mode) {
        StepView::Done(result) => result,
        StepView::Ask(first) => match next_step(first, canonical) {
            StepView::Done(result) => result,
            StepView::Ask(second) => match next_step(second, working_directory) {
                StepView::Done(result) => result,
                StepView::Ask(_) => working_directory,
            },
        },
    }
}

impl Pending {
    /// What the platform is asked to canonicalize.
    pub fn request(&self) -> (request: Request)
        ensures
            request == self@.request,
    {
        self.request
    }

    /// The text of the path that is being normalized.
    pub fn path(&self) -> (path: &str)
        ensures
            path@ == self@.path,
    {
        self.path.as_str()
    }

    /// The mode of the normalization.
    pub fn mode(&self) -> (mode: NormalizeMode)
        ensures
            mode == self@.mode,
    {
        self.mode
    }

    /// Takes the platform's answer to the request and says the next step.
    pub fn advance<E>(self, answer: Result<String, Failure<E>>) -> (step: Step<E>)
        ensures
            step@ == next_step(self@, text_of(answer)),
            answer matches Ok(text) ==> step@ matches StepView::Done(Ok(simple))
                && is_simplification(unsimplified(self@, text@), simple),
    {
        match self.request {
            Request::InputPath => match answer {
                Ok(canonical) => Step::Done(Ok(simplified(canonical.as_str()))),
                Err(Failure::NotFound(error)) => {
                    if self.mode.tolerates_missing() {
                        Step::Ask(
                            Pending {
                                path: self.path,
                                mode: self.mode,
                                request: Request::WorkingDirectory,
                            },
                        )
                    } else {
                        Step::Done(Err(Failure::NotFound(error)))
                    }
                },
                Err(Failure::Other(error)) => Step::Done(Err(Failure::Other(error))),
            },
            Request::WorkingDirectory => match answer {
                Ok(base) => Step::Done(Ok(resolve_lexically(base.as_str(), self.path.as_str()))),
                Err(failure) => Step::Done(Err(failure)),
            },
        }
    }
}

/// Begins the normalization of `path` with the mode of `options`, on a
/// platform whose reserved names `matcher` knows.
pub fn normalize_path_with_options<E>(
    path: &str,
    options: &NormalizeOptions,
    matcher: &ReservedNameMatcher,
) -> (step: Step<E>)
    ensures
        step@ == first_step::<E>(*matcher, path@, options.spec_mode()),
{
    match matcher.reserved_name(path) {
        Some(name) => Step::Done(Ok(name.to_owned())),
        None => Step::Ask(
            Pending { path: path.to_owned(), mode: options.mode(), request: Request::InputPath },
        ),
    }
}

/// Begins the normalization of `path` with the default options.
pub fn normalize_path<E>(path: &str, matcher: &ReservedNameMatcher) -> (step: Step<E>)
    ensures
        step@ == first_step::<E>(*matcher, path@, NormalizeOptions::default_options().spec_mode()),
{
    normalize_path_with_options(path, &NormalizeOptions::default(), matcher)
}

/// A normalization asks the platform at most twice: first for the input
/// path; then, only where that path was not found and the mode is not
/// `Strict`, for the working directory, and the answer to that ends it.
pub proof fn lemma_exchange_ends<E>(
    matcher: ReservedNameMatcher,
    path: Seq<char>,
    mode: NormalizeMode,
    canonical: Result<Seq<char>, Failure<E>>,
    working_directory: Result<Seq<char>, Failure<E>>,
)
    ensures
        first_step::<E>(matcher, path, mode) matches StepView::Ask(first) ==> {
            &&& first.request == Request::InputPath
            &&& first.path == path
            &&& first.mode == mode
            &&& next_step(first, canonical) matches StepView::Ask(second) ==> {
                &&& second.request == Request::WorkingDirectory
                &&& second.path == path
                &&& second.mode == mode
                &&& mode != NormalizeMode::Strict
                &&& canonical matches Err(Failure::NotFound(_))
                &&& next_step(second, working_directory) is Done
            }
        },
{
}

/// A reserved name is normalized to itself in upper case, in every mode
/// and whatever the platform would answer.
pub proof fn lemma_reserved_name_in_every_mode<E>(
    matcher: ReservedNameMatcher,
    path: Seq<char>,
    mode: NormalizeMode,
    canonical: Result<Seq<char>, Failure<E>>,
    working_directory: Result<Seq<char>, Failure<E>>,
)
    requires
        matcher.reserves(path),
    ensures
        outcome(matcher, path, mode, canonical, working_directory) == Ok::<
            Seq<char>,
            Failure<E>,
        >(to_ascii_uppercase(path)),
{
}

/// The result for a reserved name is a reserved name that is normalized to
/// itself: normalizing twice gives what normalizing once gives.
pub proof fn lemma_reserved_name_is_stable<E>(
    matcher: ReservedNameMatcher,
    path: Seq<char>,
    mode: NormalizeMode,
    canonical: Result<Seq<char>, Failure<E>>,
    working_directory: Result<Seq<char>, Failure<E>>,
)
    requires
        matcher.reserves(path),
    ensures
        matcher.reserves(to_ascii_uppercase(path)),
        outcome(matcher, to_ascii_uppercase(path), mode, canonical, working_directory) == outcome(
            matcher,
            path,
            mode,
            canonical,
            working_directory,
        ),
{
    lemma_reserved_in_any_case(path);
    lemma_upper_case_is_stable(path);
}

/// A path that the platform resolves is normalized to the simplified form
/// of what the platform answered, in every mode; the working directory is
/// not looked at.
pub proof fn lemma_existing_path_in_every_mode<E>(
    matcher: ReservedNameMatcher,
    path: Seq<char>,
    mode: NormalizeMode,
    canonical: Seq<char>,
    working_directory: Result<Seq<char>, Failure<E>>,
)
    requires
        !matcher.reserves(path),
    ensures
        outcome(matcher, path, mode, Ok(canonical), working_directory) == Ok::<
            Seq<char>,
            Failure<E>,
        >(simplified_text(canonical)),
{
}

/// In a mode other than `Strict`, a path that is not found is normalized
/// to the simplified form of its text resolved against the working
/// directory.
pub proof fn lemma_missing_path_is_resolved_by_text<E>(
    matcher: ReservedNameMatcher,
    path: Seq<char>,
    mode: NormalizeMode,
    error: E,
    base: Seq<char>,
)
    requires
        !matcher.reserves(path),
        mode != NormalizeMode::Strict,
    ensures
        outcome(matcher, path, mode, Err(Failure::NotFound(error)), Ok(base)) == Ok::<
            Seq<char>,
            Failure<E>,
        >(simplified_text(lexical_text(base, path))),
{
}

/// In a mode other than `Strict`, where the path is not found and the
/// working directory cannot be had either, the normalization fails with
/// the failure of the working directory.
pub proof fn lemma_missing_working_directory_fails<E>(
    matcher: ReservedNameMatcher,
    path: Seq<char>,
    mode: NormalizeMode,
    error: E,
    failure: Failure<E>,
)
    requires
        !matcher.reserves(path),
        mode != NormalizeMode::Strict,
    ensures
        outcome(matcher, path, mode, Err(Failure::NotFound(error)), Err(failure)) == Err::<
            Seq<char>,
            Failure<E>,
        >(failure),
{
}

/// In `Strict` mode a path that is not found fails as not found, with the
/// platform's error.
pub proof fn lemma_strict_fails_on_missing_path<E>(
    matcher: ReservedNameMatcher,
    path: Seq<char>,
    error: E,
    working_directory: Result<Seq<char>, Failure<E>>,
)
    requires
        !matcher.reserves(path),
    ensures
        outcome(
            matcher,
            path,
            NormalizeMode::Strict,
            Err(Failure::NotFound(error)),
            working_directory,
        ) == Err::<Seq<char>, Failure<E>>(Failure::NotFound(error)),
{
}

/// A failure other than not found is the result as it is, in every mode.
pub proof fn lemma_other_failure_in_every_mode<E>(
    matcher: ReservedNameMatcher,
    path: Seq<char>,
    mode: NormalizeMode,
    error: E,
    working_directory: Result<Seq<char>, Failure<E>>,
)
    requires
        !matcher.reserves(path),
    ensures
        outcome(matcher, path, mode, Err(Failure::Other(error)), working_directory) == Err::<
            Seq<char>,
            Failure<E>,
        >(Failure::Other(error)),
{
}

/// `Hybrid` mode gives what `Lexical` mode gives, whatever the platform
/// answers.
pub proof fn lemma_hybrid_is_lexical<E>(
    matcher: ReservedNameMatcher,
    path: Seq<char>,
    canonical: Result<Seq<char>, Failure<E>>,
    working_directory: Result<Seq<char>, Failure<E>>,
)
    ensures
        outcome(matcher, path, NormalizeMode::Hybrid, canonical, working_directory) == outcome(
            matcher,
            path,
            NormalizeMode::Lexical,
            canonical,
            working_directory,
        ),
{
}

/// With the default options a normalization is the one without options:
/// both are in `Lexical` mode.
pub proof fn lemma_default_options_are_lexical<E>(
    matcher: ReservedNameMatcher,
    path: Seq<char>,
    canonical: Result<Seq<char>, Failure<E>>,
    working_directory: Result<Seq<char>, Failure<E>>,
)
    ensures
        NormalizeOptions::default_options().spec_mode() == NormalizeMode::Lexical,
        first_step::<E>(matcher, path, NormalizeOptions::default_options().spec_mode())
            == first_step::<E>(matcher, path, NormalizeMode::Lexical),
        outcome(
            matcher,
            path,
            NormalizeOptions::default_options().spec_mode(),
            canonical,
            working_directory,
        ) == outcome(matcher, path, NormalizeMode::Lexical, canonical, working_directory),
{
    NormalizeOptions::lemma_default_mode();
}

} // verus!
