//! When a settings plugin library is opened, and what is reported.
//!
//! A settings plugin is a shared library, `lib<name>.so`, that exports a
//! root module. The host opens it at most once: the first attempt's outcome
//! is kept for the life of the process. Every later request to load the
//! plugin consults that outcome; while it is a failure, the failure is
//! reported again. The loader here makes those decisions; opening the file
//! and printing the report are left to its caller.

use vstd::prelude::*;

verus! {

/// Prefix and suffix of a plugin library's file name.
pub const LIBRARY_FILE_PREFIX: &'static str = "lib";

pub const LIBRARY_FILE_SUFFIX: &'static str = ".so";

/// The file that holds the plugin whose root module is called `name`.
pub open spec fn library_file(name: Seq<char>) -> Seq<char> {
    LIBRARY_FILE_PREFIX@ + name + LIBRARY_FILE_SUFFIX@
}

/// The file name `lib<name>.so` of the plugin whose root module is `name`.
pub fn library_file_name(name: &str) -> (res: String)
    ensures
        res@ == library_file(name@),
{
    let mut res = String::from_str(LIBRARY_FILE_PREFIX);
    res.append(name);
    res.append(LIBRARY_FILE_SUFFIX);
    res
}

/// What is known of the plugin library.
pub enum LoadState {
    /// No attempt to open it was made yet.
    Unloaded,
    /// It was opened and its root module is available.
    Loaded,
    /// Opening it failed, for the reason `message`.
    Failed { message: String },
}

pub ghost enum LoadStateView {
    Unloaded,
    Loaded,
    Failed(Seq<char>),
}

impl View for LoadState {
    type V = LoadStateView;

    open spec fn view(&self) -> LoadStateView {
        match self {
            LoadState::Unloaded => LoadStateView::Unloaded,
            LoadState::Loaded => LoadStateView::Loaded,
            LoadState::Failed { message } => LoadStateView::Failed(message@),
        }
    }
}

/// What the caller is to do next when the plugin is to be loaded.
#[derive(Debug)]
pub enum LoadStep {
    /// Open the library file `file`, and hand the outcome back.
    Open { file: String },
    /// Report that the plugin could not be loaded, for the reason `message`.
    Report { message: String },
    /// Nothing: the plugin is loaded.
    Ready,
}

pub ghost enum LoadStepView {
    Open(Seq<char>),
    Report(Seq<char>),
    Ready,
}

impl View for LoadStep {
    type V = LoadStepView;

    open spec fn view(&self) -> LoadStepView {
        match self {
            LoadStep::Open { file } => LoadStepView::Open(file@),
            LoadStep::Report { message } => LoadStepView::Report(message@),
            LoadStep::Ready => LoadStepView::Ready,
        }
    }
}

/// The outcome of opening the library, the error by its message.
pub open spec fn outcome_view(outcome: Result<(), String>) -> Result<(), Seq<char>> {
    match outcome {
        Ok(()) => Ok(()),
        Err(message) => Err(message@),
    }
}

/// The step taken on a request to load the plugin stored in `file`.
pub open spec fn next_step(state: LoadStateView, file: Seq<char>) -> LoadStepView {
    match state {
        LoadStateView::Unloaded => LoadStepView::Open(file),
        LoadStateView::Loaded => LoadStepView::Ready,
        LoadStateView::Failed(message) => LoadStepView::Report(message),
    }
}

/// The state once the outcome of an attempt to open the library is known:
/// only the outcome of the first attempt is kept.
pub open spec fn after_open(state: LoadStateView, outcome: Result<(), Seq<char>>) -> LoadStateView {
    match state {
        LoadStateView::Unloaded => match outcome {
            Ok(()) => LoadStateView::Loaded,
            Err(message) => LoadStateView::Failed(message),
        },
        _ => state,
    }
}

impl LoadState {
    /// The step to take on a request to load the plugin stored in `file`.
    pub fn next_step(&self, file: String) -> (step: LoadStep)
        ensures
            step@ == next_step(self@, file@),
    {
        match self {
            LoadState::Unloaded => LoadStep::Open { file },
            LoadState::Loaded => LoadStep::Ready,
            LoadState::Failed { message } => LoadStep::Report { message: message.clone() },
        }
    }

    /// Keeps the outcome of an attempt to open the library, unless one is
    /// kept already.
    pub fn record(&mut self, outcome: Result<(), String>)
        ensures
            final(self)@ == after_open(old(self)@, outcome_view(outcome)),
    {
        if let LoadState::Unloaded = self {
            match outcome {
                Ok(()) => {
                    *self = LoadState::Loaded;
                },
                Err(message) => {
                    *self = LoadState::Failed { message };
                },
            }
        }
    }
}

/// A request to load the plugin opens its library at most once: once an
/// outcome is kept, no later request asks to open the file again.
pub proof fn law_library_opened_at_most_once(
    state: LoadStateView,
    outcome: Result<(), Seq<char>>,
    later: Result<(), Seq<char>>,
    file: Seq<char>,
)
    ensures
        !(next_step(after_open(state, outcome), file) is Open),
        !(next_step(after_open(after_open(state, outcome), later), file) is Open),
{
}

/// The first outcome is final: outcomes handed back later change nothing.
pub proof fn law_first_outcome_is_kept(
    state: LoadStateView,
    first: Result<(), Seq<char>>,
    later: Result<(), Seq<char>>,
)
    ensures
        after_open(after_open(state, first), later) == after_open(state, first),
{
}

/// After a failed first attempt, every request to load the plugin reports
/// that same failure, whatever outcomes are handed back afterwards.
pub proof fn law_failure_reported_on_every_request(
    message: Seq<char>,
    later: Result<(), Seq<char>>,
    file: Seq<char>,
)
    ensures
        next_step(after_open(LoadStateView::Unloaded, Err(message)), file)
            == LoadStepView::Report(message),
        next_step(after_open(after_open(LoadStateView::Unloaded, Err(message)), later), file)
            == LoadStepView::Report(message),
{
}

/// The plugin's root module is available exactly when the first attempt to
/// open its library succeeded.
pub proof fn law_loaded_iff_first_open_succeeded(first: Result<(), Seq<char>>)
    ensures
        (after_open(LoadStateView::Unloaded, first) is Loaded) <==> (first is Ok),
        (after_open(LoadStateView::Unloaded, first) is Failed) <==> (first is Err),
{
}

/// The result that a lazily initialised loader holds: nothing until the
/// first request, then the outcome of opening the library.
pub open spec fn kept_outcome(state: LoadStateView) -> Option<Result<(), Seq<char>>> {
    match state {
        LoadStateView::Unloaded => None,
        LoadStateView::Loaded => Some(Ok(())),
        LoadStateView::Failed(message) => Some(Err(message)),
    }
}

/// The failure that a step reports, if it reports one.
pub open spec fn reported(step: LoadStepView) -> Option<Seq<char>> {
    match step {
        LoadStepView::Report(message) => Some(message),
        _ => None,
    }
}

/// One request to load the plugin as the loader's caller makes it: `load`,
/// then, where that asks to open the library, `opened` with the outcome
/// `opening`. Gives the state afterwards and the step finally taken.
pub open spec fn request(
    state: LoadStateView,
    file: Seq<char>,
    opening: Result<(), Seq<char>>,
) -> (LoadStateView, LoadStepView) {
    match next_step(state, file) {
        LoadStepView::Open(_) => {
            let after = after_open(state, opening);
            (after, next_step(after, file))
        },
        step => (state, step),
    }
}

/// One call of a loader whose result is a lazily initialised value: the
/// value is set to `opening` if it is unset, and its error, if it holds
/// one, is reported. Gives the value afterwards and what is reported.
pub open spec fn lazy_try_load(
    kept: Option<Result<(), Seq<char>>>,
    opening: Result<(), Seq<char>>,
) -> (Option<Result<(), Seq<char>>>, Option<Seq<char>>) {
    let result = match kept {
        Some(outcome) => outcome,
        None => opening,
    };
    (
        Some(result),
        match result {
            Ok(()) => None,
            Err(message) => Some(message),
        },
    )
}

/// A request made of `load` and, where it asks, `opened` behaves as one
/// call of a loader built on a lazily initialised result: the library is
/// opened exactly when no outcome is kept yet, the kept outcome afterwards
/// is the same, the same failure (if any) is reported, and the request ends
/// without asking to open the library again.
pub proof fn law_request_is_lazy_try_load(
    state: LoadStateView,
    file: Seq<char>,
    opening: Result<(), Seq<char>>,
)
    ensures
        (next_step(state, file) is Open) <==> (kept_outcome(state) is None),
        kept_outcome(request(state, file, opening).0) == lazy_try_load(
            kept_outcome(state),
            opening,
        ).0,
        reported(request(state, file, opening).1) == lazy_try_load(kept_outcome(state), opening).1,
        !(request(state, file, opening).1 is Open),
{
    if let Ok(unit) = opening {
        assert(unit == ());
        assert(opening == Ok::<(), Seq<char>>(()));
    }
}

} // verus!
