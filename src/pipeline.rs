use vstd::prelude::*;
use crate::text::views;

verus! {

/// What a finished external process left behind.
pub struct ToolOutput {
    pub success: bool,
    pub stdout: String,
    pub stderr: String,
}

/// A program to start and the arguments to hand it.
pub struct Invocation {
    pub program: String,
    pub args: Vec<String>,
}

impl View for Invocation {
    type V = (Seq<char>, Seq<Seq<char>>);

    open spec fn view(&self) -> (Seq<char>, Seq<Seq<char>>) {
        (self.program@, views(self.args@))
    }
}

/// Work that an operation asks its runner to do on its behalf.
pub enum Request {
    /// Start the program only to learn whether it can be started.
    Probe(Invocation),
    /// Create the directory and all its parents.
    CreateDir(String),
    /// Start the program and wait for it to exit.
    Run(Invocation),
}

pub enum RequestView {
    Probe(Seq<char>, Seq<Seq<char>>),
    CreateDir(Seq<char>),
    Run(Seq<char>, Seq<Seq<char>>),
}

impl View for Request {
    type V = RequestView;

    open spec fn view(&self) -> RequestView {
        match self {
            Request::Probe(i) => RequestView::Probe(i@.0, i@.1),
            Request::CreateDir(d) => RequestView::CreateDir(d@),
            Request::Run(i) => RequestView::Run(i@.0, i@.1),
        }
    }
}

/// What the runner reports back after doing a request.
pub enum Event {
    /// Whether the probed program could be started at all.
    Probed(bool),
    /// The directory now exists, or the I/O error text.
    DirCreated(Result<(), String>),
    /// The process ran to its end, or the text of the error that kept it from starting.
    Ran(Result<ToolOutput, String>),
}

/// Where an operation stands.
#[derive(PartialEq, Eq, Structural, Clone, Copy, Debug)]
pub enum Stage {
    Probing,
    CreatingDir,
    Running,
    Over,
}

/// The next thing an operation needs, or its outcome.
pub enum Step<T> {
    Next(Request),
    Done(Result<T, String>),
}

pub enum StepView<V> {
    Next(RequestView),
    Failed(Seq<char>),
    Succeeded(V),
}

impl<T: View> View for Step<T> {
    type V = StepView<T::V>;

    open spec fn view(&self) -> StepView<T::V> {
        match self {
            Step::Next(r) => StepView::Next(r@),
            Step::Done(Ok(v)) => StepView::Succeeded(v@),
            Step::Done(Err(e)) => StepView::Failed(e@),
        }
    }
}

/// Whether an operation at `stage` takes `ev` as its next event.
pub open spec fn fits(stage: Stage, ev: Event) -> bool {
    match ev {
        Event::Probed(_) => stage == Stage::Probing,
        Event::DirCreated(_) => stage == Stage::CreatingDir,
        Event::Ran(_) => stage == Stage::Running,
    }
}

/// Whether an operation at `stage` takes `ev` as its next event.
pub fn accepts(stage: Stage, ev: &Event) -> (r: bool)
    ensures
        r == fits(stage, *ev),
{
    match ev {
        Event::Probed(_) => stage == Stage::Probing,
        Event::DirCreated(_) => stage == Stage::CreatingDir,
        Event::Ran(_) => stage == Stage::Running,
    }
}

/// `prefix` followed by `detail`.
pub open spec fn prefixed(prefix: &str, detail: Seq<char>) -> Seq<char> {
    prefix@ + detail
}

/// `prefix` followed by `detail`.
pub fn with_prefix(prefix: &str, detail: &str) -> (r: String)
    ensures
        r@ == prefixed(prefix, detail@),
{
    String::from_str(prefix).concat(detail)
}

} // verus!
