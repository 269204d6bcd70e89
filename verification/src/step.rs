//! What the tool asks of its surroundings, one step at a time.
//!
//! The library never prints, reads a file or starts a process. Each of its
//! decision functions returns a [`Step`]: the lines to print, in order, and
//! what has to happen next. Whoever drives the library prints the lines,
//! does what `next` asks and hands the result back.

use vstd::prelude::*;
use crate::text::texts_of;

verus! {

/// The stream a line is printed to.
#[derive(Debug, Clone, Copy, PartialEq, Eq, Structural)]
pub enum Stream {
    Stdout,
    Stderr,
}

/// One line of output, without its final newline.
#[derive(Debug, Clone, PartialEq, Eq)]
pub struct Line {
    pub stream: Stream,
    pub text: String,
}

/// A [`Line`] as contracts see it.
pub struct LineView {
    pub stream: Stream,
    pub text: Seq<char>,
}

impl View for Line {
    type V = LineView;

    open spec fn view(&self) -> LineView {
        LineView { stream: self.stream, text: self.text@ }
    }
}

/// A line for standard output.
pub open spec fn out_line(text: Seq<char>) -> LineView {
    LineView { stream: Stream::Stdout, text }
}

/// A line for the error stream.
pub open spec fn err_line(text: Seq<char>) -> LineView {
    LineView { stream: Stream::Stderr, text }
}

/// The views of a sequence of lines, one for one.
pub open spec fn lines_of(lines: Seq<Line>) -> Seq<LineView> {
    lines.map_values(|l: Line| l@)
}

/// An external program with its arguments.
#[derive(Debug, Clone, PartialEq, Eq)]
pub struct ExternalCommand {
    pub program: String,
    pub args: Vec<String>,
}

/// An [`ExternalCommand`] as contracts see it.
pub struct CommandView {
    pub program: Seq<char>,
    pub args: Seq<Seq<char>>,
}

impl View for ExternalCommand {
    type V = CommandView;

    open spec fn view(&self) -> CommandView {
        CommandView { program: self.program@, args: texts_of(self.args@) }
    }
}

/// How an external command ended.
#[derive(Debug, Clone, PartialEq, Eq)]
pub enum Outcome {
    /// It ran and reported exit status 0.
    Succeeded,
    /// It ran and reported another exit status.
    Failed,
    /// It could not be started; the text says why.
    NotLaunched(String),
}

/// An [`Outcome`] as contracts see it.
pub enum OutcomeView {
    Succeeded,
    Failed,
    NotLaunched(Seq<char>),
}

impl View for Outcome {
    type V = OutcomeView;

    open spec fn view(&self) -> OutcomeView {
        match self {
            Outcome::Succeeded => OutcomeView::Succeeded,
            Outcome::Failed => OutcomeView::Failed,
            Outcome::NotLaunched(reason) => OutcomeView::NotLaunched(reason@),
        }
    }
}

/// What the library waits for while an external command runs.
#[derive(Debug, Clone, PartialEq, Eq)]
pub enum Pending {
    /// The account `name` is being created.
    CreateUser { name: String },
    /// Linger is being enabled for `name`.
    EnableLinger { name: String },
    /// The containers of `current` are being listed; `remaining` come after.
    ListContainers { current: String, remaining: Vec<String> },
}

/// A [`Pending`] as contracts see it.
pub enum PendingView {
    CreateUser { name: Seq<char> },
    EnableLinger { name: Seq<char> },
    ListContainers { current: Seq<char>, remaining: Seq<Seq<char>> },
}

impl View for Pending {
    type V = PendingView;

    open spec fn view(&self) -> PendingView {
        match self {
            Pending::CreateUser { name } => PendingView::CreateUser { name: name@ },
            Pending::EnableLinger { name } => PendingView::EnableLinger { name: name@ },
            Pending::ListContainers { current, remaining } => PendingView::ListContainers {
                current: current@,
                remaining: texts_of(remaining@),
            },
        }
    }
}

/// What has to happen after the lines of a step were printed.
#[derive(Debug, Clone, PartialEq, Eq)]
pub enum Next {
    /// Run `command`, wait for it, and resume with `pending` and its outcome.
    Run { command: ExternalCommand, pending: Pending },
    /// Read and decode the configuration file at `path`, then list containers.
    Load { path: String },
    /// End the process with `status`.
    Exit { status: i32 },
}

/// A [`Next`] as contracts see it.
pub enum NextView {
    Run { command: CommandView, pending: PendingView },
    Load { path: Seq<char> },
    Exit { status: i32 },
}

impl View for Next {
    type V = NextView;

    open spec fn view(&self) -> NextView {
        match self {
            Next::Run { command, pending } => NextView::Run {
                command: command@,
                pending: pending@,
            },
            Next::Load { path } => NextView::Load { path: path@ },
            Next::Exit { status } => NextView::Exit { status: *status },
        }
    }
}

/// The lines to print, in order, and what to do then.
#[derive(Debug, Clone, PartialEq, Eq)]
pub struct Step {
    pub output: Vec<Line>,
    pub next: Next,
}

/// A [`Step`] as contracts see it.
pub struct StepView {
    pub output: Seq<LineView>,
    pub next: NextView,
}

impl View for Step {
    type V = StepView;

    open spec fn view(&self) -> StepView {
        StepView { output: lines_of(self.output@), next: self.next@ }
    }
}

/// A step that prints one line and then does `next`.
pub fn one_line(stream: Stream, text: String, next: Next) -> (step: Step)
    ensures
        step@ == (StepView { output: seq![LineView { stream, text: text@ }], next: next@ }),
{
    let mut output: Vec<Line> = Vec::new();
    output.push(Line { stream, text });
    let step = Step { output, next };
    assert(step@.output =~= seq![LineView { stream, text: text@ }]);
    step
}

} // verus!
