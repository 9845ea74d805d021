//! What one run of `git` produced, and the failures an invocation can end in.

use vstd::prelude::*;
use vstd::string::*;

verus! {

/// Exit status and captured output of a `git` process that ran to its end.
#[derive(Clone, Debug, PartialEq, Eq)]
pub struct CommandResult {
    /// Whether the process exited with status zero.
    pub success: bool,
    /// Captured standard output, decoded as text.
    pub stdout: String,
    /// Captured standard error, decoded as text.
    pub stderr: String,
}

/// Mathematical model of a [`CommandResult`].
pub ghost struct ResultView {
    pub success: bool,
    pub stdout: Seq<char>,
    pub stderr: Seq<char>,
}

impl ResultView {
    /// The result reported for a request that was only announced.
    pub open spec fn synthetic() -> ResultView {
        ResultView { success: true, stdout: Seq::empty(), stderr: Seq::empty() }
    }
}

impl View for CommandResult {
    type V = ResultView;

    open spec fn view(&self) -> ResultView {
        ResultView { success: self.success, stdout: self.stdout@, stderr: self.stderr@ }
    }
}

impl CommandResult {
    /// The success reported in place of a request that a dry run only
    /// announces: status zero and no output.
    pub fn synthetic() -> (r: CommandResult)
        ensures
            r@ == ResultView::synthetic(),
    {
        CommandResult { success: true, stdout: String::new(), stderr: String::new() }
    }
}

/// How an attempt to run `git` ended.
#[derive(Clone, Debug, PartialEq, Eq)]
pub enum Outcome {
    /// The executable could not be started; `reason` says why.
    NotLaunched { reason: String },
    /// The process ran and exited.
    Exited(CommandResult),
}

/// Mathematical model of an [`Outcome`].
pub ghost enum OutcomeView {
    NotLaunched { reason: Seq<char> },
    Exited(ResultView),
}

impl OutcomeView {
    /// The process ran and exited with status zero.
    pub open spec fn succeeded(self) -> bool {
        self matches OutcomeView::Exited(r) && r.success
    }
}

impl View for Outcome {
    type V = OutcomeView;

    open spec fn view(&self) -> OutcomeView {
        match self {
            Outcome::NotLaunched { reason } => OutcomeView::NotLaunched { reason: reason@ },
            Outcome::Exited(r) => OutcomeView::Exited(r@),
        }
    }
}

impl Outcome {
    /// The outcome to report for a request that was announced, not run.
    pub fn synthetic() -> (o: Outcome)
        ensures
            o@ == OutcomeView::Exited(ResultView::synthetic()),
    {
        Outcome::Exited(CommandResult::synthetic())
    }

    /// Whether the process ran and exited with status zero.
    pub fn succeeded(&self) -> (b: bool)
        ensures
            b == self@.succeeded(),
    {
        match self {
            Outcome::NotLaunched { .. } => false,
            Outcome::Exited(r) => r.success,
        }
    }
}

/// A fatal end of an invocation.
#[derive(Clone, Debug, PartialEq, Eq)]
pub enum Failure {
    /// The working directory is not inside a working tree.
    NotARepository,
    /// `git` could not be started.
    Launch { message: String },
    /// `git` ran and exited with a non-zero status.
    Exit { message: String },
    /// The settings file is malformed, or settings could not be written out.
    Config { message: String },
}

/// Mathematical model of a [`Failure`].
pub ghost enum FailureView {
    NotARepository,
    Launch { message: Seq<char> },
    Exit { message: Seq<char> },
    Config { message: Seq<char> },
}

impl FailureView {
    /// The line shown to the user.
    pub open spec fn message(self) -> Seq<char> {
        match self {
            FailureView::NotARepository => "Not in a git repository"@,
            FailureView::Launch { message } => message,
            FailureView::Exit { message } => message,
            FailureView::Config { message } => message,
        }
    }
}

impl View for Failure {
    type V = FailureView;

    open spec fn view(&self) -> FailureView {
        match self {
            Failure::NotARepository => FailureView::NotARepository,
            Failure::Launch { message } => FailureView::Launch { message: message@ },
            Failure::Exit { message } => FailureView::Exit { message: message@ },
            Failure::Config { message } => FailureView::Config { message: message@ },
        }
    }
}

impl Failure {
    /// The line to show to the user.
    pub fn message(&self) -> (text: String)
        ensures
            text@ == self@.message(),
    {
        match self {
            Failure::NotARepository => "Not in a git repository".to_owned(),
            Failure::Launch { message } => message.clone(),
            Failure::Exit { message } => message.clone(),
            Failure::Config { message } => message.clone(),
        }
    }
}

/// `prefix` followed by `rest`.
pub fn join(prefix: &str, rest: &str) -> (out: String)
    ensures
        out@ == prefix@ + rest@,
{
    let mut out: String = prefix.to_owned();
    out.append(rest);
    out
}

/// The model of a result that carries nothing on success.
pub open spec fn verdict_view(r: Result<(), Failure>) -> Result<(), FailureView> {
    match r {
        Ok(()) => Ok(()),
        Err(e) => Err(e@),
    }
}

/// What a state-changing request's outcome means: a launch failure and a
/// non-zero exit are failures, each under its own prefix.
pub open spec fn settled(outcome: OutcomeView, launch: Seq<char>, exit: Seq<char>) -> Result<
    (),
    FailureView,
> {
    match outcome {
        OutcomeView::NotLaunched { reason } => Err(
            FailureView::Launch { message: launch + reason },
        ),
        OutcomeView::Exited(r) => if r.success {
            Ok(())
        } else {
            Err(FailureView::Exit { message: exit + r.stderr })
        },
    }
}

/// Turns the outcome of a state-changing request into success or a failure
/// that carries the captured diagnostic.
pub fn settle(outcome: &Outcome, launch: &str, exit: &str) -> (r: Result<(), Failure>)
    ensures
        verdict_view(r) == settled(outcome@, launch@, exit@),
{
    match outcome {
        Outcome::NotLaunched { reason } => Err(
            Failure::Launch { message: join(launch, reason.as_str()) },
        ),
        Outcome::Exited(result) => {
            if result.success {
                Ok(())
            } else {
                Err(Failure::Exit { message: join(exit, result.stderr.as_str()) })
            }
        },
    }
}

} // verus!
