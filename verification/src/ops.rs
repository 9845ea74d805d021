//! The operations on a repository: which request each one is, whether a dry
//! run lets it start a process, and what its outcome means.

use vstd::prelude::*;
use vstd::string::*;

use crate::config::{Config, ConfigView};
use crate::outcome::{join, settle, settled, verdict_view, Failure, FailureView, Outcome, OutcomeView};
use crate::request::{clone_texts, texts, GitRequest, RequestView};
use crate::text::{trim, trimmed};

verus! {

/// What the caller is to do with a request.
#[derive(Clone, Debug, PartialEq, Eq)]
pub enum Action {
    /// Run `git` with the request's arguments and report the outcome.
    Launch(GitRequest),
    /// Start nothing: say what would have been run, and report the synthetic
    /// success.
    Announce(GitRequest),
}

/// Mathematical model of an [`Action`].
pub ghost enum ActionView {
    Launch(RequestView),
    Announce(RequestView),
}

impl ActionView {
    /// The request that the action is about.
    pub open spec fn request(self) -> RequestView {
        match self {
            ActionView::Launch(request) => request,
            ActionView::Announce(request) => request,
        }
    }
}

impl View for Action {
    type V = ActionView;

    open spec fn view(&self) -> ActionView {
        match self {
            Action::Launch(request) => ActionView::Launch(request@),
            Action::Announce(request) => ActionView::Announce(request@),
        }
    }
}

/// The settings and mode under which requests are issued.
#[derive(Clone, Debug, PartialEq, Eq)]
pub struct GitOps {
    pub config: Config,
    pub dry_run: bool,
}

/// Mathematical model of a [`GitOps`].
pub ghost struct OpsView {
    pub config: ConfigView,
    pub dry_run: bool,
}

impl OpsView {
    /// What is done with a request: a dry run announces every request that
    /// can change something and still launches the queries; otherwise
    /// everything is launched.
    pub open spec fn dispatched(self, request: RequestView) -> ActionView {
        if self.dry_run && request.mutates() {
            ActionView::Announce(request)
        } else {
            ActionView::Launch(request)
        }
    }
}

/// Whether an action keeps to the mode: a dry run launches queries alone and
/// announces everything else; outside a dry run everything is launched.
pub open spec fn keeps_to_mode(dry_run: bool, action: ActionView) -> bool {
    action is Launch <==> !(dry_run && action.request().mutates())
}

impl View for GitOps {
    type V = OpsView;

    open spec fn view(&self) -> OpsView {
        OpsView { config: self.config@, dry_run: self.dry_run }
    }
}

/// The outcome of the repository check says "inside a working tree" only
/// where `git` ran and exited with status zero.
pub fn repository_found(outcome: &Outcome) -> (found: bool)
    ensures
        found == outcome@.succeeded(),
{
    outcome.succeeded()
}

/// What the branch query's outcome stands for: the trimmed output of a query
/// that exited with status zero. A query that could not be started or that
/// exited otherwise is a failure, the latter with the captured diagnostic.
pub open spec fn branch_named(outcome: OutcomeView) -> Result<Seq<char>, FailureView> {
    match outcome {
        OutcomeView::NotLaunched { reason } => Err(
            FailureView::Launch { message: "Failed to get current branch: "@ + reason },
        ),
        OutcomeView::Exited(r) => if r.success {
            Ok(trimmed(r.stdout))
        } else {
            Err(FailureView::Exit { message: "Current branch query failed: "@ + r.stderr })
        },
    }
}

/// Reads the current branch's name off the branch query's outcome.
pub fn branch_name(outcome: &Outcome) -> (r: Result<String, Failure>)
    ensures
        match r {
            Ok(name) => branch_named(outcome@) == Ok::<Seq<char>, FailureView>(name@),
            Err(e) => branch_named(outcome@) == Err::<Seq<char>, FailureView>(e@),
        },
{
    match outcome {
        Outcome::NotLaunched { reason } => Err(
            Failure::Launch { message: join("Failed to get current branch: ", reason.as_str()) },
        ),
        Outcome::Exited(result) => {
            if result.success {
                Ok(trim(result.stdout.as_str()))
            } else {
                Err(
                    Failure::Exit {
                        message: join("Current branch query failed: ", result.stderr.as_str()),
                    },
                )
            }
        },
    }
}

/// What the change query's outcome stands for: a query that exited with
/// status zero reports changes exactly where its output is not empty. A query
/// that could not be started or that exited otherwise is a failure, the
/// latter with the captured diagnostic; it is never taken for "no changes".
pub open spec fn changes_reported(outcome: OutcomeView) -> Result<bool, FailureView> {
    match outcome {
        OutcomeView::NotLaunched { reason } => Err(
            FailureView::Launch { message: "Failed to check git status: "@ + reason },
        ),
        OutcomeView::Exited(r) => if r.success {
            Ok(r.stdout.len() > 0)
        } else {
            Err(FailureView::Exit { message: "Status check failed: "@ + r.stderr })
        },
    }
}

/// Reads off the change query's outcome whether the working tree holds
/// uncommitted changes.
pub fn changes_found(outcome: &Outcome) -> (r: Result<bool, Failure>)
    ensures
        match r {
            Ok(b) => changes_reported(outcome@) == Ok::<bool, FailureView>(b),
            Err(e) => changes_reported(outcome@) == Err::<bool, FailureView>(e@),
        },
{
    match outcome {
        Outcome::NotLaunched { reason } => Err(
            Failure::Launch { message: join("Failed to check git status: ", reason.as_str()) },
        ),
        Outcome::Exited(result) => {
            if result.success {
                Ok(!result.stdout.as_str().is_empty())
            } else {
                Err(
                    Failure::Exit {
                        message: join("Status check failed: ", result.stderr.as_str()),
                    },
                )
            }
        },
    }
}

/// What the outcome of a pull means.
pub open spec fn pulled(outcome: OutcomeView) -> Result<(), FailureView> {
    settled(outcome, "Failed to pull changes: "@, "Pull failed: "@)
}

/// What the outcome of staging means.
pub open spec fn added(outcome: OutcomeView) -> Result<(), FailureView> {
    settled(outcome, "Failed to add files: "@, "Add failed: "@)
}

/// What the outcome of a commit means.
pub open spec fn committed(outcome: OutcomeView) -> Result<(), FailureView> {
    settled(outcome, "Failed to commit: "@, "Commit failed: "@)
}

/// What the outcome of a push means.
pub open spec fn pushed(outcome: OutcomeView) -> Result<(), FailureView> {
    settled(outcome, "Failed to push: "@, "Push failed: "@)
}

/// What the outcome of creating a branch means.
pub open spec fn branch_created(outcome: OutcomeView) -> Result<(), FailureView> {
    settled(outcome, "Failed to create branch: "@, "Branch creation failed: "@)
}

/// What the outcome of switching branches means.
pub open spec fn branch_switched(outcome: OutcomeView) -> Result<(), FailureView> {
    settled(outcome, "Failed to switch branch: "@, "Branch switch failed: "@)
}

/// What the outcome of deleting a branch means.
pub open spec fn branch_deleted(outcome: OutcomeView) -> Result<(), FailureView> {
    settled(outcome, "Failed to delete branch: "@, "Branch deletion failed: "@)
}

/// Judges the outcome of a pull.
pub fn pull_verdict(outcome: &Outcome) -> (r: Result<(), Failure>)
    ensures
        verdict_view(r) == pulled(outcome@),
{
    settle(outcome, "Failed to pull changes: ", "Pull failed: ")
}

/// Judges the outcome of staging.
pub fn add_verdict(outcome: &Outcome) -> (r: Result<(), Failure>)
    ensures
        verdict_view(r) == added(outcome@),
{
    settle(outcome, "Failed to add files: ", "Add failed: ")
}

/// Judges the outcome of a commit.
pub fn commit_verdict(outcome: &Outcome) -> (r: Result<(), Failure>)
    ensures
        verdict_view(r) == committed(outcome@),
{
    settle(outcome, "Failed to commit: ", "Commit failed: ")
}

/// Judges the outcome of a push.
pub fn push_verdict(outcome: &Outcome) -> (r: Result<(), Failure>)
    ensures
        verdict_view(r) == pushed(outcome@),
{
    settle(outcome, "Failed to push: ", "Push failed: ")
}

/// Judges the outcome of creating a branch.
pub fn create_branch_verdict(outcome: &Outcome) -> (r: Result<(), Failure>)
    ensures
        verdict_view(r) == branch_created(outcome@),
{
    settle(outcome, "Failed to create branch: ", "Branch creation failed: ")
}

/// Judges the outcome of switching branches.
pub fn switch_branch_verdict(outcome: &Outcome) -> (r: Result<(), Failure>)
    ensures
        verdict_view(r) == branch_switched(outcome@),
{
    settle(outcome, "Failed to switch branch: ", "Branch switch failed: ")
}

/// Judges the outcome of deleting a branch.
pub fn delete_branch_verdict(outcome: &Outcome) -> (r: Result<(), Failure>)
    ensures
        verdict_view(r) == branch_deleted(outcome@),
{
    settle(outcome, "Failed to delete branch: ", "Branch deletion failed: ")
}

impl GitOps {
    /// Puts settings and mode together.
    pub fn new(config: Config, dry_run: bool) -> (ops: GitOps)
        ensures
            ops@ == (OpsView { config: config@, dry_run }),
    {
        GitOps { config, dry_run }
    }

    /// Decides what is done with a request under the mode in effect.
    pub fn dispatch(&self, request: GitRequest) -> (action: Action)
        ensures
            action@ == self@.dispatched(request@),
            keeps_to_mode(self@.dry_run, action@),
    {
        if self.dry_run && request.mutates() {
            Action::Announce(request)
        } else {
            Action::Launch(request)
        }
    }

    /// The query for the current branch's name. It is launched in every mode.
    pub fn get_current_branch(&self) -> (action: Action)
        ensures
            action@ == ActionView::Launch(RequestView::CurrentBranch),
    {
        self.dispatch(GitRequest::CurrentBranch)
    }

    /// The check for a working tree. It is launched in every mode.
    pub fn check_git_repo(&self) -> (action: Action)
        ensures
            action@ == ActionView::Launch(RequestView::CheckRepo),
    {
        self.dispatch(GitRequest::CheckRepo)
    }

    /// The query for uncommitted changes. It is launched in every mode.
    pub fn has_changes(&self) -> (action: Action)
        ensures
            action@ == ActionView::Launch(RequestView::Changes),
    {
        self.dispatch(GitRequest::Changes)
    }

    /// A pull from the configured remote.
    pub fn pull(&self) -> (action: Action)
        ensures
            action@ == self@.dispatched(
                RequestView::Pull { remote: self@.config.default_remote },
            ),
    {
        self.dispatch(GitRequest::Pull { remote: self.config.default_remote.clone() })
    }

    /// Staging of the given paths.
    pub fn add_files(&self, files: &Vec<String>) -> (action: Action)
        ensures
            action@ == self@.dispatched(RequestView::Add { paths: texts(files@) }),
    {
        self.dispatch(GitRequest::Add { paths: clone_texts(files) })
    }

    /// A commit under the given message, taken as it is.
    pub fn commit(&self, message: &str) -> (action: Action)
        ensures
            action@ == self@.dispatched(RequestView::Commit { message: message@ }),
    {
        self.dispatch(GitRequest::Commit { message: message.to_owned() })
    }

    /// A push of `branch` to the configured remote.
    pub fn push(&self, branch: &str) -> (action: Action)
        ensures
            action@ == self@.dispatched(
                RequestView::Push { remote: self@.config.default_remote, branch: branch@ },
            ),
    {
        self.dispatch(
            GitRequest::Push {
                remote: self.config.default_remote.clone(),
                branch: branch.to_owned(),
            },
        )
    }

    /// Creation of a branch, with a switch to it.
    pub fn create_branch(&self, name: &str) -> (action: Action)
        ensures
            action@ == self@.dispatched(RequestView::CreateBranch { name: name@ }),
    {
        self.dispatch(GitRequest::CreateBranch { name: name.to_owned() })
    }

    /// A switch to an existing branch.
    pub fn switch_branch(&self, name: &str) -> (action: Action)
        ensures
            action@ == self@.dispatched(RequestView::SwitchBranch { name: name@ }),
    {
        self.dispatch(GitRequest::SwitchBranch { name: name.to_owned() })
    }

    /// Deletion of a branch.
    pub fn delete_branch(&self, name: &str) -> (action: Action)
        ensures
            action@ == self@.dispatched(RequestView::DeleteBranch { name: name@ }),
    {
        self.dispatch(GitRequest::DeleteBranch { name: name.to_owned() })
    }
}

/// In a dry run nothing that can change the repository or a remote is
/// launched, and no query is merely announced: a launched request is a query,
/// and an announced one is not. Outside a dry run everything is launched.
pub proof fn lemma_dry_run_launches_only_queries(ops: OpsView, request: RequestView)
    ensures
        ops.dispatched(request).request() == request,
        keeps_to_mode(ops.dry_run, ops.dispatched(request)),
        ops.dry_run ==> (ops.dispatched(request) is Launch <==> !request.mutates()),
        !ops.dry_run ==> ops.dispatched(request) is Launch,
{
}

} // verus!
