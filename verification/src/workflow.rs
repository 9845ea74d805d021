//! The course of one invocation, as a state machine.
//!
//! The caller starts with [`GitOps::begin`], carries out the action it is
//! handed, and reports the outcome to [`GitOps::step`] together with the
//! stage it was given, until a step finishes the invocation.

use vstd::prelude::*;
use vstd::string::*;

use crate::config::{Config, ConfigView};
use crate::message::{generate_commit_message, is_generated};
use crate::ops::{
    add_verdict, added, branch_created, branch_deleted, branch_name, branch_named,
    branch_switched, changes_found, changes_reported, commit_verdict, committed,
    create_branch_verdict, delete_branch_verdict, pull_verdict, pulled, push_verdict, pushed,
    keeps_to_mode, repository_found, switch_branch_verdict, Action, ActionView, GitOps, OpsView,
};
use crate::outcome::{join, Failure, FailureView, Outcome, OutcomeView};
use crate::request::{texts, RequestView};

verus! {

/// The model of an optional string.
pub open spec fn opt_text(o: Option<String>) -> Option<Seq<char>> {
    match o {
        Some(s) => Some(s@),
        None => None,
    }
}

/// The model of an optional list of strings.
pub open spec fn opt_texts(o: Option<Vec<String>>) -> Option<Seq<Seq<char>>> {
    match o {
        Some(v) => Some(texts(v@)),
        None => None,
    }
}

/// What to do with a branch.
#[derive(Clone, Debug, PartialEq, Eq)]
pub enum BranchCommands {
    /// Create the branch and switch to it.
    Create { name: String },
    /// Switch to the branch.
    Switch { name: String },
    /// Delete the branch.
    Delete { name: String },
}

/// Mathematical model of a [`BranchCommands`].
pub ghost enum BranchCommandsView {
    Create { name: Seq<char> },
    Switch { name: Seq<char> },
    Delete { name: Seq<char> },
}

impl View for BranchCommands {
    type V = BranchCommandsView;

    open spec fn view(&self) -> BranchCommandsView {
        match self {
            BranchCommands::Create { name } => BranchCommandsView::Create { name: name@ },
            BranchCommands::Switch { name } => BranchCommandsView::Switch { name: name@ },
            BranchCommands::Delete { name } => BranchCommandsView::Delete { name: name@ },
        }
    }
}

/// The action that the user asked for.
#[derive(Clone, Debug, PartialEq, Eq)]
pub enum Commands {
    /// Stage, commit and push.
    Commit {
        /// The commit message; one is generated where none is given.
        message: Option<String>,
        /// The paths to stage; everything where none are given.
        files: Option<Vec<String>>,
        /// Whether a generated message takes the conventional format.
        conventional: bool,
    },
    /// Create, switch to or delete a branch.
    Branch { cmd: BranchCommands },
    /// Write a fresh settings file.
    Init,
    /// Show the current branch and whether there are uncommitted changes.
    Status,
}

/// Mathematical model of a [`Commands`].
pub ghost enum CommandsView {
    Commit { message: Option<Seq<char>>, files: Option<Seq<Seq<char>>>, conventional: bool },
    Branch { cmd: BranchCommandsView },
    Init,
    Status,
}

impl View for Commands {
    type V = CommandsView;

    open spec fn view(&self) -> CommandsView {
        match self {
            Commands::Commit { message, files, conventional } => CommandsView::Commit {
                message: opt_text(*message),
                files: opt_texts(*files),
                conventional: *conventional,
            },
            Commands::Branch { cmd } => CommandsView::Branch { cmd: cmd@ },
            Commands::Init => CommandsView::Init,
            Commands::Status => CommandsView::Status,
        }
    }
}

/// What a commit-and-push carries through its stages.
#[derive(Clone, Debug, PartialEq, Eq)]
pub struct CommitPlan {
    /// The message the user gave, if any.
    pub message: Option<String>,
    /// The paths to stage.
    pub files: Vec<String>,
    /// Whether a generated message takes the conventional format.
    pub conventional: bool,
}

/// Mathematical model of a [`CommitPlan`].
pub ghost struct PlanView {
    pub message: Option<Seq<char>>,
    pub files: Seq<Seq<char>>,
    pub conventional: bool,
}

impl PlanView {
    /// The message to commit under: the user's, taken as it is, or else the
    /// generated one.
    pub open spec fn message_or(self, generated: Seq<char>) -> Seq<char> {
        match self.message {
            Some(m) => m,
            None => generated,
        }
    }
}

/// The plan that a commit command turns into: where the user named no
/// paths, everything is staged.
pub open spec fn plan_for(
    message: Option<Seq<char>>,
    files: Option<Seq<Seq<char>>>,
    conventional: bool,
) -> PlanView {
    PlanView {
        message,
        files: match files {
            Some(paths) => paths,
            None => all_paths(),
        },
        conventional,
    }
}

impl View for CommitPlan {
    type V = PlanView;

    open spec fn view(&self) -> PlanView {
        PlanView {
            message: opt_text(self.message),
            files: texts(self.files@),
            conventional: self.conventional,
        }
    }
}

/// Where an invocation stands: the request whose outcome is awaited, with
/// what the later stages need.
#[derive(Clone, Debug, PartialEq, Eq)]
pub enum Stage {
    /// The check for a working tree.
    Repository { command: Commands },
    /// The pull before a commit.
    Pull { plan: CommitPlan },
    /// Staging.
    Add { plan: CommitPlan },
    /// The query for changes after staging.
    Changes { plan: CommitPlan },
    /// The commit.
    Commit,
    /// The query for the branch to push.
    Branch,
    /// The push.
    Push,
    /// Creation of a branch.
    CreateBranch,
    /// A switch of branches.
    SwitchBranch,
    /// Deletion of a branch.
    DeleteBranch,
    /// The query for the branch to show.
    StatusBranch,
    /// The query for changes to show, with the branch already known.
    StatusChanges { branch: String },
}

/// Mathematical model of a [`Stage`].
pub ghost enum StageView {
    Repository { command: CommandsView },
    Pull { plan: PlanView },
    Add { plan: PlanView },
    Changes { plan: PlanView },
    Commit,
    Branch,
    Push,
    CreateBranch,
    SwitchBranch,
    DeleteBranch,
    StatusBranch,
    StatusChanges { branch: Seq<char> },
}

impl View for Stage {
    type V = StageView;

    open spec fn view(&self) -> StageView {
        match self {
            Stage::Repository { command } => StageView::Repository { command: command@ },
            Stage::Pull { plan } => StageView::Pull { plan: plan@ },
            Stage::Add { plan } => StageView::Add { plan: plan@ },
            Stage::Changes { plan } => StageView::Changes { plan: plan@ },
            Stage::Commit => StageView::Commit,
            Stage::Branch => StageView::Branch,
            Stage::Push => StageView::Push,
            Stage::CreateBranch => StageView::CreateBranch,
            Stage::SwitchBranch => StageView::SwitchBranch,
            Stage::DeleteBranch => StageView::DeleteBranch,
            Stage::StatusBranch => StageView::StatusBranch,
            Stage::StatusChanges { branch } => StageView::StatusChanges { branch: branch@ },
        }
    }
}

/// How an invocation ended well.
#[derive(Clone, Debug, PartialEq, Eq)]
pub enum Report {
    /// The changes were committed and pushed.
    Pushed,
    /// There was nothing to commit; nothing was committed or pushed.
    NothingToCommit,
    /// The branch was created, switched to or deleted.
    BranchChanged,
    /// These settings are to be written to the settings file, in place of
    /// whatever the file holds, as the text that
    /// [`settings_text`](crate::config::settings_text) gives for them.
    Settings { config: Config },
    /// The current branch, and whether there are uncommitted changes.
    Status { branch: String, has_changes: bool },
}

/// Mathematical model of a [`Report`].
pub ghost enum ReportView {
    Pushed,
    NothingToCommit,
    BranchChanged,
    Settings { config: ConfigView },
    Status { branch: Seq<char>, has_changes: bool },
}

impl View for Report {
    type V = ReportView;

    open spec fn view(&self) -> ReportView {
        match self {
            Report::Pushed => ReportView::Pushed,
            Report::NothingToCommit => ReportView::NothingToCommit,
            Report::BranchChanged => ReportView::BranchChanged,
            Report::Settings { config } => ReportView::Settings { config: config@ },
            Report::Status { branch, has_changes } => ReportView::Status {
                branch: branch@,
                has_changes: *has_changes,
            },
        }
    }
}

/// The model of the end of an invocation.
pub open spec fn end_view(r: Result<Report, Failure>) -> Result<ReportView, FailureView> {
    match r {
        Ok(report) => Ok(report@),
        Err(e) => Err(e@),
    }
}

/// What the state machine hands to its caller.
#[derive(Debug, PartialEq, Eq)]
pub enum Step {
    /// Carry out `action`, then call [`GitOps::step`] with `stage` and the
    /// outcome.
    Act { stage: Stage, action: Action },
    /// The invocation is over.
    Finish(Result<Report, Failure>),
}

/// Mathematical model of a [`Step`].
pub ghost enum StepView {
    Act { stage: StageView, action: ActionView },
    Finish(Result<ReportView, FailureView>),
}

impl View for Step {
    type V = StepView;

    open spec fn view(&self) -> StepView {
        match self {
            Step::Act { stage, action } => StepView::Act { stage: stage@, action: action@ },
            Step::Finish(r) => StepView::Finish(end_view(*r)),
        }
    }
}

/// The paths staged where the user named none.
pub open spec fn all_paths() -> Seq<Seq<char>> {
    seq!["."@]
}

impl OpsView {
    /// The step that issues `request` and then waits in `stage`.
    pub open spec fn act(self, stage: StageView, request: RequestView) -> StepView {
        StepView::Act { stage, action: self.dispatched(request) }
    }

    /// The first step: the check for a working tree, before anything else.
    pub open spec fn first(self, command: CommandsView) -> StepView {
        self.act(StageView::Repository { command }, RequestView::CheckRepo)
    }

    /// The step that stages the plan's paths.
    pub open spec fn stage_files(self, plan: PlanView) -> StepView {
        self.act(StageView::Add { plan }, RequestView::Add { paths: plan.files })
    }

    /// The step after the working tree was found.
    pub open spec fn enter(self, command: CommandsView) -> StepView {
        match command {
            CommandsView::Commit { message, files, conventional } => {
                let plan = plan_for(message, files, conventional);
                if self.config.auto_pull {
                    self.act(
                        StageView::Pull { plan },
                        RequestView::Pull { remote: self.config.default_remote },
                    )
                } else {
                    self.stage_files(plan)
                }
            },
            CommandsView::Branch { cmd: BranchCommandsView::Create { name } } => self.act(
                StageView::CreateBranch,
                RequestView::CreateBranch { name },
            ),
            CommandsView::Branch { cmd: BranchCommandsView::Switch { name } } => self.act(
                StageView::SwitchBranch,
                RequestView::SwitchBranch { name },
            ),
            CommandsView::Branch { cmd: BranchCommandsView::Delete { name } } => self.act(
                StageView::DeleteBranch,
                RequestView::DeleteBranch { name },
            ),
            CommandsView::Init => StepView::Finish(
                Ok(ReportView::Settings { config: ConfigView::default_value() }),
            ),
            CommandsView::Status => self.act(StageView::StatusBranch, RequestView::CurrentBranch),
        }
    }

    /// The step that follows `stage` once its request ended in `outcome`.
    /// `generated` is the message to commit under where the user gave none.
    ///
    /// Every failure ends the invocation with that failure. Staging follows
    /// the pull, the query for changes follows staging, and where that query
    /// reports none the invocation ends well at once. Otherwise the commit
    /// follows, then the query for the branch, then the push of that branch to
    /// the configured remote.
    pub open spec fn next(
        self,
        stage: StageView,
        outcome: OutcomeView,
        generated: Seq<char>,
    ) -> StepView {
        match stage {
            StageView::Repository { command } => if outcome.succeeded() {
                self.enter(command)
            } else {
                StepView::Finish(Err(FailureView::NotARepository))
            },
            StageView::Pull { plan } => match pulled(outcome) {
                Err(e) => StepView::Finish(Err(e)),
                Ok(_) => self.stage_files(plan),
            },
            StageView::Add { plan } => match added(outcome) {
                Err(e) => StepView::Finish(Err(e)),
                Ok(_) => self.act(StageView::Changes { plan }, RequestView::Changes),
            },
            StageView::Changes { plan } => match changes_reported(outcome) {
                Err(e) => StepView::Finish(Err(e)),
                Ok(false) => StepView::Finish(Ok(ReportView::NothingToCommit)),
                Ok(true) => self.act(
                    StageView::Commit,
                    RequestView::Commit { message: plan.message_or(generated) },
                ),
            },
            StageView::Commit => match committed(outcome) {
                Err(e) => StepView::Finish(Err(e)),
                Ok(_) => self.act(StageView::Branch, RequestView::CurrentBranch),
            },
            StageView::Branch => match branch_named(outcome) {
                Err(e) => StepView::Finish(Err(e)),
                Ok(branch) => self.act(
                    StageView::Push,
                    RequestView::Push { remote: self.config.default_remote, branch },
                ),
            },
            StageView::Push => match pushed(outcome) {
                Err(e) => StepView::Finish(Err(e)),
                Ok(_) => StepView::Finish(Ok(ReportView::Pushed)),
            },
            StageView::CreateBranch => match branch_created(outcome) {
                Err(e) => StepView::Finish(Err(e)),
                Ok(_) => StepView::Finish(Ok(ReportView::BranchChanged)),
            },
            StageView::SwitchBranch => match branch_switched(outcome) {
                Err(e) => StepView::Finish(Err(e)),
                Ok(_) => StepView::Finish(Ok(ReportView::BranchChanged)),
            },
            StageView::DeleteBranch => match branch_deleted(outcome) {
                Err(e) => StepView::Finish(Err(e)),
                Ok(_) => StepView::Finish(Ok(ReportView::BranchChanged)),
            },
            StageView::StatusBranch => match branch_named(outcome) {
                Err(e) => StepView::Finish(Err(e)),
                Ok(branch) => self.act(StageView::StatusChanges { branch }, RequestView::Changes),
            },
            StageView::StatusChanges { branch } => match changes_reported(outcome) {
                Err(e) => StepView::Finish(Err(e)),
                Ok(has_changes) => StepView::Finish(
                    Ok(ReportView::Status { branch, has_changes }),
                ),
            },
        }
    }
}

/// Whether the step after `stage` commits under a generated message: the
/// query for changes reported some, and the user gave no message.
pub open spec fn wants_message(stage: StageView, outcome: OutcomeView) -> bool {
    stage matches StageView::Changes { plan } && plan.message is None && changes_reported(outcome)
        == Ok::<bool, FailureView>(true)
}

impl GitOps {
    /// Starts an invocation: the check for a working tree comes first,
    /// whatever the command and the mode.
    pub fn begin(&self, command: Commands) -> (step: Step)
        ensures
            step@ == self@.first(command@),
    {
        Step::Act { stage: Stage::Repository { command }, action: self.check_git_repo() }
    }

    fn stage_files(&self, plan: CommitPlan) -> (step: Step)
        ensures
            step@ == self@.stage_files(plan@),
    {
        let action = self.add_files(&plan.files);
        Step::Act { stage: Stage::Add { plan }, action }
    }

    fn enter(&self, command: Commands) -> (step: Step)
        ensures
            step@ == self@.enter(command@),
    {
        match command {
            Commands::Commit { message, files, conventional } => {
                let files = match files {
                    Some(paths) => paths,
                    None => {
                        let mut paths: Vec<String> = Vec::new();
                        paths.push(".".to_owned());
                        assert(texts(paths@) =~= all_paths());
                        paths
                    },
                };
                let plan = CommitPlan { message, files, conventional };
                if self.config.auto_pull {
                    let action = self.pull();
                    Step::Act { stage: Stage::Pull { plan }, action }
                } else {
                    self.stage_files(plan)
                }
            },
            Commands::Branch { cmd } => match cmd {
                BranchCommands::Create { name } => Step::Act {
                    stage: Stage::CreateBranch,
                    action: self.create_branch(name.as_str()),
                },
                BranchCommands::Switch { name } => Step::Act {
                    stage: Stage::SwitchBranch,
                    action: self.switch_branch(name.as_str()),
                },
                BranchCommands::Delete { name } => Step::Act {
                    stage: Stage::DeleteBranch,
                    action: self.delete_branch(name.as_str()),
                },
            },
            Commands::Init => Step::Finish(Ok(Report::Settings { config: Config::default() })),
            Commands::Status => Step::Act {
                stage: Stage::StatusBranch,
                action: self.get_current_branch(),
            },
        }
    }

    /// The step that follows `stage` once its request ended in `outcome`,
    /// with `generated` as the message to commit under where the user gave
    /// none.
    pub fn step_with(&self, stage: Stage, outcome: &Outcome, generated: &str) -> (step: Step)
        ensures
            step@ == self@.next(stage@, outcome@, generated@),
            step@ matches StepView::Act { action, .. } ==> keeps_to_mode(self@.dry_run, action),
    {
        match stage {
            Stage::Repository { command } => {
                if repository_found(outcome) {
                    self.enter(command)
                } else {
                    Step::Finish(Err(Failure::NotARepository))
                }
            },
            Stage::Pull { plan } => match pull_verdict(outcome) {
                Err(e) => Step::Finish(Err(e)),
                Ok(_) => self.stage_files(plan),
            },
            Stage::Add { plan } => match add_verdict(outcome) {
                Err(e) => Step::Finish(Err(e)),
                Ok(_) => Step::Act { stage: Stage::Changes { plan }, action: self.has_changes() },
            },
            Stage::Changes { plan } => match changes_found(outcome) {
                Err(e) => Step::Finish(Err(e)),
                Ok(false) => Step::Finish(Ok(Report::NothingToCommit)),
                Ok(true) => {
                    let action = match plan.message {
                        Some(message) => self.commit(message.as_str()),
                        None => self.commit(generated),
                    };
                    Step::Act { stage: Stage::Commit, action }
                },
            },
            Stage::Commit => match commit_verdict(outcome) {
                Err(e) => Step::Finish(Err(e)),
                Ok(_) => Step::Act { stage: Stage::Branch, action: self.get_current_branch() },
            },
            Stage::Branch => match branch_name(outcome) {
                Err(e) => Step::Finish(Err(e)),
                Ok(branch) => Step::Act { stage: Stage::Push, action: self.push(branch.as_str()) },
            },
            Stage::Push => match push_verdict(outcome) {
                Err(e) => Step::Finish(Err(e)),
                Ok(_) => Step::Finish(Ok(Report::Pushed)),
            },
            Stage::CreateBranch => match create_branch_verdict(outcome) {
                Err(e) => Step::Finish(Err(e)),
                Ok(_) => Step::Finish(Ok(Report::BranchChanged)),
            },
            Stage::SwitchBranch => match switch_branch_verdict(outcome) {
                Err(e) => Step::Finish(Err(e)),
                Ok(_) => Step::Finish(Ok(Report::BranchChanged)),
            },
            Stage::DeleteBranch => match delete_branch_verdict(outcome) {
                Err(e) => Step::Finish(Err(e)),
                Ok(_) => Step::Finish(Ok(Report::BranchChanged)),
            },
            Stage::StatusBranch => match branch_name(outcome) {
                Err(e) => Step::Finish(Err(e)),
                Ok(branch) => Step::Act {
                    stage: Stage::StatusChanges { branch },
                    action: self.has_changes(),
                },
            },
            Stage::StatusChanges { branch } => match changes_found(outcome) {
                Err(e) => Step::Finish(Err(e)),
                Ok(has_changes) => Step::Finish(Ok(Report::Status { branch, has_changes })),
            },
        }
    }

    /// The step that follows `stage` once its request ended in `outcome`.
    ///
    /// Where the commit needs a generated message, one is generated here, and
    /// the step is the one that [`OpsView::next`] gives for some message of
    /// the generated form: a phrase of lowercase words joined by hyphens,
    /// behind `feat: ` in the conventional format and alone otherwise.
    /// Everywhere else the step is fixed by stage and outcome.
    pub fn step(&self, stage: Stage, outcome: &Outcome) -> (step: Step)
        ensures
            !wants_message(stage@, outcome@) ==> step@ == self@.next(
                stage@,
                outcome@,
                Seq::empty(),
            ),
            wants_message(stage@, outcome@) ==> exists|generated: Seq<char>|
                {
                    &&& is_generated(generated, stage@->Changes_plan.conventional)
                    &&& step@ == #[trigger] self@.next(stage@, outcome@, generated)
                },
            step@ matches StepView::Act { action, .. } ==> keeps_to_mode(self@.dry_run, action),
    {
        let conventional = match &stage {
            Stage::Changes { plan } => match (&plan.message, changes_found(outcome)) {
                (None, Ok(true)) => Some(plan.conventional),
                _ => None,
            },
            _ => None,
        };
        match conventional {
            Some(conventional) => {
                let generated = generate_commit_message(
                    self.config.commit_template.as_str(),
                    conventional,
                );
                self.step_with(stage, outcome, generated.as_str())
            },
            None => self.step_with(stage, outcome, ""),
        }
    }
}

/// The two lines that show a status: the current branch, then whether there
/// are uncommitted changes.
pub open spec fn status_text(branch: Seq<char>, has_changes: bool) -> Seq<Seq<char>> {
    seq![
        "Current branch: "@ + branch,
        "Has uncommitted changes: "@ + (if has_changes {
            "true"@
        } else {
            "false"@
        }),
    ]
}

/// Builds the lines that show a status.
pub fn status_lines(branch: &str, has_changes: bool) -> (lines: Vec<String>)
    ensures
        texts(lines@) == status_text(branch@, has_changes),
{
    let mut lines: Vec<String> = Vec::new();
    lines.push(join("Current branch: ", branch));
    lines.push(
        join(
            "Has uncommitted changes: ",
            if has_changes {
                "true"
            } else {
                "false"
            },
        ),
    );
    assert(texts(lines@) =~= status_text(branch@, has_changes));
    lines
}

} // verus!
