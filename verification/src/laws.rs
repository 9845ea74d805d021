//! What holds of every invocation, stated over whole runs of the state
//! machine and proved from its definition.

use vstd::prelude::*;

use crate::config::ConfigView;
use crate::ops::{
    added, branch_named, changes_reported, committed, keeps_to_mode, pulled, pushed, ActionView,
    OpsView,
};
use crate::outcome::{FailureView, OutcomeView, ResultView};
use crate::request::RequestView;
use crate::text::{is_white_space, lemma_trim_line};
use crate::workflow::{plan_for, CommandsView, PlanView, ReportView, StageView, StepView};

verus! {

impl OpsView {
    /// The actions handed out, in order, from `step` on, where the outcomes
    /// reported are `outcomes`, one for each action, as far as they go.
    pub open spec fn actions_from(
        self,
        step: StepView,
        outcomes: Seq<OutcomeView>,
        generated: Seq<char>,
    ) -> Seq<ActionView>
        decreases outcomes.len(),
    {
        match step {
            StepView::Finish(_) => Seq::empty(),
            StepView::Act { stage, action } => if outcomes.len() == 0 {
                seq![action]
            } else {
                seq![action] + self.actions_from(
                    self.next(stage, outcomes[0], generated),
                    outcomes.drop_first(),
                    generated,
                )
            },
        }
    }

    /// How the invocation ends from `step` on under the outcomes reported,
    /// or `None` where it is still waiting when they run out.
    pub open spec fn end_from(
        self,
        step: StepView,
        outcomes: Seq<OutcomeView>,
        generated: Seq<char>,
    ) -> Option<Result<ReportView, FailureView>>
        decreases outcomes.len(),
    {
        match step {
            StepView::Finish(end) => Some(end),
            StepView::Act { stage, action } => if outcomes.len() == 0 {
                None
            } else {
                self.end_from(
                    self.next(stage, outcomes[0], generated),
                    outcomes.drop_first(),
                    generated,
                )
            },
        }
    }

    /// The actions of an invocation of `command`.
    pub open spec fn actions(
        self,
        command: CommandsView,
        outcomes: Seq<OutcomeView>,
        generated: Seq<char>,
    ) -> Seq<ActionView> {
        self.actions_from(self.first(command), outcomes, generated)
    }

    /// The end of an invocation of `command`.
    pub open spec fn end(
        self,
        command: CommandsView,
        outcomes: Seq<OutcomeView>,
        generated: Seq<char>,
    ) -> Option<Result<ReportView, FailureView>> {
        self.end_from(self.first(command), outcomes, generated)
    }

    /// The same settings in the other mode.
    pub open spec fn with_mode(self, dry_run: bool) -> OpsView {
        OpsView { config: self.config, dry_run }
    }
}

/// Whether two steps differ at most in launching or announcing: they ask for
/// the same request and wait in the same stage, or end alike.
pub open spec fn same_course(a: StepView, b: StepView) -> bool {
    match (a, b) {
        (
            StepView::Act { stage: stage_a, action: action_a },
            StepView::Act { stage: stage_b, action: action_b },
        ) => stage_a == stage_b && action_a.request() == action_b.request(),
        (StepView::Finish(end_a), StepView::Finish(end_b)) => end_a == end_b,
        _ => false,
    }
}

/// Every step keeps to the mode, the first one included.
pub proof fn lemma_step_keeps_to_mode(
    ops: OpsView,
    command: CommandsView,
    stage: StageView,
    outcome: OutcomeView,
    generated: Seq<char>,
)
    ensures
        ops.first(command) matches StepView::Act { action, .. } && action == ActionView::Launch(
            RequestView::CheckRepo,
        ),
        ops.next(stage, outcome, generated) matches StepView::Act { action, .. } ==> keeps_to_mode(
            ops.dry_run,
            action,
        ),
{
}

/// In every run, whatever the outcomes reported, each action keeps to the
/// mode: a dry run never launches a request that can change the repository
/// or a remote, and never withholds a query.
pub proof fn lemma_run_keeps_to_mode(
    ops: OpsView,
    command: CommandsView,
    outcomes: Seq<OutcomeView>,
    generated: Seq<char>,
)
    ensures
        forall|i: int|
            0 <= i < ops.actions(command, outcomes, generated).len() ==> keeps_to_mode(
                ops.dry_run,
                #[trigger] ops.actions(command, outcomes, generated)[i],
            ),
{
    lemma_actions_keep_to_mode(ops, ops.first(command), outcomes, generated);
}

proof fn lemma_actions_keep_to_mode(
    ops: OpsView,
    step: StepView,
    outcomes: Seq<OutcomeView>,
    generated: Seq<char>,
)
    requires
        step matches StepView::Act { action, .. } ==> keeps_to_mode(ops.dry_run, action),
    ensures
        forall|i: int|
            0 <= i < ops.actions_from(step, outcomes, generated).len() ==> keeps_to_mode(
                ops.dry_run,
                #[trigger] ops.actions_from(step, outcomes, generated)[i],
            ),
    decreases outcomes.len(),
{
    let all = ops.actions_from(step, outcomes, generated);
    match step {
        StepView::Finish(_) => {},
        StepView::Act { stage, action } => {
            if outcomes.len() > 0 {
                let rest = ops.next(stage, outcomes[0], generated);
                let later = ops.actions_from(rest, outcomes.drop_first(), generated);
                lemma_actions_keep_to_mode(ops, rest, outcomes.drop_first(), generated);
                assert forall|i: int| 0 <= i < all.len() implies keeps_to_mode(
                    ops.dry_run,
                    #[trigger] all[i],
                ) by {
                    if i > 0 {
                        assert(all[i] == later[i - 1]);
                    }
                }
            }
        },
    }
}

/// The mode changes nothing but launching into announcing: under the same
/// outcomes a dry run asks for the same requests, waits in the same stages
/// and ends alike, so what the queries report shows in its result.
pub proof fn lemma_mode_keeps_course(
    ops: OpsView,
    command: CommandsView,
    stage: StageView,
    outcome: OutcomeView,
    generated: Seq<char>,
)
    ensures
        same_course(ops.with_mode(true).first(command), ops.with_mode(false).first(command)),
        same_course(
            ops.with_mode(true).next(stage, outcome, generated),
            ops.with_mode(false).next(stage, outcome, generated),
        ),
{
}

/// Outside a working tree the invocation ends at once in the failure for
/// that, whatever the command: the check is the only request made.
pub proof fn lemma_outside_repository(
    ops: OpsView,
    command: CommandsView,
    outcomes: Seq<OutcomeView>,
    generated: Seq<char>,
)
    requires
        outcomes.len() > 0,
        !outcomes[0].succeeded(),
    ensures
        ops.actions(command, outcomes, generated) == seq![
            ActionView::Launch(RequestView::CheckRepo),
        ],
        ops.end(command, outcomes, generated) == Some(
            Err::<ReportView, FailureView>(FailureView::NotARepository),
        ),
{
    let rest = outcomes.drop_first();
    let step = ops.next(
        StageView::Repository { command },
        outcomes[0],
        generated,
    );
    assert(ops.actions_from(step, rest, generated) =~= Seq::empty());
    assert(ops.end_from(step, rest, generated) == Some(
        Err::<ReportView, FailureView>(FailureView::NotARepository),
    ));
    assert(ops.actions(command, outcomes, generated) =~= seq![
        ActionView::Launch(RequestView::CheckRepo),
    ]);
}

/// The requests that a sequence of actions asks for.
pub open spec fn requests(actions: Seq<ActionView>) -> Seq<RequestView> {
    actions.map_values(|a: ActionView| a.request())
}

/// The outcomes of a commit-and-push up to the staging: that of the check,
/// and that of the pull where the settings ask for one.
pub open spec fn opening(ops: OpsView, found: OutcomeView, pull: OutcomeView) -> Seq<OutcomeView> {
    if ops.config.auto_pull {
        seq![found, pull]
    } else {
        seq![found]
    }
}

/// The requests of a commit-and-push up to the staging: the check, and the
/// pull from the configured remote where the settings ask for one.
pub open spec fn opening_requests(ops: OpsView) -> Seq<RequestView> {
    if ops.config.auto_pull {
        seq![RequestView::CheckRepo, RequestView::Pull { remote: ops.config.default_remote }]
    } else {
        seq![RequestView::CheckRepo]
    }
}

/// One step of a run: the request issued, then the run from the step that
/// the first outcome leads to.
proof fn lemma_run_step(
    ops: OpsView,
    stage: StageView,
    request: RequestView,
    outcomes: Seq<OutcomeView>,
    generated: Seq<char>,
)
    requires
        outcomes.len() > 0,
    ensures
        requests(ops.actions_from(ops.act(stage, request), outcomes, generated)) == seq![request]
            + requests(
            ops.actions_from(
                ops.next(stage, outcomes[0], generated),
                outcomes.drop_first(),
                generated,
            ),
        ),
        ops.end_from(ops.act(stage, request), outcomes, generated) == ops.end_from(
            ops.next(stage, outcomes[0], generated),
            outcomes.drop_first(),
            generated,
        ),
{
    let later = ops.actions_from(
        ops.next(stage, outcomes[0], generated),
        outcomes.drop_first(),
        generated,
    );
    assert(ops.actions_from(ops.act(stage, request), outcomes, generated) == seq![
        ops.dispatched(request),
    ] + later);
    assert(requests(seq![ops.dispatched(request)] + later) =~= seq![request] + requests(later));
}

/// A commit-and-push gets to the staging where the working tree was found
/// and the pull, if any, went through.
proof fn lemma_run_reaches_staging(
    ops: OpsView,
    message: Option<Seq<char>>,
    files: Option<Seq<Seq<char>>>,
    conventional: bool,
    found: OutcomeView,
    pull: OutcomeView,
    rest: Seq<OutcomeView>,
    generated: Seq<char>,
)
    requires
        found.succeeded(),
        pulled(pull) is Ok,
    ensures
        ({
            let command = CommandsView::Commit { message, files, conventional };
            let staging = ops.stage_files(plan_for(message, files, conventional));
            let outcomes = opening(ops, found, pull) + rest;
            &&& requests(ops.actions(command, outcomes, generated)) == opening_requests(ops)
                + requests(ops.actions_from(staging, rest, generated))
            &&& ops.end(command, outcomes, generated) == ops.end_from(staging, rest, generated)
        }),
{
    let command = CommandsView::Commit { message, files, conventional };
    let plan = plan_for(message, files, conventional);
    let outcomes = opening(ops, found, pull) + rest;
    let after = ops.requests_after_staging(plan, rest, generated);
    lemma_run_step(
        ops,
        StageView::Repository { command },
        RequestView::CheckRepo,
        outcomes,
        generated,
    );
    assert(outcomes[0] == found);
    if ops.config.auto_pull {
        let tail = seq![pull] + rest;
        assert(outcomes.drop_first() =~= tail);
        lemma_run_step(
            ops,
            StageView::Pull { plan },
            RequestView::Pull { remote: ops.config.default_remote },
            tail,
            generated,
        );
        assert(tail[0] == pull);
        assert(tail.drop_first() =~= rest);
        assert(seq![RequestView::CheckRepo] + (seq![
            RequestView::Pull { remote: ops.config.default_remote },
        ] + after) =~= opening_requests(ops) + after);
    } else {
        assert(outcomes.drop_first() =~= rest);
    }
}

impl OpsView {
    /// The requests from the staging on.
    pub open spec fn requests_after_staging(
        self,
        plan: PlanView,
        outcomes: Seq<OutcomeView>,
        generated: Seq<char>,
    ) -> Seq<RequestView> {
        requests(self.actions_from(self.stage_files(plan), outcomes, generated))
    }
}

/// A commit-and-push that finds nothing to commit ends well without a commit
/// or a push. Where the working tree was found, the pull, if the settings ask
/// for one, and the staging went through, and the query for changes then
/// reports none, the invocation is over: it ends in "nothing to commit", and
/// the requests made are the check, the pull if any, the staging and the
/// query, in that order.
pub proof fn lemma_clean_tree_commits_nothing(
    ops: OpsView,
    message: Option<Seq<char>>,
    files: Option<Seq<Seq<char>>>,
    conventional: bool,
    found: OutcomeView,
    pull: OutcomeView,
    add: OutcomeView,
    changes: OutcomeView,
    generated: Seq<char>,
)
    requires
        found.succeeded(),
        pulled(pull) is Ok,
        added(add) is Ok,
        changes_reported(changes) == Ok::<bool, FailureView>(false),
    ensures
        ({
            let command = CommandsView::Commit { message, files, conventional };
            let plan = plan_for(message, files, conventional);
            let outcomes = opening(ops, found, pull) + seq![add, changes];
            &&& ops.end(command, outcomes, generated) == Some(
                Ok::<ReportView, FailureView>(ReportView::NothingToCommit),
            )
            &&& requests(ops.actions(command, outcomes, generated)) == opening_requests(ops)
                + seq![RequestView::Add { paths: plan.files }, RequestView::Changes]
        }),
{
    let plan = plan_for(message, files, conventional);
    let rest = seq![add, changes];
    lemma_run_reaches_staging(ops, message, files, conventional, found, pull, rest, generated);
    lemma_run_step(
        ops,
        StageView::Add { plan },
        RequestView::Add { paths: plan.files },
        rest,
        generated,
    );
    let last = seq![changes];
    assert(rest.drop_first() =~= last);
    lemma_run_step(ops, StageView::Changes { plan }, RequestView::Changes, last, generated);
    let over = ops.next(StageView::Changes { plan }, changes, generated);
    assert(ops.actions_from(over, last.drop_first(), generated) =~= Seq::empty());
    assert(ops.end_from(over, last.drop_first(), generated) == Some(
        Ok::<ReportView, FailureView>(ReportView::NothingToCommit),
    ));
    assert(ops.requests_after_staging(plan, rest, generated) =~= seq![
        RequestView::Add { paths: plan.files },
        RequestView::Changes,
    ]);
}

/// A commit-and-push in which every request goes through and the query for
/// changes reports some makes these requests, in this order and no others:
/// the check, the pull if the settings ask for one, the staging, the query
/// for changes, the commit under the user's message or else the generated
/// one, the query for the branch, and the push of that branch to the
/// configured remote. It ends well.
pub proof fn lemma_commit_and_push_run(
    ops: OpsView,
    message: Option<Seq<char>>,
    files: Option<Seq<Seq<char>>>,
    conventional: bool,
    found: OutcomeView,
    pull: OutcomeView,
    add: OutcomeView,
    changes: OutcomeView,
    commit: OutcomeView,
    branch: OutcomeView,
    push: OutcomeView,
    generated: Seq<char>,
)
    requires
        found.succeeded(),
        pulled(pull) is Ok,
        added(add) is Ok,
        changes_reported(changes) == Ok::<bool, FailureView>(true),
        committed(commit) is Ok,
        branch_named(branch) is Ok,
        pushed(push) is Ok,
    ensures
        ({
            let command = CommandsView::Commit { message, files, conventional };
            let plan = plan_for(message, files, conventional);
            let outcomes = opening(ops, found, pull) + seq![add, changes, commit, branch, push];
            &&& ops.end(command, outcomes, generated) == Some(
                Ok::<ReportView, FailureView>(ReportView::Pushed),
            )
            &&& requests(ops.actions(command, outcomes, generated)) == opening_requests(ops)
                + seq![
                RequestView::Add { paths: plan.files },
                RequestView::Changes,
                RequestView::Commit { message: plan.message_or(generated) },
                RequestView::CurrentBranch,
                RequestView::Push {
                    remote: ops.config.default_remote,
                    branch: branch_named(branch)->Ok_0,
                },
            ]
        }),
{
    let plan = plan_for(message, files, conventional);
    let name = branch_named(branch)->Ok_0;
    let o1 = seq![add, changes, commit, branch, push];
    let o2 = seq![changes, commit, branch, push];
    let o3 = seq![commit, branch, push];
    let o4 = seq![branch, push];
    let o5 = seq![push];
    lemma_run_reaches_staging(ops, message, files, conventional, found, pull, o1, generated);
    lemma_run_step(
        ops,
        StageView::Add { plan },
        RequestView::Add { paths: plan.files },
        o1,
        generated,
    );
    assert(o1.drop_first() =~= o2);
    lemma_run_step(ops, StageView::Changes { plan }, RequestView::Changes, o2, generated);
    assert(o2.drop_first() =~= o3);
    lemma_run_step(
        ops,
        StageView::Commit,
        RequestView::Commit { message: plan.message_or(generated) },
        o3,
        generated,
    );
    assert(o3.drop_first() =~= o4);
    lemma_run_step(ops, StageView::Branch, RequestView::CurrentBranch, o4, generated);
    assert(o4.drop_first() =~= o5);
    lemma_run_step(
        ops,
        StageView::Push,
        RequestView::Push { remote: ops.config.default_remote, branch: name },
        o5,
        generated,
    );
    let over = ops.next(StageView::Push, push, generated);
    assert(ops.actions_from(over, o5.drop_first(), generated) =~= Seq::empty());
    assert(ops.end_from(over, o5.drop_first(), generated) == Some(
        Ok::<ReportView, FailureView>(ReportView::Pushed),
    ));
    assert(ops.requests_after_staging(plan, o1, generated) =~= seq![
        RequestView::Add { paths: plan.files },
        RequestView::Changes,
        RequestView::Commit { message: plan.message_or(generated) },
        RequestView::CurrentBranch,
        RequestView::Push { remote: ops.config.default_remote, branch: name },
    ]);
}

/// With the default settings and outside a dry run, a commit-and-push that
/// names neither message nor paths, in a working tree with changes on a
/// branch whose name `git` prints on a line of its own, launches exactly: the
/// check, the pull from `origin`, the staging of `.`, the query for changes,
/// the commit under the generated message, the query for the branch, and the
/// push of that branch to `origin`; and it ends well.
pub proof fn lemma_default_commit_and_push(
    ops: OpsView,
    status: Seq<char>,
    branch: Seq<char>,
    generated: Seq<char>,
)
    requires
        ops.config == ConfigView::default_value(),
        !ops.dry_run,
        status.len() > 0,
        branch.len() > 0,
        !is_white_space(branch[0]),
        !is_white_space(branch.last()),
    ensures
        ({
            let command = CommandsView::Commit { message: None, files: None, conventional: false };
            let fine = OutcomeView::Exited(ResultView::synthetic());
            let changed = OutcomeView::Exited(
                ResultView { success: true, stdout: status, stderr: Seq::empty() },
            );
            let named = OutcomeView::Exited(
                ResultView { success: true, stdout: branch + seq!['\n'], stderr: Seq::empty() },
            );
            let outcomes = seq![fine, fine, fine, changed, fine, named, fine];
            &&& ops.end(command, outcomes, generated) == Some(
                Ok::<ReportView, FailureView>(ReportView::Pushed),
            )
            &&& ops.actions(command, outcomes, generated) == seq![
                ActionView::Launch(RequestView::CheckRepo),
                ActionView::Launch(RequestView::Pull { remote: "origin"@ }),
                ActionView::Launch(RequestView::Add { paths: seq!["."@] }),
                ActionView::Launch(RequestView::Changes),
                ActionView::Launch(RequestView::Commit { message: generated }),
                ActionView::Launch(RequestView::CurrentBranch),
                ActionView::Launch(RequestView::Push { remote: "origin"@, branch }),
            ]
        }),
{
    let command = CommandsView::Commit { message: None, files: None, conventional: false };
    let fine = OutcomeView::Exited(ResultView::synthetic());
    let changed = OutcomeView::Exited(
        ResultView { success: true, stdout: status, stderr: Seq::empty() },
    );
    let named = OutcomeView::Exited(
        ResultView { success: true, stdout: branch + seq!['\n'], stderr: Seq::empty() },
    );
    let outcomes = seq![fine, fine, fine, changed, fine, named, fine];
    let expected = seq![
        ActionView::Launch(RequestView::CheckRepo),
        ActionView::Launch(RequestView::Pull { remote: "origin"@ }),
        ActionView::Launch(RequestView::Add { paths: seq!["."@] }),
        ActionView::Launch(RequestView::Changes),
        ActionView::Launch(RequestView::Commit { message: generated }),
        ActionView::Launch(RequestView::CurrentBranch),
        ActionView::Launch(RequestView::Push { remote: "origin"@, branch }),
    ];
    lemma_trim_line(branch);
    assert(opening(ops, fine, fine) + seq![fine, changed, fine, named, fine] =~= outcomes);
    lemma_commit_and_push_run(
        ops,
        None,
        None,
        false,
        fine,
        fine,
        fine,
        changed,
        fine,
        named,
        fine,
        generated,
    );
    lemma_run_keeps_to_mode(ops, command, outcomes, generated);
    let actions = ops.actions(command, outcomes, generated);
    assert(requests(actions) =~= requests(expected));
    assert(actions.len() == expected.len());
    assert forall|i: int| 0 <= i < actions.len() implies actions[i] == expected[i] by {
        assert(keeps_to_mode(ops.dry_run, actions[i]));
        assert(requests(actions)[i] == requests(expected)[i]);
    }
    assert(actions =~= expected);
}

/// Whether a step belongs to a commit-and-push whose message the user gave
/// as `message`: a commit it asks for is under that message, and a stage
/// before the commit still carries it.
pub open spec fn holds_message(step: StepView, message: Seq<char>) -> bool {
    match step {
        StepView::Finish(_) => true,
        StepView::Act { stage, action } => {
            &&& action.request() matches RequestView::Commit { message: m } ==> m == message
            &&& match stage {
                StageView::Repository { command } => command matches CommandsView::Commit {
                    message: given,
                    ..
                } ==> given == Some(message),
                StageView::Pull { plan } => plan.message == Some(message),
                StageView::Add { plan } => plan.message == Some(message),
                StageView::Changes { plan } => plan.message == Some(message),
                _ => true,
            }
        },
    }
}

/// A message that the user gave is the message of the commit, as it stands:
/// in every run of such a commit-and-push, whatever the outcomes reported and
/// whatever message was generated, each commit asked for is under the user's
/// message.
pub proof fn lemma_explicit_message_is_used(
    ops: OpsView,
    message: Seq<char>,
    files: Option<Seq<Seq<char>>>,
    conventional: bool,
    outcomes: Seq<OutcomeView>,
    generated: Seq<char>,
)
    ensures
        ({
            let command = CommandsView::Commit { message: Some(message), files, conventional };
            forall|i: int|
                0 <= i < ops.actions(command, outcomes, generated).len() ==> (
                #[trigger] ops.actions(command, outcomes, generated)[i].request()
                    matches RequestView::Commit { message: m } ==> m == message)
        }),
{
    let command = CommandsView::Commit { message: Some(message), files, conventional };
    lemma_actions_hold_message(ops, ops.first(command), message, outcomes, generated);
}

proof fn lemma_actions_hold_message(
    ops: OpsView,
    step: StepView,
    message: Seq<char>,
    outcomes: Seq<OutcomeView>,
    generated: Seq<char>,
)
    requires
        holds_message(step, message),
    ensures
        forall|i: int|
            0 <= i < ops.actions_from(step, outcomes, generated).len() ==> (
            #[trigger] ops.actions_from(step, outcomes, generated)[i].request()
                matches RequestView::Commit { message: m } ==> m == message),
    decreases outcomes.len(),
{
    let all = ops.actions_from(step, outcomes, generated);
    match step {
        StepView::Finish(_) => {},
        StepView::Act { stage, action } => {
            if outcomes.len() > 0 {
                let rest = ops.next(stage, outcomes[0], generated);
                let later = ops.actions_from(rest, outcomes.drop_first(), generated);
                assert(holds_message(rest, message));
                lemma_actions_hold_message(ops, rest, message, outcomes.drop_first(), generated);
                assert forall|i: int| 0 <= i < all.len() implies (#[trigger] all[i].request()
                    matches RequestView::Commit { message: m } ==> m == message) by {
                    if i > 0 {
                        assert(all[i] == later[i - 1]);
                    }
                }
            }
        },
    }
}

} // verus!
