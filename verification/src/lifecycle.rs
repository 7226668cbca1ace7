//! The course of one operation on a worktree: its pre-hooks, then the
//! command itself, then its post-hooks.
//!
//! The library decides what comes next; its caller runs it and reports how
//! it went. A failed pre-hook ends the operation before the command is ever
//! asked for. A failed post-hook ends the run of the post-hooks, and leaves
//! the operation a success.

use crate::git::GitError;
use crate::hooks::{
    get_command_hooks, hook_failure, hook_result, hooks_to_run, post_hook_warning, HookContext,
    HookError, HooksConfig, Phase,
};
use crate::process::{ProcessOutcome, ProcessOutcomeView};
use crate::text::clone_texts;
use vstd::prelude::*;

verus! {

/// How an operation ended.
#[derive(Debug)]
pub enum Outcome {
    /// The command was carried out. `warning` holds the failure of a
    /// post-hook, if one failed.
    Completed { warning: Option<HookError> },
    /// A pre-hook failed: the command was not attempted.
    Aborted(HookError),
    /// The command itself failed.
    Failed(GitError),
}

/// The end of an operation as plain text.
pub enum OutcomeView {
    Completed { warning: Option<Seq<char>> },
    Aborted(Seq<char>),
    Failed(Seq<char>),
}

impl View for Outcome {
    type V = OutcomeView;

    open spec fn view(&self) -> OutcomeView {
        match self {
            Outcome::Completed { warning } => OutcomeView::Completed {
                warning: match warning {
                    Some(error) => Some(error.message@),
                    None => None,
                },
            },
            Outcome::Aborted(error) => OutcomeView::Aborted(error.message@),
            Outcome::Failed(error) => OutcomeView::Failed(error.message@),
        }
    }
}

impl OutcomeView {
    /// Whether the operation counts as a success. A post-hook's failure
    /// does not change that.
    pub open spec fn succeeded(self) -> bool {
        self is Completed
    }

    /// The line that warns of a post-hook's failure, if one failed.
    pub open spec fn warning_line(self) -> Option<Seq<char>> {
        match self {
            OutcomeView::Completed { warning: Some(message) } => Some(
                "Warning: post-hook failed: "@ + message,
            ),
            _ => None,
        }
    }

    /// The message of the failure of the operation, if it failed.
    pub open spec fn failure(self) -> Option<Seq<char>> {
        match self {
            OutcomeView::Completed { .. } => None,
            OutcomeView::Aborted(message) => Some(message),
            OutcomeView::Failed(message) => Some(message),
        }
    }
}

impl Outcome {
    /// Whether the operation counts as a success.
    pub fn succeeded(&self) -> (success: bool)
        ensures
            success == self@.succeeded(),
    {
        match self {
            Outcome::Completed { .. } => true,
            _ => false,
        }
    }

    /// The line that warns of a post-hook's failure, if one failed.
    pub fn warning_line(&self) -> (line: Option<String>)
        ensures
            line.deep_view() == self@.warning_line(),
    {
        match self {
            Outcome::Completed { warning: Some(error) } => Some(post_hook_warning(error)),
            _ => None,
        }
    }

    /// The message of the failure of the operation, if it failed.
    pub fn failure(&self) -> (message: Option<String>)
        ensures
            message.deep_view() == self@.failure(),
    {
        match self {
            Outcome::Completed { .. } => None,
            Outcome::Aborted(error) => Some(error.message.clone()),
            Outcome::Failed(error) => Some(error.message.clone()),
        }
    }
}

/// Where an operation stands.
pub enum StageView {
    /// The pre-hook at this position is to be run.
    PreHook(int),
    /// The command is to be carried out.
    Command,
    /// The post-hook at this position is to be run.
    PostHook(int),
    /// The operation has ended.
    Done(OutcomeView),
}

/// An operation under way: its hooks, and where it stands.
pub struct LifecycleView {
    pub pre: Seq<Seq<char>>,
    pub post: Seq<Seq<char>>,
    pub stage: StageView,
}

/// What the caller is to do next.
pub enum ActionView {
    /// Run this hook, then report its outcome.
    RunHook { phase: Phase, hook: Seq<char> },
    /// Carry out the command, then report its result.
    RunCommand,
    /// Nothing more: the operation has ended.
    Finish(OutcomeView),
}

impl LifecycleView {
    /// Whether the stage points at a hook that exists.
    pub open spec fn well_formed(self) -> bool {
        match self.stage {
            StageView::PreHook(i) => 0 <= i < self.pre.len(),
            StageView::PostHook(i) => 0 <= i < self.post.len(),
            _ => true,
        }
    }

    /// What the caller is to do in this state.
    pub open spec fn action(self) -> ActionView {
        match self.stage {
            StageView::PreHook(i) => ActionView::RunHook { phase: Phase::Pre, hook: self.pre[i] },
            StageView::Command => ActionView::RunCommand,
            StageView::PostHook(i) => ActionView::RunHook {
                phase: Phase::Post,
                hook: self.post[i],
            },
            StageView::Done(outcome) => ActionView::Finish(outcome),
        }
    }

    /// The state once the hook that was asked for has ended with `outcome`.
    /// In a state that asks for no hook, the report changes nothing.
    pub open spec fn hook_exited(self, outcome: ProcessOutcomeView) -> LifecycleView {
        match self.stage {
            StageView::PreHook(i) => match hook_failure(self.pre[i], Phase::Pre, outcome) {
                Some(message) => self.at(StageView::Done(OutcomeView::Aborted(message))),
                None => if i + 1 < self.pre.len() {
                    self.at(StageView::PreHook(i + 1))
                } else {
                    self.at(StageView::Command)
                },
            },
            StageView::PostHook(i) => match hook_failure(self.post[i], Phase::Post, outcome) {
                Some(message) => self.at(
                    StageView::Done(OutcomeView::Completed { warning: Some(message) }),
                ),
                None => if i + 1 < self.post.len() {
                    self.at(StageView::PostHook(i + 1))
                } else {
                    self.at(StageView::Done(OutcomeView::Completed { warning: None }))
                },
            },
            _ => self,
        }
    }

    /// The state once the command has ended: with `None` it was carried
    /// out, else the text is the message of its failure. In a state that
    /// does not ask for the command, the report changes nothing.
    pub open spec fn command_finished(self, failure: Option<Seq<char>>) -> LifecycleView {
        match self.stage {
            StageView::Command => match failure {
                Some(message) => self.at(StageView::Done(OutcomeView::Failed(message))),
                None => if self.post.len() > 0 {
                    self.at(StageView::PostHook(0))
                } else {
                    self.at(StageView::Done(OutcomeView::Completed { warning: None }))
                },
            },
            _ => self,
        }
    }

    /// Whether `report` tells of what the operation asks for in this
    /// state.
    pub open spec fn is_answered_by(self, report: ReportView) -> bool {
        match self.stage {
            StageView::PreHook(_) => report is HookExited,
            StageView::Command => report is CommandFinished,
            StageView::PostHook(_) => report is HookExited,
            StageView::Done(_) => false,
        }
    }

    /// A bound on the number of steps that the operation may still ask
    /// for.
    pub open spec fn steps_left(self) -> int {
        match self.stage {
            StageView::PreHook(i) => self.pre.len() - i + self.post.len() + 1,
            StageView::Command => self.post.len() as int + 1,
            StageView::PostHook(i) => self.post.len() - i,
            StageView::Done(_) => 0,
        }
    }

    /// The same operation at another stage.
    pub open spec fn at(self, stage: StageView) -> LifecycleView {
        LifecycleView { stage, ..self }
    }
}

/// The state in which an operation with these hooks begins.
pub open spec fn begun(pre: Seq<Seq<char>>, post: Seq<Seq<char>>) -> LifecycleView {
    LifecycleView {
        pre,
        post,
        stage: if pre.len() > 0 {
            StageView::PreHook(0)
        } else {
            StageView::Command
        },
    }
}

/// A report that the caller makes to an operation.
pub enum ReportView {
    HookExited(ProcessOutcomeView),
    CommandFinished(Option<Seq<char>>),
}

/// The state after one report.
pub open spec fn after_report(state: LifecycleView, report: ReportView) -> LifecycleView {
    match report {
        ReportView::HookExited(outcome) => state.hook_exited(outcome),
        ReportView::CommandFinished(failure) => state.command_finished(failure),
    }
}

/// The state after a run of reports.
pub open spec fn after_reports(state: LifecycleView, reports: Seq<ReportView>) -> LifecycleView
    decreases reports.len(),
{
    if reports.len() == 0 {
        state
    } else {
        after_report(after_reports(state, reports.drop_last()), reports.last())
    }
}

enum Stage {
    PreHook(usize),
    Command,
    PostHook(usize),
    Done(Outcome),
}

/// An operation under way.
pub struct Lifecycle {
    pre: Vec<String>,
    post: Vec<String>,
    stage: Stage,
}

/// What the caller is to do next.
pub enum Action<'a> {
    /// Run this hook, then report its outcome with `hook_exited`.
    RunHook { phase: Phase, hook: &'a str },
    /// Carry out the command, then report its result with
    /// `command_finished`.
    RunCommand,
    /// Nothing more: the operation has ended.
    Finish(&'a Outcome),
}

impl<'a> View for Action<'a> {
    type V = ActionView;

    open spec fn view(&self) -> ActionView {
        match self {
            Action::RunHook { phase, hook } => ActionView::RunHook { phase: *phase, hook: hook@ },
            Action::RunCommand => ActionView::RunCommand,
            Action::Finish(outcome) => ActionView::Finish(outcome@),
        }
    }
}

impl View for Lifecycle {
    type V = LifecycleView;

    closed spec fn view(&self) -> LifecycleView {
        LifecycleView {
            pre: self.pre.deep_view(),
            post: self.post.deep_view(),
            stage: match self.stage {
                Stage::PreHook(i) => StageView::PreHook(i as int),
                Stage::Command => StageView::Command,
                Stage::PostHook(i) => StageView::PostHook(i as int),
                Stage::Done(outcome) => StageView::Done(outcome@),
            },
        }
    }
}

impl Lifecycle {
    #[verifier::type_invariant]
    spec fn stage_in_range(self) -> bool {
        match self.stage {
            Stage::PreHook(i) => i < self.pre.len(),
            Stage::PostHook(i) => i < self.post.len(),
            _ => true,
        }
    }

    /// Begins the operation that `context` describes, with the hooks that
    /// `config` holds for its command; with no hooks where there is no
    /// configuration.
    pub fn begin(config: &Option<HooksConfig>, context: &HookContext) -> (lifecycle: Self)
        ensures
            lifecycle@ == begun(
                hooks_to_run(*config, context@, Phase::Pre),
                hooks_to_run(*config, context@, Phase::Post),
            ),
            lifecycle@.well_formed(),
    {
        let (pre, post) = match config {
            Some(config) => {
                let hooks = get_command_hooks(config, context.command.as_str());
                (clone_texts(&hooks.pre), clone_texts(&hooks.post))
            },
            None => {
                let pre: Vec<String> = Vec::new();
                let post: Vec<String> = Vec::new();
                assert(pre.deep_view() =~= Seq::<Seq<char>>::empty());
                assert(post.deep_view() =~= Seq::<Seq<char>>::empty());
                (pre, post)
            },
        };
        let stage = if pre.len() > 0 {
            Stage::PreHook(0)
        } else {
            Stage::Command
        };
        Lifecycle { pre, post, stage }
    }

    /// What the caller is to do next.
    pub fn action(&self) -> (action: Action<'_>)
        ensures
            action@ == self@.action(),
            self@.well_formed(),
    {
        proof {
            use_type_invariant(self);
        }
        match &self.stage {
            Stage::PreHook(i) => Action::RunHook { phase: Phase::Pre, hook: self.pre[*i].as_str() },
            Stage::Command => Action::RunCommand,
            Stage::PostHook(i) => Action::RunHook {
                phase: Phase::Post,
                hook: self.post[*i].as_str(),
            },
            Stage::Done(outcome) => Action::Finish(outcome),
        }
    }

    /// Reports how the hook that was asked for ended.
    pub fn hook_exited(self, outcome: &ProcessOutcome) -> (next: Self)
        ensures
            next@ == self@.hook_exited(outcome@),
            next@.well_formed(),
    {
        proof {
            use_type_invariant(&self);
        }
        let Lifecycle { pre, post, stage } = self;
        let stage = match stage {
            Stage::PreHook(i) => match hook_result(pre[i].as_str(), Phase::Pre, outcome) {
                Err(error) => Stage::Done(Outcome::Aborted(error)),
                Ok(_) => if i + 1 < pre.len() {
                    Stage::PreHook(i + 1)
                } else {
                    Stage::Command
                },
            },
            Stage::PostHook(i) => match hook_result(post[i].as_str(), Phase::Post, outcome) {
                Err(error) => Stage::Done(Outcome::Completed { warning: Some(error) }),
                Ok(_) => if i + 1 < post.len() {
                    Stage::PostHook(i + 1)
                } else {
                    Stage::Done(Outcome::Completed { warning: None })
                },
            },
            other => other,
        };
        Lifecycle { pre, post, stage }
    }

    /// Reports how the command ended.
    pub fn command_finished(self, result: Result<String, GitError>) -> (next: Self)
        ensures
            next@ == self@.command_finished(
                match result {
                    Ok(_) => None,
                    Err(error) => Some(error.message@),
                },
            ),
            next@.well_formed(),
    {
        proof {
            use_type_invariant(&self);
        }
        let Lifecycle { pre, post, stage } = self;
        let stage = match stage {
            Stage::Command => match result {
                Err(error) => Stage::Done(Outcome::Failed(error)),
                Ok(_) => if post.len() > 0 {
                    Stage::PostHook(0)
                } else {
                    Stage::Done(Outcome::Completed { warning: None })
                },
            },
            other => other,
        };
        Lifecycle { pre, post, stage }
    }

    /// Ends the use of this operation and hands out how it ended; `None`
    /// if it has not ended yet.
    pub fn into_outcome(self) -> (outcome: Option<Outcome>)
        ensures
            match outcome {
                Some(end) => self@.stage == StageView::Done(end@),
                None => !(self@.stage is Done),
            },
    {
        match self.stage {
            Stage::Done(outcome) => Some(outcome),
            _ => None,
        }
    }
}

/// An operation comes to an end: it asks for each of its hooks at most
/// once and for its command at most once, and each report of what it asked
/// for brings it closer to its end.
pub proof fn law_operation_ends(state: LifecycleView, report: ReportView)
    requires
        state.well_formed(),
        state.is_answered_by(report),
    ensures
        after_report(state, report).well_formed(),
        0 <= after_report(state, report).steps_left() < state.steps_left(),
{
}

/// Once a pre-hook has failed, the operation has ended as aborted, and
/// whatever is reported afterwards, the command is never asked for.
pub proof fn law_failed_pre_hook_never_runs_command(
    state: LifecycleView,
    outcome: ProcessOutcomeView,
    later: Seq<ReportView>,
)
    requires
        state.stage is PreHook,
        hook_failure(state.pre[state.stage->PreHook_0], Phase::Pre, outcome) is Some,
    ensures
        after_reports(state.hook_exited(outcome), later).stage == StageView::Done(
            OutcomeView::Aborted(
                hook_failure(state.pre[state.stage->PreHook_0], Phase::Pre, outcome)->0,
            ),
        ),
        after_reports(state.hook_exited(outcome), later).action() != ActionView::RunCommand,
    decreases later.len(),
{
    if later.len() > 0 {
        law_failed_pre_hook_never_runs_command(state, outcome, later.drop_last());
    }
}

/// The command is asked for only when the operation begins without
/// pre-hooks, or when its last pre-hook has just succeeded.
pub proof fn law_command_follows_pre_hooks(state: LifecycleView, report: ReportView)
    requires
        state.well_formed(),
        !(state.stage is Command),
        after_report(state, report).action() == ActionView::RunCommand,
    ensures
        state.stage == StageView::PreHook(state.pre.len() - 1),
        report matches ReportView::HookExited(outcome) && hook_failure(
            state.pre.last(),
            Phase::Pre,
            outcome,
        ) is None,
        begun(state.pre, state.post).action() != ActionView::RunCommand,
{
}

/// A post-hook's failure leaves the operation a success: it ends as
/// completed, as it does when every post-hook succeeds, and differs only
/// in the warning that it carries.
pub proof fn law_post_hook_failure_keeps_success(
    state: LifecycleView,
    outcome: ProcessOutcomeView,
    later: Seq<ReportView>,
)
    requires
        state.stage is PostHook,
        hook_failure(state.post[state.stage->PostHook_0], Phase::Post, outcome) is Some,
    ensures
        after_reports(state.hook_exited(outcome), later).stage == StageView::Done(
            OutcomeView::Completed {
                warning: hook_failure(state.post[state.stage->PostHook_0], Phase::Post, outcome),
            },
        ),
        (OutcomeView::Completed {
            warning: hook_failure(state.post[state.stage->PostHook_0], Phase::Post, outcome),
        }).succeeded(),
        (OutcomeView::Completed {
            warning: hook_failure(state.post[state.stage->PostHook_0], Phase::Post, outcome),
        }).failure() == (OutcomeView::Completed { warning: None }).failure(),
    decreases later.len(),
{
    if later.len() > 0 {
        law_post_hook_failure_keeps_success(state, outcome, later.drop_last());
    }
}

} // verus!
