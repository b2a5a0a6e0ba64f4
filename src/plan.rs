//! The vocabulary of lifecycle plans: the actions handed to the collaborators
//! (VCS, multiplexer, shell, filesystem), and what a failure of each means.
use vstd::prelude::*;
use crate::error::{ErrorView, WorkflowError};
use crate::text::copy_strings;

verus! {

/// One operation on a collaborator.
#[derive(Debug, Clone)]
pub enum Action {
    /// Add a worktree at `path` on a new branch `branch`.
    AddWorktree { path: String, branch: String },
    /// Add a worktree at `path` for the existing branch `branch`.
    AddWorktreeForBranch { path: String, branch: String },
    /// Copy `entries` from the repository root `from` into the worktree `to`,
    /// leaving out what `exclude` matches.
    CopyFiles { from: String, to: String, entries: Vec<String>, exclude: Vec<String> },
    /// Run the shell command `command` in `dir`.
    RunHook { command: String, dir: String },
    /// Create a detached session `name` rooted at `dir`.
    NewSession { name: String, dir: String },
    /// Rename the current window of `session` to `name`.
    RenameWindow { session: String, name: String },
    /// Type `keys` and Enter into the window `target` (`<session>:<window>`).
    SendKeys { target: String, keys: String },
    /// Create a window `name` in `session`, rooted at `dir`.
    NewWindow { session: String, name: String, dir: String },
    /// Focus the window `target`.
    SelectWindow { target: String },
    /// Switch the current client to `session`, or attach a new client to it.
    AttachOrSwitch { session: String },
    /// Move the current client to the previously focused session.
    SwitchToPrevious,
    /// Detach the current client.
    Detach,
    /// Fail unless the worktree at `path` is clean (see `vcs::is_dirty`).
    RequireClean { path: String, repo: String },
    /// Delete the ignored files of the worktree at `path`.
    CleanIgnored { path: String, repo: String },
    /// Remove the worktree at `path` through the VCS.
    RemoveWorktree { path: String, repo: String },
    /// Delete the directory tree at `path`, if there is one.
    DeleteTree { path: String },
    /// Drop the VCS's records of worktrees that no longer exist.
    PruneWorktrees { repo: String },
    /// Delete the directory `path` if it is empty.
    RemoveDirIfEmpty { path: String },
    /// Destroy `session`.
    KillSession { session: String },
}

/// An action with its text as characters.
pub enum ActionView {
    AddWorktree(Seq<char>, Seq<char>),
    AddWorktreeForBranch(Seq<char>, Seq<char>),
    CopyFiles(Seq<char>, Seq<char>, Seq<Seq<char>>, Seq<Seq<char>>),
    RunHook(Seq<char>, Seq<char>),
    NewSession(Seq<char>, Seq<char>),
    RenameWindow(Seq<char>, Seq<char>),
    SendKeys(Seq<char>, Seq<char>),
    NewWindow(Seq<char>, Seq<char>, Seq<char>),
    SelectWindow(Seq<char>),
    AttachOrSwitch(Seq<char>),
    SwitchToPrevious,
    Detach,
    RequireClean(Seq<char>, Seq<char>),
    CleanIgnored(Seq<char>, Seq<char>),
    RemoveWorktree(Seq<char>, Seq<char>),
    DeleteTree(Seq<char>),
    PruneWorktrees(Seq<char>),
    RemoveDirIfEmpty(Seq<char>),
    KillSession(Seq<char>),
}

/// The characters of each string of a list.
pub open spec fn texts(v: Seq<String>) -> Seq<Seq<char>> {
    v.map_values(|s: String| s@)
}

impl View for Action {
    type V = ActionView;

    open spec fn view(&self) -> ActionView {
        match self {
            Action::AddWorktree { path, branch } => ActionView::AddWorktree(path@, branch@),
            Action::AddWorktreeForBranch { path, branch } => ActionView::AddWorktreeForBranch(
                path@,
                branch@,
            ),
            Action::CopyFiles { from, to, entries, exclude } => ActionView::CopyFiles(
                from@,
                to@,
                texts(entries@),
                texts(exclude@),
            ),
            Action::RunHook { command, dir } => ActionView::RunHook(command@, dir@),
            Action::NewSession { name, dir } => ActionView::NewSession(name@, dir@),
            Action::RenameWindow { session, name } => ActionView::RenameWindow(session@, name@),
            Action::SendKeys { target, keys } => ActionView::SendKeys(target@, keys@),
            Action::NewWindow { session, name, dir } => ActionView::NewWindow(
                session@,
                name@,
                dir@,
            ),
            Action::SelectWindow { target } => ActionView::SelectWindow(target@),
            Action::AttachOrSwitch { session } => ActionView::AttachOrSwitch(session@),
            Action::SwitchToPrevious => ActionView::SwitchToPrevious,
            Action::Detach => ActionView::Detach,
            Action::RequireClean { path, repo } => ActionView::RequireClean(path@, repo@),
            Action::CleanIgnored { path, repo } => ActionView::CleanIgnored(path@, repo@),
            Action::RemoveWorktree { path, repo } => ActionView::RemoveWorktree(path@, repo@),
            Action::DeleteTree { path } => ActionView::DeleteTree(path@),
            Action::PruneWorktrees { repo } => ActionView::PruneWorktrees(repo@),
            Action::RemoveDirIfEmpty { path } => ActionView::RemoveDirIfEmpty(path@),
            Action::KillSession { session } => ActionView::KillSession(session@),
        }
    }
}

impl Action {
    /// A copy of the action.
    pub fn clone_action(&self) -> (r: Action)
        ensures
            r@ == self@,
    {
        match self {
            Action::AddWorktree { path, branch } => Action::AddWorktree {
                path: path.clone(),
                branch: branch.clone(),
            },
            Action::AddWorktreeForBranch { path, branch } => Action::AddWorktreeForBranch {
                path: path.clone(),
                branch: branch.clone(),
            },
            Action::CopyFiles { from, to, entries, exclude } => Action::CopyFiles {
                from: from.clone(),
                to: to.clone(),
                entries: copy_strings(entries),
                exclude: copy_strings(exclude),
            },
            Action::RunHook { command, dir } => Action::RunHook {
                command: command.clone(),
                dir: dir.clone(),
            },
            Action::NewSession { name, dir } => Action::NewSession {
                name: name.clone(),
                dir: dir.clone(),
            },
            Action::RenameWindow { session, name } => Action::RenameWindow {
                session: session.clone(),
                name: name.clone(),
            },
            Action::SendKeys { target, keys } => Action::SendKeys {
                target: target.clone(),
                keys: keys.clone(),
            },
            Action::NewWindow { session, name, dir } => Action::NewWindow {
                session: session.clone(),
                name: name.clone(),
                dir: dir.clone(),
            },
            Action::SelectWindow { target } => Action::SelectWindow { target: target.clone() },
            Action::AttachOrSwitch { session } => Action::AttachOrSwitch {
                session: session.clone(),
            },
            Action::SwitchToPrevious => Action::SwitchToPrevious,
            Action::Detach => Action::Detach,
            Action::RequireClean { path, repo } => Action::RequireClean {
                path: path.clone(),
                repo: repo.clone(),
            },
            Action::CleanIgnored { path, repo } => Action::CleanIgnored {
                path: path.clone(),
                repo: repo.clone(),
            },
            Action::RemoveWorktree { path, repo } => Action::RemoveWorktree {
                path: path.clone(),
                repo: repo.clone(),
            },
            Action::DeleteTree { path } => Action::DeleteTree { path: path.clone() },
            Action::PruneWorktrees { repo } => Action::PruneWorktrees { repo: repo.clone() },
            Action::RemoveDirIfEmpty { path } => Action::RemoveDirIfEmpty { path: path.clone() },
            Action::KillSession { session } => Action::KillSession { session: session.clone() },
        }
    }
}

/// What to do when an action fails.
#[derive(Debug, Clone)]
pub enum OnFailure {
    /// Stop the operation with the action's error.
    Abort,
    /// Report a warning and go on.
    Warn,
    /// Report a warning and pass over this many of the following steps,
    /// which depend on this one.
    WarnAndSkip(usize),
    /// Go on silently.
    Ignore,
    /// Run these actions in order instead, stopping the operation at the
    /// first of them that fails.
    Then(Vec<Action>),
}

/// A failure policy with its actions as views.
pub enum PolicyView {
    Abort,
    Warn,
    WarnAndSkip(nat),
    Ignore,
    Then(Seq<ActionView>),
}

impl View for OnFailure {
    type V = PolicyView;

    open spec fn view(&self) -> PolicyView {
        match self {
            OnFailure::Abort => PolicyView::Abort,
            OnFailure::Warn => PolicyView::Warn,
            OnFailure::WarnAndSkip(n) => PolicyView::WarnAndSkip(*n as nat),
            OnFailure::Ignore => PolicyView::Ignore,
            OnFailure::Then(v) => PolicyView::Then(v@.map_values(|a: Action| a@)),
        }
    }
}

/// One step of a plan: an action and the policy for its failure.
#[derive(Debug, Clone)]
pub struct Step {
    pub action: Action,
    pub on_failure: OnFailure,
}

/// A step as views.
pub struct StepView {
    pub action: ActionView,
    pub on_failure: PolicyView,
}

impl View for Step {
    type V = StepView;

    open spec fn view(&self) -> StepView {
        StepView { action: self.action@, on_failure: self.on_failure@ }
    }
}

/// The steps of a plan as views.
pub open spec fn steps_view(v: Seq<Step>) -> Seq<StepView> {
    v.map_values(|s: Step| s@)
}

/// A step whose failure stops the operation.
pub open spec fn abort_step(a: ActionView) -> StepView {
    StepView { action: a, on_failure: PolicyView::Abort }
}

/// A step whose failure is reported and passed over.
pub open spec fn warn_step(a: ActionView) -> StepView {
    StepView { action: a, on_failure: PolicyView::Warn }
}

/// A step whose failure is passed over silently.
pub open spec fn ignore_step(a: ActionView) -> StepView {
    StepView { action: a, on_failure: PolicyView::Ignore }
}

/// Whether an action mutates the VCS or the filesystem.
pub open spec fn touches_disk(a: ActionView) -> bool {
    match a {
        ActionView::AddWorktree(..) | ActionView::AddWorktreeForBranch(..)
        | ActionView::CopyFiles(..) | ActionView::CleanIgnored(..)
        | ActionView::RemoveWorktree(..) | ActionView::DeleteTree(..)
        | ActionView::PruneWorktrees(..) | ActionView::RemoveDirIfEmpty(..) => true,
        _ => false,
    }
}

/// The error that ends an operation when `a` fails with the diagnostic `d`:
/// VCS and filesystem actions give their error kinds, multiplexer actions a
/// session error. A clean check whose own VCS query fails is a VCS error
/// (a worktree found dirty is an outcome of its own, see `flow_of`).
pub open spec fn failure_error_of(a: ActionView, d: Seq<char>) -> ErrorView {
    match a {
        ActionView::AddWorktree(..) | ActionView::AddWorktreeForBranch(..)
        | ActionView::CleanIgnored(..) | ActionView::RemoveWorktree(..)
        | ActionView::PruneWorktrees(..) | ActionView::RequireClean(..) => ErrorView::VcsOperationFailed(d),
        ActionView::CopyFiles(..) | ActionView::RunHook(..) | ActionView::DeleteTree(..)
        | ActionView::RemoveDirIfEmpty(..) => ErrorView::IoFailure(d),
        _ => ErrorView::SessionOperationFailed(d),
    }
}

/// The error that ends an operation when `action` fails with `diagnostic`.
pub fn failure_error(action: &Action, diagnostic: String) -> (r: WorkflowError)
    ensures
        r@ == failure_error_of(action@, diagnostic@),
{
    match action {
        Action::AddWorktree { .. } | Action::AddWorktreeForBranch { .. }
        | Action::CleanIgnored { .. } | Action::RemoveWorktree { .. }
        | Action::PruneWorktrees { .. } | Action::RequireClean { .. } => WorkflowError::VcsOperationFailed(
            diagnostic,
        ),
        Action::CopyFiles { .. } | Action::RunHook { .. } | Action::DeleteTree { .. }
        | Action::RemoveDirIfEmpty { .. } => WorkflowError::IoFailure(diagnostic),
        _ => WorkflowError::SessionOperationFailed(diagnostic),
    }
}

/// What came of carrying out an action.
#[derive(Debug)]
pub enum Outcome {
    Succeeded,
    /// The action failed; the text is the collaborator's diagnostic.
    Failed(String),
    /// A clean check found the worktree dirty.
    FoundDirty,
}

/// An outcome as views.
pub enum OutcomeView {
    Succeeded,
    Failed(Seq<char>),
    FoundDirty,
}

impl View for Outcome {
    type V = OutcomeView;

    open spec fn view(&self) -> OutcomeView {
        match self {
            Outcome::Succeeded => OutcomeView::Succeeded,
            Outcome::Failed(d) => OutcomeView::Failed(d@),
            Outcome::FoundDirty => OutcomeView::FoundDirty,
        }
    }
}

/// How a plan goes on after a step.
#[derive(Debug)]
pub enum Flow {
    /// Go on, passing over `skip` of the following steps, after reporting
    /// `warning` if there is one.
    Proceed { skip: usize, warning: Option<String> },
    /// Run these actions in order; the first of them that fails stops the
    /// operation with its `failure_error`.
    Fallback(Vec<Action>),
    /// Stop the operation with this error.
    Stop(WorkflowError),
}

/// A flow as views.
pub enum FlowView {
    Proceed(nat, Option<Seq<char>>),
    Fallback(Seq<ActionView>),
    Stop(ErrorView),
}

impl View for Flow {
    type V = FlowView;

    open spec fn view(&self) -> FlowView {
        match self {
            Flow::Proceed { skip, warning } => FlowView::Proceed(
                *skip as nat,
                crate::text::opt_view(*warning),
            ),
            Flow::Fallback(v) => FlowView::Fallback(v@.map_values(|a: Action| a@)),
            Flow::Stop(e) => FlowView::Stop(e@),
        }
    }
}

/// How a plan goes on after step `s` had outcome `o`: a success goes on; a
/// dirty worktree stops the operation with `DirtyWorktree`; a failure is
/// handled by the step's policy (stop with the action's error, warn, warn and
/// pass over the dependent steps, pass over silently, or fall back).
pub open spec fn flow_of(s: StepView, o: OutcomeView) -> FlowView {
    match o {
        OutcomeView::Succeeded => FlowView::Proceed(0, None),
        OutcomeView::FoundDirty => FlowView::Stop(ErrorView::DirtyWorktree),
        OutcomeView::Failed(d) => match s.on_failure {
            PolicyView::Abort => FlowView::Stop(failure_error_of(s.action, d)),
            PolicyView::Warn => FlowView::Proceed(0, Some(d)),
            PolicyView::WarnAndSkip(n) => FlowView::Proceed(n, Some(d)),
            PolicyView::Ignore => FlowView::Proceed(0, None),
            PolicyView::Then(alts) => FlowView::Fallback(alts),
        },
    }
}

/// A copy of a list of actions.
pub fn clone_actions(v: &Vec<Action>) -> (r: Vec<Action>)
    ensures
        r@.map_values(|a: Action| a@) == v@.map_values(|a: Action| a@),
{
    let mut r: Vec<Action> = Vec::new();
    let mut i: usize = 0;
    while i < v.len()
        invariant
            i <= v.len(),
            r@.map_values(|a: Action| a@) == v@.take(i as int).map_values(|a: Action| a@),
        decreases v.len() - i,
    {
        let ghost before = r@.map_values(|a: Action| a@);
        let c = v[i].clone_action();
        r.push(c);
        assert(v@.take(i + 1).map_values(|a: Action| a@) =~= v@.take(i as int).map_values(
            |a: Action| a@,
        ).push(v@[i as int]@));
        assert(r@.map_values(|a: Action| a@) =~= before.push(c@));
        i = i + 1;
    }
    assert(v@.take(v.len() as int) =~= v@);
    r
}

/// Decides how a plan goes on after `step` had `outcome` (see `flow_of`).
pub fn after_step(step: &Step, outcome: Outcome) -> (r: Flow)
    ensures
        r@ == flow_of(step@, outcome@),
{
    match outcome {
        Outcome::Succeeded => Flow::Proceed { skip: 0, warning: None },
        Outcome::FoundDirty => Flow::Stop(WorkflowError::DirtyWorktree),
        Outcome::Failed(d) => match &step.on_failure {
            OnFailure::Abort => Flow::Stop(failure_error(&step.action, d)),
            OnFailure::Warn => Flow::Proceed { skip: 0, warning: Some(d) },
            OnFailure::WarnAndSkip(n) => Flow::Proceed { skip: *n, warning: Some(d) },
            OnFailure::Ignore => Flow::Proceed { skip: 0, warning: None },
            OnFailure::Then(alts) => Flow::Fallback(clone_actions(alts)),
        },
    }
}

} // verus!
