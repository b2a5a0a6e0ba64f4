//! The lifecycle orchestrator: for each of create, activate, deactivate and
//! teardown, the decisions taken on what was queried (paths that exist, the
//! session table, the repository) and the plan of steps handed to the
//! collaborators. Hooks and window setup only warn when they fail; VCS,
//! filesystem and session mutations stop the operation.
use vstd::prelude::*;
use crate::config::{Config, WindowConfig};
use crate::error::{ErrorView, WorkflowError};
use crate::identity::{
    file_name_of, identity_below, joined, project_dir, repo_name, resolve_from_cwd,
    session_name, session_name_of, worktree_path, worktree_path_of, Identity,
};
use crate::plan::{
    abort_step, ignore_step, texts, steps_view, warn_step, Action, ActionView, OnFailure, PolicyView,
    Step, StepView,
};
use crate::session::{setup_windows, window_steps_of};
use crate::text::{copy_strings, opt_view};
use crate::vcs::{listing_of, parse_worktree_list};

verus! {

/// The hooks, each run in `dir` in order, each failure only a warning.
pub open spec fn hook_steps_of(hooks: Seq<String>, dir: Seq<char>) -> Seq<StepView> {
    Seq::new(hooks.len(), |i: int| warn_step(ActionView::RunHook(hooks[i]@, dir)))
}

/// Bringing up the session `name` for the worktree `dir`: the hooks, then the
/// session (which must succeed), then its windows.
pub open spec fn session_steps_of(
    name: Seq<char>,
    dir: Seq<char>,
    hooks: Seq<String>,
    windows: Seq<WindowConfig>,
) -> Seq<StepView> {
    hook_steps_of(hooks, dir) + seq![abort_step(ActionView::NewSession(name, dir))]
        + window_steps_of(name, dir, windows)
}

/// Appends `step`.
fn push_step(out: &mut Vec<Step>, action: Action, on_failure: OnFailure)
    ensures
        steps_view(final(out)@) == steps_view(old(out)@).push(
            StepView { action: action@, on_failure: on_failure@ },
        ),
{
    let ghost before = out@;
    out.push(Step { action, on_failure });
    assert(steps_view(out@) =~= steps_view(before).push(
        StepView { action: action@, on_failure: on_failure@ },
    ));
}

/// Appends the hooks to run in `dir`.
fn push_hooks(out: &mut Vec<Step>, hooks: &Vec<String>, dir: &String)
    ensures
        steps_view(final(out)@) == steps_view(old(out)@) + hook_steps_of(hooks@, dir@),
{
    let ghost before = steps_view(out@);
    let mut i: usize = 0;
    while i < hooks.len()
        invariant
            i <= hooks.len(),
            steps_view(out@) == before + hook_steps_of(hooks@.take(i as int), dir@),
        decreases hooks.len() - i,
    {
        push_step(
            out,
            Action::RunHook { command: hooks[i].clone(), dir: dir.clone() },
            OnFailure::Warn,
        );
        assert(hook_steps_of(hooks@.take(i + 1), dir@) =~= hook_steps_of(hooks@.take(i as int), dir@).push(
            warn_step(ActionView::RunHook(hooks@[i as int]@, dir@)),
        ));
        i = i + 1;
    }
    assert(hooks@.take(hooks.len() as int) =~= hooks@);
}

/// Appends the steps that bring up the session `name` for the worktree `dir`.
fn push_session_steps(
    out: &mut Vec<Step>,
    name: &String,
    dir: &String,
    hooks: &Vec<String>,
    windows: &Vec<WindowConfig>,
)
    ensures
        steps_view(final(out)@) == steps_view(old(out)@) + session_steps_of(
            name@,
            dir@,
            hooks@,
            windows@,
        ),
{
    let ghost before = steps_view(out@);
    push_hooks(out, hooks, dir);
    push_step(out, Action::NewSession { name: name.clone(), dir: dir.clone() }, OnFailure::Abort);
    let ghost mid = steps_view(out@);
    let mut windows_steps = setup_windows(name.as_str(), dir.as_str(), windows);
    let ghost ws = steps_view(windows_steps@);
    out.append(&mut windows_steps);
    assert(steps_view(out@) =~= mid + ws);
    assert(steps_view(out@) =~= before + session_steps_of(name@, dir@, hooks@, windows@));
}

/// The steps of a plan that was not refused.
pub open spec fn ok_steps(r: Result<Seq<StepView>, ErrorView>) -> Seq<StepView> {
    match r {
        Ok(s) => s,
        Err(_) => seq![],
    }
}

/// An identity as characters.
pub open spec fn identity_view(id: Identity) -> (Seq<char>, Seq<char>) {
    (id.project@, id.branch@)
}

/// What `create_identity` decides: the project is the repository root's last
/// component (`NoProject` without one), and the branch name must be valid.
pub open spec fn create_identity_of(root: Seq<char>, branch: Seq<char>, branch_valid: bool) -> Result<
    (Seq<char>, Seq<char>),
    ErrorView,
> {
    match file_name_of(root) {
        None => Err(ErrorView::NoProject),
        Some(p) => if branch_valid {
            Ok((p, branch))
        } else {
            Err(ErrorView::InvalidBranchName(branch))
        },
    }
}

/// The identity of a worktree to create for `branch` in the repository at
/// `repo_root`; `branch_valid` is the VCS's verdict on the branch name.
pub fn create_identity(repo_root: &str, branch: &str, branch_valid: bool) -> (r: Result<
    Identity,
    WorkflowError,
>)
    ensures
        match r {
            Ok(id) => create_identity_of(repo_root@, branch@, branch_valid) == Ok::<
                (Seq<char>, Seq<char>),
                ErrorView,
            >(identity_view(id)),
            Err(e) => create_identity_of(repo_root@, branch@, branch_valid) == Err::<
                (Seq<char>, Seq<char>),
                ErrorView,
            >(e@),
        },
{
    match repo_name(repo_root) {
        None => Err(WorkflowError::NoProject),
        Some(project) => if branch_valid {
            Ok(Identity { project, branch: String::from_str(branch) })
        } else {
            Err(WorkflowError::InvalidBranchName(String::from_str(branch)))
        },
    }
}

/// The plan of `create` for the identity (`project`, `branch`) under `base`,
/// with the repository at `root`. An existing path is refused. Otherwise: add
/// the worktree on a new branch (on failure, for the existing branch), copy
/// the configured files if there are any, bring up the session, and, inside
/// the multiplexer, focus it.
pub open spec fn create_plan_of(
    base: Seq<char>,
    root: Seq<char>,
    project: Seq<char>,
    branch: Seq<char>,
    path_exists: bool,
    config: Config,
    in_session: bool,
) -> Result<Seq<StepView>, ErrorView> {
    let path = worktree_path_of(base, project, branch);
    let name = session_name_of(project, branch);
    if path_exists {
        Err(ErrorView::AlreadyExists(path))
    } else {
        Ok(
            seq![
                StepView {
                    action: ActionView::AddWorktree(path, branch),
                    on_failure: PolicyView::Then(
                        seq![ActionView::AddWorktreeForBranch(path, branch)],
                    ),
                },
            ] + (if config.copy_files@.len() > 0 {
                seq![
                    abort_step(
                        ActionView::CopyFiles(
                            root,
                            path,
                            texts(config.copy_files@),
                            texts(config.exclude@),
                        ),
                    ),
                ]
            } else {
                seq![]
            }) + session_steps_of(name, path, config.post_create@, config.tmux.windows@) + (
            if in_session {
                seq![abort_step(ActionView::AttachOrSwitch(name))]
            } else {
                seq![]
            }),
        )
    }
}

/// Plans `create` for `id` (see `create_plan_of`). `path_exists` tells
/// whether the worktree path already exists and `in_session` whether this
/// runs inside the multiplexer.
pub fn create_plan(
    base: &str,
    repo_root: &str,
    id: &Identity,
    path_exists: bool,
    config: &Config,
    in_session: bool,
) -> (r: Result<Vec<Step>, WorkflowError>)
    ensures
        match r {
            Ok(steps) => create_plan_of(
                base@,
                repo_root@,
                id.project@,
                id.branch@,
                path_exists,
                *config,
                in_session,
            ) == Ok::<Seq<StepView>, ErrorView>(steps_view(steps@)),
            Err(e) => create_plan_of(
                base@,
                repo_root@,
                id.project@,
                id.branch@,
                path_exists,
                *config,
                in_session,
            ) == Err::<Seq<StepView>, ErrorView>(e@),
        },
{
    let path = worktree_path(base, id);
    if path_exists {
        return Err(WorkflowError::AlreadyExists(path));
    }
    let name = session_name(id);
    let mut out: Vec<Step> = Vec::new();
    let mut fallback: Vec<Action> = Vec::new();
    fallback.push(Action::AddWorktreeForBranch { path: path.clone(), branch: id.branch.clone() });
    assert(fallback@.map_values(|a: Action| a@) =~= seq![
        ActionView::AddWorktreeForBranch(path@, id.branch@),
    ]);
    push_step(
        &mut out,
        Action::AddWorktree { path: path.clone(), branch: id.branch.clone() },
        OnFailure::Then(fallback),
    );
    let ghost head = steps_view(out@);
    if config.copy_files.len() > 0 {
        push_step(
            &mut out,
            Action::CopyFiles {
                from: String::from_str(repo_root),
                to: path.clone(),
                entries: copy_strings(&config.copy_files),
                exclude: copy_strings(&config.exclude),
            },
            OnFailure::Abort,
        );
    }
    let ghost copied = steps_view(out@);
    push_session_steps(&mut out, &name, &path, &config.post_create, &config.tmux.windows);
    let ghost started = steps_view(out@);
    if in_session {
        push_step(&mut out, Action::AttachOrSwitch { session: name.clone() }, OnFailure::Abort);
    }
    assert(steps_view(out@) =~= ok_steps(
        create_plan_of(base@, repo_root@, id.project@, id.branch@, path_exists, *config, in_session),
    ));
    Ok(out)
}

/// How `activate` goes on once the worktree is known to exist.
#[derive(Debug)]
pub enum Activation {
    /// The session exists: these steps bring the client to it.
    Attach(Vec<Step>),
    /// No session exists: load the configuration and plan with
    /// `activate_build_plan`.
    Build,
}

/// What `activate_phase` decides: a missing worktree is refused before any
/// session is touched; an existing session is attached to (`Some` steps);
/// otherwise a session must be built (`None`).
pub open spec fn activate_phase_of(
    base: Seq<char>,
    project: Seq<char>,
    branch: Seq<char>,
    path_exists: bool,
    session_exists: bool,
) -> Result<Option<Seq<StepView>>, ErrorView> {
    if !path_exists {
        Err(ErrorView::NoSuchWorktree(worktree_path_of(base, project, branch)))
    } else if session_exists {
        Ok(Some(seq![abort_step(ActionView::AttachOrSwitch(session_name_of(project, branch)))]))
    } else {
        Ok(None)
    }
}

/// An activation as views.
pub open spec fn activation_view(a: Activation) -> Option<Seq<StepView>> {
    match a {
        Activation::Attach(steps) => Some(steps_view(steps@)),
        Activation::Build => None,
    }
}

/// The first decision of `activate` for `id`: `path_exists` tells whether its
/// worktree exists, `session_exists` whether its session does.
pub fn activate_phase(base: &str, id: &Identity, path_exists: bool, session_exists: bool) -> (r:
    Result<Activation, WorkflowError>)
    ensures
        match r {
            Ok(a) => activate_phase_of(base@, id.project@, id.branch@, path_exists, session_exists)
                == Ok::<Option<Seq<StepView>>, ErrorView>(activation_view(a)),
            Err(e) => activate_phase_of(
                base@,
                id.project@,
                id.branch@,
                path_exists,
                session_exists,
            ) == Err::<Option<Seq<StepView>>, ErrorView>(e@),
        },
{
    if !path_exists {
        return Err(WorkflowError::NoSuchWorktree(worktree_path(base, id)));
    }
    if session_exists {
        let mut out: Vec<Step> = Vec::new();
        push_step(&mut out, Action::AttachOrSwitch { session: session_name(id) }, OnFailure::Abort);
        assert(steps_view(out@) =~= seq![
            abort_step(ActionView::AttachOrSwitch(session_name_of(id.project@, id.branch@))),
        ]);
        Ok(Activation::Attach(out))
    } else {
        Ok(Activation::Build)
    }
}

/// The plan of `activate` when the session must be built: bring up the
/// session with the configured hooks and windows.
pub open spec fn activate_build_plan_of(
    base: Seq<char>,
    project: Seq<char>,
    branch: Seq<char>,
    config: Config,
) -> Seq<StepView> {
    let path = worktree_path_of(base, project, branch);
    let name = session_name_of(project, branch);
    session_steps_of(name, path, config.post_create@, config.tmux.windows@)
}

/// Plans the rest of `activate` for `id` when its session must be built,
/// with the configuration of the primary worktree.
pub fn activate_build_plan(base: &str, id: &Identity, config: &Config) -> (r: Vec<Step>)
    ensures
        steps_view(r@) == activate_build_plan_of(base@, id.project@, id.branch@, *config),
{
    let path = worktree_path(base, id);
    let name = session_name(id);
    let mut out: Vec<Step> = Vec::new();
    push_session_steps(&mut out, &name, &path, &config.post_create, &config.tmux.windows);
    assert(steps_view(out@) =~= activate_build_plan_of(base@, id.project@, id.branch@, *config));
    out
}

/// Moving the client away from a session: to the previous session, or, when
/// there is none, out of the multiplexer.
pub open spec fn leave_session_step() -> StepView {
    StepView {
        action: ActionView::SwitchToPrevious,
        on_failure: PolicyView::Then(seq![ActionView::Detach]),
    }
}

/// Appends the step that moves the client away from its session.
fn push_leave_session(out: &mut Vec<Step>)
    ensures
        steps_view(final(out)@) == steps_view(old(out)@).push(leave_session_step()),
{
    let mut detach: Vec<Action> = Vec::new();
    detach.push(Action::Detach);
    assert(detach@.map_values(|a: Action| a@) =~= seq![ActionView::Detach]);
    push_step(out, Action::SwitchToPrevious, OnFailure::Then(detach));
}

/// What `deactivate_plan` decides: outside the multiplexer `NotInSession`;
/// outside a worktree `NotInWorkspace`; otherwise the identity of the current
/// worktree and the step that moves the client away, leaving the session alive.
pub open spec fn deactivate_plan_of(
    in_session: bool,
    base: Seq<char>,
    cwd: Seq<char>,
    markers: Seq<bool>,
) -> Result<
    ((Seq<char>, Seq<char>), Seq<StepView>),
    ErrorView,
> {
    if !in_session {
        Err(ErrorView::NotInSession)
    } else {
        match identity_below(base, cwd, markers) {
            None => Err(ErrorView::NotInWorkspace),
            Some(id) => Ok((id, seq![leave_session_step()])),
        }
    }
}

/// Plans `deactivate` from the current directory `cwd` (with `markers` as for
/// `resolve_from_cwd`); `in_session` tells whether this runs inside the
/// multiplexer.
pub fn deactivate_plan(in_session: bool, base: &str, cwd: &str, markers: &Vec<bool>) -> (r: Result<
    (Identity, Vec<Step>),
    WorkflowError,
>)
    ensures
        match r {
            Ok((id, steps)) => deactivate_plan_of(in_session, base@, cwd@, markers@) == Ok::<
                ((Seq<char>, Seq<char>), Seq<StepView>),
                ErrorView,
            >((identity_view(id), steps_view(steps@))),
            Err(e) => deactivate_plan_of(in_session, base@, cwd@, markers@) == Err::<
                ((Seq<char>, Seq<char>), Seq<StepView>),
                ErrorView,
            >(e@),
        },
{
    if !in_session {
        return Err(WorkflowError::NotInSession);
    }
    let id = match resolve_from_cwd(base, cwd, markers) {
        Ok(id) => id,
        Err(e) => return Err(e),
    };
    let mut out: Vec<Step> = Vec::new();
    push_leave_session(&mut out);
    assert(steps_view(out@) =~= seq![leave_session_step()]);
    Ok((id, out))
}

/// The path of the primary worktree: the first record of the VCS's listing.
pub open spec fn primary_worktree_of(listing: Seq<char>) -> Option<Seq<char>> {
    if listing_of(listing).len() > 0 {
        Some(listing_of(listing)[0].0)
    } else {
        None
    }
}

/// The path of the primary worktree, where the configuration lives, read
/// from the VCS's porcelain worktree listing.
pub fn primary_worktree(listing: &str) -> (r: Option<String>)
    ensures
        opt_view(r) == primary_worktree_of(listing@),
{
    let entries = parse_worktree_list(listing);
    if entries.len() == 0 {
        None
    } else {
        assert(entries@.map_values(|e: crate::vcs::WorktreeEntry| e@)[0] == entries@[0]@);
        Some(entries[0].path.clone())
    }
}

/// The removal part of `teardown` for the worktree at `path`: unless forced,
/// refuse a dirty worktree; delete its ignored files; remove it through the
/// VCS, or else delete its tree and prune the VCS's records.
pub open spec fn removal_steps_of(
    base: Seq<char>,
    project: Seq<char>,
    path: Seq<char>,
    repo: Seq<char>,
    force: bool,
) -> Seq<StepView> {
    (if force {
        seq![]
    } else {
        seq![abort_step(ActionView::RequireClean(path, repo))]
    }) + seq![
        abort_step(ActionView::CleanIgnored(path, repo)),
        StepView {
            action: ActionView::RemoveWorktree(path, repo),
            on_failure: PolicyView::Then(
                seq![ActionView::DeleteTree(path), ActionView::PruneWorktrees(repo)],
            ),
        },
    ]
}

/// The directories between a project directory and the worktree of
/// `branch`, relative to the project directory, among the first `n`
/// characters of the branch, deepest first: for each `/` of the branch, the
/// branch up to it.
pub open spec fn branch_dirs_upto(branch: Seq<char>, n: nat) -> Seq<Seq<char>>
    decreases n,
{
    if n == 0 || n > branch.len() {
        seq![]
    } else if branch[n - 1] == '/' {
        seq![branch.subrange(0, n - 1)] + branch_dirs_upto(branch, (n - 1) as nat)
    } else {
        branch_dirs_upto(branch, (n - 1) as nat)
    }
}

/// Deleting, if empty, each directory of `dirs` under the project directory `pd`.
pub open spec fn prune_dir_steps(pd: Seq<char>, dirs: Seq<Seq<char>>) -> Seq<StepView> {
    Seq::new(dirs.len(), |k: int| ignore_step(ActionView::RemoveDirIfEmpty(joined(pd, dirs[k]))))
}

/// After the removal: every ancestor of the worktree, from its parent up to
/// the base root, deepest first, is deleted if it is empty; a failure there
/// is passed over.
pub open spec fn prune_steps_of(base: Seq<char>, project: Seq<char>, branch: Seq<char>) -> Seq<StepView> {
    let pd = joined(base, project);
    prune_dir_steps(pd, branch_dirs_upto(branch, branch.len())) + seq![
        ignore_step(ActionView::RemoveDirIfEmpty(pd)),
        ignore_step(ActionView::RemoveDirIfEmpty(base)),
    ]
}

/// Appends the steps that delete the empty directories left above a worktree.
fn push_prune_steps(out: &mut Vec<Step>, base: &str, id: &Identity)
    ensures
        steps_view(final(out)@) == steps_view(old(out)@) + prune_steps_of(
            base@,
            id.project@,
            id.branch@,
        ),
{
    let ghost start = steps_view(out@);
    let pd = project_dir(base, id.project.as_str());
    let b = id.branch.as_str();
    let cs = crate::text::chars_of(b);
    let ghost all = branch_dirs_upto(b@, b@.len());
    let ghost emitted: Seq<Seq<char>> = seq![];
    let mut n: usize = cs.len();
    assert(steps_view(out@) =~= start + prune_dir_steps(pd@, emitted));
    while n > 0
        invariant
            cs@ == b@,
            n <= cs.len(),
            all == branch_dirs_upto(b@, b@.len()),
            all == emitted + branch_dirs_upto(b@, n as nat),
            steps_view(out@) == start + prune_dir_steps(pd@, emitted),
        decreases n,
    {
        if cs[n - 1] == '/' {
            let sub = crate::text::substring(b, 0, n - 1);
            let dir = crate::identity::join(pd.as_str(), sub.as_str());
            push_step(out, Action::RemoveDirIfEmpty { path: dir }, OnFailure::Ignore);
            proof {
                let d = b@.subrange(0, n - 1);
                assert(prune_dir_steps(pd@, emitted.push(d)) =~= prune_dir_steps(pd@, emitted).push(
                    ignore_step(ActionView::RemoveDirIfEmpty(joined(pd@, d))),
                ));
                assert(all =~= emitted.push(d) + branch_dirs_upto(b@, (n - 1) as nat));
                emitted = emitted.push(d);
            }
        }
        n = n - 1;
    }
    assert(emitted =~= all);
    push_step(out, Action::RemoveDirIfEmpty { path: pd }, OnFailure::Ignore);
    push_step(out, Action::RemoveDirIfEmpty { path: String::from_str(base) }, OnFailure::Ignore);
    assert(steps_view(out@) =~= start + prune_steps_of(base@, id.project@, id.branch@));
}

/// The plan of `teardown` for (`project`, `branch`), with the primary
/// worktree at `repo`: a worktree that does not exist is refused before
/// anything runs. Otherwise the `pre_teardown` hooks, the removal, and,
/// inside the multiplexer, moving the client away before the session is
/// killed.
pub open spec fn teardown_plan_of(
    base: Seq<char>,
    project: Seq<char>,
    branch: Seq<char>,
    path_exists: bool,
    repo: Seq<char>,
    config: Config,
    force: bool,
    in_session: bool,
) -> Result<Seq<StepView>, ErrorView> {
    let path = worktree_path_of(base, project, branch);
    let name = session_name_of(project, branch);
    if !path_exists {
        Err(ErrorView::NoSuchWorktree(path))
    } else {
        Ok(
            hook_steps_of(config.pre_teardown@, path) + removal_steps_of(
                base,
                project,
                path,
                repo,
                force,
            ) + prune_steps_of(base, project, branch) + (if in_session {
                seq![leave_session_step(), abort_step(ActionView::KillSession(name))]
            } else {
                seq![]
            }),
        )
    }
}

/// Plans `teardown` for `id`: `path_exists` tells whether its worktree
/// exists, `repo` is the primary worktree, `force` allows removing a dirty
/// worktree, and `in_session` tells whether this runs inside the multiplexer.
pub fn teardown_plan(
    base: &str,
    id: &Identity,
    path_exists: bool,
    repo: &str,
    config: &Config,
    force: bool,
    in_session: bool,
) -> (r: Result<Vec<Step>, WorkflowError>)
    ensures
        match r {
            Ok(steps) => teardown_plan_of(
                base@,
                id.project@,
                id.branch@,
                path_exists,
                repo@,
                *config,
                force,
                in_session,
            ) == Ok::<Seq<StepView>, ErrorView>(steps_view(steps@)),
            Err(e) => teardown_plan_of(
                base@,
                id.project@,
                id.branch@,
                path_exists,
                repo@,
                *config,
                force,
                in_session,
            ) == Err::<Seq<StepView>, ErrorView>(e@),
        },
{
    let path = worktree_path(base, id);
    if !path_exists {
        return Err(WorkflowError::NoSuchWorktree(path));
    }
    let repo = String::from_str(repo);
    let mut out: Vec<Step> = Vec::new();
    push_hooks(&mut out, &config.pre_teardown, &path);
    if !force {
        push_step(
            &mut out,
            Action::RequireClean { path: path.clone(), repo: repo.clone() },
            OnFailure::Abort,
        );
    }
    push_step(
        &mut out,
        Action::CleanIgnored { path: path.clone(), repo: repo.clone() },
        OnFailure::Abort,
    );
    let mut fallback: Vec<Action> = Vec::new();
    fallback.push(Action::DeleteTree { path: path.clone() });
    fallback.push(Action::PruneWorktrees { repo: repo.clone() });
    assert(fallback@.map_values(|a: Action| a@) =~= seq![
        ActionView::DeleteTree(path@),
        ActionView::PruneWorktrees(repo@),
    ]);
    push_step(
        &mut out,
        Action::RemoveWorktree { path: path.clone(), repo: repo.clone() },
        OnFailure::Then(fallback),
    );
    push_prune_steps(&mut out, base, id);
    if in_session {
        push_leave_session(&mut out);
        push_step(&mut out, Action::KillSession { session: session_name(id) }, OnFailure::Abort);
    }
    assert(steps_view(out@) =~= ok_steps(
        teardown_plan_of(
            base@,
            id.project@,
            id.branch@,
            path_exists,
            repo@,
            *config,
            force,
            in_session,
        ),
    ));
    Ok(out)
}

} // verus!
