//! Properties of the lifecycle that hold for every input, proved over the
//! plans and decisions the library computes.
use vstd::prelude::*;
use crate::config::Config;
use crate::error::ErrorView;
use crate::identity::{
    first_slash_from, identity_below, join_path, joined, leaf_from, resolved_target, session_name_of, target_split,
    worktree_path_of,
};
use crate::lifecycle::{
    branch_dirs_upto, prune_dir_steps, prune_steps_of,
    activate_phase_of, create_plan_of, deactivate_plan_of, hook_steps_of,
    leave_session_step, removal_steps_of, session_steps_of, teardown_plan_of,
};
use crate::plan::{abort_step, touches_disk, ActionView, PolicyView, StepView};
use crate::text::{components_of, components_scan, has_visible_text, is_absolute, is_component, lines_of};
use crate::vcs::{has_tracked_change, is_dirty};
use crate::workspace::{found_once, valid_nodes, worktrees_among, DirNode};

verus! {

/// Creating a worktree adds it at its canonical path `<base>/<project>/<branch>`,
/// on a new branch or, failing that, on the existing branch of that name.
pub proof fn create_adds_at_canonical_path(
    base: Seq<char>,
    root: Seq<char>,
    project: Seq<char>,
    branch: Seq<char>,
    config: Config,
    in_session: bool,
)
    ensures
        create_plan_of(base, root, project, branch, false, config, in_session) matches Ok(steps)
            && steps.len() > 0 && steps[0] == (StepView {
            action: ActionView::AddWorktree(worktree_path_of(base, project, branch), branch),
            on_failure: PolicyView::Then(
                seq![
                    ActionView::AddWorktreeForBranch(
                        worktree_path_of(base, project, branch),
                        branch,
                    ),
                ],
            ),
        }),
{
}

/// A worktree whose path no longer exists cannot be torn down again: the
/// plan is refused with `NoSuchWorktree`, so nothing of it runs.
pub proof fn teardown_of_removed_worktree_is_refused(
    base: Seq<char>,
    project: Seq<char>,
    branch: Seq<char>,
    repo: Seq<char>,
    config: Config,
    force: bool,
    in_session: bool,
)
    ensures
        teardown_plan_of(base, project, branch, false, repo, config, force, in_session) == Err::<
            Seq<StepView>,
            ErrorView,
        >(ErrorView::NoSuchWorktree(worktree_path_of(base, project, branch))),
{
}

/// Teardown removes the worktree, then deletes each now-empty ancestor
/// directory from the worktree's parent up to the base root, deepest first (a
/// failure there is passed over), and deletes no directory tree but the
/// worktree's own.
pub proof fn teardown_removes_then_prunes_empty_ancestors(
    base: Seq<char>,
    project: Seq<char>,
    branch: Seq<char>,
    repo: Seq<char>,
    config: Config,
    force: bool,
    in_session: bool,
)
    ensures
        teardown_plan_of(base, project, branch, true, repo, config, force, in_session) matches Ok(
            steps,
        ) && (exists|i: int|
            0 <= i && i + 1 + prune_steps_of(base, project, branch).len() <= steps.len() && (
            #[trigger] steps[i]).action == ActionView::RemoveWorktree(
                worktree_path_of(base, project, branch),
                repo,
            ) && steps.subrange(i + 1, i + 1 + prune_steps_of(base, project, branch).len())
                == prune_steps_of(base, project, branch)) && (forall|k: int|
            0 <= k < steps.len() ==> !((#[trigger] steps[k]).action is DeleteTree)),
{
    let path = worktree_path_of(base, project, branch);
    let hooks = hook_steps_of(config.pre_teardown@, path);
    let removal = removal_steps_of(base, project, path, repo, force);
    let prune = prune_steps_of(base, project, branch);
    let tail = if in_session {
        seq![leave_session_step(), abort_step(ActionView::KillSession(session_name_of(project, branch)))]
    } else {
        seq![]
    };
    let steps = hooks + removal + prune + tail;
    assert(teardown_plan_of(base, project, branch, true, repo, config, force, in_session) == Ok::<
        Seq<StepView>,
        ErrorView,
    >(steps));
    let i = hooks.len() + removal.len() - 1;
    assert(steps[i] == removal[removal.len() - 1]);
    assert(steps.subrange(i + 1, i + 1 + prune.len()) =~= prune);
    assert forall|k: int| 0 <= k < steps.len() implies !((#[trigger] steps[k]).action is DeleteTree) by {
        if k < hooks.len() {
            assert(steps[k] == hooks[k]);
        } else if k < hooks.len() + removal.len() {
            assert(steps[k] == removal[k - hooks.len()]);
        } else if k < hooks.len() + removal.len() + prune.len() {
            let m = k - hooks.len() - removal.len();
            assert(steps[k] == prune[m]);
            let dirs = branch_dirs_upto(branch, branch.len());
            if m < dirs.len() {
                assert(prune[m] == prune_dir_steps(joined(base, project), dirs)[m]);
            }
        } else {
            assert(steps[k] == tail[k - hooks.len() - removal.len() - prune.len()]);
        }
    }
}

/// A status listing that names a modified tracked file (a line that does
/// not begin with `??`) makes the worktree dirty.
pub proof fn modified_tracked_file_makes_dirty(status: Seq<char>, untracked: Seq<char>, line: int)
    requires
        0 <= line < lines_of(status).len(),
        !"??"@.is_prefix_of(lines_of(status)[line]),
    ensures
        is_dirty(status, untracked),
{
    assert(has_tracked_change(status));
}

/// A worktree whose only extra files are ignored build artifacts is clean:
/// the status lists nothing (ignored files are not listed) and the listing of
/// untracked files that are not ignored is blank.
pub proof fn ignored_artifacts_leave_clean(status: Seq<char>, untracked: Seq<char>)
    requires
        lines_of(status).len() == 0,
        !has_visible_text(untracked),
    ensures
        !is_dirty(status, untracked),
{
}

/// Without force, teardown checks that the worktree is clean before anything
/// touches the disk: only the hooks come before that check, and a dirty
/// worktree stops the operation there.
pub proof fn unforced_teardown_checks_cleanliness_first(
    base: Seq<char>,
    project: Seq<char>,
    branch: Seq<char>,
    repo: Seq<char>,
    config: Config,
    in_session: bool,
)
    ensures
        teardown_plan_of(base, project, branch, true, repo, config, false, in_session) matches Ok(
            steps,
        ) && steps.len() > config.pre_teardown@.len() && steps[config.pre_teardown@.len() as int]
            == abort_step(ActionView::RequireClean(worktree_path_of(base, project, branch), repo))
            && (forall|k: int|
            0 <= k < config.pre_teardown@.len() ==> steps[k].action is RunHook && !touches_disk(
                (#[trigger] steps[k]).action,
            )),
{
    let path = worktree_path_of(base, project, branch);
    let hooks = hook_steps_of(config.pre_teardown@, path);
    let removal = removal_steps_of(base, project, path, repo, false);
    let tail = if in_session {
        seq![leave_session_step(), abort_step(ActionView::KillSession(session_name_of(project, branch)))]
    } else {
        seq![]
    };
    let steps = hooks + removal + prune_steps_of(base, project, branch) + tail;
    assert(teardown_plan_of(base, project, branch, true, repo, config, false, in_session) == Ok::<
        Seq<StepView>,
        ErrorView,
    >(steps));
    let i = hooks.len() as int;
    assert(removal[0] == abort_step(ActionView::RequireClean(path, repo)));
    assert(steps[i] == removal[0]);
    assert forall|k: int| 0 <= k < i implies !touches_disk((#[trigger] steps[k]).action) by {
        assert(steps[k] == hooks[k]);
    }
}

/// The first `/` of `p + "/" + b`, where `p` holds none, is the one after `p`.
proof fn first_slash_after_project(p: Seq<char>, b: Seq<char>, i: int)
    requires
        0 <= i <= p.len(),
        forall|k: int| 0 <= k < p.len() ==> p[k] != '/',
    ensures
        first_slash_from(joined(p, b), i) == p.len(),
    decreases p.len() - i,
{
    let t = joined(p, b);
    if i < p.len() {
        assert(t[i] == p[i]);
        first_slash_after_project(p, b, i + 1);
    } else {
        assert(t[i] == '/');
    }
}

/// A target `<project>/<branch>` whose worktree exists under that project
/// resolves across projects to that project and branch, when the project
/// name holds no `/` and the branch is not empty; the branch may hold `/`.
pub proof fn cross_project_target_resolves(
    project: Seq<char>,
    branch: Seq<char>,
    current_project: Option<Seq<char>>,
)
    requires
        forall|k: int| 0 <= k < project.len() ==> project[k] != '/',
        branch.len() > 0,
    ensures
        resolved_target(joined(project, branch), true, current_project) == Some((project, branch)),
{
    let t = joined(project, branch);
    first_slash_after_project(project, branch, 0);
    assert(t.subrange(0, project.len() as int) =~= project);
    assert(t.subrange(project.len() as int + 1, t.len() as int) =~= branch);
    assert(target_split(t) == Some((project, branch)));
}

/// A target whose cross-project worktree does not exist is a branch of the
/// current project, as written in full.
pub proof fn same_project_target_resolves(target: Seq<char>, current_project: Seq<char>)
    ensures
        resolved_target(target, false, Some(current_project)) == Some((current_project, target)),
{
}

/// Activating a worktree that does not exist is refused with
/// `NoSuchWorktree` whether or not a session of that name exists: no step,
/// and so no session operation, is planned.
pub proof fn activate_missing_worktree_is_refused(
    base: Seq<char>,
    project: Seq<char>,
    branch: Seq<char>,
    session_exists: bool,
)
    ensures
        activate_phase_of(base, project, branch, false, session_exists) == Err::<
            Option<Seq<StepView>>,
            ErrorView,
        >(ErrorView::NoSuchWorktree(worktree_path_of(base, project, branch))),
{
}

/// The session of a worktree lives from create to teardown under one name,
/// `<project>/<branch>`: create brings it up and, inside the multiplexer,
/// focuses it; deactivate only moves the client away; activate of a live
/// session attaches to it without creating another; and teardown moves the
/// client away and then kills it.
pub proof fn session_lifecycle(
    base: Seq<char>,
    root: Seq<char>,
    project: Seq<char>,
    branch: Seq<char>,
    repo: Seq<char>,
    config: Config,
    teardown_config: Config,
    cwd: Seq<char>,
    markers: Seq<bool>,
)
    ensures
        ({
            let name = session_name_of(project, branch);
            let path = worktree_path_of(base, project, branch);
            &&& create_plan_of(base, root, project, branch, false, config, true) matches Ok(steps)
                && (exists|i: int|
                0 <= i < steps.len() && (#[trigger] steps[i]) == abort_step(
                    ActionView::NewSession(name, path),
                )) && steps.last() == abort_step(ActionView::AttachOrSwitch(name))
            &&& deactivate_plan_of(true, base, cwd, markers) matches Ok((id, steps)) ==> steps == seq![
                leave_session_step(),
            ] && !(leave_session_step().action is KillSession)
            &&& activate_phase_of(base, project, branch, true, true) == Ok::<
                Option<Seq<StepView>>,
                ErrorView,
            >(Some(seq![abort_step(ActionView::AttachOrSwitch(name))]))
            &&& teardown_plan_of(base, project, branch, true, repo, teardown_config, false, true) matches Ok(
                steps,
            ) && steps.len() >= 2 && steps[steps.len() - 2] == leave_session_step()
                && steps[steps.len() - 1] == abort_step(ActionView::KillSession(name))
        }),
{
    let name = session_name_of(project, branch);
    let path = worktree_path_of(base, project, branch);
    let hooks = hook_steps_of(config.post_create@, path);
    let session = session_steps_of(name, path, config.post_create@, config.tmux.windows@);
    let first = seq![
        StepView {
            action: ActionView::AddWorktree(path, branch),
            on_failure: PolicyView::Then(seq![ActionView::AddWorktreeForBranch(path, branch)]),
        },
    ];
    let copy = if config.copy_files@.len() > 0 {
        seq![
            abort_step(
                ActionView::CopyFiles(
                    root,
                    path,
                    crate::plan::texts(config.copy_files@),
                    crate::plan::texts(config.exclude@),
                ),
            ),
        ]
    } else {
        seq![]
    };
    let steps = first + copy + session + seq![abort_step(ActionView::AttachOrSwitch(name))];
    assert(create_plan_of(base, root, project, branch, false, config, true) == Ok::<
        Seq<StepView>,
        ErrorView,
    >(steps));
    let i: int = first.len() + copy.len() + hooks.len() as int;
    assert(session[hooks.len() as int] == abort_step(ActionView::NewSession(name, path)));
    assert(steps[i] == session[hooks.len() as int]);
}

/// Scanning the last piece of a path, which holds no `/`, from `j` on.
proof fn scan_last_piece(s: Seq<char>, start: int, j: int)
    requires
        0 <= start <= j <= s.len(),
        forall|k: int| start <= k < s.len() ==> s[k] != '/',
    ensures
        components_scan(s, start, j) == if is_component(s.subrange(start, s.len() as int)) {
            seq![s.subrange(start, s.len() as int)]
        } else {
            seq![]
        },
    decreases s.len() - j,
{
    if j < s.len() {
        scan_last_piece(s, start, j + 1);
    }
}

/// Scanning the part of `a/c` that is `c` is scanning `c`.
proof fn scan_shifted(a: Seq<char>, c: Seq<char>, start: int, i: int)
    requires
        0 <= start <= i <= c.len(),
    ensures
        components_scan(joined(a, c), a.len() + 1 + start, a.len() + 1 + i) == components_scan(
            c,
            start,
            i,
        ),
    decreases c.len() - i,
{
    let s = joined(a, c);
    let off = a.len() + 1;
    assert(s.len() == off + c.len());
    assert(s.subrange(off + start, off + i) =~= c.subrange(start, i));
    assert(s.subrange(off + start, s.len() as int) =~= c.subrange(start, c.len() as int));
    if i < c.len() {
        assert(s[off + i] == c[i]);
        scan_shifted(a, c, i + 1, i + 1);
        scan_shifted(a, c, start, i + 1);
    }
}

/// The components of `a/c` are those of `a` followed by those of `c`;
/// shown for a scan of `a/c` from within `a`.
proof fn scan_joined(a: Seq<char>, c: Seq<char>, start: int, i: int)
    requires
        0 <= start <= i <= a.len(),
    ensures
        components_scan(joined(a, c), start, i) == components_scan(a, start, i) + components_of(c),
    decreases a.len() - i,
{
    let s = joined(a, c);
    if i < a.len() {
        assert(s[i] == a[i]);
        assert(s.subrange(start, i) =~= a.subrange(start, i));
        scan_joined(a, c, i + 1, i + 1);
        scan_joined(a, c, start, i + 1);
        if a[i] == '/' {
            assert(components_scan(s, start, i) =~= components_scan(a, start, i) + components_of(c));
        }
    } else {
        assert(s[i] == '/');
        assert(s.subrange(start, i) =~= a.subrange(start, a.len() as int));
        scan_shifted(a, c, 0, 0);
        assert(components_scan(s, start, i) =~= components_scan(a, start, i) + components_of(c));
    }
}

/// The branch of a worktree ends at the first marked directory below the
/// project: here the last component.
proof fn leaf_is_last(markers: Seq<bool>, offset: int, len: int, j: int)
    requires
        1 <= j < len,
        offset + len - 1 < markers.len(),
        markers[offset + len - 1],
        forall|k: int| offset + 1 <= k < offset + len - 1 ==> !markers[k],
        offset >= 0,
    ensures
        leaf_from(markers, offset, len, j) == len - 1,
    decreases len - j,
{
    if j < len - 1 {
        leaf_is_last(markers, offset, len, j + 1);
    }
}

/// From inside the worktree of (`project`, `branch`), its identity is found
/// again: a worktree made by create is the one that deactivate and teardown
/// act on, also when the branch holds `/`. This holds when the base root is
/// not empty, the project is a single path component, the branch is written
/// in normal form (its components joined by single `/`), and, below the
/// project, only the worktree's own directory holds a marker.
pub proof fn worktree_path_identifies_worktree(
    base: Seq<char>,
    project: Seq<char>,
    branch: Seq<char>,
    markers: Seq<bool>,
)
    requires
        base.len() > 0,
        is_component(project),
        forall|k: int| 0 <= k < project.len() ==> project[k] != '/',
        components_of(branch).len() > 0,
        join_path(components_of(branch)) == branch,
        components_of(base).len() + components_of(branch).len() < markers.len(),
        markers[components_of(base).len() + components_of(branch).len() as int],
        forall|k: int|
            components_of(base).len() + 1 <= k < components_of(base).len() + components_of(
                branch,
            ).len() ==> !markers[k],
    ensures
        identity_below(base, worktree_path_of(base, project, branch), markers) == Some(
            (project, branch),
        ),
{
    let mid = joined(base, project);
    let path = joined(mid, branch);
    scan_joined(base, project, 0, 0);
    scan_joined(mid, branch, 0, 0);
    scan_last_piece(project, 0, 0);
    assert(project.subrange(0, project.len() as int) =~= project);
    let b = components_of(base);
    let bc = components_of(branch);
    let cs = components_of(path);
    assert(cs == b + seq![project] + bc);
    assert(b.is_prefix_of(cs)) by {
        assert(cs.subrange(0, b.len() as int) =~= b);
    }
    assert(is_absolute(path) == is_absolute(base)) by {
        assert(path[0] == base[0]);
    }
    let rel = cs.skip(b.len() as int);
    assert(rel =~= seq![project] + bc);
    leaf_is_last(markers, b.len() as int, rel.len() as int, 1);
    assert(rel.subrange(1, bc.len() as int + 1) =~= bc);
}

/// A worktree made under a project directory is listed exactly once by the
/// directory search, under its full relative path (a branch holding `/`
/// included), when the directories read are valid.
pub proof fn listed_worktree_appears_once(project: DirNode, branch: Seq<char>)
    requires
        valid_nodes(project.children@, project.children@.len()),
        worktrees_among(project.children@, seq![], project.children@.len()).contains(branch),
    ensures
        ({
            let listed = worktrees_among(project.children@, seq![], project.children@.len());
            exists|i: int|
                0 <= i < listed.len() && #[trigger] listed[i] == branch && forall|j: int|
                    0 <= j < listed.len() && #[trigger] listed[j] == branch ==> j == i
        }),
{
    found_once(project.children@, seq![], project.children@.len());
}

} // verus!
