//! Identities of worktrees: the (project, branch) pair, the canonical path and
//! the session name derived from it, and the resolution of user input or of the
//! current directory into an identity.
use vstd::prelude::*;
use crate::error::WorkflowError;
use crate::text::{chars_of, components_of, is_absolute, opt_view, split_components, substring};

verus! {

/// A worktree's identity: the project (the repository's directory name) and
/// the branch (which may itself hold `/`).
#[derive(Debug, Clone, PartialEq, Eq)]
pub struct Identity {
    pub project: String,
    pub branch: String,
}

/// `a` and `b` joined by one `/`.
pub open spec fn joined(a: Seq<char>, b: Seq<char>) -> Seq<char> {
    a + seq!['/'] + b
}

/// The directory below the home directory that holds every worktree.
pub open spec fn base_root_of(home: Seq<char>) -> Seq<char> {
    joined(home, seq!['.', 'y', 'a', 't', 'i'])
}

/// The canonical path of a worktree: `<base>/<project>/<branch>`.
pub open spec fn worktree_path_of(base: Seq<char>, project: Seq<char>, branch: Seq<char>) -> Seq<char> {
    joined(joined(base, project), branch)
}

/// The session name of an identity: `<project>/<branch>`.
pub open spec fn session_name_of(project: Seq<char>, branch: Seq<char>) -> Seq<char> {
    joined(project, branch)
}

/// `a`, a `/` and `b`.
pub fn join(a: &str, b: &str) -> (r: String)
    ensures
        r@ == joined(a@, b@),
{
    let sep = "/";
    proof {
        reveal_strlit("/");
    }
    String::from_str(a).concat(sep).concat(b)
}

/// The base root under the home directory `home`.
pub fn base_root(home: &str) -> (r: String)
    ensures
        r@ == base_root_of(home@),
{
    let name = ".yati";
    proof {
        reveal_strlit(".yati");
    }
    join(home, name)
}

/// The canonical path of the worktree of `id` under `base`.
pub fn worktree_path(base: &str, id: &Identity) -> (r: String)
    ensures
        r@ == worktree_path_of(base@, id.project@, id.branch@),
{
    let project_dir = join(base, id.project.as_str());
    join(project_dir.as_str(), id.branch.as_str())
}

/// The directory of a project under `base`.
pub fn project_dir(base: &str, project: &str) -> (r: String)
    ensures
        r@ == joined(base@, project@),
{
    join(base, project)
}

/// The name of the session of `id`.
pub fn session_name(id: &Identity) -> (r: String)
    ensures
        r@ == session_name_of(id.project@, id.branch@),
{
    join(id.project.as_str(), id.branch.as_str())
}

/// The last component of a path, unless the path has none or ends in `..`.
pub open spec fn file_name_of(path: Seq<char>) -> Option<Seq<char>> {
    let cs = components_of(path);
    if cs.len() > 0 && cs.last() != seq!['.', '.'] {
        Some(cs.last())
    } else {
        None
    }
}

/// The name of the project whose repository root is `root`: the root's last
/// path component.
pub fn repo_name(root: &str) -> (r: Option<String>)
    ensures
        r matches Some(n) ==> file_name_of(root@) == Some(n@),
        r is None ==> file_name_of(root@) is None,
{
    let cs = split_components(root);
    let ghost comps = cs@.map_values(|c: String| c@);
    let n = cs.len();
    if n == 0 {
        return None;
    }
    let last = cs[n - 1].clone();
    assert(comps.last() == last@);
    let dots = "..";
    proof {
        reveal_strlit("..");
        assert(dots@ =~= seq!['.', '.']);
    }
    if crate::text::same_text(last.as_str(), dots) {
        None
    } else {
        Some(last)
    }
}

/// The components of `cwd` below `base`, when `cwd` lies at or below `base`
/// (both absolute or both relative, and the components of `base` a prefix of
/// those of `cwd`).
pub open spec fn relative_components(base: Seq<char>, cwd: Seq<char>) -> Option<Seq<Seq<char>>> {
    let b = components_of(base);
    let c = components_of(cwd);
    if is_absolute(base) == is_absolute(cwd) && b.is_prefix_of(c) {
        Some(c.skip(b.len() as int))
    } else {
        None
    }
}

/// Path components joined by `/`.
pub open spec fn join_path(cs: Seq<Seq<char>>) -> Seq<char>
    decreases cs.len(),
{
    if cs.len() == 0 {
        seq![]
    } else if cs.len() == 1 {
        cs[0]
    } else {
        joined(join_path(cs.drop_last()), cs.last())
    }
}

/// The first index at or after `j`, and below `len`, of a relative component
/// whose directory holds a worktree marker, or `len` when there is none.
/// `markers[k]` tells whether the directory made of the first `k + 1`
/// components of the current directory holds the marker, and relative
/// component `j` is component `offset + j` of the current directory.
pub open spec fn leaf_from(markers: Seq<bool>, offset: int, len: int, j: int) -> int
    decreases len - j,
{
    if j >= len {
        len
    } else if 0 <= offset + j < markers.len() && markers[offset + j] {
        j
    } else {
        leaf_from(markers, offset, len, j + 1)
    }
}

/// The identity of the worktree that holds `cwd`: the first component of
/// `cwd` below `base` is the project, and the branch runs from the next
/// component down to the first directory that holds a worktree marker (so a
/// branch may hold `/`). `None` when `cwd` is not below a worktree.
pub open spec fn identity_below(base: Seq<char>, cwd: Seq<char>, markers: Seq<bool>) -> Option<
    (Seq<char>, Seq<char>),
> {
    match relative_components(base, cwd) {
        Some(rel) => {
            let j = leaf_from(markers, components_of(base).len() as int, rel.len() as int, 1);
            if rel.len() >= 2 && j < rel.len() {
                Some((rel[0], join_path(rel.subrange(1, j + 1))))
            } else {
                None
            }
        },
        None => None,
    }
}

/// Whether a path is absolute.
fn starts_at_root(s: &str) -> (r: bool)
    ensures
        r == is_absolute(s@),
{
    let cs = chars_of(s);
    cs.len() > 0 && cs[0] == '/'
}

/// Derives the identity from the current directory `cwd`, which must lie in a
/// worktree under the base root `base` (`<base>/<project>/<branch>/...`).
/// `markers[k]` tells whether the directory made of the first `k + 1`
/// components of `cwd` holds a worktree's marker file; the branch ends at the
/// first such directory below the project.
pub fn resolve_from_cwd(base: &str, cwd: &str, markers: &Vec<bool>) -> (r: Result<
    Identity,
    WorkflowError,
>)
    ensures
        identity_below(base@, cwd@, markers@) matches Some((p, b)) ==> (r matches Ok(id)
            && id.project@ == p && id.branch@ == b),
        identity_below(base@, cwd@, markers@) is None ==> r == Err::<Identity, WorkflowError>(
            WorkflowError::NotInWorkspace,
        ),
{
    let bc = split_components(base);
    let cc = split_components(cwd);
    let ghost bv = bc@.map_values(|c: String| c@);
    let ghost cv = cc@.map_values(|c: String| c@);
    if starts_at_root(base) != starts_at_root(cwd) || bc.len() > cc.len() {
        return Err(WorkflowError::NotInWorkspace);
    }
    let mut i: usize = 0;
    while i < bc.len()
        invariant
            bv == components_of(base@),
            cv == components_of(cwd@),
            bv == bc@.map_values(|c: String| c@),
            cv == cc@.map_values(|c: String| c@),
            bv.len() == bc.len(),
            cv.len() == cc.len(),
            bc.len() <= cc.len(),
            i <= bc.len(),
            forall|k: int| 0 <= k < i ==> bv[k] == cv[k],
        decreases bc.len() - i,
    {
        assert(bv[i as int] == bc@[i as int]@ && cv[i as int] == cc@[i as int]@);
        if !crate::text::same_text(bc[i].as_str(), cc[i].as_str()) {
            assert(cv.subrange(0, bv.len() as int)[i as int] != bv[i as int]);
            return Err(WorkflowError::NotInWorkspace);
        }
        i = i + 1;
    }
    assert(bv =~= cv.subrange(0, bv.len() as int));
    let ghost rel = cv.skip(bv.len() as int);
    let nb = bc.len();
    let n = cc.len() - nb;
    if n < 2 {
        return Err(WorkflowError::NotInWorkspace);
    }
    let mut j: usize = 1;
    while j < n && !(nb + j < markers.len() && markers[nb + j])
        invariant
            1 <= j <= n,
            n == rel.len(),
            nb == bv.len(),
            nb + n == cc.len(),
            leaf_from(markers@, nb as int, n as int, 1) == leaf_from(markers@, nb as int, n as int, j as int),
        decreases n - j,
    {
        j = j + 1;
    }
    if j == n {
        return Err(WorkflowError::NotInWorkspace);
    }
    let project = cc[nb].clone();
    assert(rel[0] == project@);
    let mut branch = cc[nb + 1].clone();
    assert(rel.subrange(1, 2) =~= seq![branch@]);
    let mut k: usize = 1;
    while k < j
        invariant
            1 <= k <= j < n,
            n == rel.len(),
            nb == bv.len(),
            rel == cv.skip(nb as int),
            cv == cc@.map_values(|c: String| c@),
            cv.len() == cc.len(),
            nb + n == cc.len(),
            branch@ == join_path(rel.subrange(1, k + 1)),
        decreases j - k,
    {
        assert(rel[k + 1] == cc@[nb + k + 1]@);
        assert(rel.subrange(1, k + 2).drop_last() =~= rel.subrange(1, k + 1));
        branch = join(branch.as_str(), cc[nb + k + 1].as_str());
        k = k + 1;
    }
    Ok(Identity { project, branch })
}

/// The index of the first `/` in `t` at or after `i`, or the length of `t`
/// when there is none.
pub open spec fn first_slash_from(t: Seq<char>, i: int) -> int
    decreases t.len() - i,
{
    if i >= t.len() || t[i] == '/' {
        i
    } else {
        first_slash_from(t, i + 1)
    }
}

/// A target read as `<project>/<branch>`: the text before the first `/` and
/// the text after it, when there is a `/` and text follows it.
pub open spec fn target_split(t: Seq<char>) -> Option<(Seq<char>, Seq<char>)> {
    let k = first_slash_from(t, 0);
    if k < t.len() && k + 1 < t.len() {
        Some((t.subrange(0, k), t.subrange(k + 1, t.len() as int)))
    } else {
        None
    }
}

/// The cross-project reading of `target`, when it has one: the identity whose
/// project is the text before the first `/` and whose branch is the rest.
/// It holds only if that worktree exists on disk (see `resolve_target`).
pub fn cross_project_candidate(target: &str) -> (r: Option<Identity>)
    ensures
        target_split(target@) matches Some((p, b)) ==> (r matches Some(id) && id.project@ == p
            && id.branch@ == b),
        target_split(target@) is None ==> r is None,
{
    let cs = chars_of(target);
    let n = cs.len();
    let mut k: usize = 0;
    while k < n && cs[k] != '/'
        invariant
            cs@ == target@,
            n == cs.len(),
            k <= n,
            first_slash_from(target@, 0) == first_slash_from(target@, k as int),
        decreases n - k,
    {
        k = k + 1;
    }
    if k < n && k + 1 < n {
        let project = substring(target, 0, k);
        let branch = substring(target, k + 1, n);
        Some(Identity { project, branch })
    } else {
        None
    }
}

/// What `resolve_target` returns: the cross-project reading when it exists on
/// disk, else the whole target as a branch of the current project.
pub open spec fn resolved_target(
    target: Seq<char>,
    candidate_exists: bool,
    current_project: Option<Seq<char>>,
) -> Option<(Seq<char>, Seq<char>)> {
    if target_split(target) is Some && candidate_exists {
        target_split(target)
    } else {
        match current_project {
            Some(p) => Some((p, target)),
            None => None,
        }
    }
}

/// Resolves a user-supplied target into an identity. `candidate_exists` tells
/// whether the worktree of `cross_project_candidate(target)` exists, and
/// `current_project` is the project of the current directory, if any.
/// Without a cross-project worktree and without a current project the target
/// cannot be placed: `NoProject`.
///
/// The reading is a heuristic with a known ambiguity: when both a worktree of
/// another project `<p>` with branch `<rest>` and a branch `<p>/<rest>` of the
/// current project exist, the cross-project worktree is chosen.
pub fn resolve_target(target: &str, candidate_exists: bool, current_project: Option<String>) -> (r:
    Result<Identity, WorkflowError>)
    ensures
        resolved_target(
target@, candidate_exists, opt_view(current_project)) matches Some((p, b)) ==> (r matches Ok(id) && id.project@ == p && id.branch@ == b),
        resolved_target(target@, candidate_exists, opt_view(current_project)) is None
            ==> r == Err::<Identity, WorkflowError>(WorkflowError::NoProject),
{
    if candidate_exists {
        if let Some(id) = cross_project_candidate(target) {
            return Ok(id);
        }
    }
    match current_project {
        Some(project) => Ok(Identity { project, branch: String::from_str(target) }),
        None => Err(WorkflowError::NoProject),
    }
}

} // verus!
