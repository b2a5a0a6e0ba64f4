//! The on-disk layout under the base root: which directories are worktrees,
//! and the targets they offer for activation.
use vstd::prelude::*;
use crate::identity::{join, joined};
use crate::text::has_prefix;
use crate::vcs::lines_with_prefix;

verus! {

/// A directory under the base root as read from disk: its name, whether it
/// holds a worktree's VCS marker file (a worktree leaf), and the directories
/// in it. A reader need not list the directories inside a worktree leaf: they
/// are never looked at.
pub struct DirNode {
    pub name: String,
    pub is_worktree: bool,
    pub children: Vec<DirNode>,
}

/// The path of `name` relative to a directory whose relative path is
/// `prefix` (empty for the directory searched from).
pub open spec fn relative_of(prefix: Seq<char>, name: Seq<char>) -> Seq<char> {
    if prefix.len() == 0 {
        name
    } else {
        joined(prefix, name)
    }
}

/// The worktrees among the first `n` of `nodes`, whose parent has the
/// relative path `prefix`, as relative paths in the order read: a worktree
/// leaf is itself one; any other directory is searched in turn, so that a
/// branch holding `/` is found at its full depth.
pub open spec fn worktrees_among(nodes: Seq<DirNode>, prefix: Seq<char>, n: nat) -> Seq<Seq<char>>
    decreases nodes, n,
{
    if n == 0 || n > nodes.len() {
        seq![]
    } else {
        let node = nodes[n - 1];
        let path = relative_of(prefix, node.name@);
        worktrees_among(nodes, prefix, (n - 1) as nat) + if node.is_worktree {
            seq![path]
        } else {
            worktrees_among(node.children@, path, node.children@.len())
        }
    }
}

/// Whether a directory name can stand in a path: a single component, not
/// `..`, without `/`.
pub open spec fn valid_name(name: Seq<char>) -> bool {
    crate::text::is_component(name) && name != seq!['.', '.'] && forall|k: int|
        0 <= k < name.len() ==> name[k] != '/'
}

/// Whether the first `n` of `nodes` are as a directory listing gives them:
/// valid names, distinct among siblings, and the same below every directory
/// that is searched (not a worktree leaf).
pub open spec fn valid_nodes(nodes: Seq<DirNode>, n: nat) -> bool
    decreases nodes, n,
{
    if n == 0 || n > nodes.len() {
        n == 0
    } else {
        let node = nodes[n - 1];
        valid_nodes(nodes, (n - 1) as nat) && valid_name(node.name@) && (forall|k: int|
            0 <= k < n - 1 ==> #[trigger] nodes[k].name@ != node.name@) && (!node.is_worktree
            ==> valid_nodes(node.children@, node.children@.len()))
    }
}

/// Whether the path `e` is `p` or lies below it.
pub open spec fn lies_under(e: Seq<char>, p: Seq<char>) -> bool {
    e == p || (p + seq!['/']).is_prefix_of(e)
}

/// Every worktree found among the first `n` of `nodes` lies under one of
/// them.
proof fn found_lies_under_sibling(nodes: Seq<DirNode>, prefix: Seq<char>, n: nat, i: int)
    requires
        n <= nodes.len(),
        valid_nodes(nodes, n),
        0 <= i < worktrees_among(nodes, prefix, n).len(),
    ensures
        exists|k: int|
            0 <= k < n && lies_under(
                worktrees_among(nodes, prefix, n)[i],
                relative_of(prefix, #[trigger] nodes[k].name@),
            ),
    decreases nodes, n,
{
    let before = worktrees_among(nodes, prefix, (n - 1) as nat);
    let node = nodes[n - 1];
    let path = relative_of(prefix, node.name@);
    let e = worktrees_among(nodes, prefix, n)[i];
    if i < before.len() {
        assert(e == before[i]);
        found_lies_under_sibling(nodes, prefix, (n - 1) as nat, i);
        let k = choose|k: int|
            0 <= k < n - 1 && lies_under(before[i], relative_of(prefix, #[trigger] nodes[k].name@));
        assert(lies_under(e, relative_of(prefix, nodes[k].name@)));
    } else if node.is_worktree {
        assert(e == path);
        assert(lies_under(e, relative_of(prefix, nodes[n - 1].name@)));
    } else {
        let kids = node.children@;
        let j = i - before.len();
        assert(e == worktrees_among(kids, path, kids.len())[j]);
        found_lies_under_sibling(kids, path, kids.len(), j);
        let k = choose|k: int|
            0 <= k < kids.len() && lies_under(e, relative_of(path, #[trigger] kids[k].name@));
        lies_under_parent(e, path, kids[k].name@);
        assert(lies_under(e, relative_of(prefix, nodes[n - 1].name@)));
    }
}

/// A path under a child of `p` lies under `p`.
proof fn lies_under_parent(e: Seq<char>, p: Seq<char>, name: Seq<char>)
    requires
        p.len() > 0,
        lies_under(e, relative_of(p, name)),
    ensures
        lies_under(e, p),
{
    let q = relative_of(p, name);
    assert(q == p + seq!['/'] + name);
    assert((p + seq!['/']).is_prefix_of(e)) by {
        assert(e.subrange(0, p.len() as int + 1) =~= q.subrange(0, p.len() as int + 1));
        assert(q.subrange(0, p.len() as int + 1) =~= p + seq!['/']);
    }
}

/// The start and length of what `e` holds when it lies under `q`.
proof fn under_agrees(e: Seq<char>, q: Seq<char>)
    requires
        lies_under(e, q),
    ensures
        q.len() <= e.len(),
        e.subrange(0, q.len() as int) == q,
        e.len() > q.len() ==> e[q.len() as int] == '/',
{
    if e != q {
        assert(e.subrange(0, q.len() as int) =~= (q + seq!['/']).subrange(0, q.len() as int));
        assert(e[q.len() as int] == (q + seq!['/'])[q.len() as int]);
    } else {
        assert(e.subrange(0, q.len() as int) =~= q);
    }
}

/// Nothing lies under two distinct sibling directories.
proof fn siblings_are_disjoint(e: Seq<char>, prefix: Seq<char>, n1: Seq<char>, n2: Seq<char>)
    requires
        valid_name(n1),
        valid_name(n2),
        n1 != n2,
        lies_under(e, relative_of(prefix, n1)),
    ensures
        !lies_under(e, relative_of(prefix, n2)),
{
    let pre = if prefix.len() == 0 {
        seq![]
    } else {
        prefix + seq!['/']
    };
    let q1 = relative_of(prefix, n1);
    let q2 = relative_of(prefix, n2);
    assert(q1 =~= pre + n1);
    assert(q2 =~= pre + n2);
    under_agrees(e, q1);
    if lies_under(e, q2) {
        under_agrees(e, q2);
        if n1.len() == n2.len() {
            assert(n1 =~= q1.subrange(pre.len() as int, q1.len() as int));
            assert(n2 =~= q2.subrange(pre.len() as int, q2.len() as int));
            assert(false);
        } else if n1.len() < n2.len() {
            let t: int = pre.len() as int + n1.len() as int;
            assert(e[t] == q2[t]);
            assert(q2[t] == n2[n1.len() as int]);
            assert(false);
        } else {
            let t: int = pre.len() as int + n2.len() as int;
            assert(e[t] == q1[t]);
            assert(q1[t] == n1[n2.len() as int]);
            assert(false);
        }
    }
}

/// Among valid directories, each worktree is found once.
pub(crate) proof fn found_once(nodes: Seq<DirNode>, prefix: Seq<char>, n: nat)
    requires
        n <= nodes.len(),
        valid_nodes(nodes, n),
    ensures
        worktrees_among(nodes, prefix, n).no_duplicates(),
    decreases nodes, n,
{
    if n > 0 {
        let before = worktrees_among(nodes, prefix, (n - 1) as nat);
        let node = nodes[n - 1];
        let path = relative_of(prefix, node.name@);
        let own = if node.is_worktree {
            seq![path]
        } else {
            worktrees_among(node.children@, path, node.children@.len())
        };
        let all = worktrees_among(nodes, prefix, n);
        assert(all == before + own);
        found_once(nodes, prefix, (n - 1) as nat);
        if !node.is_worktree {
            found_once(node.children@, path, node.children@.len());
        }
        assert forall|a: int, b: int| 0 <= a < all.len() && 0 <= b < all.len() && a != b implies all[a]
            != all[b] by {
            if a < before.len() && b >= before.len() {
                not_in_both(nodes, prefix, n, a, b - before.len());
            } else if b < before.len() && a >= before.len() {
                not_in_both(nodes, prefix, n, b, a - before.len());
            } else if a >= before.len() {
                assert(all[a] == own[a - before.len()]);
                assert(all[b] == own[b - before.len()]);
            }
        }
    }
}

/// Each of the first `n` valid nodes has a valid name.
proof fn valid_names(nodes: Seq<DirNode>, n: nat, k: int)
    requires
        valid_nodes(nodes, n),
        0 <= k < n,
    ensures
        valid_name(nodes[k].name@),
    decreases n,
{
    if k < n - 1 {
        valid_names(nodes, (n - 1) as nat, k);
    }
}

/// A worktree found under the last of `n` nodes is not found under the others.
proof fn not_in_both(nodes: Seq<DirNode>, prefix: Seq<char>, n: nat, a: int, b: int)
    requires
        0 < n <= nodes.len(),
        valid_nodes(nodes, n),
        0 <= a < worktrees_among(nodes, prefix, (n - 1) as nat).len(),
        0 <= b < worktrees_among(nodes, prefix, n).len() - worktrees_among(
            nodes,
            prefix,
            (n - 1) as nat,
        ).len(),
    ensures
        worktrees_among(nodes, prefix, (n - 1) as nat)[a] != worktrees_among(nodes, prefix, n)[
            worktrees_among(nodes, prefix, (n - 1) as nat).len() + b],
{
    let before = worktrees_among(nodes, prefix, (n - 1) as nat);
    let node = nodes[n - 1];
    let path = relative_of(prefix, node.name@);
    let e = worktrees_among(nodes, prefix, n)[before.len() + b];
    found_lies_under_sibling(nodes, prefix, (n - 1) as nat, a);
    let k = choose|k: int|
        0 <= k < n - 1 && lies_under(before[a], relative_of(prefix, #[trigger] nodes[k].name@));
    if node.is_worktree {
        assert(e == path);
    } else {
        let kids = node.children@;
        assert(e == worktrees_among(kids, path, kids.len())[b]);
        found_lies_under_sibling(kids, path, kids.len(), b);
        let j = choose|j: int|
            0 <= j < kids.len() && lies_under(e, relative_of(path, #[trigger] kids[j].name@));
        lies_under_parent(e, path, kids[j].name@);
    }
    assert(lies_under(e, path));
    if before[a] == e {
        valid_names(nodes, n, k);
        assert(nodes[k].name@ != node.name@);
        siblings_are_disjoint(e, prefix, nodes[k].name@, node.name@);
    }
}

/// The relative path of `name` under `prefix`.
fn relative(prefix: &str, name: &String) -> (r: String)
    ensures
        r@ == relative_of(prefix@, name@),
{
    if prefix.is_empty() {
        name.clone()
    } else {
        join(prefix, name.as_str())
    }
}

/// Appends the worktrees among `nodes`, whose parent has the relative path `prefix`.
fn collect_worktrees(nodes: &Vec<DirNode>, prefix: &str, out: &mut Vec<String>)
    ensures
        final(out)@.map_values(|s: String| s@) == old(out)@.map_values(|s: String| s@)
            + worktrees_among(nodes@, prefix@, nodes@.len()),
    decreases nodes@,
{
    let ghost start = out@.map_values(|s: String| s@);
    let mut i: usize = 0;
    while i < nodes.len()
        invariant
            i <= nodes@.len(),
            out@.map_values(|s: String| s@) == start + worktrees_among(nodes@, prefix@, i as nat),
        decreases nodes.len() - i,
    {
        let node = &nodes[i];
        let path = relative(prefix, &node.name);
        let ghost before = out@.map_values(|s: String| s@);
        if node.is_worktree {
            let ghost pv = path@;
            out.push(path);
            assert(out@.map_values(|s: String| s@) =~= before.push(pv));
        } else {
            collect_worktrees(&node.children, path.as_str(), out);
        }
        assert(out@.map_values(|s: String| s@) =~= start + worktrees_among(
            nodes@,
            prefix@,
            (i + 1) as nat,
        ));
        i = i + 1;
    }
}

/// The worktrees under the directory `base` (a project directory), as paths
/// relative to it, such as `main` or `feature/foo`. When the directories are
/// valid (see `valid_nodes`), each worktree is listed once.
pub fn find_worktrees(base: &DirNode) -> (r: Vec<String>)
    ensures
        r@.map_values(|s: String| s@) == worktrees_among(
            base.children@,
            seq![],
            base.children@.len(),
        ),
        valid_nodes(base.children@, base.children@.len()) ==> r@.map_values(|s: String| s@).no_duplicates(),
{
    let mut out: Vec<String> = Vec::new();
    assert(out@.map_values(|s: String| s@) =~= seq![]);
    let top = "";
    proof {
        reveal_strlit("");
    }
    assert(top@ =~= seq![]);
    collect_worktrees(&base.children, top, &mut out);
    proof {
        if valid_nodes(base.children@, base.children@.len()) {
            found_once(base.children@, seq![], base.children@.len());
        }
    }
    assert(out@.map_values(|s: String| s@) =~= worktrees_among(
        base.children@,
        seq![],
        base.children@.len(),
    ));
    out
}

/// Every activation target `<project>/<branch>` among the first `n`
/// projects, in the order read.
pub open spec fn targets_among(projects: Seq<DirNode>, n: nat) -> Seq<Seq<char>>
    decreases n,
{
    if n == 0 || n > projects.len() {
        seq![]
    } else {
        let p = projects[n - 1];
        targets_among(projects, (n - 1) as nat) + worktrees_among(
            p.children@,
            seq![],
            p.children@.len(),
        ).map_values(|b: Seq<char>| joined(p.name@, b))
    }
}

/// Completion candidates for `activate`: the targets `<project>/<branch>`
/// of every worktree under the base root `root` that begin with `prefix`.
pub fn activate_candidates(root: &DirNode, prefix: &str) -> (r: Vec<String>)
    ensures
        r@.map_values(|s: String| s@) == lines_with_prefix(
            targets_among(root.children@, root.children@.len()),
            prefix@,
            targets_among(root.children@, root.children@.len()).len(),
        ),
{
    let projects = &root.children;
    let mut targets: Vec<String> = Vec::new();
    let mut i: usize = 0;
    assert(targets@.map_values(|s: String| s@) =~= seq![]);
    while i < projects.len()
        invariant
            i <= projects@.len(),
            targets@.map_values(|s: String| s@) == targets_among(projects@, i as nat),
        decreases projects.len() - i,
    {
        let p = &projects[i];
        let branches = find_worktrees(p);
        let ghost bv = branches@.map_values(|s: String| s@);
        let ghost before = targets@.map_values(|s: String| s@);
        let mut j: usize = 0;
        while j < branches.len()
            invariant
                j <= branches@.len(),
                bv == branches@.map_values(|s: String| s@),
                targets@.map_values(|s: String| s@) == before + bv.take(j as int).map_values(
                    |b: Seq<char>| joined(p.name@, b),
                ),
            decreases branches.len() - j,
        {
            let t = join(p.name.as_str(), branches[j].as_str());
            let ghost mid = targets@.map_values(|s: String| s@);
            targets.push(t);
            assert(targets@.map_values(|s: String| s@) =~= mid.push(t@));
            assert(bv.take(j + 1).map_values(|b: Seq<char>| joined(p.name@, b)) =~= bv.take(
                j as int,
            ).map_values(|b: Seq<char>| joined(p.name@, b)).push(joined(p.name@, bv[j as int])));
            j = j + 1;
        }
        assert(bv.take(branches.len() as int) =~= bv);
        i = i + 1;
    }
    let ghost all = targets@.map_values(|s: String| s@);
    let mut r: Vec<String> = Vec::new();
    let mut k: usize = 0;
    assert(r@.map_values(|s: String| s@) =~= seq![]);
    while k < targets.len()
        invariant
            k <= targets@.len(),
            all == targets@.map_values(|s: String| s@),
            r@.map_values(|s: String| s@) == lines_with_prefix(all, prefix@, k as nat),
        decreases targets.len() - k,
    {
        assert(all[k as int] == targets@[k as int]@);
        if has_prefix(targets[k].as_str(), prefix) {
            let ghost before = r@.map_values(|s: String| s@);
            r.push(targets[k].clone());
            assert(r@.map_values(|s: String| s@) =~= before.push(all[k as int]));
        }
        k = k + 1;
    }
    r
}

} // verus!
