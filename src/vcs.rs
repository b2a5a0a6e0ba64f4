//! What the library reads from the VCS: its machine-readable worktree listing,
//! its status output, and its branch listing.
use vstd::prelude::*;
use crate::text::{has_prefix, has_visible_text, lines_of, split_lines, strip_prefix, visible_text};

verus! {

/// One worktree of a repository, as the VCS lists it.
#[derive(Debug, Clone)]
pub struct WorktreeEntry {
    pub path: String,
    /// The commit checked out.
    pub head: String,
    /// The branch checked out, without `refs/heads/`; empty when detached.
    pub branch: String,
}

/// A listed worktree as characters: path, head and branch.
pub type EntryView = (Seq<char>, Seq<char>, Seq<char>);

impl View for WorktreeEntry {
    type V = EntryView;

    open spec fn view(&self) -> EntryView {
        (self.path@, self.head@, self.branch@)
    }
}

/// The state of a reader of the listing between two lines: the records
/// completed so far and the fields of the record being read.
pub struct ListingState {
    pub entries: Seq<EntryView>,
    pub path: Option<Seq<char>>,
    pub head: Seq<char>,
    pub branch: Seq<char>,
}

/// A branch field with its `refs/heads/` prefix taken off.
pub open spec fn short_branch(b: Seq<char>) -> Seq<char> {
    if "refs/heads/"@.is_prefix_of(b) {
        b.skip("refs/heads/"@.len() as int)
    } else {
        b
    }
}

/// The reading of one line of the listing. A `worktree` line opens a record,
/// `HEAD` and `branch` lines fill it in, and an empty line closes an open
/// record; other lines change nothing.
pub open spec fn listing_step(st: ListingState, line: Seq<char>) -> ListingState {
    if "worktree "@.is_prefix_of(line) {
        ListingState { path: Some(line.skip("worktree "@.len() as int)), ..st }
    } else if "HEAD "@.is_prefix_of(line) {
        ListingState { head: line.skip("HEAD "@.len() as int), ..st }
    } else if "branch "@.is_prefix_of(line) {
        ListingState { branch: short_branch(line.skip("branch "@.len() as int)), ..st }
    } else if line.len() == 0 {
        match st.path {
            Some(p) => ListingState {
                entries: st.entries.push((p, st.head, st.branch)),
                path: None,
                head: seq![],
                branch: seq![],
            },
            None => st,
        }
    } else {
        st
    }
}

/// The state after the first `n` lines.
pub open spec fn listing_upto(lines: Seq<Seq<char>>, n: nat) -> ListingState
    decreases n,
{
    if n == 0 {
        ListingState { entries: seq![], path: None, head: seq![], branch: seq![] }
    } else {
        listing_step(listing_upto(lines, (n - 1) as nat), lines[n - 1])
    }
}

/// The records of a state at the end of the text: a record still open counts.
pub open spec fn listing_finish(st: ListingState) -> Seq<EntryView> {
    match st.path {
        Some(p) => st.entries.push((p, st.head, st.branch)),
        None => st.entries,
    }
}

/// The records of a whole listing, in the order listed.
pub open spec fn listing_of(text: Seq<char>) -> Seq<EntryView> {
    let lines = lines_of(text);
    listing_finish(listing_upto(lines, lines.len()))
}

/// Parses the VCS's porcelain worktree listing into records, in the order
/// listed; the first is the primary worktree.
pub fn parse_worktree_list(text: &str) -> (r: Vec<WorktreeEntry>)
    ensures
        r@.map_values(|e: WorktreeEntry| e@) == listing_of(text@),
{
    let lines = split_lines(text);
    let ghost lv = lines@.map_values(|l: String| l@);
    let mut entries: Vec<WorktreeEntry> = Vec::new();
    let mut path: Option<String> = None;
    let mut head = String::new();
    let mut branch = String::new();
    let mut i: usize = 0;
    assert(entries@.map_values(|e: WorktreeEntry| e@) =~= seq![]);
    while i < lines.len()
        invariant
            lv == lines@.map_values(|l: String| l@),
            lv == lines_of(text@),
            i <= lines.len(),
            listing_upto(lv, i as nat) == (ListingState {
                entries: entries@.map_values(|e: WorktreeEntry| e@),
                path: crate::text::opt_view(path),
                head: head@,
                branch: branch@,
            }),
        decreases lines.len() - i,
    {
        let line = lines[i].as_str();
        assert(lv[i as int] == line@);
        if let Some(p) = strip_prefix(line, "worktree ") {
            path = Some(p);
        } else if let Some(h) = strip_prefix(line, "HEAD ") {
            head = h;
        } else if let Some(b) = strip_prefix(line, "branch ") {
            branch = match strip_prefix(b.as_str(), "refs/heads/") {
                Some(short) => short,
                None => b,
            };
        } else if line.is_empty() {
            if let Some(p) = path {
                let ghost before = entries@;
                entries.push(WorktreeEntry { path: p, head, branch });
                assert(entries@.map_values(|e: WorktreeEntry| e@) =~= before.map_values(
                    |e: WorktreeEntry| e@,
                ).push(entries@.last()@));
                path = None;
                head = String::new();
                branch = String::new();
            }
        }
        i = i + 1;
    }
    if let Some(p) = path {
        let ghost before = entries@;
        entries.push(WorktreeEntry { path: p, head, branch });
        assert(entries@.map_values(|e: WorktreeEntry| e@) =~= before.map_values(
            |e: WorktreeEntry| e@,
        ).push(entries@.last()@));
    }
    entries
}

/// Whether a status listing names a change to a tracked file: a line that
/// does not begin with `??` (the mark of an untracked file).
pub open spec fn has_tracked_change(status: Seq<char>) -> bool {
    let lines = lines_of(status);
    exists|i: int| 0 <= i < lines.len() && !"??"@.is_prefix_of(#[trigger] lines[i])
}

/// Whether a worktree blocks a removal without force: it has tracked changes,
/// or untracked files that are not ignored. `status` is the porcelain status
/// output and `untracked` the listing of untracked files that are not
/// ignored. Ignored files appear in neither, so they never block.
pub open spec fn is_dirty(status: Seq<char>, untracked: Seq<char>) -> bool {
    has_tracked_change(status) || has_visible_text(untracked)
}

/// Decides, from the status output and the listing of untracked files that
/// are not ignored, whether the worktree is dirty.
pub fn worktree_is_dirty(status: &str, untracked: &str) -> (r: bool)
    ensures
        r == is_dirty(status@, untracked@),
{
    let lines = split_lines(status);
    let ghost lv = lines@.map_values(|l: String| l@);
    let mut i: usize = 0;
    while i < lines.len()
        invariant
            lv == lines@.map_values(|l: String| l@),
            lv == lines_of(status@),
            i <= lines.len(),
            forall|k: int| 0 <= k < i ==> "??"@.is_prefix_of(#[trigger] lv[k]),
        decreases lines.len() - i,
    {
        assert(lv[i as int] == lines@[i as int]@);
        if !has_prefix(lines[i].as_str(), "??") {
            return true;
        }
        i = i + 1;
    }
    visible_text(untracked)
}

/// The lines of `lines` among the first `n` that begin with `prefix`.
pub open spec fn lines_with_prefix(lines: Seq<Seq<char>>, prefix: Seq<char>, n: nat) -> Seq<Seq<char>>
    decreases n,
{
    if n == 0 {
        seq![]
    } else {
        let before = lines_with_prefix(lines, prefix, (n - 1) as nat);
        if prefix.is_prefix_of(lines[n - 1]) {
            before.push(lines[n - 1])
        } else {
            before
        }
    }
}

/// Completion candidates for a branch name: the lines of the VCS's branch
/// listing (one branch per line) that begin with `prefix`, in listed order.
pub fn branch_candidates(listing: &str, prefix: &str) -> (r: Vec<String>)
    ensures
        r@.map_values(|l: String| l@) == lines_with_prefix(
            lines_of(listing@),
            prefix@,
            lines_of(listing@).len(),
        ),
{
    let lines = split_lines(listing);
    let ghost lv = lines@.map_values(|l: String| l@);
    let mut r: Vec<String> = Vec::new();
    let mut i: usize = 0;
    assert(r@.map_values(|l: String| l@) =~= seq![]);
    while i < lines.len()
        invariant
            lv == lines@.map_values(|l: String| l@),
            lv == lines_of(listing@),
            i <= lines.len(),
            r@.map_values(|l: String| l@) == lines_with_prefix(lv, prefix@, i as nat),
        decreases lines.len() - i,
    {
        assert(lv[i as int] == lines@[i as int]@);
        if has_prefix(lines[i].as_str(), prefix) {
            let ghost before = r@;
            r.push(lines[i].clone());
            assert(r@.map_values(|l: String| l@) =~= before.map_values(|l: String| l@).push(lv[i as int]));
        }
        i = i + 1;
    }
    r
}

} // verus!
