use yati::copy::matches_exclude;
use yati::text::{split_components, split_lines};
use yati::vcs::{branch_candidates, parse_worktree_list, worktree_is_dirty};
use yati::workspace::{activate_candidates, find_worktrees, DirNode};

#[test]
fn parses_porcelain_listing() {
    let text = "worktree /src/demo\nHEAD abc123\nbranch refs/heads/main\n\n\
                worktree /h/.yati/demo/feat/x\nHEAD def456\nbranch refs/heads/feat/x\n\n\
                worktree /h/.yati/demo/detached\nHEAD 0a0b0c\ndetached\n";
    let entries = parse_worktree_list(text);
    assert_eq!(entries.len(), 3);
    assert_eq!(entries[0].path, "/src/demo");
    assert_eq!(entries[0].head, "abc123");
    assert_eq!(entries[0].branch, "main");
    assert_eq!(entries[1].path, "/h/.yati/demo/feat/x");
    assert_eq!(entries[1].branch, "feat/x");
    assert_eq!(entries[2].path, "/h/.yati/demo/detached");
    assert_eq!(entries[2].head, "0a0b0c");
    assert_eq!(entries[2].branch, "");
}

#[test]
fn parses_listing_with_crlf_and_foreign_branch() {
    let entries = parse_worktree_list("worktree /a\r\nHEAD 1\r\nbranch other/x\r\n\r\n");
    assert_eq!(entries.len(), 1);
    assert_eq!(entries[0].path, "/a");
    assert_eq!(entries[0].branch, "other/x");
    assert!(parse_worktree_list("").is_empty());
}

#[test]
fn splits_lines_and_components() {
    assert_eq!(split_lines("a\n\nb"), vec!["a", "", "b"]);
    assert_eq!(split_lines("a\r\nb\n"), vec!["a", "b"]);
    assert!(split_lines("").is_empty());
    assert_eq!(split_components("/h//x/./y/"), vec!["h", "x", "y"]);
    assert_eq!(split_components("a/../b"), vec!["a", "..", "b"]);
}

#[test]
fn modified_tracked_file_is_dirty() {
    assert!(worktree_is_dirty(" M src/lib.rs\n", ""));
    assert!(worktree_is_dirty("?? new.txt\nA  added.rs\n", "new.txt\n"));
}

#[test]
fn untracked_file_that_is_not_ignored_is_dirty() {
    assert!(worktree_is_dirty("?? notes.txt\n", "notes.txt\n"));
}

#[test]
fn ignored_artifacts_only_is_clean() {
    assert!(!worktree_is_dirty("", ""));
    assert!(!worktree_is_dirty("", "  \n\t"));
}

#[test]
fn branch_candidates_filter_by_prefix() {
    let r = branch_candidates("main\nfeature/a\nfix\n", "f");
    assert_eq!(r, vec!["feature/a", "fix"]);
    assert!(branch_candidates("main\n", "x").is_empty());
    assert_eq!(branch_candidates("main\ndev", "").len(), 2);
}

#[test]
fn exclude_patterns() {
    let ex = vec!["*.log".to_string(), "node_modules".to_string()];
    assert!(matches_exclude("node_modules", &ex));
    assert!(!matches_exclude("web/node_modules", &ex));
    assert!(matches_exclude("debug.log", &ex));
    assert!(matches_exclude("logs/x.log", &ex));
    assert!(!matches_exclude("src/main.rs", &ex));
    assert!(!matches_exclude("my_node_modules", &ex));
    assert!(!matches_exclude("anything", &[]));
}

fn dir(name: &str, is_worktree: bool, children: Vec<DirNode>) -> DirNode {
    DirNode { name: name.to_string(), is_worktree, children }
}

#[test]
fn finds_nested_worktrees() {
    let project = dir(
        "demo",
        false,
        vec![
            dir("main", true, vec![]),
            dir("feature", false, vec![dir("foo", true, vec![]), dir("empty", false, vec![])]),
        ],
    );
    assert_eq!(find_worktrees(&project), vec!["main", "feature/foo"]);
    assert!(find_worktrees(&dir("none", false, vec![])).is_empty());
}

#[test]
fn activate_candidates_are_prefixed_targets() {
    let root = dir(
        ".yati",
        false,
        vec![
            dir("demo", false, vec![dir("main", true, vec![]), dir("feat", false, vec![dir("x", true, vec![])])]),
            dir("other", false, vec![dir("dev", true, vec![])]),
        ],
    );
    assert_eq!(activate_candidates(&root, ""), vec!["demo/main", "demo/feat/x", "other/dev"]);
    assert_eq!(activate_candidates(&root, "demo/f"), vec!["demo/feat/x"]);
    assert!(activate_candidates(&root, "zzz").is_empty());
}
