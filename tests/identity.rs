use yati::error::WorkflowError;
use yati::identity::{
    base_root, cross_project_candidate, join, project_dir, repo_name, resolve_from_cwd,
    resolve_target, session_name, worktree_path, Identity,
};

fn ident(project: &str, branch: &str) -> Identity {
    Identity { project: project.to_string(), branch: branch.to_string() }
}

#[test]
fn session_name_joins_project_and_branch() {
    assert_eq!(session_name(&ident("demo", "feature-x")), "demo/feature-x");
    assert_eq!(session_name(&ident("demo", "feat/x")), "demo/feat/x");
}

#[test]
fn worktree_path_is_canonical() {
    let base = base_root("/home/u");
    assert_eq!(base, "/home/u/.yati");
    assert_eq!(worktree_path(&base, &ident("demo", "feature-x")), "/home/u/.yati/demo/feature-x");
    assert_eq!(worktree_path(&base, &ident("demo", "feat/x")), "/home/u/.yati/demo/feat/x");
    assert_eq!(project_dir(&base, "demo"), "/home/u/.yati/demo");
    assert_eq!(join("a", "b"), "a/b");
}

#[test]
fn repo_name_is_last_component() {
    assert_eq!(repo_name("/src/demo"), Some("demo".to_string()));
    assert_eq!(repo_name("/src/demo/"), Some("demo".to_string()));
    assert_eq!(repo_name("/src/demo/."), Some("demo".to_string()));
    assert_eq!(repo_name("demo"), Some("demo".to_string()));
    assert_eq!(repo_name("/"), None);
    assert_eq!(repo_name(""), None);
    assert_eq!(repo_name("/src/.."), None);
}

fn marks(n: usize, leaf: usize) -> Vec<bool> {
    (0..n).map(|k| k == leaf).collect()
}

#[test]
fn resolve_from_cwd_stops_at_marked_directory() {
    // components: h .yati proj main src lib; the worktree marker is in main (index 3)
    let id = resolve_from_cwd("/h/.yati", "/h/.yati/proj/main/src/lib", &marks(6, 3)).unwrap();
    assert_eq!(id, ident("proj", "main"));
    let id = resolve_from_cwd("/h/.yati/", "/h/.yati//proj/./main", &marks(4, 3)).unwrap();
    assert_eq!(id, ident("proj", "main"));
}

#[test]
fn resolve_from_cwd_keeps_nested_branch() {
    // components: h .yati p f x src; the marker is in x (index 4)
    let id = resolve_from_cwd("/h/.yati", "/h/.yati/p/f/x/src", &marks(6, 4)).unwrap();
    assert_eq!(id, ident("p", "f/x"));
    let id = resolve_from_cwd("/h/.yati", "/h/.yati/p/f/x", &marks(5, 4)).unwrap();
    assert_eq!(id, ident("p", "f/x"));
}

#[test]
fn resolve_from_cwd_outside_workspace_fails() {
    let m = marks(8, 3);
    assert_eq!(resolve_from_cwd("/h/.yati", "/h/.yati/proj", &m), Err(WorkflowError::NotInWorkspace));
    assert_eq!(resolve_from_cwd("/h/.yati", "/h/.yati", &m), Err(WorkflowError::NotInWorkspace));
    assert_eq!(resolve_from_cwd("/h/.yati", "/elsewhere/a/b", &m), Err(WorkflowError::NotInWorkspace));
    assert_eq!(resolve_from_cwd("/h/.yati", "/h/.yatix/a/b", &m), Err(WorkflowError::NotInWorkspace));
    assert_eq!(resolve_from_cwd("/h/.yati", "h/.yati/a/b", &m), Err(WorkflowError::NotInWorkspace));
}

#[test]
fn resolve_from_cwd_without_marker_fails() {
    let none = vec![false; 6];
    assert_eq!(resolve_from_cwd("/h/.yati", "/h/.yati/p/f/x/src", &none), Err(WorkflowError::NotInWorkspace));
    // a marker on the project directory itself does not end a branch
    assert_eq!(resolve_from_cwd("/h/.yati", "/h/.yati/p/f", &marks(4, 2)), Err(WorkflowError::NotInWorkspace));
    assert_eq!(resolve_from_cwd("/h/.yati", "/h/.yati/p/f", &vec![]), Err(WorkflowError::NotInWorkspace));
}

#[test]
fn cross_project_candidate_splits_at_first_slash() {
    assert_eq!(cross_project_candidate("proj/feat/x"), Some(ident("proj", "feat/x")));
    assert_eq!(cross_project_candidate("feat"), None);
    assert_eq!(cross_project_candidate("proj/"), None);
    assert_eq!(cross_project_candidate("/x"), Some(ident("", "x")));
}

#[test]
fn target_with_existing_cross_project_worktree() {
    let r = resolve_target("proj/feat/x", true, Some("current".to_string()));
    assert_eq!(r, Ok(ident("proj", "feat/x")));
    let r = resolve_target("proj/feat/x", true, None);
    assert_eq!(r, Ok(ident("proj", "feat/x")));
}

#[test]
fn target_without_cross_project_worktree_is_current_branch() {
    let r = resolve_target("feat/x", false, Some("current".to_string()));
    assert_eq!(r, Ok(ident("current", "feat/x")));
    let r = resolve_target("main", true, Some("current".to_string()));
    assert_eq!(r, Ok(ident("current", "main")));
}

#[test]
fn target_without_project_fails() {
    assert_eq!(resolve_target("main", false, None), Err(WorkflowError::NoProject));
    assert_eq!(resolve_target("feat/x", false, None), Err(WorkflowError::NoProject));
}
