use yati::config::{Config, TmuxConfig, WindowConfig};
use yati::error::WorkflowError;
use yati::identity::Identity;
use yati::lifecycle::{
    activate_build_plan, activate_phase, create_identity, create_plan, deactivate_plan,
    primary_worktree, teardown_plan, Activation,
};
use yati::plan::{after_step, failure_error, Action, Flow, OnFailure, Outcome, Step};
use yati::session::{setup_windows, window_target};

const BASE: &str = "/h/.yati";

fn ident(project: &str, branch: &str) -> Identity {
    Identity { project: project.to_string(), branch: branch.to_string() }
}

fn window(name: &str, command: Option<&str>) -> WindowConfig {
    WindowConfig { name: name.to_string(), command: command.map(|c| c.to_string()) }
}

fn config(copy: &[&str], post_create: &[&str], pre_teardown: &[&str], windows: Vec<WindowConfig>) -> Config {
    Config {
        copy_files: copy.iter().map(|s| s.to_string()).collect(),
        exclude: vec!["*.log".to_string()],
        post_create: post_create.iter().map(|s| s.to_string()).collect(),
        pre_teardown: pre_teardown.iter().map(|s| s.to_string()).collect(),
        tmux: TmuxConfig { windows },
    }
}

fn is_abort(s: &Step) -> bool {
    matches!(s.on_failure, OnFailure::Abort)
}

fn is_warn(s: &Step) -> bool {
    matches!(s.on_failure, OnFailure::Warn)
}

#[test]
fn window_setup_renames_creates_and_focuses() {
    let windows = vec![window("edit", None), window("run", Some("npm start"))];
    let steps = setup_windows("demo/x", "/w", &windows);
    assert_eq!(steps.len(), 4);
    assert!(matches!(&steps[0].action, Action::RenameWindow { session, name } if session == "demo/x" && name == "edit"));
    assert!(is_warn(&steps[0]));
    assert!(matches!(&steps[1].action, Action::NewWindow { session, name, dir }
        if session == "demo/x" && name == "run" && dir == "/w"));
    assert!(matches!(steps[1].on_failure, OnFailure::WarnAndSkip(1)));
    assert!(matches!(&steps[2].action, Action::SendKeys { target, keys } if target == "demo/x:run" && keys == "npm start"));
    assert!(is_warn(&steps[2]));
    assert!(matches!(&steps[3].action, Action::SelectWindow { target } if target == "demo/x:edit"));
}

#[test]
fn window_setup_sends_first_command() {
    let steps = setup_windows("s", "/w", &vec![window("edit", Some("vim"))]);
    assert_eq!(steps.len(), 3);
    assert!(matches!(steps[0].on_failure, OnFailure::WarnAndSkip(1)));
    assert!(matches!(&steps[1].action, Action::SendKeys { target, keys } if target == "s:edit" && keys == "vim"));
    assert!(matches!(&steps[2].action, Action::SelectWindow { target } if target == "s:edit"));
}

#[test]
fn window_setup_without_windows_keeps_default() {
    assert!(setup_windows("s", "/w", &vec![]).is_empty());
    assert_eq!(window_target("a/b", "w"), "a/b:w");
}

#[test]
fn failed_window_skips_its_command() {
    let steps = setup_windows("s", "/w", &vec![window("a", None), window("b", Some("make"))]);
    match after_step(&steps[1], Outcome::Failed("no server".to_string())) {
        Flow::Proceed { skip, warning } => {
            assert_eq!(skip, 1);
            assert_eq!(warning, Some("no server".to_string()));
        }
        _ => panic!("a window failure only warns"),
    }
}

#[test]
fn after_step_follows_policies() {
    let step = |on_failure| Step { action: Action::KillSession { session: "s".to_string() }, on_failure };
    assert!(matches!(after_step(&step(OnFailure::Abort), Outcome::Succeeded), Flow::Proceed { skip: 0, warning: None }));
    match after_step(&step(OnFailure::Abort), Outcome::Failed("gone".to_string())) {
        Flow::Stop(e) => assert_eq!(e, WorkflowError::SessionOperationFailed("gone".to_string())),
        _ => panic!("abort stops"),
    }
    match after_step(&step(OnFailure::Warn), Outcome::Failed("w".to_string())) {
        Flow::Proceed { skip, warning } => assert!(skip == 0 && warning == Some("w".to_string())),
        _ => panic!("warn goes on"),
    }
    assert!(matches!(after_step(&step(OnFailure::Ignore), Outcome::Failed("x".to_string())),
        Flow::Proceed { skip: 0, warning: None }));
    match after_step(&step(OnFailure::Then(vec![Action::Detach])), Outcome::Failed("x".to_string())) {
        Flow::Fallback(alts) => assert!(alts.len() == 1 && matches!(alts[0], Action::Detach)),
        _ => panic!("then falls back"),
    }
    let check = Step {
        action: Action::RequireClean { path: "p".to_string(), repo: "r".to_string() },
        on_failure: OnFailure::Abort,
    };
    match after_step(&check, Outcome::FoundDirty) {
        Flow::Stop(e) => assert_eq!(e, WorkflowError::DirtyWorktree),
        _ => panic!("a dirty worktree stops"),
    }
    match after_step(&check, Outcome::Failed("git: not a repo".to_string())) {
        Flow::Stop(e) => assert_eq!(e, WorkflowError::VcsOperationFailed("git: not a repo".to_string())),
        _ => panic!("a failed query stops"),
    }
}

#[test]
fn create_identity_from_repo_root() {
    assert_eq!(create_identity("/src/demo", "feature-x", true), Ok(ident("demo", "feature-x")));
    assert_eq!(
        create_identity("/src/demo", "bad..name", false),
        Err(WorkflowError::InvalidBranchName("bad..name".to_string()))
    );
    assert_eq!(create_identity("/", "x", true), Err(WorkflowError::NoProject));
}

#[test]
fn create_refuses_existing_path() {
    let r = create_plan(BASE, "/src/demo", &ident("demo", "x"), true, &Config::default(), false);
    assert_eq!(r.unwrap_err(), WorkflowError::AlreadyExists("/h/.yati/demo/x".to_string()));
}

#[test]
fn create_plan_orders_steps() {
    let cfg = config(&[".env"], &["npm i"], &[], vec![window("edit", None)]);
    let steps = create_plan(BASE, "/src/demo", &ident("demo", "feature-x"), false, &cfg, true).unwrap();
    let path = "/h/.yati/demo/feature-x";
    assert_eq!(steps.len(), 7);
    assert!(matches!(&steps[0].action, Action::AddWorktree { path: p, branch } if p == path && branch == "feature-x"));
    match &steps[0].on_failure {
        OnFailure::Then(alts) => {
            assert_eq!(alts.len(), 1);
            assert!(matches!(&alts[0], Action::AddWorktreeForBranch { path: p, branch } if p == path && branch == "feature-x"));
        }
        _ => panic!("adding a worktree falls back to the existing branch"),
    }
    assert!(matches!(&steps[1].action, Action::CopyFiles { from, to, entries, exclude }
        if from == "/src/demo" && to == path && entries == &vec![".env".to_string()] && exclude == &vec!["*.log".to_string()]));
    assert!(is_abort(&steps[1]));
    assert!(matches!(&steps[2].action, Action::RunHook { command, dir } if command == "npm i" && dir == path));
    assert!(is_warn(&steps[2]));
    assert!(matches!(&steps[3].action, Action::NewSession { name, dir } if name == "demo/feature-x" && dir == path));
    assert!(is_abort(&steps[3]));
    assert!(matches!(&steps[4].action, Action::RenameWindow { .. }));
    assert!(is_warn(&steps[4]));
    assert!(matches!(&steps[5].action, Action::SelectWindow { .. }));
    assert!(matches!(&steps[6].action, Action::AttachOrSwitch { session } if session == "demo/feature-x"));
}

#[test]
fn create_outside_session_leaves_it_detached() {
    let steps = create_plan(BASE, "/src/demo", &ident("demo", "x"), false, &Config::default(), false).unwrap();
    assert_eq!(steps.len(), 2);
    assert!(matches!(&steps[1].action, Action::NewSession { name, .. } if name == "demo/x"));
}

#[test]
fn activate_missing_worktree_fails_without_session_steps() {
    let r = activate_phase(BASE, &ident("demo", "gone"), false, true);
    assert_eq!(r.unwrap_err(), WorkflowError::NoSuchWorktree("/h/.yati/demo/gone".to_string()));
    let r = activate_phase(BASE, &ident("demo", "gone"), false, false);
    assert_eq!(r.unwrap_err(), WorkflowError::NoSuchWorktree("/h/.yati/demo/gone".to_string()));
}

#[test]
fn activate_existing_session_attaches() {
    match activate_phase(BASE, &ident("demo", "x"), true, true).unwrap() {
        Activation::Attach(steps) => {
            assert_eq!(steps.len(), 1);
            assert!(matches!(&steps[0].action, Action::AttachOrSwitch { session } if session == "demo/x"));
        }
        Activation::Build => panic!("a live session is reused"),
    }
    assert!(matches!(activate_phase(BASE, &ident("demo", "x"), true, false), Ok(Activation::Build)));
}

#[test]
fn activate_build_runs_hooks_then_session() {
    let cfg = config(&[], &["make"], &[], vec![]);
    let steps = activate_build_plan(BASE, &ident("demo", "x"), &cfg);
    assert_eq!(steps.len(), 2);
    assert!(matches!(&steps[0].action, Action::RunHook { command, dir } if command == "make" && dir == "/h/.yati/demo/x"));
    assert!(matches!(&steps[1].action, Action::NewSession { name, .. } if name == "demo/x"));
}

#[test]
fn deactivate_needs_session_and_workspace() {
    let m = vec![false, false, false, true, false];
    assert_eq!(deactivate_plan(false, BASE, "/h/.yati/demo/x", &m).unwrap_err(), WorkflowError::NotInSession);
    assert_eq!(deactivate_plan(true, BASE, "/tmp", &m).unwrap_err(), WorkflowError::NotInWorkspace);
    let (id, steps) = deactivate_plan(true, BASE, "/h/.yati/demo/x/src", &m).unwrap();
    assert_eq!(id, ident("demo", "x"));
    assert_eq!(steps.len(), 1);
    assert!(matches!(steps[0].action, Action::SwitchToPrevious));
    match &steps[0].on_failure {
        OnFailure::Then(alts) => assert!(alts.len() == 1 && matches!(alts[0], Action::Detach)),
        _ => panic!("without a previous session the client detaches"),
    }
}

#[test]
fn teardown_of_missing_worktree_fails() {
    let r = teardown_plan(BASE, &ident("demo", "x"), false, "/src/demo", &Config::default(), false, true);
    assert_eq!(r.unwrap_err(), WorkflowError::NoSuchWorktree("/h/.yati/demo/x".to_string()));
}

#[test]
fn teardown_unforced_checks_then_removes() {
    let cfg = config(&[], &[], &["docker compose down"], vec![]);
    let steps = teardown_plan(BASE, &ident("demo", "x"), true, "/src/demo", &cfg, false, true).unwrap();
    let path = "/h/.yati/demo/x";
    assert_eq!(steps.len(), 8);
    assert!(matches!(&steps[0].action, Action::RunHook { command, .. } if command == "docker compose down"));
    assert!(is_warn(&steps[0]));
    assert!(matches!(&steps[1].action, Action::RequireClean { path: p, repo } if p == path && repo == "/src/demo"));
    assert!(matches!(&steps[2].action, Action::CleanIgnored { path: p, .. } if p == path));
    assert!(matches!(&steps[3].action, Action::RemoveWorktree { path: p, .. } if p == path));
    match &steps[3].on_failure {
        OnFailure::Then(alts) => {
            assert_eq!(alts.len(), 2);
            assert!(matches!(&alts[0], Action::DeleteTree { path: p } if p == path));
            assert!(matches!(&alts[1], Action::PruneWorktrees { repo } if repo == "/src/demo"));
        }
        _ => panic!("removal falls back to deleting and pruning"),
    }
    assert!(matches!(&steps[4].action, Action::RemoveDirIfEmpty { path: p } if p == "/h/.yati/demo"));
    assert!(matches!(steps[4].on_failure, OnFailure::Ignore));
    assert!(matches!(&steps[5].action, Action::RemoveDirIfEmpty { path: p } if p == "/h/.yati"));
    assert!(matches!(steps[6].action, Action::SwitchToPrevious));
    assert!(matches!(&steps[7].action, Action::KillSession { session } if session == "demo/x"));
}

#[test]
fn teardown_forced_outside_session() {
    let steps = teardown_plan(BASE, &ident("demo", "x"), true, "/src/demo", &Config::default(), true, false).unwrap();
    assert_eq!(steps.len(), 4);
    assert!(matches!(&steps[0].action, Action::CleanIgnored { .. }));
    assert!(!steps.iter().any(|s| matches!(s.action, Action::KillSession { .. } | Action::RequireClean { .. })));
}

#[test]
fn session_survives_deactivate_and_is_reused_until_teardown() {
    let id = create_identity("/src/demo", "feature-x", true).unwrap();
    let created = create_plan(BASE, "/src/demo", &id, false, &Config::default(), true).unwrap();
    assert!(created.iter().any(|s| matches!(&s.action, Action::NewSession { name, .. } if name == "demo/feature-x")));
    assert!(matches!(&created.last().unwrap().action, Action::AttachOrSwitch { session } if session == "demo/feature-x"));

    let (left, steps) = deactivate_plan(true, BASE, "/h/.yati/demo/feature-x", &vec![false, false, false, true]).unwrap();
    assert_eq!(left, id);
    assert!(!steps.iter().any(|s| matches!(s.action, Action::KillSession { .. })));

    let target = yati::identity::resolve_target("feature-x", false, Some("demo".to_string())).unwrap();
    assert_eq!(target, id);
    match activate_phase(BASE, &target, true, true).unwrap() {
        Activation::Attach(steps) => {
            assert!(!steps.iter().any(|s| matches!(s.action, Action::NewSession { .. })));
        }
        Activation::Build => panic!("the same session is reused"),
    }

    let down = teardown_plan(BASE, &id, true, "/src/demo", &Config::default(), false, true).unwrap();
    assert!(down.iter().any(|s| matches!(&s.action, Action::RemoveWorktree { path, .. } if path == "/h/.yati/demo/feature-x")));
    assert!(matches!(&down.last().unwrap().action, Action::KillSession { session } if session == "demo/feature-x"));
}

#[test]
fn failures_map_to_error_kinds() {
    let add = Action::AddWorktree { path: "p".to_string(), branch: "b".to_string() };
    assert_eq!(failure_error(&add, "boom".to_string()), WorkflowError::VcsOperationFailed("boom".to_string()));
    let clean = Action::RequireClean { path: "p".to_string(), repo: "r".to_string() };
    assert_eq!(failure_error(&clean, "x".to_string()), WorkflowError::VcsOperationFailed("x".to_string()));
    let kill = Action::KillSession { session: "s".to_string() };
    assert_eq!(failure_error(&kill, "gone".to_string()), WorkflowError::SessionOperationFailed("gone".to_string()));
    let del = Action::DeleteTree { path: "p".to_string() };
    assert_eq!(failure_error(&del, "denied".to_string()), WorkflowError::IoFailure("denied".to_string()));
}

#[test]
fn primary_worktree_is_first_listed() {
    let listing = "worktree /src/demo\nHEAD a\nbranch refs/heads/main\n\nworktree /h/.yati/demo/x\nHEAD b\n";
    assert_eq!(primary_worktree(listing), Some("/src/demo".to_string()));
    assert_eq!(primary_worktree(""), None);
}

#[test]
fn teardown_of_nested_branch_prunes_every_ancestor() {
    let steps = teardown_plan(BASE, &ident("p", "f/g/x"), true, "/src/p", &Config::default(), true, false).unwrap();
    assert_eq!(steps.len(), 6);
    assert!(matches!(&steps[1].action, Action::RemoveWorktree { path, .. } if path == "/h/.yati/p/f/g/x"));
    assert!(matches!(&steps[2].action, Action::RemoveDirIfEmpty { path } if path == "/h/.yati/p/f/g"));
    assert!(matches!(&steps[3].action, Action::RemoveDirIfEmpty { path } if path == "/h/.yati/p/f"));
    assert!(matches!(&steps[4].action, Action::RemoveDirIfEmpty { path } if path == "/h/.yati/p"));
    assert!(matches!(&steps[5].action, Action::RemoveDirIfEmpty { path } if path == "/h/.yati"));
    assert!(steps[2..].iter().all(|s| matches!(s.on_failure, OnFailure::Ignore)));
}

#[test]
fn nested_branch_round_trip_from_worktree() {
    let id = create_identity("/src/p", "f/x", true).unwrap();
    let cwd = "/h/.yati/p/f/x/src";
    let (found, _) = deactivate_plan(true, BASE, cwd, &vec![false, false, false, false, true, false]).unwrap();
    assert_eq!(found, id);
}
