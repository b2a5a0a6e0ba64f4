//! Per-project settings, as loaded from the primary worktree.
use vstd::prelude::*;

verus! {

/// One window of a session: its name and the command typed into it, if any.
#[derive(Debug, Default, Clone)]
pub struct WindowConfig {
    pub name: String,
    pub command: Option<String>,
}

/// The multiplexer part of the settings.
#[derive(Debug, Default)]
pub struct TmuxConfig {
    pub windows: Vec<WindowConfig>,
}

/// The settings of a project. A project without a settings file has all
/// fields empty.
#[derive(Debug, Default)]
pub struct Config {
    /// Paths or globs, relative to the repository root, copied into a new worktree.
    pub copy_files: Vec<String>,
    /// Patterns of paths left out of the copy.
    pub exclude: Vec<String>,
    /// Shell commands run in a worktree once it is set up.
    pub post_create: Vec<String>,
    /// Shell commands run in a worktree before it is removed.
    pub pre_teardown: Vec<String>,
    pub tmux: TmuxConfig,
}

} // verus!
