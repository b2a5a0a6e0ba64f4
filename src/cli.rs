//! The commands the tool offers.
use vstd::prelude::*;

verus! {

/// A parsed command line.
#[derive(Debug)]
pub struct Cli {
    pub command: Command,
}

/// One command of the tool.
#[derive(Debug)]
pub enum Command {
    /// Create a new worktree and branch.
    Create { branch_name: String },
    /// Tear down the worktree of the current directory; `force` removes it
    /// even with uncommitted changes.
    Teardown { force: bool },
    /// Activate an existing worktree by attaching to or creating its session.
    Activate { target: String },
    /// Leave the current worktree's session without destroying it.
    Deactivate,
    /// List the managed worktrees.
    List,
}

} // verus!
