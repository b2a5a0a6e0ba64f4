//! Worktree and session lifecycle management: identities of worktrees, the
//! parsing of the VCS's machine-readable listings, and the plans that carry a
//! worktree and its multiplexer session through create, activate, deactivate
//! and teardown.
pub mod cli;
pub mod config;
pub mod copy;
pub mod error;
pub mod identity;
pub mod laws;
pub mod lifecycle;
pub mod plan;
pub mod session;
pub mod text;
pub mod vcs;
pub mod workspace;
