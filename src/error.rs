//! The errors that end a lifecycle operation.
use vstd::prelude::*;

verus! {

/// Why a lifecycle operation stopped. Variants that carry text hold the
/// collaborator's diagnostic or the path concerned.
#[derive(Debug, Clone, PartialEq, Eq)]
pub enum WorkflowError {
    /// The current directory is not inside a repository; the text is the VCS diagnostic.
    NotARepo(String),
    /// The current directory is not a worktree under the base root.
    NotInWorkspace,
    /// No project could be determined for a branch name.
    NoProject,
    /// The VCS refused the branch name.
    InvalidBranchName(String),
    /// A worktree already stands at the path.
    AlreadyExists(String),
    /// No worktree stands at the path.
    NoSuchWorktree(String),
    /// The worktree holds changes or untracked files that are not ignored.
    DirtyWorktree,
    /// The operation needs to run inside a multiplexer session.
    NotInSession,
    /// A VCS mutation failed; the text is its diagnostic.
    VcsOperationFailed(String),
    /// A multiplexer operation failed; the text is its diagnostic.
    SessionOperationFailed(String),
    /// A filesystem operation failed; the text is its diagnostic.
    IoFailure(String),
}

/// An error with its text as characters.
pub enum ErrorView {
    NotARepo(Seq<char>),
    NotInWorkspace,
    NoProject,
    InvalidBranchName(Seq<char>),
    AlreadyExists(Seq<char>),
    NoSuchWorktree(Seq<char>),
    DirtyWorktree,
    NotInSession,
    VcsOperationFailed(Seq<char>),
    SessionOperationFailed(Seq<char>),
    IoFailure(Seq<char>),
}

impl View for WorkflowError {
    type V = ErrorView;

    open spec fn view(&self) -> ErrorView {
        match self {
            WorkflowError::NotARepo(t) => ErrorView::NotARepo(t@),
            WorkflowError::NotInWorkspace => ErrorView::NotInWorkspace,
            WorkflowError::NoProject => ErrorView::NoProject,
            WorkflowError::InvalidBranchName(t) => ErrorView::InvalidBranchName(t@),
            WorkflowError::AlreadyExists(t) => ErrorView::AlreadyExists(t@),
            WorkflowError::NoSuchWorktree(t) => ErrorView::NoSuchWorktree(t@),
            WorkflowError::DirtyWorktree => ErrorView::DirtyWorktree,
            WorkflowError::NotInSession => ErrorView::NotInSession,
            WorkflowError::VcsOperationFailed(t) => ErrorView::VcsOperationFailed(t@),
            WorkflowError::SessionOperationFailed(t) => ErrorView::SessionOperationFailed(t@),
            WorkflowError::IoFailure(t) => ErrorView::IoFailure(t@),
        }
    }
}

} // verus!
