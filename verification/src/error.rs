//! The closed set of failure kinds of worktree operations. Each kind carries
//! a human-readable message; the host-facing form prefixes a stable code
//! token to the display form.

use vstd::prelude::*;
use vstd::string::*;

verus! {

/// Error kinds for worktree operations.
#[derive(Debug)]
pub enum WorktreeError {
    /// The provided root is not a repository the library can open.
    NotAGitRepo(String),
    /// The library rejected worktree creation.
    WorktreeCreateFailed(String),
    /// No worktree in the registry has HEAD matching the requested branch.
    WorktreeNotFound(String),
    /// The library rejected the prune of a worktree.
    WorktreeRemoveFailed(String),
    /// Reserved for callers to interpret lock state; not raised here.
    WorktreeInUse(String),
    /// The provided root does not exist on disk.
    InvalidPath(String),
    /// Any other library-level failure, carrying the library's message.
    GitError(String),
    /// A filesystem failure outside the library.
    IoError(String),
}

impl WorktreeError {
    /// The stable code token of this kind.
    pub open spec fn code_spec(&self) -> Seq<char> {
        match self {
            WorktreeError::NotAGitRepo(_) => "NOT_A_GIT_REPO"@,
            WorktreeError::WorktreeCreateFailed(_) => "WORKTREE_CREATE_FAILED"@,
            WorktreeError::WorktreeNotFound(_) => "WORKTREE_NOT_FOUND"@,
            WorktreeError::WorktreeRemoveFailed(_) => "WORKTREE_REMOVE_FAILED"@,
            WorktreeError::WorktreeInUse(_) => "WORKTREE_IN_USE"@,
            WorktreeError::InvalidPath(_) => "INVALID_PATH"@,
            WorktreeError::GitError(_) => "GIT_ERROR"@,
            WorktreeError::IoError(_) => "IO_ERROR"@,
        }
    }

    /// The message carried by this error.
    pub open spec fn message_spec(&self) -> Seq<char> {
        match self {
            WorktreeError::NotAGitRepo(m) => m@,
            WorktreeError::WorktreeCreateFailed(m) => m@,
            WorktreeError::WorktreeNotFound(m) => m@,
            WorktreeError::WorktreeRemoveFailed(m) => m@,
            WorktreeError::WorktreeInUse(m) => m@,
            WorktreeError::InvalidPath(m) => m@,
            WorktreeError::GitError(m) => m@,
            WorktreeError::IoError(m) => m@,
        }
    }

    /// The display form: a fixed prefix for the kind, then the message.
    pub open spec fn display_spec(&self) -> Seq<char> {
        match self {
            WorktreeError::NotAGitRepo(m) => "Not a git repository: "@ + m@,
            WorktreeError::WorktreeCreateFailed(m) => "Failed to create worktree: "@ + m@,
            WorktreeError::WorktreeNotFound(m) => "Worktree not found: "@ + m@,
            WorktreeError::WorktreeRemoveFailed(m) => "Failed to remove worktree: "@ + m@,
            WorktreeError::WorktreeInUse(m) => "Worktree is currently in use: "@ + m@,
            WorktreeError::InvalidPath(m) => "Invalid path: "@ + m@,
            WorktreeError::GitError(m) => "Git error: "@ + m@,
            WorktreeError::IoError(m) => "I/O error: "@ + m@,
        }
    }

    /// The host-facing form: `[<CODE>] <display>`.
    pub open spec fn host_spec(&self) -> Seq<char> {
        "["@ + self.code_spec() + "] "@ + self.display_spec()
    }

    /// The stable code token of this kind.
    pub fn code(&self) -> (r: String)
        ensures
            r@ == self.code_spec(),
    {
        match self {
            WorktreeError::NotAGitRepo(_) => String::from_str("NOT_A_GIT_REPO"),
            WorktreeError::WorktreeCreateFailed(_) => String::from_str("WORKTREE_CREATE_FAILED"),
            WorktreeError::WorktreeNotFound(_) => String::from_str("WORKTREE_NOT_FOUND"),
            WorktreeError::WorktreeRemoveFailed(_) => String::from_str("WORKTREE_REMOVE_FAILED"),
            WorktreeError::WorktreeInUse(_) => String::from_str("WORKTREE_IN_USE"),
            WorktreeError::InvalidPath(_) => String::from_str("INVALID_PATH"),
            WorktreeError::GitError(_) => String::from_str("GIT_ERROR"),
            WorktreeError::IoError(_) => String::from_str("IO_ERROR"),
        }
    }

    /// The message carried by this error.
    pub fn message(&self) -> (r: String)
        ensures
            r@ == self.message_spec(),
    {
        match self {
            WorktreeError::NotAGitRepo(m) => m.clone(),
            WorktreeError::WorktreeCreateFailed(m) => m.clone(),
            WorktreeError::WorktreeNotFound(m) => m.clone(),
            WorktreeError::WorktreeRemoveFailed(m) => m.clone(),
            WorktreeError::WorktreeInUse(m) => m.clone(),
            WorktreeError::InvalidPath(m) => m.clone(),
            WorktreeError::GitError(m) => m.clone(),
            WorktreeError::IoError(m) => m.clone(),
        }
    }

    /// The display form: a fixed prefix for the kind, then the message.
    pub fn display_message(&self) -> (r: String)
        ensures
            r@ == self.display_spec(),
    {
        let mut r = match self {
            WorktreeError::NotAGitRepo(_) => String::from_str("Not a git repository: "),
            WorktreeError::WorktreeCreateFailed(_) => String::from_str(
                "Failed to create worktree: ",
            ),
            WorktreeError::WorktreeNotFound(_) => String::from_str("Worktree not found: "),
            WorktreeError::WorktreeRemoveFailed(_) => String::from_str(
                "Failed to remove worktree: ",
            ),
            WorktreeError::WorktreeInUse(_) => String::from_str("Worktree is currently in use: "),
            WorktreeError::InvalidPath(_) => String::from_str("Invalid path: "),
            WorktreeError::GitError(_) => String::from_str("Git error: "),
            WorktreeError::IoError(_) => String::from_str("I/O error: "),
        };
        let m = self.message();
        r.append(m.as_str());
        r
    }

    /// The host-facing form: `[<CODE>] <display>`.
    pub fn host_message(&self) -> (r: String)
        ensures
            r@ == self.host_spec(),
    {
        let mut r = String::from_str("[");
        let code = self.code();
        r.append(code.as_str());
        r.append("] ");
        let disp = self.display_message();
        r.append(disp.as_str());
        proof {
            assert(r@ =~= "["@ + self.code_spec() + "] "@ + self.display_spec());
        }
        r
    }
}

} // verus!
