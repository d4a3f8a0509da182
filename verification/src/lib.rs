//! Management of on-disk working trees ("worktrees") of a git repository:
//! verifying that a directory is a repository, idempotently materializing a
//! worktree for a branch at a templated path, enumerating worktrees, removing
//! a worktree together with its branch, and rate-limiting clone progress.

pub mod config;
pub mod error;
pub mod git;
pub mod progress;
pub mod strutil;
pub mod worktree;
