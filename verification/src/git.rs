//! Trusted boundary to the version-control library and to the filesystem.
//! Every item here either declares an outside type or wraps one outside call;
//! the results depend on on-disk state, so the wrappers promise nothing about
//! the values that come back, and the verified callers state what holds of
//! every outcome.

use vstd::prelude::*;

verus! {

#[verifier::external_type_specification]
#[verifier::external_body]
pub struct ExRepository(git2::Repository);

#[verifier::external_type_specification]
#[verifier::external_body]
pub struct ExGitError(git2::Error);

#[verifier::external_type_specification]
#[verifier::external_body]
pub struct ExWorktree(git2::Worktree);

#[verifier::external_type_specification]
#[verifier::external_body]
pub struct ExReference<'a>(git2::Reference<'a>);

#[verifier::external_type_specification]
#[verifier::external_body]
pub struct ExBranch<'a>(git2::Branch<'a>);

#[verifier::external_type_specification]
#[verifier::external_body]
pub struct ExOid(git2::Oid);

#[verifier::external_type_specification]
#[verifier::external_body]
pub struct ExIoError(std::io::Error);

/// Relies on std::path::Path::exists: whether the path exists on disk.
#[verifier::external_body]
pub(crate) fn path_exists(p: &str) -> bool {
    std::path::Path::new(p).exists()
}

/// Relies on fs_err::create_dir_all (`mkdir -p` semantics) and
/// std::path::Path::parent: creates every missing parent directory of `p`;
/// a path without a parent needs none.
#[verifier::external_body]
pub(crate) fn create_parent_dirs(p: &str) -> Result<(), std::io::Error> {
    match std::path::Path::new(p).parent() {
        Some(parent) => fs_err::create_dir_all(parent),
        None => Ok(()),
    }
}

/// Relies on the Display form of std::io::Error: its human-readable message.
#[verifier::external_body]
pub(crate) fn io_error_message(e: &std::io::Error) -> String {
    e.to_string()
}

/// Relies on git2::Error::message: the human-readable message of the error.
#[verifier::external_body]
pub(crate) fn git_error_message(e: &git2::Error) -> String {
    e.message().to_string()
}

/// Relies on git2::Repository::open: opens the repository rooted at `path`,
/// failing when the path is no repository the library can open.
#[verifier::external_body]
pub(crate) fn open_repository(path: &str) -> Result<git2::Repository, git2::Error> {
    git2::Repository::open(std::path::Path::new(path))
}

/// Relies on git2::Repository::open_from_worktree: opens the working
/// repository of a linked worktree.
#[verifier::external_body]
pub(crate) fn open_repository_from_worktree(
    wt: &git2::Worktree,
) -> Result<git2::Repository, git2::Error> {
    git2::Repository::open_from_worktree(wt)
}

/// Relies on git2::Repository::head: the reference HEAD points at, failing
/// on an unborn or unreadable HEAD.
#[verifier::external_body]
pub(crate) fn repo_head<'a>(
    repo: &'a git2::Repository,
) -> Result<git2::Reference<'a>, git2::Error> {
    repo.head()
}

/// Relies on git2::Repository::workdir: the path of the repository's working
/// directory, absent for a bare repository. The path is handed out lossily
/// decoded.
#[verifier::external_body]
pub(crate) fn repo_workdir(repo: &git2::Repository) -> Option<String> {
    repo.workdir().map(|p| p.to_string_lossy().to_string())
}

/// Relies on git2::Reference::shorthand: the human-readable short name of
/// the reference (the full name where no short form is appropriate), failing
/// on a non-UTF-8 name.
#[verifier::external_body]
pub(crate) fn reference_shorthand(r: &git2::Reference<'_>) -> Result<String, git2::Error> {
    r.shorthand().map(|s| s.to_string())
}

/// Relies on git2::Reference::peel_to_commit and git2::Commit::id: the id of
/// the commit the reference resolves to.
#[verifier::external_body]
pub(crate) fn reference_peel_to_commit_id(
    r: &git2::Reference<'_>,
) -> Result<git2::Oid, git2::Error> {
    r.peel_to_commit().map(|c| c.id())
}

/// Relies on git2::Repository::reference: creates the reference `name`
/// pointing at `id`, overwriting an existing one only when `force` is set,
/// with `log_message` written to the reflog.
#[verifier::external_body]
pub(crate) fn repo_create_reference<'a>(
    repo: &'a git2::Repository,
    name: &str,
    id: git2::Oid,
    force: bool,
    log_message: &str,
) -> Result<git2::Reference<'a>, git2::Error> {
    repo.reference(name, id, force, log_message)
}

/// Relies on git2::Repository::worktrees and the iteration of
/// git2::string_array::StringArray: the names of the linked worktrees in the
/// registry, in the registry's enumeration order; non-UTF-8 names are
/// dropped.
#[verifier::external_body]
pub(crate) fn repo_worktree_names(repo: &git2::Repository) -> Result<Vec<String>, git2::Error> {
    repo.worktrees().map(|arr| {
        arr.iter().flatten().flatten().map(|s| s.to_string()).collect()
    })
}

/// Relies on git2::Repository::find_worktree: opens the registry entry of
/// the given name.
#[verifier::external_body]
pub(crate) fn repo_find_worktree(
    repo: &git2::Repository,
    name: &str,
) -> Result<git2::Worktree, git2::Error> {
    repo.find_worktree(name)
}

/// Relies on git2::Repository::worktree with git2::WorktreeAddOptions:
/// registers a new worktree under `name`, creating its directory at `path`;
/// with a reference supplied, the worktree checks that reference out.
#[verifier::external_body]
pub(crate) fn repo_add_worktree(
    repo: &git2::Repository,
    name: &str,
    path: &str,
    reference: Option<&git2::Reference<'_>>,
) -> Result<(), git2::Error> {
    let mut opts = git2::WorktreeAddOptions::new();
    opts.reference(reference);
    repo.worktree(name, std::path::Path::new(path), Some(&opts)).map(|_| ())
}

/// Relies on git2::Repository::find_branch with the local branch type: looks
/// the local branch `name` up, failing when it does not exist.
#[verifier::external_body]
pub(crate) fn repo_find_local_branch<'a>(
    repo: &'a git2::Repository,
    name: &str,
) -> Result<git2::Branch<'a>, git2::Error> {
    repo.find_branch(name, git2::BranchType::Local)
}

/// Relies on git2::Branch::delete: removes the branch reference.
#[verifier::external_body]
pub(crate) fn branch_delete(b: &mut git2::Branch<'_>) -> Result<(), git2::Error> {
    b.delete()
}

/// Relies on git2::Branch::into_reference: the reference that is this
/// branch.
#[verifier::external_body]
pub(crate) fn branch_into_reference<'a>(b: git2::Branch<'a>) -> git2::Reference<'a> {
    b.into_reference()
}

/// Relies on git2::Worktree::path: the path to the top level of the
/// worktree's working directory, handed out lossily decoded.
#[verifier::external_body]
pub(crate) fn worktree_path_string(wt: &git2::Worktree) -> String {
    wt.path().to_string_lossy().to_string()
}

/// Relies on git2::Worktree::is_prunable with the `valid` flag allowed and
/// the `locked` flag not allowed: libgit2 then answers true exactly when the
/// worktree is not locked and its registry record still exists, and fails
/// where the lock state cannot be queried. Unlike the lock-status query,
/// this route never decodes the lock reason, which git2 unwraps and which
/// panics on non-UTF-8 bytes written by outside tools.
#[verifier::external_body]
pub(crate) fn worktree_is_prunable_allow_valid(
    wt: &git2::Worktree,
) -> Result<bool, git2::Error> {
    let mut opts = git2::WorktreePruneOptions::new();
    opts.valid(true);
    wt.is_prunable(Some(&mut opts))
}

/// Relies on git2::Worktree::prune with git2::WorktreePruneOptions: removes
/// the registry record; with `valid` set, a non-corrupt worktree is pruned
/// rather than refused, and with `working_tree` set, the worktree's on-disk
/// working directory is removed recursively too.
#[verifier::external_body]
pub(crate) fn worktree_prune(
    wt: &git2::Worktree,
    valid: bool,
    working_tree: bool,
) -> Result<(), git2::Error> {
    let mut opts = git2::WorktreePruneOptions::new();
    opts.valid(valid);
    opts.working_tree(working_tree);
    wt.prune(Some(&mut opts))
}

} // verus!
