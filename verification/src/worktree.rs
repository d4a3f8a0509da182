//! The worktree orchestrator: checking repository readiness, idempotently
//! materializing a worktree for a branch, listing worktrees, and removing a
//! worktree together with its branch.
//!
//! Every operation re-opens the repository, takes a snapshot of the worktree
//! registry as plain values, and decides on that snapshot with verified pure
//! functions; the snapshot itself comes from the trusted boundary and may be
//! stale by the time the caller acts on it.

use vstd::prelude::*;
use vstd::string::*;

use crate::config::PathTemplate;
use crate::error::WorktreeError;
use crate::git::{
    branch_delete, branch_into_reference, create_parent_dirs, git_error_message,
    io_error_message, open_repository,
    open_repository_from_worktree, path_exists, reference_peel_to_commit_id, reference_shorthand,
    repo_add_worktree, repo_create_reference, repo_find_local_branch, repo_find_worktree,
    repo_head, repo_workdir, repo_worktree_names, worktree_is_prunable_allow_valid,
    worktree_path_string, worktree_prune,
};
use crate::strutil::{
    concat_str, lemma_strip_trailing_no_sep, map_char, replace_char, starts_with,
    strip_trailing_char,
};

verus! {

/// Information about one worktree, as a listing reports it.
#[derive(Debug, Clone)]
pub struct WorktreeInfo {
    /// Short name of the reference checked out there; for the main worktree,
    /// the repository's HEAD short name.
    pub branch: String,
    /// Absolute path of the worktree's working directory, any trailing path
    /// separator stripped.
    pub path: String,
    /// True iff this is the repository's primary working directory.
    pub is_main: bool,
    /// True iff the registry marks the worktree locked, or the lock state
    /// could not be queried.
    pub is_locked: bool,
}

/// Snapshot of one registry entry: its registry name, its on-disk path, the
/// HEAD short name of its working repository where readable, and its
/// advisory lock state.
pub struct WorktreeEntry {
    pub name: String,
    pub path: String,
    pub head_branch: Option<String>,
    pub locked: bool,
}

/// The registry name of a branch: every `/` replaced by `-`, so that the
/// name is usable as a single directory name under the registry.
pub fn sanitize_worktree_name(branch: &str) -> (r: String)
    ensures
        r@ == map_char(branch@, '/', '-'),
{
    proof {
        reveal_strlit("-");
    }
    replace_char(branch, '/', "-")
}

/// Whether the entry's working repository is checked out at `branch`.
pub open spec fn entry_match(e: WorktreeEntry, branch: Seq<char>) -> bool {
    match e.head_branch {
        Some(b) => b@ == branch,
        None => false,
    }
}

/// The branch a listing reports for an entry: its HEAD short name where
/// readable, the registry name otherwise.
pub open spec fn entry_branch_spec(e: WorktreeEntry) -> Seq<char> {
    match e.head_branch {
        Some(b) => b@,
        None => e.name@,
    }
}

/// The index of the first entry checked out at `branch`, if any.
pub fn find_entry_for_branch(entries: &Vec<WorktreeEntry>, branch: &str) -> (r: Option<usize>)
    ensures
        match r {
            Some(i) => i < entries@.len() && entry_match(entries@[i as int], branch@) && forall|
                j: int,
            | 0 <= j < i ==> !entry_match(entries@[j], branch@),
            None => forall|j: int| 0 <= j < entries@.len() ==> !entry_match(entries@[j], branch@),
        },
{
    let target = String::from_str(branch);
    let mut i: usize = 0;
    while i < entries.len()
        invariant
            i <= entries@.len(),
            target@ == branch@,
            forall|j: int| 0 <= j < i ==> !entry_match(entries@[j], branch@),
        decreases entries@.len() - i,
    {
        match &entries[i].head_branch {
            Some(b) => {
                if b.eq(&target) {
                    return Some(i);
                }
            },
            None => {},
        }
        i += 1;
    }
    None
}

/// The number of main records a listing starts with.
pub open spec fn main_count(main: Option<WorktreeInfo>) -> int {
    if main is Some {
        1
    } else {
        0
    }
}

/// Assemble the listing: the main record first when one was supplied, then
/// one record per registry entry, in registry order, never marked main.
pub fn assemble_worktree_list(main: Option<WorktreeInfo>, entries: &Vec<WorktreeEntry>) -> (r:
    Vec<WorktreeInfo>)
    requires
        main matches Some(m) ==> m.is_main,
    ensures
        r@.len() == main_count(main) + entries@.len(),
        main matches Some(m) ==> r@[0] == m,
        forall|i: int|
            0 <= i < entries@.len() ==> {
                let k = i + main_count(main);
                &&& r@[k].branch@ == entry_branch_spec(#[trigger] entries@[i])
                &&& r@[k].path@ == entries@[i].path@
                &&& !r@[k].is_main
                &&& r@[k].is_locked == entries@[i].locked
            },
        forall|k: int| 0 <= k < r@.len() ==> ((#[trigger] r@[k].is_main) <==> main is Some && k
            == 0),
{
    let ghost m_count = main_count(main);
    let mut r: Vec<WorktreeInfo> = Vec::new();
    match main {
        Some(m) => r.push(m),
        None => {},
    }
    let mut i: usize = 0;
    while i < entries.len()
        invariant
            i <= entries@.len(),
            main matches Some(m) ==> m.is_main,
            m_count == main_count(main),
            r@.len() == m_count + i,
            main matches Some(m) ==> r@[0] == m,
            forall|j: int|
                0 <= j < i ==> {
                    let k = j + m_count;
                    &&& r@[k].branch@ == entry_branch_spec(#[trigger] entries@[j])
                    &&& r@[k].path@ == entries@[j].path@
                    &&& !r@[k].is_main
                    &&& r@[k].is_locked == entries@[j].locked
                },
            forall|k: int| 0 <= k < r@.len() ==> ((#[trigger] r@[k].is_main) <==> main is Some
                && k == 0),
        decreases entries@.len() - i,
    {
        let e = &entries[i];
        let branch = match &e.head_branch {
            Some(b) => b.clone(),
            None => e.name.clone(),
        };
        r.push(
            WorktreeInfo { branch, path: e.path.clone(), is_main: false, is_locked: e.locked },
        );
        i += 1;
    }
    r
}

/// Gate the on-disk existence check: report the root as an invalid path
/// exactly when it does not exist.
fn invalid_path_gate(exists: bool, repo_root: &str) -> (r: Option<WorktreeError>)
    ensures
        r is Some <==> !exists,
        r matches Some(e) ==> e is InvalidPath && e.message_spec() == "Path does not exist: "@
            + repo_root@,
{
    if exists {
        None
    } else {
        Some(WorktreeError::InvalidPath(concat_str("Path does not exist: ", repo_root)))
    }
}

/// Gate the repository open: hand the handle through, and report the root as
/// no git repository exactly when the open failed.
fn require_repository(
    opened: Result<git2::Repository, git2::Error>,
    repo_root: &str,
) -> (r: Result<git2::Repository, WorktreeError>)
    ensures
        r is Ok <==> opened is Ok,
        r matches Err(e) ==> e is NotAGitRepo && e.message_spec() == "Not a git repository: "@
            + repo_root@,
{
    match opened {
        Ok(repo) => Ok(repo),
        Err(_) => Err(
            WorktreeError::NotAGitRepo(concat_str("Not a git repository: ", repo_root)),
        ),
    }
}

/// Gate the snapshot search: hand the matching index through, and report the
/// branch's worktree as not found exactly when nothing matched.
fn require_match(found: Option<usize>, branch: &str) -> (r: Result<usize, WorktreeError>)
    ensures
        r is Ok <==> found is Some,
        r matches Ok(i) ==> found == Some(i),
        r matches Err(e) ==> e is WorktreeNotFound && e.message_spec()
            == "No worktree found for branch '"@ + branch@ + "'"@,
{
    match found {
        Some(i) => Ok(i),
        None => {
            let mut msg = concat_str("No worktree found for branch '", branch);
            msg.append("'");
            proof {
                assert(msg@ =~= "No worktree found for branch '"@ + branch@ + "'"@);
            }
            Err(WorktreeError::WorktreeNotFound(msg))
        },
    }
}

/// The advisory lock flag of an entry: locked unless the prunability query
/// with validity waived answered that the worktree is prunable, so unlocked;
/// an unanswerable query is read as locked.
fn lock_flag(prunable: Result<bool, git2::Error>) -> (b: bool)
    ensures
        b == !(prunable matches Ok(true)),
{
    match prunable {
        Ok(p) => !p,
        Err(_) => true,
    }
}

/// One snapshot entry, every field fixed: the registry name, the on-disk
/// path, the HEAD short name where one was read, and the lock flag.
fn make_entry(
    name: String,
    path: String,
    head_branch: Option<String>,
    prunable: Result<bool, git2::Error>,
) -> (e: WorktreeEntry)
    ensures
        e.name == name,
        e.path == path,
        e.head_branch == head_branch,
        e.locked == !(prunable matches Ok(true)),
{
    let locked = lock_flag(prunable);
    WorktreeEntry { name, path, head_branch, locked }
}

/// The main record's path source: the repository's working directory, with
/// the repository root as the fallback where none exists.
fn main_path(workdir: Option<String>, repo_root: &str) -> (p: String)
    ensures
        workdir matches Some(w) ==> p@ == w@,
        workdir is None ==> p@ == repo_root@,
{
    match workdir {
        Some(w) => w,
        None => String::from_str(repo_root),
    }
}

/// Take a snapshot of the worktree registry: one entry per registry name
/// that resolves to a worktree. Entries that fail to resolve are skipped so
/// that one broken link does not mask the rest; an unreadable HEAD leaves
/// the entry's branch unknown; an unanswerable lock query is read as locked.
fn collect_worktree_entries(repo: &git2::Repository) -> (r: Result<
    Vec<WorktreeEntry>,
    WorktreeError,
>)
    ensures
        r matches Err(e) ==> e is GitError && starts_with(
            e.message_spec(),
            "Failed to list worktrees: "@,
        ),
{
    let names = match repo_worktree_names(repo) {
        Ok(names) => names,
        Err(e) => {
            let emsg = git_error_message(&e);
            let msg = concat_str("Failed to list worktrees: ", emsg.as_str());
            proof {
                assert(msg@.subrange(0, "Failed to list worktrees: "@.len() as int)
                    =~= "Failed to list worktrees: "@);
            }
            return Err(WorktreeError::GitError(msg));
        },
    };
    let mut entries: Vec<WorktreeEntry> = Vec::new();
    let mut i: usize = 0;
    while i < names.len()
        decreases names@.len() - i,
    {
        let name = &names[i];
        match repo_find_worktree(repo, name.as_str()) {
            Err(_) => {},
            Ok(wt) => {
                let path = worktree_path_string(&wt);
                let head_branch = match open_repository_from_worktree(&wt) {
                    Ok(wt_repo) => match repo_head(&wt_repo) {
                        Ok(head) => match reference_shorthand(&head) {
                            Ok(short) => Some(short),
                            Err(_) => None,
                        },
                        Err(_) => None,
                    },
                    Err(_) => None,
                };
                entries.push(
                    make_entry(
                        name.clone(),
                        path,
                        head_branch,
                        worktree_is_prunable_allow_valid(&wt),
                    ),
                );
            },
        }
        i += 1;
    }
    Ok(entries)
}

/// Check that a directory is a git repository; on success report `true`
/// together with HEAD's short name, absent when HEAD is unborn, detached
/// without a short name, or unreadable.
pub fn ensure_repo_ready(repo_root: &str) -> (r: Result<
    (bool, Option<String>),
    WorktreeError,
>)
    ensures
        r matches Ok(ok) ==> ok.0,
        r matches Err(e) ==> {
            ||| (e is InvalidPath && e.message_spec() == "Path does not exist: "@ + repo_root@)
            ||| (e is NotAGitRepo && e.message_spec() == "Not a git repository: "@ + repo_root@)
        },
{
    match invalid_path_gate(path_exists(repo_root), repo_root) {
        Some(e) => {
            return Err(e);
        },
        None => {},
    }
    let repo = match require_repository(open_repository(repo_root), repo_root) {
        Ok(repo) => repo,
        Err(e) => {
            return Err(e);
        },
    };
    let default_branch = match repo_head(&repo) {
        Ok(head) => match reference_shorthand(&head) {
            Ok(short) => Some(short),
            Err(_) => None,
        },
        Err(_) => None,
    };
    Ok((true, default_branch))
}

/// Ensure a worktree exists for `branch`, idempotently: when some registry
/// entry is already checked out at `branch`, its path is returned and
/// nothing is mutated; otherwise the (supplied or default) template is
/// rendered, missing parent directories are created, and a worktree is
/// registered under the sanitized branch name — checking out the existing
/// local branch, or a branch newly created at HEAD's commit.
pub fn ensure_worktree(
    repo_root: &str,
    branch: &str,
    worktree_base_dir: &str,
    path_template: Option<&str>,
) -> (r: Result<(String, String), WorktreeError>)
    ensures
        r matches Ok(ok) ==> ok.0@ == branch@,
        r matches Err(e) ==> {
            ||| (e is NotAGitRepo && e.message_spec() == "Not a git repository: "@ + repo_root@)
            ||| (e is GitError && {
                ||| starts_with(e.message_spec(), "Failed to list worktrees: "@)
                ||| starts_with(e.message_spec(), "Failed to get HEAD: "@)
                ||| starts_with(e.message_spec(), "Failed to get HEAD commit: "@)
            })
            ||| e is IoError
            ||| (e is WorktreeCreateFailed && {
                ||| starts_with(
                    e.message_spec(),
                    "Failed to create worktree for existing branch '"@ + branch@ + "': "@,
                )
                ||| starts_with(
                    e.message_spec(),
                    "Failed to create branch '"@ + branch@ + "': "@,
                )
                ||| starts_with(
                    e.message_spec(),
                    "Failed to create worktree with new branch '"@ + branch@ + "': "@,
                )
            })
        },
{
    let repo = match require_repository(open_repository(repo_root), repo_root) {
        Ok(repo) => repo,
        Err(e) => {
            return Err(e);
        },
    };

    // Pre-flight existence check, which makes the call idempotent.
    let entries = match collect_worktree_entries(&repo) {
        Ok(entries) => entries,
        Err(e) => {
            return Err(e);
        },
    };
    match find_entry_for_branch(&entries, branch) {
        Some(i) => {
            return Ok((String::from_str(branch), entries[i].path.clone()));
        },
        None => {},
    }

    // Compute the worktree path from the template.
    let template = match path_template {
        Some(t) => PathTemplate::new(String::from_str(t)),
        None => PathTemplate::default(),
    };
    let worktree_path = template.render(repo_root, worktree_base_dir, branch);
    match create_parent_dirs(worktree_path.as_str()) {
        Ok(_) => {},
        Err(e) => {
            let msg = io_error_message(&e);
            return Err(WorktreeError::IoError(msg));
        },
    }

    // Branch classification: an existing branch is checked out directly,
    // its reference handed to the registration; a missing one is first
    // created as a reference at HEAD's commit.
    let worktree_name = sanitize_worktree_name(branch);

    if let Ok(local_branch) = repo_find_local_branch(&repo, branch) {
        let branch_ref = branch_into_reference(local_branch);
        match repo_add_worktree(
            &repo,
            worktree_name.as_str(),
            worktree_path.as_str(),
            Some(&branch_ref),
        ) {
            Ok(_) => {},
            Err(e) => {
                let mut msg = concat_str("Failed to create worktree for existing branch '", branch);
                msg.append("': ");
                let emsg = git_error_message(&e);
                msg.append(emsg.as_str());
                proof {
                    let prefix = "Failed to create worktree for existing branch '"@ + branch@
                        + "': "@;
                    assert(msg@.subrange(0, prefix.len() as int) =~= prefix);
                }
                return Err(WorktreeError::WorktreeCreateFailed(msg));
            },
        }
    } else {
        let head = match repo_head(&repo) {
            Ok(head) => head,
            Err(e) => {
                let emsg = git_error_message(&e);
                let msg = concat_str("Failed to get HEAD: ", emsg.as_str());
                proof {
                    assert(msg@.subrange(0, "Failed to get HEAD: "@.len() as int)
                        =~= "Failed to get HEAD: "@);
                }
                return Err(WorktreeError::GitError(msg));
            },
        };
        let head_commit_id = match reference_peel_to_commit_id(&head) {
            Ok(id) => id,
            Err(e) => {
                let emsg = git_error_message(&e);
                let msg = concat_str("Failed to get HEAD commit: ", emsg.as_str());
                proof {
                    assert(msg@.subrange(0, "Failed to get HEAD commit: "@.len() as int)
                        =~= "Failed to get HEAD commit: "@);
                }
                return Err(WorktreeError::GitError(msg));
            },
        };
        let ref_name = concat_str("refs/heads/", branch);
        let mut log_message = concat_str("create branch ", branch);
        log_message.append(" for worktree");
        let branch_ref = match repo_create_reference(
            &repo,
            ref_name.as_str(),
            head_commit_id,
            false,
            log_message.as_str(),
        ) {
            Ok(branch_ref) => branch_ref,
            Err(e) => {
                let mut msg = concat_str("Failed to create branch '", branch);
                msg.append("': ");
                let emsg = git_error_message(&e);
                msg.append(emsg.as_str());
                proof {
                    let prefix = "Failed to create branch '"@ + branch@ + "': "@;
                    assert(msg@.subrange(0, prefix.len() as int) =~= prefix);
                }
                return Err(WorktreeError::WorktreeCreateFailed(msg));
            },
        };
        match repo_add_worktree(
            &repo,
            worktree_name.as_str(),
            worktree_path.as_str(),
            Some(&branch_ref),
        ) {
            Ok(_) => {},
            Err(e) => {
                let mut msg = concat_str("Failed to create worktree with new branch '", branch);
                msg.append("': ");
                let emsg = git_error_message(&e);
                msg.append(emsg.as_str());
                proof {
                    let prefix = "Failed to create worktree with new branch '"@ + branch@
                        + "': "@;
                    assert(msg@.subrange(0, prefix.len() as int) =~= prefix);
                }
                return Err(WorktreeError::WorktreeCreateFailed(msg));
            },
        }
    }

    Ok((String::from_str(branch), worktree_path))
}

/// List all worktrees: the main record first when HEAD resolves to a short
/// name (its path the repository's working directory, `repo_root` as the
/// fallback, trailing separators stripped), then one record per registry
/// entry. Only the first record can be the main one.
pub fn list_worktrees(repo_root: &str) -> (r: Result<Vec<WorktreeInfo>, WorktreeError>)
    ensures
        r matches Err(e) ==> {
            ||| (e is NotAGitRepo && e.message_spec() == "Not a git repository: "@ + repo_root@)
            ||| (e is GitError && starts_with(e.message_spec(), "Failed to list worktrees: "@))
        },
        r matches Ok(v) ==> forall|k: int|
            0 <= k < v@.len() && (#[trigger] v@[k].is_main) ==> k == 0 && !v@[k].is_locked && (
            v@[k].path@.len() > 0 ==> v@[k].path@.last() != '/'),
{
    let repo = match require_repository(open_repository(repo_root), repo_root) {
        Ok(repo) => repo,
        Err(e) => {
            return Err(e);
        },
    };

    let main: Option<WorktreeInfo> = match repo_head(&repo) {
        Ok(head) => match reference_shorthand(&head) {
            Ok(branch_name) => {
                let workdir = main_path(repo_workdir(&repo), repo_root);
                let path = strip_trailing_char(workdir.as_str(), '/');
                proof {
                    lemma_strip_trailing_no_sep(workdir@, '/');
                }
                Some(WorktreeInfo { branch: branch_name, path, is_main: true, is_locked: false })
            },
            Err(_) => None,
        },
        Err(_) => None,
    };

    let entries = match collect_worktree_entries(&repo) {
        Ok(entries) => entries,
        Err(e) => {
            return Err(e);
        },
    };
    let ghost supplied_main = main;
    let infos = assemble_worktree_list(main, &entries);
    proof {
        assert(supplied_main matches Some(m) ==> infos@[0] == m);
    }
    Ok(infos)
}

/// Remove the worktree whose working repository is checked out at `branch`:
/// the first matching registry entry is pruned (allow-valid, so a healthy
/// worktree is removed rather than refused, together with its on-disk
/// working directory), then the local branch is deleted best-effort. With no
/// matching entry the branch's worktree is reported not found.
pub fn remove_worktree(repo_root: &str, branch: &str) -> (r: Result<(), WorktreeError>)
    ensures
        r matches Err(e) ==> {
            ||| (e is NotAGitRepo && e.message_spec() == "Not a git repository: "@ + repo_root@)
            ||| (e is GitError && starts_with(e.message_spec(), "Failed to list worktrees: "@))
            ||| (e is WorktreeNotFound && e.message_spec() == "No worktree found for branch '"@
                + branch@ + "'"@)
            ||| (e is WorktreeRemoveFailed && starts_with(
                e.message_spec(),
                "Failed to remove worktree for branch '"@ + branch@ + "': "@,
            ))
        },
{
    let repo = match require_repository(open_repository(repo_root), repo_root) {
        Ok(repo) => repo,
        Err(e) => {
            return Err(e);
        },
    };
    let entries = match collect_worktree_entries(&repo) {
        Ok(entries) => entries,
        Err(e) => {
            return Err(e);
        },
    };
    match require_match(find_entry_for_branch(&entries, branch), branch) {
        Err(e) => Err(e),
        Ok(i) => {
            let wt = match repo_find_worktree(&repo, entries[i].name.as_str()) {
                Ok(wt) => wt,
                Err(e) => {
                    let mut msg = concat_str("Failed to remove worktree for branch '", branch);
                    msg.append("': ");
                    let emsg = git_error_message(&e);
                    msg.append(emsg.as_str());
                    proof {
                        let prefix = "Failed to remove worktree for branch '"@ + branch@ + "': "@;
                        assert(msg@.subrange(0, prefix.len() as int) =~= prefix);
                    }
                    return Err(WorktreeError::WorktreeRemoveFailed(msg));
                },
            };
            match worktree_prune(&wt, true, true) {
                Ok(_) => {},
                Err(e) => {
                    let mut msg = concat_str("Failed to remove worktree for branch '", branch);
                    msg.append("': ");
                    let emsg = git_error_message(&e);
                    msg.append(emsg.as_str());
                    proof {
                        let prefix = "Failed to remove worktree for branch '"@ + branch@ + "': "@;
                        assert(msg@.subrange(0, prefix.len() as int) =~= prefix);
                    }
                    return Err(WorktreeError::WorktreeRemoveFailed(msg));
                },
            }
            // Best-effort: the prune is the authoritative operation, a
            // failing branch delete is ignored.
            match repo_find_local_branch(&repo, branch) {
                Ok(mut local_branch) => {
                    match branch_delete(&mut local_branch) {
                        Ok(_) => {},
                        Err(_) => {},
                    }
                },
                Err(_) => {},
            }
            Ok(())
        },
    }
}

} // verus!
