use std::path::PathBuf;

use tempfile::TempDir;
use worktrunk_native::error::WorktreeError;
use worktrunk_native::worktree::{
    ensure_repo_ready, ensure_worktree, list_worktrees, remove_worktree,
};

fn init_test_repo() -> (TempDir, PathBuf) {
    let temp = TempDir::new().unwrap();
    let repo_path = temp.path().join("repo");

    // Repository::init creates the directory itself.
    let repo = git2::Repository::init(&repo_path).unwrap();

    // Configure user
    let mut config = repo.config().unwrap();
    config.set_str("user.name", "Test User").unwrap();
    config.set_str("user.email", "test@example.com").unwrap();

    // Create initial commit
    let sig = repo.signature().unwrap();
    let tree_id = {
        let mut index = repo.index().unwrap();
        index.write_tree().unwrap()
    };
    let tree = repo.find_tree(tree_id).unwrap();
    repo.commit(Some("HEAD"), &sig, &sig, "Initial commit", &tree, &[])
        .unwrap();

    (temp, repo_path)
}

#[test]
fn test_ensure_repo_ready() {
    let (_temp, repo_path) = init_test_repo();
    let (is_repo, branch) = ensure_repo_ready(repo_path.to_str().unwrap()).unwrap();
    assert!(is_repo);
    assert!(branch.is_some());
}

#[test]
fn test_ensure_repo_ready_not_a_repo() {
    let temp = TempDir::new().unwrap();

    let result = ensure_repo_ready(temp.path().to_str().unwrap());
    assert!(result.is_err());
    assert!(matches!(result, Err(WorktreeError::NotAGitRepo(_))));
}

#[test]
fn test_ensure_repo_ready_invalid_path() {
    let temp = TempDir::new().unwrap();
    let missing = temp.path().join("does-not-exist");

    let result = ensure_repo_ready(missing.to_str().unwrap());
    assert!(matches!(result, Err(WorktreeError::InvalidPath(_))));
}

#[test]
fn test_ensure_worktree_creates_new() {
    let (_temp, repo_path) = init_test_repo();
    let base_dir = repo_path.join(".worktrees");

    let (branch, path) = ensure_worktree(
        repo_path.to_str().unwrap(),
        "test-branch",
        base_dir.to_str().unwrap(),
        None,
    )
    .unwrap();

    assert_eq!(branch, "test-branch");
    assert!(std::path::Path::new(&path).exists());
}

#[test]
fn test_ensure_worktree_idempotent() {
    let (_temp, repo_path) = init_test_repo();
    let base_dir = repo_path.join(".worktrees");

    let (_, path1) = ensure_worktree(
        repo_path.to_str().unwrap(),
        "test-branch",
        base_dir.to_str().unwrap(),
        None,
    )
    .unwrap();

    let (_, path2) = ensure_worktree(
        repo_path.to_str().unwrap(),
        "test-branch",
        base_dir.to_str().unwrap(),
        None,
    )
    .unwrap();

    assert_eq!(path1, path2);
}

#[test]
fn test_ensure_worktree_sanitizes_registry_name() {
    let (_temp, repo_path) = init_test_repo();
    let base_dir = repo_path.join(".wt");

    let (branch, path) = ensure_worktree(
        repo_path.to_str().unwrap(),
        "feat/x",
        base_dir.to_str().unwrap(),
        None,
    )
    .unwrap();

    assert_eq!(branch, "feat/x");
    assert_eq!(path, format!("{}/feat/x", base_dir.to_str().unwrap()));

    // The registry holds the sanitized name, and the branch was created.
    let repo = git2::Repository::open(&repo_path).unwrap();
    let names = repo.worktrees().unwrap();
    let names: Vec<String> = names
        .iter()
        .flatten()
        .flatten()
        .map(|s| s.to_string())
        .collect();
    assert!(names.contains(&"feat-x".to_string()));
    assert!(repo.find_branch("feat/x", git2::BranchType::Local).is_ok());

    // A second call makes no new registry entries.
    ensure_worktree(
        repo_path.to_str().unwrap(),
        "feat/x",
        base_dir.to_str().unwrap(),
        None,
    )
    .unwrap();
    let after = git2::Repository::open(&repo_path)
        .unwrap()
        .worktrees()
        .unwrap()
        .len();
    assert_eq!(after, names.len());
}

#[test]
fn test_list_worktrees() {
    let (_temp, repo_path) = init_test_repo();
    let base_dir = repo_path.join(".worktrees");

    // Create a worktree
    ensure_worktree(
        repo_path.to_str().unwrap(),
        "test-branch",
        base_dir.to_str().unwrap(),
        None,
    )
    .unwrap();

    let worktrees = list_worktrees(repo_path.to_str().unwrap()).unwrap();
    assert!(worktrees.len() >= 2); // Main + test-branch
}

#[test]
fn test_list_worktrees_main_entry() {
    let (_temp, repo_path) = init_test_repo();
    let base_dir = repo_path.join(".worktrees");

    ensure_worktree(
        repo_path.to_str().unwrap(),
        "feat/x",
        base_dir.to_str().unwrap(),
        None,
    )
    .unwrap();

    let worktrees = list_worktrees(repo_path.to_str().unwrap()).unwrap();
    let mains: Vec<_> = worktrees.iter().filter(|w| w.is_main).collect();
    assert_eq!(mains.len(), 1);
    assert!(worktrees[0].is_main);
    assert!(!worktrees[0].path.ends_with('/'));
    assert!(worktrees
        .iter()
        .any(|w| w.branch == "feat/x" && !w.is_main));
}

#[test]
fn test_list_worktrees_locked_entry() {
    let (_temp, repo_path) = init_test_repo();
    let root = repo_path.to_str().unwrap();
    let base_dir = repo_path.join(".worktrees");

    ensure_worktree(root, "test-branch", base_dir.to_str().unwrap(), None).unwrap();

    // An unlocked worktree is reported unlocked.
    let worktrees = list_worktrees(root).unwrap();
    let entry = worktrees.iter().find(|w| w.branch == "test-branch").unwrap();
    assert!(!entry.is_locked);

    // Lock it through the library's registry and list again.
    {
        let repo = git2::Repository::open(&repo_path).unwrap();
        let wt = repo.find_worktree("test-branch").unwrap();
        wt.lock(Some("testing")).unwrap();
    }
    let worktrees = list_worktrees(root).unwrap();
    let entry = worktrees.iter().find(|w| w.branch == "test-branch").unwrap();
    assert!(entry.is_locked);
    assert!(!worktrees[0].is_locked);
}

#[test]
fn test_remove_worktree() {
    let (_temp, repo_path) = init_test_repo();
    let base_dir = repo_path.join(".worktrees");

    // Create a worktree
    ensure_worktree(
        repo_path.to_str().unwrap(),
        "test-branch",
        base_dir.to_str().unwrap(),
        None,
    )
    .unwrap();

    // Remove it
    remove_worktree(repo_path.to_str().unwrap(), "test-branch").unwrap();

    // Verify it's gone
    let worktrees = list_worktrees(repo_path.to_str().unwrap()).unwrap();
    assert!(!worktrees.iter().any(|w| w.branch == "test-branch"));
}

#[test]
fn test_remove_worktree_round_trip() {
    let (_temp, repo_path) = init_test_repo();
    let base_dir = repo_path.join(".wt");
    let root = repo_path.to_str().unwrap();

    let (_, path) = ensure_worktree(root, "feat/x", base_dir.to_str().unwrap(), None).unwrap();
    assert!(std::path::Path::new(&path).exists());

    remove_worktree(root, "feat/x").unwrap();

    // The worktree directory is gone, no listing entry remains, and the
    // local branch was deleted.
    assert!(!std::path::Path::new(&path).exists());
    let worktrees = list_worktrees(root).unwrap();
    assert!(!worktrees.iter().any(|w| w.branch == "feat/x"));
    let repo = git2::Repository::open(&repo_path).unwrap();
    assert!(repo.find_branch("feat/x", git2::BranchType::Local).is_err());

    // A second removal reports the worktree as not found.
    let again = remove_worktree(root, "feat/x");
    assert!(matches!(again, Err(WorktreeError::WorktreeNotFound(_))));
}

#[test]
fn test_remove_worktree_unknown_branch() {
    let (_temp, repo_path) = init_test_repo();
    let result = remove_worktree(repo_path.to_str().unwrap(), "no-such-branch");
    assert!(matches!(result, Err(WorktreeError::WorktreeNotFound(_))));
}

#[test]
fn test_ensure_worktree_existing_branch() {
    let (_temp, repo_path) = init_test_repo();
    let root = repo_path.to_str().unwrap();
    let base_dir = repo_path.join(".worktrees");

    // Pre-create the branch at HEAD's commit.
    {
        let repo = git2::Repository::open(&repo_path).unwrap();
        let head_commit = repo.head().unwrap().peel_to_commit().unwrap();
        repo.branch("pre-existing", &head_commit, false).unwrap();
    }

    let (branch, path) =
        ensure_worktree(root, "pre-existing", base_dir.to_str().unwrap(), None).unwrap();
    assert_eq!(branch, "pre-existing");

    // The new worktree checks out the existing branch.
    let wt_repo = git2::Repository::open(&path).unwrap();
    assert_eq!(wt_repo.head().unwrap().shorthand().unwrap(), "pre-existing");
}

#[test]
fn test_ensure_worktree_existing_slashed_branch() {
    let (_temp, repo_path) = init_test_repo();
    let root = repo_path.to_str().unwrap();
    let base_dir = repo_path.join(".worktrees");

    {
        let repo = git2::Repository::open(&repo_path).unwrap();
        let head_commit = repo.head().unwrap().peel_to_commit().unwrap();
        repo.branch("feat/pre", &head_commit, false).unwrap();
    }

    let (branch, path1) =
        ensure_worktree(root, "feat/pre", base_dir.to_str().unwrap(), None).unwrap();
    assert_eq!(branch, "feat/pre");

    // The worktree checks out the pre-existing slashed branch, and no stray
    // branch named after the sanitized registry name appears.
    let wt_repo = git2::Repository::open(&path1).unwrap();
    assert_eq!(wt_repo.head().unwrap().shorthand().unwrap(), "feat/pre");
    let repo = git2::Repository::open(&repo_path).unwrap();
    assert!(repo.find_branch("feat-pre", git2::BranchType::Local).is_err());

    // The repeated call finds the existing worktree.
    let (_, path2) =
        ensure_worktree(root, "feat/pre", base_dir.to_str().unwrap(), None).unwrap();
    assert_eq!(path1, path2);
}

#[test]
fn test_ensure_worktree_custom_template() {
    let (_temp, repo_path) = init_test_repo();
    let root = repo_path.to_str().unwrap();

    let (branch, path) = ensure_worktree(
        root,
        "dev",
        "unused-base",
        Some("{repoRoot}/.wt/{branch}"),
    )
    .unwrap();

    assert_eq!(branch, "dev");
    assert_eq!(path, format!("{}/.wt/dev", root));
    assert!(std::path::Path::new(&path).exists());
}

#[test]
fn test_ensure_worktree_not_a_repo() {
    let temp = TempDir::new().unwrap();
    let result = ensure_worktree(temp.path().to_str().unwrap(), "b", "/tmp/base", None);
    assert!(matches!(result, Err(WorktreeError::NotAGitRepo(_))));
}
