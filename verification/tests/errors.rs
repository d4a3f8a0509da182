use worktrunk_native::error::WorktreeError;

#[test]
fn test_code_tokens() {
    assert_eq!(WorktreeError::NotAGitRepo("m".to_string()).code(), "NOT_A_GIT_REPO");
    assert_eq!(
        WorktreeError::WorktreeCreateFailed("m".to_string()).code(),
        "WORKTREE_CREATE_FAILED"
    );
    assert_eq!(WorktreeError::WorktreeNotFound("m".to_string()).code(), "WORKTREE_NOT_FOUND");
    assert_eq!(
        WorktreeError::WorktreeRemoveFailed("m".to_string()).code(),
        "WORKTREE_REMOVE_FAILED"
    );
    assert_eq!(WorktreeError::WorktreeInUse("m".to_string()).code(), "WORKTREE_IN_USE");
    assert_eq!(WorktreeError::InvalidPath("m".to_string()).code(), "INVALID_PATH");
    assert_eq!(WorktreeError::GitError("m".to_string()).code(), "GIT_ERROR");
    assert_eq!(WorktreeError::IoError("m".to_string()).code(), "IO_ERROR");
}

#[test]
fn test_host_message_format() {
    let e = WorktreeError::NotAGitRepo("/tmp/x".to_string());
    assert_eq!(e.host_message(), "[NOT_A_GIT_REPO] Not a git repository: /tmp/x");
    let e = WorktreeError::IoError("disk full".to_string());
    assert_eq!(e.host_message(), "[IO_ERROR] I/O error: disk full");
    let e = WorktreeError::InvalidPath("p".to_string());
    assert_eq!(e.host_message(), "[INVALID_PATH] Invalid path: p");
}

#[test]
fn test_message_accessor() {
    let e = WorktreeError::GitError("boom".to_string());
    assert_eq!(e.message(), "boom");
    assert_eq!(e.display_message(), "Git error: boom");
}
