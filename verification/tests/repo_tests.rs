use git_file_id::repository::{get_file_status, get_head_ref, get_remote_url, list_refs};
use git_file_id::GitError;

fn query_test_repo(path: &str) -> git2::Repository {
    let repo = git2::Repository::init(path).expect("Failed to init repository");
    if repo.head().is_err() {
        let sig = git2::Signature::now("Test Author", "test@example.com").expect("signature");
        let tree_id = repo.index().expect("index").write_tree().expect("write tree");
        let tree = repo.find_tree(tree_id).expect("find tree");
        repo.commit(Some("HEAD"), &sig, &sig, "Test commit", &tree, &[])
            .expect("commit");
    }
    repo
}

#[test]
fn test_get_remote_url_round_trip() {
    let repo = query_test_repo("/tmp/gfi_remote");
    if repo.find_remote("origin").is_err() {
        repo.remote("origin", "git@github.com:someone/something.git").expect("add remote");
    }
    let url = get_remote_url(&repo).expect("remote url");
    assert_eq!(url, "git@github.com:someone/something.git");
}

#[test]
fn test_get_remote_url_missing_remote() {
    let repo = query_test_repo("/tmp/gfi_no_remote");
    match get_remote_url(&repo) {
        Err(GitError::NotFound(_)) | Err(GitError::Store(_)) => {}
        other => panic!("expected a failure without an origin remote, got {:?}", other),
    }
}

#[test]
fn test_get_remote_url_empty_url_fails() {
    let repo = query_test_repo("/tmp/gfi_empty_remote");
    repo.config()
        .expect("config")
        .set_str("remote.origin.url", "")
        .expect("set empty url");
    assert!(get_remote_url(&repo).is_err());
}

#[test]
fn test_get_head_ref_on_branch() {
    let repo = query_test_repo("/tmp/gfi_branch_head");
    let head = get_head_ref(&repo).expect("head ref");
    assert!(!head.is_empty());
    assert!(head == "master" || head == "main" || head.len() == 40);
}

#[test]
fn test_list_refs_includes_branch() {
    let repo = query_test_repo("/tmp/gfi_refs");
    let refs = list_refs(&repo).expect("refs");
    assert!(!refs.is_empty());
    assert!(refs.iter().any(|r| r.starts_with("refs/heads/")));
}

#[test]
fn test_get_file_status_clean() {
    let repo = query_test_repo("/tmp/gfi_status_repo");
    let status = get_file_status(&repo, "absent.txt").expect("status");
    assert_eq!(status, "clean");
}

#[test]
fn test_get_file_status_nul_path_is_typed_failure() {
    let repo = query_test_repo("/tmp/gfi_nul_path");
    match get_file_status(&repo, "a\0b") {
        Err(GitError::InvalidPath(m)) => assert!(m.contains("NUL")),
        other => panic!("expected InvalidPath for a NUL path, got {:?}", other),
    }
}

#[test]
fn test_error_messages_carry_input() {
    let unsupported = GitError::UnsupportedFormat("weird://x".to_string());
    assert_eq!(unsupported.message(), "Unsupported remote URL format: weird://x");

    let malformed = GitError::MalformedReference("zzz".to_string());
    assert_eq!(malformed.message(), "Malformed object reference: zzz");

    let not_bound = GitError::NotBound;
    assert_eq!(not_bound.message(), "Repository not found. Call find_repository first.");

    let store = GitError::Store("boom".to_string());
    assert_eq!(store.message(), "boom");

    let not_found = GitError::NotFound("No .git directory found".to_string());
    assert_eq!(not_found.message(), "No .git directory found");

    let invalid = GitError::InvalidPath("Cannot get parent directory".to_string());
    assert_eq!(invalid.message(), "Cannot get parent directory");
}
