use git_file_id::GitError;
use git_file_id::GitFileId;
use git_file_id::repository::classify_file_status;

fn facade_test_repo(path: &str) -> git2::Repository {
    let repo = git2::Repository::init(path).expect("Failed to init repository");
    if repo.head().is_err() {
        let sig = git2::Signature::now("Test Author", "test@example.com").expect("signature");
        let tree_id = repo.index().expect("index").write_tree().expect("write tree");
        let tree = repo.find_tree(tree_id).expect("find tree");
        repo.commit(Some("HEAD"), &sig, &sig, "Test commit", &tree, &[])
            .expect("commit");
    }
    repo
}

#[test]
fn test_git_file_id_creation() {
    let git_file_id = GitFileId { repo_path: None };
    assert!(git_file_id.repo_path.is_none());
}

#[test]
fn test_git_file_id_with_path() {
    let git_file_id = GitFileId {
        repo_path: Some("/test/path".to_string()),
    };
    assert!(git_file_id.repo_path.is_some());
    assert_eq!(git_file_id.repo_path.unwrap(), "/test/path".to_string());
}

#[test]
fn test_unbound_operations_fail_not_bound() {
    let facade = GitFileId::new();
    assert!(matches!(facade.generate_github_url("x"), Err(GitError::NotBound)));
    assert!(matches!(facade.get_file_hash("x"), Err(GitError::NotBound)));
    assert!(matches!(facade.get_blob("x"), Err(GitError::NotBound)));
    assert!(matches!(facade.get_tree("x"), Err(GitError::NotBound)));
    assert!(matches!(facade.get_commit("x"), Err(GitError::NotBound)));
    assert!(matches!(facade.get_tag("x"), Err(GitError::NotBound)));
    assert!(matches!(facade.list_refs(), Err(GitError::NotBound)));
    assert!(matches!(facade.get_file_status("x"), Err(GitError::NotBound)));
    assert!(matches!(facade.get_head_ref(), Err(GitError::NotBound)));
    let msg = GitError::NotBound.message();
    assert!(msg.contains("find_repository"));
}

#[test]
fn test_unbound_native_listing_reports_message() {
    let facade = GitFileId::new_native();
    match facade.list_refs_native() {
        Err(m) => assert!(m.contains("find_repository")),
        Ok(_) => panic!("expected an error on an unbound facade"),
    }
}

#[test]
fn test_find_repository_binds_root() {
    facade_test_repo("/tmp/gfi_bind");
    let mut facade = GitFileId::new();
    facade.find_repository("/tmp/gfi_bind").expect("bind");
    assert_eq!(facade.repo_path, Some("/tmp/gfi_bind".to_string()));
}

#[test]
fn test_find_repository_failure_keeps_state() {
    let mut facade = GitFileId::new();
    assert!(facade.find_repository("/tmp").is_err());
    assert!(facade.repo_path.is_none());
}

#[test]
fn test_bound_facade_head_and_refs() {
    facade_test_repo("/tmp/gfi_head");
    let mut facade = GitFileId::new();
    facade.find_repository("/tmp/gfi_head").expect("bind");

    let head = facade.get_head_ref().expect("head ref");
    assert!(!head.is_empty());

    let refs = facade.list_refs().expect("refs");
    assert!(refs.iter().any(|r| r.contains("HEAD") || r.contains("main") || r.contains("master")));

    let refs_native = facade.list_refs_native().expect("refs native");
    assert_eq!(refs, refs_native);
}

#[test]
fn test_bound_facade_file_hash_is_full_commit_id() {
    let repo = facade_test_repo("/tmp/gfi_hash");
    let head_id = repo.head().expect("HEAD").peel_to_commit().expect("commit").id().to_string();
    let mut facade = GitFileId::new();
    facade.find_repository("/tmp/gfi_hash").expect("bind");

    let hash = facade.get_file_hash("/tmp/gfi_hash/.git").expect("hash");
    assert_eq!(hash.len(), 40);
    assert_eq!(hash, head_id);

    match facade.get_file_hash("/tmp/gfi_hash/absent.txt") {
        Err(GitError::NotFound(m)) => assert!(m.contains("File does not exist")),
        other => panic!("expected NotFound, got {:?}", other),
    }
}

#[test]
fn test_bound_facade_generates_url() {
    let repo = facade_test_repo("/tmp/gfi_url");
    if repo.find_remote("origin").is_err() {
        repo.remote("origin", "git@github.com:user/repo.git").expect("add remote");
    }
    let head_id = repo.head().expect("HEAD").peel_to_commit().expect("commit").id().to_string();

    let mut facade = GitFileId::new();
    facade.find_repository("/tmp/gfi_url").expect("bind");
    let url = facade.generate_github_url("/tmp/gfi_url/.git").expect("url");
    let expected = format!("https://github.com/user/repo/blob/{}/.git", head_id);
    assert_eq!(url, expected);
}

#[test]
fn test_bound_facade_remote_and_store_error() {
    let facade = GitFileId {
        repo_path: Some("/tmp".to_string()),
    };
    match facade.get_head_ref() {
        Err(GitError::Store(_)) | Err(GitError::NotFound(_)) => {}
        other => panic!("expected a store-side failure, got {:?}", other),
    }
}

#[test]
fn test_bound_facade_malformed_reference() {
    facade_test_repo("/tmp/gfi_badref");
    let mut facade = GitFileId::new();
    facade.find_repository("/tmp/gfi_badref").expect("bind");
    assert!(matches!(facade.get_blob("nope"), Err(GitError::MalformedReference(_))));
    assert!(matches!(facade.get_tag("nope"), Err(GitError::MalformedReference(_))));
}

#[test]
fn test_file_status_clean_when_no_entries() {
    facade_test_repo("/tmp/gfi_status");
    let mut facade = GitFileId::new();
    facade.find_repository("/tmp/gfi_status").expect("bind");
    let status = facade.get_file_status("absent.txt").expect("status");
    assert_eq!(status, "clean");
}

#[test]
fn test_status_precedence_order() {
    const INDEX_NEW: u32 = 1;
    const INDEX_MODIFIED: u32 = 2;
    const INDEX_DELETED: u32 = 4;
    const WT_NEW: u32 = 128;
    const WT_MODIFIED: u32 = 256;

    assert_eq!(classify_file_status(&vec![]), "clean");
    assert_eq!(classify_file_status(&vec![WT_NEW | WT_MODIFIED | INDEX_NEW]), "untracked");
    assert_eq!(classify_file_status(&vec![WT_MODIFIED | INDEX_NEW | INDEX_MODIFIED]), "modified");
    assert_eq!(classify_file_status(&vec![INDEX_NEW | INDEX_MODIFIED | INDEX_DELETED]), "added");
    assert_eq!(classify_file_status(&vec![INDEX_MODIFIED | INDEX_DELETED]), "staged");
    assert_eq!(classify_file_status(&vec![INDEX_DELETED]), "deleted");
    assert_eq!(classify_file_status(&vec![8]), "unknown");
}

#[test]
fn test_generate_github_url_direct_unsupported_remote() {
    let repo = facade_test_repo("/tmp/gfi_direct_bad");
    if repo.find_remote("origin").is_err() {
        repo.remote("origin", "ssh://example.com/elsewhere.git").expect("add remote");
    }
    match git_file_id::generate_github_url_direct("/tmp/gfi_direct_bad/.git") {
        Err(GitError::UnsupportedFormat(u)) => assert_eq!(u, "ssh://example.com/elsewhere.git"),
        other => panic!("expected UnsupportedFormat, got {:?}", other),
    }
}

#[test]
fn test_generate_github_url_direct_complete() {
    let repo = facade_test_repo("/tmp/gfi_direct_ok");
    if repo.find_remote("origin").is_err() {
        repo.remote("origin", "https://github.com/direct/okrepo.git").expect("add remote");
    }
    let head_id = repo.head().expect("HEAD").peel_to_commit().expect("commit").id().to_string();
    let url = git_file_id::generate_github_url_direct("/tmp/gfi_direct_ok/.git").expect("url");
    let expected = format!("https://github.com/direct/okrepo/blob/{}/.git", head_id);
    assert_eq!(url, expected);
}
