use git_file_id::objects::{GitBlob, GitCommit, GitTag, GitTree, get_blob, get_commit, get_tree};
use git_file_id::repository::get_file_hash_at_commit;
use git_file_id::GitError;

fn object_test_repo(path: &str) -> git2::Repository {
    let repo = git2::Repository::init(path).expect("Failed to init repository");
    if repo.head().is_err() {
        let sig = git2::Signature::now("Test Author", "test@example.com").expect("signature");
        let tree_id = repo.index().expect("index").write_tree().expect("write tree");
        let tree = repo.find_tree(tree_id).expect("find tree");
        repo.commit(Some("HEAD"), &sig, &sig, "Test commit", &tree, &[])
            .expect("commit");
    }
    repo
}

#[test]
fn test_git_blob_creation() {
    let blob = GitBlob::new_test("test123".to_string(), 100, false);

    assert_eq!(blob.id(), "test123");
    assert_eq!(blob.size(), 100);
    assert_eq!(blob.is_binary(), false);
}

#[test]
fn test_git_tree_creation() {
    let tree = GitTree::new_test("tree456".to_string(), 5);

    assert_eq!(tree.id(), "tree456");
    assert_eq!(tree.len(), 5);
}

#[test]
fn test_git_commit_creation() {
    let commit = GitCommit::new_test(
        "commit789".to_string(),
        "Test commit".to_string(),
        "Test Author".to_string(),
        "test@example.com".to_string(),
        1234567890,
        "tree123".to_string(),
        vec!["parent1".to_string(), "parent2".to_string()],
    );

    assert_eq!(commit.id(), "commit789");
    assert_eq!(commit.message(), "Test commit");
    assert_eq!(commit.author_name(), "Test Author");
    assert_eq!(commit.author_email(), "test@example.com");
    assert_eq!(commit.time(), 1234567890);
    assert_eq!(commit.tree_id(), "tree123");
    assert_eq!(commit.parent_ids(), vec!["parent1", "parent2"]);
}

#[test]
fn test_git_tag_creation() {
    let tag = GitTag::new_test(
        "tag999".to_string(),
        "v1.0.0".to_string(),
        "Release version 1.0.0".to_string(),
        "target123".to_string(),
    );

    assert_eq!(tag.id(), "tag999");
    assert_eq!(tag.name(), "v1.0.0");
    assert_eq!(tag.message(), "Release version 1.0.0");
    assert_eq!(tag.target_id(), "target123");
}

#[test]
fn test_get_commit_from_repo() {
    let repo = object_test_repo("/tmp/gfi_objects");
    let head = repo.head().expect("Failed to get HEAD");
    let head_commit = head.peel_to_commit().expect("Failed to get commit");
    let commit_id = head_commit.id().to_string();

    let git_commit = get_commit(&repo, &commit_id).expect("Failed to get commit");

    assert_eq!(git_commit.id(), commit_id);
    assert!(!git_commit.message().is_empty() || git_commit.message() == "");
    assert_eq!(git_commit.tree_id(), head_commit.tree_id().to_string());
}

#[test]
fn test_invalid_oid() {
    let repo = object_test_repo("/tmp/gfi_invalid_oid");

    let result = get_blob(&repo, "invalid_hash");
    assert!(result.is_err());

    let result = get_tree(&repo, "invalid_hash");
    assert!(result.is_err());

    let result = get_commit(&repo, "invalid_hash");
    assert!(result.is_err());
}

#[test]
fn test_malformed_reference_variant() {
    let repo = object_test_repo("/tmp/gfi_malformed");
    match get_blob(&repo, "invalid_hash") {
        Err(GitError::MalformedReference(h)) => assert_eq!(h, "invalid_hash"),
        other => panic!("expected MalformedReference, got {:?}", other),
    }
    match get_blob(&repo, "0123456789abcdef0123456789abcdef0123456") {
        Err(GitError::MalformedReference(_)) => {}
        other => panic!("expected MalformedReference for 39 digits, got {:?}", other),
    }
}

#[test]
fn test_missing_object_not_found() {
    let repo = object_test_repo("/tmp/gfi_missing_object");
    match get_blob(&repo, "0123456789abcdef0123456789abcdef01234567") {
        Err(GitError::NotFound(_)) => {}
        other => panic!("expected NotFound, got {:?}", other),
    }
}

#[test]
fn test_lookup_by_uppercase_hash_returns_canonical_id() {
    let repo = object_test_repo("/tmp/gfi_canonical");
    let head = repo.head().expect("HEAD");
    let head_commit = head.peel_to_commit().expect("commit");
    let lower_id = head_commit.id().to_string();
    let upper_id = lower_id.to_uppercase();

    let git_commit = get_commit(&repo, &upper_id).expect("get commit by uppercase hash");
    assert_eq!(git_commit.id(), lower_id);
}

#[test]
fn test_get_tree_from_repo() {
    let repo = object_test_repo("/tmp/gfi_tree_lookup");
    let head = repo.head().expect("HEAD");
    let head_commit = head.peel_to_commit().expect("commit");
    let tree_id = head_commit.tree_id().to_string();

    let tree = get_tree(&repo, &tree_id).expect("get tree");
    assert_eq!(tree.id(), tree_id);
    assert_eq!(tree.len(), 0);
}

#[test]
fn test_get_file_hash_at_commit_missing_file() {
    let repo = object_test_repo("/tmp/gfi_entry_lookup");
    let head_id = repo.head().expect("HEAD").peel_to_commit().expect("commit").id().to_string();

    match get_file_hash_at_commit(&repo, "absent.txt", &head_id) {
        Err(GitError::NotFound(_)) => {}
        other => panic!("expected NotFound, got {:?}", other),
    }
    match get_file_hash_at_commit(&repo, "absent.txt", "zzz") {
        Err(GitError::MalformedReference(_)) => {}
        other => panic!("expected MalformedReference, got {:?}", other),
    }
}
