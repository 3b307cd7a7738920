use git_file_id::find_root_in_chain;
use git_file_id::find_git_root;
use git_file_id::GitError;

#[test]
fn test_find_git_root_no_repo() {
    let result = find_git_root("/tmp");
    assert!(result.is_err());
    assert!(result.unwrap_err().message().contains("No .git directory found"));
}

#[test]
fn test_find_git_root_no_repo_variant() {
    match find_git_root("/tmp") {
        Err(GitError::NotFound(_)) => {}
        other => panic!("expected NotFound, got {:?}", other),
    }
}

#[test]
fn test_find_git_root_nested_picks_nearest() {
    let outer = "/tmp/gfi_nested_outer";
    let inner = "/tmp/gfi_nested_outer/inner";
    git2::Repository::init(outer).expect("init outer");
    git2::Repository::init(inner).expect("init inner");
    let root = find_git_root(inner).expect("find root");
    assert_eq!(root, inner);
}

#[test]
fn test_find_git_root_from_inside_tree() {
    let top = "/tmp/gfi_walkup";
    git2::Repository::init(top).expect("init repo");
    let root = find_git_root("/tmp/gfi_walkup/.git/HEAD").expect("find root");
    assert_eq!(root, top);
}

#[test]
fn test_find_root_in_chain_nearest() {
    let dirs: Vec<String> = vec![
        "/a/b/c".to_string(),
        "/a/b".to_string(),
        "/a".to_string(),
        "/".to_string(),
    ];
    let marked: Vec<bool> = vec![false, true, true, false];
    assert_eq!(find_root_in_chain(&dirs, &marked), Some(1));
}

#[test]
fn test_find_root_in_chain_self_is_nearest() {
    let dirs: Vec<String> = vec!["/a/b".to_string(), "/a".to_string(), "/".to_string()];
    let marked: Vec<bool> = vec![true, true, true];
    assert_eq!(find_root_in_chain(&dirs, &marked), Some(0));
}

#[test]
fn test_find_root_in_chain_none_marked() {
    let dirs: Vec<String> = vec!["/a/b".to_string(), "/a".to_string(), "/".to_string()];
    let marked: Vec<bool> = vec![false, false, false];
    assert_eq!(find_root_in_chain(&dirs, &marked), None);
}
