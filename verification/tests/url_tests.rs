use git_file_id::url_builder::{
    GitHubInfo, build_github_url, generate_github_url, normalize_file_path, parse_remote_url,
};
use git_file_id::GitError;

#[test]
fn test_parse_ssh_url() {
    let url = "git@github.com:user/repo.git";
    let info = parse_remote_url(url).unwrap();
    assert_eq!(info.owner, "user");
    assert_eq!(info.repo, "repo");
}

#[test]
fn test_parse_ssh_url_without_git_extension() {
    let url = "git@github.com:owner/repository";
    let info = parse_remote_url(url).unwrap();
    assert_eq!(info.owner, "owner");
    assert_eq!(info.repo, "repository");
}

#[test]
fn test_parse_https_url() {
    let url = "https://github.com/user/repo.git";
    let info = parse_remote_url(url).unwrap();
    assert_eq!(info.owner, "user");
    assert_eq!(info.repo, "repo");
}

#[test]
fn test_parse_http_url() {
    let url = "http://github.com/myuser/myrepo.git";
    let info = parse_remote_url(url).unwrap();
    assert_eq!(info.owner, "myuser");
    assert_eq!(info.repo, "myrepo");
}

#[test]
fn test_parse_invalid_url() {
    let url = "not-a-github-url";
    let result = parse_remote_url(url);
    assert!(result.is_err());
    assert!(result.unwrap_err().message().contains("Unsupported remote URL format"));
}

#[test]
fn test_parse_invalid_url_variant() {
    let result = parse_remote_url("not-a-github-url");
    match result {
        Err(GitError::UnsupportedFormat(original)) => {
            assert_eq!(original, "not-a-github-url");
        }
        other => panic!("expected UnsupportedFormat, got {:?}", other),
    }
}

#[test]
fn test_parse_ssh_url_three_segments_fails() {
    assert!(parse_remote_url("git@github.com:a/b/c").is_err());
}

#[test]
fn test_parse_ssh_url_empty_segment_fails() {
    assert!(parse_remote_url("git@github.com:user/").is_err());
    assert!(parse_remote_url("git@github.com:/repo").is_err());
}

#[test]
fn test_parse_rejects_backslash_in_segments() {
    assert!(parse_remote_url("git@github.com:a\\b/repo").is_err());
    assert!(parse_remote_url("git@github.com:a/re\\po").is_err());
    assert!(parse_remote_url("https://github.com/a\\b/repo").is_err());
    assert!(parse_remote_url("https://github.com/user/re\\po.git").is_err());
    assert!(parse_remote_url("http://github.com/a\\b/repo").is_err());
}

#[test]
fn test_parse_https_url_single_segment_fails() {
    assert!(parse_remote_url("https://github.com/useronly").is_err());
}

#[test]
fn test_parse_https_url_extra_segments() {
    let info = parse_remote_url("https://github.com/user/repo/tree/main").unwrap();
    assert_eq!(info.owner, "user");
    assert_eq!(info.repo, "repo");
}

#[test]
fn test_parse_https_url_with_query_and_fragment() {
    let info = parse_remote_url("https://github.com/user/repo.git?tab=readme#top").unwrap();
    assert_eq!(info.owner, "user");
    assert_eq!(info.repo, "repo");
}

#[test]
fn test_normalize_file_path_absolute() {
    let path = "/src/main.rs";
    let normalized = normalize_file_path(path);
    assert_eq!(normalized, "src/main.rs");
}

#[test]
fn test_normalize_file_path_relative() {
    let path = "src/lib.rs";
    let normalized = normalize_file_path(path);
    assert_eq!(normalized, "src/lib.rs");
}

#[test]
fn test_normalize_file_path_with_backslashes() {
    let path = "src\\windows\\path.rs";
    let normalized = normalize_file_path(path);
    assert_eq!(normalized, "src/windows/path.rs");
}

#[test]
fn test_normalize_file_path_idempotent() {
    let once = normalize_file_path("\\\\mixed\\dir/file.rs");
    let twice = normalize_file_path(&once);
    assert_eq!(once, twice);
    assert_eq!(once, "mixed/dir/file.rs");
}

#[test]
fn test_build_github_url() {
    let info = GitHubInfo {
        owner: "taskforcesh".to_string(),
        repo: "bullmq".to_string(),
    };
    let url = build_github_url(&info, "bd8fbc164caaa01f665d0c7e94177d0584d04f8c", ".gitbook.yaml");
    assert_eq!(
        url,
        "https://github.com/taskforcesh/bullmq/blob/bd8fbc164caaa01f665d0c7e94177d0584d04f8c/.gitbook.yaml"
    );
}

#[test]
fn test_generate_github_url_complete() {
    let remote_url = "git@github.com:rust-lang/rust.git";
    let commit_hash = "abc123def456";
    let file_path = "src/main.rs";

    let url = generate_github_url(remote_url, commit_hash, file_path).unwrap();
    assert_eq!(
        url,
        "https://github.com/rust-lang/rust/blob/abc123def456/src/main.rs"
    );
}

#[test]
fn test_generate_github_url_normalizes_path() {
    let url = generate_github_url(
        "https://github.com/user/repo.git",
        "0123456789abcdef0123456789abcdef01234567",
        "/docs\\guide.md",
    )
    .unwrap();
    assert_eq!(
        url,
        "https://github.com/user/repo/blob/0123456789abcdef0123456789abcdef01234567/docs/guide.md"
    );
}

#[test]
fn test_url_parsing() {
    let ssh_url = "git@github.com:owner/repo.git";
    let info = parse_remote_url(ssh_url).expect("Failed to parse SSH URL");
    assert_eq!(info.owner, "owner");
    assert_eq!(info.repo, "repo");

    let https_url = "https://github.com/owner/repo.git";
    let info = parse_remote_url(https_url).expect("Failed to parse HTTPS URL");
    assert_eq!(info.owner, "owner");
    assert_eq!(info.repo, "repo");

    let invalid_url = "not-a-github-url";
    assert!(parse_remote_url(invalid_url).is_err());
}
