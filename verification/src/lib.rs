//! Resolves, for a file inside a git working tree, a stable web URL pointing
//! at that file's content as of the commit currently checked out, and exposes
//! read-only queries against the repository's object store.
//!
//! The core is the resolution pipeline: locating the enclosing repository
//! root from an arbitrary path, extracting the remote identity (owner and
//! repository name) from SSH- or HTTPS-style remote URLs, normalizing file
//! paths, and composing the final URL. Calls into the underlying object
//! store go through the small trusted boundary in `store`.

pub mod errors;
pub mod facade;
pub mod objects;
pub mod paths;
pub mod repository;
pub mod store;
pub mod strings;
pub mod url_builder;

pub use errors::GitError;
pub use facade::GitFileId;
pub use facade::generate_github_url_direct;
pub use objects::{GitBlob, GitCommit, GitTag, GitTree, get_blob, get_commit, get_tag, get_tree};
pub use paths::find_root_in_chain;
pub use repository::{
    find_git_root, get_current_branch_commit_for_file, get_file_hash_at_commit, get_file_status,
    get_head_ref, get_remote_url, list_refs,
};
pub use url_builder::{
    GitHubInfo, build_github_url, generate_github_url, normalize_file_path, parse_remote_url,
};
