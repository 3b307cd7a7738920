//! Repository-level queries: locating the enclosing repository root on disk
//! and read-only questions against an opened repository — remote URL, current
//! commit, reference names, working-tree status and head reference.

use vstd::prelude::*;

verus! {

use vstd::string::*;
use crate::errors::{GitError, map_store_error};
use crate::objects::{check_ref, is_canonical_ref, is_well_formed_ref};
use crate::paths;
use crate::paths::{ancestor_chain, is_ancestor_or_self, lemma_chain_unfold, parent_dir_spec};
use crate::store;
use crate::strings::{find_char, find_first, lemma_find_first};

/// Index-level flag: the entry is new in the index.
pub const STATUS_INDEX_NEW: u32 = 1;

/// Index-level flag: the entry is modified in the index.
pub const STATUS_INDEX_MODIFIED: u32 = 2;

/// Index-level flag: the entry is deleted in the index.
pub const STATUS_INDEX_DELETED: u32 = 4;

/// Working-tree flag: the entry is new in the working tree (untracked).
pub const STATUS_WT_NEW: u32 = 128;

/// Working-tree flag: the entry is modified in the working tree.
pub const STATUS_WT_MODIFIED: u32 = 256;

/// Walks the ancestors of `start_path`, beginning at its parent when it
/// names a file, and returns the nearest directory that holds the repository
/// metadata marker `.git` as a direct child.
pub fn find_git_root(start_path: &str) -> (r: Result<String, GitError>)
    ensures
        match r {
            Ok(root) => is_ancestor_or_self(root@, start_path@),
            Err(e) => {
                &&& {
                    ||| e matches GitError::NotFound(m) && m@ == "No .git directory found"@
                    ||| e matches GitError::InvalidPath(m) && m@
                        == "Cannot get parent directory"@
                }
                &&& e matches GitError::InvalidPath(_) ==> parent_dir_spec(start_path@)
                    is None
            },
        },
{
    let ghost whole: Seq<char> = start_path@;
    let start_dir: String = if store::path_is_file(start_path) {
        match paths::parent_dir(start_path) {
            Some(p) => p,
            None => {
                return Err(
                    GitError::InvalidPath(String::from_str("Cannot get parent directory")),
                );
            },
        }
    } else {
        String::from_str(start_path)
    };
    proof {
        lemma_chain_unfold(whole);
        assert(ancestor_chain(start_dir@).is_suffix_of(ancestor_chain(whole)));
    }
    let dirs = paths::ancestors_of(start_dir.as_str());
    let mut marked: Vec<bool> = Vec::new();
    let mut i: usize = 0;
    while i < dirs.len()
        invariant
            i <= dirs@.len(),
            marked@.len() == i,
        decreases dirs@.len() - i,
    {
        let probe = paths::join_path(dirs[i].as_str(), ".git");
        marked.push(store::path_exists(probe.as_str()));
        i = i + 1;
    }
    match paths::find_root_in_chain(&dirs, &marked) {
        Some(idx) => {
            proof {
                assert(ancestor_chain(start_dir@)[idx as int] == dirs@[idx as int]@);
                assert(ancestor_chain(start_dir@).contains(dirs@[idx as int]@));
                lemma_suffix_contains(
                    ancestor_chain(start_dir@),
                    ancestor_chain(whole),
                    dirs@[idx as int]@,
                );
            }
            Ok(dirs[idx].clone())
        },
        None => Err(GitError::NotFound(String::from_str("No .git directory found"))),
    }
}

/// Whatever a suffix contains, the whole sequence contains.
proof fn lemma_suffix_contains(a: Seq<Seq<char>>, b: Seq<Seq<char>>, x: Seq<char>)
    requires
        a.is_suffix_of(b),
        a.contains(x),
    ensures
        b.contains(x),
{
    let i = choose|i: int| 0 <= i < a.len() && a[i] == x;
    assert(b[b.len() - a.len() + i] == a[i]);
}

/// The URL of the remote named `origin`, as the store reports it; a remote
/// whose URL is unset is reported as a store failure, never as an empty URL.
pub fn get_remote_url(repo: &git2::Repository) -> (r: Result<String, GitError>)
    ensures
        match r {
            Ok(u) => u@.len() > 0,
            Err(e) => e matches GitError::NotFound(_) || e matches GitError::Store(_),
        },
{
    match store::remote_url_of(repo, "origin") {
        Ok(u) => {
            if u.as_str().unicode_len() == 0 {
                Err(GitError::Store(String::from_str("Remote URL not found")))
            } else {
                Ok(u)
            }
        },
        Err(e) => Err(map_store_error(e)),
    }
}

/// The identifier of the commit currently checked out, provided `file_path`
/// exists under the repository's working tree; the identifier is always the
/// canonical 40-digit lowercase hex form.
pub fn get_current_branch_commit_for_file(repo: &git2::Repository, file_path: &str) -> (r:
    Result<String, GitError>)
    ensures
        match r {
            Ok(h) => is_canonical_ref(h@),
            Err(e) => e matches GitError::NotFound(_) || e matches GitError::Store(_),
        },
{
    let commit_id = match store::head_commit_id(repo) {
        Ok(h) => h,
        Err(e) => {
            return Err(map_store_error(e));
        },
    };
    let meta = store::repo_metadata_dir(repo);
    let workdir = match paths::parent_dir(meta.as_str()) {
        Some(p) => p,
        None => {
            return Err(GitError::Store(String::from_str("Cannot get repository path")));
        },
    };
    let full = paths::join_path(workdir.as_str(), file_path);
    if !store::path_exists(full.as_str()) {
        return Err(
            GitError::NotFound(String::from_str("File does not exist: ").concat(file_path)),
        );
    }
    Ok(commit_id)
}

/// The identifier of the blob that `file_path` has in the tree of the commit
/// `commit_hash`; the reference is validated before the store is consulted.
pub fn get_file_hash_at_commit(
    repo: &git2::Repository,
    file_path: &str,
    commit_hash: &str,
) -> (r: Result<String, GitError>)
    ensures
        match r {
            Ok(h) => is_well_formed_ref(commit_hash@) && is_canonical_ref(h@),
            Err(e) => match e {
                GitError::MalformedReference(h) => h@ == commit_hash@ && !is_well_formed_ref(
                    commit_hash@,
                ),
                GitError::NotFound(_) => is_well_formed_ref(commit_hash@),
                GitError::Store(_) => is_well_formed_ref(commit_hash@),
                _ => false,
            },
        },
{
    if !check_ref(commit_hash) {
        return Err(GitError::MalformedReference(String::from_str(commit_hash)));
    }
    match store::tree_entry_id(repo, commit_hash, file_path) {
        Ok(h) => Ok(h),
        Err(e) => Err(map_store_error(e)),
    }
}

/// Every named reference known to the repository, in store-reported order.
pub fn list_refs(repo: &git2::Repository) -> (r: Result<Vec<String>, GitError>)
    ensures
        match r {
            Ok(_) => true,
            Err(e) => e matches GitError::NotFound(_) || e matches GitError::Store(_),
        },
{
    match store::reference_names(repo) {
        Ok(names) => Ok(names),
        Err(e) => Err(map_store_error(e)),
    }
}

/// The status label of a single set of status flags, by falling precedence:
/// working-tree flags before index flags, and `unknown` when no recognized
/// flag is set.
pub open spec fn status_label_spec(bits: u32) -> Seq<char> {
    if bits & STATUS_WT_NEW != 0 {
        "untracked"@
    } else if bits & STATUS_WT_MODIFIED != 0 {
        "modified"@
    } else if bits & STATUS_INDEX_NEW != 0 {
        "added"@
    } else if bits & STATUS_INDEX_MODIFIED != 0 {
        "staged"@
    } else if bits & STATUS_INDEX_DELETED != 0 {
        "deleted"@
    } else {
        "unknown"@
    }
}

/// The status label of a file given every status entry the store reported
/// for it: `clean` when there is none, else the label of the first entry.
pub open spec fn file_status_spec(entries: Seq<u32>) -> Seq<char> {
    if entries.len() == 0 {
        "clean"@
    } else {
        status_label_spec(entries[0])
    }
}

/// Classifies the status entries that the store reported for one file.
pub fn classify_file_status(entries: &Vec<u32>) -> (r: String)
    ensures
        r@ == file_status_spec(entries@),
{
    if entries.len() == 0 {
        return String::from_str("clean");
    }
    let bits = entries[0];
    if bits & STATUS_WT_NEW != 0 {
        String::from_str("untracked")
    } else if bits & STATUS_WT_MODIFIED != 0 {
        String::from_str("modified")
    } else if bits & STATUS_INDEX_NEW != 0 {
        String::from_str("added")
    } else if bits & STATUS_INDEX_MODIFIED != 0 {
        String::from_str("staged")
    } else if bits & STATUS_INDEX_DELETED != 0 {
        String::from_str("deleted")
    } else {
        String::from_str("unknown")
    }
}

/// When several flags hold of one entry at once, the working-tree flags win
/// over the index flags, in the order untracked, modified, added, staged,
/// deleted; no pending entries at all is clean.
pub proof fn lemma_status_precedence(bits: u32)
    ensures
        bits & STATUS_WT_NEW != 0 ==> status_label_spec(bits) == "untracked"@,
        bits & STATUS_WT_NEW == 0 && bits & STATUS_WT_MODIFIED != 0 ==> status_label_spec(bits)
            == "modified"@,
        bits & STATUS_WT_NEW == 0 && bits & STATUS_WT_MODIFIED == 0 && bits & STATUS_INDEX_NEW
            != 0 ==> status_label_spec(bits) == "added"@,
        bits & STATUS_WT_NEW == 0 && bits & STATUS_WT_MODIFIED == 0 && bits & STATUS_INDEX_NEW
            == 0 && bits & STATUS_INDEX_MODIFIED != 0 ==> status_label_spec(bits) == "staged"@,
        bits & STATUS_WT_NEW == 0 && bits & STATUS_WT_MODIFIED == 0 && bits & STATUS_INDEX_NEW
            == 0 && bits & STATUS_INDEX_MODIFIED == 0 && bits & STATUS_INDEX_DELETED != 0
            ==> status_label_spec(bits) == "deleted"@,
        file_status_spec(Seq::<u32>::empty()) == "clean"@,
{
}

/// The working-tree status of `file_path`, as one of the labels `clean`,
/// `untracked`, `modified`, `added`, `staged`, `deleted` or `unknown`. A
/// path holding a NUL character is rejected before the store is consulted:
/// no repository path may hold one.
pub fn get_file_status(repo: &git2::Repository, file_path: &str) -> (r: Result<
    String,
    GitError,
>)
    ensures
        match r {
            Ok(s) => {
                &&& find_first(file_path@, '\0') == -1
                &&& {
                    ||| s@ == "clean"@
                    ||| s@ == "untracked"@
                    ||| s@ == "modified"@
                    ||| s@ == "added"@
                    ||| s@ == "staged"@
                    ||| s@ == "deleted"@
                    ||| s@ == "unknown"@
                }
            },
            Err(e) => match e {
                GitError::InvalidPath(_) => find_first(file_path@, '\0') != -1,
                GitError::NotFound(_) => find_first(file_path@, '\0') == -1,
                GitError::Store(_) => find_first(file_path@, '\0') == -1,
                _ => false,
            },
        },
{
    match find_char(file_path, '\0') {
        Some(_) => {
            return Err(GitError::InvalidPath(String::from_str(
                "File path contains a NUL character",
            )));
        },
        None => {},
    }
    proof {
        lemma_find_first(file_path@, '\0');
    }
    match store::status_bits(repo, file_path) {
        Ok(entries) => Ok(classify_file_status(&entries)),
        Err(e) => Err(map_store_error(e)),
    }
}

/// The short name a branch head presents, or `HEAD` where the store reports
/// no short name.
pub fn branch_short_label(shorthand: Option<String>) -> (r: String)
    ensures
        r@ == match shorthand {
            Some(s) => s@,
            None => "HEAD"@,
        },
{
    match shorthand {
        Some(s) => s,
        None => String::from_str("HEAD"),
    }
}

/// The current head: a branch's short name where the current position names
/// a branch, otherwise the full identifier of the checked-out commit.
pub fn get_head_ref(repo: &git2::Repository) -> (r: Result<String, GitError>)
    ensures
        match r {
            Ok(_) => true,
            Err(e) => e matches GitError::NotFound(_) || e matches GitError::Store(_),
        },
{
    match store::head_branch_shorthand(repo) {
        Err(e) => Err(map_store_error(e)),
        Ok((is_branch, shorthand)) => {
            if is_branch {
                Ok(branch_short_label(shorthand))
            } else {
                match store::head_commit_id(repo) {
                    Ok(id) => Ok(id),
                    Err(e) => Err(map_store_error(e)),
                }
            }
        },
    }
}

} // verus!
