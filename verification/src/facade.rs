//! The orchestrating facade. A `GitFileId` starts unbound; `find_repository`
//! binds it to the enclosing repository root, and every other operation
//! requires that binding and fails with `NotBound` without it.

use vstd::prelude::*;

verus! {

use vstd::string::*;
use crate::errors::{GitError, error_message_spec, map_store_error};
use crate::objects::{
    GitBlob, GitCommit, GitTag, GitTree, is_canonical_ref, is_well_formed_ref, lower_hex_of,
};
use crate::objects;
use crate::paths::{is_ancestor_or_self, parent_dir_spec, rel_path_spec};
use crate::paths;
use crate::repository;
use crate::store;
use crate::strings::find_first;
use crate::url_builder::{github_url_spec, lemma_parse_identity_well_formed};
use crate::url_builder;

/// The facade over one resolved repository root. Its only state is the bound
/// root: `None` while unbound, `Some` after a successful `find_repository`.
pub struct GitFileId {
    pub repo_path: Option<String>,
}

impl GitFileId {
    /// A facade with no repository bound yet.
    pub fn new() -> (r: Self)
        ensures
            r.repo_path is None,
    {
        GitFileId { repo_path: None }
    }

    /// A facade with no repository bound yet; alias of `new` for callers
    /// outside any binding layer.
    pub fn new_native() -> (r: Self)
        ensures
            r.repo_path is None,
    {
        GitFileId { repo_path: None }
    }

    /// Binds the facade to the nearest repository root enclosing
    /// `file_path`. On success the bound root is an ancestor of the path (or
    /// the path itself); on failure the facade keeps its previous binding
    /// and reports exactly what root discovery reported.
    pub fn find_repository(&mut self, file_path: &str) -> (r: Result<(), GitError>)
        ensures
            match r {
                Ok(_) => match final(self).repo_path {
                    Some(root) => is_ancestor_or_self(root@, file_path@),
                    None => false,
                },
                Err(e) => {
                    &&& *final(self) == *old(self)
                    &&& {
                        ||| e matches GitError::NotFound(m) && m@
                            == "No .git directory found"@
                        ||| e matches GitError::InvalidPath(m) && m@
                            == "Cannot get parent directory"@
                    }
                    &&& e matches GitError::InvalidPath(_) ==> parent_dir_spec(file_path@)
                        is None
                },
            },
    {
        match repository::find_git_root(file_path) {
            Ok(root) => {
                self.repo_path = Some(root);
                Ok(())
            },
            Err(e) => Err(e),
        }
    }

    /// Generates the web URL for `file_path` at the commit currently checked
    /// out. The URL is composed from some remote identity and commit
    /// reference over the path of `file_path` relative to the bound root.
    pub fn generate_github_url(&self, file_path: &str) -> (r: Result<String, GitError>)
        ensures
            self.repo_path is None <==> r matches Err(GitError::NotBound),
            match r {
                Ok(u) => match self.repo_path {
                    Some(root) => exists|o: Seq<char>, re: Seq<char>, h: Seq<char>|
                        {
                            &&& o.len() > 0 && re.len() > 0
                            &&& find_first(o, '/') == -1 && find_first(re, '/') == -1
                            &&& find_first(o, '\\') == -1 && find_first(re, '\\') == -1
                            &&& is_canonical_ref(h)
                            &&& u@ == github_url_spec(
                                o,
                                re,
                                h,
                                rel_path_spec(file_path@, root@),
                            )
                        },
                    None => false,
                },
                Err(e) => {
                    ||| e matches GitError::NotBound
                    ||| e matches GitError::NotFound(_)
                    ||| e matches GitError::Store(_)
                    ||| e matches GitError::UnsupportedFormat(_)
                },
            },
    {
        let root = match &self.repo_path {
            None => {
                return Err(GitError::NotBound);
            },
            Some(root) => root,
        };
        let repo = match store::open_repository(root.as_str()) {
            Ok(repo) => repo,
            Err(e) => {
                return Err(map_store_error(e));
            },
        };
        let remote_url = match repository::get_remote_url(&repo) {
            Ok(u) => u,
            Err(e) => {
                return Err(e);
            },
        };
        let commit_hash = match repository::get_current_branch_commit_for_file(
            &repo,
            file_path,
        ) {
            Ok(h) => h,
            Err(e) => {
                return Err(e);
            },
        };
        let relative = paths::relative_to_root(file_path, root.as_str());
        match url_builder::generate_github_url(
            remote_url.as_str(),
            commit_hash.as_str(),
            relative.as_str(),
        ) {
            Ok(u) => {
                proof {
                    match crate::url_builder::parse_remote_spec(remote_url@) {
                        Some(p) => {
                            lemma_parse_identity_well_formed(remote_url@);
                            assert(u@ == github_url_spec(
                                p.0,
                                p.1,
                                commit_hash@,
                                rel_path_spec(file_path@, root@),
                            ));
                        },
                        None => {},
                    }
                }
                Ok(u)
            },
            Err(e) => Err(e),
        }
    }

    /// The identifier of the commit that reflects the current branch's view
    /// of `file_path`; the file must exist under the bound root.
    pub fn get_file_hash(&self, file_path: &str) -> (r: Result<String, GitError>)
        ensures
            self.repo_path is None <==> r matches Err(GitError::NotBound),
            match r {
                Ok(h) => is_canonical_ref(h@),
                Err(e) => {
                    ||| e matches GitError::NotBound
                    ||| e matches GitError::NotFound(_)
                    ||| e matches GitError::Store(_)
                },
            },
    {
        match &self.repo_path {
            None => Err(GitError::NotBound),
            Some(root) => match store::open_repository(root.as_str()) {
                Ok(repo) => repository::get_current_branch_commit_for_file(&repo, file_path),
                Err(e) => Err(map_store_error(e)),
            },
        }
    }

    /// The blob projection at `hash`.
    pub fn get_blob(&self, hash: &str) -> (r: Result<GitBlob, GitError>)
        ensures
            self.repo_path is None <==> r matches Err(GitError::NotBound),
            match r {
                Ok(b) => is_well_formed_ref(hash@) && b.id@ == lower_hex_of(hash@),
                Err(e) => {
                    ||| e matches GitError::NotBound
                    ||| e matches GitError::MalformedReference(_)
                    ||| e matches GitError::NotFound(_)
                    ||| e matches GitError::Store(_)
                },
            },
            self.repo_path is Some && !is_well_formed_ref(hash@) ==> (r matches Err(
                GitError::MalformedReference(h),
            ) && h@ == hash@),
    {
        match &self.repo_path {
            None => Err(GitError::NotBound),
            Some(root) => {
                if !crate::objects::check_ref(hash) {
                    return Err(GitError::MalformedReference(String::from_str(hash)));
                }
                match store::open_repository(root.as_str()) {
                    Ok(repo) => objects::get_blob(&repo, hash),
                    Err(e) => Err(map_store_error(e)),
                }
            },
        }
    }

    /// The tree projection at `hash`.
    pub fn get_tree(&self, hash: &str) -> (r: Result<GitTree, GitError>)
        ensures
            self.repo_path is None <==> r matches Err(GitError::NotBound),
            match r {
                Ok(t) => is_well_formed_ref(hash@) && t.id@ == lower_hex_of(hash@),
                Err(e) => {
                    ||| e matches GitError::NotBound
                    ||| e matches GitError::MalformedReference(_)
                    ||| e matches GitError::NotFound(_)
                    ||| e matches GitError::Store(_)
                },
            },
            self.repo_path is Some && !is_well_formed_ref(hash@) ==> (r matches Err(
                GitError::MalformedReference(h),
            ) && h@ == hash@),
    {
        match &self.repo_path {
            None => Err(GitError::NotBound),
            Some(root) => {
                if !crate::objects::check_ref(hash) {
                    return Err(GitError::MalformedReference(String::from_str(hash)));
                }
                match store::open_repository(root.as_str()) {
                    Ok(repo) => objects::get_tree(&repo, hash),
                    Err(e) => Err(map_store_error(e)),
                }
            },
        }
    }

    /// The commit projection at `hash`.
    pub fn get_commit(&self, hash: &str) -> (r: Result<GitCommit, GitError>)
        ensures
            self.repo_path is None <==> r matches Err(GitError::NotBound),
            match r {
                Ok(c) => is_well_formed_ref(hash@) && c.id@ == lower_hex_of(hash@)
                    && is_canonical_ref(c.tree_id@),
                Err(e) => {
                    ||| e matches GitError::NotBound
                    ||| e matches GitError::MalformedReference(_)
                    ||| e matches GitError::NotFound(_)
                    ||| e matches GitError::Store(_)
                },
            },
            self.repo_path is Some && !is_well_formed_ref(hash@) ==> (r matches Err(
                GitError::MalformedReference(h),
            ) && h@ == hash@),
    {
        match &self.repo_path {
            None => Err(GitError::NotBound),
            Some(root) => {
                if !crate::objects::check_ref(hash) {
                    return Err(GitError::MalformedReference(String::from_str(hash)));
                }
                match store::open_repository(root.as_str()) {
                    Ok(repo) => objects::get_commit(&repo, hash),
                    Err(e) => Err(map_store_error(e)),
                }
            },
        }
    }

    /// The tag projection at `hash`.
    pub fn get_tag(&self, hash: &str) -> (r: Result<GitTag, GitError>)
        ensures
            self.repo_path is None <==> r matches Err(GitError::NotBound),
            match r {
                Ok(t) => is_well_formed_ref(hash@) && t.id@ == lower_hex_of(hash@)
                    && is_canonical_ref(t.target_id@),
                Err(e) => {
                    ||| e matches GitError::NotBound
                    ||| e matches GitError::MalformedReference(_)
                    ||| e matches GitError::NotFound(_)
                    ||| e matches GitError::Store(_)
                },
            },
            self.repo_path is Some && !is_well_formed_ref(hash@) ==> (r matches Err(
                GitError::MalformedReference(h),
            ) && h@ == hash@),
    {
        match &self.repo_path {
            None => Err(GitError::NotBound),
            Some(root) => {
                if !crate::objects::check_ref(hash) {
                    return Err(GitError::MalformedReference(String::from_str(hash)));
                }
                match store::open_repository(root.as_str()) {
                    Ok(repo) => objects::get_tag(&repo, hash),
                    Err(e) => Err(map_store_error(e)),
                }
            },
        }
    }

    /// Every named reference known to the repository, in store order.
    pub fn list_refs(&self) -> (r: Result<Vec<String>, GitError>)
        ensures
            self.repo_path is None <==> r matches Err(GitError::NotBound),
            match r {
                Ok(_) => true,
                Err(e) => {
                    ||| e matches GitError::NotBound
                    ||| e matches GitError::NotFound(_)
                    ||| e matches GitError::Store(_)
                },
            },
    {
        match &self.repo_path {
            None => Err(GitError::NotBound),
            Some(root) => match store::open_repository(root.as_str()) {
                Ok(repo) => repository::list_refs(&repo),
                Err(e) => Err(map_store_error(e)),
            },
        }
    }

    /// Every named reference, with failures rendered as plain messages.
    pub fn list_refs_native(&self) -> (r: Result<Vec<String>, String>)
        ensures
            self.repo_path is None ==> r is Err,
            match r {
                Ok(_) => self.repo_path is Some,
                Err(m) => self.repo_path is None ==> m@ == error_message_spec(
                    GitError::NotBound,
                ),
            },
    {
        match self.list_refs() {
            Ok(names) => Ok(names),
            Err(e) => Err(e.message()),
        }
    }

    /// The status label of `file_path`, one of `clean`, `untracked`,
    /// `modified`, `added`, `staged`, `deleted` or `unknown`.
    pub fn get_file_status(&self, file_path: &str) -> (r: Result<String, GitError>)
        ensures
            self.repo_path is None <==> r matches Err(GitError::NotBound),
            match r {
                Ok(s) => {
                    ||| s@ == "clean"@
                    ||| s@ == "untracked"@
                    ||| s@ == "modified"@
                    ||| s@ == "added"@
                    ||| s@ == "staged"@
                    ||| s@ == "deleted"@
                    ||| s@ == "unknown"@
                },
                Err(e) => {
                    ||| e matches GitError::NotBound
                    ||| e matches GitError::InvalidPath(_)
                    ||| e matches GitError::NotFound(_)
                    ||| e matches GitError::Store(_)
                },
            },
    {
        match &self.repo_path {
            None => Err(GitError::NotBound),
            Some(root) => match store::open_repository(root.as_str()) {
                Ok(repo) => repository::get_file_status(&repo, file_path),
                Err(e) => Err(map_store_error(e)),
            },
        }
    }

    /// The current head: a branch's short name, or the full commit
    /// identifier when the position is detached.
    pub fn get_head_ref(&self) -> (r: Result<String, GitError>)
        ensures
            self.repo_path is None <==> r matches Err(GitError::NotBound),
            match r {
                Ok(_) => true,
                Err(e) => {
                    ||| e matches GitError::NotBound
                    ||| e matches GitError::NotFound(_)
                    ||| e matches GitError::Store(_)
                },
            },
    {
        match &self.repo_path {
            None => Err(GitError::NotBound),
            Some(root) => match store::open_repository(root.as_str()) {
                Ok(repo) => repository::get_head_ref(&repo),
                Err(e) => Err(map_store_error(e)),
            },
        }
    }
}

/// Resolves the root enclosing `file_path` and generates its web URL in one
/// step, without keeping a bound facade.
pub fn generate_github_url_direct(file_path: &str) -> (r: Result<String, GitError>)
    ensures
        match r {
            Ok(u) => exists|o: Seq<char>, re: Seq<char>, h: Seq<char>, root: Seq<char>|
                {
                    &&& is_ancestor_or_self(root, file_path@)
                    &&& o.len() > 0 && re.len() > 0
                    &&& find_first(o, '/') == -1 && find_first(re, '/') == -1
                    &&& find_first(o, '\\') == -1 && find_first(re, '\\') == -1
                    &&& is_canonical_ref(h)
                    &&& u@ == github_url_spec(o, re, h, rel_path_spec(file_path@, root))
                },
            Err(e) => {
                &&& {
                    ||| e matches GitError::NotFound(_)
                    ||| e matches GitError::InvalidPath(_)
                    ||| e matches GitError::Store(_)
                    ||| e matches GitError::UnsupportedFormat(_)
                }
                &&& (e matches GitError::InvalidPath(m) ==> (m@
                    == "Cannot get parent directory"@ && parent_dir_spec(file_path@)
                    is None))
            },
        },
{
    let root = match repository::find_git_root(file_path) {
        Ok(root) => root,
        Err(e) => {
            return Err(e);
        },
    };
    let repo = match store::open_repository(root.as_str()) {
        Ok(repo) => repo,
        Err(e) => {
            return Err(map_store_error(e));
        },
    };
    let remote_url = match repository::get_remote_url(&repo) {
        Ok(u) => u,
        Err(e) => {
            return Err(e);
        },
    };
    let commit_hash = match repository::get_current_branch_commit_for_file(&repo, file_path) {
        Ok(h) => h,
        Err(e) => {
            return Err(e);
        },
    };
    let relative = paths::relative_to_root(file_path, root.as_str());
    match url_builder::generate_github_url(
        remote_url.as_str(),
        commit_hash.as_str(),
        relative.as_str(),
    ) {
        Ok(u) => {
            proof {
                match crate::url_builder::parse_remote_spec(remote_url@) {
                    Some(p) => {
                        lemma_parse_identity_well_formed(remote_url@);
                        assert(is_ancestor_or_self(root@, file_path@) && u@
                            == github_url_spec(
                            p.0,
                            p.1,
                            commit_hash@,
                            rel_path_spec(file_path@, root@),
                        ));
                    },
                    None => {},
                }
            }
            Ok(u)
        },
        Err(e) => Err(e),
    }
}

} // verus!
