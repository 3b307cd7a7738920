//! The trusted boundary to the outside world: existence checks on the
//! filesystem and read-only queries against the git object store. Each
//! function here wraps one query of the `git2` crate (or of `std::path`)
//! and hands plain values to the verified code around it.

use vstd::prelude::*;

verus! {

use crate::objects::{is_canonical_ref, is_well_formed_ref, lower_hex_of};

#[verifier::external_type_specification]
#[verifier::external_body]
pub struct ExRepository(git2::Repository);

#[verifier::external_type_specification]
#[verifier::external_body]
pub struct ExError(git2::Error);

/// The raw fields of a commit record as the store reports them, before any
/// defaulting of absent text fields.
pub struct RawCommit {
    pub id: String,
    pub message: Option<String>,
    pub author_name: Option<String>,
    pub author_email: Option<String>,
    pub time: i64,
    pub tree_id: String,
    pub parent_ids: Vec<String>,
}

/// Relies on std::path::Path::is_file: whether `p` names an existing file.
/// The answer depends on the state of the disk, so nothing is promised of it.
#[verifier::external_body]
pub(crate) fn path_is_file(p: &str) -> bool {
    std::path::Path::new(p).is_file()
}

/// Relies on std::path::Path::exists: whether `p` exists on disk. The answer
/// depends on the state of the disk, so nothing is promised of it.
#[verifier::external_body]
pub(crate) fn path_exists(p: &str) -> bool {
    std::path::Path::new(p).exists()
}

/// Relies on git2::Repository::open: opens the repository whose working tree
/// sits at `path`.
#[verifier::external_body]
pub(crate) fn open_repository(path: &str) -> Result<git2::Repository, git2::Error> {
    git2::Repository::open(path)
}

/// Relies on git2::Repository::path: the repository's metadata directory.
#[verifier::external_body]
pub(crate) fn repo_metadata_dir(repo: &git2::Repository) -> String {
    repo.path().to_string_lossy().into_owned()
}

/// Relies on git2::Repository::find_remote and git2::Remote::url: the URL of
/// the remote called `name`.
#[verifier::external_body]
pub(crate) fn remote_url_of(repo: &git2::Repository, name: &str) -> Result<
    String,
    git2::Error,
> {
    Ok(repo.find_remote(name)?.url()?.to_string())
}

/// Relies on git2::Repository::head, git2::Reference::is_branch and
/// git2::Reference::shorthand: whether the current position names a branch,
/// and its short name where one exists.
#[verifier::external_body]
pub(crate) fn head_branch_shorthand(repo: &git2::Repository) -> Result<
    (bool, Option<String>),
    git2::Error,
> {
    let head = repo.head()?;
    Ok((head.is_branch(), head.shorthand().ok().map(|s| s.to_string())))
}

/// Relies on git2::Reference::peel_to_commit on git2::Repository::head: the
/// identifier of the commit currently checked out. An object id formats as
/// exactly 40 lowercase hex digits.
#[verifier::external_body]
pub(crate) fn head_commit_id(repo: &git2::Repository) -> (r: Result<String, git2::Error>)
    ensures
        r matches Ok(h) ==> is_canonical_ref(h@),
{
    let head = repo.head()?;
    Ok(head.peel_to_commit()?.id().to_string())
}

/// Relies on git2::Repository::references and git2::Reference::name: the
/// names of every reference, in the store's own iteration order; entries
/// that error or carry a non-UTF-8 name are skipped.
#[verifier::external_body]
pub(crate) fn reference_names(repo: &git2::Repository) -> Result<Vec<String>, git2::Error> {
    let refs = repo.references()?;
    Ok(refs.filter_map(|r| r.ok()).filter_map(|r| r.name().ok().map(|s| s.to_string())).collect())
}

/// Relies on git2::Repository::statuses with untracked files included,
/// ignored files excluded, and the pathspec limited to `path`: the raw
/// status bits of each reported entry, in the store's order. The pathspec
/// setter panics on a path holding a NUL character, so such paths are
/// excluded here and rejected by the caller beforehand.
#[verifier::external_body]
pub(crate) fn status_bits(repo: &git2::Repository, path: &str) -> Result<
    Vec<u32>,
    git2::Error,
>
    requires
        forall|i: int| 0 <= i < path@.len() ==> path@[i] != '\0',
{
    let mut opts = git2::StatusOptions::new();
    opts.include_untracked(true).include_ignored(false).pathspec(path);
    let statuses = repo.statuses(Some(&mut opts))?;
    Ok(statuses.iter().map(|e| e.status().bits()).collect())
}

/// Relies on git2::Oid::from_str and git2::Repository::find_blob: the id,
/// size and binary flag of the blob at `hex`. An object id formats as
/// exactly 40 lowercase hex digits, and a 40-digit hex input parses to the
/// id it spells, so the id comes back as the input's lowercase form.
#[verifier::external_body]
pub(crate) fn blob_info(repo: &git2::Repository, hex: &str) -> (r: Result<
    (String, usize, bool),
    git2::Error,
>)
    ensures
        r matches Ok(b) ==> is_canonical_ref(b.0@),
        is_well_formed_ref(hex@) ==> (r matches Ok(b) ==> b.0@ == lower_hex_of(hex@)),
{
    let oid = git2::Oid::from_str(hex)?;
    let blob = repo.find_blob(oid)?;
    Ok((blob.id().to_string(), blob.size(), blob.is_binary()))
}

/// Relies on git2::Oid::from_str and git2::Repository::find_tree: the id and
/// entry count of the tree at `hex`. An object id formats as exactly 40
/// lowercase hex digits, and a 40-digit hex input parses to the id it
/// spells, so the id comes back as the input's lowercase form.
#[verifier::external_body]
pub(crate) fn tree_info(repo: &git2::Repository, hex: &str) -> (r: Result<
    (String, usize),
    git2::Error,
>)
    ensures
        r matches Ok(t) ==> is_canonical_ref(t.0@),
        is_well_formed_ref(hex@) ==> (r matches Ok(t) ==> t.0@ == lower_hex_of(hex@)),
{
    let oid = git2::Oid::from_str(hex)?;
    let tree = repo.find_tree(oid)?;
    Ok((tree.id().to_string(), tree.len()))
}

/// Relies on git2::Oid::from_str and git2::Repository::find_commit, with the
/// commit's field accessors: the raw record of the commit at `hex`. Object
/// ids format as exactly 40 lowercase hex digits, and a 40-digit hex input
/// parses to the id it spells, so the commit's own id comes back as the
/// input's lowercase form.
#[verifier::external_body]
pub(crate) fn commit_info(repo: &git2::Repository, hex: &str) -> (r: Result<
    RawCommit,
    git2::Error,
>)
    ensures
        r matches Ok(c) ==> {
            &&& is_canonical_ref(c.id@)
            &&& is_canonical_ref(c.tree_id@)
            &&& forall|i: int| 0 <= i < c.parent_ids@.len()
                ==> is_canonical_ref(#[trigger] c.parent_ids@[i]@)
        },
        is_well_formed_ref(hex@) ==> (r matches Ok(c) ==> c.id@ == lower_hex_of(hex@)),
{
    let oid = git2::Oid::from_str(hex)?;
    let commit = repo.find_commit(oid)?;
    let author = commit.author();
    let raw = RawCommit {
        id: commit.id().to_string(),
        message: commit.message().ok().map(|s| s.to_string()),
        author_name: author.name().ok().map(|s| s.to_string()),
        author_email: author.email().ok().map(|s| s.to_string()),
        time: commit.time().seconds(),
        tree_id: commit.tree_id().to_string(),
        parent_ids: commit.parent_ids().map(|p| p.to_string()).collect(),
    };
    Ok(raw)
}

/// Relies on git2::Oid::from_str and git2::Repository::find_tag, with the
/// tag's field accessors: the id, name, message and target id of the tag at
/// `hex`. Object ids format as exactly 40 lowercase hex digits, and a
/// 40-digit hex input parses to the id it spells, so the tag's own id comes
/// back as the input's lowercase form.
#[verifier::external_body]
pub(crate) fn tag_info(repo: &git2::Repository, hex: &str) -> (r: Result<
    (String, Option<String>, Option<String>, String),
    git2::Error,
>)
    ensures
        r matches Ok(t) ==> is_canonical_ref(t.0@) && is_canonical_ref(t.3@),
        is_well_formed_ref(hex@) ==> (r matches Ok(t) ==> t.0@ == lower_hex_of(hex@)),
{
    let oid = git2::Oid::from_str(hex)?;
    let tag = repo.find_tag(oid)?;
    Ok((
        tag.id().to_string(),
        tag.name().ok().map(|s| s.to_string()),
        tag.message().ok().flatten().map(|s| s.to_string()),
        tag.target_id().to_string(),
    ))
}

/// Relies on git2::Repository::find_commit, git2::Commit::tree,
/// git2::Tree::get_path and git2::TreeEntry::id: the id of the tree entry at
/// `file_path` in the tree of the commit at `commit_hex`. An object id
/// formats as exactly 40 lowercase hex digits.
#[verifier::external_body]
pub(crate) fn tree_entry_id(
    repo: &git2::Repository,
    commit_hex: &str,
    file_path: &str,
) -> (r: Result<String, git2::Error>)
    ensures
        r matches Ok(h) ==> is_canonical_ref(h@),
{
    let oid = git2::Oid::from_str(commit_hex)?;
    let commit = repo.find_commit(oid)?;
    let tree = commit.tree()?;
    let entry = tree.get_path(std::path::Path::new(file_path))?;
    Ok(entry.id().to_string())
}

/// Relies on git2::Error::message: the store's description of a failure.
#[verifier::external_body]
pub(crate) fn error_message(e: &git2::Error) -> String {
    e.message().to_string()
}

/// Relies on git2::Error::code: whether the failure says that something was
/// not found.
#[verifier::external_body]
pub(crate) fn error_is_not_found(e: &git2::Error) -> bool {
    e.code() == git2::ErrorCode::NotFound
}

} // verus!
