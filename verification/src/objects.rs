//! Read-only projections of the object store's four record kinds — blob,
//! tree, commit and tag — and the lookups that produce them. A lookup
//! validates its reference before the store is consulted: a well-formed
//! reference is exactly 40 hexadecimal digits.

use vstd::prelude::*;

verus! {

use vstd::string::*;
use crate::errors::{GitError, map_store_error};
use crate::store;

/// Whether `c` is a hexadecimal digit.
pub open spec fn is_hex_digit(c: char) -> bool {
    ||| (48 <= c as u32 && c as u32 <= 57)
    ||| (97 <= c as u32 && c as u32 <= 102)
    ||| (65 <= c as u32 && c as u32 <= 70)
}

/// Whether `s` is a well-formed object reference: exactly 40 hex digits.
pub open spec fn is_well_formed_ref(s: Seq<char>) -> bool {
    s.len() == 40 && forall|i: int| 0 <= i < s.len() ==> is_hex_digit(s[i])
}

/// Whether `c` is a lowercase hexadecimal digit.
pub open spec fn is_lower_hex_digit(c: char) -> bool {
    (48 <= c as u32 && c as u32 <= 57) || (97 <= c as u32 && c as u32 <= 102)
}

/// Whether `s` is an object reference in the store's canonical form:
/// exactly 40 lowercase hex digits.
pub open spec fn is_canonical_ref(s: Seq<char>) -> bool {
    s.len() == 40 && forall|i: int| 0 <= i < s.len() ==> is_lower_hex_digit(s[i])
}

/// An uppercase hex digit folded to lowercase; every other character kept.
pub open spec fn lower_hex_char(c: char) -> char {
    if c == 'A' {
        'a'
    } else if c == 'B' {
        'b'
    } else if c == 'C' {
        'c'
    } else if c == 'D' {
        'd'
    } else if c == 'E' {
        'e'
    } else if c == 'F' {
        'f'
    } else {
        c
    }
}

/// `s` with every uppercase hex digit folded to lowercase: the canonical
/// form in which the store prints the reference `s` names.
pub open spec fn lower_hex_of(s: Seq<char>) -> Seq<char> {
    s.map_values(|c: char| lower_hex_char(c))
}

/// Decides whether `s` is a well-formed object reference.
pub fn check_ref(s: &str) -> (r: bool)
    ensures
        r == is_well_formed_ref(s@),
{
    let n: usize = s.unicode_len();
    if n != 40 {
        return false;
    }
    let mut i: usize = 0;
    while i < n
        invariant
            n == s@.len(),
            i <= n,
            forall|j: int| 0 <= j < i ==> is_hex_digit(s@[j]),
        decreases n - i,
    {
        let v: u32 = s.get_char(i) as u32;
        if !((48 <= v && v <= 57) || (97 <= v && v <= 102) || (65 <= v && v <= 70)) {
            return false;
        }
        i = i + 1;
    }
    true
}

/// The stored text, or empty where the store reported none.
fn or_empty(s: Option<String>) -> (r: String)
    ensures
        r@ == match s {
            Some(t) => t@,
            None => Seq::<char>::empty(),
        },
{
    match s {
        Some(t) => t,
        None => String::new(),
    }
}

/// A read-only projection of a stored blob.
#[derive(Debug, Clone)]
pub struct GitBlob {
    pub id: String,
    pub size: usize,
    pub is_binary: bool,
}

impl GitBlob {
    /// The blob's identifier.
    pub fn id(&self) -> (r: String)
        ensures
            r@ == self.id@,
    {
        self.id.clone()
    }

    /// The blob's size in bytes.
    pub fn size(&self) -> (r: usize)
        ensures
            r == self.size,
    {
        self.size
    }

    /// Whether the store classifies the blob's content as binary.
    pub fn is_binary(&self) -> (r: bool)
        ensures
            r == self.is_binary,
    {
        self.is_binary
    }

    /// Builds a projection directly from its fields.
    pub fn new_test(id: String, size: usize, is_binary: bool) -> (r: Self)
        ensures
            r.id@ == id@,
            r.size == size,
            r.is_binary == is_binary,
    {
        GitBlob { id, size, is_binary }
    }
}

/// A read-only projection of a stored tree.
#[derive(Debug, Clone)]
pub struct GitTree {
    pub id: String,
    pub len: usize,
}

impl GitTree {
    /// The tree's identifier.
    pub fn id(&self) -> (r: String)
        ensures
            r@ == self.id@,
    {
        self.id.clone()
    }

    /// The number of entries the tree holds.
    pub fn len(&self) -> (r: usize)
        ensures
            r == self.len,
    {
        self.len
    }

    /// Builds a projection directly from its fields.
    pub fn new_test(id: String, len: usize) -> (r: Self)
        ensures
            r.id@ == id@,
            r.len == len,
    {
        GitTree { id, len }
    }
}

/// A read-only projection of a stored commit.
#[derive(Debug, Clone)]
pub struct GitCommit {
    pub id: String,
    pub message: String,
    pub author_name: String,
    pub author_email: String,
    pub time: i64,
    pub tree_id: String,
    pub parent_ids: Vec<String>,
}

impl GitCommit {
    /// The commit's identifier.
    pub fn id(&self) -> (r: String)
        ensures
            r@ == self.id@,
    {
        self.id.clone()
    }

    /// The commit's message, empty where the store reported none.
    pub fn message(&self) -> (r: String)
        ensures
            r@ == self.message@,
    {
        self.message.clone()
    }

    /// The author's name, empty where the store reported none.
    pub fn author_name(&self) -> (r: String)
        ensures
            r@ == self.author_name@,
    {
        self.author_name.clone()
    }

    /// The author's email, empty where the store reported none.
    pub fn author_email(&self) -> (r: String)
        ensures
            r@ == self.author_email@,
    {
        self.author_email.clone()
    }

    /// The commit time in seconds since the epoch.
    pub fn time(&self) -> (r: i64)
        ensures
            r == self.time,
    {
        self.time
    }

    /// The identifier of the commit's tree.
    pub fn tree_id(&self) -> (r: String)
        ensures
            r@ == self.tree_id@,
    {
        self.tree_id.clone()
    }

    /// The identifiers of the commit's parents, in order.
    pub fn parent_ids(&self) -> (r: Vec<String>)
        ensures
            r@.len() == self.parent_ids@.len(),
            forall|j: int| 0 <= j < r@.len() ==> r@[j]@ == self.parent_ids@[j]@,
    {
        let mut out: Vec<String> = Vec::new();
        let mut i: usize = 0;
        while i < self.parent_ids.len()
            invariant
                i <= self.parent_ids@.len(),
                out@.len() == i,
                forall|j: int| 0 <= j < i ==> out@[j]@ == self.parent_ids@[j]@,
            decreases self.parent_ids@.len() - i,
        {
            out.push(self.parent_ids[i].clone());
            i = i + 1;
        }
        out
    }

    /// Builds a projection directly from its fields.
    pub fn new_test(
        id: String,
        message: String,
        author_name: String,
        author_email: String,
        time: i64,
        tree_id: String,
        parent_ids: Vec<String>,
    ) -> (r: Self)
        ensures
            r.id@ == id@,
            r.message@ == message@,
            r.author_name@ == author_name@,
            r.author_email@ == author_email@,
            r.time == time,
            r.tree_id@ == tree_id@,
            r.parent_ids == parent_ids,
    {
        GitCommit { id, message, author_name, author_email, time, tree_id, parent_ids }
    }
}

/// A read-only projection of a stored annotated tag.
#[derive(Debug, Clone)]
pub struct GitTag {
    pub id: String,
    pub name: String,
    pub message: String,
    pub target_id: String,
}

impl GitTag {
    /// The tag's identifier.
    pub fn id(&self) -> (r: String)
        ensures
            r@ == self.id@,
    {
        self.id.clone()
    }

    /// The tag's name, empty where the store reported none.
    pub fn name(&self) -> (r: String)
        ensures
            r@ == self.name@,
    {
        self.name.clone()
    }

    /// The tag's message, empty where the store reported none.
    pub fn message(&self) -> (r: String)
        ensures
            r@ == self.message@,
    {
        self.message.clone()
    }

    /// The identifier of the object the tag points at.
    pub fn target_id(&self) -> (r: String)
        ensures
            r@ == self.target_id@,
    {
        self.target_id.clone()
    }

    /// Builds a projection directly from its fields.
    pub fn new_test(id: String, name: String, message: String, target_id: String) -> (r: Self)
        ensures
            r.id@ == id@,
            r.name@ == name@,
            r.message@ == message@,
            r.target_id@ == target_id@,
    {
        GitTag { id, name, message, target_id }
    }
}

/// Looks up the blob at `hash`. A malformed reference is rejected before the
/// store is consulted; a well-formed one fails only where the store fails,
/// and the returned id is the canonical lowercase form of `hash`.
pub fn get_blob(repo: &git2::Repository, hash: &str) -> (r: Result<GitBlob, GitError>)
    ensures
        match r {
            Ok(b) => is_well_formed_ref(hash@) && b.id@ == lower_hex_of(hash@),
            Err(e) => match e {
                GitError::MalformedReference(h) => h@ == hash@ && !is_well_formed_ref(hash@),
                GitError::NotFound(_) => is_well_formed_ref(hash@),
                GitError::Store(_) => is_well_formed_ref(hash@),
                _ => false,
            },
        },
{
    if !check_ref(hash) {
        return Err(GitError::MalformedReference(String::from_str(hash)));
    }
    match store::blob_info(repo, hash) {
        Ok(info) => Ok(GitBlob { id: info.0, size: info.1, is_binary: info.2 }),
        Err(e) => Err(map_store_error(e)),
    }
}

/// Looks up the tree at `hash`, with the same validation and canonical-id
/// guarantee as `get_blob`.
pub fn get_tree(repo: &git2::Repository, hash: &str) -> (r: Result<GitTree, GitError>)
    ensures
        match r {
            Ok(t) => is_well_formed_ref(hash@) && t.id@ == lower_hex_of(hash@),
            Err(e) => match e {
                GitError::MalformedReference(h) => h@ == hash@ && !is_well_formed_ref(hash@),
                GitError::NotFound(_) => is_well_formed_ref(hash@),
                GitError::Store(_) => is_well_formed_ref(hash@),
                _ => false,
            },
        },
{
    if !check_ref(hash) {
        return Err(GitError::MalformedReference(String::from_str(hash)));
    }
    match store::tree_info(repo, hash) {
        Ok(info) => Ok(GitTree { id: info.0, len: info.1 }),
        Err(e) => Err(map_store_error(e)),
    }
}

/// Looks up the commit at `hash`, with the same validation and canonical-id
/// guarantee as `get_blob`; text fields the store reported as absent come
/// back empty, and tree and parent ids are canonical references.
pub fn get_commit(repo: &git2::Repository, hash: &str) -> (r: Result<GitCommit, GitError>)
    ensures
        match r {
            Ok(c) => {
                &&& is_well_formed_ref(hash@)
                &&& c.id@ == lower_hex_of(hash@)
                &&& is_canonical_ref(c.tree_id@)
                &&& forall|i: int| 0 <= i < c.parent_ids@.len()
                    ==> is_canonical_ref(#[trigger] c.parent_ids@[i]@)
            },
            Err(e) => match e {
                GitError::MalformedReference(h) => h@ == hash@ && !is_well_formed_ref(hash@),
                GitError::NotFound(_) => is_well_formed_ref(hash@),
                GitError::Store(_) => is_well_formed_ref(hash@),
                _ => false,
            },
        },
{
    if !check_ref(hash) {
        return Err(GitError::MalformedReference(String::from_str(hash)));
    }
    match store::commit_info(repo, hash) {
        Ok(raw) => Ok(
            GitCommit {
                id: raw.id,
                message: or_empty(raw.message),
                author_name: or_empty(raw.author_name),
                author_email: or_empty(raw.author_email),
                time: raw.time,
                tree_id: raw.tree_id,
                parent_ids: raw.parent_ids,
            },
        ),
        Err(e) => Err(map_store_error(e)),
    }
}

/// Looks up the annotated tag at `hash`, with the same validation and
/// canonical-id guarantee as `get_blob`; text fields the store reported as
/// absent come back empty, and the target id is a canonical reference.
pub fn get_tag(repo: &git2::Repository, hash: &str) -> (r: Result<GitTag, GitError>)
    ensures
        match r {
            Ok(t) => {
                &&& is_well_formed_ref(hash@)
                &&& t.id@ == lower_hex_of(hash@)
                &&& is_canonical_ref(t.target_id@)
            },
            Err(e) => match e {
                GitError::MalformedReference(h) => h@ == hash@ && !is_well_formed_ref(hash@),
                GitError::NotFound(_) => is_well_formed_ref(hash@),
                GitError::Store(_) => is_well_formed_ref(hash@),
                _ => false,
            },
        },
{
    if !check_ref(hash) {
        return Err(GitError::MalformedReference(String::from_str(hash)));
    }
    match store::tag_info(repo, hash) {
        Ok(info) => Ok(
            GitTag {
                id: info.0,
                name: or_empty(info.1),
                message: or_empty(info.2),
                target_id: info.3,
            },
        ),
        Err(e) => Err(map_store_error(e)),
    }
}

} // verus!
