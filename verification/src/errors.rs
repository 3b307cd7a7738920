//! The library's failure taxonomy. Every component reports a typed failure
//! instead of panicking, and the facade surfaces failures verbatim.

use vstd::prelude::*;

verus! {

use vstd::string::*;

/// Every failure the library can report.
#[derive(Debug, Clone, PartialEq)]
pub enum GitError {
    /// A repository root or a stored object was not found; carries a
    /// description of what was missing.
    NotFound(String),
    /// The input path gives no directory to start a search from.
    InvalidPath(String),
    /// The remote URL matches neither supported syntax; carries the input.
    UnsupportedFormat(String),
    /// An object reference is not a well-formed 40-digit hex string;
    /// carries the input.
    MalformedReference(String),
    /// An operation was invoked before `find_repository` bound a root.
    NotBound,
    /// A failure surfaced by the underlying object store; carries its message.
    Store(String),
}

/// The characters of the message that `GitError::message` returns.
pub open spec fn error_message_spec(e: GitError) -> Seq<char> {
    match e {
        GitError::NotFound(d) => d@,
        GitError::InvalidPath(d) => d@,
        GitError::UnsupportedFormat(u) => "Unsupported remote URL format: "@ + u@,
        GitError::MalformedReference(h) => "Malformed object reference: "@ + h@,
        GitError::NotBound => "Repository not found. Call find_repository first."@,
        GitError::Store(m) => m@,
    }
}

impl GitError {
    /// A human-readable description of the failure, with the offending input
    /// where one was recorded.
    pub fn message(&self) -> (r: String)
        ensures
            r@ == error_message_spec(*self),
    {
        match self {
            GitError::NotFound(d) => d.clone(),
            GitError::InvalidPath(d) => d.clone(),
            GitError::UnsupportedFormat(u) => String::from_str(
                "Unsupported remote URL format: ",
            ).concat(u.as_str()),
            GitError::MalformedReference(h) => String::from_str(
                "Malformed object reference: ",
            ).concat(h.as_str()),
            GitError::NotBound => String::from_str(
                "Repository not found. Call find_repository first.",
            ),
            GitError::Store(m) => m.clone(),
        }
    }
}

/// Translates a failure of the object store into the library's taxonomy: a
/// not-found code becomes `NotFound`, everything else passes through as a
/// `Store` failure with the store's own message.
pub fn map_store_error(e: git2::Error) -> (r: GitError)
    ensures
        r matches GitError::NotFound(_) || r matches GitError::Store(_),
{
    let msg = crate::store::error_message(&e);
    if crate::store::error_is_not_found(&e) {
        GitError::NotFound(msg)
    } else {
        GitError::Store(msg)
    }
}

} // verus!
