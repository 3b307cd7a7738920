//! Remote-URL parsing, path normalization, and web-URL composition.
//!
//! Two remote syntaxes are recognized: the SSH form
//! `git@github.com:owner/repo[.git]` and the HTTP(S) form
//! `http(s)://github.com/owner/repo[.git]`. Both yield an identity of
//! non-empty, separator-free owner and repository segments, from which the
//! canonical `https://github.com/owner/repo/blob/ref/path` URL is composed.

use vstd::prelude::*;

verus! {

use vstd::string::*;
use crate::errors::GitError;
use crate::strings::{find_char, find_char_from, find_first, has_prefix, has_suffix,
    lemma_find_first};

/// The remote identity extracted from a remote URL: repository owner and name.
#[derive(Debug, Clone)]
pub struct GitHubInfo {
    pub owner: String,
    pub repo: String,
}

/// The host-prefix token of an SSH-style remote URL.
pub open spec fn ssh_prefix() -> Seq<char> {
    "git@github.com:"@
}

/// The scheme-and-host prefix of an HTTPS-style remote URL.
pub open spec fn https_prefix() -> Seq<char> {
    "https://github.com/"@
}

/// The scheme-and-host prefix of an HTTP-style remote URL.
pub open spec fn http_prefix() -> Seq<char> {
    "http://github.com/"@
}

/// `s` with one trailing `.git` suffix removed, if present.
pub open spec fn strip_git_suffix(s: Seq<char>) -> Seq<char> {
    if ".git"@.is_suffix_of(s) {
        s.take(s.len() - ".git"@.len())
    } else {
        s
    }
}

/// Parses the remainder of an SSH-style remote after its host prefix:
/// strips a `.git` suffix, then requires exactly two non-empty
/// `/`-separated segments, neither holding a backslash separator.
pub open spec fn parse_ssh_rest(rest: Seq<char>) -> Option<(Seq<char>, Seq<char>)> {
    let stripped = strip_git_suffix(rest);
    let i = find_first(stripped, '/');
    if i <= 0 || i >= stripped.len() - 1 {
        None
    } else if find_first(stripped.skip(i + 1), '/') != -1 {
        None
    } else if find_first(stripped.take(i), '\\') != -1 || find_first(
        stripped.skip(i + 1),
        '\\',
    ) != -1 {
        None
    } else {
        Some((stripped.take(i), stripped.skip(i + 1)))
    }
}

/// `s` truncated at the first `?` or `#`, whichever comes first.
pub open spec fn cut_at_query_or_fragment(s: Seq<char>) -> Seq<char> {
    let q = find_first(s, '?');
    let h = find_first(s, '#');
    let ql = if q < 0 { s.len() as int } else { q };
    let hl = if h < 0 { s.len() as int } else { h };
    s.take(if ql <= hl { ql } else { hl })
}

/// Parses the path part of an HTTP(S)-style remote after its host prefix:
/// ignores any query or fragment, takes the first two path segments as owner
/// and repository, and strips a `.git` suffix from the repository segment.
/// Both resulting segments must be non-empty and free of backslash
/// separators.
pub open spec fn parse_http_path(rest: Seq<char>) -> Option<(Seq<char>, Seq<char>)> {
    let path = cut_at_query_or_fragment(rest);
    let i = find_first(path, '/');
    if i <= 0 {
        None
    } else {
        let owner = path.take(i);
        let rest2 = path.skip(i + 1);
        let j = find_first(rest2, '/');
        let seg1 = if j < 0 { rest2 } else { rest2.take(j) };
        let repo = strip_git_suffix(seg1);
        if repo.len() == 0 {
            None
        } else if find_first(owner, '\\') != -1 || find_first(repo, '\\') != -1 {
            None
        } else {
            Some((owner, repo))
        }
    }
}

/// The identity that a remote URL parses to, or `None` when the URL matches
/// neither supported syntax or its segments are not well formed.
pub open spec fn parse_remote_spec(s: Seq<char>) -> Option<(Seq<char>, Seq<char>)> {
    if ssh_prefix().is_prefix_of(s) {
        parse_ssh_rest(s.skip(ssh_prefix().len() as int))
    } else if https_prefix().is_prefix_of(s) {
        parse_http_path(s.skip(https_prefix().len() as int))
    } else if http_prefix().is_prefix_of(s) {
        parse_http_path(s.skip(http_prefix().len() as int))
    } else {
        None
    }
}

/// `s` with every backslash separator replaced by a forward slash.
pub open spec fn to_slashes(s: Seq<char>) -> Seq<char> {
    s.map_values(|c: char| if c == '\\' { '/' } else { c })
}

/// `s` with every leading forward slash removed.
pub open spec fn drop_leading_slashes(s: Seq<char>) -> Seq<char>
    decreases s.len(),
{
    if s.len() > 0 && s[0] == '/' {
        drop_leading_slashes(s.drop_first())
    } else {
        s
    }
}

/// The normal form of a file path: backslashes become forward slashes and
/// leading separators are removed.
pub open spec fn normalize_spec(s: Seq<char>) -> Seq<char> {
    drop_leading_slashes(to_slashes(s))
}

/// The composed web URL for an identity, a commit reference, and a file path.
pub open spec fn github_url_spec(
    owner: Seq<char>,
    repo: Seq<char>,
    commit: Seq<char>,
    path: Seq<char>,
) -> Seq<char> {
    "https://github.com/"@ + owner + "/"@ + repo + "/blob/"@ + commit + "/"@
        + normalize_spec(path)
}

/// `s` with one trailing `.git` suffix removed, if present.
fn strip_git_suffix_exec<'a>(s: &'a str) -> (r: &'a str)
    ensures
        r@ == strip_git_suffix(s@),
{
    let suf = ".git";
    if has_suffix(s, suf) {
        let n: usize = s.unicode_len();
        let k: usize = suf.unicode_len();
        let r = s.substring_char(0, n - k);
        assert(r@ =~= s@.take(s@.len() - ".git"@.len()));
        r
    } else {
        s
    }
}

/// Splits the remainder of an SSH-style remote into its identity.
fn parse_ssh_parts(rest: &str) -> (r: Option<GitHubInfo>)
    ensures
        match r {
            Some(info) => parse_ssh_rest(rest@) == Some((info.owner@, info.repo@)),
            None => parse_ssh_rest(rest@) is None,
        },
{
    let stripped = strip_git_suffix_exec(rest);
    let sn: usize = stripped.unicode_len();
    match find_char(stripped, '/') {
        None => None,
        Some(i) => {
            if i == 0 || i + 1 >= sn {
                None
            } else {
                let owner = stripped.substring_char(0, i);
                let repo = stripped.substring_char(i + 1, sn);
                assert(owner@ =~= stripped@.take(i as int));
                assert(repo@ =~= stripped@.skip(i as int + 1));
                match find_char(repo, '/') {
                    Some(_) => None,
                    None => {
                        if find_char(owner, '\\').is_some() || find_char(
                            repo,
                            '\\',
                        ).is_some() {
                            None
                        } else {
                            Some(
                                GitHubInfo {
                                    owner: String::from_str(owner),
                                    repo: String::from_str(repo),
                                },
                            )
                        }
                    },
                }
            }
        },
    }
}

/// Splits the path part of an HTTP(S)-style remote into its identity.
fn parse_http_parts(rest: &str) -> (r: Option<GitHubInfo>)
    ensures
        match r {
            Some(info) => parse_http_path(rest@) == Some((info.owner@, info.repo@)),
            None => parse_http_path(rest@) is None,
        },
{
    let n: usize = rest.unicode_len();
    let ql: usize = match find_char(rest, '?') {
        Some(x) => x,
        None => n,
    };
    let hl: usize = match find_char(rest, '#') {
        Some(x) => x,
        None => n,
    };
    let cut: usize = if ql <= hl {
        ql
    } else {
        hl
    };
    let path = rest.substring_char(0, cut);
    assert(path@ =~= cut_at_query_or_fragment(rest@));
    let pn: usize = path.unicode_len();
    match find_char(path, '/') {
        None => None,
        Some(i) => {
            if i == 0 {
                None
            } else {
                let owner = path.substring_char(0, i);
                let rest2 = path.substring_char(i + 1, pn);
                assert(owner@ =~= path@.take(i as int));
                assert(rest2@ =~= path@.skip(i as int + 1));
                let rn: usize = rest2.unicode_len();
                let seg1 = match find_char(rest2, '/') {
                    Some(j) => {
                        let t = rest2.substring_char(0, j);
                        assert(t@ =~= rest2@.take(
                            find_first(rest2@, '/'),
                        ));
                        t
                    },
                    None => rest2,
                };
                let repo = strip_git_suffix_exec(seg1);
                if repo.unicode_len() == 0 {
                    None
                } else if find_char(owner, '\\').is_some() || find_char(repo, '\\').is_some() {
                    None
                } else {
                    Some(
                        GitHubInfo {
                            owner: String::from_str(owner),
                            repo: String::from_str(repo),
                        },
                    )
                }
            }
        },
    }
}

/// Extracts the remote identity from a remote URL in either of the two
/// supported syntaxes; any other input is rejected, carrying the original
/// string for diagnostics.
pub fn parse_remote_url(remote_url: &str) -> (r: Result<GitHubInfo, GitError>)
    ensures
        match r {
            Ok(info) => parse_remote_spec(remote_url@) == Some((info.owner@, info.repo@)),
            Err(e) => {
                &&& parse_remote_spec(remote_url@) is None
                &&& e matches GitError::UnsupportedFormat(u) && u@ == remote_url@
            },
        },
{
    let ssh_pre = "git@github.com:";
    let https_pre = "https://github.com/";
    let http_pre = "http://github.com/";
    let n: usize = remote_url.unicode_len();
    if has_prefix(remote_url, ssh_pre) {
        let k: usize = ssh_pre.unicode_len();
        let rest = remote_url.substring_char(k, n);
        assert(rest@ =~= remote_url@.skip(ssh_prefix().len() as int));
        match parse_ssh_parts(rest) {
            Some(info) => Ok(info),
            None => Err(GitError::UnsupportedFormat(String::from_str(remote_url))),
        }
    } else if has_prefix(remote_url, https_pre) {
        let k: usize = https_pre.unicode_len();
        let rest = remote_url.substring_char(k, n);
        assert(rest@ =~= remote_url@.skip(https_prefix().len() as int));
        match parse_http_parts(rest) {
            Some(info) => Ok(info),
            None => Err(GitError::UnsupportedFormat(String::from_str(remote_url))),
        }
    } else if has_prefix(remote_url, http_pre) {
        let k: usize = http_pre.unicode_len();
        let rest = remote_url.substring_char(k, n);
        assert(rest@ =~= remote_url@.skip(http_prefix().len() as int));
        match parse_http_parts(rest) {
            Some(info) => Ok(info),
            None => Err(GitError::UnsupportedFormat(String::from_str(remote_url))),
        }
    } else {
        Err(GitError::UnsupportedFormat(String::from_str(remote_url)))
    }
}

/// Rewrites a file path to its normal form: at most one pass removes every
/// leading separator, and every backslash becomes a forward slash.
pub fn normalize_file_path(file_path: &str) -> (r: String)
    ensures
        r@ == normalize_spec(file_path@),
{
    let n: usize = file_path.unicode_len();
    let mut k: usize = 0;
    loop
        invariant
            n == file_path@.len(),
            k <= n,
            forall|j: int| 0 <= j < k ==> file_path@[j] == '/' || file_path@[j] == '\\',
        ensures
            k <= n,
            forall|j: int| 0 <= j < k ==> file_path@[j] == '/' || file_path@[j] == '\\',
            k == n || (file_path@[k as int] != '/' && file_path@[k as int] != '\\'),
        decreases n - k,
    {
        if k == n {
            break;
        }
        let c = file_path.get_char(k);
        if c != '/' && c != '\\' {
            break;
        }
        k = k + 1;
    }
    proof {
        lemma_drop_to_skip(file_path@, k as int);
    }
    let mut out = String::new();
    let mut p: usize = k;
    while p < n
        invariant
            n == file_path@.len(),
            k <= p <= n,
            out@ =~= to_slashes(file_path@.subrange(k as int, p as int)),
        decreases n - p,
    {
        match find_char_from(file_path, '\\', p) {
            Some(q) => {
                let seg = file_path.substring_char(p, q);
                out.append(seg);
                out.append("/");
                proof {
                    reveal_strlit("/");
                    assert(out@ =~= to_slashes(
                        file_path@.subrange(k as int, q as int + 1),
                    ));
                }
                p = q + 1;
            },
            None => {
                let seg = file_path.substring_char(p, n);
                out.append(seg);
                proof {
                    assert(out@ =~= to_slashes(
                        file_path@.subrange(k as int, n as int),
                    ));
                }
                p = n;
            },
        }
    }
    proof {
        assert(file_path@.subrange(k as int, n as int) =~= file_path@.skip(k as int));
    }
    out
}

/// Dropping the leading separators of `s` (after backslash conversion) is the
/// same as converting the remainder that starts at the first non-separator.
proof fn lemma_drop_to_skip(s: Seq<char>, k: int)
    requires
        0 <= k <= s.len(),
        forall|j: int| 0 <= j < k ==> s[j] == '/' || s[j] == '\\',
        k == s.len() || (s[k] != '/' && s[k] != '\\'),
    ensures
        normalize_spec(s) == to_slashes(s.skip(k)),
    decreases k,
{
    if k == 0 {
        if s.len() > 0 {
            assert(to_slashes(s)[0] == (if s[0] == '\\' { '/' } else { s[0] }));
        }
        assert(s.skip(0) =~= s);
        assert(drop_leading_slashes(to_slashes(s)) == to_slashes(s));
    } else {
        let rest = s.drop_first();
        assert(to_slashes(s)[0] == '/');
        assert(to_slashes(s).drop_first() =~= to_slashes(rest));
        assert(drop_leading_slashes(to_slashes(s)) == drop_leading_slashes(
            to_slashes(rest),
        ));
        lemma_drop_to_skip(rest, k - 1);
        assert(rest.skip(k - 1) =~= s.skip(k));
    }
}

/// The result of normalization holds no backslash and no leading slash.
pub proof fn lemma_normalize_normal_form(s: Seq<char>)
    ensures
        forall|i: int| 0 <= i < normalize_spec(s).len() ==> normalize_spec(s)[i] != '\\',
        normalize_spec(s).len() > 0 ==> normalize_spec(s)[0] != '/',
{
    lemma_drop_leading_form(to_slashes(s));
}

/// `drop_leading_slashes` keeps a suffix of its input and stops before a
/// non-slash head.
proof fn lemma_drop_leading_form(u: Seq<char>)
    ensures
        drop_leading_slashes(u).len() > 0 ==> drop_leading_slashes(u)[0] != '/',
        forall|i: int| 0 <= i < drop_leading_slashes(u).len()
            ==> exists|j: int| 0 <= j < u.len() && u[j] == #[trigger] drop_leading_slashes(u)[i],
    decreases u.len(),
{
    if u.len() > 0 && u[0] == '/' {
        lemma_drop_leading_form(u.drop_first());
        assert forall|i: int| 0 <= i < drop_leading_slashes(u).len()
            implies exists|j: int| 0 <= j < u.len() && u[j]
                == #[trigger] drop_leading_slashes(u)[i] by {
            let rest = u.drop_first();
            assert(drop_leading_slashes(u) == drop_leading_slashes(rest));
            let j0 = choose|j0: int| 0 <= j0 < rest.len() && rest[j0]
                == drop_leading_slashes(rest)[i];
            assert(u[j0 + 1] == rest[j0]);
        }
    }
}

/// Normalization is idempotent: normalizing an already-normal path is a no-op.
pub proof fn lemma_normalize_idempotent(s: Seq<char>)
    ensures
        normalize_spec(normalize_spec(s)) == normalize_spec(s),
{
    let t = normalize_spec(s);
    lemma_normalize_normal_form(s);
    assert(to_slashes(t) =~= t);
    if t.len() > 0 {
        assert(t[0] != '/');
    }
    assert(drop_leading_slashes(t) == t);
}

/// Composes the canonical web URL from an identity, a commit reference, and a
/// file path; total for all well-typed inputs.
pub fn build_github_url(github_info: &GitHubInfo, commit_hash: &str, file_path: &str) -> (r:
    String)
    ensures
        r@ == github_url_spec(github_info.owner@, github_info.repo@, commit_hash@, file_path@),
{
    let normalized = normalize_file_path(file_path);
    let mut out = String::from_str("https://github.com/");
    out.append(github_info.owner.as_str());
    out.append("/");
    out.append(github_info.repo.as_str());
    out.append("/blob/");
    out.append(commit_hash);
    out.append("/");
    out.append(normalized.as_str());
    out
}

/// Parses a remote URL and composes the web URL for the given commit and
/// path; fails exactly when parsing fails, and never after that point.
pub fn generate_github_url(remote_url: &str, commit_hash: &str, file_path: &str) -> (r: Result<
    String,
    GitError,
>)
    ensures
        match r {
            Ok(u) => match parse_remote_spec(remote_url@) {
                Some(p) => u@ == github_url_spec(p.0, p.1, commit_hash@, file_path@),
                None => false,
            },
            Err(e) => {
                &&& parse_remote_spec(remote_url@) is None
                &&& e matches GitError::UnsupportedFormat(u) && u@ == remote_url@
            },
        },
{
    match parse_remote_url(remote_url) {
        Ok(info) => Ok(build_github_url(&info, commit_hash, file_path)),
        Err(e) => Err(e),
    }
}

/// A parsed identity is well formed: owner and repository are non-empty and
/// hold no path separator, neither `/` nor `\`.
pub proof fn lemma_parse_identity_well_formed(s: Seq<char>)
    requires
        parse_remote_spec(s) is Some,
    ensures
        match parse_remote_spec(s) {
            Some(p) => {
                &&& p.0.len() > 0
                &&& p.1.len() > 0
                &&& find_first(p.0, '/') == -1
                &&& find_first(p.1, '/') == -1
                &&& find_first(p.0, '\\') == -1
                &&& find_first(p.1, '\\') == -1
            },
            None => false,
        },
{
    if ssh_prefix().is_prefix_of(s) {
        let rest = s.skip(ssh_prefix().len() as int);
        let stripped = strip_git_suffix(rest);
        let i = find_first(stripped, '/');
        lemma_find_first(stripped, '/');
        lemma_no_char_in_prefix(stripped, '/', i);
        assert(stripped.skip(i + 1).len() > 0);
    } else {
        let rest = if https_prefix().is_prefix_of(s) {
            s.skip(https_prefix().len() as int)
        } else {
            s.skip(http_prefix().len() as int)
        };
        let path = cut_at_query_or_fragment(rest);
        let i = find_first(path, '/');
        lemma_find_first(path, '/');
        lemma_no_char_in_prefix(path, '/', i);
        let rest2 = path.skip(i + 1);
        let j = find_first(rest2, '/');
        lemma_find_first(rest2, '/');
        let seg1 = if j < 0 { rest2 } else { rest2.take(j) };
        assert(forall|x: int| 0 <= x < seg1.len() ==> seg1[x] != '/');
        let repo = strip_git_suffix(seg1);
        assert(forall|x: int| 0 <= x < repo.len() ==> repo[x] == seg1[x]);
        lemma_find_first(repo, '/');
    }
}

/// If no index below `k` holds `c`, the prefix of length `k` is free of `c`.
proof fn lemma_no_char_in_prefix(s: Seq<char>, c: char, k: int)
    requires
        0 <= k <= s.len(),
        forall|j: int| 0 <= j < k ==> s[j] != c,
    ensures
        find_first(s.take(k), c) == -1,
{
    lemma_find_first(s.take(k), c);
}

} // verus!
