//! Directory-path arithmetic over `/`-separated path strings: parent
//! directories, the chain of ancestors of a directory, joining, and the
//! search for the nearest marked ancestor.

use vstd::prelude::*;

verus! {

use vstd::string::*;
use crate::strings::{find_char_from, find_last, lemma_find_last, lemma_find_last_at};

/// `s` with every trailing `/` removed.
pub open spec fn strip_trailing_slashes(s: Seq<char>) -> Seq<char>
    decreases s.len(),
{
    if s.len() > 0 && s.last() == '/' {
        strip_trailing_slashes(s.drop_last())
    } else {
        s
    }
}

/// The parent directory of a path, if it has one: trailing slashes are
/// ignored, the last `/`-separated component is removed, and the root `/`
/// keeps its single slash. The root itself and a bare component have no
/// parent.
pub open spec fn parent_dir_spec(s: Seq<char>) -> Option<Seq<char>> {
    let t = strip_trailing_slashes(s);
    if t.len() == 0 {
        None
    } else {
        let i = find_last(t, '/');
        if i < 0 {
            None
        } else if i == 0 {
            Some(seq!['/'])
        } else {
            Some(t.take(i))
        }
    }
}

/// Stripping trailing slashes never lengthens a path, and its result holds
/// the same leading characters.
proof fn lemma_strip_trailing_form(s: Seq<char>)
    ensures
        strip_trailing_slashes(s).len() <= s.len(),
        strip_trailing_slashes(s).len() > 0 ==> strip_trailing_slashes(s).last() != '/',
        forall|i: int| 0 <= i < strip_trailing_slashes(s).len()
            ==> strip_trailing_slashes(s)[i] == s[i],
    decreases s.len(),
{
    if s.len() > 0 && s.last() == '/' {
        lemma_strip_trailing_form(s.drop_last());
        assert(forall|i: int| 0 <= i < s.drop_last().len() ==> s.drop_last()[i] == s[i]);
    }
}

/// A parent is strictly shorter than the path it came from.
pub proof fn lemma_parent_dir_shorter(s: Seq<char>)
    ensures
        parent_dir_spec(s) matches Some(p) ==> p.len() < s.len(),
{
    lemma_strip_trailing_form(s);
    let t = strip_trailing_slashes(s);
    if t.len() > 0 {
        lemma_find_last(t, '/');
        let i = find_last(t, '/');
        if i == 0 {
            assert(t.last() != '/');
            assert(t.len() >= 2);
        }
    }
}

/// The chain of ancestors of a directory, starting with the directory itself
/// and ending at the directory with no parent.
pub open spec fn ancestor_chain(d: Seq<char>) -> Seq<Seq<char>>
    decreases d.len(),
        via ancestor_chain_decreases
{
    match parent_dir_spec(d) {
        Option::None => seq![d],
        Option::Some(p) => seq![d] + ancestor_chain(p),
    }
}

#[via_fn]
proof fn ancestor_chain_decreases(d: Seq<char>) {
    lemma_parent_dir_shorter(d);
}

/// Whether `a` is `d` itself or one of its ancestors.
pub open spec fn is_ancestor_or_self(a: Seq<char>, d: Seq<char>) -> bool {
    ancestor_chain(d).contains(a)
}

/// The chain starts at the directory itself, and continues with the parent's
/// chain whenever a parent exists.
pub proof fn lemma_chain_unfold(d: Seq<char>)
    ensures
        ancestor_chain(d).len() >= 1,
        ancestor_chain(d)[0] == d,
        match parent_dir_spec(d) {
            Option::None => ancestor_chain(d).len() == 1,
            Option::Some(p) => ancestor_chain(d) == seq![d] + ancestor_chain(p),
        },
{
}

/// The parent directory of `p`, with the same meaning as `parent_dir_spec`.
pub fn parent_dir(p: &str) -> (r: Option<String>)
    ensures
        match r {
            Some(q) => parent_dir_spec(p@) == Some(q@),
            None => parent_dir_spec(p@) is None,
        },
{
    let n: usize = p.unicode_len();
    let mut t_end: usize = n;
    loop
        invariant
            n == p@.len(),
            t_end <= n,
            forall|j: int| t_end <= j < n ==> p@[j] == '/',
        ensures
            t_end <= n,
            forall|j: int| t_end <= j < n ==> p@[j] == '/',
            t_end == 0 || p@[t_end - 1] != '/',
        decreases t_end,
    {
        if t_end == 0 {
            break;
        }
        if p.get_char(t_end - 1) != '/' {
            break;
        }
        t_end = t_end - 1;
    }
    proof {
        lemma_strip_to_take(p@, t_end as int);
    }
    if t_end == 0 {
        return None;
    }
    let t = p.substring_char(0, t_end);
    assert(t@ =~= p@.take(t_end as int));
    let mut i: usize = t_end;
    loop
        invariant
            n == p@.len(),
            t_end <= n,
            t@ == strip_trailing_slashes(p@),
            t@ == p@.take(t_end as int),
            i <= t_end,
            forall|j: int| i <= j < t_end ==> t@[j] != '/',
        ensures
            i <= t_end,
            forall|j: int| i <= j < t_end ==> t@[j] != '/',
            i == 0 || t@[i - 1] == '/',
        decreases i,
    {
        if i == 0 {
            break;
        }
        if t.get_char(i - 1) == '/' {
            break;
        }
        i = i - 1;
    }
    if i == 0 {
        proof {
            lemma_find_last(t@, '/');
        }
        None
    } else if i == 1 {
        proof {
            lemma_find_last_at(t@, '/', 0);
        }
        let r = String::from_str("/");
        proof {
            reveal_strlit("/");
            assert(r@ =~= seq!['/']);
        }
        Some(r)
    } else {
        proof {
            lemma_find_last_at(t@, '/', i - 1 as int);
        }
        let q = t.substring_char(0, i - 1);
        assert(q@ =~= t@.take(i - 1 as int));
        Some(String::from_str(q))
    }
}

/// If every character from `k` on is a slash and the one before `k` is not,
/// then stripping trailing slashes keeps exactly the first `k` characters.
proof fn lemma_strip_to_take(s: Seq<char>, k: int)
    requires
        0 <= k <= s.len(),
        forall|j: int| k <= j < s.len() ==> s[j] == '/',
        k == 0 || s[k - 1] != '/',
    ensures
        strip_trailing_slashes(s) == s.take(k),
    decreases s.len(),
{
    if s.len() > 0 && s.last() == '/' {
        assert(k < s.len());
        lemma_strip_to_take(s.drop_last(), k);
        assert(s.drop_last().take(k) =~= s.take(k));
    } else {
        assert(k == s.len());
        assert(s.take(k) =~= s);
    }
}

/// `dir` and `name` joined by a single `/`; an absolute `name` replaces
/// `dir`, and an empty `dir` yields `name` unchanged.
pub fn join_path(dir: &str, name: &str) -> (r: String)
    ensures
        r@ == join_spec(dir@, name@),
{
    let n: usize = dir.unicode_len();
    let m: usize = name.unicode_len();
    if m > 0 && name.get_char(0) == '/' {
        String::from_str(name)
    } else if n == 0 {
        String::from_str(name)
    } else if dir.get_char(n - 1) == '/' {
        String::from_str(dir).concat(name)
    } else {
        let r = String::from_str(dir).concat("/").concat(name);
        proof {
            reveal_strlit("/");
            assert(r@ =~= dir@ + seq!['/'] + name@);
        }
        r
    }
}

/// `dir` and `name` with a single `/` between them; an absolute `name`
/// stands alone.
pub open spec fn join_spec(dir: Seq<char>, name: Seq<char>) -> Seq<char> {
    if name.len() > 0 && name[0] == '/' {
        name
    } else if dir.len() == 0 {
        name
    } else if dir.last() == '/' {
        dir + name
    } else {
        dir + seq!['/'] + name
    }
}

/// The path of `file` relative to the directory `root`: where `root` is a
/// prefix of `file` that ends on a component boundary, the prefix is
/// removed; otherwise `file` is kept unchanged.
pub open spec fn rel_path_spec(file: Seq<char>, root: Seq<char>) -> Seq<char> {
    if root.len() > 0 && root.is_prefix_of(file) && (file.len() == root.len() || file[root.len(
    ) as int] == '/' || root.last() == '/') {
        file.skip(root.len() as int)
    } else {
        file
    }
}

/// Computes the path of `file_path` relative to the directory `root`.
pub fn relative_to_root(file_path: &str, root: &str) -> (r: String)
    ensures
        r@ == rel_path_spec(file_path@, root@),
{
    let n: usize = root.unicode_len();
    let m: usize = file_path.unicode_len();
    if n == 0 || !crate::strings::has_prefix(file_path, root) {
        return String::from_str(file_path);
    }
    if m == n || file_path.get_char(n) == '/' || root.get_char(n - 1) == '/' {
        let rel = file_path.substring_char(n, m);
        assert(rel@ =~= file_path@.skip(root@.len() as int));
        String::from_str(rel)
    } else {
        String::from_str(file_path)
    }
}

/// The full ancestor chain of `start`, nearest first.
pub fn ancestors_of(start: &str) -> (r: Vec<String>)
    ensures
        r@.len() == ancestor_chain(start@).len(),
        forall|i: int| 0 <= i < r@.len() ==> r@[i]@ == ancestor_chain(start@)[i],
    decreases start@.len(),
{
    let mut r: Vec<String> = Vec::new();
    r.push(String::from_str(start));
    proof {
        lemma_chain_unfold(start@);
    }
    match parent_dir(start) {
        None => r,
        Some(p) => {
            proof {
                lemma_parent_dir_shorter(start@);
            }
            let mut rest = ancestors_of(p.as_str());
            let mut i: usize = 0;
            let ghost chain = ancestor_chain(start@);
            while i < rest.len()
                invariant
                    chain == ancestor_chain(start@),
                    parent_dir_spec(start@) == Some(p@),
                    rest@.len() == ancestor_chain(p@).len(),
                    forall|j: int| 0 <= j < rest@.len() ==> rest@[j]@ == ancestor_chain(p@)[j],
                    r@.len() == i + 1,
                    i <= rest@.len(),
                    forall|j: int| 0 <= j < r@.len() ==> r@[j]@ == chain[j],
                decreases rest@.len() - i,
            {
                let s = rest[i].clone();
                assert(s@ == ancestor_chain(p@)[i as int]);
                r.push(s);
                i = i + 1;
            }
            r
        },
    }
}

/// The nearest marked ancestor: given the ancestor chain of a directory
/// (nearest first) and, for each entry, whether it carries the repository
/// marker, returns the least index whose entry is marked — the innermost
/// enclosing root, never an outer one — and `None` exactly when no entry is
/// marked.
pub fn find_root_in_chain(dirs: &Vec<String>, has_marker: &Vec<bool>) -> (r: Option<usize>)
    requires
        dirs@.len() == has_marker@.len(),
    ensures
        match r {
            Some(i) => {
                &&& i < dirs@.len()
                &&& has_marker@[i as int]
                &&& forall|j: int| 0 <= j < i ==> !has_marker@[j]
            },
            None => forall|j: int| 0 <= j < has_marker@.len() ==> !has_marker@[j],
        },
{
    let mut i: usize = 0;
    while i < has_marker.len()
        invariant
            dirs@.len() == has_marker@.len(),
            i <= has_marker@.len(),
            forall|j: int| 0 <= j < i ==> !has_marker@[j],
        decreases has_marker@.len() - i,
    {
        if has_marker[i] {
            return Some(i);
        }
        i = i + 1;
    }
    None
}

} // verus!
