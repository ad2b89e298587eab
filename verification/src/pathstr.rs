//! Path and string primitives for the launcher.
//!
//! Paths are modelled as plain strings over the `/` separator: joining
//! appends a separator only when the directory does not already end in one,
//! and `parent` strips the last separator-delimited component, mirroring how
//! the launcher walks ancestor directories.

use vstd::prelude::*;
use vstd::string::*;

verus! {

/// True when `s` ends in the path separator (marks a directory-style path).
pub open spec fn spec_ends_with_sep(s: Seq<char>) -> bool {
    s.len() > 0 && s.last() == '/'
}

/// Whether the string ends in the path separator.
pub fn ends_with_sep(s: &str) -> (r: bool)
    ensures
        r == spec_ends_with_sep(s@),
{
    let n = s.unicode_len();
    if n == 0 {
        false
    } else {
        s.get_char(n - 1) == '/'
    }
}

/// `dir` joined with the relative fragment `file`: a separator is inserted
/// unless `dir` already ends in one.
pub open spec fn spec_join(dir: Seq<char>, file: Seq<char>) -> Seq<char> {
    if spec_ends_with_sep(dir) {
        dir + file
    } else {
        dir + seq!['/'] + file
    }
}

/// Join a directory path with a relative fragment.
pub fn join_path(dir: &str, file: &str) -> (r: String)
    ensures
        r@ == spec_join(dir@, file@),
{
    let mut s = String::from_str(dir);
    if !ends_with_sep(dir) {
        proof {
            reveal_strlit("/");
        }
        s.append("/");
        assert(s@ =~= dir@ + seq!['/']);
    }
    s.append(file);
    proof {
        if !spec_ends_with_sep(dir@) {
            assert(s@ =~= dir@ + seq!['/'] + file@);
        }
    }
    s
}

/// The index of the last occurrence of `c` in `s`, if any.
pub open spec fn spec_rfind(s: Seq<char>, c: char) -> Option<int>
    decreases s.len(),
{
    if s.len() == 0 {
        None
    } else if s.last() == c {
        Some(s.len() - 1)
    } else {
        spec_rfind(s.drop_last(), c)
    }
}

/// A found index is in bounds and is the last occurrence.
pub proof fn lemma_rfind_bounds(s: Seq<char>, c: char)
    ensures
        spec_rfind(s, c) matches Some(i) ==> 0 <= i < s.len() && s[i] == c,
        spec_rfind(s, c) is None ==> forall|j: int| 0 <= j < s.len() ==> s[j] != c,
    decreases s.len(),
{
    if s.len() > 0 {
        lemma_rfind_bounds(s.drop_last(), c);
        if s.last() != c {
            assert forall|j: int| 0 <= j < s.len() implies (spec_rfind(s, c) is None ==> s[j]
                != c) by {
                if j < s.len() - 1 {
                    assert(s.drop_last()[j] == s[j]);
                }
            }
            match spec_rfind(s, c) {
                Some(i) => {
                    assert(s.drop_last()[i] == s[i]);
                },
                None => {},
            }
        }
    }
}

/// Find the last occurrence of `c` in `s`.
pub fn rfind_char(s: &str, c: char) -> (r: Option<usize>)
    ensures
        match r {
            Some(i) => spec_rfind(s@, c) == Some(i as int),
            None => spec_rfind(s@, c) is None,
        },
{
    let n = s.unicode_len();
    let mut i: usize = n;
    proof {
        assert(s@.subrange(0, n as int) =~= s@);
    }
    while i > 0
        invariant
            i <= n,
            n == s@.len(),
            spec_rfind(s@, c) == spec_rfind(s@.subrange(0, i as int), c),
        decreases i,
    {
        let ch = s.get_char(i - 1);
        proof {
            assert(s@.subrange(0, i as int).last() == s@[i - 1]);
            if ch != c {
                assert(s@.subrange(0, i as int).drop_last() =~= s@.subrange(0, i - 1));
            }
        }
        if ch == c {
            proof {
                assert(s@.subrange(0, i as int).len() == i);
            }
            return Some(i - 1);
        }
        i = i - 1;
    }
    proof {
        assert(s@.subrange(0, 0) =~= Seq::<char>::empty());
    }
    None
}

/// The parent directory of `s`, for `/`-separated paths: the prefix before
/// the last separator, the lone separator when that prefix is empty, and
/// nothing for the separator itself or a path with no separator at all.
pub open spec fn spec_parent(s: Seq<char>) -> Option<Seq<char>> {
    match spec_rfind(s, '/') {
        Some(i) => if i == 0 {
            if s.len() == 1 {
                None
            } else {
                Some(seq!['/'])
            }
        } else {
            Some(s.subrange(0, i))
        },
        None => None,
    }
}

/// A parent path is strictly shorter than its child.
pub proof fn lemma_parent_shorter(s: Seq<char>)
    ensures
        spec_parent(s) matches Some(p) ==> p.len() < s.len(),
{
    lemma_rfind_bounds(s, '/');
}

/// The parent directory of a `/`-separated path.
pub fn parent_dir(s: &str) -> (r: Option<String>)
    ensures
        match r {
            Some(p) => spec_parent(s@) == Some(p@),
            None => spec_parent(s@) is None,
        },
{
    proof {
        lemma_rfind_bounds(s@, '/');
    }
    match rfind_char(s, '/') {
        Some(i) => {
            if i == 0 {
                if s.unicode_len() == 1 {
                    None
                } else {
                    let r = String::from_str("/");
                    proof {
                        reveal_strlit("/");
                        assert(r@ =~= seq!['/']);
                    }
                    Some(r)
                }
            } else {
                Some(String::from_str(s.substring_char(0, i)))
            }
        },
        None => None,
    }
}

/// The chain of directories walked during a parent search: the starting
/// directory itself first, then each parent in turn, ending at the topmost
/// directory that still has no parent.
pub open spec fn spec_ancestors(s: Seq<char>) -> Seq<Seq<char>>
    decreases s.len(),
    via spec_ancestors_decreases
{
    match spec_parent(s) {
        Some(p) => seq![s] + spec_ancestors(p),
        None => seq![s],
    }
}

#[via_fn]
proof fn spec_ancestors_decreases(s: Seq<char>) {
    lemma_parent_shorter(s);
}

/// The chain of ancestor directories of `s`, nearest first.
pub fn ancestor_chain(s: &String) -> (r: Vec<String>)
    ensures
        r.deep_view() == spec_ancestors(s@),
{
    let mut r: Vec<String> = Vec::new();
    let mut cur: String = s.clone();
    r.push(cur.clone());
    proof {
        assert(r.deep_view() =~= spec_ancestors(s@).subrange(0, 1));
    }
    loop
        invariant
            r.deep_view().len() >= 1,
            r.deep_view().last() == cur@,
            spec_ancestors(s@) =~= r.deep_view().drop_last() + spec_ancestors(cur@),
        decreases cur@.len(),
    {
        proof {
            lemma_parent_shorter(cur@);
        }
        let ghost prev = r.deep_view();
        match parent_dir(cur.as_str()) {
            Some(p) => {
                proof {
                    assert(prev =~= prev.drop_last() + seq![cur@]);
                }
                r.push(p.clone());
                cur = p;
                proof {
                    assert(r.deep_view() =~= prev + seq![cur@]);
                    assert(r.deep_view().drop_last() =~= prev);
                }
            },
            None => {
                proof {
                    assert(prev =~= prev.drop_last() + seq![cur@]);
                }
                return r;
            },
        }
    }
}

/// The final `/`-separated component of a path: everything after the last
/// separator, or the whole path when it has none.
pub open spec fn spec_base_name(s: Seq<char>) -> Seq<char> {
    match spec_rfind(s, '/') {
        None => s,
        Some(i) => s.skip(i + 1),
    }
}

/// The stem of a file name: everything before the last dot, except that a
/// leading dot does not count as an extension separator.
pub open spec fn spec_stem(name: Seq<char>) -> Seq<char> {
    match spec_rfind(name, '.') {
        None => name,
        Some(i) => if i == 0 {
            name
        } else {
            name.take(i)
        },
    }
}

/// The identity an executable path yields: the stem of its final path
/// component, or nothing when that component is empty. The path is read in
/// the `/`-separated model; a caller holding a path in another separator
/// convention normalizes it first.
pub open spec fn spec_exe_identity(path: Seq<char>) -> Option<Seq<char>> {
    if spec_base_name(path).len() == 0 {
        None
    } else {
        Some(spec_stem(spec_base_name(path)))
    }
}

/// The identity the running executable's path yields.
pub fn exe_identity(path: &str) -> (r: Option<String>)
    ensures
        match r {
            Some(id) => spec_exe_identity(path@) == Some(id@),
            None => spec_exe_identity(path@) is None,
        },
{
    proof {
        lemma_rfind_bounds(path@, '/');
    }
    let n = path.unicode_len();
    let base = match rfind_char(path, '/') {
        None => String::from_str(path),
        Some(i) => String::from_str(path.substring_char(i + 1, n)),
    };
    proof {
        assert(base@ =~= spec_base_name(path@));
        lemma_rfind_bounds(base@, '.');
    }
    if base.as_str().unicode_len() == 0 {
        return None;
    }
    match rfind_char(base.as_str(), '.') {
        None => Some(base),
        Some(i) => {
            if i == 0 {
                Some(base)
            } else {
                let stem = String::from_str(base.as_str().substring_char(0, i));
                proof {
                    assert(stem@ =~= spec_stem(base@));
                }
                Some(stem)
            }
        },
    }
}

} // verus!
