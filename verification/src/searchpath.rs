//! Manipulation of search-path lists (the `PATH` variable's
//! colon-separated form): splitting, filtering one directory out, and
//! re-joining, preserving the order and the remaining segments exactly.

use vstd::prelude::*;
use vstd::string::{StrSliceExecFns, StringExecFns};

verus! {

/// The index of the first occurrence of `c` in `s`, if any.
pub open spec fn spec_find(s: Seq<char>, c: char) -> Option<int>
    decreases s.len(),
{
    if s.len() == 0 {
        None
    } else if s[0] == c {
        Some(0)
    } else {
        match spec_find(s.drop_first(), c) {
            Some(i) => Some(i + 1),
            None => None,
        }
    }
}

/// A found index is in bounds, holds `c`, and nothing before it does.
pub proof fn lemma_find_bounds(s: Seq<char>, c: char)
    ensures
        spec_find(s, c) matches Some(i) ==> 0 <= i < s.len() && s[i] == c && (forall|j: int|
            0 <= j < i ==> s[j] != c),
        spec_find(s, c) is None ==> forall|j: int| 0 <= j < s.len() ==> s[j] != c,
    decreases s.len(),
{
    if s.len() > 0 && s[0] != c {
        lemma_find_bounds(s.drop_first(), c);
        match spec_find(s.drop_first(), c) {
            Some(i) => {
                assert forall|j: int| 0 <= j < i + 1 implies s[j] != c by {
                    if j > 0 {
                        assert(s.drop_first()[j - 1] == s[j]);
                    }
                }
            },
            None => {
                assert forall|j: int| 0 <= j < s.len() implies s[j] != c by {
                    if j > 0 {
                        assert(s.drop_first()[j - 1] == s[j]);
                    }
                }
            },
        }
    }
}

/// Find the first occurrence of `c` in `s`.
pub fn find_char(s: &str, c: char) -> (r: Option<usize>)
    ensures
        match r {
            Some(i) => spec_find(s@, c) == Some(i as int),
            None => spec_find(s@, c) is None,
        },
{
    let n = s.unicode_len();
    let mut i: usize = 0;
    while i < n
        invariant
            i <= n,
            n == s@.len(),
            forall|j: int| 0 <= j < i ==> s@[j] != c,
        decreases n - i,
    {
        if s.get_char(i) == c {
            proof {
                lemma_find_first_occurrence(s@, c, i as int);
            }
            return Some(i);
        }
        i = i + 1;
    }
    proof {
        lemma_find_bounds(s@, c);
        match spec_find(s@, c) {
            Some(t) => {
                assert(s@[t] == c);
            },
            None => {},
        }
    }
    None
}

/// If position `i` holds `c` and nothing before it does, the first
/// occurrence is at `i`.
proof fn lemma_find_first_occurrence(s: Seq<char>, c: char, i: int)
    requires
        0 <= i < s.len(),
        s[i] == c,
        forall|j: int| 0 <= j < i ==> s[j] != c,
    ensures
        spec_find(s, c) == Some(i),
    decreases i,
{
    if i > 0 {
        assert forall|j: int| 0 <= j < i - 1 implies s.drop_first()[j] != c by {
            assert(s.drop_first()[j] == s[j + 1]);
        }
        assert(s.drop_first()[i - 1] == s[i]);
        lemma_find_first_occurrence(s.drop_first(), c, i - 1);
    }
}

/// A list split at each separator. The empty string is one empty segment; a
/// separator splits off everything before it, however empty.
pub open spec fn spec_split_list(s: Seq<char>, c: char) -> Seq<Seq<char>>
    decreases s.len(),
    via spec_split_list_decreases
{
    match spec_find(s, c) {
        None => seq![s],
        Some(i) => seq![s.take(i)] + spec_split_list(s.skip(i + 1), c),
    }
}

#[via_fn]
proof fn spec_split_list_decreases(s: Seq<char>, c: char) {
    lemma_find_bounds(s, c);
}

/// Split a search-path list at its separators.
pub fn split_list(s: &str) -> (r: Vec<String>)
    ensures
        r.deep_view() == spec_split_list(s@, ':'),
{
    let mut parts: Vec<String> = Vec::new();
    let mut rest: String = String::from_str(s);
    loop
        invariant
            spec_split_list(s@, ':') =~= parts.deep_view() + spec_split_list(rest@, ':'),
        decreases rest@.len(),
    {
        let ghost prev = parts.deep_view();
        match find_char(rest.as_str(), ':') {
            Some(i) => {
                proof {
                    lemma_find_bounds(rest@, ':');
                }
                let head = rest.as_str().substring_char(0, i);
                let n = rest.as_str().unicode_len();
                let tail = String::from_str(rest.as_str().substring_char(i + 1, n));
                parts.push(String::from_str(head));
                proof {
                    assert(head@ =~= rest@.take(i as int));
                    assert(tail@ =~= rest@.skip(i + 1));
                    assert(parts.deep_view() =~= prev + seq![rest@.take(i as int)]);
                    assert(spec_split_list(rest@, ':') == seq![rest@.take(i as int)]
                        + spec_split_list(tail@, ':'));
                }
                rest = tail;
            },
            None => {
                let ghost rview = rest@;
                parts.push(rest);
                proof {
                    assert(spec_split_list(rview, ':') =~= seq![rview]);
                    assert(parts.deep_view() =~= prev + seq![rview]);
                }
                return parts;
            },
        }
    }
}

/// The segments of `parts` joined with the separator between them; an
/// empty list of segments joins to the empty string.
pub open spec fn spec_join_list(parts: Seq<Seq<char>>, c: char) -> Seq<char>
    decreases parts.len(),
{
    if parts.len() == 0 {
        Seq::empty()
    } else if parts.len() == 1 {
        parts[0]
    } else {
        parts[0] + seq![c] + spec_join_list(parts.drop_first(), c)
    }
}

/// The segments of `parts` that differ from `unwanted`, in order.
pub open spec fn spec_keep_except(parts: Seq<Seq<char>>, unwanted: Seq<char>) -> Seq<Seq<char>>
    decreases parts.len(),
{
    if parts.len() == 0 {
        Seq::empty()
    } else if parts[0] == unwanted {
        spec_keep_except(parts.drop_first(), unwanted)
    } else {
        seq![parts[0]] + spec_keep_except(parts.drop_first(), unwanted)
    }
}

/// A search-path list with every segment equal to `dir` removed: split at
/// the separators, drop the matching segments, join the rest back in order.
pub open spec fn spec_strip_path_entry(path: Seq<char>, dir: Seq<char>) -> Seq<char> {
    spec_join_list(spec_keep_except(spec_split_list(path, ':'), dir), ':')
}

/// Keep the segments that differ from `unwanted`.
fn keep_except(parts: Vec<String>, unwanted: &String) -> (r: Vec<String>)
    ensures
        r.deep_view() == spec_keep_except(parts.deep_view(), unwanted@),
{
    let mut kept: Vec<String> = Vec::new();
    let n = parts.len();
    let mut i: usize = 0;
    proof {
        assert(parts.deep_view().skip(0) =~= parts.deep_view());
    }
    while i < n
        invariant
            i <= n,
            n == parts@.len(),
            spec_keep_except(parts.deep_view(), unwanted@) =~= kept.deep_view()
                + spec_keep_except(parts.deep_view().skip(i as int), unwanted@),
        decreases n - i,
    {
        let ghost prev = kept.deep_view();
        proof {
            assert(parts.deep_view().skip(i as int)[0] == parts.deep_view()[i as int]);
            assert(parts.deep_view().skip(i as int).drop_first() =~= parts.deep_view().skip(i + 1));
        }
        if !(parts[i] == *unwanted) {
            kept.push(parts[i].clone());
            proof {
                assert(kept.deep_view() =~= prev + seq![parts.deep_view()[i as int]]);
            }
        }
        i = i + 1;
    }
    proof {
        assert(parts.deep_view().skip(n as int) =~= Seq::<Seq<char>>::empty());
    }
    kept
}

/// Join segments with the separator.
fn join_list(parts: &Vec<String>, i: usize) -> (r: String)
    requires
        i <= parts@.len(),
    ensures
        r@ == spec_join_list(parts.deep_view().skip(i as int), ':'),
    decreases parts@.len() - i,
{
    if i == parts.len() {
        proof {
            assert(parts.deep_view().skip(i as int) =~= Seq::<Seq<char>>::empty());
        }
        String::new()
    } else if i + 1 == parts.len() {
        proof {
            assert(parts.deep_view().skip(i as int).len() == 1);
            assert(parts.deep_view().skip(i as int)[0] == parts.deep_view()[i as int]);
        }
        parts[i].clone()
    } else {
        let mut r = parts[i].clone();
        proof {
            reveal_strlit(":");
        }
        r.append(":");
        let tail = join_list(parts, i + 1);
        r.append(tail.as_str());
        proof {
            assert(parts.deep_view().skip(i as int)[0] == parts.deep_view()[i as int]);
            assert(parts.deep_view().skip(i as int).drop_first() =~= parts.deep_view().skip(i + 1));
            assert(r@ =~= parts.deep_view()[i as int] + seq![':'] + tail@);
        }
        r
    }
}

/// Remove every segment equal to `dir` from a search-path list, keeping the
/// order and the other segments exactly as they were.
pub fn strip_path_entry(path: &str, dir: &String) -> (r: String)
    ensures
        r@ == spec_strip_path_entry(path@, dir@),
{
    let parts = split_list(path);
    let kept = keep_except(parts, dir);
    let r = join_list(&kept, 0);
    proof {
        assert(kept.deep_view().skip(0) =~= kept.deep_view());
    }
    r
}

} // verus!
