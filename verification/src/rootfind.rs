//! Root resolution: deciding, from the configuration and the working
//! directory, which directory the wrapped tool should run from.
//!
//! The filesystem enters only as data: the caller probes the paths this
//! module asks for and hands the answers back, and the decision is a pure
//! function of those answers. With no required files the working directory
//! is always the root; otherwise the working directory alone is examined,
//! or, with `search_parents`, each ancestor in turn, nearest first.

use vstd::prelude::*;
use crate::pathstr::{ancestor_chain, join_path, spec_ancestors, spec_join};
use crate::schema::AppConfig;

verus! {

/// The directories root resolution examines, nearest first.
pub open spec fn spec_candidates(
    required: Seq<Seq<char>>,
    search_parents: bool,
    cwd: Seq<char>,
) -> Seq<Seq<char>> {
    if required.len() == 0 || !search_parents {
        seq![cwd]
    } else {
        spec_ancestors(cwd)
    }
}

/// The existence probes for one candidate directory: each required file
/// joined onto it.
pub open spec fn spec_dir_probes(dir: Seq<char>, required: Seq<Seq<char>>) -> Seq<Seq<char>> {
    Seq::new(required.len(), |j: int| spec_join(dir, required[j]))
}

/// All existence probes, one row per candidate directory.
pub open spec fn spec_probe_matrix(
    required: Seq<Seq<char>>,
    search_parents: bool,
    cwd: Seq<char>,
) -> Seq<Seq<Seq<char>>> {
    Seq::new(
        spec_candidates(required, search_parents, cwd).len(),
        |i: int| spec_dir_probes(spec_candidates(required, search_parents, cwd)[i], required),
    )
}

/// A candidate directory is satisfied when every probe in its row came back
/// positive.
pub open spec fn spec_dir_satisfied(row: Seq<bool>) -> bool {
    forall|j: int| 0 <= j < row.len() ==> row[j]
}

/// The position of the first satisfied row from `i` on, if any.
pub open spec fn spec_first_hit(found: Seq<Seq<bool>>, i: int) -> Option<int>
    decreases found.len() - i,
{
    if i < 0 || i >= found.len() {
        None
    } else if spec_dir_satisfied(found[i]) {
        Some(i)
    } else {
        spec_first_hit(found, i + 1)
    }
}

/// What root resolution returns: with no required files, the working
/// directory, unconditionally; otherwise the nearest candidate directory
/// whose probes all came back positive, or nothing.
pub open spec fn spec_resolve_root(
    required: Seq<Seq<char>>,
    search_parents: bool,
    cwd: Seq<char>,
    found: Seq<Seq<bool>>,
) -> Option<Seq<char>> {
    if required.len() == 0 {
        Some(cwd)
    } else {
        match spec_first_hit(found, 0) {
            Some(m) => if m < spec_candidates(required, search_parents, cwd).len() {
                Some(spec_candidates(required, search_parents, cwd)[m])
            } else {
                None
            },
            None => None,
        }
    }
}

impl AppConfig {
    /// The candidate directories for this configuration, nearest first.
    pub fn candidate_dirs(&self, cwd: &String) -> (r: Vec<String>)
        ensures
            r.deep_view() == spec_candidates(self@.required_files, self.search_parents, cwd@),
    {
        if self.required_files.len() == 0 || !self.search_parents {
            let mut v: Vec<String> = Vec::new();
            v.push(cwd.clone());
            proof {
                assert(v.deep_view() =~= seq![cwd@]);
            }
            v
        } else {
            ancestor_chain(cwd)
        }
    }

    /// Every existence probe root resolution needs: one row per candidate
    /// directory, one entry per required file. The caller answers each probe
    /// and hands the answers to [`AppConfig::get_root`] in the same shape.
    pub fn probe_matrix(&self, cwd: &String) -> (r: Vec<Vec<String>>)
        ensures
            r.deep_view() == spec_probe_matrix(self@.required_files, self.search_parents, cwd@),
    {
        let dirs = self.candidate_dirs(cwd);
        let k = self.required_files.len();
        let mut r: Vec<Vec<String>> = Vec::new();
        let mut i: usize = 0;
        while i < dirs.len()
            invariant
                i <= dirs@.len(),
                r.deep_view() =~= Seq::new(
                    i as nat,
                    |t: int| spec_dir_probes(dirs.deep_view()[t], self@.required_files),
                ),
                k == self@.required_files.len(),
                dirs.deep_view() == spec_candidates(self@.required_files, self.search_parents, cwd@),
            decreases dirs@.len() - i,
        {
            let mut row: Vec<String> = Vec::new();
            let mut j: usize = 0;
            while j < k
                invariant
                    j <= k,
                    i < dirs@.len(),
                    k == self@.required_files.len(),
                    row.deep_view() =~= spec_dir_probes(
                        dirs.deep_view()[i as int],
                        self@.required_files,
                    ).take(j as int),
                decreases k - j,
            {
                let ghost prevrow = row.deep_view();
                let entry = join_path(dirs[i].as_str(), self.required_files[j].as_str());
                proof {
                    assert(dirs[i as int]@ == dirs.deep_view()[i as int]);
                    assert(self.required_files[j as int]@ == self@.required_files[j as int]);
                    assert(entry@ == spec_join(
                        dirs.deep_view()[i as int],
                        self@.required_files[j as int],
                    ));
                }
                row.push(entry);
                proof {
                    assert(row.deep_view() =~= prevrow.push(entry@));
                    assert(spec_dir_probes(dirs.deep_view()[i as int], self@.required_files)[
                        j as int] == entry@);
                    assert(row.deep_view() =~= spec_dir_probes(
                        dirs.deep_view()[i as int],
                        self@.required_files,
                    ).take(j + 1));
                }
                j = j + 1;
            }
            proof {
                assert(row.deep_view() =~= spec_dir_probes(
                    dirs.deep_view()[i as int],
                    self@.required_files,
                ));
            }
            let ghost prev = r.deep_view();
            r.push(row);
            proof {
                assert(r.deep_view() =~= prev.push(
                    spec_dir_probes(dirs.deep_view()[i as int], self@.required_files),
                ));
                assert(r.deep_view() =~= Seq::new(
                    (i + 1) as nat,
                    |t: int| spec_dir_probes(dirs.deep_view()[t], self@.required_files),
                ));
            }
            i = i + 1;
        }
        proof {
            assert(r.deep_view() =~= spec_probe_matrix(
                self@.required_files,
                self.search_parents,
                cwd@,
            ));
        }
        r
    }

    /// Resolve the project root from the answered probes: `found[i][j]` says
    /// whether the `j`-th required file exists under the `i`-th candidate
    /// directory, in the shape [`AppConfig::probe_matrix`] lays out.
    pub fn get_root(&self, cwd: &String, found: &Vec<Vec<bool>>) -> (r: Option<String>)
        requires
            found.deep_view().len() == spec_candidates(
                self@.required_files,
                self.search_parents,
                cwd@,
            ).len(),
        ensures
            match r {
                Some(root) => spec_resolve_root(
                    self@.required_files,
                    self.search_parents,
                    cwd@,
                    found.deep_view(),
                ) == Some(root@),
                None => spec_resolve_root(
                    self@.required_files,
                    self.search_parents,
                    cwd@,
                    found.deep_view(),
                ) is None,
            },
    {
        if self.required_files.len() == 0 {
            return Some(cwd.clone());
        }
        let dirs = self.candidate_dirs(cwd);
        let ghost gdirs = dirs.deep_view();
        let ghost gfound = found.deep_view();
        let n = dirs.len();
        let mut i: usize = 0;
        while i < n
            invariant
                i <= n,
                n == gdirs.len(),
                gdirs == dirs.deep_view(),
                gfound == found.deep_view(),
                found@.len() == n,
                self@.required_files.len() > 0,
                gdirs == spec_candidates(self@.required_files, self.search_parents, cwd@),
                spec_first_hit(gfound, 0) == spec_first_hit(gfound, i as int),
            decreases n - i,
        {
            let row = &found[i];
            let mut all = true;
            let mut j: usize = 0;
            while j < row.len()
                invariant
                    j <= row@.len(),
                    i < n,
                    gfound == found.deep_view(),
                    found@.len() == n,
                    row@ == found@[i as int]@,
                    all == (forall|t: int| 0 <= t < j ==> row@[t]),
                decreases row@.len() - j,
            {
                if !row[j] {
                    all = false;
                }
                j = j + 1;
            }
            proof {
                assert(gfound[i as int] =~= row@);
                assert(all == spec_dir_satisfied(gfound[i as int]));
            }
            if all {
                proof {
                    assert(spec_first_hit(gfound, i as int) == Some(i as int));
                }
                return Some(dirs[i].clone());
            }
            proof {
                assert(spec_first_hit(gfound, i as int) == spec_first_hit(gfound, i + 1));
            }
            i = i + 1;
        }
        None
    }
}

/// Every required file exists under `dir`, according to the set `fs` of
/// existing paths.
pub open spec fn spec_all_exist(fs: Set<Seq<char>>, dir: Seq<char>, required: Seq<Seq<char>>) -> bool {
    forall|j: int| 0 <= j < required.len() ==> fs.contains(spec_join(dir, required[j]))
}

/// The rows of answered probes that a filesystem `fs` induces are the ones
/// whose entries report membership of each probe path in `fs`.
pub open spec fn spec_found_matches(
    fs: Set<Seq<char>>,
    dirs: Seq<Seq<char>>,
    required: Seq<Seq<char>>,
    found: Seq<Seq<bool>>,
) -> bool {
    &&& found.len() == dirs.len()
    &&& forall|i: int| 0 <= i < dirs.len() ==> (#[trigger] found[i]).len() == required.len()
    &&& forall|i: int, j: int|
        0 <= i < dirs.len() && 0 <= j < required.len() ==> #[trigger] found[i][j]
            == fs.contains(spec_join(dirs[i], required[j]))
}

/// The first hit is a satisfied row, and no earlier row is satisfied.
proof fn lemma_first_hit_characterize(found: Seq<Seq<bool>>, i: int)
    requires
        0 <= i <= found.len(),
    ensures
        match spec_first_hit(found, i) {
            Some(m) => i <= m < found.len() && spec_dir_satisfied(found[m]) && (forall|h: int|
                i <= h < m ==> !spec_dir_satisfied(found[h])),
            None => forall|h: int| i <= h < found.len() ==> !spec_dir_satisfied(found[h]),
        },
    decreases found.len() - i,
{
    if i < found.len() && !spec_dir_satisfied(found[i]) {
        lemma_first_hit_characterize(found, i + 1);
    }
}

/// Law: with no required files, root resolution always succeeds and returns
/// the working directory, whatever `search_parents` and the filesystem say.
pub proof fn lemma_root_empty_required(
    required: Seq<Seq<char>>,
    search_parents: bool,
    cwd: Seq<char>,
    found: Seq<Seq<bool>>,
)
    requires
        required.len() == 0,
    ensures
        spec_resolve_root(required, search_parents, cwd, found) == Some(cwd),
{
}

/// Law: with required files but no parent search, resolution succeeds if
/// and only if every required file exists directly under the working
/// directory, and only the working directory's probes are ever asked for.
pub proof fn lemma_root_no_parent_search(
    required: Seq<Seq<char>>,
    cwd: Seq<char>,
    fs: Set<Seq<char>>,
    found: Seq<Seq<bool>>,
)
    requires
        required.len() > 0,
        spec_found_matches(fs, spec_candidates(required, false, cwd), required, found),
    ensures
        spec_resolve_root(required, false, cwd, found) == (if spec_all_exist(fs, cwd, required) {
            Some(cwd)
        } else {
            None::<Seq<char>>
        }),
        spec_probe_matrix(required, false, cwd) == seq![spec_dir_probes(cwd, required)],
{
    let dirs = spec_candidates(required, false, cwd);
    assert(dirs == seq![cwd]);
    assert(dirs[0] == cwd);
    if spec_all_exist(fs, cwd, required) {
        assert(spec_dir_satisfied(found[0]));
    } else {
        let j = choose|j: int| 0 <= j < required.len() && !fs.contains(
            #[trigger] spec_join(cwd, required[j]),
        );
        assert(!found[0][j]);
        assert(!spec_dir_satisfied(found[0]));
        assert(spec_first_hit(found, 1) is None);
    }
    assert(spec_probe_matrix(required, false, cwd) =~= seq![spec_dir_probes(cwd, required)]);
}

/// Law: with parent search, resolution returns the nearest ancestor of the
/// working directory (itself counted at distance zero) under which every
/// required file exists — never a farther one when a nearer one qualifies —
/// and nothing when no ancestor up to the topmost directory qualifies.
pub proof fn lemma_root_parent_search_nearest(
    required: Seq<Seq<char>>,
    cwd: Seq<char>,
    fs: Set<Seq<char>>,
    found: Seq<Seq<bool>>,
)
    requires
        required.len() > 0,
        spec_found_matches(fs, spec_ancestors(cwd), required, found),
    ensures
        match spec_resolve_root(required, true, cwd, found) {
            Some(root) => exists|i: int|
                0 <= i < spec_ancestors(cwd).len() && #[trigger] spec_ancestors(cwd)[i] == root
                    && spec_all_exist(fs, root, required) && (forall|h: int|
                    0 <= h < i ==> !spec_all_exist(fs, spec_ancestors(cwd)[h], required)),
            None => forall|i: int|
                0 <= i < spec_ancestors(cwd).len() ==> !spec_all_exist(
                    fs,
                    spec_ancestors(cwd)[i],
                    required,
                ),
        },
{
    let dirs = spec_ancestors(cwd);
    assert(spec_candidates(required, true, cwd) == dirs);
    assert forall|i: int| 0 <= i < dirs.len() implies (spec_dir_satisfied(#[trigger] found[i])
        <==> spec_all_exist(fs, dirs[i], required)) by {
        if spec_dir_satisfied(found[i]) {
            assert forall|j: int| 0 <= j < required.len() implies fs.contains(
                #[trigger] spec_join(dirs[i], required[j]),
            ) by {
                assert(found[i][j]);
            }
        }
        if spec_all_exist(fs, dirs[i], required) {
            assert forall|j: int| 0 <= j < found[i].len() implies #[trigger] found[i][j] by {
                assert(fs.contains(spec_join(dirs[i], required[j])));
            }
        }
    }
    lemma_first_hit_characterize(found, 0);
    match spec_first_hit(found, 0) {
        Some(m) => {
            assert(spec_dir_satisfied(found[m]));
            assert(spec_all_exist(fs, dirs[m], required));
            assert forall|h: int| 0 <= h < m implies !spec_all_exist(fs, dirs[h], required) by {
                assert(!spec_dir_satisfied(found[h]));
            }
            assert(spec_ancestors(cwd)[m] == dirs[m]);
            assert(spec_resolve_root(required, true, cwd, found) == Some(dirs[m]));
        },
        None => {
            assert forall|i: int| 0 <= i < dirs.len() implies !spec_all_exist(
                fs,
                dirs[i],
                required,
            ) by {
                assert(!spec_dir_satisfied(found[i]));
            }
        },
    }
}

} // verus!
