//! Identity resolution and configuration-file discovery.
//!
//! The identity is the name the launcher is operating under: an override
//! value when one is set and non-empty, otherwise the stem of the running
//! executable's file name. The configuration file `<identity>.toml` is
//! looked for in the working directory first, then in the platform's
//! system-wide configuration directory; the first directory that has it
//! wins.

use vstd::prelude::*;
use vstd::string::StringExecFns;
use crate::pathstr::{exe_identity, join_path, spec_exe_identity, spec_join};

verus! {

/// How the launcher's identity is determined: an override value set and
/// non-empty wins verbatim; otherwise the executable path's stem decides,
/// and a path without a usable final component yields no identity at all.
pub open spec fn spec_identity(override_name: Option<Seq<char>>, exe_path: Seq<char>) -> Option<
    Seq<char>,
> {
    match override_name {
        Some(o) => if o.len() > 0 {
            Some(o)
        } else {
            spec_exe_identity(exe_path)
        },
        None => spec_exe_identity(exe_path),
    }
}

/// The view of an optional borrowed string.
pub open spec fn opt_str_view(s: Option<&String>) -> Option<Seq<char>> {
    match s {
        Some(x) => Some(x@),
        None => None,
    }
}

/// Resolve the launcher's identity from the override value, if any, and
/// the running executable's path.
pub fn resolve_identity(override_name: Option<&String>, exe_path: &str) -> (r: Option<String>)
    ensures
        match r {
            Some(id) => spec_identity(opt_str_view(override_name), exe_path@) == Some(id@),
            None => spec_identity(opt_str_view(override_name), exe_path@) is None,
        },
{
    match override_name {
        Some(o) => {
            if o.as_str().unicode_len() > 0 {
                Some(o.clone())
            } else {
                exe_identity(exe_path)
            }
        },
        None => exe_identity(exe_path),
    }
}

/// The name of the configuration file for an identity.
pub open spec fn spec_config_file_name(identity: Seq<char>) -> Seq<char> {
    identity + ".toml"@
}

/// Build `<identity>.toml`.
pub fn config_file_name(identity: &String) -> (r: String)
    ensures
        r@ == spec_config_file_name(identity@),
{
    let mut r = identity.clone();
    r.append(".toml");
    r
}

/// The places the configuration file may stand, in the order they are
/// tried: the working directory first, then the system-wide directory.
pub open spec fn spec_config_candidates(
    identity: Seq<char>,
    cwd: Seq<char>,
    system_dir: Seq<char>,
) -> Seq<Seq<char>> {
    seq![
        spec_join(cwd, spec_config_file_name(identity)),
        spec_join(system_dir, spec_config_file_name(identity)),
    ]
}

/// The candidate paths of the configuration file, in the order they are
/// tried.
pub fn config_candidates(identity: &String, cwd: &String, system_dir: &String) -> (r: Vec<String>)
    ensures
        r.deep_view() == spec_config_candidates(identity@, cwd@, system_dir@),
{
    let name = config_file_name(identity);
    let mut r: Vec<String> = Vec::new();
    r.push(join_path(cwd.as_str(), name.as_str()));
    r.push(join_path(system_dir.as_str(), name.as_str()));
    proof {
        assert(r.deep_view() =~= spec_config_candidates(identity@, cwd@, system_dir@));
    }
    r
}

/// The first path reported present, if any, in order.
pub open spec fn spec_first_present(paths: Seq<Seq<char>>, found: Seq<bool>, i: int) -> Option<
    Seq<char>,
>
    decreases paths.len() - i,
{
    if i < 0 || i >= paths.len() {
        None
    } else if found[i] {
        Some(paths[i])
    } else {
        spec_first_present(paths, found, i + 1)
    }
}

/// Pick the first candidate path that exists: `found[i]` answers the
/// existence probe for `paths[i]`.
pub fn locate_config(paths: &Vec<String>, found: &Vec<bool>) -> (r: Option<String>)
    requires
        found@.len() == paths@.len(),
    ensures
        match r {
            Some(p) => spec_first_present(paths.deep_view(), found@, 0) == Some(p@),
            None => spec_first_present(paths.deep_view(), found@, 0) is None,
        },
{
    let n = paths.len();
    let mut i: usize = 0;
    while i < n
        invariant
            i <= n,
            n == paths@.len(),
            found@.len() == n,
            spec_first_present(paths.deep_view(), found@, 0) == spec_first_present(
                paths.deep_view(),
                found@,
                i as int,
            ),
        decreases n - i,
    {
        if found[i] {
            return Some(paths[i].clone());
        }
        i = i + 1;
    }
    None
}

/// The platform family the launcher runs on; it decides where the
/// system-wide configuration directory stands.
#[derive(Debug, Clone, Copy, PartialEq, Eq, Structural)]
pub enum OsKind {
    Windows,
    MacOs,
    Linux,
}

/// The system-wide configuration directory searched after the working
/// directory: a common-files location on Windows, the application-support
/// tree on macOS, and an `/etc` subdirectory on Linux.
pub fn system_config_dir(os: OsKind) -> (r: String)
    ensures
        os == OsKind::Windows ==> r@ == "C:\\Program Files\\Common Files\\get-it-going"@,
        os == OsKind::MacOs ==> r@ == "/Library/Application Support/get-it-going"@,
        os == OsKind::Linux ==> r@ == "/etc/get-it-going"@,
{
    match os {
        OsKind::Windows => String::from_str("C:\\Program Files\\Common Files\\get-it-going"),
        OsKind::MacOs => String::from_str("/Library/Application Support/get-it-going"),
        OsKind::Linux => String::from_str("/etc/get-it-going"),
    }
}

} // verus!
