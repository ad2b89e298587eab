//! Command composition: turning the configuration's `before_run`, `run` and
//! `fallback` choices, the resolved root and the forwarded arguments into
//! fully specified command descriptions, ready to execute.

use vstd::prelude::*;
use vstd::string::StringExecFns;
use crate::pathstr::{join_path, spec_join};
use crate::schema::{AppConfig, BeforeRun, BeforeRunV, Run, RunV};
use crate::searchpath::{spec_strip_path_entry, strip_path_entry};

verus! {

/// A command, fully specified: the program, its arguments in order, the
/// working directory to start it in (none: inherit the launcher's), and the
/// environment overrides to apply.
#[derive(Debug, Clone, PartialEq)]
pub struct CommandSpec {
    pub program: String,
    pub args: Vec<String>,
    pub cwd: Option<String>,
    pub env: Vec<(String, String)>,
}

/// Ghost image of [`CommandSpec`].
pub struct CommandSpecV {
    pub program: Seq<char>,
    pub args: Seq<Seq<char>>,
    pub cwd: Option<Seq<char>>,
    pub env: Seq<(Seq<char>, Seq<char>)>,
}

impl View for CommandSpec {
    type V = CommandSpecV;

    open spec fn view(&self) -> CommandSpecV {
        CommandSpecV {
            program: self.program@,
            args: self.args.deep_view(),
            cwd: self.cwd.deep_view(),
            env: self.env.deep_view(),
        }
    }
}

/// What a command composition can fail on: only the tokenization of a
/// `before_run.command` string.
#[derive(Debug, Clone, PartialEq)]
pub enum ComposeError {
    /// The command string is not valid shell syntax (an unclosed quote or a
    /// trailing backslash).
    BeforeRunSyntax,
    /// The command string tokenizes to no words at all, so there is no
    /// program to run.
    BeforeRunNoProgram,
}

/// What shell word splitting yields for a string: its words, or nothing for
/// erroneous input. The splitting is deterministic in the string alone.
pub uninterp spec fn shell_tokens(s: Seq<char>) -> Option<Seq<Seq<char>>>;

/// No word contains a NUL character. NUL is the one thing shell quoting
/// cannot encode, so it is the one thing that can stop a re-join.
pub open spec fn nul_free(words: Seq<Seq<char>>) -> bool {
    forall|i: int| 0 <= i < words.len() ==> !words[i].contains('\0')
}

/// Relies on shlex::split: POSIX-shell word splitting of the string, `None`
/// on erroneous input such as an unclosed quote or a trailing backslash.
#[verifier::external_body]
fn shell_split(s: &str) -> (r: Option<Vec<String>>)
    ensures
        match r {
            Some(words) => shell_tokens(s@) == Some(words.deep_view()),
            None => shell_tokens(s@) is None,
        },
{
    shlex::split(s)
}

/// Relies on shlex::try_join: it joins the words with a single space
/// between consecutive words, quoting each word only as far as needed so
/// that shell word splitting parses the result back into the original
/// words; its only error is a word containing a NUL byte, so on NUL-free
/// words it always succeeds.
#[verifier::external_body]
fn shell_join(words: &Vec<String>) -> (r: Option<String>)
    ensures
        r matches Some(joined) ==> shell_tokens(joined@) == Some(words.deep_view()),
        nul_free(words.deep_view()) ==> r is Some,
{
    shlex::try_join(words.iter().map(|w| w.as_str())).ok()
}

/// Append clones of all of `src` to `dst`.
pub(crate) fn push_all(dst: &mut Vec<String>, src: &Vec<String>)
    ensures
        final(dst).deep_view() == old(dst).deep_view() + src.deep_view(),
{
    let n = src.len();
    let mut i: usize = 0;
    while i < n
        invariant
            i <= n,
            n == src@.len(),
            dst.deep_view() =~= old(dst).deep_view() + src.deep_view().take(i as int),
        decreases n - i,
    {
        let ghost prev = dst.deep_view();
        dst.push(src[i].clone());
        proof {
            assert(dst.deep_view() =~= prev.push(src.deep_view()[i as int]));
            assert(dst.deep_view() =~= old(dst).deep_view() + src.deep_view().take(i + 1));
        }
        i = i + 1;
    }
    proof {
        assert(dst.deep_view() =~= old(dst).deep_view() + src.deep_view());
    }
}

/// The name of the per-platform executable for an identity: the identity
/// itself, with `.exe` appended on Windows.
pub open spec fn spec_exe_name(identity: Seq<char>, windows: bool) -> Seq<char> {
    if windows {
        identity + ".exe"@
    } else {
        identity
    }
}

/// Build the executable name an identity stands for on the platform.
pub fn exe_name(identity: &String, windows: bool) -> (r: String)
    ensures
        r@ == spec_exe_name(identity@, windows),
{
    if windows {
        let mut r = identity.clone();
        r.append(".exe");
        r
    } else {
        identity.clone()
    }
}

impl AppConfig {
    /// Compose the setup command: a `command` string is shell-tokenized
    /// into the program and its arguments, a `script_path` is the program
    /// with no arguments; either runs from the resolved root and forwards
    /// nothing.
    pub fn generate_before_run(&self, root: &String) -> (r: Result<CommandSpec, ComposeError>)
        ensures
            match self@.before_run {
                BeforeRunV::ScriptPath(p) => r matches Ok(c) && c@.program == p && c@.args
                    == Seq::<Seq<char>>::empty() && c@.cwd == Some(root@) && c@.env == Seq::<(
                    Seq<char>,
                    Seq<char>,
                )>::empty(),
                BeforeRunV::Command(cmd) => match shell_tokens(cmd) {
                    None => r == Err::<CommandSpec, _>(ComposeError::BeforeRunSyntax),
                    Some(words) => if words.len() == 0 {
                        r == Err::<CommandSpec, _>(ComposeError::BeforeRunNoProgram)
                    } else {
                        r matches Ok(c) && c@.program == words[0] && c@.args == words.drop_first()
                            && c@.cwd == Some(root@) && c@.env == Seq::<(
                            Seq<char>,
                            Seq<char>,
                        )>::empty()
                    },
                },
            },
    {
        match &self.before_run {
            BeforeRun::ScriptPath(p) => {
                let empty_args: Vec<String> = Vec::new();
                let empty_env: Vec<(String, String)> = Vec::new();
                proof {
                    assert(empty_args.deep_view() =~= Seq::<Seq<char>>::empty());
                    assert(empty_env.deep_view() =~= Seq::<(Seq<char>, Seq<char>)>::empty());
                }
                Ok(
                    CommandSpec {
                        program: p.clone(),
                        args: empty_args,
                        cwd: Some(root.clone()),
                        env: empty_env,
                    },
                )
            },
            BeforeRun::Command(cmd) => {
                match shell_split(cmd.as_str()) {
                    None => Err(ComposeError::BeforeRunSyntax),
                    Some(words) => {
                        if words.len() == 0 {
                            Err(ComposeError::BeforeRunNoProgram)
                        } else {
                            let ghost wview = words.deep_view();
                            let mut rest = words;
                            let program = rest.remove(0);
                            proof {
                                assert(rest.deep_view() =~= wview.drop_first());
                                assert(program@ == wview[0]);
                            }
                            let empty_env: Vec<(String, String)> = Vec::new();
                            proof {
                                assert(empty_env.deep_view() =~= Seq::<(
                                    Seq<char>,
                                    Seq<char>,
                                )>::empty());
                            }
                            Ok(
                                CommandSpec {
                                    program,
                                    args: rest,
                                    cwd: Some(root.clone()),
                                    env: empty_env,
                                },
                            )
                        }
                    },
                }
            },
        }
    }

    /// Compose the main command: the outer program with the identity
    /// prepended to the forwarded arguments, the per-platform executable
    /// under the configured folder, or the literal executable path; all run
    /// from the resolved root with no environment overrides.
    pub fn generate_run(
        &self,
        root: &String,
        identity: &String,
        forwarded: &Vec<String>,
        windows: bool,
    ) -> (r: CommandSpec)
        ensures
            r@.cwd == Some(root@),
            r@.env == Seq::<(Seq<char>, Seq<char>)>::empty(),
            match self@.run {
                RunV::SubcommandOf(outer) => r@.program == outer && r@.args == seq![identity@]
                    + forwarded.deep_view(),
                RunV::PrependFolder(folder) => r@.program == spec_join(
                    folder,
                    spec_exe_name(identity@, windows),
                ) && r@.args == forwarded.deep_view(),
                RunV::Executable(path) => r@.program == path && r@.args == forwarded.deep_view(),
            },
    {
        let empty_env: Vec<(String, String)> = Vec::new();
        proof {
            assert(empty_env.deep_view() =~= Seq::<(Seq<char>, Seq<char>)>::empty());
        }
        match &self.run {
            Run::SubcommandOf(outer) => {
                let mut args: Vec<String> = Vec::new();
                args.push(identity.clone());
                proof {
                    assert(args.deep_view() =~= seq![identity@]);
                }
                push_all(&mut args, forwarded);
                CommandSpec {
                    program: outer.clone(),
                    args,
                    cwd: Some(root.clone()),
                    env: empty_env,
                }
            },
            Run::PrependFolder(folder) => {
                let name = exe_name(identity, windows);
                let mut args: Vec<String> = Vec::new();
                proof {
                    assert(args.deep_view() =~= Seq::<Seq<char>>::empty());
                }
                push_all(&mut args, forwarded);
                proof {
                    assert(args.deep_view() =~= forwarded.deep_view());
                }
                CommandSpec {
                    program: join_path(folder.as_str(), name.as_str()),
                    args,
                    cwd: Some(root.clone()),
                    env: empty_env,
                }
            },
            Run::Executable(path) => {
                let mut args: Vec<String> = Vec::new();
                proof {
                    assert(args.deep_view() =~= Seq::<Seq<char>>::empty());
                }
                push_all(&mut args, forwarded);
                proof {
                    assert(args.deep_view() =~= forwarded.deep_view());
                }
                CommandSpec {
                    program: path.clone(),
                    args,
                    cwd: Some(root.clone()),
                    env: empty_env,
                }
            },
        }
    }

    /// Compose the fallback command, if one is configured: an explicit path
    /// runs as the program, and an absent path re-invokes the identity with
    /// the launcher's own directory stripped from the search-path variable,
    /// so a same-named tool installed elsewhere takes over. Neither sets a
    /// working directory: there is no resolved root when a fallback runs.
    pub fn generate_fallback(
        &self,
        identity: &String,
        forwarded: &Vec<String>,
        own_dir: &String,
        path_var: &String,
    ) -> (r: Option<CommandSpec>)
        ensures
            match self@.fallback {
                None => r is None,
                Some(fb) => r matches Some(c) && c@.cwd == None::<Seq<char>> && c@.args
                    == forwarded.deep_view() && match fb.path {
                    Some(p) => c@.program == p && c@.env == Seq::<(Seq<char>, Seq<char>)>::empty(),
                    None => c@.program == identity@ && c@.env == seq![
                        ("PATH"@, spec_strip_path_entry(path_var@, own_dir@)),
                    ],
                },
            },
    {
        match &self.fallback {
            None => None,
            Some(fb) => {
                let mut args: Vec<String> = Vec::new();
                proof {
                    assert(args.deep_view() =~= Seq::<Seq<char>>::empty());
                }
                push_all(&mut args, forwarded);
                proof {
                    assert(args.deep_view() =~= forwarded.deep_view());
                }
                match &fb.path {
                    Some(p) => {
                        let empty_env: Vec<(String, String)> = Vec::new();
                        proof {
                            assert(empty_env.deep_view() =~= Seq::<(Seq<char>, Seq<char>)>::empty());
                        }
                        Some(
                            CommandSpec { program: p.clone(), args, cwd: None, env: empty_env },
                        )
                    },
                    None => {
                        let stripped = strip_path_entry(path_var.as_str(), own_dir);
                        let mut env: Vec<(String, String)> = Vec::new();
                        env.push((String::from_str("PATH"), stripped));
                        proof {
                            assert(env.deep_view() =~= seq![
                                ("PATH"@, spec_strip_path_entry(path_var@, own_dir@)),
                            ]);
                        }
                        Some(
                            CommandSpec { program: identity.clone(), args, cwd: None, env },
                        )
                    },
                }
            },
        }
    }
}

/// Tokenize a command string and join the words back together. The result
/// is the words and the joined string — single spaces between words, each
/// word quoted only as needed — and the joined string tokenizes to exactly
/// the same words again: the round trip is stable. It yields nothing only
/// when the string itself does not tokenize, or when a word holds a NUL
/// character, which shell quoting cannot encode.
pub fn retokenized(cmd: &str) -> (r: Option<(Vec<String>, String)>)
    ensures
        r matches Some(pair) ==> shell_tokens(cmd@) == Some(pair.0.deep_view()) && shell_tokens(
            pair.1@,
        ) == Some(pair.0.deep_view()),
        shell_tokens(cmd@) is None ==> r is None,
        (shell_tokens(cmd@) matches Some(words) && nul_free(words)) ==> r is Some,
{
    match shell_split(cmd) {
        None => None,
        Some(words) => match shell_join(&words) {
            None => None,
            Some(joined) => Some((words, joined)),
        },
    }
}

} // verus!
