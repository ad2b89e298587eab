//! The dispatch decisions: what to run next after root resolution, after
//! the setup step, and how a child's exit status becomes the launcher's own
//! exit code. The caller performs the spawns and waits; every choice of
//! what to spawn, and every refusal, is decided here.

use vstd::prelude::*;
use vstd::string::StringExecFns;
use crate::compose::{CommandSpec, ComposeError, shell_tokens};
use crate::schema::{AppConfig, BeforeRunV, RunV};
use crate::pathstr::spec_join;
use crate::compose::spec_exe_name;

verus! {

/// Why a dispatch stops before any main or fallback step could run.
#[derive(Debug, Clone, PartialEq)]
pub enum DispatchError {
    /// No project root was found and no fallback is configured.
    NoRoot,
    /// The setup command could not be composed.
    BadBeforeRun(ComposeError),
    /// The setup command ran and returned a non-zero status.
    BeforeRunFailed,
}

/// The next thing the launcher must do.
#[derive(Debug, Clone, PartialEq)]
pub enum Step {
    /// Run the setup command, wait for it, and report its status to
    /// [`AppConfig::after_before_run`].
    RunBefore(CommandSpec),
    /// Run the main command, wait for it, and exit with its status.
    RunMain(CommandSpec),
    /// Run the fallback command, wait for it, and exit with its status.
    RunFallback(CommandSpec),
    /// A fallback without an explicit path is configured: re-invoke the
    /// identity with the launcher's directory stripped from the search
    /// path, composed by [`AppConfig::generate_fallback`] once the caller
    /// has read the search-path variable and its own location.
    RunPathFallback,
    /// Stop: nothing may be spawned.
    Fail(DispatchError),
}

impl AppConfig {
    /// The step after root resolution: with a root, the setup command;
    /// without one, the configured fallback, or failure when there is
    /// none.
    pub fn first_step(&self, root: Option<&String>, forwarded: &Vec<String>) -> (r: Step)
        ensures
            match root {
                Some(rt) => match self@.before_run {
                    BeforeRunV::ScriptPath(p) => r matches Step::RunBefore(c) && c@.program == p
                        && c@.args == Seq::<Seq<char>>::empty() && c@.cwd == Some(rt@) && c@.env
                        == Seq::<(Seq<char>, Seq<char>)>::empty(),
                    BeforeRunV::Command(cmd) => match shell_tokens(cmd) {
                        None => r == Step::Fail(
                            DispatchError::BadBeforeRun(ComposeError::BeforeRunSyntax),
                        ),
                        Some(words) => if words.len() == 0 {
                            r == Step::Fail(
                                DispatchError::BadBeforeRun(ComposeError::BeforeRunNoProgram),
                            )
                        } else {
                            r matches Step::RunBefore(c) && c@.program == words[0] && c@.args
                                == words.drop_first() && c@.cwd == Some(rt@) && c@.env == Seq::<(
                                Seq<char>,
                                Seq<char>,
                            )>::empty()
                        },
                    },
                },
                None => match self@.fallback {
                    None => r == Step::Fail(DispatchError::NoRoot),
                    Some(fb) => match fb.path {
                        Some(p) => r matches Step::RunFallback(c) && c@.program == p && c@.args
                            == forwarded.deep_view() && c@.cwd == None::<Seq<char>> && c@.env
                            == Seq::<(Seq<char>, Seq<char>)>::empty(),
                        None => r == Step::RunPathFallback,
                    },
                },
            },
    {
        match root {
            Some(rt) => match self.generate_before_run(rt) {
                Ok(c) => Step::RunBefore(c),
                Err(e) => Step::Fail(DispatchError::BadBeforeRun(e)),
            },
            None => match &self.fallback {
                None => Step::Fail(DispatchError::NoRoot),
                Some(fb) => match &fb.path {
                    Some(p) => {
                        let mut args: Vec<String> = Vec::new();
                        proof {
                            assert(args.deep_view() =~= Seq::<Seq<char>>::empty());
                        }
                        crate::compose::push_all(&mut args, forwarded);
                        proof {
                            assert(args.deep_view() =~= forwarded.deep_view());
                        }
                        let env: Vec<(String, String)> = Vec::new();
                        proof {
                            assert(env.deep_view() =~= Seq::<(Seq<char>, Seq<char>)>::empty());
                        }
                        Step::RunFallback(
                            CommandSpec { program: p.clone(), args, cwd: None, env },
                        )
                    },
                    None => Step::RunPathFallback,
                },
            },
        }
    }

    /// The step after the setup command has run: its failure is fatal and
    /// the main step never runs; its success hands over to the main
    /// command.
    pub fn after_before_run(
        &self,
        root: &String,
        identity: &String,
        forwarded: &Vec<String>,
        windows: bool,
        before_succeeded: bool,
    ) -> (r: Step)
        ensures
            !before_succeeded ==> r == Step::Fail(DispatchError::BeforeRunFailed),
            before_succeeded ==> (r matches Step::RunMain(c) && c@.cwd == Some(root@) && c@.env
                == Seq::<(Seq<char>, Seq<char>)>::empty() && match self@.run {
                RunV::SubcommandOf(outer) => c@.program == outer && c@.args == seq![identity@]
                    + forwarded.deep_view(),
                RunV::PrependFolder(folder) => c@.program == spec_join(
                    folder,
                    spec_exe_name(identity@, windows),
                ) && c@.args == forwarded.deep_view(),
                RunV::Executable(path) => c@.program == path && c@.args == forwarded.deep_view(),
            }),
    {
        if !before_succeeded {
            Step::Fail(DispatchError::BeforeRunFailed)
        } else {
            Step::RunMain(self.generate_run(root, identity, forwarded, windows))
        }
    }
}

/// How a child's exit status becomes the launcher's single-byte exit code:
/// the magnitude of the reported code, truncated to its lowest byte; a
/// status with no code (a signal) becomes zero when it still counts as
/// success and one otherwise.
pub open spec fn spec_exit_code(code: Option<i32>, success: bool) -> u8 {
    match code {
        Some(c) => (if c >= 0 {
            c as int
        } else {
            -(c as int)
        } % 256) as u8,
        None => if success {
            0 as u8
        } else {
            1 as u8
        },
    }
}

/// Convert a child's exit status to the launcher's own exit code.
pub fn exit_code_from_status(code: Option<i32>, success: bool) -> (r: u8)
    ensures
        r == spec_exit_code(code, success),
{
    match code {
        Some(c) => {
            let wide: i64 = c as i64;
            let magnitude: i64 = if wide < 0 {
                -wide
            } else {
                wide
            };
            (magnitude % 256) as u8
        },
        None => {
            if success {
                0
            } else {
                1
            }
        },
    }
}

/// The human-readable description of each dispatch failure.
pub open spec fn spec_dispatch_error_text(e: DispatchError) -> Seq<char> {
    match e {
        DispatchError::NoRoot => "couldn't find required files"@,
        DispatchError::BadBeforeRun(ComposeError::BeforeRunSyntax) =>
            "before_run command is not valid shell syntax"@,
        DispatchError::BadBeforeRun(ComposeError::BeforeRunNoProgram) =>
            "before_run command names no program"@,
        DispatchError::BeforeRunFailed => "before_run returned a non-zero status"@,
    }
}

impl DispatchError {
    /// Describe the failure in one line.
    pub fn describe(&self) -> (r: String)
        ensures
            r@ == spec_dispatch_error_text(*self),
    {
        match self {
            DispatchError::NoRoot => String::from_str("couldn't find required files"),
            DispatchError::BadBeforeRun(e) => match e {
                ComposeError::BeforeRunSyntax => String::from_str(
                    "before_run command is not valid shell syntax",
                ),
                ComposeError::BeforeRunNoProgram => String::from_str(
                    "before_run command names no program",
                ),
            },
            DispatchError::BeforeRunFailed => String::from_str(
                "before_run returned a non-zero status",
            ),
        }
    }
}

} // verus!
