//! The launcher's configuration schema.
//!
//! A configuration names the files whose presence marks a project root,
//! whether ancestors of the working directory may be searched for them, a
//! setup step to run first, the main program to hand over to, and an optional
//! fallback for when no root can be found.

use vstd::prelude::*;
use vstd::string::StringExecFns;

verus! {

/// The setup step: either a shell-style command line to tokenize, or the
/// path of an existing script to execute directly.
#[derive(Debug, Clone, PartialEq)]
pub enum BeforeRun {
    Command(String),
    ScriptPath(String),
}

/// Ghost image of [`BeforeRun`].
pub enum BeforeRunV {
    Command(Seq<char>),
    ScriptPath(Seq<char>),
}

impl View for BeforeRun {
    type V = BeforeRunV;

    open spec fn view(&self) -> BeforeRunV {
        match self {
            BeforeRun::Command(s) => BeforeRunV::Command(s@),
            BeforeRun::ScriptPath(s) => BeforeRunV::ScriptPath(s@),
        }
    }
}

/// The main step: a named outer program that takes the identity as its first
/// argument, a folder under which the per-platform executable named after the
/// identity lives, or a literal executable path.
#[derive(Debug, Clone, PartialEq)]
pub enum Run {
    SubcommandOf(String),
    PrependFolder(String),
    Executable(String),
}

/// Ghost image of [`Run`].
pub enum RunV {
    SubcommandOf(Seq<char>),
    PrependFolder(Seq<char>),
    Executable(Seq<char>),
}

impl View for Run {
    type V = RunV;

    open spec fn view(&self) -> RunV {
        match self {
            Run::SubcommandOf(s) => RunV::SubcommandOf(s@),
            Run::PrependFolder(s) => RunV::PrependFolder(s@),
            Run::Executable(s) => RunV::Executable(s@),
        }
    }
}

/// The fallback step, taken when no project root is found: either an explicit
/// program path, or, when absent, the identity itself re-invoked with the
/// launcher's own directory stripped from the search path.
#[derive(Debug, Clone, PartialEq)]
pub struct Fallback {
    pub path: Option<String>,
}

/// Ghost image of [`Fallback`].
pub struct FallbackV {
    pub path: Option<Seq<char>>,
}

impl View for Fallback {
    type V = FallbackV;

    open spec fn view(&self) -> FallbackV {
        FallbackV { path: self.path.deep_view() }
    }
}

/// A parsed configuration. Read-only once parsed: every later step only
/// inspects it.
#[derive(Debug, Clone, PartialEq)]
pub struct AppConfig {
    /// Relative path fragments whose joint presence marks a project root;
    /// empty means the working directory is always the root.
    pub required_files: Vec<String>,
    /// Whether ancestor directories are searched when the working directory
    /// lacks the required files.
    pub search_parents: bool,
    /// The setup step, run before the main step.
    pub before_run: BeforeRun,
    /// The main step.
    pub run: Run,
    /// The optional fallback step.
    pub fallback: Option<Fallback>,
}

/// Ghost image of [`AppConfig`].
pub struct AppConfigV {
    pub required_files: Seq<Seq<char>>,
    pub search_parents: bool,
    pub before_run: BeforeRunV,
    pub run: RunV,
    pub fallback: Option<FallbackV>,
}

impl View for AppConfig {
    type V = AppConfigV;

    open spec fn view(&self) -> AppConfigV {
        AppConfigV {
            required_files: self.required_files.deep_view(),
            search_parents: self.search_parents,
            before_run: self.before_run@,
            run: self.run@,
            fallback: match self.fallback {
                Some(f) => Some(f@),
                None => None,
            },
        }
    }
}

/// The non-fatal findings of the post-parse lint pass: settings that are
/// present but can have no effect.
#[derive(Debug, Clone, PartialEq)]
pub struct LintReport {
    /// `search_parents` is set although no files are required, so there is
    /// nothing to search for.
    pub useless_search_parents: bool,
    /// A fallback is configured although no files are required, so the root
    /// never fails to resolve and the fallback never runs.
    pub useless_fallback: bool,
}

impl AppConfig {
    /// The diagnostic lint pass: it never blocks execution, it only names
    /// the settings that can have no effect.
    pub fn lint(&self) -> (r: LintReport)
        ensures
            r.useless_search_parents == (self@.required_files.len() == 0 && self.search_parents),
            r.useless_fallback == (self@.required_files.len() == 0 && self.fallback is Some),
    {
        LintReport {
            useless_search_parents: self.required_files.len() == 0 && self.search_parents,
            useless_fallback: self.required_files.len() == 0 && self.fallback.is_some(),
        }
    }

    /// Whether the setup step names a script whose existence must be checked
    /// at load time; returns that path.
    pub fn script_path(&self) -> (r: Option<&String>)
        ensures
            match r {
                Some(p) => self@.before_run == BeforeRunV::ScriptPath(p@),
                None => self@.before_run is Command,
            },
    {
        match &self.before_run {
            BeforeRun::ScriptPath(p) => Some(p),
            BeforeRun::Command(_) => None,
        }
    }

    /// The fail-fast check on `before_run.script_path`: given whether the
    /// named script exists as a regular file, accept the configuration or
    /// reject it naming the path. Configurations whose setup step is a
    /// command line are always accepted.
    pub fn validate_script(&self, script_is_file: bool) -> (r: Result<(), ParseError>)
        ensures
            match self@.before_run {
                BeforeRunV::Command(_) => r is Ok,
                BeforeRunV::ScriptPath(p) => if script_is_file {
                    r is Ok
                } else {
                    r matches Err(e) && e@ == ParseErrorV::ScriptMissing(p)
                },
            },
    {
        match &self.before_run {
            BeforeRun::Command(_) => Ok(()),
            BeforeRun::ScriptPath(p) => if script_is_file {
                Ok(())
            } else {
                Err(ParseError::ScriptMissing(p.clone()))
            },
        }
    }
}

/// Everything that can be wrong with a configuration file.
#[derive(Debug, Clone, PartialEq)]
pub enum ParseError {
    /// The text is not well-formed TOML; carries the parser's message.
    Syntax(String),
    /// The `before_run` table is missing.
    MissingBeforeRun,
    /// The `run` table is missing.
    MissingRun,
    /// `required_files` is present but is not an array of strings.
    RequiredFilesInvalid,
    /// `search_parents` is present but is not a boolean.
    SearchParentsInvalid,
    /// `before_run` is present but is not a table.
    BeforeRunNotTable,
    /// The `before_run` table is empty.
    BeforeRunEmpty,
    /// The named `before_run` key holds a value that is not a string.
    BeforeRunValueNotString(String),
    /// The named key is neither `command` nor `script_path`.
    BeforeRunUnknownKey(String),
    /// `before_run.command` is the empty string.
    CommandEmpty,
    /// `before_run.script_path` does not name an existing regular file.
    ScriptMissing(String),
    /// `run` is present but is not a table.
    RunNotTable,
    /// The `run` table is empty.
    RunEmpty,
    /// The named `run` key holds a value that is not a string.
    RunValueNotString(String),
    /// The named key is neither `subcommand_of` nor `path`.
    RunUnknownKey(String),
    /// `fallback` is present but is not a table, or its `path` is not a
    /// string.
    FallbackInvalid,
}

/// Ghost image of [`ParseError`].
pub enum ParseErrorV {
    Syntax(Seq<char>),
    MissingBeforeRun,
    MissingRun,
    RequiredFilesInvalid,
    SearchParentsInvalid,
    BeforeRunNotTable,
    BeforeRunEmpty,
    BeforeRunValueNotString(Seq<char>),
    BeforeRunUnknownKey(Seq<char>),
    CommandEmpty,
    ScriptMissing(Seq<char>),
    RunNotTable,
    RunEmpty,
    RunValueNotString(Seq<char>),
    RunUnknownKey(Seq<char>),
    FallbackInvalid,
}

impl View for ParseError {
    type V = ParseErrorV;

    open spec fn view(&self) -> ParseErrorV {
        match self {
            ParseError::Syntax(s) => ParseErrorV::Syntax(s@),
            ParseError::MissingBeforeRun => ParseErrorV::MissingBeforeRun,
            ParseError::MissingRun => ParseErrorV::MissingRun,
            ParseError::RequiredFilesInvalid => ParseErrorV::RequiredFilesInvalid,
            ParseError::SearchParentsInvalid => ParseErrorV::SearchParentsInvalid,
            ParseError::BeforeRunNotTable => ParseErrorV::BeforeRunNotTable,
            ParseError::BeforeRunEmpty => ParseErrorV::BeforeRunEmpty,
            ParseError::BeforeRunValueNotString(s) => ParseErrorV::BeforeRunValueNotString(s@),
            ParseError::BeforeRunUnknownKey(s) => ParseErrorV::BeforeRunUnknownKey(s@),
            ParseError::CommandEmpty => ParseErrorV::CommandEmpty,
            ParseError::ScriptMissing(s) => ParseErrorV::ScriptMissing(s@),
            ParseError::RunNotTable => ParseErrorV::RunNotTable,
            ParseError::RunEmpty => ParseErrorV::RunEmpty,
            ParseError::RunValueNotString(s) => ParseErrorV::RunValueNotString(s@),
            ParseError::RunUnknownKey(s) => ParseErrorV::RunUnknownKey(s@),
            ParseError::FallbackInvalid => ParseErrorV::FallbackInvalid,
        }
    }
}

/// The human-readable description of each parse error, with the offending
/// key or path written into it.
pub open spec fn spec_parse_error_text(e: ParseErrorV) -> Seq<char> {
    match e {
        ParseErrorV::Syntax(m) => "invalid config file: "@ + m,
        ParseErrorV::MissingBeforeRun => "missing field `before_run`"@,
        ParseErrorV::MissingRun => "missing field `run`"@,
        ParseErrorV::RequiredFilesInvalid => "required_files must be an array of strings"@,
        ParseErrorV::SearchParentsInvalid => "search_parents must be a boolean"@,
        ParseErrorV::BeforeRunNotTable => "before_run must be a table"@,
        ParseErrorV::BeforeRunEmpty => "empty before_run table"@,
        ParseErrorV::BeforeRunValueNotString(k) => "before_run value for \""@ + k
            + "\" must be a string"@,
        ParseErrorV::BeforeRunUnknownKey(k) => "unrecognised key \""@ + k
            + "\", expected \"command\" or \"script_path\""@,
        ParseErrorV::CommandEmpty => "command can't be empty"@,
        ParseErrorV::ScriptMissing(p) => "invalid path (not a file): "@ + p,
        ParseErrorV::RunNotTable => "run must be a table"@,
        ParseErrorV::RunEmpty => "empty run table"@,
        ParseErrorV::RunValueNotString(k) => "run value for \""@ + k + "\" must be a string"@,
        ParseErrorV::RunUnknownKey(k) => "unrecognised key \""@ + k
            + "\", expected \"subcommand_of\" or \"path\""@,
        ParseErrorV::FallbackInvalid => "fallback must be a table with at most a string `path`"@,
    }
}

impl ParseError {
    /// Describe the error in one line; an unknown or ill-typed key is
    /// written into the message.
    pub fn describe(&self) -> (r: String)
        ensures
            r@ == spec_parse_error_text(self@),
    {
        match self {
            ParseError::Syntax(m) => String::from_str("invalid config file: ").concat(m.as_str()),
            ParseError::MissingBeforeRun => String::from_str("missing field `before_run`"),
            ParseError::MissingRun => String::from_str("missing field `run`"),
            ParseError::RequiredFilesInvalid => String::from_str(
                "required_files must be an array of strings",
            ),
            ParseError::SearchParentsInvalid => String::from_str(
                "search_parents must be a boolean",
            ),
            ParseError::BeforeRunNotTable => String::from_str("before_run must be a table"),
            ParseError::BeforeRunEmpty => String::from_str("empty before_run table"),
            ParseError::BeforeRunValueNotString(k) => String::from_str(
                "before_run value for \"",
            ).concat(k.as_str()).concat("\" must be a string"),
            ParseError::BeforeRunUnknownKey(k) => String::from_str("unrecognised key \"").concat(
                k.as_str(),
            ).concat("\", expected \"command\" or \"script_path\""),
            ParseError::CommandEmpty => String::from_str("command can't be empty"),
            ParseError::ScriptMissing(p) => String::from_str("invalid path (not a file): ")
                .concat(p.as_str()),
            ParseError::RunNotTable => String::from_str("run must be a table"),
            ParseError::RunEmpty => String::from_str("empty run table"),
            ParseError::RunValueNotString(k) => String::from_str("run value for \"").concat(
                k.as_str(),
            ).concat("\" must be a string"),
            ParseError::RunUnknownKey(k) => String::from_str("unrecognised key \"").concat(
                k.as_str(),
            ).concat("\", expected \"subcommand_of\" or \"path\""),
            ParseError::FallbackInvalid => String::from_str(
                "fallback must be a table with at most a string `path`",
            ),
        }
    }
}

} // verus!
