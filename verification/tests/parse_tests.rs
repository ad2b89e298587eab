//! Tests for configuration parsing: the TOML step, the schema decode, its
//! defaults, and every parse error.

use get_it_going::parse::load_config;
use get_it_going::schema::{AppConfig, BeforeRun, ParseError, Run};

fn parsed(text: &str) -> AppConfig {
    load_config(text).expect("should parse")
}

fn failed(text: &str) -> ParseError {
    load_config(text).expect_err("should fail to parse")
}

#[test]
fn deserialise_example() {
    let text = "required_files = [\"package.json\"]\n\
                search_parents = true\n\
                before_run = { command = \"npm install\" }\n\
                run = { subcommand_of = \"npm\" }\n\
                [fallback]\n\
                path = \"/usr/bin/npm\"\n";
    let app_config = load_config(text).expect("should deserialise");
    assert_eq!(app_config.required_files, vec!["package.json".to_string()]);
    assert!(app_config.search_parents);
}

#[test]
fn full_config_decodes() {
    let cfg = parsed(
        "required_files = [\"a\", \"b\"]\n\
         search_parents = true\n\
         before_run = { command = \"echo hi\" }\n\
         run = { path = \"/usr/bin/tool\" }\n\
         fallback = { path = \"/bin/other\" }\n",
    );
    assert_eq!(cfg.required_files, vec!["a".to_string(), "b".to_string()]);
    assert!(cfg.search_parents);
    assert_eq!(cfg.before_run, BeforeRun::Command("echo hi".to_string()));
    assert_eq!(cfg.run, Run::Executable("/usr/bin/tool".to_string()));
    let fb = cfg.fallback.expect("fallback should be present");
    assert_eq!(fb.path, Some("/bin/other".to_string()));
}

#[test]
fn defaults_apply_when_fields_absent() {
    let cfg = parsed(
        "before_run = { command = \"make setup\" }\n\
         run = { subcommand_of = \"make\" }\n",
    );
    assert!(cfg.required_files.is_empty());
    assert!(!cfg.search_parents);
    assert!(cfg.fallback.is_none());
}

#[test]
fn malformed_toml_is_a_syntax_error() {
    match failed("this is = not [ valid toml") {
        ParseError::Syntax(msg) => assert!(!msg.is_empty()),
        other => panic!("expected a syntax error, got {:?}", other),
    }
}

#[test]
fn missing_before_run_is_rejected() {
    assert_eq!(
        failed("run = { subcommand_of = \"x\" }\n"),
        ParseError::MissingBeforeRun
    );
}

#[test]
fn missing_run_is_rejected() {
    assert_eq!(
        failed("before_run = { command = \"x\" }\n"),
        ParseError::MissingRun
    );
}

#[test]
fn unknown_before_run_key_names_the_key() {
    let err = failed(
        "before_run = { commandz = \"x\" }\n\
         run = { subcommand_of = \"x\" }\n",
    );
    assert_eq!(err, ParseError::BeforeRunUnknownKey("commandz".to_string()));
}

#[test]
fn unknown_run_key_names_the_key() {
    let err = failed(
        "before_run = { command = \"x\" }\n\
         run = { pathz = \"x\" }\n",
    );
    assert_eq!(err, ParseError::RunUnknownKey("pathz".to_string()));
}

#[test]
fn empty_before_run_table_is_rejected() {
    let err = failed(
        "before_run = {}\n\
         run = { subcommand_of = \"x\" }\n",
    );
    assert_eq!(err, ParseError::BeforeRunEmpty);
}

#[test]
fn empty_run_table_is_rejected() {
    let err = failed(
        "before_run = { command = \"x\" }\n\
         run = {}\n",
    );
    assert_eq!(err, ParseError::RunEmpty);
}

#[test]
fn empty_command_is_rejected() {
    let err = failed(
        "before_run = { command = \"\" }\n\
         run = { subcommand_of = \"x\" }\n",
    );
    assert_eq!(err, ParseError::CommandEmpty);
}

#[test]
fn non_string_command_is_rejected_naming_the_key() {
    let err = failed(
        "before_run = { command = 3 }\n\
         run = { subcommand_of = \"x\" }\n",
    );
    assert_eq!(err, ParseError::BeforeRunValueNotString("command".to_string()));
}

#[test]
fn non_table_before_run_is_rejected() {
    let err = failed(
        "before_run = \"echo hi\"\n\
         run = { subcommand_of = \"x\" }\n",
    );
    assert_eq!(err, ParseError::BeforeRunNotTable);
}

#[test]
fn non_table_run_is_rejected() {
    let err = failed(
        "before_run = { command = \"x\" }\n\
         run = 7\n",
    );
    assert_eq!(err, ParseError::RunNotTable);
}

#[test]
fn non_string_array_required_files_is_rejected() {
    let err = failed(
        "required_files = [1, 2]\n\
         before_run = { command = \"x\" }\n\
         run = { subcommand_of = \"x\" }\n",
    );
    assert_eq!(err, ParseError::RequiredFilesInvalid);
}

#[test]
fn non_array_required_files_is_rejected() {
    let err = failed(
        "required_files = \"a\"\n\
         before_run = { command = \"x\" }\n\
         run = { subcommand_of = \"x\" }\n",
    );
    assert_eq!(err, ParseError::RequiredFilesInvalid);
}

#[test]
fn non_bool_search_parents_is_rejected() {
    let err = failed(
        "search_parents = \"yes\"\n\
         before_run = { command = \"x\" }\n\
         run = { subcommand_of = \"x\" }\n",
    );
    assert_eq!(err, ParseError::SearchParentsInvalid);
}

#[test]
fn non_table_fallback_is_rejected() {
    let err = failed(
        "before_run = { command = \"x\" }\n\
         run = { subcommand_of = \"x\" }\n\
         fallback = \"/bin/y\"\n",
    );
    assert_eq!(err, ParseError::FallbackInvalid);
}

#[test]
fn non_string_fallback_path_is_rejected() {
    let err = failed(
        "before_run = { command = \"x\" }\n\
         run = { subcommand_of = \"x\" }\n\
         fallback = { path = 3 }\n",
    );
    assert_eq!(err, ParseError::FallbackInvalid);
}

#[test]
fn fallback_without_path_decodes() {
    let cfg = parsed(
        "before_run = { command = \"x\" }\n\
         run = { subcommand_of = \"x\" }\n\
         fallback = {}\n",
    );
    let fb = cfg.fallback.expect("fallback should be present");
    assert_eq!(fb.path, None);
}

#[test]
fn run_path_with_trailing_separator_is_a_folder() {
    let cfg = parsed(
        "before_run = { command = \"x\" }\n\
         run = { path = \"/opt/tools/\" }\n",
    );
    assert_eq!(cfg.run, Run::PrependFolder("/opt/tools/".to_string()));
}

#[test]
fn run_path_without_trailing_separator_is_an_executable() {
    let cfg = parsed(
        "before_run = { command = \"x\" }\n\
         run = { path = \"/opt/tools\" }\n",
    );
    assert_eq!(cfg.run, Run::Executable("/opt/tools".to_string()));
}

#[test]
fn script_path_decodes_and_script_check_applies() {
    let cfg = parsed(
        "before_run = { script_path = \"/setup.sh\" }\n\
         run = { subcommand_of = \"x\" }\n",
    );
    assert_eq!(cfg.before_run, BeforeRun::ScriptPath("/setup.sh".to_string()));
    assert_eq!(cfg.script_path(), Some(&"/setup.sh".to_string()));
    assert!(cfg.validate_script(true).is_ok());
    assert_eq!(
        cfg.validate_script(false),
        Err(ParseError::ScriptMissing("/setup.sh".to_string()))
    );
}

#[test]
fn command_config_needs_no_script_check() {
    let cfg = parsed(
        "before_run = { command = \"x\" }\n\
         run = { subcommand_of = \"x\" }\n",
    );
    assert_eq!(cfg.script_path(), None);
    assert!(cfg.validate_script(false).is_ok());
}

#[test]
fn unknown_top_level_keys_are_ignored() {
    let cfg = parsed(
        "unrelated = 5\n\
         before_run = { command = \"x\" }\n\
         run = { subcommand_of = \"x\" }\n",
    );
    assert_eq!(cfg.run, Run::SubcommandOf("x".to_string()));
}

#[test]
fn lint_flags_useless_settings() {
    let cfg = parsed(
        "search_parents = true\n\
         before_run = { command = \"x\" }\n\
         run = { subcommand_of = \"x\" }\n\
         fallback = {}\n",
    );
    let report = cfg.lint();
    assert!(report.useless_search_parents);
    assert!(report.useless_fallback);

    let quiet = parsed(
        "required_files = [\"a\"]\n\
         search_parents = true\n\
         before_run = { command = \"x\" }\n\
         run = { subcommand_of = \"x\" }\n\
         fallback = {}\n",
    );
    let report = quiet.lint();
    assert!(!report.useless_search_parents);
    assert!(!report.useless_fallback);
}

#[test]
fn error_messages_name_the_offending_key() {
    let err = failed(
        "before_run = { commandz = \"x\" }\n\
         run = { subcommand_of = \"x\" }\n",
    );
    assert_eq!(
        err.describe(),
        "unrecognised key \"commandz\", expected \"command\" or \"script_path\""
    );
    let err = failed(
        "before_run = { command = \"x\" }\n\
         run = { pathz = \"x\" }\n",
    );
    assert_eq!(
        err.describe(),
        "unrecognised key \"pathz\", expected \"subcommand_of\" or \"path\""
    );
}
