//! Tests for the dispatch decisions and the exit-code mapping.

use get_it_going::dispatch::{exit_code_from_status, DispatchError, Step};
use get_it_going::parse::load_config;
use get_it_going::schema::AppConfig;

fn config(text: &str) -> AppConfig {
    load_config(text).expect("should parse")
}

#[test]
fn full_dispatch_runs_setup_then_main() {
    // A setup command that exits cleanly hands over to the main program,
    // and the launcher's exit code mirrors that child's.
    let cfg = config(
        "before_run = { command = \"echo hello\" }\n\
         run = { path = \"/usr/local/bin/real-tool\" }\n",
    );
    let root = "/work".to_string();
    let forwarded = vec!["--fast".to_string()];

    let first = cfg.first_step(Some(&root), &forwarded);
    let before = match first {
        Step::RunBefore(c) => c,
        other => panic!("expected the setup step, got {:?}", other),
    };
    assert_eq!(before.program, "echo");
    assert_eq!(before.args, vec!["hello".to_string()]);
    assert_eq!(before.cwd, Some(root.clone()));

    let next = cfg.after_before_run(&root, &"mytool".to_string(), &forwarded, false, true);
    let main_spec = match next {
        Step::RunMain(c) => c,
        other => panic!("expected the main step, got {:?}", other),
    };
    assert_eq!(main_spec.program, "/usr/local/bin/real-tool");
    assert_eq!(main_spec.args, forwarded);
    assert_eq!(main_spec.cwd, Some(root.clone()));

    assert_eq!(exit_code_from_status(Some(5), false), 5);
    assert_eq!(exit_code_from_status(Some(0), true), 0);
}

#[test]
fn failed_setup_stops_the_dispatch() {
    let cfg = config(
        "before_run = { command = \"false\" }\n\
         run = { path = \"/usr/local/bin/real-tool\" }\n",
    );
    let root = "/work".to_string();
    let step = cfg.after_before_run(&root, &"mytool".to_string(), &Vec::new(), false, false);
    assert_eq!(step, Step::Fail(DispatchError::BeforeRunFailed));
}

#[test]
fn no_root_without_fallback_is_fatal() {
    let cfg = config(
        "required_files = [\"package.json\"]\n\
         before_run = { command = \"x\" }\n\
         run = { subcommand_of = \"x\" }\n",
    );
    let step = cfg.first_step(None, &Vec::new());
    assert_eq!(step, Step::Fail(DispatchError::NoRoot));
}

#[test]
fn no_root_with_explicit_fallback_runs_it() {
    let cfg = config(
        "required_files = [\"package.json\"]\n\
         before_run = { command = \"x\" }\n\
         run = { subcommand_of = \"x\" }\n\
         fallback = { path = \"/bin/other\" }\n",
    );
    let forwarded = vec!["a".to_string()];
    let step = cfg.first_step(None, &forwarded);
    let spec = match step {
        Step::RunFallback(c) => c,
        other => panic!("expected the fallback step, got {:?}", other),
    };
    assert_eq!(spec.program, "/bin/other");
    assert_eq!(spec.args, forwarded);
    assert_eq!(spec.cwd, None);
}

#[test]
fn no_root_with_pathless_fallback_asks_for_the_environment() {
    let cfg = config(
        "required_files = [\"package.json\"]\n\
         before_run = { command = \"x\" }\n\
         run = { subcommand_of = \"x\" }\n\
         fallback = {}\n",
    );
    assert_eq!(cfg.first_step(None, &Vec::new()), Step::RunPathFallback);
}

#[test]
fn bad_setup_command_is_refused_before_spawning() {
    let cfg = config(
        "before_run = { command = \"echo 'oops\" }\n\
         run = { subcommand_of = \"x\" }\n",
    );
    let step = cfg.first_step(Some(&"/w".to_string()), &Vec::new());
    assert!(matches!(step, Step::Fail(DispatchError::BadBeforeRun(_))));
}

#[test]
fn exit_codes_map_to_a_single_byte() {
    assert_eq!(exit_code_from_status(Some(0), true), 0);
    assert_eq!(exit_code_from_status(Some(3), false), 3);
    assert_eq!(exit_code_from_status(Some(-9), false), 9);
    assert_eq!(exit_code_from_status(Some(255), false), 255);
    assert_eq!(exit_code_from_status(Some(300), false), 44);
    assert_eq!(exit_code_from_status(Some(-256), false), 0);
    assert_eq!(exit_code_from_status(None, true), 0);
    assert_eq!(exit_code_from_status(None, false), 1);
}
