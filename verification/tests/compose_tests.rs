//! Tests for command composition: tokenization, the three run forms, the
//! fallback forms, and the search-path rewrite.

use get_it_going::compose::{exe_name, retokenized, ComposeError};
use get_it_going::parse::load_config;
use get_it_going::schema::AppConfig;
use get_it_going::searchpath::strip_path_entry;

fn config(before_run: &str, run: &str, fallback: Option<&str>) -> AppConfig {
    let mut text = format!("before_run = {}\nrun = {}\n", before_run, run);
    if let Some(fb) = fallback {
        text.push_str(&format!("fallback = {}\n", fb));
    }
    load_config(&text).expect("should parse")
}

#[test]
fn before_run_command_is_tokenized() {
    let cfg = config("{ command = \"echo hello\" }", "{ subcommand_of = \"x\" }", None);
    let spec = cfg
        .generate_before_run(&"/root/dir".to_string())
        .expect("should compose");
    assert_eq!(spec.program, "echo");
    assert_eq!(spec.args, vec!["hello".to_string()]);
    assert_eq!(spec.cwd, Some("/root/dir".to_string()));
    assert!(spec.env.is_empty());
}

#[test]
fn before_run_command_honours_quoting() {
    let cfg = config(
        "{ command = \"say 'a b' c\" }",
        "{ subcommand_of = \"x\" }",
        None,
    );
    let spec = cfg
        .generate_before_run(&"/r".to_string())
        .expect("should compose");
    assert_eq!(spec.program, "say");
    assert_eq!(spec.args, vec!["a b".to_string(), "c".to_string()]);
}

#[test]
fn before_run_unclosed_quote_is_a_syntax_error() {
    let cfg = config(
        "{ command = \"echo 'unclosed\" }",
        "{ subcommand_of = \"x\" }",
        None,
    );
    assert_eq!(
        cfg.generate_before_run(&"/r".to_string()),
        Err(ComposeError::BeforeRunSyntax)
    );
}

#[test]
fn before_run_blank_command_has_no_program() {
    let cfg = config("{ command = \"   \" }", "{ subcommand_of = \"x\" }", None);
    assert_eq!(
        cfg.generate_before_run(&"/r".to_string()),
        Err(ComposeError::BeforeRunNoProgram)
    );
}

#[test]
fn before_run_script_runs_bare() {
    let cfg = config(
        "{ script_path = \"/setup.sh\" }",
        "{ subcommand_of = \"x\" }",
        None,
    );
    let spec = cfg
        .generate_before_run(&"/r".to_string())
        .expect("should compose");
    assert_eq!(spec.program, "/setup.sh");
    assert!(spec.args.is_empty());
    assert_eq!(spec.cwd, Some("/r".to_string()));
}

#[test]
fn subcommand_run_prepends_the_identity() {
    // Identity `mytool` under an outer program: the composed command is
    // `outer mytool build --release`, run from the resolved root.
    let cfg = config("{ command = \"x\" }", "{ subcommand_of = \"outer\" }", None);
    let spec = cfg.generate_run(
        &"/work".to_string(),
        &"mytool".to_string(),
        &vec!["build".to_string(), "--release".to_string()],
        false,
    );
    assert_eq!(spec.program, "outer");
    assert_eq!(
        spec.args,
        vec!["mytool".to_string(), "build".to_string(), "--release".to_string()]
    );
    assert_eq!(spec.cwd, Some("/work".to_string()));
    assert!(spec.env.is_empty());
}

#[test]
fn folder_run_appends_the_platform_executable() {
    let cfg = config("{ command = \"x\" }", "{ path = \"/opt/tools/\" }", None);
    let args = vec!["run".to_string()];
    let unix = cfg.generate_run(&"/w".to_string(), &"gig".to_string(), &args, false);
    assert_eq!(unix.program, "/opt/tools/gig");
    assert_eq!(unix.args, args);
    let windows = cfg.generate_run(&"/w".to_string(), &"gig".to_string(), &args, true);
    assert_eq!(windows.program, "/opt/tools/gig.exe");
}

#[test]
fn executable_run_uses_the_literal_path() {
    let cfg = config("{ command = \"x\" }", "{ path = \"/usr/bin/tool\" }", None);
    let args = vec!["a".to_string()];
    let spec = cfg.generate_run(&"/w".to_string(), &"gig".to_string(), &args, false);
    assert_eq!(spec.program, "/usr/bin/tool");
    assert_eq!(spec.args, args);
}

#[test]
fn exe_name_appends_exe_only_on_windows() {
    assert_eq!(exe_name(&"tool".to_string(), false), "tool");
    assert_eq!(exe_name(&"tool".to_string(), true), "tool.exe");
}

#[test]
fn explicit_fallback_runs_the_given_path() {
    let cfg = config(
        "{ command = \"x\" }",
        "{ subcommand_of = \"x\" }",
        Some("{ path = \"/bin/other\" }"),
    );
    let spec = cfg
        .generate_fallback(
            &"gig".to_string(),
            &vec!["a".to_string()],
            &"/opt/gig".to_string(),
            &"/usr/bin:/opt/gig:/bin".to_string(),
        )
        .expect("fallback is configured");
    assert_eq!(spec.program, "/bin/other");
    assert_eq!(spec.args, vec!["a".to_string()]);
    assert_eq!(spec.cwd, None);
    assert!(spec.env.is_empty());
}

#[test]
fn pathless_fallback_reinvokes_the_identity_without_the_launcher_dir() {
    let cfg = config(
        "{ command = \"x\" }",
        "{ subcommand_of = \"x\" }",
        Some("{}"),
    );
    let spec = cfg
        .generate_fallback(
            &"gig".to_string(),
            &vec!["a".to_string(), "b".to_string()],
            &"/opt/gig".to_string(),
            &"/usr/bin:/opt/gig:/bin".to_string(),
        )
        .expect("fallback is configured");
    assert_eq!(spec.program, "gig");
    assert_eq!(spec.args, vec!["a".to_string(), "b".to_string()]);
    assert_eq!(spec.cwd, None);
    assert_eq!(
        spec.env,
        vec![("PATH".to_string(), "/usr/bin:/bin".to_string())]
    );
}

#[test]
fn no_fallback_composes_nothing() {
    let cfg = config("{ command = \"x\" }", "{ subcommand_of = \"x\" }", None);
    assert!(cfg
        .generate_fallback(
            &"gig".to_string(),
            &Vec::new(),
            &"/opt/gig".to_string(),
            &"/usr/bin".to_string(),
        )
        .is_none());
}

#[test]
fn strip_path_entry_keeps_order_and_other_segments() {
    assert_eq!(
        strip_path_entry("/usr/bin:/opt/gig:/bin", &"/opt/gig".to_string()),
        "/usr/bin:/bin"
    );
    assert_eq!(
        strip_path_entry("/opt/gig:/opt/gig:/bin", &"/opt/gig".to_string()),
        "/bin"
    );
    assert_eq!(
        strip_path_entry("/usr/bin:/bin", &"/opt/gig".to_string()),
        "/usr/bin:/bin"
    );
    assert_eq!(strip_path_entry("/opt/gig", &"/opt/gig".to_string()), "");
    assert_eq!(
        strip_path_entry("/usr/local/bin:/usr/bin", &"/usr".to_string()),
        "/usr/local/bin:/usr/bin"
    );
}

#[test]
fn tokenize_then_rejoin_is_stable() {
    // Tokenizing, re-joining with single spaces, and tokenizing again
    // yields the same words.
    let (words, joined) = retokenized("echo hello world").expect("should tokenize");
    assert_eq!(words, vec!["echo", "hello", "world"]);
    assert_eq!(joined, "echo hello world");
    let (again, _) = retokenized(&joined).expect("should tokenize again");
    assert_eq!(again, words);
}

#[test]
fn tokenize_then_rejoin_is_stable_under_quoting() {
    let (words, joined) = retokenized("say 'a b' c").expect("should tokenize");
    assert_eq!(words, vec!["say", "a b", "c"]);
    let (again, _) = retokenized(&joined).expect("should tokenize again");
    assert_eq!(again, words);
}

#[test]
fn rejoin_fails_only_on_nul_words() {
    assert!(retokenized("a\u{0}b").is_none());
    assert!(retokenized("plain words survive").is_some());
}
