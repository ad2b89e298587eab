//! Tests for root resolution and the path model it walks.

use get_it_going::parse::load_config;
use get_it_going::pathstr::{ancestor_chain, ends_with_sep, join_path, parent_dir};
use get_it_going::schema::AppConfig;

fn config_with(required: &[&str], search_parents: bool) -> AppConfig {
    let mut text = String::from("required_files = [");
    for (i, f) in required.iter().enumerate() {
        if i > 0 {
            text.push_str(", ");
        }
        text.push_str(&format!("\"{}\"", f));
    }
    text.push_str("]\n");
    text.push_str(&format!("search_parents = {}\n", search_parents));
    text.push_str("before_run = { command = \"echo hi\" }\n");
    text.push_str("run = { subcommand_of = \"outer\" }\n");
    load_config(&text).expect("should parse")
}

#[test]
fn join_inserts_separator_only_when_needed() {
    assert_eq!(join_path("/a/b", "x.json"), "/a/b/x.json");
    assert_eq!(join_path("/a/b/", "x.json"), "/a/b/x.json");
    assert_eq!(join_path("/", "x"), "/x");
    assert!(ends_with_sep("/a/"));
    assert!(!ends_with_sep("/a"));
    assert!(!ends_with_sep(""));
}

#[test]
fn parent_walks_one_component_at_a_time() {
    assert_eq!(parent_dir("/a/b/c"), Some("/a/b".to_string()));
    assert_eq!(parent_dir("/a/b"), Some("/a".to_string()));
    assert_eq!(parent_dir("/a"), Some("/".to_string()));
    assert_eq!(parent_dir("/"), None);
    assert_eq!(parent_dir("plain"), None);
}

#[test]
fn ancestors_run_nearest_first_to_the_top() {
    let chain = ancestor_chain(&"/a/b/c".to_string());
    assert_eq!(chain, vec!["/a/b/c", "/a/b", "/a", "/"]);
    assert_eq!(ancestor_chain(&"/".to_string()), vec!["/"]);
}

#[test]
fn empty_required_files_always_resolve_to_cwd() {
    let cfg = config_with(&[], false);
    let cwd = "/a/b/c".to_string();
    let matrix = cfg.probe_matrix(&cwd);
    assert_eq!(matrix, vec![Vec::<String>::new()]);
    let found = vec![Vec::<bool>::new()];
    assert_eq!(cfg.get_root(&cwd, &found), Some(cwd.clone()));

    let searching = config_with(&[], true);
    assert_eq!(searching.get_root(&cwd, &found), Some(cwd.clone()));
}

#[test]
fn without_parent_search_only_cwd_is_probed() {
    let cfg = config_with(&["package.json", "Makefile"], false);
    let cwd = "/a/b".to_string();
    let matrix = cfg.probe_matrix(&cwd);
    assert_eq!(
        matrix,
        vec![vec!["/a/b/package.json".to_string(), "/a/b/Makefile".to_string()]]
    );
    assert_eq!(
        cfg.get_root(&cwd, &vec![vec![true, true]]),
        Some(cwd.clone())
    );
    assert_eq!(cfg.get_root(&cwd, &vec![vec![true, false]]), None);
    assert_eq!(cfg.get_root(&cwd, &vec![vec![false, true]]), None);
}

#[test]
fn parent_search_finds_nearest_ancestor() {
    // The required file exists only at /a/b, two levels above the working
    // directory: resolution must land exactly there.
    let cfg = config_with(&["package.json"], true);
    let cwd = "/a/b/c".to_string();
    let matrix = cfg.probe_matrix(&cwd);
    assert_eq!(
        matrix,
        vec![
            vec!["/a/b/c/package.json".to_string()],
            vec!["/a/b/package.json".to_string()],
            vec!["/a/package.json".to_string()],
            vec!["/package.json".to_string()],
        ]
    );
    let found = vec![vec![false], vec![true], vec![false], vec![false]];
    assert_eq!(cfg.get_root(&cwd, &found), Some("/a/b".to_string()));
}

#[test]
fn parent_search_prefers_the_closer_of_two_roots() {
    let cfg = config_with(&["marker"], true);
    let cwd = "/a/b/c".to_string();
    let found = vec![vec![false], vec![true], vec![true], vec![false]];
    assert_eq!(cfg.get_root(&cwd, &found), Some("/a/b".to_string()));
}

#[test]
fn parent_search_with_no_match_anywhere_fails() {
    let cfg = config_with(&["package.json"], true);
    let cwd = "/a/b/c".to_string();
    let found = vec![vec![false], vec![false], vec![false], vec![false]];
    assert_eq!(cfg.get_root(&cwd, &found), None);
}

#[test]
fn cwd_itself_wins_when_it_qualifies() {
    let cfg = config_with(&["marker"], true);
    let cwd = "/a/b/c".to_string();
    let found = vec![vec![true], vec![true], vec![false], vec![false]];
    assert_eq!(cfg.get_root(&cwd, &found), Some(cwd.clone()));
}
