use codepack::constants::unsupported_extension_list;
use codepack::filter::{
    filters_pass, filters_pass_path, has_allowed_extension, select, should_include,
};
use codepack::processor::decide_walk;
use codepack::{DirectoryProcessor, ExclusionRuleSet, Filter, WalkAction};

fn texts(list: &[&str]) -> Vec<String> {
    list.iter().map(|s| s.to_string()).collect()
}

fn processor(extensions: &[&str], excluded: &[&str], filters: Vec<Filter>) -> DirectoryProcessor {
    DirectoryProcessor::new(texts(extensions), texts(excluded), false, String::new(), false, filters)
}

#[test]
fn selection_gives_the_same_answer_every_time() {
    let p = processor(&["rs"], &["*.py"], vec![Filter::PathContains("src".to_string())]);
    for path in ["src/main.rs", "src/main.py", "LICENSE", "", "docs/main.rs"] {
        let first = p.should_process_file(path);
        for _ in 0..3 {
            assert_eq!(p.should_process_file(path), first);
        }
    }
}

#[test]
fn default_exclusions_hold_for_every_configuration() {
    let configurations = [
        processor(&[], &[], vec![]),
        processor(&["txt", "gitignore"], &[], vec![]),
        processor(&[], &["*.py"], vec![]),
        processor(&[], &[], vec![Filter::FileName("LICENSE".to_string())]),
        processor(&[], &[], vec![Filter::ContentContains("x".to_string())]),
    ];
    for p in configurations.iter() {
        assert!(!p.should_process_file("LICENSE"));
        assert!(!p.should_process_file("LICENSE.txt"));
        assert!(!p.should_process_file("docs/MY_LICENSE_NOTES"));
        assert!(!p.should_process_file(".gitignore"));
        assert!(!p.should_process_file("a/b/.gitignore"));
        assert!(p.should_prune_directory("node_modules"));
        assert!(p.should_prune_directory("web/app/node_modules"));
        assert!(p.should_prune_directory("node_modules/"));
        assert!(p.should_prune_directory(".git"));
        assert!(p.should_prune_directory("/repo/.git"));
        assert!(!p.should_prune_directory("src"));
        assert!(!p.should_prune_directory("/repo/.github"));
    }
}

#[test]
fn unsupported_extensions_are_excluded_even_when_asked_for() {
    for extension in unsupported_extension_list() {
        let path = format!("x.{}", extension);
        let nested = format!("assets/deep/x.{}", extension);
        let plain = processor(&[], &[], vec![]);
        let asked = processor(&[extension], &[], vec![]);
        assert!(!plain.should_process_file(&path), "{}", path);
        assert!(!asked.should_process_file(&path), "{}", path);
        assert!(!asked.should_process_file(&nested), "{}", nested);
    }
}

#[test]
fn no_rules_no_extensions_no_filters_accepts_every_file() {
    let rules = ExclusionRuleSet::compile(&vec![]).expect("no patterns");
    for path in ["test.txt", "LICENSE", ".gitignore", "x.png", "a/b/c", "node_modules/x.js", "weird name", ".."] {
        assert!(should_include(path, &rules, &vec![], &vec![]), "{}", path);
    }
    assert!(!should_include("", &rules, &vec![], &vec![]));
}

#[test]
fn user_glob_excludes_what_it_matches_and_no_more() {
    let only = ExclusionRuleSet::compile(&texts(&["*.py"])).expect("a valid pattern");
    assert!(!should_include("script.py", &only, &vec![], &vec![]));
    assert!(should_include("script.pyc", &only, &vec![], &vec![]));

    // With the whole rule set, `pyc` is excluded as an unsupported extension.
    let p = processor(&[], &["*.py"], vec![]);
    assert!(!p.should_process_file("script.py"));
    assert!(!p.should_process_file("script.pyc"));
    assert!(p.should_process_file("script.pyx"));
}

#[test]
fn user_literal_excludes_the_base_name_at_any_depth() {
    let p = processor(&[], &["status"], vec![]);
    assert!(!p.should_process_file("status"));
    assert!(!p.should_process_file("a/status"));
    assert!(!p.should_process_file("/a/b/status"));
    assert!(!p.should_process_file("./status"));
    assert!(p.should_process_file("/a/b/status.txt"));
    assert!(p.should_process_file("/a/status/b"));
    assert!(p.should_process_file("/a/b/Status"));
}

#[test]
fn extensions_compare_case_sensitively() {
    let p = processor(&["rs", "toml"], &[], vec![]);
    assert!(p.should_process_file("main.rs"));
    assert!(p.should_process_file("Cargo.toml"));
    assert!(!p.should_process_file("main.RS"));
    assert!(!p.should_process_file("main.rss"));
    assert!(!p.should_process_file("rs"));
    assert!(!p.should_process_file("Makefile"));
    assert!(!p.should_process_file(".rs"));
}

#[test]
fn has_allowed_extension_is_membership() {
    assert!(has_allowed_extension("anything", &vec![]));
    assert!(has_allowed_extension("a.b", &texts(&["x", "b"])));
    assert!(!has_allowed_extension("a.b", &texts(&["x", "B"])));
    assert!(!has_allowed_extension("ab", &texts(&["ab"])));
}

#[test]
fn filters_combine_with_or() {
    let filters = vec![
        Filter::FileName("main".to_string()),
        Filter::PathContains("tests/".to_string()),
    ];
    assert!(filters_pass_path("src/main.rs", &filters));
    assert!(filters_pass_path("tests/unit.rs", &filters));
    assert!(!filters_pass_path("src/lib.rs", &filters));
    // The name filter looks at the base name only.
    assert!(!filters_pass_path("main/lib.rs", &filters));
    assert!(filters_pass_path("anything", &vec![]));
}

#[test]
fn content_filter_is_deferred_until_the_content_is_read() {
    let filters = vec![Filter::ContentContains("needle".to_string())];
    assert!(filters_pass_path("src/lib.rs", &filters));
    assert!(filters_pass("src/lib.rs", "hay needle hay", &filters));
    assert!(!filters_pass("src/lib.rs", "hay hay", &filters));
}

#[test]
fn a_name_or_path_match_passes_whatever_the_content() {
    let filters = vec![
        Filter::FileName("main".to_string()),
        Filter::ContentContains("needle".to_string()),
    ];
    assert!(filters_pass("src/main.rs", "no match in content", &filters));
    assert!(filters_pass("src/lib.rs", "needle", &filters));
    assert!(!filters_pass("src/lib.rs", "nothing", &filters));
    assert!(filters_pass("src/lib.rs", "nothing", &vec![]));
}

#[test]
fn filters_do_not_replace_the_extension_check() {
    let p = processor(&["rs"], &[], vec![Filter::FileName("main".to_string())]);
    assert!(p.should_process_file("src/main.rs"));
    assert!(!p.should_process_file("src/main.py"));
    assert!(!p.should_process_file("src/lib.rs"));
}

#[test]
fn filters_do_not_override_exclusions() {
    let p = processor(&[], &["secret*"], vec![Filter::FileName("secret".to_string())]);
    assert!(!p.should_process_file("secret.txt"));
    assert!(p.should_process_file("my_secret.txt"));
}

#[test]
fn classify_prunes_collects_or_skips() {
    let p = processor(&["rs"], &["target"], vec![]);
    assert_eq!(p.classify("proj/target", true, false), WalkAction::Prune);
    assert_eq!(p.classify("proj/node_modules", true, false), WalkAction::Prune);
    assert_eq!(p.classify("proj/src", true, false), WalkAction::Skip);
    assert_eq!(p.classify("proj/src/main.rs", false, true), WalkAction::Collect);
    assert_eq!(p.classify("proj/src/main.py", false, true), WalkAction::Skip);
    assert_eq!(p.classify("proj/target", false, true), WalkAction::Skip);
    assert_eq!(p.classify("proj/src/main.rs", false, false), WalkAction::Skip);
    assert_eq!(p.classify("", false, true), WalkAction::Skip);
}

#[test]
fn try_new_builds_or_reports_the_first_bad_pattern() {
    let built = DirectoryProcessor::try_new(texts(&["rs"]), texts(&["*.py"]), true, "out.txt".to_string(), true, vec![]);
    let p = built.expect("valid patterns");
    assert_eq!(p.output(), "out.txt");
    assert!(p.force());
    assert!(p.suppress_prompt());
    assert_eq!(p.extensions(), &texts(&["rs"]));
    assert_eq!(p.filters().len(), 0);
    assert_eq!(p.rules().len(), 57);
    assert_eq!(p.rules().pattern(4), "*.py");

    let failed = DirectoryProcessor::try_new(vec![], texts(&["ok", "[bad"]), false, String::new(), false, vec![]);
    assert_eq!(failed.err().expect("a malformed pattern").pattern(), "[bad");
}

#[test]
fn select_decides_from_the_path_and_the_exclusion() {
    let none: Vec<String> = vec![];
    assert!(select("test.txt", false, &none, &vec![]));
    assert!(!select("test.txt", true, &none, &vec![]));
    assert!(!select("", false, &none, &vec![]));
    assert!(select("main.rs", false, &texts(&["rs"]), &vec![]));
    assert!(!select("main.rs", true, &texts(&["rs"]), &vec![]));
    assert!(!select("main.py", false, &texts(&["rs"]), &vec![]));
    let filters = vec![Filter::PathContains("src/".to_string())];
    assert!(select("src/main.rs", false, &texts(&["rs"]), &filters));
    assert!(!select("lib/main.rs", false, &texts(&["rs"]), &filters));
    assert!(!select("src/main.py", false, &texts(&["rs"]), &filters));
    assert!(select("src/main.py", false, &none, &filters));
}

#[test]
fn decide_walk_puts_the_directory_first() {
    assert_eq!(decide_walk(true, true, false, false), WalkAction::Prune);
    assert_eq!(decide_walk(true, true, true, true), WalkAction::Prune);
    assert_eq!(decide_walk(true, false, true, true), WalkAction::Collect);
    assert_eq!(decide_walk(false, true, true, true), WalkAction::Collect);
    assert_eq!(decide_walk(false, true, true, false), WalkAction::Skip);
    assert_eq!(decide_walk(true, false, false, true), WalkAction::Skip);
    assert_eq!(decide_walk(false, false, false, false), WalkAction::Skip);
}

#[test]
fn classify_takes_everything_below_a_pruned_directory_along() {
    let p = processor(&[], &["target"], vec![]);
    assert_eq!(p.classify("d/node_modules/a.js", false, true), WalkAction::Skip);
    assert_eq!(p.classify("d/node_modules/pkg", true, false), WalkAction::Prune);
    assert_eq!(p.classify(".git/hooks/pre-commit", false, true), WalkAction::Skip);
    assert_eq!(p.classify("target/debug/main.rs", false, true), WalkAction::Skip);
    assert_eq!(p.classify("d/src/b.js", false, true), WalkAction::Collect);
    assert_eq!(p.classify("d/node_modules.txt", false, true), WalkAction::Collect);
    assert_eq!(p.classify("", true, false), WalkAction::Skip);
}

#[test]
fn lies_under_pruned_directory_goes_by_the_parts_of_the_path() {
    let p = processor(&[], &[], vec![]);
    assert!(p.lies_under_pruned_directory("node_modules/a.js"));
    assert!(p.lies_under_pruned_directory("a/b/node_modules/c/d.js"));
    assert!(p.lies_under_pruned_directory("/abs/.git/config"));
    assert!(p.lies_under_pruned_directory("a//node_modules//x"));
    assert!(!p.lies_under_pruned_directory("node_modules"));
    assert!(!p.lies_under_pruned_directory("a/node_modules"));
    assert!(!p.lies_under_pruned_directory("a/b/c.js"));
    assert!(!p.lies_under_pruned_directory("a/my_node_modules/c.js"));
    assert!(!p.lies_under_pruned_directory(""));
    assert!(!p.lies_under_pruned_directory("/"));
}
